use wattseal_ui::pages::info::{format_bytes_gb, format_display_mode};
use wattseal_ui::text::{decimal_string, str_eq};
use wattseal_ui::types::AppLanguage;

fn reference_gb(bytes: u64) -> String {
    format!("{:.2} GB", bytes as f64 / (1024.0 * 1024.0 * 1024.0))
}

#[test]
fn format_bytes_gb_zero_is_not_available() {
    assert_eq!(format_bytes_gb(0, AppLanguage::English), "N/A");
    assert_eq!(format_bytes_gb(0, AppLanguage::French), "N/A");
}

#[test]
fn format_bytes_gb_exact_values() {
    assert_eq!(format_bytes_gb(1024 * 1024 * 1024, AppLanguage::English), "1.00 GB");
    assert_eq!(format_bytes_gb(16 * 1024 * 1024 * 1024, AppLanguage::English), "16.00 GB");
    assert_eq!(format_bytes_gb(1536 * 1024 * 1024, AppLanguage::French), "1.50 GB");
    assert_eq!(format_bytes_gb(1, AppLanguage::English), "0.00 GB");
}

#[test]
fn format_bytes_gb_ties_round_to_even() {
    // 0.125 GB and 0.375 GB are exact halves of a hundredth.
    assert_eq!(format_bytes_gb(134_217_728, AppLanguage::English), reference_gb(134_217_728));
    assert_eq!(format_bytes_gb(402_653_184, AppLanguage::English), reference_gb(402_653_184));
    assert_eq!(format_bytes_gb(134_217_728, AppLanguage::English), "0.12 GB");
    assert_eq!(format_bytes_gb(402_653_184, AppLanguage::English), "0.38 GB");
}

#[test]
fn format_bytes_gb_matches_float_formatting() {
    let mut samples: Vec<u64> = vec![
        1, 999, 5_368_709, 10_737_418, 512 * 1024 * 1024, 987_654_321, 123_456_789_012,
        (1u64 << 53) - 1, 1u64 << 53, (1u64 << 53) + 1, (1u64 << 53) + 3, (1u64 << 60) + 12345,
        u64::MAX, u64::MAX - 1, u64::MAX / 3,
    ];
    let mut x: u64 = 0x9E37_79B9_7F4A_7C15;
    for _ in 0..2000 {
        x ^= x << 13;
        x ^= x >> 7;
        x ^= x << 17;
        samples.push(x >> (x % 64));
    }
    for k in 1..200u64 {
        samples.push(k * 134_217_728);
        samples.push(k * 10_737_418);
    }
    for b in samples {
        if b != 0 {
            assert_eq!(format_bytes_gb(b, AppLanguage::English), reference_gb(b), "bytes = {}", b);
        }
    }
}

#[test]
fn format_display_mode_with_and_without_rate() {
    assert_eq!(format_display_mode("1920x1080", 60), "1920x1080 @ 60 Hz");
    assert_eq!(format_display_mode("2560x1440", 144), "2560x1440 @ 144 Hz");
    assert_eq!(format_display_mode("1920x1080", 0), "1920x1080");
}

#[test]
fn decimal_string_matches_display() {
    for n in [0u64, 7, 10, 99, 100, 12345, u64::MAX] {
        assert_eq!(decimal_string(n), n.to_string());
    }
}

#[test]
fn str_eq_compares_characters() {
    assert!(str_eq("Réseau", "Réseau"));
    assert!(!str_eq("Réseau", "Reseau"));
    assert!(!str_eq("abc", "abcd"));
    assert!(str_eq("", ""));
}
