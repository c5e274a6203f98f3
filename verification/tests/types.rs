use wattseal_ui::types::{AppLanguage, MetricType, TimeRange};

const ALL: [TimeRange; 6] = [
    TimeRange::LastMinute,
    TimeRange::LastHour,
    TimeRange::Last24Hours,
    TimeRange::LastWeek,
    TimeRange::LastMonth,
    TimeRange::LastYear,
];

#[test]
fn time_range_seconds_units_and_granularity() {
    let seconds: Vec<i64> = ALL.iter().map(|r| r.seconds()).collect();
    assert_eq!(seconds, vec![60, 3_600, 86_400, 604_800, 2_592_000, 31_536_000]);
    let units: Vec<&str> = ALL.iter().map(|r| r.unit()).collect();
    assert_eq!(units, vec!["s", "min", "h", "h", "d", "d"]);
    let granularity: Vec<i64> = ALL.iter().map(|r| r.granularity_seconds()).collect();
    assert_eq!(granularity, vec![1, 60, 3_600, 3_600, 86_400, 604_800]);
}

#[test]
fn time_range_modes() {
    assert!(TimeRange::LastMinute.is_real_time());
    assert!(!TimeRange::LastHour.is_real_time());
    let energy: Vec<bool> = ALL.iter().map(|r| r.is_energy_mode()).collect();
    assert_eq!(energy, vec![false, false, true, true, true, true]);
    let units: Vec<&str> = ALL.iter().map(|r| r.power_unit()).collect();
    assert_eq!(units, vec!["W", "W", "Wh", "Wh", "Wh", "Wh"]);
}

#[test]
fn time_range_lists_and_default() {
    assert_eq!(TimeRange::all_total(), &ALL[..]);
    assert_eq!(TimeRange::all_component(), &ALL[..3]);
    assert_eq!(TimeRange::default(), TimeRange::LastMinute);
}

#[test]
fn time_range_duration_is_chrono_seconds() {
    for r in ALL {
        assert_eq!(r.duration_seconds(), chrono::Duration::seconds(r.seconds()));
        assert_eq!(r.duration_seconds().num_seconds(), r.seconds());
    }
}

#[test]
fn time_range_display_names() {
    let names: Vec<String> = ALL.iter().map(|r| r.to_string()).collect();
    assert_eq!(
        names,
        vec!["Last Minute", "Last Hour", "Last 24 Hours", "Last Week", "Last Month", "Last Year"]
    );
}

#[test]
fn language_codes_round_trip() {
    assert_eq!(AppLanguage::all(), &[AppLanguage::English, AppLanguage::French]);
    for l in AppLanguage::all() {
        assert_eq!(AppLanguage::from_code(l.code()), *l);
    }
    assert_eq!(AppLanguage::English.code(), "EN");
    assert_eq!(AppLanguage::French.code(), "FR");
    assert_eq!(AppLanguage::from_code("DE"), AppLanguage::English);
    assert_eq!(AppLanguage::from_code("fr"), AppLanguage::English);
    assert_eq!(AppLanguage::from_code(""), AppLanguage::English);
    assert_eq!(AppLanguage::default(), AppLanguage::English);
    assert_eq!(AppLanguage::English.to_string(), "English");
    assert_eq!(AppLanguage::French.to_string(), "Français");
}

#[test]
fn metric_type_default_is_power() {
    assert_eq!(MetricType::default(), MetricType::Power);
}
