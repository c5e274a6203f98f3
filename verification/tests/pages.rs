use wattseal_ui::components::hardware_card::{Accent, InfoField};
use wattseal_ui::components::header::Header;
use wattseal_ui::components::sensors::SensorTableNames;
use wattseal_ui::icons::Icon;
use wattseal_ui::pages::info::{
    info_cards, BatteryInfo, CpuInfo, DiskInfo, DisplayInfo, HardwareInfo, MemoryInfo, SystemInfo,
};
use wattseal_ui::pages::Page;
use wattseal_ui::types::AppLanguage;

fn tables() -> SensorTableNames {
    SensorTableNames {
        cpu: "cpu_data".to_string(),
        gpu: "gpu_data".to_string(),
        ram: "ram_data".to_string(),
        disk: "disk_data".to_string(),
        network: "network_data".to_string(),
        process: "process_data".to_string(),
        total: "total_data".to_string(),
    }
}

fn empty_hardware() -> HardwareInfo {
    HardwareInfo {
        cpu: CpuInfo { name: "Ryzen 7".to_string(), physical_cores: 8, logical_cores: 16 },
        gpus: vec![],
        memory: MemoryInfo { total_ram_bytes: 16 * 1024 * 1024 * 1024, total_swap_bytes: 0 },
        system: SystemInfo { os: "Linux".to_string(), hostname: "box".to_string() },
        disks: vec![],
        battery: BatteryInfo { present: false, name: None, design_capacity_wh_text: None, cycle_count: None },
        displays: vec![],
    }
}

#[test]
fn pages_in_navigation_order() {
    assert_eq!(Page::all(), vec![Page::Dashboard, Page::Info, Page::Optimization]);
    assert_eq!(Page::Info.translated_name(AppLanguage::French), "Infos");
    assert_eq!(Page::Optimization.translated_name(AppLanguage::French), "Optimisation");
    assert_eq!(Page::Dashboard.translated_name(AppLanguage::English), "Dashboard");
    assert_eq!(Page::Optimization.to_string(), "Optimization");
}

#[test]
fn header_tracks_active_page() {
    let mut header = Header::new(Page::all(), Page::Dashboard);
    assert!(header.is_active(Page::Dashboard));
    header.change_page(Page::Info);
    assert_eq!(header.active_page(), Page::Info);
    assert!(!header.is_active(Page::Dashboard));
    assert_eq!(header.nav_pages(), &Page::all());
}

#[test]
fn info_field_keeps_label_and_value() {
    let f = InfoField::new("Model", "X");
    assert_eq!(f.label, "Model");
    assert_eq!(f.value, "X");
}

#[test]
fn info_cards_without_devices_use_placeholders() {
    let cards = info_cards(&empty_hardware(), AppLanguage::English, &tables());
    let titles: Vec<&str> = cards.iter().map(|c| c.title.as_str()).collect();
    assert_eq!(titles, vec!["CPU", "GPU", "Memory", "System", "Storage", "Battery", "Display"]);
    assert_eq!(cards[0].icon, Icon::CPU);
    assert_eq!(cards[0].accent, Accent::Primary);
    assert_eq!(cards[0].field.value, "Ryzen 7");
    assert_eq!(cards[0].optional_field.as_ref().unwrap().value, "8 cores / 16 threads");
    assert_eq!(cards[0].info_key.as_deref(), Some("cpu_data"));
    assert_eq!(cards[1].subtitle, "Graphics Information");
    assert_eq!(cards[1].field.value, "N/A");
    assert!(cards[1].optional_field.is_none());
    assert_eq!(cards[2].field.value, "16.00 GB");
    assert_eq!(cards[2].optional_field.as_ref().unwrap().value, "N/A");
    assert_eq!(cards[3].info_key.as_deref(), Some("system"));
    assert_eq!(cards[4].field.value, "N/A");
    assert_eq!(cards[5].field.value, "N/A");
    assert_eq!(cards[5].optional_field.as_ref().unwrap().value, "N/A");
    assert_eq!(cards[6].subtitle, "Screen Information");
}

#[test]
fn info_cards_list_every_device_primary_screens_first() {
    let mut hw = empty_hardware();
    hw.gpus = vec!["RTX".to_string(), "Arc".to_string()];
    hw.disks = vec![DiskInfo {
        name: "nvme0".to_string(),
        mount_point: "/".to_string(),
        used_bytes: 512 * 1024 * 1024,
        total_bytes: 1024 * 1024 * 1024,
    }];
    hw.battery = BatteryInfo {
        present: true,
        name: Some("BAT0".to_string()),
        design_capacity_wh_text: Some(format!("{:.1}", 57.0f32)),
        cycle_count: Some(42),
    };
    hw.displays = vec![
        DisplayInfo { model: "Side".to_string(), resolution: "1920x1080".to_string(), refresh_rate_hz: 0, is_primary: false },
        DisplayInfo { model: "Main".to_string(), resolution: "2560x1440".to_string(), refresh_rate_hz: 144, is_primary: true },
    ];
    let cards = info_cards(&hw, AppLanguage::French, &tables());
    assert_eq!(cards.len(), 9);
    assert_eq!(cards[1].subtitle, "Processeur graphique 1");
    assert_eq!(cards[2].subtitle, "Processeur graphique 2");
    assert_eq!(cards[2].field.value, "Arc");
    assert_eq!(cards[5].subtitle, "Disque 1");
    assert_eq!(cards[5].field.value, "/ (nvme0)");
    assert_eq!(cards[5].optional_field.as_ref().unwrap().value, "0.50 GB / 1.00 GB");
    assert_eq!(cards[6].field.value, "BAT0");
    assert_eq!(cards[6].optional_field.as_ref().unwrap().value, "57.0 Wh (42 cycles)");
    assert_eq!(cards[7].subtitle, "Écran principal");
    assert_eq!(cards[7].field.value, "Main");
    assert_eq!(cards[7].optional_field.as_ref().unwrap().value, "2560x1440 @ 144 Hz");
    assert_eq!(cards[8].subtitle, "Écran secondaire");
    assert_eq!(cards[8].optional_field.as_ref().unwrap().value, "1920x1080");
}

#[test]
fn battery_capacity_variants() {
    let mut hw = empty_hardware();
    let cases = [
        (Some("40.0"), Some(3u32), "40.0 Wh (3 cycles)"),
        (Some("40.0"), None, "40.0 Wh"),
        (None, Some(7), "N/A (7 cycles)"),
        (None, None, "N/A"),
    ];
    for (cap, cycles, expected) in cases {
        hw.battery = BatteryInfo {
            present: true,
            name: None,
            design_capacity_wh_text: cap.map(|c| c.to_string()),
            cycle_count: cycles,
        };
        let cards = info_cards(&hw, AppLanguage::English, &tables());
        assert_eq!(cards[5].field.value, "N/A");
        assert_eq!(cards[5].optional_field.as_ref().unwrap().value, expected);
    }
}
