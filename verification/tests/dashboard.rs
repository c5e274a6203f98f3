use wattseal_ui::components::chart::{
    seconds_ago_label, series_color_slot, step_points, tooltip_time_format, x_label_style, y_label_area_px, XLabelStyle,
};
use wattseal_ui::components::sensors::{process_identity, SensorTableNames};
use wattseal_ui::pages::dashboard::{component_priority, ordered_component_tables};

fn tables() -> SensorTableNames {
    SensorTableNames {
        cpu: "cpu_data".to_string(),
        gpu: "gpu_data".to_string(),
        ram: "ram_data".to_string(),
        disk: "disk_data".to_string(),
        network: "network_data".to_string(),
        process: "process_data".to_string(),
        total: "total_data".to_string(),
    }
}

fn reference_priority(name: &str) -> usize {
    let lower = name.to_lowercase();
    if lower.contains("cpu") {
        0
    } else if lower.contains("gpu") {
        1
    } else if lower.contains("ram") {
        2
    } else if lower.contains("disk") {
        3
    } else if lower.contains("network") {
        4
    } else {
        5
    }
}

#[test]
fn priorities_follow_component_words() {
    for name in [
        "cpu_data", "CPU", "GPU_data", "Ram", "DISK", "dis\u{212A}", "network_data", "NetWork", "battery",
        "İram", "dİsk", "Überram", "", "cp", "xgpux",
    ] {
        assert_eq!(component_priority(name), reference_priority(name), "name = {:?}", name);
    }
    assert_eq!(component_priority("gpu and cpu"), 0);
}

#[test]
fn component_tables_in_card_order() {
    let names: Vec<String> = ["network_data", "total_data", "gpu_data", "disk_data", "process_data", "cpu_data", "ram_data", "battery", "aaa_ram"]
        .iter()
        .map(|s| s.to_string())
        .collect();
    let ordered = ordered_component_tables(&names, &tables());
    assert_eq!(
        ordered,
        vec!["cpu_data", "gpu_data", "aaa_ram", "ram_data", "disk_data", "network_data", "battery"]
    );
}

#[test]
fn component_tables_match_sort_by_key() {
    let names: Vec<String> = ["zeta", "Alpha", "beta", "CPU2", "cpu1", "Disk9", "disk1", "éclair", "Éclair"]
        .iter()
        .map(|s| s.to_string())
        .collect();
    let mut expected = names.clone();
    expected.sort_by_key(|n| (reference_priority(n), n.clone()));
    assert_eq!(ordered_component_tables(&names, &tables()), expected);
}

#[test]
fn step_points_hold_each_value() {
    let pts = vec![(1, 10.0f32), (2, 20.0), (4, 5.0)];
    assert_eq!(step_points(&pts), vec![(1, 10.0), (2, 10.0), (2, 20.0), (4, 20.0), (4, 5.0)]);
    let single = vec![(7, 1.5f32)];
    assert_eq!(step_points(&single), single);
    let empty: Vec<(i64, f32)> = vec![];
    assert_eq!(step_points(&empty), empty);
}

#[test]
fn x_axis_labels() {
    assert_eq!(x_label_style(60), XLabelStyle::SecondsAgo);
    assert_eq!(x_label_style(120), XLabelStyle::SecondsAgo);
    assert_eq!(x_label_style(121), XLabelStyle::ClockTime);
    assert_eq!(x_label_style(86_400), XLabelStyle::ClockTime);
    assert_eq!(x_label_style(86_401), XLabelStyle::DateAtMidnight);
    assert_eq!(x_label_style(-5), XLabelStyle::DateAtMidnight);
    assert_eq!(seconds_ago_label(1_000, 970), "30s");
    assert_eq!(seconds_ago_label(1_000, 975), "");
    assert_eq!(seconds_ago_label(1_000, 1_000), "0s");
    assert_eq!(seconds_ago_label(1_000, 1_005), "0s");
}

#[test]
fn tooltip_and_series_helpers() {
    assert_eq!(tooltip_time_format(86_400), "%H:%M:%S");
    assert_eq!(tooltip_time_format(604_800), "%Y-%m-%d %H:%M");
    assert_eq!(series_color_slot(Some(5), 0), 1);
    assert_eq!(series_color_slot(None, 6), 2);
    assert_eq!(y_label_area_px(3), 50);
    assert_eq!(y_label_area_px(7), 74);
    assert_eq!(process_identity(&Some("/usr/bin/app".to_string()), "App"), "/usr/bin/app");
    assert_eq!(process_identity(&None, "App"), "App");
}
