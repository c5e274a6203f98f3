use wattseal_ui::app_state::{AppState, Overlay, UiAction, UiEvent};
use wattseal_ui::components::chart::LineType;
use wattseal_ui::components::sensors::{
    history_query, initial_metric_for_table, line_type_for_range, live_update, sensor_kind, time_range_options,
    HistoryQuery, LiveUpdate, SensorKind, SensorTableNames,
};
use wattseal_ui::icons::Icon;
use wattseal_ui::pages::Page;
use wattseal_ui::themes::AppTheme;
use wattseal_ui::types::{AppLanguage, MetricType, TimeRange};

fn tables() -> SensorTableNames {
    SensorTableNames {
        cpu: "cpu_data".to_string(),
        gpu: "gpu_data".to_string(),
        ram: "ram_data".to_string(),
        disk: "disk_data".to_string(),
        network: "network_data".to_string(),
        process: "process_data".to_string(),
        total: "total_data".to_string(),
    }
}

#[test]
fn shell_starts_on_dashboard() {
    let s = AppState::new();
    assert_eq!(s.current_page(), Page::Dashboard);
    assert_eq!(s.header().active_page(), Page::Dashboard);
    assert_eq!(s.language(), AppLanguage::English);
    assert_eq!(s.theme(), AppTheme::EcoEnergy);
    assert_eq!(s.title(), "Energy Monitor");
    assert!(matches!(s.overlay(), Overlay::NoOverlay));
}

#[test]
fn navigation_moves_header_too() {
    let mut s = AppState::new();
    assert_eq!(s.update(UiEvent::NavigateTo(Page::Info)), UiAction::Nothing);
    assert_eq!(s.current_page(), Page::Info);
    assert_eq!(s.header().active_page(), Page::Info);
}

#[test]
fn processes_reload_every_tenth_tick() {
    let mut s = AppState::new();
    let mut refreshed = Vec::new();
    for _ in 0..25 {
        match s.update(UiEvent::Tick) {
            UiAction::LoadLatest { refresh_processes } => refreshed.push(refresh_processes),
            other => panic!("unexpected {:?}", other),
        }
    }
    let ticks: Vec<usize> = refreshed.iter().enumerate().filter(|(_, r)| **r).map(|(i, _)| i + 1).collect();
    assert_eq!(ticks, vec![10, 20]);
    assert_eq!(s.tick_count(), 25);
}

#[test]
fn settings_take_precedence_over_info_dialog() {
    let mut s = AppState::new();
    s.update(UiEvent::OpenInfoModal("cpu_data".to_string()));
    assert!(matches!(s.overlay(), Overlay::InfoModal(ref k) if k == "cpu_data"));
    s.update(UiEvent::OpenSettings);
    assert!(matches!(s.overlay(), Overlay::Settings));
    s.update(UiEvent::CloseSettings);
    assert!(matches!(s.overlay(), Overlay::InfoModal(_)));
    s.update(UiEvent::CloseInfoModal);
    assert!(matches!(s.overlay(), Overlay::NoOverlay));
}

#[test]
fn theme_and_language_changes_reach_sensors() {
    let mut s = AppState::new();
    assert_eq!(s.update(UiEvent::ChangeTheme(AppTheme::DeepOcean)), UiAction::RestyleSensors(AppTheme::DeepOcean));
    assert_eq!(s.theme(), AppTheme::DeepOcean);
    assert_eq!(
        s.update(UiEvent::ChangeLanguage(AppLanguage::French)),
        UiAction::RetranslateSensors(AppLanguage::French)
    );
    assert_eq!(s.title(), "Moniteur d'Énergie");
}

#[test]
fn sensor_decisions_by_table() {
    let t = tables();
    assert_eq!(sensor_kind("total_data", &t), SensorKind::Total);
    assert_eq!(sensor_kind("process_data", &t), SensorKind::Processes);
    assert_eq!(sensor_kind("cpu_data", &t), SensorKind::Component);
    assert_eq!(initial_metric_for_table("ram_data", &t), Some(MetricType::Usage));
    assert_eq!(initial_metric_for_table("disk_data", &t), Some(MetricType::Speed));
    assert_eq!(initial_metric_for_table("network_data", &t), Some(MetricType::Speed));
    assert_eq!(initial_metric_for_table("gpu_data", &t), None);
    assert_eq!(time_range_options(AppLanguage::English, "process_data", &t).len(), 6);
    assert_eq!(time_range_options(AppLanguage::English, "cpu_data", &t).len(), 3);
    assert_eq!(line_type_for_range(&TimeRange::LastMinute), LineType::Line);
    assert_eq!(line_type_for_range(&TimeRange::LastWeek), LineType::Step);
    assert_eq!(LineType::default(), LineType::Line);
}

#[test]
fn history_queries() {
    let t = tables();
    assert_eq!(history_query("process_data", TimeRange::LastHour, &t), HistoryQuery::TopProcesses(TimeRange::LastHour));
    assert_eq!(history_query("cpu_data", TimeRange::LastMinute, &t), HistoryQuery::Raw(TimeRange::LastMinute));
    assert_eq!(
        history_query("cpu_data", TimeRange::LastMonth, &t),
        HistoryQuery::Averaged { range: TimeRange::LastMonth, window_seconds: 86_400 }
    );
}

#[test]
fn live_readings_keep_the_last_minute() {
    assert_eq!(
        live_update(SensorKind::Component, TimeRange::LastMinute, Some(1_000), 1_001),
        Some(LiveUpdate { append: true, keep_from: 941 })
    );
    assert_eq!(
        live_update(SensorKind::Total, TimeRange::LastMinute, Some(1_001), 1_001),
        Some(LiveUpdate { append: false, keep_from: 941 })
    );
    assert_eq!(
        live_update(SensorKind::Total, TimeRange::LastMinute, None, 60),
        Some(LiveUpdate { append: true, keep_from: 0 })
    );
    assert_eq!(live_update(SensorKind::Component, TimeRange::LastHour, Some(1), 2), None);
    assert_eq!(live_update(SensorKind::Processes, TimeRange::LastMinute, None, 2), None);
}

#[test]
fn themes_and_icons() {
    let names: Vec<&str> = AppTheme::all().iter().map(|t| t.name()).collect();
    assert_eq!(names, vec!["Sleeping", "Splashing", "Hunting", "Swimming", "Sunbathing", "Lounging"]);
    assert_eq!(AppTheme::custom_themes(), AppTheme::all());
    assert_eq!(AppTheme::default(), AppTheme::EcoEnergy);
    assert_eq!(AppTheme::OceanLight.to_string(), "Swimming");
    assert_eq!(Icon::Settings.codepoint(), 'A');
    assert_eq!(Icon::SealGraph.codepoint(), 'P');
    assert_eq!(Icon::GPU.codepoint(), 'J');
}
