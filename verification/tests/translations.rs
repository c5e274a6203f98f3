use wattseal_ui::components::sensors::SensorTableNames;
use wattseal_ui::translations::{
    all_time, capacity_wh_cycles, capacity_wh_only, chart_legend, cores_and_threads, cpu, custom_carbon_invalid,
    disk_n, energy_label, graphics_processor_n, info_modal_description, info_modal_title, metric_energy,
    metric_type_name, na_with_cycles, page_dashboard, power_or_energy, power_or_energy_label,
    power_or_energy_with_unit, sensor_name, settings_title, time_range_name, tooltip_time, tooltip_value,
    translate_label, window_title, zero_carbon_intensity_warning, TranslatedMetricType, TranslatedTimeRange,
};
use wattseal_ui::types::{AppLanguage, MetricType, TimeRange};

use AppLanguage::{English as EN, French as FR};

fn tables() -> SensorTableNames {
    SensorTableNames {
        cpu: "cpu_data".to_string(),
        gpu: "gpu_data".to_string(),
        ram: "ram_data".to_string(),
        disk: "disk_data".to_string(),
        network: "network_data".to_string(),
        process: "process_data".to_string(),
        total: "total_data".to_string(),
    }
}

#[test]
fn simple_labels_in_both_languages() {
    assert_eq!(window_title(EN), "Energy Monitor");
    assert_eq!(window_title(FR), "Moniteur d'Énergie");
    assert_eq!(page_dashboard(FR), "Tableau de bord");
    assert_eq!(settings_title(FR), "Paramètres");
    assert_eq!(cpu(FR), "CPU");
    assert_eq!(custom_carbon_invalid(EN), "Please enter a positive number (g CO₂/kWh)");
    assert_eq!(
        zero_carbon_intensity_warning(EN),
        "\u{26a0} Choose a real carbon intensity in the settings! \u{26a0}"
    );
}

#[test]
fn formatted_labels_match_format() {
    assert_eq!(cores_and_threads(EN, 8, 16), format!("{} cores / {} threads", 8, 16));
    assert_eq!(cores_and_threads(FR, 0, 65535), "0 cœurs / 65535 threads");
    assert_eq!(graphics_processor_n(EN, 2), "Graphics Processor 2");
    assert_eq!(graphics_processor_n(FR, 10), "Processeur graphique 10");
    assert_eq!(disk_n(FR, 1), "Disque 1");
    assert_eq!(disk_n(EN, 12), "Disk 12");
    assert_eq!(na_with_cycles(FR, 321), "N/A (321 cycles)");
    assert_eq!(capacity_wh_cycles(EN, "52.5", 120), format!("{:.1} Wh ({} cycles)", 52.5f32, 120));
    assert_eq!(capacity_wh_only(FR, "45.0"), "45.0 Wh");
    assert_eq!(tooltip_value(EN, "12.5W"), "Value: 12.5W");
    assert_eq!(tooltip_value(FR, "12.5W"), "Valeur : 12.5W");
    assert_eq!(tooltip_time(EN, "12:00:00"), "Time: 12:00:00");
    assert_eq!(tooltip_time(FR, "12:00:00"), "Heure : 12:00:00");
}

#[test]
fn power_and_energy_labels() {
    assert_eq!(energy_label(FR), "Énergie");
    assert_eq!(metric_energy(EN), "Energy");
    assert_eq!(power_or_energy_label(EN, false), "Power:");
    assert_eq!(power_or_energy_label(FR, false), "Puissance :");
    assert_eq!(power_or_energy_label(EN, true), "Energy:");
    assert_eq!(power_or_energy_label(FR, true), "Énergie :");
    assert_eq!(power_or_energy(FR, true), "Énergie");
    assert_eq!(power_or_energy(FR, false), "Puissance");
    assert_eq!(power_or_energy_with_unit(EN, true), "Energy (Wh)");
    assert_eq!(power_or_energy_with_unit(FR, false), "Puissance (W)");
}

#[test]
fn time_range_and_metric_names() {
    assert_eq!(time_range_name(EN, &TimeRange::Last24Hours), "Last 24 Hours");
    assert_eq!(time_range_name(FR, &TimeRange::LastYear), "Dernière année");
    assert_eq!(metric_type_name(FR, MetricType::Usage), "Utilisation");
    assert_eq!(metric_type_name(EN, MetricType::Speed), "Speed");
    assert_eq!(metric_type_name(FR, MetricType::Power), "Puissance");
}

#[test]
fn labels_translate_and_unknown_ones_say_so() {
    assert_eq!(translate_label(FR, "Download"), "Téléchargement");
    assert_eq!(translate_label(FR, "Upload"), "Envoi");
    assert_eq!(translate_label(EN, "Read"), "Read");
    assert_eq!(translate_label(FR, "Write"), "Écriture");
    assert_eq!(translate_label(EN, "Bogus"), "Unknown");
    assert_eq!(translate_label(FR, "power"), "Inconnu");
    assert_eq!(chart_legend(FR, "Usage"), "Utilisation");
}

#[test]
fn sensor_names() {
    assert_eq!(sensor_name(FR, "CPU"), "CPU");
    assert_eq!(sensor_name(FR, "Disk"), "Disque");
    assert_eq!(sensor_name(FR, "Network"), "Réseau");
    assert_eq!(sensor_name(FR, "Processes"), "Processus");
    assert_eq!(sensor_name(EN, "Disk"), "Disk");
    assert_eq!(sensor_name(FR, "Battery"), "Battery");
}

#[test]
fn info_modal_titles() {
    let t = tables();
    assert_eq!(info_modal_title(EN, "cpu_data", &t), "CPU");
    assert_eq!(info_modal_title(FR, "network_data", &t), "Réseau");
    assert_eq!(info_modal_title(EN, "total_data", &t), all_time(EN));
    assert_eq!(info_modal_title(FR, "process_data", &t), "Processus");
    assert_eq!(info_modal_title(FR, "battery", &t), "Batterie");
    assert_eq!(info_modal_title(EN, "storage", &t), "Info");
    assert_eq!(info_modal_title(FR, "unknown", &t), "Info");
}

#[test]
fn info_modal_descriptions() {
    let t = tables();
    assert!(info_modal_description(EN, "cpu_data", &t).starts_with("The CPU (Central Processing Unit)"));
    assert!(info_modal_description(FR, "gpu_data", &t).starts_with("Le GPU (processeur graphique)"));
    assert_eq!(info_modal_description(EN, "disk_data", &t), info_modal_description(EN, "storage", &t));
    assert!(info_modal_description(EN, "total_data", &t).starts_with("Shows the total power"));
    assert!(info_modal_description(FR, "display", &t).starts_with("Les écrans"));
    assert_eq!(
        info_modal_description(EN, "nothing", &t),
        "No additional information available for this component."
    );
    assert!(info_modal_description(EN, "cpu_data", &t).contains("\n\nMain power consumers:\n\u{2022} Higher clock"));
}

#[test]
fn translated_time_range_options() {
    let total = TranslatedTimeRange::options_total(FR);
    let ranges: Vec<TimeRange> = total.iter().map(|o| o.range).collect();
    assert_eq!(ranges, TimeRange::all_total().to_vec());
    assert_eq!(total[0].to_string(), "Dernière minute");
    let component = TranslatedTimeRange::options(EN);
    let ranges: Vec<TimeRange> = component.iter().map(|o| o.range).collect();
    assert_eq!(ranges, TimeRange::all_component().to_vec());
    assert_eq!(component[2].to_string(), "Last 24 Hours");
    assert_eq!(TranslatedTimeRange::new(TimeRange::LastWeek, FR), total[3]);
}

#[test]
fn translated_metric_type() {
    let m = TranslatedMetricType::new(MetricType::Speed, FR);
    assert_eq!(m.metric, MetricType::Speed);
    assert_eq!(m.to_string(), "Vitesse");
}
