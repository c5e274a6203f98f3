//! Every user-visible text of the interface, in English and in French.
//!
//! Each label is an exact function of the language (and of the values it
//! shows); the `*_text` spec functions state the text that each returns.

use vstd::prelude::*;
use crate::components::sensors::SensorTableNames;
use crate::text::{decimal, push_decimal, str_eq};
use crate::types::{AppLanguage, MetricType, TimeRange, component_ranges, total_ranges};

verus! {

/// The `window_title` label in each language.
pub open spec fn window_title_text(language: AppLanguage) -> Seq<char> {
    match language {
        AppLanguage::English => "Energy Monitor"@,
        AppLanguage::French => "Moniteur d'Énergie"@,
    }
}

pub fn window_title(language: AppLanguage) -> (s: &'static str)
    ensures
        s@ == window_title_text(language),
{
    match language {
        AppLanguage::English => "Energy Monitor",
        AppLanguage::French => "Moniteur d'Énergie",
    }
}

/// The `page_dashboard` label in each language.
pub open spec fn page_dashboard_text(language: AppLanguage) -> Seq<char> {
    match language {
        AppLanguage::English => "Dashboard"@,
        AppLanguage::French => "Tableau de bord"@,
    }
}

pub fn page_dashboard(language: AppLanguage) -> (s: &'static str)
    ensures
        s@ == page_dashboard_text(language),
{
    match language {
        AppLanguage::English => "Dashboard",
        AppLanguage::French => "Tableau de bord",
    }
}

/// The `page_info` label in each language.
pub open spec fn page_info_text(language: AppLanguage) -> Seq<char> {
    match language {
        AppLanguage::English => "Info"@,
        AppLanguage::French => "Infos"@,
    }
}

pub fn page_info(language: AppLanguage) -> (s: &'static str)
    ensures
        s@ == page_info_text(language),
{
    match language {
        AppLanguage::English => "Info",
        AppLanguage::French => "Infos",
    }
}

/// The `page_optimization` label in each language.
pub open spec fn page_optimization_text(language: AppLanguage) -> Seq<char> {
    match language {
        AppLanguage::English => "Optimization"@,
        AppLanguage::French => "Optimisation"@,
    }
}

pub fn page_optimization(language: AppLanguage) -> (s: &'static str)
    ensures
        s@ == page_optimization_text(language),
{
    match language {
        AppLanguage::English => "Optimization",
        AppLanguage::French => "Optimisation",
    }
}

/// The `settings_title` label in each language.
pub open spec fn settings_title_text(language: AppLanguage) -> Seq<char> {
    match language {
        AppLanguage::English => "Settings"@,
        AppLanguage::French => "Paramètres"@,
    }
}

pub fn settings_title(language: AppLanguage) -> (s: &'static str)
    ensures
        s@ == settings_title_text(language),
{
    match language {
        AppLanguage::English => "Settings",
        AppLanguage::French => "Paramètres",
    }
}

/// The `settings_general` label in each language.
pub open spec fn settings_general_text(language: AppLanguage) -> Seq<char> {
    match language {
        AppLanguage::English => "General"@,
        AppLanguage::French => "Général"@,
    }
}

pub fn settings_general(language: AppLanguage) -> (s: &'static str)
    ensures
        s@ == settings_general_text(language),
{
    match language {
        AppLanguage::English => "General",
        AppLanguage::French => "Général",
    }
}

/// The `settings_theme` label in each language.
pub open spec fn settings_theme_text(language: AppLanguage) -> Seq<char> {
    match language {
        AppLanguage::English => "Theme"@,
        AppLanguage::French => "Thème"@,
    }
}

pub fn settings_theme(language: AppLanguage) -> (s: &'static str)
    ensures
        s@ == settings_theme_text(language),
{
    match language {
        AppLanguage::English => "Theme",
        AppLanguage::French => "Thème",
    }
}

/// The `settings_language` label in each language.
pub open spec fn settings_language_text(language: AppLanguage) -> Seq<char> {
    match language {
        AppLanguage::English => "Language"@,
        AppLanguage::French => "Langue"@,
    }
}

pub fn settings_language(language: AppLanguage) -> (s: &'static str)
    ensures
        s@ == settings_language_text(language),
{
    match language {
        AppLanguage::English => "Language",
        AppLanguage::French => "Langue",
    }
}

/// The `modal_close` label in each language.
pub open spec fn modal_close_text(language: AppLanguage) -> Seq<char> {
    match language {
        AppLanguage::English => "Close"@,
        AppLanguage::French => "Fermer"@,
    }
}

pub fn modal_close(language: AppLanguage) -> (s: &'static str)
    ensures
        s@ == modal_close_text(language),
{
    match language {
        AppLanguage::English => "Close",
        AppLanguage::French => "Fermer",
    }
}

/// The `current_power_consumption` label in each language.
pub open spec fn current_power_consumption_text(language: AppLanguage) -> Seq<char> {
    match language {
        AppLanguage::English => "Current power consumption"@,
        AppLanguage::French => "Consommation actuelle"@,
    }
}

pub fn current_power_consumption(language: AppLanguage) -> (s: &'static str)
    ensures
        s@ == current_power_consumption_text(language),
{
    match language {
        AppLanguage::English => "Current power consumption",
        AppLanguage::French => "Consommation actuelle",
    }
}

/// The `all_time` label in each language.
pub open spec fn all_time_text(language: AppLanguage) -> Seq<char> {
    match language {
        AppLanguage::English => "All Time"@,
        AppLanguage::French => "Total"@,
    }
}

pub fn all_time(language: AppLanguage) -> (s: &'static str)
    ensures
        s@ == all_time_text(language),
{
    match language {
        AppLanguage::English => "All Time",
        AppLanguage::French => "Total",
    }
}

/// The `emissions` label in each language.
pub open spec fn emissions_text(language: AppLanguage) -> Seq<char> {
    match language {
        AppLanguage::English => "Emissions"@,
        AppLanguage::French => "Émissions"@,
    }
}

pub fn emissions(language: AppLanguage) -> (s: &'static str)
    ensures
        s@ == emissions_text(language),
{
    match language {
        AppLanguage::English => "Emissions",
        AppLanguage::French => "Émissions",
    }
}

/// The `zero_carbon_intensity_warning` label in each language.
pub open spec fn zero_carbon_intensity_warning_text(language: AppLanguage) -> Seq<char> {
    match language {
        AppLanguage::English => "\u{26a0} Choose a real carbon intensity in the settings! \u{26a0}"@,
        AppLanguage::French => "\u{26a0} Choisissez une intensité carbone réelle dans les paramètres ! \u{26a0}"@,
    }
}

pub fn zero_carbon_intensity_warning(language: AppLanguage) -> (s: &'static str)
    ensures
        s@ == zero_carbon_intensity_warning_text(language),
{
    match language {
        AppLanguage::English => "\u{26a0} Choose a real carbon intensity in the settings! \u{26a0}",
        AppLanguage::French => "\u{26a0} Choisissez une intensité carbone réelle dans les paramètres ! \u{26a0}",
    }
}

/// The `cpu` label in each language.
pub open spec fn cpu_text(language: AppLanguage) -> Seq<char> {
    match language {
        AppLanguage::English => "CPU"@,
        AppLanguage::French => "CPU"@,
    }
}

pub fn cpu(language: AppLanguage) -> (s: &'static str)
    ensures
        s@ == cpu_text(language),
{
    match language {
        AppLanguage::English => "CPU",
        AppLanguage::French => "CPU",
    }
}

/// The `processor_information` label in each language.
pub open spec fn processor_information_text(language: AppLanguage) -> Seq<char> {
    match language {
        AppLanguage::English => "Processor Information"@,
        AppLanguage::French => "Informations processeur"@,
    }
}

pub fn processor_information(language: AppLanguage) -> (s: &'static str)
    ensures
        s@ == processor_information_text(language),
{
    match language {
        AppLanguage::English => "Processor Information",
        AppLanguage::French => "Informations processeur",
    }
}

/// The `model` label in each language.
pub open spec fn model_text(language: AppLanguage) -> Seq<char> {
    match language {
        AppLanguage::English => "Model"@,
        AppLanguage::French => "Modèle"@,
    }
}

pub fn model(language: AppLanguage) -> (s: &'static str)
    ensures
        s@ == model_text(language),
{
    match language {
        AppLanguage::English => "Model",
        AppLanguage::French => "Modèle",
    }
}

/// The `cores` label in each language.
pub open spec fn cores_text(language: AppLanguage) -> Seq<char> {
    match language {
        AppLanguage::English => "Cores"@,
        AppLanguage::French => "Cœurs"@,
    }
}

pub fn cores(language: AppLanguage) -> (s: &'static str)
    ensures
        s@ == cores_text(language),
{
    match language {
        AppLanguage::English => "Cores",
        AppLanguage::French => "Cœurs",
    }
}

/// The `gpu` label in each language.
pub open spec fn gpu_text(language: AppLanguage) -> Seq<char> {
    match language {
        AppLanguage::English => "GPU"@,
        AppLanguage::French => "GPU"@,
    }
}

pub fn gpu(language: AppLanguage) -> (s: &'static str)
    ensures
        s@ == gpu_text(language),
{
    match language {
        AppLanguage::English => "GPU",
        AppLanguage::French => "GPU",
    }
}

/// The `graphics_information` label in each language.
pub open spec fn graphics_information_text(language: AppLanguage) -> Seq<char> {
    match language {
        AppLanguage::English => "Graphics Information"@,
        AppLanguage::French => "Informations graphiques"@,
    }
}

pub fn graphics_information(language: AppLanguage) -> (s: &'static str)
    ensures
        s@ == graphics_information_text(language),
{
    match language {
        AppLanguage::English => "Graphics Information",
        AppLanguage::French => "Informations graphiques",
    }
}

/// The `memory` label in each language.
pub open spec fn memory_text(language: AppLanguage) -> Seq<char> {
    match language {
        AppLanguage::English => "Memory"@,
        AppLanguage::French => "Mémoire"@,
    }
}

pub fn memory(language: AppLanguage) -> (s: &'static str)
    ensures
        s@ == memory_text(language),
{
    match language {
        AppLanguage::English => "Memory",
        AppLanguage::French => "Mémoire",
    }
}

/// The `ram_information` label in each language.
pub open spec fn ram_information_text(language: AppLanguage) -> Seq<char> {
    match language {
        AppLanguage::English => "RAM Information"@,
        AppLanguage::French => "Informations RAM"@,
    }
}

pub fn ram_information(language: AppLanguage) -> (s: &'static str)
    ensures
        s@ == ram_information_text(language),
{
    match language {
        AppLanguage::English => "RAM Information",
        AppLanguage::French => "Informations RAM",
    }
}

/// The `total_memory` label in each language.
pub open spec fn total_memory_text(language: AppLanguage) -> Seq<char> {
    match language {
        AppLanguage::English => "Total Memory"@,
        AppLanguage::French => "Mémoire totale"@,
    }
}

pub fn total_memory(language: AppLanguage) -> (s: &'static str)
    ensures
        s@ == total_memory_text(language),
{
    match language {
        AppLanguage::English => "Total Memory",
        AppLanguage::French => "Mémoire totale",
    }
}

/// The `swap` label in each language.
pub open spec fn swap_text(language: AppLanguage) -> Seq<char> {
    match language {
        AppLanguage::English => "Swap"@,
        AppLanguage::French => "Swap"@,
    }
}

pub fn swap(language: AppLanguage) -> (s: &'static str)
    ensures
        s@ == swap_text(language),
{
    match language {
        AppLanguage::English => "Swap",
        AppLanguage::French => "Swap",
    }
}

/// The `system` label in each language.
pub open spec fn system_text(language: AppLanguage) -> Seq<char> {
    match language {
        AppLanguage::English => "System"@,
        AppLanguage::French => "Système"@,
    }
}

pub fn system(language: AppLanguage) -> (s: &'static str)
    ensures
        s@ == system_text(language),
{
    match language {
        AppLanguage::English => "System",
        AppLanguage::French => "Système",
    }
}

/// The `os_information` label in each language.
pub open spec fn os_information_text(language: AppLanguage) -> Seq<char> {
    match language {
        AppLanguage::English => "OS Information"@,
        AppLanguage::French => "Informations OS"@,
    }
}

pub fn os_information(language: AppLanguage) -> (s: &'static str)
    ensures
        s@ == os_information_text(language),
{
    match language {
        AppLanguage::English => "OS Information",
        AppLanguage::French => "Informations OS",
    }
}

/// The `operating_system` label in each language.
pub open spec fn operating_system_text(language: AppLanguage) -> Seq<char> {
    match language {
        AppLanguage::English => "Operating System"@,
        AppLanguage::French => "Système d'exploitation"@,
    }
}

pub fn operating_system(language: AppLanguage) -> (s: &'static str)
    ensures
        s@ == operating_system_text(language),
{
    match language {
        AppLanguage::English => "Operating System",
        AppLanguage::French => "Système d'exploitation",
    }
}

/// The `hostname` label in each language.
pub open spec fn hostname_text(language: AppLanguage) -> Seq<char> {
    match language {
        AppLanguage::English => "Hostname"@,
        AppLanguage::French => "Nom d'hôte"@,
    }
}

pub fn hostname(language: AppLanguage) -> (s: &'static str)
    ensures
        s@ == hostname_text(language),
{
    match language {
        AppLanguage::English => "Hostname",
        AppLanguage::French => "Nom d'hôte",
    }
}

/// The `storage` label in each language.
pub open spec fn storage_text(language: AppLanguage) -> Seq<char> {
    match language {
        AppLanguage::English => "Storage"@,
        AppLanguage::French => "Stockage"@,
    }
}

pub fn storage(language: AppLanguage) -> (s: &'static str)
    ensures
        s@ == storage_text(language),
{
    match language {
        AppLanguage::English => "Storage",
        AppLanguage::French => "Stockage",
    }
}

/// The `disk_information` label in each language.
pub open spec fn disk_information_text(language: AppLanguage) -> Seq<char> {
    match language {
        AppLanguage::English => "Disk Information"@,
        AppLanguage::French => "Informations disque"@,
    }
}

pub fn disk_information(language: AppLanguage) -> (s: &'static str)
    ensures
        s@ == disk_information_text(language),
{
    match language {
        AppLanguage::English => "Disk Information",
        AppLanguage::French => "Informations disque",
    }
}

/// The `disk` label in each language.
pub open spec fn disk_text(language: AppLanguage) -> Seq<char> {
    match language {
        AppLanguage::English => "Disk"@,
        AppLanguage::French => "Disque"@,
    }
}

pub fn disk(language: AppLanguage) -> (s: &'static str)
    ensures
        s@ == disk_text(language),
{
    match language {
        AppLanguage::English => "Disk",
        AppLanguage::French => "Disque",
    }
}

/// The `space` label in each language.
pub open spec fn space_text(language: AppLanguage) -> Seq<char> {
    match language {
        AppLanguage::English => "Space"@,
        AppLanguage::French => "Espace"@,
    }
}

pub fn space(language: AppLanguage) -> (s: &'static str)
    ensures
        s@ == space_text(language),
{
    match language {
        AppLanguage::English => "Space",
        AppLanguage::French => "Espace",
    }
}

/// The `network` label in each language.
pub open spec fn network_text(language: AppLanguage) -> Seq<char> {
    match language {
        AppLanguage::English => "Network"@,
        AppLanguage::French => "Réseau"@,
    }
}

pub fn network(language: AppLanguage) -> (s: &'static str)
    ensures
        s@ == network_text(language),
{
    match language {
        AppLanguage::English => "Network",
        AppLanguage::French => "Réseau",
    }
}

/// The `battery` label in each language.
pub open spec fn battery_text(language: AppLanguage) -> Seq<char> {
    match language {
        AppLanguage::English => "Battery"@,
        AppLanguage::French => "Batterie"@,
    }
}

pub fn battery(language: AppLanguage) -> (s: &'static str)
    ensures
        s@ == battery_text(language),
{
    match language {
        AppLanguage::English => "Battery",
        AppLanguage::French => "Batterie",
    }
}

/// The `battery_status` label in each language.
pub open spec fn battery_status_text(language: AppLanguage) -> Seq<char> {
    match language {
        AppLanguage::English => "Battery Status"@,
        AppLanguage::French => "État de la batterie"@,
    }
}

pub fn battery_status(language: AppLanguage) -> (s: &'static str)
    ensures
        s@ == battery_status_text(language),
{
    match language {
        AppLanguage::English => "Battery Status",
        AppLanguage::French => "État de la batterie",
    }
}

/// The `process` label in each language.
pub open spec fn process_text(language: AppLanguage) -> Seq<char> {
    match language {
        AppLanguage::English => "Processes"@,
        AppLanguage::French => "Processus"@,
    }
}

pub fn process(language: AppLanguage) -> (s: &'static str)
    ensures
        s@ == process_text(language),
{
    match language {
        AppLanguage::English => "Processes",
        AppLanguage::French => "Processus",
    }
}

/// The `name` label in each language.
pub open spec fn name_text(language: AppLanguage) -> Seq<char> {
    match language {
        AppLanguage::English => "Name"@,
        AppLanguage::French => "Nom"@,
    }
}

pub fn name(language: AppLanguage) -> (s: &'static str)
    ensures
        s@ == name_text(language),
{
    match language {
        AppLanguage::English => "Name",
        AppLanguage::French => "Nom",
    }
}

/// The `capacity` label in each language.
pub open spec fn capacity_text(language: AppLanguage) -> Seq<char> {
    match language {
        AppLanguage::English => "Capacity"@,
        AppLanguage::French => "Capacité"@,
    }
}

pub fn capacity(language: AppLanguage) -> (s: &'static str)
    ensures
        s@ == capacity_text(language),
{
    match language {
        AppLanguage::English => "Capacity",
        AppLanguage::French => "Capacité",
    }
}

/// The `display` label in each language.
pub open spec fn display_text(language: AppLanguage) -> Seq<char> {
    match language {
        AppLanguage::English => "Display"@,
        AppLanguage::French => "Écran"@,
    }
}

pub fn display(language: AppLanguage) -> (s: &'static str)
    ensures
        s@ == display_text(language),
{
    match language {
        AppLanguage::English => "Display",
        AppLanguage::French => "Écran",
    }
}

/// The `screen_information` label in each language.
pub open spec fn screen_information_text(language: AppLanguage) -> Seq<char> {
    match language {
        AppLanguage::English => "Screen Information"@,
        AppLanguage::French => "Informations écran"@,
    }
}

pub fn screen_information(language: AppLanguage) -> (s: &'static str)
    ensures
        s@ == screen_information_text(language),
{
    match language {
        AppLanguage::English => "Screen Information",
        AppLanguage::French => "Informations écran",
    }
}

/// The `mode` label in each language.
pub open spec fn mode_text(language: AppLanguage) -> Seq<char> {
    match language {
        AppLanguage::English => "Mode"@,
        AppLanguage::French => "Mode"@,
    }
}

pub fn mode(language: AppLanguage) -> (s: &'static str)
    ensures
        s@ == mode_text(language),
{
    match language {
        AppLanguage::English => "Mode",
        AppLanguage::French => "Mode",
    }
}

/// The `primary_display` label in each language.
pub open spec fn primary_display_text(language: AppLanguage) -> Seq<char> {
    match language {
        AppLanguage::English => "Primary Display"@,
        AppLanguage::French => "Écran principal"@,
    }
}

pub fn primary_display(language: AppLanguage) -> (s: &'static str)
    ensures
        s@ == primary_display_text(language),
{
    match language {
        AppLanguage::English => "Primary Display",
        AppLanguage::French => "Écran principal",
    }
}

/// The `secondary_display` label in each language.
pub open spec fn secondary_display_text(language: AppLanguage) -> Seq<char> {
    match language {
        AppLanguage::English => "Secondary Display"@,
        AppLanguage::French => "Écran secondaire"@,
    }
}

pub fn secondary_display(language: AppLanguage) -> (s: &'static str)
    ensures
        s@ == secondary_display_text(language),
{
    match language {
        AppLanguage::English => "Secondary Display",
        AppLanguage::French => "Écran secondaire",
    }
}

/// The `na` label in each language.
pub open spec fn na_text(language: AppLanguage) -> Seq<char> {
    match language {
        AppLanguage::English => "N/A"@,
        AppLanguage::French => "N/A"@,
    }
}

pub fn na(language: AppLanguage) -> (s: &'static str)
    ensures
        s@ == na_text(language),
{
    match language {
        AppLanguage::English => "N/A",
        AppLanguage::French => "N/A",
    }
}

/// The `no_data_available` label in each language.
pub open spec fn no_data_available_text(language: AppLanguage) -> Seq<char> {
    match language {
        AppLanguage::English => "No data available"@,
        AppLanguage::French => "Aucune donnée disponible"@,
    }
}

pub fn no_data_available(language: AppLanguage) -> (s: &'static str)
    ensures
        s@ == no_data_available_text(language),
{
    match language {
        AppLanguage::English => "No data available",
        AppLanguage::French => "Aucune donnée disponible",
    }
}

/// The `power_label` label in each language.
pub open spec fn power_label_text(language: AppLanguage) -> Seq<char> {
    match language {
        AppLanguage::English => "Power:"@,
        AppLanguage::French => "Puissance :"@,
    }
}

pub fn power_label(language: AppLanguage) -> (s: &'static str)
    ensures
        s@ == power_label_text(language),
{
    match language {
        AppLanguage::English => "Power:",
        AppLanguage::French => "Puissance :",
    }
}

/// The `application` label in each language.
pub open spec fn application_text(language: AppLanguage) -> Seq<char> {
    match language {
        AppLanguage::English => "Application"@,
        AppLanguage::French => "Application"@,
    }
}

pub fn application(language: AppLanguage) -> (s: &'static str)
    ensures
        s@ == application_text(language),
{
    match language {
        AppLanguage::English => "Application",
        AppLanguage::French => "Application",
    }
}

/// The `power` label in each language.
pub open spec fn power_text(language: AppLanguage) -> Seq<char> {
    match language {
        AppLanguage::English => "Power"@,
        AppLanguage::French => "Puissance"@,
    }
}

pub fn power(language: AppLanguage) -> (s: &'static str)
    ensures
        s@ == power_text(language),
{
    match language {
        AppLanguage::English => "Power",
        AppLanguage::French => "Puissance",
    }
}

/// The `energy` label in each language.
pub open spec fn energy_text(language: AppLanguage) -> Seq<char> {
    match language {
        AppLanguage::English => "Energy"@,
        AppLanguage::French => "Énergie"@,
    }
}

pub fn energy(language: AppLanguage) -> (s: &'static str)
    ensures
        s@ == energy_text(language),
{
    match language {
        AppLanguage::English => "Energy",
        AppLanguage::French => "Énergie",
    }
}

/// The `ram` label in each language.
pub open spec fn ram_text(language: AppLanguage) -> Seq<char> {
    match language {
        AppLanguage::English => "RAM"@,
        AppLanguage::French => "RAM"@,
    }
}

pub fn ram(language: AppLanguage) -> (s: &'static str)
    ensures
        s@ == ram_text(language),
{
    match language {
        AppLanguage::English => "RAM",
        AppLanguage::French => "RAM",
    }
}

/// The `disk_read` label in each language.
pub open spec fn disk_read_text(language: AppLanguage) -> Seq<char> {
    match language {
        AppLanguage::English => "Disk read"@,
        AppLanguage::French => "Lecture disque"@,
    }
}

pub fn disk_read(language: AppLanguage) -> (s: &'static str)
    ensures
        s@ == disk_read_text(language),
{
    match language {
        AppLanguage::English => "Disk read",
        AppLanguage::French => "Lecture disque",
    }
}

/// The `disk_write` label in each language.
pub open spec fn disk_write_text(language: AppLanguage) -> Seq<char> {
    match language {
        AppLanguage::English => "Disk write"@,
        AppLanguage::French => "Écriture disque"@,
    }
}

pub fn disk_write(language: AppLanguage) -> (s: &'static str)
    ensures
        s@ == disk_write_text(language),
{
    match language {
        AppLanguage::English => "Disk write",
        AppLanguage::French => "Écriture disque",
    }
}

/// The `last_minute` label in each language.
pub open spec fn last_minute_text(language: AppLanguage) -> Seq<char> {
    match language {
        AppLanguage::English => "Last Minute"@,
        AppLanguage::French => "Dernière minute"@,
    }
}

pub fn last_minute(language: AppLanguage) -> (s: &'static str)
    ensures
        s@ == last_minute_text(language),
{
    match language {
        AppLanguage::English => "Last Minute",
        AppLanguage::French => "Dernière minute",
    }
}

/// The `last_hour` label in each language.
pub open spec fn last_hour_text(language: AppLanguage) -> Seq<char> {
    match language {
        AppLanguage::English => "Last Hour"@,
        AppLanguage::French => "Dernière heure"@,
    }
}

pub fn last_hour(language: AppLanguage) -> (s: &'static str)
    ensures
        s@ == last_hour_text(language),
{
    match language {
        AppLanguage::English => "Last Hour",
        AppLanguage::French => "Dernière heure",
    }
}

/// The `last_24_hours` label in each language.
pub open spec fn last_24_hours_text(language: AppLanguage) -> Seq<char> {
    match language {
        AppLanguage::English => "Last 24 Hours"@,
        AppLanguage::French => "Dernières 24 heures"@,
    }
}

pub fn last_24_hours(language: AppLanguage) -> (s: &'static str)
    ensures
        s@ == last_24_hours_text(language),
{
    match language {
        AppLanguage::English => "Last 24 Hours",
        AppLanguage::French => "Dernières 24 heures",
    }
}

/// The `last_week` label in each language.
pub open spec fn last_week_text(language: AppLanguage) -> Seq<char> {
    match language {
        AppLanguage::English => "Last Week"@,
        AppLanguage::French => "Dernière semaine"@,
    }
}

pub fn last_week(language: AppLanguage) -> (s: &'static str)
    ensures
        s@ == last_week_text(language),
{
    match language {
        AppLanguage::English => "Last Week",
        AppLanguage::French => "Dernière semaine",
    }
}

/// The `last_month` label in each language.
pub open spec fn last_month_text(language: AppLanguage) -> Seq<char> {
    match language {
        AppLanguage::English => "Last Month"@,
        AppLanguage::French => "Dernier mois"@,
    }
}

pub fn last_month(language: AppLanguage) -> (s: &'static str)
    ensures
        s@ == last_month_text(language),
{
    match language {
        AppLanguage::English => "Last Month",
        AppLanguage::French => "Dernier mois",
    }
}

/// The `last_year` label in each language.
pub open spec fn last_year_text(language: AppLanguage) -> Seq<char> {
    match language {
        AppLanguage::English => "Last Year"@,
        AppLanguage::French => "Dernière année"@,
    }
}

pub fn last_year(language: AppLanguage) -> (s: &'static str)
    ensures
        s@ == last_year_text(language),
{
    match language {
        AppLanguage::English => "Last Year",
        AppLanguage::French => "Dernière année",
    }
}

/// The `metric_power` label in each language.
pub open spec fn metric_power_text(language: AppLanguage) -> Seq<char> {
    match language {
        AppLanguage::English => "Power"@,
        AppLanguage::French => "Puissance"@,
    }
}

pub fn metric_power(language: AppLanguage) -> (s: &'static str)
    ensures
        s@ == metric_power_text(language),
{
    match language {
        AppLanguage::English => "Power",
        AppLanguage::French => "Puissance",
    }
}

/// The `metric_usage` label in each language.
pub open spec fn metric_usage_text(language: AppLanguage) -> Seq<char> {
    match language {
        AppLanguage::English => "Usage"@,
        AppLanguage::French => "Utilisation"@,
    }
}

pub fn metric_usage(language: AppLanguage) -> (s: &'static str)
    ensures
        s@ == metric_usage_text(language),
{
    match language {
        AppLanguage::English => "Usage",
        AppLanguage::French => "Utilisation",
    }
}

/// The `metric_speed` label in each language.
pub open spec fn metric_speed_text(language: AppLanguage) -> Seq<char> {
    match language {
        AppLanguage::English => "Speed"@,
        AppLanguage::French => "Vitesse"@,
    }
}

pub fn metric_speed(language: AppLanguage) -> (s: &'static str)
    ensures
        s@ == metric_speed_text(language),
{
    match language {
        AppLanguage::English => "Speed",
        AppLanguage::French => "Vitesse",
    }
}

/// The `label_usage` label in each language.
pub open spec fn label_usage_text(language: AppLanguage) -> Seq<char> {
    match language {
        AppLanguage::English => "Usage"@,
        AppLanguage::French => "Utilisation"@,
    }
}

pub fn label_usage(language: AppLanguage) -> (s: &'static str)
    ensures
        s@ == label_usage_text(language),
{
    match language {
        AppLanguage::English => "Usage",
        AppLanguage::French => "Utilisation",
    }
}

/// The `label_read` label in each language.
pub open spec fn label_read_text(language: AppLanguage) -> Seq<char> {
    match language {
        AppLanguage::English => "Read"@,
        AppLanguage::French => "Lecture"@,
    }
}

pub fn label_read(language: AppLanguage) -> (s: &'static str)
    ensures
        s@ == label_read_text(language),
{
    match language {
        AppLanguage::English => "Read",
        AppLanguage::French => "Lecture",
    }
}

/// The `label_write` label in each language.
pub open spec fn label_write_text(language: AppLanguage) -> Seq<char> {
    match language {
        AppLanguage::English => "Write"@,
        AppLanguage::French => "Écriture"@,
    }
}

pub fn label_write(language: AppLanguage) -> (s: &'static str)
    ensures
        s@ == label_write_text(language),
{
    match language {
        AppLanguage::English => "Write",
        AppLanguage::French => "Écriture",
    }
}

/// The `label_download` label in each language.
pub open spec fn label_download_text(language: AppLanguage) -> Seq<char> {
    match language {
        AppLanguage::English => "Download"@,
        AppLanguage::French => "Téléchargement"@,
    }
}

pub fn label_download(language: AppLanguage) -> (s: &'static str)
    ensures
        s@ == label_download_text(language),
{
    match language {
        AppLanguage::English => "Download",
        AppLanguage::French => "Téléchargement",
    }
}

/// The `label_upload` label in each language.
pub open spec fn label_upload_text(language: AppLanguage) -> Seq<char> {
    match language {
        AppLanguage::English => "Upload"@,
        AppLanguage::French => "Envoi"@,
    }
}

pub fn label_upload(language: AppLanguage) -> (s: &'static str)
    ensures
        s@ == label_upload_text(language),
{
    match language {
        AppLanguage::English => "Upload",
        AppLanguage::French => "Envoi",
    }
}

/// The `optimization_content` label in each language.
pub open spec fn optimization_content_text(language: AppLanguage) -> Seq<char> {
    match language {
        AppLanguage::English => "Optimization Page Content"@,
        AppLanguage::French => "Contenu de la page d'optimisation"@,
    }
}

pub fn optimization_content(language: AppLanguage) -> (s: &'static str)
    ensures
        s@ == optimization_content_text(language),
{
    match language {
        AppLanguage::English => "Optimization Page Content",
        AppLanguage::French => "Contenu de la page d'optimisation",
    }
}

/// The `settings_carbon_intensity` label in each language.
pub open spec fn settings_carbon_intensity_text(language: AppLanguage) -> Seq<char> {
    match language {
        AppLanguage::English => "Carbon Intensity"@,
        AppLanguage::French => "Intensité carbone"@,
    }
}

pub fn settings_carbon_intensity(language: AppLanguage) -> (s: &'static str)
    ensures
        s@ == settings_carbon_intensity_text(language),
{
    match language {
        AppLanguage::English => "Carbon Intensity",
        AppLanguage::French => "Intensité carbone",
    }
}

/// The `setup_welcome_title` label in each language.
pub open spec fn setup_welcome_title_text(language: AppLanguage) -> Seq<char> {
    match language {
        AppLanguage::English => "Welcome to Energy Monitor"@,
        AppLanguage::French => "Bienvenue sur le Moniteur d'Énergie"@,
    }
}

pub fn setup_welcome_title(language: AppLanguage) -> (s: &'static str)
    ensures
        s@ == setup_welcome_title_text(language),
{
    match language {
        AppLanguage::English => "Welcome to Energy Monitor",
        AppLanguage::French => "Bienvenue sur le Moniteur d'Énergie",
    }
}

/// The `setup_choose_language` label in each language.
pub open spec fn setup_choose_language_text(language: AppLanguage) -> Seq<char> {
    match language {
        AppLanguage::English => "Choose your language"@,
        AppLanguage::French => "Choisissez votre langue"@,
    }
}

pub fn setup_choose_language(language: AppLanguage) -> (s: &'static str)
    ensures
        s@ == setup_choose_language_text(language),
{
    match language {
        AppLanguage::English => "Choose your language",
        AppLanguage::French => "Choisissez votre langue",
    }
}

/// The `setup_choose_carbon` label in each language.
pub open spec fn setup_choose_carbon_text(language: AppLanguage) -> Seq<char> {
    match language {
        AppLanguage::English => "Select the carbon intensity of your electricity grid"@,
        AppLanguage::French => "Sélectionnez l'intensité carbone de votre réseau électrique"@,
    }
}

pub fn setup_choose_carbon(language: AppLanguage) -> (s: &'static str)
    ensures
        s@ == setup_choose_carbon_text(language),
{
    match language {
        AppLanguage::English => "Select the carbon intensity of your electricity grid",
        AppLanguage::French => "Sélectionnez l'intensité carbone de votre réseau électrique",
    }
}

/// The `setup_confirm` label in each language.
pub open spec fn setup_confirm_text(language: AppLanguage) -> Seq<char> {
    match language {
        AppLanguage::English => "Confirm"@,
        AppLanguage::French => "Confirmer"@,
    }
}

pub fn setup_confirm(language: AppLanguage) -> (s: &'static str)
    ensures
        s@ == setup_confirm_text(language),
{
    match language {
        AppLanguage::English => "Confirm",
        AppLanguage::French => "Confirmer",
    }
}

/// The `custom_carbon_placeholder` label in each language.
pub open spec fn custom_carbon_placeholder_text(language: AppLanguage) -> Seq<char> {
    match language {
        AppLanguage::English => "e.g. 300"@,
        AppLanguage::French => "ex. 300"@,
    }
}

pub fn custom_carbon_placeholder(language: AppLanguage) -> (s: &'static str)
    ensures
        s@ == custom_carbon_placeholder_text(language),
{
    match language {
        AppLanguage::English => "e.g. 300",
        AppLanguage::French => "ex. 300",
    }
}

/// The `custom_carbon_invalid` label in each language.
pub open spec fn custom_carbon_invalid_text(language: AppLanguage) -> Seq<char> {
    match language {
        AppLanguage::English => "Please enter a positive number (g CO₂/kWh)"@,
        AppLanguage::French => "Entrez un nombre positif (g CO₂/kWh)"@,
    }
}

pub fn custom_carbon_invalid(language: AppLanguage) -> (s: &'static str)
    ensures
        s@ == custom_carbon_invalid_text(language),
{
    match language {
        AppLanguage::English => "Please enter a positive number (g CO₂/kWh)",
        AppLanguage::French => "Entrez un nombre positif (g CO₂/kWh)",
    }
}

/// The `info_modal_current_power` label in each language.
pub open spec fn info_modal_current_power_text(language: AppLanguage) -> Seq<char> {
    match language {
        AppLanguage::English => "Current power"@,
        AppLanguage::French => "Puissance actuelle"@,
    }
}

pub fn info_modal_current_power(language: AppLanguage) -> (s: &'static str)
    ensures
        s@ == info_modal_current_power_text(language),
{
    match language {
        AppLanguage::English => "Current power",
        AppLanguage::French => "Puissance actuelle",
    }
}

/// The `info_modal_all_time_power` label in each language.
pub open spec fn info_modal_all_time_power_text(language: AppLanguage) -> Seq<char> {
    match language {
        AppLanguage::English => "All-time energy"@,
        AppLanguage::French => "Énergie totale"@,
    }
}

pub fn info_modal_all_time_power(language: AppLanguage) -> (s: &'static str)
    ensures
        s@ == info_modal_all_time_power_text(language),
{
    match language {
        AppLanguage::English => "All-time energy",
        AppLanguage::French => "Énergie totale",
    }
}

/// The `info_modal_top_consumer` label in each language.
pub open spec fn info_modal_top_consumer_text(language: AppLanguage) -> Seq<char> {
    match language {
        AppLanguage::English => "Highest consumer"@,
        AppLanguage::French => "Plus gros consommateur"@,
    }
}

pub fn info_modal_top_consumer(language: AppLanguage) -> (s: &'static str)
    ensures
        s@ == info_modal_top_consumer_text(language),
{
    match language {
        AppLanguage::English => "Highest consumer",
        AppLanguage::French => "Plus gros consommateur",
    }
}

/// The `info_modal_top_process` label in each language.
pub open spec fn info_modal_top_process_text(language: AppLanguage) -> Seq<char> {
    match language {
        AppLanguage::English => "Top process"@,
        AppLanguage::French => "Processus principal"@,
    }
}

pub fn info_modal_top_process(language: AppLanguage) -> (s: &'static str)
    ensures
        s@ == info_modal_top_process_text(language),
{
    match language {
        AppLanguage::English => "Top process",
        AppLanguage::French => "Processus principal",
    }
}

/// The `info_modal_coming_soon` label in each language.
pub open spec fn info_modal_coming_soon_text(language: AppLanguage) -> Seq<char> {
    match language {
        AppLanguage::English => "Coming soon"@,
        AppLanguage::French => "Bientôt disponible"@,
    }
}

pub fn info_modal_coming_soon(language: AppLanguage) -> (s: &'static str)
    ensures
        s@ == info_modal_coming_soon_text(language),
{
    match language {
        AppLanguage::English => "Coming soon",
        AppLanguage::French => "Bientôt disponible",
    }
}

/// The `cpu` description of the information dialog in each language.
pub open spec fn cpu_description_text(language: AppLanguage) -> Seq<char> {
    match language {
        AppLanguage::English => "The CPU (Central Processing Unit) is the brain of your computer. \
                 It executes all instructions and computations.\n\n\
                 Main power consumers:\n\
                 \u{2022} Higher clock speeds increase power draw\n\
                 \u{2022} More active cores = more consumption\n\
                 \u{2022} Intensive tasks (compilation, encoding) spike usage\n\
                 \u{2022} Higher voltages (overclocking) raise consumption"@,
        AppLanguage::French => "Le CPU (processeur central) est le cerveau de votre ordinateur. \
                 Il exécute toutes les instructions et calculs.\n\n\
                 Principaux consommateurs d'énergie :\n\
                 \u{2022} Des fréquences plus élevées augmentent la consommation\n\
                 \u{2022} Plus de cœurs actifs = plus de consommation\n\
                 \u{2022} Les tâches intensives (compilation, encodage) augmentent la charge\n\
                 \u{2022} Des tensions plus élevées (overclocking) augmentent la consommation"@,
    }
}

fn cpu_description(language: AppLanguage) -> (s: &'static str)
    ensures
        s@ == cpu_description_text(language),
{
    match language {
        AppLanguage::English => "The CPU (Central Processing Unit) is the brain of your computer. \
                 It executes all instructions and computations.\n\n\
                 Main power consumers:\n\
                 \u{2022} Higher clock speeds increase power draw\n\
                 \u{2022} More active cores = more consumption\n\
                 \u{2022} Intensive tasks (compilation, encoding) spike usage\n\
                 \u{2022} Higher voltages (overclocking) raise consumption",
        AppLanguage::French => "Le CPU (processeur central) est le cerveau de votre ordinateur. \
                 Il exécute toutes les instructions et calculs.\n\n\
                 Principaux consommateurs d'énergie :\n\
                 \u{2022} Des fréquences plus élevées augmentent la consommation\n\
                 \u{2022} Plus de cœurs actifs = plus de consommation\n\
                 \u{2022} Les tâches intensives (compilation, encodage) augmentent la charge\n\
                 \u{2022} Des tensions plus élevées (overclocking) augmentent la consommation",
    }
}

/// The `gpu` description of the information dialog in each language.
pub open spec fn gpu_description_text(language: AppLanguage) -> Seq<char> {
    match language {
        AppLanguage::English => "The GPU (Graphics Processing Unit) handles graphics rendering and \
                 parallel computations.\n\n\
                 Main power consumers:\n\
                 \u{2022} 3D rendering and gaming\n\
                 \u{2022} Video encoding / decoding\n\
                 \u{2022} AI and machine learning workloads\n\
                 \u{2022} High VRAM usage and memory bandwidth"@,
        AppLanguage::French => "Le GPU (processeur graphique) gère le rendu graphique et les calculs \
                 parallèles.\n\n\
                 Principaux consommateurs d'énergie :\n\
                 \u{2022} Rendu 3D et jeux vidéo\n\
                 \u{2022} Encodage / décodage vidéo\n\
                 \u{2022} Charges IA et apprentissage automatique\n\
                 \u{2022} Utilisation élevée de la VRAM"@,
    }
}

fn gpu_description(language: AppLanguage) -> (s: &'static str)
    ensures
        s@ == gpu_description_text(language),
{
    match language {
        AppLanguage::English => "The GPU (Graphics Processing Unit) handles graphics rendering and \
                 parallel computations.\n\n\
                 Main power consumers:\n\
                 \u{2022} 3D rendering and gaming\n\
                 \u{2022} Video encoding / decoding\n\
                 \u{2022} AI and machine learning workloads\n\
                 \u{2022} High VRAM usage and memory bandwidth",
        AppLanguage::French => "Le GPU (processeur graphique) gère le rendu graphique et les calculs \
                 parallèles.\n\n\
                 Principaux consommateurs d'énergie :\n\
                 \u{2022} Rendu 3D et jeux vidéo\n\
                 \u{2022} Encodage / décodage vidéo\n\
                 \u{2022} Charges IA et apprentissage automatique\n\
                 \u{2022} Utilisation élevée de la VRAM",
    }
}

/// The `ram` description of the information dialog in each language.
pub open spec fn ram_description_text(language: AppLanguage) -> Seq<char> {
    match language {
        AppLanguage::English => "RAM (Random Access Memory) provides fast temporary storage for running \
                 programs and active data.\n\n\
                 Main power consumers:\n\
                 \u{2022} Higher memory frequencies (MHz)\n\
                 \u{2022} More active memory modules\n\
                 \u{2022} Frequent read/write operations\n\
                 \u{2022} Always draws power while the system is on"@,
        AppLanguage::French => "La RAM (mémoire vive) fournit un stockage temporaire rapide pour les \
                 programmes en cours et les données actives.\n\n\
                 Principaux consommateurs d'énergie :\n\
                 \u{2022} Fréquences mémoire plus élevées (MHz)\n\
                 \u{2022} Plus de modules mémoire actifs\n\
                 \u{2022} Opérations de lecture/écriture fréquentes\n\
                 \u{2022} Consomme toujours de l'énergie tant que le système est allumé"@,
    }
}

fn ram_description(language: AppLanguage) -> (s: &'static str)
    ensures
        s@ == ram_description_text(language),
{
    match language {
        AppLanguage::English => "RAM (Random Access Memory) provides fast temporary storage for running \
                 programs and active data.\n\n\
                 Main power consumers:\n\
                 \u{2022} Higher memory frequencies (MHz)\n\
                 \u{2022} More active memory modules\n\
                 \u{2022} Frequent read/write operations\n\
                 \u{2022} Always draws power while the system is on",
        AppLanguage::French => "La RAM (mémoire vive) fournit un stockage temporaire rapide pour les \
                 programmes en cours et les données actives.\n\n\
                 Principaux consommateurs d'énergie :\n\
                 \u{2022} Fréquences mémoire plus élevées (MHz)\n\
                 \u{2022} Plus de modules mémoire actifs\n\
                 \u{2022} Opérations de lecture/écriture fréquentes\n\
                 \u{2022} Consomme toujours de l'énergie tant que le système est allumé",
    }
}

/// The `disk` description of the information dialog in each language.
pub open spec fn disk_description_text(language: AppLanguage) -> Seq<char> {
    match language {
        AppLanguage::English => "Storage drives (SSD / HDD) provide permanent data storage for your \
                 files and system.\n\n\
                 Main power consumers:\n\
                 \u{2022} Sustained read/write operations\n\
                 \u{2022} Spinning platters (HDD)\n\
                 \u{2022} NAND write operations (SSD)\n\
                 \u{2022} Drive seeking and indexing"@,
        AppLanguage::French => "Les disques de stockage (SSD / HDD) fournissent un stockage permanent \
                 pour vos fichiers et votre système.\n\n\
                 Principaux consommateurs d'énergie :\n\
                 \u{2022} Opérations de lecture/écriture soutenues\n\
                 \u{2022} Plateaux en rotation (HDD)\n\
                 \u{2022} Opérations d'écriture NAND (SSD)\n\
                 \u{2022} Recherche et indexation sur le disque"@,
    }
}

fn disk_description(language: AppLanguage) -> (s: &'static str)
    ensures
        s@ == disk_description_text(language),
{
    match language {
        AppLanguage::English => "Storage drives (SSD / HDD) provide permanent data storage for your \
                 files and system.\n\n\
                 Main power consumers:\n\
                 \u{2022} Sustained read/write operations\n\
                 \u{2022} Spinning platters (HDD)\n\
                 \u{2022} NAND write operations (SSD)\n\
                 \u{2022} Drive seeking and indexing",
        AppLanguage::French => "Les disques de stockage (SSD / HDD) fournissent un stockage permanent \
                 pour vos fichiers et votre système.\n\n\
                 Principaux consommateurs d'énergie :\n\
                 \u{2022} Opérations de lecture/écriture soutenues\n\
                 \u{2022} Plateaux en rotation (HDD)\n\
                 \u{2022} Opérations d'écriture NAND (SSD)\n\
                 \u{2022} Recherche et indexation sur le disque",
    }
}

/// The `network` description of the information dialog in each language.
pub open spec fn network_description_text(language: AppLanguage) -> Seq<char> {
    match language {
        AppLanguage::English => "Network interfaces handle data transmission between your computer \
                 and other devices or the internet.\n\n\
                 Main power consumers:\n\
                 \u{2022} High data throughput\n\
                 \u{2022} Wi-Fi radio transmission\n\
                 \u{2022} Active network connections\n\
                 \u{2022} Bluetooth and wireless peripherals"@,
        AppLanguage::French => "Les interfaces réseau gèrent la transmission de données entre votre \
                 ordinateur et d'autres appareils ou internet.\n\n\
                 Principaux consommateurs d'énergie :\n\
                 \u{2022} Débit de données élevé\n\
                 \u{2022} Transmission radio Wi-Fi\n\
                 \u{2022} Connexions réseau actives\n\
                 \u{2022} Bluetooth et périphériques sans fil"@,
    }
}

fn network_description(language: AppLanguage) -> (s: &'static str)
    ensures
        s@ == network_description_text(language),
{
    match language {
        AppLanguage::English => "Network interfaces handle data transmission between your computer \
                 and other devices or the internet.\n\n\
                 Main power consumers:\n\
                 \u{2022} High data throughput\n\
                 \u{2022} Wi-Fi radio transmission\n\
                 \u{2022} Active network connections\n\
                 \u{2022} Bluetooth and wireless peripherals",
        AppLanguage::French => "Les interfaces réseau gèrent la transmission de données entre votre \
                 ordinateur et d'autres appareils ou internet.\n\n\
                 Principaux consommateurs d'énergie :\n\
                 \u{2022} Débit de données élevé\n\
                 \u{2022} Transmission radio Wi-Fi\n\
                 \u{2022} Connexions réseau actives\n\
                 \u{2022} Bluetooth et périphériques sans fil",
    }
}

/// The `process` description of the information dialog in each language.
pub open spec fn process_description_text(language: AppLanguage) -> Seq<char> {
    match language {
        AppLanguage::English => "Shows which applications consume the most power on your system.\n\n\
                 Power is estimated based on CPU, GPU, and disk usage of each process. \
                 Background processes and services also contribute to total consumption."@,
        AppLanguage::French => "Montre quelles applications consomment le plus d'énergie sur votre \
                 système.\n\n\
                 La puissance est estimée à partir de l'utilisation CPU, GPU et disque \
                 de chaque processus. Les processus en arrière-plan et les services \
                 contribuent aussi à la consommation totale."@,
    }
}

fn process_description(language: AppLanguage) -> (s: &'static str)
    ensures
        s@ == process_description_text(language),
{
    match language {
        AppLanguage::English => "Shows which applications consume the most power on your system.\n\n\
                 Power is estimated based on CPU, GPU, and disk usage of each process. \
                 Background processes and services also contribute to total consumption.",
        AppLanguage::French => "Montre quelles applications consomment le plus d'énergie sur votre \
                 système.\n\n\
                 La puissance est estimée à partir de l'utilisation CPU, GPU et disque \
                 de chaque processus. Les processus en arrière-plan et les services \
                 contribuent aussi à la consommation totale.",
    }
}

/// The `total` description of the information dialog in each language.
pub open spec fn total_description_text(language: AppLanguage) -> Seq<char> {
    match language {
        AppLanguage::English => "Shows the total power consumption of your entire system.\n\n\
                 This is the sum of all hardware components (CPU, GPU, RAM, Disk, \
                 Network). Understanding which component consumes the most helps \
                 optimize energy usage."@,
        AppLanguage::French => "Affiche la consommation totale de votre système.\n\n\
                 C'est la somme de tous les composants (CPU, GPU, RAM, Disque, \
                 Réseau). Comprendre quel composant consomme le plus aide à \
                 optimiser la consommation d'énergie."@,
    }
}

fn total_description(language: AppLanguage) -> (s: &'static str)
    ensures
        s@ == total_description_text(language),
{
    match language {
        AppLanguage::English => "Shows the total power consumption of your entire system.\n\n\
                 This is the sum of all hardware components (CPU, GPU, RAM, Disk, \
                 Network). Understanding which component consumes the most helps \
                 optimize energy usage.",
        AppLanguage::French => "Affiche la consommation totale de votre système.\n\n\
                 C'est la somme de tous les composants (CPU, GPU, RAM, Disque, \
                 Réseau). Comprendre quel composant consomme le plus aide à \
                 optimiser la consommation d'énergie.",
    }
}

/// The `system` description of the information dialog in each language.
pub open spec fn system_description_text(language: AppLanguage) -> Seq<char> {
    match language {
        AppLanguage::English => "Your operating system manages all hardware resources and running \
                     software.\n\n\
                     Impact on power:\n\
                     \u{2022} Background services and scheduled tasks\n\
                     \u{2022} System indexing and updates\n\
                     \u{2022} Power plan settings affect all components"@,
        AppLanguage::French => "Votre système d'exploitation gère toutes les ressources matérielles \
                     et les logiciels en cours.\n\n\
                     Impact sur la consommation :\n\
                     \u{2022} Services en arrière-plan et tâches planifiées\n\
                     \u{2022} Indexation et mises à jour du système\n\
                     \u{2022} Les paramètres du plan d'alimentation affectent tous les \
                     composants"@,
    }
}

fn system_description(language: AppLanguage) -> (s: &'static str)
    ensures
        s@ == system_description_text(language),
{
    match language {
        AppLanguage::English => "Your operating system manages all hardware resources and running \
                     software.\n\n\
                     Impact on power:\n\
                     \u{2022} Background services and scheduled tasks\n\
                     \u{2022} System indexing and updates\n\
                     \u{2022} Power plan settings affect all components",
        AppLanguage::French => "Votre système d'exploitation gère toutes les ressources matérielles \
                     et les logiciels en cours.\n\n\
                     Impact sur la consommation :\n\
                     \u{2022} Services en arrière-plan et tâches planifiées\n\
                     \u{2022} Indexation et mises à jour du système\n\
                     \u{2022} Les paramètres du plan d'alimentation affectent tous les \
                     composants",
    }
}

/// The `battery` description of the information dialog in each language.
pub open spec fn battery_description_text(language: AppLanguage) -> Seq<char> {
    match language {
        AppLanguage::English => "The battery stores energy for portable use and affects how power is \
                     managed.\n\n\
                     Key facts:\n\
                     \u{2022} Cycle count reflects battery health and aging\n\
                     \u{2022} Design capacity decreases over time\n\
                     \u{2022} Running on battery often triggers power-saving modes\n\
                     \u{2022} Fast charging generates more heat and uses more energy"@,
        AppLanguage::French => "La batterie stocke l'énergie pour une utilisation portable et \
                     influence la gestion de l'alimentation.\n\n\
                     Points clés :\n\
                     \u{2022} Le nombre de cycles reflète l'état et le vieillissement de \
                     la batterie\n\
                     \u{2022} La capacité diminue avec le temps\n\
                     \u{2022} L'utilisation sur batterie active souvent des modes \
                     d'économie\n\
                     \u{2022} La charge rapide génère plus de chaleur et consomme plus"@,
    }
}

fn battery_description(language: AppLanguage) -> (s: &'static str)
    ensures
        s@ == battery_description_text(language),
{
    match language {
        AppLanguage::English => "The battery stores energy for portable use and affects how power is \
                     managed.\n\n\
                     Key facts:\n\
                     \u{2022} Cycle count reflects battery health and aging\n\
                     \u{2022} Design capacity decreases over time\n\
                     \u{2022} Running on battery often triggers power-saving modes\n\
                     \u{2022} Fast charging generates more heat and uses more energy",
        AppLanguage::French => "La batterie stocke l'énergie pour une utilisation portable et \
                     influence la gestion de l'alimentation.\n\n\
                     Points clés :\n\
                     \u{2022} Le nombre de cycles reflète l'état et le vieillissement de \
                     la batterie\n\
                     \u{2022} La capacité diminue avec le temps\n\
                     \u{2022} L'utilisation sur batterie active souvent des modes \
                     d'économie\n\
                     \u{2022} La charge rapide génère plus de chaleur et consomme plus",
    }
}

/// The `display` description of the information dialog in each language.
pub open spec fn display_description_text(language: AppLanguage) -> Seq<char> {
    match language {
        AppLanguage::English => "Displays are a major power consumer, especially at high brightness.\n\n\
                     Main power consumers:\n\
                     \u{2022} Screen brightness (biggest factor)\n\
                     \u{2022} Higher refresh rates (Hz)\n\
                     \u{2022} Higher resolutions\n\
                     \u{2022} HDR and wide color gamut"@,
        AppLanguage::French => "Les écrans sont un gros consommateur d'énergie, surtout à haute \
                     luminosité.\n\n\
                     Principaux consommateurs d'énergie :\n\
                     \u{2022} Luminosité de l'écran (facteur principal)\n\
                     \u{2022} Taux de rafraîchissement élevés (Hz)\n\
                     \u{2022} Résolutions plus élevées\n\
                     \u{2022} HDR et gamme de couleurs étendue"@,
    }
}

fn display_description(language: AppLanguage) -> (s: &'static str)
    ensures
        s@ == display_description_text(language),
{
    match language {
        AppLanguage::English => "Displays are a major power consumer, especially at high brightness.\n\n\
                     Main power consumers:\n\
                     \u{2022} Screen brightness (biggest factor)\n\
                     \u{2022} Higher refresh rates (Hz)\n\
                     \u{2022} Higher resolutions\n\
                     \u{2022} HDR and wide color gamut",
        AppLanguage::French => "Les écrans sont un gros consommateur d'énergie, surtout à haute \
                     luminosité.\n\n\
                     Principaux consommateurs d'énergie :\n\
                     \u{2022} Luminosité de l'écran (facteur principal)\n\
                     \u{2022} Taux de rafraîchissement élevés (Hz)\n\
                     \u{2022} Résolutions plus élevées\n\
                     \u{2022} HDR et gamme de couleurs étendue",
    }
}

/// The `storage` description of the information dialog in each language.
pub open spec fn storage_description_text(language: AppLanguage) -> Seq<char> {
    match language {
        AppLanguage::English => "Storage drives (SSD / HDD) provide permanent data storage for your \
                     files and system.\n\n\
                     Main power consumers:\n\
                     \u{2022} Sustained read/write operations\n\
                     \u{2022} Spinning platters (HDD)\n\
                     \u{2022} NAND write operations (SSD)\n\
                     \u{2022} Drive seeking and indexing"@,
        AppLanguage::French => "Les disques de stockage (SSD / HDD) fournissent un stockage \
                     permanent pour vos fichiers et votre système.\n\n\
                     Principaux consommateurs d'énergie :\n\
                     \u{2022} Opérations de lecture/écriture soutenues\n\
                     \u{2022} Plateaux en rotation (HDD)\n\
                     \u{2022} Opérations d'écriture NAND (SSD)\n\
                     \u{2022} Recherche et indexation sur le disque"@,
    }
}

fn storage_description(language: AppLanguage) -> (s: &'static str)
    ensures
        s@ == storage_description_text(language),
{
    match language {
        AppLanguage::English => "Storage drives (SSD / HDD) provide permanent data storage for your \
                     files and system.\n\n\
                     Main power consumers:\n\
                     \u{2022} Sustained read/write operations\n\
                     \u{2022} Spinning platters (HDD)\n\
                     \u{2022} NAND write operations (SSD)\n\
                     \u{2022} Drive seeking and indexing",
        AppLanguage::French => "Les disques de stockage (SSD / HDD) fournissent un stockage \
                     permanent pour vos fichiers et votre système.\n\n\
                     Principaux consommateurs d'énergie :\n\
                     \u{2022} Opérations de lecture/écriture soutenues\n\
                     \u{2022} Plateaux en rotation (HDD)\n\
                     \u{2022} Opérations d'écriture NAND (SSD)\n\
                     \u{2022} Recherche et indexation sur le disque",
    }
}

/// The `other` description of the information dialog in each language.
pub open spec fn other_description_text(language: AppLanguage) -> Seq<char> {
    match language {
        AppLanguage::English => "No additional information available for this component."@,
        AppLanguage::French => "Aucune information supplémentaire disponible pour ce composant."@,
    }
}

fn other_description(language: AppLanguage) -> (s: &'static str)
    ensures
        s@ == other_description_text(language),
{
    match language {
        AppLanguage::English => "No additional information available for this component.",
        AppLanguage::French => "Aucune information supplémentaire disponible pour ce composant.",
    }
}

/// "{physical} cores / {logical} threads".
pub open spec fn cores_and_threads_text(language: AppLanguage, physical: nat, logical: nat) -> Seq<char> {
    decimal(physical) + (match language {
        AppLanguage::English => " cores / "@,
        AppLanguage::French => " cœurs / "@,
    }) + decimal(logical) + " threads"@
}

pub fn cores_and_threads(language: AppLanguage, physical: u16, logical: u16) -> (s: String)
    ensures
        s@ == cores_and_threads_text(language, physical as nat, logical as nat),
{
    let mut s = String::new();
    push_decimal(&mut s, physical as u64);
    match language {
        AppLanguage::English => s.append(" cores / "),
        AppLanguage::French => s.append(" cœurs / "),
    }
    push_decimal(&mut s, logical as u64);
    s.append(" threads");
    assert(s@ =~= cores_and_threads_text(language, physical as nat, logical as nat));
    s
}

/// "Graphics Processor {n}".
pub open spec fn graphics_processor_n_text(language: AppLanguage, n: nat) -> Seq<char> {
    (match language {
        AppLanguage::English => "Graphics Processor "@,
        AppLanguage::French => "Processeur graphique "@,
    }) + decimal(n)
}

pub fn graphics_processor_n(language: AppLanguage, n: usize) -> (s: String)
    ensures
        s@ == graphics_processor_n_text(language, n as nat),
{
    let mut s = match language {
        AppLanguage::English => String::from_str("Graphics Processor "),
        AppLanguage::French => String::from_str("Processeur graphique "),
    };
    push_decimal(&mut s, n as u64);
    s
}

/// "Disk {n}".
pub open spec fn disk_n_text(language: AppLanguage, n: nat) -> Seq<char> {
    (match language {
        AppLanguage::English => "Disk "@,
        AppLanguage::French => "Disque "@,
    }) + decimal(n)
}

pub fn disk_n(language: AppLanguage, n: usize) -> (s: String)
    ensures
        s@ == disk_n_text(language, n as nat),
{
    let mut s = match language {
        AppLanguage::English => String::from_str("Disk "),
        AppLanguage::French => String::from_str("Disque "),
    };
    push_decimal(&mut s, n as u64);
    s
}

/// "N/A ({cycles} cycles)", the same in both languages.
pub open spec fn na_with_cycles_text(language: AppLanguage, cycles: nat) -> Seq<char> {
    "N/A ("@ + decimal(cycles) + " cycles)"@
}

pub fn na_with_cycles(language: AppLanguage, cycles: u32) -> (s: String)
    ensures
        s@ == na_with_cycles_text(language, cycles as nat),
{
    let mut s = String::from_str("N/A (");
    push_decimal(&mut s, cycles as u64);
    s.append(" cycles)");
    s
}

/// "{capacity} Wh ({cycles} cycles)", the same in both languages; the
/// capacity arrives already printed with one decimal.
pub open spec fn capacity_wh_cycles_text(language: AppLanguage, cap_wh_text: Seq<char>, cycles: nat) -> Seq<char> {
    cap_wh_text + " Wh ("@ + decimal(cycles) + " cycles)"@
}

pub fn capacity_wh_cycles(language: AppLanguage, cap_wh_text: &str, cycles: u32) -> (s: String)
    ensures
        s@ == capacity_wh_cycles_text(language, cap_wh_text@, cycles as nat),
{
    let mut s = String::from_str(cap_wh_text);
    s.append(" Wh (");
    push_decimal(&mut s, cycles as u64);
    s.append(" cycles)");
    s
}

/// "{capacity} Wh", the same in both languages.
pub open spec fn capacity_wh_only_text(language: AppLanguage, cap_wh_text: Seq<char>) -> Seq<char> {
    cap_wh_text + " Wh"@
}

pub fn capacity_wh_only(language: AppLanguage, cap_wh_text: &str) -> (s: String)
    ensures
        s@ == capacity_wh_only_text(language, cap_wh_text@),
{
    let mut s = String::from_str(cap_wh_text);
    s.append(" Wh");
    s
}

pub fn energy_label(language: AppLanguage) -> (s: &'static str)
    ensures
        s@ == energy_text(language),
{
    energy(language)
}

/// The chart value label: "Power:" or "Energy:" depending on energy mode.
pub open spec fn power_or_energy_label_text(language: AppLanguage, energy_mode: bool) -> Seq<char> {
    if energy_mode {
        match language {
            AppLanguage::English => "Energy:"@,
            AppLanguage::French => "Énergie :"@,
        }
    } else {
        power_label_text(language)
    }
}

/// Returns "Power:" or "Energy:" label depending on energy mode.
pub fn power_or_energy_label(language: AppLanguage, energy_mode: bool) -> (s: &'static str)
    ensures
        s@ == power_or_energy_label_text(language, energy_mode),
{
    if energy_mode {
        match language {
            AppLanguage::English => "Energy:",
            AppLanguage::French => "Énergie :",
        }
    } else {
        power_label(language)
    }
}

/// "Value: {value_text}".
pub open spec fn tooltip_value_text(language: AppLanguage, value_text: Seq<char>) -> Seq<char> {
    (match language {
        AppLanguage::English => "Value: "@,
        AppLanguage::French => "Valeur : "@,
    }) + value_text
}

pub fn tooltip_value(language: AppLanguage, value_text: &str) -> (s: String)
    ensures
        s@ == tooltip_value_text(language, value_text@),
{
    let mut s = match language {
        AppLanguage::English => String::from_str("Value: "),
        AppLanguage::French => String::from_str("Valeur : "),
    };
    s.append(value_text);
    s
}

/// "Time: {time_text}".
pub open spec fn tooltip_time_text(language: AppLanguage, time_text: Seq<char>) -> Seq<char> {
    (match language {
        AppLanguage::English => "Time: "@,
        AppLanguage::French => "Heure : "@,
    }) + time_text
}

pub fn tooltip_time(language: AppLanguage, time_text: &str) -> (s: String)
    ensures
        s@ == tooltip_time_text(language, time_text@),
{
    let mut s = match language {
        AppLanguage::English => String::from_str("Time: "),
        AppLanguage::French => String::from_str("Heure : "),
    };
    s.append(time_text);
    s
}

/// "Power" or "Energy" depending on energy mode.
pub open spec fn power_or_energy_text(language: AppLanguage, energy_mode: bool) -> Seq<char> {
    if energy_mode { energy_text(language) } else { power_text(language) }
}

/// Returns "Power" or "Energy" depending on whether energy mode is active.
pub fn power_or_energy(language: AppLanguage, energy_mode: bool) -> (s: &'static str)
    ensures
        s@ == power_or_energy_text(language, energy_mode),
{
    if energy_mode {
        energy(language)
    } else {
        power(language)
    }
}

/// The power/energy column header with its unit.
pub open spec fn power_or_energy_with_unit_text(language: AppLanguage, energy_mode: bool) -> Seq<char> {
    if energy_mode {
        energy_text(language) + " (Wh)"@
    } else {
        power_text(language) + " (W)"@
    }
}

/// Returns the label for the power/energy column header with unit.
pub fn power_or_energy_with_unit(language: AppLanguage, energy_mode: bool) -> (s: String)
    ensures
        s@ == power_or_energy_with_unit_text(language, energy_mode),
{
    if energy_mode {
        let mut s = String::from_str(energy(language));
        s.append(" (Wh)");
        s
    } else {
        let mut s = String::from_str(power(language));
        s.append(" (W)");
        s
    }
}

/// The translated name of a time range.
pub open spec fn time_range_name_text(language: AppLanguage, range: TimeRange) -> Seq<char> {
    match range {
        TimeRange::LastMinute => last_minute_text(language),
        TimeRange::LastHour => last_hour_text(language),
        TimeRange::Last24Hours => last_24_hours_text(language),
        TimeRange::LastWeek => last_week_text(language),
        TimeRange::LastMonth => last_month_text(language),
        TimeRange::LastYear => last_year_text(language),
    }
}

pub fn time_range_name(language: AppLanguage, range: &TimeRange) -> (s: &'static str)
    ensures
        s@ == time_range_name_text(language, *range),
{
    match range {
        TimeRange::LastMinute => last_minute(language),
        TimeRange::LastHour => last_hour(language),
        TimeRange::Last24Hours => last_24_hours(language),
        TimeRange::LastWeek => last_week(language),
        TimeRange::LastMonth => last_month(language),
        TimeRange::LastYear => last_year(language),
    }
}

pub fn metric_energy(language: AppLanguage) -> (s: &'static str)
    ensures
        s@ == energy_text(language),
{
    energy(language)
}

/// The translated name of a chart metric.
pub open spec fn metric_type_name_text(language: AppLanguage, metric: MetricType) -> Seq<char> {
    match metric {
        MetricType::Power => metric_power_text(language),
        MetricType::Usage => metric_usage_text(language),
        MetricType::Speed => metric_speed_text(language),
    }
}

pub fn metric_type_name(language: AppLanguage, metric: MetricType) -> (s: &'static str)
    ensures
        s@ == metric_type_name_text(language, metric),
{
    match metric {
        MetricType::Power => metric_power(language),
        MetricType::Usage => metric_usage(language),
        MetricType::Speed => metric_speed(language),
    }
}

/// The translation of an English secondary-reading label; labels that are
/// not known translate to "Unknown".
pub open spec fn translate_label_text(language: AppLanguage, english_label: Seq<char>) -> Seq<char> {
    if english_label == "Power"@ {
        metric_power_text(language)
    } else if english_label == "Usage"@ {
        label_usage_text(language)
    } else if english_label == "Speed"@ {
        metric_speed_text(language)
    } else if english_label == "Read"@ {
        label_read_text(language)
    } else if english_label == "Write"@ {
        label_write_text(language)
    } else if english_label == "Download"@ {
        label_download_text(language)
    } else if english_label == "Upload"@ {
        label_upload_text(language)
    } else {
        match language {
            AppLanguage::English => "Unknown"@,
            AppLanguage::French => "Inconnu"@,
        }
    }
}

pub fn translate_label(language: AppLanguage, english_label: &str) -> (s: &'static str)
    ensures
        s@ == translate_label_text(language, english_label@),
{
    if str_eq(english_label, "Power") {
        metric_power(language)
    } else if str_eq(english_label, "Usage") {
        label_usage(language)
    } else if str_eq(english_label, "Speed") {
        metric_speed(language)
    } else if str_eq(english_label, "Read") {
        label_read(language)
    } else if str_eq(english_label, "Write") {
        label_write(language)
    } else if str_eq(english_label, "Download") {
        label_download(language)
    } else if str_eq(english_label, "Upload") {
        label_upload(language)
    } else {
        match language {
            AppLanguage::English => "Unknown",
            AppLanguage::French => "Inconnu",
        }
    }
}

/// The displayed name of a sensor: French names for the disk, network and
/// process sensors; every other name is shown as given.
pub open spec fn sensor_name_text(language: AppLanguage, english_name: Seq<char>) -> Seq<char> {
    if english_name == "CPU"@ || english_name == "GPU"@ || english_name == "RAM"@ {
        english_name
    } else if language == AppLanguage::French && english_name == "Disk"@ {
        "Disque"@
    } else if language == AppLanguage::French && english_name == "Network"@ {
        "Réseau"@
    } else if language == AppLanguage::French && english_name == "Processes"@ {
        "Processus"@
    } else {
        english_name
    }
}

pub fn sensor_name<'a>(language: AppLanguage, english_name: &'a str) -> (s: &'a str)
    ensures
        s@ == sensor_name_text(language, english_name@),
{
    if str_eq(english_name, "CPU") {
        "CPU"
    } else if str_eq(english_name, "GPU") {
        "GPU"
    } else if str_eq(english_name, "RAM") {
        "RAM"
    } else {
        match language {
            AppLanguage::French => {
                if str_eq(english_name, "Disk") {
                    "Disque"
                } else if str_eq(english_name, "Network") {
                    "Réseau"
                } else if str_eq(english_name, "Processes") {
                    "Processus"
                } else {
                    english_name
                }
            },
            AppLanguage::English => english_name,
        }
    }
}

/// The chart legend for a metric label is its translation.
pub fn chart_legend(language: AppLanguage, metric_label: &str) -> (s: String)
    ensures
        s@ == translate_label_text(language, metric_label@),
{
    let metric = translate_label(language, metric_label);
    String::from_str(metric)
}

/// The title of the information dialog opened for `key`: a sensor table
/// name, or one of `system`, `battery`, `display`.
pub open spec fn info_modal_title_text(language: AppLanguage, key: Seq<char>, tables: SensorTableNames) -> Seq<char> {
    if key == tables.cpu@ {
        cpu_text(language)
    } else if key == tables.gpu@ {
        gpu_text(language)
    } else if key == tables.ram@ {
        ram_text(language)
    } else if key == tables.disk@ {
        disk_text(language)
    } else if key == tables.network@ {
        network_text(language)
    } else if key == tables.total@ {
        all_time_text(language)
    } else if key == tables.process@ {
        process_text(language)
    } else if key == "system"@ {
        system_text(language)
    } else if key == "battery"@ {
        battery_text(language)
    } else if key == "display"@ {
        display_text(language)
    } else {
        "Info"@
    }
}

/// No sensor table is named `key`.
pub open spec fn names_no_table(key: Seq<char>, tables: SensorTableNames) -> bool {
    &&& key != tables.cpu@
    &&& key != tables.gpu@
    &&& key != tables.ram@
    &&& key != tables.disk@
    &&& key != tables.network@
    &&& key != tables.total@
    &&& key != tables.process@
}

/// None of the sensor tables is named like a key of the hardware cards that
/// have no table of their own: "system", "battery" and "display".
pub open spec fn hardware_keys_name_no_table(tables: SensorTableNames) -> bool {
    &&& names_no_table("system"@, tables)
    &&& names_no_table("battery"@, tables)
    &&& names_no_table("display"@, tables)
}

/// The dialogs of the system, battery and screen cards are titled "System",
/// "Battery" and "Display" ("Système", "Batterie", "Écran"), the titles of
/// those cards, when no sensor table takes those keys.
pub proof fn lemma_hardware_dialog_titles(language: AppLanguage, tables: SensorTableNames)
    requires
        hardware_keys_name_no_table(tables),
    ensures
        info_modal_title_text(language, "system"@, tables) == system_text(language),
        info_modal_title_text(language, "battery"@, tables) == battery_text(language),
        info_modal_title_text(language, "display"@, tables) == display_text(language),
        info_modal_title_text(language, "display"@, tables) == (match language {
            AppLanguage::English => "Display"@,
            AppLanguage::French => "Écran"@,
        }),
{
    reveal_strlit("system");
    reveal_strlit("battery");
    reveal_strlit("display");
    assert("system"@.len() != "battery"@.len());
    assert("system"@.len() != "display"@.len());
    assert("battery"@[0] != "display"@[0]);
}

pub fn info_modal_title(language: AppLanguage, key: &str, tables: &SensorTableNames) -> (s: String)
    ensures
        s@ == info_modal_title_text(language, key@, *tables),
        hardware_keys_name_no_table(*tables) && key@ == "display"@ ==> s@ == display_text(language),
        hardware_keys_name_no_table(*tables) && key@ == "system"@ ==> s@ == system_text(language),
        hardware_keys_name_no_table(*tables) && key@ == "battery"@ ==> s@ == battery_text(language),
{
    proof {
        if hardware_keys_name_no_table(*tables) {
            lemma_hardware_dialog_titles(language, *tables);
        }
    }
    let label = if str_eq(key, tables.cpu.as_str()) {
        cpu(language)
    } else if str_eq(key, tables.gpu.as_str()) {
        gpu(language)
    } else if str_eq(key, tables.ram.as_str()) {
        ram(language)
    } else if str_eq(key, tables.disk.as_str()) {
        disk(language)
    } else if str_eq(key, tables.network.as_str()) {
        network(language)
    } else if str_eq(key, tables.total.as_str()) {
        all_time(language)
    } else if str_eq(key, tables.process.as_str()) {
        process(language)
    } else if str_eq(key, "system") {
        system(language)
    } else if str_eq(key, "battery") {
        battery(language)
    } else if str_eq(key, "display") {
        display(language)
    } else {
        "Info"
    };
    String::from_str(label)
}

/// The explanation shown in the information dialog opened for `key`.
pub open spec fn info_modal_description_text(language: AppLanguage, key: Seq<char>, tables: SensorTableNames) -> Seq<char> {
    if key == tables.cpu@ {
        cpu_description_text(language)
    } else if key == tables.gpu@ {
        gpu_description_text(language)
    } else if key == tables.ram@ {
        ram_description_text(language)
    } else if key == tables.disk@ {
        disk_description_text(language)
    } else if key == tables.network@ {
        network_description_text(language)
    } else if key == tables.process@ {
        process_description_text(language)
    } else if key == tables.total@ {
        total_description_text(language)
    } else if key == "system"@ {
        system_description_text(language)
    } else if key == "battery"@ {
        battery_description_text(language)
    } else if key == "display"@ {
        display_description_text(language)
    } else if key == "storage"@ {
        storage_description_text(language)
    } else {
        other_description_text(language)
    }
}

pub fn info_modal_description(language: AppLanguage, key: &str, tables: &SensorTableNames) -> (s: &'static str)
    ensures
        s@ == info_modal_description_text(language, key@, *tables),
{
    if str_eq(key, tables.cpu.as_str()) {
        cpu_description(language)
    } else if str_eq(key, tables.gpu.as_str()) {
        gpu_description(language)
    } else if str_eq(key, tables.ram.as_str()) {
        ram_description(language)
    } else if str_eq(key, tables.disk.as_str()) {
        disk_description(language)
    } else if str_eq(key, tables.network.as_str()) {
        network_description(language)
    } else if str_eq(key, tables.process.as_str()) {
        process_description(language)
    } else if str_eq(key, tables.total.as_str()) {
        total_description(language)
    } else if str_eq(key, "system") {
        system_description(language)
    } else if str_eq(key, "battery") {
        battery_description(language)
    } else if str_eq(key, "display") {
        display_description(language)
    } else if str_eq(key, "storage") {
        storage_description(language)
    } else {
        other_description(language)
    }
}

/// A time range offered in a pick list, shown in the interface language.
#[derive(Debug, Clone, PartialEq, Eq, Structural)]
pub struct TranslatedTimeRange {
    pub range: TimeRange,
    language: AppLanguage,
}

impl TranslatedTimeRange {
    /// The range offered.
    pub closed spec fn spec_range(&self) -> TimeRange {
        self.range
    }

    /// The language in which the range is shown.
    pub closed spec fn spec_language(&self) -> AppLanguage {
        self.language
    }

    pub fn new(range: TimeRange, language: AppLanguage) -> (t: Self)
        ensures
            t.spec_range() == range,
            t.spec_language() == language,
    {
        Self { range, language }
    }

    /// The options of total-power charts, every range in `TimeRange::all_total` order.
    pub fn options_total(language: AppLanguage) -> (v: Vec<Self>)
        ensures
            v@.len() == total_ranges().len(),
            forall|i: int| 0 <= i < v@.len() ==>
                #[trigger] v@[i].spec_range() == total_ranges()[i] && v@[i].spec_language() == language,
    {
        let ranges = TimeRange::all_total();
        let mut v: Vec<Self> = Vec::new();
        let mut i: usize = 0;
        while i < ranges.len()
            invariant
                ranges@ == total_ranges(),
                i <= ranges@.len(),
                v@.len() == i,
                forall|j: int| 0 <= j < i ==>
                    #[trigger] v@[j].spec_range() == total_ranges()[j] && v@[j].spec_language() == language,
            decreases ranges@.len() - i,
        {
            v.push(Self::new(ranges[i], language));
            i = i + 1;
        }
        v
    }

    /// The options of per-component charts, every range in `TimeRange::all_component` order.
    pub fn options_component(language: AppLanguage) -> (v: Vec<Self>)
        ensures
            v@.len() == component_ranges().len(),
            forall|i: int| 0 <= i < v@.len() ==>
                #[trigger] v@[i].spec_range() == component_ranges()[i] && v@[i].spec_language() == language,
    {
        let ranges = TimeRange::all_component();
        let mut v: Vec<Self> = Vec::new();
        let mut i: usize = 0;
        while i < ranges.len()
            invariant
                ranges@ == component_ranges(),
                i <= ranges@.len(),
                v@.len() == i,
                forall|j: int| 0 <= j < i ==>
                    #[trigger] v@[j].spec_range() == component_ranges()[j] && v@[j].spec_language() == language,
            decreases ranges@.len() - i,
        {
            v.push(Self::new(ranges[i], language));
            i = i + 1;
        }
        v
    }

    /// The default options are the per-component ones.
    pub fn options(language: AppLanguage) -> (v: Vec<Self>)
        ensures
            v@.len() == component_ranges().len(),
            forall|i: int| 0 <= i < v@.len() ==>
                #[trigger] v@[i].spec_range() == component_ranges()[i] && v@[i].spec_language() == language,
    {
        Self::options_component(language)
    }

    /// The translated range name, as the option's `Display` form reads.
    pub fn to_string(&self) -> (s: String)
        ensures
            s@ == time_range_name_text(self.spec_language(), self.spec_range()),
    {
        String::from_str(time_range_name(self.language, &self.range))
    }
}

/// A chart metric offered in a pick list, shown in the interface language.
#[derive(Debug, Clone, PartialEq, Eq, Structural)]
pub struct TranslatedMetricType {
    pub metric: MetricType,
    language: AppLanguage,
}

impl TranslatedMetricType {
    /// The metric offered.
    pub closed spec fn spec_metric(&self) -> MetricType {
        self.metric
    }

    /// The language in which the metric is shown.
    pub closed spec fn spec_language(&self) -> AppLanguage {
        self.language
    }

    pub fn new(metric: MetricType, language: AppLanguage) -> (t: Self)
        ensures
            t.spec_metric() == metric,
            t.spec_language() == language,
    {
        Self { metric, language }
    }

    /// The translated metric name, as the option's `Display` form reads.
    pub fn to_string(&self) -> (s: String)
        ensures
            s@ == metric_type_name_text(self.spec_language(), self.spec_metric()),
    {
        String::from_str(metric_type_name(self.language, self.metric))
    }
}

} // verus!
