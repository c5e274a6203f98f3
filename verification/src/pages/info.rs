//! The hardware information page: which cards it shows, in which order,
//! and how sizes and display modes are printed.

use vstd::prelude::*;
use crate::components::hardware_card::{Accent, InfoCard, InfoCardView, InfoField};
use crate::components::sensors::SensorTableNames;
use crate::icons::Icon;
use crate::text::{decimal, digit_char, digit_str, push_decimal};
use crate::translations::{
    battery, battery_status, battery_status_text, battery_text, capacity, capacity_text, capacity_wh_cycles,
    capacity_wh_cycles_text, capacity_wh_only, capacity_wh_only_text, cores, cores_and_threads,
    cores_and_threads_text, cores_text, cpu, cpu_text, disk, disk_information, disk_information_text, disk_n,
    disk_n_text, disk_text, display, display_text, gpu, gpu_text, graphics_information, graphics_information_text,
    graphics_processor_n, graphics_processor_n_text, hostname, hostname_text, memory, memory_text, mode, mode_text,
    model, model_text, na, na_text, na_with_cycles, na_with_cycles_text, name, name_text, operating_system,
    operating_system_text, os_information, os_information_text, primary_display, primary_display_text,
    processor_information, processor_information_text, ram_information, ram_information_text, screen_information,
    screen_information_text, secondary_display, secondary_display_text, space, space_text, storage, storage_text,
    swap, swap_text, system, system_text, total_memory, total_memory_text,
};
use crate::translations::{hardware_keys_name_no_table, info_modal_title_text, lemma_hardware_dialog_titles};
use crate::types::AppLanguage;

verus! {

/// Hardware information page.
pub struct InfoPage;

impl InfoPage {
    pub fn new() -> Self {
        InfoPage
    }
}

/// 2^53: below it every integer is exactly an `f64`.
pub open spec fn f64_exact_limit() -> nat {
    9_007_199_254_740_992
}

/// Bytes in a gigabyte (2^30).
pub open spec fn bytes_per_gb() -> nat {
    1_073_741_824
}

/// The spacing of the `f64` values around `b`: the least power of two `p`
/// with `b / p < 2^53`.
pub open spec fn f64_unit(b: nat) -> nat
    decreases b,
{
    if b < f64_exact_limit() { 1 } else { 2 * f64_unit(b / 2) }
}

/// `n / d` rounded to the nearest integer, ties to the even one.
pub open spec fn round_half_even(n: nat, d: nat) -> nat {
    let q = n / d;
    let r = n % d;
    if 2 * r > d || (2 * r == d && q % 2 == 1) { q + 1 } else { q }
}

/// The `f64` nearest to `b` (ties to even), as `b as f64` gives it.
pub open spec fn f64_nearest(b: nat) -> nat {
    round_half_even(b, f64_unit(b)) * f64_unit(b)
}

/// The size in gigabytes, in hundredths, rounded as `{:.2}` prints
/// `bytes as f64 / 2^30`: the exact quotient, ties to even.
pub open spec fn gb_hundredths(bytes: nat) -> nat {
    round_half_even(f64_nearest(bytes) * 100, bytes_per_gb())
}

/// "{:.2} GB" of a byte count, or "N/A" for zero bytes.
pub open spec fn format_bytes_gb_text(bytes: nat, language: AppLanguage) -> Seq<char> {
    if bytes == 0 {
        na_text(language)
    } else {
        let h = gb_hundredths(bytes);
        decimal(h / 100) + "."@ + seq![digit_char((h % 100) / 10), digit_char(h % 10)] + " GB"@
    }
}

fn round_half_even_u128(n: u128, d: u128) -> (q: u128)
    requires
        d > 0,
        d <= u64::MAX,
        n <= 0x1_0000_0000_0000_0000_0000_0000,
    ensures
        q == round_half_even(n as nat, d as nat),
{
    let q = n / d;
    let r = n % d;
    if 2 * r > d || (2 * r == d && q % 2 == 1) {
        q + 1
    } else {
        q
    }
}

/// `b as f64`, as an exact integer.
fn f64_nearest_u64(b: u64) -> (r: u128)
    ensures
        r == f64_nearest(b as nat),
        r <= 2 * (b as nat) + 1,
{
    let mut unit: u64 = 1;
    let mut t: u64 = b;
    while t >= 9_007_199_254_740_992
        invariant
            unit >= 1,
            unit == 1 || t > 0,
            t as nat == b as nat / unit as nat,
            unit as nat * t as nat <= b as nat,
            f64_unit(b as nat) == unit as nat * f64_unit(t as nat),
        decreases t,
    {
        proof {
            vstd::arithmetic::div_mod::lemma_div_denominator(b as int, unit as int, 2);
            let x = f64_unit((t / 2) as nat);
            assert(f64_unit(t as nat) == 2 * x);
            assert(unit as nat * (2 * x) == (unit as nat * 2) * x) by (nonlinear_arith);
            assert(unit as nat * t as nat >= unit as nat * 9_007_199_254_740_992) by (nonlinear_arith)
                requires
                    t >= 9_007_199_254_740_992,
            ;
            assert((unit as nat * 2) * (t as nat / 2) <= unit as nat * t as nat) by (nonlinear_arith);
        }
        t = t / 2;
        unit = unit * 2;
    }
    assert(f64_unit(t as nat) == 1);
    let q = round_half_even_u128(b as u128, unit as u128);
    proof {
        let bb = b as nat;
        let u = unit as nat;
        assert(bb / u * u <= bb) by (nonlinear_arith)
            requires
                u >= 1,
        ;
        assert(q <= bb / u + 1);
        assert(q * u <= bb / u * u + u) by (nonlinear_arith)
            requires
                q <= bb / u + 1,
        ;
        assert(u <= bb || u == 1) by (nonlinear_arith)
            requires
                u >= 1,
                u == 1 || t > 0,
                u * t as nat <= bb,
        ;
    }
    q * (unit as u128)
}

/// Formats a byte count in gigabytes with two decimals, or "N/A" when it is zero.
pub fn format_bytes_gb(bytes: u64, language: AppLanguage) -> (s: String)
    ensures
        s@ == format_bytes_gb_text(bytes as nat, language),
{
    if bytes == 0 {
        return String::from_str(na(language));
    }
    let f = f64_nearest_u64(bytes);
    let h = round_half_even_u128(f * 100, 1_073_741_824);
    proof {
        assert(h <= f * 100 / 1_073_741_824 + 1);
    }
    let whole = (h / 100) as u64;
    let frac = (h % 100) as u64;
    let mut s = String::new();
    push_decimal(&mut s, whole);
    s.append(".");
    s.append(digit_str(frac / 10));
    s.append(digit_str(frac % 10));
    s.append(" GB");
    proof {
        reveal_strlit(".");
        assert(s@ =~= format_bytes_gb_text(bytes as nat, language));
    }
    s
}

/// "{resolution} @ {refresh} Hz", or the resolution alone when the refresh
/// rate is unknown (zero).
pub open spec fn format_display_mode_text(resolution: Seq<char>, refresh_rate_hz: nat) -> Seq<char> {
    if refresh_rate_hz > 0 {
        resolution + " @ "@ + decimal(refresh_rate_hz) + " Hz"@
    } else {
        resolution
    }
}

/// Formats a display's resolution and refresh rate.
pub fn format_display_mode(resolution: &str, refresh_rate_hz: u32) -> (s: String)
    ensures
        s@ == format_display_mode_text(resolution@, refresh_rate_hz as nat),
{
    if refresh_rate_hz > 0 {
        let mut s = String::from_str(resolution);
        s.append(" @ ");
        push_decimal(&mut s, refresh_rate_hz as u64);
        s.append(" Hz");
        s
    } else {
        String::from_str(resolution)
    }
}

/// The processor as the hardware page shows it.
#[derive(Clone, Debug)]
pub struct CpuInfo {
    pub name: String,
    pub physical_cores: u16,
    pub logical_cores: u16,
}

/// Installed memory and swap.
#[derive(Clone, Debug)]
pub struct MemoryInfo {
    pub total_ram_bytes: u64,
    pub total_swap_bytes: u64,
}

/// The operating system and the machine's name.
#[derive(Clone, Debug)]
pub struct SystemInfo {
    pub os: String,
    pub hostname: String,
}

/// One storage drive.
#[derive(Clone, Debug)]
pub struct DiskInfo {
    pub name: String,
    pub mount_point: String,
    pub used_bytes: u64,
    pub total_bytes: u64,
}

/// The battery, if the machine has one. The design capacity arrives printed
/// in watt-hours with one decimal.
#[derive(Clone, Debug)]
pub struct BatteryInfo {
    pub present: bool,
    pub name: Option<String>,
    pub design_capacity_wh_text: Option<String>,
    pub cycle_count: Option<u32>,
}

/// One connected screen.
#[derive(Clone, Debug)]
pub struct DisplayInfo {
    pub model: String,
    pub resolution: String,
    pub refresh_rate_hz: u32,
    pub is_primary: bool,
}

/// Everything the hardware page shows about the machine.
#[derive(Clone, Debug)]
pub struct HardwareInfo {
    pub cpu: CpuInfo,
    pub gpus: Vec<String>,
    pub memory: MemoryInfo,
    pub system: SystemInfo,
    pub disks: Vec<DiskInfo>,
    pub battery: BatteryInfo,
    pub displays: Vec<DisplayInfo>,
}

/// The processor card.
pub open spec fn cpu_card(hw: HardwareInfo, language: AppLanguage, tables: SensorTableNames) -> InfoCardView {
    InfoCardView {
        icon: Icon::CPU,
        accent: Accent::Primary,
        title: cpu_text(language),
        subtitle: processor_information_text(language),
        field: (model_text(language), hw.cpu.name@),
        optional_field: Some((
            cores_text(language),
            cores_and_threads_text(language, hw.cpu.physical_cores as nat, hw.cpu.logical_cores as nat),
        )),
        info_key: Some(tables.cpu@),
    }
}

/// The card of the `i`-th graphics processor (numbered from one on screen).
pub open spec fn gpu_card(hw: HardwareInfo, language: AppLanguage, tables: SensorTableNames, i: int) -> InfoCardView {
    InfoCardView {
        icon: Icon::GPU,
        accent: Accent::Danger,
        title: gpu_text(language),
        subtitle: graphics_processor_n_text(language, (i + 1) as nat),
        field: (model_text(language), hw.gpus@[i]@),
        optional_field: None,
        info_key: Some(tables.gpu@),
    }
}

/// One card per graphics processor, or a single "N/A" card when there is none.
pub open spec fn gpu_cards(hw: HardwareInfo, language: AppLanguage, tables: SensorTableNames) -> Seq<InfoCardView> {
    if hw.gpus@.len() == 0 {
        seq![InfoCardView {
            icon: Icon::GPU,
            accent: Accent::Danger,
            title: gpu_text(language),
            subtitle: graphics_information_text(language),
            field: (model_text(language), na_text(language)),
            optional_field: None,
            info_key: Some(tables.gpu@),
        }]
    } else {
        Seq::new(hw.gpus@.len(), |i: int| gpu_card(hw, language, tables, i))
    }
}

/// The memory card.
pub open spec fn ram_card(hw: HardwareInfo, language: AppLanguage, tables: SensorTableNames) -> InfoCardView {
    InfoCardView {
        icon: Icon::RAM,
        accent: Accent::Warning,
        title: memory_text(language),
        subtitle: ram_information_text(language),
        field: (total_memory_text(language), format_bytes_gb_text(hw.memory.total_ram_bytes as nat, language)),
        optional_field: Some((swap_text(language), format_bytes_gb_text(hw.memory.total_swap_bytes as nat, language))),
        info_key: Some(tables.ram@),
    }
}

/// The operating-system card.
pub open spec fn system_card(hw: HardwareInfo, language: AppLanguage) -> InfoCardView {
    InfoCardView {
        icon: Icon::System,
        accent: Accent::Success,
        title: system_text(language),
        subtitle: os_information_text(language),
        field: (operating_system_text(language), hw.system.os@),
        optional_field: Some((hostname_text(language), hw.system.hostname@)),
        info_key: Some("system"@),
    }
}

/// The card of the `i`-th drive: "mount (name)" and "used / total".
pub open spec fn disk_card(hw: HardwareInfo, language: AppLanguage, tables: SensorTableNames, i: int) -> InfoCardView {
    let d = hw.disks@[i];
    InfoCardView {
        icon: Icon::Storage,
        accent: Accent::Primary,
        title: storage_text(language),
        subtitle: disk_n_text(language, (i + 1) as nat),
        field: (disk_text(language), d.mount_point@ + " ("@ + d.name@ + ")"@),
        optional_field: Some((
            space_text(language),
            format_bytes_gb_text(d.used_bytes as nat, language) + " / "@
                + format_bytes_gb_text(d.total_bytes as nat, language),
        )),
        info_key: Some(tables.disk@),
    }
}

/// One card per drive, or a single "N/A" card when there is none.
pub open spec fn disk_cards(hw: HardwareInfo, language: AppLanguage, tables: SensorTableNames) -> Seq<InfoCardView> {
    if hw.disks@.len() == 0 {
        seq![InfoCardView {
            icon: Icon::Storage,
            accent: Accent::Primary,
            title: storage_text(language),
            subtitle: disk_information_text(language),
            field: (disk_text(language), na_text(language)),
            optional_field: Some((space_text(language), na_text(language))),
            info_key: Some(tables.disk@),
        }]
    } else {
        Seq::new(hw.disks@.len(), |i: int| disk_card(hw, language, tables, i))
    }
}

/// The battery capacity line: capacity and cycle count as far as they are known.
pub open spec fn battery_capacity_text(b: BatteryInfo, language: AppLanguage) -> Seq<char> {
    match (b.design_capacity_wh_text, b.cycle_count) {
        (Some(cap), Some(cycles)) => capacity_wh_cycles_text(language, cap@, cycles as nat),
        (Some(cap), None) => capacity_wh_only_text(language, cap@),
        (None, Some(cycles)) => na_with_cycles_text(language, cycles as nat),
        (None, None) => na_text(language),
    }
}

/// The battery card; every value reads "N/A" when no battery is present.
pub open spec fn battery_card(hw: HardwareInfo, language: AppLanguage) -> InfoCardView {
    let b = hw.battery;
    InfoCardView {
        icon: Icon::Battery,
        accent: Accent::Warning,
        title: battery_text(language),
        subtitle: battery_status_text(language),
        field: (
            name_text(language),
            if b.present {
                match b.name {
                    Some(n) => n@,
                    None => na_text(language),
                }
            } else {
                na_text(language)
            },
        ),
        optional_field: Some((
            capacity_text(language),
            if b.present { battery_capacity_text(b, language) } else { na_text(language) },
        )),
        info_key: Some("battery"@),
    }
}

/// The card of one screen.
pub open spec fn display_card(d: DisplayInfo, language: AppLanguage) -> InfoCardView {
    InfoCardView {
        icon: Icon::Display,
        accent: Accent::Success,
        title: display_text(language),
        subtitle: if d.is_primary { primary_display_text(language) } else { secondary_display_text(language) },
        field: (model_text(language), d.model@),
        optional_field: Some((mode_text(language), format_display_mode_text(d.resolution@, d.refresh_rate_hz as nat))),
        info_key: Some("display"@),
    }
}

/// The cards of the screens that are (or are not) primary, in their order.
pub open spec fn display_cards_where(ds: Seq<DisplayInfo>, primary: bool, language: AppLanguage) -> Seq<InfoCardView>
    decreases ds.len(),
{
    if ds.len() == 0 {
        Seq::empty()
    } else {
        display_cards_where(ds.drop_last(), primary, language) + if ds.last().is_primary == primary {
            seq![display_card(ds.last(), language)]
        } else {
            Seq::empty()
        }
    }
}

/// Primary screens first, then the others, each group in its given order; a
/// single "N/A" card when no screen is known.
pub open spec fn display_cards(hw: HardwareInfo, language: AppLanguage) -> Seq<InfoCardView> {
    if hw.displays@.len() == 0 {
        seq![InfoCardView {
            icon: Icon::Display,
            accent: Accent::Success,
            title: display_text(language),
            subtitle: screen_information_text(language),
            field: (model_text(language), na_text(language)),
            optional_field: Some((mode_text(language), na_text(language))),
            info_key: Some("display"@),
        }]
    } else {
        display_cards_where(hw.displays@, true, language) + display_cards_where(hw.displays@, false, language)
    }
}

/// The cards of the hardware page in display order: processor, graphics,
/// memory, system, storage, battery, screens.
pub open spec fn info_cards_text(hw: HardwareInfo, language: AppLanguage, tables: SensorTableNames) -> Seq<InfoCardView> {
    seq![cpu_card(hw, language, tables)]
        + gpu_cards(hw, language, tables)
        + seq![ram_card(hw, language, tables), system_card(hw, language)]
        + disk_cards(hw, language, tables)
        + seq![battery_card(hw, language)]
        + display_cards(hw, language)
}

/// The text of a list of cards.
pub open spec fn cards_view(cards: Seq<InfoCard>) -> Seq<InfoCardView> {
    cards.map_values(|c: InfoCard| c@)
}

/// Appends `card`: the text of the list grows by the card's text.
fn push_card(cards: &mut Vec<InfoCard>, card: InfoCard)
    ensures
        cards_view(final(cards)@) == cards_view(old(cards)@).push(card@),
{
    let ghost before = cards_view(cards@);
    cards.push(card);
    assert(cards_view(cards@) =~= before.push(card@));
}

/// The capacity line of a present battery.
fn battery_capacity(b: &BatteryInfo, language: AppLanguage) -> (s: String)
    ensures
        s@ == battery_capacity_text(*b, language),
{
    match (&b.design_capacity_wh_text, b.cycle_count) {
        (Some(cap), Some(cycles)) => capacity_wh_cycles(language, cap.as_str(), cycles),
        (Some(cap), None) => capacity_wh_only(language, cap.as_str()),
        (None, Some(cycles)) => na_with_cycles(language, cycles),
        (None, None) => String::from_str(na(language)),
    }
}

fn push_cpu_card(cards: &mut Vec<InfoCard>, hw: &HardwareInfo, language: AppLanguage, tables: &SensorTableNames)
    ensures
        cards_view(final(cards)@) == cards_view(old(cards)@).push(cpu_card(*hw, language, *tables)),
{
    let cores_value = cores_and_threads(language, hw.cpu.physical_cores, hw.cpu.logical_cores);
    let card = InfoCard::new(
        Icon::CPU,
        Accent::Primary,
        cpu(language),
        processor_information(language),
        InfoField::new(model(language), hw.cpu.name.as_str()),
        Some(InfoField::new(cores(language), cores_value.as_str())),
        Some(tables.cpu.as_str()),
    );
    push_card(cards, card);
}

fn push_gpu_cards(cards: &mut Vec<InfoCard>, hw: &HardwareInfo, language: AppLanguage, tables: &SensorTableNames)
    ensures
        cards_view(final(cards)@) == cards_view(old(cards)@) + gpu_cards(*hw, language, *tables),
{
    let ghost start = cards_view(cards@);
    if hw.gpus.len() == 0 {
        let card = InfoCard::new(
            Icon::GPU,
            Accent::Danger,
            gpu(language),
            graphics_information(language),
            InfoField::new(model(language), na(language)),
            None,
            Some(tables.gpu.as_str()),
        );
        push_card(cards, card);
        assert(cards_view(cards@) =~= start + gpu_cards(*hw, language, *tables));
    } else {
        let n = hw.gpus.len();
        let mut i: usize = 0;
        while i < n
            invariant
                n == hw.gpus@.len(),
                i <= n,
                cards_view(cards@) == start + Seq::new(i as nat, |j: int| gpu_card(*hw, language, *tables, j)),
            decreases n - i,
        {
            let subtitle = graphics_processor_n(language, i + 1);
            let card = InfoCard::new(
                Icon::GPU,
                Accent::Danger,
                gpu(language),
                subtitle.as_str(),
                InfoField::new(model(language), hw.gpus[i].as_str()),
                None,
                Some(tables.gpu.as_str()),
            );
            assert(card@ == gpu_card(*hw, language, *tables, i as int));
            push_card(cards, card);
            assert(cards_view(cards@) =~= start + Seq::new((i + 1) as nat, |j: int| gpu_card(*hw, language, *tables, j)));
            i = i + 1;
        }
    }
}

fn push_ram_card(cards: &mut Vec<InfoCard>, hw: &HardwareInfo, language: AppLanguage, tables: &SensorTableNames)
    ensures
        cards_view(final(cards)@) == cards_view(old(cards)@).push(ram_card(*hw, language, *tables)),
{
    let ram_value = format_bytes_gb(hw.memory.total_ram_bytes, language);
    let swap_value = format_bytes_gb(hw.memory.total_swap_bytes, language);
    let card = InfoCard::new(
        Icon::RAM,
        Accent::Warning,
        memory(language),
        ram_information(language),
        InfoField::new(total_memory(language), ram_value.as_str()),
        Some(InfoField::new(swap(language), swap_value.as_str())),
        Some(tables.ram.as_str()),
    );
    push_card(cards, card);
}

fn push_system_card(cards: &mut Vec<InfoCard>, hw: &HardwareInfo, language: AppLanguage)
    ensures
        cards_view(final(cards)@) == cards_view(old(cards)@).push(system_card(*hw, language)),
        cards_view(final(cards)@).last().field == (operating_system_text(language), hw.system.os@),
        cards_view(final(cards)@).last().optional_field == Some((hostname_text(language), hw.system.hostname@)),
{
    let card = InfoCard::new(
        Icon::System,
        Accent::Success,
        system(language),
        os_information(language),
        InfoField::new(operating_system(language), hw.system.os.as_str()),
        Some(InfoField::new(hostname(language), hw.system.hostname.as_str())),
        Some("system"),
    );
    push_card(cards, card);
}

/// The card of one drive.
fn make_disk_card(d: &DiskInfo, n: usize, language: AppLanguage, tables: &SensorTableNames) -> (c: InfoCard)
    ensures
        c@ == (InfoCardView {
            icon: Icon::Storage,
            accent: Accent::Primary,
            title: storage_text(language),
            subtitle: disk_n_text(language, n as nat),
            field: (disk_text(language), d.mount_point@ + " ("@ + d.name@ + ")"@),
            optional_field: Some((
                space_text(language),
                format_bytes_gb_text(d.used_bytes as nat, language) + " / "@
                    + format_bytes_gb_text(d.total_bytes as nat, language),
            )),
            info_key: Some(tables.disk@),
        }),
{
    let subtitle = disk_n(language, n);
    let mut location = String::from_str(d.mount_point.as_str());
    location.append(" (");
    location.append(d.name.as_str());
    location.append(")");
    let mut space_value = format_bytes_gb(d.used_bytes, language);
    space_value.append(" / ");
    let total = format_bytes_gb(d.total_bytes, language);
    space_value.append(total.as_str());
    InfoCard::new(
        Icon::Storage,
        Accent::Primary,
        storage(language),
        subtitle.as_str(),
        InfoField::new(disk(language), location.as_str()),
        Some(InfoField::new(space(language), space_value.as_str())),
        Some(tables.disk.as_str()),
    )
}

fn push_disk_cards(cards: &mut Vec<InfoCard>, hw: &HardwareInfo, language: AppLanguage, tables: &SensorTableNames)
    ensures
        cards_view(final(cards)@) == cards_view(old(cards)@) + disk_cards(*hw, language, *tables),
{
    let ghost start = cards_view(cards@);
    if hw.disks.len() == 0 {
        let card = InfoCard::new(
            Icon::Storage,
            Accent::Primary,
            storage(language),
            disk_information(language),
            InfoField::new(disk(language), na(language)),
            Some(InfoField::new(space(language), na(language))),
            Some(tables.disk.as_str()),
        );
        push_card(cards, card);
        assert(cards_view(cards@) =~= start + disk_cards(*hw, language, *tables));
    } else {
        let n = hw.disks.len();
        let mut i: usize = 0;
        while i < n
            invariant
                n == hw.disks@.len(),
                i <= n,
                cards_view(cards@) == start + Seq::new(i as nat, |j: int| disk_card(*hw, language, *tables, j)),
            decreases n - i,
        {
            let card = make_disk_card(&hw.disks[i], i + 1, language, tables);
            assert(card@ == disk_card(*hw, language, *tables, i as int));
            push_card(cards, card);
            assert(cards_view(cards@) =~= start + Seq::new((i + 1) as nat, |j: int| disk_card(*hw, language, *tables, j)));
            i = i + 1;
        }
    }
}

fn push_battery_card(cards: &mut Vec<InfoCard>, hw: &HardwareInfo, language: AppLanguage)
    ensures
        cards_view(final(cards)@) == cards_view(old(cards)@).push(battery_card(*hw, language)),
{
    let b = &hw.battery;
    let card = if b.present {
        let capacity_value = battery_capacity(b, language);
        let name_value = match &b.name {
            Some(n) => n.as_str(),
            None => na(language),
        };
        InfoCard::new(
            Icon::Battery,
            Accent::Warning,
            battery(language),
            battery_status(language),
            InfoField::new(name(language), name_value),
            Some(InfoField::new(capacity(language), capacity_value.as_str())),
            Some("battery"),
        )
    } else {
        InfoCard::new(
            Icon::Battery,
            Accent::Warning,
            battery(language),
            battery_status(language),
            InfoField::new(name(language), na(language)),
            Some(InfoField::new(capacity(language), na(language))),
            Some("battery"),
        )
    };
    assert(card@ == battery_card(*hw, language));
    push_card(cards, card);
}

/// Appends the cards of the screens whose primary flag is `primary`.
fn push_display_cards_where(cards: &mut Vec<InfoCard>, displays: &Vec<DisplayInfo>, primary: bool, language: AppLanguage)
    ensures
        cards_view(final(cards)@) == cards_view(old(cards)@) + display_cards_where(displays@, primary, language),
{
    let ghost start = cards_view(cards@);
    let n = displays.len();
    let mut i: usize = 0;
    assert(display_cards_where(displays@.take(0), primary, language) =~= Seq::empty());
    assert(cards_view(cards@) =~= start + display_cards_where(displays@.take(0), primary, language));
    while i < n
        invariant
            n == displays@.len(),
            i <= n,
            cards_view(cards@) == start + display_cards_where(displays@.take(i as int), primary, language),
        decreases n - i,
    {
        let d = &displays[i];
        assert(displays@.take(i + 1).drop_last() =~= displays@.take(i as int));
        if d.is_primary == primary {
            let subtitle = if d.is_primary { primary_display(language) } else { secondary_display(language) };
            let mode_value = format_display_mode(d.resolution.as_str(), d.refresh_rate_hz);
            let card = InfoCard::new(
                Icon::Display,
                Accent::Success,
                display(language),
                subtitle,
                InfoField::new(model(language), d.model.as_str()),
                Some(InfoField::new(mode(language), mode_value.as_str())),
                Some("display"),
            );
            assert(card@ == display_card(*d, language));
            push_card(cards, card);
            assert(cards_view(cards@) =~= start + display_cards_where(displays@.take(i + 1), primary, language));
        } else {
            assert(display_cards_where(displays@.take(i + 1), primary, language)
                =~= display_cards_where(displays@.take(i as int), primary, language));
        }
        i = i + 1;
    }
    assert(displays@.take(n as int) =~= displays@);
}

fn push_display_cards(cards: &mut Vec<InfoCard>, hw: &HardwareInfo, language: AppLanguage)
    ensures
        cards_view(final(cards)@) == cards_view(old(cards)@) + display_cards(*hw, language),
{
    let ghost start = cards_view(cards@);
    if hw.displays.len() == 0 {
        let card = InfoCard::new(
            Icon::Display,
            Accent::Success,
            display(language),
            screen_information(language),
            InfoField::new(model(language), na(language)),
            Some(InfoField::new(mode(language), na(language))),
            Some("display"),
        );
        push_card(cards, card);
        assert(cards_view(cards@) =~= start + display_cards(*hw, language));
    } else {
        push_display_cards_where(cards, &hw.displays, true, language);
        push_display_cards_where(cards, &hw.displays, false, language);
        assert(cards_view(cards@) =~= start + display_cards(*hw, language));
    }
}

/// Builds the cards of the hardware page, in display order.
pub fn info_cards(hw: &HardwareInfo, language: AppLanguage, tables: &SensorTableNames) -> (cards: Vec<InfoCard>)
    ensures
        cards_view(cards@) == info_cards_text(*hw, language, *tables),
{
    let mut cards: Vec<InfoCard> = Vec::new();
    assert(cards_view(cards@) =~= Seq::empty());
    push_cpu_card(&mut cards, hw, language, tables);
    push_gpu_cards(&mut cards, hw, language, tables);
    push_ram_card(&mut cards, hw, language, tables);
    push_system_card(&mut cards, hw, language);
    push_disk_cards(&mut cards, hw, language, tables);
    push_battery_card(&mut cards, hw, language);
    push_display_cards(&mut cards, hw, language);
    assert(cards_view(cards@) =~= info_cards_text(*hw, language, *tables));
    cards
}


/// How many cards the selected screens of `ds` give.
proof fn lemma_display_cards_where_len(ds: Seq<DisplayInfo>, language: AppLanguage)
    ensures
        display_cards_where(ds, true, language).len() + display_cards_where(ds, false, language).len() == ds.len(),
    decreases ds.len(),
{
    if ds.len() > 0 {
        lemma_display_cards_where_len(ds.drop_last(), language);
    }
}

/// The system card comes right after the processor, graphics and memory cards,
/// and shows the operating system as its value and the hostname as its second
/// value.
pub proof fn lemma_system_card_shows_os_and_hostname(hw: HardwareInfo, language: AppLanguage, tables: SensorTableNames)
    ensures
        ({
            let k = 2 + (if hw.gpus@.len() == 0 { 1int } else { hw.gpus@.len() as int });
            let cards = info_cards_text(hw, language, tables);
            &&& k < cards.len()
            &&& cards[k].title == system_text(language)
            &&& cards[k].field == (operating_system_text(language), hw.system.os@)
            &&& cards[k].optional_field == Some((hostname_text(language), hw.system.hostname@))
            &&& cards[k].info_key == Some("system"@)
        }),
{
    let g = gpu_cards(hw, language, tables);
    let k = 2 + (if hw.gpus@.len() == 0 { 1int } else { hw.gpus@.len() as int });
    assert(g.len() == k - 2);
    let head = seq![cpu_card(hw, language, tables)] + g + seq![ram_card(hw, language, tables), system_card(hw, language)];
    assert(head[k] == system_card(hw, language));
    lemma_info_card_count(hw, language, tables);
    let cards = info_cards_text(hw, language, tables);
    assert(cards == head + disk_cards(hw, language, tables) + seq![battery_card(hw, language)]
        + display_cards(hw, language));
    assert(cards[k] == head[k]);
}

/// Every card of the screens carries the screens' title and dialog key.
proof fn lemma_display_cards_where_keys(ds: Seq<DisplayInfo>, primary: bool, language: AppLanguage)
    ensures
        forall|i: int| 0 <= i < display_cards_where(ds, primary, language).len() ==> {
            &&& (#[trigger] display_cards_where(ds, primary, language)[i]).title == display_text(language)
            &&& display_cards_where(ds, primary, language)[i].info_key == Some("display"@)
        },
    decreases ds.len(),
{
    if ds.len() > 0 {
        lemma_display_cards_where_keys(ds.drop_last(), primary, language);
    }
}

/// The information dialog opened from the system card, the battery card or
/// any screen card carries that card's title, as long as no sensor table is
/// named like those cards' keys.
pub proof fn lemma_dialog_titles_match_cards(hw: HardwareInfo, language: AppLanguage, tables: SensorTableNames)
    requires
        hardware_keys_name_no_table(tables),
    ensures
        info_modal_title_text(language, system_card(hw, language).info_key->0, tables) == system_card(hw, language).title,
        info_modal_title_text(language, battery_card(hw, language).info_key->0, tables) == battery_card(hw, language).title,
        forall|i: int| 0 <= i < display_cards(hw, language).len() ==> info_modal_title_text(
            language,
            (#[trigger] display_cards(hw, language)[i]).info_key->0,
            tables,
        ) == display_cards(hw, language)[i].title,
{
    lemma_hardware_dialog_titles(language, tables);
    lemma_display_cards_where_keys(hw.displays@, true, language);
    lemma_display_cards_where_keys(hw.displays@, false, language);
    if hw.displays@.len() > 0 {
        let a = display_cards_where(hw.displays@, true, language);
        let b = display_cards_where(hw.displays@, false, language);
        assert forall|i: int| 0 <= i < (a + b).len() implies (#[trigger] (a + b)[i]).title == display_text(language)
            && (a + b)[i].info_key == Some("display"@) by {
            if i >= a.len() {
                assert((a + b)[i] == b[i - a.len()]);
            }
        }
    }
}

/// The hardware page shows one card per processor, memory, system and
/// battery, one per graphics processor, drive and screen (a single
/// placeholder where there is none).
pub proof fn lemma_info_card_count(hw: HardwareInfo, language: AppLanguage, tables: SensorTableNames)
    ensures
        info_cards_text(hw, language, tables).len() == 4
            + (if hw.gpus@.len() == 0 { 1 } else { hw.gpus@.len() })
            + (if hw.disks@.len() == 0 { 1 } else { hw.disks@.len() })
            + (if hw.displays@.len() == 0 { 1 } else { hw.displays@.len() }),
{
    lemma_display_cards_where_len(hw.displays@, language);
}
} // verus!
