//! Decisions that depend on which sensor table a chart shows.

use vstd::prelude::*;
use crate::components::chart::LineType;
use crate::text::str_eq;
use crate::translations::TranslatedTimeRange;
use crate::types::{AppLanguage, MetricType, TimeRange, component_ranges, range_granularity, range_seconds, total_ranges};

verus! {

/// The names under which the database stores each sensor table.
#[derive(Clone, Debug)]
pub struct SensorTableNames {
    pub cpu: String,
    pub gpu: String,
    pub ram: String,
    pub disk: String,
    pub network: String,
    pub process: String,
    pub total: String,
}

/// What a sensor card shows: one hardware component, the whole system, or the
/// list of processes.
#[derive(Clone, Copy, Debug, PartialEq, Eq, Structural)]
pub enum SensorKind {
    Component,
    Total,
    Processes,
}

/// The kind of card of a table: the total table first, then the process table.
pub open spec fn sensor_kind_of(table_name: Seq<char>, tables: SensorTableNames) -> SensorKind {
    if table_name == tables.total@ {
        SensorKind::Total
    } else if table_name == tables.process@ {
        SensorKind::Processes
    } else {
        SensorKind::Component
    }
}

/// Returns the kind of card that shows `table_name`.
pub fn sensor_kind(table_name: &str, tables: &SensorTableNames) -> (k: SensorKind)
    ensures
        k == sensor_kind_of(table_name@, *tables),
{
    if str_eq(table_name, tables.total.as_str()) {
        SensorKind::Total
    } else if str_eq(table_name, tables.process.as_str()) {
        SensorKind::Processes
    } else {
        SensorKind::Component
    }
}

/// The metric that a component chart switches to once its first data arrive:
/// usage for memory, speed for disks and network, none (power stays) otherwise.
pub open spec fn initial_metric_of(table_name: Seq<char>, tables: SensorTableNames) -> Option<MetricType> {
    if table_name == tables.ram@ {
        Some(MetricType::Usage)
    } else if table_name == tables.disk@ || table_name == tables.network@ {
        Some(MetricType::Speed)
    } else {
        None
    }
}

pub fn initial_metric_for_table(table_name: &str, tables: &SensorTableNames) -> (m: Option<MetricType>)
    ensures
        m == initial_metric_of(table_name@, *tables),
{
    if str_eq(table_name, tables.ram.as_str()) {
        Some(MetricType::Usage)
    } else if str_eq(table_name, tables.disk.as_str()) || str_eq(table_name, tables.network.as_str()) {
        Some(MetricType::Speed)
    } else {
        None
    }
}

/// Real-time charts draw lines; aggregated ones draw steps.
pub open spec fn line_type_of(range: TimeRange) -> LineType {
    if range == TimeRange::LastMinute { LineType::Line } else { LineType::Step }
}

pub fn line_type_for_range(range: &TimeRange) -> (l: LineType)
    ensures
        l == line_type_of(*range),
{
    match range {
        TimeRange::LastMinute => LineType::Line,
        _ => LineType::Step,
    }
}

/// The time ranges that a card offers: every range for the total and process
/// tables, the short ones for a component.
pub open spec fn offered_ranges(table_name: Seq<char>, tables: SensorTableNames) -> Seq<TimeRange> {
    if table_name == tables.total@ || table_name == tables.process@ {
        total_ranges()
    } else {
        component_ranges()
    }
}

/// Returns the time-range options of the card that shows `table_name`.
pub fn time_range_options(language: AppLanguage, table_name: &str, tables: &SensorTableNames) -> (v: Vec<TranslatedTimeRange>)
    ensures
        v@.len() == offered_ranges(table_name@, *tables).len(),
        forall|i: int| 0 <= i < v@.len() ==>
            #[trigger] v@[i].spec_range() == offered_ranges(table_name@, *tables)[i]
                && v@[i].spec_language() == language,
        table_name@ == tables.total@ || table_name@ == tables.process@ ==> v@.map_values(
            |o: TranslatedTimeRange| o.spec_range(),
        ) == seq![
            TimeRange::LastMinute,
            TimeRange::LastHour,
            TimeRange::Last24Hours,
            TimeRange::LastWeek,
            TimeRange::LastMonth,
            TimeRange::LastYear,
        ],
        table_name@ != tables.total@ && table_name@ != tables.process@ ==> v@.map_values(
            |o: TranslatedTimeRange| o.spec_range(),
        ) == seq![TimeRange::LastMinute, TimeRange::LastHour, TimeRange::Last24Hours],
{
    proof {
        lemma_offered_ranges(table_name@, *tables);
    }
    let v = if str_eq(table_name, tables.total.as_str()) || str_eq(table_name, tables.process.as_str()) {
        TranslatedTimeRange::options_total(language)
    } else {
        TranslatedTimeRange::options_component(language)
    };
    assert(v@.map_values(|o: TranslatedTimeRange| o.spec_range()) =~= offered_ranges(table_name@, *tables));
    v
}

/// The cards of the total and the process tables offer all six ranges, from
/// the last minute to the last year; every other card offers the last minute,
/// hour and day.
pub proof fn lemma_offered_ranges(table_name: Seq<char>, tables: SensorTableNames)
    ensures
        table_name == tables.total@ || table_name == tables.process@ ==> offered_ranges(table_name, tables) == seq![
            TimeRange::LastMinute,
            TimeRange::LastHour,
            TimeRange::Last24Hours,
            TimeRange::LastWeek,
            TimeRange::LastMonth,
            TimeRange::LastYear,
        ],
        table_name != tables.total@ && table_name != tables.process@ ==> offered_ranges(table_name, tables)
            == seq![TimeRange::LastMinute, TimeRange::LastHour, TimeRange::Last24Hours],
{
}

/// Which readings the database is asked for when a chart loads a range.
#[derive(Clone, Copy, Debug, PartialEq, Eq, Structural)]
pub enum HistoryQuery {
    /// The process table: the top processes averaged over the range.
    TopProcesses(TimeRange),
    /// Every raw reading inside the range (the real-time range).
    Raw(TimeRange),
    /// Readings averaged over windows of `window_seconds`.
    Averaged { range: TimeRange, window_seconds: i64 },
}

/// The query that loads `range` for `table_name`.
pub open spec fn history_query_of(table_name: Seq<char>, range: TimeRange, tables: SensorTableNames) -> HistoryQuery {
    if table_name == tables.process@ {
        HistoryQuery::TopProcesses(range)
    } else if range == TimeRange::LastMinute {
        HistoryQuery::Raw(range)
    } else {
        HistoryQuery::Averaged { range, window_seconds: range_granularity(range) as i64 }
    }
}

/// Returns the query that loads `range` for the chart of `table_name`.
pub fn history_query(table_name: &str, range: TimeRange, tables: &SensorTableNames) -> (q: HistoryQuery)
    ensures
        q == history_query_of(table_name@, range, *tables),
        table_name@ == tables.process@ ==> q == HistoryQuery::TopProcesses(range),
        table_name@ != tables.process@ ==> ((q is Raw) <==> range == TimeRange::LastMinute),
        table_name@ != tables.process@ && range == TimeRange::LastMinute ==> q == HistoryQuery::Raw(range),
        table_name@ != tables.process@ && range != TimeRange::LastMinute ==> q == (HistoryQuery::Averaged {
            range,
            window_seconds: range_granularity(range) as i64,
        }),
{
    proof {
        lemma_history_query_by_range(table_name@, range, *tables);
    }
    if str_eq(table_name, tables.process.as_str()) {
        HistoryQuery::TopProcesses(range)
    } else if range.is_real_time() {
        HistoryQuery::Raw(range)
    } else {
        HistoryQuery::Averaged { range, window_seconds: range.granularity_seconds() }
    }
}

/// The process table always loads its top processes. Any other table loads raw
/// readings exactly for the last minute, and for every longer range readings
/// averaged over windows as long as the range's granularity (a minute for the
/// last hour, an hour for the last day and week, a day for the last month, a
/// week for the last year).
pub proof fn lemma_history_query_by_range(table_name: Seq<char>, range: TimeRange, tables: SensorTableNames)
    ensures
        table_name == tables.process@ ==> history_query_of(table_name, range, tables) == HistoryQuery::TopProcesses(range),
        table_name != tables.process@ ==> ((history_query_of(table_name, range, tables) is Raw) <==> range
            == TimeRange::LastMinute),
        table_name != tables.process@ && range == TimeRange::LastMinute ==> history_query_of(table_name, range, tables)
            == HistoryQuery::Raw(range),
        table_name != tables.process@ && range != TimeRange::LastMinute ==> history_query_of(table_name, range, tables)
            == (HistoryQuery::Averaged { range, window_seconds: range_granularity(range) as i64 }),
        table_name != tables.process@ && range == TimeRange::LastHour ==> history_query_of(table_name, range, tables)
            == (HistoryQuery::Averaged { range, window_seconds: 60 }),
        table_name != tables.process@ && range == TimeRange::Last24Hours ==> history_query_of(table_name, range, tables)
            == (HistoryQuery::Averaged { range, window_seconds: 3_600 }),
        table_name != tables.process@ && range == TimeRange::LastWeek ==> history_query_of(table_name, range, tables)
            == (HistoryQuery::Averaged { range, window_seconds: 3_600 }),
        table_name != tables.process@ && range == TimeRange::LastMonth ==> history_query_of(table_name, range, tables)
            == (HistoryQuery::Averaged { range, window_seconds: 86_400 }),
        table_name != tables.process@ && range == TimeRange::LastYear ==> history_query_of(table_name, range, tables)
            == (HistoryQuery::Averaged { range, window_seconds: 604_800 }),
{
}

/// The key under which a process's icon is kept: its executable's path when
/// known, else its application name.
pub fn process_identity(exe_path: &Option<String>, app_name: &str) -> (id: String)
    ensures
        id@ == (match exe_path {
            Some(p) => p@,
            None => app_name@,
        }),
{
    match exe_path {
        Some(p) => p.clone(),
        None => String::from_str(app_name),
    }
}

/// What a card does with a live reading while it shows the real-time range.
#[derive(Clone, Copy, Debug, PartialEq, Eq, Structural)]
pub struct LiveUpdate {
    /// Whether the reading is appended: only when it is newer than the newest
    /// one held.
    pub append: bool,
    /// Readings older than this timestamp (in seconds) are dropped.
    pub keep_from: i64,
}

/// What a card of kind `kind` does with a reading taken at `ts` (seconds),
/// given the timestamp of the newest reading it holds: nothing for the process
/// list or outside the real-time range; else append it when it is newer, and
/// keep only the readings of the last `range` before it.
pub open spec fn live_update_of(kind: SensorKind, range: TimeRange, latest_ts: Option<i64>, ts: i64) -> Option<LiveUpdate> {
    if kind == SensorKind::Processes || range != TimeRange::LastMinute {
        None
    } else {
        Some(LiveUpdate {
            append: match latest_ts {
                Some(latest) => ts > latest,
                None => true,
            },
            keep_from: (ts - range_seconds(range)) as i64,
        })
    }
}

/// Decides what a card does with a live reading taken at `ts`.
pub fn live_update(kind: SensorKind, range: TimeRange, latest_ts: Option<i64>, ts: i64) -> (u: Option<LiveUpdate>)
    requires
        ts - range_seconds(range) >= i64::MIN,
    ensures
        u == live_update_of(kind, range, latest_ts, ts),
{
    match kind {
        SensorKind::Processes => None,
        _ => {
            if !range.is_real_time() {
                None
            } else {
                let append = match latest_ts {
                    Some(latest) => ts > latest,
                    None => true,
                };
                Some(LiveUpdate { append, keep_from: ts - range.seconds() })
            }
        },
    }
}

} // verus!
