//! Time ranges, languages and chart metrics offered by the interface.

use vstd::prelude::*;
use crate::clock::{time_delta_of_seconds, time_delta_seconds};
use crate::text::str_eq;

verus! {

/// Selectable time window for chart data display.
#[derive(Clone, Copy, PartialEq, Eq, Structural, Debug)]
pub enum TimeRange {
    LastMinute,
    LastHour,
    Last24Hours,
    LastWeek,
    LastMonth,
    LastYear,
}

impl Default for TimeRange {
    fn default() -> (r: Self)
        ensures
            r == TimeRange::LastMinute,
    {
        TimeRange::LastMinute
    }
}

/// Total duration in seconds of a time range.
pub open spec fn range_seconds(r: TimeRange) -> int {
    match r {
        TimeRange::LastMinute => 60,
        TimeRange::LastHour => 3_600,
        TimeRange::Last24Hours => 86_400,
        TimeRange::LastWeek => 604_800,
        TimeRange::LastMonth => 2_592_000,
        TimeRange::LastYear => 31_536_000,
    }
}

/// Axis label unit of a time range.
pub open spec fn range_unit(r: TimeRange) -> Seq<char> {
    match r {
        TimeRange::LastMinute => "s"@,
        TimeRange::LastHour => "min"@,
        TimeRange::Last24Hours => "h"@,
        TimeRange::LastWeek => "h"@,
        TimeRange::LastMonth => "d"@,
        TimeRange::LastYear => "d"@,
    }
}

/// Data aggregation window in seconds of a time range.
pub open spec fn range_granularity(r: TimeRange) -> int {
    match r {
        TimeRange::LastMinute => 1,
        TimeRange::LastHour => 60,
        TimeRange::Last24Hours => 3_600,
        TimeRange::LastWeek => 3_600,
        TimeRange::LastMonth => 86_400,
        TimeRange::LastYear => 604_800,
    }
}

/// A range shows energy (Wh) rather than average power (W) when its
/// aggregation window is at least one hour.
pub open spec fn range_is_energy_mode(r: TimeRange) -> bool {
    range_granularity(r) >= 3600
}

/// English display name of a time range.
pub open spec fn range_display_name(r: TimeRange) -> Seq<char> {
    match r {
        TimeRange::LastMinute => "Last Minute"@,
        TimeRange::LastHour => "Last Hour"@,
        TimeRange::Last24Hours => "Last 24 Hours"@,
        TimeRange::LastWeek => "Last Week"@,
        TimeRange::LastMonth => "Last Month"@,
        TimeRange::LastYear => "Last Year"@,
    }
}

/// The ranges offered for total power charts, shortest first.
pub open spec fn total_ranges() -> Seq<TimeRange> {
    seq![
        TimeRange::LastMinute,
        TimeRange::LastHour,
        TimeRange::Last24Hours,
        TimeRange::LastWeek,
        TimeRange::LastMonth,
        TimeRange::LastYear,
    ]
}

/// The ranges offered for per-component charts, shortest first.
pub open spec fn component_ranges() -> Seq<TimeRange> {
    seq![TimeRange::LastMinute, TimeRange::LastHour, TimeRange::Last24Hours]
}

impl TimeRange {
    /// Returns the total duration in seconds.
    pub fn seconds(&self) -> (s: i64)
        ensures
            s == range_seconds(*self),
    {
        match self {
            TimeRange::LastMinute => 60,
            TimeRange::LastHour => 3_600,
            TimeRange::Last24Hours => 86_400,
            TimeRange::LastWeek => 604_800,
            TimeRange::LastMonth => 2_592_000,
            TimeRange::LastYear => 31_536_000,
        }
    }

    /// Returns the axis label unit for this range.
    pub fn unit(&self) -> (u: &'static str)
        ensures
            u@ == range_unit(*self),
    {
        match self {
            TimeRange::LastMinute => "s",
            TimeRange::LastHour => "min",
            TimeRange::Last24Hours => "h",
            TimeRange::LastWeek => "h",
            TimeRange::LastMonth => "d",
            TimeRange::LastYear => "d",
        }
    }

    /// Returns the data aggregation window in seconds.
    pub fn granularity_seconds(&self) -> (g: i64)
        ensures
            g == range_granularity(*self),
    {
        match self {
            TimeRange::LastMinute => 1,
            TimeRange::LastHour => 60,
            TimeRange::Last24Hours => 3_600,
            TimeRange::LastWeek => 3_600,
            TimeRange::LastMonth => 86_400,
            TimeRange::LastYear => 604_800,
        }
    }

    /// Returns true for the real-time (1 Hz) range.
    pub fn is_real_time(&self) -> (b: bool)
        ensures
            b == (*self == TimeRange::LastMinute),
    {
        match self {
            TimeRange::LastMinute => true,
            _ => false,
        }
    }

    /// Returns true when the granularity is at least one hour, meaning that
    /// energy (Wh) is displayed instead of average power (W).
    pub fn is_energy_mode(&self) -> (b: bool)
        ensures
            b == range_is_energy_mode(*self),
    {
        self.granularity_seconds() >= 3600
    }

    /// Returns the power/energy unit string for the current mode.
    pub fn power_unit(&self) -> (u: &'static str)
        ensures
            u@ == (if range_is_energy_mode(*self) { "Wh"@ } else { "W"@ }),
    {
        if self.is_energy_mode() {
            "Wh"
        } else {
            "W"
        }
    }

    /// Converts to a `chrono` duration of `seconds()` seconds.
    pub fn duration_seconds(&self) -> (d: chrono::TimeDelta)
        ensures
            d == time_delta_of_seconds(range_seconds(*self) as i64),
    {
        time_delta_seconds(self.seconds())
    }

    /// Returns all available ranges for total power charts.
    pub fn all_total() -> (v: &'static [TimeRange])
        ensures
            v@ == total_ranges(),
    {
        let v: &'static [TimeRange] = &[
            TimeRange::LastMinute,
            TimeRange::LastHour,
            TimeRange::Last24Hours,
            TimeRange::LastWeek,
            TimeRange::LastMonth,
            TimeRange::LastYear,
        ];
        assert(v@ =~= total_ranges());
        v
    }

    /// Returns available ranges for per-component charts.
    pub fn all_component() -> (v: &'static [TimeRange])
        ensures
            v@ == component_ranges(),
    {
        let v: &'static [TimeRange] = &[TimeRange::LastMinute, TimeRange::LastHour, TimeRange::Last24Hours];
        assert(v@ =~= component_ranges());
        v
    }

    /// The English name of the range, as its `Display` form reads.
    pub fn to_string(&self) -> (s: String)
        ensures
            s@ == range_display_name(*self),
    {
        let name = match self {
            TimeRange::LastMinute => "Last Minute",
            TimeRange::LastHour => "Last Hour",
            TimeRange::Last24Hours => "Last 24 Hours",
            TimeRange::LastWeek => "Last Week",
            TimeRange::LastMonth => "Last Month",
            TimeRange::LastYear => "Last Year",
        };
        String::from_str(name)
    }
}

/// Supported UI languages.
#[derive(Clone, Copy, PartialEq, Eq, Structural, Debug)]
pub enum AppLanguage {
    English,
    French,
}

impl Default for AppLanguage {
    fn default() -> (l: Self)
        ensures
            l == AppLanguage::English,
    {
        AppLanguage::English
    }
}

/// ISO code of a language.
pub open spec fn language_code(l: AppLanguage) -> Seq<char> {
    match l {
        AppLanguage::English => "EN"@,
        AppLanguage::French => "FR"@,
    }
}

/// The language that a code names: `FR` gives French, any other code English.
pub open spec fn language_from_code(code: Seq<char>) -> AppLanguage {
    if code == "FR"@ { AppLanguage::French } else { AppLanguage::English }
}

impl AppLanguage {
    /// Returns all available languages.
    pub fn all() -> (v: &'static [AppLanguage])
        ensures
            v@ == seq![AppLanguage::English, AppLanguage::French],
    {
        let v: &'static [AppLanguage] = &[AppLanguage::English, AppLanguage::French];
        assert(v@ =~= seq![AppLanguage::English, AppLanguage::French]);
        v
    }

    /// Returns the ISO language code.
    pub fn code(self) -> (c: &'static str)
        ensures
            c@ == language_code(self),
    {
        match self {
            AppLanguage::English => "EN",
            AppLanguage::French => "FR",
        }
    }

    /// Parses a language from its ISO code; unknown codes give English.
    pub fn from_code(code: &str) -> (l: Self)
        ensures
            l == language_from_code(code@),
    {
        proof {
            reveal_strlit("EN");
            reveal_strlit("FR");
            assert("EN"@[0] != "FR"@[0]);
        }
        if str_eq(code, "EN") {
            AppLanguage::English
        } else if str_eq(code, "FR") {
            AppLanguage::French
        } else {
            AppLanguage::English
        }
    }

    /// The language's own name, as its `Display` form reads.
    pub fn to_string(&self) -> (s: String)
        ensures
            s@ == (match *self {
                AppLanguage::English => "English"@,
                AppLanguage::French => "Français"@,
            }),
    {
        match self {
            AppLanguage::English => String::from_str("English"),
            AppLanguage::French => String::from_str("Français"),
        }
    }
}

/// Reading back a language's code gives the language: `from_code(code(l)) == l`.
pub proof fn lemma_language_code_round_trip(l: AppLanguage)
    ensures
        language_from_code(language_code(l)) == l,
{
    reveal_strlit("EN");
    reveal_strlit("FR");
    assert("EN"@[0] != "FR"@[0]);
}

/// Each range's aggregation window fits in the range, a range shows energy
/// exactly when its window is at least an hour, and the total-chart ranges
/// run from shortest to longest with the component ranges as their start.
pub proof fn lemma_range_ordering(i: int, j: int)
    requires
        0 <= i < j < total_ranges().len(),
    ensures
        range_seconds(total_ranges()[i]) < range_seconds(total_ranges()[j]),
        range_granularity(total_ranges()[i]) <= range_granularity(total_ranges()[j]),
        0 < range_granularity(total_ranges()[i]) <= range_seconds(total_ranges()[i]),
        range_is_energy_mode(total_ranges()[i]) ==> range_is_energy_mode(total_ranges()[j]),
        component_ranges() == total_ranges().take(3),
{
    assert(component_ranges() =~= total_ranges().take(3));
}

/// What a chart plots for a sensor: its power, or one of its secondary readings.
#[derive(Clone, Copy, PartialEq, Eq, Structural, Debug)]
pub enum MetricType {
    Power,
    Usage,
    Speed,
}

impl Default for MetricType {
    fn default() -> (m: Self)
        ensures
            m == MetricType::Power,
    {
        MetricType::Power
    }
}

} // verus!
