//! Plain data of the time-series chart: how a series is drawn and where a
//! tooltip opens.

use vstd::prelude::*;
use crate::text::{decimal, push_decimal};

verus! {

/// Side of the hovered point on which a tooltip opens.
#[derive(Debug, Clone, Copy, PartialEq, Eq, Structural)]
pub enum TooltipSide {
    Left,
    Right,
}

/// How a series is drawn.
#[derive(Clone, Copy, Debug, PartialEq, Eq, Structural)]
pub enum LineType {
    Line,
    Dashed,
    Area,
    Dotted,
    Points,
    Step,
}

impl Default for LineType {
    fn default() -> (l: Self)
        ensures
            l == LineType::Line,
    {
        LineType::Line
    }
}

/// The points of a step line: each point is followed by a point at the next
/// point's time that keeps its value, so the line holds each value until the
/// next reading. Fewer than two points are drawn as they are.
pub open spec fn step_points_of<T, V>(pts: Seq<(T, V)>) -> Seq<(T, V)> {
    if pts.len() < 2 {
        pts
    } else {
        Seq::new((2 * pts.len() - 1) as nat, |k: int|
            if k % 2 == 0 { pts[k / 2] } else { (pts[k / 2 + 1].0, pts[k / 2].1) })
    }
}

/// Expands readings into the corners of a step line.
pub fn step_points<T: Copy, V: Copy>(pts: &Vec<(T, V)>) -> (r: Vec<(T, V)>)
    ensures
        r@ == step_points_of(pts@),
{
    let n = pts.len();
    if n < 2 {
        let mut r: Vec<(T, V)> = Vec::new();
        let mut i: usize = 0;
        while i < n
            invariant
                n == pts@.len(),
                i <= n,
                r@ == pts@.take(i as int),
            decreases n - i,
        {
            r.push(pts[i]);
            assert(r@ =~= pts@.take(i + 1));
            i = i + 1;
        }
        assert(pts@.take(n as int) =~= pts@);
        return r;
    }
    let mut r: Vec<(T, V)> = Vec::new();
    let mut i: usize = 0;
    while i < n
        invariant
            n == pts@.len(),
            n >= 2,
            i <= n,
            r@.len() == if i == 0 { 0 } else { 2 * i - 1 },
            forall|k: int| 0 <= k < r@.len() ==>
                #[trigger] r@[k] == (if k % 2 == 0 { pts@[k / 2] } else { (pts@[k / 2 + 1].0, pts@[k / 2].1) }),
        decreases n - i,
    {
        if i > 0 {
            let prev_value = pts[i - 1].1;
            let time = pts[i].0;
            r.push((time, prev_value));
        }
        r.push(pts[i]);
        i = i + 1;
    }
    assert(r@ =~= step_points_of(pts@));
    r
}

/// How the time axis labels its ticks, by the width of the shown window.
#[derive(Clone, Copy, Debug, PartialEq, Eq, Structural)]
pub enum XLabelStyle {
    /// Up to two minutes: seconds before the newest reading, every ten seconds.
    SecondsAgo,
    /// Up to a day: the clock time, hours and minutes.
    ClockTime,
    /// Longer windows: the date, at midnight ticks only.
    DateAtMidnight,
}

/// The label style of a window of `total_secs` seconds.
pub open spec fn x_label_style_of(total_secs: i64) -> XLabelStyle {
    if 0 <= total_secs <= 120 {
        XLabelStyle::SecondsAgo
    } else if 121 <= total_secs <= 86_400 {
        XLabelStyle::ClockTime
    } else {
        XLabelStyle::DateAtMidnight
    }
}

pub fn x_label_style(total_secs: i64) -> (s: XLabelStyle)
    ensures
        s == x_label_style_of(total_secs),
{
    if 0 <= total_secs && total_secs <= 120 {
        XLabelStyle::SecondsAgo
    } else if 121 <= total_secs && total_secs <= 86_400 {
        XLabelStyle::ClockTime
    } else {
        XLabelStyle::DateAtMidnight
    }
}

/// The seconds between a tick and the newest reading, never negative.
pub open spec fn seconds_ago_of(newest_ts: i64, x_ts: i64) -> int {
    if newest_ts - x_ts > 0 { newest_ts - x_ts } else { 0 }
}

/// The label of a tick `x_ts` when the window is short: "{n}s" on multiples
/// of ten seconds before the newest reading, nothing otherwise.
pub open spec fn seconds_ago_label_text(newest_ts: i64, x_ts: i64) -> Seq<char> {
    let ago = seconds_ago_of(newest_ts, x_ts);
    if ago % 10 == 0 { decimal(ago as nat) + "s"@ } else { Seq::empty() }
}

/// A tick that lies a whole number of ten-second steps before the newest
/// reading is labelled with that many seconds and "s"; any other tick before
/// it gets no label; a tick at or after the newest reading reads "0s".
pub proof fn lemma_seconds_ago_labels(newest_ts: i64, x_ts: i64)
    ensures
        newest_ts - x_ts >= 0 && (newest_ts - x_ts) % 10 == 0 ==> seconds_ago_label_text(newest_ts, x_ts)
            == decimal((newest_ts - x_ts) as nat) + "s"@,
        newest_ts - x_ts > 0 && (newest_ts - x_ts) % 10 != 0 ==> seconds_ago_label_text(newest_ts, x_ts).len() == 0,
        newest_ts - x_ts <= 0 ==> seconds_ago_label_text(newest_ts, x_ts) == seq!['0', 's'],
{
    reveal_strlit("s");
    assert(decimal(0) == seq!['0']);
    assert(seq!['0'] + "s"@ =~= seq!['0', 's']);
}

pub fn seconds_ago_label(newest_ts: i64, x_ts: i64) -> (s: String)
    requires
        i64::MIN <= newest_ts - x_ts <= i64::MAX,
    ensures
        s@ == seconds_ago_label_text(newest_ts, x_ts),
        newest_ts - x_ts >= 0 && (newest_ts - x_ts) % 10 == 0 ==> s@ == decimal((newest_ts - x_ts) as nat) + "s"@,
        newest_ts - x_ts > 0 && (newest_ts - x_ts) % 10 != 0 ==> s@.len() == 0,
        newest_ts - x_ts <= 0 ==> s@ == seq!['0', 's'],
{
    proof {
        lemma_seconds_ago_labels(newest_ts, x_ts);
    }
    let diff = newest_ts - x_ts;
    let ago: i64 = if diff > 0 { diff } else { 0 };
    if ago % 10 == 0 {
        let mut s = String::new();
        push_decimal(&mut s, ago as u64);
        s.append("s");
        assert(s@ =~= seconds_ago_label_text(newest_ts, x_ts));
        s
    } else {
        String::new()
    }
}

/// The `chrono` format of a tooltip's time: the date too when the chart spans
/// more than a day, the clock time to the second otherwise.
pub open spec fn tooltip_time_format_text(x_range_secs: i64) -> Seq<char> {
    if x_range_secs > 86_400 { "%Y-%m-%d %H:%M"@ } else { "%H:%M:%S"@ }
}

pub fn tooltip_time_format(x_range_secs: i64) -> (f: &'static str)
    ensures
        f@ == tooltip_time_format_text(x_range_secs),
{
    if x_range_secs > 86_400 {
        "%Y-%m-%d %H:%M"
    } else {
        "%H:%M:%S"
    }
}

/// How many colours the chart cycles through.
pub open spec fn series_color_count() -> nat {
    4
}

/// The colour slot of a series: its own colour index when it has one, else
/// its position among the series, wrapped around the palette.
pub open spec fn series_color_slot_of(color_index: Option<usize>, position: usize) -> nat {
    match color_index {
        Some(i) => (i as nat) % series_color_count(),
        None => (position as nat) % series_color_count(),
    }
}

pub fn series_color_slot(color_index: Option<usize>, position: usize) -> (slot: usize)
    ensures
        slot == series_color_slot_of(color_index, position),
        slot < series_color_count(),
{
    match color_index {
        Some(i) => i % 4,
        None => position % 4,
    }
}

/// Width in pixels of the value axis: 50, plus 8 per character beyond four in
/// the longest label.
pub open spec fn y_label_area_px_of(longest_label_chars: nat) -> nat {
    if longest_label_chars <= 4 { 50 } else { (50 + (longest_label_chars - 4) * 8) as nat }
}

pub fn y_label_area_px(longest_label_chars: usize) -> (px: usize)
    requires
        y_label_area_px_of(longest_label_chars as nat) <= usize::MAX,
    ensures
        px == y_label_area_px_of(longest_label_chars as nat),
{
    if longest_label_chars <= 4 {
        50
    } else {
        50 + (longest_label_chars - 4) * 8
    }
}

} // verus!
