//! Period-over-period energy comparison: which time windows are compared,
//! how their bounds are computed, and which metric expression is summed.

use vstd::prelude::*;

use crate::calendar::{
    day_start, days_since_monday, month_start_of, unix_now, utc_date_text, utc_date_text_of,
    utc_day_start, utc_days_since_monday, utc_month_start, utc_year_month, utc_year_month_of,
};

verus! {

/// Supported comparison window sizes.
#[derive(Clone, Copy, PartialEq, Eq, Structural, Debug)]
pub enum CompareWindow {
    Day,
    Week,
    Month,
}

/// Time boundaries (Unix seconds) of the current period and of the previous
/// period it is compared with.
#[derive(Clone, Copy, PartialEq, Eq, Structural, Debug)]
pub struct PeriodBounds {
    pub current_start: i64,
    pub current_end: i64,
    pub previous_start: i64,
    pub previous_end: i64,
}

/// The bounds of a period pair as integers:
/// `(current_start, current_end, previous_start, previous_end)`.
pub open spec fn bounds_view(b: Option<PeriodBounds>) -> Option<(int, int, int, int)> {
    match b {
        None => None,
        Some(b) => Some(
            (
                b.current_start as int,
                b.current_end as int,
                b.previous_start as int,
                b.previous_end as int,
            ),
        ),
    }
}

/// The bounds for `window` at the instant `now`: the current period runs
/// from the start of the day, of the week (Monday) or of the month up to
/// `now`; the previous period starts one day, one week or one month earlier
/// and lasts as long, except that a previous month never runs past its own
/// last second. No bounds where `now` or a month start is outside chrono's
/// date range.
pub open spec fn periods_of(window: CompareWindow, now: i64) -> Option<(int, int, int, int)> {
    match utc_year_month_of(now) {
        None => None,
        Some(ym) => match window {
            CompareWindow::Day => {
                let cs = day_start(now as int);
                Some((cs, now as int, cs - 86400, cs - 86400 + (now - cs)))
            },
            CompareWindow::Week => {
                let cs = day_start(now as int) - days_since_monday(now as int) * 86400;
                Some((cs, now as int, cs - 7 * 86400, cs - 7 * 86400 + (now - cs)))
            },
            CompareWindow::Month => {
                let prev = if ym.1 == 1 {
                    month_start_of((ym.0 - 1) as i32, 12)
                } else {
                    month_start_of(ym.0, (ym.1 - 1) as u32)
                };
                match (month_start_of(ym.0, ym.1), prev) {
                    (Some(cs), Some(ps)) => {
                        let candidate = ps + (now - cs);
                        let prev_end = cs - 1;
                        Some(
                            (
                                cs as int,
                                now as int,
                                ps as int,
                                if candidate < prev_end {
                                    candidate
                                } else {
                                    prev_end
                                },
                            ),
                        )
                    },
                    _ => None,
                }
            },
        },
    }
}

/// The order of a period pair at `now`: the previous period starts before
/// the current one and ends before it starts; the current period runs from
/// its start to `now`; the previous period is no longer than the current one.
pub open spec fn bounds_ordered(b: PeriodBounds, now: i64) -> bool {
    &&& b.previous_start < b.current_start <= b.current_end
    &&& b.current_end == now
    &&& b.previous_start <= b.previous_end < b.current_start
    &&& b.previous_end - b.previous_start <= b.current_end - b.current_start
}

/// Day and week windows: the current period starts at most one day (one
/// week) before `now` and ends at `now`; the previous period starts exactly
/// one day (one week) before the current one and lasts exactly as long.
pub proof fn lemma_day_week_periods(window: CompareWindow, now: i64)
    requires
        window != CompareWindow::Month,
        periods_of(window, now) is Some,
    ensures
        ({
            let b = periods_of(window, now)->0;
            let span: int = if window == CompareWindow::Day {
                86400int
            } else {
                604800int
            };
            &&& b.1 == now
            &&& b.0 <= b.1 < b.0 + span
            &&& b.0 - b.2 == span
            &&& b.3 - b.2 == b.1 - b.0
        }),
{
}

/// Month window: the previous period ends no later than the last second
/// before the current month starts, and is never longer than the current
/// period, which ends at `now`.
pub proof fn lemma_month_periods(now: i64)
    requires
        periods_of(CompareWindow::Month, now) is Some,
    ensures
        ({
            let b = periods_of(CompareWindow::Month, now)->0;
            &&& b.1 == now
            &&& b.3 <= b.0 - 1
            &&& b.3 - b.2 <= b.1 - b.0
        }),
{
}

impl CompareWindow {
    /// Chart resolution used for this window.
    pub fn resolution(&self) -> (r: &'static str)
        ensures
            r@ == (match self {
                CompareWindow::Day => "5m"@,
                CompareWindow::Week => "1h"@,
                CompareWindow::Month => "daily"@,
            }),
    {
        match self {
            CompareWindow::Day => "5m",
            CompareWindow::Week => "1h",
            CompareWindow::Month => "daily",
        }
    }

    /// Period bounds for this window at the instant `now`.
    pub fn compute_periods_at(&self, now: i64) -> (r: Option<PeriodBounds>)
        ensures
            bounds_view(r) == periods_of(*self, now),
            r matches Some(b) ==> bounds_ordered(b, now),
            -8_000_000_000_000 <= now <= 8_000_000_000_000 ==> r is Some,
    {
        let ym = match utc_year_month(now) {
            None => return None,
            Some(ym) => ym,
        };
        match self {
            CompareWindow::Day => {
                let today_start = utc_day_start(now);
                let elapsed = now - today_start;
                let yesterday_start = today_start - 86400;
                Some(
                    PeriodBounds {
                        current_start: today_start,
                        current_end: now,
                        previous_start: yesterday_start,
                        previous_end: yesterday_start + elapsed,
                    },
                )
            },
            CompareWindow::Week => {
                let days = utc_days_since_monday(now);
                let current_start = utc_day_start(now) - days * 86400;
                let elapsed = now - current_start;
                let previous_start = current_start - 7 * 86400;
                Some(
                    PeriodBounds {
                        current_start,
                        current_end: now,
                        previous_start,
                        previous_end: previous_start + elapsed,
                    },
                )
            },
            CompareWindow::Month => {
                let (year, month) = ym;
                let current_start = match utc_month_start(year, month) {
                    None => return None,
                    Some(t) => t,
                };
                let prev = if month == 1 {
                    utc_month_start(year - 1, 12)
                } else {
                    utc_month_start(year, month - 1)
                };
                let previous_start = match prev {
                    None => return None,
                    Some(t) => t,
                };
                let elapsed = now - current_start;
                let prev_month_end = current_start - 1;
                let candidate = previous_start + elapsed;
                let previous_end = if candidate < prev_month_end {
                    candidate
                } else {
                    prev_month_end
                };
                Some(PeriodBounds { current_start, current_end: now, previous_start, previous_end })
            },
        }
    }

    /// Period bounds for this window now. No bounds only where the clock
    /// reads outside chrono's date range.
    pub fn compute_periods(&self) -> (r: Option<PeriodBounds>)
        ensures
            exists|now: i64|
                bounds_view(r) == #[trigger] periods_of(*self, now) && (-8_000_000_000_000 <= now
                    <= 8_000_000_000_000 ==> r is Some),
            r matches Some(b) ==> bounds_ordered(b, b.current_end),
    {
        let now = unix_now();
        self.compute_periods_at(now)
    }
}

/// Four energy metrics supported by the comparison chart.
#[derive(Clone, Copy, PartialEq, Eq, Structural, Debug)]
pub enum CompareMetric {
    Solar,
    Consumption,
    GridImport,
    GridExport,
}

impl CompareMetric {
    /// SQL expression that extracts this metric from an `energy_samples` row.
    pub fn sql_expression(&self) -> (r: &'static str)
        ensures
            r@ == (match self {
                CompareMetric::Solar => "CASE WHEN pv_power > 0 THEN pv_power ELSE 0 END"@,
                CompareMetric::Consumption => "CASE WHEN home_power > 0 THEN home_power ELSE 0 END"@,
                CompareMetric::GridImport => "CASE WHEN grid_power > 0 THEN grid_power ELSE 0 END"@,
                CompareMetric::GridExport => "CASE WHEN grid_power < 0 THEN ABS(grid_power) ELSE 0 END"@,
            }),
    {
        match self {
            CompareMetric::Solar => "CASE WHEN pv_power > 0 THEN pv_power ELSE 0 END",
            CompareMetric::Consumption => "CASE WHEN home_power > 0 THEN home_power ELSE 0 END",
            CompareMetric::GridImport => "CASE WHEN grid_power > 0 THEN grid_power ELSE 0 END",
            CompareMetric::GridExport => "CASE WHEN grid_power < 0 THEN ABS(grid_power) ELSE 0 END",
        }
    }
}

/// The `YYYY-MM-DD` date (UTC) of a timestamp, or empty when out of range.
pub fn ts_to_date(ts: i64) -> (r: String)
    ensures
        r@ == utc_date_text_of(ts),
{
    utc_date_text(ts)
}

impl PeriodBounds {
    /// Dates of the start and end of the current period, for the daily table.
    pub fn current_date_range(&self) -> (r: (String, String))
        ensures
            r.0@ == utc_date_text_of(self.current_start),
            r.1@ == utc_date_text_of(self.current_end),
    {
        (ts_to_date(self.current_start), ts_to_date(self.current_end))
    }

    /// Dates of the start and end of the previous period.
    pub fn previous_date_range(&self) -> (r: (String, String))
        ensures
            r.0@ == utc_date_text_of(self.previous_start),
            r.1@ == utc_date_text_of(self.previous_end),
    {
        (ts_to_date(self.previous_start), ts_to_date(self.previous_end))
    }
}

/// Query parameters of the summary endpoint.
pub struct CompareSummaryParams {
    pub window: CompareWindow,
}

/// Query parameters of the chart endpoint.
pub struct CompareChartParams {
    pub window: CompareWindow,
    pub metric: CompareMetric,
}

/// How the summary endpoint reads the two periods of a window.
pub enum SummaryPlan {
    /// A month is summed from the daily summaries between these dates
    /// (`YYYY-MM-DD`, inclusive): current period, then previous period.
    Daily { current: (String, String), previous: (String, String) },
    /// A day or a week is integrated from the samples between these instants:
    /// current period, then previous period.
    Samples { current: (i64, i64), previous: (i64, i64) },
}

/// `plan` reads the daily summaries between the dates of `b`.
pub open spec fn reads_daily(plan: SummaryPlan, b: PeriodBounds) -> bool {
    match plan {
        SummaryPlan::Daily { current, previous } => {
            &&& current.0@ == utc_date_text_of(b.current_start)
            &&& current.1@ == utc_date_text_of(b.current_end)
            &&& previous.0@ == utc_date_text_of(b.previous_start)
            &&& previous.1@ == utc_date_text_of(b.previous_end)
        },
        _ => false,
    }
}

/// `plan` reads the samples between the instants of `b`.
pub open spec fn reads_samples(plan: SummaryPlan, b: PeriodBounds) -> bool {
    match plan {
        SummaryPlan::Samples { current, previous } => {
            &&& current == (b.current_start, b.current_end)
            &&& previous == (b.previous_start, b.previous_end)
        },
        _ => false,
    }
}

impl CompareWindow {
    /// The way the summary endpoint reads `bounds`: months from the daily
    /// summary table, by date; days and weeks from the samples, by instant.
    pub fn summary_plan(&self, bounds: &PeriodBounds) -> (r: SummaryPlan)
        ensures
            *self == CompareWindow::Month ==> reads_daily(r, *bounds),
            *self != CompareWindow::Month ==> reads_samples(r, *bounds),
    {
        match self {
            CompareWindow::Month => SummaryPlan::Daily {
                current: bounds.current_date_range(),
                previous: bounds.previous_date_range(),
            },
            _ => SummaryPlan::Samples {
                current: (bounds.current_start, bounds.current_end),
                previous: (bounds.previous_start, bounds.previous_end),
            },
        }
    }
}

} // verus!
