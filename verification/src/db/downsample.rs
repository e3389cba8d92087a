//! Retention of the sample store: raw samples are folded into one-minute
//! averages, one-minute averages into hourly ones, and each tier is pruned
//! after its configured number of days.

use vstd::prelude::*;

use crate::calendar::{utc_date_text, utc_date_text_of};
use crate::config::RetentionConfig;

verus! {

/// The three cut-off timestamps at `now`: raw samples older than the first
/// are aggregated to minutes and deleted, minute samples older than the
/// second are aggregated to hours and deleted, hourly samples older than the
/// third are deleted.
pub fn retention_cutoffs(now: i64, retention: &RetentionConfig) -> (r: (i64, i64, i64))
    requires
        now >= i64::MIN + 0xffff_ffff * 86400,
    ensures
        r.0 == now - retention.raw_days * 86400,
        r.1 == now - retention.minute_days * 86400,
        r.2 == now - retention.hourly_days * 86400,
        retention.raw_days <= retention.minute_days <= retention.hourly_days ==> r.2 <= r.1 <= r.0,
{
    let raw_cutoff = now - (retention.raw_days as i64) * 86400;
    let minute_cutoff = now - (retention.minute_days as i64) * 86400;
    let hourly_cutoff = now - (retention.hourly_days as i64) * 86400;
    (raw_cutoff, minute_cutoff, hourly_cutoff)
}

/// The dates (`%Y-%m-%d`, UTC) whose daily summaries are recomputed at
/// `now`: yesterday's, which is complete, and today's running one.
pub fn daily_summary_dates(now: i64) -> (r: (String, String))
    requires
        now >= i64::MIN + 86400,
    ensures
        r.0@ == utc_date_text_of((now - 86400) as i64),
        r.1@ == utc_date_text_of(now),
{
    (utc_date_text(now - 86400), utc_date_text(now))
}

} // verus!
