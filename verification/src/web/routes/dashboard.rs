//! Dashboard pages: the history page model and the staleness of live data.

use vstd::prelude::*;

verus! {

/// History page model: today's date and the earliest date with data.
pub struct HistoryTemplate {
    pub base_path: String,
    pub today: String,
    pub min_date: String,
}

/// Live data is stale when nothing arrived yet or the last update is more
/// than 30 seconds old.
pub fn is_stale(last_updated: Option<i64>, now: i64) -> (r: bool)
    ensures
        r == match last_updated {
            None => true,
            Some(ts) => now - ts > 30,
        },
{
    match last_updated {
        None => true,
        Some(ts) => (now as i128) - (ts as i128) > 30,
    }
}

} // verus!
