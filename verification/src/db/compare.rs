//! Day-over-day changes of the energy metrics, as the overview cards use
//! them.

use vstd::prelude::*;

use crate::text::chars_of;

verus! {

/// The change of one metric against yesterday, in percent (held in `N`).
pub struct DeltaValue<N> {
    /// Metric id (`solar`, `consumption`, `grid_import`, `grid_export`,
    /// `ev_charging`).
    pub metric: String,
    pub delta_pct: N,
}

/// The change of the first entry of `deltas` with this metric, if any.
pub open spec fn first_delta_of<N>(deltas: Seq<DeltaValue<N>>, metric: Seq<char>) -> Option<N>
    decreases deltas.len(),
{
    if deltas.len() == 0 {
        None
    } else if deltas[0].metric@ == metric {
        Some(deltas[0].delta_pct)
    } else {
        first_delta_of(deltas.drop_first(), metric)
    }
}

/// The change of the first entry of `deltas` whose metric is `metric`.
pub fn find_delta<N: Copy>(deltas: &[DeltaValue<N>], metric: &str) -> (r: Option<N>)
    ensures
        r == first_delta_of(deltas@, metric@),
{
    let m = chars_of(metric);
    let mut i: usize = 0;
    assert(deltas@.skip(0) =~= deltas@);
    while i < deltas.len()
        invariant
            m@ == metric@,
            i <= deltas@.len(),
            first_delta_of(deltas@, metric@) == first_delta_of(deltas@.skip(i as int), metric@),
        decreases deltas.len() - i,
    {
        assert(deltas@.skip(i as int)[0] == deltas@[i as int]);
        if crate::text::chars_equal_str(m.as_slice(), deltas[i].metric.as_str()) {
            return Some(deltas[i].delta_pct);
        }
        assert(deltas@.skip(i as int).drop_first() =~= deltas@.skip(i + 1));
        i = i + 1;
    }
    None
}

} // verus!
