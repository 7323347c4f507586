//! Long lists that only build the rows on screen.
use std::ops::Range;
use vstd::prelude::*;

verus! {

/// Extra rows built above and below the viewport so fast scrolling never shows a gap.
pub const OVERSCAN: usize = 2;

/// The rows of a `count`-row list to build when rows `first..last` intersect the viewport:
/// those plus [`OVERSCAN`] more on each side, cut to the list.
pub fn overscan_rows(first: usize, last: usize, count: usize) -> (rows: Range<usize>)
    requires
        last + OVERSCAN <= usize::MAX,
    ensures
        rows.start == if first >= OVERSCAN { first - OVERSCAN } else { 0int },
        rows.end == if last + OVERSCAN < count { last + OVERSCAN } else { count as int },
        rows.start <= first,
        rows.end <= count,
        last <= count ==> last <= rows.end,
        first <= last ==> rows.end - rows.start <= (last - first) + 2 * OVERSCAN,
{
    let start = first.saturating_sub(OVERSCAN);
    let after = last + OVERSCAN;
    let end = if after < count { after } else { count };
    start..end
}

} // verus!
