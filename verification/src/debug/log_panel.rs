//! Log panel: the most recent lines of the log ring.
use vstd::prelude::*;

verus! {

/// The last `max_lines` of `all`, oldest first (what is visible scrolled
/// to the bottom of the panel).
pub fn recent_lines(all: &[String], max_lines: usize) -> (out: Vec<String>)
    ensures
        out@.map_values(|s: String| s@) == all@.subrange(
            if all@.len() > max_lines {
                all@.len() - max_lines
            } else {
                0
            },
            all@.len() as int,
        ).map_values(|s: String| s@),
        out@.len() <= max_lines,
{
    let start = all.len().saturating_sub(max_lines);
    let mut out: Vec<String> = Vec::new();
    let mut i = start;
    while i < all.len()
        invariant
            start <= i <= all@.len(),
            start == if all@.len() > max_lines {
                all@.len() - max_lines
            } else {
                0
            },
            out@.len() == i - start,
            forall|k: int| 0 <= k < out@.len() ==> #[trigger] out@[k]@ == all@[start + k]@,
        decreases all@.len() - i,
    {
        let line = all[i].clone();
        out.push(line);
        i = i + 1;
    }
    proof {
        assert(out@.map_values(|s: String| s@) =~= all@.subrange(start as int, all@.len() as int).map_values(
            |s: String| s@,
        ));
    }
    out
}

/// The log panel.
pub struct LogPanelWidget;

} // verus!
