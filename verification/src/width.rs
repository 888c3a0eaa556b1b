//! Adaptive column-width state for aligning rendered target labels.
use vstd::prelude::*;

verus! {

/// Alignment state shared across all records of one formatter: the column
/// width currently used to pad the rendered target label, and how many
/// records have been formatted since that width last grew.
pub struct WidthState {
    /// Current column width used to right-pad the rendered label.
    pub max_width: usize,
    /// Records formatted since `max_width` last grew.
    pub since_increase: usize,
}

/// The counter increment saturates instead of wrapping, so the heuristic
/// stays total; the shrink test only ever asks whether the counter passed 5.
pub open spec fn spec_bump(c: usize) -> usize {
    if c == usize::MAX {
        c
    } else {
        (c + 1) as usize
    }
}

/// One step of the width heuristic, as seen by one formatted record whose
/// label has byte length `len`:
/// first the stability counter is bumped; then a label at least as wide as
/// the column grows the column to `len` and resets the counter; otherwise,
/// once more than five records have passed without a growth event, the
/// column is forced down to `len` (the counter is deliberately left alone
/// in that branch); otherwise nothing but the counter changes.
pub open spec fn spec_update(s: WidthState, len: usize) -> WidthState {
    let c = spec_bump(s.since_increase);
    if len >= s.max_width {
        WidthState { max_width: len, since_increase: 0 }
    } else if c > 5 {
        WidthState { max_width: len, since_increase: c }
    } else {
        WidthState { max_width: s.max_width, since_increase: c }
    }
}

/// After a record is processed, the column is always at least as wide as
/// the label that was just rendered, whichever branch of the heuristic ran.
pub proof fn lemma_width_covers_last_label(s: WidthState, len: usize)
    ensures
        spec_update(s, len).max_width >= len,
{
}

impl WidthState {
    /// Feed one label length through the heuristic and return the column
    /// width to pad that label to.
    pub fn update(&mut self, len: usize) -> (w: usize)
        ensures
            *final(self) == spec_update(*old(self), len),
            w == final(self).max_width,
    {
        let c: usize = if self.since_increase == usize::MAX {
            usize::MAX
        } else {
            self.since_increase + 1
        };
        self.since_increase = c;
        if len >= self.max_width {
            self.max_width = len;
            self.since_increase = 0;
        } else if c > 5 {
            self.max_width = len;
        }
        self.max_width
    }
}

} // verus!
