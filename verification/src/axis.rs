//! The mathematical model of one axis of the grid in one frame: which data
//! index each visible position shows, which positions are filtered out, and
//! how much room each position takes.

use vstd::prelude::*;
use crate::ordering::spec_map_index;
use crate::sizing::spec_size_at;

verus! {

/// Whether a filter names a data index. An absent filter names none.
pub open spec fn spec_is_filtered(filter: Option<Seq<usize>>, data_index: int) -> bool {
    match filter {
        Some(f) => exists|k: int| 0 <= k < f.len() && (#[trigger] f[k]) == data_index,
        None => false,
    }
}

/// The contents of an optional filter.
pub open spec fn filter_view(filter: Option<&[usize]>) -> Option<Seq<usize>> {
    match filter {
        Some(f) => Some(f@),
        None => None,
    }
}

/// Whether `filter` names `data_index`.
pub fn is_filtered(filter: Option<&[usize]>, data_index: usize) -> (r: bool)
    ensures
        r == spec_is_filtered(filter_view(filter), data_index as int),
{
    match filter {
        Some(f) => {
            let mut k: usize = 0;
            while k < f.len()
                invariant
                    k <= f.len(),
                    filter == Some(f),
                    forall|j: int| 0 <= j < k ==> f@[j] != data_index,
                decreases f.len() - k,
            {
                if f[k] == data_index {
                    assert(spec_is_filtered(Some(f@), data_index as int)) by {
                        assert(f@[k as int] == data_index);
                    }
                    return true;
                }
                k += 1;
            }
            false
        },
        None => false,
    }
}

/// The width of the line that parts a cell from the next.
pub const LINE_WIDTH: u16 = 1;

/// A bound on the room that one position takes: a size and a spacing, each a
/// `u32`, stay below it.
pub const STEP_LIMIT: i128 = 0x2_0000_0000;

/// One axis in one frame.
pub struct AxisModel {
    /// The number of data indices that the ordering may refer to.
    pub count: int,
    /// The sizes kept by data index.
    pub sizes: Seq<u32>,
    /// The data index of each visible position; where it has no entry, or a
    /// stale one, the position shows the data index of its own number.
    pub ordering: Seq<usize>,
    /// The data indices that are not shown.
    pub filter: Option<Seq<usize>>,
    /// What each shown position takes beyond its size.
    pub spacing: int,
    /// The size of a data index for which none is kept.
    pub fallback: u32,
}

impl AxisModel {
    /// The data index shown at a visible position.
    pub open spec fn data_index(self, position: int) -> int {
        spec_map_index(self.count, self.ordering, position)
    }

    /// Whether the position is filtered out.
    pub open spec fn hidden(self, position: int) -> bool {
        spec_is_filtered(self.filter, self.data_index(position))
    }

    /// The size of the position's data index.
    pub open spec fn size(self, position: int) -> int {
        spec_size_at(self.sizes, self.data_index(position), self.fallback) as int
    }

    /// The room that the position takes: nothing if it is filtered out, else
    /// its size and the spacing.
    pub open spec fn step(self, position: int) -> int {
        if self.hidden(position) {
            0
        } else {
            self.size(position) + self.spacing
        }
    }

    /// The room that the positions `from..to` take together.
    pub open spec fn extent_between(self, from: int, to: int) -> int
        decreases to - from,
    {
        if to <= from {
            0
        } else {
            self.extent_between(from, to - 1) + self.step(to - 1)
        }
    }

    /// The number of positions in `from..to` that are filtered out.
    pub open spec fn hidden_between(self, from: int, to: int) -> int
        decreases to - from,
    {
        if to <= from {
            0
        } else {
            self.hidden_between(from, to - 1) + if self.hidden(to - 1) {
                1int
            } else {
                0int
            }
        }
    }

    /// Where the position begins, measured from the start of the axis.
    pub open spec fn start_of(self, position: int) -> int {
        self.extent_between(0, position)
    }

    /// No position takes negative room, and none takes `STEP_LIMIT` or more, as
    /// long as the spacing is that of a `u32`.
    pub proof fn lemma_extent_bounds(self, from: int, to: int)
        requires
            0 <= self.spacing <= u32::MAX,
            from <= to,
        ensures
            0 <= self.extent_between(from, to) <= (to - from) * STEP_LIMIT,
            0 <= self.hidden_between(from, to) <= to - from,
        decreases to - from,
    {
        if from < to {
            self.lemma_extent_bounds(from, to - 1);
        }
    }

    /// Extents add up over adjacent ranges.
    pub proof fn lemma_extent_split(self, from: int, mid: int, to: int)
        requires
            from <= mid <= to,
        ensures
            self.extent_between(from, to) == self.extent_between(from, mid) + self.extent_between(
                mid,
                to,
            ),
            self.hidden_between(from, to) == self.hidden_between(from, mid) + self.hidden_between(
                mid,
                to,
            ),
        decreases to - mid,
    {
        if mid < to {
            self.lemma_extent_split(from, mid, to - 1);
        }
    }
}

} // verus!
