//! The viewport windower: which visible position of an axis lies under a
//! scroll offset.

use vstd::prelude::*;
use crate::axis::{filter_view, is_filtered, spec_is_filtered, AxisModel, STEP_LIMIT};
use crate::ordering::map_index;

verus! {

/// The position of an axis that lies under an offset.
#[derive(Debug, Clone, Copy, PartialEq, Eq, Structural)]
pub struct ViewportWindow {
    /// The visible position under the offset. Where the offset lies beyond the
    /// last position, or before the first, this is the end of the axis.
    pub position: usize,
    /// The data index shown at that position.
    pub data_index: usize,
    /// Where the position begins, measured from the start of the axis.
    pub start: i128,
    /// Where the position ends. At the end of the axis this equals `start`.
    pub end: i128,
    /// How many positions before this one are filtered out.
    pub filtered: usize,
}

/// The axis has no sizes, so no position can be under any offset.
#[derive(Debug, Clone, Copy, PartialEq, Eq, Structural)]
pub struct EmptyAxis {}

/// The axis that the windower walks: the ordering may refer to every data
/// index that has a size.
pub open spec fn window_axis(
    sizes: Seq<u32>,
    ordering: Seq<usize>,
    filter: Option<Seq<usize>>,
    spacing: int,
) -> AxisModel {
    AxisModel { count: sizes.len() as int, sizes, ordering, filter, spacing, fallback: 0 }
}

impl AxisModel {
    /// Whether the position shows a data index that has a size. The axis ends
    /// at the first position that does not.
    pub open spec fn in_range(self, position: int) -> bool {
        0 <= self.data_index(position) < self.sizes.len()
    }

    /// Whether the position is shown and the offset lies within it.
    pub open spec fn claims(self, position: int, offset: int) -> bool {
        &&& !self.hidden(position)
        &&& self.start_of(position) <= offset < self.start_of(position) + self.step(position)
    }

    /// Whether a walk that looks for the offset goes on beyond the position:
    /// the position is not the end of the axis, and the offset is not in it.
    pub open spec fn passes(self, position: int, offset: int) -> bool {
        self.in_range(position) && !self.claims(position, offset)
    }

    /// `w` is the window of `offset`: its position is the first that claims the
    /// offset, or the end of the axis if none does.
    pub open spec fn is_window(self, w: ViewportWindow, offset: int) -> bool {
        &&& forall|q: int| 0 <= q < w.position ==> self.passes(q, offset)
        &&& self.in_range(w.position as int) ==> self.claims(w.position as int, offset)
        &&& w.data_index == self.data_index(w.position as int)
        &&& w.start == self.start_of(w.position as int)
        &&& w.end == w.start + (if self.in_range(w.position as int) {
            self.step(w.position as int)
        } else {
            0
        })
        &&& w.filtered == self.hidden_between(0, w.position as int)
    }

    /// Where nothing before `position` claims an offset that is not negative,
    /// the offset lies at or after the start of `position`.
    pub proof fn lemma_unclaimed_prefix(self, position: int, offset: int)
        requires
            0 <= self.spacing,
            0 <= offset,
            0 <= position,
            forall|q: int| 0 <= q < position ==> !#[trigger] self.claims(q, offset),
        ensures
            self.start_of(position) <= offset,
        decreases position,
    {
        if position > 0 {
            self.lemma_unclaimed_prefix(position - 1, offset);
            assert(!self.claims(position - 1, offset));
        }
    }

    /// An offset has one window only.
    pub proof fn lemma_window_unique(self, v: ViewportWindow, w: ViewportWindow, offset: int)
        requires
            self.is_window(v, offset),
            self.is_window(w, offset),
        ensures
            v == w,
    {
        if v.position < w.position {
            assert(self.passes(v.position as int, offset));
        }
        if w.position < v.position {
            assert(self.passes(w.position as int, offset));
        }
    }

    /// A larger offset has a window that is no earlier, as long as neither
    /// offset is negative.
    pub proof fn lemma_window_monotone(
        self,
        first: ViewportWindow,
        near: int,
        last: ViewportWindow,
        far: int,
    )
        requires
            0 <= self.spacing <= u32::MAX,
            0 <= near <= far,
            self.is_window(first, near),
            self.is_window(last, far),
        ensures
            first.position <= last.position,
            first.filtered <= last.filtered,
            first.start <= last.start,
    {
        if last.position < first.position {
            let q = last.position as int;
            assert(self.passes(q, near));
            assert(self.claims(q, far));
            assert forall|k: int| 0 <= k < q implies !#[trigger] self.claims(k, near) by {
                assert(self.passes(k, near));
            }
            self.lemma_unclaimed_prefix(q, near);
        }
        self.lemma_extent_split(0, first.position as int, last.position as int);
        self.lemma_extent_bounds(first.position as int, last.position as int);
    }
}

/// Find the visible position under `offset`.
///
/// The walk visits the positions 0, 1, 2, ... in turn. A position whose data
/// index is filtered out takes no room and is counted. Any other position takes
/// its size and `spacing`; the walk stops at the first whose room holds the
/// offset. It also stops at the end of the axis, the first position whose data
/// index has no size. Only an axis without any sizes has no window.
pub fn windowed_range(
    offset: i128,
    sizes: &[u32],
    ordering: &[usize],
    filter: Option<&[usize]>,
    spacing: u32,
) -> (r: Result<ViewportWindow, EmptyAxis>)
    ensures
        r is Err <==> sizes@.len() == 0,
        r matches Ok(w) ==> window_axis(
            sizes@,
            ordering@,
            filter_view(filter),
            spacing as int,
        ).is_window(w, offset as int),
{
    let len: usize = sizes.len();
    if len == 0 {
        return Err(EmptyAxis {  });
    }
    let ghost axis = window_axis(sizes@, ordering@, filter_view(filter), spacing as int);
    let listed: usize = ordering.len();
    let mut position: usize = 0;
    let mut filtered: usize = 0;
    let mut min: i128 = 0;
    loop
        invariant
            len == sizes@.len(),
            len > 0,
            listed == ordering@.len(),
            axis == window_axis(sizes@, ordering@, filter_view(filter), spacing as int),
            forall|q: int| 0 <= q < position ==> axis.passes(q, offset as int),
            min == axis.start_of(position as int),
            filtered == axis.hidden_between(0, position as int),
            0 <= min <= position * STEP_LIMIT,
            filtered <= position,
        decreases
                (if len >= listed {
                    len
                } else {
                    listed
                }) - position,
    {
        let index: usize = map_index(len, ordering, position);
        if index >= len {
            return Ok(ViewportWindow { position, data_index: index, start: min, end: min, filtered });
        }
        assert(axis.in_range(position as int));
        assert(position < len || position < listed);
        if is_filtered(filter, index) {
            assert(axis.hidden(position as int));
            assert(axis.passes(position as int, offset as int));
            position += 1;
            filtered += 1;
            continue ;
        }
        assert(!axis.hidden(position as int));
        let max: i128 = min + (sizes[index] as i128) + (spacing as i128);
        assert(max == min + axis.step(position as int));
        if offset >= min && offset < max {
            return Ok(ViewportWindow { position, data_index: index, start: min, end: max, filtered });
        }
        assert(axis.passes(position as int, offset as int));
        min = max;
        position += 1;
    }
}

/// On an axis of equal sizes, without ordering or filter, an offset within the
/// axis lies in the position `offset / pitch`, which spans
/// `[position * pitch, (position + 1) * pitch)`; `pitch` is the size and the
/// spacing together.
pub proof fn lemma_uniform_window(
    sizes: Seq<u32>,
    size: u32,
    spacing: u32,
    offset: int,
    w: ViewportWindow,
)
    requires
        forall|i: int| 0 <= i < sizes.len() ==> sizes[i] == size,
        size + spacing > 0,
        0 <= offset < sizes.len() * (size + spacing),
        window_axis(sizes, Seq::empty(), None, spacing as int).is_window(w, offset),
    ensures
        w.position == offset / (size + spacing),
        w.data_index == w.position,
        w.start == w.position * (size + spacing),
        w.end == (w.position + 1) * (size + spacing),
        w.filtered == 0,
{
    let axis = window_axis(sizes, Seq::empty(), None, spacing as int);
    let pitch = size + spacing;
    let p = w.position as int;
    if p > sizes.len() {
        assert(axis.passes(sizes.len() as int, offset));
    }
    lemma_uniform_start(axis, size, p);
    if !axis.in_range(p) {
        // The walk ran to the end of the axis, so the position that holds the
        // offset was passed over.
        let q = offset / pitch;
        assert(0 <= q < sizes.len()) by (nonlinear_arith)
            requires
                0 <= offset < sizes.len() * pitch,
                pitch > 0,
                q == offset / pitch,
        ;
        assert(p == sizes.len());
        lemma_uniform_start(axis, size, q);
        assert(q * pitch <= offset < q * pitch + pitch) by (nonlinear_arith)
            requires
                0 <= offset,
                pitch > 0,
                q == offset / pitch,
        ;
        assert(axis.claims(q, offset));
        assert(axis.passes(q, offset));
    }
    assert(p == offset / pitch) by (nonlinear_arith)
        requires
            p * pitch <= offset < p * pitch + pitch,
            pitch > 0,
    ;
    assert((p + 1) * pitch == p * pitch + pitch) by (nonlinear_arith);
}

/// On an axis of equal sizes, without ordering or filter, the positions are
/// shown one pitch apart.
proof fn lemma_uniform_start(axis: AxisModel, size: u32, position: int)
    requires
        axis.ordering.len() == 0,
        axis.filter is None,
        axis.count == axis.sizes.len(),
        forall|i: int| 0 <= i < axis.sizes.len() ==> axis.sizes[i] == size,
        0 <= position <= axis.sizes.len(),
    ensures
        axis.start_of(position) == position * (size + axis.spacing),
        axis.hidden_between(0, position) == 0,
        position < axis.sizes.len() ==> axis.step(position) == size + axis.spacing,
    decreases position,
{
    if position > 0 {
        lemma_uniform_start(axis, size, position - 1);
        assert(position * (size + axis.spacing) == (position - 1) * (size + axis.spacing) + (size
            + axis.spacing)) by (nonlinear_arith);
    }
}

/// On an axis of equal sizes without ordering, where the filter names the one
/// data index `k`, the position `k` takes no room; an offset that would lie in
/// position `k` without the filter lies in position `k + 1`, which shows the
/// data index `k + 1`, and one position before it is filtered out.
pub proof fn lemma_filtered_position_window(
    sizes: Seq<u32>,
    size: u32,
    spacing: u32,
    filter: Option<Seq<usize>>,
    k: int,
    offset: int,
    w: ViewportWindow,
)
    requires
        forall|i: int| 0 <= i < sizes.len() ==> sizes[i] == size,
        size + spacing > 0,
        0 <= k,
        k + 1 < sizes.len(),
        forall|i: int| spec_is_filtered(filter, i) <==> i == k,
        k * (size + spacing) <= offset < (k + 1) * (size + spacing),
        window_axis(sizes, Seq::empty(), filter, spacing as int).is_window(w, offset),
    ensures
        window_axis(sizes, Seq::empty(), filter, spacing as int).step(k) == 0,
        w.position == k + 1,
        w.data_index == k + 1,
        w.filtered == 1,
        w.start == k * (size + spacing),
        w.end == (k + 1) * (size + spacing),
{
    let axis = window_axis(sizes, Seq::empty(), filter, spacing as int);
    let pitch = size + spacing;
    lemma_one_hidden_start(axis, size, k, k + 1);
    lemma_one_hidden_start(axis, size, k, k);
    assert(axis.hidden(k));
    assert((k + 1) * pitch == k * pitch + pitch) by (nonlinear_arith);
    assert(axis.in_range(k + 1));
    assert(axis.claims(k + 1, offset));
    let p = w.position as int;
    if p > k + 1 {
        assert(axis.passes(k + 1, offset));
    }
    if p < k + 1 {
        lemma_one_hidden_start(axis, size, k, p);
        assert(axis.in_range(p));
        if p < k {
            assert(p * pitch + pitch <= k * pitch) by (nonlinear_arith)
                requires
                    p < k,
                    pitch > 0,
            ;
        }
    }
}

/// On an axis of equal sizes without ordering, where the filter names the one
/// data index `k`, an offset before position `k` lies where it would lie
/// without the filter, and nothing before it is filtered out.
pub proof fn lemma_window_before_filtered_position(
    sizes: Seq<u32>,
    size: u32,
    spacing: u32,
    filter: Option<Seq<usize>>,
    k: int,
    offset: int,
    w: ViewportWindow,
)
    requires
        forall|i: int| 0 <= i < sizes.len() ==> sizes[i] == size,
        size + spacing > 0,
        0 <= k < sizes.len(),
        forall|i: int| spec_is_filtered(filter, i) <==> i == k,
        0 <= offset < k * (size + spacing),
        window_axis(sizes, Seq::empty(), filter, spacing as int).is_window(w, offset),
    ensures
        w.position == offset / (size + spacing),
        w.position < k,
        w.data_index == w.position,
        w.filtered == 0,
        w.start == w.position * (size + spacing),
        w.end == (w.position + 1) * (size + spacing),
{
    let axis = window_axis(sizes, Seq::empty(), filter, spacing as int);
    let pitch = size + spacing;
    let q = offset / pitch;
    assert(0 <= q < k && q * pitch <= offset < q * pitch + pitch) by (nonlinear_arith)
        requires
            0 <= offset < k * pitch,
            pitch > 0,
            q == offset / pitch,
    ;
    lemma_one_hidden_start(axis, size, k, q);
    assert(axis.in_range(q));
    assert(axis.claims(q, offset));
    let p = w.position as int;
    if p > q {
        assert(axis.passes(q, offset));
    }
    if p < q {
        lemma_one_hidden_start(axis, size, k, p);
        assert(axis.in_range(p));
        assert(p * pitch + pitch <= q * pitch) by (nonlinear_arith)
            requires
                p < q,
                pitch > 0,
        ;
    }
    assert((q + 1) * pitch == q * pitch + pitch) by (nonlinear_arith);
}

/// On an axis of equal sizes without ordering, where the filter names the one
/// data index `k`, the positions up to `k` are one pitch apart, and those after
/// it come one pitch earlier than their number says.
proof fn lemma_one_hidden_start(axis: AxisModel, size: u32, k: int, position: int)
    requires
        axis.ordering.len() == 0,
        axis.count == axis.sizes.len(),
        forall|i: int| 0 <= i < axis.sizes.len() ==> axis.sizes[i] == size,
        forall|i: int| spec_is_filtered(axis.filter, i) <==> i == k,
        0 <= k,
        0 <= position <= axis.sizes.len(),
    ensures
        position <= k ==> axis.start_of(position) == position * (size + axis.spacing),
        position <= k ==> axis.hidden_between(0, position) == 0,
        position > k ==> axis.start_of(position) == (position - 1) * (size + axis.spacing),
        position > k ==> axis.hidden_between(0, position) == 1,
        position < axis.sizes.len() && position != k ==> axis.step(position) == size
            + axis.spacing,
        axis.step(k) == 0,
    decreases position,
{
    assert(spec_is_filtered(axis.filter, k));
    assert(axis.data_index(k) == k);
    assert(axis.data_index(position) == position);
    assert(spec_is_filtered(axis.filter, position) <==> position == k);
    if position == 0 {
        assert(axis.start_of(0) == 0);
        assert(axis.hidden_between(0, 0) == 0);
    }
    if position > 0 {
        assert(axis.data_index(position - 1) == position - 1);
        assert(spec_is_filtered(axis.filter, position - 1) <==> position - 1 == k);
        lemma_one_hidden_start(axis, size, k, position - 1);
        assert(axis.start_of(position) == axis.start_of(position - 1) + axis.step(position - 1));
        if position - 1 != k {
            assert(axis.step(position - 1) == size + axis.spacing);
        }
        assert(position * (size + axis.spacing) == (position - 1) * (size + axis.spacing) + (size
            + axis.spacing)) by (nonlinear_arith);
        assert((position - 1) * (size + axis.spacing) == (position - 2) * (size + axis.spacing) + (
        size + axis.spacing)) by (nonlinear_arith);
    }
}

} // verus!
