//! The size of the scrolled content: how far the scroll area can scroll.

use vstd::prelude::*;
use crate::axis::{filter_view, LINE_WIDTH};
use crate::ordering::{map_index, ordering_entries, ordering_or_identity, spec_map_index};
use crate::plan::AxisFrame;

verus! {

/// The sum of the sizes.
pub open spec fn spec_total_size(sizes: Seq<u32>) -> int
    decreases sizes.len(),
{
    if sizes.len() == 0 {
        0
    } else {
        spec_total_size(sizes.drop_last()) + sizes.last()
    }
}

/// The room that is taken off the content for one entry of the filter: the
/// entry is taken through the ordering, and the size kept for the outcome,
/// with the gap, is what is taken off; nothing where no size is kept for it.
pub open spec fn spec_filtered_step(
    count: int,
    sizes: Seq<u32>,
    ordering: Seq<usize>,
    gap: int,
    entry: usize,
) -> int {
    let mapped = spec_map_index(count, ordering, entry as int);
    if 0 <= mapped < sizes.len() {
        sizes[mapped] + gap
    } else {
        0
    }
}

/// The room that is taken off the content for the entries of the filter, one
/// by one; an entry that occurs twice counts twice.
pub open spec fn spec_filtered_extent(
    count: int,
    sizes: Seq<u32>,
    ordering: Seq<usize>,
    gap: int,
    entries: Seq<usize>,
) -> int
    decreases entries.len(),
{
    if entries.len() == 0 {
        0
    } else {
        spec_filtered_extent(count, sizes, ordering, gap, entries.drop_last()) + spec_filtered_step(
            count,
            sizes,
            ordering,
            gap,
            entries.last(),
        )
    }
}

/// The extent of the content along one axis: all the sizes that are kept, a
/// gap for each row or column of the data, and the outside of the header;
/// less what the filter takes off.
pub open spec fn spec_content_extent(frame: AxisFrame) -> int {
    spec_total_size(frame.sizes@) + frame.gap() * frame.count + frame.header_size + frame.padding
        - match filter_view(frame.filter) {
        Some(entries) => spec_filtered_extent(
            frame.count as int,
            frame.sizes@,
            ordering_entries(frame.ordering),
            frame.gap(),
            entries,
        ),
        None => 0,
    }
}

fn total_size(sizes: &[u32]) -> (r: i128)
    ensures
        r == spec_total_size(sizes@),
        0 <= r <= sizes@.len() * 0x1_0000_0000,
{
    let mut total: i128 = 0;
    let mut i: usize = 0;
    while i < sizes.len()
        invariant
            i <= sizes.len(),
            total == spec_total_size(sizes@.take(i as int)),
            0 <= total <= i * 0x1_0000_0000,
        decreases sizes.len() - i,
    {
        assert(sizes@.take(i + 1).drop_last() == sizes@.take(i as int));
        total = total + sizes[i] as i128;
        i += 1;
    }
    assert(sizes@.take(i as int) == sizes@);
    total
}

fn filtered_extent(frame: &AxisFrame, entries: &[usize]) -> (r: i128)
    ensures
        r == spec_filtered_extent(
            frame.count as int,
            frame.sizes@,
            ordering_entries(frame.ordering),
            frame.gap(),
            entries@,
        ),
        0 <= r <= entries@.len() * 0x2_0000_0000,
{
    let ordering: &[usize] = ordering_or_identity(frame.ordering);
    let gap: i128 = frame.padding as i128 + LINE_WIDTH as i128;
    let mut total: i128 = 0;
    let mut i: usize = 0;
    while i < entries.len()
        invariant
            i <= entries.len(),
            ordering@ == ordering_entries(frame.ordering),
            gap == frame.gap(),
            total == spec_filtered_extent(
                frame.count as int,
                frame.sizes@,
                ordering@,
                gap as int,
                entries@.take(i as int),
            ),
            0 <= total <= i * 0x2_0000_0000,
        decreases entries.len() - i,
    {
        assert(entries@.take(i + 1).drop_last() == entries@.take(i as int));
        let mapped: usize = map_index(frame.count, ordering, entries[i]);
        if mapped < frame.sizes.len() {
            total = total + frame.sizes.get(mapped, 0) as i128 + gap;
        }
        i += 1;
    }
    assert(entries@.take(i as int) == entries@);
    total
}

/// Compute the extent of the content along one axis.
pub fn content_extent(frame: &AxisFrame) -> (r: i128)
    ensures
        r == spec_content_extent(*frame),
{
    let gap: i128 = frame.padding as i128 + LINE_WIDTH as i128;
    let count: i128 = frame.count as i128;
    assert(0 <= gap * count <= 0x1_0000 * 0x1_0000_0000_0000_0000) by (nonlinear_arith)
        requires
            0 <= gap <= 0x1_0000,
            0 <= count <= 0x1_0000_0000_0000_0000,
    ;
    let kept: usize = frame.sizes.len();
    let sum: i128 = total_size(frame.sizes.as_slice());
    assert(sum <= kept * 0x1_0000_0000);
    let total: i128 = sum + gap * count + frame.header_size as i128 + frame.padding as i128;
    match frame.filter {
        Some(entries) => {
            let named: usize = entries.len();
            let hidden: i128 = filtered_extent(frame, entries);
            assert(hidden <= named * 0x2_0000_0000);
            total - hidden
        },
        None => total,
    }
}

} // verus!
