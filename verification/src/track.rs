//! The layout of one axis: where each shown position of the visible window
//! lies on the screen, and how much of it can be seen.

use vstd::prelude::*;
use crate::axis::{filter_view, is_filtered, AxisModel, LINE_WIDTH, STEP_LIMIT};
use crate::geometry::Span;
use crate::ordering::{map_index, ordering_entries, ordering_or_identity};
use crate::sizing::AxisSizingStore;

verus! {

/// A bound on the screen coordinate at which a track may start, which keeps
/// every coordinate of its cells within an `i128`.
pub const START_LIMIT: i128 = 0x10_0000_0000_0000_0000_0000_0000;

/// The visible part of one axis, as the layout walks it.
pub struct Track<'a> {
    /// The number of rows or columns of the data.
    pub count: usize,
    /// The sizes kept by data index.
    pub sizes: &'a AxisSizingStore,
    /// The data index of each visible position; absent for the identity.
    pub ordering: Option<&'a [usize]>,
    /// The data indices that are not shown.
    pub filter: Option<&'a [usize]>,
    /// The inner size of the header along this axis, which is also the size of
    /// a data index for which none is kept.
    pub header_size: u32,
    /// What the outside of a cell is longer than its inside.
    pub padding: u16,
    /// How far from the end of a header its resize handle can be grabbed.
    pub grab_radius: u16,
    /// The first position that is walked.
    pub origin: usize,
    /// The position at which the walk ends; it is not walked itself.
    pub end: usize,
    /// Where on the screen the content begins that `origin` is part of: the
    /// header would lie here if it scrolled with the content.
    pub start: i128,
    /// Where on the screen the header is pinned.
    pub pinned: i64,
    /// The part of the screen that the scroll area shows.
    pub view: Span,
    /// The part of the screen that may be drawn on.
    pub clip: Span,
}

/// One shown position of a track.
#[derive(Debug, Clone, Copy, PartialEq, Eq, Structural)]
pub struct TrackCell {
    pub position: usize,
    /// The number of the position within the grid of the frame; the header has
    /// number 0 and `origin` has number 1.
    pub grid_index: usize,
    pub data_index: usize,
    /// The inner size of the position.
    pub size: u32,
    /// How many positions from `origin` up to this one are shown.
    pub shown_before: usize,
    /// The outside of the cell on the screen.
    pub span: Span,
    /// The inside of the cell on the screen.
    pub inner: Span,
    /// What can be seen of the cell where it is a header.
    pub header_clip: Span,
    /// What can be seen of the cell where it holds a value.
    pub value_clip: Span,
    /// Where the resize handle of the header can be grabbed: around the end of
    /// the cell.
    pub handle: Span,
}

/// The header of a track: the pinned stretch before the scrolling cells.
#[derive(Debug, Clone, Copy, PartialEq, Eq, Structural)]
pub struct HeaderBand {
    /// The outside of the header on the screen.
    pub span: Span,
    /// The inside of the header on the screen.
    pub inner: Span,
    /// What can be seen of the header.
    pub clip: Span,
}

impl<'a> Track<'a> {
    /// The axis of the track: the ordering may refer to every row or column
    /// of the data, and each shown position takes its size, the padding and
    /// the line that parts it from the next.
    pub open spec fn axis(&self) -> AxisModel {
        AxisModel {
            count: self.count as int,
            sizes: self.sizes@,
            ordering: ordering_entries(self.ordering),
            filter: filter_view(self.filter),
            spacing: self.padding + LINE_WIDTH,
            fallback: self.header_size,
        }
    }

    /// The walk stays within the data, and the start is within bounds.
    pub open spec fn wf(&self) -> bool {
        &&& self.origin <= self.end <= self.count
        &&& -START_LIMIT <= self.start <= START_LIMIT
    }

    /// The room that the header takes before the first cell: its outside and
    /// the line after it.
    pub open spec fn lead(&self) -> int {
        self.header_size + self.padding + LINE_WIDTH
    }

    /// Where the cells stop being hidden by the pinned header.
    pub open spec fn edge(&self) -> int {
        self.pinned + self.lead()
    }

    /// The header of the track.
    pub open spec fn spec_header(&self) -> HeaderBand {
        let span = Span {
            min: self.pinned as i128,
            max: (self.pinned + self.header_size + self.padding) as i128,
        };
        HeaderBand {
            span,
            inner: Span {
                min: (self.pinned + self.padding / 2) as i128,
                max: (self.pinned + self.padding / 2 + self.header_size) as i128,
            },
            clip: span.spec_intersect(self.view).spec_intersect(self.clip),
        }
    }

    /// The outside of the cell at a position: the cells follow the header and
    /// each other, each after the line of the one before.
    pub open spec fn spec_span(&self, position: int) -> Span {
        let min = self.start + self.lead() + self.axis().extent_between(
            self.origin as int,
            position,
        );
        Span { min: min as i128, max: (min + self.axis().size(position) + self.padding) as i128 }
    }

    /// What can be seen of a header cell: what the view and the clip leave of
    /// it. The first cell after the pinned header is cut at the edge of that
    /// header instead of the start of the view.
    pub open spec fn spec_header_clip(&self, position: int) -> Span {
        let seen = self.spec_span(position).spec_intersect(self.view);
        let cut = if position == self.origin {
            Span { min: self.edge() as i128, max: seen.max }
        } else {
            seen
        };
        cut.spec_intersect(self.clip)
    }

    /// What can be seen of a value cell: what lies after the pinned header,
    /// before the end of the view, and within the clip.
    pub open spec fn spec_value_clip(&self, position: int) -> Span {
        self.spec_span(position).spec_intersect(
            Span { min: self.edge() as i128, max: self.view.max }.spec_intersect(self.clip),
        )
    }

    /// The cell at a position.
    pub open spec fn spec_cell(&self, position: int) -> TrackCell {
        let span = self.spec_span(position);
        TrackCell {
            position: position as usize,
            grid_index: (position - self.origin + 1) as usize,
            data_index: self.axis().data_index(position) as usize,
            size: self.axis().size(position) as u32,
            shown_before: (position - self.origin - self.axis().hidden_between(
                self.origin as int,
                position,
            )) as usize,
            span,
            inner: Span {
                min: (span.min + self.padding / 2) as i128,
                max: (span.min + self.padding / 2 + self.axis().size(position)) as i128,
            },
            header_clip: self.spec_header_clip(position),
            value_clip: self.spec_value_clip(position),
            handle: Span {
                min: (span.max - self.grab_radius) as i128,
                max: (span.max + self.grab_radius) as i128,
            },
        }
    }

    /// The length of the line along the headers of the positions from
    /// `origin` up to `until`: for each header of which anything can be seen,
    /// what can be seen of it and the width of a line.
    pub open spec fn spec_seen_extent(&self, until: int) -> int
        decreases until - self.origin,
    {
        if until <= self.origin {
            0
        } else if self.axis().hidden(until - 1) || self.spec_header_clip(until - 1).spec_is_empty() {
            self.spec_seen_extent(until - 1)
        } else {
            self.spec_seen_extent(until - 1) + (self.spec_header_clip(until - 1).max
                - self.spec_header_clip(until - 1).min) + LINE_WIDTH
        }
    }

    /// The cells of the positions from `origin` up to `until` that are shown,
    /// in their order.
    pub open spec fn spec_cells(&self, until: int) -> Seq<TrackCell>
        decreases until - self.origin,
    {
        if until <= self.origin {
            Seq::empty()
        } else if self.axis().hidden(until - 1) {
            self.spec_cells(until - 1)
        } else {
            self.spec_cells(until - 1).push(self.spec_cell(until - 1))
        }
    }

    /// Each cell of the track shows a position that is walked and not filtered
    /// out, and the cells come in the order of their positions. A cell is
    /// numbered from 1 within the grid, and its data index lies within the
    /// data.
    pub proof fn lemma_cells(&self, until: int)
        requires
            self.wf(),
            self.origin <= until <= self.end,
        ensures
            forall|i: int|
                0 <= i < self.spec_cells(until).len() ==> self.is_cell_before(
                    #[trigger] self.spec_cells(until)[i],
                    until,
                ),
            forall|i: int, j: int|
                0 <= i < j < self.spec_cells(until).len() ==> self.spec_cells(until)[i].position
                    < self.spec_cells(until)[j].position,
        decreases until - self.origin,
    {
        if until > self.origin {
            self.lemma_cells(until - 1);
            let before = self.spec_cells(until - 1);
            assert forall|i: int| 0 <= i < self.spec_cells(until).len() implies self.is_cell_before(
                #[trigger] self.spec_cells(until)[i],
                until,
            ) by {
                if i < before.len() {
                    assert(self.is_cell_before(before[i], until - 1));
                }
            }
            assert forall|i: int, j: int| 0 <= i < j < self.spec_cells(until).len() implies self.spec_cells(
                until,
            )[i].position < self.spec_cells(until)[j].position by {
                assert(self.is_cell_before(before[i], until - 1));
            }
        }
    }

    /// `cell` is the cell of a position from `origin` up to `until` that is
    /// not filtered out.
    pub open spec fn is_cell_before(&self, cell: TrackCell, until: int) -> bool {
        &&& self.origin <= cell.position < until
        &&& !self.axis().hidden(cell.position as int)
        &&& cell == self.spec_cell(cell.position as int)
        &&& cell.grid_index == cell.position - self.origin + 1
        &&& cell.data_index < self.count
    }

    /// Lay out the header of the track.
    pub fn header(&self) -> (band: HeaderBand)
        ensures
            band == self.spec_header(),
            -START_LIMIT <= band.span.min <= band.span.max <= START_LIMIT,
            band.span.max - band.span.min < STEP_LIMIT,
            band.clip.min >= band.span.min,
            band.clip.max <= band.span.max,
    {
        let min: i128 = self.pinned as i128;
        let span = Span { min, max: min + self.header_size as i128 + self.padding as i128 };
        let inset: i128 = (self.padding / 2) as i128;
        HeaderBand {
            span,
            inner: Span { min: min + inset, max: min + inset + self.header_size as i128 },
            clip: span.intersect(&self.view).intersect(&self.clip),
        }
    }

    /// Lay out the cells of the track: one for each position from `origin` up
    /// to `end` that is not filtered out.
    pub fn cells(&self) -> (cells: Vec<TrackCell>)
        requires
            self.wf(),
        ensures
            cells@ == self.spec_cells(self.end as int),
    {
        self.walk().0
    }

    /// Measure the line along the headers of the track.
    pub fn seen_extent(&self) -> (extent: i128)
        requires
            self.wf(),
        ensures
            extent == self.spec_seen_extent(self.end as int),
    {
        self.walk().1
    }

    /// Lay out the cell at a position that is shown, given the room that the
    /// header and the cells before it take.
    fn cell_at(&self, position: usize, data_index: usize, offset: i128, shown: usize) -> (cell:
        TrackCell)
        requires
            self.wf(),
            self.origin <= position < self.end,
            data_index == self.axis().data_index(position as int),
            offset == self.lead() + self.axis().extent_between(
                self.origin as int,
                position as int,
            ),
            self.lead() <= offset <= self.lead() + (position - self.origin) * STEP_LIMIT,
            shown == position - self.origin - self.axis().hidden_between(
                self.origin as int,
                position as int,
            ),
        ensures
            cell == self.spec_cell(position as int),
            !cell.header_clip.spec_is_empty() ==> 0 < cell.header_clip.max - cell.header_clip.min
                < (if position == self.origin {
                2 * START_LIMIT
            } else {
                STEP_LIMIT as int
            }),
    {
        let lead: i128 = self.header_size as i128 + self.padding as i128 + LINE_WIDTH as i128;
        let edge: i128 = self.pinned as i128 + lead;
        let inset: i128 = (self.padding / 2) as i128;
        let reach: i128 = self.grab_radius as i128;
        let after = Span { min: edge, max: self.view.max }.intersect(&self.clip);
        let size: u32 = self.sizes.get(data_index, self.header_size);
        let min: i128 = self.start + offset;
        let span = Span { min, max: min + size as i128 + self.padding as i128 };
        let seen = span.intersect(&self.view);
        let cut = if position == self.origin {
            Span { min: edge, max: seen.max }
        } else {
            seen
        };
        TrackCell {
            position,
            grid_index: position - self.origin + 1,
            data_index,
            size,
            shown_before: shown,
            span,
            inner: Span { min: min + inset, max: min + inset + size as i128 },
            header_clip: cut.intersect(&self.clip),
            value_clip: span.intersect(&after),
            handle: Span { min: span.max - reach, max: span.max + reach },
        }
    }

    /// Walk the track once, for its cells and for the line along its headers.
    pub fn walk(&self) -> (r: (Vec<TrackCell>, i128))
        requires
            self.wf(),
        ensures
            r.0@ == self.spec_cells(self.end as int),
            r.1 == self.spec_seen_extent(self.end as int),
            0 <= r.1 <= 2 * START_LIMIT + (self.end - self.origin) * STEP_LIMIT,
    {
        let ghost axis = self.axis();
        let lead: i128 = self.header_size as i128 + self.padding as i128 + LINE_WIDTH as i128;
        let ordering: &[usize] = ordering_or_identity(self.ordering);
        let mut cells: Vec<TrackCell> = Vec::new();
        let mut position: usize = self.origin;
        let mut shown: usize = 0;
        let mut offset: i128 = lead;
        let mut seen: i128 = 0;
        while position < self.end
            invariant
                self.wf(),
                axis == self.axis(),
                ordering@ == ordering_entries(self.ordering),
                lead == self.lead(),
                self.origin <= position <= self.end,
                offset == lead + axis.extent_between(self.origin as int, position as int),
                lead <= offset <= lead + (position - self.origin) * STEP_LIMIT,
                shown == position - self.origin - axis.hidden_between(
                    self.origin as int,
                    position as int,
                ),
                shown <= position - self.origin,
                cells@ == self.spec_cells(position as int),
                seen == self.spec_seen_extent(position as int),
                0 <= seen <= (if position > self.origin {
                    2 * START_LIMIT
                } else {
                    0
                }) + (position - self.origin) * STEP_LIMIT,
            decreases self.end - position,
        {
            let data_index: usize = map_index(self.count, ordering, position);
            if !is_filtered(self.filter, data_index) {
                let cell = self.cell_at(position, data_index, offset, shown);
                if !cell.header_clip.is_empty() {
                    seen = seen + (cell.header_clip.max - cell.header_clip.min)
                        + LINE_WIDTH as i128;
                }
                cells.push(cell);
                offset = offset + cell.size as i128 + self.padding as i128 + LINE_WIDTH as i128;
                shown += 1;
            }
            position += 1;
        }
        (cells, seen)
    }
}

} // verus!
