//! The layout of one frame: what the table shows, given the sizes of its rows
//! and columns, what the data source says, and where the host put the table.

use vstd::prelude::*;
use crate::geometry::{CellSize, Padding, Position, Rect, Span, Viewport};
use crate::grid::{header_cells, is_column_header_of, is_crossing_of, is_row_header_of,
    lemma_column_headers, lemma_row_headers, lemma_value_cells, spec_column_headers, spec_corner,
    spec_column_header, spec_header_cells, spec_row_header, spec_row_headers, spec_seen_header,
    spec_value_cell, spec_value_cells, value_cells,
    HeaderCell, ValueCell};
use crate::index::{CellIndex, CellKind};
use crate::plan::{lemma_uniform_plan_origin, AxisFrame, AxisPlan};
use crate::sizing::AxisSizingStore;
use crate::source::AxisSource;
use crate::axis::{LINE_WIDTH, STEP_LIMIT};
use crate::track::{HeaderBand, Track, TrackCell, START_LIMIT};
use crate::window::ViewportWindow;

verus! {

/// Where the host put the table and how it measures cells.
#[derive(Debug, Clone, Copy, PartialEq, Eq, Structural)]
pub struct FrameGeometry {
    /// The inner size of the header cells, which is also the first size of a
    /// row or column without a default of its own.
    pub cell_size: CellSize,
    /// What the outside of a cell is larger than its inside.
    pub padding: Padding,
    /// How far from the edge of a header its resize handle can be grabbed.
    pub grab_radius: u16,
    /// The part of the content that the scroll area shows.
    pub viewport: Viewport,
    /// Where on the screen the content begins.
    pub content_origin: Position,
    /// Where on the screen the table begins: the corner is pinned here.
    pub table_origin: Position,
    /// The part of the screen that may be drawn on.
    pub clip: Rect,
}

impl FrameGeometry {
    /// What the layout depends on along the columns.
    pub open spec fn spec_column_frame<'a>(&self, source: AxisSource<'a>, sizes: &'a AxisSizingStore)
        -> AxisFrame<'a> {
        AxisFrame {
            count: source.count,
            sizes,
            ordering: source.ordering,
            filter: source.filter,
            header_size: self.cell_size.width,
            padding: self.padding.x,
            grab_radius: self.grab_radius,
            scroll: self.viewport.x,
            extent: self.viewport.width,
            content_origin: self.content_origin.x,
            pinned: self.table_origin.x,
            clip: self.clip.spec_x(),
        }
    }

    /// What the layout depends on along the rows.
    pub open spec fn spec_row_frame<'a>(&self, source: AxisSource<'a>, sizes: &'a AxisSizingStore)
        -> AxisFrame<'a> {
        AxisFrame {
            count: source.count,
            sizes,
            ordering: source.ordering,
            filter: source.filter,
            header_size: self.cell_size.height,
            padding: self.padding.y,
            grab_radius: self.grab_radius,
            scroll: self.viewport.y,
            extent: self.viewport.height,
            content_origin: self.content_origin.y,
            pinned: self.table_origin.y,
            clip: self.clip.spec_y(),
        }
    }

    /// Gather what the layout depends on along the columns.
    pub fn column_frame<'a>(&self, source: AxisSource<'a>, sizes: &'a AxisSizingStore) -> (r: AxisFrame<'a>)
        ensures
            r == self.spec_column_frame(source, sizes),
    {
        AxisFrame {
            count: source.count,
            sizes,
            ordering: source.ordering,
            filter: source.filter,
            header_size: self.cell_size.width,
            padding: self.padding.x,
            grab_radius: self.grab_radius,
            scroll: self.viewport.x,
            extent: self.viewport.width,
            content_origin: self.content_origin.x,
            pinned: self.table_origin.x,
            clip: self.clip.x(),
        }
    }

    /// Gather what the layout depends on along the rows.
    pub fn row_frame<'a>(&self, source: AxisSource<'a>, sizes: &'a AxisSizingStore) -> (r: AxisFrame<'a>)
        ensures
            r == self.spec_row_frame(source, sizes),
    {
        AxisFrame {
            count: source.count,
            sizes,
            ordering: source.ordering,
            filter: source.filter,
            header_size: self.cell_size.height,
            padding: self.padding.y,
            grab_radius: self.grab_radius,
            scroll: self.viewport.y,
            extent: self.viewport.height,
            content_origin: self.content_origin.y,
            pinned: self.table_origin.y,
            clip: self.clip.y(),
        }
    }
}

/// The two lines that part the headers from the values.
#[derive(Debug, Clone, Copy, PartialEq, Eq, Structural)]
pub struct GridLines {
    /// From where to where the line under the header row runs.
    pub across: Span,
    /// How far down the screen the line under the header row lies.
    pub across_at: i128,
    /// From where to where the line beside the header column runs.
    pub down: Span,
    /// How far across the screen the line beside the header column lies.
    pub down_at: i128,
}

/// What one frame shows.
#[derive(Debug)]
pub struct FrameLayout {
    /// The visible positions of the first row and column that are not
    /// scrolled out.
    pub cell_origin: CellIndex,
    /// The window of the columns at the left edge of the viewport.
    pub first_column: ViewportWindow,
    /// The window of the columns at the right edge of the viewport.
    pub last_column: ViewportWindow,
    /// The window of the rows at the top edge of the viewport.
    pub first_row: ViewportWindow,
    /// The window of the rows at the bottom edge of the viewport.
    pub last_row: ViewportWindow,
    /// The corner and the headers of which anything can be seen: the corner,
    /// then the column headers from left to right, then the row headers from
    /// top to bottom.
    pub headers: Vec<HeaderCell>,
    /// The value cells of which anything can be seen, row by row.
    pub values: Vec<ValueCell>,
    /// The part of the screen that the scroll area shows.
    pub view: Rect,
    /// The part of the screen where the cells of the frame go: from the start
    /// of the first windows to the end of the last.
    pub body: Rect,
    /// The lines that part the headers from the values.
    pub lines: GridLines,
}

/// The cells that the layout of an axis gives to the grid: those of its track,
/// or none where it has no track.
pub open spec fn spec_plan_cells(plan: AxisPlan) -> Seq<TrackCell> {
    match plan.track {
        Some(t) => t.spec_cells(t.end as int),
        None => Seq::empty(),
    }
}

/// The number of rows that are shown before the first row of the frame, from
/// which the stripes are counted.
pub open spec fn spec_stripe_offset(rows: AxisPlan) -> int {
    rows.first.position - rows.first.filtered
}

/// The header cells of a frame. Where the first position of an axis lies
/// beyond the data, nothing is shown, not even the corner.
pub open spec fn spec_frame_headers(columns: AxisPlan, rows: AxisPlan) -> Seq<HeaderCell> {
    match (columns.track, rows.track) {
        (Some(c), Some(r)) => spec_header_cells(
            c.spec_header(),
            r.spec_header(),
            spec_plan_cells(columns),
            spec_plan_cells(rows),
            spec_stripe_offset(rows),
        ),
        _ => Seq::empty(),
    }
}

/// The value cells of a frame.
pub open spec fn spec_frame_values(columns: AxisPlan, rows: AxisPlan) -> Seq<ValueCell> {
    spec_value_cells(spec_plan_cells(columns), spec_plan_cells(rows), spec_stripe_offset(rows))
}

/// What a header takes of the line along it: what can be seen of it and the
/// width of a line, or nothing if nothing of it can be seen.
pub open spec fn spec_band_extent(band: HeaderBand) -> int {
    if band.clip.spec_is_empty() {
        0
    } else {
        band.clip.max - band.clip.min + LINE_WIDTH
    }
}

/// The length of the line along the headers of one axis: what the corner and
/// each header take of it. Nothing can be seen of any of them where nothing
/// can be seen of the header of the other axis, and there are none where an
/// axis has no track.
pub open spec fn spec_line_length(along: Option<Track>, across: Option<Track>) -> int {
    match (along, across) {
        (Some(a), Some(c)) => if c.spec_header().clip.spec_is_empty() {
            0
        } else {
            spec_band_extent(a.spec_header()) + a.spec_seen_extent(a.end as int)
        },
        _ => 0,
    }
}

/// The lines of a frame. Each starts where the table is pinned and lies at the
/// far edge of the header that it runs along.
pub open spec fn spec_grid_lines<'a>(
    columns: AxisFrame<'a>,
    rows: AxisFrame<'a>,
    column_plan: AxisPlan<'a>,
    row_plan: AxisPlan<'a>,
) -> GridLines {
    GridLines {
        across: Span {
            min: columns.pinned as i128,
            max: (columns.pinned + spec_line_length(column_plan.track, row_plan.track)) as i128,
        },
        across_at: (rows.pinned + rows.header_size + rows.padding) as i128,
        down: Span {
            min: rows.pinned as i128,
            max: (rows.pinned + spec_line_length(row_plan.track, column_plan.track)) as i128,
        },
        down_at: (columns.pinned + columns.header_size + columns.padding) as i128,
    }
}

/// `layout` is what the two axes show in this frame.
pub open spec fn is_frame_layout<'a>(
    columns: AxisFrame<'a>,
    rows: AxisFrame<'a>,
    layout: FrameLayout,
) -> bool {
    let column_plan = columns.spec_plan(layout.first_column, layout.last_column);
    let row_plan = rows.spec_plan(layout.first_row, layout.last_row);
    &&& columns.is_plan(column_plan)
    &&& rows.is_plan(row_plan)
    &&& layout.cell_origin == (CellIndex {
        row: layout.first_row.position,
        column: layout.first_column.position,
    })
    &&& layout.headers@ == spec_frame_headers(column_plan, row_plan)
    &&& layout.values@ == spec_frame_values(column_plan, row_plan)
    &&& layout.view == Rect::spec_from_spans(column_plan.view, row_plan.view)
    &&& layout.body == Rect::spec_from_spans(column_plan.body, row_plan.body)
    &&& layout.lines == spec_grid_lines(columns, rows, column_plan, row_plan)
}

/// A value cell shows a row and a column of the data.
pub open spec fn spec_value_within(cell: ValueCell, column_count: usize, row_count: usize) -> bool {
    &&& cell.index.row < row_count
    &&& cell.index.column < column_count
    &&& cell.grid_row >= 1
    &&& cell.grid_column >= 1
    &&& !cell.clip.spec_is_degenerate()
}

/// A header cell is the corner, or the header of a column or of a row of the
/// data; its kind goes with its place in the grid.
pub open spec fn spec_header_within(cell: HeaderCell, column_count: usize, row_count: usize)
    -> bool {
    &&& !cell.clip.spec_is_degenerate()
    &&& match cell.kind {
        CellKind::Corner => cell.grid_row == 0 && cell.grid_column == 0,
        CellKind::ColumnHeader => cell.grid_row == 0 && cell.grid_column >= 1 && cell.data_index
            < column_count,
        CellKind::RowHeader => cell.grid_row >= 1 && cell.grid_column == 0 && cell.data_index
            < row_count,
        CellKind::Value => false,
    }
}

/// A grid of equal cells, without ordering or filter, begins at the row and
/// column that the scroll offset divided by the pitch gives, as long as it is
/// not scrolled beyond its end. The pitch of an axis is what a cell takes along
/// it: its size, the padding and the line.
pub proof fn lemma_uniform_frame_origin<'a>(
    columns: AxisFrame<'a>,
    rows: AxisFrame<'a>,
    layout: FrameLayout,
    width: u32,
    height: u32,
)
    requires
        is_frame_layout(columns, rows, layout),
        columns.ordering is None,
        columns.filter is None,
        rows.ordering is None,
        rows.filter is None,
        forall|i: int| 0 <= i < columns.sizes@.len() ==> columns.sizes@[i] == width,
        forall|i: int| 0 <= i < rows.sizes@.len() ==> rows.sizes@[i] == height,
        columns.near() < columns.sizes@.len() * (width + columns.gap()),
        rows.near() < rows.sizes@.len() * (height + rows.gap()),
    ensures
        layout.cell_origin.column == columns.near() / (width + columns.gap()),
        layout.cell_origin.row == rows.near() / (height + rows.gap()),
        layout.first_column.data_index == layout.cell_origin.column,
        layout.first_row.data_index == layout.cell_origin.row,
{
    lemma_uniform_plan_origin(
        columns,
        columns.spec_plan(layout.first_column, layout.last_column),
        width,
    );
    lemma_uniform_plan_origin(rows, rows.spec_plan(layout.first_row, layout.last_row), height);
}

/// A cell of a track lies within the data and is numbered from 1.
pub open spec fn spec_cell_within(cell: TrackCell, count: usize) -> bool {
    cell.data_index < count && cell.grid_index >= 1
}

/// The cells that a plan gives to the grid lie within the data.
pub proof fn lemma_plan_cells_within_data<'a>(frame: AxisFrame<'a>, plan: AxisPlan<'a>)
    requires
        frame.is_plan(plan),
    ensures
        forall|i: int|
            0 <= i < spec_plan_cells(plan).len() ==> spec_cell_within(
                #[trigger] spec_plan_cells(plan)[i],
                frame.count,
            ),
{
    if plan.track is Some {
        let track = plan.track.unwrap();
        track.lemma_cells(track.end as int);
        assert forall|i: int| 0 <= i < spec_plan_cells(plan).len() implies spec_cell_within(
            #[trigger] spec_plan_cells(plan)[i],
            frame.count,
        ) by {
            assert(track.is_cell_before(track.spec_cells(track.end as int)[i], track.end as int));
        }
    }
}

/// Where the rows and columns lie within the data, so do the value cells in
/// which they cross.
pub proof fn lemma_value_cells_within_data(
    columns: Seq<TrackCell>,
    rows: Seq<TrackCell>,
    stripe_offset: int,
    column_count: usize,
    row_count: usize,
)
    requires
        forall|i: int| 0 <= i < columns.len() ==> spec_cell_within(#[trigger] columns[i], column_count),
        forall|j: int| 0 <= j < rows.len() ==> spec_cell_within(#[trigger] rows[j], row_count),
    ensures
        forall|k: int|
            0 <= k < spec_value_cells(columns, rows, stripe_offset).len() ==> spec_value_within(
                #[trigger] spec_value_cells(columns, rows, stripe_offset)[k],
                column_count,
                row_count,
            ),
{
    lemma_value_cells(columns, rows, stripe_offset);
    assert forall|k: int|
        0 <= k < spec_value_cells(columns, rows, stripe_offset).len() implies spec_value_within(
        #[trigger] spec_value_cells(columns, rows, stripe_offset)[k],
        column_count,
        row_count,
    ) by {
        let cell = spec_value_cells(columns, rows, stripe_offset)[k];
        assert(is_crossing_of(cell, columns, rows, stripe_offset));
        let (i, j) = choose|i: int, j: int|
            0 <= i < columns.len() && 0 <= j < rows.len() && cell == #[trigger] spec_value_cell(
                columns[i],
                rows[j],
                stripe_offset,
            ) && !cell.clip.spec_is_degenerate();
        assert(spec_cell_within(columns[i], column_count));
        assert(spec_cell_within(rows[j], row_count));
    }
}

/// Where the rows and columns lie within the data, the header cells are the
/// corner and the headers of rows and columns of the data.
pub proof fn lemma_header_cells_within_data(
    columns: HeaderBand,
    rows: HeaderBand,
    column_cells: Seq<TrackCell>,
    row_cells: Seq<TrackCell>,
    stripe_offset: int,
    column_count: usize,
    row_count: usize,
)
    requires
        forall|i: int|
            0 <= i < column_cells.len() ==> spec_cell_within(
                #[trigger] column_cells[i],
                column_count,
            ),
        forall|j: int| 0 <= j < row_cells.len() ==> spec_cell_within(#[trigger] row_cells[j], row_count),
    ensures
        forall|k: int|
            0 <= k < spec_header_cells(
                columns,
                rows,
                column_cells,
                row_cells,
                stripe_offset,
            ).len() ==> spec_header_within(
                #[trigger] spec_header_cells(
                    columns,
                    rows,
                    column_cells,
                    row_cells,
                    stripe_offset,
                )[k],
                column_count,
                row_count,
            ),
{
    lemma_column_headers(column_cells, rows);
    lemma_row_headers(columns, row_cells, stripe_offset);
    let first = spec_seen_header(spec_corner(columns, rows));
    let across = spec_column_headers(column_cells, rows);
    let down = spec_row_headers(columns, row_cells, stripe_offset);
    let all = spec_header_cells(columns, rows, column_cells, row_cells, stripe_offset);
    assert(all == first + across + down);
    assert forall|k: int| 0 <= k < all.len() implies spec_header_within(
        #[trigger] all[k],
        column_count,
        row_count,
    ) by {
        let cell = all[k];
        if k < first.len() {
            assert(cell == spec_corner(columns, rows));
        } else if k < first.len() + across.len() {
            assert(cell == across[k - first.len()]);
            assert(is_column_header_of(cell, column_cells, rows));
            let i = choose|i: int|
                0 <= i < column_cells.len() && cell == #[trigger] spec_column_header(
                    column_cells[i],
                    rows,
                ) && !cell.clip.spec_is_degenerate();
            assert(spec_cell_within(column_cells[i], column_count));
        } else {
            assert(cell == down[k - first.len() - across.len()]);
            assert(is_row_header_of(cell, columns, row_cells, stripe_offset));
            let j = choose|j: int|
                0 <= j < row_cells.len() && cell == #[trigger] spec_row_header(
                    columns,
                    row_cells[j],
                    stripe_offset,
                ) && !cell.clip.spec_is_degenerate();
            assert(spec_cell_within(row_cells[j], row_count));
        }
    }
}

/// Whatever a frame shows lies within the data and can be seen: each value
/// cell shows a row and a column of the data, and each header is the corner or
/// heads a row or a column of the data.
pub proof fn lemma_frame_layout_within_data<'a>(
    columns: AxisFrame<'a>,
    rows: AxisFrame<'a>,
    layout: FrameLayout,
)
    requires
        is_frame_layout(columns, rows, layout),
    ensures
        forall|k: int|
            0 <= k < layout.values@.len() ==> spec_value_within(
                #[trigger] layout.values@[k],
                columns.count,
                rows.count,
            ),
        forall|k: int|
            0 <= k < layout.headers@.len() ==> spec_header_within(
                #[trigger] layout.headers@[k],
                columns.count,
                rows.count,
            ),
{
    let column_plan = columns.spec_plan(layout.first_column, layout.last_column);
    let row_plan = rows.spec_plan(layout.first_row, layout.last_row);
    lemma_plan_cells_within_data(columns, column_plan);
    lemma_plan_cells_within_data(rows, row_plan);
    lemma_value_cells_within_data(
        spec_plan_cells(column_plan),
        spec_plan_cells(row_plan),
        spec_stripe_offset(row_plan),
        columns.count,
        rows.count,
    );
    if column_plan.track is Some && row_plan.track is Some {
        lemma_header_cells_within_data(
            column_plan.track.unwrap().spec_header(),
            row_plan.track.unwrap().spec_header(),
            spec_plan_cells(column_plan),
            spec_plan_cells(row_plan),
            spec_stripe_offset(row_plan),
            columns.count,
            rows.count,
        );
    }
}

fn band_extent(band: &HeaderBand) -> (r: i128)
    requires
        -START_LIMIT <= band.span.min <= band.span.max <= START_LIMIT,
        band.span.max - band.span.min < STEP_LIMIT,
        band.clip.min >= band.span.min,
        band.clip.max <= band.span.max,
    ensures
        r == spec_band_extent(*band),
        0 <= r <= STEP_LIMIT,
{
    if band.clip.is_empty() {
        0
    } else {
        band.clip.max - band.clip.min + LINE_WIDTH as i128
    }
}

/// Lay out one frame.
///
/// Each axis is windowed at the two edges of the viewport, and the positions in
/// between are laid out and crossed into cells. A frame has no layout where an
/// axis has no sizes at all.
pub fn layout_frame<'a>(columns: &AxisFrame<'a>, rows: &AxisFrame<'a>) -> (r: Option<FrameLayout>)
    ensures
        r is None <==> columns.sizes@.len() == 0 || rows.sizes@.len() == 0,
        r matches Some(layout) ==> is_frame_layout(*columns, *rows, layout),
{
    let column_plan = match columns.plan() {
        Some(plan) => plan,
        None => {
            return None;
        },
    };
    let row_plan = match rows.plan() {
        Some(plan) => plan,
        None => {
            return None;
        },
    };
    let stripe_offset: usize = row_plan.first.position - row_plan.first.filtered;
    let (column_cells, column_extent): (Vec<TrackCell>, i128) = match &column_plan.track {
        Some(track) => track.walk(),
        None => (Vec::new(), 0),
    };
    let (row_cells, row_extent): (Vec<TrackCell>, i128) = match &row_plan.track {
        Some(track) => track.walk(),
        None => (Vec::new(), 0),
    };
    let mut headers: Vec<HeaderCell> = Vec::new();
    let mut across_length: i128 = 0;
    let mut down_length: i128 = 0;
    match (&column_plan.track, &row_plan.track) {
        (Some(c), Some(r)) => {
            let column_band = c.header();
            let row_band = r.header();
            headers = header_cells(&column_band, &row_band, &column_cells, &row_cells, stripe_offset);
            if !row_band.clip.is_empty() {
                across_length = band_extent(&column_band) + column_extent;
            }
            if !column_band.clip.is_empty() {
                down_length = band_extent(&row_band) + row_extent;
            }
        },
        _ => {},
    }
    let values = value_cells(&column_cells, &row_cells, stripe_offset);
    let lines = GridLines {
        across: Span { min: columns.pinned as i128, max: columns.pinned as i128 + across_length },
        across_at: rows.pinned as i128 + rows.header_size as i128 + rows.padding as i128,
        down: Span { min: rows.pinned as i128, max: rows.pinned as i128 + down_length },
        down_at: columns.pinned as i128 + columns.header_size as i128 + columns.padding as i128,
    };
    Some(
        FrameLayout {
            cell_origin: CellIndex {
                row: row_plan.first.position,
                column: column_plan.first.position,
            },
            first_column: column_plan.first,
            last_column: column_plan.last,
            first_row: row_plan.first,
            last_row: row_plan.last,
            headers,
            values,
            view: Rect::from_spans(column_plan.view, row_plan.view),
            body: Rect::from_spans(column_plan.body, row_plan.body),
            lines,
        },
    )
}

} // verus!
