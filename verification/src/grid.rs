//! The grid layout walker: the cells of one frame, made from the layout of the
//! two axes.
//!
//! Grid row 0 is the header row and grid column 0 the header column. Both stay
//! pinned while the values scroll beneath them.

use vstd::prelude::*;
use crate::geometry::Rect;
use crate::index::{build_cell_kind, spec_cell_kind, CellIndex, CellKind};
use crate::track::{HeaderBand, TrackCell};

verus! {

/// The corner or the header of a row or column, laid out on the screen.
#[derive(Debug, Clone, Copy, PartialEq, Eq, Structural)]
pub struct HeaderCell {
    pub kind: CellKind,
    pub grid_row: usize,
    pub grid_column: usize,
    /// The data index of the row or column of the header; 0 for the corner.
    pub data_index: usize,
    /// The inner size of the row or column of the header; 0 for the corner.
    pub size: u32,
    /// The outside of the cell.
    pub rect: Rect,
    /// What can be seen of the cell.
    pub clip: Rect,
    /// The inside of the cell, where its content goes.
    pub inner_rect: Rect,
    /// What can be seen of the inside.
    pub inner_clip: Rect,
    /// Where the resize handle of the header can be grabbed: around its right
    /// edge for a column header, around its bottom edge for a row header. The
    /// corner has none.
    pub handle: Option<Rect>,
    /// Whether the row of the header has the faint background of every second
    /// row. The header row has none.
    pub striped: bool,
}

/// A value cell, laid out on the screen.
#[derive(Debug, Clone, Copy, PartialEq, Eq, Structural)]
pub struct ValueCell {
    /// The data indices of the cell.
    pub index: CellIndex,
    pub grid_row: usize,
    pub grid_column: usize,
    /// The outside of the cell.
    pub rect: Rect,
    /// What can be seen of the cell.
    pub clip: Rect,
    /// The inside of the cell, where its content goes.
    pub inner_rect: Rect,
    /// What can be seen of the inside.
    pub inner_clip: Rect,
    /// Whether the row of the cell has the faint background of every second
    /// row.
    pub striped: bool,
}

/// Whether a row is striped. `stripe_offset` is the number of rows that are
/// shown before the first row of the frame; rows are counted from the header
/// row on, and every second one is striped.
pub open spec fn spec_striped(stripe_offset: int, shown_before: int) -> bool {
    (stripe_offset + shown_before) % 2 == 1
}

/// Decide whether a row is striped.
pub fn striped(stripe_offset: usize, shown_before: usize) -> (r: bool)
    ensures
        r == spec_striped(stripe_offset as int, shown_before as int),
{
    (stripe_offset % 2 + shown_before % 2) % 2 == 1
}

/// The corner: where the header row and the header column meet. Like every
/// header, it is classified by its place in the grid.
pub open spec fn spec_corner(columns: HeaderBand, rows: HeaderBand) -> HeaderCell {
    let clip = Rect::spec_from_spans(columns.clip, rows.clip);
    let inner_rect = Rect::spec_from_spans(columns.inner, rows.inner);
    HeaderCell {
        kind: spec_cell_kind(0, 0),
        grid_row: 0,
        grid_column: 0,
        data_index: 0,
        size: 0,
        rect: Rect::spec_from_spans(columns.span, rows.span),
        clip,
        inner_rect,
        inner_clip: inner_rect.spec_intersect(clip),
        handle: None,
        striped: false,
    }
}

/// The header of a column: it lies in the header row, across its column.
pub open spec fn spec_column_header(column: TrackCell, rows: HeaderBand) -> HeaderCell {
    let clip = Rect::spec_from_spans(column.header_clip, rows.clip);
    let inner_rect = Rect::spec_from_spans(column.inner, rows.inner);
    HeaderCell {
        kind: spec_cell_kind(0, column.grid_index as int),
        grid_row: 0,
        grid_column: column.grid_index,
        data_index: column.data_index,
        size: column.size,
        rect: Rect::spec_from_spans(column.span, rows.span),
        clip,
        inner_rect,
        inner_clip: inner_rect.spec_intersect(clip),
        handle: Some(Rect::spec_from_spans(column.handle, rows.span)),
        striped: false,
    }
}

/// The header of a row: it lies in the header column, down its row.
pub open spec fn spec_row_header(columns: HeaderBand, row: TrackCell, stripe_offset: int)
    -> HeaderCell {
    let clip = Rect::spec_from_spans(columns.clip, row.header_clip);
    let inner_rect = Rect::spec_from_spans(columns.inner, row.inner);
    HeaderCell {
        kind: spec_cell_kind(row.grid_index as int, 0),
        grid_row: row.grid_index,
        grid_column: 0,
        data_index: row.data_index,
        size: row.size,
        rect: Rect::spec_from_spans(columns.span, row.span),
        clip,
        inner_rect,
        inner_clip: inner_rect.spec_intersect(clip),
        handle: Some(Rect::spec_from_spans(columns.span, row.handle)),
        striped: spec_striped(stripe_offset, row.shown_before as int),
    }
}

/// The value cell where a row and a column cross.
pub open spec fn spec_value_cell(column: TrackCell, row: TrackCell, stripe_offset: int)
    -> ValueCell {
    let clip = Rect::spec_from_spans(column.value_clip, row.value_clip);
    let inner_rect = Rect::spec_from_spans(column.inner, row.inner);
    ValueCell {
        index: CellIndex { row: row.data_index, column: column.data_index },
        grid_row: row.grid_index,
        grid_column: column.grid_index,
        rect: Rect::spec_from_spans(column.span, row.span),
        clip,
        inner_rect,
        inner_clip: inner_rect.spec_intersect(clip),
        striped: spec_striped(stripe_offset, row.shown_before as int),
    }
}

/// The cells of the tracks of a frame are numbered from 1, so the headers made
/// from them are column headers and row headers, the corner is the corner, and
/// where a row and a column cross there is a value.
pub proof fn lemma_kinds_of_cells(
    columns: HeaderBand,
    rows: HeaderBand,
    column: TrackCell,
    row: TrackCell,
    stripe_offset: int,
)
    requires
        column.grid_index >= 1,
        row.grid_index >= 1,
    ensures
        spec_corner(columns, rows).kind == CellKind::Corner,
        spec_column_header(column, rows).kind == CellKind::ColumnHeader,
        spec_row_header(columns, row, stripe_offset).kind == CellKind::RowHeader,
        spec_cell_kind(
            spec_value_cell(column, row, stripe_offset).grid_row as int,
            spec_value_cell(column, row, stripe_offset).grid_column as int,
        ) == CellKind::Value,
{
}

/// What can be seen of a cell is what the clips of its row and of its column
/// leave of it: a header is cut by the clips of the headers, a value by the
/// clips of the values.
pub proof fn lemma_clips_of_cells(
    columns: HeaderBand,
    rows: HeaderBand,
    column: TrackCell,
    row: TrackCell,
    stripe_offset: int,
)
    ensures
        spec_corner(columns, rows).clip.spec_is_degenerate() <==> columns.clip.spec_is_empty()
            || rows.clip.spec_is_empty(),
        spec_column_header(column, rows).clip.spec_is_degenerate()
            <==> column.header_clip.spec_is_empty() || rows.clip.spec_is_empty(),
        spec_row_header(columns, row, stripe_offset).clip.spec_is_degenerate()
            <==> columns.clip.spec_is_empty() || row.header_clip.spec_is_empty(),
        spec_value_cell(column, row, stripe_offset).clip.spec_is_degenerate()
            <==> column.value_clip.spec_is_empty() || row.value_clip.spec_is_empty(),
{
}

/// A header cell if anything of it can be seen, else nothing: a cell whose
/// clip has no inside is left out altogether.
pub open spec fn spec_seen_header(cell: HeaderCell) -> Seq<HeaderCell> {
    if cell.clip.spec_is_degenerate() {
        Seq::empty()
    } else {
        seq![cell]
    }
}

/// A value cell if anything of it can be seen, else nothing.
pub open spec fn spec_seen_value(cell: ValueCell) -> Seq<ValueCell> {
    if cell.clip.spec_is_degenerate() {
        Seq::empty()
    } else {
        seq![cell]
    }
}

/// The headers of the given columns of which anything can be seen, in order.
pub open spec fn spec_column_headers(columns: Seq<TrackCell>, rows: HeaderBand) -> Seq<HeaderCell>
    decreases columns.len(),
{
    if columns.len() == 0 {
        Seq::empty()
    } else {
        spec_column_headers(columns.drop_last(), rows) + spec_seen_header(
            spec_column_header(columns.last(), rows),
        )
    }
}

/// The headers of the given rows of which anything can be seen, in order.
pub open spec fn spec_row_headers(columns: HeaderBand, rows: Seq<TrackCell>, stripe_offset: int)
    -> Seq<HeaderCell>
    decreases rows.len(),
{
    if rows.len() == 0 {
        Seq::empty()
    } else {
        spec_row_headers(columns, rows.drop_last(), stripe_offset) + spec_seen_header(
            spec_row_header(columns, rows.last(), stripe_offset),
        )
    }
}

/// The header cells of a frame: the corner, then the column headers from left
/// to right, then the row headers from top to bottom.
pub open spec fn spec_header_cells(
    columns: HeaderBand,
    rows: HeaderBand,
    column_cells: Seq<TrackCell>,
    row_cells: Seq<TrackCell>,
    stripe_offset: int,
) -> Seq<HeaderCell> {
    spec_seen_header(spec_corner(columns, rows)) + spec_column_headers(column_cells, rows)
        + spec_row_headers(columns, row_cells, stripe_offset)
}

/// The value cells of one row of which anything can be seen, from left to
/// right.
pub open spec fn spec_value_row(columns: Seq<TrackCell>, row: TrackCell, stripe_offset: int)
    -> Seq<ValueCell>
    decreases columns.len(),
{
    if columns.len() == 0 {
        Seq::empty()
    } else {
        spec_value_row(columns.drop_last(), row, stripe_offset) + spec_seen_value(
            spec_value_cell(columns.last(), row, stripe_offset),
        )
    }
}

/// The value cells of a frame, row by row from top to bottom.
pub open spec fn spec_value_cells(
    columns: Seq<TrackCell>,
    rows: Seq<TrackCell>,
    stripe_offset: int,
) -> Seq<ValueCell>
    decreases rows.len(),
{
    if rows.len() == 0 {
        Seq::empty()
    } else {
        spec_value_cells(columns, rows.drop_last(), stripe_offset) + spec_value_row(
            columns,
            rows.last(),
            stripe_offset,
        )
    }
}

/// `cell` is the header of one of the columns, and something of it can be
/// seen.
pub open spec fn is_column_header_of(cell: HeaderCell, columns: Seq<TrackCell>, rows: HeaderBand)
    -> bool {
    exists|i: int|
        0 <= i < columns.len() && cell == #[trigger] spec_column_header(columns[i], rows)
            && !cell.clip.spec_is_degenerate()
}

/// `cell` is the header of one of the rows, and something of it can be seen.
pub open spec fn is_row_header_of(
    cell: HeaderCell,
    columns: HeaderBand,
    rows: Seq<TrackCell>,
    stripe_offset: int,
) -> bool {
    exists|j: int|
        0 <= j < rows.len() && cell == #[trigger] spec_row_header(columns, rows[j], stripe_offset)
            && !cell.clip.spec_is_degenerate()
}

/// `cell` is where one of the rows crosses one of the columns, and something
/// of it can be seen.
pub open spec fn is_crossing_of(
    cell: ValueCell,
    columns: Seq<TrackCell>,
    rows: Seq<TrackCell>,
    stripe_offset: int,
) -> bool {
    exists|i: int, j: int|
        0 <= i < columns.len() && 0 <= j < rows.len() && cell == #[trigger] spec_value_cell(
            columns[i],
            rows[j],
            stripe_offset,
        ) && !cell.clip.spec_is_degenerate()
}

/// Every column header of a frame is the header of one of its columns.
pub proof fn lemma_column_headers(columns: Seq<TrackCell>, rows: HeaderBand)
    ensures
        forall|k: int|
            0 <= k < spec_column_headers(columns, rows).len() ==> is_column_header_of(
                #[trigger] spec_column_headers(columns, rows)[k],
                columns,
                rows,
            ),
    decreases columns.len(),
{
    if columns.len() > 0 {
        let front = columns.drop_last();
        lemma_column_headers(front, rows);
        let before = spec_column_headers(front, rows);
        assert forall|k: int| 0 <= k < spec_column_headers(columns, rows).len() implies is_column_header_of(
            #[trigger] spec_column_headers(columns, rows)[k],
            columns,
            rows,
        ) by {
            let cell = spec_column_headers(columns, rows)[k];
            if k < before.len() {
                assert(is_column_header_of(before[k], front, rows));
                let i = choose|i: int|
                    0 <= i < front.len() && cell == #[trigger] spec_column_header(front[i], rows)
                        && !cell.clip.spec_is_degenerate();
                assert(cell == spec_column_header(columns[i], rows));
            } else {
                assert(cell == spec_column_header(columns[columns.len() - 1], rows));
            }
        }
    }
}

/// Every row header of a frame is the header of one of its rows.
pub proof fn lemma_row_headers(columns: HeaderBand, rows: Seq<TrackCell>, stripe_offset: int)
    ensures
        forall|k: int|
            0 <= k < spec_row_headers(columns, rows, stripe_offset).len() ==> is_row_header_of(
                #[trigger] spec_row_headers(columns, rows, stripe_offset)[k],
                columns,
                rows,
                stripe_offset,
            ),
    decreases rows.len(),
{
    if rows.len() > 0 {
        let front = rows.drop_last();
        lemma_row_headers(columns, front, stripe_offset);
        let before = spec_row_headers(columns, front, stripe_offset);
        assert forall|k: int|
            0 <= k < spec_row_headers(columns, rows, stripe_offset).len() implies is_row_header_of(
            #[trigger] spec_row_headers(columns, rows, stripe_offset)[k],
            columns,
            rows,
            stripe_offset,
        ) by {
            let cell = spec_row_headers(columns, rows, stripe_offset)[k];
            if k < before.len() {
                assert(is_row_header_of(before[k], columns, front, stripe_offset));
                let j = choose|j: int|
                    0 <= j < front.len() && cell == #[trigger] spec_row_header(
                        columns,
                        front[j],
                        stripe_offset,
                    ) && !cell.clip.spec_is_degenerate();
                assert(cell == spec_row_header(columns, rows[j], stripe_offset));
            } else {
                assert(cell == spec_row_header(columns, rows[rows.len() - 1], stripe_offset));
            }
        }
    }
}

/// Every value cell of one row is where that row crosses one of the columns.
pub proof fn lemma_value_row(columns: Seq<TrackCell>, row: TrackCell, stripe_offset: int)
    ensures
        forall|k: int|
            0 <= k < spec_value_row(columns, row, stripe_offset).len() ==> is_crossing_of(
                #[trigger] spec_value_row(columns, row, stripe_offset)[k],
                columns,
                seq![row],
                stripe_offset,
            ),
    decreases columns.len(),
{
    if columns.len() > 0 {
        let front = columns.drop_last();
        lemma_value_row(front, row, stripe_offset);
        let before = spec_value_row(front, row, stripe_offset);
        assert forall|k: int|
            0 <= k < spec_value_row(columns, row, stripe_offset).len() implies is_crossing_of(
            #[trigger] spec_value_row(columns, row, stripe_offset)[k],
            columns,
            seq![row],
            stripe_offset,
        ) by {
            let cell = spec_value_row(columns, row, stripe_offset)[k];
            if k < before.len() {
                assert(is_crossing_of(before[k], front, seq![row], stripe_offset));
                let (i, j) = choose|i: int, j: int|
                    0 <= i < front.len() && 0 <= j < seq![row].len() && cell
                        == #[trigger] spec_value_cell(front[i], seq![row][j], stripe_offset)
                        && !cell.clip.spec_is_degenerate();
                assert(cell == spec_value_cell(columns[i], seq![row][0], stripe_offset));
            } else {
                assert(cell == spec_value_cell(
                    columns[columns.len() - 1],
                    seq![row][0],
                    stripe_offset,
                ));
            }
        }
    }
}

/// Every value cell of a frame is where one of its rows crosses one of its
/// columns.
pub proof fn lemma_value_cells(columns: Seq<TrackCell>, rows: Seq<TrackCell>, stripe_offset: int)
    ensures
        forall|k: int|
            0 <= k < spec_value_cells(columns, rows, stripe_offset).len() ==> is_crossing_of(
                #[trigger] spec_value_cells(columns, rows, stripe_offset)[k],
                columns,
                rows,
                stripe_offset,
            ),
    decreases rows.len(),
{
    if rows.len() > 0 {
        let front = rows.drop_last();
        let row = rows.last();
        lemma_value_cells(columns, front, stripe_offset);
        lemma_value_row(columns, row, stripe_offset);
        let before = spec_value_cells(columns, front, stripe_offset);
        let here = spec_value_row(columns, row, stripe_offset);
        assert forall|k: int|
            0 <= k < spec_value_cells(columns, rows, stripe_offset).len() implies is_crossing_of(
            #[trigger] spec_value_cells(columns, rows, stripe_offset)[k],
            columns,
            rows,
            stripe_offset,
        ) by {
            let cell = spec_value_cells(columns, rows, stripe_offset)[k];
            if k < before.len() {
                assert(is_crossing_of(before[k], columns, front, stripe_offset));
                let (i, j) = choose|i: int, j: int|
                    0 <= i < columns.len() && 0 <= j < front.len() && cell
                        == #[trigger] spec_value_cell(columns[i], front[j], stripe_offset)
                        && !cell.clip.spec_is_degenerate();
                assert(cell == spec_value_cell(columns[i], rows[j], stripe_offset));
            } else {
                assert(cell == here[k - before.len()]);
                assert(is_crossing_of(here[k - before.len()], columns, seq![row], stripe_offset));
                let (i, j) = choose|i: int, j: int|
                    0 <= i < columns.len() && 0 <= j < seq![row].len() && cell
                        == #[trigger] spec_value_cell(columns[i], seq![row][j], stripe_offset)
                        && !cell.clip.spec_is_degenerate();
                assert(cell == spec_value_cell(columns[i], rows[rows.len() - 1], stripe_offset));
            }
        }
    }
}

fn corner(columns: &HeaderBand, rows: &HeaderBand) -> (cell: HeaderCell)
    ensures
        cell == spec_corner(*columns, *rows),
{
    let clip = Rect::from_spans(columns.clip, rows.clip);
    let inner_rect = Rect::from_spans(columns.inner, rows.inner);
    HeaderCell {
        kind: build_cell_kind(0, 0),
        grid_row: 0,
        grid_column: 0,
        data_index: 0,
        size: 0,
        rect: Rect::from_spans(columns.span, rows.span),
        clip,
        inner_rect,
        inner_clip: inner_rect.intersect(&clip),
        handle: None,
        striped: false,
    }
}

fn column_header(column: &TrackCell, rows: &HeaderBand) -> (cell: HeaderCell)
    ensures
        cell == spec_column_header(*column, *rows),
{
    let clip = Rect::from_spans(column.header_clip, rows.clip);
    let inner_rect = Rect::from_spans(column.inner, rows.inner);
    HeaderCell {
        kind: build_cell_kind(0, column.grid_index),
        grid_row: 0,
        grid_column: column.grid_index,
        data_index: column.data_index,
        size: column.size,
        rect: Rect::from_spans(column.span, rows.span),
        clip,
        inner_rect,
        inner_clip: inner_rect.intersect(&clip),
        handle: Some(Rect::from_spans(column.handle, rows.span)),
        striped: false,
    }
}

fn row_header(columns: &HeaderBand, row: &TrackCell, stripe_offset: usize) -> (cell: HeaderCell)
    ensures
        cell == spec_row_header(*columns, *row, stripe_offset as int),
{
    let clip = Rect::from_spans(columns.clip, row.header_clip);
    let inner_rect = Rect::from_spans(columns.inner, row.inner);
    HeaderCell {
        kind: build_cell_kind(row.grid_index, 0),
        grid_row: row.grid_index,
        grid_column: 0,
        data_index: row.data_index,
        size: row.size,
        rect: Rect::from_spans(columns.span, row.span),
        clip,
        inner_rect,
        inner_clip: inner_rect.intersect(&clip),
        handle: Some(Rect::from_spans(columns.span, row.handle)),
        striped: striped(stripe_offset, row.shown_before),
    }
}

fn value_cell(column: &TrackCell, row: &TrackCell, stripe_offset: usize) -> (cell: ValueCell)
    ensures
        cell == spec_value_cell(*column, *row, stripe_offset as int),
{
    let clip = Rect::from_spans(column.value_clip, row.value_clip);
    let inner_rect = Rect::from_spans(column.inner, row.inner);
    ValueCell {
        index: CellIndex { row: row.data_index, column: column.data_index },
        grid_row: row.grid_index,
        grid_column: column.grid_index,
        rect: Rect::from_spans(column.span, row.span),
        clip,
        inner_rect,
        inner_clip: inner_rect.intersect(&clip),
        striped: striped(stripe_offset, row.shown_before),
    }
}

/// Lay out the header cells of a frame from the layout of its two axes. Cells
/// of which nothing can be seen are left out.
pub fn header_cells(
    columns: &HeaderBand,
    rows: &HeaderBand,
    column_cells: &Vec<TrackCell>,
    row_cells: &Vec<TrackCell>,
    stripe_offset: usize,
) -> (cells: Vec<HeaderCell>)
    ensures
        cells@ == spec_header_cells(
            *columns,
            *rows,
            column_cells@,
            row_cells@,
            stripe_offset as int,
        ),
{
    let mut cells: Vec<HeaderCell> = Vec::new();
    let first = corner(columns, rows);
    if !first.clip.is_degenerate() {
        cells.push(first);
    }
    let ghost corner_part = cells@;
    let mut i: usize = 0;
    while i < column_cells.len()
        invariant
            i <= column_cells.len(),
            corner_part == spec_seen_header(spec_corner(*columns, *rows)),
            cells@ == corner_part + spec_column_headers(column_cells@.take(i as int), *rows),
        decreases column_cells.len() - i,
    {
        let cell = column_header(&column_cells[i], rows);
        assert(column_cells@.take(i + 1).drop_last() == column_cells@.take(i as int));
        if !cell.clip.is_degenerate() {
            cells.push(cell);
        }
        i += 1;
    }
    assert(column_cells@.take(i as int) == column_cells@);
    let ghost row_part = cells@;
    let mut j: usize = 0;
    while j < row_cells.len()
        invariant
            j <= row_cells.len(),
            row_part == spec_seen_header(spec_corner(*columns, *rows)) + spec_column_headers(
                column_cells@,
                *rows,
            ),
            cells@ == row_part + spec_row_headers(
                *columns,
                row_cells@.take(j as int),
                stripe_offset as int,
            ),
        decreases row_cells.len() - j,
    {
        let cell = row_header(columns, &row_cells[j], stripe_offset);
        assert(row_cells@.take(j + 1).drop_last() == row_cells@.take(j as int));
        if !cell.clip.is_degenerate() {
            cells.push(cell);
        }
        j += 1;
    }
    assert(row_cells@.take(j as int) == row_cells@);
    cells
}

/// Lay out the value cells of a frame from the layout of its two axes, row by
/// row. Cells of which nothing can be seen are left out.
pub fn value_cells(
    column_cells: &Vec<TrackCell>,
    row_cells: &Vec<TrackCell>,
    stripe_offset: usize,
) -> (cells: Vec<ValueCell>)
    ensures
        cells@ == spec_value_cells(column_cells@, row_cells@, stripe_offset as int),
{
    let mut cells: Vec<ValueCell> = Vec::new();
    let mut j: usize = 0;
    while j < row_cells.len()
        invariant
            j <= row_cells.len(),
            cells@ == spec_value_cells(
                column_cells@,
                row_cells@.take(j as int),
                stripe_offset as int,
            ),
        decreases row_cells.len() - j,
    {
        let ghost above = cells@;
        let mut i: usize = 0;
        while i < column_cells.len()
            invariant
                i <= column_cells.len(),
                j < row_cells.len(),
                cells@ == above + spec_value_row(
                    column_cells@.take(i as int),
                    row_cells@[j as int],
                    stripe_offset as int,
                ),
            decreases column_cells.len() - i,
        {
            let cell = value_cell(&column_cells[i], &row_cells[j], stripe_offset);
            assert(column_cells@.take(i + 1).drop_last() == column_cells@.take(i as int));
            if !cell.clip.is_degenerate() {
                cells.push(cell);
            }
            i += 1;
        }
        assert(column_cells@.take(i as int) == column_cells@);
        assert(row_cells@.take(j + 1).drop_last() == row_cells@.take(j as int));
        j += 1;
    }
    assert(row_cells@.take(j as int) == row_cells@);
    cells
}

} // verus!
