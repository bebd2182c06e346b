//! Addresses of cells, the size of a table, and what a grid position shows.

use vstd::prelude::*;
use vstd::std_specs::convert::FromSpecImpl;

verus! {

/// The address of a cell by data indices.
#[derive(Debug, Clone, Copy, PartialEq, Eq, Structural, Hash, PartialOrd, Ord)]
pub struct CellIndex {
    pub row: usize,
    pub column: usize,
}

impl Default for CellIndex {
    fn default() -> (r: Self)
        ensures
            r.row == 0,
            r.column == 0,
    {
        CellIndex { row: 0, column: 0 }
    }
}

impl From<(usize, usize)> for CellIndex {
    /// The tuple is `(column, row)`, in the order of `(x, y)`.
    fn from(value: (usize, usize)) -> (r: Self) {
        CellIndex { column: value.0, row: value.1 }
    }
}

impl FromSpecImpl<(usize, usize)> for CellIndex {
    open spec fn obeys_from_spec() -> bool {
        true
    }

    open spec fn from_spec(value: (usize, usize)) -> Self {
        CellIndex { column: value.0, row: value.1 }
    }
}

/// How many rows and columns a data source holds.
#[derive(Debug, Clone, Copy, PartialEq, Eq, Structural, Hash, PartialOrd, Ord)]
pub struct TableDimensions {
    pub row_count: usize,
    pub column_count: usize,
}

impl Default for TableDimensions {
    fn default() -> (r: Self)
        ensures
            r.row_count == 0,
            r.column_count == 0,
    {
        TableDimensions { row_count: 0, column_count: 0 }
    }
}

impl TableDimensions {
    /// A table without rows or without columns shows nothing.
    pub fn is_empty(&self) -> (r: bool)
        ensures
            r == (self.row_count == 0 || self.column_count == 0),
    {
        self.row_count == 0 || self.column_count == 0
    }
}

impl From<(usize, usize)> for TableDimensions {
    /// The tuple is `(column_count, row_count)`, in the order of `(x, y)`.
    fn from(value: (usize, usize)) -> (r: Self) {
        TableDimensions { column_count: value.0, row_count: value.1 }
    }
}

impl FromSpecImpl<(usize, usize)> for TableDimensions {
    open spec fn obeys_from_spec() -> bool {
        true
    }

    open spec fn from_spec(value: (usize, usize)) -> Self {
        TableDimensions { column_count: value.0, row_count: value.1 }
    }
}

/// What the user did to the table during one frame.
#[derive(Debug, Clone, Copy, PartialEq, Eq, Structural)]
pub enum Action {
    /// The primary button was released over a value cell.
    CellClicked(CellIndex),
    /// A column header was dropped onto another column header. The caller
    /// either updates its column ordering, moves the data, or ignores it.
    ColumnReorder { from: usize, to: usize },
    /// A row header was dropped onto another row header. The caller either
    /// updates its row ordering, moves the data, or ignores it.
    RowReorder { from: usize, to: usize },
}

/// What a grid position shows. Grid row 0 is the header row and grid column 0
/// is the header column.
#[derive(Debug, Clone, Copy, PartialEq, Eq, Structural, Hash)]
pub enum CellKind {
    Corner,
    ColumnHeader,
    RowHeader,
    Value,
}

/// Whether a grid row is the header row or holds values.
#[derive(Debug, Clone, Copy, PartialEq, Eq, Structural, Hash)]
pub enum RowKind {
    HeaderRow,
    ValuesRow,
}

/// The kind of the cell at a grid position.
pub open spec fn spec_cell_kind(grid_row: int, grid_column: int) -> CellKind {
    if grid_row == 0 && grid_column == 0 {
        CellKind::Corner
    } else if grid_row == 0 {
        CellKind::ColumnHeader
    } else if grid_column == 0 {
        CellKind::RowHeader
    } else {
        CellKind::Value
    }
}

/// Classify a grid position.
pub fn build_cell_kind(grid_row_index: usize, grid_column_index: usize) -> (kind: CellKind)
    ensures
        kind == spec_cell_kind(grid_row_index as int, grid_column_index as int),
{
    if grid_row_index == 0 && grid_column_index == 0 {
        CellKind::Corner
    } else if grid_row_index == 0 {
        CellKind::ColumnHeader
    } else if grid_column_index == 0 {
        CellKind::RowHeader
    } else {
        CellKind::Value
    }
}

/// The kind of a grid row.
pub open spec fn spec_row_kind(grid_row: int) -> RowKind {
    if grid_row == 0 {
        RowKind::HeaderRow
    } else {
        RowKind::ValuesRow
    }
}

/// Classify a grid row.
pub fn build_row_kind(grid_row_index: usize) -> (kind: RowKind)
    ensures
        kind == spec_row_kind(grid_row_index as int),
{
    if grid_row_index == 0 {
        RowKind::HeaderRow
    } else {
        RowKind::ValuesRow
    }
}

} // verus!
