//! Where the table gets its data from.

use vstd::prelude::*;
use crate::index::TableDimensions;

verus! {

/// A source of the data that a table shows.
///
/// A source may answer differently each time it is asked, so the engine asks
/// once per frame and works on what it was told.
pub trait DeferredTableDataSource {
    /// Called once per frame, before the source is asked anything.
    fn prepare(&mut self) {
    }

    /// Called once per frame, after the source has been used.
    fn finalize(&mut self) {
    }

    /// How many rows and columns there are.
    fn get_dimensions(&self) -> TableDimensions;

    /// The data indices of the rows that are not to be shown. A source that
    /// does not say otherwise shows every row.
    fn rows_to_filter(&self) -> (r: Option<&[usize]>)
        default_ensures
            r is None,
    {
        None
    }

    /// The data indices of the columns that are not to be shown. A source
    /// that does not say otherwise shows every column.
    fn columns_to_filter(&self) -> (r: Option<&[usize]>)
        default_ensures
            r is None,
    {
        None
    }

    /// The order of the rows: the entry at a visible position is the data
    /// index of the row shown there. `Some(vec![1, 0])` swaps the first two
    /// rows. A source that does not say otherwise shows its rows in the order
    /// of the data.
    fn row_ordering(&self) -> (r: Option<&[usize]>)
        default_ensures
            r is None,
    {
        None
    }

    /// The order of the columns: the entry at a visible position is the data
    /// index of the column shown there. A source that does not say otherwise
    /// shows its columns in the order of the data.
    fn column_ordering(&self) -> (r: Option<&[usize]>)
        default_ensures
            r is None,
    {
        None
    }
}

/// What a source said of itself at the start of a frame.
pub struct SourceSnapshot<'a> {
    pub dimensions: TableDimensions,
    pub rows_to_filter: Option<&'a [usize]>,
    pub columns_to_filter: Option<&'a [usize]>,
    pub row_ordering: Option<&'a [usize]>,
    pub column_ordering: Option<&'a [usize]>,
}

/// What a source says of one axis.
#[derive(Clone, Copy)]
pub struct AxisSource<'a> {
    /// The number of rows or columns.
    pub count: usize,
    /// The data index of each visible position; absent for the identity.
    pub ordering: Option<&'a [usize]>,
    /// The data indices that are not shown.
    pub filter: Option<&'a [usize]>,
}

impl<'a> SourceSnapshot<'a> {
    /// What the source says of its columns.
    pub open spec fn spec_columns(&self) -> AxisSource<'a> {
        AxisSource {
            count: self.dimensions.column_count,
            ordering: self.column_ordering,
            filter: self.columns_to_filter,
        }
    }

    /// What the source says of its rows.
    pub open spec fn spec_rows(&self) -> AxisSource<'a> {
        AxisSource {
            count: self.dimensions.row_count,
            ordering: self.row_ordering,
            filter: self.rows_to_filter,
        }
    }

    /// What the source says of its columns.
    pub fn columns(&self) -> (r: AxisSource<'a>)
        ensures
            r == self.spec_columns(),
    {
        AxisSource {
            count: self.dimensions.column_count,
            ordering: self.column_ordering,
            filter: self.columns_to_filter,
        }
    }

    /// What the source says of its rows.
    pub fn rows(&self) -> (r: AxisSource<'a>)
        ensures
            r == self.spec_rows(),
    {
        AxisSource {
            count: self.dimensions.row_count,
            ordering: self.row_ordering,
            filter: self.rows_to_filter,
        }
    }
}

/// Ask a prepared source once for everything that the frame needs. Each part
/// of the snapshot is what the source answered to the question of that name.
pub fn snapshot<'a, D: DeferredTableDataSource>(source: &'a D) -> (r: SourceSnapshot<'a>)
    ensures
        call_ensures(D::get_dimensions, (source,), r.dimensions),
        call_ensures(D::rows_to_filter, (source,), r.rows_to_filter),
        call_ensures(D::columns_to_filter, (source,), r.columns_to_filter),
        call_ensures(D::row_ordering, (source,), r.row_ordering),
        call_ensures(D::column_ordering, (source,), r.column_ordering),
{
    SourceSnapshot {
        dimensions: source.get_dimensions(),
        rows_to_filter: source.rows_to_filter(),
        columns_to_filter: source.columns_to_filter(),
        row_ordering: source.row_ordering(),
        column_ordering: source.column_ordering(),
    }
}

/// Shows slices of tuples: each tuple is a row, each of its fields a column.
/// Slices of tuples of 2 to 16 fields are data sources.
#[derive(Debug, Default, Clone, Copy)]
pub struct SimpleTupleRenderer {}

impl<A, B> DeferredTableDataSource for &[(A, B)] {
    fn get_dimensions(&self) -> (r: TableDimensions)
        ensures
            r.row_count == self@.len(),
            r.column_count == 2,
    {
        TableDimensions { row_count: self.len(), column_count: 2 }
    }
}

impl<A, B, C> DeferredTableDataSource for &[(A, B, C)] {
    fn get_dimensions(&self) -> (r: TableDimensions)
        ensures
            r.row_count == self@.len(),
            r.column_count == 3,
    {
        TableDimensions { row_count: self.len(), column_count: 3 }
    }
}

impl<A, B, C, D> DeferredTableDataSource for &[(A, B, C, D)] {
    fn get_dimensions(&self) -> (r: TableDimensions)
        ensures
            r.row_count == self@.len(),
            r.column_count == 4,
    {
        TableDimensions { row_count: self.len(), column_count: 4 }
    }
}

impl<A, B, C, D, E> DeferredTableDataSource for &[(A, B, C, D, E)] {
    fn get_dimensions(&self) -> (r: TableDimensions)
        ensures
            r.row_count == self@.len(),
            r.column_count == 5,
    {
        TableDimensions { row_count: self.len(), column_count: 5 }
    }
}

impl<A, B, C, D, E, F> DeferredTableDataSource for &[(A, B, C, D, E, F)] {
    fn get_dimensions(&self) -> (r: TableDimensions)
        ensures
            r.row_count == self@.len(),
            r.column_count == 6,
    {
        TableDimensions { row_count: self.len(), column_count: 6 }
    }
}

impl<A, B, C, D, E, F, G> DeferredTableDataSource for &[(A, B, C, D, E, F, G)] {
    fn get_dimensions(&self) -> (r: TableDimensions)
        ensures
            r.row_count == self@.len(),
            r.column_count == 7,
    {
        TableDimensions { row_count: self.len(), column_count: 7 }
    }
}

impl<A, B, C, D, E, F, G, H> DeferredTableDataSource for &[(A, B, C, D, E, F, G, H)] {
    fn get_dimensions(&self) -> (r: TableDimensions)
        ensures
            r.row_count == self@.len(),
            r.column_count == 8,
    {
        TableDimensions { row_count: self.len(), column_count: 8 }
    }
}

impl<A, B, C, D, E, F, G, H, I> DeferredTableDataSource for &[(A, B, C, D, E, F, G, H, I)] {
    fn get_dimensions(&self) -> (r: TableDimensions)
        ensures
            r.row_count == self@.len(),
            r.column_count == 9,
    {
        TableDimensions { row_count: self.len(), column_count: 9 }
    }
}

impl<A, B, C, D, E, F, G, H, I, J> DeferredTableDataSource for &[(A, B, C, D, E, F, G, H, I, J)] {
    fn get_dimensions(&self) -> (r: TableDimensions)
        ensures
            r.row_count == self@.len(),
            r.column_count == 10,
    {
        TableDimensions { row_count: self.len(), column_count: 10 }
    }
}

impl<A, B, C, D, E, F, G, H, I, J, K> DeferredTableDataSource for &[(
    A,
    B,
    C,
    D,
    E,
    F,
    G,
    H,
    I,
    J,
    K,
)] {
    fn get_dimensions(&self) -> (r: TableDimensions)
        ensures
            r.row_count == self@.len(),
            r.column_count == 11,
    {
        TableDimensions { row_count: self.len(), column_count: 11 }
    }
}

impl<A, B, C, D, E, F, G, H, I, J, K, L> DeferredTableDataSource for &[(
    A,
    B,
    C,
    D,
    E,
    F,
    G,
    H,
    I,
    J,
    K,
    L,
)] {
    fn get_dimensions(&self) -> (r: TableDimensions)
        ensures
            r.row_count == self@.len(),
            r.column_count == 12,
    {
        TableDimensions { row_count: self.len(), column_count: 12 }
    }
}

impl<A, B, C, D, E, F, G, H, I, J, K, L, M> DeferredTableDataSource for &[(
    A,
    B,
    C,
    D,
    E,
    F,
    G,
    H,
    I,
    J,
    K,
    L,
    M,
)] {
    fn get_dimensions(&self) -> (r: TableDimensions)
        ensures
            r.row_count == self@.len(),
            r.column_count == 13,
    {
        TableDimensions { row_count: self.len(), column_count: 13 }
    }
}

impl<A, B, C, D, E, F, G, H, I, J, K, L, M, N> DeferredTableDataSource for &[(
    A,
    B,
    C,
    D,
    E,
    F,
    G,
    H,
    I,
    J,
    K,
    L,
    M,
    N,
)] {
    fn get_dimensions(&self) -> (r: TableDimensions)
        ensures
            r.row_count == self@.len(),
            r.column_count == 14,
    {
        TableDimensions { row_count: self.len(), column_count: 14 }
    }
}

impl<A, B, C, D, E, F, G, H, I, J, K, L, M, N, O> DeferredTableDataSource for &[(
    A,
    B,
    C,
    D,
    E,
    F,
    G,
    H,
    I,
    J,
    K,
    L,
    M,
    N,
    O,
)] {
    fn get_dimensions(&self) -> (r: TableDimensions)
        ensures
            r.row_count == self@.len(),
            r.column_count == 15,
    {
        TableDimensions { row_count: self.len(), column_count: 15 }
    }
}

impl<A, B, C, D, E, F, G, H, I, J, K, L, M, N, O, P> DeferredTableDataSource for &[(
    A,
    B,
    C,
    D,
    E,
    F,
    G,
    H,
    I,
    J,
    K,
    L,
    M,
    N,
    O,
    P,
)] {
    fn get_dimensions(&self) -> (r: TableDimensions)
        ensures
            r.row_count == self@.len(),
            r.column_count == 16,
    {
        TableDimensions { row_count: self.len(), column_count: 16 }
    }
}

} // verus!
