//! Provides the core structs and traits for use in table manipulation.
use vstd::prelude::*;

pub mod exts;
pub mod impls;
pub mod iter;
pub mod list;
pub mod position;
pub mod prelude;
pub mod utils;

pub use impls::{
    DynamicTable, FixedColumnMemTable, FixedColumnTable, FixedTable, MemFixedRowTable,
};
pub use list::Capacity;
pub use position::Position;
pub use utils::{MutRefOrOwned, RefOrOwned};

use iter::{CellIter, Cells, Column, Columns, IntoCells, IntoColumn, IntoRow, Row, Rows};
use list::List;

verus! {

/// `r` refers to the value held by `v`, or both are empty
pub open spec fn same_cell<T>(r: Option<&T>, v: Option<T>) -> bool {
    match (r, v) {
        (Some(a), Some(b)) => *a == b,
        (None, None) => true,
        _ => false,
    }
}

/// Represents an abstract table of data
pub trait Table: Sized {
    /// The type of data stored in individual cells within the table
    type Data;

    /// The type of structure to hold a row of data
    type Row: List<Item = Self::Data>;

    /// The type of structure to hold a column of data
    type Column: List<Item = Self::Data>;

    /// What [`Table::row_cnt`] reports
    spec fn spec_row_cnt(&self) -> nat;

    /// What [`Table::col_cnt`] reports
    spec fn spec_col_cnt(&self) -> nat;

    /// What [`Table::get_cell`] finds at `(row, col)`
    spec fn spec_cell(&self, row: int, col: int) -> Option<Self::Data>;

    /// The storage behind `(row, col)` is allocated wherever the table's
    /// bounds say it is
    spec fn spec_can_access(&self, row: int, col: int) -> bool;

    /// [`Table::insert_cell`] can write at `(row, col)` without touching storage
    /// that the table has not allocated and without overflowing its bounds
    spec fn spec_can_insert(&self, row: int, col: int) -> bool;

    /// [`Table::remove_cell`] can clear `(row, col)` without touching storage
    /// that the table has not allocated and without overflowing its bounds
    spec fn spec_can_remove(&self, row: int, col: int) -> bool;

    /// The table keeps only the cells that are present: removing a cell
    /// empties its position, and inserting a cell anywhere stretches the
    /// bounds to include it
    spec fn spec_is_sparse() -> bool;

    /// What [`Table::remove_cell`] leaves at a position within the table's
    /// bounds: nothing in a sparse table, and a value produced by
    /// `Default::default` in the others
    spec fn spec_cleared(v: Option<Self::Data>) -> bool;

    /// [`Table::set_row_capacity`] makes the capacity the new row count;
    /// otherwise it leaves the row count alone
    spec fn spec_takes_row_capacity() -> bool;

    /// [`Table::set_column_capacity`] makes a capacity no larger than the
    /// column count the new column count; otherwise it leaves the column
    /// count alone
    spec fn spec_takes_column_capacity() -> bool;

    /// [`Table::insert_cell`] at a column within the column count and a row
    /// at or past the row count writes the cell and stretches the row count
    /// to include it; otherwise such a write leaves the row count alone
    spec fn spec_grows_rows() -> bool;

    /// [`Table::insert_cell`] at a row within the row count and a column at
    /// or past the column count, but below [`Table::spec_col_limit`], writes
    /// the cell and stretches the column count to include it; otherwise such
    /// a write leaves the column count alone
    spec fn spec_grows_columns() -> bool;

    /// The column count that a write can stretch the table to, at most
    spec fn spec_col_limit() -> int;

    /// `post` is `pre` after [`Table::insert_cell`] of `value` at `(row, col)`
    /// returned `prev`
    spec fn spec_inserted(
        pre: Self,
        row: int,
        col: int,
        value: Self::Data,
        post: Self,
        prev: Option<Self::Data>,
    ) -> bool;

    /// `post` is `pre` after [`Table::remove_cell`] at `(row, col)` returned
    /// `prev`
    spec fn spec_removed(pre: Self, row: int, col: int, post: Self, prev: Option<Self::Data>) -> bool;

    /// `a` and `b` are the same table, as far as anything this library
    /// observes of it
    spec fn spec_same_table(a: Self, b: Self) -> bool;

    /// `post` is `pre` with the storage of the cell at `(row, col)` holding `value`
    spec fn spec_cell_set(pre: Self, row: int, col: int, value: Self::Data, post: Self) -> bool;

    /// `post` is `pre` after [`Table::set_row_capacity`] with `capacity`
    spec fn spec_row_capacity_set(pre: Self, capacity: int, post: Self) -> bool;

    /// `post` is `pre` after [`Table::set_column_capacity`] with `capacity`
    spec fn spec_column_capacity_set(pre: Self, capacity: int, post: Self) -> bool;

    /// A position that can be read, and whose row and column are below the
    /// largest `usize`, can be written
    proof fn lemma_access_to_insert(&self, row: int, col: int)
        requires
            self.spec_can_access(row, col),
            0 <= row < usize::MAX,
            0 <= col < usize::MAX,
        ensures
            self.spec_can_insert(row, col),
    ;

    /// A position that can be read, and whose row and column are below the
    /// largest `usize`, can be cleared
    proof fn lemma_access_to_remove(&self, row: int, col: int)
        requires
            self.spec_can_access(row, col),
            0 <= row < usize::MAX,
            0 <= col < usize::MAX,
        ensures
            self.spec_can_remove(row, col),
    ;

    /// A cell that is present sits at a row and a column below the largest
    /// `usize`, so the position after it can be counted
    proof fn lemma_cell_position(&self, row: int, col: int)
        requires
            self.spec_can_access(row, col),
            self.spec_cell(row, col) is Some,
        ensures
            0 <= row < usize::MAX,
            0 <= col < usize::MAX,
    ;

    /// Returns the total rows contained in the table
    fn row_cnt(&self) -> (r: usize)
        ensures
            r == self.spec_row_cnt(),
    ;

    /// Returns the total columns contained in the table
    fn col_cnt(&self) -> (r: usize)
        ensures
            r == self.spec_col_cnt(),
    ;

    /// Sets the preferred capacity of the table when it comes to total rows
    ///
    /// This is a preference, not an absolute, and is up to each table to
    /// implement; a sparse table takes it as its new row count
    fn set_row_capacity(&mut self, capacity: usize)
        ensures
            Self::spec_row_capacity_set(*old(self), capacity as int, *final(self)),
            final(self).spec_col_cnt() == old(self).spec_col_cnt(),
            final(self).spec_row_cnt() == if Self::spec_takes_row_capacity() {
                capacity as int
            } else {
                old(self).spec_row_cnt() as int
            },
            forall|r: int, c: int|
                0 <= r < capacity && r < old(self).spec_row_cnt() && 0 <= c < old(self).spec_col_cnt()
                    ==> #[trigger] final(self).spec_cell(r, c) == old(self).spec_cell(r, c),
            capacity <= old(self).spec_row_cnt() && (forall|r: int, c: int| #[trigger] old(self).spec_can_access(r, c))
                ==> (forall|r: int, c: int| #[trigger] final(self).spec_can_access(r, c)),
            !Self::spec_takes_row_capacity() ==> forall|r: int, c: int|
                #[trigger] final(self).spec_cell(r, c) == old(self).spec_cell(r, c),
            Self::spec_is_sparse() ==> {
                &&& forall|r: int, c: int| #[trigger] final(self).spec_cell(r, c) == old(self).spec_cell(r, c)
                &&& final(self).spec_row_cnt() == capacity
                &&& final(self).spec_col_cnt() == old(self).spec_col_cnt()
                &&& (forall|r: int, c: int| #[trigger] old(self).spec_can_access(r, c)) ==> (forall|r: int, c: int|
                    #[trigger] final(self).spec_can_access(r, c))
            },
    ;

    /// Sets the preferred capacity of the table when it comes to total columns
    ///
    /// This is a preference, not an absolute, and is up to each table to
    /// implement; a sparse table takes it as its new column count
    fn set_column_capacity(&mut self, capacity: usize)
        ensures
            Self::spec_column_capacity_set(*old(self), capacity as int, *final(self)),
            final(self).spec_row_cnt() == old(self).spec_row_cnt(),
            !Self::spec_takes_column_capacity() ==> final(self).spec_col_cnt() == old(self).spec_col_cnt(),
            Self::spec_takes_column_capacity() && capacity <= old(self).spec_col_cnt() && (forall|r: int, c: int|
                #[trigger] old(self).spec_can_access(r, c)) ==> final(self).spec_col_cnt() == capacity,
            forall|r: int, c: int|
                0 <= r < old(self).spec_row_cnt() && 0 <= c < capacity && c < old(self).spec_col_cnt()
                    ==> #[trigger] final(self).spec_cell(r, c) == old(self).spec_cell(r, c),
            capacity <= old(self).spec_col_cnt() && (forall|r: int, c: int| #[trigger] old(self).spec_can_access(r, c))
                ==> (forall|r: int, c: int| #[trigger] final(self).spec_can_access(r, c)),
            !Self::spec_takes_column_capacity() ==> forall|r: int, c: int|
                #[trigger] final(self).spec_cell(r, c) == old(self).spec_cell(r, c),
            Self::spec_is_sparse() ==> {
                &&& forall|r: int, c: int| #[trigger] final(self).spec_cell(r, c) == old(self).spec_cell(r, c)
                &&& final(self).spec_col_cnt() == capacity
                &&& final(self).spec_row_cnt() == old(self).spec_row_cnt()
                &&& (forall|r: int, c: int| #[trigger] old(self).spec_can_access(r, c)) ==> (forall|r: int, c: int|
                    #[trigger] final(self).spec_can_access(r, c))
            },
    ;

    /// Returns reference to the cell found at the specified row and column
    fn get_cell(&self, row: usize, col: usize) -> (r: Option<&Self::Data>)
        ensures
            same_cell(r, self.spec_cell(row as int, col as int)),
    ;

    /// Returns mut reference to the cell found at the specified row and column
    fn get_mut_cell(&mut self, row: usize, col: usize) -> (r: Option<&mut Self::Data>)
        ensures
            match r {
                Some(x) => {
                    &&& old(self).spec_cell(row as int, col as int) == Some(*x)
                    &&& Self::spec_cell_set(*old(self), row as int, col as int, *final(x), *final(self))
                },
                None => {
                    &&& old(self).spec_cell(row as int, col as int) is None
                    &&& Self::spec_same_table(*old(self), *final(self))
                },
            },
    ;

    /// Replaces the given value into the cell of the table at the specified
    /// row and column, returning the previous value contained in the cell
    ///
    /// Within the table's bounds, and anywhere in a sparse table, this
    /// returns the cell that was there, writes the value there and leaves
    /// every other cell alone; within the bounds it keeps the bounds, and a
    /// sparse table stretches its bounds to include the position
    fn insert_cell(&mut self, row: usize, col: usize, value: Self::Data) -> (r: Option<Self::Data>)
        requires
            old(self).spec_can_insert(row as int, col as int),
        ensures
            Self::spec_inserted(*old(self), row as int, col as int, value, *final(self), r),
            forall|i: int, j: int|
                old(self).spec_can_access(i, j) && 0 <= i < old(self).spec_row_cnt() && 0 <= j
                    < old(self).spec_col_cnt() && !(i == row && j == col) ==> #[trigger] final(self).spec_cell(i, j)
                    == old(self).spec_cell(i, j),
            (row < old(self).spec_row_cnt() && col < old(self).spec_col_cnt())
                || Self::spec_is_sparse() ==> {
                &&& r == old(self).spec_cell(row as int, col as int)
                &&& final(self).spec_cell(row as int, col as int) == Some(value)
                &&& forall|i: int, j: int|
                    !(i == row && j == col) ==> #[trigger] final(self).spec_cell(i, j)
                        == old(self).spec_cell(i, j)
            },
            row < old(self).spec_row_cnt() && col < old(self).spec_col_cnt() ==> {
                &&& final(self).spec_row_cnt() == old(self).spec_row_cnt()
                &&& final(self).spec_col_cnt() == old(self).spec_col_cnt()
            },
            Self::spec_is_sparse() ==> {
                &&& final(self).spec_row_cnt() == if row < old(self).spec_row_cnt() {
                    old(self).spec_row_cnt() as int
                } else {
                    row + 1
                }
                &&& final(self).spec_col_cnt() == if col < old(self).spec_col_cnt() {
                    old(self).spec_col_cnt() as int
                } else {
                    col + 1
                }
            },
            (forall|i: int, j: int| #[trigger] old(self).spec_can_access(i, j)) ==> (forall|i: int, j: int|
                #[trigger] final(self).spec_can_access(i, j)),
            final(self).spec_row_cnt() <= old(self).spec_row_cnt() || final(self).spec_row_cnt() <= row + 1,
            final(self).spec_col_cnt() <= old(self).spec_col_cnt() || final(self).spec_col_cnt() <= col + 1,
            final(self).spec_row_cnt() >= old(self).spec_row_cnt(),
            final(self).spec_col_cnt() >= old(self).spec_col_cnt(),
            row < old(self).spec_row_cnt() ==> final(self).spec_row_cnt() == old(self).spec_row_cnt(),
            col < old(self).spec_col_cnt() ==> final(self).spec_col_cnt() == old(self).spec_col_cnt(),
            Self::spec_grows_rows() && row >= old(self).spec_row_cnt() && col < old(self).spec_col_cnt() ==> {
                &&& final(self).spec_row_cnt() == row + 1
                &&& final(self).spec_cell(row as int, col as int) == Some(value)
            },
            !Self::spec_grows_rows() ==> final(self).spec_row_cnt() == old(self).spec_row_cnt(),
            !Self::spec_grows_columns() ==> final(self).spec_col_cnt() == old(self).spec_col_cnt(),
            Self::spec_grows_columns() && row < old(self).spec_row_cnt() && old(self).spec_col_cnt() <= col
                < Self::spec_col_limit() ==> {
                &&& final(self).spec_col_cnt() == col + 1
                &&& final(self).spec_cell(row as int, col as int) == Some(value)
                &&& !Self::spec_is_sparse() && (forall|i: int, j: int| #[trigger] old(self).spec_can_access(i, j))
                    ==> forall|i: int, j: int|
                    0 <= i < old(self).spec_row_cnt() && old(self).spec_col_cnt() <= j <= col
                        ==> #[trigger] final(self).spec_cell(i, j) is Some
            },
            row < old(self).spec_row_cnt() && col >= old(self).spec_col_cnt() && !(Self::spec_grows_columns()
                && col < Self::spec_col_limit()) ==> final(self).spec_col_cnt() == old(self).spec_col_cnt(),
            Self::spec_grows_rows() && Self::spec_grows_columns() && row >= old(self).spec_row_cnt()
                && old(self).spec_col_cnt() <= col < Self::spec_col_limit() ==> {
                &&& final(self).spec_row_cnt() == row + 1
                &&& final(self).spec_col_cnt() == col + 1
                &&& final(self).spec_cell(row as int, col as int) == Some(value)
            },
    ;

    /// Removes the given value from the cell at the specified position, but
    /// does not shift any other cell to fill in the gap
    ///
    /// Does not attempt to adjust the capacity within the table
    ///
    /// Within the table's bounds, and anywhere in a sparse table, this
    /// returns the cell that was there and leaves the bounds and every other
    /// cell alone; a sparse table leaves the position empty, and within the
    /// bounds the others leave a value produced by `Default::default` there
    fn remove_cell(&mut self, row: usize, col: usize) -> (r: Option<Self::Data>)
        requires
            old(self).spec_can_remove(row as int, col as int),
        ensures
            Self::spec_removed(*old(self), row as int, col as int, *final(self), r),
            r is Some ==> row < usize::MAX && col < usize::MAX,
            (row < old(self).spec_row_cnt() && col < old(self).spec_col_cnt())
                || Self::spec_is_sparse() ==> {
                &&& r == old(self).spec_cell(row as int, col as int)
                &&& forall|i: int, j: int|
                    !(i == row && j == col) ==> #[trigger] final(self).spec_cell(i, j)
                        == old(self).spec_cell(i, j)
                &&& final(self).spec_row_cnt() == old(self).spec_row_cnt()
                &&& final(self).spec_col_cnt() == old(self).spec_col_cnt()
            },
            Self::spec_is_sparse() ==> final(self).spec_cell(row as int, col as int) is None,
            row < old(self).spec_row_cnt() && col < old(self).spec_col_cnt() ==> Self::spec_cleared(
                final(self).spec_cell(row as int, col as int),
            ),
            !Self::spec_grows_rows() ==> final(self).spec_row_cnt() == old(self).spec_row_cnt(),
            !Self::spec_grows_columns() ==> final(self).spec_col_cnt() == old(self).spec_col_cnt(),
            (forall|i: int, j: int| #[trigger] old(self).spec_can_access(i, j)) ==> (forall|i: int, j: int|
                #[trigger] final(self).spec_can_access(i, j)),
            final(self).spec_row_cnt() <= old(self).spec_row_cnt() || final(self).spec_row_cnt() <= row + 1,
            final(self).spec_col_cnt() <= old(self).spec_col_cnt() || final(self).spec_col_cnt() <= col + 1,
            final(self).spec_row_cnt() >= old(self).spec_row_cnt(),
            final(self).spec_col_cnt() >= old(self).spec_col_cnt(),
    ;

    /// Returns the total cells (rows * columns) contained in the table
    fn len(&self) -> (r: usize)
        requires
            self.spec_row_cnt() * self.spec_col_cnt() <= usize::MAX,
        ensures
            r == self.spec_row_cnt() * self.spec_col_cnt(),
    {
        self.row_cnt() * self.col_cnt()
    }

    /// Returns true if the total cells (rows * columns) contained in the table
    /// is zero
    fn is_empty(&self) -> (r: bool)
        requires
            self.spec_row_cnt() * self.spec_col_cnt() <= usize::MAX,
        ensures
            r == (self.spec_row_cnt() * self.spec_col_cnt() == 0),
    {
        self.len() == 0
    }

    /// Returns whether or not a cell exists at the specified row & column. Note
    /// that this is not the same as whether or not the table's current row &
    /// column range would include a cell at that position! Rather, this is
    /// reporting if a cell actually exists
    fn has_cell(&self, row: usize, col: usize) -> (r: bool)
        requires
            self.spec_can_access(row as int, col as int),
        ensures
            r == self.spec_cell(row as int, col as int) is Some,
    {
        self.get_cell(row, col).is_some()
    }
}

/// Every position of `t` can be read without touching storage that the
/// table has not allocated
pub open spec fn fully_accessible<T: Table>(t: T) -> bool {
    forall|row: int, col: int| #[trigger] t.spec_can_access(row, col)
}

/// Every cell of `t` lies within its row and column counts
pub open spec fn cells_within_bounds<T: Table>(t: T) -> bool {
    forall|row: int, col: int|
        #[trigger] t.spec_cell(row, col) is Some ==> 0 <= row < t.spec_row_cnt() && 0 <= col
            < t.spec_col_cnt()
}

/// `t` keeps only the cells that are present, all of them within its bounds:
/// the tables whose structural operations are described cell by cell
pub open spec fn tracks_cells<T: Table>(t: T) -> bool {
    T::spec_is_sparse() && cells_within_bounds(t)
}

/// Some cell of row `row` of `t` is present
pub open spec fn row_occupied<T: Table>(t: T, row: int) -> bool {
    exists|col: int| #[trigger] t.spec_cell(row, col) is Some
}

/// Some cell of column `col` of `t` is present
pub open spec fn column_occupied<T: Table>(t: T, col: int) -> bool {
    exists|row: int| #[trigger] t.spec_cell(row, col) is Some
}

/// The cell at `(r, c)` of `pre` once every row from `row` on has moved one
/// row down, leaving row `row` empty
pub open spec fn rows_shifted_down<T: Table>(pre: T, row: int, r: int, c: int) -> Option<T::Data> {
    if r < row {
        pre.spec_cell(r, c)
    } else if r == row {
        None
    } else {
        pre.spec_cell(r - 1, c)
    }
}

/// The row count of `pre` once every row from `row` on has moved one row
/// down: one more if the last row held a cell and moved
pub open spec fn rows_shifted_down_cnt<T: Table>(pre: T, row: int) -> int {
    if row < pre.spec_row_cnt() && row_occupied(pre, pre.spec_row_cnt() - 1) {
        pre.spec_row_cnt() + 1int
    } else {
        pre.spec_row_cnt() as int
    }
}

/// `post` is `pre` with `cells` inserted as a new row at `row`: the rows from
/// `row` on move one row down, and the new row holds `cells` from the first
/// column on; the row count covers a row that moved past the old last row and
/// the new row if it holds a cell, and the column count covers the new row's
/// cells
pub open spec fn row_inserted<T: Table>(pre: T, row: int, cells: Seq<T::Data>, post: T) -> bool {
    let shifted_rows = rows_shifted_down_cnt(pre, row);
    &&& forall|r: int, c: int|
        #[trigger] post.spec_cell(r, c) == if r == row && 0 <= c < cells.len() {
            Some(cells[c])
        } else {
            rows_shifted_down(pre, row, r, c)
        }
    &&& post.spec_row_cnt() == if cells.len() > 0 && row + 1 > shifted_rows {
        row + 1
    } else {
        shifted_rows
    }
    &&& post.spec_col_cnt() == if cells.len() > pre.spec_col_cnt() {
        cells.len() as int
    } else {
        pre.spec_col_cnt() as int
    }
}

/// The cell at `(i, j)` of `pre` while row `r` moves one row down, the
/// columns from `c` on having moved already, and the rows after `r` having
/// moved before it
spec fn row_moving_down<T: Table>(pre: T, r: int, c: int, i: int, j: int) -> Option<T::Data> {
    if i == r && j >= c {
        None
    } else if i == r + 1 && j >= c {
        pre.spec_cell(r, j)
    } else {
        rows_shifted_down(pre, r + 1, i, j)
    }
}

/// The row count of `pre` while row `r` moves one row down, the columns from
/// `c` on having moved already
spec fn row_moving_down_cnt<T: Table>(pre: T, r: int, c: int) -> int {
    let rc = pre.spec_row_cnt() as int;
    if (r + 1 < rc && row_occupied(pre, rc - 1)) || (r + 1 == rc && exists|j: int|
        c <= j && #[trigger] pre.spec_cell(r, j) is Some) {
        rc + 1
    } else {
        rc
    }
}

/// Shifting the rows of a table that keeps its cells within bounds keeps
/// them within the shifted bounds
proof fn lemma_rows_shifted_down_within_bounds<T: Table>(pre: T, row: int, i: int, j: int)
    requires
        cells_within_bounds(pre),
        0 <= row,
        rows_shifted_down(pre, row, i, j) is Some,
    ensures
        0 <= i < rows_shifted_down_cnt(pre, row),
        0 <= j < pre.spec_col_cnt(),
{
    if i > row {
        assert(pre.spec_cell(i - 1, j) is Some);
        if i - 1 == pre.spec_row_cnt() - 1 {
            assert(row_occupied(pre, pre.spec_row_cnt() - 1));
        }
    }
}

/// The cell at `(r, c)` of `pre` once row `row` is gone and every row after
/// it has moved one row up
pub open spec fn rows_shifted_up<T: Table>(pre: T, row: int, r: int, c: int) -> Option<T::Data> {
    if r < row {
        pre.spec_cell(r, c)
    } else {
        pre.spec_cell(r + 1, c)
    }
}

/// `post` is `pre` with row `row` removed: the rows after it move one row
/// up, and the row count drops by one
pub open spec fn row_removed<T: Table>(pre: T, row: int, post: T) -> bool {
    &&& forall|r: int, c: int| #[trigger] post.spec_cell(r, c) == rows_shifted_up(pre, row, r, c)
    &&& post.spec_row_cnt() == pre.spec_row_cnt() - 1
    &&& post.spec_col_cnt() == pre.spec_col_cnt()
}

/// The cells of row `row` of `t`, one entry per column within its bounds
pub open spec fn row_cells<T: Table>(t: T, row: int) -> Seq<Option<T::Data>> {
    Seq::new(t.spec_col_cnt(), |c: int| t.spec_cell(row, c))
}

/// The cells of column `col` of `t`, one entry per row within its bounds
pub open spec fn column_cells<T: Table>(t: T, col: int) -> Seq<Option<T::Data>> {
    Seq::new(t.spec_row_cnt(), |r: int| t.spec_cell(r, col))
}

/// The cell at `(i, j)` of `pre` once row `row` is gone and the rows after
/// it up to, and not including, `r` have moved one row up, leaving row
/// `r - 1` empty
spec fn rows_moved_up_to<T: Table>(pre: T, row: int, r: int, i: int, j: int) -> Option<T::Data> {
    if i < row {
        pre.spec_cell(i, j)
    } else if i < r - 1 {
        pre.spec_cell(i + 1, j)
    } else if i == r - 1 {
        None
    } else {
        pre.spec_cell(i, j)
    }
}

/// The cell at `(i, j)` of `pre` while row `r` moves one row up, its columns
/// before `c` having moved already
spec fn row_moving_up<T: Table>(pre: T, row: int, r: int, c: int, i: int, j: int) -> Option<T::Data> {
    if i == r - 1 && 0 <= j < c {
        pre.spec_cell(r, j)
    } else if i == r && 0 <= j < c {
        None
    } else {
        rows_moved_up_to(pre, row, r, i, j)
    }
}

/// The cell at `(r, c)` of `pre` once every column from `col` on has moved
/// one column right, leaving column `col` empty
pub open spec fn cols_shifted_right<T: Table>(pre: T, col: int, r: int, c: int) -> Option<T::Data> {
    if c < col {
        pre.spec_cell(r, c)
    } else if c == col {
        None
    } else {
        pre.spec_cell(r, c - 1)
    }
}

/// The column count of `pre` once every column from `col` on has moved one
/// column right: one more if the last column held a cell and moved
pub open spec fn cols_shifted_right_cnt<T: Table>(pre: T, col: int) -> int {
    if col < pre.spec_col_cnt() && column_occupied(pre, pre.spec_col_cnt() - 1) {
        pre.spec_col_cnt() + 1int
    } else {
        pre.spec_col_cnt() as int
    }
}

/// `post` is `pre` with `cells` inserted as a new column at `col`: the
/// columns from `col` on move one column right, and the new column holds
/// `cells` from the first row on; the column count covers a column that moved
/// past the old last column and the new column if it holds a cell, and the
/// row count covers the new column's cells
pub open spec fn column_inserted<T: Table>(pre: T, col: int, cells: Seq<T::Data>, post: T) -> bool {
    let shifted_cols = cols_shifted_right_cnt(pre, col);
    &&& forall|r: int, c: int|
        #[trigger] post.spec_cell(r, c) == if c == col && 0 <= r < cells.len() {
            Some(cells[r])
        } else {
            cols_shifted_right(pre, col, r, c)
        }
    &&& post.spec_col_cnt() == if cells.len() > 0 && col + 1 > shifted_cols {
        col + 1
    } else {
        shifted_cols
    }
    &&& post.spec_row_cnt() == if cells.len() > pre.spec_row_cnt() {
        cells.len() as int
    } else {
        pre.spec_row_cnt() as int
    }
}

/// The cell at `(r, c)` of `pre` once column `col` is gone and every column
/// after it has moved one column left
pub open spec fn cols_shifted_left<T: Table>(pre: T, col: int, r: int, c: int) -> Option<T::Data> {
    if c < col {
        pre.spec_cell(r, c)
    } else {
        pre.spec_cell(r, c + 1)
    }
}

/// `post` is `pre` with column `col` removed: the columns after it move one
/// column left, and the column count drops by one
pub open spec fn column_removed<T: Table>(pre: T, col: int, post: T) -> bool {
    &&& forall|r: int, c: int| #[trigger] post.spec_cell(r, c) == cols_shifted_left(pre, col, r, c)
    &&& post.spec_col_cnt() == pre.spec_col_cnt() - 1
    &&& post.spec_row_cnt() == pre.spec_row_cnt()
}

/// The cell at `(i, j)` of `pre` while row `r` moves its columns from `col`
/// on one column right, those from `c` on having moved already, and the rows
/// after `r` having moved theirs before it
spec fn cols_moving_right<T: Table>(pre: T, col: int, r: int, c: int, i: int, j: int) -> Option<T::Data> {
    if i == r {
        if j < c {
            pre.spec_cell(r, j)
        } else if j == c {
            None
        } else {
            pre.spec_cell(r, j - 1)
        }
    } else if i > r {
        cols_shifted_right(pre, col, i, j)
    } else {
        pre.spec_cell(i, j)
    }
}

/// The column count of `pre` while row `r` moves its columns one column
/// right, those from `c` on having moved already
spec fn cols_moving_right_cnt<T: Table>(pre: T, r: int, c: int) -> int {
    let cc = pre.spec_col_cnt() as int;
    if (exists|i: int| r < i && #[trigger] pre.spec_cell(i, cc - 1) is Some) || (c <= cc - 1
        && pre.spec_cell(r, cc - 1) is Some) {
        cc + 1
    } else {
        cc
    }
}

/// The cell at `(i, j)` of `pre` once column `col` is gone and the rows
/// before `r` have moved their later columns one column left, leaving their
/// last column empty
spec fn cols_moved_left_to<T: Table>(pre: T, col: int, r: int, i: int, j: int) -> Option<T::Data> {
    if i < r {
        if j < col {
            pre.spec_cell(i, j)
        } else if j < pre.spec_col_cnt() - 1 {
            pre.spec_cell(i, j + 1)
        } else if j == pre.spec_col_cnt() - 1 {
            None
        } else {
            pre.spec_cell(i, j)
        }
    } else if j == col {
        None
    } else {
        pre.spec_cell(i, j)
    }
}

/// The cell at `(i, j)` of `pre` while row `r` moves its columns after
/// `col` one column left, those before `c` having moved already
spec fn cols_moving_left<T: Table>(pre: T, col: int, r: int, c: int, i: int, j: int) -> Option<T::Data> {
    if i == r && col <= j < c - 1 {
        pre.spec_cell(r, j + 1)
    } else if i == r && j == c - 1 {
        None
    } else if i == r && j >= c {
        pre.spec_cell(r, j)
    } else {
        cols_moved_left_to(pre, col, r, i, j)
    }
}

/// Shifting the columns of a table that keeps its cells within bounds keeps
/// them within the shifted bounds
proof fn lemma_cols_shifted_right_within_bounds<T: Table>(pre: T, col: int, i: int, j: int)
    requires
        cells_within_bounds(pre),
        0 <= col,
        cols_shifted_right(pre, col, i, j) is Some,
    ensures
        0 <= i < pre.spec_row_cnt(),
        0 <= j < cols_shifted_right_cnt(pre, col),
{
    if j > col {
        assert(pre.spec_cell(i, j - 1) is Some);
        if j - 1 == pre.spec_col_cnt() - 1 {
            assert(column_occupied(pre, pre.spec_col_cnt() - 1));
        }
    }
}

/// The entries of a line of `len` cells whose first cells hold `cells` and
/// whose other cells are empty
pub open spec fn padded<D>(cells: Seq<D>, len: nat) -> Seq<Option<D>> {
    Seq::new(len, |c: int| if c < cells.len() { Some(cells[c]) } else { None })
}

/// The values of a line whose first cells hold `cells` and whose other
/// cells are empty are `cells`
pub proof fn lemma_somes_of_padded<D>(cells: Seq<D>, len: nat)
    requires
        cells.len() <= len,
    ensures
        list::somes(padded(cells, len)) == cells,
    decreases len,
{
    if len == 0 {
        assert(cells =~= Seq::<D>::empty());
    } else if len == cells.len() {
        let shorter = cells.drop_last();
        lemma_somes_of_padded(shorter, (len - 1) as nat);
        assert(padded(cells, len).drop_last() =~= padded(shorter, (len - 1) as nat));
        assert(shorter.push(cells.last()) =~= cells);
    } else {
        lemma_somes_of_padded(cells, (len - 1) as nat);
        assert(padded(cells, len).drop_last() =~= padded(cells, (len - 1) as nat));
    }
}

/// Removing a row that was just inserted gives back the inserted cells, one
/// per column of the table, followed by empty cells, and leaves every cell
/// of the table as it was before the insertion; the column count stays as
/// the insertion left it, and the row count comes back when the insertion
/// grew it by one
pub proof fn lemma_remove_row_undoes_insert_row<T: Table>(
    pre: T,
    row: int,
    cells: Seq<T::Data>,
    mid: T,
    post: T,
)
    requires
        tracks_cells(pre),
        0 <= row,
        row_inserted(pre, row, cells, mid),
        row_removed(mid, row, post),
    ensures
        row_cells(mid, row) == padded(cells, mid.spec_col_cnt()),
        forall|r: int, c: int| #[trigger] post.spec_cell(r, c) == pre.spec_cell(r, c),
        post.spec_col_cnt() == mid.spec_col_cnt(),
        post.spec_col_cnt() == pre.spec_col_cnt() <==> cells.len() <= pre.spec_col_cnt(),
        (row < pre.spec_row_cnt() && row_occupied(pre, pre.spec_row_cnt() - 1)) || (row
            == pre.spec_row_cnt() && cells.len() > 0) ==> post.spec_row_cnt() == pre.spec_row_cnt(),
{
    assert(row_cells(mid, row) =~= padded(cells, mid.spec_col_cnt()));
    assert forall|r: int, c: int| #[trigger] post.spec_cell(r, c) == pre.spec_cell(r, c) by {
        if r < row {
            assert(post.spec_cell(r, c) == mid.spec_cell(r, c));
        } else {
            assert(post.spec_cell(r, c) == mid.spec_cell(r + 1, c));
        }
    }
}

/// Removing a column that was just inserted gives back the inserted cells,
/// one per row of the table, followed by empty cells, and leaves every cell
/// of the table as it was before the insertion; the row count stays as the
/// insertion left it, and the column count comes back when the insertion
/// grew it by one
pub proof fn lemma_remove_column_undoes_insert_column<T: Table>(
    pre: T,
    col: int,
    cells: Seq<T::Data>,
    mid: T,
    post: T,
)
    requires
        tracks_cells(pre),
        0 <= col,
        column_inserted(pre, col, cells, mid),
        column_removed(mid, col, post),
    ensures
        column_cells(mid, col) == padded(cells, mid.spec_row_cnt()),
        forall|r: int, c: int| #[trigger] post.spec_cell(r, c) == pre.spec_cell(r, c),
        post.spec_row_cnt() == mid.spec_row_cnt(),
        post.spec_row_cnt() == pre.spec_row_cnt() <==> cells.len() <= pre.spec_row_cnt(),
        (col < pre.spec_col_cnt() && column_occupied(pre, pre.spec_col_cnt() - 1)) || (col
            == pre.spec_col_cnt() && cells.len() > 0) ==> post.spec_col_cnt() == pre.spec_col_cnt(),
{
    assert(column_cells(mid, col) =~= padded(cells, mid.spec_row_cnt()));
    assert forall|r: int, c: int| #[trigger] post.spec_cell(r, c) == pre.spec_cell(r, c) by {
        if c < col {
            assert(post.spec_cell(r, c) == mid.spec_cell(r, c));
        } else {
            assert(post.spec_cell(r, c) == mid.spec_cell(r, c + 1));
        }
    }
}

/// The column count that writes past the last column can stretch `t` to:
/// the table's limit where it stretches its columns past the current count,
/// and the current count otherwise
pub open spec fn column_reach<T: Table>(t: T) -> int {
    if T::spec_grows_columns() && T::spec_col_limit() > t.spec_col_cnt() {
        T::spec_col_limit()
    } else {
        t.spec_col_cnt() as int
    }
}

/// A write into the first column of a row past the last row of `t` lands
/// there and stretches the row count to cover it
pub open spec fn fills_new_rows<T: Table>(t: T) -> bool {
    T::spec_grows_rows() && (t.spec_col_cnt() > 0 || (T::spec_grows_columns() && 0 < T::spec_col_limit()))
}

/// Every position within the bounds of `t` holds a cell
pub open spec fn cells_fill_bounds<T: Table>(t: T) -> bool {
    forall|row: int, col: int|
        0 <= row < t.spec_row_cnt() && 0 <= col < t.spec_col_cnt() ==> #[trigger] t.spec_cell(
            row,
            col,
        ) is Some
}

/// What inserting `cells` as row `row` leaves of `pre`, a table whose cells
/// fill its bounds, within those bounds: the rows before `row` stay, the
/// rows from `row` on move one row down, and row `row` holds `cells` from
/// its first column on; the bounds do not shrink
pub open spec fn filled_row_inserted<T: Table>(pre: T, row: int, cells: Seq<T::Data>, post: T) -> bool {
    &&& post.spec_row_cnt() >= pre.spec_row_cnt()
    &&& post.spec_col_cnt() >= pre.spec_col_cnt()
    &&& forall|i: int, j: int|
        0 <= i < pre.spec_row_cnt() && 0 <= j < pre.spec_col_cnt() && !(i == row && j >= cells.len())
            ==> #[trigger] post.spec_cell(i, j) == if i == row {
            Some(cells[j])
        } else {
            rows_shifted_down(pre, row, i, j)
        }
}

/// What removing row `row` leaves of `pre`, a table whose cells fill its
/// bounds, on every row of those bounds but the last: the rows before `row`
/// stay and the rows after it move one row up
pub open spec fn filled_row_removed<T: Table>(pre: T, row: int, post: T) -> bool {
    forall|i: int, j: int|
        0 <= i < pre.spec_row_cnt() - 1 && 0 <= j < pre.spec_col_cnt() ==> #[trigger] post.spec_cell(i, j)
            == rows_shifted_up(pre, row, i, j)
}

/// What inserting `cells` as column `col` leaves of `pre`, a table whose
/// cells fill its bounds, within those bounds: the columns before `col`
/// stay, the columns from `col` on move one column right, and column `col`
/// holds `cells` from its first row on; the bounds do not shrink
pub open spec fn filled_column_inserted<T: Table>(pre: T, col: int, cells: Seq<T::Data>, post: T) -> bool {
    &&& post.spec_row_cnt() >= pre.spec_row_cnt()
    &&& post.spec_col_cnt() >= pre.spec_col_cnt()
    &&& forall|i: int, j: int|
        0 <= i < pre.spec_row_cnt() && 0 <= j < pre.spec_col_cnt() && !(j == col && i >= cells.len())
            ==> #[trigger] post.spec_cell(i, j) == if j == col {
            Some(cells[i])
        } else {
            cols_shifted_right(pre, col, i, j)
        }
}

/// What removing column `col` leaves of `pre`, a table whose cells fill its
/// bounds, on every column of those bounds but the last: the columns before
/// `col` stay and the columns after it move one column left
pub open spec fn filled_column_removed<T: Table>(pre: T, col: int, post: T) -> bool {
    forall|i: int, j: int|
        0 <= i < pre.spec_row_cnt() && 0 <= j < pre.spec_col_cnt() - 1 ==> #[trigger] post.spec_cell(i, j)
            == cols_shifted_left(pre, col, i, j)
}

/// Inserting a row that covers every column of a table whose cells fill
/// its bounds, where the insertion leaves the bounds as they were, leaves a
/// table whose cells fill its bounds, with the inserted cells in row `row`
pub proof fn lemma_filled_row_insert_fills<T: Table>(pre: T, row: int, cells: Seq<T::Data>, mid: T)
    requires
        cells_fill_bounds(pre),
        0 <= row,
        cells.len() >= pre.spec_col_cnt(),
        filled_row_inserted(pre, row, cells, mid),
        mid.spec_row_cnt() == pre.spec_row_cnt(),
        mid.spec_col_cnt() == pre.spec_col_cnt(),
    ensures
        cells_fill_bounds(mid),
        row < pre.spec_row_cnt() ==> row_cells(mid, row) == padded(cells.take(pre.spec_col_cnt() as int), pre.spec_col_cnt()),
{
    assert forall|i: int, j: int|
        0 <= i < mid.spec_row_cnt() && 0 <= j < mid.spec_col_cnt() implies #[trigger] mid.spec_cell(i, j) is Some by {
        if i < row {
            assert(pre.spec_cell(i, j) is Some);
        } else if i > row {
            assert(pre.spec_cell(i - 1, j) is Some);
        }
    }
    if row < pre.spec_row_cnt() {
        assert(row_cells(mid, row) =~= padded(cells.take(pre.spec_col_cnt() as int), pre.spec_col_cnt()));
    }
}

/// Removing a row that covers every column, just inserted into a table whose
/// cells fill its bounds without changing them, gives back every row but
/// the last as it was before the insertion
pub proof fn lemma_remove_row_undoes_insert_row_filled<T: Table>(
    pre: T,
    row: int,
    cells: Seq<T::Data>,
    mid: T,
    post: T,
)
    requires
        cells_fill_bounds(pre),
        0 <= row < pre.spec_row_cnt(),
        cells.len() >= pre.spec_col_cnt(),
        filled_row_inserted(pre, row, cells, mid),
        mid.spec_row_cnt() == pre.spec_row_cnt(),
        mid.spec_col_cnt() == pre.spec_col_cnt(),
        filled_row_removed(mid, row, post),
    ensures
        forall|i: int, j: int|
            0 <= i < pre.spec_row_cnt() - 1 && 0 <= j < pre.spec_col_cnt() ==> #[trigger] post.spec_cell(i, j)
                == pre.spec_cell(i, j),
{
    assert forall|i: int, j: int|
        0 <= i < pre.spec_row_cnt() - 1 && 0 <= j < pre.spec_col_cnt() implies #[trigger] post.spec_cell(i, j)
            == pre.spec_cell(i, j) by {
        if i < row {
            assert(post.spec_cell(i, j) == mid.spec_cell(i, j));
        } else {
            assert(post.spec_cell(i, j) == mid.spec_cell(i + 1, j));
        }
    }
}

/// Inserting a column that covers every row of a table whose cells fill
/// its bounds, where the insertion leaves the bounds as they were, leaves a
/// table whose cells fill its bounds, with the inserted cells in column
/// `col`
pub proof fn lemma_filled_column_insert_fills<T: Table>(pre: T, col: int, cells: Seq<T::Data>, mid: T)
    requires
        cells_fill_bounds(pre),
        0 <= col,
        cells.len() >= pre.spec_row_cnt(),
        filled_column_inserted(pre, col, cells, mid),
        mid.spec_row_cnt() == pre.spec_row_cnt(),
        mid.spec_col_cnt() == pre.spec_col_cnt(),
    ensures
        cells_fill_bounds(mid),
        col < pre.spec_col_cnt() ==> column_cells(mid, col) == padded(cells.take(pre.spec_row_cnt() as int), pre.spec_row_cnt()),
{
    assert forall|i: int, j: int|
        0 <= i < mid.spec_row_cnt() && 0 <= j < mid.spec_col_cnt() implies #[trigger] mid.spec_cell(i, j) is Some by {
        if j < col {
            assert(pre.spec_cell(i, j) is Some);
        } else if j > col {
            assert(pre.spec_cell(i, j - 1) is Some);
        }
    }
    if col < pre.spec_col_cnt() {
        assert(column_cells(mid, col) =~= padded(cells.take(pre.spec_row_cnt() as int), pre.spec_row_cnt()));
    }
}

/// Removing a column that covers every row, just inserted into a table whose
/// cells fill its bounds without changing them, gives back every column but
/// the last as it was before the insertion
pub proof fn lemma_remove_column_undoes_insert_column_filled<T: Table>(
    pre: T,
    col: int,
    cells: Seq<T::Data>,
    mid: T,
    post: T,
)
    requires
        cells_fill_bounds(pre),
        0 <= col < pre.spec_col_cnt(),
        cells.len() >= pre.spec_row_cnt(),
        filled_column_inserted(pre, col, cells, mid),
        mid.spec_row_cnt() == pre.spec_row_cnt(),
        mid.spec_col_cnt() == pre.spec_col_cnt(),
        filled_column_removed(mid, col, post),
    ensures
        forall|i: int, j: int|
            0 <= i < pre.spec_row_cnt() && 0 <= j < pre.spec_col_cnt() - 1 ==> #[trigger] post.spec_cell(i, j)
                == pre.spec_cell(i, j),
{
    assert forall|i: int, j: int|
        0 <= i < pre.spec_row_cnt() && 0 <= j < pre.spec_col_cnt() - 1 implies #[trigger] post.spec_cell(i, j)
            == pre.spec_cell(i, j) by {
        if j < col {
            assert(post.spec_cell(i, j) == mid.spec_cell(i, j));
        } else {
            assert(post.spec_cell(i, j) == mid.spec_cell(i, j + 1));
        }
    }
}

/// The cell at `(i, j)` of `pre`, a table whose cells fill its bounds, once
/// row `row` is gone and the rows after it up to, and not including, `r` have
/// moved one row up; row `r - 1` holds what removing its cells left there
spec fn filled_rows_moved_up_to<T: Table>(pre: T, row: int, r: int, i: int, j: int) -> Option<T::Data> {
    if i < row {
        pre.spec_cell(i, j)
    } else if i < r - 1 {
        pre.spec_cell(i + 1, j)
    } else {
        pre.spec_cell(i, j)
    }
}

/// The cell at `(i, j)` of `pre`, a table whose cells fill its bounds, once
/// column `col` is gone and the rows before `r` have moved their later
/// columns one column left; the last column of those rows, and column `col`
/// of the other rows, hold what removing their cells left there
spec fn filled_cols_moved_left_to<T: Table>(pre: T, col: int, r: int, i: int, j: int) -> Option<T::Data> {
    if i < r && j >= col {
        pre.spec_cell(i, j + 1)
    } else {
        pre.spec_cell(i, j)
    }
}

/// Structural operations on tables: whole rows and columns at a time
pub trait TableOps: Table {
    /// Inserts a new row into the table at the given position, shifting down
    /// all rows after it
    ///
    /// The cells are written from the first column on: past the last column
    /// a table that stretches its columns gains one column per cell, up to
    /// the column count it can reach, and the cells beyond that are dropped.
    /// After the given cells, the new row keeps what removing a cell leaves
    /// there.
    fn insert_row(&mut self, row: usize, cells: Vec<Self::Data>)
        requires
            fully_accessible(*old(self)),
            old(self).spec_row_cnt() < usize::MAX,
            row < usize::MAX,
        ensures
            fully_accessible(*final(self)),
            !Self::spec_grows_rows() ==> final(self).spec_row_cnt() == old(self).spec_row_cnt(),
            !Self::spec_grows_columns() ==> final(self).spec_col_cnt() == old(self).spec_col_cnt(),
            tracks_cells(*old(self)) ==> {
                &&& row_inserted(*old(self), row as int, cells@, *final(self))
                &&& cells_within_bounds(*final(self))
            },
            cells_fill_bounds(*old(self)) ==> filled_row_inserted(*old(self), row as int, cells@, *final(self)),
            cells_fill_bounds(*old(self)) && (cells@.len() <= old(self).spec_col_cnt() || row
                < old(self).spec_row_cnt() || fills_new_rows(*old(self))) ==> {
                &&& final(self).spec_row_cnt() == if row < old(self).spec_row_cnt() {
                    if Self::spec_grows_rows() && old(self).spec_col_cnt() > 0 {
                        old(self).spec_row_cnt() + 1int
                    } else {
                        old(self).spec_row_cnt() as int
                    }
                } else if cells@.len() > 0 && fills_new_rows(*old(self)) {
                    row + 1int
                } else {
                    old(self).spec_row_cnt() as int
                }
                &&& Self::spec_grows_rows() && row < old(self).spec_row_cnt() ==> forall|j: int|
                    0 <= j < old(self).spec_col_cnt() ==> #[trigger] final(self).spec_cell(
                        old(self).spec_row_cnt() as int,
                        j,
                    ) == old(self).spec_cell(old(self).spec_row_cnt() - 1, j)
            },
            cells_fill_bounds(*old(self)) && cells@.len() <= old(self).spec_col_cnt() ==> {
                &&& final(self).spec_col_cnt() == old(self).spec_col_cnt()
                &&& Self::spec_grows_rows() && row >= old(self).spec_row_cnt() ==> forall|j: int|
                    0 <= j < cells@.len() ==> #[trigger] final(self).spec_cell(row as int, j) == Some(cells@[j])
            },
            cells_fill_bounds(*old(self)) && (row < old(self).spec_row_cnt() || fills_new_rows(*old(self))) ==> {
                let reach = column_reach(*old(self));
                let wide = if cells@.len() < reach {
                    cells@.len() as int
                } else {
                    reach
                };
                &&& final(self).spec_col_cnt() == if wide > old(self).spec_col_cnt() {
                    wide
                } else {
                    old(self).spec_col_cnt() as int
                }
                &&& forall|j: int| 0 <= j < wide ==> #[trigger] final(self).spec_cell(row as int, j) == Some(cells@[j])
            },
            row < old(self).spec_row_cnt() ==> forall|j: int|
                cells@.len() <= j < old(self).spec_col_cnt() ==> Self::spec_cleared(
                    #[trigger] final(self).spec_cell(row as int, j),
                ),
    {
        let ghost pre = *self;
        let ghost rc0 = pre.spec_row_cnt() as int;
        let ghost cc0 = pre.spec_col_cnt() as int;
        let ghost lim = column_reach(pre);
        // First, we need to shift down all cells that would appear at this
        // row or later
        if self.row_cnt() > row {
            // NOTE: Need to go in reverse, otherwise we would overwrite the
            // row below when trying to shift down!
            let rc = self.row_cnt();
            let mut r = rc;
            while r > row
                invariant
                    row <= r <= rc,
                    rc == rc0,
                    rc0 == pre.spec_row_cnt(),
                    cc0 == pre.spec_col_cnt(),
                    rc0 < usize::MAX,
                    fully_accessible(*self),
                    !Self::spec_grows_rows() ==> self.spec_row_cnt() == rc0,
                    !Self::spec_grows_columns() ==> self.spec_col_cnt() == cc0,
                    self.spec_row_cnt() >= rc0,
                    self.spec_col_cnt() >= cc0,
                    r < rc0 ==> forall|j: int| 0 <= j < cc0 ==> Self::spec_cleared(#[trigger] self.spec_cell(r as int, j)),
                    tracks_cells(pre) ==> {
                        &&& self.spec_col_cnt() == cc0
                        &&& forall|i: int, j: int|
                            #[trigger] self.spec_cell(i, j) == rows_shifted_down(pre, r as int, i, j)
                        &&& self.spec_row_cnt() == rows_shifted_down_cnt(pre, r as int)
                    },
                    cells_fill_bounds(pre) ==> forall|i: int, j: int|
                        0 <= i < rc0 && 0 <= j < cc0 && i != r ==> #[trigger] self.spec_cell(i, j)
                            == rows_shifted_down(pre, r as int, i, j),
                    cells_fill_bounds(pre) ==> {
                        &&& self.spec_col_cnt() == cc0
                        &&& self.spec_row_cnt() == if Self::spec_grows_rows() && cc0 > 0 && r < rc0 {
                            rc0 + 1
                        } else {
                            rc0
                        }
                        &&& Self::spec_grows_rows() && r < rc0 ==> forall|j: int|
                            0 <= j < cc0 ==> #[trigger] self.spec_cell(rc0, j) == pre.spec_cell(rc0 - 1, j)
                    },
                decreases r,
            {
                r = r - 1;
                let cc = self.col_cnt();
                let mut c = cc;
                proof {
                    if tracks_cells(pre) {
                        assert(!exists|j: int| cc0 <= j && #[trigger] pre.spec_cell(r as int, j) is Some);
                    }
                }
                while c > 0
                    invariant
                        row <= r < rc,
                        rc == rc0,
                        rc0 == pre.spec_row_cnt(),
                        cc0 == pre.spec_col_cnt(),
                        rc0 < usize::MAX,
                        c <= cc,
                        fully_accessible(*self),
                        !Self::spec_grows_rows() ==> self.spec_row_cnt() == rc0,
                        !Self::spec_grows_columns() ==> self.spec_col_cnt() == cc0,
                        self.spec_row_cnt() >= rc0,
                        cc0 <= cc,
                        cc <= self.spec_col_cnt(),
                        forall|j: int| c <= j < cc0 ==> Self::spec_cleared(#[trigger] self.spec_cell(r as int, j)),
                        tracks_cells(pre) ==> {
                            &&& cc == cc0
                            &&& self.spec_col_cnt() == cc0
                            &&& forall|i: int, j: int|
                                #[trigger] self.spec_cell(i, j) == row_moving_down(pre, r as int, c as int, i, j)
                            &&& self.spec_row_cnt() == row_moving_down_cnt(pre, r as int, c as int)
                        },
                        cells_fill_bounds(pre) ==> forall|i: int, j: int|
                            0 <= i < rc0 && 0 <= j < cc0 && !(i == r && j >= c) && !(i == r + 1 && j < c)
                                ==> #[trigger] self.spec_cell(i, j) == row_moving_down(pre, r as int, c as int, i, j),
                        cells_fill_bounds(pre) ==> {
                            &&& cc == cc0
                            &&& self.spec_col_cnt() == cc0
                            &&& self.spec_row_cnt() == if Self::spec_grows_rows() && cc0 > 0 && (r + 1 < rc0 || c
                                < cc0) {
                                rc0 + 1
                            } else {
                                rc0
                            }
                            &&& Self::spec_grows_rows() ==> forall|j: int|
                                0 <= j < cc0 && (r + 1 < rc0 || j >= c) ==> #[trigger] self.spec_cell(rc0, j)
                                    == pre.spec_cell(rc0 - 1, j)
                        },
                    decreases c,
                {
                    c = c - 1;
                    let ghost before = *self;
                    proof {
                        self.lemma_access_to_remove(r as int, c as int);
                    }
                    let removed = self.remove_cell(r, c);
                    let ghost after_remove = *self;
                    if let Some(x) = removed {
                        proof {
                            self.lemma_access_to_insert(r + 1, c as int);
                        }
                        self.insert_cell(r + 1, c, x);
                    }
                    proof {
                        assert forall|j: int| c <= j < cc0 implies Self::spec_cleared(
                            #[trigger] self.spec_cell(r as int, j),
                        ) by {
                            assert(before.spec_cell(r as int, j) == before.spec_cell(r as int, j));
                            assert(after_remove.spec_cell(r as int, j) == after_remove.spec_cell(r as int, j));
                        }
                        if tracks_cells(pre) {
                            assert forall|i: int, j: int|
                                #[trigger] self.spec_cell(i, j) == row_moving_down(pre, r as int, c as int, i, j) by {
                                assert(before.spec_cell(i, j) == row_moving_down(pre, r as int, c + 1, i, j));
                                assert(after_remove.spec_cell(i, j) == after_remove.spec_cell(i, j));
                            }
                            assert(before.spec_cell(r as int, c as int) == pre.spec_cell(r as int, c as int));
                            if removed is Some {
                                assert(pre.spec_cell(r as int, c as int) is Some);
                            } else {
                                assert((exists|j: int| c <= j && #[trigger] pre.spec_cell(r as int, j) is Some)
                                    ==> (exists|j: int| c + 1 <= j && #[trigger] pre.spec_cell(r as int, j) is Some));
                            }
                        }
                        if cells_fill_bounds(pre) {
                            if c < cc0 {
                                assert(pre.spec_cell(r as int, c as int) is Some);
                                assert(before.spec_cell(r as int, c as int) == row_moving_down(pre, r as int, c + 1, r as int, c as int));
                            }
                            assert forall|i: int, j: int|
                                0 <= i < rc0 && 0 <= j < cc0 && !(i == r && j >= c) && !(i == r + 1 && j < c)
                                    implies #[trigger] self.spec_cell(i, j) == row_moving_down(pre, r as int, c as int, i, j) by {
                                assert(before.spec_cell(i, j) == before.spec_cell(i, j));
                                assert(after_remove.spec_cell(i, j) == after_remove.spec_cell(i, j));
                            }
                            if Self::spec_grows_rows() {
                                assert forall|j: int|
                                    0 <= j < cc0 && (r + 1 < rc0 || j >= c) implies #[trigger] self.spec_cell(rc0, j)
                                        == pre.spec_cell(rc0 - 1, j) by {
                                    assert(before.spec_cell(rc0, j) == before.spec_cell(rc0, j));
                                    assert(after_remove.spec_cell(rc0, j) == after_remove.spec_cell(rc0, j));
                                }
                            }
                        }
                    }
                }
                proof {
                    if tracks_cells(pre) {
                        assert forall|i: int, j: int|
                            #[trigger] self.spec_cell(i, j) == rows_shifted_down(pre, r as int, i, j) by {
                            assert(pre.spec_cell(r as int, j) == pre.spec_cell(r as int, j));
                            assert(self.spec_cell(i, j) == row_moving_down(pre, r as int, 0, i, j));
                        }
                        if r + 1 == rc0 {
                            if row_occupied(pre, rc0 - 1) {
                                let j = choose|j: int| #[trigger] pre.spec_cell(rc0 - 1, j) is Some;
                                assert(0 <= j && pre.spec_cell(r as int, j) is Some);
                            }
                        }
                    }
                    if cells_fill_bounds(pre) {
                        assert forall|i: int, j: int| 0 <= i < rc0 && 0 <= j < cc0 && i != r implies #[trigger] self.spec_cell(i, j)
                            == rows_shifted_down(pre, r as int, i, j) by {
                            assert(self.spec_cell(i, j) == row_moving_down(pre, r as int, 0, i, j));
                        }
                    }
                }
            }
        } else {
            proof {
                if tracks_cells(pre) {
                    assert forall|i: int, j: int|
                        #[trigger] self.spec_cell(i, j) == rows_shifted_down(pre, row as int, i, j) by {
                        assert(pre.spec_cell(i, j) == pre.spec_cell(i, j));
                        assert(pre.spec_cell(i - 1, j) == pre.spec_cell(i - 1, j));
                    }
                }
            }
        }
        let ghost shifted = *self;
        let ghost shifted_rows = self.spec_row_cnt() as int;
        let n = cells.len();
        let ghost items = cells@;
        // Take the cells off the back, so that they can then be placed from
        // the first column on
        let mut rest = cells;
        let mut reversed: Vec<Self::Data> = Vec::new();
        while rest.len() > 0
            invariant
                n == items.len(),
                rest@ == items.take(rest@.len() as int),
                reversed@.len() == n - rest@.len(),
                forall|k: int| 0 <= k < reversed@.len() ==> #[trigger] reversed@[k] == items[n - 1 - k],
            decreases rest@.len(),
        {
            let x = rest.pop().unwrap();
            reversed.push(x);
        }
        let mut col: usize = 0;
        while reversed.len() > 0
            invariant
                n == items.len(),
                col + reversed@.len() == n,
                forall|k: int| 0 <= k < reversed@.len() ==> #[trigger] reversed@[k] == items[n - 1 - k],
                row < usize::MAX,
                rc0 == pre.spec_row_cnt(),
                cc0 == pre.spec_col_cnt(),
                fully_accessible(*self),
                !Self::spec_grows_rows() ==> self.spec_row_cnt() == rc0,
                !Self::spec_grows_columns() ==> self.spec_col_cnt() == cc0,
                self.spec_row_cnt() >= rc0,
                self.spec_col_cnt() >= cc0,
                row < rc0 ==> forall|j: int| col <= j < cc0 ==> Self::spec_cleared(#[trigger] self.spec_cell(row as int, j)),
                cells_fill_bounds(pre) ==> forall|i: int, j: int|
                    0 <= i < rc0 && 0 <= j < cc0 && !(i == row && j >= col) ==> #[trigger] self.spec_cell(i, j)
                        == if i == row {
                        Some(items[j])
                    } else {
                        rows_shifted_down(pre, row as int, i, j)
                    },
                cells_fill_bounds(pre) && (n <= cc0 || row < rc0 || fills_new_rows(pre)) ==> {
                    &&& self.spec_row_cnt() == if row < rc0 {
                        if Self::spec_grows_rows() && cc0 > 0 {
                            rc0 + 1
                        } else {
                            rc0
                        }
                    } else if col > 0 && fills_new_rows(pre) {
                        row + 1
                    } else {
                        rc0
                    }
                    &&& Self::spec_grows_rows() && row < rc0 ==> forall|j: int|
                        0 <= j < cc0 ==> #[trigger] self.spec_cell(rc0, j) == pre.spec_cell(rc0 - 1, j)
                },
                cells_fill_bounds(pre) && n <= cc0 ==> {
                    &&& self.spec_col_cnt() == cc0
                    &&& Self::spec_grows_rows() && row >= rc0 ==> forall|j: int|
                        0 <= j < col ==> #[trigger] self.spec_cell(row as int, j) == Some(items[j])
                },
                lim == column_reach(pre),
                cells_fill_bounds(pre) && (row < rc0 || fills_new_rows(pre)) ==> {
                    let wide = if col < lim {
                        col as int
                    } else {
                        lim
                    };
                    &&& self.spec_col_cnt() == if wide > cc0 {
                        wide
                    } else {
                        cc0
                    }
                    &&& forall|j: int| 0 <= j < wide ==> #[trigger] self.spec_cell(row as int, j) == Some(items[j])
                },
                tracks_cells(pre) ==> {
                    &&& forall|i: int, j: int|
                        #[trigger] self.spec_cell(i, j) == if i == row && 0 <= j < col {
                            Some(items[j])
                        } else {
                            shifted.spec_cell(i, j)
                        }
                    &&& self.spec_row_cnt() == if col > 0 && row + 1 > shifted_rows {
                        row + 1
                    } else {
                        shifted_rows
                    }
                    &&& self.spec_col_cnt() == if col > cc0 {
                        col as int
                    } else {
                        cc0
                    }
                },
            decreases reversed@.len(),
        {
            let x = reversed.pop().unwrap();
            let ghost before = *self;
            proof {
                self.lemma_access_to_insert(row as int, col as int);
            }
            self.insert_cell(row, col, x);
            proof {
                if row < rc0 {
                    assert forall|j: int| col + 1 <= j < cc0 implies Self::spec_cleared(
                        #[trigger] self.spec_cell(row as int, j),
                    ) by {
                        assert(before.spec_cell(row as int, j) == before.spec_cell(row as int, j));
                    }
                }
                if cells_fill_bounds(pre) {
                    assert forall|i: int, j: int|
                        0 <= i < rc0 && 0 <= j < cc0 && !(i == row && j >= col + 1) implies #[trigger] self.spec_cell(i, j)
                            == if i == row {
                            Some(items[j])
                        } else {
                            rows_shifted_down(pre, row as int, i, j)
                        } by {
                        assert(before.spec_cell(i, j) == before.spec_cell(i, j));
                    }
                }
                if cells_fill_bounds(pre) && (n <= cc0 || row < rc0 || fills_new_rows(pre)) {
                    if Self::spec_grows_rows() && row < rc0 {
                        assert forall|j: int| 0 <= j < cc0 implies #[trigger] self.spec_cell(rc0, j)
                            == pre.spec_cell(rc0 - 1, j) by {
                            assert(before.spec_cell(rc0, j) == before.spec_cell(rc0, j));
                        }
                    }
                }
                if cells_fill_bounds(pre) && (row < rc0 || fills_new_rows(pre)) {
                    let wide = if col + 1 < lim {
                        col + 1
                    } else {
                        lim
                    };
                    assert forall|j: int| 0 <= j < wide implies #[trigger] self.spec_cell(row as int, j)
                        == Some(items[j]) by {
                        assert(before.spec_cell(row as int, j) == before.spec_cell(row as int, j));
                    }
                }
                if cells_fill_bounds(pre) && n <= cc0 {
                    if Self::spec_grows_rows() && row >= rc0 {
                        assert forall|j: int| 0 <= j < col + 1 implies #[trigger] self.spec_cell(row as int, j)
                            == Some(items[j]) by {
                            assert(before.spec_cell(row as int, j) == before.spec_cell(row as int, j));
                        }
                    }
                }
            }
            col = col + 1;
        }
        proof {
            if tracks_cells(pre) {
                assert forall|i: int, j: int| #[trigger] self.spec_cell(i, j) is Some implies 0 <= i
                    < self.spec_row_cnt() && 0 <= j < self.spec_col_cnt() by {
                    if !(i == row && 0 <= j < n) {
                        lemma_rows_shifted_down_within_bounds(pre, row as int, i, j);
                    }
                }
            }
        }
    }

    /// Pushes a row to the end of the table
    fn push_row(&mut self, cells: Vec<Self::Data>)
        requires
            fully_accessible(*old(self)),
            old(self).spec_row_cnt() < usize::MAX,
        ensures
            fully_accessible(*final(self)),
            !Self::spec_grows_rows() ==> final(self).spec_row_cnt() == old(self).spec_row_cnt(),
            !Self::spec_grows_columns() ==> final(self).spec_col_cnt() == old(self).spec_col_cnt(),
            tracks_cells(*old(self)) ==> {
                &&& row_inserted(*old(self), old(self).spec_row_cnt() as int, cells@, *final(self))
                &&& cells_within_bounds(*final(self))
            },
            cells_fill_bounds(*old(self)) ==> {
                &&& final(self).spec_row_cnt() >= old(self).spec_row_cnt()
                &&& final(self).spec_col_cnt() >= old(self).spec_col_cnt()
                &&& forall|i: int, j: int|
                    0 <= i < old(self).spec_row_cnt() && 0 <= j < old(self).spec_col_cnt()
                        ==> #[trigger] final(self).spec_cell(i, j) == old(self).spec_cell(i, j)
            },
            cells_fill_bounds(*old(self)) && fills_new_rows(*old(self)) ==> {
                let reach = column_reach(*old(self));
                let wide = if cells@.len() < reach {
                    cells@.len() as int
                } else {
                    reach
                };
                &&& final(self).spec_row_cnt() == if cells@.len() > 0 {
                    old(self).spec_row_cnt() + 1int
                } else {
                    old(self).spec_row_cnt() as int
                }
                &&& final(self).spec_col_cnt() == if wide > old(self).spec_col_cnt() {
                    wide
                } else {
                    old(self).spec_col_cnt() as int
                }
                &&& forall|j: int|
                    0 <= j < wide ==> #[trigger] final(self).spec_cell(old(self).spec_row_cnt() as int, j)
                        == Some(cells@[j])
            },
    {
        let row = self.row_cnt();
        self.insert_row(row, cells)
    }
    /// Removes the row at the specified position, shifting up all rows after
    /// it, and returns the cells of the removed row
    ///
    /// Returns `None`, leaving the table alone, if the row is not within the
    /// table's bounds. A table whose row count stays as it is keeps in its
    /// last row what removing a cell leaves there.
    fn remove_row(&mut self, row: usize) -> (r: Option<Self::Row>)
        requires
            fully_accessible(*old(self)),
        ensures
            fully_accessible(*final(self)),
            row >= old(self).spec_row_cnt() ==> r is None && *final(self) == *old(self),
            row < old(self).spec_row_cnt() ==> {
                &&& r is Some
                &&& Self::Row::spec_filled_with(row_cells(*old(self), row as int), r->Some_0)
                &&& r->Some_0.spec_well_formed()
            },
            tracks_cells(*old(self)) && row < old(self).spec_row_cnt() ==> {
                &&& row_removed(*old(self), row as int, *final(self))
                &&& cells_within_bounds(*final(self))
            },
            cells_fill_bounds(*old(self)) && row < old(self).spec_row_cnt() ==> filled_row_removed(
                *old(self),
                row as int,
                *final(self),
            ),
            row < old(self).spec_row_cnt() ==> forall|i: int, j: int|
                0 <= i < row && 0 <= j < old(self).spec_col_cnt() ==> #[trigger] final(self).spec_cell(i, j)
                    == old(self).spec_cell(i, j),
            row < old(self).spec_row_cnt() ==> exists|shifted: Self|
                {
                    &&& shifted.spec_row_cnt() == old(self).spec_row_cnt()
                    &&& shifted.spec_col_cnt() == old(self).spec_col_cnt()
                    &&& #[trigger] Self::spec_row_capacity_set(
                        shifted,
                        old(self).spec_row_cnt() - 1,
                        *final(self),
                    )
                },
            row < old(self).spec_row_cnt() ==> {
                &&& final(self).spec_col_cnt() == old(self).spec_col_cnt()
                &&& final(self).spec_row_cnt() == if Self::spec_takes_row_capacity() {
                    old(self).spec_row_cnt() - 1
                } else {
                    old(self).spec_row_cnt() as int
                }
            },
            !Self::spec_takes_row_capacity() && row < old(self).spec_row_cnt() ==> forall|j: int|
                0 <= j < old(self).spec_col_cnt() ==> Self::spec_cleared(
                    #[trigger] final(self).spec_cell(old(self).spec_row_cnt() - 1, j),
                ),
    {
        let ghost pre = *self;
        let row_cnt = self.row_cnt();
        let col_cnt = self.col_cnt();
        // If not in table range, return none
        if row >= row_cnt {
            return None;
        }
        // First, we remove all cells in the specified row and collect them
        let mut removed: Vec<Option<Self::Data>> = Vec::new();
        let mut col: usize = 0;
        while col < col_cnt
            invariant
                row < row_cnt,
                col <= col_cnt,
                row_cnt == pre.spec_row_cnt(),
                col_cnt == pre.spec_col_cnt(),
                self.spec_row_cnt() == row_cnt,
                self.spec_col_cnt() == col_cnt,
                fully_accessible(*self),
                removed@.len() == col,
                forall|k: int| 0 <= k < col ==> #[trigger] removed@[k] == pre.spec_cell(row as int, k),
                forall|j: int| 0 <= j < col ==> Self::spec_cleared(#[trigger] self.spec_cell(row as int, j)),
                forall|j: int| col <= j ==> #[trigger] self.spec_cell(row as int, j) == pre.spec_cell(row as int, j),
                forall|i: int, j: int| i != row ==> #[trigger] self.spec_cell(i, j) == pre.spec_cell(i, j),
                tracks_cells(pre) ==> forall|i: int, j: int|
                    #[trigger] self.spec_cell(i, j) == if i == row && 0 <= j < col {
                        None
                    } else {
                        pre.spec_cell(i, j)
                    },
            decreases col_cnt - col,
        {
            let ghost before = *self;
            proof {
                self.lemma_access_to_remove(row as int, col as int);
            }
            let x = self.remove_cell(row, col);
            proof {
                assert forall|j: int| 0 <= j < col + 1 implies Self::spec_cleared(
                    #[trigger] self.spec_cell(row as int, j),
                ) by {
                    assert(before.spec_cell(row as int, j) == before.spec_cell(row as int, j));
                }
                assert forall|j: int| col + 1 <= j implies #[trigger] self.spec_cell(row as int, j)
                    == pre.spec_cell(row as int, j) by {
                    assert(before.spec_cell(row as int, j) == pre.spec_cell(row as int, j));
                }
                assert forall|i: int, j: int| i != row implies #[trigger] self.spec_cell(i, j)
                    == pre.spec_cell(i, j) by {
                    assert(before.spec_cell(i, j) == pre.spec_cell(i, j));
                }
                if tracks_cells(pre) {
                    assert forall|i: int, j: int|
                        #[trigger] self.spec_cell(i, j) == if i == row && 0 <= j < col + 1 {
                            None
                        } else {
                            pre.spec_cell(i, j)
                        } by {
                        assert(before.spec_cell(i, j) == before.spec_cell(i, j));
                    }
                }
            }
            removed.push(x);
            col = col + 1;
        }
        proof {
            assert(removed@ =~= row_cells(pre, row as int));
        }
        let tmp = Self::Row::new_filled_with(removed);
        // Second, we need to shift up all cells that would appear after this row
        let mut r = row + 1;
        while r < row_cnt
            invariant
                row < r <= row_cnt,
                row_cnt == pre.spec_row_cnt(),
                col_cnt == pre.spec_col_cnt(),
                self.spec_row_cnt() == row_cnt,
                self.spec_col_cnt() == col_cnt,
                fully_accessible(*self),
                forall|i: int, j: int| i < row ==> #[trigger] self.spec_cell(i, j) == pre.spec_cell(i, j),
                forall|j: int| 0 <= j < col_cnt ==> Self::spec_cleared(#[trigger] self.spec_cell(r - 1, j)),
                tracks_cells(pre) ==> forall|i: int, j: int|
                    #[trigger] self.spec_cell(i, j) == rows_moved_up_to(pre, row as int, r as int, i, j),
                cells_fill_bounds(pre) ==> forall|i: int, j: int|
                    0 <= i < row_cnt && 0 <= j < col_cnt && i != r - 1 ==> #[trigger] self.spec_cell(i, j)
                        == filled_rows_moved_up_to(pre, row as int, r as int, i, j),
            decreases row_cnt - r,
        {
            let mut c: usize = 0;
            while c < col_cnt
                invariant
                    row < r < row_cnt,
                    c <= col_cnt,
                    row_cnt == pre.spec_row_cnt(),
                    col_cnt == pre.spec_col_cnt(),
                    self.spec_row_cnt() == row_cnt,
                    self.spec_col_cnt() == col_cnt,
                    fully_accessible(*self),
                    forall|i: int, j: int| i < row ==> #[trigger] self.spec_cell(i, j) == pre.spec_cell(i, j),
                    forall|j: int| c <= j < col_cnt ==> Self::spec_cleared(#[trigger] self.spec_cell(r - 1, j)),
                    forall|j: int| 0 <= j < c ==> Self::spec_cleared(#[trigger] self.spec_cell(r as int, j)),
                    tracks_cells(pre) ==> forall|i: int, j: int|
                        #[trigger] self.spec_cell(i, j) == row_moving_up(pre, row as int, r as int, c as int, i, j),
                    cells_fill_bounds(pre) ==> forall|i: int, j: int|
                        0 <= i < row_cnt && 0 <= j < col_cnt && !(i == r - 1 && j >= c) && !(i == r
                            && j < c) ==> #[trigger] self.spec_cell(i, j) == if i == r - 1 {
                            pre.spec_cell(r as int, j)
                        } else {
                            filled_rows_moved_up_to(pre, row as int, r as int, i, j)
                        },
                decreases col_cnt - c,
            {
                let ghost before = *self;
                proof {
                    self.lemma_access_to_remove(r as int, c as int);
                }
                let moved = self.remove_cell(r, c);
                let ghost after_remove = *self;
                if let Some(x) = moved {
                    proof {
                        self.lemma_access_to_insert(r - 1, c as int);
                    }
                    self.insert_cell(r - 1, c, x);
                }
                proof {
                    assert forall|j: int| c + 1 <= j < col_cnt implies Self::spec_cleared(
                        #[trigger] self.spec_cell(r - 1, j),
                    ) by {
                        assert(before.spec_cell(r - 1, j) == before.spec_cell(r - 1, j));
                        assert(after_remove.spec_cell(r - 1, j) == after_remove.spec_cell(r - 1, j));
                    }
                    assert forall|j: int| 0 <= j < c + 1 implies Self::spec_cleared(
                        #[trigger] self.spec_cell(r as int, j),
                    ) by {
                        assert(before.spec_cell(r as int, j) == before.spec_cell(r as int, j));
                        assert(after_remove.spec_cell(r as int, j) == after_remove.spec_cell(r as int, j));
                    }
                    assert forall|i: int, j: int| i < row implies #[trigger] self.spec_cell(i, j) == pre.spec_cell(i, j) by {
                        assert(before.spec_cell(i, j) == before.spec_cell(i, j));
                        assert(after_remove.spec_cell(i, j) == after_remove.spec_cell(i, j));
                    }
                    if tracks_cells(pre) {
                        assert forall|i: int, j: int|
                            #[trigger] self.spec_cell(i, j) == row_moving_up(pre, row as int, r as int, c + 1, i, j) by {
                            assert(before.spec_cell(i, j) == row_moving_up(pre, row as int, r as int, c as int, i, j));
                            assert(after_remove.spec_cell(i, j) == after_remove.spec_cell(i, j));
                        }
                        assert(before.spec_cell(r as int, c as int) == pre.spec_cell(r as int, c as int));
                        assert(before.spec_cell(r - 1, c as int) is None);
                    }
                    if cells_fill_bounds(pre) {
                        assert(pre.spec_cell(r as int, c as int) is Some);
                        assert(before.spec_cell(r as int, c as int) == pre.spec_cell(r as int, c as int));
                        assert forall|i: int, j: int|
                            0 <= i < row_cnt && 0 <= j < col_cnt && !(i == r - 1 && j >= c + 1) && !(i
                                == r && j < c + 1) implies #[trigger] self.spec_cell(i, j) == if i == r - 1 {
                            pre.spec_cell(r as int, j)
                        } else {
                            filled_rows_moved_up_to(pre, row as int, r as int, i, j)
                        } by {
                            assert(before.spec_cell(i, j) == before.spec_cell(i, j));
                            assert(after_remove.spec_cell(i, j) == after_remove.spec_cell(i, j));
                        }
                    }
                }
                c = c + 1;
            }
            proof {
                if tracks_cells(pre) {
                    assert forall|i: int, j: int|
                        #[trigger] self.spec_cell(i, j) == rows_moved_up_to(pre, row as int, r + 1, i, j) by {
                        assert(self.spec_cell(i, j) == row_moving_up(pre, row as int, r as int, col_cnt as int, i, j));
                        assert(pre.spec_cell(r as int, j) == pre.spec_cell(r as int, j));
                    }
                }
                if cells_fill_bounds(pre) {
                    assert forall|i: int, j: int|
                        0 <= i < row_cnt && 0 <= j < col_cnt && i != r implies #[trigger] self.spec_cell(i, j)
                            == filled_rows_moved_up_to(pre, row as int, r + 1, i, j) by {
                        assert(self.spec_cell(i, j) == self.spec_cell(i, j));
                    }
                }
            }
            r = r + 1;
        }
        proof {
            if tracks_cells(pre) {
                assert forall|i: int, j: int|
                    #[trigger] self.spec_cell(i, j) == rows_shifted_up(pre, row as int, i, j) by {
                    assert(self.spec_cell(i, j) == rows_moved_up_to(pre, row as int, row_cnt as int, i, j));
                    assert(pre.spec_cell(i + 1, j) == pre.spec_cell(i + 1, j));
                    assert(pre.spec_cell(i, j) == pre.spec_cell(i, j));
                }
            }
        }
        // Flag to table that the preferred row capacity is now one less
        // if the row we removed was within capacity
        let ghost shifted = *self;
        if row < row_cnt {
            self.set_row_capacity(row_cnt - 1);
        }
        assert(Self::spec_row_capacity_set(shifted, row_cnt - 1, *self));
        proof {
            if tracks_cells(pre) {
                assert forall|i: int, j: int| #[trigger] self.spec_cell(i, j) is Some implies 0 <= i
                    < self.spec_row_cnt() && 0 <= j < self.spec_col_cnt() by {
                    assert(rows_shifted_up(pre, row as int, i, j) is Some);
                    assert(pre.spec_cell(i + 1, j) == pre.spec_cell(i + 1, j));
                    assert(pre.spec_cell(i, j) == pre.spec_cell(i, j));
                }
            }
        }
        Some(tmp)
    }

    /// Removes the last row of the table and returns its cells, or `None` if
    /// the table has no rows
    fn pop_row(&mut self) -> (r: Option<Self::Row>)
        requires
            fully_accessible(*old(self)),
        ensures
            fully_accessible(*final(self)),
            old(self).spec_row_cnt() == 0 ==> r is None && *final(self) == *old(self),
            old(self).spec_row_cnt() > 0 ==> {
                &&& r is Some
                &&& Self::Row::spec_filled_with(
                    row_cells(*old(self), old(self).spec_row_cnt() - 1),
                    r->Some_0,
                )
                &&& r->Some_0.spec_well_formed()
            },
            tracks_cells(*old(self)) && old(self).spec_row_cnt() > 0 ==> {
                &&& row_removed(*old(self), old(self).spec_row_cnt() - 1, *final(self))
                &&& cells_within_bounds(*final(self))
            },
            old(self).spec_row_cnt() > 0 ==> forall|i: int, j: int|
                0 <= i < old(self).spec_row_cnt() - 1 && 0 <= j < old(self).spec_col_cnt()
                    ==> #[trigger] final(self).spec_cell(i, j) == old(self).spec_cell(i, j),
            cells_fill_bounds(*old(self)) && old(self).spec_row_cnt() > 0 ==> filled_row_removed(
                *old(self),
                old(self).spec_row_cnt() - 1,
                *final(self),
            ),
            old(self).spec_row_cnt() > 0 ==> exists|shifted: Self|
                {
                    &&& shifted.spec_row_cnt() == old(self).spec_row_cnt()
                    &&& shifted.spec_col_cnt() == old(self).spec_col_cnt()
                    &&& #[trigger] Self::spec_row_capacity_set(
                        shifted,
                        old(self).spec_row_cnt() - 1,
                        *final(self),
                    )
                },
            old(self).spec_row_cnt() > 0 ==> {
                &&& final(self).spec_col_cnt() == old(self).spec_col_cnt()
                &&& final(self).spec_row_cnt() == if Self::spec_takes_row_capacity() {
                    old(self).spec_row_cnt() - 1
                } else {
                    old(self).spec_row_cnt() as int
                }
            },
            !Self::spec_takes_row_capacity() && old(self).spec_row_cnt() > 0 ==> forall|j: int|
                0 <= j < old(self).spec_col_cnt() ==> Self::spec_cleared(
                    #[trigger] final(self).spec_cell(old(self).spec_row_cnt() - 1, j),
                ),
    {
        let max_rows = self.row_cnt();
        self.remove_row(
            if max_rows > 0 {
                max_rows - 1
            } else {
                0
            },
        )
    }

    /// Inserts a new column into the table at the given position, shifting
    /// right all columns after it
    ///
    /// The rows are shifted one at a time, from the last, each over the
    /// columns the table has when its turn comes; a table that stretches its
    /// columns on a write past the last column therefore gains a column per
    /// row, up to the column count it can reach, and that count must stay
    /// below the largest `usize`. Below the given cells, the new column keeps
    /// what removing a cell leaves there.
    fn insert_column(&mut self, col: usize, cells: Vec<Self::Data>)
        requires
            fully_accessible(*old(self)),
            old(self).spec_col_cnt() < usize::MAX,
            !tracks_cells(*old(self)) ==> old(self).spec_row_cnt() + old(self).spec_col_cnt() < usize::MAX
                || (!Self::spec_is_sparse() && cells_fill_bounds(*old(self)) && column_reach(*old(self))
                < usize::MAX),
            col < usize::MAX,
        ensures
            fully_accessible(*final(self)),
            !Self::spec_grows_rows() ==> final(self).spec_row_cnt() == old(self).spec_row_cnt(),
            !Self::spec_grows_columns() ==> final(self).spec_col_cnt() == old(self).spec_col_cnt(),
            tracks_cells(*old(self)) ==> {
                &&& column_inserted(*old(self), col as int, cells@, *final(self))
                &&& cells_within_bounds(*final(self))
            },
            cells_fill_bounds(*old(self)) ==> filled_column_inserted(*old(self), col as int, cells@, *final(self)),
            cells@.len() <= old(self).spec_row_cnt() ==> final(self).spec_row_cnt() == old(self).spec_row_cnt(),
            !Self::spec_is_sparse() && cells_fill_bounds(*old(self)) && col < old(self).spec_col_cnt() ==> {
                let reach = column_reach(*old(self));
                let spread = old(self).spec_col_cnt() + old(self).spec_row_cnt();
                &&& final(self).spec_col_cnt() == if spread < reach {
                    spread as int
                } else {
                    reach
                }
                &&& old(self).spec_col_cnt() < reach ==> forall|i: int|
                    0 <= i < old(self).spec_row_cnt() ==> #[trigger] final(self).spec_cell(
                        i,
                        old(self).spec_col_cnt() as int,
                    ) == old(self).spec_cell(i, old(self).spec_col_cnt() - 1)
            },
            col >= old(self).spec_col_cnt() && (old(self).spec_row_cnt() > 0 || Self::spec_grows_rows())
                && cells@.len() > 0 && Self::spec_grows_columns() && col < Self::spec_col_limit() ==> {
                &&& final(self).spec_col_cnt() == col + 1
                &&& final(self).spec_row_cnt() == if Self::spec_grows_rows() && cells@.len() > old(self).spec_row_cnt() {
                    cells@.len() as int
                } else {
                    old(self).spec_row_cnt() as int
                }
                &&& forall|i: int|
                    0 <= i < cells@.len() && (Self::spec_grows_rows() || i < old(self).spec_row_cnt())
                        ==> #[trigger] final(self).spec_cell(i, col as int) == Some(cells@[i])
            },
            col >= old(self).spec_col_cnt() && cells@.len() <= old(self).spec_row_cnt() && !(Self::spec_grows_columns()
                && col < Self::spec_col_limit()) ==> final(self).spec_col_cnt() == old(self).spec_col_cnt(),
            col < old(self).spec_col_cnt() ==> forall|i: int|
                cells@.len() <= i < old(self).spec_row_cnt() ==> Self::spec_cleared(
                    #[trigger] final(self).spec_cell(i, col as int),
                ),
            col < old(self).spec_col_cnt() ==> {
                &&& final(self).spec_row_cnt() == if Self::spec_grows_rows() && cells@.len() > old(self).spec_row_cnt() {
                    cells@.len() as int
                } else {
                    old(self).spec_row_cnt() as int
                }
                &&& Self::spec_grows_rows() ==> forall|i: int|
                    old(self).spec_row_cnt() <= i < cells@.len() ==> #[trigger] final(self).spec_cell(i, col as int)
                        == Some(cells@[i])
            },
    {
        let ghost pre = *self;
        let ghost rc0 = pre.spec_row_cnt() as int;
        let ghost cc0 = pre.spec_col_cnt() as int;
        let ghost lim = column_reach(pre);
        let ghost widen = !Self::spec_is_sparse() && cells_fill_bounds(pre);
        // First, we need to shift right all cells that would appear at this
        // column or later
        if self.col_cnt() > col {
            // NOTE: Need to go in reverse, otherwise we would overwrite the
            // column right when trying to shift right!
            let rc = self.row_cnt();
            let mut r = rc;
            while r > 0
                invariant
                    r <= rc,
                    rc == rc0,
                    col < cc0,
                    rc0 == pre.spec_row_cnt(),
                    cc0 == pre.spec_col_cnt(),
                    cc0 < usize::MAX,
                    !tracks_cells(pre) ==> rc0 + cc0 < usize::MAX || (widen && lim < usize::MAX),
                    self.spec_col_cnt() <= cc0 + (rc0 - r),
                    fully_accessible(*self),
                    !Self::spec_grows_rows() ==> self.spec_row_cnt() == rc0,
                    !Self::spec_grows_columns() ==> self.spec_col_cnt() == cc0,
                    self.spec_row_cnt() == rc0,
                    self.spec_col_cnt() >= cc0,
                    forall|i: int| r <= i < rc0 ==> Self::spec_cleared(#[trigger] self.spec_cell(i, col as int)),
                    cells_fill_bounds(pre) ==> forall|i: int, j: int|
                        0 <= i < rc0 && 0 <= j < cc0 && !(i >= r && j == col) ==> #[trigger] self.spec_cell(i, j)
                            == if i >= r {
                            cols_shifted_right(pre, col as int, i, j)
                        } else {
                            pre.spec_cell(i, j)
                        },
                    lim == column_reach(pre),
                    widen == (!Self::spec_is_sparse() && cells_fill_bounds(pre)),
                    widen ==> {
                        &&& self.spec_col_cnt() == if cc0 + (rc0 - r) < lim {
                            cc0 + (rc0 - r)
                        } else {
                            lim
                        }
                        &&& forall|i: int, j: int|
                            0 <= i < r && 0 <= j < self.spec_col_cnt() ==> #[trigger] self.spec_cell(i, j) is Some
                        &&& cc0 < lim ==> forall|i: int|
                            r <= i < rc0 ==> #[trigger] self.spec_cell(i, cc0) == pre.spec_cell(i, cc0 - 1)
                    },
                    tracks_cells(pre) ==> {
                        &&& self.spec_row_cnt() == rc0
                        &&& forall|i: int, j: int|
                            #[trigger] self.spec_cell(i, j) == if i >= r {
                                cols_shifted_right(pre, col as int, i, j)
                            } else {
                                pre.spec_cell(i, j)
                            }
                        &&& self.spec_col_cnt() == cols_moving_right_cnt(pre, r - 1, cc0)
                    },
                decreases r,
            {
                r = r - 1;
                let cc = self.col_cnt();
                let mut c = cc;
                proof {
                    if tracks_cells(pre) {
                        assert(cc == cols_moving_right_cnt(pre, r as int, cc as int));
                    }
                }
                while c > col
                    invariant
                        r < rc,
                        c <= cc,
                        rc == rc0,
                        col < cc0,
                        rc0 == pre.spec_row_cnt(),
                        cc0 == pre.spec_col_cnt(),
                        cc0 < usize::MAX,
                        !tracks_cells(pre) ==> rc0 + cc0 < usize::MAX || (widen && lim < usize::MAX),
                        cc <= cc0 + (rc0 - r - 1),
                        self.spec_col_cnt() <= cc + 1,
                        fully_accessible(*self),
                        !Self::spec_grows_rows() ==> self.spec_row_cnt() == rc0,
                        !Self::spec_grows_columns() ==> self.spec_col_cnt() == cc0,
                        self.spec_row_cnt() == rc0,
                        cc0 <= cc,
                        cc <= self.spec_col_cnt(),
                        col <= c,
                        forall|i: int| r < i < rc0 ==> Self::spec_cleared(#[trigger] self.spec_cell(i, col as int)),
                        c == col ==> Self::spec_cleared(self.spec_cell(r as int, col as int)),
                        cells_fill_bounds(pre) ==> forall|i: int, j: int|
                            0 <= i < rc0 && 0 <= j < cc0 && !(i > r && j == col) && !(i == r && j == c)
                                ==> #[trigger] self.spec_cell(i, j) == if i > r {
                                cols_shifted_right(pre, col as int, i, j)
                            } else if i < r || j < c {
                                pre.spec_cell(i, j)
                            } else {
                                pre.spec_cell(i, j - 1)
                            },
                        lim == column_reach(pre),
                        widen == (!Self::spec_is_sparse() && cells_fill_bounds(pre)),
                        widen ==> {
                            &&& cc == if cc0 + (rc0 - r - 1) < lim {
                                cc0 + (rc0 - r - 1)
                            } else {
                                lim
                            }
                            &&& self.spec_col_cnt() == if c < cc && cc < lim {
                                cc + 1
                            } else {
                                cc as int
                            }
                            &&& forall|i: int, j: int|
                                0 <= i < r && 0 <= j < self.spec_col_cnt() ==> #[trigger] self.spec_cell(i, j) is Some
                            &&& forall|j: int| 0 <= j < c ==> #[trigger] self.spec_cell(r as int, j) is Some
                            &&& cc0 < lim ==> forall|i: int|
                                r < i < rc0 ==> #[trigger] self.spec_cell(i, cc0) == pre.spec_cell(i, cc0 - 1)
                            &&& cc0 < lim && c < cc0 ==> self.spec_cell(r as int, cc0) == pre.spec_cell(r as int, cc0 - 1)
                        },
                        tracks_cells(pre) ==> {
                            &&& cc0 <= cc <= cc0 + 1
                            &&& col <= c
                            &&& self.spec_row_cnt() == rc0
                            &&& forall|i: int, j: int|
                                #[trigger] self.spec_cell(i, j) == cols_moving_right(pre, col as int, r as int, c as int, i, j)
                            &&& self.spec_col_cnt() == cols_moving_right_cnt(pre, r as int, c as int)
                        },
                    decreases c,
                {
                    c = c - 1;
                    let ghost before = *self;
                    proof {
                        self.lemma_access_to_remove(r as int, c as int);
                    }
                    let moved = self.remove_cell(r, c);
                    let ghost after_remove = *self;
                    if let Some(x) = moved {
                        proof {
                            if tracks_cells(pre) {
                                assert(before.spec_cell(r as int, c as int) == pre.spec_cell(r as int, c as int));
                            }
                            self.lemma_access_to_insert(r as int, c + 1);
                        }
                        self.insert_cell(r, c + 1, x);
                    }
                    proof {
                        assert forall|i: int| r < i < rc0 implies Self::spec_cleared(
                            #[trigger] self.spec_cell(i, col as int),
                        ) by {
                            assert(before.spec_cell(i, col as int) == before.spec_cell(i, col as int));
                            assert(after_remove.spec_cell(i, col as int) == after_remove.spec_cell(i, col as int));
                        }
                        assert(after_remove.spec_cell(r as int, c as int) == after_remove.spec_cell(r as int, c as int));
                        if tracks_cells(pre) {
                            assert forall|i: int, j: int|
                                #[trigger] self.spec_cell(i, j) == cols_moving_right(pre, col as int, r as int, c as int, i, j) by {
                                assert(before.spec_cell(i, j) == cols_moving_right(pre, col as int, r as int, c + 1, i, j));
                                assert(after_remove.spec_cell(i, j) == after_remove.spec_cell(i, j));
                            }
                            assert(before.spec_cell(r as int, c as int) == pre.spec_cell(r as int, c as int));
                            assert(pre.spec_cell(r as int, cc0) is None);
                        }
                        if widen {
                            assert forall|i: int, j: int|
                                0 <= i < r && 0 <= j < self.spec_col_cnt() implies #[trigger] self.spec_cell(i, j) is Some by {
                                if j < before.spec_col_cnt() {
                                    assert(before.spec_cell(i, j) is Some);
                                    assert(after_remove.spec_cell(i, j) == after_remove.spec_cell(i, j));
                                }
                            }
                            assert forall|j: int| 0 <= j < c implies #[trigger] self.spec_cell(r as int, j) is Some by {
                                assert(before.spec_cell(r as int, j) is Some);
                                assert(after_remove.spec_cell(r as int, j) == after_remove.spec_cell(r as int, j));
                            }
                            if cc0 < lim {
                                assert forall|i: int| r < i < rc0 implies #[trigger] self.spec_cell(i, cc0)
                                    == pre.spec_cell(i, cc0 - 1) by {
                                    assert(before.spec_cell(i, cc0) == pre.spec_cell(i, cc0 - 1));
                                    assert(after_remove.spec_cell(i, cc0) == after_remove.spec_cell(i, cc0));
                                }
                                if c < cc0 {
                                    assert(before.spec_cell(r as int, cc0) == before.spec_cell(r as int, cc0));
                                    assert(after_remove.spec_cell(r as int, cc0) == after_remove.spec_cell(r as int, cc0));
                                }
                            }
                        }
                        if cells_fill_bounds(pre) {
                            if c < cc0 {
                                assert(pre.spec_cell(r as int, c as int) is Some);
                                assert(before.spec_cell(r as int, c as int) == pre.spec_cell(r as int, c as int));
                            }
                            assert forall|i: int, j: int|
                                0 <= i < rc0 && 0 <= j < cc0 && !(i > r && j == col) && !(i == r && j == c)
                                    implies #[trigger] self.spec_cell(i, j) == if i > r {
                                    cols_shifted_right(pre, col as int, i, j)
                                } else if i < r || j < c {
                                    pre.spec_cell(i, j)
                                } else {
                                    pre.spec_cell(i, j - 1)
                                } by {
                                assert(before.spec_cell(i, j) == before.spec_cell(i, j));
                                assert(after_remove.spec_cell(i, j) == after_remove.spec_cell(i, j));
                            }
                        }
                    }
                }
                proof {
                    if tracks_cells(pre) {
                        assert forall|i: int, j: int|
                            #[trigger] self.spec_cell(i, j) == if i >= r {
                                cols_shifted_right(pre, col as int, i, j)
                            } else {
                                pre.spec_cell(i, j)
                            } by {
                            assert(self.spec_cell(i, j) == cols_moving_right(pre, col as int, r as int, col as int, i, j));
                        }
                        assert((exists|i: int| r - 1 < i && #[trigger] pre.spec_cell(i, cc0 - 1) is Some)
                            == ((exists|i: int| r < i && #[trigger] pre.spec_cell(i, cc0 - 1) is Some)
                            || pre.spec_cell(r as int, cc0 - 1) is Some));
                    }
                    if cells_fill_bounds(pre) {
                        assert forall|i: int, j: int|
                            0 <= i < rc0 && 0 <= j < cc0 && !(i >= r && j == col) implies #[trigger] self.spec_cell(i, j)
                                == if i >= r {
                                cols_shifted_right(pre, col as int, i, j)
                            } else {
                                pre.spec_cell(i, j)
                            } by {
                            assert(self.spec_cell(i, j) == self.spec_cell(i, j));
                        }
                    }
                }
            }
            proof {
                if tracks_cells(pre) {
                    assert forall|i: int, j: int|
                        #[trigger] self.spec_cell(i, j) == cols_shifted_right(pre, col as int, i, j) by {
                        assert(pre.spec_cell(i, j) == pre.spec_cell(i, j));
                        assert(pre.spec_cell(i, j - 1) == pre.spec_cell(i, j - 1));
                    }
                    if column_occupied(pre, cc0 - 1) {
                        let i = choose|i: int| #[trigger] pre.spec_cell(i, cc0 - 1) is Some;
                        assert(-1 < i && pre.spec_cell(i, cc0 - 1) is Some);
                    }
                }
            }
        } else {
            proof {
                if tracks_cells(pre) {
                    assert forall|i: int, j: int|
                        #[trigger] self.spec_cell(i, j) == cols_shifted_right(pre, col as int, i, j) by {
                        assert(pre.spec_cell(i, j) == pre.spec_cell(i, j));
                        assert(pre.spec_cell(i, j - 1) == pre.spec_cell(i, j - 1));
                    }
                }
            }
        }
        let ghost shifted = *self;
        let ghost shifted_cols = self.spec_col_cnt() as int;
        let n = cells.len();
        let ghost items = cells@;
        // Take the cells off the back, so that they can then be placed from
        // the first row on
        let mut rest = cells;
        let mut reversed: Vec<Self::Data> = Vec::new();
        while rest.len() > 0
            invariant
                n == items.len(),
                rest@ == items.take(rest@.len() as int),
                reversed@.len() == n - rest@.len(),
                forall|k: int| 0 <= k < reversed@.len() ==> #[trigger] reversed@[k] == items[n - 1 - k],
            decreases rest@.len(),
        {
            let x = rest.pop().unwrap();
            reversed.push(x);
        }
        let mut row: usize = 0;
        while reversed.len() > 0
            invariant
                n == items.len(),
                row + reversed@.len() == n,
                forall|k: int| 0 <= k < reversed@.len() ==> #[trigger] reversed@[k] == items[n - 1 - k],
                col < usize::MAX,
                rc0 == pre.spec_row_cnt(),
                cc0 == pre.spec_col_cnt(),
                fully_accessible(*self),
                !Self::spec_grows_rows() ==> self.spec_row_cnt() == rc0,
                !Self::spec_grows_columns() ==> self.spec_col_cnt() == cc0,
                self.spec_row_cnt() >= rc0,
                n <= rc0 ==> self.spec_row_cnt() == rc0,
                self.spec_col_cnt() >= cc0,
                col < cc0 ==> forall|i: int| n <= i < rc0 ==> Self::spec_cleared(#[trigger] self.spec_cell(i, col as int)),
                col < cc0 ==> {
                    &&& self.spec_row_cnt() == if Self::spec_grows_rows() && row > rc0 {
                        row as int
                    } else {
                        rc0
                    }
                    &&& Self::spec_grows_rows() ==> forall|i: int|
                        rc0 <= i < row ==> #[trigger] self.spec_cell(i, col as int) == Some(items[i])
                },
                cells_fill_bounds(pre) ==> forall|i: int, j: int|
                    0 <= i < rc0 && 0 <= j < cc0 && !(j == col && i >= row) ==> #[trigger] self.spec_cell(i, j)
                        == if j == col {
                        Some(items[i])
                    } else {
                        cols_shifted_right(pre, col as int, i, j)
                    },
                cc0 <= col && (rc0 > 0 || Self::spec_grows_rows()) && Self::spec_grows_columns() && col
                    < Self::spec_col_limit() ==> {
                    &&& self.spec_col_cnt() == if row > 0 {
                        col + 1
                    } else {
                        cc0
                    }
                    &&& self.spec_row_cnt() == if Self::spec_grows_rows() && row > rc0 {
                        row as int
                    } else {
                        rc0
                    }
                    &&& forall|i: int|
                        0 <= i < row && (Self::spec_grows_rows() || i < rc0) ==> #[trigger] self.spec_cell(i, col as int)
                            == Some(items[i])
                },
                cc0 <= col && n <= rc0 && !(Self::spec_grows_columns() && col < Self::spec_col_limit())
                    ==> self.spec_col_cnt() == cc0,
                lim == column_reach(pre),
                widen == (!Self::spec_is_sparse() && cells_fill_bounds(pre)),
                widen && col < cc0 ==> {
                    &&& self.spec_col_cnt() == if cc0 + rc0 < lim {
                        cc0 + rc0
                    } else {
                        lim
                    }
                    &&& cc0 < lim ==> forall|i: int|
                        0 <= i < rc0 ==> #[trigger] self.spec_cell(i, cc0) == pre.spec_cell(i, cc0 - 1)
                },
                tracks_cells(pre) ==> {
                    &&& forall|i: int, j: int|
                        #[trigger] self.spec_cell(i, j) == if j == col && 0 <= i < row {
                            Some(items[i])
                        } else {
                            shifted.spec_cell(i, j)
                        }
                    &&& self.spec_col_cnt() == if row > 0 && col + 1 > shifted_cols {
                        col + 1
                    } else {
                        shifted_cols
                    }
                    &&& self.spec_row_cnt() == if row > rc0 {
                        row as int
                    } else {
                        rc0
                    }
                },
            decreases reversed@.len(),
        {
            let x = reversed.pop().unwrap();
            let ghost before = *self;
            proof {
                self.lemma_access_to_insert(row as int, col as int);
            }
            self.insert_cell(row, col, x);
            proof {
                if col < cc0 && Self::spec_grows_rows() {
                    assert forall|i: int| rc0 <= i < row + 1 implies #[trigger] self.spec_cell(i, col as int)
                        == Some(items[i]) by {
                        assert(before.spec_cell(i, col as int) == before.spec_cell(i, col as int));
                    }
                }
                if col < cc0 {
                    assert forall|i: int| n <= i < rc0 implies Self::spec_cleared(
                        #[trigger] self.spec_cell(i, col as int),
                    ) by {
                        assert(before.spec_cell(i, col as int) == before.spec_cell(i, col as int));
                    }
                }
                if cc0 <= col && (rc0 > 0 || Self::spec_grows_rows()) && Self::spec_grows_columns() && col
                    < Self::spec_col_limit() {
                    assert forall|i: int|
                        0 <= i < row + 1 && (Self::spec_grows_rows() || i < rc0) implies #[trigger] self.spec_cell(
                        i,
                        col as int,
                    ) == Some(items[i]) by {
                        assert(before.spec_cell(i, col as int) == before.spec_cell(i, col as int));
                    }
                }
                if widen && col < cc0 && cc0 < lim {
                    assert forall|i: int| 0 <= i < rc0 implies #[trigger] self.spec_cell(i, cc0)
                        == pre.spec_cell(i, cc0 - 1) by {
                        assert(before.spec_cell(i, cc0) == pre.spec_cell(i, cc0 - 1));
                    }
                }
                if cells_fill_bounds(pre) {
                    assert forall|i: int, j: int|
                        0 <= i < rc0 && 0 <= j < cc0 && !(j == col && i >= row + 1) implies #[trigger] self.spec_cell(i, j)
                            == if j == col {
                            Some(items[i])
                        } else {
                            cols_shifted_right(pre, col as int, i, j)
                        } by {
                        assert(before.spec_cell(i, j) == before.spec_cell(i, j));
                    }
                }
            }
            row = row + 1;
        }
        proof {
            if tracks_cells(pre) {
                assert forall|i: int, j: int| #[trigger] self.spec_cell(i, j) is Some implies 0 <= i
                    < self.spec_row_cnt() && 0 <= j < self.spec_col_cnt() by {
                    if !(j == col && 0 <= i < n) {
                        lemma_cols_shifted_right_within_bounds(pre, col as int, i, j);
                    }
                }
            }
        }
    }

    /// Pushes a column to the end of the table
    fn push_column(&mut self, cells: Vec<Self::Data>)
        requires
            fully_accessible(*old(self)),
            old(self).spec_col_cnt() < usize::MAX,
            !tracks_cells(*old(self)) ==> old(self).spec_row_cnt() + old(self).spec_col_cnt() < usize::MAX
                || (!Self::spec_is_sparse() && cells_fill_bounds(*old(self)) && column_reach(*old(self))
                < usize::MAX),
        ensures
            fully_accessible(*final(self)),
            !Self::spec_grows_rows() ==> final(self).spec_row_cnt() == old(self).spec_row_cnt(),
            !Self::spec_grows_columns() ==> final(self).spec_col_cnt() == old(self).spec_col_cnt(),
            tracks_cells(*old(self)) ==> {
                &&& column_inserted(*old(self), old(self).spec_col_cnt() as int, cells@, *final(self))
                &&& cells_within_bounds(*final(self))
            },
            cells_fill_bounds(*old(self)) ==> {
                &&& final(self).spec_row_cnt() >= old(self).spec_row_cnt()
                &&& final(self).spec_col_cnt() >= old(self).spec_col_cnt()
                &&& forall|i: int, j: int|
                    0 <= i < old(self).spec_row_cnt() && 0 <= j < old(self).spec_col_cnt()
                        ==> #[trigger] final(self).spec_cell(i, j) == old(self).spec_cell(i, j)
            },
            (old(self).spec_row_cnt() > 0 || Self::spec_grows_rows()) && cells@.len() > 0
                && Self::spec_grows_columns() && old(self).spec_col_cnt() < Self::spec_col_limit() ==> {
                &&& final(self).spec_col_cnt() == old(self).spec_col_cnt() + 1
                &&& final(self).spec_row_cnt() == if Self::spec_grows_rows() && cells@.len() > old(self).spec_row_cnt() {
                    cells@.len() as int
                } else {
                    old(self).spec_row_cnt() as int
                }
                &&& forall|i: int|
                    0 <= i < cells@.len() && (Self::spec_grows_rows() || i < old(self).spec_row_cnt())
                        ==> #[trigger] final(self).spec_cell(i, old(self).spec_col_cnt() as int) == Some(cells@[i])
            },
            cells@.len() <= old(self).spec_row_cnt() && !(Self::spec_grows_columns() && old(self).spec_col_cnt()
                < Self::spec_col_limit()) ==> final(self).spec_col_cnt() == old(self).spec_col_cnt(),
    {
        let col = self.col_cnt();
        self.insert_column(col, cells)
    }

    /// Removes the column at the specified position, shifting left all
    /// columns after it, and returns the cells of the removed column
    ///
    /// Returns `None`, leaving the table alone, if the column is not within
    /// the table's bounds. A table whose column count stays as it is keeps in
    /// its last column what removing a cell leaves there.
    fn remove_column(&mut self, col: usize) -> (r: Option<Self::Column>)
        requires
            fully_accessible(*old(self)),
        ensures
            fully_accessible(*final(self)),
            col >= old(self).spec_col_cnt() ==> r is None && *final(self) == *old(self),
            col < old(self).spec_col_cnt() ==> {
                &&& r is Some
                &&& Self::Column::spec_filled_with(column_cells(*old(self), col as int), r->Some_0)
                &&& r->Some_0.spec_well_formed()
            },
            tracks_cells(*old(self)) && col < old(self).spec_col_cnt() ==> {
                &&& column_removed(*old(self), col as int, *final(self))
                &&& cells_within_bounds(*final(self))
            },
            cells_fill_bounds(*old(self)) && col < old(self).spec_col_cnt() ==> filled_column_removed(
                *old(self),
                col as int,
                *final(self),
            ),
            col < old(self).spec_col_cnt() ==> forall|i: int, j: int|
                0 <= i < old(self).spec_row_cnt() && 0 <= j < col ==> #[trigger] final(self).spec_cell(i, j)
                    == old(self).spec_cell(i, j),
            col < old(self).spec_col_cnt() ==> exists|shifted: Self|
                {
                    &&& shifted.spec_row_cnt() == old(self).spec_row_cnt()
                    &&& shifted.spec_col_cnt() == old(self).spec_col_cnt()
                    &&& #[trigger] Self::spec_column_capacity_set(
                        shifted,
                        old(self).spec_col_cnt() - 1,
                        *final(self),
                    )
                },
            col < old(self).spec_col_cnt() ==> {
                &&& final(self).spec_row_cnt() == old(self).spec_row_cnt()
                &&& final(self).spec_col_cnt() == if Self::spec_takes_column_capacity() {
                    old(self).spec_col_cnt() - 1
                } else {
                    old(self).spec_col_cnt() as int
                }
            },
            !Self::spec_takes_column_capacity() && col < old(self).spec_col_cnt() ==> forall|i: int|
                0 <= i < old(self).spec_row_cnt() ==> Self::spec_cleared(
                    #[trigger] final(self).spec_cell(i, old(self).spec_col_cnt() - 1),
                ),
    {
        let ghost pre = *self;
        let row_cnt = self.row_cnt();
        let col_cnt = self.col_cnt();
        // If not in table range, return none
        if col >= col_cnt {
            return None;
        }
        // First, we remove all cells in the specified column and collect them
        let mut removed: Vec<Option<Self::Data>> = Vec::new();
        let mut row: usize = 0;
        while row < row_cnt
            invariant
                col < col_cnt,
                row <= row_cnt,
                row_cnt == pre.spec_row_cnt(),
                col_cnt == pre.spec_col_cnt(),
                self.spec_row_cnt() == row_cnt,
                self.spec_col_cnt() == col_cnt,
                fully_accessible(*self),
                removed@.len() == row,
                forall|k: int| 0 <= k < row ==> #[trigger] removed@[k] == pre.spec_cell(k, col as int),
                forall|i: int| 0 <= i < row ==> Self::spec_cleared(#[trigger] self.spec_cell(i, col as int)),
                forall|i: int| row <= i ==> #[trigger] self.spec_cell(i, col as int) == pre.spec_cell(i, col as int),
                forall|i: int, j: int| j != col ==> #[trigger] self.spec_cell(i, j) == pre.spec_cell(i, j),
                tracks_cells(pre) ==> forall|i: int, j: int|
                    #[trigger] self.spec_cell(i, j) == if j == col && 0 <= i < row {
                        None
                    } else {
                        pre.spec_cell(i, j)
                    },
            decreases row_cnt - row,
        {
            let ghost before = *self;
            proof {
                self.lemma_access_to_remove(row as int, col as int);
            }
            let x = self.remove_cell(row, col);
            proof {
                assert forall|i: int| 0 <= i < row + 1 implies Self::spec_cleared(
                    #[trigger] self.spec_cell(i, col as int),
                ) by {
                    assert(before.spec_cell(i, col as int) == before.spec_cell(i, col as int));
                }
                assert forall|i: int| row + 1 <= i implies #[trigger] self.spec_cell(i, col as int)
                    == pre.spec_cell(i, col as int) by {
                    assert(before.spec_cell(i, col as int) == pre.spec_cell(i, col as int));
                }
                assert forall|i: int, j: int| j != col implies #[trigger] self.spec_cell(i, j)
                    == pre.spec_cell(i, j) by {
                    assert(before.spec_cell(i, j) == pre.spec_cell(i, j));
                }
                if tracks_cells(pre) {
                    assert forall|i: int, j: int|
                        #[trigger] self.spec_cell(i, j) == if j == col && 0 <= i < row + 1 {
                            None
                        } else {
                            pre.spec_cell(i, j)
                        } by {
                        assert(before.spec_cell(i, j) == before.spec_cell(i, j));
                    }
                }
            }
            removed.push(x);
            row = row + 1;
        }
        proof {
            assert(removed@ =~= column_cells(pre, col as int));
        }
        let tmp = Self::Column::new_filled_with(removed);
        // Second, we need to shift left all cells that would appear after
        // this column
        let mut r: usize = 0;
        while r < row_cnt
            invariant
                col < col_cnt,
                r <= row_cnt,
                row_cnt == pre.spec_row_cnt(),
                col_cnt == pre.spec_col_cnt(),
                self.spec_row_cnt() == row_cnt,
                self.spec_col_cnt() == col_cnt,
                fully_accessible(*self),
                forall|i: int, j: int| j < col ==> #[trigger] self.spec_cell(i, j) == pre.spec_cell(i, j),
                forall|i: int| 0 <= i < r ==> Self::spec_cleared(#[trigger] self.spec_cell(i, col_cnt - 1)),
                forall|i: int| r <= i < row_cnt ==> Self::spec_cleared(#[trigger] self.spec_cell(i, col as int)),
                tracks_cells(pre) ==> forall|i: int, j: int|
                    #[trigger] self.spec_cell(i, j) == cols_moved_left_to(pre, col as int, r as int, i, j),
                cells_fill_bounds(pre) ==> forall|i: int, j: int|
                    0 <= i < row_cnt && 0 <= j < col_cnt && !(i < r && j == col_cnt - 1) && !(i >= r
                        && j == col) ==> #[trigger] self.spec_cell(i, j) == filled_cols_moved_left_to(
                        pre,
                        col as int,
                        r as int,
                        i,
                        j,
                    ),
            decreases row_cnt - r,
        {
            let mut c: usize = col + 1;
            proof {
                if tracks_cells(pre) {
                    assert forall|i: int, j: int|
                        #[trigger] self.spec_cell(i, j) == cols_moving_left(pre, col as int, r as int, c as int, i, j) by {
                        assert(self.spec_cell(i, j) == cols_moved_left_to(pre, col as int, r as int, i, j));
                    }
                }
            }
            while c < col_cnt
                invariant
                    col < c <= col_cnt,
                    r < row_cnt,
                    row_cnt == pre.spec_row_cnt(),
                    col_cnt == pre.spec_col_cnt(),
                    self.spec_row_cnt() == row_cnt,
                    self.spec_col_cnt() == col_cnt,
                    fully_accessible(*self),
                    forall|i: int, j: int| j < col ==> #[trigger] self.spec_cell(i, j) == pre.spec_cell(i, j),
                    forall|i: int| 0 <= i < r ==> Self::spec_cleared(#[trigger] self.spec_cell(i, col_cnt - 1)),
                    forall|i: int| r < i < row_cnt ==> Self::spec_cleared(#[trigger] self.spec_cell(i, col as int)),
                    Self::spec_cleared(self.spec_cell(r as int, c - 1)),
                    tracks_cells(pre) ==> forall|i: int, j: int|
                        #[trigger] self.spec_cell(i, j) == cols_moving_left(pre, col as int, r as int, c as int, i, j),
                    cells_fill_bounds(pre) ==> forall|i: int, j: int|
                        0 <= i < row_cnt && 0 <= j < col_cnt && !(i < r && j == col_cnt - 1) && !(i > r
                            && j == col) && !(i == r && j == c - 1) ==> #[trigger] self.spec_cell(i, j) == if i
                            == r && col <= j < c - 1 {
                            pre.spec_cell(r as int, j + 1)
                        } else {
                            filled_cols_moved_left_to(pre, col as int, r as int, i, j)
                        },
                decreases col_cnt - c,
            {
                let ghost before = *self;
                proof {
                    self.lemma_access_to_remove(r as int, c as int);
                }
                let moved = self.remove_cell(r, c);
                let ghost after_remove = *self;
                if let Some(x) = moved {
                    proof {
                        self.lemma_access_to_insert(r as int, c - 1);
                    }
                    self.insert_cell(r, c - 1, x);
                }
                proof {
                    assert forall|i: int| 0 <= i < r implies Self::spec_cleared(
                        #[trigger] self.spec_cell(i, col_cnt - 1),
                    ) by {
                        assert(before.spec_cell(i, col_cnt - 1) == before.spec_cell(i, col_cnt - 1));
                        assert(after_remove.spec_cell(i, col_cnt - 1) == after_remove.spec_cell(i, col_cnt - 1));
                    }
                    assert forall|i: int| r < i < row_cnt implies Self::spec_cleared(
                        #[trigger] self.spec_cell(i, col as int),
                    ) by {
                        assert(before.spec_cell(i, col as int) == before.spec_cell(i, col as int));
                        assert(after_remove.spec_cell(i, col as int) == after_remove.spec_cell(i, col as int));
                    }
                    assert(after_remove.spec_cell(r as int, c as int) == after_remove.spec_cell(r as int, c as int));
                    assert forall|i: int, j: int| j < col implies #[trigger] self.spec_cell(i, j) == pre.spec_cell(i, j) by {
                        assert(before.spec_cell(i, j) == before.spec_cell(i, j));
                        assert(after_remove.spec_cell(i, j) == after_remove.spec_cell(i, j));
                    }
                    if tracks_cells(pre) {
                        assert forall|i: int, j: int|
                            #[trigger] self.spec_cell(i, j) == cols_moving_left(pre, col as int, r as int, c + 1, i, j) by {
                            assert(before.spec_cell(i, j) == cols_moving_left(pre, col as int, r as int, c as int, i, j));
                            assert(after_remove.spec_cell(i, j) == after_remove.spec_cell(i, j));
                        }
                        assert(before.spec_cell(r as int, c as int) == pre.spec_cell(r as int, c as int));
                        assert(before.spec_cell(r as int, c - 1) is None);
                    }
                    if cells_fill_bounds(pre) {
                        assert(pre.spec_cell(r as int, c as int) is Some);
                        assert(before.spec_cell(r as int, c as int) == pre.spec_cell(r as int, c as int));
                        assert forall|i: int, j: int|
                            0 <= i < row_cnt && 0 <= j < col_cnt && !(i < r && j == col_cnt - 1) && !(i
                                > r && j == col) && !(i == r && j == c) implies #[trigger] self.spec_cell(i, j)
                            == if i == r && col <= j < c {
                            pre.spec_cell(r as int, j + 1)
                        } else {
                            filled_cols_moved_left_to(pre, col as int, r as int, i, j)
                        } by {
                            assert(before.spec_cell(i, j) == before.spec_cell(i, j));
                            assert(after_remove.spec_cell(i, j) == after_remove.spec_cell(i, j));
                        }
                    }
                }
                c = c + 1;
            }
            proof {
                if tracks_cells(pre) {
                    assert forall|i: int, j: int|
                        #[trigger] self.spec_cell(i, j) == cols_moved_left_to(pre, col as int, r + 1, i, j) by {
                        assert(self.spec_cell(i, j) == cols_moving_left(pre, col as int, r as int, c as int, i, j));
                        assert(pre.spec_cell(i, j) == pre.spec_cell(i, j));
                        assert(pre.spec_cell(i, j + 1) == pre.spec_cell(i, j + 1));
                    }
                }
                if cells_fill_bounds(pre) {
                    assert forall|i: int, j: int|
                        0 <= i < row_cnt && 0 <= j < col_cnt && !(i < r + 1 && j == col_cnt - 1) && !(i
                            >= r + 1 && j == col) implies #[trigger] self.spec_cell(i, j)
                        == filled_cols_moved_left_to(pre, col as int, r + 1, i, j) by {
                        assert(self.spec_cell(i, j) == self.spec_cell(i, j));
                    }
                }
            }
            r = r + 1;
        }
        proof {
            if tracks_cells(pre) {
                assert forall|i: int, j: int|
                    #[trigger] self.spec_cell(i, j) == cols_shifted_left(pre, col as int, i, j) by {
                    assert(self.spec_cell(i, j) == cols_moved_left_to(pre, col as int, row_cnt as int, i, j));
                    assert(pre.spec_cell(i, j + 1) == pre.spec_cell(i, j + 1));
                    assert(pre.spec_cell(i, j) == pre.spec_cell(i, j));
                }
            }
        }
        // Flag to table that the preferred column capacity is now one less
        // if the column we removed was within capacity
        let ghost shifted = *self;
        if col < col_cnt {
            self.set_column_capacity(col_cnt - 1);
        }
        assert(Self::spec_column_capacity_set(shifted, col_cnt - 1, *self));
        proof {
            if tracks_cells(pre) {
                assert forall|i: int, j: int| #[trigger] self.spec_cell(i, j) is Some implies 0 <= i
                    < self.spec_row_cnt() && 0 <= j < self.spec_col_cnt() by {
                    assert(cols_shifted_left(pre, col as int, i, j) is Some);
                    assert(pre.spec_cell(i, j + 1) == pre.spec_cell(i, j + 1));
                    assert(pre.spec_cell(i, j) == pre.spec_cell(i, j));
                }
            }
        }
        Some(tmp)
    }

    /// Removes the last column of the table and returns its cells, or `None`
    /// if the table has no columns
    fn pop_column(&mut self) -> (r: Option<Self::Column>)
        requires
            fully_accessible(*old(self)),
        ensures
            fully_accessible(*final(self)),
            old(self).spec_col_cnt() == 0 ==> r is None && *final(self) == *old(self),
            old(self).spec_col_cnt() > 0 ==> {
                &&& r is Some
                &&& Self::Column::spec_filled_with(
                    column_cells(*old(self), old(self).spec_col_cnt() - 1),
                    r->Some_0,
                )
                &&& r->Some_0.spec_well_formed()
            },
            tracks_cells(*old(self)) && old(self).spec_col_cnt() > 0 ==> {
                &&& column_removed(*old(self), old(self).spec_col_cnt() - 1, *final(self))
                &&& cells_within_bounds(*final(self))
            },
            old(self).spec_col_cnt() > 0 ==> forall|i: int, j: int|
                0 <= i < old(self).spec_row_cnt() && 0 <= j < old(self).spec_col_cnt() - 1
                    ==> #[trigger] final(self).spec_cell(i, j) == old(self).spec_cell(i, j),
            cells_fill_bounds(*old(self)) && old(self).spec_col_cnt() > 0 ==> filled_column_removed(
                *old(self),
                old(self).spec_col_cnt() - 1,
                *final(self),
            ),
            old(self).spec_col_cnt() > 0 ==> exists|shifted: Self|
                {
                    &&& shifted.spec_row_cnt() == old(self).spec_row_cnt()
                    &&& shifted.spec_col_cnt() == old(self).spec_col_cnt()
                    &&& #[trigger] Self::spec_column_capacity_set(
                        shifted,
                        old(self).spec_col_cnt() - 1,
                        *final(self),
                    )
                },
            old(self).spec_col_cnt() > 0 ==> {
                &&& final(self).spec_row_cnt() == old(self).spec_row_cnt()
                &&& final(self).spec_col_cnt() == if Self::spec_takes_column_capacity() {
                    old(self).spec_col_cnt() - 1
                } else {
                    old(self).spec_col_cnt() as int
                }
            },
            !Self::spec_takes_column_capacity() && old(self).spec_col_cnt() > 0 ==> forall|i: int|
                0 <= i < old(self).spec_row_cnt() ==> Self::spec_cleared(
                    #[trigger] final(self).spec_cell(i, old(self).spec_col_cnt() - 1),
                ),
    {
        let max_cols = self.col_cnt();
        self.remove_column(
            if max_cols > 0 {
                max_cols - 1
            } else {
                0
            },
        )
    }
    /// Returns an iterator of refs through all rows in the table
    fn rows(&self) -> (r: Rows<'_, Self::Data, Self>)
        ensures
            r.spec_table() == *self,
            r.spec_idx() == 0,
    {
        Rows::new(self)
    }

    /// Returns an iterator of refs through a specific row in the table
    fn row(&self, idx: usize) -> (r: Row<'_, Self::Data, Self>)
        ensures
            r.spec_table() == *self,
            r.spec_row() == idx,
            r.spec_col() == 0,
    {
        Row::new(self, idx)
    }

    /// Consumes the table and returns an iterator through a specific row in
    /// the table
    fn into_row(self, idx: usize) -> (r: IntoRow<Self::Data, Self>)
        ensures
            r.spec_table() == self,
            r.spec_row() == idx,
            r.spec_col() == 0,
    {
        IntoRow::new(self, idx)
    }

    /// Returns an iterator of refs through all columns in the table
    fn columns(&self) -> (r: Columns<'_, Self::Data, Self>)
        ensures
            r.spec_table() == *self,
            r.spec_idx() == 0,
    {
        Columns::new(self)
    }

    /// Returns an iterator of refs through a specific column in the table
    fn column(&self, idx: usize) -> (r: Column<'_, Self::Data, Self>)
        ensures
            r.spec_table() == *self,
            r.spec_row() == 0,
            r.spec_col() == idx,
    {
        Column::new(self, idx)
    }

    /// Consumes the table and returns an iterator through a specific column
    /// in the table
    fn into_column(self, idx: usize) -> (r: IntoColumn<Self::Data, Self>)
        ensures
            r.spec_table() == self,
            r.spec_row() == 0,
            r.spec_col() == idx,
    {
        IntoColumn::new(self, idx)
    }

    /// Returns an iterator of refs through all cells in the table, starting
    /// from the first row, iterating through all cells from beginning to end,
    /// and then moving on to the next row
    fn cells(&self) -> (r: Cells<'_, Self::Data, Self>)
        ensures
            r.spec_table() == *self,
            r.spec_row() == 0,
            r.spec_col() == 0,
    {
        Cells::new(self)
    }

    /// Consumes the table and returns an iterator through all cells in the
    /// table, starting from the first row, iterating through all cells from
    /// beginning to end, and then moving on to the next row
    fn into_cells(self) -> (r: IntoCells<Self::Data, Self>)
        ensures
            r.spec_table() == self,
            r.spec_row() == 0,
            r.spec_col() == 0,
    {
        IntoCells::new(self)
    }
}

impl<T: Table> TableOps for T {}

} // verus!
