mod col;

pub use col::FixedColumnMemTable;

use crate::list::FixedList;
use crate::position::{placed_or_default, Position};
use crate::utils;
use crate::iter::{CellIter, Cells, ZipPosition};
use crate::{cells_fill_bounds, fully_accessible, Table, TableOps};
use vstd::prelude::*;
use vstd::std_specs::convert::FromSpecImpl;

verus! {

/// Represents an inmemory table containing rows & columns of some data `T`
/// with a fixed capacity across both rows and columns
#[derive(Clone, Debug, PartialEq, Eq)]
pub struct FixedTable<T: Default, const ROW: usize, const COL: usize>(pub [[T; COL]; ROW]);

impl<T: Default, const ROW: usize, const COL: usize> FixedTable<T, ROW, COL> {
    /// Creates a new table whose every cell holds a value produced by
    /// `T::default()`
    pub fn new() -> (r: Self)
        ensures
            forall|row: int, col: int|
                0 <= row < ROW && 0 <= col < COL ==> #[trigger] r.spec_cell(row, col) is Some
                    && call_ensures(T::default, (), r.spec_cell(row, col)->Some_0),
    {
        Self(utils::default_table_array::<T, ROW, COL>())
    }

    /// Creates a new table from the given positioned cells, placed in order
    /// over cells produced by `T::default()` so that a later cell at a
    /// position replaces an earlier one; cells outside the table are dropped
    pub fn from_positions(cells: Vec<(Position, T)>) -> (r: Self)
        ensures
            forall|row: int, col: int|
                0 <= row < ROW && 0 <= col < COL ==> #[trigger] r.spec_cell(row, col) is Some && placed_or_default(
                    cells@,
                    row,
                    col,
                    r.spec_cell(row, col)->Some_0,
                ),
    {
        let mut table = Self::new();
        let n = cells.len();
        let ghost items = cells@;
        let mut rest = cells;
        let mut reversed: Vec<(Position, T)> = Vec::new();
        while rest.len() > 0
            invariant
                n == items.len(),
                rest@ == items.take(rest@.len() as int),
                reversed@.len() == n - rest@.len(),
                forall|k: int| 0 <= k < reversed@.len() ==> #[trigger] reversed@[k] == items[n - 1 - k],
            decreases rest@.len(),
        {
            let x = rest.pop().unwrap();
            reversed.push(x);
        }
        let mut placed: usize = 0;
        while reversed.len() > 0
            invariant
                n == items.len(),
                placed + reversed@.len() == n,
                forall|k: int| 0 <= k < reversed@.len() ==> #[trigger] reversed@[k] == items[n - 1 - k],
                forall|row: int, col: int|
                    0 <= row < ROW && 0 <= col < COL ==> #[trigger] table.spec_cell(row, col) is Some
                        && placed_or_default(items.take(placed as int), row, col, table.spec_cell(row, col)->Some_0),
            decreases reversed@.len(),
        {
            let (pos, x) = reversed.pop().unwrap();
            let ghost before = table;
            assert(items.take(placed + 1).drop_last() =~= items.take(placed as int));
            assert(items[placed as int].0 == pos);
            table.insert_cell(pos.row, pos.col, x);
            proof {
                assert forall|row: int, col: int|
                    0 <= row < ROW && 0 <= col < COL implies #[trigger] table.spec_cell(row, col) is Some
                        && placed_or_default(items.take(placed + 1), row, col, table.spec_cell(row, col)->Some_0) by {
                    assert(before.spec_cell(row, col) == before.spec_cell(row, col));
                }
            }
            placed = placed + 1;
        }
        assert(items.take(n as int) =~= items);
        table
    }

    /// Returns an iterator over the cells and their positions within the
    /// table, row by row
    pub fn iter(&self) -> (r: ZipPosition<&T, Cells<'_, T, FixedTable<T, ROW, COL>>>)
        ensures
            r.spec_inner().spec_table() == *self,
            r.spec_inner().spec_row() == 0,
            r.spec_inner().spec_col() == 0,
    {
        self.cells().zip_with_position()
    }

    /// Returns a reference to the cell at the specified row and column,
    /// which must lie within the table
    pub fn index(&self, pos: (usize, usize)) -> (r: &T)
        requires
            pos.0 < ROW,
            pos.1 < COL,
        ensures
            *r == self.0@[pos.0 as int]@[pos.1 as int],
    {
        let (row, col) = pos;
        self.get_cell(row, col).unwrap()
    }

    /// A fixed table has a cell at every position within its bounds
    pub proof fn lemma_fills_bounds(t: Self)
        ensures
            cells_fill_bounds(t),
    {
    }

    /// Returns a mutable reference to the cell at the specified row and
    /// column, which must lie within the table
    pub fn index_mut(&mut self, pos: (usize, usize)) -> (r: &mut T)
        requires
            pos.0 < ROW,
            pos.1 < COL,
        ensures
            *r == old(self).0@[pos.0 as int]@[pos.1 as int],
            Self::spec_cell_set(*old(self), pos.0 as int, pos.1 as int, *final(r), *final(self)),
    {
        let (row, col) = pos;
        self.get_mut_cell(row, col).unwrap()
    }
}

impl<T: Default, const ROW: usize, const COL: usize> Default for FixedTable<T, ROW, COL> {
    fn default() -> (r: Self)
        ensures
            forall|row: int, col: int|
                0 <= row < ROW && 0 <= col < COL ==> #[trigger] r.spec_cell(row, col) is Some
                    && call_ensures(T::default, (), r.spec_cell(row, col)->Some_0),
    {
        Self::new()
    }
}

impl<T: Default, const ROW: usize, const COL: usize> From<[[T; COL]; ROW]> for FixedTable<
    T,
    ROW,
    COL,
> {
    fn from(cells: [[T; COL]; ROW]) -> (r: Self) {
        Self(cells)
    }
}

impl<T: Default, const ROW: usize, const COL: usize> FromSpecImpl<[[T; COL]; ROW]> for FixedTable<
    T,
    ROW,
    COL,
> {
    open spec fn obeys_from_spec() -> bool {
        true
    }

    open spec fn from_spec(cells: [[T; COL]; ROW]) -> Self {
        FixedTable(cells)
    }
}

impl<T: Default, const ROW: usize, const COL: usize> Table for FixedTable<T, ROW, COL> {
    type Data = T;
    type Row = FixedList<T, COL>;
    type Column = FixedList<T, ROW>;

    open spec fn spec_row_cnt(&self) -> nat {
        ROW as nat
    }

    open spec fn spec_col_cnt(&self) -> nat {
        COL as nat
    }

    open spec fn spec_cell(&self, row: int, col: int) -> Option<T> {
        if 0 <= row < ROW && 0 <= col < COL {
            Some(self.0@[row]@[col])
        } else {
            None
        }
    }

    /// Every position is read within the allocated array or not at all
    open spec fn spec_can_access(&self, row: int, col: int) -> bool {
        true
    }

    open spec fn spec_can_insert(&self, row: int, col: int) -> bool {
        true
    }

    open spec fn spec_can_remove(&self, row: int, col: int) -> bool {
        true
    }

    open spec fn spec_is_sparse() -> bool {
        false
    }

    open spec fn spec_cleared(v: Option<T>) -> bool {
        v matches Some(d) && call_ensures(T::default, (), d)
    }

    open spec fn spec_takes_row_capacity() -> bool {
        false
    }

    open spec fn spec_takes_column_capacity() -> bool {
        false
    }

    open spec fn spec_grows_rows() -> bool {
        false
    }

    open spec fn spec_grows_columns() -> bool {
        false
    }

    open spec fn spec_col_limit() -> int {
        COL as int
    }

    /// Within the array the cell is replaced and its old value returned;
    /// outside nothing changes
    open spec fn spec_inserted(
        pre: Self,
        row: int,
        col: int,
        value: T,
        post: Self,
        prev: Option<T>,
    ) -> bool {
        if 0 <= row < ROW && 0 <= col < COL {
            &&& prev == Some(pre.0@[row]@[col])
            &&& Self::spec_cell_set(pre, row, col, value, post)
        } else {
            &&& prev is None
            &&& post == pre
        }
    }

    /// Within the array the cell is replaced by a value produced by
    /// `T::default()` and its old value returned; outside nothing changes
    open spec fn spec_removed(pre: Self, row: int, col: int, post: Self, prev: Option<T>) -> bool {
        if 0 <= row < ROW && 0 <= col < COL {
            &&& prev == Some(pre.0@[row]@[col])
            &&& call_ensures(T::default, (), post.0@[row]@[col])
            &&& Self::spec_cell_set(pre, row, col, post.0@[row]@[col], post)
        } else {
            &&& prev is None
            &&& post == pre
        }
    }

    open spec fn spec_same_table(a: Self, b: Self) -> bool {
        a == b
    }

    /// Every cell but the one at `(row, col)` is unchanged
    open spec fn spec_cell_set(pre: Self, row: int, col: int, value: T, post: Self) -> bool {
        forall|r: int, c: int|
            #[trigger] post.spec_cell(r, c) == if r == row && c == col {
                Some(value)
            } else {
                pre.spec_cell(r, c)
            }
    }

    /// The table's size is fixed: nothing changes
    open spec fn spec_row_capacity_set(pre: Self, capacity: int, post: Self) -> bool {
        post == pre
    }

    /// The table's size is fixed: nothing changes
    open spec fn spec_column_capacity_set(pre: Self, capacity: int, post: Self) -> bool {
        post == pre
    }

    proof fn lemma_access_to_insert(&self, row: int, col: int) {
    }

    proof fn lemma_access_to_remove(&self, row: int, col: int) {
    }

    proof fn lemma_cell_position(&self, row: int, col: int) {
    }

    fn row_cnt(&self) -> (r: usize) {
        ROW
    }

    fn col_cnt(&self) -> (r: usize) {
        COL
    }

    /// The table's size is fixed: this does nothing
    fn set_row_capacity(&mut self, capacity: usize) {
    }

    /// The table's size is fixed: this does nothing
    fn set_column_capacity(&mut self, capacity: usize) {
    }

    fn get_cell(&self, row: usize, col: usize) -> (r: Option<&T>) {
        if row < ROW && col < COL {
            Some(&self.0[row][col])
        } else {
            None
        }
    }

    fn get_mut_cell(&mut self, row: usize, col: usize) -> (r: Option<&mut T>) {
        if row < ROW && col < COL {
            Some(&mut self.0[row][col])
        } else {
            None
        }
    }

    fn insert_cell(&mut self, row: usize, col: usize, value: T) -> (r: Option<T>)
        ensures
            r == old(self).spec_cell(row as int, col as int),
    {
        if row < ROW && col < COL {
            let mut value = value;
            core::mem::swap(&mut self.0[row][col], &mut value);
            Some(value)
        } else {
            None
        }
    }

    fn remove_cell(&mut self, row: usize, col: usize) -> (r: Option<T>)
        ensures
            r == old(self).spec_cell(row as int, col as int),
    {
        self.insert_cell(row, col, T::default())
    }
}

} // verus!
