use crate::list::{DynamicList, FixedList};
use crate::position::{last_cell_at, lemma_placed_within_needed, placed_or_default, rows_needed, Position};
use crate::utils;
use crate::iter::{CellIter, Cells, ZipPosition};
use crate::{cells_fill_bounds, fully_accessible, Table, TableOps};
use vstd::prelude::*;
use vstd::std_specs::convert::{FromSpec, FromSpecImpl};

verus! {

/// Represents an inmemory table containing rows & columns of some data `T`,
/// with a fixed number of columns and rows that grow as cells are placed
#[derive(Clone, Debug, Default, PartialEq, Eq)]
pub struct FixedColumnMemTable<T: Default, const COL: usize> {
    /// Internal allocation of our table's data, one array per row
    pub cells: Vec<[T; COL]>,
    /// Represents a tracker for how many rows out of our total capacity
    /// have been used
    row_cnt: usize,
}

impl<T: Default, const COL: usize> FixedColumnMemTable<T, COL> {
    /// The rows of storage the table holds, which may reach past its row
    /// count, each of `COL` cells
    pub closed spec fn spec_stored(&self) -> Seq<Seq<T>> {
        self.cells@.map_values(|a: [T; COL]| a@)
    }

    /// Creates a new, empty table
    pub fn new() -> (r: Self)
        ensures
            r.spec_row_cnt() == 0,
            r.spec_stored().len() == 0,
            fully_accessible(r),
    {
        let r = Self { cells: Vec::new(), row_cnt: 0 };
        assert(r.spec_stored() =~= Seq::empty());
        r
    }

    /// Creates a new table from the given positioned cells, placed in order
    /// so that a later cell at a position replaces an earlier one; cells at
    /// a column past `COL` are dropped, the row count is the least that
    /// holds the others, and the cells that none of them reaches hold values
    /// produced by `T::default()`
    pub fn from_positions(cells: Vec<(Position, T)>) -> (r: Self)
        requires
            forall|k: int|
                0 <= k < cells@.len() && (#[trigger] cells@[k]).0.col < COL ==> cells@[k].0.row < usize::MAX,
        ensures
            fully_accessible(r),
            r.spec_row_cnt() == rows_needed(cells@, COL as int),
            forall|row: int, col: int|
                0 <= row < r.spec_row_cnt() && 0 <= col < COL ==> #[trigger] r.spec_cell(row, col) is Some
                    && placed_or_default(cells@, row, col, r.spec_cell(row, col)->Some_0),
    {
        let mut table = Self::new();
        let n = cells.len();
        let ghost items = cells@;
        let mut rest = cells;
        let mut reversed: Vec<(Position, T)> = Vec::new();
        while rest.len() > 0
            invariant
                n == items.len(),
                rest@ == items.take(rest@.len() as int),
                reversed@.len() == n - rest@.len(),
                forall|k: int| 0 <= k < reversed@.len() ==> #[trigger] reversed@[k] == items[n - 1 - k],
            decreases rest@.len(),
        {
            let x = rest.pop().unwrap();
            reversed.push(x);
        }
        let mut placed: usize = 0;
        while reversed.len() > 0
            invariant
                n == items.len(),
                placed + reversed@.len() == n,
                forall|k: int| 0 <= k < reversed@.len() ==> #[trigger] reversed@[k] == items[n - 1 - k],
                forall|k: int|
                    0 <= k < items.len() && (#[trigger] items[k]).0.col < COL ==> items[k].0.row < usize::MAX,
                fully_accessible(table),
                table.spec_row_cnt() == rows_needed(items.take(placed as int), COL as int),
                table.spec_stored().len() == table.spec_row_cnt(),
                forall|i: int, j: int|
                    0 <= i < table.spec_stored().len() && 0 <= j < COL ==> placed_or_default(
                        items.take(placed as int),
                        i,
                        j,
                        #[trigger] table.spec_stored()[i][j],
                    ),
            decreases reversed@.len(),
        {
            let (pos, x) = reversed.pop().unwrap();
            let ghost before = table;
            let ghost done = items.take(placed as int);
            assert(items.take(placed + 1).drop_last() =~= done);
            assert(items[placed as int].0 == pos);
            proof {
                if pos.col < COL {
                    assert(pos.row < usize::MAX);
                }
            }
            table.insert_cell(pos.row, pos.col, x);
            proof {
                assert forall|i: int, j: int|
                    0 <= i < table.spec_stored().len() && 0 <= j < COL implies placed_or_default(
                        items.take(placed + 1),
                        i,
                        j,
                        #[trigger] table.spec_stored()[i][j],
                    ) by {
                    if !(i == pos.row && j == pos.col) {
                        if i < before.spec_stored().len() {
                            assert(before.spec_stored()[i][j] == before.spec_stored()[i][j]);
                        } else if last_cell_at(done, i, j) is Some {
                            lemma_placed_within_needed(done, COL as int, i, j);
                        }
                    }
                }
            }
            placed = placed + 1;
        }
        assert(items.take(n as int) =~= items);
        proof {
            assert forall|row: int, col: int|
                0 <= row < table.spec_row_cnt() && 0 <= col < COL implies #[trigger] table.spec_cell(row, col) is Some
                    && placed_or_default(items, row, col, table.spec_cell(row, col)->Some_0) by {
                assert(table.spec_can_access(row, col));
                assert(table.spec_stored()[row][col] == table.spec_stored()[row][col]);
            }
        }
        table
    }

    /// Removes all stored rows that are outside the current row capacity
    pub fn truncate(&mut self)
        ensures
            final(self).spec_row_cnt() == old(self).spec_row_cnt(),
            final(self).spec_stored() == if old(self).spec_row_cnt() < old(self).spec_stored().len() {
                old(self).spec_stored().subrange(0, old(self).spec_row_cnt() as int)
            } else {
                old(self).spec_stored()
            },
    {
        self.cells.truncate(self.row_cnt);
    }

    /// Shrinks the table's row capacity to fit the stored rows
    pub fn shrink_to_fit(&mut self)
        ensures
            final(self).spec_row_cnt() == old(self).spec_stored().len(),
            final(self).spec_stored() == old(self).spec_stored(),
            fully_accessible(*final(self)),
    {
        self.row_cnt = self.cells.len();
    }

    /// Stores exactly `len` rows, keeping the rows already stored below
    /// `len` and adding rows of values produced by `T::default()`
    fn resize_rows(&mut self, len: usize)
        ensures
            final(self).spec_stored().len() == len,
            super::super::col::rows_kept_or_default::<T, COL>(old(self).spec_stored(), final(self).spec_stored()),
            final(self).row_cnt == old(self).row_cnt,
    {
        let ghost pre = self.spec_stored();
        if len < self.cells.len() {
            self.cells.truncate(len);
        } else {
            while self.cells.len() < len
                invariant
                    pre.len() <= self.cells@.len() <= len,
                    super::super::col::rows_kept_or_default::<T, COL>(pre, self.spec_stored()),
                    self.row_cnt == old(self).row_cnt,
                decreases len - self.cells@.len(),
            {
                let ghost before = self.spec_stored();
                self.cells.push(utils::default_array::<T, COL>());
                proof {
                    assert forall|i: int, j: int|
                        0 <= i < self.spec_stored().len() && 0 <= j < COL implies if i < pre.len() {
                            #[trigger] self.spec_stored()[i][j] == pre[i][j]
                        } else {
                            call_ensures(T::default, (), self.spec_stored()[i][j])
                        } by {
                        if i < before.len() {
                            assert(before[i][j] == self.spec_stored()[i][j]);
                        }
                    }
                }
            }
        }
    }

    /// Returns an iterator over the cells and their positions within the
    /// table, row by row
    pub fn iter(&self) -> (r: ZipPosition<&T, Cells<'_, T, FixedColumnMemTable<T, COL>>>)
        ensures
            r.spec_inner().spec_table() == *self,
            r.spec_inner().spec_row() == 0,
            r.spec_inner().spec_col() == 0,
    {
        self.cells().zip_with_position()
    }

    /// Returns a reference to the cell at the specified row and column,
    /// which must exist
    pub fn index(&self, pos: (usize, usize)) -> (r: &T)
        requires
            fully_accessible(*self),
            self.spec_cell(pos.0 as int, pos.1 as int) is Some,
        ensures
            Some(*r) == self.spec_cell(pos.0 as int, pos.1 as int),
    {
        let (row, col) = pos;
        self.get_cell(row, col).unwrap()
    }

    /// Returns a mutable reference to the cell at the specified row and
    /// column, which must exist
    pub fn index_mut(&mut self, pos: (usize, usize)) -> (r: &mut T)
        requires
            fully_accessible(*old(self)),
            old(self).spec_cell(pos.0 as int, pos.1 as int) is Some,
        ensures
            Some(*r) == old(self).spec_cell(pos.0 as int, pos.1 as int),
            Self::spec_cell_set(*old(self), pos.0 as int, pos.1 as int, *final(r), *final(self)),
    {
        let (row, col) = pos;
        self.get_mut_cell(row, col).unwrap()
    }

    /// What [`From`] makes of a vector of rows: every row stored and
    /// counted
    pub proof fn lemma_from_rows(cells: Vec<[T; COL]>)
        requires
            cells@.len() <= usize::MAX,
        ensures
            ({
                let t = <Self as FromSpec<Vec<[T; COL]>>>::from_spec(cells);
                &&& t.spec_row_cnt() == cells@.len()
                &&& t.spec_stored().len() == cells@.len()
                &&& forall|i: int| 0 <= i < cells@.len() ==> #[trigger] t.spec_stored()[i] == cells@[i]@
                &&& fully_accessible(t)
            }),
    {
    }

    /// A table whose rows within its row count are all stored has a cell at
    /// every position within its bounds
    pub proof fn lemma_fills_bounds(t: Self)
        requires
            fully_accessible(t),
        ensures
            cells_fill_bounds(t),
    {
        assert forall|row: int, col: int|
            0 <= row < t.spec_row_cnt() && 0 <= col < t.spec_col_cnt() implies #[trigger] t.spec_cell(row, col) is Some by {
            assert(t.spec_can_access(row, col));
        }
    }
}

impl<T: Default, const COL: usize> From<Vec<[T; COL]>> for FixedColumnMemTable<T, COL> {
    /// Creates a new table whose rows are the given arrays
    fn from(cells: Vec<[T; COL]>) -> (r: Self) {
        let row_cnt = cells.len();
        Self { cells, row_cnt }
    }
}

impl<T: Default, const COL: usize> FromSpecImpl<Vec<[T; COL]>> for FixedColumnMemTable<T, COL> {
    open spec fn obeys_from_spec() -> bool {
        true
    }

    closed spec fn from_spec(cells: Vec<[T; COL]>) -> Self {
        FixedColumnMemTable { cells, row_cnt: cells@.len() as usize }
    }
}

impl<T: Default, const COL: usize> Table for FixedColumnMemTable<T, COL> {
    type Data = T;
    type Row = FixedList<T, COL>;
    type Column = DynamicList<T>;

    closed spec fn spec_row_cnt(&self) -> nat {
        self.row_cnt as nat
    }

    open spec fn spec_col_cnt(&self) -> nat {
        COL as nat
    }

    /// A cell within the row count, read from storage
    open spec fn spec_cell(&self, row: int, col: int) -> Option<T> {
        if 0 <= row < self.spec_row_cnt() && 0 <= col < COL && row < self.spec_stored().len() {
            Some(self.spec_stored()[row][col])
        } else {
            None
        }
    }

    /// Every row within the row count is stored
    open spec fn spec_can_access(&self, row: int, col: int) -> bool {
        0 <= row < self.spec_row_cnt() ==> row < self.spec_stored().len()
    }

    /// Growing the row count past `row`, which only a write within `COL`
    /// columns does, must not overflow
    open spec fn spec_can_insert(&self, row: int, col: int) -> bool {
        &&& 0 <= row < self.spec_row_cnt() ==> row < self.spec_stored().len()
        &&& 0 <= col < COL && row >= self.spec_row_cnt() ==> row < usize::MAX
    }

    open spec fn spec_can_remove(&self, row: int, col: int) -> bool {
        self.spec_can_insert(row, col)
    }

    open spec fn spec_is_sparse() -> bool {
        false
    }

    open spec fn spec_cleared(v: Option<T>) -> bool {
        v matches Some(d) && call_ensures(T::default, (), d)
    }

    open spec fn spec_takes_row_capacity() -> bool {
        true
    }

    open spec fn spec_takes_column_capacity() -> bool {
        false
    }

    open spec fn spec_grows_rows() -> bool {
        true
    }

    open spec fn spec_grows_columns() -> bool {
        false
    }

    open spec fn spec_col_limit() -> int {
        COL as int
    }

    /// Within `COL` columns the cell is written and its old value returned,
    /// growing the row count (and the storage, with rows of values produced
    /// by `T::default()`) past the position; outside nothing changes
    open spec fn spec_inserted(
        pre: Self,
        row: int,
        col: int,
        value: T,
        post: Self,
        prev: Option<T>,
    ) -> bool {
        if col < COL {
            &&& post.spec_row_cnt() == if row < pre.spec_row_cnt() {
                pre.spec_row_cnt() as int
            } else {
                row + 1
            }
            &&& post.spec_stored().len() == if row < pre.spec_row_cnt() {
                pre.spec_stored().len() as int
            } else {
                row + 1
            }
            &&& post.spec_stored()[row][col] == value
            &&& forall|i: int, j: int|
                0 <= i < post.spec_stored().len() && 0 <= j < COL && !(i == row && j == col) ==> if i
                    < pre.spec_stored().len() {
                    #[trigger] post.spec_stored()[i][j] == pre.spec_stored()[i][j]
                } else {
                    call_ensures(T::default, (), post.spec_stored()[i][j])
                }
            &&& prev is Some
            &&& if row < pre.spec_stored().len() {
                prev->Some_0 == pre.spec_stored()[row][col]
            } else {
                call_ensures(T::default, (), prev->Some_0)
            }
        } else {
            &&& prev is None
            &&& post == pre
        }
    }

    /// Inserts a value produced by `T::default()`
    open spec fn spec_removed(pre: Self, row: int, col: int, post: Self, prev: Option<T>) -> bool {
        exists|d: T| call_ensures(T::default, (), d) && Self::spec_inserted(pre, row, col, d, post, prev)
    }

    open spec fn spec_same_table(a: Self, b: Self) -> bool {
        a == b
    }

    /// The storage at `(row, col)` holds `value`; the rest of the storage
    /// and the row count are unchanged
    open spec fn spec_cell_set(pre: Self, row: int, col: int, value: T, post: Self) -> bool {
        &&& post.spec_row_cnt() == pre.spec_row_cnt()
        &&& post.spec_stored().len() == pre.spec_stored().len()
        &&& forall|i: int, j: int|
            0 <= i < pre.spec_stored().len() && 0 <= j < COL ==> #[trigger] post.spec_stored()[i][j]
                == if i == row && j == col {
                value
            } else {
                pre.spec_stored()[i][j]
            }
    }

    /// The row count becomes `capacity`; the storage stays
    open spec fn spec_row_capacity_set(pre: Self, capacity: int, post: Self) -> bool {
        &&& post.spec_row_cnt() == capacity
        &&& post.spec_stored() == pre.spec_stored()
    }

    /// The number of columns is fixed: nothing changes
    open spec fn spec_column_capacity_set(pre: Self, capacity: int, post: Self) -> bool {
        post == pre
    }

    proof fn lemma_access_to_insert(&self, row: int, col: int) {
    }

    proof fn lemma_access_to_remove(&self, row: int, col: int) {
    }

    proof fn lemma_cell_position(&self, row: int, col: int) {
    }

    fn row_cnt(&self) -> (r: usize) {
        self.row_cnt
    }

    fn col_cnt(&self) -> (r: usize) {
        COL
    }

    fn set_row_capacity(&mut self, capacity: usize)
        ensures
            final(self).spec_stored() == old(self).spec_stored(),
    {
        let ghost pre = *self;
        self.row_cnt = capacity;
        proof {
            if capacity <= pre.row_cnt {
                assert forall|r: int, c: int| pre.spec_can_access(r, c) implies #[trigger] self.spec_can_access(r, c) by {
                }
            }
        }
    }

    /// The number of columns is fixed: this does nothing
    fn set_column_capacity(&mut self, capacity: usize) {
    }

    /// A row within the count that is not stored reads as missing
    fn get_cell(&self, row: usize, col: usize) -> (r: Option<&T>) {
        if row < self.row_cnt && col < COL && row < self.cells.len() {
            Some(&self.cells[row][col])
        } else {
            None
        }
    }

    /// A row within the count that is not stored reads as missing
    fn get_mut_cell(&mut self, row: usize, col: usize) -> (r: Option<&mut T>) {
        if row < self.row_cnt && col < COL && row < self.cells.len() {
            Some(&mut self.cells[row][col])
        } else {
            None
        }
    }

    fn insert_cell(&mut self, row: usize, col: usize, value: T) -> (r: Option<T>)
        ensures
            r is Some <==> col < COL,
            row < old(self).spec_row_cnt() ==> r == old(self).spec_cell(row as int, col as int),
    {
        let ghost pre = *self;
        if col < COL {
            if row >= self.row_cnt {
                self.resize_rows(row + 1);
                self.row_cnt = row + 1;
            }
            let ghost mid = self.spec_stored();
            let mut old_value = value;
            core::mem::swap(&mut self.cells[row][col], &mut old_value);
            proof {
                assert forall|i: int, j: int| 0 <= i < mid.len() && 0 <= j < COL implies #[trigger] self.spec_stored()[i][j]
                    == if i == row && j == col {
                    value
                } else {
                    mid[i][j]
                } by {
                }
                assert(old_value == mid[row as int][col as int]);
                assert forall|r: int, c: int| pre.spec_can_access(r, c) implies #[trigger] self.spec_can_access(r, c) by {
                }
            }
            Some(old_value)
        } else {
            None
        }
    }

    fn remove_cell(&mut self, row: usize, col: usize) -> (r: Option<T>)
        ensures
            r is Some <==> col < COL,
            row < old(self).spec_row_cnt() ==> r == old(self).spec_cell(row as int, col as int),
    {
        self.insert_cell(row, col, T::default())
    }
}

} // verus!
