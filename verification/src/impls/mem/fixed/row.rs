use crate::list::{DynamicList, FixedList};
use crate::position::{last_cell_at, placed_or_default, Position};
use crate::utils;
use crate::iter::{CellIter, Cells, ZipPosition};
use crate::{cells_fill_bounds, fully_accessible, Table, TableOps};
use vstd::prelude::*;
use vstd::std_specs::convert::{FromSpec, FromSpecImpl};

verus! {

/// Represents an inmemory table containing rows & columns of some data `T`,
/// with a fixed number of rows and columns that grow as cells are placed
#[derive(Clone, Debug, PartialEq, Eq)]
pub struct MemFixedRowTable<T: Default, const ROW: usize> {
    /// Internal allocation of our table's data, one vector per row
    pub cells: [Vec<T>; ROW],
    /// Represents a tracker for how many columns out of our total capacity
    /// have been used
    col_cnt: usize,
}

/// The column count after placing `cells` in order into a table of `rows`
/// rows that starts empty: each entry within the rows at or past the count
/// stretches it to include the entry
pub open spec fn placed_col_cnt<T>(cells: Seq<(Position, T)>, rows: int) -> int
    decreases cells.len(),
{
    if cells.len() == 0 {
        0
    } else {
        let before = placed_col_cnt(cells.drop_last(), rows);
        let pos = cells.last().0;
        if pos.row < rows && pos.col >= before {
            pos.col + 1
        } else {
            before
        }
    }
}

/// An entry placed within the rows lies before the column count that the
/// entries stretch
proof fn lemma_placed_within_cols<T>(cells: Seq<(Position, T)>, rows: int, row: int, col: int)
    requires
        last_cell_at(cells, row, col) is Some,
        row < rows,
    ensures
        col < placed_col_cnt(cells, rows),
    decreases cells.len(),
{
    if cells.last().0.row != row || cells.last().0.col != col {
        lemma_placed_within_cols(cells.drop_last(), rows, row, col);
    }
}

impl<T: Default, const ROW: usize> MemFixedRowTable<T, ROW> {
    /// Creates a new table from the given positioned cells, placed in order
    /// so that a later cell at a position replaces an earlier one; cells past
    /// the last row are dropped, the column count is the least that holds
    /// the others, and the cells that none of them reaches hold values
    /// produced by `T::default()`
    pub fn from_positions(cells: Vec<(Position, T)>) -> (r: Self)
        requires
            forall|k: int|
                0 <= k < cells@.len() && (#[trigger] cells@[k]).0.row < ROW ==> cells@[k].0.col < usize::MAX,
        ensures
            r.spec_col_cnt() == placed_col_cnt(cells@, ROW as int),
            fully_accessible(r),
            forall|row: int, col: int|
                0 <= row < ROW && 0 <= col < r.spec_col_cnt() ==> #[trigger] r.spec_cell(row, col) is Some
                    && placed_or_default(cells@, row, col, r.spec_cell(row, col)->Some_0),
    {
        let mut table = Self::new();
        let n = cells.len();
        let ghost items = cells@;
        let mut rest = cells;
        let mut reversed: Vec<(Position, T)> = Vec::new();
        while rest.len() > 0
            invariant
                n == items.len(),
                rest@ == items.take(rest@.len() as int),
                reversed@.len() == n - rest@.len(),
                forall|k: int| 0 <= k < reversed@.len() ==> #[trigger] reversed@[k] == items[n - 1 - k],
            decreases rest@.len(),
        {
            let x = rest.pop().unwrap();
            reversed.push(x);
        }
        let mut placed: usize = 0;
        while reversed.len() > 0
            invariant
                n == items.len(),
                placed + reversed@.len() == n,
                forall|k: int| 0 <= k < reversed@.len() ==> #[trigger] reversed@[k] == items[n - 1 - k],
                forall|k: int|
                    0 <= k < items.len() && (#[trigger] items[k]).0.row < ROW ==> items[k].0.col < usize::MAX,
                table.spec_col_cnt() == placed_col_cnt(items.take(placed as int), ROW as int),
                forall|i: int| 0 <= i < ROW ==> (#[trigger] table.spec_stored()[i]).len() == table.spec_col_cnt(),
                forall|i: int, j: int|
                    0 <= i < ROW && 0 <= j < table.spec_stored()[i].len() ==> placed_or_default(
                        items.take(placed as int),
                        i,
                        j,
                        #[trigger] table.spec_stored()[i][j],
                    ),
            decreases reversed@.len(),
        {
            let (pos, x) = reversed.pop().unwrap();
            let ghost before = table;
            let ghost done = items.take(placed as int);
            assert(items.take(placed + 1).drop_last() =~= done);
            assert(items[placed as int].0 == pos);
            table.insert_cell(pos.row, pos.col, x);
            proof {
                assert forall|i: int| 0 <= i < ROW implies (#[trigger] table.spec_stored()[i]).len()
                    == table.spec_col_cnt() by {
                    assert(before.spec_stored()[i] == before.spec_stored()[i]);
                }
                assert forall|i: int, j: int|
                    0 <= i < ROW && 0 <= j < table.spec_stored()[i].len() implies placed_or_default(
                        items.take(placed + 1),
                        i,
                        j,
                        #[trigger] table.spec_stored()[i][j],
                    ) by {
                    assert(before.spec_stored()[i] == before.spec_stored()[i]);
                    if !(i == pos.row && j == pos.col) && j >= before.spec_stored()[i].len() {
                        if last_cell_at(done, i, j) is Some {
                            lemma_placed_within_cols(done, ROW as int, i, j);
                        }
                    }
                }
            }
            placed = placed + 1;
        }
        assert(items.take(n as int) =~= items);
        table
    }

    /// The cells that each row stores, which may reach past the column count
    pub closed spec fn spec_stored(&self) -> Seq<Seq<T>> {
        Seq::new(ROW as nat, |r: int| self.cells@[r]@)
    }

    /// Creates a new, empty table
    pub fn new() -> (r: Self)
        ensures
            r.spec_col_cnt() == 0,
            forall|i: int| 0 <= i < ROW ==> (#[trigger] r.spec_stored()[i]).len() == 0,
            forall|row: int, col: int| #[trigger] r.spec_can_access(row, col),
    {
        let cells = utils::default_array::<Vec<T>, ROW>();
        let r = Self { cells, col_cnt: 0 };
        assert forall|i: int| 0 <= i < ROW implies (#[trigger] r.spec_stored()[i]).len() == 0 by {
            assert(call_ensures(Vec::<T>::default, (), r.cells@[i]));
        }
        r
    }

    /// Removes all stored cells that are outside the current column capacity
    pub fn truncate(&mut self)
        ensures
            final(self).spec_col_cnt() == old(self).spec_col_cnt(),
            forall|i: int|
                0 <= i < ROW ==> #[trigger] final(self).spec_stored()[i] == if old(self).spec_col_cnt()
                    < old(self).spec_stored()[i].len() {
                    old(self).spec_stored()[i].subrange(0, old(self).spec_col_cnt() as int)
                } else {
                    old(self).spec_stored()[i]
                },
    {
        let ghost pre = self.spec_stored();
        let col_cnt = self.col_cnt;
        let mut i: usize = 0;
        while i < ROW
            invariant
                i <= ROW,
                self.col_cnt == col_cnt,
                col_cnt == old(self).col_cnt,
                pre == old(self).spec_stored(),
                forall|k: int|
                    0 <= k < ROW ==> #[trigger] self.spec_stored()[k] == if k < i && col_cnt
                        < pre[k].len() {
                        pre[k].subrange(0, col_cnt as int)
                    } else {
                        pre[k]
                    },
            decreases ROW - i,
        {
            let ghost before = self.spec_stored();
            let ghost before_cells = self.cells@;
            self.cells[i].truncate(col_cnt);
            proof {
                assert forall|k: int|
                    0 <= k < ROW implies #[trigger] self.spec_stored()[k] == if k < i + 1 && col_cnt
                        < pre[k].len() {
                        pre[k].subrange(0, col_cnt as int)
                    } else {
                        pre[k]
                    } by {
                    assert(self.spec_stored()[k] == self.cells@[k]@);
                    assert(before[k] == before_cells[k]@);
                    if k != i {
                        assert(self.cells@[k] == before_cells[k]);
                    }
                }
            }
            i = i + 1;
        }
    }

    /// Shrinks the table's column capacity to fit the longest stored row
    pub fn shrink_to_fit(&mut self)
        ensures
            final(self).spec_stored() == old(self).spec_stored(),
            forall|i: int| 0 <= i < ROW ==> (#[trigger] final(self).spec_stored()[i]).len() <= final(self).spec_col_cnt(),
            final(self).spec_col_cnt() == 0 || exists|i: int|
                0 <= i < ROW && (#[trigger] final(self).spec_stored()[i]).len() == final(self).spec_col_cnt(),
    {
        let mut max_col: usize = 0;
        let mut i: usize = 0;
        while i < ROW
            invariant
                i <= ROW,
                *self == *old(self),
                forall|k: int| 0 <= k < i ==> (#[trigger] self.spec_stored()[k]).len() <= max_col,
                max_col == 0 || exists|k: int| 0 <= k < i && (#[trigger] self.spec_stored()[k]).len() == max_col,
            decreases ROW - i,
        {
            let len = self.cells[i].len();
            assert(len == self.spec_stored()[i as int].len());
            if len > max_col {
                max_col = len;
            }
            i = i + 1;
        }
        let ghost before = *self;
        self.col_cnt = max_col;
        assert(self.spec_stored() =~= before.spec_stored());
    }

    /// Stores exactly `len` cells in row `row`, keeping the cells already
    /// stored below `len` and adding values produced by `T::default()`
    fn resize_row(&mut self, row: usize, len: usize)
        requires
            row < ROW,
        ensures
            final(self).col_cnt == old(self).col_cnt,
            final(self).spec_stored()[row as int].len() == len,
            forall|i: int| 0 <= i < ROW && i != row ==> #[trigger] final(self).spec_stored()[i] == old(self).spec_stored()[i],
            forall|j: int|
                0 <= j < len ==> if j < old(self).spec_stored()[row as int].len() {
                    #[trigger] final(self).spec_stored()[row as int][j] == old(self).spec_stored()[row as int][j]
                } else {
                    call_ensures(T::default, (), final(self).spec_stored()[row as int][j])
                },
    {
        let ghost pre = self.spec_stored();
        if len < self.cells[row].len() {
            self.cells[row].truncate(len);
        } else {
            while self.cells[row].len() < len
                invariant
                    row < ROW,
                    pre[row as int].len() <= self.spec_stored()[row as int].len() <= len,
                    self.col_cnt == old(self).col_cnt,
                    pre == old(self).spec_stored(),
                    forall|i: int| 0 <= i < ROW && i != row ==> #[trigger] self.spec_stored()[i] == pre[i],
                    forall|j: int|
                        0 <= j < self.spec_stored()[row as int].len() ==> if j < pre[row as int].len() {
                            #[trigger] self.spec_stored()[row as int][j] == pre[row as int][j]
                        } else {
                            call_ensures(T::default, (), self.spec_stored()[row as int][j])
                        },
                decreases len - self.spec_stored()[row as int].len(),
            {
                let ghost before = self.spec_stored();
                self.cells[row].push(T::default());
                proof {
                    assert forall|i: int| 0 <= i < ROW && i != row implies #[trigger] self.spec_stored()[i] == pre[i] by {
                        assert(before[i] == self.spec_stored()[i]);
                    }
                    assert forall|j: int|
                        0 <= j < self.spec_stored()[row as int].len() implies if j < pre[row as int].len() {
                            #[trigger] self.spec_stored()[row as int][j] == pre[row as int][j]
                        } else {
                            call_ensures(T::default, (), self.spec_stored()[row as int][j])
                        } by {
                        if j < before[row as int].len() {
                            assert(before[row as int][j] == self.spec_stored()[row as int][j]);
                        }
                    }
                }
            }
        }
    }

    /// Returns an iterator over the cells and their positions within the
    /// table, row by row
    pub fn iter(&self) -> (r: ZipPosition<&T, Cells<'_, T, MemFixedRowTable<T, ROW>>>)
        ensures
            r.spec_inner().spec_table() == *self,
            r.spec_inner().spec_row() == 0,
            r.spec_inner().spec_col() == 0,
    {
        self.cells().zip_with_position()
    }

    /// Returns a reference to the cell at the specified row and column,
    /// which must exist
    pub fn index(&self, pos: (usize, usize)) -> (r: &T)
        requires
            self.spec_can_access(pos.0 as int, pos.1 as int),
            self.spec_cell(pos.0 as int, pos.1 as int) is Some,
        ensures
            Some(*r) == self.spec_cell(pos.0 as int, pos.1 as int),
    {
        let (row, col) = pos;
        self.get_cell(row, col).unwrap()
    }

    /// Returns a mutable reference to the cell at the specified row and
    /// column, which must exist
    pub fn index_mut(&mut self, pos: (usize, usize)) -> (r: &mut T)
        requires
            old(self).spec_can_access(pos.0 as int, pos.1 as int),
            old(self).spec_cell(pos.0 as int, pos.1 as int) is Some,
        ensures
            Some(*r) == old(self).spec_cell(pos.0 as int, pos.1 as int),
            Self::spec_cell_set(*old(self), pos.0 as int, pos.1 as int, *final(r), *final(self)),
    {
        let (row, col) = pos;
        self.get_mut_cell(row, col).unwrap()
    }

    /// What [`From`] makes of an array of rows: every row stored, and a
    /// column count that is the length of the first row
    pub proof fn lemma_from_rows(cells: [Vec<T>; ROW])
        requires
            ROW > 0 ==> cells@[0]@.len() <= usize::MAX,
        ensures
            ({
                let t = <Self as FromSpec<[Vec<T>; ROW]>>::from_spec(cells);
                &&& t.spec_col_cnt() == if ROW > 0 {
                    cells@[0]@.len()
                } else {
                    0
                }
                &&& forall|i: int| 0 <= i < ROW ==> #[trigger] t.spec_stored()[i] == cells@[i]@
            }),
    {
    }

    /// A table whose rows each store every cell within its column count has
    /// a cell at every position within its bounds
    pub proof fn lemma_fills_bounds(t: Self)
        requires
            fully_accessible(t),
        ensures
            cells_fill_bounds(t),
    {
        assert forall|row: int, col: int|
            0 <= row < t.spec_row_cnt() && 0 <= col < t.spec_col_cnt() implies #[trigger] t.spec_cell(row, col) is Some by {
            assert(t.spec_can_access(row, col));
        }
    }
}

impl<T: Default, const ROW: usize> Default for MemFixedRowTable<T, ROW> {
    fn default() -> (r: Self)
        ensures
            r.spec_col_cnt() == 0,
            forall|i: int| 0 <= i < ROW ==> (#[trigger] r.spec_stored()[i]).len() == 0,
            forall|row: int, col: int| #[trigger] r.spec_can_access(row, col),
    {
        Self::new()
    }
}

impl<T: Default, const ROW: usize> From<[Vec<T>; ROW]> for MemFixedRowTable<T, ROW> {
    /// Creates a new table whose rows are the given vectors, with as many
    /// columns as the first row holds
    fn from(cells: [Vec<T>; ROW]) -> (r: Self) {
        let col_cnt = if ROW > 0 {
            cells[0].len()
        } else {
            0
        };
        Self { cells, col_cnt }
    }
}

impl<T: Default, const ROW: usize> FromSpecImpl<[Vec<T>; ROW]> for MemFixedRowTable<T, ROW> {
    open spec fn obeys_from_spec() -> bool {
        true
    }

    closed spec fn from_spec(cells: [Vec<T>; ROW]) -> Self {
        MemFixedRowTable {
            cells,
            col_cnt: if ROW > 0 {
                cells@[0]@.len() as usize
            } else {
                0
            },
        }
    }
}

impl<T: Default, const ROW: usize> Table for MemFixedRowTable<T, ROW> {
    type Data = T;
    type Row = DynamicList<T>;
    type Column = FixedList<T, ROW>;

    open spec fn spec_row_cnt(&self) -> nat {
        ROW as nat
    }

    closed spec fn spec_col_cnt(&self) -> nat {
        self.col_cnt as nat
    }

    /// A cell within the row and column counts, read from storage
    open spec fn spec_cell(&self, row: int, col: int) -> Option<T> {
        if 0 <= row < ROW && 0 <= col < self.spec_col_cnt() && col < self.spec_stored()[row].len() {
            Some(self.spec_stored()[row][col])
        } else {
            None
        }
    }

    /// Every cell within the row and column counts is stored
    open spec fn spec_can_access(&self, row: int, col: int) -> bool {
        0 <= row < ROW && 0 <= col < self.spec_col_cnt() ==> col < self.spec_stored()[row].len()
    }

    /// Growing the column count past `col` must not overflow
    open spec fn spec_can_insert(&self, row: int, col: int) -> bool {
        0 <= row < ROW ==> {
            &&& 0 <= col < self.spec_col_cnt() ==> col < self.spec_stored()[row].len()
            &&& col >= self.spec_col_cnt() ==> col < usize::MAX
        }
    }

    open spec fn spec_can_remove(&self, row: int, col: int) -> bool {
        self.spec_can_insert(row, col)
    }

    open spec fn spec_is_sparse() -> bool {
        false
    }

    open spec fn spec_cleared(v: Option<T>) -> bool {
        v matches Some(d) && call_ensures(T::default, (), d)
    }

    open spec fn spec_takes_row_capacity() -> bool {
        false
    }

    open spec fn spec_takes_column_capacity() -> bool {
        true
    }

    open spec fn spec_grows_rows() -> bool {
        false
    }

    open spec fn spec_grows_columns() -> bool {
        true
    }

    open spec fn spec_col_limit() -> int {
        usize::MAX as int
    }

    /// Within `ROW` rows the cell is written and its old value returned,
    /// growing the column count past the position and stretching that row
    /// to it, and every shorter row, with values produced by `T::default()`;
    /// outside nothing changes
    open spec fn spec_inserted(
        pre: Self,
        row: int,
        col: int,
        value: T,
        post: Self,
        prev: Option<T>,
    ) -> bool {
        if 0 <= row < ROW {
            &&& post.spec_col_cnt() == if col < pre.spec_col_cnt() {
                pre.spec_col_cnt() as int
            } else {
                col + 1
            }
            &&& post.spec_stored()[row].len() == if col < pre.spec_col_cnt() {
                pre.spec_stored()[row].len() as int
            } else {
                col + 1
            }
            &&& post.spec_stored()[row][col] == value
            &&& forall|i: int|
                0 <= i < ROW && i != row ==> (#[trigger] post.spec_stored()[i]).len() == if col
                    >= pre.spec_col_cnt() && pre.spec_stored()[i].len() < col + 1 {
                    col + 1
                } else {
                    pre.spec_stored()[i].len() as int
                }
            &&& forall|i: int, j: int|
                0 <= i < ROW && i != row && 0 <= j < post.spec_stored()[i].len() ==> if j
                    < pre.spec_stored()[i].len() {
                    #[trigger] post.spec_stored()[i][j] == pre.spec_stored()[i][j]
                } else {
                    call_ensures(T::default, (), post.spec_stored()[i][j])
                }
            &&& forall|j: int|
                0 <= j < post.spec_stored()[row].len() && j != col ==> if j < pre.spec_stored()[row].len() {
                    #[trigger] post.spec_stored()[row][j] == pre.spec_stored()[row][j]
                } else {
                    call_ensures(T::default, (), post.spec_stored()[row][j])
                }
            &&& prev is Some
            &&& if col < pre.spec_stored()[row].len() {
                prev->Some_0 == pre.spec_stored()[row][col]
            } else {
                call_ensures(T::default, (), prev->Some_0)
            }
        } else {
            &&& prev is None
            &&& post == pre
        }
    }

    /// Inserts a value produced by `T::default()`
    open spec fn spec_removed(pre: Self, row: int, col: int, post: Self, prev: Option<T>) -> bool {
        exists|d: T| call_ensures(T::default, (), d) && Self::spec_inserted(pre, row, col, d, post, prev)
    }

    open spec fn spec_same_table(a: Self, b: Self) -> bool {
        a == b
    }

    /// The storage at `(row, col)` holds `value`; the rest of the storage
    /// and the column count are unchanged
    open spec fn spec_cell_set(pre: Self, row: int, col: int, value: T, post: Self) -> bool {
        &&& post.spec_col_cnt() == pre.spec_col_cnt()
        &&& forall|i: int| 0 <= i < ROW ==> (#[trigger] post.spec_stored()[i]).len() == pre.spec_stored()[i].len()
        &&& forall|i: int, j: int|
            0 <= i < ROW && 0 <= j < pre.spec_stored()[i].len() ==> #[trigger] post.spec_stored()[i][j]
                == if i == row && j == col {
                value
            } else {
                pre.spec_stored()[i][j]
            }
    }

    /// The number of rows is fixed: nothing changes
    open spec fn spec_row_capacity_set(pre: Self, capacity: int, post: Self) -> bool {
        post == pre
    }

    /// The column count becomes `capacity`; the storage stays
    open spec fn spec_column_capacity_set(pre: Self, capacity: int, post: Self) -> bool {
        &&& post.spec_col_cnt() == capacity
        &&& post.spec_stored() == pre.spec_stored()
    }

    proof fn lemma_access_to_insert(&self, row: int, col: int) {
    }

    proof fn lemma_access_to_remove(&self, row: int, col: int) {
    }

    proof fn lemma_cell_position(&self, row: int, col: int) {
    }

    fn row_cnt(&self) -> (r: usize) {
        ROW
    }

    fn col_cnt(&self) -> (r: usize) {
        self.col_cnt
    }

    /// The number of rows is fixed: this does nothing
    fn set_row_capacity(&mut self, capacity: usize) {
    }

    fn set_column_capacity(&mut self, capacity: usize)
        ensures
            final(self).spec_col_cnt() == capacity,
            final(self).spec_stored() == old(self).spec_stored(),
    {
        let ghost pre = *self;
        self.col_cnt = capacity;
        proof {
            assert(self.spec_stored() =~= pre.spec_stored());
            if capacity <= pre.col_cnt {
                assert forall|r: int, c: int| pre.spec_can_access(r, c) implies #[trigger] self.spec_can_access(r, c) by {
                }
            }
        }
    }

    /// A cell within the column count that its row does not store reads as
    /// missing
    fn get_cell(&self, row: usize, col: usize) -> (r: Option<&T>) {
        if row < ROW && col < self.col_cnt && col < self.cells[row].len() {
            Some(&self.cells[row][col])
        } else {
            None
        }
    }

    /// A cell within the column count that its row does not store reads as
    /// missing
    fn get_mut_cell(&mut self, row: usize, col: usize) -> (r: Option<&mut T>) {
        if row < ROW && col < self.col_cnt && col < self.cells[row].len() {
            Some(&mut self.cells[row][col])
        } else {
            None
        }
    }

    fn insert_cell(&mut self, row: usize, col: usize, value: T) -> (r: Option<T>)
        ensures
            r is Some <==> row < ROW,
            col < old(self).spec_col_cnt() ==> r == old(self).spec_cell(row as int, col as int),
    {
        let ghost pre = *self;
        if row < ROW {
            if col >= self.col_cnt {
                self.resize_row(row, col + 1);
                // Every other row is stretched too, so that all rows keep
                // reaching the column count
                let mut i: usize = 0;
                while i < ROW
                    invariant
                        row < ROW,
                        col >= pre.col_cnt,
                        col < usize::MAX,
                        i <= ROW,
                        self.col_cnt == pre.col_cnt,
                        self.spec_stored()[row as int].len() == col + 1,
                        forall|j: int|
                            0 <= j < col + 1 ==> if j < pre.spec_stored()[row as int].len() {
                                #[trigger] self.spec_stored()[row as int][j] == pre.spec_stored()[row as int][j]
                            } else {
                                call_ensures(T::default, (), self.spec_stored()[row as int][j])
                            },
                        forall|k: int|
                            0 <= k < ROW && k != row ==> (#[trigger] self.spec_stored()[k]).len() == if k < i
                                && pre.spec_stored()[k].len() < col + 1 {
                                col + 1
                            } else {
                                pre.spec_stored()[k].len() as int
                            },
                        forall|k: int, j: int|
                            0 <= k < ROW && k != row && 0 <= j < self.spec_stored()[k].len() ==> if j
                                < pre.spec_stored()[k].len() {
                                #[trigger] self.spec_stored()[k][j] == pre.spec_stored()[k][j]
                            } else {
                                call_ensures(T::default, (), self.spec_stored()[k][j])
                            },
                    decreases ROW - i,
                {
                    assert(self.spec_stored()[i as int] == self.cells@[i as int]@);
                    if i != row && self.cells[i].len() < col + 1 {
                        self.resize_row(i, col + 1);
                    }
                    i = i + 1;
                }
                self.col_cnt = col + 1;
            }
            let ghost mid = self.spec_stored();
            let mut old_value = value;
            core::mem::swap(&mut self.cells[row][col], &mut old_value);
            proof {
                assert forall|i: int| 0 <= i < ROW && i != row implies #[trigger] self.spec_stored()[i] == mid[i] by {
                }
                assert forall|j: int| 0 <= j < mid[row as int].len() implies #[trigger] self.spec_stored()[row as int][j]
                    == if j == col {
                    value
                } else {
                    mid[row as int][j]
                } by {
                }
                assert(old_value == mid[row as int][col as int]);
                assert forall|r: int, c: int| pre.spec_can_access(r, c) implies #[trigger] self.spec_can_access(r, c) by {
                }
            }
            Some(old_value)
        } else {
            None
        }
    }

    fn remove_cell(&mut self, row: usize, col: usize) -> (r: Option<T>)
        ensures
            r is Some <==> row < ROW,
            col < old(self).spec_col_cnt() ==> r == old(self).spec_cell(row as int, col as int),
    {
        self.insert_cell(row, col, T::default())
    }
}

} // verus!
