use crate::list::{DynamicList, FixedList};
use crate::position::{
    last_cell_at, lemma_placed_within_needed, placed_or_default, rows_needed, cols_needed, Position,
};
use crate::utils;
use crate::iter::{CellIter, Cells, ZipPosition};
use crate::{cells_fill_bounds, fully_accessible, Table, TableOps};
use vstd::prelude::*;
use vstd::std_specs::cmp::PartialEqSpec;
use vstd::std_specs::convert::{FromSpec, FromSpecImpl};

verus! {

/// Represents an inmemory table containing rows & columns of some data `T`
/// with a fixed capacity across columns, but ability to grow dynamically with
/// rows
#[derive(Clone, Debug, Default, PartialEq, Eq)]
pub struct FixedColumnTable<T: Default, const COL: usize> {
    /// Internal allocation of our table's data
    cells: Vec<[T; COL]>,
    /// Represents a tracker for how many rows out of our total capacity
    /// have been used
    row_cnt: usize,
    /// Represents a tracker for how many columns out of our total capacity
    /// have been used
    col_cnt: usize,
}

/// Every cell of the rows of `post` that `pre` did not store holds a value
/// produced by `T::default()`, and the rows that both store are equal
pub open spec fn rows_kept_or_default<T: Default, const COL: usize>(pre: Seq<Seq<T>>, post: Seq<Seq<T>>) -> bool {
    forall|i: int, j: int|
        0 <= i < post.len() && 0 <= j < COL ==> if i < pre.len() {
            #[trigger] post[i][j] == pre[i][j]
        } else {
            call_ensures(T::default, (), post[i][j])
        }
}

/// `t` has `U_ROW` rows and `U_COL` columns, and each of its stored rows
/// that `other` also has holds in its first `U_COL` columns values equal to
/// that row of `other`
pub open spec fn stored_rows_match_array<T: Default + PartialEq<U>, U, const COL: usize, const U_ROW: usize, const U_COL: usize>(
    t: FixedColumnTable<T, COL>,
    other: [[U; U_COL]; U_ROW],
) -> bool {
    &&& t.spec_row_cnt() == U_ROW
    &&& t.spec_col_cnt() == U_COL
    &&& forall|i: int, j: int|
        0 <= i < U_ROW && i < t.spec_stored().len() && 0 <= j < U_COL ==> #[trigger] t.spec_stored()[i][j].eq_spec(
            &other@[i]@[j],
        )
}

impl<T: Default, const COL: usize> FixedColumnTable<T, COL> {
    /// The rows of storage the table holds, which may reach past its row
    /// count, each of `COL` cells
    pub closed spec fn spec_stored(&self) -> Seq<Seq<T>> {
        self.cells@.map_values(|a: [T; COL]| a@)
    }

    /// Creates a new, empty table
    pub fn new() -> (r: Self)
        ensures
            r.spec_row_cnt() == 0,
            r.spec_col_cnt() == 0,
            r.spec_stored().len() == 0,
            fully_accessible(r),
    {
        let r = Self { cells: Vec::new(), row_cnt: 0, col_cnt: 0 };
        assert(r.spec_stored() =~= Seq::empty());
        r
    }

    /// Stores exactly `len` rows, keeping the rows already stored below
    /// `len` and adding rows of values produced by `T::default()`
    fn resize_rows(&mut self, len: usize)
        ensures
            final(self).spec_stored().len() == len,
            rows_kept_or_default::<T, COL>(old(self).spec_stored(), final(self).spec_stored()),
            final(self).row_cnt == old(self).row_cnt,
            final(self).col_cnt == old(self).col_cnt,
    {
        let ghost pre = self.spec_stored();
        if len < self.cells.len() {
            self.cells.truncate(len);
        } else {
            while self.cells.len() < len
                invariant
                    pre.len() <= self.cells@.len() <= len,
                    rows_kept_or_default::<T, COL>(pre, self.spec_stored()),
                    self.row_cnt == old(self).row_cnt,
                    self.col_cnt == old(self).col_cnt,
                decreases len - self.cells@.len(),
            {
                let ghost before = self.spec_stored();
                self.cells.push(utils::default_array::<T, COL>());
                proof {
                    assert forall|i: int, j: int|
                        0 <= i < self.spec_stored().len() && 0 <= j < COL implies if i < pre.len() {
                            #[trigger] self.spec_stored()[i][j] == pre[i][j]
                        } else {
                            call_ensures(T::default, (), self.spec_stored()[i][j])
                        } by {
                        if i < before.len() {
                            assert(before[i][j] == self.spec_stored()[i][j]);
                        }
                    }
                }
            }
        }
    }

    /// Returns true if the table has as many rows and columns as `other`
    /// and the stored rows, as far as both go, hold in their first columns
    /// values equal to the rows of `other`
    pub fn eq_array<U, const U_ROW: usize, const U_COL: usize>(&self, other: &[[U; U_COL]; U_ROW]) -> (r: bool) where
        T: PartialEq<U>,

        requires
            self.spec_col_cnt() <= COL,
        ensures
            r ==> self.spec_row_cnt() == U_ROW && self.spec_col_cnt() == U_COL,
            <T as PartialEqSpec<U>>::obeys_eq_spec() ==> (r <==> stored_rows_match_array(*self, *other)),
            <T as PartialEqSpec<U>>::obeys_eq_spec() ==> (r <==> {
                &&& self.spec_row_cnt() == U_ROW
                &&& self.spec_col_cnt() == U_COL
                &&& forall|i: int, j: int|
                    0 <= i < U_ROW && 0 <= j < U_COL && (#[trigger] self.spec_cell(i, j)) is Some
                        ==> self.spec_cell(i, j)->Some_0.eq_spec(&other@[i]@[j])
            }),
    {
        proof {
            lemma_stored_rows_match_in_cells(*self, *other);
        }
        if self.row_cnt != U_ROW || self.col_cnt != U_COL {
            return false;
        }
        let mut i: usize = 0;
        while i < U_ROW && i < self.cells.len()
            invariant
                0 <= i <= U_ROW,
                i <= self.spec_stored().len(),
                U_COL <= COL,
                self.spec_row_cnt() == U_ROW,
                self.spec_col_cnt() == U_COL,
                <T as PartialEqSpec<U>>::obeys_eq_spec() ==> forall|a: int, b: int|
                    0 <= a < i && 0 <= b < U_COL ==> #[trigger] self.spec_stored()[a][b].eq_spec(&other@[a]@[b]),
            decreases U_ROW - i,
        {
            let mut j: usize = 0;
            while j < U_COL
                invariant
                    0 <= i < U_ROW,
                    i < self.spec_stored().len(),
                    0 <= j <= U_COL,
                    U_COL <= COL,
                    self.spec_row_cnt() == U_ROW,
                    self.spec_col_cnt() == U_COL,
                    <T as PartialEqSpec<U>>::obeys_eq_spec() ==> forall|a: int, b: int|
                        (0 <= a < i && 0 <= b < U_COL) || (a == i && 0 <= b < j) ==> #[trigger] self.spec_stored()[a][b].eq_spec(
                            &other@[a]@[b],
                        ),
                decreases U_COL - j,
            {
                let same = self.cells[i][j].eq(&other[i][j]);
                proof {
                    assert(self.spec_stored()[i as int][j as int] == self.cells@[i as int]@[j as int]);
                }
                if !same {
                    proof {
                        lemma_stored_rows_match_in_cells(*self, *other);
                    }
                    return false;
                }
                j = j + 1;
            }
            i = i + 1;
        }
        true
    }

    /// Removes all cells contained within the table that are outside the
    /// current row capacity, and resets the stored cells outside the current
    /// column capacity to values produced by `T::default()`
    ///
    /// Rows within the row capacity that were never stored stay unstored
    pub fn truncate(&mut self)
        requires
            old(self).spec_col_cnt() <= COL,
        ensures
            fully_accessible(*old(self)) ==> fully_accessible(*final(self)),
            final(self).spec_row_cnt() == old(self).spec_row_cnt(),
            final(self).spec_col_cnt() == old(self).spec_col_cnt(),
            final(self).spec_stored().len() == if old(self).spec_stored().len() < old(self).spec_row_cnt() {
                old(self).spec_stored().len()
            } else {
                old(self).spec_row_cnt()
            },
            forall|i: int, j: int|
                0 <= i < final(self).spec_stored().len() && 0 <= j < COL ==> if j < old(
                    self,
                ).spec_col_cnt() {
                    #[trigger] final(self).spec_stored()[i][j] == old(self).spec_stored()[i][j]
                } else {
                    call_ensures(T::default, (), final(self).spec_stored()[i][j])
                },
            forall|row: int, col: int|
                #[trigger] final(self).spec_cell(row, col) == old(self).spec_cell(row, col),
    {
        let ghost pre = self.spec_stored();
        let ghost kept: nat = if pre.len() < self.row_cnt {
            pre.len()
        } else {
            self.row_cnt as nat
        };
        // Shrink to row_cnt total rows
        self.cells.truncate(self.row_cnt);
        // Now go through each row and re-assign columns to default values
        let mut i: usize = 0;
        while i < self.cells.len()
            invariant
                i <= self.cells@.len(),
                self.cells@.len() == kept,
                kept <= pre.len(),
                self.row_cnt == old(self).row_cnt,
                self.col_cnt == old(self).col_cnt,
                self.col_cnt <= COL,
                forall|a: int, b: int|
                    0 <= a < self.cells@.len() && 0 <= b < COL ==> if b < self.col_cnt || a >= i {
                        #[trigger] self.spec_stored()[a][b] == pre[a][b]
                    } else {
                        call_ensures(T::default, (), self.spec_stored()[a][b])
                    },
            decreases self.cells@.len() - i,
        {
            let mut j: usize = self.col_cnt;
            while j < COL
                invariant
                    i < self.cells@.len(),
                    self.col_cnt <= j <= COL,
                    self.cells@.len() == kept,
                    kept <= pre.len(),
                    self.row_cnt == old(self).row_cnt,
                    self.col_cnt == old(self).col_cnt,
                    forall|a: int, b: int|
                        0 <= a < self.cells@.len() && 0 <= b < COL ==> if b < self.col_cnt || a > i || (
                        a == i && b >= j) {
                            #[trigger] self.spec_stored()[a][b] == pre[a][b]
                        } else {
                            call_ensures(T::default, (), self.spec_stored()[a][b])
                        },
                decreases COL - j,
            {
                let ghost before = self.spec_stored();
                self.cells[i][j] = T::default();
                proof {
                    assert forall|a: int, b: int|
                        0 <= a < self.cells@.len() && 0 <= b < COL implies if b < self.col_cnt || a > i
                            || (a == i && b >= j + 1) {
                            #[trigger] self.spec_stored()[a][b] == pre[a][b]
                        } else {
                            call_ensures(T::default, (), self.spec_stored()[a][b])
                        } by {
                        if !(a == i && b == j) {
                            assert(self.spec_stored()[a][b] == before[a][b]);
                        }
                    }
                }
                j = j + 1;
            }
            i = i + 1;
        }
        proof {
            if fully_accessible(*old(self)) && old(self).spec_row_cnt() > 0 {
                assert(old(self).spec_can_access(old(self).spec_row_cnt() - 1, 0));
            }
        }
    }

    /// Returns an iterator over the cells and their positions within the
    /// table, row by row
    pub fn iter(&self) -> (r: ZipPosition<&T, Cells<'_, T, FixedColumnTable<T, COL>>>)
        ensures
            r.spec_inner().spec_table() == *self,
            r.spec_inner().spec_row() == 0,
            r.spec_inner().spec_col() == 0,
    {
        self.cells().zip_with_position()
    }

    /// Returns a reference to the cell at the specified row and column,
    /// which must exist
    pub fn index(&self, pos: (usize, usize)) -> (r: &T)
        requires
            fully_accessible(*self),
            self.spec_cell(pos.0 as int, pos.1 as int) is Some,
        ensures
            Some(*r) == self.spec_cell(pos.0 as int, pos.1 as int),
    {
        let (row, col) = pos;
        self.get_cell(row, col).unwrap()
    }

    /// Returns a mutable reference to the cell at the specified row and
    /// column, which must exist
    pub fn index_mut(&mut self, pos: (usize, usize)) -> (r: &mut T)
        requires
            fully_accessible(*old(self)),
            old(self).spec_cell(pos.0 as int, pos.1 as int) is Some,
        ensures
            Some(*r) == old(self).spec_cell(pos.0 as int, pos.1 as int),
            Self::spec_cell_set(*old(self), pos.0 as int, pos.1 as int, *final(r), *final(self)),
    {
        let (row, col) = pos;
        self.get_mut_cell(row, col).unwrap()
    }
}

impl<T: Default, const COL: usize> From<Vec<[T; COL]>> for FixedColumnTable<T, COL> {
    /// Creates a new table with maximum allocation of COL for each row, assuming
    /// all provided columns have been filled
    ///
    /// If this is incorrect, adjust the virtual row and column counts with
    /// [`Table::set_row_capacity`] and [`Table::set_column_capacity`] respectively.
    fn from(cells: Vec<[T; COL]>) -> (r: Self) {
        let row_cnt = cells.len();
        Self { cells, row_cnt, col_cnt: COL }
    }
}

impl<T: Default, const COL: usize> FromSpecImpl<Vec<[T; COL]>> for FixedColumnTable<T, COL> {
    open spec fn obeys_from_spec() -> bool {
        true
    }

    closed spec fn from_spec(cells: Vec<[T; COL]>) -> Self {
        FixedColumnTable { cells, row_cnt: cells@.len() as usize, col_cnt: COL }
    }
}

impl<T: Default, const COL: usize> FixedColumnTable<T, COL> {
    /// What [`From`] makes of a vector of rows: every row stored and
    /// counted, with every column
    pub proof fn lemma_from_rows(cells: Vec<[T; COL]>)
        requires
            cells@.len() <= usize::MAX,
        ensures
            ({
                let t = <Self as FromSpec<Vec<[T; COL]>>>::from_spec(cells);
                &&& t.spec_row_cnt() == cells@.len()
                &&& t.spec_col_cnt() == COL
                &&& t.spec_stored().len() == cells@.len()
                &&& forall|i: int| 0 <= i < cells@.len() ==> #[trigger] t.spec_stored()[i] == cells@[i]@
                &&& fully_accessible(t)
            }),
    {
    }

    /// A table whose column count stays within `COL` and whose rows within
    /// its row count are all stored has a cell at every position within its
    /// bounds
    pub proof fn lemma_fills_bounds(t: Self)
        requires
            fully_accessible(t),
        ensures
            cells_fill_bounds(t),
    {
        assert forall|row: int, col: int|
            0 <= row < t.spec_row_cnt() && 0 <= col < t.spec_col_cnt() implies #[trigger] t.spec_cell(row, col) is Some by {
            assert(t.spec_can_access(row, col));
        }
    }

    /// Creates a new table from the given positioned cells, placed in order
    /// so that a later cell at a position replaces an earlier one; cells at
    /// a column past `COL` are dropped, the row and column counts are the
    /// least that hold the others, and the cells that none of them reaches
    /// hold values produced by `T::default()`
    pub fn from_positions(cells: Vec<(Position, T)>) -> (r: Self)
        requires
            forall|k: int|
                0 <= k < cells@.len() && (#[trigger] cells@[k]).0.col < COL ==> cells@[k].0.row < usize::MAX,
        ensures
            fully_accessible(r),
            r.spec_row_cnt() == rows_needed(cells@, COL as int),
            r.spec_col_cnt() == cols_needed(cells@, COL as int),
            forall|row: int, col: int|
                0 <= row < r.spec_row_cnt() && 0 <= col < r.spec_col_cnt() ==> #[trigger] r.spec_cell(row, col) is Some
                    && placed_or_default(cells@, row, col, r.spec_cell(row, col)->Some_0),
    {
        let mut table = Self::new();
        let n = cells.len();
        let ghost items = cells@;
        let mut rest = cells;
        let mut reversed: Vec<(Position, T)> = Vec::new();
        while rest.len() > 0
            invariant
                n == items.len(),
                rest@ == items.take(rest@.len() as int),
                reversed@.len() == n - rest@.len(),
                forall|k: int| 0 <= k < reversed@.len() ==> #[trigger] reversed@[k] == items[n - 1 - k],
            decreases rest@.len(),
        {
            let x = rest.pop().unwrap();
            reversed.push(x);
        }
        let mut placed: usize = 0;
        while reversed.len() > 0
            invariant
                n == items.len(),
                placed + reversed@.len() == n,
                forall|k: int| 0 <= k < reversed@.len() ==> #[trigger] reversed@[k] == items[n - 1 - k],
                forall|k: int|
                    0 <= k < items.len() && (#[trigger] items[k]).0.col < COL ==> items[k].0.row < usize::MAX,
                fully_accessible(table),
                table.spec_row_cnt() == rows_needed(items.take(placed as int), COL as int),
                table.spec_col_cnt() == cols_needed(items.take(placed as int), COL as int),
                table.spec_stored().len() == table.spec_row_cnt(),
                forall|i: int, j: int|
                    0 <= i < table.spec_stored().len() && 0 <= j < COL ==> placed_or_default(
                        items.take(placed as int),
                        i,
                        j,
                        #[trigger] table.spec_stored()[i][j],
                    ),
            decreases reversed@.len(),
        {
            let (pos, x) = reversed.pop().unwrap();
            let ghost before = table;
            let ghost done = items.take(placed as int);
            assert(items.take(placed + 1).drop_last() =~= done);
            assert(items[placed as int].0 == pos);
            proof {
                if pos.col < COL {
                    assert(pos.row < usize::MAX);
                }
            }
            table.insert_cell(pos.row, pos.col, x);
            proof {
                assert forall|i: int, j: int|
                    0 <= i < table.spec_stored().len() && 0 <= j < COL implies placed_or_default(
                        items.take(placed + 1),
                        i,
                        j,
                        #[trigger] table.spec_stored()[i][j],
                    ) by {
                    if !(i == pos.row && j == pos.col) {
                        if i < before.spec_stored().len() {
                            assert(before.spec_stored()[i][j] == before.spec_stored()[i][j]);
                        } else if last_cell_at(done, i, j) is Some {
                            lemma_placed_within_needed(done, COL as int, i, j);
                        }
                    }
                }
            }
            placed = placed + 1;
        }
        assert(items.take(n as int) =~= items);
        proof {
            assert forall|row: int, col: int|
                0 <= row < table.spec_row_cnt() && 0 <= col < table.spec_col_cnt() implies #[trigger] table.spec_cell(
                    row,
                    col,
                ) is Some && placed_or_default(items, row, col, table.spec_cell(row, col)->Some_0) by {
                assert(table.spec_can_access(row, col));
                assert(table.spec_stored()[row][col] == table.spec_stored()[row][col]);
            }
        }
        table
    }

    /// Creates a new table from the 2D array, whose rows become the table's
    /// rows; an array without cells gives an empty table
    pub fn from_array<const ROW: usize>(matrix: [[T; COL]; ROW]) -> (r: Self)
        ensures
            fully_accessible(r),
            r.spec_row_cnt() == if COL > 0 { ROW } else { 0 },
            r.spec_col_cnt() == if ROW > 0 { COL } else { 0 },
            forall|row: int, col: int|
                #[trigger] r.spec_cell(row, col) == if 0 <= row < ROW && 0 <= col < COL {
                    Some(matrix@[row]@[col])
                } else {
                    None
                },
    {
        let ghost orig = matrix;
        let mut matrix = matrix;
        let mut table = Self::new();
        let mut row: usize = 0;
        while row < ROW
            invariant
                row <= ROW,
                fully_accessible(table),
                forall|i: int| row <= i < ROW ==> #[trigger] matrix@[i] == orig@[i],
                table.spec_row_cnt() == if COL > 0 { row } else { 0 },
                table.spec_col_cnt() == if row > 0 { COL } else { 0 },
                table.spec_stored().len() == table.spec_row_cnt(),
                forall|i: int, j: int|
                    0 <= i < row && 0 <= j < COL ==> #[trigger] table.spec_stored()[i][j] == orig@[i]@[j],
            decreases ROW - row,
        {
            let mut col: usize = 0;
            while col < COL
                invariant
                    row < ROW,
                    col <= COL,
                    fully_accessible(table),
                    forall|i: int| row < i < ROW ==> #[trigger] matrix@[i] == orig@[i],
                    forall|j: int| col <= j < COL ==> #[trigger] matrix@[row as int]@[j] == orig@[row as int]@[j],
                    table.spec_row_cnt() == if col > 0 { row + 1 } else if COL > 0 { row as int } else { 0 },
                    table.spec_col_cnt() == if row > 0 { COL as int } else { col as int },
                    table.spec_stored().len() == table.spec_row_cnt(),
                    forall|i: int, j: int|
                        (0 <= i < row && 0 <= j < COL) || (i == row && 0 <= j < col) ==> #[trigger] table.spec_stored()[i][j] == orig@[i]@[j],
                decreases COL - col,
            {
                let mut value = T::default();
                core::mem::swap(&mut matrix[row][col], &mut value);
                proof {
                    table.lemma_access_to_insert(row as int, col as int);
                }
                table.insert_cell(row, col, value);
                col = col + 1;
            }
            row = row + 1;
        }
        table
    }
}

impl<T: Default, const COL: usize> Table for FixedColumnTable<T, COL> {
    type Data = T;
    type Row = FixedList<T, COL>;
    type Column = DynamicList<T>;

    closed spec fn spec_row_cnt(&self) -> nat {
        self.row_cnt as nat
    }

    closed spec fn spec_col_cnt(&self) -> nat {
        self.col_cnt as nat
    }

    /// A cell within the row and column counts, read from storage
    open spec fn spec_cell(&self, row: int, col: int) -> Option<T> {
        if 0 <= row < self.spec_row_cnt() && 0 <= col < self.spec_col_cnt() && row
            < self.spec_stored().len() && col < COL {
            Some(self.spec_stored()[row][col])
        } else {
            None
        }
    }

    /// The column count stays within `COL`, and every row within the row
    /// count is stored
    open spec fn spec_can_access(&self, row: int, col: int) -> bool {
        &&& self.spec_col_cnt() <= COL
        &&& 0 <= row < self.spec_row_cnt() ==> row < self.spec_stored().len()
    }

    /// Growing the row count past `row`, which only a write within `COL`
    /// columns does, must not overflow
    open spec fn spec_can_insert(&self, row: int, col: int) -> bool {
        &&& self.spec_can_access(row, col)
        &&& 0 <= row < self.spec_row_cnt() ==> row < self.spec_stored().len()
        &&& 0 <= col < COL && row >= self.spec_row_cnt() ==> row < usize::MAX
    }

    open spec fn spec_can_remove(&self, row: int, col: int) -> bool {
        self.spec_can_access(row, col)
    }

    open spec fn spec_is_sparse() -> bool {
        false
    }

    open spec fn spec_cleared(v: Option<T>) -> bool {
        v matches Some(d) && call_ensures(T::default, (), d)
    }

    open spec fn spec_takes_row_capacity() -> bool {
        true
    }

    open spec fn spec_takes_column_capacity() -> bool {
        true
    }

    open spec fn spec_grows_rows() -> bool {
        true
    }

    open spec fn spec_grows_columns() -> bool {
        true
    }

    open spec fn spec_col_limit() -> int {
        COL as int
    }

    /// Within `COL` columns the cell is written, growing the row count (and
    /// the storage, with rows of values produced by `T::default()`) and the
    /// column count past the position; the old value comes back only if
    /// neither count grew
    open spec fn spec_inserted(
        pre: Self,
        row: int,
        col: int,
        value: T,
        post: Self,
        prev: Option<T>,
    ) -> bool {
        if col < COL {
            let grows = row >= pre.spec_row_cnt() || col >= pre.spec_col_cnt();
            &&& post.spec_row_cnt() == if row < pre.spec_row_cnt() {
                pre.spec_row_cnt() as int
            } else {
                row + 1
            }
            &&& post.spec_col_cnt() == if col < pre.spec_col_cnt() {
                pre.spec_col_cnt() as int
            } else {
                col + 1
            }
            &&& post.spec_stored().len() == if row < pre.spec_row_cnt() {
                pre.spec_stored().len() as int
            } else {
                row + 1
            }
            &&& post.spec_stored()[row][col] == value
            &&& forall|i: int, j: int|
                0 <= i < post.spec_stored().len() && 0 <= j < COL && i != row ==> if i < pre.spec_stored().len() {
                    #[trigger] post.spec_stored()[i][j] == pre.spec_stored()[i][j]
                } else {
                    call_ensures(T::default, (), post.spec_stored()[i][j])
                }
            &&& forall|j: int|
                0 <= j < COL && j != col ==> if row < pre.spec_stored().len() {
                    #[trigger] post.spec_stored()[row][j] == pre.spec_stored()[row][j]
                } else {
                    call_ensures(T::default, (), post.spec_stored()[row][j])
                }
            &&& prev == if grows {
                None
            } else {
                Some(pre.spec_stored()[row][col])
            }
        } else {
            &&& prev is None
            &&& post == pre
        }
    }

    /// Within the row and column counts the cell is replaced by a value
    /// produced by `T::default()` and its old value returned; outside nothing
    /// changes
    open spec fn spec_removed(pre: Self, row: int, col: int, post: Self, prev: Option<T>) -> bool {
        if pre.spec_cell(row, col) is Some {
            &&& prev == pre.spec_cell(row, col)
            &&& call_ensures(T::default, (), post.spec_stored()[row][col])
            &&& Self::spec_cell_set(pre, row, col, post.spec_stored()[row][col], post)
        } else {
            &&& prev is None
            &&& post == pre
        }
    }

    open spec fn spec_same_table(a: Self, b: Self) -> bool {
        a == b
    }

    /// The storage at `(row, col)` holds `value`; the rest of the storage
    /// and the counts are unchanged
    open spec fn spec_cell_set(pre: Self, row: int, col: int, value: T, post: Self) -> bool {
        &&& post.spec_row_cnt() == pre.spec_row_cnt()
        &&& post.spec_col_cnt() == pre.spec_col_cnt()
        &&& post.spec_stored().len() == pre.spec_stored().len()
        &&& forall|i: int, j: int|
            0 <= i < pre.spec_stored().len() && 0 <= j < COL ==> #[trigger] post.spec_stored()[i][j]
                == if i == row && j == col {
                value
            } else {
                pre.spec_stored()[i][j]
            }
    }

    /// The row count becomes `capacity`; the storage stays
    open spec fn spec_row_capacity_set(pre: Self, capacity: int, post: Self) -> bool {
        &&& post.spec_row_cnt() == capacity
        &&& post.spec_col_cnt() == pre.spec_col_cnt()
        &&& post.spec_stored() == pre.spec_stored()
    }

    /// The column count becomes `capacity`, capped at `COL`; the storage stays
    open spec fn spec_column_capacity_set(pre: Self, capacity: int, post: Self) -> bool {
        &&& post.spec_col_cnt() == if capacity < COL {
            capacity
        } else {
            COL as int
        }
        &&& post.spec_row_cnt() == pre.spec_row_cnt()
        &&& post.spec_stored() == pre.spec_stored()
    }

    proof fn lemma_access_to_insert(&self, row: int, col: int) {
    }

    proof fn lemma_access_to_remove(&self, row: int, col: int) {
    }

    proof fn lemma_cell_position(&self, row: int, col: int) {
    }

    fn row_cnt(&self) -> (r: usize) {
        self.row_cnt
    }

    fn col_cnt(&self) -> (r: usize) {
        self.col_cnt
    }

    /// Will adjust the internal row count tracker to the specified capacity
    ///
    /// Note that this does **not** remove any cells from the table in their
    /// old positions. Instead, this updates the virtual space within the
    /// table that is made available for methods like [`Table::get_cell`].
    ///
    /// If you want to remove the cells that are no longer within capacity,
    /// call [`Self::truncate`], which will reset them to their default value.
    fn set_row_capacity(&mut self, capacity: usize)
        ensures
            final(self).spec_stored() == old(self).spec_stored(),
    {
        let ghost pre = *self;
        self.row_cnt = capacity;
        proof {
            if capacity <= pre.row_cnt {
                assert forall|r: int, c: int| pre.spec_can_access(r, c) implies #[trigger] self.spec_can_access(r, c) by {
                }
            }
        }
    }

    /// Will adjust the internal column count tracker to the specified capacity,
    /// capping at COL.
    ///
    /// Note that this does **not** remove any cells from the table in their
    /// old positions. Instead, this updates the virtual space within the
    /// table that is made available for methods like [`Table::get_cell`].
    ///
    /// If you want to remove the cells that are no longer within capacity,
    /// call [`Self::truncate`], which will reset them to their default value.
    fn set_column_capacity(&mut self, capacity: usize)
        ensures
            final(self).spec_col_cnt() == if capacity < COL {
                capacity as int
            } else {
                COL as int
            },
            final(self).spec_stored() == old(self).spec_stored(),
    {
        let ghost pre = *self;
        self.col_cnt = if capacity < COL {
            capacity
        } else {
            COL
        };
        proof {
            assert forall|r: int, c: int| pre.spec_can_access(r, c) implies #[trigger] self.spec_can_access(r, c) by {
            }
            if forall|r: int, c: int| #[trigger] pre.spec_can_access(r, c) {
                assert(pre.spec_can_access(0, 0));
            }
        }
    }

    /// A row within the count that is not stored reads as missing
    fn get_cell(&self, row: usize, col: usize) -> (r: Option<&T>) {
        if row < self.row_cnt && col < self.col_cnt && row < self.cells.len() && col < COL {
            Some(&self.cells[row][col])
        } else {
            None
        }
    }

    /// A row within the count that is not stored reads as missing
    fn get_mut_cell(&mut self, row: usize, col: usize) -> (r: Option<&mut T>) {
        if row < self.row_cnt && col < self.col_cnt && row < self.cells.len() && col < COL {
            Some(&mut self.cells[row][col])
        } else {
            None
        }
    }

    fn insert_cell(&mut self, row: usize, col: usize, value: T) -> (r: Option<T>)
        ensures
            r == old(self).spec_cell(row as int, col as int),
    {
        let ghost pre = *self;
        // Allow inserting anywhere in the allocated space, not just virtual
        if col < COL {
            let mut did_grow = false;
            if row >= self.row_cnt {
                self.resize_rows(row + 1);
                self.row_cnt = row + 1;
                did_grow = true;
            }
            if col >= self.col_cnt {
                self.col_cnt = col + 1;
                did_grow = true;
            }
            let ghost mid = self.spec_stored();
            assert(row < mid.len());
            // Perform operation, but if growing our virtual range, don't
            // return anything and pretend that it was empty
            let mut old_value = value;
            core::mem::swap(&mut self.cells[row][col], &mut old_value);
            proof {
                assert forall|i: int, j: int| 0 <= i < mid.len() && 0 <= j < COL implies #[trigger] self.spec_stored()[i][j]
                    == if i == row && j == col {
                    value
                } else {
                    mid[i][j]
                } by {
                }
                if row < pre.row_cnt {
                    assert(old_value == pre.spec_stored()[row as int][col as int]);
                }
                assert forall|r: int, c: int| pre.spec_can_access(r, c) implies #[trigger] self.spec_can_access(r, c) by {
                }
                if (forall|i: int, j: int| #[trigger] pre.spec_can_access(i, j)) && row < pre.row_cnt {
                    assert forall|i: int, j: int|
                        0 <= i < pre.spec_row_cnt() && pre.spec_col_cnt() <= j <= col implies #[trigger] self.spec_cell(
                        i,
                        j,
                    ) is Some by {
                        assert(pre.spec_can_access(i, j));
                    }
                }
            }
            if !did_grow {
                Some(old_value)
            } else {
                None
            }
        } else {
            None
        }
    }

    fn remove_cell(&mut self, row: usize, col: usize) -> (r: Option<T>)
        ensures
            r == old(self).spec_cell(row as int, col as int),
    {
        let ghost pre = *self;
        if row < self.row_cnt && col < self.col_cnt {
            let mut old_value = T::default();
            core::mem::swap(&mut self.cells[row][col], &mut old_value);
            proof {
                assert forall|r: int, c: int| pre.spec_can_access(r, c) implies #[trigger] self.spec_can_access(r, c) by {
                }
            }
            Some(old_value)
        } else {
            None
        }
    }
}

/// Comparing the stored rows with an array is comparing every readable cell
/// with the array's element at the same position
proof fn lemma_stored_rows_match_in_cells<T: Default + PartialEq<U>, U, const COL: usize, const U_ROW: usize, const U_COL: usize>(
    t: FixedColumnTable<T, COL>,
    other: [[U; U_COL]; U_ROW],
)
    requires
        t.spec_col_cnt() <= COL,
    ensures
        stored_rows_match_array(t, other) <==> {
            &&& t.spec_row_cnt() == U_ROW
            &&& t.spec_col_cnt() == U_COL
            &&& forall|i: int, j: int|
                0 <= i < U_ROW && 0 <= j < U_COL && (#[trigger] t.spec_cell(i, j)) is Some
                    ==> t.spec_cell(i, j)->Some_0.eq_spec(&other@[i]@[j])
        },
{
    if t.spec_row_cnt() == U_ROW && t.spec_col_cnt() == U_COL {
        if stored_rows_match_array(t, other) {
            assert forall|i: int, j: int|
                0 <= i < U_ROW && 0 <= j < U_COL && (#[trigger] t.spec_cell(i, j)) is Some implies t.spec_cell(
                i,
                j,
            )->Some_0.eq_spec(&other@[i]@[j]) by {
                assert(t.spec_cell(i, j)->Some_0 == t.spec_stored()[i][j]);
            }
        } else {
            let (i, j) = choose|i: int, j: int|
                0 <= i < U_ROW && i < t.spec_stored().len() && 0 <= j < U_COL && !(#[trigger] t.spec_stored()[i][
                    j
                ].eq_spec(&other@[i]@[j]));
            assert(t.spec_cell(i, j) is Some);
        }
    }
}

/// Comparing a table with an array fails wherever a readable cell of the
/// table, in any row and any column (the first ones included), differs from
/// the array's element at the same position
pub proof fn lemma_eq_array_sees_every_cell<T: Default + PartialEq<U>, U, const COL: usize, const U_ROW: usize, const U_COL: usize>(
    t: FixedColumnTable<T, COL>,
    other: [[U; U_COL]; U_ROW],
    i: int,
    j: int,
)
    requires
        0 <= i < U_ROW,
        0 <= j < U_COL,
        t.spec_cell(i, j) is Some,
        !t.spec_cell(i, j)->Some_0.eq_spec(&other@[i]@[j]),
    ensures
        !stored_rows_match_array(t, other),
{
    assert(t.spec_cell(i, j)->Some_0 == t.spec_stored()[i][j]);
}

/// A table with as many rows and columns as an array, whose every readable
/// cell equals the array's element at the same position, compares equal to
/// the array
pub proof fn lemma_eq_array_holds_when_cells_agree<T: Default + PartialEq<U>, U, const COL: usize, const U_ROW: usize, const U_COL: usize>(
    t: FixedColumnTable<T, COL>,
    other: [[U; U_COL]; U_ROW],
)
    requires
        t.spec_row_cnt() == U_ROW,
        t.spec_col_cnt() == U_COL,
        t.spec_col_cnt() <= COL,
        forall|i: int, j: int|
            0 <= i < U_ROW && 0 <= j < U_COL && (#[trigger] t.spec_cell(i, j)) is Some ==> t.spec_cell(
                i,
                j,
            )->Some_0.eq_spec(&other@[i]@[j]),
    ensures
        stored_rows_match_array(t, other),
{
    assert forall|i: int, j: int|
        0 <= i < U_ROW && i < t.spec_stored().len() && 0 <= j < U_COL implies #[trigger] t.spec_stored()[i][j].eq_spec(
        &other@[i]@[j],
    ) by {
        assert(t.spec_cell(i, j) is Some);
    }
}

/// A write into a table reports a previous cell exactly where a cell could
/// be read before the write, and then reports that cell: a write that grows
/// the row or column count, or lands past the last allowed column, reports
/// none
pub proof fn lemma_insert_reports_the_cell_that_was_there<T: Default, const COL: usize>(
    pre: FixedColumnTable<T, COL>,
    row: int,
    col: int,
    value: T,
    post: FixedColumnTable<T, COL>,
    prev: Option<T>,
)
    requires
        0 <= row,
        0 <= col,
        pre.spec_can_access(row, col),
        FixedColumnTable::<T, COL>::spec_inserted(pre, row, col, value, post, prev),
    ensures
        prev == pre.spec_cell(row, col),
        row >= pre.spec_row_cnt() || col >= pre.spec_col_cnt() ==> prev is None,
{
}

} // verus!
