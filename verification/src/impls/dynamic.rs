use crate::list::{DynamicList, List};
use crate::position::{last_cell_at, Position};
use crate::iter::{CellIter, Cells, ZipPosition};
use crate::{
    cells_within_bounds, column_cells, column_inserted, column_occupied, fully_accessible,
    lemma_somes_of_padded, row_cells, row_inserted, row_occupied, Table, TableOps,
};
use std::collections::HashMap;
use vstd::prelude::*;
use vstd::std_specs::cmp::PartialEqSpec;
use vstd::std_specs::hash::spec_keys_iter;
use vstd::std_specs::iter::IteratorSpec;

verus! {

broadcast use vstd::std_specs::hash::group_hash_axioms;

/// The distance between the keys of two consecutive rows
pub open spec fn row_stride() -> int {
    0x1_0000_0000_0000_0000
}

/// The key under which the cell at `(row, col)` is stored
pub open spec fn cell_key(row: int, col: int) -> u128 {
    (row * row_stride() + col) as u128
}

/// The key of a position is its row and column side by side, so distinct
/// positions have distinct keys and a key gives back its position
proof fn lemma_cell_key(row: int, col: int)
    requires
        0 <= row <= usize::MAX,
        0 <= col <= usize::MAX,
    ensures
        cell_key(row, col) as int == row * row_stride() + col,
        cell_key(row, col) as int / row_stride() == row,
        cell_key(row, col) as int % row_stride() == col,
{
    assert(row * row_stride() + col <= u128::MAX) by (nonlinear_arith)
        requires
            0 <= row <= usize::MAX,
            0 <= col <= usize::MAX,
            usize::MAX <= 0xffff_ffff_ffff_ffff,
            row_stride() == 0x1_0000_0000_0000_0000,
    ;
    assert((row * row_stride() + col) / row_stride() == row) by (nonlinear_arith)
        requires
            0 <= row,
            0 <= col < row_stride(),
            row_stride() == 0x1_0000_0000_0000_0000,
    ;
    assert((row * row_stride() + col) % row_stride() == col) by (nonlinear_arith)
        requires
            0 <= row,
            0 <= col < row_stride(),
            row_stride() == 0x1_0000_0000_0000_0000,
    ;
}

/// A key is the key of the position made of its quotient and remainder by
/// the row stride
proof fn lemma_key_decode(k: u128)
    requires
        (k as int) / row_stride() <= usize::MAX,
    ensures
        cell_key((k as int) / row_stride(), (k as int) % row_stride()) == k,
        0 <= (k as int) % row_stride() < row_stride(),
{
    let row = (k as int) / row_stride();
    let col = (k as int) % row_stride();
    assert(row * row_stride() + col == k as int) by (nonlinear_arith)
        requires
            row == (k as int) / row_stride(),
            col == (k as int) % row_stride(),
            row_stride() == 0x1_0000_0000_0000_0000,
    ;
    assert(0 <= col < row_stride()) by (nonlinear_arith)
        requires
            col == (k as int) % row_stride(),
            row_stride() == 0x1_0000_0000_0000_0000,
    ;
}

/// Computes the key under which the cell at `(row, col)` is stored
fn key_for(row: usize, col: usize) -> (k: u128)
    ensures
        k == cell_key(row as int, col as int),
        k as int == row * row_stride() + col,
{
    proof {
        lemma_cell_key(row as int, col as int);
    }
    (row as u128) * 0x1_0000_0000_0000_0000u128 + (col as u128)
}

/// Represents an inmemory table containing rows & columns of some data `T`,
/// capable of growing and shrinking in size dynamically
#[derive(Clone, Debug, PartialEq, Eq)]
pub struct DynamicTable<T> {
    /// Represents the table's data (cells) as a mapping between a cell's
    /// position, joined into a single key, and its actual content
    cells: HashMap<u128, T>,
    /// Represents the total rows contained in the table based on the largest
    /// row position found
    row_cnt: usize,
    /// Represents the total columns contained in the table based on the largest
    /// column position found
    col_cnt: usize,
}

/// `post` holds `cell` at `(row, col)` and the cells of `pre` everywhere else
pub open spec fn cells_replaced<T>(
    pre: DynamicTable<T>,
    row: int,
    col: int,
    cell: Option<T>,
    post: DynamicTable<T>,
) -> bool {
    &&& post.spec_cell(row, col) == cell
    &&& forall|r: int, c: int|
        !(r == row && c == col) ==> #[trigger] post.spec_cell(r, c) == pre.spec_cell(r, c)
}

impl<T> DynamicTable<T> {
    /// The stored map from keys to cells
    pub closed spec fn spec_cells_map(&self) -> Map<u128, T> {
        self.cells@
    }

    /// Every stored key is the key of a position
    pub closed spec fn spec_keys_valid(&self) -> bool {
        forall|k: u128|
            #[trigger] self.cells@.contains_key(k) ==> (k as int) / row_stride() < usize::MAX
                && (k as int) % row_stride() < usize::MAX
    }
}

impl<T> Table for DynamicTable<T> {
    type Data = T;
    type Row = DynamicList<T>;
    type Column = DynamicList<T>;

    closed spec fn spec_row_cnt(&self) -> nat {
        self.row_cnt as nat
    }

    closed spec fn spec_col_cnt(&self) -> nat {
        self.col_cnt as nat
    }

    closed spec fn spec_cell(&self, row: int, col: int) -> Option<T> {
        if 0 <= row <= usize::MAX && 0 <= col <= usize::MAX && self.cells@.contains_key(
            cell_key(row, col),
        ) {
            Some(self.cells@[cell_key(row, col)])
        } else {
            None
        }
    }

    open spec fn spec_can_access(&self, row: int, col: int) -> bool {
        self.spec_keys_valid()
    }

    /// Growing the bounds past a position must not overflow
    open spec fn spec_can_insert(&self, row: int, col: int) -> bool {
        &&& self.spec_keys_valid()
        &&& row >= self.spec_row_cnt() ==> row < usize::MAX
        &&& col >= self.spec_col_cnt() ==> col < usize::MAX
    }

    open spec fn spec_can_remove(&self, row: int, col: int) -> bool {
        self.spec_keys_valid()
    }

    open spec fn spec_is_sparse() -> bool {
        true
    }

    open spec fn spec_cleared(v: Option<T>) -> bool {
        v is None
    }

    open spec fn spec_takes_row_capacity() -> bool {
        true
    }

    open spec fn spec_takes_column_capacity() -> bool {
        true
    }

    open spec fn spec_grows_rows() -> bool {
        true
    }

    open spec fn spec_grows_columns() -> bool {
        true
    }

    open spec fn spec_col_limit() -> int {
        usize::MAX as int
    }

    /// The map gains the value at the position, and the bounds stretch to
    /// include the position
    open spec fn spec_inserted(
        pre: Self,
        row: int,
        col: int,
        value: T,
        post: Self,
        prev: Option<T>,
    ) -> bool {
        &&& prev == pre.spec_cell(row, col)
        &&& cells_replaced(pre, row, col, Some(value), post)
        &&& post.spec_row_cnt() == if row < pre.spec_row_cnt() {
            pre.spec_row_cnt() as int
        } else {
            row + 1
        }
        &&& post.spec_col_cnt() == if col < pre.spec_col_cnt() {
            pre.spec_col_cnt() as int
        } else {
            col + 1
        }
        &&& pre.spec_keys_valid() ==> post.spec_keys_valid()
    }

    /// The map loses the position; the bounds stay
    open spec fn spec_removed(pre: Self, row: int, col: int, post: Self, prev: Option<T>) -> bool {
        &&& prev == pre.spec_cell(row, col)
        &&& cells_replaced(pre, row, col, None, post)
        &&& post.spec_row_cnt() == pre.spec_row_cnt()
        &&& post.spec_col_cnt() == pre.spec_col_cnt()
        &&& pre.spec_keys_valid() ==> post.spec_keys_valid()
    }

    /// Same counts, and the same map from positions to cells
    open spec fn spec_same_table(a: Self, b: Self) -> bool {
        &&& a.spec_row_cnt() == b.spec_row_cnt()
        &&& a.spec_col_cnt() == b.spec_col_cnt()
        &&& a.spec_cells_map() =~= b.spec_cells_map()
    }

    open spec fn spec_cell_set(pre: Self, row: int, col: int, value: T, post: Self) -> bool {
        &&& cells_replaced(pre, row, col, Some(value), post)
        &&& post.spec_row_cnt() == pre.spec_row_cnt()
        &&& post.spec_col_cnt() == pre.spec_col_cnt()
        &&& pre.spec_keys_valid() ==> post.spec_keys_valid()
    }

    open spec fn spec_row_capacity_set(pre: Self, capacity: int, post: Self) -> bool {
        &&& forall|r: int, c: int| #[trigger] post.spec_cell(r, c) == pre.spec_cell(r, c)
        &&& post.spec_row_cnt() == capacity
        &&& post.spec_col_cnt() == pre.spec_col_cnt()
        &&& pre.spec_keys_valid() ==> post.spec_keys_valid()
    }

    open spec fn spec_column_capacity_set(pre: Self, capacity: int, post: Self) -> bool {
        &&& forall|r: int, c: int| #[trigger] post.spec_cell(r, c) == pre.spec_cell(r, c)
        &&& post.spec_col_cnt() == capacity
        &&& post.spec_row_cnt() == pre.spec_row_cnt()
        &&& pre.spec_keys_valid() ==> post.spec_keys_valid()
    }

    proof fn lemma_access_to_insert(&self, row: int, col: int) {
    }

    proof fn lemma_access_to_remove(&self, row: int, col: int) {
    }

    proof fn lemma_cell_position(&self, row: int, col: int) {
        lemma_cell_key(row, col);
        assert(self.cells@.contains_key(cell_key(row, col)));
    }

    fn row_cnt(&self) -> (r: usize) {
        self.row_cnt
    }

    fn col_cnt(&self) -> (r: usize) {
        self.col_cnt
    }

    fn get_cell(&self, row: usize, col: usize) -> (r: Option<&T>) {
        let key = key_for(row, col);
        self.cells.get(&key)
    }

    fn get_mut_cell(&mut self, row: usize, col: usize) -> (r: Option<&mut T>) {
        let key = key_for(row, col);
        proof {
            assert forall|r: int, c: int|
                0 <= r <= usize::MAX && 0 <= c <= usize::MAX && !(r == row && c == col) implies cell_key(r, c) != key by {
                lemma_cell_key(r, c);
                lemma_cell_key(row as int, col as int);
            }
        }
        match self.cells.entry(key) {
            std::collections::hash_map::Entry::Occupied(e) => Some(e.into_mut()),
            std::collections::hash_map::Entry::Vacant(_) => None,
        }
    }

    fn insert_cell(&mut self, row: usize, col: usize, value: T) -> (r: Option<T>) {
        // If cell exceeds current row range, adjust it
        if row >= self.row_cnt {
            self.row_cnt = row + 1;
        }
        // If cell exceeds current column range, adjust it
        if col >= self.col_cnt {
            self.col_cnt = col + 1;
        }
        let key = key_for(row, col);
        proof {
            assert forall|r: int, c: int|
                0 <= r <= usize::MAX && 0 <= c <= usize::MAX && !(r == row && c == col) implies cell_key(r, c) != key by {
                lemma_cell_key(r, c);
                lemma_cell_key(row as int, col as int);
            }
            lemma_cell_key(row as int, col as int);
        }
        self.cells.insert(key, value)
    }

    fn remove_cell(&mut self, row: usize, col: usize) -> (r: Option<T>) {
        let key = key_for(row, col);
        proof {
            assert forall|r: int, c: int|
                0 <= r <= usize::MAX && 0 <= c <= usize::MAX && !(r == row && c == col) implies cell_key(r, c) != key by {
                lemma_cell_key(r, c);
                lemma_cell_key(row as int, col as int);
            }
        }
        self.cells.remove(&key)
    }

    /// Will adjust the internal row count tracker to the specified capacity
    ///
    /// Note that this does **not** remove any cells from the table in their
    /// old positions. To do that, call [`Self::truncate`].
    fn set_row_capacity(&mut self, capacity: usize) {
        let ghost pre = *self;
        self.row_cnt = capacity;
        assert(pre.spec_can_access(0, 0) ==> self.spec_keys_valid());
    }

    /// Will adjust the internal column count tracker to the specified capacity
    ///
    /// Note that this does **not** remove any cells from the table in their
    /// old positions. To do that, call [`Self::truncate`].
    fn set_column_capacity(&mut self, capacity: usize) {
        let ghost pre = *self;
        self.col_cnt = capacity;
        assert(pre.spec_can_access(0, 0) ==> self.spec_keys_valid());
    }
}

impl<T> DynamicTable<T> {
    /// Returns true if the table has as many rows and columns as `other`,
    /// every one of its positions holds a cell equal to the element of
    /// `other` there, and no row holds a cell just past its last column
    /// (reading a row goes on until its first empty position)
    pub fn eq_array<U, const ROW: usize, const COL: usize>(&self, other: &[[U; COL]; ROW]) -> (r: bool) where
        T: PartialEq<U>,

        requires
            fully_accessible(*self),
        ensures
            r ==> {
                &&& self.spec_row_cnt() == ROW
                &&& self.spec_col_cnt() == COL
                &&& forall|i: int, j: int| 0 <= i < ROW && 0 <= j < COL ==> #[trigger] self.spec_cell(i, j) is Some
                &&& forall|i: int| 0 <= i < ROW ==> #[trigger] self.spec_cell(i, COL as int) is None
            },
            <T as PartialEqSpec<U>>::obeys_eq_spec() ==> (r <==> cells_match_array(*self, *other)),
            <T as PartialEqSpec<U>>::obeys_eq_spec() ==> (r <==> {
                &&& self.spec_row_cnt() == ROW
                &&& self.spec_col_cnt() == COL
                &&& forall|i: int, j: int|
                    0 <= i < ROW && 0 <= j < COL ==> (#[trigger] self.spec_cell(i, j)) is Some && self.spec_cell(
                        i,
                        j,
                    )->Some_0.eq_spec(&other@[i]@[j])
                &&& forall|i: int| 0 <= i < ROW ==> (#[trigger] self.spec_cell(i, COL as int)) is None
            }),
    {
        if self.row_cnt != ROW || self.col_cnt != COL {
            return false;
        }
        let mut i: usize = 0;
        while i < ROW
            invariant
                0 <= i <= ROW,
                fully_accessible(*self),
                self.spec_row_cnt() == ROW,
                self.spec_col_cnt() == COL,
                forall|a: int, b: int| 0 <= a < i && 0 <= b < COL ==> #[trigger] self.spec_cell(a, b) is Some,
                forall|a: int| 0 <= a < i ==> #[trigger] self.spec_cell(a, COL as int) is None,
                <T as PartialEqSpec<U>>::obeys_eq_spec() ==> forall|a: int, b: int|
                    0 <= a < i && 0 <= b < COL ==> (#[trigger] self.spec_cell(a, b) matches Some(x)
                        && x.eq_spec(&other@[a]@[b])),
            decreases ROW - i,
        {
            let mut j: usize = 0;
            while j < COL
                invariant
                    0 <= i < ROW,
                    0 <= j <= COL,
                    fully_accessible(*self),
                    self.spec_row_cnt() == ROW,
                    self.spec_col_cnt() == COL,
                    forall|a: int, b: int|
                        (0 <= a < i && 0 <= b < COL) || (a == i && 0 <= b < j) ==> #[trigger] self.spec_cell(a, b) is Some,
                    forall|a: int| 0 <= a < i ==> #[trigger] self.spec_cell(a, COL as int) is None,
                    <T as PartialEqSpec<U>>::obeys_eq_spec() ==> forall|a: int, b: int|
                        (0 <= a < i && 0 <= b < COL) || (a == i && 0 <= b < j) ==> (#[trigger] self.spec_cell(a, b) matches Some(x)
                            && x.eq_spec(&other@[a]@[b])),
                decreases COL - j,
            {
                match self.get_cell(i, j) {
                    Some(x) => {
                        if !x.eq(&other[i][j]) {
                            return false;
                        }
                    },
                    None => {
                        return false;
                    },
                }
                j = j + 1;
            }
            if self.get_cell(i, COL).is_some() {
                return false;
            }
            i = i + 1;
        }
        true
    }

    /// The keys of the stored cells, each once
    fn stored_keys(&self) -> (r: Vec<u128>)
        ensures
            r@.to_set() == self.cells@.dom(),
            r@.no_duplicates(),
    {
        let mut keys: Vec<u128> = Vec::new();
        let ghost all = spec_keys_iter(&self.cells).remaining();
        for k in it: self.cells.keys()
            invariant
                it.seq() == all,
                all == spec_keys_iter(&self.cells).remaining(),
                keys@.len() == it.index(),
                forall|i: int| 0 <= i < it.index() ==> keys@[i] == *all[i],
        {
            keys.push(*k);
        }
        assert(keys@ =~= all.unref());
        keys
    }
}

/// The row of the position whose key is `k`
pub open spec fn key_row(k: u128) -> int {
    (k as int) / row_stride()
}

/// The column of the position whose key is `k`
pub open spec fn key_col(k: u128) -> int {
    (k as int) % row_stride()
}

/// `t` has `ROW` rows and `COL` columns, a cell at each of their positions
/// that equals the element of `other` at that position, and no cell just
/// past the last column of any of those rows
pub open spec fn cells_match_array<T: PartialEq<U>, U, const ROW: usize, const COL: usize>(
    t: DynamicTable<T>,
    other: [[U; COL]; ROW],
) -> bool {
    &&& t.spec_row_cnt() == ROW
    &&& t.spec_col_cnt() == COL
    &&& forall|i: int, j: int|
        0 <= i < ROW && 0 <= j < COL ==> (#[trigger] t.spec_cell(i, j) matches Some(x) && x.eq_spec(
            &other@[i]@[j],
        ))
    &&& forall|i: int| 0 <= i < ROW ==> #[trigger] t.spec_cell(i, COL as int) is None
}

/// Comparing a table with an array fails wherever the table lacks a cell,
/// or holds one that differs from the array's element at the same position,
/// in any row and any column (the first ones included)
pub proof fn lemma_eq_array_sees_every_cell<T: PartialEq<U>, U, const ROW: usize, const COL: usize>(
    t: DynamicTable<T>,
    other: [[U; COL]; ROW],
    i: int,
    j: int,
)
    requires
        0 <= i < ROW,
        0 <= j < COL,
        !(t.spec_cell(i, j) is Some && t.spec_cell(i, j)->Some_0.eq_spec(&other@[i]@[j])),
    ensures
        !cells_match_array(t, other),
{
}

/// A table with as many rows and columns as an array, with a cell equal to
/// the array's element at every position and no cell just past the last
/// column of any row, compares equal to the array
pub proof fn lemma_eq_array_holds_when_cells_agree<T: PartialEq<U>, U, const ROW: usize, const COL: usize>(
    t: DynamicTable<T>,
    other: [[U; COL]; ROW],
)
    requires
        t.spec_row_cnt() == ROW,
        t.spec_col_cnt() == COL,
        forall|i: int, j: int|
            0 <= i < ROW && 0 <= j < COL ==> (#[trigger] t.spec_cell(i, j)) is Some && t.spec_cell(
                i,
                j,
            )->Some_0.eq_spec(&other@[i]@[j]),
        forall|i: int| 0 <= i < ROW ==> (#[trigger] t.spec_cell(i, COL as int)) is None,
    ensures
        cells_match_array(t, other),
{
}

/// The bounds of `t` are the least that hold all its cells: its last row and
/// its last column each hold a cell
pub open spec fn tight_bounds<T>(t: DynamicTable<T>) -> bool {
    &&& cells_within_bounds(t)
    &&& t.spec_row_cnt() == 0 || row_occupied(t, t.spec_row_cnt() - 1)
    &&& t.spec_col_cnt() == 0 || column_occupied(t, t.spec_col_cnt() - 1)
}

impl<T> DynamicTable<T> {
    /// Creates a new, empty table
    pub fn new() -> (r: Self)
        ensures
            r.spec_row_cnt() == 0,
            r.spec_col_cnt() == 0,
            forall|row: int, col: int| #[trigger] r.spec_cell(row, col) is None,
            fully_accessible(r),
    {
        let r = Self { cells: HashMap::new(), row_cnt: 0, col_cnt: 0 };
        assert(r.cells@ =~= Map::empty());
        r
    }

    /// Removes all cells contained within the table that are outside the
    /// current row & column capacity
    pub fn truncate(&mut self)
        requires
            fully_accessible(*old(self)),
        ensures
            fully_accessible(*final(self)),
            final(self).spec_row_cnt() == old(self).spec_row_cnt(),
            final(self).spec_col_cnt() == old(self).spec_col_cnt(),
            forall|row: int, col: int|
                #[trigger] final(self).spec_cell(row, col) == if row < old(self).spec_row_cnt()
                    && col < old(self).spec_col_cnt() {
                    old(self).spec_cell(row, col)
                } else {
                    None
                },
            cells_within_bounds(*final(self)),
    {
        let ghost pre = *self;
        let row_cnt = self.row_cnt;
        let col_cnt = self.col_cnt;
        assert(pre.spec_can_access(0, 0));
        let keys = self.stored_keys();
        let mut i: usize = 0;
        while i < keys.len()
            invariant
                i <= keys@.len(),
                keys@.to_set() == pre.cells@.dom(),
                self.row_cnt == row_cnt,
                self.col_cnt == col_cnt,
                row_cnt == pre.row_cnt,
                col_cnt == pre.col_cnt,
                pre.spec_keys_valid(),
                forall|k: u128|
                    #[trigger] self.cells@.contains_key(k) == (pre.cells@.contains_key(k) && (
                    !keys@.take(i as int).contains(k) || (key_row(k) < row_cnt && key_col(k)
                        < col_cnt))),
                forall|k: u128| #[trigger] self.cells@.contains_key(k) ==> self.cells@[k] == pre.cells@[k],
            decreases keys@.len() - i,
        {
            let k = keys[i];
            let ghost before = self.cells@;
            assert(keys@.contains(k));
            assert(keys@.to_set().contains(k));
            let row = (k / 0x1_0000_0000_0000_0000u128) as usize;
            let col = (k % 0x1_0000_0000_0000_0000u128) as usize;
            assert(row == key_row(k) && col == key_col(k));
            if !(row < row_cnt && col < col_cnt) {
                self.cells.remove(&k);
                assert(self.cells@ == before.remove(k));
            } else {
                assert(self.cells@ == before);
            }
            proof {
                assert forall|k2: u128|
                    #[trigger] self.cells@.contains_key(k2) == (pre.cells@.contains_key(k2) && (
                    !keys@.take(i + 1).contains(k2) || (key_row(k2) < row_cnt && key_col(k2)
                        < col_cnt))) by {
                    assert(keys@.take(i + 1) =~= keys@.take(i as int).push(k));
                    if keys@.take(i as int).contains(k2) {
                        let j = choose|j: int| 0 <= j < i && #[trigger] keys@.take(i as int)[j] == k2;
                        assert(keys@.take(i + 1)[j] == k2);
                    }
                    if k2 != k && keys@.take(i + 1).contains(k2) {
                        let j = choose|j: int| 0 <= j < i + 1 && #[trigger] keys@.take(i + 1)[j] == k2;
                        assert(keys@.take(i as int)[j] == k2);
                    }
                    if k2 == k {
                        assert(keys@.take(i + 1)[i as int] == k);
                    }
                    assert(before.contains_key(k2) == (pre.cells@.contains_key(k2) && (
                        !keys@.take(i as int).contains(k2) || (key_row(k2) < row_cnt && key_col(k2)
                        < col_cnt))));
                }
            }
            i = i + 1;
        }
        proof {
            assert(keys@.take(keys@.len() as int) =~= keys@);
            assert forall|row: int, col: int|
                #[trigger] self.spec_cell(row, col) == if row < pre.spec_row_cnt() && col
                    < pre.spec_col_cnt() {
                    pre.spec_cell(row, col)
                } else {
                    None
                } by {
                if 0 <= row <= usize::MAX && 0 <= col <= usize::MAX {
                    lemma_cell_key(row, col);
                    let k = cell_key(row, col);
                    if pre.cells@.contains_key(k) {
                        assert(keys@.to_set().contains(k));
                        assert(keys@.contains(k));
                    }
                }
            }
        }
    }

    /// Shrinks the table's row & column capacity to fit where cells exist
    pub fn shrink_to_fit(&mut self)
        requires
            fully_accessible(*old(self)),
        ensures
            fully_accessible(*final(self)),
            forall|row: int, col: int|
                #[trigger] final(self).spec_cell(row, col) == old(self).spec_cell(row, col),
            tight_bounds(*final(self)),
    {
        let ghost pre = *self;
        assert(pre.spec_can_access(0, 0));
        let keys = self.stored_keys();
        let mut max_row: usize = 0;
        let mut max_col: usize = 0;
        let mut i: usize = 0;
        while i < keys.len()
            invariant
                i <= keys@.len(),
                keys@.to_set() == self.cells@.dom(),
                self.spec_keys_valid(),
                forall|j: int| 0 <= j < i ==> key_row(#[trigger] keys@[j]) < max_row && key_col(keys@[j]) < max_col,
                max_row == 0 || exists|j: int| 0 <= j < i && key_row(#[trigger] keys@[j]) + 1 == max_row,
                max_col == 0 || exists|j: int| 0 <= j < i && key_col(#[trigger] keys@[j]) + 1 == max_col,
            decreases keys@.len() - i,
        {
            let k = keys[i];
            assert(keys@.to_set().contains(k));
            let row = (k / 0x1_0000_0000_0000_0000u128) as usize;
            let col = (k % 0x1_0000_0000_0000_0000u128) as usize;
            if row + 1 > max_row {
                max_row = row + 1;
            }
            if col + 1 > max_col {
                max_col = col + 1;
            }
            proof {
                assert(key_row(keys@[i as int]) + 1 <= max_row);
            }
            i = i + 1;
        }
        self.row_cnt = max_row;
        self.col_cnt = max_col;
        proof {
            assert forall|row: int, col: int| #[trigger] self.spec_cell(row, col) is Some implies 0
                <= row < self.spec_row_cnt() && 0 <= col < self.spec_col_cnt() by {
                lemma_cell_key(row, col);
                let k = cell_key(row, col);
                assert(keys@.to_set().contains(k));
                let j = keys@.index_of(k);
                assert(key_row(keys@[j]) < max_row);
            }
            if max_row > 0 {
                let j = choose|j: int| 0 <= j < keys@.len() && key_row(#[trigger] keys@[j]) + 1 == max_row;
                let k = keys@[j];
                assert(keys@.to_set().contains(k));
                lemma_key_decode(k);
                assert(self.spec_cell(max_row - 1, key_col(k)) is Some);
            }
            if max_col > 0 {
                let j = choose|j: int| 0 <= j < keys@.len() && key_col(#[trigger] keys@[j]) + 1 == max_col;
                let k = keys@[j];
                assert(keys@.to_set().contains(k));
                lemma_key_decode(k);
                assert(self.spec_cell(key_row(k), max_col - 1) is Some);
            }
        }
    }
}

impl<T> DynamicTable<T> {
    /// Creates a new table from the given positioned cells, placed in order
    /// so that a later cell at a position replaces an earlier one; the row
    /// and column counts are the least that hold every cell
    pub fn from_positions(cells: Vec<(Position, T)>) -> (r: Self)
        requires
            forall|i: int|
                0 <= i < cells@.len() ==> (#[trigger] cells@[i]).0.row < usize::MAX && cells@[i].0.col
                    < usize::MAX,
        ensures
            fully_accessible(r),
            tight_bounds(r),
            forall|row: int, col: int| #[trigger] r.spec_cell(row, col) == last_cell_at(cells@, row, col),
    {
        let mut table = Self::new();
        let n = cells.len();
        let ghost items = cells@;
        let mut rest = cells;
        let mut reversed: Vec<(Position, T)> = Vec::new();
        while rest.len() > 0
            invariant
                n == items.len(),
                rest@ == items.take(rest@.len() as int),
                reversed@.len() == n - rest@.len(),
                forall|k: int| 0 <= k < reversed@.len() ==> #[trigger] reversed@[k] == items[n - 1 - k],
            decreases rest@.len(),
        {
            let x = rest.pop().unwrap();
            reversed.push(x);
        }
        let mut placed: usize = 0;
        while reversed.len() > 0
            invariant
                n == items.len(),
                placed + reversed@.len() == n,
                forall|k: int| 0 <= k < reversed@.len() ==> #[trigger] reversed@[k] == items[n - 1 - k],
                forall|i: int|
                    0 <= i < items.len() ==> (#[trigger] items[i]).0.row < usize::MAX && items[i].0.col
                        < usize::MAX,
                fully_accessible(table),
                tight_bounds(table),
                forall|row: int, col: int|
                    #[trigger] table.spec_cell(row, col) == last_cell_at(items.take(placed as int), row, col),
            decreases reversed@.len(),
        {
            let (pos, x) = reversed.pop().unwrap();
            let ghost before = table;
            assert(items.take(placed + 1).drop_last() =~= items.take(placed as int));
            assert(items[placed as int].0 == pos);
            proof {
                table.lemma_access_to_insert(pos.row as int, pos.col as int);
            }
            table.insert_cell(pos.row, pos.col, x);
            proof {
                assert forall|row: int, col: int| #[trigger] table.spec_cell(row, col) is Some implies 0
                    <= row < table.spec_row_cnt() && 0 <= col < table.spec_col_cnt() by {
                    assert(before.spec_cell(row, col) == before.spec_cell(row, col));
                }
                if table.spec_row_cnt() > 0 {
                    if pos.row + 1 == table.spec_row_cnt() {
                        assert(table.spec_cell(pos.row as int, pos.col as int) is Some);
                    } else {
                        let c = choose|c: int| #[trigger] before.spec_cell(before.spec_row_cnt() - 1, c) is Some;
                        assert(table.spec_cell(table.spec_row_cnt() - 1, c) is Some);
                    }
                }
                if table.spec_col_cnt() > 0 {
                    if pos.col + 1 == table.spec_col_cnt() {
                        assert(table.spec_cell(pos.row as int, pos.col as int) is Some);
                    } else {
                        let r = choose|r: int| #[trigger] before.spec_cell(r, before.spec_col_cnt() - 1) is Some;
                        assert(table.spec_cell(r, table.spec_col_cnt() - 1) is Some);
                    }
                }
            }
            placed = placed + 1;
        }
        assert(items.take(n as int) =~= items);
        table
    }

    /// Creates a new table from the 2D array, whose rows become the table's
    /// rows; an array without cells gives an empty table
    pub fn from_array<const ROW: usize, const COL: usize>(matrix: [[T; COL]; ROW]) -> (r: Self)
        where
            T: Default,
        ensures
            fully_accessible(r),
            r.spec_row_cnt() == if COL > 0 { ROW } else { 0 },
            r.spec_col_cnt() == if ROW > 0 { COL } else { 0 },
            forall|row: int, col: int|
                #[trigger] r.spec_cell(row, col) == if 0 <= row < ROW && 0 <= col < COL {
                    Some(matrix@[row]@[col])
                } else {
                    None
                },
    {
        let ghost orig = matrix;
        let mut matrix = matrix;
        let mut table = Self::new();
        let mut row: usize = 0;
        while row < ROW
            invariant
                row <= ROW,
                fully_accessible(table),
                forall|i: int| row <= i < ROW ==> #[trigger] matrix@[i] == orig@[i],
                table.spec_row_cnt() == if COL > 0 { row } else { 0 },
                table.spec_col_cnt() == if row > 0 { COL } else { 0 },
                forall|i: int, j: int|
                    #[trigger] table.spec_cell(i, j) == if 0 <= i < row && 0 <= j < COL {
                        Some(orig@[i]@[j])
                    } else {
                        None
                    },
            decreases ROW - row,
        {
            let mut col: usize = 0;
            while col < COL
                invariant
                    row < ROW,
                    col <= COL,
                    fully_accessible(table),
                    forall|i: int| row < i < ROW ==> #[trigger] matrix@[i] == orig@[i],
                    forall|j: int| col <= j < COL ==> #[trigger] matrix@[row as int]@[j] == orig@[row as int]@[j],
                    table.spec_row_cnt() == if col > 0 { row + 1 } else if COL > 0 { row as int } else { 0 },
                    table.spec_col_cnt() == if row > 0 { COL as int } else { col as int },
                    forall|i: int, j: int|
                        #[trigger] table.spec_cell(i, j) == if (0 <= i < row && 0 <= j < COL) || (i == row
                            && 0 <= j < col) {
                            Some(orig@[i]@[j])
                        } else {
                            None
                        },
                decreases COL - col,
            {
                let mut value = T::default();
                core::mem::swap(&mut matrix[row][col], &mut value);
                proof {
                    table.lemma_access_to_insert(row as int, col as int);
                }
                table.insert_cell(row, col, value);
                col = col + 1;
            }
            row = row + 1;
        }
        table
    }

    /// Returns an iterator over the cells and their positions within the
    /// table, row by row
    pub fn iter(&self) -> (r: ZipPosition<&T, Cells<'_, T, DynamicTable<T>>>)
        ensures
            r.spec_inner().spec_table() == *self,
            r.spec_inner().spec_row() == 0,
            r.spec_inner().spec_col() == 0,
    {
        self.cells().zip_with_position()
    }

    /// Returns a reference to the cell at the specified row and column,
    /// which must exist
    pub fn index(&self, pos: (usize, usize)) -> (r: &T)
        requires
            fully_accessible(*self),
            self.spec_cell(pos.0 as int, pos.1 as int) is Some,
        ensures
            Some(*r) == self.spec_cell(pos.0 as int, pos.1 as int),
    {
        let (row, col) = pos;
        self.get_cell(row, col).unwrap()
    }

    /// Returns a mutable reference to the cell at the specified row and
    /// column, which must exist
    pub fn index_mut(&mut self, pos: (usize, usize)) -> (r: &mut T)
        requires
            fully_accessible(*old(self)),
            old(self).spec_cell(pos.0 as int, pos.1 as int) is Some,
        ensures
            Some(*r) == old(self).spec_cell(pos.0 as int, pos.1 as int),
            Self::spec_cell_set(*old(self), pos.0 as int, pos.1 as int, *final(r), *final(self)),
    {
        let (row, col) = pos;
        self.get_mut_cell(row, col).unwrap()
    }
}

impl<T> Default for DynamicTable<T> {
    fn default() -> (r: Self)
        ensures
            r.spec_row_cnt() == 0,
            r.spec_col_cnt() == 0,
            forall|row: int, col: int| #[trigger] r.spec_cell(row, col) is None,
            fully_accessible(r),
    {
        Self::new()
    }
}

/// A row inserted into a table and then removed from it comes back as a list
/// of exactly the inserted cells
pub proof fn lemma_removed_row_is_inserted_row<D>(
    pre: DynamicTable<D>,
    row: int,
    cells: Seq<D>,
    mid: DynamicTable<D>,
    list: DynamicList<D>,
)
    requires
        cells_within_bounds(pre),
        0 <= row,
        row_inserted(pre, row, cells, mid),
        DynamicList::<D>::spec_filled_with(row_cells(mid, row), list),
    ensures
        list.spec_items() == cells,
{
    assert(row_cells(mid, row) =~= crate::padded(cells, mid.spec_col_cnt()));
    lemma_somes_of_padded(cells, mid.spec_col_cnt());
}

/// A column inserted into a table and then removed from it comes back as a
/// list of exactly the inserted cells
pub proof fn lemma_removed_column_is_inserted_column<D>(
    pre: DynamicTable<D>,
    col: int,
    cells: Seq<D>,
    mid: DynamicTable<D>,
    list: DynamicList<D>,
)
    requires
        cells_within_bounds(pre),
        0 <= col,
        column_inserted(pre, col, cells, mid),
        DynamicList::<D>::spec_filled_with(column_cells(mid, col), list),
    ensures
        list.spec_items() == cells,
{
    assert(column_cells(mid, col) =~= crate::padded(cells, mid.spec_row_cnt()));
    lemma_somes_of_padded(cells, mid.spec_row_cnt());
}

} // verus!
