use crate::position::Position;
use crate::{fully_accessible, same_cell, Table};
use core::marker::PhantomData;
use vstd::prelude::*;
use vstd::std_specs::convert::FromSpecImpl;

verus! {

/// Represents an iterator over some part of a table at the granularity
/// of individual cells within the table
pub trait CellIter<T>: Sized {
    /// The row of the next item returned by the iterator
    spec fn spec_row(&self) -> int;

    /// The column of the next item returned by the iterator
    spec fn spec_col(&self) -> int;

    /// The iterator can look at its next position without touching storage
    /// that its table has not allocated
    spec fn spec_can_advance(&self) -> bool;

    /// `post` is `pre` after [`CellIter::next`] returned `item`
    spec fn spec_advanced(pre: Self, post: Self, item: Option<T>) -> bool;

    /// Returns the row of the next item returned by the iterator
    fn row(&self) -> (r: usize)
        ensures
            r == self.spec_row(),
    ;

    /// Returns the column of the next item returned by the iterator
    fn col(&self) -> (r: usize)
        ensures
            r == self.spec_col(),
    ;

    /// Consumes the next item of the iterator
    fn next(&mut self) -> (r: Option<T>)
        requires
            old(self).spec_can_advance(),
        ensures
            Self::spec_advanced(*old(self), *final(self), r),
    ;

    /// Consumes next item in iterator, returning it with the cell's position
    fn next_with_pos(&mut self) -> (r: Option<(Position, T)>)
        requires
            old(self).spec_can_advance(),
        ensures
            match r {
                Some((pos, x)) => {
                    &&& pos.row == old(self).spec_row()
                    &&& pos.col == old(self).spec_col()
                    &&& Self::spec_advanced(*old(self), *final(self), Some(x))
                },
                None => Self::spec_advanced(*old(self), *final(self), None),
            },
    {
        let pos = Position { row: self.row(), col: self.col() };
        match self.next() {
            Some(x) => Some((pos, x)),
            None => None,
        }
    }

    /// Zips up a cell iterator with the cell's position
    fn zip_with_position(self) -> (r: ZipPosition<T, Self>)
        ensures
            r.spec_inner() == self,
    {
        ZipPosition(self, PhantomData)
    }
}

/// Represents an iterator over some cell and its position
#[derive(Debug)]
pub struct ZipPosition<T, I>(I, PhantomData<T>);

impl<T, I> ZipPosition<T, I> {
    /// The iterator whose items are zipped with their positions
    pub closed spec fn spec_inner(&self) -> I {
        self.0
    }
}

impl<T, I: CellIter<T>> ZipPosition<T, I> {
    /// Returns the next item of the underlying iterator with its position
    pub fn next(&mut self) -> (r: Option<(Position, T)>)
        requires
            old(self).spec_inner().spec_can_advance(),
        ensures
            match r {
                Some((pos, x)) => {
                    &&& pos.row == old(self).spec_inner().spec_row()
                    &&& pos.col == old(self).spec_inner().spec_col()
                    &&& I::spec_advanced(old(self).spec_inner(), final(self).spec_inner(), Some(x))
                },
                None => I::spec_advanced(old(self).spec_inner(), final(self).spec_inner(), None),
            },
    {
        self.0.next_with_pos()
    }
}

/// Represents an iterator over rows of a table
#[verifier::reject_recursive_types(D)]
#[derive(Debug)]
pub struct Rows<'a, D, T: Table<Data = D>> {
    table: &'a T,
    idx: usize,
}

impl<'a, D, T: Table<Data = D>> Rows<'a, D, T> {
    /// The table whose rows are iterated
    pub closed spec fn spec_table(&self) -> T {
        *self.table
    }

    /// The index of the next row returned
    pub closed spec fn spec_idx(&self) -> int {
        self.idx as int
    }

    /// `post` is `pre` after [`Rows::next`] returned `r`: an iterator over
    /// the next row, if any row is left, after which the index moves on
    pub open spec fn spec_stepped(pre: Self, post: Self, r: Option<Row<'a, D, T>>) -> bool {
        &&& post.spec_table() == pre.spec_table()
        &&& pre.spec_idx() < pre.spec_table().spec_row_cnt() ==> {
            &&& r is Some
            &&& r->Some_0.spec_table() == pre.spec_table()
            &&& r->Some_0.spec_row() == pre.spec_idx()
            &&& r->Some_0.spec_col() == 0
            &&& post.spec_idx() == pre.spec_idx() + 1
        }
        &&& pre.spec_idx() >= pre.spec_table().spec_row_cnt() ==> {
            &&& r is None
            &&& post.spec_idx() == pre.spec_idx()
        }
    }

    /// Walking the rows of a table from its first row: after `k` steps the
    /// index is `k`, or the row count once every row has been passed, so that
    /// the rows left (what [`Rows::size_hint`] reports) are the row count
    /// less `k`, or none; the `k`-th step returns an iterator over row `k`
    /// from its first column while rows are left and nothing after that
    pub proof fn lemma_walk(states: Seq<Self>, items: Seq<Option<Row<'a, D, T>>>)
        requires
            states.len() == items.len() + 1,
            states[0].spec_idx() == 0,
            forall|i: int| 0 <= i < items.len() ==> Self::spec_stepped(states[i], states[i + 1], #[trigger] items[i]),
        ensures
            forall|k: int|
                0 <= k < states.len() ==> {
                    &&& (#[trigger] states[k]).spec_table() == states[0].spec_table()
                    &&& states[k].spec_idx() == if k < states[0].spec_table().spec_row_cnt() {
                        k
                    } else {
                        states[0].spec_table().spec_row_cnt() as int
                    }
                    &&& states[0].spec_table().spec_row_cnt() - states[k].spec_idx() == if k
                        < states[0].spec_table().spec_row_cnt() {
                        states[0].spec_table().spec_row_cnt() - k
                    } else {
                        0
                    }
                },
            forall|k: int|
                0 <= k < items.len() ==> if k < states[0].spec_table().spec_row_cnt() {
                    &&& (#[trigger] items[k]) is Some
                    &&& items[k]->Some_0.spec_table() == states[0].spec_table()
                    &&& items[k]->Some_0.spec_row() == k
                    &&& items[k]->Some_0.spec_col() == 0
                } else {
                    items[k] is None
                },
        decreases states.len(),
    {
        if items.len() > 0 {
            let n = items.len() - 1;
            let fewer = states.take(n + 1);
            let fewer_items = items.take(n);
            assert forall|i: int| 0 <= i < fewer_items.len() implies Self::spec_stepped(
                fewer[i],
                fewer[i + 1],
                #[trigger] fewer_items[i],
            ) by {
                assert(Self::spec_stepped(states[i], states[i + 1], items[i]));
            }
            Self::lemma_walk(fewer, fewer_items);
            assert(fewer[n] == states[n]);
            assert(Self::spec_stepped(states[n], states[n + 1], items[n]));
            assert forall|k: int| 0 <= k < states.len() implies {
                &&& (#[trigger] states[k]).spec_table() == states[0].spec_table()
                &&& states[k].spec_idx() == if k < states[0].spec_table().spec_row_cnt() {
                    k
                } else {
                    states[0].spec_table().spec_row_cnt() as int
                }
            } by {
                if k <= n {
                    assert(fewer[k] == states[k]);
                }
            }
            assert forall|k: int| 0 <= k < items.len() implies if k < states[0].spec_table().spec_row_cnt() {
                &&& (#[trigger] items[k]) is Some
                &&& items[k]->Some_0.spec_table() == states[0].spec_table()
                &&& items[k]->Some_0.spec_row() == k
                &&& items[k]->Some_0.spec_col() == 0
            } else {
                items[k] is None
            } by {
                if k < n {
                    assert(fewer_items[k] == items[k]);
                }
            }
        }
    }

    /// Produces an iterator that will iterator through all rows from the
    /// beginning of the table
    pub fn new(table: &'a T) -> (r: Self)
        ensures
            r.spec_table() == *table,
            r.spec_idx() == 0,
    {
        Self { table, idx: 0 }
    }

    /// Produces an iterator that will return no rows
    pub fn empty(table: &'a T) -> (r: Self)
        ensures
            r.spec_table() == *table,
            r.spec_idx() == table.spec_row_cnt(),
    {
        Self { table, idx: table.row_cnt() }
    }

    /// Returns an iterator over the next row, if any row is left
    pub fn next(&mut self) -> (r: Option<Row<'a, D, T>>)
        ensures
            Self::spec_stepped(*old(self), *final(self), r),
    {
        if self.idx < self.table.row_cnt() {
            let row = Row::new(self.table, self.idx);
            self.idx = self.idx + 1;
            Some(row)
        } else {
            None
        }
    }

    /// Returns the number of rows left, as both bounds
    pub fn size_hint(&self) -> (r: (usize, Option<usize>))
        requires
            self.spec_idx() <= self.spec_table().spec_row_cnt(),
        ensures
            r.0 == self.spec_table().spec_row_cnt() - self.spec_idx(),
            r.1 == Some(r.0),
    {
        let remaining = self.table.row_cnt() - self.idx;
        (remaining, Some(remaining))
    }
}

/// Represents an iterator over cells within a row of a table
#[verifier::reject_recursive_types(D)]
#[derive(Debug)]
pub struct Row<'a, D, T: Table<Data = D>> {
    table: &'a T,
    row: usize,
    col: usize,
}

impl<'a, D, T: Table<Data = D>> Row<'a, D, T> {
    /// The table whose cells are iterated
    pub closed spec fn spec_table(&self) -> T {
        *self.table
    }

    /// Creates a new iterator over the cells in a row for the given table
    /// at the specified row
    pub fn new(table: &'a T, row: usize) -> (r: Self)
        ensures
            r.spec_table() == *table,
            r.spec_row() == row,
            r.spec_col() == 0,
    {
        Self { table, row, col: 0 }
    }

    /// Returns the number of cells left before the end of the row, as both
    /// bounds; a row past the last row has none
    pub fn size_hint(&self) -> (r: (usize, Option<usize>))
        requires
            self.spec_col() <= self.spec_table().spec_col_cnt(),
        ensures
            r.0 == if self.spec_row() < self.spec_table().spec_row_cnt() {
                self.spec_table().spec_col_cnt() - self.spec_col()
            } else {
                0
            },
            r.1 == Some(r.0),
    {
        let remaining = if self.row < self.table.row_cnt() {
            self.table.col_cnt() - self.col
        } else {
            0
        };
        (remaining, Some(remaining))
    }
}

impl<'a, D, T: Table<Data = D>> CellIter<&'a D> for Row<'a, D, T> {
    closed spec fn spec_row(&self) -> int {
        self.row as int
    }

    closed spec fn spec_col(&self) -> int {
        self.col as int
    }

    open spec fn spec_can_advance(&self) -> bool {
        fully_accessible(self.spec_table())
    }

    /// Returns the cell at the current position; the column moves on only
    /// past a cell that is present
    open spec fn spec_advanced(pre: Self, post: Self, item: Option<&'a D>) -> bool {
        &&& post.spec_table() == pre.spec_table()
        &&& post.spec_row() == pre.spec_row()
        &&& same_cell(item, pre.spec_table().spec_cell(pre.spec_row(), pre.spec_col()))
        &&& post.spec_col() == if item is Some {
            pre.spec_col() + 1
        } else {
            pre.spec_col()
        }
    }

    fn row(&self) -> (r: usize) {
        self.row
    }

    fn col(&self) -> (r: usize) {
        self.col
    }

    fn next(&mut self) -> (r: Option<&'a D>) {
        let table: &'a T = self.table;
        let cell = table.get_cell(self.row, self.col);
        if cell.is_some() {
            proof {
                table.lemma_cell_position(self.row as int, self.col as int);
            }
            self.col = self.col + 1;
        }
        cell
    }
}

/// Represents an iterator over cells within a row of a table, taking the
/// cells out of the table it owns
#[verifier::reject_recursive_types(D)]
#[derive(Debug)]
pub struct IntoRow<D, T: Table<Data = D>> {
    table: T,
    row: usize,
    col: usize,
}

impl<D, T: Table<Data = D>> IntoRow<D, T> {
    /// The table whose cells are taken
    pub closed spec fn spec_table(&self) -> T {
        self.table
    }

    /// Creates a new iterator over the cells in a row for the given table
    /// at the specified row
    pub fn new(table: T, row: usize) -> (r: Self)
        ensures
            r.spec_table() == table,
            r.spec_row() == row,
            r.spec_col() == 0,
    {
        Self { table, row, col: 0 }
    }

    /// Returns the number of cells left before the end of the row, as both
    /// bounds; a row past the last row has none
    pub fn size_hint(&self) -> (r: (usize, Option<usize>))
        requires
            self.spec_col() <= self.spec_table().spec_col_cnt(),
        ensures
            r.0 == if self.spec_row() < self.spec_table().spec_row_cnt() {
                self.spec_table().spec_col_cnt() - self.spec_col()
            } else {
                0
            },
            r.1 == Some(r.0),
    {
        let remaining = if self.row < self.table.row_cnt() {
            self.table.col_cnt() - self.col
        } else {
            0
        };
        (remaining, Some(remaining))
    }
}

impl<D, T: Table<Data = D>> CellIter<D> for IntoRow<D, T> {
    closed spec fn spec_row(&self) -> int {
        self.row as int
    }

    closed spec fn spec_col(&self) -> int {
        self.col as int
    }

    open spec fn spec_can_advance(&self) -> bool {
        &&& fully_accessible(self.spec_table())
        &&& self.spec_table().spec_can_remove(self.spec_row(), self.spec_col())
    }

    /// Takes the cell at the current position out of the table; the column
    /// moves on only past a cell that was present
    open spec fn spec_advanced(pre: Self, post: Self, item: Option<D>) -> bool {
        &&& T::spec_removed(pre.spec_table(), pre.spec_row(), pre.spec_col(), post.spec_table(), item)
        &&& fully_accessible(post.spec_table())
        &&& post.spec_row() == pre.spec_row()
        &&& post.spec_col() == if item is Some {
            pre.spec_col() + 1
        } else {
            pre.spec_col()
        }
    }

    fn row(&self) -> (r: usize) {
        self.row
    }

    fn col(&self) -> (r: usize) {
        self.col
    }

    fn next(&mut self) -> (r: Option<D>) {
        let cell = self.table.remove_cell(self.row, self.col);
        if cell.is_some() {
            self.col = self.col + 1;
        }
        cell
    }
}

/// Represents an iterator over columns of a table
#[verifier::reject_recursive_types(D)]
#[derive(Debug)]
pub struct Columns<'a, D, T: Table<Data = D>> {
    table: &'a T,
    idx: usize,
}

impl<'a, D, T: Table<Data = D>> Columns<'a, D, T> {
    /// The table whose columns are iterated
    pub closed spec fn spec_table(&self) -> T {
        *self.table
    }

    /// The index of the next column returned
    pub closed spec fn spec_idx(&self) -> int {
        self.idx as int
    }

    /// `post` is `pre` after [`Columns::next`] returned `r`: an iterator
    /// over the next column, if any column is left, after which the index
    /// moves on
    pub open spec fn spec_stepped(pre: Self, post: Self, r: Option<Column<'a, D, T>>) -> bool {
        &&& post.spec_table() == pre.spec_table()
        &&& pre.spec_idx() < pre.spec_table().spec_col_cnt() ==> {
            &&& r is Some
            &&& r->Some_0.spec_table() == pre.spec_table()
            &&& r->Some_0.spec_row() == 0
            &&& r->Some_0.spec_col() == pre.spec_idx()
            &&& post.spec_idx() == pre.spec_idx() + 1
        }
        &&& pre.spec_idx() >= pre.spec_table().spec_col_cnt() ==> {
            &&& r is None
            &&& post.spec_idx() == pre.spec_idx()
        }
    }

    /// Walking the columns of a table from its first column: after `k` steps
    /// the index is `k`, or the column count once every column has been
    /// passed, so that the columns left (what [`Columns::size_hint`] reports)
    /// are the column count less `k`, or none; the `k`-th step returns an
    /// iterator over column `k` from its first row while columns are left and
    /// nothing after that
    pub proof fn lemma_walk(states: Seq<Self>, items: Seq<Option<Column<'a, D, T>>>)
        requires
            states.len() == items.len() + 1,
            states[0].spec_idx() == 0,
            forall|i: int| 0 <= i < items.len() ==> Self::spec_stepped(states[i], states[i + 1], #[trigger] items[i]),
        ensures
            forall|k: int|
                0 <= k < states.len() ==> {
                    &&& (#[trigger] states[k]).spec_table() == states[0].spec_table()
                    &&& states[k].spec_idx() == if k < states[0].spec_table().spec_col_cnt() {
                        k
                    } else {
                        states[0].spec_table().spec_col_cnt() as int
                    }
                    &&& states[0].spec_table().spec_col_cnt() - states[k].spec_idx() == if k
                        < states[0].spec_table().spec_col_cnt() {
                        states[0].spec_table().spec_col_cnt() - k
                    } else {
                        0
                    }
                },
            forall|k: int|
                0 <= k < items.len() ==> if k < states[0].spec_table().spec_col_cnt() {
                    &&& (#[trigger] items[k]) is Some
                    &&& items[k]->Some_0.spec_table() == states[0].spec_table()
                    &&& items[k]->Some_0.spec_row() == 0
                    &&& items[k]->Some_0.spec_col() == k
                } else {
                    items[k] is None
                },
        decreases states.len(),
    {
        if items.len() > 0 {
            let n = items.len() - 1;
            let fewer = states.take(n + 1);
            let fewer_items = items.take(n);
            assert forall|i: int| 0 <= i < fewer_items.len() implies Self::spec_stepped(
                fewer[i],
                fewer[i + 1],
                #[trigger] fewer_items[i],
            ) by {
                assert(Self::spec_stepped(states[i], states[i + 1], items[i]));
            }
            Self::lemma_walk(fewer, fewer_items);
            assert(fewer[n] == states[n]);
            assert(Self::spec_stepped(states[n], states[n + 1], items[n]));
            assert forall|k: int| 0 <= k < states.len() implies {
                &&& (#[trigger] states[k]).spec_table() == states[0].spec_table()
                &&& states[k].spec_idx() == if k < states[0].spec_table().spec_col_cnt() {
                    k
                } else {
                    states[0].spec_table().spec_col_cnt() as int
                }
            } by {
                if k <= n {
                    assert(fewer[k] == states[k]);
                }
            }
            assert forall|k: int| 0 <= k < items.len() implies if k < states[0].spec_table().spec_col_cnt() {
                &&& (#[trigger] items[k]) is Some
                &&& items[k]->Some_0.spec_table() == states[0].spec_table()
                &&& items[k]->Some_0.spec_row() == 0
                &&& items[k]->Some_0.spec_col() == k
            } else {
                items[k] is None
            } by {
                if k < n {
                    assert(fewer_items[k] == items[k]);
                }
            }
        }
    }

    /// Produces an iterator that will iterator through all columns from the
    /// beginning of the table
    pub fn new(table: &'a T) -> (r: Self)
        ensures
            r.spec_table() == *table,
            r.spec_idx() == 0,
    {
        Self { table, idx: 0 }
    }

    /// Produces an iterator that will return no columns
    pub fn empty(table: &'a T) -> (r: Self)
        ensures
            r.spec_table() == *table,
            r.spec_idx() == table.spec_col_cnt(),
    {
        Self { table, idx: table.col_cnt() }
    }

    /// Returns an iterator over the next column, if any column is left
    pub fn next(&mut self) -> (r: Option<Column<'a, D, T>>)
        ensures
            Self::spec_stepped(*old(self), *final(self), r),
    {
        if self.idx < self.table.col_cnt() {
            let col = Column::new(self.table, self.idx);
            self.idx = self.idx + 1;
            Some(col)
        } else {
            None
        }
    }

    /// Returns the number of columns left, as both bounds
    pub fn size_hint(&self) -> (r: (usize, Option<usize>))
        requires
            self.spec_idx() <= self.spec_table().spec_col_cnt(),
        ensures
            r.0 == self.spec_table().spec_col_cnt() - self.spec_idx(),
            r.1 == Some(r.0),
    {
        let remaining = self.table.col_cnt() - self.idx;
        (remaining, Some(remaining))
    }
}

/// Represents an iterator over cells within a column of a table
#[verifier::reject_recursive_types(D)]
#[derive(Debug)]
pub struct Column<'a, D, T: Table<Data = D>> {
    table: &'a T,
    row: usize,
    col: usize,
}

impl<'a, D, T: Table<Data = D>> Column<'a, D, T> {
    /// The table whose cells are iterated
    pub closed spec fn spec_table(&self) -> T {
        *self.table
    }

    /// Creates a new iterator over the cells in a column for the given table
    /// at the specified column
    pub fn new(table: &'a T, col: usize) -> (r: Self)
        ensures
            r.spec_table() == *table,
            r.spec_row() == 0,
            r.spec_col() == col,
    {
        Self { table, row: 0, col }
    }

    /// Returns the number of cells left before the end of the column, as
    /// both bounds; a column past the last column has none
    pub fn size_hint(&self) -> (r: (usize, Option<usize>))
        requires
            self.spec_row() <= self.spec_table().spec_row_cnt(),
        ensures
            r.0 == if self.spec_col() < self.spec_table().spec_col_cnt() {
                self.spec_table().spec_row_cnt() - self.spec_row()
            } else {
                0
            },
            r.1 == Some(r.0),
    {
        let remaining = if self.col < self.table.col_cnt() {
            self.table.row_cnt() - self.row
        } else {
            0
        };
        (remaining, Some(remaining))
    }
}

impl<'a, D, T: Table<Data = D>> CellIter<&'a D> for Column<'a, D, T> {
    closed spec fn spec_row(&self) -> int {
        self.row as int
    }

    closed spec fn spec_col(&self) -> int {
        self.col as int
    }

    open spec fn spec_can_advance(&self) -> bool {
        fully_accessible(self.spec_table())
    }

    /// Returns the cell at the current position; the row moves on only past
    /// a cell that is present
    open spec fn spec_advanced(pre: Self, post: Self, item: Option<&'a D>) -> bool {
        &&& post.spec_table() == pre.spec_table()
        &&& post.spec_col() == pre.spec_col()
        &&& same_cell(item, pre.spec_table().spec_cell(pre.spec_row(), pre.spec_col()))
        &&& post.spec_row() == if item is Some {
            pre.spec_row() + 1
        } else {
            pre.spec_row()
        }
    }

    fn row(&self) -> (r: usize) {
        self.row
    }

    fn col(&self) -> (r: usize) {
        self.col
    }

    fn next(&mut self) -> (r: Option<&'a D>) {
        let table: &'a T = self.table;
        let cell = table.get_cell(self.row, self.col);
        if cell.is_some() {
            proof {
                table.lemma_cell_position(self.row as int, self.col as int);
            }
            self.row = self.row + 1;
        }
        cell
    }
}

/// Represents an iterator over cells within a column of a table, taking the
/// cells out of the table it owns
#[verifier::reject_recursive_types(D)]
#[derive(Debug)]
pub struct IntoColumn<D, T: Table<Data = D>> {
    table: T,
    row: usize,
    col: usize,
}

impl<D, T: Table<Data = D>> IntoColumn<D, T> {
    /// The table whose cells are taken
    pub closed spec fn spec_table(&self) -> T {
        self.table
    }

    /// Creates a new iterator over the cells in a column for the given table
    /// at the specified column
    pub fn new(table: T, col: usize) -> (r: Self)
        ensures
            r.spec_table() == table,
            r.spec_row() == 0,
            r.spec_col() == col,
    {
        Self { table, row: 0, col }
    }

    /// Returns the number of cells left before the end of the column, as
    /// both bounds; a column past the last column has none
    pub fn size_hint(&self) -> (r: (usize, Option<usize>))
        requires
            self.spec_row() <= self.spec_table().spec_row_cnt(),
        ensures
            r.0 == if self.spec_col() < self.spec_table().spec_col_cnt() {
                self.spec_table().spec_row_cnt() - self.spec_row()
            } else {
                0
            },
            r.1 == Some(r.0),
    {
        let remaining = if self.col < self.table.col_cnt() {
            self.table.row_cnt() - self.row
        } else {
            0
        };
        (remaining, Some(remaining))
    }
}

impl<D, T: Table<Data = D>> CellIter<D> for IntoColumn<D, T> {
    closed spec fn spec_row(&self) -> int {
        self.row as int
    }

    closed spec fn spec_col(&self) -> int {
        self.col as int
    }

    open spec fn spec_can_advance(&self) -> bool {
        &&& fully_accessible(self.spec_table())
        &&& self.spec_table().spec_can_remove(self.spec_row(), self.spec_col())
    }

    /// Takes the cell at the current position out of the table; the row
    /// moves on only past a cell that was present
    open spec fn spec_advanced(pre: Self, post: Self, item: Option<D>) -> bool {
        &&& T::spec_removed(pre.spec_table(), pre.spec_row(), pre.spec_col(), post.spec_table(), item)
        &&& fully_accessible(post.spec_table())
        &&& post.spec_col() == pre.spec_col()
        &&& post.spec_row() == if item is Some {
            pre.spec_row() + 1
        } else {
            pre.spec_row()
        }
    }

    fn row(&self) -> (r: usize) {
        self.row
    }

    fn col(&self) -> (r: usize) {
        self.col
    }

    fn next(&mut self) -> (r: Option<D>) {
        let cell = self.table.remove_cell(self.row, self.col);
        if cell.is_some() {
            self.row = self.row + 1;
        }
        cell
    }
}

/// The position after `(row, col)` when walking a table of `row_cnt` rows
/// and `col_cnt` columns row by row; past the last cell the walk stays at
/// `(row_cnt, col_cnt)`
pub open spec fn next_position(row: int, col: int, row_cnt: int, col_cnt: int) -> (int, int) {
    if col + 1 < col_cnt {
        (row, col + 1)
    } else if row + 1 < row_cnt {
        (row + 1, 0)
    } else {
        (row_cnt, col_cnt)
    }
}

/// The position that a walk of a table of `row_cnt` rows and `col_cnt`
/// columns, row by row from its first cell, stands at after `k` steps: the
/// `k`-th cell in row-major order, or `(row_cnt, col_cnt)` once every cell
/// has been passed
pub open spec fn walk_position(k: int, row_cnt: int, col_cnt: int) -> (int, int) {
    if k < row_cnt * col_cnt {
        (k / col_cnt, k % col_cnt)
    } else {
        (row_cnt, col_cnt)
    }
}

/// One step of the walk moves from the `k`-th position to the `k + 1`-th
proof fn lemma_walk_step(k: int, row_cnt: int, col_cnt: int)
    requires
        0 <= k,
        row_cnt > 0,
        col_cnt > 0,
    ensures
        ({
            let p = walk_position(k, row_cnt, col_cnt);
            next_position(p.0, p.1, row_cnt, col_cnt) == walk_position(k + 1, row_cnt, col_cnt)
        }),
{
    let total = row_cnt * col_cnt;
    if k < total {
        let q = k / col_cnt;
        let m = k % col_cnt;
        vstd::arithmetic::div_mod::lemma_fundamental_div_mod(k, col_cnt);
        vstd::arithmetic::div_mod::lemma_mod_bound(k, col_cnt);
        assert(k == q * col_cnt + m) by (nonlinear_arith)
            requires
                k == col_cnt * (k / col_cnt) + k % col_cnt,
                q == k / col_cnt,
                m == k % col_cnt,
        ;
        if m + 1 < col_cnt {
            vstd::arithmetic::div_mod::lemma_fundamental_div_mod_converse(k + 1, col_cnt, q, m + 1);
            assert(k + 1 < total) by (nonlinear_arith)
                requires
                    k == q * col_cnt + m,
                    m + 1 < col_cnt,
                    k < total,
                    total == row_cnt * col_cnt,
                    0 <= m,
            {
                assert(q < row_cnt) by (nonlinear_arith)
                    requires
                        q * col_cnt + m < row_cnt * col_cnt,
                        0 <= m,
                        col_cnt > 0,
                ;
                assert((q + 1) * col_cnt <= row_cnt * col_cnt) by (nonlinear_arith)
                    requires
                        q + 1 <= row_cnt,
                        col_cnt > 0,
                ;
            }
        } else {
            assert(m == col_cnt - 1);
            assert(k + 1 == (q + 1) * col_cnt) by (nonlinear_arith)
                requires
                    k == q * col_cnt + m,
                    m == col_cnt - 1,
            ;
            vstd::arithmetic::div_mod::lemma_fundamental_div_mod_converse(k + 1, col_cnt, q + 1, 0);
            assert(q + 1 <= row_cnt) by (nonlinear_arith)
                requires
                    q * col_cnt + m < row_cnt * col_cnt,
                    0 <= m,
                    col_cnt > 0,
            ;
            if q + 1 < row_cnt {
                assert(k + 1 < total) by (nonlinear_arith)
                    requires
                        k + 1 == (q + 1) * col_cnt,
                        q + 1 < row_cnt,
                        col_cnt > 0,
                        total == row_cnt * col_cnt,
                ;
            } else {
                assert(k + 1 == total);
            }
        }
    } else {
        assert(k + 1 >= total);
    }
}

/// The cells before the `k`-th position of the walk, counted row by row,
/// are the `k` cells passed so far, or every cell and one more row once the
/// walk has passed them all
proof fn lemma_walk_consumed(k: int, row_cnt: int, col_cnt: int)
    requires
        0 <= k,
        row_cnt > 0,
        col_cnt > 0,
    ensures
        ({
            let p = walk_position(k, row_cnt, col_cnt);
            p.0 * col_cnt + p.1 == if k < row_cnt * col_cnt {
                k
            } else {
                row_cnt * col_cnt + col_cnt
            }
        }),
{
    if k < row_cnt * col_cnt {
        vstd::arithmetic::div_mod::lemma_fundamental_div_mod(k, col_cnt);
        assert((k / col_cnt) * col_cnt == col_cnt * (k / col_cnt)) by (nonlinear_arith);
    }
}

/// Walking the cells of a table that has at least one row and one column,
/// from its first cell: after `k` steps the walk stands at the `k`-th cell
/// in row-major order (and stays past the last cell once every cell has been
/// passed), so that the cells left (what [`Cells::size_hint`] reports) are
/// the table's cell count less `k`, or none; the `k`-th step returns the
/// cell there, and the table is left alone
pub proof fn lemma_cells_walk<'a, D, T: Table<Data = D>>(
    states: Seq<Cells<'a, D, T>>,
    items: Seq<Option<&'a D>>,
)
    requires
        states.len() == items.len() + 1,
        states[0].spec_row() == 0,
        states[0].spec_col() == 0,
        states[0].spec_table().spec_row_cnt() > 0,
        states[0].spec_table().spec_col_cnt() > 0,
        forall|i: int|
            0 <= i < items.len() ==> Cells::spec_advanced(states[i], states[i + 1], #[trigger] items[i]),
    ensures
        forall|k: int|
            0 <= k < states.len() ==> {
                let t = states[0].spec_table();
                &&& (#[trigger] states[k]).spec_table() == t
                &&& (states[k].spec_row(), states[k].spec_col()) == walk_position(
                    k,
                    t.spec_row_cnt() as int,
                    t.spec_col_cnt() as int,
                )
                &&& states[k].spec_row() * t.spec_col_cnt() + states[k].spec_col() == if k < t.spec_row_cnt()
                    * t.spec_col_cnt() {
                    k
                } else {
                    (t.spec_row_cnt() * t.spec_col_cnt() + t.spec_col_cnt()) as int
                }
            },
            forall|k: int|
                0 <= k < states.len() ==> {
                    let t = states[0].spec_table();
                    let total = t.spec_row_cnt() * t.spec_col_cnt();
                    let consumed = (#[trigger] states[k]).spec_row() * t.spec_col_cnt() + states[k].spec_col();
                    (if total > consumed {
                        total - consumed
                    } else {
                        0
                    }) == if k < total {
                        total - k
                    } else {
                        0
                    }
                },
        forall|k: int|
            0 <= k < items.len() ==> {
                let t = states[0].spec_table();
                let p = walk_position(k, t.spec_row_cnt() as int, t.spec_col_cnt() as int);
                same_cell(#[trigger] items[k], t.spec_cell(p.0, p.1))
            },
    decreases states.len(),
{
    let t = states[0].spec_table();
    let rc = t.spec_row_cnt() as int;
    let cc = t.spec_col_cnt() as int;
    if items.len() > 0 {
        let n = items.len() - 1;
        let fewer = states.take(n + 1);
        let fewer_items = items.take(n);
        assert forall|i: int| 0 <= i < fewer_items.len() implies Cells::spec_advanced(
            fewer[i],
            fewer[i + 1],
            #[trigger] fewer_items[i],
        ) by {
            assert(Cells::spec_advanced(states[i], states[i + 1], items[i]));
        }
        lemma_cells_walk(fewer, fewer_items);
        assert(fewer[n] == states[n]);
        lemma_walk_step(n, rc, cc);
        assert(Cells::spec_advanced(states[n], states[n + 1], items[n]));
        assert forall|k: int| 0 <= k < states.len() implies {
            &&& (#[trigger] states[k]).spec_table() == t
            &&& (states[k].spec_row(), states[k].spec_col()) == walk_position(k, rc, cc)
            &&& states[k].spec_row() * cc + states[k].spec_col() == if k < rc * cc {
                k
            } else {
                rc * cc + cc
            }
        } by {
            if k <= n {
                assert(fewer[k] == states[k]);
            }
            lemma_walk_consumed(k, rc, cc);
        }
        assert forall|k: int| 0 <= k < items.len() implies {
            let p = walk_position(k, rc, cc);
            same_cell(#[trigger] items[k], t.spec_cell(p.0, p.1))
        } by {
            if k < n {
                assert(fewer_items[k] == items[k]);
            } else {
                assert(Cells::spec_advanced(states[k], states[k + 1], items[k]));
            }
        }
    } else {
        lemma_walk_consumed(0, rc, cc);
        assert(walk_position(0, rc, cc) == (0int, 0int)) by {
            assert(0 < rc * cc) by (nonlinear_arith)
                requires
                    rc > 0,
                    cc > 0,
            ;
        }
    }
}

/// Walking the cells of any table from its first cell, the cells left after
/// `k` steps (what [`Cells::size_hint`] reports) are the table's cell count
/// less `k`, or none once `k` reaches it; a table without rows or columns
/// has none left from the start
pub proof fn lemma_cells_left<'a, D, T: Table<Data = D>>(
    states: Seq<Cells<'a, D, T>>,
    items: Seq<Option<&'a D>>,
)
    requires
        states.len() == items.len() + 1,
        states[0].spec_row() == 0,
        states[0].spec_col() == 0,
        forall|i: int|
            0 <= i < items.len() ==> Cells::spec_advanced(states[i], states[i + 1], #[trigger] items[i]),
    ensures
        forall|k: int|
            0 <= k < states.len() ==> {
                let t = states[0].spec_table();
                let total = t.spec_row_cnt() * t.spec_col_cnt();
                let consumed = (#[trigger] states[k]).spec_row() * t.spec_col_cnt() + states[k].spec_col();
                (if total > consumed {
                    total - consumed
                } else {
                    0
                }) == if k < total {
                    total - k
                } else {
                    0
                }
            },
{
    let t = states[0].spec_table();
    let rc = t.spec_row_cnt() as int;
    let cc = t.spec_col_cnt() as int;
    if rc > 0 && cc > 0 {
        lemma_cells_walk(states, items);
    } else {
        assert(rc * cc == 0) by (nonlinear_arith)
            requires
                rc == 0 || cc == 0,
        ;
        assert forall|k: int| 0 <= k < states.len() implies #[trigger] states[k].spec_row() * cc
            + states[k].spec_col() >= 0 by {
            let row = states[k].spec_row();
            assert(row >= 0 && states[k].spec_col() >= 0);
            assert(row * cc >= 0) by (nonlinear_arith)
                requires
                    row >= 0,
                    cc >= 0,
            ;
        }
    }
}

/// Represents an iterator over cells within a table
#[verifier::reject_recursive_types(D)]
#[derive(Debug)]
pub struct Cells<'a, D, T: Table<Data = D>> {
    table: &'a T,
    row: usize,
    col: usize,
}

impl<'a, D, T: Table<Data = D>> Cells<'a, D, T> {
    /// The table whose cells are iterated
    pub closed spec fn spec_table(&self) -> T {
        *self.table
    }

    /// Creates a new iterator over the cells of the given table, row by row
    pub fn new(table: &'a T) -> (r: Self)
        ensures
            r.spec_table() == *table,
            r.spec_row() == 0,
            r.spec_col() == 0,
    {
        Self { table, row: 0, col: 0 }
    }

    /// Returns the number of cells left to walk, as both bounds
    pub fn size_hint(&self) -> (r: (usize, Option<usize>))
        requires
            self.spec_row() * self.spec_table().spec_col_cnt() + self.spec_col() <= usize::MAX,
            self.spec_table().spec_row_cnt() * self.spec_table().spec_col_cnt() <= usize::MAX,
        ensures
            ({
                let consumed = self.spec_row() * self.spec_table().spec_col_cnt() + self.spec_col();
                let total = self.spec_table().spec_row_cnt() * self.spec_table().spec_col_cnt();
                r.0 == if total > consumed {
                    total - consumed
                } else {
                    0
                }
            }),
            r.1 == Some(r.0),
    {
        proof {
            vstd::arithmetic::mul::lemma_mul_upper_bound(
                self.row as int,
                self.row as int,
                self.table.spec_col_cnt() as int,
                self.table.spec_col_cnt() as int,
            );
        }
        let consumed = (self.row * self.table.col_cnt()) + self.col;
        let total = self.table.len();
        let remaining = if total > consumed {
            total - consumed
        } else {
            0
        };
        (remaining, Some(remaining))
    }
}

impl<'a, D, T: Table<Data = D>> CellIter<&'a D> for Cells<'a, D, T> {
    closed spec fn spec_row(&self) -> int {
        self.row as int
    }

    closed spec fn spec_col(&self) -> int {
        self.col as int
    }

    /// The next position can be counted without overflowing
    open spec fn spec_can_advance(&self) -> bool {
        &&& fully_accessible(self.spec_table())
        &&& self.spec_col() < usize::MAX
        &&& self.spec_col() + 1 >= self.spec_table().spec_col_cnt() ==> self.spec_row() < usize::MAX
    }

    /// Returns the cell at the current position and moves to the next
    /// position of the walk
    open spec fn spec_advanced(pre: Self, post: Self, item: Option<&'a D>) -> bool {
        &&& post.spec_table() == pre.spec_table()
        &&& same_cell(item, pre.spec_table().spec_cell(pre.spec_row(), pre.spec_col()))
        &&& (post.spec_row(), post.spec_col()) == next_position(
            pre.spec_row(),
            pre.spec_col(),
            pre.spec_table().spec_row_cnt() as int,
            pre.spec_table().spec_col_cnt() as int,
        )
    }

    fn row(&self) -> (r: usize) {
        self.row
    }

    fn col(&self) -> (r: usize) {
        self.col
    }

    fn next(&mut self) -> (r: Option<&'a D>) {
        let table: &'a T = self.table;
        let cell = table.get_cell(self.row, self.col);
        let col_cnt = table.col_cnt();
        let row_cnt = table.row_cnt();
        // If not yet reached end of row, advance column ptr
        if self.col + 1 < col_cnt {
            self.col = self.col + 1;
            // Else if not yet reached end of all rows, advance row ptr and
            // reset column ptr
        } else if self.row + 1 < row_cnt {
            self.row = self.row + 1;
            self.col = 0;
            // Otherwise, we have reached the end, so ensure we are done
        } else {
            self.row = row_cnt;
            self.col = col_cnt;
        }
        cell
    }
}

/// Represents an iterator over cells within a table, taking the cells out of
/// the table it owns
#[verifier::reject_recursive_types(D)]
#[derive(Debug)]
pub struct IntoCells<D, T: Table<Data = D>> {
    table: T,
    row: usize,
    col: usize,
}

impl<D, T: Table<Data = D>> IntoCells<D, T> {
    /// The table whose cells are taken
    pub closed spec fn spec_table(&self) -> T {
        self.table
    }

    /// Creates a new iterator over the cells of the given table, row by row
    pub fn new(table: T) -> (r: Self)
        ensures
            r.spec_table() == table,
            r.spec_row() == 0,
            r.spec_col() == 0,
    {
        Self { table, row: 0, col: 0 }
    }

    /// Returns the number of cells left to walk, as both bounds
    pub fn size_hint(&self) -> (r: (usize, Option<usize>))
        requires
            self.spec_row() * self.spec_table().spec_col_cnt() + self.spec_col() <= usize::MAX,
            self.spec_table().spec_row_cnt() * self.spec_table().spec_col_cnt() <= usize::MAX,
        ensures
            ({
                let consumed = self.spec_row() * self.spec_table().spec_col_cnt() + self.spec_col();
                let total = self.spec_table().spec_row_cnt() * self.spec_table().spec_col_cnt();
                r.0 == if total > consumed {
                    total - consumed
                } else {
                    0
                }
            }),
            r.1 == Some(r.0),
    {
        proof {
            vstd::arithmetic::mul::lemma_mul_upper_bound(
                self.row as int,
                self.row as int,
                self.table.spec_col_cnt() as int,
                self.table.spec_col_cnt() as int,
            );
        }
        let consumed = (self.row * self.table.col_cnt()) + self.col;
        let total = self.table.len();
        let remaining = if total > consumed {
            total - consumed
        } else {
            0
        };
        (remaining, Some(remaining))
    }
}

impl<D, T: Table<Data = D>> CellIter<D> for IntoCells<D, T> {
    closed spec fn spec_row(&self) -> int {
        self.row as int
    }

    closed spec fn spec_col(&self) -> int {
        self.col as int
    }

    /// The current position can be cleared and the next position counted
    /// without overflowing
    open spec fn spec_can_advance(&self) -> bool {
        &&& fully_accessible(self.spec_table())
        &&& self.spec_table().spec_can_remove(self.spec_row(), self.spec_col())
        &&& self.spec_col() < usize::MAX
        &&& self.spec_col() + 1 >= self.spec_table().spec_col_cnt() ==> self.spec_row() < usize::MAX
    }

    /// Takes the cell at the current position out of the table and moves to
    /// the next position of the walk over the table as it is after the
    /// removal
    open spec fn spec_advanced(pre: Self, post: Self, item: Option<D>) -> bool {
        &&& T::spec_removed(pre.spec_table(), pre.spec_row(), pre.spec_col(), post.spec_table(), item)
        &&& fully_accessible(post.spec_table())
        &&& (post.spec_row(), post.spec_col()) == next_position(
            pre.spec_row(),
            pre.spec_col(),
            post.spec_table().spec_row_cnt() as int,
            post.spec_table().spec_col_cnt() as int,
        )
    }

    fn row(&self) -> (r: usize) {
        self.row
    }

    fn col(&self) -> (r: usize) {
        self.col
    }

    fn next(&mut self) -> (r: Option<D>) {
        let cell = self.table.remove_cell(self.row, self.col);
        let col_cnt = self.table.col_cnt();
        let row_cnt = self.table.row_cnt();
        // If not yet reached end of row, advance column ptr
        if self.col + 1 < col_cnt {
            self.col = self.col + 1;
            // Else if not yet reached end of all rows, advance row ptr and
            // reset column ptr
        } else if self.row + 1 < row_cnt {
            self.row = self.row + 1;
            self.col = 0;
            // Otherwise, we have reached the end, so ensure we are done
        } else {
            self.row = row_cnt;
            self.col = col_cnt;
        }
        cell
    }
}

impl<'a, D, T: Table<Data = D>> From<&'a IntoRow<D, T>> for Row<'a, D, T> {
    /// Reads the cells of the row that `it` is taking, from where it stands
    fn from(it: &'a IntoRow<D, T>) -> (r: Self)
        ensures
            r.spec_table() == it.spec_table(),
            r.spec_row() == it.spec_row(),
            r.spec_col() == it.spec_col(),
    {
        Self { table: &it.table, row: it.row, col: it.col }
    }
}

impl<'a, D, T: Table<Data = D>> FromSpecImpl<&'a IntoRow<D, T>> for Row<'a, D, T> {
    open spec fn obeys_from_spec() -> bool {
        true
    }

    closed spec fn from_spec(it: &'a IntoRow<D, T>) -> Self {
        Row { table: &it.table, row: it.row, col: it.col }
    }
}

impl<'a, D, T: Table<Data = D>> From<&'a IntoColumn<D, T>> for Column<'a, D, T> {
    /// Reads the cells of the column that `it` is taking, from where it
    /// stands
    fn from(it: &'a IntoColumn<D, T>) -> (r: Self)
        ensures
            r.spec_table() == it.spec_table(),
            r.spec_row() == it.spec_row(),
            r.spec_col() == it.spec_col(),
    {
        Self { table: &it.table, row: it.row, col: it.col }
    }
}

impl<'a, D, T: Table<Data = D>> FromSpecImpl<&'a IntoColumn<D, T>> for Column<'a, D, T> {
    open spec fn obeys_from_spec() -> bool {
        true
    }

    closed spec fn from_spec(it: &'a IntoColumn<D, T>) -> Self {
        Column { table: &it.table, row: it.row, col: it.col }
    }
}

impl<'a, D, T: Table<Data = D>> From<&'a IntoCells<D, T>> for Cells<'a, D, T> {
    /// Reads the cells of the table that `it` is taking, from where it
    /// stands
    fn from(it: &'a IntoCells<D, T>) -> (r: Self)
        ensures
            r.spec_table() == it.spec_table(),
            r.spec_row() == it.spec_row(),
            r.spec_col() == it.spec_col(),
    {
        Self { table: &it.table, row: it.row, col: it.col }
    }
}

impl<'a, D, T: Table<Data = D>> FromSpecImpl<&'a IntoCells<D, T>> for Cells<'a, D, T> {
    open spec fn obeys_from_spec() -> bool {
        true
    }

    closed spec fn from_spec(it: &'a IntoCells<D, T>) -> Self {
        Cells { table: &it.table, row: it.row, col: it.col }
    }
}

} // verus!
