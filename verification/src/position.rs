use core::cmp::Ordering;
use vstd::prelude::*;
use vstd::std_specs::cmp::PartialOrdSpecImpl;

verus! {

/// Represents the position of a cell in a table
#[derive(Copy, Clone, Debug, PartialEq, Eq, Structural, Hash, Ord)]
pub struct Position {
    /// Represents the row number of a cell starting from 0
    pub row: usize,
    /// Represents the coumn number of a cell starting from 0
    pub col: usize,
}

impl Position {
    /// Creates a new position with the given row and column
    pub fn new(row: usize, col: usize) -> (r: Self)
        ensures
            r.row == row,
            r.col == col,
    {
        Self { row, col }
    }

    /// Orders positions row-first: by row, and by column within a row
    pub open spec fn order(&self, other: &Self) -> Ordering {
        if self.row < other.row {
            Ordering::Less
        } else if self.row > other.row {
            Ordering::Greater
        } else if self.col < other.col {
            Ordering::Less
        } else if self.col > other.col {
            Ordering::Greater
        } else {
            Ordering::Equal
        }
    }
}

impl PartialOrd for Position {
    /// Compares positions in terms of order by seeing if one comes before/after
    /// another in rows. If on the same row, then the columns are compared.
    fn partial_cmp(&self, other: &Self) -> (r: Option<Ordering>) {
        if self.row < other.row {
            Some(Ordering::Less)
        } else if self.row > other.row {
            Some(Ordering::Greater)
        } else if self.col < other.col {
            Some(Ordering::Less)
        } else if self.col > other.col {
            Some(Ordering::Greater)
        } else {
            Some(Ordering::Equal)
        }
    }
}

impl PartialOrdSpecImpl for Position {
    open spec fn obeys_partial_cmp_spec() -> bool {
        true
    }

    open spec fn partial_cmp_spec(&self, other: &Self) -> Option<Ordering> {
        Some(self.order(other))
    }
}

/// The row-first order of positions is a total order: it is antisymmetric,
/// transitive and total, and it calls two positions equal exactly when both
/// their rows and their columns are equal.
pub proof fn lemma_position_order_total(a: Position, b: Position, c: Position)
    ensures
        (a.order(&b) == Ordering::Equal) <==> a == b,
        a.order(&b) == Ordering::Less <==> b.order(&a) == Ordering::Greater,
        a.order(&b) == Ordering::Less && b.order(&c) == Ordering::Less ==> a.order(&c)
            == Ordering::Less,
        a.order(&b) == Ordering::Less <==> (a.row < b.row || (a.row == b.row && a.col < b.col)),
{
}

/// The cell that a list of positioned values leaves at `(row, col)` when
/// its entries are placed in order: the value of the last entry at that
/// position
pub open spec fn last_cell_at<T>(cells: Seq<(Position, T)>, row: int, col: int) -> Option<T>
    decreases cells.len(),
{
    if cells.len() == 0 {
        None
    } else if cells.last().0.row == row && cells.last().0.col == col {
        Some(cells.last().1)
    } else {
        last_cell_at(cells.drop_last(), row, col)
    }
}

/// `cell` is what placing `cells` in order over cells produced by
/// `T::default()` leaves at `(row, col)`: the value of the last entry at that
/// position, or a value produced by `T::default()` if there is none
pub open spec fn placed_or_default<T: Default>(cells: Seq<(Position, T)>, row: int, col: int, cell: T) -> bool {
    match last_cell_at(cells, row, col) {
        Some(v) => cell == v,
        None => call_ensures(T::default, (), cell),
    }
}

/// The least row count that holds every entry of `cells` whose column is
/// below `width`
pub open spec fn rows_needed<T>(cells: Seq<(Position, T)>, width: int) -> int
    decreases cells.len(),
{
    if cells.len() == 0 {
        0
    } else {
        let rest = rows_needed(cells.drop_last(), width);
        let pos = cells.last().0;
        if pos.col < width && pos.row + 1 > rest {
            pos.row + 1
        } else {
            rest
        }
    }
}

/// The least column count that holds every entry of `cells` whose column is
/// below `width`
pub open spec fn cols_needed<T>(cells: Seq<(Position, T)>, width: int) -> int
    decreases cells.len(),
{
    if cells.len() == 0 {
        0
    } else {
        let rest = cols_needed(cells.drop_last(), width);
        let pos = cells.last().0;
        if pos.col < width && pos.col + 1 > rest {
            pos.col + 1
        } else {
            rest
        }
    }
}

/// An entry placed at a column below `width` lies within the row and column
/// counts that hold such entries
pub proof fn lemma_placed_within_needed<T>(cells: Seq<(Position, T)>, width: int, row: int, col: int)
    requires
        last_cell_at(cells, row, col) is Some,
        col < width,
    ensures
        row < rows_needed(cells, width),
        col < cols_needed(cells, width),
    decreases cells.len(),
{
    if cells.last().0.row != row || cells.last().0.col != col {
        lemma_placed_within_needed(cells.drop_last(), width, row, col);
    }
}

} // verus!
