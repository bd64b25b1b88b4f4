use memtable_core::iter::CellIter;
use memtable_core::list::DynamicList;
use memtable_core::{DynamicTable, Table, TableOps};

fn two_rows() -> DynamicTable<usize> {
    let mut table = DynamicTable::<usize>::new();
    table.push_row(vec![1, 2, 3]);
    table.push_row(vec![4, 5, 6]);
    table
}

fn two_columns() -> DynamicTable<usize> {
    let mut table = DynamicTable::<usize>::new();
    table.push_column(vec![1, 2, 3]);
    table.push_column(vec![4, 5, 6]);
    table
}

/// The items of a cell iterator up to its first `None`, copied out of their
/// references
fn copied<'a, I: CellIter<&'a usize>>(mut it: I) -> Vec<usize> {
    let mut out = Vec::new();
    while let Some(x) = it.next() {
        out.push(*x);
    }
    out
}

#[test]
fn row_cnt_counts_pushed_rows() {
    assert_eq!(DynamicTable::<usize>::new().row_cnt(), 0);
    assert_eq!(two_rows().row_cnt(), 2);
}

#[test]
fn col_cnt_counts_pushed_columns() {
    assert_eq!(DynamicTable::<usize>::new().col_cnt(), 0);
    assert_eq!(two_columns().col_cnt(), 2);
}

#[test]
fn get_cell_finds_only_existing_cells() {
    let mut table = DynamicTable::new();
    table.push_row(vec![1, 2, 3]);
    assert!(table.get_cell(0, 3).is_none());
    assert_eq!(table.get_cell(0, 2), Some(&3));
}

#[test]
fn get_mut_cell_writes_through() {
    let mut table = DynamicTable::new();
    table.push_row(vec![1, 2, 3]);
    assert!(table.get_mut_cell(0, 3).is_none());
    *table.get_mut_cell(0, 2).unwrap() = 999;
    assert_eq!(table.get_cell(0, 2), Some(&999));
}

#[test]
fn insert_cell_returns_what_was_there() {
    let mut table = DynamicTable::new();
    table.push_row(vec![1, 2, 3]);
    assert!(table.insert_cell(0, 3, 999).is_none());
    assert_eq!(table.get_cell(0, 3), Some(&999));

    let mut table = DynamicTable::new();
    table.push_row(vec![1, 2, 3]);
    assert_eq!(table.insert_cell(0, 2, 999), Some(3));
    assert_eq!(table.get_cell(0, 2), Some(&999));
}

#[test]
fn remove_cell_returns_the_cell_once() {
    let mut table = DynamicTable::new();
    table.push_row(vec![1, 2, 3]);
    assert_eq!(table.remove_cell(0, 0), Some(1));
    assert!(table.remove_cell(0, 0).is_none());
}

#[test]
fn len_and_is_empty_count_rows_times_columns() {
    let table = DynamicTable::<usize>::new();
    assert_eq!(table.len(), 0);
    assert!(table.is_empty());
    let table = two_rows();
    assert_eq!(table.len(), 6);
    assert!(!table.is_empty());
}

#[test]
fn rows_walk_each_row_in_turn() {
    let empty = DynamicTable::<usize>::new();
    assert_eq!(empty.rows().size_hint().0, 0);

    let table = two_rows();
    let mut rows = table.rows();
    assert_eq!(copied(rows.next().unwrap()), vec![1, 2, 3]);
    assert_eq!(copied(rows.next().unwrap()), vec![4, 5, 6]);
    assert!(rows.next().is_none());
}

#[test]
fn row_walks_one_row() {
    let empty = DynamicTable::<usize>::new();
    assert_eq!(empty.row(0).size_hint().0, 0);

    let table = two_rows();
    let mut cells = table.row(0);
    assert_eq!(cells.next().copied(), Some(1));
    assert_eq!(cells.next().copied(), Some(2));
    assert_eq!(cells.next().copied(), Some(3));
    assert_eq!(cells.next(), None);
}

#[test]
fn into_row_takes_one_row() {
    assert_eq!(DynamicTable::<usize>::new().into_row(0).size_hint().0, 0);

    let mut cells = two_rows().into_row(0);
    assert_eq!(cells.next(), Some(1));
    assert_eq!(cells.next(), Some(2));
    assert_eq!(cells.next(), Some(3));
    assert_eq!(cells.next(), None);
}

#[test]
fn columns_walk_each_column_in_turn() {
    let empty = DynamicTable::<usize>::new();
    assert_eq!(empty.columns().size_hint().0, 0);

    let table = two_columns();
    let mut columns = table.columns();
    assert_eq!(copied(columns.next().unwrap()), vec![1, 2, 3]);
    assert_eq!(copied(columns.next().unwrap()), vec![4, 5, 6]);
    assert!(columns.next().is_none());
}

#[test]
fn column_walks_one_column() {
    let empty = DynamicTable::<usize>::new();
    assert_eq!(empty.column(0).size_hint().0, 0);

    let table = two_columns();
    let mut cells = table.column(0);
    assert_eq!(cells.next().copied(), Some(1));
    assert_eq!(cells.next().copied(), Some(2));
    assert_eq!(cells.next().copied(), Some(3));
    assert_eq!(cells.next(), None);
}

#[test]
fn into_column_takes_one_column() {
    assert_eq!(DynamicTable::<usize>::new().into_column(0).size_hint().0, 0);

    let mut cells = two_columns().into_column(0);
    assert_eq!(cells.next(), Some(1));
    assert_eq!(cells.next(), Some(2));
    assert_eq!(cells.next(), Some(3));
    assert_eq!(cells.next(), None);
}

#[test]
fn cells_walk_row_by_row() {
    let empty = DynamicTable::<usize>::new();
    assert_eq!(empty.cells().size_hint().0, 0);

    let table = two_rows();
    let mut cells = table.cells();
    assert_eq!(cells.next(), Some(&1));
    assert_eq!(cells.next(), Some(&2));
    assert_eq!(cells.next(), Some(&3));
    assert_eq!(cells.next(), Some(&4));
    assert_eq!(cells.next(), Some(&5));
    assert_eq!(cells.next(), Some(&6));
    assert_eq!(cells.next(), None);
}

#[test]
fn into_cells_take_row_by_row() {
    assert_eq!(DynamicTable::<usize>::new().into_cells().size_hint().0, 0);

    let mut cells = two_rows().into_cells();
    assert_eq!(cells.next(), Some(1));
    assert_eq!(cells.next(), Some(2));
    assert_eq!(cells.next(), Some(3));
    assert_eq!(cells.next(), Some(4));
    assert_eq!(cells.next(), Some(5));
    assert_eq!(cells.next(), Some(6));
    assert_eq!(cells.next(), None);
}

#[test]
fn has_cell_reports_existing_cells() {
    let mut table = DynamicTable::new();
    table.push_row(vec![1, 2, 3]);
    assert!(!table.has_cell(0, 3));
    assert!(table.has_cell(0, 2));
}

#[test]
fn insert_row_shifts_later_rows_down() {
    let mut table = two_rows();
    table.insert_row(0, vec![7, 8, 9]);
    assert_eq!(copied(table.row(0)), vec![7, 8, 9]);
    assert_eq!(copied(table.row(1)), vec![1, 2, 3]);
    assert_eq!(copied(table.row(2)), vec![4, 5, 6]);
}

#[test]
fn push_row_appends_rows() {
    let table = two_rows();
    assert_eq!(copied(table.row(0)), vec![1, 2, 3]);
    assert_eq!(copied(table.row(1)), vec![4, 5, 6]);
}

#[test]
fn remove_row_from_the_front_and_the_back() {
    let mut table = two_rows();
    assert_eq!(table.remove_row(0), Some(DynamicList::from(vec![1, 2, 3])));
    assert_eq!(table.remove_row(0), Some(DynamicList::from(vec![4, 5, 6])));
    assert_eq!(table.remove_row(0), None);

    let mut table = two_rows();
    assert_eq!(table.remove_row(1), Some(DynamicList::from(vec![4, 5, 6])));
    assert_eq!(table.remove_row(1), None);
    assert_eq!(table.remove_row(0), Some(DynamicList::from(vec![1, 2, 3])));
    assert_eq!(table.remove_row(0), None);
}

#[test]
fn pop_row_takes_rows_from_the_end() {
    let mut table = two_rows();
    assert_eq!(table.pop_row(), Some(DynamicList::from(vec![4, 5, 6])));
    assert_eq!(table.pop_row(), Some(DynamicList::from(vec![1, 2, 3])));
    assert_eq!(table.pop_row(), None);
}

#[test]
fn insert_column_shifts_later_columns_right() {
    let mut table = two_columns();
    table.insert_column(0, vec![7, 8, 9]);
    assert_eq!(copied(table.column(0)), vec![7, 8, 9]);
    assert_eq!(copied(table.column(1)), vec![1, 2, 3]);
    assert_eq!(copied(table.column(2)), vec![4, 5, 6]);
}

#[test]
fn push_column_appends_columns() {
    let table = two_columns();
    assert_eq!(copied(table.column(0)), vec![1, 2, 3]);
    assert_eq!(copied(table.column(1)), vec![4, 5, 6]);
}

#[test]
fn remove_column_from_the_front_and_the_back() {
    let mut table = two_columns();
    assert_eq!(table.remove_column(0), Some(DynamicList::from(vec![1, 2, 3])));
    assert_eq!(table.remove_column(0), Some(DynamicList::from(vec![4, 5, 6])));
    assert_eq!(table.remove_column(0), None);

    let mut table = two_columns();
    assert_eq!(table.remove_column(1), Some(DynamicList::from(vec![4, 5, 6])));
    assert_eq!(table.remove_column(1), None);
    assert_eq!(table.remove_column(0), Some(DynamicList::from(vec![1, 2, 3])));
    assert_eq!(table.remove_column(0), None);
}

#[test]
fn pop_column_takes_columns_from_the_end() {
    let mut table = two_columns();
    assert_eq!(table.pop_column(), Some(DynamicList::from(vec![4, 5, 6])));
    assert_eq!(table.pop_column(), Some(DynamicList::from(vec![1, 2, 3])));
    assert_eq!(table.pop_column(), None);
}
