use memtable_core::{
    DynamicTable, FixedColumnMemTable, FixedColumnTable, FixedTable, MemFixedRowTable, Table, TableOps,
};

fn row_of<T: Table>(table: &T, row: usize) -> Vec<Option<T::Data>>
where
    T::Data: Clone,
{
    let mut out = Vec::new();
    for col in 0..table.col_cnt() {
        out.push(table.get_cell(row, col).cloned());
    }
    out
}

#[test]
fn insert_column_moves_the_last_column_into_a_spare_column() {
    let mut table: FixedColumnTable<u64, 4> = FixedColumnTable::from(vec![[1, 2, 3, 0]]);
    table.set_column_capacity(3);
    assert_eq!(table.col_cnt(), 3);

    table.insert_column(1, vec![9]);
    assert_eq!(table.row_cnt(), 1);
    assert_eq!(table.col_cnt(), 4);
    assert_eq!(row_of(&table, 0), vec![Some(1), Some(9), Some(2), Some(3)]);
}

#[test]
fn insert_column_on_several_rows_widens_up_to_the_column_limit() {
    let mut table: FixedColumnTable<u64, 4> =
        FixedColumnTable::from(vec![[1, 2, 3, 0], [4, 5, 6, 0]]);
    table.set_column_capacity(3);

    table.insert_column(0, vec![7, 8]);
    assert_eq!(table.row_cnt(), 2);
    assert_eq!(table.col_cnt(), 4);
    assert_eq!(row_of(&table, 0), vec![Some(7), Some(1), Some(2), Some(3)]);
    assert_eq!(row_of(&table, 1), vec![Some(8), Some(4), Some(5), Some(6)]);
}

#[test]
fn insert_column_on_a_table_without_a_spare_column_drops_the_last_column() {
    let mut table: FixedColumnTable<u64, 3> = FixedColumnTable::from(vec![[1, 2, 3]]);
    table.insert_column(0, vec![9]);
    assert_eq!(table.col_cnt(), 3);
    assert_eq!(row_of(&table, 0), vec![Some(9), Some(1), Some(2)]);
}

#[test]
fn insert_column_on_growing_rows_gains_a_column_per_row() {
    let mut table: MemFixedRowTable<u64, 2> = MemFixedRowTable::from([vec![1, 2], vec![3, 4]]);
    table.insert_column(0, vec![9, 8]);
    assert_eq!(table.row_cnt(), 2);
    assert_eq!(table.col_cnt(), 4);
    assert_eq!(table.get_cell(0, 0), Some(&9));
    assert_eq!(table.get_cell(1, 0), Some(&8));
    assert_eq!(table.get_cell(0, 1), Some(&1));
    assert_eq!(table.get_cell(0, 2), Some(&2));
    assert_eq!(table.get_cell(1, 1), Some(&3));
    assert_eq!(table.get_cell(1, 2), Some(&4));
}

#[test]
fn push_column_into_a_spare_column_widens_the_table() {
    let mut table: FixedColumnTable<u64, 3> = FixedColumnTable::from(vec![[1, 2, 0], [3, 4, 0]]);
    table.set_column_capacity(2);

    table.push_column(vec![5, 6, 7]);
    assert_eq!(table.col_cnt(), 3);
    assert_eq!(table.row_cnt(), 3);
    assert_eq!(row_of(&table, 0), vec![Some(1), Some(2), Some(5)]);
    assert_eq!(row_of(&table, 1), vec![Some(3), Some(4), Some(6)]);
    assert_eq!(table.get_cell(2, 2), Some(&7));
}

#[test]
fn push_row_longer_than_the_table_widens_it_up_to_the_column_limit() {
    let mut table: FixedColumnTable<u64, 4> = FixedColumnTable::from(vec![[1, 2, 0, 0]]);
    table.set_column_capacity(2);

    table.push_row(vec![5, 6, 7, 8, 9]);
    assert_eq!(table.row_cnt(), 2);
    assert_eq!(table.col_cnt(), 4);
    assert_eq!(row_of(&table, 1), vec![Some(5), Some(6), Some(7), Some(8)]);
    assert_eq!(table.get_cell(0, 0), Some(&1));
    assert_eq!(table.get_cell(0, 1), Some(&2));
}

#[test]
fn insert_row_longer_than_the_table_widens_it() {
    let mut table: FixedColumnTable<u64, 3> = FixedColumnTable::from(vec![[1, 0, 0], [2, 0, 0]]);
    table.set_column_capacity(1);

    table.insert_row(0, vec![7, 8, 9]);
    assert_eq!(table.row_cnt(), 3);
    assert_eq!(table.col_cnt(), 3);
    assert_eq!(row_of(&table, 0), vec![Some(7), Some(8), Some(9)]);
    assert_eq!(table.get_cell(1, 0), Some(&1));
    assert_eq!(table.get_cell(2, 0), Some(&2));
}

#[test]
fn eq_array_sees_a_cell_just_past_the_last_column() {
    let mut table = DynamicTable::from_array([[1, 2]]);
    table.set_column_capacity(1);
    assert!(!table.eq_array(&[[1]]));

    let table = DynamicTable::from_array([[1]]);
    assert!(table.eq_array(&[[1]]));
}

#[test]
fn truncate_keeps_rows_that_were_never_stored() {
    let mut table: FixedColumnTable<u8, 2> = FixedColumnTable::from(vec![[1, 2]]);
    table.set_row_capacity(3);
    table.set_column_capacity(1);
    table.truncate();
    assert_eq!(table.row_cnt(), 3);
    assert_eq!(table.col_cnt(), 1);
    assert_eq!(table.get_cell(0, 0), Some(&1));
    assert_eq!(table.get_cell(2, 0), None);

    table.set_column_capacity(2);
    assert_eq!(table.get_cell(0, 1), Some(&0));
}

#[test]
fn remove_row_on_a_table_with_fixed_rows_leaves_defaults_in_the_last_row() {
    let mut table: MemFixedRowTable<u8, 2> = MemFixedRowTable::from([vec![1, 2], vec![3, 4]]);
    table.remove_row(0);
    assert_eq!(table.row_cnt(), 2);
    assert_eq!(row_of(&table, 0), vec![Some(3), Some(4)]);
    assert_eq!(row_of(&table, 1), vec![Some(0), Some(0)]);

    let mut table = FixedTable::from([[1, 2], [3, 4]]);
    table.pop_row();
    assert_eq!(table.row_cnt(), 2);
    assert_eq!(row_of(&table, 0), vec![Some(1), Some(2)]);
    assert_eq!(row_of(&table, 1), vec![Some(0), Some(0)]);
}

#[test]
fn remove_column_on_a_table_with_fixed_columns_leaves_defaults_in_the_last_column() {
    let mut table: FixedColumnMemTable<u8, 2> = FixedColumnMemTable::from(vec![[1, 2], [3, 4]]);
    table.remove_column(0);
    assert_eq!(table.col_cnt(), 2);
    assert_eq!(row_of(&table, 0), vec![Some(2), Some(0)]);
    assert_eq!(row_of(&table, 1), vec![Some(4), Some(0)]);
}

#[test]
fn insert_row_shorter_than_the_table_leaves_cleared_cells_after_it() {
    let mut table = FixedTable::from([[1, 2], [3, 4], [0, 0]]);
    table.insert_row(0, vec![7]);
    assert_eq!(row_of(&table, 0), vec![Some(7), Some(0)]);
    assert_eq!(row_of(&table, 1), vec![Some(1), Some(2)]);
    assert_eq!(row_of(&table, 2), vec![Some(3), Some(4)]);

    let mut table = DynamicTable::from_array([[1, 2], [3, 4]]);
    table.insert_row(0, vec![7]);
    assert_eq!(row_of(&table, 0), vec![Some(7), None]);
    assert_eq!(row_of(&table, 2), vec![Some(3), Some(4)]);
}

#[test]
fn insert_column_shorter_than_the_table_leaves_cleared_cells_below_it() {
    let mut table = FixedTable::from([[1, 2], [3, 4]]);
    table.insert_column(0, vec![9]);
    assert_eq!(row_of(&table, 0), vec![Some(9), Some(1)]);
    assert_eq!(row_of(&table, 1), vec![Some(0), Some(3)]);
}

#[test]
fn push_row_into_an_empty_table_sets_both_counts() {
    let mut table: FixedColumnTable<u8, 3> = FixedColumnTable::new();
    table.push_row(vec![1, 2]);
    assert_eq!(table.row_cnt(), 1);
    assert_eq!(table.col_cnt(), 2);
    assert_eq!(row_of(&table, 0), vec![Some(1), Some(2)]);

    table.push_row(vec![3, 4, 5, 6]);
    assert_eq!(table.row_cnt(), 2);
    assert_eq!(table.col_cnt(), 3);
    assert_eq!(row_of(&table, 1), vec![Some(3), Some(4), Some(5)]);
}

#[test]
fn push_column_into_an_empty_table_sets_both_counts() {
    let mut table: FixedColumnTable<u8, 3> = FixedColumnTable::new();
    table.push_column(vec![1, 2]);
    assert_eq!(table.row_cnt(), 2);
    assert_eq!(table.col_cnt(), 1);
    assert_eq!(table.get_cell(0, 0), Some(&1));
    assert_eq!(table.get_cell(1, 0), Some(&2));
}
