use memtable_core::{DynamicTable, Table, TableOps};

/// A table without cells whose counts are the given ones: the row and
/// column capacities it is asked for become its counts, so what it was last
/// asked for can be read back from them
fn dummy_table(row_cnt: usize, col_cnt: usize) -> DynamicTable<()> {
    let mut table = DynamicTable::new();
    table.set_row_capacity(row_cnt);
    table.set_column_capacity(col_cnt);
    table
}

#[test]
fn remove_row_should_set_new_row_capacity_if_valid_row_removed() {
    let mut table = dummy_table(2, 0);
    assert_eq!(table.row_cnt(), 2);

    // Remove out of range, so should not call
    assert!(table.remove_row(2).is_none());
    assert_eq!(table.row_cnt(), 2);

    // Remove in range, so should call
    assert!(table.remove_row(1).is_some());
    assert_eq!(table.row_cnt(), 1);
}

#[test]
fn remove_column_should_set_new_column_capacity_if_valid_column_removed() {
    let mut table = dummy_table(0, 2);
    assert_eq!(table.col_cnt(), 2);

    // Remove out of range, so should not call
    assert!(table.remove_column(2).is_none());
    assert_eq!(table.col_cnt(), 2);

    // Remove in range, so should call
    assert!(table.remove_column(1).is_some());
    assert_eq!(table.col_cnt(), 1);
}
