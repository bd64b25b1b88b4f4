use memtable_core::{FixedTable, Table};


#[test]
fn fixed_row_cnt_should_match_fixed_row_size() {
    let table: FixedTable<usize, 0, 0> = FixedTable::new();
    assert_eq!(table.row_cnt(), 0);

    let table: FixedTable<usize, 4, 0> = FixedTable::new();
    assert_eq!(table.row_cnt(), 4);
}

#[test]
fn col_cnt_should_match_fixed_col_size() {
    let table: FixedTable<usize, 0, 0> = FixedTable::new();
    assert_eq!(table.col_cnt(), 0);

    let table: FixedTable<usize, 0, 4> = FixedTable::new();
    assert_eq!(table.col_cnt(), 4);
}

#[test]
fn fixed_get_cell_should_return_ref_to_cell_at_location() {
    let table = FixedTable::from([["a", "b"], ["c", "d"]]);
    assert_eq!(table.get_cell(0, 0).as_deref(), Some(&"a"));
    assert_eq!(table.get_cell(0, 1).as_deref(), Some(&"b"));
    assert_eq!(table.get_cell(1, 0).as_deref(), Some(&"c"));
    assert_eq!(table.get_cell(1, 1).as_deref(), Some(&"d"));
    assert_eq!(table.get_cell(1, 2), None);
}

#[test]
fn fixed_get_mut_cell_should_return_mut_ref_to_cell_at_location() {
    let mut table = FixedTable::from([["a", "b"], ["c", "d"]]);
    *table.get_mut_cell(0, 0).unwrap() = "e";
    assert_eq!(table.get_cell(0, 0).as_deref(), Some(&"e"));
}

#[test]
fn fixed_insert_cell_should_return_previous_cell_and_overwrite_content() {
    let mut table: FixedTable<usize, 3, 3> = FixedTable::new();

    assert_eq!(table.insert_cell(0, 0, 123), Some(usize::default()));
    assert_eq!(table.insert_cell(0, 0, 999), Some(123));
    assert_eq!(table.get_cell(0, 0).as_deref(), Some(&999))
}

#[test]
fn fixed_remove_cell_should_return_cell_that_is_removed() {
    let mut table = FixedTable::from([[1, 2], [3, 4]]);

    // NOTE: Because fixed table uses a default value when removing,
    //       we should see the default value of a number (0) be injected
    assert_eq!(table.remove_cell(0, 0), Some(1));
    assert_eq!(table.remove_cell(0, 0), Some(0));
}

#[test]
fn fixed_index_by_row_and_column_should_return_cell_ref() {
    let table = FixedTable::from([[1, 2, 3]]);
    assert_eq!(*table.index((0, 1)), 2);
}

#[test]
#[should_panic]
fn fixed_index_by_row_and_column_should_panic_if_cell_not_found() {
    let table = FixedTable::from([[1, 2, 3]]);
    let _ = table.index((1, 0));
}

#[test]
fn fixed_index_mut_by_row_and_column_should_return_mutable_cell() {
    let mut table = FixedTable::from([[1, 2, 3]]);
    *table.index_mut((0, 1)) = 999;

    // Verify on the altered cell was changed
    assert_eq!(*table.index((0, 0)), 1);
    assert_eq!(*table.index((0, 1)), 999);
    assert_eq!(*table.index((0, 2)), 3);
}

#[test]
#[should_panic]
fn fixed_index_mut_by_row_and_column_should_panic_if_cell_not_found() {
    let mut table = FixedTable::from([[1, 2, 3]]);
    *table.index_mut((1, 0)) = 999;
}
