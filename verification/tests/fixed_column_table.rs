use memtable_core::{FixedColumnTable, Table, TableOps};

#[test]
fn new_should_create_an_empty_table() {
    let table: FixedColumnTable<usize, 3> = FixedColumnTable::new();
    assert_eq!(table.row_cnt(), 0);
    assert_eq!(table.col_cnt(), 0);
}

#[test]
fn row_cnt_should_be_adjustable() {
    let mut table: FixedColumnTable<usize, 0> = FixedColumnTable::new();
    assert_eq!(table.row_cnt(), 0);
    table.set_row_capacity(999);
    assert_eq!(table.row_cnt(), 999);

    let mut table: FixedColumnTable<usize, 4> = FixedColumnTable::new();
    assert_eq!(table.row_cnt(), 0);
    table.set_row_capacity(999);
    assert_eq!(table.row_cnt(), 999);
}

#[test]
fn col_cnt_should_be_adjustable_up_to_const_max() {
    let mut table: FixedColumnTable<usize, 0> = FixedColumnTable::new();
    assert_eq!(table.col_cnt(), 0);
    table.set_column_capacity(1);
    assert_eq!(table.col_cnt(), 0);

    let mut table: FixedColumnTable<usize, 4> = FixedColumnTable::new();
    assert_eq!(table.col_cnt(), 0);
    table.set_column_capacity(5);
    assert_eq!(table.col_cnt(), 4);
}

#[test]
fn col_get_cell_should_return_ref_to_cell_at_location() {
    // Sets capacity to that of the 2D array provided
    let table = FixedColumnTable::from(vec![["a", "b"], ["c", "d"]]);
    assert_eq!(table.get_cell(0, 0).as_deref(), Some(&"a"));
    assert_eq!(table.get_cell(0, 1).as_deref(), Some(&"b"));
    assert_eq!(table.get_cell(1, 0).as_deref(), Some(&"c"));
    assert_eq!(table.get_cell(1, 1).as_deref(), Some(&"d"));
    assert_eq!(table.get_cell(1, 2), None);
}

#[test]
fn get_cell_should_respect_virtual_boundaries() {
    // Sets capacity to that of the 2D array provided
    let mut table = FixedColumnTable::from(vec![["a", "b"], ["c", "d"]]);
    assert_eq!(table.row_cnt(), 2);
    assert_eq!(table.col_cnt(), 2);

    // If we change the capacity to be smaller, get_cell should respect that
    table.set_row_capacity(1);
    table.set_column_capacity(1);
    assert_eq!(table.get_cell(0, 0).as_deref(), Some(&"a"));
    assert_eq!(table.get_cell(0, 1).as_deref(), None);
    assert_eq!(table.get_cell(1, 0).as_deref(), None);
    assert_eq!(table.get_cell(1, 1).as_deref(), None);

    // Capacity changes don't actually overwrite anything
    table.set_row_capacity(2);
    table.set_column_capacity(2);
    assert_eq!(table.get_cell(0, 0).as_deref(), Some(&"a"));
    assert_eq!(table.get_cell(0, 1).as_deref(), Some(&"b"));
    assert_eq!(table.get_cell(1, 0).as_deref(), Some(&"c"));
    assert_eq!(table.get_cell(1, 1).as_deref(), Some(&"d"));
}

#[test]
fn col_get_mut_cell_should_return_mut_ref_to_cell_at_location() {
    let mut table = FixedColumnTable::from(vec![["a", "b"], ["c", "d"]]);
    *table.get_mut_cell(0, 0).unwrap() = "e";
    *table.get_mut_cell(0, 1).unwrap() = "f";
    *table.get_mut_cell(1, 0).unwrap() = "g";
    *table.get_mut_cell(1, 1).unwrap() = "h";
    assert_eq!(table.get_mut_cell(2, 0), None);

    assert_eq!(table.get_cell(0, 0).as_deref(), Some(&"e"));
    assert_eq!(table.get_cell(0, 1).as_deref(), Some(&"f"));
    assert_eq!(table.get_cell(1, 0).as_deref(), Some(&"g"));
    assert_eq!(table.get_cell(1, 1).as_deref(), Some(&"h"));
}

#[test]
fn get_mut_cell_should_respect_virtual_boundaries() {
    let mut table = FixedColumnTable::from(vec![["a", "b"], ["c", "d"]]);
    assert_eq!(table.row_cnt(), 2);
    assert_eq!(table.col_cnt(), 2);

    // If we change the capacity to be smaller, get_mut_cell should respect that
    table.set_row_capacity(1);
    table.set_column_capacity(1);
    assert!(table.get_mut_cell(0, 0).is_some());
    assert!(table.get_mut_cell(0, 1).is_none());
    assert!(table.get_mut_cell(1, 0).is_none());
    assert!(table.get_mut_cell(1, 1).is_none());
}

#[test]
fn col_insert_cell_should_return_previous_cell_and_overwrite_content() {
    let mut table: FixedColumnTable<usize, 3> = FixedColumnTable::new();

    assert_eq!(table.insert_cell(0, 0, 123), None);
    assert_eq!(table.insert_cell(0, 0, 999), Some(123));
    assert_eq!(table.get_cell(0, 0).as_deref(), Some(&999))
}

#[test]
fn insert_cell_should_respect_actual_boundaries() {
    let mut table: FixedColumnTable<usize, 1> = FixedColumnTable::new();
    assert_eq!(table.row_cnt(), 0);
    assert_eq!(table.col_cnt(), 0);

    // Can still create and expand within column
    assert_eq!(table.insert_cell(1, 0, 123), None);
    assert_eq!(table.get_cell(1, 0), Some(&123));

    // Creating anything outside of the single column will yield nothing
    assert_eq!(table.insert_cell(0, 1, 123), None);
    assert_eq!(table.insert_cell(1, 1, 123), None);
}

#[test]
fn insert_cell_should_grow_virtual_boundaries_within_actual_limits() {
    let mut table: FixedColumnTable<usize, 3> = FixedColumnTable::new();
    assert_eq!(table.row_cnt(), 0);
    assert_eq!(table.col_cnt(), 0);

    // Updating outside boundaries won't change anything
    table.insert_cell(3, 3, 123);
    assert_eq!(table.row_cnt(), 0);
    assert_eq!(table.col_cnt(), 0);

    // Updating within limits should adjust accordingly
    table.insert_cell(2, 2, 123);
    assert_eq!(table.row_cnt(), 3);
    assert_eq!(table.col_cnt(), 3);
}

#[test]
fn col_remove_cell_should_return_cell_that_is_removed() {
    let mut table = FixedColumnTable::from(vec![[1, 2], [3, 4]]);

    // NOTE: Because fixed table uses a default value when removing,
    //       we should see the default value of a number (0) be injected
    assert_eq!(table.remove_cell(0, 0), Some(1));
    assert_eq!(table.remove_cell(0, 0), Some(0));
}

#[test]
fn remove_cell_should_respect_virtual_boundaries() {
    let mut table = FixedColumnTable::from(vec![[1, 2], [3, 4]]);
    table.set_row_capacity(0);
    table.set_column_capacity(0);

    assert_eq!(table.row_cnt(), 0);
    assert_eq!(table.col_cnt(), 0);
    assert_eq!(table.remove_cell(0, 0), None);
}

#[test]
fn col_index_by_row_and_column_should_return_cell_ref() {
    let table = FixedColumnTable::from(vec![[1, 2, 3]]);
    assert_eq!(*table.index((0, 1)), 2);
}

#[test]
#[should_panic]
fn index_by_row_and_column_should_respect_virtual_boundaries() {
    let mut table = FixedColumnTable::from(vec![[1, 2, 3]]);
    table.set_row_capacity(0);
    table.set_column_capacity(0);

    // Will cause panic because of virtual boundary reached
    let _ = table.index((0, 0));
}

#[test]
#[should_panic]
fn col_index_by_row_and_column_should_panic_if_cell_not_found() {
    let table = FixedColumnTable::from(vec![[1, 2, 3]]);
    let _ = table.index((1, 0));
}

#[test]
fn col_index_mut_by_row_and_column_should_return_mutable_cell() {
    let mut table = FixedColumnTable::from(vec![[1, 2, 3]]);
    *table.index_mut((0, 1)) = 999;

    // Verify on the altered cell was changed
    assert_eq!(*table.index((0, 0)), 1);
    assert_eq!(*table.index((0, 1)), 999);
    assert_eq!(*table.index((0, 2)), 3);
}

#[test]
#[should_panic]
fn index_mut_by_row_and_column_should_respect_virtual_boundaries() {
    let mut table = FixedColumnTable::from(vec![[1, 2, 3]]);
    table.set_row_capacity(0);
    table.set_column_capacity(0);

    // Will cause panic because of virtual boundary reached
    *table.index_mut((0, 0)) = 999;
}

#[test]
#[should_panic]
fn col_index_mut_by_row_and_column_should_panic_if_cell_not_found() {
    let mut table = FixedColumnTable::from(vec![[1, 2, 3]]);
    *table.index_mut((1, 0)) = 999;
}

#[test]
fn col_insert_row_should_append_if_comes_after_last_row() {
    let mut table = FixedColumnTable::from_array([["a", "b", "c"], ["d", "e", "f"]]);

    table.insert_row(2, vec!["g", "h", "i"]);

    assert!(table.eq_array(&[["a", "b", "c"], ["d", "e", "f"], ["g", "h", "i"]]));
}

#[test]
fn col_insert_row_should_shift_down_all_rows_on_or_after_specified_row() {
    let mut table = FixedColumnTable::from_array([["a", "b", "c"], ["d", "e", "f"]]);

    table.insert_row(1, vec!["g", "h", "i"]);

    assert!(table.eq_array(&[["a", "b", "c"], ["g", "h", "i"], ["d", "e", "f"]]));
}

#[test]
fn col_insert_row_should_support_insertion_at_front() {
    let mut table = FixedColumnTable::from_array([["a", "b", "c"], ["d", "e", "f"]]);

    table.insert_row(0, vec!["g", "h", "i"]);

    assert!(table.eq_array(&[["g", "h", "i"], ["a", "b", "c"], ["d", "e", "f"]]));
}

#[test]
fn col_push_row_should_insert_at_end() {
    let mut table = FixedColumnTable::from_array([["a", "b", "c"], ["d", "e", "f"]]);

    table.push_row(vec!["g", "h", "i"]);

    assert!(table.eq_array(&[["a", "b", "c"], ["d", "e", "f"], ["g", "h", "i"]]));
}

#[test]
fn insert_column_should_append_if_comes_after_last_column_if_capacity_remaining() {
    let mut table = FixedColumnTable::from_array([["a", "b", "c", "g"], ["d", "e", "f", "h"]]);

    // Shrink our capacity from the starting maximum so we can add a column
    table.set_column_capacity(3);

    table.insert_column(3, vec!["x", "y"]);

    assert!(table.eq_array(&[["a", "b", "c", "x"], ["d", "e", "f", "y"]]));
}

#[test]
fn col_insert_column_should_shift_right_all_columns_on_or_after_specified_column() {
    let mut table = FixedColumnTable::from_array([["a", "b", "c", "g"], ["d", "e", "f", "h"]]);

    table.insert_column(1, vec!["x", "y"]);

    assert!(table.eq_array(&[["a", "x", "b", "c"], ["d", "y", "e", "f"]]));
}

#[test]
fn col_insert_column_should_support_insertion_at_front() {
    let mut table = FixedColumnTable::from_array([["a", "b", "c", "g"], ["d", "e", "f", "h"]]);

    table.insert_column(0, vec!["x", "y"]);

    assert!(table.eq_array(&[["x", "a", "b", "c"], ["y", "d", "e", "f"]]));
}

#[test]
fn insert_column_at_end_should_do_nothing_if_no_capacity_remaining() {
    let mut table = FixedColumnTable::from_array([["a", "b", "c"], ["d", "e", "f"]]);

    table.insert_column(3, vec!["g", "h"]);

    assert!(table.eq_array(&[["a", "b", "c"], ["d", "e", "f"]]));
}

#[test]
fn push_column_should_insert_at_end_if_capacity_remaining() {
    let mut table = FixedColumnTable::from_array([["a", "b", "c"], ["d", "e", "f"]]);

    // Shrink our capacity from the starting maximum so we can add a column
    table.set_column_capacity(2);

    table.push_column(vec!["g", "h"]);

    assert!(table.eq_array(&[["a", "b", "g"], ["d", "e", "h"]]));
}

#[test]
fn push_column_should_do_nothing_if_no_capacity_remaining() {
    let mut table = FixedColumnTable::from_array([["a", "b", "c"], ["d", "e", "f"]]);

    table.push_column(vec!["g", "h"]);

    assert!(table.eq_array(&[["a", "b", "c"], ["d", "e", "f"]]));
}

#[test]
fn col_remove_row_should_return_list_representing_removed_row() {
    let mut table = FixedColumnTable::from_array([["a", "b", "c"], ["d", "e", "f"], ["g", "h", "i"]]);

    assert_eq!(*table.remove_row(1).unwrap(), ["d", "e", "f"]);
}

#[test]
fn col_remove_row_should_shift_rows_after_up() {
    let mut table = FixedColumnTable::from_array([["a", "b", "c"], ["d", "e", "f"], ["g", "h", "i"]]);

    table.remove_row(1);

    assert!(table.eq_array(&[["a", "b", "c"], ["g", "h", "i"]]));
}

#[test]
fn col_remove_row_should_support_removing_from_front() {
    let mut table = FixedColumnTable::from_array([["a", "b", "c"], ["d", "e", "f"], ["g", "h", "i"]]);

    assert_eq!(*table.remove_row(0).unwrap(), ["a", "b", "c"]);
    assert!(table.eq_array(&[["d", "e", "f"], ["g", "h", "i"]]));
}

#[test]
fn col_remove_row_should_return_none_if_row_missing() {
    let mut table = FixedColumnTable::from_array([["a", "b", "c"], ["d", "e", "f"], ["g", "h", "i"]]);

    assert_eq!(table.remove_row(3), None);
    assert!(table.eq_array(&[["a", "b", "c"], ["d", "e", "f"], ["g", "h", "i"]]));
}

#[test]
fn col_pop_row_should_remove_last_row() {
    let mut table = FixedColumnTable::from_array([["a", "b", "c"], ["d", "e", "f"], ["g", "h", "i"]]);

    assert_eq!(*table.pop_row().unwrap(), ["g", "h", "i"]);
    assert!(table.eq_array(&[["a", "b", "c"], ["d", "e", "f"]]));
}

#[test]
fn col_remove_column_should_return_iterator_over_removed_column() {
    let mut table = FixedColumnTable::from_array([["a", "b", "c"], ["d", "e", "f"], ["g", "h", "i"]]);

    assert_eq!(*table.remove_column(1).unwrap(), ["b", "e", "h"]);
}

#[test]
fn col_remove_column_should_shift_columns_after_left() {
    let mut table = FixedColumnTable::from_array([["a", "b", "c"], ["d", "e", "f"], ["g", "h", "i"]]);

    table.remove_column(1);

    assert!(table.eq_array(&[["a", "c"], ["d", "f"], ["g", "i"]]));
}

#[test]
fn col_remove_column_should_support_removing_from_front() {
    let mut table = FixedColumnTable::from_array([["a", "b", "c"], ["d", "e", "f"], ["g", "h", "i"]]);

    assert_eq!(*table.remove_column(0).unwrap(), ["a", "d", "g"]);

    assert!(table.eq_array(&[["b", "c"], ["e", "f"], ["h", "i"]]));
}

#[test]
fn col_remove_column_should_return_none_if_column_missing() {
    let mut table = FixedColumnTable::from_array([["a", "b", "c"], ["d", "e", "f"], ["g", "h", "i"]]);

    assert_eq!(table.remove_column(3), None);

    assert!(table.eq_array(&[["a", "b", "c"], ["d", "e", "f"], ["g", "h", "i"]]));
}

#[test]
fn col_pop_column_should_remove_last_column() {
    let mut table = FixedColumnTable::from_array([["a", "b", "c"], ["d", "e", "f"], ["g", "h", "i"]]);

    assert_eq!(*table.pop_column().unwrap(), ["c", "f", "i"]);

    assert!(table.eq_array(&[["a", "b"], ["d", "e"], ["g", "h"]]));
}

