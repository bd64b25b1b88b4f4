use memtable_core::iter::CellIter;
use memtable_core::{MemFixedRowTable, Table, TableOps};



fn cells_of<T: Copy + Default, const ROW: usize>(table: &MemFixedRowTable<T, ROW>) -> Vec<(usize, usize, T)> {
    let mut out = Vec::new();
    let mut it = table.iter();
    while let Some((pos, x)) = it.next() {
        out.push((pos.row, pos.col, *x));
    }
    out
}

#[test]
fn row_row_cnt_should_match_fixed_row_size() {
    let table: MemFixedRowTable<usize, 0> = MemFixedRowTable::new();
    assert_eq!(table.row_cnt(), 0);

    let table: MemFixedRowTable<usize, 4> = MemFixedRowTable::new();
    assert_eq!(table.row_cnt(), 4);
}

#[test]
fn col_cnt_should_be_dynamic() {
    let table: MemFixedRowTable<usize, 0> = MemFixedRowTable::new();
    assert_eq!(table.col_cnt(), 0);

    let mut table: MemFixedRowTable<usize, 1> = MemFixedRowTable::new();
    table.push_column(vec![1, 2, 3]);
    table.push_column(vec![1, 2, 3]);
    table.push_column(vec![1, 2, 3]);

    assert_eq!(table.col_cnt(), 3);
}

#[test]
fn row_get_cell_should_return_ref_to_cell_at_location() {
    let table = MemFixedRowTable::from([vec!["a", "b"], vec!["c", "d"]]);
    assert_eq!(table.get_cell(0, 0).as_deref(), Some(&"a"));
    assert_eq!(table.get_cell(0, 1).as_deref(), Some(&"b"));
    assert_eq!(table.get_cell(1, 0).as_deref(), Some(&"c"));
    assert_eq!(table.get_cell(1, 1).as_deref(), Some(&"d"));
    assert_eq!(table.get_cell(1, 2), None);
}

#[test]
fn row_get_mut_cell_should_return_mut_ref_to_cell_at_location() {
    let mut table = MemFixedRowTable::from([vec!["a", "b"], vec!["c", "d"]]);
    *table.get_mut_cell(0, 0).unwrap() = "e";
    assert_eq!(table.get_cell(0, 0).as_deref(), Some(&"e"));
}

#[test]
fn row_insert_cell_should_return_previous_cell_and_overwrite_content() {
    let mut table: MemFixedRowTable<usize, 3> = MemFixedRowTable::new();

    assert_eq!(table.insert_cell(0, 0, 123), Some(0));
    assert_eq!(table.insert_cell(0, 0, 999), Some(123));
    assert_eq!(table.get_cell(0, 0).as_deref(), Some(&999))
}

#[test]
fn row_remove_cell_should_return_cell_that_is_removed() {
    let mut table = MemFixedRowTable::from([vec![1, 2], vec![3, 4]]);

    // NOTE: Because fixed table uses a default value when removing,
    //       we should see the default value of a number (0) be injected
    assert_eq!(table.remove_cell(0, 0), Some(1));
    assert_eq!(table.remove_cell(0, 0), Some(0));
}

#[test]
fn truncate_should_remove_cells_outside_of_column_capacity_count() {
    let mut table = MemFixedRowTable::from([
        vec!["a", "b", "c"],
        vec!["d", "e", "f"],
        vec!["g", "h", "i"],
    ]);

    // Should do nothing if all cells are within capacities
    table.truncate();
    assert_eq!(
        cells_of(&table),
        vec![
            (0, 0, "a"),
            (0, 1, "b"),
            (0, 2, "c"),
            (1, 0, "d"),
            (1, 1, "e"),
            (1, 2, "f"),
            (2, 0, "g"),
            (2, 1, "h"),
            (2, 2, "i"),
        ]
    );

    // Trucate from 3x3 to 3x2
    table.set_column_capacity(table.col_cnt() - 1);
    table.truncate();
    assert_eq!(
        cells_of(&table),
        vec![
            (0, 0, "a"),
            (0, 1, "b"),
            (1, 0, "d"),
            (1, 1, "e"),
            (2, 0, "g"),
            (2, 1, "h"),
        ]
    );
}

#[test]
fn shrink_to_fit_should_adjust_column_count_based_on_cell_positions() {
    let mut table: MemFixedRowTable<&'static str, 3> = MemFixedRowTable::new();
    assert_eq!(table.row_cnt(), 3);
    assert_eq!(table.col_cnt(), 0);

    table.cells[0].extend(vec!["a", "b"]);
    table.cells[1].extend(vec!["d", "e", "f"]);
    table.cells[2].extend(vec!["g"]);
    assert_eq!(table.row_cnt(), 3);
    assert_eq!(table.col_cnt(), 0);

    table.shrink_to_fit();
    assert_eq!(table.row_cnt(), 3);
    assert_eq!(table.col_cnt(), 3);
}

#[test]
fn row_index_by_row_and_column_should_return_cell_ref() {
    let table = MemFixedRowTable::from([vec![1, 2, 3]]);
    assert_eq!(*table.index((0, 1)), 2);
}

#[test]
#[should_panic]
fn row_index_by_row_and_column_should_panic_if_cell_not_found() {
    let table = MemFixedRowTable::from([vec![1, 2, 3]]);
    let _ = table.index((1, 0));
}

#[test]
fn row_index_mut_by_row_and_column_should_return_mutable_cell() {
    let mut table = MemFixedRowTable::from([vec![1, 2, 3]]);
    *table.index_mut((0, 1)) = 999;

    // Verify on the altered cell was changed
    assert_eq!(*table.index((0, 0)), 1);
    assert_eq!(*table.index((0, 1)), 999);
    assert_eq!(*table.index((0, 2)), 3);
}

#[test]
#[should_panic]
fn row_index_mut_by_row_and_column_should_panic_if_cell_not_found() {
    let mut table = MemFixedRowTable::from([vec![1, 2, 3]]);
    *table.index_mut((1, 0)) = 999;
}
