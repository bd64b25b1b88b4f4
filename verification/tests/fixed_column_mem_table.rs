use memtable_core::iter::CellIter;
use memtable_core::{FixedColumnMemTable, Table, TableOps};



fn cells_of<T: Copy + Default, const COL: usize>(table: &FixedColumnMemTable<T, COL>) -> Vec<(usize, usize, T)> {
    let mut out = Vec::new();
    let mut it = table.iter();
    while let Some((pos, x)) = it.next() {
        out.push((pos.row, pos.col, *x));
    }
    out
}

#[test]
fn row_cnt_should_be_dynamic() {
    let table: FixedColumnMemTable<usize, 0> = FixedColumnMemTable::new();
    assert_eq!(table.row_cnt(), 0);

    let mut table: FixedColumnMemTable<usize, 4> = FixedColumnMemTable::new();
    table.push_row(vec![1, 2, 3, 4]);
    table.push_row(vec![1, 2, 3, 4]);
    table.push_row(vec![1, 2, 3, 4]);
    assert_eq!(table.row_cnt(), 3);
}

#[test]
fn col_cnt_should_match_fixed_row_size() {
    let table: FixedColumnMemTable<usize, 0> = FixedColumnMemTable::new();
    assert_eq!(table.col_cnt(), 0);

    let table: FixedColumnMemTable<usize, 3> = FixedColumnMemTable::new();
    assert_eq!(table.col_cnt(), 3);
}

#[test]
fn mem_get_cell_should_return_ref_to_cell_at_location() {
    let table = FixedColumnMemTable::from(vec![["a", "b"], ["c", "d"]]);
    assert_eq!(table.get_cell(0, 0), Some(&"a"));
    assert_eq!(table.get_cell(0, 1), Some(&"b"));
    assert_eq!(table.get_cell(1, 0), Some(&"c"));
    assert_eq!(table.get_cell(1, 1), Some(&"d"));
    assert_eq!(table.get_cell(1, 2), None);
}

#[test]
fn mem_get_mut_cell_should_return_mut_ref_to_cell_at_location() {
    let mut table = FixedColumnMemTable::from(vec![["a", "b"], ["c", "d"]]);
    *table.get_mut_cell(0, 0).unwrap() = "e";
    assert_eq!(table.get_cell(0, 0), Some(&"e"));
}

#[test]
fn mem_insert_cell_should_return_previous_cell_and_overwrite_content() {
    let mut table: FixedColumnMemTable<usize, 3> = FixedColumnMemTable::new();

    assert_eq!(table.insert_cell(0, 0, 123), Some(usize::default()));
    assert_eq!(table.insert_cell(0, 0, 999), Some(123));
    assert_eq!(table.get_cell(0, 0), Some(&999))
}

#[test]
fn mem_remove_cell_should_return_cell_that_is_removed() {
    let mut table = FixedColumnMemTable::from(vec![[1, 2], [3, 4]]);

    // NOTE: Because fixed table uses a default value when removing,
    //       we should see the default value of a number (0) be injected
    assert_eq!(table.remove_cell(0, 0), Some(1));
    assert_eq!(table.remove_cell(0, 0), Some(0));
}

#[test]
fn truncate_should_remove_cells_outside_of_row_capacity_count() {
    let mut table =
        FixedColumnMemTable::from(vec![["a", "b", "c"], ["d", "e", "f"], ["g", "h", "i"]]);

    // Should do nothing if all cells are within capacities
    table.truncate();
    assert_eq!(
        cells_of(&table),
        vec![
            (0, 0, "a"),
            (0, 1, "b"),
            (0, 2, "c"),
            (1, 0, "d"),
            (1, 1, "e"),
            (1, 2, "f"),
            (2, 0, "g"),
            (2, 1, "h"),
            (2, 2, "i"),
        ]
    );

    // Trucate from 3x3 to 2x3
    table.set_row_capacity(table.row_cnt() - 1);
    table.truncate();
    assert_eq!(
        cells_of(&table),
        vec![
            (0, 0, "a"),
            (0, 1, "b"),
            (0, 2, "c"),
            (1, 0, "d"),
            (1, 1, "e"),
            (1, 2, "f")
        ]
    );
}

#[test]
fn shrink_to_fit_should_adjust_row_count_based_on_cell_positions() {
    let mut table: FixedColumnMemTable<&'static str, 3> = FixedColumnMemTable::new();
    assert_eq!(table.row_cnt(), 0);
    assert_eq!(table.col_cnt(), 3);

    table.cells.push(["a", "b", "c"]);
    table.cells.push(["d", "e", "f"]);
    assert_eq!(table.row_cnt(), 0);
    assert_eq!(table.col_cnt(), 3);

    table.shrink_to_fit();
    assert_eq!(table.row_cnt(), 2);
    assert_eq!(table.col_cnt(), 3);
}

#[test]
fn mem_index_by_row_and_column_should_return_cell_ref() {
    let table = FixedColumnMemTable::from(vec![[1, 2, 3]]);
    assert_eq!(*table.index((0, 1)), 2);
}

#[test]
fn mem_index_mut_by_row_and_column_should_return_mutable_cell() {
    let mut table = FixedColumnMemTable::from(vec![[1, 2, 3]]);
    *table.index_mut((0, 1)) = 999;

    // Verify on the altered cell was changed
    assert_eq!(*table.index((0, 0)), 1);
    assert_eq!(*table.index((0, 1)), 999);
    assert_eq!(*table.index((0, 2)), 3);
}

