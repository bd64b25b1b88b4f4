use memtable_core::{DynamicTable, Position, Table, TableOps};

fn make_empty_cells<T>() -> Vec<(Position, T)> {
    make_cells(Vec::new())
}

fn make_cells<T>(items: Vec<(usize, usize, T)>) -> Vec<(Position, T)> {
    items
        .into_iter()
        .map(|(row, col, x)| (Position { row, col }, x))
        .collect()
}

fn cells_of<T: Copy>(table: &DynamicTable<T>) -> Vec<(usize, usize, T)> {
    let mut out = Vec::new();
    let mut it = table.iter();
    while let Some((pos, x)) = it.next() {
        out.push((pos.row, pos.col, *x));
    }
    out
}

#[test]
fn new_should_calculate_row_and_column_counts_from_max_row_and_column() {
    let table = DynamicTable::from_positions(make_empty_cells::<usize>());
    assert_eq!(table.row_cnt(), 0);
    assert_eq!(table.col_cnt(), 0);

    let table = DynamicTable::from_positions(make_cells(vec![(3, 2, "some value")]));
    assert_eq!(table.row_cnt(), 4);
    assert_eq!(table.col_cnt(), 3);

    let table = DynamicTable::from_positions(make_cells(vec![(3, 0, "value"), (0, 5, "value")]));
    assert_eq!(table.row_cnt(), 4);
    assert_eq!(table.col_cnt(), 6);
}

#[test]
fn dynamic_get_cell_should_return_ref_to_cell_at_location() {
    let table = DynamicTable::from_positions(make_cells(vec![
        (0, 0, "a"),
        (0, 1, "b"),
        (1, 0, "c"),
        (1, 1, "d"),
    ]));
    assert_eq!(table.get_cell(0, 0).as_deref(), Some(&"a"));
    assert_eq!(table.get_cell(0, 1).as_deref(), Some(&"b"));
    assert_eq!(table.get_cell(1, 0).as_deref(), Some(&"c"));
    assert_eq!(table.get_cell(1, 1).as_deref(), Some(&"d"));
    assert_eq!(table.get_cell(1, 2), None);
}

#[test]
fn dynamic_get_mut_cell_should_return_mut_ref_to_cell_at_location() {
    let mut table = DynamicTable::from_positions(make_cells(vec![
        (0, 0, "a"),
        (0, 1, "b"),
        (1, 0, "c"),
        (1, 1, "d"),
    ]));
    *table.get_mut_cell(0, 0).unwrap() = "e";
    assert_eq!(table.get_cell(0, 0).as_deref(), Some(&"e"));
}

#[test]
fn insert_cell_should_extend_max_row_size_if_adding_beyond_max_row() {
    let mut table = DynamicTable::new();

    table.insert_cell(0, 0, "");
    table.insert_cell(0, 1, "");
    table.insert_cell(0, 2, "");
    assert_eq!(table.row_cnt(), 1);

    table.insert_cell(1, 0, "");
    assert_eq!(table.row_cnt(), 2);

    table.insert_cell(3, 0, "");
    assert_eq!(table.row_cnt(), 4);
}

#[test]
fn insert_cell_should_extend_max_column_size_if_adding_beyond_max_column() {
    let mut table = DynamicTable::new();

    table.insert_cell(0, 0, "");
    table.insert_cell(1, 0, "");
    table.insert_cell(2, 0, "");
    assert_eq!(table.col_cnt(), 1);

    table.insert_cell(0, 1, "");
    assert_eq!(table.col_cnt(), 2);

    table.insert_cell(0, 3, "");
    assert_eq!(table.col_cnt(), 4);
}

#[test]
fn dynamic_insert_cell_should_return_previous_cell_and_overwrite_content() {
    let mut table = DynamicTable::new();

    assert!(table.insert_cell(0, 0, "test").is_none());
    assert_eq!(table.insert_cell(0, 0, "other"), Some("test"));
    assert_eq!(table.get_cell(0, 0).as_deref(), Some(&"other"))
}

#[test]
fn dynamic_remove_cell_should_return_cell_that_is_removed() {
    let mut table: DynamicTable<&'static str> =
        DynamicTable::from_positions(make_cells(vec![(0, 0, "a"), (1, 1, "b")]));

    assert_eq!(table.remove_cell(0, 0), Some("a"));
    assert!(table.remove_cell(0, 0).is_none());
}

#[test]
fn truncate_should_remove_cells_outside_of_row_and_column_capacity_counts() {
    let mut table = DynamicTable::from_positions(make_cells(vec![
        (0, 0, "a"),
        (0, 1, "b"),
        (0, 2, "c"),
        (1, 0, "d"),
        (1, 1, "e"),
        (1, 2, "f"),
        (2, 0, "g"),
        (2, 1, "h"),
        (2, 2, "i"),
    ]));

    // Should do nothing if all cells are within capacities
    table.truncate();
    assert_eq!(
        cells_of(&table),
        vec![
            (0, 0, "a"),
            (0, 1, "b"),
            (0, 2, "c"),
            (1, 0, "d"),
            (1, 1, "e"),
            (1, 2, "f"),
            (2, 0, "g"),
            (2, 1, "h"),
            (2, 2, "i"),
        ]
    );

    // Trucate from 3x3 to 2x2
    table.set_row_capacity(table.row_cnt() - 1);
    table.set_column_capacity(table.col_cnt() - 1);
    table.truncate();
    assert_eq!(
        cells_of(&table),
        vec![(0, 0, "a"), (0, 1, "b"), (1, 0, "d"), (1, 1, "e")]
    );
}

#[test]
fn shrink_to_fit_should_adjust_row_and_column_counts_based_on_cell_positions() {
    let mut table: DynamicTable<&'static str> = DynamicTable::new();
    assert_eq!(table.row_cnt(), 0);
    assert_eq!(table.col_cnt(), 0);

    // Place the cells, then bring the counts back to zero so that they no
    // longer reflect where the cells are
    table.insert_cell(0, 3, "a");
    table.insert_cell(5, 0, "b");
    table.set_row_capacity(0);
    table.set_column_capacity(0);
    assert_eq!(table.row_cnt(), 0);
    assert_eq!(table.col_cnt(), 0);

    table.shrink_to_fit();
    assert_eq!(table.row_cnt(), 6);
    assert_eq!(table.col_cnt(), 4);
}

#[test]
fn dynamic_index_by_row_and_column_should_return_cell_ref() {
    let mut table = DynamicTable::new();
    table.push_row(vec![1, 2, 3]);

    assert_eq!(*table.index((0, 1)), 2);
}

#[test]
#[should_panic]
fn dynamic_index_by_row_and_column_should_panic_if_cell_not_found() {
    let mut table = DynamicTable::new();
    table.push_row(vec![1, 2, 3]);

    let _ = table.index((1, 0));
}

#[test]
fn dynamic_index_mut_by_row_and_column_should_return_mutable_cell() {
    let mut table = DynamicTable::new();
    table.push_row(vec![1, 2, 3]);

    *table.index_mut((0, 1)) = 999;

    let mut cells: Vec<(usize, usize, usize)> = cells_of(&table);
    cells.sort_unstable();
    assert_eq!(cells, vec![(0, 0, 1), (0, 1, 999), (0, 2, 3)]);
}

#[test]
#[should_panic]
fn dynamic_index_mut_by_row_and_column_should_panic_if_cell_not_found() {
    let mut table = DynamicTable::new();
    table.push_row(vec![1, 2, 3]);

    *table.index_mut((1, 0)) = 999;
}

#[test]
fn dynamic_insert_row_should_append_if_comes_after_last_row() {
    let mut table = DynamicTable::from_array([["a", "b", "c"], ["d", "e", "f"]]);

    table.insert_row(2, vec!["g", "h", "i"]);

    assert!(table.eq_array(&[["a", "b", "c"], ["d", "e", "f"], ["g", "h", "i"]]));
}

#[test]
fn dynamic_insert_row_should_shift_down_all_rows_on_or_after_specified_row() {
    let mut table = DynamicTable::from_array([["a", "b", "c"], ["d", "e", "f"]]);

    table.insert_row(1, vec!["g", "h", "i"]);

    assert!(table.eq_array(&[["a", "b", "c"], ["g", "h", "i"], ["d", "e", "f"]]));
}

#[test]
fn dynamic_insert_row_should_support_insertion_at_front() {
    let mut table = DynamicTable::from_array([["a", "b", "c"], ["d", "e", "f"]]);

    table.insert_row(0, vec!["g", "h", "i"]);

    assert!(table.eq_array(&[["g", "h", "i"], ["a", "b", "c"], ["d", "e", "f"]]));
}

#[test]
fn dynamic_push_row_should_insert_at_end() {
    let mut table = DynamicTable::from_array([["a", "b", "c"], ["d", "e", "f"]]);

    table.push_row(vec!["g", "h", "i"]);

    assert!(table.eq_array(&[["a", "b", "c"], ["d", "e", "f"], ["g", "h", "i"]]));
}

#[test]
fn insert_column_should_append_if_comes_after_last_column() {
    let mut table = DynamicTable::from_array([["a", "b", "c"], ["d", "e", "f"]]);

    table.insert_column(3, vec!["g", "h"]);

    assert!(table.eq_array(&[["a", "b", "c", "g"], ["d", "e", "f", "h"]]));
}

#[test]
fn dynamic_insert_column_should_shift_right_all_columns_on_or_after_specified_column() {
    let mut table = DynamicTable::from_array([["a", "b", "c"], ["d", "e", "f"]]);

    table.insert_column(1, vec!["g", "h"]);

    assert!(table.eq_array(&[["a", "g", "b", "c"], ["d", "h", "e", "f"]]));
}

#[test]
fn dynamic_insert_column_should_support_insertion_at_front() {
    let mut table = DynamicTable::from_array([["a", "b", "c"], ["d", "e", "f"]]);

    table.insert_column(0, vec!["g", "h"]);

    assert!(table.eq_array(&[["g", "a", "b", "c"], ["h", "d", "e", "f"]]));
}

#[test]
fn push_column_should_insert_at_end() {
    let mut table = DynamicTable::from_array([["a", "b", "c"], ["d", "e", "f"]]);

    table.push_column(vec!["g", "h"]);

    assert!(table.eq_array(&[["a", "b", "c", "g"], ["d", "e", "f", "h"]]));
}

#[test]
fn dynamic_remove_row_should_return_list_representing_removed_row() {
    let mut table =
        DynamicTable::from_array([["a", "b", "c"], ["d", "e", "f"], ["g", "h", "i"]]);

    assert_eq!(*table.remove_row(1).unwrap(), ["d", "e", "f"]);
}

#[test]
fn dynamic_remove_row_should_shift_rows_after_up() {
    let mut table =
        DynamicTable::from_array([["a", "b", "c"], ["d", "e", "f"], ["g", "h", "i"]]);

    table.remove_row(1);

    assert!(table.eq_array(&[["a", "b", "c"], ["g", "h", "i"]]));
}

#[test]
fn dynamic_remove_row_should_support_removing_from_front() {
    let mut table =
        DynamicTable::from_array([["a", "b", "c"], ["d", "e", "f"], ["g", "h", "i"]]);

    assert_eq!(*table.remove_row(0).unwrap(), ["a", "b", "c"]);
    assert!(table.eq_array(&[["d", "e", "f"], ["g", "h", "i"]]));
}

#[test]
fn dynamic_remove_row_should_return_none_if_row_missing() {
    let mut table =
        DynamicTable::from_array([["a", "b", "c"], ["d", "e", "f"], ["g", "h", "i"]]);

    assert_eq!(table.remove_row(3), None);
    assert!(table.eq_array(&[["a", "b", "c"], ["d", "e", "f"], ["g", "h", "i"]]));
}

#[test]
fn dynamic_pop_row_should_remove_last_row() {
    let mut table =
        DynamicTable::from_array([["a", "b", "c"], ["d", "e", "f"], ["g", "h", "i"]]);

    assert_eq!(*table.pop_row().unwrap(), ["g", "h", "i"]);
    assert!(table.eq_array(&[["a", "b", "c"], ["d", "e", "f"]]));
}

#[test]
fn dynamic_remove_column_should_return_iterator_over_removed_column() {
    let mut table =
        DynamicTable::from_array([["a", "b", "c"], ["d", "e", "f"], ["g", "h", "i"]]);

    assert_eq!(*table.remove_column(1).unwrap(), ["b", "e", "h"]);
}

#[test]
fn dynamic_remove_column_should_shift_columns_after_left() {
    let mut table =
        DynamicTable::from_array([["a", "b", "c"], ["d", "e", "f"], ["g", "h", "i"]]);

    table.remove_column(1);

    assert!(table.eq_array(&[["a", "c"], ["d", "f"], ["g", "i"]]));
}

#[test]
fn dynamic_remove_column_should_support_removing_from_front() {
    let mut table =
        DynamicTable::from_array([["a", "b", "c"], ["d", "e", "f"], ["g", "h", "i"]]);

    assert_eq!(*table.remove_column(0).unwrap(), ["a", "d", "g"]);

    assert!(table.eq_array(&[["b", "c"], ["e", "f"], ["h", "i"]]));
}

#[test]
fn dynamic_remove_column_should_return_none_if_column_missing() {
    let mut table =
        DynamicTable::from_array([["a", "b", "c"], ["d", "e", "f"], ["g", "h", "i"]]);

    assert_eq!(table.remove_column(3), None);

    assert!(table.eq_array(&[["a", "b", "c"], ["d", "e", "f"], ["g", "h", "i"]]));
}

#[test]
fn dynamic_pop_column_should_remove_last_column() {
    let mut table =
        DynamicTable::from_array([["a", "b", "c"], ["d", "e", "f"], ["g", "h", "i"]]);

    assert_eq!(*table.pop_column().unwrap(), ["c", "f", "i"]);

    assert!(table.eq_array(&[["a", "b"], ["d", "e"], ["g", "h"]]));
}
