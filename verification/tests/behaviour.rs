use memtable_core::iter::{CellIter, Cells, Column, Row};
use memtable_core::list::{DynamicList, FixedList, List};
use memtable_core::{
    Capacity, DynamicTable, FixedColumnMemTable, FixedColumnTable, FixedTable, MemFixedRowTable,
    Position, Table, TableOps,
};
use memtable_core::utils::{array_from_items, table_array_from_items, vec_array_from_items};
use std::cmp::Ordering;

fn grid<T: Table>(table: &T) -> Vec<Vec<Option<T::Data>>>
where
    T::Data: Clone,
{
    let mut out = Vec::new();
    for row in 0..table.row_cnt() {
        let mut cells = Vec::new();
        for col in 0..table.col_cnt() {
            cells.push(table.get_cell(row, col).cloned());
        }
        out.push(cells);
    }
    out
}

#[test]
fn pop_row_gives_back_the_pushed_row_and_the_table_before_it() {
    let mut table = DynamicTable::from_array([[1, 2, 3], [4, 5, 6]]);
    let before = grid(&table);
    table.push_row(vec![7, 8, 9]);
    assert_eq!(table.row_cnt(), 3);
    let row = table.pop_row().unwrap();
    assert_eq!(*row, vec![7, 8, 9]);
    assert_eq!(grid(&table), before);
}

#[test]
fn remove_column_gives_back_the_inserted_column_and_the_table_before_it() {
    let mut table = DynamicTable::from_array([[1, 2, 3], [4, 5, 6]]);
    let before = grid(&table);
    table.insert_column(1, vec![10, 20]);
    assert_eq!(grid(&table)[0], vec![Some(1), Some(10), Some(2), Some(3)]);
    let column = table.remove_column(1).unwrap();
    assert_eq!(*column, vec![10, 20]);
    assert_eq!(grid(&table), before);
}

#[test]
fn shorter_inserted_row_leaves_the_rest_of_its_row_empty() {
    let mut table = DynamicTable::from_array([["a", "b", "c"], ["d", "e", "f"]]);
    table.insert_row(1, vec!["x"]);
    assert_eq!(table.row_cnt(), 3);
    assert_eq!(table.col_cnt(), 3);
    assert_eq!(table.get_cell(1, 0), Some(&"x"));
    assert_eq!(table.get_cell(1, 1), None);
    assert_eq!(table.get_cell(2, 2), Some(&"f"));
}

#[test]
fn longer_inserted_row_widens_the_table() {
    let mut table = DynamicTable::from_array([["a", "b"]]);
    table.insert_row(0, vec!["x", "y", "z"]);
    assert_eq!(table.row_cnt(), 2);
    assert_eq!(table.col_cnt(), 3);
    assert_eq!(table.get_cell(0, 2), Some(&"z"));
    assert_eq!(table.get_cell(1, 2), None);
}

#[test]
fn insert_row_past_the_end_stretches_the_row_count() {
    let mut table = DynamicTable::from_array([[1]]);
    table.insert_row(4, vec![5]);
    assert_eq!(table.row_cnt(), 5);
    assert_eq!(table.get_cell(4, 0), Some(&5));
    assert_eq!(table.get_cell(2, 0), None);
}

#[test]
fn removing_a_missing_row_or_column_changes_nothing() {
    let mut table = DynamicTable::from_array([[1, 2], [3, 4]]);
    assert!(table.remove_row(2).is_none());
    assert!(table.remove_column(5).is_none());
    assert_eq!(grid(&table), vec![vec![Some(1), Some(2)], vec![Some(3), Some(4)]]);
    let mut empty: DynamicTable<u8> = DynamicTable::new();
    assert!(empty.pop_row().is_none());
    assert!(empty.pop_column().is_none());
}

#[test]
fn a_written_cell_reads_back_and_removal_returns_it() {
    let mut table = DynamicTable::new();
    assert_eq!(table.insert_cell(2, 3, 'q'), None);
    assert_eq!(table.get_cell(2, 3), Some(&'q'));
    assert!(table.has_cell(2, 3));
    assert!(!table.has_cell(3, 2));
    assert_eq!(table.len(), 12);
    assert!(!table.is_empty());
    assert_eq!(table.remove_cell(2, 3), Some('q'));
    assert_eq!(table.get_cell(2, 3), None);
    // Removal keeps the bounds
    assert_eq!(table.row_cnt(), 3);
    assert_eq!(table.col_cnt(), 4);
}

#[test]
fn truncate_then_shrink_fits_the_bounds_to_the_cells_left() {
    let mut table = DynamicTable::from_positions(vec![
        (Position::new(0, 0), 1),
        (Position::new(1, 4), 2),
        (Position::new(5, 1), 3),
    ]);
    assert_eq!((table.row_cnt(), table.col_cnt()), (6, 5));
    table.set_row_capacity(2);
    table.truncate();
    assert_eq!(table.get_cell(5, 1), None);
    // The counts stay as they were set, and cells past the set columns stay
    assert_eq!((table.row_cnt(), table.col_cnt()), (2, 5));
    table.shrink_to_fit();
    assert_eq!((table.row_cnt(), table.col_cnt()), (2, 5));
    table.remove_cell(1, 4);
    table.shrink_to_fit();
    assert_eq!((table.row_cnt(), table.col_cnt()), (1, 1));
}

#[test]
fn later_positions_replace_earlier_ones() {
    let table = DynamicTable::from_positions(vec![
        (Position::new(0, 1), "first"),
        (Position::new(0, 1), "second"),
    ]);
    assert_eq!(table.get_cell(0, 1), Some(&"second"));
    assert_eq!(table.get_cell(0, 0), None);
    assert_eq!((table.row_cnt(), table.col_cnt()), (1, 2));
}

#[test]
fn an_array_without_cells_gives_an_empty_table() {
    let table: DynamicTable<u8> = DynamicTable::from_array([[0u8; 0]; 3]);
    assert_eq!((table.row_cnt(), table.col_cnt()), (0, 0));
    let table: DynamicTable<u8> = DynamicTable::from_array::<0, 4>([]);
    assert_eq!((table.row_cnt(), table.col_cnt()), (0, 0));
    let table: FixedColumnTable<u8, 2> = FixedColumnTable::from_array::<0>([]);
    assert_eq!((table.row_cnt(), table.col_cnt()), (0, 0));
}

#[test]
fn fixed_table_ignores_writes_outside_its_array() {
    let mut table = FixedTable::from([[1, 2], [3, 4]]);
    assert_eq!(table.insert_cell(2, 0, 9), None);
    assert_eq!(table.remove_cell(0, 2), None);
    assert_eq!(grid(&table), vec![vec![Some(1), Some(2)], vec![Some(3), Some(4)]]);
    // The size is fixed
    table.set_row_capacity(1);
    table.set_column_capacity(7);
    assert_eq!((table.row_cnt(), table.col_cnt()), (2, 2));
}

#[test]
fn fixed_table_loses_the_row_shifted_past_its_end() {
    let mut table = FixedTable::from([[1, 2], [3, 4]]);
    table.insert_row(0, vec![5, 6]);
    assert_eq!(grid(&table), vec![vec![Some(5), Some(6)], vec![Some(1), Some(2)]]);
}

#[test]
fn fixed_table_shifts_columns_right_and_loses_the_last_one() {
    let mut table = FixedTable::from([[1, 2, 3], [4, 5, 6]]);
    table.insert_column(1, vec![7]);
    assert_eq!(grid(&table), vec![vec![Some(1), Some(7), Some(2)], vec![Some(4), Some(0), Some(5)]]);
}

#[test]
fn fixed_table_removed_row_comes_back_and_later_rows_move_up() {
    let mut table = FixedTable::from([[1, 2], [3, 4], [5, 6]]);
    let row = table.remove_row(0).unwrap();
    assert_eq!(*row, [1, 2]);
    assert_eq!(grid(&table)[..2], [vec![Some(3), Some(4)], vec![Some(5), Some(6)]]);
    let column = table.remove_column(1).unwrap();
    assert_eq!(*column, [4, 6, 0]);
    assert_eq!(table.get_cell(1, 0), Some(&5));
}

#[test]
fn fixed_column_table_truncate_resets_storage_past_the_column_count() {
    let mut table = FixedColumnTable::from(vec![[1, 2, 3], [4, 5, 6]]);
    table.set_column_capacity(1);
    table.truncate();
    table.set_column_capacity(3);
    assert_eq!(grid(&table), vec![vec![Some(1), Some(0), Some(0)], vec![Some(4), Some(0), Some(0)]]);
}

#[test]
fn fixed_column_table_insert_reports_old_value_only_within_bounds() {
    let mut table: FixedColumnTable<u8, 2> = FixedColumnTable::new();
    assert_eq!(table.insert_cell(0, 0, 1), None);
    assert_eq!(table.insert_cell(0, 0, 2), Some(1));
    assert_eq!(table.insert_cell(0, 2, 3), None);
    assert_eq!((table.row_cnt(), table.col_cnt()), (1, 1));
}

#[test]
fn fixed_column_mem_table_grows_rows_on_insert_and_remove() {
    let mut table: FixedColumnMemTable<u8, 2> = FixedColumnMemTable::new();
    assert_eq!(table.insert_cell(1, 1, 7), Some(0));
    assert_eq!(table.row_cnt(), 2);
    assert_eq!(table.remove_cell(3, 0), Some(0));
    assert_eq!(table.row_cnt(), 4);
    assert_eq!(table.insert_cell(0, 2, 1), None);
    table.shrink_to_fit();
    assert_eq!(table.row_cnt(), 4);
}

#[test]
fn mem_fixed_row_table_grows_columns_on_insert() {
    let mut table: MemFixedRowTable<u8, 1> = MemFixedRowTable::new();
    assert_eq!(table.insert_cell(0, 2, 5), Some(0));
    assert_eq!(table.col_cnt(), 3);
    assert_eq!(table.get_cell(0, 2), Some(&5));
    assert_eq!(table.insert_cell(1, 0, 5), None);
    table.set_column_capacity(1);
    table.truncate();
    assert_eq!(table.cells[0], vec![0]);
}

#[test]
fn rows_and_columns_walk_the_table_in_order() {
    let table = DynamicTable::from_array([[1, 2], [3, 4]]);
    let mut rows = table.rows();
    let mut seen = Vec::new();
    while let Some(mut row) = rows.next() {
        while let Some(x) = row.next() {
            seen.push(*x);
        }
    }
    assert_eq!(seen, vec![1, 2, 3, 4]);
    let mut columns = table.columns();
    let mut seen = Vec::new();
    while let Some(mut column) = columns.next() {
        while let Some(x) = column.next() {
            seen.push(*x);
        }
    }
    assert_eq!(seen, vec![1, 3, 2, 4]);
}

#[test]
fn cells_walk_stops_at_the_end_and_reports_positions() {
    let table = DynamicTable::from_array([[1, 2], [3, 4]]);
    let mut cells = table.cells();
    assert_eq!((cells.row(), cells.col()), (0, 0));
    assert_eq!(cells.next_with_pos(), Some((Position::new(0, 0), &1)));
    assert_eq!(cells.next_with_pos(), Some((Position::new(0, 1), &2)));
    assert_eq!(cells.size_hint(), (2, Some(2)));
    cells.next();
    cells.next();
    assert_eq!((cells.row(), cells.col()), (2, 2));
    assert_eq!(cells.next(), None);
    let mut empty = table.rows();
    empty.next();
    empty.next();
    assert!(empty.next().is_none());
}

#[test]
fn into_cells_takes_every_cell() {
    let table = FixedTable::from([[1, 2], [3, 4]]);
    let mut cells = table.into_cells();
    let mut seen = Vec::new();
    while let Some(x) = cells.next() {
        seen.push(x);
    }
    assert_eq!(seen, vec![1, 2, 3, 4]);
}

#[test]
fn capacity_reports_its_limit() {
    assert!(Capacity::Unlimited.is_unlimited());
    assert!(!Capacity::Unlimited.is_limited());
    assert_eq!(Capacity::Unlimited.limit(), None);
    assert!(Capacity::Limited(3).is_limited());
    assert_eq!(Capacity::Limited(3).limit(), Some(3));
}

#[test]
fn fixed_list_fills_every_slot_and_shifts_on_remove() {
    let mut list: FixedList<u8, 4> = FixedList::new_filled_with(vec![Some(1), None, Some(3)]);
    assert_eq!(list.len(), 4);
    assert_eq!(*list, [1, 0, 3, 0]);
    assert_eq!(list.max_capacity(), Capacity::Limited(4));
    assert_eq!(list.remove(0), 1);
    assert_eq!(*list, [0, 3, 0, 0]);
    assert_eq!(list.len(), 3);
    assert_eq!(list.get(4), None);
    *list.get_mut(1).unwrap() = 9;
    assert_eq!(list.get(1), Some(&9));
}

#[test]
fn fixed_list_insert_shifts_later_items_right() {
    let mut list: FixedList<u8, 4> = FixedList::new_filled_with(vec![Some(1), Some(2), Some(3), Some(4)]);
    assert_eq!(list.remove(3), 4);
    assert_eq!(list.remove(0), 1);
    assert_eq!((*list, list.len()), ([2, 3, 0, 0], 2));
    list.insert(0, 7);
    assert_eq!((*list, list.len()), ([7, 2, 3, 0], 3));
    list.insert(3, 8);
    assert_eq!((*list, list.len()), ([7, 2, 3, 8], 4));
    // A full list drops its last item to make room
    list.insert(1, 9);
    assert_eq!((*list, list.len()), ([7, 9, 2, 3], 4));
}

#[test]
fn dynamic_list_skips_empty_entries() {
    let mut list: DynamicList<u8> = DynamicList::new_filled_with(vec![Some(1), None, Some(3)]);
    assert_eq!(list.len(), 2);
    assert!(!list.is_empty());
    assert_eq!(list.max_capacity(), Capacity::Unlimited);
    list.insert(1, 2);
    assert_eq!(*list, vec![1, 2, 3]);
    assert_eq!(list.remove(0), 1);
    assert_eq!(list.into_vec(), vec![2, 3]);
}

#[test]
fn positions_order_by_row_then_column() {
    let a = Position::new(0, 5);
    let b = Position::new(1, 0);
    let c = Position::new(1, 2);
    assert_eq!(a.partial_cmp(&b), Some(Ordering::Less));
    assert_eq!(c.partial_cmp(&b), Some(Ordering::Greater));
    assert_eq!(b.partial_cmp(&b), Some(Ordering::Equal));
    assert!(a < c);
}

#[test]
fn items_of_exactly_one_array_make_the_array() {
    assert_eq!(array_from_items::<u8, 3>(vec![1, 2, 3]), Ok([1, 2, 3]));
    assert_eq!(array_from_items::<u8, 3>(vec![1, 2]), Err(2));
    assert_eq!(array_from_items::<u8, 3>(vec![1, 2, 3, 4]), Err(4));
}

#[test]
fn items_of_a_table_array_fill_it_row_by_row() {
    assert_eq!(
        table_array_from_items::<u8, 2, 3>(vec![1, 2, 3, 4, 5, 6]),
        Ok([[1, 2, 3], [4, 5, 6]])
    );
    assert_eq!(table_array_from_items::<u8, 2, 3>(vec![1, 2, 3, 4, 5]), Err(5));
    assert_eq!(table_array_from_items::<u8, 2, 3>(vec![1, 2, 3, 4, 5, 6, 7]), Err(7));
    assert_eq!(table_array_from_items::<u8, 0, 3>(vec![]), Ok([]));
}

#[test]
fn items_of_whole_arrays_make_a_vector_of_arrays() {
    assert_eq!(
        vec_array_from_items::<u8, 2>(vec![1, 2, 3, 4]),
        Ok(vec![[1, 2], [3, 4]])
    );
    assert_eq!(vec_array_from_items::<u8, 2>(vec![]), Ok(vec![]));
    assert_eq!(vec_array_from_items::<u8, 2>(vec![1, 2, 3]), Err(3));
}

#[test]
fn a_fixed_table_cell_can_be_read_replaced_and_read_again() {
    let mut table = FixedTable::from([[1, 2, 3], [4, 5, 6]]);
    assert_eq!(*table.index((1, 2)), 6);
    *table.index_mut((1, 2)) = 999;
    assert_eq!(*table.index((1, 2)), 999);
}

#[test]
fn a_table_equals_an_array_only_with_the_same_shape_and_cells() {
    let mut table = DynamicTable::from_array([[1, 2], [3, 4]]);
    assert!(table.eq_array(&[[1, 2], [3, 4]]));
    assert!(!table.eq_array(&[[1, 2], [3, 5]]));
    assert!(!table.eq_array(&[[1, 2]]));
    table.remove_cell(1, 1);
    assert!(!table.eq_array(&[[1, 2], [3, 4]]));

    let table = FixedColumnTable::from(vec![[1, 2, 3], [4, 5, 6]]);
    assert!(table.eq_array(&[[1, 2, 3], [4, 5, 6]]));
    assert!(!table.eq_array(&[[1, 2, 3], [4, 0, 6]]));
    assert!(!table.eq_array(&[[1, 2], [4, 5]]));
}

#[test]
fn a_fixed_table_gets_back_all_but_its_last_row_after_insert_and_remove() {
    let mut table = FixedTable::from([[1, 2], [3, 4]]);
    table.insert_row(0, vec![5, 6]);
    assert_eq!(*table.remove_row(0).unwrap(), [5, 6]);
    assert_eq!(grid(&table)[0], vec![Some(1), Some(2)]);

    let mut table = FixedTable::from([[1, 2], [3, 4]]);
    table.insert_column(0, vec![5, 6]);
    assert_eq!(*table.remove_column(0).unwrap(), [5, 6]);
    assert_eq!(table.get_cell(0, 0), Some(&1));
    assert_eq!(table.get_cell(1, 0), Some(&3));
}

#[test]
fn a_taking_iterator_can_be_read_from_where_it_stands() {
    let mut it = DynamicTable::from_array([[1, 2, 3], [4, 5, 6]]).into_row(0);
    assert_eq!(it.next(), Some(1));
    let mut rest = Row::from(&it);
    assert_eq!((rest.row(), rest.col()), (0, 1));
    assert_eq!(rest.next(), Some(&2));
    assert_eq!(rest.next(), Some(&3));
    assert_eq!(rest.next(), None);

    let mut it = DynamicTable::from_array([[1, 2], [3, 4]]).into_column(1);
    assert_eq!(it.next(), Some(2));
    let mut rest = Column::from(&it);
    assert_eq!(rest.next(), Some(&4));
    assert_eq!(rest.next(), None);

    let mut it = DynamicTable::from_array([[1, 2], [3, 4]]).into_cells();
    assert_eq!(it.next(), Some(1));
    assert_eq!(it.next(), Some(2));
    let mut rest = Cells::from(&it);
    assert_eq!(rest.next(), Some(&3));
    assert_eq!(rest.next(), Some(&4));
    assert_eq!(rest.next(), None);
}

fn at(row: usize, col: usize) -> Position {
    Position { row, col }
}

#[test]
fn fixed_tables_place_positioned_cells_over_defaults() {
    let table: FixedTable<u8, 2, 2> =
        FixedTable::from_positions(vec![(at(0, 1), 5), (at(3, 3), 9), (at(0, 1), 6)]);
    assert_eq!(grid(&table), vec![vec![Some(0), Some(6)], vec![Some(0), Some(0)]]);

    let table: FixedColumnTable<u8, 2> =
        FixedColumnTable::from_positions(vec![(at(2, 0), 1), (at(0, 1), 2), (at(1, 5), 3)]);
    assert_eq!((table.row_cnt(), table.col_cnt()), (3, 2));
    assert_eq!(
        grid(&table),
        vec![vec![Some(0), Some(2)], vec![Some(0), Some(0)], vec![Some(1), Some(0)]]
    );

    let table: FixedColumnMemTable<u8, 2> =
        FixedColumnMemTable::from_positions(vec![(at(1, 1), 4), (at(0, 7), 3)]);
    assert_eq!(table.row_cnt(), 2);
    assert_eq!(grid(&table), vec![vec![Some(0), Some(0)], vec![Some(0), Some(4)]]);

    let table: MemFixedRowTable<u8, 1> =
        MemFixedRowTable::from_positions(vec![(at(0, 2), 7), (at(1, 0), 1), (at(0, 0), 8)]);
    assert_eq!(table.col_cnt(), 3);
    assert_eq!(grid(&table), vec![vec![Some(8), Some(0), Some(7)]]);
}

#[test]
fn mem_fixed_row_table_widening_stretches_every_row() {
    let mut table: MemFixedRowTable<usize, 2> = MemFixedRowTable::new();
    assert_eq!(table.insert_cell(0, 0, 1), Some(0));
    assert_eq!(table.insert_cell(1, 0, 2), Some(0));
    assert_eq!(table.get_cell(1, 0), Some(&2));
    assert_eq!(table.get_cell(0, 0), Some(&1));

    let mut table = MemFixedRowTable::from([vec![1, 2], vec![3, 4]]);
    assert_eq!(*table.remove_row(0).unwrap(), [1, 2]);
    assert_eq!(grid(&table), vec![vec![Some(3), Some(4)], vec![Some(0), Some(0)]]);
}

#[test]
fn rows_counted_but_not_stored_read_as_missing() {
    let mut table = FixedColumnTable::<usize, 4>::new();
    table.set_row_capacity(2);
    table.set_column_capacity(2);
    assert_eq!((table.row_cnt(), table.col_cnt()), (2, 2));
    assert_eq!(table.get_cell(1, 1), None);
    let mut table = FixedColumnMemTable::<usize, 2>::new();
    table.set_row_capacity(5);
    assert_eq!(table.get_cell(2, 1), None);
    table.shrink_to_fit();
    assert_eq!(table.row_cnt(), 0);
}

#[test]
fn a_row_past_the_last_has_nothing_left() {
    let mut table = DynamicTable::new();
    table.push_row(vec![1, 2, 3]);
    let mut it = table.row(5);
    assert_eq!(it.size_hint(), (0, Some(0)));
    assert_eq!(it.next(), None);
    assert_eq!(table.column(7).size_hint(), (0, Some(0)));
    assert_eq!(table.row(0).size_hint(), (3, Some(3)));
}

#[test]
fn popping_a_column_keeps_the_other_cells() {
    let mut table = FixedColumnTable::from(vec![["a", "b", "c"], ["d", "e", "f"], ["g", "h", "i"]]);
    assert_eq!(*table.pop_column().unwrap(), vec!["c", "f", "i"]);
    assert!(table.eq_array(&[["a", "b"], ["d", "e"], ["g", "h"]]));
}
