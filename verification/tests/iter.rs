use memtable_core::iter::CellIter;
use memtable_core::{DynamicTable, Position, TableOps};

fn make_cells<T>(items: Vec<(usize, usize, T)>) -> Vec<(Position, T)> {
    items
        .into_iter()
        .map(|(row, col, x)| (Position { row, col }, x))
        .collect()
}

/// The items of a cell iterator up to its first `None`, copied out of their
/// references
fn collect_refs<'a, D: Copy + 'a, I: CellIter<&'a D>>(mut it: I) -> Vec<D> {
    let mut out = Vec::new();
    while let Some(x) = it.next() {
        out.push(*x);
    }
    out
}

/// The items of a cell iterator up to its first `None`
fn collect_owned<D, I: CellIter<D>>(mut it: I) -> Vec<D> {
    let mut out = Vec::new();
    while let Some(x) = it.next() {
        out.push(x);
    }
    out
}

#[test]
fn rows_next_should_return_next_row_if_available() {
    let table = DynamicTable::from_positions(make_cells(vec![(0, 0, "")]));

    let mut rows = table.rows();
    assert!(rows.next().is_some());
}

#[test]
fn rows_next_should_return_none_if_no_more_rows_available() {
    let table = DynamicTable::from_positions(make_cells(vec![(0, 0, "")]));

    let mut rows = table.rows();
    rows.next();
    assert!(rows.next().is_none());
}

#[test]
fn rows_size_hint_should_return_remaining_rows_as_both_bounds() {
    let table = DynamicTable::from_positions(make_cells(vec![(0, 0, "")]));

    let mut rows = table.rows();
    assert_eq!(rows.size_hint(), (1, Some(1)));

    rows.next();
    assert_eq!(rows.size_hint(), (0, Some(0)));
}

#[test]
fn row_zip_with_position_should_map_iter_to_include_cell_position() {
    let table = DynamicTable::from_positions(make_cells(vec![
        (0, 0, "a"),
        (0, 1, "b"),
        (1, 0, "c"),
        (1, 1, "d"),
        (2, 0, "e"),
        (2, 1, "f"),
    ]));

    let mut rows = table.rows();

    let mut row_0 = rows.next().unwrap().zip_with_position();
    assert_eq!(row_0.next().unwrap().0, Position { row: 0, col: 0 });
    assert_eq!(row_0.next().unwrap().0, Position { row: 0, col: 1 });

    let mut row_1 = rows.next().unwrap().zip_with_position();
    assert_eq!(row_1.next().unwrap().0, Position { row: 1, col: 0 });
    assert_eq!(row_1.next().unwrap().0, Position { row: 1, col: 1 });

    let mut row_2 = rows.next().unwrap().zip_with_position();
    assert_eq!(row_2.next().unwrap().0, Position { row: 2, col: 0 });
    assert_eq!(row_2.next().unwrap().0, Position { row: 2, col: 1 });
}

#[test]
fn row_should_iterator_through_appropriate_cells() {
    let table = DynamicTable::from_positions(make_cells(vec![
        (0, 0, "a"),
        (0, 1, "b"),
        (1, 0, "c"),
        (1, 1, "d"),
        (2, 0, "e"),
        (2, 1, "f"),
    ]));

    assert_eq!(
        collect_refs(table.row(1)),
        vec!["c", "d"]
    );
}

#[test]
fn row_next_should_return_next_cell_if_available() {
    let table = DynamicTable::from_positions(make_cells(vec![(0, 0, "")]));

    let mut row = table.row(0);
    assert!(row.next().is_some());
}

#[test]
fn row_next_should_return_none_if_no_more_cells_available() {
    let table = DynamicTable::from_positions(make_cells(vec![(0, 0, "")]));

    let mut row = table.row(0);
    row.next();
    assert!(row.next().is_none());
}

#[test]
fn row_size_hint_should_return_remaining_cells_as_both_bounds() {
    let table = DynamicTable::from_positions(make_cells(vec![(0, 0, "")]));

    let mut row = table.row(0);
    assert_eq!(row.size_hint(), (1, Some(1)));

    row.next();
    assert_eq!(row.size_hint(), (0, Some(0)));
}

#[test]
fn into_row_zip_with_position_should_map_iter_to_include_cell_position() {
    let table = DynamicTable::from_positions(make_cells(vec![
        (0, 0, "a"),
        (0, 1, "b"),
        (1, 0, "c"),
        (1, 1, "d"),
        (2, 0, "e"),
        (2, 1, "f"),
    ]));

    let mut row_0 = table.clone().into_row(0).zip_with_position();
    assert_eq!(row_0.next().unwrap().0, Position { row: 0, col: 0 });
    assert_eq!(row_0.next().unwrap().0, Position { row: 0, col: 1 });

    let mut row_1 = table.clone().into_row(1).zip_with_position();
    assert_eq!(row_1.next().unwrap().0, Position { row: 1, col: 0 });
    assert_eq!(row_1.next().unwrap().0, Position { row: 1, col: 1 });

    let mut row_2 = table.into_row(2).zip_with_position();
    assert_eq!(row_2.next().unwrap().0, Position { row: 2, col: 0 });
    assert_eq!(row_2.next().unwrap().0, Position { row: 2, col: 1 });
}

#[test]
fn into_row_should_iterator_through_appropriate_cells() {
    let table = DynamicTable::from_positions(make_cells(vec![
        (0, 0, "a"),
        (0, 1, "b"),
        (1, 0, "c"),
        (1, 1, "d"),
        (2, 0, "e"),
        (2, 1, "f"),
    ]));

    assert_eq!(
        collect_owned(table.into_row(1)),
        vec!["c", "d"]
    );
}

#[test]
fn into_row_next_should_return_next_cell_if_available() {
    let table = DynamicTable::from_positions(make_cells(vec![(0, 0, "")]));

    let mut row = table.into_row(0);
    assert!(row.next().is_some());
}

#[test]
fn into_row_next_should_return_none_if_no_more_cells_available() {
    let table = DynamicTable::from_positions(make_cells(vec![(0, 0, "")]));

    let mut row = table.into_row(0);
    row.next();
    assert!(row.next().is_none());
}

#[test]
fn into_row_size_hint_should_return_remaining_cells_as_both_bounds() {
    let table = DynamicTable::from_positions(make_cells(vec![(0, 0, "")]));

    let mut row = table.into_row(0);
    assert_eq!(row.size_hint(), (1, Some(1)));

    row.next();
    assert_eq!(row.size_hint(), (0, Some(0)));
}

#[test]
fn columns_next_should_return_next_column_if_available() {
    let table = DynamicTable::from_positions(make_cells(vec![(0, 0, "")]));

    let mut columns = table.columns();
    assert!(columns.next().is_some());
}

#[test]
fn columns_next_should_return_none_if_no_more_columns_available() {
    let table = DynamicTable::from_positions(make_cells(vec![(0, 0, "")]));

    let mut columns = table.columns();
    columns.next();
    assert!(columns.next().is_none());
}

#[test]
fn columns_size_hint_should_return_remaining_columns_as_both_bounds() {
    let table = DynamicTable::from_positions(make_cells(vec![(0, 0, "")]));

    let mut columns = table.columns();
    assert_eq!(columns.size_hint(), (1, Some(1)));

    columns.next();
    assert_eq!(columns.size_hint(), (0, Some(0)));
}

#[test]
fn column_zip_with_position_should_map_iter_to_include_cell_position() {
    let table = DynamicTable::from_positions(make_cells(vec![
        (0, 0, "a"),
        (0, 1, "b"),
        (0, 2, "c"),
        (1, 0, "d"),
        (1, 1, "e"),
        (1, 2, "f"),
    ]));

    let mut columns = table.columns();

    let mut column_0 = columns.next().unwrap().zip_with_position();
    assert_eq!(column_0.next().unwrap().0, Position { row: 0, col: 0 });
    assert_eq!(column_0.next().unwrap().0, Position { row: 1, col: 0 });

    let mut column_1 = columns.next().unwrap().zip_with_position();
    assert_eq!(column_1.next().unwrap().0, Position { row: 0, col: 1 });
    assert_eq!(column_1.next().unwrap().0, Position { row: 1, col: 1 });

    let mut column_2 = columns.next().unwrap().zip_with_position();
    assert_eq!(column_2.next().unwrap().0, Position { row: 0, col: 2 });
    assert_eq!(column_2.next().unwrap().0, Position { row: 1, col: 2 });
}

#[test]
fn column_should_iterator_through_appropriate_cells() {
    let table = DynamicTable::from_positions(make_cells(vec![
        (0, 0, "a"),
        (0, 1, "b"),
        (0, 2, "c"),
        (1, 0, "d"),
        (1, 1, "e"),
        (1, 2, "f"),
    ]));

    assert_eq!(
        collect_refs(table.column(1)),
        vec!["b", "e"]
    );
}

#[test]
fn column_next_should_return_next_cell_if_available() {
    let table = DynamicTable::from_positions(make_cells(vec![(0, 0, "")]));

    let mut column = table.column(0);
    assert!(column.next().is_some());
}

#[test]
fn column_next_should_return_none_if_no_more_cells_available() {
    let table = DynamicTable::from_positions(make_cells(vec![(0, 0, "")]));

    let mut column = table.column(0);
    column.next();
    assert!(column.next().is_none());
}

#[test]
fn column_size_hint_should_return_remaining_cells_as_both_bounds() {
    let table = DynamicTable::from_positions(make_cells(vec![(0, 0, "")]));

    let mut column = table.column(0);
    assert_eq!(column.size_hint(), (1, Some(1)));

    column.next();
    assert_eq!(column.size_hint(), (0, Some(0)));
}

#[test]
fn into_column_zip_with_position_should_map_iter_to_include_cell_position() {
    let table = DynamicTable::from_positions(make_cells(vec![
        (0, 0, "a"),
        (0, 1, "b"),
        (0, 2, "c"),
        (1, 0, "d"),
        (1, 1, "e"),
        (1, 2, "f"),
    ]));

    let mut column_0 = table.clone().into_column(0).zip_with_position();
    assert_eq!(column_0.next().unwrap().0, Position { row: 0, col: 0 });
    assert_eq!(column_0.next().unwrap().0, Position { row: 1, col: 0 });

    let mut column_1 = table.clone().into_column(1).zip_with_position();
    assert_eq!(column_1.next().unwrap().0, Position { row: 0, col: 1 });
    assert_eq!(column_1.next().unwrap().0, Position { row: 1, col: 1 });

    let mut column_2 = table.into_column(2).zip_with_position();
    assert_eq!(column_2.next().unwrap().0, Position { row: 0, col: 2 });
    assert_eq!(column_2.next().unwrap().0, Position { row: 1, col: 2 });
}

#[test]
fn into_column_should_iterator_through_appropriate_cells() {
    let table = DynamicTable::from_positions(make_cells(vec![
        (0, 0, "a"),
        (0, 1, "b"),
        (0, 2, "c"),
        (1, 0, "d"),
        (1, 1, "e"),
        (1, 2, "f"),
    ]));

    assert_eq!(
        collect_owned(table.into_column(1)),
        vec!["b", "e"]
    );
}

#[test]
fn into_column_next_should_return_next_cell_if_available() {
    let table = DynamicTable::from_positions(make_cells(vec![(0, 0, "")]));

    let mut column = table.into_column(0);
    assert!(column.next().is_some());
}

#[test]
fn into_column_next_should_return_none_if_no_more_cells_available() {
    let table = DynamicTable::from_positions(make_cells(vec![(0, 0, "")]));

    let mut column = table.into_column(0);
    column.next();
    assert!(column.next().is_none());
}

#[test]
fn into_column_size_hint_should_return_remaining_cells_as_both_bounds() {
    let table = DynamicTable::from_positions(make_cells(vec![(0, 0, "")]));

    let mut column = table.into_column(0);
    assert_eq!(column.size_hint(), (1, Some(1)));

    column.next();
    assert_eq!(column.size_hint(), (0, Some(0)));
}

#[test]
fn cells_zip_with_position_should_map_iter_to_include_cell_position() {
    let table = DynamicTable::from_positions(make_cells(vec![
        (0, 0, "a"),
        (0, 1, "b"),
        (0, 2, "c"),
        (1, 0, "d"),
        (1, 1, "e"),
        (1, 2, "f"),
    ]));

    let mut cells = table.cells().zip_with_position();
    assert_eq!(cells.next().unwrap().0, Position { row: 0, col: 0 });
    assert_eq!(cells.next().unwrap().0, Position { row: 0, col: 1 });
    assert_eq!(cells.next().unwrap().0, Position { row: 0, col: 2 });
    assert_eq!(cells.next().unwrap().0, Position { row: 1, col: 0 });
    assert_eq!(cells.next().unwrap().0, Position { row: 1, col: 1 });
    assert_eq!(cells.next().unwrap().0, Position { row: 1, col: 2 });
}

#[test]
fn cells_should_iterator_through_appropriate_cells() {
    let table = DynamicTable::from_positions(make_cells(vec![
        (0, 0, "a"),
        (0, 1, "b"),
        (0, 2, "c"),
        (1, 0, "d"),
        (1, 1, "e"),
        (1, 2, "f"),
    ]));

    assert_eq!(
        collect_refs(table.cells()),
        vec!["a", "b", "c", "d", "e", "f"]
    );
}

#[test]
fn cells_next_should_return_next_cell_if_available() {
    let table = DynamicTable::from_positions(make_cells(vec![(0, 0, "")]));

    let mut cells = table.cells();
    assert!(cells.next().is_some());
}

#[test]
fn cells_next_should_return_none_if_no_more_cells_available() {
    let table = DynamicTable::from_positions(make_cells(vec![(0, 0, "")]));

    let mut cells = table.cells();
    cells.next();
    assert!(cells.next().is_none());
}

#[test]
fn cells_size_hint_should_return_remaining_cells_as_both_bounds() {
    let table = DynamicTable::from_positions(make_cells(vec![(0, 0, "")]));

    let mut cells = table.cells();
    assert_eq!(cells.size_hint(), (1, Some(1)));

    cells.next();
    assert_eq!(cells.size_hint(), (0, Some(0)));
}

#[test]
fn into_cells_zip_with_position_should_map_iter_to_include_cell_position() {
    let table = DynamicTable::from_positions(make_cells(vec![
        (0, 0, "a"),
        (0, 1, "b"),
        (0, 2, "c"),
        (1, 0, "d"),
        (1, 1, "e"),
        (1, 2, "f"),
    ]));

    let mut cells = table.into_cells().zip_with_position();
    assert_eq!(cells.next().unwrap().0, Position { row: 0, col: 0 });
    assert_eq!(cells.next().unwrap().0, Position { row: 0, col: 1 });
    assert_eq!(cells.next().unwrap().0, Position { row: 0, col: 2 });
    assert_eq!(cells.next().unwrap().0, Position { row: 1, col: 0 });
    assert_eq!(cells.next().unwrap().0, Position { row: 1, col: 1 });
    assert_eq!(cells.next().unwrap().0, Position { row: 1, col: 2 });
}

#[test]
fn into_cells_should_iterator_through_all_cells() {
    let table = DynamicTable::from_positions(make_cells(vec![
        (0, 0, "a"),
        (0, 1, "b"),
        (0, 2, "c"),
        (1, 0, "d"),
        (1, 1, "e"),
        (1, 2, "f"),
    ]));

    assert_eq!(
        collect_owned(table.into_cells()),
        vec!["a", "b", "c", "d", "e", "f"]
    );
}

#[test]
fn into_cells_next_should_return_next_cell_if_available() {
    let table = DynamicTable::from_positions(make_cells(vec![(0, 0, "")]));

    let mut cells = table.into_cells();
    assert!(cells.next().is_some());
}

#[test]
fn into_cells_next_should_return_none_if_no_more_cells_available() {
    let table = DynamicTable::from_positions(make_cells(vec![(0, 0, "")]));

    let mut cells = table.into_cells();
    cells.next();
    assert!(cells.next().is_none());
}

#[test]
fn into_cells_size_hint_should_return_remaining_cells_as_both_bounds() {
    let table = DynamicTable::from_positions(make_cells(vec![(0, 0, "")]));

    let mut cells = table.into_cells();
    assert_eq!(cells.size_hint(), (1, Some(1)));

    cells.next();
    assert_eq!(cells.size_hint(), (0, Some(0)));
}

