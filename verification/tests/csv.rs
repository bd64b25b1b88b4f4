use memtable_core::exts::csv::{from_csv_bytes, from_csv_str, to_csv_bytes, to_csv_str, CsvError};
use memtable_core::{DynamicTable, FixedTable, Table, TableOps};

#[test]
fn from_csv_str_should_convert_into_table() {
    let table = from_csv_str("a,b,c\nd,e,f\n").unwrap();

    assert_eq!(table.row_cnt(), 2);
    assert_eq!(table.col_cnt(), 3);
    assert_eq!(table.index((0, 0)), "a");
    assert_eq!(table.index((0, 1)), "b");
    assert_eq!(table.index((0, 2)), "c");
    assert_eq!(table.index((1, 0)), "d");
    assert_eq!(table.index((1, 1)), "e");
    assert_eq!(table.index((1, 2)), "f");
}

#[test]
fn from_csv_bytes_reads_quoted_fields() {
    let table = from_csv_bytes(b"\"a,1\",b\n\"say \"\"hi\"\"\",c\n").unwrap();
    assert_eq!(table.row_cnt(), 2);
    assert_eq!(table.col_cnt(), 2);
    assert_eq!(table.index((0, 0)), "a,1");
    assert_eq!(table.index((1, 0)), "say \"hi\"");
    assert_eq!(table.index((1, 1)), "c");
}

#[test]
fn from_csv_str_refuses_records_of_different_lengths() {
    match from_csv_str("a,b\nc\n") {
        Err(CsvError::Read(_)) => {}
        other => panic!("expected a read error, got {:?}", other.map(|t| t.row_cnt())),
    }
}

#[test]
fn from_csv_str_of_nothing_is_an_empty_table() {
    let table = from_csv_str("").unwrap();
    assert_eq!(table.row_cnt(), 0);
    assert_eq!(table.col_cnt(), 0);
}

#[test]
fn to_csv_str_should_convert_into_csv() {
    let mut table: DynamicTable<String> = DynamicTable::new();
    table.push_row(vec![String::from("a"), String::from("b"), String::from("c")]);
    table.push_row(vec![String::from("d"), String::from("e"), String::from("f")]);
    assert_eq!(to_csv_str(&table).unwrap(), "a,b,c\nd,e,f\n");
}

#[test]
fn to_csv_bytes_quotes_fields_that_need_it() {
    let table = FixedTable::from([[String::from("a,1"), String::from("b")]]);
    assert_eq!(to_csv_bytes(&table).unwrap(), b"\"a,1\",b\n".to_vec());
}

#[test]
fn to_csv_refuses_rows_of_different_lengths() {
    let mut table: DynamicTable<String> = DynamicTable::new();
    table.push_row(vec![String::from("a"), String::from("b")]);
    table.push_row(vec![String::from("c")]);
    match to_csv_str(&table) {
        Err(CsvError::Write(_)) => {}
        other => panic!("expected a write error, got {:?}", other),
    }
}

#[test]
fn csv_text_read_back_gives_the_same_table() {
    let table = from_csv_str("x,y\n1,2\n").unwrap();
    let text = to_csv_str(&table).unwrap();
    assert_eq!(text, "x,y\n1,2\n");
    let again = from_csv_str(&text).unwrap();
    assert_eq!(again.row_cnt(), 2);
    assert_eq!(again.index((1, 1)), "2");
}
