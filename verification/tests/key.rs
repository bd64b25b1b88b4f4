use memtable_core::exts::key::make_cell_key;

#[test]
fn cell_key_holds_the_row_then_the_column_most_significant_byte_first() {
    let key = make_cell_key(1, 258);
    let width = std::mem::size_of::<usize>();
    assert_eq!(key.len(), 2 * width);
    let mut expected = Vec::new();
    expected.extend(&1usize.to_be_bytes());
    expected.extend(&258usize.to_be_bytes());
    assert_eq!(key, expected);
    assert_eq!(key[width - 1], 1);
    assert_eq!(key[2 * width - 2], 1);
    assert_eq!(key[2 * width - 1], 2);
}

#[test]
fn cell_keys_of_different_positions_differ() {
    assert_ne!(make_cell_key(0, 1), make_cell_key(1, 0));
    assert_eq!(make_cell_key(usize::MAX, 0)[0], 0xff);
}
