use memtable_core::exts::cell::{Cell2, Cell26, Cell3};
use memtable_core::exts::prelude::Cell4;
use memtable_core::{DynamicTable, Table};

#[test]
fn cell_tells_which_variant_it_holds() {
    let a: Cell2<u8, bool> = Cell2::A(3);
    let b: Cell2<u8, bool> = Cell2::B(true);
    assert!(a.is_a());
    assert!(!a.is_b());
    assert!(b.is_b());
    assert!(!b.is_a());
}

#[test]
fn cell_gives_back_the_value_of_its_variant_only() {
    let c: Cell3<u8, bool, char> = Cell3::C('x');
    assert_eq!(c.as_c(), Some(&'x'));
    assert_eq!(c.as_a(), None);
    assert_eq!(c.into_c(), Some('x'));
    assert_eq!(c.into_b(), None);
}

#[test]
fn cell_mutable_reference_changes_the_value() {
    let mut d: Cell4<u8, u16, u32, u64> = Cell4::D(1);
    if let Some(x) = d.as_mut_d() {
        *x = 42;
    }
    assert_eq!(d, Cell4::D(42));
    assert!(d.as_mut_a().is_none());
    assert_eq!(d, Cell4::D(42));
}

#[test]
fn cell_with_many_types_reaches_its_last_variant() {
    type Big = Cell26<u8, u8, u8, u8, u8, u8, u8, u8, u8, u8, u8, u8, u8, u8, u8, u8, u8, u8, u8, u8, u8, u8, u8, u8, u8, u8>;
    let z: Big = Cell26::Z(7);
    assert!(z.is_z());
    assert!(!z.is_y());
    assert_eq!(z.into_z(), Some(7));
}

#[test]
fn table_holds_cells_of_mixed_types() {
    let mut table: DynamicTable<Cell2<String, bool>> = DynamicTable::new();
    table.insert_cell(0, 0, Cell2::A(String::from("yes")));
    table.insert_cell(0, 1, Cell2::B(true));
    assert_eq!(table.get_cell(0, 0).and_then(|c| c.as_a()).map(|s| s.as_str()), Some("yes"));
    assert_eq!(table.get_cell(0, 1).and_then(|c| c.as_b()), Some(&true));
    assert!(table.get_cell(0, 1).map(|c| c.is_b()).unwrap_or(false));
}
