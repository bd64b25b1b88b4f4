use memtable_core::utils::{
    default_array, default_table_array, make_array, make_table_array, try_make_array,
    try_make_table_array,
};
use std::convert::Infallible;

#[derive(Debug, PartialEq, Eq)]
struct MyField(u8);

impl Default for MyField {
    fn default() -> Self {
        Self(123)
    }
}

#[derive(Debug, PartialEq, Eq)]
struct ComplexObj {
    idx: usize,
    // Heap allocation via Vec<u8> underneath
    text: String,
    // Heap allocation via Box<...>
    box_str: Box<&'static str>,
}

impl ComplexObj {
    pub fn new(idx: usize, text: impl Into<String>, box_str: impl Into<Box<&'static str>>) -> Self {
        Self {
            idx,
            text: text.into(),
            box_str: box_str.into(),
        }
    }
}

#[derive(Debug, PartialEq, Eq)]
struct ComplexCell {
    row: usize,
    col: usize,
    // Heap allocation via Vec<u8> underneath
    text: String,
    // Heap allocation via Box<...>
    box_str: Box<&'static str>,
}

impl ComplexCell {
    pub fn new(
        row: usize,
        col: usize,
        text: impl Into<String>,
        box_str: impl Into<Box<&'static str>>,
    ) -> Self {
        Self {
            row,
            col,
            text: text.into(),
            box_str: box_str.into(),
        }
    }
}

#[test]
fn try_make_array_should_correctly_initialize_if_all_element_calls_succeed() {
    let arr: Result<[String; 2], Infallible> = try_make_array(|i| Ok(format!("{}", i)));
    let arr = arr.unwrap();
    assert_eq!(arr[0], "0");
    assert_eq!(arr[1], "1");
}

#[test]
fn try_make_array_should_correctly_deallocate_if_an_element_call_fails() {
    let arr: Result<[String; 2], &'static str> = try_make_array(|i| {
        if i == 0 {
            Ok(format!("{}", i))
        } else {
            Err("Failure!")
        }
    });
    assert_eq!(arr.unwrap_err(), "Failure!");
}

#[test]
fn try_make_array_should_support_complex_objects_with_heap_allocations() {
    let arr: Result<[ComplexObj; 3], Infallible> =
        try_make_array(|idx| Ok(ComplexObj::new(idx, format!("{}", idx), "complex")));
    let arr = arr.unwrap();
    assert_eq!(arr[0], ComplexObj::new(0, "0", "complex"));
    assert_eq!(arr[1], ComplexObj::new(1, "1", "complex"));
    assert_eq!(arr[2], ComplexObj::new(2, "2", "complex"));
}

#[test]
fn try_make_array_should_support_deallocating_complex_objects_on_failure() {
    let arr: Result<[ComplexObj; 3], &'static str> = try_make_array(|idx| {
        if idx == 1 {
            Err("Failure!")
        } else {
            Ok(ComplexObj::new(idx, format!("{}", idx), "complex"))
        }
    });
    assert_eq!(arr.unwrap_err(), "Failure!");
}

#[test]
fn make_array_should_correctly_initialize() {
    let arr: [String; 2] = make_array(|i| format!("{}", i));
    assert_eq!(arr[0], "0");
    assert_eq!(arr[1], "1");
}

#[test]
fn default_array_should_correctly_initialize() {
    let arr: [MyField; 2] = default_array();
    assert_eq!(arr[0], MyField(123));
    assert_eq!(arr[1], MyField(123));
}

#[test]
fn try_make_table_array_should_correctly_initialize_if_all_element_calls_succeed() {
    let arr: Result<[[String; 3]; 2], Infallible> =
        try_make_table_array(|row, col| Ok(format!("{},{}", row, col)));
    let arr = arr.unwrap();
    assert_eq!(arr[0][0], "0,0");
    assert_eq!(arr[0][1], "0,1");
    assert_eq!(arr[0][2], "0,2");
    assert_eq!(arr[1][0], "1,0");
    assert_eq!(arr[1][1], "1,1");
    assert_eq!(arr[1][2], "1,2");
}

#[test]
fn try_make_table_array_should_correctly_deallocate_if_an_element_call_fails() {
    let arr: Result<[[String; 3]; 2], &'static str> = try_make_table_array(|row, col| {
        if row == 1 && col == 1 {
            Err("Failure!")
        } else {
            Ok(format!("{},{}", row, col))
        }
    });
    assert_eq!(arr.unwrap_err(), "Failure!");
}

#[test]
fn try_make_table_array_should_support_complex_objects_with_heap_allocations() {
    let arr: Result<[[ComplexCell; 3]; 2], Infallible> = try_make_table_array(|row, col| {
        Ok(ComplexCell::new(
            row,
            col,
            format!("{},{}", row, col),
            "complex",
        ))
    });
    let arr = arr.unwrap();
    assert_eq!(arr[0][0], ComplexCell::new(0, 0, "0,0", "complex"));
    assert_eq!(arr[0][1], ComplexCell::new(0, 1, "0,1", "complex"));
    assert_eq!(arr[0][2], ComplexCell::new(0, 2, "0,2", "complex"));
    assert_eq!(arr[1][0], ComplexCell::new(1, 0, "1,0", "complex"));
    assert_eq!(arr[1][1], ComplexCell::new(1, 1, "1,1", "complex"));
    assert_eq!(arr[1][2], ComplexCell::new(1, 2, "1,2", "complex"));
}

#[test]
fn try_make_table_array_should_support_deallocating_complex_objects_on_failure() {
    let arr: Result<[[ComplexCell; 3]; 2], &'static str> = try_make_table_array(|row, col| {
        if row == 1 && col == 1 {
            Err("Failure!")
        } else {
            Ok(ComplexCell::new(
                row,
                col,
                format!("{},{}", row, col),
                "complex",
            ))
        }
    });
    assert_eq!(arr.unwrap_err(), "Failure!");
}

#[test]
fn table_array_make_table_array_should_correctly_initialize() {
    let arr: [[String; 3]; 2] = make_table_array(|row, col| format!("{},{}", row, col));
    assert_eq!(arr[0][0], "0,0");
    assert_eq!(arr[0][1], "0,1");
    assert_eq!(arr[0][2], "0,2");
    assert_eq!(arr[1][0], "1,0");
    assert_eq!(arr[1][1], "1,1");
    assert_eq!(arr[1][2], "1,2");
}

#[test]
fn table_array_default_table_array_should_correctly_initialize() {
    let arr: [[MyField; 3]; 2] = default_table_array();
    assert_eq!(arr[0][0], MyField(123));
    assert_eq!(arr[0][1], MyField(123));
    assert_eq!(arr[0][2], MyField(123));
    assert_eq!(arr[1][0], MyField(123));
    assert_eq!(arr[1][1], MyField(123));
    assert_eq!(arr[1][2], MyField(123));
}

#[test]
fn utils_make_table_array_should_correctly_initialize() {
    let arr: [[String; 3]; 2] = make_table_array(|row, col| format!("{},{}", row, col));
    assert_eq!(arr[0][0], "0,0");
    assert_eq!(arr[0][1], "0,1");
    assert_eq!(arr[0][2], "0,2");
    assert_eq!(arr[1][0], "1,0");
    assert_eq!(arr[1][1], "1,1");
    assert_eq!(arr[1][2], "1,2");
}

#[test]
fn utils_default_table_array_should_correctly_initialize() {
    let arr: [[MyField; 3]; 2] = default_table_array();
    assert_eq!(arr[0][0], MyField(123));
    assert_eq!(arr[0][1], MyField(123));
    assert_eq!(arr[0][2], MyField(123));
    assert_eq!(arr[1][0], MyField(123));
    assert_eq!(arr[1][1], MyField(123));
    assert_eq!(arr[1][2], MyField(123));
}
