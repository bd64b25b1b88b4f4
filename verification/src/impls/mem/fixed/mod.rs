mod row;

pub use row::MemFixedRowTable;
