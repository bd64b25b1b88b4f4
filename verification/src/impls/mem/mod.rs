mod fixed;

pub use fixed::MemFixedRowTable;
