mod col;
mod dynamic;
mod fixed;
mod mem;

pub use col::FixedColumnTable;
pub use dynamic::DynamicTable;
pub use fixed::{FixedColumnMemTable, FixedTable};
pub use mem::MemFixedRowTable;
