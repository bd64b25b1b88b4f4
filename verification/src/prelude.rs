//! The one-stop import of the traits and common structs of this library:
//! the tables, the [`Table`] and [`TableOps`] traits, the [`CellIter`]
//! trait of the iterators over cells, and the lists that hold rows and
//! columns
pub use crate::impls::{DynamicTable, FixedColumnTable, FixedTable};
pub use crate::iter::CellIter;
pub use crate::list::{Capacity, DynamicList, FixedList, List};
pub use crate::{Table, TableOps};
