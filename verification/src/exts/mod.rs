//! Extensions to tables: cells of mixed types, CSV text, and the keys of a
//! table kept in a key-value store
pub mod cell;
pub mod csv;
pub mod key;
pub mod prelude;
