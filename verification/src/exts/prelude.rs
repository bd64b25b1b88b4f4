//! The cells of [`crate::exts::cell`], each able to hold one of several
//! types, in one import
pub use crate::exts::cell::{
    Cell2, Cell3, Cell4, Cell5, Cell6, Cell7, Cell8, Cell9, Cell10, Cell11, Cell12, Cell13,
    Cell14, Cell15, Cell16, Cell17, Cell18, Cell19, Cell20, Cell21, Cell22, Cell23, Cell24,
    Cell25, Cell26,
};
