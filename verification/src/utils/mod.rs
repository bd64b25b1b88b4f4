use vstd::prelude::*;

pub mod de;
pub mod make;
pub mod owned;

pub use make::{
    default_array, default_table_array, make_array, make_table_array, try_make_array,
    try_make_table_array, succeeds_at, succeeds_at2, first_failure_at, first_failure_at2,
};
pub use de::{array_from_items, table_array_from_items, vec_array_from_items};
pub use owned::{MutRefOrOwned, RefOrOwned};
