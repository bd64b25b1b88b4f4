mod mut_ref_or_owned;
mod ref_or_owned;

pub use mut_ref_or_owned::MutRefOrOwned;
pub use ref_or_owned::RefOrOwned;
