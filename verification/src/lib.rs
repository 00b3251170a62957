//! Fallible bulk construction of slices inside a bump arena: build a slice
//! of `len` elements from a per-index constructor or from a sequence of
//! ready outcomes, stop at the first failure and hand it back unchanged,
//! and expose the memory as a typed slice only once it is fully
//! initialized.

pub mod arena;
pub mod fill;
pub mod laws;

pub use fill::BumpaloExtend;
