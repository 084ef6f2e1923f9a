//! Building blocks: a fixed-length array builder and handles to static data.
pub mod const_array;
pub mod static_ref;

pub use const_array::{ConcatPreArray, ConstArrayBuilder, PreArray};
pub use static_ref::{StaticRef, StaticRefMut};
