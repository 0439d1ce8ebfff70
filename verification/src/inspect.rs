//! Inspection of OCaml values: what a value looks like in the heap, as a
//! tree of [`ValueRepr`] nodes, and its rendering as text.

pub mod inspector;
pub mod value_repr;

pub use crate::inspect::inspector::{inspect_raw_value, ValueInspector};
pub use crate::inspect::value_repr::ValueRepr;
