//! A model of the OCaml value representation and of the conversions between
//! Rust and OCaml values, with verified contracts.

pub mod mlvalues;

pub use crate::mlvalues::{
    bigarray, tag, DynBox, OCamlBytes, OCamlException, OCamlFloat, OCamlFloatArray, OCamlInt,
    OCamlInt32, OCamlInt64, OCamlList, OCamlUniformArray, RawOCaml,
};
pub mod runtime;
pub mod text;
pub mod inspect;
pub mod closure;
pub mod caller;
pub mod exports;
pub mod describe;
pub mod derive;
pub mod dune;
pub mod polyvar;
pub use crate::runtime::OCamlRuntime;
pub mod error;
pub mod value;
pub use crate::value::OCaml;
pub mod memory;
pub mod boxroot;
pub use crate::boxroot::BoxRoot;
pub mod conv;
pub use crate::conv::{FromOCaml, OCamlRepr, ToOCaml};
pub use crate::memory::{alloc_cons as cons, alloc_error, alloc_ok, OCamlCell, OCamlRef};
