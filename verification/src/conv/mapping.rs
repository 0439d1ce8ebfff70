//! Default pairings between Rust types and OCaml types.

use crate::mlvalues::{OCamlBytes, OCamlInt32, OCamlInt64, OCamlList};
use vstd::prelude::*;

verus! {

/// The OCaml type a Rust type converts to by default.
pub trait DefaultOCamlMapping {
    /// The default OCaml type that this Rust type maps to.
    type OCamlType;
}

/// The Rust type an OCaml type converts to by default.
pub trait DefaultRustMapping {
    /// The default Rust type that this OCaml type maps to.
    type RustType;
}

impl DefaultOCamlMapping for i64 {
    type OCamlType = OCamlInt64;
}

impl DefaultRustMapping for OCamlInt64 {
    type RustType = i64;
}

impl DefaultOCamlMapping for i32 {
    type OCamlType = OCamlInt32;
}

impl DefaultRustMapping for OCamlInt32 {
    type RustType = i32;
}

impl DefaultOCamlMapping for String {
    type OCamlType = String;
}

impl DefaultRustMapping for String {
    type RustType = String;
}

impl DefaultOCamlMapping for bool {
    type OCamlType = bool;
}

impl DefaultRustMapping for bool {
    type RustType = bool;
}

impl DefaultOCamlMapping for () {
    type OCamlType = ();
}

impl DefaultRustMapping for () {
    type RustType = ();
}

impl DefaultOCamlMapping for Box<[u8]> {
    type OCamlType = OCamlBytes;
}

impl DefaultRustMapping for OCamlBytes {
    type RustType = Box<[u8]>;
}

impl<'a, T: DefaultOCamlMapping> DefaultOCamlMapping for &'a T {
    type OCamlType = T::OCamlType;
}

impl<A, B, OA, OB> DefaultOCamlMapping for (A, B) where
    A: DefaultOCamlMapping<OCamlType = OA>,
    B: DefaultOCamlMapping<OCamlType = OB>,
 {
    type OCamlType = (OA, OB);
}

impl<A, B, OA, OB> DefaultRustMapping for (OA, OB) where
    OA: DefaultRustMapping<RustType = A>,
    OB: DefaultRustMapping<RustType = B>,
 {
    type RustType = (A, B);
}

impl<A, B, C, OA, OB, OC> DefaultOCamlMapping for (A, B, C) where
    A: DefaultOCamlMapping<OCamlType = OA>,
    B: DefaultOCamlMapping<OCamlType = OB>,
    C: DefaultOCamlMapping<OCamlType = OC>,
 {
    type OCamlType = (OA, OB, OC);
}

impl<A, B, C, OA, OB, OC> DefaultRustMapping for (OA, OB, OC) where
    OA: DefaultRustMapping<RustType = A>,
    OB: DefaultRustMapping<RustType = B>,
    OC: DefaultRustMapping<RustType = C>,
 {
    type RustType = (A, B, C);
}

impl<T: DefaultOCamlMapping> DefaultOCamlMapping for Box<T> {
    type OCamlType = T::OCamlType;
}

impl<T: DefaultOCamlMapping> DefaultOCamlMapping for Option<T> {
    type OCamlType = Option<T::OCamlType>;
}

impl<T: DefaultOCamlMapping, E: DefaultOCamlMapping> DefaultOCamlMapping for Result<T, E> {
    type OCamlType = Result<T::OCamlType, E::OCamlType>;
}

impl<T: DefaultOCamlMapping> DefaultOCamlMapping for Vec<T> {
    type OCamlType = OCamlList<T::OCamlType>;
}

impl<T: DefaultRustMapping> DefaultRustMapping for Option<T> {
    type RustType = Option<T::RustType>;
}

impl<T: DefaultRustMapping, E: DefaultRustMapping> DefaultRustMapping for Result<T, E> {
    type RustType = Result<T::RustType, E::RustType>;
}

impl<T: DefaultRustMapping> DefaultRustMapping for OCamlList<T> {
    type RustType = Vec<T::RustType>;
}

} // verus!
