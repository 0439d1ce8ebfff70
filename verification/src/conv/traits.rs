//! Conversion traits seen from the OCaml value, or from the OCaml type.

use crate::conv::{FromOCaml, OCamlRepr, ToOCaml};
use crate::runtime::{heap_extends, valid_value, BlockModel, OCamlRuntime};
use crate::value::OCaml;
use vstd::prelude::*;

verus! {

/// Conversion of an OCaml value into a Rust value, consuming the handle.
pub trait IntoRust<T>: Sized {
    /// The heaps in which the conversion can read this value.
    spec fn into_rust_accepts(&self, h: Seq<BlockModel>) -> bool;

    /// The Rust values this value reads as in heap `h`.
    spec fn into_rust_reads(&self, h: Seq<BlockModel>, r: T) -> bool;

    /// Convert into a Rust value.
    fn into_rust(self, cr: &OCamlRuntime) -> (r: T)
        requires
            cr.wf(),
            self.into_rust_accepts(cr@),
        ensures
            self.into_rust_reads(cr@, r),
    ;
}

impl<OT: OCamlRepr, RT: FromOCaml<OT>> IntoRust<RT> for OCaml<OT> {
    open spec fn into_rust_accepts(&self, h: Seq<BlockModel>) -> bool {
        valid_value(h, self@) && RT::accepts(h, self@)
    }

    open spec fn into_rust_reads(&self, h: Seq<BlockModel>, r: RT) -> bool {
        RT::reads_as(h, self@, r)
    }

    fn into_rust(self, cr: &OCamlRuntime) -> (r: RT) {
        RT::from_ocaml(cr, self)
    }
}

/// Conversion of an OCaml value into a Rust value, by reference.
pub trait ToRust<T>: Sized {
    /// The heaps in which the conversion can read this value.
    spec fn to_rust_accepts(&self, h: Seq<BlockModel>) -> bool;

    /// The Rust values this value reads as in heap `h`.
    spec fn to_rust_reads(&self, h: Seq<BlockModel>, r: T) -> bool;

    /// Convert into a Rust value.
    fn to_rust(&self, cr: &OCamlRuntime) -> (r: T)
        requires
            cr.wf(),
            self.to_rust_accepts(cr@),
        ensures
            self.to_rust_reads(cr@, r),
    ;
}

impl<OT: OCamlRepr, RT: FromOCaml<OT>> ToRust<RT> for OCaml<OT> {
    open spec fn to_rust_accepts(&self, h: Seq<BlockModel>) -> bool {
        valid_value(h, self@) && RT::accepts(h, self@)
    }

    open spec fn to_rust_reads(&self, h: Seq<BlockModel>, r: RT) -> bool {
        RT::reads_as(h, self@, r)
    }

    fn to_rust(&self, cr: &OCamlRuntime) -> (r: RT) {
        RT::from_ocaml(cr, *self)
    }
}

/// Conversion from the point of view of the OCaml type: an OCaml type that
/// converts to the Rust type `RustT`.
pub trait OCamlToRust<RustT>: Sized {
    /// The values of heap `h` the conversion can read.
    spec fn ocaml_to_rust_accepts(h: Seq<BlockModel>, raw: crate::mlvalues::RawOCaml) -> bool;

    /// The Rust values `raw` reads as in heap `h`.
    spec fn ocaml_to_rust_reads(
        h: Seq<BlockModel>,
        raw: crate::mlvalues::RawOCaml,
        r: RustT,
    ) -> bool;

    /// Convert to Rust value.
    fn ocaml_to_rust(cr: &OCamlRuntime, v: OCaml<Self>) -> (r: RustT)
        requires
            cr.wf(),
            valid_value(cr@, v@),
            Self::ocaml_to_rust_accepts(cr@, v@),
        ensures
            Self::ocaml_to_rust_reads(cr@, v@, r),
    ;
}

impl<RustT: FromOCaml<OCamlT>, OCamlT: OCamlRepr> OCamlToRust<RustT> for OCamlT {
    open spec fn ocaml_to_rust_accepts(h: Seq<BlockModel>, raw: crate::mlvalues::RawOCaml) -> bool {
        RustT::accepts(h, raw)
    }

    open spec fn ocaml_to_rust_reads(
        h: Seq<BlockModel>,
        raw: crate::mlvalues::RawOCaml,
        r: RustT,
    ) -> bool {
        RustT::reads_as(h, raw, r)
    }

    fn ocaml_to_rust(cr: &OCamlRuntime, v: OCaml<OCamlT>) -> (r: RustT) {
        RustT::from_ocaml(cr, v)
    }
}

/// Conversion from the point of view of the OCaml type: an OCaml type that
/// a Rust type `RustT` converts to.
pub trait OCamlFromRust<RustT>: Sized + OCamlRepr {
    /// The abstract OCaml value `v` converts to.
    spec fn model_of(v: &RustT) -> Self::Model;

    /// How many blocks the conversion of `v` allocates, at most.
    spec fn blocks_of(v: &RustT) -> nat;

    /// Convert from a Rust value.
    fn ocaml_from_rust(cr: &mut OCamlRuntime, v: &RustT) -> (r: OCaml<Self>)
        requires
            old(cr).wf(),
            old(cr).has_room(Self::blocks_of(v)),
        ensures
            final(cr).wf(),
            heap_extends(old(cr)@, final(cr)@),
            valid_value(final(cr)@, r@),
            Self::decode(final(cr)@, r@) == Some(Self::model_of(v)),
    ;
}

impl<RustT: ToOCaml<OCamlT>, OCamlT: OCamlRepr> OCamlFromRust<RustT> for OCamlT {
    open spec fn model_of(v: &RustT) -> OCamlT::Model {
        v.ocaml_model()
    }

    open spec fn blocks_of(v: &RustT) -> nat {
        v.ocaml_blocks()
    }

    fn ocaml_from_rust(cr: &mut OCamlRuntime, v: &RustT) -> (r: OCaml<OCamlT>) {
        v.to_ocaml(cr)
    }
}

} // verus!
