//! Conversions of options, results, pairs, triples and boxes: each is a
//! small block whose fields hold the converted components.

use crate::conv::{FromOCaml, OCamlRepr, ToOCaml};
use crate::memory::{alloc_error, alloc_fields, alloc_ok, alloc_some};
use crate::mlvalues::tag;
use crate::mlvalues::{RawOCaml, NONE};
use crate::runtime::{
    block_tag, deref, heap_extends, lemma_heap_extends_trans, ref_index, BlockModel, OCamlRuntime,
};
use crate::value::{field_of, has_fields, has_fields_value, is_block_with, lemma_field_valid, OCaml};
use vstd::prelude::*;

verus! {

/// Field `i` of a block of `h1` is unchanged in any extension `h2` of `h1`.
pub proof fn lemma_field_stable(h1: Seq<BlockModel>, h2: Seq<BlockModel>, raw: RawOCaml, i: int)
    requires
        heap_extends(h1, h2),
        has_fields(h1, raw, i + 1),
    ensures
        has_fields(h2, raw, i + 1),
        deref(h2, raw) == deref(h1, raw),
        field_of(h2, raw, i) == field_of(h1, raw, i),
{
    assert(h2[ref_index(raw)] == h1[ref_index(raw)]);
}

// ---------------------------------------------------------------------------
// option

impl<A: OCamlRepr> OCamlRepr for Option<A> {
    type Model = Option<A::Model>;

    /// `None` is the immediate `NONE`; `Some x` a one-field block of tag 0.
    open spec fn decode(h: Seq<BlockModel>, raw: RawOCaml) -> Option<Option<A::Model>> {
        if raw == NONE {
            Some(None)
        } else if is_block_with(h, raw, tag::SOME, 1) {
            match A::decode(h, field_of(h, raw, 0)) {
                Some(m) => Some(Some(m)),
                None => None,
            }
        } else {
            None
        }
    }

    proof fn lemma_decode_stable(h1: Seq<BlockModel>, h2: Seq<BlockModel>, raw: RawOCaml) {
        if raw != NONE {
            lemma_field_stable(h1, h2, raw, 0);
            A::lemma_decode_stable(h1, h2, field_of(h1, raw, 0));
        }
    }
}

impl<A, OA> ToOCaml<Option<OA>> for Option<A> where A: ToOCaml<OA>, OA: OCamlRepr {
    open spec fn ocaml_model(&self) -> Option<OA::Model> {
        match self {
            Some(v) => Some(v.ocaml_model()),
            None => None,
        }
    }

    open spec fn ocaml_blocks(&self) -> nat {
        match self {
            Some(v) => v.ocaml_blocks() + 1,
            None => 0,
        }
    }

    fn to_ocaml(&self, cr: &mut OCamlRuntime) -> (r: OCaml<Option<OA>>) {
        match self {
            Some(value) => {
                let ghost h0 = cr@;
                let ov = value.to_ocaml(cr);
                let ghost h1 = cr@;
                let r = alloc_some(cr, ov);
                proof {
                    lemma_heap_extends_trans(h0, h1, cr@);
                    OA::lemma_decode_stable(h1, cr@, ov@);
                }
                r
            },
            None => OCaml::none(),
        }
    }
}

impl<A, OA> FromOCaml<Option<OA>> for Option<A> where A: FromOCaml<OA>, OA: OCamlRepr {
    open spec fn accepts(h: Seq<BlockModel>, raw: RawOCaml) -> bool {
        raw == NONE || (has_fields(h, raw, 1) && A::accepts(h, field_of(h, raw, 0)))
    }

    open spec fn reads_as(h: Seq<BlockModel>, raw: RawOCaml, r: Option<A>) -> bool {
        if raw == NONE {
            r is None
        } else {
            r matches Some(x) && A::reads_as(h, field_of(h, raw, 0), x)
        }
    }

    proof fn lemma_accepts_stable(h1: Seq<BlockModel>, h2: Seq<BlockModel>, raw: RawOCaml) {
        if raw != NONE {
            lemma_field_stable(h1, h2, raw, 0);
            lemma_field_valid(h1, raw, 0);
            A::lemma_accepts_stable(h1, h2, field_of(h1, raw, 0));
        }
    }

    fn can_read(cr: &OCamlRuntime, v: OCaml<Option<OA>>) -> (b: bool) {
        if v.raw() == NONE {
            true
        } else if has_fields_value(cr, v.raw(), 1) {
            let f: OCaml<OA> = v.field(cr, 0);
            A::can_read(cr, f)
        } else {
            false
        }
    }

    fn from_ocaml(cr: &OCamlRuntime, v: OCaml<Option<OA>>) -> (r: Option<A>) {
        match v.to_option(cr) {
            Some(x) => Some(A::from_ocaml(cr, x)),
            None => None,
        }
    }
}

// ---------------------------------------------------------------------------
// result

impl<A: OCamlRepr, E: OCamlRepr> OCamlRepr for Result<A, E> {
    type Model = Result<A::Model, E::Model>;

    /// `Ok x` is a one-field block of tag 0, `Error e` one of tag 1.
    open spec fn decode(h: Seq<BlockModel>, raw: RawOCaml) -> Option<Result<A::Model, E::Model>> {
        if is_block_with(h, raw, tag::TAG_OK, 1) {
            match A::decode(h, field_of(h, raw, 0)) {
                Some(m) => Some(Ok(m)),
                None => None,
            }
        } else if is_block_with(h, raw, tag::TAG_ERROR, 1) {
            match E::decode(h, field_of(h, raw, 0)) {
                Some(m) => Some(Err(m)),
                None => None,
            }
        } else {
            None
        }
    }

    proof fn lemma_decode_stable(h1: Seq<BlockModel>, h2: Seq<BlockModel>, raw: RawOCaml) {
        lemma_field_stable(h1, h2, raw, 0);
        if is_block_with(h1, raw, tag::TAG_OK, 1) {
            A::lemma_decode_stable(h1, h2, field_of(h1, raw, 0));
        } else {
            E::lemma_decode_stable(h1, h2, field_of(h1, raw, 0));
        }
    }
}

impl<A, OA, E, OE> ToOCaml<Result<OA, OE>> for Result<A, E> where
    A: ToOCaml<OA>,
    E: ToOCaml<OE>,
    OA: OCamlRepr,
    OE: OCamlRepr,
 {
    open spec fn ocaml_model(&self) -> Result<OA::Model, OE::Model> {
        match self {
            Ok(v) => Ok(v.ocaml_model()),
            Err(e) => Err(e.ocaml_model()),
        }
    }

    open spec fn ocaml_blocks(&self) -> nat {
        match self {
            Ok(v) => v.ocaml_blocks() + 1,
            Err(e) => e.ocaml_blocks() + 1,
        }
    }

    fn to_ocaml(&self, cr: &mut OCamlRuntime) -> (r: OCaml<Result<OA, OE>>) {
        let ghost h0 = cr@;
        match self {
            Ok(value) => {
                let ov = value.to_ocaml(cr);
                let ghost h1 = cr@;
                let r = alloc_ok(cr, ov);
                proof {
                    lemma_heap_extends_trans(h0, h1, cr@);
                    OA::lemma_decode_stable(h1, cr@, ov@);
                }
                r
            },
            Err(error) => {
                let oe = error.to_ocaml(cr);
                let ghost h1 = cr@;
                let r = alloc_error(cr, oe);
                proof {
                    lemma_heap_extends_trans(h0, h1, cr@);
                    OE::lemma_decode_stable(h1, cr@, oe@);
                }
                r
            },
        }
    }
}

impl<A, OA, E, OE> FromOCaml<Result<OA, OE>> for Result<A, E> where
    A: FromOCaml<OA>,
    E: FromOCaml<OE>,
    OA: OCamlRepr,
    OE: OCamlRepr,
 {
    /// A block of at least one field with the tag of `Ok` or of `Error`
    /// (on other tags the conversion would panic); the tag tells which.
    open spec fn accepts(h: Seq<BlockModel>, raw: RawOCaml) -> bool {
        &&& has_fields(h, raw, 1)
        &&& (block_tag(deref(h, raw)) == tag::TAG_OK || block_tag(deref(h, raw)) == tag::TAG_ERROR)
        &&& if block_tag(deref(h, raw)) == tag::TAG_OK {
            A::accepts(h, field_of(h, raw, 0))
        } else {
            E::accepts(h, field_of(h, raw, 0))
        }
    }

    open spec fn reads_as(h: Seq<BlockModel>, raw: RawOCaml, r: Result<A, E>) -> bool {
        if block_tag(deref(h, raw)) == tag::TAG_OK {
            r matches Ok(x) && A::reads_as(h, field_of(h, raw, 0), x)
        } else {
            r matches Err(x) && E::reads_as(h, field_of(h, raw, 0), x)
        }
    }

    proof fn lemma_accepts_stable(h1: Seq<BlockModel>, h2: Seq<BlockModel>, raw: RawOCaml) {
        lemma_field_stable(h1, h2, raw, 0);
        lemma_field_valid(h1, raw, 0);
        if block_tag(deref(h1, raw)) == tag::TAG_OK {
            A::lemma_accepts_stable(h1, h2, field_of(h1, raw, 0));
        } else {
            E::lemma_accepts_stable(h1, h2, field_of(h1, raw, 0));
        }
    }

    fn can_read(cr: &OCamlRuntime, v: OCaml<Result<OA, OE>>) -> (b: bool) {
        if has_fields_value(cr, v.raw(), 1) {
            let t = cr.tag_of(v.raw());
            if t == tag::TAG_OK {
                let f: OCaml<OA> = v.field(cr, 0);
                A::can_read(cr, f)
            } else if t != tag::TAG_ERROR {
                false
            } else {
                let f: OCaml<OE> = v.field(cr, 0);
                E::can_read(cr, f)
            }
        } else {
            false
        }
    }

    fn from_ocaml(cr: &OCamlRuntime, v: OCaml<Result<OA, OE>>) -> (r: Result<A, E>) {
        match v.to_result(cr) {
            Ok(x) => Ok(A::from_ocaml(cr, x)),
            Err(x) => Err(E::from_ocaml(cr, x)),
        }
    }
}

// ---------------------------------------------------------------------------
// pairs

impl<A: OCamlRepr, B: OCamlRepr> OCamlRepr for (A, B) {
    type Model = (A::Model, B::Model);

    /// A block of tag 0 with exactly two fields.
    open spec fn decode(h: Seq<BlockModel>, raw: RawOCaml) -> Option<(A::Model, B::Model)> {
        if is_block_with(h, raw, 0, 2) {
            match (A::decode(h, field_of(h, raw, 0)), B::decode(h, field_of(h, raw, 1))) {
                (Some(a), Some(b)) => Some((a, b)),
                _ => None,
            }
        } else {
            None
        }
    }

    proof fn lemma_decode_stable(h1: Seq<BlockModel>, h2: Seq<BlockModel>, raw: RawOCaml) {
        lemma_field_stable(h1, h2, raw, 1);
        A::lemma_decode_stable(h1, h2, field_of(h1, raw, 0));
        B::lemma_decode_stable(h1, h2, field_of(h1, raw, 1));
    }
}

impl<A, OA, B, OB> ToOCaml<(OA, OB)> for (A, B) where
    A: ToOCaml<OA>,
    B: ToOCaml<OB>,
    OA: OCamlRepr,
    OB: OCamlRepr,
 {
    open spec fn ocaml_model(&self) -> (OA::Model, OB::Model) {
        (self.0.ocaml_model(), self.1.ocaml_model())
    }

    open spec fn ocaml_blocks(&self) -> nat {
        self.0.ocaml_blocks() + self.1.ocaml_blocks() + 1
    }

    fn to_ocaml(&self, cr: &mut OCamlRuntime) -> (r: OCaml<(OA, OB)>) {
        let ghost h0 = cr@;
        let a = self.0.to_ocaml(cr);
        let ghost h1 = cr@;
        let b = self.1.to_ocaml(cr);
        let ghost h2 = cr@;
        proof {
            lemma_heap_extends_trans(h0, h1, h2);
        }
        let mut fields: Vec<RawOCaml> = Vec::new();
        fields.push(a.raw());
        fields.push(b.raw());
        let r: OCaml<(OA, OB)> = alloc_fields(cr, 0, fields);
        proof {
            lemma_heap_extends_trans(h0, h2, cr@);
            lemma_heap_extends_trans(h1, h2, cr@);
            OA::lemma_decode_stable(h1, cr@, a@);
            OB::lemma_decode_stable(h2, cr@, b@);
            assert(field_of(cr@, r@, 0) == a@);
            assert(field_of(cr@, r@, 1) == b@);
        }
        r
    }
}

impl<A, OA, B, OB> FromOCaml<(OA, OB)> for (A, B) where
    A: FromOCaml<OA>,
    B: FromOCaml<OB>,
    OA: OCamlRepr,
    OB: OCamlRepr,
 {
    open spec fn accepts(h: Seq<BlockModel>, raw: RawOCaml) -> bool {
        &&& has_fields(h, raw, 2)
        &&& A::accepts(h, field_of(h, raw, 0))
        &&& B::accepts(h, field_of(h, raw, 1))
    }

    open spec fn reads_as(h: Seq<BlockModel>, raw: RawOCaml, r: (A, B)) -> bool {
        A::reads_as(h, field_of(h, raw, 0), r.0) && B::reads_as(h, field_of(h, raw, 1), r.1)
    }

    proof fn lemma_accepts_stable(h1: Seq<BlockModel>, h2: Seq<BlockModel>, raw: RawOCaml) {
        lemma_field_stable(h1, h2, raw, 1);
        lemma_field_valid(h1, raw, 0);
        lemma_field_valid(h1, raw, 1);
        A::lemma_accepts_stable(h1, h2, field_of(h1, raw, 0));
        B::lemma_accepts_stable(h1, h2, field_of(h1, raw, 1));
    }

    fn can_read(cr: &OCamlRuntime, v: OCaml<(OA, OB)>) -> (b: bool) {
        if has_fields_value(cr, v.raw(), 2) {
            let f0: OCaml<OA> = v.field(cr, 0);
            let f1: OCaml<OB> = v.field(cr, 1);
            A::can_read(cr, f0) && B::can_read(cr, f1)
        } else {
            false
        }
    }

    fn from_ocaml(cr: &OCamlRuntime, v: OCaml<(OA, OB)>) -> (r: (A, B)) {
        let a = A::from_ocaml(cr, v.fst(cr));
        let b = B::from_ocaml(cr, v.snd(cr));
        (a, b)
    }
}

// ---------------------------------------------------------------------------
// boxes

impl<A, OA> ToOCaml<OA> for Box<A> where A: ToOCaml<OA>, OA: OCamlRepr {
    open spec fn ocaml_model(&self) -> OA::Model {
        (**self).ocaml_model()
    }

    open spec fn ocaml_blocks(&self) -> nat {
        (**self).ocaml_blocks()
    }

    fn to_ocaml(&self, cr: &mut OCamlRuntime) -> (r: OCaml<OA>) {
        (**self).to_ocaml(cr)
    }
}

impl<A, OA> FromOCaml<OA> for Box<A> where A: FromOCaml<OA>, OA: OCamlRepr {
    open spec fn accepts(h: Seq<BlockModel>, raw: RawOCaml) -> bool {
        A::accepts(h, raw)
    }

    open spec fn reads_as(h: Seq<BlockModel>, raw: RawOCaml, r: Box<A>) -> bool {
        A::reads_as(h, raw, *r)
    }

    proof fn lemma_accepts_stable(h1: Seq<BlockModel>, h2: Seq<BlockModel>, raw: RawOCaml) {
        A::lemma_accepts_stable(h1, h2, raw);
    }

    fn can_read(cr: &OCamlRuntime, v: OCaml<OA>) -> (b: bool) {
        A::can_read(cr, v)
    }

    fn from_ocaml(cr: &OCamlRuntime, v: OCaml<OA>) -> (r: Box<A>) {
        Box::new(A::from_ocaml(cr, v))
    }
}

} // verus!
