//! What reading an OCaml value gives back of a Rust value that was written
//! to it.
//!
//! Each law takes a heap `h`, a value `raw` that represents, in `h`, the
//! abstract value a Rust value `x` converts to (what `to_ocaml` guarantees),
//! and a Rust value `r` that reading `raw` may give (what `from_ocaml`
//! guarantees); it states that `r` is `x` again.

use crate::conv::list::{decode_list, elems_models, reads_list};
use crate::conv::{lemma_encode_i64, FromOCaml, OCamlRepr, ToOCaml};
use crate::mlvalues::{
    fits_fixnum, OCamlBytes, OCamlInt, OCamlInt32, OCamlInt64, RawOCaml, EMPTY_LIST,
};
use crate::runtime::BlockModel;
use crate::value::field_of;
use vstd::prelude::*;

verus! {

broadcast use {vstd::utf8::encode_utf8_decode_utf8, vstd::utf8::encode_utf8_valid_utf8};

/// Elements of type `A` come back unchanged from any value of heap `h`
/// that represents them.
pub open spec fn round_trips<A: ToOCaml<OA> + FromOCaml<OA>, OA: OCamlRepr>(
    h: Seq<BlockModel>,
) -> bool {
    forall|raw: RawOCaml, a: A, b: A|
        OA::decode(h, raw) == Some(#[trigger] a.ocaml_model()) && #[trigger] A::reads_as(h, raw, b)
            ==> b == a
}

/// An integer that fits in a fixnum comes back unchanged from an OCaml `int`.
pub proof fn law_int_round_trip(h: Seq<BlockModel>, raw: RawOCaml, n: i64, r: i64)
    requires
        fits_fixnum(n as int),
        OCamlInt::decode(h, raw) == Some(<i64 as ToOCaml<OCamlInt>>::ocaml_model(&n)),
        <i64 as FromOCaml<OCamlInt>>::reads_as(h, raw, r),
    ensures
        r == n,
{
    lemma_encode_i64(n);
}

/// A boolean comes back unchanged from an OCaml `bool`.
pub proof fn law_bool_round_trip(h: Seq<BlockModel>, raw: RawOCaml, b: bool, r: bool)
    requires
        bool::decode(h, raw) == Some(b.ocaml_model()),
        bool::reads_as(h, raw, r),
    ensures
        r == b,
{
}

/// A boxed `int32` gives back the integer it was made from.
pub proof fn law_int32_round_trip(h: Seq<BlockModel>, raw: RawOCaml, n: i32, r: i32)
    requires
        OCamlInt32::decode(h, raw) == Some(<i32 as ToOCaml<OCamlInt32>>::ocaml_model(&n)),
        <i32 as FromOCaml<OCamlInt32>>::reads_as(h, raw, r),
    ensures
        r == n,
{
}

/// A boxed `int64` gives back the integer it was made from.
pub proof fn law_int64_round_trip(h: Seq<BlockModel>, raw: RawOCaml, n: i64, r: i64)
    requires
        OCamlInt64::decode(h, raw) == Some(<i64 as ToOCaml<OCamlInt64>>::ocaml_model(&n)),
        <i64 as FromOCaml<OCamlInt64>>::reads_as(h, raw, r),
    ensures
        r == n,
{
}

/// A Rust string comes back unchanged from an OCaml `string`.
pub proof fn law_string_round_trip(h: Seq<BlockModel>, raw: RawOCaml, s: String, r: String)
    requires
        String::decode(h, raw) == Some(<String as ToOCaml<String>>::ocaml_model(&s)),
        <String as FromOCaml<String>>::reads_as(h, raw, r),
    ensures
        r@ == s@,
{
}

/// A Rust string comes back unchanged from an OCaml `bytes`.
pub proof fn law_string_bytes_round_trip(h: Seq<BlockModel>, raw: RawOCaml, s: String, r: String)
    requires
        OCamlBytes::decode(h, raw) == Some(<String as ToOCaml<OCamlBytes>>::ocaml_model(&s)),
        <String as FromOCaml<OCamlBytes>>::reads_as(h, raw, r),
    ensures
        r@ == s@,
{
}

/// A byte vector comes back unchanged from an OCaml `bytes`.
pub proof fn law_bytes_round_trip(h: Seq<BlockModel>, raw: RawOCaml, v: Vec<u8>, r: Vec<u8>)
    requires
        OCamlBytes::decode(h, raw) == Some(<Vec<u8> as ToOCaml<OCamlBytes>>::ocaml_model(&v)),
        <Vec<u8> as FromOCaml<OCamlBytes>>::reads_as(h, raw, r),
    ensures
        r@ == v@,
{
}

/// An option comes back unchanged when its contents do.
pub proof fn law_option_round_trip<A: ToOCaml<OA> + FromOCaml<OA>, OA: OCamlRepr>(
    h: Seq<BlockModel>,
    raw: RawOCaml,
    x: Option<A>,
    r: Option<A>,
)
    requires
        round_trips::<A, OA>(h),
        <Option<OA>>::decode(h, raw) == Some(<Option<A> as ToOCaml<Option<OA>>>::ocaml_model(&x)),
        <Option<A> as FromOCaml<Option<OA>>>::reads_as(h, raw, r),
    ensures
        r == x,
{
    if let Some(a) = x {
        let b = r->0;
        assert(OA::decode(h, field_of(h, raw, 0)) == Some(a.ocaml_model()));
        assert(A::reads_as(h, field_of(h, raw, 0), b));
    }
}

/// A result comes back unchanged when its contents do, and the tag of its
/// block tells `Ok` from `Error`.
pub proof fn law_result_round_trip<
    A: ToOCaml<OA> + FromOCaml<OA>,
    OA: OCamlRepr,
    E: ToOCaml<OE> + FromOCaml<OE>,
    OE: OCamlRepr,
>(h: Seq<BlockModel>, raw: RawOCaml, x: Result<A, E>, r: Result<A, E>)
    requires
        round_trips::<A, OA>(h),
        round_trips::<E, OE>(h),
        <Result<OA, OE>>::decode(h, raw) == Some(
            <Result<A, E> as ToOCaml<Result<OA, OE>>>::ocaml_model(&x),
        ),
        <Result<A, E> as FromOCaml<Result<OA, OE>>>::reads_as(h, raw, r),
    ensures
        r == x,
        crate::runtime::points_into(h, raw),
        (crate::runtime::block_tag(crate::runtime::deref(h, raw)) == crate::mlvalues::tag::TAG_OK)
            == (x is Ok),
        (crate::runtime::block_tag(crate::runtime::deref(h, raw))
            == crate::mlvalues::tag::TAG_ERROR) == (x is Err),
{
    let f = field_of(h, raw, 0);
    match x {
        Ok(a) => {
            assert(OA::decode(h, f) == Some(a.ocaml_model()));
            assert(A::reads_as(h, f, r->Ok_0));
        },
        Err(e) => {
            assert(OE::decode(h, f) == Some(e.ocaml_model()));
            assert(E::reads_as(h, f, r->Err_0));
        },
    }
}

/// A pair comes back unchanged when its components do.
pub proof fn law_pair_round_trip<
    A: ToOCaml<OA> + FromOCaml<OA>,
    OA: OCamlRepr,
    B: ToOCaml<OB> + FromOCaml<OB>,
    OB: OCamlRepr,
>(h: Seq<BlockModel>, raw: RawOCaml, x: (A, B), r: (A, B))
    requires
        round_trips::<A, OA>(h),
        round_trips::<B, OB>(h),
        <(OA, OB)>::decode(h, raw) == Some(<(A, B) as ToOCaml<(OA, OB)>>::ocaml_model(&x)),
        <(A, B) as FromOCaml<(OA, OB)>>::reads_as(h, raw, r),
    ensures
        r == x,
{
    assert(OA::decode(h, field_of(h, raw, 0)) == Some(x.0.ocaml_model()));
    assert(A::reads_as(h, field_of(h, raw, 0), r.0));
    assert(OB::decode(h, field_of(h, raw, 1)) == Some(x.1.ocaml_model()));
    assert(B::reads_as(h, field_of(h, raw, 1), r.1));
}

/// The elements of an OCaml list come back in order, each unchanged when
/// elements do.
pub proof fn law_list_round_trip<A: ToOCaml<OA> + FromOCaml<OA>, OA: OCamlRepr>(
    h: Seq<BlockModel>,
    raw: RawOCaml,
    x: Seq<A>,
    r: Seq<A>,
)
    requires
        round_trips::<A, OA>(h),
        decode_list::<OA>(h, raw) == Some(elems_models::<A, OA>(x)),
        reads_list::<OA, A>(h, raw, r),
    ensures
        r == x,
    decreases raw,
{
    if raw == EMPTY_LIST {
        assert(elems_models::<A, OA>(x).len() == 0);
        assert(r =~= x);
    } else {
        let tl = field_of(h, raw, 1);
        let m = elems_models::<A, OA>(x);
        let rest = decode_list::<OA>(h, tl)->0;
        assert(m.len() == x.len());
        assert(m =~= seq![m[0]] + rest);
        assert(m.drop_first() =~= rest);
        assert(elems_models::<A, OA>(x.drop_first()) =~= m.drop_first());
        assert(OA::decode(h, field_of(h, raw, 0)) == Some(x[0].ocaml_model()));
        assert(A::reads_as(h, field_of(h, raw, 0), r[0]));
        law_list_round_trip::<A, OA>(h, tl, x.drop_first(), r.drop_first());
        assert(r =~= seq![r[0]] + r.drop_first());
        assert(x =~= seq![x[0]] + x.drop_first());
    }
}

/// A vector sent as an OCaml list comes back unchanged when its elements do,
/// and only the empty vector is the empty list.
pub proof fn law_vec_list_round_trip<A: ToOCaml<OA> + FromOCaml<OA>, OA: OCamlRepr>(
    h: Seq<BlockModel>,
    raw: RawOCaml,
    x: Vec<A>,
    r: Vec<A>,
)
    requires
        round_trips::<A, OA>(h),
        crate::mlvalues::OCamlList::<OA>::decode(h, raw) == Some(
            <Vec<A> as ToOCaml<crate::mlvalues::OCamlList<OA>>>::ocaml_model(&x),
        ),
        <Vec<A> as FromOCaml<crate::mlvalues::OCamlList<OA>>>::reads_as(h, raw, r),
    ensures
        r@ == x@,
        (raw == EMPTY_LIST) == (x@.len() == 0),
{
    law_list_round_trip::<A, OA>(h, raw, x@, r@);
    if raw != EMPTY_LIST {
        assert(decode_list::<OA>(h, raw)->0.len() > 0);
    }
}

/// Integers that fit in a fixnum come back unchanged from an OCaml `int`,
/// in any heap.
pub proof fn law_int_round_trips(h: Seq<BlockModel>)
    ensures
        forall|raw: RawOCaml, a: i64, b: i64|
            fits_fixnum(a as int) && OCamlInt::decode(h, raw) == Some(
                #[trigger] <i64 as ToOCaml<OCamlInt>>::ocaml_model(&a),
            ) && #[trigger] <i64 as FromOCaml<OCamlInt>>::reads_as(h, raw, b) ==> b == a,
{
    assert forall|raw: RawOCaml, a: i64, b: i64|
        fits_fixnum(a as int) && OCamlInt::decode(h, raw) == Some(
            #[trigger] <i64 as ToOCaml<OCamlInt>>::ocaml_model(&a),
        ) && #[trigger] <i64 as FromOCaml<OCamlInt>>::reads_as(h, raw, b) implies b == a by {
        lemma_encode_i64(a);
    }
}

/// Booleans come back unchanged, in any heap.
pub proof fn law_bool_round_trips(h: Seq<BlockModel>)
    ensures
        round_trips::<bool, bool>(h),
{
}

/// Strings come back unchanged from OCaml strings, in any heap.
pub proof fn law_string_round_trips(h: Seq<BlockModel>)
    ensures
        forall|raw: RawOCaml, a: String, b: String|
            String::decode(h, raw) == Some(#[trigger] <String as ToOCaml<String>>::ocaml_model(&a))
                && #[trigger] <String as FromOCaml<String>>::reads_as(h, raw, b) ==> b@ == a@,
{
}

} // verus!

verus! {

/// Sending an `i32` as an OCaml `int` gives what sending the same integer
/// as an `i64` gives: the widening keeps the sign, for every `i32`. Where
/// words have 64 bits, every `i32` is a fixnum and the OCaml `int` is the
/// `i32` itself.
pub proof fn law_i32_int_as_i64(n: i32)
    ensures
        <i32 as ToOCaml<OCamlInt>>::ocaml_model(&n) == <i64 as ToOCaml<OCamlInt>>::ocaml_model(
            &(n as i64),
        ),
        usize::BITS == 64 ==> fits_fixnum(n as int),
        fits_fixnum(n as int) ==> <i32 as ToOCaml<OCamlInt>>::ocaml_model(&n) == n as int,
{
    lemma_encode_i64(n as i64);
}

/// An `i32` sent as an OCaml `int` is the same integer: its sign is kept,
/// and it reads back as itself. (Every `i32` is a fixnum where words have
/// 64 bits; with 32-bit words the top bit of a larger one is lost.)
pub proof fn law_i32_int_is_itself(n: i32, h: Seq<BlockModel>, raw: RawOCaml, r: i64)
    requires
        fits_fixnum(n as int),
        OCamlInt::decode(h, raw) == Some(<i32 as ToOCaml<OCamlInt>>::ocaml_model(&n)),
        <i64 as FromOCaml<OCamlInt>>::reads_as(h, raw, r),
    ensures
        <i32 as ToOCaml<OCamlInt>>::ocaml_model(&n) == n as int,
        raw == 2 * (n as int) + 1,
        r == n as i64,
{
    lemma_encode_i64(n as i64);
    assert(crate::mlvalues::spec_is_long(raw));
    assert(raw == 2 * (raw / 2) + raw % 2);
}

} // verus!
