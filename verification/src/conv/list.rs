//! Conversions between Rust vectors and OCaml lists and arrays.
//!
//! An OCaml list is `[]` (the immediate `EMPTY_LIST`) or a block of tag 0
//! whose two fields are the head and the rest of the list. An array is a
//! block of tag 0 whose fields are the elements.

use crate::conv::{FromOCaml, OCamlRepr, ToOCaml};
use crate::conv::compound::lemma_field_stable;
use crate::memory::{alloc_cons, alloc_fields};
use crate::mlvalues::tag;
use crate::mlvalues::{OCamlList, OCamlUniformArray, RawOCaml, EMPTY_LIST};
use crate::runtime::{
    deref, heap_extends, heap_wf, lemma_heap_extends_trans, points_into, ref_index, valid_value,
    BlockModel, OCamlRuntime,
};
use crate::value::{field_of, has_fields, has_fields_value, is_block_with, lemma_field_valid, OCaml};
use vstd::prelude::*;

verus! {

/// The rest of a list cell: `[]`, or a cell allocated before the cell `raw`.
pub open spec fn tail_ok(raw: RawOCaml, tl: RawOCaml) -> bool {
    tl == EMPTY_LIST || (tl % 2 == 0 && 2 <= tl && tl < raw)
}

/// The element models of the OCaml list `raw`, if it is a list of `A` values.
pub open spec fn decode_list<A: OCamlRepr>(h: Seq<BlockModel>, raw: RawOCaml) -> Option<Seq<A::Model>>
    decreases raw,
{
    if raw == EMPTY_LIST {
        Some(Seq::empty())
    } else if raw >= 2 && is_block_with(h, raw, tag::CONS, 2) && tail_ok(raw, field_of(h, raw, 1)) {
        match (A::decode(h, field_of(h, raw, 0)), decode_list::<A>(h, field_of(h, raw, 1))) {
            (Some(a), Some(s)) => Some(seq![a] + s),
            _ => None,
        }
    } else {
        None
    }
}

/// What a list represents does not change when the heap grows.
pub proof fn lemma_decode_list_stable<A: OCamlRepr>(
    h1: Seq<BlockModel>,
    h2: Seq<BlockModel>,
    raw: RawOCaml,
)
    requires
        heap_extends(h1, h2),
        decode_list::<A>(h1, raw) is Some,
    ensures
        decode_list::<A>(h2, raw) == decode_list::<A>(h1, raw),
    decreases raw,
{
    if raw != EMPTY_LIST {
        lemma_field_stable(h1, h2, raw, 1);
        A::lemma_decode_stable(h1, h2, field_of(h1, raw, 0));
        lemma_decode_list_stable::<A>(h1, h2, field_of(h1, raw, 1));
    }
}

impl<A: OCamlRepr> OCamlRepr for OCamlList<A> {
    type Model = Seq<A::Model>;

    open spec fn decode(h: Seq<BlockModel>, raw: RawOCaml) -> Option<Seq<A::Model>> {
        decode_list::<A>(h, raw)
    }

    proof fn lemma_decode_stable(h1: Seq<BlockModel>, h2: Seq<BlockModel>, raw: RawOCaml) {
        lemma_decode_list_stable::<A>(h1, h2, raw);
    }
}

/// The models of all fields of the block `raw`, when each is an `A` value.
pub open spec fn decode_array<A: OCamlRepr>(h: Seq<BlockModel>, raw: RawOCaml) -> Option<Seq<A::Model>> {
    if points_into(h, raw) && deref(h, raw) is Structured && deref(h, raw)->Structured_tag == 0
        && forall|j: int|
        0 <= j < deref(h, raw)->fields.len() ==> (#[trigger] A::decode(h, deref(h, raw)->fields[j])) is Some {
        Some(
            Seq::new(
                deref(h, raw)->fields.len(),
                |j: int| A::decode(h, deref(h, raw)->fields[j])->0,
            ),
        )
    } else {
        None
    }
}

impl<A: OCamlRepr> OCamlRepr for OCamlUniformArray<A> {
    type Model = Seq<A::Model>;

    open spec fn decode(h: Seq<BlockModel>, raw: RawOCaml) -> Option<Seq<A::Model>> {
        decode_array::<A>(h, raw)
    }

    proof fn lemma_decode_stable(h1: Seq<BlockModel>, h2: Seq<BlockModel>, raw: RawOCaml) {
        assert(h2[ref_index(raw)] == h1[ref_index(raw)]);
        let fields = deref(h1, raw)->fields;
        assert forall|j: int| 0 <= j < fields.len() implies A::decode(h2, fields[j]) == A::decode(
            h1,
            fields[j],
        ) by {
            assert(A::decode(h1, fields[j]) is Some);
            A::lemma_decode_stable(h1, h2, fields[j]);
        }
        assert(decode_array::<A>(h2, raw)->0 =~= decode_array::<A>(h1, raw)->0);
    }
}

// ---------------------------------------------------------------------------
// Rust vectors to OCaml

/// The blocks the conversion of each element of `s` allocates, in all.
pub open spec fn elems_blocks<A: ToOCaml<OA>, OA: OCamlRepr>(s: Seq<A>) -> nat
    decreases s.len(),
{
    if s.len() == 0 {
        0
    } else {
        s[0].ocaml_blocks() + elems_blocks::<A, OA>(s.drop_first())
    }
}

/// The block count of a sequence is that of a prefix plus that of the rest.
pub proof fn lemma_elems_blocks_split<A: ToOCaml<OA>, OA: OCamlRepr>(s: Seq<A>, i: int)
    requires
        0 <= i <= s.len(),
    ensures
        elems_blocks::<A, OA>(s) == elems_blocks::<A, OA>(s.take(i)) + elems_blocks::<A, OA>(
            s.skip(i),
        ),
    decreases s.len(),
{
    if i == 0 {
        assert(s.take(0) =~= Seq::<A>::empty());
        assert(s.skip(0) =~= s);
    } else {
        lemma_elems_blocks_split::<A, OA>(s.drop_first(), i - 1);
        assert(s.drop_first().skip(i - 1) =~= s.skip(i));
        assert(s.take(i).drop_first() =~= s.drop_first().take(i - 1));
    }
}

/// Block count of the prefix `s.take(i + 1)`, one element further.
proof fn lemma_elems_blocks_step<A: ToOCaml<OA>, OA: OCamlRepr>(s: Seq<A>, i: int)
    requires
        0 <= i < s.len(),
    ensures
        elems_blocks::<A, OA>(s.take(i + 1)) == elems_blocks::<A, OA>(s.take(i))
            + s[i].ocaml_blocks(),
{
    let t = s.take(i + 1);
    lemma_elems_blocks_split::<A, OA>(t, i);
    assert(t.take(i) =~= s.take(i));
    assert(t.skip(i) =~= seq![s[i]]);
    let one = seq![s[i]];
    assert(one.drop_first() =~= Seq::<A>::empty());
    assert(elems_blocks::<A, OA>(one.drop_first()) == 0);
    assert(one[0] == s[i]);
    assert(elems_blocks::<A, OA>(one) == s[i].ocaml_blocks());
}

/// The models of the elements of `s`.
pub open spec fn elems_models<A: ToOCaml<OA>, OA: OCamlRepr>(s: Seq<A>) -> Seq<OA::Model> {
    s.map_values(|x: A| x.ocaml_model())
}

impl<A, OA> ToOCaml<OCamlList<OA>> for Vec<A> where A: ToOCaml<OA>, OA: OCamlRepr {
    open spec fn ocaml_model(&self) -> Seq<OA::Model> {
        elems_models::<A, OA>(self@)
    }

    /// One cons cell per element, and what each element needs.
    open spec fn ocaml_blocks(&self) -> nat {
        elems_blocks::<A, OA>(self@) + self@.len()
    }

    fn to_ocaml(&self, cr: &mut OCamlRuntime) -> (r: OCaml<OCamlList<OA>>) {
        let ghost h0 = cr@;
        let ghost reg0 = cr.registry();
        let ghost s = self@;
        let ghost models = elems_models::<A, OA>(s);
        let mut result: OCaml<OCamlList<OA>> = OCaml::nil();
        let mut i: usize = self.len();
        proof {
            lemma_elems_blocks_split::<A, OA>(s, s.len() as int);
            assert(s.take(s.len() as int) =~= s);
            assert(models.subrange(s.len() as int, s.len() as int) =~= Seq::<OA::Model>::empty());
        }
        while i > 0
            invariant
                s == self@,
                models == elems_models::<A, OA>(s),
                i <= s.len(),
                cr.wf(),
                cr.registry() == reg0,
                heap_extends(h0, cr@),
                valid_value(cr@, result@),
                decode_list::<OA>(cr@, result@) == Some(models.subrange(i as int, s.len() as int)),
                cr@.len() + elems_blocks::<A, OA>(s.take(i as int)) + i <= h0.len()
                    + elems_blocks::<A, OA>(s) + s.len(),
                h0.len() + elems_blocks::<A, OA>(s) + s.len() <= crate::runtime::MAX_BLOCKS,
            decreases i,
        {
            proof {
                lemma_elems_blocks_step::<A, OA>(s, i - 1);
            }
            let ghost hp = cr@;
            let ov = self[i - 1].to_ocaml(cr);
            let ghost h1 = cr@;
            proof {
                lemma_decode_list_stable::<OA>(hp, h1, result@);
            }
            let cons = alloc_cons(cr, ov, result);
            proof {
                let h2 = cr@;
                lemma_heap_extends_trans(hp, h1, h2);
                lemma_heap_extends_trans(h0, hp, h2);
                OA::lemma_decode_stable(h1, h2, ov@);
                lemma_decode_list_stable::<OA>(h1, h2, result@);
                assert(field_of(h2, cons@, 0) == ov@);
                assert(field_of(h2, cons@, 1) == result@);
                assert(tail_ok(cons@, result@));
                assert(models[i - 1] == s[i - 1].ocaml_model());
                assert(seq![models[i - 1]] + models.subrange(i as int, s.len() as int)
                    =~= models.subrange(i - 1, s.len() as int));
            }
            result = cons;
            i = i - 1;
        }
        proof {
            assert(models.subrange(0, s.len() as int) =~= models);
        }
        result
    }
}

impl<A, OA> ToOCaml<OCamlUniformArray<OA>> for Vec<A> where A: ToOCaml<OA>, OA: OCamlRepr {
    open spec fn ocaml_model(&self) -> Seq<OA::Model> {
        elems_models::<A, OA>(self@)
    }

    /// The array block, and what each element needs.
    open spec fn ocaml_blocks(&self) -> nat {
        elems_blocks::<A, OA>(self@) + 1
    }

    fn to_ocaml(&self, cr: &mut OCamlRuntime) -> (r: OCaml<OCamlUniformArray<OA>>) {
        let ghost h0 = cr@;
        let ghost reg0 = cr.registry();
        let ghost s = self@;
        let ghost models = elems_models::<A, OA>(s);
        let mut raws: Vec<RawOCaml> = Vec::new();
        let mut i: usize = 0;
        proof {
            lemma_elems_blocks_split::<A, OA>(s, s.len() as int);
            assert(s.take(s.len() as int) =~= s);
            assert(s.take(0) =~= Seq::<A>::empty());
        }
        while i < self.len()
            invariant
                s == self@,
                models == elems_models::<A, OA>(s),
                i <= s.len(),
                raws@.len() == i,
                cr.wf(),
                cr.registry() == reg0,
                heap_extends(h0, cr@),
                forall|j: int| 0 <= j < i ==> valid_value(cr@, #[trigger] raws@[j]),
                forall|j: int| 0 <= j < i ==> OA::decode(cr@, #[trigger] raws@[j]) == Some(models[j]),
                cr@.len() <= h0.len() + elems_blocks::<A, OA>(s.take(i as int)),
                h0.len() + elems_blocks::<A, OA>(s) + 1 <= crate::runtime::MAX_BLOCKS,
                elems_blocks::<A, OA>(s) == elems_blocks::<A, OA>(s.take(s.len() as int)),
            decreases s.len() - i,
        {
            proof {
                lemma_elems_blocks_step::<A, OA>(s, i as int);
                lemma_elems_blocks_split::<A, OA>(s.take(s.len() as int), i + 1);
                assert(s.take(s.len() as int).take(i + 1) =~= s.take(i + 1));
            }
            let ghost hp = cr@;
            let ov = self[i].to_ocaml(cr);
            proof {
                let h1 = cr@;
                lemma_heap_extends_trans(h0, hp, h1);
                assert forall|j: int| 0 <= j < i implies valid_value(h1, #[trigger] raws@[j])
                    && OA::decode(h1, raws@[j]) == Some(models[j]) by {
                    OA::lemma_decode_stable(hp, h1, raws@[j]);
                }
            }
            raws.push(ov.raw());
            i = i + 1;
        }
        let ghost h1 = cr@;
        let r: OCaml<OCamlUniformArray<OA>> = alloc_fields(cr, 0, raws);
        proof {
            let h2 = cr@;
            lemma_heap_extends_trans(h0, h1, h2);
            assert(s.take(s.len() as int) =~= s);
            let fields = deref(h2, r@)->fields;
            assert forall|j: int| 0 <= j < fields.len() implies OA::decode(h2, fields[j]) == Some(
                models[j],
            ) by {
                OA::lemma_decode_stable(h1, h2, raws@[j]);
            }
            assert(decode_array::<OA>(h2, r@)->0 =~= models);
        }
        r
    }
}

// ---------------------------------------------------------------------------
// OCaml lists and arrays to Rust vectors

/// `raw` is a list whose every element reads as an `A`.
pub open spec fn accepts_list<OA: OCamlRepr, A: FromOCaml<OA>>(h: Seq<BlockModel>, raw: RawOCaml) -> bool
    decreases raw,
{
    raw == EMPTY_LIST || (raw >= 2 && has_fields(h, raw, 2) && tail_ok(raw, field_of(h, raw, 1))
        && A::accepts(h, field_of(h, raw, 0)) && accepts_list::<OA, A>(h, field_of(h, raw, 1)))
}

/// The list `raw` reads as the sequence `s`, element by element.
pub open spec fn reads_list<OA: OCamlRepr, A: FromOCaml<OA>>(
    h: Seq<BlockModel>,
    raw: RawOCaml,
    s: Seq<A>,
) -> bool
    decreases raw,
{
    if raw == EMPTY_LIST {
        s.len() == 0
    } else {
        &&& raw >= 2
        &&& raw % 2 == 0
        &&& s.len() > 0
        &&& tail_ok(raw, field_of(h, raw, 1))
        &&& A::reads_as(h, field_of(h, raw, 0), s[0])
        &&& reads_list::<OA, A>(h, field_of(h, raw, 1), s.drop_first())
    }
}

proof fn lemma_list_stable<OA: OCamlRepr, A: FromOCaml<OA>>(
    h1: Seq<BlockModel>,
    h2: Seq<BlockModel>,
    raw: RawOCaml,
)
    requires
        heap_wf(h1),
        valid_value(h1, raw),
        heap_extends(h1, h2),
        accepts_list::<OA, A>(h1, raw),
    ensures
        accepts_list::<OA, A>(h2, raw),
        forall|s: Seq<A>| reads_list::<OA, A>(h2, raw, s) == reads_list::<OA, A>(h1, raw, s),
    decreases raw,
{
    if raw != EMPTY_LIST {
        let tl = field_of(h1, raw, 1);
        lemma_field_stable(h1, h2, raw, 1);
        lemma_field_valid(h1, raw, 0);
        lemma_field_valid(h1, raw, 1);
        A::lemma_accepts_stable(h1, h2, field_of(h1, raw, 0));
        lemma_list_stable::<OA, A>(h1, h2, tl);
        assert forall|s: Seq<A>| reads_list::<OA, A>(h2, raw, s) == reads_list::<OA, A>(
            h1,
            raw,
            s,
        ) by {
            if s.len() > 0 {
                assert(A::reads_as(h2, field_of(h1, raw, 0), s[0]) == A::reads_as(
                    h1,
                    field_of(h1, raw, 0),
                    s[0],
                ));
                assert(reads_list::<OA, A>(h2, tl, s.drop_first()) == reads_list::<OA, A>(
                    h1,
                    tl,
                    s.drop_first(),
                ));
            }
        }
    }
}

impl<A, OA> FromOCaml<OCamlList<OA>> for Vec<A> where A: FromOCaml<OA>, OA: OCamlRepr {
    open spec fn accepts(h: Seq<BlockModel>, raw: RawOCaml) -> bool {
        accepts_list::<OA, A>(h, raw)
    }

    open spec fn reads_as(h: Seq<BlockModel>, raw: RawOCaml, r: Vec<A>) -> bool {
        reads_list::<OA, A>(h, raw, r@)
    }

    proof fn lemma_accepts_stable(h1: Seq<BlockModel>, h2: Seq<BlockModel>, raw: RawOCaml) {
        lemma_list_stable::<OA, A>(h1, h2, raw);
    }

    fn can_read(cr: &OCamlRuntime, v: OCaml<OCamlList<OA>>) -> (b: bool) {
        let mut current = v;
        while !current.is_empty()
            invariant
                cr.wf(),
                valid_value(cr@, current@),
                accepts_list::<OA, A>(cr@, v@) == accepts_list::<OA, A>(cr@, current@),
            decreases current@,
        {
            if !has_fields_value(cr, current.raw(), 2) {
                return false;
            }
            let hd: OCaml<OA> = current.field(cr, 0);
            let tl: OCaml<OCamlList<OA>> = current.field(cr, 1);
            if !(tl.raw() == EMPTY_LIST || (tl.raw() % 2 == 0 && 2 <= tl.raw() && tl.raw()
                < current.raw())) {
                return false;
            }
            if !A::can_read(cr, hd) {
                return false;
            }
            current = tl;
        }
        true
    }

    fn from_ocaml(cr: &OCamlRuntime, v: OCaml<OCamlList<OA>>) -> (r: Vec<A>) {
        let mut vec: Vec<A> = Vec::new();
        let mut current = v;
        proof {
            assert forall|rest: Seq<A>| reads_list::<OA, A>(cr@, current@, rest) implies reads_list::<
                OA,
                A,
            >(cr@, v@, vec@ + rest) by {
                assert(vec@ + rest =~= rest);
            }
        }
        while !current.is_empty()
            invariant
                cr.wf(),
                valid_value(cr@, current@),
                accepts_list::<OA, A>(cr@, current@),
                forall|rest: Seq<A>|
                    reads_list::<OA, A>(cr@, current@, rest) ==> #[trigger] reads_list::<OA, A>(
                        cr@,
                        v@,
                        vec@ + rest,
                    ),
            decreases current@,
        {
            if let Some((hd, tl)) = current.uncons(cr) {
                let ghost prev = current@;
                let ghost old_vec = vec@;
                let x = A::from_ocaml(cr, hd);
                vec.push(x);
                current = tl;
                proof {
                    assert forall|rest: Seq<A>| reads_list::<OA, A>(
                        cr@,
                        current@,
                        rest,
                    ) implies #[trigger] reads_list::<OA, A>(cr@, v@, vec@ + rest) by {
                        let rest2 = seq![x] + rest;
                        assert(rest2.drop_first() =~= rest);
                        assert(reads_list::<OA, A>(cr@, prev, rest2));
                        assert(old_vec + rest2 =~= vec@ + rest);
                    }
                }
            }
        }
        proof {
            assert(reads_list::<OA, A>(cr@, current@, Seq::<A>::empty()));
            assert(vec@ + Seq::<A>::empty() =~= vec@);
        }
        vec
    }
}

impl<A, OA> FromOCaml<OCamlUniformArray<OA>> for Vec<A> where A: FromOCaml<OA>, OA: OCamlRepr {
    /// A block of values (so not an unboxed float array) whose every field
    /// reads as an `A`.
    open spec fn accepts(h: Seq<BlockModel>, raw: RawOCaml) -> bool {
        &&& points_into(h, raw)
        &&& deref(h, raw) is Structured
        &&& forall|j: int|
            0 <= j < deref(h, raw)->fields.len() ==> #[trigger] A::accepts(
                h,
                deref(h, raw)->fields[j],
            )
    }

    open spec fn reads_as(h: Seq<BlockModel>, raw: RawOCaml, r: Vec<A>) -> bool {
        &&& r@.len() == deref(h, raw)->fields.len()
        &&& forall|j: int|
            0 <= j < r@.len() ==> #[trigger] A::reads_as(h, deref(h, raw)->fields[j], r@[j])
    }

    proof fn lemma_accepts_stable(h1: Seq<BlockModel>, h2: Seq<BlockModel>, raw: RawOCaml) {
        assert(h2[ref_index(raw)] == h1[ref_index(raw)]);
        let fields = deref(h1, raw)->fields;
        assert forall|j: int| 0 <= j < fields.len() implies #[trigger] A::accepts(h2, fields[j])
            && forall|x: A| A::reads_as(h2, fields[j], x) == A::reads_as(h1, fields[j], x) by {
            lemma_field_valid(h1, raw, j);
            A::lemma_accepts_stable(h1, h2, fields[j]);
        }
        assert forall|r: Vec<A>| <Vec<A> as FromOCaml<OCamlUniformArray<OA>>>::reads_as(h2, raw, r)
            == <Vec<A> as FromOCaml<OCamlUniformArray<OA>>>::reads_as(h1, raw, r) by {
            if r@.len() == fields.len() {
                assert forall|j: int| 0 <= j < r@.len() implies A::reads_as(h2, fields[j], r@[j])
                    == A::reads_as(h1, fields[j], r@[j]) by {
                    assert(A::accepts(h2, fields[j]));
                }
            }
        }
    }

    fn can_read(cr: &OCamlRuntime, v: OCaml<OCamlUniformArray<OA>>) -> (b: bool) {
        if !has_fields_value(cr, v.raw(), 0) {
            return false;
        }
        let size = v.size(cr);
        let mut i: usize = 0;
        while i < size
            invariant
                cr.wf(),
                valid_value(cr@, v@),
                has_fields(cr@, v@, 0),
                size == deref(cr@, v@)->fields.len(),
                i <= size,
                forall|j: int| 0 <= j < i ==> #[trigger] A::accepts(cr@, deref(cr@, v@)->fields[j]),
            decreases size - i,
        {
            let f: OCaml<OA> = v.field(cr, i);
            if !A::can_read(cr, f) {
                return false;
            }
            i = i + 1;
        }
        true
    }

    fn from_ocaml(cr: &OCamlRuntime, v: OCaml<OCamlUniformArray<OA>>) -> (r: Vec<A>) {
        let size = v.size(cr);
        let mut vec: Vec<A> = Vec::new();
        let mut i: usize = 0;
        while i < size
            invariant
                cr.wf(),
                valid_value(cr@, v@),
                <Vec<A> as FromOCaml<OCamlUniformArray<OA>>>::accepts(cr@, v@),
                size == deref(cr@, v@)->fields.len(),
                i <= size,
                vec@.len() == i,
                forall|j: int|
                    0 <= j < i ==> #[trigger] A::reads_as(cr@, deref(cr@, v@)->fields[j], vec@[j]),
            decreases size - i,
        {
            let f: OCaml<OA> = v.field(cr, i);
            proof {
                assert(A::accepts(cr@, deref(cr@, v@)->fields[i as int]));
            }
            let x = A::from_ocaml(cr, f);
            vec.push(x);
            i = i + 1;
        }
        vec
    }
}

} // verus!
