//! Rust functions called from OCaml: each reads its OCaml arguments,
//! computes, and converts its result back to an OCaml value.

use crate::conv::list::{accepts_list, decode_array, decode_list, reads_list};
use crate::conv::{encode_i64, FromOCaml, OCamlRepr, ToOCaml};
use crate::memory::{alloc_int32, alloc_int64, allocated_one};
use crate::mlvalues::tag;
use crate::mlvalues::{
    fits_fixnum, spec_is_long, OCamlBytes, OCamlInt, OCamlInt32, OCamlInt64, OCamlList,
    OCamlUniformArray, RawOCaml,
};
use crate::runtime::{block_tag, deref, heap_extends, valid_value, BlockModel, OCamlRuntime};
use crate::polyvar::tag_hash;
use crate::text::{dec_int, fmt_i64};
use crate::value::{bytes_of, field_of, has_fields, has_fields_value, is_bytes_block, OCaml};
use vstd::prelude::*;
use vstd::string::{StringExecFns, StringSliceAdditionalSpecFns};
use vstd::utf8::encode_utf8;

verus! {

/// The OCaml int `raw` doubled, without a check on the range.
pub fn rust_twice(cr: &mut OCamlRuntime, num: OCaml<OCamlInt>) -> (r: OCaml<OCamlInt>)
    ensures
        r@ == encode_i64((2 * (num@ / 2)) as i64),
        *final(cr) == *old(cr),
{
    let n: i64 = num.to_i64();
    let doubled: i64 = n * 2;
    OCaml::new(cr, ((doubled << 1) | 1i64) as RawOCaml)
}

/// A boxed `int64` doubled.
pub fn rust_twice_boxed_i64(cr: &mut OCamlRuntime, num: OCaml<OCamlInt64>) -> (r: OCaml<OCamlInt64>)
    requires
        old(cr).wf(),
        old(cr).has_room(1),
        valid_value(old(cr)@, num@),
        OCamlInt64::decode(old(cr)@, num@) matches Some(n) && i64::MIN <= 2 * n <= i64::MAX,
    ensures
        final(cr).wf(),
        final(cr).registry() == old(cr).registry(),
        allocated_one(
            old(cr)@,
            final(cr)@,
            BlockModel::Int64 { value: (2 * OCamlInt64::decode(old(cr)@, num@)->0) as i64 },
            r@,
        ),
{
    let n: i64 = num.to_rust(cr);
    alloc_int64(cr, n * 2)
}

/// A boxed `int32` doubled.
pub fn rust_twice_boxed_i32(cr: &mut OCamlRuntime, num: OCaml<OCamlInt32>) -> (r: OCaml<OCamlInt32>)
    requires
        old(cr).wf(),
        old(cr).has_room(1),
        valid_value(old(cr)@, num@),
        OCamlInt32::decode(old(cr)@, num@) matches Some(n) && i32::MIN <= 2 * n <= i32::MAX,
    ensures
        final(cr).wf(),
        final(cr).registry() == old(cr).registry(),
        allocated_one(
            old(cr)@,
            final(cr)@,
            BlockModel::Int32 { value: (2 * OCamlInt32::decode(old(cr)@, num@)->0) as i32 },
            r@,
        ),
{
    let n: i32 = num.to_rust(cr);
    alloc_int32(cr, n * 2)
}

/// `bytes` with each of its first `first_n` bytes incremented.
pub open spec fn incremented_prefix(bytes: Seq<u8>, first_n: int) -> Seq<u8> {
    Seq::new(
        bytes.len(),
        |i: int|
            if i < first_n {
                (bytes[i] + 1) as u8
            } else {
                bytes[i]
            },
    )
}

/// A copy of a `bytes` value with its first `first_n` bytes incremented.
pub fn rust_increment_bytes(
    cr: &mut OCamlRuntime,
    bytes: OCaml<OCamlBytes>,
    first_n: OCaml<OCamlInt>,
) -> (r: OCaml<OCamlBytes>)
    requires
        old(cr).wf(),
        old(cr).has_room(1),
        is_bytes_block(old(cr)@, bytes@),
        0 <= first_n@ / 2 <= bytes_of(old(cr)@, bytes@).len(),
        forall|i: int| 0 <= i < first_n@ / 2 ==> bytes_of(old(cr)@, bytes@)[i] < 255,
    ensures
        final(cr).wf(),
        final(cr).registry() == old(cr).registry(),
        allocated_one(
            old(cr)@,
            final(cr)@,
            BlockModel::Bytes {
                data: incremented_prefix(bytes_of(old(cr)@, bytes@), first_n@ / 2),
            },
            r@,
        ),
{
    let n: i64 = first_n.to_i64();
    let count = n as usize;
    let mut vec: Vec<u8> = bytes.to_rust(cr);
    let ghost orig = vec@;
    let mut i: usize = 0;
    while i < count
        invariant
            count == first_n@ / 2,
            count <= orig.len(),
            vec@.len() == orig.len(),
            i <= count,
            forall|j: int| 0 <= j < count ==> orig[j] < 255,
            forall|j: int| 0 <= j < vec@.len() ==> #[trigger] vec@[j] == (if j < i {
                (orig[j] + 1) as u8
            } else {
                orig[j]
            }),
        decreases count - i,
    {
        let b = vec[i];
        vec.set(i, b + 1);
        i = i + 1;
    }
    proof {
        assert(vec@ =~= incremented_prefix(orig, count as int));
    }
    crate::memory::alloc_bytes(cr, vec.as_slice())
}

/// The integers of `s`, each plus one.
pub open spec fn plus_one(s: Seq<i64>) -> Seq<i64> {
    s.map_values(|x: i64| (x + 1) as i64)
}

/// Integers read from an OCaml list are fixnums.
proof fn lemma_list_ints_fit(h: Seq<BlockModel>, raw: RawOCaml, s: Seq<i64>)
    requires
        reads_list::<OCamlInt, i64>(h, raw, s),
    ensures
        forall|j: int| 0 <= j < s.len() ==> fits_fixnum(#[trigger] s[j] as int),
    decreases raw,
{
    if raw != crate::mlvalues::EMPTY_LIST {
        lemma_list_ints_fit(h, field_of(h, raw, 1), s.drop_first());
        assert forall|j: int| 0 <= j < s.len() implies fits_fixnum(#[trigger] s[j] as int) by {
            if j > 0 {
                assert(s[j] == s.drop_first()[j - 1]);
            }
        }
    }
}

/// Converting integers to OCaml ints allocates nothing.
proof fn lemma_int_blocks(s: Seq<i64>)
    ensures
        crate::conv::list::elems_blocks::<i64, OCamlInt>(s) == 0,
    decreases s.len(),
{
    if s.len() > 0 {
        lemma_int_blocks(s.drop_first());
    }
}

/// An OCaml list of ints with each int incremented.
pub fn rust_increment_ints_list(cr: &mut OCamlRuntime, ints: OCaml<OCamlList<OCamlInt>>) -> (r:
    OCaml<OCamlList<OCamlInt>>)
    requires
        old(cr).wf(),
        valid_value(old(cr)@, ints@),
        accepts_list::<OCamlInt, i64>(old(cr)@, ints@),
        forall|s: Seq<i64>|
            reads_list::<OCamlInt, i64>(old(cr)@, ints@, s) ==> old(cr).has_room(s.len()),
    ensures
        exists|s: Seq<i64>|
            {
                &&& reads_list::<OCamlInt, i64>(old(cr)@, ints@, s)
                &&& final(cr).wf()
                &&& heap_extends(old(cr)@, final(cr)@)
                &&& #[trigger] decode_list::<OCamlInt>(final(cr)@, r@) == Some(
                    crate::conv::list::elems_models::<i64, OCamlInt>(plus_one(s)),
                )
            },
{
    let mut vec: Vec<i64> = ints.to_rust(cr);
    let ghost s = vec@;
    proof {
        lemma_list_ints_fit(cr@, ints@, s);
    }
    let mut i: usize = 0;
    while i < vec.len()
        invariant
            vec@.len() == s.len(),
            i <= vec@.len(),
            forall|j: int| 0 <= j < s.len() ==> fits_fixnum(#[trigger] s[j] as int),
            forall|j: int| 0 <= j < vec@.len() ==> #[trigger] vec@[j] == (if j < i {
                (s[j] + 1) as i64
            } else {
                s[j]
            }),
        decreases vec@.len() - i,
    {
        let x = vec[i];
        proof {
            assert(fits_fixnum(s[i as int] as int));
        }
        vec.set(i, x + 1);
        i = i + 1;
    }
    proof {
        assert(vec@ =~= plus_one(s));
        lemma_int_blocks(vec@);
    }
    vec.to_ocaml(cr)
}

/// An OCaml array of ints with each int incremented.
pub fn rust_increment_ints_uniform_array(
    cr: &mut OCamlRuntime,
    ints: OCaml<OCamlUniformArray<OCamlInt>>,
) -> (r: OCaml<OCamlUniformArray<OCamlInt>>)
    requires
        old(cr).wf(),
        old(cr).has_room(1),
        valid_value(old(cr)@, ints@),
        has_fields(old(cr)@, ints@, 0),
    ensures
        final(cr).wf(),
        heap_extends(old(cr)@, final(cr)@),
        decode_array::<OCamlInt>(final(cr)@, r@) == Some(
            crate::conv::list::elems_models::<i64, OCamlInt>(
                plus_one(deref(old(cr)@, ints@)->fields.map_values(|f: RawOCaml| (f / 2) as i64)),
            ),
        ),
{
    let mut vec: Vec<i64> = ints.to_rust(cr);
    let ghost fields = deref(cr@, ints@)->fields;
    let ghost s = vec@;
    proof {
        assert forall|j: int| 0 <= j < s.len() implies #[trigger] s[j] == fields[j] / 2 by {
            assert(<i64 as FromOCaml<OCamlInt>>::reads_as(cr@, fields[j], s[j]));
        }
        assert(s =~= fields.map_values(|f: RawOCaml| (f / 2) as i64));
    }
    let mut i: usize = 0;
    while i < vec.len()
        invariant
            vec@.len() == s.len(),
            s.len() == fields.len(),
            i <= vec@.len(),
            forall|j: int| 0 <= j < s.len() ==> #[trigger] s[j] == fields[j] / 2,
            forall|j: int| 0 <= j < vec@.len() ==> #[trigger] vec@[j] == (if j < i {
                (s[j] + 1) as i64
            } else {
                s[j]
            }),
        decreases vec@.len() - i,
    {
        let x = vec[i];
        proof {
            assert(s[i as int] == fields[i as int] / 2);
        }
        vec.set(i, x + 1);
        i = i + 1;
    }
    proof {
        assert(vec@ =~= plus_one(s));
        lemma_int_blocks(vec@);
    }
    vec.to_ocaml(cr)
}

/// The text `String::from_utf8_lossy` reads from the string value `raw`.
pub open spec fn lossy_text(h: Seq<BlockModel>, raw: RawOCaml) -> Seq<char> {
    crate::conv::utf8_lossy(bytes_of(h, raw))
}

/// The pair of a string and an int.
pub fn rust_make_tuple(cr: &mut OCamlRuntime, fst: OCaml<String>, snd: OCaml<OCamlInt>) -> (r:
    OCaml<(String, OCamlInt)>)
    requires
        old(cr).wf(),
        old(cr).has_room(2),
        is_bytes_block(old(cr)@, fst@),
    ensures
        final(cr).wf(),
        heap_extends(old(cr)@, final(cr)@),
        <(String, OCamlInt)>::decode(final(cr)@, r@) == Some(
            (encode_utf8(lossy_text(old(cr)@, fst@)), snd@ / 2),
        ),
{
    let a: String = fst.to_rust(cr);
    let b: i64 = snd.to_i64();
    proof {
        crate::conv::lemma_encode_i64(b);
    }
    let t = (a, b);
    t.to_ocaml(cr)
}

/// `Some` of a string.
pub fn rust_make_some(cr: &mut OCamlRuntime, value: OCaml<String>) -> (r: OCaml<Option<String>>)
    requires
        old(cr).wf(),
        old(cr).has_room(2),
        is_bytes_block(old(cr)@, value@),
    ensures
        final(cr).wf(),
        heap_extends(old(cr)@, final(cr)@),
        <Option<String>>::decode(final(cr)@, r@) == Some(
            Some(encode_utf8(lossy_text(old(cr)@, value@))),
        ),
{
    let v: String = value.to_rust(cr);
    let some_value = Some(v);
    some_value.to_ocaml(cr)
}

/// `Ok` of an int.
pub fn rust_make_ok(cr: &mut OCamlRuntime, value: OCaml<OCamlInt>) -> (r: OCaml<
    Result<OCamlInt, String>,
>)
    requires
        old(cr).wf(),
        old(cr).has_room(1),
    ensures
        final(cr).wf(),
        heap_extends(old(cr)@, final(cr)@),
        <Result<OCamlInt, String>>::decode(final(cr)@, r@) == Some(
            Ok::<int, Seq<u8>>(value@ / 2),
        ),
{
    let v: i64 = value.to_i64();
    proof {
        crate::conv::lemma_encode_i64(v);
    }
    let ok_value: Result<i64, String> = Ok(v);
    ok_value.to_ocaml(cr)
}

/// `Error` of a string.
pub fn rust_make_error(cr: &mut OCamlRuntime, value: OCaml<String>) -> (r: OCaml<
    Result<OCamlInt, String>,
>)
    requires
        old(cr).wf(),
        old(cr).has_room(2),
        is_bytes_block(old(cr)@, value@),
    ensures
        final(cr).wf(),
        heap_extends(old(cr)@, final(cr)@),
        <Result<OCamlInt, String>>::decode(final(cr)@, r@) == Some(
            Err::<int, Seq<u8>>(encode_utf8(lossy_text(old(cr)@, value@))),
        ),
{
    let v: String = value.to_rust(cr);
    let error_value: Result<i64, String> = Err(v);
    error_value.to_ocaml(cr)
}

/// The sum of seven OCaml ints, without a check on the range.
pub fn rust_rust_add_7ints(
    cr: &mut OCamlRuntime,
    int1: OCaml<OCamlInt>,
    int2: OCaml<OCamlInt>,
    int3: OCaml<OCamlInt>,
    int4: OCaml<OCamlInt>,
    int5: OCaml<OCamlInt>,
    int6: OCaml<OCamlInt>,
    int7: OCaml<OCamlInt>,
) -> (r: OCaml<OCamlInt>)
    requires
        i64::MIN <= int1@ / 2 + int2@ / 2 + int3@ / 2 + int4@ / 2 + int5@ / 2 + int6@ / 2 + int7@
            / 2 <= i64::MAX,
        i64::MIN <= int1@ / 2 + int2@ / 2 <= i64::MAX,
        i64::MIN <= int1@ / 2 + int2@ / 2 + int3@ / 2 <= i64::MAX,
        i64::MIN <= int1@ / 2 + int2@ / 2 + int3@ / 2 + int4@ / 2 <= i64::MAX,
        i64::MIN <= int1@ / 2 + int2@ / 2 + int3@ / 2 + int4@ / 2 + int5@ / 2 <= i64::MAX,
        i64::MIN <= int1@ / 2 + int2@ / 2 + int3@ / 2 + int4@ / 2 + int5@ / 2 + int6@ / 2
            <= i64::MAX,
    ensures
        r@ == encode_i64(
            (int1@ / 2 + int2@ / 2 + int3@ / 2 + int4@ / 2 + int5@ / 2 + int6@ / 2 + int7@
                / 2) as i64,
        ),
{
    let sum: i64 = int1.to_i64() + int2.to_i64() + int3.to_i64() + int4.to_i64() + int5.to_i64()
        + int6.to_i64() + int7.to_i64();
    OCaml::new(cr, ((sum << 1) | 1i64) as RawOCaml)
}

/// What `rust_should_panic_with_message` does: it fails with the message
/// when asked to, and returns unit otherwise.
pub fn rust_should_panic_with_message(
    cr: &mut OCamlRuntime,
    message: OCaml<String>,
    should_panic: OCaml<bool>,
) -> (r: Result<(), String>)
    requires
        old(cr).wf(),
        is_bytes_block(old(cr)@, message@),
        valid_value(old(cr)@, should_panic@),
    ensures
        *final(cr) == *old(cr),
        should_panic@ / 2 != 0 ==> (r matches Err(m) && m@ == lossy_text(old(cr)@, message@)),
        should_panic@ / 2 == 0 ==> r is Ok,
{
    let m: String = message.to_rust(cr);
    let p: bool = should_panic.to_rust(cr);
    if p {
        Err(m)
    } else {
        Ok(())
    }
}

/// A movement, as OCaml code sends it: `Step of int`, `Expand of int * int`
/// as inline record fields, and two constant constructors.
#[derive(Debug, Clone, Copy, PartialEq, Eq, Structural)]
pub enum Movement {
    Step { count: i32 },
    Expand { width: i64, height: i64 },
    RotateLeft,
    RotateRight,
}

impl OCamlRepr for Movement {
    type Model = Movement;

    /// Constant constructors are the ints 0 and 1; `Step` is a block of
    /// tag 0 with one int field, `Expand` a block of tag 1 with two.
    open spec fn decode(h: Seq<BlockModel>, raw: RawOCaml) -> Option<Movement> {
        if raw == 1 {
            Some(Movement::RotateLeft)
        } else if raw == 3 {
            Some(Movement::RotateRight)
        } else if crate::value::is_block_with(h, raw, 0, 1) && spec_is_long(field_of(h, raw, 0)) {
            Some(Movement::Step { count: ((field_of(h, raw, 0) / 2) as i64) as i32 })
        } else if crate::value::is_block_with(h, raw, 1, 2) && spec_is_long(field_of(h, raw, 0))
            && spec_is_long(field_of(h, raw, 1)) {
            Some(
                Movement::Expand {
                    width: (field_of(h, raw, 0) / 2) as i64,
                    height: (field_of(h, raw, 1) / 2) as i64,
                },
            )
        } else {
            None
        }
    }

    proof fn lemma_decode_stable(h1: Seq<BlockModel>, h2: Seq<BlockModel>, raw: RawOCaml) {
        if raw % 2 == 0 {
            crate::conv::compound::lemma_field_stable(h1, h2, raw, 0);
        }
    }
}

impl FromOCaml<Movement> for Movement {
    /// An int 0 or 1, or a block of tag 0 with a field, or of tag 1 with
    /// two fields.
    open spec fn accepts(h: Seq<BlockModel>, raw: RawOCaml) -> bool {
        if spec_is_long(raw) {
            raw / 2 == 0 || raw / 2 == 1
        } else {
            &&& has_fields(h, raw, 1)
            &&& (block_tag(deref(h, raw)) == 0 || (block_tag(deref(h, raw)) == 1 && has_fields(
                h,
                raw,
                2,
            )))
        }
    }

    open spec fn reads_as(h: Seq<BlockModel>, raw: RawOCaml, r: Movement) -> bool {
        if spec_is_long(raw) {
            r == if raw / 2 == 0 {
                Movement::RotateLeft
            } else {
                Movement::RotateRight
            }
        } else if block_tag(deref(h, raw)) == 0 {
            r == Movement::Step { count: ((field_of(h, raw, 0) / 2) as i64) as i32 }
        } else {
            r == Movement::Expand {
                width: (field_of(h, raw, 0) / 2) as i64,
                height: (field_of(h, raw, 1) / 2) as i64,
            }
        }
    }

    proof fn lemma_accepts_stable(h1: Seq<BlockModel>, h2: Seq<BlockModel>, raw: RawOCaml) {
        if !spec_is_long(raw) {
            crate::conv::compound::lemma_field_stable(h1, h2, raw, 0);
        }
    }

    fn can_read(cr: &OCamlRuntime, v: OCaml<Movement>) -> (b: bool) {
        if v.is_long() {
            let n = v.raw() >> 1;
            proof {
                let raw = v@;
                assert(raw >> 1 == raw / 2) by (bit_vector);
            }
            n == 0 || n == 1
        } else if has_fields_value(cr, v.raw(), 1) {
            let t = v.tag_value(cr);
            t == 0 || (t == 1 && has_fields_value(cr, v.raw(), 2))
        } else {
            false
        }
    }

    fn from_ocaml(cr: &OCamlRuntime, v: OCaml<Movement>) -> (r: Movement) {
        if v.is_long() {
            let n = v.raw() >> 1;
            proof {
                let raw = v@;
                assert(raw >> 1 == raw / 2) by (bit_vector);
            }
            if n == 0 {
                Movement::RotateLeft
            } else {
                Movement::RotateRight
            }
        } else if v.tag_value(cr) == 0 {
            let f: OCaml<OCamlInt> = v.field(cr, 0);
            let count: i32 = f.to_i64() as i32;
            Movement::Step { count }
        } else {
            let w: OCaml<OCamlInt> = v.field(cr, 0);
            let h: OCaml<OCamlInt> = v.field(cr, 1);
            Movement::Expand { width: w.to_i64(), height: h.to_i64() }
        }
    }
}

/// How a movement is written out.
pub open spec fn movement_text(m: Movement) -> Seq<char> {
    match m {
        Movement::Step { count } => "Step("@ + dec_int(count as int) + ")"@,
        Movement::Expand { width, height } => "Expand { width: "@ + dec_int(width as int)
            + ", height: "@ + dec_int(height as int) + " }"@,
        Movement::RotateLeft => "RotateLeft"@,
        Movement::RotateRight => "RotateRight"@,
    }
}

/// Writes out a movement.
pub fn movement_to_string(m: Movement) -> (s: String)
    ensures
        s@ == movement_text(m),
{
    match m {
        Movement::Step { count } => {
            let mut s = String::from_str("Step(");
            s.append(fmt_i64(count as i64).as_str());
            s.append(")");
            s
        },
        Movement::Expand { width, height } => {
            let mut s = String::from_str("Expand { width: ");
            s.append(fmt_i64(width).as_str());
            s.append(", height: ");
            s.append(fmt_i64(height).as_str());
            s.append(" }");
            s
        },
        Movement::RotateLeft => String::from_str("RotateLeft"),
        Movement::RotateRight => String::from_str("RotateRight"),
    }
}

/// The text of a movement sent by OCaml, as an OCaml string.
pub fn rust_string_of_movement(cr: &mut OCamlRuntime, movement: OCaml<Movement>) -> (r: OCaml<String>)
    requires
        old(cr).wf(),
        old(cr).has_room(1),
        valid_value(old(cr)@, movement@),
        Movement::accepts(old(cr)@, movement@),
    ensures
        exists|m: Movement|
            {
                &&& Movement::reads_as(old(cr)@, movement@, m)
                &&& final(cr).wf()
                &&& #[trigger] allocated_one(
                    old(cr)@,
                    final(cr)@,
                    BlockModel::Bytes { data: encode_utf8(movement_text(m)) },
                    r@,
                )
            },
{
    let m: Movement = movement.to_rust(cr);
    let s = movement_to_string(m);
    let r = crate::memory::alloc_string(cr, s.as_str());
    proof {
        assert(allocated_one(old(cr)@, cr@, BlockModel::Bytes { data: encode_utf8(movement_text(m)) }, r@));
    }
    r
}

/// A movement sent by OCaml as a polymorphic variant: `` `Step of int ``,
/// `` `Expand of int * int ``, `` `RotateLeft `` and `` `RotateRight ``.
#[derive(Debug, Clone, Copy, PartialEq, Eq, Structural)]
pub enum PolymorphicMovement {
    Step { count: i32 },
    Expand { width: i64, height: i64 },
    RotateLeft,
    RotateRight,
}

/// The OCaml value of the constant variant with this tag.
pub open spec fn tag_value(name: Seq<char>) -> int {
    2 * tag_hash(name) + 1
}

impl OCamlRepr for PolymorphicMovement {
    type Model = PolymorphicMovement;

    /// Constant variants are the immediates of their tag hashes; the others
    /// are blocks of tag 0 holding the tag hash and the argument.
    open spec fn decode(h: Seq<BlockModel>, raw: RawOCaml) -> Option<PolymorphicMovement> {
        if spec_is_long(raw) {
            if raw == tag_value("RotateLeft"@) {
                Some(PolymorphicMovement::RotateLeft)
            } else if raw == tag_value("RotateRight"@) {
                Some(PolymorphicMovement::RotateRight)
            } else {
                None
            }
        } else if crate::value::is_block_with(h, raw, 0, 2) {
            let arg = field_of(h, raw, 1);
            if field_of(h, raw, 0) == tag_value("Step"@) && spec_is_long(arg) {
                Some(PolymorphicMovement::Step { count: ((arg / 2) as i64) as i32 })
            } else if field_of(h, raw, 0) == tag_value("Expand"@) && crate::value::is_block_with(
                h,
                arg,
                0,
                2,
            ) && spec_is_long(field_of(h, arg, 0)) && spec_is_long(field_of(h, arg, 1)) {
                Some(
                    PolymorphicMovement::Expand {
                        width: (field_of(h, arg, 0) / 2) as i64,
                        height: (field_of(h, arg, 1) / 2) as i64,
                    },
                )
            } else {
                None
            }
        } else {
            None
        }
    }

    proof fn lemma_decode_stable(h1: Seq<BlockModel>, h2: Seq<BlockModel>, raw: RawOCaml) {
        if !spec_is_long(raw) {
            crate::conv::compound::lemma_field_stable(h1, h2, raw, 1);
            let arg = field_of(h1, raw, 1);
            if field_of(h1, raw, 0) != tag_value("Step"@) || !spec_is_long(arg) {
                crate::conv::compound::lemma_field_stable(h1, h2, arg, 1);
            }
        }
    }
}

/// The block `raw` is a polymorphic variant: two fields and tag 0.
pub open spec fn is_poly_block(h: Seq<BlockModel>, raw: RawOCaml) -> bool {
    &&& crate::runtime::points_into(h, raw)
    &&& deref(h, raw) is Structured
    &&& crate::runtime::block_wosize(deref(h, raw)) == 2
    &&& block_tag(deref(h, raw)) == 0
}

impl FromOCaml<PolymorphicMovement> for PolymorphicMovement {
    /// A constant variant of one of the two tags, or a variant block of
    /// `Step` with any argument, or of `Expand` with a pair.
    open spec fn accepts(h: Seq<BlockModel>, raw: RawOCaml) -> bool {
        if spec_is_long(raw) {
            raw == tag_value("RotateLeft"@) || raw == tag_value("RotateRight"@)
        } else {
            &&& is_poly_block(h, raw)
            &&& (field_of(h, raw, 0) == tag_value("Step"@) || (field_of(h, raw, 0) == tag_value(
                "Expand"@,
            ) && has_fields(h, field_of(h, raw, 1), 2)))
        }
    }

    open spec fn reads_as(h: Seq<BlockModel>, raw: RawOCaml, r: PolymorphicMovement) -> bool {
        if spec_is_long(raw) {
            r == if raw == tag_value("RotateLeft"@) {
                PolymorphicMovement::RotateLeft
            } else {
                PolymorphicMovement::RotateRight
            }
        } else if field_of(h, raw, 0) == tag_value("Step"@) {
            r == PolymorphicMovement::Step { count: ((field_of(h, raw, 1) / 2) as i64) as i32 }
        } else {
            let pair = field_of(h, raw, 1);
            r == PolymorphicMovement::Expand {
                width: (field_of(h, pair, 0) / 2) as i64,
                height: (field_of(h, pair, 1) / 2) as i64,
            }
        }
    }

    proof fn lemma_accepts_stable(h1: Seq<BlockModel>, h2: Seq<BlockModel>, raw: RawOCaml) {
        if !spec_is_long(raw) {
            crate::conv::compound::lemma_field_stable(h1, h2, raw, 1);
            if field_of(h1, raw, 0) != tag_value("Step"@) {
                crate::conv::compound::lemma_field_stable(h1, h2, field_of(h1, raw, 1), 1);
            }
        }
    }

    fn can_read(cr: &OCamlRuntime, v: OCaml<PolymorphicMovement>) -> (b: bool) {
        if v.is_long() {
            v.raw() == crate::polyvar::hash_variant("RotateLeft") || v.raw()
                == crate::polyvar::hash_variant("RotateRight")
        } else if v.is_block_sized(cr, 2) && v.tag_value(cr) == 0 && has_fields_value(
            cr,
            v.raw(),
            0,
        ) {
            let hash: OCaml<OCamlInt> = v.field(cr, 0);
            let arg: OCaml<(OCamlInt, OCamlInt)> = v.field(cr, 1);
            hash.raw() == crate::polyvar::hash_variant("Step") || (hash.raw()
                == crate::polyvar::hash_variant("Expand") && has_fields_value(cr, arg.raw(), 2))
        } else {
            false
        }
    }

    fn from_ocaml(cr: &OCamlRuntime, v: OCaml<PolymorphicMovement>) -> (r: PolymorphicMovement) {
        if v.is_long() {
            if v.raw() == crate::polyvar::hash_variant("RotateLeft") {
                PolymorphicMovement::RotateLeft
            } else {
                PolymorphicMovement::RotateRight
            }
        } else {
            let hash: OCaml<OCamlInt> = v.field(cr, 0);
            if hash.raw() == crate::polyvar::hash_variant("Step") {
                let count: OCaml<OCamlInt> = v.field(cr, 1);
                PolymorphicMovement::Step { count: count.to_i64() as i32 }
            } else {
                let pair: OCaml<(OCamlInt, OCamlInt)> = v.field(cr, 1);
                let (width, height): (i64, i64) = pair.to_rust(cr);
                PolymorphicMovement::Expand { width, height }
            }
        }
    }
}

/// How a polymorphic movement is written out.
pub open spec fn polymorphic_movement_text(m: PolymorphicMovement) -> Seq<char> {
    match m {
        PolymorphicMovement::Step { count } => "`Step("@ + dec_int(count as int) + ")"@,
        PolymorphicMovement::Expand { width, height } => "`Expand("@ + dec_int(width as int)
            + ", "@ + dec_int(height as int) + ")"@,
        PolymorphicMovement::RotateLeft => "`RotateLeft"@,
        PolymorphicMovement::RotateRight => "`RotateRight"@,
    }
}

/// Writes out a polymorphic movement.
pub fn polymorphic_movement_to_string(m: PolymorphicMovement) -> (s: String)
    ensures
        s@ == polymorphic_movement_text(m),
{
    match m {
        PolymorphicMovement::Step { count } => {
            let mut s = String::from_str("`Step(");
            s.append(fmt_i64(count as i64).as_str());
            s.append(")");
            s
        },
        PolymorphicMovement::Expand { width, height } => {
            let mut s = String::from_str("`Expand(");
            s.append(fmt_i64(width).as_str());
            s.append(", ");
            s.append(fmt_i64(height).as_str());
            s.append(")");
            s
        },
        PolymorphicMovement::RotateLeft => String::from_str("`RotateLeft"),
        PolymorphicMovement::RotateRight => String::from_str("`RotateRight"),
    }
}

/// The text of a polymorphic movement sent by OCaml, as an OCaml string.
pub fn rust_string_of_polymorphic_movement(
    cr: &mut OCamlRuntime,
    polymorphic_movement: OCaml<PolymorphicMovement>,
) -> (r: OCaml<String>)
    requires
        old(cr).wf(),
        old(cr).has_room(1),
        valid_value(old(cr)@, polymorphic_movement@),
        PolymorphicMovement::accepts(old(cr)@, polymorphic_movement@),
    ensures
        exists|m: PolymorphicMovement|
            {
                &&& PolymorphicMovement::reads_as(old(cr)@, polymorphic_movement@, m)
                &&& final(cr).wf()
                &&& #[trigger] allocated_one(
                    old(cr)@,
                    final(cr)@,
                    BlockModel::Bytes { data: encode_utf8(polymorphic_movement_text(m)) },
                    r@,
                )
            },
{
    let m: PolymorphicMovement = polymorphic_movement.to_rust(cr);
    let s = polymorphic_movement_to_string(m);
    let r = crate::memory::alloc_string(cr, s.as_str());
    proof {
        assert(allocated_one(
            old(cr)@,
            cr@,
            BlockModel::Bytes { data: encode_utf8(polymorphic_movement_text(m)) },
            r@,
        ));
    }
    r
}

} // verus!
