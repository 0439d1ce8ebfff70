//! `OCaml<T>`: an OCaml value of OCaml type `T`, and the ways to look at it.

use crate::error::OCamlFixnumConversionError;
use crate::mlvalues::tag;
use crate::mlvalues::{
    fits_fixnum, int_val, max_fixnum, min_fixnum, spec_is_block, spec_is_long,
    spec_max_fixnum, spec_min_fixnum, val_int, OCamlBytes, OCamlInt, OCamlList, RawOCaml,
    EMPTY_LIST, FALSE, NONE, TRUE, UNIT,
};
use crate::runtime::{
    block_tag, block_wf, block_wosize, deref, heap_wf, points_into, ref_index, valid_value, value_below,
    Block, BlockModel, OCamlRuntime,
};
use core::marker::PhantomData;
use vstd::prelude::*;
use vstd::string::StringSliceAdditionalSpecFns;

verus! {

/// Representation of OCaml values.
pub struct OCaml<T> {
    pub(crate) raw: RawOCaml,
    pub(crate) _marker: PhantomData<T>,
}

impl<T> View for OCaml<T> {
    type V = RawOCaml;

    closed spec fn view(&self) -> RawOCaml {
        self.raw
    }
}

impl<T> Clone for OCaml<T> {
    fn clone(&self) -> (r: Self)
        ensures
            r@ == self@,
    {
        OCaml { raw: self.raw, _marker: PhantomData }
    }
}

impl<T> Copy for OCaml<T> {
}

/// `raw` refers to a block of values with at least `n` fields.
pub open spec fn has_fields(h: Seq<BlockModel>, raw: RawOCaml, n: int) -> bool {
    &&& points_into(h, raw)
    &&& deref(h, raw) is Structured
    &&& n <= deref(h, raw)->fields.len()
}

/// Field `i` of the block `raw` refers to.
pub open spec fn field_of(h: Seq<BlockModel>, raw: RawOCaml, i: int) -> RawOCaml {
    deref(h, raw)->fields[i]
}

/// `raw` refers to a string or `bytes` block.
pub open spec fn is_bytes_block(h: Seq<BlockModel>, raw: RawOCaml) -> bool {
    points_into(h, raw) && deref(h, raw) is Bytes
}

/// `raw` refers to a block of values with tag `t` and exactly `n` fields.
pub open spec fn is_block_with(h: Seq<BlockModel>, raw: RawOCaml, t: u8, n: int) -> bool {
    &&& points_into(h, raw)
    &&& deref(h, raw) is Structured
    &&& deref(h, raw)->Structured_tag == t
    &&& deref(h, raw)->fields.len() == n
}

/// The contents of the string block `raw` refers to.
pub open spec fn bytes_of(h: Seq<BlockModel>, raw: RawOCaml) -> Seq<u8> {
    deref(h, raw)->data
}

/// The fields of a well-formed heap are values of that heap.
pub proof fn lemma_field_valid(h: Seq<BlockModel>, raw: RawOCaml, i: int)
    requires
        heap_wf(h),
        has_fields(h, raw, i + 1),
        0 <= i,
    ensures
        valid_value(h, field_of(h, raw, i)),
        value_below(field_of(h, raw, i), ref_index(raw)),
{
    let k = ref_index(raw);
    assert(block_wf(h[k], k));
    assert(value_below(deref(h, raw)->fields[i], k));
}

/// Whether `raw` refers to a string or `bytes` block.
pub fn is_bytes_value(cr: &OCamlRuntime, raw: RawOCaml) -> (r: bool)
    ensures
        r == is_bytes_block(cr@, raw),
{
    if cr.is_block_ref(raw) {
        match cr.block(raw) {
            Block::Bytes { .. } => true,
            _ => false,
        }
    } else {
        false
    }
}

/// Whether `raw` refers to a block of values with at least `n` fields.
pub fn has_fields_value(cr: &OCamlRuntime, raw: RawOCaml, n: usize) -> (r: bool)
    ensures
        r == has_fields(cr@, raw, n as int),
{
    if cr.is_block_ref(raw) {
        match cr.block(raw) {
            Block::Structured { fields, .. } => n <= fields.len(),
            _ => false,
        }
    } else {
        false
    }
}

/// Whether `bytes` is valid UTF-8.
pub fn is_utf8(bytes: &[u8]) -> (r: bool)
    ensures
        r == vstd::utf8::valid_utf8(bytes@),
{
    str_from_utf8(bytes).is_some()
}

/// `std::str::from_utf8`: succeeds exactly on valid UTF-8, and the string
/// it returns holds the given bytes.
#[verifier::external_body]
fn str_from_utf8(bytes: &[u8]) -> (r: Option<&str>)
    ensures
        r is Some <==> vstd::utf8::valid_utf8(bytes@),
        r matches Some(s) ==> s.spec_bytes() == bytes@,
{
    std::str::from_utf8(bytes).ok()
}

impl<T> OCaml<T> {
    /// Wraps a raw value.
    pub fn new(_cr: &OCamlRuntime, x: RawOCaml) -> (r: OCaml<T>)
        ensures
            r@ == x,
    {
        OCaml { raw: x, _marker: PhantomData }
    }

    /// The raw representation of this value (an immediate or a block reference).
    pub fn raw(&self) -> (r: RawOCaml)
        ensures
            r == self@,
    {
        self.raw
    }

    /// Whether this value refers to a block.
    pub fn is_block(&self) -> (r: bool)
        ensures
            r == spec_is_block(self@),
    {
        ocaml_sys::is_block(self.raw)
    }

    /// Whether this value refers to a block with exactly `size` fields.
    pub fn is_block_sized(&self, cr: &OCamlRuntime, size: usize) -> (r: bool)
        requires
            cr.wf(),
            valid_value(cr@, self@),
        ensures
            r == (spec_is_block(self@) && block_wosize(deref(cr@, self@)) == size),
    {
        self.is_block() && cr.wosize_of(self.raw) == size
    }

    /// Whether this value is an immediate.
    pub fn is_long(&self) -> (r: bool)
        ensures
            r == spec_is_long(self@),
    {
        ocaml_sys::is_long(self.raw)
    }

    /// The tag of the block this value refers to.
    pub fn tag_value(&self, cr: &OCamlRuntime) -> (t: u8)
        requires
            points_into(cr@, self@),
        ensures
            t == block_tag(deref(cr@, self@)),
    {
        cr.tag_of(self.raw)
    }

    /// The number of fields (words) of the block this value refers to.
    pub fn size(&self, cr: &OCamlRuntime) -> (n: usize)
        requires
            cr.wf(),
            points_into(cr@, self@),
        ensures
            n == block_wosize(deref(cr@, self@)),
    {
        cr.wosize_of(self.raw)
    }

    /// Field `i` of the block this value refers to.
    pub fn field<F>(&self, cr: &OCamlRuntime, i: usize) -> (r: OCaml<F>)
        requires
            cr.wf(),
            has_fields(cr@, self@, i + 1),
        ensures
            r@ == field_of(cr@, self@, i as int),
            valid_value(cr@, r@),
            value_below(r@, ref_index(self@)),
    {
        proof {
            lemma_field_valid(cr@, self@, i as int);
        }
        match cr.block(self.raw) {
            Block::Structured { fields, .. } => OCaml { raw: fields[i], _marker: PhantomData },
            _ => OCaml { raw: UNIT, _marker: PhantomData },
        }
    }
}

impl OCaml<()> {
    /// Returns a value that represent OCaml's unit value.
    pub fn unit() -> (r: Self)
        ensures
            r@ == UNIT,
    {
        OCaml { raw: UNIT, _marker: PhantomData }
    }
}

impl<T> OCaml<Option<T>> {
    /// Returns a value that represent OCaml's None value.
    pub fn none() -> (r: Self)
        ensures
            r@ == NONE,
    {
        OCaml { raw: NONE, _marker: PhantomData }
    }
}

/// The byte-level view of a string value.
fn bytes_slice(cr: &OCamlRuntime, raw: RawOCaml) -> (r: &[u8])
    requires
        is_bytes_block(cr@, raw),
    ensures
        r@ == bytes_of(cr@, raw),
{
    match cr.block(raw) {
        Block::Bytes { data } => data.as_slice(),
        _ => &[],
    }
}

impl OCaml<String> {
    /// Returns an `[u8]` reference to the internal bytes of this value.
    pub fn as_bytes<'a>(&self, cr: &'a OCamlRuntime) -> (r: &'a [u8])
        requires
            is_bytes_block(cr@, self@),
        ensures
            r@ == bytes_of(cr@, self@),
    {
        bytes_slice(cr, self.raw)
    }

    /// Returns a `str` reference to the internal bytes of this value.
    pub fn as_str<'a>(&self, cr: &'a OCamlRuntime) -> (r: &'a str)
        requires
            is_bytes_block(cr@, self@),
            vstd::utf8::valid_utf8(bytes_of(cr@, self@)),
        ensures
            r.spec_bytes() == bytes_of(cr@, self@),
    {
        let b = bytes_slice(cr, self.raw);
        match str_from_utf8(b) {
            Some(s) => s,
            None => "",
        }
    }

    /// Returns a `str` reference to the internal bytes of this value; the
    /// bytes must be valid UTF-8, which is not checked again.
    pub fn as_str_unchecked<'a>(&self, cr: &'a OCamlRuntime) -> (r: &'a str)
        requires
            is_bytes_block(cr@, self@),
            vstd::utf8::valid_utf8(bytes_of(cr@, self@)),
        ensures
            r.spec_bytes() == bytes_of(cr@, self@),
    {
        self.as_str(cr)
    }
}

impl OCaml<OCamlBytes> {
    /// Returns an `[u8]` reference to the internal bytes of this value.
    pub fn as_bytes<'a>(&self, cr: &'a OCamlRuntime) -> (r: &'a [u8])
        requires
            is_bytes_block(cr@, self@),
        ensures
            r@ == bytes_of(cr@, self@),
    {
        bytes_slice(cr, self.raw)
    }

    /// Returns a `str` reference to the internal bytes of this value.
    pub fn as_str<'a>(&self, cr: &'a OCamlRuntime) -> (r: &'a str)
        requires
            is_bytes_block(cr@, self@),
            vstd::utf8::valid_utf8(bytes_of(cr@, self@)),
        ensures
            r.spec_bytes() == bytes_of(cr@, self@),
    {
        let b = bytes_slice(cr, self.raw);
        match str_from_utf8(b) {
            Some(s) => s,
            None => "",
        }
    }

    /// Returns a `str` reference to the internal bytes of this value; the
    /// bytes must be valid UTF-8, which is not checked again.
    pub fn as_str_unchecked<'a>(&self, cr: &'a OCamlRuntime) -> (r: &'a str)
        requires
            is_bytes_block(cr@, self@),
            vstd::utf8::valid_utf8(bytes_of(cr@, self@)),
        ensures
            r.spec_bytes() == bytes_of(cr@, self@),
    {
        self.as_str(cr)
    }
}

impl OCaml<OCamlInt> {
    /// Converts an OCaml int to an `i64`.
    pub fn to_i64(&self) -> (r: i64)
        ensures
            r == self@ / 2,
    {
        int_val(self.raw) as i64
    }

    /// Creates an OCaml int from an `i64` without checking that it fits in
    /// an OCaml fixnum: the highest bit of `n` is lost when it does not.
    pub fn of_i64_unchecked(n: i64) -> (r: OCaml<OCamlInt>)
        ensures
            r@ == crate::conv::encode_i64(n),
            fits_fixnum(n as int) ==> r@ == 2 * n + 1,
    {
        proof {
            crate::conv::lemma_encode_i64(n);
        }
        OCaml { raw: ((n << 1) | 1i64) as RawOCaml, _marker: PhantomData }
    }

    /// Creates an OCaml int from an `i64`; fails when the integer does not
    /// fit in an OCaml fixnum.
    pub fn of_i64(n: i64) -> (r: Result<OCaml<OCamlInt>, OCamlFixnumConversionError>)
        ensures
            n > spec_max_fixnum() ==> r == Err::<OCaml<OCamlInt>, _>(
                OCamlFixnumConversionError::InputTooBig(n),
            ),
            n < spec_min_fixnum() ==> r == Err::<OCaml<OCamlInt>, _>(
                OCamlFixnumConversionError::InputTooSmall(n),
            ),
            fits_fixnum(n as int) ==> (r matches Ok(v) && v@ == 2 * n + 1),
    {
        if n > max_fixnum() as i64 {
            Err(OCamlFixnumConversionError::InputTooBig(n))
        } else if n < min_fixnum() as i64 {
            Err(OCamlFixnumConversionError::InputTooSmall(n))
        } else {
            Ok(OCaml { raw: val_int(n as isize), _marker: PhantomData })
        }
    }

    /// Creates an OCaml int from an `i32`.
    pub fn of_i32(n: i32) -> (r: OCaml<OCamlInt>)
        requires
            fits_fixnum(n as int),
        ensures
            r@ == 2 * n + 1,
    {
        OCaml { raw: val_int(n as isize), _marker: PhantomData }
    }
}

impl OCaml<bool> {
    /// Converts an OCaml boolean into a Rust boolean.
    pub fn to_bool(&self) -> (r: bool)
        ensures
            r == (self@ / 2 != 0),
    {
        int_val(self.raw) != 0
    }

    /// Creates an OCaml boolean from a Rust boolean.
    pub fn of_bool(b: bool) -> (r: OCaml<bool>)
        ensures
            r@ == (if b { TRUE } else { FALSE }),
    {
        OCaml { raw: if b { TRUE } else { FALSE }, _marker: PhantomData }
    }
}

impl<A> OCaml<Option<A>> {
    /// Returns true if this OCaml option value is an OCaml `None`.
    pub fn is_none(&self) -> (r: bool)
        ensures
            r == (self@ == NONE),
    {
        self.raw == NONE
    }

    /// Returns true if this OCaml option value is an OCaml `Some`.
    pub fn is_some(&self) -> (r: bool)
        ensures
            r == spec_is_block(self@),
    {
        self.is_block()
    }

    /// Converts an OCaml `Option<T>` value into a Rust `Option<OCaml<T>>`.
    pub fn to_option(&self, cr: &OCamlRuntime) -> (r: Option<OCaml<A>>)
        requires
            cr.wf(),
            self@ == NONE || has_fields(cr@, self@, 1),
        ensures
            self@ == NONE ==> r is None,
            self@ != NONE ==> (r matches Some(v) && v@ == field_of(cr@, self@, 0)),
    {
        if self.is_none() {
            None
        } else {
            Some(self.field(cr, 0))
        }
    }
}

impl<A, E> OCaml<Result<A, E>> {
    /// Returns true if this OCaml result value is an OCaml `Ok`.
    pub fn is_ok(&self, cr: &OCamlRuntime) -> (r: bool)
        requires
            points_into(cr@, self@),
        ensures
            r == (block_tag(deref(cr@, self@)) == tag::TAG_OK),
    {
        self.tag_value(cr) == tag::TAG_OK
    }

    /// Returns true if this OCaml result value is an OCaml `Error`.
    pub fn is_error(&self, cr: &OCamlRuntime) -> (r: bool)
        requires
            points_into(cr@, self@),
        ensures
            r == (block_tag(deref(cr@, self@)) == tag::TAG_ERROR),
    {
        self.tag_value(cr) == tag::TAG_ERROR
    }

    /// Converts an OCaml `Result<T, E>` value into a Rust `Result<OCaml<T>, OCaml<E>>`.
    pub fn to_result(&self, cr: &OCamlRuntime) -> (r: Result<OCaml<A>, OCaml<E>>)
        requires
            cr.wf(),
            has_fields(cr@, self@, 1),
            block_tag(deref(cr@, self@)) == tag::TAG_OK || block_tag(deref(cr@, self@))
                == tag::TAG_ERROR,
        ensures
            block_tag(deref(cr@, self@)) == tag::TAG_OK ==> (r matches Ok(v) && v@ == field_of(cr@, self@, 0)),
            block_tag(deref(cr@, self@)) == tag::TAG_ERROR ==> (r matches Err(e) && e@ == field_of(cr@, self@, 0)),
    {
        if self.is_ok(cr) {
            Ok(self.field(cr, 0))
        } else {
            Err(self.field(cr, 0))
        }
    }
}

impl<A, B> OCaml<(A, B)> {
    pub fn to_tuple(&self, cr: &OCamlRuntime) -> (r: (OCaml<A>, OCaml<B>))
        requires
            cr.wf(),
            has_fields(cr@, self@, 2),
        ensures
            r.0@ == field_of(cr@, self@, 0),
            r.1@ == field_of(cr@, self@, 1),
    {
        (self.fst(cr), self.snd(cr))
    }

    pub fn fst(&self, cr: &OCamlRuntime) -> (r: OCaml<A>)
        requires
            cr.wf(),
            has_fields(cr@, self@, 1),
        ensures
            r@ == field_of(cr@, self@, 0),
    {
        self.field(cr, 0)
    }

    pub fn snd(&self, cr: &OCamlRuntime) -> (r: OCaml<B>)
        requires
            cr.wf(),
            has_fields(cr@, self@, 2),
        ensures
            r@ == field_of(cr@, self@, 1),
    {
        self.field(cr, 1)
    }
}

impl<A, B, C> OCaml<(A, B, C)> {
    pub fn to_tuple(&self, cr: &OCamlRuntime) -> (r: (OCaml<A>, OCaml<B>, OCaml<C>))
        requires
            cr.wf(),
            has_fields(cr@, self@, 3),
        ensures
            r.0@ == field_of(cr@, self@, 0),
            r.1@ == field_of(cr@, self@, 1),
            r.2@ == field_of(cr@, self@, 2),
    {
        (self.fst(cr), self.snd(cr), self.tuple_3(cr))
    }

    pub fn fst(&self, cr: &OCamlRuntime) -> (r: OCaml<A>)
        requires
            cr.wf(),
            has_fields(cr@, self@, 1),
        ensures
            r@ == field_of(cr@, self@, 0),
    {
        self.field(cr, 0)
    }

    pub fn snd(&self, cr: &OCamlRuntime) -> (r: OCaml<B>)
        requires
            cr.wf(),
            has_fields(cr@, self@, 2),
        ensures
            r@ == field_of(cr@, self@, 1),
    {
        self.field(cr, 1)
    }

    pub fn tuple_3(&self, cr: &OCamlRuntime) -> (r: OCaml<C>)
        requires
            cr.wf(),
            has_fields(cr@, self@, 3),
        ensures
            r@ == field_of(cr@, self@, 2),
    {
        self.field(cr, 2)
    }
}

impl<A, B, C, D> OCaml<(A, B, C, D)> {
    pub fn to_tuple(&self, cr: &OCamlRuntime) -> (r: (OCaml<A>, OCaml<B>, OCaml<C>, OCaml<D>))
        requires
            cr.wf(),
            has_fields(cr@, self@, 4),
        ensures
            r.0@ == field_of(cr@, self@, 0),
            r.1@ == field_of(cr@, self@, 1),
            r.2@ == field_of(cr@, self@, 2),
            r.3@ == field_of(cr@, self@, 3),
    {
        (self.fst(cr), self.snd(cr), self.tuple_3(cr), self.tuple_4(cr))
    }

    pub fn fst(&self, cr: &OCamlRuntime) -> (r: OCaml<A>)
        requires
            cr.wf(),
            has_fields(cr@, self@, 1),
        ensures
            r@ == field_of(cr@, self@, 0),
    {
        self.field(cr, 0)
    }

    pub fn snd(&self, cr: &OCamlRuntime) -> (r: OCaml<B>)
        requires
            cr.wf(),
            has_fields(cr@, self@, 2),
        ensures
            r@ == field_of(cr@, self@, 1),
    {
        self.field(cr, 1)
    }

    pub fn tuple_3(&self, cr: &OCamlRuntime) -> (r: OCaml<C>)
        requires
            cr.wf(),
            has_fields(cr@, self@, 3),
        ensures
            r@ == field_of(cr@, self@, 2),
    {
        self.field(cr, 2)
    }

    pub fn tuple_4(&self, cr: &OCamlRuntime) -> (r: OCaml<D>)
        requires
            cr.wf(),
            has_fields(cr@, self@, 4),
        ensures
            r@ == field_of(cr@, self@, 3),
    {
        self.field(cr, 3)
    }
}

impl<A> OCaml<OCamlList<A>> {
    /// Returns an OCaml nil (empty list) value.
    pub fn nil() -> (r: Self)
        ensures
            r@ == EMPTY_LIST,
    {
        OCaml { raw: EMPTY_LIST, _marker: PhantomData }
    }

    /// Returns true if the value is OCaml's nil (empty list).
    pub fn is_empty(&self) -> (r: bool)
        ensures
            r == (self@ == EMPTY_LIST),
    {
        self.raw == EMPTY_LIST
    }

    /// Returns the head of an OCaml list.
    pub fn hd(&self, cr: &OCamlRuntime) -> (r: Option<OCaml<A>>)
        requires
            cr.wf(),
            self@ == EMPTY_LIST || has_fields(cr@, self@, 1),
        ensures
            self@ == EMPTY_LIST ==> r is None,
            self@ != EMPTY_LIST ==> (r matches Some(v) && v@ == field_of(cr@, self@, 0)),
    {
        if self.is_empty() {
            None
        } else {
            Some(self.field(cr, 0))
        }
    }

    /// Returns the tail of an OCaml list.
    pub fn tl(&self, cr: &OCamlRuntime) -> (r: Option<OCaml<OCamlList<A>>>)
        requires
            cr.wf(),
            self@ == EMPTY_LIST || has_fields(cr@, self@, 2),
        ensures
            self@ == EMPTY_LIST ==> r is None,
            self@ != EMPTY_LIST ==> (r matches Some(v) && v@ == field_of(cr@, self@, 1)),
    {
        if self.is_empty() {
            None
        } else {
            Some(self.field(cr, 1))
        }
    }

    /// Returns a tuple of the head and tail of an OCaml list.
    pub fn uncons(&self, cr: &OCamlRuntime) -> (r: Option<(OCaml<A>, Self)>)
        requires
            cr.wf(),
            self@ == EMPTY_LIST || has_fields(cr@, self@, 2),
        ensures
            self@ == EMPTY_LIST ==> r is None,
            self@ != EMPTY_LIST ==> (r matches Some(p) && p.0@ == field_of(cr@, self@, 0) && p.1@
                == field_of(cr@, self@, 1) && value_below(p.1@, ref_index(self@))),
    {
        if self.is_empty() {
            None
        } else {
            Some((self.field(cr, 0), self.field(cr, 1)))
        }
    }
}

} // verus!
