//! Conversions between Rust values and OCaml values.
//!
//! Every OCaml type `T` that takes part in a conversion describes, through
//! [`OCamlRepr`], which values of the heap represent which abstract OCaml
//! values (`T::Model`). [`ToOCaml`] builds such a representation from a Rust
//! value; [`FromOCaml`] reads one back.

pub mod compound;
pub mod list;
pub mod laws;
pub mod traits;
pub mod mapping;

use crate::mlvalues::{
    fits_fixnum, spec_is_long, OCamlBytes, OCamlInt, OCamlInt32, OCamlInt64, RawOCaml, FALSE, TRUE,
};
use crate::memory::{alloc_bytes, alloc_int32, alloc_int64, alloc_string};
use crate::runtime::{
    deref, heap_extends, heap_wf, points_into, valid_value, BlockModel, OCamlRuntime,
};
use crate::value::{bytes_of, is_bytes_block, is_bytes_value, is_utf8, OCaml};
use vstd::prelude::*;
use vstd::string::StringSliceAdditionalSpecFns;
use vstd::utf8::{decode_utf8, encode_utf8, valid_utf8};

verus! {

broadcast use {vstd::utf8::encode_utf8_valid_utf8, vstd::utf8::encode_utf8_decode_utf8};

/// An OCaml type: which heap values represent which abstract values.
pub trait OCamlRepr {
    /// The abstract OCaml values of this type.
    type Model;

    /// The abstract value `raw` represents in heap `h`, if it represents one.
    spec fn decode(h: Seq<BlockModel>, raw: RawOCaml) -> Option<Self::Model>;

    /// What a value represents does not change when the heap grows.
    proof fn lemma_decode_stable(h1: Seq<BlockModel>, h2: Seq<BlockModel>, raw: RawOCaml)
        requires
            heap_extends(h1, h2),
            Self::decode(h1, raw) is Some,
        ensures
            Self::decode(h2, raw) == Self::decode(h1, raw),
    ;
}

/// Implements conversion from Rust values into OCaml values.
pub trait ToOCaml<T: OCamlRepr> {
    /// The abstract OCaml value this Rust value converts to.
    spec fn ocaml_model(&self) -> T::Model;

    /// How many blocks the conversion allocates, at most.
    spec fn ocaml_blocks(&self) -> nat;

    /// Convert to OCaml value.
    fn to_ocaml(&self, cr: &mut OCamlRuntime) -> (r: OCaml<T>)
        requires
            old(cr).wf(),
            old(cr).has_room(self.ocaml_blocks()),
        ensures
            final(cr).wf(),
            final(cr).registry() == old(cr).registry(),
            heap_extends(old(cr)@, final(cr)@),
            final(cr)@.len() <= old(cr)@.len() + self.ocaml_blocks(),
            valid_value(final(cr)@, r@),
            T::decode(final(cr)@, r@) == Some(self.ocaml_model()),
    ;

    /// Convert to OCaml value and root it.
    fn to_boxroot(&self, cr: &mut OCamlRuntime) -> (r: crate::boxroot::BoxRoot<T>)
        requires
            old(cr).wf(),
            old(cr).has_room(self.ocaml_blocks()),
        ensures
            final(cr).wf(),
            final(cr).registry() == old(cr).registry(),
            heap_extends(old(cr)@, final(cr)@),
            valid_value(final(cr)@, r@),
            T::decode(final(cr)@, r@) == Some(self.ocaml_model()),
    {
        crate::boxroot::BoxRoot::new(self.to_ocaml(cr))
    }
}

/// Implements conversion from OCaml values into Rust values.
pub trait FromOCaml<T: OCamlRepr>: Sized {
    /// The values the conversion can read (on the others it would panic).
    spec fn accepts(h: Seq<BlockModel>, raw: RawOCaml) -> bool;

    /// The Rust value read from `raw`.
    spec fn reads_as(h: Seq<BlockModel>, raw: RawOCaml, r: Self) -> bool;

    /// Reading is unaffected by blocks allocated later.
    proof fn lemma_accepts_stable(h1: Seq<BlockModel>, h2: Seq<BlockModel>, raw: RawOCaml)
        requires
            heap_wf(h1),
            valid_value(h1, raw),
            heap_extends(h1, h2),
            Self::accepts(h1, raw),
        ensures
            Self::accepts(h2, raw),
            forall|r: Self| Self::reads_as(h2, raw, r) == Self::reads_as(h1, raw, r),
    ;

    /// Whether the conversion can read `v`.
    fn can_read(cr: &OCamlRuntime, v: OCaml<T>) -> (b: bool)
        requires
            cr.wf(),
            valid_value(cr@, v@),
        ensures
            b == Self::accepts(cr@, v@),
    ;

    /// Convert from OCaml value.
    fn from_ocaml(cr: &OCamlRuntime, v: OCaml<T>) -> (r: Self)
        requires
            cr.wf(),
            valid_value(cr@, v@),
            Self::accepts(cr@, v@),
        ensures
            Self::reads_as(cr@, v@, r),
    ;
}

impl<T> OCaml<T> {
    /// Converts this OCaml value into a Rust value.
    pub fn to_rust<RustT>(&self, cr: &OCamlRuntime) -> (r: RustT)
        where
            T: OCamlRepr,
            RustT: FromOCaml<T>,
        requires
            cr.wf(),
            valid_value(cr@, self@),
            RustT::accepts(cr@, self@),
        ensures
            RustT::reads_as(cr@, self@, r),
    {
        RustT::from_ocaml(cr, *self)
    }
}

// ---------------------------------------------------------------------------
// OCaml types

impl OCamlRepr for () {
    type Model = ();

    open spec fn decode(h: Seq<BlockModel>, raw: RawOCaml) -> Option<()> {
        Some(())
    }

    proof fn lemma_decode_stable(h1: Seq<BlockModel>, h2: Seq<BlockModel>, raw: RawOCaml) {
    }
}

impl OCamlRepr for OCamlInt {
    type Model = int;

    open spec fn decode(h: Seq<BlockModel>, raw: RawOCaml) -> Option<int> {
        if spec_is_long(raw) {
            Some(raw / 2)
        } else {
            None
        }
    }

    proof fn lemma_decode_stable(h1: Seq<BlockModel>, h2: Seq<BlockModel>, raw: RawOCaml) {
    }
}

impl OCamlRepr for bool {
    type Model = bool;

    open spec fn decode(h: Seq<BlockModel>, raw: RawOCaml) -> Option<bool> {
        if raw == TRUE {
            Some(true)
        } else if raw == FALSE {
            Some(false)
        } else {
            None
        }
    }

    proof fn lemma_decode_stable(h1: Seq<BlockModel>, h2: Seq<BlockModel>, raw: RawOCaml) {
    }
}

/// The bytes of the string block `raw` refers to, if it refers to one.
pub open spec fn decode_bytes(h: Seq<BlockModel>, raw: RawOCaml) -> Option<Seq<u8>> {
    if is_bytes_block(h, raw) {
        Some(bytes_of(h, raw))
    } else {
        None
    }
}

pub proof fn lemma_decode_bytes_stable(h1: Seq<BlockModel>, h2: Seq<BlockModel>, raw: RawOCaml)
    requires
        heap_extends(h1, h2),
        decode_bytes(h1, raw) is Some,
    ensures
        decode_bytes(h2, raw) == decode_bytes(h1, raw),
{
    assert(h2[crate::runtime::ref_index(raw)] == h1[crate::runtime::ref_index(raw)]);
}

impl OCamlRepr for String {
    type Model = Seq<u8>;

    open spec fn decode(h: Seq<BlockModel>, raw: RawOCaml) -> Option<Seq<u8>> {
        decode_bytes(h, raw)
    }

    proof fn lemma_decode_stable(h1: Seq<BlockModel>, h2: Seq<BlockModel>, raw: RawOCaml) {
        lemma_decode_bytes_stable(h1, h2, raw);
    }
}

impl OCamlRepr for OCamlBytes {
    type Model = Seq<u8>;

    open spec fn decode(h: Seq<BlockModel>, raw: RawOCaml) -> Option<Seq<u8>> {
        decode_bytes(h, raw)
    }

    proof fn lemma_decode_stable(h1: Seq<BlockModel>, h2: Seq<BlockModel>, raw: RawOCaml) {
        lemma_decode_bytes_stable(h1, h2, raw);
    }
}

impl OCamlRepr for OCamlInt32 {
    type Model = i32;

    open spec fn decode(h: Seq<BlockModel>, raw: RawOCaml) -> Option<i32> {
        if points_into(h, raw) && deref(h, raw) is Int32 {
            Some(deref(h, raw)->Int32_value)
        } else {
            None
        }
    }

    proof fn lemma_decode_stable(h1: Seq<BlockModel>, h2: Seq<BlockModel>, raw: RawOCaml) {
        assert(h2[crate::runtime::ref_index(raw)] == h1[crate::runtime::ref_index(raw)]);
    }
}

impl OCamlRepr for OCamlInt64 {
    type Model = i64;

    open spec fn decode(h: Seq<BlockModel>, raw: RawOCaml) -> Option<i64> {
        if points_into(h, raw) && deref(h, raw) is Int64 {
            Some(deref(h, raw)->Int64_value)
        } else {
            None
        }
    }

    proof fn lemma_decode_stable(h1: Seq<BlockModel>, h2: Seq<BlockModel>, raw: RawOCaml) {
        assert(h2[crate::runtime::ref_index(raw)] == h1[crate::runtime::ref_index(raw)]);
    }
}

// ---------------------------------------------------------------------------
// Rust to OCaml: immediates

/// The raw word `((n << 1) | 1)` that encodes `n` as an OCaml int; the
/// highest bit of `n` is lost when `n` is not a fixnum.
pub open spec fn encode_i64(n: i64) -> RawOCaml {
    ((n << 1) | 1) as RawOCaml
}

pub proof fn lemma_encode_i64(n: i64)
    ensures
        spec_is_long(encode_i64(n)),
        fits_fixnum(n as int) ==> encode_i64(n) == 2 * n + 1,
        fits_fixnum(n as int) ==> encode_i64(n) / 2 == n,
{
    assert(((n << 1) | 1) % 2 != 0) by (bit_vector);
    let w = (n << 1) | 1;
    assert(((w as isize) & 1 != 0) == ((w as isize) % 2 != 0)) by (bit_vector);
    assert((w & 1 == 1) ==> ((w as isize) & 1 != 0)) by (bit_vector);
    assert(w & 1 == 1) by (bit_vector) requires w == (n << 1) | 1;
    if fits_fixnum(n as int) {
        assert(-0x4000_0000_0000_0000 <= n <= 0x3fff_ffff_ffff_ffff);
        assert(((n << 1) | 1) == 2 * n + 1) by (bit_vector)
            requires
                -0x4000_0000_0000_0000 <= n <= 0x3fff_ffff_ffff_ffff,
        ;
    }
}

impl ToOCaml<()> for () {
    open spec fn ocaml_model(&self) -> () {
        ()
    }

    open spec fn ocaml_blocks(&self) -> nat {
        0
    }

    fn to_ocaml(&self, cr: &mut OCamlRuntime) -> (r: OCaml<()>) {
        OCaml::unit()
    }
}

impl ToOCaml<OCamlInt> for i64 {
    open spec fn ocaml_model(&self) -> int {
        encode_i64(*self) / 2
    }

    open spec fn ocaml_blocks(&self) -> nat {
        0
    }

    fn to_ocaml(&self, cr: &mut OCamlRuntime) -> (r: OCaml<OCamlInt>) {
        proof {
            lemma_encode_i64(*self);
        }
        let n: i64 = *self;
        let raw = ((n << 1) | 1i64) as RawOCaml;
        let r = OCaml::new(cr, raw);
        assert(r@ == encode_i64(*self));
        assert(OCamlInt::decode(cr@, r@) == Some(ToOCaml::<OCamlInt>::ocaml_model(self)));
        r
    }
}

impl ToOCaml<OCamlInt> for i32 {
    open spec fn ocaml_model(&self) -> int {
        encode_i64(*self as i64) / 2
    }

    open spec fn ocaml_blocks(&self) -> nat {
        0
    }

    fn to_ocaml(&self, cr: &mut OCamlRuntime) -> (r: OCaml<OCamlInt>) {
        let n: i64 = *self as i64;
        n.to_ocaml(cr)
    }
}

impl ToOCaml<bool> for bool {
    open spec fn ocaml_model(&self) -> bool {
        *self
    }

    open spec fn ocaml_blocks(&self) -> nat {
        0
    }

    fn to_ocaml(&self, cr: &mut OCamlRuntime) -> (r: OCaml<bool>) {
        OCaml::of_bool(*self)
    }
}

impl ToOCaml<OCamlInt32> for i32 {
    open spec fn ocaml_model(&self) -> i32 {
        *self
    }

    open spec fn ocaml_blocks(&self) -> nat {
        1
    }

    fn to_ocaml(&self, cr: &mut OCamlRuntime) -> (r: OCaml<OCamlInt32>) {
        alloc_int32(cr, *self)
    }
}

impl ToOCaml<OCamlInt64> for i64 {
    open spec fn ocaml_model(&self) -> i64 {
        *self
    }

    open spec fn ocaml_blocks(&self) -> nat {
        1
    }

    fn to_ocaml(&self, cr: &mut OCamlRuntime) -> (r: OCaml<OCamlInt64>) {
        alloc_int64(cr, *self)
    }
}

// ---------------------------------------------------------------------------
// Rust to OCaml: strings and bytes

impl<'s> ToOCaml<String> for &'s str {
    open spec fn ocaml_model(&self) -> Seq<u8> {
        encode_utf8((*self)@)
    }

    open spec fn ocaml_blocks(&self) -> nat {
        1
    }

    fn to_ocaml(&self, cr: &mut OCamlRuntime) -> (r: OCaml<String>) {
        alloc_string(cr, *self)
    }
}

impl<'s> ToOCaml<OCamlBytes> for &'s str {
    open spec fn ocaml_model(&self) -> Seq<u8> {
        encode_utf8((*self)@)
    }

    open spec fn ocaml_blocks(&self) -> nat {
        1
    }

    fn to_ocaml(&self, cr: &mut OCamlRuntime) -> (r: OCaml<OCamlBytes>) {
        alloc_bytes(cr, (*self).as_bytes())
    }
}

impl<'s> ToOCaml<OCamlBytes> for &'s [u8] {
    open spec fn ocaml_model(&self) -> Seq<u8> {
        (*self)@
    }

    open spec fn ocaml_blocks(&self) -> nat {
        1
    }

    fn to_ocaml(&self, cr: &mut OCamlRuntime) -> (r: OCaml<OCamlBytes>) {
        alloc_bytes(cr, *self)
    }
}

impl<'s> ToOCaml<String> for &'s [u8] {
    open spec fn ocaml_model(&self) -> Seq<u8> {
        (*self)@
    }

    open spec fn ocaml_blocks(&self) -> nat {
        1
    }

    fn to_ocaml(&self, cr: &mut OCamlRuntime) -> (r: OCaml<String>) {
        let b: OCaml<OCamlBytes> = alloc_bytes(cr, *self);
        OCaml::new(cr, b.raw())
    }
}

impl ToOCaml<String> for String {
    open spec fn ocaml_model(&self) -> Seq<u8> {
        encode_utf8(self@)
    }

    open spec fn ocaml_blocks(&self) -> nat {
        1
    }

    fn to_ocaml(&self, cr: &mut OCamlRuntime) -> (r: OCaml<String>) {
        alloc_string(cr, self.as_str())
    }
}

impl ToOCaml<OCamlBytes> for String {
    open spec fn ocaml_model(&self) -> Seq<u8> {
        encode_utf8(self@)
    }

    open spec fn ocaml_blocks(&self) -> nat {
        1
    }

    fn to_ocaml(&self, cr: &mut OCamlRuntime) -> (r: OCaml<OCamlBytes>) {
        alloc_bytes(cr, self.as_str().as_bytes())
    }
}

impl ToOCaml<String> for Vec<u8> {
    open spec fn ocaml_model(&self) -> Seq<u8> {
        self@
    }

    open spec fn ocaml_blocks(&self) -> nat {
        1
    }

    fn to_ocaml(&self, cr: &mut OCamlRuntime) -> (r: OCaml<String>) {
        let b: OCaml<OCamlBytes> = alloc_bytes(cr, self.as_slice());
        OCaml::new(cr, b.raw())
    }
}

impl ToOCaml<OCamlBytes> for Vec<u8> {
    open spec fn ocaml_model(&self) -> Seq<u8> {
        self@
    }

    open spec fn ocaml_blocks(&self) -> nat {
        1
    }

    fn to_ocaml(&self, cr: &mut OCamlRuntime) -> (r: OCaml<OCamlBytes>) {
        alloc_bytes(cr, self.as_slice())
    }
}

// ---------------------------------------------------------------------------
// OCaml to Rust: immediates, boxed integers, strings

impl FromOCaml<()> for () {
    open spec fn accepts(h: Seq<BlockModel>, raw: RawOCaml) -> bool {
        true
    }

    open spec fn reads_as(h: Seq<BlockModel>, raw: RawOCaml, r: ()) -> bool {
        true
    }

    proof fn lemma_accepts_stable(h1: Seq<BlockModel>, h2: Seq<BlockModel>, raw: RawOCaml) {
    }

    fn can_read(cr: &OCamlRuntime, v: OCaml<()>) -> (b: bool) {
        true
    }

    fn from_ocaml(cr: &OCamlRuntime, v: OCaml<()>) -> (r: ()) {
    }
}

impl FromOCaml<OCamlInt> for i64 {
    open spec fn accepts(h: Seq<BlockModel>, raw: RawOCaml) -> bool {
        true
    }

    open spec fn reads_as(h: Seq<BlockModel>, raw: RawOCaml, r: i64) -> bool {
        r == raw / 2
    }

    proof fn lemma_accepts_stable(h1: Seq<BlockModel>, h2: Seq<BlockModel>, raw: RawOCaml) {
    }

    fn can_read(cr: &OCamlRuntime, v: OCaml<OCamlInt>) -> (b: bool) {
        true
    }

    fn from_ocaml(cr: &OCamlRuntime, v: OCaml<OCamlInt>) -> (r: i64) {
        v.to_i64()
    }
}

impl FromOCaml<OCamlInt> for i32 {
    open spec fn accepts(h: Seq<BlockModel>, raw: RawOCaml) -> bool {
        true
    }

    open spec fn reads_as(h: Seq<BlockModel>, raw: RawOCaml, r: i32) -> bool {
        r == ((raw / 2) as i64) as i32
    }

    proof fn lemma_accepts_stable(h1: Seq<BlockModel>, h2: Seq<BlockModel>, raw: RawOCaml) {
    }

    fn can_read(cr: &OCamlRuntime, v: OCaml<OCamlInt>) -> (b: bool) {
        true
    }

    fn from_ocaml(cr: &OCamlRuntime, v: OCaml<OCamlInt>) -> (r: i32) {
        v.to_i64() as i32
    }
}

impl FromOCaml<bool> for bool {
    open spec fn accepts(h: Seq<BlockModel>, raw: RawOCaml) -> bool {
        true
    }

    open spec fn reads_as(h: Seq<BlockModel>, raw: RawOCaml, r: bool) -> bool {
        r == (raw / 2 != 0)
    }

    proof fn lemma_accepts_stable(h1: Seq<BlockModel>, h2: Seq<BlockModel>, raw: RawOCaml) {
    }

    fn can_read(cr: &OCamlRuntime, v: OCaml<bool>) -> (b: bool) {
        true
    }

    fn from_ocaml(cr: &OCamlRuntime, v: OCaml<bool>) -> (r: bool) {
        v.to_bool()
    }
}

impl FromOCaml<OCamlInt32> for i32 {
    open spec fn accepts(h: Seq<BlockModel>, raw: RawOCaml) -> bool {
        OCamlInt32::decode(h, raw) is Some
    }

    open spec fn reads_as(h: Seq<BlockModel>, raw: RawOCaml, r: i32) -> bool {
        OCamlInt32::decode(h, raw) == Some(r)
    }

    proof fn lemma_accepts_stable(h1: Seq<BlockModel>, h2: Seq<BlockModel>, raw: RawOCaml) {
        OCamlInt32::lemma_decode_stable(h1, h2, raw);
    }

    fn can_read(cr: &OCamlRuntime, v: OCaml<OCamlInt32>) -> (b: bool) {
        if cr.is_block_ref(v.raw()) {
            match cr.block(v.raw()) {
                crate::runtime::Block::Int32 { .. } => true,
                _ => false,
            }
        } else {
            false
        }
    }

    fn from_ocaml(cr: &OCamlRuntime, v: OCaml<OCamlInt32>) -> (r: i32) {
        match cr.block(v.raw()) {
            crate::runtime::Block::Int32 { value } => *value,
            _ => 0,
        }
    }
}

impl FromOCaml<OCamlInt64> for i64 {
    open spec fn accepts(h: Seq<BlockModel>, raw: RawOCaml) -> bool {
        OCamlInt64::decode(h, raw) is Some
    }

    open spec fn reads_as(h: Seq<BlockModel>, raw: RawOCaml, r: i64) -> bool {
        OCamlInt64::decode(h, raw) == Some(r)
    }

    proof fn lemma_accepts_stable(h1: Seq<BlockModel>, h2: Seq<BlockModel>, raw: RawOCaml) {
        OCamlInt64::lemma_decode_stable(h1, h2, raw);
    }

    fn can_read(cr: &OCamlRuntime, v: OCaml<OCamlInt64>) -> (b: bool) {
        if cr.is_block_ref(v.raw()) {
            match cr.block(v.raw()) {
                crate::runtime::Block::Int64 { .. } => true,
                _ => false,
            }
        } else {
            false
        }
    }

    fn from_ocaml(cr: &OCamlRuntime, v: OCaml<OCamlInt64>) -> (r: i64) {
        match cr.block(v.raw()) {
            crate::runtime::Block::Int64 { value } => *value,
            _ => 0,
        }
    }
}

/// What `String::from_utf8_lossy` decodes `bytes` to: the UTF-8 decoding,
/// with each invalid sequence replaced by U+FFFD.
pub uninterp spec fn utf8_lossy(bytes: Seq<u8>) -> Seq<char>;

/// `String::from_utf8_lossy` (then `into_owned`): decodes UTF-8, replacing
/// invalid sequences by U+FFFD. On valid UTF-8 input it is the plain decoding,
/// as its documentation states; on other input only the name is stated.
#[verifier::external_body]
pub(crate) fn string_from_utf8_lossy(bytes: &[u8]) -> (r: String)
    ensures
        r@ == utf8_lossy(bytes@),
        valid_utf8(bytes@) ==> r@ == decode_utf8(bytes@),
{
    String::from_utf8_lossy(bytes).into_owned()
}

/// The bytes of a string or `bytes` value.
fn value_bytes(cr: &OCamlRuntime, raw: RawOCaml) -> (r: &[u8])
    requires
        is_bytes_block(cr@, raw),
    ensures
        r@ == bytes_of(cr@, raw),
{
    match cr.block(raw) {
        crate::runtime::Block::Bytes { data } => data.as_slice(),
        _ => &[],
    }
}

impl FromOCaml<String> for Vec<u8> {
    open spec fn accepts(h: Seq<BlockModel>, raw: RawOCaml) -> bool {
        is_bytes_block(h, raw)
    }

    open spec fn reads_as(h: Seq<BlockModel>, raw: RawOCaml, r: Vec<u8>) -> bool {
        r@ == bytes_of(h, raw)
    }

    proof fn lemma_accepts_stable(h1: Seq<BlockModel>, h2: Seq<BlockModel>, raw: RawOCaml) {
        lemma_decode_bytes_stable(h1, h2, raw);
    }

    fn can_read(cr: &OCamlRuntime, v: OCaml<String>) -> (b: bool) {
        is_bytes_value(cr, v.raw())
    }

    fn from_ocaml(cr: &OCamlRuntime, v: OCaml<String>) -> (r: Vec<u8>) {
        vstd::slice::slice_to_vec(value_bytes(cr, v.raw()))
    }
}

impl FromOCaml<OCamlBytes> for Vec<u8> {
    open spec fn accepts(h: Seq<BlockModel>, raw: RawOCaml) -> bool {
        is_bytes_block(h, raw)
    }

    open spec fn reads_as(h: Seq<BlockModel>, raw: RawOCaml, r: Vec<u8>) -> bool {
        r@ == bytes_of(h, raw)
    }

    proof fn lemma_accepts_stable(h1: Seq<BlockModel>, h2: Seq<BlockModel>, raw: RawOCaml) {
        lemma_decode_bytes_stable(h1, h2, raw);
    }

    fn can_read(cr: &OCamlRuntime, v: OCaml<OCamlBytes>) -> (b: bool) {
        is_bytes_value(cr, v.raw())
    }

    fn from_ocaml(cr: &OCamlRuntime, v: OCaml<OCamlBytes>) -> (r: Vec<u8>) {
        vstd::slice::slice_to_vec(value_bytes(cr, v.raw()))
    }
}

impl FromOCaml<String> for String {
    open spec fn accepts(h: Seq<BlockModel>, raw: RawOCaml) -> bool {
        is_bytes_block(h, raw)
    }

    open spec fn reads_as(h: Seq<BlockModel>, raw: RawOCaml, r: String) -> bool {
        &&& r@ == utf8_lossy(bytes_of(h, raw))
        &&& valid_utf8(bytes_of(h, raw)) ==> r@ == decode_utf8(bytes_of(h, raw))
    }

    proof fn lemma_accepts_stable(h1: Seq<BlockModel>, h2: Seq<BlockModel>, raw: RawOCaml) {
        lemma_decode_bytes_stable(h1, h2, raw);
    }

    fn can_read(cr: &OCamlRuntime, v: OCaml<String>) -> (b: bool) {
        is_bytes_value(cr, v.raw())
    }

    fn from_ocaml(cr: &OCamlRuntime, v: OCaml<String>) -> (r: String) {
        string_from_utf8_lossy(value_bytes(cr, v.raw()))
    }
}

impl FromOCaml<OCamlBytes> for String {
    open spec fn accepts(h: Seq<BlockModel>, raw: RawOCaml) -> bool {
        is_bytes_block(h, raw) && valid_utf8(bytes_of(h, raw))
    }

    open spec fn reads_as(h: Seq<BlockModel>, raw: RawOCaml, r: String) -> bool {
        r@ == decode_utf8(bytes_of(h, raw))
    }

    proof fn lemma_accepts_stable(h1: Seq<BlockModel>, h2: Seq<BlockModel>, raw: RawOCaml) {
        lemma_decode_bytes_stable(h1, h2, raw);
    }

    fn can_read(cr: &OCamlRuntime, v: OCaml<OCamlBytes>) -> (b: bool) {
        is_bytes_value(cr, v.raw()) && is_utf8(value_bytes(cr, v.raw()))
    }

    fn from_ocaml(cr: &OCamlRuntime, v: OCaml<OCamlBytes>) -> (r: String) {
        let s: &str = v.as_str(cr);
        s.to_owned()
    }
}

} // verus!
