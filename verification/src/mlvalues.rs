//! Representation of OCaml values: the tagged word (`RawOCaml`), the
//! immediate constants, fixnum encoding and the marker types that name
//! OCaml types on the Rust side.

use core::marker::PhantomData;
use vstd::prelude::*;

pub mod bigarray;
pub mod tag;


verus! {

/// A raw OCaml value: either a tagged integer (lowest bit set) or a
/// reference to a heap block (lowest bit clear).
pub type RawOCaml = isize;

/// OCaml native signed integer.
pub type Intnat = isize;

/// OCaml native unsigned integer.
pub type UIntnat = usize;

/// [`OCaml`]`<OCamlInt>` is an OCaml integer (tagged and unboxed) value.
pub type OCamlInt = Intnat;

/// The OCaml `()` value.
pub const UNIT: RawOCaml = 1;

/// The OCaml `None` value.
pub const NONE: RawOCaml = 1;

/// The OCaml `[]` value.
pub const EMPTY_LIST: RawOCaml = 1;

/// The OCaml `true` value.
pub const TRUE: RawOCaml = 3;

/// The OCaml `false` value.
pub const FALSE: RawOCaml = 1;

/// Largest integer that fits in an OCaml fixnum.
pub open spec fn spec_max_fixnum() -> int {
    isize::MAX / 2
}

/// Smallest integer that fits in an OCaml fixnum.
pub open spec fn spec_min_fixnum() -> int {
    isize::MIN / 2
}

/// Largest integer that fits in an OCaml fixnum.
pub fn max_fixnum() -> (r: Intnat)
    ensures
        r == spec_max_fixnum(),
{
    isize::MAX / 2
}

/// Smallest integer that fits in an OCaml fixnum.
pub fn min_fixnum() -> (r: Intnat)
    ensures
        r == spec_min_fixnum(),
{
    isize::MIN / 2
}

/// A raw value is an immediate (tagged integer) when its lowest bit is set.
pub open spec fn spec_is_long(v: RawOCaml) -> bool {
    v % 2 != 0
}

/// A raw value refers to a block when its lowest bit is clear.
pub open spec fn spec_is_block(v: RawOCaml) -> bool {
    v % 2 == 0
}

/// Whether `i` can be represented as an OCaml fixnum.
pub open spec fn fits_fixnum(i: int) -> bool {
    spec_min_fixnum() <= i <= spec_max_fixnum()
}

/// `ocaml_sys::is_block` tests the lowest bit of the value: it is `true`
/// exactly for even raw values.
pub assume_specification[ ocaml_sys::is_block ](v: isize) -> (r: bool)
    ensures
        r == (v % 2 == 0),
;

/// `ocaml_sys::is_long` tests the lowest bit of the value: it is `true`
/// exactly for odd raw values.
pub assume_specification[ ocaml_sys::is_long ](v: isize) -> (r: bool)
    ensures
        r == (v % 2 != 0),
;

/// Encodes an integer as a tagged OCaml immediate: `2 * i + 1`.
pub fn val_int(i: Intnat) -> (r: RawOCaml)
    requires
        fits_fixnum(i as int),
    ensures
        r == 2 * i + 1,
        spec_is_long(r),
        r / 2 == i,
{
    i * 2 + 1
}

/// Decodes a tagged OCaml immediate (an arithmetic shift right by one bit).
pub fn int_val(v: RawOCaml) -> (r: Intnat)
    ensures
        r == v / 2,
        fits_fixnum(r as int),
{
    assert(v >> 1 == v / 2) by (bit_vector);
    v >> 1
}

/// Decoding undoes encoding on every fixnum.
pub proof fn lemma_int_val_of_val_int(i: int)
    requires
        fits_fixnum(i),
    ensures
        (2 * i + 1) / 2 == i,
        spec_is_long((2 * i + 1) as RawOCaml),
{
}

/// Encoding undoes decoding on every immediate.
pub proof fn lemma_val_int_of_int_val(v: RawOCaml)
    requires
        spec_is_long(v),
    ensures
        2 * (v / 2) + 1 == v,
        fits_fixnum(v / 2),
{
}

/// [`OCaml`]`<OCamlList<T>>` is a reference to an OCaml `list` containing
/// values of type `T`.
pub struct OCamlList<A> {
    _marker: PhantomData<A>,
}

/// [`OCaml`]`<OCamlUniformArray<T>>` is a reference to an OCaml array which is
/// guaranteed to not contain unboxed floats.
pub struct OCamlUniformArray<A> {
    _marker: PhantomData<A>,
}

/// [`OCaml`]`<OCamlFloatArray>` is a reference to an OCaml `floatarray`
/// which is an array containing `float`s in an unboxed form.
pub struct OCamlFloatArray {}

/// `OCaml<DynBox<T>>` is for passing a value of type `T` to OCaml.
pub struct DynBox<A> {
    _marker: PhantomData<A>,
}

/// [`OCaml`]`<OCamlBytes>` is a reference to an OCaml `bytes` value.
pub struct OCamlBytes {}

/// [`OCaml`]`<OCamlInt32>` is a reference to an OCaml `Int32.t` (boxed `int32`) value.
pub struct OCamlInt32 {}

/// [`OCaml`]`<OCamlInt64>` is a reference to an OCaml `Int64.t` (boxed `int64`) value.
pub struct OCamlInt64 {}

/// [`OCaml`]`<OCamlFloat>` is a reference to an OCaml `float` (boxed `float`) value.
pub struct OCamlFloat {}

/// [`OCaml`]`<OCamlException>` is a reference to an OCaml `exn` value.
pub struct OCamlException {}

} // verus!
