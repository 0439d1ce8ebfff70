//! Block tags of the OCaml runtime.

use vstd::prelude::*;

verus! {

/// A block tag.
pub type Tag = u8;

pub const FORWARD: Tag = 250;
pub const INFIX: Tag = 249;
pub const OBJECT: Tag = 248;
pub const CLOSURE: Tag = 247;
pub const LAZY: Tag = 246;
pub const ABSTRACT: Tag = 251;
/// Blocks with a tag at or above this one hold no OCaml values.
pub const NO_SCAN: Tag = 251;
pub const STRING: Tag = 252;
pub const DOUBLE: Tag = 253;
pub const DOUBLE_ARRAY: Tag = 254;
pub const CUSTOM: Tag = 255;

/// Tag of `Some x` blocks.
pub const SOME: Tag = 0;
/// Tag of `x :: xs` blocks.
pub const CONS: Tag = 0;
/// Tag of `Ok x` blocks.
pub const TAG_OK: Tag = 0;
/// Tag of `Error x` blocks.
pub const TAG_ERROR: Tag = 1;
/// Tag of the blocks of polymorphic variants with a payload: the tag hash,
/// then the payload.
pub const TAG_POLYMORPHIC_VARIANT: Tag = 0;

} // verus!
