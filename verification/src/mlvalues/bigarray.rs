//! Bigarray element kinds.

use core::marker::PhantomData;
use vstd::prelude::*;

verus! {

/// Bigarray kind: a Rust element type together with the OCaml bigarray kind
/// identifier of its elements.
pub trait BigarrayElt: Copy {
    /// OCaml bigarray type identifier.
    fn kind() -> (k: i32)
        ensures
            0 <= k <= 12,
    ;
}

impl BigarrayElt for i8 {
    fn kind() -> (k: i32)
        ensures
            k == 2,
    {
        2
    }
}

impl BigarrayElt for u8 {
    fn kind() -> (k: i32)
        ensures
            k == 3,
    {
        3
    }
}

impl BigarrayElt for i16 {
    fn kind() -> (k: i32)
        ensures
            k == 4,
    {
        4
    }
}

impl BigarrayElt for u16 {
    fn kind() -> (k: i32)
        ensures
            k == 5,
    {
        5
    }
}

impl BigarrayElt for i32 {
    fn kind() -> (k: i32)
        ensures
            k == 6,
    {
        6
    }
}

impl BigarrayElt for i64 {
    fn kind() -> (k: i32)
        ensures
            k == 7,
    {
        7
    }
}

impl BigarrayElt for isize {
    fn kind() -> (k: i32)
        ensures
            k == 9,
    {
        9
    }
}

impl BigarrayElt for char {
    fn kind() -> (k: i32)
        ensures
            k == 12,
    {
        12
    }
}

/// [`OCaml`]`<Array1<T>>` is a one-dimensional OCaml bigarray of `T`.
pub struct Array1<A: BigarrayElt> {
    _marker: PhantomData<A>,
}

} // verus!
