//! Hashes of polymorphic variant tags, as OCaml computes them.

use crate::mlvalues::RawOCaml;
use vstd::prelude::*;
use vstd::string::StringSliceAdditionalSpecFns;
use vstd::utf8::encode_utf8;

verus! {

/// The tag hash before the sign adjustment: each byte `c` turns the
/// accumulator `a` into `223 * a + c`, kept to its lowest 31 bits.
pub open spec fn hash_acc(bytes: Seq<u8>) -> int
    decreases bytes.len(),
{
    if bytes.len() == 0 {
        0
    } else {
        (223 * hash_acc(bytes.drop_last()) + bytes.last()) % 0x8000_0000
    }
}

/// The index of the first NUL byte of `bytes` at or after `i`, or the
/// length when there is none.
pub open spec fn nul_index(bytes: Seq<u8>, i: int) -> int
    decreases bytes.len() - i,
{
    if i < 0 || i >= bytes.len() {
        bytes.len() as int
    } else if bytes[i] == 0 {
        i
    } else {
        nul_index(bytes, i + 1)
    }
}

/// The bytes of a tag that are hashed: those before the first NUL, which
/// ends the C string the runtime reads.
pub open spec fn hashed_bytes(name: Seq<char>) -> Seq<u8> {
    encode_utf8(name).take(nul_index(encode_utf8(name), 0))
}

/// The hash of a polymorphic variant tag: the 31-bit accumulator read as a
/// signed 31-bit integer.
pub open spec fn tag_hash(name: Seq<char>) -> int {
    let h = hash_acc(hashed_bytes(name));
    if h > 0x3FFF_FFFF {
        h - 0x8000_0000
    } else {
        h
    }
}

/// The OCaml value of the constant polymorphic variant `` `name ``: the
/// immediate holding its tag hash (`caml_hash_variant`).
pub fn hash_variant(name: &str) -> (r: RawOCaml)
    ensures
        r == 2 * tag_hash(name@) + 1,
{
    let bytes = name.as_bytes();
    let mut acc: u64 = 0;
    let mut i: usize = 0;
    while i < bytes.len() && bytes[i] != 0
        invariant
            bytes@ == encode_utf8(name@),
            i <= bytes@.len(),
            acc == hash_acc(bytes@.take(i as int)),
            acc < 0x8000_0000,
            nul_index(bytes@, 0) == nul_index(bytes@, i as int),
        decreases bytes@.len() - i,
    {
        proof {
            assert(bytes@.take(i + 1).drop_last() =~= bytes@.take(i as int));
        }
        acc = (223 * acc + bytes[i] as u64) % 0x8000_0000;
        i = i + 1;
    }
    assert(nul_index(bytes@, 0) == i);
    let h: i64 = if acc > 0x3FFF_FFFF {
        acc as i64 - 0x8000_0000
    } else {
        acc as i64
    };
    (2 * h + 1) as RawOCaml
}

} // verus!

verus! {

/// A tag hash is a signed 31-bit integer, so its OCaml value is an
/// immediate that fits in 32 bits.
pub proof fn law_tag_hash_range(name: Seq<char>)
    ensures
        -0x4000_0000 <= tag_hash(name) < 0x4000_0000,
        (2 * tag_hash(name) + 1) % 2 == 1,
{
    lemma_hash_acc_range(hashed_bytes(name));
}

proof fn lemma_hash_acc_range(bytes: Seq<u8>)
    ensures
        0 <= hash_acc(bytes) < 0x8000_0000,
    decreases bytes.len(),
{
    if bytes.len() > 0 {
        lemma_hash_acc_range(bytes.drop_last());
    }
}

} // verus!
