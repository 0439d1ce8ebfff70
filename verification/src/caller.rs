//! Calling OCaml functions registered by name, from Rust, with Rust
//! arguments and results: the arguments are converted to OCaml values, the
//! registered closure is called, and its result is read back.

use crate::closure::{call_outcome, named_closure, ran, OCamlClosure};
use crate::conv::list::decode_list;
use crate::conv::{encode_i64, FromOCaml, OCamlRepr, ToOCaml};
use crate::error::{CallError, OCamlError};
use crate::memory::{alloc_bytes, alloc_fields};
use crate::mlvalues::tag;
use crate::mlvalues::{OCamlBytes, OCamlInt, OCamlList, RawOCaml};
use crate::runtime::{
    block_ref, heap_extends, lemma_heap_extends_trans, valid_value, BlockModel, OCamlRuntime,
};
use crate::value::{field_of, is_block_with, OCaml};
use vstd::prelude::*;
use vstd::utf8::encode_utf8;

verus! {

/// What a call's raw result gives, once the runtime it left is `after`:
/// the exception it raised, or the result when the heap is well formed and
/// holds it, or `Unreadable`.
pub open spec fn settle(after: OCamlRuntime, result: RawOCaml) -> Result<RawOCaml, CallError> {
    match call_outcome(result) {
        Err(OCamlError::Exception(e)) => Err(CallError::Exception(e)),
        Ok(v) => if after.wf() && valid_value(after@, v) {
            Ok(v)
        } else {
            Err(CallError::Unreadable)
        },
    }
}

/// Calling the function registered under `name` with `args`, in runtime
/// `before`, with runner `run`, may end in runtime `after` with outcome `r`.
pub open spec fn raw_call<F>(
    before: OCamlRuntime,
    name: Seq<char>,
    args: Seq<RawOCaml>,
    run: F,
    after: OCamlRuntime,
    r: Result<RawOCaml, CallError>,
) -> bool where F: FnOnce(OCamlRuntime, RawOCaml, Vec<RawOCaml>) -> (OCamlRuntime, RawOCaml) {
    match named_closure(before, name) {
        None => r == Err::<RawOCaml, CallError>(CallError::NotRegistered) && after == before,
        Some(c) => exists|result: RawOCaml|
            ran(run, before, c, args, after, result) && r == settle(after, result),
    }
}

/// As [`raw_call`], with the result read as a Rust value of type `RT` when
/// the conversion can read it, and `Unreadable` otherwise.
pub open spec fn typed_call<OT: OCamlRepr, RT: FromOCaml<OT>, F>(
    before: OCamlRuntime,
    name: Seq<char>,
    args: Seq<RawOCaml>,
    run: F,
    after: OCamlRuntime,
    r: Result<RT, CallError>,
) -> bool where F: FnOnce(OCamlRuntime, RawOCaml, Vec<RawOCaml>) -> (OCamlRuntime, RawOCaml) {
    exists|raw: Result<RawOCaml, CallError>|
        #[trigger] raw_call(before, name, args, run, after, raw) && match raw {
            Err(e) => r == Err::<RT, CallError>(e),
            Ok(v) => if RT::accepts(after@, v) {
                r matches Ok(x) && RT::reads_as(after@, v, x)
            } else {
                r == Err::<RT, CallError>(CallError::Unreadable)
            },
        }
}

/// Calls the OCaml function registered under `name` with raw arguments.
pub fn call_registered<F>(cr: &mut OCamlRuntime, name: &str, args: Vec<RawOCaml>, run: F) -> (r:
    Result<RawOCaml, CallError>) where
    F: FnOnce(OCamlRuntime, RawOCaml, Vec<RawOCaml>) -> (OCamlRuntime, RawOCaml),
    requires
        forall|rt: OCamlRuntime, c: RawOCaml, a: Vec<RawOCaml>| run.requires((rt, c, a)),
    ensures
        raw_call(*old(cr), name@, args@, run, *final(cr), r),
{
    let closure = match OCamlClosure::named(cr, name) {
        Some(c) => c,
        None => {
            return Err(CallError::NotRegistered);
        },
    };
    let ghost before = *cr;
    let ghost a = args@;
    let ghost c = closure@;
    let outcome = closure.call_n(cr, args, run);
    let ghost result = choose|res: RawOCaml|
        ran(run, before, c, a, *cr, res) && outcome == call_outcome(res);
    let r = match outcome {
        Err(OCamlError::Exception(e)) => Err(CallError::Exception(e)),
        Ok(v) => {
            if cr.check_wf() && (v % 2 != 0 || cr.is_block_ref(v)) {
                Ok(v)
            } else {
                Err(CallError::Unreadable)
            }
        },
    };
    proof {
        assert(ran(run, before, c, a, *cr, result));
        assert(r == settle(*cr, result));
    }
    r
}

/// Calls the OCaml function registered under `name` and reads its result
/// as a Rust value.
pub fn call_typed<OT: OCamlRepr, RT: FromOCaml<OT>, F>(
    cr: &mut OCamlRuntime,
    name: &str,
    args: Vec<RawOCaml>,
    run: F,
) -> (r: Result<RT, CallError>) where
    F: FnOnce(OCamlRuntime, RawOCaml, Vec<RawOCaml>) -> (OCamlRuntime, RawOCaml),
    requires
        forall|rt: OCamlRuntime, c: RawOCaml, a: Vec<RawOCaml>| run.requires((rt, c, a)),
    ensures
        typed_call::<OT, RT, F>(*old(cr), name@, args@, run, *final(cr), r),
{
    let ghost before = *cr;
    let ghost a = args@;
    let raw = call_registered(cr, name, args, run);
    let ghost raw_g = raw;
    match raw {
        Err(e) => {
            let r = Err(e);
            proof {
                assert(raw_call(before, name@, a, run, *cr, raw_g));
            }
            r
        },
        Ok(v) => {
            let value: OCaml<OT> = OCaml::new(cr, v);
            if RT::can_read(cr, value) {
                let x = RT::from_ocaml(cr, value);
                proof {
                    assert(raw_call(before, name@, a, run, *cr, raw_g));
                }
                Ok(x)
            } else {
                proof {
                    assert(raw_call(before, name@, a, run, *cr, raw_g));
                }
                Err(CallError::Unreadable)
            }
        },
    }
}

/// A vector of one raw argument.
fn args1(a: RawOCaml) -> (v: Vec<RawOCaml>)
    ensures
        v@ == seq![a],
{
    let mut v = Vec::new();
    v.push(a);
    proof {
        assert(v@ =~= seq![a]);
    }
    v
}

/// A vector of two raw arguments.
fn args2(a: RawOCaml, b: RawOCaml) -> (v: Vec<RawOCaml>)
    ensures
        v@ == seq![a, b],
{
    let mut v = Vec::new();
    v.push(a);
    v.push(b);
    proof {
        assert(v@ =~= seq![a, b]);
    }
    v
}

/// The runner may be called on anything.
pub open spec fn runs_anything<F>(run: F) -> bool where
    F: FnOnce(OCamlRuntime, RawOCaml, Vec<RawOCaml>) -> (OCamlRuntime, RawOCaml),
 {
    forall|rt: OCamlRuntime, c: RawOCaml, a: Vec<RawOCaml>| run.requires((rt, c, a))
}

/// Calls OCaml's `twice` on `num`.
pub fn twice<F>(cr: &mut OCamlRuntime, num: i64, run: F) -> (r: Result<i64, CallError>) where
    F: FnOnce(OCamlRuntime, RawOCaml, Vec<RawOCaml>) -> (OCamlRuntime, RawOCaml),
    requires
        old(cr).wf(),
        runs_anything(run),
    ensures
        exists|mid: OCamlRuntime|
            {
                &&& mid.wf()
                &&& mid@ == old(cr)@
                &&& mid.registry() == old(cr).registry()
                &&& #[trigger] typed_call::<OCamlInt, i64, F>(
                    mid,
                    "twice"@,
                    seq![encode_i64(num)],
                    run,
                    *final(cr),
                    r,
                )
            },
{
    let ghost h0 = cr@;
    let arg: OCaml<OCamlInt> = num.to_ocaml(cr);
    proof {
        crate::conv::lemma_encode_i64(num);
        assert(cr@ =~= h0);
    }
    let ghost mid = *cr;
    let r = call_typed::<OCamlInt, i64, F>(cr, "twice", args1(arg.raw()), run);
    proof {
        assert(typed_call::<OCamlInt, i64, F>(mid, "twice"@, seq![encode_i64(num)], run, *cr, r));
    }
    r
}

/// Calls OCaml's `increment_bytes` on a copy of `bytes` and `first_n`.
pub fn increment_bytes<F>(cr: &mut OCamlRuntime, bytes: &str, first_n: usize, run: F) -> (r:
    Result<String, CallError>) where
    F: FnOnce(OCamlRuntime, RawOCaml, Vec<RawOCaml>) -> (OCamlRuntime, RawOCaml),
    requires
        old(cr).wf(),
        old(cr).has_room(1),
        runs_anything(run),
    ensures
        exists|mid: OCamlRuntime|
            {
                &&& mid.wf()
                &&& mid@ == old(cr)@.push(BlockModel::Bytes { data: encode_utf8(bytes@) })
                &&& typed_call::<String, String, F>(
                    mid,
                    "increment_bytes"@,
                    seq![block_ref(old(cr)@.len() as int) as RawOCaml, encode_i64(first_n as i64)],
                    run,
                    *final(cr),
                    r,
                )
            },
{
    let s: OCaml<String> = crate::memory::alloc_string(cr, bytes);
    let ghost h1 = cr@;
    let n: i64 = first_n as i64;
    let k: OCaml<OCamlInt> = n.to_ocaml(cr);
    proof {
        crate::conv::lemma_encode_i64(n);
        assert(cr@ =~= h1);
    }
    let ghost mid = *cr;
    let r = call_typed::<String, String, F>(cr, "increment_bytes", args2(s.raw(), k.raw()), run);
    proof {
        assert(typed_call::<String, String, F>(
            mid,
            "increment_bytes"@,
            seq![block_ref(old(cr)@.len() as int) as RawOCaml, encode_i64(first_n as i64)],
            run,
            *cr,
            r,
        ));
    }
    r
}

/// Calls OCaml's `increment_ints_list` on the list of `ints`.
pub fn increment_ints_list<F>(cr: &mut OCamlRuntime, ints: &Vec<i64>, run: F) -> (r: Result<
    Vec<i64>,
    CallError,
>) where F: FnOnce(OCamlRuntime, RawOCaml, Vec<RawOCaml>) -> (OCamlRuntime, RawOCaml)
    requires
        old(cr).wf(),
        old(cr).has_room(<Vec<i64> as ToOCaml<OCamlList<OCamlInt>>>::ocaml_blocks(ints)),
        runs_anything(run),
    ensures
        exists|mid: OCamlRuntime, a: RawOCaml|
            {
                &&& mid.wf()
                &&& heap_extends(old(cr)@, mid@)
                &&& decode_list::<OCamlInt>(mid@, a) == Some(
                    <Vec<i64> as ToOCaml<OCamlList<OCamlInt>>>::ocaml_model(ints),
                )
                &&& typed_call::<OCamlList<OCamlInt>, Vec<i64>, F>(
                    mid,
                    "increment_ints_list"@,
                    seq![a],
                    run,
                    *final(cr),
                    r,
                )
            },
{
    let l: OCaml<OCamlList<OCamlInt>> = ints.to_ocaml(cr);
    let ghost mid = *cr;
    let r = call_typed::<OCamlList<OCamlInt>, Vec<i64>, F>(
        cr,
        "increment_ints_list",
        args1(l.raw()),
        run,
    );
    proof {
        assert(decode_list::<OCamlInt>(mid@, l@) == Some(
            <Vec<i64> as ToOCaml<OCamlList<OCamlInt>>>::ocaml_model(ints),
        ));
        assert(typed_call::<OCamlList<OCamlInt>, Vec<i64>, F>(
            mid,
            "increment_ints_list"@,
            seq![l@],
            run,
            *cr,
            r,
        ));
    }
    r
}

/// Calls OCaml's `make_tuple` on `fst` and `snd`.
pub fn make_tuple<F>(cr: &mut OCamlRuntime, fst: String, snd: i64, run: F) -> (r: Result<
    (String, i64),
    CallError,
>) where F: FnOnce(OCamlRuntime, RawOCaml, Vec<RawOCaml>) -> (OCamlRuntime, RawOCaml)
    requires
        old(cr).wf(),
        old(cr).has_room(1),
        runs_anything(run),
    ensures
        exists|mid: OCamlRuntime|
            {
                &&& mid.wf()
                &&& mid@ == old(cr)@.push(BlockModel::Bytes { data: encode_utf8(fst@) })
                &&& typed_call::<(String, OCamlInt), (String, i64), F>(
                    mid,
                    "make_tuple"@,
                    seq![block_ref(old(cr)@.len() as int) as RawOCaml, encode_i64(snd)],
                    run,
                    *final(cr),
                    r,
                )
            },
{
    let a: OCaml<String> = crate::memory::alloc_string(cr, fst.as_str());
    let ghost h1 = cr@;
    let b: OCaml<OCamlInt> = snd.to_ocaml(cr);
    proof {
        crate::conv::lemma_encode_i64(snd);
        assert(cr@ =~= h1);
    }
    let ghost mid = *cr;
    let r = call_typed::<(String, OCamlInt), (String, i64), F>(
        cr,
        "make_tuple",
        args2(a.raw(), b.raw()),
        run,
    );
    proof {
        assert(typed_call::<(String, OCamlInt), (String, i64), F>(
            mid,
            "make_tuple"@,
            seq![block_ref(old(cr)@.len() as int) as RawOCaml, encode_i64(snd)],
            run,
            *cr,
            r,
        ));
    }
    r
}

/// Calls OCaml's `make_some` on `value`.
pub fn make_some<F>(cr: &mut OCamlRuntime, value: String, run: F) -> (r: Result<
    Option<String>,
    CallError,
>) where F: FnOnce(OCamlRuntime, RawOCaml, Vec<RawOCaml>) -> (OCamlRuntime, RawOCaml)
    requires
        old(cr).wf(),
        old(cr).has_room(1),
        runs_anything(run),
    ensures
        exists|mid: OCamlRuntime|
            {
                &&& mid.wf()
                &&& mid@ == old(cr)@.push(BlockModel::Bytes { data: encode_utf8(value@) })
                &&& typed_call::<Option<String>, Option<String>, F>(
                    mid,
                    "make_some"@,
                    seq![block_ref(old(cr)@.len() as int) as RawOCaml],
                    run,
                    *final(cr),
                    r,
                )
            },
{
    let a: OCaml<String> = crate::memory::alloc_string(cr, value.as_str());
    let ghost mid = *cr;
    call_typed::<Option<String>, Option<String>, F>(cr, "make_some", args1(a.raw()), run)
}

/// Calls OCaml's `make_ok` on `value`.
pub fn make_ok<F>(cr: &mut OCamlRuntime, value: i64, run: F) -> (r: Result<
    Result<i64, String>,
    CallError,
>) where F: FnOnce(OCamlRuntime, RawOCaml, Vec<RawOCaml>) -> (OCamlRuntime, RawOCaml)
    requires
        old(cr).wf(),
        runs_anything(run),
    ensures
        exists|mid: OCamlRuntime|
            {
                &&& mid.wf()
                &&& mid@ == old(cr)@
                &&& mid.registry() == old(cr).registry()
                &&& #[trigger] typed_call::<Result<OCamlInt, String>, Result<i64, String>, F>(
                    mid,
                    "make_ok"@,
                    seq![encode_i64(value)],
                    run,
                    *final(cr),
                    r,
                )
            },
{
    let ghost h0 = cr@;
    let a: OCaml<OCamlInt> = value.to_ocaml(cr);
    proof {
        crate::conv::lemma_encode_i64(value);
        assert(cr@ =~= h0);
    }
    let ghost mid = *cr;
    let r = call_typed::<Result<OCamlInt, String>, Result<i64, String>, F>(
        cr,
        "make_ok",
        args1(a.raw()),
        run,
    );
    proof {
        assert(typed_call::<Result<OCamlInt, String>, Result<i64, String>, F>(mid, "make_ok"@, seq![encode_i64(value)], run, *cr, r));
    }
    r
}

/// Calls OCaml's `make_error` on `value`.
pub fn make_error<F>(cr: &mut OCamlRuntime, value: String, run: F) -> (r: Result<
    Result<i64, String>,
    CallError,
>) where F: FnOnce(OCamlRuntime, RawOCaml, Vec<RawOCaml>) -> (OCamlRuntime, RawOCaml)
    requires
        old(cr).wf(),
        old(cr).has_room(1),
        runs_anything(run),
    ensures
        exists|mid: OCamlRuntime|
            {
                &&& mid.wf()
                &&& mid@ == old(cr)@.push(BlockModel::Bytes { data: encode_utf8(value@) })
                &&& typed_call::<Result<OCamlInt, String>, Result<i64, String>, F>(
                    mid,
                    "make_error"@,
                    seq![block_ref(old(cr)@.len() as int) as RawOCaml],
                    run,
                    *final(cr),
                    r,
                )
            },
{
    let a: OCaml<String> = crate::memory::alloc_string(cr, value.as_str());
    let ghost mid = *cr;
    call_typed::<Result<OCamlInt, String>, Result<i64, String>, F>(
        cr,
        "make_error",
        args1(a.raw()),
        run,
    )
}

/// The bytes `allocate_alot` allocates again and again.
pub open spec fn alot_bytes() -> Seq<u8> {
    seq![1u8, 2, 3, 4, 5, 6, 7, 8, 9, 10]
}

/// One of the blocks `allocate_alot` allocates.
pub open spec fn alot_block() -> BlockModel {
    BlockModel::Bytes { data: alot_bytes() }
}

/// Allocates many short-lived values: 49999 rounds of three `bytes` blocks
/// holding 1 to 10, appended to the heap; it reports `true`.
pub fn allocate_alot(cr: &mut OCamlRuntime) -> (r: bool)
    requires
        old(cr).wf(),
        old(cr).has_room(3 * 49999),
    ensures
        r,
        final(cr).wf(),
        heap_extends(old(cr)@, final(cr)@),
        final(cr).registry() == old(cr).registry(),
        final(cr)@.len() == old(cr)@.len() + 3 * 49999,
        forall|i: int|
            old(cr)@.len() <= i < final(cr)@.len() ==> #[trigger] final(cr)@[i] == alot_block(),
{
    let v: Vec<u8> = vec![1, 2, 3, 4, 5, 6, 7, 8, 9, 10];
    assert(v@ =~= alot_bytes());
    let mut n: usize = 1;
    while n < 50000
        invariant
            1 <= n <= 50000,
            v@ == alot_bytes(),
            cr.wf(),
            heap_extends(old(cr)@, cr@),
            cr.registry() == old(cr).registry(),
            cr@.len() == old(cr)@.len() + 3 * (n - 1),
            old(cr).has_room(3 * 49999),
            forall|i: int| old(cr)@.len() <= i < cr@.len() ==> #[trigger] cr@[i] == alot_block(),
        decreases 50000 - n,
    {
        let ghost h0 = cr@;
        let _x: OCaml<OCamlBytes> = alloc_bytes(cr, v.as_slice());
        let _y: OCaml<OCamlBytes> = alloc_bytes(cr, v.as_slice());
        let _z: OCaml<OCamlBytes> = alloc_bytes(cr, v.as_slice());
        proof {
            lemma_heap_extends_trans(old(cr)@, h0, cr@);
            assert forall|i: int| old(cr)@.len() <= i < cr@.len() implies #[trigger] cr@[i]
                == alot_block() by {
                if i < h0.len() {
                    assert(cr@[i] == h0[i]);
                }
            }
        }
        n = n + 1;
    }
    true
}

/// A movement as Rust code sends it to OCaml.
#[derive(Debug, Clone, Copy, PartialEq, Eq, Structural)]
pub enum Movement {
    Step(i64),
    RotateLeft,
    RotateRight,
}

impl OCamlRepr for Movement {
    type Model = Movement;

    /// `RotateLeft` and `RotateRight` are the ints 0 and 1; `Step n` is a
    /// block of tag 0 holding the int `n`.
    open spec fn decode(h: Seq<BlockModel>, raw: RawOCaml) -> Option<Movement> {
        if raw == 1 {
            Some(Movement::RotateLeft)
        } else if raw == 3 {
            Some(Movement::RotateRight)
        } else if is_block_with(h, raw, 0, 1) && field_of(h, raw, 0) % 2 != 0 {
            Some(Movement::Step((field_of(h, raw, 0) / 2) as i64))
        } else {
            None
        }
    }

    proof fn lemma_decode_stable(h1: Seq<BlockModel>, h2: Seq<BlockModel>, raw: RawOCaml) {
        if raw % 2 == 0 {
            crate::conv::compound::lemma_field_stable(h1, h2, raw, 0);
        }
    }
}

impl ToOCaml<Movement> for Movement {
    open spec fn ocaml_model(&self) -> Movement {
        match self {
            Movement::Step(n) => Movement::Step((encode_i64(*n) / 2) as i64),
            Movement::RotateLeft => Movement::RotateLeft,
            Movement::RotateRight => Movement::RotateRight,
        }
    }

    open spec fn ocaml_blocks(&self) -> nat {
        match self {
            Movement::Step(_) => 1,
            _ => 0,
        }
    }

    fn to_ocaml(&self, cr: &mut OCamlRuntime) -> (r: OCaml<Movement>) {
        match self {
            Movement::Step(n) => {
                let v: OCaml<OCamlInt> = n.to_ocaml(cr);
                proof {
                    crate::conv::lemma_encode_i64(*n);
                }
                let mut fields: Vec<RawOCaml> = Vec::new();
                fields.push(v.raw());
                let r: OCaml<Movement> = alloc_fields(cr, 0, fields);
                proof {
                    assert(field_of(cr@, r@, 0) == v@);
                }
                r
            },
            Movement::RotateLeft => OCaml::new(cr, 1),
            Movement::RotateRight => OCaml::new(cr, 3),
        }
    }
}

/// Calls OCaml's `stringify_variant` on a movement.
pub fn verify_variant_test<F>(cr: &mut OCamlRuntime, variant: Movement, run: F) -> (r: Result<
    String,
    CallError,
>) where F: FnOnce(OCamlRuntime, RawOCaml, Vec<RawOCaml>) -> (OCamlRuntime, RawOCaml)
    requires
        old(cr).wf(),
        old(cr).has_room(1),
        runs_anything(run),
    ensures
        exists|mid: OCamlRuntime, a: RawOCaml|
            {
                &&& mid.wf()
                &&& heap_extends(old(cr)@, mid@)
                &&& Movement::decode(mid@, a) == Some(variant.ocaml_model())
                &&& #[trigger] typed_call::<String, String, F>(
                    mid,
                    "stringify_variant"@,
                    seq![a],
                    run,
                    *final(cr),
                    r,
                )
            },
{
    let v: OCaml<Movement> = variant.to_ocaml(cr);
    let ghost mid = *cr;
    let r = call_typed::<String, String, F>(cr, "stringify_variant", args1(v.raw()), run);
    proof {
        assert(typed_call::<String, String, F>(
            mid,
            "stringify_variant"@,
            seq![v@],
            run,
            *cr,
            r,
        ));
    }
    r
}

} // verus!
