//! OCaml closures registered by name, and calls into them.
//!
//! Running OCaml code is outside of this library: a call hands the closure,
//! its arguments and the runtime to a runner, which gives back the runtime
//! and the raw result. What the library decides around the call (finding
//! the closure, telling an exception from a result, checking that the
//! result can be read) is stated here.

use crate::error::OCamlError;
use crate::mlvalues::tag;
use crate::mlvalues::RawOCaml;
use crate::runtime::{block_tag, deref, lookup_named, points_into, OCamlRuntime};
use vstd::prelude::*;
use vstd::string::StringSliceAdditionalSpecFns;
use vstd::utf8::encode_utf8;

verus! {

/// `ocaml_sys::is_exception_result`: the two lowest bits of the value are
/// `10`, which marks an exception result.
pub assume_specification[ ocaml_sys::is_exception_result ](val: isize) -> (r: bool)
    ensures
        r == (val % 4 == 2),
;

/// `ocaml_sys::extract_exception`: the value with its two lowest bits
/// cleared.
pub assume_specification[ ocaml_sys::extract_exception ](val: isize) -> (r: isize)
    ensures
        r == val - val % 4,
;

/// A reference to an OCaml closure.
#[derive(Clone, Copy)]
pub struct OCamlClosure {
    raw: RawOCaml,
}

impl View for OCamlClosure {
    type V = RawOCaml;

    closed spec fn view(&self) -> RawOCaml {
        self.raw
    }
}

/// The closure registered under `name` in `cr`: `None` when the name holds
/// a NUL byte (it cannot be passed to the runtime), when nothing is
/// registered under it, or when what is registered is not a closure.
pub open spec fn named_closure(cr: OCamlRuntime, name: Seq<char>) -> Option<RawOCaml> {
    if encode_utf8(name).contains(0u8) {
        None
    } else {
        match lookup_named(cr.registry(), name) {
            Some(v) => if points_into(cr@, v) && block_tag(deref(cr@, v)) == tag::CLOSURE {
                Some(v)
            } else {
                None
            },
            None => None,
        }
    }
}

/// What a call's raw result means: an exception when its two lowest bits
/// are `10`, a value otherwise.
pub open spec fn call_outcome(result: RawOCaml) -> Result<RawOCaml, OCamlError> {
    if result % 4 == 2 {
        Err(OCamlError::Exception((result - result % 4) as RawOCaml))
    } else {
        Ok(result)
    }
}

/// Whether the UTF-8 encoding of `s` holds a NUL byte.
fn has_nul(s: &str) -> (r: bool)
    ensures
        r == encode_utf8(s@).contains(0u8),
{
    let bytes = s.as_bytes();
    let mut i: usize = 0;
    while i < bytes.len()
        invariant
            bytes@ == s.spec_bytes(),
            i <= bytes@.len(),
            forall|j: int| 0 <= j < i ==> bytes@[j] != 0u8,
        decreases bytes@.len() - i,
    {
        if bytes[i] == 0 {
            assert(bytes@[i as int] == 0u8);
            return true;
        }
        i = i + 1;
    }
    false
}

/// Tells an exception result from a value.
pub fn handle_result(result: RawOCaml) -> (r: Result<RawOCaml, OCamlError>)
    ensures
        r == call_outcome(result),
{
    if ocaml_sys::is_exception_result(result) {
        Err(OCamlError::Exception(ocaml_sys::extract_exception(result)))
    } else {
        Ok(result)
    }
}

/// The runner, given `before`, closure `c` and `args`, may give back `after`
/// and `result`.
pub open spec fn ran<F>(
    run: F,
    before: OCamlRuntime,
    c: RawOCaml,
    args: Seq<RawOCaml>,
    after: OCamlRuntime,
    result: RawOCaml,
) -> bool where F: FnOnce(OCamlRuntime, RawOCaml, Vec<RawOCaml>) -> (OCamlRuntime, RawOCaml) {
    exists|v: Vec<RawOCaml>| v@ == args && #[trigger] run.ensures((before, c, v), (after, result))
}

impl OCamlClosure {
    /// The closure registered under `name`, if there is one.
    pub fn named(cr: &OCamlRuntime, name: &str) -> (r: Option<OCamlClosure>)
        ensures
            named_closure(*cr, name@) is None ==> r is None,
            named_closure(*cr, name@) matches Some(c) ==> (r matches Some(k) && k@ == c),
    {
        if has_nul(name) {
            return None;
        }
        match cr.named_value(name) {
            Some(v) => {
                if cr.is_block_ref(v) && cr.tag_of(v) == tag::CLOSURE {
                    Some(OCamlClosure { raw: v })
                } else {
                    None
                }
            },
            None => None,
        }
    }

    /// Calls the closure with the given arguments; `run` performs the call
    /// in the OCaml runtime.
    pub fn call_n<F>(&self, cr: &mut OCamlRuntime, args: Vec<RawOCaml>, run: F) -> (r: Result<
        RawOCaml,
        OCamlError,
    >) where F: FnOnce(OCamlRuntime, RawOCaml, Vec<RawOCaml>) -> (OCamlRuntime, RawOCaml)
        requires
            forall|rt: OCamlRuntime, c: RawOCaml, a: Vec<RawOCaml>| run.requires((rt, c, a)),
        ensures
            exists|result: RawOCaml|
                ran(run, *old(cr), self@, args@, *final(cr), result) && r == call_outcome(result),
    {
        let mut rt = OCamlRuntime::new();
        core::mem::swap(&mut rt, cr);
        let ghost before = rt;
        let ghost a = args@;
        let (after, result) = run(rt, self.raw, args);
        *cr = after;
        let r = handle_result(result);
        proof {
            assert(ran(run, before, self@, a, *cr, result));
        }
        r
    }

    /// Calls the closure with one argument.
    pub fn call<F>(&self, cr: &mut OCamlRuntime, arg: RawOCaml, run: F) -> (r: Result<
        RawOCaml,
        OCamlError,
    >) where F: FnOnce(OCamlRuntime, RawOCaml, Vec<RawOCaml>) -> (OCamlRuntime, RawOCaml)
        requires
            forall|rt: OCamlRuntime, c: RawOCaml, a: Vec<RawOCaml>| run.requires((rt, c, a)),
        ensures
            exists|result: RawOCaml|
                ran(run, *old(cr), self@, seq![arg], *final(cr), result) && r == call_outcome(
                    result,
                ),
    {
        let mut args = Vec::new();
        args.push(arg);
        proof {
            assert(args@ =~= seq![arg]);
        }
        self.call_n(cr, args, run)
    }

    /// Calls the closure with two arguments.
    pub fn call2<F>(&self, cr: &mut OCamlRuntime, arg1: RawOCaml, arg2: RawOCaml, run: F) -> (r:
        Result<RawOCaml, OCamlError>) where
        F: FnOnce(OCamlRuntime, RawOCaml, Vec<RawOCaml>) -> (OCamlRuntime, RawOCaml),
        requires
            forall|rt: OCamlRuntime, c: RawOCaml, a: Vec<RawOCaml>| run.requires((rt, c, a)),
        ensures
            exists|result: RawOCaml|
                ran(run, *old(cr), self@, seq![arg1, arg2], *final(cr), result) && r
                    == call_outcome(result),
    {
        let mut args = Vec::new();
        args.push(arg1);
        args.push(arg2);
        proof {
            assert(args@ =~= seq![arg1, arg2]);
        }
        self.call_n(cr, args, run)
    }

    /// Calls the closure with three arguments.
    pub fn call3<F>(
        &self,
        cr: &mut OCamlRuntime,
        arg1: RawOCaml,
        arg2: RawOCaml,
        arg3: RawOCaml,
        run: F,
    ) -> (r: Result<RawOCaml, OCamlError>) where
        F: FnOnce(OCamlRuntime, RawOCaml, Vec<RawOCaml>) -> (OCamlRuntime, RawOCaml),
        requires
            forall|rt: OCamlRuntime, c: RawOCaml, a: Vec<RawOCaml>| run.requires((rt, c, a)),
        ensures
            exists|result: RawOCaml|
                ran(run, *old(cr), self@, seq![arg1, arg2, arg3], *final(cr), result) && r
                    == call_outcome(result),
    {
        let mut args = Vec::new();
        args.push(arg1);
        args.push(arg2);
        args.push(arg3);
        proof {
            assert(args@ =~= seq![arg1, arg2, arg3]);
        }
        self.call_n(cr, args, run)
    }
}

} // verus!
