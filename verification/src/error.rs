//! Errors of fixnum conversion and of calls into OCaml.

use crate::mlvalues::{max_fixnum, min_fixnum, spec_max_fixnum, spec_min_fixnum};
use crate::text::{dec_int, fmt_i64, fmt_isize};
use vstd::prelude::*;
use vstd::string::StringExecFns;

verus! {

/// The integer handed to [`OCaml::of_i64`](crate::OCaml::of_i64) does not
/// fit in an OCaml fixnum.
#[derive(Debug, PartialEq, Eq, Structural)]
pub enum OCamlFixnumConversionError {
    InputTooBig(i64),
    InputTooSmall(i64),
}

/// The message of a fixnum conversion error.
pub open spec fn fixnum_error_message(e: OCamlFixnumConversionError) -> Seq<char> {
    match e {
        OCamlFixnumConversionError::InputTooBig(n) => "Input value doesn't fit in OCaml fixnum n="@
            + dec_int(n as int) + " > MAX_FIXNUM="@ + dec_int(spec_max_fixnum()),
        OCamlFixnumConversionError::InputTooSmall(n) => "Input value doesn't fit in OCaml fixnum n="@
            + dec_int(n as int) + " < MIN_FIXNUM="@ + dec_int(spec_min_fixnum()),
    }
}

impl OCamlFixnumConversionError {
    /// The message of the error.
    pub fn to_string(&self) -> (s: String)
        ensures
            s@ == fixnum_error_message(*self),
    {
        let mut s = String::from_str("Input value doesn't fit in OCaml fixnum n=");
        match self {
            OCamlFixnumConversionError::InputTooBig(n) => {
                s.append(fmt_i64(*n).as_str());
                s.append(" > MAX_FIXNUM=");
                s.append(fmt_isize(max_fixnum()).as_str());
            },
            OCamlFixnumConversionError::InputTooSmall(n) => {
                s.append(fmt_i64(*n).as_str());
                s.append(" < MIN_FIXNUM=");
                s.append(fmt_isize(min_fixnum()).as_str());
            },
        }
        s
    }
}

} // verus!

verus! {

/// An OCaml call ended with an exception.
#[derive(Debug, PartialEq, Eq, Structural)]
pub enum OCamlError {
    /// The exception value raised by the OCaml code.
    Exception(crate::mlvalues::RawOCaml),
}

/// Why calling a registered OCaml function gave no result.
#[derive(Debug, PartialEq, Eq, Structural)]
pub enum CallError {
    /// No closure is registered under the function's name.
    NotRegistered,
    /// The OCaml code raised this exception.
    Exception(crate::mlvalues::RawOCaml),
    /// The heap or the result the OCaml code left cannot be read as the
    /// function's declared result type.
    Unreadable,
}

} // verus!
