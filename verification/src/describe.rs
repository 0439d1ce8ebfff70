//! The OCaml names of OCaml types, as they appear in OCaml signatures.

use crate::mlvalues::bigarray::{Array1, BigarrayElt};
use crate::mlvalues::{
    OCamlBytes, OCamlFloat, OCamlFloatArray, OCamlInt, OCamlInt32, OCamlInt64, OCamlList,
    OCamlUniformArray,
};
use crate::derive::attrs::{AttrsView, OCamlAttributes};
use crate::text::join_comma;
use vstd::prelude::*;
use vstd::string::StringExecFns;

verus! {

/// What `heck`'s `to_snake_case` gives for a text.
pub uninterp spec fn snake_case(s: Seq<char>) -> Seq<char>;

/// `heck::ToSnakeCase::to_snake_case` on a `str`: the words of the text,
/// lower-cased and joined by `_`. Its result is named, not described.
#[verifier::external_body]
fn to_snake_case(s: &str) -> (r: String)
    ensures
        r@ == snake_case(s@),
{
    heck::ToSnakeCase::to_snake_case(s)
}

/// The OCaml name the `OCamlDescriber` derive gives a type: its `name`
/// attribute, or its Rust name in snake case.
pub open spec fn derived_type_name(attrs: AttrsView, type_ident: Seq<char>) -> Seq<char> {
    match attrs.name {
        Some(n) => n,
        None => snake_case(type_ident),
    }
}

/// The OCaml name of a type from the attributes and name of its Rust
/// definition.
pub fn ocaml_type_name_of(attrs: &OCamlAttributes, type_ident: &str) -> (r: String)
    ensures
        r@ == derived_type_name(attrs@, type_ident@),
{
    match attrs.get_name() {
        Some(n) => n.clone(),
        None => to_snake_case(type_ident),
    }
}

/// The name a derived `ocaml_type_name` returns for a type named `name`
/// whose type parameters are named `params`: `name` alone, `p name` for one
/// parameter, and `(p1, p2, ...) name` for more.
pub open spec fn applied_type_name(name: Seq<char>, params: Seq<Seq<char>>) -> Seq<char> {
    if params.len() == 0 {
        name
    } else if params.len() == 1 {
        params[0] + " "@ + name
    } else {
        "("@ + join_comma(params) + ") "@ + name
    }
}

/// The name a derived `ocaml_type_name` returns, from the type's own OCaml
/// name and the OCaml names of its type parameters.
pub fn applied_type_name_of(name: &str, params: &Vec<String>) -> (r: String)
    ensures
        r@ == applied_type_name(name@, params@.map_values(|p: String| p@)),
{
    let ghost ps = params@.map_values(|p: String| p@);
    if params.len() == 0 {
        return String::from_str(name);
    }
    if params.len() == 1 {
        let mut r = params[0].clone();
        r.append(" ");
        r.append(name);
        return r;
    }
    let mut joined = params[0].clone();
    let mut i: usize = 1;
    proof {
        assert(ps.take(1) =~= seq![ps[0]]);
    }
    while i < params.len()
        invariant
            1 <= i <= params@.len(),
            ps == params@.map_values(|p: String| p@),
            joined@ == join_comma(ps.take(i as int)),
        decreases params@.len() - i,
    {
        joined.append(", ");
        joined.append(params[i].as_str());
        proof {
            reveal_strlit(", ");
            assert(ps.take(i + 1).drop_last() =~= ps.take(i as int));
        }
        i = i + 1;
    }
    proof {
        assert(ps.take(i as int) =~= ps);
    }
    let mut r = String::from_str("(");
    r.append(joined.as_str());
    r.append(") ");
    r.append(name);
    r
}

/// An OCaml type that can name itself.
pub trait OCamlDescriber {
    /// The OCaml name of the type.
    spec fn described_name() -> Seq<char>;

    /// Returns the OCaml type name as a string.
    fn ocaml_type_name() -> (s: String)
        ensures
            s@ == Self::described_name(),
    ;
}

impl OCamlDescriber for bool {
    open spec fn described_name() -> Seq<char> {
        "bool"@
    }

    fn ocaml_type_name() -> (s: String) {
        String::from_str("bool")
    }
}

impl OCamlDescriber for () {
    open spec fn described_name() -> Seq<char> {
        "unit"@
    }

    fn ocaml_type_name() -> (s: String) {
        String::from_str("unit")
    }
}

impl OCamlDescriber for String {
    open spec fn described_name() -> Seq<char> {
        "string"@
    }

    fn ocaml_type_name() -> (s: String) {
        String::from_str("string")
    }
}

impl OCamlDescriber for OCamlInt {
    open spec fn described_name() -> Seq<char> {
        "int"@
    }

    fn ocaml_type_name() -> (s: String) {
        String::from_str("int")
    }
}

impl OCamlDescriber for OCamlInt32 {
    open spec fn described_name() -> Seq<char> {
        "int32"@
    }

    fn ocaml_type_name() -> (s: String) {
        String::from_str("int32")
    }
}

impl OCamlDescriber for OCamlInt64 {
    open spec fn described_name() -> Seq<char> {
        "int64"@
    }

    fn ocaml_type_name() -> (s: String) {
        String::from_str("int64")
    }
}

impl OCamlDescriber for OCamlFloat {
    open spec fn described_name() -> Seq<char> {
        "float"@
    }

    fn ocaml_type_name() -> (s: String) {
        String::from_str("float")
    }
}

impl OCamlDescriber for OCamlBytes {
    open spec fn described_name() -> Seq<char> {
        "bytes"@
    }

    fn ocaml_type_name() -> (s: String) {
        String::from_str("bytes")
    }
}

impl<T: OCamlDescriber> OCamlDescriber for Option<T> {
    open spec fn described_name() -> Seq<char> {
        T::described_name() + " option"@
    }

    fn ocaml_type_name() -> (s: String) {
        let mut s = T::ocaml_type_name();
        s.append(" option");
        s
    }
}

impl<T: OCamlDescriber, E: OCamlDescriber> OCamlDescriber for Result<T, E> {
    open spec fn described_name() -> Seq<char> {
        "("@ + T::described_name() + ", "@ + E::described_name() + ") result"@
    }

    fn ocaml_type_name() -> (s: String) {
        let mut s = String::from_str("(");
        s.append(T::ocaml_type_name().as_str());
        s.append(", ");
        s.append(E::ocaml_type_name().as_str());
        s.append(") result");
        s
    }
}

impl<T: OCamlDescriber> OCamlDescriber for OCamlList<T> {
    open spec fn described_name() -> Seq<char> {
        T::described_name() + " list"@
    }

    fn ocaml_type_name() -> (s: String) {
        let mut s = T::ocaml_type_name();
        s.append(" list");
        s
    }
}

impl<T: OCamlDescriber> OCamlDescriber for OCamlUniformArray<T> {
    open spec fn described_name() -> Seq<char> {
        T::described_name() + " array"@
    }

    fn ocaml_type_name() -> (s: String) {
        let mut s = T::ocaml_type_name();
        s.append(" array");
        s
    }
}

impl OCamlDescriber for OCamlFloatArray {
    open spec fn described_name() -> Seq<char> {
        "float array"@
    }

    fn ocaml_type_name() -> (s: String) {
        String::from_str("float array")
    }
}

impl<T: OCamlDescriber + BigarrayElt> OCamlDescriber for Array1<T> {
    open spec fn described_name() -> Seq<char> {
        T::described_name() + " bigarray"@
    }

    fn ocaml_type_name() -> (s: String) {
        let mut s = T::ocaml_type_name();
        s.append(" bigarray");
        s
    }
}

} // verus!

verus! {

/// The primitive OCaml types are named as OCaml names them, and no two of
/// them share a name: `int`, `int32`, `int64`, `float`, `bytes`, `string`,
/// `bool`, `unit`.
pub proof fn law_primitive_type_names()
    ensures
        OCamlInt::described_name() == "int"@,
        OCamlInt32::described_name() == "int32"@,
        OCamlInt64::described_name() == "int64"@,
        OCamlFloat::described_name() == "float"@,
        OCamlBytes::described_name() == "bytes"@,
        String::described_name() == "string"@,
        bool::described_name() == "bool"@,
        <() as OCamlDescriber>::described_name() == "unit"@,
        OCamlInt::described_name() != OCamlInt64::described_name(),
        OCamlInt::described_name() != OCamlInt32::described_name(),
        OCamlInt32::described_name() != OCamlInt64::described_name(),
        OCamlBytes::described_name() != String::described_name(),
{
    reveal_strlit("int");
    reveal_strlit("int32");
    reveal_strlit("int64");
    reveal_strlit("bytes");
    reveal_strlit("string");
    assert("int"@.len() != "int64"@.len());
    assert("int"@.len() != "int32"@.len());
    assert("int32"@[4] != "int64"@[4]);
    assert("bytes"@.len() != "string"@.len());
}

} // verus!
