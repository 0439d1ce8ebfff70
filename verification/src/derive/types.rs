//! How `#[export]` classifies the types of a function's arguments and
//! result.

use crate::derive::export::InteropKind;
use vstd::prelude::*;
use vstd::string::StringExecFns;

verus! {

/// The generic arguments of the last segment of a type path.
pub enum GenericArgs {
    /// No arguments.
    NoArgs,
    /// `<...>` whose first argument is a type (`Some`) or something else.
    Angle(Option<Box<TypeModel>>),
    /// `(...)`, as in `Fn(A) -> B`.
    Parenthesized,
}

/// A Rust type as the classification reads it.
pub enum TypeModel {
    /// A tuple type with `len` elements (`()` when `len` is 0).
    Tuple { len: usize },
    /// A path type: whether it has a qualified self (`<T as Trait>::X`),
    /// and the identifier and arguments of its last segment, if it has one.
    Path { qself: bool, last: Option<(String, GenericArgs)> },
    /// A reference type.
    Reference,
    /// Any other type, with its printed text.
    Other { text: String },
}

/// The primitive types passed unboxed.
#[derive(Debug, Clone, Copy, PartialEq, Eq, Structural)]
pub enum PrimitiveInteropType {
    F64,
    I64,
    I32,
    Bool,
    ISize,
}

/// How a type crosses into OCaml.
pub enum InteropTypeDetail {
    /// `()`, for results.
    Unit,
    /// An unboxed primitive.
    Primitive(PrimitiveInteropType),
    /// `OCaml<T>`, with `T`.
    OCaml(Box<TypeModel>),
    /// `BoxRoot<T>`, with `T`; arguments only.
    BoxRoot(Box<TypeModel>),
}

/// Why a type, an argument or an attribute cannot be used, with the message
/// reported to the user.
#[derive(Debug)]
pub struct ParseError {
    pub message: String,
}

/// The primitive an identifier names, if any.
pub open spec fn primitive_named(ident: Seq<char>) -> Option<PrimitiveInteropType> {
    if ident == "f64"@ {
        Some(PrimitiveInteropType::F64)
    } else if ident == "i64"@ {
        Some(PrimitiveInteropType::I64)
    } else if ident == "i32"@ {
        Some(PrimitiveInteropType::I32)
    } else if ident == "bool"@ {
        Some(PrimitiveInteropType::Bool)
    } else if ident == "isize"@ {
        Some(PrimitiveInteropType::ISize)
    } else {
        None
    }
}

/// The kind of a classified type.
pub open spec fn kind_of(d: InteropTypeDetail) -> InteropKind {
    match d {
        InteropTypeDetail::Unit => InteropKind::Unit,
        InteropTypeDetail::BoxRoot(_) => InteropKind::BoxRoot,
        _ => InteropKind::Other,
    }
}

/// The runtime function that reads an unboxed primitive from OCaml.
pub open spec fn ocaml_to_rust_fn(p: PrimitiveInteropType) -> Seq<char> {
    match p {
        PrimitiveInteropType::F64 => "float_val"@,
        PrimitiveInteropType::I64 => "int64_val"@,
        PrimitiveInteropType::I32 => "int32_val"@,
        PrimitiveInteropType::Bool => "bool_val"@,
        PrimitiveInteropType::ISize => "int_val"@,
    }
}

/// The runtime function that makes an OCaml value of an unboxed primitive.
pub open spec fn rust_to_ocaml_fn(p: PrimitiveInteropType) -> Seq<char> {
    match p {
        PrimitiveInteropType::F64 => "alloc_float"@,
        PrimitiveInteropType::I64 => "alloc_int64"@,
        PrimitiveInteropType::I32 => "alloc_int32"@,
        PrimitiveInteropType::Bool => "make_ocaml_bool"@,
        PrimitiveInteropType::ISize => "make_ocaml_int"@,
    }
}

impl InteropTypeDetail {
    /// Whether the type is an unboxed primitive.
    pub fn is_primitive(&self) -> (r: bool)
        ensures
            r == (*self is Primitive),
    {
        matches!(self, InteropTypeDetail::Primitive(_))
    }

    /// The kind the checks of `#[export]` look at.
    pub fn kind(&self) -> (k: InteropKind)
        ensures
            k == kind_of(*self),
    {
        match self {
            InteropTypeDetail::Unit => InteropKind::Unit,
            InteropTypeDetail::BoxRoot(_) => InteropKind::BoxRoot,
            _ => InteropKind::Other,
        }
    }

    /// The runtime function that reads an unboxed primitive from OCaml.
    pub fn get_ocaml_to_rust_fn_name(&self) -> (r: Result<&'static str, &'static str>)
        ensures
            match *self {
                InteropTypeDetail::Primitive(p) => r is Ok && r->Ok_0@ == ocaml_to_rust_fn(p),
                _ => r is Err && r->Err_0@
                    == "Internal error: get_ocaml_to_rust_fn_name called on non-primitive type"@,
            },
    {
        match self {
            InteropTypeDetail::Primitive(p) => Ok(
                match p {
                    PrimitiveInteropType::F64 => "float_val",
                    PrimitiveInteropType::I64 => "int64_val",
                    PrimitiveInteropType::I32 => "int32_val",
                    PrimitiveInteropType::Bool => "bool_val",
                    PrimitiveInteropType::ISize => "int_val",
                },
            ),
            _ => Err("Internal error: get_ocaml_to_rust_fn_name called on non-primitive type"),
        }
    }

    /// The runtime function that makes an OCaml value of an unboxed
    /// primitive.
    pub fn get_rust_to_ocaml_fn_name(&self) -> (r: Result<&'static str, &'static str>)
        ensures
            match *self {
                InteropTypeDetail::Primitive(p) => r is Ok && r->Ok_0@ == rust_to_ocaml_fn(p),
                _ => r is Err && r->Err_0@
                    == "Internal error: get_rust_to_ocaml_fn_name called on non-primitive type"@,
            },
    {
        match self {
            InteropTypeDetail::Primitive(p) => Ok(
                match p {
                    PrimitiveInteropType::F64 => "alloc_float",
                    PrimitiveInteropType::I64 => "alloc_int64",
                    PrimitiveInteropType::I32 => "alloc_int32",
                    PrimitiveInteropType::Bool => "make_ocaml_bool",
                    PrimitiveInteropType::ISize => "make_ocaml_int",
                },
            ),
            _ => Err("Internal error: get_rust_to_ocaml_fn_name called on non-primitive type"),
        }
    }
}

/// What `get_primitive_type` gives for a type name.
pub open spec fn primitive_outcome(name: Seq<char>) -> Result<PrimitiveInteropType, Seq<char>> {
    match primitive_named(name) {
        Some(p) => Ok(p),
        None => Err("Unsupported primitive type: `"@ + name + "`"@),
    }
}

/// What reading the type argument of the path whose last segment is `last`
/// gives, for the wrapper `wrapper`: the type, or the error message.
pub open spec fn inner_type_outcome(
    last: Option<(String, GenericArgs)>,
    wrapper: Seq<char>,
) -> Result<Box<TypeModel>, Seq<char>> {
    match last {
        None => Err("Type path for "@ + wrapper + " must have segments"@),
        Some((ident, args)) => if ident@ != wrapper {
            Err("Expected type wrapper "@ + wrapper + ", found "@ + ident@)
        } else {
            match args {
                GenericArgs::Angle(Some(inner)) => Ok(inner),
                GenericArgs::Angle(None) => Err(
                    wrapper + "<T> type argument T is missing or not a type"@,
                ),
                _ => Err(wrapper + "<T> type argument T must be angle bracketed"@),
            }
        },
    }
}

/// What classifying a path type gives: its detail, or the error message.
pub open spec fn path_type_outcome(qself: bool, last: Option<(String, GenericArgs)>) -> Result<
    InteropTypeDetail,
    Seq<char>,
> {
    if qself {
        Err("Qualified self types are not supported."@)
    } else {
        match last {
            None => Err("Invalid type: Type path has no segments."@),
            Some((ident, args)) => match primitive_named(ident@) {
                Some(p) => Ok(InteropTypeDetail::Primitive(p)),
                None => if ident@ == "OCaml"@ {
                    match inner_type_outcome(last, "OCaml"@) {
                        Ok(inner) => Ok(InteropTypeDetail::OCaml(inner)),
                        Err(m) => Err(m),
                    }
                } else if ident@ == "BoxRoot"@ {
                    match inner_type_outcome(last, "BoxRoot"@) {
                        Ok(inner) => Ok(InteropTypeDetail::BoxRoot(inner)),
                        Err(m) => Err(m),
                    }
                } else {
                    Err(
                        "Unsupported type identifier: `"@ + ident@
                            + "`. Must be a primitive, OCaml<T>, or BoxRoot<T> (for arguments)."@,
                    )
                },
            },
        }
    }
}

/// What classifying a type gives: its detail, or the error message.
pub open spec fn type_detail_outcome(t: TypeModel) -> Result<InteropTypeDetail, Seq<char>> {
    match t {
        TypeModel::Tuple { len } => if len == 0 {
            Ok(InteropTypeDetail::Unit)
        } else {
            Err(
                "Tuple types are not directly supported. For multiple return values, consider returning a struct wrapped in OCaml<T>."@,
            )
        },
        TypeModel::Path { qself, last } => path_type_outcome(qself, last),
        TypeModel::Reference => Err(
            "Reference types are not directly supported. Consider using OCaml<T> or BoxRoot<T>."@,
        ),
        TypeModel::Other { text } => Err(
            "Unsupported type structure: `"@ + text@
                + "`. Must be a primitive, OCaml<T>, BoxRoot<T> (for arguments), or `()` (for return types)."@,
        ),
    }
}

/// Whether a result with a [`ParseError`] is the given outcome.
pub open spec fn is_outcome<T>(r: Result<T, ParseError>, o: Result<T, Seq<char>>) -> bool {
    match (r, o) {
        (Ok(a), Ok(b)) => a == b,
        (Err(e), Err(m)) => e.message@ == m,
        _ => false,
    }
}

/// An error with the given message.
fn error_of(message: String) -> (e: ParseError)
    ensures
        e.message@ == message@,
{
    ParseError { message }
}

/// Whether two strings are equal.
fn same_text(a: &String, b: &str) -> (r: bool)
    ensures
        r == (a@ == b@),
{
    let bs = String::from_str(b);
    *a == bs
}

/// The primitive a type name names.
pub fn get_primitive_type(name_text: &str) -> (r: Result<PrimitiveInteropType, ParseError>)
    ensures
        is_outcome(r, primitive_outcome(name_text@)),
{
    let name = String::from_str(name_text);
    if same_text(&name, "f64") {
        Ok(PrimitiveInteropType::F64)
    } else if same_text(&name, "i64") {
        Ok(PrimitiveInteropType::I64)
    } else if same_text(&name, "i32") {
        Ok(PrimitiveInteropType::I32)
    } else if same_text(&name, "bool") {
        Ok(PrimitiveInteropType::Bool)
    } else if same_text(&name, "isize") {
        Ok(PrimitiveInteropType::ISize)
    } else {
        let mut message = String::from_str("Unsupported primitive type: `");
        message.append(name_text);
        message.append("`");
        Err(error_of(message))
    }
}

/// The type argument of `OCaml<T>` or `BoxRoot<T>`, from the last segment
/// of the type's path.
pub fn extract_inner_type_from_path(
    last: Option<(String, GenericArgs)>,
    expected_wrapper_ident: &str,
) -> (r: Result<Box<TypeModel>, ParseError>)
    ensures
        is_outcome(r, inner_type_outcome(last, expected_wrapper_ident@)),
{
    match last {
        None => {
            let mut message = String::from_str("Type path for ");
            message.append(expected_wrapper_ident);
            message.append(" must have segments");
            Err(error_of(message))
        },
        Some((ident, args)) => {
            if !same_text(&ident, expected_wrapper_ident) {
                let mut message = String::from_str("Expected type wrapper ");
                message.append(expected_wrapper_ident);
                message.append(", found ");
                message.append(ident.as_str());
                return Err(error_of(message));
            }
            match args {
                GenericArgs::Angle(Some(inner)) => Ok(inner),
                GenericArgs::Angle(None) => {
                    let mut message = String::from_str(expected_wrapper_ident);
                    message.append("<T> type argument T is missing or not a type");
                    Err(error_of(message))
                },
                _ => {
                    let mut message = String::from_str(expected_wrapper_ident);
                    message.append("<T> type argument T must be angle bracketed");
                    Err(error_of(message))
                },
            }
        },
    }
}

/// Classifies a path type: a primitive, `OCaml<T>` or `BoxRoot<T>`.
pub fn process_path_type(qself: bool, last: Option<(String, GenericArgs)>) -> (r: Result<
    InteropTypeDetail,
    ParseError,
>)
    ensures
        is_outcome(r, path_type_outcome(qself, last)),
{
    if qself {
        return Err(error_of(String::from_str("Qualified self types are not supported.")));
    }
    let ident = match &last {
        None => {
            return Err(error_of(String::from_str("Invalid type: Type path has no segments.")));
        },
        Some((ident, _)) => ident.clone(),
    };
    proof {
        reveal_strlit("f64");
        reveal_strlit("i64");
        reveal_strlit("i32");
        reveal_strlit("bool");
        reveal_strlit("isize");
        reveal_strlit("OCaml");
        reveal_strlit("BoxRoot");
    }
    if same_text(&ident, "f64") || same_text(&ident, "i64") || same_text(&ident, "i32") || same_text(&ident, "bool") || same_text(
        &ident,
        "isize",
    ) {
        let p = get_primitive_type(ident.as_str())?;
        return Ok(InteropTypeDetail::Primitive(p));
    }
    if same_text(&ident, "OCaml") {
        let inner = extract_inner_type_from_path(last, "OCaml")?;
        Ok(InteropTypeDetail::OCaml(inner))
    } else if same_text(&ident, "BoxRoot") {
        let inner = extract_inner_type_from_path(last, "BoxRoot")?;
        Ok(InteropTypeDetail::BoxRoot(inner))
    } else {
        let mut message = String::from_str("Unsupported type identifier: `");
        message.append(ident.as_str());
        message.append("`. Must be a primitive, OCaml<T>, or BoxRoot<T> (for arguments).");
        Err(error_of(message))
    }
}

/// Classifies the type of an argument or of the result.
pub fn get_interop_type_detail(t: TypeModel) -> (r: Result<InteropTypeDetail, ParseError>)
    ensures
        is_outcome(r, type_detail_outcome(t)),
{
    match t {
        TypeModel::Tuple { len } => {
            if len == 0 {
                Ok(InteropTypeDetail::Unit)
            } else {
                Err(
                    error_of(
                        String::from_str(
                            "Tuple types are not directly supported. For multiple return values, consider returning a struct wrapped in OCaml<T>.",
                        ),
                    ),
                )
            }
        },
        TypeModel::Path { qself, last } => process_path_type(qself, last),
        TypeModel::Reference => Err(
            error_of(
                String::from_str(
                    "Reference types are not directly supported. Consider using OCaml<T> or BoxRoot<T>.",
                ),
            ),
        ),
        TypeModel::Other { text } => {
            let mut message = String::from_str("Unsupported type structure: `");
            message.append(text.as_str());
            message.append(
                "`. Must be a primitive, OCaml<T>, BoxRoot<T> (for arguments), or `()` (for return types).",
            );
            Err(error_of(message))
        },
    }
}

} // verus!
