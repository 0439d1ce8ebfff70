//! The checks `#[export]` makes on a function's signature before it writes
//! the OCaml-callable wrapper.

use crate::derive::types::{kind_of, InteropTypeDetail};
use vstd::prelude::*;

verus! {

/// The type of the runtime argument.
pub enum RuntimeArgType {
    /// A reference; `path` is the printed path of the referenced type, or
    /// `None` when the referenced type is not a path.
    Reference { path: Option<String>, mutable: bool },
    /// Any type that is not a reference.
    NotReference,
}

/// The first parameter of the function.
pub enum FirstArg {
    /// `self`, `&self` or `&mut self`.
    Receiver,
    /// A typed parameter.
    Typed(RuntimeArgType),
}

/// How an argument or the result crosses into OCaml, as far as the checks
/// look at it.
#[derive(Debug, Clone, Copy, PartialEq, Eq, Structural)]
pub enum InteropKind {
    /// `()`.
    Unit,
    /// `BoxRoot<T>`.
    BoxRoot,
    /// Any other supported type.
    Other,
}

/// A parameter after the runtime: its pattern, as written, and how its
/// type crosses into OCaml.
pub struct ProcessedArg {
    pub pattern: String,
    pub type_detail: InteropTypeDetail,
}

/// What `#[export]` found in a function.
pub struct ExportedFnData {
    /// The name given with `bytecode = "..."`.
    pub bytecode_fn_name: Option<String>,
    pub no_panic_catch: bool,
    pub noalloc: bool,
    /// The name of the function.
    pub native_fn_name: String,
    pub runtime_arg_ty: RuntimeArgType,
    /// The parameters after the runtime, in order.
    pub processed_args: Vec<ProcessedArg>,
    pub return_interop_detail: InteropTypeDetail,
    pub is_public: bool,
    pub is_async: bool,
    pub has_generics: bool,
    pub is_variadic: bool,
    /// `None` without `extern`; `Some(None)` for `extern` without a name.
    pub abi: Option<Option<String>>,
}

/// Why a function cannot be exported.
#[derive(Debug, Clone, Copy, PartialEq, Eq, Structural)]
pub enum ExportError {
    MissingRuntime,
    ReceiverRuntime,
    NotRuntimeReference,
    MutableRuntimeWithNoalloc,
    ImmutableRuntime,
    NoArguments,
    UnitArgument,
    BoxRootArgumentWithNoalloc,
    BoxRootReturn,
    NotPublic,
    Async,
    Generic,
    Variadic,
    UnsupportedAbi,
}

/// The message reported to the user for each error.
pub open spec fn export_error_message(e: ExportError) -> Seq<char> {
    match e {
        ExportError::MissingRuntime => "Exported functions must take an OCamlRuntime as their first argument."@,
        ExportError::ReceiverRuntime => "OCamlRuntime argument cannot be a receiver (self)."@,
        ExportError::NotRuntimeReference => "Exported functions must take an OCamlRuntime reference (e.g., `rt: &OCamlRuntime` or `rt: &mut OCamlRuntime`) as their first argument."@,
        ExportError::MutableRuntimeWithNoalloc => "When `noalloc` is used, OCaml runtime argument must be an immutable reference (e.g., &OCamlRuntime)"@,
        ExportError::ImmutableRuntime => "OCaml runtime argument must be a mutable reference (e.g., &mut OCamlRuntime). Use `#[export(noalloc)]` for an immutable reference."@,
        ExportError::NoArguments => "OCaml functions must take at least one argument in addition to the OCamlRuntime."@,
        ExportError::UnitArgument => "Unit type `()` is not a supported argument type directly. Use OCaml<()> if needed for placeholder."@,
        ExportError::BoxRootArgumentWithNoalloc => "`BoxRoot<T>` arguments are not allowed when `noalloc` is used because BoxRoot implies allocation for rooting."@,
        ExportError::BoxRootReturn => "BoxRoot<T> cannot be used as a return type directly. Return OCaml<T> instead."@,
        ExportError::NotPublic => "Exported functions must be public (`pub`)."@,
        ExportError::Async => "Exported functions cannot be `async`."@,
        ExportError::Generic => "Exported functions cannot have generic parameters."@,
        ExportError::Variadic => "Exported functions cannot be variadic (e.g., `...`)."@,
        ExportError::UnsupportedAbi => "Exported functions must use `extern \"C\"` or `extern \"C-unwind\"` ABI. Other ABIs are not supported."@,
    }
}

impl ExportError {
    /// The message reported to the user.
    pub fn message(&self) -> (m: &'static str)
        ensures
            m@ == export_error_message(*self),
    {
        match self {
            ExportError::MissingRuntime => "Exported functions must take an OCamlRuntime as their first argument.",
            ExportError::ReceiverRuntime => "OCamlRuntime argument cannot be a receiver (self).",
            ExportError::NotRuntimeReference => "Exported functions must take an OCamlRuntime reference (e.g., `rt: &OCamlRuntime` or `rt: &mut OCamlRuntime`) as their first argument.",
            ExportError::MutableRuntimeWithNoalloc => "When `noalloc` is used, OCaml runtime argument must be an immutable reference (e.g., &OCamlRuntime)",
            ExportError::ImmutableRuntime => "OCaml runtime argument must be a mutable reference (e.g., &mut OCamlRuntime). Use `#[export(noalloc)]` for an immutable reference.",
            ExportError::NoArguments => "OCaml functions must take at least one argument in addition to the OCamlRuntime.",
            ExportError::UnitArgument => "Unit type `()` is not a supported argument type directly. Use OCaml<()> if needed for placeholder.",
            ExportError::BoxRootArgumentWithNoalloc => "`BoxRoot<T>` arguments are not allowed when `noalloc` is used because BoxRoot implies allocation for rooting.",
            ExportError::BoxRootReturn => "BoxRoot<T> cannot be used as a return type directly. Return OCaml<T> instead.",
            ExportError::NotPublic => "Exported functions must be public (`pub`).",
            ExportError::Async => "Exported functions cannot be `async`.",
            ExportError::Generic => "Exported functions cannot have generic parameters.",
            ExportError::Variadic => "Exported functions cannot be variadic (e.g., `...`).",
            ExportError::UnsupportedAbi => "Exported functions must use `extern \"C\"` or `extern \"C-unwind\"` ABI. Other ABIs are not supported.",
        }
    }
}

/// The printed paths accepted for the runtime type.
pub open spec fn is_runtime_path(p: Seq<char>) -> bool {
    p == "OCamlRuntime"@ || p == "ocaml_interop :: OCamlRuntime"@ || p
        == ":: ocaml_interop :: OCamlRuntime"@
}

/// The error for the runtime argument's mutability, if any.
pub open spec fn mutability_error(noalloc: bool, mutable: bool) -> Option<ExportError> {
    if noalloc && mutable {
        Some(ExportError::MutableRuntimeWithNoalloc)
    } else if !noalloc && !mutable {
        Some(ExportError::ImmutableRuntime)
    } else {
        None
    }
}

/// The error for the runtime argument's type, if any.
pub open spec fn runtime_arg_error(t: RuntimeArgType, noalloc: bool) -> Option<ExportError> {
    match t {
        RuntimeArgType::Reference { path: Some(p), mutable } => if is_runtime_path(p@) {
            mutability_error(noalloc, mutable)
        } else {
            Some(ExportError::NotRuntimeReference)
        },
        _ => Some(ExportError::NotRuntimeReference),
    }
}

/// The error for the first parameter of a function, if any.
pub open spec fn first_arg_error(first: Option<FirstArg>, noalloc: bool) -> Option<ExportError> {
    match first {
        None => Some(ExportError::MissingRuntime),
        Some(FirstArg::Receiver) => Some(ExportError::ReceiverRuntime),
        Some(FirstArg::Typed(t)) => runtime_arg_error(t, noalloc),
    }
}

/// The first error about the other arguments, if any.
pub open spec fn arguments_error(args: Seq<InteropKind>, noalloc: bool) -> Option<ExportError> {
    if args.len() == 0 {
        Some(ExportError::NoArguments)
    } else if args.contains(InteropKind::Unit) {
        Some(ExportError::UnitArgument)
    } else if noalloc && args.contains(InteropKind::BoxRoot) {
        Some(ExportError::BoxRootArgumentWithNoalloc)
    } else {
        None
    }
}

/// The first error about the function itself, if any.
pub open spec fn properties_error(d: ExportedFnData) -> Option<ExportError> {
    if !d.is_public {
        Some(ExportError::NotPublic)
    } else if d.is_async {
        Some(ExportError::Async)
    } else if d.has_generics {
        Some(ExportError::Generic)
    } else if d.is_variadic {
        Some(ExportError::Variadic)
    } else {
        abi_error(d.abi)
    }
}

/// The error for the function's ABI, if any.
pub open spec fn abi_error(abi: Option<Option<String>>) -> Option<ExportError> {
    match abi {
        Some(Some(name)) => if name@ != "C"@ && name@ != "C-unwind"@ {
            Some(ExportError::UnsupportedAbi)
        } else {
            None
        },
        _ => None,
    }
}

/// The kinds of the parameters after the runtime, in order.
pub open spec fn arg_kinds(args: Seq<ProcessedArg>) -> Seq<InteropKind> {
    args.map_values(|a: ProcessedArg| kind_of(a.type_detail))
}

/// The first error about an exported function, in the order the checks run.
pub open spec fn export_error(d: ExportedFnData) -> Option<ExportError> {
    if runtime_arg_error(d.runtime_arg_ty, d.noalloc) is Some {
        runtime_arg_error(d.runtime_arg_ty, d.noalloc)
    } else if arguments_error(arg_kinds(d.processed_args@), d.noalloc) is Some {
        arguments_error(arg_kinds(d.processed_args@), d.noalloc)
    } else if kind_of(d.return_interop_detail) == InteropKind::BoxRoot {
        Some(ExportError::BoxRootReturn)
    } else {
        properties_error(d)
    }
}

/// The result of a check that finds `e`, or none.
pub open spec fn as_result(e: Option<ExportError>) -> Result<(), ExportError> {
    match e {
        Some(x) => Err(x),
        None => Ok(()),
    }
}

/// Whether two strings are equal.
fn str_eq(a: &String, b: &str) -> (r: bool)
    ensures
        r == (a@ == b@),
{
    let bs = String::from_str(b);
    *a == bs
}

/// Checks the mutability of the runtime argument.
pub fn validate_runtime_mutability(noalloc: bool, is_mutable_runtime: bool) -> (r: Result<
    (),
    ExportError,
>)
    ensures
        r == as_result(mutability_error(noalloc, is_mutable_runtime)),
{
    if noalloc {
        if is_mutable_runtime {
            Err(ExportError::MutableRuntimeWithNoalloc)
        } else {
            Ok(())
        }
    } else {
        if !is_mutable_runtime {
            Err(ExportError::ImmutableRuntime)
        } else {
            Ok(())
        }
    }
}

/// Checks the runtime argument's type.
pub fn validate_runtime_arg(t: &RuntimeArgType, noalloc: bool) -> (r: Result<(), ExportError>)
    ensures
        r == as_result(runtime_arg_error(*t, noalloc)),
{
    match t {
        RuntimeArgType::Reference { path: Some(p), mutable } => {
            if !(str_eq(p, "OCamlRuntime") || str_eq(p, "ocaml_interop :: OCamlRuntime") || str_eq(
                p,
                ":: ocaml_interop :: OCamlRuntime",
            )) {
                return Err(ExportError::NotRuntimeReference);
            }
            validate_runtime_mutability(noalloc, *mutable)
        },
        _ => Err(ExportError::NotRuntimeReference),
    }
}

/// Checks the first parameter of a function, as the attribute parser does.
pub fn validate_runtime_argument(first: &Option<FirstArg>, noalloc: bool) -> (r: Result<
    (),
    ExportError,
>)
    ensures
        r == as_result(first_arg_error(*first, noalloc)),
{
    match first {
        None => Err(ExportError::MissingRuntime),
        Some(FirstArg::Receiver) => Err(ExportError::ReceiverRuntime),
        Some(FirstArg::Typed(t)) => validate_runtime_arg(t, noalloc),
    }
}

/// Whether one of `args` is of kind `k`.
fn contains_kind(args: &Vec<ProcessedArg>, k: InteropKind) -> (r: bool)
    ensures
        r == arg_kinds(args@).contains(k),
{
    let mut i: usize = 0;
    while i < args.len()
        invariant
            i <= args@.len(),
            forall|j: int| 0 <= j < i ==> arg_kinds(args@)[j] != k,
        decreases args@.len() - i,
    {
        if args[i].type_detail.kind() == k {
            assert(arg_kinds(args@)[i as int] == k);
            return true;
        }
        i = i + 1;
    }
    assert(forall|j: int| 0 <= j < arg_kinds(args@).len() ==> arg_kinds(args@)[j] != k);
    false
}

/// Checks the arguments after the runtime.
pub fn validate_argument_constraints(d: &ExportedFnData) -> (r: Result<(), ExportError>)
    ensures
        r == as_result(arguments_error(arg_kinds(d.processed_args@), d.noalloc)),
{
    if d.processed_args.len() == 0 {
        return Err(ExportError::NoArguments);
    }
    if contains_kind(&d.processed_args, InteropKind::Unit) {
        return Err(ExportError::UnitArgument);
    }
    if d.noalloc {
        validate_noalloc_arguments(d)?;
    }
    Ok(())
}

/// With `noalloc`, no argument may be rooted.
pub fn validate_noalloc_arguments(d: &ExportedFnData) -> (r: Result<(), ExportError>)
    ensures
        arg_kinds(d.processed_args@).contains(InteropKind::BoxRoot) ==> r == Err::<(), ExportError>(
            ExportError::BoxRootArgumentWithNoalloc,
        ),
        !arg_kinds(d.processed_args@).contains(InteropKind::BoxRoot) ==> r is Ok,
{
    if contains_kind(&d.processed_args, InteropKind::BoxRoot) {
        return Err(ExportError::BoxRootArgumentWithNoalloc);
    }
    Ok(())
}

/// The result cannot be rooted.
pub fn validate_return_type(d: &ExportedFnData) -> (r: Result<(), ExportError>)
    ensures
        kind_of(d.return_interop_detail) == InteropKind::BoxRoot ==> r == Err::<(), ExportError>(
            ExportError::BoxRootReturn,
        ),
        kind_of(d.return_interop_detail) != InteropKind::BoxRoot ==> r is Ok,
{
    if d.return_interop_detail.kind() == InteropKind::BoxRoot {
        return Err(ExportError::BoxRootReturn);
    }
    Ok(())
}

/// Checks visibility, `async`, generics, variadics and ABI.
pub fn validate_function_properties(d: &ExportedFnData) -> (r: Result<(), ExportError>)
    ensures
        r == as_result(properties_error(*d)),
{
    if !d.is_public {
        return Err(ExportError::NotPublic);
    }
    if d.is_async {
        return Err(ExportError::Async);
    }
    if d.has_generics {
        return Err(ExportError::Generic);
    }
    if d.is_variadic {
        return Err(ExportError::Variadic);
    }
    validate_function_abi(d)
}

/// Only the C ABIs are accepted.
pub fn validate_function_abi(d: &ExportedFnData) -> (r: Result<(), ExportError>)
    ensures
        r == as_result(abi_error(d.abi)),
{
    if let Some(Some(name)) = &d.abi {
        if !str_eq(name, "C") && !str_eq(name, "C-unwind") {
            return Err(ExportError::UnsupportedAbi);
        }
    }
    Ok(())
}

/// Checks an exported function: the first problem found is reported.
pub fn validate_parsed_data(d: &ExportedFnData) -> (r: Result<(), ExportError>)
    ensures
        r == as_result(export_error(*d)),
{
    validate_runtime_arg(&d.runtime_arg_ty, d.noalloc)?;
    validate_argument_constraints(d)?;
    validate_return_type(d)?;
    validate_function_properties(d)?;
    Ok(())
}

} // verus!

verus! {

/// What the code written for an exported function does.
pub struct ExportPlan {
    /// The C symbol of the native function: the function's own name.
    pub symbol: String,
    /// The C symbol of the bytecode stub, written when `bytecode` names one.
    pub bytecode_symbol: Option<String>,
    /// Whether the runtime handle is recovered as a shared reference
    /// (`noalloc`) instead of a mutable one.
    pub shared_runtime: bool,
    /// Whether a panic in the body is caught and raised as an OCaml
    /// exception.
    pub catch_panics: bool,
    /// How each argument is converted, in order.
    pub arg_conversions: Vec<ProcessedArg>,
    /// How the result is converted.
    pub return_conversion: InteropTypeDetail,
}

/// The plan of the code written for an exported function: panics are
/// caught and raised in OCaml unless `noalloc` or `no_panic_catch` is set,
/// and a bytecode stub is added when `bytecode` names one.
pub fn export_plan(d: ExportedFnData) -> (r: ExportPlan)
    ensures
        r.symbol@ == d.native_fn_name@,
        r.bytecode_symbol == d.bytecode_fn_name,
        r.shared_runtime == d.noalloc,
        r.catch_panics == !(d.noalloc || d.no_panic_catch),
        r.arg_conversions@ == d.processed_args@,
        r.return_conversion == d.return_interop_detail,
{
    let catch_panics = !(d.noalloc || d.no_panic_catch);
    ExportPlan {
        symbol: d.native_fn_name,
        bytecode_symbol: d.bytecode_fn_name,
        shared_runtime: d.noalloc,
        catch_panics,
        arg_conversions: d.processed_args,
        return_conversion: d.return_interop_detail,
    }
}

} // verus!

verus! {

/// The runtime argument may name `OCamlRuntime` in any of the three ways a
/// path prints: `OCamlRuntime`, `ocaml_interop :: OCamlRuntime` or
/// `:: ocaml_interop :: OCamlRuntime`; a reference to it passes the check
/// exactly when it is mutable without `noalloc`, or shared with `noalloc`.
/// A reference to any other path is refused as not the runtime.
pub proof fn law_runtime_argument_spellings(p: String, mutable: bool, noalloc: bool)
    ensures
        (p@ == "OCamlRuntime"@ || p@ == "ocaml_interop :: OCamlRuntime"@ || p@
            == ":: ocaml_interop :: OCamlRuntime"@) ==> (runtime_arg_error(
            RuntimeArgType::Reference { path: Some(p), mutable },
            noalloc,
        ) is None <==> mutable != noalloc),
        !(p@ == "OCamlRuntime"@ || p@ == "ocaml_interop :: OCamlRuntime"@ || p@
            == ":: ocaml_interop :: OCamlRuntime"@) ==> runtime_arg_error(
            RuntimeArgType::Reference { path: Some(p), mutable },
            noalloc,
        ) == Some(ExportError::NotRuntimeReference),
{
}

} // verus!
