//! Reading an `#[export]` function: its attribute items and its signature,
//! into the data the checks and the code writer work on.

use crate::derive::attrs::{MetaItem, MetaValue};
use crate::derive::export::{
    export_error, export_error_message, validate_parsed_data, ExportError, ExportedFnData, FirstArg,
    ProcessedArg, RuntimeArgType,
};
use crate::derive::types::{
    get_interop_type_detail, is_outcome, kind_of, type_detail_outcome, InteropTypeDetail,
    ParseError, TypeModel,
};
use vstd::prelude::*;
use vstd::string::StringExecFns;

verus! {

/// The items of `#[export(...)]`.
pub struct ExportAttributes {
    pub bytecode: Option<String>,
    pub no_panic_catch: bool,
    pub noalloc: bool,
}

/// [`ExportAttributes`] as character sequences.
pub struct ExportAttributesView {
    pub bytecode: Option<Seq<char>>,
    pub no_panic_catch: bool,
    pub noalloc: bool,
}

/// The view of an optional string.
pub open spec fn text_of(s: Option<String>) -> Option<Seq<char>> {
    match s {
        Some(x) => Some(x@),
        None => None,
    }
}

impl View for ExportAttributes {
    type V = ExportAttributesView;

    open spec fn view(&self) -> ExportAttributesView {
        ExportAttributesView {
            bytecode: text_of(self.bytecode),
            no_panic_catch: self.no_panic_catch,
            noalloc: self.noalloc,
        }
    }
}

/// A parameter after the runtime.
pub enum FnArgModel {
    /// `self`, `&self` or `&mut self`.
    Receiver,
    /// A typed parameter: its pattern, as written, and its type.
    Typed { pattern: String, ty: TypeModel },
}

/// The signature of a function marked `#[export]`.
pub struct FnSignatureModel {
    /// The name of the function.
    pub name: String,
    pub is_public: bool,
    pub is_async: bool,
    pub has_generics: bool,
    pub is_variadic: bool,
    /// `None` without `extern`; `Some(None)` for `extern` without a name.
    pub abi: Option<Option<String>>,
    /// The first parameter, if there is one.
    pub runtime_arg: Option<FirstArg>,
    /// The parameters after the first.
    pub args: Vec<FnArgModel>,
    /// The written result type; `None` for `()`.
    pub output: Option<TypeModel>,
}

/// The path of an item, when it is a single identifier.
pub open spec fn meta_name(item: MetaItem) -> Option<Seq<char>> {
    match item {
        MetaItem::NameValue { name, .. } => text_of(name),
        MetaItem::Path { name } => text_of(name),
        MetaItem::List { name } => text_of(name),
    }
}

/// The error for an attribute given twice.
pub open spec fn duplicate_message(attr_name: Seq<char>) -> Seq<char> {
    "'"@ + attr_name + "' attribute specified multiple times"@
}

/// The error for a flag attribute that is not a bare path.
pub open spec fn flag_message(attr_name: Seq<char>) -> Seq<char> {
    "'"@ + attr_name + "' attribute should be a bare path (e.g., #[attr("@ + attr_name
        + ")]), not a name-value or list"@
}

/// The error for a name-value attribute whose value is not a string.
pub open spec fn string_literal_message(attr_name: Seq<char>) -> Seq<char> {
    "'"@ + attr_name + "' attribute value must be a string literal (e.g., "@ + attr_name
        + " = \"value\")"@
}

/// The error for an attribute that `#[export]` does not know.
pub open spec fn unsupported_message(name: Option<Seq<char>>) -> Seq<char> {
    "unsupported attribute '"@ + (match name {
        Some(n) => n,
        None => "?"@,
    }) + "', only 'bytecode', 'no_panic_catch' and 'noalloc' are supported"@
}

/// The attributes after one item of `#[export(...)]` is read, or the
/// error it raises.
pub open spec fn export_attr_step(acc: ExportAttributesView, item: MetaItem) -> Result<
    ExportAttributesView,
    Seq<char>,
> {
    let n = meta_name(item);
    if n == Some("bytecode"@) {
        if acc.bytecode is Some {
            Err(duplicate_message("bytecode"@))
        } else {
            match item {
                MetaItem::NameValue { value, .. } => match value {
                    MetaValue::Str(s) => Ok(ExportAttributesView { bytecode: Some(s@), ..acc }),
                    _ => Err(string_literal_message("bytecode"@)),
                },
                _ => Err(
                    "'bytecode' attribute must be a name-value pair (e.g., bytecode = \"my_func_byte\")"@,
                ),
            }
        }
    } else if n == Some("no_panic_catch"@) {
        if acc.no_panic_catch {
            Err(duplicate_message("no_panic_catch"@))
        } else if item is Path {
            Ok(ExportAttributesView { no_panic_catch: true, ..acc })
        } else {
            Err(flag_message("no_panic_catch"@))
        }
    } else if n == Some("noalloc"@) {
        if acc.noalloc {
            Err(duplicate_message("noalloc"@))
        } else if item is Path {
            Ok(ExportAttributesView { noalloc: true, ..acc })
        } else {
            Err(flag_message("noalloc"@))
        }
    } else {
        Err(unsupported_message(n))
    }
}

/// The attributes after the items are read in order from `acc`; the first
/// error stops it.
pub open spec fn export_attrs_from(acc: ExportAttributesView, items: Seq<MetaItem>) -> Result<
    ExportAttributesView,
    Seq<char>,
>
    decreases items.len(),
{
    if items.len() == 0 {
        Ok(acc)
    } else {
        match export_attr_step(acc, items[0]) {
            Ok(next) => export_attrs_from(next, items.drop_first()),
            Err(m) => Err(m),
        }
    }
}

/// No attribute given.
pub open spec fn no_export_attrs() -> ExportAttributesView {
    ExportAttributesView { bytecode: None, no_panic_catch: false, noalloc: false }
}

/// A parameter after the runtime, as character sequences.
pub struct ProcessedArgView {
    pub pattern: Seq<char>,
    pub type_detail: InteropTypeDetail,
}

/// The view of a parameter after the runtime.
pub open spec fn arg_view(a: ProcessedArg) -> ProcessedArgView {
    ProcessedArgView { pattern: a.pattern@, type_detail: a.type_detail }
}

/// What a parameter after the runtime gives: its pattern and the detail of
/// its type, or the error.
pub open spec fn arg_outcome(arg: FnArgModel) -> Result<ProcessedArgView, Seq<char>> {
    match arg {
        FnArgModel::Receiver => Err(
            "Receiver arguments (`self`) are not supported in ocaml_interop::export functions."@,
        ),
        FnArgModel::Typed { pattern, ty } => match type_detail_outcome(ty) {
            Ok(d) => Ok(ProcessedArgView { pattern: pattern@, type_detail: d }),
            Err(m) => Err(m),
        },
    }
}

/// What the parameters after the runtime give: each one's reading, in
/// order, or the first error.
pub open spec fn args_outcome(args: Seq<FnArgModel>) -> Result<Seq<ProcessedArgView>, Seq<char>>
    decreases args.len(),
{
    if args.len() == 0 {
        Ok(Seq::empty())
    } else {
        match arg_outcome(args[0]) {
            Err(m) => Err(m),
            Ok(k) => match args_outcome(args.drop_first()) {
                Ok(ks) => Ok(seq![k] + ks),
                Err(m) => Err(m),
            },
        }
    }
}

/// The written result type, with `()` for none.
pub open spec fn output_type(output: Option<TypeModel>) -> TypeModel {
    match output {
        Some(t) => t,
        None => TypeModel::Tuple { len: 0 },
    }
}

/// The data read from a function, as the checks see it.
pub struct ExportedFnView {
    pub bytecode_fn_name: Option<Seq<char>>,
    pub no_panic_catch: bool,
    pub noalloc: bool,
    pub native_fn_name: Seq<char>,
    pub runtime_arg_ty: RuntimeArgType,
    pub processed_args: Seq<ProcessedArgView>,
    pub return_interop_detail: InteropTypeDetail,
    pub is_public: bool,
    pub is_async: bool,
    pub has_generics: bool,
    pub is_variadic: bool,
    pub abi: Option<Option<String>>,
}

/// The view of the data read from a function.
pub open spec fn fn_data_view(d: ExportedFnData) -> ExportedFnView {
    ExportedFnView {
        bytecode_fn_name: text_of(d.bytecode_fn_name),
        no_panic_catch: d.no_panic_catch,
        noalloc: d.noalloc,
        native_fn_name: d.native_fn_name@,
        runtime_arg_ty: d.runtime_arg_ty,
        processed_args: d.processed_args@.map_values(|a: ProcessedArg| arg_view(a)),
        return_interop_detail: d.return_interop_detail,
        is_public: d.is_public,
        is_async: d.is_async,
        has_generics: d.has_generics,
        is_variadic: d.is_variadic,
        abi: d.abi,
    }
}

/// What reading an `#[export]` function gives: its data, or the first
/// error, in the order the reading runs (attributes, runtime parameter,
/// other parameters, result type).
pub open spec fn definition_outcome(items: Seq<MetaItem>, sig: FnSignatureModel) -> Result<
    ExportedFnView,
    Seq<char>,
> {
    match export_attrs_from(no_export_attrs(), items) {
        Err(m) => Err(m),
        Ok(a) => match sig.runtime_arg {
            None => Err(
                "Exported functions must take an OCamlRuntime as their first argument."@,
            ),
            Some(FirstArg::Receiver) => Err("OCamlRuntime argument cannot be a receiver (self)."@),
            Some(FirstArg::Typed(rt)) => match args_outcome(sig.args@) {
                Err(m) => Err(m),
                Ok(ks) => match type_detail_outcome(output_type(sig.output)) {
                    Err(m) => Err(m),
                    Ok(d) => Ok(
                        ExportedFnView {
                            bytecode_fn_name: a.bytecode,
                            no_panic_catch: a.no_panic_catch,
                            noalloc: a.noalloc,
                            native_fn_name: sig.name@,
                            runtime_arg_ty: rt,
                            processed_args: ks,
                            return_interop_detail: d,
                            is_public: sig.is_public,
                            is_async: sig.is_async,
                            has_generics: sig.has_generics,
                            is_variadic: sig.is_variadic,
                            abi: sig.abi,
                        },
                    ),
                },
            },
        },
    }
}

/// An error with the given message.
fn error_of(message: String) -> (e: ParseError)
    ensures
        e.message@ == message@,
{
    ParseError { message }
}

/// Whether an item's path is the identifier `name`.
fn is_ident(item: &MetaItem, name: &str) -> (r: bool)
    ensures
        r == (meta_name(*item) == Some(name@)),
{
    let n = match item {
        MetaItem::NameValue { name, .. } => name,
        MetaItem::Path { name } => name,
        MetaItem::List { name } => name,
    };
    match n {
        Some(s) => {
            let other = String::from_str(name);
            *s == other
        },
        None => false,
    }
}

/// Fails when the attribute `attr_name` was given before.
pub fn check_duplicate_attr(attr_name: &str, seen: bool) -> (r: Result<(), ParseError>)
    ensures
        seen ==> (r matches Err(e) && e.message@ == duplicate_message(attr_name@)),
        !seen ==> r is Ok,
{
    if seen {
        let mut message = String::from_str("'");
        message.append(attr_name);
        message.append("' attribute specified multiple times");
        return Err(error_of(message));
    }
    Ok(())
}

/// Reads a flag attribute, which must be a bare path.
pub fn process_flag_attribute(meta: &MetaItem, attr_name: &str) -> (r: Result<bool, ParseError>)
    ensures
        *meta is Path ==> r == Ok::<bool, ParseError>(true),
        !(*meta is Path) ==> (r matches Err(e) && e.message@ == flag_message(attr_name@)),
{
    match meta {
        MetaItem::Path { .. } => Ok(true),
        _ => {
            let mut message = String::from_str("'");
            message.append(attr_name);
            message.append("' attribute should be a bare path (e.g., #[attr(");
            message.append(attr_name);
            message.append(")]), not a name-value or list");
            Err(error_of(message))
        },
    }
}

/// Reads the string value of a `name = "value"` attribute.
pub fn parse_string_literal_attribute(value: &MetaValue, attr_name: &str) -> (r: Result<
    String,
    ParseError,
>)
    ensures
        match *value {
            MetaValue::Str(s) => r matches Ok(v) && v@ == s@,
            _ => r matches Err(e) && e.message@ == string_literal_message(attr_name@),
        },
{
    match value {
        MetaValue::Str(s) => Ok(s.clone()),
        _ => {
            let mut message = String::from_str("'");
            message.append(attr_name);
            message.append("' attribute value must be a string literal (e.g., ");
            message.append(attr_name);
            message.append(" = \"value\")");
            Err(error_of(message))
        },
    }
}

impl ExportAttributes {
    /// Reads one item of `#[export(...)]` into the attributes read so far.
    fn read_item(&mut self, item: &MetaItem) -> (r: Result<(), ParseError>)
        ensures
            match r {
                Ok(_) => export_attr_step(old(self)@, *item) == Ok::<
                    ExportAttributesView,
                    Seq<char>,
                >(final(self)@),
                Err(e) => export_attr_step(old(self)@, *item) == Err::<
                    ExportAttributesView,
                    Seq<char>,
                >(e.message@),
            },
    {
        proof {
            reveal_strlit("bytecode");
            reveal_strlit("no_panic_catch");
            reveal_strlit("noalloc");
        }
        if is_ident(item, "bytecode") {
            check_duplicate_attr("bytecode", self.bytecode.is_some())?;
            match item {
                MetaItem::NameValue { value, .. } => {
                    let name = parse_string_literal_attribute(value, "bytecode")?;
                    self.bytecode = Some(name);
                    Ok(())
                },
                _ => Err(
                    error_of(
                        String::from_str(
                            "'bytecode' attribute must be a name-value pair (e.g., bytecode = \"my_func_byte\")",
                        ),
                    ),
                ),
            }
        } else if is_ident(item, "no_panic_catch") {
            check_duplicate_attr("no_panic_catch", self.no_panic_catch)?;
            let value = process_flag_attribute(item, "no_panic_catch")?;
            self.no_panic_catch = value;
            Ok(())
        } else if is_ident(item, "noalloc") {
            check_duplicate_attr("noalloc", self.noalloc)?;
            let value = process_flag_attribute(item, "noalloc")?;
            self.noalloc = value;
            Ok(())
        } else {
            let shown = match item {
                MetaItem::NameValue { name, .. } => name,
                MetaItem::Path { name } => name,
                MetaItem::List { name } => name,
            };
            let mut message = String::from_str("unsupported attribute '");
            match shown {
                Some(n) => message.append(n.as_str()),
                None => message.append("?"),
            }
            message.append("', only 'bytecode', 'no_panic_catch' and 'noalloc' are supported");
            Err(error_of(message))
        }
    }
}

/// Reads the items of `#[export(...)]`: `bytecode = "name"`,
/// `no_panic_catch` and `noalloc`, each at most once.
pub fn parse_export_attributes(items: &Vec<MetaItem>) -> (r: Result<ExportAttributes, ParseError>)
    ensures
        match r {
            Ok(a) => export_attrs_from(no_export_attrs(), items@) == Ok::<
                ExportAttributesView,
                Seq<char>,
            >(a@),
            Err(e) => export_attrs_from(no_export_attrs(), items@) == Err::<
                ExportAttributesView,
                Seq<char>,
            >(e.message@),
        },
{
    let mut acc = ExportAttributes { bytecode: None, no_panic_catch: false, noalloc: false };
    let mut i: usize = 0;
    proof {
        assert(items@.skip(0) =~= items@);
    }
    while i < items.len()
        invariant
            i <= items@.len(),
            export_attrs_from(no_export_attrs(), items@) == export_attrs_from(
                acc@,
                items@.skip(i as int),
            ),
        decreases items@.len() - i,
    {
        proof {
            assert(items@.skip(i as int).drop_first() =~= items@.skip(i + 1));
            assert(items@.skip(i as int)[0] == items@[i as int]);
        }
        acc.read_item(&items[i])?;
        i = i + 1;
    }
    Ok(acc)
}

/// Reads a parameter after the runtime: its type must be one `#[export]`
/// can pass.
pub fn process_extern_argument(arg: FnArgModel) -> (r: Result<ProcessedArg, ParseError>)
    ensures
        match r {
            Ok(a) => arg_outcome(arg) == Ok::<ProcessedArgView, Seq<char>>(arg_view(a)),
            Err(e) => arg_outcome(arg) == Err::<ProcessedArgView, Seq<char>>(e.message@),
        },
{
    match arg {
        FnArgModel::Typed { pattern, ty } => {
            let type_detail = get_interop_type_detail(ty)?;
            Ok(ProcessedArg { pattern, type_detail })
        },
        FnArgModel::Receiver => Err(
            error_of(
                String::from_str(
                    "Receiver arguments (`self`) are not supported in ocaml_interop::export functions.",
                ),
            ),
        ),
    }
}

/// Reads the result type; a function without one returns `()`.
pub fn process_return_type(output: Option<TypeModel>) -> (r: Result<InteropTypeDetail, ParseError>)
    ensures
        is_outcome(r, type_detail_outcome(output_type(output))),
{
    let t = match output {
        Some(t) => t,
        None => TypeModel::Tuple { len: 0 },
    };
    get_interop_type_detail(t)
}

/// Reads an `#[export]` function from its attribute items and signature.
/// The checks of `validate_parsed_data` run on the result.
#[verifier::loop_isolation(false)]
pub fn parse_export_definition(items: &Vec<MetaItem>, sig: FnSignatureModel) -> (r: Result<
    ExportedFnData,
    ParseError,
>)
    ensures
        match r {
            Ok(d) => definition_outcome(items@, sig) == Ok::<ExportedFnView, Seq<char>>(
                fn_data_view(d),
            ),
            Err(e) => definition_outcome(items@, sig) == Err::<ExportedFnView, Seq<char>>(
                e.message@,
            ),
        },
{
    let attrs = parse_export_attributes(items)?;
    let runtime_arg_ty = match sig.runtime_arg {
        None => {
            return Err(error_of(String::from_str(ExportError::MissingRuntime.message())));
        },
        Some(FirstArg::Receiver) => {
            return Err(error_of(String::from_str(ExportError::ReceiverRuntime.message())));
        },
        Some(FirstArg::Typed(t)) => t,
    };
    let ghost all = sig.args@;
    let mut args = sig.args;
    let mut processed_args: Vec<ProcessedArg> = Vec::new();
    let mut i: usize = 0;
    let total: usize = args.len();
    proof {
        assert(all.skip(0) =~= all);
    }
    while args.len() > 0
        invariant
            i <= all.len(),
            all.len() == total,
            args@ == all.skip(i as int),
            processed_args@.len() == i,
            args_outcome(all) == (match args_outcome(all.skip(i as int)) {
                Ok(ks) => Ok(processed_args@.map_values(|a: ProcessedArg| arg_view(a)) + ks),
                Err(m) => Err(m),
            }),
        decreases args@.len(),
    {
        let arg = args.remove(0);
        proof {
            assert(arg == all[i as int]);
            assert(all.skip(i as int).drop_first() =~= all.skip(i + 1));
            assert(all.skip(i as int)[0] == all[i as int]);
        }
        let processed = process_extern_argument(arg)?;
        let ghost before = processed_args@;
        processed_args.push(processed);
        proof {
            let k = arg_view(processed);
            let rest = args_outcome(all.skip(i + 1));
            assert(processed_args@.map_values(|a: ProcessedArg| arg_view(a)) =~= before.map_values(
                |a: ProcessedArg| arg_view(a),
            ).push(k));
            if rest is Ok {
                assert(before.map_values(|a: ProcessedArg| arg_view(a)) + (seq![k] + rest->Ok_0)
                    =~= before.map_values(|a: ProcessedArg| arg_view(a)).push(k) + rest->Ok_0);
            }
        }
        i = i + 1;
    }
    proof {
        assert(all.skip(i as int) =~= Seq::<FnArgModel>::empty());
        assert(processed_args@.map_values(|a: ProcessedArg| arg_view(a)) + Seq::<
            ProcessedArgView,
        >::empty() =~= processed_args@.map_values(|a: ProcessedArg| arg_view(a)));
    }
    let ret = process_return_type(sig.output)?;
    Ok(
        ExportedFnData {
            bytecode_fn_name: attrs.bytecode,
            no_panic_catch: attrs.no_panic_catch,
            noalloc: attrs.noalloc,
            native_fn_name: sig.name,
            runtime_arg_ty,
            processed_args,
            return_interop_detail: ret,
            is_public: sig.is_public,
            is_async: sig.is_async,
            has_generics: sig.has_generics,
            is_variadic: sig.is_variadic,
            abi: sig.abi,
        },
    )
}

/// Reads an `#[export]` function and runs the checks on what was read: the
/// data the code writer works on, or the message of the first problem.
pub fn export_internal_logic(items: &Vec<MetaItem>, sig: FnSignatureModel) -> (r: Result<
    ExportedFnData,
    ParseError,
>)
    ensures
        match definition_outcome(items@, sig) {
            Err(m) => r matches Err(e) && e.message@ == m,
            Ok(v) => exists|d: ExportedFnData|
                #![trigger fn_data_view(d)]
                fn_data_view(d) == v && match export_error(d) {
                    Some(x) => r matches Err(e) && e.message@ == export_error_message(x),
                    None => r matches Ok(d2) && fn_data_view(d2) == v,
                },
        },
{
    let data = parse_export_definition(items, sig)?;
    match validate_parsed_data(&data) {
        Ok(()) => Ok(data),
        Err(x) => Err(error_of(String::from_str(x.message()))),
    }
}

} // verus!
