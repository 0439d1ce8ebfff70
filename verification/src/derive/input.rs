//! Reading the item a derive macro is applied to: its attributes, fields
//! and variants, into the representation the checks and the code writer
//! work on.

use crate::derive::attrs::{attrs_of, opt_view, AttrModel, AttrsView, OCamlAttributes};
use crate::derive::error::{attribute_message, OCamlInteropError};
use crate::derive::parsing::{EnumKind, FieldRep, TypeRep, TypeRepData, VariantKind, VariantRep};
use vstd::prelude::*;
use vstd::string::StringExecFns;

verus! {

/// A field as the derive macros read it: its name (none in a tuple) and
/// its attributes.
pub struct FieldModel {
    pub ident: Option<String>,
    pub attrs: Vec<AttrModel>,
}

/// The fields of a struct or variant.
pub enum FieldsModel {
    Named(Vec<FieldModel>),
    Unnamed(Vec<FieldModel>),
    Unit,
}

/// A variant of an enum.
pub struct VariantModel {
    pub ident: String,
    pub attrs: Vec<AttrModel>,
    pub fields: FieldsModel,
}

/// What the item is.
pub enum DataModel {
    Struct(FieldsModel),
    Enum(Vec<VariantModel>),
    Union,
}

/// The item a derive macro is applied to.
pub struct DeriveInputModel {
    pub ident: String,
    pub attrs: Vec<AttrModel>,
    pub data: DataModel,
}

/// `proc_macro2`'s `TokenStream::from_str` on `text`: `None` when the text
/// lexes into a token stream, else the lexer's message. Which texts lex,
/// and the message, are left unstated: outside a procedural macro the
/// crate's own lexer decides, inside one the compiler's.
#[verifier::external_body]
fn lex_tokens(text: &str) -> (r: Option<String>) {
    match text.parse::<proc_macro2::TokenStream>() {
        Ok(_) => None,
        Err(e) => Some(e.to_string()),
    }
}

/// Whether the lexer `lex` may answer `o` on the text `s`.
pub open spec fn may_lex<L: Fn(&str) -> Option<String>>(
    lex: L,
    s: Seq<char>,
    o: Option<Seq<char>>,
) -> bool {
    exists|x: &str, v: Option<String>|
        #![trigger lex.ensures((x,), v)]
        x@ == s && lex.ensures((x,), v) && opt_view(v) == o
}

/// The verdicts the lexer `lex` may give, as a relation between texts and
/// verdicts.
pub open spec fn lexer_of<L: Fn(&str) -> Option<String>>(lex: L) -> spec_fn(
    Seq<char>,
    Option<Seq<char>>,
) -> bool {
    |s: Seq<char>, o: Option<Seq<char>>| may_lex(lex, s, o)
}

/// The verdicts `proc_macro2`'s lexer may give.
pub closed spec fn proc_macro2_lexer() -> spec_fn(Seq<char>, Option<Seq<char>>) -> bool {
    lexer_of(lex_tokens)
}

/// A field as character sequences.
pub struct FieldRepView {
    pub ident: Option<Seq<char>>,
    pub attrs: AttrsView,
}

/// The view of a field.
pub open spec fn field_view(f: FieldRep) -> FieldRepView {
    FieldRepView { ident: opt_view(f.ident), attrs: f.attrs@ }
}

/// The message when a field's `as_` text does not lex.
pub open spec fn field_lex_message(s: Seq<char>, e: Seq<char>) -> Seq<char> {
    "Failed to parse OCaml type override '"@ + s + "': "@ + e
}

/// Whether `r` is a result reading the field `f` may give, with the lexer
/// `lex`: the error of its attributes; else the error of its `as_` text
/// when that does not lex; else the field.
pub open spec fn field_result(
    lexes: spec_fn(Seq<char>, Option<Seq<char>>) -> bool,
    f: FieldModel,
    r: Result<FieldRepView, Seq<char>>,
) -> bool {
    match attrs_of(f.attrs@) {
        Err(m) => r == Err::<FieldRepView, Seq<char>>(m),
        Ok(a) => {
            let ok = Ok::<FieldRepView, Seq<char>>(FieldRepView { ident: opt_view(f.ident), attrs: a });
            match a.as_ {
                None => r == ok,
                Some(s) => (lexes(s, None) && r == ok) || exists|e: Seq<char>|
                    lexes(s, Some(e)) && r == Err::<FieldRepView, Seq<char>>(
                        field_lex_message(s, e),
                    ),
            }
        },
    }
}

/// The view of a field's reading.
pub open spec fn field_result_view(r: Result<FieldRep, OCamlInteropError>) -> Result<
    FieldRepView,
    Seq<char>,
> {
    match r {
        Ok(f) => Ok(field_view(f)),
        Err(e) => Err(e@),
    }
}

/// Copies an optional string.
fn copy_opt(s: &Option<String>) -> (r: Option<String>)
    ensures
        opt_view(r) == opt_view(*s),
{
    match s {
        Some(x) => Some(x.clone()),
        None => None,
    }
}

/// Reads a field with the lexer `lex`.
pub fn parse_field_with<L: Fn(&str) -> Option<String>>(field: &FieldModel, lex: &L) -> (r: Result<
    FieldRep,
    OCamlInteropError,
>)
    requires
        forall|x: &str| lex.requires((x,)),
    ensures
        field_result(lexer_of(*lex), *field, field_result_view(r)),
{
    let attrs = OCamlAttributes::from_attrs(&field.attrs)?;
    if let Some(text) = &attrs.as_ {
        let verdict = lex(text.as_str());
        proof {
            assert(may_lex(*lex, text@, opt_view(verdict)));
        }
        if let Some(e) = verdict {
            let mut message = String::from_str("Failed to parse OCaml type override '");
            message.append(text.as_str());
            message.append("': ");
            message.append(e.as_str());
            assert(message@ == field_lex_message(text@, e@));
            assert(may_lex(*lex, text@, Some(e@)));
            return Err(OCamlInteropError::type_error_spanned(message));
        }
    }
    Ok(FieldRep { ident: copy_opt(&field.ident), attrs })
}

/// Whether `r` is what reading `items` in order gives, when `rel` tells
/// what reading one item may give: every item's reading, or the error of
/// the first item whose reading fails.
pub open spec fn list_result<A, B>(
    items: Seq<A>,
    rel: spec_fn(A, Result<B, Seq<char>>) -> bool,
    r: Result<Seq<B>, Seq<char>>,
) -> bool {
    match r {
        Ok(vs) => vs.len() == items.len() && forall|i: int|
            0 <= i < items.len() ==> #[trigger] rel(items[i], Ok(vs[i])),
        Err(m) => exists|vs: Seq<B>|
            vs.len() < items.len() && (forall|i: int|
                0 <= i < vs.len() ==> #[trigger] rel(items[i], Ok(vs[i]))) && rel(
                items[vs.len() as int],
                Err(m),
            ),
    }
}

/// The fields in order.
pub open spec fn fields_of(f: FieldsModel) -> Seq<FieldModel> {
    match f {
        FieldsModel::Named(v) => v@,
        FieldsModel::Unnamed(v) => v@,
        FieldsModel::Unit => Seq::empty(),
    }
}

/// Whether `r` is a result reading the fields `f` may give.
pub open spec fn fields_result(
    lexes: spec_fn(Seq<char>, Option<Seq<char>>) -> bool,
    f: FieldsModel,
    r: Result<Seq<FieldRepView>, Seq<char>>,
) -> bool {
    list_result(
        fields_of(f),
        |x: FieldModel, y: Result<FieldRepView, Seq<char>>| field_result(lexes, x, y),
        r,
    )
}

/// The views of fields.
pub open spec fn fields_view(v: Seq<FieldRep>) -> Seq<FieldRepView> {
    v.map_values(|f: FieldRep| field_view(f))
}

/// Reads the fields of a struct or variant in order.
pub fn parse_fields_common<L: Fn(&str) -> Option<String>>(fields: &FieldsModel, lex: &L) -> (r: Result<
    Vec<FieldRep>,
    OCamlInteropError,
>)
    requires
        forall|x: &str| lex.requires((x,)),
    ensures
        fields_result(
            lexer_of(*lex),
            *fields,
            match r {
                Ok(v) => Ok(fields_view(v@)),
                Err(e) => Err(e@),
            },
        ),
{
    let v = match fields {
        FieldsModel::Named(v) => v,
        FieldsModel::Unnamed(v) => v,
        FieldsModel::Unit => {
            return Ok(Vec::new());
        },
    };
    let ghost rel = |x: FieldModel, y: Result<FieldRepView, Seq<char>>| field_result(lexer_of(*lex), x, y);
    let mut out: Vec<FieldRep> = Vec::new();
    let mut i: usize = 0;
    while i < v.len()
        invariant
            i <= v@.len(),
            out@.len() == i,
            fields_of(*fields) == v@,
            forall|x: &str| lex.requires((x,)),
            rel == (|x: FieldModel, y: Result<FieldRepView, Seq<char>>| field_result(lexer_of(*lex), x, y)),
            forall|j: int| 0 <= j < i ==> #[trigger] rel(v@[j], Ok(field_view(out@[j]))),
        decreases v@.len() - i,
    {
        match parse_field_with(&v[i], lex) {
            Ok(f) => {
                out.push(f);
                proof {
                    assert forall|j: int| 0 <= j < i + 1 implies #[trigger] rel(
                        v@[j],
                        Ok(field_view(out@[j])),
                    ) by {
                        if j < i {
                            assert(rel(v@[j], Ok(field_view(out@[j]))));
                        }
                    }
                }
            },
            Err(e) => {
                proof {
                    let vs = fields_view(out@);
                    assert(vs.len() == i);
                    assert forall|j: int| 0 <= j < vs.len() implies #[trigger] rel(
                        v@[j],
                        Ok(vs[j]),
                    ) by {
                        assert(rel(v@[j], Ok(field_view(out@[j]))));
                    }
                    assert(rel(v@[vs.len() as int], Err(e@)));
                }
                return Err(e);
            },
        }
        i = i + 1;
    }
    proof {
        let vs = fields_view(out@);
        assert forall|j: int| 0 <= j < v@.len() implies #[trigger] rel(v@[j], Ok(vs[j])) by {
            assert(rel(v@[j], Ok(field_view(out@[j]))));
        }
    }
    Ok(out)
}

/// A variant as character sequences.
pub struct VariantRepView {
    pub ident: Seq<char>,
    pub fields: Seq<FieldRepView>,
    pub attrs: AttrsView,
    pub kind: VariantKind,
}

/// The view of a variant.
pub open spec fn variant_view(v: VariantRep) -> VariantRepView {
    VariantRepView {
        ident: v.ident@,
        fields: fields_view(v.fields@),
        attrs: v.attrs@,
        kind: v.kind,
    }
}

/// The kind of a variant with the fields `f`: unit when it has none.
pub open spec fn variant_kind_of(f: FieldsModel) -> VariantKind {
    match f {
        FieldsModel::Named(v) => if v@.len() == 0 {
            VariantKind::Unit
        } else {
            VariantKind::Struct
        },
        FieldsModel::Unnamed(v) => if v@.len() == 0 {
            VariantKind::Unit
        } else {
            VariantKind::Tuple
        },
        FieldsModel::Unit => VariantKind::Unit,
    }
}

/// Whether `r` is a result reading the variant `v` may give: the error of
/// its attributes, else that of its fields, else the variant.
pub open spec fn variant_result(
    lexes: spec_fn(Seq<char>, Option<Seq<char>>) -> bool,
    v: VariantModel,
    r: Result<VariantRepView, Seq<char>>,
) -> bool {
    match attrs_of(v.attrs@) {
        Err(m) => r == Err::<VariantRepView, Seq<char>>(m),
        Ok(a) => match r {
            Err(m) => fields_result(lexes, v.fields, Err(m)),
            Ok(rv) => rv.ident == v.ident@ && rv.attrs == a && rv.kind == variant_kind_of(v.fields)
                && fields_result(lexes, v.fields, Ok(rv.fields)),
        },
    }
}

/// Reads a variant of an enum.
pub fn parse_enum_variant<L: Fn(&str) -> Option<String>>(variant: &VariantModel, lex: &L) -> (r:
    Result<VariantRep, OCamlInteropError>)
    requires
        forall|x: &str| lex.requires((x,)),
    ensures
        variant_result(
            lexer_of(*lex),
            *variant,
            match r {
                Ok(v) => Ok(variant_view(v)),
                Err(e) => Err(e@),
            },
        ),
{
    let attrs = OCamlAttributes::from_attrs(&variant.attrs)?;
    let fields = parse_fields_common(&variant.fields, lex)?;
    let kind = match &variant.fields {
        FieldsModel::Named(v) => if v.len() == 0 {
            VariantKind::Unit
        } else {
            VariantKind::Struct
        },
        FieldsModel::Unnamed(v) => if v.len() == 0 {
            VariantKind::Unit
        } else {
            VariantKind::Tuple
        },
        FieldsModel::Unit => VariantKind::Unit,
    };
    Ok(VariantRep { ident: variant.ident.clone(), fields, attrs, kind })
}

/// Whether `r` is a result reading the variants `vs` in order may give.
pub open spec fn variants_result(
    lexes: spec_fn(Seq<char>, Option<Seq<char>>) -> bool,
    vs: Seq<VariantModel>,
    r: Result<Seq<VariantRepView>, Seq<char>>,
) -> bool {
    list_result(
        vs,
        |x: VariantModel, y: Result<VariantRepView, Seq<char>>| variant_result(lexes, x, y),
        r,
    )
}

/// The views of variants.
pub open spec fn variants_view(v: Seq<VariantRep>) -> Seq<VariantRepView> {
    v.map_values(|x: VariantRep| variant_view(x))
}

/// Reads the variants of an enum in order.
fn parse_variants<L: Fn(&str) -> Option<String>>(variants: &Vec<VariantModel>, lex: &L) -> (r:
    Result<Vec<VariantRep>, OCamlInteropError>)
    requires
        forall|x: &str| lex.requires((x,)),
    ensures
        variants_result(
            lexer_of(*lex),
            variants@,
            match r {
                Ok(v) => Ok(variants_view(v@)),
                Err(e) => Err(e@),
            },
        ),
{
    let ghost rel = |x: VariantModel, y: Result<VariantRepView, Seq<char>>|
        variant_result(lexer_of(*lex), x, y);
    let mut out: Vec<VariantRep> = Vec::new();
    let mut i: usize = 0;
    while i < variants.len()
        invariant
            i <= variants@.len(),
            out@.len() == i,
            forall|x: &str| lex.requires((x,)),
            rel == (|x: VariantModel, y: Result<VariantRepView, Seq<char>>|
                variant_result(lexer_of(*lex), x, y)),
            forall|j: int| 0 <= j < i ==> #[trigger] rel(variants@[j], Ok(variant_view(out@[j]))),
        decreases variants@.len() - i,
    {
        match parse_enum_variant(&variants[i], lex) {
            Ok(v) => {
                out.push(v);
                proof {
                    assert forall|j: int| 0 <= j < i + 1 implies #[trigger] rel(
                        variants@[j],
                        Ok(variant_view(out@[j])),
                    ) by {
                        if j < i {
                            assert(rel(variants@[j], Ok(variant_view(out@[j]))));
                        }
                    }
                }
            },
            Err(e) => {
                proof {
                    let vs = variants_view(out@);
                    assert forall|j: int| 0 <= j < vs.len() implies #[trigger] rel(
                        variants@[j],
                        Ok(vs[j]),
                    ) by {
                        assert(rel(variants@[j], Ok(variant_view(out@[j]))));
                    }
                    assert(rel(variants@[vs.len() as int], Err(e@)));
                }
                return Err(e);
            },
        }
        i = i + 1;
    }
    proof {
        let vs = variants_view(out@);
        assert forall|j: int| 0 <= j < variants@.len() implies #[trigger] rel(
            variants@[j],
            Ok(vs[j]),
        ) by {
            assert(rel(variants@[j], Ok(variant_view(out@[j]))));
        }
    }
    Ok(out)
}

/// What a type is made of, as character sequences.
pub enum TypeRepDataView {
    Struct { fields: Seq<FieldRepView> },
    Enum { variants: Seq<VariantRepView>, kind: EnumKind },
}

/// A type representation as character sequences.
pub struct TypeRepView {
    pub ident: Seq<char>,
    pub ocaml_target_type: Seq<char>,
    pub attrs: AttrsView,
    pub data: TypeRepDataView,
}

/// The view of what a type is made of.
pub open spec fn data_view(d: TypeRepData) -> TypeRepDataView {
    match d {
        TypeRepData::Struct { fields } => TypeRepDataView::Struct { fields: fields_view(fields@) },
        TypeRepData::Enum { variants, kind } => TypeRepDataView::Enum {
            variants: variants_view(variants@),
            kind,
        },
    }
}

/// The view of a type representation.
pub open spec fn type_rep_view(t: TypeRep) -> TypeRepView {
    TypeRepView {
        ident: t.ident@,
        ocaml_target_type: t.ocaml_target_type@,
        attrs: t.attrs@,
        data: data_view(t.data),
    }
}

/// The kind of an enum with the attributes `a`.
pub open spec fn enum_kind_of(a: AttrsView) -> EnumKind {
    if a.polymorphic_variant {
        EnumKind::Polymorphic
    } else {
        EnumKind::Regular
    }
}

/// The message when a type's `as_` text does not lex.
pub open spec fn type_lex_message(s: Seq<char>, e: Seq<char>) -> Seq<char> {
    attribute_message(
        Some("as_"@),
        "Failed to parse type string '"@ + s + "' from attribute #[ocaml(as_ = \"...\")]: "@ + e,
    )
}

/// The message for a union.
pub open spec fn union_message() -> Seq<char> {
    "Unions are not supported by OCaml interop derive macros"@
}

/// Whether `r` is a result reading the data of `d` may give, the type's
/// attributes being `a` and its OCaml type `target`.
pub open spec fn data_result(
    lexes: spec_fn(Seq<char>, Option<Seq<char>>) -> bool,
    d: DeriveInputModel,
    a: AttrsView,
    target: Seq<char>,
    r: Result<TypeRepView, Seq<char>>,
) -> bool {
    match d.data {
        DataModel::Union => r == Err::<TypeRepView, Seq<char>>(union_message()),
        DataModel::Struct(fs) => match r {
            Err(m) => fields_result(lexes, fs, Err(m)),
            Ok(t) => t.ident == d.ident@ && t.attrs == a && t.ocaml_target_type == target && (
            t.data matches TypeRepDataView::Struct { fields } && fields_result(
                lexes,
                fs,
                Ok(fields),
            )),
        },
        DataModel::Enum(vs) => match r {
            Err(m) => variants_result(lexes, vs@, Err(m)),
            Ok(t) => t.ident == d.ident@ && t.attrs == a && t.ocaml_target_type == target && (
            t.data matches TypeRepDataView::Enum { variants, kind } && kind == enum_kind_of(a)
                && variants_result(lexes, vs@, Ok(variants))),
        },
    }
}

/// Whether `r` is a result reading the item `d` may give: the error of its
/// attributes; else the error of its `as_` text when that does not lex;
/// else what reading its fields or variants gives (a union is refused).
pub open spec fn input_result(
    lexes: spec_fn(Seq<char>, Option<Seq<char>>) -> bool,
    d: DeriveInputModel,
    r: Result<TypeRepView, Seq<char>>,
) -> bool {
    match attrs_of(d.attrs@) {
        Err(m) => r == Err::<TypeRepView, Seq<char>>(m),
        Ok(a) => match a.as_ {
            None => data_result(lexes, d, a, d.ident@, r),
            Some(s) => (lexes(s, None) && data_result(lexes, d, a, s, r)) || exists|
                e: Seq<char>,
            |
                lexes(s, Some(e)) && r == Err::<TypeRepView, Seq<char>>(
                    type_lex_message(s, e),
                ),
        },
    }
}

/// Reads the fields of a struct.
pub fn parse_struct_data<L: Fn(&str) -> Option<String>>(fields: &FieldsModel, lex: &L) -> (r:
    Result<TypeRepData, OCamlInteropError>)
    requires
        forall|x: &str| lex.requires((x,)),
    ensures
        match r {
            Ok(d) => d matches TypeRepData::Struct { fields: fs } && fields_result(
                lexer_of(*lex),
                *fields,
                Ok(fields_view(fs@)),
            ),
            Err(e) => fields_result(lexer_of(*lex), *fields, Err(e@)),
        },
{
    let fields = parse_fields_common(fields, lex)?;
    Ok(TypeRepData::Struct { fields })
}

/// Reads the variants of an enum; the enum is polymorphic when the type
/// carries `polymorphic_variant`.
pub fn parse_enum_data<L: Fn(&str) -> Option<String>>(
    variants: &Vec<VariantModel>,
    type_attrs: &OCamlAttributes,
    lex: &L,
) -> (r: Result<TypeRepData, OCamlInteropError>)
    requires
        forall|x: &str| lex.requires((x,)),
    ensures
        match r {
            Ok(d) => d matches TypeRepData::Enum { variants: vs, kind } && kind == enum_kind_of(
                type_attrs@,
            ) && variants_result(lexer_of(*lex), variants@, Ok(variants_view(vs@))),
            Err(e) => variants_result(lexer_of(*lex), variants@, Err(e@)),
        },
{
    let kind = if type_attrs.is_polymorphic_variant() {
        EnumKind::Polymorphic
    } else {
        EnumKind::Regular
    };
    let variants = parse_variants(variants, lex)?;
    Ok(TypeRepData::Enum { variants, kind })
}

/// Reads the item a derive macro is applied to, with the lexer `lex` for
/// `as_` texts.
pub fn parse_input_with<L: Fn(&str) -> Option<String>>(input: &DeriveInputModel, lex: &L) -> (r:
    Result<TypeRep, OCamlInteropError>)
    requires
        forall|x: &str| lex.requires((x,)),
    ensures
        input_result(
            lexer_of(*lex),
            *input,
            match r {
                Ok(t) => Ok(type_rep_view(t)),
                Err(e) => Err(e@),
            },
        ),
{
    let attrs = OCamlAttributes::from_attrs(&input.attrs)?;
    let target = match &attrs.as_ {
        Some(text) => {
            let verdict = lex(text.as_str());
            proof {
                assert(may_lex(*lex, text@, opt_view(verdict)));
            }
            if let Some(e) = verdict {
                let mut m = String::from_str("Failed to parse type string '");
                m.append(text.as_str());
                m.append("' from attribute #[ocaml(as_ = \"...\")]: ");
                m.append(e.as_str());
                let name = String::from_str("as_");
                let err = OCamlInteropError::attribute_error_spanned(Some(name), m);
                proof {
                    assert(may_lex(*lex, text@, Some(e@)));
                    assert(err@ == type_lex_message(text@, e@));
                }
                return Err(err);
            }
            text.clone()
        },
        None => input.ident.clone(),
    };
    let data = match &input.data {
        DataModel::Struct(fields) => parse_struct_data(fields, lex)?,
        DataModel::Enum(variants) => parse_enum_data(variants, &attrs, lex)?,
        DataModel::Union => {
            return Err(
                OCamlInteropError::type_error_spanned(
                    String::from_str("Unions are not supported by OCaml interop derive macros"),
                ),
            );
        },
    };
    Ok(TypeRep { ident: input.ident.clone(), ocaml_target_type: target, attrs, data })
}

/// Reads a field; its `as_` text goes through `proc_macro2`'s lexer.
pub fn parse_field(field: &FieldModel) -> (r: Result<FieldRep, OCamlInteropError>)
    ensures
        field_result(proc_macro2_lexer(), *field, field_result_view(r)),
{
    parse_field_with(field, &lex_tokens)
}

/// Reads the item a derive macro is applied to; `as_` texts go through
/// `proc_macro2`'s lexer.
pub fn parse_input(input: &DeriveInputModel) -> (r: Result<TypeRep, OCamlInteropError>)
    ensures
        input_result(
            proc_macro2_lexer(),
            *input,
            match r {
                Ok(t) => Ok(type_rep_view(t)),
                Err(e) => Err(e@),
            },
        ),
{
    parse_input_with(input, &lex_tokens)
}

} // verus!
