//! The shapes of the types the derive macros read, and the checks on them
//! before any code is generated.

use crate::derive::attrs::OCamlAttributes;
use crate::derive::error::{validation_message, OCamlInteropError};
use vstd::prelude::*;
use vstd::string::StringExecFns;

verus! {

/// The direction of a conversion a field takes part in.
#[derive(Debug, Clone, Copy, PartialEq, Eq, Structural)]
pub enum TypeDirection {
    ToOCaml,
    FromOCaml,
}

/// Represents the kind of variant in an enum
#[derive(Debug, Clone, Copy, PartialEq, Eq, Structural)]
pub enum VariantKind {
    /// A unit variant without any fields (e.g., `MyEnum::Unit`)
    Unit,
    /// A tuple variant with unnamed fields (e.g., `MyEnum::Tuple(i32, String)`)
    Tuple,
    /// A struct variant with named fields (e.g., `MyEnum::Struct { field: i32 }`)
    Struct,
}

/// Represents the kind of enum for OCaml interop
#[derive(Debug, Clone, Copy, PartialEq, Eq, Structural)]
pub enum EnumKind {
    /// A regular OCaml enum, represented as tagged integers or blocks
    Regular,
    /// A polymorphic variant, represented as hash values
    Polymorphic,
}

/// A field of a struct or variant.
pub struct FieldRep {
    pub ident: Option<String>,
    pub attrs: OCamlAttributes,
}

/// A variant of an enum.
pub struct VariantRep {
    pub ident: String,
    pub fields: Vec<FieldRep>,
    pub attrs: OCamlAttributes,
    pub kind: VariantKind,
}

/// What a type is made of.
pub enum TypeRepData {
    Struct { fields: Vec<FieldRep> },
    Enum { variants: Vec<VariantRep>, kind: EnumKind },
}

/// A type the derive macros read.
pub struct TypeRep {
    pub ident: String,
    /// The OCaml type the Rust type converts to: the `as_` text, or the
    /// type's own name.
    pub ocaml_target_type: String,
    pub attrs: OCamlAttributes,
    pub data: TypeRepData,
}

/// The error for an attribute used where it does not apply.
pub open spec fn misused_attribute(name: Seq<char>, context: Seq<char>, expected: Seq<char>) -> Seq<
    char,
> {
    validation_message(
        "#[ocaml("@ + name + ")] is only applicable on "@ + expected + ", but was used on "@
            + context + "."@,
        Some("attribute validation: "@ + name),
    )
}

/// The error for an enum without variants.
pub open spec fn empty_enum_message() -> Seq<char> {
    validation_message(
        "Empty enums are not supported in OCaml interop"@,
        Some("enum must have at least one variant"@),
    )
}

/// The error for a `tag` on a variant of a regular enum.
pub open spec fn tag_misuse(tag: Seq<char>, variant: Seq<char>) -> Seq<char> {
    misused_attribute(
        "tag=\""@ + tag + "\""@,
        "variant '"@ + variant + "' in a regular enum"@,
        "variants of a polymorphic enum (i.e. enum has #[ocaml(polymorphic_variant)])"@,
    )
}

/// The error for a variant among `variants` that carries a `tag` while the
/// enum is not polymorphic: the first such variant.
pub open spec fn first_tag_error(variants: Seq<VariantRep>, kind: EnumKind) -> Option<Seq<char>>
    decreases variants.len(),
{
    if variants.len() == 0 {
        None
    } else if variants[0].attrs.tag is Some && kind != EnumKind::Polymorphic {
        Some(tag_misuse(variants[0].attrs.tag->0@, variants[0].ident@))
    } else {
        first_tag_error(variants.drop_first(), kind)
    }
}

/// The first problem with a type, in the order the checks run.
pub open spec fn type_rep_error(t: TypeRep) -> Option<Seq<char>> {
    if t.attrs.polymorphic_variant && !(t.data is Enum) {
        Some(misused_attribute("polymorphic_variant"@, "non-enum type"@, "enum types only"@))
    } else {
        match t.data {
            TypeRepData::Enum { variants, kind } => if variants@.len() == 0 {
                Some(empty_enum_message())
            } else {
                first_tag_error(variants@, kind)
            },
            TypeRepData::Struct { .. } => None,
        }
    }
}

/// The error for an attribute used where it does not apply.
pub fn invalid_attribute_use(name: &str, context: &str, expected: &str) -> (e: OCamlInteropError)
    ensures
        e@ == misused_attribute(name@, context@, expected@),
{
    let mut message = String::from_str("#[ocaml(");
    message.append(name);
    message.append(")] is only applicable on ");
    message.append(expected);
    message.append(", but was used on ");
    message.append(context);
    message.append(".");
    let mut hint = String::from_str("attribute validation: ");
    hint.append(name);
    OCamlInteropError::validation_error(message, Some(hint))
}

/// A `polymorphic_variant` attribute is only for enums.
pub fn validate_polymorphic_kind(t: &TypeRep) -> (r: Result<(), OCamlInteropError>)
    ensures
        (t.attrs.polymorphic_variant && !(t.data is Enum)) ==> (r matches Err(e) && e@
            == misused_attribute("polymorphic_variant"@, "non-enum type"@, "enum types only"@)),
        !(t.attrs.polymorphic_variant && !(t.data is Enum)) ==> r is Ok,
{
    if t.attrs.is_polymorphic_variant() && !matches!(&t.data, TypeRepData::Enum { .. }) {
        return Err(invalid_attribute_use("polymorphic_variant", "non-enum type", "enum types only"));
    }
    Ok(())
}

/// A `tag` attribute is only for variants of polymorphic enums.
pub fn validate_tag_attribute(v: &VariantRep, kind: EnumKind) -> (r: Result<(), OCamlInteropError>)
    ensures
        (v.attrs.tag is Some && kind != EnumKind::Polymorphic) ==> (r matches Err(e) && e@
            == tag_misuse(v.attrs.tag->0@, v.ident@)),
        !(v.attrs.tag is Some && kind != EnumKind::Polymorphic) ==> r is Ok,
{
    if let Some(tag) = &v.attrs.tag {
        if kind != EnumKind::Polymorphic {
            let mut name = String::from_str("tag=\"");
            name.append(tag.as_str());
            name.append("\"");
            let mut context = String::from_str("variant '");
            context.append(v.ident.as_str());
            context.append("' in a regular enum");
            return Err(
                invalid_attribute_use(
                    name.as_str(),
                    context.as_str(),
                    "variants of a polymorphic enum (i.e. enum has #[ocaml(polymorphic_variant)])",
                ),
            );
        }
    }
    Ok(())
}

/// Fields carry no attribute that needs a check of its own.
pub fn validate_field_attributes(_field: &FieldRep) -> (r: Result<(), OCamlInteropError>)
    ensures
        r is Ok,
{
    Ok(())
}

/// An enum needs at least one variant.
pub fn validate_enum_has_variants(t: &TypeRep) -> (r: Result<(), OCamlInteropError>)
    ensures
        (t.data matches TypeRepData::Enum { variants, .. } && variants@.len() == 0) ==> (r matches Err(
            e,
        ) && e@ == empty_enum_message()),
        !(t.data matches TypeRepData::Enum { variants, .. } && variants@.len() == 0) ==> r is Ok,
{
    if let TypeRepData::Enum { variants, .. } = &t.data {
        if variants.len() == 0 {
            return Err(
                OCamlInteropError::validation_error(
                    String::from_str("Empty enums are not supported in OCaml interop"),
                    Some(String::from_str("enum must have at least one variant")),
                ),
            );
        }
    }
    Ok(())
}

/// Checks a type before code is generated for it: the first problem found
/// is reported.
pub fn validate_type_rep(t: &TypeRep) -> (r: Result<(), OCamlInteropError>)
    ensures
        match type_rep_error(*t) {
            Some(ev) => r matches Err(e) && e@ == ev,
            None => r is Ok,
        },
{
    validate_polymorphic_kind(t)?;
    validate_enum_has_variants(t)?;
    match &t.data {
        TypeRepData::Enum { variants, kind } => {
            let mut i: usize = 0;
            proof {
                assert(variants@.skip(0) =~= variants@);
            }
            while i < variants.len()
                invariant
                    i <= variants@.len(),
                    variants@.len() > 0,
                    t.data == (TypeRepData::Enum { variants: *variants, kind: *kind }),
                    !(t.attrs.polymorphic_variant && !(t.data is Enum)),
                    first_tag_error(variants@, *kind) == first_tag_error(
                        variants@.skip(i as int),
                        *kind,
                    ),
                decreases variants@.len() - i,
            {
                proof {
                    assert(variants@.skip(i as int).drop_first() =~= variants@.skip(i + 1));
                    assert(variants@.skip(i as int)[0] == variants@[i as int]);
                }
                validate_tag_attribute(&variants[i], *kind)?;
                let fields = &variants[i].fields;
                let mut j: usize = 0;
                while j < fields.len()
                    invariant
                        j <= fields@.len(),
                    decreases fields@.len() - j,
                {
                    validate_field_attributes(&fields[j])?;
                    j = j + 1;
                }
                i = i + 1;
            }
        },
        TypeRepData::Struct { fields } => {
            let mut j: usize = 0;
            while j < fields.len()
                invariant
                    j <= fields@.len(),
                decreases fields@.len() - j,
            {
                validate_field_attributes(&fields[j])?;
                j = j + 1;
            }
        },
    }
    Ok(())
}

/// What `str::replace` gives: every occurrence of `from` in `s`, scanning
/// from the left and not overlapping, replaced by `to`.
pub open spec fn replaced(s: Seq<char>, from: Seq<char>, to: Seq<char>) -> Seq<char>
    decreases s.len(),
{
    if from.len() == 0 || s.len() < from.len() {
        s
    } else if s.subrange(0, from.len() as int) == from {
        to + replaced(s.subrange(from.len() as int, s.len() as int), from, to)
    } else {
        seq![s[0]] + replaced(s.drop_first(), from, to)
    }
}

/// `str::replace` with a non-empty pattern: each occurrence of `from`, from
/// the left and without overlap, is replaced by `to`, as its documentation
/// says.
#[verifier::external_body]
fn str_replace(s: &str, from: &str, to: &str) -> (r: String)
    requires
        from@.len() > 0,
    ensures
        r@ == replaced(s@, from@, to@),
{
    s.replace(from, to)
}

/// A type's text with the spaces next to `<`, `>` and before `,` taken out.
pub open spec fn formatted_type(ty: Seq<char>) -> Seq<char> {
    replaced(
        replaced(
            replaced(replaced(replaced(ty, " <"@, "<"@), "< "@, "<"@), " >"@, ">"@),
            "> "@,
            ">"@,
        ),
        " ,"@,
        ","@,
    )
}

/// Tidies the text of a type as `quote!` prints it.
pub fn format_type(ty: String) -> (r: String)
    ensures
        r@ == formatted_type(ty@),
{
    proof {
        reveal_strlit(" <");
        reveal_strlit("< ");
        reveal_strlit(" >");
        reveal_strlit("> ");
        reveal_strlit(" ,");
    }
    let a = str_replace(ty.as_str(), " <", "<");
    let b = str_replace(a.as_str(), "< ", "<");
    let c = str_replace(b.as_str(), " >", ">");
    let d = str_replace(c.as_str(), "> ", ">");
    str_replace(d.as_str(), " ,", ",")
}

} // verus!
