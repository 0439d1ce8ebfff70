//! The `#[ocaml(...)]` attributes of a type, variant or field, read from
//! the parsed attribute items.

use crate::derive::error::{attribute_message, OCamlInteropError};
use vstd::prelude::*;
use vstd::string::StringExecFns;

verus! {

/// The value of a `name = value` item.
pub enum MetaValue {
    /// A string literal, with its contents.
    Str(String),
    /// A literal of another kind.
    OtherLit,
    /// An expression that is not a literal.
    NotLit,
}

/// One item inside `#[ocaml(...)]`; `name` is `None` when the path is not
/// a single identifier.
pub enum MetaItem {
    /// `name = value`
    NameValue { name: Option<String>, value: MetaValue },
    /// A bare flag, such as `polymorphic_variant`.
    Path { name: Option<String> },
    /// A list, such as `name(...)`.
    List { name: Option<String> },
}

/// One attribute of an item: whether it is `#[ocaml(...)]`, and its items.
pub struct AttrModel {
    pub is_ocaml: bool,
    pub items: Vec<MetaItem>,
}

/// The OCaml attributes of an item.
#[derive(Debug)]
pub struct OCamlAttributes {
    pub name: Option<String>,
    pub as_: Option<String>,
    pub tag: Option<String>,
    pub polymorphic_variant: bool,
}

/// The attributes as character sequences.
pub struct AttrsView {
    pub name: Option<Seq<char>>,
    pub as_: Option<Seq<char>>,
    pub tag: Option<Seq<char>>,
    pub polymorphic_variant: bool,
}

/// The view of an optional string.
pub open spec fn opt_view(s: Option<String>) -> Option<Seq<char>> {
    match s {
        Some(x) => Some(x@),
        None => None,
    }
}

impl View for OCamlAttributes {
    type V = AttrsView;

    open spec fn view(&self) -> AttrsView {
        AttrsView {
            name: opt_view(self.name),
            as_: opt_view(self.as_),
            tag: opt_view(self.tag),
            polymorphic_variant: self.polymorphic_variant,
        }
    }
}

/// No attribute set.
pub open spec fn no_attrs() -> AttrsView {
    AttrsView { name: None, as_: None, tag: None, polymorphic_variant: false }
}

impl Default for OCamlAttributes {
    fn default() -> (r: Self)
        ensures
            r@ == no_attrs(),
    {
        OCamlAttributes { name: None, as_: None, tag: None, polymorphic_variant: false }
    }
}

/// The name of an item's path, or `unknown`.
pub open spec fn item_name(name: Option<String>) -> Seq<char> {
    match name {
        Some(n) => n@,
        None => "unknown"@,
    }
}

/// The string a `name = value` item holds, or the error about it.
pub open spec fn string_value_of(attr_name: Seq<char>, value: MetaValue) -> Result<
    Seq<char>,
    Seq<char>,
> {
    match value {
        MetaValue::Str(s) => Ok(s@),
        MetaValue::OtherLit => Err(
            attribute_message(Some(attr_name), "Expected string literal for '"@ + attr_name + "'"@),
        ),
        MetaValue::NotLit => Err(
            attribute_message(
                Some(attr_name),
                "Expected literal expression for '"@ + attr_name + "'"@,
            ),
        ),
    }
}

/// The attributes after one item of `#[ocaml(...)]` is applied to `acc`.
pub open spec fn apply_item(acc: AttrsView, item: MetaItem) -> Result<AttrsView, Seq<char>> {
    match item {
        MetaItem::NameValue { name, value } => {
            let n = item_name(name);
            if n == "name"@ || n == "as_"@ || n == "tag"@ {
                match string_value_of(n, value) {
                    Ok(v) => Ok(
                        if n == "name"@ {
                            AttrsView { name: Some(v), ..acc }
                        } else if n == "as_"@ {
                            AttrsView { as_: Some(v), ..acc }
                        } else {
                            AttrsView { tag: Some(v), ..acc }
                        },
                    ),
                    Err(e) => Err(e),
                }
            } else {
                Err(attribute_message(Some(n), "Unknown attribute in #[ocaml(...)]"@))
            }
        },
        MetaItem::Path { name } => {
            let n = item_name(name);
            if n == "polymorphic_variant"@ {
                Ok(AttrsView { polymorphic_variant: true, ..acc })
            } else {
                Err(attribute_message(Some(n), "Unknown flag attribute in #[ocaml(...)]"@))
            }
        },
        MetaItem::List { .. } => Err(
            attribute_message(None, "Unsupported attribute format inside #[ocaml(...)]"@),
        ),
    }
}

/// The attributes after the items are applied in order to `acc`; the first
/// error stops it.
pub open spec fn apply_items(acc: AttrsView, items: Seq<MetaItem>) -> Result<AttrsView, Seq<char>>
    decreases items.len(),
{
    if items.len() == 0 {
        Ok(acc)
    } else {
        match apply_item(acc, items[0]) {
            Ok(next) => apply_items(next, items.drop_first()),
            Err(e) => Err(e),
        }
    }
}

/// The attributes of an item: those of its first `#[ocaml(...)]` attribute,
/// or none when it has none.
pub open spec fn attrs_of(attrs: Seq<AttrModel>) -> Result<AttrsView, Seq<char>>
    decreases attrs.len(),
{
    if attrs.len() == 0 {
        Ok(no_attrs())
    } else if attrs[0].is_ocaml {
        apply_items(no_attrs(), attrs[0].items@)
    } else {
        attrs_of(attrs.drop_first())
    }
}

/// The name of an item's path, or `unknown`.
fn name_of(name: &Option<String>) -> (r: String)
    ensures
        r@ == item_name(*name),
{
    match name {
        Some(n) => n.clone(),
        None => String::from_str("unknown"),
    }
}

/// Whether two strings are equal.
fn same(a: &String, b: &str) -> (r: bool)
    ensures
        r == (a@ == b@),
{
    let bs = String::from_str(b);
    *a == bs
}

impl OCamlAttributes {
    /// Parse a string attribute value from an expression.
    pub fn parse_string_attribute(attr_name: &String, value: &MetaValue) -> (r: Result<
        String,
        OCamlInteropError,
    >)
        ensures
            match r {
                Ok(s) => string_value_of(attr_name@, *value) == Ok::<Seq<char>, Seq<char>>(s@),
                Err(e) => string_value_of(attr_name@, *value) == Err::<Seq<char>, Seq<char>>(e@),
            },
    {
        match value {
            MetaValue::Str(s) => Ok(s.clone()),
            MetaValue::OtherLit => {
                let mut m = String::from_str("Expected string literal for '");
                m.append(attr_name.as_str());
                m.append("'");
                Err(OCamlInteropError::attribute_error_spanned(Some(attr_name.clone()), m))
            },
            MetaValue::NotLit => {
                let mut m = String::from_str("Expected literal expression for '");
                m.append(attr_name.as_str());
                m.append("'");
                Err(OCamlInteropError::attribute_error_spanned(Some(attr_name.clone()), m))
            },
        }
    }

    /// Applies one item of `#[ocaml(...)]`.
    pub fn process_item(&mut self, item: &MetaItem) -> (r: Result<(), OCamlInteropError>)
        ensures
            match r {
                Ok(_) => apply_item(old(self)@, *item) == Ok::<AttrsView, Seq<char>>(
                    final(self)@,
                ),
                Err(e) => apply_item(old(self)@, *item) == Err::<AttrsView, Seq<char>>(e@),
            },
    {
        proof {
            reveal_strlit("name");
            reveal_strlit("as_");
            reveal_strlit("tag");
        }
        match item {
            MetaItem::NameValue { name, value } => {
                let n = name_of(name);
                if same(&n, "name") || same(&n, "as_") || same(&n, "tag") {
                    let v = Self::parse_string_attribute(&n, value);
                    match v {
                        Ok(s) => {
                            if same(&n, "name") {
                                self.name = Some(s);
                            } else if same(&n, "as_") {
                                self.as_ = Some(s);
                            } else {
                                self.tag = Some(s);
                            }
                            Ok(())
                        },
                        Err(e) => Err(e),
                    }
                } else {
                    Err(
                        OCamlInteropError::attribute_error_spanned(
                            Some(n),
                            String::from_str("Unknown attribute in #[ocaml(...)]"),
                        ),
                    )
                }
            },
            MetaItem::Path { name } => {
                let n = name_of(name);
                if same(&n, "polymorphic_variant") {
                    self.polymorphic_variant = true;
                    Ok(())
                } else {
                    Err(
                        OCamlInteropError::attribute_error_spanned(
                            Some(n),
                            String::from_str("Unknown flag attribute in #[ocaml(...)]"),
                        ),
                    )
                }
            },
            MetaItem::List { .. } => Err(
                OCamlInteropError::attribute_error_spanned(
                    None,
                    String::from_str("Unsupported attribute format inside #[ocaml(...)]"),
                ),
            ),
        }
    }

    /// Parse all OCaml attributes from a list of attributes: the first
    /// `#[ocaml(...)]` attribute counts, and the others are not read.
    pub fn from_attrs(attrs: &Vec<AttrModel>) -> (r: Result<OCamlAttributes, OCamlInteropError>)
        ensures
            match r {
                Ok(a) => attrs_of(attrs@) == Ok::<AttrsView, Seq<char>>(a@),
                Err(e) => attrs_of(attrs@) == Err::<AttrsView, Seq<char>>(e@),
            },
    {
        let mut k: usize = 0;
        proof {
            assert(attrs@.skip(0) =~= attrs@);
        }
        while k < attrs.len()
            invariant
                k <= attrs@.len(),
                attrs_of(attrs@) == attrs_of(attrs@.skip(k as int)),
            decreases attrs@.len() - k,
        {
            proof {
                assert(attrs@.skip(k as int).drop_first() =~= attrs@.skip(k + 1));
                assert(attrs@.skip(k as int)[0] == attrs@[k as int]);
            }
            if attrs[k].is_ocaml {
                let items = &attrs[k].items;
                let mut acc = OCamlAttributes::default();
                let mut i: usize = 0;
                proof {
                    assert(items@.skip(0) =~= items@);
                }
                while i < items.len()
                    invariant
                        i <= items@.len(),
                        attrs_of(attrs@) == apply_items(acc@, items@.skip(i as int)),
                    decreases items@.len() - i,
                {
                    proof {
                        assert(items@.skip(i as int).drop_first() =~= items@.skip(i + 1));
                        assert(items@.skip(i as int)[0] == items@[i as int]);
                    }
                    match acc.process_item(&items[i]) {
                        Ok(_) => {},
                        Err(e) => {
                            return Err(e);
                        },
                    }
                    i = i + 1;
                }
                return Ok(acc);
            }
            k = k + 1;
        }
        Ok(OCamlAttributes::default())
    }

    /// The OCaml name given with `name = "..."`.
    pub fn get_name(&self) -> (r: &Option<String>)
        ensures
            opt_view(*r) == self@.name,
    {
        &self.name
    }

    /// The polymorphic variant tag given with `tag = "..."`.
    pub fn get_tag(&self) -> (r: &Option<String>)
        ensures
            opt_view(*r) == self@.tag,
    {
        &self.tag
    }

    /// Whether `polymorphic_variant` was given.
    pub fn is_polymorphic_variant(&self) -> (r: bool)
        ensures
            r == self@.polymorphic_variant,
    {
        self.polymorphic_variant
    }
}

} // verus!
