//! The shape of an inspected OCaml value, and its rendering as text.

use crate::text::{dec_int, dec_nat, fmt_isize, fmt_usize, join_comma};
use vstd::prelude::*;
use vstd::string::{StringExecFns, StringSliceAdditionalSpecFns};
use vstd::utf8::{decode_utf8, encode_utf8, is_char_boundary};

verus! {

/// Represents the different types of OCaml values.
#[derive(Debug, PartialEq)]
pub enum ValueRepr {
    /// An immediate value (integer, boolean, unit, etc.)
    Immediate {
        /// The raw value as an integer
        value: isize,
        /// Human-readable interpretation of the value
        interpretation: String,
    },
    /// A block value (tuple, record, variant, array, etc.)
    Block {
        /// The tag of the block
        tag: u8,
        /// The size (number of fields) of the block
        size: usize,
        /// The fields of the block
        fields: Vec<ValueRepr>,
        /// Human-readable interpretation of the block type
        interpretation: String,
    },
    /// A string value (special case of block with string tag)
    String {
        /// The actual string content
        content: String,
        /// The byte length of the string
        byte_length: usize,
    },
    /// A custom block (used for boxed values, bigarrays, etc.)
    Custom {
        /// The tag of the custom block
        tag: u8,
        /// The size of the custom block
        size: usize,
        /// A description of what this custom block likely represents
        description: String,
    },
    /// An error occurred while trying to inspect the value
    Error {
        /// Description of the error
        message: String,
    },
}

/// A [`ValueRepr`] as the logic sees it: texts as character sequences.
pub ghost enum ReprModel {
    Immediate { value: isize, interpretation: Seq<char> },
    Block { tag: u8, size: usize, fields: Seq<ReprModel>, interpretation: Seq<char> },
    Str { content: Seq<char>, byte_length: usize },
    Custom { tag: u8, size: usize, description: Seq<char> },
    Error { message: Seq<char> },
}

/// The model of a [`ValueRepr`].
pub open spec fn repr_model(r: ValueRepr) -> ReprModel
    decreases r,
{
    match r {
        ValueRepr::Immediate { value, interpretation } => ReprModel::Immediate {
            value,
            interpretation: interpretation@,
        },
        ValueRepr::Block { tag, size, fields, interpretation } => ReprModel::Block {
            tag,
            size,
            fields: Seq::new(
                fields@.len(),
                |i: int|
                    if 0 <= i < fields@.len() {
                        repr_model(fields@[i])
                    } else {
                        ReprModel::Error { message: Seq::empty() }
                    },
            ),
            interpretation: interpretation@,
        },
        ValueRepr::String { content, byte_length } => ReprModel::Str {
            content: content@,
            byte_length,
        },
        ValueRepr::Custom { tag, size, description } => ReprModel::Custom {
            tag,
            size,
            description: description@,
        },
        ValueRepr::Error { message } => ReprModel::Error { message: message@ },
    }
}

impl View for ValueRepr {
    type V = ReprModel;

    open spec fn view(&self) -> ReprModel {
        repr_model(*self)
    }
}

impl Clone for ValueRepr {
    #[verifier::loop_isolation(false)]
    fn clone(&self) -> (r: Self)
        ensures
            r@ == self@,
        decreases self,
    {
        match self {
            ValueRepr::Immediate { value, interpretation } => ValueRepr::Immediate {
                value: *value,
                interpretation: interpretation.clone(),
            },
            ValueRepr::Block { tag, size, fields, interpretation } => {
                let mut copied: Vec<ValueRepr> = Vec::new();
                let mut i: usize = 0;
                while i < fields.len()
                    invariant
                        i <= fields.len(),
                        copied@.len() == i,
                        forall|j: int| 0 <= j < i ==> (#[trigger] copied@[j])@ == fields@[j]@,
                    decreases fields.len() - i,
                {
                    proof {
                        assert(decreases_to!(*self => fields@[i as int]));
                    }
                    copied.push(fields[i].clone());
                    i = i + 1;
                }
                let r = ValueRepr::Block {
                    tag: *tag,
                    size: *size,
                    fields: copied,
                    interpretation: interpretation.clone(),
                };
                proof {
                    let a = r@->Block_fields;
                    let b = self@->Block_fields;
                    assert(a.len() == b.len());
                    assert forall|j: int| 0 <= j < a.len() implies a[j] == b[j] by {
                        assert(a[j] == copied@[j]@);
                        assert(b[j] == fields@[j]@);
                    }
                    assert(a =~= b);
                }
                r
            },
            ValueRepr::String { content, byte_length } => ValueRepr::String {
                content: content.clone(),
                byte_length: *byte_length,
            },
            ValueRepr::Custom { tag, size, description } => ValueRepr::Custom {
                tag: *tag,
                size: *size,
                description: description.clone(),
            },
            ValueRepr::Error { message } => ValueRepr::Error { message: message.clone() },
        }
    }
}

/// Number of bytes of the UTF-8 encoding of `s`.
pub open spec fn utf8_len(s: Seq<char>) -> int {
    encode_utf8(s).len() as int
}

/// The text made of the first `n` bytes of the UTF-8 encoding of `s`.
pub open spec fn byte_prefix(s: Seq<char>, n: int) -> Seq<char> {
    decode_utf8(encode_utf8(s).subrange(0, n))
}

/// A string whose UTF-8 encoding is longer than `n` bytes can be cut after
/// its `n`-th byte.
pub open spec fn cuttable(s: Seq<char>, n: int) -> bool {
    utf8_len(s) > n ==> is_char_boundary(encode_utf8(s), n)
}

/// Characters that the `Debug` rendering of a string shows as themselves.
pub open spec fn plain_debug_char(c: char) -> bool {
    0x20 <= (c as u32) <= 0x7e && c != '"' && c != '\\'
}

/// The `Debug` rendering of a string: the string in double quotes, with
/// characters escaped as `char::escape_debug` describes.
pub uninterp spec fn debug_quoted(s: Seq<char>) -> Seq<char>;

/// `format!("{:?}", s)` on a `str`: the string between double quotes, with
/// quotes, backslashes, control and other non-printable characters escaped.
/// A string of printable ASCII characters other than `"` and `\` is shown
/// as it is, between the quotes, as the documentation of `escape_debug`
/// and `Debug for str` shows; what the escapes look like is left unsaid.
#[verifier::external_body]
fn debug_quote(s: &str) -> (r: String)
    ensures
        r@ == debug_quoted(s@),
        (forall|i: int| 0 <= i < s@.len() ==> plain_debug_char(#[trigger] s@[i])) ==> r@ == seq![
            '"',
        ] + s@ + seq!['"'],
{
    format!("{:?}", s)
}

/// The text of `s` cut after its `n`-th byte, with `...` appended, when its
/// encoding is longer than `n` bytes; `s` itself otherwise.
pub open spec fn shortened(s: Seq<char>, n: int) -> Seq<char> {
    if utf8_len(s) > n {
        byte_prefix(s, n) + "..."@
    } else {
        s
    }
}

/// The numbered renderings `i: field` of each field.
pub open spec fn numbered_fields(fields: Seq<ValueRepr>) -> Seq<Seq<char>>
    decreases fields,
{
    Seq::new(
        fields.len(),
        |i: int|
            if 0 <= i < fields.len() {
                dec_nat(i as nat) + ": "@ + display_of(fields[i])
            } else {
                Seq::empty()
            },
    )
}

/// How a [`ValueRepr`] displays.
pub open spec fn display_of(r: ValueRepr) -> Seq<char>
    decreases r,
{
    match r {
        ValueRepr::Immediate { value, interpretation } => "Immediate("@ + dec_int(value as int)
            + "): "@ + interpretation@,
        ValueRepr::Block { tag, size, fields, interpretation } => "Block(tag="@ + dec_nat(
            tag as nat,
        ) + ", size="@ + dec_nat(size as nat) + "): "@ + interpretation@ + if fields@.len() == 0 {
            Seq::<char>::empty()
        } else {
            " ["@ + join_comma(numbered_fields(fields@)) + "]"@
        },
        ValueRepr::String { content, byte_length } => "String("@ + dec_nat(byte_length as nat)
            + " bytes): "@ + debug_quoted(shortened(content@, 50)),
        ValueRepr::Custom { tag, size, description } => "Custom(tag="@ + dec_nat(tag as nat)
            + ", size="@ + dec_nat(size as nat) + "): "@ + description@,
        ValueRepr::Error { message } => "Error: "@ + message@,
    }
}

/// Every string in `r` can be shortened for display.
pub open spec fn displayable(r: ValueRepr) -> bool
    decreases r,
{
    match r {
        ValueRepr::String { content, .. } => cuttable(content@, 50),
        ValueRepr::Block { fields, .. } => forall|i: int|
            0 <= i < fields@.len() ==> displayable(#[trigger] fields@[i]),
        _ => true,
    }
}

/// The name of the kind of a value.
pub open spec fn type_name_of(r: ReprModel) -> Seq<char> {
    match r {
        ReprModel::Immediate { .. } => "immediate"@,
        ReprModel::Block { .. } => "block"@,
        ReprModel::Str { .. } => "string"@,
        ReprModel::Custom { .. } => "custom"@,
        ReprModel::Error { .. } => "error"@,
    }
}

/// `s` cut after its `n`-th byte.
pub fn byte_prefix_of(s: &str, n: usize) -> (r: &str)
    requires
        utf8_len(s@) > n,
        is_char_boundary(encode_utf8(s@), n as int),
    ensures
        r@ == byte_prefix(s@, n as int),
{
    let (pre, _) = s.split_at(n);
    proof {
        vstd::utf8::encode_utf8_decode_utf8(pre@);
    }
    pre
}

impl ValueRepr {
    /// Get a short description of the value type
    pub fn value_type_name(&self) -> (r: &'static str)
        ensures
            r@ == type_name_of(self@),
    {
        match self {
            ValueRepr::Immediate { .. } => "immediate",
            ValueRepr::Block { .. } => "block",
            ValueRepr::String { .. } => "string",
            ValueRepr::Custom { .. } => "custom",
            ValueRepr::Error { .. } => "error",
        }
    }

    /// Check if this is an immediate value
    pub fn is_immediate(&self) -> (r: bool)
        ensures
            r == self@ is Immediate,
    {
        matches!(self, ValueRepr::Immediate { .. })
    }

    /// Check if this is a block value
    pub fn is_block(&self) -> (r: bool)
        ensures
            r == self@ is Block,
    {
        matches!(self, ValueRepr::Block { .. })
    }

    /// Check if this is a string value
    pub fn is_string(&self) -> (r: bool)
        ensures
            r == self@ is Str,
    {
        matches!(self, ValueRepr::String { .. })
    }

    /// Check if this is a custom block
    pub fn is_custom(&self) -> (r: bool)
        ensures
            r == self@ is Custom,
    {
        matches!(self, ValueRepr::Custom { .. })
    }

    /// Check if this represents an error
    pub fn is_error(&self) -> (r: bool)
        ensures
            r == self@ is Error,
    {
        matches!(self, ValueRepr::Error { .. })
    }

    /// The displayed text of this value: one line per value, fields listed
    /// in brackets after the block they belong to, long strings shortened.
    #[verifier::loop_isolation(false)]
    pub fn to_string(&self) -> (s: String)
        requires
            displayable(*self),
        ensures
            s@ == display_of(*self),
        decreases self,
    {
        match self {
            ValueRepr::Immediate { value, interpretation } => {
                let mut s = String::from_str("Immediate(");
                s.append(fmt_isize(*value).as_str());
                s.append("): ");
                s.append(interpretation.as_str());
                assert(s@ == display_of(*self));
                s
            },
            ValueRepr::Block { tag, size, fields, interpretation } => {
                let mut s = String::from_str("Block(tag=");
                s.append(fmt_usize(*tag as usize).as_str());
                s.append(", size=");
                s.append(fmt_usize(*size).as_str());
                s.append("): ");
                s.append(interpretation.as_str());
                let ghost fm = fields@;
                proof {
                    assert(numbered_fields(fm).take(0) =~= Seq::<Seq<char>>::empty());
                }
                if fields.len() > 0 {
                    s.append(" [");
                    let mut body = String::new();
                    let mut i: usize = 0;
                    while i < fields.len()
                        invariant
                            i <= fields.len(),
                            fm == fields@,
                            forall|j: int| 0 <= j < fm.len() ==> #[trigger] displayable(fm[j]),
                            body@ == join_comma(numbered_fields(fm).take(i as int)),
                        decreases fields.len() - i,
                    {
                        let ghost prev = body@;
                        if i > 0 {
                            body.append(", ");
                        }
                        body.append(fmt_usize(i).as_str());
                        body.append(": ");
                        proof {
                            assert(decreases_to!(*self => fields@[i as int]));
                            assert(displayable(fm[i as int]));
                        }
                        let f = fields[i].to_string();
                        body.append(f.as_str());
                        proof {
                            let parts = numbered_fields(fm);
                            let t = parts.take(i + 1);
                            assert(t.drop_last() =~= parts.take(i as int));
                            assert(t.last() == parts[i as int]);
                            if i > 0 {
                                assert(", "@ =~= seq![',', ' ']) by {
                                    reveal_strlit(", ");
                                }
                            } else {
                                assert(parts.take(0) =~= Seq::<Seq<char>>::empty());
                            }
                        }
                        i = i + 1;
                    }
                    proof {
                        assert(numbered_fields(fm).take(fields.len() as int) =~= numbered_fields(
                            fm,
                        ));
                    }
                    s.append(body.as_str());
                    s.append("]");
                }
                assert(s@ == display_of(*self));
                s
            },
            ValueRepr::String { content, byte_length } => {
                let mut s = String::from_str("String(");
                s.append(fmt_usize(*byte_length).as_str());
                s.append(" bytes): ");
                let shown = if content.as_str().as_bytes().len() > 50 {
                    let pre = byte_prefix_of(content.as_str(), 50);
                    assert(pre@ == byte_prefix(content@, 50));
                    let mut t = String::from_str(pre);
                    t.append("...");
                    assert(t@ == shortened(content@, 50));
                    t
                } else {
                    let t = content.clone();
                    assert(t@ == content@);
                    assert(t@ == shortened(content@, 50));
                    t
                };
                assert(shown@ == shortened(content@, 50));
                let q = debug_quote(shown.as_str());
                assert(q@ == debug_quoted(shortened(content@, 50)));
                s.append(q.as_str());
                assert(s@ == display_of(*self));
                s
            },
            ValueRepr::Custom { tag, size, description } => {
                let mut s = String::from_str("Custom(tag=");
                s.append(fmt_usize(*tag as usize).as_str());
                s.append(", size=");
                s.append(fmt_usize(*size).as_str());
                s.append("): ");
                s.append(description.as_str());
                assert(s@ == display_of(*self));
                s
            },
            ValueRepr::Error { message } => {
                let mut s = String::from_str("Error: ");
                s.append(message.as_str());
                s
            },
        }
    }
}

} // verus!
