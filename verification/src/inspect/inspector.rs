//! Walks an OCaml value of the heap and builds its [`ValueRepr`] tree.

use crate::inspect::value_repr::{
    byte_prefix, byte_prefix_of, cuttable, utf8_len, ReprModel, ValueRepr,
};
use crate::mlvalues::tag;
use crate::mlvalues::{spec_is_block, spec_is_long, OCamlBytes, RawOCaml, TRUE};
use crate::runtime::{
    block_tag, block_wf, block_wosize, deref, points_into, ref_index, valid_value, OCamlRuntime,
};
use crate::text::{dec_int, dec_nat, fmt_isize, fmt_usize, join_comma};
use crate::conv::{string_from_utf8_lossy, utf8_lossy};
use crate::value::{bytes_of, field_of, OCaml};
use vstd::prelude::*;
use vstd::string::StringExecFns;

verus! {

/// Maximum depth for recursive inspection to avoid infinite loops.
pub const MAX_DEPTH: usize = 8;

/// Maximum number of fields to display for large blocks.
pub const MAX_FIELDS_DISPLAY: usize = 10;

/// Deepest level at which a compact rendering still shows a value.
pub const MAX_COMPACT_DEPTH: usize = 3;

/// How an immediate value is described.
pub open spec fn immediate_text(raw: RawOCaml) -> Seq<char> {
    if raw == TRUE {
        "integer "@ + dec_int(raw / 2) + " (likely boolean true)"@
    } else if raw == 1 {
        "integer 0 (could be: unit, boolean false, empty list, None)"@
    } else {
        "integer "@ + dec_int(raw / 2)
    }
}

/// How a block of values is described, by its tag and size.
pub open spec fn block_type_text(t: u8, size: usize) -> Seq<char> {
    if t == 0 {
        if size == 0 {
            "variant constructor or unit tuple"@
        } else if size == 1 {
            "single-field record or tuple"@
        } else if size == 2 {
            "pair tuple or record"@
        } else {
            "tuple/record with "@ + dec_nat(size as nat) + " fields"@
        }
    } else {
        "variant constructor with tag "@ + dec_nat(t as nat)
    }
}

/// How a block without OCaml values is described, by its tag.
pub open spec fn custom_text(t: u8) -> Seq<char> {
    if t == tag::NO_SCAN {
        "abstract/custom block"@
    } else if t == 255 {
        "bigarray or similar"@
    } else {
        "custom block (tag "@ + dec_nat(t as nat) + ")"@
    }
}

/// What inspecting `raw` at depth `depth` gives.
pub open spec fn inspect_spec(h: Seq<crate::runtime::BlockModel>, raw: RawOCaml, depth: nat) -> ReprModel
    decreases MAX_DEPTH + 1 - depth,
{
    if depth > MAX_DEPTH {
        ReprModel::Error {
            message: "Maximum inspection depth ("@ + dec_nat(MAX_DEPTH as nat) + ") exceeded"@,
        }
    } else if spec_is_long(raw) {
        ReprModel::Immediate { value: raw, interpretation: immediate_text(raw) }
    } else if spec_is_block(raw) {
        let b = deref(h, raw);
        let t = block_tag(b);
        let size = block_wosize(b) as usize;
        if t == tag::STRING {
            ReprModel::Str {
                content: utf8_lossy(bytes_of(h, raw)),
                byte_length: bytes_of(h, raw).len() as usize,
            }
        } else if t == tag::DOUBLE_ARRAY {
            ReprModel::Block {
                tag: tag::DOUBLE_ARRAY,
                size,
                fields: Seq::empty(),
                interpretation: "float array of "@ + dec_nat(size as nat) + " elements"@,
            }
        } else if t == tag::CLOSURE {
            ReprModel::Custom { tag: t, size, description: "function closure"@ }
        } else if t >= tag::NO_SCAN {
            ReprModel::Custom { tag: t, size, description: custom_text(t) }
        } else {
            let shown = if size < MAX_FIELDS_DISPLAY {
                size as int
            } else {
                MAX_FIELDS_DISPLAY as int
            };
            let inspected = Seq::new(
                shown as nat,
                |i: int|
                    if 0 <= i < shown {
                        inspect_spec(h, field_of(h, raw, i), depth + 1)
                    } else {
                        ReprModel::Error { message: Seq::empty() }
                    },
            );
            ReprModel::Block {
                tag: t,
                size,
                fields: if size > MAX_FIELDS_DISPLAY {
                    inspected.push(
                        ReprModel::Error {
                            message: "... and "@ + dec_nat((size - MAX_FIELDS_DISPLAY) as nat)
                                + " more fields"@,
                        },
                    )
                } else {
                    inspected
                },
                interpretation: block_type_text(t, size),
            }
        }
    } else {
        ReprModel::Error { message: "Invalid OCaml value: neither immediate nor block"@ }
    }
}

/// The compact renderings of the first three of `fields`, seen at `depth`.
pub open spec fn compact_parts(fields: Seq<ValueRepr>, depth: nat) -> Seq<Seq<char>>
    decreases fields,
{
    let k = if fields.len() < 3 {
        fields.len() as int
    } else {
        3
    };
    Seq::new(
        k as nat,
        |i: int|
            if 0 <= i < k {
                compact_of(fields[i], depth)
            } else {
                Seq::empty()
            },
    )
}

/// The one-line rendering of `r` seen at depth `depth`.
pub open spec fn compact_of(r: ValueRepr, depth: nat) -> Seq<char>
    decreases r,
{
    if depth > MAX_COMPACT_DEPTH {
        "..."@
    } else {
        match r {
            ValueRepr::Immediate { interpretation, .. } => interpretation@,
            ValueRepr::String { content, byte_length } => if utf8_len(content@) > 20 {
                "\""@ + byte_prefix(content@, 20) + "...\" ("@ + dec_nat(byte_length as nat)
                    + " bytes)"@
            } else {
                "\""@ + content@ + "\""@
            },
            ValueRepr::Block { tag, size, fields, interpretation } => {
                let n = fields@.len();
                if n == 0 {
                    interpretation@ + " (tag="@ + dec_nat(tag as nat) + ", size="@ + dec_nat(
                        size as nat,
                    ) + ")"@
                } else if n == 1 {
                    interpretation@ + " ["@ + compact_of(fields@[0], depth + 1) + "]"@
                } else {
                    let more: Seq<char> = if n > 3 {
                        ", ..."@
                    } else {
                        Seq::empty()
                    };
                    interpretation@ + " ["@ + join_comma(compact_parts(fields@, depth + 1)) + more
                        + "]"@
                }
            },
            ValueRepr::Custom { tag, size, description } => description@ + " (tag="@ + dec_nat(
                tag as nat,
            ) + ", size="@ + dec_nat(size as nat) + ")"@,
            ValueRepr::Error { message } => "Error: "@ + message@,
        }
    }
}

/// Every string the compact rendering of `r` at depth `depth` shortens can
/// be cut after its twentieth byte.
pub open spec fn compactable(r: ValueRepr, depth: nat) -> bool
    decreases r,
{
    depth > MAX_COMPACT_DEPTH || match r {
        ValueRepr::String { content, .. } => cuttable(content@, 20),
        ValueRepr::Block { fields, .. } => forall|i: int|
            0 <= i < fields@.len() && i < 3 ==> compactable(#[trigger] fields@[i], depth + 1),
        _ => true,
    }
}

/// Inspects OCaml values and renders what it found.
#[derive(Debug)]
pub struct ValueInspector {
    repr: ValueRepr,
}

impl View for ValueInspector {
    type V = ValueRepr;

    closed spec fn view(&self) -> ValueRepr {
        self.repr
    }
}

impl Clone for ValueInspector {
    fn clone(&self) -> (r: Self)
        ensures
            r@@ == self@@,
    {
        ValueInspector { repr: self.repr.clone() }
    }
}

/// The interpretation of an immediate value.
fn immediate_interpretation(raw: RawOCaml) -> (s: String)
    requires
        spec_is_long(raw),
    ensures
        s@ == immediate_text(raw),
{
    proof {
        assert(raw >> 1 == raw / 2) by (bit_vector);
    }
    let int_val = raw >> 1;
    if raw == TRUE {
        let mut s = String::from_str("integer ");
        s.append(fmt_isize(int_val).as_str());
        s.append(" (likely boolean true)");
        s
    } else if raw == 1 {
        String::from_str("integer 0 (could be: unit, boolean false, empty list, None)")
    } else {
        let mut s = String::from_str("integer ");
        s.append(fmt_isize(int_val).as_str());
        s
    }
}

/// Describe a block of values based on its tag and size.
fn interpret_block_type(t: u8, size: usize) -> (s: String)
    ensures
        s@ == block_type_text(t, size),
{
    if t == 0 {
        if size == 0 {
            String::from_str("variant constructor or unit tuple")
        } else if size == 1 {
            String::from_str("single-field record or tuple")
        } else if size == 2 {
            String::from_str("pair tuple or record")
        } else {
            let mut s = String::from_str("tuple/record with ");
            s.append(fmt_usize(size).as_str());
            s.append(" fields");
            s
        }
    } else {
        let mut s = String::from_str("variant constructor with tag ");
        s.append(fmt_usize(t as usize).as_str());
        s
    }
}

/// Describe a custom block based on its tag.
fn describe_custom_block(t: u8) -> (s: String)
    ensures
        s@ == custom_text(t),
{
    if t == tag::NO_SCAN {
        String::from_str("abstract/custom block")
    } else if t == 255 {
        String::from_str("bigarray or similar")
    } else {
        let mut s = String::from_str("custom block (tag ");
        s.append(fmt_usize(t as usize).as_str());
        s.append(")");
        s
    }
}

impl ValueInspector {
    /// Inspect a value of the heap and create a new inspector.
    pub fn inspect(cr: &OCamlRuntime, raw: RawOCaml) -> (r: Self)
        requires
            cr.wf(),
            valid_value(cr@, raw),
        ensures
            r@@ == inspect_spec(cr@, raw, 0),
    {
        let repr = Self::inspect_value_recursive(cr, raw, 0);
        ValueInspector { repr }
    }

    /// Get the value representation.
    pub fn repr(&self) -> (r: &ValueRepr)
        ensures
            *r == self@,
    {
        &self.repr
    }

    /// Get a compact single-line representation of the value.
    pub fn compact(&self) -> (s: String)
        requires
            compactable(self@, 0),
        ensures
            s@ == compact_of(self@, 0),
    {
        self.compact_repr(&self.repr, 0)
    }

    /// The displayed text of the inspected value.
    pub fn to_string(&self) -> (s: String)
        requires
            crate::inspect::value_repr::displayable(self@),
        ensures
            s@ == crate::inspect::value_repr::display_of(self@),
    {
        self.repr.to_string()
    }

    /// Recursively inspect an OCaml value with depth tracking.
    fn inspect_value_recursive(cr: &OCamlRuntime, raw: RawOCaml, depth: usize) -> (r: ValueRepr)
        requires
            cr.wf(),
            valid_value(cr@, raw),
            depth <= MAX_DEPTH + 1,
        ensures
            r@ == inspect_spec(cr@, raw, depth as nat),
        decreases MAX_DEPTH + 1 - depth, 2int,
    {
        if depth > MAX_DEPTH {
            let mut message = String::from_str("Maximum inspection depth (");
            message.append(fmt_usize(MAX_DEPTH).as_str());
            message.append(") exceeded");
            return ValueRepr::Error { message };
        }
        if ocaml_sys::is_long(raw) {
            ValueRepr::Immediate { value: raw, interpretation: immediate_interpretation(raw) }
        } else if ocaml_sys::is_block(raw) {
            Self::inspect_block(cr, raw, depth)
        } else {
            ValueRepr::Error {
                message: String::from_str("Invalid OCaml value: neither immediate nor block"),
            }
        }
    }

    /// Inspect a block value.
    fn inspect_block(cr: &OCamlRuntime, raw: RawOCaml, depth: usize) -> (r: ValueRepr)
        requires
            cr.wf(),
            points_into(cr@, raw),
            depth <= MAX_DEPTH,
        ensures
            r@ == inspect_spec(cr@, raw, depth as nat),
        decreases MAX_DEPTH + 1 - depth, 1int,
    {
        let ghost i = ref_index(raw);
        proof {
            assert(block_wf(cr@[i], i));
        }
        let v: OCaml<()> = OCaml::new(cr, raw);
        let t = v.tag_value(cr);
        let size = v.size(cr);
        if t == tag::STRING {
            Self::inspect_string(cr, raw)
        } else if t == tag::DOUBLE_ARRAY {
            let mut interpretation = String::from_str("float array of ");
            interpretation.append(fmt_usize(size).as_str());
            interpretation.append(" elements");
            let r = ValueRepr::Block {
                tag: tag::DOUBLE_ARRAY,
                size,
                fields: Vec::new(),
                interpretation,
            };
            proof {
                assert(r@->Block_fields =~= Seq::<ReprModel>::empty());
            }
            r
        } else if t == tag::CLOSURE {
            ValueRepr::Custom {
                tag: t,
                size,
                description: String::from_str("function closure"),
            }
        } else if t >= tag::NO_SCAN {
            ValueRepr::Custom { tag: t, size, description: describe_custom_block(t) }
        } else {
            Self::inspect_regular_block(cr, raw, t, size, depth)
        }
    }

    /// Inspect a string value: its text (invalid UTF-8 replaced by U+FFFD)
    /// and its length in bytes.
    fn inspect_string(cr: &OCamlRuntime, raw: RawOCaml) -> (r: ValueRepr)
        requires
            cr.wf(),
            points_into(cr@, raw),
            block_tag(deref(cr@, raw)) == tag::STRING,
        ensures
            forall|d: nat| d <= MAX_DEPTH ==> r@ == #[trigger] inspect_spec(cr@, raw, d),
    {
        let ghost i = ref_index(raw);
        proof {
            assert(block_wf(cr@[i], i));
        }
        let v: OCaml<OCamlBytes> = OCaml::new(cr, raw);
        let bytes = v.as_bytes(cr);
        let content = string_from_utf8_lossy(bytes);
        ValueRepr::String { content, byte_length: bytes.len() }
    }

    /// Inspect a regular block (variant, tuple, record, etc.).
    fn inspect_regular_block(cr: &OCamlRuntime, raw: RawOCaml, t: u8, size: usize, depth: usize) -> (r: ValueRepr)
        requires
            cr.wf(),
            points_into(cr@, raw),
            depth <= MAX_DEPTH,
            t == block_tag(deref(cr@, raw)),
            size == block_wosize(deref(cr@, raw)),
            t < tag::NO_SCAN,
            t != tag::CLOSURE,
        ensures
            r@ == inspect_spec(cr@, raw, depth as nat),
        decreases MAX_DEPTH + 1 - depth, 0int,
    {
        let ghost k = ref_index(raw);
        proof {
            assert(block_wf(cr@[k], k));
        }
        let interpretation = interpret_block_type(t, size);
        let fields_to_inspect = if size < MAX_FIELDS_DISPLAY {
            size
        } else {
            MAX_FIELDS_DISPLAY
        };
        let v: OCaml<()> = OCaml::new(cr, raw);
        let mut fields: Vec<ValueRepr> = Vec::new();
        let mut i: usize = 0;
        while i < fields_to_inspect
            invariant
                cr.wf(),
                points_into(cr@, raw),
                v@ == raw,
                deref(cr@, raw) is Structured,
                fields_to_inspect <= size,
                size == deref(cr@, raw)->fields.len(),
                depth <= MAX_DEPTH,
                i <= fields_to_inspect,
                fields@.len() == i,
                forall|j: int|
                    0 <= j < i ==> (#[trigger] fields@[j])@ == inspect_spec(
                        cr@,
                        field_of(cr@, raw, j),
                        depth as nat + 1,
                    ),
            decreases fields_to_inspect - i,
        {
            let f: OCaml<()> = v.field(cr, i);
            let repr = Self::inspect_value_recursive(cr, f.raw(), depth + 1);
            fields.push(repr);
            i = i + 1;
        }
        let ghost inspected = fields@;
        if size > MAX_FIELDS_DISPLAY {
            let mut message = String::from_str("... and ");
            message.append(fmt_usize(size - MAX_FIELDS_DISPLAY).as_str());
            message.append(" more fields");
            fields.push(ValueRepr::Error { message });
        }
        let r = ValueRepr::Block { tag: t, size, fields, interpretation };
        proof {
            let spec_r = inspect_spec(cr@, raw, depth as nat);
            let a = r@->Block_fields;
            let b = spec_r->Block_fields;
            assert(a.len() == b.len());
            assert forall|j: int| 0 <= j < a.len() implies a[j] == b[j] by {
                assert(a[j] == fields@[j]@);
                if j < fields_to_inspect {
                    assert(fields@[j] == inspected[j]);
                }
            }
            assert(a =~= b);
        }
        r
    }

    /// Create a compact representation that fits on one line.
    #[verifier::loop_isolation(false)]
    fn compact_repr(&self, repr: &ValueRepr, depth: usize) -> (s: String)
        requires
            compactable(*repr, depth as nat),
        ensures
            s@ == compact_of(*repr, depth as nat),
        decreases repr,
    {
        if depth > MAX_COMPACT_DEPTH {
            return String::from_str("...");
        }
        match repr {
            ValueRepr::Immediate { interpretation, .. } => interpretation.clone(),
            ValueRepr::String { content, byte_length } => {
                if content.as_str().as_bytes().len() > 20 {
                    let mut s = String::from_str("\"");
                    s.append(byte_prefix_of(content.as_str(), 20));
                    s.append("...\" (");
                    s.append(fmt_usize(*byte_length).as_str());
                    s.append(" bytes)");
                    assert(s@ == compact_of(*repr, depth as nat));
                    s
                } else {
                    let mut s = String::from_str("\"");
                    s.append(content.as_str());
                    s.append("\"");
                    assert(s@ == compact_of(*repr, depth as nat));
                    s
                }
            },
            ValueRepr::Block { tag, size, fields, interpretation } => {
                if fields.len() == 0 {
                    let mut s = interpretation.clone();
                    s.append(" (tag=");
                    s.append(fmt_usize(*tag as usize).as_str());
                    s.append(", size=");
                    s.append(fmt_usize(*size).as_str());
                    s.append(")");
                    assert(s@ == compact_of(*repr, depth as nat));
                    s
                } else if fields.len() == 1 {
                    proof {
                        assert(decreases_to!(*repr => fields@[0]));
                    }
                    let inner = self.compact_repr(&fields[0], depth + 1);
                    let mut s = interpretation.clone();
                    s.append(" [");
                    s.append(inner.as_str());
                    s.append("]");
                    assert(s@ == compact_of(*repr, depth as nat));
                    s
                } else {
                    let k: usize = if fields.len() < 3 {
                        fields.len()
                    } else {
                        3
                    };
                    let ghost parts = compact_parts(fields@, depth as nat + 1);
                    let mut joined = String::new();
                    let mut i: usize = 0;
                    proof {
                        assert(parts.take(0) =~= Seq::<Seq<char>>::empty());
                    }
                    while i < k
                        invariant
                            k <= fields@.len(),
                            k <= 3,
                            i <= k,
                            depth <= MAX_COMPACT_DEPTH,
                            compactable(*repr, depth as nat),
                            *repr == (ValueRepr::Block {
                                tag: *tag,
                                size: *size,
                                fields: *fields,
                                interpretation: *interpretation,
                            }),
                            parts == compact_parts(fields@, depth as nat + 1),
                            parts.len() == k,
                            joined@ == join_comma(parts.take(i as int)),
                        decreases k - i,
                    {
                        if i > 0 {
                            joined.append(", ");
                        }
                        proof {
                            assert(decreases_to!(*repr => fields@[i as int]));
                            assert(compactable(fields@[i as int], depth as nat + 1));
                        }
                        let part = self.compact_repr(&fields[i], depth + 1);
                        joined.append(part.as_str());
                        proof {
                            let t = parts.take(i + 1);
                            assert(t.drop_last() =~= parts.take(i as int));
                            assert(t.last() == parts[i as int]);
                            if i > 0 {
                                assert(", "@ =~= seq![',', ' ']) by {
                                    reveal_strlit(", ");
                                }
                            } else {
                                assert(parts.take(0) =~= Seq::<Seq<char>>::empty());
                            }
                        }
                        i = i + 1;
                    }
                    proof {
                        assert(parts.take(k as int) =~= parts);
                    }
                    let ghost before_tail = joined@;
                    if fields.len() > 3 {
                        joined.append(", ...");
                    }
                    let mut s = interpretation.clone();
                    s.append(" [");
                    s.append(joined.as_str());
                    s.append("]");
                    proof {
                        let tail_part: Seq<char> = if fields@.len() > 3 {
                            ", ..."@
                        } else {
                            Seq::empty()
                        };
                        assert(joined@ == join_comma(parts) + tail_part);
                        assert(s@ == interpretation@ + " ["@ + (join_comma(parts) + tail_part) + "]"@);
                    }
                    assert(s@ == compact_of(*repr, depth as nat));
                    s
                }
            },
            ValueRepr::Custom { tag, size, description } => {
                let mut s = description.clone();
                s.append(" (tag=");
                s.append(fmt_usize(*tag as usize).as_str());
                s.append(", size=");
                s.append(fmt_usize(*size).as_str());
                s.append(")");
                s
            },
            ValueRepr::Error { message } => {
                let mut s = String::from_str("Error: ");
                s.append(message.as_str());
                s
            },
        }
    }
}

/// Inspect a value of the heap.
pub fn inspect_raw_value(cr: &OCamlRuntime, raw: RawOCaml) -> (r: ValueInspector)
    requires
        cr.wf(),
        valid_value(cr@, raw),
    ensures
        r@@ == inspect_spec(cr@, raw, 0),
{
    ValueInspector::inspect(cr, raw)
}

} // verus!

verus! {

/// How a block of tag 0 (a tuple, a record, or a constructor with
/// arguments) is described, by its number of fields: only the empty one is
/// a constant constructor or unit tuple; one field is a single-field record
/// or tuple, two a pair, and more a tuple or record with that many fields.
pub proof fn law_tag0_block_interpretation(
    h: Seq<crate::runtime::BlockModel>,
    raw: RawOCaml,
    depth: nat,
)
    requires
        depth <= MAX_DEPTH,
        points_into(h, raw),
        deref(h, raw) is Structured,
        deref(h, raw)->Structured_tag == 0,
        deref(h, raw)->fields.len() <= usize::MAX,
    ensures
        inspect_spec(h, raw, depth) matches ReprModel::Block { tag, size, interpretation, .. } && tag
            == 0 && size == deref(h, raw)->fields.len() && (size == 0 ==> interpretation
            == "variant constructor or unit tuple"@) && (size == 1 ==> interpretation
            == "single-field record or tuple"@) && (size == 2 ==> interpretation
            == "pair tuple or record"@) && (size > 2 ==> interpretation == "tuple/record with "@
            + dec_nat(size as nat) + " fields"@) && (interpretation
            == "variant constructor or unit tuple"@ <==> size == 0),
{
    reveal_strlit("variant constructor or unit tuple");
    reveal_strlit("single-field record or tuple");
    reveal_strlit("pair tuple or record");
    reveal_strlit("tuple/record with ");
    let n = deref(h, raw)->fields.len();
    assert(spec_is_block(raw));
    assert(!spec_is_long(raw));
    let i = "variant constructor or unit tuple"@;
    if n == 1 {
        assert("single-field record or tuple"@[0] != i[0]);
    } else if n == 2 {
        assert("pair tuple or record"@[0] != i[0]);
    } else if n > 2 {
        let t = "tuple/record with "@ + dec_nat(n as nat) + " fields"@;
        assert(t[0] == 't');
        assert(t[0] != i[0]);
    }
}

} // verus!
