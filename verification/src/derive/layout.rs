//! Where the derive macros put each variant of an enum in the OCaml
//! representation.

use crate::derive::parsing::{VariantKind, VariantRep};
use crate::mlvalues::tag;
use crate::mlvalues::{spec_is_long, RawOCaml};
use crate::runtime::{valid_value, OCamlRuntime};
use crate::value::{field_of, is_block_with, OCaml};
use crate::polyvar::{hash_variant, tag_hash};
use vstd::prelude::*;

verus! {

/// How one variant of a regular enum is represented.
#[derive(Debug, Clone, Copy, PartialEq, Eq, Structural)]
pub enum VariantEncoding {
    /// A constant constructor: the immediate with this number.
    Immediate(u8),
    /// A constructor with arguments: a block with this tag.
    Block(u8),
}

/// How many of the first `n` variants are constant constructors.
pub open spec fn units_before(kinds: Seq<VariantKind>, n: int) -> nat
    decreases n,
{
    if n <= 0 {
        0
    } else if kinds[n - 1] == VariantKind::Unit {
        units_before(kinds, n - 1) + 1
    } else {
        units_before(kinds, n - 1)
    }
}

/// The encoding of variant `i`: constant constructors and constructors with
/// arguments are each numbered in order, from 0.
pub open spec fn encoding_of(kinds: Seq<VariantKind>, i: int) -> VariantEncoding {
    if kinds[i] == VariantKind::Unit {
        VariantEncoding::Immediate(units_before(kinds, i) as u8)
    } else {
        VariantEncoding::Block((i - units_before(kinds, i)) as u8)
    }
}

proof fn lemma_units_before_bound(kinds: Seq<VariantKind>, n: int)
    requires
        0 <= n <= kinds.len(),
    ensures
        units_before(kinds, n) <= n,
    decreases n,
{
    if n > 0 {
        lemma_units_before_bound(kinds, n - 1);
    }
}

proof fn lemma_units_before_mono(kinds: Seq<VariantKind>, m: int, n: int)
    requires
        0 <= m <= n <= kinds.len(),
    ensures
        units_before(kinds, m) <= units_before(kinds, n),
        n - units_before(kinds, n) >= m - units_before(kinds, m),
    decreases n - m,
{
    if m < n {
        lemma_units_before_mono(kinds, m, n - 1);
    }
}

/// The encodings of the variants of a regular enum, in order, as the
/// derived `FromOCaml` and `ToOCaml` use them. Each kind of constructor
/// can be numbered up to 255.
pub fn regular_enum_layout(kinds: &Vec<VariantKind>) -> (r: Vec<VariantEncoding>)
    requires
        units_before(kinds@, kinds@.len() as int) <= 255,
        kinds@.len() - units_before(kinds@, kinds@.len() as int) <= 255,
    ensures
        r@.len() == kinds@.len(),
        forall|i: int| 0 <= i < kinds@.len() ==> #[trigger] r@[i] == encoding_of(kinds@, i),
{
    let mut r: Vec<VariantEncoding> = Vec::new();
    let mut unit_variant_idx: u8 = 0;
    let mut block_variant_idx: u8 = 0;
    let mut i: usize = 0;
    while i < kinds.len()
        invariant
            i <= kinds@.len(),
            r@.len() == i,
            unit_variant_idx == units_before(kinds@, i as int),
            block_variant_idx == i - units_before(kinds@, i as int),
            units_before(kinds@, kinds@.len() as int) <= 255,
            kinds@.len() - units_before(kinds@, kinds@.len() as int) <= 255,
            forall|j: int| 0 <= j < i ==> #[trigger] r@[j] == encoding_of(kinds@, j),
        decreases kinds@.len() - i,
    {
        proof {
            lemma_units_before_mono(kinds@, i + 1, kinds@.len() as int);
            lemma_units_before_bound(kinds@, i as int);
        }
        if kinds[i] == VariantKind::Unit {
            r.push(VariantEncoding::Immediate(unit_variant_idx));
            unit_variant_idx = unit_variant_idx + 1;
        } else {
            r.push(VariantEncoding::Block(block_variant_idx));
            block_variant_idx = block_variant_idx + 1;
        }
        i = i + 1;
    }
    r
}

/// The first variant, at or after `j`, with the encoding `e`.
pub open spec fn find_encoding(kinds: Seq<VariantKind>, e: VariantEncoding, j: int) -> Option<int>
    decreases kinds.len() - j,
{
    if j < 0 || j >= kinds.len() {
        None
    } else if encoding_of(kinds, j) == e {
        Some(j)
    } else {
        find_encoding(kinds, e, j + 1)
    }
}

/// The variant the derived `FromOCaml` reads from the encoding `e`: the
/// `k`-th constant constructor from the immediate `k`, the `k`-th
/// constructor with arguments from a block of tag `k`; none when no
/// variant has that encoding.
pub open spec fn variant_of_encoding(kinds: Seq<VariantKind>, e: VariantEncoding) -> Option<int> {
    find_encoding(kinds, e, 0)
}

/// The variant of a regular enum with the given encoding, as the derived
/// `FromOCaml` finds it.
pub fn decode_regular_variant(kinds: &Vec<VariantKind>, e: VariantEncoding) -> (r: Option<usize>)
    requires
        units_before(kinds@, kinds@.len() as int) <= 255,
        kinds@.len() - units_before(kinds@, kinds@.len() as int) <= 255,
    ensures
        match variant_of_encoding(kinds@, e) {
            Some(i) => r == Some(i as usize),
            None => r is None,
        },
{
    let layout = regular_enum_layout(kinds);
    let mut j: usize = 0;
    while j < layout.len()
        invariant
            j <= layout@.len(),
            layout@.len() == kinds@.len(),
            forall|i: int| 0 <= i < kinds@.len() ==> #[trigger] layout@[i] == encoding_of(kinds@, i),
            variant_of_encoding(kinds@, e) == find_encoding(kinds@, e, j as int),
        decreases layout@.len() - j,
    {
        if layout[j] == e {
            return Some(j);
        }
        j = j + 1;
    }
    None
}

proof fn lemma_find_encoding(kinds: Seq<VariantKind>, i: int, j: int)
    requires
        0 <= j <= i < kinds.len(),
        units_before(kinds, kinds.len() as int) <= 255,
        kinds.len() - units_before(kinds, kinds.len() as int) <= 255,
    ensures
        find_encoding(kinds, encoding_of(kinds, i), j) == Some(i),
    decreases i - j,
{
    if j < i {
        law_layout_injective(kinds, j, i);
        lemma_find_encoding(kinds, i, j + 1);
    }
}

/// Reading a variant's encoding back gives that variant: what the derived
/// `ToOCaml` writes for a variant, the derived `FromOCaml` reads as the
/// same variant.
pub proof fn law_layout_round_trip(kinds: Seq<VariantKind>, i: int)
    requires
        0 <= i < kinds.len(),
        units_before(kinds, kinds.len() as int) <= 255,
        kinds.len() - units_before(kinds, kinds.len() as int) <= 255,
    ensures
        variant_of_encoding(kinds, encoding_of(kinds, i)) == Some(i),
{
    lemma_find_encoding(kinds, i, 0);
}

/// The name a polymorphic variant is hashed by: its `tag` attribute, or the
/// variant's own name.
pub open spec fn polytag_name(variant: VariantRep) -> Seq<char> {
    match variant.attrs.tag {
        Some(t) => t@,
        None => variant.ident@,
    }
}

/// The tag hash the code written for a polymorphic variant computes: the
/// OCaml value of `` `tag `` for the variant's tag name.
pub fn polytag_hash(variant: &VariantRep) -> (r: RawOCaml)
    ensures
        r == 2 * tag_hash(polytag_name(*variant)) + 1,
{
    match &variant.attrs.tag {
        Some(t) => hash_variant(t.as_str()),
        None => hash_variant(variant.ident.as_str()),
    }
}

/// How the code written for `FromOCaml` reads one variant of a polymorphic
/// enum.
#[derive(Debug, Clone, Copy, PartialEq, Eq, Structural)]
pub struct PolyArm {
    /// The OCaml value of the variant's tag.
    pub hash: RawOCaml,
    /// Whether the variant carries nothing (an immediate in OCaml).
    pub unit: bool,
    /// How many fields the variant carries.
    pub payload_fields: usize,
    /// Whether the payload is one tuple holding the fields (a struct-like
    /// variant with more than one field).
    pub tupled: bool,
}

/// The reading of `variant`.
pub open spec fn poly_arm_of(variant: VariantRep) -> PolyArm {
    PolyArm {
        hash: (2 * tag_hash(polytag_name(variant)) + 1) as RawOCaml,
        unit: variant.kind == VariantKind::Unit,
        payload_fields: variant.fields@.len() as usize,
        tupled: variant.kind == VariantKind::Struct && variant.fields@.len() > 1,
    }
}

/// How each variant of a polymorphic enum is read, in order.
pub fn polymorphic_decoder(variants: &Vec<VariantRep>) -> (r: Vec<PolyArm>)
    ensures
        r@.len() == variants@.len(),
        forall|i: int| 0 <= i < r@.len() ==> #[trigger] r@[i] == poly_arm_of(variants@[i]),
{
    let mut r: Vec<PolyArm> = Vec::new();
    let mut i: usize = 0;
    while i < variants.len()
        invariant
            i <= variants@.len(),
            r@.len() == i,
            forall|j: int| 0 <= j < i ==> #[trigger] r@[j] == poly_arm_of(variants@[j]),
        decreases variants@.len() - i,
    {
        let v = &variants[i];
        proof {
            crate::polyvar::law_tag_hash_range(polytag_name(*v));
        }
        let n = v.fields.len();
        r.push(
            PolyArm {
                hash: polytag_hash(v),
                unit: v.kind == VariantKind::Unit,
                payload_fields: n,
                tupled: v.kind == VariantKind::Struct && n > 1,
            },
        );
        i = i + 1;
    }
    r
}

/// Why a value is not one of the variants of a polymorphic enum (the code
/// written for `FromOCaml` panics then).
#[derive(Debug, Clone, Copy, PartialEq, Eq, Structural)]
pub enum PolyVariantError {
    /// An immediate that is none of the unit variants' tags.
    UnknownUnitVariant,
    /// An immediate, while the enum has no unit variant.
    NoUnitVariants,
    /// A polymorphic variant block whose tag is none of the variants with a
    /// payload.
    UnknownTag,
    /// Neither an immediate nor a polymorphic variant block.
    NotPolymorphicVariant,
}

/// The first arm, at or after `i`, with `unit` as given and tag `hash`.
pub open spec fn find_arm(arms: Seq<PolyArm>, unit: bool, hash: RawOCaml, i: int) -> Option<int>
    decreases arms.len() - i,
{
    if i < 0 || i >= arms.len() {
        None
    } else if arms[i].unit == unit && arms[i].hash == hash {
        Some(i)
    } else {
        find_arm(arms, unit, hash, i + 1)
    }
}

/// Whether some arm is a unit variant.
pub open spec fn has_unit_arm(arms: Seq<PolyArm>) -> bool {
    exists|i: int| 0 <= i < arms.len() && #[trigger] arms[i].unit
}

/// What reading `v` as a polymorphic enum with arms `arms` gives: the
/// index of the variant and the payload values to read its fields from.
/// An immediate is matched against the unit variants' tags; a block of two
/// fields with the polymorphic variant tag is matched, by its field 0,
/// against the other variants' tags, and its field 1 is the payload.
pub open spec fn poly_read(h: Seq<crate::runtime::BlockModel>, v: RawOCaml, arms: Seq<PolyArm>) -> Result<
    (int, Seq<RawOCaml>),
    PolyVariantError,
> {
    if spec_is_long(v) {
        match find_arm(arms, true, v, 0) {
            Some(i) => Ok((i, Seq::empty())),
            None => if has_unit_arm(arms) {
                Err(PolyVariantError::UnknownUnitVariant)
            } else {
                Err(PolyVariantError::NoUnitVariants)
            },
        }
    } else if is_block_with(h, v, tag::TAG_POLYMORPHIC_VARIANT, 2) {
        match find_arm(arms, false, field_of(h, v, 0), 0) {
            Some(i) => Ok((i, seq![field_of(h, v, 1)])),
            None => Err(PolyVariantError::UnknownTag),
        }
    } else {
        Err(PolyVariantError::NotPolymorphicVariant)
    }
}

/// The arm with `unit` as given and tag `hash`, searched from the first.
fn search_arm(arms: &Vec<PolyArm>, unit: bool, hash: RawOCaml) -> (r: Option<usize>)
    ensures
        match r {
            Some(j) => find_arm(arms@, unit, hash, 0) == Some(j as int),
            None => find_arm(arms@, unit, hash, 0) is None,
        },
{
    let mut i: usize = 0;
    while i < arms.len()
        invariant
            i <= arms@.len(),
            find_arm(arms@, unit, hash, 0) == find_arm(arms@, unit, hash, i as int),
        decreases arms@.len() - i,
    {
        if arms[i].unit == unit && arms[i].hash == hash {
            return Some(i);
        }
        i = i + 1;
    }
    None
}

/// Reads the value `v` as a polymorphic enum whose variants are read by
/// `arms`: which variant it is, and the values its payload is read from.
#[verifier::loop_isolation(false)]
pub fn read_polymorphic_variant(cr: &OCamlRuntime, v: RawOCaml, arms: &Vec<PolyArm>) -> (r: Result<
    (usize, Vec<RawOCaml>),
    PolyVariantError,
>)
    requires
        cr.wf(),
        valid_value(cr@, v),
    ensures
        match poly_read(cr@, v, arms@) {
            Ok((i, p)) => r matches Ok((j, q)) && j == i && q@ == p,
            Err(e) => r == Err::<(usize, Vec<RawOCaml>), PolyVariantError>(e),
        },
{
    let value: OCaml<()> = OCaml::new(cr, v);
    if value.is_long() {
        match search_arm(arms, true, v) {
            Some(i) => Ok((i, Vec::new())),
            None => {
                let mut k: usize = 0;
                while k < arms.len()
                    invariant
                        k <= arms@.len(),
                        forall|j: int| 0 <= j < k ==> !(#[trigger] arms@[j]).unit,
                    decreases arms@.len() - k,
                {
                    if arms[k].unit {
                        assert(arms@[k as int].unit);
                        return Err(PolyVariantError::UnknownUnitVariant);
                    }
                    k = k + 1;
                }
                Err(PolyVariantError::NoUnitVariants)
            },
        }
    } else if cr.is_block_ref(v) && cr.tag_of(v) == tag::TAG_POLYMORPHIC_VARIANT
        && crate::value::has_fields_value(cr, v, 2) && value.size(cr) == 2 {
        let h: OCaml<crate::mlvalues::OCamlInt> = value.field(cr, 0);
        match search_arm(arms, false, h.raw()) {
            Some(i) => {
                let p: OCaml<()> = value.field(cr, 1);
                let mut payload = Vec::new();
                payload.push(p.raw());
                assert(payload@ =~= seq![field_of(cr@, v, 1)]);
                Ok((i, payload))
            },
            None => Err(PolyVariantError::UnknownTag),
        }
    } else {
        Err(PolyVariantError::NotPolymorphicVariant)
    }
}

} // verus!

verus! {

/// Two different variants never share an encoding.
pub proof fn law_layout_injective(kinds: Seq<VariantKind>, i: int, j: int)
    requires
        0 <= i < j < kinds.len(),
        units_before(kinds, kinds.len() as int) <= 255,
        kinds.len() - units_before(kinds, kinds.len() as int) <= 255,
    ensures
        encoding_of(kinds, i) != encoding_of(kinds, j),
{
    lemma_units_before_mono(kinds, i + 1, j);
    lemma_units_before_mono(kinds, j + 1, kinds.len() as int);
    lemma_units_before_mono(kinds, j, j + 1);
    lemma_units_before_bound(kinds, i);
    lemma_units_before_bound(kinds, j);
}

} // verus!

verus! {

/// Whether a variant is a constant constructor.
pub open spec fn is_unit_kind(k: VariantKind) -> bool {
    k == VariantKind::Unit
}

proof fn lemma_units_before_filter(kinds: Seq<VariantKind>, n: int)
    requires
        0 <= n <= kinds.len(),
    ensures
        units_before(kinds, n) == kinds.take(n).filter(|k: VariantKind| is_unit_kind(k)).len(),
        n - units_before(kinds, n) == kinds.take(n).filter(|k: VariantKind| !is_unit_kind(k)).len(),
    decreases n,
{
    reveal(Seq::filter);
    let p = |k: VariantKind| is_unit_kind(k);
    let q = |k: VariantKind| !is_unit_kind(k);
    if n > 0 {
        lemma_units_before_filter(kinds, n - 1);
        let t = kinds.take(n);
        assert(t.drop_last() =~= kinds.take(n - 1));
        assert(t.last() == kinds[n - 1]);
        assert(t.filter(p) == (if p(t.last()) {
            t.drop_last().filter(p).push(t.last())
        } else {
            t.drop_last().filter(p)
        }));
        assert(t.filter(q) == (if q(t.last()) {
            t.drop_last().filter(q).push(t.last())
        } else {
            t.drop_last().filter(q)
        }));
    } else {
        assert(kinds.take(0) =~= Seq::<VariantKind>::empty());
    }
}

/// The numbering OCaml gives constructors: the `i`-th variant, when it is a
/// constant constructor, is the immediate counting the constant
/// constructors before it (so the first is 0, the next 1, and so on);
/// otherwise it is the block whose tag counts the constructors with
/// arguments before it.
pub proof fn law_layout_numbering(kinds: Seq<VariantKind>, i: int)
    requires
        0 <= i < kinds.len(),
        units_before(kinds, kinds.len() as int) <= 255,
        kinds.len() - units_before(kinds, kinds.len() as int) <= 255,
    ensures
        kinds[i] == VariantKind::Unit ==> encoding_of(kinds, i) == VariantEncoding::Immediate(
            kinds.take(i).filter(|k: VariantKind| is_unit_kind(k)).len() as u8,
        ),
        kinds[i] != VariantKind::Unit ==> encoding_of(kinds, i) == VariantEncoding::Block(
            kinds.take(i).filter(|k: VariantKind| !is_unit_kind(k)).len() as u8,
        ),
        kinds.take(i).filter(|k: VariantKind| is_unit_kind(k)).len() < 256,
        kinds.take(i).filter(|k: VariantKind| !is_unit_kind(k)).len() < 256,
{
    lemma_units_before_filter(kinds, i);
    lemma_units_before_mono(kinds, i, kinds.len() as int);
    lemma_units_before_mono(kinds, i, i + 1);
    lemma_units_before_mono(kinds, i + 1, kinds.len() as int);
}

} // verus!
