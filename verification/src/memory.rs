//! Allocation of OCaml blocks, and cells that hold OCaml values.

use crate::conv::FromOCaml;
use crate::conv::OCamlRepr;
use crate::mlvalues::tag;
use crate::mlvalues::{OCamlBytes, OCamlInt32, OCamlInt64, OCamlList, RawOCaml, UNIT};
use crate::runtime::{
    block_ref, block_wf, heap_extends, points_into, ref_index, valid_value, value_below, Block,
    BlockModel, OCamlRuntime,
};
use crate::value::OCaml;
use core::marker::PhantomData;
use vstd::prelude::*;
use vstd::string::StringSliceAdditionalSpecFns;

verus! {

/// A location holding an OCaml value.
pub struct OCamlCell<T> {
    pub(crate) raw: RawOCaml,
    pub(crate) _marker: PhantomData<T>,
}

impl<T> View for OCamlCell<T> {
    type V = RawOCaml;

    closed spec fn view(&self) -> RawOCaml {
        self.raw
    }
}

/// An `OCamlRef<T>` is a reference to a location containing a [`OCaml`]`<T>` value.
pub type OCamlRef<'a, T> = &'a OCamlCell<T>;

impl<T> OCamlCell<T> {
    /// A cell holding `val`.
    pub fn new(val: OCaml<T>) -> (r: OCamlCell<T>)
        ensures
            r@ == val@,
    {
        OCamlCell { raw: val.raw(), _marker: PhantomData }
    }

    /// The raw value contained in this cell.
    pub fn get_raw(&self) -> (r: RawOCaml)
        ensures
            r == self@,
    {
        self.raw
    }

    /// Converts the value in this cell into a Rust value.
    pub fn to_rust<RustT>(&self, cr: &OCamlRuntime) -> (r: RustT)
        where
            T: OCamlRepr,
            RustT: FromOCaml<T>,
        requires
            cr.wf(),
            valid_value(cr@, self@),
            RustT::accepts(cr@, self@),
        ensures
            RustT::reads_as(cr@, self@, r),
    {
        RustT::from_ocaml(cr, OCaml::new(cr, self.raw))
    }
}

impl OCamlRuntime {
    /// The OCaml value a cell holds.
    pub fn get<T>(&self, reference: &OCamlCell<T>) -> (r: OCaml<T>)
        ensures
            r@ == reference@,
    {
        OCaml::new(self, reference.get_raw())
    }
}

impl<T> OCaml<T> {
    /// A cell holding this value. (The cell is a copy: the value is not
    /// borrowed in place.)
    pub fn as_ref(&self) -> (r: OCamlCell<T>)
        ensures
            r@ == self@,
    {
        OCamlCell::new(*self)
    }
}

/// A global root keeping an OCaml value alive.
pub struct OCamlGlobalRoot<T> {
    pub(crate) cell: OCamlCell<T>,
}

impl<T> View for OCamlGlobalRoot<T> {
    type V = RawOCaml;

    closed spec fn view(&self) -> RawOCaml {
        self.cell@
    }
}

impl<T> OCamlGlobalRoot<T> {
    /// A root holding `val`.
    pub fn new(val: OCaml<T>) -> (r: Self)
        ensures
            r@ == val@,
    {
        OCamlGlobalRoot { cell: OCamlCell::new(val) }
    }

    /// Access the rooted value.
    pub fn get_ref(&self) -> (r: &OCamlCell<T>)
        ensures
            r@ == self@,
    {
        &self.cell
    }

    /// Replace the rooted value.
    pub fn set(&mut self, val: OCaml<T>)
        ensures
            final(self)@ == val@,
    {
        self.cell = OCamlCell::new(val);
    }
}

/// A global, generational root keeping an OCaml value alive.
pub struct OCamlGenerationalRoot<T> {
    pub(crate) cell: OCamlCell<T>,
}

impl<T> View for OCamlGenerationalRoot<T> {
    type V = RawOCaml;

    closed spec fn view(&self) -> RawOCaml {
        self.cell@
    }
}

impl<T> OCamlGenerationalRoot<T> {
    /// A root holding `val`.
    pub fn new(val: OCaml<T>) -> (r: Self)
        ensures
            r@ == val@,
    {
        OCamlGenerationalRoot { cell: OCamlCell::new(val) }
    }

    /// Access the rooted value.
    pub fn get_ref(&self) -> (r: &OCamlCell<T>)
        ensures
            r@ == self@,
    {
        &self.cell
    }

    /// Replace the rooted value.
    pub fn set(&mut self, val: OCaml<T>)
        ensures
            final(self)@ == val@,
    {
        self.cell = OCamlCell::new(val);
    }
}

/// What every allocation of one block guarantees.
pub open spec fn allocated_one(h0: Seq<BlockModel>, h1: Seq<BlockModel>, b: BlockModel, raw: RawOCaml) -> bool {
    &&& crate::runtime::heap_wf(h1)
    &&& h1 == h0.push(b)
    &&& heap_extends(h0, h1)
    &&& raw == block_ref(h0.len() as int)
    &&& points_into(h1, raw)
    &&& ref_index(raw) == h0.len()
}

/// Allocates a `bytes` block holding a copy of `s`.
pub fn alloc_bytes(cr: &mut OCamlRuntime, s: &[u8]) -> (r: OCaml<OCamlBytes>)
    requires
        old(cr).wf(),
        old(cr).has_room(1),
    ensures
        final(cr).wf(),
        final(cr).registry() == old(cr).registry(),
        allocated_one(old(cr)@, final(cr)@, BlockModel::Bytes { data: s@ }, r@),
{
    let data = vstd::slice::slice_to_vec(s);
    let raw = cr.alloc_block(Block::Bytes { data });
    OCaml::new(cr, raw)
}

/// Allocates a string block holding the UTF-8 encoding of `s`.
pub fn alloc_string(cr: &mut OCamlRuntime, s: &str) -> (r: OCaml<String>)
    requires
        old(cr).wf(),
        old(cr).has_room(1),
    ensures
        final(cr).wf(),
        final(cr).registry() == old(cr).registry(),
        allocated_one(old(cr)@, final(cr)@, BlockModel::Bytes { data: s.spec_bytes() }, r@),
{
    let data = vstd::slice::slice_to_vec(s.as_bytes());
    let raw = cr.alloc_block(Block::Bytes { data });
    OCaml::new(cr, raw)
}

/// Allocates a boxed `int32`.
pub fn alloc_int32(cr: &mut OCamlRuntime, i: i32) -> (r: OCaml<OCamlInt32>)
    requires
        old(cr).wf(),
        old(cr).has_room(1),
    ensures
        final(cr).wf(),
        final(cr).registry() == old(cr).registry(),
        allocated_one(old(cr)@, final(cr)@, BlockModel::Int32 { value: i }, r@),
{
    let raw = cr.alloc_block(Block::Int32 { value: i });
    OCaml::new(cr, raw)
}

/// Allocates a boxed `int64`.
pub fn alloc_int64(cr: &mut OCamlRuntime, i: i64) -> (r: OCaml<OCamlInt64>)
    requires
        old(cr).wf(),
        old(cr).has_room(1),
    ensures
        final(cr).wf(),
        final(cr).registry() == old(cr).registry(),
        allocated_one(old(cr)@, final(cr)@, BlockModel::Int64 { value: i }, r@),
{
    let raw = cr.alloc_block(Block::Int64 { value: i });
    OCaml::new(cr, raw)
}

/// Allocates a closure block of `size` words; its code and environment are
/// not OCaml values the library reads.
pub fn alloc_closure(cr: &mut OCamlRuntime, size: usize) -> (r: RawOCaml)
    requires
        old(cr).wf(),
        old(cr).has_room(1),
    ensures
        final(cr).wf(),
        final(cr).registry() == old(cr).registry(),
        allocated_one(
            old(cr)@,
            final(cr)@,
            BlockModel::Opaque { tag: tag::CLOSURE, size: size as nat },
            r,
        ),
{
    cr.alloc_block(Block::Opaque { tag: tag::CLOSURE, size })
}

/// Allocates a block with the given tag and fields.
pub fn alloc_fields<T>(cr: &mut OCamlRuntime, tag: u8, fields: Vec<RawOCaml>) -> (r: OCaml<T>)
    requires
        old(cr).wf(),
        old(cr).has_room(1),
        tag < tag::NO_SCAN,
        tag != tag::CLOSURE,
        forall|j: int| 0 <= j < fields@.len() ==> valid_value(old(cr)@, #[trigger] fields@[j]),
    ensures
        final(cr).wf(),
        final(cr).registry() == old(cr).registry(),
        allocated_one(
            old(cr)@,
            final(cr)@,
            BlockModel::Structured { tag, fields: fields@ },
            r@,
        ),
{
    let ghost n = old(cr)@.len() as int;
    assert(block_wf(BlockModel::Structured { tag, fields: fields@ }, n)) by {
        assert forall|j: int| 0 <= j < fields@.len() implies value_below(#[trigger] fields@[j], n) by {
            assert(valid_value(old(cr)@, fields@[j]));
        }
    }
    let raw = cr.alloc_block(Block::Structured { tag, fields });
    OCaml::new(cr, raw)
}

/// Allocates a tuple block of `size` fields, each initialised to `()`, for
/// the caller to fill.
pub fn alloc_tuple<T>(cr: &mut OCamlRuntime, size: usize) -> (r: OCaml<T>)
    requires
        old(cr).wf(),
        old(cr).has_room(1),
    ensures
        final(cr).wf(),
        final(cr).registry() == old(cr).registry(),
        allocated_one(
            old(cr)@,
            final(cr)@,
            BlockModel::Structured { tag: 0, fields: Seq::new(size as nat, |i: int| UNIT) },
            r@,
        ),
{
    let mut fields: Vec<RawOCaml> = Vec::new();
    while fields.len() < size
        invariant
            fields.len() <= size,
            forall|j: int| 0 <= j < fields@.len() ==> #[trigger] fields@[j] == UNIT,
        decreases size - fields.len(),
    {
        fields.push(UNIT);
    }
    assert(fields@ =~= Seq::new(size as nat, |i: int| UNIT));
    alloc_fields(cr, 0, fields)
}

/// Allocates `Some value`.
pub fn alloc_some<A>(cr: &mut OCamlRuntime, value: OCaml<A>) -> (r: OCaml<Option<A>>)
    requires
        old(cr).wf(),
        old(cr).has_room(1),
        valid_value(old(cr)@, value@),
    ensures
        final(cr).wf(),
        final(cr).registry() == old(cr).registry(),
        allocated_one(
            old(cr)@,
            final(cr)@,
            BlockModel::Structured { tag: tag::SOME, fields: seq![value@] },
            r@,
        ),
{
    let mut fields = Vec::new();
    fields.push(value.raw());
    assert(fields@ =~= seq![value@]);
    alloc_fields(cr, tag::SOME, fields)
}

/// Allocates `Ok value`.
pub fn alloc_ok<A, E>(cr: &mut OCamlRuntime, value: OCaml<A>) -> (r: OCaml<Result<A, E>>)
    requires
        old(cr).wf(),
        old(cr).has_room(1),
        valid_value(old(cr)@, value@),
    ensures
        final(cr).wf(),
        final(cr).registry() == old(cr).registry(),
        allocated_one(
            old(cr)@,
            final(cr)@,
            BlockModel::Structured { tag: tag::TAG_OK, fields: seq![value@] },
            r@,
        ),
{
    let mut fields = Vec::new();
    fields.push(value.raw());
    assert(fields@ =~= seq![value@]);
    alloc_fields(cr, tag::TAG_OK, fields)
}

/// Allocates `Error value`.
pub fn alloc_error<A, E>(cr: &mut OCamlRuntime, value: OCaml<E>) -> (r: OCaml<Result<A, E>>)
    requires
        old(cr).wf(),
        old(cr).has_room(1),
        valid_value(old(cr)@, value@),
    ensures
        final(cr).wf(),
        final(cr).registry() == old(cr).registry(),
        allocated_one(
            old(cr)@,
            final(cr)@,
            BlockModel::Structured { tag: tag::TAG_ERROR, fields: seq![value@] },
            r@,
        ),
{
    let mut fields = Vec::new();
    fields.push(value.raw());
    assert(fields@ =~= seq![value@]);
    alloc_fields(cr, tag::TAG_ERROR, fields)
}

/// Allocates the list cell `head :: tail`.
pub fn alloc_cons<A>(cr: &mut OCamlRuntime, head: OCaml<A>, tail: OCaml<OCamlList<A>>) -> (r: OCaml<OCamlList<A>>)
    requires
        old(cr).wf(),
        old(cr).has_room(1),
        valid_value(old(cr)@, head@),
        valid_value(old(cr)@, tail@),
    ensures
        final(cr).wf(),
        final(cr).registry() == old(cr).registry(),
        allocated_one(
            old(cr)@,
            final(cr)@,
            BlockModel::Structured { tag: tag::CONS, fields: seq![head@, tail@] },
            r@,
        ),
{
    let mut fields = Vec::new();
    fields.push(head.raw());
    fields.push(tail.raw());
    assert(fields@ =~= seq![head@, tail@]);
    alloc_fields(cr, tag::CONS, fields)
}

} // verus!
