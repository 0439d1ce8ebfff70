//! The OCaml runtime handle and the model of the OCaml heap it owns.
//!
//! Heap blocks are kept in allocation order; a block value is the raw
//! word `4 * (i + 1)` for the block at index `i`, so its two lowest bits are
//! clear as those of an aligned pointer are. Blocks are never moved or
//! freed, and the fields of a block only refer to blocks allocated before it.

use crate::mlvalues::tag;
use crate::mlvalues::RawOCaml;
use vstd::prelude::*;
use vstd::string::StringExecFns;

verus! {

/// Upper bound on the number of blocks the heap model holds.
pub const MAX_BLOCKS: usize = 0x1000_0000;

/// The content of one heap block, as the logic reads it.
#[allow(inconsistent_fields)]
pub ghost enum BlockModel {
    /// A block of OCaml values (tuples, records, constructors, lists, arrays).
    Structured { tag: u8, fields: Seq<RawOCaml> },
    /// A string or `bytes` block.
    Bytes { data: Seq<u8> },
    /// A boxed `int32` (a custom block).
    Int32 { value: i32 },
    /// A boxed `int64` (a custom block).
    Int64 { value: i64 },
    /// A block whose contents are not OCaml values the logic reads
    /// (closures, abstract and custom blocks, float arrays).
    Opaque { tag: u8, size: nat },
}

/// One heap block.
#[allow(inconsistent_fields)]
pub enum Block {
    Structured { tag: u8, fields: Vec<RawOCaml> },
    Bytes { data: Vec<u8> },
    Int32 { value: i32 },
    Int64 { value: i64 },
    Opaque { tag: u8, size: usize },
}

impl View for Block {
    type V = BlockModel;

    open spec fn view(&self) -> BlockModel {
        match self {
            Block::Structured { tag, fields } => BlockModel::Structured { tag: *tag, fields: fields@ },
            Block::Bytes { data } => BlockModel::Bytes { data: data@ },
            Block::Int32 { value } => BlockModel::Int32 { value: *value },
            Block::Int64 { value } => BlockModel::Int64 { value: *value },
            Block::Opaque { tag, size } => BlockModel::Opaque { tag: *tag, size: *size as nat },
        }
    }
}

/// Number of bytes in a machine word.
pub open spec fn word_bytes() -> int {
    (usize::BITS / 8) as int
}

/// The header tag of a block.
pub open spec fn block_tag(b: BlockModel) -> u8 {
    match b {
        BlockModel::Structured { tag, .. } => tag,
        BlockModel::Bytes { .. } => tag::STRING,
        BlockModel::Int32 { .. } => tag::CUSTOM,
        BlockModel::Int64 { .. } => tag::CUSTOM,
        BlockModel::Opaque { tag, .. } => tag,
    }
}

/// The header size of a block, in words.
pub open spec fn block_wosize(b: BlockModel) -> int {
    match b {
        BlockModel::Structured { fields, .. } => fields.len() as int,
        BlockModel::Bytes { data } => (data.len() as int) / word_bytes() + 1,
        BlockModel::Int32 { .. } => 2,
        BlockModel::Int64 { .. } => 1 + 8int / word_bytes(),
        BlockModel::Opaque { size, .. } => size as int,
    }
}

/// The raw value that refers to the block at index `i`.
pub open spec fn block_ref(i: int) -> int {
    4 * i + 4
}

/// The index of the block a raw block value refers to.
pub open spec fn ref_index(raw: RawOCaml) -> int {
    raw / 4 - 1
}

/// `raw` refers to a block of `h`.
pub open spec fn points_into(h: Seq<BlockModel>, raw: RawOCaml) -> bool {
    raw % 4 == 0 && 4 <= raw && ref_index(raw) < h.len()
}

/// The block `raw` refers to.
pub open spec fn deref(h: Seq<BlockModel>, raw: RawOCaml) -> BlockModel {
    h[ref_index(raw)]
}

/// `raw` is an immediate, or refers to a block with index below `bound`.
pub open spec fn value_below(raw: RawOCaml, bound: int) -> bool {
    raw % 2 != 0 || (raw % 4 == 0 && 4 <= raw && ref_index(raw) < bound)
}

/// A value of the heap `h`: an immediate or a reference to one of its blocks.
pub open spec fn valid_value(h: Seq<BlockModel>, raw: RawOCaml) -> bool {
    value_below(raw, h.len() as int)
}

/// A block that may stand at index `i`: its fields only refer to earlier
/// blocks, and its header describes it.
pub open spec fn block_wf(b: BlockModel, i: int) -> bool {
    match b {
        BlockModel::Structured { tag, fields } => {
            &&& tag < tag::NO_SCAN
            &&& tag != tag::CLOSURE
            &&& forall|j: int| 0 <= j < fields.len() ==> value_below(#[trigger] fields[j], i)
        },
        BlockModel::Opaque { tag, size } => {
            &&& (tag == tag::CLOSURE || tag::NO_SCAN <= tag)
            &&& tag != tag::STRING
        },
        _ => true,
    }
}

/// A well-formed heap.
pub open spec fn heap_wf(h: Seq<BlockModel>) -> bool {
    &&& h.len() <= MAX_BLOCKS
    &&& forall|i: int| 0 <= i < h.len() ==> block_wf(#[trigger] h[i], i)
}

/// `h2` holds every block of `h1`, unchanged, at the same index.
pub open spec fn heap_extends(h1: Seq<BlockModel>, h2: Seq<BlockModel>) -> bool {
    &&& h1.len() <= h2.len()
    &&& forall|i: int| 0 <= i < h1.len() ==> #[trigger] h2[i] == h1[i]
}

pub proof fn lemma_heap_extends_trans(h1: Seq<BlockModel>, h2: Seq<BlockModel>, h3: Seq<BlockModel>)
    requires
        heap_extends(h1, h2),
        heap_extends(h2, h3),
    ensures
        heap_extends(h1, h3),
{
    assert forall|i: int| 0 <= i < h1.len() implies #[trigger] h3[i] == h1[i] by {
        assert(h3[i] == h2[i]);
    }
}

/// Per-thread handle to the OCaml runtime; here it owns the heap model and
/// the table of values registered by name (OCaml's `Callback.register`).
pub struct OCamlRuntime {
    pub(crate) blocks: Vec<Block>,
    pub(crate) named: Vec<(String, RawOCaml)>,
}

/// The runtime started by this program; it gives access to the runtime
/// handle, and the runtime stops when it is dropped.
pub struct OCamlRuntimeStartupGuard {
    pub(crate) runtime: OCamlRuntime,
}

impl OCamlRuntimeStartupGuard {
    /// The runtime this guard holds.
    pub closed spec fn handle(&self) -> OCamlRuntime {
        self.runtime
    }

    /// The runtime handle.
    pub fn runtime(&self) -> (r: &OCamlRuntime)
        ensures
            *r == self.handle(),
    {
        &self.runtime
    }

    /// The runtime handle, for changes.
    pub fn runtime_mut(&mut self) -> (r: &mut OCamlRuntime)
        ensures
            *r == old(self).handle(),
            final(self).handle() == *final(r),
    {
        &mut self.runtime
    }
}

/// The value most recently registered under `name`, if any.
pub open spec fn lookup_named(reg: Seq<(Seq<char>, RawOCaml)>, name: Seq<char>) -> Option<RawOCaml>
    decreases reg.len(),
{
    if reg.len() == 0 {
        None
    } else if reg.last().0 == name {
        Some(reg.last().1)
    } else {
        lookup_named(reg.drop_last(), name)
    }
}

impl View for OCamlRuntime {
    type V = Seq<BlockModel>;

    closed spec fn view(&self) -> Seq<BlockModel> {
        self.blocks@.map_values(|b: Block| b@)
    }
}

impl OCamlRuntime {
    /// The registered names and values, oldest first.
    pub closed spec fn registry(&self) -> Seq<(Seq<char>, RawOCaml)> {
        self.named@.map_values(|p: (String, RawOCaml)| (p.0@, p.1))
    }

    /// A well-formed runtime: a well-formed heap, and registered values
    /// that are values of it.
    pub open spec fn wf(&self) -> bool {
        &&& heap_wf(self@)
        &&& forall|i: int|
            0 <= i < self.registry().len() ==> valid_value(self@, #[trigger] self.registry()[i].1)
    }

    /// Room for `n` more blocks.
    pub open spec fn has_room(&self, n: nat) -> bool {
        self@.len() + n <= MAX_BLOCKS
    }

    /// A runtime with an empty heap.
    pub fn new() -> (r: OCamlRuntime)
        ensures
            r.wf(),
            r@ == Seq::<BlockModel>::empty(),
            r.registry() == Seq::<(Seq<char>, RawOCaml)>::empty(),
    {
        let r = OCamlRuntime { blocks: Vec::new(), named: Vec::new() };
        assert(r@ =~= Seq::<BlockModel>::empty());
        assert(r.registry() =~= Seq::<(Seq<char>, RawOCaml)>::empty());
        r
    }

    /// Number of blocks in the heap.
    pub fn heap_len(&self) -> (n: usize)
        ensures
            n == self@.len(),
    {
        self.blocks.len()
    }

    /// Release the OCaml runtime lock, call `f`, and re-acquire the lock.
    pub fn releasing_runtime<T, F>(&mut self, f: F) -> (r: T)
        where
            F: FnOnce() -> T,
        requires
            f.requires(()),
        ensures
            f.ensures((), r),
            final(self)@ == old(self)@,
    {
        f()
    }

    /// Runs `f` with the runtime, holding the OCaml domain lock while it
    /// runs.
    pub fn with_domain_lock<F, T>(&mut self, f: F) -> (r: T)
        where
            F: FnOnce(&mut OCamlRuntime) -> T,
        requires
            forall|c: &mut OCamlRuntime| *c == *old(self) ==> f.requires((c,)),
        ensures
            exists|c: &mut OCamlRuntime|
                *c == *old(self) && *final(c) == *final(self) && f.ensures((c,), r),
    {
        f(self)
    }

    /// Starts the runtime: fails when it was started before.
    pub fn init_once(already_started: bool) -> (r: Result<OCamlRuntimeStartupGuard, String>)
        ensures
            already_started ==> (r matches Err(m) && m@ == "OCaml runtime already initialized"@),
            !already_started ==> (r matches Ok(g) && g.handle()@ == Seq::<BlockModel>::empty()
                && g.handle().wf()),
    {
        if already_started {
            return Err(String::from_str("OCaml runtime already initialized"));
        }
        Ok(OCamlRuntimeStartupGuard { runtime: OCamlRuntime::new() })
    }

    /// The block a raw block value refers to.
    pub fn block(&self, raw: RawOCaml) -> (b: &Block)
        requires
            points_into(self@, raw),
        ensures
            b@ == deref(self@, raw),
    {
        let i = (raw / 4 - 1) as usize;
        &self.blocks[i]
    }

    /// Appends a block to the heap and returns the value that refers to it.
    pub fn alloc_block(&mut self, b: Block) -> (raw: RawOCaml)
        requires
            old(self).wf(),
            old(self).has_room(1),
            block_wf(b@, old(self)@.len() as int),
        ensures
            final(self).wf(),
            final(self)@ == old(self)@.push(b@),
            raw == block_ref(old(self)@.len() as int),
            points_into(final(self)@, raw),
            ref_index(raw) == old(self)@.len(),
            heap_extends(old(self)@, final(self)@),
            final(self).registry() == old(self).registry(),
    {
        let n = self.blocks.len();
        self.blocks.push(b);
        proof {
            let h = self@;
            assert(h =~= old(self)@.push(b@));
            assert forall|i: int| 0 <= i < h.len() implies block_wf(#[trigger] h[i], i) by {
                if i < n as int {
                    assert(h[i] == old(self)@[i]);
                }
            }
            assert(self.registry() =~= old(self).registry());
            assert forall|i: int| 0 <= i < self.registry().len() implies valid_value(
                self@,
                #[trigger] self.registry()[i].1,
            ) by {
                assert(valid_value(old(self)@, old(self).registry()[i].1));
            }
        }
        (4 * n + 4) as isize
    }

    /// Whether `raw` refers to a block of the heap.
    pub fn is_block_ref(&self, raw: RawOCaml) -> (r: bool)
        ensures
            r == points_into(self@, raw),
    {
        raw % 4 == 0 && 4 <= raw && ((raw / 4 - 1) as usize) < self.blocks.len()
    }

    /// The header tag of the block a raw block value refers to.
    pub fn tag_of(&self, raw: RawOCaml) -> (t: u8)
        requires
            points_into(self@, raw),
        ensures
            t == block_tag(deref(self@, raw)),
    {
        match self.block(raw) {
            Block::Structured { tag, .. } => *tag,
            Block::Bytes { .. } => tag::STRING,
            Block::Int32 { .. } => tag::CUSTOM,
            Block::Int64 { .. } => tag::CUSTOM,
            Block::Opaque { tag, .. } => *tag,
        }
    }

    /// The header size, in words, of the block a raw block value refers to.
    pub fn wosize_of(&self, raw: RawOCaml) -> (n: usize)
        requires
            self.wf(),
            points_into(self@, raw),
        ensures
            n == block_wosize(deref(self@, raw)),
    {
        let ghost i = ref_index(raw);
        proof {
            assert(block_wf(self@[i], i));
        }
        let w = (usize::BITS / 8) as usize;
        assert(w == 4 || w == 8);
        match self.block(raw) {
            Block::Structured { fields, .. } => fields.len(),
            Block::Bytes { data } => {
                assert(data.len() / w <= data.len()) by (nonlinear_arith)
                    requires
                        w == 4 || w == 8,
                ;
                data.len() / w + 1
            },
            Block::Int32 { .. } => 2,
            Block::Int64 { .. } => 1 + 8 / w,
            Block::Opaque { size, .. } => *size,
        }
    }

    /// Registers `v` under `name`, as OCaml's `Callback.register` does; a
    /// later registration under the same name takes precedence.
    pub fn register_value(&mut self, name: &str, v: RawOCaml)
        requires
            old(self).wf(),
            valid_value(old(self)@, v),
        ensures
            final(self).wf(),
            final(self)@ == old(self)@,
            final(self).registry() == old(self).registry().push((name@, v)),
    {
        self.named.push((String::from_str(name), v));
        proof {
            assert(self.registry() =~= old(self).registry().push((name@, v)));
            assert(self@ =~= old(self)@);
            assert forall|i: int| 0 <= i < self.registry().len() implies valid_value(
                self@,
                #[trigger] self.registry()[i].1,
            ) by {
                if i < old(self).registry().len() {
                    assert(self.registry()[i] == old(self).registry()[i]);
                }
            }
        }
    }

    /// The value most recently registered under `name`, if any.
    pub fn named_value(&self, name: &str) -> (r: Option<RawOCaml>)
        ensures
            r == lookup_named(self.registry(), name@),
    {
        let target = String::from_str(name);
        let mut i = self.named.len();
        proof {
            assert(self.registry().take(i as int) =~= self.registry());
        }
        while i > 0
            invariant
                i <= self.named@.len(),
                target@ == name@,
                lookup_named(self.registry(), name@) == lookup_named(
                    self.registry().take(i as int),
                    name@,
                ),
            decreases i,
        {
            let ghost reg = self.registry().take(i as int);
            proof {
                assert(reg.drop_last() =~= self.registry().take(i - 1));
            }
            proof {
                assert(reg.last() == self.registry()[i - 1]);
                assert(self.registry()[i - 1] == (self.named@[i - 1].0@, self.named@[i - 1].1));
            }
            if self.named[i - 1].0 == target {
                return Some(self.named[i - 1].1);
            }
            i = i - 1;
        }
        proof {
            assert(self.registry().take(0) =~= Seq::<(Seq<char>, RawOCaml)>::empty());
        }
        None
    }

    /// Whether the runtime is well formed, checked block by block.
    pub fn check_wf(&self) -> (r: bool)
        ensures
            r == self.wf(),
    {
        if self.blocks.len() > MAX_BLOCKS {
            return false;
        }
        proof {
            assert(self@.len() == self.blocks@.len());
        }
        let mut i: usize = 0;
        while i < self.blocks.len()
            invariant
                i <= self.blocks@.len(),
                self.blocks@.len() <= MAX_BLOCKS,
                self@.len() == self.blocks@.len(),
                forall|j: int| 0 <= j < i ==> block_wf(#[trigger] self@[j], j),
            decreases self.blocks@.len() - i,
        {
            proof {
                assert(self@[i as int] == self.blocks@[i as int]@);
            }
            if !check_block(&self.blocks[i], i) {
                return false;
            }
            i = i + 1;
        }
        let mut k: usize = 0;
        while k < self.named.len()
            invariant
                heap_wf(self@),
                k <= self.named@.len(),
                self.registry().len() == self.named@.len(),
                forall|j: int| 0 <= j < k ==> valid_value(self@, #[trigger] self.registry()[j].1),
            decreases self.named@.len() - k,
        {
            let v = self.named[k].1;
            proof {
                assert(self.registry()[k as int].1 == v);
            }
            if !(v % 2 != 0 || (v % 4 == 0 && 4 <= v && v / 4 - 1 < self.blocks.len() as isize)) {
                return false;
            }
            k = k + 1;
        }
        true
    }
}

/// Whether `raw` is an immediate or a reference below block `bound`.
fn check_value_below(raw: RawOCaml, bound: usize) -> (r: bool)
    requires
        bound <= MAX_BLOCKS,
    ensures
        r == value_below(raw, bound as int),
{
    raw % 2 != 0 || (raw % 4 == 0 && 4 <= raw && raw / 4 - 1 < bound as isize)
}

/// Whether `b` may stand at index `i` of a heap.
fn check_block(b: &Block, i: usize) -> (r: bool)
    requires
        i <= MAX_BLOCKS,
    ensures
        r == block_wf(b@, i as int),
{
    match b {
        Block::Structured { tag, fields } => {
            if *tag >= tag::NO_SCAN || *tag == tag::CLOSURE {
                return false;
            }
            let mut j: usize = 0;
            while j < fields.len()
                invariant
                    j <= fields@.len(),
                    i <= MAX_BLOCKS,
                    b@ == (BlockModel::Structured { tag: *tag, fields: fields@ }),
                    *tag < tag::NO_SCAN,
                    *tag != tag::CLOSURE,
                    forall|k: int| 0 <= k < j ==> value_below(#[trigger] fields@[k], i as int),
                decreases fields@.len() - j,
            {
                if !check_value_below(fields[j], i) {
                    assert(!value_below(fields@[j as int], i as int));
                    assert(b@->fields[j as int] == fields@[j as int]);
                    assert(!block_wf(b@, i as int));
                    return false;
                }
                j = j + 1;
            }
            true
        },
        Block::Opaque { tag, .. } => (*tag == tag::CLOSURE || *tag >= tag::NO_SCAN) && *tag
            != tag::STRING,
        _ => true,
    }
}

} // verus!

verus! {

/// After `name` is registered with `v`, looking `name` up gives `v`, and
/// looking up any other name gives what it gave before.
pub proof fn law_register_then_lookup(
    reg: Seq<(Seq<char>, RawOCaml)>,
    name: Seq<char>,
    v: RawOCaml,
    other: Seq<char>,
)
    ensures
        lookup_named(reg.push((name, v)), name) == Some(v),
        other != name ==> lookup_named(reg.push((name, v)), other) == lookup_named(reg, other),
{
    assert(reg.push((name, v)).drop_last() =~= reg);
}

/// Block references are never exception results: their two lowest bits
/// are clear, and an exception result has them set to `10`.
pub proof fn law_block_refs_are_aligned(h: Seq<BlockModel>, raw: RawOCaml)
    requires
        valid_value(h, raw),
    ensures
        raw % 4 != 2,
{
}

} // verus!
