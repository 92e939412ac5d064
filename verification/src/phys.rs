//! The physical memory map.
//!
//! The map does not store regions. It stores *borders*: points in the
//! physical address space, each tagged with the kind of memory that applies
//! from that point up to the next border. A fixed number of border slots is
//! set aside when the map is made; slots that are not in use hold the null
//! border.
//!
//! A map is *well formed* if its borders ascend, no border repeats the kind
//! that holds just before it, and the last border is of no kind. A new map
//! is well formed, and adding regions keeps it so. The raw primitives that
//! move single borders about do not look at what they move, and can leave
//! a map in any state.

use crate::addr::PhysAddr;
use crate::error::MemoryError;
use crate::phys_laws::last_kind_of;
use crate::phys_laws::lemma_sweep_begins;
use crate::phys_laws::lemma_sweep_ends;
use crate::phys_laws::lemma_sweep_step;
use crate::phys_laws::sweep_inv;
use crate::phys_laws::lemma_merge_is_unique;
use crate::phys_laws::lemma_total_bytes_fit;
use vstd::prelude::*;

verus! {

/// What a stretch of physical memory is used for. Later variants take
/// precedence over earlier ones where regions overlap.
#[derive(Debug, Clone, Copy, PartialEq, Eq, PartialOrd, Ord, Structural)]
pub enum PhysMemoryKind {
    Absent,
    Free,
    Reserved,
    Special,
    AcpiReclaimable,
    KernelExe,
    KernelStack,
    KernelHeap,
    KernelElf,
    InitFs,
    Bootloader,
    PageTables,
    Broken,
}

impl PhysMemoryKind {
    /// The position of the kind in the order of precedence.
    pub open spec fn rank(self) -> int {
        match self {
            PhysMemoryKind::Absent => 0,
            PhysMemoryKind::Free => 1,
            PhysMemoryKind::Reserved => 2,
            PhysMemoryKind::Special => 3,
            PhysMemoryKind::AcpiReclaimable => 4,
            PhysMemoryKind::KernelExe => 5,
            PhysMemoryKind::KernelStack => 6,
            PhysMemoryKind::KernelHeap => 7,
            PhysMemoryKind::KernelElf => 8,
            PhysMemoryKind::InitFs => 9,
            PhysMemoryKind::Bootloader => 10,
            PhysMemoryKind::PageTables => 11,
            PhysMemoryKind::Broken => 12,
        }
    }

    pub fn priority(self) -> (r: u8)
        ensures
            r == self.rank(),
    {
        match self {
            PhysMemoryKind::Absent => 0,
            PhysMemoryKind::Free => 1,
            PhysMemoryKind::Reserved => 2,
            PhysMemoryKind::Special => 3,
            PhysMemoryKind::AcpiReclaimable => 4,
            PhysMemoryKind::KernelExe => 5,
            PhysMemoryKind::KernelStack => 6,
            PhysMemoryKind::KernelHeap => 7,
            PhysMemoryKind::KernelElf => 8,
            PhysMemoryKind::InitFs => 9,
            PhysMemoryKind::Bootloader => 10,
            PhysMemoryKind::PageTables => 11,
            PhysMemoryKind::Broken => 12,
        }
    }

    /// Distinct kinds have distinct ranks.
    pub proof fn lemma_rank_is_injective(a: Self, b: Self)
        requires
            a.rank() == b.rank(),
        ensures
            a == b,
    {
    }
}

/// Anything that describes a region of physical memory.
pub trait MemoryDesc {
    spec fn kind_spec(&self) -> PhysMemoryKind;

    spec fn start_spec(&self) -> PhysAddr;

    spec fn end_spec(&self) -> PhysAddr;

    fn memory_kind(&self) -> (r: PhysMemoryKind)
        ensures
            r == self.kind_spec(),
    ;

    fn memory_start(&self) -> (r: PhysAddr)
        ensures
            r == self.start_spec(),
    ;

    fn memory_end(&self) -> (r: PhysAddr)
        ensures
            r == self.end_spec(),
    ;
}

/// A point in physical memory from which `kind` applies.
#[derive(Clone, Copy, Debug, PartialEq, Eq)]
pub struct PhysMemoryBorder {
    pub kind: PhysMemoryKind,
    pub address: PhysAddr,
}

/// The region `[start, end)` and what it is used for.
#[derive(Clone, Copy, Debug, PartialEq, Eq)]
pub struct PhysMemoryEntry {
    pub kind: PhysMemoryKind,
    pub start: PhysAddr,
    pub end: PhysAddr,
}

impl MemoryDesc for PhysMemoryEntry {
    open spec fn kind_spec(&self) -> PhysMemoryKind {
        self.kind
    }

    open spec fn start_spec(&self) -> PhysAddr {
        self.start
    }

    open spec fn end_spec(&self) -> PhysAddr {
        self.end
    }

    fn memory_kind(&self) -> (r: PhysMemoryKind) {
        self.kind
    }

    fn memory_start(&self) -> (r: PhysAddr) {
        self.start
    }

    fn memory_end(&self) -> (r: PhysAddr) {
        self.end
    }
}

impl MemoryDesc for &PhysMemoryEntry {
    open spec fn kind_spec(&self) -> PhysMemoryKind {
        self.kind
    }

    open spec fn start_spec(&self) -> PhysAddr {
        self.start
    }

    open spec fn end_spec(&self) -> PhysAddr {
        self.end
    }

    fn memory_kind(&self) -> (r: PhysMemoryKind) {
        self.kind
    }

    fn memory_start(&self) -> (r: PhysAddr) {
        self.start
    }

    fn memory_end(&self) -> (r: PhysAddr) {
        self.end
    }
}

/// The border that fills every slot not in use.
pub open spec fn null_border() -> PhysMemoryBorder {
    PhysMemoryBorder { kind: PhysMemoryKind::Absent, address: PhysAddr::with_raw(0) }
}

/// The border of the given kind at the given raw address.
pub open spec fn border_at(kind: PhysMemoryKind, address: u64) -> PhysMemoryBorder {
    PhysMemoryBorder { kind, address: PhysAddr::with_raw(address) }
}

impl PhysMemoryEntry {
    /// The region of no kind at address zero.
    pub fn empty() -> (r: Self)
        ensures
            r.kind == PhysMemoryKind::Absent,
            r.start@ == 0,
            r.end@ == 0,
    {
        Self {
            kind: PhysMemoryKind::Absent,
            start: PhysAddr::null_unaligned(),
            end: PhysAddr::null_unaligned(),
        }
    }

    /// The number of bytes in the region.
    pub fn len(&self) -> (r: u64)
        requires
            self.start@ <= self.end@,
        ensures
            r == self.end@ - self.start@,
    {
        self.end.get() - self.start.get()
    }
}

#[derive(Clone, Copy, Debug)]
pub struct PhysMemoryMap<const N: usize> {
    borders: [PhysMemoryBorder; N],
    len: usize,
}

/// What inserting `border` at slot `index` answers, and the borders in use
/// afterwards, for a map with `cap` slots.
pub open spec fn insert_raw_spec(
    b: Seq<PhysMemoryBorder>,
    cap: nat,
    index: int,
    border: PhysMemoryBorder,
) -> (Result<(), MemoryError>, Seq<PhysMemoryBorder>) {
    if b.len() == cap {
        (Err(MemoryError::ArrayTooSmall), b)
    } else if index > b.len() {
        (Err(MemoryError::InvalidSize), b)
    } else {
        (Ok(()), b.insert(index, border))
    }
}

/// What removing the border at slot `index` answers, and the borders in use
/// afterwards.
pub open spec fn remove_raw_spec(b: Seq<PhysMemoryBorder>, index: int) -> (
    Result<(), MemoryError>,
    Seq<PhysMemoryBorder>,
) {
    if index >= b.len() {
        (Err(MemoryError::InvalidSize), b)
    } else {
        (Ok(()), b.remove(index))
    }
}

/// The borders stand in strictly ascending order of address.
pub open spec fn borders_ascend(b: Seq<PhysMemoryBorder>) -> bool {
    forall|i: int, j: int| 0 <= i < j < b.len() ==> b[i].address@ < b[j].address@
}

/// The last border, if there is one, opens no region.
pub open spec fn is_terminated(b: Seq<PhysMemoryBorder>) -> bool {
    b.len() > 0 ==> b.last().kind == PhysMemoryKind::Absent
}

/// No border repeats the kind that holds just before it. Before the first
/// border no kind holds, so the first border is of some kind.
pub open spec fn is_merged(b: Seq<PhysMemoryBorder>) -> bool {
    &&& b.len() > 0 ==> b[0].kind != PhysMemoryKind::Absent
    &&& forall|i: int| 0 <= i < b.len() - 1 ==> b[i].kind != #[trigger] b[i + 1].kind
}

/// The borders ascend and are merged. Of all the border lists that say the
/// same of every address, one is of this form up to its last border.
pub open spec fn is_canonical(b: Seq<PhysMemoryBorder>) -> bool {
    borders_ascend(b) && is_merged(b)
}

/// The borders ascend, are merged, and end with a border of no kind.
pub open spec fn well_formed(b: Seq<PhysMemoryBorder>) -> bool {
    is_canonical(b) && is_terminated(b)
}

/// What the borders say of address `a`: the kind of the last border that
/// is not above it, or no kind where there is none.
pub open spec fn kind_at(b: Seq<PhysMemoryBorder>, a: int) -> PhysMemoryKind
    decreases b.len(),
{
    if b.len() == 0 {
        PhysMemoryKind::Absent
    } else if b.last().address@ <= a {
        b.last().kind
    } else {
        kind_at(b.drop_last(), a)
    }
}

/// The kind of higher rank.
pub open spec fn higher_kind(k1: PhysMemoryKind, k2: PhysMemoryKind) -> PhysMemoryKind {
    if k1.rank() >= k2.rank() {
        k1
    } else {
        k2
    }
}

/// What is to hold of address `a` once the region `[start, end)` of kind
/// `kind` has been added to the borders `b`: inside the region the kind of
/// higher rank, outside it what held before.
pub open spec fn merged_kind(
    b: Seq<PhysMemoryBorder>,
    kind: PhysMemoryKind,
    start: PhysAddr,
    end: PhysAddr,
    a: int,
) -> PhysMemoryKind {
    if start@ <= a < end@ {
        higher_kind(kind_at(b, a), kind)
    } else {
        kind_at(b, a)
    }
}

/// Whether `m` is the map that holds what `b` held and the region besides:
/// it is well formed and says of every address what [`merged_kind`] says.
pub open spec fn is_merge(
    b: Seq<PhysMemoryBorder>,
    kind: PhysMemoryKind,
    start: PhysAddr,
    end: PhysAddr,
    m: Seq<PhysMemoryBorder>,
) -> bool {
    &&& well_formed(m)
    &&& forall|a: int| #[trigger] kind_at(m, a) == merged_kind(b, kind, start, end, a)
}

/// The map that holds what `b` held and the region besides. There is one
/// such map and no more.
pub open spec fn merged(
    b: Seq<PhysMemoryBorder>,
    kind: PhysMemoryKind,
    start: PhysAddr,
    end: PhysAddr,
) -> Seq<PhysMemoryBorder> {
    choose|m: Seq<PhysMemoryBorder>| is_merge(b, kind, start, end, m)
}

/// What adding the region `[start, end)` of the given kind answers, and the
/// borders in use afterwards, for a map with `cap` slots.
///
/// A region of no kind changes nothing. An empty or inverted region is an
/// error. Otherwise the map becomes the [`merged`] map, if that has no more
/// borders than the map has slots; if it has more, that is an error, and
/// the map stays as it is.
pub open spec fn add_region_spec(
    b: Seq<PhysMemoryBorder>,
    cap: nat,
    kind: PhysMemoryKind,
    start: PhysAddr,
    end: PhysAddr,
) -> (Result<(), MemoryError>, Seq<PhysMemoryBorder>) {
    if kind == PhysMemoryKind::Absent {
        (Ok(()), b)
    } else if start@ >= end@ {
        (Err(MemoryError::EntrySizeIsNegative), b)
    } else if merged(b, kind, start, end).len() <= cap {
        (Ok(()), merged(b, kind, start, end))
    } else {
        (Err(MemoryError::ArrayTooSmall), b)
    }
}

/// The region that the border in slot `i` opens: it runs to the next
/// border, or to address zero where the slot after it is not in use.
pub open spec fn region_at(b: Seq<PhysMemoryBorder>, i: int) -> PhysMemoryEntry {
    PhysMemoryEntry {
        kind: b[i].kind,
        start: b[i].address,
        end: if i + 1 < b.len() {
            b[i + 1].address
        } else {
            PhysAddr::with_raw(0)
        },
    }
}

/// The regions that iteration yields from slot `idx` on, in order.
pub open spec fn regions_from(b: Seq<PhysMemoryBorder>, cap: nat, idx: nat) -> Seq<PhysMemoryEntry>
    decreases b.len() - idx,
{
    if idx >= b.len() || idx + 1 >= cap {
        Seq::empty()
    } else if b[idx as int].kind != PhysMemoryKind::Absent {
        seq![region_at(b, idx as int)] + regions_from(b, cap, idx + 1)
    } else {
        regions_from(b, cap, idx + 1)
    }
}

/// The distance between the two ends of a region.
pub open spec fn region_bytes(region: PhysMemoryEntry) -> int {
    if region.start@ <= region.end@ {
        region.end@ - region.start@
    } else {
        region.start@ - region.end@
    }
}

/// The bytes of all those regions whose kind is among `kinds`.
pub open spec fn total_bytes(regions: Seq<PhysMemoryEntry>, kinds: Set<PhysMemoryKind>) -> int
    decreases regions.len(),
{
    if regions.len() == 0 {
        0
    } else {
        total_bytes(regions.drop_last(), kinds) + if kinds.contains(regions.last().kind) {
            region_bytes(regions.last())
        } else {
            0
        }
    }
}

/// The kinds of memory that are ordinary RAM, whatever it is used for.
pub open spec fn sdram_kinds() -> Set<PhysMemoryKind> {
    set![
        PhysMemoryKind::Free,
        PhysMemoryKind::AcpiReclaimable,
        PhysMemoryKind::Bootloader,
        PhysMemoryKind::KernelExe,
        PhysMemoryKind::KernelStack,
        PhysMemoryKind::KernelElf,
        PhysMemoryKind::KernelHeap,
        PhysMemoryKind::InitFs,
        PhysMemoryKind::PageTables,
    ]
}

/// The least multiple of `alignment` that is not below `addr`.
pub open spec fn align_up(addr: u64, alignment: u64) -> int
    recommends
        alignment > 0,
{
    if addr % alignment == 0 {
        addr as int
    } else {
        addr - addr % alignment + alignment
    }
}

/// The piece of `region` that a request for `bytes` bytes gets: it starts
/// at the first aligned address that is neither below the region's start
/// nor below `min_address`, and must end within the region.
pub open spec fn carve(region: PhysMemoryEntry, bytes: u64, alignment: u64, min_address: PhysAddr) -> Option<
    PhysMemoryEntry,
> {
    let from = if region.start@ >= min_address@ {
        region.start@
    } else {
        min_address@
    };
    let new_start = align_up(from, alignment);
    if new_start < region.end@ && region.end@ - new_start >= bytes {
        Some(
            PhysMemoryEntry {
                kind: region.kind,
                start: PhysAddr::with_raw(new_start as u64),
                end: PhysAddr::with_raw((new_start + bytes) as u64),
            },
        )
    } else {
        None
    }
}

/// The piece carved from the first region of kind `from_kind` that has
/// room for the request.
pub open spec fn first_fit(
    regions: Seq<PhysMemoryEntry>,
    from_kind: PhysMemoryKind,
    bytes: u64,
    alignment: u64,
    min_address: PhysAddr,
) -> Option<PhysMemoryEntry>
    decreases regions.len(),
{
    if regions.len() == 0 {
        None
    } else if regions[0].kind == from_kind && carve(regions[0], bytes, alignment, min_address)
        is Some {
        carve(regions[0], bytes, alignment, min_address)
    } else {
        first_fit(regions.drop_first(), from_kind, bytes, alignment, min_address)
    }
}

/// A total of bytes is never negative.
pub proof fn lemma_total_bytes_nonnegative(a: Seq<PhysMemoryEntry>, kinds: Set<PhysMemoryKind>)
    ensures
        total_bytes(a, kinds) >= 0,
    decreases a.len(),
{
    if a.len() > 0 {
        lemma_total_bytes_nonnegative(a.drop_last(), kinds);
    }
}

/// The bytes of two runs of regions add up.
pub proof fn lemma_total_bytes_concat(
    a: Seq<PhysMemoryEntry>,
    b: Seq<PhysMemoryEntry>,
    kinds: Set<PhysMemoryKind>,
)
    ensures
        total_bytes(a + b, kinds) == total_bytes(a, kinds) + total_bytes(b, kinds),
        total_bytes(a, kinds) >= 0,
        total_bytes(b, kinds) >= 0,
    decreases b.len(),
{
    lemma_total_bytes_nonnegative(a, kinds);
    lemma_total_bytes_nonnegative(b, kinds);
    if b.len() == 0 {
        assert(a + b =~= a);
    } else {
        lemma_total_bytes_concat(a, b.drop_last(), kinds);
        assert((a + b).drop_last() =~= a + b.drop_last());
    }
}

/// A walk over the regions of a map, in slot order.
pub struct PhysMemoryIter<'a, const N: usize> {
    mm: &'a PhysMemoryMap<N>,
    index: usize,
}

impl<'a, const N: usize> PhysMemoryIter<'a, N> {
    /// The borders of the map that is walked.
    pub closed spec fn borders(&self) -> Seq<PhysMemoryBorder> {
        self.mm@
    }

    /// The slot that the walk looks at next.
    pub closed spec fn position(&self) -> nat {
        self.index as nat
    }

    /// The regions that the walk has yet to yield.
    pub open spec fn remaining(&self) -> Seq<PhysMemoryEntry> {
        regions_from(self.borders(), N as nat, self.position())
    }

    /// Yields the next region, if one is left.
    pub fn next(&mut self) -> (r: Option<PhysMemoryEntry>)
        ensures
            final(self).borders() == old(self).borders(),
            match r {
                Some(region) => old(self).remaining().len() > 0 && region == old(
                    self,
                ).remaining()[0] && final(self).remaining() == old(self).remaining().drop_first(),
                None => old(self).remaining().len() == 0 && final(self).remaining().len() == 0,
            },
    {
        proof {
            use_type_invariant(self.mm);
        }
        loop
            invariant
                self.mm == old(self).mm,
                self.mm.len <= N,
                forall|x: int| self.mm.len <= x < N ==> #[trigger] self.mm.borders@[x] == null_border(),
                self.remaining() == old(self).remaining(),
            decreases self.mm.len - self.index,
        {
            if self.index >= self.mm.len {
                return None;
            }
            if self.index + 1 >= N {
                return None;
            }
            let first = self.mm.borders[self.index];
            let second = self.mm.borders[self.index + 1];
            proof {
                assert(self.borders()[self.index as int] == first);
                assert(region_at(self.borders(), self.index as int).end == second.address);
            }
            self.index += 1;
            if first.kind == PhysMemoryKind::Absent {
                continue ;
            }
            let region = PhysMemoryEntry { kind: first.kind, start: first.address, end: second.address };
            proof {
                let rest = regions_from(self.borders(), N as nat, self.position());
                assert((seq![region] + rest).drop_first() =~= rest);
            }
            return Some(region);
        }
    }
}

impl<const N: usize> PhysMemoryMap<N> {
    /// The borders in use, in slot order.
    pub closed spec fn view(&self) -> Seq<PhysMemoryBorder> {
        self.borders@.subrange(0, self.len as int)
    }

    /// The slots in use come first, and every other slot holds the null
    /// border.
    #[verifier::type_invariant]
    spec fn inv(&self) -> bool {
        &&& self.len <= N
        &&& forall|i: int| self.len <= i < N ==> #[trigger] self.borders@[i] == null_border()
    }

    /// A map with every slot free.
    pub fn new() -> (r: Self)
        ensures
            r@ == Seq::<PhysMemoryBorder>::empty(),
            well_formed(r@),
    {
        let r = Self {
            borders: [PhysMemoryBorder {
                kind: PhysMemoryKind::Absent,
                address: PhysAddr::null_unaligned(),
            }; N],
            len: 0,
        };
        assert(r@ =~= Seq::<PhysMemoryBorder>::empty());
        r
    }

    /// The number of borders in use.
    pub fn len(&self) -> (r: usize)
        ensures
            r == self@.len(),
            r <= N,
    {
        proof {
            use_type_invariant(self);
        }
        self.len
    }

    /// Every slot of the map: the borders in use, then null borders.
    pub fn borders(&self) -> (r: [PhysMemoryBorder; N])
        ensures
            r@ =~= self@ + Seq::new((N - self@.len()) as nat, |i: int| null_border()),
    {
        proof {
            use_type_invariant(self);
        }
        self.borders
    }

    /// The border in slot `index`.
    pub fn border(&self, index: usize) -> (r: PhysMemoryBorder)
        requires
            index < self@.len(),
        ensures
            r == self@[index as int],
    {
        proof {
            use_type_invariant(self);
        }
        self.borders[index]
    }

    /// Puts `border` into slot `index` and moves every border from there on
    /// up by one slot. Nothing is asked of the border: the map need not be
    /// well formed afterwards.
    pub fn insert_raw(&mut self, index: usize, border: PhysMemoryBorder) -> (r: Result<
        (),
        MemoryError,
    >)
        ensures
            (r, final(self)@) == insert_raw_spec(old(self)@, N as nat, index as int, border),
    {
        proof {
            use_type_invariant(&*self);
        }
        if self.len == N {
            return Err(MemoryError::ArrayTooSmall);
        }
        if index > self.len {
            return Err(MemoryError::InvalidSize);
        }
        let ghost before = self.borders@;
        let len: usize = self.len;
        let mut slots = self.borders;
        let mut j: usize = len;
        while j > index
            invariant
                index <= j <= len < N,
                before.len() == N,
                forall|k: int| len <= k < N ==> before[k] == null_border(),
                slots@.len() == N,
                forall|k: int| 0 <= k <= j ==> #[trigger] slots@[k] == before[k],
                forall|k: int| j < k <= len ==> #[trigger] slots@[k] == before[k - 1],
                forall|k: int| len < k < N ==> #[trigger] slots@[k] == before[k],
            decreases j,
        {
            slots[j] = slots[j - 1];
            j -= 1;
        }
        slots[index] = border;
        *self = Self { borders: slots, len: len + 1 };
        assert(self@ =~= before.subrange(0, len as int).insert(index as int, border));
        Ok(())
    }

    /// Takes the border out of slot `index` and moves every border after it
    /// down by one slot. The map need not be well formed afterwards.
    pub fn remove_raw(&mut self, index: usize) -> (r: Result<(), MemoryError>)
        ensures
            (r, final(self)@) == remove_raw_spec(old(self)@, index as int),
    {
        proof {
            use_type_invariant(&*self);
        }
        if index >= self.len {
            return Err(MemoryError::InvalidSize);
        }
        let ghost before = self.borders@;
        let len: usize = self.len;
        let mut slots = self.borders;
        let mut j: usize = index;
        while j + 1 < len
            invariant
                index <= j < len <= N,
                before.len() == N,
                forall|k: int| len <= k < N ==> before[k] == null_border(),
                slots@.len() == N,
                forall|k: int| 0 <= k < index ==> #[trigger] slots@[k] == before[k],
                forall|k: int| index <= k < j ==> #[trigger] slots@[k] == before[k + 1],
                forall|k: int| j <= k < N ==> #[trigger] slots@[k] == before[k],
            decreases len - j,
        {
            slots[j] = slots[j + 1];
            j += 1;
        }
        slots[len - 1] = PhysMemoryBorder {
            kind: PhysMemoryKind::Absent,
            address: PhysAddr::null_unaligned(),
        };
        *self = Self { borders: slots, len: len - 1 };
        assert(self@ =~= before.subrange(0, len as int).remove(index as int));
        Ok(())
    }



    /// Whether the borders of the map ascend, are merged, and end with a
    /// border of no kind. A new map is so, and `add_region` keeps it so;
    /// only the raw primitives can undo it.
    pub open spec fn wf(&self) -> bool {
        well_formed(self@)
    }

    /// Records that `[start, end)` is memory of the region's kind. Where
    /// the region overlaps what the map already holds, the kind of higher
    /// precedence prevails; everywhere else the map says what it said
    /// before. Borders that the change makes redundant are merged away.
    ///
    /// A map that has not the slots for the outcome is left as it was.
    ///
    /// Note on a change of behaviour: this function used to sweep the
    /// borders in place. In doing so it dropped some regions without a
    /// word (one that lay before every border, one of lower precedence
    /// that ended within a region of higher), left the borders out of
    /// order for a region of lower precedence that reached past a region
    /// of higher, and could fail half way with the map changed. It does
    /// none of that any more.
    pub fn add_region<D: MemoryDesc>(&mut self, region: D) -> (r: Result<(), MemoryError>)
        requires
            old(self).wf(),
        ensures
            final(self).wf(),
            (r, final(self)@) == add_region_spec(
                old(self)@,
                N as nat,
                region.kind_spec(),
                region.start_spec(),
                region.end_spec(),
            ),
            r is Ok ==> forall|a: int| #[trigger]
                kind_at(final(self)@, a) == if region.kind_spec() == PhysMemoryKind::Absent {
                    kind_at(old(self)@, a)
                } else {
                    merged_kind(
                        old(self)@,
                        region.kind_spec(),
                        region.start_spec(),
                        region.end_spec(),
                        a,
                    )
                },
            r is Err ==> final(self)@ == old(self)@,
    {
        let kind = region.memory_kind();
        let start = region.memory_start();
        let end = region.memory_end();
        if kind == PhysMemoryKind::Absent {
            return Ok(());
        }
        if start.get() >= end.get() {
            return Err(MemoryError::EntrySizeIsNegative);
        }
        proof {
            use_type_invariant(&*self);
        }
        let s: u64 = start.get();
        let e: u64 = end.get();
        let k: u8 = kind.priority();
        let old_len: usize = self.len;
        let ghost before = self@;
        let mut out = [PhysMemoryBorder {
            kind: PhysMemoryKind::Absent,
            address: PhysAddr::null_unaligned(),
        }; N];
        let mut out_len: usize = 0;
        let mut overflowed = false;
        let mut last_kind = PhysMemoryKind::Absent;
        let ghost mut full: Seq<PhysMemoryBorder> = Seq::empty();
        let ghost mut settled: int = 0;
        let mut i: usize = 0;
        let mut done_s = false;
        let mut done_e = false;
        proof {
            lemma_sweep_begins(before, kind, start, end);
        }
        while i < old_len || !done_e
            invariant
                i <= old_len <= N,
                old_len == before.len(),
                self.len == old_len,
                forall|j: int| 0 <= j < old_len ==> #[trigger] self.borders@[j] == before[j],
                s == start@,
                e == end@,
                s < e,
                k == kind.rank(),
                sweep_inv(before, full, kind, start, end, settled, i as int, done_s, done_e),
                last_kind == last_kind_of(full),
                out_len <= N,
                out@.len() == N,
                overflowed ==> full.len() > N,
                !overflowed ==> out_len == full.len(),
                !overflowed ==> forall|j: int| 0 <= j < out_len ==> #[trigger] out@[j] == full[j],
                forall|j: int| out_len <= j < N ==> #[trigger] out@[j] == null_border(),
            decreases
                    (old_len - i) + (if done_s {
                        0int
                    } else {
                        1int
                    }) + (if done_e {
                        0int
                    } else {
                        1int
                    }),
        {
            let point: u64 = if !done_s {
                s
            } else {
                e
            };
            let at_border = i < old_len && (done_e || self.borders[i].address.get() <= point);
            let x: u64 = if at_border {
                self.borders[i].address.get()
            } else {
                point
            };
            let f: PhysMemoryKind = if at_border {
                self.borders[i].kind
            } else if i > 0 {
                self.borders[i - 1].kind
            } else {
                PhysMemoryKind::Absent
            };
            let g: PhysMemoryKind = if s <= x && x < e && f.priority() < k {
                kind
            } else {
                f
            };
            proof {
                lemma_sweep_step(
                    before,
                    full,
                    kind,
                    start,
                    end,
                    settled,
                    i as int,
                    done_s,
                    done_e,
                    x,
                    at_border,
                    f,
                    g,
                );
            }
            if at_border {
                i += 1;
            }
            if !done_s && x == s {
                done_s = true;
            } else if !done_e && x == e {
                done_e = true;
            }
            if g != last_kind {
                let border = PhysMemoryBorder { kind: g, address: PhysAddr::from(x) };
                if out_len < N {
                    out[out_len] = border;
                    out_len += 1;
                } else {
                    overflowed = true;
                }
                last_kind = g;
                proof {
                    full = full.push(border);
                }
            }
            proof {
                settled = x + 1;
            }
        }
        proof {
            lemma_sweep_ends(before, full, kind, start, end, settled, done_s);
            lemma_merge_is_unique(before, kind, start, end, merged(before, kind, start, end), full);
        }
        if overflowed {
            return Err(MemoryError::ArrayTooSmall);
        }
        *self = Self { borders: out, len: out_len };
        assert(self@ =~= full);
        Ok(())
    }

    /// Starts a walk over the regions of the map.
    pub fn iter(&self) -> (r: PhysMemoryIter<'_, N>)
        ensures
            r.borders() == self@,
            r.position() == 0,
    {
        PhysMemoryIter { mm: self, index: 0 }
    }

    /// The regions of the map, in the order in which a walk yields them.
    pub open spec fn regions(&self) -> Seq<PhysMemoryEntry> {
        regions_from(self@, N as nat, 0)
    }

    /// The number of bytes that the regions of the given kind cover.
    pub fn bytes_of(&self, kind: PhysMemoryKind) -> (r: u64)
        requires
            self.wf(),
        ensures
            r == total_bytes(self.regions(), set![kind]),
    {
        proof {
            lemma_total_bytes_fit(self@, N as nat, set![kind]);
        }
        let ghost kinds = set![kind];
        let ghost all = self.regions();
        let ghost mut done: Seq<PhysMemoryEntry> = Seq::empty();
        let mut bytes: u64 = 0;
        let mut walk = self.iter();
        loop
            invariant
                kinds == set![kind],
                done + walk.remaining() == all,
                bytes == total_bytes(done, kinds),
                total_bytes(all, kinds) <= u64::MAX,
            ensures
                bytes == total_bytes(all, kinds),
            decreases walk.remaining().len(),
        {
            let ghost left = walk.remaining();
            match walk.next() {
                None => {
                    assert(done + left =~= done);
                    break ;
                },
                Some(region) => {
                    proof {
                        let grown = done.push(region);
                        assert(grown.drop_last() =~= done);
                        assert(grown + walk.remaining() =~= done + left);
                        lemma_total_bytes_concat(grown, walk.remaining(), kinds);
                        done = grown;
                    }
                    if region.kind == kind {
                        bytes += region.start.addr_distance(region.end);
                    }
                },
            }
        }
        bytes
    }

    /// The number of bytes of ordinary RAM that the map knows of.
    pub fn sdram_bytes(&self) -> (r: u64)
        requires
            self.wf(),
        ensures
            r == total_bytes(self.regions(), sdram_kinds()),
    {
        proof {
            lemma_total_bytes_fit(self@, N as nat, sdram_kinds());
        }
        let ghost kinds = sdram_kinds();
        let ghost all = self.regions();
        let ghost mut done: Seq<PhysMemoryEntry> = Seq::empty();
        let mut bytes: u64 = 0;
        let mut walk = self.iter();
        loop
            invariant
                kinds == sdram_kinds(),
                done + walk.remaining() == all,
                bytes == total_bytes(done, kinds),
                total_bytes(all, kinds) <= u64::MAX,
            ensures
                bytes == total_bytes(all, kinds),
            decreases walk.remaining().len(),
        {
            let ghost left = walk.remaining();
            match walk.next() {
                None => {
                    assert(done + left =~= done);
                    break ;
                },
                Some(region) => {
                    proof {
                        let grown = done.push(region);
                        assert(grown.drop_last() =~= done);
                        assert(grown + walk.remaining() =~= done + left);
                        lemma_total_bytes_concat(grown, walk.remaining(), kinds);
                        done = grown;
                    }
                    let counts = match region.kind {
                        PhysMemoryKind::Free
                        | PhysMemoryKind::AcpiReclaimable
                        | PhysMemoryKind::Bootloader
                        | PhysMemoryKind::KernelExe
                        | PhysMemoryKind::KernelStack
                        | PhysMemoryKind::KernelElf
                        | PhysMemoryKind::KernelHeap
                        | PhysMemoryKind::InitFs
                        | PhysMemoryKind::PageTables => true,
                        _ => false,
                    };
                    if counts {
                        bytes += region.start.addr_distance(region.end);
                    }
                },
            }
        }
        bytes
    }

    /// Looks for `bytes` bytes of memory of kind `from_kind`, aligned to
    /// `alignment` and not below `min_address`, and answers with the first
    /// piece that fits.
    pub fn find_continuous_of(
        &mut self,
        from_kind: PhysMemoryKind,
        bytes: u64,
        alignment: u64,
        min_address: PhysAddr,
    ) -> (r: Option<PhysMemoryEntry>)
        requires
            alignment > 0,
        ensures
            final(self)@ == old(self)@,
            r == first_fit(old(self).regions(), from_kind, bytes, alignment, min_address),
    {
        let ghost all = self.regions();
        let mut walk = self.iter();
        loop
            invariant
                alignment > 0,
                all == old(self).regions(),
                first_fit(walk.remaining(), from_kind, bytes, alignment, min_address) == first_fit(
                    all,
                    from_kind,
                    bytes,
                    alignment,
                    min_address,
                ),
            decreases walk.remaining().len(),
        {
            match walk.next() {
                None => {
                    return None;
                },
                Some(region) => {
                    if region.kind == from_kind {
                        let from: u64 = if region.start.get() >= min_address.get() {
                            region.start.get()
                        } else {
                            min_address.get()
                        };
                        let over: u64 = from % alignment;
                        assert(over <= from) by (nonlinear_arith)
                            requires
                                over == from % alignment,
                                alignment > 0,
                        ;
                        let new_start: Option<u64> = if over == 0 {
                            Some(from)
                        } else {
                            (from - over).checked_add(alignment)
                        };
                        if let Some(aligned) = new_start {
                            if region.end.get() > aligned && region.end.get() - aligned >= bytes {
                                return Some(
                                    PhysMemoryEntry {
                                        kind: region.kind,
                                        start: PhysAddr::from(aligned),
                                        end: PhysAddr::from(aligned + bytes),
                                    },
                                );
                            }
                        }
                    }
                },
            }
        }
    }

    /// Whether the map is well formed: its borders ascend, are merged,
    /// and end with a border of no kind.
    pub fn is_well_formed(&self) -> (r: bool)
        ensures
            r == self.wf(),
    {
        proof {
            use_type_invariant(self);
        }
        if self.len == 0 {
            return true;
        }
        if self.borders[self.len - 1].kind != PhysMemoryKind::Absent {
            return false;
        }
        if self.borders[0].kind == PhysMemoryKind::Absent {
            return false;
        }
        let mut i: usize = 1;
        while i < self.len
            invariant
                1 <= i <= self.len <= N,
                forall|x: int, y: int| 0 <= x < y < i ==> self@[x].address@ < self@[y].address@,
                forall|x: int| 0 <= x < i - 1 ==> self@[x].kind != #[trigger] self@[x + 1].kind,
            decreases self.len - i,
        {
            if self.borders[i - 1].address.get() >= self.borders[i].address.get() {
                assert(!(self@[i - 1].address@ < self@[i as int].address@));
                return false;
            }
            if self.borders[i - 1].kind == self.borders[i].kind {
                assert(self@[i - 1].kind == self@[i - 1 + 1].kind);
                return false;
            }
            assert forall|x: int, y: int| 0 <= x < y < i + 1 implies self@[x].address@
                < self@[y].address@ by {
                if y == i && x < i - 1 {
                    assert(self@[x].address@ < self@[i - 1].address@);
                }
            }
            i += 1;
        }
        true
    }
}

} // verus!
