//! What holds of the physical memory map, stated over the borders that the
//! map holds and proved once and for all: that the map which holds a map
//! and a region besides exists and is the only one, that adding a region
//! twice is adding it once, that the order in which regions are added makes
//! no difference, and that a walk over a well-formed map yields what the
//! borders say.

use crate::addr::PhysAddr;
use crate::error::MemoryError;
use crate::phys::PhysMemoryBorder;
use crate::phys::PhysMemoryEntry;
use crate::phys::PhysMemoryKind;
use crate::phys::add_region_spec;
use crate::phys::borders_ascend;
use crate::phys::higher_kind;
use crate::phys::is_canonical;
use crate::phys::is_merge;
use crate::phys::is_merged;
use crate::phys::is_terminated;
use crate::phys::kind_at;
use crate::phys::lemma_total_bytes_concat;
use crate::phys::merged;
use crate::phys::merged_kind;
use crate::phys::region_at;
use crate::phys::region_bytes;
use crate::phys::regions_from;
use crate::phys::total_bytes;
use crate::phys::well_formed;
use vstd::prelude::*;

verus! {

/// The slot of the border that opens region number `k` of the regions
/// that a walk yields from slot `idx` on.
pub open spec fn slot_of(b: Seq<PhysMemoryBorder>, cap: nat, idx: nat, k: nat) -> nat
    decreases b.len() - idx,
{
    if idx >= b.len() || idx + 1 >= cap {
        idx
    } else if b[idx as int].kind != PhysMemoryKind::Absent {
        if k == 0 {
            idx
        } else {
            slot_of(b, cap, idx + 1, (k - 1) as nat)
        }
    } else {
        slot_of(b, cap, idx + 1, k)
    }
}

/// Every region that a walk yields is opened by a border of some kind, and
/// the borders of later regions stand in later slots.
pub proof fn lemma_regions_have_slots(b: Seq<PhysMemoryBorder>, cap: nat, idx: nat, k: nat)
    requires
        k < regions_from(b, cap, idx).len(),
    ensures
        idx <= slot_of(b, cap, idx, k) < b.len(),
        slot_of(b, cap, idx, k) + 1 < cap,
        b[slot_of(b, cap, idx, k) as int].kind != PhysMemoryKind::Absent,
        regions_from(b, cap, idx)[k as int] == region_at(b, slot_of(b, cap, idx, k) as int),
        k + 1 < regions_from(b, cap, idx).len() ==> slot_of(b, cap, idx, k) < slot_of(
            b,
            cap,
            idx,
            k + 1,
        ),
    decreases b.len() - idx,
{
    if idx >= b.len() || idx + 1 >= cap {
    } else if b[idx as int].kind != PhysMemoryKind::Absent {
        if k > 0 {
            lemma_regions_have_slots(b, cap, idx + 1, (k - 1) as nat);
        } else if k + 1 < regions_from(b, cap, idx).len() {
            lemma_regions_have_slots(b, cap, idx + 1, 0);
        }
    } else {
        lemma_regions_have_slots(b, cap, idx + 1, k);
    }
}

/// Between a border and the next, the kind is that of the border.
pub proof fn lemma_kind_between_borders(b: Seq<PhysMemoryBorder>, s: int, a: int)
    requires
        borders_ascend(b),
        0 <= s < b.len(),
        b[s].address@ <= a,
        s + 1 < b.len() ==> a < b[s + 1].address@,
    ensures
        kind_at(b, a) == b[s].kind,
    decreases b.len(),
{
    if s + 1 < b.len() {
        assert(b.last().address@ >= b[s + 1].address@);
        lemma_kind_between_borders(b.drop_last(), s, a);
    }
}

/// A walk over a map whose borders ascend and whose last border opens no
/// region yields regions that are not empty, that lie one after the other
/// without overlap, and whose kinds are what looking at the borders shows
/// for every address in them.
pub proof fn lemma_iteration_is_coherent(b: Seq<PhysMemoryBorder>, cap: nat, i: int, j: int, a: int)
    requires
        borders_ascend(b),
        is_terminated(b),
        0 <= i < regions_from(b, cap, 0).len(),
    ensures
        regions_from(b, cap, 0)[i].kind != PhysMemoryKind::Absent,
        regions_from(b, cap, 0)[i].start@ < regions_from(b, cap, 0)[i].end@,
        i < j < regions_from(b, cap, 0).len() ==> regions_from(b, cap, 0)[i].end@ <= regions_from(
            b,
            cap,
            0,
        )[j].start@,
        regions_from(b, cap, 0)[i].start@ <= a < regions_from(b, cap, 0)[i].end@ ==> kind_at(b, a)
            == regions_from(b, cap, 0)[i].kind,
{
    lemma_regions_have_slots(b, cap, 0, i as nat);
    let s = slot_of(b, cap, 0, i as nat) as int;
    assert(s + 1 < b.len());
    if i < j < regions_from(b, cap, 0).len() {
        lemma_slots_ascend(b, cap, i as nat, j as nat);
        lemma_regions_have_slots(b, cap, 0, j as nat);
    }
    if regions_from(b, cap, 0)[i].start@ <= a < regions_from(b, cap, 0)[i].end@ {
        lemma_kind_between_borders(b, s, a);
    }
}

/// Of two regions that a walk yields, the later one is opened by a border
/// in a later slot.
pub proof fn lemma_slots_ascend(b: Seq<PhysMemoryBorder>, cap: nat, i: nat, j: nat)
    requires
        i < j < regions_from(b, cap, 0).len(),
    ensures
        slot_of(b, cap, 0, i) < slot_of(b, cap, 0, j),
    decreases j - i,
{
    lemma_regions_have_slots(b, cap, 0, (j - 1) as nat);
    if i < j - 1 {
        lemma_slots_ascend(b, cap, i, (j - 1) as nat);
    }
}

/// Between two addresses with no border above the first and up to the
/// second, the borders say the same of both.
pub proof fn lemma_kind_unchanged(b: Seq<PhysMemoryBorder>, a: int, beyond: int)
    requires
        a <= beyond,
        forall|i: int| 0 <= i < b.len() ==> !(a < (#[trigger] b[i]).address@ <= beyond),
    ensures
        kind_at(b, beyond) == kind_at(b, a),
    decreases b.len(),
{
    if b.len() > 0 {
        assert(!(a < b[b.len() - 1].address@ <= beyond));
        if b.last().address@ > beyond {
            assert forall|i: int| 0 <= i < b.drop_last().len() implies !(a < (
            #[trigger] b.drop_last()[i]).address@ <= beyond) by {
                assert(b.drop_last()[i] == b[i]);
            }
            lemma_kind_unchanged(b.drop_last(), a, beyond);
        }
    }
}

/// Below every border, no kind holds.
pub proof fn lemma_kind_below_every_border(b: Seq<PhysMemoryBorder>, a: int)
    requires
        forall|i: int| 0 <= i < b.len() ==> (#[trigger] b[i]).address@ > a,
    ensures
        kind_at(b, a) == PhysMemoryKind::Absent,
    decreases b.len(),
{
    if b.len() > 0 {
        assert(b[b.len() - 1].address@ > a);
        assert forall|i: int| 0 <= i < b.drop_last().len() implies (#[trigger] b.drop_last()[i]).address@
            > a by {
            assert(b.drop_last()[i] == b[i]);
        }
        lemma_kind_below_every_border(b.drop_last(), a);
    }
}

/// A list of borders that ascends and is merged, without its last border,
/// ascends and is merged still.
pub proof fn lemma_canonical_drop_last(b: Seq<PhysMemoryBorder>)
    requires
        is_canonical(b),
        b.len() > 0,
    ensures
        is_canonical(b.drop_last()),
        forall|i: int| 0 <= i < b.len() - 1 ==> (#[trigger] b.drop_last()[i]).address@ < b.last().address@,
        kind_at(b, b.last().address@ - 1) != b.last().kind,
{
    let d = b.drop_last();
    assert forall|i: int, j: int| 0 <= i < j < d.len() implies d[i].address@ < d[j].address@ by {
        assert(d[i] == b[i] && d[j] == b[j]);
    }
    assert forall|i: int| 0 <= i < d.len() - 1 implies d[i].kind != #[trigger] d[i + 1].kind by {
        assert(d[i] == b[i] && d[i + 1] == b[i + 1]);
    }
    assert forall|i: int| 0 <= i < b.len() - 1 implies (#[trigger] d[i]).address@ < b.last().address@ by {
        assert(d[i] == b[i]);
    }
    let x = b.last().address@ as int;
    assert(kind_at(b, x - 1) == kind_at(d, x - 1));
    if d.len() > 0 {
        assert(d[0] == b[0]);
        assert(d.last() == b[b.len() - 2]);
        assert(d.last().address@ <= x - 1);
        assert(b[b.len() - 2].kind != b[b.len() - 2 + 1].kind);
        assert(kind_at(d, x - 1) == d.last().kind);
    } else {
        assert(b.last() == b[0]);
    }
}

/// The kind of higher rank among three is the same however the three are
/// taken two by two.
pub proof fn lemma_higher_kind_commutes(f: PhysMemoryKind, k1: PhysMemoryKind, k2: PhysMemoryKind)
    ensures
        higher_kind(higher_kind(f, k1), k2) == higher_kind(higher_kind(f, k2), k1),
        higher_kind(higher_kind(f, k1), k2) == higher_kind(f, higher_kind(k1, k2)),
        higher_kind(higher_kind(f, k1), k1) == higher_kind(f, k1),
{
    if k1.rank() == k2.rank() {
        PhysMemoryKind::lemma_rank_is_injective(k1, k2);
    }
    if f.rank() == k1.rank() {
        PhysMemoryKind::lemma_rank_is_injective(f, k1);
    }
    if f.rank() == k2.rank() {
        PhysMemoryKind::lemma_rank_is_injective(f, k2);
    }
}

/// What appending a border does to a list that ascends and is merged: if
/// the border lies at or above `settled`, above every border of the list,
/// and is of another kind than the last, the longer list ascends and is
/// merged, says of the border's address the border's kind, and of every
/// address below it what the list said.
pub proof fn lemma_append_border(full: Seq<PhysMemoryBorder>, border: PhysMemoryBorder, settled: int)
    requires
        is_canonical(full),
        forall|j: int| 0 <= j < full.len() ==> (#[trigger] full[j]).address@ < settled,
        settled <= border.address@,
        border.kind != if full.len() > 0 {
            full.last().kind
        } else {
            PhysMemoryKind::Absent
        },
    ensures
        is_canonical(full.push(border)),
        forall|j: int|
            0 <= j < full.push(border).len() ==> (#[trigger] full.push(border)[j]).address@
                < border.address@ + 1,
        kind_at(full.push(border), border.address@ as int) == border.kind,
        forall|a: int| a < border.address@ ==> #[trigger] kind_at(full.push(border), a) == kind_at(full, a),
{
    let longer = full.push(border);
    assert(longer.drop_last() =~= full);
    assert(longer.last() == border);
    assert forall|p: int, q: int| 0 <= p < q < longer.len() implies longer[p].address@
        < longer[q].address@ by {
        assert(longer[p] == full[p]);
        if q < full.len() {
            assert(longer[q] == full[q]);
        }
    }
    assert forall|p: int| 0 <= p < longer.len() - 1 implies longer[p].kind != #[trigger] longer[p
        + 1].kind by {
        assert(longer[p] == full[p]);
        if p + 1 < full.len() {
            assert(longer[p + 1] == full[p + 1]);
        } else {
            assert(full[p] == full.last());
        }
    }
    if full.len() > 0 {
        assert(longer[0] == full[0]);
    }
    assert forall|j: int| 0 <= j < longer.len() implies (#[trigger] longer[j]).address@
        < border.address@ + 1 by {
        if j < full.len() {
            assert(longer[j] == full[j]);
        }
    }
}

/// What a sweep has reached once it has dealt with every border of the map
/// and both ends of the region: a list of borders that says of every
/// address what is to hold of it, and ends with a border of no kind.
pub proof fn lemma_sweep_is_done(
    before: Seq<PhysMemoryBorder>,
    full: Seq<PhysMemoryBorder>,
    kind: PhysMemoryKind,
    start: PhysAddr,
    end: PhysAddr,
    settled: int,
)
    requires
        well_formed(before),
        is_canonical(full),
        start@ < end@ < settled,
        forall|j: int| 0 <= j < before.len() ==> (#[trigger] before[j]).address@ < settled,
        forall|j: int| 0 <= j < full.len() ==> (#[trigger] full[j]).address@ < settled,
        forall|a: int|
            a < settled ==> #[trigger] kind_at(full, a) == merged_kind(before, kind, start, end, a),
    ensures
        is_merge(before, kind, start, end, full),
{
    let anchor = settled - 1;
    assert(kind_at(full, anchor) == merged_kind(before, kind, start, end, anchor));
    assert forall|a: int| #[trigger] kind_at(full, a) == merged_kind(before, kind, start, end, a) by {
        if a >= settled {
            lemma_kind_unchanged(full, anchor, a);
            lemma_kind_unchanged(before, anchor, a);
        }
    }
    if before.len() > 0 {
        assert(before[before.len() - 1].address@ < settled);
        assert(kind_at(before, anchor) == before.last().kind);
    }
    assert(kind_at(before, anchor) == PhysMemoryKind::Absent);
    if full.len() > 0 {
        assert(full[full.len() - 1].address@ < settled);
        assert(kind_at(full, anchor) == full.last().kind);
    }
}

/// Nothing holds of an address below zero.
pub proof fn lemma_sweep_starts(before: Seq<PhysMemoryBorder>, kind: PhysMemoryKind, start: PhysAddr, end: PhysAddr)
    ensures
        forall|a: int|
            a < 0 ==> #[trigger] kind_at(Seq::<PhysMemoryBorder>::empty(), a) == merged_kind(
                before,
                kind,
                start,
                end,
                a,
            ),
{
    assert forall|a: int| a < 0 implies #[trigger] kind_at(Seq::<PhysMemoryBorder>::empty(), a)
        == merged_kind(before, kind, start, end, a) by {
        lemma_kind_below_every_border(before, a);
    }
}

/// Two lists of borders that ascend and are merged, and say the same of
/// every address, are the same list.
pub proof fn lemma_same_kinds_same_borders(m1: Seq<PhysMemoryBorder>, m2: Seq<PhysMemoryBorder>)
    requires
        is_canonical(m1),
        is_canonical(m2),
        forall|a: int| #[trigger] kind_at(m1, a) == kind_at(m2, a),
    ensures
        m1 == m2,
    decreases m1.len() + m2.len(),
{
    if m1.len() == 0 && m2.len() == 0 {
        assert(m1 =~= m2);
    } else if m1.len() == 0 {
        lemma_kind_between_borders(m2, 0, m2[0].address@ as int);
        assert(kind_at(m1, m2[0].address@ as int) == kind_at(m2, m2[0].address@ as int));
    } else if m2.len() == 0 {
        lemma_kind_between_borders(m1, 0, m1[0].address@ as int);
        assert(kind_at(m1, m1[0].address@ as int) == kind_at(m2, m1[0].address@ as int));
    } else {
        let x1 = m1.last().address@ as int;
        let x2 = m2.last().address@ as int;
        lemma_canonical_drop_last(m1);
        lemma_canonical_drop_last(m2);
        if x1 < x2 {
            assert(kind_at(m1, x2) == m1.last().kind);
            assert(kind_at(m1, x2 - 1) == m1.last().kind);
            assert(kind_at(m2, x2) == m2.last().kind);
            assert(kind_at(m1, x2) == kind_at(m2, x2));
            assert(kind_at(m1, x2 - 1) == kind_at(m2, x2 - 1));
        } else if x2 < x1 {
            assert(kind_at(m2, x1) == m2.last().kind);
            assert(kind_at(m2, x1 - 1) == m2.last().kind);
            assert(kind_at(m1, x1) == m1.last().kind);
            assert(kind_at(m1, x1) == kind_at(m2, x1));
            assert(kind_at(m1, x1 - 1) == kind_at(m2, x1 - 1));
        } else {
            let d1 = m1.drop_last();
            let d2 = m2.drop_last();
            assert(kind_at(m1, x1) == kind_at(m2, x1));
            PhysAddr::lemma_view_is_identity(m1.last().address, m2.last().address);
            assert(m1.last() == m2.last());
            assert forall|a: int| #[trigger] kind_at(d1, a) == kind_at(d2, a) by {
                if a < x1 {
                    assert(kind_at(m1, a) == kind_at(m2, a));
                } else {
                    assert(kind_at(m1, x1 - 1) == kind_at(m2, x1 - 1));
                    lemma_kind_unchanged(d1, x1 - 1, a);
                    lemma_kind_unchanged(d2, x1 - 1, a);
                }
            }
            lemma_same_kinds_same_borders(d1, d2);
            assert(m1 =~= d1.push(m1.last()));
            assert(m2 =~= d2.push(m2.last()));
        }
    }
}

/// There is no more than one map that holds what a map held and a region
/// besides.
pub proof fn lemma_merge_is_unique(
    b: Seq<PhysMemoryBorder>,
    kind: PhysMemoryKind,
    start: PhysAddr,
    end: PhysAddr,
    m1: Seq<PhysMemoryBorder>,
    m2: Seq<PhysMemoryBorder>,
)
    requires
        is_merge(b, kind, start, end, m1),
        is_merge(b, kind, start, end, m2),
    ensures
        m1 == m2,
{
    assert forall|a: int| #[trigger] kind_at(m1, a) == kind_at(m2, a) by {
        assert(kind_at(m1, a) == merged_kind(b, kind, start, end, a));
        assert(kind_at(m2, a) == merged_kind(b, kind, start, end, a));
    }
    lemma_same_kinds_same_borders(m1, m2);
}

/// Adding a region a second time changes nothing: the map that holds a
/// region, with the same region added, is that map.
pub proof fn lemma_add_region_is_idempotent(
    b: Seq<PhysMemoryBorder>,
    kind: PhysMemoryKind,
    start: PhysAddr,
    end: PhysAddr,
    once: Seq<PhysMemoryBorder>,
    twice: Seq<PhysMemoryBorder>,
)
    requires
        is_merge(b, kind, start, end, once),
        is_merge(once, kind, start, end, twice),
    ensures
        twice == once,
        is_merge(once, kind, start, end, once),
{
    assert forall|a: int| #[trigger] kind_at(once, a) == merged_kind(once, kind, start, end, a) by {
        assert(kind_at(once, a) == merged_kind(b, kind, start, end, a));
        lemma_higher_kind_commutes(kind_at(b, a), kind, kind);
    }
    lemma_merge_is_unique(once, kind, start, end, once, twice);
}

/// Of two regions that are added to a map one after the other, the kind of
/// higher rank prevails wherever they overlap, and it makes no difference
/// which of the two is added first.
pub proof fn lemma_add_region_order(
    b: Seq<PhysMemoryBorder>,
    k1: PhysMemoryKind,
    s1: PhysAddr,
    e1: PhysAddr,
    k2: PhysMemoryKind,
    s2: PhysAddr,
    e2: PhysAddr,
    first: Seq<PhysMemoryBorder>,
    first_then_second: Seq<PhysMemoryBorder>,
    second: Seq<PhysMemoryBorder>,
    second_then_first: Seq<PhysMemoryBorder>,
)
    requires
        is_merge(b, k1, s1, e1, first),
        is_merge(first, k2, s2, e2, first_then_second),
        is_merge(b, k2, s2, e2, second),
        is_merge(second, k1, s1, e1, second_then_first),
    ensures
        first_then_second == second_then_first,
        forall|a: int|
            s1@ <= a < e1@ && s2@ <= a < e2@ ==> #[trigger] kind_at(first_then_second, a)
                == higher_kind(kind_at(b, a), higher_kind(k1, k2)),
{
    assert forall|a: int| #[trigger]
        kind_at(first_then_second, a) == kind_at(second_then_first, a) by {
        assert(kind_at(first_then_second, a) == merged_kind(first, k2, s2, e2, a));
        assert(kind_at(first, a) == merged_kind(b, k1, s1, e1, a));
        assert(kind_at(second_then_first, a) == merged_kind(second, k1, s1, e1, a));
        assert(kind_at(second, a) == merged_kind(b, k2, s2, e2, a));
        lemma_higher_kind_commutes(kind_at(b, a), k1, k2);
    }
    lemma_same_kinds_same_borders(first_then_second, second_then_first);
    assert forall|a: int| s1@ <= a < e1@ && s2@ <= a < e2@ implies #[trigger] kind_at(
        first_then_second,
        a,
    ) == higher_kind(kind_at(b, a), higher_kind(k1, k2)) by {
        assert(kind_at(first_then_second, a) == merged_kind(first, k2, s2, e2, a));
        assert(kind_at(first, a) == merged_kind(b, k1, s1, e1, a));
        lemma_higher_kind_commutes(kind_at(b, a), k1, k2);
    }
}

/// One step of a sweep over the borders of a map and the two ends of a
/// region, in ascending order of address. Every address below `settled` has
/// been dealt with: the borders `full` say of it what is to hold of it.
/// The next address at which anything can change is `x`: a border of the
/// map, if `at_border`, or an end of the region. Then `full` says what is
/// to hold of every address below `x` as well, and what the map says of
/// `x` itself is the kind of its border there, or of the border before.
pub proof fn lemma_settle(
    before: Seq<PhysMemoryBorder>,
    full: Seq<PhysMemoryBorder>,
    kind: PhysMemoryKind,
    start: PhysAddr,
    end: PhysAddr,
    settled: int,
    x: int,
    i: int,
    at_border: bool,
)
    requires
        borders_ascend(before),
        0 <= i <= before.len(),
        0 <= settled <= x,
        start@ < end@,
        forall|j: int| 0 <= j < i ==> (#[trigger] before[j]).address@ < settled,
        forall|j: int| i <= j < before.len() ==> (#[trigger] before[j]).address@ >= x,
        at_border ==> i < before.len() && before[i].address@ == x,
        !at_border ==> forall|j: int| i <= j < before.len() ==> (#[trigger] before[j]).address@ > x,
        start@ < settled || start@ >= x,
        end@ < settled || end@ >= x,
        forall|j: int| 0 <= j < full.len() ==> (#[trigger] full[j]).address@ < settled,
        forall|a: int|
            a < settled ==> #[trigger] kind_at(full, a) == merged_kind(before, kind, start, end, a),
    ensures
        forall|a: int| a < x ==> #[trigger] kind_at(full, a) == merged_kind(before, kind, start, end, a),
        kind_at(before, x) == if at_border {
            before[i].kind
        } else if i > 0 {
            before[i - 1].kind
        } else {
            PhysMemoryKind::Absent
        },
        kind_at(full, x) == if full.len() > 0 {
            full.last().kind
        } else {
            PhysMemoryKind::Absent
        },
{
    assert forall|a: int| a < x implies #[trigger] kind_at(full, a) == merged_kind(
        before,
        kind,
        start,
        end,
        a,
    ) by {
        if a >= settled {
            if settled == 0 {
                assert(full.len() == 0) by {
                    if full.len() > 0 {
                        assert(full[0].address@ < settled);
                    }
                }
                assert(i == 0) by {
                    if i > 0 {
                        assert(before[0].address@ < settled);
                    }
                }
                lemma_kind_below_every_border(before, a);
            } else {
                assert(kind_at(full, settled - 1) == merged_kind(
                    before,
                    kind,
                    start,
                    end,
                    settled - 1,
                ));
                lemma_kind_unchanged(full, settled - 1, a);
                assert forall|j: int| 0 <= j < before.len() implies !(settled - 1 < (
                #[trigger] before[j]).address@ <= a) by {
                    if j < i {
                        assert(before[j].address@ < settled);
                    } else {
                        assert(before[j].address@ >= x);
                    }
                }
                lemma_kind_unchanged(before, settled - 1, a);
            }
        }
    }
    if at_border {
        lemma_kind_between_borders(before, i, x);
    } else if i > 0 {
        assert(before[i - 1].address@ < settled);
        if i < before.len() {
            assert(before[i].address@ > x);
        }
        lemma_kind_between_borders(before, i - 1, x);
    } else {
        lemma_kind_below_every_border(before, x);
    }
    if full.len() > 0 {
        assert(full[full.len() - 1].address@ < settled);
    }
}

/// What is left of a sweep: the borders that it has made, with those that
/// it makes from here to its end.
pub open spec fn sweep_rest(
    before: Seq<PhysMemoryBorder>,
    kind: PhysMemoryKind,
    start: PhysAddr,
    end: PhysAddr,
    i: int,
    done_s: bool,
    done_e: bool,
    full: Seq<PhysMemoryBorder>,
) -> Seq<PhysMemoryBorder>
    decreases
            (before.len() - i) + (if done_s {
                0int
            } else {
                1int
            }) + (if done_e {
                0int
            } else {
                1int
            }),
{
    if i < 0 || i > before.len() || !(i < before.len() || !done_e) {
        full
    } else {
        let point = if !done_s {
            start@
        } else {
            end@
        };
        let at_border = i < before.len() && (done_e || before[i].address@ <= point);
        let x: u64 = if at_border {
            before[i].address@
        } else {
            point
        };
        let f = if at_border {
            before[i].kind
        } else if i > 0 {
            before[i - 1].kind
        } else {
            PhysMemoryKind::Absent
        };
        let g = if start@ <= x < end@ && f.rank() < kind.rank() {
            kind
        } else {
            f
        };
        sweep_rest(
            before,
            kind,
            start,
            end,
            if at_border {
                i + 1
            } else {
                i
            },
            done_s || x == start@,
            done_e || (done_s && x == end@),
            if g != last_kind_of(full) {
                full.push(PhysMemoryBorder { kind: g, address: PhysAddr::with_raw(x) })
            } else {
                full
            },
        )
    }
}

/// A sweep that is carried to its end makes the map that holds what the
/// map held and the region besides.
pub proof fn lemma_sweep_rest(
    before: Seq<PhysMemoryBorder>,
    full: Seq<PhysMemoryBorder>,
    kind: PhysMemoryKind,
    start: PhysAddr,
    end: PhysAddr,
    settled: int,
    i: int,
    done_s: bool,
    done_e: bool,
)
    requires
        sweep_inv(before, full, kind, start, end, settled, i, done_s, done_e),
    ensures
        is_merge(before, kind, start, end, sweep_rest(before, kind, start, end, i, done_s, done_e, full)),
    decreases
            (before.len() - i) + (if done_s {
                0int
            } else {
                1int
            }) + (if done_e {
                0int
            } else {
                1int
            }),
{
    assert(0 <= i <= before.len() && start@ < end@) by {
        reveal(sweep_inv);
    }
    if !(i < before.len() || !done_e) {
        lemma_sweep_ends(before, full, kind, start, end, settled, done_s);
    } else {
        let point = if !done_s {
            start@
        } else {
            end@
        };
        let at_border = i < before.len() && (done_e || before[i].address@ <= point);
        let x: u64 = if at_border {
            before[i].address@
        } else {
            point
        };
        let f = if at_border {
            before[i].kind
        } else if i > 0 {
            before[i - 1].kind
        } else {
            PhysMemoryKind::Absent
        };
        let g = if start@ <= x < end@ && f.rank() < kind.rank() {
            kind
        } else {
            f
        };
        lemma_sweep_step(before, full, kind, start, end, settled, i, done_s, done_e, x, at_border, f, g);
        assert((done_e || x == end@) == (done_e || (done_s && x == end@))) by {
            reveal(sweep_inv);
        }
        lemma_sweep_rest(
            before,
            if g != last_kind_of(full) {
                full.push(PhysMemoryBorder { kind: g, address: PhysAddr::with_raw(x) })
            } else {
                full
            },
            kind,
            start,
            end,
            x + 1,
            if at_border {
                i + 1
            } else {
                i
            },
            done_s || x == start@,
            done_e || (done_s && x == end@),
        );
    }
}

/// For every well-formed map and every region there is the map that holds
/// what the map held and the region besides.
pub proof fn lemma_merge_exists(
    b: Seq<PhysMemoryBorder>,
    kind: PhysMemoryKind,
    start: PhysAddr,
    end: PhysAddr,
)
    requires
        well_formed(b),
        start@ < end@,
    ensures
        is_merge(b, kind, start, end, merged(b, kind, start, end)),
{
    lemma_sweep_begins(b, kind, start, end);
    lemma_sweep_rest(b, Seq::empty(), kind, start, end, 0, 0, false, false);
}

/// Adding a region to a map and then adding it again answers as adding it
/// once, and leaves the map as adding it once does.
pub proof fn lemma_add_region_twice(
    b: Seq<PhysMemoryBorder>,
    cap: nat,
    kind: PhysMemoryKind,
    start: PhysAddr,
    end: PhysAddr,
)
    requires
        well_formed(b),
        add_region_spec(b, cap, kind, start, end).0 is Ok,
    ensures
        add_region_spec(add_region_spec(b, cap, kind, start, end).1, cap, kind, start, end)
            == add_region_spec(b, cap, kind, start, end),
        well_formed(add_region_spec(b, cap, kind, start, end).1),
{
    if kind == PhysMemoryKind::Absent {
        return ;
    }
    lemma_merge_exists(b, kind, start, end);
    let once = merged(b, kind, start, end);
    assert forall|a: int| #[trigger] kind_at(once, a) == merged_kind(once, kind, start, end, a) by {
        assert(kind_at(once, a) == merged_kind(b, kind, start, end, a));
        lemma_higher_kind_commutes(kind_at(b, a), kind, kind);
    }
    assert(is_merge(once, kind, start, end, once));
    lemma_merge_is_unique(once, kind, start, end, merged(once, kind, start, end), once);
}

/// Two regions that are added to a map one after the other leave the same
/// map whichever of the two is added first, if the map has the slots for
/// what each of them leaves and for what both leave.
pub proof fn lemma_add_regions_in_either_order(
    b: Seq<PhysMemoryBorder>,
    cap: nat,
    k1: PhysMemoryKind,
    s1: PhysAddr,
    e1: PhysAddr,
    k2: PhysMemoryKind,
    s2: PhysAddr,
    e2: PhysAddr,
)
    requires
        well_formed(b),
        k1 != PhysMemoryKind::Absent,
        k2 != PhysMemoryKind::Absent,
        add_region_spec(b, cap, k1, s1, e1).0 is Ok,
        add_region_spec(b, cap, k2, s2, e2).0 is Ok,
        add_region_spec(add_region_spec(b, cap, k1, s1, e1).1, cap, k2, s2, e2).0 is Ok,
    ensures
        add_region_spec(add_region_spec(b, cap, k1, s1, e1).1, cap, k2, s2, e2)
            == add_region_spec(add_region_spec(b, cap, k2, s2, e2).1, cap, k1, s1, e1),
{
    lemma_merge_exists(b, k1, s1, e1);
    lemma_merge_exists(b, k2, s2, e2);
    lemma_merge_exists(merged(b, k1, s1, e1), k2, s2, e2);
    lemma_merge_exists(merged(b, k2, s2, e2), k1, s1, e1);
    lemma_add_region_order(
        b,
        k1,
        s1,
        e1,
        k2,
        s2,
        e2,
        merged(b, k1, s1, e1),
        merged(merged(b, k1, s1, e1), k2, s2, e2),
        merged(b, k2, s2, e2),
        merged(merged(b, k2, s2, e2), k1, s1, e1),
    );
}

/// How far a sweep over the borders of a map and the two ends of a region
/// has come. Every address below `settled` has been dealt with: the first
/// `i` borders of the map lie below it and the others do not, an end of the
/// region is done with if it lies below it, and the borders `full`, which
/// ascend and are merged and lie below it, say of every address below it
/// what is to hold of that address.
#[verifier::opaque]
pub open spec fn sweep_inv(
    before: Seq<PhysMemoryBorder>,
    full: Seq<PhysMemoryBorder>,
    kind: PhysMemoryKind,
    start: PhysAddr,
    end: PhysAddr,
    settled: int,
    i: int,
    done_s: bool,
    done_e: bool,
) -> bool {
    &&& well_formed(before)
    &&& start@ < end@
    &&& 0 <= i <= before.len()
    &&& settled >= 0
    &&& forall|j: int| 0 <= j < i ==> (#[trigger] before[j]).address@ < settled
    &&& forall|j: int| i <= j < before.len() ==> (#[trigger] before[j]).address@ >= settled
    &&& done_s <==> start@ < settled
    &&& done_e <==> end@ < settled
    &&& is_canonical(full)
    &&& forall|j: int| 0 <= j < full.len() ==> (#[trigger] full[j]).address@ < settled
    &&& forall|a: int|
        a < settled ==> #[trigger] kind_at(full, a) == merged_kind(before, kind, start, end, a)
}

/// The kind of the last border, or no kind where there is no border.
pub open spec fn last_kind_of(full: Seq<PhysMemoryBorder>) -> PhysMemoryKind {
    if full.len() > 0 {
        full.last().kind
    } else {
        PhysMemoryKind::Absent
    }
}

/// A sweep starts with nothing dealt with and no border made.
pub proof fn lemma_sweep_begins(before: Seq<PhysMemoryBorder>, kind: PhysMemoryKind, start: PhysAddr, end: PhysAddr)
    requires
        well_formed(before),
        start@ < end@,
    ensures
        sweep_inv(before, Seq::empty(), kind, start, end, 0, 0, false, false),
{
    reveal(sweep_inv);
    lemma_sweep_starts(before, kind, start, end);
}

/// One step of a sweep. The next address at which anything can change is
/// `x`: the address of border `i` of the map, if that is not above the
/// next end of the region, or else that end. What is to hold from `x` on is
/// `g`: the kind that the map has there, or the kind of the region if `x`
/// lies in the region and the region outranks the map there. A border is
/// made at `x` if `g` is not what held before. After that, every address
/// up to `x` has been dealt with.
pub proof fn lemma_sweep_step(
    before: Seq<PhysMemoryBorder>,
    full: Seq<PhysMemoryBorder>,
    kind: PhysMemoryKind,
    start: PhysAddr,
    end: PhysAddr,
    settled: int,
    i: int,
    done_s: bool,
    done_e: bool,
    x: u64,
    at_border: bool,
    f: PhysMemoryKind,
    g: PhysMemoryKind,
)
    requires
        sweep_inv(before, full, kind, start, end, settled, i, done_s, done_e),
        i < before.len() || !done_e,
        at_border <==> i < before.len() && (done_e || before[i].address@ <= if !done_s {
            start@
        } else {
            end@
        }),
        x == if at_border {
            before[i].address@
        } else if !done_s {
            start@
        } else {
            end@
        },
        f == if at_border {
            before[i].kind
        } else if i > 0 {
            before[i - 1].kind
        } else {
            PhysMemoryKind::Absent
        },
        g == if start@ <= x < end@ && f.rank() < kind.rank() {
            kind
        } else {
            f
        },
    ensures
        sweep_inv(
            before,
            if g != last_kind_of(full) {
                full.push(PhysMemoryBorder { kind: g, address: PhysAddr::with_raw(x) })
            } else {
                full
            },
            kind,
            start,
            end,
            x + 1,
            if at_border {
                i + 1
            } else {
                i
            },
            done_s || x == start@,
            done_e || x == end@,
        ),
        g != last_kind_of(full) ==> last_kind_of(
            full.push(PhysMemoryBorder { kind: g, address: PhysAddr::with_raw(x) }),
        ) == g,
        at_border || !done_s || !done_e,
        !done_s ==> x <= start@,
        !done_e ==> x <= end@,
{
    reveal(sweep_inv);
    if at_border {
        assert(before[i].address@ >= settled);
        assert forall|j: int| i < j < before.len() implies (#[trigger] before[j]).address@ > x by {
            assert(before[i].address@ < before[j].address@);
        }
    } else {
        assert forall|j: int| i <= j < before.len() implies (#[trigger] before[j]).address@ > x by {
            assert(before[i].address@ <= before[j].address@);
        }
    }
    lemma_settle(before, full, kind, start, end, settled, x as int, i, at_border);
    assert(g == merged_kind(before, kind, start, end, x as int));
    let border = PhysMemoryBorder { kind: g, address: PhysAddr::with_raw(x) };
    PhysAddr::<crate::addr::Unaligned>::lemma_with_raw(x);
    if g != last_kind_of(full) {
        lemma_append_border(full, border, settled);
        assert(full.push(border).last() == border);
    }
}

/// The end of a sweep: once every border of the map and both ends of the
/// region have been dealt with, the borders that the sweep has made are the
/// map that holds what the map held and the region besides.
pub proof fn lemma_sweep_ends(
    before: Seq<PhysMemoryBorder>,
    full: Seq<PhysMemoryBorder>,
    kind: PhysMemoryKind,
    start: PhysAddr,
    end: PhysAddr,
    settled: int,
    done_s: bool,
)
    requires
        sweep_inv(before, full, kind, start, end, settled, before.len() as int, done_s, true),
    ensures
        is_merge(before, kind, start, end, full),
{
    reveal(sweep_inv);
    lemma_sweep_is_done(before, full, kind, start, end, settled);
}

/// In a map whose borders ascend and whose last border opens no region,
/// the regions from a slot on take up no more bytes than lie between the
/// border in that slot and the last border.
pub proof fn lemma_total_bytes_bound(
    b: Seq<PhysMemoryBorder>,
    cap: nat,
    idx: nat,
    kinds: Set<PhysMemoryKind>,
)
    requires
        borders_ascend(b),
        is_terminated(b),
        idx < b.len(),
    ensures
        0 <= total_bytes(regions_from(b, cap, idx), kinds) <= b.last().address@ - b[idx as int].address@,
    decreases b.len() - idx,
{
    let here = b[idx as int];
    let rest = regions_from(b, cap, idx + 1);
    assert(here.address@ <= b.last().address@);
    if idx + 1 < b.len() {
        lemma_total_bytes_bound(b, cap, idx + 1, kinds);
        assert(here.address@ < b[(idx + 1) as int].address@);
    } else {
        assert(here == b.last());
        assert(rest =~= Seq::<PhysMemoryEntry>::empty());
    }
    if idx + 1 >= cap {
        assert(regions_from(b, cap, idx) =~= Seq::<PhysMemoryEntry>::empty());
    } else if here.kind != PhysMemoryKind::Absent {
        let first = seq![region_at(b, idx as int)];
        lemma_total_bytes_concat(first, rest, kinds);
        assert(first.drop_last() =~= Seq::<PhysMemoryEntry>::empty());
        assert(first.last() == region_at(b, idx as int));
        assert(total_bytes(first.drop_last(), kinds) == 0);
        assert(region_bytes(region_at(b, idx as int)) >= 0);
        assert(total_bytes(first, kinds) <= region_bytes(region_at(b, idx as int)));
        assert(idx + 1 < b.len());
        assert(region_bytes(region_at(b, idx as int)) == b[(idx + 1) as int].address@ - here.address@);
    }
}

/// In a map whose borders ascend and whose last border opens no region,
/// the bytes of the regions of whatever kinds can be counted in 64 bits.
pub proof fn lemma_total_bytes_fit(b: Seq<PhysMemoryBorder>, cap: nat, kinds: Set<PhysMemoryKind>)
    requires
        borders_ascend(b),
        is_terminated(b),
    ensures
        0 <= total_bytes(regions_from(b, cap, 0), kinds) <= u64::MAX,
{
    if b.len() > 0 {
        lemma_total_bytes_bound(b, cap, 0, kinds);
    }
}

} // verus!
