use vstd::prelude::*;
use crate::memory::{MemoryAllocation, ReservedMemoryRegion, regions_of};

verus! {

/// A change to the allocations of a process that brings them back to a
/// saved layout.
#[derive(Clone, Copy, Debug, PartialEq, Eq, Structural)]
pub enum AllocationChange {
    /// Release the allocation that starts at `address`.
    Free { address: usize },
    /// Reserve `size` bytes at `address`.
    Allocate { address: usize, size: usize },
}

/// The (address, size) extent of each allocation.
pub open spec fn extents(allocations: Seq<MemoryAllocation>) -> Seq<(usize, usize)> {
    allocations.map_values(|a: MemoryAllocation| (a.address, a.size))
}

/// The end address of an extent.
pub open spec fn end_of(extent: (usize, usize)) -> int {
    extent.0 + extent.1
}

/// The changes that bring the `current` allocations to the `saved` ones, by a
/// single ordered walk over both lists: equal extents are kept; a current
/// allocation that starts before the end of the next saved one is freed; a
/// current allocation left over after the saved ones is freed; otherwise the
/// next saved allocation is reserved.
pub open spec fn sync_plan(current: Seq<(usize, usize)>, saved: Seq<(usize, usize)>) -> Seq<AllocationChange>
    decreases current.len() + saved.len(),
{
    if current.len() == 0 && saved.len() == 0 {
        Seq::empty()
    } else if current.len() > 0 && saved.len() > 0 && current[0] == saved[0] {
        sync_plan(current.drop_first(), saved.drop_first())
    } else if current.len() > 0 && (saved.len() == 0 || current[0].0 < end_of(saved[0])) {
        seq![AllocationChange::Free { address: current[0].0 }] + sync_plan(current.drop_first(), saved)
    } else {
        seq![AllocationChange::Allocate { address: saved[0].0, size: saved[0].1 }] + sync_plan(
            current,
            saved.drop_first(),
        )
    }
}

/// Computes the changes that restore the saved allocation layout (see
/// `sync_plan`).
pub fn plan_allocation_changes(current: &Vec<MemoryAllocation>, saved: &Vec<MemoryAllocation>) -> (changes: Vec<AllocationChange>)
    requires
        forall|j: int| 0 <= j < saved@.len() ==> #[trigger] end_of((saved@[j].address, saved@[j].size)) <= usize::MAX,
    ensures
        changes@ == sync_plan(extents(current@), extents(saved@)),
{
    let ghost cur = extents(current@);
    let ghost sav = extents(saved@);
    let mut changes: Vec<AllocationChange> = Vec::new();
    let mut i: usize = 0;
    let mut j: usize = 0;
    assert(cur.skip(0) =~= cur);
    assert(sav.skip(0) =~= sav);
    assert(changes@ + sync_plan(cur, sav) =~= sync_plan(cur, sav));
    while i < current.len() || j < saved.len()
        invariant
            i <= current@.len(),
            j <= saved@.len(),
            cur == extents(current@),
            sav == extents(saved@),
            forall|k: int| 0 <= k < saved@.len() ==> #[trigger] end_of((saved@[k].address, saved@[k].size)) <= usize::MAX,
            changes@ + sync_plan(cur.skip(i as int), sav.skip(j as int)) == sync_plan(cur, sav),
        decreases current@.len() + saved@.len() - i - j,
    {
        let ghost c = cur.skip(i as int);
        let ghost s = sav.skip(j as int);
        let ghost prev = changes@;
        if i < current.len() && j < saved.len() && current[i].address == saved[j].address
            && current[i].size == saved[j].size {
            assert(c[0] == s[0]);
            assert(c.drop_first() =~= cur.skip(i + 1));
            assert(s.drop_first() =~= sav.skip(j + 1));
            i = i + 1;
            j = j + 1;
        } else if i < current.len() && (j >= saved.len() || current[i].address
            < saved[j].address + saved[j].size) {
            proof {
                if j < saved@.len() {
                    assert(end_of((saved@[j as int].address, saved@[j as int].size)) <= usize::MAX);
                }
            }
            changes.push(AllocationChange::Free { address: current[i].address });
            assert(c.drop_first() =~= cur.skip(i + 1));
            assert(changes@ + sync_plan(cur.skip(i + 1), s) =~= prev + sync_plan(c, s));
            i = i + 1;
        } else {
            changes.push(AllocationChange::Allocate { address: saved[j].address, size: saved[j].size });
            assert(s.drop_first() =~= sav.skip(j + 1));
            assert(changes@ + sync_plan(c, sav.skip(j + 1)) =~= prev + sync_plan(c, s));
            j = j + 1;
        }
    }
    assert(changes@ + sync_plan(cur.skip(i as int), sav.skip(j as int)) =~= changes@);
    changes
}

/// Extents that are positive and in increasing, non-overlapping order, as a
/// walk over the address space yields them.
pub open spec fn is_ordered_layout(extents: Seq<(usize, usize)>) -> bool {
    &&& forall|i: int| 0 <= i < extents.len() ==> (#[trigger] extents[i]).1 > 0
    &&& forall|i: int, j: int|
        0 <= i < j < extents.len() ==> end_of(#[trigger] extents[i]) <= (#[trigger] extents[j]).0
}

/// The extents of `xs` that do not occur in `ys`, in order.
pub open spec fn missing_from(xs: Seq<(usize, usize)>, ys: Seq<(usize, usize)>) -> Seq<(usize, usize)>
    decreases xs.len(),
{
    if xs.len() == 0 {
        Seq::empty()
    } else if ys.contains(xs[0]) {
        missing_from(xs.drop_first(), ys)
    } else {
        seq![xs[0]] + missing_from(xs.drop_first(), ys)
    }
}

/// The addresses that a plan frees, in order.
pub open spec fn freed_addresses(plan: Seq<AllocationChange>) -> Seq<usize>
    decreases plan.len(),
{
    if plan.len() == 0 {
        Seq::empty()
    } else {
        match plan[0] {
            AllocationChange::Free { address } => seq![address] + freed_addresses(plan.drop_first()),
            AllocationChange::Allocate { .. } => freed_addresses(plan.drop_first()),
        }
    }
}

/// The extents that a plan reserves, in order.
pub open spec fn allocated_extents(plan: Seq<AllocationChange>) -> Seq<(usize, usize)>
    decreases plan.len(),
{
    if plan.len() == 0 {
        Seq::empty()
    } else {
        match plan[0] {
            AllocationChange::Free { .. } => allocated_extents(plan.drop_first()),
            AllocationChange::Allocate { address, size } => seq![(address, size)]
                + allocated_extents(plan.drop_first()),
        }
    }
}

pub open spec fn addresses(extents: Seq<(usize, usize)>) -> Seq<usize> {
    extents.map_values(|e: (usize, usize)| e.0)
}

proof fn lemma_freed_prepend(change: AllocationChange, rest: Seq<AllocationChange>)
    ensures
        freed_addresses(seq![change] + rest) == match change {
            AllocationChange::Free { address } => seq![address] + freed_addresses(rest),
            AllocationChange::Allocate { .. } => freed_addresses(rest),
        },
        allocated_extents(seq![change] + rest) == match change {
            AllocationChange::Free { .. } => allocated_extents(rest),
            AllocationChange::Allocate { address, size } => seq![(address, size)] + allocated_extents(rest),
        },
{
    assert((seq![change] + rest).drop_first() =~= rest);
}

proof fn lemma_ordered_drop_first(s: Seq<(usize, usize)>)
    requires
        is_ordered_layout(s),
        s.len() > 0,
    ensures
        is_ordered_layout(s.drop_first()),
        forall|k: int| 0 <= k < s.drop_first().len() ==> end_of(s[0]) <= (#[trigger] s.drop_first()[k]).0,
{
    assert forall|k: int| 0 <= k < s.drop_first().len() implies end_of(s[0]) <= (#[trigger] s.drop_first()[k]).0 by {
        assert(s.drop_first()[k] == s[k + 1]);
    }
    assert forall|a: int, b: int| 0 <= a < b < s.drop_first().len() implies end_of(#[trigger] s.drop_first()[a]) <= (#[trigger] s.drop_first()[b]).0 by {
        assert(s.drop_first()[a] == s[a + 1]);
        assert(s.drop_first()[b] == s[b + 1]);
    }
}

/// Removing from `ys` an element that no element of `xs` equals leaves
/// `missing_from(xs, ys)` unchanged.
proof fn lemma_missing_from_drop_unrelated(xs: Seq<(usize, usize)>, ys: Seq<(usize, usize)>)
    requires
        ys.len() > 0,
        !xs.contains(ys[0]),
    ensures
        missing_from(xs, ys.drop_first()) == missing_from(xs, ys),
    decreases xs.len(),
{
    if xs.len() > 0 {
        assert(xs.drop_first().len() < xs.len());
        assert forall|k: int| 0 <= k < xs.drop_first().len() implies xs.drop_first()[k] != ys[0] by {
            assert(xs.drop_first()[k] == xs[k + 1]);
            assert(xs.contains(xs[k + 1]));
        }
        assert(!xs.drop_first().contains(ys[0]));
        lemma_missing_from_drop_unrelated(xs.drop_first(), ys);
        assert(xs[0] != ys[0]) by {
            assert(xs.contains(xs[0]));
        }
        assert(ys.contains(xs[0]) == ys.drop_first().contains(xs[0])) by {
            if ys.contains(xs[0]) {
                let k = choose|k: int| 0 <= k < ys.len() && ys[k] == xs[0];
                assert(k != 0);
                assert(ys.drop_first()[k - 1] == xs[0]);
            }
            if ys.drop_first().contains(xs[0]) {
                let k = choose|k: int| 0 <= k < ys.drop_first().len() && ys.drop_first()[k] == xs[0];
                assert(ys[k + 1] == xs[0]);
            }
        }
    }
}

/// Restoring allocations frees exactly the current allocations that are not
/// saved and reserves exactly the saved allocations that are not current,
/// each in address order, when both lists come from walks over an address
/// space (positive extents in increasing, disjoint order).
pub proof fn lemma_sync_plan_restores_layout(current: Seq<(usize, usize)>, saved: Seq<(usize, usize)>)
    requires
        is_ordered_layout(current),
        is_ordered_layout(saved),
    ensures
        freed_addresses(sync_plan(current, saved)) == addresses(missing_from(current, saved)),
        allocated_extents(sync_plan(current, saved)) == missing_from(saved, current),
    decreases current.len() + saved.len(),
{
    if current.len() == 0 && saved.len() == 0 {
        assert(addresses(missing_from(current, saved)) =~= Seq::<usize>::empty());
    } else if current.len() > 0 && saved.len() > 0 && current[0] == saved[0] {
        lemma_ordered_drop_first(current);
        lemma_ordered_drop_first(saved);
        lemma_sync_plan_restores_layout(current.drop_first(), saved.drop_first());
        // current[0] is saved, and no later current allocation equals saved[0]
        assert(saved.contains(current[0])) by { assert(saved[0] == current[0]); }
        assert(current.contains(saved[0])) by { assert(current[0] == saved[0]); }
        assert(!current.drop_first().contains(saved[0])) by {
            if current.drop_first().contains(saved[0]) {
                let k = choose|k: int| 0 <= k < current.drop_first().len() && current.drop_first()[k] == saved[0];
                assert(end_of(current[0]) <= current.drop_first()[k].0);
            }
        }
        assert(!saved.drop_first().contains(current[0])) by {
            if saved.drop_first().contains(current[0]) {
                let k = choose|k: int| 0 <= k < saved.drop_first().len() && saved.drop_first()[k] == current[0];
                assert(end_of(saved[0]) <= saved.drop_first()[k].0);
            }
        }
        lemma_missing_from_drop_unrelated(current.drop_first(), saved);
        lemma_missing_from_drop_unrelated(saved.drop_first(), current);
        assert(missing_from(current, saved) == missing_from(current.drop_first(), saved));
        assert(missing_from(saved, current) == missing_from(saved.drop_first(), current));
    } else if current.len() > 0 && (saved.len() == 0 || current[0].0 < end_of(saved[0])) {
        lemma_ordered_drop_first(current);
        lemma_sync_plan_restores_layout(current.drop_first(), saved);
        lemma_freed_prepend(AllocationChange::Free { address: current[0].0 }, sync_plan(current.drop_first(), saved));
        assert(!saved.contains(current[0])) by {
            if saved.contains(current[0]) {
                let k = choose|k: int| 0 <= k < saved.len() && saved[k] == current[0];
                if k > 0 {
                    assert(end_of(saved[0]) <= saved[k].0);
                }
            }
        }
        assert(!current.drop_first().contains(current[0])) by {
            if current.drop_first().contains(current[0]) {
                let k = choose|k: int| 0 <= k < current.drop_first().len() && current.drop_first()[k] == current[0];
                assert(end_of(current[0]) <= current.drop_first()[k].0);
            }
        }
        // dropping current[0] does not change which saved extents are missing
        assert(current.drop_first() =~= seq![current[0]].drop_first() + current.drop_first());
        lemma_missing_from_current_drop(saved, current);
        assert(addresses(missing_from(current, saved)) =~= seq![current[0].0] + addresses(missing_from(current.drop_first(), saved)));
    } else {
        lemma_ordered_drop_first(saved);
        lemma_sync_plan_restores_layout(current, saved.drop_first());
        lemma_freed_prepend(AllocationChange::Allocate { address: saved[0].0, size: saved[0].1 }, sync_plan(current, saved.drop_first()));
        assert(!current.contains(saved[0])) by {
            if current.contains(saved[0]) {
                let k = choose|k: int| 0 <= k < current.len() && current[k] == saved[0];
                if k > 0 {
                    assert(end_of(current[0]) <= current[k].0);
                }
            }
        }
        assert(!saved.drop_first().contains(saved[0])) by {
            if saved.drop_first().contains(saved[0]) {
                let k = choose|k: int| 0 <= k < saved.drop_first().len() && saved.drop_first()[k] == saved[0];
                assert(end_of(saved[0]) <= saved.drop_first()[k].0);
            }
        }
        lemma_missing_from_drop_unrelated(current, saved);
        assert((seq![saved[0]] + missing_from(saved.drop_first(), current)) =~= missing_from(saved, current));
    }
}

/// `missing_from(ys, xs)` does not change when `xs` loses a first element
/// that `ys` does not hold.
proof fn lemma_missing_from_current_drop(ys: Seq<(usize, usize)>, xs: Seq<(usize, usize)>)
    requires
        xs.len() > 0,
        !ys.contains(xs[0]),
    ensures
        missing_from(ys, xs.drop_first()) == missing_from(ys, xs),
    decreases ys.len(),
{
    if ys.len() > 0 {
        assert forall|k: int| 0 <= k < ys.drop_first().len() implies ys.drop_first()[k] != xs[0] by {
            assert(ys.drop_first()[k] == ys[k + 1]);
            assert(ys.contains(ys[k + 1]));
        }
        lemma_missing_from_current_drop(ys.drop_first(), xs);
        assert(ys[0] != xs[0]) by {
            assert(ys.contains(ys[0]));
        }
        assert(xs.contains(ys[0]) == xs.drop_first().contains(ys[0])) by {
            if xs.contains(ys[0]) {
                let k = choose|k: int| 0 <= k < xs.len() && xs[k] == ys[0];
                assert(k != 0);
                assert(xs.drop_first()[k - 1] == ys[0]);
            }
            if xs.drop_first().contains(ys[0]) {
                let k = choose|k: int| 0 <= k < xs.drop_first().len() && xs.drop_first()[k] == ys[0];
                assert(xs[k + 1] == ys[0]);
            }
        }
    }
}

/// The extents of a layout after a plan has run on it: those whose address
/// the plan does not free, and those it reserves.
pub open spec fn layout_after(current: Seq<(usize, usize)>, plan: Seq<AllocationChange>) -> Set<
    (usize, usize),
> {
    current.to_set().filter(|e: (usize, usize)| !freed_addresses(plan).contains(e.0)).union(
        allocated_extents(plan).to_set(),
    )
}

proof fn lemma_missing_from_contains(xs: Seq<(usize, usize)>, ys: Seq<(usize, usize)>, e: (usize, usize))
    ensures
        missing_from(xs, ys).contains(e) <==> (xs.contains(e) && !ys.contains(e)),
    decreases xs.len(),
{
    if xs.len() > 0 {
        lemma_missing_from_contains(xs.drop_first(), ys, e);
        let rest = missing_from(xs.drop_first(), ys);
        if xs.drop_first().contains(e) {
            let k = choose|k: int| 0 <= k < xs.drop_first().len() && xs.drop_first()[k] == e;
            assert(xs[k + 1] == e);
        }
        if xs.contains(e) && xs[0] != e {
            let k = choose|k: int| 0 <= k < xs.len() && xs[k] == e;
            assert(xs.drop_first()[k - 1] == e);
        }
        if !ys.contains(xs[0]) {
            let m = seq![xs[0]] + rest;
            assert(m[0] == xs[0]);
            if rest.contains(e) {
                let k = choose|k: int| 0 <= k < rest.len() && rest[k] == e;
                assert(m[k + 1] == e);
            }
            if m.contains(e) && e != xs[0] {
                let k = choose|k: int| 0 <= k < m.len() && m[k] == e;
                assert(rest[k - 1] == e);
            }
        }
    }
}

proof fn lemma_addresses_contains(extents: Seq<(usize, usize)>, a: usize)
    ensures
        addresses(extents).contains(a) <==> exists|k: int| 0 <= k < extents.len() && (
        #[trigger] extents[k]).0 == a,
{
    if addresses(extents).contains(a) {
        let k = choose|k: int| 0 <= k < addresses(extents).len() && addresses(extents)[k] == a;
        assert(extents[k].0 == a);
    }
    if exists|k: int| 0 <= k < extents.len() && (#[trigger] extents[k]).0 == a {
        let k = choose|k: int| 0 <= k < extents.len() && (#[trigger] extents[k]).0 == a;
        assert(addresses(extents)[k] == a);
    }
}

/// Running the plan on the current layout gives the saved layout: every
/// current allocation that is not saved is freed, every saved one that is
/// not current is reserved, and the others stay, for layouts that come from
/// walks over an address space.
pub proof fn lemma_restored_layout_is_saved(current: Seq<(usize, usize)>, saved: Seq<(usize, usize)>)
    requires
        is_ordered_layout(current),
        is_ordered_layout(saved),
    ensures
        layout_after(current, sync_plan(current, saved)) == saved.to_set(),
{
    let plan = sync_plan(current, saved);
    lemma_sync_plan_restores_layout(current, saved);
    let result = layout_after(current, plan);
    assert forall|e: (usize, usize)| result.contains(e) <==> saved.to_set().contains(e) by {
        lemma_missing_from_contains(saved, current, e);
        lemma_missing_from_contains(current, saved, e);
        lemma_addresses_contains(missing_from(current, saved), e.0);
        if current.contains(e) && !saved.contains(e) {
            let k = choose|k: int| 0 <= k < current.len() && current[k] == e;
            assert(missing_from(current, saved).contains(e));
            let m = choose|m: int| 0 <= m < missing_from(current, saved).len() && missing_from(current, saved)[m] == e;
            assert(missing_from(current, saved)[m].0 == e.0);
        }
        if current.contains(e) && saved.contains(e) && freed_addresses(plan).contains(e.0) {
            let m = choose|m: int|
                0 <= m < missing_from(current, saved).len() && (#[trigger] missing_from(
                    current,
                    saved,
                )[m]).0 == e.0;
            let f = missing_from(current, saved)[m];
            assert(missing_from(current, saved).contains(f));
            lemma_missing_from_contains(current, saved, f);
            let i = choose|i: int| 0 <= i < current.len() && current[i] == e;
            let j = choose|j: int| 0 <= j < current.len() && current[j] == f;
            if i < j {
                assert(end_of(current[i]) <= current[j].0);
            } else if j < i {
                assert(end_of(current[j]) <= current[i].0);
            }
            assert(f == e);
        }
    }
    assert(result =~= saved.to_set());
}

/// Two extents share an address.
pub open spec fn overlaps(x: (usize, usize), y: (usize, usize)) -> bool {
    x.0 < end_of(y) && y.0 < end_of(x)
}

/// The plan frees before it reserves: every extent that it reserves is a
/// saved one, and no current allocation that the plan has not yet freed at
/// that point overlaps it, so the system never refuses a reservation because
/// an old allocation is in the way (for layouts from walks over an address
/// space).
pub proof fn lemma_sync_plan_frees_before_allocating(
    current: Seq<(usize, usize)>,
    saved: Seq<(usize, usize)>,
    k: int,
    i: int,
)
    requires
        is_ordered_layout(current),
        is_ordered_layout(saved),
        0 <= k < sync_plan(current, saved).len(),
        sync_plan(current, saved)[k] is Allocate,
        0 <= i < current.len(),
        !freed_addresses(sync_plan(current, saved).take(k)).contains(current[i].0),
    ensures
        ({
            let change = sync_plan(current, saved)[k];
            let extent = (change->Allocate_address, change->Allocate_size);
            &&& saved.contains(extent)
            &&& !overlaps(current[i], extent)
        }),
    decreases current.len() + saved.len(),
{
    let plan = sync_plan(current, saved);
    let change = plan[k];
    let extent = (change->Allocate_address, change->Allocate_size);
    if current.len() > 0 && saved.len() > 0 && current[0] == saved[0] {
        lemma_ordered_drop_first(current);
        lemma_ordered_drop_first(saved);
        let sub = sync_plan(current.drop_first(), saved.drop_first());
        assert(plan == sub);
        if i == 0 {
            // The extent is a later saved one, which lies past this one.
            lemma_sync_plan_reserves_saved(current.drop_first(), saved.drop_first(), k);
            let j = choose|j: int| 0 <= j < saved.drop_first().len() && saved.drop_first()[j]
                == extent;
            assert(end_of(saved[0]) <= saved.drop_first()[j].0);
            assert(saved[j + 1] == extent);
        } else {
            assert(current.drop_first()[i - 1] == current[i]);
            lemma_sync_plan_frees_before_allocating(
                current.drop_first(),
                saved.drop_first(),
                k,
                i - 1,
            );
            let j = choose|j: int| 0 <= j < saved.drop_first().len() && saved.drop_first()[j]
                == extent;
            assert(saved[j + 1] == extent);
        }
    } else if current.len() > 0 && (saved.len() == 0 || current[0].0 < end_of(saved[0])) {
        lemma_ordered_drop_first(current);
        let sub = sync_plan(current.drop_first(), saved);
        let free = AllocationChange::Free { address: current[0].0 };
        assert(plan == seq![free] + sub);
        assert(k > 0);
        assert(plan.take(k) =~= seq![free] + sub.take(k - 1));
        lemma_freed_prepend(free, sub.take(k - 1));
        let freed = freed_addresses(plan.take(k));
        let rest = freed_addresses(sub.take(k - 1));
        assert(freed == seq![current[0].0] + rest);
        assert(freed[0] == current[0].0);
        assert(i != 0);
        assert(!rest.contains(current[i].0)) by {
            if rest.contains(current[i].0) {
                let m = choose|m: int| 0 <= m < rest.len() && rest[m] == current[i].0;
                assert(freed[m + 1] == current[i].0);
            }
        }
        assert(current.drop_first()[i - 1] == current[i]);
        assert(plan[k] == sub[k - 1]);
        lemma_sync_plan_frees_before_allocating(current.drop_first(), saved, k - 1, i - 1);
    } else {
        lemma_ordered_drop_first(saved);
        let sub = sync_plan(current, saved.drop_first());
        let allocate = AllocationChange::Allocate { address: saved[0].0, size: saved[0].1 };
        assert(plan == seq![allocate] + sub);
        if k == 0 {
            assert(extent == saved[0]);
            assert(saved.contains(saved[0]));
            if i > 0 {
                assert(end_of(current[0]) <= current[i].0);
            }
        } else {
            assert(plan.take(k) =~= seq![allocate] + sub.take(k - 1));
            lemma_freed_prepend(allocate, sub.take(k - 1));
            assert(plan[k] == sub[k - 1]);
            lemma_sync_plan_frees_before_allocating(current, saved.drop_first(), k - 1, i);
            let j = choose|j: int| 0 <= j < saved.drop_first().len() && saved.drop_first()[j]
                == extent;
            assert(saved[j + 1] == extent);
        }
    }
}

/// Every extent that the plan reserves is a saved one.
proof fn lemma_sync_plan_reserves_saved(current: Seq<(usize, usize)>, saved: Seq<(usize, usize)>, k: int)
    requires
        0 <= k < sync_plan(current, saved).len(),
        sync_plan(current, saved)[k] is Allocate,
    ensures
        saved.contains(
            (sync_plan(current, saved)[k]->Allocate_address, sync_plan(current, saved)[k]->Allocate_size),
        ),
    decreases current.len() + saved.len(),
{
    let plan = sync_plan(current, saved);
    let extent = (plan[k]->Allocate_address, plan[k]->Allocate_size);
    if current.len() > 0 && saved.len() > 0 && current[0] == saved[0] {
        lemma_sync_plan_reserves_saved(current.drop_first(), saved.drop_first(), k);
        let j = choose|j: int| 0 <= j < saved.drop_first().len() && saved.drop_first()[j] == extent;
        assert(saved[j + 1] == extent);
    } else if current.len() > 0 && (saved.len() == 0 || current[0].0 < end_of(saved[0])) {
        let sub = sync_plan(current.drop_first(), saved);
        assert(plan[k] == sub[k - 1]);
        lemma_sync_plan_reserves_saved(current.drop_first(), saved, k - 1);
    } else {
        let sub = sync_plan(current, saved.drop_first());
        if k == 0 {
            assert(saved[0] == extent);
        } else {
            assert(plan[k] == sub[k - 1]);
            lemma_sync_plan_reserves_saved(current, saved.drop_first(), k - 1);
            let j = choose|j: int| 0 <= j < saved.drop_first().len() && saved.drop_first()[j]
                == extent;
            assert(saved[j + 1] == extent);
        }
    }
}

/// A region is saved when it is committed and is not a guard page.
pub open spec fn is_saved_region(region: ReservedMemoryRegion) -> bool {
    region.is_committed && !region.permissions.is_guard
}

/// The (address, size) of each region to save, in order.
pub open spec fn saved_region_extents(regions: Seq<ReservedMemoryRegion>) -> Seq<(usize, usize)>
    decreases regions.len(),
{
    if regions.len() == 0 {
        Seq::empty()
    } else if is_saved_region(regions.last()) {
        saved_region_extents(regions.drop_last()) + seq![(regions.last().address, regions.last().size)]
    } else {
        saved_region_extents(regions.drop_last())
    }
}

/// The regions whose contents a saved state keeps: the committed regions that
/// are not guard pages, over all allocations in order.
pub fn regions_to_save(allocations: &Vec<MemoryAllocation>) -> (extents: Vec<(usize, usize)>)
    ensures
        extents@ == saved_region_extents(regions_of(allocations@)),
{
    let mut extents: Vec<(usize, usize)> = Vec::new();
    let mut i: usize = 0;
    while i < allocations.len()
        invariant
            i <= allocations@.len(),
            extents@ == saved_region_extents(regions_of(allocations@.take(i as int))),
        decreases allocations@.len() - i,
    {
        let regions = &allocations[i].regions;
        let ghost base = regions_of(allocations@.take(i as int));
        let mut j: usize = 0;
        while j < regions.len()
            invariant
                j <= regions@.len(),
                regions@ == allocations@[i as int].regions@,
                extents@ == saved_region_extents(base + regions@.take(j as int)),
            decreases regions@.len() - j,
        {
            assert((base + regions@.take(j + 1)).drop_last() =~= base + regions@.take(j as int));
            let region = regions[j];
            if region.is_committed && !region.permissions.is_guard {
                extents.push((region.address, region.size));
            }
            j = j + 1;
        }
        assert(allocations@.take(i + 1).drop_last() =~= allocations@.take(i as int));
        assert(regions@.take(j as int) =~= regions@);
        i = i + 1;
    }
    assert(allocations@.take(i as int) =~= allocations@);
    extents
}

/// A saved region's protection is set again when the region now at its
/// address differs from it in address, size or protection.
pub fn permissions_need_update(current: &ReservedMemoryRegion, saved: &ReservedMemoryRegion) -> (update: bool)
    ensures
        update == (current.address != saved.address || current.size != saved.size
            || current.permissions != saved.permissions),
{
    current.address != saved.address || current.size != saved.size
        || current.permissions != saved.permissions
}

} // verus!
