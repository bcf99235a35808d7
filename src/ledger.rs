use vstd::prelude::*;
use crate::permit::PermitRegistry;
use crate::state::Subscription;

verus! {

/// Sum of the slices of `live`.
pub open spec fn sum_allowance(live: Seq<Subscription>) -> int
    decreases live.len(),
{
    if live.len() == 0 {
        0
    } else {
        sum_allowance(live.drop_last()) + live.last().allowance
    }
}

/// Sum of what the subscriptions of `live` have drawn.
pub open spec fn sum_used(live: Seq<Subscription>) -> int
    decreases live.len(),
{
    if live.len() == 0 {
        0
    } else {
        sum_used(live.drop_last()) + live.last().used_allowance
    }
}

/// The registry accounts for exactly the live subscriptions of its pair.
pub open spec fn pool_consistent(registry: PermitRegistry, live: Seq<Subscription>) -> bool {
    &&& registry.total_allowance == sum_allowance(live)
    &&& registry.total_used == sum_used(live)
    &&& forall|i: int| 0 <= i < live.len() ==> #[trigger] live[i].wf()
}

/// `after` is `before` with the slice of `s` added.
pub open spec fn slice_added(before: PermitRegistry, after: PermitRegistry, s: Subscription) -> bool {
    &&& after.total_allowance == before.total_allowance + s.allowance
    &&& after.total_used == before.total_used + s.used_allowance
}

/// `after` is `before` with the slice of `s` taken out.
pub open spec fn slice_removed(before: PermitRegistry, after: PermitRegistry, s: Subscription) -> bool {
    &&& after.total_allowance == before.total_allowance - s.allowance
    &&& after.total_used == before.total_used - s.used_allowance
}

/// `after` is `before` with the slice of `old_sub` replaced by that of `new_sub`.
pub open spec fn slice_replaced(
    before: PermitRegistry,
    after: PermitRegistry,
    old_sub: Subscription,
    new_sub: Subscription,
) -> bool {
    &&& after.total_allowance == before.total_allowance - old_sub.allowance + new_sub.allowance
    &&& after.total_used == before.total_used - old_sub.used_allowance + new_sub.used_allowance
}

proof fn lemma_sums_update(live: Seq<Subscription>, i: int, s: Subscription)
    requires
        0 <= i < live.len(),
    ensures
        sum_allowance(live.update(i, s)) == sum_allowance(live) - live[i].allowance + s.allowance,
        sum_used(live.update(i, s)) == sum_used(live) - live[i].used_allowance + s.used_allowance,
    decreases live.len(),
{
    let u = live.update(i, s);
    if i == live.len() - 1 {
        assert(u.drop_last() =~= live.drop_last());
    } else {
        assert(u.drop_last() =~= live.drop_last().update(i, s));
        lemma_sums_update(live.drop_last(), i, s);
    }
}

proof fn lemma_sums_remove(live: Seq<Subscription>, i: int)
    requires
        0 <= i < live.len(),
    ensures
        sum_allowance(live.remove(i)) == sum_allowance(live) - live[i].allowance,
        sum_used(live.remove(i)) == sum_used(live) - live[i].used_allowance,
    decreases live.len(),
{
    let r = live.remove(i);
    if i == live.len() - 1 {
        assert(r =~= live.drop_last());
    } else {
        assert(r.drop_last() =~= live.drop_last().remove(i));
        assert(r.last() == live.last());
        lemma_sums_remove(live.drop_last(), i);
    }
}

proof fn lemma_sum_used_bounded(live: Seq<Subscription>)
    requires
        forall|i: int| 0 <= i < live.len() ==> #[trigger] live[i].wf(),
    ensures
        0 <= sum_used(live) <= sum_allowance(live),
    decreases live.len(),
{
    if live.len() > 0 {
        let d = live.drop_last();
        assert forall|i: int| 0 <= i < d.len() implies #[trigger] d[i].wf() by {
            assert(d[i] == live[i]);
        }
        lemma_sum_used_bounded(d);
        assert(live[live.len() - 1].wf());
    }
}

/// A registry that accounts for its live subscriptions never has more drawn
/// than allowed.
pub proof fn lemma_pool_within_allowance(registry: PermitRegistry, live: Seq<Subscription>)
    requires
        pool_consistent(registry, live),
    ensures
        registry.wf(),
{
    lemma_sum_used_bounded(live);
}

/// Creating a subscription keeps the registry in step: the new slice joins the pool.
pub proof fn lemma_pool_admits(
    before: PermitRegistry,
    after: PermitRegistry,
    live: Seq<Subscription>,
    s: Subscription,
)
    requires
        pool_consistent(before, live),
        s.wf(),
        slice_added(before, after, s),
    ensures
        pool_consistent(after, live.push(s)),
        after.wf(),
{
    let p = live.push(s);
    assert(p.drop_last() =~= live);
    assert forall|i: int| 0 <= i < p.len() implies #[trigger] p[i].wf() by {
        if i < live.len() {
            assert(p[i] == live[i]);
        }
    }
    lemma_pool_within_allowance(after, p);
}

/// Executing, raising the allowance of, or re-capping a live subscription keeps
/// the registry in step: its slice is replaced by the new one.
pub proof fn lemma_pool_updates(
    before: PermitRegistry,
    after: PermitRegistry,
    live: Seq<Subscription>,
    i: int,
    s: Subscription,
)
    requires
        pool_consistent(before, live),
        0 <= i < live.len(),
        s.wf(),
        slice_replaced(before, after, live[i], s),
    ensures
        pool_consistent(after, live.update(i, s)),
        after.wf(),
{
    lemma_sums_update(live, i, s);
    let u = live.update(i, s);
    assert forall|j: int| 0 <= j < u.len() implies #[trigger] u[j].wf() by {
        if j != i {
            assert(u[j] == live[j]);
        }
    }
    lemma_pool_within_allowance(after, u);
}

/// Cancelling a live subscription keeps the registry in step: its slice leaves
/// the pool with it.
pub proof fn lemma_pool_retires(
    before: PermitRegistry,
    after: PermitRegistry,
    live: Seq<Subscription>,
    i: int,
)
    requires
        pool_consistent(before, live),
        0 <= i < live.len(),
        slice_removed(before, after, live[i]),
    ensures
        pool_consistent(after, live.remove(i)),
        after.wf(),
        before.spec_can_revoke(live[i].allowance as int, live[i].used_allowance as int),
{
    lemma_sums_remove(live, i);
    let r = live.remove(i);
    assert forall|j: int| 0 <= j < r.len() implies #[trigger] r[j].wf() by {
        if j < i {
            assert(r[j] == live[j]);
        } else {
            assert(r[j] == live[j + 1]);
        }
    }
    lemma_pool_within_allowance(after, r);
}

/// Once the only subscription of a pool has given its slice back, the registry
/// refuses to take that slice out a second time (unless the slice was empty).
pub proof fn lemma_second_revoke_refused(before: PermitRegistry, after: PermitRegistry, s: Subscription)
    requires
        pool_consistent(before, seq![s]),
        slice_removed(before, after, s),
        s.allowance > 0 || s.used_allowance > 0,
    ensures
        after.total_allowance == 0,
        after.total_used == 0,
        !after.spec_can_revoke(s.allowance as int, s.used_allowance as int),
{
    let live = seq![s];
    assert(live.drop_last() =~= Seq::<Subscription>::empty());
    assert(live.last() == s);
    assert(sum_allowance(live.drop_last()) == 0);
    assert(sum_used(live.drop_last()) == 0);
    assert(sum_allowance(live) == s.allowance);
    assert(sum_used(live) == s.used_allowance);
}

/// Every live subscription of a registry that is in step can give its slice
/// back, so cancelling it before it is due, or force-cancelling it, succeeds.
pub proof fn lemma_live_slice_revocable(registry: PermitRegistry, live: Seq<Subscription>, i: int)
    requires
        pool_consistent(registry, live),
        0 <= i < live.len(),
    ensures
        registry.spec_can_revoke(live[i].allowance as int, live[i].used_allowance as int),
{
    lemma_sums_remove(live, i);
    let r = live.remove(i);
    assert forall|j: int| 0 <= j < r.len() implies #[trigger] r[j].wf() by {
        if j < i {
            assert(r[j] == live[j]);
        } else {
            assert(r[j] == live[j + 1]);
        }
    }
    lemma_sum_used_bounded(r);
    assert(live[i].wf());
}

} // verus!
