//! Pool-wide guarantees, stated and proved over [`PoolModel`].
//!
//! The contracts on [`crate::pool::ResourcePool`] pin each operation to a
//! model transition; the lemmas here say what whole runs of those
//! transitions guarantee: the outstanding bound under a burst of checkouts,
//! FIFO service of waiters across any run of returns, no handle leaked by a
//! checkout/return round trip, immediate exhaustion of a fully held pool,
//! and rejection of a double return.

use vstd::prelude::*;
use vstd::seq_lib::*;

use crate::dispatcher::DispatcherModel;
use crate::pool::PoolModel;
use crate::pool::ResourceHandle;
use crate::pool::ReturnEvent;
use crate::work::WorkItem;

verus! {

/// The id counter has room for every handle the pool could still create.
/// This holds of a freshly built pool (its counter starts at zero) and is
/// kept by grants and enqueues; only discarding an invalid handle consumes
/// id space. It is a machine limit on the id space, not a policy choice.
pub open spec fn id_headroom(m: PoolModel) -> bool {
    m.next_id + m.max - m.live() <= u64::MAX
}

/// A freshly built pool has id headroom: its id counter starts at zero
/// with nothing live.
pub proof fn lemma_fresh_pool_has_headroom(m: PoolModel)
    requires
        m.next_id == 0,
        m.live() == 0,
        m.max <= u64::MAX,
    ensures
        id_headroom(m),
{
}

/// State after a run of `k` immediate (zero-timeout) checkout probes, each
/// taking a handle when one is available or creatable and changing nothing
/// otherwise.
pub open spec fn after_probes(m: PoolModel, k: nat) -> PoolModel
    decreases k,
{
    if k == 0 {
        m
    } else {
        let m1 = if m.can_grant() {
            m.after_grant()
        } else {
            m
        };
        after_probes(m1, (k - 1) as nat)
    }
}

/// How many of `k` immediate checkout probes are granted.
pub open spec fn probe_successes(m: PoolModel, k: nat) -> nat
    decreases k,
{
    if k == 0 {
        0
    } else if m.can_grant() {
        1 + probe_successes(m.after_grant(), (k - 1) as nat)
    } else {
        probe_successes(m, (k - 1) as nat)
    }
}

/// An immediate grant preserves well-formedness and takes exactly one unit
/// of free capacity; nothing else about the pool's shape changes.
pub proof fn lemma_grant_preserves_wf(m: PoolModel)
    requires
        m.wf(),
        m.can_grant(),
    ensures
        m.after_grant().wf(),
        m.after_grant().out.len() == m.out.len() + 1,
        m.after_grant().live() == if m.has_idle() { m.live() } else { m.live() + 1 },
        m.after_grant().max == m.max,
        m.after_grant().closed == m.closed,
        m.after_grant().waiters == m.waiters,
        id_headroom(m) ==> id_headroom(m.after_grant()),
{
}

/// Outstanding handles never exceed the configured bound.
pub proof fn lemma_outstanding_bounded(m: PoolModel)
    requires
        m.wf(),
    ensures
        m.out.len() <= m.max,
{
}

/// In a burst of `k` immediate checkouts against an open pool, exactly
/// `min(k, max - outstanding)` are granted: every unit of free capacity is
/// handed out, no more, and the pool never holds more than `max` handles
/// outstanding.
pub proof fn lemma_burst_grants(m: PoolModel, k: nat)
    requires
        m.wf(),
        !m.closed,
        id_headroom(m),
    ensures
        probe_successes(m, k) == if k as int <= m.max - m.out.len() {
            k as int
        } else {
            m.max - m.out.len()
        },
        after_probes(m, k).out.len() <= m.max,
    decreases k,
{
    if k == 0 {
        lemma_outstanding_bounded(m);
    } else if m.can_grant() {
        lemma_grant_preserves_wf(m);
        assert(m.out.len() < m.max);
        lemma_burst_grants(m.after_grant(), (k - 1) as nat);
    } else {
        if m.next_id == u64::MAX {
            assert(m.live() == m.max);
        }
        assert(m.idle.len() == 0);
        assert(m.out.len() == m.max);
        lemma_burst_grants(m, (k - 1) as nat);
    }
}

/// With every one of the `max` handles held, no idle handle exists and none
/// can be created: a zero-timeout checkout fails at once.
pub proof fn lemma_full_pool_probe_fails(m: PoolModel)
    requires
        m.wf(),
        m.out.len() == m.max,
    ensures
        !m.grant_ready(),
{
}

/// An accepted return preserves well-formedness. A valid handle keeps the
/// pool's live count; an invalid one shrinks it (its replacement, if any,
/// restores it). When a waiter is served, it is the longest-waiting one and
/// the others keep their order.
pub proof fn lemma_return_preserves_wf(m: PoolModel, h: ResourceHandle)
    requires
        m.wf(),
        m.out.contains(h.id),
    ensures
        m.after_return(h).wf(),
        m.after_return(h).closed == m.closed,
        m.after_return(h).max == m.max,
        m.serves_waiter() && (h.valid || m.next_id < u64::MAX) ==> {
            &&& m.after_return(h).waiters == m.waiters.drop_first()
            &&& m.return_event(h) matches ReturnEvent::Granted { ticket, handle }
                && ticket == m.waiters.first() && handle.valid
        },
        !(m.serves_waiter() && (h.valid || m.next_id < u64::MAX)) ==> m.after_return(h).waiters
            == m.waiters,
        h.valid ==> m.after_return(h).live() == m.live(),
{
    let r = m.after_return(h);
    m.out.index_of_first_ensures(h.id);
    let idx = m.out.index_of_first(h.id)->Some_0;
    m.out.remove_ensures(idx);
    let removed = m.out.remove_value(h.id);
    assert forall|a: int, b: int| 0 <= a < b < removed.len() implies removed[a] != removed[b] by {
        if b < idx {
        } else if a < idx {
            assert(removed[b] == m.out[b + 1]);
        } else {
            assert(removed[a] == m.out[a + 1]);
            assert(removed[b] == m.out[b + 1]);
        }
    }
    assert forall|a: int| 0 <= a < removed.len() implies removed[a] != h.id by {
        if a >= idx {
            assert(removed[a] == m.out[a + 1]);
        }
    }
    assert forall|a: int| 0 <= a < removed.len() implies m.out.contains(removed[a]) by {
        if a >= idx {
            assert(removed[a] == m.out[a + 1]);
        }
    }
    assert forall|a: int| 0 <= a < removed.len() implies removed[a] < m.next_id by {
        if a >= idx {
            assert(removed[a] == m.out[a + 1]);
        }
    }
    assert forall|a: int, j: int|
        0 <= a < removed.len() && 0 <= j < m.idle.len() implies removed[a] != m.idle[j] by {
        if a >= idx {
            assert(removed[a] == m.out[a + 1]);
        }
    }
    assert(r.wf());
}

/// State after a run of returns, oldest first.
pub open spec fn after_returns(m: PoolModel, hs: Seq<ResourceHandle>) -> PoolModel
    decreases hs.len(),
{
    if hs.len() == 0 {
        m
    } else {
        after_returns(m.after_return(hs.first()), hs.drop_first())
    }
}

/// Every return in the run gives back a handle that is checked out at that
/// point.
pub open spec fn returns_accepted(m: PoolModel, hs: Seq<ResourceHandle>) -> bool
    decreases hs.len(),
{
    hs.len() == 0 || {
        &&& m.out.contains(hs.first().id)
        &&& returns_accepted(m.after_return(hs.first()), hs.drop_first())
    }
}

/// The waiter tickets granted over a run of returns, in grant order.
pub open spec fn granted_tickets(m: PoolModel, hs: Seq<ResourceHandle>) -> Seq<u64>
    decreases hs.len(),
{
    if hs.len() == 0 {
        Seq::<u64>::empty()
    } else {
        let rest = granted_tickets(m.after_return(hs.first()), hs.drop_first());
        match m.return_event(hs.first()) {
            ReturnEvent::Granted { ticket, .. } => seq![ticket] + rest,
            _ => rest,
        }
    }
}

/// Waiters are served strictly first-in first-out: over any run of accepted
/// returns of valid handles against an open pool with enough waiters, the
/// k-th ticket granted is the k-th oldest waiter. A checkout enqueued
/// before another is therefore always served before it.
pub proof fn lemma_returns_serve_fifo(m: PoolModel, hs: Seq<ResourceHandle>)
    requires
        m.wf(),
        !m.closed,
        returns_accepted(m, hs),
        forall|i: int| 0 <= i < hs.len() ==> (#[trigger] hs[i]).valid,
        hs.len() <= m.waiters.len(),
    ensures
        granted_tickets(m, hs) == m.waiters.take(hs.len() as int),
        after_returns(m, hs).waiters == m.waiters.skip(hs.len() as int),
    decreases hs.len(),
{
    if hs.len() == 0 {
        assert(granted_tickets(m, hs) =~= m.waiters.take(0));
        assert(after_returns(m, hs).waiters =~= m.waiters.skip(0));
    } else {
        let h = hs.first();
        assert(h.valid);
        let m1 = m.after_return(h);
        lemma_return_preserves_wf(m, h);
        assert(forall|i: int|
            0 <= i < hs.drop_first().len() ==> (#[trigger] hs.drop_first()[i]).valid);
        lemma_returns_serve_fifo(m1, hs.drop_first());
        assert(m1.waiters == m.waiters.drop_first());
        assert(granted_tickets(m1, hs.drop_first()) == m.waiters.drop_first().take(
            hs.len() - 1,
        ));
        assert(granted_tickets(m, hs) =~= m.waiters.take(hs.len() as int));
        assert(after_returns(m, hs).waiters =~= m.waiters.skip(hs.len() as int));
    }
}

/// Dispatcher state after `k` items were handed to free workers.
pub open spec fn after_takes(d: DispatcherModel, k: nat) -> DispatcherModel
    decreases k,
{
    if k == 0 {
        d
    } else {
        after_takes(
            DispatcherModel {
                queue: d.queue.drop_first(),
                in_flight: d.in_flight + 1,
                ..d
            },
            (k - 1) as nat,
        )
    }
}

/// The items handed out by `k` takes, in start order.
pub open spec fn taken_items(d: DispatcherModel, k: nat) -> Seq<WorkItem>
    decreases k,
{
    if k == 0 {
        Seq::<WorkItem>::empty()
    } else {
        seq![d.queue.first()] + taken_items(
            DispatcherModel {
                queue: d.queue.drop_first(),
                in_flight: d.in_flight + 1,
                ..d
            },
            (k - 1) as nat,
        )
    }
}

/// Workers start items in strict submission order, with no priority: the
/// `k` items handed out by a run of takes are exactly the `k` oldest queued
/// items, oldest first, and each take counts one more item in flight.
pub proof fn lemma_items_start_in_submission_order(d: DispatcherModel, k: nat)
    requires
        d.wf(),
        k <= d.queue.len(),
        d.in_flight + k <= d.workers,
    ensures
        taken_items(d, k) == d.queue.take(k as int),
        after_takes(d, k).queue == d.queue.skip(k as int),
        after_takes(d, k).in_flight == d.in_flight + k,
        after_takes(d, k).wf(),
    decreases k,
{
    if k == 0 {
        assert(taken_items(d, k) =~= d.queue.take(0));
        assert(after_takes(d, k).queue =~= d.queue.skip(0));
    } else {
        let d1 = DispatcherModel {
            queue: d.queue.drop_first(),
            in_flight: d.in_flight + 1,
            ..d
        };
        lemma_items_start_in_submission_order(d1, (k - 1) as nat);
        assert(taken_items(d, k) =~= d.queue.take(k as int));
        assert(after_takes(d, k).queue =~= d.queue.skip(k as int));
    }
}

/// A granted checkout followed by the return of that same handle leaves the
/// checked-out set exactly as it was: no handle is leaked by a round trip,
/// and the pool still respects its bound.
pub proof fn lemma_checkout_return_restores(m: PoolModel)
    requires
        m.wf(),
        m.can_grant(),
        m.waiters.len() == 0,
    ensures
        ({
            let h = ResourceHandle { id: m.granted_id(), valid: true };
            let back = m.after_grant().after_return(h);
            &&& back.out == m.out
            &&& back.waiters == m.waiters
            &&& back.live() == m.after_grant().live()
            &&& back.live() <= m.max
            &&& back.wf()
        }),
{
    let h = ResourceHandle { id: m.granted_id(), valid: true };
    let g = m.after_grant();
    lemma_grant_preserves_wf(m);
    assert(g.out == m.out.push(h.id));
    assert(g.out[m.out.len() as int] == h.id);
    assert(g.out.contains(h.id));
    lemma_return_preserves_wf(g, h);
    let back = g.after_return(h);
    g.out.index_of_first_ensures(h.id);
    let idx = g.out.index_of_first(h.id)->Some_0;
    assert(forall|j: int| 0 <= j < m.out.len() ==> #[trigger] m.out[j] != h.id);
    assert(idx == m.out.len());
    g.out.remove_ensures(idx);
    assert(back.out =~= m.out);
}

/// A second return of the same handle, with no waiter in between to hand it
/// to, finds the handle no longer checked out: the pool rejects the double
/// return instead of corrupting its accounting.
pub proof fn lemma_double_return_rejected(m: PoolModel, h: ResourceHandle)
    requires
        m.wf(),
        m.out.contains(h.id),
        h.valid,
        m.waiters.len() == 0,
    ensures
        !m.after_return(h).out.contains(h.id),
{
    m.out.index_of_first_ensures(h.id);
    let idx = m.out.index_of_first(h.id)->Some_0;
    m.out.remove_ensures(idx);
    let removed = m.out.remove_value(h.id);
    assert forall|a: int| 0 <= a < removed.len() implies removed[a] != h.id by {
        if a >= idx {
            assert(removed[a] == m.out[a + 1]);
        }
    }
}

} // verus!
