//! A fixed-size pool of resource handles with checkout/return semantics.
//!
//! The pool owns every handle. A handle is either idle in the pool or checked
//! out by exactly one holder, never both. Checkout serves an idle handle
//! first, creates one lazily while fewer than `max` are live, and otherwise
//! either fails at once (zero timeout) or enqueues the caller as a waiter.
//! Waiters are served strictly in arrival order: a returned handle is handed
//! to the longest-waiting checkout rather than placed back on the idle list.
//!
//! All pool state is plain bookkeeping; the live connections a handle stands
//! for are owned by the caller's resource adapter, keyed by handle id.

use vstd::prelude::*;
use vstd::seq_lib::*;

use crate::status::CheckoutError;
use crate::status::ReturnError;

verus! {

/// One live connection to the shared resource, identified by `id`.
///
/// The pool hands a handle to at most one holder at a time. A holder that
/// detects that the underlying connection is broken clears `valid` before
/// returning the handle; the pool then discards it instead of reusing it.
#[derive(Clone, Copy, Debug, PartialEq, Eq, Structural)]
pub struct ResourceHandle {
    pub id: u64,
    pub valid: bool,
}

/// The mathematical state of a [`ResourcePool`]: which handle ids are idle,
/// which are checked out, which checkout tickets are waiting, and the
/// counters from which fresh ids and tickets are minted.
#[verifier::ext_equal]
pub ghost struct PoolModel {
    /// Configured maximum number of live handles.
    pub max: nat,
    /// Ids of idle handles, all valid; the last entry is served first.
    pub idle: Seq<u64>,
    /// Ids of handles currently checked out.
    pub out: Seq<u64>,
    /// Tickets of blocked checkouts; the first entry is the longest waiting.
    pub waiters: Seq<u64>,
    /// Whether the pool has been closed to new checkouts.
    pub closed: bool,
    /// The id the next lazily created handle will carry.
    pub next_id: u64,
    /// The ticket the next enqueued waiter will carry.
    pub next_ticket: u64,
}

impl PoolModel {
    /// Number of live handles: idle plus checked out.
    pub open spec fn live(self) -> nat {
        self.idle.len() + self.out.len()
    }

    pub open spec fn has_idle(self) -> bool {
        self.idle.len() > 0
    }

    /// A fresh handle may be created: the pool is under its size bound and
    /// the id counter has room (the latter is a machine limit, not policy).
    pub open spec fn can_create(self) -> bool {
        self.live() < self.max && self.next_id < u64::MAX
    }

    /// A checkout would be granted at once, ignoring the closed flag.
    pub open spec fn grant_ready(self) -> bool {
        self.has_idle() || self.can_create()
    }

    /// A checkout is granted at once.
    pub open spec fn can_grant(self) -> bool {
        !self.closed && self.grant_ready()
    }

    /// A blocked checkout can be enqueued: the ticket counter has room
    /// (a machine limit, not policy).
    pub open spec fn can_enqueue(self) -> bool {
        self.next_ticket < u64::MAX
    }

    /// A returned handle is handed straight to a waiter instead of idling.
    pub open spec fn serves_waiter(self) -> bool {
        !self.closed && self.waiters.len() > 0
    }

    /// The id an immediate grant hands out: the most recently idled handle,
    /// or a fresh id when none is idle.
    pub open spec fn granted_id(self) -> u64 {
        if self.has_idle() {
            self.idle.last()
        } else {
            self.next_id
        }
    }

    /// State after an immediate grant.
    pub open spec fn after_grant(self) -> PoolModel {
        if self.has_idle() {
            PoolModel { idle: self.idle.drop_last(), out: self.out.push(self.idle.last()), ..self }
        } else {
            PoolModel {
                out: self.out.push(self.next_id),
                next_id: (self.next_id + 1) as u64,
                ..self
            }
        }
    }

    /// State after a blocked checkout is enqueued as a waiter.
    pub open spec fn after_enqueue(self) -> PoolModel {
        PoolModel {
            waiters: self.waiters.push(self.next_ticket),
            next_ticket: (self.next_ticket + 1) as u64,
            ..self
        }
    }

    /// State after the pool accepts the return of `h` (which requires
    /// `out.contains(h.id)`): the handle idles, is handed to the longest
    /// waiter, or — when marked invalid — is discarded, with a replacement
    /// created at once if a waiter can be served by one.
    pub open spec fn after_return(self, h: ResourceHandle) -> PoolModel {
        let base = PoolModel { out: self.out.remove_value(h.id), ..self };
        if h.valid {
            if base.serves_waiter() {
                PoolModel {
                    out: base.out.push(h.id),
                    waiters: base.waiters.drop_first(),
                    ..base
                }
            } else {
                PoolModel { idle: base.idle.push(h.id), ..base }
            }
        } else {
            if base.serves_waiter() && base.next_id < u64::MAX {
                PoolModel {
                    out: base.out.push(base.next_id),
                    next_id: (base.next_id + 1) as u64,
                    waiters: base.waiters.drop_first(),
                    ..base
                }
            } else {
                base
            }
        }
    }

    /// The event an accepted return reports to the caller.
    pub open spec fn return_event(self, h: ResourceHandle) -> ReturnEvent {
        if h.valid {
            if self.serves_waiter() {
                ReturnEvent::Granted {
                    ticket: self.waiters.first(),
                    handle: ResourceHandle { id: h.id, valid: true },
                }
            } else {
                ReturnEvent::Idled
            }
        } else {
            if self.serves_waiter() && self.next_id < u64::MAX {
                ReturnEvent::Granted {
                    ticket: self.waiters.first(),
                    handle: ResourceHandle { id: self.next_id, valid: true },
                }
            } else {
                ReturnEvent::Discarded
            }
        }
    }

    /// Well-formedness: the size bound holds, every live id is unique and
    /// minted below the id counter, and waiting tickets are unique and
    /// minted below the ticket counter.
    pub open spec fn wf(self) -> bool {
        &&& 1 <= self.max
        &&& self.live() <= self.max
        &&& self.idle.no_duplicates()
        &&& self.out.no_duplicates()
        &&& forall|i: int, j: int|
            0 <= i < self.idle.len() && 0 <= j < self.out.len()
                ==> #[trigger] self.idle[i] != #[trigger] self.out[j]
        &&& forall|i: int| 0 <= i < self.idle.len() ==> #[trigger] self.idle[i] < self.next_id
        &&& forall|i: int| 0 <= i < self.out.len() ==> #[trigger] self.out[i] < self.next_id
        &&& self.waiters.no_duplicates()
        &&& forall|i: int|
            0 <= i < self.waiters.len() ==> #[trigger] self.waiters[i] < self.next_ticket
    }
}

/// What a checkout request came to.
#[derive(Clone, Copy, Debug, PartialEq, Eq, Structural)]
pub enum CheckoutOutcome {
    /// A handle was available (or could be created) and is now checked out.
    Granted(ResourceHandle),
    /// No handle was available; the caller waits under this ticket until a
    /// return serves it, it abandons the wait, or the pool closes.
    Enqueued(u64),
    /// The checkout failed at once.
    Refused(CheckoutError),
}

/// What an accepted return did with the handle.
#[derive(Clone, Copy, Debug, PartialEq, Eq, Structural)]
pub enum ReturnEvent {
    /// No waiter; the handle went back on the idle list.
    Idled,
    /// The handle (or a fresh replacement for a discarded one) was checked
    /// out again on behalf of the longest-waiting ticket; the caller must
    /// deliver it to that waiter.
    Granted { ticket: u64, handle: ResourceHandle },
    /// The handle was invalid and discarded; no waiter could be served by a
    /// replacement.
    Discarded,
}

/// A fixed-size pool of [`ResourceHandle`]s with blocking-with-timeout
/// checkout, FIFO waiter service, and explicit return.
pub struct ResourcePool {
    max_size: usize,
    checkout_timeout_ms: u64,
    idle: Vec<u64>,
    checked_out: Vec<u64>,
    waiters: Vec<u64>,
    closed: bool,
    next_id: u64,
    next_ticket: u64,
}

impl View for ResourcePool {
    type V = PoolModel;

    closed spec fn view(&self) -> PoolModel {
        PoolModel {
            max: self.max_size as nat,
            idle: self.idle@,
            out: self.checked_out@,
            waiters: self.waiters@,
            closed: self.closed,
            next_id: self.next_id,
            next_ticket: self.next_ticket,
        }
    }
}

impl ResourcePool {
    pub open spec fn wf(self) -> bool {
        self@.wf()
    }

    /// Creates an empty pool bounded at `max_size` live handles. Handles are
    /// created lazily, on the first checkouts that need them.
    pub fn new(max_size: usize, checkout_timeout_ms: u64) -> (pool: ResourcePool)
        requires
            1 <= max_size,
        ensures
            pool.wf(),
            pool@ == (PoolModel {
                max: max_size as nat,
                idle: Seq::<u64>::empty(),
                out: Seq::<u64>::empty(),
                waiters: Seq::<u64>::empty(),
                closed: false,
                next_id: 0,
                next_ticket: 0,
            }),
            pool.spec_checkout_timeout_ms() == checkout_timeout_ms,
    {
        ResourcePool {
            max_size,
            checkout_timeout_ms,
            idle: Vec::new(),
            checked_out: Vec::new(),
            waiters: Vec::new(),
            closed: false,
            next_id: 0,
            next_ticket: 0,
        }
    }

    /// Creates a pool with all `max_size` handles already live and idle,
    /// for callers that would rather pay creation up front than on the
    /// first checkouts. The handles carry ids `0` to `max_size - 1`; the
    /// caller's resource adapter opens their connections eagerly too.
    pub fn new_eager(max_size: usize, checkout_timeout_ms: u64) -> (pool: ResourcePool)
        requires
            1 <= max_size,
        ensures
            pool.wf(),
            pool@.max == max_size,
            pool@.idle.len() == max_size,
            forall|i: int| 0 <= i < max_size ==> #[trigger] pool@.idle[i] == i as u64,
            pool@.out == Seq::<u64>::empty(),
            pool@.waiters == Seq::<u64>::empty(),
            !pool@.closed,
            pool@.next_id == max_size as u64,
            pool@.next_ticket == 0,
            pool.spec_checkout_timeout_ms() == checkout_timeout_ms,
    {
        let mut idle: Vec<u64> = Vec::new();
        let mut i: usize = 0;
        while i < max_size
            invariant
                i <= max_size,
                idle@.len() == i,
                forall|j: int| 0 <= j < i ==> #[trigger] idle@[j] == j as u64,
            decreases max_size - i,
        {
            idle.push(i as u64);
            i = i + 1;
        }
        ResourcePool {
            max_size,
            checkout_timeout_ms,
            idle,
            checked_out: Vec::new(),
            waiters: Vec::new(),
            closed: false,
            next_id: max_size as u64,
            next_ticket: 0,
        }
    }

    /// The checkout timeout this pool was configured with, for callers that
    /// block on its behalf.
    pub fn checkout_timeout_ms(&self) -> (t: u64)
        ensures
            t == self.spec_checkout_timeout_ms(),
    {
        self.checkout_timeout_ms
    }

    pub closed spec fn spec_checkout_timeout_ms(self) -> u64 {
        self.checkout_timeout_ms
    }

    /// Requests a handle. A `timeout_ms` of zero is a non-blocking probe:
    /// it fails with `PoolExhausted` rather than waiting. A positive
    /// timeout enqueues the caller as a waiter when nothing is available;
    /// the caller is served FIFO by later returns, or gives the wait up via
    /// [`Self::abandon_wait`] once its deadline passes.
    pub fn checkout(&mut self, timeout_ms: u64) -> (r: CheckoutOutcome)
        requires
            old(self).wf(),
        ensures
            final(self).wf(),
            old(self)@.closed ==> {
                &&& r == CheckoutOutcome::Refused(CheckoutError::PoolClosed)
                &&& final(self)@ == old(self)@
            },
            old(self)@.can_grant() ==> {
                &&& r == CheckoutOutcome::Granted(
                    ResourceHandle { id: old(self)@.granted_id(), valid: true },
                )
                &&& final(self)@ == old(self)@.after_grant()
            },
            !old(self)@.closed && !old(self)@.grant_ready() && timeout_ms == 0 ==> {
                &&& r == CheckoutOutcome::Refused(CheckoutError::PoolExhausted)
                &&& final(self)@ == old(self)@
            },
            !old(self)@.closed && !old(self)@.grant_ready() && timeout_ms > 0
                && old(self)@.can_enqueue() ==> {
                &&& r == CheckoutOutcome::Enqueued(old(self)@.next_ticket)
                &&& final(self)@ == old(self)@.after_enqueue()
            },
            !old(self)@.closed && !old(self)@.grant_ready() && timeout_ms > 0
                && !old(self)@.can_enqueue() ==> {
                &&& r == CheckoutOutcome::Refused(CheckoutError::PoolExhausted)
                &&& final(self)@ == old(self)@
            },
    {
        if self.closed {
            return CheckoutOutcome::Refused(CheckoutError::PoolClosed);
        }
        match self.idle.pop() {
            Some(id) => {
                self.checked_out.push(id);
                proof {
                    assert(self@ =~= old(self)@.after_grant());
                }
                CheckoutOutcome::Granted(ResourceHandle { id, valid: true })
            }
            None => {
                if self.checked_out.len() < self.max_size && self.next_id < u64::MAX {
                    let id = self.next_id;
                    self.next_id = self.next_id + 1;
                    self.checked_out.push(id);
                    proof {
                        assert(self@ =~= old(self)@.after_grant());
                    }
                    CheckoutOutcome::Granted(ResourceHandle { id, valid: true })
                } else if timeout_ms == 0 || self.next_ticket == u64::MAX {
                    CheckoutOutcome::Refused(CheckoutError::PoolExhausted)
                } else {
                    let t = self.next_ticket;
                    self.next_ticket = self.next_ticket + 1;
                    self.waiters.push(t);
                    proof {
                        assert(self@ =~= old(self)@.after_enqueue());
                    }
                    CheckoutOutcome::Enqueued(t)
                }
            }
        }
    }

    /// Index of the first occurrence of `x` in `v`, if any.
    fn find_index(v: &Vec<u64>, x: u64) -> (r: Option<usize>)
        ensures
            match r {
                Some(i) => {
                    &&& i < v@.len()
                    &&& v@[i as int] == x
                    &&& forall|j: int| 0 <= j < i ==> v@[j] != x
                },
                None => !v@.contains(x),
            },
    {
        let mut i: usize = 0;
        while i < v.len()
            invariant
                i <= v@.len(),
                forall|j: int| 0 <= j < i ==> v@[j] != x,
            decreases v@.len() - i,
        {
            if v[i] == x {
                return Some(i);
            }
            i = i + 1;
        }
        None
    }

    /// Gives a checked-out handle back. A handle that is not currently
    /// checked out — a double return or a foreign handle — is rejected with
    /// `InvalidReturn` and the pool is left untouched. An accepted valid
    /// handle idles or goes straight to the longest waiter; an accepted
    /// invalid handle is discarded, with a fresh replacement created for the
    /// longest waiter when one can be.
    pub fn return_handle(&mut self, h: ResourceHandle) -> (r: Result<ReturnEvent, ReturnError>)
        requires
            old(self).wf(),
        ensures
            final(self).wf(),
            !old(self)@.out.contains(h.id) ==> {
                &&& r == Err::<ReturnEvent, ReturnError>(ReturnError::InvalidReturn)
                &&& final(self)@ == old(self)@
            },
            old(self)@.out.contains(h.id) ==> {
                &&& r == Ok::<ReturnEvent, ReturnError>(old(self)@.return_event(h))
                &&& final(self)@ == old(self)@.after_return(h)
            },
    {
        match Self::find_index(&self.checked_out, h.id) {
            None => Err(ReturnError::InvalidReturn),
            Some(i) => {
                self.checked_out.remove(i);
                proof {
                    old(self)@.out.index_of_first_ensures(h.id);
                    assert(old(self)@.out.index_of_first(h.id) == Some(i as int));
                    assert(self@.out =~= old(self)@.out.remove_value(h.id));
                    old(self)@.out.remove_ensures(i as int);
                    assert forall|a: int, b: int|
                        0 <= a < b < self@.out.len() implies self@.out[a] != self@.out[b] by {
                        if b < i {
                        } else if a < i {
                            assert(self@.out[b] == old(self)@.out[b + 1]);
                        } else {
                            assert(self@.out[a] == old(self)@.out[a + 1]);
                            assert(self@.out[b] == old(self)@.out[b + 1]);
                        }
                    }
                    assert(self@.out.no_duplicates());
                    assert forall|a: int|
                        0 <= a < self@.out.len() implies self@.out[a] != h.id by {
                        if a < i {
                        } else {
                            assert(self@.out[a] == old(self)@.out[a + 1]);
                        }
                    }
                }
                if h.valid {
                    if !self.closed && self.waiters.len() > 0 {
                        let t = self.waiters.remove(0);
                        self.checked_out.push(h.id);
                        proof {
                            assert(self@ =~= old(self)@.after_return(h));
                        }
                        Ok(ReturnEvent::Granted { ticket: t, handle: ResourceHandle { id: h.id, valid: true } })
                    } else {
                        self.idle.push(h.id);
                        proof {
                            assert(self@ =~= old(self)@.after_return(h));
                        }
                        Ok(ReturnEvent::Idled)
                    }
                } else {
                    if !self.closed && self.waiters.len() > 0 && self.next_id < u64::MAX {
                        let t = self.waiters.remove(0);
                        let id = self.next_id;
                        self.next_id = self.next_id + 1;
                        self.checked_out.push(id);
                        proof {
                            assert(self@ =~= old(self)@.after_return(h));
                        }
                        Ok(ReturnEvent::Granted { ticket: t, handle: ResourceHandle { id, valid: true } })
                    } else {
                        proof {
                            assert(self@ =~= old(self)@.after_return(h));
                        }
                        Ok(ReturnEvent::Discarded)
                    }
                }
            }
        }
    }

    /// Gives up a wait whose deadline has passed. Removes the ticket from
    /// the waiter queue, preserving the order of the others; reports whether
    /// the ticket was still waiting (if not, a return had already served it
    /// or the pool closed).
    pub fn abandon_wait(&mut self, ticket: u64) -> (removed: bool)
        requires
            old(self).wf(),
        ensures
            final(self).wf(),
            removed == old(self)@.waiters.contains(ticket),
            final(self)@ == (PoolModel {
                waiters: old(self)@.waiters.remove_value(ticket),
                ..old(self)@
            }),
    {
        match Self::find_index(&self.waiters, ticket) {
            None => {
                proof {
                    old(self)@.waiters.index_of_first_ensures(ticket);
                    assert(self@ =~= (PoolModel {
                        waiters: old(self)@.waiters.remove_value(ticket),
                        ..old(self)@
                    }));
                }
                false
            }
            Some(i) => {
                self.waiters.remove(i);
                proof {
                    old(self)@.waiters.index_of_first_ensures(ticket);
                    assert(old(self)@.waiters.index_of_first(ticket) == Some(i as int));
                    old(self)@.waiters.remove_ensures(i as int);
                    assert forall|a: int, b: int|
                        0 <= a < b < self@.waiters.len() implies self@.waiters[a] != self@.waiters[b] by {
                        if b < i {
                        } else if a < i {
                            assert(self@.waiters[b] == old(self)@.waiters[b + 1]);
                        } else {
                            assert(self@.waiters[a] == old(self)@.waiters[a + 1]);
                            assert(self@.waiters[b] == old(self)@.waiters[b + 1]);
                        }
                    }
                    assert(self@ =~= (PoolModel {
                        waiters: old(self)@.waiters.remove_value(ticket),
                        ..old(self)@
                    }));
                }
                true
            }
        }
    }

    /// Closes the pool: future checkouts are refused with `PoolClosed`, and
    /// every still-blocked waiter is cancelled. The cancelled tickets are
    /// handed back, oldest first, so the caller can fail each wait with
    /// `PoolClosed`. Outstanding handles may still be returned afterwards;
    /// once all are back, [`Self::release_idle`] frees them.
    pub fn close(&mut self) -> (cancelled: Vec<u64>)
        requires
            old(self).wf(),
        ensures
            final(self).wf(),
            cancelled@ == old(self)@.waiters,
            final(self)@ == (PoolModel {
                closed: true,
                waiters: Seq::<u64>::empty(),
                ..old(self)@
            }),
    {
        self.closed = true;
        let mut cancelled: Vec<u64> = Vec::new();
        core::mem::swap(&mut cancelled, &mut self.waiters);
        proof {
            assert(self@ =~= (PoolModel {
                closed: true,
                waiters: Seq::<u64>::empty(),
                ..old(self)@
            }));
        }
        cancelled
    }

    /// Releases every idle handle of a closed, fully returned pool and hands
    /// their ids back so the caller can free the underlying resources.
    pub fn release_idle(&mut self) -> (released: Vec<u64>)
        requires
            old(self).wf(),
            old(self)@.closed,
            old(self)@.out.len() == 0,
        ensures
            final(self).wf(),
            released@ == old(self)@.idle,
            final(self)@ == (PoolModel { idle: Seq::<u64>::empty(), ..old(self)@ }),
    {
        let mut released: Vec<u64> = Vec::new();
        core::mem::swap(&mut released, &mut self.idle);
        proof {
            assert(self@ =~= (PoolModel { idle: Seq::<u64>::empty(), ..old(self)@ }));
        }
        released
    }

    /// Whether a handle with this id is currently checked out.
    pub fn is_checked_out(&self, id: u64) -> (b: bool)
        ensures
            b == self@.out.contains(id),
    {
        match Self::find_index(&self.checked_out, id) {
            Some(i) => {
                proof {
                    assert(self@.out[i as int] == id);
                }
                true
            }
            None => false,
        }
    }

    /// Configured maximum number of live handles.
    pub fn max_size(&self) -> (n: usize)
        ensures
            n == self@.max,
    {
        self.max_size
    }

    /// Number of idle handles.
    pub fn idle_count(&self) -> (n: usize)
        ensures
            n == self@.idle.len(),
    {
        self.idle.len()
    }

    /// Number of handles currently checked out.
    pub fn outstanding_count(&self) -> (n: usize)
        ensures
            n == self@.out.len(),
    {
        self.checked_out.len()
    }

    /// Number of blocked checkouts waiting for a handle.
    pub fn waiting_count(&self) -> (n: usize)
        ensures
            n == self@.waiters.len(),
    {
        self.waiters.len()
    }

    /// Whether the pool has been closed.
    pub fn is_closed(&self) -> (b: bool)
        ensures
            b == self@.closed,
    {
        self.closed
    }
}

} // verus!
