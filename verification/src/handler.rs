//! The per-item operation: validate, check out, execute, return, account.
//!
//! Each work item runs the same sequence: record the start time, validate
//! the payload (an invalid one never touches the pool), check a handle out
//! (blocking up to the configured timeout), run exactly one store operation,
//! return the handle — on every path — and package a status, a body and the
//! elapsed time. The store operation itself happens with the caller, which
//! owns the connections; it hands the outcome to [`finish_item`], and that
//! function is verified for every outcome the store can produce.

use vstd::prelude::*;

use crate::pool::ResourceHandle;
use crate::pool::ResourcePool;
use crate::pool::ReturnEvent;
use crate::pool::CheckoutOutcome;
use crate::status::CheckoutError;
use crate::status::StatusCategory;
use crate::status::ValidationFault;
use crate::work::WorkItem;
use crate::work::payload_fault;
use crate::work::payload_valid;

verus! {

/// What the store reported for one successful operation.
#[derive(Clone, Copy, Debug, PartialEq, Eq, Structural)]
pub enum StoreReply {
    /// Rows fetched by a read.
    Rows(u64),
    /// Rows affected by a write.
    Count(u64),
}

/// A store operation error: the operation ran and failed (for example a
/// constraint violation). The handle's validity is unaffected.
#[derive(Clone, Copy, Debug, PartialEq, Eq, Structural)]
pub struct StoreFault {
    /// The store's own error code.
    pub code: u64,
}

/// The body delivered with a completion, matching its status category.
#[derive(Clone, Copy, Debug, PartialEq, Eq, Structural)]
pub enum CompletionBody {
    /// Nothing to report beyond the status (cancelled items).
    Empty,
    /// The store's reply, for a successful operation.
    Reply(StoreReply),
    /// What made the payload invalid.
    Invalid(ValidationFault),
    /// Why no handle could be had.
    Unavailable(CheckoutError),
    /// The store's error, for a failed operation.
    Failed(StoreFault),
}

/// The one result delivered for a work item: its status category, a body,
/// and the elapsed time of the whole attempt, waiting included.
#[derive(Clone, Copy, Debug, PartialEq, Eq, Structural)]
pub struct Completion {
    pub item_id: u64,
    pub status: StatusCategory,
    pub body: CompletionBody,
    pub elapsed_ms: u64,
}

/// Elapsed time between two clock readings, clamped at zero if the clock
/// stepped backwards.
pub open spec fn elapsed_since(start_ms: u64, now_ms: u64) -> u64 {
    if now_ms >= start_ms {
        (now_ms - start_ms) as u64
    } else {
        0
    }
}

/// On a monotone clock, the elapsed time of an attempt spans its wait and
/// its operation exactly: a result's elapsed time is never less than its
/// own wait plus its own operation time.
pub proof fn lemma_elapsed_splits(start_ms: u64, grant_ms: u64, end_ms: u64)
    requires
        start_ms <= grant_ms <= end_ms,
    ensures
        elapsed_since(start_ms, end_ms) == elapsed_since(start_ms, grant_ms) + elapsed_since(
            grant_ms,
            end_ms,
        ),
{
}

/// Computes [`elapsed_since`] on the running clock.
pub fn elapsed_ms(start_ms: u64, now_ms: u64) -> (e: u64)
    ensures
        e == elapsed_since(start_ms, now_ms),
{
    if now_ms >= start_ms {
        now_ms - start_ms
    } else {
        0
    }
}

/// Where an item stands after validation and checkout.
pub enum BeginOutcome {
    /// The item is finished without a store operation: the payload was
    /// invalid (the pool was never touched) or no handle could be had.
    Done(Completion),
    /// A handle is checked out; the caller runs the store operation and
    /// hands its outcome to [`finish_item`].
    Acquired(ResourceHandle),
    /// The pool was exhausted and the item now waits under this ticket: a
    /// return will serve it FIFO, or the caller abandons it at its deadline
    /// via [`timeout_item`].
    Waiting(u64),
}

/// The completion [`begin_item`] delivers when the payload is invalid.
pub open spec fn invalid_completion(item: WorkItem, f: ValidationFault, start_ms: u64, now_ms: u64) -> Completion {
    Completion {
        item_id: item.id,
        status: StatusCategory::ValidationError,
        body: CompletionBody::Invalid(f),
        elapsed_ms: elapsed_since(start_ms, now_ms),
    }
}

/// The completion delivered when checkout fails.
pub open spec fn unavailable_completion(item_id: u64, e: CheckoutError, start_ms: u64, now_ms: u64) -> Completion {
    Completion {
        item_id,
        status: StatusCategory::ResourceUnavailable,
        body: CompletionBody::Unavailable(e),
        elapsed_ms: elapsed_since(start_ms, now_ms),
    }
}

/// Steps one work item up to the store operation: validates the payload,
/// then tries to check a handle out with the given timeout.
///
/// An invalid payload short-circuits to a `ValidationError` completion and
/// leaves the pool exactly as it was: validation failures never consume
/// pool capacity. A refused checkout short-circuits to a
/// `ResourceUnavailable` completion, again leaving the pool unchanged. A
/// granted checkout hands the handle back for the store operation, and an
/// exhausted pool with a positive timeout enqueues the item as a waiter.
///
/// `start_ms` is the recorded start of the attempt; `now_ms` is the current
/// clock reading, used as the end of any completion delivered here.
pub fn begin_item(
    pool: &mut ResourcePool,
    item: &WorkItem,
    timeout_ms: u64,
    start_ms: u64,
    now_ms: u64,
) -> (r: BeginOutcome)
    requires
        old(pool).wf(),
    ensures
        final(pool).wf(),
        !payload_valid(item.payload@) ==> {
            &&& r matches BeginOutcome::Done(c) && c == invalid_completion(
                *item,
                payload_fault(item.payload@)->Some_0,
                start_ms,
                now_ms,
            )
            &&& final(pool)@ == old(pool)@
        },
        payload_valid(item.payload@) && old(pool)@.closed ==> {
            &&& r matches BeginOutcome::Done(c) && c == unavailable_completion(
                item.id,
                CheckoutError::PoolClosed,
                start_ms,
                now_ms,
            )
            &&& final(pool)@ == old(pool)@
        },
        payload_valid(item.payload@) && old(pool)@.can_grant() ==> {
            &&& r matches BeginOutcome::Acquired(h) && h == (ResourceHandle {
                id: old(pool)@.granted_id(),
                valid: true,
            })
            &&& final(pool)@ == old(pool)@.after_grant()
        },
        payload_valid(item.payload@) && !old(pool)@.closed && !old(pool)@.grant_ready()
            && (timeout_ms == 0 || !old(pool)@.can_enqueue()) ==> {
            &&& r matches BeginOutcome::Done(c) && c == unavailable_completion(
                item.id,
                CheckoutError::PoolExhausted,
                start_ms,
                now_ms,
            )
            &&& final(pool)@ == old(pool)@
        },
        payload_valid(item.payload@) && !old(pool)@.closed && !old(pool)@.grant_ready()
            && timeout_ms > 0 && old(pool)@.can_enqueue() ==> {
            &&& r matches BeginOutcome::Waiting(t) && t == old(pool)@.next_ticket
            &&& final(pool)@ == old(pool)@.after_enqueue()
        },
{
    match item.payload.validate() {
        Err(f) => BeginOutcome::Done(Completion {
            item_id: item.id,
            status: StatusCategory::ValidationError,
            body: CompletionBody::Invalid(f),
            elapsed_ms: elapsed_ms(start_ms, now_ms),
        }),
        Ok(()) => {
            match pool.checkout(timeout_ms) {
                CheckoutOutcome::Granted(h) => BeginOutcome::Acquired(h),
                CheckoutOutcome::Enqueued(t) => BeginOutcome::Waiting(t),
                CheckoutOutcome::Refused(e) => BeginOutcome::Done(Completion {
                    item_id: item.id,
                    status: StatusCategory::ResourceUnavailable,
                    body: CompletionBody::Unavailable(e),
                    elapsed_ms: elapsed_ms(start_ms, now_ms),
                }),
            }
        }
    }
}

/// Finishes an item whose store operation has run: returns the handle —
/// this function is the only exit from an acquisition, so the handle is
/// given back on success and failure alike — and packages the completion.
/// A store error is captured as `OperationFailed`; it never skips the
/// return. The elapsed time spans the whole attempt, from the recorded
/// start to the caller's end reading.
///
/// The returned [`ReturnEvent`] tells the caller whether the handle (or a
/// fresh replacement for an invalidated one) was handed to the
/// longest-waiting checkout, which the caller must then wake.
pub fn finish_item(
    pool: &mut ResourcePool,
    item_id: u64,
    handle: ResourceHandle,
    outcome: Result<StoreReply, StoreFault>,
    start_ms: u64,
    end_ms: u64,
) -> (r: (Completion, ReturnEvent))
    requires
        old(pool).wf(),
        old(pool)@.out.contains(handle.id),
    ensures
        final(pool).wf(),
        final(pool)@ == old(pool)@.after_return(handle),
        r.1 == old(pool)@.return_event(handle),
        r.0.item_id == item_id,
        r.0.elapsed_ms == elapsed_since(start_ms, end_ms),
        outcome matches Ok(rep) ==> r.0.status == StatusCategory::Success && r.0.body
            == CompletionBody::Reply(rep),
        outcome matches Err(f) ==> r.0.status == StatusCategory::OperationFailed && r.0.body
            == CompletionBody::Failed(f),
{
    let (status, body) = match outcome {
        Ok(rep) => (StatusCategory::Success, CompletionBody::Reply(rep)),
        Err(f) => (StatusCategory::OperationFailed, CompletionBody::Failed(f)),
    };
    let event = match pool.return_handle(handle) {
        Ok(ev) => ev,
        Err(_) => unreached(),
    };
    let completion = Completion {
        item_id,
        status,
        body,
        elapsed_ms: elapsed_ms(start_ms, end_ms),
    };
    (completion, event)
}

/// Gives up a wait whose deadline passed without a grant. If the ticket
/// was still waiting it is removed — the others keep their order — and the
/// item completes as `ResourceUnavailable`/`PoolExhausted`, its elapsed
/// time covering the full wait. If the ticket is no longer waiting, a
/// return already served it (or the pool closed and cancelled it): nothing
/// is delivered here and the caller proceeds with the handle or the
/// cancellation instead.
pub fn timeout_item(
    pool: &mut ResourcePool,
    item_id: u64,
    ticket: u64,
    start_ms: u64,
    now_ms: u64,
) -> (r: Option<Completion>)
    requires
        old(pool).wf(),
    ensures
        final(pool).wf(),
        final(pool)@ == (crate::pool::PoolModel {
            waiters: old(pool)@.waiters.remove_value(ticket),
            ..old(pool)@
        }),
        old(pool)@.waiters.contains(ticket) ==> r == Some(unavailable_completion(
            item_id,
            CheckoutError::PoolExhausted,
            start_ms,
            now_ms,
        )),
        !old(pool)@.waiters.contains(ticket) ==> r is None,
{
    if pool.abandon_wait(ticket) {
        Some(Completion {
            item_id,
            status: StatusCategory::ResourceUnavailable,
            body: CompletionBody::Unavailable(CheckoutError::PoolExhausted),
            elapsed_ms: elapsed_ms(start_ms, now_ms),
        })
    } else {
        None
    }
}

/// Completes a blocked checkout whose wait was cancelled by the pool's
/// closure: the item fails as `ResourceUnavailable`/`PoolClosed`, its
/// elapsed time covering the wait.
pub fn close_wait_item(item_id: u64, start_ms: u64, now_ms: u64) -> (c: Completion)
    ensures
        c == unavailable_completion(item_id, CheckoutError::PoolClosed, start_ms, now_ms),
{
    Completion {
        item_id,
        status: StatusCategory::ResourceUnavailable,
        body: CompletionBody::Unavailable(CheckoutError::PoolClosed),
        elapsed_ms: elapsed_ms(start_ms, now_ms),
    }
}

/// Completes an item discarded by a non-draining shutdown before any worker
/// picked it up. Its elapsed time runs from its arrival.
pub fn cancel_item(item: &WorkItem, now_ms: u64) -> (c: Completion)
    ensures
        c == (Completion {
            item_id: item.id,
            status: StatusCategory::Cancelled,
            body: CompletionBody::Empty,
            elapsed_ms: elapsed_since(item.arrival_ms, now_ms),
        }),
{
    Completion {
        item_id: item.id,
        status: StatusCategory::Cancelled,
        body: CompletionBody::Empty,
        elapsed_ms: elapsed_ms(item.arrival_ms, now_ms),
    }
}

} // verus!
