//! Error taxonomy and result status categories.
//!
//! Every per-item failure is captured in a status category and reported back
//! through the completion; none of these conditions is fatal to the process.

use vstd::prelude::*;

verus! {

/// Why a checkout request was refused.
#[derive(Clone, Copy, Debug, PartialEq, Eq, Structural)]
pub enum CheckoutError {
    /// No handle became idle within the timeout (or, for a zero timeout,
    /// none was idle at the moment of the probe).
    PoolExhausted,
    /// The pool was closed before or during the checkout.
    PoolClosed,
}

/// A pool bookkeeping violation: the returned handle is not one of the
/// handles currently checked out (double return or foreign handle).
#[derive(Clone, Copy, Debug, PartialEq, Eq, Structural)]
pub enum ReturnError {
    InvalidReturn,
}

/// Why the dispatcher refused a submission.
#[derive(Clone, Copy, Debug, PartialEq, Eq, Structural)]
pub enum SubmitError {
    /// The intake queue is bounded and at capacity.
    QueueFull,
    /// Shutdown has begun; no new work is accepted.
    ShuttingDown,
}

/// What made a payload invalid, established before the pool is touched.
#[derive(Clone, Copy, Debug, PartialEq, Eq, Structural)]
pub enum ValidationFault {
    /// The key field is empty.
    EmptyName,
    /// The operation writes an attribute but none was supplied.
    MissingAge,
}

/// The status category of one completed work item: exactly one of these is
/// delivered for every item, whatever stage failed.
#[derive(Clone, Copy, Debug, PartialEq, Eq, Structural)]
pub enum StatusCategory {
    /// The store operation ran and reported success.
    Success,
    /// The payload was malformed; the resource pool was never touched.
    ValidationError,
    /// Checkout failed: the pool was exhausted for the whole timeout, or
    /// closed.
    ResourceUnavailable,
    /// The store operation itself errored; the handle was still returned.
    OperationFailed,
    /// The item was discarded by a non-draining shutdown before a worker
    /// picked it up.
    Cancelled,
}

} // verus!
