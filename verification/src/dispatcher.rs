//! The dispatcher: a bounded intake queue feeding a fixed set of workers.
//!
//! Submissions append to the queue; workers take items from the front, so
//! items start in strict submission order, with at most `workers` of them
//! executing at any instant. A bounded queue rejects submissions at
//! capacity — the admission-control point — and shutdown either drains the
//! queue or hands the still-queued items back for cancellation.
//!
//! The dispatcher is driven from outside: the worker threads themselves,
//! and the blocking that feeds them, live with the caller.

use vstd::prelude::*;

use crate::status::SubmitError;
use crate::work::WorkItem;

verus! {

/// The mathematical state of a [`Dispatcher`].
#[verifier::ext_equal]
pub ghost struct DispatcherModel {
    /// Fixed worker count.
    pub workers: nat,
    /// Intake queue bound; zero means unbounded.
    pub capacity: nat,
    /// Queued items, oldest first.
    pub queue: Seq<WorkItem>,
    /// Items currently being executed by workers.
    pub in_flight: nat,
    /// Whether shutdown has begun.
    pub down: bool,
}

impl DispatcherModel {
    /// Well-formedness: at least one worker, no more items in flight than
    /// workers, and a bounded queue within its bound.
    pub open spec fn wf(self) -> bool {
        &&& 1 <= self.workers
        &&& self.in_flight <= self.workers
        &&& self.capacity > 0 ==> self.queue.len() <= self.capacity
    }

    /// A submission is accepted: shutdown has not begun and the queue has
    /// room.
    pub open spec fn accepts(self) -> bool {
        !self.down && (self.capacity == 0 || self.queue.len() < self.capacity)
    }

    /// A worker can start an item: one is queued and a worker is free.
    pub open spec fn can_start(self) -> bool {
        self.queue.len() > 0 && self.in_flight < self.workers
    }

    /// Nothing queued and nothing in flight: after shutdown, the workers
    /// can terminate.
    pub open spec fn drained(self) -> bool {
        self.queue.len() == 0 && self.in_flight == 0
    }
}

/// A fixed set of workers pulling [`WorkItem`]s from a FIFO intake queue.
pub struct Dispatcher {
    worker_count: usize,
    capacity: usize,
    queue: Vec<WorkItem>,
    in_flight: usize,
    shutting_down: bool,
}

impl View for Dispatcher {
    type V = DispatcherModel;

    closed spec fn view(&self) -> DispatcherModel {
        DispatcherModel {
            workers: self.worker_count as nat,
            capacity: self.capacity as nat,
            queue: self.queue@,
            in_flight: self.in_flight as nat,
            down: self.shutting_down,
        }
    }
}

impl Dispatcher {
    pub open spec fn wf(self) -> bool {
        self@.wf()
    }

    /// Creates an idle dispatcher with `worker_count` workers and an intake
    /// queue bounded at `capacity` items (zero: unbounded).
    pub fn new(worker_count: usize, capacity: usize) -> (d: Dispatcher)
        requires
            1 <= worker_count,
        ensures
            d.wf(),
            d@ == (DispatcherModel {
                workers: worker_count as nat,
                capacity: capacity as nat,
                queue: Seq::<WorkItem>::empty(),
                in_flight: 0,
                down: false,
            }),
    {
        Dispatcher {
            worker_count,
            capacity,
            queue: Vec::new(),
            in_flight: 0,
            shutting_down: false,
        }
    }

    /// Enqueues a work item. Refused with `ShuttingDown` once shutdown has
    /// begun and with `QueueFull` when a bounded queue is at capacity; the
    /// refusal is the backpressure signal to the listener.
    pub fn submit(&mut self, item: WorkItem) -> (r: Result<(), SubmitError>)
        requires
            old(self).wf(),
        ensures
            final(self).wf(),
            old(self)@.down ==> {
                &&& r == Err::<(), SubmitError>(SubmitError::ShuttingDown)
                &&& final(self)@ == old(self)@
            },
            !old(self)@.down && !old(self)@.accepts() ==> {
                &&& r == Err::<(), SubmitError>(SubmitError::QueueFull)
                &&& final(self)@ == old(self)@
            },
            old(self)@.accepts() ==> {
                &&& r == Ok::<(), SubmitError>(())
                &&& final(self)@ == (DispatcherModel {
                    queue: old(self)@.queue.push(item),
                    ..old(self)@
                })
            },
    {
        if self.shutting_down {
            return Err(SubmitError::ShuttingDown);
        }
        if self.capacity > 0 && self.queue.len() >= self.capacity {
            return Err(SubmitError::QueueFull);
        }
        self.queue.push(item);
        proof {
            assert(self@ =~= (DispatcherModel { queue: old(self)@.queue.push(item), ..old(self)@ }));
        }
        Ok(())
    }

    /// Hands the oldest queued item to a free worker, counting it in
    /// flight. Returns nothing when the queue is empty or all workers are
    /// busy. Items still start after shutdown has begun: a draining
    /// shutdown lets the queue empty through here.
    pub fn take_next(&mut self) -> (r: Option<WorkItem>)
        requires
            old(self).wf(),
        ensures
            final(self).wf(),
            old(self)@.can_start() ==> {
                &&& r == Some(old(self)@.queue.first())
                &&& final(self)@ == (DispatcherModel {
                    queue: old(self)@.queue.drop_first(),
                    in_flight: old(self)@.in_flight + 1,
                    ..old(self)@
                })
            },
            !old(self)@.can_start() ==> r is None && final(self)@ == old(self)@,
    {
        if self.queue.len() > 0 && self.in_flight < self.worker_count {
            let item = self.queue.remove(0);
            self.in_flight = self.in_flight + 1;
            proof {
                assert(self@ =~= (DispatcherModel {
                    queue: old(self)@.queue.drop_first(),
                    in_flight: old(self)@.in_flight + 1,
                    ..old(self)@
                }));
            }
            Some(item)
        } else {
            None
        }
    }

    /// Marks one in-flight item finished, freeing its worker.
    pub fn finish_one(&mut self)
        requires
            old(self).wf(),
            old(self)@.in_flight >= 1,
        ensures
            final(self).wf(),
            final(self)@ == (DispatcherModel {
                in_flight: (old(self)@.in_flight - 1) as nat,
                ..old(self)@
            }),
    {
        self.in_flight = self.in_flight - 1;
        proof {
            assert(self@ =~= (DispatcherModel {
                in_flight: (old(self)@.in_flight - 1) as nat,
                ..old(self)@
            }));
        }
    }

    /// Begins shutdown: no further submission is accepted. With `drain`,
    /// queued items are left to finish through [`Self::take_next`]; without
    /// it, the still-queued items are removed and handed back, oldest
    /// first, for the caller to cancel. In-flight items always finish.
    pub fn shutdown(&mut self, drain: bool) -> (cancelled: Vec<WorkItem>)
        requires
            old(self).wf(),
        ensures
            final(self).wf(),
            drain ==> {
                &&& cancelled@ == Seq::<WorkItem>::empty()
                &&& final(self)@ == (DispatcherModel { down: true, ..old(self)@ })
            },
            !drain ==> {
                &&& cancelled@ == old(self)@.queue
                &&& final(self)@ == (DispatcherModel {
                    down: true,
                    queue: Seq::<WorkItem>::empty(),
                    ..old(self)@
                })
            },
    {
        self.shutting_down = true;
        let mut cancelled: Vec<WorkItem> = Vec::new();
        if !drain {
            core::mem::swap(&mut cancelled, &mut self.queue);
        }
        proof {
            if drain {
                assert(self@ =~= (DispatcherModel { down: true, ..old(self)@ }));
            } else {
                assert(self@ =~= (DispatcherModel {
                    down: true,
                    queue: Seq::<WorkItem>::empty(),
                    ..old(self)@
                }));
            }
        }
        cancelled
    }

    /// Fixed worker count.
    pub fn worker_count(&self) -> (n: usize)
        ensures
            n == self@.workers,
    {
        self.worker_count
    }

    /// Intake queue bound; zero means unbounded.
    pub fn capacity(&self) -> (n: usize)
        ensures
            n == self@.capacity,
    {
        self.capacity
    }

    /// Number of queued items not yet started.
    pub fn queued_count(&self) -> (n: usize)
        ensures
            n == self@.queue.len(),
    {
        self.queue.len()
    }

    /// Number of items currently being executed.
    pub fn in_flight_count(&self) -> (n: usize)
        ensures
            n == self@.in_flight,
    {
        self.in_flight
    }

    /// Whether shutdown has begun.
    pub fn is_shutting_down(&self) -> (b: bool)
        ensures
            b == self@.down,
    {
        self.shutting_down
    }

    /// Whether, after shutdown, the workers can terminate: nothing queued
    /// and nothing in flight.
    pub fn is_drained(&self) -> (b: bool)
        ensures
            b == self@.drained(),
    {
        self.queue.len() == 0 && self.in_flight == 0
    }
}

} // verus!
