//! A bounded worker pool dispatching requests against a bounded resource pool.
//!
//! The library models a minimal request server built from three parts: a
//! `ResourcePool` that hands out exclusive handles to a shared, serialized
//! resource with blocking-with-timeout checkout and FIFO waiter service; a
//! `Dispatcher` that queues inbound work items and feeds a fixed set of
//! workers; and a per-item handler that validates a payload, checks a handle
//! out, runs one store operation, returns the handle on every path, and
//! packages a `(status, body, elapsed)` result.
//!
//! Everything here is plain bookkeeping on values: the actual listener, the
//! store connections, the clock and the threads live outside the library and
//! drive it through these functions.

pub mod dispatcher;
pub mod handler;
pub mod laws;
pub mod pool;
pub mod response;
pub mod status;
pub mod work;
