use pool_server::dispatcher::Dispatcher;
use pool_server::handler::cancel_item;
use pool_server::status::{StatusCategory, SubmitError};
use pool_server::work::{OpKind, Payload, WorkItem};

fn item(id: u64, arrival_ms: u64) -> WorkItem {
    WorkItem {
        id,
        arrival_ms,
        payload: Payload { op: OpKind::Ping, name: String::new(), age: None },
    }
}

#[test]
fn items_start_in_submission_order() {
    let mut d = Dispatcher::new(2, 0);
    assert_eq!(d.submit(item(1, 0)), Ok(()));
    assert_eq!(d.submit(item(2, 0)), Ok(()));
    assert_eq!(d.submit(item(3, 0)), Ok(()));
    let first = d.take_next().expect("an item is queued");
    let second = d.take_next().expect("an item is queued");
    assert_eq!(first.id, 1);
    assert_eq!(second.id, 2);
    assert_eq!(d.in_flight_count(), 2);
}

#[test]
fn at_most_worker_count_items_run_concurrently() {
    let mut d = Dispatcher::new(2, 0);
    for i in 0..4u64 {
        assert_eq!(d.submit(item(i, 0)), Ok(()));
    }
    assert!(d.take_next().is_some());
    assert!(d.take_next().is_some());
    // Both workers busy: nothing more starts until one finishes.
    assert!(d.take_next().is_none());
    d.finish_one();
    let third = d.take_next().expect("a worker came free");
    assert_eq!(third.id, 2);
}

#[test]
fn bounded_queue_rejects_at_capacity() {
    let mut d = Dispatcher::new(1, 2);
    assert_eq!(d.submit(item(1, 0)), Ok(()));
    assert_eq!(d.submit(item(2, 0)), Ok(()));
    assert_eq!(d.submit(item(3, 0)), Err(SubmitError::QueueFull));
    assert_eq!(d.queued_count(), 2);
}

#[test]
fn shutdown_rejects_new_submissions() {
    let mut d = Dispatcher::new(1, 0);
    assert_eq!(d.submit(item(1, 0)), Ok(()));
    let cancelled = d.shutdown(true);
    assert!(cancelled.is_empty());
    assert_eq!(d.submit(item(2, 0)), Err(SubmitError::ShuttingDown));
    // Draining shutdown: the queued item still runs.
    let left = d.take_next().expect("queued item drains");
    assert_eq!(left.id, 1);
}

#[test]
fn non_draining_shutdown_cancels_queued_items() {
    // Five queued, none in flight: shutdown without drain yields five
    // Cancelled completions and leaves the workers nothing to pick up.
    let mut d = Dispatcher::new(2, 0);
    for i in 0..5u64 {
        assert_eq!(d.submit(item(i, 10)), Ok(()));
    }
    assert_eq!(d.in_flight_count(), 0);
    let cancelled = d.shutdown(false);
    assert_eq!(cancelled.len(), 5);
    let mut completions = Vec::new();
    for it in &cancelled {
        completions.push(cancel_item(it, 40));
    }
    for (i, c) in completions.iter().enumerate() {
        assert_eq!(c.status, StatusCategory::Cancelled);
        assert_eq!(c.item_id, i as u64);
        assert_eq!(c.elapsed_ms, 30);
    }
    // The worker loop finds nothing and terminates at once.
    assert!(d.take_next().is_none());
    assert!(d.is_drained());
}
