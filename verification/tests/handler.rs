use pool_server::handler::{
    begin_item, cancel_item, close_wait_item, elapsed_ms, finish_item, timeout_item, BeginOutcome,
    Completion, CompletionBody, StoreFault, StoreReply,
};
use pool_server::pool::{CheckoutOutcome, ResourcePool, ReturnEvent};
use pool_server::response::ApiResponse;
use pool_server::status::{CheckoutError, StatusCategory, ValidationFault};
use pool_server::work::{OpKind, Payload, WorkItem};

fn insert_item(id: u64, name: &str, age: Option<i32>) -> WorkItem {
    WorkItem {
        id,
        arrival_ms: 0,
        payload: Payload { op: OpKind::Insert, name: String::from(name), age },
    }
}

#[test]
fn validation_checks_key_then_attribute() {
    let empty = Payload { op: OpKind::Select, name: String::new(), age: None };
    assert_eq!(empty.validate(), Err(ValidationFault::EmptyName));
    let no_age = Payload { op: OpKind::Insert, name: String::from("Alice"), age: None };
    assert_eq!(no_age.validate(), Err(ValidationFault::MissingAge));
    let read = Payload { op: OpKind::Select, name: String::from("Alice"), age: None };
    assert_eq!(read.validate(), Ok(()));
    let ping = Payload { op: OpKind::Ping, name: String::new(), age: None };
    assert_eq!(ping.validate(), Ok(()));
}

#[test]
fn invalid_payloads_never_touch_the_pool() {
    // Many malformed payloads against a pool of one: every item completes
    // at once as a validation error, none blocks on or consumes the pool.
    let mut pool = ResourcePool::new(1, 1000);
    for i in 0..6u64 {
        let bad = insert_item(i, "", Some(30));
        match begin_item(&mut pool, &bad, 1000, 0, 0) {
            BeginOutcome::Done(c) => {
                assert_eq!(c.status, StatusCategory::ValidationError);
                assert_eq!(c.body, CompletionBody::Invalid(ValidationFault::EmptyName));
                assert_eq!(c.item_id, i);
            }
            BeginOutcome::Acquired(_) => panic!("invalid item acquired a handle"),
            BeginOutcome::Waiting(_) => panic!("invalid item blocked on the pool"),
        }
        assert_eq!(pool.outstanding_count(), 0);
        assert_eq!(pool.waiting_count(), 0);
    }
    // The pool is still fully available afterwards.
    assert!(matches!(pool.checkout(0), CheckoutOutcome::Granted(_)));
}

#[test]
fn full_sequence_success_returns_handle() {
    let mut pool = ResourcePool::new(1, 0);
    let it = insert_item(7, "Alice", Some(30));
    let h = match begin_item(&mut pool, &it, 0, 100, 100) {
        BeginOutcome::Acquired(h) => h,
        _ => panic!("expected to acquire"),
    };
    assert_eq!(pool.outstanding_count(), 1);
    let (c, ev) = finish_item(&mut pool, it.id, h, Ok(StoreReply::Count(1)), 100, 160);
    assert_eq!(ev, ReturnEvent::Idled);
    assert_eq!(c.item_id, 7);
    assert_eq!(c.status, StatusCategory::Success);
    assert_eq!(c.body, CompletionBody::Reply(StoreReply::Count(1)));
    assert_eq!(c.elapsed_ms, 60);
    // The checkout was matched by exactly one return: nothing leaked.
    assert_eq!(pool.outstanding_count(), 0);
    assert_eq!(pool.idle_count(), 1);
}

#[test]
fn store_failure_still_returns_handle() {
    let mut pool = ResourcePool::new(1, 0);
    let it = insert_item(8, "Bob", Some(41));
    let h = match begin_item(&mut pool, &it, 0, 0, 0) {
        BeginOutcome::Acquired(h) => h,
        _ => panic!("expected to acquire"),
    };
    let (c, ev) = finish_item(&mut pool, it.id, h, Err(StoreFault { code: 19 }), 0, 25);
    assert_eq!(ev, ReturnEvent::Idled);
    assert_eq!(c.status, StatusCategory::OperationFailed);
    assert_eq!(c.body, CompletionBody::Failed(StoreFault { code: 19 }));
    assert_eq!(c.elapsed_ms, 25);
    assert_eq!(pool.outstanding_count(), 0);
    assert_eq!(pool.idle_count(), 1);
}

#[test]
fn exhausted_pool_with_zero_timeout_completes_unavailable() {
    let mut pool = ResourcePool::new(1, 0);
    let first = insert_item(1, "Alice", Some(30));
    let _held = match begin_item(&mut pool, &first, 0, 0, 0) {
        BeginOutcome::Acquired(h) => h,
        _ => panic!("expected to acquire"),
    };
    let second = insert_item(2, "Bob", Some(41));
    match begin_item(&mut pool, &second, 0, 5, 5) {
        BeginOutcome::Done(c) => {
            assert_eq!(c.status, StatusCategory::ResourceUnavailable);
            assert_eq!(c.body, CompletionBody::Unavailable(CheckoutError::PoolExhausted));
        }
        _ => panic!("expected an immediate refusal"),
    }
}

#[test]
fn closed_pool_completes_unavailable() {
    let mut pool = ResourcePool::new(1, 0);
    pool.close();
    let it = insert_item(3, "Alice", Some(30));
    match begin_item(&mut pool, &it, 100, 0, 0) {
        BeginOutcome::Done(c) => {
            assert_eq!(c.status, StatusCategory::ResourceUnavailable);
            assert_eq!(c.body, CompletionBody::Unavailable(CheckoutError::PoolClosed));
        }
        _ => panic!("expected a refusal on the closed pool"),
    }
}

#[test]
fn timed_out_wait_completes_unavailable_with_full_wait_time() {
    let mut pool = ResourcePool::new(1, 200);
    let first = insert_item(1, "Alice", Some(30));
    let _held = match begin_item(&mut pool, &first, 200, 0, 0) {
        BeginOutcome::Acquired(h) => h,
        _ => panic!("expected to acquire"),
    };
    let second = insert_item(2, "Bob", Some(41));
    let ticket = match begin_item(&mut pool, &second, 200, 10, 10) {
        BeginOutcome::Waiting(t) => t,
        _ => panic!("expected to wait"),
    };
    let c = timeout_item(&mut pool, 2, ticket, 10, 210).expect("the wait was still pending");
    assert_eq!(c.status, StatusCategory::ResourceUnavailable);
    assert_eq!(c.body, CompletionBody::Unavailable(CheckoutError::PoolExhausted));
    assert_eq!(c.elapsed_ms, 200);
    // A second timeout of the same ticket finds nothing to abandon.
    assert!(timeout_item(&mut pool, 2, ticket, 10, 220).is_none());
}

#[test]
fn cancelled_wait_completes_as_pool_closed() {
    let c = close_wait_item(4, 10, 35);
    assert_eq!(c.item_id, 4);
    assert_eq!(c.status, StatusCategory::ResourceUnavailable);
    assert_eq!(c.body, CompletionBody::Unavailable(CheckoutError::PoolClosed));
    assert_eq!(c.elapsed_ms, 25);
}

#[test]
fn cancelled_item_elapsed_runs_from_arrival() {
    let it = WorkItem {
        id: 9,
        arrival_ms: 50,
        payload: Payload { op: OpKind::Ping, name: String::new(), age: None },
    };
    let c = cancel_item(&it, 75);
    assert_eq!(
        c,
        Completion {
            item_id: 9,
            status: StatusCategory::Cancelled,
            body: CompletionBody::Empty,
            elapsed_ms: 25,
        }
    );
}

#[test]
fn elapsed_is_exact_and_clamped() {
    assert_eq!(elapsed_ms(100, 160), 60);
    assert_eq!(elapsed_ms(100, 100), 0);
    assert_eq!(elapsed_ms(160, 100), 0);
}

#[test]
fn error_response_carries_message_and_time() {
    let r = ApiResponse::error("Invalid JSON data", 12);
    assert_eq!(r.status, "Error");
    assert_eq!(r.data, None);
    assert_eq!(r.error.as_deref(), Some("Invalid JSON data"));
    assert_eq!(r.time_taken_ms, 12);
}

#[test]
fn completion_response_uses_status_line() {
    let c = Completion {
        item_id: 1,
        status: StatusCategory::Success,
        body: CompletionBody::Reply(StoreReply::Rows(1)),
        elapsed_ms: 8,
    };
    let r = ApiResponse::for_completion(&c, Some(String::from("Alice")), "");
    assert_eq!(r.status, "Ok");
    assert_eq!(r.data.as_deref(), Some("Alice"));
    assert_eq!(r.error, None);
    assert_eq!(r.time_taken_ms, 8);

    let f = Completion {
        item_id: 2,
        status: StatusCategory::OperationFailed,
        body: CompletionBody::Failed(StoreFault { code: 5 }),
        elapsed_ms: 3,
    };
    let rf = ApiResponse::for_completion(&f, None, "constraint violation");
    assert_eq!(rf.status, "Operation failed");
    assert_eq!(rf.error.as_deref(), Some("constraint violation"));
}
