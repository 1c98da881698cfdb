use pycurse::{CorrelationTable, Fault, Finished, Outcome, Response};

#[test]
fn new_table_is_empty() {
    let t: CorrelationTable<u32> = CorrelationTable::new();
    assert_eq!(t.len(), 0);
    assert!(t.is_empty());
    assert_eq!(t.next_token(), 0);
    assert_eq!(t.fresh_token(), Some(0));
    assert!(!t.contains(0));
    assert_eq!(t.url(0), None);
    assert_eq!(t.handle(0), None);
}

#[test]
fn register_hands_out_tokens_in_order() {
    let mut t = CorrelationTable::new();
    assert_eq!(t.register("a".to_string(), 'x'), Some(0));
    assert_eq!(t.register("b".to_string(), 'y'), Some(1));
    assert_eq!(t.register("c".to_string(), 'z'), Some(2));
    assert_eq!(t.len(), 3);
    assert_eq!(t.next_token(), 3);
    assert_eq!(t.fresh_token(), Some(3));
    assert_eq!(t.url(0), Some("a"));
    assert_eq!(t.url(1), Some("b"));
    assert_eq!(t.url(2), Some("c"));
    assert_eq!(t.url(3), None);
    assert_eq!(t.handle(0), Some(&'x'));
    assert_eq!(t.handle(1), Some(&'y'));
    assert_eq!(t.handle(2), Some(&'z'));
    assert_eq!(t.handle(3), None);
}

#[test]
fn same_url_twice_gets_two_tokens() {
    let mut t = CorrelationTable::new();
    assert_eq!(t.register("same".to_string(), 1u8), Some(0));
    assert_eq!(t.register("same".to_string(), 2u8), Some(1));
    assert_eq!(t.len(), 2);
    assert_eq!(t.handle(0), Some(&1));
    assert_eq!(t.handle(1), Some(&2));
}

#[test]
fn complete_returns_response_with_registered_url_and_handle() {
    let mut t = CorrelationTable::new();
    t.register("http://one/".to_string(), "h1");
    t.register("http://two/".to_string(), "h2");
    let r = t.complete(1, Outcome::Delivered { status: 200, body: b"two".to_vec() });
    assert_eq!(
        r,
        Ok(Finished {
            token: 1,
            response: Response::delivered("http://two/".to_string(), 200, b"two".to_vec()),
            handle: "h2",
        })
    );
    assert!(!t.contains(1));
    assert!(t.contains(0));
    assert_eq!(t.len(), 1);
    let r = t.complete(0, Outcome::Delivered { status: 404, body: Vec::new() });
    assert_eq!(
        r,
        Ok(Finished {
            token: 0,
            response: Response::delivered("http://one/".to_string(), 404, Vec::new()),
            handle: "h1",
        })
    );
    assert!(t.is_empty());
}

#[test]
fn complete_after_transport_failure() {
    let mut t = CorrelationTable::new();
    t.register("http://down/".to_string(), 7u32);
    let done = t.complete(0, Outcome::TransportFailed).unwrap();
    assert_eq!(done.token, 0);
    assert_eq!(done.handle, 7);
    assert_eq!(done.response.url(), "http://down/");
    assert_eq!(done.response.status_code(), -1);
    assert!(done.response.data().is_empty());
    assert!(t.is_empty());
}

#[test]
fn complete_unknown_token_is_a_fault() {
    let mut t = CorrelationTable::new();
    t.register("a".to_string(), ());
    assert_eq!(t.complete(5, Outcome::TransportFailed), Err(Fault::UnknownToken { token: 5 }));
    assert_eq!(t.len(), 1);
    assert_eq!(t.url(0), Some("a"));
}

#[test]
fn complete_twice_is_a_fault() {
    let mut t = CorrelationTable::new();
    t.register("a".to_string(), ());
    assert!(t.complete(0, Outcome::TransportFailed).is_ok());
    assert_eq!(
        t.complete(0, Outcome::Delivered { status: 200, body: Vec::new() }),
        Err(Fault::UnknownToken { token: 0 })
    );
}

#[test]
fn missing_status_is_a_fault_and_keeps_the_entry() {
    let mut t = CorrelationTable::new();
    t.register("a".to_string(), 3u8);
    assert_eq!(t.complete(0, Outcome::StatusMissing), Err(Fault::StatusMissing { token: 0 }));
    assert!(t.contains(0));
    assert_eq!(t.handle(0), Some(&3));
    assert_eq!(t.len(), 1);
}

#[test]
fn unknown_token_comes_before_missing_status() {
    let mut t: CorrelationTable<()> = CorrelationTable::new();
    assert_eq!(t.complete(3, Outcome::StatusMissing), Err(Fault::UnknownToken { token: 3 }));
}

#[test]
fn tokens_are_not_reused_after_completion() {
    let mut t = CorrelationTable::new();
    assert_eq!(t.register("a".to_string(), ()), Some(0));
    assert!(t.complete(0, Outcome::TransportFailed).is_ok());
    assert_eq!(t.register("b".to_string(), ()), Some(1));
    assert_eq!(t.url(0), None);
    assert_eq!(t.url(1), Some("b"));
}

#[test]
fn thousand_round_trips_leave_no_entry() {
    let mut t = CorrelationTable::new();
    for round in 0..1000usize {
        let url = format!("http://host/{}", round);
        let token = t.register(url.clone(), round * 2).unwrap();
        assert_eq!(token, round);
        assert_eq!(t.len(), 1);
        let outcome = if round % 2 == 0 {
            Outcome::Delivered { status: 200, body: vec![1] }
        } else {
            Outcome::TransportFailed
        };
        let done = t.complete(token, outcome).unwrap();
        assert_eq!(done.response.url(), url);
        assert_eq!(done.handle, round * 2);
        assert_eq!(t.len(), 0);
        assert!(!t.contains(token));
    }
    assert_eq!(t.next_token(), 1000);
}

#[test]
fn out_of_order_completion_keeps_urls_and_handles_apart() {
    let mut t = CorrelationTable::new();
    let mut tokens = Vec::new();
    for i in 0..50usize {
        tokens.push(t.register(format!("http://host/{}", i), format!("handle {}", i)).unwrap());
    }
    let mut order: Vec<usize> = (0..50).collect();
    order.reverse();
    order.swap(3, 40);
    order.swap(10, 11);
    for i in order {
        let done = t
            .complete(tokens[i], Outcome::Delivered { status: 200, body: Vec::new() })
            .unwrap();
        assert_eq!(done.response.url(), format!("http://host/{}", i));
        assert_eq!(done.handle, format!("handle {}", i));
    }
    assert!(t.is_empty());
}

#[test]
fn table_can_start_at_a_given_token() {
    let mut t = CorrelationTable::starting_at(41);
    assert!(t.is_empty());
    assert_eq!(t.next_token(), 41);
    assert_eq!(t.register("a".to_string(), ()), Some(41));
    assert_eq!(t.register("b".to_string(), ()), Some(42));
    assert_eq!(t.url(41), Some("a"));
    assert_eq!(t.url(0), None);
}

#[test]
fn last_token_before_exhaustion_is_handed_out() {
    let mut t = CorrelationTable::starting_at(usize::MAX - 1);
    assert_eq!(t.fresh_token(), Some(usize::MAX - 1));
    assert_eq!(t.register("last".to_string(), ()), Some(usize::MAX - 1));
    assert_eq!(t.next_token(), usize::MAX);
    assert_eq!(t.fresh_token(), None);
    assert_eq!(t.url(usize::MAX - 1), Some("last"));
}

#[test]
fn exhausted_table_registers_nothing() {
    let mut t = CorrelationTable::starting_at(usize::MAX);
    assert_eq!(t.fresh_token(), None);
    assert_eq!(t.register("late".to_string(), ()), None);
    assert!(t.is_empty());
    assert_eq!(t.next_token(), usize::MAX);
    assert_eq!(t.register("late".to_string(), ()), None);
}
