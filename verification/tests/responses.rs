use pycurse::{user_agent, Collector, Outcome, Response, TRANSPORT_FAILURE};

#[test]
fn sentinel_is_minus_one() {
    assert_eq!(TRANSPORT_FAILURE, -1);
}

#[test]
fn delivered_keeps_status_and_body() {
    let r = Response::delivered("http://a/".to_string(), 200, vec![1, 2, 3]);
    assert_eq!(r.url(), "http://a/");
    assert_eq!(r.status_code(), 200);
    assert_eq!(r.data(), &vec![1u8, 2, 3]);
    assert!(!r.is_transport_failure());
}

#[test]
fn not_found_is_a_completion_not_a_failure() {
    let r = Response::delivered("http://a/missing".to_string(), 404, b"gone".to_vec());
    assert_eq!(r.status_code(), 404);
    assert_eq!(r.data(), &b"gone".to_vec());
    assert!(!r.is_transport_failure());
}

#[test]
fn server_error_is_kept_verbatim() {
    let r = Response::delivered("http://a/".to_string(), 503, Vec::new());
    assert_eq!(r.status_code(), 503);
    assert!(!r.is_transport_failure());
}

#[test]
fn largest_status_is_not_the_sentinel() {
    let r = Response::delivered("u".to_string(), u32::MAX, Vec::new());
    assert_eq!(r.status_code(), 4294967295);
    assert!(!r.is_transport_failure());
}

#[test]
fn status_zero_is_not_the_sentinel() {
    let r = Response::delivered("u".to_string(), 0, Vec::new());
    assert_eq!(r.status_code(), 0);
    assert!(!r.is_transport_failure());
}

#[test]
fn transport_failure_has_sentinel_and_no_data() {
    let r = Response::transport_failed("http://nowhere.invalid/".to_string());
    assert_eq!(r.url(), "http://nowhere.invalid/");
    assert_eq!(r.status_code(), -1);
    assert!(r.data().is_empty());
    assert!(r.is_transport_failure());
}

#[test]
fn responses_compare_by_content() {
    let a = Response::delivered("u".to_string(), 200, vec![7]);
    let b = Response::delivered("u".to_string(), 200, vec![7]);
    let c = Response::delivered("u".to_string(), 201, vec![7]);
    assert_eq!(a, b);
    assert_ne!(a, c);
    assert_ne!(a, Response::transport_failed("u".to_string()));
}

#[test]
fn outcome_read_from_successful_transport() {
    let o = Outcome::read(true, Some(301), vec![9, 9]);
    assert_eq!(o, Outcome::Delivered { status: 301, body: vec![9, 9] });
}

#[test]
fn outcome_read_without_status() {
    assert_eq!(Outcome::read(true, None, vec![1]), Outcome::StatusMissing);
}

#[test]
fn outcome_read_from_failed_transport_drops_status_and_body() {
    assert_eq!(Outcome::read(false, Some(200), vec![1, 2]), Outcome::TransportFailed);
    assert_eq!(Outcome::read(false, None, Vec::new()), Outcome::TransportFailed);
}

#[test]
fn collector_starts_empty() {
    let c = Collector::new();
    assert!(c.0.is_empty());
}

#[test]
fn collector_appends_chunks_in_order() {
    let mut c = Collector::new();
    assert_eq!(c.write(b"hello "), 6);
    assert_eq!(c.write(b"world"), 5);
    assert_eq!(c.0, b"hello world".to_vec());
}

#[test]
fn collector_takes_an_empty_chunk() {
    let mut c = Collector::new();
    assert_eq!(c.write(b"ab"), 2);
    assert_eq!(c.write(b""), 0);
    assert_eq!(c.0, b"ab".to_vec());
}

#[test]
fn collector_keeps_binary_bytes() {
    let mut c = Collector::new();
    assert_eq!(c.write(&[0, 255, 128]), 3);
    assert_eq!(c.0, vec![0u8, 255, 128]);
}

#[test]
fn user_agent_names_library_and_version() {
    assert_eq!(user_agent("8.5.0"), "curl/8.5.0");
}

#[test]
fn user_agent_of_empty_version() {
    assert_eq!(user_agent(""), "curl/");
}

#[test]
fn client_signature_begins_with_the_library_name() {
    let agent = pycurse::client_signature();
    assert!(agent.starts_with("curl/"));
    assert!(agent.len() > "curl/".len());
    assert_eq!(agent, user_agent(&agent["curl/".len()..]));
}
