use chat_session::response::{classify, is_success, Candidate, Classification, RawResult};

fn candidate(text: &str) -> Candidate {
    Candidate { generated_text: Some(text.to_string()) }
}

#[test]
fn success_statuses_are_the_two_hundreds() {
    assert!(!is_success(0));
    assert!(!is_success(199));
    assert!(is_success(200));
    assert!(is_success(204));
    assert!(is_success(299));
    assert!(!is_success(300));
    assert!(!is_success(404));
    assert!(!is_success(500));
    assert!(!is_success(u16::MAX));
}

#[test]
fn transport_failure_is_a_transport_error() {
    let raw = RawResult::TransportFailure { cause: "connection refused".to_string() };
    assert_eq!(
        classify(&raw),
        Classification::TransportError("connection refused".to_string())
    );
}

#[test]
fn failure_status_is_a_remote_error() {
    let raw = RawResult::Response { status: 500, body: None };
    assert_eq!(classify(&raw), Classification::RemoteError(500));
    let with_body = RawResult::Response { status: 404, body: Some(vec![candidate("ignored")]) };
    assert_eq!(classify(&with_body), Classification::RemoteError(404));
    let redirect = RawResult::Response { status: 300, body: Some(vec![candidate("ignored")]) };
    assert_eq!(classify(&redirect), Classification::RemoteError(300));
}

#[test]
fn first_candidate_is_the_answer() {
    let raw = RawResult::Response {
        status: 200,
        body: Some(vec![candidate(" hi there "), candidate("second")]),
    };
    assert_eq!(classify(&raw), Classification::Success(" hi there ".to_string()));
    let edge = RawResult::Response { status: 299, body: Some(vec![candidate("")]) };
    assert_eq!(classify(&edge), Classification::Success(String::new()));
}

#[test]
fn empty_candidate_sequence_is_a_remote_error() {
    let raw = RawResult::Response { status: 200, body: Some(vec![]) };
    assert_eq!(classify(&raw), Classification::RemoteError(200));
}

#[test]
fn unreadable_body_is_a_remote_error() {
    let raw = RawResult::Response { status: 201, body: None };
    assert_eq!(classify(&raw), Classification::RemoteError(201));
}

#[test]
fn first_candidate_without_text_is_a_remote_error() {
    let raw = RawResult::Response {
        status: 200,
        body: Some(vec![Candidate { generated_text: None }, candidate("second")]),
    };
    assert_eq!(classify(&raw), Classification::RemoteError(200));
}
