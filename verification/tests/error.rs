use sendflare_sdk::client::{check_status, read_body};
use sendflare_sdk::{Json, PaginateReq, SendflareClient, SendflareError};

#[test]
fn check_status_accepts_200_to_299_only() {
    assert!(matches!(check_status(200), Ok(())));
    assert!(matches!(check_status(299), Ok(())));
    assert!(matches!(check_status(199), Err(SendflareError::Status(199))));
    assert!(matches!(check_status(300), Err(SendflareError::Status(300))));
    assert!(matches!(check_status(401), Err(SendflareError::Status(401))));
}

#[test]
fn read_body_gives_the_value_or_carries_the_body() {
    let document = Json::parse("{\"page\":1,\"pageSize\":2}");
    let read: Result<PaginateReq, SendflareError> = read_body("anything", document);
    assert!(matches!(read, Ok(PaginateReq { page: 1, page_size: 2 })));
    let none: Result<PaginateReq, SendflareError> = read_body("the body", None);
    match none {
        Err(SendflareError::Decode(body)) => assert_eq!(body, "the body"),
        other => panic!("expected a decode error, got {:?}", other),
    }
    let other: Result<PaginateReq, SendflareError> = read_body("[]", Some(Json::Array(vec![])));
    match other {
        Err(SendflareError::Decode(body)) => assert_eq!(body, "[]"),
        other => panic!("expected a decode error, got {:?}", other),
    }
}

/// An error of the transport, made without a network: a request to an
/// address that is no address fails when it is built.
fn transport_error() -> reqwest::Error {
    reqwest::Client::new().get("not an address").build().unwrap_err()
}

#[test]
fn a_transport_failure_is_a_timeout_only_where_time_ran_out() {
    assert!(matches!(
        SendflareError::transport_failure(true, transport_error()),
        SendflareError::Timeout(_)
    ));
    assert!(matches!(
        SendflareError::transport_failure(false, transport_error()),
        SendflareError::Transport(_)
    ));
    let cause = transport_error();
    assert!(!cause.is_timeout());
    assert!(matches!(SendflareError::from_transport_error(cause), SendflareError::Transport(_)));
}

#[test]
fn a_transport_that_was_not_built_is_a_construction_error() {
    let failed = SendflareClient::from_transport("tok", Err(transport_error()));
    assert!(matches!(failed, Err(SendflareError::Construction(_))));
}

#[test]
fn a_transport_error_is_a_timeout_exactly_where_the_transport_says_so() {
    let cause = transport_error();
    let says = cause.is_timeout();
    let error = SendflareError::from_transport_error(cause);
    assert_eq!(matches!(error, SendflareError::Timeout(_)), says);
    assert_eq!(matches!(error, SendflareError::Transport(_)), !says);
}
