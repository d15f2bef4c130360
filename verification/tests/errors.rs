use futures::Future;
use futures::Stream;
use subspedia::FetchError;

fn transport_failure() -> hyper::Error {
    let (sender, body) = hyper::Body::channel();
    sender.abort();
    match body.concat2().wait() {
        Ok(_) => panic!("an aborted body was read to its end"),
        Err(failure) => failure,
    }
}

fn parse_failure(body: &str) -> serde_json::Error {
    match serde_json::from_str::<Vec<u64>>(body) {
        Ok(_) => panic!("the body parsed"),
        Err(failure) => failure,
    }
}

#[test]
fn a_transport_failure_becomes_an_http_error() {
    let cause = transport_failure();
    let said = cause.to_string();
    match FetchError::from(cause) {
        FetchError::Http(kept) => assert_eq!(kept.to_string(), said),
        other => panic!("not an Http error: {:?}", other),
    }
}

#[test]
fn a_parse_failure_becomes_a_json_error() {
    let cause = parse_failure("[1, 2");
    let said = cause.to_string();
    match FetchError::from(cause) {
        FetchError::Json(kept) => assert_eq!(kept.to_string(), said),
        other => panic!("not a Json error: {:?}", other),
    }
}

#[test]
fn a_bare_string_in_place_of_an_array_is_a_json_error() {
    let failure = FetchError::from(parse_failure("\"not an array\""));
    assert!(matches!(failure, FetchError::Json(_)));
}

#[test]
fn a_failure_converts_through_into_as_well() {
    let failure: FetchError = parse_failure("{").into();
    assert!(matches!(failure, FetchError::Json(_)));
    let failure: FetchError = transport_failure().into();
    assert!(matches!(failure, FetchError::Http(_)));
}

fn numbers_in(body: &str) -> Result<Vec<u64>, FetchError> {
    Ok(serde_json::from_str::<Vec<u64>>(body)?)
}

#[test]
fn a_failure_passes_through_the_question_mark() {
    assert_eq!(numbers_in("[1, 2, 3]").unwrap(), vec![1, 2, 3]);
    assert!(matches!(numbers_in("[1, 2, "), Err(FetchError::Json(_))));
}

#[test]
fn a_not_found_error_keeps_its_report() {
    let failure = FetchError::NotFound(String::from("Series with id 7 not found."));
    match failure {
        FetchError::NotFound(report) => assert_eq!(report, "Series with id 7 not found."),
        other => panic!("not a NotFound error: {:?}", other),
    }
}
