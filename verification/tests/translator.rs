//! The error translator: totality over every (status, body) pair, and the
//! connector-failure short circuit.

use propelauth::errors::classify_not_found;
use propelauth::errors::ErrorsWithNotFound;
use propelauth::transport::map_autogenerated_error;
use propelauth::transport::BadRequestDetails;
use propelauth::transport::ErrorBody;
use propelauth::transport::TransportFailure;

#[test]
fn response_401_maps_to_invalid_api_key() {
    let e = map_autogenerated_error(
        TransportFailure::<ErrorBody>::Response {
            status: 401,
            body: None,
        },
        ErrorsWithNotFound::UnexpectedException,
        classify_not_found,
    );
    assert!(matches!(e, ErrorsWithNotFound::InvalidApiKey));
}

#[test]
fn response_404_maps_to_not_found() {
    let e = map_autogenerated_error(
        TransportFailure::<ErrorBody>::Response {
            status: 404,
            body: None,
        },
        ErrorsWithNotFound::UnexpectedException,
        classify_not_found,
    );
    assert!(matches!(e, ErrorsWithNotFound::NotFound));
}

#[test]
fn every_status_translates_to_exactly_one_variant() {
    for status in 0u16..1000u16 {
        let e = map_autogenerated_error(
            TransportFailure::<ErrorBody>::Response { status, body: None },
            ErrorsWithNotFound::UnexpectedException,
            classify_not_found,
        );
        match e {
            ErrorsWithNotFound::InvalidApiKey => assert_eq!(status, 401),
            ErrorsWithNotFound::NotFound => assert_eq!(status, 404),
            ErrorsWithNotFound::UnexpectedException => {
                assert!(status != 401 && status != 404)
            }
        }
    }
}

#[test]
fn every_status_with_decoded_body_translates() {
    for status in 0u16..1000u16 {
        let body = Some(ErrorBody::BadRequest(BadRequestDetails {
            query: Some(vec!["reason".to_string()]),
        }));
        let e = map_autogenerated_error(
            TransportFailure::Response { status, body },
            ErrorsWithNotFound::UnexpectedException,
            classify_not_found,
        );
        // This table ignores the body; the bare status decides.
        match e {
            ErrorsWithNotFound::InvalidApiKey => assert_eq!(status, 401),
            ErrorsWithNotFound::NotFound => assert_eq!(status, 404),
            ErrorsWithNotFound::UnexpectedException => {
                assert!(status != 401 && status != 404)
            }
        }
    }
}

#[test]
fn connector_failure_returns_the_default() {
    let e = map_autogenerated_error(
        TransportFailure::<ErrorBody>::Connector,
        ErrorsWithNotFound::UnexpectedException,
        classify_not_found,
    );
    assert!(matches!(e, ErrorsWithNotFound::UnexpectedException));
}

#[test]
fn connector_failure_never_consults_the_classifier() {
    let e = map_autogenerated_error(
        TransportFailure::<ErrorBody>::Connector,
        ErrorsWithNotFound::UnexpectedException,
        |_status: u16, _body: Option<ErrorBody>| -> ErrorsWithNotFound {
            panic!("the classifier must not run for a connector failure")
        },
    );
    assert!(matches!(e, ErrorsWithNotFound::UnexpectedException));
}

#[test]
fn connector_failure_ignores_what_the_table_would_say() {
    // A table that never yields the default still loses to the default on
    // a connector failure.
    let e = map_autogenerated_error(
        TransportFailure::<ErrorBody>::Connector,
        ErrorsWithNotFound::UnexpectedException,
        |_status: u16, _body: Option<ErrorBody>| ErrorsWithNotFound::NotFound,
    );
    assert!(matches!(e, ErrorsWithNotFound::UnexpectedException));
}
