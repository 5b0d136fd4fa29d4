//! Batch fetches: folding a response list into a keyed mapping, and the
//! flattening of bad-request reasons on the error path.

use propelauth::config::Configuration;
use propelauth::errors::BatchFetchError;
use propelauth::helpers::flatten_reasons;
use propelauth::helpers::join_parts;
use propelauth::models::UserMetadata;
use propelauth::transport::BadRequestDetails;
use propelauth::transport::ErrorBody;
use propelauth::transport::TransportFailure;
use propelauth::user::UserService;
use propelauth::user_map::UserMap;

fn config() -> Configuration {
    Configuration {
        base_url: "https://auth.example.test".to_string(),
        api_key: "integration-key".to_string(),
    }
}

fn user(id: &str, email: &str, username: Option<&str>) -> UserMetadata {
    UserMetadata {
        user_id: id.to_string(),
        email: email.to_string(),
        username: username.map(|u| u.to_string()),
        enabled: true,
    }
}

#[test]
fn duplicate_keys_keep_the_later_record() {
    let cfg = config();
    let svc = UserService { config: &cfg };
    let users = vec![
        user("a", "first@example.test", None),
        user("a", "second@example.test", None),
    ];
    let map = svc.fetch_users_by_ids(Ok(users)).unwrap();
    assert_eq!(map.len(), 1);
    let kept = map.get(&"a".to_string()).expect("key must be present");
    assert_eq!(kept.email, "second@example.test");
}

#[test]
fn records_without_a_username_are_dropped() {
    let cfg = config();
    let svc = UserService { config: &cfg };
    let users = vec![
        user("u1", "anon@example.test", None),
        user("u2", "bob@example.test", Some("bob")),
    ];
    let map = svc.fetch_users_by_usernames(Ok(users)).unwrap();
    assert_eq!(map.len(), 1);
    assert!(map.contains_key(&"bob".to_string()));
    assert!(!map.contains_key(&"".to_string()));
    let bob = map.get(&"bob".to_string()).expect("bob must be present");
    assert_eq!(bob.user_id, "u2");
}

#[test]
fn emails_key_the_email_mapping() {
    let cfg = config();
    let svc = UserService { config: &cfg };
    let users = vec![
        user("u1", "a@example.test", None),
        user("u2", "b@example.test", None),
    ];
    let map = svc.fetch_users_by_emails(Ok(users)).unwrap();
    assert_eq!(map.len(), 2);
    assert_eq!(map.get(&"a@example.test".to_string()).unwrap().user_id, "u1");
    assert_eq!(map.get(&"b@example.test".to_string()).unwrap().user_id, "u2");
    assert!(map.get(&"c@example.test".to_string()).is_none());
}

#[test]
fn empty_batch_yields_the_empty_mapping() {
    let cfg = config();
    let svc = UserService { config: &cfg };
    let map = svc.fetch_users_by_ids(Ok(Vec::new())).unwrap();
    assert_eq!(map.len(), 0);
}

#[test]
fn empty_mapping_has_no_keys() {
    let map = UserMap::new();
    assert_eq!(map.len(), 0);
    assert!(!map.contains_key(&"anyone".to_string()));
}

#[test]
fn bad_request_reasons_flatten_into_one_message() {
    let cfg = config();
    let svc = UserService { config: &cfg };
    let failure = TransportFailure::Response {
        status: 400,
        body: Some(ErrorBody::BadRequest(BadRequestDetails {
            query: Some(vec![
                "field a invalid".to_string(),
                "field b missing".to_string(),
            ]),
        })),
    };
    match svc.fetch_users_by_ids(Err(failure)) {
        Err(BatchFetchError::BadRequest(message)) => {
            assert_eq!(message, "field a invalid, field b missing");
        }
        _ => panic!("expected a flattened bad-request error"),
    }
}

#[test]
fn absent_reasons_flatten_to_the_generic_message() {
    let cfg = config();
    let svc = UserService { config: &cfg };
    let failure = TransportFailure::Response {
        status: 400,
        body: Some(ErrorBody::BadRequest(BadRequestDetails { query: None })),
    };
    match svc.fetch_users_by_emails(Err(failure)) {
        Err(BatchFetchError::BadRequest(message)) => {
            assert_eq!(message, "Request is invalid");
        }
        _ => panic!("expected the generic bad-request message"),
    }
}

#[test]
fn batch_401_without_body_is_invalid_api_key() {
    let cfg = config();
    let svc = UserService { config: &cfg };
    let failure = TransportFailure::<ErrorBody>::Response {
        status: 401,
        body: None,
    };
    assert!(matches!(
        svc.fetch_users_by_usernames(Err(failure)),
        Err(BatchFetchError::InvalidApiKey)
    ));
}

#[test]
fn batch_connector_failure_is_unexpected() {
    let cfg = config();
    let svc = UserService { config: &cfg };
    assert!(matches!(
        svc.fetch_users_by_ids(Err(TransportFailure::Connector)),
        Err(BatchFetchError::UnexpectedException)
    ));
}

#[test]
fn joining_parts_matches_exact_values() {
    let parts = vec!["one".to_string(), "two".to_string(), "three".to_string()];
    assert_eq!(join_parts(&parts, ", "), "one, two, three");
    assert_eq!(join_parts(&vec!["solo".to_string()], ", "), "solo");
    assert_eq!(join_parts(&Vec::new(), ", "), "");
}

#[test]
fn flattening_reasons_matches_exact_values() {
    assert_eq!(flatten_reasons(None), "Request is invalid");
    assert_eq!(flatten_reasons(Some(Vec::new())), "");
    assert_eq!(
        flatten_reasons(Some(vec!["just one".to_string()])),
        "just one"
    );
}
