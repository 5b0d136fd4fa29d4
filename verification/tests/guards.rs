//! The identifier guard: a malformed identifier settles locally, with no
//! request to send, and a well-formed one passes through unchanged.

use propelauth::config::Configuration;
use propelauth::errors::ErrorsWithNotFound;
use propelauth::errors::UpdateOrgError;
use propelauth::errors::UpdateUserEmailError;
use propelauth::helpers::is_valid_id;
use propelauth::models::FetchUserByIdParams;
use propelauth::models::FetchUsersInOrgParams;
use propelauth::models::UpdateOrgRequest;
use propelauth::models::UpdateUserEmailParams;
use propelauth::models::UpdateUserEmailRequest;
use propelauth::org::OrgService;
use propelauth::transport::Step;
use propelauth::user::UserService;

const GOOD_ID: &str = "123e4567-e89b-12d3-a456-426614174000";

fn config() -> Configuration {
    Configuration {
        base_url: "https://auth.example.test".to_string(),
        api_key: "integration-key".to_string(),
    }
}

#[test]
fn canonical_identifier_is_valid() {
    assert!(is_valid_id(GOOD_ID));
    assert!(is_valid_id("ABCDEF01-2345-6789-abcd-ef0123456789"));
}

#[test]
fn malformed_identifiers_are_rejected() {
    assert!(!is_valid_id(""));
    assert!(!is_valid_id("not-an-identifier"));
    // One character short, one long.
    assert!(!is_valid_id("123e4567-e89b-12d3-a456-42661417400"));
    assert!(!is_valid_id("123e4567-e89b-12d3-a456-4266141740000"));
    // A separator out of place.
    assert!(!is_valid_id("123e4567ae89b-12d3-a456-426614174000-"));
    // A non-hexadecimal character.
    assert!(!is_valid_id("123e4567-e89b-12d3-a456-42661417400g"));
    // Separators only.
    assert!(!is_valid_id("------------------------------------"));
}

#[test]
fn invalid_id_fetch_settles_as_not_found_without_a_call() {
    let cfg = config();
    let svc = UserService { config: &cfg };
    let step = svc.fetch_user_by_id(FetchUserByIdParams {
        user_id: "bogus".to_string(),
        include_orgs: None,
    });
    match step {
        Step::Done(Err(ErrorsWithNotFound::NotFound)) => {}
        _ => panic!("expected a local NotFound settlement"),
    }
}

#[test]
fn valid_id_fetch_sends_the_request_unchanged() {
    let cfg = config();
    let svc = UserService { config: &cfg };
    let step = svc.fetch_user_by_id(FetchUserByIdParams {
        user_id: GOOD_ID.to_string(),
        include_orgs: Some(true),
    });
    match step {
        Step::Call(params) => {
            assert_eq!(params.user_id, GOOD_ID);
            assert_eq!(params.include_orgs, Some(true));
        }
        _ => panic!("expected the request to go out"),
    }
}

#[test]
fn invalid_id_delete_settles_as_not_found() {
    let cfg = config();
    let svc = UserService { config: &cfg };
    match svc.delete_user("123".to_string()) {
        Step::Done(Err(ErrorsWithNotFound::NotFound)) => {}
        _ => panic!("expected a local NotFound settlement"),
    }
}

#[test]
fn invalid_id_email_update_settles_with_the_operation_error() {
    let cfg = config();
    let svc = UserService { config: &cfg };
    let step = svc.update_user_email(UpdateUserEmailParams {
        user_id: "short".to_string(),
        update_user_email_request: UpdateUserEmailRequest {
            new_email: "new@example.test".to_string(),
            require_email_confirmation: true,
        },
    });
    match step {
        Step::Done(Err(UpdateUserEmailError::NotFound)) => {}
        _ => panic!("expected a local NotFound settlement"),
    }
}

#[test]
fn invalid_org_id_fetch_settles_as_not_found() {
    let cfg = config();
    let svc = OrgService { config: &cfg };
    match svc.fetch_org("org".to_string()) {
        Step::Done(Err(ErrorsWithNotFound::NotFound)) => {}
        _ => panic!("expected a local NotFound settlement"),
    }
}

#[test]
fn invalid_org_id_update_settles_as_not_found() {
    let cfg = config();
    let svc = OrgService { config: &cfg };
    let step = svc.update_org(
        "org".to_string(),
        UpdateOrgRequest {
            name: Some("renamed".to_string()),
            can_setup_saml: None,
        },
    );
    match step {
        Step::Done(Err(UpdateOrgError::NotFound)) => {}
        _ => panic!("expected a local NotFound settlement"),
    }
}

#[test]
fn invalid_org_id_user_listing_settles_as_the_empty_page() {
    let cfg = config();
    let svc = OrgService { config: &cfg };
    let step = svc.fetch_users_in_org(FetchUsersInOrgParams {
        org_id: "not-an-org".to_string(),
        page_size: Some(10),
        page_number: Some(0),
        include_orgs: None,
    });
    match step {
        Step::Done(Ok(page)) => {
            assert!(page.users.is_empty());
            assert_eq!(page.total_users, 0);
            assert!(!page.has_more_results);
        }
        _ => panic!("expected a local empty page"),
    }
}

#[test]
fn valid_org_id_user_listing_sends_the_request() {
    let cfg = config();
    let svc = OrgService { config: &cfg };
    let step = svc.fetch_users_in_org(FetchUsersInOrgParams {
        org_id: GOOD_ID.to_string(),
        page_size: None,
        page_number: None,
        include_orgs: None,
    });
    assert!(matches!(step, Step::Call(_)));
}
