//! Narrowing a general credential validation into the personal and the
//! organization shape, and the no-content settlement of mutations.

use propelauth::api_key::ApiKeyService;
use propelauth::config::Configuration;
use propelauth::errors::ApiKeyError;
use propelauth::errors::ErrorsWithNotFound;
use propelauth::models::OrgMetadata;
use propelauth::models::UserInOrgMetadata;
use propelauth::models::UserMetadata;
use propelauth::models::ValidateApiKeyResponse;
use propelauth::transport::ErrorBody;
use propelauth::transport::TransportFailure;
use propelauth::user::UserService;

fn config() -> Configuration {
    Configuration {
        base_url: "https://auth.example.test".to_string(),
        api_key: "integration-key".to_string(),
    }
}

fn a_user() -> UserMetadata {
    UserMetadata {
        user_id: "u1".to_string(),
        email: "u1@example.test".to_string(),
        username: Some("u1name".to_string()),
        enabled: true,
    }
}

fn an_org() -> OrgMetadata {
    OrgMetadata {
        org_id: "o1".to_string(),
        name: "Example Org".to_string(),
    }
}

fn general(user: Option<UserMetadata>, org: Option<OrgMetadata>) -> ValidateApiKeyResponse {
    let user_in_org = org.as_ref().map(|o| UserInOrgMetadata {
        user_id: "u1".to_string(),
        org_id: o.org_id.clone(),
        role: "Member".to_string(),
    });
    ValidateApiKeyResponse {
        metadata: Some("attached".to_string()),
        user,
        org,
        user_in_org,
    }
}

#[test]
fn personal_narrowing_rejects_a_response_with_an_org() {
    let cfg = config();
    let svc = ApiKeyService { config: &cfg };
    let resp = general(Some(a_user()), Some(an_org()));
    match svc.validate_personal_api_key(Ok(resp)) {
        Err(ApiKeyError::InvalidPersonalAPIKey) => {}
        _ => panic!("an organization credential is not a personal one"),
    }
}

#[test]
fn personal_narrowing_rejects_a_response_without_a_user() {
    let cfg = config();
    let svc = ApiKeyService { config: &cfg };
    let resp = general(None, None);
    match svc.validate_personal_api_key(Ok(resp)) {
        Err(ApiKeyError::InvalidPersonalAPIKey) => {}
        _ => panic!("a response without a user is not a personal credential"),
    }
}

#[test]
fn personal_narrowing_embeds_the_user() {
    let cfg = config();
    let svc = ApiKeyService { config: &cfg };
    let resp = general(Some(a_user()), None);
    let narrowed = svc.validate_personal_api_key(Ok(resp)).unwrap();
    assert_eq!(narrowed.user.user_id, "u1");
    assert_eq!(narrowed.metadata.as_deref(), Some("attached"));
}

#[test]
fn org_narrowing_succeeds_with_user_and_org() {
    let cfg = config();
    let svc = ApiKeyService { config: &cfg };
    let resp = general(Some(a_user()), Some(an_org()));
    let narrowed = svc.validate_org_api_key(Ok(resp)).unwrap();
    assert_eq!(narrowed.org.org_id, "o1");
    assert_eq!(narrowed.user.as_ref().map(|u| u.user_id.as_str()), Some("u1"));
    assert_eq!(
        narrowed.user_in_org.as_ref().map(|m| m.role.as_str()),
        Some("Member")
    );
}

#[test]
fn org_narrowing_rejects_a_response_without_an_org() {
    let cfg = config();
    let svc = ApiKeyService { config: &cfg };
    let resp = general(Some(a_user()), None);
    match svc.validate_org_api_key(Ok(resp)) {
        Err(ApiKeyError::InvalidOrgAPIKey) => {}
        _ => panic!("a personal credential is not an organization one"),
    }
}

#[test]
fn narrowing_passes_transport_failures_through_the_table() {
    let cfg = config();
    let svc = ApiKeyService { config: &cfg };
    let failure = TransportFailure::<ErrorBody>::Response {
        status: 404,
        body: None,
    };
    match svc.validate_personal_api_key(Err(failure)) {
        Err(ApiKeyError::NotFound) => {}
        _ => panic!("a remote 404 is a missing record"),
    }
}

#[test]
fn no_content_mutation_propagates_plain_success() {
    let cfg = config();
    let keys = ApiKeyService { config: &cfg };
    assert!(matches!(keys.update_api_key(Ok(())), Ok(())));
    assert!(matches!(keys.delete_api_key(Ok(())), Ok(())));
}

#[test]
fn no_content_mutation_discards_any_payload() {
    let cfg = config();
    let users = UserService { config: &cfg };
    // Whatever body the remote side sent back is dropped on success.
    let r: Result<(), ErrorsWithNotFound> =
        users.delete_user_result(Ok("ignored payload".to_string()));
    assert!(matches!(r, Ok(())));
}
