//! Each classification table, one input per variant: the structured body
//! takes precedence, the bare status decides next, and everything else
//! falls through to the unexpected-exception default.

use propelauth::api_key::ApiKeyService;
use propelauth::config::Configuration;
use propelauth::errors::ApiKeyError;
use propelauth::errors::CreateMagicLinkError;
use propelauth::errors::CreateOrgError;
use propelauth::errors::CreateUserError;
use propelauth::errors::ErrorsWithNotFound;
use propelauth::errors::FetchByQueryError;
use propelauth::errors::FetchOrgsByQueryError;
use propelauth::errors::FetchUsersInOrgError;
use propelauth::errors::MigrateUserError;
use propelauth::errors::OrgMissingOrRoleError;
use propelauth::errors::UpdateOrgError;
use propelauth::errors::UpdatePasswordError;
use propelauth::errors::UpdateUserEmailError;
use propelauth::errors::UpdateUserMetadataError;
use propelauth::models::UserMetadata;
use propelauth::org::OrgService;
use propelauth::transport::BadRequestDetails;
use propelauth::transport::ErrorBody;
use propelauth::transport::TransportFailure;
use propelauth::user::UserService;

fn config() -> Configuration {
    Configuration {
        base_url: "https://auth.example.test".to_string(),
        api_key: "integration-key".to_string(),
    }
}

fn status(code: u16) -> TransportFailure<ErrorBody> {
    TransportFailure::Response {
        status: code,
        body: None,
    }
}

fn bad_request_body(reasons: &[&str]) -> TransportFailure<ErrorBody> {
    TransportFailure::Response {
        status: 400,
        body: Some(ErrorBody::BadRequest(BadRequestDetails {
            query: Some(reasons.iter().map(|r| r.to_string()).collect()),
        })),
    }
}

#[test]
fn api_key_page_table_prefers_the_structured_body() {
    let cfg = config();
    let svc = ApiKeyService { config: &cfg };
    // The remote side may use varying statuses for the same structured
    // error; the body wins even beside a status the table knows.
    let failure = TransportFailure::Response {
        status: 404,
        body: Some(ErrorBody::BadRequest(BadRequestDetails {
            query: Some(vec!["page_size too large".to_string()]),
        })),
    };
    match svc.fetch_current_api_keys(Err(failure)) {
        Err(ApiKeyError::BadRequest(details)) => {
            assert_eq!(
                details.query,
                Some(vec!["page_size too large".to_string()])
            );
        }
        _ => panic!("the structured body must be preserved"),
    }
}

#[test]
fn api_key_page_table_statuses() {
    let cfg = config();
    let svc = ApiKeyService { config: &cfg };
    assert!(matches!(
        svc.fetch_archived_api_keys(Err(status(401))),
        Err(ApiKeyError::InvalidIntegrationAPIKey)
    ));
    assert!(matches!(
        svc.fetch_archived_api_keys(Err(status(404))),
        Err(ApiKeyError::NotFound)
    ));
    assert!(matches!(
        svc.fetch_archived_api_keys(Err(status(500))),
        Err(ApiKeyError::UnexpectedExceptionWithSDK)
    ));
    assert!(matches!(
        svc.fetch_current_api_keys(Err(TransportFailure::Connector)),
        Err(ApiKeyError::UnexpectedExceptionWithSDK)
    ));
}

#[test]
fn api_key_lookup_table_treats_404_as_invalid_key() {
    let cfg = config();
    let svc = ApiKeyService { config: &cfg };
    assert!(matches!(
        svc.fetch_api_key(Err(status(404))),
        Err(ApiKeyError::InvalidAPIKey)
    ));
    assert!(matches!(
        svc.update_api_key::<()>(Err(status(404))),
        Err(ApiKeyError::InvalidAPIKey)
    ));
    assert!(matches!(
        svc.delete_api_key::<()>(Err(status(401))),
        Err(ApiKeyError::InvalidIntegrationAPIKey)
    ));
    assert!(matches!(
        svc.delete_api_key::<()>(Err(status(418))),
        Err(ApiKeyError::UnexpectedExceptionWithSDK)
    ));
}

#[test]
fn api_key_creation_table_treats_404_as_missing() {
    let cfg = config();
    let svc = ApiKeyService { config: &cfg };
    assert!(matches!(
        svc.create_api_key(Err(status(404))),
        Err(ApiKeyError::NotFound)
    ));
    assert!(matches!(
        svc.validate_api_key(Err(status(401))),
        Err(ApiKeyError::InvalidIntegrationAPIKey)
    ));
}

#[test]
fn user_fetch_table_covers_each_variant() {
    let cfg = config();
    let svc = UserService { config: &cfg };
    assert!(matches!(
        svc.fetch_user_by_email(Err(status(401))),
        Err(ErrorsWithNotFound::InvalidApiKey)
    ));
    assert!(matches!(
        svc.fetch_user_by_username(Err(status(404))),
        Err(ErrorsWithNotFound::NotFound)
    ));
    assert!(matches!(
        svc.fetch_user_by_id_result(Err(status(503))),
        Err(ErrorsWithNotFound::UnexpectedException)
    ));
    let fetched = svc.fetch_user_by_email(Ok(UserMetadata {
        user_id: "u9".to_string(),
        email: "u9@example.test".to_string(),
        username: None,
        enabled: false,
    }));
    assert_eq!(fetched.unwrap().user_id, "u9");
}

#[test]
fn user_query_table_preserves_the_bad_request_body() {
    let cfg = config();
    let svc = UserService { config: &cfg };
    match svc.fetch_users_by_query(Err(bad_request_body(&["order_by unknown"]))) {
        Err(FetchByQueryError::BadRequest(details)) => {
            assert_eq!(details.query, Some(vec!["order_by unknown".to_string()]));
        }
        _ => panic!("the bad-request body must be preserved"),
    }
    assert!(matches!(
        svc.fetch_users_by_query(Err(status(401))),
        Err(FetchByQueryError::InvalidApiKey)
    ));
    assert!(matches!(
        svc.fetch_users_by_query(Err(TransportFailure::Connector)),
        Err(FetchByQueryError::UnexpectedException)
    ));
}

#[test]
fn user_creation_tables() {
    let cfg = config();
    let svc = UserService { config: &cfg };
    assert!(matches!(
        svc.create_user_result(Err(bad_request_body(&["email taken"]))),
        Err(CreateUserError::BadRequest(_))
    ));
    assert!(matches!(
        svc.create_user_result(Err(status(401))),
        Err(CreateUserError::InvalidApiKey)
    ));
    assert!(matches!(
        svc.migrate_user_result(Err(bad_request_body(&["hash unsupported"]))),
        Err(MigrateUserError::BadRequest(_))
    ));
    assert!(matches!(
        svc.migrate_user_result(Err(status(500))),
        Err(MigrateUserError::UnexpectedException)
    ));
    assert!(matches!(
        svc.create_magic_link_result(Err(bad_request_body(&["email invalid"]))),
        Err(CreateMagicLinkError::BadRequest(_))
    ));
    assert!(matches!(
        svc.create_magic_link_result(Err(status(401))),
        Err(CreateMagicLinkError::InvalidApiKey)
    ));
}

#[test]
fn user_update_tables() {
    let cfg = config();
    let svc = UserService { config: &cfg };
    assert!(matches!(
        svc.update_user_metadata_result::<()>(Err(status(404))),
        Err(UpdateUserMetadataError::NotFound)
    ));
    assert!(matches!(
        svc.update_user_metadata_result::<()>(Err(bad_request_body(&["username taken"]))),
        Err(UpdateUserMetadataError::BadRequest(_))
    ));
    assert!(matches!(
        svc.update_user_email_result::<()>(Err(status(429))),
        Err(UpdateUserEmailError::EmailSentTooRecently)
    ));
    assert!(matches!(
        svc.update_user_email_result::<()>(Err(status(404))),
        Err(UpdateUserEmailError::NotFound)
    ));
    assert!(matches!(
        svc.update_user_password_result::<()>(Err(bad_request_body(&["password weak"]))),
        Err(UpdatePasswordError::BadRequest(_))
    ));
    assert!(matches!(
        svc.update_user_password_result::<()>(Err(status(401))),
        Err(UpdatePasswordError::InvalidApiKey)
    ));
    assert!(matches!(
        svc.disable_user_2fa_result::<()>(Err(status(404))),
        Err(ErrorsWithNotFound::NotFound)
    ));
    assert!(matches!(svc.enable_user_result::<()>(Ok(())), Ok(())));
    assert!(matches!(svc.disable_user_result::<()>(Ok(())), Ok(())));
}

#[test]
fn org_role_table_treats_400_as_unknown_role() {
    let cfg = config();
    let svc = OrgService { config: &cfg };
    assert!(matches!(
        svc.add_user_to_org_result::<()>(Err(status(400))),
        Err(OrgMissingOrRoleError::UnknownRoleError)
    ));
    assert!(matches!(
        svc.change_user_role_in_org_result::<()>(Err(status(404))),
        Err(OrgMissingOrRoleError::NotFound)
    ));
    assert!(matches!(
        svc.add_user_to_org_result::<()>(Err(status(401))),
        Err(OrgMissingOrRoleError::InvalidApiKey)
    ));
    assert!(matches!(
        svc.change_user_role_in_org_result::<()>(Err(TransportFailure::Connector)),
        Err(OrgMissingOrRoleError::UnexpectedException)
    ));
}

#[test]
fn org_query_and_update_tables() {
    let cfg = config();
    let svc = OrgService { config: &cfg };
    assert!(matches!(
        svc.fetch_orgs_by_query(Err(bad_request_body(&["name filter invalid"]))),
        Err(FetchOrgsByQueryError::BadRequest(_))
    ));
    assert!(matches!(
        svc.fetch_orgs_by_query(Err(status(401))),
        Err(FetchOrgsByQueryError::InvalidApiKey)
    ));
    assert!(matches!(
        svc.fetch_users_in_org_result(Err(bad_request_body(&["page_number invalid"]))),
        Err(FetchUsersInOrgError::BadRequest(_))
    ));
    assert!(matches!(
        svc.create_org_result(Err(bad_request_body(&["name taken"]))),
        Err(CreateOrgError::BadRequest(_))
    ));
    assert!(matches!(
        svc.create_org_result(Err(status(500))),
        Err(CreateOrgError::UnexpectedException)
    ));
    assert!(matches!(
        svc.update_org_result::<()>(Err(status(404))),
        Err(UpdateOrgError::NotFound)
    ));
    assert!(matches!(
        svc.update_org_result::<()>(Err(bad_request_body(&["saml not allowed"]))),
        Err(UpdateOrgError::BadRequest(_))
    ));
    assert!(matches!(
        svc.remove_user_from_org_result::<()>(Err(status(404))),
        Err(ErrorsWithNotFound::NotFound)
    ));
    assert!(matches!(svc.fetch_org_result::<()>(Ok(())), Ok(())));
    assert!(matches!(
        svc.allow_org_to_enable_saml_result::<()>(Err(status(401))),
        Err(ErrorsWithNotFound::InvalidApiKey)
    ));
    assert!(matches!(
        svc.disallow_saml_result::<()>(Ok(())),
        Ok(())
    ));
}
