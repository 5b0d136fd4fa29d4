//! The domain error enumerations, one closed set of variants per operation
//! family, and the classification tables that map a response failure's
//! (status, decoded body) pair to one of them.
//!
//! Every table is total. Where an operation expects a structured
//! bad-request body, that body is matched first, whatever the status —
//! the remote side may use varying statuses for the same structured error —
//! and only then the bare status code; every unmatched combination falls
//! through to the same unexpected-exception variant that also covers
//! connector failures.

use vstd::prelude::*;
use crate::helpers::flat_reasons;
use crate::helpers::flatten_reasons;
use crate::transport::BadRequestDetails;
use crate::transport::ErrorBody;
use crate::transport::TransportFailure;
use crate::transport::translated;

verus! {

/// Errors of the API-key operations.
#[derive(Debug, Clone)]
pub enum ApiKeyError {
    UnexpectedExceptionWithSDK,
    InvalidIntegrationAPIKey,
    NotFound,
    InvalidAPIKey,
    InvalidPersonalAPIKey,
    InvalidOrgAPIKey,
    BadRequest(BadRequestDetails),
}

/// Errors of operations whose only named outcomes are an unauthorized
/// credential and a missing record.
#[derive(Debug, Clone)]
pub enum ErrorsWithNotFound {
    UnexpectedException,
    InvalidApiKey,
    NotFound,
}

/// Errors of the batch user fetches, whose bad-request reasons arrive
/// flattened into one readable message.
#[derive(Debug, Clone)]
pub enum BatchFetchError {
    UnexpectedException,
    InvalidApiKey,
    BadRequest(String),
}

/// Errors of the paged user query.
#[derive(Debug, Clone)]
pub enum FetchByQueryError {
    UnexpectedException,
    InvalidApiKey,
    BadRequest(BadRequestDetails),
}

/// Errors of user creation.
#[derive(Debug, Clone)]
pub enum CreateUserError {
    UnexpectedException,
    InvalidApiKey,
    BadRequest(BadRequestDetails),
}

/// Errors of user migration.
#[derive(Debug, Clone)]
pub enum MigrateUserError {
    UnexpectedException,
    InvalidApiKey,
    BadRequest(BadRequestDetails),
}

/// Errors of magic-link creation.
#[derive(Debug, Clone)]
pub enum CreateMagicLinkError {
    UnexpectedException,
    InvalidApiKey,
    BadRequest(BadRequestDetails),
}

/// Errors of the user-metadata update.
#[derive(Debug, Clone)]
pub enum UpdateUserMetadataError {
    UnexpectedException,
    InvalidApiKey,
    NotFound,
    BadRequest(BadRequestDetails),
}

/// Errors of the user-email update, including the rate-limited
/// confirmation-mail case.
#[derive(Debug, Clone)]
pub enum UpdateUserEmailError {
    UnexpectedException,
    InvalidApiKey,
    NotFound,
    EmailSentTooRecently,
    BadRequest(BadRequestDetails),
}

/// Errors of the password update.
#[derive(Debug, Clone)]
pub enum UpdatePasswordError {
    UnexpectedException,
    InvalidApiKey,
    NotFound,
    BadRequest(BadRequestDetails),
}

/// Errors of the role-touching organization mutations, where a bad request
/// means an unknown role name.
#[derive(Debug, Clone)]
pub enum OrgMissingOrRoleError {
    UnexpectedException,
    InvalidApiKey,
    NotFound,
    UnknownRoleError,
}

/// Errors of organization creation.
#[derive(Debug, Clone)]
pub enum CreateOrgError {
    UnexpectedException,
    InvalidApiKey,
    BadRequest(BadRequestDetails),
}

/// Errors of the organization update.
#[derive(Debug, Clone)]
pub enum UpdateOrgError {
    UnexpectedException,
    InvalidApiKey,
    NotFound,
    BadRequest(BadRequestDetails),
}

/// Errors of the paged organization query.
#[derive(Debug, Clone)]
pub enum FetchOrgsByQueryError {
    UnexpectedException,
    InvalidApiKey,
    BadRequest(BadRequestDetails),
}

/// Errors of listing the users of an organization.
#[derive(Debug, Clone)]
pub enum FetchUsersInOrgError {
    UnexpectedException,
    InvalidApiKey,
    BadRequest(BadRequestDetails),
}

// ---------------------------------------------------------------------------
// Classification tables. Each spec function is one operation family's total
// rule from (status, decoded body) to a domain error; the exec function
// beside it is the classifier handed to the translator.
// ---------------------------------------------------------------------------

/// Table of the paged API-key fetches: a structured bad-request body is
/// preserved whatever the status; otherwise 401 and 404 have their own
/// variants.
pub open spec fn api_key_page_verdict(status: u16, body: Option<ErrorBody>) -> ApiKeyError {
    match body {
        Option::Some(ErrorBody::BadRequest(details)) => ApiKeyError::BadRequest(details),
        Option::None => if status == 401 {
            ApiKeyError::InvalidIntegrationAPIKey
        } else if status == 404 {
            ApiKeyError::NotFound
        } else {
            ApiKeyError::UnexpectedExceptionWithSDK
        },
    }
}

pub fn classify_api_key_page(status: u16, body: Option<ErrorBody>) -> (e: ApiKeyError)
    ensures
        e == api_key_page_verdict(status, body),
{
    match body {
        Option::Some(ErrorBody::BadRequest(details)) => ApiKeyError::BadRequest(details),
        Option::None => if status == 401 {
            ApiKeyError::InvalidIntegrationAPIKey
        } else if status == 404 {
            ApiKeyError::NotFound
        } else {
            ApiKeyError::UnexpectedExceptionWithSDK
        },
    }
}

/// Table of the operations addressing one stored API key, where a 404 means
/// the key itself is not a valid one.
pub open spec fn api_key_lookup_verdict(status: u16, body: Option<ErrorBody>) -> ApiKeyError {
    if status == 401 {
        ApiKeyError::InvalidIntegrationAPIKey
    } else if status == 404 {
        ApiKeyError::InvalidAPIKey
    } else {
        ApiKeyError::UnexpectedExceptionWithSDK
    }
}

pub fn classify_api_key_lookup(status: u16, _body: Option<ErrorBody>) -> (e: ApiKeyError)
    ensures
        e == api_key_lookup_verdict(status, _body),
{
    if status == 401 {
        ApiKeyError::InvalidIntegrationAPIKey
    } else if status == 404 {
        ApiKeyError::InvalidAPIKey
    } else {
        ApiKeyError::UnexpectedExceptionWithSDK
    }
}

/// Table of API-key creation and validation, where a 404 is a missing
/// record.
pub open spec fn api_key_missing_verdict(status: u16, body: Option<ErrorBody>) -> ApiKeyError {
    if status == 401 {
        ApiKeyError::InvalidIntegrationAPIKey
    } else if status == 404 {
        ApiKeyError::NotFound
    } else {
        ApiKeyError::UnexpectedExceptionWithSDK
    }
}

pub fn classify_api_key_missing(status: u16, _body: Option<ErrorBody>) -> (e: ApiKeyError)
    ensures
        e == api_key_missing_verdict(status, _body),
{
    if status == 401 {
        ApiKeyError::InvalidIntegrationAPIKey
    } else if status == 404 {
        ApiKeyError::NotFound
    } else {
        ApiKeyError::UnexpectedExceptionWithSDK
    }
}

/// Table of the operations returning [`ErrorsWithNotFound`].
pub open spec fn not_found_verdict(status: u16, body: Option<ErrorBody>) -> ErrorsWithNotFound {
    if status == 401 {
        ErrorsWithNotFound::InvalidApiKey
    } else if status == 404 {
        ErrorsWithNotFound::NotFound
    } else {
        ErrorsWithNotFound::UnexpectedException
    }
}

pub fn classify_not_found(status: u16, _body: Option<ErrorBody>) -> (e: ErrorsWithNotFound)
    ensures
        e == not_found_verdict(status, _body),
{
    if status == 401 {
        ErrorsWithNotFound::InvalidApiKey
    } else if status == 404 {
        ErrorsWithNotFound::NotFound
    } else {
        ErrorsWithNotFound::UnexpectedException
    }
}

/// Classifier of the batch user fetches: a structured bad-request body is
/// flattened into one readable message, whatever the status; otherwise only
/// 401 is recognized.
pub fn classify_batch_fetch(status: u16, body: Option<ErrorBody>) -> (e: BatchFetchError)
    ensures
        body matches Option::Some(ErrorBody::BadRequest(details)) ==> (e matches
            BatchFetchError::BadRequest(message) && message@ == flat_reasons(
            details.query.deep_view(),
        )),
        body is None ==> e == (if status == 401 {
            BatchFetchError::InvalidApiKey
        } else {
            BatchFetchError::UnexpectedException
        }),
{
    match body {
        Option::Some(ErrorBody::BadRequest(details)) => BatchFetchError::BadRequest(
            flatten_reasons(details.query),
        ),
        Option::None => if status == 401 {
            BatchFetchError::InvalidApiKey
        } else {
            BatchFetchError::UnexpectedException
        },
    }
}

/// Table of the paged user query.
pub open spec fn by_query_verdict(status: u16, body: Option<ErrorBody>) -> FetchByQueryError {
    match body {
        Option::Some(ErrorBody::BadRequest(details)) => FetchByQueryError::BadRequest(details),
        Option::None => if status == 401 {
            FetchByQueryError::InvalidApiKey
        } else {
            FetchByQueryError::UnexpectedException
        },
    }
}

pub fn classify_by_query(status: u16, body: Option<ErrorBody>) -> (e: FetchByQueryError)
    ensures
        e == by_query_verdict(status, body),
{
    match body {
        Option::Some(ErrorBody::BadRequest(details)) => FetchByQueryError::BadRequest(details),
        Option::None => if status == 401 {
            FetchByQueryError::InvalidApiKey
        } else {
            FetchByQueryError::UnexpectedException
        },
    }
}

/// Table of user creation.
pub open spec fn create_user_verdict(status: u16, body: Option<ErrorBody>) -> CreateUserError {
    match body {
        Option::Some(ErrorBody::BadRequest(details)) => CreateUserError::BadRequest(details),
        Option::None => if status == 401 {
            CreateUserError::InvalidApiKey
        } else {
            CreateUserError::UnexpectedException
        },
    }
}

pub fn classify_create_user(status: u16, body: Option<ErrorBody>) -> (e: CreateUserError)
    ensures
        e == create_user_verdict(status, body),
{
    match body {
        Option::Some(ErrorBody::BadRequest(details)) => CreateUserError::BadRequest(details),
        Option::None => if status == 401 {
            CreateUserError::InvalidApiKey
        } else {
            CreateUserError::UnexpectedException
        },
    }
}

/// Table of user migration.
pub open spec fn migrate_user_verdict(status: u16, body: Option<ErrorBody>) -> MigrateUserError {
    match body {
        Option::Some(ErrorBody::BadRequest(details)) => MigrateUserError::BadRequest(details),
        Option::None => if status == 401 {
            MigrateUserError::InvalidApiKey
        } else {
            MigrateUserError::UnexpectedException
        },
    }
}

pub fn classify_migrate_user(status: u16, body: Option<ErrorBody>) -> (e: MigrateUserError)
    ensures
        e == migrate_user_verdict(status, body),
{
    match body {
        Option::Some(ErrorBody::BadRequest(details)) => MigrateUserError::BadRequest(details),
        Option::None => if status == 401 {
            MigrateUserError::InvalidApiKey
        } else {
            MigrateUserError::UnexpectedException
        },
    }
}

/// Table of magic-link creation.
pub open spec fn magic_link_verdict(status: u16, body: Option<ErrorBody>) -> CreateMagicLinkError {
    match body {
        Option::Some(ErrorBody::BadRequest(details)) => CreateMagicLinkError::BadRequest(details),
        Option::None => if status == 401 {
            CreateMagicLinkError::InvalidApiKey
        } else {
            CreateMagicLinkError::UnexpectedException
        },
    }
}

pub fn classify_magic_link(status: u16, body: Option<ErrorBody>) -> (e: CreateMagicLinkError)
    ensures
        e == magic_link_verdict(status, body),
{
    match body {
        Option::Some(ErrorBody::BadRequest(details)) => CreateMagicLinkError::BadRequest(details),
        Option::None => if status == 401 {
            CreateMagicLinkError::InvalidApiKey
        } else {
            CreateMagicLinkError::UnexpectedException
        },
    }
}

/// Table of the user-metadata update.
pub open spec fn update_metadata_verdict(status: u16, body: Option<ErrorBody>) -> UpdateUserMetadataError {
    match body {
        Option::Some(ErrorBody::BadRequest(details)) => UpdateUserMetadataError::BadRequest(
            details,
        ),
        Option::None => if status == 401 {
            UpdateUserMetadataError::InvalidApiKey
        } else if status == 404 {
            UpdateUserMetadataError::NotFound
        } else {
            UpdateUserMetadataError::UnexpectedException
        },
    }
}

pub fn classify_update_metadata(status: u16, body: Option<ErrorBody>) -> (e: UpdateUserMetadataError)
    ensures
        e == update_metadata_verdict(status, body),
{
    match body {
        Option::Some(ErrorBody::BadRequest(details)) => UpdateUserMetadataError::BadRequest(
            details,
        ),
        Option::None => if status == 401 {
            UpdateUserMetadataError::InvalidApiKey
        } else if status == 404 {
            UpdateUserMetadataError::NotFound
        } else {
            UpdateUserMetadataError::UnexpectedException
        },
    }
}

/// Table of the user-email update: 429 means a confirmation mail went out
/// too recently.
pub open spec fn update_email_verdict(status: u16, body: Option<ErrorBody>) -> UpdateUserEmailError {
    match body {
        Option::Some(ErrorBody::BadRequest(details)) => UpdateUserEmailError::BadRequest(details),
        Option::None => if status == 401 {
            UpdateUserEmailError::InvalidApiKey
        } else if status == 404 {
            UpdateUserEmailError::NotFound
        } else if status == 429 {
            UpdateUserEmailError::EmailSentTooRecently
        } else {
            UpdateUserEmailError::UnexpectedException
        },
    }
}

pub fn classify_update_email(status: u16, body: Option<ErrorBody>) -> (e: UpdateUserEmailError)
    ensures
        e == update_email_verdict(status, body),
{
    match body {
        Option::Some(ErrorBody::BadRequest(details)) => UpdateUserEmailError::BadRequest(details),
        Option::None => if status == 401 {
            UpdateUserEmailError::InvalidApiKey
        } else if status == 404 {
            UpdateUserEmailError::NotFound
        } else if status == 429 {
            UpdateUserEmailError::EmailSentTooRecently
        } else {
            UpdateUserEmailError::UnexpectedException
        },
    }
}

/// Table of the password update.
pub open spec fn update_password_verdict(status: u16, body: Option<ErrorBody>) -> UpdatePasswordError {
    match body {
        Option::Some(ErrorBody::BadRequest(details)) => UpdatePasswordError::BadRequest(details),
        Option::None => if status == 401 {
            UpdatePasswordError::InvalidApiKey
        } else if status == 404 {
            UpdatePasswordError::NotFound
        } else {
            UpdatePasswordError::UnexpectedException
        },
    }
}

pub fn classify_update_password(status: u16, body: Option<ErrorBody>) -> (e: UpdatePasswordError)
    ensures
        e == update_password_verdict(status, body),
{
    match body {
        Option::Some(ErrorBody::BadRequest(details)) => UpdatePasswordError::BadRequest(details),
        Option::None => if status == 401 {
            UpdatePasswordError::InvalidApiKey
        } else if status == 404 {
            UpdatePasswordError::NotFound
        } else {
            UpdatePasswordError::UnexpectedException
        },
    }
}

/// Table of the role-touching organization mutations: a bare 400 is an
/// unknown role name.
pub open spec fn org_role_verdict(status: u16, body: Option<ErrorBody>) -> OrgMissingOrRoleError {
    if status == 400 {
        OrgMissingOrRoleError::UnknownRoleError
    } else if status == 401 {
        OrgMissingOrRoleError::InvalidApiKey
    } else if status == 404 {
        OrgMissingOrRoleError::NotFound
    } else {
        OrgMissingOrRoleError::UnexpectedException
    }
}

pub fn classify_org_role(status: u16, _body: Option<ErrorBody>) -> (e: OrgMissingOrRoleError)
    ensures
        e == org_role_verdict(status, _body),
{
    if status == 400 {
        OrgMissingOrRoleError::UnknownRoleError
    } else if status == 401 {
        OrgMissingOrRoleError::InvalidApiKey
    } else if status == 404 {
        OrgMissingOrRoleError::NotFound
    } else {
        OrgMissingOrRoleError::UnexpectedException
    }
}

/// Table of organization creation.
pub open spec fn create_org_verdict(status: u16, body: Option<ErrorBody>) -> CreateOrgError {
    match body {
        Option::Some(ErrorBody::BadRequest(details)) => CreateOrgError::BadRequest(details),
        Option::None => if status == 401 {
            CreateOrgError::InvalidApiKey
        } else {
            CreateOrgError::UnexpectedException
        },
    }
}

pub fn classify_create_org(status: u16, body: Option<ErrorBody>) -> (e: CreateOrgError)
    ensures
        e == create_org_verdict(status, body),
{
    match body {
        Option::Some(ErrorBody::BadRequest(details)) => CreateOrgError::BadRequest(details),
        Option::None => if status == 401 {
            CreateOrgError::InvalidApiKey
        } else {
            CreateOrgError::UnexpectedException
        },
    }
}

/// Table of the organization update.
pub open spec fn update_org_verdict(status: u16, body: Option<ErrorBody>) -> UpdateOrgError {
    match body {
        Option::Some(ErrorBody::BadRequest(details)) => UpdateOrgError::BadRequest(details),
        Option::None => if status == 401 {
            UpdateOrgError::InvalidApiKey
        } else if status == 404 {
            UpdateOrgError::NotFound
        } else {
            UpdateOrgError::UnexpectedException
        },
    }
}

pub fn classify_update_org(status: u16, body: Option<ErrorBody>) -> (e: UpdateOrgError)
    ensures
        e == update_org_verdict(status, body),
{
    match body {
        Option::Some(ErrorBody::BadRequest(details)) => UpdateOrgError::BadRequest(details),
        Option::None => if status == 401 {
            UpdateOrgError::InvalidApiKey
        } else if status == 404 {
            UpdateOrgError::NotFound
        } else {
            UpdateOrgError::UnexpectedException
        },
    }
}

/// Table of the paged organization query.
pub open spec fn orgs_by_query_verdict(status: u16, body: Option<ErrorBody>) -> FetchOrgsByQueryError {
    match body {
        Option::Some(ErrorBody::BadRequest(details)) => FetchOrgsByQueryError::BadRequest(details),
        Option::None => if status == 401 {
            FetchOrgsByQueryError::InvalidApiKey
        } else {
            FetchOrgsByQueryError::UnexpectedException
        },
    }
}

pub fn classify_orgs_by_query(status: u16, body: Option<ErrorBody>) -> (e: FetchOrgsByQueryError)
    ensures
        e == orgs_by_query_verdict(status, body),
{
    match body {
        Option::Some(ErrorBody::BadRequest(details)) => FetchOrgsByQueryError::BadRequest(details),
        Option::None => if status == 401 {
            FetchOrgsByQueryError::InvalidApiKey
        } else {
            FetchOrgsByQueryError::UnexpectedException
        },
    }
}

/// Table of listing the users of an organization.
pub open spec fn users_in_org_verdict(status: u16, body: Option<ErrorBody>) -> FetchUsersInOrgError {
    match body {
        Option::Some(ErrorBody::BadRequest(details)) => FetchUsersInOrgError::BadRequest(details),
        Option::None => if status == 401 {
            FetchUsersInOrgError::InvalidApiKey
        } else {
            FetchUsersInOrgError::UnexpectedException
        },
    }
}

pub fn classify_users_in_org(status: u16, body: Option<ErrorBody>) -> (e: FetchUsersInOrgError)
    ensures
        e == users_in_org_verdict(status, body),
{
    match body {
        Option::Some(ErrorBody::BadRequest(details)) => FetchUsersInOrgError::BadRequest(details),
        Option::None => if status == 401 {
            FetchUsersInOrgError::InvalidApiKey
        } else {
            FetchUsersInOrgError::UnexpectedException
        },
    }
}

// ---------------------------------------------------------------------------
// The translated outcome of a whole failure, table and default applied.
// ---------------------------------------------------------------------------

/// The domain error a paged API-key fetch settles to on failure.
pub open spec fn api_key_page_outcome(failure: TransportFailure<ErrorBody>) -> ApiKeyError {
    translated(
        failure,
        ApiKeyError::UnexpectedExceptionWithSDK,
        |status: u16, body: Option<ErrorBody>| api_key_page_verdict(status, body),
    )
}

/// The domain error an API-key lookup or mutation settles to on failure.
pub open spec fn api_key_lookup_outcome(failure: TransportFailure<ErrorBody>) -> ApiKeyError {
    translated(
        failure,
        ApiKeyError::UnexpectedExceptionWithSDK,
        |status: u16, body: Option<ErrorBody>| api_key_lookup_verdict(status, body),
    )
}

/// The domain error API-key creation or validation settles to on failure.
pub open spec fn api_key_missing_outcome(failure: TransportFailure<ErrorBody>) -> ApiKeyError {
    translated(
        failure,
        ApiKeyError::UnexpectedExceptionWithSDK,
        |status: u16, body: Option<ErrorBody>| api_key_missing_verdict(status, body),
    )
}

/// The domain error an [`ErrorsWithNotFound`] operation settles to on
/// failure.
pub open spec fn not_found_outcome(failure: TransportFailure<ErrorBody>) -> ErrorsWithNotFound {
    translated(
        failure,
        ErrorsWithNotFound::UnexpectedException,
        |status: u16, body: Option<ErrorBody>| not_found_verdict(status, body),
    )
}

/// The domain error the paged user query settles to on failure.
pub open spec fn by_query_outcome(failure: TransportFailure<ErrorBody>) -> FetchByQueryError {
    translated(
        failure,
        FetchByQueryError::UnexpectedException,
        |status: u16, body: Option<ErrorBody>| by_query_verdict(status, body),
    )
}

/// The domain error user creation settles to on failure.
pub open spec fn create_user_outcome(failure: TransportFailure<ErrorBody>) -> CreateUserError {
    translated(
        failure,
        CreateUserError::UnexpectedException,
        |status: u16, body: Option<ErrorBody>| create_user_verdict(status, body),
    )
}

/// The domain error user migration settles to on failure.
pub open spec fn migrate_user_outcome(failure: TransportFailure<ErrorBody>) -> MigrateUserError {
    translated(
        failure,
        MigrateUserError::UnexpectedException,
        |status: u16, body: Option<ErrorBody>| migrate_user_verdict(status, body),
    )
}

/// The domain error magic-link creation settles to on failure.
pub open spec fn magic_link_outcome(failure: TransportFailure<ErrorBody>) -> CreateMagicLinkError {
    translated(
        failure,
        CreateMagicLinkError::UnexpectedException,
        |status: u16, body: Option<ErrorBody>| magic_link_verdict(status, body),
    )
}

/// The domain error the user-metadata update settles to on failure.
pub open spec fn update_metadata_outcome(failure: TransportFailure<ErrorBody>) -> UpdateUserMetadataError {
    translated(
        failure,
        UpdateUserMetadataError::UnexpectedException,
        |status: u16, body: Option<ErrorBody>| update_metadata_verdict(status, body),
    )
}

/// The domain error the user-email update settles to on failure.
pub open spec fn update_email_outcome(failure: TransportFailure<ErrorBody>) -> UpdateUserEmailError {
    translated(
        failure,
        UpdateUserEmailError::UnexpectedException,
        |status: u16, body: Option<ErrorBody>| update_email_verdict(status, body),
    )
}

/// The domain error the password update settles to on failure.
pub open spec fn update_password_outcome(failure: TransportFailure<ErrorBody>) -> UpdatePasswordError {
    translated(
        failure,
        UpdatePasswordError::UnexpectedException,
        |status: u16, body: Option<ErrorBody>| update_password_verdict(status, body),
    )
}

/// The domain error a role-touching organization mutation settles to on
/// failure.
pub open spec fn org_role_outcome(failure: TransportFailure<ErrorBody>) -> OrgMissingOrRoleError {
    translated(
        failure,
        OrgMissingOrRoleError::UnexpectedException,
        |status: u16, body: Option<ErrorBody>| org_role_verdict(status, body),
    )
}

/// The domain error organization creation settles to on failure.
pub open spec fn create_org_outcome(failure: TransportFailure<ErrorBody>) -> CreateOrgError {
    translated(
        failure,
        CreateOrgError::UnexpectedException,
        |status: u16, body: Option<ErrorBody>| create_org_verdict(status, body),
    )
}

/// The domain error the organization update settles to on failure.
pub open spec fn update_org_outcome(failure: TransportFailure<ErrorBody>) -> UpdateOrgError {
    translated(
        failure,
        UpdateOrgError::UnexpectedException,
        |status: u16, body: Option<ErrorBody>| update_org_verdict(status, body),
    )
}

/// The domain error the paged organization query settles to on failure.
pub open spec fn orgs_by_query_outcome(failure: TransportFailure<ErrorBody>) -> FetchOrgsByQueryError {
    translated(
        failure,
        FetchOrgsByQueryError::UnexpectedException,
        |status: u16, body: Option<ErrorBody>| orgs_by_query_verdict(status, body),
    )
}

/// The domain error listing the users of an organization settles to on
/// failure.
pub open spec fn users_in_org_outcome(failure: TransportFailure<ErrorBody>) -> FetchUsersInOrgError {
    translated(
        failure,
        FetchUsersInOrgError::UnexpectedException,
        |status: u16, body: Option<ErrorBody>| users_in_org_verdict(status, body),
    )
}

} // verus!
