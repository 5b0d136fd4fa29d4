//! Request parameter bundles and response bodies, all transient and
//! request-scoped: created per call, transformed once, and discarded.

use vstd::prelude::*;

verus! {

// ---------------------------------------------------------------------------
// API-key operations.
// ---------------------------------------------------------------------------

#[derive(Debug, Clone)]
pub struct ApiKeyQueryParams {
    pub page_size: Option<u64>,
    pub page_number: Option<u64>,
}

#[derive(Debug, Clone)]
pub struct CreateApiKeyParams {
    pub org_id: Option<String>,
    pub user_id: Option<String>,
    pub expires_at_seconds: Option<u64>,
}

#[derive(Debug, Clone)]
pub struct UpdateApiKeyParams {
    pub expires_at_seconds: Option<u64>,
}

#[derive(Debug, Clone)]
pub struct ValidateApiKeyParams {
    pub api_key_token: String,
}

#[derive(Debug, Clone)]
pub struct FetchApiKeyResponse {
    pub api_key_id: String,
    pub created_at: u64,
    pub expires_at_seconds: Option<u64>,
    pub user_id: Option<String>,
    pub org_id: Option<String>,
}

#[derive(Debug, Clone)]
pub struct FetchApiKeysPagedResponse {
    pub api_keys: Vec<FetchApiKeyResponse>,
    pub total_api_keys: u64,
    pub current_page: u64,
    pub page_size: u64,
    pub has_more_results: bool,
}

#[derive(Debug, Clone)]
pub struct CreateApiKeyResponse {
    pub api_key_id: String,
    pub api_key_token: String,
}

#[derive(Debug, Clone)]
pub struct ValidateApiKeyResponse {
    pub metadata: Option<String>,
    pub user: Option<UserMetadata>,
    pub org: Option<OrgMetadata>,
    pub user_in_org: Option<UserInOrgMetadata>,
}

/// The general validation response narrowed to a personal credential: a
/// user must be present and no organization may be.
#[derive(Debug, Clone)]
pub struct ValidatePersonalApiKeyResponse {
    pub metadata: Option<String>,
    pub user: UserMetadata,
}

/// The general validation response narrowed to an organization credential:
/// an organization must be present; a user may accompany it.
#[derive(Debug, Clone)]
pub struct ValidateOrgApiKeyResponse {
    pub metadata: Option<String>,
    pub user: Option<UserMetadata>,
    pub org: OrgMetadata,
    pub user_in_org: Option<UserInOrgMetadata>,
}

// ---------------------------------------------------------------------------
// Organization operations.
// ---------------------------------------------------------------------------

#[derive(Debug, Clone)]
pub struct OrgMetadata {
    pub org_id: String,
    pub name: String,
}

#[derive(Debug, Clone)]
pub struct UserInOrgMetadata {
    pub user_id: String,
    pub org_id: String,
    pub role: String,
}

#[derive(Debug, Clone)]
pub struct FetchOrgParams {
    pub org_id: String,
}

#[derive(Debug, Clone)]
pub struct FetchOrgsByQueryParams {
    pub page_size: Option<u64>,
    pub page_number: Option<u64>,
    pub order_by: Option<String>,
    pub name: Option<String>,
}

#[derive(Debug, Clone)]
pub struct FetchOrgsResponse {
    pub orgs: Vec<OrgMetadata>,
    pub total_orgs: u64,
    pub current_page: u64,
    pub page_size: u64,
    pub has_more_results: bool,
}

#[derive(Debug, Clone)]
pub struct FetchUsersInOrgParams {
    pub org_id: String,
    pub page_size: Option<u64>,
    pub page_number: Option<u64>,
    pub include_orgs: Option<bool>,
}

#[derive(Debug, Clone)]
pub struct AddUserToOrgRequest {
    pub user_id: String,
    pub org_id: String,
    pub role: String,
}

#[derive(Debug, Clone)]
pub struct AddUserToOrgParams {
    pub add_user_to_org_request: AddUserToOrgRequest,
}

#[derive(Debug, Clone)]
pub struct ChangeUserRoleInOrgRequest {
    pub user_id: String,
    pub org_id: String,
    pub role: String,
}

#[derive(Debug, Clone)]
pub struct ChangeUserRoleInOrgParams {
    pub change_user_role_in_org_request: ChangeUserRoleInOrgRequest,
}

#[derive(Debug, Clone)]
pub struct RemoveUserFromOrgRequest {
    pub user_id: String,
    pub org_id: String,
}

#[derive(Debug, Clone)]
pub struct RemoveUserFromOrgParams {
    pub remove_user_from_org_request: RemoveUserFromOrgRequest,
}

#[derive(Debug, Clone)]
pub struct CreateOrgRequest {
    pub name: String,
}

#[derive(Debug, Clone)]
pub struct CreateOrgParams {
    pub create_org_request: CreateOrgRequest,
}

#[derive(Debug, Clone)]
pub struct CreateOrgResponse {
    pub org_id: String,
    pub name: String,
}

#[derive(Debug, Clone)]
pub struct UpdateOrgRequest {
    pub name: Option<String>,
    pub can_setup_saml: Option<bool>,
}

#[derive(Debug, Clone)]
pub struct UpdateOrgParams {
    pub org_id: String,
    pub update_org_request: UpdateOrgRequest,
}

#[derive(Debug, Clone)]
pub struct AllowOrgToEnableSamlParams {
    pub org_id: String,
}

#[derive(Debug, Clone)]
pub struct DisallowSamlParams {
    pub org_id: String,
}

// ---------------------------------------------------------------------------
// User operations.
// ---------------------------------------------------------------------------

#[derive(Debug, Clone)]
pub struct UserMetadata {
    pub user_id: String,
    pub email: String,
    pub username: Option<String>,
    pub enabled: bool,
}

#[derive(Debug, Clone)]
pub struct UserPagedResponse {
    pub users: Vec<UserMetadata>,
    pub total_users: u64,
    pub current_page: u64,
    pub page_size: u64,
    pub has_more_results: bool,
}

impl Default for UserPagedResponse {
    /// The empty page: no users and nothing further to fetch.
    fn default() -> (r: Self)
        ensures
            r.users@ == Seq::<UserMetadata>::empty(),
            r.total_users == 0,
            r.current_page == 0,
            r.page_size == 0,
            !r.has_more_results,
    {
        UserPagedResponse {
            users: Vec::new(),
            total_users: 0,
            current_page: 0,
            page_size: 0,
            has_more_results: false,
        }
    }
}

#[derive(Debug, Clone)]
pub struct FetchUserByEmailParams {
    pub email: String,
    pub include_orgs: Option<bool>,
}

#[derive(Debug, Clone)]
pub struct FetchUserByIdParams {
    pub user_id: String,
    pub include_orgs: Option<bool>,
}

#[derive(Debug, Clone)]
pub struct FetchUserByUsernameParams {
    pub username: String,
    pub include_orgs: Option<bool>,
}

#[derive(Debug, Clone)]
pub struct FetchUsersByIdsParams {
    pub user_ids: Vec<String>,
    pub include_orgs: Option<bool>,
}

#[derive(Debug, Clone)]
pub struct FetchUsersByEmailsParams {
    pub emails: Vec<String>,
    pub include_orgs: Option<bool>,
}

#[derive(Debug, Clone)]
pub struct FetchUsersByUsernamesParams {
    pub usernames: Vec<String>,
    pub include_orgs: Option<bool>,
}

#[derive(Debug, Clone)]
pub struct FetchUsersByQueryParams {
    pub page_size: Option<u64>,
    pub page_number: Option<u64>,
    pub order_by: Option<String>,
    pub email_or_username: Option<String>,
    pub include_orgs: Option<bool>,
}

#[derive(Debug, Clone)]
pub struct CreateUserRequest {
    pub email: String,
    pub password: Option<String>,
    pub username: Option<String>,
    pub send_email_to_confirm_email_address: Option<bool>,
}

#[derive(Debug, Clone)]
pub struct CreateUserParams {
    pub create_user_request: CreateUserRequest,
}

#[derive(Debug, Clone)]
pub struct CreatedUserResponse {
    pub user_id: String,
}

#[derive(Debug, Clone)]
pub struct DeleteUserParams {
    pub user_id: String,
}

#[derive(Debug, Clone)]
pub struct DisableUserParams {
    pub user_id: String,
}

#[derive(Debug, Clone)]
pub struct EnableUserParams {
    pub user_id: String,
}

#[derive(Debug, Clone)]
pub struct DisableUser2faParams {
    pub user_id: String,
}

#[derive(Debug, Clone)]
pub struct UpdateUserMetadataRequest {
    pub username: Option<String>,
    pub first_name: Option<String>,
    pub last_name: Option<String>,
}

#[derive(Debug, Clone)]
pub struct UpdateUserMetadataParams {
    pub user_id: String,
    pub update_user_metadata_request: UpdateUserMetadataRequest,
}

#[derive(Debug, Clone)]
pub struct UpdateUserEmailRequest {
    pub new_email: String,
    pub require_email_confirmation: bool,
}

#[derive(Debug, Clone)]
pub struct UpdateUserEmailParams {
    pub user_id: String,
    pub update_user_email_request: UpdateUserEmailRequest,
}

#[derive(Debug, Clone)]
pub struct UpdateUserPasswordRequest {
    pub password: String,
    pub ask_user_to_update_password_on_login: Option<bool>,
}

#[derive(Debug, Clone)]
pub struct UpdateUserPasswordParams {
    pub user_id: String,
    pub update_user_password_request: UpdateUserPasswordRequest,
}

#[derive(Debug, Clone)]
pub struct MigrateUserRequest {
    pub email: String,
    pub email_confirmed: bool,
    pub existing_user_id: Option<String>,
    pub existing_password_hash: Option<String>,
}

#[derive(Debug, Clone)]
pub struct MigrateUserParams {
    pub migrate_user_request: MigrateUserRequest,
}

#[derive(Debug, Clone)]
pub struct CreateMagicLinkRequest {
    pub email: String,
    pub redirect_to_url: Option<String>,
    pub expires_in_hours: Option<u64>,
}

#[derive(Debug, Clone)]
pub struct CreateMagicLinkParams {
    pub create_magic_link_request: CreateMagicLinkRequest,
}

#[derive(Debug, Clone)]
pub struct MagicLink {
    pub url: String,
}

} // verus!
