//! Organization operations: fetches, queries, membership and SAML
//! mutations.
//!
//! The same discipline as for the user operations: identifier-taking
//! operations first decide, as a [`Step`], whether the request may go out —
//! a malformed identifier settles locally — and every remote outcome is
//! settled through the operation's classification table.

use vstd::prelude::*;
use crate::config::Configuration;
use crate::errors::CreateOrgError;
use crate::errors::ErrorsWithNotFound;
use crate::errors::FetchOrgsByQueryError;
use crate::errors::FetchUsersInOrgError;
use crate::errors::OrgMissingOrRoleError;
use crate::errors::UpdateOrgError;
use crate::errors::classify_create_org;
use crate::errors::classify_not_found;
use crate::errors::classify_org_role;
use crate::errors::classify_orgs_by_query;
use crate::errors::classify_update_org;
use crate::errors::classify_users_in_org;
use crate::errors::create_org_outcome;
use crate::errors::not_found_outcome;
use crate::errors::org_role_outcome;
use crate::errors::orgs_by_query_outcome;
use crate::errors::update_org_outcome;
use crate::errors::users_in_org_outcome;
use crate::helpers::is_valid_id;
use crate::helpers::valid_id;
use crate::models::AddUserToOrgParams;
use crate::models::AddUserToOrgRequest;
use crate::models::AllowOrgToEnableSamlParams;
use crate::models::ChangeUserRoleInOrgParams;
use crate::models::ChangeUserRoleInOrgRequest;
use crate::models::CreateOrgParams;
use crate::models::CreateOrgRequest;
use crate::models::CreateOrgResponse;
use crate::models::DisallowSamlParams;
use crate::models::FetchOrgParams;
use crate::models::FetchOrgsResponse;
use crate::models::FetchUsersInOrgParams;
use crate::models::RemoveUserFromOrgParams;
use crate::models::RemoveUserFromOrgRequest;
use crate::models::UpdateOrgParams;
use crate::models::UpdateOrgRequest;
use crate::models::UserMetadata;
use crate::models::UserPagedResponse;
use crate::transport::ErrorBody;
use crate::transport::Step;
use crate::transport::TransportFailure;
use crate::transport::map_autogenerated_error;

verus! {

/// The organization-operation facade, holding the shared connection
/// settings.
pub struct OrgService<'a> {
    pub config: &'a Configuration,
}

impl OrgService<'_> {
    /// Decide the first step of fetching an organization by its id: a
    /// malformed identifier settles locally as `NotFound`, with no remote
    /// call.
    pub fn fetch_org(&self, org_id: String) -> (s: Step<
        FetchOrgParams,
        Result<(), ErrorsWithNotFound>,
    >)
        ensures
            valid_id(org_id@) ==> s == Step::<FetchOrgParams, Result<(), ErrorsWithNotFound>>::Call(
                (FetchOrgParams { org_id }),
            ),
            !valid_id(org_id@) ==> s == Step::<FetchOrgParams, Result<(), ErrorsWithNotFound>>::Done(
                Result::Err(ErrorsWithNotFound::NotFound),
            ),
    {
        if !is_valid_id(org_id.as_str()) {
            return Step::Done(Result::Err(ErrorsWithNotFound::NotFound));
        }
        Step::Call(FetchOrgParams { org_id })
    }

    /// Settle fetching an organization: any success body is discarded.
    pub fn fetch_org_result<D>(&self, outcome: Result<D, TransportFailure<ErrorBody>>) -> (r:
        Result<(), ErrorsWithNotFound>)
        ensures
            outcome is Ok ==> r == Result::<(), ErrorsWithNotFound>::Ok(()),
            outcome matches Result::Err(failure) ==> r == Result::<(), ErrorsWithNotFound>::Err(
                not_found_outcome(failure),
            ),
    {
        match outcome {
            Result::Ok(_) => Result::Ok(()),
            Result::Err(failure) => Result::Err(
                map_autogenerated_error(
                    failure,
                    ErrorsWithNotFound::UnexpectedException,
                    classify_not_found,
                ),
            ),
        }
    }

    /// Settle a paged organization query. Filters are not identifiers, so
    /// no local validation precedes the exchange.
    pub fn fetch_orgs_by_query(
        &self,
        outcome: Result<FetchOrgsResponse, TransportFailure<ErrorBody>>,
    ) -> (r: Result<FetchOrgsResponse, FetchOrgsByQueryError>)
        ensures
            outcome matches Result::Ok(page) ==> r == Result::<
                FetchOrgsResponse,
                FetchOrgsByQueryError,
            >::Ok(page),
            outcome matches Result::Err(failure) ==> r == Result::<
                FetchOrgsResponse,
                FetchOrgsByQueryError,
            >::Err(orgs_by_query_outcome(failure)),
    {
        match outcome {
            Result::Ok(page) => Result::Ok(page),
            Result::Err(failure) => Result::Err(
                map_autogenerated_error(
                    failure,
                    FetchOrgsByQueryError::UnexpectedException,
                    classify_orgs_by_query,
                ),
            ),
        }
    }

    /// Decide the first step of listing an organization's users: a
    /// malformed identifier settles locally as the empty page — such an
    /// organization can hold nobody — and no remote call is made.
    pub fn fetch_users_in_org(&self, params: FetchUsersInOrgParams) -> (s: Step<
        FetchUsersInOrgParams,
        Result<UserPagedResponse, FetchUsersInOrgError>,
    >)
        ensures
            valid_id(params.org_id@) ==> s == Step::<
                FetchUsersInOrgParams,
                Result<UserPagedResponse, FetchUsersInOrgError>,
            >::Call(params),
            !valid_id(params.org_id@) ==> (s matches Step::Done(settled) && settled matches
                Result::Ok(page) && page.users@ == Seq::<UserMetadata>::empty()
                && page.total_users == 0 && page.current_page == 0 && page.page_size == 0
                && !page.has_more_results),
    {
        if !is_valid_id(params.org_id.as_str()) {
            return Step::Done(Result::Ok(UserPagedResponse::default()));
        }
        Step::Call(params)
    }

    /// Settle listing an organization's users.
    pub fn fetch_users_in_org_result(
        &self,
        outcome: Result<UserPagedResponse, TransportFailure<ErrorBody>>,
    ) -> (r: Result<UserPagedResponse, FetchUsersInOrgError>)
        ensures
            outcome matches Result::Ok(page) ==> r == Result::<
                UserPagedResponse,
                FetchUsersInOrgError,
            >::Ok(page),
            outcome matches Result::Err(failure) ==> r == Result::<
                UserPagedResponse,
                FetchUsersInOrgError,
            >::Err(users_in_org_outcome(failure)),
    {
        match outcome {
            Result::Ok(page) => Result::Ok(page),
            Result::Err(failure) => Result::Err(
                map_autogenerated_error(
                    failure,
                    FetchUsersInOrgError::UnexpectedException,
                    classify_users_in_org,
                ),
            ),
        }
    }

    /// Wrap the request body into the transport parameters of adding a
    /// user to an organization.
    pub fn add_user_to_org(&self, add_user_to_org_request: AddUserToOrgRequest) -> (s: Step<
        AddUserToOrgParams,
        Result<(), OrgMissingOrRoleError>,
    >)
        ensures
            s == Step::<AddUserToOrgParams, Result<(), OrgMissingOrRoleError>>::Call(
                (AddUserToOrgParams { add_user_to_org_request }),
            ),
    {
        Step::Call(AddUserToOrgParams { add_user_to_org_request })
    }

    /// Settle adding a user to an organization: any success body is
    /// discarded.
    pub fn add_user_to_org_result<D>(&self, outcome: Result<D, TransportFailure<ErrorBody>>) -> (r:
        Result<(), OrgMissingOrRoleError>)
        ensures
            outcome is Ok ==> r == Result::<(), OrgMissingOrRoleError>::Ok(()),
            outcome matches Result::Err(failure) ==> r == Result::<(), OrgMissingOrRoleError>::Err(
                org_role_outcome(failure),
            ),
    {
        match outcome {
            Result::Ok(_) => Result::Ok(()),
            Result::Err(failure) => Result::Err(
                map_autogenerated_error(
                    failure,
                    OrgMissingOrRoleError::UnexpectedException,
                    classify_org_role,
                ),
            ),
        }
    }

    /// Wrap the request body into the transport parameters of changing a
    /// member's role.
    pub fn change_user_role_in_org(
        &self,
        change_user_role_in_org_request: ChangeUserRoleInOrgRequest,
    ) -> (s: Step<ChangeUserRoleInOrgParams, Result<(), OrgMissingOrRoleError>>)
        ensures
            s == Step::<ChangeUserRoleInOrgParams, Result<(), OrgMissingOrRoleError>>::Call(
                (ChangeUserRoleInOrgParams { change_user_role_in_org_request }),
            ),
    {
        Step::Call(ChangeUserRoleInOrgParams { change_user_role_in_org_request })
    }

    /// Settle changing a member's role.
    pub fn change_user_role_in_org_result<D>(
        &self,
        outcome: Result<D, TransportFailure<ErrorBody>>,
    ) -> (r: Result<(), OrgMissingOrRoleError>)
        ensures
            outcome is Ok ==> r == Result::<(), OrgMissingOrRoleError>::Ok(()),
            outcome matches Result::Err(failure) ==> r == Result::<(), OrgMissingOrRoleError>::Err(
                org_role_outcome(failure),
            ),
    {
        match outcome {
            Result::Ok(_) => Result::Ok(()),
            Result::Err(failure) => Result::Err(
                map_autogenerated_error(
                    failure,
                    OrgMissingOrRoleError::UnexpectedException,
                    classify_org_role,
                ),
            ),
        }
    }

    /// Wrap the request body into the transport parameters of removing a
    /// member.
    pub fn remove_user_from_org(
        &self,
        remove_user_from_org_request: RemoveUserFromOrgRequest,
    ) -> (s: Step<RemoveUserFromOrgParams, Result<(), ErrorsWithNotFound>>)
        ensures
            s == Step::<RemoveUserFromOrgParams, Result<(), ErrorsWithNotFound>>::Call(
                (RemoveUserFromOrgParams { remove_user_from_org_request }),
            ),
    {
        Step::Call(RemoveUserFromOrgParams { remove_user_from_org_request })
    }

    /// Settle removing a member: any success body is discarded.
    pub fn remove_user_from_org_result<D>(
        &self,
        outcome: Result<D, TransportFailure<ErrorBody>>,
    ) -> (r: Result<(), ErrorsWithNotFound>)
        ensures
            outcome is Ok ==> r == Result::<(), ErrorsWithNotFound>::Ok(()),
            outcome matches Result::Err(failure) ==> r == Result::<(), ErrorsWithNotFound>::Err(
                not_found_outcome(failure),
            ),
    {
        match outcome {
            Result::Ok(_) => Result::Ok(()),
            Result::Err(failure) => Result::Err(
                map_autogenerated_error(
                    failure,
                    ErrorsWithNotFound::UnexpectedException,
                    classify_not_found,
                ),
            ),
        }
    }

    /// Wrap the request body into the transport parameters of organization
    /// creation.
    pub fn create_org(&self, create_org_request: CreateOrgRequest) -> (s: Step<
        CreateOrgParams,
        Result<CreateOrgResponse, CreateOrgError>,
    >)
        ensures
            s == Step::<CreateOrgParams, Result<CreateOrgResponse, CreateOrgError>>::Call(
                (CreateOrgParams { create_org_request }),
            ),
    {
        Step::Call(CreateOrgParams { create_org_request })
    }

    /// Settle an organization-creation exchange.
    pub fn create_org_result(
        &self,
        outcome: Result<CreateOrgResponse, TransportFailure<ErrorBody>>,
    ) -> (r: Result<CreateOrgResponse, CreateOrgError>)
        ensures
            outcome matches Result::Ok(org) ==> r == Result::<
                CreateOrgResponse,
                CreateOrgError,
            >::Ok(org),
            outcome matches Result::Err(failure) ==> r == Result::<
                CreateOrgResponse,
                CreateOrgError,
            >::Err(create_org_outcome(failure)),
    {
        match outcome {
            Result::Ok(org) => Result::Ok(org),
            Result::Err(failure) => Result::Err(
                map_autogenerated_error(
                    failure,
                    CreateOrgError::UnexpectedException,
                    classify_create_org,
                ),
            ),
        }
    }

    /// Decide the first step of an organization update: a malformed
    /// identifier settles locally as `NotFound`, with no remote call.
    pub fn update_org(&self, org_id: String, update_org_request: UpdateOrgRequest) -> (s: Step<
        UpdateOrgParams,
        Result<(), UpdateOrgError>,
    >)
        ensures
            valid_id(org_id@) ==> s == Step::<UpdateOrgParams, Result<(), UpdateOrgError>>::Call(
                (UpdateOrgParams { org_id, update_org_request }),
            ),
            !valid_id(org_id@) ==> s == Step::<UpdateOrgParams, Result<(), UpdateOrgError>>::Done(
                Result::Err(UpdateOrgError::NotFound),
            ),
    {
        if !is_valid_id(org_id.as_str()) {
            return Step::Done(Result::Err(UpdateOrgError::NotFound));
        }
        Step::Call(UpdateOrgParams { org_id, update_org_request })
    }

    /// Settle an organization update: any success body is discarded.
    pub fn update_org_result<D>(&self, outcome: Result<D, TransportFailure<ErrorBody>>) -> (r:
        Result<(), UpdateOrgError>)
        ensures
            outcome is Ok ==> r == Result::<(), UpdateOrgError>::Ok(()),
            outcome matches Result::Err(failure) ==> r == Result::<(), UpdateOrgError>::Err(
                update_org_outcome(failure),
            ),
    {
        match outcome {
            Result::Ok(_) => Result::Ok(()),
            Result::Err(failure) => Result::Err(
                map_autogenerated_error(
                    failure,
                    UpdateOrgError::UnexpectedException,
                    classify_update_org,
                ),
            ),
        }
    }

    /// Decide the first step of allowing an organization to enable SAML.
    pub fn allow_org_to_enable_saml(&self, params: AllowOrgToEnableSamlParams) -> (s: Step<
        AllowOrgToEnableSamlParams,
        Result<(), ErrorsWithNotFound>,
    >)
        ensures
            valid_id(params.org_id@) ==> s == Step::<
                AllowOrgToEnableSamlParams,
                Result<(), ErrorsWithNotFound>,
            >::Call(params),
            !valid_id(params.org_id@) ==> s == Step::<
                AllowOrgToEnableSamlParams,
                Result<(), ErrorsWithNotFound>,
            >::Done(Result::Err(ErrorsWithNotFound::NotFound)),
    {
        if !is_valid_id(params.org_id.as_str()) {
            return Step::Done(Result::Err(ErrorsWithNotFound::NotFound));
        }
        Step::Call(params)
    }

    /// Settle allowing SAML: any success body is discarded.
    pub fn allow_org_to_enable_saml_result<D>(
        &self,
        outcome: Result<D, TransportFailure<ErrorBody>>,
    ) -> (r: Result<(), ErrorsWithNotFound>)
        ensures
            outcome is Ok ==> r == Result::<(), ErrorsWithNotFound>::Ok(()),
            outcome matches Result::Err(failure) ==> r == Result::<(), ErrorsWithNotFound>::Err(
                not_found_outcome(failure),
            ),
    {
        match outcome {
            Result::Ok(_) => Result::Ok(()),
            Result::Err(failure) => Result::Err(
                map_autogenerated_error(
                    failure,
                    ErrorsWithNotFound::UnexpectedException,
                    classify_not_found,
                ),
            ),
        }
    }

    /// Decide the first step of disallowing SAML for an organization.
    pub fn disallow_saml(&self, params: DisallowSamlParams) -> (s: Step<
        DisallowSamlParams,
        Result<(), ErrorsWithNotFound>,
    >)
        ensures
            valid_id(params.org_id@) ==> s == Step::<
                DisallowSamlParams,
                Result<(), ErrorsWithNotFound>,
            >::Call(params),
            !valid_id(params.org_id@) ==> s == Step::<
                DisallowSamlParams,
                Result<(), ErrorsWithNotFound>,
            >::Done(Result::Err(ErrorsWithNotFound::NotFound)),
    {
        if !is_valid_id(params.org_id.as_str()) {
            return Step::Done(Result::Err(ErrorsWithNotFound::NotFound));
        }
        Step::Call(params)
    }

    /// Settle disallowing SAML: any success body is discarded.
    pub fn disallow_saml_result<D>(&self, outcome: Result<D, TransportFailure<ErrorBody>>) -> (r:
        Result<(), ErrorsWithNotFound>)
        ensures
            outcome is Ok ==> r == Result::<(), ErrorsWithNotFound>::Ok(()),
            outcome matches Result::Err(failure) ==> r == Result::<(), ErrorsWithNotFound>::Err(
                not_found_outcome(failure),
            ),
    {
        match outcome {
            Result::Ok(_) => Result::Ok(()),
            Result::Err(failure) => Result::Err(
                map_autogenerated_error(
                    failure,
                    ErrorsWithNotFound::UnexpectedException,
                    classify_not_found,
                ),
            ),
        }
    }
}

} // verus!
