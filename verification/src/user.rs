//! User operations: fetches, batch fetches, queries, and mutations.
//!
//! Every operation is a single request/response exchange. The facade's part
//! is local: operations addressing one identifier first decide, as a
//! [`Step`], whether the request may go out at all — a malformed identifier
//! settles locally and no remote call is made — and every remote outcome is
//! settled into the operation's typed result, failures translated through
//! the operation's classification table.

use vstd::prelude::*;
use crate::config::Configuration;
use crate::errors::BatchFetchError;
use crate::errors::CreateMagicLinkError;
use crate::errors::CreateUserError;
use crate::errors::ErrorsWithNotFound;
use crate::errors::FetchByQueryError;
use crate::errors::MigrateUserError;
use crate::errors::UpdatePasswordError;
use crate::errors::UpdateUserEmailError;
use crate::errors::UpdateUserMetadataError;
use crate::errors::by_query_outcome;
use crate::errors::classify_batch_fetch;
use crate::errors::classify_by_query;
use crate::errors::classify_create_user;
use crate::errors::classify_magic_link;
use crate::errors::classify_migrate_user;
use crate::errors::classify_not_found;
use crate::errors::classify_update_email;
use crate::errors::classify_update_metadata;
use crate::errors::classify_update_password;
use crate::errors::create_user_outcome;
use crate::errors::magic_link_outcome;
use crate::errors::migrate_user_outcome;
use crate::errors::not_found_outcome;
use crate::errors::update_email_outcome;
use crate::errors::update_metadata_outcome;
use crate::errors::update_password_outcome;
use crate::helpers::flat_reasons;
use crate::helpers::is_valid_id;
use crate::helpers::valid_id;
use crate::models::CreateMagicLinkParams;
use crate::models::CreateMagicLinkRequest;
use crate::models::CreateUserParams;
use crate::models::CreateUserRequest;
use crate::models::CreatedUserResponse;
use crate::models::DeleteUserParams;
use crate::models::DisableUser2faParams;
use crate::models::DisableUserParams;
use crate::models::EnableUserParams;
use crate::models::FetchUserByIdParams;
use crate::models::MagicLink;
use crate::models::MigrateUserParams;
use crate::models::MigrateUserRequest;
use crate::models::UpdateUserEmailParams;
use crate::models::UpdateUserMetadataParams;
use crate::models::UpdateUserPasswordParams;
use crate::models::UserMetadata;
use crate::models::UserPagedResponse;
use crate::transport::ErrorBody;
use crate::transport::Step;
use crate::transport::TransportFailure;
use crate::transport::map_autogenerated_error;
use crate::user_map::UserMap;
use crate::user_map::users_by_email;
use crate::user_map::users_by_id;
use crate::user_map::users_by_username;

verus! {

/// The user-operation facade, holding the shared connection settings.
pub struct UserService<'a> {
    pub config: &'a Configuration,
}

impl UserService<'_> {
    /// Settle a fetch-by-email exchange: a success body is the user record,
    /// and a failure is translated through the standard table.
    pub fn fetch_user_by_email(
        &self,
        outcome: Result<UserMetadata, TransportFailure<ErrorBody>>,
    ) -> (r: Result<UserMetadata, ErrorsWithNotFound>)
        ensures
            outcome matches Result::Ok(user) ==> r == Result::<
                UserMetadata,
                ErrorsWithNotFound,
            >::Ok(user),
            outcome matches Result::Err(failure) ==> r == Result::<
                UserMetadata,
                ErrorsWithNotFound,
            >::Err(not_found_outcome(failure)),
    {
        match outcome {
            Result::Ok(user) => Result::Ok(user),
            Result::Err(failure) => Result::Err(
                map_autogenerated_error(
                    failure,
                    ErrorsWithNotFound::UnexpectedException,
                    classify_not_found,
                ),
            ),
        }
    }

    /// Decide the first step of a fetch by user id: a malformed identifier
    /// settles locally as `NotFound` — the remote side is never asked — and
    /// a well-formed one sends the request unchanged.
    pub fn fetch_user_by_id(&self, params: FetchUserByIdParams) -> (s: Step<
        FetchUserByIdParams,
        Result<UserMetadata, ErrorsWithNotFound>,
    >)
        ensures
            valid_id(params.user_id@) ==> s == Step::<
                FetchUserByIdParams,
                Result<UserMetadata, ErrorsWithNotFound>,
            >::Call(params),
            !valid_id(params.user_id@) ==> s == Step::<
                FetchUserByIdParams,
                Result<UserMetadata, ErrorsWithNotFound>,
            >::Done(Result::Err(ErrorsWithNotFound::NotFound)),
    {
        if !is_valid_id(params.user_id.as_str()) {
            return Step::Done(Result::Err(ErrorsWithNotFound::NotFound));
        }
        Step::Call(params)
    }

    /// Settle a fetch-by-id exchange.
    pub fn fetch_user_by_id_result(
        &self,
        outcome: Result<UserMetadata, TransportFailure<ErrorBody>>,
    ) -> (r: Result<UserMetadata, ErrorsWithNotFound>)
        ensures
            outcome matches Result::Ok(user) ==> r == Result::<
                UserMetadata,
                ErrorsWithNotFound,
            >::Ok(user),
            outcome matches Result::Err(failure) ==> r == Result::<
                UserMetadata,
                ErrorsWithNotFound,
            >::Err(not_found_outcome(failure)),
    {
        match outcome {
            Result::Ok(user) => Result::Ok(user),
            Result::Err(failure) => Result::Err(
                map_autogenerated_error(
                    failure,
                    ErrorsWithNotFound::UnexpectedException,
                    classify_not_found,
                ),
            ),
        }
    }

    /// Settle a fetch-by-username exchange.
    pub fn fetch_user_by_username(
        &self,
        outcome: Result<UserMetadata, TransportFailure<ErrorBody>>,
    ) -> (r: Result<UserMetadata, ErrorsWithNotFound>)
        ensures
            outcome matches Result::Ok(user) ==> r == Result::<
                UserMetadata,
                ErrorsWithNotFound,
            >::Ok(user),
            outcome matches Result::Err(failure) ==> r == Result::<
                UserMetadata,
                ErrorsWithNotFound,
            >::Err(not_found_outcome(failure)),
    {
        match outcome {
            Result::Ok(user) => Result::Ok(user),
            Result::Err(failure) => Result::Err(
                map_autogenerated_error(
                    failure,
                    ErrorsWithNotFound::UnexpectedException,
                    classify_not_found,
                ),
            ),
        }
    }

    /// Settle a batch fetch by ids: the response list folds into a mapping
    /// keyed by user id, a later duplicate overwriting an earlier one; a
    /// failure's bad-request reasons are flattened into one message.
    pub fn fetch_users_by_ids(
        &self,
        outcome: Result<Vec<UserMetadata>, TransportFailure<ErrorBody>>,
    ) -> (r: Result<UserMap, BatchFetchError>)
        ensures
            outcome matches Result::Ok(users) ==> (r matches Result::Ok(m) && m@ == users_by_id(
                users@,
            ) && m.wf()),
            outcome matches Result::Err(TransportFailure::Connector) ==> r == Result::<
                UserMap,
                BatchFetchError,
            >::Err(BatchFetchError::UnexpectedException),
            outcome matches Result::Err(TransportFailure::Response { status, body }) ==> (match body {
                Option::Some(ErrorBody::BadRequest(details)) => r matches Result::Err(
                    BatchFetchError::BadRequest(message),
                ) && message@ == flat_reasons(details.query.deep_view()),
                Option::None => r == Result::<UserMap, BatchFetchError>::Err(
                    if status == 401 {
                        BatchFetchError::InvalidApiKey
                    } else {
                        BatchFetchError::UnexpectedException
                    },
                ),
            }),
    {
        match outcome {
            Result::Ok(users) => Result::Ok(UserMap::keyed_by_user_id(users)),
            Result::Err(failure) => Result::Err(
                map_autogenerated_error(
                    failure,
                    BatchFetchError::UnexpectedException,
                    classify_batch_fetch,
                ),
            ),
        }
    }

    /// Settle a batch fetch by emails, folding into a mapping keyed by
    /// email address.
    pub fn fetch_users_by_emails(
        &self,
        outcome: Result<Vec<UserMetadata>, TransportFailure<ErrorBody>>,
    ) -> (r: Result<UserMap, BatchFetchError>)
        ensures
            outcome matches Result::Ok(users) ==> (r matches Result::Ok(m) && m@ == users_by_email(
                users@,
            ) && m.wf()),
            outcome matches Result::Err(TransportFailure::Connector) ==> r == Result::<
                UserMap,
                BatchFetchError,
            >::Err(BatchFetchError::UnexpectedException),
            outcome matches Result::Err(TransportFailure::Response { status, body }) ==> (match body {
                Option::Some(ErrorBody::BadRequest(details)) => r matches Result::Err(
                    BatchFetchError::BadRequest(message),
                ) && message@ == flat_reasons(details.query.deep_view()),
                Option::None => r == Result::<UserMap, BatchFetchError>::Err(
                    if status == 401 {
                        BatchFetchError::InvalidApiKey
                    } else {
                        BatchFetchError::UnexpectedException
                    },
                ),
            }),
    {
        match outcome {
            Result::Ok(users) => Result::Ok(UserMap::keyed_by_email(users)),
            Result::Err(failure) => Result::Err(
                map_autogenerated_error(
                    failure,
                    BatchFetchError::UnexpectedException,
                    classify_batch_fetch,
                ),
            ),
        }
    }

    /// Settle a batch fetch by usernames, folding into a mapping keyed by
    /// username; a record without one is dropped, never stored under a
    /// placeholder key.
    pub fn fetch_users_by_usernames(
        &self,
        outcome: Result<Vec<UserMetadata>, TransportFailure<ErrorBody>>,
    ) -> (r: Result<UserMap, BatchFetchError>)
        ensures
            outcome matches Result::Ok(users) ==> (r matches Result::Ok(m) && m@
                == users_by_username(users@) && m.wf()),
            outcome matches Result::Err(TransportFailure::Connector) ==> r == Result::<
                UserMap,
                BatchFetchError,
            >::Err(BatchFetchError::UnexpectedException),
            outcome matches Result::Err(TransportFailure::Response { status, body }) ==> (match body {
                Option::Some(ErrorBody::BadRequest(details)) => r matches Result::Err(
                    BatchFetchError::BadRequest(message),
                ) && message@ == flat_reasons(details.query.deep_view()),
                Option::None => r == Result::<UserMap, BatchFetchError>::Err(
                    if status == 401 {
                        BatchFetchError::InvalidApiKey
                    } else {
                        BatchFetchError::UnexpectedException
                    },
                ),
            }),
    {
        match outcome {
            Result::Ok(users) => Result::Ok(UserMap::keyed_by_username(users)),
            Result::Err(failure) => Result::Err(
                map_autogenerated_error(
                    failure,
                    BatchFetchError::UnexpectedException,
                    classify_batch_fetch,
                ),
            ),
        }
    }

    /// Settle a paged user query: a bad-request body is preserved whole on
    /// the error.
    pub fn fetch_users_by_query(
        &self,
        outcome: Result<UserPagedResponse, TransportFailure<ErrorBody>>,
    ) -> (r: Result<UserPagedResponse, FetchByQueryError>)
        ensures
            outcome matches Result::Ok(page) ==> r == Result::<
                UserPagedResponse,
                FetchByQueryError,
            >::Ok(page),
            outcome matches Result::Err(failure) ==> r == Result::<
                UserPagedResponse,
                FetchByQueryError,
            >::Err(by_query_outcome(failure)),
    {
        match outcome {
            Result::Ok(page) => Result::Ok(page),
            Result::Err(failure) => Result::Err(
                map_autogenerated_error(
                    failure,
                    FetchByQueryError::UnexpectedException,
                    classify_by_query,
                ),
            ),
        }
    }

    /// Wrap the request body into the transport parameters of user
    /// creation, as the exchange expects them.
    pub fn create_user(&self, create_user_request: CreateUserRequest) -> (s: Step<
        CreateUserParams,
        Result<CreatedUserResponse, CreateUserError>,
    >)
        ensures
            s == Step::<CreateUserParams, Result<CreatedUserResponse, CreateUserError>>::Call(
                CreateUserParams { create_user_request },
            ),
    {
        Step::Call(CreateUserParams { create_user_request })
    }

    /// Settle a user-creation exchange.
    pub fn create_user_result(
        &self,
        outcome: Result<CreatedUserResponse, TransportFailure<ErrorBody>>,
    ) -> (r: Result<CreatedUserResponse, CreateUserError>)
        ensures
            outcome matches Result::Ok(created) ==> r == Result::<
                CreatedUserResponse,
                CreateUserError,
            >::Ok(created),
            outcome matches Result::Err(failure) ==> r == Result::<
                CreatedUserResponse,
                CreateUserError,
            >::Err(create_user_outcome(failure)),
    {
        match outcome {
            Result::Ok(created) => Result::Ok(created),
            Result::Err(failure) => Result::Err(
                map_autogenerated_error(
                    failure,
                    CreateUserError::UnexpectedException,
                    classify_create_user,
                ),
            ),
        }
    }

    /// Decide the first step of a user deletion: a malformed identifier
    /// settles locally as `NotFound`, with no remote call.
    pub fn delete_user(&self, user_id: String) -> (s: Step<
        DeleteUserParams,
        Result<(), ErrorsWithNotFound>,
    >)
        ensures
            valid_id(user_id@) ==> s == Step::<DeleteUserParams, Result<(), ErrorsWithNotFound>>::Call(
                (DeleteUserParams { user_id }),
            ),
            !valid_id(user_id@) ==> s == Step::<
                DeleteUserParams,
                Result<(), ErrorsWithNotFound>,
            >::Done(Result::Err(ErrorsWithNotFound::NotFound)),
    {
        if !is_valid_id(user_id.as_str()) {
            return Step::Done(Result::Err(ErrorsWithNotFound::NotFound));
        }
        Step::Call(DeleteUserParams { user_id })
    }

    /// Settle a user deletion: any success body is discarded, the result is
    /// plain success.
    pub fn delete_user_result<D>(&self, outcome: Result<D, TransportFailure<ErrorBody>>) -> (r:
        Result<(), ErrorsWithNotFound>)
        ensures
            outcome is Ok ==> r == Result::<(), ErrorsWithNotFound>::Ok(()),
            outcome matches Result::Err(failure) ==> r == Result::<(), ErrorsWithNotFound>::Err(
                not_found_outcome(failure),
            ),
    {
        match outcome {
            Result::Ok(_) => Result::Ok(()),
            Result::Err(failure) => Result::Err(
                map_autogenerated_error(
                    failure,
                    ErrorsWithNotFound::UnexpectedException,
                    classify_not_found,
                ),
            ),
        }
    }

    /// Decide the first step of disabling a user.
    pub fn disable_user(&self, user_id: String) -> (s: Step<
        DisableUserParams,
        Result<(), ErrorsWithNotFound>,
    >)
        ensures
            valid_id(user_id@) ==> s == Step::<
                DisableUserParams,
                Result<(), ErrorsWithNotFound>,
            >::Call((DisableUserParams { user_id })),
            !valid_id(user_id@) ==> s == Step::<
                DisableUserParams,
                Result<(), ErrorsWithNotFound>,
            >::Done(Result::Err(ErrorsWithNotFound::NotFound)),
    {
        if !is_valid_id(user_id.as_str()) {
            return Step::Done(Result::Err(ErrorsWithNotFound::NotFound));
        }
        Step::Call(DisableUserParams { user_id })
    }

    /// Settle disabling a user.
    pub fn disable_user_result<D>(&self, outcome: Result<D, TransportFailure<ErrorBody>>) -> (r:
        Result<(), ErrorsWithNotFound>)
        ensures
            outcome is Ok ==> r == Result::<(), ErrorsWithNotFound>::Ok(()),
            outcome matches Result::Err(failure) ==> r == Result::<(), ErrorsWithNotFound>::Err(
                not_found_outcome(failure),
            ),
    {
        match outcome {
            Result::Ok(_) => Result::Ok(()),
            Result::Err(failure) => Result::Err(
                map_autogenerated_error(
                    failure,
                    ErrorsWithNotFound::UnexpectedException,
                    classify_not_found,
                ),
            ),
        }
    }

    /// Decide the first step of enabling a user.
    pub fn enable_user(&self, user_id: String) -> (s: Step<
        EnableUserParams,
        Result<(), ErrorsWithNotFound>,
    >)
        ensures
            valid_id(user_id@) ==> s == Step::<EnableUserParams, Result<(), ErrorsWithNotFound>>::Call(
                (EnableUserParams { user_id }),
            ),
            !valid_id(user_id@) ==> s == Step::<
                EnableUserParams,
                Result<(), ErrorsWithNotFound>,
            >::Done(Result::Err(ErrorsWithNotFound::NotFound)),
    {
        if !is_valid_id(user_id.as_str()) {
            return Step::Done(Result::Err(ErrorsWithNotFound::NotFound));
        }
        Step::Call(EnableUserParams { user_id })
    }

    /// Settle enabling a user.
    pub fn enable_user_result<D>(&self, outcome: Result<D, TransportFailure<ErrorBody>>) -> (r:
        Result<(), ErrorsWithNotFound>)
        ensures
            outcome is Ok ==> r == Result::<(), ErrorsWithNotFound>::Ok(()),
            outcome matches Result::Err(failure) ==> r == Result::<(), ErrorsWithNotFound>::Err(
                not_found_outcome(failure),
            ),
    {
        match outcome {
            Result::Ok(_) => Result::Ok(()),
            Result::Err(failure) => Result::Err(
                map_autogenerated_error(
                    failure,
                    ErrorsWithNotFound::UnexpectedException,
                    classify_not_found,
                ),
            ),
        }
    }

    /// Decide the first step of a user-metadata update.
    pub fn update_user_metadata(&self, params: UpdateUserMetadataParams) -> (s: Step<
        UpdateUserMetadataParams,
        Result<(), UpdateUserMetadataError>,
    >)
        ensures
            valid_id(params.user_id@) ==> s == Step::<
                UpdateUserMetadataParams,
                Result<(), UpdateUserMetadataError>,
            >::Call(params),
            !valid_id(params.user_id@) ==> s == Step::<
                UpdateUserMetadataParams,
                Result<(), UpdateUserMetadataError>,
            >::Done(Result::Err(UpdateUserMetadataError::NotFound)),
    {
        if !is_valid_id(params.user_id.as_str()) {
            return Step::Done(Result::Err(UpdateUserMetadataError::NotFound));
        }
        Step::Call(params)
    }

    /// Settle a user-metadata update: any success body is discarded.
    pub fn update_user_metadata_result<D>(
        &self,
        outcome: Result<D, TransportFailure<ErrorBody>>,
    ) -> (r: Result<(), UpdateUserMetadataError>)
        ensures
            outcome is Ok ==> r == Result::<(), UpdateUserMetadataError>::Ok(()),
            outcome matches Result::Err(failure) ==> r == Result::<
                (),
                UpdateUserMetadataError,
            >::Err(update_metadata_outcome(failure)),
    {
        match outcome {
            Result::Ok(_) => Result::Ok(()),
            Result::Err(failure) => Result::Err(
                map_autogenerated_error(
                    failure,
                    UpdateUserMetadataError::UnexpectedException,
                    classify_update_metadata,
                ),
            ),
        }
    }

    /// Decide the first step of a user-email update.
    pub fn update_user_email(&self, params: UpdateUserEmailParams) -> (s: Step<
        UpdateUserEmailParams,
        Result<(), UpdateUserEmailError>,
    >)
        ensures
            valid_id(params.user_id@) ==> s == Step::<
                UpdateUserEmailParams,
                Result<(), UpdateUserEmailError>,
            >::Call(params),
            !valid_id(params.user_id@) ==> s == Step::<
                UpdateUserEmailParams,
                Result<(), UpdateUserEmailError>,
            >::Done(Result::Err(UpdateUserEmailError::NotFound)),
    {
        if !is_valid_id(params.user_id.as_str()) {
            return Step::Done(Result::Err(UpdateUserEmailError::NotFound));
        }
        Step::Call(params)
    }

    /// Settle a user-email update: any success body is discarded.
    pub fn update_user_email_result<D>(
        &self,
        outcome: Result<D, TransportFailure<ErrorBody>>,
    ) -> (r: Result<(), UpdateUserEmailError>)
        ensures
            outcome is Ok ==> r == Result::<(), UpdateUserEmailError>::Ok(()),
            outcome matches Result::Err(failure) ==> r == Result::<(), UpdateUserEmailError>::Err(
                update_email_outcome(failure),
            ),
    {
        match outcome {
            Result::Ok(_) => Result::Ok(()),
            Result::Err(failure) => Result::Err(
                map_autogenerated_error(
                    failure,
                    UpdateUserEmailError::UnexpectedException,
                    classify_update_email,
                ),
            ),
        }
    }

    /// Decide the first step of a password update.
    pub fn update_user_password(&self, params: UpdateUserPasswordParams) -> (s: Step<
        UpdateUserPasswordParams,
        Result<(), UpdatePasswordError>,
    >)
        ensures
            valid_id(params.user_id@) ==> s == Step::<
                UpdateUserPasswordParams,
                Result<(), UpdatePasswordError>,
            >::Call(params),
            !valid_id(params.user_id@) ==> s == Step::<
                UpdateUserPasswordParams,
                Result<(), UpdatePasswordError>,
            >::Done(Result::Err(UpdatePasswordError::NotFound)),
    {
        if !is_valid_id(params.user_id.as_str()) {
            return Step::Done(Result::Err(UpdatePasswordError::NotFound));
        }
        Step::Call(params)
    }

    /// Settle a password update: any success body is discarded.
    pub fn update_user_password_result<D>(
        &self,
        outcome: Result<D, TransportFailure<ErrorBody>>,
    ) -> (r: Result<(), UpdatePasswordError>)
        ensures
            outcome is Ok ==> r == Result::<(), UpdatePasswordError>::Ok(()),
            outcome matches Result::Err(failure) ==> r == Result::<(), UpdatePasswordError>::Err(
                update_password_outcome(failure),
            ),
    {
        match outcome {
            Result::Ok(_) => Result::Ok(()),
            Result::Err(failure) => Result::Err(
                map_autogenerated_error(
                    failure,
                    UpdatePasswordError::UnexpectedException,
                    classify_update_password,
                ),
            ),
        }
    }

    /// Decide the first step of disabling a user's second factor.
    pub fn disable_user_2fa(&self, user_id: String) -> (s: Step<
        DisableUser2faParams,
        Result<(), ErrorsWithNotFound>,
    >)
        ensures
            valid_id(user_id@) ==> s == Step::<
                DisableUser2faParams,
                Result<(), ErrorsWithNotFound>,
            >::Call((DisableUser2faParams { user_id })),
            !valid_id(user_id@) ==> s == Step::<
                DisableUser2faParams,
                Result<(), ErrorsWithNotFound>,
            >::Done(Result::Err(ErrorsWithNotFound::NotFound)),
    {
        if !is_valid_id(user_id.as_str()) {
            return Step::Done(Result::Err(ErrorsWithNotFound::NotFound));
        }
        Step::Call(DisableUser2faParams { user_id })
    }

    /// Settle disabling a user's second factor.
    pub fn disable_user_2fa_result<D>(
        &self,
        outcome: Result<D, TransportFailure<ErrorBody>>,
    ) -> (r: Result<(), ErrorsWithNotFound>)
        ensures
            outcome is Ok ==> r == Result::<(), ErrorsWithNotFound>::Ok(()),
            outcome matches Result::Err(failure) ==> r == Result::<(), ErrorsWithNotFound>::Err(
                not_found_outcome(failure),
            ),
    {
        match outcome {
            Result::Ok(_) => Result::Ok(()),
            Result::Err(failure) => Result::Err(
                map_autogenerated_error(
                    failure,
                    ErrorsWithNotFound::UnexpectedException,
                    classify_not_found,
                ),
            ),
        }
    }

    /// Wrap the request body into the transport parameters of user
    /// migration.
    pub fn migrate_user(&self, migrate_user_request: MigrateUserRequest) -> (s: Step<
        MigrateUserParams,
        Result<CreatedUserResponse, MigrateUserError>,
    >)
        ensures
            s == Step::<MigrateUserParams, Result<CreatedUserResponse, MigrateUserError>>::Call(
                (MigrateUserParams { migrate_user_request }),
            ),
    {
        Step::Call(MigrateUserParams { migrate_user_request })
    }

    /// Settle a user-migration exchange.
    pub fn migrate_user_result(
        &self,
        outcome: Result<CreatedUserResponse, TransportFailure<ErrorBody>>,
    ) -> (r: Result<CreatedUserResponse, MigrateUserError>)
        ensures
            outcome matches Result::Ok(created) ==> r == Result::<
                CreatedUserResponse,
                MigrateUserError,
            >::Ok(created),
            outcome matches Result::Err(failure) ==> r == Result::<
                CreatedUserResponse,
                MigrateUserError,
            >::Err(migrate_user_outcome(failure)),
    {
        match outcome {
            Result::Ok(created) => Result::Ok(created),
            Result::Err(failure) => Result::Err(
                map_autogenerated_error(
                    failure,
                    MigrateUserError::UnexpectedException,
                    classify_migrate_user,
                ),
            ),
        }
    }

    /// Wrap the request body into the transport parameters of magic-link
    /// creation.
    pub fn create_magic_link(&self, create_magic_link_request: CreateMagicLinkRequest) -> (s: Step<
        CreateMagicLinkParams,
        Result<MagicLink, CreateMagicLinkError>,
    >)
        ensures
            s == Step::<CreateMagicLinkParams, Result<MagicLink, CreateMagicLinkError>>::Call(
                (CreateMagicLinkParams { create_magic_link_request }),
            ),
    {
        Step::Call(CreateMagicLinkParams { create_magic_link_request })
    }

    /// Settle a magic-link creation exchange.
    pub fn create_magic_link_result(
        &self,
        outcome: Result<MagicLink, TransportFailure<ErrorBody>>,
    ) -> (r: Result<MagicLink, CreateMagicLinkError>)
        ensures
            outcome matches Result::Ok(link) ==> r == Result::<
                MagicLink,
                CreateMagicLinkError,
            >::Ok(link),
            outcome matches Result::Err(failure) ==> r == Result::<
                MagicLink,
                CreateMagicLinkError,
            >::Err(magic_link_outcome(failure)),
    {
        match outcome {
            Result::Ok(link) => Result::Ok(link),
            Result::Err(failure) => Result::Err(
                map_autogenerated_error(
                    failure,
                    CreateMagicLinkError::UnexpectedException,
                    classify_magic_link,
                ),
            ),
        }
    }
}

} // verus!
