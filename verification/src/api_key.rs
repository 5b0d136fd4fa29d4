//! API-key operations: paged fetches, lifecycle mutations, and credential
//! validation, including the narrowing of a general validation response to
//! a personal or an organization credential.

use vstd::prelude::*;
use crate::config::Configuration;
use crate::errors::ApiKeyError;
use crate::errors::api_key_lookup_outcome;
use crate::errors::api_key_missing_outcome;
use crate::errors::api_key_page_outcome;
use crate::errors::classify_api_key_lookup;
use crate::errors::classify_api_key_missing;
use crate::errors::classify_api_key_page;
use crate::models::CreateApiKeyResponse;
use crate::models::FetchApiKeyResponse;
use crate::models::FetchApiKeysPagedResponse;
use crate::models::ValidateApiKeyResponse;
use crate::models::ValidateOrgApiKeyResponse;
use crate::models::ValidatePersonalApiKeyResponse;
use crate::transport::ErrorBody;
use crate::transport::TransportFailure;
use crate::transport::map_autogenerated_error;

verus! {

/// The API-key facade, holding the shared connection settings.
pub struct ApiKeyService<'a> {
    pub config: &'a Configuration,
}

impl ApiKeyService<'_> {
    /// Settle a fetch of the active API keys: a failure's structured
    /// bad-request body is preserved whatever the status.
    pub fn fetch_current_api_keys(
        &self,
        outcome: Result<FetchApiKeysPagedResponse, TransportFailure<ErrorBody>>,
    ) -> (r: Result<FetchApiKeysPagedResponse, ApiKeyError>)
        ensures
            outcome matches Result::Ok(page) ==> r == Result::<
                FetchApiKeysPagedResponse,
                ApiKeyError,
            >::Ok(page),
            outcome matches Result::Err(failure) ==> r == Result::<
                FetchApiKeysPagedResponse,
                ApiKeyError,
            >::Err(api_key_page_outcome(failure)),
    {
        match outcome {
            Result::Ok(page) => Result::Ok(page),
            Result::Err(failure) => Result::Err(
                map_autogenerated_error(
                    failure,
                    ApiKeyError::UnexpectedExceptionWithSDK,
                    classify_api_key_page,
                ),
            ),
        }
    }

    /// Settle a fetch of the archived API keys.
    pub fn fetch_archived_api_keys(
        &self,
        outcome: Result<FetchApiKeysPagedResponse, TransportFailure<ErrorBody>>,
    ) -> (r: Result<FetchApiKeysPagedResponse, ApiKeyError>)
        ensures
            outcome matches Result::Ok(page) ==> r == Result::<
                FetchApiKeysPagedResponse,
                ApiKeyError,
            >::Ok(page),
            outcome matches Result::Err(failure) ==> r == Result::<
                FetchApiKeysPagedResponse,
                ApiKeyError,
            >::Err(api_key_page_outcome(failure)),
    {
        match outcome {
            Result::Ok(page) => Result::Ok(page),
            Result::Err(failure) => Result::Err(
                map_autogenerated_error(
                    failure,
                    ApiKeyError::UnexpectedExceptionWithSDK,
                    classify_api_key_page,
                ),
            ),
        }
    }

    /// Settle a fetch of one API key: here a remote 404 means the key
    /// itself is invalid.
    pub fn fetch_api_key(
        &self,
        outcome: Result<FetchApiKeyResponse, TransportFailure<ErrorBody>>,
    ) -> (r: Result<FetchApiKeyResponse, ApiKeyError>)
        ensures
            outcome matches Result::Ok(key) ==> r == Result::<FetchApiKeyResponse, ApiKeyError>::Ok(
                key,
            ),
            outcome matches Result::Err(failure) ==> r == Result::<
                FetchApiKeyResponse,
                ApiKeyError,
            >::Err(api_key_lookup_outcome(failure)),
    {
        match outcome {
            Result::Ok(key) => Result::Ok(key),
            Result::Err(failure) => Result::Err(
                map_autogenerated_error(
                    failure,
                    ApiKeyError::UnexpectedExceptionWithSDK,
                    classify_api_key_lookup,
                ),
            ),
        }
    }

    /// Settle an API-key creation exchange.
    pub fn create_api_key(
        &self,
        outcome: Result<CreateApiKeyResponse, TransportFailure<ErrorBody>>,
    ) -> (r: Result<CreateApiKeyResponse, ApiKeyError>)
        ensures
            outcome matches Result::Ok(created) ==> r == Result::<
                CreateApiKeyResponse,
                ApiKeyError,
            >::Ok(created),
            outcome matches Result::Err(failure) ==> r == Result::<
                CreateApiKeyResponse,
                ApiKeyError,
            >::Err(api_key_missing_outcome(failure)),
    {
        match outcome {
            Result::Ok(created) => Result::Ok(created),
            Result::Err(failure) => Result::Err(
                map_autogenerated_error(
                    failure,
                    ApiKeyError::UnexpectedExceptionWithSDK,
                    classify_api_key_missing,
                ),
            ),
        }
    }

    /// Settle an API-key update: any success body is discarded, the result
    /// is plain success.
    pub fn update_api_key<D>(&self, outcome: Result<D, TransportFailure<ErrorBody>>) -> (r: Result<
        (),
        ApiKeyError,
    >)
        ensures
            outcome is Ok ==> r == Result::<(), ApiKeyError>::Ok(()),
            outcome matches Result::Err(failure) ==> r == Result::<(), ApiKeyError>::Err(
                api_key_lookup_outcome(failure),
            ),
    {
        match outcome {
            Result::Ok(_) => Result::Ok(()),
            Result::Err(failure) => Result::Err(
                map_autogenerated_error(
                    failure,
                    ApiKeyError::UnexpectedExceptionWithSDK,
                    classify_api_key_lookup,
                ),
            ),
        }
    }

    /// Settle an API-key deletion: any success body is discarded.
    pub fn delete_api_key<D>(&self, outcome: Result<D, TransportFailure<ErrorBody>>) -> (r: Result<
        (),
        ApiKeyError,
    >)
        ensures
            outcome is Ok ==> r == Result::<(), ApiKeyError>::Ok(()),
            outcome matches Result::Err(failure) ==> r == Result::<(), ApiKeyError>::Err(
                api_key_lookup_outcome(failure),
            ),
    {
        match outcome {
            Result::Ok(_) => Result::Ok(()),
            Result::Err(failure) => Result::Err(
                map_autogenerated_error(
                    failure,
                    ApiKeyError::UnexpectedExceptionWithSDK,
                    classify_api_key_lookup,
                ),
            ),
        }
    }

    /// Settle a credential validation exchange, leaving the response in
    /// its general shape.
    pub fn validate_api_key(
        &self,
        outcome: Result<ValidateApiKeyResponse, TransportFailure<ErrorBody>>,
    ) -> (r: Result<ValidateApiKeyResponse, ApiKeyError>)
        ensures
            outcome matches Result::Ok(resp) ==> r == Result::<
                ValidateApiKeyResponse,
                ApiKeyError,
            >::Ok(resp),
            outcome matches Result::Err(failure) ==> r == Result::<
                ValidateApiKeyResponse,
                ApiKeyError,
            >::Err(api_key_missing_outcome(failure)),
    {
        match outcome {
            Result::Ok(resp) => Result::Ok(resp),
            Result::Err(failure) => Result::Err(
                map_autogenerated_error(
                    failure,
                    ApiKeyError::UnexpectedExceptionWithSDK,
                    classify_api_key_missing,
                ),
            ),
        }
    }

    /// Validate a credential as a personal one: the general response must
    /// carry a user and no organization, otherwise the credential is not
    /// personal and the narrowing fails with its own error.
    pub fn validate_personal_api_key(
        &self,
        outcome: Result<ValidateApiKeyResponse, TransportFailure<ErrorBody>>,
    ) -> (r: Result<ValidatePersonalApiKeyResponse, ApiKeyError>)
        ensures
            outcome matches Result::Err(failure) ==> r == Result::<
                ValidatePersonalApiKeyResponse,
                ApiKeyError,
            >::Err(api_key_missing_outcome(failure)),
            outcome matches Result::Ok(resp) ==> (match resp.user {
                Option::Some(user) => if resp.org is Some {
                    r == Result::<ValidatePersonalApiKeyResponse, ApiKeyError>::Err(
                        ApiKeyError::InvalidPersonalAPIKey,
                    )
                } else {
                    r == Result::<ValidatePersonalApiKeyResponse, ApiKeyError>::Ok(
                        (ValidatePersonalApiKeyResponse { metadata: resp.metadata, user }),
                    )
                },
                Option::None => r == Result::<ValidatePersonalApiKeyResponse, ApiKeyError>::Err(
                    ApiKeyError::InvalidPersonalAPIKey,
                ),
            }),
    {
        let resp = match self.validate_api_key(outcome) {
            Result::Ok(resp) => resp,
            Result::Err(e) => {
                return Result::Err(e);
            },
        };
        if resp.org.is_some() {
            return Result::Err(ApiKeyError::InvalidPersonalAPIKey);
        }
        match resp.user {
            Option::Some(user) => Result::Ok(
                ValidatePersonalApiKeyResponse { metadata: resp.metadata, user },
            ),
            Option::None => Result::Err(ApiKeyError::InvalidPersonalAPIKey),
        }
    }

    /// Validate a credential as an organization one: the general response
    /// must carry an organization; a user may accompany it.
    pub fn validate_org_api_key(
        &self,
        outcome: Result<ValidateApiKeyResponse, TransportFailure<ErrorBody>>,
    ) -> (r: Result<ValidateOrgApiKeyResponse, ApiKeyError>)
        ensures
            outcome matches Result::Err(failure) ==> r == Result::<
                ValidateOrgApiKeyResponse,
                ApiKeyError,
            >::Err(api_key_missing_outcome(failure)),
            outcome matches Result::Ok(resp) ==> (match resp.org {
                Option::Some(org) => r == Result::<ValidateOrgApiKeyResponse, ApiKeyError>::Ok(
                    (ValidateOrgApiKeyResponse {
                        metadata: resp.metadata,
                        user: resp.user,
                        org,
                        user_in_org: resp.user_in_org,
                    }),
                ),
                Option::None => r == Result::<ValidateOrgApiKeyResponse, ApiKeyError>::Err(
                    ApiKeyError::InvalidOrgAPIKey,
                ),
            }),
    {
        let resp = match self.validate_api_key(outcome) {
            Result::Ok(resp) => resp,
            Result::Err(e) => {
                return Result::Err(e);
            },
        };
        match resp.org {
            Option::Some(org) => Result::Ok(
                ValidateOrgApiKeyResponse {
                    metadata: resp.metadata,
                    user: resp.user,
                    org,
                    user_in_org: resp.user_in_org,
                },
            ),
            Option::None => Result::Err(ApiKeyError::InvalidOrgAPIKey),
        }
    }
}

} // verus!
