//! API keys as the HTTP API shows them.

use vstd::prelude::*;

use super::error::{bad_request_error, ApiError};
use crate::database::models::api_key::ApiKey;
use crate::entity_id::{EntityId, ForApiKey};

verus! {

/// A listed API key, with the name of the user who made it. The token is never shown.
#[derive(Debug, Clone, PartialEq, Eq)]
pub struct ApiKeyResponse {
    pub id: EntityId<ForApiKey>,
    pub display_name: String,
    pub created_by: String,
    pub created_at: i64,
    pub expires_at: Option<i64>,
}

impl ApiKeyResponse {
    /// The listing of key `k`, made by the user named `created_by`.
    pub fn from_listed(k: ApiKey, created_by: String) -> (r: Self)
        ensures
            r.id@ == k.id@,
            r.display_name@ == k.display_name@,
            r.created_by@ == created_by@,
            r.created_at == k.created_at,
            r.expires_at == k.expires_at,
    {
        ApiKeyResponse {
            id: k.id,
            display_name: k.display_name,
            created_by,
            created_at: k.created_at,
            expires_at: k.expires_at,
        }
    }
}

/// A key just made, with its token: the only time the token is shown.
#[derive(Debug, Clone, PartialEq, Eq)]
pub struct CreatedApiKeyResponse {
    pub id: EntityId<ForApiKey>,
    pub display_name: String,
    pub created_by: String,
    pub created_at: i64,
    pub expires_at: Option<i64>,
    pub token: String,
}

impl CreatedApiKeyResponse {
    /// The answer for key `k` just made by `created_by`, whose token is `token`.
    pub fn from_created(k: ApiKey, created_by: String, token: String) -> (r: Self)
        ensures
            r.id@ == k.id@,
            r.display_name@ == k.display_name@,
            r.created_by@ == created_by@,
            r.created_at == k.created_at,
            r.expires_at == k.expires_at,
            r.token@ == token@,
    {
        CreatedApiKeyResponse {
            id: k.id,
            display_name: k.display_name,
            created_by,
            created_at: k.created_at,
            expires_at: k.expires_at,
            token,
        }
    }
}

/// A request to make a key.
#[derive(Debug, Clone, PartialEq, Eq)]
pub struct CreatePayload {
    pub display_name: String,
    pub expires_at: Option<i64>,
}

/// The key named in a request path.
#[derive(Debug, Clone, PartialEq, Eq)]
pub struct IdPath {
    pub id: EntityId<ForApiKey>,
}

/// Why a key may not be made.
pub open spec fn past_expiry_error() -> super::error::ApiErrorView {
    super::error::ApiErrorView {
        status: bad_request_error().status,
        error: bad_request_error().error,
        message: "API key cannot expire in the past"@,
    }
}

impl CreatePayload {
    /// Checks the request at time `now`: a key may not expire before now.
    pub fn check_expiry(&self, now: i64) -> (r: Result<(), ApiError>)
        ensures
            r is Err <==> (self.expires_at matches Some(t) && now > t),
            r matches Err(e) ==> e@ == past_expiry_error(),
    {
        if let Some(expires_at) = self.expires_at {
            if now > expires_at {
                return Err(
                    ApiError::bad_request().with_message(
                        String::from_str("API key cannot expire in the past"),
                    ),
                );
            }
        }
        Ok(())
    }
}

} // verus!
