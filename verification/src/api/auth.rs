//! The token endpoint (RFC 6749, client credentials grant): which credentials
//! a request carries and how each outcome is answered.

use vstd::prelude::*;

use crate::api::Validate;
use crate::error::{AppError, STATUS_BAD_REQUEST, STATUS_INTERNAL_SERVER_ERROR, STATUS_OK,
    STATUS_UNAUTHORIZED};
use crate::text::str_eq;

verus! {

/// A request for an access token.
#[derive(Debug)]
pub struct AccessTokenRequest {
    pub grant_type: String,
    pub client_id: Option<String>,
    pub client_secret: Option<String>,
}

impl Validate for AccessTokenRequest {
    /// A token request has no constraints beyond its shape.
    open spec fn valid(&self) -> bool {
        true
    }

    fn validate(&self) -> (r: Result<(), AppError>) {
        Ok(())
    }
}

/// The error codes of RFC 6749, section 5.2, and a server error.
#[derive(Debug, Clone, Copy, PartialEq, Eq, Structural)]
pub enum OAuthErrorType {
    InvalidRequest,
    InvalidClient,
    InvalidGrant,
    UnauthorizedClient,
    UnsupportedGrantType,
    InvalidScope,
    ServerError,
}

/// An error of the token endpoint and its description.
#[derive(Debug, Clone)]
pub struct OAuthError {
    pub error: OAuthErrorType,
    pub error_description: Option<String>,
}

impl OAuthError {
    /// An error of the given kind, without description.
    pub fn new(error: OAuthErrorType) -> (r: OAuthError)
        ensures
            r.error == error,
            r.error_description is None,
    {
        OAuthError { error, error_description: None }
    }

    /// The same error with the given description.
    pub fn with_description(self, description: String) -> (r: OAuthError)
        ensures
            r.error == self.error,
            r.error_description == Some(description),
    {
        OAuthError { error: self.error, error_description: Some(description) }
    }
}

/// An error of the token endpoint as it is answered.
pub struct ResponseOAuthError(pub OAuthError);

/// The status a token endpoint error is answered with.
pub open spec fn oauth_status(e: OAuthErrorType) -> u16 {
    match e {
        OAuthErrorType::InvalidClient => STATUS_UNAUTHORIZED,
        OAuthErrorType::ServerError => STATUS_INTERNAL_SERVER_ERROR,
        _ => STATUS_BAD_REQUEST,
    }
}

impl ResponseOAuthError {
    /// The status of the answer.
    pub fn status(&self) -> (r: u16)
        ensures
            r == oauth_status(self.0.error),
    {
        match self.0.error {
            OAuthErrorType::InvalidClient => STATUS_UNAUTHORIZED,
            OAuthErrorType::ServerError => STATUS_INTERNAL_SERVER_ERROR,
            _ => STATUS_BAD_REQUEST,
        }
    }

    /// The `WWW-Authenticate` challenge the answer carries: one for HTTP basic
    /// authentication exactly when the client was not authenticated.
    pub fn challenge(&self) -> (r: Option<&'static str>)
        ensures
            r is Some <==> self.0.error == OAuthErrorType::InvalidClient,
            r matches Some(c) ==> c@ == "Basic realm=\"VTN\""@,
    {
        match self.0.error {
            OAuthErrorType::InvalidClient => Some("Basic realm=\"VTN\""),
            _ => None,
        }
    }

    /// The answer when no token could be issued.
    pub fn token_not_issued() -> (r: ResponseOAuthError)
        ensures
            r.0.error == OAuthErrorType::ServerError,
            r.0.error_description matches Some(d) && d@ == "Could not issue a new token"@,
    {
        ResponseOAuthError(
            OAuthError::new(OAuthErrorType::ServerError).with_description(
                String::from_str("Could not issue a new token"),
            ),
        )
    }
}

/// An issued access token.
#[derive(Debug)]
pub struct AccessTokenResponse {
    pub access_token: String,
    pub token_type: &'static str,
    pub expires_in: u64,
    pub scope: Option<String>,
}

impl AccessTokenResponse {
    /// The status of the answer.
    pub fn status(&self) -> (r: u16)
        ensures
            r == STATUS_OK,
    {
        STATUS_OK
    }
}

/// How long an issued token is valid: 30 days, in seconds.
pub fn token_lifetime_secs() -> (r: u64)
    ensures
        r == 2592000,
{
    3600 * 24 * 30
}

/// The credentials a token request carries in its body: the client id with the
/// secret (empty if absent), or an empty id with the secret, or none.
pub open spec fn body_credentials(req: AccessTokenRequest) -> Option<(Seq<char>, Seq<char>)> {
    match req.client_id {
        Some(id) => Some(
            (
                id@,
                match req.client_secret {
                    Some(s) => s@,
                    None => Seq::<char>::empty(),
                },
            ),
        ),
        None => match req.client_secret {
            Some(s) => Some((Seq::<char>::empty(), s@)),
            None => None,
        },
    }
}

/// The credentials to check for a token request: from the body or from the
/// basic authentication header (`header`: user name and password), where
/// exactly one of them carries some. Errors are answered as RFC 6749 says,
/// each with its description.
pub open spec fn select_outcome(
    req: AccessTokenRequest,
    header: Option<(Seq<char>, Seq<char>)>,
) -> Result<(Seq<char>, Seq<char>), (OAuthErrorType, Seq<char>)> {
    if req.grant_type@ != "client_credentials"@ {
        Err((OAuthErrorType::UnsupportedGrantType, "Only client_credentials grant type is supported"@))
    } else if header is Some && body_credentials(req) is Some {
        Err((OAuthErrorType::InvalidRequest, "Both header and body authentication provided"@))
    } else if body_credentials(req) is Some {
        Ok(body_credentials(req)->0)
    } else if header is Some {
        Ok(header->0)
    } else {
        Err(
            (
                OAuthErrorType::InvalidClient,
                "No valid authentication data provided, client_id and client_secret required"@,
            ),
        )
    }
}

/// The error is of the kind and carries the description.
pub open spec fn oauth_error_is(e: OAuthError, kind: OAuthErrorType, description: Seq<char>) -> bool {
    &&& e.error == kind
    &&& e.error_description matches Some(d) && d@ == description
}

/// Picks the credentials of a token request, given the user name and password
/// of its basic authentication header, if it has one.
pub fn select_credentials(req: &AccessTokenRequest, header: Option<(String, String)>) -> (r: Result<
    (String, String),
    ResponseOAuthError,
>)
    ensures
        match (r, select_outcome(*req, match header {
            Some(h) => Some((h.0@, h.1@)),
            None => None,
        })) {
            (Ok(c), Ok(expected)) => c.0@ == expected.0 && c.1@ == expected.1,
            (Err(e), Err(expected)) => oauth_error_is(e.0, expected.0, expected.1),
            _ => false,
        },
{
    if !str_eq(req.grant_type.as_str(), "client_credentials") {
        return Err(
            ResponseOAuthError(
                OAuthError::new(OAuthErrorType::UnsupportedGrantType).with_description(
                    String::from_str("Only client_credentials grant type is supported"),
                ),
            ),
        );
    }
    let body: Option<(String, String)> = match &req.client_id {
        Some(id) => Some(
            (
                id.clone(),
                match &req.client_secret {
                    Some(s) => s.clone(),
                    None => String::new(),
                },
            ),
        ),
        None => match &req.client_secret {
            Some(s) => Some((String::new(), s.clone())),
            None => None,
        },
    };
    if header.is_some() && body.is_some() {
        return Err(
            ResponseOAuthError(
                OAuthError::new(OAuthErrorType::InvalidRequest).with_description(
                    String::from_str("Both header and body authentication provided"),
                ),
            ),
        );
    }
    match body {
        Some(c) => Ok(c),
        None => match header {
            Some(c) => Ok(c),
            None => Err(
                ResponseOAuthError(
                    OAuthError::new(OAuthErrorType::InvalidClient).with_description(
                        String::from_str(
                            "No valid authentication data provided, client_id and client_secret required",
                        ),
                    ),
                ),
            ),
        },
    }
}

/// The answer to a token request whose credentials were checked: unknown
/// credentials are an invalid client; otherwise the token, if one could be
/// issued, is handed out as a bearer token valid for 30 days.
pub fn token_answer(credentials_known: bool, token: Option<String>) -> (r: Result<
    AccessTokenResponse,
    ResponseOAuthError,
>)
    ensures
        !credentials_known ==> (r matches Err(e) && oauth_error_is(
            e.0,
            OAuthErrorType::InvalidClient,
            "Invalid client_id or client_secret"@,
        )),
        credentials_known && token is None ==> (r matches Err(e) && oauth_error_is(
            e.0,
            OAuthErrorType::ServerError,
            "Could not issue a new token"@,
        )),
        credentials_known && token is Some ==> (r matches Ok(resp) && resp.access_token
            == token->0 && resp.token_type@ == "bearer"@ && resp.expires_in == 2592000
            && resp.scope is None),
{
    if !credentials_known {
        return Err(
            ResponseOAuthError(
                OAuthError::new(OAuthErrorType::InvalidClient).with_description(
                    String::from_str("Invalid client_id or client_secret"),
                ),
            ),
        );
    }
    match token {
        None => Err(ResponseOAuthError::token_not_issued()),
        Some(access_token) => Ok(
            AccessTokenResponse {
                access_token,
                token_type: "bearer",
                expires_in: token_lifetime_secs(),
                scope: None,
            },
        ),
    }
}

} // verus!
