//! Errors returned by the client.

use vstd::prelude::*;

verus! {

/// The classification of an error answer from the API.
#[derive(Debug, Clone, Copy, PartialEq, Eq, Structural)]
pub enum ApiErrorKind {
    /// `400`: the request was malformed or rejected.
    BadRequest,
    /// `401`: missing or invalid credentials.
    Unauthorized,
    /// `403`: the token lacks the required scope or permission.
    Forbidden,
    /// `404`: the resource does not exist.
    NotFound,
    /// `429`: too many requests.
    RateLimited,
    /// `5xx`: a server-side failure.
    Server,
    /// Any other status.
    Other,
    /// A `401` on a swiss edit or schedule request: the caller does not own
    /// the tournament.
    SwissUnauthorizedEdit,
}

/// The kind that a status code is classified as.
pub open spec fn kind_for(status: u16) -> ApiErrorKind {
    if status == 400 {
        ApiErrorKind::BadRequest
    } else if status == 401 {
        ApiErrorKind::Unauthorized
    } else if status == 403 {
        ApiErrorKind::Forbidden
    } else if status == 404 {
        ApiErrorKind::NotFound
    } else if status == 429 {
        ApiErrorKind::RateLimited
    } else if 500 <= status <= 599 {
        ApiErrorKind::Server
    } else {
        ApiErrorKind::Other
    }
}

/// Each status is classified by its own code: `400` is a bad request, `401`
/// unauthorized, `403` forbidden, `404` not found, `429` rate limited, every
/// `5xx` a server failure, anything else `Other`; no plain status is a Swiss
/// ownership rejection.
pub proof fn lemma_status_kinds(status: u16)
    ensures
        (kind_for(status) == ApiErrorKind::BadRequest) <==> status == 400,
        (kind_for(status) == ApiErrorKind::Unauthorized) <==> status == 401,
        (kind_for(status) == ApiErrorKind::Forbidden) <==> status == 403,
        (kind_for(status) == ApiErrorKind::NotFound) <==> status == 404,
        (kind_for(status) == ApiErrorKind::RateLimited) <==> status == 429,
        (kind_for(status) == ApiErrorKind::Server) <==> 500 <= status <= 599,
        (kind_for(status) == ApiErrorKind::Other) <==> !(status == 400 || status == 401 || status == 403
            || status == 404 || status == 429 || 500 <= status <= 599),
        kind_for(status) != ApiErrorKind::SwissUnauthorizedEdit,
{
}

/// Classifies a status code.
pub fn classify_status(status: u16) -> (r: ApiErrorKind)
    ensures
        r == kind_for(status),
{
    if status == 400 {
        ApiErrorKind::BadRequest
    } else if status == 401 {
        ApiErrorKind::Unauthorized
    } else if status == 403 {
        ApiErrorKind::Forbidden
    } else if status == 404 {
        ApiErrorKind::NotFound
    } else if status == 429 {
        ApiErrorKind::RateLimited
    } else if 500 <= status && status <= 599 {
        ApiErrorKind::Server
    } else {
        ApiErrorKind::Other
    }
}

/// An error answer from the API.
#[derive(Debug, Clone)]
pub struct ApiError {
    /// The HTTP status code.
    pub status: u16,
    /// The classification of the error.
    pub kind: ApiErrorKind,
    /// The error message from the body, if any.
    pub message: Option<String>,
    /// The `Retry-After` delay in seconds, if the server sent one.
    pub retry_after: Option<u64>,
}

impl ApiError {
    /// Builds the error for a status, classifying it by its code.
    pub fn new(status: u16, message: Option<String>, retry_after: Option<u64>) -> (r: ApiError)
        ensures
            r.status == status,
            r.kind == kind_for(status),
            r.message == message,
            r.retry_after == retry_after,
    {
        ApiError { status, kind: classify_status(status), message, retry_after }
    }

    /// The same error, reclassified as `kind`.
    pub fn with_kind(self, kind: ApiErrorKind) -> (r: ApiError)
        ensures
            r == (ApiError { kind, ..self }),
    {
        ApiError { kind, ..self }
    }
}

/// The standard `OAuth2` error codes (RFC 6749, section 5.2).
#[derive(Debug, Clone, PartialEq, Eq)]
pub enum OAuthErrorCode {
    /// `invalid_request`.
    InvalidRequest,
    /// `invalid_client`.
    InvalidClient,
    /// `invalid_grant`.
    InvalidGrant,
    /// `unauthorized_client`.
    UnauthorizedClient,
    /// `unsupported_grant_type`.
    UnsupportedGrantType,
    /// `invalid_scope`.
    InvalidScope,
    /// Any other code, kept verbatim.
    Other(String),
}

/// The code that a wire string names.
pub open spec fn oauth_code_for(code: Seq<char>) -> OAuthErrorCode {
    if code == "invalid_request"@ {
        OAuthErrorCode::InvalidRequest
    } else if code == "invalid_client"@ {
        OAuthErrorCode::InvalidClient
    } else if code == "invalid_grant"@ {
        OAuthErrorCode::InvalidGrant
    } else if code == "unauthorized_client"@ {
        OAuthErrorCode::UnauthorizedClient
    } else if code == "unsupported_grant_type"@ {
        OAuthErrorCode::UnsupportedGrantType
    } else if code == "invalid_scope"@ {
        OAuthErrorCode::InvalidScope
    } else {
        OAuthErrorCode::Other(arbitrary())
    }
}

/// The standard codes are named as RFC 6749 spells them (`invalid_request`,
/// `invalid_client`, `invalid_grant`, `unauthorized_client`,
/// `unsupported_grant_type`, `invalid_scope`).
pub proof fn lemma_oauth_code_names()
    ensures
        oauth_code_for(seq!['i', 'n', 'v', 'a', 'l', 'i', 'd', '_', 'r', 'e', 'q', 'u', 'e', 's', 't']) == OAuthErrorCode::InvalidRequest,
        oauth_code_for(seq!['i', 'n', 'v', 'a', 'l', 'i', 'd', '_', 'c', 'l', 'i', 'e', 'n', 't']) == OAuthErrorCode::InvalidClient,
        oauth_code_for(seq!['i', 'n', 'v', 'a', 'l', 'i', 'd', '_', 'g', 'r', 'a', 'n', 't']) == OAuthErrorCode::InvalidGrant,
        oauth_code_for(seq!['u', 'n', 'a', 'u', 't', 'h', 'o', 'r', 'i', 'z', 'e', 'd', '_', 'c', 'l', 'i', 'e', 'n', 't']) == OAuthErrorCode::UnauthorizedClient,
        oauth_code_for(seq!['u', 'n', 's', 'u', 'p', 'p', 'o', 'r', 't', 'e', 'd', '_', 'g', 'r', 'a', 'n', 't', '_', 't', 'y', 'p', 'e']) == OAuthErrorCode::UnsupportedGrantType,
        oauth_code_for(seq!['i', 'n', 'v', 'a', 'l', 'i', 'd', '_', 's', 'c', 'o', 'p', 'e']) == OAuthErrorCode::InvalidScope,
{
    reveal_strlit("invalid_request");
    reveal_strlit("invalid_client");
    reveal_strlit("invalid_grant");
    reveal_strlit("unauthorized_client");
    reveal_strlit("unsupported_grant_type");
    reveal_strlit("invalid_scope");
    assert("invalid_request"@.len() != "invalid_client"@.len());
    assert("invalid_request"@.len() != "invalid_grant"@.len());
    assert("invalid_request"@.len() != "unauthorized_client"@.len());
    assert("invalid_request"@.len() != "unsupported_grant_type"@.len());
    assert("invalid_request"@.len() != "invalid_scope"@.len());
    assert("invalid_client"@.len() != "invalid_grant"@.len());
    assert("invalid_client"@.len() != "unauthorized_client"@.len());
    assert("invalid_client"@.len() != "unsupported_grant_type"@.len());
    assert("invalid_client"@.len() != "invalid_scope"@.len());
    assert("invalid_grant"@.len() != "unauthorized_client"@.len());
    assert("invalid_grant"@.len() != "unsupported_grant_type"@.len());
    assert("invalid_grant"@[8] != "invalid_scope"@[8]);
    assert("unauthorized_client"@.len() != "unsupported_grant_type"@.len());
    assert("unauthorized_client"@.len() != "invalid_scope"@.len());
    assert("unsupported_grant_type"@.len() != "invalid_scope"@.len());
    assert(seq!['i', 'n', 'v', 'a', 'l', 'i', 'd', '_', 'r', 'e', 'q', 'u', 'e', 's', 't'] =~= "invalid_request"@);
    assert(seq!['i', 'n', 'v', 'a', 'l', 'i', 'd', '_', 'c', 'l', 'i', 'e', 'n', 't'] =~= "invalid_client"@);
    assert(seq!['i', 'n', 'v', 'a', 'l', 'i', 'd', '_', 'g', 'r', 'a', 'n', 't'] =~= "invalid_grant"@);
    assert(seq!['u', 'n', 'a', 'u', 't', 'h', 'o', 'r', 'i', 'z', 'e', 'd', '_', 'c', 'l', 'i', 'e', 'n', 't'] =~= "unauthorized_client"@);
    assert(seq!['u', 'n', 's', 'u', 'p', 'p', 'o', 'r', 't', 'e', 'd', '_', 'g', 'r', 'a', 'n', 't', '_', 't', 'y', 'p', 'e'] =~= "unsupported_grant_type"@);
    assert(seq!['i', 'n', 'v', 'a', 'l', 'i', 'd', '_', 's', 'c', 'o', 'p', 'e'] =~= "invalid_scope"@);
}

/// Whether a code is the `Other` case carrying `code` verbatim.
pub open spec fn is_other_code(c: OAuthErrorCode, code: Seq<char>) -> bool {
    match c {
        OAuthErrorCode::Other(s) => s@ == code,
        _ => false,
    }
}

/// Whether `c` is the code that the wire string `code` names.
pub open spec fn names_code(c: OAuthErrorCode, code: Seq<char>) -> bool {
    match oauth_code_for(code) {
        OAuthErrorCode::Other(_) => is_other_code(c, code),
        known => c == known,
    }
}

/// Compares two strings by value.
pub fn str_eq(a: &str, b: &str) -> (r: bool)
    ensures
        r == (a@ == b@),
{
    let sa = String::from_str(a);
    let sb = String::from_str(b);
    sa == sb
}

impl OAuthErrorCode {
    /// Parses a wire code; unknown codes are kept as [`OAuthErrorCode::Other`].
    pub fn parse(code: &str) -> (r: OAuthErrorCode)
        ensures
            names_code(r, code@),
    {
        if str_eq(code, "invalid_request") {
            OAuthErrorCode::InvalidRequest
        } else if str_eq(code, "invalid_client") {
            OAuthErrorCode::InvalidClient
        } else if str_eq(code, "invalid_grant") {
            OAuthErrorCode::InvalidGrant
        } else if str_eq(code, "unauthorized_client") {
            OAuthErrorCode::UnauthorizedClient
        } else if str_eq(code, "unsupported_grant_type") {
            OAuthErrorCode::UnsupportedGrantType
        } else if str_eq(code, "invalid_scope") {
            OAuthErrorCode::InvalidScope
        } else {
            OAuthErrorCode::Other(String::from_str(code))
        }
    }
}

/// An error from the `OAuth2` token endpoint.
#[derive(Debug, Clone)]
pub struct OAuthError {
    /// The error code.
    pub code: OAuthErrorCode,
    /// The human-readable description, if any.
    pub description: Option<String>,
}

impl OAuthError {
    /// Builds the error from the wire code and description.
    pub fn new(code: &str, description: Option<String>) -> (r: OAuthError)
        ensures
            names_code(r.code, code@),
            r.description == description,
    {
        OAuthError { code: OAuthErrorCode::parse(code), description }
    }
}

/// A PKCE code verifier that RFC 7636 does not allow.
#[derive(Debug, Clone, Copy, PartialEq, Eq, Structural)]
pub enum PkceError {
    /// The verifier is not `43..=128` bytes long; carries the length.
    InvalidVerifierLength(usize),
    /// The verifier holds a character outside the unreserved set.
    InvalidVerifierChars,
}

/// Any error returned by the client.
#[derive(Debug, Clone)]
pub enum LichessError {
    /// The API answered with an error status.
    Api(ApiError),
    /// The `OAuth2` token endpoint rejected the request.
    OAuth(OAuthError),
    /// The request could not be built.
    InvalidRequest(String),
    /// The answer could not be decoded into the expected type.
    Decode {
        /// What was being decoded.
        what: String,
        /// Why decoding failed.
        message: String,
    },
    /// The request could not be sent or the answer could not be read.
    Transport(String),
}

/// The error of an answer with a failing status: the status, classified; as
/// message the `error` field of the JSON body when it has one, else the body's
/// text (trimmed) when that is not empty; and the `Retry-After` delay.
pub fn answer_failure(
    status: u16,
    error_field: Option<String>,
    text: String,
    retry_after: Option<u64>,
) -> (r: LichessError)
    ensures
        r matches LichessError::Api(a) && {
            &&& a.status == status
            &&& a.kind == kind_for(status)
            &&& a.retry_after == retry_after
            &&& match error_field {
                Some(m) => a.message == Some(m),
                None => if text@.len() == 0 {
                    a.message is None
                } else {
                    a.message == Some(text)
                },
            }
        },
{
    let message = match error_field {
        Some(m) => Some(m),
        None => if text.as_str().is_empty() {
            None
        } else {
            Some(text)
        },
    };
    LichessError::Api(ApiError::new(status, message, retry_after))
}

/// The result of a client operation.
pub type Result<T> = core::result::Result<T, LichessError>;

} // verus!
