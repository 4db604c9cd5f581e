//! The `OAuth2` Authorization Code flow with PKCE — "Log in with Lichess".
//!
//! Reached through [`LichessClient::oauth`].
//!
//! The flow has two steps:
//!
//! 1. [`OauthApi::authorization_url`] builds the URL to send the user to, along
//!    with the [`PkceVerifier`] and `state` you must store until the redirect
//!    returns.
//! 2. After the redirect, verify `state`, then send
//!    [`OauthApi::exchange_code`] with the returned `code` and your stored
//!    verifier to obtain a [`LichessToken`].
//!
//! [`OauthApi::revoke_token`] revokes the current client's token.

pub mod pkce;
pub mod scope;
mod token;

pub use pkce::PkceVerifier;
pub use scope::Scope;
pub use token::LichessToken;

use vstd::prelude::*;

use crate::client::LichessClient;
use crate::config::Host;
use crate::error::{ApiError, LichessError, OAuthError};
use crate::http::{ApiRequest, Method};
use crate::text::{join_seqs, join_strs, push_char, Pairs};

verus! {

/// Length of the generated CSRF `state` value.
pub const STATE_LEN: usize = 24;

/// Parameters for building an authorization URL.
#[derive(Debug, Clone)]
pub struct AuthorizationRequest<'a> {
    /// An identifier that uniquely identifies your application.
    pub client_id: &'a str,
    /// The absolute URL the user is redirected back to.
    pub redirect_uri: &'a str,
    /// The scopes to request (may be empty).
    pub scopes: &'a [Scope],
    /// Optional hint to pre-fill a specific Lichess username on the login page.
    pub username_hint: Option<&'a str>,
}

/// The result of [`OauthApi::authorization_url`].
///
/// Send the user to [`url`](Self::url); persist [`state`](Self::state) and
/// [`verifier`](Self::verifier) until the redirect returns.
#[derive(Debug)]
pub struct Authorization {
    /// The URL to send the user to, serialized.
    pub url: String,
    /// The CSRF `state` returned verbatim with the redirect; verify it matches.
    pub state: String,
    /// The PKCE verifier needed to exchange the authorization code.
    pub verifier: PkceVerifier,
}

/// Parameters for exchanging an authorization code for a token.
#[derive(Debug, Clone)]
pub struct CodeExchange<'a> {
    /// The `code` query parameter received at the redirect URI.
    pub code: &'a str,
    /// The verifier stored when the authorization URL was built.
    pub code_verifier: &'a PkceVerifier,
    /// Must match the `redirect_uri` used to obtain the code.
    pub redirect_uri: &'a str,
    /// Must match the `client_id` used to obtain the code.
    pub client_id: &'a str,
}

/// The error body returned by the token endpoint on failure.
#[derive(Debug, Clone)]
pub struct OAuthErrorBody {
    /// The `OAuth2` error code.
    pub error: String,
    /// The human-readable description, if any.
    pub error_description: Option<String>,
}

/// Accessor for the `OAuth2` / PKCE endpoints.
#[derive(Debug)]
pub struct OauthApi<'a> {
    client: &'a LichessClient,
}

/// The space-separated form of a list of scopes.
pub open spec fn scopes_text(scopes: Seq<Scope>) -> Seq<char> {
    join_seqs(scopes.map_values(|s: Scope| s.wire()), " "@)
}

/// The query of the authorization URL, in order.
pub open spec fn authorize_params(
    request: AuthorizationRequest,
    challenge: Seq<char>,
    state: Seq<char>,
) -> Pairs {
    seq![
        ("response_type"@, "code"@),
        ("client_id"@, request.client_id@),
        ("redirect_uri"@, request.redirect_uri@),
        ("code_challenge_method"@, "S256"@),
        ("code_challenge"@, challenge),
        ("scope"@, scopes_text(request.scopes@)),
        ("state"@, state),
    ] + crate::http::str_pair("username"@, request.username_hint)
}

proof fn lemma_authorize_params_carry_fields_response_type(request: AuthorizationRequest, challenge: Seq<char>, state: Seq<char>)
    ensures
        crate::text::carries(authorize_params(request, challenge, state), "response_type"@, Some("code"@)),
{
    reveal_strlit("client_id");
    reveal_strlit("code_challenge");
    reveal_strlit("code_challenge_method");
    reveal_strlit("redirect_uri");
    reveal_strlit("response_type");
    reveal_strlit("scope");
    reveal_strlit("state");
    reveal_strlit("username");
    assert("response_type"@.len() != "client_id"@.len());
    assert("response_type"@.len() != "code_challenge"@.len());
    assert("response_type"@.len() != "code_challenge_method"@.len());
    assert("response_type"@.len() != "redirect_uri"@.len());
    assert("response_type"@.len() != "scope"@.len());
    assert("response_type"@.len() != "state"@.len());
    assert("response_type"@.len() != "username"@.len());
    let p0 = seq![("response_type"@, "code"@)];
    let p1 = seq![("client_id"@, request.client_id@)];
    let p2 = seq![("redirect_uri"@, request.redirect_uri@)];
    let p3 = seq![("code_challenge_method"@, "S256"@)];
    let p4 = seq![("code_challenge"@, challenge)];
    let p5 = seq![("scope"@, scopes_text(request.scopes@))];
    let p6 = seq![("state"@, state)];
    let p7 = crate::http::str_pair("username"@, request.username_hint);
    let s0 = p0;
    let s1 = s0 + p1;
    let s2 = s1 + p2;
    let s3 = s2 + p3;
    let s4 = s3 + p4;
    let s5 = s4 + p5;
    let s6 = s5 + p6;
    let s7 = s6 + p7;
    assert(authorize_params(request, challenge, state) =~= s7);
    let v = Some("code"@);
    assert(p0 == crate::text::one_pair("response_type"@, v));
    crate::text::lemma_one_pair_carries("response_type"@, v);
    crate::text::lemma_extend(s0, p1, "response_type"@, v, false);
    crate::text::lemma_extend(s1, p2, "response_type"@, v, false);
    crate::text::lemma_extend(s2, p3, "response_type"@, v, false);
    crate::text::lemma_extend(s3, p4, "response_type"@, v, false);
    crate::text::lemma_extend(s4, p5, "response_type"@, v, false);
    crate::text::lemma_extend(s5, p6, "response_type"@, v, false);
    crate::text::lemma_extend(s6, p7, "response_type"@, v, false);
}

proof fn lemma_authorize_params_carry_fields_client_id(request: AuthorizationRequest, challenge: Seq<char>, state: Seq<char>)
    ensures
        crate::text::carries(authorize_params(request, challenge, state), "client_id"@, Some(request.client_id@)),
{
    reveal_strlit("client_id");
    reveal_strlit("code_challenge");
    reveal_strlit("code_challenge_method");
    reveal_strlit("redirect_uri");
    reveal_strlit("response_type");
    reveal_strlit("scope");
    reveal_strlit("state");
    reveal_strlit("username");
    assert("client_id"@.len() != "code_challenge"@.len());
    assert("client_id"@.len() != "code_challenge_method"@.len());
    assert("client_id"@.len() != "redirect_uri"@.len());
    assert("client_id"@.len() != "response_type"@.len());
    assert("client_id"@.len() != "scope"@.len());
    assert("client_id"@.len() != "state"@.len());
    assert("client_id"@.len() != "username"@.len());
    let p0 = seq![("response_type"@, "code"@)];
    let p1 = seq![("client_id"@, request.client_id@)];
    let p2 = seq![("redirect_uri"@, request.redirect_uri@)];
    let p3 = seq![("code_challenge_method"@, "S256"@)];
    let p4 = seq![("code_challenge"@, challenge)];
    let p5 = seq![("scope"@, scopes_text(request.scopes@))];
    let p6 = seq![("state"@, state)];
    let p7 = crate::http::str_pair("username"@, request.username_hint);
    let s0 = p0;
    let s1 = s0 + p1;
    let s2 = s1 + p2;
    let s3 = s2 + p3;
    let s4 = s3 + p4;
    let s5 = s4 + p5;
    let s6 = s5 + p6;
    let s7 = s6 + p7;
    assert(authorize_params(request, challenge, state) =~= s7);
    let v = Some(request.client_id@);
    crate::text::lemma_extend(s0, p1, "client_id"@, v, true);
    crate::text::lemma_extend(s1, p2, "client_id"@, v, false);
    crate::text::lemma_extend(s2, p3, "client_id"@, v, false);
    crate::text::lemma_extend(s3, p4, "client_id"@, v, false);
    crate::text::lemma_extend(s4, p5, "client_id"@, v, false);
    crate::text::lemma_extend(s5, p6, "client_id"@, v, false);
    crate::text::lemma_extend(s6, p7, "client_id"@, v, false);
}

proof fn lemma_authorize_params_carry_fields_redirect_uri(request: AuthorizationRequest, challenge: Seq<char>, state: Seq<char>)
    ensures
        crate::text::carries(authorize_params(request, challenge, state), "redirect_uri"@, Some(request.redirect_uri@)),
{
    reveal_strlit("client_id");
    reveal_strlit("code_challenge");
    reveal_strlit("code_challenge_method");
    reveal_strlit("redirect_uri");
    reveal_strlit("response_type");
    reveal_strlit("scope");
    reveal_strlit("state");
    reveal_strlit("username");
    assert("redirect_uri"@.len() != "client_id"@.len());
    assert("redirect_uri"@.len() != "code_challenge"@.len());
    assert("redirect_uri"@.len() != "code_challenge_method"@.len());
    assert("redirect_uri"@.len() != "response_type"@.len());
    assert("redirect_uri"@.len() != "scope"@.len());
    assert("redirect_uri"@.len() != "state"@.len());
    assert("redirect_uri"@.len() != "username"@.len());
    let p0 = seq![("response_type"@, "code"@)];
    let p1 = seq![("client_id"@, request.client_id@)];
    let p2 = seq![("redirect_uri"@, request.redirect_uri@)];
    let p3 = seq![("code_challenge_method"@, "S256"@)];
    let p4 = seq![("code_challenge"@, challenge)];
    let p5 = seq![("scope"@, scopes_text(request.scopes@))];
    let p6 = seq![("state"@, state)];
    let p7 = crate::http::str_pair("username"@, request.username_hint);
    let s0 = p0;
    let s1 = s0 + p1;
    let s2 = s1 + p2;
    let s3 = s2 + p3;
    let s4 = s3 + p4;
    let s5 = s4 + p5;
    let s6 = s5 + p6;
    let s7 = s6 + p7;
    assert(authorize_params(request, challenge, state) =~= s7);
    let v = Some(request.redirect_uri@);
    crate::text::lemma_extend(s0, p1, "redirect_uri"@, None, false);
    crate::text::lemma_extend(s1, p2, "redirect_uri"@, v, true);
    crate::text::lemma_extend(s2, p3, "redirect_uri"@, v, false);
    crate::text::lemma_extend(s3, p4, "redirect_uri"@, v, false);
    crate::text::lemma_extend(s4, p5, "redirect_uri"@, v, false);
    crate::text::lemma_extend(s5, p6, "redirect_uri"@, v, false);
    crate::text::lemma_extend(s6, p7, "redirect_uri"@, v, false);
}

proof fn lemma_authorize_params_carry_fields_code_challenge_method(request: AuthorizationRequest, challenge: Seq<char>, state: Seq<char>)
    ensures
        crate::text::carries(authorize_params(request, challenge, state), "code_challenge_method"@, Some("S256"@)),
{
    reveal_strlit("client_id");
    reveal_strlit("code_challenge");
    reveal_strlit("code_challenge_method");
    reveal_strlit("redirect_uri");
    reveal_strlit("response_type");
    reveal_strlit("scope");
    reveal_strlit("state");
    reveal_strlit("username");
    assert("code_challenge_method"@.len() != "client_id"@.len());
    assert("code_challenge_method"@.len() != "code_challenge"@.len());
    assert("code_challenge_method"@.len() != "redirect_uri"@.len());
    assert("code_challenge_method"@.len() != "response_type"@.len());
    assert("code_challenge_method"@.len() != "scope"@.len());
    assert("code_challenge_method"@.len() != "state"@.len());
    assert("code_challenge_method"@.len() != "username"@.len());
    let p0 = seq![("response_type"@, "code"@)];
    let p1 = seq![("client_id"@, request.client_id@)];
    let p2 = seq![("redirect_uri"@, request.redirect_uri@)];
    let p3 = seq![("code_challenge_method"@, "S256"@)];
    let p4 = seq![("code_challenge"@, challenge)];
    let p5 = seq![("scope"@, scopes_text(request.scopes@))];
    let p6 = seq![("state"@, state)];
    let p7 = crate::http::str_pair("username"@, request.username_hint);
    let s0 = p0;
    let s1 = s0 + p1;
    let s2 = s1 + p2;
    let s3 = s2 + p3;
    let s4 = s3 + p4;
    let s5 = s4 + p5;
    let s6 = s5 + p6;
    let s7 = s6 + p7;
    assert(authorize_params(request, challenge, state) =~= s7);
    let v = Some("S256"@);
    crate::text::lemma_extend(s0, p1, "code_challenge_method"@, None, false);
    crate::text::lemma_extend(s1, p2, "code_challenge_method"@, None, false);
    crate::text::lemma_extend(s2, p3, "code_challenge_method"@, v, true);
    crate::text::lemma_extend(s3, p4, "code_challenge_method"@, v, false);
    crate::text::lemma_extend(s4, p5, "code_challenge_method"@, v, false);
    crate::text::lemma_extend(s5, p6, "code_challenge_method"@, v, false);
    crate::text::lemma_extend(s6, p7, "code_challenge_method"@, v, false);
}

proof fn lemma_authorize_params_carry_fields_code_challenge(request: AuthorizationRequest, challenge: Seq<char>, state: Seq<char>)
    ensures
        crate::text::carries(authorize_params(request, challenge, state), "code_challenge"@, Some(challenge)),
{
    reveal_strlit("client_id");
    reveal_strlit("code_challenge");
    reveal_strlit("code_challenge_method");
    reveal_strlit("redirect_uri");
    reveal_strlit("response_type");
    reveal_strlit("scope");
    reveal_strlit("state");
    reveal_strlit("username");
    assert("code_challenge"@.len() != "client_id"@.len());
    assert("code_challenge"@.len() != "code_challenge_method"@.len());
    assert("code_challenge"@.len() != "redirect_uri"@.len());
    assert("code_challenge"@.len() != "response_type"@.len());
    assert("code_challenge"@.len() != "scope"@.len());
    assert("code_challenge"@.len() != "state"@.len());
    assert("code_challenge"@.len() != "username"@.len());
    let p0 = seq![("response_type"@, "code"@)];
    let p1 = seq![("client_id"@, request.client_id@)];
    let p2 = seq![("redirect_uri"@, request.redirect_uri@)];
    let p3 = seq![("code_challenge_method"@, "S256"@)];
    let p4 = seq![("code_challenge"@, challenge)];
    let p5 = seq![("scope"@, scopes_text(request.scopes@))];
    let p6 = seq![("state"@, state)];
    let p7 = crate::http::str_pair("username"@, request.username_hint);
    let s0 = p0;
    let s1 = s0 + p1;
    let s2 = s1 + p2;
    let s3 = s2 + p3;
    let s4 = s3 + p4;
    let s5 = s4 + p5;
    let s6 = s5 + p6;
    let s7 = s6 + p7;
    assert(authorize_params(request, challenge, state) =~= s7);
    let v = Some(challenge);
    crate::text::lemma_extend(s0, p1, "code_challenge"@, None, false);
    crate::text::lemma_extend(s1, p2, "code_challenge"@, None, false);
    crate::text::lemma_extend(s2, p3, "code_challenge"@, None, false);
    crate::text::lemma_extend(s3, p4, "code_challenge"@, v, true);
    crate::text::lemma_extend(s4, p5, "code_challenge"@, v, false);
    crate::text::lemma_extend(s5, p6, "code_challenge"@, v, false);
    crate::text::lemma_extend(s6, p7, "code_challenge"@, v, false);
}

proof fn lemma_authorize_params_carry_fields_scope(request: AuthorizationRequest, challenge: Seq<char>, state: Seq<char>)
    ensures
        crate::text::carries(authorize_params(request, challenge, state), "scope"@, Some(scopes_text(request.scopes@))),
{
    reveal_strlit("client_id");
    reveal_strlit("code_challenge");
    reveal_strlit("code_challenge_method");
    reveal_strlit("redirect_uri");
    reveal_strlit("response_type");
    reveal_strlit("scope");
    reveal_strlit("state");
    reveal_strlit("username");
    assert("scope"@.len() != "client_id"@.len());
    assert("scope"@.len() != "code_challenge"@.len());
    assert("scope"@.len() != "code_challenge_method"@.len());
    assert("scope"@.len() != "redirect_uri"@.len());
    assert("scope"@.len() != "response_type"@.len());
    assert("scope"@[1] != "state"@[1]);
    assert("scope"@.len() != "username"@.len());
    let p0 = seq![("response_type"@, "code"@)];
    let p1 = seq![("client_id"@, request.client_id@)];
    let p2 = seq![("redirect_uri"@, request.redirect_uri@)];
    let p3 = seq![("code_challenge_method"@, "S256"@)];
    let p4 = seq![("code_challenge"@, challenge)];
    let p5 = seq![("scope"@, scopes_text(request.scopes@))];
    let p6 = seq![("state"@, state)];
    let p7 = crate::http::str_pair("username"@, request.username_hint);
    let s0 = p0;
    let s1 = s0 + p1;
    let s2 = s1 + p2;
    let s3 = s2 + p3;
    let s4 = s3 + p4;
    let s5 = s4 + p5;
    let s6 = s5 + p6;
    let s7 = s6 + p7;
    assert(authorize_params(request, challenge, state) =~= s7);
    let v = Some(scopes_text(request.scopes@));
    crate::text::lemma_extend(s0, p1, "scope"@, None, false);
    crate::text::lemma_extend(s1, p2, "scope"@, None, false);
    crate::text::lemma_extend(s2, p3, "scope"@, None, false);
    crate::text::lemma_extend(s3, p4, "scope"@, None, false);
    crate::text::lemma_extend(s4, p5, "scope"@, v, true);
    crate::text::lemma_extend(s5, p6, "scope"@, v, false);
    crate::text::lemma_extend(s6, p7, "scope"@, v, false);
}

proof fn lemma_authorize_params_carry_fields_state(request: AuthorizationRequest, challenge: Seq<char>, state: Seq<char>)
    ensures
        crate::text::carries(authorize_params(request, challenge, state), "state"@, Some(state)),
{
    reveal_strlit("client_id");
    reveal_strlit("code_challenge");
    reveal_strlit("code_challenge_method");
    reveal_strlit("redirect_uri");
    reveal_strlit("response_type");
    reveal_strlit("scope");
    reveal_strlit("state");
    reveal_strlit("username");
    assert("state"@.len() != "client_id"@.len());
    assert("state"@.len() != "code_challenge"@.len());
    assert("state"@.len() != "code_challenge_method"@.len());
    assert("state"@.len() != "redirect_uri"@.len());
    assert("state"@.len() != "response_type"@.len());
    assert("state"@[1] != "scope"@[1]);
    assert("state"@.len() != "username"@.len());
    let p0 = seq![("response_type"@, "code"@)];
    let p1 = seq![("client_id"@, request.client_id@)];
    let p2 = seq![("redirect_uri"@, request.redirect_uri@)];
    let p3 = seq![("code_challenge_method"@, "S256"@)];
    let p4 = seq![("code_challenge"@, challenge)];
    let p5 = seq![("scope"@, scopes_text(request.scopes@))];
    let p6 = seq![("state"@, state)];
    let p7 = crate::http::str_pair("username"@, request.username_hint);
    let s0 = p0;
    let s1 = s0 + p1;
    let s2 = s1 + p2;
    let s3 = s2 + p3;
    let s4 = s3 + p4;
    let s5 = s4 + p5;
    let s6 = s5 + p6;
    let s7 = s6 + p7;
    assert(authorize_params(request, challenge, state) =~= s7);
    let v = Some(state);
    crate::text::lemma_extend(s0, p1, "state"@, None, false);
    crate::text::lemma_extend(s1, p2, "state"@, None, false);
    crate::text::lemma_extend(s2, p3, "state"@, None, false);
    crate::text::lemma_extend(s3, p4, "state"@, None, false);
    crate::text::lemma_extend(s4, p5, "state"@, None, false);
    crate::text::lemma_extend(s5, p6, "state"@, v, true);
    crate::text::lemma_extend(s6, p7, "state"@, v, false);
}

proof fn lemma_authorize_params_carry_fields_username(request: AuthorizationRequest, challenge: Seq<char>, state: Seq<char>)
    ensures
        crate::text::carries(authorize_params(request, challenge, state), "username"@, match request.username_hint { Some(v) => Some(v@), None => None }),
{
    reveal_strlit("client_id");
    reveal_strlit("code_challenge");
    reveal_strlit("code_challenge_method");
    reveal_strlit("redirect_uri");
    reveal_strlit("response_type");
    reveal_strlit("scope");
    reveal_strlit("state");
    reveal_strlit("username");
    assert("username"@.len() != "client_id"@.len());
    assert("username"@.len() != "code_challenge"@.len());
    assert("username"@.len() != "code_challenge_method"@.len());
    assert("username"@.len() != "redirect_uri"@.len());
    assert("username"@.len() != "response_type"@.len());
    assert("username"@.len() != "scope"@.len());
    assert("username"@.len() != "state"@.len());
    let p0 = seq![("response_type"@, "code"@)];
    let p1 = seq![("client_id"@, request.client_id@)];
    let p2 = seq![("redirect_uri"@, request.redirect_uri@)];
    let p3 = seq![("code_challenge_method"@, "S256"@)];
    let p4 = seq![("code_challenge"@, challenge)];
    let p5 = seq![("scope"@, scopes_text(request.scopes@))];
    let p6 = seq![("state"@, state)];
    let p7 = crate::http::str_pair("username"@, request.username_hint);
    let s0 = p0;
    let s1 = s0 + p1;
    let s2 = s1 + p2;
    let s3 = s2 + p3;
    let s4 = s3 + p4;
    let s5 = s4 + p5;
    let s6 = s5 + p6;
    let s7 = s6 + p7;
    assert(authorize_params(request, challenge, state) =~= s7);
    let v = match request.username_hint { Some(v) => Some(v@), None => None };
    crate::text::lemma_extend(s0, p1, "username"@, None, false);
    crate::text::lemma_extend(s1, p2, "username"@, None, false);
    crate::text::lemma_extend(s2, p3, "username"@, None, false);
    crate::text::lemma_extend(s3, p4, "username"@, None, false);
    crate::text::lemma_extend(s4, p5, "username"@, None, false);
    crate::text::lemma_extend(s5, p6, "username"@, None, false);
    crate::text::lemma_extend(s6, p7, "username"@, v, true);
}

/// The authorization query carries each input under its own key: the client id,
/// the redirect URI, the challenge (with method `S256`), the scopes, the state
/// and the username hint (only when given), and `response_type=code`.
pub proof fn lemma_authorize_params_carry_fields(request: AuthorizationRequest, challenge: Seq<char>, state: Seq<char>)
    ensures
        crate::text::carries(authorize_params(request, challenge, state), "response_type"@, Some("code"@)),
        crate::text::carries(authorize_params(request, challenge, state), "client_id"@, Some(request.client_id@)),
        crate::text::carries(authorize_params(request, challenge, state), "redirect_uri"@, Some(request.redirect_uri@)),
        crate::text::carries(authorize_params(request, challenge, state), "code_challenge_method"@, Some("S256"@)),
        crate::text::carries(authorize_params(request, challenge, state), "code_challenge"@, Some(challenge)),
        crate::text::carries(authorize_params(request, challenge, state), "scope"@, Some(scopes_text(request.scopes@))),
        crate::text::carries(authorize_params(request, challenge, state), "state"@, Some(state)),
        crate::text::carries(authorize_params(request, challenge, state), "username"@, match request.username_hint { Some(v) => Some(v@), None => None }),
{
    lemma_authorize_params_carry_fields_response_type(request, challenge, state);
    lemma_authorize_params_carry_fields_client_id(request, challenge, state);
    lemma_authorize_params_carry_fields_redirect_uri(request, challenge, state);
    lemma_authorize_params_carry_fields_code_challenge_method(request, challenge, state);
    lemma_authorize_params_carry_fields_code_challenge(request, challenge, state);
    lemma_authorize_params_carry_fields_scope(request, challenge, state);
    lemma_authorize_params_carry_fields_state(request, challenge, state);
    lemma_authorize_params_carry_fields_username(request, challenge, state);
}

/// The authorization URL on this base for a request, a challenge and a
/// state, or the text of the error parsing it.
pub open spec fn authorize_url(
    base: Seq<char>,
    request: AuthorizationRequest,
    challenge: Seq<char>,
    state: Seq<char>,
) -> Result<Seq<char>, Seq<char>> {
    url_with_params(base + "/oauth"@, authorize_params(request, challenge, state))
}

/// The form of the code exchange, in order.
pub open spec fn token_form(exchange: CodeExchange) -> Pairs {
    seq![
        ("grant_type"@, "authorization_code"@),
        ("code"@, exchange.code@),
        ("code_verifier"@, exchange.code_verifier@),
        ("redirect_uri"@, exchange.redirect_uri@),
        ("client_id"@, exchange.client_id@),
    ]
}

proof fn lemma_token_form_carries_fields_grant_type(exchange: CodeExchange)
    ensures
        crate::text::carries(token_form(exchange), "grant_type"@, Some("authorization_code"@)),
{
    reveal_strlit("client_id");
    reveal_strlit("code");
    reveal_strlit("code_verifier");
    reveal_strlit("grant_type");
    reveal_strlit("redirect_uri");
    assert("grant_type"@.len() != "client_id"@.len());
    assert("grant_type"@.len() != "code"@.len());
    assert("grant_type"@.len() != "code_verifier"@.len());
    assert("grant_type"@.len() != "redirect_uri"@.len());
    let p0 = seq![("grant_type"@, "authorization_code"@)];
    let p1 = seq![("code"@, exchange.code@)];
    let p2 = seq![("code_verifier"@, exchange.code_verifier@)];
    let p3 = seq![("redirect_uri"@, exchange.redirect_uri@)];
    let p4 = seq![("client_id"@, exchange.client_id@)];
    let s0 = p0;
    let s1 = s0 + p1;
    let s2 = s1 + p2;
    let s3 = s2 + p3;
    let s4 = s3 + p4;
    assert(token_form(exchange) =~= s4);
    let v = Some("authorization_code"@);
    assert(p0 == crate::text::one_pair("grant_type"@, v));
    crate::text::lemma_one_pair_carries("grant_type"@, v);
    crate::text::lemma_extend(s0, p1, "grant_type"@, v, false);
    crate::text::lemma_extend(s1, p2, "grant_type"@, v, false);
    crate::text::lemma_extend(s2, p3, "grant_type"@, v, false);
    crate::text::lemma_extend(s3, p4, "grant_type"@, v, false);
}

proof fn lemma_token_form_carries_fields_code(exchange: CodeExchange)
    ensures
        crate::text::carries(token_form(exchange), "code"@, Some(exchange.code@)),
{
    reveal_strlit("client_id");
    reveal_strlit("code");
    reveal_strlit("code_verifier");
    reveal_strlit("grant_type");
    reveal_strlit("redirect_uri");
    assert("code"@.len() != "client_id"@.len());
    assert("code"@.len() != "code_verifier"@.len());
    assert("code"@.len() != "grant_type"@.len());
    assert("code"@.len() != "redirect_uri"@.len());
    let p0 = seq![("grant_type"@, "authorization_code"@)];
    let p1 = seq![("code"@, exchange.code@)];
    let p2 = seq![("code_verifier"@, exchange.code_verifier@)];
    let p3 = seq![("redirect_uri"@, exchange.redirect_uri@)];
    let p4 = seq![("client_id"@, exchange.client_id@)];
    let s0 = p0;
    let s1 = s0 + p1;
    let s2 = s1 + p2;
    let s3 = s2 + p3;
    let s4 = s3 + p4;
    assert(token_form(exchange) =~= s4);
    let v = Some(exchange.code@);
    crate::text::lemma_extend(s0, p1, "code"@, v, true);
    crate::text::lemma_extend(s1, p2, "code"@, v, false);
    crate::text::lemma_extend(s2, p3, "code"@, v, false);
    crate::text::lemma_extend(s3, p4, "code"@, v, false);
}

proof fn lemma_token_form_carries_fields_code_verifier(exchange: CodeExchange)
    ensures
        crate::text::carries(token_form(exchange), "code_verifier"@, Some(exchange.code_verifier@)),
{
    reveal_strlit("client_id");
    reveal_strlit("code");
    reveal_strlit("code_verifier");
    reveal_strlit("grant_type");
    reveal_strlit("redirect_uri");
    assert("code_verifier"@.len() != "client_id"@.len());
    assert("code_verifier"@.len() != "code"@.len());
    assert("code_verifier"@.len() != "grant_type"@.len());
    assert("code_verifier"@.len() != "redirect_uri"@.len());
    let p0 = seq![("grant_type"@, "authorization_code"@)];
    let p1 = seq![("code"@, exchange.code@)];
    let p2 = seq![("code_verifier"@, exchange.code_verifier@)];
    let p3 = seq![("redirect_uri"@, exchange.redirect_uri@)];
    let p4 = seq![("client_id"@, exchange.client_id@)];
    let s0 = p0;
    let s1 = s0 + p1;
    let s2 = s1 + p2;
    let s3 = s2 + p3;
    let s4 = s3 + p4;
    assert(token_form(exchange) =~= s4);
    let v = Some(exchange.code_verifier@);
    crate::text::lemma_extend(s0, p1, "code_verifier"@, None, false);
    crate::text::lemma_extend(s1, p2, "code_verifier"@, v, true);
    crate::text::lemma_extend(s2, p3, "code_verifier"@, v, false);
    crate::text::lemma_extend(s3, p4, "code_verifier"@, v, false);
}

proof fn lemma_token_form_carries_fields_redirect_uri(exchange: CodeExchange)
    ensures
        crate::text::carries(token_form(exchange), "redirect_uri"@, Some(exchange.redirect_uri@)),
{
    reveal_strlit("client_id");
    reveal_strlit("code");
    reveal_strlit("code_verifier");
    reveal_strlit("grant_type");
    reveal_strlit("redirect_uri");
    assert("redirect_uri"@.len() != "client_id"@.len());
    assert("redirect_uri"@.len() != "code"@.len());
    assert("redirect_uri"@.len() != "code_verifier"@.len());
    assert("redirect_uri"@.len() != "grant_type"@.len());
    let p0 = seq![("grant_type"@, "authorization_code"@)];
    let p1 = seq![("code"@, exchange.code@)];
    let p2 = seq![("code_verifier"@, exchange.code_verifier@)];
    let p3 = seq![("redirect_uri"@, exchange.redirect_uri@)];
    let p4 = seq![("client_id"@, exchange.client_id@)];
    let s0 = p0;
    let s1 = s0 + p1;
    let s2 = s1 + p2;
    let s3 = s2 + p3;
    let s4 = s3 + p4;
    assert(token_form(exchange) =~= s4);
    let v = Some(exchange.redirect_uri@);
    crate::text::lemma_extend(s0, p1, "redirect_uri"@, None, false);
    crate::text::lemma_extend(s1, p2, "redirect_uri"@, None, false);
    crate::text::lemma_extend(s2, p3, "redirect_uri"@, v, true);
    crate::text::lemma_extend(s3, p4, "redirect_uri"@, v, false);
}

proof fn lemma_token_form_carries_fields_client_id(exchange: CodeExchange)
    ensures
        crate::text::carries(token_form(exchange), "client_id"@, Some(exchange.client_id@)),
{
    reveal_strlit("client_id");
    reveal_strlit("code");
    reveal_strlit("code_verifier");
    reveal_strlit("grant_type");
    reveal_strlit("redirect_uri");
    assert("client_id"@.len() != "code"@.len());
    assert("client_id"@.len() != "code_verifier"@.len());
    assert("client_id"@.len() != "grant_type"@.len());
    assert("client_id"@.len() != "redirect_uri"@.len());
    let p0 = seq![("grant_type"@, "authorization_code"@)];
    let p1 = seq![("code"@, exchange.code@)];
    let p2 = seq![("code_verifier"@, exchange.code_verifier@)];
    let p3 = seq![("redirect_uri"@, exchange.redirect_uri@)];
    let p4 = seq![("client_id"@, exchange.client_id@)];
    let s0 = p0;
    let s1 = s0 + p1;
    let s2 = s1 + p2;
    let s3 = s2 + p3;
    let s4 = s3 + p4;
    assert(token_form(exchange) =~= s4);
    let v = Some(exchange.client_id@);
    crate::text::lemma_extend(s0, p1, "client_id"@, None, false);
    crate::text::lemma_extend(s1, p2, "client_id"@, None, false);
    crate::text::lemma_extend(s2, p3, "client_id"@, None, false);
    crate::text::lemma_extend(s3, p4, "client_id"@, v, true);
}

/// The code-exchange form carries each input under its own key: the code, the
/// stored verifier, the redirect URI and the client id, with
/// `grant_type=authorization_code`.
pub proof fn lemma_token_form_carries_fields(exchange: CodeExchange)
    ensures
        crate::text::carries(token_form(exchange), "grant_type"@, Some("authorization_code"@)),
        crate::text::carries(token_form(exchange), "code"@, Some(exchange.code@)),
        crate::text::carries(token_form(exchange), "code_verifier"@, Some(exchange.code_verifier@)),
        crate::text::carries(token_form(exchange), "redirect_uri"@, Some(exchange.redirect_uri@)),
        crate::text::carries(token_form(exchange), "client_id"@, Some(exchange.client_id@)),
{
    lemma_token_form_carries_fields_grant_type(exchange);
    lemma_token_form_carries_fields_code(exchange);
    lemma_token_form_carries_fields_code_verifier(exchange);
    lemma_token_form_carries_fields_redirect_uri(exchange);
    lemma_token_form_carries_fields_client_id(exchange);
}

/// The URL that `url::Url::parse_with_params` builds from a base and query
/// pairs, or the text of its parse error.
pub uninterp spec fn url_with_params(base: Seq<char>, params: Pairs) -> Result<Seq<char>, Seq<char>>;

/// Calls `url::Url::parse_with_params` and serializes the outcome.
///
/// Trusted: the result is named by [`url_with_params`]; nothing more is
/// claimed about how the query is encoded.
#[verifier::external_body]
fn parse_with_params(base: &str, params: &Vec<(String, String)>) -> (r: Result<String, String>)
    ensures
        match r {
            Ok(u) => url_with_params(base@, params.deep_view()) == Ok::<Seq<char>, Seq<char>>(u@),
            Err(e) => url_with_params(base@, params.deep_view()) == Err::<Seq<char>, Seq<char>>(e@),
        },
{
    match url::Url::parse_with_params(base, params.iter()) {
        Ok(url) => Ok(url.to_string()),
        Err(err) => Err(err.to_string()),
    }
}

/// The authorization URL from the outcome of parsing it: the URL itself, or
/// [`LichessError::InvalidRequest`] explaining that the base URL is invalid.
pub fn authorize_url_from(parsed: Result<String, String>) -> (r: Result<String, LichessError>)
    ensures
        match parsed {
            Ok(u) => r matches Ok(v) && v@ == u@,
            Err(e) => r matches Err(LichessError::InvalidRequest(m)) && m@ == "invalid base URL: "@
                + e@,
        },
{
    match parsed {
        Ok(url) => Ok(url),
        Err(err) => {
            let mut message = String::from_str("invalid base URL: ");
            message.append(err.as_str());
            Err(LichessError::InvalidRequest(message))
        },
    }
}

/// Joins scopes into the space-separated form the endpoint expects.
pub fn join_scopes(scopes: &[Scope]) -> (r: String)
    ensures
        r@ == scopes_text(scopes@),
{
    let mut res = String::new();
    let ghost views = scopes@.map_values(|s: Scope| s.wire());
    let n = scopes.len();
    let mut i: usize = 0;
    while i < n
        invariant
            n == scopes@.len(),
            i <= n,
            views == scopes@.map_values(|s: Scope| s.wire()),
            res@ == join_seqs(views.take(i as int), " "@),
        decreases n - i,
    {
        let ghost before = res@;
        if i != 0 {
            push_char(&mut res, ' ');
            proof {
                reveal_strlit(" ");
            }
        }
        res.append(scopes[i].as_str());
        proof {
            let t = views.take(i + 1);
            assert(t.drop_last() =~= views.take(i as int));
            assert(t.last() == scopes@[i as int].wire());
            if i == 0 {
                assert(views.take(0) =~= Seq::<Seq<char>>::empty());
                assert(t.len() == 1);
                assert(res@ =~= t[0]);
            } else {
                reveal_strlit(" ");
                assert(res@ =~= join_seqs(t.drop_last(), " "@) + " "@ + t.last());
            }
        }
        i = i + 1;
    }
    assert(views.take(n as int) =~= views);
    res
}

/// Splitting the joined scopes at the spaces and parsing each piece gives the
/// scopes back, in order: the scope list survives the trip through the query.
pub proof fn lemma_join_scopes_round_trip(scopes: Seq<Scope>)
    requires
        scopes.len() >= 1,
    ensures
        crate::text::split_on(scopes_text(scopes), ' ').map_values(
            |p: Seq<char>| scope::scope_named(p),
        ) == scopes.map_values(|s: Scope| Some(s)),
{
    let ws = scopes.map_values(|s: Scope| s.wire());
    assert forall|i: int| 0 <= i < ws.len() implies !crate::text::holds_char(#[trigger] ws[i], ' ') by {
        scope::lemma_wire_has_no_space(scopes[i]);
    }
    reveal_strlit(" ");
    assert(" "@ =~= seq![' ']);
    crate::text::lemma_split_join(ws, ' ');
    assert forall|i: int| 0 <= i < scopes.len() implies scope::scope_named(#[trigger] ws[i]) == Some(
        scopes[i],
    ) by {
        scope::lemma_parse_wire(scopes[i]);
    }
    assert(crate::text::split_on(scopes_text(scopes), ' ').map_values(
        |p: Seq<char>| scope::scope_named(p),
    ) =~= scopes.map_values(|s: Scope| Some(s)));
}

/// Whether `e` is the error that a failed token answer with this status and
/// this parsed body maps to: the OAuth error of the body when there is one,
/// the bare status otherwise.
pub open spec fn is_token_failure(e: LichessError, status: u16, body: Option<OAuthErrorBody>) -> bool {
    match body {
        Some(b) => e matches LichessError::OAuth(o) && crate::error::names_code(o.code, b.error@)
            && o.description == b.error_description,
        None => e matches LichessError::Api(a) && a.status == status && a.kind == crate::error::kind_for(
            status,
        ) && a.message is None && a.retry_after is None,
    }
}

/// Maps a failed token response to a typed error, preferring the OAuth shape:
/// the parsed error body when there is one, the bare status otherwise.
pub fn token_failure(status: u16, body: Option<OAuthErrorBody>) -> (r: LichessError)
    ensures
        is_token_failure(r, status, body),
{
    match body {
        Some(parsed) => LichessError::OAuth(OAuthError::new(parsed.error.as_str(), parsed.error_description)),
        None => LichessError::Api(ApiError::new(status, None, None)),
    }
}

/// The outcome of a token exchange from its answer: on a `2xx` status the
/// decoded token (or the error of decoding it), otherwise the failure that
/// [`token_failure`] maps the status and the parsed error body to.
pub fn exchange_outcome(
    status: u16,
    token: Result<LichessToken, LichessError>,
    error_body: Option<OAuthErrorBody>,
) -> (r: Result<LichessToken, LichessError>)
    ensures
        200 <= status <= 299 ==> r == token,
        !(200 <= status <= 299) ==> (r matches Err(e) && is_token_failure(e, status, error_body)),
{
    if 200 <= status && status <= 299 {
        token
    } else {
        Err(token_failure(status, error_body))
    }
}

impl<'a> OauthApi<'a> {
    /// Binds the accessor to a client.
    pub fn new(client: &'a LichessClient) -> (r: OauthApi<'a>)
        ensures
            r.client() == client,
    {
        OauthApi { client }
    }

    /// The client the accessor is bound to.
    pub closed spec fn client(&self) -> &'a LichessClient {
        self.client
    }

    /// Builds the authorization URL plus the `state` and [`PkceVerifier`] to
    /// store for the code exchange.
    ///
    /// This is the user-facing `GET /oauth` endpoint: send the user's browser
    /// to the returned URL rather than requesting it from the client. The
    /// verifier and the state are fresh random values on each call.
    ///
    /// # Errors
    /// Returns [`LichessError::InvalidRequest`] if the configured base URL cannot be
    /// parsed.
    pub fn authorization_url(&self, request: &AuthorizationRequest<'_>) -> (r: Result<
        Authorization,
        LichessError,
    >)
        ensures
            match r {
                Ok(a) => {
                    &&& a.verifier@.len() == pkce::GENERATED_LEN
                    &&& pkce::is_valid_verifier(a.verifier.bytes())
                    &&& a.state@.len() == STATE_LEN
                    &&& pkce::all_alphanumeric(a.state@)
                    &&& authorize_url(
                        self.client().base_view(Host::Default),
                        *request,
                        pkce::s256_challenge(a.verifier@),
                        a.state@,
                    ) == Ok::<Seq<char>, Seq<char>>(a.url@)
                },
                Err(e) => exists|v: Seq<char>, s: Seq<char>|
                    {
                        &&& v.len() == pkce::GENERATED_LEN
                        &&& pkce::all_alphanumeric(v)
                        &&& s.len() == STATE_LEN
                        &&& pkce::all_alphanumeric(s)
                        &&& #[trigger] authorize_url(
                            self.client().base_view(Host::Default),
                            *request,
                            pkce::s256_challenge(v),
                            s,
                        ) matches Err(m)
                        &&& e matches LichessError::InvalidRequest(t)
                        &&& t@ == "invalid base URL: "@ + m
                    },
            },
    {
        let verifier = PkceVerifier::generate();
        let state = pkce::random_alphanumeric(STATE_LEN);
        let challenge = verifier.code_challenge();
        let url = self.build_authorize_url(request, challenge.as_str(), state.as_str());
        match url {
            Ok(url) => Ok(Authorization { url, state, verifier }),
            Err(e) => {
                assert(authorize_url(
                    self.client().base_view(Host::Default),
                    *request,
                    pkce::s256_challenge(verifier@),
                    state@,
                ) is Err);
                Err(e)
            },
        }
    }

    /// Assembles the `/oauth` URL with all required query parameters.
    pub fn build_authorize_url(
        &self,
        request: &AuthorizationRequest<'_>,
        challenge: &str,
        state: &str,
    ) -> (r: Result<String, LichessError>)
        ensures
            match authorize_url(self.client().base_view(Host::Default), *request, challenge@, state@) {
                Ok(u) => r matches Ok(v) && v@ == u,
                Err(e) => r matches Err(LichessError::InvalidRequest(m)) && m@ == "invalid base URL: "@
                    + e,
            },
    {
        let scope = join_scopes(request.scopes);
        let base = self.client.absolute_url(Host::Default, "/oauth");
        let mut params: Vec<(String, String)> = Vec::new();
        crate::http::push_pair(&mut params, "response_type", String::from_str("code"));
        crate::http::push_pair(&mut params, "client_id", String::from_str(request.client_id));
        crate::http::push_pair(&mut params, "redirect_uri", String::from_str(request.redirect_uri));
        crate::http::push_pair(&mut params, "code_challenge_method", String::from_str("S256"));
        crate::http::push_pair(&mut params, "code_challenge", String::from_str(challenge));
        crate::http::push_pair(&mut params, "scope", scope);
        crate::http::push_pair(&mut params, "state", String::from_str(state));
        crate::http::push_opt_str(&mut params, "username", request.username_hint);
        assert(params.deep_view() =~= authorize_params(*request, challenge@, state@));
        let parsed = parse_with_params(base.as_str(), &params);
        authorize_url_from(parsed)
    }

    /// Exchanges an authorization code for an access token.
    ///
    /// `POST /api/token`; the answer is read by [`exchange_outcome`].
    pub fn exchange_code(&self, exchange: &CodeExchange<'_>) -> (r: ApiRequest)
        ensures
            r@ == crate::http::bare(Method::Post, Host::Default, "/api/token"@).with_body(
                crate::http::BodyView::Form(token_form(*exchange)),
            ),
    {
        let mut form: Vec<(String, String)> = Vec::new();
        crate::http::push_pair(&mut form, "grant_type", String::from_str("authorization_code"));
        crate::http::push_pair(&mut form, "code", String::from_str(exchange.code));
        crate::http::push_pair(
            &mut form,
            "code_verifier",
            String::from_str(exchange.code_verifier.as_str()),
        );
        crate::http::push_pair(&mut form, "redirect_uri", String::from_str(exchange.redirect_uri));
        crate::http::push_pair(&mut form, "client_id", String::from_str(exchange.client_id));
        assert(form.deep_view() =~= token_form(*exchange));
        self.client.request(Method::Post, Host::Default, String::from_str("/api/token")).form(form)
    }

    /// Revokes the access token the client is currently using.
    ///
    /// `DELETE /api/token`
    pub fn revoke_token(&self) -> (r: ApiRequest)
        ensures
            r@ == crate::http::bare(Method::Delete, Host::Default, "/api/token"@),
    {
        self.client.request(Method::Delete, Host::Default, String::from_str("/api/token"))
    }

    /// Tests a set of personal access tokens; the answer maps each token to
    /// its info (`userId`, `scopes`, `expires`) or `null` if invalid.
    ///
    /// `POST /api/token/test`, with the tokens comma-separated in the body.
    pub fn test_tokens(&self, tokens: &[&str]) -> (r: ApiRequest)
        ensures
            r@ == crate::http::bare(Method::Post, Host::Default, "/api/token/test"@).with_body(
                crate::http::BodyView::Text(join_seqs(crate::text::str_views(tokens@), ","@)),
            ),
    {
        self.client.request(Method::Post, Host::Default, String::from_str("/api/token/test"))
            .text_body(
            join_strs(tokens, ","),
        )
    }
}

impl LichessClient {
    /// `OAuth2` API: the PKCE authorization flow and token management.
    pub fn oauth(&self) -> (r: OauthApi<'_>)
        ensures
            r.client() == self,
    {
        OauthApi::new(self)
    }
}

} // verus!
