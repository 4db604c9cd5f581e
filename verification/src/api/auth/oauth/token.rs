//! The access token returned by the `OAuth2` token endpoint.

use vstd::prelude::*;

use crate::secret::Secret;

verus! {

/// An `OAuth2` access token obtained via the PKCE flow.
///
/// The secret `access_token` is a [`Secret`], so it is redacted from the
/// `Debug` output. Read it with [`Secret::expose`].
#[derive(Clone, Debug)]
pub struct LichessToken {
    /// The bearer token to authenticate subsequent requests.
    pub access_token: Secret<String>,
    /// The token type; always `"Bearer"`.
    pub token_type: String,
    /// Lifetime of the token in seconds.
    pub expires_in: u64,
}

} // verus!
