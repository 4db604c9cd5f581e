//! The client: its configuration and the accessors to each concern.

use vstd::prelude::*;

use crate::config::{Host, HostUrls};
use crate::error::LichessError;
use crate::http::{ApiRequest, Method};
use crate::secret::Secret;

verus! {

/// The default cap on the length of one line of a streamed (NDJSON) answer.
pub const DEFAULT_MAX_LINE_BYTES: usize = 16777216;

/// The Lichess API client.
///
/// Holds the configuration that every request shares: the bearer token, if
/// any, the base URL of each host, and the cap on streamed lines. Each concern of the API is reached
/// through an accessor, e.g. `client.games()` or `client.broadcasts()`.
#[derive(Debug, Clone)]
pub struct LichessClient {
    token: Option<Secret<String>>,
    hosts: HostUrls,
    max_line_bytes: usize,
}

/// Builder for a [`LichessClient`].
#[derive(Debug, Clone)]
pub struct ClientBuilder {
    token: Option<Secret<String>>,
    hosts: HostUrls,
    max_line_bytes: usize,
}

impl ClientBuilder {
    /// The token that the built client will send, if any.
    pub closed spec fn token_view(&self) -> Option<Seq<char>> {
        match self.token {
            Some(t) => Some(t.inner()@),
            None => None,
        }
    }

    /// The line cap of the built client.
    pub closed spec fn max_line_bytes_view(&self) -> usize {
        self.max_line_bytes
    }

    /// The base URL that the built client will use for `host`.
    pub closed spec fn base_view(&self, host: Host) -> Seq<char> {
        self.hosts.base_of(host)
    }

    /// Authenticates every request with this bearer token.
    pub fn token(self, token: String) -> (r: ClientBuilder)
        ensures
            r.token_view() == Some(token@),
            r.max_line_bytes_view() == self.max_line_bytes_view(),
            forall|h: Host| #[trigger] r.base_view(h) == self.base_view(h),
    {
        ClientBuilder { token: Some(Secret::new(token)), ..self }
    }

    /// Caps the length of one line of a streamed answer.
    pub fn max_line_bytes(self, max: usize) -> (r: ClientBuilder)
        ensures
            r.token_view() == self.token_view(),
            r.max_line_bytes_view() == max,
            forall|h: Host| #[trigger] r.base_view(h) == self.base_view(h),
    {
        ClientBuilder { max_line_bytes: max, ..self }
    }

    /// Sends the requests for `host` to another base URL (a mirror or a test
    /// server); the other hosts keep theirs.
    pub fn base_url(self, host: Host, url: String) -> (r: ClientBuilder)
        ensures
            r.token_view() == self.token_view(),
            r.max_line_bytes_view() == self.max_line_bytes_view(),
            r.base_view(host) == url@,
            forall|h: Host| h != host ==> #[trigger] r.base_view(h) == self.base_view(h),
    {
        ClientBuilder { hosts: self.hosts.set(host, url), ..self }
    }

    /// Builds the client.
    pub fn build(self) -> (r: Result<LichessClient, LichessError>)
        ensures
            r is Ok,
            r matches Ok(c) ==> c.token_view() == self.token_view() && c.max_line_bytes_view()
                == self.max_line_bytes_view() && forall|h: Host| #[trigger] c.base_view(h)
                == self.base_view(h),
    {
        Ok(LichessClient { token: self.token, hosts: self.hosts, max_line_bytes: self.max_line_bytes })
    }
}

impl LichessClient {
    /// The token that the client sends, if any.
    pub closed spec fn token_view(&self) -> Option<Seq<char>> {
        match self.token {
            Some(t) => Some(t.inner()@),
            None => None,
        }
    }

    /// The line cap of the client.
    pub closed spec fn max_line_bytes_view(&self) -> usize {
        self.max_line_bytes
    }

    /// The base URL the client uses for `host`.
    pub closed spec fn base_view(&self, host: Host) -> Seq<char> {
        self.hosts.base_of(host)
    }

    /// An unauthenticated client with the default configuration.
    pub fn new() -> (r: LichessClient)
        ensures
            r.token_view() is None,
            r.max_line_bytes_view() == DEFAULT_MAX_LINE_BYTES,
            forall|h: Host| #[trigger] r.base_view(h) == h.default_base(),
    {
        LichessClient { token: None, hosts: HostUrls::defaults(), max_line_bytes: DEFAULT_MAX_LINE_BYTES }
    }

    /// Starts configuring a client.
    pub fn builder() -> (r: ClientBuilder)
        ensures
            r.token_view() is None,
            r.max_line_bytes_view() == DEFAULT_MAX_LINE_BYTES,
            forall|h: Host| #[trigger] r.base_view(h) == h.default_base(),
    {
        ClientBuilder { token: None, hosts: HostUrls::defaults(), max_line_bytes: DEFAULT_MAX_LINE_BYTES }
    }

    /// The bearer token, if any.
    pub fn token(&self) -> (r: Option<&Secret<String>>)
        ensures
            match r {
                Some(t) => self.token_view() == Some(t.inner()@),
                None => self.token_view() is None,
            },
    {
        match &self.token {
            Some(t) => Some(t),
            None => None,
        }
    }

    /// The cap on the length of one line of a streamed answer.
    pub fn max_line_bytes(&self) -> (r: usize)
        ensures
            r == self.max_line_bytes_view(),
    {
        self.max_line_bytes
    }

    /// The base URL the client uses for `host`.
    pub fn base_url(&self, host: Host) -> (r: &str)
        ensures
            r@ == self.base_view(host),
    {
        self.hosts.get(host)
    }

    /// The absolute URL of `path` on `host`.
    pub fn absolute_url(&self, host: Host, path: &str) -> (r: String)
        ensures
            r@ == self.base_view(host) + path@,
    {
        let mut s = String::from_str(self.hosts.get(host));
        s.append(path);
        s
    }

    /// Starts a request to `path` on `host`.
    pub fn request(&self, method: Method, host: Host, path: String) -> (r: ApiRequest)
        ensures
            r@ == crate::http::bare(method, host, path@),
    {
        ApiRequest::new(method, host, path)
    }
}

} // verus!
