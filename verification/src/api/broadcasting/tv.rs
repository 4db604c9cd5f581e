//! The TV API: featured games and live feeds.
//!
//! Reached through [`LichessClient::tv`].

use vstd::prelude::*;

use crate::client::LichessClient;
use crate::config::Host;
use crate::http::{Accept, ApiRequest, Method};

verus! {

/// Accessor for the TV API.
#[derive(Debug)]
pub struct TvApi<'a> {
    client: &'a LichessClient,
}

impl<'a> TvApi<'a> {
    /// The client the accessor is bound to.
    pub closed spec fn client_of(&self) -> &'a LichessClient {
        self.client
    }

    /// Binds the accessor to a client.
    pub fn new(client: &'a LichessClient) -> (r: Self)
        ensures
            r.client_of() == client,
    {
        TvApi { client }
    }

    /// Gets the current best game for each channel. `GET /api/tv/channels`
    pub fn channels(&self) -> (r: ApiRequest)
        ensures
            r@ == crate::http::bare(Method::Get, Host::Default, "/api/tv/channels"@),
    {
        let path = String::from_str("/api/tv/channels");
        self.client.request(Method::Get, Host::Default, path)
    }

    /// Streams the feed of the current overall featured game.
    ///
    /// `GET /api/tv/feed`
    pub fn feed(&self) -> (r: ApiRequest)
        ensures
            r@ == crate::http::bare(Method::Get, Host::Default, "/api/tv/feed"@),
    {
        self.feed_at(String::from_str("/api/tv/feed"))
    }

    /// Streams the feed of a specific channel's featured game; the channel is
    /// placed in the path as given.
    ///
    /// `GET /api/tv/{channel}/feed`
    pub fn channel_feed(&self, channel: &str) -> (r: ApiRequest)
        ensures
            r@ == crate::http::bare(Method::Get, Host::Default, "/api/tv/"@ + channel@ + "/feed"@),
    {
        let path = crate::http::path1_raw("/api/tv/", channel, "/feed");
        self.feed_at(path)
    }

    /// Streams the best ongoing games of a channel as NDJSON; the channel is
    /// placed in the path as given.
    ///
    /// `GET /api/tv/{channel}`
    pub fn channel_games(&self, channel: &str, nb: u32) -> (r: ApiRequest)
        ensures
            r@ == crate::http::bare(Method::Get, Host::Default, "/api/tv/"@ + channel@ + ""@)
                .with_accept(Accept::Ndjson)
                .with_query(seq![("nb"@, crate::text::dec_nat(nb as nat))]),
    {
        let path = crate::http::path1_raw("/api/tv/", channel, "");
        let mut q: Vec<(String, String)> = Vec::new();
        crate::http::push_pair(&mut q, "nb", crate::text::u64_to_string(nb as u64));
        assert(q.deep_view() =~= seq![("nb"@, crate::text::dec_nat(nb as nat))]);
        self.client.request(Method::Get, Host::Default, path).accept(Accept::Ndjson).query(q)
    }

    /// Opens a TV feed stream at the given path.
    pub fn feed_at(&self, path: String) -> (r: ApiRequest)
        ensures
            r@ == crate::http::bare(Method::Get, Host::Default, path@),
    {
        self.client.request(Method::Get, Host::Default, path)
    }
}

impl LichessClient {
    /// TV API: featured games and live feeds.
    pub fn tv(&self) -> (r: TvApi<'_>)
        ensures
            r.client_of() == self,
    {
        TvApi::new(self)
    }
}

} // verus!
