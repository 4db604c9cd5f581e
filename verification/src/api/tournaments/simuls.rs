//! The Simuls API: simultaneous exhibitions.
//!
//! Reached through [`LichessClient::simuls`].

use vstd::prelude::*;

use crate::client::LichessClient;
use crate::config::Host;
use crate::http::{ApiRequest, Method};

verus! {

/// Accessor for the Simuls API.
#[derive(Debug)]
pub struct SimulsApi<'a> {
    client: &'a LichessClient,
}

impl<'a> SimulsApi<'a> {
    /// The client the accessor is bound to.
    pub closed spec fn client_of(&self) -> &'a LichessClient {
        self.client
    }

    /// Binds the accessor to a client.
    pub fn new(client: &'a LichessClient) -> (r: Self)
        ensures
            r.client_of() == client,
    {
        SimulsApi { client }
    }

    /// Gets the current simuls, grouped by lifecycle stage.
    ///
    /// When authenticated, `pending` includes your created-but-unstarted
    /// simuls. `GET /api/simul`
    pub fn current(&self) -> (r: ApiRequest)
        ensures
            r@ == crate::http::bare(Method::Get, Host::Default, "/api/simul"@),
    {
        let path = String::from_str("/api/simul");
        self.client.request(Method::Get, Host::Default, path)
    }
}

impl LichessClient {
    /// Simuls API: simultaneous exhibitions.
    pub fn simuls(&self) -> (r: SimulsApi<'_>)
        ensures
            r.client_of() == self,
    {
        SimulsApi::new(self)
    }
}

} // verus!
