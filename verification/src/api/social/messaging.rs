//! The Messaging API: send private messages to other players.
//!
//! Reached through [`LichessClient::messaging`].

use vstd::prelude::*;

use crate::client::LichessClient;
use crate::config::Host;
use crate::http::{ApiRequest, Method};

verus! {

/// Accessor for the Messaging API.
#[derive(Debug)]
pub struct MessagingApi<'a> {
    client: &'a LichessClient,
}

impl<'a> MessagingApi<'a> {
    /// The client the accessor is bound to.
    pub closed spec fn client_of(&self) -> &'a LichessClient {
        self.client
    }

    /// Binds the accessor to a client.
    pub fn new(client: &'a LichessClient) -> (r: Self)
        ensures
            r.client_of() == client,
    {
        MessagingApi { client }
    }

    /// Sends a private message to another player; the username is placed in the
    /// path as given.
    ///
    /// Requires the `msg:write` scope. `POST /inbox/{username}`
    pub fn send(&self, username: &str, text: &str) -> (r: ApiRequest)
        ensures
            r@ == crate::http::bare(Method::Post, Host::Default, "/inbox/"@ + username@ + ""@)
                .with_body(crate::http::BodyView::Form(seq![("text"@, text@)])),
    {
        let path = crate::http::path1_raw("/inbox/", username, "");
        let mut q: Vec<(String, String)> = Vec::new();
        crate::http::push_pair(&mut q, "text", String::from_str(text));
        assert(q.deep_view() =~= seq![("text"@, text@)]);
        self.client.request(Method::Post, Host::Default, path).form(q)
    }
}

impl LichessClient {
    /// Messaging API: send private messages to other players.
    pub fn messaging(&self) -> (r: MessagingApi<'_>)
        ensures
            r.client_of() == self,
    {
        MessagingApi::new(self)
    }
}

} // verus!
