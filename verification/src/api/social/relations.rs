//! The Relations API: follow, unfollow, block, and unblock players.
//!
//! Reached through [`LichessClient::relations`].

use vstd::prelude::*;

use crate::client::LichessClient;
use crate::config::Host;
use crate::http::{ApiRequest, Method};

verus! {

/// Accessor for the Relations API.
#[derive(Debug)]
pub struct RelationsApi<'a> {
    client: &'a LichessClient,
}

/// A relation change is a `POST` to `/api/rel/{action}/{username}` on the main
/// host, both segments encoded, with no query and no body.
pub proof fn lemma_relation_path(action: &str, username: &str)
    ensures
        RelationsApi::relation_view(action, username).method == Method::Post,
        RelationsApi::relation_view(action, username).host == Host::Default,
        RelationsApi::relation_view(action, username).path == seq!['/', 'a', 'p', 'i', '/', 'r', 'e', 'l', '/'] + crate::text::segment_text(action@) + seq!['/']
            + crate::text::segment_text(username@),
        RelationsApi::relation_view(action, username).query.len() == 0,
        RelationsApi::relation_view(action, username).body is Empty,
{
    assert("/api/rel/"@ =~= seq!['/', 'a', 'p', 'i', '/', 'r', 'e', 'l', '/']) by {
        reveal_strlit("/api/rel/");
    }
    assert("/"@ =~= seq!['/']) by {
        reveal_strlit("/");
    }
    assert(""@ =~= seq![]) by {
        reveal_strlit("");
    }
    assert(RelationsApi::relation_view(action, username).path =~= seq!['/', 'a', 'p', 'i', '/', 'r', 'e', 'l', '/'] + crate::text::segment_text(action@) + seq!['/']
        + crate::text::segment_text(username@));
}

impl<'a> RelationsApi<'a> {
    /// The client the accessor is bound to.
    pub closed spec fn client_of(&self) -> &'a LichessClient {
        self.client
    }

    /// Binds the accessor to a client.
    pub fn new(client: &'a LichessClient) -> (r: Self)
        ensures
            r.client_of() == client,
    {
        RelationsApi { client }
    }

    /// Streams the users followed by the authenticated user.
    ///
    /// Requires the `follow:read` scope. `GET /api/rel/following`
    pub fn following(&self) -> (r: ApiRequest)
        ensures
            r@ == crate::http::bare(Method::Get, Host::Default, "/api/rel/following"@),
    {
        let path = String::from_str("/api/rel/following");
        self.client.request(Method::Get, Host::Default, path)
    }

    /// Follows a player. `POST /api/rel/follow/{username}`
    pub fn follow(&self, username: &str) -> (r: ApiRequest)
        ensures
            r@ == Self::relation_view("follow", username),
    {
        self.post_relation("follow", username)
    }

    /// Unfollows a player. `POST /api/rel/unfollow/{username}`
    pub fn unfollow(&self, username: &str) -> (r: ApiRequest)
        ensures
            r@ == Self::relation_view("unfollow", username),
    {
        self.post_relation("unfollow", username)
    }

    /// Blocks a player. `POST /api/rel/block/{username}`
    pub fn block(&self, username: &str) -> (r: ApiRequest)
        ensures
            r@ == Self::relation_view("block", username),
    {
        self.post_relation("block", username)
    }

    /// Unblocks a player. `POST /api/rel/unblock/{username}`
    pub fn unblock(&self, username: &str) -> (r: ApiRequest)
        ensures
            r@ == Self::relation_view("unblock", username),
    {
        self.post_relation("unblock", username)
    }

    /// The request of a relation change.
    pub open spec fn relation_view(action: &str, username: &str) -> crate::http::ApiRequestView {
        crate::http::bare(
            Method::Post,
            Host::Default,
            "/api/rel/"@
                + crate::text::segment_text(action@)
                + "/"@
                + crate::text::segment_text(username@)
                + ""@,
        )
    }

    /// Issues a `POST /api/rel/{action}/{username}` relation change.
    pub fn post_relation(&self, action: &str, username: &str) -> (r: ApiRequest)
        ensures
            r@ == Self::relation_view(action, username),
    {
        let path = crate::http::path2("/api/rel/", action, "/", username, "");
        self.client.request(Method::Post, Host::Default, path)
    }
}

impl LichessClient {
    /// Relations API: following and blocking other players.
    pub fn relations(&self) -> (r: RelationsApi<'_>)
        ensures
            r.client_of() == self,
    {
        RelationsApi::new(self)
    }
}

} // verus!
