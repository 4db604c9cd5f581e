//! The Tablebase API: endgame tablebase lookups.
//!
//! Served from `tablebase.lichess.org`. Reached through
//! [`LichessClient::tablebase`].

use vstd::prelude::*;

use crate::client::LichessClient;
use crate::config::Host;
use crate::http::{ApiRequest, Method};

verus! {

/// Accessor for the Tablebase API.
#[derive(Debug)]
pub struct TablebaseApi<'a> {
    client: &'a LichessClient,
}

/// A tablebase lookup is a `GET` of its path on the tablebase host with the
/// position as its one query pair, under `fen`.
pub proof fn lemma_tablebase_lookup(path: Seq<char>, fen: &str)
    ensures
        TablebaseApi::lookup_view(path, fen).method == Method::Get,
        TablebaseApi::lookup_view(path, fen).host == Host::Tablebase,
        TablebaseApi::lookup_view(path, fen).path == path,
        TablebaseApi::lookup_view(path, fen).query == seq![(seq!['f', 'e', 'n'], fen@)],
        TablebaseApi::lookup_view(path, fen).body is Empty,
{
    assert("fen"@ =~= seq!['f', 'e', 'n']) by {
        reveal_strlit("fen");
    }
    assert(TablebaseApi::lookup_view(path, fen).query =~= seq![(seq!['f', 'e', 'n'], fen@)]);
}

impl<'a> TablebaseApi<'a> {
    /// The client the accessor is bound to.
    pub closed spec fn client_of(&self) -> &'a LichessClient {
        self.client
    }

    /// Binds the accessor to a client.
    pub fn new(client: &'a LichessClient) -> (r: Self)
        ensures
            r.client_of() == client,
    {
        TablebaseApi { client }
    }

    /// Looks up a standard-chess position. `GET /standard`
    pub fn standard(&self, fen: &str) -> (r: ApiRequest)
        ensures
            r@ == Self::lookup_view("/standard"@, fen),
    {
        self.lookup("/standard", fen)
    }

    /// Looks up an atomic-chess position. `GET /atomic`
    pub fn atomic(&self, fen: &str) -> (r: ApiRequest)
        ensures
            r@ == Self::lookup_view("/atomic"@, fen),
    {
        self.lookup("/atomic", fen)
    }

    /// Looks up an antichess position. `GET /antichess`
    pub fn antichess(&self, fen: &str) -> (r: ApiRequest)
        ensures
            r@ == Self::lookup_view("/antichess"@, fen),
    {
        self.lookup("/antichess", fen)
    }

    /// The request of a tablebase lookup.
    pub open spec fn lookup_view(path: Seq<char>, fen: &str) -> crate::http::ApiRequestView {
        crate::http::bare(Method::Get, Host::Tablebase, path).with_query(seq![("fen"@, fen@)])
    }

    /// Issues a tablebase lookup against the tablebase host.
    pub fn lookup(&self, path: &str, fen: &str) -> (r: ApiRequest)
        ensures
            r@ == Self::lookup_view(path@, fen),
    {
        let mut q: Vec<(String, String)> = Vec::new();
        crate::http::push_pair(&mut q, "fen", String::from_str(fen));
        assert(q.deep_view() =~= seq![("fen"@, fen@)]);
        self.client.request(Method::Get, Host::Tablebase, String::from_str(path)).query(q)
    }
}

impl LichessClient {
    /// Tablebase API: endgame tablebase lookups (`tablebase.lichess.org`).
    pub fn tablebase(&self) -> (r: TablebaseApi<'_>)
        ensures
            r.client_of() == self,
    {
        TablebaseApi::new(self)
    }
}

} // verus!
