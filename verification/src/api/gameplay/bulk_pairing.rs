//! The Bulk Pairing API: create and manage batches of games.
//!
//! Reached through [`LichessClient::bulk_pairing`].

use vstd::prelude::*;

use crate::client::LichessClient;
use crate::config::Host;
use crate::http::{Accept, ApiRequest, Method};
use crate::model::{GameExportOptions, LichessVariantKey};

verus! {

/// Accessor for the Bulk Pairing API.
#[derive(Debug)]
pub struct BulkPairingApi<'a> {
    client: &'a LichessClient,
}

impl<'a> BulkPairingApi<'a> {
    /// The client the accessor is bound to.
    pub closed spec fn client_of(&self) -> &'a LichessClient {
        self.client
    }

    /// Binds the accessor to a client.
    pub fn new(client: &'a LichessClient) -> (r: Self)
        ensures
            r.client_of() == client,
    {
        BulkPairingApi { client }
    }

    /// Lists the authenticated user's bulk pairings. `GET /api/bulk-pairing`
    pub fn list(&self) -> (r: ApiRequest)
        ensures
            r@ == crate::http::bare(Method::Get, Host::Default, "/api/bulk-pairing"@),
    {
        let path = String::from_str("/api/bulk-pairing");
        self.client.request(Method::Get, Host::Default, path)
    }

    /// Gets a bulk pairing by id. `GET /api/bulk-pairing/{id}`
    pub fn get(&self, id: &str) -> (r: ApiRequest)
        ensures
            r@ == crate::http::bare(
                Method::Get,
                Host::Default,
                "/api/bulk-pairing/"@ + crate::text::segment_text(id@) + ""@,
            ),
    {
        let path = crate::http::path1("/api/bulk-pairing/", id, "");
        self.client.request(Method::Get, Host::Default, path)
    }

    /// Starts building a bulk pairing from a `players` token-pair string
    /// (e.g. `"token1:token2,token3:token4"`). `POST /api/bulk-pairing`
    pub fn create(&self, players: &'a str) -> (r: BulkPairingRequest<'a>)
        ensures
            r.client_of() == self.client_of(),
            r.form_of() == BulkPairingForm::for_players(players),
    {
        BulkPairingRequest::new(self.client, players)
    }

    /// Immediately starts the clocks of a bulk pairing.
    /// `POST /api/bulk-pairing/{id}/start-clocks`
    pub fn start_clocks(&self, id: &str) -> (r: ApiRequest)
        ensures
            r@ == crate::http::bare(
                Method::Post,
                Host::Default,
                "/api/bulk-pairing/"@ + crate::text::segment_text(id@) + "/start-clocks"@,
            ),
    {
        let path = crate::http::path1("/api/bulk-pairing/", id, "/start-clocks");
        self.client.request(Method::Post, Host::Default, path)
    }

    /// Cancels (deletes) a bulk pairing that has not started.
    /// `DELETE /api/bulk-pairing/{id}`
    pub fn delete(&self, id: &str) -> (r: ApiRequest)
        ensures
            r@ == crate::http::bare(
                Method::Delete,
                Host::Default,
                "/api/bulk-pairing/"@ + crate::text::segment_text(id@) + ""@,
            ),
    {
        let path = crate::http::path1("/api/bulk-pairing/", id, "");
        self.client.request(Method::Delete, Host::Default, path)
    }

    /// Starts an export of a bulk pairing's games.
    /// `GET /api/bulk-pairing/{id}/games`
    ///
    /// Finish with [`stream`](BulkGamesRequest::stream) or
    /// [`pgn`](BulkGamesRequest::pgn).
    pub fn games(&self, id: &'a str) -> (r: BulkGamesRequest<'a>)
        ensures
            r.client_of() == self.client_of(),
            r.id_of() == id,
            r.export_of() == GameExportOptions::blank(),
    {
        BulkGamesRequest::new(self.client, id)
    }
}

/// Builder for exporting a bulk pairing's games
/// (`GET /api/bulk-pairing/{id}/games`).
#[derive(Debug)]
pub struct BulkGamesRequest<'a> {
    client: &'a LichessClient,
    id: &'a str,
    export: GameExportOptions,
}

impl<'a> BulkGamesRequest<'a> {
    /// The client the builder is bound to.
    pub closed spec fn client_of(&self) -> &'a LichessClient {
        self.client
    }

    /// The bulk pairing id.
    pub closed spec fn id_of(&self) -> &'a str {
        self.id
    }

    /// The export-format options.
    pub closed spec fn export_of(&self) -> GameExportOptions {
        self.export
    }

    /// Creates the request builder.
    pub fn new(client: &'a LichessClient, id: &'a str) -> (r: Self)
        ensures
            r.client_of() == client,
            r.id_of() == id,
            r.export_of() == GameExportOptions::blank(),
    {
        BulkGamesRequest { client, id, export: GameExportOptions::default() }
    }

    /// Sets the shared export-format options (moves, clocks, evals, …).
    pub fn export(self, options: GameExportOptions) -> (r: Self)
        ensures
            r.export_of() == options,
            r.client_of() == self.client_of(),
            r.id_of() == self.id_of(),
    {
        let mut r = self;
        r.export = options;
        r
    }

    /// Executes the export, streaming games as NDJSON.
    pub fn stream(self) -> (r: ApiRequest)
        ensures
            r@ == crate::http::bare(
                Method::Get,
                Host::Default,
                "/api/bulk-pairing/"@ + crate::text::segment_text(self.id_of()@) + "/games"@,
            )
                .with_accept(Accept::Ndjson)
                .with_query(self.export_of().pairs_view()),
    {
        let path = crate::http::path1("/api/bulk-pairing/", self.id, "/games");
        self.client.request(Method::Get, Host::Default, path)
            .accept(Accept::Ndjson)
            .query(self.export.pairs())
    }

    /// Executes the export, returning all games as one PGN string.
    pub fn pgn(self) -> (r: ApiRequest)
        ensures
            r@ == crate::http::bare(
                Method::Get,
                Host::Default,
                "/api/bulk-pairing/"@ + crate::text::segment_text(self.id_of()@) + "/games"@,
            )
                .with_accept(Accept::Pgn)
                .with_query(self.export_of().pairs_view()),
    {
        let path = crate::http::path1("/api/bulk-pairing/", self.id, "/games");
        self.client.request(Method::Get, Host::Default, path)
            .accept(Accept::Pgn)
            .query(self.export.pairs())
    }
}

/// Form body for creating a bulk pairing.
#[derive(Debug, Clone)]
pub struct BulkPairingForm<'a> {
    /// The token pairs.
    pub players: &'a str,
    /// Initial clock time in seconds.
    pub clock_limit: Option<u32>,
    /// Clock increment in seconds.
    pub clock_increment: Option<u32>,
    /// When the games are created (Unix milliseconds).
    pub pair_at: Option<i64>,
    /// When the clocks start (Unix milliseconds).
    pub start_clocks_at: Option<i64>,
    /// Whether the games are rated.
    pub rated: Option<bool>,
    /// The variant.
    pub variant: Option<LichessVariantKey>,
}

/// The pairs of [`BulkPairingForm`] carry its field under `players`.
proof fn lemma_bulk_pairing_form_players(q: BulkPairingForm)
    ensures
        crate::text::carries(q.pairs_view(), "players"@, Some(q.players@)),
{
    reveal_strlit("clock.increment");
    reveal_strlit("clock.limit");
    reveal_strlit("pairAt");
    reveal_strlit("players");
    reveal_strlit("rated");
    reveal_strlit("startClocksAt");
    reveal_strlit("variant");
    assert("players"@.len() != "clock.increment"@.len());
    assert("players"@.len() != "clock.limit"@.len());
    assert("players"@.len() != "pairAt"@.len());
    assert("players"@.len() != "rated"@.len());
    assert("players"@.len() != "startClocksAt"@.len());
    assert("players"@[0] != "variant"@[0]);
    let p0 = seq![("players"@, q.players@)];
    let p1 = crate::http::nat_pair("clock.limit"@, crate::http::opt_u32(q.clock_limit));
    let p2 = crate::http::nat_pair("clock.increment"@, crate::http::opt_u32(q.clock_increment));
    let p3 = crate::http::int_pair("pairAt"@, crate::http::opt_i64(q.pair_at));
    let p4 = crate::http::int_pair("startClocksAt"@, crate::http::opt_i64(q.start_clocks_at));
    let p5 = crate::http::bool_pair("rated"@, q.rated);
    let p6 = crate::http::opt_pair("variant"@, LichessVariantKey::opt_wire(q.variant));
    let s0 = p0;
    let s1 = s0 + p1;
    let s2 = s1 + p2;
    let s3 = s2 + p3;
    let s4 = s3 + p4;
    let s5 = s4 + p5;
    let s6 = s5 + p6;
    assert(q.pairs_view() == s6);
    let v = Some(q.players@);
    assert(p0 == crate::text::one_pair("players"@, v));
    crate::text::lemma_one_pair_carries("players"@, v);
    crate::text::lemma_extend(s0, p1, "players"@, v, false);
    crate::text::lemma_extend(s1, p2, "players"@, v, false);
    crate::text::lemma_extend(s2, p3, "players"@, v, false);
    crate::text::lemma_extend(s3, p4, "players"@, v, false);
    crate::text::lemma_extend(s4, p5, "players"@, v, false);
    crate::text::lemma_extend(s5, p6, "players"@, v, false);
}

/// The pairs of [`BulkPairingForm`] carry its field under `clock.limit`.
proof fn lemma_bulk_pairing_form_clock_limit(q: BulkPairingForm)
    ensures
        crate::text::carries(q.pairs_view(), "clock.limit"@, match q.clock_limit { Some(x) => Some(crate::text::dec_nat(x as nat)), None => None }),
{
    reveal_strlit("clock.increment");
    reveal_strlit("clock.limit");
    reveal_strlit("pairAt");
    reveal_strlit("players");
    reveal_strlit("rated");
    reveal_strlit("startClocksAt");
    reveal_strlit("variant");
    assert("clock.limit"@.len() != "clock.increment"@.len());
    assert("clock.limit"@.len() != "pairAt"@.len());
    assert("clock.limit"@.len() != "players"@.len());
    assert("clock.limit"@.len() != "rated"@.len());
    assert("clock.limit"@.len() != "startClocksAt"@.len());
    assert("clock.limit"@.len() != "variant"@.len());
    let p0 = seq![("players"@, q.players@)];
    let p1 = crate::http::nat_pair("clock.limit"@, crate::http::opt_u32(q.clock_limit));
    let p2 = crate::http::nat_pair("clock.increment"@, crate::http::opt_u32(q.clock_increment));
    let p3 = crate::http::int_pair("pairAt"@, crate::http::opt_i64(q.pair_at));
    let p4 = crate::http::int_pair("startClocksAt"@, crate::http::opt_i64(q.start_clocks_at));
    let p5 = crate::http::bool_pair("rated"@, q.rated);
    let p6 = crate::http::opt_pair("variant"@, LichessVariantKey::opt_wire(q.variant));
    let s0 = p0;
    let s1 = s0 + p1;
    let s2 = s1 + p2;
    let s3 = s2 + p3;
    let s4 = s3 + p4;
    let s5 = s4 + p5;
    let s6 = s5 + p6;
    assert(q.pairs_view() == s6);
    let v = match q.clock_limit { Some(x) => Some(crate::text::dec_nat(x as nat)), None => None };
    crate::text::lemma_extend(s0, p1, "clock.limit"@, v, true);
    crate::text::lemma_extend(s1, p2, "clock.limit"@, v, false);
    crate::text::lemma_extend(s2, p3, "clock.limit"@, v, false);
    crate::text::lemma_extend(s3, p4, "clock.limit"@, v, false);
    crate::text::lemma_extend(s4, p5, "clock.limit"@, v, false);
    crate::text::lemma_extend(s5, p6, "clock.limit"@, v, false);
}

/// The pairs of [`BulkPairingForm`] carry its field under `clock.increment`.
proof fn lemma_bulk_pairing_form_clock_increment(q: BulkPairingForm)
    ensures
        crate::text::carries(q.pairs_view(), "clock.increment"@, match q.clock_increment { Some(x) => Some(crate::text::dec_nat(x as nat)), None => None }),
{
    reveal_strlit("clock.increment");
    reveal_strlit("clock.limit");
    reveal_strlit("pairAt");
    reveal_strlit("players");
    reveal_strlit("rated");
    reveal_strlit("startClocksAt");
    reveal_strlit("variant");
    assert("clock.increment"@.len() != "clock.limit"@.len());
    assert("clock.increment"@.len() != "pairAt"@.len());
    assert("clock.increment"@.len() != "players"@.len());
    assert("clock.increment"@.len() != "rated"@.len());
    assert("clock.increment"@.len() != "startClocksAt"@.len());
    assert("clock.increment"@.len() != "variant"@.len());
    let p0 = seq![("players"@, q.players@)];
    let p1 = crate::http::nat_pair("clock.limit"@, crate::http::opt_u32(q.clock_limit));
    let p2 = crate::http::nat_pair("clock.increment"@, crate::http::opt_u32(q.clock_increment));
    let p3 = crate::http::int_pair("pairAt"@, crate::http::opt_i64(q.pair_at));
    let p4 = crate::http::int_pair("startClocksAt"@, crate::http::opt_i64(q.start_clocks_at));
    let p5 = crate::http::bool_pair("rated"@, q.rated);
    let p6 = crate::http::opt_pair("variant"@, LichessVariantKey::opt_wire(q.variant));
    let s0 = p0;
    let s1 = s0 + p1;
    let s2 = s1 + p2;
    let s3 = s2 + p3;
    let s4 = s3 + p4;
    let s5 = s4 + p5;
    let s6 = s5 + p6;
    assert(q.pairs_view() == s6);
    let v = match q.clock_increment { Some(x) => Some(crate::text::dec_nat(x as nat)), None => None };
    crate::text::lemma_extend(s0, p1, "clock.increment"@, None, false);
    crate::text::lemma_extend(s1, p2, "clock.increment"@, v, true);
    crate::text::lemma_extend(s2, p3, "clock.increment"@, v, false);
    crate::text::lemma_extend(s3, p4, "clock.increment"@, v, false);
    crate::text::lemma_extend(s4, p5, "clock.increment"@, v, false);
    crate::text::lemma_extend(s5, p6, "clock.increment"@, v, false);
}

/// The pairs of [`BulkPairingForm`] carry its field under `pairAt`.
proof fn lemma_bulk_pairing_form_pair_at(q: BulkPairingForm)
    ensures
        crate::text::carries(q.pairs_view(), "pairAt"@, match q.pair_at { Some(x) => Some(crate::text::dec_int(x as int)), None => None }),
{
    reveal_strlit("clock.increment");
    reveal_strlit("clock.limit");
    reveal_strlit("pairAt");
    reveal_strlit("players");
    reveal_strlit("rated");
    reveal_strlit("startClocksAt");
    reveal_strlit("variant");
    assert("pairAt"@.len() != "clock.increment"@.len());
    assert("pairAt"@.len() != "clock.limit"@.len());
    assert("pairAt"@.len() != "players"@.len());
    assert("pairAt"@.len() != "rated"@.len());
    assert("pairAt"@.len() != "startClocksAt"@.len());
    assert("pairAt"@.len() != "variant"@.len());
    let p0 = seq![("players"@, q.players@)];
    let p1 = crate::http::nat_pair("clock.limit"@, crate::http::opt_u32(q.clock_limit));
    let p2 = crate::http::nat_pair("clock.increment"@, crate::http::opt_u32(q.clock_increment));
    let p3 = crate::http::int_pair("pairAt"@, crate::http::opt_i64(q.pair_at));
    let p4 = crate::http::int_pair("startClocksAt"@, crate::http::opt_i64(q.start_clocks_at));
    let p5 = crate::http::bool_pair("rated"@, q.rated);
    let p6 = crate::http::opt_pair("variant"@, LichessVariantKey::opt_wire(q.variant));
    let s0 = p0;
    let s1 = s0 + p1;
    let s2 = s1 + p2;
    let s3 = s2 + p3;
    let s4 = s3 + p4;
    let s5 = s4 + p5;
    let s6 = s5 + p6;
    assert(q.pairs_view() == s6);
    let v = match q.pair_at { Some(x) => Some(crate::text::dec_int(x as int)), None => None };
    crate::text::lemma_extend(s0, p1, "pairAt"@, None, false);
    crate::text::lemma_extend(s1, p2, "pairAt"@, None, false);
    crate::text::lemma_extend(s2, p3, "pairAt"@, v, true);
    crate::text::lemma_extend(s3, p4, "pairAt"@, v, false);
    crate::text::lemma_extend(s4, p5, "pairAt"@, v, false);
    crate::text::lemma_extend(s5, p6, "pairAt"@, v, false);
}

/// The pairs of [`BulkPairingForm`] carry its field under `startClocksAt`.
proof fn lemma_bulk_pairing_form_start_clocks_at(q: BulkPairingForm)
    ensures
        crate::text::carries(q.pairs_view(), "startClocksAt"@, match q.start_clocks_at { Some(x) => Some(crate::text::dec_int(x as int)), None => None }),
{
    reveal_strlit("clock.increment");
    reveal_strlit("clock.limit");
    reveal_strlit("pairAt");
    reveal_strlit("players");
    reveal_strlit("rated");
    reveal_strlit("startClocksAt");
    reveal_strlit("variant");
    assert("startClocksAt"@.len() != "clock.increment"@.len());
    assert("startClocksAt"@.len() != "clock.limit"@.len());
    assert("startClocksAt"@.len() != "pairAt"@.len());
    assert("startClocksAt"@.len() != "players"@.len());
    assert("startClocksAt"@.len() != "rated"@.len());
    assert("startClocksAt"@.len() != "variant"@.len());
    let p0 = seq![("players"@, q.players@)];
    let p1 = crate::http::nat_pair("clock.limit"@, crate::http::opt_u32(q.clock_limit));
    let p2 = crate::http::nat_pair("clock.increment"@, crate::http::opt_u32(q.clock_increment));
    let p3 = crate::http::int_pair("pairAt"@, crate::http::opt_i64(q.pair_at));
    let p4 = crate::http::int_pair("startClocksAt"@, crate::http::opt_i64(q.start_clocks_at));
    let p5 = crate::http::bool_pair("rated"@, q.rated);
    let p6 = crate::http::opt_pair("variant"@, LichessVariantKey::opt_wire(q.variant));
    let s0 = p0;
    let s1 = s0 + p1;
    let s2 = s1 + p2;
    let s3 = s2 + p3;
    let s4 = s3 + p4;
    let s5 = s4 + p5;
    let s6 = s5 + p6;
    assert(q.pairs_view() == s6);
    let v = match q.start_clocks_at { Some(x) => Some(crate::text::dec_int(x as int)), None => None };
    crate::text::lemma_extend(s0, p1, "startClocksAt"@, None, false);
    crate::text::lemma_extend(s1, p2, "startClocksAt"@, None, false);
    crate::text::lemma_extend(s2, p3, "startClocksAt"@, None, false);
    crate::text::lemma_extend(s3, p4, "startClocksAt"@, v, true);
    crate::text::lemma_extend(s4, p5, "startClocksAt"@, v, false);
    crate::text::lemma_extend(s5, p6, "startClocksAt"@, v, false);
}

/// The pairs of [`BulkPairingForm`] carry its field under `rated`.
proof fn lemma_bulk_pairing_form_rated(q: BulkPairingForm)
    ensures
        crate::text::carries(q.pairs_view(), "rated"@, match q.rated { Some(b) => Some(if b { seq!['t', 'r', 'u', 'e'] } else { seq!['f', 'a', 'l', 's', 'e'] }), None => None }),
{
    reveal_strlit("clock.increment");
    reveal_strlit("clock.limit");
    reveal_strlit("pairAt");
    reveal_strlit("players");
    reveal_strlit("rated");
    reveal_strlit("startClocksAt");
    reveal_strlit("variant");
    assert("rated"@.len() != "clock.increment"@.len());
    assert("rated"@.len() != "clock.limit"@.len());
    assert("rated"@.len() != "pairAt"@.len());
    assert("rated"@.len() != "players"@.len());
    assert("rated"@.len() != "startClocksAt"@.len());
    assert("rated"@.len() != "variant"@.len());
    let p0 = seq![("players"@, q.players@)];
    let p1 = crate::http::nat_pair("clock.limit"@, crate::http::opt_u32(q.clock_limit));
    let p2 = crate::http::nat_pair("clock.increment"@, crate::http::opt_u32(q.clock_increment));
    let p3 = crate::http::int_pair("pairAt"@, crate::http::opt_i64(q.pair_at));
    let p4 = crate::http::int_pair("startClocksAt"@, crate::http::opt_i64(q.start_clocks_at));
    let p5 = crate::http::bool_pair("rated"@, q.rated);
    let p6 = crate::http::opt_pair("variant"@, LichessVariantKey::opt_wire(q.variant));
    let s0 = p0;
    let s1 = s0 + p1;
    let s2 = s1 + p2;
    let s3 = s2 + p3;
    let s4 = s3 + p4;
    let s5 = s4 + p5;
    let s6 = s5 + p6;
    assert(q.pairs_view() == s6);
    let v = match q.rated { Some(b) => Some(if b { seq!['t', 'r', 'u', 'e'] } else { seq!['f', 'a', 'l', 's', 'e'] }), None => None };
    crate::text::lemma_extend(s0, p1, "rated"@, None, false);
    crate::text::lemma_extend(s1, p2, "rated"@, None, false);
    crate::text::lemma_extend(s2, p3, "rated"@, None, false);
    crate::text::lemma_extend(s3, p4, "rated"@, None, false);
    crate::text::lemma_extend(s4, p5, "rated"@, v, true);
    crate::text::lemma_extend(s5, p6, "rated"@, v, false);
}

/// The pairs of [`BulkPairingForm`] carry its field under `variant`.
proof fn lemma_bulk_pairing_form_variant(q: BulkPairingForm)
    ensures
        crate::text::carries(q.pairs_view(), "variant"@, LichessVariantKey::opt_wire(q.variant)),
{
    reveal_strlit("clock.increment");
    reveal_strlit("clock.limit");
    reveal_strlit("pairAt");
    reveal_strlit("players");
    reveal_strlit("rated");
    reveal_strlit("startClocksAt");
    reveal_strlit("variant");
    assert("variant"@.len() != "clock.increment"@.len());
    assert("variant"@.len() != "clock.limit"@.len());
    assert("variant"@.len() != "pairAt"@.len());
    assert("variant"@[0] != "players"@[0]);
    assert("variant"@.len() != "rated"@.len());
    assert("variant"@.len() != "startClocksAt"@.len());
    let p0 = seq![("players"@, q.players@)];
    let p1 = crate::http::nat_pair("clock.limit"@, crate::http::opt_u32(q.clock_limit));
    let p2 = crate::http::nat_pair("clock.increment"@, crate::http::opt_u32(q.clock_increment));
    let p3 = crate::http::int_pair("pairAt"@, crate::http::opt_i64(q.pair_at));
    let p4 = crate::http::int_pair("startClocksAt"@, crate::http::opt_i64(q.start_clocks_at));
    let p5 = crate::http::bool_pair("rated"@, q.rated);
    let p6 = crate::http::opt_pair("variant"@, LichessVariantKey::opt_wire(q.variant));
    let s0 = p0;
    let s1 = s0 + p1;
    let s2 = s1 + p2;
    let s3 = s2 + p3;
    let s4 = s3 + p4;
    let s5 = s4 + p5;
    let s6 = s5 + p6;
    assert(q.pairs_view() == s6);
    let v = LichessVariantKey::opt_wire(q.variant);
    crate::text::lemma_extend(s0, p1, "variant"@, None, false);
    crate::text::lemma_extend(s1, p2, "variant"@, None, false);
    crate::text::lemma_extend(s2, p3, "variant"@, None, false);
    crate::text::lemma_extend(s3, p4, "variant"@, None, false);
    crate::text::lemma_extend(s4, p5, "variant"@, None, false);
    crate::text::lemma_extend(s5, p6, "variant"@, v, true);
}

/// The pairs of [`BulkPairingForm`] carry each of its fields under that field's own
/// key (`players`, `clock.limit`, `clock.increment`, `pairAt`, `startClocksAt`, `rated`, `variant`), with the value given to it, and a key only when its field is set.
pub proof fn lemma_bulk_pairing_form_carries_fields(q: BulkPairingForm)
    ensures
        crate::text::carries(q.pairs_view(), "players"@, Some(q.players@)),
        crate::text::carries(q.pairs_view(), "clock.limit"@, match q.clock_limit { Some(x) => Some(crate::text::dec_nat(x as nat)), None => None }),
        crate::text::carries(q.pairs_view(), "clock.increment"@, match q.clock_increment { Some(x) => Some(crate::text::dec_nat(x as nat)), None => None }),
        crate::text::carries(q.pairs_view(), "pairAt"@, match q.pair_at { Some(x) => Some(crate::text::dec_int(x as int)), None => None }),
        crate::text::carries(q.pairs_view(), "startClocksAt"@, match q.start_clocks_at { Some(x) => Some(crate::text::dec_int(x as int)), None => None }),
        crate::text::carries(q.pairs_view(), "rated"@, match q.rated { Some(b) => Some(if b { seq!['t', 'r', 'u', 'e'] } else { seq!['f', 'a', 'l', 's', 'e'] }), None => None }),
        crate::text::carries(q.pairs_view(), "variant"@, LichessVariantKey::opt_wire(q.variant)),
{
    lemma_bulk_pairing_form_players(q);
    lemma_bulk_pairing_form_clock_limit(q);
    lemma_bulk_pairing_form_clock_increment(q);
    lemma_bulk_pairing_form_pair_at(q);
    lemma_bulk_pairing_form_start_clocks_at(q);
    lemma_bulk_pairing_form_rated(q);
    lemma_bulk_pairing_form_variant(q);
}

impl<'a> BulkPairingForm<'a> {
    /// The form for `players` with every option unset.
    pub open spec fn for_players(players: &'a str) -> Self {
        BulkPairingForm {
            players,
            clock_limit: None,
            clock_increment: None,
            pair_at: None,
            start_clocks_at: None,
            rated: None,
            variant: None,
        }
    }

    /// The query pairs, in order.
    pub open spec fn pairs_view(self) -> crate::text::Pairs {
        seq![("players"@, self.players@)]
            + crate::http::nat_pair("clock.limit"@, crate::http::opt_u32(self.clock_limit))
            + crate::http::nat_pair("clock.increment"@, crate::http::opt_u32(self.clock_increment))
            + crate::http::int_pair("pairAt"@, crate::http::opt_i64(self.pair_at))
            + crate::http::int_pair("startClocksAt"@, crate::http::opt_i64(self.start_clocks_at))
            + crate::http::bool_pair("rated"@, self.rated)
            + crate::http::opt_pair("variant"@, LichessVariantKey::opt_wire(self.variant))
    }

    /// The query pairs.
    #[verifier::rlimit(40)]
    pub fn pairs(&self) -> (r: Vec<(String, String)>)
        ensures
            r.deep_view() == self.pairs_view(),
    {
        let mut out: Vec<(String, String)> = Vec::new();
        crate::http::push_pair(&mut out, "players", String::from_str(self.players));
        crate::http::push_opt_u32(&mut out, "clock.limit", self.clock_limit);
        crate::http::push_opt_u32(&mut out, "clock.increment", self.clock_increment);
        crate::http::push_opt_i64(&mut out, "pairAt", self.pair_at);
        crate::http::push_opt_i64(&mut out, "startClocksAt", self.start_clocks_at);
        crate::http::push_opt_bool(&mut out, "rated", self.rated);
        match self.variant {
            Some(x) => crate::http::push_pair(&mut out, "variant", String::from_str(x.as_str())),
            None => {},
        }
        assert(out.deep_view() =~= self.pairs_view());
        out
    }
}

/// Builder for creating a bulk pairing.
#[derive(Debug)]
pub struct BulkPairingRequest<'a> {
    client: &'a LichessClient,
    form: BulkPairingForm<'a>,
}

impl<'a> BulkPairingRequest<'a> {
    /// The client the builder is bound to.
    pub closed spec fn client_of(&self) -> &'a LichessClient {
        self.client
    }

    /// The form built so far.
    pub closed spec fn form_of(&self) -> BulkPairingForm<'a> {
        self.form
    }

    /// Creates the request builder.
    pub fn new(client: &'a LichessClient, players: &'a str) -> (r: Self)
        ensures
            r.client_of() == client,
            r.form_of() == BulkPairingForm::for_players(players),
    {
        BulkPairingRequest {
            client,
            form: BulkPairingForm {
                players,
                clock_limit: None,
                clock_increment: None,
                pair_at: None,
                start_clocks_at: None,
                rated: None,
                variant: None,
            },
        }
    }

    /// Sets the clock (initial seconds + increment seconds).
    pub fn clock(self, limit_secs: u32, increment_secs: u32) -> (r: Self)
        ensures
            r.form_of() == (BulkPairingForm {
                clock_limit: Some(limit_secs),
                clock_increment: Some(increment_secs),
                ..self.form_of()
            }),
            r.client_of() == self.client_of(),
    {
        let mut r = self;
        r.form.clock_limit = Some(limit_secs);
        r.form.clock_increment = Some(increment_secs);
        r
    }

    /// Sets whether the games are rated.
    pub fn rated(self, rated: bool) -> (r: Self)
        ensures
            r.form_of() == (BulkPairingForm { rated: Some(rated), ..self.form_of() }),
            r.client_of() == self.client_of(),
    {
        let mut r = self;
        r.form.rated = Some(rated);
        r
    }

    /// Sets when the games are created (Unix milliseconds).
    pub fn pair_at(self, timestamp: i64) -> (r: Self)
        ensures
            r.form_of() == (BulkPairingForm { pair_at: Some(timestamp), ..self.form_of() }),
            r.client_of() == self.client_of(),
    {
        let mut r = self;
        r.form.pair_at = Some(timestamp);
        r
    }

    /// Sets when the clocks start (Unix milliseconds).
    pub fn start_clocks_at(self, timestamp: i64) -> (r: Self)
        ensures
            r.form_of() == (BulkPairingForm { start_clocks_at: Some(timestamp), ..self.form_of() }),
            r.client_of() == self.client_of(),
    {
        let mut r = self;
        r.form.start_clocks_at = Some(timestamp);
        r
    }

    /// Sets the variant.
    pub fn variant(self, variant: LichessVariantKey) -> (r: Self)
        ensures
            r.form_of() == (BulkPairingForm { variant: Some(variant), ..self.form_of() }),
            r.client_of() == self.client_of(),
    {
        let mut r = self;
        r.form.variant = Some(variant);
        r
    }

    /// Creates the bulk pairing.
    pub fn send(self) -> (r: ApiRequest)
        ensures
            r@ == crate::http::bare(Method::Post, Host::Default, "/api/bulk-pairing"@)
                .with_body(crate::http::BodyView::Form(self.form_of().pairs_view())),
    {
        let path = String::from_str("/api/bulk-pairing");
        self.client.request(Method::Post, Host::Default, path).form(self.form.pairs())
    }
}

impl LichessClient {
    /// Bulk Pairing API: create and manage batches of games.
    pub fn bulk_pairing(&self) -> (r: BulkPairingApi<'_>)
        ensures
            r.client_of() == self,
    {
        BulkPairingApi::new(self)
    }
}

} // verus!
