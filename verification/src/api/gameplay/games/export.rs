//! Builders for the game-export endpoints (single game, a user's games,
//! by-ids, bookmarks, and the current game).

use vstd::prelude::*;

use crate::client::LichessClient;
use crate::config::Host;
use crate::http::{Accept, ApiRequest, Method};
use crate::model::GameExportOptions;
use crate::text::{join_seqs, join_strs, str_views};

verus! {

/// Sort order for a games export.
#[derive(Debug, Clone, Copy, PartialEq, Eq, Structural)]
pub enum GameSort {
    /// Oldest games first.
    DateAsc,
    /// Most recent games first (the server default).
    DateDesc,
}

/// The wire text of each [`GameSort`], as the API spells it: `DateAsc` is `dateAsc`,
/// `DateDesc` is `dateDesc`.
pub proof fn lemma_game_sort_wire_texts()
    ensures
        GameSort::DateAsc.wire() == seq!['d', 'a', 't', 'e', 'A', 's', 'c'],
        GameSort::DateDesc.wire() == seq!['d', 'a', 't', 'e', 'D', 'e', 's', 'c'],
{
    reveal_strlit("dateAsc");
    reveal_strlit("dateDesc");
    assert(GameSort::DateAsc.wire() =~= seq!['d', 'a', 't', 'e', 'A', 's', 'c']);
    assert(GameSort::DateDesc.wire() =~= seq!['d', 'a', 't', 'e', 'D', 'e', 's', 'c']);
}

impl GameSort {
    /// The wire representation of each value.
    pub open spec fn wire(self) -> Seq<char> {
        match self {
            GameSort::DateAsc => "dateAsc"@,
            GameSort::DateDesc => "dateDesc"@,
        }
    }

    /// The wire representation.
    pub fn as_str(self) -> (r: &'static str)
        ensures
            r@ == self.wire(),
    {
        match self {
            GameSort::DateAsc => "dateAsc",
            GameSort::DateDesc => "dateDesc",
        }
    }

    /// The wire representation of an optional value.
    pub open spec fn opt_wire(o: Option<GameSort>) -> Option<Seq<char>> {
        match o {
            Some(x) => Some(x.wire()),
            None => None,
        }
    }
}

/// The single-game filter that is not part of the shared export block.
#[derive(Debug, Clone)]
pub struct SingleGameFilters {
    /// Add a `bookmarked` flag.
    pub with_bookmarked: Option<bool>,
}

/// The pairs of [`SingleGameFilters`] carry its field under `withBookmarked`.
proof fn lemma_single_game_filters_with_bookmarked(q: SingleGameFilters)
    ensures
        crate::text::carries(q.pairs_view(), "withBookmarked"@, match q.with_bookmarked { Some(b) => Some(if b { seq!['t', 'r', 'u', 'e'] } else { seq!['f', 'a', 'l', 's', 'e'] }), None => None }),
{
    reveal_strlit("withBookmarked");
    let p0 = crate::http::bool_pair("withBookmarked"@, q.with_bookmarked);
    let s0 = p0;
    assert(q.pairs_view() == s0);
    let v = match q.with_bookmarked { Some(b) => Some(if b { seq!['t', 'r', 'u', 'e'] } else { seq!['f', 'a', 'l', 's', 'e'] }), None => None };
    assert(p0 == crate::text::one_pair("withBookmarked"@, v));
    crate::text::lemma_one_pair_carries("withBookmarked"@, v);
}

/// The pairs of [`SingleGameFilters`] carry each of its fields under that field's own
/// key (`withBookmarked`), with the value given to it, and a key only when its field is set.
pub proof fn lemma_single_game_filters_carries_fields(q: SingleGameFilters)
    ensures
        crate::text::carries(q.pairs_view(), "withBookmarked"@, match q.with_bookmarked { Some(b) => Some(if b { seq!['t', 'r', 'u', 'e'] } else { seq!['f', 'a', 'l', 's', 'e'] }), None => None }),
{
    lemma_single_game_filters_with_bookmarked(q);
}

impl SingleGameFilters {
    /// The query pairs, in order.
    pub open spec fn pairs_view(self) -> crate::text::Pairs {
        crate::http::bool_pair("withBookmarked"@, self.with_bookmarked)
    }

    /// The query pairs.
    pub fn pairs(&self) -> (r: Vec<(String, String)>)
        ensures
            r.deep_view() == self.pairs_view(),
    {
        let mut out: Vec<(String, String)> = Vec::new();
        crate::http::push_opt_bool(&mut out, "withBookmarked", self.with_bookmarked);
        assert(out.deep_view() =~= self.pairs_view());
        out
    }

    /// The query with every filter unset.
    pub open spec fn blank() -> Self {
        SingleGameFilters { with_bookmarked: None }
    }
}

impl Default for SingleGameFilters {
    /// Every filter unset.
    fn default() -> (r: Self)
        ensures
            r == Self::blank(),
    {
        SingleGameFilters { with_bookmarked: None }
    }
}

/// Builder for exporting a single game (`GET /game/export/{gameId}`).
#[derive(Debug)]
pub struct GameExportRequest<'a> {
    client: &'a LichessClient,
    game_id: &'a str,
    filters: SingleGameFilters,
    export: GameExportOptions,
}

impl<'a> GameExportRequest<'a> {
    /// The client the builder is bound to.
    pub closed spec fn client_of(&self) -> &'a LichessClient {
        self.client
    }

    /// The game to export.
    pub closed spec fn game_id_of(&self) -> &'a str {
        self.game_id
    }

    /// The single-game filters.
    pub closed spec fn filters_of(&self) -> SingleGameFilters {
        self.filters
    }

    /// The export-format options.
    pub closed spec fn export_of(&self) -> GameExportOptions {
        self.export
    }

    /// Creates the request builder.
    pub fn new(client: &'a LichessClient, game_id: &'a str) -> (r: Self)
        ensures
            r.client_of() == client,
            r.game_id_of() == game_id,
            r.filters_of() == SingleGameFilters::blank(),
            r.export_of() == GameExportOptions::blank(),
    {
        GameExportRequest {
            client,
            game_id,
            filters: SingleGameFilters::default(),
            export: GameExportOptions::default(),
        }
    }

    /// Sets the shared export-format options (moves, clocks, evals, …).
    pub fn export(self, options: GameExportOptions) -> (r: Self)
        ensures
            r.export_of() == options,
            r.client_of() == self.client_of(),
            r.game_id_of() == self.game_id_of(),
            r.filters_of() == self.filters_of(),
    {
        let mut r = self;
        r.export = options;
        r
    }

    /// Adds a `bookmarked` flag when the caller has bookmarked the game.
    pub fn with_bookmarked(self, value: bool) -> (r: Self)
        ensures
            r.filters_of() == (
                SingleGameFilters { with_bookmarked: Some(value), ..self.filters_of() }
            ),
            r.client_of() == self.client_of(),
            r.game_id_of() == self.game_id_of(),
            r.export_of() == self.export_of(),
    {
        let mut r = self;
        r.filters.with_bookmarked = Some(value);
        r
    }

    /// Includes the full PGN inside the JSON answer.
    pub fn pgn_in_json(self, value: bool) -> (r: Self)
        ensures
            r.export_of() == (GameExportOptions { pgn_in_json: Some(value), ..self.export_of() }),
            r.client_of() == self.client_of(),
            r.game_id_of() == self.game_id_of(),
            r.filters_of() == self.filters_of(),
    {
        let mut r = self;
        r.export.pgn_in_json = Some(value);
        r
    }

    /// Includes clock comments.
    pub fn clocks(self, value: bool) -> (r: Self)
        ensures
            r.export_of() == (GameExportOptions { clocks: Some(value), ..self.export_of() }),
            r.client_of() == self.client_of(),
            r.game_id_of() == self.game_id_of(),
            r.filters_of() == self.filters_of(),
    {
        let mut r = self;
        r.export.clocks = Some(value);
        r
    }

    /// Includes analysis evaluations.
    pub fn evals(self, value: bool) -> (r: Self)
        ensures
            r.export_of() == (GameExportOptions { evals: Some(value), ..self.export_of() }),
            r.client_of() == self.client_of(),
            r.game_id_of() == self.game_id_of(),
            r.filters_of() == self.filters_of(),
    {
        let mut r = self;
        r.export.evals = Some(value);
        r
    }

    /// Includes the opening name.
    pub fn opening(self, value: bool) -> (r: Self)
        ensures
            r.export_of() == (GameExportOptions { opening: Some(value), ..self.export_of() }),
            r.client_of() == self.client_of(),
            r.game_id_of() == self.game_id_of(),
            r.filters_of() == self.filters_of(),
    {
        let mut r = self;
        r.export.opening = Some(value);
        r
    }

    /// Includes per-player accuracy (JSON only).
    pub fn accuracy(self, value: bool) -> (r: Self)
        ensures
            r.export_of() == (GameExportOptions { accuracy: Some(value), ..self.export_of() }),
            r.client_of() == self.client_of(),
            r.game_id_of() == self.game_id_of(),
            r.filters_of() == self.filters_of(),
    {
        let mut r = self;
        r.export.accuracy = Some(value);
        r
    }

    /// Executes the export, returning the game as JSON.
    pub fn json(self) -> (r: ApiRequest)
        ensures
            r@ == crate::http::bare(
                Method::Get,
                Host::Default,
                "/game/export/"@ + crate::text::segment_text(self.game_id_of()@) + ""@,
            )
                .with_accept(Accept::Json)
                .with_query(self.filters_of().pairs_view())
                .with_query(self.export_of().pairs_view()),
    {
        let path = crate::http::path1("/game/export/", self.game_id, "");
        self.client.request(Method::Get, Host::Default, path)
            .accept(Accept::Json)
            .query(self.filters.pairs())
            .query(self.export.pairs())
    }

    /// Executes the export, returning the game as a PGN string.
    pub fn pgn(self) -> (r: ApiRequest)
        ensures
            r@ == crate::http::bare(
                Method::Get,
                Host::Default,
                "/game/export/"@ + crate::text::segment_text(self.game_id_of()@) + ""@,
            )
                .with_accept(Accept::Pgn)
                .with_query(self.filters_of().pairs_view())
                .with_query(self.export_of().pairs_view()),
    {
        let path = crate::http::path1("/game/export/", self.game_id, "");
        self.client.request(Method::Get, Host::Default, path)
            .accept(Accept::Pgn)
            .query(self.filters.pairs())
            .query(self.export.pairs())
    }
}

/// Filter parameters for exporting a user's games (the export-format flags live
/// in the shared [`GameExportOptions`]).
#[derive(Debug, Clone)]
pub struct UserGamesQuery<'a> {
    /// Limits the number of games downloaded.
    pub max: Option<u32>,
    /// Only games played since this timestamp (Unix milliseconds).
    pub since: Option<i64>,
    /// Only games played until this timestamp (Unix milliseconds).
    pub until: Option<i64>,
    /// Only games played against this opponent.
    pub vs: Option<&'a str>,
    /// Only rated (`true`) or casual (`false`) games.
    pub rated: Option<bool>,
    /// Only games in these speeds/variants (comma-separated perf types).
    pub perf_type: Option<&'a str>,
    /// Only games played as this color (`"white"` or `"black"`).
    pub color: Option<&'a str>,
    /// Only games with (`true`) or without (`false`) computer analysis.
    pub analysed: Option<bool>,
    /// Only currently-ongoing games.
    pub ongoing: Option<bool>,
    /// Include finished games (`true`); set `false` to get only ongoing games.
    pub finished: Option<bool>,
    /// Include the X-FEN of each game's last position (NDJSON only).
    pub last_fen: Option<bool>,
    /// Add a `bookmarked` flag on games the caller has bookmarked (NDJSON only).
    pub with_bookmarked: Option<bool>,
    /// Sort order (defaults to most-recent-first).
    pub sort: Option<GameSort>,
}

/// The pairs of [`UserGamesQuery`] carry its field under `max`.
proof fn lemma_user_games_query_max(q: UserGamesQuery)
    ensures
        crate::text::carries(q.pairs_view(), "max"@, match q.max { Some(x) => Some(crate::text::dec_nat(x as nat)), None => None }),
{
    reveal_strlit("analysed");
    reveal_strlit("color");
    reveal_strlit("finished");
    reveal_strlit("lastFen");
    reveal_strlit("max");
    reveal_strlit("ongoing");
    reveal_strlit("perfType");
    reveal_strlit("rated");
    reveal_strlit("since");
    reveal_strlit("sort");
    reveal_strlit("until");
    reveal_strlit("vs");
    reveal_strlit("withBookmarked");
    assert("max"@.len() != "analysed"@.len());
    assert("max"@.len() != "color"@.len());
    assert("max"@.len() != "finished"@.len());
    assert("max"@.len() != "lastFen"@.len());
    assert("max"@.len() != "ongoing"@.len());
    assert("max"@.len() != "perfType"@.len());
    assert("max"@.len() != "rated"@.len());
    assert("max"@.len() != "since"@.len());
    assert("max"@.len() != "sort"@.len());
    assert("max"@.len() != "until"@.len());
    assert("max"@.len() != "vs"@.len());
    assert("max"@.len() != "withBookmarked"@.len());
    let p0 = crate::http::nat_pair("max"@, crate::http::opt_u32(q.max));
    let p1 = crate::http::int_pair("since"@, crate::http::opt_i64(q.since));
    let p2 = crate::http::int_pair("until"@, crate::http::opt_i64(q.until));
    let p3 = crate::http::str_pair("vs"@, q.vs);
    let p4 = crate::http::bool_pair("rated"@, q.rated);
    let p5 = crate::http::str_pair("perfType"@, q.perf_type);
    let p6 = crate::http::str_pair("color"@, q.color);
    let p7 = crate::http::bool_pair("analysed"@, q.analysed);
    let p8 = crate::http::bool_pair("ongoing"@, q.ongoing);
    let p9 = crate::http::bool_pair("finished"@, q.finished);
    let p10 = crate::http::bool_pair("lastFen"@, q.last_fen);
    let p11 = crate::http::bool_pair("withBookmarked"@, q.with_bookmarked);
    let p12 = crate::http::opt_pair("sort"@, GameSort::opt_wire(q.sort));
    let s0 = p0;
    let s1 = s0 + p1;
    let s2 = s1 + p2;
    let s3 = s2 + p3;
    let s4 = s3 + p4;
    let s5 = s4 + p5;
    let s6 = s5 + p6;
    let s7 = s6 + p7;
    let s8 = s7 + p8;
    let s9 = s8 + p9;
    let s10 = s9 + p10;
    let s11 = s10 + p11;
    let s12 = s11 + p12;
    assert(q.pairs_view() == s12);
    let v = match q.max { Some(x) => Some(crate::text::dec_nat(x as nat)), None => None };
    assert(p0 == crate::text::one_pair("max"@, v));
    crate::text::lemma_one_pair_carries("max"@, v);
    crate::text::lemma_extend(s0, p1, "max"@, v, false);
    crate::text::lemma_extend(s1, p2, "max"@, v, false);
    crate::text::lemma_extend(s2, p3, "max"@, v, false);
    crate::text::lemma_extend(s3, p4, "max"@, v, false);
    crate::text::lemma_extend(s4, p5, "max"@, v, false);
    crate::text::lemma_extend(s5, p6, "max"@, v, false);
    crate::text::lemma_extend(s6, p7, "max"@, v, false);
    crate::text::lemma_extend(s7, p8, "max"@, v, false);
    crate::text::lemma_extend(s8, p9, "max"@, v, false);
    crate::text::lemma_extend(s9, p10, "max"@, v, false);
    crate::text::lemma_extend(s10, p11, "max"@, v, false);
    crate::text::lemma_extend(s11, p12, "max"@, v, false);
}

/// The pairs of [`UserGamesQuery`] carry its field under `since`.
proof fn lemma_user_games_query_since(q: UserGamesQuery)
    ensures
        crate::text::carries(q.pairs_view(), "since"@, match q.since { Some(x) => Some(crate::text::dec_int(x as int)), None => None }),
{
    reveal_strlit("analysed");
    reveal_strlit("color");
    reveal_strlit("finished");
    reveal_strlit("lastFen");
    reveal_strlit("max");
    reveal_strlit("ongoing");
    reveal_strlit("perfType");
    reveal_strlit("rated");
    reveal_strlit("since");
    reveal_strlit("sort");
    reveal_strlit("until");
    reveal_strlit("vs");
    reveal_strlit("withBookmarked");
    assert("since"@.len() != "analysed"@.len());
    assert("since"@[0] != "color"@[0]);
    assert("since"@.len() != "finished"@.len());
    assert("since"@.len() != "lastFen"@.len());
    assert("since"@.len() != "max"@.len());
    assert("since"@.len() != "ongoing"@.len());
    assert("since"@.len() != "perfType"@.len());
    assert("since"@[0] != "rated"@[0]);
    assert("since"@.len() != "sort"@.len());
    assert("since"@[0] != "until"@[0]);
    assert("since"@.len() != "vs"@.len());
    assert("since"@.len() != "withBookmarked"@.len());
    let p0 = crate::http::nat_pair("max"@, crate::http::opt_u32(q.max));
    let p1 = crate::http::int_pair("since"@, crate::http::opt_i64(q.since));
    let p2 = crate::http::int_pair("until"@, crate::http::opt_i64(q.until));
    let p3 = crate::http::str_pair("vs"@, q.vs);
    let p4 = crate::http::bool_pair("rated"@, q.rated);
    let p5 = crate::http::str_pair("perfType"@, q.perf_type);
    let p6 = crate::http::str_pair("color"@, q.color);
    let p7 = crate::http::bool_pair("analysed"@, q.analysed);
    let p8 = crate::http::bool_pair("ongoing"@, q.ongoing);
    let p9 = crate::http::bool_pair("finished"@, q.finished);
    let p10 = crate::http::bool_pair("lastFen"@, q.last_fen);
    let p11 = crate::http::bool_pair("withBookmarked"@, q.with_bookmarked);
    let p12 = crate::http::opt_pair("sort"@, GameSort::opt_wire(q.sort));
    let s0 = p0;
    let s1 = s0 + p1;
    let s2 = s1 + p2;
    let s3 = s2 + p3;
    let s4 = s3 + p4;
    let s5 = s4 + p5;
    let s6 = s5 + p6;
    let s7 = s6 + p7;
    let s8 = s7 + p8;
    let s9 = s8 + p9;
    let s10 = s9 + p10;
    let s11 = s10 + p11;
    let s12 = s11 + p12;
    assert(q.pairs_view() == s12);
    let v = match q.since { Some(x) => Some(crate::text::dec_int(x as int)), None => None };
    crate::text::lemma_extend(s0, p1, "since"@, v, true);
    crate::text::lemma_extend(s1, p2, "since"@, v, false);
    crate::text::lemma_extend(s2, p3, "since"@, v, false);
    crate::text::lemma_extend(s3, p4, "since"@, v, false);
    crate::text::lemma_extend(s4, p5, "since"@, v, false);
    crate::text::lemma_extend(s5, p6, "since"@, v, false);
    crate::text::lemma_extend(s6, p7, "since"@, v, false);
    crate::text::lemma_extend(s7, p8, "since"@, v, false);
    crate::text::lemma_extend(s8, p9, "since"@, v, false);
    crate::text::lemma_extend(s9, p10, "since"@, v, false);
    crate::text::lemma_extend(s10, p11, "since"@, v, false);
    crate::text::lemma_extend(s11, p12, "since"@, v, false);
}

/// The pairs of [`UserGamesQuery`] carry its field under `until`.
proof fn lemma_user_games_query_until(q: UserGamesQuery)
    ensures
        crate::text::carries(q.pairs_view(), "until"@, match q.until { Some(x) => Some(crate::text::dec_int(x as int)), None => None }),
{
    reveal_strlit("analysed");
    reveal_strlit("color");
    reveal_strlit("finished");
    reveal_strlit("lastFen");
    reveal_strlit("max");
    reveal_strlit("ongoing");
    reveal_strlit("perfType");
    reveal_strlit("rated");
    reveal_strlit("since");
    reveal_strlit("sort");
    reveal_strlit("until");
    reveal_strlit("vs");
    reveal_strlit("withBookmarked");
    assert("until"@.len() != "analysed"@.len());
    assert("until"@[0] != "color"@[0]);
    assert("until"@.len() != "finished"@.len());
    assert("until"@.len() != "lastFen"@.len());
    assert("until"@.len() != "max"@.len());
    assert("until"@.len() != "ongoing"@.len());
    assert("until"@.len() != "perfType"@.len());
    assert("until"@[0] != "rated"@[0]);
    assert("until"@[0] != "since"@[0]);
    assert("until"@.len() != "sort"@.len());
    assert("until"@.len() != "vs"@.len());
    assert("until"@.len() != "withBookmarked"@.len());
    let p0 = crate::http::nat_pair("max"@, crate::http::opt_u32(q.max));
    let p1 = crate::http::int_pair("since"@, crate::http::opt_i64(q.since));
    let p2 = crate::http::int_pair("until"@, crate::http::opt_i64(q.until));
    let p3 = crate::http::str_pair("vs"@, q.vs);
    let p4 = crate::http::bool_pair("rated"@, q.rated);
    let p5 = crate::http::str_pair("perfType"@, q.perf_type);
    let p6 = crate::http::str_pair("color"@, q.color);
    let p7 = crate::http::bool_pair("analysed"@, q.analysed);
    let p8 = crate::http::bool_pair("ongoing"@, q.ongoing);
    let p9 = crate::http::bool_pair("finished"@, q.finished);
    let p10 = crate::http::bool_pair("lastFen"@, q.last_fen);
    let p11 = crate::http::bool_pair("withBookmarked"@, q.with_bookmarked);
    let p12 = crate::http::opt_pair("sort"@, GameSort::opt_wire(q.sort));
    let s0 = p0;
    let s1 = s0 + p1;
    let s2 = s1 + p2;
    let s3 = s2 + p3;
    let s4 = s3 + p4;
    let s5 = s4 + p5;
    let s6 = s5 + p6;
    let s7 = s6 + p7;
    let s8 = s7 + p8;
    let s9 = s8 + p9;
    let s10 = s9 + p10;
    let s11 = s10 + p11;
    let s12 = s11 + p12;
    assert(q.pairs_view() == s12);
    let v = match q.until { Some(x) => Some(crate::text::dec_int(x as int)), None => None };
    crate::text::lemma_extend(s0, p1, "until"@, None, false);
    crate::text::lemma_extend(s1, p2, "until"@, v, true);
    crate::text::lemma_extend(s2, p3, "until"@, v, false);
    crate::text::lemma_extend(s3, p4, "until"@, v, false);
    crate::text::lemma_extend(s4, p5, "until"@, v, false);
    crate::text::lemma_extend(s5, p6, "until"@, v, false);
    crate::text::lemma_extend(s6, p7, "until"@, v, false);
    crate::text::lemma_extend(s7, p8, "until"@, v, false);
    crate::text::lemma_extend(s8, p9, "until"@, v, false);
    crate::text::lemma_extend(s9, p10, "until"@, v, false);
    crate::text::lemma_extend(s10, p11, "until"@, v, false);
    crate::text::lemma_extend(s11, p12, "until"@, v, false);
}

/// The pairs of [`UserGamesQuery`] carry its field under `vs`.
proof fn lemma_user_games_query_vs(q: UserGamesQuery)
    ensures
        crate::text::carries(q.pairs_view(), "vs"@, match q.vs { Some(v) => Some(v@), None => None }),
{
    reveal_strlit("analysed");
    reveal_strlit("color");
    reveal_strlit("finished");
    reveal_strlit("lastFen");
    reveal_strlit("max");
    reveal_strlit("ongoing");
    reveal_strlit("perfType");
    reveal_strlit("rated");
    reveal_strlit("since");
    reveal_strlit("sort");
    reveal_strlit("until");
    reveal_strlit("vs");
    reveal_strlit("withBookmarked");
    assert("vs"@.len() != "analysed"@.len());
    assert("vs"@.len() != "color"@.len());
    assert("vs"@.len() != "finished"@.len());
    assert("vs"@.len() != "lastFen"@.len());
    assert("vs"@.len() != "max"@.len());
    assert("vs"@.len() != "ongoing"@.len());
    assert("vs"@.len() != "perfType"@.len());
    assert("vs"@.len() != "rated"@.len());
    assert("vs"@.len() != "since"@.len());
    assert("vs"@.len() != "sort"@.len());
    assert("vs"@.len() != "until"@.len());
    assert("vs"@.len() != "withBookmarked"@.len());
    let p0 = crate::http::nat_pair("max"@, crate::http::opt_u32(q.max));
    let p1 = crate::http::int_pair("since"@, crate::http::opt_i64(q.since));
    let p2 = crate::http::int_pair("until"@, crate::http::opt_i64(q.until));
    let p3 = crate::http::str_pair("vs"@, q.vs);
    let p4 = crate::http::bool_pair("rated"@, q.rated);
    let p5 = crate::http::str_pair("perfType"@, q.perf_type);
    let p6 = crate::http::str_pair("color"@, q.color);
    let p7 = crate::http::bool_pair("analysed"@, q.analysed);
    let p8 = crate::http::bool_pair("ongoing"@, q.ongoing);
    let p9 = crate::http::bool_pair("finished"@, q.finished);
    let p10 = crate::http::bool_pair("lastFen"@, q.last_fen);
    let p11 = crate::http::bool_pair("withBookmarked"@, q.with_bookmarked);
    let p12 = crate::http::opt_pair("sort"@, GameSort::opt_wire(q.sort));
    let s0 = p0;
    let s1 = s0 + p1;
    let s2 = s1 + p2;
    let s3 = s2 + p3;
    let s4 = s3 + p4;
    let s5 = s4 + p5;
    let s6 = s5 + p6;
    let s7 = s6 + p7;
    let s8 = s7 + p8;
    let s9 = s8 + p9;
    let s10 = s9 + p10;
    let s11 = s10 + p11;
    let s12 = s11 + p12;
    assert(q.pairs_view() == s12);
    let v = match q.vs { Some(v) => Some(v@), None => None };
    crate::text::lemma_extend(s0, p1, "vs"@, None, false);
    crate::text::lemma_extend(s1, p2, "vs"@, None, false);
    crate::text::lemma_extend(s2, p3, "vs"@, v, true);
    crate::text::lemma_extend(s3, p4, "vs"@, v, false);
    crate::text::lemma_extend(s4, p5, "vs"@, v, false);
    crate::text::lemma_extend(s5, p6, "vs"@, v, false);
    crate::text::lemma_extend(s6, p7, "vs"@, v, false);
    crate::text::lemma_extend(s7, p8, "vs"@, v, false);
    crate::text::lemma_extend(s8, p9, "vs"@, v, false);
    crate::text::lemma_extend(s9, p10, "vs"@, v, false);
    crate::text::lemma_extend(s10, p11, "vs"@, v, false);
    crate::text::lemma_extend(s11, p12, "vs"@, v, false);
}

/// The pairs of [`UserGamesQuery`] carry its field under `rated`.
proof fn lemma_user_games_query_rated(q: UserGamesQuery)
    ensures
        crate::text::carries(q.pairs_view(), "rated"@, match q.rated { Some(b) => Some(if b { seq!['t', 'r', 'u', 'e'] } else { seq!['f', 'a', 'l', 's', 'e'] }), None => None }),
{
    reveal_strlit("analysed");
    reveal_strlit("color");
    reveal_strlit("finished");
    reveal_strlit("lastFen");
    reveal_strlit("max");
    reveal_strlit("ongoing");
    reveal_strlit("perfType");
    reveal_strlit("rated");
    reveal_strlit("since");
    reveal_strlit("sort");
    reveal_strlit("until");
    reveal_strlit("vs");
    reveal_strlit("withBookmarked");
    assert("rated"@.len() != "analysed"@.len());
    assert("rated"@[0] != "color"@[0]);
    assert("rated"@.len() != "finished"@.len());
    assert("rated"@.len() != "lastFen"@.len());
    assert("rated"@.len() != "max"@.len());
    assert("rated"@.len() != "ongoing"@.len());
    assert("rated"@.len() != "perfType"@.len());
    assert("rated"@[0] != "since"@[0]);
    assert("rated"@.len() != "sort"@.len());
    assert("rated"@[0] != "until"@[0]);
    assert("rated"@.len() != "vs"@.len());
    assert("rated"@.len() != "withBookmarked"@.len());
    let p0 = crate::http::nat_pair("max"@, crate::http::opt_u32(q.max));
    let p1 = crate::http::int_pair("since"@, crate::http::opt_i64(q.since));
    let p2 = crate::http::int_pair("until"@, crate::http::opt_i64(q.until));
    let p3 = crate::http::str_pair("vs"@, q.vs);
    let p4 = crate::http::bool_pair("rated"@, q.rated);
    let p5 = crate::http::str_pair("perfType"@, q.perf_type);
    let p6 = crate::http::str_pair("color"@, q.color);
    let p7 = crate::http::bool_pair("analysed"@, q.analysed);
    let p8 = crate::http::bool_pair("ongoing"@, q.ongoing);
    let p9 = crate::http::bool_pair("finished"@, q.finished);
    let p10 = crate::http::bool_pair("lastFen"@, q.last_fen);
    let p11 = crate::http::bool_pair("withBookmarked"@, q.with_bookmarked);
    let p12 = crate::http::opt_pair("sort"@, GameSort::opt_wire(q.sort));
    let s0 = p0;
    let s1 = s0 + p1;
    let s2 = s1 + p2;
    let s3 = s2 + p3;
    let s4 = s3 + p4;
    let s5 = s4 + p5;
    let s6 = s5 + p6;
    let s7 = s6 + p7;
    let s8 = s7 + p8;
    let s9 = s8 + p9;
    let s10 = s9 + p10;
    let s11 = s10 + p11;
    let s12 = s11 + p12;
    assert(q.pairs_view() == s12);
    let v = match q.rated { Some(b) => Some(if b { seq!['t', 'r', 'u', 'e'] } else { seq!['f', 'a', 'l', 's', 'e'] }), None => None };
    crate::text::lemma_extend(s0, p1, "rated"@, None, false);
    crate::text::lemma_extend(s1, p2, "rated"@, None, false);
    crate::text::lemma_extend(s2, p3, "rated"@, None, false);
    crate::text::lemma_extend(s3, p4, "rated"@, v, true);
    crate::text::lemma_extend(s4, p5, "rated"@, v, false);
    crate::text::lemma_extend(s5, p6, "rated"@, v, false);
    crate::text::lemma_extend(s6, p7, "rated"@, v, false);
    crate::text::lemma_extend(s7, p8, "rated"@, v, false);
    crate::text::lemma_extend(s8, p9, "rated"@, v, false);
    crate::text::lemma_extend(s9, p10, "rated"@, v, false);
    crate::text::lemma_extend(s10, p11, "rated"@, v, false);
    crate::text::lemma_extend(s11, p12, "rated"@, v, false);
}

/// The pairs of [`UserGamesQuery`] carry its field under `perfType`.
proof fn lemma_user_games_query_perf_type(q: UserGamesQuery)
    ensures
        crate::text::carries(q.pairs_view(), "perfType"@, match q.perf_type { Some(v) => Some(v@), None => None }),
{
    reveal_strlit("analysed");
    reveal_strlit("color");
    reveal_strlit("finished");
    reveal_strlit("lastFen");
    reveal_strlit("max");
    reveal_strlit("ongoing");
    reveal_strlit("perfType");
    reveal_strlit("rated");
    reveal_strlit("since");
    reveal_strlit("sort");
    reveal_strlit("until");
    reveal_strlit("vs");
    reveal_strlit("withBookmarked");
    assert("perfType"@[0] != "analysed"@[0]);
    assert("perfType"@.len() != "color"@.len());
    assert("perfType"@[0] != "finished"@[0]);
    assert("perfType"@.len() != "lastFen"@.len());
    assert("perfType"@.len() != "max"@.len());
    assert("perfType"@.len() != "ongoing"@.len());
    assert("perfType"@.len() != "rated"@.len());
    assert("perfType"@.len() != "since"@.len());
    assert("perfType"@.len() != "sort"@.len());
    assert("perfType"@.len() != "until"@.len());
    assert("perfType"@.len() != "vs"@.len());
    assert("perfType"@.len() != "withBookmarked"@.len());
    let p0 = crate::http::nat_pair("max"@, crate::http::opt_u32(q.max));
    let p1 = crate::http::int_pair("since"@, crate::http::opt_i64(q.since));
    let p2 = crate::http::int_pair("until"@, crate::http::opt_i64(q.until));
    let p3 = crate::http::str_pair("vs"@, q.vs);
    let p4 = crate::http::bool_pair("rated"@, q.rated);
    let p5 = crate::http::str_pair("perfType"@, q.perf_type);
    let p6 = crate::http::str_pair("color"@, q.color);
    let p7 = crate::http::bool_pair("analysed"@, q.analysed);
    let p8 = crate::http::bool_pair("ongoing"@, q.ongoing);
    let p9 = crate::http::bool_pair("finished"@, q.finished);
    let p10 = crate::http::bool_pair("lastFen"@, q.last_fen);
    let p11 = crate::http::bool_pair("withBookmarked"@, q.with_bookmarked);
    let p12 = crate::http::opt_pair("sort"@, GameSort::opt_wire(q.sort));
    let s0 = p0;
    let s1 = s0 + p1;
    let s2 = s1 + p2;
    let s3 = s2 + p3;
    let s4 = s3 + p4;
    let s5 = s4 + p5;
    let s6 = s5 + p6;
    let s7 = s6 + p7;
    let s8 = s7 + p8;
    let s9 = s8 + p9;
    let s10 = s9 + p10;
    let s11 = s10 + p11;
    let s12 = s11 + p12;
    assert(q.pairs_view() == s12);
    let v = match q.perf_type { Some(v) => Some(v@), None => None };
    crate::text::lemma_extend(s0, p1, "perfType"@, None, false);
    crate::text::lemma_extend(s1, p2, "perfType"@, None, false);
    crate::text::lemma_extend(s2, p3, "perfType"@, None, false);
    crate::text::lemma_extend(s3, p4, "perfType"@, None, false);
    crate::text::lemma_extend(s4, p5, "perfType"@, v, true);
    crate::text::lemma_extend(s5, p6, "perfType"@, v, false);
    crate::text::lemma_extend(s6, p7, "perfType"@, v, false);
    crate::text::lemma_extend(s7, p8, "perfType"@, v, false);
    crate::text::lemma_extend(s8, p9, "perfType"@, v, false);
    crate::text::lemma_extend(s9, p10, "perfType"@, v, false);
    crate::text::lemma_extend(s10, p11, "perfType"@, v, false);
    crate::text::lemma_extend(s11, p12, "perfType"@, v, false);
}

/// The pairs of [`UserGamesQuery`] carry its field under `color`.
proof fn lemma_user_games_query_color(q: UserGamesQuery)
    ensures
        crate::text::carries(q.pairs_view(), "color"@, match q.color { Some(v) => Some(v@), None => None }),
{
    reveal_strlit("analysed");
    reveal_strlit("color");
    reveal_strlit("finished");
    reveal_strlit("lastFen");
    reveal_strlit("max");
    reveal_strlit("ongoing");
    reveal_strlit("perfType");
    reveal_strlit("rated");
    reveal_strlit("since");
    reveal_strlit("sort");
    reveal_strlit("until");
    reveal_strlit("vs");
    reveal_strlit("withBookmarked");
    assert("color"@.len() != "analysed"@.len());
    assert("color"@.len() != "finished"@.len());
    assert("color"@.len() != "lastFen"@.len());
    assert("color"@.len() != "max"@.len());
    assert("color"@.len() != "ongoing"@.len());
    assert("color"@.len() != "perfType"@.len());
    assert("color"@[0] != "rated"@[0]);
    assert("color"@[0] != "since"@[0]);
    assert("color"@.len() != "sort"@.len());
    assert("color"@[0] != "until"@[0]);
    assert("color"@.len() != "vs"@.len());
    assert("color"@.len() != "withBookmarked"@.len());
    let p0 = crate::http::nat_pair("max"@, crate::http::opt_u32(q.max));
    let p1 = crate::http::int_pair("since"@, crate::http::opt_i64(q.since));
    let p2 = crate::http::int_pair("until"@, crate::http::opt_i64(q.until));
    let p3 = crate::http::str_pair("vs"@, q.vs);
    let p4 = crate::http::bool_pair("rated"@, q.rated);
    let p5 = crate::http::str_pair("perfType"@, q.perf_type);
    let p6 = crate::http::str_pair("color"@, q.color);
    let p7 = crate::http::bool_pair("analysed"@, q.analysed);
    let p8 = crate::http::bool_pair("ongoing"@, q.ongoing);
    let p9 = crate::http::bool_pair("finished"@, q.finished);
    let p10 = crate::http::bool_pair("lastFen"@, q.last_fen);
    let p11 = crate::http::bool_pair("withBookmarked"@, q.with_bookmarked);
    let p12 = crate::http::opt_pair("sort"@, GameSort::opt_wire(q.sort));
    let s0 = p0;
    let s1 = s0 + p1;
    let s2 = s1 + p2;
    let s3 = s2 + p3;
    let s4 = s3 + p4;
    let s5 = s4 + p5;
    let s6 = s5 + p6;
    let s7 = s6 + p7;
    let s8 = s7 + p8;
    let s9 = s8 + p9;
    let s10 = s9 + p10;
    let s11 = s10 + p11;
    let s12 = s11 + p12;
    assert(q.pairs_view() == s12);
    let v = match q.color { Some(v) => Some(v@), None => None };
    crate::text::lemma_extend(s0, p1, "color"@, None, false);
    crate::text::lemma_extend(s1, p2, "color"@, None, false);
    crate::text::lemma_extend(s2, p3, "color"@, None, false);
    crate::text::lemma_extend(s3, p4, "color"@, None, false);
    crate::text::lemma_extend(s4, p5, "color"@, None, false);
    crate::text::lemma_extend(s5, p6, "color"@, v, true);
    crate::text::lemma_extend(s6, p7, "color"@, v, false);
    crate::text::lemma_extend(s7, p8, "color"@, v, false);
    crate::text::lemma_extend(s8, p9, "color"@, v, false);
    crate::text::lemma_extend(s9, p10, "color"@, v, false);
    crate::text::lemma_extend(s10, p11, "color"@, v, false);
    crate::text::lemma_extend(s11, p12, "color"@, v, false);
}

/// The pairs of [`UserGamesQuery`] carry its field under `analysed`.
proof fn lemma_user_games_query_analysed(q: UserGamesQuery)
    ensures
        crate::text::carries(q.pairs_view(), "analysed"@, match q.analysed { Some(b) => Some(if b { seq!['t', 'r', 'u', 'e'] } else { seq!['f', 'a', 'l', 's', 'e'] }), None => None }),
{
    reveal_strlit("analysed");
    reveal_strlit("color");
    reveal_strlit("finished");
    reveal_strlit("lastFen");
    reveal_strlit("max");
    reveal_strlit("ongoing");
    reveal_strlit("perfType");
    reveal_strlit("rated");
    reveal_strlit("since");
    reveal_strlit("sort");
    reveal_strlit("until");
    reveal_strlit("vs");
    reveal_strlit("withBookmarked");
    assert("analysed"@.len() != "color"@.len());
    assert("analysed"@[0] != "finished"@[0]);
    assert("analysed"@.len() != "lastFen"@.len());
    assert("analysed"@.len() != "max"@.len());
    assert("analysed"@.len() != "ongoing"@.len());
    assert("analysed"@[0] != "perfType"@[0]);
    assert("analysed"@.len() != "rated"@.len());
    assert("analysed"@.len() != "since"@.len());
    assert("analysed"@.len() != "sort"@.len());
    assert("analysed"@.len() != "until"@.len());
    assert("analysed"@.len() != "vs"@.len());
    assert("analysed"@.len() != "withBookmarked"@.len());
    let p0 = crate::http::nat_pair("max"@, crate::http::opt_u32(q.max));
    let p1 = crate::http::int_pair("since"@, crate::http::opt_i64(q.since));
    let p2 = crate::http::int_pair("until"@, crate::http::opt_i64(q.until));
    let p3 = crate::http::str_pair("vs"@, q.vs);
    let p4 = crate::http::bool_pair("rated"@, q.rated);
    let p5 = crate::http::str_pair("perfType"@, q.perf_type);
    let p6 = crate::http::str_pair("color"@, q.color);
    let p7 = crate::http::bool_pair("analysed"@, q.analysed);
    let p8 = crate::http::bool_pair("ongoing"@, q.ongoing);
    let p9 = crate::http::bool_pair("finished"@, q.finished);
    let p10 = crate::http::bool_pair("lastFen"@, q.last_fen);
    let p11 = crate::http::bool_pair("withBookmarked"@, q.with_bookmarked);
    let p12 = crate::http::opt_pair("sort"@, GameSort::opt_wire(q.sort));
    let s0 = p0;
    let s1 = s0 + p1;
    let s2 = s1 + p2;
    let s3 = s2 + p3;
    let s4 = s3 + p4;
    let s5 = s4 + p5;
    let s6 = s5 + p6;
    let s7 = s6 + p7;
    let s8 = s7 + p8;
    let s9 = s8 + p9;
    let s10 = s9 + p10;
    let s11 = s10 + p11;
    let s12 = s11 + p12;
    assert(q.pairs_view() == s12);
    let v = match q.analysed { Some(b) => Some(if b { seq!['t', 'r', 'u', 'e'] } else { seq!['f', 'a', 'l', 's', 'e'] }), None => None };
    crate::text::lemma_extend(s0, p1, "analysed"@, None, false);
    crate::text::lemma_extend(s1, p2, "analysed"@, None, false);
    crate::text::lemma_extend(s2, p3, "analysed"@, None, false);
    crate::text::lemma_extend(s3, p4, "analysed"@, None, false);
    crate::text::lemma_extend(s4, p5, "analysed"@, None, false);
    crate::text::lemma_extend(s5, p6, "analysed"@, None, false);
    crate::text::lemma_extend(s6, p7, "analysed"@, v, true);
    crate::text::lemma_extend(s7, p8, "analysed"@, v, false);
    crate::text::lemma_extend(s8, p9, "analysed"@, v, false);
    crate::text::lemma_extend(s9, p10, "analysed"@, v, false);
    crate::text::lemma_extend(s10, p11, "analysed"@, v, false);
    crate::text::lemma_extend(s11, p12, "analysed"@, v, false);
}

/// The pairs of [`UserGamesQuery`] carry its field under `ongoing`.
proof fn lemma_user_games_query_ongoing(q: UserGamesQuery)
    ensures
        crate::text::carries(q.pairs_view(), "ongoing"@, match q.ongoing { Some(b) => Some(if b { seq!['t', 'r', 'u', 'e'] } else { seq!['f', 'a', 'l', 's', 'e'] }), None => None }),
{
    reveal_strlit("analysed");
    reveal_strlit("color");
    reveal_strlit("finished");
    reveal_strlit("lastFen");
    reveal_strlit("max");
    reveal_strlit("ongoing");
    reveal_strlit("perfType");
    reveal_strlit("rated");
    reveal_strlit("since");
    reveal_strlit("sort");
    reveal_strlit("until");
    reveal_strlit("vs");
    reveal_strlit("withBookmarked");
    assert("ongoing"@.len() != "analysed"@.len());
    assert("ongoing"@.len() != "color"@.len());
    assert("ongoing"@.len() != "finished"@.len());
    assert("ongoing"@[0] != "lastFen"@[0]);
    assert("ongoing"@.len() != "max"@.len());
    assert("ongoing"@.len() != "perfType"@.len());
    assert("ongoing"@.len() != "rated"@.len());
    assert("ongoing"@.len() != "since"@.len());
    assert("ongoing"@.len() != "sort"@.len());
    assert("ongoing"@.len() != "until"@.len());
    assert("ongoing"@.len() != "vs"@.len());
    assert("ongoing"@.len() != "withBookmarked"@.len());
    let p0 = crate::http::nat_pair("max"@, crate::http::opt_u32(q.max));
    let p1 = crate::http::int_pair("since"@, crate::http::opt_i64(q.since));
    let p2 = crate::http::int_pair("until"@, crate::http::opt_i64(q.until));
    let p3 = crate::http::str_pair("vs"@, q.vs);
    let p4 = crate::http::bool_pair("rated"@, q.rated);
    let p5 = crate::http::str_pair("perfType"@, q.perf_type);
    let p6 = crate::http::str_pair("color"@, q.color);
    let p7 = crate::http::bool_pair("analysed"@, q.analysed);
    let p8 = crate::http::bool_pair("ongoing"@, q.ongoing);
    let p9 = crate::http::bool_pair("finished"@, q.finished);
    let p10 = crate::http::bool_pair("lastFen"@, q.last_fen);
    let p11 = crate::http::bool_pair("withBookmarked"@, q.with_bookmarked);
    let p12 = crate::http::opt_pair("sort"@, GameSort::opt_wire(q.sort));
    let s0 = p0;
    let s1 = s0 + p1;
    let s2 = s1 + p2;
    let s3 = s2 + p3;
    let s4 = s3 + p4;
    let s5 = s4 + p5;
    let s6 = s5 + p6;
    let s7 = s6 + p7;
    let s8 = s7 + p8;
    let s9 = s8 + p9;
    let s10 = s9 + p10;
    let s11 = s10 + p11;
    let s12 = s11 + p12;
    assert(q.pairs_view() == s12);
    let v = match q.ongoing { Some(b) => Some(if b { seq!['t', 'r', 'u', 'e'] } else { seq!['f', 'a', 'l', 's', 'e'] }), None => None };
    crate::text::lemma_extend(s0, p1, "ongoing"@, None, false);
    crate::text::lemma_extend(s1, p2, "ongoing"@, None, false);
    crate::text::lemma_extend(s2, p3, "ongoing"@, None, false);
    crate::text::lemma_extend(s3, p4, "ongoing"@, None, false);
    crate::text::lemma_extend(s4, p5, "ongoing"@, None, false);
    crate::text::lemma_extend(s5, p6, "ongoing"@, None, false);
    crate::text::lemma_extend(s6, p7, "ongoing"@, None, false);
    crate::text::lemma_extend(s7, p8, "ongoing"@, v, true);
    crate::text::lemma_extend(s8, p9, "ongoing"@, v, false);
    crate::text::lemma_extend(s9, p10, "ongoing"@, v, false);
    crate::text::lemma_extend(s10, p11, "ongoing"@, v, false);
    crate::text::lemma_extend(s11, p12, "ongoing"@, v, false);
}

/// The pairs of [`UserGamesQuery`] carry its field under `finished`.
proof fn lemma_user_games_query_finished(q: UserGamesQuery)
    ensures
        crate::text::carries(q.pairs_view(), "finished"@, match q.finished { Some(b) => Some(if b { seq!['t', 'r', 'u', 'e'] } else { seq!['f', 'a', 'l', 's', 'e'] }), None => None }),
{
    reveal_strlit("analysed");
    reveal_strlit("color");
    reveal_strlit("finished");
    reveal_strlit("lastFen");
    reveal_strlit("max");
    reveal_strlit("ongoing");
    reveal_strlit("perfType");
    reveal_strlit("rated");
    reveal_strlit("since");
    reveal_strlit("sort");
    reveal_strlit("until");
    reveal_strlit("vs");
    reveal_strlit("withBookmarked");
    assert("finished"@[0] != "analysed"@[0]);
    assert("finished"@.len() != "color"@.len());
    assert("finished"@.len() != "lastFen"@.len());
    assert("finished"@.len() != "max"@.len());
    assert("finished"@.len() != "ongoing"@.len());
    assert("finished"@[0] != "perfType"@[0]);
    assert("finished"@.len() != "rated"@.len());
    assert("finished"@.len() != "since"@.len());
    assert("finished"@.len() != "sort"@.len());
    assert("finished"@.len() != "until"@.len());
    assert("finished"@.len() != "vs"@.len());
    assert("finished"@.len() != "withBookmarked"@.len());
    let p0 = crate::http::nat_pair("max"@, crate::http::opt_u32(q.max));
    let p1 = crate::http::int_pair("since"@, crate::http::opt_i64(q.since));
    let p2 = crate::http::int_pair("until"@, crate::http::opt_i64(q.until));
    let p3 = crate::http::str_pair("vs"@, q.vs);
    let p4 = crate::http::bool_pair("rated"@, q.rated);
    let p5 = crate::http::str_pair("perfType"@, q.perf_type);
    let p6 = crate::http::str_pair("color"@, q.color);
    let p7 = crate::http::bool_pair("analysed"@, q.analysed);
    let p8 = crate::http::bool_pair("ongoing"@, q.ongoing);
    let p9 = crate::http::bool_pair("finished"@, q.finished);
    let p10 = crate::http::bool_pair("lastFen"@, q.last_fen);
    let p11 = crate::http::bool_pair("withBookmarked"@, q.with_bookmarked);
    let p12 = crate::http::opt_pair("sort"@, GameSort::opt_wire(q.sort));
    let s0 = p0;
    let s1 = s0 + p1;
    let s2 = s1 + p2;
    let s3 = s2 + p3;
    let s4 = s3 + p4;
    let s5 = s4 + p5;
    let s6 = s5 + p6;
    let s7 = s6 + p7;
    let s8 = s7 + p8;
    let s9 = s8 + p9;
    let s10 = s9 + p10;
    let s11 = s10 + p11;
    let s12 = s11 + p12;
    assert(q.pairs_view() == s12);
    let v = match q.finished { Some(b) => Some(if b { seq!['t', 'r', 'u', 'e'] } else { seq!['f', 'a', 'l', 's', 'e'] }), None => None };
    crate::text::lemma_extend(s0, p1, "finished"@, None, false);
    crate::text::lemma_extend(s1, p2, "finished"@, None, false);
    crate::text::lemma_extend(s2, p3, "finished"@, None, false);
    crate::text::lemma_extend(s3, p4, "finished"@, None, false);
    crate::text::lemma_extend(s4, p5, "finished"@, None, false);
    crate::text::lemma_extend(s5, p6, "finished"@, None, false);
    crate::text::lemma_extend(s6, p7, "finished"@, None, false);
    crate::text::lemma_extend(s7, p8, "finished"@, None, false);
    crate::text::lemma_extend(s8, p9, "finished"@, v, true);
    crate::text::lemma_extend(s9, p10, "finished"@, v, false);
    crate::text::lemma_extend(s10, p11, "finished"@, v, false);
    crate::text::lemma_extend(s11, p12, "finished"@, v, false);
}

/// The pairs of [`UserGamesQuery`] carry its field under `lastFen`.
proof fn lemma_user_games_query_last_fen(q: UserGamesQuery)
    ensures
        crate::text::carries(q.pairs_view(), "lastFen"@, match q.last_fen { Some(b) => Some(if b { seq!['t', 'r', 'u', 'e'] } else { seq!['f', 'a', 'l', 's', 'e'] }), None => None }),
{
    reveal_strlit("analysed");
    reveal_strlit("color");
    reveal_strlit("finished");
    reveal_strlit("lastFen");
    reveal_strlit("max");
    reveal_strlit("ongoing");
    reveal_strlit("perfType");
    reveal_strlit("rated");
    reveal_strlit("since");
    reveal_strlit("sort");
    reveal_strlit("until");
    reveal_strlit("vs");
    reveal_strlit("withBookmarked");
    assert("lastFen"@.len() != "analysed"@.len());
    assert("lastFen"@.len() != "color"@.len());
    assert("lastFen"@.len() != "finished"@.len());
    assert("lastFen"@.len() != "max"@.len());
    assert("lastFen"@[0] != "ongoing"@[0]);
    assert("lastFen"@.len() != "perfType"@.len());
    assert("lastFen"@.len() != "rated"@.len());
    assert("lastFen"@.len() != "since"@.len());
    assert("lastFen"@.len() != "sort"@.len());
    assert("lastFen"@.len() != "until"@.len());
    assert("lastFen"@.len() != "vs"@.len());
    assert("lastFen"@.len() != "withBookmarked"@.len());
    let p0 = crate::http::nat_pair("max"@, crate::http::opt_u32(q.max));
    let p1 = crate::http::int_pair("since"@, crate::http::opt_i64(q.since));
    let p2 = crate::http::int_pair("until"@, crate::http::opt_i64(q.until));
    let p3 = crate::http::str_pair("vs"@, q.vs);
    let p4 = crate::http::bool_pair("rated"@, q.rated);
    let p5 = crate::http::str_pair("perfType"@, q.perf_type);
    let p6 = crate::http::str_pair("color"@, q.color);
    let p7 = crate::http::bool_pair("analysed"@, q.analysed);
    let p8 = crate::http::bool_pair("ongoing"@, q.ongoing);
    let p9 = crate::http::bool_pair("finished"@, q.finished);
    let p10 = crate::http::bool_pair("lastFen"@, q.last_fen);
    let p11 = crate::http::bool_pair("withBookmarked"@, q.with_bookmarked);
    let p12 = crate::http::opt_pair("sort"@, GameSort::opt_wire(q.sort));
    let s0 = p0;
    let s1 = s0 + p1;
    let s2 = s1 + p2;
    let s3 = s2 + p3;
    let s4 = s3 + p4;
    let s5 = s4 + p5;
    let s6 = s5 + p6;
    let s7 = s6 + p7;
    let s8 = s7 + p8;
    let s9 = s8 + p9;
    let s10 = s9 + p10;
    let s11 = s10 + p11;
    let s12 = s11 + p12;
    assert(q.pairs_view() == s12);
    let v = match q.last_fen { Some(b) => Some(if b { seq!['t', 'r', 'u', 'e'] } else { seq!['f', 'a', 'l', 's', 'e'] }), None => None };
    crate::text::lemma_extend(s0, p1, "lastFen"@, None, false);
    crate::text::lemma_extend(s1, p2, "lastFen"@, None, false);
    crate::text::lemma_extend(s2, p3, "lastFen"@, None, false);
    crate::text::lemma_extend(s3, p4, "lastFen"@, None, false);
    crate::text::lemma_extend(s4, p5, "lastFen"@, None, false);
    crate::text::lemma_extend(s5, p6, "lastFen"@, None, false);
    crate::text::lemma_extend(s6, p7, "lastFen"@, None, false);
    crate::text::lemma_extend(s7, p8, "lastFen"@, None, false);
    crate::text::lemma_extend(s8, p9, "lastFen"@, None, false);
    crate::text::lemma_extend(s9, p10, "lastFen"@, v, true);
    crate::text::lemma_extend(s10, p11, "lastFen"@, v, false);
    crate::text::lemma_extend(s11, p12, "lastFen"@, v, false);
}

/// The pairs of [`UserGamesQuery`] carry its field under `withBookmarked`.
proof fn lemma_user_games_query_with_bookmarked(q: UserGamesQuery)
    ensures
        crate::text::carries(q.pairs_view(), "withBookmarked"@, match q.with_bookmarked { Some(b) => Some(if b { seq!['t', 'r', 'u', 'e'] } else { seq!['f', 'a', 'l', 's', 'e'] }), None => None }),
{
    reveal_strlit("analysed");
    reveal_strlit("color");
    reveal_strlit("finished");
    reveal_strlit("lastFen");
    reveal_strlit("max");
    reveal_strlit("ongoing");
    reveal_strlit("perfType");
    reveal_strlit("rated");
    reveal_strlit("since");
    reveal_strlit("sort");
    reveal_strlit("until");
    reveal_strlit("vs");
    reveal_strlit("withBookmarked");
    assert("withBookmarked"@.len() != "analysed"@.len());
    assert("withBookmarked"@.len() != "color"@.len());
    assert("withBookmarked"@.len() != "finished"@.len());
    assert("withBookmarked"@.len() != "lastFen"@.len());
    assert("withBookmarked"@.len() != "max"@.len());
    assert("withBookmarked"@.len() != "ongoing"@.len());
    assert("withBookmarked"@.len() != "perfType"@.len());
    assert("withBookmarked"@.len() != "rated"@.len());
    assert("withBookmarked"@.len() != "since"@.len());
    assert("withBookmarked"@.len() != "sort"@.len());
    assert("withBookmarked"@.len() != "until"@.len());
    assert("withBookmarked"@.len() != "vs"@.len());
    let p0 = crate::http::nat_pair("max"@, crate::http::opt_u32(q.max));
    let p1 = crate::http::int_pair("since"@, crate::http::opt_i64(q.since));
    let p2 = crate::http::int_pair("until"@, crate::http::opt_i64(q.until));
    let p3 = crate::http::str_pair("vs"@, q.vs);
    let p4 = crate::http::bool_pair("rated"@, q.rated);
    let p5 = crate::http::str_pair("perfType"@, q.perf_type);
    let p6 = crate::http::str_pair("color"@, q.color);
    let p7 = crate::http::bool_pair("analysed"@, q.analysed);
    let p8 = crate::http::bool_pair("ongoing"@, q.ongoing);
    let p9 = crate::http::bool_pair("finished"@, q.finished);
    let p10 = crate::http::bool_pair("lastFen"@, q.last_fen);
    let p11 = crate::http::bool_pair("withBookmarked"@, q.with_bookmarked);
    let p12 = crate::http::opt_pair("sort"@, GameSort::opt_wire(q.sort));
    let s0 = p0;
    let s1 = s0 + p1;
    let s2 = s1 + p2;
    let s3 = s2 + p3;
    let s4 = s3 + p4;
    let s5 = s4 + p5;
    let s6 = s5 + p6;
    let s7 = s6 + p7;
    let s8 = s7 + p8;
    let s9 = s8 + p9;
    let s10 = s9 + p10;
    let s11 = s10 + p11;
    let s12 = s11 + p12;
    assert(q.pairs_view() == s12);
    let v = match q.with_bookmarked { Some(b) => Some(if b { seq!['t', 'r', 'u', 'e'] } else { seq!['f', 'a', 'l', 's', 'e'] }), None => None };
    crate::text::lemma_extend(s0, p1, "withBookmarked"@, None, false);
    crate::text::lemma_extend(s1, p2, "withBookmarked"@, None, false);
    crate::text::lemma_extend(s2, p3, "withBookmarked"@, None, false);
    crate::text::lemma_extend(s3, p4, "withBookmarked"@, None, false);
    crate::text::lemma_extend(s4, p5, "withBookmarked"@, None, false);
    crate::text::lemma_extend(s5, p6, "withBookmarked"@, None, false);
    crate::text::lemma_extend(s6, p7, "withBookmarked"@, None, false);
    crate::text::lemma_extend(s7, p8, "withBookmarked"@, None, false);
    crate::text::lemma_extend(s8, p9, "withBookmarked"@, None, false);
    crate::text::lemma_extend(s9, p10, "withBookmarked"@, None, false);
    crate::text::lemma_extend(s10, p11, "withBookmarked"@, v, true);
    crate::text::lemma_extend(s11, p12, "withBookmarked"@, v, false);
}

/// The pairs of [`UserGamesQuery`] carry its field under `sort`.
proof fn lemma_user_games_query_sort(q: UserGamesQuery)
    ensures
        crate::text::carries(q.pairs_view(), "sort"@, GameSort::opt_wire(q.sort)),
{
    reveal_strlit("analysed");
    reveal_strlit("color");
    reveal_strlit("finished");
    reveal_strlit("lastFen");
    reveal_strlit("max");
    reveal_strlit("ongoing");
    reveal_strlit("perfType");
    reveal_strlit("rated");
    reveal_strlit("since");
    reveal_strlit("sort");
    reveal_strlit("until");
    reveal_strlit("vs");
    reveal_strlit("withBookmarked");
    assert("sort"@.len() != "analysed"@.len());
    assert("sort"@.len() != "color"@.len());
    assert("sort"@.len() != "finished"@.len());
    assert("sort"@.len() != "lastFen"@.len());
    assert("sort"@.len() != "max"@.len());
    assert("sort"@.len() != "ongoing"@.len());
    assert("sort"@.len() != "perfType"@.len());
    assert("sort"@.len() != "rated"@.len());
    assert("sort"@.len() != "since"@.len());
    assert("sort"@.len() != "until"@.len());
    assert("sort"@.len() != "vs"@.len());
    assert("sort"@.len() != "withBookmarked"@.len());
    let p0 = crate::http::nat_pair("max"@, crate::http::opt_u32(q.max));
    let p1 = crate::http::int_pair("since"@, crate::http::opt_i64(q.since));
    let p2 = crate::http::int_pair("until"@, crate::http::opt_i64(q.until));
    let p3 = crate::http::str_pair("vs"@, q.vs);
    let p4 = crate::http::bool_pair("rated"@, q.rated);
    let p5 = crate::http::str_pair("perfType"@, q.perf_type);
    let p6 = crate::http::str_pair("color"@, q.color);
    let p7 = crate::http::bool_pair("analysed"@, q.analysed);
    let p8 = crate::http::bool_pair("ongoing"@, q.ongoing);
    let p9 = crate::http::bool_pair("finished"@, q.finished);
    let p10 = crate::http::bool_pair("lastFen"@, q.last_fen);
    let p11 = crate::http::bool_pair("withBookmarked"@, q.with_bookmarked);
    let p12 = crate::http::opt_pair("sort"@, GameSort::opt_wire(q.sort));
    let s0 = p0;
    let s1 = s0 + p1;
    let s2 = s1 + p2;
    let s3 = s2 + p3;
    let s4 = s3 + p4;
    let s5 = s4 + p5;
    let s6 = s5 + p6;
    let s7 = s6 + p7;
    let s8 = s7 + p8;
    let s9 = s8 + p9;
    let s10 = s9 + p10;
    let s11 = s10 + p11;
    let s12 = s11 + p12;
    assert(q.pairs_view() == s12);
    let v = GameSort::opt_wire(q.sort);
    crate::text::lemma_extend(s0, p1, "sort"@, None, false);
    crate::text::lemma_extend(s1, p2, "sort"@, None, false);
    crate::text::lemma_extend(s2, p3, "sort"@, None, false);
    crate::text::lemma_extend(s3, p4, "sort"@, None, false);
    crate::text::lemma_extend(s4, p5, "sort"@, None, false);
    crate::text::lemma_extend(s5, p6, "sort"@, None, false);
    crate::text::lemma_extend(s6, p7, "sort"@, None, false);
    crate::text::lemma_extend(s7, p8, "sort"@, None, false);
    crate::text::lemma_extend(s8, p9, "sort"@, None, false);
    crate::text::lemma_extend(s9, p10, "sort"@, None, false);
    crate::text::lemma_extend(s10, p11, "sort"@, None, false);
    crate::text::lemma_extend(s11, p12, "sort"@, v, true);
}

/// The pairs of [`UserGamesQuery`] carry each of its fields under that field's own
/// key (`max`, `since`, `until`, `vs`, `rated`, `perfType`, `color`, `analysed`, `ongoing`, `finished`, `lastFen`, `withBookmarked`, `sort`), with the value given to it, and a key only when its field is set.
pub proof fn lemma_user_games_query_carries_fields(q: UserGamesQuery)
    ensures
        crate::text::carries(q.pairs_view(), "max"@, match q.max { Some(x) => Some(crate::text::dec_nat(x as nat)), None => None }),
        crate::text::carries(q.pairs_view(), "since"@, match q.since { Some(x) => Some(crate::text::dec_int(x as int)), None => None }),
        crate::text::carries(q.pairs_view(), "until"@, match q.until { Some(x) => Some(crate::text::dec_int(x as int)), None => None }),
        crate::text::carries(q.pairs_view(), "vs"@, match q.vs { Some(v) => Some(v@), None => None }),
        crate::text::carries(q.pairs_view(), "rated"@, match q.rated { Some(b) => Some(if b { seq!['t', 'r', 'u', 'e'] } else { seq!['f', 'a', 'l', 's', 'e'] }), None => None }),
        crate::text::carries(q.pairs_view(), "perfType"@, match q.perf_type { Some(v) => Some(v@), None => None }),
        crate::text::carries(q.pairs_view(), "color"@, match q.color { Some(v) => Some(v@), None => None }),
        crate::text::carries(q.pairs_view(), "analysed"@, match q.analysed { Some(b) => Some(if b { seq!['t', 'r', 'u', 'e'] } else { seq!['f', 'a', 'l', 's', 'e'] }), None => None }),
        crate::text::carries(q.pairs_view(), "ongoing"@, match q.ongoing { Some(b) => Some(if b { seq!['t', 'r', 'u', 'e'] } else { seq!['f', 'a', 'l', 's', 'e'] }), None => None }),
        crate::text::carries(q.pairs_view(), "finished"@, match q.finished { Some(b) => Some(if b { seq!['t', 'r', 'u', 'e'] } else { seq!['f', 'a', 'l', 's', 'e'] }), None => None }),
        crate::text::carries(q.pairs_view(), "lastFen"@, match q.last_fen { Some(b) => Some(if b { seq!['t', 'r', 'u', 'e'] } else { seq!['f', 'a', 'l', 's', 'e'] }), None => None }),
        crate::text::carries(q.pairs_view(), "withBookmarked"@, match q.with_bookmarked { Some(b) => Some(if b { seq!['t', 'r', 'u', 'e'] } else { seq!['f', 'a', 'l', 's', 'e'] }), None => None }),
        crate::text::carries(q.pairs_view(), "sort"@, GameSort::opt_wire(q.sort)),
{
    lemma_user_games_query_max(q);
    lemma_user_games_query_since(q);
    lemma_user_games_query_until(q);
    lemma_user_games_query_vs(q);
    lemma_user_games_query_rated(q);
    lemma_user_games_query_perf_type(q);
    lemma_user_games_query_color(q);
    lemma_user_games_query_analysed(q);
    lemma_user_games_query_ongoing(q);
    lemma_user_games_query_finished(q);
    lemma_user_games_query_last_fen(q);
    lemma_user_games_query_with_bookmarked(q);
    lemma_user_games_query_sort(q);
}

impl<'a> UserGamesQuery<'a> {
    /// The query pairs, in order.
    pub open spec fn pairs_view(self) -> crate::text::Pairs {
        crate::http::nat_pair("max"@, crate::http::opt_u32(self.max))
            + crate::http::int_pair("since"@, crate::http::opt_i64(self.since))
            + crate::http::int_pair("until"@, crate::http::opt_i64(self.until))
            + crate::http::str_pair("vs"@, self.vs)
            + crate::http::bool_pair("rated"@, self.rated)
            + crate::http::str_pair("perfType"@, self.perf_type)
            + crate::http::str_pair("color"@, self.color)
            + crate::http::bool_pair("analysed"@, self.analysed)
            + crate::http::bool_pair("ongoing"@, self.ongoing)
            + crate::http::bool_pair("finished"@, self.finished)
            + crate::http::bool_pair("lastFen"@, self.last_fen)
            + crate::http::bool_pair("withBookmarked"@, self.with_bookmarked)
            + crate::http::opt_pair("sort"@, GameSort::opt_wire(self.sort))
    }

    /// The query pairs.
    #[verifier::rlimit(60)]
    pub fn pairs(&self) -> (r: Vec<(String, String)>)
        ensures
            r.deep_view() == self.pairs_view(),
    {
        let mut out: Vec<(String, String)> = Vec::new();
        crate::http::push_opt_u32(&mut out, "max", self.max);
        crate::http::push_opt_i64(&mut out, "since", self.since);
        crate::http::push_opt_i64(&mut out, "until", self.until);
        crate::http::push_opt_str(&mut out, "vs", self.vs);
        crate::http::push_opt_bool(&mut out, "rated", self.rated);
        crate::http::push_opt_str(&mut out, "perfType", self.perf_type);
        crate::http::push_opt_str(&mut out, "color", self.color);
        crate::http::push_opt_bool(&mut out, "analysed", self.analysed);
        crate::http::push_opt_bool(&mut out, "ongoing", self.ongoing);
        crate::http::push_opt_bool(&mut out, "finished", self.finished);
        crate::http::push_opt_bool(&mut out, "lastFen", self.last_fen);
        crate::http::push_opt_bool(&mut out, "withBookmarked", self.with_bookmarked);
        match self.sort {
            Some(x) => crate::http::push_pair(&mut out, "sort", String::from_str(x.as_str())),
            None => {},
        }
        assert(out.deep_view() =~= self.pairs_view());
        out
    }

    /// The query with every filter unset.
    pub open spec fn blank() -> Self {
        UserGamesQuery {
            max: None,
            since: None,
            until: None,
            vs: None,
            rated: None,
            perf_type: None,
            color: None,
            analysed: None,
            ongoing: None,
            finished: None,
            last_fen: None,
            with_bookmarked: None,
            sort: None,
        }
    }
}

impl<'a> Default for UserGamesQuery<'a> {
    /// Every filter unset.
    fn default() -> (r: Self)
        ensures
            r == Self::blank(),
    {
        UserGamesQuery {
            max: None,
            since: None,
            until: None,
            vs: None,
            rated: None,
            perf_type: None,
            color: None,
            analysed: None,
            ongoing: None,
            finished: None,
            last_fen: None,
            with_bookmarked: None,
            sort: None,
        }
    }
}

/// Builder for exporting a user's games (`GET /api/games/user/{username}`).
#[derive(Debug)]
pub struct UserGamesRequest<'a> {
    client: &'a LichessClient,
    username: &'a str,
    query: UserGamesQuery<'a>,
    export: GameExportOptions,
}

impl<'a> UserGamesRequest<'a> {
    /// The client the builder is bound to.
    pub closed spec fn client_of(&self) -> &'a LichessClient {
        self.client
    }

    /// The user whose games are exported.
    pub closed spec fn username_of(&self) -> &'a str {
        self.username
    }

    /// The filters.
    pub closed spec fn query_of(&self) -> UserGamesQuery<'a> {
        self.query
    }

    /// The export-format options.
    pub closed spec fn export_of(&self) -> GameExportOptions {
        self.export
    }

    /// Creates the request builder.
    pub fn new(client: &'a LichessClient, username: &'a str) -> (r: Self)
        ensures
            r.client_of() == client,
            r.username_of() == username,
            r.query_of() == UserGamesQuery::blank(),
            r.export_of() == GameExportOptions::blank(),
    {
        UserGamesRequest {
            client,
            username,
            query: UserGamesQuery::default(),
            export: GameExportOptions::default(),
        }
    }

    /// Limits the number of games downloaded.
    pub fn max(self, count: u32) -> (r: Self)
        ensures
            r.query_of() == (UserGamesQuery { max: Some(count), ..self.query_of() }),
            r.client_of() == self.client_of(),
            r.username_of() == self.username_of(),
            r.export_of() == self.export_of(),
    {
        let mut r = self;
        r.query.max = Some(count);
        r
    }

    /// Only games played since this timestamp (Unix milliseconds).
    pub fn since(self, timestamp: i64) -> (r: Self)
        ensures
            r.query_of() == (UserGamesQuery { since: Some(timestamp), ..self.query_of() }),
            r.client_of() == self.client_of(),
            r.username_of() == self.username_of(),
            r.export_of() == self.export_of(),
    {
        let mut r = self;
        r.query.since = Some(timestamp);
        r
    }

    /// Only games played until this timestamp (Unix milliseconds).
    pub fn until(self, timestamp: i64) -> (r: Self)
        ensures
            r.query_of() == (UserGamesQuery { until: Some(timestamp), ..self.query_of() }),
            r.client_of() == self.client_of(),
            r.username_of() == self.username_of(),
            r.export_of() == self.export_of(),
    {
        let mut r = self;
        r.query.until = Some(timestamp);
        r
    }

    /// Only games played against this opponent.
    pub fn vs(self, opponent: &'a str) -> (r: Self)
        ensures
            r.query_of() == (UserGamesQuery { vs: Some(opponent), ..self.query_of() }),
            r.client_of() == self.client_of(),
            r.username_of() == self.username_of(),
            r.export_of() == self.export_of(),
    {
        let mut r = self;
        r.query.vs = Some(opponent);
        r
    }

    /// Only rated (`true`) or casual (`false`) games.
    pub fn rated(self, rated: bool) -> (r: Self)
        ensures
            r.query_of() == (UserGamesQuery { rated: Some(rated), ..self.query_of() }),
            r.client_of() == self.client_of(),
            r.username_of() == self.username_of(),
            r.export_of() == self.export_of(),
    {
        let mut r = self;
        r.query.rated = Some(rated);
        r
    }

    /// Only games in these speeds/variants (comma-separated perf types).
    pub fn perf_type(self, perf_type: &'a str) -> (r: Self)
        ensures
            r.query_of() == (UserGamesQuery { perf_type: Some(perf_type), ..self.query_of() }),
            r.client_of() == self.client_of(),
            r.username_of() == self.username_of(),
            r.export_of() == self.export_of(),
    {
        let mut r = self;
        r.query.perf_type = Some(perf_type);
        r
    }

    /// Only games played as this color (`"white"` or `"black"`).
    pub fn color(self, color: &'a str) -> (r: Self)
        ensures
            r.query_of() == (UserGamesQuery { color: Some(color), ..self.query_of() }),
            r.client_of() == self.client_of(),
            r.username_of() == self.username_of(),
            r.export_of() == self.export_of(),
    {
        let mut r = self;
        r.query.color = Some(color);
        r
    }

    /// Only games with (`true`) or without (`false`) computer analysis.
    pub fn analysed(self, analysed: bool) -> (r: Self)
        ensures
            r.query_of() == (UserGamesQuery { analysed: Some(analysed), ..self.query_of() }),
            r.client_of() == self.client_of(),
            r.username_of() == self.username_of(),
            r.export_of() == self.export_of(),
    {
        let mut r = self;
        r.query.analysed = Some(analysed);
        r
    }

    /// Only currently-ongoing games.
    pub fn ongoing(self, ongoing: bool) -> (r: Self)
        ensures
            r.query_of() == (UserGamesQuery { ongoing: Some(ongoing), ..self.query_of() }),
            r.client_of() == self.client_of(),
            r.username_of() == self.username_of(),
            r.export_of() == self.export_of(),
    {
        let mut r = self;
        r.query.ongoing = Some(ongoing);
        r
    }

    /// Include finished games (`true`); set `false` to get only ongoing games.
    pub fn finished(self, finished: bool) -> (r: Self)
        ensures
            r.query_of() == (UserGamesQuery { finished: Some(finished), ..self.query_of() }),
            r.client_of() == self.client_of(),
            r.username_of() == self.username_of(),
            r.export_of() == self.export_of(),
    {
        let mut r = self;
        r.query.finished = Some(finished);
        r
    }

    /// Include the X-FEN of each game's last position (NDJSON only).
    pub fn last_fen(self, value: bool) -> (r: Self)
        ensures
            r.query_of() == (UserGamesQuery { last_fen: Some(value), ..self.query_of() }),
            r.client_of() == self.client_of(),
            r.username_of() == self.username_of(),
            r.export_of() == self.export_of(),
    {
        let mut r = self;
        r.query.last_fen = Some(value);
        r
    }

    /// Add a `bookmarked` flag on games the caller has bookmarked (NDJSON only).
    pub fn with_bookmarked(self, value: bool) -> (r: Self)
        ensures
            r.query_of() == (UserGamesQuery { with_bookmarked: Some(value), ..self.query_of() }),
            r.client_of() == self.client_of(),
            r.username_of() == self.username_of(),
            r.export_of() == self.export_of(),
    {
        let mut r = self;
        r.query.with_bookmarked = Some(value);
        r
    }

    /// Sort order (defaults to most-recent-first).
    pub fn sort(self, sort: GameSort) -> (r: Self)
        ensures
            r.query_of() == (UserGamesQuery { sort: Some(sort), ..self.query_of() }),
            r.client_of() == self.client_of(),
            r.username_of() == self.username_of(),
            r.export_of() == self.export_of(),
    {
        let mut r = self;
        r.query.sort = Some(sort);
        r
    }

    /// Sets the shared export-format options (moves, clocks, evals, …).
    pub fn export(self, options: GameExportOptions) -> (r: Self)
        ensures
            r.export_of() == options,
            r.client_of() == self.client_of(),
            r.username_of() == self.username_of(),
            r.query_of() == self.query_of(),
    {
        let mut r = self;
        r.export = options;
        r
    }

    /// Executes the export, streaming games as NDJSON.
    pub fn stream(self) -> (r: ApiRequest)
        ensures
            r@ == crate::http::bare(
                Method::Get,
                Host::Default,
                "/api/games/user/"@ + crate::text::segment_text(self.username_of()@) + ""@,
            )
                .with_accept(Accept::Ndjson)
                .with_query(self.query_of().pairs_view())
                .with_query(self.export_of().pairs_view()),
    {
        let path = crate::http::path1("/api/games/user/", self.username, "");
        self.client.request(Method::Get, Host::Default, path)
            .accept(Accept::Ndjson)
            .query(self.query.pairs())
            .query(self.export.pairs())
    }

    /// Executes the export, returning all games as one PGN string.
    pub fn pgn(self) -> (r: ApiRequest)
        ensures
            r@ == crate::http::bare(
                Method::Get,
                Host::Default,
                "/api/games/user/"@ + crate::text::segment_text(self.username_of()@) + ""@,
            )
                .with_accept(Accept::Pgn)
                .with_query(self.query_of().pairs_view())
                .with_query(self.export_of().pairs_view()),
    {
        let path = crate::http::path1("/api/games/user/", self.username, "");
        self.client.request(Method::Get, Host::Default, path)
            .accept(Accept::Pgn)
            .query(self.query.pairs())
            .query(self.export.pairs())
    }
}

/// Builder for exporting several games by id (`POST /api/games/export/_ids`).
#[derive(Debug)]
pub struct ExportByIdsRequest<'a> {
    client: &'a LichessClient,
    ids: String,
    export: GameExportOptions,
}

impl<'a> ExportByIdsRequest<'a> {
    /// The client the builder is bound to.
    pub closed spec fn client_of(&self) -> &'a LichessClient {
        self.client
    }

    /// The comma-joined game ids.
    pub closed spec fn ids_of(&self) -> String {
        self.ids
    }

    /// The export-format options.
    pub closed spec fn export_of(&self) -> GameExportOptions {
        self.export
    }

    /// Creates the request builder.
    pub fn new(client: &'a LichessClient, ids_list: &[&str]) -> (r: Self)
        ensures
            r.client_of() == client,
            r.ids_of()@ == join_seqs(str_views(ids_list@), ","@),
            r.export_of() == GameExportOptions::blank(),
    {
        let ids = join_strs(ids_list, ",");
        ExportByIdsRequest { client, ids, export: GameExportOptions::default() }
    }

    /// Sets the shared export-format options (moves, clocks, evals, …).
    pub fn export(self, options: GameExportOptions) -> (r: Self)
        ensures
            r.export_of() == options,
            r.client_of() == self.client_of(),
            r.ids_of() == self.ids_of(),
    {
        let mut r = self;
        r.export = options;
        r
    }

    /// Executes the export, streaming games as NDJSON; the ids are sent as a
    /// plain-text body.
    pub fn stream(self) -> (r: ApiRequest)
        ensures
            r@ == crate::http::bare(Method::Post, Host::Default, "/api/games/export/_ids"@)
                .with_accept(
                Accept::Ndjson,
            ).with_query(self.export_of()
                .pairs_view()).with_body(crate::http::BodyView::Text(self.ids_of()@)),
    {
        let pairs = self.export.pairs();
        self.client.request(Method::Post, Host::Default, String::from_str("/api/games/export/_ids"))
            .accept(
            Accept::Ndjson,
        ).query(pairs).text_body(self.ids)
    }

    /// Executes the export, returning all games as one PGN string.
    pub fn pgn(self) -> (r: ApiRequest)
        ensures
            r@ == crate::http::bare(Method::Post, Host::Default, "/api/games/export/_ids"@)
                .with_accept(
                Accept::Pgn,
            ).with_query(self.export_of()
                .pairs_view()).with_body(crate::http::BodyView::Text(self.ids_of()@)),
    {
        let pairs = self.export.pairs();
        self.client.request(Method::Post, Host::Default, String::from_str("/api/games/export/_ids"))
            .accept(
            Accept::Pgn,
        ).query(pairs).text_body(self.ids)
    }
}

/// Filter parameters for the bookmarked-games export.
#[derive(Debug, Clone)]
pub struct BookmarksQuery {
    /// Only games played since this timestamp (Unix milliseconds).
    pub since: Option<i64>,
    /// Only games played until this timestamp (Unix milliseconds).
    pub until: Option<i64>,
    /// Limits the number of games downloaded.
    pub max: Option<u32>,
    /// Include the X-FEN of each game's last position.
    pub last_fen: Option<bool>,
    /// Sort order (defaults to most-recent-first).
    pub sort: Option<GameSort>,
}

/// The pairs of [`BookmarksQuery`] carry its field under `since`.
proof fn lemma_bookmarks_query_since(q: BookmarksQuery)
    ensures
        crate::text::carries(q.pairs_view(), "since"@, match q.since { Some(x) => Some(crate::text::dec_int(x as int)), None => None }),
{
    reveal_strlit("lastFen");
    reveal_strlit("max");
    reveal_strlit("since");
    reveal_strlit("sort");
    reveal_strlit("until");
    assert("since"@.len() != "lastFen"@.len());
    assert("since"@.len() != "max"@.len());
    assert("since"@.len() != "sort"@.len());
    assert("since"@[0] != "until"@[0]);
    let p0 = crate::http::int_pair("since"@, crate::http::opt_i64(q.since));
    let p1 = crate::http::int_pair("until"@, crate::http::opt_i64(q.until));
    let p2 = crate::http::nat_pair("max"@, crate::http::opt_u32(q.max));
    let p3 = crate::http::bool_pair("lastFen"@, q.last_fen);
    let p4 = crate::http::opt_pair("sort"@, GameSort::opt_wire(q.sort));
    let s0 = p0;
    let s1 = s0 + p1;
    let s2 = s1 + p2;
    let s3 = s2 + p3;
    let s4 = s3 + p4;
    assert(q.pairs_view() == s4);
    let v = match q.since { Some(x) => Some(crate::text::dec_int(x as int)), None => None };
    assert(p0 == crate::text::one_pair("since"@, v));
    crate::text::lemma_one_pair_carries("since"@, v);
    crate::text::lemma_extend(s0, p1, "since"@, v, false);
    crate::text::lemma_extend(s1, p2, "since"@, v, false);
    crate::text::lemma_extend(s2, p3, "since"@, v, false);
    crate::text::lemma_extend(s3, p4, "since"@, v, false);
}

/// The pairs of [`BookmarksQuery`] carry its field under `until`.
proof fn lemma_bookmarks_query_until(q: BookmarksQuery)
    ensures
        crate::text::carries(q.pairs_view(), "until"@, match q.until { Some(x) => Some(crate::text::dec_int(x as int)), None => None }),
{
    reveal_strlit("lastFen");
    reveal_strlit("max");
    reveal_strlit("since");
    reveal_strlit("sort");
    reveal_strlit("until");
    assert("until"@.len() != "lastFen"@.len());
    assert("until"@.len() != "max"@.len());
    assert("until"@[0] != "since"@[0]);
    assert("until"@.len() != "sort"@.len());
    let p0 = crate::http::int_pair("since"@, crate::http::opt_i64(q.since));
    let p1 = crate::http::int_pair("until"@, crate::http::opt_i64(q.until));
    let p2 = crate::http::nat_pair("max"@, crate::http::opt_u32(q.max));
    let p3 = crate::http::bool_pair("lastFen"@, q.last_fen);
    let p4 = crate::http::opt_pair("sort"@, GameSort::opt_wire(q.sort));
    let s0 = p0;
    let s1 = s0 + p1;
    let s2 = s1 + p2;
    let s3 = s2 + p3;
    let s4 = s3 + p4;
    assert(q.pairs_view() == s4);
    let v = match q.until { Some(x) => Some(crate::text::dec_int(x as int)), None => None };
    crate::text::lemma_extend(s0, p1, "until"@, v, true);
    crate::text::lemma_extend(s1, p2, "until"@, v, false);
    crate::text::lemma_extend(s2, p3, "until"@, v, false);
    crate::text::lemma_extend(s3, p4, "until"@, v, false);
}

/// The pairs of [`BookmarksQuery`] carry its field under `max`.
proof fn lemma_bookmarks_query_max(q: BookmarksQuery)
    ensures
        crate::text::carries(q.pairs_view(), "max"@, match q.max { Some(x) => Some(crate::text::dec_nat(x as nat)), None => None }),
{
    reveal_strlit("lastFen");
    reveal_strlit("max");
    reveal_strlit("since");
    reveal_strlit("sort");
    reveal_strlit("until");
    assert("max"@.len() != "lastFen"@.len());
    assert("max"@.len() != "since"@.len());
    assert("max"@.len() != "sort"@.len());
    assert("max"@.len() != "until"@.len());
    let p0 = crate::http::int_pair("since"@, crate::http::opt_i64(q.since));
    let p1 = crate::http::int_pair("until"@, crate::http::opt_i64(q.until));
    let p2 = crate::http::nat_pair("max"@, crate::http::opt_u32(q.max));
    let p3 = crate::http::bool_pair("lastFen"@, q.last_fen);
    let p4 = crate::http::opt_pair("sort"@, GameSort::opt_wire(q.sort));
    let s0 = p0;
    let s1 = s0 + p1;
    let s2 = s1 + p2;
    let s3 = s2 + p3;
    let s4 = s3 + p4;
    assert(q.pairs_view() == s4);
    let v = match q.max { Some(x) => Some(crate::text::dec_nat(x as nat)), None => None };
    crate::text::lemma_extend(s0, p1, "max"@, None, false);
    crate::text::lemma_extend(s1, p2, "max"@, v, true);
    crate::text::lemma_extend(s2, p3, "max"@, v, false);
    crate::text::lemma_extend(s3, p4, "max"@, v, false);
}

/// The pairs of [`BookmarksQuery`] carry its field under `lastFen`.
proof fn lemma_bookmarks_query_last_fen(q: BookmarksQuery)
    ensures
        crate::text::carries(q.pairs_view(), "lastFen"@, match q.last_fen { Some(b) => Some(if b { seq!['t', 'r', 'u', 'e'] } else { seq!['f', 'a', 'l', 's', 'e'] }), None => None }),
{
    reveal_strlit("lastFen");
    reveal_strlit("max");
    reveal_strlit("since");
    reveal_strlit("sort");
    reveal_strlit("until");
    assert("lastFen"@.len() != "max"@.len());
    assert("lastFen"@.len() != "since"@.len());
    assert("lastFen"@.len() != "sort"@.len());
    assert("lastFen"@.len() != "until"@.len());
    let p0 = crate::http::int_pair("since"@, crate::http::opt_i64(q.since));
    let p1 = crate::http::int_pair("until"@, crate::http::opt_i64(q.until));
    let p2 = crate::http::nat_pair("max"@, crate::http::opt_u32(q.max));
    let p3 = crate::http::bool_pair("lastFen"@, q.last_fen);
    let p4 = crate::http::opt_pair("sort"@, GameSort::opt_wire(q.sort));
    let s0 = p0;
    let s1 = s0 + p1;
    let s2 = s1 + p2;
    let s3 = s2 + p3;
    let s4 = s3 + p4;
    assert(q.pairs_view() == s4);
    let v = match q.last_fen { Some(b) => Some(if b { seq!['t', 'r', 'u', 'e'] } else { seq!['f', 'a', 'l', 's', 'e'] }), None => None };
    crate::text::lemma_extend(s0, p1, "lastFen"@, None, false);
    crate::text::lemma_extend(s1, p2, "lastFen"@, None, false);
    crate::text::lemma_extend(s2, p3, "lastFen"@, v, true);
    crate::text::lemma_extend(s3, p4, "lastFen"@, v, false);
}

/// The pairs of [`BookmarksQuery`] carry its field under `sort`.
proof fn lemma_bookmarks_query_sort(q: BookmarksQuery)
    ensures
        crate::text::carries(q.pairs_view(), "sort"@, GameSort::opt_wire(q.sort)),
{
    reveal_strlit("lastFen");
    reveal_strlit("max");
    reveal_strlit("since");
    reveal_strlit("sort");
    reveal_strlit("until");
    assert("sort"@.len() != "lastFen"@.len());
    assert("sort"@.len() != "max"@.len());
    assert("sort"@.len() != "since"@.len());
    assert("sort"@.len() != "until"@.len());
    let p0 = crate::http::int_pair("since"@, crate::http::opt_i64(q.since));
    let p1 = crate::http::int_pair("until"@, crate::http::opt_i64(q.until));
    let p2 = crate::http::nat_pair("max"@, crate::http::opt_u32(q.max));
    let p3 = crate::http::bool_pair("lastFen"@, q.last_fen);
    let p4 = crate::http::opt_pair("sort"@, GameSort::opt_wire(q.sort));
    let s0 = p0;
    let s1 = s0 + p1;
    let s2 = s1 + p2;
    let s3 = s2 + p3;
    let s4 = s3 + p4;
    assert(q.pairs_view() == s4);
    let v = GameSort::opt_wire(q.sort);
    crate::text::lemma_extend(s0, p1, "sort"@, None, false);
    crate::text::lemma_extend(s1, p2, "sort"@, None, false);
    crate::text::lemma_extend(s2, p3, "sort"@, None, false);
    crate::text::lemma_extend(s3, p4, "sort"@, v, true);
}

/// The pairs of [`BookmarksQuery`] carry each of its fields under that field's own
/// key (`since`, `until`, `max`, `lastFen`, `sort`), with the value given to it, and a key only when its field is set.
pub proof fn lemma_bookmarks_query_carries_fields(q: BookmarksQuery)
    ensures
        crate::text::carries(q.pairs_view(), "since"@, match q.since { Some(x) => Some(crate::text::dec_int(x as int)), None => None }),
        crate::text::carries(q.pairs_view(), "until"@, match q.until { Some(x) => Some(crate::text::dec_int(x as int)), None => None }),
        crate::text::carries(q.pairs_view(), "max"@, match q.max { Some(x) => Some(crate::text::dec_nat(x as nat)), None => None }),
        crate::text::carries(q.pairs_view(), "lastFen"@, match q.last_fen { Some(b) => Some(if b { seq!['t', 'r', 'u', 'e'] } else { seq!['f', 'a', 'l', 's', 'e'] }), None => None }),
        crate::text::carries(q.pairs_view(), "sort"@, GameSort::opt_wire(q.sort)),
{
    lemma_bookmarks_query_since(q);
    lemma_bookmarks_query_until(q);
    lemma_bookmarks_query_max(q);
    lemma_bookmarks_query_last_fen(q);
    lemma_bookmarks_query_sort(q);
}

impl BookmarksQuery {
    /// The query pairs, in order.
    pub open spec fn pairs_view(self) -> crate::text::Pairs {
        crate::http::int_pair("since"@, crate::http::opt_i64(self.since))
            + crate::http::int_pair("until"@, crate::http::opt_i64(self.until))
            + crate::http::nat_pair("max"@, crate::http::opt_u32(self.max))
            + crate::http::bool_pair("lastFen"@, self.last_fen)
            + crate::http::opt_pair("sort"@, GameSort::opt_wire(self.sort))
    }

    /// The query pairs.
    pub fn pairs(&self) -> (r: Vec<(String, String)>)
        ensures
            r.deep_view() == self.pairs_view(),
    {
        let mut out: Vec<(String, String)> = Vec::new();
        crate::http::push_opt_i64(&mut out, "since", self.since);
        crate::http::push_opt_i64(&mut out, "until", self.until);
        crate::http::push_opt_u32(&mut out, "max", self.max);
        crate::http::push_opt_bool(&mut out, "lastFen", self.last_fen);
        match self.sort {
            Some(x) => crate::http::push_pair(&mut out, "sort", String::from_str(x.as_str())),
            None => {},
        }
        assert(out.deep_view() =~= self.pairs_view());
        out
    }

    /// The query with every filter unset.
    pub open spec fn blank() -> Self {
        BookmarksQuery { since: None, until: None, max: None, last_fen: None, sort: None }
    }
}

impl Default for BookmarksQuery {
    /// Every filter unset.
    fn default() -> (r: Self)
        ensures
            r == Self::blank(),
    {
        BookmarksQuery { since: None, until: None, max: None, last_fen: None, sort: None }
    }
}

/// Builder for exporting bookmarked games (`GET /api/games/export/bookmarks`).
#[derive(Debug)]
pub struct ExportBookmarksRequest<'a> {
    client: &'a LichessClient,
    query: BookmarksQuery,
    export: GameExportOptions,
}

impl<'a> ExportBookmarksRequest<'a> {
    /// The client the builder is bound to.
    pub closed spec fn client_of(&self) -> &'a LichessClient {
        self.client
    }

    /// The filters.
    pub closed spec fn query_of(&self) -> BookmarksQuery {
        self.query
    }

    /// The export-format options.
    pub closed spec fn export_of(&self) -> GameExportOptions {
        self.export
    }

    /// Creates the request builder.
    pub fn new(client: &'a LichessClient) -> (r: Self)
        ensures
            r.client_of() == client,
            r.query_of() == BookmarksQuery::blank(),
            r.export_of() == GameExportOptions::blank(),
    {
        ExportBookmarksRequest {
            client,
            query: BookmarksQuery::default(),
            export: GameExportOptions::default(),
        }
    }

    /// Only games played since this timestamp (Unix milliseconds).
    pub fn since(self, timestamp: i64) -> (r: Self)
        ensures
            r.query_of() == (BookmarksQuery { since: Some(timestamp), ..self.query_of() }),
            r.client_of() == self.client_of(),
            r.export_of() == self.export_of(),
    {
        let mut r = self;
        r.query.since = Some(timestamp);
        r
    }

    /// Only games played until this timestamp (Unix milliseconds).
    pub fn until(self, timestamp: i64) -> (r: Self)
        ensures
            r.query_of() == (BookmarksQuery { until: Some(timestamp), ..self.query_of() }),
            r.client_of() == self.client_of(),
            r.export_of() == self.export_of(),
    {
        let mut r = self;
        r.query.until = Some(timestamp);
        r
    }

    /// Limits the number of games downloaded.
    pub fn max(self, count: u32) -> (r: Self)
        ensures
            r.query_of() == (BookmarksQuery { max: Some(count), ..self.query_of() }),
            r.client_of() == self.client_of(),
            r.export_of() == self.export_of(),
    {
        let mut r = self;
        r.query.max = Some(count);
        r
    }

    /// Include the X-FEN of each game's last position.
    pub fn last_fen(self, value: bool) -> (r: Self)
        ensures
            r.query_of() == (BookmarksQuery { last_fen: Some(value), ..self.query_of() }),
            r.client_of() == self.client_of(),
            r.export_of() == self.export_of(),
    {
        let mut r = self;
        r.query.last_fen = Some(value);
        r
    }

    /// Sort order (defaults to most-recent-first).
    pub fn sort(self, sort: GameSort) -> (r: Self)
        ensures
            r.query_of() == (BookmarksQuery { sort: Some(sort), ..self.query_of() }),
            r.client_of() == self.client_of(),
            r.export_of() == self.export_of(),
    {
        let mut r = self;
        r.query.sort = Some(sort);
        r
    }

    /// Sets the shared export-format options (moves, clocks, evals, …).
    pub fn export(self, options: GameExportOptions) -> (r: Self)
        ensures
            r.export_of() == options,
            r.client_of() == self.client_of(),
            r.query_of() == self.query_of(),
    {
        let mut r = self;
        r.export = options;
        r
    }

    /// Executes the export, streaming games as NDJSON.
    pub fn stream(self) -> (r: ApiRequest)
        ensures
            r@ == crate::http::bare(Method::Get, Host::Default, "/api/games/export/bookmarks"@)
                .with_accept(Accept::Ndjson)
                .with_query(self.query_of().pairs_view())
                .with_query(self.export_of().pairs_view()),
    {
        let path = String::from_str("/api/games/export/bookmarks");
        self.client.request(Method::Get, Host::Default, path)
            .accept(Accept::Ndjson)
            .query(self.query.pairs())
            .query(self.export.pairs())
    }

    /// Executes the export, returning all games as one PGN string.
    pub fn pgn(self) -> (r: ApiRequest)
        ensures
            r@ == crate::http::bare(Method::Get, Host::Default, "/api/games/export/bookmarks"@)
                .with_accept(Accept::Pgn)
                .with_query(self.query_of().pairs_view())
                .with_query(self.export_of().pairs_view()),
    {
        let path = String::from_str("/api/games/export/bookmarks");
        self.client.request(Method::Get, Host::Default, path)
            .accept(Accept::Pgn)
            .query(self.query.pairs())
            .query(self.export.pairs())
    }
}

/// Builder for exporting a user's current game
/// (`GET /api/user/{username}/current-game`).
#[derive(Debug)]
pub struct CurrentGameRequest<'a> {
    client: &'a LichessClient,
    username: &'a str,
    export: GameExportOptions,
}

impl<'a> CurrentGameRequest<'a> {
    /// The client the builder is bound to.
    pub closed spec fn client_of(&self) -> &'a LichessClient {
        self.client
    }

    /// The user whose current game is exported.
    pub closed spec fn username_of(&self) -> &'a str {
        self.username
    }

    /// The export-format options.
    pub closed spec fn export_of(&self) -> GameExportOptions {
        self.export
    }

    /// Creates the request builder.
    pub fn new(client: &'a LichessClient, username: &'a str) -> (r: Self)
        ensures
            r.client_of() == client,
            r.username_of() == username,
            r.export_of() == GameExportOptions::blank(),
    {
        CurrentGameRequest { client, username, export: GameExportOptions::default() }
    }

    /// Sets the shared export-format options (moves, clocks, evals, …).
    pub fn export(self, options: GameExportOptions) -> (r: Self)
        ensures
            r.export_of() == options,
            r.client_of() == self.client_of(),
            r.username_of() == self.username_of(),
    {
        let mut r = self;
        r.export = options;
        r
    }

    /// Executes the export, returning the game as JSON.
    pub fn json(self) -> (r: ApiRequest)
        ensures
            r@ == crate::http::bare(
                Method::Get,
                Host::Default,
                "/api/user/"@ + crate::text::segment_text(self.username_of()@) + "/current-game"@,
            )
                .with_accept(Accept::Json)
                .with_query(self.export_of().pairs_view()),
    {
        let path = crate::http::path1("/api/user/", self.username, "/current-game");
        self.client.request(Method::Get, Host::Default, path)
            .accept(Accept::Json)
            .query(self.export.pairs())
    }

    /// Executes the export, returning the game as a PGN string.
    pub fn pgn(self) -> (r: ApiRequest)
        ensures
            r@ == crate::http::bare(
                Method::Get,
                Host::Default,
                "/api/user/"@ + crate::text::segment_text(self.username_of()@) + "/current-game"@,
            )
                .with_accept(Accept::Pgn)
                .with_query(self.export_of().pairs_view()),
    {
        let path = crate::http::path1("/api/user/", self.username, "/current-game");
        self.client.request(Method::Get, Host::Default, path)
            .accept(Accept::Pgn)
            .query(self.export.pairs())
    }
}

} // verus!
