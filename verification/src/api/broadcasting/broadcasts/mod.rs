//! The Broadcasts API: official broadcasts, rounds, players, and PGN.
//!
//! Reached through [`LichessClient::broadcasts`].

mod round;
mod tour;

pub use round::{BroadcastCustomPoints, BroadcastCustomScoring, RoundForm, RoundRequest};
pub use tour::{BroadcastGrouping, BroadcastTourInfo, TourForm, TourRequest};

use vstd::prelude::*;

use crate::client::LichessClient;
use crate::config::Host;
use crate::http::{ApiRequest, Method};
use crate::model::PgnExportOptions;

verus! {

/// Accessor for the Broadcasts API.
#[derive(Debug)]
pub struct BroadcastsApi<'a> {
    client: &'a LichessClient,
}

impl<'a> BroadcastsApi<'a> {
    /// The client the accessor is bound to.
    pub closed spec fn client_of(&self) -> &'a LichessClient {
        self.client
    }

    /// Binds the accessor to a client.
    pub fn new(client: &'a LichessClient) -> (r: Self)
        ensures
            r.client_of() == client,
    {
        BroadcastsApi { client }
    }

    /// Streams official broadcasts. `GET /api/broadcast`
    ///
    /// `nb` limits the count; `html` embeds rendered descriptions; `live`
    /// restricts to broadcasts with an ongoing round.
    pub fn official(&self, nb: Option<u32>, html: Option<bool>, live: Option<bool>) -> (r: ApiRequest)
        ensures
            r@ == crate::http::bare(Method::Get, Host::Default, "/api/broadcast"@)
                .with_query(
                    crate::http::nat_pair("nb"@, crate::http::opt_u32(nb))
                        + crate::http::bool_pair("html"@, html)
                        + crate::http::bool_pair("live"@, live),
                ),
    {
        let path = String::from_str("/api/broadcast");
        let mut q: Vec<(String, String)> = Vec::new();
        crate::http::push_opt_u32(&mut q, "nb", nb);
        crate::http::push_opt_bool(&mut q, "html", html);
        crate::http::push_opt_bool(&mut q, "live", live);
        assert(q.deep_view() =~= crate::http::nat_pair("nb"@, crate::http::opt_u32(nb))
                + crate::http::bool_pair("html"@, html)
                + crate::http::bool_pair("live"@, live));
        self.client.request(Method::Get, Host::Default, path).query(q)
    }

    /// Gets the top broadcasts (active, upcoming, past). `GET /api/broadcast/top`
    ///
    /// `page` selects a page; `html` embeds rendered descriptions.
    pub fn top(&self, page: Option<u32>, html: Option<bool>) -> (r: ApiRequest)
        ensures
            r@ == crate::http::bare(Method::Get, Host::Default, "/api/broadcast/top"@)
                .with_query(
                    crate::http::nat_pair("page"@, crate::http::opt_u32(page))
                        + crate::http::bool_pair("html"@, html),
                ),
    {
        let path = String::from_str("/api/broadcast/top");
        let mut q: Vec<(String, String)> = Vec::new();
        crate::http::push_opt_u32(&mut q, "page", page);
        crate::http::push_opt_bool(&mut q, "html", html);
        assert(q.deep_view() =~= crate::http::nat_pair("page"@, crate::http::opt_u32(page))
                + crate::http::bool_pair("html"@, html));
        self.client.request(Method::Get, Host::Default, path).query(q)
    }

    /// Searches broadcasts. `GET /api/broadcast/search`
    pub fn search(&self, query: &str, page: u32) -> (r: ApiRequest)
        ensures
            r@ == crate::http::bare(Method::Get, Host::Default, "/api/broadcast/search"@)
                .with_query(
                    seq![("q"@, query@)] + seq![("page"@, crate::text::dec_nat(page as nat))],
                ),
    {
        let path = String::from_str("/api/broadcast/search");
        let mut q: Vec<(String, String)> = Vec::new();
        crate::http::push_pair(&mut q, "q", String::from_str(query));
        crate::http::push_pair(&mut q, "page", crate::text::u64_to_string(page as u64));
        assert(q.deep_view() =~= seq![("q"@, query@)]
                + seq![("page"@, crate::text::dec_nat(page as nat))]);
        self.client.request(Method::Get, Host::Default, path).query(q)
    }

    /// Streams broadcasts created by a user. `GET /api/broadcast/by/{username}`
    ///
    /// `page` selects a page; `html` embeds rendered descriptions.
    ///
    /// Requires an OAuth token with (at least) the
    /// [`study:read`](crate::api::auth::oauth::Scope::StudyRead) scope.
    pub fn by_user(&self, username: &str, page: Option<u32>, html: Option<bool>) -> (r: ApiRequest)
        ensures
            r@ == crate::http::bare(
                Method::Get,
                Host::Default,
                "/api/broadcast/by/"@ + crate::text::segment_text(username@) + ""@,
            )
                .with_query(
                    crate::http::nat_pair("page"@, crate::http::opt_u32(page))
                        + crate::http::bool_pair("html"@, html),
                ),
    {
        let path = crate::http::path1("/api/broadcast/by/", username, "");
        let mut q: Vec<(String, String)> = Vec::new();
        crate::http::push_opt_u32(&mut q, "page", page);
        crate::http::push_opt_bool(&mut q, "html", html);
        assert(q.deep_view() =~= crate::http::nat_pair("page"@, crate::http::opt_u32(page))
                + crate::http::bool_pair("html"@, html));
        self.client.request(Method::Get, Host::Default, path).query(q)
    }

    /// Streams the authenticated user's broadcast rounds.
    ///
    /// `nb` limits the number of rounds. `GET /api/broadcast/my-rounds`
    ///
    /// Requires an OAuth token with (at least) the
    /// [`study:read`](crate::api::auth::oauth::Scope::StudyRead) scope.
    pub fn my_rounds(&self, nb: Option<u32>) -> (r: ApiRequest)
        ensures
            r@ == crate::http::bare(Method::Get, Host::Default, "/api/broadcast/my-rounds"@)
                .with_query(crate::http::nat_pair("nb"@, crate::http::opt_u32(nb))),
    {
        let path = String::from_str("/api/broadcast/my-rounds");
        let mut q: Vec<(String, String)> = Vec::new();
        crate::http::push_opt_u32(&mut q, "nb", nb);
        assert(q.deep_view() =~= crate::http::nat_pair("nb"@, crate::http::opt_u32(nb)));
        self.client.request(Method::Get, Host::Default, path).query(q)
    }

    /// Gets a broadcast tournament with its rounds.
    /// `GET /api/broadcast/{broadcastTournamentId}`
    ///
    /// Requires an OAuth token with (at least) the
    /// [`study:read`](crate::api::auth::oauth::Scope::StudyRead) scope.
    pub fn get_tournament(&self, tournament_id: &str) -> (r: ApiRequest)
        ensures
            r@ == crate::http::bare(
                Method::Get,
                Host::Default,
                "/api/broadcast/"@ + crate::text::segment_text(tournament_id@) + ""@,
            ),
    {
        let path = crate::http::path1("/api/broadcast/", tournament_id, "");
        self.client.request(Method::Get, Host::Default, path)
    }

    /// Gets a round with its games.
    /// `GET /api/broadcast/{tourSlug}/{roundSlug}/{roundId}`
    ///
    /// Requires an OAuth token with (at least) the
    /// [`study:read`](crate::api::auth::oauth::Scope::StudyRead) scope.
    pub fn round(&self, tour_slug: &str, round_slug: &str, round_id: &str) -> (r: ApiRequest)
        ensures
            r@ == crate::http::bare(
                Method::Get,
                Host::Default,
                "/api/broadcast/"@
                    + crate::text::segment_text(tour_slug@)
                    + "/"@
                    + crate::text::segment_text(
                    round_slug@,
                ) + "/"@ + crate::text::segment_text(round_id@),
            ),
    {
        let mut path = crate::http::path2("/api/broadcast/", tour_slug, "/", round_slug, "/");
        crate::text::push_segment(&mut path, round_id);
        self.client.request(Method::Get, Host::Default, path)
    }

    /// Exports a round as PGN. `GET /api/broadcast/round/{roundId}.pgn`
    ///
    /// Requires an OAuth token with (at least) the
    /// [`study:read`](crate::api::auth::oauth::Scope::StudyRead) scope.
    pub fn round_pgn(&self, round_id: &str, options: &PgnExportOptions) -> (r: ApiRequest)
        ensures
            r@ == crate::http::bare(
                Method::Get,
                Host::Default,
                "/api/broadcast/round/"@ + crate::text::segment_text(round_id@) + ".pgn"@,
            )
                .with_query(options.pairs_view()),
    {
        let path = crate::http::path1("/api/broadcast/round/", round_id, ".pgn");
        let q = options.pairs();
        self.client.request(Method::Get, Host::Default, path).query(q)
    }

    /// Exports all rounds of a tournament as PGN.
    /// `GET /api/broadcast/{broadcastTournamentId}.pgn`
    ///
    /// For real-time updates about an ongoing tournament, prefer the round PGN
    /// stream ([`Self::stream_round_pgn`]), tournament PGN stream
    /// ([`Self::stream_tour_pgn`]), or group PGN stream
    /// ([`Self::stream_group_pgn`]) instead.
    pub fn all_rounds_pgn(&self, tournament_id: &str, options: &PgnExportOptions) -> (r: ApiRequest)
        ensures
            r@ == crate::http::bare(
                Method::Get,
                Host::Default,
                "/api/broadcast/"@ + crate::text::segment_text(tournament_id@) + ".pgn"@,
            )
                .with_query(options.pairs_view()),
    {
        let path = crate::http::path1("/api/broadcast/", tournament_id, ".pgn");
        let q = options.pairs();
        self.client.request(Method::Get, Host::Default, path).query(q)
    }

    /// Streams a round's PGN as games are updated (text; stays open while the
    /// round is live). `GET /api/stream/broadcast/round/{roundId}.pgn`
    ///
    /// Requires an OAuth token with (at least) the
    /// [`study:read`](crate::api::auth::oauth::Scope::StudyRead) scope.
    pub fn stream_round_pgn(&self, round_id: &str, options: &PgnExportOptions) -> (r: ApiRequest)
        ensures
            r@ == crate::http::bare(
                Method::Get,
                Host::Default,
                "/api/stream/broadcast/round/"@ + crate::text::segment_text(round_id@) + ".pgn"@,
            )
                .with_query(options.pairs_view()),
    {
        let path = crate::http::path1("/api/stream/broadcast/round/", round_id, ".pgn");
        let q = options.pairs();
        self.client.request(Method::Get, Host::Default, path).query(q)
    }

    /// Streams the PGN of all ongoing rounds of a broadcast group as games are
    /// updated (text; stays open while rounds are live).
    /// `GET /api/stream/broadcast/group/{broadcastGroupId}.pgn`
    ///
    /// Requires an OAuth token with (at least) the
    /// [`study:read`](crate::api::auth::oauth::Scope::StudyRead) scope.
    pub fn stream_group_pgn(&self, group_id: &str, options: &PgnExportOptions) -> (r: ApiRequest)
        ensures
            r@ == crate::http::bare(
                Method::Get,
                Host::Default,
                "/api/stream/broadcast/group/"@ + crate::text::segment_text(group_id@) + ".pgn"@,
            )
                .with_query(options.pairs_view()),
    {
        let path = crate::http::path1("/api/stream/broadcast/group/", group_id, ".pgn");
        let q = options.pairs();
        self.client.request(Method::Get, Host::Default, path).query(q)
    }

    /// Streams the PGN of all ongoing rounds of a broadcast tournament as games
    /// are updated (text; stays open while rounds are live).
    /// `GET /api/stream/broadcast/tour/{broadcastTourId}.pgn`
    ///
    /// Requires an OAuth token with (at least) the
    /// [`study:read`](crate::api::auth::oauth::Scope::StudyRead) scope.
    pub fn stream_tour_pgn(&self, tour_id: &str, options: &PgnExportOptions) -> (r: ApiRequest)
        ensures
            r@ == crate::http::bare(
                Method::Get,
                Host::Default,
                "/api/stream/broadcast/tour/"@ + crate::text::segment_text(tour_id@) + ".pgn"@,
            )
                .with_query(options.pairs_view()),
    {
        let path = crate::http::path1("/api/stream/broadcast/tour/", tour_id, ".pgn");
        let q = options.pairs();
        self.client.request(Method::Get, Host::Default, path).query(q)
    }

    /// Pushes PGN games to a round.
    /// `POST /api/broadcast/round/{roundId}/push`
    pub fn push_pgn(&self, round_id: &str, pgn: &str) -> (r: ApiRequest)
        ensures
            r@ == crate::http::bare(
                Method::Post,
                Host::Default,
                "/api/broadcast/round/"@ + crate::text::segment_text(round_id@) + "/push"@,
            )
                .with_body(crate::http::BodyView::Text(pgn@)),
    {
        let path = crate::http::path1("/api/broadcast/round/", round_id, "/push");
        self.client.request(Method::Post, Host::Default, path).text_body(String::from_str(pgn))
    }

    /// Resets a round, removing all its games.
    /// `POST /api/broadcast/round/{roundId}/reset`
    pub fn reset_round(&self, round_id: &str) -> (r: ApiRequest)
        ensures
            r@ == crate::http::bare(
                Method::Post,
                Host::Default,
                "/api/broadcast/round/"@ + crate::text::segment_text(round_id@) + "/reset"@,
            ),
    {
        let path = crate::http::path1("/api/broadcast/round/", round_id, "/reset");
        self.client.request(Method::Post, Host::Default, path)
    }

    /// Lists the players of a broadcast. `GET /broadcast/{id}/players`
    pub fn players(&self, tournament_id: &str) -> (r: ApiRequest)
        ensures
            r@ == crate::http::bare(
                Method::Get,
                Host::Default,
                "/broadcast/"@ + crate::text::segment_text(tournament_id@) + "/players"@,
            ),
    {
        let path = crate::http::path1("/broadcast/", tournament_id, "/players");
        self.client.request(Method::Get, Host::Default, path)
    }

    /// Gets a single player of a broadcast.
    /// `GET /broadcast/{id}/players/{playerId}`
    pub fn player(&self, tournament_id: &str, player_id: &str) -> (r: ApiRequest)
        ensures
            r@ == crate::http::bare(
                Method::Get,
                Host::Default,
                "/broadcast/"@
                    + crate::text::segment_text(tournament_id@)
                    + "/players/"@
                    + crate::text::segment_text(player_id@)
                    + ""@,
            ),
    {
        let path = crate::http::path2("/broadcast/", tournament_id, "/players/", player_id, "");
        self.client.request(Method::Get, Host::Default, path)
    }

    /// Gets the team leaderboard of a broadcast.
    /// `GET /broadcast/{id}/teams/standings`
    pub fn team_standings(&self, tournament_id: &str) -> (r: ApiRequest)
        ensures
            r@ == crate::http::bare(
                Method::Get,
                Host::Default,
                "/broadcast/"@ + crate::text::segment_text(tournament_id@) + "/teams/standings"@,
            ),
    {
        let path = crate::http::path1("/broadcast/", tournament_id, "/teams/standings");
        self.client.request(Method::Get, Host::Default, path)
    }

    /// Starts building a new broadcast tournament. `POST /broadcast/new`
    pub fn create_tour(&self, name: &'a str) -> (r: TourRequest<'a>)
        ensures
            r.client_of() == self.client_of(),
            r.edit_id_of() is None,
            r.form_of() == TourForm::named(name),
            r.info_of() == BroadcastTourInfo::blank(),
            r.tiebreaks_of()@ == Seq::<&'a str>::empty(),
            r.grouping_of().name_of() is None,
            r.grouping_of().tours_of() is None,
            r.grouping_of().score_groups_of() == Seq::<&'a str>::empty(),
    {
        TourRequest::new(self.client, None, name)
    }

    /// Starts editing a broadcast tournament. `POST /broadcast/{id}/edit`
    pub fn update_tour(&self, tournament_id: &'a str, name: &'a str) -> (r: TourRequest<'a>)
        ensures
            r.client_of() == self.client_of(),
            r.edit_id_of() == Some(tournament_id),
            r.form_of() == TourForm::named(name),
            r.info_of() == BroadcastTourInfo::blank(),
            r.tiebreaks_of()@ == Seq::<&'a str>::empty(),
            r.grouping_of().name_of() is None,
            r.grouping_of().tours_of() is None,
            r.grouping_of().score_groups_of() == Seq::<&'a str>::empty(),
    {
        TourRequest::new(self.client, Some(tournament_id), name)
    }

    /// Starts creating a round under a tournament. `POST /broadcast/{id}/new`
    pub fn create_round(&self, tournament_id: &'a str, name: &'a str) -> (r: RoundRequest<'a>)
        ensures
            r.client_of() == self.client_of(),
            r.target_id_of() == tournament_id,
            !r.edit_of(),
            r.patch_of() is None,
            r.form_of() == RoundForm::named(name),
            r.custom_scoring_of() is None,
            r.team_custom_scoring_of() is None,
    {
        RoundRequest::new(self.client, tournament_id, false, name)
    }

    /// Starts editing a round. `POST /broadcast/round/{roundId}/edit`
    ///
    /// The edit endpoint **replaces** the round: any field left unset is blanked
    /// (dropping the existing sync source, start time, etc.). Call
    /// [`RoundRequest::patch`] with `true` to instead update only the fields you
    /// set and leave the rest untouched.
    pub fn update_round(&self, round_id: &'a str, name: &'a str) -> (r: RoundRequest<'a>)
        ensures
            r.client_of() == self.client_of(),
            r.target_id_of() == round_id,
            r.edit_of(),
            r.patch_of() is None,
            r.form_of() == RoundForm::named(name),
            r.custom_scoring_of() is None,
            r.team_custom_scoring_of() is None,
    {
        RoundRequest::new(self.client, round_id, true, name)
    }
}

impl LichessClient {
    /// Broadcasts API: tournaments, rounds, players, and PGN.
    pub fn broadcasts(&self) -> (r: BroadcastsApi<'_>)
        ensures
            r.client_of() == self,
    {
        BroadcastsApi::new(self)
    }
}

} // verus!
