//! The Games API: export games (JSON, NDJSON, or PGN) and import PGN.
//!
//! Reached through [`LichessClient::games`].

mod export;

pub use export::{
    BookmarksQuery, CurrentGameRequest, ExportBookmarksRequest, ExportByIdsRequest,
    GameExportRequest, GameSort, SingleGameFilters, UserGamesQuery, UserGamesRequest,
};

use vstd::prelude::*;

use crate::client::LichessClient;
use crate::config::Host;
use crate::http::{Accept, ApiRequest, Method};
use crate::text::{join_seqs, join_strs, str_views};

verus! {

/// Accessor for the Games API.
#[derive(Debug)]
pub struct GamesApi<'a> {
    client: &'a LichessClient,
}

impl<'a> GamesApi<'a> {
    /// The client the accessor is bound to.
    pub closed spec fn client_of(&self) -> &'a LichessClient {
        self.client
    }

    /// Binds the accessor to a client.
    pub fn new(client: &'a LichessClient) -> (r: Self)
        ensures
            r.client_of() == client,
    {
        GamesApi { client }
    }

    /// Starts a single-game export. `GET /game/export/{gameId}`
    ///
    /// Finish with [`json`](GameExportRequest::json) or
    /// [`pgn`](GameExportRequest::pgn).
    pub fn export(&self, game_id: &'a str) -> (r: GameExportRequest<'a>)
        ensures
            r.client_of() == self.client_of(),
            r.game_id_of() == game_id,
            r.filters_of() == SingleGameFilters::blank(),
            r.export_of() == crate::model::GameExportOptions::blank(),
    {
        GameExportRequest::new(self.client, game_id)
    }

    /// Starts a user's games export. `GET /api/games/user/{username}`
    ///
    /// Finish with [`stream`](UserGamesRequest::stream) or
    /// [`pgn`](UserGamesRequest::pgn).
    pub fn export_user(&self, username: &'a str) -> (r: UserGamesRequest<'a>)
        ensures
            r.client_of() == self.client_of(),
            r.username_of() == username,
            r.query_of() == UserGamesQuery::blank(),
            r.export_of() == crate::model::GameExportOptions::blank(),
    {
        UserGamesRequest::new(self.client, username)
    }

    /// Starts an export of the game a user is currently playing, if any.
    ///
    /// Finish with [`json`](CurrentGameRequest::json) or
    /// [`pgn`](CurrentGameRequest::pgn). `GET /api/user/{username}/current-game`
    pub fn current_game(&self, username: &'a str) -> (r: CurrentGameRequest<'a>)
        ensures
            r.client_of() == self.client_of(),
            r.username_of() == username,
            r.export_of() == crate::model::GameExportOptions::blank(),
    {
        CurrentGameRequest::new(self.client, username)
    }

    /// Starts an export of several games by id. `POST /api/games/export/_ids`
    ///
    /// Finish with [`stream`](ExportByIdsRequest::stream) or
    /// [`pgn`](ExportByIdsRequest::pgn).
    pub fn export_by_ids(&self, ids: &[&str]) -> (r: ExportByIdsRequest<'a>)
        ensures
            r.client_of() == self.client_of(),
            r.ids_of()@ == join_seqs(str_views(ids@), ","@),
            r.export_of() == crate::model::GameExportOptions::blank(),
    {
        ExportByIdsRequest::new(self.client, ids)
    }

    /// Starts an export of the authenticated user's bookmarked games.
    ///
    /// Finish with [`stream`](ExportBookmarksRequest::stream) or
    /// [`pgn`](ExportBookmarksRequest::pgn). `GET /api/games/export/bookmarks`
    pub fn export_bookmarks(&self) -> (r: ExportBookmarksRequest<'a>)
        ensures
            r.client_of() == self.client_of(),
            r.query_of() == BookmarksQuery::blank(),
            r.export_of() == crate::model::GameExportOptions::blank(),
    {
        ExportBookmarksRequest::new(self.client)
    }

    /// Imports a game from its PGN.
    ///
    /// Requires authentication. `POST /api/import`
    pub fn import_game(&self, pgn: &str) -> (r: ApiRequest)
        ensures
            r@ == crate::http::bare(Method::Post, Host::Default, "/api/import"@)
                .with_body(crate::http::BodyView::Form(seq![("pgn"@, pgn@)])),
    {
        let path = String::from_str("/api/import");
        let mut form: Vec<(String, String)> = Vec::new();
        crate::http::push_pair(&mut form, "pgn", String::from_str(pgn));
        assert(form.deep_view() =~= seq![("pgn"@, pgn@)]);
        self.client.request(Method::Post, Host::Default, path).form(form)
    }

    /// Gets the games the authenticated user is currently playing.
    ///
    /// `nb` limits the number of games returned. `GET /api/account/playing`
    pub fn now_playing(&self, nb: Option<u32>) -> (r: ApiRequest)
        ensures
            r@ == crate::http::bare(Method::Get, Host::Default, "/api/account/playing"@)
                .with_query(crate::http::nat_pair("nb"@, crate::http::opt_u32(nb))),
    {
        let path = String::from_str("/api/account/playing");
        let mut q: Vec<(String, String)> = Vec::new();
        crate::http::push_opt_u32(&mut q, "nb", nb);
        assert(q.deep_view() =~= crate::http::nat_pair("nb"@, crate::http::opt_u32(nb)));
        self.client.request(Method::Get, Host::Default, path).query(q)
    }

    /// Gets the spectator chat of a game. `GET /api/game/{gameId}/chat`
    pub fn chat(&self, game_id: &str) -> (r: ApiRequest)
        ensures
            r@ == crate::http::bare(
                Method::Get,
                Host::Default,
                "/api/game/"@ + crate::text::segment_text(game_id@) + "/chat"@,
            ),
    {
        let path = crate::http::path1("/api/game/", game_id, "/chat");
        self.client.request(Method::Get, Host::Default, path)
    }

    /// Bookmarks a game for the authenticated user. `POST /bookmark/{gameId}`
    ///
    /// With `set` as `None` the bookmark is toggled (added if absent, removed if
    /// present); `Some(true)` adds it and `Some(false)` removes it, making the
    /// call idempotent. Requires the `preference:write` scope.
    pub fn bookmark(&self, game_id: &str, set: Option<bool>) -> (r: ApiRequest)
        ensures
            r@ == crate::http::bare(
                Method::Post,
                Host::Default,
                "/bookmark/"@ + crate::text::segment_text(game_id@) + ""@,
            )
                .with_query(crate::http::bool_pair("v"@, set)),
    {
        let path = crate::http::path1("/bookmark/", game_id, "");
        let mut q: Vec<(String, String)> = Vec::new();
        crate::http::push_opt_bool(&mut q, "v", set);
        assert(q.deep_view() =~= crate::http::bool_pair("v"@, set));
        self.client.request(Method::Post, Host::Default, path).query(q)
    }

    /// Streams the authenticated user's imported games (NDJSON).
    /// `GET /api/games/export/imports`
    pub fn export_imports(&self) -> (r: ApiRequest)
        ensures
            r@ == crate::http::bare(Method::Get, Host::Default, "/api/games/export/imports"@)
                .with_accept(Accept::Ndjson),
    {
        let path = String::from_str("/api/games/export/imports");
        self.client.request(Method::Get, Host::Default, path).accept(Accept::Ndjson)
    }

    /// Streams a game's moves as they are played. `GET /api/stream/game/{id}`
    pub fn stream_moves(&self, game_id: &str) -> (r: ApiRequest)
        ensures
            r@ == crate::http::bare(
                Method::Get,
                Host::Default,
                "/api/stream/game/"@ + crate::text::segment_text(game_id@) + ""@,
            ),
    {
        let path = crate::http::path1("/api/stream/game/", game_id, "");
        self.client.request(Method::Get, Host::Default, path)
    }

    /// Streams games played by the given users as they start/finish (NDJSON).
    /// `POST /api/stream/games-by-users`
    pub fn stream_by_users(&self, usernames: &[&str]) -> (r: ApiRequest)
        ensures
            r@ == crate::http::bare(Method::Post, Host::Default, "/api/stream/games-by-users"@)
                .with_body(crate::http::BodyView::Text(join_seqs(str_views(usernames@), ","@))),
    {
        let path = String::from_str("/api/stream/games-by-users");
        self.client.request(Method::Post, Host::Default, path).text_body(join_strs(usernames, ","))
    }

    /// Streams a custom set of games by id (NDJSON).
    /// `POST /api/stream/games/{streamId}`
    pub fn stream_by_ids(&self, stream_id: &str, ids: &[&str]) -> (r: ApiRequest)
        ensures
            r@ == crate::http::bare(
                Method::Post,
                Host::Default,
                "/api/stream/games/"@ + crate::text::segment_text(stream_id@) + ""@,
            )
                .with_body(crate::http::BodyView::Text(join_seqs(str_views(ids@), ","@))),
    {
        let path = crate::http::path1("/api/stream/games/", stream_id, "");
        self.client.request(Method::Post, Host::Default, path).text_body(join_strs(ids, ","))
    }

    /// Adds game ids to an existing game stream.
    /// `POST /api/stream/games/{streamId}/add`
    pub fn add_to_stream(&self, stream_id: &str, ids: &[&str]) -> (r: ApiRequest)
        ensures
            r@ == crate::http::bare(
                Method::Post,
                Host::Default,
                "/api/stream/games/"@ + crate::text::segment_text(stream_id@) + "/add"@,
            )
                .with_body(crate::http::BodyView::Text(join_seqs(str_views(ids@), ","@))),
    {
        let path = crate::http::path1("/api/stream/games/", stream_id, "/add");
        self.client.request(Method::Post, Host::Default, path).text_body(join_strs(ids, ","))
    }
}

impl LichessClient {
    /// Games API: export and import games.
    pub fn games(&self) -> (r: GamesApi<'_>)
        ensures
            r.client_of() == self,
    {
        GamesApi::new(self)
    }
}

} // verus!
