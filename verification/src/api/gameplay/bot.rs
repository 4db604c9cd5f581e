//! The Bot API: play games as a bot account.
//!
//! Reached through [`LichessClient::bot`]. Shares the chat room and answer
//! types of the Board API.

use vstd::prelude::*;

use crate::api::gameplay::board::{yes_no, yes_no_text, ChatForm, LichessChatRoom};
use crate::client::LichessClient;
use crate::config::Host;
use crate::http::{ApiRequest, Method};

verus! {

/// Accessor for the Bot API.
#[derive(Debug)]
pub struct BotApi<'a> {
    client: &'a LichessClient,
}

/// A bot action on a game is a `POST` to `/api/bot/game/{gameId}/{action}` on
/// the main host, with no query and no body.
pub proof fn lemma_bot_action_path(game_id: &str, action: Seq<char>)
    ensures
        BotApi::action_view(game_id, action).method == Method::Post,
        BotApi::action_view(game_id, action).host == Host::Default,
        BotApi::action_view(game_id, action).path == seq!['/', 'a', 'p', 'i', '/', 'b', 'o', 't', '/', 'g', 'a', 'm', 'e', '/'] + game_id@ + seq!['/'] + action,
        BotApi::action_view(game_id, action).query.len() == 0,
        BotApi::action_view(game_id, action).body is Empty,
{
    assert("/api/bot/game/"@ =~= seq!['/', 'a', 'p', 'i', '/', 'b', 'o', 't', '/', 'g', 'a', 'm', 'e', '/']) by {
        reveal_strlit("/api/bot/game/");
    }
    assert("/"@ =~= seq!['/']) by {
        reveal_strlit("/");
    }
    assert(""@ =~= seq![]) by {
        reveal_strlit("");
    }
    assert(BotApi::action_view(game_id, action).path =~= seq!['/', 'a', 'p', 'i', '/', 'b', 'o', 't', '/', 'g', 'a', 'm', 'e', '/'] + game_id@ + seq!['/'] + action);
}

impl<'a> BotApi<'a> {
    /// The client the accessor is bound to.
    pub closed spec fn client_of(&self) -> &'a LichessClient {
        self.client
    }

    /// Binds the accessor to a client.
    pub fn new(client: &'a LichessClient) -> (r: Self)
        ensures
            r.client_of() == client,
    {
        BotApi { client }
    }

    /// Upgrades the authenticated account to a bot account (irreversible).
    /// `POST /api/bot/account/upgrade`
    pub fn upgrade_to_bot(&self) -> (r: ApiRequest)
        ensures
            r@ == crate::http::bare(Method::Post, Host::Default, "/api/bot/account/upgrade"@),
    {
        let path = String::from_str("/api/bot/account/upgrade");
        self.client.request(Method::Post, Host::Default, path)
    }

    /// Streams the bots that are online. `GET /api/bot/online`
    pub fn online(&self) -> (r: ApiRequest)
        ensures
            r@ == crate::http::bare(Method::Get, Host::Default, "/api/bot/online"@),
    {
        let path = String::from_str("/api/bot/online");
        self.client.request(Method::Get, Host::Default, path)
    }

    /// Streams the state of a game being played. `GET /api/bot/game/stream/{gameId}`
    pub fn stream_game(&self, game_id: &str) -> (r: ApiRequest)
        ensures
            r@ == crate::http::bare(
                Method::Get,
                Host::Default,
                "/api/bot/game/stream/"@ + game_id@ + ""@,
            ),
    {
        let path = crate::http::path1_raw("/api/bot/game/stream/", game_id, "");
        self.client.request(Method::Get, Host::Default, path)
    }

    /// Makes a move in a game, optionally offering a draw.
    /// `POST /api/bot/game/{gameId}/move/{move}`
    pub fn make_move(&self, game_id: &str, chess_move: &str, offering_draw: bool) -> (r: ApiRequest)
        ensures
            r@ == crate::http::bare(
                Method::Post,
                Host::Default,
                "/api/bot/game/"@ + game_id@ + "/move/"@ + chess_move@ + ""@,
            )
                .with_query(seq![("offeringDraw"@, crate::text::bool_text(offering_draw))]),
    {
        let mut path = crate::http::path1_raw("/api/bot/game/", game_id, "/move/");
        path.append(chess_move);
        path.append("");
        let mut q: Vec<(String, String)> = Vec::new();
        crate::http::push_pair(&mut q, "offeringDraw", crate::text::bool_to_string(offering_draw));
        assert(q.deep_view() =~= seq![("offeringDraw"@, crate::text::bool_text(offering_draw))]);
        self.client.request(Method::Post, Host::Default, path).query(q)
    }

    /// Aborts a game. `POST /api/bot/game/{gameId}/abort`
    pub fn abort(&self, game_id: &str) -> (r: ApiRequest)
        ensures
            r@ == Self::action_view(game_id, "abort"@),
    {
        self.post_action(game_id, "abort")
    }

    /// Resigns a game. `POST /api/bot/game/{gameId}/resign`
    pub fn resign(&self, game_id: &str) -> (r: ApiRequest)
        ensures
            r@ == Self::action_view(game_id, "resign"@),
    {
        self.post_action(game_id, "resign")
    }

    /// Claims victory when the opponent has left the game. `POST /api/bot/game/{gameId}/claim-victory`
    pub fn claim_victory(&self, game_id: &str) -> (r: ApiRequest)
        ensures
            r@ == Self::action_view(game_id, "claim-victory"@),
    {
        self.post_action(game_id, "claim-victory")
    }

    /// Claims a draw when the opponent has left the game. `POST /api/bot/game/{gameId}/claim-draw`
    pub fn claim_draw(&self, game_id: &str) -> (r: ApiRequest)
        ensures
            r@ == Self::action_view(game_id, "claim-draw"@),
    {
        self.post_action(game_id, "claim-draw")
    }

    /// Accepts (`true`) or declines (`false`) a draw offer.
    /// `POST /api/bot/game/{gameId}/draw/{yes|no}`
    pub fn handle_draw(&self, game_id: &str, accept: bool) -> (r: ApiRequest)
        ensures
            r@ == crate::http::bare(
                Method::Post,
                Host::Default,
                "/api/bot/game/"@ + game_id@ + "/draw/"@ + yes_no_text(accept),
            ),
    {
        let mut path = crate::http::path1_raw("/api/bot/game/", game_id, "/draw/");
        path.append(yes_no(accept));
        self.client.request(Method::Post, Host::Default, path)
    }

    /// Accepts (`true`) or declines (`false`) a takeback proposal.
    /// `POST /api/bot/game/{gameId}/takeback/{yes|no}`
    pub fn handle_takeback(&self, game_id: &str, accept: bool) -> (r: ApiRequest)
        ensures
            r@ == crate::http::bare(
                Method::Post,
                Host::Default,
                "/api/bot/game/"@ + game_id@ + "/takeback/"@ + yes_no_text(accept),
            ),
    {
        let mut path = crate::http::path1_raw("/api/bot/game/", game_id, "/takeback/");
        path.append(yes_no(accept));
        self.client.request(Method::Post, Host::Default, path)
    }

    /// Posts a message to the player or spectator chat of a game.
    /// `POST /api/bot/game/{gameId}/chat`
    pub fn write_chat(&self, game_id: &str, room: LichessChatRoom, text: &str) -> (r: ApiRequest)
        ensures
            r@ == crate::http::bare(
                Method::Post,
                Host::Default,
                "/api/bot/game/"@ + game_id@ + "/chat"@,
            )
                .with_body(crate::http::BodyView::Form((ChatForm { room, text }).pairs_view())),
    {
        let path = crate::http::path1_raw("/api/bot/game/", game_id, "/chat");
        let form = ChatForm { room, text };
        self.client.request(Method::Post, Host::Default, path).form(form.pairs())
    }

    /// Streams incoming events (game starts and finishes, challenges).
    /// `GET /api/stream/event`
    pub fn stream_events(&self) -> (r: ApiRequest)
        ensures
            r@ == crate::http::bare(Method::Get, Host::Default, "/api/stream/event"@),
    {
        let path = String::from_str("/api/stream/event");
        self.client.request(Method::Get, Host::Default, path)
    }

    /// Reads the chat of a game. `GET /api/bot/game/{gameId}/chat`
    pub fn read_chat(&self, game_id: &str) -> (r: ApiRequest)
        ensures
            r@ == crate::http::bare(
                Method::Get,
                Host::Default,
                "/api/bot/game/"@ + game_id@ + "/chat"@,
            ),
    {
        let path = crate::http::path1_raw("/api/bot/game/", game_id, "/chat");
        self.client.request(Method::Get, Host::Default, path)
    }

    /// The request of a no-argument action on a game.
    pub open spec fn action_view(game_id: &str, action: Seq<char>) -> crate::http::ApiRequestView {
        crate::http::bare(
            Method::Post,
            Host::Default,
            "/api/bot/game/"@ + game_id@ + "/"@ + action + ""@,
        )
    }

    /// Issues a `POST /api/bot/game/{gameId}/{action}`.
    pub fn post_action(&self, game_id: &str, action: &str) -> (r: ApiRequest)
        ensures
            r@ == Self::action_view(game_id, action@),
    {
        let mut path = crate::http::path1_raw("/api/bot/game/", game_id, "/");
        path.append(action);
        path.append("");
        self.client.request(Method::Post, Host::Default, path)
    }
}

impl LichessClient {
    /// Bot API: play games as a bot account.
    pub fn bot(&self) -> (r: BotApi<'_>)
        ensures
            r.client_of() == self,
    {
        BotApi::new(self)
    }
}

} // verus!
