//! The Board API: play games with a physical or third-party board.
//!
//! Reached through [`LichessClient::board`].

use vstd::prelude::*;

use crate::client::LichessClient;
use crate::config::Host;
use crate::http::{ApiRequest, Method};
use crate::model::LichessVariantKey;

verus! {

/// A chat room within a game.
#[derive(Debug, Clone, Copy, PartialEq, Eq, Structural)]
pub enum LichessChatRoom {
    /// The private chat between the two players.
    Player,
    /// The public spectator chat.
    Spectator,
}

/// The wire text of each [`LichessChatRoom`], as the API spells it: `Player` is `player`,
/// `Spectator` is `spectator`.
pub proof fn lemma_lichess_chat_room_wire_texts()
    ensures
        LichessChatRoom::Player.wire() == seq!['p', 'l', 'a', 'y', 'e', 'r'],
        LichessChatRoom::Spectator.wire() == seq!['s', 'p', 'e', 'c', 't', 'a', 't', 'o', 'r'],
{
    reveal_strlit("player");
    reveal_strlit("spectator");
    assert(LichessChatRoom::Player.wire() =~= seq!['p', 'l', 'a', 'y', 'e', 'r']);
    assert(LichessChatRoom::Spectator.wire() =~= seq!['s', 'p', 'e', 'c', 't', 'a', 't', 'o', 'r']);
}

impl LichessChatRoom {
    /// The wire representation of each value.
    pub open spec fn wire(self) -> Seq<char> {
        match self {
            LichessChatRoom::Player => "player"@,
            LichessChatRoom::Spectator => "spectator"@,
        }
    }

    /// The wire representation.
    pub fn as_str(self) -> (r: &'static str)
        ensures
            r@ == self.wire(),
    {
        match self {
            LichessChatRoom::Player => "player",
            LichessChatRoom::Spectator => "spectator",
        }
    }

    /// The wire representation of an optional value.
    pub open spec fn opt_wire(o: Option<LichessChatRoom>) -> Option<Seq<char>> {
        match o {
            Some(x) => Some(x.wire()),
            None => None,
        }
    }
}

/// Form body for posting to a game's chat.
#[derive(Debug, Clone)]
pub struct ChatForm<'a> {
    /// The chat room.
    pub room: LichessChatRoom,
    /// The message.
    pub text: &'a str,
}

/// The pairs of [`ChatForm`] carry its field under `room`.
proof fn lemma_chat_form_room(q: ChatForm)
    ensures
        crate::text::carries(q.pairs_view(), "room"@, Some(q.room.wire())),
{
    reveal_strlit("room");
    reveal_strlit("text");
    assert("room"@[0] != "text"@[0]);
    let p0 = seq![("room"@, q.room.wire())];
    let p1 = seq![("text"@, q.text@)];
    let s0 = p0;
    let s1 = s0 + p1;
    assert(q.pairs_view() == s1);
    let v = Some(q.room.wire());
    assert(p0 == crate::text::one_pair("room"@, v));
    crate::text::lemma_one_pair_carries("room"@, v);
    crate::text::lemma_extend(s0, p1, "room"@, v, false);
}

/// The pairs of [`ChatForm`] carry its field under `text`.
proof fn lemma_chat_form_text(q: ChatForm)
    ensures
        crate::text::carries(q.pairs_view(), "text"@, Some(q.text@)),
{
    reveal_strlit("room");
    reveal_strlit("text");
    assert("text"@[0] != "room"@[0]);
    let p0 = seq![("room"@, q.room.wire())];
    let p1 = seq![("text"@, q.text@)];
    let s0 = p0;
    let s1 = s0 + p1;
    assert(q.pairs_view() == s1);
    let v = Some(q.text@);
    crate::text::lemma_extend(s0, p1, "text"@, v, true);
}

/// The pairs of [`ChatForm`] carry each of its fields under that field's own
/// key (`room`, `text`), with the value given to it, and a key only when its field is set.
pub proof fn lemma_chat_form_carries_fields(q: ChatForm)
    ensures
        crate::text::carries(q.pairs_view(), "room"@, Some(q.room.wire())),
        crate::text::carries(q.pairs_view(), "text"@, Some(q.text@)),
{
    lemma_chat_form_room(q);
    lemma_chat_form_text(q);
}

impl<'a> ChatForm<'a> {
    /// The query pairs, in order.
    pub open spec fn pairs_view(self) -> crate::text::Pairs {
        seq![("room"@, self.room.wire())]
            + seq![("text"@, self.text@)]
    }

    /// The query pairs.
    pub fn pairs(&self) -> (r: Vec<(String, String)>)
        ensures
            r.deep_view() == self.pairs_view(),
    {
        let mut out: Vec<(String, String)> = Vec::new();
        crate::http::push_pair(&mut out, "room", String::from_str(self.room.as_str()));
        crate::http::push_pair(&mut out, "text", String::from_str(self.text));
        assert(out.deep_view() =~= self.pairs_view());
        out
    }
}

/// The wire form of an answer: `"yes"` or `"no"`.
pub open spec fn yes_no_text(accept: bool) -> Seq<char> {
    if accept {
        "yes"@
    } else {
        "no"@
    }
}

/// The wire form of an answer: `"yes"` or `"no"`.
pub fn yes_no(accept: bool) -> (r: &'static str)
    ensures
        r@ == yes_no_text(accept),
{
    if accept {
        "yes"
    } else {
        "no"
    }
}

/// Accessor for the Board API.
#[derive(Debug)]
pub struct BoardApi<'a> {
    client: &'a LichessClient,
}

/// A board action on a game is a `POST` to `/api/board/game/{gameId}/{action}`
/// on the main host, with no query and no body.
pub proof fn lemma_board_action_path(game_id: &str, action: Seq<char>)
    ensures
        BoardApi::action_view(game_id, action).method == Method::Post,
        BoardApi::action_view(game_id, action).host == Host::Default,
        BoardApi::action_view(game_id, action).path == seq!['/', 'a', 'p', 'i', '/', 'b', 'o', 'a', 'r', 'd', '/', 'g', 'a', 'm', 'e', '/'] + game_id@ + seq!['/'] + action,
        BoardApi::action_view(game_id, action).query.len() == 0,
        BoardApi::action_view(game_id, action).body is Empty,
{
    assert("/api/board/game/"@ =~= seq!['/', 'a', 'p', 'i', '/', 'b', 'o', 'a', 'r', 'd', '/', 'g', 'a', 'm', 'e', '/']) by {
        reveal_strlit("/api/board/game/");
    }
    assert("/"@ =~= seq!['/']) by {
        reveal_strlit("/");
    }
    assert(""@ =~= seq![]) by {
        reveal_strlit("");
    }
    assert(BoardApi::action_view(game_id, action).path =~= seq!['/', 'a', 'p', 'i', '/', 'b', 'o', 'a', 'r', 'd', '/', 'g', 'a', 'm', 'e', '/'] + game_id@ + seq!['/'] + action);
}

impl<'a> BoardApi<'a> {
    /// The client the accessor is bound to.
    pub closed spec fn client_of(&self) -> &'a LichessClient {
        self.client
    }

    /// Binds the accessor to a client.
    pub fn new(client: &'a LichessClient) -> (r: Self)
        ensures
            r.client_of() == client,
    {
        BoardApi { client }
    }

    /// Streams the state of a game being played. `GET /api/board/game/stream/{gameId}`
    pub fn stream_game(&self, game_id: &str) -> (r: ApiRequest)
        ensures
            r@ == crate::http::bare(
                Method::Get,
                Host::Default,
                "/api/board/game/stream/"@ + game_id@ + ""@,
            ),
    {
        let path = crate::http::path1_raw("/api/board/game/stream/", game_id, "");
        self.client.request(Method::Get, Host::Default, path)
    }

    /// Makes a move in a game, optionally offering a draw.
    /// `POST /api/board/game/{gameId}/move/{move}`
    pub fn make_move(&self, game_id: &str, chess_move: &str, offering_draw: bool) -> (r: ApiRequest)
        ensures
            r@ == crate::http::bare(
                Method::Post,
                Host::Default,
                "/api/board/game/"@ + game_id@ + "/move/"@ + chess_move@ + ""@,
            )
                .with_query(seq![("offeringDraw"@, crate::text::bool_text(offering_draw))]),
    {
        let mut path = crate::http::path1_raw("/api/board/game/", game_id, "/move/");
        path.append(chess_move);
        path.append("");
        let mut q: Vec<(String, String)> = Vec::new();
        crate::http::push_pair(&mut q, "offeringDraw", crate::text::bool_to_string(offering_draw));
        assert(q.deep_view() =~= seq![("offeringDraw"@, crate::text::bool_text(offering_draw))]);
        self.client.request(Method::Post, Host::Default, path).query(q)
    }

    /// Aborts a game. `POST /api/board/game/{gameId}/abort`
    pub fn abort(&self, game_id: &str) -> (r: ApiRequest)
        ensures
            r@ == Self::action_view(game_id, "abort"@),
    {
        self.post_action(game_id, "abort")
    }

    /// Resigns a game. `POST /api/board/game/{gameId}/resign`
    pub fn resign(&self, game_id: &str) -> (r: ApiRequest)
        ensures
            r@ == Self::action_view(game_id, "resign"@),
    {
        self.post_action(game_id, "resign")
    }

    /// Claims victory when the opponent has left the game. `POST /api/board/game/{gameId}/claim-victory`
    pub fn claim_victory(&self, game_id: &str) -> (r: ApiRequest)
        ensures
            r@ == Self::action_view(game_id, "claim-victory"@),
    {
        self.post_action(game_id, "claim-victory")
    }

    /// Claims a draw when the opponent has left the game. `POST /api/board/game/{gameId}/claim-draw`
    pub fn claim_draw(&self, game_id: &str) -> (r: ApiRequest)
        ensures
            r@ == Self::action_view(game_id, "claim-draw"@),
    {
        self.post_action(game_id, "claim-draw")
    }

    /// Goes berserk in an arena game (halves the clock for an extra point). `POST /api/board/game/{gameId}/berserk`
    pub fn berserk(&self, game_id: &str) -> (r: ApiRequest)
        ensures
            r@ == Self::action_view(game_id, "berserk"@),
    {
        self.post_action(game_id, "berserk")
    }

    /// Accepts (`true`) or declines (`false`) a draw offer.
    /// `POST /api/board/game/{gameId}/draw/{yes|no}`
    pub fn handle_draw(&self, game_id: &str, accept: bool) -> (r: ApiRequest)
        ensures
            r@ == crate::http::bare(
                Method::Post,
                Host::Default,
                "/api/board/game/"@ + game_id@ + "/draw/"@ + yes_no_text(accept),
            ),
    {
        let mut path = crate::http::path1_raw("/api/board/game/", game_id, "/draw/");
        path.append(yes_no(accept));
        self.client.request(Method::Post, Host::Default, path)
    }

    /// Accepts (`true`) or declines (`false`) a takeback proposal.
    /// `POST /api/board/game/{gameId}/takeback/{yes|no}`
    pub fn handle_takeback(&self, game_id: &str, accept: bool) -> (r: ApiRequest)
        ensures
            r@ == crate::http::bare(
                Method::Post,
                Host::Default,
                "/api/board/game/"@ + game_id@ + "/takeback/"@ + yes_no_text(accept),
            ),
    {
        let mut path = crate::http::path1_raw("/api/board/game/", game_id, "/takeback/");
        path.append(yes_no(accept));
        self.client.request(Method::Post, Host::Default, path)
    }

    /// Posts a message to the player or spectator chat of a game.
    /// `POST /api/board/game/{gameId}/chat`
    pub fn write_chat(&self, game_id: &str, room: LichessChatRoom, text: &str) -> (r: ApiRequest)
        ensures
            r@ == crate::http::bare(
                Method::Post,
                Host::Default,
                "/api/board/game/"@ + game_id@ + "/chat"@,
            )
                .with_body(crate::http::BodyView::Form((ChatForm { room, text }).pairs_view())),
    {
        let path = crate::http::path1_raw("/api/board/game/", game_id, "/chat");
        let form = ChatForm { room, text };
        self.client.request(Method::Post, Host::Default, path).form(form.pairs())
    }

    /// Streams incoming events (game starts and finishes, challenges).
    /// `GET /api/stream/event`
    pub fn stream_events(&self) -> (r: ApiRequest)
        ensures
            r@ == crate::http::bare(Method::Get, Host::Default, "/api/stream/event"@),
    {
        let path = String::from_str("/api/stream/event");
        self.client.request(Method::Get, Host::Default, path)
    }

    /// Reads the chat of a game. `GET /api/board/game/{gameId}/chat`
    pub fn read_chat(&self, game_id: &str) -> (r: ApiRequest)
        ensures
            r@ == crate::http::bare(
                Method::Get,
                Host::Default,
                "/api/board/game/"@ + game_id@ + "/chat"@,
            ),
    {
        let path = crate::http::path1_raw("/api/board/game/", game_id, "/chat");
        self.client.request(Method::Get, Host::Default, path)
    }

    /// The request of a no-argument action on a game.
    pub open spec fn action_view(game_id: &str, action: Seq<char>) -> crate::http::ApiRequestView {
        crate::http::bare(
            Method::Post,
            Host::Default,
            "/api/board/game/"@ + game_id@ + "/"@ + action + ""@,
        )
    }

    /// Issues a `POST /api/board/game/{gameId}/{action}`.
    pub fn post_action(&self, game_id: &str, action: &str) -> (r: ApiRequest)
        ensures
            r@ == Self::action_view(game_id, action@),
    {
        let mut path = crate::http::path1_raw("/api/board/game/", game_id, "/");
        path.append(action);
        path.append("");
        self.client.request(Method::Post, Host::Default, path)
    }

    /// Starts building a seek: a public game request that the server pairs.
    /// `POST /api/board/seek`
    pub fn seek(&self) -> (r: SeekRequest<'a>)
        ensures
            r.client_of() == self.client_of(),
            r.form_of() == SeekForm::blank(),
    {
        SeekRequest::new(self.client)
    }
}

/// Form body for a seek.
#[derive(Debug, Clone)]
pub struct SeekForm<'a> {
    /// Whether the game is rated.
    pub rated: Option<bool>,
    /// The initial clock time in minutes, as decimal text.
    pub time: Option<&'a str>,
    /// The clock increment in seconds.
    pub increment: Option<u32>,
    /// Days per turn.
    pub days: Option<u32>,
    /// The variant.
    pub variant: Option<LichessVariantKey>,
    /// The color to play.
    pub color: Option<&'a str>,
    /// The acceptable opponent rating range.
    pub rating_range: Option<&'a str>,
}

/// The pairs of [`SeekForm`] carry its field under `rated`.
proof fn lemma_seek_form_rated(q: SeekForm)
    ensures
        crate::text::carries(q.pairs_view(), "rated"@, match q.rated { Some(b) => Some(if b { seq!['t', 'r', 'u', 'e'] } else { seq!['f', 'a', 'l', 's', 'e'] }), None => None }),
{
    reveal_strlit("color");
    reveal_strlit("days");
    reveal_strlit("increment");
    reveal_strlit("rated");
    reveal_strlit("ratingRange");
    reveal_strlit("time");
    reveal_strlit("variant");
    assert("rated"@[0] != "color"@[0]);
    assert("rated"@.len() != "days"@.len());
    assert("rated"@.len() != "increment"@.len());
    assert("rated"@.len() != "ratingRange"@.len());
    assert("rated"@.len() != "time"@.len());
    assert("rated"@.len() != "variant"@.len());
    let p0 = crate::http::bool_pair("rated"@, q.rated);
    let p1 = crate::http::str_pair("time"@, q.time);
    let p2 = crate::http::nat_pair("increment"@, crate::http::opt_u32(q.increment));
    let p3 = crate::http::nat_pair("days"@, crate::http::opt_u32(q.days));
    let p4 = crate::http::opt_pair("variant"@, LichessVariantKey::opt_wire(q.variant));
    let p5 = crate::http::str_pair("color"@, q.color);
    let p6 = crate::http::str_pair("ratingRange"@, q.rating_range);
    let s0 = p0;
    let s1 = s0 + p1;
    let s2 = s1 + p2;
    let s3 = s2 + p3;
    let s4 = s3 + p4;
    let s5 = s4 + p5;
    let s6 = s5 + p6;
    assert(q.pairs_view() == s6);
    let v = match q.rated { Some(b) => Some(if b { seq!['t', 'r', 'u', 'e'] } else { seq!['f', 'a', 'l', 's', 'e'] }), None => None };
    assert(p0 == crate::text::one_pair("rated"@, v));
    crate::text::lemma_one_pair_carries("rated"@, v);
    crate::text::lemma_extend(s0, p1, "rated"@, v, false);
    crate::text::lemma_extend(s1, p2, "rated"@, v, false);
    crate::text::lemma_extend(s2, p3, "rated"@, v, false);
    crate::text::lemma_extend(s3, p4, "rated"@, v, false);
    crate::text::lemma_extend(s4, p5, "rated"@, v, false);
    crate::text::lemma_extend(s5, p6, "rated"@, v, false);
}

/// The pairs of [`SeekForm`] carry its field under `time`.
proof fn lemma_seek_form_time(q: SeekForm)
    ensures
        crate::text::carries(q.pairs_view(), "time"@, match q.time { Some(v) => Some(v@), None => None }),
{
    reveal_strlit("color");
    reveal_strlit("days");
    reveal_strlit("increment");
    reveal_strlit("rated");
    reveal_strlit("ratingRange");
    reveal_strlit("time");
    reveal_strlit("variant");
    assert("time"@.len() != "color"@.len());
    assert("time"@[0] != "days"@[0]);
    assert("time"@.len() != "increment"@.len());
    assert("time"@.len() != "rated"@.len());
    assert("time"@.len() != "ratingRange"@.len());
    assert("time"@.len() != "variant"@.len());
    let p0 = crate::http::bool_pair("rated"@, q.rated);
    let p1 = crate::http::str_pair("time"@, q.time);
    let p2 = crate::http::nat_pair("increment"@, crate::http::opt_u32(q.increment));
    let p3 = crate::http::nat_pair("days"@, crate::http::opt_u32(q.days));
    let p4 = crate::http::opt_pair("variant"@, LichessVariantKey::opt_wire(q.variant));
    let p5 = crate::http::str_pair("color"@, q.color);
    let p6 = crate::http::str_pair("ratingRange"@, q.rating_range);
    let s0 = p0;
    let s1 = s0 + p1;
    let s2 = s1 + p2;
    let s3 = s2 + p3;
    let s4 = s3 + p4;
    let s5 = s4 + p5;
    let s6 = s5 + p6;
    assert(q.pairs_view() == s6);
    let v = match q.time { Some(v) => Some(v@), None => None };
    crate::text::lemma_extend(s0, p1, "time"@, v, true);
    crate::text::lemma_extend(s1, p2, "time"@, v, false);
    crate::text::lemma_extend(s2, p3, "time"@, v, false);
    crate::text::lemma_extend(s3, p4, "time"@, v, false);
    crate::text::lemma_extend(s4, p5, "time"@, v, false);
    crate::text::lemma_extend(s5, p6, "time"@, v, false);
}

/// The pairs of [`SeekForm`] carry its field under `increment`.
proof fn lemma_seek_form_increment(q: SeekForm)
    ensures
        crate::text::carries(q.pairs_view(), "increment"@, match q.increment { Some(x) => Some(crate::text::dec_nat(x as nat)), None => None }),
{
    reveal_strlit("color");
    reveal_strlit("days");
    reveal_strlit("increment");
    reveal_strlit("rated");
    reveal_strlit("ratingRange");
    reveal_strlit("time");
    reveal_strlit("variant");
    assert("increment"@.len() != "color"@.len());
    assert("increment"@.len() != "days"@.len());
    assert("increment"@.len() != "rated"@.len());
    assert("increment"@.len() != "ratingRange"@.len());
    assert("increment"@.len() != "time"@.len());
    assert("increment"@.len() != "variant"@.len());
    let p0 = crate::http::bool_pair("rated"@, q.rated);
    let p1 = crate::http::str_pair("time"@, q.time);
    let p2 = crate::http::nat_pair("increment"@, crate::http::opt_u32(q.increment));
    let p3 = crate::http::nat_pair("days"@, crate::http::opt_u32(q.days));
    let p4 = crate::http::opt_pair("variant"@, LichessVariantKey::opt_wire(q.variant));
    let p5 = crate::http::str_pair("color"@, q.color);
    let p6 = crate::http::str_pair("ratingRange"@, q.rating_range);
    let s0 = p0;
    let s1 = s0 + p1;
    let s2 = s1 + p2;
    let s3 = s2 + p3;
    let s4 = s3 + p4;
    let s5 = s4 + p5;
    let s6 = s5 + p6;
    assert(q.pairs_view() == s6);
    let v = match q.increment { Some(x) => Some(crate::text::dec_nat(x as nat)), None => None };
    crate::text::lemma_extend(s0, p1, "increment"@, None, false);
    crate::text::lemma_extend(s1, p2, "increment"@, v, true);
    crate::text::lemma_extend(s2, p3, "increment"@, v, false);
    crate::text::lemma_extend(s3, p4, "increment"@, v, false);
    crate::text::lemma_extend(s4, p5, "increment"@, v, false);
    crate::text::lemma_extend(s5, p6, "increment"@, v, false);
}

/// The pairs of [`SeekForm`] carry its field under `days`.
proof fn lemma_seek_form_days(q: SeekForm)
    ensures
        crate::text::carries(q.pairs_view(), "days"@, match q.days { Some(x) => Some(crate::text::dec_nat(x as nat)), None => None }),
{
    reveal_strlit("color");
    reveal_strlit("days");
    reveal_strlit("increment");
    reveal_strlit("rated");
    reveal_strlit("ratingRange");
    reveal_strlit("time");
    reveal_strlit("variant");
    assert("days"@.len() != "color"@.len());
    assert("days"@.len() != "increment"@.len());
    assert("days"@.len() != "rated"@.len());
    assert("days"@.len() != "ratingRange"@.len());
    assert("days"@[0] != "time"@[0]);
    assert("days"@.len() != "variant"@.len());
    let p0 = crate::http::bool_pair("rated"@, q.rated);
    let p1 = crate::http::str_pair("time"@, q.time);
    let p2 = crate::http::nat_pair("increment"@, crate::http::opt_u32(q.increment));
    let p3 = crate::http::nat_pair("days"@, crate::http::opt_u32(q.days));
    let p4 = crate::http::opt_pair("variant"@, LichessVariantKey::opt_wire(q.variant));
    let p5 = crate::http::str_pair("color"@, q.color);
    let p6 = crate::http::str_pair("ratingRange"@, q.rating_range);
    let s0 = p0;
    let s1 = s0 + p1;
    let s2 = s1 + p2;
    let s3 = s2 + p3;
    let s4 = s3 + p4;
    let s5 = s4 + p5;
    let s6 = s5 + p6;
    assert(q.pairs_view() == s6);
    let v = match q.days { Some(x) => Some(crate::text::dec_nat(x as nat)), None => None };
    crate::text::lemma_extend(s0, p1, "days"@, None, false);
    crate::text::lemma_extend(s1, p2, "days"@, None, false);
    crate::text::lemma_extend(s2, p3, "days"@, v, true);
    crate::text::lemma_extend(s3, p4, "days"@, v, false);
    crate::text::lemma_extend(s4, p5, "days"@, v, false);
    crate::text::lemma_extend(s5, p6, "days"@, v, false);
}

/// The pairs of [`SeekForm`] carry its field under `variant`.
proof fn lemma_seek_form_variant(q: SeekForm)
    ensures
        crate::text::carries(q.pairs_view(), "variant"@, LichessVariantKey::opt_wire(q.variant)),
{
    reveal_strlit("color");
    reveal_strlit("days");
    reveal_strlit("increment");
    reveal_strlit("rated");
    reveal_strlit("ratingRange");
    reveal_strlit("time");
    reveal_strlit("variant");
    assert("variant"@.len() != "color"@.len());
    assert("variant"@.len() != "days"@.len());
    assert("variant"@.len() != "increment"@.len());
    assert("variant"@.len() != "rated"@.len());
    assert("variant"@.len() != "ratingRange"@.len());
    assert("variant"@.len() != "time"@.len());
    let p0 = crate::http::bool_pair("rated"@, q.rated);
    let p1 = crate::http::str_pair("time"@, q.time);
    let p2 = crate::http::nat_pair("increment"@, crate::http::opt_u32(q.increment));
    let p3 = crate::http::nat_pair("days"@, crate::http::opt_u32(q.days));
    let p4 = crate::http::opt_pair("variant"@, LichessVariantKey::opt_wire(q.variant));
    let p5 = crate::http::str_pair("color"@, q.color);
    let p6 = crate::http::str_pair("ratingRange"@, q.rating_range);
    let s0 = p0;
    let s1 = s0 + p1;
    let s2 = s1 + p2;
    let s3 = s2 + p3;
    let s4 = s3 + p4;
    let s5 = s4 + p5;
    let s6 = s5 + p6;
    assert(q.pairs_view() == s6);
    let v = LichessVariantKey::opt_wire(q.variant);
    crate::text::lemma_extend(s0, p1, "variant"@, None, false);
    crate::text::lemma_extend(s1, p2, "variant"@, None, false);
    crate::text::lemma_extend(s2, p3, "variant"@, None, false);
    crate::text::lemma_extend(s3, p4, "variant"@, v, true);
    crate::text::lemma_extend(s4, p5, "variant"@, v, false);
    crate::text::lemma_extend(s5, p6, "variant"@, v, false);
}

/// The pairs of [`SeekForm`] carry its field under `color`.
proof fn lemma_seek_form_color(q: SeekForm)
    ensures
        crate::text::carries(q.pairs_view(), "color"@, match q.color { Some(v) => Some(v@), None => None }),
{
    reveal_strlit("color");
    reveal_strlit("days");
    reveal_strlit("increment");
    reveal_strlit("rated");
    reveal_strlit("ratingRange");
    reveal_strlit("time");
    reveal_strlit("variant");
    assert("color"@.len() != "days"@.len());
    assert("color"@.len() != "increment"@.len());
    assert("color"@[0] != "rated"@[0]);
    assert("color"@.len() != "ratingRange"@.len());
    assert("color"@.len() != "time"@.len());
    assert("color"@.len() != "variant"@.len());
    let p0 = crate::http::bool_pair("rated"@, q.rated);
    let p1 = crate::http::str_pair("time"@, q.time);
    let p2 = crate::http::nat_pair("increment"@, crate::http::opt_u32(q.increment));
    let p3 = crate::http::nat_pair("days"@, crate::http::opt_u32(q.days));
    let p4 = crate::http::opt_pair("variant"@, LichessVariantKey::opt_wire(q.variant));
    let p5 = crate::http::str_pair("color"@, q.color);
    let p6 = crate::http::str_pair("ratingRange"@, q.rating_range);
    let s0 = p0;
    let s1 = s0 + p1;
    let s2 = s1 + p2;
    let s3 = s2 + p3;
    let s4 = s3 + p4;
    let s5 = s4 + p5;
    let s6 = s5 + p6;
    assert(q.pairs_view() == s6);
    let v = match q.color { Some(v) => Some(v@), None => None };
    crate::text::lemma_extend(s0, p1, "color"@, None, false);
    crate::text::lemma_extend(s1, p2, "color"@, None, false);
    crate::text::lemma_extend(s2, p3, "color"@, None, false);
    crate::text::lemma_extend(s3, p4, "color"@, None, false);
    crate::text::lemma_extend(s4, p5, "color"@, v, true);
    crate::text::lemma_extend(s5, p6, "color"@, v, false);
}

/// The pairs of [`SeekForm`] carry its field under `ratingRange`.
proof fn lemma_seek_form_rating_range(q: SeekForm)
    ensures
        crate::text::carries(q.pairs_view(), "ratingRange"@, match q.rating_range { Some(v) => Some(v@), None => None }),
{
    reveal_strlit("color");
    reveal_strlit("days");
    reveal_strlit("increment");
    reveal_strlit("rated");
    reveal_strlit("ratingRange");
    reveal_strlit("time");
    reveal_strlit("variant");
    assert("ratingRange"@.len() != "color"@.len());
    assert("ratingRange"@.len() != "days"@.len());
    assert("ratingRange"@.len() != "increment"@.len());
    assert("ratingRange"@.len() != "rated"@.len());
    assert("ratingRange"@.len() != "time"@.len());
    assert("ratingRange"@.len() != "variant"@.len());
    let p0 = crate::http::bool_pair("rated"@, q.rated);
    let p1 = crate::http::str_pair("time"@, q.time);
    let p2 = crate::http::nat_pair("increment"@, crate::http::opt_u32(q.increment));
    let p3 = crate::http::nat_pair("days"@, crate::http::opt_u32(q.days));
    let p4 = crate::http::opt_pair("variant"@, LichessVariantKey::opt_wire(q.variant));
    let p5 = crate::http::str_pair("color"@, q.color);
    let p6 = crate::http::str_pair("ratingRange"@, q.rating_range);
    let s0 = p0;
    let s1 = s0 + p1;
    let s2 = s1 + p2;
    let s3 = s2 + p3;
    let s4 = s3 + p4;
    let s5 = s4 + p5;
    let s6 = s5 + p6;
    assert(q.pairs_view() == s6);
    let v = match q.rating_range { Some(v) => Some(v@), None => None };
    crate::text::lemma_extend(s0, p1, "ratingRange"@, None, false);
    crate::text::lemma_extend(s1, p2, "ratingRange"@, None, false);
    crate::text::lemma_extend(s2, p3, "ratingRange"@, None, false);
    crate::text::lemma_extend(s3, p4, "ratingRange"@, None, false);
    crate::text::lemma_extend(s4, p5, "ratingRange"@, None, false);
    crate::text::lemma_extend(s5, p6, "ratingRange"@, v, true);
}

/// The pairs of [`SeekForm`] carry each of its fields under that field's own
/// key (`rated`, `time`, `increment`, `days`, `variant`, `color`, `ratingRange`), with the value given to it, and a key only when its field is set.
pub proof fn lemma_seek_form_carries_fields(q: SeekForm)
    ensures
        crate::text::carries(q.pairs_view(), "rated"@, match q.rated { Some(b) => Some(if b { seq!['t', 'r', 'u', 'e'] } else { seq!['f', 'a', 'l', 's', 'e'] }), None => None }),
        crate::text::carries(q.pairs_view(), "time"@, match q.time { Some(v) => Some(v@), None => None }),
        crate::text::carries(q.pairs_view(), "increment"@, match q.increment { Some(x) => Some(crate::text::dec_nat(x as nat)), None => None }),
        crate::text::carries(q.pairs_view(), "days"@, match q.days { Some(x) => Some(crate::text::dec_nat(x as nat)), None => None }),
        crate::text::carries(q.pairs_view(), "variant"@, LichessVariantKey::opt_wire(q.variant)),
        crate::text::carries(q.pairs_view(), "color"@, match q.color { Some(v) => Some(v@), None => None }),
        crate::text::carries(q.pairs_view(), "ratingRange"@, match q.rating_range { Some(v) => Some(v@), None => None }),
{
    lemma_seek_form_rated(q);
    lemma_seek_form_time(q);
    lemma_seek_form_increment(q);
    lemma_seek_form_days(q);
    lemma_seek_form_variant(q);
    lemma_seek_form_color(q);
    lemma_seek_form_rating_range(q);
}

impl<'a> SeekForm<'a> {
    /// The query pairs, in order.
    pub open spec fn pairs_view(self) -> crate::text::Pairs {
        crate::http::bool_pair("rated"@, self.rated)
            + crate::http::str_pair("time"@, self.time)
            + crate::http::nat_pair("increment"@, crate::http::opt_u32(self.increment))
            + crate::http::nat_pair("days"@, crate::http::opt_u32(self.days))
            + crate::http::opt_pair("variant"@, LichessVariantKey::opt_wire(self.variant))
            + crate::http::str_pair("color"@, self.color)
            + crate::http::str_pair("ratingRange"@, self.rating_range)
    }

    /// The query pairs.
    #[verifier::rlimit(40)]
    pub fn pairs(&self) -> (r: Vec<(String, String)>)
        ensures
            r.deep_view() == self.pairs_view(),
    {
        let mut out: Vec<(String, String)> = Vec::new();
        crate::http::push_opt_bool(&mut out, "rated", self.rated);
        crate::http::push_opt_str(&mut out, "time", self.time);
        crate::http::push_opt_u32(&mut out, "increment", self.increment);
        crate::http::push_opt_u32(&mut out, "days", self.days);
        match self.variant {
            Some(x) => crate::http::push_pair(&mut out, "variant", String::from_str(x.as_str())),
            None => {},
        }
        crate::http::push_opt_str(&mut out, "color", self.color);
        crate::http::push_opt_str(&mut out, "ratingRange", self.rating_range);
        assert(out.deep_view() =~= self.pairs_view());
        out
    }

    /// The query with every filter unset.
    pub open spec fn blank() -> Self {
        SeekForm {
            rated: None,
            time: None,
            increment: None,
            days: None,
            variant: None,
            color: None,
            rating_range: None,
        }
    }
}

impl<'a> Default for SeekForm<'a> {
    /// Every filter unset.
    fn default() -> (r: Self)
        ensures
            r == Self::blank(),
    {
        SeekForm {
            rated: None,
            time: None,
            increment: None,
            days: None,
            variant: None,
            color: None,
            rating_range: None,
        }
    }
}

/// Builder for a seek.
#[derive(Debug)]
pub struct SeekRequest<'a> {
    client: &'a LichessClient,
    form: SeekForm<'a>,
}

impl<'a> SeekRequest<'a> {
    /// The client the builder is bound to.
    pub closed spec fn client_of(&self) -> &'a LichessClient {
        self.client
    }

    /// The form built so far.
    pub closed spec fn form_of(&self) -> SeekForm<'a> {
        self.form
    }

    /// Creates the request builder.
    pub fn new(client: &'a LichessClient) -> (r: Self)
        ensures
            r.client_of() == client,
            r.form_of() == SeekForm::blank(),
    {
        SeekRequest { client, form: SeekForm::default() }
    }

    /// Sets whether the game is rated.
    pub fn rated(self, rated: bool) -> (r: Self)
        ensures
            r.form_of() == (SeekForm { rated: Some(rated), ..self.form_of() }),
            r.client_of() == self.client_of(),
    {
        let mut r = self;
        r.form.rated = Some(rated);
        r
    }

    /// Sets a real-time clock: the initial time in minutes, written in decimal
    /// (e.g. `"0.5"` or `"3"`), and the increment in seconds.
    pub fn clock(self, time_minutes: &'a str, increment_secs: u32) -> (r: Self)
        ensures
            r.form_of() == (
                SeekForm {
                    time: Some(time_minutes),
                    increment: Some(increment_secs),
                    ..self.form_of()
                }
            ),
            r.client_of() == self.client_of(),
    {
        let mut r = self;
        r.form.time = Some(time_minutes);
        r.form.increment = Some(increment_secs);
        r
    }

    /// Sets days per turn for a correspondence seek.
    pub fn days(self, days: u32) -> (r: Self)
        ensures
            r.form_of() == (SeekForm { days: Some(days), ..self.form_of() }),
            r.client_of() == self.client_of(),
    {
        let mut r = self;
        r.form.days = Some(days);
        r
    }

    /// Sets the variant.
    pub fn variant(self, variant: LichessVariantKey) -> (r: Self)
        ensures
            r.form_of() == (SeekForm { variant: Some(variant), ..self.form_of() }),
            r.client_of() == self.client_of(),
    {
        let mut r = self;
        r.form.variant = Some(variant);
        r
    }

    /// Sets the color to play (`white`, `black` or `random`).
    pub fn color(self, color: &'a str) -> (r: Self)
        ensures
            r.form_of() == (SeekForm { color: Some(color), ..self.form_of() }),
            r.client_of() == self.client_of(),
    {
        let mut r = self;
        r.form.color = Some(color);
        r
    }

    /// Sets the acceptable opponent rating range, e.g. `1500-1800`.
    pub fn rating_range(self, range: &'a str) -> (r: Self)
        ensures
            r.form_of() == (SeekForm { rating_range: Some(range), ..self.form_of() }),
            r.client_of() == self.client_of(),
    {
        let mut r = self;
        r.form.rating_range = Some(range);
        r
    }

    /// Creates the seek; the answer stream stays open until the seek is
    /// accepted.
    pub fn send(self) -> (r: ApiRequest)
        ensures
            r@ == crate::http::bare(Method::Post, Host::Default, "/api/board/seek"@)
                .with_body(crate::http::BodyView::Form(self.form_of().pairs_view())),
    {
        let path = String::from_str("/api/board/seek");
        self.client.request(Method::Post, Host::Default, path).form(self.form.pairs())
    }
}

impl LichessClient {
    /// Board API: play games with a physical or third-party board.
    pub fn board(&self) -> (r: BoardApi<'_>)
        ensures
            r.client_of() == self,
    {
        BoardApi::new(self)
    }
}

} // verus!
