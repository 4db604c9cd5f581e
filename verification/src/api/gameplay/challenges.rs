//! The Challenges API: create, accept, decline, and manage challenges.
//!
//! Reached through [`LichessClient::challenges`].

use vstd::prelude::*;

use crate::client::LichessClient;
use crate::config::Host;
use crate::http::{Accept, ApiRequest, Method};
use crate::model::LichessVariantKey;
use crate::text::{join_seqs, join_strs, str_views};

verus! {

/// The lifecycle status of a challenge.
#[derive(Debug, Clone, Copy, PartialEq, Eq, Structural)]
pub enum LichessChallengeStatus {
    /// Created and pending.
    Created,
    /// The destination user is offline.
    Offline,
    /// Canceled by the challenger.
    Canceled,
    /// Declined by the destination user.
    Declined,
    /// Accepted; a game has started.
    Accepted,
}

/// The wire text of each [`LichessChallengeStatus`], as the API spells it: `Created` is
/// `created`, `Offline` is `offline`, `Canceled` is `canceled`, `Declined` is `declined`,
/// `Accepted` is `accepted`.
pub proof fn lemma_lichess_challenge_status_wire_texts()
    ensures
        LichessChallengeStatus::Created.wire() == seq!['c', 'r', 'e', 'a', 't', 'e', 'd'],
        LichessChallengeStatus::Offline.wire() == seq!['o', 'f', 'f', 'l', 'i', 'n', 'e'],
        LichessChallengeStatus::Canceled.wire() == seq!['c', 'a', 'n', 'c', 'e', 'l', 'e', 'd'],
        LichessChallengeStatus::Declined.wire() == seq!['d', 'e', 'c', 'l', 'i', 'n', 'e', 'd'],
        LichessChallengeStatus::Accepted.wire() == seq!['a', 'c', 'c', 'e', 'p', 't', 'e', 'd'],
{
    reveal_strlit("accepted");
    reveal_strlit("canceled");
    reveal_strlit("created");
    reveal_strlit("declined");
    reveal_strlit("offline");
    assert(LichessChallengeStatus::Created.wire() =~= seq!['c', 'r', 'e', 'a', 't', 'e', 'd']);
    assert(LichessChallengeStatus::Offline.wire() =~= seq!['o', 'f', 'f', 'l', 'i', 'n', 'e']);
    assert(LichessChallengeStatus::Canceled.wire() =~= seq!['c', 'a', 'n', 'c', 'e', 'l', 'e', 'd']);
    assert(LichessChallengeStatus::Declined.wire() =~= seq!['d', 'e', 'c', 'l', 'i', 'n', 'e', 'd']);
    assert(LichessChallengeStatus::Accepted.wire() =~= seq!['a', 'c', 'c', 'e', 'p', 't', 'e', 'd']);
}

impl LichessChallengeStatus {
    /// The wire representation of each value.
    pub open spec fn wire(self) -> Seq<char> {
        match self {
            LichessChallengeStatus::Created => "created"@,
            LichessChallengeStatus::Offline => "offline"@,
            LichessChallengeStatus::Canceled => "canceled"@,
            LichessChallengeStatus::Declined => "declined"@,
            LichessChallengeStatus::Accepted => "accepted"@,
        }
    }

    /// The wire representation.
    pub fn as_str(self) -> (r: &'static str)
        ensures
            r@ == self.wire(),
    {
        match self {
            LichessChallengeStatus::Created => "created",
            LichessChallengeStatus::Offline => "offline",
            LichessChallengeStatus::Canceled => "canceled",
            LichessChallengeStatus::Declined => "declined",
            LichessChallengeStatus::Accepted => "accepted",
        }
    }

    /// The wire representation of an optional value.
    pub open spec fn opt_wire(o: Option<LichessChallengeStatus>) -> Option<Seq<char>> {
        match o {
            Some(x) => Some(x.wire()),
            None => None,
        }
    }
}

/// The requested color of a challenge.
#[derive(Debug, Clone, Copy, PartialEq, Eq, Structural)]
pub enum LichessChallengeColor {
    /// Play as white.
    White,
    /// Play as black.
    Black,
    /// Random color.
    Random,
}

/// The wire text of each [`LichessChallengeColor`], as the API spells it: `White` is
/// `white`, `Black` is `black`, `Random` is `random`.
pub proof fn lemma_lichess_challenge_color_wire_texts()
    ensures
        LichessChallengeColor::White.wire() == seq!['w', 'h', 'i', 't', 'e'],
        LichessChallengeColor::Black.wire() == seq!['b', 'l', 'a', 'c', 'k'],
        LichessChallengeColor::Random.wire() == seq!['r', 'a', 'n', 'd', 'o', 'm'],
{
    reveal_strlit("black");
    reveal_strlit("random");
    reveal_strlit("white");
    assert(LichessChallengeColor::White.wire() =~= seq!['w', 'h', 'i', 't', 'e']);
    assert(LichessChallengeColor::Black.wire() =~= seq!['b', 'l', 'a', 'c', 'k']);
    assert(LichessChallengeColor::Random.wire() =~= seq!['r', 'a', 'n', 'd', 'o', 'm']);
}

impl LichessChallengeColor {
    /// The wire representation of each value.
    pub open spec fn wire(self) -> Seq<char> {
        match self {
            LichessChallengeColor::White => "white"@,
            LichessChallengeColor::Black => "black"@,
            LichessChallengeColor::Random => "random"@,
        }
    }

    /// The wire representation.
    pub fn as_str(self) -> (r: &'static str)
        ensures
            r@ == self.wire(),
    {
        match self {
            LichessChallengeColor::White => "white",
            LichessChallengeColor::Black => "black",
            LichessChallengeColor::Random => "random",
        }
    }

    /// The wire representation of an optional value.
    pub open spec fn opt_wire(o: Option<LichessChallengeColor>) -> Option<Seq<char>> {
        match o {
            Some(x) => Some(x.wire()),
            None => None,
        }
    }
}

/// Accessor for the Challenges API.
#[derive(Debug)]
pub struct ChallengesApi<'a> {
    client: &'a LichessClient,
}

impl<'a> ChallengesApi<'a> {
    /// The client the accessor is bound to.
    pub closed spec fn client_of(&self) -> &'a LichessClient {
        self.client
    }

    /// Binds the accessor to a client.
    pub fn new(client: &'a LichessClient) -> (r: Self)
        ensures
            r.client_of() == client,
    {
        ChallengesApi { client }
    }

    /// Lists the authenticated user's incoming and outgoing challenges.
    ///
    /// `GET /api/challenge`
    pub fn list(&self) -> (r: ApiRequest)
        ensures
            r@ == crate::http::bare(Method::Get, Host::Default, "/api/challenge"@),
    {
        let path = String::from_str("/api/challenge");
        self.client.request(Method::Get, Host::Default, path)
    }

    /// Shows a single challenge by id. `GET /api/challenge/{challengeId}/show`
    pub fn show(&self, challenge_id: &str) -> (r: ApiRequest)
        ensures
            r@ == crate::http::bare(
                Method::Get,
                Host::Default,
                "/api/challenge/"@ + crate::text::segment_text(challenge_id@) + "/show"@,
            ),
    {
        let path = crate::http::path1("/api/challenge/", challenge_id, "/show");
        self.client.request(Method::Get, Host::Default, path)
    }

    /// Starts building a challenge to a user. `POST /api/challenge/{username}`
    pub fn challenge(&self, username: &'a str) -> (r: ChallengeRequest<'a>)
        ensures
            r.client_of() == self.client_of(),
            r.username_of() == username,
            r.form_of() == ChallengeForm::blank(),
    {
        ChallengeRequest::new(self.client, username)
    }

    /// Starts building a challenge against the AI. `POST /api/challenge/ai`
    pub fn challenge_ai(&self, level: u8) -> (r: AiChallengeRequest<'a>)
        ensures
            r.client_of() == self.client_of(),
            r.form_of() == AiChallengeForm::with_level(level),
    {
        AiChallengeRequest::new(self.client, level)
    }

    /// Accepts an incoming challenge.
    ///
    /// `color` picks a side, valid only for open challenges.
    /// `POST /api/challenge/{challengeId}/accept`
    pub fn accept(&self, challenge_id: &str, color: Option<&str>) -> (r: ApiRequest)
        ensures
            r@ == crate::http::bare(
                Method::Post,
                Host::Default,
                "/api/challenge/"@ + crate::text::segment_text(challenge_id@) + "/accept"@,
            )
                .with_query(crate::http::str_pair("color"@, color)),
    {
        let path = crate::http::path1("/api/challenge/", challenge_id, "/accept");
        let mut q: Vec<(String, String)> = Vec::new();
        crate::http::push_opt_str(&mut q, "color", color);
        assert(q.deep_view() =~= crate::http::str_pair("color"@, color));
        self.client.request(Method::Post, Host::Default, path).query(q)
    }

    /// Declines an incoming challenge, optionally with a reason key; the
    /// reason, when given, is the only field of a form body.
    /// `POST /api/challenge/{challengeId}/decline`
    pub fn decline(&self, challenge_id: &str, reason: Option<&str>) -> (r: ApiRequest)
        ensures
            r@ == match reason {
                Some(why) => crate::http::bare(
                    Method::Post,
                    Host::Default,
                    "/api/challenge/"@ + crate::text::segment_text(challenge_id@) + "/decline"@,
                ).with_body(crate::http::BodyView::Form(seq![("reason"@, why@)])),
                None => crate::http::bare(
                    Method::Post,
                    Host::Default,
                    "/api/challenge/"@ + crate::text::segment_text(challenge_id@) + "/decline"@,
                ),
            },
    {
        let path = crate::http::path1("/api/challenge/", challenge_id, "/decline");
        let request = self.client.request(Method::Post, Host::Default, path);
        match reason {
            Some(why) => {
                let mut form: Vec<(String, String)> = Vec::new();
                crate::http::push_pair(&mut form, "reason", String::from_str(why));
                assert(form.deep_view() =~= seq![("reason"@, why@)]);
                request.form(form)
            },
            None => request,
        }
    }

    /// Cancels a challenge you sent.
    ///
    /// `opponent_token` (the opponent's `challenge:write` token) lets the game
    /// be canceled even after both players moved.
    /// `POST /api/challenge/{challengeId}/cancel`
    pub fn cancel(&self, challenge_id: &str, opponent_token: Option<&str>) -> (r: ApiRequest)
        ensures
            r@ == crate::http::bare(
                Method::Post,
                Host::Default,
                "/api/challenge/"@ + crate::text::segment_text(challenge_id@) + "/cancel"@,
            )
                .with_query(crate::http::str_pair("opponentToken"@, opponent_token)),
    {
        let path = crate::http::path1("/api/challenge/", challenge_id, "/cancel");
        let mut q: Vec<(String, String)> = Vec::new();
        crate::http::push_opt_str(&mut q, "opponentToken", opponent_token);
        assert(q.deep_view() =~= crate::http::str_pair("opponentToken"@, opponent_token));
        self.client.request(Method::Post, Host::Default, path).query(q)
    }

    /// Adds time to the opponent's clock in an ongoing game.
    /// `POST /api/round/{gameId}/add-time/{seconds}`
    pub fn add_time(&self, game_id: &str, seconds: u32) -> (r: ApiRequest)
        ensures
            r@ == crate::http::bare(
                Method::Post,
                Host::Default,
                "/api/round/"@
                    + crate::text::segment_text(game_id@)
                    + "/add-time/"@
                    + crate::text::dec_nat(
                    seconds as nat,
                ),
            ),
    {
        let mut path = crate::http::path1("/api/round/", game_id, "/add-time/");
        let secs = crate::text::u64_to_string(seconds as u64);
        path.append(secs.as_str());
        self.client.request(Method::Post, Host::Default, path)
    }

    /// Starts building an open challenge anyone can accept.
    /// `POST /api/challenge/open`
    pub fn create_open(&self) -> (r: OpenChallengeRequest<'a>)
        ensures
            r.client_of() == self.client_of(),
            r.form_of() == OpenForm::blank(),
    {
        OpenChallengeRequest::new(self.client)
    }

    /// Starts the clocks of a game immediately.
    ///
    /// `token2` may be omitted (`None`) for AI games that have only one player.
    /// `POST /api/challenge/{gameId}/start-clocks`
    pub fn start_clocks(&self, game_id: &str, token1: &str, token2: Option<&str>) -> (r: ApiRequest)
        ensures
            r@ == crate::http::bare(
                Method::Post,
                Host::Default,
                "/api/challenge/"@ + crate::text::segment_text(game_id@) + "/start-clocks"@,
            ).with_query(seq![("token1"@, token1@)] + crate::http::str_pair("token2"@, token2)),
    {
        let path = crate::http::path1("/api/challenge/", game_id, "/start-clocks");
        let mut q: Vec<(String, String)> = Vec::new();
        crate::http::push_pair(&mut q, "token1", String::from_str(token1));
        crate::http::push_opt_str(&mut q, "token2", token2);
        assert(q.deep_view() =~= seq![("token1"@, token1@)]
                + crate::http::str_pair("token2"@, token2));
        self.client.request(Method::Post, Host::Default, path).query(q)
    }

    /// Creates challenge tokens for multiple users (admin only); the answer
    /// maps each user id to a token. `POST /api/token/admin-challenge`
    pub fn admin_challenge_tokens(&self, user_ids: &[&str], description: &str) -> (r: ApiRequest)
        ensures
            r@ == crate::http::bare(Method::Post, Host::Default, "/api/token/admin-challenge"@)
                .with_body(
                crate::http::BodyView::Form(
                    seq![
                        ("users"@, join_seqs(str_views(user_ids@), ","@)),
                        ("description"@, description@),
                    ],
                ),
            ),
    {
        let mut form: Vec<(String, String)> = Vec::new();
        crate::http::push_pair(&mut form, "users", join_strs(user_ids, ","));
        crate::http::push_pair(&mut form, "description", String::from_str(description));
        assert(form.deep_view() =~= seq![
            ("users"@, join_seqs(str_views(user_ids@), ","@)),
            ("description"@, description@),
        ]);
        self.client.request(Method::Post, Host::Default, String::from_str("/api/token/admin-challenge"))
            .form(form)
    }
}

impl LichessClient {
    /// Challenges API: create, accept, decline, and manage challenges.
    pub fn challenges(&self) -> (r: ChallengesApi<'_>)
        ensures
            r.client_of() == self,
    {
        ChallengesApi::new(self)
    }
}

/// Form body for challenging a user (`POST /api/challenge/{username}`).
#[derive(Debug, Clone)]
pub struct ChallengeForm<'a> {
    /// Whether the game is rated.
    pub rated: Option<bool>,
    /// Initial clock time in seconds.
    pub clock_limit: Option<u32>,
    /// Clock increment in seconds.
    pub clock_increment: Option<u32>,
    /// Days per turn.
    pub days: Option<u32>,
    /// The requested color.
    pub color: Option<LichessChallengeColor>,
    /// The variant.
    pub variant: Option<LichessVariantKey>,
    /// A custom starting position.
    pub fen: Option<&'a str>,
    /// Hold the answer open as a stream of status updates.
    pub keep_alive_stream: Option<bool>,
    /// Extra game rules.
    pub rules: Option<&'a str>,
}

/// The pairs of [`ChallengeForm`] carry its field under `rated`.
proof fn lemma_challenge_form_rated(q: ChallengeForm)
    ensures
        crate::text::carries(q.pairs_view(), "rated"@, match q.rated { Some(b) => Some(if b { seq!['t', 'r', 'u', 'e'] } else { seq!['f', 'a', 'l', 's', 'e'] }), None => None }),
{
    reveal_strlit("clock.increment");
    reveal_strlit("clock.limit");
    reveal_strlit("color");
    reveal_strlit("days");
    reveal_strlit("fen");
    reveal_strlit("keepAliveStream");
    reveal_strlit("rated");
    reveal_strlit("rules");
    reveal_strlit("variant");
    assert("rated"@.len() != "clock.increment"@.len());
    assert("rated"@.len() != "clock.limit"@.len());
    assert("rated"@[0] != "color"@[0]);
    assert("rated"@.len() != "days"@.len());
    assert("rated"@.len() != "fen"@.len());
    assert("rated"@.len() != "keepAliveStream"@.len());
    assert("rated"@[1] != "rules"@[1]);
    assert("rated"@.len() != "variant"@.len());
    let p0 = crate::http::bool_pair("rated"@, q.rated);
    let p1 = crate::http::nat_pair("clock.limit"@, crate::http::opt_u32(q.clock_limit));
    let p2 = crate::http::nat_pair("clock.increment"@, crate::http::opt_u32(q.clock_increment));
    let p3 = crate::http::nat_pair("days"@, crate::http::opt_u32(q.days));
    let p4 = crate::http::opt_pair("color"@, LichessChallengeColor::opt_wire(q.color));
    let p5 = crate::http::opt_pair("variant"@, LichessVariantKey::opt_wire(q.variant));
    let p6 = crate::http::str_pair("fen"@, q.fen);
    let p7 = crate::http::bool_pair("keepAliveStream"@, q.keep_alive_stream);
    let p8 = crate::http::str_pair("rules"@, q.rules);
    let s0 = p0;
    let s1 = s0 + p1;
    let s2 = s1 + p2;
    let s3 = s2 + p3;
    let s4 = s3 + p4;
    let s5 = s4 + p5;
    let s6 = s5 + p6;
    let s7 = s6 + p7;
    let s8 = s7 + p8;
    assert(q.pairs_view() == s8);
    let v = match q.rated { Some(b) => Some(if b { seq!['t', 'r', 'u', 'e'] } else { seq!['f', 'a', 'l', 's', 'e'] }), None => None };
    assert(p0 == crate::text::one_pair("rated"@, v));
    crate::text::lemma_one_pair_carries("rated"@, v);
    crate::text::lemma_extend(s0, p1, "rated"@, v, false);
    crate::text::lemma_extend(s1, p2, "rated"@, v, false);
    crate::text::lemma_extend(s2, p3, "rated"@, v, false);
    crate::text::lemma_extend(s3, p4, "rated"@, v, false);
    crate::text::lemma_extend(s4, p5, "rated"@, v, false);
    crate::text::lemma_extend(s5, p6, "rated"@, v, false);
    crate::text::lemma_extend(s6, p7, "rated"@, v, false);
    crate::text::lemma_extend(s7, p8, "rated"@, v, false);
}

/// The pairs of [`ChallengeForm`] carry its field under `clock.limit`.
proof fn lemma_challenge_form_clock_limit(q: ChallengeForm)
    ensures
        crate::text::carries(q.pairs_view(), "clock.limit"@, match q.clock_limit { Some(x) => Some(crate::text::dec_nat(x as nat)), None => None }),
{
    reveal_strlit("clock.increment");
    reveal_strlit("clock.limit");
    reveal_strlit("color");
    reveal_strlit("days");
    reveal_strlit("fen");
    reveal_strlit("keepAliveStream");
    reveal_strlit("rated");
    reveal_strlit("rules");
    reveal_strlit("variant");
    assert("clock.limit"@.len() != "clock.increment"@.len());
    assert("clock.limit"@.len() != "color"@.len());
    assert("clock.limit"@.len() != "days"@.len());
    assert("clock.limit"@.len() != "fen"@.len());
    assert("clock.limit"@.len() != "keepAliveStream"@.len());
    assert("clock.limit"@.len() != "rated"@.len());
    assert("clock.limit"@.len() != "rules"@.len());
    assert("clock.limit"@.len() != "variant"@.len());
    let p0 = crate::http::bool_pair("rated"@, q.rated);
    let p1 = crate::http::nat_pair("clock.limit"@, crate::http::opt_u32(q.clock_limit));
    let p2 = crate::http::nat_pair("clock.increment"@, crate::http::opt_u32(q.clock_increment));
    let p3 = crate::http::nat_pair("days"@, crate::http::opt_u32(q.days));
    let p4 = crate::http::opt_pair("color"@, LichessChallengeColor::opt_wire(q.color));
    let p5 = crate::http::opt_pair("variant"@, LichessVariantKey::opt_wire(q.variant));
    let p6 = crate::http::str_pair("fen"@, q.fen);
    let p7 = crate::http::bool_pair("keepAliveStream"@, q.keep_alive_stream);
    let p8 = crate::http::str_pair("rules"@, q.rules);
    let s0 = p0;
    let s1 = s0 + p1;
    let s2 = s1 + p2;
    let s3 = s2 + p3;
    let s4 = s3 + p4;
    let s5 = s4 + p5;
    let s6 = s5 + p6;
    let s7 = s6 + p7;
    let s8 = s7 + p8;
    assert(q.pairs_view() == s8);
    let v = match q.clock_limit { Some(x) => Some(crate::text::dec_nat(x as nat)), None => None };
    crate::text::lemma_extend(s0, p1, "clock.limit"@, v, true);
    crate::text::lemma_extend(s1, p2, "clock.limit"@, v, false);
    crate::text::lemma_extend(s2, p3, "clock.limit"@, v, false);
    crate::text::lemma_extend(s3, p4, "clock.limit"@, v, false);
    crate::text::lemma_extend(s4, p5, "clock.limit"@, v, false);
    crate::text::lemma_extend(s5, p6, "clock.limit"@, v, false);
    crate::text::lemma_extend(s6, p7, "clock.limit"@, v, false);
    crate::text::lemma_extend(s7, p8, "clock.limit"@, v, false);
}

/// The pairs of [`ChallengeForm`] carry its field under `clock.increment`.
proof fn lemma_challenge_form_clock_increment(q: ChallengeForm)
    ensures
        crate::text::carries(q.pairs_view(), "clock.increment"@, match q.clock_increment { Some(x) => Some(crate::text::dec_nat(x as nat)), None => None }),
{
    reveal_strlit("clock.increment");
    reveal_strlit("clock.limit");
    reveal_strlit("color");
    reveal_strlit("days");
    reveal_strlit("fen");
    reveal_strlit("keepAliveStream");
    reveal_strlit("rated");
    reveal_strlit("rules");
    reveal_strlit("variant");
    assert("clock.increment"@.len() != "clock.limit"@.len());
    assert("clock.increment"@.len() != "color"@.len());
    assert("clock.increment"@.len() != "days"@.len());
    assert("clock.increment"@.len() != "fen"@.len());
    assert("clock.increment"@[0] != "keepAliveStream"@[0]);
    assert("clock.increment"@.len() != "rated"@.len());
    assert("clock.increment"@.len() != "rules"@.len());
    assert("clock.increment"@.len() != "variant"@.len());
    let p0 = crate::http::bool_pair("rated"@, q.rated);
    let p1 = crate::http::nat_pair("clock.limit"@, crate::http::opt_u32(q.clock_limit));
    let p2 = crate::http::nat_pair("clock.increment"@, crate::http::opt_u32(q.clock_increment));
    let p3 = crate::http::nat_pair("days"@, crate::http::opt_u32(q.days));
    let p4 = crate::http::opt_pair("color"@, LichessChallengeColor::opt_wire(q.color));
    let p5 = crate::http::opt_pair("variant"@, LichessVariantKey::opt_wire(q.variant));
    let p6 = crate::http::str_pair("fen"@, q.fen);
    let p7 = crate::http::bool_pair("keepAliveStream"@, q.keep_alive_stream);
    let p8 = crate::http::str_pair("rules"@, q.rules);
    let s0 = p0;
    let s1 = s0 + p1;
    let s2 = s1 + p2;
    let s3 = s2 + p3;
    let s4 = s3 + p4;
    let s5 = s4 + p5;
    let s6 = s5 + p6;
    let s7 = s6 + p7;
    let s8 = s7 + p8;
    assert(q.pairs_view() == s8);
    let v = match q.clock_increment { Some(x) => Some(crate::text::dec_nat(x as nat)), None => None };
    crate::text::lemma_extend(s0, p1, "clock.increment"@, None, false);
    crate::text::lemma_extend(s1, p2, "clock.increment"@, v, true);
    crate::text::lemma_extend(s2, p3, "clock.increment"@, v, false);
    crate::text::lemma_extend(s3, p4, "clock.increment"@, v, false);
    crate::text::lemma_extend(s4, p5, "clock.increment"@, v, false);
    crate::text::lemma_extend(s5, p6, "clock.increment"@, v, false);
    crate::text::lemma_extend(s6, p7, "clock.increment"@, v, false);
    crate::text::lemma_extend(s7, p8, "clock.increment"@, v, false);
}

/// The pairs of [`ChallengeForm`] carry its field under `days`.
proof fn lemma_challenge_form_days(q: ChallengeForm)
    ensures
        crate::text::carries(q.pairs_view(), "days"@, match q.days { Some(x) => Some(crate::text::dec_nat(x as nat)), None => None }),
{
    reveal_strlit("clock.increment");
    reveal_strlit("clock.limit");
    reveal_strlit("color");
    reveal_strlit("days");
    reveal_strlit("fen");
    reveal_strlit("keepAliveStream");
    reveal_strlit("rated");
    reveal_strlit("rules");
    reveal_strlit("variant");
    assert("days"@.len() != "clock.increment"@.len());
    assert("days"@.len() != "clock.limit"@.len());
    assert("days"@.len() != "color"@.len());
    assert("days"@.len() != "fen"@.len());
    assert("days"@.len() != "keepAliveStream"@.len());
    assert("days"@.len() != "rated"@.len());
    assert("days"@.len() != "rules"@.len());
    assert("days"@.len() != "variant"@.len());
    let p0 = crate::http::bool_pair("rated"@, q.rated);
    let p1 = crate::http::nat_pair("clock.limit"@, crate::http::opt_u32(q.clock_limit));
    let p2 = crate::http::nat_pair("clock.increment"@, crate::http::opt_u32(q.clock_increment));
    let p3 = crate::http::nat_pair("days"@, crate::http::opt_u32(q.days));
    let p4 = crate::http::opt_pair("color"@, LichessChallengeColor::opt_wire(q.color));
    let p5 = crate::http::opt_pair("variant"@, LichessVariantKey::opt_wire(q.variant));
    let p6 = crate::http::str_pair("fen"@, q.fen);
    let p7 = crate::http::bool_pair("keepAliveStream"@, q.keep_alive_stream);
    let p8 = crate::http::str_pair("rules"@, q.rules);
    let s0 = p0;
    let s1 = s0 + p1;
    let s2 = s1 + p2;
    let s3 = s2 + p3;
    let s4 = s3 + p4;
    let s5 = s4 + p5;
    let s6 = s5 + p6;
    let s7 = s6 + p7;
    let s8 = s7 + p8;
    assert(q.pairs_view() == s8);
    let v = match q.days { Some(x) => Some(crate::text::dec_nat(x as nat)), None => None };
    crate::text::lemma_extend(s0, p1, "days"@, None, false);
    crate::text::lemma_extend(s1, p2, "days"@, None, false);
    crate::text::lemma_extend(s2, p3, "days"@, v, true);
    crate::text::lemma_extend(s3, p4, "days"@, v, false);
    crate::text::lemma_extend(s4, p5, "days"@, v, false);
    crate::text::lemma_extend(s5, p6, "days"@, v, false);
    crate::text::lemma_extend(s6, p7, "days"@, v, false);
    crate::text::lemma_extend(s7, p8, "days"@, v, false);
}

/// The pairs of [`ChallengeForm`] carry its field under `color`.
proof fn lemma_challenge_form_color(q: ChallengeForm)
    ensures
        crate::text::carries(q.pairs_view(), "color"@, LichessChallengeColor::opt_wire(q.color)),
{
    reveal_strlit("clock.increment");
    reveal_strlit("clock.limit");
    reveal_strlit("color");
    reveal_strlit("days");
    reveal_strlit("fen");
    reveal_strlit("keepAliveStream");
    reveal_strlit("rated");
    reveal_strlit("rules");
    reveal_strlit("variant");
    assert("color"@.len() != "clock.increment"@.len());
    assert("color"@.len() != "clock.limit"@.len());
    assert("color"@.len() != "days"@.len());
    assert("color"@.len() != "fen"@.len());
    assert("color"@.len() != "keepAliveStream"@.len());
    assert("color"@[0] != "rated"@[0]);
    assert("color"@[0] != "rules"@[0]);
    assert("color"@.len() != "variant"@.len());
    let p0 = crate::http::bool_pair("rated"@, q.rated);
    let p1 = crate::http::nat_pair("clock.limit"@, crate::http::opt_u32(q.clock_limit));
    let p2 = crate::http::nat_pair("clock.increment"@, crate::http::opt_u32(q.clock_increment));
    let p3 = crate::http::nat_pair("days"@, crate::http::opt_u32(q.days));
    let p4 = crate::http::opt_pair("color"@, LichessChallengeColor::opt_wire(q.color));
    let p5 = crate::http::opt_pair("variant"@, LichessVariantKey::opt_wire(q.variant));
    let p6 = crate::http::str_pair("fen"@, q.fen);
    let p7 = crate::http::bool_pair("keepAliveStream"@, q.keep_alive_stream);
    let p8 = crate::http::str_pair("rules"@, q.rules);
    let s0 = p0;
    let s1 = s0 + p1;
    let s2 = s1 + p2;
    let s3 = s2 + p3;
    let s4 = s3 + p4;
    let s5 = s4 + p5;
    let s6 = s5 + p6;
    let s7 = s6 + p7;
    let s8 = s7 + p8;
    assert(q.pairs_view() == s8);
    let v = LichessChallengeColor::opt_wire(q.color);
    crate::text::lemma_extend(s0, p1, "color"@, None, false);
    crate::text::lemma_extend(s1, p2, "color"@, None, false);
    crate::text::lemma_extend(s2, p3, "color"@, None, false);
    crate::text::lemma_extend(s3, p4, "color"@, v, true);
    crate::text::lemma_extend(s4, p5, "color"@, v, false);
    crate::text::lemma_extend(s5, p6, "color"@, v, false);
    crate::text::lemma_extend(s6, p7, "color"@, v, false);
    crate::text::lemma_extend(s7, p8, "color"@, v, false);
}

/// The pairs of [`ChallengeForm`] carry its field under `variant`.
proof fn lemma_challenge_form_variant(q: ChallengeForm)
    ensures
        crate::text::carries(q.pairs_view(), "variant"@, LichessVariantKey::opt_wire(q.variant)),
{
    reveal_strlit("clock.increment");
    reveal_strlit("clock.limit");
    reveal_strlit("color");
    reveal_strlit("days");
    reveal_strlit("fen");
    reveal_strlit("keepAliveStream");
    reveal_strlit("rated");
    reveal_strlit("rules");
    reveal_strlit("variant");
    assert("variant"@.len() != "clock.increment"@.len());
    assert("variant"@.len() != "clock.limit"@.len());
    assert("variant"@.len() != "color"@.len());
    assert("variant"@.len() != "days"@.len());
    assert("variant"@.len() != "fen"@.len());
    assert("variant"@.len() != "keepAliveStream"@.len());
    assert("variant"@.len() != "rated"@.len());
    assert("variant"@.len() != "rules"@.len());
    let p0 = crate::http::bool_pair("rated"@, q.rated);
    let p1 = crate::http::nat_pair("clock.limit"@, crate::http::opt_u32(q.clock_limit));
    let p2 = crate::http::nat_pair("clock.increment"@, crate::http::opt_u32(q.clock_increment));
    let p3 = crate::http::nat_pair("days"@, crate::http::opt_u32(q.days));
    let p4 = crate::http::opt_pair("color"@, LichessChallengeColor::opt_wire(q.color));
    let p5 = crate::http::opt_pair("variant"@, LichessVariantKey::opt_wire(q.variant));
    let p6 = crate::http::str_pair("fen"@, q.fen);
    let p7 = crate::http::bool_pair("keepAliveStream"@, q.keep_alive_stream);
    let p8 = crate::http::str_pair("rules"@, q.rules);
    let s0 = p0;
    let s1 = s0 + p1;
    let s2 = s1 + p2;
    let s3 = s2 + p3;
    let s4 = s3 + p4;
    let s5 = s4 + p5;
    let s6 = s5 + p6;
    let s7 = s6 + p7;
    let s8 = s7 + p8;
    assert(q.pairs_view() == s8);
    let v = LichessVariantKey::opt_wire(q.variant);
    crate::text::lemma_extend(s0, p1, "variant"@, None, false);
    crate::text::lemma_extend(s1, p2, "variant"@, None, false);
    crate::text::lemma_extend(s2, p3, "variant"@, None, false);
    crate::text::lemma_extend(s3, p4, "variant"@, None, false);
    crate::text::lemma_extend(s4, p5, "variant"@, v, true);
    crate::text::lemma_extend(s5, p6, "variant"@, v, false);
    crate::text::lemma_extend(s6, p7, "variant"@, v, false);
    crate::text::lemma_extend(s7, p8, "variant"@, v, false);
}

/// The pairs of [`ChallengeForm`] carry its field under `fen`.
proof fn lemma_challenge_form_fen(q: ChallengeForm)
    ensures
        crate::text::carries(q.pairs_view(), "fen"@, match q.fen { Some(v) => Some(v@), None => None }),
{
    reveal_strlit("clock.increment");
    reveal_strlit("clock.limit");
    reveal_strlit("color");
    reveal_strlit("days");
    reveal_strlit("fen");
    reveal_strlit("keepAliveStream");
    reveal_strlit("rated");
    reveal_strlit("rules");
    reveal_strlit("variant");
    assert("fen"@.len() != "clock.increment"@.len());
    assert("fen"@.len() != "clock.limit"@.len());
    assert("fen"@.len() != "color"@.len());
    assert("fen"@.len() != "days"@.len());
    assert("fen"@.len() != "keepAliveStream"@.len());
    assert("fen"@.len() != "rated"@.len());
    assert("fen"@.len() != "rules"@.len());
    assert("fen"@.len() != "variant"@.len());
    let p0 = crate::http::bool_pair("rated"@, q.rated);
    let p1 = crate::http::nat_pair("clock.limit"@, crate::http::opt_u32(q.clock_limit));
    let p2 = crate::http::nat_pair("clock.increment"@, crate::http::opt_u32(q.clock_increment));
    let p3 = crate::http::nat_pair("days"@, crate::http::opt_u32(q.days));
    let p4 = crate::http::opt_pair("color"@, LichessChallengeColor::opt_wire(q.color));
    let p5 = crate::http::opt_pair("variant"@, LichessVariantKey::opt_wire(q.variant));
    let p6 = crate::http::str_pair("fen"@, q.fen);
    let p7 = crate::http::bool_pair("keepAliveStream"@, q.keep_alive_stream);
    let p8 = crate::http::str_pair("rules"@, q.rules);
    let s0 = p0;
    let s1 = s0 + p1;
    let s2 = s1 + p2;
    let s3 = s2 + p3;
    let s4 = s3 + p4;
    let s5 = s4 + p5;
    let s6 = s5 + p6;
    let s7 = s6 + p7;
    let s8 = s7 + p8;
    assert(q.pairs_view() == s8);
    let v = match q.fen { Some(v) => Some(v@), None => None };
    crate::text::lemma_extend(s0, p1, "fen"@, None, false);
    crate::text::lemma_extend(s1, p2, "fen"@, None, false);
    crate::text::lemma_extend(s2, p3, "fen"@, None, false);
    crate::text::lemma_extend(s3, p4, "fen"@, None, false);
    crate::text::lemma_extend(s4, p5, "fen"@, None, false);
    crate::text::lemma_extend(s5, p6, "fen"@, v, true);
    crate::text::lemma_extend(s6, p7, "fen"@, v, false);
    crate::text::lemma_extend(s7, p8, "fen"@, v, false);
}

/// The pairs of [`ChallengeForm`] carry its field under `keepAliveStream`.
proof fn lemma_challenge_form_keep_alive_stream(q: ChallengeForm)
    ensures
        crate::text::carries(q.pairs_view(), "keepAliveStream"@, match q.keep_alive_stream { Some(b) => Some(if b { seq!['t', 'r', 'u', 'e'] } else { seq!['f', 'a', 'l', 's', 'e'] }), None => None }),
{
    reveal_strlit("clock.increment");
    reveal_strlit("clock.limit");
    reveal_strlit("color");
    reveal_strlit("days");
    reveal_strlit("fen");
    reveal_strlit("keepAliveStream");
    reveal_strlit("rated");
    reveal_strlit("rules");
    reveal_strlit("variant");
    assert("keepAliveStream"@[0] != "clock.increment"@[0]);
    assert("keepAliveStream"@.len() != "clock.limit"@.len());
    assert("keepAliveStream"@.len() != "color"@.len());
    assert("keepAliveStream"@.len() != "days"@.len());
    assert("keepAliveStream"@.len() != "fen"@.len());
    assert("keepAliveStream"@.len() != "rated"@.len());
    assert("keepAliveStream"@.len() != "rules"@.len());
    assert("keepAliveStream"@.len() != "variant"@.len());
    let p0 = crate::http::bool_pair("rated"@, q.rated);
    let p1 = crate::http::nat_pair("clock.limit"@, crate::http::opt_u32(q.clock_limit));
    let p2 = crate::http::nat_pair("clock.increment"@, crate::http::opt_u32(q.clock_increment));
    let p3 = crate::http::nat_pair("days"@, crate::http::opt_u32(q.days));
    let p4 = crate::http::opt_pair("color"@, LichessChallengeColor::opt_wire(q.color));
    let p5 = crate::http::opt_pair("variant"@, LichessVariantKey::opt_wire(q.variant));
    let p6 = crate::http::str_pair("fen"@, q.fen);
    let p7 = crate::http::bool_pair("keepAliveStream"@, q.keep_alive_stream);
    let p8 = crate::http::str_pair("rules"@, q.rules);
    let s0 = p0;
    let s1 = s0 + p1;
    let s2 = s1 + p2;
    let s3 = s2 + p3;
    let s4 = s3 + p4;
    let s5 = s4 + p5;
    let s6 = s5 + p6;
    let s7 = s6 + p7;
    let s8 = s7 + p8;
    assert(q.pairs_view() == s8);
    let v = match q.keep_alive_stream { Some(b) => Some(if b { seq!['t', 'r', 'u', 'e'] } else { seq!['f', 'a', 'l', 's', 'e'] }), None => None };
    crate::text::lemma_extend(s0, p1, "keepAliveStream"@, None, false);
    crate::text::lemma_extend(s1, p2, "keepAliveStream"@, None, false);
    crate::text::lemma_extend(s2, p3, "keepAliveStream"@, None, false);
    crate::text::lemma_extend(s3, p4, "keepAliveStream"@, None, false);
    crate::text::lemma_extend(s4, p5, "keepAliveStream"@, None, false);
    crate::text::lemma_extend(s5, p6, "keepAliveStream"@, None, false);
    crate::text::lemma_extend(s6, p7, "keepAliveStream"@, v, true);
    crate::text::lemma_extend(s7, p8, "keepAliveStream"@, v, false);
}

/// The pairs of [`ChallengeForm`] carry its field under `rules`.
proof fn lemma_challenge_form_rules(q: ChallengeForm)
    ensures
        crate::text::carries(q.pairs_view(), "rules"@, match q.rules { Some(v) => Some(v@), None => None }),
{
    reveal_strlit("clock.increment");
    reveal_strlit("clock.limit");
    reveal_strlit("color");
    reveal_strlit("days");
    reveal_strlit("fen");
    reveal_strlit("keepAliveStream");
    reveal_strlit("rated");
    reveal_strlit("rules");
    reveal_strlit("variant");
    assert("rules"@.len() != "clock.increment"@.len());
    assert("rules"@.len() != "clock.limit"@.len());
    assert("rules"@[0] != "color"@[0]);
    assert("rules"@.len() != "days"@.len());
    assert("rules"@.len() != "fen"@.len());
    assert("rules"@.len() != "keepAliveStream"@.len());
    assert("rules"@[1] != "rated"@[1]);
    assert("rules"@.len() != "variant"@.len());
    let p0 = crate::http::bool_pair("rated"@, q.rated);
    let p1 = crate::http::nat_pair("clock.limit"@, crate::http::opt_u32(q.clock_limit));
    let p2 = crate::http::nat_pair("clock.increment"@, crate::http::opt_u32(q.clock_increment));
    let p3 = crate::http::nat_pair("days"@, crate::http::opt_u32(q.days));
    let p4 = crate::http::opt_pair("color"@, LichessChallengeColor::opt_wire(q.color));
    let p5 = crate::http::opt_pair("variant"@, LichessVariantKey::opt_wire(q.variant));
    let p6 = crate::http::str_pair("fen"@, q.fen);
    let p7 = crate::http::bool_pair("keepAliveStream"@, q.keep_alive_stream);
    let p8 = crate::http::str_pair("rules"@, q.rules);
    let s0 = p0;
    let s1 = s0 + p1;
    let s2 = s1 + p2;
    let s3 = s2 + p3;
    let s4 = s3 + p4;
    let s5 = s4 + p5;
    let s6 = s5 + p6;
    let s7 = s6 + p7;
    let s8 = s7 + p8;
    assert(q.pairs_view() == s8);
    let v = match q.rules { Some(v) => Some(v@), None => None };
    crate::text::lemma_extend(s0, p1, "rules"@, None, false);
    crate::text::lemma_extend(s1, p2, "rules"@, None, false);
    crate::text::lemma_extend(s2, p3, "rules"@, None, false);
    crate::text::lemma_extend(s3, p4, "rules"@, None, false);
    crate::text::lemma_extend(s4, p5, "rules"@, None, false);
    crate::text::lemma_extend(s5, p6, "rules"@, None, false);
    crate::text::lemma_extend(s6, p7, "rules"@, None, false);
    crate::text::lemma_extend(s7, p8, "rules"@, v, true);
}

/// The pairs of [`ChallengeForm`] carry each of its fields under that field's own
/// key (`rated`, `clock.limit`, `clock.increment`, `days`, `color`, `variant`, `fen`, `keepAliveStream`, `rules`), with the value given to it, and a key only when its field is set.
pub proof fn lemma_challenge_form_carries_fields(q: ChallengeForm)
    ensures
        crate::text::carries(q.pairs_view(), "rated"@, match q.rated { Some(b) => Some(if b { seq!['t', 'r', 'u', 'e'] } else { seq!['f', 'a', 'l', 's', 'e'] }), None => None }),
        crate::text::carries(q.pairs_view(), "clock.limit"@, match q.clock_limit { Some(x) => Some(crate::text::dec_nat(x as nat)), None => None }),
        crate::text::carries(q.pairs_view(), "clock.increment"@, match q.clock_increment { Some(x) => Some(crate::text::dec_nat(x as nat)), None => None }),
        crate::text::carries(q.pairs_view(), "days"@, match q.days { Some(x) => Some(crate::text::dec_nat(x as nat)), None => None }),
        crate::text::carries(q.pairs_view(), "color"@, LichessChallengeColor::opt_wire(q.color)),
        crate::text::carries(q.pairs_view(), "variant"@, LichessVariantKey::opt_wire(q.variant)),
        crate::text::carries(q.pairs_view(), "fen"@, match q.fen { Some(v) => Some(v@), None => None }),
        crate::text::carries(q.pairs_view(), "keepAliveStream"@, match q.keep_alive_stream { Some(b) => Some(if b { seq!['t', 'r', 'u', 'e'] } else { seq!['f', 'a', 'l', 's', 'e'] }), None => None }),
        crate::text::carries(q.pairs_view(), "rules"@, match q.rules { Some(v) => Some(v@), None => None }),
{
    lemma_challenge_form_rated(q);
    lemma_challenge_form_clock_limit(q);
    lemma_challenge_form_clock_increment(q);
    lemma_challenge_form_days(q);
    lemma_challenge_form_color(q);
    lemma_challenge_form_variant(q);
    lemma_challenge_form_fen(q);
    lemma_challenge_form_keep_alive_stream(q);
    lemma_challenge_form_rules(q);
}

impl<'a> ChallengeForm<'a> {
    /// The query pairs, in order.
    pub open spec fn pairs_view(self) -> crate::text::Pairs {
        crate::http::bool_pair("rated"@, self.rated)
            + crate::http::nat_pair("clock.limit"@, crate::http::opt_u32(self.clock_limit))
            + crate::http::nat_pair("clock.increment"@, crate::http::opt_u32(self.clock_increment))
            + crate::http::nat_pair("days"@, crate::http::opt_u32(self.days))
            + crate::http::opt_pair("color"@, LichessChallengeColor::opt_wire(self.color))
            + crate::http::opt_pair("variant"@, LichessVariantKey::opt_wire(self.variant))
            + crate::http::str_pair("fen"@, self.fen)
            + crate::http::bool_pair("keepAliveStream"@, self.keep_alive_stream)
            + crate::http::str_pair("rules"@, self.rules)
    }

    /// The query pairs.
    #[verifier::rlimit(40)]
    pub fn pairs(&self) -> (r: Vec<(String, String)>)
        ensures
            r.deep_view() == self.pairs_view(),
    {
        let mut out: Vec<(String, String)> = Vec::new();
        crate::http::push_opt_bool(&mut out, "rated", self.rated);
        crate::http::push_opt_u32(&mut out, "clock.limit", self.clock_limit);
        crate::http::push_opt_u32(&mut out, "clock.increment", self.clock_increment);
        crate::http::push_opt_u32(&mut out, "days", self.days);
        match self.color {
            Some(x) => crate::http::push_pair(&mut out, "color", String::from_str(x.as_str())),
            None => {},
        }
        match self.variant {
            Some(x) => crate::http::push_pair(&mut out, "variant", String::from_str(x.as_str())),
            None => {},
        }
        crate::http::push_opt_str(&mut out, "fen", self.fen);
        crate::http::push_opt_bool(&mut out, "keepAliveStream", self.keep_alive_stream);
        crate::http::push_opt_str(&mut out, "rules", self.rules);
        assert(out.deep_view() =~= self.pairs_view());
        out
    }

    /// The query with every filter unset.
    pub open spec fn blank() -> Self {
        ChallengeForm {
            rated: None,
            clock_limit: None,
            clock_increment: None,
            days: None,
            color: None,
            variant: None,
            fen: None,
            keep_alive_stream: None,
            rules: None,
        }
    }
}

impl<'a> Default for ChallengeForm<'a> {
    /// Every filter unset.
    fn default() -> (r: Self)
        ensures
            r == Self::blank(),
    {
        ChallengeForm {
            rated: None,
            clock_limit: None,
            clock_increment: None,
            days: None,
            color: None,
            variant: None,
            fen: None,
            keep_alive_stream: None,
            rules: None,
        }
    }
}

/// Builder for challenging a specific user.
#[derive(Debug)]
pub struct ChallengeRequest<'a> {
    client: &'a LichessClient,
    username: &'a str,
    form: ChallengeForm<'a>,
}

impl<'a> ChallengeRequest<'a> {
    /// The client the builder is bound to.
    pub closed spec fn client_of(&self) -> &'a LichessClient {
        self.client
    }

    /// The challenged user.
    pub closed spec fn username_of(&self) -> &'a str {
        self.username
    }

    /// The form built so far.
    pub closed spec fn form_of(&self) -> ChallengeForm<'a> {
        self.form
    }

    /// Creates the request builder.
    pub fn new(client: &'a LichessClient, username: &'a str) -> (r: Self)
        ensures
            r.client_of() == client,
            r.username_of() == username,
            r.form_of() == ChallengeForm::blank(),
    {
        ChallengeRequest { client, username, form: ChallengeForm::default() }
    }

    /// Sets whether the game is rated.
    pub fn rated(self, rated: bool) -> (r: Self)
        ensures
            r.form_of() == (ChallengeForm { rated: Some(rated), ..self.form_of() }),
            r.client_of() == self.client_of(),
            r.username_of() == self.username_of(),
    {
        let mut r = self;
        r.form.rated = Some(rated);
        r
    }

    /// Sets a real-time clock (initial seconds + increment seconds).
    pub fn clock(self, limit_secs: u32, increment_secs: u32) -> (r: Self)
        ensures
            r.form_of() == (ChallengeForm {
                clock_limit: Some(limit_secs),
                clock_increment: Some(increment_secs),
                ..self.form_of()
            }),
            r.client_of() == self.client_of(),
            r.username_of() == self.username_of(),
    {
        let mut r = self;
        r.form.clock_limit = Some(limit_secs);
        r.form.clock_increment = Some(increment_secs);
        r
    }

    /// Sets days per turn for a correspondence challenge.
    pub fn days(self, days: u32) -> (r: Self)
        ensures
            r.form_of() == (ChallengeForm { days: Some(days), ..self.form_of() }),
            r.client_of() == self.client_of(),
            r.username_of() == self.username_of(),
    {
        let mut r = self;
        r.form.days = Some(days);
        r
    }

    /// Sets the requested color.
    pub fn color(self, color: LichessChallengeColor) -> (r: Self)
        ensures
            r.form_of() == (ChallengeForm { color: Some(color), ..self.form_of() }),
            r.client_of() == self.client_of(),
            r.username_of() == self.username_of(),
    {
        let mut r = self;
        r.form.color = Some(color);
        r
    }

    /// Sets the variant.
    pub fn variant(self, variant: LichessVariantKey) -> (r: Self)
        ensures
            r.form_of() == (ChallengeForm { variant: Some(variant), ..self.form_of() }),
            r.client_of() == self.client_of(),
            r.username_of() == self.username_of(),
    {
        let mut r = self;
        r.form.variant = Some(variant);
        r
    }

    /// Sets a custom starting position (FEN).
    pub fn fen(self, fen: &'a str) -> (r: Self)
        ensures
            r.form_of() == (ChallengeForm { fen: Some(fen), ..self.form_of() }),
            r.client_of() == self.client_of(),
            r.username_of() == self.username_of(),
    {
        let mut r = self;
        r.form.fen = Some(fen);
        r
    }

    /// Sets extra game rules (comma-separated, e.g. `noRematch,noGiveTime`).
    pub fn rules(self, rules: &'a str) -> (r: Self)
        ensures
            r.form_of() == (ChallengeForm { rules: Some(rules), ..self.form_of() }),
            r.client_of() == self.client_of(),
            r.username_of() == self.username_of(),
    {
        let mut r = self;
        r.form.rules = Some(rules);
        r
    }

    /// The path the challenge is posted to.
    pub open spec fn path_view(username: &str) -> Seq<char> {
        "/api/challenge/"@ + crate::text::segment_text(username@) + ""@
    }

    /// Sends the challenge, returning it immediately.
    pub fn send(self) -> (r: ApiRequest)
        ensures
            r@ == crate::http::bare(
                Method::Post,
                Host::Default,
                Self::path_view(self.username_of()),
            )
                .with_body(
                crate::http::BodyView::Form(self.form_of().pairs_view()),
            ),
    {
        let path = crate::http::path1("/api/challenge/", self.username, "");
        let form = self.form.pairs();
        self.client.request(Method::Post, Host::Default, path).form(form)
    }

    /// Sends the challenge with `keepAliveStream`, as an NDJSON stream that is
    /// held open and emits status updates (e.g. `{"done":"accepted"}`) until
    /// the challenge is accepted, declined, or canceled.
    pub fn stream(self) -> (r: ApiRequest)
        ensures
            r@ == crate::http::bare(
                Method::Post,
                Host::Default,
                Self::path_view(self.username_of()),
            )
                .with_body(
                crate::http::BodyView::Form(
                    (ChallengeForm { keep_alive_stream: Some(true), ..self.form_of() })
                        .pairs_view(),
                ),
            ).with_accept(Accept::Ndjson),
    {
        let mut form = self.form;
        form.keep_alive_stream = Some(true);
        let path = crate::http::path1("/api/challenge/", self.username, "");
        let pairs = form.pairs();
        self.client.request(Method::Post, Host::Default, path).form(pairs).accept(Accept::Ndjson)
    }
}

/// Form body for challenging the AI (`POST /api/challenge/ai`).
#[derive(Debug, Clone)]
pub struct AiChallengeForm<'a> {
    /// The AI level (1-8).
    pub level: u8,
    /// Initial clock time in seconds.
    pub clock_limit: Option<u32>,
    /// Clock increment in seconds.
    pub clock_increment: Option<u32>,
    /// Days per turn.
    pub days: Option<u32>,
    /// The color the authenticated user plays.
    pub color: Option<LichessChallengeColor>,
    /// The variant.
    pub variant: Option<LichessVariantKey>,
    /// A custom starting position.
    pub fen: Option<&'a str>,
}

/// The pairs of [`AiChallengeForm`] carry its field under `level`.
proof fn lemma_ai_challenge_form_level(q: AiChallengeForm)
    ensures
        crate::text::carries(q.pairs_view(), "level"@, Some(crate::text::dec_nat(q.level as nat))),
{
    reveal_strlit("clock.increment");
    reveal_strlit("clock.limit");
    reveal_strlit("color");
    reveal_strlit("days");
    reveal_strlit("fen");
    reveal_strlit("level");
    reveal_strlit("variant");
    assert("level"@.len() != "clock.increment"@.len());
    assert("level"@.len() != "clock.limit"@.len());
    assert("level"@[0] != "color"@[0]);
    assert("level"@.len() != "days"@.len());
    assert("level"@.len() != "fen"@.len());
    assert("level"@.len() != "variant"@.len());
    let p0 = seq![("level"@, crate::text::dec_nat(q.level as nat))];
    let p1 = crate::http::nat_pair("clock.limit"@, crate::http::opt_u32(q.clock_limit));
    let p2 = crate::http::nat_pair("clock.increment"@, crate::http::opt_u32(q.clock_increment));
    let p3 = crate::http::nat_pair("days"@, crate::http::opt_u32(q.days));
    let p4 = crate::http::opt_pair("color"@, LichessChallengeColor::opt_wire(q.color));
    let p5 = crate::http::opt_pair("variant"@, LichessVariantKey::opt_wire(q.variant));
    let p6 = crate::http::str_pair("fen"@, q.fen);
    let s0 = p0;
    let s1 = s0 + p1;
    let s2 = s1 + p2;
    let s3 = s2 + p3;
    let s4 = s3 + p4;
    let s5 = s4 + p5;
    let s6 = s5 + p6;
    assert(q.pairs_view() == s6);
    let v = Some(crate::text::dec_nat(q.level as nat));
    assert(p0 == crate::text::one_pair("level"@, v));
    crate::text::lemma_one_pair_carries("level"@, v);
    crate::text::lemma_extend(s0, p1, "level"@, v, false);
    crate::text::lemma_extend(s1, p2, "level"@, v, false);
    crate::text::lemma_extend(s2, p3, "level"@, v, false);
    crate::text::lemma_extend(s3, p4, "level"@, v, false);
    crate::text::lemma_extend(s4, p5, "level"@, v, false);
    crate::text::lemma_extend(s5, p6, "level"@, v, false);
}

/// The pairs of [`AiChallengeForm`] carry its field under `clock.limit`.
proof fn lemma_ai_challenge_form_clock_limit(q: AiChallengeForm)
    ensures
        crate::text::carries(q.pairs_view(), "clock.limit"@, match q.clock_limit { Some(x) => Some(crate::text::dec_nat(x as nat)), None => None }),
{
    reveal_strlit("clock.increment");
    reveal_strlit("clock.limit");
    reveal_strlit("color");
    reveal_strlit("days");
    reveal_strlit("fen");
    reveal_strlit("level");
    reveal_strlit("variant");
    assert("clock.limit"@.len() != "clock.increment"@.len());
    assert("clock.limit"@.len() != "color"@.len());
    assert("clock.limit"@.len() != "days"@.len());
    assert("clock.limit"@.len() != "fen"@.len());
    assert("clock.limit"@.len() != "level"@.len());
    assert("clock.limit"@.len() != "variant"@.len());
    let p0 = seq![("level"@, crate::text::dec_nat(q.level as nat))];
    let p1 = crate::http::nat_pair("clock.limit"@, crate::http::opt_u32(q.clock_limit));
    let p2 = crate::http::nat_pair("clock.increment"@, crate::http::opt_u32(q.clock_increment));
    let p3 = crate::http::nat_pair("days"@, crate::http::opt_u32(q.days));
    let p4 = crate::http::opt_pair("color"@, LichessChallengeColor::opt_wire(q.color));
    let p5 = crate::http::opt_pair("variant"@, LichessVariantKey::opt_wire(q.variant));
    let p6 = crate::http::str_pair("fen"@, q.fen);
    let s0 = p0;
    let s1 = s0 + p1;
    let s2 = s1 + p2;
    let s3 = s2 + p3;
    let s4 = s3 + p4;
    let s5 = s4 + p5;
    let s6 = s5 + p6;
    assert(q.pairs_view() == s6);
    let v = match q.clock_limit { Some(x) => Some(crate::text::dec_nat(x as nat)), None => None };
    crate::text::lemma_extend(s0, p1, "clock.limit"@, v, true);
    crate::text::lemma_extend(s1, p2, "clock.limit"@, v, false);
    crate::text::lemma_extend(s2, p3, "clock.limit"@, v, false);
    crate::text::lemma_extend(s3, p4, "clock.limit"@, v, false);
    crate::text::lemma_extend(s4, p5, "clock.limit"@, v, false);
    crate::text::lemma_extend(s5, p6, "clock.limit"@, v, false);
}

/// The pairs of [`AiChallengeForm`] carry its field under `clock.increment`.
proof fn lemma_ai_challenge_form_clock_increment(q: AiChallengeForm)
    ensures
        crate::text::carries(q.pairs_view(), "clock.increment"@, match q.clock_increment { Some(x) => Some(crate::text::dec_nat(x as nat)), None => None }),
{
    reveal_strlit("clock.increment");
    reveal_strlit("clock.limit");
    reveal_strlit("color");
    reveal_strlit("days");
    reveal_strlit("fen");
    reveal_strlit("level");
    reveal_strlit("variant");
    assert("clock.increment"@.len() != "clock.limit"@.len());
    assert("clock.increment"@.len() != "color"@.len());
    assert("clock.increment"@.len() != "days"@.len());
    assert("clock.increment"@.len() != "fen"@.len());
    assert("clock.increment"@.len() != "level"@.len());
    assert("clock.increment"@.len() != "variant"@.len());
    let p0 = seq![("level"@, crate::text::dec_nat(q.level as nat))];
    let p1 = crate::http::nat_pair("clock.limit"@, crate::http::opt_u32(q.clock_limit));
    let p2 = crate::http::nat_pair("clock.increment"@, crate::http::opt_u32(q.clock_increment));
    let p3 = crate::http::nat_pair("days"@, crate::http::opt_u32(q.days));
    let p4 = crate::http::opt_pair("color"@, LichessChallengeColor::opt_wire(q.color));
    let p5 = crate::http::opt_pair("variant"@, LichessVariantKey::opt_wire(q.variant));
    let p6 = crate::http::str_pair("fen"@, q.fen);
    let s0 = p0;
    let s1 = s0 + p1;
    let s2 = s1 + p2;
    let s3 = s2 + p3;
    let s4 = s3 + p4;
    let s5 = s4 + p5;
    let s6 = s5 + p6;
    assert(q.pairs_view() == s6);
    let v = match q.clock_increment { Some(x) => Some(crate::text::dec_nat(x as nat)), None => None };
    crate::text::lemma_extend(s0, p1, "clock.increment"@, None, false);
    crate::text::lemma_extend(s1, p2, "clock.increment"@, v, true);
    crate::text::lemma_extend(s2, p3, "clock.increment"@, v, false);
    crate::text::lemma_extend(s3, p4, "clock.increment"@, v, false);
    crate::text::lemma_extend(s4, p5, "clock.increment"@, v, false);
    crate::text::lemma_extend(s5, p6, "clock.increment"@, v, false);
}

/// The pairs of [`AiChallengeForm`] carry its field under `days`.
proof fn lemma_ai_challenge_form_days(q: AiChallengeForm)
    ensures
        crate::text::carries(q.pairs_view(), "days"@, match q.days { Some(x) => Some(crate::text::dec_nat(x as nat)), None => None }),
{
    reveal_strlit("clock.increment");
    reveal_strlit("clock.limit");
    reveal_strlit("color");
    reveal_strlit("days");
    reveal_strlit("fen");
    reveal_strlit("level");
    reveal_strlit("variant");
    assert("days"@.len() != "clock.increment"@.len());
    assert("days"@.len() != "clock.limit"@.len());
    assert("days"@.len() != "color"@.len());
    assert("days"@.len() != "fen"@.len());
    assert("days"@.len() != "level"@.len());
    assert("days"@.len() != "variant"@.len());
    let p0 = seq![("level"@, crate::text::dec_nat(q.level as nat))];
    let p1 = crate::http::nat_pair("clock.limit"@, crate::http::opt_u32(q.clock_limit));
    let p2 = crate::http::nat_pair("clock.increment"@, crate::http::opt_u32(q.clock_increment));
    let p3 = crate::http::nat_pair("days"@, crate::http::opt_u32(q.days));
    let p4 = crate::http::opt_pair("color"@, LichessChallengeColor::opt_wire(q.color));
    let p5 = crate::http::opt_pair("variant"@, LichessVariantKey::opt_wire(q.variant));
    let p6 = crate::http::str_pair("fen"@, q.fen);
    let s0 = p0;
    let s1 = s0 + p1;
    let s2 = s1 + p2;
    let s3 = s2 + p3;
    let s4 = s3 + p4;
    let s5 = s4 + p5;
    let s6 = s5 + p6;
    assert(q.pairs_view() == s6);
    let v = match q.days { Some(x) => Some(crate::text::dec_nat(x as nat)), None => None };
    crate::text::lemma_extend(s0, p1, "days"@, None, false);
    crate::text::lemma_extend(s1, p2, "days"@, None, false);
    crate::text::lemma_extend(s2, p3, "days"@, v, true);
    crate::text::lemma_extend(s3, p4, "days"@, v, false);
    crate::text::lemma_extend(s4, p5, "days"@, v, false);
    crate::text::lemma_extend(s5, p6, "days"@, v, false);
}

/// The pairs of [`AiChallengeForm`] carry its field under `color`.
proof fn lemma_ai_challenge_form_color(q: AiChallengeForm)
    ensures
        crate::text::carries(q.pairs_view(), "color"@, LichessChallengeColor::opt_wire(q.color)),
{
    reveal_strlit("clock.increment");
    reveal_strlit("clock.limit");
    reveal_strlit("color");
    reveal_strlit("days");
    reveal_strlit("fen");
    reveal_strlit("level");
    reveal_strlit("variant");
    assert("color"@.len() != "clock.increment"@.len());
    assert("color"@.len() != "clock.limit"@.len());
    assert("color"@.len() != "days"@.len());
    assert("color"@.len() != "fen"@.len());
    assert("color"@[0] != "level"@[0]);
    assert("color"@.len() != "variant"@.len());
    let p0 = seq![("level"@, crate::text::dec_nat(q.level as nat))];
    let p1 = crate::http::nat_pair("clock.limit"@, crate::http::opt_u32(q.clock_limit));
    let p2 = crate::http::nat_pair("clock.increment"@, crate::http::opt_u32(q.clock_increment));
    let p3 = crate::http::nat_pair("days"@, crate::http::opt_u32(q.days));
    let p4 = crate::http::opt_pair("color"@, LichessChallengeColor::opt_wire(q.color));
    let p5 = crate::http::opt_pair("variant"@, LichessVariantKey::opt_wire(q.variant));
    let p6 = crate::http::str_pair("fen"@, q.fen);
    let s0 = p0;
    let s1 = s0 + p1;
    let s2 = s1 + p2;
    let s3 = s2 + p3;
    let s4 = s3 + p4;
    let s5 = s4 + p5;
    let s6 = s5 + p6;
    assert(q.pairs_view() == s6);
    let v = LichessChallengeColor::opt_wire(q.color);
    crate::text::lemma_extend(s0, p1, "color"@, None, false);
    crate::text::lemma_extend(s1, p2, "color"@, None, false);
    crate::text::lemma_extend(s2, p3, "color"@, None, false);
    crate::text::lemma_extend(s3, p4, "color"@, v, true);
    crate::text::lemma_extend(s4, p5, "color"@, v, false);
    crate::text::lemma_extend(s5, p6, "color"@, v, false);
}

/// The pairs of [`AiChallengeForm`] carry its field under `variant`.
proof fn lemma_ai_challenge_form_variant(q: AiChallengeForm)
    ensures
        crate::text::carries(q.pairs_view(), "variant"@, LichessVariantKey::opt_wire(q.variant)),
{
    reveal_strlit("clock.increment");
    reveal_strlit("clock.limit");
    reveal_strlit("color");
    reveal_strlit("days");
    reveal_strlit("fen");
    reveal_strlit("level");
    reveal_strlit("variant");
    assert("variant"@.len() != "clock.increment"@.len());
    assert("variant"@.len() != "clock.limit"@.len());
    assert("variant"@.len() != "color"@.len());
    assert("variant"@.len() != "days"@.len());
    assert("variant"@.len() != "fen"@.len());
    assert("variant"@.len() != "level"@.len());
    let p0 = seq![("level"@, crate::text::dec_nat(q.level as nat))];
    let p1 = crate::http::nat_pair("clock.limit"@, crate::http::opt_u32(q.clock_limit));
    let p2 = crate::http::nat_pair("clock.increment"@, crate::http::opt_u32(q.clock_increment));
    let p3 = crate::http::nat_pair("days"@, crate::http::opt_u32(q.days));
    let p4 = crate::http::opt_pair("color"@, LichessChallengeColor::opt_wire(q.color));
    let p5 = crate::http::opt_pair("variant"@, LichessVariantKey::opt_wire(q.variant));
    let p6 = crate::http::str_pair("fen"@, q.fen);
    let s0 = p0;
    let s1 = s0 + p1;
    let s2 = s1 + p2;
    let s3 = s2 + p3;
    let s4 = s3 + p4;
    let s5 = s4 + p5;
    let s6 = s5 + p6;
    assert(q.pairs_view() == s6);
    let v = LichessVariantKey::opt_wire(q.variant);
    crate::text::lemma_extend(s0, p1, "variant"@, None, false);
    crate::text::lemma_extend(s1, p2, "variant"@, None, false);
    crate::text::lemma_extend(s2, p3, "variant"@, None, false);
    crate::text::lemma_extend(s3, p4, "variant"@, None, false);
    crate::text::lemma_extend(s4, p5, "variant"@, v, true);
    crate::text::lemma_extend(s5, p6, "variant"@, v, false);
}

/// The pairs of [`AiChallengeForm`] carry its field under `fen`.
proof fn lemma_ai_challenge_form_fen(q: AiChallengeForm)
    ensures
        crate::text::carries(q.pairs_view(), "fen"@, match q.fen { Some(v) => Some(v@), None => None }),
{
    reveal_strlit("clock.increment");
    reveal_strlit("clock.limit");
    reveal_strlit("color");
    reveal_strlit("days");
    reveal_strlit("fen");
    reveal_strlit("level");
    reveal_strlit("variant");
    assert("fen"@.len() != "clock.increment"@.len());
    assert("fen"@.len() != "clock.limit"@.len());
    assert("fen"@.len() != "color"@.len());
    assert("fen"@.len() != "days"@.len());
    assert("fen"@.len() != "level"@.len());
    assert("fen"@.len() != "variant"@.len());
    let p0 = seq![("level"@, crate::text::dec_nat(q.level as nat))];
    let p1 = crate::http::nat_pair("clock.limit"@, crate::http::opt_u32(q.clock_limit));
    let p2 = crate::http::nat_pair("clock.increment"@, crate::http::opt_u32(q.clock_increment));
    let p3 = crate::http::nat_pair("days"@, crate::http::opt_u32(q.days));
    let p4 = crate::http::opt_pair("color"@, LichessChallengeColor::opt_wire(q.color));
    let p5 = crate::http::opt_pair("variant"@, LichessVariantKey::opt_wire(q.variant));
    let p6 = crate::http::str_pair("fen"@, q.fen);
    let s0 = p0;
    let s1 = s0 + p1;
    let s2 = s1 + p2;
    let s3 = s2 + p3;
    let s4 = s3 + p4;
    let s5 = s4 + p5;
    let s6 = s5 + p6;
    assert(q.pairs_view() == s6);
    let v = match q.fen { Some(v) => Some(v@), None => None };
    crate::text::lemma_extend(s0, p1, "fen"@, None, false);
    crate::text::lemma_extend(s1, p2, "fen"@, None, false);
    crate::text::lemma_extend(s2, p3, "fen"@, None, false);
    crate::text::lemma_extend(s3, p4, "fen"@, None, false);
    crate::text::lemma_extend(s4, p5, "fen"@, None, false);
    crate::text::lemma_extend(s5, p6, "fen"@, v, true);
}

/// The pairs of [`AiChallengeForm`] carry each of its fields under that field's own
/// key (`level`, `clock.limit`, `clock.increment`, `days`, `color`, `variant`, `fen`), with the value given to it, and a key only when its field is set.
pub proof fn lemma_ai_challenge_form_carries_fields(q: AiChallengeForm)
    ensures
        crate::text::carries(q.pairs_view(), "level"@, Some(crate::text::dec_nat(q.level as nat))),
        crate::text::carries(q.pairs_view(), "clock.limit"@, match q.clock_limit { Some(x) => Some(crate::text::dec_nat(x as nat)), None => None }),
        crate::text::carries(q.pairs_view(), "clock.increment"@, match q.clock_increment { Some(x) => Some(crate::text::dec_nat(x as nat)), None => None }),
        crate::text::carries(q.pairs_view(), "days"@, match q.days { Some(x) => Some(crate::text::dec_nat(x as nat)), None => None }),
        crate::text::carries(q.pairs_view(), "color"@, LichessChallengeColor::opt_wire(q.color)),
        crate::text::carries(q.pairs_view(), "variant"@, LichessVariantKey::opt_wire(q.variant)),
        crate::text::carries(q.pairs_view(), "fen"@, match q.fen { Some(v) => Some(v@), None => None }),
{
    lemma_ai_challenge_form_level(q);
    lemma_ai_challenge_form_clock_limit(q);
    lemma_ai_challenge_form_clock_increment(q);
    lemma_ai_challenge_form_days(q);
    lemma_ai_challenge_form_color(q);
    lemma_ai_challenge_form_variant(q);
    lemma_ai_challenge_form_fen(q);
}

impl<'a> AiChallengeForm<'a> {
    /// The form for `level` with every option unset.
    pub open spec fn with_level(level: u8) -> Self {
        AiChallengeForm {
            level,
            clock_limit: None,
            clock_increment: None,
            days: None,
            color: None,
            variant: None,
            fen: None,
        }
    }

    /// The query pairs, in order.
    pub open spec fn pairs_view(self) -> crate::text::Pairs {
        seq![("level"@, crate::text::dec_nat(self.level as nat))]
            + crate::http::nat_pair("clock.limit"@, crate::http::opt_u32(self.clock_limit))
            + crate::http::nat_pair("clock.increment"@, crate::http::opt_u32(self.clock_increment))
            + crate::http::nat_pair("days"@, crate::http::opt_u32(self.days))
            + crate::http::opt_pair("color"@, LichessChallengeColor::opt_wire(self.color))
            + crate::http::opt_pair("variant"@, LichessVariantKey::opt_wire(self.variant))
            + crate::http::str_pair("fen"@, self.fen)
    }

    /// The query pairs.
    pub fn pairs(&self) -> (r: Vec<(String, String)>)
        ensures
            r.deep_view() == self.pairs_view(),
    {
        let mut out: Vec<(String, String)> = Vec::new();
        crate::http::push_pair(&mut out, "level", crate::text::u64_to_string(self.level as u64));
        crate::http::push_opt_u32(&mut out, "clock.limit", self.clock_limit);
        crate::http::push_opt_u32(&mut out, "clock.increment", self.clock_increment);
        crate::http::push_opt_u32(&mut out, "days", self.days);
        match self.color {
            Some(x) => crate::http::push_pair(&mut out, "color", String::from_str(x.as_str())),
            None => {},
        }
        match self.variant {
            Some(x) => crate::http::push_pair(&mut out, "variant", String::from_str(x.as_str())),
            None => {},
        }
        crate::http::push_opt_str(&mut out, "fen", self.fen);
        assert(out.deep_view() =~= self.pairs_view());
        out
    }
}

/// Builder for challenging the Lichess AI.
#[derive(Debug)]
pub struct AiChallengeRequest<'a> {
    client: &'a LichessClient,
    form: AiChallengeForm<'a>,
}

impl<'a> AiChallengeRequest<'a> {
    /// The client the builder is bound to.
    pub closed spec fn client_of(&self) -> &'a LichessClient {
        self.client
    }

    /// The form built so far.
    pub closed spec fn form_of(&self) -> AiChallengeForm<'a> {
        self.form
    }

    /// Creates the request builder.
    pub fn new(client: &'a LichessClient, level: u8) -> (r: Self)
        ensures
            r.client_of() == client,
            r.form_of() == AiChallengeForm::with_level(level),
    {
        AiChallengeRequest {
            client,
            form: AiChallengeForm {
                level,
                clock_limit: None,
                clock_increment: None,
                days: None,
                color: None,
                variant: None,
                fen: None,
            },
        }
    }

    /// Sets a real-time clock (initial seconds + increment seconds).
    pub fn clock(self, limit_secs: u32, increment_secs: u32) -> (r: Self)
        ensures
            r.form_of() == (AiChallengeForm {
                clock_limit: Some(limit_secs),
                clock_increment: Some(increment_secs),
                ..self.form_of()
            }),
            r.client_of() == self.client_of(),
    {
        let mut r = self;
        r.form.clock_limit = Some(limit_secs);
        r.form.clock_increment = Some(increment_secs);
        r
    }

    /// Sets days per turn for a correspondence game.
    pub fn days(self, days: u32) -> (r: Self)
        ensures
            r.form_of() == (AiChallengeForm { days: Some(days), ..self.form_of() }),
            r.client_of() == self.client_of(),
    {
        let mut r = self;
        r.form.days = Some(days);
        r
    }

    /// Sets the color the authenticated user plays.
    pub fn color(self, color: LichessChallengeColor) -> (r: Self)
        ensures
            r.form_of() == (AiChallengeForm { color: Some(color), ..self.form_of() }),
            r.client_of() == self.client_of(),
    {
        let mut r = self;
        r.form.color = Some(color);
        r
    }

    /// Sets the variant.
    pub fn variant(self, variant: LichessVariantKey) -> (r: Self)
        ensures
            r.form_of() == (AiChallengeForm { variant: Some(variant), ..self.form_of() }),
            r.client_of() == self.client_of(),
    {
        let mut r = self;
        r.form.variant = Some(variant);
        r
    }

    /// Sets a custom starting position (FEN).
    pub fn fen(self, fen: &'a str) -> (r: Self)
        ensures
            r.form_of() == (AiChallengeForm { fen: Some(fen), ..self.form_of() }),
            r.client_of() == self.client_of(),
    {
        let mut r = self;
        r.form.fen = Some(fen);
        r
    }

    /// Starts the game against the AI.
    pub fn send(self) -> (r: ApiRequest)
        ensures
            r@ == crate::http::bare(Method::Post, Host::Default, "/api/challenge/ai"@)
                .with_body(crate::http::BodyView::Form(self.form_of().pairs_view())),
    {
        let path = String::from_str("/api/challenge/ai");
        self.client.request(Method::Post, Host::Default, path).form(self.form.pairs())
    }
}

/// Form body for an open challenge (`POST /api/challenge/open`).
#[derive(Debug, Clone)]
pub struct OpenForm<'a> {
    /// Whether the game is rated.
    pub rated: Option<bool>,
    /// Initial clock time in seconds.
    pub clock_limit: Option<u32>,
    /// Clock increment in seconds.
    pub clock_increment: Option<u32>,
    /// Days per turn.
    pub days: Option<u32>,
    /// The variant.
    pub variant: Option<LichessVariantKey>,
    /// A name shown on the challenge page.
    pub name: Option<&'a str>,
    /// A custom starting position.
    pub fen: Option<&'a str>,
    /// Extra game rules.
    pub rules: Option<&'a str>,
    /// The two usernames who may play.
    pub users: Option<&'a str>,
    /// When the challenge expires (Unix milliseconds).
    pub expires_at: Option<i64>,
}

/// The pairs of [`OpenForm`] carry its field under `rated`.
proof fn lemma_open_form_rated(q: OpenForm)
    ensures
        crate::text::carries(q.pairs_view(), "rated"@, match q.rated { Some(b) => Some(if b { seq!['t', 'r', 'u', 'e'] } else { seq!['f', 'a', 'l', 's', 'e'] }), None => None }),
{
    reveal_strlit("clock.increment");
    reveal_strlit("clock.limit");
    reveal_strlit("days");
    reveal_strlit("expiresAt");
    reveal_strlit("fen");
    reveal_strlit("name");
    reveal_strlit("rated");
    reveal_strlit("rules");
    reveal_strlit("users");
    reveal_strlit("variant");
    assert("rated"@.len() != "clock.increment"@.len());
    assert("rated"@.len() != "clock.limit"@.len());
    assert("rated"@.len() != "days"@.len());
    assert("rated"@.len() != "expiresAt"@.len());
    assert("rated"@.len() != "fen"@.len());
    assert("rated"@.len() != "name"@.len());
    assert("rated"@[1] != "rules"@[1]);
    assert("rated"@[0] != "users"@[0]);
    assert("rated"@.len() != "variant"@.len());
    let p0 = crate::http::bool_pair("rated"@, q.rated);
    let p1 = crate::http::nat_pair("clock.limit"@, crate::http::opt_u32(q.clock_limit));
    let p2 = crate::http::nat_pair("clock.increment"@, crate::http::opt_u32(q.clock_increment));
    let p3 = crate::http::nat_pair("days"@, crate::http::opt_u32(q.days));
    let p4 = crate::http::opt_pair("variant"@, LichessVariantKey::opt_wire(q.variant));
    let p5 = crate::http::str_pair("name"@, q.name);
    let p6 = crate::http::str_pair("fen"@, q.fen);
    let p7 = crate::http::str_pair("rules"@, q.rules);
    let p8 = crate::http::str_pair("users"@, q.users);
    let p9 = crate::http::int_pair("expiresAt"@, crate::http::opt_i64(q.expires_at));
    let s0 = p0;
    let s1 = s0 + p1;
    let s2 = s1 + p2;
    let s3 = s2 + p3;
    let s4 = s3 + p4;
    let s5 = s4 + p5;
    let s6 = s5 + p6;
    let s7 = s6 + p7;
    let s8 = s7 + p8;
    let s9 = s8 + p9;
    assert(q.pairs_view() == s9);
    let v = match q.rated { Some(b) => Some(if b { seq!['t', 'r', 'u', 'e'] } else { seq!['f', 'a', 'l', 's', 'e'] }), None => None };
    assert(p0 == crate::text::one_pair("rated"@, v));
    crate::text::lemma_one_pair_carries("rated"@, v);
    crate::text::lemma_extend(s0, p1, "rated"@, v, false);
    crate::text::lemma_extend(s1, p2, "rated"@, v, false);
    crate::text::lemma_extend(s2, p3, "rated"@, v, false);
    crate::text::lemma_extend(s3, p4, "rated"@, v, false);
    crate::text::lemma_extend(s4, p5, "rated"@, v, false);
    crate::text::lemma_extend(s5, p6, "rated"@, v, false);
    crate::text::lemma_extend(s6, p7, "rated"@, v, false);
    crate::text::lemma_extend(s7, p8, "rated"@, v, false);
    crate::text::lemma_extend(s8, p9, "rated"@, v, false);
}

/// The pairs of [`OpenForm`] carry its field under `clock.limit`.
proof fn lemma_open_form_clock_limit(q: OpenForm)
    ensures
        crate::text::carries(q.pairs_view(), "clock.limit"@, match q.clock_limit { Some(x) => Some(crate::text::dec_nat(x as nat)), None => None }),
{
    reveal_strlit("clock.increment");
    reveal_strlit("clock.limit");
    reveal_strlit("days");
    reveal_strlit("expiresAt");
    reveal_strlit("fen");
    reveal_strlit("name");
    reveal_strlit("rated");
    reveal_strlit("rules");
    reveal_strlit("users");
    reveal_strlit("variant");
    assert("clock.limit"@.len() != "clock.increment"@.len());
    assert("clock.limit"@.len() != "days"@.len());
    assert("clock.limit"@.len() != "expiresAt"@.len());
    assert("clock.limit"@.len() != "fen"@.len());
    assert("clock.limit"@.len() != "name"@.len());
    assert("clock.limit"@.len() != "rated"@.len());
    assert("clock.limit"@.len() != "rules"@.len());
    assert("clock.limit"@.len() != "users"@.len());
    assert("clock.limit"@.len() != "variant"@.len());
    let p0 = crate::http::bool_pair("rated"@, q.rated);
    let p1 = crate::http::nat_pair("clock.limit"@, crate::http::opt_u32(q.clock_limit));
    let p2 = crate::http::nat_pair("clock.increment"@, crate::http::opt_u32(q.clock_increment));
    let p3 = crate::http::nat_pair("days"@, crate::http::opt_u32(q.days));
    let p4 = crate::http::opt_pair("variant"@, LichessVariantKey::opt_wire(q.variant));
    let p5 = crate::http::str_pair("name"@, q.name);
    let p6 = crate::http::str_pair("fen"@, q.fen);
    let p7 = crate::http::str_pair("rules"@, q.rules);
    let p8 = crate::http::str_pair("users"@, q.users);
    let p9 = crate::http::int_pair("expiresAt"@, crate::http::opt_i64(q.expires_at));
    let s0 = p0;
    let s1 = s0 + p1;
    let s2 = s1 + p2;
    let s3 = s2 + p3;
    let s4 = s3 + p4;
    let s5 = s4 + p5;
    let s6 = s5 + p6;
    let s7 = s6 + p7;
    let s8 = s7 + p8;
    let s9 = s8 + p9;
    assert(q.pairs_view() == s9);
    let v = match q.clock_limit { Some(x) => Some(crate::text::dec_nat(x as nat)), None => None };
    crate::text::lemma_extend(s0, p1, "clock.limit"@, v, true);
    crate::text::lemma_extend(s1, p2, "clock.limit"@, v, false);
    crate::text::lemma_extend(s2, p3, "clock.limit"@, v, false);
    crate::text::lemma_extend(s3, p4, "clock.limit"@, v, false);
    crate::text::lemma_extend(s4, p5, "clock.limit"@, v, false);
    crate::text::lemma_extend(s5, p6, "clock.limit"@, v, false);
    crate::text::lemma_extend(s6, p7, "clock.limit"@, v, false);
    crate::text::lemma_extend(s7, p8, "clock.limit"@, v, false);
    crate::text::lemma_extend(s8, p9, "clock.limit"@, v, false);
}

/// The pairs of [`OpenForm`] carry its field under `clock.increment`.
proof fn lemma_open_form_clock_increment(q: OpenForm)
    ensures
        crate::text::carries(q.pairs_view(), "clock.increment"@, match q.clock_increment { Some(x) => Some(crate::text::dec_nat(x as nat)), None => None }),
{
    reveal_strlit("clock.increment");
    reveal_strlit("clock.limit");
    reveal_strlit("days");
    reveal_strlit("expiresAt");
    reveal_strlit("fen");
    reveal_strlit("name");
    reveal_strlit("rated");
    reveal_strlit("rules");
    reveal_strlit("users");
    reveal_strlit("variant");
    assert("clock.increment"@.len() != "clock.limit"@.len());
    assert("clock.increment"@.len() != "days"@.len());
    assert("clock.increment"@.len() != "expiresAt"@.len());
    assert("clock.increment"@.len() != "fen"@.len());
    assert("clock.increment"@.len() != "name"@.len());
    assert("clock.increment"@.len() != "rated"@.len());
    assert("clock.increment"@.len() != "rules"@.len());
    assert("clock.increment"@.len() != "users"@.len());
    assert("clock.increment"@.len() != "variant"@.len());
    let p0 = crate::http::bool_pair("rated"@, q.rated);
    let p1 = crate::http::nat_pair("clock.limit"@, crate::http::opt_u32(q.clock_limit));
    let p2 = crate::http::nat_pair("clock.increment"@, crate::http::opt_u32(q.clock_increment));
    let p3 = crate::http::nat_pair("days"@, crate::http::opt_u32(q.days));
    let p4 = crate::http::opt_pair("variant"@, LichessVariantKey::opt_wire(q.variant));
    let p5 = crate::http::str_pair("name"@, q.name);
    let p6 = crate::http::str_pair("fen"@, q.fen);
    let p7 = crate::http::str_pair("rules"@, q.rules);
    let p8 = crate::http::str_pair("users"@, q.users);
    let p9 = crate::http::int_pair("expiresAt"@, crate::http::opt_i64(q.expires_at));
    let s0 = p0;
    let s1 = s0 + p1;
    let s2 = s1 + p2;
    let s3 = s2 + p3;
    let s4 = s3 + p4;
    let s5 = s4 + p5;
    let s6 = s5 + p6;
    let s7 = s6 + p7;
    let s8 = s7 + p8;
    let s9 = s8 + p9;
    assert(q.pairs_view() == s9);
    let v = match q.clock_increment { Some(x) => Some(crate::text::dec_nat(x as nat)), None => None };
    crate::text::lemma_extend(s0, p1, "clock.increment"@, None, false);
    crate::text::lemma_extend(s1, p2, "clock.increment"@, v, true);
    crate::text::lemma_extend(s2, p3, "clock.increment"@, v, false);
    crate::text::lemma_extend(s3, p4, "clock.increment"@, v, false);
    crate::text::lemma_extend(s4, p5, "clock.increment"@, v, false);
    crate::text::lemma_extend(s5, p6, "clock.increment"@, v, false);
    crate::text::lemma_extend(s6, p7, "clock.increment"@, v, false);
    crate::text::lemma_extend(s7, p8, "clock.increment"@, v, false);
    crate::text::lemma_extend(s8, p9, "clock.increment"@, v, false);
}

/// The pairs of [`OpenForm`] carry its field under `days`.
proof fn lemma_open_form_days(q: OpenForm)
    ensures
        crate::text::carries(q.pairs_view(), "days"@, match q.days { Some(x) => Some(crate::text::dec_nat(x as nat)), None => None }),
{
    reveal_strlit("clock.increment");
    reveal_strlit("clock.limit");
    reveal_strlit("days");
    reveal_strlit("expiresAt");
    reveal_strlit("fen");
    reveal_strlit("name");
    reveal_strlit("rated");
    reveal_strlit("rules");
    reveal_strlit("users");
    reveal_strlit("variant");
    assert("days"@.len() != "clock.increment"@.len());
    assert("days"@.len() != "clock.limit"@.len());
    assert("days"@.len() != "expiresAt"@.len());
    assert("days"@.len() != "fen"@.len());
    assert("days"@[0] != "name"@[0]);
    assert("days"@.len() != "rated"@.len());
    assert("days"@.len() != "rules"@.len());
    assert("days"@.len() != "users"@.len());
    assert("days"@.len() != "variant"@.len());
    let p0 = crate::http::bool_pair("rated"@, q.rated);
    let p1 = crate::http::nat_pair("clock.limit"@, crate::http::opt_u32(q.clock_limit));
    let p2 = crate::http::nat_pair("clock.increment"@, crate::http::opt_u32(q.clock_increment));
    let p3 = crate::http::nat_pair("days"@, crate::http::opt_u32(q.days));
    let p4 = crate::http::opt_pair("variant"@, LichessVariantKey::opt_wire(q.variant));
    let p5 = crate::http::str_pair("name"@, q.name);
    let p6 = crate::http::str_pair("fen"@, q.fen);
    let p7 = crate::http::str_pair("rules"@, q.rules);
    let p8 = crate::http::str_pair("users"@, q.users);
    let p9 = crate::http::int_pair("expiresAt"@, crate::http::opt_i64(q.expires_at));
    let s0 = p0;
    let s1 = s0 + p1;
    let s2 = s1 + p2;
    let s3 = s2 + p3;
    let s4 = s3 + p4;
    let s5 = s4 + p5;
    let s6 = s5 + p6;
    let s7 = s6 + p7;
    let s8 = s7 + p8;
    let s9 = s8 + p9;
    assert(q.pairs_view() == s9);
    let v = match q.days { Some(x) => Some(crate::text::dec_nat(x as nat)), None => None };
    crate::text::lemma_extend(s0, p1, "days"@, None, false);
    crate::text::lemma_extend(s1, p2, "days"@, None, false);
    crate::text::lemma_extend(s2, p3, "days"@, v, true);
    crate::text::lemma_extend(s3, p4, "days"@, v, false);
    crate::text::lemma_extend(s4, p5, "days"@, v, false);
    crate::text::lemma_extend(s5, p6, "days"@, v, false);
    crate::text::lemma_extend(s6, p7, "days"@, v, false);
    crate::text::lemma_extend(s7, p8, "days"@, v, false);
    crate::text::lemma_extend(s8, p9, "days"@, v, false);
}

/// The pairs of [`OpenForm`] carry its field under `variant`.
proof fn lemma_open_form_variant(q: OpenForm)
    ensures
        crate::text::carries(q.pairs_view(), "variant"@, LichessVariantKey::opt_wire(q.variant)),
{
    reveal_strlit("clock.increment");
    reveal_strlit("clock.limit");
    reveal_strlit("days");
    reveal_strlit("expiresAt");
    reveal_strlit("fen");
    reveal_strlit("name");
    reveal_strlit("rated");
    reveal_strlit("rules");
    reveal_strlit("users");
    reveal_strlit("variant");
    assert("variant"@.len() != "clock.increment"@.len());
    assert("variant"@.len() != "clock.limit"@.len());
    assert("variant"@.len() != "days"@.len());
    assert("variant"@.len() != "expiresAt"@.len());
    assert("variant"@.len() != "fen"@.len());
    assert("variant"@.len() != "name"@.len());
    assert("variant"@.len() != "rated"@.len());
    assert("variant"@.len() != "rules"@.len());
    assert("variant"@.len() != "users"@.len());
    let p0 = crate::http::bool_pair("rated"@, q.rated);
    let p1 = crate::http::nat_pair("clock.limit"@, crate::http::opt_u32(q.clock_limit));
    let p2 = crate::http::nat_pair("clock.increment"@, crate::http::opt_u32(q.clock_increment));
    let p3 = crate::http::nat_pair("days"@, crate::http::opt_u32(q.days));
    let p4 = crate::http::opt_pair("variant"@, LichessVariantKey::opt_wire(q.variant));
    let p5 = crate::http::str_pair("name"@, q.name);
    let p6 = crate::http::str_pair("fen"@, q.fen);
    let p7 = crate::http::str_pair("rules"@, q.rules);
    let p8 = crate::http::str_pair("users"@, q.users);
    let p9 = crate::http::int_pair("expiresAt"@, crate::http::opt_i64(q.expires_at));
    let s0 = p0;
    let s1 = s0 + p1;
    let s2 = s1 + p2;
    let s3 = s2 + p3;
    let s4 = s3 + p4;
    let s5 = s4 + p5;
    let s6 = s5 + p6;
    let s7 = s6 + p7;
    let s8 = s7 + p8;
    let s9 = s8 + p9;
    assert(q.pairs_view() == s9);
    let v = LichessVariantKey::opt_wire(q.variant);
    crate::text::lemma_extend(s0, p1, "variant"@, None, false);
    crate::text::lemma_extend(s1, p2, "variant"@, None, false);
    crate::text::lemma_extend(s2, p3, "variant"@, None, false);
    crate::text::lemma_extend(s3, p4, "variant"@, v, true);
    crate::text::lemma_extend(s4, p5, "variant"@, v, false);
    crate::text::lemma_extend(s5, p6, "variant"@, v, false);
    crate::text::lemma_extend(s6, p7, "variant"@, v, false);
    crate::text::lemma_extend(s7, p8, "variant"@, v, false);
    crate::text::lemma_extend(s8, p9, "variant"@, v, false);
}

/// The pairs of [`OpenForm`] carry its field under `name`.
proof fn lemma_open_form_name(q: OpenForm)
    ensures
        crate::text::carries(q.pairs_view(), "name"@, match q.name { Some(v) => Some(v@), None => None }),
{
    reveal_strlit("clock.increment");
    reveal_strlit("clock.limit");
    reveal_strlit("days");
    reveal_strlit("expiresAt");
    reveal_strlit("fen");
    reveal_strlit("name");
    reveal_strlit("rated");
    reveal_strlit("rules");
    reveal_strlit("users");
    reveal_strlit("variant");
    assert("name"@.len() != "clock.increment"@.len());
    assert("name"@.len() != "clock.limit"@.len());
    assert("name"@[0] != "days"@[0]);
    assert("name"@.len() != "expiresAt"@.len());
    assert("name"@.len() != "fen"@.len());
    assert("name"@.len() != "rated"@.len());
    assert("name"@.len() != "rules"@.len());
    assert("name"@.len() != "users"@.len());
    assert("name"@.len() != "variant"@.len());
    let p0 = crate::http::bool_pair("rated"@, q.rated);
    let p1 = crate::http::nat_pair("clock.limit"@, crate::http::opt_u32(q.clock_limit));
    let p2 = crate::http::nat_pair("clock.increment"@, crate::http::opt_u32(q.clock_increment));
    let p3 = crate::http::nat_pair("days"@, crate::http::opt_u32(q.days));
    let p4 = crate::http::opt_pair("variant"@, LichessVariantKey::opt_wire(q.variant));
    let p5 = crate::http::str_pair("name"@, q.name);
    let p6 = crate::http::str_pair("fen"@, q.fen);
    let p7 = crate::http::str_pair("rules"@, q.rules);
    let p8 = crate::http::str_pair("users"@, q.users);
    let p9 = crate::http::int_pair("expiresAt"@, crate::http::opt_i64(q.expires_at));
    let s0 = p0;
    let s1 = s0 + p1;
    let s2 = s1 + p2;
    let s3 = s2 + p3;
    let s4 = s3 + p4;
    let s5 = s4 + p5;
    let s6 = s5 + p6;
    let s7 = s6 + p7;
    let s8 = s7 + p8;
    let s9 = s8 + p9;
    assert(q.pairs_view() == s9);
    let v = match q.name { Some(v) => Some(v@), None => None };
    crate::text::lemma_extend(s0, p1, "name"@, None, false);
    crate::text::lemma_extend(s1, p2, "name"@, None, false);
    crate::text::lemma_extend(s2, p3, "name"@, None, false);
    crate::text::lemma_extend(s3, p4, "name"@, None, false);
    crate::text::lemma_extend(s4, p5, "name"@, v, true);
    crate::text::lemma_extend(s5, p6, "name"@, v, false);
    crate::text::lemma_extend(s6, p7, "name"@, v, false);
    crate::text::lemma_extend(s7, p8, "name"@, v, false);
    crate::text::lemma_extend(s8, p9, "name"@, v, false);
}

/// The pairs of [`OpenForm`] carry its field under `fen`.
proof fn lemma_open_form_fen(q: OpenForm)
    ensures
        crate::text::carries(q.pairs_view(), "fen"@, match q.fen { Some(v) => Some(v@), None => None }),
{
    reveal_strlit("clock.increment");
    reveal_strlit("clock.limit");
    reveal_strlit("days");
    reveal_strlit("expiresAt");
    reveal_strlit("fen");
    reveal_strlit("name");
    reveal_strlit("rated");
    reveal_strlit("rules");
    reveal_strlit("users");
    reveal_strlit("variant");
    assert("fen"@.len() != "clock.increment"@.len());
    assert("fen"@.len() != "clock.limit"@.len());
    assert("fen"@.len() != "days"@.len());
    assert("fen"@.len() != "expiresAt"@.len());
    assert("fen"@.len() != "name"@.len());
    assert("fen"@.len() != "rated"@.len());
    assert("fen"@.len() != "rules"@.len());
    assert("fen"@.len() != "users"@.len());
    assert("fen"@.len() != "variant"@.len());
    let p0 = crate::http::bool_pair("rated"@, q.rated);
    let p1 = crate::http::nat_pair("clock.limit"@, crate::http::opt_u32(q.clock_limit));
    let p2 = crate::http::nat_pair("clock.increment"@, crate::http::opt_u32(q.clock_increment));
    let p3 = crate::http::nat_pair("days"@, crate::http::opt_u32(q.days));
    let p4 = crate::http::opt_pair("variant"@, LichessVariantKey::opt_wire(q.variant));
    let p5 = crate::http::str_pair("name"@, q.name);
    let p6 = crate::http::str_pair("fen"@, q.fen);
    let p7 = crate::http::str_pair("rules"@, q.rules);
    let p8 = crate::http::str_pair("users"@, q.users);
    let p9 = crate::http::int_pair("expiresAt"@, crate::http::opt_i64(q.expires_at));
    let s0 = p0;
    let s1 = s0 + p1;
    let s2 = s1 + p2;
    let s3 = s2 + p3;
    let s4 = s3 + p4;
    let s5 = s4 + p5;
    let s6 = s5 + p6;
    let s7 = s6 + p7;
    let s8 = s7 + p8;
    let s9 = s8 + p9;
    assert(q.pairs_view() == s9);
    let v = match q.fen { Some(v) => Some(v@), None => None };
    crate::text::lemma_extend(s0, p1, "fen"@, None, false);
    crate::text::lemma_extend(s1, p2, "fen"@, None, false);
    crate::text::lemma_extend(s2, p3, "fen"@, None, false);
    crate::text::lemma_extend(s3, p4, "fen"@, None, false);
    crate::text::lemma_extend(s4, p5, "fen"@, None, false);
    crate::text::lemma_extend(s5, p6, "fen"@, v, true);
    crate::text::lemma_extend(s6, p7, "fen"@, v, false);
    crate::text::lemma_extend(s7, p8, "fen"@, v, false);
    crate::text::lemma_extend(s8, p9, "fen"@, v, false);
}

/// The pairs of [`OpenForm`] carry its field under `rules`.
proof fn lemma_open_form_rules(q: OpenForm)
    ensures
        crate::text::carries(q.pairs_view(), "rules"@, match q.rules { Some(v) => Some(v@), None => None }),
{
    reveal_strlit("clock.increment");
    reveal_strlit("clock.limit");
    reveal_strlit("days");
    reveal_strlit("expiresAt");
    reveal_strlit("fen");
    reveal_strlit("name");
    reveal_strlit("rated");
    reveal_strlit("rules");
    reveal_strlit("users");
    reveal_strlit("variant");
    assert("rules"@.len() != "clock.increment"@.len());
    assert("rules"@.len() != "clock.limit"@.len());
    assert("rules"@.len() != "days"@.len());
    assert("rules"@.len() != "expiresAt"@.len());
    assert("rules"@.len() != "fen"@.len());
    assert("rules"@.len() != "name"@.len());
    assert("rules"@[1] != "rated"@[1]);
    assert("rules"@[0] != "users"@[0]);
    assert("rules"@.len() != "variant"@.len());
    let p0 = crate::http::bool_pair("rated"@, q.rated);
    let p1 = crate::http::nat_pair("clock.limit"@, crate::http::opt_u32(q.clock_limit));
    let p2 = crate::http::nat_pair("clock.increment"@, crate::http::opt_u32(q.clock_increment));
    let p3 = crate::http::nat_pair("days"@, crate::http::opt_u32(q.days));
    let p4 = crate::http::opt_pair("variant"@, LichessVariantKey::opt_wire(q.variant));
    let p5 = crate::http::str_pair("name"@, q.name);
    let p6 = crate::http::str_pair("fen"@, q.fen);
    let p7 = crate::http::str_pair("rules"@, q.rules);
    let p8 = crate::http::str_pair("users"@, q.users);
    let p9 = crate::http::int_pair("expiresAt"@, crate::http::opt_i64(q.expires_at));
    let s0 = p0;
    let s1 = s0 + p1;
    let s2 = s1 + p2;
    let s3 = s2 + p3;
    let s4 = s3 + p4;
    let s5 = s4 + p5;
    let s6 = s5 + p6;
    let s7 = s6 + p7;
    let s8 = s7 + p8;
    let s9 = s8 + p9;
    assert(q.pairs_view() == s9);
    let v = match q.rules { Some(v) => Some(v@), None => None };
    crate::text::lemma_extend(s0, p1, "rules"@, None, false);
    crate::text::lemma_extend(s1, p2, "rules"@, None, false);
    crate::text::lemma_extend(s2, p3, "rules"@, None, false);
    crate::text::lemma_extend(s3, p4, "rules"@, None, false);
    crate::text::lemma_extend(s4, p5, "rules"@, None, false);
    crate::text::lemma_extend(s5, p6, "rules"@, None, false);
    crate::text::lemma_extend(s6, p7, "rules"@, v, true);
    crate::text::lemma_extend(s7, p8, "rules"@, v, false);
    crate::text::lemma_extend(s8, p9, "rules"@, v, false);
}

/// The pairs of [`OpenForm`] carry its field under `users`.
proof fn lemma_open_form_users(q: OpenForm)
    ensures
        crate::text::carries(q.pairs_view(), "users"@, match q.users { Some(v) => Some(v@), None => None }),
{
    reveal_strlit("clock.increment");
    reveal_strlit("clock.limit");
    reveal_strlit("days");
    reveal_strlit("expiresAt");
    reveal_strlit("fen");
    reveal_strlit("name");
    reveal_strlit("rated");
    reveal_strlit("rules");
    reveal_strlit("users");
    reveal_strlit("variant");
    assert("users"@.len() != "clock.increment"@.len());
    assert("users"@.len() != "clock.limit"@.len());
    assert("users"@.len() != "days"@.len());
    assert("users"@.len() != "expiresAt"@.len());
    assert("users"@.len() != "fen"@.len());
    assert("users"@.len() != "name"@.len());
    assert("users"@[0] != "rated"@[0]);
    assert("users"@[0] != "rules"@[0]);
    assert("users"@.len() != "variant"@.len());
    let p0 = crate::http::bool_pair("rated"@, q.rated);
    let p1 = crate::http::nat_pair("clock.limit"@, crate::http::opt_u32(q.clock_limit));
    let p2 = crate::http::nat_pair("clock.increment"@, crate::http::opt_u32(q.clock_increment));
    let p3 = crate::http::nat_pair("days"@, crate::http::opt_u32(q.days));
    let p4 = crate::http::opt_pair("variant"@, LichessVariantKey::opt_wire(q.variant));
    let p5 = crate::http::str_pair("name"@, q.name);
    let p6 = crate::http::str_pair("fen"@, q.fen);
    let p7 = crate::http::str_pair("rules"@, q.rules);
    let p8 = crate::http::str_pair("users"@, q.users);
    let p9 = crate::http::int_pair("expiresAt"@, crate::http::opt_i64(q.expires_at));
    let s0 = p0;
    let s1 = s0 + p1;
    let s2 = s1 + p2;
    let s3 = s2 + p3;
    let s4 = s3 + p4;
    let s5 = s4 + p5;
    let s6 = s5 + p6;
    let s7 = s6 + p7;
    let s8 = s7 + p8;
    let s9 = s8 + p9;
    assert(q.pairs_view() == s9);
    let v = match q.users { Some(v) => Some(v@), None => None };
    crate::text::lemma_extend(s0, p1, "users"@, None, false);
    crate::text::lemma_extend(s1, p2, "users"@, None, false);
    crate::text::lemma_extend(s2, p3, "users"@, None, false);
    crate::text::lemma_extend(s3, p4, "users"@, None, false);
    crate::text::lemma_extend(s4, p5, "users"@, None, false);
    crate::text::lemma_extend(s5, p6, "users"@, None, false);
    crate::text::lemma_extend(s6, p7, "users"@, None, false);
    crate::text::lemma_extend(s7, p8, "users"@, v, true);
    crate::text::lemma_extend(s8, p9, "users"@, v, false);
}

/// The pairs of [`OpenForm`] carry its field under `expiresAt`.
proof fn lemma_open_form_expires_at(q: OpenForm)
    ensures
        crate::text::carries(q.pairs_view(), "expiresAt"@, match q.expires_at { Some(x) => Some(crate::text::dec_int(x as int)), None => None }),
{
    reveal_strlit("clock.increment");
    reveal_strlit("clock.limit");
    reveal_strlit("days");
    reveal_strlit("expiresAt");
    reveal_strlit("fen");
    reveal_strlit("name");
    reveal_strlit("rated");
    reveal_strlit("rules");
    reveal_strlit("users");
    reveal_strlit("variant");
    assert("expiresAt"@.len() != "clock.increment"@.len());
    assert("expiresAt"@.len() != "clock.limit"@.len());
    assert("expiresAt"@.len() != "days"@.len());
    assert("expiresAt"@.len() != "fen"@.len());
    assert("expiresAt"@.len() != "name"@.len());
    assert("expiresAt"@.len() != "rated"@.len());
    assert("expiresAt"@.len() != "rules"@.len());
    assert("expiresAt"@.len() != "users"@.len());
    assert("expiresAt"@.len() != "variant"@.len());
    let p0 = crate::http::bool_pair("rated"@, q.rated);
    let p1 = crate::http::nat_pair("clock.limit"@, crate::http::opt_u32(q.clock_limit));
    let p2 = crate::http::nat_pair("clock.increment"@, crate::http::opt_u32(q.clock_increment));
    let p3 = crate::http::nat_pair("days"@, crate::http::opt_u32(q.days));
    let p4 = crate::http::opt_pair("variant"@, LichessVariantKey::opt_wire(q.variant));
    let p5 = crate::http::str_pair("name"@, q.name);
    let p6 = crate::http::str_pair("fen"@, q.fen);
    let p7 = crate::http::str_pair("rules"@, q.rules);
    let p8 = crate::http::str_pair("users"@, q.users);
    let p9 = crate::http::int_pair("expiresAt"@, crate::http::opt_i64(q.expires_at));
    let s0 = p0;
    let s1 = s0 + p1;
    let s2 = s1 + p2;
    let s3 = s2 + p3;
    let s4 = s3 + p4;
    let s5 = s4 + p5;
    let s6 = s5 + p6;
    let s7 = s6 + p7;
    let s8 = s7 + p8;
    let s9 = s8 + p9;
    assert(q.pairs_view() == s9);
    let v = match q.expires_at { Some(x) => Some(crate::text::dec_int(x as int)), None => None };
    crate::text::lemma_extend(s0, p1, "expiresAt"@, None, false);
    crate::text::lemma_extend(s1, p2, "expiresAt"@, None, false);
    crate::text::lemma_extend(s2, p3, "expiresAt"@, None, false);
    crate::text::lemma_extend(s3, p4, "expiresAt"@, None, false);
    crate::text::lemma_extend(s4, p5, "expiresAt"@, None, false);
    crate::text::lemma_extend(s5, p6, "expiresAt"@, None, false);
    crate::text::lemma_extend(s6, p7, "expiresAt"@, None, false);
    crate::text::lemma_extend(s7, p8, "expiresAt"@, None, false);
    crate::text::lemma_extend(s8, p9, "expiresAt"@, v, true);
}

/// The pairs of [`OpenForm`] carry each of its fields under that field's own
/// key (`rated`, `clock.limit`, `clock.increment`, `days`, `variant`, `name`, `fen`, `rules`, `users`, `expiresAt`), with the value given to it, and a key only when its field is set.
pub proof fn lemma_open_form_carries_fields(q: OpenForm)
    ensures
        crate::text::carries(q.pairs_view(), "rated"@, match q.rated { Some(b) => Some(if b { seq!['t', 'r', 'u', 'e'] } else { seq!['f', 'a', 'l', 's', 'e'] }), None => None }),
        crate::text::carries(q.pairs_view(), "clock.limit"@, match q.clock_limit { Some(x) => Some(crate::text::dec_nat(x as nat)), None => None }),
        crate::text::carries(q.pairs_view(), "clock.increment"@, match q.clock_increment { Some(x) => Some(crate::text::dec_nat(x as nat)), None => None }),
        crate::text::carries(q.pairs_view(), "days"@, match q.days { Some(x) => Some(crate::text::dec_nat(x as nat)), None => None }),
        crate::text::carries(q.pairs_view(), "variant"@, LichessVariantKey::opt_wire(q.variant)),
        crate::text::carries(q.pairs_view(), "name"@, match q.name { Some(v) => Some(v@), None => None }),
        crate::text::carries(q.pairs_view(), "fen"@, match q.fen { Some(v) => Some(v@), None => None }),
        crate::text::carries(q.pairs_view(), "rules"@, match q.rules { Some(v) => Some(v@), None => None }),
        crate::text::carries(q.pairs_view(), "users"@, match q.users { Some(v) => Some(v@), None => None }),
        crate::text::carries(q.pairs_view(), "expiresAt"@, match q.expires_at { Some(x) => Some(crate::text::dec_int(x as int)), None => None }),
{
    lemma_open_form_rated(q);
    lemma_open_form_clock_limit(q);
    lemma_open_form_clock_increment(q);
    lemma_open_form_days(q);
    lemma_open_form_variant(q);
    lemma_open_form_name(q);
    lemma_open_form_fen(q);
    lemma_open_form_rules(q);
    lemma_open_form_users(q);
    lemma_open_form_expires_at(q);
}

impl<'a> OpenForm<'a> {
    /// The query pairs, in order.
    pub open spec fn pairs_view(self) -> crate::text::Pairs {
        crate::http::bool_pair("rated"@, self.rated)
            + crate::http::nat_pair("clock.limit"@, crate::http::opt_u32(self.clock_limit))
            + crate::http::nat_pair("clock.increment"@, crate::http::opt_u32(self.clock_increment))
            + crate::http::nat_pair("days"@, crate::http::opt_u32(self.days))
            + crate::http::opt_pair("variant"@, LichessVariantKey::opt_wire(self.variant))
            + crate::http::str_pair("name"@, self.name)
            + crate::http::str_pair("fen"@, self.fen)
            + crate::http::str_pair("rules"@, self.rules)
            + crate::http::str_pair("users"@, self.users)
            + crate::http::int_pair("expiresAt"@, crate::http::opt_i64(self.expires_at))
    }

    /// The query pairs.
    #[verifier::rlimit(40)]
    pub fn pairs(&self) -> (r: Vec<(String, String)>)
        ensures
            r.deep_view() == self.pairs_view(),
    {
        let mut out: Vec<(String, String)> = Vec::new();
        crate::http::push_opt_bool(&mut out, "rated", self.rated);
        crate::http::push_opt_u32(&mut out, "clock.limit", self.clock_limit);
        crate::http::push_opt_u32(&mut out, "clock.increment", self.clock_increment);
        crate::http::push_opt_u32(&mut out, "days", self.days);
        match self.variant {
            Some(x) => crate::http::push_pair(&mut out, "variant", String::from_str(x.as_str())),
            None => {},
        }
        crate::http::push_opt_str(&mut out, "name", self.name);
        crate::http::push_opt_str(&mut out, "fen", self.fen);
        crate::http::push_opt_str(&mut out, "rules", self.rules);
        crate::http::push_opt_str(&mut out, "users", self.users);
        crate::http::push_opt_i64(&mut out, "expiresAt", self.expires_at);
        assert(out.deep_view() =~= self.pairs_view());
        out
    }

    /// The query with every filter unset.
    pub open spec fn blank() -> Self {
        OpenForm {
            rated: None,
            clock_limit: None,
            clock_increment: None,
            days: None,
            variant: None,
            name: None,
            fen: None,
            rules: None,
            users: None,
            expires_at: None,
        }
    }
}

impl<'a> Default for OpenForm<'a> {
    /// Every filter unset.
    fn default() -> (r: Self)
        ensures
            r == Self::blank(),
    {
        OpenForm {
            rated: None,
            clock_limit: None,
            clock_increment: None,
            days: None,
            variant: None,
            name: None,
            fen: None,
            rules: None,
            users: None,
            expires_at: None,
        }
    }
}

/// Builder for an open challenge that anyone can accept.
#[derive(Debug)]
pub struct OpenChallengeRequest<'a> {
    client: &'a LichessClient,
    form: OpenForm<'a>,
}

impl<'a> OpenChallengeRequest<'a> {
    /// The client the builder is bound to.
    pub closed spec fn client_of(&self) -> &'a LichessClient {
        self.client
    }

    /// The form built so far.
    pub closed spec fn form_of(&self) -> OpenForm<'a> {
        self.form
    }

    /// Creates the request builder.
    pub fn new(client: &'a LichessClient) -> (r: Self)
        ensures
            r.client_of() == client,
            r.form_of() == OpenForm::blank(),
    {
        OpenChallengeRequest { client, form: OpenForm::default() }
    }

    /// Sets whether the game is rated.
    pub fn rated(self, rated: bool) -> (r: Self)
        ensures
            r.form_of() == (OpenForm { rated: Some(rated), ..self.form_of() }),
            r.client_of() == self.client_of(),
    {
        let mut r = self;
        r.form.rated = Some(rated);
        r
    }

    /// Sets a real-time clock (initial seconds + increment seconds).
    pub fn clock(self, limit_secs: u32, increment_secs: u32) -> (r: Self)
        ensures
            r.form_of() == (OpenForm {
                clock_limit: Some(limit_secs),
                clock_increment: Some(increment_secs),
                ..self.form_of()
            }),
            r.client_of() == self.client_of(),
    {
        let mut r = self;
        r.form.clock_limit = Some(limit_secs);
        r.form.clock_increment = Some(increment_secs);
        r
    }

    /// Sets days per turn for a correspondence challenge.
    pub fn days(self, days: u32) -> (r: Self)
        ensures
            r.form_of() == (OpenForm { days: Some(days), ..self.form_of() }),
            r.client_of() == self.client_of(),
    {
        let mut r = self;
        r.form.days = Some(days);
        r
    }

    /// Sets the variant.
    pub fn variant(self, variant: LichessVariantKey) -> (r: Self)
        ensures
            r.form_of() == (OpenForm { variant: Some(variant), ..self.form_of() }),
            r.client_of() == self.client_of(),
    {
        let mut r = self;
        r.form.variant = Some(variant);
        r
    }

    /// Sets an optional name shown on the challenge page.
    pub fn name(self, name: &'a str) -> (r: Self)
        ensures
            r.form_of() == (OpenForm { name: Some(name), ..self.form_of() }),
            r.client_of() == self.client_of(),
    {
        let mut r = self;
        r.form.name = Some(name);
        r
    }

    /// Sets a custom starting position (FEN).
    pub fn fen(self, fen: &'a str) -> (r: Self)
        ensures
            r.form_of() == (OpenForm { fen: Some(fen), ..self.form_of() }),
            r.client_of() == self.client_of(),
    {
        let mut r = self;
        r.form.fen = Some(fen);
        r
    }

    /// Sets extra game rules (comma-separated, e.g. `noRematch,noGiveTime`).
    pub fn rules(self, rules: &'a str) -> (r: Self)
        ensures
            r.form_of() == (OpenForm { rules: Some(rules), ..self.form_of() }),
            r.client_of() == self.client_of(),
    {
        let mut r = self;
        r.form.rules = Some(rules);
        r
    }

    /// Restricts who may play to these two usernames (comma-separated); the
    /// game is then created between them.
    pub fn users(self, users: &'a str) -> (r: Self)
        ensures
            r.form_of() == (OpenForm { users: Some(users), ..self.form_of() }),
            r.client_of() == self.client_of(),
    {
        let mut r = self;
        r.form.users = Some(users);
        r
    }

    /// Sets when the challenge expires (Unix milliseconds).
    pub fn expires_at(self, timestamp: i64) -> (r: Self)
        ensures
            r.form_of() == (OpenForm { expires_at: Some(timestamp), ..self.form_of() }),
            r.client_of() == self.client_of(),
    {
        let mut r = self;
        r.form.expires_at = Some(timestamp);
        r
    }

    /// Creates the open challenge.
    pub fn send(self) -> (r: ApiRequest)
        ensures
            r@ == crate::http::bare(Method::Post, Host::Default, "/api/challenge/open"@)
                .with_body(crate::http::BodyView::Form(self.form_of().pairs_view())),
    {
        let path = String::from_str("/api/challenge/open");
        self.client.request(Method::Post, Host::Default, path).form(self.form.pairs())
    }
}

} // verus!
