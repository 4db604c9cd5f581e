//! The Arena Tournaments API: create, run, join, and export arena tournaments.
//!
//! Reached through [`LichessClient::arena`].

use vstd::prelude::*;

use crate::client::LichessClient;
use crate::config::Host;
use crate::http::{Accept, ApiRequest, Method};
use crate::model::{GameExportOptions, LichessVariantKey};
use crate::text::{join_seqs, join_strs, str_views, Pairs};

verus! {

/// Form body for creating an arena tournament (flat, non-`conditions` fields).
#[derive(Debug, Clone)]
pub struct CreateForm<'a> {
    /// The tournament name.
    pub name: &'a str,
    /// The initial clock time in minutes, as decimal text.
    pub clock_time: &'a str,
    /// The clock increment in seconds.
    pub clock_increment: u32,
    /// The duration in minutes.
    pub minutes: u32,
    /// Whether the tournament is rated.
    pub rated: Option<bool>,
    /// The variant.
    pub variant: Option<LichessVariantKey>,
    /// Minutes to wait before starting.
    pub wait_minutes: Option<u32>,
    /// The start time (Unix milliseconds).
    pub start_date: Option<i64>,
    /// A custom starting position.
    pub position: Option<&'a str>,
    /// Whether players may berserk.
    pub berserkable: Option<bool>,
    /// Whether win streaks grant bonus points.
    pub streakable: Option<bool>,
    /// Whether players can use the chat.
    pub has_chat: Option<bool>,
    /// The tournament description.
    pub description: Option<&'a str>,
    /// The entry code of a private tournament.
    pub password: Option<&'a str>,
    /// The team leading a team battle.
    pub team_battle_by_team: Option<&'a str>,
}

/// The pairs of [`CreateForm`] carry its field under `name`.
proof fn lemma_create_form_name(q: CreateForm)
    ensures
        crate::text::carries(q.pairs_view(), "name"@, Some(q.name@)),
{
    reveal_strlit("berserkable");
    reveal_strlit("clockIncrement");
    reveal_strlit("clockTime");
    reveal_strlit("description");
    reveal_strlit("hasChat");
    reveal_strlit("minutes");
    reveal_strlit("name");
    reveal_strlit("password");
    reveal_strlit("position");
    reveal_strlit("rated");
    reveal_strlit("startDate");
    reveal_strlit("streakable");
    reveal_strlit("teamBattleByTeam");
    reveal_strlit("variant");
    reveal_strlit("waitMinutes");
    assert("name"@.len() != "berserkable"@.len());
    assert("name"@.len() != "clockIncrement"@.len());
    assert("name"@.len() != "clockTime"@.len());
    assert("name"@.len() != "description"@.len());
    assert("name"@.len() != "hasChat"@.len());
    assert("name"@.len() != "minutes"@.len());
    assert("name"@.len() != "password"@.len());
    assert("name"@.len() != "position"@.len());
    assert("name"@.len() != "rated"@.len());
    assert("name"@.len() != "startDate"@.len());
    assert("name"@.len() != "streakable"@.len());
    assert("name"@.len() != "teamBattleByTeam"@.len());
    assert("name"@.len() != "variant"@.len());
    assert("name"@.len() != "waitMinutes"@.len());
    let p0 = seq![("name"@, q.name@)];
    let p1 = seq![("clockTime"@, q.clock_time@)];
    let p2 = seq![("clockIncrement"@, crate::text::dec_nat(q.clock_increment as nat))];
    let p3 = seq![("minutes"@, crate::text::dec_nat(q.minutes as nat))];
    let p4 = crate::http::bool_pair("rated"@, q.rated);
    let p5 = crate::http::opt_pair("variant"@, LichessVariantKey::opt_wire(q.variant));
    let p6 = crate::http::nat_pair("waitMinutes"@, crate::http::opt_u32(q.wait_minutes));
    let p7 = crate::http::int_pair("startDate"@, crate::http::opt_i64(q.start_date));
    let p8 = crate::http::str_pair("position"@, q.position);
    let p9 = crate::http::bool_pair("berserkable"@, q.berserkable);
    let p10 = crate::http::bool_pair("streakable"@, q.streakable);
    let p11 = crate::http::bool_pair("hasChat"@, q.has_chat);
    let p12 = crate::http::str_pair("description"@, q.description);
    let p13 = crate::http::str_pair("password"@, q.password);
    let p14 = crate::http::str_pair("teamBattleByTeam"@, q.team_battle_by_team);
    let s0 = p0;
    let s1 = s0 + p1;
    let s2 = s1 + p2;
    let s3 = s2 + p3;
    let s4 = s3 + p4;
    let s5 = s4 + p5;
    let s6 = s5 + p6;
    let s7 = s6 + p7;
    let s8 = s7 + p8;
    let s9 = s8 + p9;
    let s10 = s9 + p10;
    let s11 = s10 + p11;
    let s12 = s11 + p12;
    let s13 = s12 + p13;
    let s14 = s13 + p14;
    assert(q.pairs_view() == s14);
    let v = Some(q.name@);
    assert(p0 == crate::text::one_pair("name"@, v));
    crate::text::lemma_one_pair_carries("name"@, v);
    crate::text::lemma_extend(s0, p1, "name"@, v, false);
    crate::text::lemma_extend(s1, p2, "name"@, v, false);
    crate::text::lemma_extend(s2, p3, "name"@, v, false);
    crate::text::lemma_extend(s3, p4, "name"@, v, false);
    crate::text::lemma_extend(s4, p5, "name"@, v, false);
    crate::text::lemma_extend(s5, p6, "name"@, v, false);
    crate::text::lemma_extend(s6, p7, "name"@, v, false);
    crate::text::lemma_extend(s7, p8, "name"@, v, false);
    crate::text::lemma_extend(s8, p9, "name"@, v, false);
    crate::text::lemma_extend(s9, p10, "name"@, v, false);
    crate::text::lemma_extend(s10, p11, "name"@, v, false);
    crate::text::lemma_extend(s11, p12, "name"@, v, false);
    crate::text::lemma_extend(s12, p13, "name"@, v, false);
    crate::text::lemma_extend(s13, p14, "name"@, v, false);
}

/// The pairs of [`CreateForm`] carry its field under `clockTime`.
proof fn lemma_create_form_clock_time(q: CreateForm)
    ensures
        crate::text::carries(q.pairs_view(), "clockTime"@, Some(q.clock_time@)),
{
    reveal_strlit("berserkable");
    reveal_strlit("clockIncrement");
    reveal_strlit("clockTime");
    reveal_strlit("description");
    reveal_strlit("hasChat");
    reveal_strlit("minutes");
    reveal_strlit("name");
    reveal_strlit("password");
    reveal_strlit("position");
    reveal_strlit("rated");
    reveal_strlit("startDate");
    reveal_strlit("streakable");
    reveal_strlit("teamBattleByTeam");
    reveal_strlit("variant");
    reveal_strlit("waitMinutes");
    assert("clockTime"@.len() != "berserkable"@.len());
    assert("clockTime"@.len() != "clockIncrement"@.len());
    assert("clockTime"@.len() != "description"@.len());
    assert("clockTime"@.len() != "hasChat"@.len());
    assert("clockTime"@.len() != "minutes"@.len());
    assert("clockTime"@.len() != "name"@.len());
    assert("clockTime"@.len() != "password"@.len());
    assert("clockTime"@.len() != "position"@.len());
    assert("clockTime"@.len() != "rated"@.len());
    assert("clockTime"@[0] != "startDate"@[0]);
    assert("clockTime"@.len() != "streakable"@.len());
    assert("clockTime"@.len() != "teamBattleByTeam"@.len());
    assert("clockTime"@.len() != "variant"@.len());
    assert("clockTime"@.len() != "waitMinutes"@.len());
    let p0 = seq![("name"@, q.name@)];
    let p1 = seq![("clockTime"@, q.clock_time@)];
    let p2 = seq![("clockIncrement"@, crate::text::dec_nat(q.clock_increment as nat))];
    let p3 = seq![("minutes"@, crate::text::dec_nat(q.minutes as nat))];
    let p4 = crate::http::bool_pair("rated"@, q.rated);
    let p5 = crate::http::opt_pair("variant"@, LichessVariantKey::opt_wire(q.variant));
    let p6 = crate::http::nat_pair("waitMinutes"@, crate::http::opt_u32(q.wait_minutes));
    let p7 = crate::http::int_pair("startDate"@, crate::http::opt_i64(q.start_date));
    let p8 = crate::http::str_pair("position"@, q.position);
    let p9 = crate::http::bool_pair("berserkable"@, q.berserkable);
    let p10 = crate::http::bool_pair("streakable"@, q.streakable);
    let p11 = crate::http::bool_pair("hasChat"@, q.has_chat);
    let p12 = crate::http::str_pair("description"@, q.description);
    let p13 = crate::http::str_pair("password"@, q.password);
    let p14 = crate::http::str_pair("teamBattleByTeam"@, q.team_battle_by_team);
    let s0 = p0;
    let s1 = s0 + p1;
    let s2 = s1 + p2;
    let s3 = s2 + p3;
    let s4 = s3 + p4;
    let s5 = s4 + p5;
    let s6 = s5 + p6;
    let s7 = s6 + p7;
    let s8 = s7 + p8;
    let s9 = s8 + p9;
    let s10 = s9 + p10;
    let s11 = s10 + p11;
    let s12 = s11 + p12;
    let s13 = s12 + p13;
    let s14 = s13 + p14;
    assert(q.pairs_view() == s14);
    let v = Some(q.clock_time@);
    crate::text::lemma_extend(s0, p1, "clockTime"@, v, true);
    crate::text::lemma_extend(s1, p2, "clockTime"@, v, false);
    crate::text::lemma_extend(s2, p3, "clockTime"@, v, false);
    crate::text::lemma_extend(s3, p4, "clockTime"@, v, false);
    crate::text::lemma_extend(s4, p5, "clockTime"@, v, false);
    crate::text::lemma_extend(s5, p6, "clockTime"@, v, false);
    crate::text::lemma_extend(s6, p7, "clockTime"@, v, false);
    crate::text::lemma_extend(s7, p8, "clockTime"@, v, false);
    crate::text::lemma_extend(s8, p9, "clockTime"@, v, false);
    crate::text::lemma_extend(s9, p10, "clockTime"@, v, false);
    crate::text::lemma_extend(s10, p11, "clockTime"@, v, false);
    crate::text::lemma_extend(s11, p12, "clockTime"@, v, false);
    crate::text::lemma_extend(s12, p13, "clockTime"@, v, false);
    crate::text::lemma_extend(s13, p14, "clockTime"@, v, false);
}

/// The pairs of [`CreateForm`] carry its field under `clockIncrement`.
proof fn lemma_create_form_clock_increment(q: CreateForm)
    ensures
        crate::text::carries(q.pairs_view(), "clockIncrement"@, Some(crate::text::dec_nat(q.clock_increment as nat))),
{
    reveal_strlit("berserkable");
    reveal_strlit("clockIncrement");
    reveal_strlit("clockTime");
    reveal_strlit("description");
    reveal_strlit("hasChat");
    reveal_strlit("minutes");
    reveal_strlit("name");
    reveal_strlit("password");
    reveal_strlit("position");
    reveal_strlit("rated");
    reveal_strlit("startDate");
    reveal_strlit("streakable");
    reveal_strlit("teamBattleByTeam");
    reveal_strlit("variant");
    reveal_strlit("waitMinutes");
    assert("clockIncrement"@.len() != "berserkable"@.len());
    assert("clockIncrement"@.len() != "clockTime"@.len());
    assert("clockIncrement"@.len() != "description"@.len());
    assert("clockIncrement"@.len() != "hasChat"@.len());
    assert("clockIncrement"@.len() != "minutes"@.len());
    assert("clockIncrement"@.len() != "name"@.len());
    assert("clockIncrement"@.len() != "password"@.len());
    assert("clockIncrement"@.len() != "position"@.len());
    assert("clockIncrement"@.len() != "rated"@.len());
    assert("clockIncrement"@.len() != "startDate"@.len());
    assert("clockIncrement"@.len() != "streakable"@.len());
    assert("clockIncrement"@.len() != "teamBattleByTeam"@.len());
    assert("clockIncrement"@.len() != "variant"@.len());
    assert("clockIncrement"@.len() != "waitMinutes"@.len());
    let p0 = seq![("name"@, q.name@)];
    let p1 = seq![("clockTime"@, q.clock_time@)];
    let p2 = seq![("clockIncrement"@, crate::text::dec_nat(q.clock_increment as nat))];
    let p3 = seq![("minutes"@, crate::text::dec_nat(q.minutes as nat))];
    let p4 = crate::http::bool_pair("rated"@, q.rated);
    let p5 = crate::http::opt_pair("variant"@, LichessVariantKey::opt_wire(q.variant));
    let p6 = crate::http::nat_pair("waitMinutes"@, crate::http::opt_u32(q.wait_minutes));
    let p7 = crate::http::int_pair("startDate"@, crate::http::opt_i64(q.start_date));
    let p8 = crate::http::str_pair("position"@, q.position);
    let p9 = crate::http::bool_pair("berserkable"@, q.berserkable);
    let p10 = crate::http::bool_pair("streakable"@, q.streakable);
    let p11 = crate::http::bool_pair("hasChat"@, q.has_chat);
    let p12 = crate::http::str_pair("description"@, q.description);
    let p13 = crate::http::str_pair("password"@, q.password);
    let p14 = crate::http::str_pair("teamBattleByTeam"@, q.team_battle_by_team);
    let s0 = p0;
    let s1 = s0 + p1;
    let s2 = s1 + p2;
    let s3 = s2 + p3;
    let s4 = s3 + p4;
    let s5 = s4 + p5;
    let s6 = s5 + p6;
    let s7 = s6 + p7;
    let s8 = s7 + p8;
    let s9 = s8 + p9;
    let s10 = s9 + p10;
    let s11 = s10 + p11;
    let s12 = s11 + p12;
    let s13 = s12 + p13;
    let s14 = s13 + p14;
    assert(q.pairs_view() == s14);
    let v = Some(crate::text::dec_nat(q.clock_increment as nat));
    crate::text::lemma_extend(s0, p1, "clockIncrement"@, None, false);
    crate::text::lemma_extend(s1, p2, "clockIncrement"@, v, true);
    crate::text::lemma_extend(s2, p3, "clockIncrement"@, v, false);
    crate::text::lemma_extend(s3, p4, "clockIncrement"@, v, false);
    crate::text::lemma_extend(s4, p5, "clockIncrement"@, v, false);
    crate::text::lemma_extend(s5, p6, "clockIncrement"@, v, false);
    crate::text::lemma_extend(s6, p7, "clockIncrement"@, v, false);
    crate::text::lemma_extend(s7, p8, "clockIncrement"@, v, false);
    crate::text::lemma_extend(s8, p9, "clockIncrement"@, v, false);
    crate::text::lemma_extend(s9, p10, "clockIncrement"@, v, false);
    crate::text::lemma_extend(s10, p11, "clockIncrement"@, v, false);
    crate::text::lemma_extend(s11, p12, "clockIncrement"@, v, false);
    crate::text::lemma_extend(s12, p13, "clockIncrement"@, v, false);
    crate::text::lemma_extend(s13, p14, "clockIncrement"@, v, false);
}

/// The pairs of [`CreateForm`] carry its field under `minutes`.
proof fn lemma_create_form_minutes(q: CreateForm)
    ensures
        crate::text::carries(q.pairs_view(), "minutes"@, Some(crate::text::dec_nat(q.minutes as nat))),
{
    reveal_strlit("berserkable");
    reveal_strlit("clockIncrement");
    reveal_strlit("clockTime");
    reveal_strlit("description");
    reveal_strlit("hasChat");
    reveal_strlit("minutes");
    reveal_strlit("name");
    reveal_strlit("password");
    reveal_strlit("position");
    reveal_strlit("rated");
    reveal_strlit("startDate");
    reveal_strlit("streakable");
    reveal_strlit("teamBattleByTeam");
    reveal_strlit("variant");
    reveal_strlit("waitMinutes");
    assert("minutes"@.len() != "berserkable"@.len());
    assert("minutes"@.len() != "clockIncrement"@.len());
    assert("minutes"@.len() != "clockTime"@.len());
    assert("minutes"@.len() != "description"@.len());
    assert("minutes"@[0] != "hasChat"@[0]);
    assert("minutes"@.len() != "name"@.len());
    assert("minutes"@.len() != "password"@.len());
    assert("minutes"@.len() != "position"@.len());
    assert("minutes"@.len() != "rated"@.len());
    assert("minutes"@.len() != "startDate"@.len());
    assert("minutes"@.len() != "streakable"@.len());
    assert("minutes"@.len() != "teamBattleByTeam"@.len());
    assert("minutes"@[0] != "variant"@[0]);
    assert("minutes"@.len() != "waitMinutes"@.len());
    let p0 = seq![("name"@, q.name@)];
    let p1 = seq![("clockTime"@, q.clock_time@)];
    let p2 = seq![("clockIncrement"@, crate::text::dec_nat(q.clock_increment as nat))];
    let p3 = seq![("minutes"@, crate::text::dec_nat(q.minutes as nat))];
    let p4 = crate::http::bool_pair("rated"@, q.rated);
    let p5 = crate::http::opt_pair("variant"@, LichessVariantKey::opt_wire(q.variant));
    let p6 = crate::http::nat_pair("waitMinutes"@, crate::http::opt_u32(q.wait_minutes));
    let p7 = crate::http::int_pair("startDate"@, crate::http::opt_i64(q.start_date));
    let p8 = crate::http::str_pair("position"@, q.position);
    let p9 = crate::http::bool_pair("berserkable"@, q.berserkable);
    let p10 = crate::http::bool_pair("streakable"@, q.streakable);
    let p11 = crate::http::bool_pair("hasChat"@, q.has_chat);
    let p12 = crate::http::str_pair("description"@, q.description);
    let p13 = crate::http::str_pair("password"@, q.password);
    let p14 = crate::http::str_pair("teamBattleByTeam"@, q.team_battle_by_team);
    let s0 = p0;
    let s1 = s0 + p1;
    let s2 = s1 + p2;
    let s3 = s2 + p3;
    let s4 = s3 + p4;
    let s5 = s4 + p5;
    let s6 = s5 + p6;
    let s7 = s6 + p7;
    let s8 = s7 + p8;
    let s9 = s8 + p9;
    let s10 = s9 + p10;
    let s11 = s10 + p11;
    let s12 = s11 + p12;
    let s13 = s12 + p13;
    let s14 = s13 + p14;
    assert(q.pairs_view() == s14);
    let v = Some(crate::text::dec_nat(q.minutes as nat));
    crate::text::lemma_extend(s0, p1, "minutes"@, None, false);
    crate::text::lemma_extend(s1, p2, "minutes"@, None, false);
    crate::text::lemma_extend(s2, p3, "minutes"@, v, true);
    crate::text::lemma_extend(s3, p4, "minutes"@, v, false);
    crate::text::lemma_extend(s4, p5, "minutes"@, v, false);
    crate::text::lemma_extend(s5, p6, "minutes"@, v, false);
    crate::text::lemma_extend(s6, p7, "minutes"@, v, false);
    crate::text::lemma_extend(s7, p8, "minutes"@, v, false);
    crate::text::lemma_extend(s8, p9, "minutes"@, v, false);
    crate::text::lemma_extend(s9, p10, "minutes"@, v, false);
    crate::text::lemma_extend(s10, p11, "minutes"@, v, false);
    crate::text::lemma_extend(s11, p12, "minutes"@, v, false);
    crate::text::lemma_extend(s12, p13, "minutes"@, v, false);
    crate::text::lemma_extend(s13, p14, "minutes"@, v, false);
}

/// The pairs of [`CreateForm`] carry its field under `rated`.
proof fn lemma_create_form_rated(q: CreateForm)
    ensures
        crate::text::carries(q.pairs_view(), "rated"@, match q.rated { Some(b) => Some(if b { seq!['t', 'r', 'u', 'e'] } else { seq!['f', 'a', 'l', 's', 'e'] }), None => None }),
{
    reveal_strlit("berserkable");
    reveal_strlit("clockIncrement");
    reveal_strlit("clockTime");
    reveal_strlit("description");
    reveal_strlit("hasChat");
    reveal_strlit("minutes");
    reveal_strlit("name");
    reveal_strlit("password");
    reveal_strlit("position");
    reveal_strlit("rated");
    reveal_strlit("startDate");
    reveal_strlit("streakable");
    reveal_strlit("teamBattleByTeam");
    reveal_strlit("variant");
    reveal_strlit("waitMinutes");
    assert("rated"@.len() != "berserkable"@.len());
    assert("rated"@.len() != "clockIncrement"@.len());
    assert("rated"@.len() != "clockTime"@.len());
    assert("rated"@.len() != "description"@.len());
    assert("rated"@.len() != "hasChat"@.len());
    assert("rated"@.len() != "minutes"@.len());
    assert("rated"@.len() != "name"@.len());
    assert("rated"@.len() != "password"@.len());
    assert("rated"@.len() != "position"@.len());
    assert("rated"@.len() != "startDate"@.len());
    assert("rated"@.len() != "streakable"@.len());
    assert("rated"@.len() != "teamBattleByTeam"@.len());
    assert("rated"@.len() != "variant"@.len());
    assert("rated"@.len() != "waitMinutes"@.len());
    let p0 = seq![("name"@, q.name@)];
    let p1 = seq![("clockTime"@, q.clock_time@)];
    let p2 = seq![("clockIncrement"@, crate::text::dec_nat(q.clock_increment as nat))];
    let p3 = seq![("minutes"@, crate::text::dec_nat(q.minutes as nat))];
    let p4 = crate::http::bool_pair("rated"@, q.rated);
    let p5 = crate::http::opt_pair("variant"@, LichessVariantKey::opt_wire(q.variant));
    let p6 = crate::http::nat_pair("waitMinutes"@, crate::http::opt_u32(q.wait_minutes));
    let p7 = crate::http::int_pair("startDate"@, crate::http::opt_i64(q.start_date));
    let p8 = crate::http::str_pair("position"@, q.position);
    let p9 = crate::http::bool_pair("berserkable"@, q.berserkable);
    let p10 = crate::http::bool_pair("streakable"@, q.streakable);
    let p11 = crate::http::bool_pair("hasChat"@, q.has_chat);
    let p12 = crate::http::str_pair("description"@, q.description);
    let p13 = crate::http::str_pair("password"@, q.password);
    let p14 = crate::http::str_pair("teamBattleByTeam"@, q.team_battle_by_team);
    let s0 = p0;
    let s1 = s0 + p1;
    let s2 = s1 + p2;
    let s3 = s2 + p3;
    let s4 = s3 + p4;
    let s5 = s4 + p5;
    let s6 = s5 + p6;
    let s7 = s6 + p7;
    let s8 = s7 + p8;
    let s9 = s8 + p9;
    let s10 = s9 + p10;
    let s11 = s10 + p11;
    let s12 = s11 + p12;
    let s13 = s12 + p13;
    let s14 = s13 + p14;
    assert(q.pairs_view() == s14);
    let v = match q.rated { Some(b) => Some(if b { seq!['t', 'r', 'u', 'e'] } else { seq!['f', 'a', 'l', 's', 'e'] }), None => None };
    crate::text::lemma_extend(s0, p1, "rated"@, None, false);
    crate::text::lemma_extend(s1, p2, "rated"@, None, false);
    crate::text::lemma_extend(s2, p3, "rated"@, None, false);
    crate::text::lemma_extend(s3, p4, "rated"@, v, true);
    crate::text::lemma_extend(s4, p5, "rated"@, v, false);
    crate::text::lemma_extend(s5, p6, "rated"@, v, false);
    crate::text::lemma_extend(s6, p7, "rated"@, v, false);
    crate::text::lemma_extend(s7, p8, "rated"@, v, false);
    crate::text::lemma_extend(s8, p9, "rated"@, v, false);
    crate::text::lemma_extend(s9, p10, "rated"@, v, false);
    crate::text::lemma_extend(s10, p11, "rated"@, v, false);
    crate::text::lemma_extend(s11, p12, "rated"@, v, false);
    crate::text::lemma_extend(s12, p13, "rated"@, v, false);
    crate::text::lemma_extend(s13, p14, "rated"@, v, false);
}

/// The pairs of [`CreateForm`] carry its field under `variant`.
proof fn lemma_create_form_variant(q: CreateForm)
    ensures
        crate::text::carries(q.pairs_view(), "variant"@, LichessVariantKey::opt_wire(q.variant)),
{
    reveal_strlit("berserkable");
    reveal_strlit("clockIncrement");
    reveal_strlit("clockTime");
    reveal_strlit("description");
    reveal_strlit("hasChat");
    reveal_strlit("minutes");
    reveal_strlit("name");
    reveal_strlit("password");
    reveal_strlit("position");
    reveal_strlit("rated");
    reveal_strlit("startDate");
    reveal_strlit("streakable");
    reveal_strlit("teamBattleByTeam");
    reveal_strlit("variant");
    reveal_strlit("waitMinutes");
    assert("variant"@.len() != "berserkable"@.len());
    assert("variant"@.len() != "clockIncrement"@.len());
    assert("variant"@.len() != "clockTime"@.len());
    assert("variant"@.len() != "description"@.len());
    assert("variant"@[0] != "hasChat"@[0]);
    assert("variant"@[0] != "minutes"@[0]);
    assert("variant"@.len() != "name"@.len());
    assert("variant"@.len() != "password"@.len());
    assert("variant"@.len() != "position"@.len());
    assert("variant"@.len() != "rated"@.len());
    assert("variant"@.len() != "startDate"@.len());
    assert("variant"@.len() != "streakable"@.len());
    assert("variant"@.len() != "teamBattleByTeam"@.len());
    assert("variant"@.len() != "waitMinutes"@.len());
    let p0 = seq![("name"@, q.name@)];
    let p1 = seq![("clockTime"@, q.clock_time@)];
    let p2 = seq![("clockIncrement"@, crate::text::dec_nat(q.clock_increment as nat))];
    let p3 = seq![("minutes"@, crate::text::dec_nat(q.minutes as nat))];
    let p4 = crate::http::bool_pair("rated"@, q.rated);
    let p5 = crate::http::opt_pair("variant"@, LichessVariantKey::opt_wire(q.variant));
    let p6 = crate::http::nat_pair("waitMinutes"@, crate::http::opt_u32(q.wait_minutes));
    let p7 = crate::http::int_pair("startDate"@, crate::http::opt_i64(q.start_date));
    let p8 = crate::http::str_pair("position"@, q.position);
    let p9 = crate::http::bool_pair("berserkable"@, q.berserkable);
    let p10 = crate::http::bool_pair("streakable"@, q.streakable);
    let p11 = crate::http::bool_pair("hasChat"@, q.has_chat);
    let p12 = crate::http::str_pair("description"@, q.description);
    let p13 = crate::http::str_pair("password"@, q.password);
    let p14 = crate::http::str_pair("teamBattleByTeam"@, q.team_battle_by_team);
    let s0 = p0;
    let s1 = s0 + p1;
    let s2 = s1 + p2;
    let s3 = s2 + p3;
    let s4 = s3 + p4;
    let s5 = s4 + p5;
    let s6 = s5 + p6;
    let s7 = s6 + p7;
    let s8 = s7 + p8;
    let s9 = s8 + p9;
    let s10 = s9 + p10;
    let s11 = s10 + p11;
    let s12 = s11 + p12;
    let s13 = s12 + p13;
    let s14 = s13 + p14;
    assert(q.pairs_view() == s14);
    let v = LichessVariantKey::opt_wire(q.variant);
    crate::text::lemma_extend(s0, p1, "variant"@, None, false);
    crate::text::lemma_extend(s1, p2, "variant"@, None, false);
    crate::text::lemma_extend(s2, p3, "variant"@, None, false);
    crate::text::lemma_extend(s3, p4, "variant"@, None, false);
    crate::text::lemma_extend(s4, p5, "variant"@, v, true);
    crate::text::lemma_extend(s5, p6, "variant"@, v, false);
    crate::text::lemma_extend(s6, p7, "variant"@, v, false);
    crate::text::lemma_extend(s7, p8, "variant"@, v, false);
    crate::text::lemma_extend(s8, p9, "variant"@, v, false);
    crate::text::lemma_extend(s9, p10, "variant"@, v, false);
    crate::text::lemma_extend(s10, p11, "variant"@, v, false);
    crate::text::lemma_extend(s11, p12, "variant"@, v, false);
    crate::text::lemma_extend(s12, p13, "variant"@, v, false);
    crate::text::lemma_extend(s13, p14, "variant"@, v, false);
}

/// The pairs of [`CreateForm`] carry its field under `waitMinutes`.
proof fn lemma_create_form_wait_minutes(q: CreateForm)
    ensures
        crate::text::carries(q.pairs_view(), "waitMinutes"@, match q.wait_minutes { Some(x) => Some(crate::text::dec_nat(x as nat)), None => None }),
{
    reveal_strlit("berserkable");
    reveal_strlit("clockIncrement");
    reveal_strlit("clockTime");
    reveal_strlit("description");
    reveal_strlit("hasChat");
    reveal_strlit("minutes");
    reveal_strlit("name");
    reveal_strlit("password");
    reveal_strlit("position");
    reveal_strlit("rated");
    reveal_strlit("startDate");
    reveal_strlit("streakable");
    reveal_strlit("teamBattleByTeam");
    reveal_strlit("variant");
    reveal_strlit("waitMinutes");
    assert("waitMinutes"@[0] != "berserkable"@[0]);
    assert("waitMinutes"@.len() != "clockIncrement"@.len());
    assert("waitMinutes"@.len() != "clockTime"@.len());
    assert("waitMinutes"@[0] != "description"@[0]);
    assert("waitMinutes"@.len() != "hasChat"@.len());
    assert("waitMinutes"@.len() != "minutes"@.len());
    assert("waitMinutes"@.len() != "name"@.len());
    assert("waitMinutes"@.len() != "password"@.len());
    assert("waitMinutes"@.len() != "position"@.len());
    assert("waitMinutes"@.len() != "rated"@.len());
    assert("waitMinutes"@.len() != "startDate"@.len());
    assert("waitMinutes"@.len() != "streakable"@.len());
    assert("waitMinutes"@.len() != "teamBattleByTeam"@.len());
    assert("waitMinutes"@.len() != "variant"@.len());
    let p0 = seq![("name"@, q.name@)];
    let p1 = seq![("clockTime"@, q.clock_time@)];
    let p2 = seq![("clockIncrement"@, crate::text::dec_nat(q.clock_increment as nat))];
    let p3 = seq![("minutes"@, crate::text::dec_nat(q.minutes as nat))];
    let p4 = crate::http::bool_pair("rated"@, q.rated);
    let p5 = crate::http::opt_pair("variant"@, LichessVariantKey::opt_wire(q.variant));
    let p6 = crate::http::nat_pair("waitMinutes"@, crate::http::opt_u32(q.wait_minutes));
    let p7 = crate::http::int_pair("startDate"@, crate::http::opt_i64(q.start_date));
    let p8 = crate::http::str_pair("position"@, q.position);
    let p9 = crate::http::bool_pair("berserkable"@, q.berserkable);
    let p10 = crate::http::bool_pair("streakable"@, q.streakable);
    let p11 = crate::http::bool_pair("hasChat"@, q.has_chat);
    let p12 = crate::http::str_pair("description"@, q.description);
    let p13 = crate::http::str_pair("password"@, q.password);
    let p14 = crate::http::str_pair("teamBattleByTeam"@, q.team_battle_by_team);
    let s0 = p0;
    let s1 = s0 + p1;
    let s2 = s1 + p2;
    let s3 = s2 + p3;
    let s4 = s3 + p4;
    let s5 = s4 + p5;
    let s6 = s5 + p6;
    let s7 = s6 + p7;
    let s8 = s7 + p8;
    let s9 = s8 + p9;
    let s10 = s9 + p10;
    let s11 = s10 + p11;
    let s12 = s11 + p12;
    let s13 = s12 + p13;
    let s14 = s13 + p14;
    assert(q.pairs_view() == s14);
    let v = match q.wait_minutes { Some(x) => Some(crate::text::dec_nat(x as nat)), None => None };
    crate::text::lemma_extend(s0, p1, "waitMinutes"@, None, false);
    crate::text::lemma_extend(s1, p2, "waitMinutes"@, None, false);
    crate::text::lemma_extend(s2, p3, "waitMinutes"@, None, false);
    crate::text::lemma_extend(s3, p4, "waitMinutes"@, None, false);
    crate::text::lemma_extend(s4, p5, "waitMinutes"@, None, false);
    crate::text::lemma_extend(s5, p6, "waitMinutes"@, v, true);
    crate::text::lemma_extend(s6, p7, "waitMinutes"@, v, false);
    crate::text::lemma_extend(s7, p8, "waitMinutes"@, v, false);
    crate::text::lemma_extend(s8, p9, "waitMinutes"@, v, false);
    crate::text::lemma_extend(s9, p10, "waitMinutes"@, v, false);
    crate::text::lemma_extend(s10, p11, "waitMinutes"@, v, false);
    crate::text::lemma_extend(s11, p12, "waitMinutes"@, v, false);
    crate::text::lemma_extend(s12, p13, "waitMinutes"@, v, false);
    crate::text::lemma_extend(s13, p14, "waitMinutes"@, v, false);
}

/// The pairs of [`CreateForm`] carry its field under `startDate`.
proof fn lemma_create_form_start_date(q: CreateForm)
    ensures
        crate::text::carries(q.pairs_view(), "startDate"@, match q.start_date { Some(x) => Some(crate::text::dec_int(x as int)), None => None }),
{
    reveal_strlit("berserkable");
    reveal_strlit("clockIncrement");
    reveal_strlit("clockTime");
    reveal_strlit("description");
    reveal_strlit("hasChat");
    reveal_strlit("minutes");
    reveal_strlit("name");
    reveal_strlit("password");
    reveal_strlit("position");
    reveal_strlit("rated");
    reveal_strlit("startDate");
    reveal_strlit("streakable");
    reveal_strlit("teamBattleByTeam");
    reveal_strlit("variant");
    reveal_strlit("waitMinutes");
    assert("startDate"@.len() != "berserkable"@.len());
    assert("startDate"@.len() != "clockIncrement"@.len());
    assert("startDate"@[0] != "clockTime"@[0]);
    assert("startDate"@.len() != "description"@.len());
    assert("startDate"@.len() != "hasChat"@.len());
    assert("startDate"@.len() != "minutes"@.len());
    assert("startDate"@.len() != "name"@.len());
    assert("startDate"@.len() != "password"@.len());
    assert("startDate"@.len() != "position"@.len());
    assert("startDate"@.len() != "rated"@.len());
    assert("startDate"@.len() != "streakable"@.len());
    assert("startDate"@.len() != "teamBattleByTeam"@.len());
    assert("startDate"@.len() != "variant"@.len());
    assert("startDate"@.len() != "waitMinutes"@.len());
    let p0 = seq![("name"@, q.name@)];
    let p1 = seq![("clockTime"@, q.clock_time@)];
    let p2 = seq![("clockIncrement"@, crate::text::dec_nat(q.clock_increment as nat))];
    let p3 = seq![("minutes"@, crate::text::dec_nat(q.minutes as nat))];
    let p4 = crate::http::bool_pair("rated"@, q.rated);
    let p5 = crate::http::opt_pair("variant"@, LichessVariantKey::opt_wire(q.variant));
    let p6 = crate::http::nat_pair("waitMinutes"@, crate::http::opt_u32(q.wait_minutes));
    let p7 = crate::http::int_pair("startDate"@, crate::http::opt_i64(q.start_date));
    let p8 = crate::http::str_pair("position"@, q.position);
    let p9 = crate::http::bool_pair("berserkable"@, q.berserkable);
    let p10 = crate::http::bool_pair("streakable"@, q.streakable);
    let p11 = crate::http::bool_pair("hasChat"@, q.has_chat);
    let p12 = crate::http::str_pair("description"@, q.description);
    let p13 = crate::http::str_pair("password"@, q.password);
    let p14 = crate::http::str_pair("teamBattleByTeam"@, q.team_battle_by_team);
    let s0 = p0;
    let s1 = s0 + p1;
    let s2 = s1 + p2;
    let s3 = s2 + p3;
    let s4 = s3 + p4;
    let s5 = s4 + p5;
    let s6 = s5 + p6;
    let s7 = s6 + p7;
    let s8 = s7 + p8;
    let s9 = s8 + p9;
    let s10 = s9 + p10;
    let s11 = s10 + p11;
    let s12 = s11 + p12;
    let s13 = s12 + p13;
    let s14 = s13 + p14;
    assert(q.pairs_view() == s14);
    let v = match q.start_date { Some(x) => Some(crate::text::dec_int(x as int)), None => None };
    crate::text::lemma_extend(s0, p1, "startDate"@, None, false);
    crate::text::lemma_extend(s1, p2, "startDate"@, None, false);
    crate::text::lemma_extend(s2, p3, "startDate"@, None, false);
    crate::text::lemma_extend(s3, p4, "startDate"@, None, false);
    crate::text::lemma_extend(s4, p5, "startDate"@, None, false);
    crate::text::lemma_extend(s5, p6, "startDate"@, None, false);
    crate::text::lemma_extend(s6, p7, "startDate"@, v, true);
    crate::text::lemma_extend(s7, p8, "startDate"@, v, false);
    crate::text::lemma_extend(s8, p9, "startDate"@, v, false);
    crate::text::lemma_extend(s9, p10, "startDate"@, v, false);
    crate::text::lemma_extend(s10, p11, "startDate"@, v, false);
    crate::text::lemma_extend(s11, p12, "startDate"@, v, false);
    crate::text::lemma_extend(s12, p13, "startDate"@, v, false);
    crate::text::lemma_extend(s13, p14, "startDate"@, v, false);
}

/// The pairs of [`CreateForm`] carry its field under `position`.
proof fn lemma_create_form_position(q: CreateForm)
    ensures
        crate::text::carries(q.pairs_view(), "position"@, match q.position { Some(v) => Some(v@), None => None }),
{
    reveal_strlit("berserkable");
    reveal_strlit("clockIncrement");
    reveal_strlit("clockTime");
    reveal_strlit("description");
    reveal_strlit("hasChat");
    reveal_strlit("minutes");
    reveal_strlit("name");
    reveal_strlit("password");
    reveal_strlit("position");
    reveal_strlit("rated");
    reveal_strlit("startDate");
    reveal_strlit("streakable");
    reveal_strlit("teamBattleByTeam");
    reveal_strlit("variant");
    reveal_strlit("waitMinutes");
    assert("position"@.len() != "berserkable"@.len());
    assert("position"@.len() != "clockIncrement"@.len());
    assert("position"@.len() != "clockTime"@.len());
    assert("position"@.len() != "description"@.len());
    assert("position"@.len() != "hasChat"@.len());
    assert("position"@.len() != "minutes"@.len());
    assert("position"@.len() != "name"@.len());
    assert("position"@[1] != "password"@[1]);
    assert("position"@.len() != "rated"@.len());
    assert("position"@.len() != "startDate"@.len());
    assert("position"@.len() != "streakable"@.len());
    assert("position"@.len() != "teamBattleByTeam"@.len());
    assert("position"@.len() != "variant"@.len());
    assert("position"@.len() != "waitMinutes"@.len());
    let p0 = seq![("name"@, q.name@)];
    let p1 = seq![("clockTime"@, q.clock_time@)];
    let p2 = seq![("clockIncrement"@, crate::text::dec_nat(q.clock_increment as nat))];
    let p3 = seq![("minutes"@, crate::text::dec_nat(q.minutes as nat))];
    let p4 = crate::http::bool_pair("rated"@, q.rated);
    let p5 = crate::http::opt_pair("variant"@, LichessVariantKey::opt_wire(q.variant));
    let p6 = crate::http::nat_pair("waitMinutes"@, crate::http::opt_u32(q.wait_minutes));
    let p7 = crate::http::int_pair("startDate"@, crate::http::opt_i64(q.start_date));
    let p8 = crate::http::str_pair("position"@, q.position);
    let p9 = crate::http::bool_pair("berserkable"@, q.berserkable);
    let p10 = crate::http::bool_pair("streakable"@, q.streakable);
    let p11 = crate::http::bool_pair("hasChat"@, q.has_chat);
    let p12 = crate::http::str_pair("description"@, q.description);
    let p13 = crate::http::str_pair("password"@, q.password);
    let p14 = crate::http::str_pair("teamBattleByTeam"@, q.team_battle_by_team);
    let s0 = p0;
    let s1 = s0 + p1;
    let s2 = s1 + p2;
    let s3 = s2 + p3;
    let s4 = s3 + p4;
    let s5 = s4 + p5;
    let s6 = s5 + p6;
    let s7 = s6 + p7;
    let s8 = s7 + p8;
    let s9 = s8 + p9;
    let s10 = s9 + p10;
    let s11 = s10 + p11;
    let s12 = s11 + p12;
    let s13 = s12 + p13;
    let s14 = s13 + p14;
    assert(q.pairs_view() == s14);
    let v = match q.position { Some(v) => Some(v@), None => None };
    crate::text::lemma_extend(s0, p1, "position"@, None, false);
    crate::text::lemma_extend(s1, p2, "position"@, None, false);
    crate::text::lemma_extend(s2, p3, "position"@, None, false);
    crate::text::lemma_extend(s3, p4, "position"@, None, false);
    crate::text::lemma_extend(s4, p5, "position"@, None, false);
    crate::text::lemma_extend(s5, p6, "position"@, None, false);
    crate::text::lemma_extend(s6, p7, "position"@, None, false);
    crate::text::lemma_extend(s7, p8, "position"@, v, true);
    crate::text::lemma_extend(s8, p9, "position"@, v, false);
    crate::text::lemma_extend(s9, p10, "position"@, v, false);
    crate::text::lemma_extend(s10, p11, "position"@, v, false);
    crate::text::lemma_extend(s11, p12, "position"@, v, false);
    crate::text::lemma_extend(s12, p13, "position"@, v, false);
    crate::text::lemma_extend(s13, p14, "position"@, v, false);
}

/// The pairs of [`CreateForm`] carry its field under `berserkable`.
proof fn lemma_create_form_berserkable(q: CreateForm)
    ensures
        crate::text::carries(q.pairs_view(), "berserkable"@, match q.berserkable { Some(b) => Some(if b { seq!['t', 'r', 'u', 'e'] } else { seq!['f', 'a', 'l', 's', 'e'] }), None => None }),
{
    reveal_strlit("berserkable");
    reveal_strlit("clockIncrement");
    reveal_strlit("clockTime");
    reveal_strlit("description");
    reveal_strlit("hasChat");
    reveal_strlit("minutes");
    reveal_strlit("name");
    reveal_strlit("password");
    reveal_strlit("position");
    reveal_strlit("rated");
    reveal_strlit("startDate");
    reveal_strlit("streakable");
    reveal_strlit("teamBattleByTeam");
    reveal_strlit("variant");
    reveal_strlit("waitMinutes");
    assert("berserkable"@.len() != "clockIncrement"@.len());
    assert("berserkable"@.len() != "clockTime"@.len());
    assert("berserkable"@[0] != "description"@[0]);
    assert("berserkable"@.len() != "hasChat"@.len());
    assert("berserkable"@.len() != "minutes"@.len());
    assert("berserkable"@.len() != "name"@.len());
    assert("berserkable"@.len() != "password"@.len());
    assert("berserkable"@.len() != "position"@.len());
    assert("berserkable"@.len() != "rated"@.len());
    assert("berserkable"@.len() != "startDate"@.len());
    assert("berserkable"@.len() != "streakable"@.len());
    assert("berserkable"@.len() != "teamBattleByTeam"@.len());
    assert("berserkable"@.len() != "variant"@.len());
    assert("berserkable"@[0] != "waitMinutes"@[0]);
    let p0 = seq![("name"@, q.name@)];
    let p1 = seq![("clockTime"@, q.clock_time@)];
    let p2 = seq![("clockIncrement"@, crate::text::dec_nat(q.clock_increment as nat))];
    let p3 = seq![("minutes"@, crate::text::dec_nat(q.minutes as nat))];
    let p4 = crate::http::bool_pair("rated"@, q.rated);
    let p5 = crate::http::opt_pair("variant"@, LichessVariantKey::opt_wire(q.variant));
    let p6 = crate::http::nat_pair("waitMinutes"@, crate::http::opt_u32(q.wait_minutes));
    let p7 = crate::http::int_pair("startDate"@, crate::http::opt_i64(q.start_date));
    let p8 = crate::http::str_pair("position"@, q.position);
    let p9 = crate::http::bool_pair("berserkable"@, q.berserkable);
    let p10 = crate::http::bool_pair("streakable"@, q.streakable);
    let p11 = crate::http::bool_pair("hasChat"@, q.has_chat);
    let p12 = crate::http::str_pair("description"@, q.description);
    let p13 = crate::http::str_pair("password"@, q.password);
    let p14 = crate::http::str_pair("teamBattleByTeam"@, q.team_battle_by_team);
    let s0 = p0;
    let s1 = s0 + p1;
    let s2 = s1 + p2;
    let s3 = s2 + p3;
    let s4 = s3 + p4;
    let s5 = s4 + p5;
    let s6 = s5 + p6;
    let s7 = s6 + p7;
    let s8 = s7 + p8;
    let s9 = s8 + p9;
    let s10 = s9 + p10;
    let s11 = s10 + p11;
    let s12 = s11 + p12;
    let s13 = s12 + p13;
    let s14 = s13 + p14;
    assert(q.pairs_view() == s14);
    let v = match q.berserkable { Some(b) => Some(if b { seq!['t', 'r', 'u', 'e'] } else { seq!['f', 'a', 'l', 's', 'e'] }), None => None };
    crate::text::lemma_extend(s0, p1, "berserkable"@, None, false);
    crate::text::lemma_extend(s1, p2, "berserkable"@, None, false);
    crate::text::lemma_extend(s2, p3, "berserkable"@, None, false);
    crate::text::lemma_extend(s3, p4, "berserkable"@, None, false);
    crate::text::lemma_extend(s4, p5, "berserkable"@, None, false);
    crate::text::lemma_extend(s5, p6, "berserkable"@, None, false);
    crate::text::lemma_extend(s6, p7, "berserkable"@, None, false);
    crate::text::lemma_extend(s7, p8, "berserkable"@, None, false);
    crate::text::lemma_extend(s8, p9, "berserkable"@, v, true);
    crate::text::lemma_extend(s9, p10, "berserkable"@, v, false);
    crate::text::lemma_extend(s10, p11, "berserkable"@, v, false);
    crate::text::lemma_extend(s11, p12, "berserkable"@, v, false);
    crate::text::lemma_extend(s12, p13, "berserkable"@, v, false);
    crate::text::lemma_extend(s13, p14, "berserkable"@, v, false);
}

/// The pairs of [`CreateForm`] carry its field under `streakable`.
proof fn lemma_create_form_streakable(q: CreateForm)
    ensures
        crate::text::carries(q.pairs_view(), "streakable"@, match q.streakable { Some(b) => Some(if b { seq!['t', 'r', 'u', 'e'] } else { seq!['f', 'a', 'l', 's', 'e'] }), None => None }),
{
    reveal_strlit("berserkable");
    reveal_strlit("clockIncrement");
    reveal_strlit("clockTime");
    reveal_strlit("description");
    reveal_strlit("hasChat");
    reveal_strlit("minutes");
    reveal_strlit("name");
    reveal_strlit("password");
    reveal_strlit("position");
    reveal_strlit("rated");
    reveal_strlit("startDate");
    reveal_strlit("streakable");
    reveal_strlit("teamBattleByTeam");
    reveal_strlit("variant");
    reveal_strlit("waitMinutes");
    assert("streakable"@.len() != "berserkable"@.len());
    assert("streakable"@.len() != "clockIncrement"@.len());
    assert("streakable"@.len() != "clockTime"@.len());
    assert("streakable"@.len() != "description"@.len());
    assert("streakable"@.len() != "hasChat"@.len());
    assert("streakable"@.len() != "minutes"@.len());
    assert("streakable"@.len() != "name"@.len());
    assert("streakable"@.len() != "password"@.len());
    assert("streakable"@.len() != "position"@.len());
    assert("streakable"@.len() != "rated"@.len());
    assert("streakable"@.len() != "startDate"@.len());
    assert("streakable"@.len() != "teamBattleByTeam"@.len());
    assert("streakable"@.len() != "variant"@.len());
    assert("streakable"@.len() != "waitMinutes"@.len());
    let p0 = seq![("name"@, q.name@)];
    let p1 = seq![("clockTime"@, q.clock_time@)];
    let p2 = seq![("clockIncrement"@, crate::text::dec_nat(q.clock_increment as nat))];
    let p3 = seq![("minutes"@, crate::text::dec_nat(q.minutes as nat))];
    let p4 = crate::http::bool_pair("rated"@, q.rated);
    let p5 = crate::http::opt_pair("variant"@, LichessVariantKey::opt_wire(q.variant));
    let p6 = crate::http::nat_pair("waitMinutes"@, crate::http::opt_u32(q.wait_minutes));
    let p7 = crate::http::int_pair("startDate"@, crate::http::opt_i64(q.start_date));
    let p8 = crate::http::str_pair("position"@, q.position);
    let p9 = crate::http::bool_pair("berserkable"@, q.berserkable);
    let p10 = crate::http::bool_pair("streakable"@, q.streakable);
    let p11 = crate::http::bool_pair("hasChat"@, q.has_chat);
    let p12 = crate::http::str_pair("description"@, q.description);
    let p13 = crate::http::str_pair("password"@, q.password);
    let p14 = crate::http::str_pair("teamBattleByTeam"@, q.team_battle_by_team);
    let s0 = p0;
    let s1 = s0 + p1;
    let s2 = s1 + p2;
    let s3 = s2 + p3;
    let s4 = s3 + p4;
    let s5 = s4 + p5;
    let s6 = s5 + p6;
    let s7 = s6 + p7;
    let s8 = s7 + p8;
    let s9 = s8 + p9;
    let s10 = s9 + p10;
    let s11 = s10 + p11;
    let s12 = s11 + p12;
    let s13 = s12 + p13;
    let s14 = s13 + p14;
    assert(q.pairs_view() == s14);
    let v = match q.streakable { Some(b) => Some(if b { seq!['t', 'r', 'u', 'e'] } else { seq!['f', 'a', 'l', 's', 'e'] }), None => None };
    crate::text::lemma_extend(s0, p1, "streakable"@, None, false);
    crate::text::lemma_extend(s1, p2, "streakable"@, None, false);
    crate::text::lemma_extend(s2, p3, "streakable"@, None, false);
    crate::text::lemma_extend(s3, p4, "streakable"@, None, false);
    crate::text::lemma_extend(s4, p5, "streakable"@, None, false);
    crate::text::lemma_extend(s5, p6, "streakable"@, None, false);
    crate::text::lemma_extend(s6, p7, "streakable"@, None, false);
    crate::text::lemma_extend(s7, p8, "streakable"@, None, false);
    crate::text::lemma_extend(s8, p9, "streakable"@, None, false);
    crate::text::lemma_extend(s9, p10, "streakable"@, v, true);
    crate::text::lemma_extend(s10, p11, "streakable"@, v, false);
    crate::text::lemma_extend(s11, p12, "streakable"@, v, false);
    crate::text::lemma_extend(s12, p13, "streakable"@, v, false);
    crate::text::lemma_extend(s13, p14, "streakable"@, v, false);
}

/// The pairs of [`CreateForm`] carry its field under `hasChat`.
proof fn lemma_create_form_has_chat(q: CreateForm)
    ensures
        crate::text::carries(q.pairs_view(), "hasChat"@, match q.has_chat { Some(b) => Some(if b { seq!['t', 'r', 'u', 'e'] } else { seq!['f', 'a', 'l', 's', 'e'] }), None => None }),
{
    reveal_strlit("berserkable");
    reveal_strlit("clockIncrement");
    reveal_strlit("clockTime");
    reveal_strlit("description");
    reveal_strlit("hasChat");
    reveal_strlit("minutes");
    reveal_strlit("name");
    reveal_strlit("password");
    reveal_strlit("position");
    reveal_strlit("rated");
    reveal_strlit("startDate");
    reveal_strlit("streakable");
    reveal_strlit("teamBattleByTeam");
    reveal_strlit("variant");
    reveal_strlit("waitMinutes");
    assert("hasChat"@.len() != "berserkable"@.len());
    assert("hasChat"@.len() != "clockIncrement"@.len());
    assert("hasChat"@.len() != "clockTime"@.len());
    assert("hasChat"@.len() != "description"@.len());
    assert("hasChat"@[0] != "minutes"@[0]);
    assert("hasChat"@.len() != "name"@.len());
    assert("hasChat"@.len() != "password"@.len());
    assert("hasChat"@.len() != "position"@.len());
    assert("hasChat"@.len() != "rated"@.len());
    assert("hasChat"@.len() != "startDate"@.len());
    assert("hasChat"@.len() != "streakable"@.len());
    assert("hasChat"@.len() != "teamBattleByTeam"@.len());
    assert("hasChat"@[0] != "variant"@[0]);
    assert("hasChat"@.len() != "waitMinutes"@.len());
    let p0 = seq![("name"@, q.name@)];
    let p1 = seq![("clockTime"@, q.clock_time@)];
    let p2 = seq![("clockIncrement"@, crate::text::dec_nat(q.clock_increment as nat))];
    let p3 = seq![("minutes"@, crate::text::dec_nat(q.minutes as nat))];
    let p4 = crate::http::bool_pair("rated"@, q.rated);
    let p5 = crate::http::opt_pair("variant"@, LichessVariantKey::opt_wire(q.variant));
    let p6 = crate::http::nat_pair("waitMinutes"@, crate::http::opt_u32(q.wait_minutes));
    let p7 = crate::http::int_pair("startDate"@, crate::http::opt_i64(q.start_date));
    let p8 = crate::http::str_pair("position"@, q.position);
    let p9 = crate::http::bool_pair("berserkable"@, q.berserkable);
    let p10 = crate::http::bool_pair("streakable"@, q.streakable);
    let p11 = crate::http::bool_pair("hasChat"@, q.has_chat);
    let p12 = crate::http::str_pair("description"@, q.description);
    let p13 = crate::http::str_pair("password"@, q.password);
    let p14 = crate::http::str_pair("teamBattleByTeam"@, q.team_battle_by_team);
    let s0 = p0;
    let s1 = s0 + p1;
    let s2 = s1 + p2;
    let s3 = s2 + p3;
    let s4 = s3 + p4;
    let s5 = s4 + p5;
    let s6 = s5 + p6;
    let s7 = s6 + p7;
    let s8 = s7 + p8;
    let s9 = s8 + p9;
    let s10 = s9 + p10;
    let s11 = s10 + p11;
    let s12 = s11 + p12;
    let s13 = s12 + p13;
    let s14 = s13 + p14;
    assert(q.pairs_view() == s14);
    let v = match q.has_chat { Some(b) => Some(if b { seq!['t', 'r', 'u', 'e'] } else { seq!['f', 'a', 'l', 's', 'e'] }), None => None };
    crate::text::lemma_extend(s0, p1, "hasChat"@, None, false);
    crate::text::lemma_extend(s1, p2, "hasChat"@, None, false);
    crate::text::lemma_extend(s2, p3, "hasChat"@, None, false);
    crate::text::lemma_extend(s3, p4, "hasChat"@, None, false);
    crate::text::lemma_extend(s4, p5, "hasChat"@, None, false);
    crate::text::lemma_extend(s5, p6, "hasChat"@, None, false);
    crate::text::lemma_extend(s6, p7, "hasChat"@, None, false);
    crate::text::lemma_extend(s7, p8, "hasChat"@, None, false);
    crate::text::lemma_extend(s8, p9, "hasChat"@, None, false);
    crate::text::lemma_extend(s9, p10, "hasChat"@, None, false);
    crate::text::lemma_extend(s10, p11, "hasChat"@, v, true);
    crate::text::lemma_extend(s11, p12, "hasChat"@, v, false);
    crate::text::lemma_extend(s12, p13, "hasChat"@, v, false);
    crate::text::lemma_extend(s13, p14, "hasChat"@, v, false);
}

/// The pairs of [`CreateForm`] carry its field under `description`.
proof fn lemma_create_form_description(q: CreateForm)
    ensures
        crate::text::carries(q.pairs_view(), "description"@, match q.description { Some(v) => Some(v@), None => None }),
{
    reveal_strlit("berserkable");
    reveal_strlit("clockIncrement");
    reveal_strlit("clockTime");
    reveal_strlit("description");
    reveal_strlit("hasChat");
    reveal_strlit("minutes");
    reveal_strlit("name");
    reveal_strlit("password");
    reveal_strlit("position");
    reveal_strlit("rated");
    reveal_strlit("startDate");
    reveal_strlit("streakable");
    reveal_strlit("teamBattleByTeam");
    reveal_strlit("variant");
    reveal_strlit("waitMinutes");
    assert("description"@[0] != "berserkable"@[0]);
    assert("description"@.len() != "clockIncrement"@.len());
    assert("description"@.len() != "clockTime"@.len());
    assert("description"@.len() != "hasChat"@.len());
    assert("description"@.len() != "minutes"@.len());
    assert("description"@.len() != "name"@.len());
    assert("description"@.len() != "password"@.len());
    assert("description"@.len() != "position"@.len());
    assert("description"@.len() != "rated"@.len());
    assert("description"@.len() != "startDate"@.len());
    assert("description"@.len() != "streakable"@.len());
    assert("description"@.len() != "teamBattleByTeam"@.len());
    assert("description"@.len() != "variant"@.len());
    assert("description"@[0] != "waitMinutes"@[0]);
    let p0 = seq![("name"@, q.name@)];
    let p1 = seq![("clockTime"@, q.clock_time@)];
    let p2 = seq![("clockIncrement"@, crate::text::dec_nat(q.clock_increment as nat))];
    let p3 = seq![("minutes"@, crate::text::dec_nat(q.minutes as nat))];
    let p4 = crate::http::bool_pair("rated"@, q.rated);
    let p5 = crate::http::opt_pair("variant"@, LichessVariantKey::opt_wire(q.variant));
    let p6 = crate::http::nat_pair("waitMinutes"@, crate::http::opt_u32(q.wait_minutes));
    let p7 = crate::http::int_pair("startDate"@, crate::http::opt_i64(q.start_date));
    let p8 = crate::http::str_pair("position"@, q.position);
    let p9 = crate::http::bool_pair("berserkable"@, q.berserkable);
    let p10 = crate::http::bool_pair("streakable"@, q.streakable);
    let p11 = crate::http::bool_pair("hasChat"@, q.has_chat);
    let p12 = crate::http::str_pair("description"@, q.description);
    let p13 = crate::http::str_pair("password"@, q.password);
    let p14 = crate::http::str_pair("teamBattleByTeam"@, q.team_battle_by_team);
    let s0 = p0;
    let s1 = s0 + p1;
    let s2 = s1 + p2;
    let s3 = s2 + p3;
    let s4 = s3 + p4;
    let s5 = s4 + p5;
    let s6 = s5 + p6;
    let s7 = s6 + p7;
    let s8 = s7 + p8;
    let s9 = s8 + p9;
    let s10 = s9 + p10;
    let s11 = s10 + p11;
    let s12 = s11 + p12;
    let s13 = s12 + p13;
    let s14 = s13 + p14;
    assert(q.pairs_view() == s14);
    let v = match q.description { Some(v) => Some(v@), None => None };
    crate::text::lemma_extend(s0, p1, "description"@, None, false);
    crate::text::lemma_extend(s1, p2, "description"@, None, false);
    crate::text::lemma_extend(s2, p3, "description"@, None, false);
    crate::text::lemma_extend(s3, p4, "description"@, None, false);
    crate::text::lemma_extend(s4, p5, "description"@, None, false);
    crate::text::lemma_extend(s5, p6, "description"@, None, false);
    crate::text::lemma_extend(s6, p7, "description"@, None, false);
    crate::text::lemma_extend(s7, p8, "description"@, None, false);
    crate::text::lemma_extend(s8, p9, "description"@, None, false);
    crate::text::lemma_extend(s9, p10, "description"@, None, false);
    crate::text::lemma_extend(s10, p11, "description"@, None, false);
    crate::text::lemma_extend(s11, p12, "description"@, v, true);
    crate::text::lemma_extend(s12, p13, "description"@, v, false);
    crate::text::lemma_extend(s13, p14, "description"@, v, false);
}

/// The pairs of [`CreateForm`] carry its field under `password`.
proof fn lemma_create_form_password(q: CreateForm)
    ensures
        crate::text::carries(q.pairs_view(), "password"@, match q.password { Some(v) => Some(v@), None => None }),
{
    reveal_strlit("berserkable");
    reveal_strlit("clockIncrement");
    reveal_strlit("clockTime");
    reveal_strlit("description");
    reveal_strlit("hasChat");
    reveal_strlit("minutes");
    reveal_strlit("name");
    reveal_strlit("password");
    reveal_strlit("position");
    reveal_strlit("rated");
    reveal_strlit("startDate");
    reveal_strlit("streakable");
    reveal_strlit("teamBattleByTeam");
    reveal_strlit("variant");
    reveal_strlit("waitMinutes");
    assert("password"@.len() != "berserkable"@.len());
    assert("password"@.len() != "clockIncrement"@.len());
    assert("password"@.len() != "clockTime"@.len());
    assert("password"@.len() != "description"@.len());
    assert("password"@.len() != "hasChat"@.len());
    assert("password"@.len() != "minutes"@.len());
    assert("password"@.len() != "name"@.len());
    assert("password"@[1] != "position"@[1]);
    assert("password"@.len() != "rated"@.len());
    assert("password"@.len() != "startDate"@.len());
    assert("password"@.len() != "streakable"@.len());
    assert("password"@.len() != "teamBattleByTeam"@.len());
    assert("password"@.len() != "variant"@.len());
    assert("password"@.len() != "waitMinutes"@.len());
    let p0 = seq![("name"@, q.name@)];
    let p1 = seq![("clockTime"@, q.clock_time@)];
    let p2 = seq![("clockIncrement"@, crate::text::dec_nat(q.clock_increment as nat))];
    let p3 = seq![("minutes"@, crate::text::dec_nat(q.minutes as nat))];
    let p4 = crate::http::bool_pair("rated"@, q.rated);
    let p5 = crate::http::opt_pair("variant"@, LichessVariantKey::opt_wire(q.variant));
    let p6 = crate::http::nat_pair("waitMinutes"@, crate::http::opt_u32(q.wait_minutes));
    let p7 = crate::http::int_pair("startDate"@, crate::http::opt_i64(q.start_date));
    let p8 = crate::http::str_pair("position"@, q.position);
    let p9 = crate::http::bool_pair("berserkable"@, q.berserkable);
    let p10 = crate::http::bool_pair("streakable"@, q.streakable);
    let p11 = crate::http::bool_pair("hasChat"@, q.has_chat);
    let p12 = crate::http::str_pair("description"@, q.description);
    let p13 = crate::http::str_pair("password"@, q.password);
    let p14 = crate::http::str_pair("teamBattleByTeam"@, q.team_battle_by_team);
    let s0 = p0;
    let s1 = s0 + p1;
    let s2 = s1 + p2;
    let s3 = s2 + p3;
    let s4 = s3 + p4;
    let s5 = s4 + p5;
    let s6 = s5 + p6;
    let s7 = s6 + p7;
    let s8 = s7 + p8;
    let s9 = s8 + p9;
    let s10 = s9 + p10;
    let s11 = s10 + p11;
    let s12 = s11 + p12;
    let s13 = s12 + p13;
    let s14 = s13 + p14;
    assert(q.pairs_view() == s14);
    let v = match q.password { Some(v) => Some(v@), None => None };
    crate::text::lemma_extend(s0, p1, "password"@, None, false);
    crate::text::lemma_extend(s1, p2, "password"@, None, false);
    crate::text::lemma_extend(s2, p3, "password"@, None, false);
    crate::text::lemma_extend(s3, p4, "password"@, None, false);
    crate::text::lemma_extend(s4, p5, "password"@, None, false);
    crate::text::lemma_extend(s5, p6, "password"@, None, false);
    crate::text::lemma_extend(s6, p7, "password"@, None, false);
    crate::text::lemma_extend(s7, p8, "password"@, None, false);
    crate::text::lemma_extend(s8, p9, "password"@, None, false);
    crate::text::lemma_extend(s9, p10, "password"@, None, false);
    crate::text::lemma_extend(s10, p11, "password"@, None, false);
    crate::text::lemma_extend(s11, p12, "password"@, None, false);
    crate::text::lemma_extend(s12, p13, "password"@, v, true);
    crate::text::lemma_extend(s13, p14, "password"@, v, false);
}

/// The pairs of [`CreateForm`] carry its field under `teamBattleByTeam`.
proof fn lemma_create_form_team_battle_by_team(q: CreateForm)
    ensures
        crate::text::carries(q.pairs_view(), "teamBattleByTeam"@, match q.team_battle_by_team { Some(v) => Some(v@), None => None }),
{
    reveal_strlit("berserkable");
    reveal_strlit("clockIncrement");
    reveal_strlit("clockTime");
    reveal_strlit("description");
    reveal_strlit("hasChat");
    reveal_strlit("minutes");
    reveal_strlit("name");
    reveal_strlit("password");
    reveal_strlit("position");
    reveal_strlit("rated");
    reveal_strlit("startDate");
    reveal_strlit("streakable");
    reveal_strlit("teamBattleByTeam");
    reveal_strlit("variant");
    reveal_strlit("waitMinutes");
    assert("teamBattleByTeam"@.len() != "berserkable"@.len());
    assert("teamBattleByTeam"@.len() != "clockIncrement"@.len());
    assert("teamBattleByTeam"@.len() != "clockTime"@.len());
    assert("teamBattleByTeam"@.len() != "description"@.len());
    assert("teamBattleByTeam"@.len() != "hasChat"@.len());
    assert("teamBattleByTeam"@.len() != "minutes"@.len());
    assert("teamBattleByTeam"@.len() != "name"@.len());
    assert("teamBattleByTeam"@.len() != "password"@.len());
    assert("teamBattleByTeam"@.len() != "position"@.len());
    assert("teamBattleByTeam"@.len() != "rated"@.len());
    assert("teamBattleByTeam"@.len() != "startDate"@.len());
    assert("teamBattleByTeam"@.len() != "streakable"@.len());
    assert("teamBattleByTeam"@.len() != "variant"@.len());
    assert("teamBattleByTeam"@.len() != "waitMinutes"@.len());
    let p0 = seq![("name"@, q.name@)];
    let p1 = seq![("clockTime"@, q.clock_time@)];
    let p2 = seq![("clockIncrement"@, crate::text::dec_nat(q.clock_increment as nat))];
    let p3 = seq![("minutes"@, crate::text::dec_nat(q.minutes as nat))];
    let p4 = crate::http::bool_pair("rated"@, q.rated);
    let p5 = crate::http::opt_pair("variant"@, LichessVariantKey::opt_wire(q.variant));
    let p6 = crate::http::nat_pair("waitMinutes"@, crate::http::opt_u32(q.wait_minutes));
    let p7 = crate::http::int_pair("startDate"@, crate::http::opt_i64(q.start_date));
    let p8 = crate::http::str_pair("position"@, q.position);
    let p9 = crate::http::bool_pair("berserkable"@, q.berserkable);
    let p10 = crate::http::bool_pair("streakable"@, q.streakable);
    let p11 = crate::http::bool_pair("hasChat"@, q.has_chat);
    let p12 = crate::http::str_pair("description"@, q.description);
    let p13 = crate::http::str_pair("password"@, q.password);
    let p14 = crate::http::str_pair("teamBattleByTeam"@, q.team_battle_by_team);
    let s0 = p0;
    let s1 = s0 + p1;
    let s2 = s1 + p2;
    let s3 = s2 + p3;
    let s4 = s3 + p4;
    let s5 = s4 + p5;
    let s6 = s5 + p6;
    let s7 = s6 + p7;
    let s8 = s7 + p8;
    let s9 = s8 + p9;
    let s10 = s9 + p10;
    let s11 = s10 + p11;
    let s12 = s11 + p12;
    let s13 = s12 + p13;
    let s14 = s13 + p14;
    assert(q.pairs_view() == s14);
    let v = match q.team_battle_by_team { Some(v) => Some(v@), None => None };
    crate::text::lemma_extend(s0, p1, "teamBattleByTeam"@, None, false);
    crate::text::lemma_extend(s1, p2, "teamBattleByTeam"@, None, false);
    crate::text::lemma_extend(s2, p3, "teamBattleByTeam"@, None, false);
    crate::text::lemma_extend(s3, p4, "teamBattleByTeam"@, None, false);
    crate::text::lemma_extend(s4, p5, "teamBattleByTeam"@, None, false);
    crate::text::lemma_extend(s5, p6, "teamBattleByTeam"@, None, false);
    crate::text::lemma_extend(s6, p7, "teamBattleByTeam"@, None, false);
    crate::text::lemma_extend(s7, p8, "teamBattleByTeam"@, None, false);
    crate::text::lemma_extend(s8, p9, "teamBattleByTeam"@, None, false);
    crate::text::lemma_extend(s9, p10, "teamBattleByTeam"@, None, false);
    crate::text::lemma_extend(s10, p11, "teamBattleByTeam"@, None, false);
    crate::text::lemma_extend(s11, p12, "teamBattleByTeam"@, None, false);
    crate::text::lemma_extend(s12, p13, "teamBattleByTeam"@, None, false);
    crate::text::lemma_extend(s13, p14, "teamBattleByTeam"@, v, true);
}

/// The pairs of [`CreateForm`] carry each of its fields under that field's own
/// key (`name`, `clockTime`, `clockIncrement`, `minutes`, `rated`, `variant`, `waitMinutes`, `startDate`, `position`, `berserkable`, `streakable`, `hasChat`, `description`, `password`, `teamBattleByTeam`), with the value given to it, and a key only when its field is set.
pub proof fn lemma_create_form_carries_fields(q: CreateForm)
    ensures
        crate::text::carries(q.pairs_view(), "name"@, Some(q.name@)),
        crate::text::carries(q.pairs_view(), "clockTime"@, Some(q.clock_time@)),
        crate::text::carries(q.pairs_view(), "clockIncrement"@, Some(crate::text::dec_nat(q.clock_increment as nat))),
        crate::text::carries(q.pairs_view(), "minutes"@, Some(crate::text::dec_nat(q.minutes as nat))),
        crate::text::carries(q.pairs_view(), "rated"@, match q.rated { Some(b) => Some(if b { seq!['t', 'r', 'u', 'e'] } else { seq!['f', 'a', 'l', 's', 'e'] }), None => None }),
        crate::text::carries(q.pairs_view(), "variant"@, LichessVariantKey::opt_wire(q.variant)),
        crate::text::carries(q.pairs_view(), "waitMinutes"@, match q.wait_minutes { Some(x) => Some(crate::text::dec_nat(x as nat)), None => None }),
        crate::text::carries(q.pairs_view(), "startDate"@, match q.start_date { Some(x) => Some(crate::text::dec_int(x as int)), None => None }),
        crate::text::carries(q.pairs_view(), "position"@, match q.position { Some(v) => Some(v@), None => None }),
        crate::text::carries(q.pairs_view(), "berserkable"@, match q.berserkable { Some(b) => Some(if b { seq!['t', 'r', 'u', 'e'] } else { seq!['f', 'a', 'l', 's', 'e'] }), None => None }),
        crate::text::carries(q.pairs_view(), "streakable"@, match q.streakable { Some(b) => Some(if b { seq!['t', 'r', 'u', 'e'] } else { seq!['f', 'a', 'l', 's', 'e'] }), None => None }),
        crate::text::carries(q.pairs_view(), "hasChat"@, match q.has_chat { Some(b) => Some(if b { seq!['t', 'r', 'u', 'e'] } else { seq!['f', 'a', 'l', 's', 'e'] }), None => None }),
        crate::text::carries(q.pairs_view(), "description"@, match q.description { Some(v) => Some(v@), None => None }),
        crate::text::carries(q.pairs_view(), "password"@, match q.password { Some(v) => Some(v@), None => None }),
        crate::text::carries(q.pairs_view(), "teamBattleByTeam"@, match q.team_battle_by_team { Some(v) => Some(v@), None => None }),
{
    lemma_create_form_name(q);
    lemma_create_form_clock_time(q);
    lemma_create_form_clock_increment(q);
    lemma_create_form_minutes(q);
    lemma_create_form_rated(q);
    lemma_create_form_variant(q);
    lemma_create_form_wait_minutes(q);
    lemma_create_form_start_date(q);
    lemma_create_form_position(q);
    lemma_create_form_berserkable(q);
    lemma_create_form_streakable(q);
    lemma_create_form_has_chat(q);
    lemma_create_form_description(q);
    lemma_create_form_password(q);
    lemma_create_form_team_battle_by_team(q);
}

impl<'a> CreateForm<'a> {
    /// The form with the required fields and every option unset.
    pub open spec fn with_required(name: &'a str, clock_time: &'a str, clock_increment: u32, minutes: u32) -> Self {
        CreateForm {
            name,
            clock_time,
            clock_increment,
            minutes,
            rated: None,
            variant: None,
            wait_minutes: None,
            start_date: None,
            position: None,
            berserkable: None,
            streakable: None,
            has_chat: None,
            description: None,
            password: None,
            team_battle_by_team: None,
        }
    }

    /// The query pairs, in order.
    pub open spec fn pairs_view(self) -> crate::text::Pairs {
        seq![("name"@, self.name@)]
            + seq![("clockTime"@, self.clock_time@)]
            + seq![("clockIncrement"@, crate::text::dec_nat(self.clock_increment as nat))]
            + seq![("minutes"@, crate::text::dec_nat(self.minutes as nat))]
            + crate::http::bool_pair("rated"@, self.rated)
            + crate::http::opt_pair("variant"@, LichessVariantKey::opt_wire(self.variant))
            + crate::http::nat_pair("waitMinutes"@, crate::http::opt_u32(self.wait_minutes))
            + crate::http::int_pair("startDate"@, crate::http::opt_i64(self.start_date))
            + crate::http::str_pair("position"@, self.position)
            + crate::http::bool_pair("berserkable"@, self.berserkable)
            + crate::http::bool_pair("streakable"@, self.streakable)
            + crate::http::bool_pair("hasChat"@, self.has_chat)
            + crate::http::str_pair("description"@, self.description)
            + crate::http::str_pair("password"@, self.password)
            + crate::http::str_pair("teamBattleByTeam"@, self.team_battle_by_team)
    }

    /// The query pairs.
    #[verifier::rlimit(80)]
    pub fn pairs(&self) -> (r: Vec<(String, String)>)
        ensures
            r.deep_view() == self.pairs_view(),
    {
        let mut out: Vec<(String, String)> = Vec::new();
        crate::http::push_pair(&mut out, "name", String::from_str(self.name));
        crate::http::push_pair(&mut out, "clockTime", String::from_str(self.clock_time));
        crate::http::push_pair(&mut out, "clockIncrement", crate::text::u64_to_string(self.clock_increment as u64));
        crate::http::push_pair(&mut out, "minutes", crate::text::u64_to_string(self.minutes as u64));
        crate::http::push_opt_bool(&mut out, "rated", self.rated);
        match self.variant {
            Some(x) => crate::http::push_pair(&mut out, "variant", String::from_str(x.as_str())),
            None => {},
        }
        crate::http::push_opt_u32(&mut out, "waitMinutes", self.wait_minutes);
        crate::http::push_opt_i64(&mut out, "startDate", self.start_date);
        crate::http::push_opt_str(&mut out, "position", self.position);
        crate::http::push_opt_bool(&mut out, "berserkable", self.berserkable);
        crate::http::push_opt_bool(&mut out, "streakable", self.streakable);
        crate::http::push_opt_bool(&mut out, "hasChat", self.has_chat);
        crate::http::push_opt_str(&mut out, "description", self.description);
        crate::http::push_opt_str(&mut out, "password", self.password);
        crate::http::push_opt_str(&mut out, "teamBattleByTeam", self.team_battle_by_team);
        assert(out.deep_view() =~= self.pairs_view());
        out
    }
}

/// Entry conditions for an arena tournament, serialized as `conditions.*` keys.
#[derive(Debug, Clone)]
pub struct ArenaConditions<'a> {
    /// Minimum rating to join.
    pub min_rating: Option<u32>,
    /// Maximum rating to join (best rating over the last 7 days).
    pub max_rating: Option<u32>,
    /// Minimum number of rated games required to join.
    pub nb_rated_games: Option<u32>,
    /// Comma-separated usernames allowed to join (append `%titled` to also allow
    /// any titled player).
    pub allow_list: Option<&'a str>,
    /// Restrict entry to members of this team.
    pub team_member: Option<&'a str>,
    /// Whether bots may join.
    pub bots: Option<bool>,
    /// Minimum account age in days required to join.
    pub account_age: Option<u32>,
}

/// The pairs of [`ArenaConditions`] carry its field under `conditions.minRating.rating`.
proof fn lemma_arena_conditions_conditions_min_rating_rating(q: ArenaConditions)
    ensures
        crate::text::carries(q.pairs_view(), "conditions.minRating.rating"@, match q.min_rating { Some(x) => Some(crate::text::dec_nat(x as nat)), None => None }),
{
    reveal_strlit("conditions.accountAge");
    reveal_strlit("conditions.allowList");
    reveal_strlit("conditions.bots");
    reveal_strlit("conditions.maxRating.rating");
    reveal_strlit("conditions.minRating.rating");
    reveal_strlit("conditions.nbRatedGame.nb");
    reveal_strlit("conditions.teamMember.teamId");
    assert("conditions.minRating.rating"@.len() != "conditions.accountAge"@.len());
    assert("conditions.minRating.rating"@.len() != "conditions.allowList"@.len());
    assert("conditions.minRating.rating"@.len() != "conditions.bots"@.len());
    assert("conditions.minRating.rating"@[12] != "conditions.maxRating.rating"@[12]);
    assert("conditions.minRating.rating"@.len() != "conditions.nbRatedGame.nb"@.len());
    assert("conditions.minRating.rating"@.len() != "conditions.teamMember.teamId"@.len());
    let p0 = crate::http::nat_pair("conditions.minRating.rating"@, crate::http::opt_u32(q.min_rating));
    let p1 = crate::http::nat_pair("conditions.maxRating.rating"@, crate::http::opt_u32(q.max_rating));
    let p2 = crate::http::nat_pair("conditions.nbRatedGame.nb"@, crate::http::opt_u32(q.nb_rated_games));
    let p3 = crate::http::str_pair("conditions.allowList"@, q.allow_list);
    let p4 = crate::http::str_pair("conditions.teamMember.teamId"@, q.team_member);
    let p5 = crate::http::bool_pair("conditions.bots"@, q.bots);
    let p6 = crate::http::nat_pair("conditions.accountAge"@, crate::http::opt_u32(q.account_age));
    let s0 = p0;
    let s1 = s0 + p1;
    let s2 = s1 + p2;
    let s3 = s2 + p3;
    let s4 = s3 + p4;
    let s5 = s4 + p5;
    let s6 = s5 + p6;
    assert(q.pairs_view() == s6);
    let v = match q.min_rating { Some(x) => Some(crate::text::dec_nat(x as nat)), None => None };
    assert(p0 == crate::text::one_pair("conditions.minRating.rating"@, v));
    crate::text::lemma_one_pair_carries("conditions.minRating.rating"@, v);
    crate::text::lemma_extend(s0, p1, "conditions.minRating.rating"@, v, false);
    crate::text::lemma_extend(s1, p2, "conditions.minRating.rating"@, v, false);
    crate::text::lemma_extend(s2, p3, "conditions.minRating.rating"@, v, false);
    crate::text::lemma_extend(s3, p4, "conditions.minRating.rating"@, v, false);
    crate::text::lemma_extend(s4, p5, "conditions.minRating.rating"@, v, false);
    crate::text::lemma_extend(s5, p6, "conditions.minRating.rating"@, v, false);
}

/// The pairs of [`ArenaConditions`] carry its field under `conditions.maxRating.rating`.
proof fn lemma_arena_conditions_conditions_max_rating_rating(q: ArenaConditions)
    ensures
        crate::text::carries(q.pairs_view(), "conditions.maxRating.rating"@, match q.max_rating { Some(x) => Some(crate::text::dec_nat(x as nat)), None => None }),
{
    reveal_strlit("conditions.accountAge");
    reveal_strlit("conditions.allowList");
    reveal_strlit("conditions.bots");
    reveal_strlit("conditions.maxRating.rating");
    reveal_strlit("conditions.minRating.rating");
    reveal_strlit("conditions.nbRatedGame.nb");
    reveal_strlit("conditions.teamMember.teamId");
    assert("conditions.maxRating.rating"@.len() != "conditions.accountAge"@.len());
    assert("conditions.maxRating.rating"@.len() != "conditions.allowList"@.len());
    assert("conditions.maxRating.rating"@.len() != "conditions.bots"@.len());
    assert("conditions.maxRating.rating"@[12] != "conditions.minRating.rating"@[12]);
    assert("conditions.maxRating.rating"@.len() != "conditions.nbRatedGame.nb"@.len());
    assert("conditions.maxRating.rating"@.len() != "conditions.teamMember.teamId"@.len());
    let p0 = crate::http::nat_pair("conditions.minRating.rating"@, crate::http::opt_u32(q.min_rating));
    let p1 = crate::http::nat_pair("conditions.maxRating.rating"@, crate::http::opt_u32(q.max_rating));
    let p2 = crate::http::nat_pair("conditions.nbRatedGame.nb"@, crate::http::opt_u32(q.nb_rated_games));
    let p3 = crate::http::str_pair("conditions.allowList"@, q.allow_list);
    let p4 = crate::http::str_pair("conditions.teamMember.teamId"@, q.team_member);
    let p5 = crate::http::bool_pair("conditions.bots"@, q.bots);
    let p6 = crate::http::nat_pair("conditions.accountAge"@, crate::http::opt_u32(q.account_age));
    let s0 = p0;
    let s1 = s0 + p1;
    let s2 = s1 + p2;
    let s3 = s2 + p3;
    let s4 = s3 + p4;
    let s5 = s4 + p5;
    let s6 = s5 + p6;
    assert(q.pairs_view() == s6);
    let v = match q.max_rating { Some(x) => Some(crate::text::dec_nat(x as nat)), None => None };
    crate::text::lemma_extend(s0, p1, "conditions.maxRating.rating"@, v, true);
    crate::text::lemma_extend(s1, p2, "conditions.maxRating.rating"@, v, false);
    crate::text::lemma_extend(s2, p3, "conditions.maxRating.rating"@, v, false);
    crate::text::lemma_extend(s3, p4, "conditions.maxRating.rating"@, v, false);
    crate::text::lemma_extend(s4, p5, "conditions.maxRating.rating"@, v, false);
    crate::text::lemma_extend(s5, p6, "conditions.maxRating.rating"@, v, false);
}

/// The pairs of [`ArenaConditions`] carry its field under `conditions.nbRatedGame.nb`.
proof fn lemma_arena_conditions_conditions_nb_rated_game_nb(q: ArenaConditions)
    ensures
        crate::text::carries(q.pairs_view(), "conditions.nbRatedGame.nb"@, match q.nb_rated_games { Some(x) => Some(crate::text::dec_nat(x as nat)), None => None }),
{
    reveal_strlit("conditions.accountAge");
    reveal_strlit("conditions.allowList");
    reveal_strlit("conditions.bots");
    reveal_strlit("conditions.maxRating.rating");
    reveal_strlit("conditions.minRating.rating");
    reveal_strlit("conditions.nbRatedGame.nb");
    reveal_strlit("conditions.teamMember.teamId");
    assert("conditions.nbRatedGame.nb"@.len() != "conditions.accountAge"@.len());
    assert("conditions.nbRatedGame.nb"@.len() != "conditions.allowList"@.len());
    assert("conditions.nbRatedGame.nb"@.len() != "conditions.bots"@.len());
    assert("conditions.nbRatedGame.nb"@.len() != "conditions.maxRating.rating"@.len());
    assert("conditions.nbRatedGame.nb"@.len() != "conditions.minRating.rating"@.len());
    assert("conditions.nbRatedGame.nb"@.len() != "conditions.teamMember.teamId"@.len());
    let p0 = crate::http::nat_pair("conditions.minRating.rating"@, crate::http::opt_u32(q.min_rating));
    let p1 = crate::http::nat_pair("conditions.maxRating.rating"@, crate::http::opt_u32(q.max_rating));
    let p2 = crate::http::nat_pair("conditions.nbRatedGame.nb"@, crate::http::opt_u32(q.nb_rated_games));
    let p3 = crate::http::str_pair("conditions.allowList"@, q.allow_list);
    let p4 = crate::http::str_pair("conditions.teamMember.teamId"@, q.team_member);
    let p5 = crate::http::bool_pair("conditions.bots"@, q.bots);
    let p6 = crate::http::nat_pair("conditions.accountAge"@, crate::http::opt_u32(q.account_age));
    let s0 = p0;
    let s1 = s0 + p1;
    let s2 = s1 + p2;
    let s3 = s2 + p3;
    let s4 = s3 + p4;
    let s5 = s4 + p5;
    let s6 = s5 + p6;
    assert(q.pairs_view() == s6);
    let v = match q.nb_rated_games { Some(x) => Some(crate::text::dec_nat(x as nat)), None => None };
    crate::text::lemma_extend(s0, p1, "conditions.nbRatedGame.nb"@, None, false);
    crate::text::lemma_extend(s1, p2, "conditions.nbRatedGame.nb"@, v, true);
    crate::text::lemma_extend(s2, p3, "conditions.nbRatedGame.nb"@, v, false);
    crate::text::lemma_extend(s3, p4, "conditions.nbRatedGame.nb"@, v, false);
    crate::text::lemma_extend(s4, p5, "conditions.nbRatedGame.nb"@, v, false);
    crate::text::lemma_extend(s5, p6, "conditions.nbRatedGame.nb"@, v, false);
}

/// The pairs of [`ArenaConditions`] carry its field under `conditions.allowList`.
proof fn lemma_arena_conditions_conditions_allow_list(q: ArenaConditions)
    ensures
        crate::text::carries(q.pairs_view(), "conditions.allowList"@, match q.allow_list { Some(v) => Some(v@), None => None }),
{
    reveal_strlit("conditions.accountAge");
    reveal_strlit("conditions.allowList");
    reveal_strlit("conditions.bots");
    reveal_strlit("conditions.maxRating.rating");
    reveal_strlit("conditions.minRating.rating");
    reveal_strlit("conditions.nbRatedGame.nb");
    reveal_strlit("conditions.teamMember.teamId");
    assert("conditions.allowList"@.len() != "conditions.accountAge"@.len());
    assert("conditions.allowList"@.len() != "conditions.bots"@.len());
    assert("conditions.allowList"@.len() != "conditions.maxRating.rating"@.len());
    assert("conditions.allowList"@.len() != "conditions.minRating.rating"@.len());
    assert("conditions.allowList"@.len() != "conditions.nbRatedGame.nb"@.len());
    assert("conditions.allowList"@.len() != "conditions.teamMember.teamId"@.len());
    let p0 = crate::http::nat_pair("conditions.minRating.rating"@, crate::http::opt_u32(q.min_rating));
    let p1 = crate::http::nat_pair("conditions.maxRating.rating"@, crate::http::opt_u32(q.max_rating));
    let p2 = crate::http::nat_pair("conditions.nbRatedGame.nb"@, crate::http::opt_u32(q.nb_rated_games));
    let p3 = crate::http::str_pair("conditions.allowList"@, q.allow_list);
    let p4 = crate::http::str_pair("conditions.teamMember.teamId"@, q.team_member);
    let p5 = crate::http::bool_pair("conditions.bots"@, q.bots);
    let p6 = crate::http::nat_pair("conditions.accountAge"@, crate::http::opt_u32(q.account_age));
    let s0 = p0;
    let s1 = s0 + p1;
    let s2 = s1 + p2;
    let s3 = s2 + p3;
    let s4 = s3 + p4;
    let s5 = s4 + p5;
    let s6 = s5 + p6;
    assert(q.pairs_view() == s6);
    let v = match q.allow_list { Some(v) => Some(v@), None => None };
    crate::text::lemma_extend(s0, p1, "conditions.allowList"@, None, false);
    crate::text::lemma_extend(s1, p2, "conditions.allowList"@, None, false);
    crate::text::lemma_extend(s2, p3, "conditions.allowList"@, v, true);
    crate::text::lemma_extend(s3, p4, "conditions.allowList"@, v, false);
    crate::text::lemma_extend(s4, p5, "conditions.allowList"@, v, false);
    crate::text::lemma_extend(s5, p6, "conditions.allowList"@, v, false);
}

/// The pairs of [`ArenaConditions`] carry its field under `conditions.teamMember.teamId`.
proof fn lemma_arena_conditions_conditions_team_member_team_id(q: ArenaConditions)
    ensures
        crate::text::carries(q.pairs_view(), "conditions.teamMember.teamId"@, match q.team_member { Some(v) => Some(v@), None => None }),
{
    reveal_strlit("conditions.accountAge");
    reveal_strlit("conditions.allowList");
    reveal_strlit("conditions.bots");
    reveal_strlit("conditions.maxRating.rating");
    reveal_strlit("conditions.minRating.rating");
    reveal_strlit("conditions.nbRatedGame.nb");
    reveal_strlit("conditions.teamMember.teamId");
    assert("conditions.teamMember.teamId"@.len() != "conditions.accountAge"@.len());
    assert("conditions.teamMember.teamId"@.len() != "conditions.allowList"@.len());
    assert("conditions.teamMember.teamId"@.len() != "conditions.bots"@.len());
    assert("conditions.teamMember.teamId"@.len() != "conditions.maxRating.rating"@.len());
    assert("conditions.teamMember.teamId"@.len() != "conditions.minRating.rating"@.len());
    assert("conditions.teamMember.teamId"@.len() != "conditions.nbRatedGame.nb"@.len());
    let p0 = crate::http::nat_pair("conditions.minRating.rating"@, crate::http::opt_u32(q.min_rating));
    let p1 = crate::http::nat_pair("conditions.maxRating.rating"@, crate::http::opt_u32(q.max_rating));
    let p2 = crate::http::nat_pair("conditions.nbRatedGame.nb"@, crate::http::opt_u32(q.nb_rated_games));
    let p3 = crate::http::str_pair("conditions.allowList"@, q.allow_list);
    let p4 = crate::http::str_pair("conditions.teamMember.teamId"@, q.team_member);
    let p5 = crate::http::bool_pair("conditions.bots"@, q.bots);
    let p6 = crate::http::nat_pair("conditions.accountAge"@, crate::http::opt_u32(q.account_age));
    let s0 = p0;
    let s1 = s0 + p1;
    let s2 = s1 + p2;
    let s3 = s2 + p3;
    let s4 = s3 + p4;
    let s5 = s4 + p5;
    let s6 = s5 + p6;
    assert(q.pairs_view() == s6);
    let v = match q.team_member { Some(v) => Some(v@), None => None };
    crate::text::lemma_extend(s0, p1, "conditions.teamMember.teamId"@, None, false);
    crate::text::lemma_extend(s1, p2, "conditions.teamMember.teamId"@, None, false);
    crate::text::lemma_extend(s2, p3, "conditions.teamMember.teamId"@, None, false);
    crate::text::lemma_extend(s3, p4, "conditions.teamMember.teamId"@, v, true);
    crate::text::lemma_extend(s4, p5, "conditions.teamMember.teamId"@, v, false);
    crate::text::lemma_extend(s5, p6, "conditions.teamMember.teamId"@, v, false);
}

/// The pairs of [`ArenaConditions`] carry its field under `conditions.bots`.
proof fn lemma_arena_conditions_conditions_bots(q: ArenaConditions)
    ensures
        crate::text::carries(q.pairs_view(), "conditions.bots"@, match q.bots { Some(b) => Some(if b { seq!['t', 'r', 'u', 'e'] } else { seq!['f', 'a', 'l', 's', 'e'] }), None => None }),
{
    reveal_strlit("conditions.accountAge");
    reveal_strlit("conditions.allowList");
    reveal_strlit("conditions.bots");
    reveal_strlit("conditions.maxRating.rating");
    reveal_strlit("conditions.minRating.rating");
    reveal_strlit("conditions.nbRatedGame.nb");
    reveal_strlit("conditions.teamMember.teamId");
    assert("conditions.bots"@.len() != "conditions.accountAge"@.len());
    assert("conditions.bots"@.len() != "conditions.allowList"@.len());
    assert("conditions.bots"@.len() != "conditions.maxRating.rating"@.len());
    assert("conditions.bots"@.len() != "conditions.minRating.rating"@.len());
    assert("conditions.bots"@.len() != "conditions.nbRatedGame.nb"@.len());
    assert("conditions.bots"@.len() != "conditions.teamMember.teamId"@.len());
    let p0 = crate::http::nat_pair("conditions.minRating.rating"@, crate::http::opt_u32(q.min_rating));
    let p1 = crate::http::nat_pair("conditions.maxRating.rating"@, crate::http::opt_u32(q.max_rating));
    let p2 = crate::http::nat_pair("conditions.nbRatedGame.nb"@, crate::http::opt_u32(q.nb_rated_games));
    let p3 = crate::http::str_pair("conditions.allowList"@, q.allow_list);
    let p4 = crate::http::str_pair("conditions.teamMember.teamId"@, q.team_member);
    let p5 = crate::http::bool_pair("conditions.bots"@, q.bots);
    let p6 = crate::http::nat_pair("conditions.accountAge"@, crate::http::opt_u32(q.account_age));
    let s0 = p0;
    let s1 = s0 + p1;
    let s2 = s1 + p2;
    let s3 = s2 + p3;
    let s4 = s3 + p4;
    let s5 = s4 + p5;
    let s6 = s5 + p6;
    assert(q.pairs_view() == s6);
    let v = match q.bots { Some(b) => Some(if b { seq!['t', 'r', 'u', 'e'] } else { seq!['f', 'a', 'l', 's', 'e'] }), None => None };
    crate::text::lemma_extend(s0, p1, "conditions.bots"@, None, false);
    crate::text::lemma_extend(s1, p2, "conditions.bots"@, None, false);
    crate::text::lemma_extend(s2, p3, "conditions.bots"@, None, false);
    crate::text::lemma_extend(s3, p4, "conditions.bots"@, None, false);
    crate::text::lemma_extend(s4, p5, "conditions.bots"@, v, true);
    crate::text::lemma_extend(s5, p6, "conditions.bots"@, v, false);
}

/// The pairs of [`ArenaConditions`] carry its field under `conditions.accountAge`.
proof fn lemma_arena_conditions_conditions_account_age(q: ArenaConditions)
    ensures
        crate::text::carries(q.pairs_view(), "conditions.accountAge"@, match q.account_age { Some(x) => Some(crate::text::dec_nat(x as nat)), None => None }),
{
    reveal_strlit("conditions.accountAge");
    reveal_strlit("conditions.allowList");
    reveal_strlit("conditions.bots");
    reveal_strlit("conditions.maxRating.rating");
    reveal_strlit("conditions.minRating.rating");
    reveal_strlit("conditions.nbRatedGame.nb");
    reveal_strlit("conditions.teamMember.teamId");
    assert("conditions.accountAge"@.len() != "conditions.allowList"@.len());
    assert("conditions.accountAge"@.len() != "conditions.bots"@.len());
    assert("conditions.accountAge"@.len() != "conditions.maxRating.rating"@.len());
    assert("conditions.accountAge"@.len() != "conditions.minRating.rating"@.len());
    assert("conditions.accountAge"@.len() != "conditions.nbRatedGame.nb"@.len());
    assert("conditions.accountAge"@.len() != "conditions.teamMember.teamId"@.len());
    let p0 = crate::http::nat_pair("conditions.minRating.rating"@, crate::http::opt_u32(q.min_rating));
    let p1 = crate::http::nat_pair("conditions.maxRating.rating"@, crate::http::opt_u32(q.max_rating));
    let p2 = crate::http::nat_pair("conditions.nbRatedGame.nb"@, crate::http::opt_u32(q.nb_rated_games));
    let p3 = crate::http::str_pair("conditions.allowList"@, q.allow_list);
    let p4 = crate::http::str_pair("conditions.teamMember.teamId"@, q.team_member);
    let p5 = crate::http::bool_pair("conditions.bots"@, q.bots);
    let p6 = crate::http::nat_pair("conditions.accountAge"@, crate::http::opt_u32(q.account_age));
    let s0 = p0;
    let s1 = s0 + p1;
    let s2 = s1 + p2;
    let s3 = s2 + p3;
    let s4 = s3 + p4;
    let s5 = s4 + p5;
    let s6 = s5 + p6;
    assert(q.pairs_view() == s6);
    let v = match q.account_age { Some(x) => Some(crate::text::dec_nat(x as nat)), None => None };
    crate::text::lemma_extend(s0, p1, "conditions.accountAge"@, None, false);
    crate::text::lemma_extend(s1, p2, "conditions.accountAge"@, None, false);
    crate::text::lemma_extend(s2, p3, "conditions.accountAge"@, None, false);
    crate::text::lemma_extend(s3, p4, "conditions.accountAge"@, None, false);
    crate::text::lemma_extend(s4, p5, "conditions.accountAge"@, None, false);
    crate::text::lemma_extend(s5, p6, "conditions.accountAge"@, v, true);
}

/// The pairs of [`ArenaConditions`] carry each of its fields under that field's own
/// key (`conditions.minRating.rating`, `conditions.maxRating.rating`, `conditions.nbRatedGame.nb`, `conditions.allowList`, `conditions.teamMember.teamId`, `conditions.bots`, `conditions.accountAge`), with the value given to it, and a key only when its field is set.
pub proof fn lemma_arena_conditions_carries_fields(q: ArenaConditions)
    ensures
        crate::text::carries(q.pairs_view(), "conditions.minRating.rating"@, match q.min_rating { Some(x) => Some(crate::text::dec_nat(x as nat)), None => None }),
        crate::text::carries(q.pairs_view(), "conditions.maxRating.rating"@, match q.max_rating { Some(x) => Some(crate::text::dec_nat(x as nat)), None => None }),
        crate::text::carries(q.pairs_view(), "conditions.nbRatedGame.nb"@, match q.nb_rated_games { Some(x) => Some(crate::text::dec_nat(x as nat)), None => None }),
        crate::text::carries(q.pairs_view(), "conditions.allowList"@, match q.allow_list { Some(v) => Some(v@), None => None }),
        crate::text::carries(q.pairs_view(), "conditions.teamMember.teamId"@, match q.team_member { Some(v) => Some(v@), None => None }),
        crate::text::carries(q.pairs_view(), "conditions.bots"@, match q.bots { Some(b) => Some(if b { seq!['t', 'r', 'u', 'e'] } else { seq!['f', 'a', 'l', 's', 'e'] }), None => None }),
        crate::text::carries(q.pairs_view(), "conditions.accountAge"@, match q.account_age { Some(x) => Some(crate::text::dec_nat(x as nat)), None => None }),
{
    lemma_arena_conditions_conditions_min_rating_rating(q);
    lemma_arena_conditions_conditions_max_rating_rating(q);
    lemma_arena_conditions_conditions_nb_rated_game_nb(q);
    lemma_arena_conditions_conditions_allow_list(q);
    lemma_arena_conditions_conditions_team_member_team_id(q);
    lemma_arena_conditions_conditions_bots(q);
    lemma_arena_conditions_conditions_account_age(q);
}

impl<'a> ArenaConditions<'a> {
    /// The query pairs, in order.
    pub open spec fn pairs_view(self) -> crate::text::Pairs {
        crate::http::nat_pair("conditions.minRating.rating"@, crate::http::opt_u32(self.min_rating))
            + crate::http::nat_pair(
                  "conditions.maxRating.rating"@,
                  crate::http::opt_u32(self.max_rating),
              )
            + crate::http::nat_pair(
                  "conditions.nbRatedGame.nb"@,
                  crate::http::opt_u32(self.nb_rated_games),
              )
            + crate::http::str_pair("conditions.allowList"@, self.allow_list)
            + crate::http::str_pair("conditions.teamMember.teamId"@, self.team_member)
            + crate::http::bool_pair("conditions.bots"@, self.bots)
            + crate::http::nat_pair(
                  "conditions.accountAge"@,
                  crate::http::opt_u32(self.account_age),
              )
    }

    /// The query pairs.
    #[verifier::rlimit(40)]
    pub fn pairs(&self) -> (r: Vec<(String, String)>)
        ensures
            r.deep_view() == self.pairs_view(),
    {
        let mut out: Vec<(String, String)> = Vec::new();
        crate::http::push_opt_u32(&mut out, "conditions.minRating.rating", self.min_rating);
        crate::http::push_opt_u32(&mut out, "conditions.maxRating.rating", self.max_rating);
        crate::http::push_opt_u32(&mut out, "conditions.nbRatedGame.nb", self.nb_rated_games);
        crate::http::push_opt_str(&mut out, "conditions.allowList", self.allow_list);
        crate::http::push_opt_str(&mut out, "conditions.teamMember.teamId", self.team_member);
        crate::http::push_opt_bool(&mut out, "conditions.bots", self.bots);
        crate::http::push_opt_u32(&mut out, "conditions.accountAge", self.account_age);
        assert(out.deep_view() =~= self.pairs_view());
        out
    }

    /// The query with every filter unset.
    pub open spec fn blank() -> Self {
        ArenaConditions {
            min_rating: None,
            max_rating: None,
            nb_rated_games: None,
            allow_list: None,
            team_member: None,
            bots: None,
            account_age: None,
        }
    }
}

impl<'a> Default for ArenaConditions<'a> {
    /// Every filter unset.
    fn default() -> (r: Self)
        ensures
            r == Self::blank(),
    {
        ArenaConditions {
            min_rating: None,
            max_rating: None,
            nb_rated_games: None,
            allow_list: None,
            team_member: None,
            bots: None,
            account_age: None,
        }
    }
}

impl<'a> ArenaConditions<'a> {

    /// Minimum rating to join.
    pub fn min_rating(self, rating: u32) -> (r: Self)
        ensures
            r == (ArenaConditions { min_rating: Some(rating), ..self }),
    {
        let mut r = self;
        r.min_rating = Some(rating);
        r
    }

    /// Maximum rating to join (best rating over the last 7 days).
    pub fn max_rating(self, rating: u32) -> (r: Self)
        ensures
            r == (ArenaConditions { max_rating: Some(rating), ..self }),
    {
        let mut r = self;
        r.max_rating = Some(rating);
        r
    }

    /// Minimum number of rated games required to join.
    pub fn nb_rated_games(self, count: u32) -> (r: Self)
        ensures
            r == (ArenaConditions { nb_rated_games: Some(count), ..self }),
    {
        let mut r = self;
        r.nb_rated_games = Some(count);
        r
    }

    /// Comma-separated usernames allowed to join (append `%titled` to also allow
    /// any titled player).
    pub fn allow_list(self, usernames: &'a str) -> (r: Self)
        ensures
            r == (ArenaConditions { allow_list: Some(usernames), ..self }),
    {
        let mut r = self;
        r.allow_list = Some(usernames);
        r
    }

    /// Restrict entry to members of this team.
    pub fn team_member(self, team_id: &'a str) -> (r: Self)
        ensures
            r == (ArenaConditions { team_member: Some(team_id), ..self }),
    {
        let mut r = self;
        r.team_member = Some(team_id);
        r
    }

    /// Whether bots may join.
    pub fn bots(self, allowed: bool) -> (r: Self)
        ensures
            r == (ArenaConditions { bots: Some(allowed), ..self }),
    {
        let mut r = self;
        r.bots = Some(allowed);
        r
    }

    /// Minimum account age in days required to join.
    pub fn account_age(self, days: u32) -> (r: Self)
        ensures
            r == (ArenaConditions { account_age: Some(days), ..self }),
    {
        let mut r = self;
        r.account_age = Some(days);
        r
    }
}

/// Conditions left unset add no pair to the form.
pub proof fn lemma_unset_conditions_add_nothing()
    ensures
        ArenaConditions::blank().pairs_view() == Seq::<(Seq<char>, Seq<char>)>::empty(),
{
    assert(ArenaConditions::blank().pairs_view() =~= Seq::<(Seq<char>, Seq<char>)>::empty());
}

/// Accessor for the Arena Tournaments API.
#[derive(Debug)]
pub struct ArenaApi<'a> {
    client: &'a LichessClient,
}

impl<'a> ArenaApi<'a> {
    /// The client the accessor is bound to.
    pub closed spec fn client_of(&self) -> &'a LichessClient {
        self.client
    }

    /// Binds the accessor to a client.
    pub fn new(client: &'a LichessClient) -> (r: Self)
        ensures
            r.client_of() == client,
    {
        ArenaApi { client }
    }

    /// Lists current arena tournaments. `GET /api/tournament`
    pub fn list(&self) -> (r: ApiRequest)
        ensures
            r@ == crate::http::bare(Method::Get, Host::Default, "/api/tournament"@),
    {
        let path = String::from_str("/api/tournament");
        self.client.request(Method::Get, Host::Default, path)
    }

    /// Gets full details of a tournament. `GET /api/tournament/{id}`
    ///
    /// `page` selects a page of the standings (defaults to the first).
    pub fn get(&self, id: &str, page: Option<u32>) -> (r: ApiRequest)
        ensures
            r@ == crate::http::bare(
                Method::Get,
                Host::Default,
                "/api/tournament/"@ + crate::text::segment_text(id@) + ""@,
            )
                .with_query(crate::http::nat_pair("page"@, crate::http::opt_u32(page))),
    {
        let path = crate::http::path1("/api/tournament/", id, "");
        let mut q: Vec<(String, String)> = Vec::new();
        crate::http::push_opt_u32(&mut q, "page", page);
        assert(q.deep_view() =~= crate::http::nat_pair("page"@, crate::http::opt_u32(page)));
        self.client.request(Method::Get, Host::Default, path).query(q)
    }

    /// Creates an arena tournament. `POST /api/tournament`
    ///
    /// `clock_time` is the initial clock time in minutes, written in decimal
    /// (e.g. `"0.5"` or `"3"`).
    pub fn create(&self, name: &'a str, clock_time: &'a str, clock_increment: u32, minutes: u32) -> (r:
        CreateArenaRequest<'a>)
        ensures
            r.client_of() == self.client_of(),
            r.id_of() is None,
            r.form_of() == CreateForm::with_required(name, clock_time, clock_increment, minutes),
            r.conditions_of() == ArenaConditions::blank(),
    {
        CreateArenaRequest::new(self.client, None, name, clock_time, clock_increment, minutes)
    }

    /// Updates an existing arena tournament. `POST /api/tournament/{id}`
    pub fn update(
        &self,
        id: &'a str,
        name: &'a str,
        clock_time: &'a str,
        clock_increment: u32,
        minutes: u32,
    ) -> (r: CreateArenaRequest<'a>)
        ensures
            r.client_of() == self.client_of(),
            r.id_of() == Some(id),
            r.form_of() == CreateForm::with_required(name, clock_time, clock_increment, minutes),
            r.conditions_of() == ArenaConditions::blank(),
    {
        CreateArenaRequest::new(self.client, Some(id), name, clock_time, clock_increment, minutes)
    }

    /// Configures a team battle. `POST /api/tournament/team-battle/{id}`
    pub fn setup_team_battle(&self, id: &str, team_ids: &[&str], nb_leaders: u32) -> (r: ApiRequest)
        ensures
            r@ == crate::http::bare(
                Method::Post,
                Host::Default,
                "/api/tournament/team-battle/"@ + crate::text::segment_text(id@) + ""@,
            ).with_body(
                crate::http::BodyView::Form(
                    seq![
                        ("teams"@, join_seqs(str_views(team_ids@), ","@)),
                        ("nbLeaders"@, crate::text::dec_nat(nb_leaders as nat)),
                    ],
                ),
            ),
    {
        let path = crate::http::path1("/api/tournament/team-battle/", id, "");
        let mut form: Vec<(String, String)> = Vec::new();
        crate::http::push_pair(&mut form, "teams", join_strs(team_ids, ","));
        crate::http::push_pair(&mut form, "nbLeaders", crate::text::u64_to_string(nb_leaders as u64));
        assert(form.deep_view() =~= seq![
            ("teams"@, join_seqs(str_views(team_ids@), ","@)),
            ("nbLeaders"@, crate::text::dec_nat(nb_leaders as nat)),
        ]);
        self.client.request(Method::Post, Host::Default, path).form(form)
    }

    /// Gets the team standings of a team-battle arena.
    /// `GET /api/tournament/{id}/teams`
    pub fn teams(&self, id: &str) -> (r: ApiRequest)
        ensures
            r@ == crate::http::bare(
                Method::Get,
                Host::Default,
                "/api/tournament/"@ + crate::text::segment_text(id@) + "/teams"@,
            ),
    {
        let path = crate::http::path1("/api/tournament/", id, "/teams");
        self.client.request(Method::Get, Host::Default, path)
    }

    /// Streams the arenas created by a user (NDJSON).
    /// `GET /api/user/{username}/tournament/created`
    ///
    /// `nb` limits the count; `status` filters by one or more tournament status
    /// codes (repeatable — pass several to combine them).
    pub fn created_by(&self, username: &str, nb: Option<u32>, status: &[u32]) -> (r: ApiRequest)
        ensures
            r@ == crate::http::bare(
                Method::Get,
                Host::Default,
                "/api/user/"@ + crate::text::segment_text(username@) + "/tournament/created"@,
            ).with_query(crate::http::nat_pair("nb"@, crate::http::opt_u32(nb))).with_query(
                status_pairs(status@),
            ),
    {
        let path = crate::http::path1("/api/user/", username, "/tournament/created");
        let mut q: Vec<(String, String)> = Vec::new();
        crate::http::push_opt_u32(&mut q, "nb", nb);
        let mut codes: Vec<(String, String)> = Vec::new();
        let mut i: usize = 0;
        while i < status.len()
            invariant
                i <= status@.len(),
                codes.deep_view() =~= status_pairs(status@.take(i as int)),
            decreases status@.len() - i,
        {
            crate::http::push_pair(&mut codes, "status", crate::text::u64_to_string(status[i] as u64));
            proof {
                assert(status@.take(i + 1) =~= status@.take(i as int).push(status@[i as int]));
                assert(status_pairs(status@.take(i + 1)) =~= status_pairs(status@.take(i as int)).push(
                    ("status"@, crate::text::dec_nat(status@[i as int] as nat)),
                ));
            }
            i = i + 1;
        }
        assert(status@.take(status@.len() as int) =~= status@);
        self.client.request(Method::Get, Host::Default, path).query(q).query(codes)
    }

    /// Streams the arenas a user has played (NDJSON).
    /// `GET /api/user/{username}/tournament/played`
    ///
    /// `nb` limits the count; `performance` includes performance ratings.
    pub fn played_by(&self, username: &str, nb: Option<u32>, performance: Option<bool>) -> (r: ApiRequest)
        ensures
            r@ == crate::http::bare(
                Method::Get,
                Host::Default,
                "/api/user/"@ + crate::text::segment_text(username@) + "/tournament/played"@,
            ).with_query(crate::http::nat_pair("nb"@, crate::http::opt_u32(nb))).with_query(
                crate::http::bool_pair("performance"@, performance),
            ),
    {
        let path = crate::http::path1("/api/user/", username, "/tournament/played");
        let mut q: Vec<(String, String)> = Vec::new();
        crate::http::push_opt_u32(&mut q, "nb", nb);
        let mut p: Vec<(String, String)> = Vec::new();
        crate::http::push_opt_bool(&mut p, "performance", performance);
        self.client.request(Method::Get, Host::Default, path).query(q).query(p)
    }

    /// Joins a tournament. `POST /api/tournament/{id}/join`
    pub fn join(&self, id: &str) -> (r: ApiRequest)
        ensures
            r@ == crate::http::bare(
                Method::Post,
                Host::Default,
                "/api/tournament/"@ + crate::text::segment_text(id@) + "/join"@,
            ),
    {
        let path = crate::http::path1("/api/tournament/", id, "/join");
        self.client.request(Method::Post, Host::Default, path)
    }

    /// Withdraws from a tournament. `POST /api/tournament/{id}/withdraw`
    pub fn withdraw(&self, id: &str) -> (r: ApiRequest)
        ensures
            r@ == crate::http::bare(
                Method::Post,
                Host::Default,
                "/api/tournament/"@ + crate::text::segment_text(id@) + "/withdraw"@,
            ),
    {
        let path = crate::http::path1("/api/tournament/", id, "/withdraw");
        self.client.request(Method::Post, Host::Default, path)
    }

    /// Terminates a tournament you created. `POST /api/tournament/{id}/terminate`
    pub fn terminate(&self, id: &str) -> (r: ApiRequest)
        ensures
            r@ == crate::http::bare(
                Method::Post,
                Host::Default,
                "/api/tournament/"@ + crate::text::segment_text(id@) + "/terminate"@,
            ),
    {
        let path = crate::http::path1("/api/tournament/", id, "/terminate");
        self.client.request(Method::Post, Host::Default, path)
    }

    /// Streams a tournament's results. `GET /api/tournament/{id}/results`
    ///
    /// `nb` limits the count; `sheet` includes each player's score sheet.
    pub fn results(&self, id: &str, nb: Option<u32>, sheet: Option<bool>) -> (r: ApiRequest)
        ensures
            r@ == crate::http::bare(
                Method::Get,
                Host::Default,
                "/api/tournament/"@ + crate::text::segment_text(id@) + "/results"@,
            ).with_query(crate::http::nat_pair("nb"@, crate::http::opt_u32(nb))).with_query(
                crate::http::bool_pair("sheet"@, sheet),
            ),
    {
        let path = crate::http::path1("/api/tournament/", id, "/results");
        let mut q: Vec<(String, String)> = Vec::new();
        crate::http::push_opt_u32(&mut q, "nb", nb);
        let mut p: Vec<(String, String)> = Vec::new();
        crate::http::push_opt_bool(&mut p, "sheet", sheet);
        self.client.request(Method::Get, Host::Default, path).query(q).query(p)
    }

    /// Starts an export of a tournament's games. `GET /api/tournament/{id}/games`
    ///
    /// Finish with [`stream`](ArenaGamesRequest::stream) or
    /// [`pgn`](ArenaGamesRequest::pgn).
    pub fn games(&self, id: &'a str) -> (r: ArenaGamesRequest<'a>)
        ensures
            r.client_of() == self.client_of(),
            r.id_of() == id,
            r.player_of() is None,
            r.export_of() == GameExportOptions::blank(),
    {
        ArenaGamesRequest::new(self.client, id)
    }
}

/// The repeated `status` pairs of a list of status codes.
pub open spec fn status_pairs(codes: Seq<u32>) -> Pairs {
    codes.map_values(|c: u32| ("status"@, crate::text::dec_nat(c as nat)))
}

/// Builder for exporting an arena tournament's games
/// (`GET /api/tournament/{id}/games`).
#[derive(Debug)]
pub struct ArenaGamesRequest<'a> {
    client: &'a LichessClient,
    id: &'a str,
    player: Option<&'a str>,
    export: GameExportOptions,
}

impl<'a> ArenaGamesRequest<'a> {
    /// The client the builder is bound to.
    pub closed spec fn client_of(&self) -> &'a LichessClient {
        self.client
    }

    /// The tournament id.
    pub closed spec fn id_of(&self) -> &'a str {
        self.id
    }

    /// The player filter.
    pub closed spec fn player_of(&self) -> Option<&'a str> {
        self.player
    }

    /// The export-format options.
    pub closed spec fn export_of(&self) -> GameExportOptions {
        self.export
    }

    /// Creates the request builder.
    pub fn new(client: &'a LichessClient, id: &'a str) -> (r: Self)
        ensures
            r.client_of() == client,
            r.id_of() == id,
            r.player_of() == None::<&'a str>,
            r.export_of() == GameExportOptions::blank(),
    {
        ArenaGamesRequest { client, id, player: None, export: GameExportOptions::default() }
    }

    /// Only games featuring this player.
    pub fn player(self, player: &'a str) -> (r: Self)
        ensures
            r.player_of() == Some(player),
            r.client_of() == self.client_of(),
            r.id_of() == self.id_of(),
            r.export_of() == self.export_of(),
    {
        let mut r = self;
        r.player = Some(player);
        r
    }

    /// Sets the shared export-format options (moves, clocks, evals, …).
    pub fn export(self, options: GameExportOptions) -> (r: Self)
        ensures
            r.export_of() == options,
            r.client_of() == self.client_of(),
            r.id_of() == self.id_of(),
            r.player_of() == self.player_of(),
    {
        let mut r = self;
        r.export = options;
        r
    }

    /// Executes the export, streaming games as NDJSON.
    pub fn stream(self) -> (r: ApiRequest)
        ensures
            r@ == crate::http::bare(
                Method::Get,
                Host::Default,
                "/api/tournament/"@ + crate::text::segment_text(self.id_of()@) + "/games"@,
            ).with_accept(Accept::Ndjson).with_query(crate::http::str_pair("player"@, self.player_of())).with_query(
                self.export_of().pairs_view(),
            ),
    {
        let path = crate::http::path1("/api/tournament/", self.id, "/games");
        let mut q: Vec<(String, String)> = Vec::new();
        crate::http::push_opt_str(&mut q, "player", self.player);
        self.client.request(Method::Get, Host::Default, path)
            .accept(Accept::Ndjson)
            .query(q)
            .query(self.export.pairs())
    }

    /// Executes the export, returning all games as one PGN string.
    pub fn pgn(self) -> (r: ApiRequest)
        ensures
            r@ == crate::http::bare(
                Method::Get,
                Host::Default,
                "/api/tournament/"@ + crate::text::segment_text(self.id_of()@) + "/games"@,
            ).with_accept(Accept::Pgn).with_query(crate::http::str_pair("player"@, self.player_of())).with_query(
                self.export_of().pairs_view(),
            ),
    {
        let path = crate::http::path1("/api/tournament/", self.id, "/games");
        let mut q: Vec<(String, String)> = Vec::new();
        crate::http::push_opt_str(&mut q, "player", self.player);
        self.client.request(Method::Get, Host::Default, path)
            .accept(Accept::Pgn)
            .query(q)
            .query(self.export.pairs())
    }
}

/// Builder for creating or updating an arena tournament.
#[derive(Debug)]
pub struct CreateArenaRequest<'a> {
    client: &'a LichessClient,
    id: Option<&'a str>,
    form: CreateForm<'a>,
    conditions: ArenaConditions<'a>,
}

/// An arena update is posted to `/api/tournament/{id}` with its id; a creation
/// to `/api/tournament`.
pub proof fn lemma_arena_paths(id: &str)
    ensures
        CreateArenaRequest::path_view(Some(id)) == seq!['/', 'a', 'p', 'i', '/', 't', 'o', 'u', 'r', 'n', 'a', 'm', 'e', 'n', 't', '/']
            + crate::text::segment_text(id@),
        CreateArenaRequest::path_view(None) == seq!['/', 'a', 'p', 'i', '/', 't', 'o', 'u', 'r', 'n', 'a', 'm', 'e', 'n', 't'],
{
    reveal_strlit("/api/tournament/");
    reveal_strlit("/api/tournament");
    reveal_strlit("");
    assert("/api/tournament/"@ =~= seq!['/', 'a', 'p', 'i', '/', 't', 'o', 'u', 'r', 'n', 'a', 'm', 'e', 'n', 't', '/']);
    assert("/api/tournament"@ =~= seq!['/', 'a', 'p', 'i', '/', 't', 'o', 'u', 'r', 'n', 'a', 'm', 'e', 'n', 't']);
    assert("/api/tournament/"@ + crate::text::segment_text(id@) + ""@ =~= "/api/tournament/"@
        + crate::text::segment_text(id@));
}

impl<'a> CreateArenaRequest<'a> {
    /// The client the builder is bound to.
    pub closed spec fn client_of(&self) -> &'a LichessClient {
        self.client
    }

    /// The tournament to update, or `None` to create one.
    pub closed spec fn id_of(&self) -> Option<&'a str> {
        self.id
    }

    /// The form built so far.
    pub closed spec fn form_of(&self) -> CreateForm<'a> {
        self.form
    }

    /// The entry conditions.
    pub closed spec fn conditions_of(&self) -> ArenaConditions<'a> {
        self.conditions
    }

    /// Creates the request builder.
    pub fn new(client: &'a LichessClient, id: Option<&'a str>, name: &'a str, clock_time: &'a str, clock_increment: u32, minutes: u32) -> (r: Self)
        ensures
            r.client_of() == client,
            r.id_of() == id,
            r.form_of() == CreateForm::with_required(name, clock_time, clock_increment, minutes),
            r.conditions_of() == ArenaConditions::blank(),
    {
        CreateArenaRequest {
            client,
            id,
            form: CreateForm {
                name,
                clock_time,
                clock_increment,
                minutes,
                rated: None,
                variant: None,
                wait_minutes: None,
                start_date: None,
                position: None,
                berserkable: None,
                streakable: None,
                has_chat: None,
                description: None,
                password: None,
                team_battle_by_team: None,
            },
            conditions: ArenaConditions::default(),
        }
    }

    /// Sets whether the tournament is rated.
    pub fn rated(self, rated: bool) -> (r: Self)
        ensures
            r.form_of() == (CreateForm { rated: Some(rated), ..self.form_of() }),
            r.client_of() == self.client_of(),
            r.id_of() == self.id_of(),
            r.conditions_of() == self.conditions_of(),
    {
        let mut r = self;
        r.form.rated = Some(rated);
        r
    }

    /// Sets the variant.
    pub fn variant(self, variant: LichessVariantKey) -> (r: Self)
        ensures
            r.form_of() == (CreateForm { variant: Some(variant), ..self.form_of() }),
            r.client_of() == self.client_of(),
            r.id_of() == self.id_of(),
            r.conditions_of() == self.conditions_of(),
    {
        let mut r = self;
        r.form.variant = Some(variant);
        r
    }

    /// Sets how many minutes to wait before starting.
    pub fn wait_minutes(self, minutes: u32) -> (r: Self)
        ensures
            r.form_of() == (CreateForm { wait_minutes: Some(minutes), ..self.form_of() }),
            r.client_of() == self.client_of(),
            r.id_of() == self.id_of(),
            r.conditions_of() == self.conditions_of(),
    {
        let mut r = self;
        r.form.wait_minutes = Some(minutes);
        r
    }

    /// Starts the tournament at this timestamp (ms), overriding `wait_minutes`.
    pub fn start_date(self, timestamp: i64) -> (r: Self)
        ensures
            r.form_of() == (CreateForm { start_date: Some(timestamp), ..self.form_of() }),
            r.client_of() == self.client_of(),
            r.id_of() == self.id_of(),
            r.conditions_of() == self.conditions_of(),
    {
        let mut r = self;
        r.form.start_date = Some(timestamp);
        r
    }

    /// Sets a custom starting position (FEN).
    pub fn position(self, fen: &'a str) -> (r: Self)
        ensures
            r.form_of() == (CreateForm { position: Some(fen), ..self.form_of() }),
            r.client_of() == self.client_of(),
            r.id_of() == self.id_of(),
            r.conditions_of() == self.conditions_of(),
    {
        let mut r = self;
        r.form.position = Some(fen);
        r
    }

    /// Sets whether players may berserk.
    pub fn berserkable(self, value: bool) -> (r: Self)
        ensures
            r.form_of() == (CreateForm { berserkable: Some(value), ..self.form_of() }),
            r.client_of() == self.client_of(),
            r.id_of() == self.id_of(),
            r.conditions_of() == self.conditions_of(),
    {
        let mut r = self;
        r.form.berserkable = Some(value);
        r
    }

    /// Sets whether win streaks grant bonus points.
    pub fn streakable(self, value: bool) -> (r: Self)
        ensures
            r.form_of() == (CreateForm { streakable: Some(value), ..self.form_of() }),
            r.client_of() == self.client_of(),
            r.id_of() == self.id_of(),
            r.conditions_of() == self.conditions_of(),
    {
        let mut r = self;
        r.form.streakable = Some(value);
        r
    }

    /// Sets whether players can use the chat.
    pub fn has_chat(self, value: bool) -> (r: Self)
        ensures
            r.form_of() == (CreateForm { has_chat: Some(value), ..self.form_of() }),
            r.client_of() == self.client_of(),
            r.id_of() == self.id_of(),
            r.conditions_of() == self.conditions_of(),
    {
        let mut r = self;
        r.form.has_chat = Some(value);
        r
    }

    /// Sets the tournament description.
    pub fn description(self, description: &'a str) -> (r: Self)
        ensures
            r.form_of() == (CreateForm { description: Some(description), ..self.form_of() }),
            r.client_of() == self.client_of(),
            r.id_of() == self.id_of(),
            r.conditions_of() == self.conditions_of(),
    {
        let mut r = self;
        r.form.description = Some(description);
        r
    }

    /// Makes the tournament private, restricted by this password / entry code.
    pub fn password(self, password: &'a str) -> (r: Self)
        ensures
            r.form_of() == (CreateForm { password: Some(password), ..self.form_of() }),
            r.client_of() == self.client_of(),
            r.id_of() == self.id_of(),
            r.conditions_of() == self.conditions_of(),
    {
        let mut r = self;
        r.form.password = Some(password);
        r
    }

    /// Creates a team battle led by this team (creation only).
    pub fn team_battle_by_team(self, team_id: &'a str) -> (r: Self)
        ensures
            r.form_of() == (CreateForm { team_battle_by_team: Some(team_id), ..self.form_of() }),
            r.client_of() == self.client_of(),
            r.id_of() == self.id_of(),
            r.conditions_of() == self.conditions_of(),
    {
        let mut r = self;
        r.form.team_battle_by_team = Some(team_id);
        r
    }

    /// Sets the entry conditions.
    pub fn conditions(self, conditions: ArenaConditions<'a>) -> (r: Self)
        ensures
            r.conditions_of() == conditions,
            r.client_of() == self.client_of(),
            r.id_of() == self.id_of(),
            r.form_of() == self.form_of(),
    {
        let mut r = self;
        r.conditions = conditions;
        r
    }

    /// The path a creation or an update is posted to.
    pub open spec fn path_view(id: Option<&str>) -> Seq<char> {
        match id {
            Some(i) => "/api/tournament/"@ + crate::text::segment_text(i@) + ""@,
            None => "/api/tournament"@,
        }
    }

    /// Creates or updates the tournament; the form holds the flat fields and
    /// then the conditions.
    pub fn send(self) -> (r: ApiRequest)
        ensures
            r@ == crate::http::bare(Method::Post, Host::Default, Self::path_view(self.id_of()))
                .with_body(
                crate::http::BodyView::Form(
                    self.form_of().pairs_view() + self.conditions_of().pairs_view(),
                ),
            ),
    {
        let path = match self.id {
            Some(id) => crate::http::path1("/api/tournament/", id, ""),
            None => String::from_str("/api/tournament"),
        };
        let mut form = self.form.pairs();
        let mut conditions = self.conditions.pairs();
        let ghost f = form.deep_view();
        form.append(&mut conditions);
        assert(form.deep_view() =~= f + self.conditions_of().pairs_view());
        self.client.request(Method::Post, Host::Default, path).form(form)
    }
}

impl LichessClient {
    /// Arena Tournaments API.
    pub fn arena(&self) -> (r: ArenaApi<'_>)
        ensures
            r.client_of() == self,
    {
        ArenaApi::new(self)
    }
}

} // verus!
