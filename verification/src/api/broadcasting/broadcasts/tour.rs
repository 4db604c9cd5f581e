//! Tournament creation/edit builder and its form types.

use vstd::prelude::*;

use crate::client::LichessClient;
use crate::config::Host;
use crate::http::{indexed_pairs, push_indexed, ApiRequest, Method};
use crate::text::{str_views, Pairs};

verus! {

/// Form body for creating/editing a broadcast tournament (flat, non-`info`
/// fields).
#[derive(Debug, Clone)]
pub struct TourForm<'a> {
    /// The tournament name.
    pub name: &'a str,
    /// The visibility.
    pub visibility: Option<&'a str>,
    /// A long Markdown description.
    pub markdown: Option<&'a str>,
    /// Whether to show player scores.
    pub show_scores: Option<bool>,
    /// Whether to show rating differences.
    pub show_rating_diffs: Option<bool>,
    /// Whether to display a team table.
    pub team_table: Option<bool>,
    /// Player tags / overrides.
    pub players: Option<&'a str>,
    /// Players' teams.
    pub teams: Option<&'a str>,
    /// The broadcast tier.
    pub tier: Option<u8>,
}

/// The pairs of [`TourForm`] carry its field under `name`.
proof fn lemma_tour_form_name(q: TourForm)
    ensures
        crate::text::carries(q.pairs_view(), "name"@, Some(q.name@)),
{
    reveal_strlit("markdown");
    reveal_strlit("name");
    reveal_strlit("players");
    reveal_strlit("showRatingDiffs");
    reveal_strlit("showScores");
    reveal_strlit("teamTable");
    reveal_strlit("teams");
    reveal_strlit("tier");
    reveal_strlit("visibility");
    assert("name"@.len() != "markdown"@.len());
    assert("name"@.len() != "players"@.len());
    assert("name"@.len() != "showRatingDiffs"@.len());
    assert("name"@.len() != "showScores"@.len());
    assert("name"@.len() != "teamTable"@.len());
    assert("name"@.len() != "teams"@.len());
    assert("name"@[0] != "tier"@[0]);
    assert("name"@.len() != "visibility"@.len());
    let p0 = seq![("name"@, q.name@)];
    let p1 = crate::http::str_pair("visibility"@, q.visibility);
    let p2 = crate::http::str_pair("markdown"@, q.markdown);
    let p3 = crate::http::bool_pair("showScores"@, q.show_scores);
    let p4 = crate::http::bool_pair("showRatingDiffs"@, q.show_rating_diffs);
    let p5 = crate::http::bool_pair("teamTable"@, q.team_table);
    let p6 = crate::http::str_pair("players"@, q.players);
    let p7 = crate::http::str_pair("teams"@, q.teams);
    let p8 = crate::http::nat_pair("tier"@, crate::http::opt_u8(q.tier));
    let s0 = p0;
    let s1 = s0 + p1;
    let s2 = s1 + p2;
    let s3 = s2 + p3;
    let s4 = s3 + p4;
    let s5 = s4 + p5;
    let s6 = s5 + p6;
    let s7 = s6 + p7;
    let s8 = s7 + p8;
    assert(q.pairs_view() == s8);
    let v = Some(q.name@);
    assert(p0 == crate::text::one_pair("name"@, v));
    crate::text::lemma_one_pair_carries("name"@, v);
    crate::text::lemma_extend(s0, p1, "name"@, v, false);
    crate::text::lemma_extend(s1, p2, "name"@, v, false);
    crate::text::lemma_extend(s2, p3, "name"@, v, false);
    crate::text::lemma_extend(s3, p4, "name"@, v, false);
    crate::text::lemma_extend(s4, p5, "name"@, v, false);
    crate::text::lemma_extend(s5, p6, "name"@, v, false);
    crate::text::lemma_extend(s6, p7, "name"@, v, false);
    crate::text::lemma_extend(s7, p8, "name"@, v, false);
}

/// The pairs of [`TourForm`] carry its field under `visibility`.
proof fn lemma_tour_form_visibility(q: TourForm)
    ensures
        crate::text::carries(q.pairs_view(), "visibility"@, match q.visibility { Some(v) => Some(v@), None => None }),
{
    reveal_strlit("markdown");
    reveal_strlit("name");
    reveal_strlit("players");
    reveal_strlit("showRatingDiffs");
    reveal_strlit("showScores");
    reveal_strlit("teamTable");
    reveal_strlit("teams");
    reveal_strlit("tier");
    reveal_strlit("visibility");
    assert("visibility"@.len() != "markdown"@.len());
    assert("visibility"@.len() != "name"@.len());
    assert("visibility"@.len() != "players"@.len());
    assert("visibility"@.len() != "showRatingDiffs"@.len());
    assert("visibility"@[0] != "showScores"@[0]);
    assert("visibility"@.len() != "teamTable"@.len());
    assert("visibility"@.len() != "teams"@.len());
    assert("visibility"@.len() != "tier"@.len());
    let p0 = seq![("name"@, q.name@)];
    let p1 = crate::http::str_pair("visibility"@, q.visibility);
    let p2 = crate::http::str_pair("markdown"@, q.markdown);
    let p3 = crate::http::bool_pair("showScores"@, q.show_scores);
    let p4 = crate::http::bool_pair("showRatingDiffs"@, q.show_rating_diffs);
    let p5 = crate::http::bool_pair("teamTable"@, q.team_table);
    let p6 = crate::http::str_pair("players"@, q.players);
    let p7 = crate::http::str_pair("teams"@, q.teams);
    let p8 = crate::http::nat_pair("tier"@, crate::http::opt_u8(q.tier));
    let s0 = p0;
    let s1 = s0 + p1;
    let s2 = s1 + p2;
    let s3 = s2 + p3;
    let s4 = s3 + p4;
    let s5 = s4 + p5;
    let s6 = s5 + p6;
    let s7 = s6 + p7;
    let s8 = s7 + p8;
    assert(q.pairs_view() == s8);
    let v = match q.visibility { Some(v) => Some(v@), None => None };
    crate::text::lemma_extend(s0, p1, "visibility"@, v, true);
    crate::text::lemma_extend(s1, p2, "visibility"@, v, false);
    crate::text::lemma_extend(s2, p3, "visibility"@, v, false);
    crate::text::lemma_extend(s3, p4, "visibility"@, v, false);
    crate::text::lemma_extend(s4, p5, "visibility"@, v, false);
    crate::text::lemma_extend(s5, p6, "visibility"@, v, false);
    crate::text::lemma_extend(s6, p7, "visibility"@, v, false);
    crate::text::lemma_extend(s7, p8, "visibility"@, v, false);
}

/// The pairs of [`TourForm`] carry its field under `markdown`.
proof fn lemma_tour_form_markdown(q: TourForm)
    ensures
        crate::text::carries(q.pairs_view(), "markdown"@, match q.markdown { Some(v) => Some(v@), None => None }),
{
    reveal_strlit("markdown");
    reveal_strlit("name");
    reveal_strlit("players");
    reveal_strlit("showRatingDiffs");
    reveal_strlit("showScores");
    reveal_strlit("teamTable");
    reveal_strlit("teams");
    reveal_strlit("tier");
    reveal_strlit("visibility");
    assert("markdown"@.len() != "name"@.len());
    assert("markdown"@.len() != "players"@.len());
    assert("markdown"@.len() != "showRatingDiffs"@.len());
    assert("markdown"@.len() != "showScores"@.len());
    assert("markdown"@.len() != "teamTable"@.len());
    assert("markdown"@.len() != "teams"@.len());
    assert("markdown"@.len() != "tier"@.len());
    assert("markdown"@.len() != "visibility"@.len());
    let p0 = seq![("name"@, q.name@)];
    let p1 = crate::http::str_pair("visibility"@, q.visibility);
    let p2 = crate::http::str_pair("markdown"@, q.markdown);
    let p3 = crate::http::bool_pair("showScores"@, q.show_scores);
    let p4 = crate::http::bool_pair("showRatingDiffs"@, q.show_rating_diffs);
    let p5 = crate::http::bool_pair("teamTable"@, q.team_table);
    let p6 = crate::http::str_pair("players"@, q.players);
    let p7 = crate::http::str_pair("teams"@, q.teams);
    let p8 = crate::http::nat_pair("tier"@, crate::http::opt_u8(q.tier));
    let s0 = p0;
    let s1 = s0 + p1;
    let s2 = s1 + p2;
    let s3 = s2 + p3;
    let s4 = s3 + p4;
    let s5 = s4 + p5;
    let s6 = s5 + p6;
    let s7 = s6 + p7;
    let s8 = s7 + p8;
    assert(q.pairs_view() == s8);
    let v = match q.markdown { Some(v) => Some(v@), None => None };
    crate::text::lemma_extend(s0, p1, "markdown"@, None, false);
    crate::text::lemma_extend(s1, p2, "markdown"@, v, true);
    crate::text::lemma_extend(s2, p3, "markdown"@, v, false);
    crate::text::lemma_extend(s3, p4, "markdown"@, v, false);
    crate::text::lemma_extend(s4, p5, "markdown"@, v, false);
    crate::text::lemma_extend(s5, p6, "markdown"@, v, false);
    crate::text::lemma_extend(s6, p7, "markdown"@, v, false);
    crate::text::lemma_extend(s7, p8, "markdown"@, v, false);
}

/// The pairs of [`TourForm`] carry its field under `showScores`.
proof fn lemma_tour_form_show_scores(q: TourForm)
    ensures
        crate::text::carries(q.pairs_view(), "showScores"@, match q.show_scores { Some(b) => Some(if b { seq!['t', 'r', 'u', 'e'] } else { seq!['f', 'a', 'l', 's', 'e'] }), None => None }),
{
    reveal_strlit("markdown");
    reveal_strlit("name");
    reveal_strlit("players");
    reveal_strlit("showRatingDiffs");
    reveal_strlit("showScores");
    reveal_strlit("teamTable");
    reveal_strlit("teams");
    reveal_strlit("tier");
    reveal_strlit("visibility");
    assert("showScores"@.len() != "markdown"@.len());
    assert("showScores"@.len() != "name"@.len());
    assert("showScores"@.len() != "players"@.len());
    assert("showScores"@.len() != "showRatingDiffs"@.len());
    assert("showScores"@.len() != "teamTable"@.len());
    assert("showScores"@.len() != "teams"@.len());
    assert("showScores"@.len() != "tier"@.len());
    assert("showScores"@[0] != "visibility"@[0]);
    let p0 = seq![("name"@, q.name@)];
    let p1 = crate::http::str_pair("visibility"@, q.visibility);
    let p2 = crate::http::str_pair("markdown"@, q.markdown);
    let p3 = crate::http::bool_pair("showScores"@, q.show_scores);
    let p4 = crate::http::bool_pair("showRatingDiffs"@, q.show_rating_diffs);
    let p5 = crate::http::bool_pair("teamTable"@, q.team_table);
    let p6 = crate::http::str_pair("players"@, q.players);
    let p7 = crate::http::str_pair("teams"@, q.teams);
    let p8 = crate::http::nat_pair("tier"@, crate::http::opt_u8(q.tier));
    let s0 = p0;
    let s1 = s0 + p1;
    let s2 = s1 + p2;
    let s3 = s2 + p3;
    let s4 = s3 + p4;
    let s5 = s4 + p5;
    let s6 = s5 + p6;
    let s7 = s6 + p7;
    let s8 = s7 + p8;
    assert(q.pairs_view() == s8);
    let v = match q.show_scores { Some(b) => Some(if b { seq!['t', 'r', 'u', 'e'] } else { seq!['f', 'a', 'l', 's', 'e'] }), None => None };
    crate::text::lemma_extend(s0, p1, "showScores"@, None, false);
    crate::text::lemma_extend(s1, p2, "showScores"@, None, false);
    crate::text::lemma_extend(s2, p3, "showScores"@, v, true);
    crate::text::lemma_extend(s3, p4, "showScores"@, v, false);
    crate::text::lemma_extend(s4, p5, "showScores"@, v, false);
    crate::text::lemma_extend(s5, p6, "showScores"@, v, false);
    crate::text::lemma_extend(s6, p7, "showScores"@, v, false);
    crate::text::lemma_extend(s7, p8, "showScores"@, v, false);
}

/// The pairs of [`TourForm`] carry its field under `showRatingDiffs`.
proof fn lemma_tour_form_show_rating_diffs(q: TourForm)
    ensures
        crate::text::carries(q.pairs_view(), "showRatingDiffs"@, match q.show_rating_diffs { Some(b) => Some(if b { seq!['t', 'r', 'u', 'e'] } else { seq!['f', 'a', 'l', 's', 'e'] }), None => None }),
{
    reveal_strlit("markdown");
    reveal_strlit("name");
    reveal_strlit("players");
    reveal_strlit("showRatingDiffs");
    reveal_strlit("showScores");
    reveal_strlit("teamTable");
    reveal_strlit("teams");
    reveal_strlit("tier");
    reveal_strlit("visibility");
    assert("showRatingDiffs"@.len() != "markdown"@.len());
    assert("showRatingDiffs"@.len() != "name"@.len());
    assert("showRatingDiffs"@.len() != "players"@.len());
    assert("showRatingDiffs"@.len() != "showScores"@.len());
    assert("showRatingDiffs"@.len() != "teamTable"@.len());
    assert("showRatingDiffs"@.len() != "teams"@.len());
    assert("showRatingDiffs"@.len() != "tier"@.len());
    assert("showRatingDiffs"@.len() != "visibility"@.len());
    let p0 = seq![("name"@, q.name@)];
    let p1 = crate::http::str_pair("visibility"@, q.visibility);
    let p2 = crate::http::str_pair("markdown"@, q.markdown);
    let p3 = crate::http::bool_pair("showScores"@, q.show_scores);
    let p4 = crate::http::bool_pair("showRatingDiffs"@, q.show_rating_diffs);
    let p5 = crate::http::bool_pair("teamTable"@, q.team_table);
    let p6 = crate::http::str_pair("players"@, q.players);
    let p7 = crate::http::str_pair("teams"@, q.teams);
    let p8 = crate::http::nat_pair("tier"@, crate::http::opt_u8(q.tier));
    let s0 = p0;
    let s1 = s0 + p1;
    let s2 = s1 + p2;
    let s3 = s2 + p3;
    let s4 = s3 + p4;
    let s5 = s4 + p5;
    let s6 = s5 + p6;
    let s7 = s6 + p7;
    let s8 = s7 + p8;
    assert(q.pairs_view() == s8);
    let v = match q.show_rating_diffs { Some(b) => Some(if b { seq!['t', 'r', 'u', 'e'] } else { seq!['f', 'a', 'l', 's', 'e'] }), None => None };
    crate::text::lemma_extend(s0, p1, "showRatingDiffs"@, None, false);
    crate::text::lemma_extend(s1, p2, "showRatingDiffs"@, None, false);
    crate::text::lemma_extend(s2, p3, "showRatingDiffs"@, None, false);
    crate::text::lemma_extend(s3, p4, "showRatingDiffs"@, v, true);
    crate::text::lemma_extend(s4, p5, "showRatingDiffs"@, v, false);
    crate::text::lemma_extend(s5, p6, "showRatingDiffs"@, v, false);
    crate::text::lemma_extend(s6, p7, "showRatingDiffs"@, v, false);
    crate::text::lemma_extend(s7, p8, "showRatingDiffs"@, v, false);
}

/// The pairs of [`TourForm`] carry its field under `teamTable`.
proof fn lemma_tour_form_team_table(q: TourForm)
    ensures
        crate::text::carries(q.pairs_view(), "teamTable"@, match q.team_table { Some(b) => Some(if b { seq!['t', 'r', 'u', 'e'] } else { seq!['f', 'a', 'l', 's', 'e'] }), None => None }),
{
    reveal_strlit("markdown");
    reveal_strlit("name");
    reveal_strlit("players");
    reveal_strlit("showRatingDiffs");
    reveal_strlit("showScores");
    reveal_strlit("teamTable");
    reveal_strlit("teams");
    reveal_strlit("tier");
    reveal_strlit("visibility");
    assert("teamTable"@.len() != "markdown"@.len());
    assert("teamTable"@.len() != "name"@.len());
    assert("teamTable"@.len() != "players"@.len());
    assert("teamTable"@.len() != "showRatingDiffs"@.len());
    assert("teamTable"@.len() != "showScores"@.len());
    assert("teamTable"@.len() != "teams"@.len());
    assert("teamTable"@.len() != "tier"@.len());
    assert("teamTable"@.len() != "visibility"@.len());
    let p0 = seq![("name"@, q.name@)];
    let p1 = crate::http::str_pair("visibility"@, q.visibility);
    let p2 = crate::http::str_pair("markdown"@, q.markdown);
    let p3 = crate::http::bool_pair("showScores"@, q.show_scores);
    let p4 = crate::http::bool_pair("showRatingDiffs"@, q.show_rating_diffs);
    let p5 = crate::http::bool_pair("teamTable"@, q.team_table);
    let p6 = crate::http::str_pair("players"@, q.players);
    let p7 = crate::http::str_pair("teams"@, q.teams);
    let p8 = crate::http::nat_pair("tier"@, crate::http::opt_u8(q.tier));
    let s0 = p0;
    let s1 = s0 + p1;
    let s2 = s1 + p2;
    let s3 = s2 + p3;
    let s4 = s3 + p4;
    let s5 = s4 + p5;
    let s6 = s5 + p6;
    let s7 = s6 + p7;
    let s8 = s7 + p8;
    assert(q.pairs_view() == s8);
    let v = match q.team_table { Some(b) => Some(if b { seq!['t', 'r', 'u', 'e'] } else { seq!['f', 'a', 'l', 's', 'e'] }), None => None };
    crate::text::lemma_extend(s0, p1, "teamTable"@, None, false);
    crate::text::lemma_extend(s1, p2, "teamTable"@, None, false);
    crate::text::lemma_extend(s2, p3, "teamTable"@, None, false);
    crate::text::lemma_extend(s3, p4, "teamTable"@, None, false);
    crate::text::lemma_extend(s4, p5, "teamTable"@, v, true);
    crate::text::lemma_extend(s5, p6, "teamTable"@, v, false);
    crate::text::lemma_extend(s6, p7, "teamTable"@, v, false);
    crate::text::lemma_extend(s7, p8, "teamTable"@, v, false);
}

/// The pairs of [`TourForm`] carry its field under `players`.
proof fn lemma_tour_form_players(q: TourForm)
    ensures
        crate::text::carries(q.pairs_view(), "players"@, match q.players { Some(v) => Some(v@), None => None }),
{
    reveal_strlit("markdown");
    reveal_strlit("name");
    reveal_strlit("players");
    reveal_strlit("showRatingDiffs");
    reveal_strlit("showScores");
    reveal_strlit("teamTable");
    reveal_strlit("teams");
    reveal_strlit("tier");
    reveal_strlit("visibility");
    assert("players"@.len() != "markdown"@.len());
    assert("players"@.len() != "name"@.len());
    assert("players"@.len() != "showRatingDiffs"@.len());
    assert("players"@.len() != "showScores"@.len());
    assert("players"@.len() != "teamTable"@.len());
    assert("players"@.len() != "teams"@.len());
    assert("players"@.len() != "tier"@.len());
    assert("players"@.len() != "visibility"@.len());
    let p0 = seq![("name"@, q.name@)];
    let p1 = crate::http::str_pair("visibility"@, q.visibility);
    let p2 = crate::http::str_pair("markdown"@, q.markdown);
    let p3 = crate::http::bool_pair("showScores"@, q.show_scores);
    let p4 = crate::http::bool_pair("showRatingDiffs"@, q.show_rating_diffs);
    let p5 = crate::http::bool_pair("teamTable"@, q.team_table);
    let p6 = crate::http::str_pair("players"@, q.players);
    let p7 = crate::http::str_pair("teams"@, q.teams);
    let p8 = crate::http::nat_pair("tier"@, crate::http::opt_u8(q.tier));
    let s0 = p0;
    let s1 = s0 + p1;
    let s2 = s1 + p2;
    let s3 = s2 + p3;
    let s4 = s3 + p4;
    let s5 = s4 + p5;
    let s6 = s5 + p6;
    let s7 = s6 + p7;
    let s8 = s7 + p8;
    assert(q.pairs_view() == s8);
    let v = match q.players { Some(v) => Some(v@), None => None };
    crate::text::lemma_extend(s0, p1, "players"@, None, false);
    crate::text::lemma_extend(s1, p2, "players"@, None, false);
    crate::text::lemma_extend(s2, p3, "players"@, None, false);
    crate::text::lemma_extend(s3, p4, "players"@, None, false);
    crate::text::lemma_extend(s4, p5, "players"@, None, false);
    crate::text::lemma_extend(s5, p6, "players"@, v, true);
    crate::text::lemma_extend(s6, p7, "players"@, v, false);
    crate::text::lemma_extend(s7, p8, "players"@, v, false);
}

/// The pairs of [`TourForm`] carry its field under `teams`.
proof fn lemma_tour_form_teams(q: TourForm)
    ensures
        crate::text::carries(q.pairs_view(), "teams"@, match q.teams { Some(v) => Some(v@), None => None }),
{
    reveal_strlit("markdown");
    reveal_strlit("name");
    reveal_strlit("players");
    reveal_strlit("showRatingDiffs");
    reveal_strlit("showScores");
    reveal_strlit("teamTable");
    reveal_strlit("teams");
    reveal_strlit("tier");
    reveal_strlit("visibility");
    assert("teams"@.len() != "markdown"@.len());
    assert("teams"@.len() != "name"@.len());
    assert("teams"@.len() != "players"@.len());
    assert("teams"@.len() != "showRatingDiffs"@.len());
    assert("teams"@.len() != "showScores"@.len());
    assert("teams"@.len() != "teamTable"@.len());
    assert("teams"@.len() != "tier"@.len());
    assert("teams"@.len() != "visibility"@.len());
    let p0 = seq![("name"@, q.name@)];
    let p1 = crate::http::str_pair("visibility"@, q.visibility);
    let p2 = crate::http::str_pair("markdown"@, q.markdown);
    let p3 = crate::http::bool_pair("showScores"@, q.show_scores);
    let p4 = crate::http::bool_pair("showRatingDiffs"@, q.show_rating_diffs);
    let p5 = crate::http::bool_pair("teamTable"@, q.team_table);
    let p6 = crate::http::str_pair("players"@, q.players);
    let p7 = crate::http::str_pair("teams"@, q.teams);
    let p8 = crate::http::nat_pair("tier"@, crate::http::opt_u8(q.tier));
    let s0 = p0;
    let s1 = s0 + p1;
    let s2 = s1 + p2;
    let s3 = s2 + p3;
    let s4 = s3 + p4;
    let s5 = s4 + p5;
    let s6 = s5 + p6;
    let s7 = s6 + p7;
    let s8 = s7 + p8;
    assert(q.pairs_view() == s8);
    let v = match q.teams { Some(v) => Some(v@), None => None };
    crate::text::lemma_extend(s0, p1, "teams"@, None, false);
    crate::text::lemma_extend(s1, p2, "teams"@, None, false);
    crate::text::lemma_extend(s2, p3, "teams"@, None, false);
    crate::text::lemma_extend(s3, p4, "teams"@, None, false);
    crate::text::lemma_extend(s4, p5, "teams"@, None, false);
    crate::text::lemma_extend(s5, p6, "teams"@, None, false);
    crate::text::lemma_extend(s6, p7, "teams"@, v, true);
    crate::text::lemma_extend(s7, p8, "teams"@, v, false);
}

/// The pairs of [`TourForm`] carry its field under `tier`.
proof fn lemma_tour_form_tier(q: TourForm)
    ensures
        crate::text::carries(q.pairs_view(), "tier"@, match q.tier { Some(x) => Some(crate::text::dec_nat(x as nat)), None => None }),
{
    reveal_strlit("markdown");
    reveal_strlit("name");
    reveal_strlit("players");
    reveal_strlit("showRatingDiffs");
    reveal_strlit("showScores");
    reveal_strlit("teamTable");
    reveal_strlit("teams");
    reveal_strlit("tier");
    reveal_strlit("visibility");
    assert("tier"@.len() != "markdown"@.len());
    assert("tier"@[0] != "name"@[0]);
    assert("tier"@.len() != "players"@.len());
    assert("tier"@.len() != "showRatingDiffs"@.len());
    assert("tier"@.len() != "showScores"@.len());
    assert("tier"@.len() != "teamTable"@.len());
    assert("tier"@.len() != "teams"@.len());
    assert("tier"@.len() != "visibility"@.len());
    let p0 = seq![("name"@, q.name@)];
    let p1 = crate::http::str_pair("visibility"@, q.visibility);
    let p2 = crate::http::str_pair("markdown"@, q.markdown);
    let p3 = crate::http::bool_pair("showScores"@, q.show_scores);
    let p4 = crate::http::bool_pair("showRatingDiffs"@, q.show_rating_diffs);
    let p5 = crate::http::bool_pair("teamTable"@, q.team_table);
    let p6 = crate::http::str_pair("players"@, q.players);
    let p7 = crate::http::str_pair("teams"@, q.teams);
    let p8 = crate::http::nat_pair("tier"@, crate::http::opt_u8(q.tier));
    let s0 = p0;
    let s1 = s0 + p1;
    let s2 = s1 + p2;
    let s3 = s2 + p3;
    let s4 = s3 + p4;
    let s5 = s4 + p5;
    let s6 = s5 + p6;
    let s7 = s6 + p7;
    let s8 = s7 + p8;
    assert(q.pairs_view() == s8);
    let v = match q.tier { Some(x) => Some(crate::text::dec_nat(x as nat)), None => None };
    crate::text::lemma_extend(s0, p1, "tier"@, None, false);
    crate::text::lemma_extend(s1, p2, "tier"@, None, false);
    crate::text::lemma_extend(s2, p3, "tier"@, None, false);
    crate::text::lemma_extend(s3, p4, "tier"@, None, false);
    crate::text::lemma_extend(s4, p5, "tier"@, None, false);
    crate::text::lemma_extend(s5, p6, "tier"@, None, false);
    crate::text::lemma_extend(s6, p7, "tier"@, None, false);
    crate::text::lemma_extend(s7, p8, "tier"@, v, true);
}

/// The pairs of [`TourForm`] carry each of its fields under that field's own
/// key (`name`, `visibility`, `markdown`, `showScores`, `showRatingDiffs`, `teamTable`, `players`, `teams`, `tier`), with the value given to it, and a key only when its field is set.
pub proof fn lemma_tour_form_carries_fields(q: TourForm)
    ensures
        crate::text::carries(q.pairs_view(), "name"@, Some(q.name@)),
        crate::text::carries(q.pairs_view(), "visibility"@, match q.visibility { Some(v) => Some(v@), None => None }),
        crate::text::carries(q.pairs_view(), "markdown"@, match q.markdown { Some(v) => Some(v@), None => None }),
        crate::text::carries(q.pairs_view(), "showScores"@, match q.show_scores { Some(b) => Some(if b { seq!['t', 'r', 'u', 'e'] } else { seq!['f', 'a', 'l', 's', 'e'] }), None => None }),
        crate::text::carries(q.pairs_view(), "showRatingDiffs"@, match q.show_rating_diffs { Some(b) => Some(if b { seq!['t', 'r', 'u', 'e'] } else { seq!['f', 'a', 'l', 's', 'e'] }), None => None }),
        crate::text::carries(q.pairs_view(), "teamTable"@, match q.team_table { Some(b) => Some(if b { seq!['t', 'r', 'u', 'e'] } else { seq!['f', 'a', 'l', 's', 'e'] }), None => None }),
        crate::text::carries(q.pairs_view(), "players"@, match q.players { Some(v) => Some(v@), None => None }),
        crate::text::carries(q.pairs_view(), "teams"@, match q.teams { Some(v) => Some(v@), None => None }),
        crate::text::carries(q.pairs_view(), "tier"@, match q.tier { Some(x) => Some(crate::text::dec_nat(x as nat)), None => None }),
{
    lemma_tour_form_name(q);
    lemma_tour_form_visibility(q);
    lemma_tour_form_markdown(q);
    lemma_tour_form_show_scores(q);
    lemma_tour_form_show_rating_diffs(q);
    lemma_tour_form_team_table(q);
    lemma_tour_form_players(q);
    lemma_tour_form_teams(q);
    lemma_tour_form_tier(q);
}

impl<'a> TourForm<'a> {
    /// The form with the name and every option unset.
    pub open spec fn named(name: &'a str) -> Self {
        TourForm {
            name,
            visibility: None,
            markdown: None,
            show_scores: None,
            show_rating_diffs: None,
            team_table: None,
            players: None,
            teams: None,
            tier: None,
        }
    }

    /// The query pairs, in order.
    pub open spec fn pairs_view(self) -> crate::text::Pairs {
        seq![("name"@, self.name@)]
            + crate::http::str_pair("visibility"@, self.visibility)
            + crate::http::str_pair("markdown"@, self.markdown)
            + crate::http::bool_pair("showScores"@, self.show_scores)
            + crate::http::bool_pair("showRatingDiffs"@, self.show_rating_diffs)
            + crate::http::bool_pair("teamTable"@, self.team_table)
            + crate::http::str_pair("players"@, self.players)
            + crate::http::str_pair("teams"@, self.teams)
            + crate::http::nat_pair("tier"@, crate::http::opt_u8(self.tier))
    }

    /// The query pairs.
    #[verifier::rlimit(40)]
    pub fn pairs(&self) -> (r: Vec<(String, String)>)
        ensures
            r.deep_view() == self.pairs_view(),
    {
        let mut out: Vec<(String, String)> = Vec::new();
        crate::http::push_pair(&mut out, "name", String::from_str(self.name));
        crate::http::push_opt_str(&mut out, "visibility", self.visibility);
        crate::http::push_opt_str(&mut out, "markdown", self.markdown);
        crate::http::push_opt_bool(&mut out, "showScores", self.show_scores);
        crate::http::push_opt_bool(&mut out, "showRatingDiffs", self.show_rating_diffs);
        crate::http::push_opt_bool(&mut out, "teamTable", self.team_table);
        crate::http::push_opt_str(&mut out, "players", self.players);
        crate::http::push_opt_str(&mut out, "teams", self.teams);
        crate::http::push_opt_u8(&mut out, "tier", self.tier);
        assert(out.deep_view() =~= self.pairs_view());
        out
    }
}

/// Display information for a broadcast tournament, serialized as `info.*` keys.
#[derive(Debug, Clone)]
pub struct BroadcastTourInfo<'a> {
    /// Tournament format, e.g. `"8-player round-robin"`.
    pub format: Option<&'a str>,
    /// Time control, e.g. `"Classical"` or `"Rapid & Blitz"`.
    pub tc: Option<&'a str>,
    /// FIDE rating category (`standard`, `rapid`, or `blitz`).
    pub fide_tc: Option<&'a str>,
    /// Timezone identifier, e.g. `America/New_York`.
    pub time_zone: Option<&'a str>,
    /// Tournament location.
    pub location: Option<&'a str>,
    /// Up to four of the best participating players.
    pub players: Option<&'a str>,
    /// Official website URL.
    pub website: Option<&'a str>,
    /// Official standings website URL.
    pub standings: Option<&'a str>,
    /// External URL to the tournament regulations.
    pub regulations: Option<&'a str>,
}

/// The pairs of [`BroadcastTourInfo`] carry its field under `info.format`.
proof fn lemma_broadcast_tour_info_info_format(q: BroadcastTourInfo)
    ensures
        crate::text::carries(q.pairs_view(), "info.format"@, match q.format { Some(v) => Some(v@), None => None }),
{
    reveal_strlit("info.fideTC");
    reveal_strlit("info.format");
    reveal_strlit("info.location");
    reveal_strlit("info.players");
    reveal_strlit("info.regulations");
    reveal_strlit("info.standings");
    reveal_strlit("info.tc");
    reveal_strlit("info.timeZone");
    reveal_strlit("info.website");
    assert("info.format"@[6] != "info.fideTC"@[6]);
    assert("info.format"@.len() != "info.location"@.len());
    assert("info.format"@.len() != "info.players"@.len());
    assert("info.format"@.len() != "info.regulations"@.len());
    assert("info.format"@.len() != "info.standings"@.len());
    assert("info.format"@.len() != "info.tc"@.len());
    assert("info.format"@.len() != "info.timeZone"@.len());
    assert("info.format"@.len() != "info.website"@.len());
    let p0 = crate::http::str_pair("info.format"@, q.format);
    let p1 = crate::http::str_pair("info.tc"@, q.tc);
    let p2 = crate::http::str_pair("info.fideTC"@, q.fide_tc);
    let p3 = crate::http::str_pair("info.timeZone"@, q.time_zone);
    let p4 = crate::http::str_pair("info.location"@, q.location);
    let p5 = crate::http::str_pair("info.players"@, q.players);
    let p6 = crate::http::str_pair("info.website"@, q.website);
    let p7 = crate::http::str_pair("info.standings"@, q.standings);
    let p8 = crate::http::str_pair("info.regulations"@, q.regulations);
    let s0 = p0;
    let s1 = s0 + p1;
    let s2 = s1 + p2;
    let s3 = s2 + p3;
    let s4 = s3 + p4;
    let s5 = s4 + p5;
    let s6 = s5 + p6;
    let s7 = s6 + p7;
    let s8 = s7 + p8;
    assert(q.pairs_view() == s8);
    let v = match q.format { Some(v) => Some(v@), None => None };
    assert(p0 == crate::text::one_pair("info.format"@, v));
    crate::text::lemma_one_pair_carries("info.format"@, v);
    crate::text::lemma_extend(s0, p1, "info.format"@, v, false);
    crate::text::lemma_extend(s1, p2, "info.format"@, v, false);
    crate::text::lemma_extend(s2, p3, "info.format"@, v, false);
    crate::text::lemma_extend(s3, p4, "info.format"@, v, false);
    crate::text::lemma_extend(s4, p5, "info.format"@, v, false);
    crate::text::lemma_extend(s5, p6, "info.format"@, v, false);
    crate::text::lemma_extend(s6, p7, "info.format"@, v, false);
    crate::text::lemma_extend(s7, p8, "info.format"@, v, false);
}

/// The pairs of [`BroadcastTourInfo`] carry its field under `info.tc`.
proof fn lemma_broadcast_tour_info_info_tc(q: BroadcastTourInfo)
    ensures
        crate::text::carries(q.pairs_view(), "info.tc"@, match q.tc { Some(v) => Some(v@), None => None }),
{
    reveal_strlit("info.fideTC");
    reveal_strlit("info.format");
    reveal_strlit("info.location");
    reveal_strlit("info.players");
    reveal_strlit("info.regulations");
    reveal_strlit("info.standings");
    reveal_strlit("info.tc");
    reveal_strlit("info.timeZone");
    reveal_strlit("info.website");
    assert("info.tc"@.len() != "info.fideTC"@.len());
    assert("info.tc"@.len() != "info.format"@.len());
    assert("info.tc"@.len() != "info.location"@.len());
    assert("info.tc"@.len() != "info.players"@.len());
    assert("info.tc"@.len() != "info.regulations"@.len());
    assert("info.tc"@.len() != "info.standings"@.len());
    assert("info.tc"@.len() != "info.timeZone"@.len());
    assert("info.tc"@.len() != "info.website"@.len());
    let p0 = crate::http::str_pair("info.format"@, q.format);
    let p1 = crate::http::str_pair("info.tc"@, q.tc);
    let p2 = crate::http::str_pair("info.fideTC"@, q.fide_tc);
    let p3 = crate::http::str_pair("info.timeZone"@, q.time_zone);
    let p4 = crate::http::str_pair("info.location"@, q.location);
    let p5 = crate::http::str_pair("info.players"@, q.players);
    let p6 = crate::http::str_pair("info.website"@, q.website);
    let p7 = crate::http::str_pair("info.standings"@, q.standings);
    let p8 = crate::http::str_pair("info.regulations"@, q.regulations);
    let s0 = p0;
    let s1 = s0 + p1;
    let s2 = s1 + p2;
    let s3 = s2 + p3;
    let s4 = s3 + p4;
    let s5 = s4 + p5;
    let s6 = s5 + p6;
    let s7 = s6 + p7;
    let s8 = s7 + p8;
    assert(q.pairs_view() == s8);
    let v = match q.tc { Some(v) => Some(v@), None => None };
    crate::text::lemma_extend(s0, p1, "info.tc"@, v, true);
    crate::text::lemma_extend(s1, p2, "info.tc"@, v, false);
    crate::text::lemma_extend(s2, p3, "info.tc"@, v, false);
    crate::text::lemma_extend(s3, p4, "info.tc"@, v, false);
    crate::text::lemma_extend(s4, p5, "info.tc"@, v, false);
    crate::text::lemma_extend(s5, p6, "info.tc"@, v, false);
    crate::text::lemma_extend(s6, p7, "info.tc"@, v, false);
    crate::text::lemma_extend(s7, p8, "info.tc"@, v, false);
}

/// The pairs of [`BroadcastTourInfo`] carry its field under `info.fideTC`.
proof fn lemma_broadcast_tour_info_info_fide_t_c(q: BroadcastTourInfo)
    ensures
        crate::text::carries(q.pairs_view(), "info.fideTC"@, match q.fide_tc { Some(v) => Some(v@), None => None }),
{
    reveal_strlit("info.fideTC");
    reveal_strlit("info.format");
    reveal_strlit("info.location");
    reveal_strlit("info.players");
    reveal_strlit("info.regulations");
    reveal_strlit("info.standings");
    reveal_strlit("info.tc");
    reveal_strlit("info.timeZone");
    reveal_strlit("info.website");
    assert("info.fideTC"@[6] != "info.format"@[6]);
    assert("info.fideTC"@.len() != "info.location"@.len());
    assert("info.fideTC"@.len() != "info.players"@.len());
    assert("info.fideTC"@.len() != "info.regulations"@.len());
    assert("info.fideTC"@.len() != "info.standings"@.len());
    assert("info.fideTC"@.len() != "info.tc"@.len());
    assert("info.fideTC"@.len() != "info.timeZone"@.len());
    assert("info.fideTC"@.len() != "info.website"@.len());
    let p0 = crate::http::str_pair("info.format"@, q.format);
    let p1 = crate::http::str_pair("info.tc"@, q.tc);
    let p2 = crate::http::str_pair("info.fideTC"@, q.fide_tc);
    let p3 = crate::http::str_pair("info.timeZone"@, q.time_zone);
    let p4 = crate::http::str_pair("info.location"@, q.location);
    let p5 = crate::http::str_pair("info.players"@, q.players);
    let p6 = crate::http::str_pair("info.website"@, q.website);
    let p7 = crate::http::str_pair("info.standings"@, q.standings);
    let p8 = crate::http::str_pair("info.regulations"@, q.regulations);
    let s0 = p0;
    let s1 = s0 + p1;
    let s2 = s1 + p2;
    let s3 = s2 + p3;
    let s4 = s3 + p4;
    let s5 = s4 + p5;
    let s6 = s5 + p6;
    let s7 = s6 + p7;
    let s8 = s7 + p8;
    assert(q.pairs_view() == s8);
    let v = match q.fide_tc { Some(v) => Some(v@), None => None };
    crate::text::lemma_extend(s0, p1, "info.fideTC"@, None, false);
    crate::text::lemma_extend(s1, p2, "info.fideTC"@, v, true);
    crate::text::lemma_extend(s2, p3, "info.fideTC"@, v, false);
    crate::text::lemma_extend(s3, p4, "info.fideTC"@, v, false);
    crate::text::lemma_extend(s4, p5, "info.fideTC"@, v, false);
    crate::text::lemma_extend(s5, p6, "info.fideTC"@, v, false);
    crate::text::lemma_extend(s6, p7, "info.fideTC"@, v, false);
    crate::text::lemma_extend(s7, p8, "info.fideTC"@, v, false);
}

/// The pairs of [`BroadcastTourInfo`] carry its field under `info.timeZone`.
proof fn lemma_broadcast_tour_info_info_time_zone(q: BroadcastTourInfo)
    ensures
        crate::text::carries(q.pairs_view(), "info.timeZone"@, match q.time_zone { Some(v) => Some(v@), None => None }),
{
    reveal_strlit("info.fideTC");
    reveal_strlit("info.format");
    reveal_strlit("info.location");
    reveal_strlit("info.players");
    reveal_strlit("info.regulations");
    reveal_strlit("info.standings");
    reveal_strlit("info.tc");
    reveal_strlit("info.timeZone");
    reveal_strlit("info.website");
    assert("info.timeZone"@.len() != "info.fideTC"@.len());
    assert("info.timeZone"@.len() != "info.format"@.len());
    assert("info.timeZone"@[5] != "info.location"@[5]);
    assert("info.timeZone"@.len() != "info.players"@.len());
    assert("info.timeZone"@.len() != "info.regulations"@.len());
    assert("info.timeZone"@.len() != "info.standings"@.len());
    assert("info.timeZone"@.len() != "info.tc"@.len());
    assert("info.timeZone"@.len() != "info.website"@.len());
    let p0 = crate::http::str_pair("info.format"@, q.format);
    let p1 = crate::http::str_pair("info.tc"@, q.tc);
    let p2 = crate::http::str_pair("info.fideTC"@, q.fide_tc);
    let p3 = crate::http::str_pair("info.timeZone"@, q.time_zone);
    let p4 = crate::http::str_pair("info.location"@, q.location);
    let p5 = crate::http::str_pair("info.players"@, q.players);
    let p6 = crate::http::str_pair("info.website"@, q.website);
    let p7 = crate::http::str_pair("info.standings"@, q.standings);
    let p8 = crate::http::str_pair("info.regulations"@, q.regulations);
    let s0 = p0;
    let s1 = s0 + p1;
    let s2 = s1 + p2;
    let s3 = s2 + p3;
    let s4 = s3 + p4;
    let s5 = s4 + p5;
    let s6 = s5 + p6;
    let s7 = s6 + p7;
    let s8 = s7 + p8;
    assert(q.pairs_view() == s8);
    let v = match q.time_zone { Some(v) => Some(v@), None => None };
    crate::text::lemma_extend(s0, p1, "info.timeZone"@, None, false);
    crate::text::lemma_extend(s1, p2, "info.timeZone"@, None, false);
    crate::text::lemma_extend(s2, p3, "info.timeZone"@, v, true);
    crate::text::lemma_extend(s3, p4, "info.timeZone"@, v, false);
    crate::text::lemma_extend(s4, p5, "info.timeZone"@, v, false);
    crate::text::lemma_extend(s5, p6, "info.timeZone"@, v, false);
    crate::text::lemma_extend(s6, p7, "info.timeZone"@, v, false);
    crate::text::lemma_extend(s7, p8, "info.timeZone"@, v, false);
}

/// The pairs of [`BroadcastTourInfo`] carry its field under `info.location`.
proof fn lemma_broadcast_tour_info_info_location(q: BroadcastTourInfo)
    ensures
        crate::text::carries(q.pairs_view(), "info.location"@, match q.location { Some(v) => Some(v@), None => None }),
{
    reveal_strlit("info.fideTC");
    reveal_strlit("info.format");
    reveal_strlit("info.location");
    reveal_strlit("info.players");
    reveal_strlit("info.regulations");
    reveal_strlit("info.standings");
    reveal_strlit("info.tc");
    reveal_strlit("info.timeZone");
    reveal_strlit("info.website");
    assert("info.location"@.len() != "info.fideTC"@.len());
    assert("info.location"@.len() != "info.format"@.len());
    assert("info.location"@.len() != "info.players"@.len());
    assert("info.location"@.len() != "info.regulations"@.len());
    assert("info.location"@.len() != "info.standings"@.len());
    assert("info.location"@.len() != "info.tc"@.len());
    assert("info.location"@[5] != "info.timeZone"@[5]);
    assert("info.location"@.len() != "info.website"@.len());
    let p0 = crate::http::str_pair("info.format"@, q.format);
    let p1 = crate::http::str_pair("info.tc"@, q.tc);
    let p2 = crate::http::str_pair("info.fideTC"@, q.fide_tc);
    let p3 = crate::http::str_pair("info.timeZone"@, q.time_zone);
    let p4 = crate::http::str_pair("info.location"@, q.location);
    let p5 = crate::http::str_pair("info.players"@, q.players);
    let p6 = crate::http::str_pair("info.website"@, q.website);
    let p7 = crate::http::str_pair("info.standings"@, q.standings);
    let p8 = crate::http::str_pair("info.regulations"@, q.regulations);
    let s0 = p0;
    let s1 = s0 + p1;
    let s2 = s1 + p2;
    let s3 = s2 + p3;
    let s4 = s3 + p4;
    let s5 = s4 + p5;
    let s6 = s5 + p6;
    let s7 = s6 + p7;
    let s8 = s7 + p8;
    assert(q.pairs_view() == s8);
    let v = match q.location { Some(v) => Some(v@), None => None };
    crate::text::lemma_extend(s0, p1, "info.location"@, None, false);
    crate::text::lemma_extend(s1, p2, "info.location"@, None, false);
    crate::text::lemma_extend(s2, p3, "info.location"@, None, false);
    crate::text::lemma_extend(s3, p4, "info.location"@, v, true);
    crate::text::lemma_extend(s4, p5, "info.location"@, v, false);
    crate::text::lemma_extend(s5, p6, "info.location"@, v, false);
    crate::text::lemma_extend(s6, p7, "info.location"@, v, false);
    crate::text::lemma_extend(s7, p8, "info.location"@, v, false);
}

/// The pairs of [`BroadcastTourInfo`] carry its field under `info.players`.
proof fn lemma_broadcast_tour_info_info_players(q: BroadcastTourInfo)
    ensures
        crate::text::carries(q.pairs_view(), "info.players"@, match q.players { Some(v) => Some(v@), None => None }),
{
    reveal_strlit("info.fideTC");
    reveal_strlit("info.format");
    reveal_strlit("info.location");
    reveal_strlit("info.players");
    reveal_strlit("info.regulations");
    reveal_strlit("info.standings");
    reveal_strlit("info.tc");
    reveal_strlit("info.timeZone");
    reveal_strlit("info.website");
    assert("info.players"@.len() != "info.fideTC"@.len());
    assert("info.players"@.len() != "info.format"@.len());
    assert("info.players"@.len() != "info.location"@.len());
    assert("info.players"@.len() != "info.regulations"@.len());
    assert("info.players"@.len() != "info.standings"@.len());
    assert("info.players"@.len() != "info.tc"@.len());
    assert("info.players"@.len() != "info.timeZone"@.len());
    assert("info.players"@[5] != "info.website"@[5]);
    let p0 = crate::http::str_pair("info.format"@, q.format);
    let p1 = crate::http::str_pair("info.tc"@, q.tc);
    let p2 = crate::http::str_pair("info.fideTC"@, q.fide_tc);
    let p3 = crate::http::str_pair("info.timeZone"@, q.time_zone);
    let p4 = crate::http::str_pair("info.location"@, q.location);
    let p5 = crate::http::str_pair("info.players"@, q.players);
    let p6 = crate::http::str_pair("info.website"@, q.website);
    let p7 = crate::http::str_pair("info.standings"@, q.standings);
    let p8 = crate::http::str_pair("info.regulations"@, q.regulations);
    let s0 = p0;
    let s1 = s0 + p1;
    let s2 = s1 + p2;
    let s3 = s2 + p3;
    let s4 = s3 + p4;
    let s5 = s4 + p5;
    let s6 = s5 + p6;
    let s7 = s6 + p7;
    let s8 = s7 + p8;
    assert(q.pairs_view() == s8);
    let v = match q.players { Some(v) => Some(v@), None => None };
    crate::text::lemma_extend(s0, p1, "info.players"@, None, false);
    crate::text::lemma_extend(s1, p2, "info.players"@, None, false);
    crate::text::lemma_extend(s2, p3, "info.players"@, None, false);
    crate::text::lemma_extend(s3, p4, "info.players"@, None, false);
    crate::text::lemma_extend(s4, p5, "info.players"@, v, true);
    crate::text::lemma_extend(s5, p6, "info.players"@, v, false);
    crate::text::lemma_extend(s6, p7, "info.players"@, v, false);
    crate::text::lemma_extend(s7, p8, "info.players"@, v, false);
}

/// The pairs of [`BroadcastTourInfo`] carry its field under `info.website`.
proof fn lemma_broadcast_tour_info_info_website(q: BroadcastTourInfo)
    ensures
        crate::text::carries(q.pairs_view(), "info.website"@, match q.website { Some(v) => Some(v@), None => None }),
{
    reveal_strlit("info.fideTC");
    reveal_strlit("info.format");
    reveal_strlit("info.location");
    reveal_strlit("info.players");
    reveal_strlit("info.regulations");
    reveal_strlit("info.standings");
    reveal_strlit("info.tc");
    reveal_strlit("info.timeZone");
    reveal_strlit("info.website");
    assert("info.website"@.len() != "info.fideTC"@.len());
    assert("info.website"@.len() != "info.format"@.len());
    assert("info.website"@.len() != "info.location"@.len());
    assert("info.website"@[5] != "info.players"@[5]);
    assert("info.website"@.len() != "info.regulations"@.len());
    assert("info.website"@.len() != "info.standings"@.len());
    assert("info.website"@.len() != "info.tc"@.len());
    assert("info.website"@.len() != "info.timeZone"@.len());
    let p0 = crate::http::str_pair("info.format"@, q.format);
    let p1 = crate::http::str_pair("info.tc"@, q.tc);
    let p2 = crate::http::str_pair("info.fideTC"@, q.fide_tc);
    let p3 = crate::http::str_pair("info.timeZone"@, q.time_zone);
    let p4 = crate::http::str_pair("info.location"@, q.location);
    let p5 = crate::http::str_pair("info.players"@, q.players);
    let p6 = crate::http::str_pair("info.website"@, q.website);
    let p7 = crate::http::str_pair("info.standings"@, q.standings);
    let p8 = crate::http::str_pair("info.regulations"@, q.regulations);
    let s0 = p0;
    let s1 = s0 + p1;
    let s2 = s1 + p2;
    let s3 = s2 + p3;
    let s4 = s3 + p4;
    let s5 = s4 + p5;
    let s6 = s5 + p6;
    let s7 = s6 + p7;
    let s8 = s7 + p8;
    assert(q.pairs_view() == s8);
    let v = match q.website { Some(v) => Some(v@), None => None };
    crate::text::lemma_extend(s0, p1, "info.website"@, None, false);
    crate::text::lemma_extend(s1, p2, "info.website"@, None, false);
    crate::text::lemma_extend(s2, p3, "info.website"@, None, false);
    crate::text::lemma_extend(s3, p4, "info.website"@, None, false);
    crate::text::lemma_extend(s4, p5, "info.website"@, None, false);
    crate::text::lemma_extend(s5, p6, "info.website"@, v, true);
    crate::text::lemma_extend(s6, p7, "info.website"@, v, false);
    crate::text::lemma_extend(s7, p8, "info.website"@, v, false);
}

/// The pairs of [`BroadcastTourInfo`] carry its field under `info.standings`.
proof fn lemma_broadcast_tour_info_info_standings(q: BroadcastTourInfo)
    ensures
        crate::text::carries(q.pairs_view(), "info.standings"@, match q.standings { Some(v) => Some(v@), None => None }),
{
    reveal_strlit("info.fideTC");
    reveal_strlit("info.format");
    reveal_strlit("info.location");
    reveal_strlit("info.players");
    reveal_strlit("info.regulations");
    reveal_strlit("info.standings");
    reveal_strlit("info.tc");
    reveal_strlit("info.timeZone");
    reveal_strlit("info.website");
    assert("info.standings"@.len() != "info.fideTC"@.len());
    assert("info.standings"@.len() != "info.format"@.len());
    assert("info.standings"@.len() != "info.location"@.len());
    assert("info.standings"@.len() != "info.players"@.len());
    assert("info.standings"@.len() != "info.regulations"@.len());
    assert("info.standings"@.len() != "info.tc"@.len());
    assert("info.standings"@.len() != "info.timeZone"@.len());
    assert("info.standings"@.len() != "info.website"@.len());
    let p0 = crate::http::str_pair("info.format"@, q.format);
    let p1 = crate::http::str_pair("info.tc"@, q.tc);
    let p2 = crate::http::str_pair("info.fideTC"@, q.fide_tc);
    let p3 = crate::http::str_pair("info.timeZone"@, q.time_zone);
    let p4 = crate::http::str_pair("info.location"@, q.location);
    let p5 = crate::http::str_pair("info.players"@, q.players);
    let p6 = crate::http::str_pair("info.website"@, q.website);
    let p7 = crate::http::str_pair("info.standings"@, q.standings);
    let p8 = crate::http::str_pair("info.regulations"@, q.regulations);
    let s0 = p0;
    let s1 = s0 + p1;
    let s2 = s1 + p2;
    let s3 = s2 + p3;
    let s4 = s3 + p4;
    let s5 = s4 + p5;
    let s6 = s5 + p6;
    let s7 = s6 + p7;
    let s8 = s7 + p8;
    assert(q.pairs_view() == s8);
    let v = match q.standings { Some(v) => Some(v@), None => None };
    crate::text::lemma_extend(s0, p1, "info.standings"@, None, false);
    crate::text::lemma_extend(s1, p2, "info.standings"@, None, false);
    crate::text::lemma_extend(s2, p3, "info.standings"@, None, false);
    crate::text::lemma_extend(s3, p4, "info.standings"@, None, false);
    crate::text::lemma_extend(s4, p5, "info.standings"@, None, false);
    crate::text::lemma_extend(s5, p6, "info.standings"@, None, false);
    crate::text::lemma_extend(s6, p7, "info.standings"@, v, true);
    crate::text::lemma_extend(s7, p8, "info.standings"@, v, false);
}

/// The pairs of [`BroadcastTourInfo`] carry its field under `info.regulations`.
proof fn lemma_broadcast_tour_info_info_regulations(q: BroadcastTourInfo)
    ensures
        crate::text::carries(q.pairs_view(), "info.regulations"@, match q.regulations { Some(v) => Some(v@), None => None }),
{
    reveal_strlit("info.fideTC");
    reveal_strlit("info.format");
    reveal_strlit("info.location");
    reveal_strlit("info.players");
    reveal_strlit("info.regulations");
    reveal_strlit("info.standings");
    reveal_strlit("info.tc");
    reveal_strlit("info.timeZone");
    reveal_strlit("info.website");
    assert("info.regulations"@.len() != "info.fideTC"@.len());
    assert("info.regulations"@.len() != "info.format"@.len());
    assert("info.regulations"@.len() != "info.location"@.len());
    assert("info.regulations"@.len() != "info.players"@.len());
    assert("info.regulations"@.len() != "info.standings"@.len());
    assert("info.regulations"@.len() != "info.tc"@.len());
    assert("info.regulations"@.len() != "info.timeZone"@.len());
    assert("info.regulations"@.len() != "info.website"@.len());
    let p0 = crate::http::str_pair("info.format"@, q.format);
    let p1 = crate::http::str_pair("info.tc"@, q.tc);
    let p2 = crate::http::str_pair("info.fideTC"@, q.fide_tc);
    let p3 = crate::http::str_pair("info.timeZone"@, q.time_zone);
    let p4 = crate::http::str_pair("info.location"@, q.location);
    let p5 = crate::http::str_pair("info.players"@, q.players);
    let p6 = crate::http::str_pair("info.website"@, q.website);
    let p7 = crate::http::str_pair("info.standings"@, q.standings);
    let p8 = crate::http::str_pair("info.regulations"@, q.regulations);
    let s0 = p0;
    let s1 = s0 + p1;
    let s2 = s1 + p2;
    let s3 = s2 + p3;
    let s4 = s3 + p4;
    let s5 = s4 + p5;
    let s6 = s5 + p6;
    let s7 = s6 + p7;
    let s8 = s7 + p8;
    assert(q.pairs_view() == s8);
    let v = match q.regulations { Some(v) => Some(v@), None => None };
    crate::text::lemma_extend(s0, p1, "info.regulations"@, None, false);
    crate::text::lemma_extend(s1, p2, "info.regulations"@, None, false);
    crate::text::lemma_extend(s2, p3, "info.regulations"@, None, false);
    crate::text::lemma_extend(s3, p4, "info.regulations"@, None, false);
    crate::text::lemma_extend(s4, p5, "info.regulations"@, None, false);
    crate::text::lemma_extend(s5, p6, "info.regulations"@, None, false);
    crate::text::lemma_extend(s6, p7, "info.regulations"@, None, false);
    crate::text::lemma_extend(s7, p8, "info.regulations"@, v, true);
}

/// The pairs of [`BroadcastTourInfo`] carry each of its fields under that field's own
/// key (`info.format`, `info.tc`, `info.fideTC`, `info.timeZone`, `info.location`, `info.players`, `info.website`, `info.standings`, `info.regulations`), with the value given to it, and a key only when its field is set.
pub proof fn lemma_broadcast_tour_info_carries_fields(q: BroadcastTourInfo)
    ensures
        crate::text::carries(q.pairs_view(), "info.format"@, match q.format { Some(v) => Some(v@), None => None }),
        crate::text::carries(q.pairs_view(), "info.tc"@, match q.tc { Some(v) => Some(v@), None => None }),
        crate::text::carries(q.pairs_view(), "info.fideTC"@, match q.fide_tc { Some(v) => Some(v@), None => None }),
        crate::text::carries(q.pairs_view(), "info.timeZone"@, match q.time_zone { Some(v) => Some(v@), None => None }),
        crate::text::carries(q.pairs_view(), "info.location"@, match q.location { Some(v) => Some(v@), None => None }),
        crate::text::carries(q.pairs_view(), "info.players"@, match q.players { Some(v) => Some(v@), None => None }),
        crate::text::carries(q.pairs_view(), "info.website"@, match q.website { Some(v) => Some(v@), None => None }),
        crate::text::carries(q.pairs_view(), "info.standings"@, match q.standings { Some(v) => Some(v@), None => None }),
        crate::text::carries(q.pairs_view(), "info.regulations"@, match q.regulations { Some(v) => Some(v@), None => None }),
{
    lemma_broadcast_tour_info_info_format(q);
    lemma_broadcast_tour_info_info_tc(q);
    lemma_broadcast_tour_info_info_fide_t_c(q);
    lemma_broadcast_tour_info_info_time_zone(q);
    lemma_broadcast_tour_info_info_location(q);
    lemma_broadcast_tour_info_info_players(q);
    lemma_broadcast_tour_info_info_website(q);
    lemma_broadcast_tour_info_info_standings(q);
    lemma_broadcast_tour_info_info_regulations(q);
}

impl<'a> BroadcastTourInfo<'a> {
    /// The query pairs, in order.
    pub open spec fn pairs_view(self) -> crate::text::Pairs {
        crate::http::str_pair("info.format"@, self.format)
            + crate::http::str_pair("info.tc"@, self.tc)
            + crate::http::str_pair("info.fideTC"@, self.fide_tc)
            + crate::http::str_pair("info.timeZone"@, self.time_zone)
            + crate::http::str_pair("info.location"@, self.location)
            + crate::http::str_pair("info.players"@, self.players)
            + crate::http::str_pair("info.website"@, self.website)
            + crate::http::str_pair("info.standings"@, self.standings)
            + crate::http::str_pair("info.regulations"@, self.regulations)
    }

    /// The query pairs.
    #[verifier::rlimit(40)]
    pub fn pairs(&self) -> (r: Vec<(String, String)>)
        ensures
            r.deep_view() == self.pairs_view(),
    {
        let mut out: Vec<(String, String)> = Vec::new();
        crate::http::push_opt_str(&mut out, "info.format", self.format);
        crate::http::push_opt_str(&mut out, "info.tc", self.tc);
        crate::http::push_opt_str(&mut out, "info.fideTC", self.fide_tc);
        crate::http::push_opt_str(&mut out, "info.timeZone", self.time_zone);
        crate::http::push_opt_str(&mut out, "info.location", self.location);
        crate::http::push_opt_str(&mut out, "info.players", self.players);
        crate::http::push_opt_str(&mut out, "info.website", self.website);
        crate::http::push_opt_str(&mut out, "info.standings", self.standings);
        crate::http::push_opt_str(&mut out, "info.regulations", self.regulations);
        assert(out.deep_view() =~= self.pairs_view());
        out
    }

    /// The query with every filter unset.
    pub open spec fn blank() -> Self {
        BroadcastTourInfo {
            format: None,
            tc: None,
            fide_tc: None,
            time_zone: None,
            location: None,
            players: None,
            website: None,
            standings: None,
            regulations: None,
        }
    }
}

impl<'a> Default for BroadcastTourInfo<'a> {
    /// Every filter unset.
    fn default() -> (r: Self)
        ensures
            r == Self::blank(),
    {
        BroadcastTourInfo {
            format: None,
            tc: None,
            fide_tc: None,
            time_zone: None,
            location: None,
            players: None,
            website: None,
            standings: None,
            regulations: None,
        }
    }
}

impl<'a> BroadcastTourInfo<'a> {

    /// Tournament format, e.g. `"8-player round-robin"`.
    pub fn format(self, format: &'a str) -> (r: Self)
        ensures
            r == (BroadcastTourInfo { format: Some(format), ..self }),
    {
        let mut r = self;
        r.format = Some(format);
        r
    }

    /// Time control, e.g. `"Classical"` or `"Rapid & Blitz"`.
    pub fn tc(self, tc: &'a str) -> (r: Self)
        ensures
            r == (BroadcastTourInfo { tc: Some(tc), ..self }),
    {
        let mut r = self;
        r.tc = Some(tc);
        r
    }

    /// FIDE rating category (`standard`, `rapid`, or `blitz`).
    pub fn fide_tc(self, fide_tc: &'a str) -> (r: Self)
        ensures
            r == (BroadcastTourInfo { fide_tc: Some(fide_tc), ..self }),
    {
        let mut r = self;
        r.fide_tc = Some(fide_tc);
        r
    }

    /// Timezone identifier, e.g. `America/New_York`.
    pub fn time_zone(self, time_zone: &'a str) -> (r: Self)
        ensures
            r == (BroadcastTourInfo { time_zone: Some(time_zone), ..self }),
    {
        let mut r = self;
        r.time_zone = Some(time_zone);
        r
    }

    /// Tournament location.
    pub fn location(self, location: &'a str) -> (r: Self)
        ensures
            r == (BroadcastTourInfo { location: Some(location), ..self }),
    {
        let mut r = self;
        r.location = Some(location);
        r
    }

    /// Up to four of the best participating players.
    pub fn players(self, players: &'a str) -> (r: Self)
        ensures
            r == (BroadcastTourInfo { players: Some(players), ..self }),
    {
        let mut r = self;
        r.players = Some(players);
        r
    }

    /// Official website URL.
    pub fn website(self, website: &'a str) -> (r: Self)
        ensures
            r == (BroadcastTourInfo { website: Some(website), ..self }),
    {
        let mut r = self;
        r.website = Some(website);
        r
    }

    /// Official standings website URL.
    pub fn standings(self, standings: &'a str) -> (r: Self)
        ensures
            r == (BroadcastTourInfo { standings: Some(standings), ..self }),
    {
        let mut r = self;
        r.standings = Some(standings);
        r
    }

    /// External URL to the tournament regulations.
    pub fn regulations(self, regulations: &'a str) -> (r: Self)
        ensures
            r == (BroadcastTourInfo { regulations: Some(regulations), ..self }),
    {
        let mut r = self;
        r.regulations = Some(regulations);
        r
    }
}

/// Display information left unset adds no pair to the form.
pub proof fn lemma_unset_info_adds_nothing()
    ensures
        BroadcastTourInfo::blank().pairs_view() == Seq::<(Seq<char>, Seq<char>)>::empty(),
{
    assert(BroadcastTourInfo::blank().pairs_view() =~= Seq::<(Seq<char>, Seq<char>)>::empty());
}

/// Grouping configuration for a broadcast tournament, serialized as the nested
/// `grouping.*` form keys (`grouping.info.name`, `grouping.info.tours`, and
/// `grouping.scoreGroups[i]`).
#[derive(Debug, Clone)]
pub struct BroadcastGrouping<'a> {
    name: Option<&'a str>,
    tours: Option<&'a str>,
    score_groups: Vec<&'a str>,
}

/// The grouping form carries the group name under `grouping.info.name` and the
/// grouped tours under `grouping.info.tours`, each only when set, and the
/// score group at each position `i` under `grouping.scoreGroups[i]`.
pub proof fn lemma_broadcast_grouping_carries_fields(g: BroadcastGrouping)
    ensures
        crate::text::carries(g.pairs_view(), "grouping.info.name"@, match g.name_of() {
            Some(v) => Some(v@),
            None => None,
        }),
        crate::text::carries(g.pairs_view(), "grouping.info.tours"@, match g.tours_of() {
            Some(v) => Some(v@),
            None => None,
        }),
        forall|i: int|
            0 <= i < g.score_groups_of().len() ==> crate::text::holds_pair(
                g.pairs_view(),
                "grouping.scoreGroups["@ + crate::text::dec_nat(i as nat) + "]"@,
                (#[trigger] g.score_groups_of()[i])@,
            ),
{
    reveal_strlit("grouping.info.name");
    reveal_strlit("grouping.info.tours");
    reveal_strlit("grouping.scoreGroups");
    reveal_strlit("grouping.scoreGroups[");
    reveal_strlit("[");
    let prefix = "grouping.scoreGroups"@;
    assert(prefix + "["@ =~= "grouping.scoreGroups["@);
    let p0 = crate::http::str_pair("grouping.info.name"@, g.name_of());
    let p1 = crate::http::str_pair("grouping.info.tours"@, g.tours_of());
    let p2 = indexed_pairs(prefix, str_views(g.score_groups_of()));
    let s1 = p0 + p1;
    let s2 = s1 + p2;
    assert(g.pairs_view() == s2);
    assert("grouping.info.name"@.len() != "grouping.info.tours"@.len());
    assert forall|i: int| 0 <= i < p2.len() implies (#[trigger] p2[i]).0 != "grouping.info.name"@
        && p2[i].0 != "grouping.info.tours"@ by {
        let k = crate::http::indexed_key(prefix, i as nat);
        assert(p2[i].0 == k);
        assert(k[9] == prefix[9]);
        assert("grouping.info.name"@[9] != prefix[9]);
        assert("grouping.info.tours"@[9] != prefix[9]);
    }
    let vn = match g.name_of() {
        Some(v) => Some(v@),
        None => None,
    };
    let vt = match g.tours_of() {
        Some(v) => Some(v@),
        None => None,
    };
    assert(p0 == crate::text::one_pair("grouping.info.name"@, vn));
    crate::text::lemma_one_pair_carries("grouping.info.name"@, vn);
    crate::text::lemma_extend(p0, p1, "grouping.info.name"@, vn, false);
    crate::text::lemma_extend(s1, p2, "grouping.info.name"@, vn, false);
    crate::text::lemma_extend(p0, p1, "grouping.info.tours"@, vt, true);
    crate::text::lemma_extend(s1, p2, "grouping.info.tours"@, vt, false);
    assert forall|i: int| 0 <= i < g.score_groups_of().len() implies crate::text::holds_pair(
        g.pairs_view(),
        "grouping.scoreGroups["@ + crate::text::dec_nat(i as nat) + "]"@,
        (#[trigger] g.score_groups_of()[i])@,
    ) by {
        let j = s1.len() + i;
        assert(s2[j] == p2[i]);
        assert(crate::http::indexed_key(prefix, i as nat) =~= "grouping.scoreGroups["@ + crate::text::dec_nat(
            i as nat,
        ) + "]"@);
        assert(g.pairs_view()[j] == s2[j]);
        assert(p2[i].1 == g.score_groups_of()[i]@);
        assert(g.pairs_view()[j] == (
            "grouping.scoreGroups["@ + crate::text::dec_nat(i as nat) + "]"@,
            g.score_groups_of()[i]@,
        ));
    }
}

impl<'a> BroadcastGrouping<'a> {
    /// The group name.
    pub closed spec fn name_of(&self) -> Option<&'a str> {
        self.name
    }

    /// The linebreak-separated tournament ids.
    pub closed spec fn tours_of(&self) -> Option<&'a str> {
        self.tours
    }

    /// The score groups, in the order they were added.
    pub closed spec fn score_groups_of(&self) -> Seq<&'a str> {
        self.score_groups@
    }

    /// The `grouping.*` form pairs: the name, the tours, then one indexed pair
    /// per score group.
    pub open spec fn pairs_view(&self) -> Pairs {
        crate::http::str_pair("grouping.info.name"@, self.name_of())
            + crate::http::str_pair("grouping.info.tours"@, self.tours_of())
            + indexed_pairs("grouping.scoreGroups"@, str_views(self.score_groups_of()))
    }

    /// Sets the group name.
    pub fn name(self, name: &'a str) -> (r: Self)
        ensures
            r.name_of() == Some(name),
            r.tours_of() == self.tours_of(),
            r.score_groups_of() == self.score_groups_of(),
    {
        BroadcastGrouping { name: Some(name), ..self }
    }

    /// Sets the linebreak-separated tournament ids to group together.
    pub fn tours(self, tours: &'a str) -> (r: Self)
        ensures
            r.name_of() == self.name_of(),
            r.tours_of() == Some(tours),
            r.score_groups_of() == self.score_groups_of(),
    {
        BroadcastGrouping { tours: Some(tours), ..self }
    }

    /// Adds a score group (comma-separated tournament ids). Call repeatedly for
    /// several groups; ids must be a subset of [`tours`](Self::tours).
    pub fn score_group(self, tours: &'a str) -> (r: Self)
        ensures
            r.name_of() == self.name_of(),
            r.tours_of() == self.tours_of(),
            r.score_groups_of() == self.score_groups_of().push(tours),
    {
        let mut r = self;
        r.score_groups.push(tours);
        r
    }

    /// Appends the `grouping.*` form pairs; adds nothing when unset.
    pub fn append_pairs(&self, out: &mut Vec<(String, String)>)
        ensures
            final(out).deep_view() == old(out).deep_view() + self.pairs_view(),
    {
        let ghost start = out.deep_view();
        crate::http::push_opt_str(out, "grouping.info.name", self.name);
        crate::http::push_opt_str(out, "grouping.info.tours", self.tours);
        push_indexed(out, "grouping.scoreGroups", &self.score_groups);
        assert(out.deep_view() =~= start + self.pairs_view());
    }
}

impl<'a> Default for BroadcastGrouping<'a> {
    /// No name, no tours, no score groups.
    fn default() -> (r: Self)
        ensures
            r.name_of() is None,
            r.tours_of() is None,
            r.score_groups_of() == Seq::<&'a str>::empty(),
    {
        BroadcastGrouping { name: None, tours: None, score_groups: Vec::new() }
    }
}

/// Builder for creating or editing a broadcast tournament.
#[derive(Debug)]
pub struct TourRequest<'a> {
    client: &'a LichessClient,
    edit_id: Option<&'a str>,
    form: TourForm<'a>,
    info: BroadcastTourInfo<'a>,
    tiebreaks: Vec<&'a str>,
    grouping: BroadcastGrouping<'a>,
}

/// A tournament edit is posted to `/broadcast/{id}/edit` with its id; a new
/// tournament to `/broadcast/new`.
pub proof fn lemma_tour_paths(id: &str)
    ensures
        TourRequest::path_view(Some(id)) == seq!['/', 'b', 'r', 'o', 'a', 'd', 'c', 'a', 's', 't', '/']
            + crate::text::segment_text(id@) + seq!['/', 'e', 'd', 'i', 't'],
        TourRequest::path_view(None) == seq!['/', 'b', 'r', 'o', 'a', 'd', 'c', 'a', 's', 't', '/', 'n', 'e', 'w'],
{
    reveal_strlit("/broadcast/");
    reveal_strlit("/edit");
    reveal_strlit("/broadcast/new");
    assert("/broadcast/"@ =~= seq!['/', 'b', 'r', 'o', 'a', 'd', 'c', 'a', 's', 't', '/']);
    assert("/edit"@ =~= seq!['/', 'e', 'd', 'i', 't']);
    assert("/broadcast/new"@ =~= seq!['/', 'b', 'r', 'o', 'a', 'd', 'c', 'a', 's', 't', '/', 'n', 'e', 'w']);
}

/// The extra fields of a tournament travel under their own keys: the
/// tiebreak at each position `i` under `tiebreaks[i]`, and the grouping's
/// name, tours and score groups under their `grouping.*` keys.
pub proof fn lemma_tour_extra_carries_fields(r: TourRequest)
    ensures
        forall|i: int|
            0 <= i < r.tiebreaks_of()@.len() ==> crate::text::holds_pair(
                r.extra_view(),
                "tiebreaks["@ + crate::text::dec_nat(i as nat) + "]"@,
                (#[trigger] r.tiebreaks_of()@[i])@,
            ),
        crate::text::carries(r.extra_view(), "grouping.info.name"@, match r.grouping_of().name_of() {
            Some(v) => Some(v@),
            None => None,
        }),
        crate::text::carries(r.extra_view(), "grouping.info.tours"@, match r.grouping_of().tours_of() {
            Some(v) => Some(v@),
            None => None,
        }),
        forall|i: int|
            0 <= i < r.grouping_of().score_groups_of().len() ==> crate::text::holds_pair(
                r.extra_view(),
                "grouping.scoreGroups["@ + crate::text::dec_nat(i as nat) + "]"@,
                (#[trigger] r.grouping_of().score_groups_of()[i])@,
            ),
{
    reveal_strlit("tiebreaks");
    reveal_strlit("tiebreaks[");
    reveal_strlit("[");
    reveal_strlit("grouping.info.name");
    reveal_strlit("grouping.info.tours");
    let g = r.grouping_of();
    let prefix = "tiebreaks"@;
    assert(prefix + "["@ =~= "tiebreaks["@);
    let a = indexed_pairs(prefix, str_views(r.tiebreaks_of()@));
    let b = g.pairs_view();
    assert(r.extra_view() == a + b);
    lemma_broadcast_grouping_carries_fields(g);
    assert forall|i: int| 0 <= i < a.len() implies (#[trigger] a[i]).0 != "grouping.info.name"@
        && a[i].0 != "grouping.info.tours"@ by {
        let k = crate::http::indexed_key(prefix, i as nat);
        assert(a[i].0 == k);
        assert(k[0] == prefix[0]);
        assert("grouping.info.name"@[0] != prefix[0]);
        assert("grouping.info.tours"@[0] != prefix[0]);
    }
    let vn = match g.name_of() {
        Some(v) => Some(v@),
        None => None,
    };
    let vt = match g.tours_of() {
        Some(v) => Some(v@),
        None => None,
    };
    crate::text::lemma_lacks_then_carries(a, b, "grouping.info.name"@, vn);
    crate::text::lemma_lacks_then_carries(a, b, "grouping.info.tours"@, vt);
    assert forall|i: int| 0 <= i < r.tiebreaks_of()@.len() implies crate::text::holds_pair(
        r.extra_view(),
        "tiebreaks["@ + crate::text::dec_nat(i as nat) + "]"@,
        (#[trigger] r.tiebreaks_of()@[i])@,
    ) by {
        assert((a + b)[i] == a[i]);
        assert(crate::http::indexed_key(prefix, i as nat) =~= "tiebreaks["@ + crate::text::dec_nat(i as nat)
            + "]"@);
        assert(a[i].1 == r.tiebreaks_of()@[i]@);
        assert(r.extra_view()[i] == (
            "tiebreaks["@ + crate::text::dec_nat(i as nat) + "]"@,
            r.tiebreaks_of()@[i]@,
        ));
    }
    assert forall|i: int| 0 <= i < g.score_groups_of().len() implies crate::text::holds_pair(
        r.extra_view(),
        "grouping.scoreGroups["@ + crate::text::dec_nat(i as nat) + "]"@,
        (#[trigger] g.score_groups_of()[i])@,
    ) by {
        let key = "grouping.scoreGroups["@ + crate::text::dec_nat(i as nat) + "]"@;
        assert(crate::text::holds_pair(b, key, g.score_groups_of()[i]@));
        let j = choose|j: int| 0 <= j < b.len() && #[trigger] b[j] == (key, g.score_groups_of()[i]@);
        assert((a + b)[a.len() + j] == b[j]);
        assert(r.extra_view()[a.len() + j] == (key, g.score_groups_of()[i]@));
    }
}

impl<'a> TourRequest<'a> {
    /// The client the builder is bound to.
    pub closed spec fn client_of(&self) -> &'a LichessClient {
        self.client
    }

    /// The tournament to edit, or `None` to create one.
    pub closed spec fn edit_id_of(&self) -> Option<&'a str> {
        self.edit_id
    }

    /// The flat form fields.
    pub closed spec fn form_of(&self) -> TourForm<'a> {
        self.form
    }

    /// The display information.
    pub closed spec fn info_of(&self) -> BroadcastTourInfo<'a> {
        self.info
    }

    /// The tiebreak codes.
    pub closed spec fn tiebreaks_of(&self) -> Vec<&'a str> {
        self.tiebreaks
    }

    /// The grouping configuration.
    pub closed spec fn grouping_of(&self) -> BroadcastGrouping<'a> {
        self.grouping
    }

    /// Creates the request builder.
    pub fn new(client: &'a LichessClient, edit_id: Option<&'a str>, name: &'a str) -> (r: Self)
        ensures
            r.client_of() == client,
            r.edit_id_of() == edit_id,
            r.form_of() == TourForm::named(name),
            r.info_of() == BroadcastTourInfo::blank(),
            r.tiebreaks_of()@ == Seq::<&'a str>::empty(),
            r.grouping_of().name_of() is None,
            r.grouping_of().tours_of() is None,
            r.grouping_of().score_groups_of() == Seq::<&'a str>::empty(),
    {
        TourRequest {
            client,
            edit_id,
            form: TourForm {
                name,
                visibility: None,
                markdown: None,
                show_scores: None,
                show_rating_diffs: None,
                team_table: None,
                players: None,
                teams: None,
                tier: None,
            },
            info: BroadcastTourInfo::default(),
            tiebreaks: Vec::new(),
            grouping: BroadcastGrouping::default(),
        }
    }

    /// Sets the structured display information.
    pub fn info(self, info: BroadcastTourInfo<'a>) -> (r: Self)
        ensures
            r.info_of() == info,
            r.client_of() == self.client_of(),
            r.edit_id_of() == self.edit_id_of(),
            r.form_of() == self.form_of(),
            r.tiebreaks_of() == self.tiebreaks_of(),
            r.grouping_of() == self.grouping_of(),
    {
        let mut r = self;
        r.info = info;
        r
    }

    /// Sets the visibility (`public`, `unlisted`, or `private`).
    pub fn visibility(self, visibility: &'a str) -> (r: Self)
        ensures
            r.form_of() == (TourForm { visibility: Some(visibility), ..self.form_of() }),
            r.client_of() == self.client_of(),
            r.edit_id_of() == self.edit_id_of(),
            r.info_of() == self.info_of(),
            r.tiebreaks_of() == self.tiebreaks_of(),
            r.grouping_of() == self.grouping_of(),
    {
        let mut r = self;
        r.form.visibility = Some(visibility);
        r
    }

    /// Sets a long Markdown description.
    pub fn markdown(self, markdown: &'a str) -> (r: Self)
        ensures
            r.form_of() == (TourForm { markdown: Some(markdown), ..self.form_of() }),
            r.client_of() == self.client_of(),
            r.edit_id_of() == self.edit_id_of(),
            r.info_of() == self.info_of(),
            r.tiebreaks_of() == self.tiebreaks_of(),
            r.grouping_of() == self.grouping_of(),
    {
        let mut r = self;
        r.form.markdown = Some(markdown);
        r
    }

    /// Sets whether to show player scores.
    pub fn show_scores(self, value: bool) -> (r: Self)
        ensures
            r.form_of() == (TourForm { show_scores: Some(value), ..self.form_of() }),
            r.client_of() == self.client_of(),
            r.edit_id_of() == self.edit_id_of(),
            r.info_of() == self.info_of(),
            r.tiebreaks_of() == self.tiebreaks_of(),
            r.grouping_of() == self.grouping_of(),
    {
        let mut r = self;
        r.form.show_scores = Some(value);
        r
    }

    /// Sets whether to show rating differences.
    pub fn show_rating_diffs(self, value: bool) -> (r: Self)
        ensures
            r.form_of() == (TourForm { show_rating_diffs: Some(value), ..self.form_of() }),
            r.client_of() == self.client_of(),
            r.edit_id_of() == self.edit_id_of(),
            r.info_of() == self.info_of(),
            r.tiebreaks_of() == self.tiebreaks_of(),
            r.grouping_of() == self.grouping_of(),
    {
        let mut r = self;
        r.form.show_rating_diffs = Some(value);
        r
    }

    /// Sets whether to display a team table.
    pub fn team_table(self, value: bool) -> (r: Self)
        ensures
            r.form_of() == (TourForm { team_table: Some(value), ..self.form_of() }),
            r.client_of() == self.client_of(),
            r.edit_id_of() == self.edit_id_of(),
            r.info_of() == self.info_of(),
            r.tiebreaks_of() == self.tiebreaks_of(),
            r.grouping_of() == self.grouping_of(),
    {
        let mut r = self;
        r.form.team_table = Some(value);
        r
    }

    /// Sets player tags / overrides (one line per player).
    pub fn players(self, players: &'a str) -> (r: Self)
        ensures
            r.form_of() == (TourForm { players: Some(players), ..self.form_of() }),
            r.client_of() == self.client_of(),
            r.edit_id_of() == self.edit_id_of(),
            r.info_of() == self.info_of(),
            r.tiebreaks_of() == self.tiebreaks_of(),
            r.grouping_of() == self.grouping_of(),
    {
        let mut r = self;
        r.form.players = Some(players);
        r
    }

    /// Assigns players to teams (one line per player).
    pub fn teams(self, teams: &'a str) -> (r: Self)
        ensures
            r.form_of() == (TourForm { teams: Some(teams), ..self.form_of() }),
            r.client_of() == self.client_of(),
            r.edit_id_of() == self.edit_id_of(),
            r.info_of() == self.info_of(),
            r.tiebreaks_of() == self.tiebreaks_of(),
            r.grouping_of() == self.grouping_of(),
    {
        let mut r = self;
        r.form.teams = Some(teams);
        r
    }

    /// Sets the broadcast tier (`3`, `4`, or `5`).
    pub fn tier(self, tier: u8) -> (r: Self)
        ensures
            r.form_of() == (TourForm { tier: Some(tier), ..self.form_of() }),
            r.client_of() == self.client_of(),
            r.edit_id_of() == self.edit_id_of(),
            r.info_of() == self.info_of(),
            r.tiebreaks_of() == self.tiebreaks_of(),
            r.grouping_of() == self.grouping_of(),
    {
        let mut r = self;
        r.form.tier = Some(tier);
        r
    }

    /// Sets the tiebreak ordering (extended tiebreak codes, e.g. `BH`, `AOB`;
    /// up to 5).
    pub fn tiebreaks(self, tiebreaks: &[&'a str]) -> (r: Self)
        ensures
            r.tiebreaks_of()@ == tiebreaks@,
            r.client_of() == self.client_of(),
            r.edit_id_of() == self.edit_id_of(),
            r.form_of() == self.form_of(),
            r.info_of() == self.info_of(),
            r.grouping_of() == self.grouping_of(),
    {
        let mut codes: Vec<&'a str> = Vec::new();
        let mut i: usize = 0;
        while i < tiebreaks.len()
            invariant
                i <= tiebreaks@.len(),
                codes@ =~= tiebreaks@.take(i as int),
            decreases tiebreaks@.len() - i,
        {
            codes.push(tiebreaks[i]);
            i = i + 1;
        }
        assert(tiebreaks@.take(tiebreaks@.len() as int) =~= tiebreaks@);
        let mut r = self;
        r.tiebreaks = codes;
        r
    }

    /// Sets the grouping configuration (group this broadcast with others).
    pub fn grouping(self, grouping: BroadcastGrouping<'a>) -> (r: Self)
        ensures
            r.grouping_of() == grouping,
            r.client_of() == self.client_of(),
            r.edit_id_of() == self.edit_id_of(),
            r.form_of() == self.form_of(),
            r.info_of() == self.info_of(),
            r.tiebreaks_of() == self.tiebreaks_of(),
    {
        let mut r = self;
        r.grouping = grouping;
        r
    }

    /// The indexed `tiebreaks[i]` pairs and then the `grouping.*` pairs.
    pub open spec fn extra_view(&self) -> Pairs {
        indexed_pairs("tiebreaks"@, str_views(self.tiebreaks_of()@))
            + self.grouping_of().pairs_view()
    }

    /// Builds the array/nested `tiebreaks[i]` + `grouping.*` form pairs.
    pub fn extra_pairs(&self) -> (r: Vec<(String, String)>)
        ensures
            r.deep_view() == self.extra_view(),
    {
        let mut pairs: Vec<(String, String)> = Vec::new();
        push_indexed(&mut pairs, "tiebreaks", &self.tiebreaks);
        self.grouping.append_pairs(&mut pairs);
        assert(pairs.deep_view() =~= self.extra_view());
        pairs
    }

    /// The path a creation or an edit is posted to.
    pub open spec fn path_view(edit_id: Option<&str>) -> Seq<char> {
        match edit_id {
            Some(id) => "/broadcast/"@ + crate::text::segment_text(id@) + "/edit"@,
            None => "/broadcast/new"@,
        }
    }

    /// Creates or updates the tournament; the form holds the flat fields, the
    /// display information, the tiebreaks and the grouping, in that order.
    pub fn send(self) -> (r: ApiRequest)
        ensures
            r@ == crate::http::bare(Method::Post, Host::Default, Self::path_view(self.edit_id_of()))
                .with_body(
                crate::http::BodyView::Form(
                    self.form_of().pairs_view() + self.info_of().pairs_view() + self.extra_view(),
                ),
            ),
    {
        let path = match self.edit_id {
            Some(id) => crate::http::path1("/broadcast/", id, "/edit"),
            None => String::from_str("/broadcast/new"),
        };
        let mut extra = self.extra_pairs();
        let mut form = self.form.pairs();
        let mut info = self.info.pairs();
        let ghost f = form.deep_view();
        let ghost i = info.deep_view();
        let ghost e = extra.deep_view();
        form.append(&mut info);
        form.append(&mut extra);
        assert(form.deep_view() =~= f + i + e);
        self.client.request(Method::Post, Host::Default, path).form(form)
    }
}

} // verus!
