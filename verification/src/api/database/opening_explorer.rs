//! The Opening Explorer API: aggregate statistics for positions.
//!
//! Served from `explorer.lichess.org`. Reached through
//! [`LichessClient::opening_explorer`].

use vstd::prelude::*;

use crate::client::LichessClient;
use crate::config::Host;
use crate::http::{ApiRequest, Accept, Method};
use crate::model::{LichessColor, LichessSpeed};
use crate::text::{join_seqs, str_views, Pairs};

verus! {

/// A player-rating band the Lichess games explorer can be filtered to. Each
/// value is the inclusive lower bound of a 200-point band (`R0` = below 1000,
/// `R2500` = 2500 and above).
#[derive(Debug, Clone, Copy, PartialEq, Eq, Structural)]
#[non_exhaustive]
pub enum RatingGroup {
    /// Below 1000.
    R0,
    /// 1000–1199.
    R1000,
    /// 1200–1399.
    R1200,
    /// 1400–1599.
    R1400,
    /// 1600–1799.
    R1600,
    /// 1800–1999.
    R1800,
    /// 2000–2199.
    R2000,
    /// 2200–2499.
    R2200,
    /// 2500 and above.
    R2500,
}

impl RatingGroup {
    /// Every rating band, in ascending order — the full set the API accepts.
    pub const ALL: [RatingGroup; 9] = [
        RatingGroup::R0,
        RatingGroup::R1000,
        RatingGroup::R1200,
        RatingGroup::R1400,
        RatingGroup::R1600,
        RatingGroup::R1800,
        RatingGroup::R2000,
        RatingGroup::R2200,
        RatingGroup::R2500,
    ];

    /// The lower bound of each band.
    pub open spec fn bound(self) -> u16 {
        match self {
            RatingGroup::R0 => 0,
            RatingGroup::R1000 => 1000,
            RatingGroup::R1200 => 1200,
            RatingGroup::R1400 => 1400,
            RatingGroup::R1600 => 1600,
            RatingGroup::R1800 => 1800,
            RatingGroup::R2000 => 2000,
            RatingGroup::R2200 => 2200,
            RatingGroup::R2500 => 2500,
        }
    }

    /// The wire value (the band's lower bound), e.g. `1600`.
    pub fn as_u16(self) -> (r: u16)
        ensures
            r == self.bound(),
    {
        match self {
            RatingGroup::R0 => 0,
            RatingGroup::R1000 => 1000,
            RatingGroup::R1200 => 1200,
            RatingGroup::R1400 => 1400,
            RatingGroup::R1600 => 1600,
            RatingGroup::R1800 => 1800,
            RatingGroup::R2000 => 2000,
            RatingGroup::R2200 => 2200,
            RatingGroup::R2500 => 2500,
        }
    }

    /// Parses a band from its wire value, or `None` if it isn't a valid bucket.
    pub fn from_u16(value: u16) -> (r: Option<RatingGroup>)
        ensures
            r == rating_group_for(value),
    {
        let all = RatingGroup::ALL;
        let mut i: usize = 0;
        while i < 9
            invariant
                i <= 9,
                all@ == RatingGroup::ALL@,
                forall|k: int| 0 <= k < i ==> (#[trigger] all@[k]).bound() != value,
            decreases 9 - i,
        {
            if all[i].as_u16() == value {
                proof {
                    lemma_rating_group_round_trip(all[i as int], choose|g: RatingGroup| g.bound() == value);
                }
                return Some(all[i]);
            }
            i = i + 1;
        }
        proof {
            assert forall|g: RatingGroup| g.bound() != value by {
                lemma_all_lists_every_group(g);
            }
        }
        None
    }
}

/// The band whose lower bound is `value`, if there is one.
pub open spec fn rating_group_for(value: u16) -> Option<RatingGroup> {
    if exists|g: RatingGroup| g.bound() == value {
        Some(choose|g: RatingGroup| g.bound() == value)
    } else {
        None
    }
}

/// Parsing a band's wire value gives the band back.
pub proof fn lemma_rating_group_for_bound(g: RatingGroup)
    ensures
        rating_group_for(g.bound()) == Some(g),
{
    let h = choose|h: RatingGroup| h.bound() == g.bound();
    lemma_rating_group_round_trip(g, h);
}

/// `RatingGroup::ALL` lists every band.
pub proof fn lemma_all_lists_every_group(g: RatingGroup)
    ensures
        exists|i: int| 0 <= i < RatingGroup::ALL@.len() && RatingGroup::ALL@[i] == g,
{
    match g {
        RatingGroup::R0 => assert(RatingGroup::ALL@[0] == g),
        RatingGroup::R1000 => assert(RatingGroup::ALL@[1] == g),
        RatingGroup::R1200 => assert(RatingGroup::ALL@[2] == g),
        RatingGroup::R1400 => assert(RatingGroup::ALL@[3] == g),
        RatingGroup::R1600 => assert(RatingGroup::ALL@[4] == g),
        RatingGroup::R1800 => assert(RatingGroup::ALL@[5] == g),
        RatingGroup::R2000 => assert(RatingGroup::ALL@[6] == g),
        RatingGroup::R2200 => assert(RatingGroup::ALL@[7] == g),
        RatingGroup::R2500 => assert(RatingGroup::ALL@[8] == g),
    }
}

/// Each band is sent as its lower bound (`R0` as `0`, `R1000` as `1000`, ...
/// `R2500` as `2500`), and the bands of `RatingGroup::ALL` ascend strictly.
pub proof fn lemma_rating_bounds()
    ensures
        RatingGroup::R0.bound() == 0,
        RatingGroup::R1000.bound() == 1000,
        RatingGroup::R1200.bound() == 1200,
        RatingGroup::R1400.bound() == 1400,
        RatingGroup::R1600.bound() == 1600,
        RatingGroup::R1800.bound() == 1800,
        RatingGroup::R2000.bound() == 2000,
        RatingGroup::R2200.bound() == 2200,
        RatingGroup::R2500.bound() == 2500,
        forall|i: int, j: int|
            0 <= i < j < 9 ==> (#[trigger] RatingGroup::ALL@[i]).bound() < (#[trigger] RatingGroup::ALL@[j]).bound(),
{
}

/// Distinct bands have distinct wire values.
pub proof fn lemma_rating_group_round_trip(g: RatingGroup, h: RatingGroup)
    ensures
        g.bound() == h.bound() ==> g == h,
{
}

/// A game mode the player explorer can be filtered to.
#[derive(Debug, Clone, Copy, PartialEq, Eq, Structural)]
pub enum ExplorerMode {
    /// Casual (unrated) games.
    Casual,
    /// Rated games.
    Rated,
}

/// The wire text of each [`ExplorerMode`], as the API spells it: `Casual` is `casual`,
/// `Rated` is `rated`.
pub proof fn lemma_explorer_mode_wire_texts()
    ensures
        ExplorerMode::Casual.wire() == seq!['c', 'a', 's', 'u', 'a', 'l'],
        ExplorerMode::Rated.wire() == seq!['r', 'a', 't', 'e', 'd'],
{
    reveal_strlit("casual");
    reveal_strlit("rated");
    assert(ExplorerMode::Casual.wire() =~= seq!['c', 'a', 's', 'u', 'a', 'l']);
    assert(ExplorerMode::Rated.wire() =~= seq!['r', 'a', 't', 'e', 'd']);
}

impl ExplorerMode {
    /// The wire representation of each mode.
    pub open spec fn wire(self) -> Seq<char> {
        match self {
            ExplorerMode::Casual => "casual"@,
            ExplorerMode::Rated => "rated"@,
        }
    }

    /// The wire representation, `"casual"` or `"rated"`.
    pub fn as_str(self) -> (r: &'static str)
        ensures
            r@ == self.wire(),
    {
        match self {
            ExplorerMode::Casual => "casual",
            ExplorerMode::Rated => "rated",
        }
    }
}

/// The comma-joined wire form of a filter, or `None` when it is empty (an
/// empty filter means "no restriction", so the parameter is omitted).
pub open spec fn csv(parts: Seq<Seq<char>>) -> Option<Seq<char>> {
    let joined = join_seqs(parts, ","@);
    if joined.len() == 0 {
        None
    } else {
        Some(joined)
    }
}

/// A comma-joined filter splits back at the commas into its parts, in order,
/// when no part holds a comma; it is left out only when it joins to nothing.
pub proof fn lemma_csv_splits_back(parts: Seq<Seq<char>>)
    requires
        parts.len() >= 1,
        forall|i: int| 0 <= i < parts.len() ==> !crate::text::holds_char(#[trigger] parts[i], ','),
    ensures
        csv(parts) matches Some(t) ==> crate::text::split_on(t, ',') == parts,
        csv(parts) is None <==> join_seqs(parts, ","@).len() == 0,
{
    reveal_strlit(",");
    assert(","@ =~= seq![',']);
    crate::text::lemma_split_join(parts, ',');
}

/// The view of an optional owned string.
pub open spec fn opt_text(o: Option<String>) -> Option<Seq<char>> {
    match o {
        Some(s) => Some(s@),
        None => None,
    }
}

/// Comma-joins string parts into the wire form, or `None` when the joined
/// text is empty.
pub fn join_csv(parts: &[&str]) -> (r: Option<String>)
    ensures
        opt_text(r) == csv(str_views(parts@)),
{
    let joined = crate::text::join_strs(parts, ",");
    if joined.as_str().is_empty() {
        None
    } else {
        Some(joined)
    }
}

/// The wire values of a list of speeds.
pub open spec fn speed_views(speeds: Seq<LichessSpeed>) -> Seq<Seq<char>> {
    speeds.map_values(|s: LichessSpeed| s.wire())
}

/// The wire values of a list of rating bands, in decimal.
pub open spec fn rating_views(ratings: Seq<RatingGroup>) -> Seq<Seq<char>> {
    ratings.map_values(|g: RatingGroup| crate::text::dec_nat(g.bound() as nat))
}

/// The wire values of a list of modes.
pub open spec fn mode_views(modes: Seq<ExplorerMode>) -> Seq<Seq<char>> {
    modes.map_values(|m: ExplorerMode| m.wire())
}

/// The speeds filter in wire form.
pub fn speeds_csv(speeds: &[LichessSpeed]) -> (r: Option<String>)
    ensures
        opt_text(r) == csv(speed_views(speeds@)),
{
    let mut parts: Vec<&str> = Vec::new();
    let mut i: usize = 0;
    while i < speeds.len()
        invariant
            i <= speeds@.len(),
            parts@.len() == i,
            forall|k: int| 0 <= k < i ==> (#[trigger] parts@[k])@ == speeds@[k].wire(),
        decreases speeds@.len() - i,
    {
        parts.push(speeds[i].as_str());
        i = i + 1;
    }
    assert(str_views(parts@) =~= speed_views(speeds@));
    join_csv(parts.as_slice())
}

/// The modes filter in wire form.
pub fn modes_csv(modes: &[ExplorerMode]) -> (r: Option<String>)
    ensures
        opt_text(r) == csv(mode_views(modes@)),
{
    let mut parts: Vec<&str> = Vec::new();
    let mut i: usize = 0;
    while i < modes.len()
        invariant
            i <= modes@.len(),
            parts@.len() == i,
            forall|k: int| 0 <= k < i ==> (#[trigger] parts@[k])@ == modes@[k].wire(),
        decreases modes@.len() - i,
    {
        parts.push(modes[i].as_str());
        i = i + 1;
    }
    assert(str_views(parts@) =~= mode_views(modes@));
    join_csv(parts.as_slice())
}

/// The rating filter in wire form.
pub fn ratings_csv(ratings: &[RatingGroup]) -> (r: Option<String>)
    ensures
        opt_text(r) == csv(rating_views(ratings@)),
{
    let mut values: Vec<String> = Vec::new();
    let mut i: usize = 0;
    while i < ratings.len()
        invariant
            i <= ratings@.len(),
            values@.len() == i,
            forall|k: int| 0 <= k < i ==> (#[trigger] values@[k])@ == crate::text::dec_nat(
                    ratings@[k].bound() as nat,
                ),
        decreases ratings@.len() - i,
    {
        values.push(crate::text::u64_to_string(ratings[i].as_u16() as u64));
        i = i + 1;
    }
    let mut parts: Vec<&str> = Vec::new();
    let mut j: usize = 0;
    while j < values.len()
        invariant
            j <= values@.len(),
            values@.len() == ratings@.len(),
            forall|k: int| 0 <= k < values@.len() ==> (#[trigger] values@[k])@ == crate::text::dec_nat(
                    ratings@[k].bound() as nat,
                ),
            parts@.len() == j,
            forall|k: int| 0 <= k < j ==> (#[trigger] parts@[k])@ == values@[k]@,
        decreases values@.len() - j,
    {
        parts.push(values[j].as_str());
        j = j + 1;
    }
    assert(str_views(parts@) =~= rating_views(ratings@));
    join_csv(parts.as_slice())
}

/// The `/masters` query. `since`/`until` are calendar years.
#[derive(Debug, Clone)]
pub struct MastersQuery<'a> {
    /// The position, as FEN.
    pub fen: &'a str,
    /// Comma-separated UCI moves to apply first.
    pub play: Option<&'a str>,
    /// Only games from this year or later.
    pub since: Option<u16>,
    /// Only games from this year or earlier.
    pub until: Option<u16>,
    /// Number of most-common moves to return.
    pub moves: Option<u32>,
    /// Number of top games to return.
    pub top_games: Option<u32>,
}

/// The pairs of [`MastersQuery`] carry its field under `fen`.
proof fn lemma_masters_query_fen(q: MastersQuery)
    ensures
        crate::text::carries(q.pairs_view(), "fen"@, Some(q.fen@)),
{
    reveal_strlit("fen");
    reveal_strlit("moves");
    reveal_strlit("play");
    reveal_strlit("since");
    reveal_strlit("topGames");
    reveal_strlit("until");
    assert("fen"@.len() != "moves"@.len());
    assert("fen"@.len() != "play"@.len());
    assert("fen"@.len() != "since"@.len());
    assert("fen"@.len() != "topGames"@.len());
    assert("fen"@.len() != "until"@.len());
    let p0 = seq![("fen"@, q.fen@)];
    let p1 = crate::http::str_pair("play"@, q.play);
    let p2 = crate::http::nat_pair("since"@, crate::http::opt_u16(q.since));
    let p3 = crate::http::nat_pair("until"@, crate::http::opt_u16(q.until));
    let p4 = crate::http::nat_pair("moves"@, crate::http::opt_u32(q.moves));
    let p5 = crate::http::nat_pair("topGames"@, crate::http::opt_u32(q.top_games));
    let s0 = p0;
    let s1 = s0 + p1;
    let s2 = s1 + p2;
    let s3 = s2 + p3;
    let s4 = s3 + p4;
    let s5 = s4 + p5;
    assert(q.pairs_view() == s5);
    let v = Some(q.fen@);
    assert(p0 == crate::text::one_pair("fen"@, v));
    crate::text::lemma_one_pair_carries("fen"@, v);
    crate::text::lemma_extend(s0, p1, "fen"@, v, false);
    crate::text::lemma_extend(s1, p2, "fen"@, v, false);
    crate::text::lemma_extend(s2, p3, "fen"@, v, false);
    crate::text::lemma_extend(s3, p4, "fen"@, v, false);
    crate::text::lemma_extend(s4, p5, "fen"@, v, false);
}

/// The pairs of [`MastersQuery`] carry its field under `play`.
proof fn lemma_masters_query_play(q: MastersQuery)
    ensures
        crate::text::carries(q.pairs_view(), "play"@, match q.play { Some(v) => Some(v@), None => None }),
{
    reveal_strlit("fen");
    reveal_strlit("moves");
    reveal_strlit("play");
    reveal_strlit("since");
    reveal_strlit("topGames");
    reveal_strlit("until");
    assert("play"@.len() != "fen"@.len());
    assert("play"@.len() != "moves"@.len());
    assert("play"@.len() != "since"@.len());
    assert("play"@.len() != "topGames"@.len());
    assert("play"@.len() != "until"@.len());
    let p0 = seq![("fen"@, q.fen@)];
    let p1 = crate::http::str_pair("play"@, q.play);
    let p2 = crate::http::nat_pair("since"@, crate::http::opt_u16(q.since));
    let p3 = crate::http::nat_pair("until"@, crate::http::opt_u16(q.until));
    let p4 = crate::http::nat_pair("moves"@, crate::http::opt_u32(q.moves));
    let p5 = crate::http::nat_pair("topGames"@, crate::http::opt_u32(q.top_games));
    let s0 = p0;
    let s1 = s0 + p1;
    let s2 = s1 + p2;
    let s3 = s2 + p3;
    let s4 = s3 + p4;
    let s5 = s4 + p5;
    assert(q.pairs_view() == s5);
    let v = match q.play { Some(v) => Some(v@), None => None };
    crate::text::lemma_extend(s0, p1, "play"@, v, true);
    crate::text::lemma_extend(s1, p2, "play"@, v, false);
    crate::text::lemma_extend(s2, p3, "play"@, v, false);
    crate::text::lemma_extend(s3, p4, "play"@, v, false);
    crate::text::lemma_extend(s4, p5, "play"@, v, false);
}

/// The pairs of [`MastersQuery`] carry its field under `since`.
proof fn lemma_masters_query_since(q: MastersQuery)
    ensures
        crate::text::carries(q.pairs_view(), "since"@, match q.since { Some(x) => Some(crate::text::dec_nat(x as nat)), None => None }),
{
    reveal_strlit("fen");
    reveal_strlit("moves");
    reveal_strlit("play");
    reveal_strlit("since");
    reveal_strlit("topGames");
    reveal_strlit("until");
    assert("since"@.len() != "fen"@.len());
    assert("since"@[0] != "moves"@[0]);
    assert("since"@.len() != "play"@.len());
    assert("since"@.len() != "topGames"@.len());
    assert("since"@[0] != "until"@[0]);
    let p0 = seq![("fen"@, q.fen@)];
    let p1 = crate::http::str_pair("play"@, q.play);
    let p2 = crate::http::nat_pair("since"@, crate::http::opt_u16(q.since));
    let p3 = crate::http::nat_pair("until"@, crate::http::opt_u16(q.until));
    let p4 = crate::http::nat_pair("moves"@, crate::http::opt_u32(q.moves));
    let p5 = crate::http::nat_pair("topGames"@, crate::http::opt_u32(q.top_games));
    let s0 = p0;
    let s1 = s0 + p1;
    let s2 = s1 + p2;
    let s3 = s2 + p3;
    let s4 = s3 + p4;
    let s5 = s4 + p5;
    assert(q.pairs_view() == s5);
    let v = match q.since { Some(x) => Some(crate::text::dec_nat(x as nat)), None => None };
    crate::text::lemma_extend(s0, p1, "since"@, None, false);
    crate::text::lemma_extend(s1, p2, "since"@, v, true);
    crate::text::lemma_extend(s2, p3, "since"@, v, false);
    crate::text::lemma_extend(s3, p4, "since"@, v, false);
    crate::text::lemma_extend(s4, p5, "since"@, v, false);
}

/// The pairs of [`MastersQuery`] carry its field under `until`.
proof fn lemma_masters_query_until(q: MastersQuery)
    ensures
        crate::text::carries(q.pairs_view(), "until"@, match q.until { Some(x) => Some(crate::text::dec_nat(x as nat)), None => None }),
{
    reveal_strlit("fen");
    reveal_strlit("moves");
    reveal_strlit("play");
    reveal_strlit("since");
    reveal_strlit("topGames");
    reveal_strlit("until");
    assert("until"@.len() != "fen"@.len());
    assert("until"@[0] != "moves"@[0]);
    assert("until"@.len() != "play"@.len());
    assert("until"@[0] != "since"@[0]);
    assert("until"@.len() != "topGames"@.len());
    let p0 = seq![("fen"@, q.fen@)];
    let p1 = crate::http::str_pair("play"@, q.play);
    let p2 = crate::http::nat_pair("since"@, crate::http::opt_u16(q.since));
    let p3 = crate::http::nat_pair("until"@, crate::http::opt_u16(q.until));
    let p4 = crate::http::nat_pair("moves"@, crate::http::opt_u32(q.moves));
    let p5 = crate::http::nat_pair("topGames"@, crate::http::opt_u32(q.top_games));
    let s0 = p0;
    let s1 = s0 + p1;
    let s2 = s1 + p2;
    let s3 = s2 + p3;
    let s4 = s3 + p4;
    let s5 = s4 + p5;
    assert(q.pairs_view() == s5);
    let v = match q.until { Some(x) => Some(crate::text::dec_nat(x as nat)), None => None };
    crate::text::lemma_extend(s0, p1, "until"@, None, false);
    crate::text::lemma_extend(s1, p2, "until"@, None, false);
    crate::text::lemma_extend(s2, p3, "until"@, v, true);
    crate::text::lemma_extend(s3, p4, "until"@, v, false);
    crate::text::lemma_extend(s4, p5, "until"@, v, false);
}

/// The pairs of [`MastersQuery`] carry its field under `moves`.
proof fn lemma_masters_query_moves(q: MastersQuery)
    ensures
        crate::text::carries(q.pairs_view(), "moves"@, match q.moves { Some(x) => Some(crate::text::dec_nat(x as nat)), None => None }),
{
    reveal_strlit("fen");
    reveal_strlit("moves");
    reveal_strlit("play");
    reveal_strlit("since");
    reveal_strlit("topGames");
    reveal_strlit("until");
    assert("moves"@.len() != "fen"@.len());
    assert("moves"@.len() != "play"@.len());
    assert("moves"@[0] != "since"@[0]);
    assert("moves"@.len() != "topGames"@.len());
    assert("moves"@[0] != "until"@[0]);
    let p0 = seq![("fen"@, q.fen@)];
    let p1 = crate::http::str_pair("play"@, q.play);
    let p2 = crate::http::nat_pair("since"@, crate::http::opt_u16(q.since));
    let p3 = crate::http::nat_pair("until"@, crate::http::opt_u16(q.until));
    let p4 = crate::http::nat_pair("moves"@, crate::http::opt_u32(q.moves));
    let p5 = crate::http::nat_pair("topGames"@, crate::http::opt_u32(q.top_games));
    let s0 = p0;
    let s1 = s0 + p1;
    let s2 = s1 + p2;
    let s3 = s2 + p3;
    let s4 = s3 + p4;
    let s5 = s4 + p5;
    assert(q.pairs_view() == s5);
    let v = match q.moves { Some(x) => Some(crate::text::dec_nat(x as nat)), None => None };
    crate::text::lemma_extend(s0, p1, "moves"@, None, false);
    crate::text::lemma_extend(s1, p2, "moves"@, None, false);
    crate::text::lemma_extend(s2, p3, "moves"@, None, false);
    crate::text::lemma_extend(s3, p4, "moves"@, v, true);
    crate::text::lemma_extend(s4, p5, "moves"@, v, false);
}

/// The pairs of [`MastersQuery`] carry its field under `topGames`.
proof fn lemma_masters_query_top_games(q: MastersQuery)
    ensures
        crate::text::carries(q.pairs_view(), "topGames"@, match q.top_games { Some(x) => Some(crate::text::dec_nat(x as nat)), None => None }),
{
    reveal_strlit("fen");
    reveal_strlit("moves");
    reveal_strlit("play");
    reveal_strlit("since");
    reveal_strlit("topGames");
    reveal_strlit("until");
    assert("topGames"@.len() != "fen"@.len());
    assert("topGames"@.len() != "moves"@.len());
    assert("topGames"@.len() != "play"@.len());
    assert("topGames"@.len() != "since"@.len());
    assert("topGames"@.len() != "until"@.len());
    let p0 = seq![("fen"@, q.fen@)];
    let p1 = crate::http::str_pair("play"@, q.play);
    let p2 = crate::http::nat_pair("since"@, crate::http::opt_u16(q.since));
    let p3 = crate::http::nat_pair("until"@, crate::http::opt_u16(q.until));
    let p4 = crate::http::nat_pair("moves"@, crate::http::opt_u32(q.moves));
    let p5 = crate::http::nat_pair("topGames"@, crate::http::opt_u32(q.top_games));
    let s0 = p0;
    let s1 = s0 + p1;
    let s2 = s1 + p2;
    let s3 = s2 + p3;
    let s4 = s3 + p4;
    let s5 = s4 + p5;
    assert(q.pairs_view() == s5);
    let v = match q.top_games { Some(x) => Some(crate::text::dec_nat(x as nat)), None => None };
    crate::text::lemma_extend(s0, p1, "topGames"@, None, false);
    crate::text::lemma_extend(s1, p2, "topGames"@, None, false);
    crate::text::lemma_extend(s2, p3, "topGames"@, None, false);
    crate::text::lemma_extend(s3, p4, "topGames"@, None, false);
    crate::text::lemma_extend(s4, p5, "topGames"@, v, true);
}

/// The pairs of [`MastersQuery`] carry each of its fields under that field's own
/// key (`fen`, `play`, `since`, `until`, `moves`, `topGames`), with the value given to it, and a key only when its field is set.
pub proof fn lemma_masters_query_carries_fields(q: MastersQuery)
    ensures
        crate::text::carries(q.pairs_view(), "fen"@, Some(q.fen@)),
        crate::text::carries(q.pairs_view(), "play"@, match q.play { Some(v) => Some(v@), None => None }),
        crate::text::carries(q.pairs_view(), "since"@, match q.since { Some(x) => Some(crate::text::dec_nat(x as nat)), None => None }),
        crate::text::carries(q.pairs_view(), "until"@, match q.until { Some(x) => Some(crate::text::dec_nat(x as nat)), None => None }),
        crate::text::carries(q.pairs_view(), "moves"@, match q.moves { Some(x) => Some(crate::text::dec_nat(x as nat)), None => None }),
        crate::text::carries(q.pairs_view(), "topGames"@, match q.top_games { Some(x) => Some(crate::text::dec_nat(x as nat)), None => None }),
{
    lemma_masters_query_fen(q);
    lemma_masters_query_play(q);
    lemma_masters_query_since(q);
    lemma_masters_query_until(q);
    lemma_masters_query_moves(q);
    lemma_masters_query_top_games(q);
}

impl<'a> MastersQuery<'a> {
    /// The query pairs, in order.
    pub open spec fn pairs_view(self) -> Pairs {
        seq![("fen"@, self.fen@)]
            + crate::http::str_pair("play"@, self.play)
            + crate::http::nat_pair("since"@, crate::http::opt_u16(self.since))
            + crate::http::nat_pair("until"@, crate::http::opt_u16(self.until))
            + crate::http::nat_pair("moves"@, crate::http::opt_u32(self.moves))
            + crate::http::nat_pair("topGames"@, crate::http::opt_u32(self.top_games))
    }

    /// The query pairs.
    pub fn pairs(&self) -> (r: Vec<(String, String)>)
        ensures
            r.deep_view() == self.pairs_view(),
    {
        let mut out: Vec<(String, String)> = Vec::new();
        crate::http::push_pair(&mut out, "fen", String::from_str(self.fen));
        crate::http::push_opt_str(&mut out, "play", self.play);
        crate::http::push_opt_u16(&mut out, "since", self.since);
        crate::http::push_opt_u16(&mut out, "until", self.until);
        crate::http::push_opt_u32(&mut out, "moves", self.moves);
        crate::http::push_opt_u32(&mut out, "topGames", self.top_games);
        assert(out.deep_view() =~= self.pairs_view());
        out
    }
}

/// Builder for a masters-database lookup. Finish with [`send`](Self::send).
#[derive(Debug)]
pub struct MastersExplorerRequest<'a> {
    client: &'a LichessClient,
    /// The query built so far.
    pub query: MastersQuery<'a>,
}

impl<'a> MastersExplorerRequest<'a> {
    /// The client the builder is bound to.
    pub closed spec fn client_of(&self) -> &'a LichessClient {
        self.client
    }

    /// The query built so far.
    pub closed spec fn query_of(&self) -> MastersQuery<'a> {
        self.query
    }

    /// Creates the request builder for the position `fen`.
    pub fn new(client: &'a LichessClient, fen: &'a str) -> (r: Self)
        ensures
            r.client_of() == client,
            r.query_of() == (
                MastersQuery {
                    fen,
                    play: None,
                    since: None,
                    until: None,
                    moves: None,
                    top_games: None,
                }
            ),
    {
        MastersExplorerRequest {
            client,
            query: MastersQuery {
                fen,
                play: None,
                since: None,
                until: None,
                moves: None,
                top_games: None,
            },
        }
    }
    /// Comma-separated UCI moves to apply to `fen` before the lookup.
    pub fn play(self, play: &'a str) -> (r: Self)
        ensures
            r.query_of() == (MastersQuery { play: Some(play), ..self.query_of() }),
            r.client_of() == self.client_of(),
    {
        let mut r = self;
        r.query.play = Some(play);
        r
    }
    /// Only games from this year or later.
    pub fn since(self, year: u16) -> (r: Self)
        ensures
            r.query_of() == (MastersQuery { since: Some(year), ..self.query_of() }),
            r.client_of() == self.client_of(),
    {
        let mut r = self;
        r.query.since = Some(year);
        r
    }
    /// Only games from this year or earlier.
    pub fn until(self, year: u16) -> (r: Self)
        ensures
            r.query_of() == (MastersQuery { until: Some(year), ..self.query_of() }),
            r.client_of() == self.client_of(),
    {
        let mut r = self;
        r.query.until = Some(year);
        r
    }
    /// Number of most-common moves to return.
    pub fn moves(self, moves: u32) -> (r: Self)
        ensures
            r.query_of() == (MastersQuery { moves: Some(moves), ..self.query_of() }),
            r.client_of() == self.client_of(),
    {
        let mut r = self;
        r.query.moves = Some(moves);
        r
    }
    /// Number of top games to return (max 15).
    pub fn top_games(self, count: u32) -> (r: Self)
        ensures
            r.query_of() == (MastersQuery { top_games: Some(count), ..self.query_of() }),
            r.client_of() == self.client_of(),
    {
        let mut r = self;
        r.query.top_games = Some(count);
        r
    }

    /// Executes the lookup. `GET /masters`
    pub fn send(self) -> (r: ApiRequest)
        ensures
            r@ == crate::http::bare(Method::Get, Host::OpeningExplorer, "/masters"@).with_query(
                self.query_of().pairs_view(),
            ),
    {
        let pairs = self.query.pairs();
        self.client.request(Method::Get, Host::OpeningExplorer, String::from_str("/masters"))
            .query(pairs)
    }
}

/// The `/lichess` query. `speeds`/`ratings` are pre-joined.
#[derive(Debug, Clone)]
pub struct LichessQuery<'a> {
    /// The position, as FEN.
    pub fen: &'a str,
    /// Comma-separated UCI moves to apply first.
    pub play: Option<&'a str>,
    /// Chess variant.
    pub variant: Option<&'a str>,
    /// Comma-joined speeds.
    pub speeds: Option<String>,
    /// Comma-joined rating bands.
    pub ratings: Option<String>,
    /// Only games from this `YYYY-MM` or later.
    pub since: Option<&'a str>,
    /// Only games from this `YYYY-MM` or earlier.
    pub until: Option<&'a str>,
    /// Number of most-common moves to return.
    pub moves: Option<u32>,
    /// Number of top games to return.
    pub top_games: Option<u32>,
    /// Number of recent games to return.
    pub recent_games: Option<u32>,
    /// Whether to include the month-by-month history.
    pub history: Option<bool>,
}

/// The pairs of [`LichessQuery`] carry its field under `fen`.
proof fn lemma_lichess_query_fen(q: LichessQuery)
    ensures
        crate::text::carries(q.pairs_view(), "fen"@, Some(q.fen@)),
{
    reveal_strlit("fen");
    reveal_strlit("history");
    reveal_strlit("moves");
    reveal_strlit("play");
    reveal_strlit("ratings");
    reveal_strlit("recentGames");
    reveal_strlit("since");
    reveal_strlit("speeds");
    reveal_strlit("topGames");
    reveal_strlit("until");
    reveal_strlit("variant");
    assert("fen"@.len() != "history"@.len());
    assert("fen"@.len() != "moves"@.len());
    assert("fen"@.len() != "play"@.len());
    assert("fen"@.len() != "ratings"@.len());
    assert("fen"@.len() != "recentGames"@.len());
    assert("fen"@.len() != "since"@.len());
    assert("fen"@.len() != "speeds"@.len());
    assert("fen"@.len() != "topGames"@.len());
    assert("fen"@.len() != "until"@.len());
    assert("fen"@.len() != "variant"@.len());
    let p0 = seq![("fen"@, q.fen@)];
    let p1 = crate::http::str_pair("play"@, q.play);
    let p2 = crate::http::str_pair("variant"@, q.variant);
    let p3 = crate::http::opt_pair("speeds"@, opt_text(q.speeds));
    let p4 = crate::http::opt_pair("ratings"@, opt_text(q.ratings));
    let p5 = crate::http::str_pair("since"@, q.since);
    let p6 = crate::http::str_pair("until"@, q.until);
    let p7 = crate::http::nat_pair("moves"@, crate::http::opt_u32(q.moves));
    let p8 = crate::http::nat_pair("topGames"@, crate::http::opt_u32(q.top_games));
    let p9 = crate::http::nat_pair("recentGames"@, crate::http::opt_u32(q.recent_games));
    let p10 = crate::http::bool_pair("history"@, q.history);
    let s0 = p0;
    let s1 = s0 + p1;
    let s2 = s1 + p2;
    let s3 = s2 + p3;
    let s4 = s3 + p4;
    let s5 = s4 + p5;
    let s6 = s5 + p6;
    let s7 = s6 + p7;
    let s8 = s7 + p8;
    let s9 = s8 + p9;
    let s10 = s9 + p10;
    assert(q.pairs_view() == s10);
    let v = Some(q.fen@);
    assert(p0 == crate::text::one_pair("fen"@, v));
    crate::text::lemma_one_pair_carries("fen"@, v);
    crate::text::lemma_extend(s0, p1, "fen"@, v, false);
    crate::text::lemma_extend(s1, p2, "fen"@, v, false);
    crate::text::lemma_extend(s2, p3, "fen"@, v, false);
    crate::text::lemma_extend(s3, p4, "fen"@, v, false);
    crate::text::lemma_extend(s4, p5, "fen"@, v, false);
    crate::text::lemma_extend(s5, p6, "fen"@, v, false);
    crate::text::lemma_extend(s6, p7, "fen"@, v, false);
    crate::text::lemma_extend(s7, p8, "fen"@, v, false);
    crate::text::lemma_extend(s8, p9, "fen"@, v, false);
    crate::text::lemma_extend(s9, p10, "fen"@, v, false);
}

/// The pairs of [`LichessQuery`] carry its field under `play`.
proof fn lemma_lichess_query_play(q: LichessQuery)
    ensures
        crate::text::carries(q.pairs_view(), "play"@, match q.play { Some(v) => Some(v@), None => None }),
{
    reveal_strlit("fen");
    reveal_strlit("history");
    reveal_strlit("moves");
    reveal_strlit("play");
    reveal_strlit("ratings");
    reveal_strlit("recentGames");
    reveal_strlit("since");
    reveal_strlit("speeds");
    reveal_strlit("topGames");
    reveal_strlit("until");
    reveal_strlit("variant");
    assert("play"@.len() != "fen"@.len());
    assert("play"@.len() != "history"@.len());
    assert("play"@.len() != "moves"@.len());
    assert("play"@.len() != "ratings"@.len());
    assert("play"@.len() != "recentGames"@.len());
    assert("play"@.len() != "since"@.len());
    assert("play"@.len() != "speeds"@.len());
    assert("play"@.len() != "topGames"@.len());
    assert("play"@.len() != "until"@.len());
    assert("play"@.len() != "variant"@.len());
    let p0 = seq![("fen"@, q.fen@)];
    let p1 = crate::http::str_pair("play"@, q.play);
    let p2 = crate::http::str_pair("variant"@, q.variant);
    let p3 = crate::http::opt_pair("speeds"@, opt_text(q.speeds));
    let p4 = crate::http::opt_pair("ratings"@, opt_text(q.ratings));
    let p5 = crate::http::str_pair("since"@, q.since);
    let p6 = crate::http::str_pair("until"@, q.until);
    let p7 = crate::http::nat_pair("moves"@, crate::http::opt_u32(q.moves));
    let p8 = crate::http::nat_pair("topGames"@, crate::http::opt_u32(q.top_games));
    let p9 = crate::http::nat_pair("recentGames"@, crate::http::opt_u32(q.recent_games));
    let p10 = crate::http::bool_pair("history"@, q.history);
    let s0 = p0;
    let s1 = s0 + p1;
    let s2 = s1 + p2;
    let s3 = s2 + p3;
    let s4 = s3 + p4;
    let s5 = s4 + p5;
    let s6 = s5 + p6;
    let s7 = s6 + p7;
    let s8 = s7 + p8;
    let s9 = s8 + p9;
    let s10 = s9 + p10;
    assert(q.pairs_view() == s10);
    let v = match q.play { Some(v) => Some(v@), None => None };
    crate::text::lemma_extend(s0, p1, "play"@, v, true);
    crate::text::lemma_extend(s1, p2, "play"@, v, false);
    crate::text::lemma_extend(s2, p3, "play"@, v, false);
    crate::text::lemma_extend(s3, p4, "play"@, v, false);
    crate::text::lemma_extend(s4, p5, "play"@, v, false);
    crate::text::lemma_extend(s5, p6, "play"@, v, false);
    crate::text::lemma_extend(s6, p7, "play"@, v, false);
    crate::text::lemma_extend(s7, p8, "play"@, v, false);
    crate::text::lemma_extend(s8, p9, "play"@, v, false);
    crate::text::lemma_extend(s9, p10, "play"@, v, false);
}

/// The pairs of [`LichessQuery`] carry its field under `variant`.
proof fn lemma_lichess_query_variant(q: LichessQuery)
    ensures
        crate::text::carries(q.pairs_view(), "variant"@, match q.variant { Some(v) => Some(v@), None => None }),
{
    reveal_strlit("fen");
    reveal_strlit("history");
    reveal_strlit("moves");
    reveal_strlit("play");
    reveal_strlit("ratings");
    reveal_strlit("recentGames");
    reveal_strlit("since");
    reveal_strlit("speeds");
    reveal_strlit("topGames");
    reveal_strlit("until");
    reveal_strlit("variant");
    assert("variant"@.len() != "fen"@.len());
    assert("variant"@[0] != "history"@[0]);
    assert("variant"@.len() != "moves"@.len());
    assert("variant"@.len() != "play"@.len());
    assert("variant"@[0] != "ratings"@[0]);
    assert("variant"@.len() != "recentGames"@.len());
    assert("variant"@.len() != "since"@.len());
    assert("variant"@.len() != "speeds"@.len());
    assert("variant"@.len() != "topGames"@.len());
    assert("variant"@.len() != "until"@.len());
    let p0 = seq![("fen"@, q.fen@)];
    let p1 = crate::http::str_pair("play"@, q.play);
    let p2 = crate::http::str_pair("variant"@, q.variant);
    let p3 = crate::http::opt_pair("speeds"@, opt_text(q.speeds));
    let p4 = crate::http::opt_pair("ratings"@, opt_text(q.ratings));
    let p5 = crate::http::str_pair("since"@, q.since);
    let p6 = crate::http::str_pair("until"@, q.until);
    let p7 = crate::http::nat_pair("moves"@, crate::http::opt_u32(q.moves));
    let p8 = crate::http::nat_pair("topGames"@, crate::http::opt_u32(q.top_games));
    let p9 = crate::http::nat_pair("recentGames"@, crate::http::opt_u32(q.recent_games));
    let p10 = crate::http::bool_pair("history"@, q.history);
    let s0 = p0;
    let s1 = s0 + p1;
    let s2 = s1 + p2;
    let s3 = s2 + p3;
    let s4 = s3 + p4;
    let s5 = s4 + p5;
    let s6 = s5 + p6;
    let s7 = s6 + p7;
    let s8 = s7 + p8;
    let s9 = s8 + p9;
    let s10 = s9 + p10;
    assert(q.pairs_view() == s10);
    let v = match q.variant { Some(v) => Some(v@), None => None };
    crate::text::lemma_extend(s0, p1, "variant"@, None, false);
    crate::text::lemma_extend(s1, p2, "variant"@, v, true);
    crate::text::lemma_extend(s2, p3, "variant"@, v, false);
    crate::text::lemma_extend(s3, p4, "variant"@, v, false);
    crate::text::lemma_extend(s4, p5, "variant"@, v, false);
    crate::text::lemma_extend(s5, p6, "variant"@, v, false);
    crate::text::lemma_extend(s6, p7, "variant"@, v, false);
    crate::text::lemma_extend(s7, p8, "variant"@, v, false);
    crate::text::lemma_extend(s8, p9, "variant"@, v, false);
    crate::text::lemma_extend(s9, p10, "variant"@, v, false);
}

/// The pairs of [`LichessQuery`] carry its field under `speeds`.
proof fn lemma_lichess_query_speeds(q: LichessQuery)
    ensures
        crate::text::carries(q.pairs_view(), "speeds"@, opt_text(q.speeds)),
{
    reveal_strlit("fen");
    reveal_strlit("history");
    reveal_strlit("moves");
    reveal_strlit("play");
    reveal_strlit("ratings");
    reveal_strlit("recentGames");
    reveal_strlit("since");
    reveal_strlit("speeds");
    reveal_strlit("topGames");
    reveal_strlit("until");
    reveal_strlit("variant");
    assert("speeds"@.len() != "fen"@.len());
    assert("speeds"@.len() != "history"@.len());
    assert("speeds"@.len() != "moves"@.len());
    assert("speeds"@.len() != "play"@.len());
    assert("speeds"@.len() != "ratings"@.len());
    assert("speeds"@.len() != "recentGames"@.len());
    assert("speeds"@.len() != "since"@.len());
    assert("speeds"@.len() != "topGames"@.len());
    assert("speeds"@.len() != "until"@.len());
    assert("speeds"@.len() != "variant"@.len());
    let p0 = seq![("fen"@, q.fen@)];
    let p1 = crate::http::str_pair("play"@, q.play);
    let p2 = crate::http::str_pair("variant"@, q.variant);
    let p3 = crate::http::opt_pair("speeds"@, opt_text(q.speeds));
    let p4 = crate::http::opt_pair("ratings"@, opt_text(q.ratings));
    let p5 = crate::http::str_pair("since"@, q.since);
    let p6 = crate::http::str_pair("until"@, q.until);
    let p7 = crate::http::nat_pair("moves"@, crate::http::opt_u32(q.moves));
    let p8 = crate::http::nat_pair("topGames"@, crate::http::opt_u32(q.top_games));
    let p9 = crate::http::nat_pair("recentGames"@, crate::http::opt_u32(q.recent_games));
    let p10 = crate::http::bool_pair("history"@, q.history);
    let s0 = p0;
    let s1 = s0 + p1;
    let s2 = s1 + p2;
    let s3 = s2 + p3;
    let s4 = s3 + p4;
    let s5 = s4 + p5;
    let s6 = s5 + p6;
    let s7 = s6 + p7;
    let s8 = s7 + p8;
    let s9 = s8 + p9;
    let s10 = s9 + p10;
    assert(q.pairs_view() == s10);
    let v = opt_text(q.speeds);
    crate::text::lemma_extend(s0, p1, "speeds"@, None, false);
    crate::text::lemma_extend(s1, p2, "speeds"@, None, false);
    crate::text::lemma_extend(s2, p3, "speeds"@, v, true);
    crate::text::lemma_extend(s3, p4, "speeds"@, v, false);
    crate::text::lemma_extend(s4, p5, "speeds"@, v, false);
    crate::text::lemma_extend(s5, p6, "speeds"@, v, false);
    crate::text::lemma_extend(s6, p7, "speeds"@, v, false);
    crate::text::lemma_extend(s7, p8, "speeds"@, v, false);
    crate::text::lemma_extend(s8, p9, "speeds"@, v, false);
    crate::text::lemma_extend(s9, p10, "speeds"@, v, false);
}

/// The pairs of [`LichessQuery`] carry its field under `ratings`.
proof fn lemma_lichess_query_ratings(q: LichessQuery)
    ensures
        crate::text::carries(q.pairs_view(), "ratings"@, opt_text(q.ratings)),
{
    reveal_strlit("fen");
    reveal_strlit("history");
    reveal_strlit("moves");
    reveal_strlit("play");
    reveal_strlit("ratings");
    reveal_strlit("recentGames");
    reveal_strlit("since");
    reveal_strlit("speeds");
    reveal_strlit("topGames");
    reveal_strlit("until");
    reveal_strlit("variant");
    assert("ratings"@.len() != "fen"@.len());
    assert("ratings"@[0] != "history"@[0]);
    assert("ratings"@.len() != "moves"@.len());
    assert("ratings"@.len() != "play"@.len());
    assert("ratings"@.len() != "recentGames"@.len());
    assert("ratings"@.len() != "since"@.len());
    assert("ratings"@.len() != "speeds"@.len());
    assert("ratings"@.len() != "topGames"@.len());
    assert("ratings"@.len() != "until"@.len());
    assert("ratings"@[0] != "variant"@[0]);
    let p0 = seq![("fen"@, q.fen@)];
    let p1 = crate::http::str_pair("play"@, q.play);
    let p2 = crate::http::str_pair("variant"@, q.variant);
    let p3 = crate::http::opt_pair("speeds"@, opt_text(q.speeds));
    let p4 = crate::http::opt_pair("ratings"@, opt_text(q.ratings));
    let p5 = crate::http::str_pair("since"@, q.since);
    let p6 = crate::http::str_pair("until"@, q.until);
    let p7 = crate::http::nat_pair("moves"@, crate::http::opt_u32(q.moves));
    let p8 = crate::http::nat_pair("topGames"@, crate::http::opt_u32(q.top_games));
    let p9 = crate::http::nat_pair("recentGames"@, crate::http::opt_u32(q.recent_games));
    let p10 = crate::http::bool_pair("history"@, q.history);
    let s0 = p0;
    let s1 = s0 + p1;
    let s2 = s1 + p2;
    let s3 = s2 + p3;
    let s4 = s3 + p4;
    let s5 = s4 + p5;
    let s6 = s5 + p6;
    let s7 = s6 + p7;
    let s8 = s7 + p8;
    let s9 = s8 + p9;
    let s10 = s9 + p10;
    assert(q.pairs_view() == s10);
    let v = opt_text(q.ratings);
    crate::text::lemma_extend(s0, p1, "ratings"@, None, false);
    crate::text::lemma_extend(s1, p2, "ratings"@, None, false);
    crate::text::lemma_extend(s2, p3, "ratings"@, None, false);
    crate::text::lemma_extend(s3, p4, "ratings"@, v, true);
    crate::text::lemma_extend(s4, p5, "ratings"@, v, false);
    crate::text::lemma_extend(s5, p6, "ratings"@, v, false);
    crate::text::lemma_extend(s6, p7, "ratings"@, v, false);
    crate::text::lemma_extend(s7, p8, "ratings"@, v, false);
    crate::text::lemma_extend(s8, p9, "ratings"@, v, false);
    crate::text::lemma_extend(s9, p10, "ratings"@, v, false);
}

/// The pairs of [`LichessQuery`] carry its field under `since`.
proof fn lemma_lichess_query_since(q: LichessQuery)
    ensures
        crate::text::carries(q.pairs_view(), "since"@, match q.since { Some(v) => Some(v@), None => None }),
{
    reveal_strlit("fen");
    reveal_strlit("history");
    reveal_strlit("moves");
    reveal_strlit("play");
    reveal_strlit("ratings");
    reveal_strlit("recentGames");
    reveal_strlit("since");
    reveal_strlit("speeds");
    reveal_strlit("topGames");
    reveal_strlit("until");
    reveal_strlit("variant");
    assert("since"@.len() != "fen"@.len());
    assert("since"@.len() != "history"@.len());
    assert("since"@[0] != "moves"@[0]);
    assert("since"@.len() != "play"@.len());
    assert("since"@.len() != "ratings"@.len());
    assert("since"@.len() != "recentGames"@.len());
    assert("since"@.len() != "speeds"@.len());
    assert("since"@.len() != "topGames"@.len());
    assert("since"@[0] != "until"@[0]);
    assert("since"@.len() != "variant"@.len());
    let p0 = seq![("fen"@, q.fen@)];
    let p1 = crate::http::str_pair("play"@, q.play);
    let p2 = crate::http::str_pair("variant"@, q.variant);
    let p3 = crate::http::opt_pair("speeds"@, opt_text(q.speeds));
    let p4 = crate::http::opt_pair("ratings"@, opt_text(q.ratings));
    let p5 = crate::http::str_pair("since"@, q.since);
    let p6 = crate::http::str_pair("until"@, q.until);
    let p7 = crate::http::nat_pair("moves"@, crate::http::opt_u32(q.moves));
    let p8 = crate::http::nat_pair("topGames"@, crate::http::opt_u32(q.top_games));
    let p9 = crate::http::nat_pair("recentGames"@, crate::http::opt_u32(q.recent_games));
    let p10 = crate::http::bool_pair("history"@, q.history);
    let s0 = p0;
    let s1 = s0 + p1;
    let s2 = s1 + p2;
    let s3 = s2 + p3;
    let s4 = s3 + p4;
    let s5 = s4 + p5;
    let s6 = s5 + p6;
    let s7 = s6 + p7;
    let s8 = s7 + p8;
    let s9 = s8 + p9;
    let s10 = s9 + p10;
    assert(q.pairs_view() == s10);
    let v = match q.since { Some(v) => Some(v@), None => None };
    crate::text::lemma_extend(s0, p1, "since"@, None, false);
    crate::text::lemma_extend(s1, p2, "since"@, None, false);
    crate::text::lemma_extend(s2, p3, "since"@, None, false);
    crate::text::lemma_extend(s3, p4, "since"@, None, false);
    crate::text::lemma_extend(s4, p5, "since"@, v, true);
    crate::text::lemma_extend(s5, p6, "since"@, v, false);
    crate::text::lemma_extend(s6, p7, "since"@, v, false);
    crate::text::lemma_extend(s7, p8, "since"@, v, false);
    crate::text::lemma_extend(s8, p9, "since"@, v, false);
    crate::text::lemma_extend(s9, p10, "since"@, v, false);
}

/// The pairs of [`LichessQuery`] carry its field under `until`.
proof fn lemma_lichess_query_until(q: LichessQuery)
    ensures
        crate::text::carries(q.pairs_view(), "until"@, match q.until { Some(v) => Some(v@), None => None }),
{
    reveal_strlit("fen");
    reveal_strlit("history");
    reveal_strlit("moves");
    reveal_strlit("play");
    reveal_strlit("ratings");
    reveal_strlit("recentGames");
    reveal_strlit("since");
    reveal_strlit("speeds");
    reveal_strlit("topGames");
    reveal_strlit("until");
    reveal_strlit("variant");
    assert("until"@.len() != "fen"@.len());
    assert("until"@.len() != "history"@.len());
    assert("until"@[0] != "moves"@[0]);
    assert("until"@.len() != "play"@.len());
    assert("until"@.len() != "ratings"@.len());
    assert("until"@.len() != "recentGames"@.len());
    assert("until"@[0] != "since"@[0]);
    assert("until"@.len() != "speeds"@.len());
    assert("until"@.len() != "topGames"@.len());
    assert("until"@.len() != "variant"@.len());
    let p0 = seq![("fen"@, q.fen@)];
    let p1 = crate::http::str_pair("play"@, q.play);
    let p2 = crate::http::str_pair("variant"@, q.variant);
    let p3 = crate::http::opt_pair("speeds"@, opt_text(q.speeds));
    let p4 = crate::http::opt_pair("ratings"@, opt_text(q.ratings));
    let p5 = crate::http::str_pair("since"@, q.since);
    let p6 = crate::http::str_pair("until"@, q.until);
    let p7 = crate::http::nat_pair("moves"@, crate::http::opt_u32(q.moves));
    let p8 = crate::http::nat_pair("topGames"@, crate::http::opt_u32(q.top_games));
    let p9 = crate::http::nat_pair("recentGames"@, crate::http::opt_u32(q.recent_games));
    let p10 = crate::http::bool_pair("history"@, q.history);
    let s0 = p0;
    let s1 = s0 + p1;
    let s2 = s1 + p2;
    let s3 = s2 + p3;
    let s4 = s3 + p4;
    let s5 = s4 + p5;
    let s6 = s5 + p6;
    let s7 = s6 + p7;
    let s8 = s7 + p8;
    let s9 = s8 + p9;
    let s10 = s9 + p10;
    assert(q.pairs_view() == s10);
    let v = match q.until { Some(v) => Some(v@), None => None };
    crate::text::lemma_extend(s0, p1, "until"@, None, false);
    crate::text::lemma_extend(s1, p2, "until"@, None, false);
    crate::text::lemma_extend(s2, p3, "until"@, None, false);
    crate::text::lemma_extend(s3, p4, "until"@, None, false);
    crate::text::lemma_extend(s4, p5, "until"@, None, false);
    crate::text::lemma_extend(s5, p6, "until"@, v, true);
    crate::text::lemma_extend(s6, p7, "until"@, v, false);
    crate::text::lemma_extend(s7, p8, "until"@, v, false);
    crate::text::lemma_extend(s8, p9, "until"@, v, false);
    crate::text::lemma_extend(s9, p10, "until"@, v, false);
}

/// The pairs of [`LichessQuery`] carry its field under `moves`.
proof fn lemma_lichess_query_moves(q: LichessQuery)
    ensures
        crate::text::carries(q.pairs_view(), "moves"@, match q.moves { Some(x) => Some(crate::text::dec_nat(x as nat)), None => None }),
{
    reveal_strlit("fen");
    reveal_strlit("history");
    reveal_strlit("moves");
    reveal_strlit("play");
    reveal_strlit("ratings");
    reveal_strlit("recentGames");
    reveal_strlit("since");
    reveal_strlit("speeds");
    reveal_strlit("topGames");
    reveal_strlit("until");
    reveal_strlit("variant");
    assert("moves"@.len() != "fen"@.len());
    assert("moves"@.len() != "history"@.len());
    assert("moves"@.len() != "play"@.len());
    assert("moves"@.len() != "ratings"@.len());
    assert("moves"@.len() != "recentGames"@.len());
    assert("moves"@[0] != "since"@[0]);
    assert("moves"@.len() != "speeds"@.len());
    assert("moves"@.len() != "topGames"@.len());
    assert("moves"@[0] != "until"@[0]);
    assert("moves"@.len() != "variant"@.len());
    let p0 = seq![("fen"@, q.fen@)];
    let p1 = crate::http::str_pair("play"@, q.play);
    let p2 = crate::http::str_pair("variant"@, q.variant);
    let p3 = crate::http::opt_pair("speeds"@, opt_text(q.speeds));
    let p4 = crate::http::opt_pair("ratings"@, opt_text(q.ratings));
    let p5 = crate::http::str_pair("since"@, q.since);
    let p6 = crate::http::str_pair("until"@, q.until);
    let p7 = crate::http::nat_pair("moves"@, crate::http::opt_u32(q.moves));
    let p8 = crate::http::nat_pair("topGames"@, crate::http::opt_u32(q.top_games));
    let p9 = crate::http::nat_pair("recentGames"@, crate::http::opt_u32(q.recent_games));
    let p10 = crate::http::bool_pair("history"@, q.history);
    let s0 = p0;
    let s1 = s0 + p1;
    let s2 = s1 + p2;
    let s3 = s2 + p3;
    let s4 = s3 + p4;
    let s5 = s4 + p5;
    let s6 = s5 + p6;
    let s7 = s6 + p7;
    let s8 = s7 + p8;
    let s9 = s8 + p9;
    let s10 = s9 + p10;
    assert(q.pairs_view() == s10);
    let v = match q.moves { Some(x) => Some(crate::text::dec_nat(x as nat)), None => None };
    crate::text::lemma_extend(s0, p1, "moves"@, None, false);
    crate::text::lemma_extend(s1, p2, "moves"@, None, false);
    crate::text::lemma_extend(s2, p3, "moves"@, None, false);
    crate::text::lemma_extend(s3, p4, "moves"@, None, false);
    crate::text::lemma_extend(s4, p5, "moves"@, None, false);
    crate::text::lemma_extend(s5, p6, "moves"@, None, false);
    crate::text::lemma_extend(s6, p7, "moves"@, v, true);
    crate::text::lemma_extend(s7, p8, "moves"@, v, false);
    crate::text::lemma_extend(s8, p9, "moves"@, v, false);
    crate::text::lemma_extend(s9, p10, "moves"@, v, false);
}

/// The pairs of [`LichessQuery`] carry its field under `topGames`.
proof fn lemma_lichess_query_top_games(q: LichessQuery)
    ensures
        crate::text::carries(q.pairs_view(), "topGames"@, match q.top_games { Some(x) => Some(crate::text::dec_nat(x as nat)), None => None }),
{
    reveal_strlit("fen");
    reveal_strlit("history");
    reveal_strlit("moves");
    reveal_strlit("play");
    reveal_strlit("ratings");
    reveal_strlit("recentGames");
    reveal_strlit("since");
    reveal_strlit("speeds");
    reveal_strlit("topGames");
    reveal_strlit("until");
    reveal_strlit("variant");
    assert("topGames"@.len() != "fen"@.len());
    assert("topGames"@.len() != "history"@.len());
    assert("topGames"@.len() != "moves"@.len());
    assert("topGames"@.len() != "play"@.len());
    assert("topGames"@.len() != "ratings"@.len());
    assert("topGames"@.len() != "recentGames"@.len());
    assert("topGames"@.len() != "since"@.len());
    assert("topGames"@.len() != "speeds"@.len());
    assert("topGames"@.len() != "until"@.len());
    assert("topGames"@.len() != "variant"@.len());
    let p0 = seq![("fen"@, q.fen@)];
    let p1 = crate::http::str_pair("play"@, q.play);
    let p2 = crate::http::str_pair("variant"@, q.variant);
    let p3 = crate::http::opt_pair("speeds"@, opt_text(q.speeds));
    let p4 = crate::http::opt_pair("ratings"@, opt_text(q.ratings));
    let p5 = crate::http::str_pair("since"@, q.since);
    let p6 = crate::http::str_pair("until"@, q.until);
    let p7 = crate::http::nat_pair("moves"@, crate::http::opt_u32(q.moves));
    let p8 = crate::http::nat_pair("topGames"@, crate::http::opt_u32(q.top_games));
    let p9 = crate::http::nat_pair("recentGames"@, crate::http::opt_u32(q.recent_games));
    let p10 = crate::http::bool_pair("history"@, q.history);
    let s0 = p0;
    let s1 = s0 + p1;
    let s2 = s1 + p2;
    let s3 = s2 + p3;
    let s4 = s3 + p4;
    let s5 = s4 + p5;
    let s6 = s5 + p6;
    let s7 = s6 + p7;
    let s8 = s7 + p8;
    let s9 = s8 + p9;
    let s10 = s9 + p10;
    assert(q.pairs_view() == s10);
    let v = match q.top_games { Some(x) => Some(crate::text::dec_nat(x as nat)), None => None };
    crate::text::lemma_extend(s0, p1, "topGames"@, None, false);
    crate::text::lemma_extend(s1, p2, "topGames"@, None, false);
    crate::text::lemma_extend(s2, p3, "topGames"@, None, false);
    crate::text::lemma_extend(s3, p4, "topGames"@, None, false);
    crate::text::lemma_extend(s4, p5, "topGames"@, None, false);
    crate::text::lemma_extend(s5, p6, "topGames"@, None, false);
    crate::text::lemma_extend(s6, p7, "topGames"@, None, false);
    crate::text::lemma_extend(s7, p8, "topGames"@, v, true);
    crate::text::lemma_extend(s8, p9, "topGames"@, v, false);
    crate::text::lemma_extend(s9, p10, "topGames"@, v, false);
}

/// The pairs of [`LichessQuery`] carry its field under `recentGames`.
proof fn lemma_lichess_query_recent_games(q: LichessQuery)
    ensures
        crate::text::carries(q.pairs_view(), "recentGames"@, match q.recent_games { Some(x) => Some(crate::text::dec_nat(x as nat)), None => None }),
{
    reveal_strlit("fen");
    reveal_strlit("history");
    reveal_strlit("moves");
    reveal_strlit("play");
    reveal_strlit("ratings");
    reveal_strlit("recentGames");
    reveal_strlit("since");
    reveal_strlit("speeds");
    reveal_strlit("topGames");
    reveal_strlit("until");
    reveal_strlit("variant");
    assert("recentGames"@.len() != "fen"@.len());
    assert("recentGames"@.len() != "history"@.len());
    assert("recentGames"@.len() != "moves"@.len());
    assert("recentGames"@.len() != "play"@.len());
    assert("recentGames"@.len() != "ratings"@.len());
    assert("recentGames"@.len() != "since"@.len());
    assert("recentGames"@.len() != "speeds"@.len());
    assert("recentGames"@.len() != "topGames"@.len());
    assert("recentGames"@.len() != "until"@.len());
    assert("recentGames"@.len() != "variant"@.len());
    let p0 = seq![("fen"@, q.fen@)];
    let p1 = crate::http::str_pair("play"@, q.play);
    let p2 = crate::http::str_pair("variant"@, q.variant);
    let p3 = crate::http::opt_pair("speeds"@, opt_text(q.speeds));
    let p4 = crate::http::opt_pair("ratings"@, opt_text(q.ratings));
    let p5 = crate::http::str_pair("since"@, q.since);
    let p6 = crate::http::str_pair("until"@, q.until);
    let p7 = crate::http::nat_pair("moves"@, crate::http::opt_u32(q.moves));
    let p8 = crate::http::nat_pair("topGames"@, crate::http::opt_u32(q.top_games));
    let p9 = crate::http::nat_pair("recentGames"@, crate::http::opt_u32(q.recent_games));
    let p10 = crate::http::bool_pair("history"@, q.history);
    let s0 = p0;
    let s1 = s0 + p1;
    let s2 = s1 + p2;
    let s3 = s2 + p3;
    let s4 = s3 + p4;
    let s5 = s4 + p5;
    let s6 = s5 + p6;
    let s7 = s6 + p7;
    let s8 = s7 + p8;
    let s9 = s8 + p9;
    let s10 = s9 + p10;
    assert(q.pairs_view() == s10);
    let v = match q.recent_games { Some(x) => Some(crate::text::dec_nat(x as nat)), None => None };
    crate::text::lemma_extend(s0, p1, "recentGames"@, None, false);
    crate::text::lemma_extend(s1, p2, "recentGames"@, None, false);
    crate::text::lemma_extend(s2, p3, "recentGames"@, None, false);
    crate::text::lemma_extend(s3, p4, "recentGames"@, None, false);
    crate::text::lemma_extend(s4, p5, "recentGames"@, None, false);
    crate::text::lemma_extend(s5, p6, "recentGames"@, None, false);
    crate::text::lemma_extend(s6, p7, "recentGames"@, None, false);
    crate::text::lemma_extend(s7, p8, "recentGames"@, None, false);
    crate::text::lemma_extend(s8, p9, "recentGames"@, v, true);
    crate::text::lemma_extend(s9, p10, "recentGames"@, v, false);
}

/// The pairs of [`LichessQuery`] carry its field under `history`.
proof fn lemma_lichess_query_history(q: LichessQuery)
    ensures
        crate::text::carries(q.pairs_view(), "history"@, match q.history { Some(b) => Some(if b { seq!['t', 'r', 'u', 'e'] } else { seq!['f', 'a', 'l', 's', 'e'] }), None => None }),
{
    reveal_strlit("fen");
    reveal_strlit("history");
    reveal_strlit("moves");
    reveal_strlit("play");
    reveal_strlit("ratings");
    reveal_strlit("recentGames");
    reveal_strlit("since");
    reveal_strlit("speeds");
    reveal_strlit("topGames");
    reveal_strlit("until");
    reveal_strlit("variant");
    assert("history"@.len() != "fen"@.len());
    assert("history"@.len() != "moves"@.len());
    assert("history"@.len() != "play"@.len());
    assert("history"@[0] != "ratings"@[0]);
    assert("history"@.len() != "recentGames"@.len());
    assert("history"@.len() != "since"@.len());
    assert("history"@.len() != "speeds"@.len());
    assert("history"@.len() != "topGames"@.len());
    assert("history"@.len() != "until"@.len());
    assert("history"@[0] != "variant"@[0]);
    let p0 = seq![("fen"@, q.fen@)];
    let p1 = crate::http::str_pair("play"@, q.play);
    let p2 = crate::http::str_pair("variant"@, q.variant);
    let p3 = crate::http::opt_pair("speeds"@, opt_text(q.speeds));
    let p4 = crate::http::opt_pair("ratings"@, opt_text(q.ratings));
    let p5 = crate::http::str_pair("since"@, q.since);
    let p6 = crate::http::str_pair("until"@, q.until);
    let p7 = crate::http::nat_pair("moves"@, crate::http::opt_u32(q.moves));
    let p8 = crate::http::nat_pair("topGames"@, crate::http::opt_u32(q.top_games));
    let p9 = crate::http::nat_pair("recentGames"@, crate::http::opt_u32(q.recent_games));
    let p10 = crate::http::bool_pair("history"@, q.history);
    let s0 = p0;
    let s1 = s0 + p1;
    let s2 = s1 + p2;
    let s3 = s2 + p3;
    let s4 = s3 + p4;
    let s5 = s4 + p5;
    let s6 = s5 + p6;
    let s7 = s6 + p7;
    let s8 = s7 + p8;
    let s9 = s8 + p9;
    let s10 = s9 + p10;
    assert(q.pairs_view() == s10);
    let v = match q.history { Some(b) => Some(if b { seq!['t', 'r', 'u', 'e'] } else { seq!['f', 'a', 'l', 's', 'e'] }), None => None };
    crate::text::lemma_extend(s0, p1, "history"@, None, false);
    crate::text::lemma_extend(s1, p2, "history"@, None, false);
    crate::text::lemma_extend(s2, p3, "history"@, None, false);
    crate::text::lemma_extend(s3, p4, "history"@, None, false);
    crate::text::lemma_extend(s4, p5, "history"@, None, false);
    crate::text::lemma_extend(s5, p6, "history"@, None, false);
    crate::text::lemma_extend(s6, p7, "history"@, None, false);
    crate::text::lemma_extend(s7, p8, "history"@, None, false);
    crate::text::lemma_extend(s8, p9, "history"@, None, false);
    crate::text::lemma_extend(s9, p10, "history"@, v, true);
}

/// The pairs of [`LichessQuery`] carry each of its fields under that field's own
/// key (`fen`, `play`, `variant`, `speeds`, `ratings`, `since`, `until`, `moves`, `topGames`, `recentGames`, `history`), with the value given to it, and a key only when its field is set.
pub proof fn lemma_lichess_query_carries_fields(q: LichessQuery)
    ensures
        crate::text::carries(q.pairs_view(), "fen"@, Some(q.fen@)),
        crate::text::carries(q.pairs_view(), "play"@, match q.play { Some(v) => Some(v@), None => None }),
        crate::text::carries(q.pairs_view(), "variant"@, match q.variant { Some(v) => Some(v@), None => None }),
        crate::text::carries(q.pairs_view(), "speeds"@, opt_text(q.speeds)),
        crate::text::carries(q.pairs_view(), "ratings"@, opt_text(q.ratings)),
        crate::text::carries(q.pairs_view(), "since"@, match q.since { Some(v) => Some(v@), None => None }),
        crate::text::carries(q.pairs_view(), "until"@, match q.until { Some(v) => Some(v@), None => None }),
        crate::text::carries(q.pairs_view(), "moves"@, match q.moves { Some(x) => Some(crate::text::dec_nat(x as nat)), None => None }),
        crate::text::carries(q.pairs_view(), "topGames"@, match q.top_games { Some(x) => Some(crate::text::dec_nat(x as nat)), None => None }),
        crate::text::carries(q.pairs_view(), "recentGames"@, match q.recent_games { Some(x) => Some(crate::text::dec_nat(x as nat)), None => None }),
        crate::text::carries(q.pairs_view(), "history"@, match q.history { Some(b) => Some(if b { seq!['t', 'r', 'u', 'e'] } else { seq!['f', 'a', 'l', 's', 'e'] }), None => None }),
{
    lemma_lichess_query_fen(q);
    lemma_lichess_query_play(q);
    lemma_lichess_query_variant(q);
    lemma_lichess_query_speeds(q);
    lemma_lichess_query_ratings(q);
    lemma_lichess_query_since(q);
    lemma_lichess_query_until(q);
    lemma_lichess_query_moves(q);
    lemma_lichess_query_top_games(q);
    lemma_lichess_query_recent_games(q);
    lemma_lichess_query_history(q);
}

impl<'a> LichessQuery<'a> {
    /// The query pairs, in order.
    pub open spec fn pairs_view(self) -> Pairs {
        seq![("fen"@, self.fen@)]
            + crate::http::str_pair("play"@, self.play)
            + crate::http::str_pair("variant"@, self.variant)
            + crate::http::opt_pair("speeds"@, opt_text(self.speeds))
            + crate::http::opt_pair("ratings"@, opt_text(self.ratings))
            + crate::http::str_pair("since"@, self.since)
            + crate::http::str_pair("until"@, self.until)
            + crate::http::nat_pair("moves"@, crate::http::opt_u32(self.moves))
            + crate::http::nat_pair("topGames"@, crate::http::opt_u32(self.top_games))
            + crate::http::nat_pair("recentGames"@, crate::http::opt_u32(self.recent_games))
            + crate::http::bool_pair("history"@, self.history)
    }

    /// The query pairs.
    pub fn pairs(&self) -> (r: Vec<(String, String)>)
        ensures
            r.deep_view() == self.pairs_view(),
    {
        let mut out: Vec<(String, String)> = Vec::new();
        crate::http::push_pair(&mut out, "fen", String::from_str(self.fen));
        crate::http::push_opt_str(&mut out, "play", self.play);
        crate::http::push_opt_str(&mut out, "variant", self.variant);
        crate::http::push_opt_string(&mut out, "speeds", &self.speeds);
        crate::http::push_opt_string(&mut out, "ratings", &self.ratings);
        crate::http::push_opt_str(&mut out, "since", self.since);
        crate::http::push_opt_str(&mut out, "until", self.until);
        crate::http::push_opt_u32(&mut out, "moves", self.moves);
        crate::http::push_opt_u32(&mut out, "topGames", self.top_games);
        crate::http::push_opt_u32(&mut out, "recentGames", self.recent_games);
        crate::http::push_opt_bool(&mut out, "history", self.history);
        assert(out.deep_view() =~= self.pairs_view());
        out
    }
}

/// Builder for a Lichess games lookup. Finish with [`send`](Self::send).
#[derive(Debug)]
pub struct LichessExplorerRequest<'a> {
    client: &'a LichessClient,
    /// The query built so far.
    pub query: LichessQuery<'a>,
}

impl<'a> LichessExplorerRequest<'a> {
    /// The client the builder is bound to.
    pub closed spec fn client_of(&self) -> &'a LichessClient {
        self.client
    }

    /// The query built so far.
    pub closed spec fn query_of(&self) -> LichessQuery<'a> {
        self.query
    }

    /// Creates the request builder for the position `fen`.
    pub fn new(client: &'a LichessClient, fen: &'a str) -> (r: Self)
        ensures
            r.client_of() == client,
            r.query_of() == (LichessQuery {
                fen,
                play: None,
                variant: None,
                speeds: None,
                ratings: None,
                since: None,
                until: None,
                moves: None,
                top_games: None,
                recent_games: None,
                history: None,
            }),
    {
        LichessExplorerRequest {
            client,
            query: LichessQuery {
                fen,
                play: None,
                variant: None,
                speeds: None,
                ratings: None,
                since: None,
                until: None,
                moves: None,
                top_games: None,
                recent_games: None,
                history: None,
            },
        }
    }
    /// Comma-separated UCI moves to apply to `fen` before the lookup.
    pub fn play(self, play: &'a str) -> (r: Self)
        ensures
            r.query_of() == (LichessQuery { play: Some(play), ..self.query_of() }),
            r.client_of() == self.client_of(),
    {
        let mut r = self;
        r.query.play = Some(play);
        r
    }
    /// Chess variant (defaults to standard when unset).
    pub fn variant(self, variant: &'a str) -> (r: Self)
        ensures
            r.query_of() == (LichessQuery { variant: Some(variant), ..self.query_of() }),
            r.client_of() == self.client_of(),
    {
        let mut r = self;
        r.query.variant = Some(variant);
        r
    }

    /// Restrict to these game speeds (empty = all).
    pub fn speeds(self, speeds: &[LichessSpeed]) -> (r: Self)
        ensures
            r.query_of() == (LichessQuery { speeds: r.query_of().speeds, ..self.query_of() }),
            opt_text(r.query_of().speeds) == csv(speed_views(speeds@)),
            r.client_of() == self.client_of(),
    {
        let mut r = self;
        r.query.speeds = speeds_csv(speeds);
        r
    }

    /// Restrict to these rating bands (empty = all).
    pub fn ratings(self, ratings: &[RatingGroup]) -> (r: Self)
        ensures
            r.query_of() == (LichessQuery { ratings: r.query_of().ratings, ..self.query_of() }),
            opt_text(r.query_of().ratings) == csv(rating_views(ratings@)),
            r.client_of() == self.client_of(),
    {
        let mut r = self;
        r.query.ratings = ratings_csv(ratings);
        r
    }
    /// Only games from this `YYYY-MM` or later.
    pub fn since(self, since: &'a str) -> (r: Self)
        ensures
            r.query_of() == (LichessQuery { since: Some(since), ..self.query_of() }),
            r.client_of() == self.client_of(),
    {
        let mut r = self;
        r.query.since = Some(since);
        r
    }
    /// Only games from this `YYYY-MM` or earlier.
    pub fn until(self, until: &'a str) -> (r: Self)
        ensures
            r.query_of() == (LichessQuery { until: Some(until), ..self.query_of() }),
            r.client_of() == self.client_of(),
    {
        let mut r = self;
        r.query.until = Some(until);
        r
    }
    /// Number of most-common moves to return.
    pub fn moves(self, moves: u32) -> (r: Self)
        ensures
            r.query_of() == (LichessQuery { moves: Some(moves), ..self.query_of() }),
            r.client_of() == self.client_of(),
    {
        let mut r = self;
        r.query.moves = Some(moves);
        r
    }
    /// Number of top games to return (max 4).
    pub fn top_games(self, count: u32) -> (r: Self)
        ensures
            r.query_of() == (LichessQuery { top_games: Some(count), ..self.query_of() }),
            r.client_of() == self.client_of(),
    {
        let mut r = self;
        r.query.top_games = Some(count);
        r
    }
    /// Number of recent games to return (max 4).
    pub fn recent_games(self, count: u32) -> (r: Self)
        ensures
            r.query_of() == (LichessQuery { recent_games: Some(count), ..self.query_of() }),
            r.client_of() == self.client_of(),
    {
        let mut r = self;
        r.query.recent_games = Some(count);
        r
    }
    /// Whether to include the month-by-month history.
    pub fn history(self, history: bool) -> (r: Self)
        ensures
            r.query_of() == (LichessQuery { history: Some(history), ..self.query_of() }),
            r.client_of() == self.client_of(),
    {
        let mut r = self;
        r.query.history = Some(history);
        r
    }

    /// Executes the lookup. `GET /lichess`
    pub fn send(self) -> (r: ApiRequest)
        ensures
            r@ == crate::http::bare(Method::Get, Host::OpeningExplorer, "/lichess"@).with_query(
                self.query_of().pairs_view(),
            ),
    {
        let pairs = self.query.pairs();
        self.client.request(Method::Get, Host::OpeningExplorer, String::from_str("/lichess"))
            .query(pairs)
    }
}

/// The `/player` query. `speeds`/`modes` are pre-joined.
#[derive(Debug, Clone)]
pub struct PlayerQuery<'a> {
    /// The player's username.
    pub player: &'a str,
    /// The side the player had.
    pub color: LichessColor,
    /// Chess variant.
    pub variant: Option<&'a str>,
    /// The position, as FEN.
    pub fen: &'a str,
    /// Comma-separated UCI moves to apply first.
    pub play: Option<&'a str>,
    /// Comma-joined speeds.
    pub speeds: Option<String>,
    /// Comma-joined modes.
    pub modes: Option<String>,
    /// Only games from this `YYYY-MM` or later.
    pub since: Option<&'a str>,
    /// Only games from this `YYYY-MM` or earlier.
    pub until: Option<&'a str>,
    /// Number of most-common moves to return.
    pub moves: Option<u32>,
    /// Number of recent games to return.
    pub recent_games: Option<u32>,
}

/// The pairs of [`PlayerQuery`] carry its field under `player`.
proof fn lemma_player_query_player(q: PlayerQuery)
    ensures
        crate::text::carries(q.pairs_view(), "player"@, Some(q.player@)),
{
    reveal_strlit("color");
    reveal_strlit("fen");
    reveal_strlit("modes");
    reveal_strlit("moves");
    reveal_strlit("play");
    reveal_strlit("player");
    reveal_strlit("recentGames");
    reveal_strlit("since");
    reveal_strlit("speeds");
    reveal_strlit("until");
    reveal_strlit("variant");
    assert("player"@.len() != "color"@.len());
    assert("player"@.len() != "fen"@.len());
    assert("player"@.len() != "modes"@.len());
    assert("player"@.len() != "moves"@.len());
    assert("player"@.len() != "play"@.len());
    assert("player"@.len() != "recentGames"@.len());
    assert("player"@.len() != "since"@.len());
    assert("player"@[0] != "speeds"@[0]);
    assert("player"@.len() != "until"@.len());
    assert("player"@.len() != "variant"@.len());
    let p0 = seq![("player"@, q.player@)];
    let p1 = seq![("color"@, q.color.wire())];
    let p2 = crate::http::str_pair("variant"@, q.variant);
    let p3 = seq![("fen"@, q.fen@)];
    let p4 = crate::http::str_pair("play"@, q.play);
    let p5 = crate::http::opt_pair("speeds"@, opt_text(q.speeds));
    let p6 = crate::http::opt_pair("modes"@, opt_text(q.modes));
    let p7 = crate::http::str_pair("since"@, q.since);
    let p8 = crate::http::str_pair("until"@, q.until);
    let p9 = crate::http::nat_pair("moves"@, crate::http::opt_u32(q.moves));
    let p10 = crate::http::nat_pair("recentGames"@, crate::http::opt_u32(q.recent_games));
    let s0 = p0;
    let s1 = s0 + p1;
    let s2 = s1 + p2;
    let s3 = s2 + p3;
    let s4 = s3 + p4;
    let s5 = s4 + p5;
    let s6 = s5 + p6;
    let s7 = s6 + p7;
    let s8 = s7 + p8;
    let s9 = s8 + p9;
    let s10 = s9 + p10;
    assert(q.pairs_view() == s10);
    let v = Some(q.player@);
    assert(p0 == crate::text::one_pair("player"@, v));
    crate::text::lemma_one_pair_carries("player"@, v);
    crate::text::lemma_extend(s0, p1, "player"@, v, false);
    crate::text::lemma_extend(s1, p2, "player"@, v, false);
    crate::text::lemma_extend(s2, p3, "player"@, v, false);
    crate::text::lemma_extend(s3, p4, "player"@, v, false);
    crate::text::lemma_extend(s4, p5, "player"@, v, false);
    crate::text::lemma_extend(s5, p6, "player"@, v, false);
    crate::text::lemma_extend(s6, p7, "player"@, v, false);
    crate::text::lemma_extend(s7, p8, "player"@, v, false);
    crate::text::lemma_extend(s8, p9, "player"@, v, false);
    crate::text::lemma_extend(s9, p10, "player"@, v, false);
}

/// The pairs of [`PlayerQuery`] carry its field under `color`.
proof fn lemma_player_query_color(q: PlayerQuery)
    ensures
        crate::text::carries(q.pairs_view(), "color"@, Some(q.color.wire())),
{
    reveal_strlit("color");
    reveal_strlit("fen");
    reveal_strlit("modes");
    reveal_strlit("moves");
    reveal_strlit("play");
    reveal_strlit("player");
    reveal_strlit("recentGames");
    reveal_strlit("since");
    reveal_strlit("speeds");
    reveal_strlit("until");
    reveal_strlit("variant");
    assert("color"@.len() != "fen"@.len());
    assert("color"@[0] != "modes"@[0]);
    assert("color"@[0] != "moves"@[0]);
    assert("color"@.len() != "play"@.len());
    assert("color"@.len() != "player"@.len());
    assert("color"@.len() != "recentGames"@.len());
    assert("color"@[0] != "since"@[0]);
    assert("color"@.len() != "speeds"@.len());
    assert("color"@[0] != "until"@[0]);
    assert("color"@.len() != "variant"@.len());
    let p0 = seq![("player"@, q.player@)];
    let p1 = seq![("color"@, q.color.wire())];
    let p2 = crate::http::str_pair("variant"@, q.variant);
    let p3 = seq![("fen"@, q.fen@)];
    let p4 = crate::http::str_pair("play"@, q.play);
    let p5 = crate::http::opt_pair("speeds"@, opt_text(q.speeds));
    let p6 = crate::http::opt_pair("modes"@, opt_text(q.modes));
    let p7 = crate::http::str_pair("since"@, q.since);
    let p8 = crate::http::str_pair("until"@, q.until);
    let p9 = crate::http::nat_pair("moves"@, crate::http::opt_u32(q.moves));
    let p10 = crate::http::nat_pair("recentGames"@, crate::http::opt_u32(q.recent_games));
    let s0 = p0;
    let s1 = s0 + p1;
    let s2 = s1 + p2;
    let s3 = s2 + p3;
    let s4 = s3 + p4;
    let s5 = s4 + p5;
    let s6 = s5 + p6;
    let s7 = s6 + p7;
    let s8 = s7 + p8;
    let s9 = s8 + p9;
    let s10 = s9 + p10;
    assert(q.pairs_view() == s10);
    let v = Some(q.color.wire());
    crate::text::lemma_extend(s0, p1, "color"@, v, true);
    crate::text::lemma_extend(s1, p2, "color"@, v, false);
    crate::text::lemma_extend(s2, p3, "color"@, v, false);
    crate::text::lemma_extend(s3, p4, "color"@, v, false);
    crate::text::lemma_extend(s4, p5, "color"@, v, false);
    crate::text::lemma_extend(s5, p6, "color"@, v, false);
    crate::text::lemma_extend(s6, p7, "color"@, v, false);
    crate::text::lemma_extend(s7, p8, "color"@, v, false);
    crate::text::lemma_extend(s8, p9, "color"@, v, false);
    crate::text::lemma_extend(s9, p10, "color"@, v, false);
}

/// The pairs of [`PlayerQuery`] carry its field under `variant`.
proof fn lemma_player_query_variant(q: PlayerQuery)
    ensures
        crate::text::carries(q.pairs_view(), "variant"@, match q.variant { Some(v) => Some(v@), None => None }),
{
    reveal_strlit("color");
    reveal_strlit("fen");
    reveal_strlit("modes");
    reveal_strlit("moves");
    reveal_strlit("play");
    reveal_strlit("player");
    reveal_strlit("recentGames");
    reveal_strlit("since");
    reveal_strlit("speeds");
    reveal_strlit("until");
    reveal_strlit("variant");
    assert("variant"@.len() != "color"@.len());
    assert("variant"@.len() != "fen"@.len());
    assert("variant"@.len() != "modes"@.len());
    assert("variant"@.len() != "moves"@.len());
    assert("variant"@.len() != "play"@.len());
    assert("variant"@.len() != "player"@.len());
    assert("variant"@.len() != "recentGames"@.len());
    assert("variant"@.len() != "since"@.len());
    assert("variant"@.len() != "speeds"@.len());
    assert("variant"@.len() != "until"@.len());
    let p0 = seq![("player"@, q.player@)];
    let p1 = seq![("color"@, q.color.wire())];
    let p2 = crate::http::str_pair("variant"@, q.variant);
    let p3 = seq![("fen"@, q.fen@)];
    let p4 = crate::http::str_pair("play"@, q.play);
    let p5 = crate::http::opt_pair("speeds"@, opt_text(q.speeds));
    let p6 = crate::http::opt_pair("modes"@, opt_text(q.modes));
    let p7 = crate::http::str_pair("since"@, q.since);
    let p8 = crate::http::str_pair("until"@, q.until);
    let p9 = crate::http::nat_pair("moves"@, crate::http::opt_u32(q.moves));
    let p10 = crate::http::nat_pair("recentGames"@, crate::http::opt_u32(q.recent_games));
    let s0 = p0;
    let s1 = s0 + p1;
    let s2 = s1 + p2;
    let s3 = s2 + p3;
    let s4 = s3 + p4;
    let s5 = s4 + p5;
    let s6 = s5 + p6;
    let s7 = s6 + p7;
    let s8 = s7 + p8;
    let s9 = s8 + p9;
    let s10 = s9 + p10;
    assert(q.pairs_view() == s10);
    let v = match q.variant { Some(v) => Some(v@), None => None };
    crate::text::lemma_extend(s0, p1, "variant"@, None, false);
    crate::text::lemma_extend(s1, p2, "variant"@, v, true);
    crate::text::lemma_extend(s2, p3, "variant"@, v, false);
    crate::text::lemma_extend(s3, p4, "variant"@, v, false);
    crate::text::lemma_extend(s4, p5, "variant"@, v, false);
    crate::text::lemma_extend(s5, p6, "variant"@, v, false);
    crate::text::lemma_extend(s6, p7, "variant"@, v, false);
    crate::text::lemma_extend(s7, p8, "variant"@, v, false);
    crate::text::lemma_extend(s8, p9, "variant"@, v, false);
    crate::text::lemma_extend(s9, p10, "variant"@, v, false);
}

/// The pairs of [`PlayerQuery`] carry its field under `fen`.
proof fn lemma_player_query_fen(q: PlayerQuery)
    ensures
        crate::text::carries(q.pairs_view(), "fen"@, Some(q.fen@)),
{
    reveal_strlit("color");
    reveal_strlit("fen");
    reveal_strlit("modes");
    reveal_strlit("moves");
    reveal_strlit("play");
    reveal_strlit("player");
    reveal_strlit("recentGames");
    reveal_strlit("since");
    reveal_strlit("speeds");
    reveal_strlit("until");
    reveal_strlit("variant");
    assert("fen"@.len() != "color"@.len());
    assert("fen"@.len() != "modes"@.len());
    assert("fen"@.len() != "moves"@.len());
    assert("fen"@.len() != "play"@.len());
    assert("fen"@.len() != "player"@.len());
    assert("fen"@.len() != "recentGames"@.len());
    assert("fen"@.len() != "since"@.len());
    assert("fen"@.len() != "speeds"@.len());
    assert("fen"@.len() != "until"@.len());
    assert("fen"@.len() != "variant"@.len());
    let p0 = seq![("player"@, q.player@)];
    let p1 = seq![("color"@, q.color.wire())];
    let p2 = crate::http::str_pair("variant"@, q.variant);
    let p3 = seq![("fen"@, q.fen@)];
    let p4 = crate::http::str_pair("play"@, q.play);
    let p5 = crate::http::opt_pair("speeds"@, opt_text(q.speeds));
    let p6 = crate::http::opt_pair("modes"@, opt_text(q.modes));
    let p7 = crate::http::str_pair("since"@, q.since);
    let p8 = crate::http::str_pair("until"@, q.until);
    let p9 = crate::http::nat_pair("moves"@, crate::http::opt_u32(q.moves));
    let p10 = crate::http::nat_pair("recentGames"@, crate::http::opt_u32(q.recent_games));
    let s0 = p0;
    let s1 = s0 + p1;
    let s2 = s1 + p2;
    let s3 = s2 + p3;
    let s4 = s3 + p4;
    let s5 = s4 + p5;
    let s6 = s5 + p6;
    let s7 = s6 + p7;
    let s8 = s7 + p8;
    let s9 = s8 + p9;
    let s10 = s9 + p10;
    assert(q.pairs_view() == s10);
    let v = Some(q.fen@);
    crate::text::lemma_extend(s0, p1, "fen"@, None, false);
    crate::text::lemma_extend(s1, p2, "fen"@, None, false);
    crate::text::lemma_extend(s2, p3, "fen"@, v, true);
    crate::text::lemma_extend(s3, p4, "fen"@, v, false);
    crate::text::lemma_extend(s4, p5, "fen"@, v, false);
    crate::text::lemma_extend(s5, p6, "fen"@, v, false);
    crate::text::lemma_extend(s6, p7, "fen"@, v, false);
    crate::text::lemma_extend(s7, p8, "fen"@, v, false);
    crate::text::lemma_extend(s8, p9, "fen"@, v, false);
    crate::text::lemma_extend(s9, p10, "fen"@, v, false);
}

/// The pairs of [`PlayerQuery`] carry its field under `play`.
proof fn lemma_player_query_play(q: PlayerQuery)
    ensures
        crate::text::carries(q.pairs_view(), "play"@, match q.play { Some(v) => Some(v@), None => None }),
{
    reveal_strlit("color");
    reveal_strlit("fen");
    reveal_strlit("modes");
    reveal_strlit("moves");
    reveal_strlit("play");
    reveal_strlit("player");
    reveal_strlit("recentGames");
    reveal_strlit("since");
    reveal_strlit("speeds");
    reveal_strlit("until");
    reveal_strlit("variant");
    assert("play"@.len() != "color"@.len());
    assert("play"@.len() != "fen"@.len());
    assert("play"@.len() != "modes"@.len());
    assert("play"@.len() != "moves"@.len());
    assert("play"@.len() != "player"@.len());
    assert("play"@.len() != "recentGames"@.len());
    assert("play"@.len() != "since"@.len());
    assert("play"@.len() != "speeds"@.len());
    assert("play"@.len() != "until"@.len());
    assert("play"@.len() != "variant"@.len());
    let p0 = seq![("player"@, q.player@)];
    let p1 = seq![("color"@, q.color.wire())];
    let p2 = crate::http::str_pair("variant"@, q.variant);
    let p3 = seq![("fen"@, q.fen@)];
    let p4 = crate::http::str_pair("play"@, q.play);
    let p5 = crate::http::opt_pair("speeds"@, opt_text(q.speeds));
    let p6 = crate::http::opt_pair("modes"@, opt_text(q.modes));
    let p7 = crate::http::str_pair("since"@, q.since);
    let p8 = crate::http::str_pair("until"@, q.until);
    let p9 = crate::http::nat_pair("moves"@, crate::http::opt_u32(q.moves));
    let p10 = crate::http::nat_pair("recentGames"@, crate::http::opt_u32(q.recent_games));
    let s0 = p0;
    let s1 = s0 + p1;
    let s2 = s1 + p2;
    let s3 = s2 + p3;
    let s4 = s3 + p4;
    let s5 = s4 + p5;
    let s6 = s5 + p6;
    let s7 = s6 + p7;
    let s8 = s7 + p8;
    let s9 = s8 + p9;
    let s10 = s9 + p10;
    assert(q.pairs_view() == s10);
    let v = match q.play { Some(v) => Some(v@), None => None };
    crate::text::lemma_extend(s0, p1, "play"@, None, false);
    crate::text::lemma_extend(s1, p2, "play"@, None, false);
    crate::text::lemma_extend(s2, p3, "play"@, None, false);
    crate::text::lemma_extend(s3, p4, "play"@, v, true);
    crate::text::lemma_extend(s4, p5, "play"@, v, false);
    crate::text::lemma_extend(s5, p6, "play"@, v, false);
    crate::text::lemma_extend(s6, p7, "play"@, v, false);
    crate::text::lemma_extend(s7, p8, "play"@, v, false);
    crate::text::lemma_extend(s8, p9, "play"@, v, false);
    crate::text::lemma_extend(s9, p10, "play"@, v, false);
}

/// The pairs of [`PlayerQuery`] carry its field under `speeds`.
proof fn lemma_player_query_speeds(q: PlayerQuery)
    ensures
        crate::text::carries(q.pairs_view(), "speeds"@, opt_text(q.speeds)),
{
    reveal_strlit("color");
    reveal_strlit("fen");
    reveal_strlit("modes");
    reveal_strlit("moves");
    reveal_strlit("play");
    reveal_strlit("player");
    reveal_strlit("recentGames");
    reveal_strlit("since");
    reveal_strlit("speeds");
    reveal_strlit("until");
    reveal_strlit("variant");
    assert("speeds"@.len() != "color"@.len());
    assert("speeds"@.len() != "fen"@.len());
    assert("speeds"@.len() != "modes"@.len());
    assert("speeds"@.len() != "moves"@.len());
    assert("speeds"@.len() != "play"@.len());
    assert("speeds"@[0] != "player"@[0]);
    assert("speeds"@.len() != "recentGames"@.len());
    assert("speeds"@.len() != "since"@.len());
    assert("speeds"@.len() != "until"@.len());
    assert("speeds"@.len() != "variant"@.len());
    let p0 = seq![("player"@, q.player@)];
    let p1 = seq![("color"@, q.color.wire())];
    let p2 = crate::http::str_pair("variant"@, q.variant);
    let p3 = seq![("fen"@, q.fen@)];
    let p4 = crate::http::str_pair("play"@, q.play);
    let p5 = crate::http::opt_pair("speeds"@, opt_text(q.speeds));
    let p6 = crate::http::opt_pair("modes"@, opt_text(q.modes));
    let p7 = crate::http::str_pair("since"@, q.since);
    let p8 = crate::http::str_pair("until"@, q.until);
    let p9 = crate::http::nat_pair("moves"@, crate::http::opt_u32(q.moves));
    let p10 = crate::http::nat_pair("recentGames"@, crate::http::opt_u32(q.recent_games));
    let s0 = p0;
    let s1 = s0 + p1;
    let s2 = s1 + p2;
    let s3 = s2 + p3;
    let s4 = s3 + p4;
    let s5 = s4 + p5;
    let s6 = s5 + p6;
    let s7 = s6 + p7;
    let s8 = s7 + p8;
    let s9 = s8 + p9;
    let s10 = s9 + p10;
    assert(q.pairs_view() == s10);
    let v = opt_text(q.speeds);
    crate::text::lemma_extend(s0, p1, "speeds"@, None, false);
    crate::text::lemma_extend(s1, p2, "speeds"@, None, false);
    crate::text::lemma_extend(s2, p3, "speeds"@, None, false);
    crate::text::lemma_extend(s3, p4, "speeds"@, None, false);
    crate::text::lemma_extend(s4, p5, "speeds"@, v, true);
    crate::text::lemma_extend(s5, p6, "speeds"@, v, false);
    crate::text::lemma_extend(s6, p7, "speeds"@, v, false);
    crate::text::lemma_extend(s7, p8, "speeds"@, v, false);
    crate::text::lemma_extend(s8, p9, "speeds"@, v, false);
    crate::text::lemma_extend(s9, p10, "speeds"@, v, false);
}

/// The pairs of [`PlayerQuery`] carry its field under `modes`.
proof fn lemma_player_query_modes(q: PlayerQuery)
    ensures
        crate::text::carries(q.pairs_view(), "modes"@, opt_text(q.modes)),
{
    reveal_strlit("color");
    reveal_strlit("fen");
    reveal_strlit("modes");
    reveal_strlit("moves");
    reveal_strlit("play");
    reveal_strlit("player");
    reveal_strlit("recentGames");
    reveal_strlit("since");
    reveal_strlit("speeds");
    reveal_strlit("until");
    reveal_strlit("variant");
    assert("modes"@[0] != "color"@[0]);
    assert("modes"@.len() != "fen"@.len());
    assert("modes"@[2] != "moves"@[2]);
    assert("modes"@.len() != "play"@.len());
    assert("modes"@.len() != "player"@.len());
    assert("modes"@.len() != "recentGames"@.len());
    assert("modes"@[0] != "since"@[0]);
    assert("modes"@.len() != "speeds"@.len());
    assert("modes"@[0] != "until"@[0]);
    assert("modes"@.len() != "variant"@.len());
    let p0 = seq![("player"@, q.player@)];
    let p1 = seq![("color"@, q.color.wire())];
    let p2 = crate::http::str_pair("variant"@, q.variant);
    let p3 = seq![("fen"@, q.fen@)];
    let p4 = crate::http::str_pair("play"@, q.play);
    let p5 = crate::http::opt_pair("speeds"@, opt_text(q.speeds));
    let p6 = crate::http::opt_pair("modes"@, opt_text(q.modes));
    let p7 = crate::http::str_pair("since"@, q.since);
    let p8 = crate::http::str_pair("until"@, q.until);
    let p9 = crate::http::nat_pair("moves"@, crate::http::opt_u32(q.moves));
    let p10 = crate::http::nat_pair("recentGames"@, crate::http::opt_u32(q.recent_games));
    let s0 = p0;
    let s1 = s0 + p1;
    let s2 = s1 + p2;
    let s3 = s2 + p3;
    let s4 = s3 + p4;
    let s5 = s4 + p5;
    let s6 = s5 + p6;
    let s7 = s6 + p7;
    let s8 = s7 + p8;
    let s9 = s8 + p9;
    let s10 = s9 + p10;
    assert(q.pairs_view() == s10);
    let v = opt_text(q.modes);
    crate::text::lemma_extend(s0, p1, "modes"@, None, false);
    crate::text::lemma_extend(s1, p2, "modes"@, None, false);
    crate::text::lemma_extend(s2, p3, "modes"@, None, false);
    crate::text::lemma_extend(s3, p4, "modes"@, None, false);
    crate::text::lemma_extend(s4, p5, "modes"@, None, false);
    crate::text::lemma_extend(s5, p6, "modes"@, v, true);
    crate::text::lemma_extend(s6, p7, "modes"@, v, false);
    crate::text::lemma_extend(s7, p8, "modes"@, v, false);
    crate::text::lemma_extend(s8, p9, "modes"@, v, false);
    crate::text::lemma_extend(s9, p10, "modes"@, v, false);
}

/// The pairs of [`PlayerQuery`] carry its field under `since`.
proof fn lemma_player_query_since(q: PlayerQuery)
    ensures
        crate::text::carries(q.pairs_view(), "since"@, match q.since { Some(v) => Some(v@), None => None }),
{
    reveal_strlit("color");
    reveal_strlit("fen");
    reveal_strlit("modes");
    reveal_strlit("moves");
    reveal_strlit("play");
    reveal_strlit("player");
    reveal_strlit("recentGames");
    reveal_strlit("since");
    reveal_strlit("speeds");
    reveal_strlit("until");
    reveal_strlit("variant");
    assert("since"@[0] != "color"@[0]);
    assert("since"@.len() != "fen"@.len());
    assert("since"@[0] != "modes"@[0]);
    assert("since"@[0] != "moves"@[0]);
    assert("since"@.len() != "play"@.len());
    assert("since"@.len() != "player"@.len());
    assert("since"@.len() != "recentGames"@.len());
    assert("since"@.len() != "speeds"@.len());
    assert("since"@[0] != "until"@[0]);
    assert("since"@.len() != "variant"@.len());
    let p0 = seq![("player"@, q.player@)];
    let p1 = seq![("color"@, q.color.wire())];
    let p2 = crate::http::str_pair("variant"@, q.variant);
    let p3 = seq![("fen"@, q.fen@)];
    let p4 = crate::http::str_pair("play"@, q.play);
    let p5 = crate::http::opt_pair("speeds"@, opt_text(q.speeds));
    let p6 = crate::http::opt_pair("modes"@, opt_text(q.modes));
    let p7 = crate::http::str_pair("since"@, q.since);
    let p8 = crate::http::str_pair("until"@, q.until);
    let p9 = crate::http::nat_pair("moves"@, crate::http::opt_u32(q.moves));
    let p10 = crate::http::nat_pair("recentGames"@, crate::http::opt_u32(q.recent_games));
    let s0 = p0;
    let s1 = s0 + p1;
    let s2 = s1 + p2;
    let s3 = s2 + p3;
    let s4 = s3 + p4;
    let s5 = s4 + p5;
    let s6 = s5 + p6;
    let s7 = s6 + p7;
    let s8 = s7 + p8;
    let s9 = s8 + p9;
    let s10 = s9 + p10;
    assert(q.pairs_view() == s10);
    let v = match q.since { Some(v) => Some(v@), None => None };
    crate::text::lemma_extend(s0, p1, "since"@, None, false);
    crate::text::lemma_extend(s1, p2, "since"@, None, false);
    crate::text::lemma_extend(s2, p3, "since"@, None, false);
    crate::text::lemma_extend(s3, p4, "since"@, None, false);
    crate::text::lemma_extend(s4, p5, "since"@, None, false);
    crate::text::lemma_extend(s5, p6, "since"@, None, false);
    crate::text::lemma_extend(s6, p7, "since"@, v, true);
    crate::text::lemma_extend(s7, p8, "since"@, v, false);
    crate::text::lemma_extend(s8, p9, "since"@, v, false);
    crate::text::lemma_extend(s9, p10, "since"@, v, false);
}

/// The pairs of [`PlayerQuery`] carry its field under `until`.
proof fn lemma_player_query_until(q: PlayerQuery)
    ensures
        crate::text::carries(q.pairs_view(), "until"@, match q.until { Some(v) => Some(v@), None => None }),
{
    reveal_strlit("color");
    reveal_strlit("fen");
    reveal_strlit("modes");
    reveal_strlit("moves");
    reveal_strlit("play");
    reveal_strlit("player");
    reveal_strlit("recentGames");
    reveal_strlit("since");
    reveal_strlit("speeds");
    reveal_strlit("until");
    reveal_strlit("variant");
    assert("until"@[0] != "color"@[0]);
    assert("until"@.len() != "fen"@.len());
    assert("until"@[0] != "modes"@[0]);
    assert("until"@[0] != "moves"@[0]);
    assert("until"@.len() != "play"@.len());
    assert("until"@.len() != "player"@.len());
    assert("until"@.len() != "recentGames"@.len());
    assert("until"@[0] != "since"@[0]);
    assert("until"@.len() != "speeds"@.len());
    assert("until"@.len() != "variant"@.len());
    let p0 = seq![("player"@, q.player@)];
    let p1 = seq![("color"@, q.color.wire())];
    let p2 = crate::http::str_pair("variant"@, q.variant);
    let p3 = seq![("fen"@, q.fen@)];
    let p4 = crate::http::str_pair("play"@, q.play);
    let p5 = crate::http::opt_pair("speeds"@, opt_text(q.speeds));
    let p6 = crate::http::opt_pair("modes"@, opt_text(q.modes));
    let p7 = crate::http::str_pair("since"@, q.since);
    let p8 = crate::http::str_pair("until"@, q.until);
    let p9 = crate::http::nat_pair("moves"@, crate::http::opt_u32(q.moves));
    let p10 = crate::http::nat_pair("recentGames"@, crate::http::opt_u32(q.recent_games));
    let s0 = p0;
    let s1 = s0 + p1;
    let s2 = s1 + p2;
    let s3 = s2 + p3;
    let s4 = s3 + p4;
    let s5 = s4 + p5;
    let s6 = s5 + p6;
    let s7 = s6 + p7;
    let s8 = s7 + p8;
    let s9 = s8 + p9;
    let s10 = s9 + p10;
    assert(q.pairs_view() == s10);
    let v = match q.until { Some(v) => Some(v@), None => None };
    crate::text::lemma_extend(s0, p1, "until"@, None, false);
    crate::text::lemma_extend(s1, p2, "until"@, None, false);
    crate::text::lemma_extend(s2, p3, "until"@, None, false);
    crate::text::lemma_extend(s3, p4, "until"@, None, false);
    crate::text::lemma_extend(s4, p5, "until"@, None, false);
    crate::text::lemma_extend(s5, p6, "until"@, None, false);
    crate::text::lemma_extend(s6, p7, "until"@, None, false);
    crate::text::lemma_extend(s7, p8, "until"@, v, true);
    crate::text::lemma_extend(s8, p9, "until"@, v, false);
    crate::text::lemma_extend(s9, p10, "until"@, v, false);
}

/// The pairs of [`PlayerQuery`] carry its field under `moves`.
proof fn lemma_player_query_moves(q: PlayerQuery)
    ensures
        crate::text::carries(q.pairs_view(), "moves"@, match q.moves { Some(x) => Some(crate::text::dec_nat(x as nat)), None => None }),
{
    reveal_strlit("color");
    reveal_strlit("fen");
    reveal_strlit("modes");
    reveal_strlit("moves");
    reveal_strlit("play");
    reveal_strlit("player");
    reveal_strlit("recentGames");
    reveal_strlit("since");
    reveal_strlit("speeds");
    reveal_strlit("until");
    reveal_strlit("variant");
    assert("moves"@[0] != "color"@[0]);
    assert("moves"@.len() != "fen"@.len());
    assert("moves"@[2] != "modes"@[2]);
    assert("moves"@.len() != "play"@.len());
    assert("moves"@.len() != "player"@.len());
    assert("moves"@.len() != "recentGames"@.len());
    assert("moves"@[0] != "since"@[0]);
    assert("moves"@.len() != "speeds"@.len());
    assert("moves"@[0] != "until"@[0]);
    assert("moves"@.len() != "variant"@.len());
    let p0 = seq![("player"@, q.player@)];
    let p1 = seq![("color"@, q.color.wire())];
    let p2 = crate::http::str_pair("variant"@, q.variant);
    let p3 = seq![("fen"@, q.fen@)];
    let p4 = crate::http::str_pair("play"@, q.play);
    let p5 = crate::http::opt_pair("speeds"@, opt_text(q.speeds));
    let p6 = crate::http::opt_pair("modes"@, opt_text(q.modes));
    let p7 = crate::http::str_pair("since"@, q.since);
    let p8 = crate::http::str_pair("until"@, q.until);
    let p9 = crate::http::nat_pair("moves"@, crate::http::opt_u32(q.moves));
    let p10 = crate::http::nat_pair("recentGames"@, crate::http::opt_u32(q.recent_games));
    let s0 = p0;
    let s1 = s0 + p1;
    let s2 = s1 + p2;
    let s3 = s2 + p3;
    let s4 = s3 + p4;
    let s5 = s4 + p5;
    let s6 = s5 + p6;
    let s7 = s6 + p7;
    let s8 = s7 + p8;
    let s9 = s8 + p9;
    let s10 = s9 + p10;
    assert(q.pairs_view() == s10);
    let v = match q.moves { Some(x) => Some(crate::text::dec_nat(x as nat)), None => None };
    crate::text::lemma_extend(s0, p1, "moves"@, None, false);
    crate::text::lemma_extend(s1, p2, "moves"@, None, false);
    crate::text::lemma_extend(s2, p3, "moves"@, None, false);
    crate::text::lemma_extend(s3, p4, "moves"@, None, false);
    crate::text::lemma_extend(s4, p5, "moves"@, None, false);
    crate::text::lemma_extend(s5, p6, "moves"@, None, false);
    crate::text::lemma_extend(s6, p7, "moves"@, None, false);
    crate::text::lemma_extend(s7, p8, "moves"@, None, false);
    crate::text::lemma_extend(s8, p9, "moves"@, v, true);
    crate::text::lemma_extend(s9, p10, "moves"@, v, false);
}

/// The pairs of [`PlayerQuery`] carry its field under `recentGames`.
proof fn lemma_player_query_recent_games(q: PlayerQuery)
    ensures
        crate::text::carries(q.pairs_view(), "recentGames"@, match q.recent_games { Some(x) => Some(crate::text::dec_nat(x as nat)), None => None }),
{
    reveal_strlit("color");
    reveal_strlit("fen");
    reveal_strlit("modes");
    reveal_strlit("moves");
    reveal_strlit("play");
    reveal_strlit("player");
    reveal_strlit("recentGames");
    reveal_strlit("since");
    reveal_strlit("speeds");
    reveal_strlit("until");
    reveal_strlit("variant");
    assert("recentGames"@.len() != "color"@.len());
    assert("recentGames"@.len() != "fen"@.len());
    assert("recentGames"@.len() != "modes"@.len());
    assert("recentGames"@.len() != "moves"@.len());
    assert("recentGames"@.len() != "play"@.len());
    assert("recentGames"@.len() != "player"@.len());
    assert("recentGames"@.len() != "since"@.len());
    assert("recentGames"@.len() != "speeds"@.len());
    assert("recentGames"@.len() != "until"@.len());
    assert("recentGames"@.len() != "variant"@.len());
    let p0 = seq![("player"@, q.player@)];
    let p1 = seq![("color"@, q.color.wire())];
    let p2 = crate::http::str_pair("variant"@, q.variant);
    let p3 = seq![("fen"@, q.fen@)];
    let p4 = crate::http::str_pair("play"@, q.play);
    let p5 = crate::http::opt_pair("speeds"@, opt_text(q.speeds));
    let p6 = crate::http::opt_pair("modes"@, opt_text(q.modes));
    let p7 = crate::http::str_pair("since"@, q.since);
    let p8 = crate::http::str_pair("until"@, q.until);
    let p9 = crate::http::nat_pair("moves"@, crate::http::opt_u32(q.moves));
    let p10 = crate::http::nat_pair("recentGames"@, crate::http::opt_u32(q.recent_games));
    let s0 = p0;
    let s1 = s0 + p1;
    let s2 = s1 + p2;
    let s3 = s2 + p3;
    let s4 = s3 + p4;
    let s5 = s4 + p5;
    let s6 = s5 + p6;
    let s7 = s6 + p7;
    let s8 = s7 + p8;
    let s9 = s8 + p9;
    let s10 = s9 + p10;
    assert(q.pairs_view() == s10);
    let v = match q.recent_games { Some(x) => Some(crate::text::dec_nat(x as nat)), None => None };
    crate::text::lemma_extend(s0, p1, "recentGames"@, None, false);
    crate::text::lemma_extend(s1, p2, "recentGames"@, None, false);
    crate::text::lemma_extend(s2, p3, "recentGames"@, None, false);
    crate::text::lemma_extend(s3, p4, "recentGames"@, None, false);
    crate::text::lemma_extend(s4, p5, "recentGames"@, None, false);
    crate::text::lemma_extend(s5, p6, "recentGames"@, None, false);
    crate::text::lemma_extend(s6, p7, "recentGames"@, None, false);
    crate::text::lemma_extend(s7, p8, "recentGames"@, None, false);
    crate::text::lemma_extend(s8, p9, "recentGames"@, None, false);
    crate::text::lemma_extend(s9, p10, "recentGames"@, v, true);
}

/// The pairs of [`PlayerQuery`] carry each of its fields under that field's own
/// key (`player`, `color`, `variant`, `fen`, `play`, `speeds`, `modes`, `since`, `until`, `moves`, `recentGames`), with the value given to it, and a key only when its field is set.
pub proof fn lemma_player_query_carries_fields(q: PlayerQuery)
    ensures
        crate::text::carries(q.pairs_view(), "player"@, Some(q.player@)),
        crate::text::carries(q.pairs_view(), "color"@, Some(q.color.wire())),
        crate::text::carries(q.pairs_view(), "variant"@, match q.variant { Some(v) => Some(v@), None => None }),
        crate::text::carries(q.pairs_view(), "fen"@, Some(q.fen@)),
        crate::text::carries(q.pairs_view(), "play"@, match q.play { Some(v) => Some(v@), None => None }),
        crate::text::carries(q.pairs_view(), "speeds"@, opt_text(q.speeds)),
        crate::text::carries(q.pairs_view(), "modes"@, opt_text(q.modes)),
        crate::text::carries(q.pairs_view(), "since"@, match q.since { Some(v) => Some(v@), None => None }),
        crate::text::carries(q.pairs_view(), "until"@, match q.until { Some(v) => Some(v@), None => None }),
        crate::text::carries(q.pairs_view(), "moves"@, match q.moves { Some(x) => Some(crate::text::dec_nat(x as nat)), None => None }),
        crate::text::carries(q.pairs_view(), "recentGames"@, match q.recent_games { Some(x) => Some(crate::text::dec_nat(x as nat)), None => None }),
{
    lemma_player_query_player(q);
    lemma_player_query_color(q);
    lemma_player_query_variant(q);
    lemma_player_query_fen(q);
    lemma_player_query_play(q);
    lemma_player_query_speeds(q);
    lemma_player_query_modes(q);
    lemma_player_query_since(q);
    lemma_player_query_until(q);
    lemma_player_query_moves(q);
    lemma_player_query_recent_games(q);
}

impl<'a> PlayerQuery<'a> {
    /// The query pairs, in order.
    pub open spec fn pairs_view(self) -> Pairs {
        seq![("player"@, self.player@)]
            + seq![("color"@, self.color.wire())]
            + crate::http::str_pair("variant"@, self.variant)
            + seq![("fen"@, self.fen@)]
            + crate::http::str_pair("play"@, self.play)
            + crate::http::opt_pair("speeds"@, opt_text(self.speeds))
            + crate::http::opt_pair("modes"@, opt_text(self.modes))
            + crate::http::str_pair("since"@, self.since)
            + crate::http::str_pair("until"@, self.until)
            + crate::http::nat_pair("moves"@, crate::http::opt_u32(self.moves))
            + crate::http::nat_pair("recentGames"@, crate::http::opt_u32(self.recent_games))
    }

    /// The query pairs.
    #[verifier::rlimit(40)]
    pub fn pairs(&self) -> (r: Vec<(String, String)>)
        ensures
            r.deep_view() == self.pairs_view(),
    {
        let mut out: Vec<(String, String)> = Vec::new();
        crate::http::push_pair(&mut out, "player", String::from_str(self.player));
        crate::http::push_pair(&mut out, "color", String::from_str(self.color.as_str()));
        crate::http::push_opt_str(&mut out, "variant", self.variant);
        crate::http::push_pair(&mut out, "fen", String::from_str(self.fen));
        crate::http::push_opt_str(&mut out, "play", self.play);
        crate::http::push_opt_string(&mut out, "speeds", &self.speeds);
        crate::http::push_opt_string(&mut out, "modes", &self.modes);
        crate::http::push_opt_str(&mut out, "since", self.since);
        crate::http::push_opt_str(&mut out, "until", self.until);
        crate::http::push_opt_u32(&mut out, "moves", self.moves);
        crate::http::push_opt_u32(&mut out, "recentGames", self.recent_games);
        assert(out.deep_view() =~= self.pairs_view());
        out
    }
}

/// Builder for a player games lookup. Finish with [`stream`](Self::stream).
#[derive(Debug)]
pub struct PlayerExplorerRequest<'a> {
    client: &'a LichessClient,
    /// The query built so far.
    pub query: PlayerQuery<'a>,
}

impl<'a> PlayerExplorerRequest<'a> {
    /// The client the builder is bound to.
    pub closed spec fn client_of(&self) -> &'a LichessClient {
        self.client
    }

    /// The query built so far.
    pub closed spec fn query_of(&self) -> PlayerQuery<'a> {
        self.query
    }

    /// Creates the request builder for `player` on `color` at position `fen`.
    pub fn new(client: &'a LichessClient, player: &'a str, color: LichessColor, fen: &'a str) -> (r: Self)
        ensures
            r.client_of() == client,
            r.query_of() == (PlayerQuery {
                player,
                color,
                variant: None,
                fen,
                play: None,
                speeds: None,
                modes: None,
                since: None,
                until: None,
                moves: None,
                recent_games: None,
            }),
    {
        PlayerExplorerRequest {
            client,
            query: PlayerQuery {
                player,
                color,
                variant: None,
                fen,
                play: None,
                speeds: None,
                modes: None,
                since: None,
                until: None,
                moves: None,
                recent_games: None,
            },
        }
    }
    /// Comma-separated UCI moves to apply to `fen` before the lookup.
    pub fn play(self, play: &'a str) -> (r: Self)
        ensures
            r.query_of() == (PlayerQuery { play: Some(play), ..self.query_of() }),
            r.client_of() == self.client_of(),
    {
        let mut r = self;
        r.query.play = Some(play);
        r
    }
    /// Chess variant (defaults to standard when unset).
    pub fn variant(self, variant: &'a str) -> (r: Self)
        ensures
            r.query_of() == (PlayerQuery { variant: Some(variant), ..self.query_of() }),
            r.client_of() == self.client_of(),
    {
        let mut r = self;
        r.query.variant = Some(variant);
        r
    }

    /// Restrict to these game speeds (empty = all).
    pub fn speeds(self, speeds: &[LichessSpeed]) -> (r: Self)
        ensures
            r.query_of() == (PlayerQuery { speeds: r.query_of().speeds, ..self.query_of() }),
            opt_text(r.query_of().speeds) == csv(speed_views(speeds@)),
            r.client_of() == self.client_of(),
    {
        let mut r = self;
        r.query.speeds = speeds_csv(speeds);
        r
    }

    /// Restrict to these game modes (empty = all).
    pub fn modes(self, modes: &[ExplorerMode]) -> (r: Self)
        ensures
            r.query_of() == (PlayerQuery { modes: r.query_of().modes, ..self.query_of() }),
            opt_text(r.query_of().modes) == csv(mode_views(modes@)),
            r.client_of() == self.client_of(),
    {
        let mut r = self;
        r.query.modes = modes_csv(modes);
        r
    }
    /// Only games from this `YYYY-MM` or later.
    pub fn since(self, since: &'a str) -> (r: Self)
        ensures
            r.query_of() == (PlayerQuery { since: Some(since), ..self.query_of() }),
            r.client_of() == self.client_of(),
    {
        let mut r = self;
        r.query.since = Some(since);
        r
    }
    /// Only games from this `YYYY-MM` or earlier.
    pub fn until(self, until: &'a str) -> (r: Self)
        ensures
            r.query_of() == (PlayerQuery { until: Some(until), ..self.query_of() }),
            r.client_of() == self.client_of(),
    {
        let mut r = self;
        r.query.until = Some(until);
        r
    }
    /// Number of most-common moves to return.
    pub fn moves(self, moves: u32) -> (r: Self)
        ensures
            r.query_of() == (PlayerQuery { moves: Some(moves), ..self.query_of() }),
            r.client_of() == self.client_of(),
    {
        let mut r = self;
        r.query.moves = Some(moves);
        r
    }
    /// Number of recent games to return (max 8).
    pub fn recent_games(self, count: u32) -> (r: Self)
        ensures
            r.query_of() == (PlayerQuery { recent_games: Some(count), ..self.query_of() }),
            r.client_of() == self.client_of(),
    {
        let mut r = self;
        r.query.recent_games = Some(count);
        r
    }

    /// Executes the lookup, streaming results as they are computed (NDJSON).
    /// `GET /player`
    pub fn stream(self) -> (r: ApiRequest)
        ensures
            r@ == crate::http::bare(Method::Get, Host::OpeningExplorer, "/player"@).with_query(
                self.query_of().pairs_view(),
            ),
    {
        let pairs = self.query.pairs();
        self.client.request(Method::Get, Host::OpeningExplorer, String::from_str("/player"))
            .query(pairs)
    }
}

/// Accessor for the Opening Explorer API.
#[derive(Debug)]
pub struct OpeningExplorerApi<'a> {
    client: &'a LichessClient,
}

impl<'a> OpeningExplorerApi<'a> {
    /// The client the builder is bound to.
    pub closed spec fn client_of(&self) -> &'a LichessClient {
        self.client
    }

    /// Binds the accessor to a client.
    pub fn new(client: &'a LichessClient) -> (r: Self)
        ensures
            r.client_of() == client,
    {
        OpeningExplorerApi { client }
    }

    /// Looks up a position in the masters database. `GET /masters`
    ///
    /// Returns a builder; refine it (date range, counts) and finish with
    /// [`MastersExplorerRequest::send`].
    pub fn masters(&self, fen: &'a str) -> (r: MastersExplorerRequest<'a>)
        ensures
            r.query_of() == (
                MastersQuery {
                    fen,
                    play: None,
                    since: None,
                    until: None,
                    moves: None,
                    top_games: None,
                }
            ),
            r.client_of() == self.client_of(),
    {
        MastersExplorerRequest::new(self.client, fen)
    }

    /// Looks up a position in the Lichess games database. `GET /lichess`
    ///
    /// Returns a builder; refine it (speeds, ratings, date range, …) and finish
    /// with [`LichessExplorerRequest::send`].
    pub fn lichess(&self, fen: &'a str) -> (r: LichessExplorerRequest<'a>)
        ensures
            r.query_of() == (LichessQuery {
                fen,
                play: None,
                variant: None,
                speeds: None,
                ratings: None,
                since: None,
                until: None,
                moves: None,
                top_games: None,
                recent_games: None,
                history: None,
            }),
            r.client_of() == self.client_of(),
    {
        LichessExplorerRequest::new(self.client, fen)
    }

    /// Streams a player's opening statistics for a position. `GET /player`
    ///
    /// Returns a builder; refine it (variant, speeds, modes, …) and finish with
    /// [`PlayerExplorerRequest::stream`].
    pub fn player(&self, player: &'a str, color: LichessColor, fen: &'a str) -> (r: PlayerExplorerRequest<'a>)
        ensures
            r.query_of() == (PlayerQuery {
                player,
                color,
                variant: None,
                fen,
                play: None,
                speeds: None,
                modes: None,
                since: None,
                until: None,
                moves: None,
                recent_games: None,
            }),
            r.client_of() == self.client_of(),
    {
        PlayerExplorerRequest::new(self.client, player, color, fen)
    }

    /// Downloads a master game as PGN. `GET /masters/pgn/{gameId}`
    pub fn masters_pgn(&self, game_id: &str) -> (r: ApiRequest)
        ensures
            r@ == crate::http::bare(
                Method::Get,
                Host::OpeningExplorer,
                "/masters/pgn/"@ + crate::text::segment_text(game_id@),
            ),
    {
        let path = crate::http::path1("/masters/pgn/", game_id, "");
        proof {
            reveal_strlit("");
            assert(path@ =~= "/masters/pgn/"@ + crate::text::segment_text(game_id@));
        }
        self.client.request(Method::Get, Host::OpeningExplorer, path)
    }
}

impl LichessClient {
    /// Opening Explorer API (`explorer.lichess.org`).
    pub fn opening_explorer(&self) -> (r: OpeningExplorerApi<'_>)
        ensures
            r.client_of() == self,
    {
        OpeningExplorerApi::new(self)
    }
}

} // verus!
