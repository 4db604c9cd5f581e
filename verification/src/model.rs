//! Value types shared by several endpoints: colors, speeds, variants, and the
//! export-format options of games and PGN.

use vstd::prelude::*;

use crate::http;
use crate::http::push_opt_bool;
use crate::text::Pairs;

verus! {

/// A side of the board.
#[derive(Debug, Clone, Copy, PartialEq, Eq, Hash, Structural)]
pub enum LichessColor {
    /// White.
    White,
    /// Black.
    Black,
}

/// The wire text of each [`LichessColor`], as the API spells it: `White` is `white`,
/// `Black` is `black`.
pub proof fn lemma_lichess_color_wire_texts()
    ensures
        LichessColor::White.wire() == seq!['w', 'h', 'i', 't', 'e'],
        LichessColor::Black.wire() == seq!['b', 'l', 'a', 'c', 'k'],
{
    reveal_strlit("black");
    reveal_strlit("white");
    assert(LichessColor::White.wire() =~= seq!['w', 'h', 'i', 't', 'e']);
    assert(LichessColor::Black.wire() =~= seq!['b', 'l', 'a', 'c', 'k']);
}

impl LichessColor {
    /// The wire representation of an optional value.
    pub open spec fn opt_wire(o: Option<LichessColor>) -> Option<Seq<char>> {
        match o {
            Some(x) => Some(x.wire()),
            None => None,
        }
    }

    /// The wire representation, `"white"` or `"black"`.
    pub fn as_str(self) -> (r: &'static str)
        ensures
            r@ == self.wire(),
    {
        match self {
            LichessColor::White => "white",
            LichessColor::Black => "black",
        }
    }

    /// The wire representation of each color.
    pub open spec fn wire(self) -> Seq<char> {
        match self {
            LichessColor::White => "white"@,
            LichessColor::Black => "black"@,
        }
    }
}

/// A game speed category.
#[derive(Debug, Clone, Copy, PartialEq, Eq, Hash, Structural)]
pub enum LichessSpeed {
    /// Ultra-bullet.
    UltraBullet,
    /// Bullet.
    Bullet,
    /// Blitz.
    Blitz,
    /// Rapid.
    Rapid,
    /// Classical.
    Classical,
    /// Correspondence.
    Correspondence,
}

/// The wire text of each [`LichessSpeed`], as the API spells it: `UltraBullet` is
/// `ultraBullet`, `Bullet` is `bullet`, `Blitz` is `blitz`, `Rapid` is `rapid`, `Classical`
/// is `classical`, `Correspondence` is `correspondence`.
pub proof fn lemma_lichess_speed_wire_texts()
    ensures
        LichessSpeed::UltraBullet.wire() == seq!['u', 'l', 't', 'r', 'a', 'B', 'u', 'l', 'l', 'e', 't'],
        LichessSpeed::Bullet.wire() == seq!['b', 'u', 'l', 'l', 'e', 't'],
        LichessSpeed::Blitz.wire() == seq!['b', 'l', 'i', 't', 'z'],
        LichessSpeed::Rapid.wire() == seq!['r', 'a', 'p', 'i', 'd'],
        LichessSpeed::Classical.wire() == seq!['c', 'l', 'a', 's', 's', 'i', 'c', 'a', 'l'],
        LichessSpeed::Correspondence.wire() == seq!['c', 'o', 'r', 'r', 'e', 's', 'p', 'o', 'n', 'd', 'e', 'n', 'c', 'e'],
{
    reveal_strlit("blitz");
    reveal_strlit("bullet");
    reveal_strlit("classical");
    reveal_strlit("correspondence");
    reveal_strlit("rapid");
    reveal_strlit("ultraBullet");
    assert(LichessSpeed::UltraBullet.wire() =~= seq!['u', 'l', 't', 'r', 'a', 'B', 'u', 'l', 'l', 'e', 't']);
    assert(LichessSpeed::Bullet.wire() =~= seq!['b', 'u', 'l', 'l', 'e', 't']);
    assert(LichessSpeed::Blitz.wire() =~= seq!['b', 'l', 'i', 't', 'z']);
    assert(LichessSpeed::Rapid.wire() =~= seq!['r', 'a', 'p', 'i', 'd']);
    assert(LichessSpeed::Classical.wire() =~= seq!['c', 'l', 'a', 's', 's', 'i', 'c', 'a', 'l']);
    assert(LichessSpeed::Correspondence.wire() =~= seq!['c', 'o', 'r', 'r', 'e', 's', 'p', 'o', 'n', 'd', 'e', 'n', 'c', 'e']);
}

impl LichessSpeed {
    /// The wire representation of an optional value.
    pub open spec fn opt_wire(o: Option<LichessSpeed>) -> Option<Seq<char>> {
        match o {
            Some(x) => Some(x.wire()),
            None => None,
        }
    }

    /// The wire representation, e.g. `"ultraBullet"`.
    pub fn as_str(self) -> (r: &'static str)
        ensures
            r@ == self.wire(),
    {
        match self {
            LichessSpeed::UltraBullet => "ultraBullet",
            LichessSpeed::Bullet => "bullet",
            LichessSpeed::Blitz => "blitz",
            LichessSpeed::Rapid => "rapid",
            LichessSpeed::Classical => "classical",
            LichessSpeed::Correspondence => "correspondence",
        }
    }

    /// The wire representation of each speed.
    pub open spec fn wire(self) -> Seq<char> {
        match self {
            LichessSpeed::UltraBullet => "ultraBullet"@,
            LichessSpeed::Bullet => "bullet"@,
            LichessSpeed::Blitz => "blitz"@,
            LichessSpeed::Rapid => "rapid"@,
            LichessSpeed::Classical => "classical"@,
            LichessSpeed::Correspondence => "correspondence"@,
        }
    }
}

/// A chess variant, by its API key.
#[derive(Debug, Clone, Copy, PartialEq, Eq, Hash, Structural)]
pub enum LichessVariantKey {
    /// Standard chess.
    Standard,
    /// Chess960.
    Chess960,
    /// Crazyhouse.
    Crazyhouse,
    /// Antichess.
    Antichess,
    /// Atomic.
    Atomic,
    /// Horde.
    Horde,
    /// King of the Hill.
    KingOfTheHill,
    /// Racing Kings.
    RacingKings,
    /// Three-check.
    ThreeCheck,
    /// Standard rules from a custom position.
    FromPosition,
}

/// The wire text of each [`LichessVariantKey`], as the API spells it: `Standard` is
/// `standard`, `Chess960` is `chess960`, `Crazyhouse` is `crazyhouse`, `Antichess` is
/// `antichess`, `Atomic` is `atomic`, `Horde` is `horde`, `KingOfTheHill` is
/// `kingOfTheHill`, `RacingKings` is `racingKings`, `ThreeCheck` is `threeCheck`,
/// `FromPosition` is `fromPosition`.
pub proof fn lemma_lichess_variant_key_wire_texts()
    ensures
        LichessVariantKey::Standard.wire() == seq!['s', 't', 'a', 'n', 'd', 'a', 'r', 'd'],
        LichessVariantKey::Chess960.wire() == seq!['c', 'h', 'e', 's', 's', '9', '6', '0'],
        LichessVariantKey::Crazyhouse.wire() == seq!['c', 'r', 'a', 'z', 'y', 'h', 'o', 'u', 's', 'e'],
        LichessVariantKey::Antichess.wire() == seq!['a', 'n', 't', 'i', 'c', 'h', 'e', 's', 's'],
        LichessVariantKey::Atomic.wire() == seq!['a', 't', 'o', 'm', 'i', 'c'],
        LichessVariantKey::Horde.wire() == seq!['h', 'o', 'r', 'd', 'e'],
        LichessVariantKey::KingOfTheHill.wire() == seq!['k', 'i', 'n', 'g', 'O', 'f', 'T', 'h', 'e', 'H', 'i', 'l', 'l'],
        LichessVariantKey::RacingKings.wire() == seq!['r', 'a', 'c', 'i', 'n', 'g', 'K', 'i', 'n', 'g', 's'],
        LichessVariantKey::ThreeCheck.wire() == seq!['t', 'h', 'r', 'e', 'e', 'C', 'h', 'e', 'c', 'k'],
        LichessVariantKey::FromPosition.wire() == seq!['f', 'r', 'o', 'm', 'P', 'o', 's', 'i', 't', 'i', 'o', 'n'],
{
    reveal_strlit("antichess");
    reveal_strlit("atomic");
    reveal_strlit("chess960");
    reveal_strlit("crazyhouse");
    reveal_strlit("fromPosition");
    reveal_strlit("horde");
    reveal_strlit("kingOfTheHill");
    reveal_strlit("racingKings");
    reveal_strlit("standard");
    reveal_strlit("threeCheck");
    assert(LichessVariantKey::Standard.wire() =~= seq!['s', 't', 'a', 'n', 'd', 'a', 'r', 'd']);
    assert(LichessVariantKey::Chess960.wire() =~= seq!['c', 'h', 'e', 's', 's', '9', '6', '0']);
    assert(LichessVariantKey::Crazyhouse.wire() =~= seq!['c', 'r', 'a', 'z', 'y', 'h', 'o', 'u', 's', 'e']);
    assert(LichessVariantKey::Antichess.wire() =~= seq!['a', 'n', 't', 'i', 'c', 'h', 'e', 's', 's']);
    assert(LichessVariantKey::Atomic.wire() =~= seq!['a', 't', 'o', 'm', 'i', 'c']);
    assert(LichessVariantKey::Horde.wire() =~= seq!['h', 'o', 'r', 'd', 'e']);
    assert(LichessVariantKey::KingOfTheHill.wire() =~= seq!['k', 'i', 'n', 'g', 'O', 'f', 'T', 'h', 'e', 'H', 'i', 'l', 'l']);
    assert(LichessVariantKey::RacingKings.wire() =~= seq!['r', 'a', 'c', 'i', 'n', 'g', 'K', 'i', 'n', 'g', 's']);
    assert(LichessVariantKey::ThreeCheck.wire() =~= seq!['t', 'h', 'r', 'e', 'e', 'C', 'h', 'e', 'c', 'k']);
    assert(LichessVariantKey::FromPosition.wire() =~= seq!['f', 'r', 'o', 'm', 'P', 'o', 's', 'i', 't', 'i', 'o', 'n']);
}

impl LichessVariantKey {
    /// The wire representation of an optional value.
    pub open spec fn opt_wire(o: Option<LichessVariantKey>) -> Option<Seq<char>> {
        match o {
            Some(x) => Some(x.wire()),
            None => None,
        }
    }

    /// The wire representation, e.g. `"kingOfTheHill"`.
    pub fn as_str(self) -> (r: &'static str)
        ensures
            r@ == self.wire(),
    {
        match self {
            LichessVariantKey::Standard => "standard",
            LichessVariantKey::Chess960 => "chess960",
            LichessVariantKey::Crazyhouse => "crazyhouse",
            LichessVariantKey::Antichess => "antichess",
            LichessVariantKey::Atomic => "atomic",
            LichessVariantKey::Horde => "horde",
            LichessVariantKey::KingOfTheHill => "kingOfTheHill",
            LichessVariantKey::RacingKings => "racingKings",
            LichessVariantKey::ThreeCheck => "threeCheck",
            LichessVariantKey::FromPosition => "fromPosition",
        }
    }

    /// The wire representation of each variant.
    pub open spec fn wire(self) -> Seq<char> {
        match self {
            LichessVariantKey::Standard => "standard"@,
            LichessVariantKey::Chess960 => "chess960"@,
            LichessVariantKey::Crazyhouse => "crazyhouse"@,
            LichessVariantKey::Antichess => "antichess"@,
            LichessVariantKey::Atomic => "atomic"@,
            LichessVariantKey::Horde => "horde"@,
            LichessVariantKey::KingOfTheHill => "kingOfTheHill"@,
            LichessVariantKey::RacingKings => "racingKings"@,
            LichessVariantKey::ThreeCheck => "threeCheck"@,
            LichessVariantKey::FromPosition => "fromPosition"@,
        }
    }
}

/// The wire value of an optional variant.
pub open spec fn variant_wire(v: Option<LichessVariantKey>) -> Option<Seq<char>> {
    match v {
        Some(k) => Some(k.wire()),
        None => None,
    }
}

/// The wire value of an optional color.
pub open spec fn color_wire(c: Option<LichessColor>) -> Option<Seq<char>> {
    match c {
        Some(k) => Some(k.wire()),
        None => None,
    }
}

/// The wire text of an optional variant, for a form or query.
pub fn variant_text(v: Option<LichessVariantKey>) -> (r: Option<&'static str>)
    ensures
        match r {
            Some(s) => variant_wire(v) == Some(s@),
            None => v is None,
        },
{
    match v {
        Some(k) => Some(k.as_str()),
        None => None,
    }
}

/// The wire text of an optional color, for a form or query.
pub fn color_text(c: Option<LichessColor>) -> (r: Option<&'static str>)
    ensures
        match r {
            Some(s) => color_wire(c) == Some(s@),
            None => c is None,
        },
{
    match c {
        Some(k) => Some(k.as_str()),
        None => None,
    }
}

/// Format options shared by every game export (moves, clocks, evals, ...).
///
/// Each flag left `None` is omitted from the query, leaving the server default.
#[derive(Debug, Clone, Copy, PartialEq, Eq, Structural)]
pub struct GameExportOptions {
    /// Include the PGN moves.
    pub moves: Option<bool>,
    /// Include the full PGN inside the JSON response.
    pub pgn_in_json: Option<bool>,
    /// Include the PGN tags.
    pub tags: Option<bool>,
    /// Include clock comments.
    pub clocks: Option<bool>,
    /// Include analysis evaluations.
    pub evals: Option<bool>,
    /// Include per-player accuracy (JSON only).
    pub accuracy: Option<bool>,
    /// Include the opening name.
    pub opening: Option<bool>,
    /// Insert textual annotations.
    pub literate: Option<bool>,
}

impl Default for GameExportOptions {
    /// Every flag unset.
    fn default() -> (r: Self)
        ensures
            r == Self::blank(),
    {
        GameExportOptions {
            moves: None,
            pgn_in_json: None,
            tags: None,
            clocks: None,
            evals: None,
            accuracy: None,
            opening: None,
            literate: None,
        }
    }
}

/// The pairs of [`GameExportOptions`] carry its field under `moves`.
proof fn lemma_game_export_options_moves(q: GameExportOptions)
    ensures
        crate::text::carries(q.pairs_view(), "moves"@, match q.moves { Some(b) => Some(if b { seq!['t', 'r', 'u', 'e'] } else { seq!['f', 'a', 'l', 's', 'e'] }), None => None }),
{
    reveal_strlit("accuracy");
    reveal_strlit("clocks");
    reveal_strlit("evals");
    reveal_strlit("literate");
    reveal_strlit("moves");
    reveal_strlit("opening");
    reveal_strlit("pgnInJson");
    reveal_strlit("tags");
    assert("moves"@.len() != "accuracy"@.len());
    assert("moves"@.len() != "clocks"@.len());
    assert("moves"@[0] != "evals"@[0]);
    assert("moves"@.len() != "literate"@.len());
    assert("moves"@.len() != "opening"@.len());
    assert("moves"@.len() != "pgnInJson"@.len());
    assert("moves"@.len() != "tags"@.len());
    let p0 = http::bool_pair("moves"@, q.moves);
    let p1 = http::bool_pair("pgnInJson"@, q.pgn_in_json);
    let p2 = http::bool_pair("tags"@, q.tags);
    let p3 = http::bool_pair("clocks"@, q.clocks);
    let p4 = http::bool_pair("evals"@, q.evals);
    let p5 = http::bool_pair("accuracy"@, q.accuracy);
    let p6 = http::bool_pair("opening"@, q.opening);
    let p7 = http::bool_pair("literate"@, q.literate);
    let s0 = p0;
    let s1 = s0 + p1;
    let s2 = s1 + p2;
    let s3 = s2 + p3;
    let s4 = s3 + p4;
    let s5 = s4 + p5;
    let s6 = s5 + p6;
    let s7 = s6 + p7;
    assert(q.pairs_view() == s7);
    let v = match q.moves { Some(b) => Some(if b { seq!['t', 'r', 'u', 'e'] } else { seq!['f', 'a', 'l', 's', 'e'] }), None => None };
    assert(p0 == crate::text::one_pair("moves"@, v));
    crate::text::lemma_one_pair_carries("moves"@, v);
    crate::text::lemma_extend(s0, p1, "moves"@, v, false);
    crate::text::lemma_extend(s1, p2, "moves"@, v, false);
    crate::text::lemma_extend(s2, p3, "moves"@, v, false);
    crate::text::lemma_extend(s3, p4, "moves"@, v, false);
    crate::text::lemma_extend(s4, p5, "moves"@, v, false);
    crate::text::lemma_extend(s5, p6, "moves"@, v, false);
    crate::text::lemma_extend(s6, p7, "moves"@, v, false);
}

/// The pairs of [`GameExportOptions`] carry its field under `pgnInJson`.
proof fn lemma_game_export_options_pgn_in_json(q: GameExportOptions)
    ensures
        crate::text::carries(q.pairs_view(), "pgnInJson"@, match q.pgn_in_json { Some(b) => Some(if b { seq!['t', 'r', 'u', 'e'] } else { seq!['f', 'a', 'l', 's', 'e'] }), None => None }),
{
    reveal_strlit("accuracy");
    reveal_strlit("clocks");
    reveal_strlit("evals");
    reveal_strlit("literate");
    reveal_strlit("moves");
    reveal_strlit("opening");
    reveal_strlit("pgnInJson");
    reveal_strlit("tags");
    assert("pgnInJson"@.len() != "accuracy"@.len());
    assert("pgnInJson"@.len() != "clocks"@.len());
    assert("pgnInJson"@.len() != "evals"@.len());
    assert("pgnInJson"@.len() != "literate"@.len());
    assert("pgnInJson"@.len() != "moves"@.len());
    assert("pgnInJson"@.len() != "opening"@.len());
    assert("pgnInJson"@.len() != "tags"@.len());
    let p0 = http::bool_pair("moves"@, q.moves);
    let p1 = http::bool_pair("pgnInJson"@, q.pgn_in_json);
    let p2 = http::bool_pair("tags"@, q.tags);
    let p3 = http::bool_pair("clocks"@, q.clocks);
    let p4 = http::bool_pair("evals"@, q.evals);
    let p5 = http::bool_pair("accuracy"@, q.accuracy);
    let p6 = http::bool_pair("opening"@, q.opening);
    let p7 = http::bool_pair("literate"@, q.literate);
    let s0 = p0;
    let s1 = s0 + p1;
    let s2 = s1 + p2;
    let s3 = s2 + p3;
    let s4 = s3 + p4;
    let s5 = s4 + p5;
    let s6 = s5 + p6;
    let s7 = s6 + p7;
    assert(q.pairs_view() == s7);
    let v = match q.pgn_in_json { Some(b) => Some(if b { seq!['t', 'r', 'u', 'e'] } else { seq!['f', 'a', 'l', 's', 'e'] }), None => None };
    crate::text::lemma_extend(s0, p1, "pgnInJson"@, v, true);
    crate::text::lemma_extend(s1, p2, "pgnInJson"@, v, false);
    crate::text::lemma_extend(s2, p3, "pgnInJson"@, v, false);
    crate::text::lemma_extend(s3, p4, "pgnInJson"@, v, false);
    crate::text::lemma_extend(s4, p5, "pgnInJson"@, v, false);
    crate::text::lemma_extend(s5, p6, "pgnInJson"@, v, false);
    crate::text::lemma_extend(s6, p7, "pgnInJson"@, v, false);
}

/// The pairs of [`GameExportOptions`] carry its field under `tags`.
proof fn lemma_game_export_options_tags(q: GameExportOptions)
    ensures
        crate::text::carries(q.pairs_view(), "tags"@, match q.tags { Some(b) => Some(if b { seq!['t', 'r', 'u', 'e'] } else { seq!['f', 'a', 'l', 's', 'e'] }), None => None }),
{
    reveal_strlit("accuracy");
    reveal_strlit("clocks");
    reveal_strlit("evals");
    reveal_strlit("literate");
    reveal_strlit("moves");
    reveal_strlit("opening");
    reveal_strlit("pgnInJson");
    reveal_strlit("tags");
    assert("tags"@.len() != "accuracy"@.len());
    assert("tags"@.len() != "clocks"@.len());
    assert("tags"@.len() != "evals"@.len());
    assert("tags"@.len() != "literate"@.len());
    assert("tags"@.len() != "moves"@.len());
    assert("tags"@.len() != "opening"@.len());
    assert("tags"@.len() != "pgnInJson"@.len());
    let p0 = http::bool_pair("moves"@, q.moves);
    let p1 = http::bool_pair("pgnInJson"@, q.pgn_in_json);
    let p2 = http::bool_pair("tags"@, q.tags);
    let p3 = http::bool_pair("clocks"@, q.clocks);
    let p4 = http::bool_pair("evals"@, q.evals);
    let p5 = http::bool_pair("accuracy"@, q.accuracy);
    let p6 = http::bool_pair("opening"@, q.opening);
    let p7 = http::bool_pair("literate"@, q.literate);
    let s0 = p0;
    let s1 = s0 + p1;
    let s2 = s1 + p2;
    let s3 = s2 + p3;
    let s4 = s3 + p4;
    let s5 = s4 + p5;
    let s6 = s5 + p6;
    let s7 = s6 + p7;
    assert(q.pairs_view() == s7);
    let v = match q.tags { Some(b) => Some(if b { seq!['t', 'r', 'u', 'e'] } else { seq!['f', 'a', 'l', 's', 'e'] }), None => None };
    crate::text::lemma_extend(s0, p1, "tags"@, None, false);
    crate::text::lemma_extend(s1, p2, "tags"@, v, true);
    crate::text::lemma_extend(s2, p3, "tags"@, v, false);
    crate::text::lemma_extend(s3, p4, "tags"@, v, false);
    crate::text::lemma_extend(s4, p5, "tags"@, v, false);
    crate::text::lemma_extend(s5, p6, "tags"@, v, false);
    crate::text::lemma_extend(s6, p7, "tags"@, v, false);
}

/// The pairs of [`GameExportOptions`] carry its field under `clocks`.
proof fn lemma_game_export_options_clocks(q: GameExportOptions)
    ensures
        crate::text::carries(q.pairs_view(), "clocks"@, match q.clocks { Some(b) => Some(if b { seq!['t', 'r', 'u', 'e'] } else { seq!['f', 'a', 'l', 's', 'e'] }), None => None }),
{
    reveal_strlit("accuracy");
    reveal_strlit("clocks");
    reveal_strlit("evals");
    reveal_strlit("literate");
    reveal_strlit("moves");
    reveal_strlit("opening");
    reveal_strlit("pgnInJson");
    reveal_strlit("tags");
    assert("clocks"@.len() != "accuracy"@.len());
    assert("clocks"@.len() != "evals"@.len());
    assert("clocks"@.len() != "literate"@.len());
    assert("clocks"@.len() != "moves"@.len());
    assert("clocks"@.len() != "opening"@.len());
    assert("clocks"@.len() != "pgnInJson"@.len());
    assert("clocks"@.len() != "tags"@.len());
    let p0 = http::bool_pair("moves"@, q.moves);
    let p1 = http::bool_pair("pgnInJson"@, q.pgn_in_json);
    let p2 = http::bool_pair("tags"@, q.tags);
    let p3 = http::bool_pair("clocks"@, q.clocks);
    let p4 = http::bool_pair("evals"@, q.evals);
    let p5 = http::bool_pair("accuracy"@, q.accuracy);
    let p6 = http::bool_pair("opening"@, q.opening);
    let p7 = http::bool_pair("literate"@, q.literate);
    let s0 = p0;
    let s1 = s0 + p1;
    let s2 = s1 + p2;
    let s3 = s2 + p3;
    let s4 = s3 + p4;
    let s5 = s4 + p5;
    let s6 = s5 + p6;
    let s7 = s6 + p7;
    assert(q.pairs_view() == s7);
    let v = match q.clocks { Some(b) => Some(if b { seq!['t', 'r', 'u', 'e'] } else { seq!['f', 'a', 'l', 's', 'e'] }), None => None };
    crate::text::lemma_extend(s0, p1, "clocks"@, None, false);
    crate::text::lemma_extend(s1, p2, "clocks"@, None, false);
    crate::text::lemma_extend(s2, p3, "clocks"@, v, true);
    crate::text::lemma_extend(s3, p4, "clocks"@, v, false);
    crate::text::lemma_extend(s4, p5, "clocks"@, v, false);
    crate::text::lemma_extend(s5, p6, "clocks"@, v, false);
    crate::text::lemma_extend(s6, p7, "clocks"@, v, false);
}

/// The pairs of [`GameExportOptions`] carry its field under `evals`.
proof fn lemma_game_export_options_evals(q: GameExportOptions)
    ensures
        crate::text::carries(q.pairs_view(), "evals"@, match q.evals { Some(b) => Some(if b { seq!['t', 'r', 'u', 'e'] } else { seq!['f', 'a', 'l', 's', 'e'] }), None => None }),
{
    reveal_strlit("accuracy");
    reveal_strlit("clocks");
    reveal_strlit("evals");
    reveal_strlit("literate");
    reveal_strlit("moves");
    reveal_strlit("opening");
    reveal_strlit("pgnInJson");
    reveal_strlit("tags");
    assert("evals"@.len() != "accuracy"@.len());
    assert("evals"@.len() != "clocks"@.len());
    assert("evals"@.len() != "literate"@.len());
    assert("evals"@[0] != "moves"@[0]);
    assert("evals"@.len() != "opening"@.len());
    assert("evals"@.len() != "pgnInJson"@.len());
    assert("evals"@.len() != "tags"@.len());
    let p0 = http::bool_pair("moves"@, q.moves);
    let p1 = http::bool_pair("pgnInJson"@, q.pgn_in_json);
    let p2 = http::bool_pair("tags"@, q.tags);
    let p3 = http::bool_pair("clocks"@, q.clocks);
    let p4 = http::bool_pair("evals"@, q.evals);
    let p5 = http::bool_pair("accuracy"@, q.accuracy);
    let p6 = http::bool_pair("opening"@, q.opening);
    let p7 = http::bool_pair("literate"@, q.literate);
    let s0 = p0;
    let s1 = s0 + p1;
    let s2 = s1 + p2;
    let s3 = s2 + p3;
    let s4 = s3 + p4;
    let s5 = s4 + p5;
    let s6 = s5 + p6;
    let s7 = s6 + p7;
    assert(q.pairs_view() == s7);
    let v = match q.evals { Some(b) => Some(if b { seq!['t', 'r', 'u', 'e'] } else { seq!['f', 'a', 'l', 's', 'e'] }), None => None };
    crate::text::lemma_extend(s0, p1, "evals"@, None, false);
    crate::text::lemma_extend(s1, p2, "evals"@, None, false);
    crate::text::lemma_extend(s2, p3, "evals"@, None, false);
    crate::text::lemma_extend(s3, p4, "evals"@, v, true);
    crate::text::lemma_extend(s4, p5, "evals"@, v, false);
    crate::text::lemma_extend(s5, p6, "evals"@, v, false);
    crate::text::lemma_extend(s6, p7, "evals"@, v, false);
}

/// The pairs of [`GameExportOptions`] carry its field under `accuracy`.
proof fn lemma_game_export_options_accuracy(q: GameExportOptions)
    ensures
        crate::text::carries(q.pairs_view(), "accuracy"@, match q.accuracy { Some(b) => Some(if b { seq!['t', 'r', 'u', 'e'] } else { seq!['f', 'a', 'l', 's', 'e'] }), None => None }),
{
    reveal_strlit("accuracy");
    reveal_strlit("clocks");
    reveal_strlit("evals");
    reveal_strlit("literate");
    reveal_strlit("moves");
    reveal_strlit("opening");
    reveal_strlit("pgnInJson");
    reveal_strlit("tags");
    assert("accuracy"@.len() != "clocks"@.len());
    assert("accuracy"@.len() != "evals"@.len());
    assert("accuracy"@[0] != "literate"@[0]);
    assert("accuracy"@.len() != "moves"@.len());
    assert("accuracy"@.len() != "opening"@.len());
    assert("accuracy"@.len() != "pgnInJson"@.len());
    assert("accuracy"@.len() != "tags"@.len());
    let p0 = http::bool_pair("moves"@, q.moves);
    let p1 = http::bool_pair("pgnInJson"@, q.pgn_in_json);
    let p2 = http::bool_pair("tags"@, q.tags);
    let p3 = http::bool_pair("clocks"@, q.clocks);
    let p4 = http::bool_pair("evals"@, q.evals);
    let p5 = http::bool_pair("accuracy"@, q.accuracy);
    let p6 = http::bool_pair("opening"@, q.opening);
    let p7 = http::bool_pair("literate"@, q.literate);
    let s0 = p0;
    let s1 = s0 + p1;
    let s2 = s1 + p2;
    let s3 = s2 + p3;
    let s4 = s3 + p4;
    let s5 = s4 + p5;
    let s6 = s5 + p6;
    let s7 = s6 + p7;
    assert(q.pairs_view() == s7);
    let v = match q.accuracy { Some(b) => Some(if b { seq!['t', 'r', 'u', 'e'] } else { seq!['f', 'a', 'l', 's', 'e'] }), None => None };
    crate::text::lemma_extend(s0, p1, "accuracy"@, None, false);
    crate::text::lemma_extend(s1, p2, "accuracy"@, None, false);
    crate::text::lemma_extend(s2, p3, "accuracy"@, None, false);
    crate::text::lemma_extend(s3, p4, "accuracy"@, None, false);
    crate::text::lemma_extend(s4, p5, "accuracy"@, v, true);
    crate::text::lemma_extend(s5, p6, "accuracy"@, v, false);
    crate::text::lemma_extend(s6, p7, "accuracy"@, v, false);
}

/// The pairs of [`GameExportOptions`] carry its field under `opening`.
proof fn lemma_game_export_options_opening(q: GameExportOptions)
    ensures
        crate::text::carries(q.pairs_view(), "opening"@, match q.opening { Some(b) => Some(if b { seq!['t', 'r', 'u', 'e'] } else { seq!['f', 'a', 'l', 's', 'e'] }), None => None }),
{
    reveal_strlit("accuracy");
    reveal_strlit("clocks");
    reveal_strlit("evals");
    reveal_strlit("literate");
    reveal_strlit("moves");
    reveal_strlit("opening");
    reveal_strlit("pgnInJson");
    reveal_strlit("tags");
    assert("opening"@.len() != "accuracy"@.len());
    assert("opening"@.len() != "clocks"@.len());
    assert("opening"@.len() != "evals"@.len());
    assert("opening"@.len() != "literate"@.len());
    assert("opening"@.len() != "moves"@.len());
    assert("opening"@.len() != "pgnInJson"@.len());
    assert("opening"@.len() != "tags"@.len());
    let p0 = http::bool_pair("moves"@, q.moves);
    let p1 = http::bool_pair("pgnInJson"@, q.pgn_in_json);
    let p2 = http::bool_pair("tags"@, q.tags);
    let p3 = http::bool_pair("clocks"@, q.clocks);
    let p4 = http::bool_pair("evals"@, q.evals);
    let p5 = http::bool_pair("accuracy"@, q.accuracy);
    let p6 = http::bool_pair("opening"@, q.opening);
    let p7 = http::bool_pair("literate"@, q.literate);
    let s0 = p0;
    let s1 = s0 + p1;
    let s2 = s1 + p2;
    let s3 = s2 + p3;
    let s4 = s3 + p4;
    let s5 = s4 + p5;
    let s6 = s5 + p6;
    let s7 = s6 + p7;
    assert(q.pairs_view() == s7);
    let v = match q.opening { Some(b) => Some(if b { seq!['t', 'r', 'u', 'e'] } else { seq!['f', 'a', 'l', 's', 'e'] }), None => None };
    crate::text::lemma_extend(s0, p1, "opening"@, None, false);
    crate::text::lemma_extend(s1, p2, "opening"@, None, false);
    crate::text::lemma_extend(s2, p3, "opening"@, None, false);
    crate::text::lemma_extend(s3, p4, "opening"@, None, false);
    crate::text::lemma_extend(s4, p5, "opening"@, None, false);
    crate::text::lemma_extend(s5, p6, "opening"@, v, true);
    crate::text::lemma_extend(s6, p7, "opening"@, v, false);
}

/// The pairs of [`GameExportOptions`] carry its field under `literate`.
proof fn lemma_game_export_options_literate(q: GameExportOptions)
    ensures
        crate::text::carries(q.pairs_view(), "literate"@, match q.literate { Some(b) => Some(if b { seq!['t', 'r', 'u', 'e'] } else { seq!['f', 'a', 'l', 's', 'e'] }), None => None }),
{
    reveal_strlit("accuracy");
    reveal_strlit("clocks");
    reveal_strlit("evals");
    reveal_strlit("literate");
    reveal_strlit("moves");
    reveal_strlit("opening");
    reveal_strlit("pgnInJson");
    reveal_strlit("tags");
    assert("literate"@[0] != "accuracy"@[0]);
    assert("literate"@.len() != "clocks"@.len());
    assert("literate"@.len() != "evals"@.len());
    assert("literate"@.len() != "moves"@.len());
    assert("literate"@.len() != "opening"@.len());
    assert("literate"@.len() != "pgnInJson"@.len());
    assert("literate"@.len() != "tags"@.len());
    let p0 = http::bool_pair("moves"@, q.moves);
    let p1 = http::bool_pair("pgnInJson"@, q.pgn_in_json);
    let p2 = http::bool_pair("tags"@, q.tags);
    let p3 = http::bool_pair("clocks"@, q.clocks);
    let p4 = http::bool_pair("evals"@, q.evals);
    let p5 = http::bool_pair("accuracy"@, q.accuracy);
    let p6 = http::bool_pair("opening"@, q.opening);
    let p7 = http::bool_pair("literate"@, q.literate);
    let s0 = p0;
    let s1 = s0 + p1;
    let s2 = s1 + p2;
    let s3 = s2 + p3;
    let s4 = s3 + p4;
    let s5 = s4 + p5;
    let s6 = s5 + p6;
    let s7 = s6 + p7;
    assert(q.pairs_view() == s7);
    let v = match q.literate { Some(b) => Some(if b { seq!['t', 'r', 'u', 'e'] } else { seq!['f', 'a', 'l', 's', 'e'] }), None => None };
    crate::text::lemma_extend(s0, p1, "literate"@, None, false);
    crate::text::lemma_extend(s1, p2, "literate"@, None, false);
    crate::text::lemma_extend(s2, p3, "literate"@, None, false);
    crate::text::lemma_extend(s3, p4, "literate"@, None, false);
    crate::text::lemma_extend(s4, p5, "literate"@, None, false);
    crate::text::lemma_extend(s5, p6, "literate"@, None, false);
    crate::text::lemma_extend(s6, p7, "literate"@, v, true);
}

/// The pairs of [`GameExportOptions`] carry each of its fields under that field's own
/// key (`moves`, `pgnInJson`, `tags`, `clocks`, `evals`, `accuracy`, `opening`, `literate`), with the value given to it, and a key only when its field is set.
pub proof fn lemma_game_export_options_carries_fields(q: GameExportOptions)
    ensures
        crate::text::carries(q.pairs_view(), "moves"@, match q.moves { Some(b) => Some(if b { seq!['t', 'r', 'u', 'e'] } else { seq!['f', 'a', 'l', 's', 'e'] }), None => None }),
        crate::text::carries(q.pairs_view(), "pgnInJson"@, match q.pgn_in_json { Some(b) => Some(if b { seq!['t', 'r', 'u', 'e'] } else { seq!['f', 'a', 'l', 's', 'e'] }), None => None }),
        crate::text::carries(q.pairs_view(), "tags"@, match q.tags { Some(b) => Some(if b { seq!['t', 'r', 'u', 'e'] } else { seq!['f', 'a', 'l', 's', 'e'] }), None => None }),
        crate::text::carries(q.pairs_view(), "clocks"@, match q.clocks { Some(b) => Some(if b { seq!['t', 'r', 'u', 'e'] } else { seq!['f', 'a', 'l', 's', 'e'] }), None => None }),
        crate::text::carries(q.pairs_view(), "evals"@, match q.evals { Some(b) => Some(if b { seq!['t', 'r', 'u', 'e'] } else { seq!['f', 'a', 'l', 's', 'e'] }), None => None }),
        crate::text::carries(q.pairs_view(), "accuracy"@, match q.accuracy { Some(b) => Some(if b { seq!['t', 'r', 'u', 'e'] } else { seq!['f', 'a', 'l', 's', 'e'] }), None => None }),
        crate::text::carries(q.pairs_view(), "opening"@, match q.opening { Some(b) => Some(if b { seq!['t', 'r', 'u', 'e'] } else { seq!['f', 'a', 'l', 's', 'e'] }), None => None }),
        crate::text::carries(q.pairs_view(), "literate"@, match q.literate { Some(b) => Some(if b { seq!['t', 'r', 'u', 'e'] } else { seq!['f', 'a', 'l', 's', 'e'] }), None => None }),
{
    lemma_game_export_options_moves(q);
    lemma_game_export_options_pgn_in_json(q);
    lemma_game_export_options_tags(q);
    lemma_game_export_options_clocks(q);
    lemma_game_export_options_evals(q);
    lemma_game_export_options_accuracy(q);
    lemma_game_export_options_opening(q);
    lemma_game_export_options_literate(q);
}

impl GameExportOptions {
    /// Every flag unset.
    pub open spec fn blank() -> Self {
        GameExportOptions {
            moves: None,
            pgn_in_json: None,
            tags: None,
            clocks: None,
            evals: None,
            accuracy: None,
            opening: None,
            literate: None,
        }
    }

    /// The query pairs of the options, in declaration order.
    pub open spec fn pairs_view(self) -> Pairs {
        http::bool_pair("moves"@, self.moves)
            + http::bool_pair("pgnInJson"@, self.pgn_in_json)
            + http::bool_pair("tags"@, self.tags)
            + http::bool_pair("clocks"@, self.clocks)
            + http::bool_pair("evals"@, self.evals)
            + http::bool_pair("accuracy"@, self.accuracy)
            + http::bool_pair("opening"@, self.opening)
            + http::bool_pair("literate"@, self.literate)
    }

    /// The query pairs of the options.
    pub fn pairs(&self) -> (r: Vec<(String, String)>)
        ensures
            r.deep_view() == self.pairs_view(),
    {
        let mut out: Vec<(String, String)> = Vec::new();
        push_opt_bool(&mut out, "moves", self.moves);
        push_opt_bool(&mut out, "pgnInJson", self.pgn_in_json);
        push_opt_bool(&mut out, "tags", self.tags);
        push_opt_bool(&mut out, "clocks", self.clocks);
        push_opt_bool(&mut out, "evals", self.evals);
        push_opt_bool(&mut out, "accuracy", self.accuracy);
        push_opt_bool(&mut out, "opening", self.opening);
        push_opt_bool(&mut out, "literate", self.literate);
        assert(out.deep_view() =~= self.pairs_view());
        out
    }
}

/// Export flags left unset add no pair to the query, leaving the server's
/// defaults.
pub proof fn lemma_unset_options_add_nothing()
    ensures
        GameExportOptions::blank().pairs_view() == Seq::<(Seq<char>, Seq<char>)>::empty(),
        PgnExportOptions::blank().pairs_view() == Seq::<(Seq<char>, Seq<char>)>::empty(),
{
    assert(GameExportOptions::blank().pairs_view() =~= Seq::<(Seq<char>, Seq<char>)>::empty());
    assert(PgnExportOptions::blank().pairs_view() =~= Seq::<(Seq<char>, Seq<char>)>::empty());
}

/// Options for PGN exports of broadcasts and studies.
///
/// Each flag left `None` is omitted from the query, leaving the server default.
#[derive(Debug, Clone, Copy, PartialEq, Eq, Structural)]
pub struct PgnExportOptions {
    /// Include clock comments.
    pub clocks: Option<bool>,
    /// Include analysis and annotator comments.
    pub comments: Option<bool>,
    /// Include non-mainline moves.
    pub variations: Option<bool>,
}

impl Default for PgnExportOptions {
    /// Every flag unset.
    fn default() -> (r: Self)
        ensures
            r == Self::blank(),
    {
        PgnExportOptions { clocks: None, comments: None, variations: None }
    }
}

/// The pairs of [`PgnExportOptions`] carry its field under `clocks`.
proof fn lemma_pgn_export_options_clocks(q: PgnExportOptions)
    ensures
        crate::text::carries(q.pairs_view(), "clocks"@, match q.clocks { Some(b) => Some(if b { seq!['t', 'r', 'u', 'e'] } else { seq!['f', 'a', 'l', 's', 'e'] }), None => None }),
{
    reveal_strlit("clocks");
    reveal_strlit("comments");
    reveal_strlit("variations");
    assert("clocks"@.len() != "comments"@.len());
    assert("clocks"@.len() != "variations"@.len());
    let p0 = http::bool_pair("clocks"@, q.clocks);
    let p1 = http::bool_pair("comments"@, q.comments);
    let p2 = http::bool_pair("variations"@, q.variations);
    let s0 = p0;
    let s1 = s0 + p1;
    let s2 = s1 + p2;
    assert(q.pairs_view() == s2);
    let v = match q.clocks { Some(b) => Some(if b { seq!['t', 'r', 'u', 'e'] } else { seq!['f', 'a', 'l', 's', 'e'] }), None => None };
    assert(p0 == crate::text::one_pair("clocks"@, v));
    crate::text::lemma_one_pair_carries("clocks"@, v);
    crate::text::lemma_extend(s0, p1, "clocks"@, v, false);
    crate::text::lemma_extend(s1, p2, "clocks"@, v, false);
}

/// The pairs of [`PgnExportOptions`] carry its field under `comments`.
proof fn lemma_pgn_export_options_comments(q: PgnExportOptions)
    ensures
        crate::text::carries(q.pairs_view(), "comments"@, match q.comments { Some(b) => Some(if b { seq!['t', 'r', 'u', 'e'] } else { seq!['f', 'a', 'l', 's', 'e'] }), None => None }),
{
    reveal_strlit("clocks");
    reveal_strlit("comments");
    reveal_strlit("variations");
    assert("comments"@.len() != "clocks"@.len());
    assert("comments"@.len() != "variations"@.len());
    let p0 = http::bool_pair("clocks"@, q.clocks);
    let p1 = http::bool_pair("comments"@, q.comments);
    let p2 = http::bool_pair("variations"@, q.variations);
    let s0 = p0;
    let s1 = s0 + p1;
    let s2 = s1 + p2;
    assert(q.pairs_view() == s2);
    let v = match q.comments { Some(b) => Some(if b { seq!['t', 'r', 'u', 'e'] } else { seq!['f', 'a', 'l', 's', 'e'] }), None => None };
    crate::text::lemma_extend(s0, p1, "comments"@, v, true);
    crate::text::lemma_extend(s1, p2, "comments"@, v, false);
}

/// The pairs of [`PgnExportOptions`] carry its field under `variations`.
proof fn lemma_pgn_export_options_variations(q: PgnExportOptions)
    ensures
        crate::text::carries(q.pairs_view(), "variations"@, match q.variations { Some(b) => Some(if b { seq!['t', 'r', 'u', 'e'] } else { seq!['f', 'a', 'l', 's', 'e'] }), None => None }),
{
    reveal_strlit("clocks");
    reveal_strlit("comments");
    reveal_strlit("variations");
    assert("variations"@.len() != "clocks"@.len());
    assert("variations"@.len() != "comments"@.len());
    let p0 = http::bool_pair("clocks"@, q.clocks);
    let p1 = http::bool_pair("comments"@, q.comments);
    let p2 = http::bool_pair("variations"@, q.variations);
    let s0 = p0;
    let s1 = s0 + p1;
    let s2 = s1 + p2;
    assert(q.pairs_view() == s2);
    let v = match q.variations { Some(b) => Some(if b { seq!['t', 'r', 'u', 'e'] } else { seq!['f', 'a', 'l', 's', 'e'] }), None => None };
    crate::text::lemma_extend(s0, p1, "variations"@, None, false);
    crate::text::lemma_extend(s1, p2, "variations"@, v, true);
}

/// The pairs of [`PgnExportOptions`] carry each of its fields under that field's own
/// key (`clocks`, `comments`, `variations`), with the value given to it, and a key only when its field is set.
pub proof fn lemma_pgn_export_options_carries_fields(q: PgnExportOptions)
    ensures
        crate::text::carries(q.pairs_view(), "clocks"@, match q.clocks { Some(b) => Some(if b { seq!['t', 'r', 'u', 'e'] } else { seq!['f', 'a', 'l', 's', 'e'] }), None => None }),
        crate::text::carries(q.pairs_view(), "comments"@, match q.comments { Some(b) => Some(if b { seq!['t', 'r', 'u', 'e'] } else { seq!['f', 'a', 'l', 's', 'e'] }), None => None }),
        crate::text::carries(q.pairs_view(), "variations"@, match q.variations { Some(b) => Some(if b { seq!['t', 'r', 'u', 'e'] } else { seq!['f', 'a', 'l', 's', 'e'] }), None => None }),
{
    lemma_pgn_export_options_clocks(q);
    lemma_pgn_export_options_comments(q);
    lemma_pgn_export_options_variations(q);
}

impl PgnExportOptions {
    /// Every flag unset.
    pub open spec fn blank() -> Self {
        PgnExportOptions { clocks: None, comments: None, variations: None }
    }

    /// The query pairs of the options, in declaration order.
    pub open spec fn pairs_view(self) -> Pairs {
        http::bool_pair("clocks"@, self.clocks)
            + http::bool_pair("comments"@, self.comments)
            + http::bool_pair("variations"@, self.variations)
    }

    /// The query pairs of the options.
    pub fn pairs(&self) -> (r: Vec<(String, String)>)
        ensures
            r.deep_view() == self.pairs_view(),
    {
        let mut out: Vec<(String, String)> = Vec::new();
        push_opt_bool(&mut out, "clocks", self.clocks);
        push_opt_bool(&mut out, "comments", self.comments);
        push_opt_bool(&mut out, "variations", self.variations);
        assert(out.deep_view() =~= self.pairs_view());
        out
    }
}

} // verus!
