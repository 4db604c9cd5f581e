//! `OAuth2` scopes.

use vstd::prelude::*;

use crate::error::str_eq;

verus! {

/// A permission that an `OAuth2` access token can carry.
///
/// An authorization URL lists the scopes the application asks the user for.
#[derive(Debug, Clone, Copy, PartialEq, Eq, Hash, Structural)]
#[non_exhaustive]
pub enum Scope {
    /// `preference:read`: see the account's preferences.
    PreferenceRead,
    /// `preference:write`: change the account's preferences.
    PreferenceWrite,
    /// `email:read`: see the account's email address.
    EmailRead,
    /// `engine:read`: list the account's external engines.
    EngineRead,
    /// `engine:write`: register, change and remove external engines.
    EngineWrite,
    /// `challenge:read`: see the challenges sent to the account.
    ChallengeRead,
    /// `challenge:write`: send, accept and decline challenges.
    ChallengeWrite,
    /// `challenge:bulk`: manage bulk pairings.
    ChallengeBulk,
    /// `study:read`: see private studies and broadcasts.
    StudyRead,
    /// `study:write`: create, change and remove studies and broadcasts.
    StudyWrite,
    /// `tournament:write`: create tournaments.
    TournamentWrite,
    /// `racer:write`: create and enter puzzle races.
    RacerWrite,
    /// `puzzle:read`: see the account's puzzle history.
    PuzzleRead,
    /// `puzzle:write`: record puzzle results.
    PuzzleWrite,
    /// `team:read`: see private information of teams.
    TeamRead,
    /// `team:write`: enter and leave teams.
    TeamWrite,
    /// `team:lead`: lead teams (remove members, message everyone).
    TeamLead,
    /// `follow:read`: see which players the account follows.
    FollowRead,
    /// `follow:write`: follow and stop following players.
    FollowWrite,
    /// `msg:write`: send private messages.
    MsgWrite,
    /// `board:play`: play through the Board API.
    BoardPlay,
    /// `bot:play`: play through the Bot API (bot accounts).
    BotPlay,
    /// `web:mod`: use the moderation tools the account is entitled to.
    WebMod,
}

/// The wire text of each scope, in the order of [`Scope::ALL`].
pub const WIRES: [&'static str; 23] = [
    "preference:read",
    "preference:write",
    "email:read",
    "engine:read",
    "engine:write",
    "challenge:read",
    "challenge:write",
    "challenge:bulk",
    "study:read",
    "study:write",
    "tournament:write",
    "racer:write",
    "puzzle:read",
    "puzzle:write",
    "team:read",
    "team:write",
    "team:lead",
    "follow:read",
    "follow:write",
    "msg:write",
    "board:play",
    "bot:play",
    "web:mod",
];

/// Whether some scope has `value` as its wire text.
pub open spec fn is_wire(value: Seq<char>) -> bool {
    exists|i: int| 0 <= i < 23 && (#[trigger] WIRES@[i])@ == value
}

/// The scope that a wire text names, if any.
pub open spec fn scope_named(value: Seq<char>) -> Option<Scope> {
    if is_wire(value) {
        Some(Scope::ALL@[choose|i: int| 0 <= i < 23 && (#[trigger] WIRES@[i])@ == value])
    } else {
        None
    }
}

impl Scope {
    /// Every scope, in the order Lichess documents them.
    pub const ALL: [Scope; 23] = [
        Scope::PreferenceRead,
        Scope::PreferenceWrite,
        Scope::EmailRead,
        Scope::EngineRead,
        Scope::EngineWrite,
        Scope::ChallengeRead,
        Scope::ChallengeWrite,
        Scope::ChallengeBulk,
        Scope::StudyRead,
        Scope::StudyWrite,
        Scope::TournamentWrite,
        Scope::RacerWrite,
        Scope::PuzzleRead,
        Scope::PuzzleWrite,
        Scope::TeamRead,
        Scope::TeamWrite,
        Scope::TeamLead,
        Scope::FollowRead,
        Scope::FollowWrite,
        Scope::MsgWrite,
        Scope::BoardPlay,
        Scope::BotPlay,
        Scope::WebMod,
    ];

    /// The place of each scope in [`Scope::ALL`].
    pub open spec fn index(self) -> int {
        match self {
            Scope::PreferenceRead => 0,
            Scope::PreferenceWrite => 1,
            Scope::EmailRead => 2,
            Scope::EngineRead => 3,
            Scope::EngineWrite => 4,
            Scope::ChallengeRead => 5,
            Scope::ChallengeWrite => 6,
            Scope::ChallengeBulk => 7,
            Scope::StudyRead => 8,
            Scope::StudyWrite => 9,
            Scope::TournamentWrite => 10,
            Scope::RacerWrite => 11,
            Scope::PuzzleRead => 12,
            Scope::PuzzleWrite => 13,
            Scope::TeamRead => 14,
            Scope::TeamWrite => 15,
            Scope::TeamLead => 16,
            Scope::FollowRead => 17,
            Scope::FollowWrite => 18,
            Scope::MsgWrite => 19,
            Scope::BoardPlay => 20,
            Scope::BotPlay => 21,
            Scope::WebMod => 22,
        }
    }

    /// The place of the scope in [`Scope::ALL`] and [`WIRES`].
    pub fn position(self) -> (r: usize)
        ensures
            r == self.index(),
    {
        match self {
            Scope::PreferenceRead => 0,
            Scope::PreferenceWrite => 1,
            Scope::EmailRead => 2,
            Scope::EngineRead => 3,
            Scope::EngineWrite => 4,
            Scope::ChallengeRead => 5,
            Scope::ChallengeWrite => 6,
            Scope::ChallengeBulk => 7,
            Scope::StudyRead => 8,
            Scope::StudyWrite => 9,
            Scope::TournamentWrite => 10,
            Scope::RacerWrite => 11,
            Scope::PuzzleRead => 12,
            Scope::PuzzleWrite => 13,
            Scope::TeamRead => 14,
            Scope::TeamWrite => 15,
            Scope::TeamLead => 16,
            Scope::FollowRead => 17,
            Scope::FollowWrite => 18,
            Scope::MsgWrite => 19,
            Scope::BoardPlay => 20,
            Scope::BotPlay => 21,
            Scope::WebMod => 22,
        }
    }

    /// The wire text of the scope.
    pub open spec fn wire(self) -> Seq<char> {
        WIRES@[self.index()]@
    }

    /// The text of the scope on the wire, such as `"board:play"`.
    pub fn as_str(self) -> (r: &'static str)
        ensures
            r@ == self.wire(),
    {
        WIRES[self.position()]
    }

    /// The wire text, as an owned string.
    pub fn to_string(&self) -> (r: String)
        ensures
            r@ == self.wire(),
    {
        String::from_str(self.as_str())
    }

    /// The scope whose wire text is `value`, if there is one.
    pub fn parse(value: &str) -> (r: Option<Scope>)
        ensures
            r == scope_named(value@),
    {
        let all = Scope::ALL;
        let mut i: usize = 0;
        while i < 23
            invariant
                i <= 23,
                all@ == Scope::ALL@,
                forall|k: int| 0 <= k < i ==> (#[trigger] WIRES@[k])@ != value@,
            decreases 23 - i,
        {
            if str_eq(WIRES[i], value) {
                proof {
                    lemma_wires_distinct();
                    assert(is_wire(value@));
                }
                return Some(all[i]);
            }
            i = i + 1;
        }
        None
    }
}

/// The wire text of each scope, as Lichess names it: the resource, a colon, and
/// the access (`Scope::BoardPlay` is `board:play`).
pub proof fn lemma_scope_wire_texts()
    ensures
        Scope::PreferenceRead.wire() == seq!['p', 'r', 'e', 'f', 'e', 'r', 'e', 'n', 'c', 'e', ':', 'r', 'e', 'a', 'd'],
        Scope::PreferenceWrite.wire() == seq!['p', 'r', 'e', 'f', 'e', 'r', 'e', 'n', 'c', 'e', ':', 'w', 'r', 'i', 't', 'e'],
        Scope::EmailRead.wire() == seq!['e', 'm', 'a', 'i', 'l', ':', 'r', 'e', 'a', 'd'],
        Scope::EngineRead.wire() == seq!['e', 'n', 'g', 'i', 'n', 'e', ':', 'r', 'e', 'a', 'd'],
        Scope::EngineWrite.wire() == seq!['e', 'n', 'g', 'i', 'n', 'e', ':', 'w', 'r', 'i', 't', 'e'],
        Scope::ChallengeRead.wire() == seq!['c', 'h', 'a', 'l', 'l', 'e', 'n', 'g', 'e', ':', 'r', 'e', 'a', 'd'],
        Scope::ChallengeWrite.wire() == seq!['c', 'h', 'a', 'l', 'l', 'e', 'n', 'g', 'e', ':', 'w', 'r', 'i', 't', 'e'],
        Scope::ChallengeBulk.wire() == seq!['c', 'h', 'a', 'l', 'l', 'e', 'n', 'g', 'e', ':', 'b', 'u', 'l', 'k'],
        Scope::StudyRead.wire() == seq!['s', 't', 'u', 'd', 'y', ':', 'r', 'e', 'a', 'd'],
        Scope::StudyWrite.wire() == seq!['s', 't', 'u', 'd', 'y', ':', 'w', 'r', 'i', 't', 'e'],
        Scope::TournamentWrite.wire() == seq!['t', 'o', 'u', 'r', 'n', 'a', 'm', 'e', 'n', 't', ':', 'w', 'r', 'i', 't', 'e'],
        Scope::RacerWrite.wire() == seq!['r', 'a', 'c', 'e', 'r', ':', 'w', 'r', 'i', 't', 'e'],
        Scope::PuzzleRead.wire() == seq!['p', 'u', 'z', 'z', 'l', 'e', ':', 'r', 'e', 'a', 'd'],
        Scope::PuzzleWrite.wire() == seq!['p', 'u', 'z', 'z', 'l', 'e', ':', 'w', 'r', 'i', 't', 'e'],
        Scope::TeamRead.wire() == seq!['t', 'e', 'a', 'm', ':', 'r', 'e', 'a', 'd'],
        Scope::TeamWrite.wire() == seq!['t', 'e', 'a', 'm', ':', 'w', 'r', 'i', 't', 'e'],
        Scope::TeamLead.wire() == seq!['t', 'e', 'a', 'm', ':', 'l', 'e', 'a', 'd'],
        Scope::FollowRead.wire() == seq!['f', 'o', 'l', 'l', 'o', 'w', ':', 'r', 'e', 'a', 'd'],
        Scope::FollowWrite.wire() == seq!['f', 'o', 'l', 'l', 'o', 'w', ':', 'w', 'r', 'i', 't', 'e'],
        Scope::MsgWrite.wire() == seq!['m', 's', 'g', ':', 'w', 'r', 'i', 't', 'e'],
        Scope::BoardPlay.wire() == seq!['b', 'o', 'a', 'r', 'd', ':', 'p', 'l', 'a', 'y'],
        Scope::BotPlay.wire() == seq!['b', 'o', 't', ':', 'p', 'l', 'a', 'y'],
        Scope::WebMod.wire() == seq!['w', 'e', 'b', ':', 'm', 'o', 'd'],
{
    assert(Scope::PreferenceRead.wire() =~= seq!['p', 'r', 'e', 'f', 'e', 'r', 'e', 'n', 'c', 'e', ':', 'r', 'e', 'a', 'd']) by {
        reveal_strlit("preference:read");
    }
    assert(Scope::PreferenceWrite.wire() =~= seq!['p', 'r', 'e', 'f', 'e', 'r', 'e', 'n', 'c', 'e', ':', 'w', 'r', 'i', 't', 'e']) by {
        reveal_strlit("preference:write");
    }
    assert(Scope::EmailRead.wire() =~= seq!['e', 'm', 'a', 'i', 'l', ':', 'r', 'e', 'a', 'd']) by {
        reveal_strlit("email:read");
    }
    assert(Scope::EngineRead.wire() =~= seq!['e', 'n', 'g', 'i', 'n', 'e', ':', 'r', 'e', 'a', 'd']) by {
        reveal_strlit("engine:read");
    }
    assert(Scope::EngineWrite.wire() =~= seq!['e', 'n', 'g', 'i', 'n', 'e', ':', 'w', 'r', 'i', 't', 'e']) by {
        reveal_strlit("engine:write");
    }
    assert(Scope::ChallengeRead.wire() =~= seq!['c', 'h', 'a', 'l', 'l', 'e', 'n', 'g', 'e', ':', 'r', 'e', 'a', 'd']) by {
        reveal_strlit("challenge:read");
    }
    assert(Scope::ChallengeWrite.wire() =~= seq!['c', 'h', 'a', 'l', 'l', 'e', 'n', 'g', 'e', ':', 'w', 'r', 'i', 't', 'e']) by {
        reveal_strlit("challenge:write");
    }
    assert(Scope::ChallengeBulk.wire() =~= seq!['c', 'h', 'a', 'l', 'l', 'e', 'n', 'g', 'e', ':', 'b', 'u', 'l', 'k']) by {
        reveal_strlit("challenge:bulk");
    }
    assert(Scope::StudyRead.wire() =~= seq!['s', 't', 'u', 'd', 'y', ':', 'r', 'e', 'a', 'd']) by {
        reveal_strlit("study:read");
    }
    assert(Scope::StudyWrite.wire() =~= seq!['s', 't', 'u', 'd', 'y', ':', 'w', 'r', 'i', 't', 'e']) by {
        reveal_strlit("study:write");
    }
    assert(Scope::TournamentWrite.wire() =~= seq!['t', 'o', 'u', 'r', 'n', 'a', 'm', 'e', 'n', 't', ':', 'w', 'r', 'i', 't', 'e']) by {
        reveal_strlit("tournament:write");
    }
    assert(Scope::RacerWrite.wire() =~= seq!['r', 'a', 'c', 'e', 'r', ':', 'w', 'r', 'i', 't', 'e']) by {
        reveal_strlit("racer:write");
    }
    assert(Scope::PuzzleRead.wire() =~= seq!['p', 'u', 'z', 'z', 'l', 'e', ':', 'r', 'e', 'a', 'd']) by {
        reveal_strlit("puzzle:read");
    }
    assert(Scope::PuzzleWrite.wire() =~= seq!['p', 'u', 'z', 'z', 'l', 'e', ':', 'w', 'r', 'i', 't', 'e']) by {
        reveal_strlit("puzzle:write");
    }
    assert(Scope::TeamRead.wire() =~= seq!['t', 'e', 'a', 'm', ':', 'r', 'e', 'a', 'd']) by {
        reveal_strlit("team:read");
    }
    assert(Scope::TeamWrite.wire() =~= seq!['t', 'e', 'a', 'm', ':', 'w', 'r', 'i', 't', 'e']) by {
        reveal_strlit("team:write");
    }
    assert(Scope::TeamLead.wire() =~= seq!['t', 'e', 'a', 'm', ':', 'l', 'e', 'a', 'd']) by {
        reveal_strlit("team:lead");
    }
    assert(Scope::FollowRead.wire() =~= seq!['f', 'o', 'l', 'l', 'o', 'w', ':', 'r', 'e', 'a', 'd']) by {
        reveal_strlit("follow:read");
    }
    assert(Scope::FollowWrite.wire() =~= seq!['f', 'o', 'l', 'l', 'o', 'w', ':', 'w', 'r', 'i', 't', 'e']) by {
        reveal_strlit("follow:write");
    }
    assert(Scope::MsgWrite.wire() =~= seq!['m', 's', 'g', ':', 'w', 'r', 'i', 't', 'e']) by {
        reveal_strlit("msg:write");
    }
    assert(Scope::BoardPlay.wire() =~= seq!['b', 'o', 'a', 'r', 'd', ':', 'p', 'l', 'a', 'y']) by {
        reveal_strlit("board:play");
    }
    assert(Scope::BotPlay.wire() =~= seq!['b', 'o', 't', ':', 'p', 'l', 'a', 'y']) by {
        reveal_strlit("bot:play");
    }
    assert(Scope::WebMod.wire() =~= seq!['w', 'e', 'b', ':', 'm', 'o', 'd']) by {
        reveal_strlit("web:mod");
    }
}

/// The wire texts are pairwise distinct.
pub proof fn lemma_wires_distinct()
    ensures
        forall|i: int, j: int|
            0 <= i < 23 && 0 <= j < 23 && (#[trigger] WIRES@[i])@ == (#[trigger] WIRES@[j])@ ==> i == j,
{
    reveal_strlit("board:play");
    reveal_strlit("bot:play");
    reveal_strlit("challenge:bulk");
    reveal_strlit("challenge:read");
    reveal_strlit("challenge:write");
    reveal_strlit("email:read");
    reveal_strlit("engine:read");
    reveal_strlit("engine:write");
    reveal_strlit("follow:read");
    reveal_strlit("follow:write");
    reveal_strlit("msg:write");
    reveal_strlit("preference:read");
    reveal_strlit("preference:write");
    reveal_strlit("puzzle:read");
    reveal_strlit("puzzle:write");
    reveal_strlit("racer:write");
    reveal_strlit("study:read");
    reveal_strlit("study:write");
    reveal_strlit("team:lead");
    reveal_strlit("team:read");
    reveal_strlit("team:write");
    reveal_strlit("tournament:write");
    reveal_strlit("web:mod");
    assert forall|i: int, j: int|
        0 <= i < 23 && 0 <= j < 23 && (#[trigger] WIRES@[i])@ == (#[trigger] WIRES@[j])@ implies i == j by {
        if i != j {
            lemma_wire_pair_distinct(i, j);
        }
    }
}

/// Two different places of [`WIRES`] hold different texts.
proof fn lemma_wire_pair_distinct(i: int, j: int)
    requires
        0 <= i < 23,
        0 <= j < 23,
        i != j,
    ensures
        WIRES@[i]@ != WIRES@[j]@,
    decreases if i > j { 1int } else { 0int },
{
    reveal_strlit("board:play");
    reveal_strlit("bot:play");
    reveal_strlit("challenge:bulk");
    reveal_strlit("challenge:read");
    reveal_strlit("challenge:write");
    reveal_strlit("email:read");
    reveal_strlit("engine:read");
    reveal_strlit("engine:write");
    reveal_strlit("follow:read");
    reveal_strlit("follow:write");
    reveal_strlit("msg:write");
    reveal_strlit("preference:read");
    reveal_strlit("preference:write");
    reveal_strlit("puzzle:read");
    reveal_strlit("puzzle:write");
    reveal_strlit("racer:write");
    reveal_strlit("study:read");
    reveal_strlit("study:write");
    reveal_strlit("team:lead");
    reveal_strlit("team:read");
    reveal_strlit("team:write");
    reveal_strlit("tournament:write");
    reveal_strlit("web:mod");
    if i > j {
        lemma_wire_pair_distinct(j, i);
    } else {
        if i == 0 && j == 1 {
            assert(WIRES@[0]@.len() != WIRES@[1]@.len());
        } else if i == 0 && j == 2 {
            assert(WIRES@[0]@.len() != WIRES@[2]@.len());
        } else if i == 0 && j == 3 {
            assert(WIRES@[0]@.len() != WIRES@[3]@.len());
        } else if i == 0 && j == 4 {
            assert(WIRES@[0]@.len() != WIRES@[4]@.len());
        } else if i == 0 && j == 5 {
            assert(WIRES@[0]@.len() != WIRES@[5]@.len());
        } else if i == 0 && j == 6 {
            assert(WIRES@[0]@[0] != WIRES@[6]@[0]);
        } else if i == 0 && j == 7 {
            assert(WIRES@[0]@.len() != WIRES@[7]@.len());
        } else if i == 0 && j == 8 {
            assert(WIRES@[0]@.len() != WIRES@[8]@.len());
        } else if i == 0 && j == 9 {
            assert(WIRES@[0]@.len() != WIRES@[9]@.len());
        } else if i == 0 && j == 10 {
            assert(WIRES@[0]@.len() != WIRES@[10]@.len());
        } else if i == 0 && j == 11 {
            assert(WIRES@[0]@.len() != WIRES@[11]@.len());
        } else if i == 0 && j == 12 {
            assert(WIRES@[0]@.len() != WIRES@[12]@.len());
        } else if i == 0 && j == 13 {
            assert(WIRES@[0]@.len() != WIRES@[13]@.len());
        } else if i == 0 && j == 14 {
            assert(WIRES@[0]@.len() != WIRES@[14]@.len());
        } else if i == 0 && j == 15 {
            assert(WIRES@[0]@.len() != WIRES@[15]@.len());
        } else if i == 0 && j == 16 {
            assert(WIRES@[0]@.len() != WIRES@[16]@.len());
        } else if i == 0 && j == 17 {
            assert(WIRES@[0]@.len() != WIRES@[17]@.len());
        } else if i == 0 && j == 18 {
            assert(WIRES@[0]@.len() != WIRES@[18]@.len());
        } else if i == 0 && j == 19 {
            assert(WIRES@[0]@.len() != WIRES@[19]@.len());
        } else if i == 0 && j == 20 {
            assert(WIRES@[0]@.len() != WIRES@[20]@.len());
        } else if i == 0 && j == 21 {
            assert(WIRES@[0]@.len() != WIRES@[21]@.len());
        } else if i == 0 && j == 22 {
            assert(WIRES@[0]@.len() != WIRES@[22]@.len());
        } else if i == 1 && j == 2 {
            assert(WIRES@[1]@.len() != WIRES@[2]@.len());
        } else if i == 1 && j == 3 {
            assert(WIRES@[1]@.len() != WIRES@[3]@.len());
        } else if i == 1 && j == 4 {
            assert(WIRES@[1]@.len() != WIRES@[4]@.len());
        } else if i == 1 && j == 5 {
            assert(WIRES@[1]@.len() != WIRES@[5]@.len());
        } else if i == 1 && j == 6 {
            assert(WIRES@[1]@.len() != WIRES@[6]@.len());
        } else if i == 1 && j == 7 {
            assert(WIRES@[1]@.len() != WIRES@[7]@.len());
        } else if i == 1 && j == 8 {
            assert(WIRES@[1]@.len() != WIRES@[8]@.len());
        } else if i == 1 && j == 9 {
            assert(WIRES@[1]@.len() != WIRES@[9]@.len());
        } else if i == 1 && j == 10 {
            assert(WIRES@[1]@[0] != WIRES@[10]@[0]);
        } else if i == 1 && j == 11 {
            assert(WIRES@[1]@.len() != WIRES@[11]@.len());
        } else if i == 1 && j == 12 {
            assert(WIRES@[1]@.len() != WIRES@[12]@.len());
        } else if i == 1 && j == 13 {
            assert(WIRES@[1]@.len() != WIRES@[13]@.len());
        } else if i == 1 && j == 14 {
            assert(WIRES@[1]@.len() != WIRES@[14]@.len());
        } else if i == 1 && j == 15 {
            assert(WIRES@[1]@.len() != WIRES@[15]@.len());
        } else if i == 1 && j == 16 {
            assert(WIRES@[1]@.len() != WIRES@[16]@.len());
        } else if i == 1 && j == 17 {
            assert(WIRES@[1]@.len() != WIRES@[17]@.len());
        } else if i == 1 && j == 18 {
            assert(WIRES@[1]@.len() != WIRES@[18]@.len());
        } else if i == 1 && j == 19 {
            assert(WIRES@[1]@.len() != WIRES@[19]@.len());
        } else if i == 1 && j == 20 {
            assert(WIRES@[1]@.len() != WIRES@[20]@.len());
        } else if i == 1 && j == 21 {
            assert(WIRES@[1]@.len() != WIRES@[21]@.len());
        } else if i == 1 && j == 22 {
            assert(WIRES@[1]@.len() != WIRES@[22]@.len());
        } else if i == 2 && j == 3 {
            assert(WIRES@[2]@.len() != WIRES@[3]@.len());
        } else if i == 2 && j == 4 {
            assert(WIRES@[2]@.len() != WIRES@[4]@.len());
        } else if i == 2 && j == 5 {
            assert(WIRES@[2]@.len() != WIRES@[5]@.len());
        } else if i == 2 && j == 6 {
            assert(WIRES@[2]@.len() != WIRES@[6]@.len());
        } else if i == 2 && j == 7 {
            assert(WIRES@[2]@.len() != WIRES@[7]@.len());
        } else if i == 2 && j == 8 {
            assert(WIRES@[2]@[0] != WIRES@[8]@[0]);
        } else if i == 2 && j == 9 {
            assert(WIRES@[2]@.len() != WIRES@[9]@.len());
        } else if i == 2 && j == 10 {
            assert(WIRES@[2]@.len() != WIRES@[10]@.len());
        } else if i == 2 && j == 11 {
            assert(WIRES@[2]@.len() != WIRES@[11]@.len());
        } else if i == 2 && j == 12 {
            assert(WIRES@[2]@.len() != WIRES@[12]@.len());
        } else if i == 2 && j == 13 {
            assert(WIRES@[2]@.len() != WIRES@[13]@.len());
        } else if i == 2 && j == 14 {
            assert(WIRES@[2]@.len() != WIRES@[14]@.len());
        } else if i == 2 && j == 15 {
            assert(WIRES@[2]@[0] != WIRES@[15]@[0]);
        } else if i == 2 && j == 16 {
            assert(WIRES@[2]@.len() != WIRES@[16]@.len());
        } else if i == 2 && j == 17 {
            assert(WIRES@[2]@.len() != WIRES@[17]@.len());
        } else if i == 2 && j == 18 {
            assert(WIRES@[2]@.len() != WIRES@[18]@.len());
        } else if i == 2 && j == 19 {
            assert(WIRES@[2]@.len() != WIRES@[19]@.len());
        } else if i == 2 && j == 20 {
            assert(WIRES@[2]@[0] != WIRES@[20]@[0]);
        } else if i == 2 && j == 21 {
            assert(WIRES@[2]@.len() != WIRES@[21]@.len());
        } else if i == 2 && j == 22 {
            assert(WIRES@[2]@.len() != WIRES@[22]@.len());
        } else if i == 3 && j == 4 {
            assert(WIRES@[3]@.len() != WIRES@[4]@.len());
        } else if i == 3 && j == 5 {
            assert(WIRES@[3]@.len() != WIRES@[5]@.len());
        } else if i == 3 && j == 6 {
            assert(WIRES@[3]@.len() != WIRES@[6]@.len());
        } else if i == 3 && j == 7 {
            assert(WIRES@[3]@.len() != WIRES@[7]@.len());
        } else if i == 3 && j == 8 {
            assert(WIRES@[3]@.len() != WIRES@[8]@.len());
        } else if i == 3 && j == 9 {
            assert(WIRES@[3]@[0] != WIRES@[9]@[0]);
        } else if i == 3 && j == 10 {
            assert(WIRES@[3]@.len() != WIRES@[10]@.len());
        } else if i == 3 && j == 11 {
            assert(WIRES@[3]@[0] != WIRES@[11]@[0]);
        } else if i == 3 && j == 12 {
            assert(WIRES@[3]@[0] != WIRES@[12]@[0]);
        } else if i == 3 && j == 13 {
            assert(WIRES@[3]@.len() != WIRES@[13]@.len());
        } else if i == 3 && j == 14 {
            assert(WIRES@[3]@.len() != WIRES@[14]@.len());
        } else if i == 3 && j == 15 {
            assert(WIRES@[3]@.len() != WIRES@[15]@.len());
        } else if i == 3 && j == 16 {
            assert(WIRES@[3]@.len() != WIRES@[16]@.len());
        } else if i == 3 && j == 17 {
            assert(WIRES@[3]@[0] != WIRES@[17]@[0]);
        } else if i == 3 && j == 18 {
            assert(WIRES@[3]@.len() != WIRES@[18]@.len());
        } else if i == 3 && j == 19 {
            assert(WIRES@[3]@.len() != WIRES@[19]@.len());
        } else if i == 3 && j == 20 {
            assert(WIRES@[3]@.len() != WIRES@[20]@.len());
        } else if i == 3 && j == 21 {
            assert(WIRES@[3]@.len() != WIRES@[21]@.len());
        } else if i == 3 && j == 22 {
            assert(WIRES@[3]@.len() != WIRES@[22]@.len());
        } else if i == 4 && j == 5 {
            assert(WIRES@[4]@.len() != WIRES@[5]@.len());
        } else if i == 4 && j == 6 {
            assert(WIRES@[4]@.len() != WIRES@[6]@.len());
        } else if i == 4 && j == 7 {
            assert(WIRES@[4]@.len() != WIRES@[7]@.len());
        } else if i == 4 && j == 8 {
            assert(WIRES@[4]@.len() != WIRES@[8]@.len());
        } else if i == 4 && j == 9 {
            assert(WIRES@[4]@.len() != WIRES@[9]@.len());
        } else if i == 4 && j == 10 {
            assert(WIRES@[4]@.len() != WIRES@[10]@.len());
        } else if i == 4 && j == 11 {
            assert(WIRES@[4]@.len() != WIRES@[11]@.len());
        } else if i == 4 && j == 12 {
            assert(WIRES@[4]@.len() != WIRES@[12]@.len());
        } else if i == 4 && j == 13 {
            assert(WIRES@[4]@[0] != WIRES@[13]@[0]);
        } else if i == 4 && j == 14 {
            assert(WIRES@[4]@.len() != WIRES@[14]@.len());
        } else if i == 4 && j == 15 {
            assert(WIRES@[4]@.len() != WIRES@[15]@.len());
        } else if i == 4 && j == 16 {
            assert(WIRES@[4]@.len() != WIRES@[16]@.len());
        } else if i == 4 && j == 17 {
            assert(WIRES@[4]@.len() != WIRES@[17]@.len());
        } else if i == 4 && j == 18 {
            assert(WIRES@[4]@[0] != WIRES@[18]@[0]);
        } else if i == 4 && j == 19 {
            assert(WIRES@[4]@.len() != WIRES@[19]@.len());
        } else if i == 4 && j == 20 {
            assert(WIRES@[4]@.len() != WIRES@[20]@.len());
        } else if i == 4 && j == 21 {
            assert(WIRES@[4]@.len() != WIRES@[21]@.len());
        } else if i == 4 && j == 22 {
            assert(WIRES@[4]@.len() != WIRES@[22]@.len());
        } else if i == 5 && j == 6 {
            assert(WIRES@[5]@.len() != WIRES@[6]@.len());
        } else if i == 5 && j == 7 {
            assert(WIRES@[5]@[10] != WIRES@[7]@[10]);
        } else if i == 5 && j == 8 {
            assert(WIRES@[5]@.len() != WIRES@[8]@.len());
        } else if i == 5 && j == 9 {
            assert(WIRES@[5]@.len() != WIRES@[9]@.len());
        } else if i == 5 && j == 10 {
            assert(WIRES@[5]@.len() != WIRES@[10]@.len());
        } else if i == 5 && j == 11 {
            assert(WIRES@[5]@.len() != WIRES@[11]@.len());
        } else if i == 5 && j == 12 {
            assert(WIRES@[5]@.len() != WIRES@[12]@.len());
        } else if i == 5 && j == 13 {
            assert(WIRES@[5]@.len() != WIRES@[13]@.len());
        } else if i == 5 && j == 14 {
            assert(WIRES@[5]@.len() != WIRES@[14]@.len());
        } else if i == 5 && j == 15 {
            assert(WIRES@[5]@.len() != WIRES@[15]@.len());
        } else if i == 5 && j == 16 {
            assert(WIRES@[5]@.len() != WIRES@[16]@.len());
        } else if i == 5 && j == 17 {
            assert(WIRES@[5]@.len() != WIRES@[17]@.len());
        } else if i == 5 && j == 18 {
            assert(WIRES@[5]@.len() != WIRES@[18]@.len());
        } else if i == 5 && j == 19 {
            assert(WIRES@[5]@.len() != WIRES@[19]@.len());
        } else if i == 5 && j == 20 {
            assert(WIRES@[5]@.len() != WIRES@[20]@.len());
        } else if i == 5 && j == 21 {
            assert(WIRES@[5]@.len() != WIRES@[21]@.len());
        } else if i == 5 && j == 22 {
            assert(WIRES@[5]@.len() != WIRES@[22]@.len());
        } else if i == 6 && j == 7 {
            assert(WIRES@[6]@.len() != WIRES@[7]@.len());
        } else if i == 6 && j == 8 {
            assert(WIRES@[6]@.len() != WIRES@[8]@.len());
        } else if i == 6 && j == 9 {
            assert(WIRES@[6]@.len() != WIRES@[9]@.len());
        } else if i == 6 && j == 10 {
            assert(WIRES@[6]@.len() != WIRES@[10]@.len());
        } else if i == 6 && j == 11 {
            assert(WIRES@[6]@.len() != WIRES@[11]@.len());
        } else if i == 6 && j == 12 {
            assert(WIRES@[6]@.len() != WIRES@[12]@.len());
        } else if i == 6 && j == 13 {
            assert(WIRES@[6]@.len() != WIRES@[13]@.len());
        } else if i == 6 && j == 14 {
            assert(WIRES@[6]@.len() != WIRES@[14]@.len());
        } else if i == 6 && j == 15 {
            assert(WIRES@[6]@.len() != WIRES@[15]@.len());
        } else if i == 6 && j == 16 {
            assert(WIRES@[6]@.len() != WIRES@[16]@.len());
        } else if i == 6 && j == 17 {
            assert(WIRES@[6]@.len() != WIRES@[17]@.len());
        } else if i == 6 && j == 18 {
            assert(WIRES@[6]@.len() != WIRES@[18]@.len());
        } else if i == 6 && j == 19 {
            assert(WIRES@[6]@.len() != WIRES@[19]@.len());
        } else if i == 6 && j == 20 {
            assert(WIRES@[6]@.len() != WIRES@[20]@.len());
        } else if i == 6 && j == 21 {
            assert(WIRES@[6]@.len() != WIRES@[21]@.len());
        } else if i == 6 && j == 22 {
            assert(WIRES@[6]@.len() != WIRES@[22]@.len());
        } else if i == 7 && j == 8 {
            assert(WIRES@[7]@.len() != WIRES@[8]@.len());
        } else if i == 7 && j == 9 {
            assert(WIRES@[7]@.len() != WIRES@[9]@.len());
        } else if i == 7 && j == 10 {
            assert(WIRES@[7]@.len() != WIRES@[10]@.len());
        } else if i == 7 && j == 11 {
            assert(WIRES@[7]@.len() != WIRES@[11]@.len());
        } else if i == 7 && j == 12 {
            assert(WIRES@[7]@.len() != WIRES@[12]@.len());
        } else if i == 7 && j == 13 {
            assert(WIRES@[7]@.len() != WIRES@[13]@.len());
        } else if i == 7 && j == 14 {
            assert(WIRES@[7]@.len() != WIRES@[14]@.len());
        } else if i == 7 && j == 15 {
            assert(WIRES@[7]@.len() != WIRES@[15]@.len());
        } else if i == 7 && j == 16 {
            assert(WIRES@[7]@.len() != WIRES@[16]@.len());
        } else if i == 7 && j == 17 {
            assert(WIRES@[7]@.len() != WIRES@[17]@.len());
        } else if i == 7 && j == 18 {
            assert(WIRES@[7]@.len() != WIRES@[18]@.len());
        } else if i == 7 && j == 19 {
            assert(WIRES@[7]@.len() != WIRES@[19]@.len());
        } else if i == 7 && j == 20 {
            assert(WIRES@[7]@.len() != WIRES@[20]@.len());
        } else if i == 7 && j == 21 {
            assert(WIRES@[7]@.len() != WIRES@[21]@.len());
        } else if i == 7 && j == 22 {
            assert(WIRES@[7]@.len() != WIRES@[22]@.len());
        } else if i == 8 && j == 9 {
            assert(WIRES@[8]@.len() != WIRES@[9]@.len());
        } else if i == 8 && j == 10 {
            assert(WIRES@[8]@.len() != WIRES@[10]@.len());
        } else if i == 8 && j == 11 {
            assert(WIRES@[8]@.len() != WIRES@[11]@.len());
        } else if i == 8 && j == 12 {
            assert(WIRES@[8]@.len() != WIRES@[12]@.len());
        } else if i == 8 && j == 13 {
            assert(WIRES@[8]@.len() != WIRES@[13]@.len());
        } else if i == 8 && j == 14 {
            assert(WIRES@[8]@.len() != WIRES@[14]@.len());
        } else if i == 8 && j == 15 {
            assert(WIRES@[8]@[0] != WIRES@[15]@[0]);
        } else if i == 8 && j == 16 {
            assert(WIRES@[8]@.len() != WIRES@[16]@.len());
        } else if i == 8 && j == 17 {
            assert(WIRES@[8]@.len() != WIRES@[17]@.len());
        } else if i == 8 && j == 18 {
            assert(WIRES@[8]@.len() != WIRES@[18]@.len());
        } else if i == 8 && j == 19 {
            assert(WIRES@[8]@.len() != WIRES@[19]@.len());
        } else if i == 8 && j == 20 {
            assert(WIRES@[8]@[0] != WIRES@[20]@[0]);
        } else if i == 8 && j == 21 {
            assert(WIRES@[8]@.len() != WIRES@[21]@.len());
        } else if i == 8 && j == 22 {
            assert(WIRES@[8]@.len() != WIRES@[22]@.len());
        } else if i == 9 && j == 10 {
            assert(WIRES@[9]@.len() != WIRES@[10]@.len());
        } else if i == 9 && j == 11 {
            assert(WIRES@[9]@[0] != WIRES@[11]@[0]);
        } else if i == 9 && j == 12 {
            assert(WIRES@[9]@[0] != WIRES@[12]@[0]);
        } else if i == 9 && j == 13 {
            assert(WIRES@[9]@.len() != WIRES@[13]@.len());
        } else if i == 9 && j == 14 {
            assert(WIRES@[9]@.len() != WIRES@[14]@.len());
        } else if i == 9 && j == 15 {
            assert(WIRES@[9]@.len() != WIRES@[15]@.len());
        } else if i == 9 && j == 16 {
            assert(WIRES@[9]@.len() != WIRES@[16]@.len());
        } else if i == 9 && j == 17 {
            assert(WIRES@[9]@[0] != WIRES@[17]@[0]);
        } else if i == 9 && j == 18 {
            assert(WIRES@[9]@.len() != WIRES@[18]@.len());
        } else if i == 9 && j == 19 {
            assert(WIRES@[9]@.len() != WIRES@[19]@.len());
        } else if i == 9 && j == 20 {
            assert(WIRES@[9]@.len() != WIRES@[20]@.len());
        } else if i == 9 && j == 21 {
            assert(WIRES@[9]@.len() != WIRES@[21]@.len());
        } else if i == 9 && j == 22 {
            assert(WIRES@[9]@.len() != WIRES@[22]@.len());
        } else if i == 10 && j == 11 {
            assert(WIRES@[10]@.len() != WIRES@[11]@.len());
        } else if i == 10 && j == 12 {
            assert(WIRES@[10]@.len() != WIRES@[12]@.len());
        } else if i == 10 && j == 13 {
            assert(WIRES@[10]@.len() != WIRES@[13]@.len());
        } else if i == 10 && j == 14 {
            assert(WIRES@[10]@.len() != WIRES@[14]@.len());
        } else if i == 10 && j == 15 {
            assert(WIRES@[10]@.len() != WIRES@[15]@.len());
        } else if i == 10 && j == 16 {
            assert(WIRES@[10]@.len() != WIRES@[16]@.len());
        } else if i == 10 && j == 17 {
            assert(WIRES@[10]@.len() != WIRES@[17]@.len());
        } else if i == 10 && j == 18 {
            assert(WIRES@[10]@.len() != WIRES@[18]@.len());
        } else if i == 10 && j == 19 {
            assert(WIRES@[10]@.len() != WIRES@[19]@.len());
        } else if i == 10 && j == 20 {
            assert(WIRES@[10]@.len() != WIRES@[20]@.len());
        } else if i == 10 && j == 21 {
            assert(WIRES@[10]@.len() != WIRES@[21]@.len());
        } else if i == 10 && j == 22 {
            assert(WIRES@[10]@.len() != WIRES@[22]@.len());
        } else if i == 11 && j == 12 {
            assert(WIRES@[11]@[0] != WIRES@[12]@[0]);
        } else if i == 11 && j == 13 {
            assert(WIRES@[11]@.len() != WIRES@[13]@.len());
        } else if i == 11 && j == 14 {
            assert(WIRES@[11]@.len() != WIRES@[14]@.len());
        } else if i == 11 && j == 15 {
            assert(WIRES@[11]@.len() != WIRES@[15]@.len());
        } else if i == 11 && j == 16 {
            assert(WIRES@[11]@.len() != WIRES@[16]@.len());
        } else if i == 11 && j == 17 {
            assert(WIRES@[11]@[0] != WIRES@[17]@[0]);
        } else if i == 11 && j == 18 {
            assert(WIRES@[11]@.len() != WIRES@[18]@.len());
        } else if i == 11 && j == 19 {
            assert(WIRES@[11]@.len() != WIRES@[19]@.len());
        } else if i == 11 && j == 20 {
            assert(WIRES@[11]@.len() != WIRES@[20]@.len());
        } else if i == 11 && j == 21 {
            assert(WIRES@[11]@.len() != WIRES@[21]@.len());
        } else if i == 11 && j == 22 {
            assert(WIRES@[11]@.len() != WIRES@[22]@.len());
        } else if i == 12 && j == 13 {
            assert(WIRES@[12]@.len() != WIRES@[13]@.len());
        } else if i == 12 && j == 14 {
            assert(WIRES@[12]@.len() != WIRES@[14]@.len());
        } else if i == 12 && j == 15 {
            assert(WIRES@[12]@.len() != WIRES@[15]@.len());
        } else if i == 12 && j == 16 {
            assert(WIRES@[12]@.len() != WIRES@[16]@.len());
        } else if i == 12 && j == 17 {
            assert(WIRES@[12]@[0] != WIRES@[17]@[0]);
        } else if i == 12 && j == 18 {
            assert(WIRES@[12]@.len() != WIRES@[18]@.len());
        } else if i == 12 && j == 19 {
            assert(WIRES@[12]@.len() != WIRES@[19]@.len());
        } else if i == 12 && j == 20 {
            assert(WIRES@[12]@.len() != WIRES@[20]@.len());
        } else if i == 12 && j == 21 {
            assert(WIRES@[12]@.len() != WIRES@[21]@.len());
        } else if i == 12 && j == 22 {
            assert(WIRES@[12]@.len() != WIRES@[22]@.len());
        } else if i == 13 && j == 14 {
            assert(WIRES@[13]@.len() != WIRES@[14]@.len());
        } else if i == 13 && j == 15 {
            assert(WIRES@[13]@.len() != WIRES@[15]@.len());
        } else if i == 13 && j == 16 {
            assert(WIRES@[13]@.len() != WIRES@[16]@.len());
        } else if i == 13 && j == 17 {
            assert(WIRES@[13]@.len() != WIRES@[17]@.len());
        } else if i == 13 && j == 18 {
            assert(WIRES@[13]@[0] != WIRES@[18]@[0]);
        } else if i == 13 && j == 19 {
            assert(WIRES@[13]@.len() != WIRES@[19]@.len());
        } else if i == 13 && j == 20 {
            assert(WIRES@[13]@.len() != WIRES@[20]@.len());
        } else if i == 13 && j == 21 {
            assert(WIRES@[13]@.len() != WIRES@[21]@.len());
        } else if i == 13 && j == 22 {
            assert(WIRES@[13]@.len() != WIRES@[22]@.len());
        } else if i == 14 && j == 15 {
            assert(WIRES@[14]@.len() != WIRES@[15]@.len());
        } else if i == 14 && j == 16 {
            assert(WIRES@[14]@[5] != WIRES@[16]@[5]);
        } else if i == 14 && j == 17 {
            assert(WIRES@[14]@.len() != WIRES@[17]@.len());
        } else if i == 14 && j == 18 {
            assert(WIRES@[14]@.len() != WIRES@[18]@.len());
        } else if i == 14 && j == 19 {
            assert(WIRES@[14]@[0] != WIRES@[19]@[0]);
        } else if i == 14 && j == 20 {
            assert(WIRES@[14]@.len() != WIRES@[20]@.len());
        } else if i == 14 && j == 21 {
            assert(WIRES@[14]@.len() != WIRES@[21]@.len());
        } else if i == 14 && j == 22 {
            assert(WIRES@[14]@.len() != WIRES@[22]@.len());
        } else if i == 15 && j == 16 {
            assert(WIRES@[15]@.len() != WIRES@[16]@.len());
        } else if i == 15 && j == 17 {
            assert(WIRES@[15]@.len() != WIRES@[17]@.len());
        } else if i == 15 && j == 18 {
            assert(WIRES@[15]@.len() != WIRES@[18]@.len());
        } else if i == 15 && j == 19 {
            assert(WIRES@[15]@.len() != WIRES@[19]@.len());
        } else if i == 15 && j == 20 {
            assert(WIRES@[15]@[0] != WIRES@[20]@[0]);
        } else if i == 15 && j == 21 {
            assert(WIRES@[15]@.len() != WIRES@[21]@.len());
        } else if i == 15 && j == 22 {
            assert(WIRES@[15]@.len() != WIRES@[22]@.len());
        } else if i == 16 && j == 17 {
            assert(WIRES@[16]@.len() != WIRES@[17]@.len());
        } else if i == 16 && j == 18 {
            assert(WIRES@[16]@.len() != WIRES@[18]@.len());
        } else if i == 16 && j == 19 {
            assert(WIRES@[16]@[0] != WIRES@[19]@[0]);
        } else if i == 16 && j == 20 {
            assert(WIRES@[16]@.len() != WIRES@[20]@.len());
        } else if i == 16 && j == 21 {
            assert(WIRES@[16]@.len() != WIRES@[21]@.len());
        } else if i == 16 && j == 22 {
            assert(WIRES@[16]@.len() != WIRES@[22]@.len());
        } else if i == 17 && j == 18 {
            assert(WIRES@[17]@.len() != WIRES@[18]@.len());
        } else if i == 17 && j == 19 {
            assert(WIRES@[17]@.len() != WIRES@[19]@.len());
        } else if i == 17 && j == 20 {
            assert(WIRES@[17]@.len() != WIRES@[20]@.len());
        } else if i == 17 && j == 21 {
            assert(WIRES@[17]@.len() != WIRES@[21]@.len());
        } else if i == 17 && j == 22 {
            assert(WIRES@[17]@.len() != WIRES@[22]@.len());
        } else if i == 18 && j == 19 {
            assert(WIRES@[18]@.len() != WIRES@[19]@.len());
        } else if i == 18 && j == 20 {
            assert(WIRES@[18]@.len() != WIRES@[20]@.len());
        } else if i == 18 && j == 21 {
            assert(WIRES@[18]@.len() != WIRES@[21]@.len());
        } else if i == 18 && j == 22 {
            assert(WIRES@[18]@.len() != WIRES@[22]@.len());
        } else if i == 19 && j == 20 {
            assert(WIRES@[19]@.len() != WIRES@[20]@.len());
        } else if i == 19 && j == 21 {
            assert(WIRES@[19]@.len() != WIRES@[21]@.len());
        } else if i == 19 && j == 22 {
            assert(WIRES@[19]@.len() != WIRES@[22]@.len());
        } else if i == 20 && j == 21 {
            assert(WIRES@[20]@.len() != WIRES@[21]@.len());
        } else if i == 20 && j == 22 {
            assert(WIRES@[20]@.len() != WIRES@[22]@.len());
        } else if i == 21 && j == 22 {
            assert(WIRES@[21]@.len() != WIRES@[22]@.len());
        }
    }
}

/// No wire text holds a space, so a space-separated list of them splits back
/// into its entries.
pub proof fn lemma_wire_has_no_space(s: Scope)
    ensures
        !crate::text::holds_char(s.wire(), ' '),
{
    assert(!crate::text::holds_char(WIRES@[0]@, ' ')) by {
        reveal_strlit("preference:read");
    }
    assert(!crate::text::holds_char(WIRES@[1]@, ' ')) by {
        reveal_strlit("preference:write");
    }
    assert(!crate::text::holds_char(WIRES@[2]@, ' ')) by {
        reveal_strlit("email:read");
    }
    assert(!crate::text::holds_char(WIRES@[3]@, ' ')) by {
        reveal_strlit("engine:read");
    }
    assert(!crate::text::holds_char(WIRES@[4]@, ' ')) by {
        reveal_strlit("engine:write");
    }
    assert(!crate::text::holds_char(WIRES@[5]@, ' ')) by {
        reveal_strlit("challenge:read");
    }
    assert(!crate::text::holds_char(WIRES@[6]@, ' ')) by {
        reveal_strlit("challenge:write");
    }
    assert(!crate::text::holds_char(WIRES@[7]@, ' ')) by {
        reveal_strlit("challenge:bulk");
    }
    assert(!crate::text::holds_char(WIRES@[8]@, ' ')) by {
        reveal_strlit("study:read");
    }
    assert(!crate::text::holds_char(WIRES@[9]@, ' ')) by {
        reveal_strlit("study:write");
    }
    assert(!crate::text::holds_char(WIRES@[10]@, ' ')) by {
        reveal_strlit("tournament:write");
    }
    assert(!crate::text::holds_char(WIRES@[11]@, ' ')) by {
        reveal_strlit("racer:write");
    }
    assert(!crate::text::holds_char(WIRES@[12]@, ' ')) by {
        reveal_strlit("puzzle:read");
    }
    assert(!crate::text::holds_char(WIRES@[13]@, ' ')) by {
        reveal_strlit("puzzle:write");
    }
    assert(!crate::text::holds_char(WIRES@[14]@, ' ')) by {
        reveal_strlit("team:read");
    }
    assert(!crate::text::holds_char(WIRES@[15]@, ' ')) by {
        reveal_strlit("team:write");
    }
    assert(!crate::text::holds_char(WIRES@[16]@, ' ')) by {
        reveal_strlit("team:lead");
    }
    assert(!crate::text::holds_char(WIRES@[17]@, ' ')) by {
        reveal_strlit("follow:read");
    }
    assert(!crate::text::holds_char(WIRES@[18]@, ' ')) by {
        reveal_strlit("follow:write");
    }
    assert(!crate::text::holds_char(WIRES@[19]@, ' ')) by {
        reveal_strlit("msg:write");
    }
    assert(!crate::text::holds_char(WIRES@[20]@, ' ')) by {
        reveal_strlit("board:play");
    }
    assert(!crate::text::holds_char(WIRES@[21]@, ' ')) by {
        reveal_strlit("bot:play");
    }
    assert(!crate::text::holds_char(WIRES@[22]@, ' ')) by {
        reveal_strlit("web:mod");
    }
}

/// Every scope's wire text parses back to that scope.
pub proof fn lemma_parse_wire(s: Scope)
    ensures
        scope_named(s.wire()) == Some(s),
{
    lemma_wires_distinct();
    assert(WIRES@[s.index()]@ == s.wire());
    assert(is_wire(s.wire()));
    lemma_all_lists_every_scope(s);
}

/// Parsing succeeds exactly on wire texts, and gives back their scope.
pub proof fn lemma_parse_only_wire(value: Seq<char>, s: Scope)
    ensures
        scope_named(value) == Some(s) <==> s.wire() == value,
{
    lemma_parse_wire(s);
    lemma_wires_distinct();
    if scope_named(value) == Some(s) {
        let i = choose|i: int| 0 <= i < 23 && (#[trigger] WIRES@[i])@ == value;
        lemma_all_lists_every_scope(s);
    }
}

/// Distinct scopes have distinct wire texts.
pub proof fn lemma_wire_injective(a: Scope, b: Scope)
    ensures
        a.wire() == b.wire() ==> a == b,
{
    lemma_parse_wire(a);
    lemma_parse_wire(b);
}

/// `Scope::ALL` lists every scope, each at its own place.
pub proof fn lemma_all_lists_every_scope(s: Scope)
    ensures
        0 <= s.index() < Scope::ALL@.len(),
        Scope::ALL@[s.index()] == s,
        forall|i: int| 0 <= i < 23 ==> (#[trigger] Scope::ALL@[i]).index() == i,
{
    assert(Scope::ALL@[s.index()] == s);
    assert(Scope::ALL@[0].index() == 0);
    assert(Scope::ALL@[1].index() == 1);
    assert(Scope::ALL@[2].index() == 2);
    assert(Scope::ALL@[3].index() == 3);
    assert(Scope::ALL@[4].index() == 4);
    assert(Scope::ALL@[5].index() == 5);
    assert(Scope::ALL@[6].index() == 6);
    assert(Scope::ALL@[7].index() == 7);
    assert(Scope::ALL@[8].index() == 8);
    assert(Scope::ALL@[9].index() == 9);
    assert(Scope::ALL@[10].index() == 10);
    assert(Scope::ALL@[11].index() == 11);
    assert(Scope::ALL@[12].index() == 12);
    assert(Scope::ALL@[13].index() == 13);
    assert(Scope::ALL@[14].index() == 14);
    assert(Scope::ALL@[15].index() == 15);
    assert(Scope::ALL@[16].index() == 16);
    assert(Scope::ALL@[17].index() == 17);
    assert(Scope::ALL@[18].index() == 18);
    assert(Scope::ALL@[19].index() == 19);
    assert(Scope::ALL@[20].index() == 20);
    assert(Scope::ALL@[21].index() == 21);
    assert(Scope::ALL@[22].index() == 22);
}

} // verus!
