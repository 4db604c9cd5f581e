//! The Swiss Tournaments API: create, run, join, and export swiss tournaments.
//!
//! Reached through [`LichessClient::swiss`].

use vstd::prelude::*;

use crate::client::LichessClient;
use crate::config::Host;
use crate::error::{ApiError, ApiErrorKind, LichessError};
use crate::http::{Accept, ApiRequest, Method};
use crate::model::{GameExportOptions, LichessVariantKey};

verus! {

/// The error as a Swiss edit or schedule request reports it: a `401` is the
/// distinct [`ApiErrorKind::SwissUnauthorizedEdit`] ownership rejection rather
/// than a generic auth failure; every other error is unchanged.
pub open spec fn reclassified(err: LichessError) -> LichessError {
    match err {
        LichessError::Api(a) => if a.status == 401 {
            LichessError::Api(ApiError { kind: ApiErrorKind::SwissUnauthorizedEdit, ..a })
        } else {
            err
        },
        _ => err,
    }
}

/// Reclassifies a `401` from a Swiss edit/schedule request as
/// [`ApiErrorKind::SwissUnauthorizedEdit`]; see [`reclassified`].
pub fn map_unauthorized_edit(err: LichessError) -> (r: LichessError)
    ensures
        r == reclassified(err),
{
    match err {
        LichessError::Api(api) => {
            if api.status == 401 {
                LichessError::Api(api.with_kind(ApiErrorKind::SwissUnauthorizedEdit))
            } else {
                LichessError::Api(api)
            }
        },
        other => other,
    }
}

/// The outcome of a create or edit request from the server's answer: an
/// edit's error is reclassified by [`map_unauthorized_edit`] (a `401` means
/// the tournament is not yours), a creation's answer is returned as it came.
pub fn send_outcome<T>(edit: bool, answer: Result<T, LichessError>) -> (r: Result<T, LichessError>)
    ensures
        edit ==> r == match answer {
            Ok(v) => Ok::<T, LichessError>(v),
            Err(e) => Err(reclassified(e)),
        },
        !edit ==> r == answer,
{
    if edit {
        match answer {
            Ok(v) => Ok(v),
            Err(e) => Err(map_unauthorized_edit(e)),
        }
    } else {
        answer
    }
}

/// Reclassifying changes at most the kind of an API error: the variant, the
/// status, the message and the retry delay stay; any other error, and any
/// status but `401`, is left as it was.
pub proof fn lemma_reclassify_only_changes_kind(err: LichessError)
    ensures
        (reclassified(err) is Api) == (err is Api),
        err is Api ==> {
            let (a, b) = (err->Api_0, reclassified(err)->Api_0);
            &&& b.status == a.status
            &&& b.message == a.message
            &&& b.retry_after == a.retry_after
            &&& (a.status != 401 ==> b == a)
        },
        !(err is Api) ==> reclassified(err) == err,
{
}

/// Reclassifying twice is the same as reclassifying once.
pub proof fn lemma_reclassify_idempotent(err: LichessError)
    ensures
        reclassified(reclassified(err)) == reclassified(err),
{
}

/// Form body for creating a swiss tournament (flat, non-`conditions` fields).
#[derive(Debug, Clone)]
pub struct CreateForm<'a> {
    /// The initial clock time in seconds.
    pub clock_limit: u32,
    /// The clock increment in seconds.
    pub clock_increment: u32,
    /// The number of rounds.
    pub nb_rounds: u32,
    /// The tournament name.
    pub name: Option<&'a str>,
    /// Whether the tournament is rated.
    pub rated: Option<bool>,
    /// Seconds between rounds.
    pub round_interval: Option<u32>,
    /// The start time (Unix milliseconds).
    pub starts_at: Option<i64>,
    /// The variant.
    pub variant: Option<LichessVariantKey>,
    /// A custom starting position.
    pub position: Option<&'a str>,
    /// The tournament description.
    pub description: Option<&'a str>,
    /// The entry code of a private tournament.
    pub password: Option<&'a str>,
    /// Pairings that must not happen.
    pub forbidden_pairings: Option<&'a str>,
    /// Pairings of the next round, set by hand.
    pub manual_pairings: Option<&'a str>,
    /// Who may use the chat.
    pub chat_for: Option<u32>,
}

/// The pairs of [`CreateForm`] carry its field under `clock.limit`.
proof fn lemma_create_form_clock_limit(q: CreateForm)
    ensures
        crate::text::carries(q.pairs_view(), "clock.limit"@, Some(crate::text::dec_nat(q.clock_limit as nat))),
{
    reveal_strlit("chatFor");
    reveal_strlit("clock.increment");
    reveal_strlit("clock.limit");
    reveal_strlit("description");
    reveal_strlit("forbiddenPairings");
    reveal_strlit("manualPairings");
    reveal_strlit("name");
    reveal_strlit("nbRounds");
    reveal_strlit("password");
    reveal_strlit("position");
    reveal_strlit("rated");
    reveal_strlit("roundInterval");
    reveal_strlit("startsAt");
    reveal_strlit("variant");
    assert("clock.limit"@.len() != "chatFor"@.len());
    assert("clock.limit"@.len() != "clock.increment"@.len());
    assert("clock.limit"@[0] != "description"@[0]);
    assert("clock.limit"@.len() != "forbiddenPairings"@.len());
    assert("clock.limit"@.len() != "manualPairings"@.len());
    assert("clock.limit"@.len() != "name"@.len());
    assert("clock.limit"@.len() != "nbRounds"@.len());
    assert("clock.limit"@.len() != "password"@.len());
    assert("clock.limit"@.len() != "position"@.len());
    assert("clock.limit"@.len() != "rated"@.len());
    assert("clock.limit"@.len() != "roundInterval"@.len());
    assert("clock.limit"@.len() != "startsAt"@.len());
    assert("clock.limit"@.len() != "variant"@.len());
    let p0 = seq![("clock.limit"@, crate::text::dec_nat(q.clock_limit as nat))];
    let p1 = seq![("clock.increment"@, crate::text::dec_nat(q.clock_increment as nat))];
    let p2 = seq![("nbRounds"@, crate::text::dec_nat(q.nb_rounds as nat))];
    let p3 = crate::http::str_pair("name"@, q.name);
    let p4 = crate::http::bool_pair("rated"@, q.rated);
    let p5 = crate::http::nat_pair("roundInterval"@, crate::http::opt_u32(q.round_interval));
    let p6 = crate::http::int_pair("startsAt"@, crate::http::opt_i64(q.starts_at));
    let p7 = crate::http::opt_pair("variant"@, LichessVariantKey::opt_wire(q.variant));
    let p8 = crate::http::str_pair("position"@, q.position);
    let p9 = crate::http::str_pair("description"@, q.description);
    let p10 = crate::http::str_pair("password"@, q.password);
    let p11 = crate::http::str_pair("forbiddenPairings"@, q.forbidden_pairings);
    let p12 = crate::http::str_pair("manualPairings"@, q.manual_pairings);
    let p13 = crate::http::nat_pair("chatFor"@, crate::http::opt_u32(q.chat_for));
    let s0 = p0;
    let s1 = s0 + p1;
    let s2 = s1 + p2;
    let s3 = s2 + p3;
    let s4 = s3 + p4;
    let s5 = s4 + p5;
    let s6 = s5 + p6;
    let s7 = s6 + p7;
    let s8 = s7 + p8;
    let s9 = s8 + p9;
    let s10 = s9 + p10;
    let s11 = s10 + p11;
    let s12 = s11 + p12;
    let s13 = s12 + p13;
    assert(q.pairs_view() == s13);
    let v = Some(crate::text::dec_nat(q.clock_limit as nat));
    assert(p0 == crate::text::one_pair("clock.limit"@, v));
    crate::text::lemma_one_pair_carries("clock.limit"@, v);
    crate::text::lemma_extend(s0, p1, "clock.limit"@, v, false);
    crate::text::lemma_extend(s1, p2, "clock.limit"@, v, false);
    crate::text::lemma_extend(s2, p3, "clock.limit"@, v, false);
    crate::text::lemma_extend(s3, p4, "clock.limit"@, v, false);
    crate::text::lemma_extend(s4, p5, "clock.limit"@, v, false);
    crate::text::lemma_extend(s5, p6, "clock.limit"@, v, false);
    crate::text::lemma_extend(s6, p7, "clock.limit"@, v, false);
    crate::text::lemma_extend(s7, p8, "clock.limit"@, v, false);
    crate::text::lemma_extend(s8, p9, "clock.limit"@, v, false);
    crate::text::lemma_extend(s9, p10, "clock.limit"@, v, false);
    crate::text::lemma_extend(s10, p11, "clock.limit"@, v, false);
    crate::text::lemma_extend(s11, p12, "clock.limit"@, v, false);
    crate::text::lemma_extend(s12, p13, "clock.limit"@, v, false);
}

/// The pairs of [`CreateForm`] carry its field under `clock.increment`.
proof fn lemma_create_form_clock_increment(q: CreateForm)
    ensures
        crate::text::carries(q.pairs_view(), "clock.increment"@, Some(crate::text::dec_nat(q.clock_increment as nat))),
{
    reveal_strlit("chatFor");
    reveal_strlit("clock.increment");
    reveal_strlit("clock.limit");
    reveal_strlit("description");
    reveal_strlit("forbiddenPairings");
    reveal_strlit("manualPairings");
    reveal_strlit("name");
    reveal_strlit("nbRounds");
    reveal_strlit("password");
    reveal_strlit("position");
    reveal_strlit("rated");
    reveal_strlit("roundInterval");
    reveal_strlit("startsAt");
    reveal_strlit("variant");
    assert("clock.increment"@.len() != "chatFor"@.len());
    assert("clock.increment"@.len() != "clock.limit"@.len());
    assert("clock.increment"@.len() != "description"@.len());
    assert("clock.increment"@.len() != "forbiddenPairings"@.len());
    assert("clock.increment"@.len() != "manualPairings"@.len());
    assert("clock.increment"@.len() != "name"@.len());
    assert("clock.increment"@.len() != "nbRounds"@.len());
    assert("clock.increment"@.len() != "password"@.len());
    assert("clock.increment"@.len() != "position"@.len());
    assert("clock.increment"@.len() != "rated"@.len());
    assert("clock.increment"@.len() != "roundInterval"@.len());
    assert("clock.increment"@.len() != "startsAt"@.len());
    assert("clock.increment"@.len() != "variant"@.len());
    let p0 = seq![("clock.limit"@, crate::text::dec_nat(q.clock_limit as nat))];
    let p1 = seq![("clock.increment"@, crate::text::dec_nat(q.clock_increment as nat))];
    let p2 = seq![("nbRounds"@, crate::text::dec_nat(q.nb_rounds as nat))];
    let p3 = crate::http::str_pair("name"@, q.name);
    let p4 = crate::http::bool_pair("rated"@, q.rated);
    let p5 = crate::http::nat_pair("roundInterval"@, crate::http::opt_u32(q.round_interval));
    let p6 = crate::http::int_pair("startsAt"@, crate::http::opt_i64(q.starts_at));
    let p7 = crate::http::opt_pair("variant"@, LichessVariantKey::opt_wire(q.variant));
    let p8 = crate::http::str_pair("position"@, q.position);
    let p9 = crate::http::str_pair("description"@, q.description);
    let p10 = crate::http::str_pair("password"@, q.password);
    let p11 = crate::http::str_pair("forbiddenPairings"@, q.forbidden_pairings);
    let p12 = crate::http::str_pair("manualPairings"@, q.manual_pairings);
    let p13 = crate::http::nat_pair("chatFor"@, crate::http::opt_u32(q.chat_for));
    let s0 = p0;
    let s1 = s0 + p1;
    let s2 = s1 + p2;
    let s3 = s2 + p3;
    let s4 = s3 + p4;
    let s5 = s4 + p5;
    let s6 = s5 + p6;
    let s7 = s6 + p7;
    let s8 = s7 + p8;
    let s9 = s8 + p9;
    let s10 = s9 + p10;
    let s11 = s10 + p11;
    let s12 = s11 + p12;
    let s13 = s12 + p13;
    assert(q.pairs_view() == s13);
    let v = Some(crate::text::dec_nat(q.clock_increment as nat));
    crate::text::lemma_extend(s0, p1, "clock.increment"@, v, true);
    crate::text::lemma_extend(s1, p2, "clock.increment"@, v, false);
    crate::text::lemma_extend(s2, p3, "clock.increment"@, v, false);
    crate::text::lemma_extend(s3, p4, "clock.increment"@, v, false);
    crate::text::lemma_extend(s4, p5, "clock.increment"@, v, false);
    crate::text::lemma_extend(s5, p6, "clock.increment"@, v, false);
    crate::text::lemma_extend(s6, p7, "clock.increment"@, v, false);
    crate::text::lemma_extend(s7, p8, "clock.increment"@, v, false);
    crate::text::lemma_extend(s8, p9, "clock.increment"@, v, false);
    crate::text::lemma_extend(s9, p10, "clock.increment"@, v, false);
    crate::text::lemma_extend(s10, p11, "clock.increment"@, v, false);
    crate::text::lemma_extend(s11, p12, "clock.increment"@, v, false);
    crate::text::lemma_extend(s12, p13, "clock.increment"@, v, false);
}

/// The pairs of [`CreateForm`] carry its field under `nbRounds`.
proof fn lemma_create_form_nb_rounds(q: CreateForm)
    ensures
        crate::text::carries(q.pairs_view(), "nbRounds"@, Some(crate::text::dec_nat(q.nb_rounds as nat))),
{
    reveal_strlit("chatFor");
    reveal_strlit("clock.increment");
    reveal_strlit("clock.limit");
    reveal_strlit("description");
    reveal_strlit("forbiddenPairings");
    reveal_strlit("manualPairings");
    reveal_strlit("name");
    reveal_strlit("nbRounds");
    reveal_strlit("password");
    reveal_strlit("position");
    reveal_strlit("rated");
    reveal_strlit("roundInterval");
    reveal_strlit("startsAt");
    reveal_strlit("variant");
    assert("nbRounds"@.len() != "chatFor"@.len());
    assert("nbRounds"@.len() != "clock.increment"@.len());
    assert("nbRounds"@.len() != "clock.limit"@.len());
    assert("nbRounds"@.len() != "description"@.len());
    assert("nbRounds"@.len() != "forbiddenPairings"@.len());
    assert("nbRounds"@.len() != "manualPairings"@.len());
    assert("nbRounds"@.len() != "name"@.len());
    assert("nbRounds"@[0] != "password"@[0]);
    assert("nbRounds"@[0] != "position"@[0]);
    assert("nbRounds"@.len() != "rated"@.len());
    assert("nbRounds"@.len() != "roundInterval"@.len());
    assert("nbRounds"@[0] != "startsAt"@[0]);
    assert("nbRounds"@.len() != "variant"@.len());
    let p0 = seq![("clock.limit"@, crate::text::dec_nat(q.clock_limit as nat))];
    let p1 = seq![("clock.increment"@, crate::text::dec_nat(q.clock_increment as nat))];
    let p2 = seq![("nbRounds"@, crate::text::dec_nat(q.nb_rounds as nat))];
    let p3 = crate::http::str_pair("name"@, q.name);
    let p4 = crate::http::bool_pair("rated"@, q.rated);
    let p5 = crate::http::nat_pair("roundInterval"@, crate::http::opt_u32(q.round_interval));
    let p6 = crate::http::int_pair("startsAt"@, crate::http::opt_i64(q.starts_at));
    let p7 = crate::http::opt_pair("variant"@, LichessVariantKey::opt_wire(q.variant));
    let p8 = crate::http::str_pair("position"@, q.position);
    let p9 = crate::http::str_pair("description"@, q.description);
    let p10 = crate::http::str_pair("password"@, q.password);
    let p11 = crate::http::str_pair("forbiddenPairings"@, q.forbidden_pairings);
    let p12 = crate::http::str_pair("manualPairings"@, q.manual_pairings);
    let p13 = crate::http::nat_pair("chatFor"@, crate::http::opt_u32(q.chat_for));
    let s0 = p0;
    let s1 = s0 + p1;
    let s2 = s1 + p2;
    let s3 = s2 + p3;
    let s4 = s3 + p4;
    let s5 = s4 + p5;
    let s6 = s5 + p6;
    let s7 = s6 + p7;
    let s8 = s7 + p8;
    let s9 = s8 + p9;
    let s10 = s9 + p10;
    let s11 = s10 + p11;
    let s12 = s11 + p12;
    let s13 = s12 + p13;
    assert(q.pairs_view() == s13);
    let v = Some(crate::text::dec_nat(q.nb_rounds as nat));
    crate::text::lemma_extend(s0, p1, "nbRounds"@, None, false);
    crate::text::lemma_extend(s1, p2, "nbRounds"@, v, true);
    crate::text::lemma_extend(s2, p3, "nbRounds"@, v, false);
    crate::text::lemma_extend(s3, p4, "nbRounds"@, v, false);
    crate::text::lemma_extend(s4, p5, "nbRounds"@, v, false);
    crate::text::lemma_extend(s5, p6, "nbRounds"@, v, false);
    crate::text::lemma_extend(s6, p7, "nbRounds"@, v, false);
    crate::text::lemma_extend(s7, p8, "nbRounds"@, v, false);
    crate::text::lemma_extend(s8, p9, "nbRounds"@, v, false);
    crate::text::lemma_extend(s9, p10, "nbRounds"@, v, false);
    crate::text::lemma_extend(s10, p11, "nbRounds"@, v, false);
    crate::text::lemma_extend(s11, p12, "nbRounds"@, v, false);
    crate::text::lemma_extend(s12, p13, "nbRounds"@, v, false);
}

/// The pairs of [`CreateForm`] carry its field under `name`.
proof fn lemma_create_form_name(q: CreateForm)
    ensures
        crate::text::carries(q.pairs_view(), "name"@, match q.name { Some(v) => Some(v@), None => None }),
{
    reveal_strlit("chatFor");
    reveal_strlit("clock.increment");
    reveal_strlit("clock.limit");
    reveal_strlit("description");
    reveal_strlit("forbiddenPairings");
    reveal_strlit("manualPairings");
    reveal_strlit("name");
    reveal_strlit("nbRounds");
    reveal_strlit("password");
    reveal_strlit("position");
    reveal_strlit("rated");
    reveal_strlit("roundInterval");
    reveal_strlit("startsAt");
    reveal_strlit("variant");
    assert("name"@.len() != "chatFor"@.len());
    assert("name"@.len() != "clock.increment"@.len());
    assert("name"@.len() != "clock.limit"@.len());
    assert("name"@.len() != "description"@.len());
    assert("name"@.len() != "forbiddenPairings"@.len());
    assert("name"@.len() != "manualPairings"@.len());
    assert("name"@.len() != "nbRounds"@.len());
    assert("name"@.len() != "password"@.len());
    assert("name"@.len() != "position"@.len());
    assert("name"@.len() != "rated"@.len());
    assert("name"@.len() != "roundInterval"@.len());
    assert("name"@.len() != "startsAt"@.len());
    assert("name"@.len() != "variant"@.len());
    let p0 = seq![("clock.limit"@, crate::text::dec_nat(q.clock_limit as nat))];
    let p1 = seq![("clock.increment"@, crate::text::dec_nat(q.clock_increment as nat))];
    let p2 = seq![("nbRounds"@, crate::text::dec_nat(q.nb_rounds as nat))];
    let p3 = crate::http::str_pair("name"@, q.name);
    let p4 = crate::http::bool_pair("rated"@, q.rated);
    let p5 = crate::http::nat_pair("roundInterval"@, crate::http::opt_u32(q.round_interval));
    let p6 = crate::http::int_pair("startsAt"@, crate::http::opt_i64(q.starts_at));
    let p7 = crate::http::opt_pair("variant"@, LichessVariantKey::opt_wire(q.variant));
    let p8 = crate::http::str_pair("position"@, q.position);
    let p9 = crate::http::str_pair("description"@, q.description);
    let p10 = crate::http::str_pair("password"@, q.password);
    let p11 = crate::http::str_pair("forbiddenPairings"@, q.forbidden_pairings);
    let p12 = crate::http::str_pair("manualPairings"@, q.manual_pairings);
    let p13 = crate::http::nat_pair("chatFor"@, crate::http::opt_u32(q.chat_for));
    let s0 = p0;
    let s1 = s0 + p1;
    let s2 = s1 + p2;
    let s3 = s2 + p3;
    let s4 = s3 + p4;
    let s5 = s4 + p5;
    let s6 = s5 + p6;
    let s7 = s6 + p7;
    let s8 = s7 + p8;
    let s9 = s8 + p9;
    let s10 = s9 + p10;
    let s11 = s10 + p11;
    let s12 = s11 + p12;
    let s13 = s12 + p13;
    assert(q.pairs_view() == s13);
    let v = match q.name { Some(v) => Some(v@), None => None };
    crate::text::lemma_extend(s0, p1, "name"@, None, false);
    crate::text::lemma_extend(s1, p2, "name"@, None, false);
    crate::text::lemma_extend(s2, p3, "name"@, v, true);
    crate::text::lemma_extend(s3, p4, "name"@, v, false);
    crate::text::lemma_extend(s4, p5, "name"@, v, false);
    crate::text::lemma_extend(s5, p6, "name"@, v, false);
    crate::text::lemma_extend(s6, p7, "name"@, v, false);
    crate::text::lemma_extend(s7, p8, "name"@, v, false);
    crate::text::lemma_extend(s8, p9, "name"@, v, false);
    crate::text::lemma_extend(s9, p10, "name"@, v, false);
    crate::text::lemma_extend(s10, p11, "name"@, v, false);
    crate::text::lemma_extend(s11, p12, "name"@, v, false);
    crate::text::lemma_extend(s12, p13, "name"@, v, false);
}

/// The pairs of [`CreateForm`] carry its field under `rated`.
proof fn lemma_create_form_rated(q: CreateForm)
    ensures
        crate::text::carries(q.pairs_view(), "rated"@, match q.rated { Some(b) => Some(if b { seq!['t', 'r', 'u', 'e'] } else { seq!['f', 'a', 'l', 's', 'e'] }), None => None }),
{
    reveal_strlit("chatFor");
    reveal_strlit("clock.increment");
    reveal_strlit("clock.limit");
    reveal_strlit("description");
    reveal_strlit("forbiddenPairings");
    reveal_strlit("manualPairings");
    reveal_strlit("name");
    reveal_strlit("nbRounds");
    reveal_strlit("password");
    reveal_strlit("position");
    reveal_strlit("rated");
    reveal_strlit("roundInterval");
    reveal_strlit("startsAt");
    reveal_strlit("variant");
    assert("rated"@.len() != "chatFor"@.len());
    assert("rated"@.len() != "clock.increment"@.len());
    assert("rated"@.len() != "clock.limit"@.len());
    assert("rated"@.len() != "description"@.len());
    assert("rated"@.len() != "forbiddenPairings"@.len());
    assert("rated"@.len() != "manualPairings"@.len());
    assert("rated"@.len() != "name"@.len());
    assert("rated"@.len() != "nbRounds"@.len());
    assert("rated"@.len() != "password"@.len());
    assert("rated"@.len() != "position"@.len());
    assert("rated"@.len() != "roundInterval"@.len());
    assert("rated"@.len() != "startsAt"@.len());
    assert("rated"@.len() != "variant"@.len());
    let p0 = seq![("clock.limit"@, crate::text::dec_nat(q.clock_limit as nat))];
    let p1 = seq![("clock.increment"@, crate::text::dec_nat(q.clock_increment as nat))];
    let p2 = seq![("nbRounds"@, crate::text::dec_nat(q.nb_rounds as nat))];
    let p3 = crate::http::str_pair("name"@, q.name);
    let p4 = crate::http::bool_pair("rated"@, q.rated);
    let p5 = crate::http::nat_pair("roundInterval"@, crate::http::opt_u32(q.round_interval));
    let p6 = crate::http::int_pair("startsAt"@, crate::http::opt_i64(q.starts_at));
    let p7 = crate::http::opt_pair("variant"@, LichessVariantKey::opt_wire(q.variant));
    let p8 = crate::http::str_pair("position"@, q.position);
    let p9 = crate::http::str_pair("description"@, q.description);
    let p10 = crate::http::str_pair("password"@, q.password);
    let p11 = crate::http::str_pair("forbiddenPairings"@, q.forbidden_pairings);
    let p12 = crate::http::str_pair("manualPairings"@, q.manual_pairings);
    let p13 = crate::http::nat_pair("chatFor"@, crate::http::opt_u32(q.chat_for));
    let s0 = p0;
    let s1 = s0 + p1;
    let s2 = s1 + p2;
    let s3 = s2 + p3;
    let s4 = s3 + p4;
    let s5 = s4 + p5;
    let s6 = s5 + p6;
    let s7 = s6 + p7;
    let s8 = s7 + p8;
    let s9 = s8 + p9;
    let s10 = s9 + p10;
    let s11 = s10 + p11;
    let s12 = s11 + p12;
    let s13 = s12 + p13;
    assert(q.pairs_view() == s13);
    let v = match q.rated { Some(b) => Some(if b { seq!['t', 'r', 'u', 'e'] } else { seq!['f', 'a', 'l', 's', 'e'] }), None => None };
    crate::text::lemma_extend(s0, p1, "rated"@, None, false);
    crate::text::lemma_extend(s1, p2, "rated"@, None, false);
    crate::text::lemma_extend(s2, p3, "rated"@, None, false);
    crate::text::lemma_extend(s3, p4, "rated"@, v, true);
    crate::text::lemma_extend(s4, p5, "rated"@, v, false);
    crate::text::lemma_extend(s5, p6, "rated"@, v, false);
    crate::text::lemma_extend(s6, p7, "rated"@, v, false);
    crate::text::lemma_extend(s7, p8, "rated"@, v, false);
    crate::text::lemma_extend(s8, p9, "rated"@, v, false);
    crate::text::lemma_extend(s9, p10, "rated"@, v, false);
    crate::text::lemma_extend(s10, p11, "rated"@, v, false);
    crate::text::lemma_extend(s11, p12, "rated"@, v, false);
    crate::text::lemma_extend(s12, p13, "rated"@, v, false);
}

/// The pairs of [`CreateForm`] carry its field under `roundInterval`.
proof fn lemma_create_form_round_interval(q: CreateForm)
    ensures
        crate::text::carries(q.pairs_view(), "roundInterval"@, match q.round_interval { Some(x) => Some(crate::text::dec_nat(x as nat)), None => None }),
{
    reveal_strlit("chatFor");
    reveal_strlit("clock.increment");
    reveal_strlit("clock.limit");
    reveal_strlit("description");
    reveal_strlit("forbiddenPairings");
    reveal_strlit("manualPairings");
    reveal_strlit("name");
    reveal_strlit("nbRounds");
    reveal_strlit("password");
    reveal_strlit("position");
    reveal_strlit("rated");
    reveal_strlit("roundInterval");
    reveal_strlit("startsAt");
    reveal_strlit("variant");
    assert("roundInterval"@.len() != "chatFor"@.len());
    assert("roundInterval"@.len() != "clock.increment"@.len());
    assert("roundInterval"@.len() != "clock.limit"@.len());
    assert("roundInterval"@.len() != "description"@.len());
    assert("roundInterval"@.len() != "forbiddenPairings"@.len());
    assert("roundInterval"@.len() != "manualPairings"@.len());
    assert("roundInterval"@.len() != "name"@.len());
    assert("roundInterval"@.len() != "nbRounds"@.len());
    assert("roundInterval"@.len() != "password"@.len());
    assert("roundInterval"@.len() != "position"@.len());
    assert("roundInterval"@.len() != "rated"@.len());
    assert("roundInterval"@.len() != "startsAt"@.len());
    assert("roundInterval"@.len() != "variant"@.len());
    let p0 = seq![("clock.limit"@, crate::text::dec_nat(q.clock_limit as nat))];
    let p1 = seq![("clock.increment"@, crate::text::dec_nat(q.clock_increment as nat))];
    let p2 = seq![("nbRounds"@, crate::text::dec_nat(q.nb_rounds as nat))];
    let p3 = crate::http::str_pair("name"@, q.name);
    let p4 = crate::http::bool_pair("rated"@, q.rated);
    let p5 = crate::http::nat_pair("roundInterval"@, crate::http::opt_u32(q.round_interval));
    let p6 = crate::http::int_pair("startsAt"@, crate::http::opt_i64(q.starts_at));
    let p7 = crate::http::opt_pair("variant"@, LichessVariantKey::opt_wire(q.variant));
    let p8 = crate::http::str_pair("position"@, q.position);
    let p9 = crate::http::str_pair("description"@, q.description);
    let p10 = crate::http::str_pair("password"@, q.password);
    let p11 = crate::http::str_pair("forbiddenPairings"@, q.forbidden_pairings);
    let p12 = crate::http::str_pair("manualPairings"@, q.manual_pairings);
    let p13 = crate::http::nat_pair("chatFor"@, crate::http::opt_u32(q.chat_for));
    let s0 = p0;
    let s1 = s0 + p1;
    let s2 = s1 + p2;
    let s3 = s2 + p3;
    let s4 = s3 + p4;
    let s5 = s4 + p5;
    let s6 = s5 + p6;
    let s7 = s6 + p7;
    let s8 = s7 + p8;
    let s9 = s8 + p9;
    let s10 = s9 + p10;
    let s11 = s10 + p11;
    let s12 = s11 + p12;
    let s13 = s12 + p13;
    assert(q.pairs_view() == s13);
    let v = match q.round_interval { Some(x) => Some(crate::text::dec_nat(x as nat)), None => None };
    crate::text::lemma_extend(s0, p1, "roundInterval"@, None, false);
    crate::text::lemma_extend(s1, p2, "roundInterval"@, None, false);
    crate::text::lemma_extend(s2, p3, "roundInterval"@, None, false);
    crate::text::lemma_extend(s3, p4, "roundInterval"@, None, false);
    crate::text::lemma_extend(s4, p5, "roundInterval"@, v, true);
    crate::text::lemma_extend(s5, p6, "roundInterval"@, v, false);
    crate::text::lemma_extend(s6, p7, "roundInterval"@, v, false);
    crate::text::lemma_extend(s7, p8, "roundInterval"@, v, false);
    crate::text::lemma_extend(s8, p9, "roundInterval"@, v, false);
    crate::text::lemma_extend(s9, p10, "roundInterval"@, v, false);
    crate::text::lemma_extend(s10, p11, "roundInterval"@, v, false);
    crate::text::lemma_extend(s11, p12, "roundInterval"@, v, false);
    crate::text::lemma_extend(s12, p13, "roundInterval"@, v, false);
}

/// The pairs of [`CreateForm`] carry its field under `startsAt`.
proof fn lemma_create_form_starts_at(q: CreateForm)
    ensures
        crate::text::carries(q.pairs_view(), "startsAt"@, match q.starts_at { Some(x) => Some(crate::text::dec_int(x as int)), None => None }),
{
    reveal_strlit("chatFor");
    reveal_strlit("clock.increment");
    reveal_strlit("clock.limit");
    reveal_strlit("description");
    reveal_strlit("forbiddenPairings");
    reveal_strlit("manualPairings");
    reveal_strlit("name");
    reveal_strlit("nbRounds");
    reveal_strlit("password");
    reveal_strlit("position");
    reveal_strlit("rated");
    reveal_strlit("roundInterval");
    reveal_strlit("startsAt");
    reveal_strlit("variant");
    assert("startsAt"@.len() != "chatFor"@.len());
    assert("startsAt"@.len() != "clock.increment"@.len());
    assert("startsAt"@.len() != "clock.limit"@.len());
    assert("startsAt"@.len() != "description"@.len());
    assert("startsAt"@.len() != "forbiddenPairings"@.len());
    assert("startsAt"@.len() != "manualPairings"@.len());
    assert("startsAt"@.len() != "name"@.len());
    assert("startsAt"@[0] != "nbRounds"@[0]);
    assert("startsAt"@[0] != "password"@[0]);
    assert("startsAt"@[0] != "position"@[0]);
    assert("startsAt"@.len() != "rated"@.len());
    assert("startsAt"@.len() != "roundInterval"@.len());
    assert("startsAt"@.len() != "variant"@.len());
    let p0 = seq![("clock.limit"@, crate::text::dec_nat(q.clock_limit as nat))];
    let p1 = seq![("clock.increment"@, crate::text::dec_nat(q.clock_increment as nat))];
    let p2 = seq![("nbRounds"@, crate::text::dec_nat(q.nb_rounds as nat))];
    let p3 = crate::http::str_pair("name"@, q.name);
    let p4 = crate::http::bool_pair("rated"@, q.rated);
    let p5 = crate::http::nat_pair("roundInterval"@, crate::http::opt_u32(q.round_interval));
    let p6 = crate::http::int_pair("startsAt"@, crate::http::opt_i64(q.starts_at));
    let p7 = crate::http::opt_pair("variant"@, LichessVariantKey::opt_wire(q.variant));
    let p8 = crate::http::str_pair("position"@, q.position);
    let p9 = crate::http::str_pair("description"@, q.description);
    let p10 = crate::http::str_pair("password"@, q.password);
    let p11 = crate::http::str_pair("forbiddenPairings"@, q.forbidden_pairings);
    let p12 = crate::http::str_pair("manualPairings"@, q.manual_pairings);
    let p13 = crate::http::nat_pair("chatFor"@, crate::http::opt_u32(q.chat_for));
    let s0 = p0;
    let s1 = s0 + p1;
    let s2 = s1 + p2;
    let s3 = s2 + p3;
    let s4 = s3 + p4;
    let s5 = s4 + p5;
    let s6 = s5 + p6;
    let s7 = s6 + p7;
    let s8 = s7 + p8;
    let s9 = s8 + p9;
    let s10 = s9 + p10;
    let s11 = s10 + p11;
    let s12 = s11 + p12;
    let s13 = s12 + p13;
    assert(q.pairs_view() == s13);
    let v = match q.starts_at { Some(x) => Some(crate::text::dec_int(x as int)), None => None };
    crate::text::lemma_extend(s0, p1, "startsAt"@, None, false);
    crate::text::lemma_extend(s1, p2, "startsAt"@, None, false);
    crate::text::lemma_extend(s2, p3, "startsAt"@, None, false);
    crate::text::lemma_extend(s3, p4, "startsAt"@, None, false);
    crate::text::lemma_extend(s4, p5, "startsAt"@, None, false);
    crate::text::lemma_extend(s5, p6, "startsAt"@, v, true);
    crate::text::lemma_extend(s6, p7, "startsAt"@, v, false);
    crate::text::lemma_extend(s7, p8, "startsAt"@, v, false);
    crate::text::lemma_extend(s8, p9, "startsAt"@, v, false);
    crate::text::lemma_extend(s9, p10, "startsAt"@, v, false);
    crate::text::lemma_extend(s10, p11, "startsAt"@, v, false);
    crate::text::lemma_extend(s11, p12, "startsAt"@, v, false);
    crate::text::lemma_extend(s12, p13, "startsAt"@, v, false);
}

/// The pairs of [`CreateForm`] carry its field under `variant`.
proof fn lemma_create_form_variant(q: CreateForm)
    ensures
        crate::text::carries(q.pairs_view(), "variant"@, LichessVariantKey::opt_wire(q.variant)),
{
    reveal_strlit("chatFor");
    reveal_strlit("clock.increment");
    reveal_strlit("clock.limit");
    reveal_strlit("description");
    reveal_strlit("forbiddenPairings");
    reveal_strlit("manualPairings");
    reveal_strlit("name");
    reveal_strlit("nbRounds");
    reveal_strlit("password");
    reveal_strlit("position");
    reveal_strlit("rated");
    reveal_strlit("roundInterval");
    reveal_strlit("startsAt");
    reveal_strlit("variant");
    assert("variant"@[0] != "chatFor"@[0]);
    assert("variant"@.len() != "clock.increment"@.len());
    assert("variant"@.len() != "clock.limit"@.len());
    assert("variant"@.len() != "description"@.len());
    assert("variant"@.len() != "forbiddenPairings"@.len());
    assert("variant"@.len() != "manualPairings"@.len());
    assert("variant"@.len() != "name"@.len());
    assert("variant"@.len() != "nbRounds"@.len());
    assert("variant"@.len() != "password"@.len());
    assert("variant"@.len() != "position"@.len());
    assert("variant"@.len() != "rated"@.len());
    assert("variant"@.len() != "roundInterval"@.len());
    assert("variant"@.len() != "startsAt"@.len());
    let p0 = seq![("clock.limit"@, crate::text::dec_nat(q.clock_limit as nat))];
    let p1 = seq![("clock.increment"@, crate::text::dec_nat(q.clock_increment as nat))];
    let p2 = seq![("nbRounds"@, crate::text::dec_nat(q.nb_rounds as nat))];
    let p3 = crate::http::str_pair("name"@, q.name);
    let p4 = crate::http::bool_pair("rated"@, q.rated);
    let p5 = crate::http::nat_pair("roundInterval"@, crate::http::opt_u32(q.round_interval));
    let p6 = crate::http::int_pair("startsAt"@, crate::http::opt_i64(q.starts_at));
    let p7 = crate::http::opt_pair("variant"@, LichessVariantKey::opt_wire(q.variant));
    let p8 = crate::http::str_pair("position"@, q.position);
    let p9 = crate::http::str_pair("description"@, q.description);
    let p10 = crate::http::str_pair("password"@, q.password);
    let p11 = crate::http::str_pair("forbiddenPairings"@, q.forbidden_pairings);
    let p12 = crate::http::str_pair("manualPairings"@, q.manual_pairings);
    let p13 = crate::http::nat_pair("chatFor"@, crate::http::opt_u32(q.chat_for));
    let s0 = p0;
    let s1 = s0 + p1;
    let s2 = s1 + p2;
    let s3 = s2 + p3;
    let s4 = s3 + p4;
    let s5 = s4 + p5;
    let s6 = s5 + p6;
    let s7 = s6 + p7;
    let s8 = s7 + p8;
    let s9 = s8 + p9;
    let s10 = s9 + p10;
    let s11 = s10 + p11;
    let s12 = s11 + p12;
    let s13 = s12 + p13;
    assert(q.pairs_view() == s13);
    let v = LichessVariantKey::opt_wire(q.variant);
    crate::text::lemma_extend(s0, p1, "variant"@, None, false);
    crate::text::lemma_extend(s1, p2, "variant"@, None, false);
    crate::text::lemma_extend(s2, p3, "variant"@, None, false);
    crate::text::lemma_extend(s3, p4, "variant"@, None, false);
    crate::text::lemma_extend(s4, p5, "variant"@, None, false);
    crate::text::lemma_extend(s5, p6, "variant"@, None, false);
    crate::text::lemma_extend(s6, p7, "variant"@, v, true);
    crate::text::lemma_extend(s7, p8, "variant"@, v, false);
    crate::text::lemma_extend(s8, p9, "variant"@, v, false);
    crate::text::lemma_extend(s9, p10, "variant"@, v, false);
    crate::text::lemma_extend(s10, p11, "variant"@, v, false);
    crate::text::lemma_extend(s11, p12, "variant"@, v, false);
    crate::text::lemma_extend(s12, p13, "variant"@, v, false);
}

/// The pairs of [`CreateForm`] carry its field under `position`.
proof fn lemma_create_form_position(q: CreateForm)
    ensures
        crate::text::carries(q.pairs_view(), "position"@, match q.position { Some(v) => Some(v@), None => None }),
{
    reveal_strlit("chatFor");
    reveal_strlit("clock.increment");
    reveal_strlit("clock.limit");
    reveal_strlit("description");
    reveal_strlit("forbiddenPairings");
    reveal_strlit("manualPairings");
    reveal_strlit("name");
    reveal_strlit("nbRounds");
    reveal_strlit("password");
    reveal_strlit("position");
    reveal_strlit("rated");
    reveal_strlit("roundInterval");
    reveal_strlit("startsAt");
    reveal_strlit("variant");
    assert("position"@.len() != "chatFor"@.len());
    assert("position"@.len() != "clock.increment"@.len());
    assert("position"@.len() != "clock.limit"@.len());
    assert("position"@.len() != "description"@.len());
    assert("position"@.len() != "forbiddenPairings"@.len());
    assert("position"@.len() != "manualPairings"@.len());
    assert("position"@.len() != "name"@.len());
    assert("position"@[0] != "nbRounds"@[0]);
    assert("position"@[1] != "password"@[1]);
    assert("position"@.len() != "rated"@.len());
    assert("position"@.len() != "roundInterval"@.len());
    assert("position"@[0] != "startsAt"@[0]);
    assert("position"@.len() != "variant"@.len());
    let p0 = seq![("clock.limit"@, crate::text::dec_nat(q.clock_limit as nat))];
    let p1 = seq![("clock.increment"@, crate::text::dec_nat(q.clock_increment as nat))];
    let p2 = seq![("nbRounds"@, crate::text::dec_nat(q.nb_rounds as nat))];
    let p3 = crate::http::str_pair("name"@, q.name);
    let p4 = crate::http::bool_pair("rated"@, q.rated);
    let p5 = crate::http::nat_pair("roundInterval"@, crate::http::opt_u32(q.round_interval));
    let p6 = crate::http::int_pair("startsAt"@, crate::http::opt_i64(q.starts_at));
    let p7 = crate::http::opt_pair("variant"@, LichessVariantKey::opt_wire(q.variant));
    let p8 = crate::http::str_pair("position"@, q.position);
    let p9 = crate::http::str_pair("description"@, q.description);
    let p10 = crate::http::str_pair("password"@, q.password);
    let p11 = crate::http::str_pair("forbiddenPairings"@, q.forbidden_pairings);
    let p12 = crate::http::str_pair("manualPairings"@, q.manual_pairings);
    let p13 = crate::http::nat_pair("chatFor"@, crate::http::opt_u32(q.chat_for));
    let s0 = p0;
    let s1 = s0 + p1;
    let s2 = s1 + p2;
    let s3 = s2 + p3;
    let s4 = s3 + p4;
    let s5 = s4 + p5;
    let s6 = s5 + p6;
    let s7 = s6 + p7;
    let s8 = s7 + p8;
    let s9 = s8 + p9;
    let s10 = s9 + p10;
    let s11 = s10 + p11;
    let s12 = s11 + p12;
    let s13 = s12 + p13;
    assert(q.pairs_view() == s13);
    let v = match q.position { Some(v) => Some(v@), None => None };
    crate::text::lemma_extend(s0, p1, "position"@, None, false);
    crate::text::lemma_extend(s1, p2, "position"@, None, false);
    crate::text::lemma_extend(s2, p3, "position"@, None, false);
    crate::text::lemma_extend(s3, p4, "position"@, None, false);
    crate::text::lemma_extend(s4, p5, "position"@, None, false);
    crate::text::lemma_extend(s5, p6, "position"@, None, false);
    crate::text::lemma_extend(s6, p7, "position"@, None, false);
    crate::text::lemma_extend(s7, p8, "position"@, v, true);
    crate::text::lemma_extend(s8, p9, "position"@, v, false);
    crate::text::lemma_extend(s9, p10, "position"@, v, false);
    crate::text::lemma_extend(s10, p11, "position"@, v, false);
    crate::text::lemma_extend(s11, p12, "position"@, v, false);
    crate::text::lemma_extend(s12, p13, "position"@, v, false);
}

/// The pairs of [`CreateForm`] carry its field under `description`.
proof fn lemma_create_form_description(q: CreateForm)
    ensures
        crate::text::carries(q.pairs_view(), "description"@, match q.description { Some(v) => Some(v@), None => None }),
{
    reveal_strlit("chatFor");
    reveal_strlit("clock.increment");
    reveal_strlit("clock.limit");
    reveal_strlit("description");
    reveal_strlit("forbiddenPairings");
    reveal_strlit("manualPairings");
    reveal_strlit("name");
    reveal_strlit("nbRounds");
    reveal_strlit("password");
    reveal_strlit("position");
    reveal_strlit("rated");
    reveal_strlit("roundInterval");
    reveal_strlit("startsAt");
    reveal_strlit("variant");
    assert("description"@.len() != "chatFor"@.len());
    assert("description"@.len() != "clock.increment"@.len());
    assert("description"@[0] != "clock.limit"@[0]);
    assert("description"@.len() != "forbiddenPairings"@.len());
    assert("description"@.len() != "manualPairings"@.len());
    assert("description"@.len() != "name"@.len());
    assert("description"@.len() != "nbRounds"@.len());
    assert("description"@.len() != "password"@.len());
    assert("description"@.len() != "position"@.len());
    assert("description"@.len() != "rated"@.len());
    assert("description"@.len() != "roundInterval"@.len());
    assert("description"@.len() != "startsAt"@.len());
    assert("description"@.len() != "variant"@.len());
    let p0 = seq![("clock.limit"@, crate::text::dec_nat(q.clock_limit as nat))];
    let p1 = seq![("clock.increment"@, crate::text::dec_nat(q.clock_increment as nat))];
    let p2 = seq![("nbRounds"@, crate::text::dec_nat(q.nb_rounds as nat))];
    let p3 = crate::http::str_pair("name"@, q.name);
    let p4 = crate::http::bool_pair("rated"@, q.rated);
    let p5 = crate::http::nat_pair("roundInterval"@, crate::http::opt_u32(q.round_interval));
    let p6 = crate::http::int_pair("startsAt"@, crate::http::opt_i64(q.starts_at));
    let p7 = crate::http::opt_pair("variant"@, LichessVariantKey::opt_wire(q.variant));
    let p8 = crate::http::str_pair("position"@, q.position);
    let p9 = crate::http::str_pair("description"@, q.description);
    let p10 = crate::http::str_pair("password"@, q.password);
    let p11 = crate::http::str_pair("forbiddenPairings"@, q.forbidden_pairings);
    let p12 = crate::http::str_pair("manualPairings"@, q.manual_pairings);
    let p13 = crate::http::nat_pair("chatFor"@, crate::http::opt_u32(q.chat_for));
    let s0 = p0;
    let s1 = s0 + p1;
    let s2 = s1 + p2;
    let s3 = s2 + p3;
    let s4 = s3 + p4;
    let s5 = s4 + p5;
    let s6 = s5 + p6;
    let s7 = s6 + p7;
    let s8 = s7 + p8;
    let s9 = s8 + p9;
    let s10 = s9 + p10;
    let s11 = s10 + p11;
    let s12 = s11 + p12;
    let s13 = s12 + p13;
    assert(q.pairs_view() == s13);
    let v = match q.description { Some(v) => Some(v@), None => None };
    crate::text::lemma_extend(s0, p1, "description"@, None, false);
    crate::text::lemma_extend(s1, p2, "description"@, None, false);
    crate::text::lemma_extend(s2, p3, "description"@, None, false);
    crate::text::lemma_extend(s3, p4, "description"@, None, false);
    crate::text::lemma_extend(s4, p5, "description"@, None, false);
    crate::text::lemma_extend(s5, p6, "description"@, None, false);
    crate::text::lemma_extend(s6, p7, "description"@, None, false);
    crate::text::lemma_extend(s7, p8, "description"@, None, false);
    crate::text::lemma_extend(s8, p9, "description"@, v, true);
    crate::text::lemma_extend(s9, p10, "description"@, v, false);
    crate::text::lemma_extend(s10, p11, "description"@, v, false);
    crate::text::lemma_extend(s11, p12, "description"@, v, false);
    crate::text::lemma_extend(s12, p13, "description"@, v, false);
}

/// The pairs of [`CreateForm`] carry its field under `password`.
proof fn lemma_create_form_password(q: CreateForm)
    ensures
        crate::text::carries(q.pairs_view(), "password"@, match q.password { Some(v) => Some(v@), None => None }),
{
    reveal_strlit("chatFor");
    reveal_strlit("clock.increment");
    reveal_strlit("clock.limit");
    reveal_strlit("description");
    reveal_strlit("forbiddenPairings");
    reveal_strlit("manualPairings");
    reveal_strlit("name");
    reveal_strlit("nbRounds");
    reveal_strlit("password");
    reveal_strlit("position");
    reveal_strlit("rated");
    reveal_strlit("roundInterval");
    reveal_strlit("startsAt");
    reveal_strlit("variant");
    assert("password"@.len() != "chatFor"@.len());
    assert("password"@.len() != "clock.increment"@.len());
    assert("password"@.len() != "clock.limit"@.len());
    assert("password"@.len() != "description"@.len());
    assert("password"@.len() != "forbiddenPairings"@.len());
    assert("password"@.len() != "manualPairings"@.len());
    assert("password"@.len() != "name"@.len());
    assert("password"@[0] != "nbRounds"@[0]);
    assert("password"@[1] != "position"@[1]);
    assert("password"@.len() != "rated"@.len());
    assert("password"@.len() != "roundInterval"@.len());
    assert("password"@[0] != "startsAt"@[0]);
    assert("password"@.len() != "variant"@.len());
    let p0 = seq![("clock.limit"@, crate::text::dec_nat(q.clock_limit as nat))];
    let p1 = seq![("clock.increment"@, crate::text::dec_nat(q.clock_increment as nat))];
    let p2 = seq![("nbRounds"@, crate::text::dec_nat(q.nb_rounds as nat))];
    let p3 = crate::http::str_pair("name"@, q.name);
    let p4 = crate::http::bool_pair("rated"@, q.rated);
    let p5 = crate::http::nat_pair("roundInterval"@, crate::http::opt_u32(q.round_interval));
    let p6 = crate::http::int_pair("startsAt"@, crate::http::opt_i64(q.starts_at));
    let p7 = crate::http::opt_pair("variant"@, LichessVariantKey::opt_wire(q.variant));
    let p8 = crate::http::str_pair("position"@, q.position);
    let p9 = crate::http::str_pair("description"@, q.description);
    let p10 = crate::http::str_pair("password"@, q.password);
    let p11 = crate::http::str_pair("forbiddenPairings"@, q.forbidden_pairings);
    let p12 = crate::http::str_pair("manualPairings"@, q.manual_pairings);
    let p13 = crate::http::nat_pair("chatFor"@, crate::http::opt_u32(q.chat_for));
    let s0 = p0;
    let s1 = s0 + p1;
    let s2 = s1 + p2;
    let s3 = s2 + p3;
    let s4 = s3 + p4;
    let s5 = s4 + p5;
    let s6 = s5 + p6;
    let s7 = s6 + p7;
    let s8 = s7 + p8;
    let s9 = s8 + p9;
    let s10 = s9 + p10;
    let s11 = s10 + p11;
    let s12 = s11 + p12;
    let s13 = s12 + p13;
    assert(q.pairs_view() == s13);
    let v = match q.password { Some(v) => Some(v@), None => None };
    crate::text::lemma_extend(s0, p1, "password"@, None, false);
    crate::text::lemma_extend(s1, p2, "password"@, None, false);
    crate::text::lemma_extend(s2, p3, "password"@, None, false);
    crate::text::lemma_extend(s3, p4, "password"@, None, false);
    crate::text::lemma_extend(s4, p5, "password"@, None, false);
    crate::text::lemma_extend(s5, p6, "password"@, None, false);
    crate::text::lemma_extend(s6, p7, "password"@, None, false);
    crate::text::lemma_extend(s7, p8, "password"@, None, false);
    crate::text::lemma_extend(s8, p9, "password"@, None, false);
    crate::text::lemma_extend(s9, p10, "password"@, v, true);
    crate::text::lemma_extend(s10, p11, "password"@, v, false);
    crate::text::lemma_extend(s11, p12, "password"@, v, false);
    crate::text::lemma_extend(s12, p13, "password"@, v, false);
}

/// The pairs of [`CreateForm`] carry its field under `forbiddenPairings`.
proof fn lemma_create_form_forbidden_pairings(q: CreateForm)
    ensures
        crate::text::carries(q.pairs_view(), "forbiddenPairings"@, match q.forbidden_pairings { Some(v) => Some(v@), None => None }),
{
    reveal_strlit("chatFor");
    reveal_strlit("clock.increment");
    reveal_strlit("clock.limit");
    reveal_strlit("description");
    reveal_strlit("forbiddenPairings");
    reveal_strlit("manualPairings");
    reveal_strlit("name");
    reveal_strlit("nbRounds");
    reveal_strlit("password");
    reveal_strlit("position");
    reveal_strlit("rated");
    reveal_strlit("roundInterval");
    reveal_strlit("startsAt");
    reveal_strlit("variant");
    assert("forbiddenPairings"@.len() != "chatFor"@.len());
    assert("forbiddenPairings"@.len() != "clock.increment"@.len());
    assert("forbiddenPairings"@.len() != "clock.limit"@.len());
    assert("forbiddenPairings"@.len() != "description"@.len());
    assert("forbiddenPairings"@.len() != "manualPairings"@.len());
    assert("forbiddenPairings"@.len() != "name"@.len());
    assert("forbiddenPairings"@.len() != "nbRounds"@.len());
    assert("forbiddenPairings"@.len() != "password"@.len());
    assert("forbiddenPairings"@.len() != "position"@.len());
    assert("forbiddenPairings"@.len() != "rated"@.len());
    assert("forbiddenPairings"@.len() != "roundInterval"@.len());
    assert("forbiddenPairings"@.len() != "startsAt"@.len());
    assert("forbiddenPairings"@.len() != "variant"@.len());
    let p0 = seq![("clock.limit"@, crate::text::dec_nat(q.clock_limit as nat))];
    let p1 = seq![("clock.increment"@, crate::text::dec_nat(q.clock_increment as nat))];
    let p2 = seq![("nbRounds"@, crate::text::dec_nat(q.nb_rounds as nat))];
    let p3 = crate::http::str_pair("name"@, q.name);
    let p4 = crate::http::bool_pair("rated"@, q.rated);
    let p5 = crate::http::nat_pair("roundInterval"@, crate::http::opt_u32(q.round_interval));
    let p6 = crate::http::int_pair("startsAt"@, crate::http::opt_i64(q.starts_at));
    let p7 = crate::http::opt_pair("variant"@, LichessVariantKey::opt_wire(q.variant));
    let p8 = crate::http::str_pair("position"@, q.position);
    let p9 = crate::http::str_pair("description"@, q.description);
    let p10 = crate::http::str_pair("password"@, q.password);
    let p11 = crate::http::str_pair("forbiddenPairings"@, q.forbidden_pairings);
    let p12 = crate::http::str_pair("manualPairings"@, q.manual_pairings);
    let p13 = crate::http::nat_pair("chatFor"@, crate::http::opt_u32(q.chat_for));
    let s0 = p0;
    let s1 = s0 + p1;
    let s2 = s1 + p2;
    let s3 = s2 + p3;
    let s4 = s3 + p4;
    let s5 = s4 + p5;
    let s6 = s5 + p6;
    let s7 = s6 + p7;
    let s8 = s7 + p8;
    let s9 = s8 + p9;
    let s10 = s9 + p10;
    let s11 = s10 + p11;
    let s12 = s11 + p12;
    let s13 = s12 + p13;
    assert(q.pairs_view() == s13);
    let v = match q.forbidden_pairings { Some(v) => Some(v@), None => None };
    crate::text::lemma_extend(s0, p1, "forbiddenPairings"@, None, false);
    crate::text::lemma_extend(s1, p2, "forbiddenPairings"@, None, false);
    crate::text::lemma_extend(s2, p3, "forbiddenPairings"@, None, false);
    crate::text::lemma_extend(s3, p4, "forbiddenPairings"@, None, false);
    crate::text::lemma_extend(s4, p5, "forbiddenPairings"@, None, false);
    crate::text::lemma_extend(s5, p6, "forbiddenPairings"@, None, false);
    crate::text::lemma_extend(s6, p7, "forbiddenPairings"@, None, false);
    crate::text::lemma_extend(s7, p8, "forbiddenPairings"@, None, false);
    crate::text::lemma_extend(s8, p9, "forbiddenPairings"@, None, false);
    crate::text::lemma_extend(s9, p10, "forbiddenPairings"@, None, false);
    crate::text::lemma_extend(s10, p11, "forbiddenPairings"@, v, true);
    crate::text::lemma_extend(s11, p12, "forbiddenPairings"@, v, false);
    crate::text::lemma_extend(s12, p13, "forbiddenPairings"@, v, false);
}

/// The pairs of [`CreateForm`] carry its field under `manualPairings`.
proof fn lemma_create_form_manual_pairings(q: CreateForm)
    ensures
        crate::text::carries(q.pairs_view(), "manualPairings"@, match q.manual_pairings { Some(v) => Some(v@), None => None }),
{
    reveal_strlit("chatFor");
    reveal_strlit("clock.increment");
    reveal_strlit("clock.limit");
    reveal_strlit("description");
    reveal_strlit("forbiddenPairings");
    reveal_strlit("manualPairings");
    reveal_strlit("name");
    reveal_strlit("nbRounds");
    reveal_strlit("password");
    reveal_strlit("position");
    reveal_strlit("rated");
    reveal_strlit("roundInterval");
    reveal_strlit("startsAt");
    reveal_strlit("variant");
    assert("manualPairings"@.len() != "chatFor"@.len());
    assert("manualPairings"@.len() != "clock.increment"@.len());
    assert("manualPairings"@.len() != "clock.limit"@.len());
    assert("manualPairings"@.len() != "description"@.len());
    assert("manualPairings"@.len() != "forbiddenPairings"@.len());
    assert("manualPairings"@.len() != "name"@.len());
    assert("manualPairings"@.len() != "nbRounds"@.len());
    assert("manualPairings"@.len() != "password"@.len());
    assert("manualPairings"@.len() != "position"@.len());
    assert("manualPairings"@.len() != "rated"@.len());
    assert("manualPairings"@.len() != "roundInterval"@.len());
    assert("manualPairings"@.len() != "startsAt"@.len());
    assert("manualPairings"@.len() != "variant"@.len());
    let p0 = seq![("clock.limit"@, crate::text::dec_nat(q.clock_limit as nat))];
    let p1 = seq![("clock.increment"@, crate::text::dec_nat(q.clock_increment as nat))];
    let p2 = seq![("nbRounds"@, crate::text::dec_nat(q.nb_rounds as nat))];
    let p3 = crate::http::str_pair("name"@, q.name);
    let p4 = crate::http::bool_pair("rated"@, q.rated);
    let p5 = crate::http::nat_pair("roundInterval"@, crate::http::opt_u32(q.round_interval));
    let p6 = crate::http::int_pair("startsAt"@, crate::http::opt_i64(q.starts_at));
    let p7 = crate::http::opt_pair("variant"@, LichessVariantKey::opt_wire(q.variant));
    let p8 = crate::http::str_pair("position"@, q.position);
    let p9 = crate::http::str_pair("description"@, q.description);
    let p10 = crate::http::str_pair("password"@, q.password);
    let p11 = crate::http::str_pair("forbiddenPairings"@, q.forbidden_pairings);
    let p12 = crate::http::str_pair("manualPairings"@, q.manual_pairings);
    let p13 = crate::http::nat_pair("chatFor"@, crate::http::opt_u32(q.chat_for));
    let s0 = p0;
    let s1 = s0 + p1;
    let s2 = s1 + p2;
    let s3 = s2 + p3;
    let s4 = s3 + p4;
    let s5 = s4 + p5;
    let s6 = s5 + p6;
    let s7 = s6 + p7;
    let s8 = s7 + p8;
    let s9 = s8 + p9;
    let s10 = s9 + p10;
    let s11 = s10 + p11;
    let s12 = s11 + p12;
    let s13 = s12 + p13;
    assert(q.pairs_view() == s13);
    let v = match q.manual_pairings { Some(v) => Some(v@), None => None };
    crate::text::lemma_extend(s0, p1, "manualPairings"@, None, false);
    crate::text::lemma_extend(s1, p2, "manualPairings"@, None, false);
    crate::text::lemma_extend(s2, p3, "manualPairings"@, None, false);
    crate::text::lemma_extend(s3, p4, "manualPairings"@, None, false);
    crate::text::lemma_extend(s4, p5, "manualPairings"@, None, false);
    crate::text::lemma_extend(s5, p6, "manualPairings"@, None, false);
    crate::text::lemma_extend(s6, p7, "manualPairings"@, None, false);
    crate::text::lemma_extend(s7, p8, "manualPairings"@, None, false);
    crate::text::lemma_extend(s8, p9, "manualPairings"@, None, false);
    crate::text::lemma_extend(s9, p10, "manualPairings"@, None, false);
    crate::text::lemma_extend(s10, p11, "manualPairings"@, None, false);
    crate::text::lemma_extend(s11, p12, "manualPairings"@, v, true);
    crate::text::lemma_extend(s12, p13, "manualPairings"@, v, false);
}

/// The pairs of [`CreateForm`] carry its field under `chatFor`.
proof fn lemma_create_form_chat_for(q: CreateForm)
    ensures
        crate::text::carries(q.pairs_view(), "chatFor"@, match q.chat_for { Some(x) => Some(crate::text::dec_nat(x as nat)), None => None }),
{
    reveal_strlit("chatFor");
    reveal_strlit("clock.increment");
    reveal_strlit("clock.limit");
    reveal_strlit("description");
    reveal_strlit("forbiddenPairings");
    reveal_strlit("manualPairings");
    reveal_strlit("name");
    reveal_strlit("nbRounds");
    reveal_strlit("password");
    reveal_strlit("position");
    reveal_strlit("rated");
    reveal_strlit("roundInterval");
    reveal_strlit("startsAt");
    reveal_strlit("variant");
    assert("chatFor"@.len() != "clock.increment"@.len());
    assert("chatFor"@.len() != "clock.limit"@.len());
    assert("chatFor"@.len() != "description"@.len());
    assert("chatFor"@.len() != "forbiddenPairings"@.len());
    assert("chatFor"@.len() != "manualPairings"@.len());
    assert("chatFor"@.len() != "name"@.len());
    assert("chatFor"@.len() != "nbRounds"@.len());
    assert("chatFor"@.len() != "password"@.len());
    assert("chatFor"@.len() != "position"@.len());
    assert("chatFor"@.len() != "rated"@.len());
    assert("chatFor"@.len() != "roundInterval"@.len());
    assert("chatFor"@.len() != "startsAt"@.len());
    assert("chatFor"@[0] != "variant"@[0]);
    let p0 = seq![("clock.limit"@, crate::text::dec_nat(q.clock_limit as nat))];
    let p1 = seq![("clock.increment"@, crate::text::dec_nat(q.clock_increment as nat))];
    let p2 = seq![("nbRounds"@, crate::text::dec_nat(q.nb_rounds as nat))];
    let p3 = crate::http::str_pair("name"@, q.name);
    let p4 = crate::http::bool_pair("rated"@, q.rated);
    let p5 = crate::http::nat_pair("roundInterval"@, crate::http::opt_u32(q.round_interval));
    let p6 = crate::http::int_pair("startsAt"@, crate::http::opt_i64(q.starts_at));
    let p7 = crate::http::opt_pair("variant"@, LichessVariantKey::opt_wire(q.variant));
    let p8 = crate::http::str_pair("position"@, q.position);
    let p9 = crate::http::str_pair("description"@, q.description);
    let p10 = crate::http::str_pair("password"@, q.password);
    let p11 = crate::http::str_pair("forbiddenPairings"@, q.forbidden_pairings);
    let p12 = crate::http::str_pair("manualPairings"@, q.manual_pairings);
    let p13 = crate::http::nat_pair("chatFor"@, crate::http::opt_u32(q.chat_for));
    let s0 = p0;
    let s1 = s0 + p1;
    let s2 = s1 + p2;
    let s3 = s2 + p3;
    let s4 = s3 + p4;
    let s5 = s4 + p5;
    let s6 = s5 + p6;
    let s7 = s6 + p7;
    let s8 = s7 + p8;
    let s9 = s8 + p9;
    let s10 = s9 + p10;
    let s11 = s10 + p11;
    let s12 = s11 + p12;
    let s13 = s12 + p13;
    assert(q.pairs_view() == s13);
    let v = match q.chat_for { Some(x) => Some(crate::text::dec_nat(x as nat)), None => None };
    crate::text::lemma_extend(s0, p1, "chatFor"@, None, false);
    crate::text::lemma_extend(s1, p2, "chatFor"@, None, false);
    crate::text::lemma_extend(s2, p3, "chatFor"@, None, false);
    crate::text::lemma_extend(s3, p4, "chatFor"@, None, false);
    crate::text::lemma_extend(s4, p5, "chatFor"@, None, false);
    crate::text::lemma_extend(s5, p6, "chatFor"@, None, false);
    crate::text::lemma_extend(s6, p7, "chatFor"@, None, false);
    crate::text::lemma_extend(s7, p8, "chatFor"@, None, false);
    crate::text::lemma_extend(s8, p9, "chatFor"@, None, false);
    crate::text::lemma_extend(s9, p10, "chatFor"@, None, false);
    crate::text::lemma_extend(s10, p11, "chatFor"@, None, false);
    crate::text::lemma_extend(s11, p12, "chatFor"@, None, false);
    crate::text::lemma_extend(s12, p13, "chatFor"@, v, true);
}

/// The pairs of [`CreateForm`] carry each of its fields under that field's own
/// key (`clock.limit`, `clock.increment`, `nbRounds`, `name`, `rated`, `roundInterval`, `startsAt`, `variant`, `position`, `description`, `password`, `forbiddenPairings`, `manualPairings`, `chatFor`), with the value given to it, and a key only when its field is set.
pub proof fn lemma_create_form_carries_fields(q: CreateForm)
    ensures
        crate::text::carries(q.pairs_view(), "clock.limit"@, Some(crate::text::dec_nat(q.clock_limit as nat))),
        crate::text::carries(q.pairs_view(), "clock.increment"@, Some(crate::text::dec_nat(q.clock_increment as nat))),
        crate::text::carries(q.pairs_view(), "nbRounds"@, Some(crate::text::dec_nat(q.nb_rounds as nat))),
        crate::text::carries(q.pairs_view(), "name"@, match q.name { Some(v) => Some(v@), None => None }),
        crate::text::carries(q.pairs_view(), "rated"@, match q.rated { Some(b) => Some(if b { seq!['t', 'r', 'u', 'e'] } else { seq!['f', 'a', 'l', 's', 'e'] }), None => None }),
        crate::text::carries(q.pairs_view(), "roundInterval"@, match q.round_interval { Some(x) => Some(crate::text::dec_nat(x as nat)), None => None }),
        crate::text::carries(q.pairs_view(), "startsAt"@, match q.starts_at { Some(x) => Some(crate::text::dec_int(x as int)), None => None }),
        crate::text::carries(q.pairs_view(), "variant"@, LichessVariantKey::opt_wire(q.variant)),
        crate::text::carries(q.pairs_view(), "position"@, match q.position { Some(v) => Some(v@), None => None }),
        crate::text::carries(q.pairs_view(), "description"@, match q.description { Some(v) => Some(v@), None => None }),
        crate::text::carries(q.pairs_view(), "password"@, match q.password { Some(v) => Some(v@), None => None }),
        crate::text::carries(q.pairs_view(), "forbiddenPairings"@, match q.forbidden_pairings { Some(v) => Some(v@), None => None }),
        crate::text::carries(q.pairs_view(), "manualPairings"@, match q.manual_pairings { Some(v) => Some(v@), None => None }),
        crate::text::carries(q.pairs_view(), "chatFor"@, match q.chat_for { Some(x) => Some(crate::text::dec_nat(x as nat)), None => None }),
{
    lemma_create_form_clock_limit(q);
    lemma_create_form_clock_increment(q);
    lemma_create_form_nb_rounds(q);
    lemma_create_form_name(q);
    lemma_create_form_rated(q);
    lemma_create_form_round_interval(q);
    lemma_create_form_starts_at(q);
    lemma_create_form_variant(q);
    lemma_create_form_position(q);
    lemma_create_form_description(q);
    lemma_create_form_password(q);
    lemma_create_form_forbidden_pairings(q);
    lemma_create_form_manual_pairings(q);
    lemma_create_form_chat_for(q);
}

impl<'a> CreateForm<'a> {
    /// The form with the required fields and every option unset.
    pub open spec fn with_required(clock_limit: u32, clock_increment: u32, nb_rounds: u32) -> Self {
        CreateForm {
            clock_limit,
            clock_increment,
            nb_rounds,
            name: None,
            rated: None,
            round_interval: None,
            starts_at: None,
            variant: None,
            position: None,
            description: None,
            password: None,
            forbidden_pairings: None,
            manual_pairings: None,
            chat_for: None,
        }
    }

    /// The query pairs, in order.
    pub open spec fn pairs_view(self) -> crate::text::Pairs {
        seq![("clock.limit"@, crate::text::dec_nat(self.clock_limit as nat))]
            + seq![("clock.increment"@, crate::text::dec_nat(self.clock_increment as nat))]
            + seq![("nbRounds"@, crate::text::dec_nat(self.nb_rounds as nat))]
            + crate::http::str_pair("name"@, self.name)
            + crate::http::bool_pair("rated"@, self.rated)
            + crate::http::nat_pair("roundInterval"@, crate::http::opt_u32(self.round_interval))
            + crate::http::int_pair("startsAt"@, crate::http::opt_i64(self.starts_at))
            + crate::http::opt_pair("variant"@, LichessVariantKey::opt_wire(self.variant))
            + crate::http::str_pair("position"@, self.position)
            + crate::http::str_pair("description"@, self.description)
            + crate::http::str_pair("password"@, self.password)
            + crate::http::str_pair("forbiddenPairings"@, self.forbidden_pairings)
            + crate::http::str_pair("manualPairings"@, self.manual_pairings)
            + crate::http::nat_pair("chatFor"@, crate::http::opt_u32(self.chat_for))
    }

    /// The query pairs.
    #[verifier::rlimit(80)]
    pub fn pairs(&self) -> (r: Vec<(String, String)>)
        ensures
            r.deep_view() == self.pairs_view(),
    {
        let mut out: Vec<(String, String)> = Vec::new();
        crate::http::push_pair(&mut out, "clock.limit", crate::text::u64_to_string(self.clock_limit as u64));
        crate::http::push_pair(&mut out, "clock.increment", crate::text::u64_to_string(self.clock_increment as u64));
        crate::http::push_pair(&mut out, "nbRounds", crate::text::u64_to_string(self.nb_rounds as u64));
        crate::http::push_opt_str(&mut out, "name", self.name);
        crate::http::push_opt_bool(&mut out, "rated", self.rated);
        crate::http::push_opt_u32(&mut out, "roundInterval", self.round_interval);
        crate::http::push_opt_i64(&mut out, "startsAt", self.starts_at);
        match self.variant {
            Some(x) => crate::http::push_pair(&mut out, "variant", String::from_str(x.as_str())),
            None => {},
        }
        crate::http::push_opt_str(&mut out, "position", self.position);
        crate::http::push_opt_str(&mut out, "description", self.description);
        crate::http::push_opt_str(&mut out, "password", self.password);
        crate::http::push_opt_str(&mut out, "forbiddenPairings", self.forbidden_pairings);
        crate::http::push_opt_str(&mut out, "manualPairings", self.manual_pairings);
        crate::http::push_opt_u32(&mut out, "chatFor", self.chat_for);
        assert(out.deep_view() =~= self.pairs_view());
        out
    }
}

/// Entry conditions for a swiss tournament, serialized as `conditions.*` keys.
#[derive(Debug, Clone)]
pub struct SwissConditions<'a> {
    /// Minimum rating to join.
    pub min_rating: Option<u32>,
    /// Maximum rating to join.
    pub max_rating: Option<u32>,
    /// Minimum number of rated games required to join.
    pub nb_rated_games: Option<u32>,
    /// Comma-separated usernames allowed to join (append `%titled` to also allow
    /// any titled player).
    pub allow_list: Option<&'a str>,
    /// Require players to have played their games (no repeated no-shows).
    pub play_your_games: Option<bool>,
}

/// The pairs of [`SwissConditions`] carry its field under `conditions.minRating.rating`.
proof fn lemma_swiss_conditions_conditions_min_rating_rating(q: SwissConditions)
    ensures
        crate::text::carries(q.pairs_view(), "conditions.minRating.rating"@, match q.min_rating { Some(x) => Some(crate::text::dec_nat(x as nat)), None => None }),
{
    reveal_strlit("conditions.allowList");
    reveal_strlit("conditions.maxRating.rating");
    reveal_strlit("conditions.minRating.rating");
    reveal_strlit("conditions.nbRatedGame.nb");
    reveal_strlit("conditions.playYourGames");
    assert("conditions.minRating.rating"@.len() != "conditions.allowList"@.len());
    assert("conditions.minRating.rating"@[12] != "conditions.maxRating.rating"@[12]);
    assert("conditions.minRating.rating"@.len() != "conditions.nbRatedGame.nb"@.len());
    assert("conditions.minRating.rating"@.len() != "conditions.playYourGames"@.len());
    let p0 = crate::http::nat_pair("conditions.minRating.rating"@, crate::http::opt_u32(q.min_rating));
    let p1 = crate::http::nat_pair("conditions.maxRating.rating"@, crate::http::opt_u32(q.max_rating));
    let p2 = crate::http::nat_pair("conditions.nbRatedGame.nb"@, crate::http::opt_u32(q.nb_rated_games));
    let p3 = crate::http::str_pair("conditions.allowList"@, q.allow_list);
    let p4 = crate::http::bool_pair("conditions.playYourGames"@, q.play_your_games);
    let s0 = p0;
    let s1 = s0 + p1;
    let s2 = s1 + p2;
    let s3 = s2 + p3;
    let s4 = s3 + p4;
    assert(q.pairs_view() == s4);
    let v = match q.min_rating { Some(x) => Some(crate::text::dec_nat(x as nat)), None => None };
    assert(p0 == crate::text::one_pair("conditions.minRating.rating"@, v));
    crate::text::lemma_one_pair_carries("conditions.minRating.rating"@, v);
    crate::text::lemma_extend(s0, p1, "conditions.minRating.rating"@, v, false);
    crate::text::lemma_extend(s1, p2, "conditions.minRating.rating"@, v, false);
    crate::text::lemma_extend(s2, p3, "conditions.minRating.rating"@, v, false);
    crate::text::lemma_extend(s3, p4, "conditions.minRating.rating"@, v, false);
}

/// The pairs of [`SwissConditions`] carry its field under `conditions.maxRating.rating`.
proof fn lemma_swiss_conditions_conditions_max_rating_rating(q: SwissConditions)
    ensures
        crate::text::carries(q.pairs_view(), "conditions.maxRating.rating"@, match q.max_rating { Some(x) => Some(crate::text::dec_nat(x as nat)), None => None }),
{
    reveal_strlit("conditions.allowList");
    reveal_strlit("conditions.maxRating.rating");
    reveal_strlit("conditions.minRating.rating");
    reveal_strlit("conditions.nbRatedGame.nb");
    reveal_strlit("conditions.playYourGames");
    assert("conditions.maxRating.rating"@.len() != "conditions.allowList"@.len());
    assert("conditions.maxRating.rating"@[12] != "conditions.minRating.rating"@[12]);
    assert("conditions.maxRating.rating"@.len() != "conditions.nbRatedGame.nb"@.len());
    assert("conditions.maxRating.rating"@.len() != "conditions.playYourGames"@.len());
    let p0 = crate::http::nat_pair("conditions.minRating.rating"@, crate::http::opt_u32(q.min_rating));
    let p1 = crate::http::nat_pair("conditions.maxRating.rating"@, crate::http::opt_u32(q.max_rating));
    let p2 = crate::http::nat_pair("conditions.nbRatedGame.nb"@, crate::http::opt_u32(q.nb_rated_games));
    let p3 = crate::http::str_pair("conditions.allowList"@, q.allow_list);
    let p4 = crate::http::bool_pair("conditions.playYourGames"@, q.play_your_games);
    let s0 = p0;
    let s1 = s0 + p1;
    let s2 = s1 + p2;
    let s3 = s2 + p3;
    let s4 = s3 + p4;
    assert(q.pairs_view() == s4);
    let v = match q.max_rating { Some(x) => Some(crate::text::dec_nat(x as nat)), None => None };
    crate::text::lemma_extend(s0, p1, "conditions.maxRating.rating"@, v, true);
    crate::text::lemma_extend(s1, p2, "conditions.maxRating.rating"@, v, false);
    crate::text::lemma_extend(s2, p3, "conditions.maxRating.rating"@, v, false);
    crate::text::lemma_extend(s3, p4, "conditions.maxRating.rating"@, v, false);
}

/// The pairs of [`SwissConditions`] carry its field under `conditions.nbRatedGame.nb`.
proof fn lemma_swiss_conditions_conditions_nb_rated_game_nb(q: SwissConditions)
    ensures
        crate::text::carries(q.pairs_view(), "conditions.nbRatedGame.nb"@, match q.nb_rated_games { Some(x) => Some(crate::text::dec_nat(x as nat)), None => None }),
{
    reveal_strlit("conditions.allowList");
    reveal_strlit("conditions.maxRating.rating");
    reveal_strlit("conditions.minRating.rating");
    reveal_strlit("conditions.nbRatedGame.nb");
    reveal_strlit("conditions.playYourGames");
    assert("conditions.nbRatedGame.nb"@.len() != "conditions.allowList"@.len());
    assert("conditions.nbRatedGame.nb"@.len() != "conditions.maxRating.rating"@.len());
    assert("conditions.nbRatedGame.nb"@.len() != "conditions.minRating.rating"@.len());
    assert("conditions.nbRatedGame.nb"@.len() != "conditions.playYourGames"@.len());
    let p0 = crate::http::nat_pair("conditions.minRating.rating"@, crate::http::opt_u32(q.min_rating));
    let p1 = crate::http::nat_pair("conditions.maxRating.rating"@, crate::http::opt_u32(q.max_rating));
    let p2 = crate::http::nat_pair("conditions.nbRatedGame.nb"@, crate::http::opt_u32(q.nb_rated_games));
    let p3 = crate::http::str_pair("conditions.allowList"@, q.allow_list);
    let p4 = crate::http::bool_pair("conditions.playYourGames"@, q.play_your_games);
    let s0 = p0;
    let s1 = s0 + p1;
    let s2 = s1 + p2;
    let s3 = s2 + p3;
    let s4 = s3 + p4;
    assert(q.pairs_view() == s4);
    let v = match q.nb_rated_games { Some(x) => Some(crate::text::dec_nat(x as nat)), None => None };
    crate::text::lemma_extend(s0, p1, "conditions.nbRatedGame.nb"@, None, false);
    crate::text::lemma_extend(s1, p2, "conditions.nbRatedGame.nb"@, v, true);
    crate::text::lemma_extend(s2, p3, "conditions.nbRatedGame.nb"@, v, false);
    crate::text::lemma_extend(s3, p4, "conditions.nbRatedGame.nb"@, v, false);
}

/// The pairs of [`SwissConditions`] carry its field under `conditions.allowList`.
proof fn lemma_swiss_conditions_conditions_allow_list(q: SwissConditions)
    ensures
        crate::text::carries(q.pairs_view(), "conditions.allowList"@, match q.allow_list { Some(v) => Some(v@), None => None }),
{
    reveal_strlit("conditions.allowList");
    reveal_strlit("conditions.maxRating.rating");
    reveal_strlit("conditions.minRating.rating");
    reveal_strlit("conditions.nbRatedGame.nb");
    reveal_strlit("conditions.playYourGames");
    assert("conditions.allowList"@.len() != "conditions.maxRating.rating"@.len());
    assert("conditions.allowList"@.len() != "conditions.minRating.rating"@.len());
    assert("conditions.allowList"@.len() != "conditions.nbRatedGame.nb"@.len());
    assert("conditions.allowList"@.len() != "conditions.playYourGames"@.len());
    let p0 = crate::http::nat_pair("conditions.minRating.rating"@, crate::http::opt_u32(q.min_rating));
    let p1 = crate::http::nat_pair("conditions.maxRating.rating"@, crate::http::opt_u32(q.max_rating));
    let p2 = crate::http::nat_pair("conditions.nbRatedGame.nb"@, crate::http::opt_u32(q.nb_rated_games));
    let p3 = crate::http::str_pair("conditions.allowList"@, q.allow_list);
    let p4 = crate::http::bool_pair("conditions.playYourGames"@, q.play_your_games);
    let s0 = p0;
    let s1 = s0 + p1;
    let s2 = s1 + p2;
    let s3 = s2 + p3;
    let s4 = s3 + p4;
    assert(q.pairs_view() == s4);
    let v = match q.allow_list { Some(v) => Some(v@), None => None };
    crate::text::lemma_extend(s0, p1, "conditions.allowList"@, None, false);
    crate::text::lemma_extend(s1, p2, "conditions.allowList"@, None, false);
    crate::text::lemma_extend(s2, p3, "conditions.allowList"@, v, true);
    crate::text::lemma_extend(s3, p4, "conditions.allowList"@, v, false);
}

/// The pairs of [`SwissConditions`] carry its field under `conditions.playYourGames`.
proof fn lemma_swiss_conditions_conditions_play_your_games(q: SwissConditions)
    ensures
        crate::text::carries(q.pairs_view(), "conditions.playYourGames"@, match q.play_your_games { Some(b) => Some(if b { seq!['t', 'r', 'u', 'e'] } else { seq!['f', 'a', 'l', 's', 'e'] }), None => None }),
{
    reveal_strlit("conditions.allowList");
    reveal_strlit("conditions.maxRating.rating");
    reveal_strlit("conditions.minRating.rating");
    reveal_strlit("conditions.nbRatedGame.nb");
    reveal_strlit("conditions.playYourGames");
    assert("conditions.playYourGames"@.len() != "conditions.allowList"@.len());
    assert("conditions.playYourGames"@.len() != "conditions.maxRating.rating"@.len());
    assert("conditions.playYourGames"@.len() != "conditions.minRating.rating"@.len());
    assert("conditions.playYourGames"@.len() != "conditions.nbRatedGame.nb"@.len());
    let p0 = crate::http::nat_pair("conditions.minRating.rating"@, crate::http::opt_u32(q.min_rating));
    let p1 = crate::http::nat_pair("conditions.maxRating.rating"@, crate::http::opt_u32(q.max_rating));
    let p2 = crate::http::nat_pair("conditions.nbRatedGame.nb"@, crate::http::opt_u32(q.nb_rated_games));
    let p3 = crate::http::str_pair("conditions.allowList"@, q.allow_list);
    let p4 = crate::http::bool_pair("conditions.playYourGames"@, q.play_your_games);
    let s0 = p0;
    let s1 = s0 + p1;
    let s2 = s1 + p2;
    let s3 = s2 + p3;
    let s4 = s3 + p4;
    assert(q.pairs_view() == s4);
    let v = match q.play_your_games { Some(b) => Some(if b { seq!['t', 'r', 'u', 'e'] } else { seq!['f', 'a', 'l', 's', 'e'] }), None => None };
    crate::text::lemma_extend(s0, p1, "conditions.playYourGames"@, None, false);
    crate::text::lemma_extend(s1, p2, "conditions.playYourGames"@, None, false);
    crate::text::lemma_extend(s2, p3, "conditions.playYourGames"@, None, false);
    crate::text::lemma_extend(s3, p4, "conditions.playYourGames"@, v, true);
}

/// The pairs of [`SwissConditions`] carry each of its fields under that field's own
/// key (`conditions.minRating.rating`, `conditions.maxRating.rating`, `conditions.nbRatedGame.nb`, `conditions.allowList`, `conditions.playYourGames`), with the value given to it, and a key only when its field is set.
pub proof fn lemma_swiss_conditions_carries_fields(q: SwissConditions)
    ensures
        crate::text::carries(q.pairs_view(), "conditions.minRating.rating"@, match q.min_rating { Some(x) => Some(crate::text::dec_nat(x as nat)), None => None }),
        crate::text::carries(q.pairs_view(), "conditions.maxRating.rating"@, match q.max_rating { Some(x) => Some(crate::text::dec_nat(x as nat)), None => None }),
        crate::text::carries(q.pairs_view(), "conditions.nbRatedGame.nb"@, match q.nb_rated_games { Some(x) => Some(crate::text::dec_nat(x as nat)), None => None }),
        crate::text::carries(q.pairs_view(), "conditions.allowList"@, match q.allow_list { Some(v) => Some(v@), None => None }),
        crate::text::carries(q.pairs_view(), "conditions.playYourGames"@, match q.play_your_games { Some(b) => Some(if b { seq!['t', 'r', 'u', 'e'] } else { seq!['f', 'a', 'l', 's', 'e'] }), None => None }),
{
    lemma_swiss_conditions_conditions_min_rating_rating(q);
    lemma_swiss_conditions_conditions_max_rating_rating(q);
    lemma_swiss_conditions_conditions_nb_rated_game_nb(q);
    lemma_swiss_conditions_conditions_allow_list(q);
    lemma_swiss_conditions_conditions_play_your_games(q);
}

impl<'a> SwissConditions<'a> {
    /// The query pairs, in order.
    pub open spec fn pairs_view(self) -> crate::text::Pairs {
        crate::http::nat_pair("conditions.minRating.rating"@, crate::http::opt_u32(self.min_rating))
            + crate::http::nat_pair(
                  "conditions.maxRating.rating"@,
                  crate::http::opt_u32(self.max_rating),
              )
            + crate::http::nat_pair(
                  "conditions.nbRatedGame.nb"@,
                  crate::http::opt_u32(self.nb_rated_games),
              )
            + crate::http::str_pair("conditions.allowList"@, self.allow_list)
            + crate::http::bool_pair("conditions.playYourGames"@, self.play_your_games)
    }

    /// The query pairs.
    pub fn pairs(&self) -> (r: Vec<(String, String)>)
        ensures
            r.deep_view() == self.pairs_view(),
    {
        let mut out: Vec<(String, String)> = Vec::new();
        crate::http::push_opt_u32(&mut out, "conditions.minRating.rating", self.min_rating);
        crate::http::push_opt_u32(&mut out, "conditions.maxRating.rating", self.max_rating);
        crate::http::push_opt_u32(&mut out, "conditions.nbRatedGame.nb", self.nb_rated_games);
        crate::http::push_opt_str(&mut out, "conditions.allowList", self.allow_list);
        crate::http::push_opt_bool(&mut out, "conditions.playYourGames", self.play_your_games);
        assert(out.deep_view() =~= self.pairs_view());
        out
    }

    /// The query with every filter unset.
    pub open spec fn blank() -> Self {
        SwissConditions {
            min_rating: None,
            max_rating: None,
            nb_rated_games: None,
            allow_list: None,
            play_your_games: None,
        }
    }
}

impl<'a> Default for SwissConditions<'a> {
    /// Every filter unset.
    fn default() -> (r: Self)
        ensures
            r == Self::blank(),
    {
        SwissConditions {
            min_rating: None,
            max_rating: None,
            nb_rated_games: None,
            allow_list: None,
            play_your_games: None,
        }
    }
}

impl<'a> SwissConditions<'a> {

    /// Minimum rating to join.
    pub fn min_rating(self, rating: u32) -> (r: Self)
        ensures
            r == (SwissConditions { min_rating: Some(rating), ..self }),
    {
        let mut r = self;
        r.min_rating = Some(rating);
        r
    }

    /// Maximum rating to join.
    pub fn max_rating(self, rating: u32) -> (r: Self)
        ensures
            r == (SwissConditions { max_rating: Some(rating), ..self }),
    {
        let mut r = self;
        r.max_rating = Some(rating);
        r
    }

    /// Minimum number of rated games required to join.
    pub fn nb_rated_games(self, count: u32) -> (r: Self)
        ensures
            r == (SwissConditions { nb_rated_games: Some(count), ..self }),
    {
        let mut r = self;
        r.nb_rated_games = Some(count);
        r
    }

    /// Comma-separated usernames allowed to join (append `%titled` to also allow
    /// any titled player).
    pub fn allow_list(self, usernames: &'a str) -> (r: Self)
        ensures
            r == (SwissConditions { allow_list: Some(usernames), ..self }),
    {
        let mut r = self;
        r.allow_list = Some(usernames);
        r
    }

    /// Require players to have played their games (no repeated no-shows).
    pub fn play_your_games(self, value: bool) -> (r: Self)
        ensures
            r == (SwissConditions { play_your_games: Some(value), ..self }),
    {
        let mut r = self;
        r.play_your_games = Some(value);
        r
    }
}

/// Conditions left unset add no pair to the form.
pub proof fn lemma_unset_conditions_add_nothing()
    ensures
        SwissConditions::blank().pairs_view() == Seq::<(Seq<char>, Seq<char>)>::empty(),
{
    assert(SwissConditions::blank().pairs_view() =~= Seq::<(Seq<char>, Seq<char>)>::empty());
}

/// Accessor for the Swiss Tournaments API.
#[derive(Debug)]
pub struct SwissApi<'a> {
    client: &'a LichessClient,
}

/// A Swiss action is a `POST` to `/api/swiss/{id}/{action}` on the main host,
/// both segments encoded, with no query and no body.
pub proof fn lemma_swiss_action_path(id: &str, action: &str)
    ensures
        SwissApi::action_view(id, action).method == Method::Post,
        SwissApi::action_view(id, action).host == Host::Default,
        SwissApi::action_view(id, action).path == seq!['/', 'a', 'p', 'i', '/', 's', 'w', 'i', 's', 's', '/'] + crate::text::segment_text(id@) + seq!['/']
            + crate::text::segment_text(action@),
        SwissApi::action_view(id, action).query.len() == 0,
        SwissApi::action_view(id, action).body is Empty,
{
    assert("/api/swiss/"@ =~= seq!['/', 'a', 'p', 'i', '/', 's', 'w', 'i', 's', 's', '/']) by {
        reveal_strlit("/api/swiss/");
    }
    assert("/"@ =~= seq!['/']) by {
        reveal_strlit("/");
    }
    assert(""@ =~= seq![]) by {
        reveal_strlit("");
    }
    assert(SwissApi::action_view(id, action).path =~= seq!['/', 'a', 'p', 'i', '/', 's', 'w', 'i', 's', 's', '/'] + crate::text::segment_text(id@) + seq!['/']
        + crate::text::segment_text(action@));
}

impl<'a> SwissApi<'a> {
    /// The client the accessor is bound to.
    pub closed spec fn client_of(&self) -> &'a LichessClient {
        self.client
    }

    /// Binds the accessor to a client.
    pub fn new(client: &'a LichessClient) -> (r: Self)
        ensures
            r.client_of() == client,
    {
        SwissApi { client }
    }

    /// Gets a swiss tournament. `GET /api/swiss/{id}`
    pub fn get(&self, id: &str) -> (r: ApiRequest)
        ensures
            r@ == crate::http::bare(
                Method::Get,
                Host::Default,
                "/api/swiss/"@ + crate::text::segment_text(id@) + ""@,
            ),
    {
        let path = crate::http::path1("/api/swiss/", id, "");
        self.client.request(Method::Get, Host::Default, path)
    }

    /// Creates a swiss tournament for a team. `POST /api/swiss/new/{teamId}`
    pub fn create(&self, team_id: &'a str, clock_limit: u32, clock_increment: u32, nb_rounds: u32) -> (r:
        CreateSwissRequest<'a>)
        ensures
            r.client_of() == self.client_of(),
            r.target_id_of() == team_id,
            r.edit_of() == false,
            r.form_of() == CreateForm::with_required(clock_limit, clock_increment, nb_rounds),
            r.conditions_of() == SwissConditions::blank(),
    {
        CreateSwissRequest::new(
            self.client,
            team_id,
            false,
            clock_limit,
            clock_increment,
            nb_rounds,
        )
    }

    /// Updates a swiss tournament. `POST /api/swiss/{id}/edit`
    pub fn edit(&self, id: &'a str, clock_limit: u32, clock_increment: u32, nb_rounds: u32) -> (r:
        CreateSwissRequest<'a>)
        ensures
            r.client_of() == self.client_of(),
            r.target_id_of() == id,
            r.edit_of() == true,
            r.form_of() == CreateForm::with_required(clock_limit, clock_increment, nb_rounds),
            r.conditions_of() == SwissConditions::blank(),
    {
        CreateSwissRequest::new(self.client, id, true, clock_limit, clock_increment, nb_rounds)
    }

    /// Joins a swiss tournament. `POST /api/swiss/{id}/join`
    pub fn join(&self, id: &str) -> (r: ApiRequest)
        ensures
            r@ == Self::action_view(id, "join"),
    {
        self.post_action(id, "join")
    }

    /// Withdraws from a swiss tournament. `POST /api/swiss/{id}/withdraw`
    pub fn withdraw(&self, id: &str) -> (r: ApiRequest)
        ensures
            r@ == Self::action_view(id, "withdraw"),
    {
        self.post_action(id, "withdraw")
    }

    /// Terminates a swiss tournament. `POST /api/swiss/{id}/terminate`
    pub fn terminate(&self, id: &str) -> (r: ApiRequest)
        ensures
            r@ == Self::action_view(id, "terminate"),
    {
        self.post_action(id, "terminate")
    }

    /// Manually schedules the next round.
    /// `POST /api/swiss/{id}/schedule-next-round`; a `401` answer is mapped by
    /// [`map_unauthorized_edit`].
    pub fn schedule_next_round(&self, id: &str) -> (r: ApiRequest)
        ensures
            r@ == Self::action_view(id, "schedule-next-round"),
    {
        self.post_action(id, "schedule-next-round")
    }

    /// Downloads the tournament in TRF format. `GET /swiss/{id}.trf`
    pub fn trf(&self, id: &str) -> (r: ApiRequest)
        ensures
            r@ == crate::http::bare(
                Method::Get,
                Host::Default,
                "/swiss/"@ + crate::text::segment_text(id@) + ".trf"@,
            ),
    {
        let path = crate::http::path1("/swiss/", id, ".trf");
        self.client.request(Method::Get, Host::Default, path)
    }

    /// Streams a swiss tournament's results. `GET /api/swiss/{id}/results`
    pub fn results(&self, id: &str) -> (r: ApiRequest)
        ensures
            r@ == crate::http::bare(
                Method::Get,
                Host::Default,
                "/api/swiss/"@ + crate::text::segment_text(id@) + "/results"@,
            ),
    {
        let path = crate::http::path1("/api/swiss/", id, "/results");
        self.client.request(Method::Get, Host::Default, path)
    }

    /// Starts an export of a swiss tournament's games. `GET /api/swiss/{id}/games`
    ///
    /// Finish with [`stream`](SwissGamesRequest::stream) or
    /// [`pgn`](SwissGamesRequest::pgn).
    pub fn games(&self, id: &'a str) -> (r: SwissGamesRequest<'a>)
        ensures
            r.client_of() == self.client_of(),
            r.id_of() == id,
            r.player_of() is None,
            r.export_of() == GameExportOptions::blank(),
    {
        SwissGamesRequest::new(self.client, id)
    }

    /// The request of a no-argument `POST` action on a swiss tournament.
    pub open spec fn action_view(id: &str, action: &str) -> crate::http::ApiRequestView {
        crate::http::bare(
            Method::Post,
            Host::Default,
            "/api/swiss/"@
                + crate::text::segment_text(id@)
                + "/"@
                + crate::text::segment_text(action@)
                + ""@,
        )
    }

    /// Issues a no-argument `POST` action on a swiss tournament.
    pub fn post_action(&self, id: &str, action: &str) -> (r: ApiRequest)
        ensures
            r@ == Self::action_view(id, action),
    {
        let path = crate::http::path2("/api/swiss/", id, "/", action, "");
        self.client.request(Method::Post, Host::Default, path)
    }
}

/// Builder for creating or editing a swiss tournament.
#[derive(Debug)]
pub struct CreateSwissRequest<'a> {
    client: &'a LichessClient,
    target_id: &'a str,
    edit: bool,
    form: CreateForm<'a>,
    conditions: SwissConditions<'a>,
}

/// A Swiss edit is posted to `/api/swiss/{id}/edit` with the tournament's id;
/// a creation to `/api/swiss/new/{teamId}` under the team's id.
pub proof fn lemma_swiss_paths(target_id: &str)
    ensures
        CreateSwissRequest::path_view(target_id, true) == seq!['/', 'a', 'p', 'i', '/', 's', 'w', 'i', 's', 's', '/']
            + crate::text::segment_text(target_id@) + seq!['/', 'e', 'd', 'i', 't'],
        CreateSwissRequest::path_view(target_id, false) == seq!['/', 'a', 'p', 'i', '/', 's', 'w', 'i', 's', 's', '/', 'n', 'e', 'w', '/']
            + crate::text::segment_text(target_id@),
{
    reveal_strlit("/api/swiss/");
    reveal_strlit("/edit");
    reveal_strlit("/api/swiss/new/");
    reveal_strlit("");
    assert("/api/swiss/"@ =~= seq!['/', 'a', 'p', 'i', '/', 's', 'w', 'i', 's', 's', '/']);
    assert("/edit"@ =~= seq!['/', 'e', 'd', 'i', 't']);
    assert("/api/swiss/new/"@ =~= seq!['/', 'a', 'p', 'i', '/', 's', 'w', 'i', 's', 's', '/', 'n', 'e', 'w', '/']);
    assert("/api/swiss/new/"@ + crate::text::segment_text(target_id@) + ""@ =~= "/api/swiss/new/"@
        + crate::text::segment_text(target_id@));
}

impl<'a> CreateSwissRequest<'a> {
    /// The client the builder is bound to.
    pub closed spec fn client_of(&self) -> &'a LichessClient {
        self.client
    }

    /// Team id for creation, or tournament id when editing.
    pub closed spec fn target_id_of(&self) -> &'a str {
        self.target_id
    }

    /// Whether this edits an existing tournament.
    pub closed spec fn edit_of(&self) -> bool {
        self.edit
    }

    /// The form built so far.
    pub closed spec fn form_of(&self) -> CreateForm<'a> {
        self.form
    }

    /// The entry conditions.
    pub closed spec fn conditions_of(&self) -> SwissConditions<'a> {
        self.conditions
    }

    /// Creates the request builder.
    pub fn new(client: &'a LichessClient, target_id: &'a str, edit: bool, clock_limit: u32, clock_increment: u32, nb_rounds: u32) -> (r: Self)
        ensures
            r.client_of() == client,
            r.target_id_of() == target_id,
            r.edit_of() == edit,
            r.form_of() == CreateForm::with_required(clock_limit, clock_increment, nb_rounds),
            r.conditions_of() == SwissConditions::blank(),
    {
        CreateSwissRequest {
            client,
            target_id,
            edit,
            form: CreateForm {
                clock_limit,
                clock_increment,
                nb_rounds,
                name: None,
                rated: None,
                round_interval: None,
                starts_at: None,
                variant: None,
                position: None,
                description: None,
                password: None,
                forbidden_pairings: None,
                manual_pairings: None,
                chat_for: None,
            },
            conditions: SwissConditions::default(),
        }
    }

    /// Sets the tournament name.
    pub fn name(self, name: &'a str) -> (r: Self)
        ensures
            r.form_of() == (CreateForm { name: Some(name), ..self.form_of() }),
            r.client_of() == self.client_of(),
            r.target_id_of() == self.target_id_of(),
            r.edit_of() == self.edit_of(),
            r.conditions_of() == self.conditions_of(),
    {
        let mut r = self;
        r.form.name = Some(name);
        r
    }

    /// Sets whether the tournament is rated.
    pub fn rated(self, rated: bool) -> (r: Self)
        ensures
            r.form_of() == (CreateForm { rated: Some(rated), ..self.form_of() }),
            r.client_of() == self.client_of(),
            r.target_id_of() == self.target_id_of(),
            r.edit_of() == self.edit_of(),
            r.conditions_of() == self.conditions_of(),
    {
        let mut r = self;
        r.form.rated = Some(rated);
        r
    }

    /// Sets the interval between rounds, in seconds.
    pub fn round_interval(self, seconds: u32) -> (r: Self)
        ensures
            r.form_of() == (CreateForm { round_interval: Some(seconds), ..self.form_of() }),
            r.client_of() == self.client_of(),
            r.target_id_of() == self.target_id_of(),
            r.edit_of() == self.edit_of(),
            r.conditions_of() == self.conditions_of(),
    {
        let mut r = self;
        r.form.round_interval = Some(seconds);
        r
    }

    /// Sets the start time (Unix milliseconds).
    pub fn starts_at(self, timestamp: i64) -> (r: Self)
        ensures
            r.form_of() == (CreateForm { starts_at: Some(timestamp), ..self.form_of() }),
            r.client_of() == self.client_of(),
            r.target_id_of() == self.target_id_of(),
            r.edit_of() == self.edit_of(),
            r.conditions_of() == self.conditions_of(),
    {
        let mut r = self;
        r.form.starts_at = Some(timestamp);
        r
    }

    /// Sets the variant.
    pub fn variant(self, variant: LichessVariantKey) -> (r: Self)
        ensures
            r.form_of() == (CreateForm { variant: Some(variant), ..self.form_of() }),
            r.client_of() == self.client_of(),
            r.target_id_of() == self.target_id_of(),
            r.edit_of() == self.edit_of(),
            r.conditions_of() == self.conditions_of(),
    {
        let mut r = self;
        r.form.variant = Some(variant);
        r
    }

    /// Sets a custom starting position (FEN).
    pub fn position(self, fen: &'a str) -> (r: Self)
        ensures
            r.form_of() == (CreateForm { position: Some(fen), ..self.form_of() }),
            r.client_of() == self.client_of(),
            r.target_id_of() == self.target_id_of(),
            r.edit_of() == self.edit_of(),
            r.conditions_of() == self.conditions_of(),
    {
        let mut r = self;
        r.form.position = Some(fen);
        r
    }

    /// Sets the tournament description.
    pub fn description(self, description: &'a str) -> (r: Self)
        ensures
            r.form_of() == (CreateForm { description: Some(description), ..self.form_of() }),
            r.client_of() == self.client_of(),
            r.target_id_of() == self.target_id_of(),
            r.edit_of() == self.edit_of(),
            r.conditions_of() == self.conditions_of(),
    {
        let mut r = self;
        r.form.description = Some(description);
        r
    }

    /// Makes the tournament private, restricted by this password.
    pub fn password(self, password: &'a str) -> (r: Self)
        ensures
            r.form_of() == (CreateForm { password: Some(password), ..self.form_of() }),
            r.client_of() == self.client_of(),
            r.target_id_of() == self.target_id_of(),
            r.edit_of() == self.edit_of(),
            r.conditions_of() == self.conditions_of(),
    {
        let mut r = self;
        r.form.password = Some(password);
        r
    }

    /// Sets pairings that must not happen (one pair per line).
    pub fn forbidden_pairings(self, pairings: &'a str) -> (r: Self)
        ensures
            r.form_of() == (CreateForm { forbidden_pairings: Some(pairings), ..self.form_of() }),
            r.client_of() == self.client_of(),
            r.target_id_of() == self.target_id_of(),
            r.edit_of() == self.edit_of(),
            r.conditions_of() == self.conditions_of(),
    {
        let mut r = self;
        r.form.forbidden_pairings = Some(pairings);
        r
    }

    /// Sets the next round's pairings by hand (one pair per line).
    pub fn manual_pairings(self, pairings: &'a str) -> (r: Self)
        ensures
            r.form_of() == (CreateForm { manual_pairings: Some(pairings), ..self.form_of() }),
            r.client_of() == self.client_of(),
            r.target_id_of() == self.target_id_of(),
            r.edit_of() == self.edit_of(),
            r.conditions_of() == self.conditions_of(),
    {
        let mut r = self;
        r.form.manual_pairings = Some(pairings);
        r
    }

    /// Sets who may use the chat.
    pub fn chat_for(self, chat_for: u32) -> (r: Self)
        ensures
            r.form_of() == (CreateForm { chat_for: Some(chat_for), ..self.form_of() }),
            r.client_of() == self.client_of(),
            r.target_id_of() == self.target_id_of(),
            r.edit_of() == self.edit_of(),
            r.conditions_of() == self.conditions_of(),
    {
        let mut r = self;
        r.form.chat_for = Some(chat_for);
        r
    }

    /// Sets the entry conditions.
    pub fn conditions(self, conditions: SwissConditions<'a>) -> (r: Self)
        ensures
            r.conditions_of() == conditions,
            r.client_of() == self.client_of(),
            r.target_id_of() == self.target_id_of(),
            r.edit_of() == self.edit_of(),
            r.form_of() == self.form_of(),
    {
        let mut r = self;
        r.conditions = conditions;
        r
    }

    /// Whether the request edits an existing tournament; a `401` answer to an
    /// edit is mapped by [`map_unauthorized_edit`].
    pub fn is_edit(&self) -> (r: bool)
        ensures
            r == self.edit_of(),
    {
        self.edit
    }

    /// The create or edit path for a target.
    pub open spec fn path_view(target_id: &str, edit: bool) -> Seq<char> {
        if edit {
            "/api/swiss/"@ + crate::text::segment_text(target_id@) + "/edit"@
        } else {
            "/api/swiss/new/"@ + crate::text::segment_text(target_id@) + ""@
        }
    }

    /// The create or edit path for this request.
    pub fn path(&self) -> (r: String)
        ensures
            r@ == Self::path_view(self.target_id_of(), self.edit_of()),
    {
        if self.edit {
            crate::http::path1("/api/swiss/", self.target_id, "/edit")
        } else {
            crate::http::path1("/api/swiss/new/", self.target_id, "")
        }
    }

    /// Creates or updates the tournament; the form holds the flat fields and
    /// then the conditions.
    pub fn send(self) -> (r: ApiRequest)
        ensures
            r@ == crate::http::bare(
                Method::Post,
                Host::Default,
                Self::path_view(self.target_id_of(), self.edit_of()),
            ).with_body(
                crate::http::BodyView::Form(
                    self.form_of().pairs_view() + self.conditions_of().pairs_view(),
                ),
            ),
    {
        let path = self.path();
        let mut form = self.form.pairs();
        let mut conditions = self.conditions.pairs();
        let ghost f = form.deep_view();
        form.append(&mut conditions);
        assert(form.deep_view() =~= f + self.conditions_of().pairs_view());
        self.client.request(Method::Post, Host::Default, path).form(form)
    }
}

/// Builder for exporting a swiss tournament's games
/// (`GET /api/swiss/{id}/games`).
#[derive(Debug)]
pub struct SwissGamesRequest<'a> {
    client: &'a LichessClient,
    id: &'a str,
    player: Option<&'a str>,
    export: GameExportOptions,
}

impl<'a> SwissGamesRequest<'a> {
    /// The client the builder is bound to.
    pub closed spec fn client_of(&self) -> &'a LichessClient {
        self.client
    }

    /// The tournament id.
    pub closed spec fn id_of(&self) -> &'a str {
        self.id
    }

    /// The player filter.
    pub closed spec fn player_of(&self) -> Option<&'a str> {
        self.player
    }

    /// The export-format options.
    pub closed spec fn export_of(&self) -> GameExportOptions {
        self.export
    }

    /// Creates the request builder.
    pub fn new(client: &'a LichessClient, id: &'a str) -> (r: Self)
        ensures
            r.client_of() == client,
            r.id_of() == id,
            r.player_of() == None::<&'a str>,
            r.export_of() == GameExportOptions::blank(),
    {
        SwissGamesRequest { client, id, player: None, export: GameExportOptions::default() }
    }

    /// Only games featuring this player.
    pub fn player(self, player: &'a str) -> (r: Self)
        ensures
            r.player_of() == Some(player),
            r.client_of() == self.client_of(),
            r.id_of() == self.id_of(),
            r.export_of() == self.export_of(),
    {
        let mut r = self;
        r.player = Some(player);
        r
    }

    /// Sets the shared export-format options (moves, clocks, evals, …).
    pub fn export(self, options: GameExportOptions) -> (r: Self)
        ensures
            r.export_of() == options,
            r.client_of() == self.client_of(),
            r.id_of() == self.id_of(),
            r.player_of() == self.player_of(),
    {
        let mut r = self;
        r.export = options;
        r
    }

    /// Executes the export, streaming games as NDJSON.
    pub fn stream(self) -> (r: ApiRequest)
        ensures
            r@ == crate::http::bare(
                Method::Get,
                Host::Default,
                "/api/swiss/"@ + crate::text::segment_text(self.id_of()@) + "/games"@,
            ).with_accept(Accept::Ndjson).with_query(crate::http::str_pair("player"@, self.player_of())).with_query(
                self.export_of().pairs_view(),
            ),
    {
        let path = crate::http::path1("/api/swiss/", self.id, "/games");
        let mut q: Vec<(String, String)> = Vec::new();
        crate::http::push_opt_str(&mut q, "player", self.player);
        self.client.request(Method::Get, Host::Default, path)
            .accept(Accept::Ndjson)
            .query(q)
            .query(self.export.pairs())
    }

    /// Executes the export, returning all games as one PGN string.
    pub fn pgn(self) -> (r: ApiRequest)
        ensures
            r@ == crate::http::bare(
                Method::Get,
                Host::Default,
                "/api/swiss/"@ + crate::text::segment_text(self.id_of()@) + "/games"@,
            ).with_accept(Accept::Pgn).with_query(crate::http::str_pair("player"@, self.player_of())).with_query(
                self.export_of().pairs_view(),
            ),
    {
        let path = crate::http::path1("/api/swiss/", self.id, "/games");
        let mut q: Vec<(String, String)> = Vec::new();
        crate::http::push_opt_str(&mut q, "player", self.player);
        self.client.request(Method::Get, Host::Default, path)
            .accept(Accept::Pgn)
            .query(q)
            .query(self.export.pairs())
    }
}

impl LichessClient {
    /// Swiss Tournaments API.
    pub fn swiss(&self) -> (r: SwissApi<'_>)
        ensures
            r.client_of() == self,
    {
        SwissApi::new(self)
    }
}

} // verus!
