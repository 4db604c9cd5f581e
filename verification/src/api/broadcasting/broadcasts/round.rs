//! Round creation/edit builder, its form types, and custom scoring.

use vstd::prelude::*;

use crate::client::LichessClient;
use crate::config::Host;
use crate::http::{ApiRequest, Method};
use crate::text::Pairs;

verus! {

/// Form body for creating/editing a broadcast round.
#[derive(Debug, Clone)]
pub struct RoundForm<'a> {
    /// The round name.
    pub name: &'a str,
    /// A source URL to sync games from.
    pub sync_url: Option<&'a str>,
    /// Several source URLs (newline-separated).
    pub sync_urls: Option<&'a str>,
    /// Lichess game ids to sync.
    pub sync_ids: Option<&'a str>,
    /// Lichess usernames to sync.
    pub sync_users: Option<&'a str>,
    /// The PGN `Round` tag to import.
    pub only_round: Option<u32>,
    /// A slice expression selecting games.
    pub slices: Option<&'a str>,
    /// The sync source.
    pub sync_source: Option<&'a str>,
    /// The start time (Unix milliseconds).
    pub starts_at: Option<i64>,
    /// Start after the previous round.
    pub starts_after_previous: Option<bool>,
    /// The broadcast delay, in seconds.
    pub delay: Option<u32>,
    /// The polling period, in seconds.
    pub period: Option<u32>,
    /// The round status.
    pub status: Option<&'a str>,
    /// Whether the games are rated.
    pub rated: Option<bool>,
}

/// The pairs of [`RoundForm`] carry its field under `name`.
proof fn lemma_round_form_name(q: RoundForm)
    ensures
        crate::text::carries(q.pairs_view(), "name"@, Some(q.name@)),
{
    reveal_strlit("delay");
    reveal_strlit("name");
    reveal_strlit("onlyRound");
    reveal_strlit("period");
    reveal_strlit("rated");
    reveal_strlit("slices");
    reveal_strlit("startsAfterPrevious");
    reveal_strlit("startsAt");
    reveal_strlit("status");
    reveal_strlit("syncIds");
    reveal_strlit("syncSource");
    reveal_strlit("syncUrl");
    reveal_strlit("syncUrls");
    reveal_strlit("syncUsers");
    assert("name"@.len() != "delay"@.len());
    assert("name"@.len() != "onlyRound"@.len());
    assert("name"@.len() != "period"@.len());
    assert("name"@.len() != "rated"@.len());
    assert("name"@.len() != "slices"@.len());
    assert("name"@.len() != "startsAfterPrevious"@.len());
    assert("name"@.len() != "startsAt"@.len());
    assert("name"@.len() != "status"@.len());
    assert("name"@.len() != "syncIds"@.len());
    assert("name"@.len() != "syncSource"@.len());
    assert("name"@.len() != "syncUrl"@.len());
    assert("name"@.len() != "syncUrls"@.len());
    assert("name"@.len() != "syncUsers"@.len());
    let p0 = seq![("name"@, q.name@)];
    let p1 = crate::http::str_pair("syncUrl"@, q.sync_url);
    let p2 = crate::http::str_pair("syncUrls"@, q.sync_urls);
    let p3 = crate::http::str_pair("syncIds"@, q.sync_ids);
    let p4 = crate::http::str_pair("syncUsers"@, q.sync_users);
    let p5 = crate::http::nat_pair("onlyRound"@, crate::http::opt_u32(q.only_round));
    let p6 = crate::http::str_pair("slices"@, q.slices);
    let p7 = crate::http::str_pair("syncSource"@, q.sync_source);
    let p8 = crate::http::int_pair("startsAt"@, crate::http::opt_i64(q.starts_at));
    let p9 = crate::http::bool_pair("startsAfterPrevious"@, q.starts_after_previous);
    let p10 = crate::http::nat_pair("delay"@, crate::http::opt_u32(q.delay));
    let p11 = crate::http::nat_pair("period"@, crate::http::opt_u32(q.period));
    let p12 = crate::http::str_pair("status"@, q.status);
    let p13 = crate::http::bool_pair("rated"@, q.rated);
    let s0 = p0;
    let s1 = s0 + p1;
    let s2 = s1 + p2;
    let s3 = s2 + p3;
    let s4 = s3 + p4;
    let s5 = s4 + p5;
    let s6 = s5 + p6;
    let s7 = s6 + p7;
    let s8 = s7 + p8;
    let s9 = s8 + p9;
    let s10 = s9 + p10;
    let s11 = s10 + p11;
    let s12 = s11 + p12;
    let s13 = s12 + p13;
    assert(q.pairs_view() == s13);
    let v = Some(q.name@);
    assert(p0 == crate::text::one_pair("name"@, v));
    crate::text::lemma_one_pair_carries("name"@, v);
    crate::text::lemma_extend(s0, p1, "name"@, v, false);
    crate::text::lemma_extend(s1, p2, "name"@, v, false);
    crate::text::lemma_extend(s2, p3, "name"@, v, false);
    crate::text::lemma_extend(s3, p4, "name"@, v, false);
    crate::text::lemma_extend(s4, p5, "name"@, v, false);
    crate::text::lemma_extend(s5, p6, "name"@, v, false);
    crate::text::lemma_extend(s6, p7, "name"@, v, false);
    crate::text::lemma_extend(s7, p8, "name"@, v, false);
    crate::text::lemma_extend(s8, p9, "name"@, v, false);
    crate::text::lemma_extend(s9, p10, "name"@, v, false);
    crate::text::lemma_extend(s10, p11, "name"@, v, false);
    crate::text::lemma_extend(s11, p12, "name"@, v, false);
    crate::text::lemma_extend(s12, p13, "name"@, v, false);
}

/// The pairs of [`RoundForm`] carry its field under `syncUrl`.
proof fn lemma_round_form_sync_url(q: RoundForm)
    ensures
        crate::text::carries(q.pairs_view(), "syncUrl"@, match q.sync_url { Some(v) => Some(v@), None => None }),
{
    reveal_strlit("delay");
    reveal_strlit("name");
    reveal_strlit("onlyRound");
    reveal_strlit("period");
    reveal_strlit("rated");
    reveal_strlit("slices");
    reveal_strlit("startsAfterPrevious");
    reveal_strlit("startsAt");
    reveal_strlit("status");
    reveal_strlit("syncIds");
    reveal_strlit("syncSource");
    reveal_strlit("syncUrl");
    reveal_strlit("syncUrls");
    reveal_strlit("syncUsers");
    assert("syncUrl"@.len() != "delay"@.len());
    assert("syncUrl"@.len() != "name"@.len());
    assert("syncUrl"@.len() != "onlyRound"@.len());
    assert("syncUrl"@.len() != "period"@.len());
    assert("syncUrl"@.len() != "rated"@.len());
    assert("syncUrl"@.len() != "slices"@.len());
    assert("syncUrl"@.len() != "startsAfterPrevious"@.len());
    assert("syncUrl"@.len() != "startsAt"@.len());
    assert("syncUrl"@.len() != "status"@.len());
    assert("syncUrl"@[4] != "syncIds"@[4]);
    assert("syncUrl"@.len() != "syncSource"@.len());
    assert("syncUrl"@.len() != "syncUrls"@.len());
    assert("syncUrl"@.len() != "syncUsers"@.len());
    let p0 = seq![("name"@, q.name@)];
    let p1 = crate::http::str_pair("syncUrl"@, q.sync_url);
    let p2 = crate::http::str_pair("syncUrls"@, q.sync_urls);
    let p3 = crate::http::str_pair("syncIds"@, q.sync_ids);
    let p4 = crate::http::str_pair("syncUsers"@, q.sync_users);
    let p5 = crate::http::nat_pair("onlyRound"@, crate::http::opt_u32(q.only_round));
    let p6 = crate::http::str_pair("slices"@, q.slices);
    let p7 = crate::http::str_pair("syncSource"@, q.sync_source);
    let p8 = crate::http::int_pair("startsAt"@, crate::http::opt_i64(q.starts_at));
    let p9 = crate::http::bool_pair("startsAfterPrevious"@, q.starts_after_previous);
    let p10 = crate::http::nat_pair("delay"@, crate::http::opt_u32(q.delay));
    let p11 = crate::http::nat_pair("period"@, crate::http::opt_u32(q.period));
    let p12 = crate::http::str_pair("status"@, q.status);
    let p13 = crate::http::bool_pair("rated"@, q.rated);
    let s0 = p0;
    let s1 = s0 + p1;
    let s2 = s1 + p2;
    let s3 = s2 + p3;
    let s4 = s3 + p4;
    let s5 = s4 + p5;
    let s6 = s5 + p6;
    let s7 = s6 + p7;
    let s8 = s7 + p8;
    let s9 = s8 + p9;
    let s10 = s9 + p10;
    let s11 = s10 + p11;
    let s12 = s11 + p12;
    let s13 = s12 + p13;
    assert(q.pairs_view() == s13);
    let v = match q.sync_url { Some(v) => Some(v@), None => None };
    crate::text::lemma_extend(s0, p1, "syncUrl"@, v, true);
    crate::text::lemma_extend(s1, p2, "syncUrl"@, v, false);
    crate::text::lemma_extend(s2, p3, "syncUrl"@, v, false);
    crate::text::lemma_extend(s3, p4, "syncUrl"@, v, false);
    crate::text::lemma_extend(s4, p5, "syncUrl"@, v, false);
    crate::text::lemma_extend(s5, p6, "syncUrl"@, v, false);
    crate::text::lemma_extend(s6, p7, "syncUrl"@, v, false);
    crate::text::lemma_extend(s7, p8, "syncUrl"@, v, false);
    crate::text::lemma_extend(s8, p9, "syncUrl"@, v, false);
    crate::text::lemma_extend(s9, p10, "syncUrl"@, v, false);
    crate::text::lemma_extend(s10, p11, "syncUrl"@, v, false);
    crate::text::lemma_extend(s11, p12, "syncUrl"@, v, false);
    crate::text::lemma_extend(s12, p13, "syncUrl"@, v, false);
}

/// The pairs of [`RoundForm`] carry its field under `syncUrls`.
proof fn lemma_round_form_sync_urls(q: RoundForm)
    ensures
        crate::text::carries(q.pairs_view(), "syncUrls"@, match q.sync_urls { Some(v) => Some(v@), None => None }),
{
    reveal_strlit("delay");
    reveal_strlit("name");
    reveal_strlit("onlyRound");
    reveal_strlit("period");
    reveal_strlit("rated");
    reveal_strlit("slices");
    reveal_strlit("startsAfterPrevious");
    reveal_strlit("startsAt");
    reveal_strlit("status");
    reveal_strlit("syncIds");
    reveal_strlit("syncSource");
    reveal_strlit("syncUrl");
    reveal_strlit("syncUrls");
    reveal_strlit("syncUsers");
    assert("syncUrls"@.len() != "delay"@.len());
    assert("syncUrls"@.len() != "name"@.len());
    assert("syncUrls"@.len() != "onlyRound"@.len());
    assert("syncUrls"@.len() != "period"@.len());
    assert("syncUrls"@.len() != "rated"@.len());
    assert("syncUrls"@.len() != "slices"@.len());
    assert("syncUrls"@.len() != "startsAfterPrevious"@.len());
    assert("syncUrls"@[1] != "startsAt"@[1]);
    assert("syncUrls"@.len() != "status"@.len());
    assert("syncUrls"@.len() != "syncIds"@.len());
    assert("syncUrls"@.len() != "syncSource"@.len());
    assert("syncUrls"@.len() != "syncUrl"@.len());
    assert("syncUrls"@.len() != "syncUsers"@.len());
    let p0 = seq![("name"@, q.name@)];
    let p1 = crate::http::str_pair("syncUrl"@, q.sync_url);
    let p2 = crate::http::str_pair("syncUrls"@, q.sync_urls);
    let p3 = crate::http::str_pair("syncIds"@, q.sync_ids);
    let p4 = crate::http::str_pair("syncUsers"@, q.sync_users);
    let p5 = crate::http::nat_pair("onlyRound"@, crate::http::opt_u32(q.only_round));
    let p6 = crate::http::str_pair("slices"@, q.slices);
    let p7 = crate::http::str_pair("syncSource"@, q.sync_source);
    let p8 = crate::http::int_pair("startsAt"@, crate::http::opt_i64(q.starts_at));
    let p9 = crate::http::bool_pair("startsAfterPrevious"@, q.starts_after_previous);
    let p10 = crate::http::nat_pair("delay"@, crate::http::opt_u32(q.delay));
    let p11 = crate::http::nat_pair("period"@, crate::http::opt_u32(q.period));
    let p12 = crate::http::str_pair("status"@, q.status);
    let p13 = crate::http::bool_pair("rated"@, q.rated);
    let s0 = p0;
    let s1 = s0 + p1;
    let s2 = s1 + p2;
    let s3 = s2 + p3;
    let s4 = s3 + p4;
    let s5 = s4 + p5;
    let s6 = s5 + p6;
    let s7 = s6 + p7;
    let s8 = s7 + p8;
    let s9 = s8 + p9;
    let s10 = s9 + p10;
    let s11 = s10 + p11;
    let s12 = s11 + p12;
    let s13 = s12 + p13;
    assert(q.pairs_view() == s13);
    let v = match q.sync_urls { Some(v) => Some(v@), None => None };
    crate::text::lemma_extend(s0, p1, "syncUrls"@, None, false);
    crate::text::lemma_extend(s1, p2, "syncUrls"@, v, true);
    crate::text::lemma_extend(s2, p3, "syncUrls"@, v, false);
    crate::text::lemma_extend(s3, p4, "syncUrls"@, v, false);
    crate::text::lemma_extend(s4, p5, "syncUrls"@, v, false);
    crate::text::lemma_extend(s5, p6, "syncUrls"@, v, false);
    crate::text::lemma_extend(s6, p7, "syncUrls"@, v, false);
    crate::text::lemma_extend(s7, p8, "syncUrls"@, v, false);
    crate::text::lemma_extend(s8, p9, "syncUrls"@, v, false);
    crate::text::lemma_extend(s9, p10, "syncUrls"@, v, false);
    crate::text::lemma_extend(s10, p11, "syncUrls"@, v, false);
    crate::text::lemma_extend(s11, p12, "syncUrls"@, v, false);
    crate::text::lemma_extend(s12, p13, "syncUrls"@, v, false);
}

/// The pairs of [`RoundForm`] carry its field under `syncIds`.
proof fn lemma_round_form_sync_ids(q: RoundForm)
    ensures
        crate::text::carries(q.pairs_view(), "syncIds"@, match q.sync_ids { Some(v) => Some(v@), None => None }),
{
    reveal_strlit("delay");
    reveal_strlit("name");
    reveal_strlit("onlyRound");
    reveal_strlit("period");
    reveal_strlit("rated");
    reveal_strlit("slices");
    reveal_strlit("startsAfterPrevious");
    reveal_strlit("startsAt");
    reveal_strlit("status");
    reveal_strlit("syncIds");
    reveal_strlit("syncSource");
    reveal_strlit("syncUrl");
    reveal_strlit("syncUrls");
    reveal_strlit("syncUsers");
    assert("syncIds"@.len() != "delay"@.len());
    assert("syncIds"@.len() != "name"@.len());
    assert("syncIds"@.len() != "onlyRound"@.len());
    assert("syncIds"@.len() != "period"@.len());
    assert("syncIds"@.len() != "rated"@.len());
    assert("syncIds"@.len() != "slices"@.len());
    assert("syncIds"@.len() != "startsAfterPrevious"@.len());
    assert("syncIds"@.len() != "startsAt"@.len());
    assert("syncIds"@.len() != "status"@.len());
    assert("syncIds"@.len() != "syncSource"@.len());
    assert("syncIds"@[4] != "syncUrl"@[4]);
    assert("syncIds"@.len() != "syncUrls"@.len());
    assert("syncIds"@.len() != "syncUsers"@.len());
    let p0 = seq![("name"@, q.name@)];
    let p1 = crate::http::str_pair("syncUrl"@, q.sync_url);
    let p2 = crate::http::str_pair("syncUrls"@, q.sync_urls);
    let p3 = crate::http::str_pair("syncIds"@, q.sync_ids);
    let p4 = crate::http::str_pair("syncUsers"@, q.sync_users);
    let p5 = crate::http::nat_pair("onlyRound"@, crate::http::opt_u32(q.only_round));
    let p6 = crate::http::str_pair("slices"@, q.slices);
    let p7 = crate::http::str_pair("syncSource"@, q.sync_source);
    let p8 = crate::http::int_pair("startsAt"@, crate::http::opt_i64(q.starts_at));
    let p9 = crate::http::bool_pair("startsAfterPrevious"@, q.starts_after_previous);
    let p10 = crate::http::nat_pair("delay"@, crate::http::opt_u32(q.delay));
    let p11 = crate::http::nat_pair("period"@, crate::http::opt_u32(q.period));
    let p12 = crate::http::str_pair("status"@, q.status);
    let p13 = crate::http::bool_pair("rated"@, q.rated);
    let s0 = p0;
    let s1 = s0 + p1;
    let s2 = s1 + p2;
    let s3 = s2 + p3;
    let s4 = s3 + p4;
    let s5 = s4 + p5;
    let s6 = s5 + p6;
    let s7 = s6 + p7;
    let s8 = s7 + p8;
    let s9 = s8 + p9;
    let s10 = s9 + p10;
    let s11 = s10 + p11;
    let s12 = s11 + p12;
    let s13 = s12 + p13;
    assert(q.pairs_view() == s13);
    let v = match q.sync_ids { Some(v) => Some(v@), None => None };
    crate::text::lemma_extend(s0, p1, "syncIds"@, None, false);
    crate::text::lemma_extend(s1, p2, "syncIds"@, None, false);
    crate::text::lemma_extend(s2, p3, "syncIds"@, v, true);
    crate::text::lemma_extend(s3, p4, "syncIds"@, v, false);
    crate::text::lemma_extend(s4, p5, "syncIds"@, v, false);
    crate::text::lemma_extend(s5, p6, "syncIds"@, v, false);
    crate::text::lemma_extend(s6, p7, "syncIds"@, v, false);
    crate::text::lemma_extend(s7, p8, "syncIds"@, v, false);
    crate::text::lemma_extend(s8, p9, "syncIds"@, v, false);
    crate::text::lemma_extend(s9, p10, "syncIds"@, v, false);
    crate::text::lemma_extend(s10, p11, "syncIds"@, v, false);
    crate::text::lemma_extend(s11, p12, "syncIds"@, v, false);
    crate::text::lemma_extend(s12, p13, "syncIds"@, v, false);
}

/// The pairs of [`RoundForm`] carry its field under `syncUsers`.
proof fn lemma_round_form_sync_users(q: RoundForm)
    ensures
        crate::text::carries(q.pairs_view(), "syncUsers"@, match q.sync_users { Some(v) => Some(v@), None => None }),
{
    reveal_strlit("delay");
    reveal_strlit("name");
    reveal_strlit("onlyRound");
    reveal_strlit("period");
    reveal_strlit("rated");
    reveal_strlit("slices");
    reveal_strlit("startsAfterPrevious");
    reveal_strlit("startsAt");
    reveal_strlit("status");
    reveal_strlit("syncIds");
    reveal_strlit("syncSource");
    reveal_strlit("syncUrl");
    reveal_strlit("syncUrls");
    reveal_strlit("syncUsers");
    assert("syncUsers"@.len() != "delay"@.len());
    assert("syncUsers"@.len() != "name"@.len());
    assert("syncUsers"@[0] != "onlyRound"@[0]);
    assert("syncUsers"@.len() != "period"@.len());
    assert("syncUsers"@.len() != "rated"@.len());
    assert("syncUsers"@.len() != "slices"@.len());
    assert("syncUsers"@.len() != "startsAfterPrevious"@.len());
    assert("syncUsers"@.len() != "startsAt"@.len());
    assert("syncUsers"@.len() != "status"@.len());
    assert("syncUsers"@.len() != "syncIds"@.len());
    assert("syncUsers"@.len() != "syncSource"@.len());
    assert("syncUsers"@.len() != "syncUrl"@.len());
    assert("syncUsers"@.len() != "syncUrls"@.len());
    let p0 = seq![("name"@, q.name@)];
    let p1 = crate::http::str_pair("syncUrl"@, q.sync_url);
    let p2 = crate::http::str_pair("syncUrls"@, q.sync_urls);
    let p3 = crate::http::str_pair("syncIds"@, q.sync_ids);
    let p4 = crate::http::str_pair("syncUsers"@, q.sync_users);
    let p5 = crate::http::nat_pair("onlyRound"@, crate::http::opt_u32(q.only_round));
    let p6 = crate::http::str_pair("slices"@, q.slices);
    let p7 = crate::http::str_pair("syncSource"@, q.sync_source);
    let p8 = crate::http::int_pair("startsAt"@, crate::http::opt_i64(q.starts_at));
    let p9 = crate::http::bool_pair("startsAfterPrevious"@, q.starts_after_previous);
    let p10 = crate::http::nat_pair("delay"@, crate::http::opt_u32(q.delay));
    let p11 = crate::http::nat_pair("period"@, crate::http::opt_u32(q.period));
    let p12 = crate::http::str_pair("status"@, q.status);
    let p13 = crate::http::bool_pair("rated"@, q.rated);
    let s0 = p0;
    let s1 = s0 + p1;
    let s2 = s1 + p2;
    let s3 = s2 + p3;
    let s4 = s3 + p4;
    let s5 = s4 + p5;
    let s6 = s5 + p6;
    let s7 = s6 + p7;
    let s8 = s7 + p8;
    let s9 = s8 + p9;
    let s10 = s9 + p10;
    let s11 = s10 + p11;
    let s12 = s11 + p12;
    let s13 = s12 + p13;
    assert(q.pairs_view() == s13);
    let v = match q.sync_users { Some(v) => Some(v@), None => None };
    crate::text::lemma_extend(s0, p1, "syncUsers"@, None, false);
    crate::text::lemma_extend(s1, p2, "syncUsers"@, None, false);
    crate::text::lemma_extend(s2, p3, "syncUsers"@, None, false);
    crate::text::lemma_extend(s3, p4, "syncUsers"@, v, true);
    crate::text::lemma_extend(s4, p5, "syncUsers"@, v, false);
    crate::text::lemma_extend(s5, p6, "syncUsers"@, v, false);
    crate::text::lemma_extend(s6, p7, "syncUsers"@, v, false);
    crate::text::lemma_extend(s7, p8, "syncUsers"@, v, false);
    crate::text::lemma_extend(s8, p9, "syncUsers"@, v, false);
    crate::text::lemma_extend(s9, p10, "syncUsers"@, v, false);
    crate::text::lemma_extend(s10, p11, "syncUsers"@, v, false);
    crate::text::lemma_extend(s11, p12, "syncUsers"@, v, false);
    crate::text::lemma_extend(s12, p13, "syncUsers"@, v, false);
}

/// The pairs of [`RoundForm`] carry its field under `onlyRound`.
proof fn lemma_round_form_only_round(q: RoundForm)
    ensures
        crate::text::carries(q.pairs_view(), "onlyRound"@, match q.only_round { Some(x) => Some(crate::text::dec_nat(x as nat)), None => None }),
{
    reveal_strlit("delay");
    reveal_strlit("name");
    reveal_strlit("onlyRound");
    reveal_strlit("period");
    reveal_strlit("rated");
    reveal_strlit("slices");
    reveal_strlit("startsAfterPrevious");
    reveal_strlit("startsAt");
    reveal_strlit("status");
    reveal_strlit("syncIds");
    reveal_strlit("syncSource");
    reveal_strlit("syncUrl");
    reveal_strlit("syncUrls");
    reveal_strlit("syncUsers");
    assert("onlyRound"@.len() != "delay"@.len());
    assert("onlyRound"@.len() != "name"@.len());
    assert("onlyRound"@.len() != "period"@.len());
    assert("onlyRound"@.len() != "rated"@.len());
    assert("onlyRound"@.len() != "slices"@.len());
    assert("onlyRound"@.len() != "startsAfterPrevious"@.len());
    assert("onlyRound"@.len() != "startsAt"@.len());
    assert("onlyRound"@.len() != "status"@.len());
    assert("onlyRound"@.len() != "syncIds"@.len());
    assert("onlyRound"@.len() != "syncSource"@.len());
    assert("onlyRound"@.len() != "syncUrl"@.len());
    assert("onlyRound"@.len() != "syncUrls"@.len());
    assert("onlyRound"@[0] != "syncUsers"@[0]);
    let p0 = seq![("name"@, q.name@)];
    let p1 = crate::http::str_pair("syncUrl"@, q.sync_url);
    let p2 = crate::http::str_pair("syncUrls"@, q.sync_urls);
    let p3 = crate::http::str_pair("syncIds"@, q.sync_ids);
    let p4 = crate::http::str_pair("syncUsers"@, q.sync_users);
    let p5 = crate::http::nat_pair("onlyRound"@, crate::http::opt_u32(q.only_round));
    let p6 = crate::http::str_pair("slices"@, q.slices);
    let p7 = crate::http::str_pair("syncSource"@, q.sync_source);
    let p8 = crate::http::int_pair("startsAt"@, crate::http::opt_i64(q.starts_at));
    let p9 = crate::http::bool_pair("startsAfterPrevious"@, q.starts_after_previous);
    let p10 = crate::http::nat_pair("delay"@, crate::http::opt_u32(q.delay));
    let p11 = crate::http::nat_pair("period"@, crate::http::opt_u32(q.period));
    let p12 = crate::http::str_pair("status"@, q.status);
    let p13 = crate::http::bool_pair("rated"@, q.rated);
    let s0 = p0;
    let s1 = s0 + p1;
    let s2 = s1 + p2;
    let s3 = s2 + p3;
    let s4 = s3 + p4;
    let s5 = s4 + p5;
    let s6 = s5 + p6;
    let s7 = s6 + p7;
    let s8 = s7 + p8;
    let s9 = s8 + p9;
    let s10 = s9 + p10;
    let s11 = s10 + p11;
    let s12 = s11 + p12;
    let s13 = s12 + p13;
    assert(q.pairs_view() == s13);
    let v = match q.only_round { Some(x) => Some(crate::text::dec_nat(x as nat)), None => None };
    crate::text::lemma_extend(s0, p1, "onlyRound"@, None, false);
    crate::text::lemma_extend(s1, p2, "onlyRound"@, None, false);
    crate::text::lemma_extend(s2, p3, "onlyRound"@, None, false);
    crate::text::lemma_extend(s3, p4, "onlyRound"@, None, false);
    crate::text::lemma_extend(s4, p5, "onlyRound"@, v, true);
    crate::text::lemma_extend(s5, p6, "onlyRound"@, v, false);
    crate::text::lemma_extend(s6, p7, "onlyRound"@, v, false);
    crate::text::lemma_extend(s7, p8, "onlyRound"@, v, false);
    crate::text::lemma_extend(s8, p9, "onlyRound"@, v, false);
    crate::text::lemma_extend(s9, p10, "onlyRound"@, v, false);
    crate::text::lemma_extend(s10, p11, "onlyRound"@, v, false);
    crate::text::lemma_extend(s11, p12, "onlyRound"@, v, false);
    crate::text::lemma_extend(s12, p13, "onlyRound"@, v, false);
}

/// The pairs of [`RoundForm`] carry its field under `slices`.
proof fn lemma_round_form_slices(q: RoundForm)
    ensures
        crate::text::carries(q.pairs_view(), "slices"@, match q.slices { Some(v) => Some(v@), None => None }),
{
    reveal_strlit("delay");
    reveal_strlit("name");
    reveal_strlit("onlyRound");
    reveal_strlit("period");
    reveal_strlit("rated");
    reveal_strlit("slices");
    reveal_strlit("startsAfterPrevious");
    reveal_strlit("startsAt");
    reveal_strlit("status");
    reveal_strlit("syncIds");
    reveal_strlit("syncSource");
    reveal_strlit("syncUrl");
    reveal_strlit("syncUrls");
    reveal_strlit("syncUsers");
    assert("slices"@.len() != "delay"@.len());
    assert("slices"@.len() != "name"@.len());
    assert("slices"@.len() != "onlyRound"@.len());
    assert("slices"@[0] != "period"@[0]);
    assert("slices"@.len() != "rated"@.len());
    assert("slices"@.len() != "startsAfterPrevious"@.len());
    assert("slices"@.len() != "startsAt"@.len());
    assert("slices"@[1] != "status"@[1]);
    assert("slices"@.len() != "syncIds"@.len());
    assert("slices"@.len() != "syncSource"@.len());
    assert("slices"@.len() != "syncUrl"@.len());
    assert("slices"@.len() != "syncUrls"@.len());
    assert("slices"@.len() != "syncUsers"@.len());
    let p0 = seq![("name"@, q.name@)];
    let p1 = crate::http::str_pair("syncUrl"@, q.sync_url);
    let p2 = crate::http::str_pair("syncUrls"@, q.sync_urls);
    let p3 = crate::http::str_pair("syncIds"@, q.sync_ids);
    let p4 = crate::http::str_pair("syncUsers"@, q.sync_users);
    let p5 = crate::http::nat_pair("onlyRound"@, crate::http::opt_u32(q.only_round));
    let p6 = crate::http::str_pair("slices"@, q.slices);
    let p7 = crate::http::str_pair("syncSource"@, q.sync_source);
    let p8 = crate::http::int_pair("startsAt"@, crate::http::opt_i64(q.starts_at));
    let p9 = crate::http::bool_pair("startsAfterPrevious"@, q.starts_after_previous);
    let p10 = crate::http::nat_pair("delay"@, crate::http::opt_u32(q.delay));
    let p11 = crate::http::nat_pair("period"@, crate::http::opt_u32(q.period));
    let p12 = crate::http::str_pair("status"@, q.status);
    let p13 = crate::http::bool_pair("rated"@, q.rated);
    let s0 = p0;
    let s1 = s0 + p1;
    let s2 = s1 + p2;
    let s3 = s2 + p3;
    let s4 = s3 + p4;
    let s5 = s4 + p5;
    let s6 = s5 + p6;
    let s7 = s6 + p7;
    let s8 = s7 + p8;
    let s9 = s8 + p9;
    let s10 = s9 + p10;
    let s11 = s10 + p11;
    let s12 = s11 + p12;
    let s13 = s12 + p13;
    assert(q.pairs_view() == s13);
    let v = match q.slices { Some(v) => Some(v@), None => None };
    crate::text::lemma_extend(s0, p1, "slices"@, None, false);
    crate::text::lemma_extend(s1, p2, "slices"@, None, false);
    crate::text::lemma_extend(s2, p3, "slices"@, None, false);
    crate::text::lemma_extend(s3, p4, "slices"@, None, false);
    crate::text::lemma_extend(s4, p5, "slices"@, None, false);
    crate::text::lemma_extend(s5, p6, "slices"@, v, true);
    crate::text::lemma_extend(s6, p7, "slices"@, v, false);
    crate::text::lemma_extend(s7, p8, "slices"@, v, false);
    crate::text::lemma_extend(s8, p9, "slices"@, v, false);
    crate::text::lemma_extend(s9, p10, "slices"@, v, false);
    crate::text::lemma_extend(s10, p11, "slices"@, v, false);
    crate::text::lemma_extend(s11, p12, "slices"@, v, false);
    crate::text::lemma_extend(s12, p13, "slices"@, v, false);
}

/// The pairs of [`RoundForm`] carry its field under `syncSource`.
proof fn lemma_round_form_sync_source(q: RoundForm)
    ensures
        crate::text::carries(q.pairs_view(), "syncSource"@, match q.sync_source { Some(v) => Some(v@), None => None }),
{
    reveal_strlit("delay");
    reveal_strlit("name");
    reveal_strlit("onlyRound");
    reveal_strlit("period");
    reveal_strlit("rated");
    reveal_strlit("slices");
    reveal_strlit("startsAfterPrevious");
    reveal_strlit("startsAt");
    reveal_strlit("status");
    reveal_strlit("syncIds");
    reveal_strlit("syncSource");
    reveal_strlit("syncUrl");
    reveal_strlit("syncUrls");
    reveal_strlit("syncUsers");
    assert("syncSource"@.len() != "delay"@.len());
    assert("syncSource"@.len() != "name"@.len());
    assert("syncSource"@.len() != "onlyRound"@.len());
    assert("syncSource"@.len() != "period"@.len());
    assert("syncSource"@.len() != "rated"@.len());
    assert("syncSource"@.len() != "slices"@.len());
    assert("syncSource"@.len() != "startsAfterPrevious"@.len());
    assert("syncSource"@.len() != "startsAt"@.len());
    assert("syncSource"@.len() != "status"@.len());
    assert("syncSource"@.len() != "syncIds"@.len());
    assert("syncSource"@.len() != "syncUrl"@.len());
    assert("syncSource"@.len() != "syncUrls"@.len());
    assert("syncSource"@.len() != "syncUsers"@.len());
    let p0 = seq![("name"@, q.name@)];
    let p1 = crate::http::str_pair("syncUrl"@, q.sync_url);
    let p2 = crate::http::str_pair("syncUrls"@, q.sync_urls);
    let p3 = crate::http::str_pair("syncIds"@, q.sync_ids);
    let p4 = crate::http::str_pair("syncUsers"@, q.sync_users);
    let p5 = crate::http::nat_pair("onlyRound"@, crate::http::opt_u32(q.only_round));
    let p6 = crate::http::str_pair("slices"@, q.slices);
    let p7 = crate::http::str_pair("syncSource"@, q.sync_source);
    let p8 = crate::http::int_pair("startsAt"@, crate::http::opt_i64(q.starts_at));
    let p9 = crate::http::bool_pair("startsAfterPrevious"@, q.starts_after_previous);
    let p10 = crate::http::nat_pair("delay"@, crate::http::opt_u32(q.delay));
    let p11 = crate::http::nat_pair("period"@, crate::http::opt_u32(q.period));
    let p12 = crate::http::str_pair("status"@, q.status);
    let p13 = crate::http::bool_pair("rated"@, q.rated);
    let s0 = p0;
    let s1 = s0 + p1;
    let s2 = s1 + p2;
    let s3 = s2 + p3;
    let s4 = s3 + p4;
    let s5 = s4 + p5;
    let s6 = s5 + p6;
    let s7 = s6 + p7;
    let s8 = s7 + p8;
    let s9 = s8 + p9;
    let s10 = s9 + p10;
    let s11 = s10 + p11;
    let s12 = s11 + p12;
    let s13 = s12 + p13;
    assert(q.pairs_view() == s13);
    let v = match q.sync_source { Some(v) => Some(v@), None => None };
    crate::text::lemma_extend(s0, p1, "syncSource"@, None, false);
    crate::text::lemma_extend(s1, p2, "syncSource"@, None, false);
    crate::text::lemma_extend(s2, p3, "syncSource"@, None, false);
    crate::text::lemma_extend(s3, p4, "syncSource"@, None, false);
    crate::text::lemma_extend(s4, p5, "syncSource"@, None, false);
    crate::text::lemma_extend(s5, p6, "syncSource"@, None, false);
    crate::text::lemma_extend(s6, p7, "syncSource"@, v, true);
    crate::text::lemma_extend(s7, p8, "syncSource"@, v, false);
    crate::text::lemma_extend(s8, p9, "syncSource"@, v, false);
    crate::text::lemma_extend(s9, p10, "syncSource"@, v, false);
    crate::text::lemma_extend(s10, p11, "syncSource"@, v, false);
    crate::text::lemma_extend(s11, p12, "syncSource"@, v, false);
    crate::text::lemma_extend(s12, p13, "syncSource"@, v, false);
}

/// The pairs of [`RoundForm`] carry its field under `startsAt`.
proof fn lemma_round_form_starts_at(q: RoundForm)
    ensures
        crate::text::carries(q.pairs_view(), "startsAt"@, match q.starts_at { Some(x) => Some(crate::text::dec_int(x as int)), None => None }),
{
    reveal_strlit("delay");
    reveal_strlit("name");
    reveal_strlit("onlyRound");
    reveal_strlit("period");
    reveal_strlit("rated");
    reveal_strlit("slices");
    reveal_strlit("startsAfterPrevious");
    reveal_strlit("startsAt");
    reveal_strlit("status");
    reveal_strlit("syncIds");
    reveal_strlit("syncSource");
    reveal_strlit("syncUrl");
    reveal_strlit("syncUrls");
    reveal_strlit("syncUsers");
    assert("startsAt"@.len() != "delay"@.len());
    assert("startsAt"@.len() != "name"@.len());
    assert("startsAt"@.len() != "onlyRound"@.len());
    assert("startsAt"@.len() != "period"@.len());
    assert("startsAt"@.len() != "rated"@.len());
    assert("startsAt"@.len() != "slices"@.len());
    assert("startsAt"@.len() != "startsAfterPrevious"@.len());
    assert("startsAt"@.len() != "status"@.len());
    assert("startsAt"@.len() != "syncIds"@.len());
    assert("startsAt"@.len() != "syncSource"@.len());
    assert("startsAt"@.len() != "syncUrl"@.len());
    assert("startsAt"@[1] != "syncUrls"@[1]);
    assert("startsAt"@.len() != "syncUsers"@.len());
    let p0 = seq![("name"@, q.name@)];
    let p1 = crate::http::str_pair("syncUrl"@, q.sync_url);
    let p2 = crate::http::str_pair("syncUrls"@, q.sync_urls);
    let p3 = crate::http::str_pair("syncIds"@, q.sync_ids);
    let p4 = crate::http::str_pair("syncUsers"@, q.sync_users);
    let p5 = crate::http::nat_pair("onlyRound"@, crate::http::opt_u32(q.only_round));
    let p6 = crate::http::str_pair("slices"@, q.slices);
    let p7 = crate::http::str_pair("syncSource"@, q.sync_source);
    let p8 = crate::http::int_pair("startsAt"@, crate::http::opt_i64(q.starts_at));
    let p9 = crate::http::bool_pair("startsAfterPrevious"@, q.starts_after_previous);
    let p10 = crate::http::nat_pair("delay"@, crate::http::opt_u32(q.delay));
    let p11 = crate::http::nat_pair("period"@, crate::http::opt_u32(q.period));
    let p12 = crate::http::str_pair("status"@, q.status);
    let p13 = crate::http::bool_pair("rated"@, q.rated);
    let s0 = p0;
    let s1 = s0 + p1;
    let s2 = s1 + p2;
    let s3 = s2 + p3;
    let s4 = s3 + p4;
    let s5 = s4 + p5;
    let s6 = s5 + p6;
    let s7 = s6 + p7;
    let s8 = s7 + p8;
    let s9 = s8 + p9;
    let s10 = s9 + p10;
    let s11 = s10 + p11;
    let s12 = s11 + p12;
    let s13 = s12 + p13;
    assert(q.pairs_view() == s13);
    let v = match q.starts_at { Some(x) => Some(crate::text::dec_int(x as int)), None => None };
    crate::text::lemma_extend(s0, p1, "startsAt"@, None, false);
    crate::text::lemma_extend(s1, p2, "startsAt"@, None, false);
    crate::text::lemma_extend(s2, p3, "startsAt"@, None, false);
    crate::text::lemma_extend(s3, p4, "startsAt"@, None, false);
    crate::text::lemma_extend(s4, p5, "startsAt"@, None, false);
    crate::text::lemma_extend(s5, p6, "startsAt"@, None, false);
    crate::text::lemma_extend(s6, p7, "startsAt"@, None, false);
    crate::text::lemma_extend(s7, p8, "startsAt"@, v, true);
    crate::text::lemma_extend(s8, p9, "startsAt"@, v, false);
    crate::text::lemma_extend(s9, p10, "startsAt"@, v, false);
    crate::text::lemma_extend(s10, p11, "startsAt"@, v, false);
    crate::text::lemma_extend(s11, p12, "startsAt"@, v, false);
    crate::text::lemma_extend(s12, p13, "startsAt"@, v, false);
}

/// The pairs of [`RoundForm`] carry its field under `startsAfterPrevious`.
proof fn lemma_round_form_starts_after_previous(q: RoundForm)
    ensures
        crate::text::carries(q.pairs_view(), "startsAfterPrevious"@, match q.starts_after_previous { Some(b) => Some(if b { seq!['t', 'r', 'u', 'e'] } else { seq!['f', 'a', 'l', 's', 'e'] }), None => None }),
{
    reveal_strlit("delay");
    reveal_strlit("name");
    reveal_strlit("onlyRound");
    reveal_strlit("period");
    reveal_strlit("rated");
    reveal_strlit("slices");
    reveal_strlit("startsAfterPrevious");
    reveal_strlit("startsAt");
    reveal_strlit("status");
    reveal_strlit("syncIds");
    reveal_strlit("syncSource");
    reveal_strlit("syncUrl");
    reveal_strlit("syncUrls");
    reveal_strlit("syncUsers");
    assert("startsAfterPrevious"@.len() != "delay"@.len());
    assert("startsAfterPrevious"@.len() != "name"@.len());
    assert("startsAfterPrevious"@.len() != "onlyRound"@.len());
    assert("startsAfterPrevious"@.len() != "period"@.len());
    assert("startsAfterPrevious"@.len() != "rated"@.len());
    assert("startsAfterPrevious"@.len() != "slices"@.len());
    assert("startsAfterPrevious"@.len() != "startsAt"@.len());
    assert("startsAfterPrevious"@.len() != "status"@.len());
    assert("startsAfterPrevious"@.len() != "syncIds"@.len());
    assert("startsAfterPrevious"@.len() != "syncSource"@.len());
    assert("startsAfterPrevious"@.len() != "syncUrl"@.len());
    assert("startsAfterPrevious"@.len() != "syncUrls"@.len());
    assert("startsAfterPrevious"@.len() != "syncUsers"@.len());
    let p0 = seq![("name"@, q.name@)];
    let p1 = crate::http::str_pair("syncUrl"@, q.sync_url);
    let p2 = crate::http::str_pair("syncUrls"@, q.sync_urls);
    let p3 = crate::http::str_pair("syncIds"@, q.sync_ids);
    let p4 = crate::http::str_pair("syncUsers"@, q.sync_users);
    let p5 = crate::http::nat_pair("onlyRound"@, crate::http::opt_u32(q.only_round));
    let p6 = crate::http::str_pair("slices"@, q.slices);
    let p7 = crate::http::str_pair("syncSource"@, q.sync_source);
    let p8 = crate::http::int_pair("startsAt"@, crate::http::opt_i64(q.starts_at));
    let p9 = crate::http::bool_pair("startsAfterPrevious"@, q.starts_after_previous);
    let p10 = crate::http::nat_pair("delay"@, crate::http::opt_u32(q.delay));
    let p11 = crate::http::nat_pair("period"@, crate::http::opt_u32(q.period));
    let p12 = crate::http::str_pair("status"@, q.status);
    let p13 = crate::http::bool_pair("rated"@, q.rated);
    let s0 = p0;
    let s1 = s0 + p1;
    let s2 = s1 + p2;
    let s3 = s2 + p3;
    let s4 = s3 + p4;
    let s5 = s4 + p5;
    let s6 = s5 + p6;
    let s7 = s6 + p7;
    let s8 = s7 + p8;
    let s9 = s8 + p9;
    let s10 = s9 + p10;
    let s11 = s10 + p11;
    let s12 = s11 + p12;
    let s13 = s12 + p13;
    assert(q.pairs_view() == s13);
    let v = match q.starts_after_previous { Some(b) => Some(if b { seq!['t', 'r', 'u', 'e'] } else { seq!['f', 'a', 'l', 's', 'e'] }), None => None };
    crate::text::lemma_extend(s0, p1, "startsAfterPrevious"@, None, false);
    crate::text::lemma_extend(s1, p2, "startsAfterPrevious"@, None, false);
    crate::text::lemma_extend(s2, p3, "startsAfterPrevious"@, None, false);
    crate::text::lemma_extend(s3, p4, "startsAfterPrevious"@, None, false);
    crate::text::lemma_extend(s4, p5, "startsAfterPrevious"@, None, false);
    crate::text::lemma_extend(s5, p6, "startsAfterPrevious"@, None, false);
    crate::text::lemma_extend(s6, p7, "startsAfterPrevious"@, None, false);
    crate::text::lemma_extend(s7, p8, "startsAfterPrevious"@, None, false);
    crate::text::lemma_extend(s8, p9, "startsAfterPrevious"@, v, true);
    crate::text::lemma_extend(s9, p10, "startsAfterPrevious"@, v, false);
    crate::text::lemma_extend(s10, p11, "startsAfterPrevious"@, v, false);
    crate::text::lemma_extend(s11, p12, "startsAfterPrevious"@, v, false);
    crate::text::lemma_extend(s12, p13, "startsAfterPrevious"@, v, false);
}

/// The pairs of [`RoundForm`] carry its field under `delay`.
proof fn lemma_round_form_delay(q: RoundForm)
    ensures
        crate::text::carries(q.pairs_view(), "delay"@, match q.delay { Some(x) => Some(crate::text::dec_nat(x as nat)), None => None }),
{
    reveal_strlit("delay");
    reveal_strlit("name");
    reveal_strlit("onlyRound");
    reveal_strlit("period");
    reveal_strlit("rated");
    reveal_strlit("slices");
    reveal_strlit("startsAfterPrevious");
    reveal_strlit("startsAt");
    reveal_strlit("status");
    reveal_strlit("syncIds");
    reveal_strlit("syncSource");
    reveal_strlit("syncUrl");
    reveal_strlit("syncUrls");
    reveal_strlit("syncUsers");
    assert("delay"@.len() != "name"@.len());
    assert("delay"@.len() != "onlyRound"@.len());
    assert("delay"@.len() != "period"@.len());
    assert("delay"@[0] != "rated"@[0]);
    assert("delay"@.len() != "slices"@.len());
    assert("delay"@.len() != "startsAfterPrevious"@.len());
    assert("delay"@.len() != "startsAt"@.len());
    assert("delay"@.len() != "status"@.len());
    assert("delay"@.len() != "syncIds"@.len());
    assert("delay"@.len() != "syncSource"@.len());
    assert("delay"@.len() != "syncUrl"@.len());
    assert("delay"@.len() != "syncUrls"@.len());
    assert("delay"@.len() != "syncUsers"@.len());
    let p0 = seq![("name"@, q.name@)];
    let p1 = crate::http::str_pair("syncUrl"@, q.sync_url);
    let p2 = crate::http::str_pair("syncUrls"@, q.sync_urls);
    let p3 = crate::http::str_pair("syncIds"@, q.sync_ids);
    let p4 = crate::http::str_pair("syncUsers"@, q.sync_users);
    let p5 = crate::http::nat_pair("onlyRound"@, crate::http::opt_u32(q.only_round));
    let p6 = crate::http::str_pair("slices"@, q.slices);
    let p7 = crate::http::str_pair("syncSource"@, q.sync_source);
    let p8 = crate::http::int_pair("startsAt"@, crate::http::opt_i64(q.starts_at));
    let p9 = crate::http::bool_pair("startsAfterPrevious"@, q.starts_after_previous);
    let p10 = crate::http::nat_pair("delay"@, crate::http::opt_u32(q.delay));
    let p11 = crate::http::nat_pair("period"@, crate::http::opt_u32(q.period));
    let p12 = crate::http::str_pair("status"@, q.status);
    let p13 = crate::http::bool_pair("rated"@, q.rated);
    let s0 = p0;
    let s1 = s0 + p1;
    let s2 = s1 + p2;
    let s3 = s2 + p3;
    let s4 = s3 + p4;
    let s5 = s4 + p5;
    let s6 = s5 + p6;
    let s7 = s6 + p7;
    let s8 = s7 + p8;
    let s9 = s8 + p9;
    let s10 = s9 + p10;
    let s11 = s10 + p11;
    let s12 = s11 + p12;
    let s13 = s12 + p13;
    assert(q.pairs_view() == s13);
    let v = match q.delay { Some(x) => Some(crate::text::dec_nat(x as nat)), None => None };
    crate::text::lemma_extend(s0, p1, "delay"@, None, false);
    crate::text::lemma_extend(s1, p2, "delay"@, None, false);
    crate::text::lemma_extend(s2, p3, "delay"@, None, false);
    crate::text::lemma_extend(s3, p4, "delay"@, None, false);
    crate::text::lemma_extend(s4, p5, "delay"@, None, false);
    crate::text::lemma_extend(s5, p6, "delay"@, None, false);
    crate::text::lemma_extend(s6, p7, "delay"@, None, false);
    crate::text::lemma_extend(s7, p8, "delay"@, None, false);
    crate::text::lemma_extend(s8, p9, "delay"@, None, false);
    crate::text::lemma_extend(s9, p10, "delay"@, v, true);
    crate::text::lemma_extend(s10, p11, "delay"@, v, false);
    crate::text::lemma_extend(s11, p12, "delay"@, v, false);
    crate::text::lemma_extend(s12, p13, "delay"@, v, false);
}

/// The pairs of [`RoundForm`] carry its field under `period`.
proof fn lemma_round_form_period(q: RoundForm)
    ensures
        crate::text::carries(q.pairs_view(), "period"@, match q.period { Some(x) => Some(crate::text::dec_nat(x as nat)), None => None }),
{
    reveal_strlit("delay");
    reveal_strlit("name");
    reveal_strlit("onlyRound");
    reveal_strlit("period");
    reveal_strlit("rated");
    reveal_strlit("slices");
    reveal_strlit("startsAfterPrevious");
    reveal_strlit("startsAt");
    reveal_strlit("status");
    reveal_strlit("syncIds");
    reveal_strlit("syncSource");
    reveal_strlit("syncUrl");
    reveal_strlit("syncUrls");
    reveal_strlit("syncUsers");
    assert("period"@.len() != "delay"@.len());
    assert("period"@.len() != "name"@.len());
    assert("period"@.len() != "onlyRound"@.len());
    assert("period"@.len() != "rated"@.len());
    assert("period"@[0] != "slices"@[0]);
    assert("period"@.len() != "startsAfterPrevious"@.len());
    assert("period"@.len() != "startsAt"@.len());
    assert("period"@[0] != "status"@[0]);
    assert("period"@.len() != "syncIds"@.len());
    assert("period"@.len() != "syncSource"@.len());
    assert("period"@.len() != "syncUrl"@.len());
    assert("period"@.len() != "syncUrls"@.len());
    assert("period"@.len() != "syncUsers"@.len());
    let p0 = seq![("name"@, q.name@)];
    let p1 = crate::http::str_pair("syncUrl"@, q.sync_url);
    let p2 = crate::http::str_pair("syncUrls"@, q.sync_urls);
    let p3 = crate::http::str_pair("syncIds"@, q.sync_ids);
    let p4 = crate::http::str_pair("syncUsers"@, q.sync_users);
    let p5 = crate::http::nat_pair("onlyRound"@, crate::http::opt_u32(q.only_round));
    let p6 = crate::http::str_pair("slices"@, q.slices);
    let p7 = crate::http::str_pair("syncSource"@, q.sync_source);
    let p8 = crate::http::int_pair("startsAt"@, crate::http::opt_i64(q.starts_at));
    let p9 = crate::http::bool_pair("startsAfterPrevious"@, q.starts_after_previous);
    let p10 = crate::http::nat_pair("delay"@, crate::http::opt_u32(q.delay));
    let p11 = crate::http::nat_pair("period"@, crate::http::opt_u32(q.period));
    let p12 = crate::http::str_pair("status"@, q.status);
    let p13 = crate::http::bool_pair("rated"@, q.rated);
    let s0 = p0;
    let s1 = s0 + p1;
    let s2 = s1 + p2;
    let s3 = s2 + p3;
    let s4 = s3 + p4;
    let s5 = s4 + p5;
    let s6 = s5 + p6;
    let s7 = s6 + p7;
    let s8 = s7 + p8;
    let s9 = s8 + p9;
    let s10 = s9 + p10;
    let s11 = s10 + p11;
    let s12 = s11 + p12;
    let s13 = s12 + p13;
    assert(q.pairs_view() == s13);
    let v = match q.period { Some(x) => Some(crate::text::dec_nat(x as nat)), None => None };
    crate::text::lemma_extend(s0, p1, "period"@, None, false);
    crate::text::lemma_extend(s1, p2, "period"@, None, false);
    crate::text::lemma_extend(s2, p3, "period"@, None, false);
    crate::text::lemma_extend(s3, p4, "period"@, None, false);
    crate::text::lemma_extend(s4, p5, "period"@, None, false);
    crate::text::lemma_extend(s5, p6, "period"@, None, false);
    crate::text::lemma_extend(s6, p7, "period"@, None, false);
    crate::text::lemma_extend(s7, p8, "period"@, None, false);
    crate::text::lemma_extend(s8, p9, "period"@, None, false);
    crate::text::lemma_extend(s9, p10, "period"@, None, false);
    crate::text::lemma_extend(s10, p11, "period"@, v, true);
    crate::text::lemma_extend(s11, p12, "period"@, v, false);
    crate::text::lemma_extend(s12, p13, "period"@, v, false);
}

/// The pairs of [`RoundForm`] carry its field under `status`.
proof fn lemma_round_form_status(q: RoundForm)
    ensures
        crate::text::carries(q.pairs_view(), "status"@, match q.status { Some(v) => Some(v@), None => None }),
{
    reveal_strlit("delay");
    reveal_strlit("name");
    reveal_strlit("onlyRound");
    reveal_strlit("period");
    reveal_strlit("rated");
    reveal_strlit("slices");
    reveal_strlit("startsAfterPrevious");
    reveal_strlit("startsAt");
    reveal_strlit("status");
    reveal_strlit("syncIds");
    reveal_strlit("syncSource");
    reveal_strlit("syncUrl");
    reveal_strlit("syncUrls");
    reveal_strlit("syncUsers");
    assert("status"@.len() != "delay"@.len());
    assert("status"@.len() != "name"@.len());
    assert("status"@.len() != "onlyRound"@.len());
    assert("status"@[0] != "period"@[0]);
    assert("status"@.len() != "rated"@.len());
    assert("status"@[1] != "slices"@[1]);
    assert("status"@.len() != "startsAfterPrevious"@.len());
    assert("status"@.len() != "startsAt"@.len());
    assert("status"@.len() != "syncIds"@.len());
    assert("status"@.len() != "syncSource"@.len());
    assert("status"@.len() != "syncUrl"@.len());
    assert("status"@.len() != "syncUrls"@.len());
    assert("status"@.len() != "syncUsers"@.len());
    let p0 = seq![("name"@, q.name@)];
    let p1 = crate::http::str_pair("syncUrl"@, q.sync_url);
    let p2 = crate::http::str_pair("syncUrls"@, q.sync_urls);
    let p3 = crate::http::str_pair("syncIds"@, q.sync_ids);
    let p4 = crate::http::str_pair("syncUsers"@, q.sync_users);
    let p5 = crate::http::nat_pair("onlyRound"@, crate::http::opt_u32(q.only_round));
    let p6 = crate::http::str_pair("slices"@, q.slices);
    let p7 = crate::http::str_pair("syncSource"@, q.sync_source);
    let p8 = crate::http::int_pair("startsAt"@, crate::http::opt_i64(q.starts_at));
    let p9 = crate::http::bool_pair("startsAfterPrevious"@, q.starts_after_previous);
    let p10 = crate::http::nat_pair("delay"@, crate::http::opt_u32(q.delay));
    let p11 = crate::http::nat_pair("period"@, crate::http::opt_u32(q.period));
    let p12 = crate::http::str_pair("status"@, q.status);
    let p13 = crate::http::bool_pair("rated"@, q.rated);
    let s0 = p0;
    let s1 = s0 + p1;
    let s2 = s1 + p2;
    let s3 = s2 + p3;
    let s4 = s3 + p4;
    let s5 = s4 + p5;
    let s6 = s5 + p6;
    let s7 = s6 + p7;
    let s8 = s7 + p8;
    let s9 = s8 + p9;
    let s10 = s9 + p10;
    let s11 = s10 + p11;
    let s12 = s11 + p12;
    let s13 = s12 + p13;
    assert(q.pairs_view() == s13);
    let v = match q.status { Some(v) => Some(v@), None => None };
    crate::text::lemma_extend(s0, p1, "status"@, None, false);
    crate::text::lemma_extend(s1, p2, "status"@, None, false);
    crate::text::lemma_extend(s2, p3, "status"@, None, false);
    crate::text::lemma_extend(s3, p4, "status"@, None, false);
    crate::text::lemma_extend(s4, p5, "status"@, None, false);
    crate::text::lemma_extend(s5, p6, "status"@, None, false);
    crate::text::lemma_extend(s6, p7, "status"@, None, false);
    crate::text::lemma_extend(s7, p8, "status"@, None, false);
    crate::text::lemma_extend(s8, p9, "status"@, None, false);
    crate::text::lemma_extend(s9, p10, "status"@, None, false);
    crate::text::lemma_extend(s10, p11, "status"@, None, false);
    crate::text::lemma_extend(s11, p12, "status"@, v, true);
    crate::text::lemma_extend(s12, p13, "status"@, v, false);
}

/// The pairs of [`RoundForm`] carry its field under `rated`.
proof fn lemma_round_form_rated(q: RoundForm)
    ensures
        crate::text::carries(q.pairs_view(), "rated"@, match q.rated { Some(b) => Some(if b { seq!['t', 'r', 'u', 'e'] } else { seq!['f', 'a', 'l', 's', 'e'] }), None => None }),
{
    reveal_strlit("delay");
    reveal_strlit("name");
    reveal_strlit("onlyRound");
    reveal_strlit("period");
    reveal_strlit("rated");
    reveal_strlit("slices");
    reveal_strlit("startsAfterPrevious");
    reveal_strlit("startsAt");
    reveal_strlit("status");
    reveal_strlit("syncIds");
    reveal_strlit("syncSource");
    reveal_strlit("syncUrl");
    reveal_strlit("syncUrls");
    reveal_strlit("syncUsers");
    assert("rated"@[0] != "delay"@[0]);
    assert("rated"@.len() != "name"@.len());
    assert("rated"@.len() != "onlyRound"@.len());
    assert("rated"@.len() != "period"@.len());
    assert("rated"@.len() != "slices"@.len());
    assert("rated"@.len() != "startsAfterPrevious"@.len());
    assert("rated"@.len() != "startsAt"@.len());
    assert("rated"@.len() != "status"@.len());
    assert("rated"@.len() != "syncIds"@.len());
    assert("rated"@.len() != "syncSource"@.len());
    assert("rated"@.len() != "syncUrl"@.len());
    assert("rated"@.len() != "syncUrls"@.len());
    assert("rated"@.len() != "syncUsers"@.len());
    let p0 = seq![("name"@, q.name@)];
    let p1 = crate::http::str_pair("syncUrl"@, q.sync_url);
    let p2 = crate::http::str_pair("syncUrls"@, q.sync_urls);
    let p3 = crate::http::str_pair("syncIds"@, q.sync_ids);
    let p4 = crate::http::str_pair("syncUsers"@, q.sync_users);
    let p5 = crate::http::nat_pair("onlyRound"@, crate::http::opt_u32(q.only_round));
    let p6 = crate::http::str_pair("slices"@, q.slices);
    let p7 = crate::http::str_pair("syncSource"@, q.sync_source);
    let p8 = crate::http::int_pair("startsAt"@, crate::http::opt_i64(q.starts_at));
    let p9 = crate::http::bool_pair("startsAfterPrevious"@, q.starts_after_previous);
    let p10 = crate::http::nat_pair("delay"@, crate::http::opt_u32(q.delay));
    let p11 = crate::http::nat_pair("period"@, crate::http::opt_u32(q.period));
    let p12 = crate::http::str_pair("status"@, q.status);
    let p13 = crate::http::bool_pair("rated"@, q.rated);
    let s0 = p0;
    let s1 = s0 + p1;
    let s2 = s1 + p2;
    let s3 = s2 + p3;
    let s4 = s3 + p4;
    let s5 = s4 + p5;
    let s6 = s5 + p6;
    let s7 = s6 + p7;
    let s8 = s7 + p8;
    let s9 = s8 + p9;
    let s10 = s9 + p10;
    let s11 = s10 + p11;
    let s12 = s11 + p12;
    let s13 = s12 + p13;
    assert(q.pairs_view() == s13);
    let v = match q.rated { Some(b) => Some(if b { seq!['t', 'r', 'u', 'e'] } else { seq!['f', 'a', 'l', 's', 'e'] }), None => None };
    crate::text::lemma_extend(s0, p1, "rated"@, None, false);
    crate::text::lemma_extend(s1, p2, "rated"@, None, false);
    crate::text::lemma_extend(s2, p3, "rated"@, None, false);
    crate::text::lemma_extend(s3, p4, "rated"@, None, false);
    crate::text::lemma_extend(s4, p5, "rated"@, None, false);
    crate::text::lemma_extend(s5, p6, "rated"@, None, false);
    crate::text::lemma_extend(s6, p7, "rated"@, None, false);
    crate::text::lemma_extend(s7, p8, "rated"@, None, false);
    crate::text::lemma_extend(s8, p9, "rated"@, None, false);
    crate::text::lemma_extend(s9, p10, "rated"@, None, false);
    crate::text::lemma_extend(s10, p11, "rated"@, None, false);
    crate::text::lemma_extend(s11, p12, "rated"@, None, false);
    crate::text::lemma_extend(s12, p13, "rated"@, v, true);
}

/// The pairs of [`RoundForm`] carry each of its fields under that field's own
/// key (`name`, `syncUrl`, `syncUrls`, `syncIds`, `syncUsers`, `onlyRound`, `slices`, `syncSource`, `startsAt`, `startsAfterPrevious`, `delay`, `period`, `status`, `rated`), with the value given to it, and a key only when its field is set.
pub proof fn lemma_round_form_carries_fields(q: RoundForm)
    ensures
        crate::text::carries(q.pairs_view(), "name"@, Some(q.name@)),
        crate::text::carries(q.pairs_view(), "syncUrl"@, match q.sync_url { Some(v) => Some(v@), None => None }),
        crate::text::carries(q.pairs_view(), "syncUrls"@, match q.sync_urls { Some(v) => Some(v@), None => None }),
        crate::text::carries(q.pairs_view(), "syncIds"@, match q.sync_ids { Some(v) => Some(v@), None => None }),
        crate::text::carries(q.pairs_view(), "syncUsers"@, match q.sync_users { Some(v) => Some(v@), None => None }),
        crate::text::carries(q.pairs_view(), "onlyRound"@, match q.only_round { Some(x) => Some(crate::text::dec_nat(x as nat)), None => None }),
        crate::text::carries(q.pairs_view(), "slices"@, match q.slices { Some(v) => Some(v@), None => None }),
        crate::text::carries(q.pairs_view(), "syncSource"@, match q.sync_source { Some(v) => Some(v@), None => None }),
        crate::text::carries(q.pairs_view(), "startsAt"@, match q.starts_at { Some(x) => Some(crate::text::dec_int(x as int)), None => None }),
        crate::text::carries(q.pairs_view(), "startsAfterPrevious"@, match q.starts_after_previous { Some(b) => Some(if b { seq!['t', 'r', 'u', 'e'] } else { seq!['f', 'a', 'l', 's', 'e'] }), None => None }),
        crate::text::carries(q.pairs_view(), "delay"@, match q.delay { Some(x) => Some(crate::text::dec_nat(x as nat)), None => None }),
        crate::text::carries(q.pairs_view(), "period"@, match q.period { Some(x) => Some(crate::text::dec_nat(x as nat)), None => None }),
        crate::text::carries(q.pairs_view(), "status"@, match q.status { Some(v) => Some(v@), None => None }),
        crate::text::carries(q.pairs_view(), "rated"@, match q.rated { Some(b) => Some(if b { seq!['t', 'r', 'u', 'e'] } else { seq!['f', 'a', 'l', 's', 'e'] }), None => None }),
{
    lemma_round_form_name(q);
    lemma_round_form_sync_url(q);
    lemma_round_form_sync_urls(q);
    lemma_round_form_sync_ids(q);
    lemma_round_form_sync_users(q);
    lemma_round_form_only_round(q);
    lemma_round_form_slices(q);
    lemma_round_form_sync_source(q);
    lemma_round_form_starts_at(q);
    lemma_round_form_starts_after_previous(q);
    lemma_round_form_delay(q);
    lemma_round_form_period(q);
    lemma_round_form_status(q);
    lemma_round_form_rated(q);
}

impl<'a> RoundForm<'a> {
    /// The form with the name and every option unset.
    pub open spec fn named(name: &'a str) -> Self {
        RoundForm {
            name,
            sync_url: None,
            sync_urls: None,
            sync_ids: None,
            sync_users: None,
            only_round: None,
            slices: None,
            sync_source: None,
            starts_at: None,
            starts_after_previous: None,
            delay: None,
            period: None,
            status: None,
            rated: None,
        }
    }

    /// The query pairs, in order.
    pub open spec fn pairs_view(self) -> crate::text::Pairs {
        seq![("name"@, self.name@)]
            + crate::http::str_pair("syncUrl"@, self.sync_url)
            + crate::http::str_pair("syncUrls"@, self.sync_urls)
            + crate::http::str_pair("syncIds"@, self.sync_ids)
            + crate::http::str_pair("syncUsers"@, self.sync_users)
            + crate::http::nat_pair("onlyRound"@, crate::http::opt_u32(self.only_round))
            + crate::http::str_pair("slices"@, self.slices)
            + crate::http::str_pair("syncSource"@, self.sync_source)
            + crate::http::int_pair("startsAt"@, crate::http::opt_i64(self.starts_at))
            + crate::http::bool_pair("startsAfterPrevious"@, self.starts_after_previous)
            + crate::http::nat_pair("delay"@, crate::http::opt_u32(self.delay))
            + crate::http::nat_pair("period"@, crate::http::opt_u32(self.period))
            + crate::http::str_pair("status"@, self.status)
            + crate::http::bool_pair("rated"@, self.rated)
    }

    /// The query pairs.
    #[verifier::rlimit(80)]
    pub fn pairs(&self) -> (r: Vec<(String, String)>)
        ensures
            r.deep_view() == self.pairs_view(),
    {
        let mut out: Vec<(String, String)> = Vec::new();
        crate::http::push_pair(&mut out, "name", String::from_str(self.name));
        crate::http::push_opt_str(&mut out, "syncUrl", self.sync_url);
        crate::http::push_opt_str(&mut out, "syncUrls", self.sync_urls);
        crate::http::push_opt_str(&mut out, "syncIds", self.sync_ids);
        crate::http::push_opt_str(&mut out, "syncUsers", self.sync_users);
        crate::http::push_opt_u32(&mut out, "onlyRound", self.only_round);
        crate::http::push_opt_str(&mut out, "slices", self.slices);
        crate::http::push_opt_str(&mut out, "syncSource", self.sync_source);
        crate::http::push_opt_i64(&mut out, "startsAt", self.starts_at);
        crate::http::push_opt_bool(&mut out, "startsAfterPrevious", self.starts_after_previous);
        crate::http::push_opt_u32(&mut out, "delay", self.delay);
        crate::http::push_opt_u32(&mut out, "period", self.period);
        crate::http::push_opt_str(&mut out, "status", self.status);
        crate::http::push_opt_bool(&mut out, "rated", self.rated);
        assert(out.deep_view() =~= self.pairs_view());
        out
    }
}

/// Points awarded for a win and a draw (each `0.0`–`10.0`), written in
/// decimal.
///
/// Used both for a single color/team and, via [`BroadcastCustomScoring`], per color.
#[derive(Debug, Clone, PartialEq, Eq)]
pub struct BroadcastCustomPoints {
    /// Points awarded for a win.
    pub win: String,
    /// Points awarded for a draw.
    pub draw: String,
}

impl BroadcastCustomPoints {
    /// The `{prefix}.win` / `{prefix}.draw` pairs.
    pub open spec fn pairs_view(&self, prefix: Seq<char>) -> Pairs {
        seq![(prefix + ".win"@, self.win@), (prefix + ".draw"@, self.draw@)]
    }

    /// Appends the `{prefix}.win` / `{prefix}.draw` form pairs.
    pub fn append_pairs(&self, prefix: &str, out: &mut Vec<(String, String)>)
        ensures
            final(out).deep_view() == old(out).deep_view() + self.pairs_view(prefix@),
    {
        let ghost start = out.deep_view();
        let mut win_key = String::from_str(prefix);
        win_key.append(".win");
        crate::http::push_pair(out, win_key.as_str(), self.win.clone());
        let mut draw_key = String::from_str(prefix);
        draw_key.append(".draw");
        crate::http::push_pair(out, draw_key.as_str(), self.draw.clone());
        assert(out.deep_view() =~= start + self.pairs_view(prefix@));
    }
}

/// Scoring overrides for both colors of a broadcast round.
#[derive(Debug, Clone, PartialEq, Eq)]
pub struct BroadcastCustomScoring {
    /// Points awarded when White wins or draws.
    pub white: BroadcastCustomPoints,
    /// Points awarded when Black wins or draws.
    pub black: BroadcastCustomPoints,
}

/// The custom scoring form carries each colour's points under that colour's
/// own keys: White's win and draw points under `customScoring.white.win` and
/// `customScoring.white.draw`, Black's under `customScoring.black.*`.
pub proof fn lemma_custom_scoring_carries_points(s: BroadcastCustomScoring)
    ensures
        crate::text::carries(s.pairs_view(), "customScoring.white.win"@, Some(s.white.win@)),
        crate::text::carries(s.pairs_view(), "customScoring.white.draw"@, Some(s.white.draw@)),
        crate::text::carries(s.pairs_view(), "customScoring.black.win"@, Some(s.black.win@)),
        crate::text::carries(s.pairs_view(), "customScoring.black.draw"@, Some(s.black.draw@)),
{
    reveal_strlit("customScoring.white");
    reveal_strlit("customScoring.black");
    reveal_strlit(".win");
    reveal_strlit(".draw");
    reveal_strlit("customScoring.white.win");
    reveal_strlit("customScoring.white.draw");
    reveal_strlit("customScoring.black.win");
    reveal_strlit("customScoring.black.draw");
    assert("customScoring.white"@ + ".win"@ =~= "customScoring.white.win"@);
    assert("customScoring.white"@ + ".draw"@ =~= "customScoring.white.draw"@);
    assert("customScoring.black"@ + ".win"@ =~= "customScoring.black.win"@);
    assert("customScoring.black"@ + ".draw"@ =~= "customScoring.black.draw"@);
    assert("customScoring.white.win"@.len() != "customScoring.white.draw"@.len());
    assert("customScoring.white.win"@[14] != "customScoring.black.win"@[14]);
    assert("customScoring.white.win"@.len() != "customScoring.black.draw"@.len());
    assert("customScoring.white.draw"@.len() != "customScoring.black.win"@.len());
    assert("customScoring.white.draw"@[14] != "customScoring.black.draw"@[14]);
    assert("customScoring.black.win"@.len() != "customScoring.black.draw"@.len());
    let p0 = seq![("customScoring.white.win"@, s.white.win@)];
    let p1 = seq![("customScoring.white.draw"@, s.white.draw@)];
    let p2 = seq![("customScoring.black.win"@, s.black.win@)];
    let p3 = seq![("customScoring.black.draw"@, s.black.draw@)];
    let s1 = p0 + p1;
    let s2 = s1 + p2;
    let s3 = s2 + p3;
    assert(s.pairs_view() =~= s3);
    let v0 = Some(s.white.win@);
    crate::text::lemma_one_pair_carries("customScoring.white.win"@, v0);
    crate::text::lemma_extend(p0, p1, "customScoring.white.win"@, v0, false);
    crate::text::lemma_extend(s1, p2, "customScoring.white.win"@, v0, false);
    crate::text::lemma_extend(s2, p3, "customScoring.white.win"@, v0, false);
    let v1 = Some(s.white.draw@);
    crate::text::lemma_extend(p0, p1, "customScoring.white.draw"@, v1, true);
    crate::text::lemma_extend(s1, p2, "customScoring.white.draw"@, v1, false);
    crate::text::lemma_extend(s2, p3, "customScoring.white.draw"@, v1, false);
    let v2 = Some(s.black.win@);
    crate::text::lemma_extend(p0, p1, "customScoring.black.win"@, None, false);
    crate::text::lemma_extend(s1, p2, "customScoring.black.win"@, v2, true);
    crate::text::lemma_extend(s2, p3, "customScoring.black.win"@, v2, false);
    let v3 = Some(s.black.draw@);
    crate::text::lemma_extend(p0, p1, "customScoring.black.draw"@, None, false);
    crate::text::lemma_extend(s1, p2, "customScoring.black.draw"@, None, false);
    crate::text::lemma_extend(s2, p3, "customScoring.black.draw"@, v3, true);
}

impl BroadcastCustomScoring {
    /// The `customScoring.{color}.{win,draw}` pairs.
    pub open spec fn pairs_view(&self) -> Pairs {
        self.white.pairs_view("customScoring.white"@)
            + self.black.pairs_view("customScoring.black"@)
    }

    /// Appends the `customScoring.{color}.{win,draw}` form pairs.
    pub fn append_pairs(&self, out: &mut Vec<(String, String)>)
        ensures
            final(out).deep_view() == old(out).deep_view() + self.pairs_view(),
    {
        let ghost start = out.deep_view();
        self.white.append_pairs("customScoring.white", out);
        self.black.append_pairs("customScoring.black", out);
        assert(out.deep_view() =~= start + self.pairs_view());
    }
}

/// Builder for creating a round (under a tournament) or editing a round.
#[derive(Debug)]
pub struct RoundRequest<'a> {
    client: &'a LichessClient,
    target_id: &'a str,
    edit: bool,
    patch: Option<bool>,
    form: RoundForm<'a>,
    custom_scoring: Option<BroadcastCustomScoring>,
    team_custom_scoring: Option<BroadcastCustomPoints>,
}

/// A round edit is posted to `/broadcast/round/{id}/edit` with the round's id;
/// a new round to `/broadcast/{id}/new` under its tournament's id.
pub proof fn lemma_round_paths(target_id: &str)
    ensures
        RoundRequest::path_view(target_id, true) == seq!['/', 'b', 'r', 'o', 'a', 'd', 'c', 'a', 's', 't', '/', 'r', 'o', 'u', 'n', 'd', '/']
            + crate::text::segment_text(target_id@) + seq!['/', 'e', 'd', 'i', 't'],
        RoundRequest::path_view(target_id, false) == seq!['/', 'b', 'r', 'o', 'a', 'd', 'c', 'a', 's', 't', '/']
            + crate::text::segment_text(target_id@) + seq!['/', 'n', 'e', 'w'],
{
    reveal_strlit("/broadcast/round/");
    reveal_strlit("/broadcast/");
    reveal_strlit("/edit");
    reveal_strlit("/new");
    assert("/broadcast/round/"@ =~= seq!['/', 'b', 'r', 'o', 'a', 'd', 'c', 'a', 's', 't', '/', 'r', 'o', 'u', 'n', 'd', '/']);
    assert("/broadcast/"@ =~= seq!['/', 'b', 'r', 'o', 'a', 'd', 'c', 'a', 's', 't', '/']);
    assert("/edit"@ =~= seq!['/', 'e', 'd', 'i', 't']);
    assert("/new"@ =~= seq!['/', 'n', 'e', 'w']);
}

/// The scoring overrides of a round travel under their own keys: the
/// per-colour custom scoring under `customScoring.*` and the team scoring under
/// `teamCustomScoring.win` / `teamCustomScoring.draw`, each only when set.
pub proof fn lemma_round_scoring_carries_fields(r: RoundRequest)
    ensures
        crate::text::carries(r.scoring_view(), "customScoring.white.win"@, match r.custom_scoring_of() {
            Some(s) => Some(s.white.win@),
            None => None,
        }),
        crate::text::carries(r.scoring_view(), "customScoring.white.draw"@, match r.custom_scoring_of() {
            Some(s) => Some(s.white.draw@),
            None => None,
        }),
        crate::text::carries(r.scoring_view(), "customScoring.black.win"@, match r.custom_scoring_of() {
            Some(s) => Some(s.black.win@),
            None => None,
        }),
        crate::text::carries(r.scoring_view(), "customScoring.black.draw"@, match r.custom_scoring_of() {
            Some(s) => Some(s.black.draw@),
            None => None,
        }),
        crate::text::carries(r.scoring_view(), "teamCustomScoring.win"@, match r.team_custom_scoring_of() {
            Some(t) => Some(t.win@),
            None => None,
        }),
        crate::text::carries(r.scoring_view(), "teamCustomScoring.draw"@, match r.team_custom_scoring_of() {
            Some(t) => Some(t.draw@),
            None => None,
        }),
{
    reveal_strlit("teamCustomScoring");
    reveal_strlit(".win");
    reveal_strlit(".draw");
    reveal_strlit("teamCustomScoring.win");
    reveal_strlit("teamCustomScoring.draw");
    reveal_strlit("customScoring.white.win");
    reveal_strlit("customScoring.white.draw");
    reveal_strlit("customScoring.black.win");
    reveal_strlit("customScoring.black.draw");
    assert("teamCustomScoring"@ + ".win"@ =~= "teamCustomScoring.win"@);
    assert("teamCustomScoring"@ + ".draw"@ =~= "teamCustomScoring.draw"@);
    assert("teamCustomScoring.win"@.len() != "teamCustomScoring.draw"@.len());
    let a = match r.custom_scoring_of() {
        Some(s) => s.pairs_view(),
        None => seq![],
    };
    let b = match r.team_custom_scoring_of() {
        Some(t) => t.pairs_view("teamCustomScoring"@),
        None => seq![],
    };
    assert(r.scoring_view() == a + b);
    assert(crate::text::lacks(b, "customScoring.white.win"@)) by {
        assert("teamCustomScoring.win"@[0] != "customScoring.white.win"@[0]);
        assert("teamCustomScoring.draw"@[0] != "customScoring.white.win"@[0]);
    }
    if let Some(s) = r.custom_scoring_of() {
        lemma_custom_scoring_carries_points(s);
    }
    crate::text::lemma_carries_then_lacks(a, b, "customScoring.white.win"@, match r.custom_scoring_of() {
        Some(s) => Some(s.white.win@),
        None => None,
    });
    assert(crate::text::lacks(b, "customScoring.white.draw"@)) by {
        assert("teamCustomScoring.win"@[0] != "customScoring.white.draw"@[0]);
        assert("teamCustomScoring.draw"@[0] != "customScoring.white.draw"@[0]);
    }
    if let Some(s) = r.custom_scoring_of() {
        lemma_custom_scoring_carries_points(s);
    }
    crate::text::lemma_carries_then_lacks(a, b, "customScoring.white.draw"@, match r.custom_scoring_of() {
        Some(s) => Some(s.white.draw@),
        None => None,
    });
    assert(crate::text::lacks(b, "customScoring.black.win"@)) by {
        assert("teamCustomScoring.win"@[0] != "customScoring.black.win"@[0]);
        assert("teamCustomScoring.draw"@[0] != "customScoring.black.win"@[0]);
    }
    if let Some(s) = r.custom_scoring_of() {
        lemma_custom_scoring_carries_points(s);
    }
    crate::text::lemma_carries_then_lacks(a, b, "customScoring.black.win"@, match r.custom_scoring_of() {
        Some(s) => Some(s.black.win@),
        None => None,
    });
    assert(crate::text::lacks(b, "customScoring.black.draw"@)) by {
        assert("teamCustomScoring.win"@[0] != "customScoring.black.draw"@[0]);
        assert("teamCustomScoring.draw"@[0] != "customScoring.black.draw"@[0]);
    }
    if let Some(s) = r.custom_scoring_of() {
        lemma_custom_scoring_carries_points(s);
    }
    crate::text::lemma_carries_then_lacks(a, b, "customScoring.black.draw"@, match r.custom_scoring_of() {
        Some(s) => Some(s.black.draw@),
        None => None,
    });
    assert(crate::text::lacks(a, "teamCustomScoring.win"@)) by {
        if let Some(s) = r.custom_scoring_of() {
            lemma_custom_scoring_carries_points(s);
            assert("customScoring.white.win"@[0] != "teamCustomScoring.win"@[0]);
            assert("customScoring.white.draw"@[0] != "teamCustomScoring.win"@[0]);
            assert("customScoring.black.win"@[0] != "teamCustomScoring.win"@[0]);
            assert("customScoring.black.draw"@[0] != "teamCustomScoring.win"@[0]);
            reveal_strlit("customScoring.white");
            reveal_strlit("customScoring.black");
            assert("customScoring.white"@ + ".win"@ =~= "customScoring.white.win"@);
            assert("customScoring.white"@ + ".draw"@ =~= "customScoring.white.draw"@);
            assert("customScoring.black"@ + ".win"@ =~= "customScoring.black.win"@);
            assert("customScoring.black"@ + ".draw"@ =~= "customScoring.black.draw"@);
            assert(a =~= seq![
                ("customScoring.white.win"@, s.white.win@),
                ("customScoring.white.draw"@, s.white.draw@),
                ("customScoring.black.win"@, s.black.win@),
                ("customScoring.black.draw"@, s.black.draw@),
            ]);
            assert forall|i: int| 0 <= i < a.len() implies (#[trigger] a[i]).0 != "teamCustomScoring.win"@ by {
                assert(a[i].0 == "customScoring.white.win"@ || a[i].0 == "customScoring.white.draw"@
                    || a[i].0 == "customScoring.black.win"@ || a[i].0 == "customScoring.black.draw"@);
            }
        }
    }
    crate::text::lemma_lacks_then_carries(a, b, "teamCustomScoring.win"@, match r.team_custom_scoring_of() {
        Some(t) => Some(t.win@),
        None => None,
    });
    assert(crate::text::lacks(a, "teamCustomScoring.draw"@)) by {
        if let Some(s) = r.custom_scoring_of() {
            lemma_custom_scoring_carries_points(s);
            assert("customScoring.white.win"@[0] != "teamCustomScoring.draw"@[0]);
            assert("customScoring.white.draw"@[0] != "teamCustomScoring.draw"@[0]);
            assert("customScoring.black.win"@[0] != "teamCustomScoring.draw"@[0]);
            assert("customScoring.black.draw"@[0] != "teamCustomScoring.draw"@[0]);
            reveal_strlit("customScoring.white");
            reveal_strlit("customScoring.black");
            assert("customScoring.white"@ + ".win"@ =~= "customScoring.white.win"@);
            assert("customScoring.white"@ + ".draw"@ =~= "customScoring.white.draw"@);
            assert("customScoring.black"@ + ".win"@ =~= "customScoring.black.win"@);
            assert("customScoring.black"@ + ".draw"@ =~= "customScoring.black.draw"@);
            assert(a =~= seq![
                ("customScoring.white.win"@, s.white.win@),
                ("customScoring.white.draw"@, s.white.draw@),
                ("customScoring.black.win"@, s.black.win@),
                ("customScoring.black.draw"@, s.black.draw@),
            ]);
            assert forall|i: int| 0 <= i < a.len() implies (#[trigger] a[i]).0 != "teamCustomScoring.draw"@ by {
                assert(a[i].0 == "customScoring.white.win"@ || a[i].0 == "customScoring.white.draw"@
                    || a[i].0 == "customScoring.black.win"@ || a[i].0 == "customScoring.black.draw"@);
            }
        }
    }
    crate::text::lemma_lacks_then_carries(a, b, "teamCustomScoring.draw"@, match r.team_custom_scoring_of() {
        Some(t) => Some(t.draw@),
        None => None,
    });
}

impl<'a> RoundRequest<'a> {
    /// The client the builder is bound to.
    pub closed spec fn client_of(&self) -> &'a LichessClient {
        self.client
    }

    /// Tournament id when creating, or round id when editing.
    pub closed spec fn target_id_of(&self) -> &'a str {
        self.target_id
    }

    /// Whether this edits an existing round.
    pub closed spec fn edit_of(&self) -> bool {
        self.edit
    }

    /// Whether an edit merges rather than replaces.
    pub closed spec fn patch_of(&self) -> Option<bool> {
        self.patch
    }

    /// The flat form fields.
    pub closed spec fn form_of(&self) -> RoundForm<'a> {
        self.form
    }

    /// The per-color scoring override.
    pub closed spec fn custom_scoring_of(&self) -> Option<BroadcastCustomScoring> {
        self.custom_scoring
    }

    /// The team-match scoring override.
    pub closed spec fn team_custom_scoring_of(&self) -> Option<BroadcastCustomPoints> {
        self.team_custom_scoring
    }

    /// Creates the request builder.
    pub fn new(client: &'a LichessClient, target_id: &'a str, edit: bool, name: &'a str) -> (r: Self)
        ensures
            r.client_of() == client,
            r.target_id_of() == target_id,
            r.edit_of() == edit,
            r.patch_of() == None::<bool>,
            r.form_of() == RoundForm::named(name),
            r.custom_scoring_of() == None::<BroadcastCustomScoring>,
            r.team_custom_scoring_of() == None::<BroadcastCustomPoints>,
    {
        RoundRequest {
            client,
            target_id,
            edit,
            patch: None,
            form: RoundForm {
                name,
                sync_url: None,
                sync_urls: None,
                sync_ids: None,
                sync_users: None,
                only_round: None,
                slices: None,
                sync_source: None,
                starts_at: None,
                starts_after_previous: None,
                delay: None,
                period: None,
                status: None,
                rated: None,
            },
            custom_scoring: None,
            team_custom_scoring: None,
        }
    }

    /// Sets a single source URL to automatically sync games from.
    pub fn sync_url(self, url: &'a str) -> (r: Self)
        ensures
            r.form_of() == (RoundForm { sync_url: Some(url), ..self.form_of() }),
            r.client_of() == self.client_of(),
            r.target_id_of() == self.target_id_of(),
            r.edit_of() == self.edit_of(),
            r.patch_of() == self.patch_of(),
            r.custom_scoring_of() == self.custom_scoring_of(),
            r.team_custom_scoring_of() == self.team_custom_scoring_of(),
    {
        let mut r = self;
        r.form.sync_url = Some(url);
        r
    }

    /// Sets multiple source URLs to sync games from (newline-separated).
    pub fn sync_urls(self, urls: &'a str) -> (r: Self)
        ensures
            r.form_of() == (RoundForm { sync_urls: Some(urls), ..self.form_of() }),
            r.client_of() == self.client_of(),
            r.target_id_of() == self.target_id_of(),
            r.edit_of() == self.edit_of(),
            r.patch_of() == self.patch_of(),
            r.custom_scoring_of() == self.custom_scoring_of(),
            r.team_custom_scoring_of() == self.team_custom_scoring_of(),
    {
        let mut r = self;
        r.form.sync_urls = Some(urls);
        r
    }

    /// Syncs games from these Lichess game ids (space/newline-separated).
    pub fn sync_ids(self, ids: &'a str) -> (r: Self)
        ensures
            r.form_of() == (RoundForm { sync_ids: Some(ids), ..self.form_of() }),
            r.client_of() == self.client_of(),
            r.target_id_of() == self.target_id_of(),
            r.edit_of() == self.edit_of(),
            r.patch_of() == self.patch_of(),
            r.custom_scoring_of() == self.custom_scoring_of(),
            r.team_custom_scoring_of() == self.team_custom_scoring_of(),
    {
        let mut r = self;
        r.form.sync_ids = Some(ids);
        r
    }

    /// Syncs games from these Lichess usernames.
    pub fn sync_users(self, users: &'a str) -> (r: Self)
        ensures
            r.form_of() == (RoundForm { sync_users: Some(users), ..self.form_of() }),
            r.client_of() == self.client_of(),
            r.target_id_of() == self.target_id_of(),
            r.edit_of() == self.edit_of(),
            r.patch_of() == self.patch_of(),
            r.custom_scoring_of() == self.custom_scoring_of(),
            r.team_custom_scoring_of() == self.team_custom_scoring_of(),
    {
        let mut r = self;
        r.form.sync_users = Some(users);
        r
    }

    /// Only import games matching this PGN `Round` tag.
    pub fn only_round(self, round: u32) -> (r: Self)
        ensures
            r.form_of() == (RoundForm { only_round: Some(round), ..self.form_of() }),
            r.client_of() == self.client_of(),
            r.target_id_of() == self.target_id_of(),
            r.edit_of() == self.edit_of(),
            r.patch_of() == self.patch_of(),
            r.custom_scoring_of() == self.custom_scoring_of(),
            r.team_custom_scoring_of() == self.team_custom_scoring_of(),
    {
        let mut r = self;
        r.form.only_round = Some(round);
        r
    }

    /// Selects a subset of games from the source (slice expression).
    pub fn slices(self, slices: &'a str) -> (r: Self)
        ensures
            r.form_of() == (RoundForm { slices: Some(slices), ..self.form_of() }),
            r.client_of() == self.client_of(),
            r.target_id_of() == self.target_id_of(),
            r.edit_of() == self.edit_of(),
            r.patch_of() == self.patch_of(),
            r.custom_scoring_of() == self.custom_scoring_of(),
            r.team_custom_scoring_of() == self.team_custom_scoring_of(),
    {
        let mut r = self;
        r.form.slices = Some(slices);
        r
    }

    /// Sets the sync source.
    pub fn sync_source(self, source: &'a str) -> (r: Self)
        ensures
            r.form_of() == (RoundForm { sync_source: Some(source), ..self.form_of() }),
            r.client_of() == self.client_of(),
            r.target_id_of() == self.target_id_of(),
            r.edit_of() == self.edit_of(),
            r.patch_of() == self.patch_of(),
            r.custom_scoring_of() == self.custom_scoring_of(),
            r.team_custom_scoring_of() == self.team_custom_scoring_of(),
    {
        let mut r = self;
        r.form.sync_source = Some(source);
        r
    }

    /// Sets the round start time (Unix milliseconds).
    pub fn starts_at(self, timestamp: i64) -> (r: Self)
        ensures
            r.form_of() == (RoundForm { starts_at: Some(timestamp), ..self.form_of() }),
            r.client_of() == self.client_of(),
            r.target_id_of() == self.target_id_of(),
            r.edit_of() == self.edit_of(),
            r.patch_of() == self.patch_of(),
            r.custom_scoring_of() == self.custom_scoring_of(),
            r.team_custom_scoring_of() == self.team_custom_scoring_of(),
    {
        let mut r = self;
        r.form.starts_at = Some(timestamp);
        r
    }

    /// Starts the round automatically after the previous one finishes.
    pub fn starts_after_previous(self, value: bool) -> (r: Self)
        ensures
            r.form_of() == (RoundForm { starts_after_previous: Some(value), ..self.form_of() }),
            r.client_of() == self.client_of(),
            r.target_id_of() == self.target_id_of(),
            r.edit_of() == self.edit_of(),
            r.patch_of() == self.patch_of(),
            r.custom_scoring_of() == self.custom_scoring_of(),
            r.team_custom_scoring_of() == self.team_custom_scoring_of(),
    {
        let mut r = self;
        r.form.starts_after_previous = Some(value);
        r
    }

    /// Sets the broadcast delay, in seconds.
    pub fn delay(self, seconds: u32) -> (r: Self)
        ensures
            r.form_of() == (RoundForm { delay: Some(seconds), ..self.form_of() }),
            r.client_of() == self.client_of(),
            r.target_id_of() == self.target_id_of(),
            r.edit_of() == self.edit_of(),
            r.patch_of() == self.patch_of(),
            r.custom_scoring_of() == self.custom_scoring_of(),
            r.team_custom_scoring_of() == self.team_custom_scoring_of(),
    {
        let mut r = self;
        r.form.delay = Some(seconds);
        r
    }

    /// Sets the source polling period, in seconds.
    pub fn period(self, seconds: u32) -> (r: Self)
        ensures
            r.form_of() == (RoundForm { period: Some(seconds), ..self.form_of() }),
            r.client_of() == self.client_of(),
            r.target_id_of() == self.target_id_of(),
            r.edit_of() == self.edit_of(),
            r.patch_of() == self.patch_of(),
            r.custom_scoring_of() == self.custom_scoring_of(),
            r.team_custom_scoring_of() == self.team_custom_scoring_of(),
    {
        let mut r = self;
        r.form.period = Some(seconds);
        r
    }

    /// Sets the round status.
    pub fn status(self, status: &'a str) -> (r: Self)
        ensures
            r.form_of() == (RoundForm { status: Some(status), ..self.form_of() }),
            r.client_of() == self.client_of(),
            r.target_id_of() == self.target_id_of(),
            r.edit_of() == self.edit_of(),
            r.patch_of() == self.patch_of(),
            r.custom_scoring_of() == self.custom_scoring_of(),
            r.team_custom_scoring_of() == self.team_custom_scoring_of(),
    {
        let mut r = self;
        r.form.status = Some(status);
        r
    }

    /// Sets whether the round's games are rated.
    pub fn rated(self, value: bool) -> (r: Self)
        ensures
            r.form_of() == (RoundForm { rated: Some(value), ..self.form_of() }),
            r.client_of() == self.client_of(),
            r.target_id_of() == self.target_id_of(),
            r.edit_of() == self.edit_of(),
            r.patch_of() == self.patch_of(),
            r.custom_scoring_of() == self.custom_scoring_of(),
            r.team_custom_scoring_of() == self.team_custom_scoring_of(),
    {
        let mut r = self;
        r.form.rated = Some(value);
        r
    }

    /// Overrides the points awarded for wins and draws, per color.
    pub fn custom_scoring(self, scoring: BroadcastCustomScoring) -> (r: Self)
        ensures
            r.custom_scoring_of() == Some(scoring),
            r.client_of() == self.client_of(),
            r.target_id_of() == self.target_id_of(),
            r.edit_of() == self.edit_of(),
            r.patch_of() == self.patch_of(),
            r.form_of() == self.form_of(),
            r.team_custom_scoring_of() == self.team_custom_scoring_of(),
    {
        let mut r = self;
        r.custom_scoring = Some(scoring);
        r
    }

    /// Overrides the points awarded for a team-match win or draw.
    pub fn team_custom_scoring(self, scoring: BroadcastCustomPoints) -> (r: Self)
        ensures
            r.team_custom_scoring_of() == Some(scoring),
            r.client_of() == self.client_of(),
            r.target_id_of() == self.target_id_of(),
            r.edit_of() == self.edit_of(),
            r.patch_of() == self.patch_of(),
            r.form_of() == self.form_of(),
            r.custom_scoring_of() == self.custom_scoring_of(),
    {
        let mut r = self;
        r.team_custom_scoring = Some(scoring);
        r
    }

    /// On an edit, merges the given fields rather than replacing the round
    /// (`patch` query param).
    pub fn patch(self, value: bool) -> (r: Self)
        ensures
            r.patch_of() == Some(value),
            r.client_of() == self.client_of(),
            r.target_id_of() == self.target_id_of(),
            r.edit_of() == self.edit_of(),
            r.form_of() == self.form_of(),
            r.custom_scoring_of() == self.custom_scoring_of(),
            r.team_custom_scoring_of() == self.team_custom_scoring_of(),
    {
        let mut r = self;
        r.patch = Some(value);
        r
    }

    /// The nested `customScoring.*` pairs, then the `teamCustomScoring.*` ones.
    pub open spec fn scoring_view(&self) -> Pairs {
        (match self.custom_scoring_of() {
            Some(s) => s.pairs_view(),
            None => seq![],
        }) + (match self.team_custom_scoring_of() {
            Some(t) => t.pairs_view("teamCustomScoring"@),
            None => seq![],
        })
    }

    /// Builds the nested `customScoring.*` / `teamCustomScoring.*` form pairs.
    pub fn scoring_pairs(&self) -> (r: Vec<(String, String)>)
        ensures
            r.deep_view() == self.scoring_view(),
    {
        let mut pairs: Vec<(String, String)> = Vec::new();
        match &self.custom_scoring {
            Some(scoring) => scoring.append_pairs(&mut pairs),
            None => {},
        }
        let ghost mid = pairs.deep_view();
        match &self.team_custom_scoring {
            Some(team) => team.append_pairs("teamCustomScoring", &mut pairs),
            None => {},
        }
        assert(pairs.deep_view() =~= self.scoring_view());
        pairs
    }

    /// The create or edit path for a target.
    pub open spec fn path_view(target_id: &str, edit: bool) -> Seq<char> {
        if edit {
            "/broadcast/round/"@ + crate::text::segment_text(target_id@) + "/edit"@
        } else {
            "/broadcast/"@ + crate::text::segment_text(target_id@) + "/new"@
        }
    }

    /// Creates or updates the round; the form holds the flat fields and then
    /// the scoring overrides.
    pub fn send(self) -> (r: ApiRequest)
        ensures
            r@ == crate::http::bare(
                Method::Post,
                Host::Default,
                Self::path_view(self.target_id_of(), self.edit_of()),
            ).with_query(crate::http::bool_pair("patch"@, self.patch_of())).with_body(
                crate::http::BodyView::Form(self.form_of().pairs_view() + self.scoring_view()),
            ),
    {
        let path = if self.edit {
            crate::http::path1("/broadcast/round/", self.target_id, "/edit")
        } else {
            crate::http::path1("/broadcast/", self.target_id, "/new")
        };
        let mut scoring = self.scoring_pairs();
        let mut form = self.form.pairs();
        let ghost f = form.deep_view();
        form.append(&mut scoring);
        assert(form.deep_view() =~= f + self.scoring_view());
        let mut q: Vec<(String, String)> = Vec::new();
        crate::http::push_opt_bool(&mut q, "patch", self.patch);
        self.client.request(Method::Post, Host::Default, path).query(q).form(form)
    }
}

} // verus!
