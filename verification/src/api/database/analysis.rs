//! The Analysis API: cloud evaluations of positions.
//!
//! Reached through [`LichessClient::analysis`].

use vstd::prelude::*;

use crate::client::LichessClient;
use crate::config::Host;
use crate::http::{ApiRequest, Method};
use crate::model::LichessVariantKey;

verus! {

/// Accessor for the Analysis API.
#[derive(Debug)]
pub struct AnalysisApi<'a> {
    client: &'a LichessClient,
}

impl<'a> AnalysisApi<'a> {
    /// The client the accessor is bound to.
    pub closed spec fn client_of(&self) -> &'a LichessClient {
        self.client
    }

    /// Binds the accessor to a client.
    pub fn new(client: &'a LichessClient) -> (r: Self)
        ensures
            r.client_of() == client,
    {
        AnalysisApi { client }
    }

    /// Starts a request for the cloud evaluation of a position.
    ///
    /// Call [`send`](CloudEvalRequest::send) to execute it.
    /// `GET /api/cloud-eval`
    pub fn cloud_eval(&self, fen: &'a str) -> (r: CloudEvalRequest<'a>)
        ensures
            r.client_of() == self.client_of(),
            r.fen_of() == fen,
            r.multi_pv_of() is None,
            r.variant_of() is None,
    {
        CloudEvalRequest::new(self.client, fen)
    }
}

/// Query parameters for `GET /api/cloud-eval`.
#[derive(Debug, Clone)]
pub struct CloudEvalQuery<'a> {
    /// The position.
    pub fen: &'a str,
    /// The number of variations.
    pub multi_pv: Option<u8>,
    /// The variant.
    pub variant: Option<LichessVariantKey>,
}

/// The pairs of [`CloudEvalQuery`] carry its field under `fen`.
proof fn lemma_cloud_eval_query_fen(q: CloudEvalQuery)
    ensures
        crate::text::carries(q.pairs_view(), "fen"@, Some(q.fen@)),
{
    reveal_strlit("fen");
    reveal_strlit("multiPv");
    reveal_strlit("variant");
    assert("fen"@.len() != "multiPv"@.len());
    assert("fen"@.len() != "variant"@.len());
    let p0 = seq![("fen"@, q.fen@)];
    let p1 = crate::http::nat_pair("multiPv"@, crate::http::opt_u8(q.multi_pv));
    let p2 = crate::http::opt_pair("variant"@, LichessVariantKey::opt_wire(q.variant));
    let s0 = p0;
    let s1 = s0 + p1;
    let s2 = s1 + p2;
    assert(q.pairs_view() == s2);
    let v = Some(q.fen@);
    assert(p0 == crate::text::one_pair("fen"@, v));
    crate::text::lemma_one_pair_carries("fen"@, v);
    crate::text::lemma_extend(s0, p1, "fen"@, v, false);
    crate::text::lemma_extend(s1, p2, "fen"@, v, false);
}

/// The pairs of [`CloudEvalQuery`] carry its field under `multiPv`.
proof fn lemma_cloud_eval_query_multi_pv(q: CloudEvalQuery)
    ensures
        crate::text::carries(q.pairs_view(), "multiPv"@, match q.multi_pv { Some(x) => Some(crate::text::dec_nat(x as nat)), None => None }),
{
    reveal_strlit("fen");
    reveal_strlit("multiPv");
    reveal_strlit("variant");
    assert("multiPv"@.len() != "fen"@.len());
    assert("multiPv"@[0] != "variant"@[0]);
    let p0 = seq![("fen"@, q.fen@)];
    let p1 = crate::http::nat_pair("multiPv"@, crate::http::opt_u8(q.multi_pv));
    let p2 = crate::http::opt_pair("variant"@, LichessVariantKey::opt_wire(q.variant));
    let s0 = p0;
    let s1 = s0 + p1;
    let s2 = s1 + p2;
    assert(q.pairs_view() == s2);
    let v = match q.multi_pv { Some(x) => Some(crate::text::dec_nat(x as nat)), None => None };
    crate::text::lemma_extend(s0, p1, "multiPv"@, v, true);
    crate::text::lemma_extend(s1, p2, "multiPv"@, v, false);
}

/// The pairs of [`CloudEvalQuery`] carry its field under `variant`.
proof fn lemma_cloud_eval_query_variant(q: CloudEvalQuery)
    ensures
        crate::text::carries(q.pairs_view(), "variant"@, LichessVariantKey::opt_wire(q.variant)),
{
    reveal_strlit("fen");
    reveal_strlit("multiPv");
    reveal_strlit("variant");
    assert("variant"@.len() != "fen"@.len());
    assert("variant"@[0] != "multiPv"@[0]);
    let p0 = seq![("fen"@, q.fen@)];
    let p1 = crate::http::nat_pair("multiPv"@, crate::http::opt_u8(q.multi_pv));
    let p2 = crate::http::opt_pair("variant"@, LichessVariantKey::opt_wire(q.variant));
    let s0 = p0;
    let s1 = s0 + p1;
    let s2 = s1 + p2;
    assert(q.pairs_view() == s2);
    let v = LichessVariantKey::opt_wire(q.variant);
    crate::text::lemma_extend(s0, p1, "variant"@, None, false);
    crate::text::lemma_extend(s1, p2, "variant"@, v, true);
}

/// The pairs of [`CloudEvalQuery`] carry each of its fields under that field's own
/// key (`fen`, `multiPv`, `variant`), with the value given to it, and a key only when its field is set.
pub proof fn lemma_cloud_eval_query_carries_fields(q: CloudEvalQuery)
    ensures
        crate::text::carries(q.pairs_view(), "fen"@, Some(q.fen@)),
        crate::text::carries(q.pairs_view(), "multiPv"@, match q.multi_pv { Some(x) => Some(crate::text::dec_nat(x as nat)), None => None }),
        crate::text::carries(q.pairs_view(), "variant"@, LichessVariantKey::opt_wire(q.variant)),
{
    lemma_cloud_eval_query_fen(q);
    lemma_cloud_eval_query_multi_pv(q);
    lemma_cloud_eval_query_variant(q);
}

impl<'a> CloudEvalQuery<'a> {
    /// The query pairs, in order.
    pub open spec fn pairs_view(self) -> crate::text::Pairs {
        seq![("fen"@, self.fen@)]
            + crate::http::nat_pair("multiPv"@, crate::http::opt_u8(self.multi_pv))
            + crate::http::opt_pair("variant"@, LichessVariantKey::opt_wire(self.variant))
    }

    /// The query pairs.
    pub fn pairs(&self) -> (r: Vec<(String, String)>)
        ensures
            r.deep_view() == self.pairs_view(),
    {
        let mut out: Vec<(String, String)> = Vec::new();
        crate::http::push_pair(&mut out, "fen", String::from_str(self.fen));
        crate::http::push_opt_u8(&mut out, "multiPv", self.multi_pv);
        match self.variant {
            Some(x) => crate::http::push_pair(&mut out, "variant", String::from_str(x.as_str())),
            None => {},
        }
        assert(out.deep_view() =~= self.pairs_view());
        out
    }
}

/// Builder for a cloud-evaluation request.
#[derive(Debug)]
pub struct CloudEvalRequest<'a> {
    client: &'a LichessClient,
    fen: &'a str,
    multi_pv: Option<u8>,
    variant: Option<LichessVariantKey>,
}

impl<'a> CloudEvalRequest<'a> {
    /// The client the builder is bound to.
    pub closed spec fn client_of(&self) -> &'a LichessClient {
        self.client
    }

    /// The position.
    pub closed spec fn fen_of(&self) -> &'a str {
        self.fen
    }

    /// The number of variations.
    pub closed spec fn multi_pv_of(&self) -> Option<u8> {
        self.multi_pv
    }

    /// The variant.
    pub closed spec fn variant_of(&self) -> Option<LichessVariantKey> {
        self.variant
    }

    /// Creates the request builder.
    pub fn new(client: &'a LichessClient, fen: &'a str) -> (r: Self)
        ensures
            r.client_of() == client,
            r.fen_of() == fen,
            r.multi_pv_of() == None::<u8>,
            r.variant_of() == None::<LichessVariantKey>,
    {
        CloudEvalRequest { client, fen, multi_pv: None, variant: None }
    }

    /// Sets the number of variations to return (default 1).
    pub fn multi_pv(self, count: u8) -> (r: Self)
        ensures
            r.multi_pv_of() == Some(count),
            r.client_of() == self.client_of(),
            r.fen_of() == self.fen_of(),
            r.variant_of() == self.variant_of(),
    {
        let mut r = self;
        r.multi_pv = Some(count);
        r
    }

    /// Sets the variant of the position.
    pub fn variant(self, variant: LichessVariantKey) -> (r: Self)
        ensures
            r.variant_of() == Some(variant),
            r.client_of() == self.client_of(),
            r.fen_of() == self.fen_of(),
            r.multi_pv_of() == self.multi_pv_of(),
    {
        let mut r = self;
        r.variant = Some(variant);
        r
    }

    /// Executes the request; a position missing from the cloud-evaluation
    /// database is answered with `404`.
    pub fn send(self) -> (r: ApiRequest)
        ensures
            r@ == crate::http::bare(Method::Get, Host::Default, "/api/cloud-eval"@).with_query(
                (
                    CloudEvalQuery {
                        fen: self.fen_of(),
                        multi_pv: self.multi_pv_of(),
                        variant: self.variant_of(),
                    }
                )
                    .pairs_view(),
            ),
    {
        let query = CloudEvalQuery {
            fen: self.fen,
            multi_pv: self.multi_pv,
            variant: self.variant,
        };
        self.client.request(Method::Get, Host::Default, String::from_str("/api/cloud-eval"))
            .query(query.pairs())
    }
}

impl LichessClient {
    /// Analysis API: cloud evaluations of positions.
    pub fn analysis(&self) -> (r: AnalysisApi<'_>)
        ensures
            r.client_of() == self,
    {
        AnalysisApi::new(self)
    }
}

} // verus!
