//! The description of an HTTP request to the Lichess API.
//!
//! Every endpoint of the library is expressed as an [`ApiRequest`]: the
//! method, the host, the path, the `Accept` representation, the query pairs
//! and the body. Building it is pure and verified; sending it and decoding the
//! answer is left to the transport.

use vstd::prelude::*;

use crate::config::Host;
use crate::text;
use crate::text::{push_segment, u64_to_string, i64_to_string, bool_to_string, Pairs};

verus! {

/// An HTTP method.
#[derive(Debug, Clone, Copy, PartialEq, Eq, Structural)]
pub enum Method {
    /// `GET`.
    Get,
    /// `POST`.
    Post,
    /// `PUT`.
    Put,
    /// `DELETE`.
    Delete,
    /// `HEAD`.
    Head,
}

/// The representation asked for with the `Accept` header.
#[derive(Debug, Clone, Copy, PartialEq, Eq, Structural)]
pub enum Accept {
    /// `application/json`.
    Json,
    /// `application/x-ndjson` (one JSON document per line).
    Ndjson,
    /// `application/x-chess-pgn`.
    Pgn,
}

/// The wire text of each [`Accept`], as the API spells it: `Json` is `application/json`,
/// `Ndjson` is `application/x-ndjson`, `Pgn` is `application/x-chess-pgn`.
pub proof fn lemma_accept_wire_texts()
    ensures
        Accept::Json.wire() == seq!['a', 'p', 'p', 'l', 'i', 'c', 'a', 't', 'i', 'o', 'n', '/', 'j', 's', 'o', 'n'],
        Accept::Ndjson.wire() == seq!['a', 'p', 'p', 'l', 'i', 'c', 'a', 't', 'i', 'o', 'n', '/', 'x', '-', 'n', 'd', 'j', 's', 'o', 'n'],
        Accept::Pgn.wire() == seq!['a', 'p', 'p', 'l', 'i', 'c', 'a', 't', 'i', 'o', 'n', '/', 'x', '-', 'c', 'h', 'e', 's', 's', '-', 'p', 'g', 'n'],
{
    reveal_strlit("application/json");
    reveal_strlit("application/x-chess-pgn");
    reveal_strlit("application/x-ndjson");
    assert(Accept::Json.wire() =~= seq!['a', 'p', 'p', 'l', 'i', 'c', 'a', 't', 'i', 'o', 'n', '/', 'j', 's', 'o', 'n']);
    assert(Accept::Ndjson.wire() =~= seq!['a', 'p', 'p', 'l', 'i', 'c', 'a', 't', 'i', 'o', 'n', '/', 'x', '-', 'n', 'd', 'j', 's', 'o', 'n']);
    assert(Accept::Pgn.wire() =~= seq!['a', 'p', 'p', 'l', 'i', 'c', 'a', 't', 'i', 'o', 'n', '/', 'x', '-', 'c', 'h', 'e', 's', 's', '-', 'p', 'g', 'n']);
}

impl Accept {
    /// The header value, e.g. `"application/x-ndjson"`.
    pub fn as_str(self) -> (r: &'static str)
        ensures
            r@ == self.wire(),
    {
        match self {
            Accept::Json => "application/json",
            Accept::Ndjson => "application/x-ndjson",
            Accept::Pgn => "application/x-chess-pgn",
        }
    }

    /// The header value of each representation.
    pub open spec fn wire(self) -> Seq<char> {
        match self {
            Accept::Json => "application/json"@,
            Accept::Ndjson => "application/x-ndjson"@,
            Accept::Pgn => "application/x-chess-pgn"@,
        }
    }
}

/// The body of a JSON request, kept as values and serialized by the transport.
#[derive(Debug, Clone)]
pub enum JsonPayload {
    /// `{"providerSecret": ...}`.
    ProviderSecret(String),
    /// `{"clientSecret": ..., "work": ...}`, the work given as JSON text.
    EngineAnalysis {
        /// The engine's client secret.
        client_secret: String,
        /// The analysis request, as JSON text.
        work: String,
    },
    /// `{"solutions": [{"id": ..., "win": ..., "rated": ...}, ...]}`.
    PuzzleSolutions(Vec<crate::api::training::puzzles::LichessPuzzleSolution>),
    /// An external-engine registration, in camel case.
    EngineRegistration(crate::api::engine::external_engine::LichessExternalEngineRegistration),
}

/// A JSON body, by value.
pub enum JsonView {
    /// `{"providerSecret": ...}`.
    ProviderSecret(Seq<char>),
    /// `{"clientSecret": ..., "work": ...}`.
    EngineAnalysis {
        /// The engine's client secret.
        client_secret: Seq<char>,
        /// The analysis request, as JSON text.
        work: Seq<char>,
    },
    /// `{"solutions": [...]}`, each solution as its id, outcome and rating flag.
    PuzzleSolutions(Seq<(Seq<char>, bool, Option<bool>)>),
    /// An external-engine registration.
    EngineRegistration {
        /// The engine's display name.
        name: Seq<char>,
        /// Maximum number of threads.
        max_threads: u32,
        /// Maximum hash table size, in MiB.
        max_hash: u32,
        /// The provider's secret.
        provider_secret: Seq<char>,
        /// The default search depth.
        default_depth: Option<u32>,
        /// Supported variants.
        variants: Seq<Seq<char>>,
        /// Arbitrary data for the provider.
        provider_data: Option<Seq<char>>,
    },
}

impl JsonPayload {
    /// The payload by value.
    pub open spec fn view(self) -> JsonView {
        match self {
            JsonPayload::ProviderSecret(s) => JsonView::ProviderSecret(s@),
            JsonPayload::EngineAnalysis { client_secret, work } => JsonView::EngineAnalysis {
                client_secret: client_secret@,
                work: work@,
            },
            JsonPayload::PuzzleSolutions(list) => JsonView::PuzzleSolutions(
                crate::api::training::puzzles::solution_views(list@),
            ),
            JsonPayload::EngineRegistration(r) => crate::api::engine::external_engine::registration_view(r),
        }
    }
}

/// The body of a request.
#[derive(Debug, Clone)]
pub enum Body {
    /// No body.
    Empty,
    /// An `application/x-www-form-urlencoded` form, as ordered key/value pairs.
    Form(Vec<(String, String)>),
    /// A `text/plain` body.
    Text(String),
    /// An `application/json` body.
    Json(JsonPayload),
}

/// The body of a request, by value.
pub enum BodyView {
    /// No body.
    Empty,
    /// A form, as ordered key/value pairs.
    Form(Pairs),
    /// A plain-text body.
    Text(Seq<char>),
    /// A JSON body.
    Json(JsonView),
}

impl Body {
    /// The body by value.
    pub open spec fn view(self) -> BodyView {
        match self {
            Body::Empty => BodyView::Empty,
            Body::Form(pairs) => BodyView::Form(pairs.deep_view()),
            Body::Text(text) => BodyView::Text(text@),
            Body::Json(payload) => BodyView::Json(payload.view()),
        }
    }
}

/// A request to the Lichess API, ready to be sent.
#[derive(Debug, Clone)]
pub struct ApiRequest {
    /// The HTTP method.
    pub method: Method,
    /// The host that serves the endpoint.
    pub host: Host,
    /// The path, with every caller-supplied segment already encoded.
    pub path: String,
    /// The representation to ask for, if any.
    pub accept: Option<Accept>,
    /// The query parameters, in order, not yet URL-encoded.
    pub query: Vec<(String, String)>,
    /// The body.
    pub body: Body,
}

/// A request, by value.
pub struct ApiRequestView {
    /// The HTTP method.
    pub method: Method,
    /// The host.
    pub host: Host,
    /// The path.
    pub path: Seq<char>,
    /// The `Accept` representation.
    pub accept: Option<Accept>,
    /// The query pairs.
    pub query: Pairs,
    /// The body.
    pub body: BodyView,
}

impl View for ApiRequest {
    type V = ApiRequestView;

    open spec fn view(&self) -> ApiRequestView {
        ApiRequestView {
            method: self.method,
            host: self.host,
            path: self.path@,
            accept: self.accept,
            query: self.query.deep_view(),
            body: self.body.view(),
        }
    }
}

/// A bare request: no `Accept`, no query, no body.
pub open spec fn bare(method: Method, host: Host, path: Seq<char>) -> ApiRequestView {
    ApiRequestView { method, host, path, accept: None, query: seq![], body: BodyView::Empty }
}

/// A request starts with exactly its method, host and path, no `Accept`, no
/// query and no body; asking for a representation sets only the `Accept`;
/// adding query pairs appends them after the earlier ones and changes nothing
/// else; giving a body sets only the body.
pub proof fn lemma_request_building(
    method: Method,
    host: Host,
    path: Seq<char>,
    r: ApiRequestView,
    accept: Accept,
    pairs: Pairs,
    body: BodyView,
)
    ensures
        bare(method, host, path).method == method,
        bare(method, host, path).host == host,
        bare(method, host, path).path == path,
        bare(method, host, path).accept is None,
        bare(method, host, path).query.len() == 0,
        bare(method, host, path).body is Empty,
        r.with_accept(accept).accept == Some(accept),
        r.with_accept(accept) == (ApiRequestView { accept: r.with_accept(accept).accept, ..r }),
        r.with_query(pairs).query.len() == r.query.len() + pairs.len(),
        forall|i: int| 0 <= i < r.query.len() ==> #[trigger] r.with_query(pairs).query[i] == r.query[i],
        forall|i: int| 0 <= i < pairs.len() ==> r.with_query(pairs).query[r.query.len() + i] == #[trigger] pairs[i],
        r.with_query(pairs) == (ApiRequestView { query: r.with_query(pairs).query, ..r }),
        r.with_body(body).body == body,
        r.with_body(body) == (ApiRequestView { body: r.with_body(body).body, ..r }),
{
}

impl ApiRequestView {
    /// The same request asking for `accept`.
    pub open spec fn with_accept(self, accept: Accept) -> ApiRequestView {
        ApiRequestView { accept: Some(accept), ..self }
    }

    /// The same request with `pairs` appended to the query.
    pub open spec fn with_query(self, pairs: Pairs) -> ApiRequestView {
        ApiRequestView { query: self.query + pairs, ..self }
    }

    /// The same request with `body`.
    pub open spec fn with_body(self, body: BodyView) -> ApiRequestView {
        ApiRequestView { body, ..self }
    }
}

impl ApiRequest {
    /// Starts a request with no `Accept`, no query and no body.
    pub fn new(method: Method, host: Host, path: String) -> (r: ApiRequest)
        ensures
            r@ == bare(method, host, path@),
    {
        let r = ApiRequest {
            method,
            host,
            path,
            accept: None,
            query: Vec::new(),
            body: Body::Empty,
        };
        assert(r.query.deep_view() =~= Seq::<(Seq<char>, Seq<char>)>::empty());
        r
    }

    /// Asks for the given representation.
    pub fn accept(self, accept: Accept) -> (r: ApiRequest)
        ensures
            r@ == self@.with_accept(accept),
    {
        ApiRequest { accept: Some(accept), ..self }
    }

    /// Appends query pairs.
    pub fn query(self, pairs: Vec<(String, String)>) -> (r: ApiRequest)
        ensures
            r@ == self@.with_query(pairs.deep_view()),
    {
        let mut r = self;
        let mut q = r.query;
        let mut extra = pairs;
        q.append(&mut extra);
        assert(q.deep_view() =~= self.query.deep_view() + pairs.deep_view());
        ApiRequest { query: q, ..r }
    }

    /// Sets a form body.
    pub fn form(self, pairs: Vec<(String, String)>) -> (r: ApiRequest)
        ensures
            r@ == self@.with_body(BodyView::Form(pairs.deep_view())),
    {
        ApiRequest { body: Body::Form(pairs), ..self }
    }

    /// Sets a plain-text body.
    pub fn text_body(self, text: String) -> (r: ApiRequest)
        ensures
            r@ == self@.with_body(BodyView::Text(text@)),
    {
        ApiRequest { body: Body::Text(text), ..self }
    }

    /// Sets a JSON body.
    pub fn json(self, payload: JsonPayload) -> (r: ApiRequest)
        ensures
            r@ == self@.with_body(BodyView::Json(payload.view())),
    {
        ApiRequest { body: Body::Json(payload), ..self }
    }
}

/// One pair when the value is present, none otherwise.
pub open spec fn opt_pair(key: Seq<char>, value: Option<Seq<char>>) -> Pairs {
    match value {
        Some(v) => seq![(key, v)],
        None => seq![],
    }
}

/// The view of an optional owned string.
pub open spec fn opt_text(o: Option<String>) -> Option<Seq<char>> {
    match o {
        Some(s) => Some(s@),
        None => None,
    }
}

/// The pair for an optional string value.
pub open spec fn str_pair(key: Seq<char>, value: Option<&str>) -> Pairs {
    match value {
        Some(v) => seq![(key, v@)],
        None => seq![],
    }
}

/// The pair for an optional unsigned value, in decimal.
pub open spec fn nat_pair(key: Seq<char>, value: Option<nat>) -> Pairs {
    match value {
        Some(v) => seq![(key, text::dec_nat(v))],
        None => seq![],
    }
}

/// The pair for an optional signed value, in decimal.
pub open spec fn int_pair(key: Seq<char>, value: Option<int>) -> Pairs {
    match value {
        Some(v) => seq![(key, text::dec_int(v))],
        None => seq![],
    }
}

/// The pair for an optional boolean, as `true`/`false`.
pub open spec fn bool_pair(key: Seq<char>, value: Option<bool>) -> Pairs {
    match value {
        Some(v) => seq![(key, text::bool_text(v))],
        None => seq![],
    }
}

/// An optional `u32` as a mathematical natural.
pub open spec fn opt_u32(v: Option<u32>) -> Option<nat> {
    match v {
        Some(x) => Some(x as nat),
        None => None,
    }
}

/// An optional `u16` as a mathematical natural.
pub open spec fn opt_u16(v: Option<u16>) -> Option<nat> {
    match v {
        Some(x) => Some(x as nat),
        None => None,
    }
}

/// An optional `u8` as a mathematical natural.
pub open spec fn opt_u8(v: Option<u8>) -> Option<nat> {
    match v {
        Some(x) => Some(x as nat),
        None => None,
    }
}

/// An optional `i64` as a mathematical integer.
pub open spec fn opt_i64(v: Option<i64>) -> Option<int> {
    match v {
        Some(x) => Some(x as int),
        None => None,
    }
}

/// Appends a pair.
pub fn push_pair(out: &mut Vec<(String, String)>, key: &str, value: String)
    ensures
        final(out).deep_view() == old(out).deep_view().push((key@, value@)),
{
    out.push((String::from_str(key), value));
    assert(out.deep_view() =~= old(out).deep_view().push((key@, value@)));
}

/// Appends the pair for an optional string value.
pub fn push_opt_str(out: &mut Vec<(String, String)>, key: &str, value: Option<&str>)
    ensures
        final(out).deep_view() == old(out).deep_view() + str_pair(key@, value),
{
    match value {
        Some(v) => push_pair(out, key, String::from_str(v)),
        None => {},
    }
    assert(out.deep_view() =~= old(out).deep_view() + str_pair(key@, value));
}

/// Appends the pair for an optional owned string.
pub fn push_opt_string(out: &mut Vec<(String, String)>, key: &str, value: &Option<String>)
    ensures
        final(out).deep_view() == old(out).deep_view() + opt_pair(key@, opt_text(*value)),
{
    match value {
        Some(v) => push_pair(out, key, v.clone()),
        None => {},
    }
    assert(out.deep_view() =~= old(out).deep_view() + opt_pair(key@, opt_text(*value)));
}

/// The key of the `i`-th element of an indexed form array: `prefix[i]`.
pub open spec fn indexed_key(prefix: Seq<char>, i: nat) -> Seq<char> {
    prefix + "["@ + text::dec_nat(i) + "]"@
}

/// The pairs of an indexed form array: `prefix[0]=v0`, `prefix[1]=v1`, ...
pub open spec fn indexed_pairs(prefix: Seq<char>, values: Seq<Seq<char>>) -> Pairs {
    Seq::new(values.len(), |i: int| (indexed_key(prefix, i as nat), values[i]))
}

/// Appends the pairs of an indexed form array, one per value, in order.
pub fn push_indexed(out: &mut Vec<(String, String)>, prefix: &str, values: &Vec<&str>)
    ensures
        final(out).deep_view() == old(out).deep_view()
            + indexed_pairs(prefix@, text::str_views(values@)),
{
    let ghost start = out.deep_view();
    let ghost views = text::str_views(values@);
    let mut i: usize = 0;
    while i < values.len()
        invariant
            i <= values@.len(),
            views == text::str_views(values@),
            out.deep_view() =~= start + indexed_pairs(prefix@, views.take(i as int)),
        decreases values@.len() - i,
    {
        let mut key = String::from_str(prefix);
        text::push_char(&mut key, '[');
        let n = text::u64_to_string(i as u64);
        key.append(n.as_str());
        text::push_char(&mut key, ']');
        proof {
            reveal_strlit("[");
            reveal_strlit("]");
            assert(key@ =~= indexed_key(prefix@, i as nat));
        }
        push_pair(out, key.as_str(), String::from_str(values[i]));
        proof {
            assert(indexed_pairs(prefix@, views.take(i + 1)) =~= indexed_pairs(prefix@, views.take(i as int)).push(
                (indexed_key(prefix@, i as nat), views[i as int]),
            ));
        }
        i = i + 1;
    }
    assert(views.take(values@.len() as int) =~= views);
}

/// Appends the pair for an optional `u32`.
pub fn push_opt_u32(out: &mut Vec<(String, String)>, key: &str, value: Option<u32>)
    ensures
        final(out).deep_view() == old(out).deep_view() + nat_pair(key@, opt_u32(value)),
{
    match value {
        Some(v) => push_pair(out, key, u64_to_string(v as u64)),
        None => {},
    }
    assert(out.deep_view() =~= old(out).deep_view() + nat_pair(key@, opt_u32(value)));
}

/// Appends the pair for an optional `u16`.
pub fn push_opt_u16(out: &mut Vec<(String, String)>, key: &str, value: Option<u16>)
    ensures
        final(out).deep_view() == old(out).deep_view() + nat_pair(key@, opt_u16(value)),
{
    match value {
        Some(v) => push_pair(out, key, u64_to_string(v as u64)),
        None => {},
    }
    assert(out.deep_view() =~= old(out).deep_view() + nat_pair(key@, opt_u16(value)));
}

/// Appends the pair for an optional `u8`.
pub fn push_opt_u8(out: &mut Vec<(String, String)>, key: &str, value: Option<u8>)
    ensures
        final(out).deep_view() == old(out).deep_view() + nat_pair(key@, opt_u8(value)),
{
    match value {
        Some(v) => push_pair(out, key, u64_to_string(v as u64)),
        None => {},
    }
    assert(out.deep_view() =~= old(out).deep_view() + nat_pair(key@, opt_u8(value)));
}

/// Appends the pair for an optional `i64`.
pub fn push_opt_i64(out: &mut Vec<(String, String)>, key: &str, value: Option<i64>)
    ensures
        final(out).deep_view() == old(out).deep_view() + int_pair(key@, opt_i64(value)),
{
    match value {
        Some(v) => push_pair(out, key, i64_to_string(v)),
        None => {},
    }
    assert(out.deep_view() =~= old(out).deep_view() + int_pair(key@, opt_i64(value)));
}

/// Appends the pair for an optional boolean.
pub fn push_opt_bool(out: &mut Vec<(String, String)>, key: &str, value: Option<bool>)
    ensures
        final(out).deep_view() == old(out).deep_view() + bool_pair(key@, value),
{
    match value {
        Some(v) => push_pair(out, key, bool_to_string(v)),
        None => {},
    }
    assert(out.deep_view() =~= old(out).deep_view() + bool_pair(key@, value));
}

/// `prefix`, then `seg` percent-encoded, then `suffix`.
pub fn path1(prefix: &str, seg: &str, suffix: &str) -> (r: String)
    ensures
        r@ == prefix@ + text::segment_text(seg@) + suffix@,
{
    let mut s = String::from_str(prefix);
    push_segment(&mut s, seg);
    s.append(suffix);
    s
}

/// `prefix`, `seg1` encoded, `middle`, `seg2` encoded, then `suffix`.
pub fn path2(prefix: &str, seg1: &str, middle: &str, seg2: &str, suffix: &str) -> (r: String)
    ensures
        r@ == prefix@ + text::segment_text(seg1@) + middle@ + text::segment_text(seg2@) + suffix@,
{
    let mut s = String::from_str(prefix);
    push_segment(&mut s, seg1);
    s.append(middle);
    push_segment(&mut s, seg2);
    s.append(suffix);
    s
}

/// `prefix`, then `raw` as given, then `suffix`.
pub fn path1_raw(prefix: &str, raw: &str, suffix: &str) -> (r: String)
    ensures
        r@ == prefix@ + raw@ + suffix@,
{
    let mut s = String::from_str(prefix);
    s.append(raw);
    s.append(suffix);
    s
}

/// A fixed path.
pub fn fixed(path: &str) -> (r: String)
    ensures
        r@ == path@,
{
    String::from_str(path)
}

} // verus!
