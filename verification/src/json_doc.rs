//! The fields of a JSON request body: which keys a payload sends, with which
//! values, and which optional ones it leaves out. The transport only writes
//! these fields out as a JSON object.

use vstd::prelude::*;

use crate::api::engine::external_engine::{copy_strings, LichessExternalEngineRegistration};
use crate::api::training::puzzles::LichessPuzzleSolution;
use crate::http::{JsonPayload, JsonView};

verus! {

/// A JSON scalar.
#[derive(Debug, Clone)]
pub enum JsonScalar {
    /// A string.
    Text(String),
    /// A non-negative integer.
    Number(u64),
    /// A boolean.
    Bool(bool),
}

/// A JSON scalar, by value.
pub enum ScalarView {
    Text(Seq<char>),
    Number(u64),
    Bool(bool),
}

impl View for JsonScalar {
    type V = ScalarView;

    open spec fn view(&self) -> ScalarView {
        match self {
            JsonScalar::Text(t) => ScalarView::Text(t@),
            JsonScalar::Number(n) => ScalarView::Number(*n),
            JsonScalar::Bool(b) => ScalarView::Bool(*b),
        }
    }
}

/// The value of a field of a JSON body.
#[derive(Debug, Clone)]
pub enum JsonValue {
    /// A string.
    Text(String),
    /// A non-negative integer.
    Number(u64),
    /// A list of strings.
    Texts(Vec<String>),
    /// A JSON document given as text, embedded as it is.
    Raw(String),
    /// A list of objects, each as its fields in order.
    Objects(Vec<Vec<(String, JsonScalar)>>),
}

/// The value of a field, by value.
pub enum ValueView {
    Text(Seq<char>),
    Number(u64),
    Texts(Seq<Seq<char>>),
    Raw(Seq<char>),
    Objects(Seq<Seq<(Seq<char>, ScalarView)>>),
}

/// The fields of an object, by value.
pub open spec fn entries_view(entries: Seq<(String, JsonScalar)>) -> Seq<(Seq<char>, ScalarView)> {
    entries.map_values(|e: (String, JsonScalar)| (e.0@, e.1@))
}

impl View for JsonValue {
    type V = ValueView;

    open spec fn view(&self) -> ValueView {
        match self {
            JsonValue::Text(t) => ValueView::Text(t@),
            JsonValue::Number(n) => ValueView::Number(*n),
            JsonValue::Texts(list) => ValueView::Texts(list@.map_values(|s: String| s@)),
            JsonValue::Raw(t) => ValueView::Raw(t@),
            JsonValue::Objects(list) => ValueView::Objects(
                list@.map_values(|o: Vec<(String, JsonScalar)>| entries_view(o@)),
            ),
        }
    }
}

/// The fields of a body, by value.
pub open spec fn fields_view(fields: Seq<(String, JsonValue)>) -> Seq<(Seq<char>, ValueView)> {
    fields.map_values(|f: (String, JsonValue)| (f.0@, f.1@))
}

/// The object of one puzzle solution: its id and outcome, and the rating flag
/// only when it is set.
pub open spec fn solution_object(s: (Seq<char>, bool, Option<bool>)) -> Seq<(Seq<char>, ScalarView)> {
    seq![("id"@, ScalarView::Text(s.0)), ("win"@, ScalarView::Bool(s.1))] + match s.2 {
        Some(r) => seq![("rated"@, ScalarView::Bool(r))],
        None => Seq::empty(),
    }
}

/// The fields that a body sends, in order. A registration leaves out an
/// unset depth, an empty variant list and unset provider data; a solution
/// leaves out an unset rating flag.
pub open spec fn payload_fields(body: JsonView) -> Seq<(Seq<char>, ValueView)> {
    match body {
        JsonView::ProviderSecret(s) => seq![("providerSecret"@, ValueView::Text(s))],
        JsonView::EngineAnalysis { client_secret, work } => seq![
            ("clientSecret"@, ValueView::Text(client_secret)),
            ("work"@, ValueView::Raw(work)),
        ],
        JsonView::PuzzleSolutions(list) => seq![
            ("solutions"@, ValueView::Objects(list.map_values(|s: (Seq<char>, bool, Option<bool>)| solution_object(s)))),
        ],
        JsonView::EngineRegistration {
            name,
            max_threads,
            max_hash,
            provider_secret,
            default_depth,
            variants,
            provider_data,
        } => seq![
            ("name"@, ValueView::Text(name)),
            ("maxThreads"@, ValueView::Number(max_threads as u64)),
            ("maxHash"@, ValueView::Number(max_hash as u64)),
            ("providerSecret"@, ValueView::Text(provider_secret)),
        ] + match default_depth {
            Some(d) => seq![("defaultDepth"@, ValueView::Number(d as u64))],
            None => Seq::empty(),
        } + if variants.len() > 0 {
            seq![("variants"@, ValueView::Texts(variants))]
        } else {
            Seq::empty()
        } + match provider_data {
            Some(p) => seq![("providerData"@, ValueView::Text(p))],
            None => Seq::empty(),
        },
    }
}

proof fn lemma_registration_fields_name(r: LichessExternalEngineRegistration)
    ensures
        crate::text::carries(payload_fields(crate::api::engine::external_engine::registration_view(r)), "name"@, Some(ValueView::Text(r.name@))),
{
    reveal_strlit("defaultDepth");
    reveal_strlit("maxHash");
    reveal_strlit("maxThreads");
    reveal_strlit("name");
    reveal_strlit("providerData");
    reveal_strlit("providerSecret");
    reveal_strlit("variants");
    assert("name"@.len() != "defaultDepth"@.len());
    assert("name"@.len() != "maxHash"@.len());
    assert("name"@.len() != "maxThreads"@.len());
    assert("name"@.len() != "providerData"@.len());
    assert("name"@.len() != "providerSecret"@.len());
    assert("name"@.len() != "variants"@.len());
    let p0 = seq![("name"@, ValueView::Text(r.name@))];
    let p1 = seq![("maxThreads"@, ValueView::Number(r.max_threads as u64))];
    let p2 = seq![("maxHash"@, ValueView::Number(r.max_hash as u64))];
    let p3 = seq![("providerSecret"@, ValueView::Text(r.provider_secret.inner()@))];
    let p4 = crate::text::one_pair("defaultDepth"@, match r.default_depth { Some(d) => Some(ValueView::Number(d as u64)), None => None });
    let p5 = crate::text::one_pair("variants"@, if r.variants@.len() > 0 { Some(ValueView::Texts(r.variants@.map_values(|v: String| v@))) } else { None });
    let p6 = crate::text::one_pair("providerData"@, match r.provider_data { Some(d) => Some(ValueView::Text(d@)), None => None });
    let s0 = p0;
    let s1 = s0 + p1;
    let s2 = s1 + p2;
    let s3 = s2 + p3;
    let s4 = s3 + p4;
    let s5 = s4 + p5;
    let s6 = s5 + p6;
    assert(payload_fields(crate::api::engine::external_engine::registration_view(r)) =~= s6);
    let v = Some(ValueView::Text(r.name@));
    assert(p0 == crate::text::one_pair("name"@, v));
    crate::text::lemma_one_pair_carries("name"@, v);
    crate::text::lemma_extend(s0, p1, "name"@, v, false);
    crate::text::lemma_extend(s1, p2, "name"@, v, false);
    crate::text::lemma_extend(s2, p3, "name"@, v, false);
    crate::text::lemma_extend(s3, p4, "name"@, v, false);
    crate::text::lemma_extend(s4, p5, "name"@, v, false);
    crate::text::lemma_extend(s5, p6, "name"@, v, false);
}

proof fn lemma_registration_fields_max_threads(r: LichessExternalEngineRegistration)
    ensures
        crate::text::carries(payload_fields(crate::api::engine::external_engine::registration_view(r)), "maxThreads"@, Some(ValueView::Number(r.max_threads as u64))),
{
    reveal_strlit("defaultDepth");
    reveal_strlit("maxHash");
    reveal_strlit("maxThreads");
    reveal_strlit("name");
    reveal_strlit("providerData");
    reveal_strlit("providerSecret");
    reveal_strlit("variants");
    assert("maxThreads"@.len() != "defaultDepth"@.len());
    assert("maxThreads"@.len() != "maxHash"@.len());
    assert("maxThreads"@.len() != "name"@.len());
    assert("maxThreads"@.len() != "providerData"@.len());
    assert("maxThreads"@.len() != "providerSecret"@.len());
    assert("maxThreads"@.len() != "variants"@.len());
    let p0 = seq![("name"@, ValueView::Text(r.name@))];
    let p1 = seq![("maxThreads"@, ValueView::Number(r.max_threads as u64))];
    let p2 = seq![("maxHash"@, ValueView::Number(r.max_hash as u64))];
    let p3 = seq![("providerSecret"@, ValueView::Text(r.provider_secret.inner()@))];
    let p4 = crate::text::one_pair("defaultDepth"@, match r.default_depth { Some(d) => Some(ValueView::Number(d as u64)), None => None });
    let p5 = crate::text::one_pair("variants"@, if r.variants@.len() > 0 { Some(ValueView::Texts(r.variants@.map_values(|v: String| v@))) } else { None });
    let p6 = crate::text::one_pair("providerData"@, match r.provider_data { Some(d) => Some(ValueView::Text(d@)), None => None });
    let s0 = p0;
    let s1 = s0 + p1;
    let s2 = s1 + p2;
    let s3 = s2 + p3;
    let s4 = s3 + p4;
    let s5 = s4 + p5;
    let s6 = s5 + p6;
    assert(payload_fields(crate::api::engine::external_engine::registration_view(r)) =~= s6);
    let v = Some(ValueView::Number(r.max_threads as u64));
    crate::text::lemma_extend(s0, p1, "maxThreads"@, v, true);
    crate::text::lemma_extend(s1, p2, "maxThreads"@, v, false);
    crate::text::lemma_extend(s2, p3, "maxThreads"@, v, false);
    crate::text::lemma_extend(s3, p4, "maxThreads"@, v, false);
    crate::text::lemma_extend(s4, p5, "maxThreads"@, v, false);
    crate::text::lemma_extend(s5, p6, "maxThreads"@, v, false);
}

proof fn lemma_registration_fields_max_hash(r: LichessExternalEngineRegistration)
    ensures
        crate::text::carries(payload_fields(crate::api::engine::external_engine::registration_view(r)), "maxHash"@, Some(ValueView::Number(r.max_hash as u64))),
{
    reveal_strlit("defaultDepth");
    reveal_strlit("maxHash");
    reveal_strlit("maxThreads");
    reveal_strlit("name");
    reveal_strlit("providerData");
    reveal_strlit("providerSecret");
    reveal_strlit("variants");
    assert("maxHash"@.len() != "defaultDepth"@.len());
    assert("maxHash"@.len() != "maxThreads"@.len());
    assert("maxHash"@.len() != "name"@.len());
    assert("maxHash"@.len() != "providerData"@.len());
    assert("maxHash"@.len() != "providerSecret"@.len());
    assert("maxHash"@.len() != "variants"@.len());
    let p0 = seq![("name"@, ValueView::Text(r.name@))];
    let p1 = seq![("maxThreads"@, ValueView::Number(r.max_threads as u64))];
    let p2 = seq![("maxHash"@, ValueView::Number(r.max_hash as u64))];
    let p3 = seq![("providerSecret"@, ValueView::Text(r.provider_secret.inner()@))];
    let p4 = crate::text::one_pair("defaultDepth"@, match r.default_depth { Some(d) => Some(ValueView::Number(d as u64)), None => None });
    let p5 = crate::text::one_pair("variants"@, if r.variants@.len() > 0 { Some(ValueView::Texts(r.variants@.map_values(|v: String| v@))) } else { None });
    let p6 = crate::text::one_pair("providerData"@, match r.provider_data { Some(d) => Some(ValueView::Text(d@)), None => None });
    let s0 = p0;
    let s1 = s0 + p1;
    let s2 = s1 + p2;
    let s3 = s2 + p3;
    let s4 = s3 + p4;
    let s5 = s4 + p5;
    let s6 = s5 + p6;
    assert(payload_fields(crate::api::engine::external_engine::registration_view(r)) =~= s6);
    let v = Some(ValueView::Number(r.max_hash as u64));
    crate::text::lemma_extend(s0, p1, "maxHash"@, None, false);
    crate::text::lemma_extend(s1, p2, "maxHash"@, v, true);
    crate::text::lemma_extend(s2, p3, "maxHash"@, v, false);
    crate::text::lemma_extend(s3, p4, "maxHash"@, v, false);
    crate::text::lemma_extend(s4, p5, "maxHash"@, v, false);
    crate::text::lemma_extend(s5, p6, "maxHash"@, v, false);
}

proof fn lemma_registration_fields_provider_secret(r: LichessExternalEngineRegistration)
    ensures
        crate::text::carries(payload_fields(crate::api::engine::external_engine::registration_view(r)), "providerSecret"@, Some(ValueView::Text(r.provider_secret.inner()@))),
{
    reveal_strlit("defaultDepth");
    reveal_strlit("maxHash");
    reveal_strlit("maxThreads");
    reveal_strlit("name");
    reveal_strlit("providerData");
    reveal_strlit("providerSecret");
    reveal_strlit("variants");
    assert("providerSecret"@.len() != "defaultDepth"@.len());
    assert("providerSecret"@.len() != "maxHash"@.len());
    assert("providerSecret"@.len() != "maxThreads"@.len());
    assert("providerSecret"@.len() != "name"@.len());
    assert("providerSecret"@.len() != "providerData"@.len());
    assert("providerSecret"@.len() != "variants"@.len());
    let p0 = seq![("name"@, ValueView::Text(r.name@))];
    let p1 = seq![("maxThreads"@, ValueView::Number(r.max_threads as u64))];
    let p2 = seq![("maxHash"@, ValueView::Number(r.max_hash as u64))];
    let p3 = seq![("providerSecret"@, ValueView::Text(r.provider_secret.inner()@))];
    let p4 = crate::text::one_pair("defaultDepth"@, match r.default_depth { Some(d) => Some(ValueView::Number(d as u64)), None => None });
    let p5 = crate::text::one_pair("variants"@, if r.variants@.len() > 0 { Some(ValueView::Texts(r.variants@.map_values(|v: String| v@))) } else { None });
    let p6 = crate::text::one_pair("providerData"@, match r.provider_data { Some(d) => Some(ValueView::Text(d@)), None => None });
    let s0 = p0;
    let s1 = s0 + p1;
    let s2 = s1 + p2;
    let s3 = s2 + p3;
    let s4 = s3 + p4;
    let s5 = s4 + p5;
    let s6 = s5 + p6;
    assert(payload_fields(crate::api::engine::external_engine::registration_view(r)) =~= s6);
    let v = Some(ValueView::Text(r.provider_secret.inner()@));
    crate::text::lemma_extend(s0, p1, "providerSecret"@, None, false);
    crate::text::lemma_extend(s1, p2, "providerSecret"@, None, false);
    crate::text::lemma_extend(s2, p3, "providerSecret"@, v, true);
    crate::text::lemma_extend(s3, p4, "providerSecret"@, v, false);
    crate::text::lemma_extend(s4, p5, "providerSecret"@, v, false);
    crate::text::lemma_extend(s5, p6, "providerSecret"@, v, false);
}

proof fn lemma_registration_fields_default_depth(r: LichessExternalEngineRegistration)
    ensures
        crate::text::carries(payload_fields(crate::api::engine::external_engine::registration_view(r)), "defaultDepth"@, match r.default_depth { Some(d) => Some(ValueView::Number(d as u64)), None => None }),
{
    reveal_strlit("defaultDepth");
    reveal_strlit("maxHash");
    reveal_strlit("maxThreads");
    reveal_strlit("name");
    reveal_strlit("providerData");
    reveal_strlit("providerSecret");
    reveal_strlit("variants");
    assert("defaultDepth"@.len() != "maxHash"@.len());
    assert("defaultDepth"@.len() != "maxThreads"@.len());
    assert("defaultDepth"@.len() != "name"@.len());
    assert("defaultDepth"@[0] != "providerData"@[0]);
    assert("defaultDepth"@.len() != "providerSecret"@.len());
    assert("defaultDepth"@.len() != "variants"@.len());
    let p0 = seq![("name"@, ValueView::Text(r.name@))];
    let p1 = seq![("maxThreads"@, ValueView::Number(r.max_threads as u64))];
    let p2 = seq![("maxHash"@, ValueView::Number(r.max_hash as u64))];
    let p3 = seq![("providerSecret"@, ValueView::Text(r.provider_secret.inner()@))];
    let p4 = crate::text::one_pair("defaultDepth"@, match r.default_depth { Some(d) => Some(ValueView::Number(d as u64)), None => None });
    let p5 = crate::text::one_pair("variants"@, if r.variants@.len() > 0 { Some(ValueView::Texts(r.variants@.map_values(|v: String| v@))) } else { None });
    let p6 = crate::text::one_pair("providerData"@, match r.provider_data { Some(d) => Some(ValueView::Text(d@)), None => None });
    let s0 = p0;
    let s1 = s0 + p1;
    let s2 = s1 + p2;
    let s3 = s2 + p3;
    let s4 = s3 + p4;
    let s5 = s4 + p5;
    let s6 = s5 + p6;
    assert(payload_fields(crate::api::engine::external_engine::registration_view(r)) =~= s6);
    let v = match r.default_depth { Some(d) => Some(ValueView::Number(d as u64)), None => None };
    crate::text::lemma_extend(s0, p1, "defaultDepth"@, None, false);
    crate::text::lemma_extend(s1, p2, "defaultDepth"@, None, false);
    crate::text::lemma_extend(s2, p3, "defaultDepth"@, None, false);
    crate::text::lemma_extend(s3, p4, "defaultDepth"@, v, true);
    crate::text::lemma_extend(s4, p5, "defaultDepth"@, v, false);
    crate::text::lemma_extend(s5, p6, "defaultDepth"@, v, false);
}

proof fn lemma_registration_fields_variants(r: LichessExternalEngineRegistration)
    ensures
        crate::text::carries(payload_fields(crate::api::engine::external_engine::registration_view(r)), "variants"@, if r.variants@.len() > 0 { Some(ValueView::Texts(r.variants@.map_values(|v: String| v@))) } else { None }),
{
    reveal_strlit("defaultDepth");
    reveal_strlit("maxHash");
    reveal_strlit("maxThreads");
    reveal_strlit("name");
    reveal_strlit("providerData");
    reveal_strlit("providerSecret");
    reveal_strlit("variants");
    assert("variants"@.len() != "defaultDepth"@.len());
    assert("variants"@.len() != "maxHash"@.len());
    assert("variants"@.len() != "maxThreads"@.len());
    assert("variants"@.len() != "name"@.len());
    assert("variants"@.len() != "providerData"@.len());
    assert("variants"@.len() != "providerSecret"@.len());
    let p0 = seq![("name"@, ValueView::Text(r.name@))];
    let p1 = seq![("maxThreads"@, ValueView::Number(r.max_threads as u64))];
    let p2 = seq![("maxHash"@, ValueView::Number(r.max_hash as u64))];
    let p3 = seq![("providerSecret"@, ValueView::Text(r.provider_secret.inner()@))];
    let p4 = crate::text::one_pair("defaultDepth"@, match r.default_depth { Some(d) => Some(ValueView::Number(d as u64)), None => None });
    let p5 = crate::text::one_pair("variants"@, if r.variants@.len() > 0 { Some(ValueView::Texts(r.variants@.map_values(|v: String| v@))) } else { None });
    let p6 = crate::text::one_pair("providerData"@, match r.provider_data { Some(d) => Some(ValueView::Text(d@)), None => None });
    let s0 = p0;
    let s1 = s0 + p1;
    let s2 = s1 + p2;
    let s3 = s2 + p3;
    let s4 = s3 + p4;
    let s5 = s4 + p5;
    let s6 = s5 + p6;
    assert(payload_fields(crate::api::engine::external_engine::registration_view(r)) =~= s6);
    let v = if r.variants@.len() > 0 { Some(ValueView::Texts(r.variants@.map_values(|v: String| v@))) } else { None };
    crate::text::lemma_extend(s0, p1, "variants"@, None, false);
    crate::text::lemma_extend(s1, p2, "variants"@, None, false);
    crate::text::lemma_extend(s2, p3, "variants"@, None, false);
    crate::text::lemma_extend(s3, p4, "variants"@, None, false);
    crate::text::lemma_extend(s4, p5, "variants"@, v, true);
    crate::text::lemma_extend(s5, p6, "variants"@, v, false);
}

proof fn lemma_registration_fields_provider_data(r: LichessExternalEngineRegistration)
    ensures
        crate::text::carries(payload_fields(crate::api::engine::external_engine::registration_view(r)), "providerData"@, match r.provider_data { Some(d) => Some(ValueView::Text(d@)), None => None }),
{
    reveal_strlit("defaultDepth");
    reveal_strlit("maxHash");
    reveal_strlit("maxThreads");
    reveal_strlit("name");
    reveal_strlit("providerData");
    reveal_strlit("providerSecret");
    reveal_strlit("variants");
    assert("providerData"@[0] != "defaultDepth"@[0]);
    assert("providerData"@.len() != "maxHash"@.len());
    assert("providerData"@.len() != "maxThreads"@.len());
    assert("providerData"@.len() != "name"@.len());
    assert("providerData"@.len() != "providerSecret"@.len());
    assert("providerData"@.len() != "variants"@.len());
    let p0 = seq![("name"@, ValueView::Text(r.name@))];
    let p1 = seq![("maxThreads"@, ValueView::Number(r.max_threads as u64))];
    let p2 = seq![("maxHash"@, ValueView::Number(r.max_hash as u64))];
    let p3 = seq![("providerSecret"@, ValueView::Text(r.provider_secret.inner()@))];
    let p4 = crate::text::one_pair("defaultDepth"@, match r.default_depth { Some(d) => Some(ValueView::Number(d as u64)), None => None });
    let p5 = crate::text::one_pair("variants"@, if r.variants@.len() > 0 { Some(ValueView::Texts(r.variants@.map_values(|v: String| v@))) } else { None });
    let p6 = crate::text::one_pair("providerData"@, match r.provider_data { Some(d) => Some(ValueView::Text(d@)), None => None });
    let s0 = p0;
    let s1 = s0 + p1;
    let s2 = s1 + p2;
    let s3 = s2 + p3;
    let s4 = s3 + p4;
    let s5 = s4 + p5;
    let s6 = s5 + p6;
    assert(payload_fields(crate::api::engine::external_engine::registration_view(r)) =~= s6);
    let v = match r.provider_data { Some(d) => Some(ValueView::Text(d@)), None => None };
    crate::text::lemma_extend(s0, p1, "providerData"@, None, false);
    crate::text::lemma_extend(s1, p2, "providerData"@, None, false);
    crate::text::lemma_extend(s2, p3, "providerData"@, None, false);
    crate::text::lemma_extend(s3, p4, "providerData"@, None, false);
    crate::text::lemma_extend(s4, p5, "providerData"@, None, false);
    crate::text::lemma_extend(s5, p6, "providerData"@, v, true);
}

/// A registration body carries each field of the registration under its own
/// key: the name, thread and hash limits and the provider secret always, the
/// default depth and the provider data only when set, and the variants only
/// when there are some.
pub proof fn lemma_registration_fields(r: LichessExternalEngineRegistration)
    ensures
        crate::text::carries(payload_fields(crate::api::engine::external_engine::registration_view(r)), "name"@, Some(ValueView::Text(r.name@))),
        crate::text::carries(payload_fields(crate::api::engine::external_engine::registration_view(r)), "maxThreads"@, Some(ValueView::Number(r.max_threads as u64))),
        crate::text::carries(payload_fields(crate::api::engine::external_engine::registration_view(r)), "maxHash"@, Some(ValueView::Number(r.max_hash as u64))),
        crate::text::carries(payload_fields(crate::api::engine::external_engine::registration_view(r)), "providerSecret"@, Some(ValueView::Text(r.provider_secret.inner()@))),
        crate::text::carries(payload_fields(crate::api::engine::external_engine::registration_view(r)), "defaultDepth"@, match r.default_depth { Some(d) => Some(ValueView::Number(d as u64)), None => None }),
        crate::text::carries(payload_fields(crate::api::engine::external_engine::registration_view(r)), "variants"@, if r.variants@.len() > 0 { Some(ValueView::Texts(r.variants@.map_values(|v: String| v@))) } else { None }),
        crate::text::carries(payload_fields(crate::api::engine::external_engine::registration_view(r)), "providerData"@, match r.provider_data { Some(d) => Some(ValueView::Text(d@)), None => None }),
{
    lemma_registration_fields_name(r);
    lemma_registration_fields_max_threads(r);
    lemma_registration_fields_max_hash(r);
    lemma_registration_fields_provider_secret(r);
    lemma_registration_fields_default_depth(r);
    lemma_registration_fields_variants(r);
    lemma_registration_fields_provider_data(r);
}

proof fn lemma_solution_object_fields_id(s: (Seq<char>, bool, Option<bool>))
    ensures
        crate::text::carries(solution_object(s), "id"@, Some(ScalarView::Text(s.0))),
{
    reveal_strlit("id");
    reveal_strlit("rated");
    reveal_strlit("win");
    assert("id"@.len() != "rated"@.len());
    assert("id"@.len() != "win"@.len());
    let p0 = seq![("id"@, ScalarView::Text(s.0))];
    let p1 = seq![("win"@, ScalarView::Bool(s.1))];
    let p2 = crate::text::one_pair("rated"@, match s.2 { Some(b) => Some(ScalarView::Bool(b)), None => None });
    let s0 = p0;
    let s1 = s0 + p1;
    let s2 = s1 + p2;
    assert(solution_object(s) =~= s2);
    let v = Some(ScalarView::Text(s.0));
    assert(p0 == crate::text::one_pair("id"@, v));
    crate::text::lemma_one_pair_carries("id"@, v);
    crate::text::lemma_extend(s0, p1, "id"@, v, false);
    crate::text::lemma_extend(s1, p2, "id"@, v, false);
}

proof fn lemma_solution_object_fields_win(s: (Seq<char>, bool, Option<bool>))
    ensures
        crate::text::carries(solution_object(s), "win"@, Some(ScalarView::Bool(s.1))),
{
    reveal_strlit("id");
    reveal_strlit("rated");
    reveal_strlit("win");
    assert("win"@.len() != "id"@.len());
    assert("win"@.len() != "rated"@.len());
    let p0 = seq![("id"@, ScalarView::Text(s.0))];
    let p1 = seq![("win"@, ScalarView::Bool(s.1))];
    let p2 = crate::text::one_pair("rated"@, match s.2 { Some(b) => Some(ScalarView::Bool(b)), None => None });
    let s0 = p0;
    let s1 = s0 + p1;
    let s2 = s1 + p2;
    assert(solution_object(s) =~= s2);
    let v = Some(ScalarView::Bool(s.1));
    crate::text::lemma_extend(s0, p1, "win"@, v, true);
    crate::text::lemma_extend(s1, p2, "win"@, v, false);
}

proof fn lemma_solution_object_fields_rated(s: (Seq<char>, bool, Option<bool>))
    ensures
        crate::text::carries(solution_object(s), "rated"@, match s.2 { Some(b) => Some(ScalarView::Bool(b)), None => None }),
{
    reveal_strlit("id");
    reveal_strlit("rated");
    reveal_strlit("win");
    assert("rated"@.len() != "id"@.len());
    assert("rated"@.len() != "win"@.len());
    let p0 = seq![("id"@, ScalarView::Text(s.0))];
    let p1 = seq![("win"@, ScalarView::Bool(s.1))];
    let p2 = crate::text::one_pair("rated"@, match s.2 { Some(b) => Some(ScalarView::Bool(b)), None => None });
    let s0 = p0;
    let s1 = s0 + p1;
    let s2 = s1 + p2;
    assert(solution_object(s) =~= s2);
    let v = match s.2 { Some(b) => Some(ScalarView::Bool(b)), None => None };
    crate::text::lemma_extend(s0, p1, "rated"@, None, false);
    crate::text::lemma_extend(s1, p2, "rated"@, v, true);
}

/// A solution object carries the puzzle id under `id`, the outcome under `win`,
/// and the rating flag under `rated` only when it is set.
pub proof fn lemma_solution_object_fields(s: (Seq<char>, bool, Option<bool>))
    ensures
        crate::text::carries(solution_object(s), "id"@, Some(ScalarView::Text(s.0))),
        crate::text::carries(solution_object(s), "win"@, Some(ScalarView::Bool(s.1))),
        crate::text::carries(solution_object(s), "rated"@, match s.2 { Some(b) => Some(ScalarView::Bool(b)), None => None }),
{
    lemma_solution_object_fields_id(s);
    lemma_solution_object_fields_win(s);
    lemma_solution_object_fields_rated(s);
}

proof fn lemma_analysis_fields_client_secret(client_secret: Seq<char>, work: Seq<char>)
    ensures
        crate::text::carries(payload_fields(JsonView::EngineAnalysis { client_secret, work }), "clientSecret"@, Some(ValueView::Text(client_secret))),
{
    reveal_strlit("clientSecret");
    reveal_strlit("work");
    assert("clientSecret"@.len() != "work"@.len());
    let p0 = seq![("clientSecret"@, ValueView::Text(client_secret))];
    let p1 = seq![("work"@, ValueView::Raw(work))];
    let s0 = p0;
    let s1 = s0 + p1;
    assert(payload_fields(JsonView::EngineAnalysis { client_secret, work }) =~= s1);
    let v = Some(ValueView::Text(client_secret));
    assert(p0 == crate::text::one_pair("clientSecret"@, v));
    crate::text::lemma_one_pair_carries("clientSecret"@, v);
    crate::text::lemma_extend(s0, p1, "clientSecret"@, v, false);
}

proof fn lemma_analysis_fields_work(client_secret: Seq<char>, work: Seq<char>)
    ensures
        crate::text::carries(payload_fields(JsonView::EngineAnalysis { client_secret, work }), "work"@, Some(ValueView::Raw(work))),
{
    reveal_strlit("clientSecret");
    reveal_strlit("work");
    assert("work"@.len() != "clientSecret"@.len());
    let p0 = seq![("clientSecret"@, ValueView::Text(client_secret))];
    let p1 = seq![("work"@, ValueView::Raw(work))];
    let s0 = p0;
    let s1 = s0 + p1;
    assert(payload_fields(JsonView::EngineAnalysis { client_secret, work }) =~= s1);
    let v = Some(ValueView::Raw(work));
    crate::text::lemma_extend(s0, p1, "work"@, v, true);
}

/// An analysis body carries the engine's client secret under `clientSecret`
/// and the work, embedded as JSON, under `work`.
pub proof fn lemma_analysis_fields(client_secret: Seq<char>, work: Seq<char>)
    ensures
        crate::text::carries(payload_fields(JsonView::EngineAnalysis { client_secret, work }), "clientSecret"@, Some(ValueView::Text(client_secret))),
        crate::text::carries(payload_fields(JsonView::EngineAnalysis { client_secret, work }), "work"@, Some(ValueView::Raw(work))),
{
    lemma_analysis_fields_client_secret(client_secret, work);
    lemma_analysis_fields_work(client_secret, work);
}

/// A work request carries the provider secret under `providerSecret`, and a
/// solutions body one object per solution, in order, under `solutions`.
pub proof fn lemma_secret_and_solutions_fields(secret: Seq<char>, list: Seq<(Seq<char>, bool, Option<bool>)>)
    ensures
        crate::text::carries(
            payload_fields(JsonView::ProviderSecret(secret)),
            "providerSecret"@,
            Some(ValueView::Text(secret)),
        ),
        payload_fields(JsonView::PuzzleSolutions(list)).len() == 1,
        payload_fields(JsonView::PuzzleSolutions(list))[0].0 == seq!['s', 'o', 'l', 'u', 't', 'i', 'o', 'n', 's'],
        payload_fields(JsonView::PuzzleSolutions(list))[0].1 matches ValueView::Objects(objects) && objects.len()
            == list.len() && forall|i: int| 0 <= i < list.len() ==> #[trigger] objects[i] == solution_object(list[i]),
{
    reveal_strlit("solutions");
    crate::text::lemma_one_pair_carries("providerSecret"@, Some(ValueView::Text(secret)));
    assert("solutions"@ =~= seq!['s', 'o', 'l', 'u', 't', 'i', 'o', 'n', 's']);
}

/// Appends a field.
fn push_field(fields: &mut Vec<(String, JsonValue)>, key: &str, value: JsonValue)
    ensures
        fields_view(final(fields)@) == fields_view(old(fields)@).push((key@, value@)),
{
    let ghost before = fields@;
    fields.push((String::from_str(key), value));
    assert(fields_view(fields@) =~= fields_view(before).push((key@, value@)));
}

/// The object of one puzzle solution.
fn solution_entries(s: &LichessPuzzleSolution) -> (r: Vec<(String, JsonScalar)>)
    ensures
        entries_view(r@) == solution_object((s.id@, s.win, s.rated)),
{
    let mut out: Vec<(String, JsonScalar)> = Vec::new();
    out.push((String::from_str("id"), JsonScalar::Text(s.id.clone())));
    out.push((String::from_str("win"), JsonScalar::Bool(s.win)));
    match s.rated {
        Some(r) => out.push((String::from_str("rated"), JsonScalar::Bool(r))),
        None => {},
    }
    assert(entries_view(out@) =~= solution_object((s.id@, s.win, s.rated)));
    out
}

impl JsonPayload {
    /// The fields that the body sends, in order; see [`payload_fields`].
    pub fn fields(&self) -> (r: Vec<(String, JsonValue)>)
        ensures
            fields_view(r@) == payload_fields(self.view()),
    {
        let mut out: Vec<(String, JsonValue)> = Vec::new();
        match self {
            JsonPayload::ProviderSecret(s) => {
                push_field(&mut out, "providerSecret", JsonValue::Text(s.clone()));
            },
            JsonPayload::EngineAnalysis { client_secret, work } => {
                push_field(&mut out, "clientSecret", JsonValue::Text(client_secret.clone()));
                push_field(&mut out, "work", JsonValue::Raw(work.clone()));
            },
            JsonPayload::PuzzleSolutions(list) => {
                let ghost views = crate::api::training::puzzles::solution_views(list@);
                let mut objects: Vec<Vec<(String, JsonScalar)>> = Vec::new();
                let mut i: usize = 0;
                while i < list.len()
                    invariant
                        i <= list@.len(),
                        views == crate::api::training::puzzles::solution_views(list@),
                        objects@.map_values(|o: Vec<(String, JsonScalar)>| entries_view(o@))
                            =~= views.take(i as int).map_values(
                            |s: (Seq<char>, bool, Option<bool>)| solution_object(s),
                        ),
                    decreases list@.len() - i,
                {
                    let ghost before = objects@;
                    let entry = solution_entries(&list[i]);
                    objects.push(entry);
                    proof {
                        let k = i as int;
                        assert(objects@ =~= before.push(entry));
                        assert(views[k] == (list@[k].id@, list@[k].win, list@[k].rated));
                        assert(views.take(k + 1) =~= views.take(k).push(views[k]));
                        assert(objects@.map_values(|o: Vec<(String, JsonScalar)>| entries_view(o@))
                            =~= before.map_values(|o: Vec<(String, JsonScalar)>| entries_view(o@)).push(
                            entries_view(entry@),
                        ));
                        assert(views.take(k + 1).map_values(
                            |s: (Seq<char>, bool, Option<bool>)| solution_object(s),
                        ) =~= views.take(k).map_values(
                            |s: (Seq<char>, bool, Option<bool>)| solution_object(s),
                        ).push(solution_object(views[k])));
                    }
                    i = i + 1;
                }
                assert(views.take(list@.len() as int) =~= views);
                push_field(&mut out, "solutions", JsonValue::Objects(objects));
            },
            JsonPayload::EngineRegistration(r) => {
                push_field(&mut out, "name", JsonValue::Text(r.name.clone()));
                push_field(&mut out, "maxThreads", JsonValue::Number(r.max_threads as u64));
                push_field(&mut out, "maxHash", JsonValue::Number(r.max_hash as u64));
                push_field(&mut out, "providerSecret", JsonValue::Text(r.provider_secret.expose().clone()));
                match r.default_depth {
                    Some(d) => push_field(&mut out, "defaultDepth", JsonValue::Number(d as u64)),
                    None => {},
                }
                if r.variants.len() > 0 {
                    push_field(&mut out, "variants", JsonValue::Texts(copy_strings(&r.variants)));
                }
                match &r.provider_data {
                    Some(p) => push_field(&mut out, "providerData", JsonValue::Text(p.clone())),
                    None => {},
                }
            },
        }
        assert(fields_view(out@) =~= payload_fields(self.view()));
        out
    }
}

} // verus!
