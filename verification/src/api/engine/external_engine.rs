//! The External Engine API: register and manage external analysis engines.
//!
//! Reached through [`LichessClient::external_engine`]. The analysis/work
//! endpoints are served from `engine.lichess.ovh`.

use vstd::prelude::*;

use crate::client::LichessClient;
use crate::config::Host;
use crate::error::LichessError;
use crate::http::{ApiRequest, JsonPayload, JsonView, Method};
use crate::secret::Secret;

verus! {

/// A registered external engine.
///
/// The `client_secret` is a [`Secret`], so it is redacted from the `Debug`
/// output.
#[derive(Debug, Clone, PartialEq, Eq)]
pub struct LichessExternalEngine {
    /// The unique registration id.
    pub id: String,
    /// The engine's display name.
    pub name: String,
    /// The secret used to request analysis from this engine.
    pub client_secret: Secret<String>,
    /// The user the engine is registered for.
    pub user_id: String,
    /// Maximum number of threads.
    pub max_threads: u32,
    /// Maximum hash table size, in MiB.
    pub max_hash: u32,
    /// Supported variants (UCI variant names).
    pub variants: Vec<String>,
    /// Arbitrary data the provider attached to the registration.
    pub provider_data: Option<String>,
}

/// The registration of an external engine, sent to create or update one.
///
/// The `provider_secret` is a [`Secret`], so it is redacted from the `Debug`
/// output.
#[derive(Debug, Clone, Default, PartialEq, Eq)]
pub struct LichessExternalEngineRegistration {
    /// The engine's display name.
    pub name: String,
    /// Maximum number of threads.
    pub max_threads: u32,
    /// Maximum hash table size, in MiB.
    pub max_hash: u32,
    /// The secret the provider uses to acquire work.
    pub provider_secret: Secret<String>,
    /// The default search depth.
    pub default_depth: Option<u32>,
    /// Supported variants (UCI variant names); omitted when empty.
    pub variants: Vec<String>,
    /// Arbitrary data for the provider.
    pub provider_data: Option<String>,
}

/// The views of a list of strings.
pub open spec fn string_views(list: Seq<String>) -> Seq<Seq<char>> {
    list.map_values(|s: String| s@)
}

/// A registration by value.
pub open spec fn registration_view(r: LichessExternalEngineRegistration) -> JsonView {
    JsonView::EngineRegistration {
        name: r.name@,
        max_threads: r.max_threads,
        max_hash: r.max_hash,
        provider_secret: r.provider_secret.inner()@,
        default_depth: r.default_depth,
        variants: string_views(r.variants@),
        provider_data: crate::http::opt_text(r.provider_data),
    }
}

/// Copies a list of strings.
pub fn copy_strings(list: &Vec<String>) -> (r: Vec<String>)
    ensures
        string_views(r@) == string_views(list@),
{
    let mut out: Vec<String> = Vec::new();
    let mut i: usize = 0;
    while i < list.len()
        invariant
            i <= list@.len(),
            string_views(out@) =~= string_views(list@.take(i as int)),
        decreases list@.len() - i,
    {
        let copy = list[i].clone();
        let ghost before = out@;
        out.push(copy);
        proof {
            assert(out@ =~= before.push(copy));
            assert(list@.take(i + 1) =~= list@.take(i as int).push(list@[i as int]));
            assert(string_views(out@) =~= string_views(before).push(copy@));
            assert(string_views(list@.take(i + 1)) =~= string_views(list@.take(i as int))
                    .push(list@[i as int]@));
        }
        i = i + 1;
    }
    assert(list@.take(list@.len() as int) =~= list@);
    out
}

/// Copies an optional string.
pub fn copy_opt_string(value: &Option<String>) -> (r: Option<String>)
    ensures
        crate::http::opt_text(r) == crate::http::opt_text(*value),
{
    match value {
        Some(s) => Some(s.clone()),
        None => None,
    }
}

impl LichessExternalEngineRegistration {
    /// The registration as a JSON payload.
    pub fn payload(&self) -> (r: JsonPayload)
        ensures
            r.view() == registration_view(*self),
    {
        JsonPayload::EngineRegistration(
            LichessExternalEngineRegistration {
                name: self.name.clone(),
                max_threads: self.max_threads,
                max_hash: self.max_hash,
                provider_secret: Secret::new(self.provider_secret.expose().clone()),
                default_depth: self.default_depth,
                variants: copy_strings(&self.variants),
                provider_data: copy_opt_string(&self.provider_data),
            },
        )
    }
}

/// Accessor for the External Engine API.
#[derive(Debug)]
pub struct ExternalEngineApi<'a> {
    client: &'a LichessClient,
}

impl<'a> ExternalEngineApi<'a> {
    /// The client the accessor is bound to.
    pub closed spec fn client_of(&self) -> &'a LichessClient {
        self.client
    }

    /// Binds the accessor to a client.
    pub fn new(client: &'a LichessClient) -> (r: Self)
        ensures
            r.client_of() == client,
    {
        ExternalEngineApi { client }
    }

    /// Lists the authenticated user's external engines.
    /// `GET /api/external-engine`
    pub fn list(&self) -> (r: ApiRequest)
        ensures
            r@ == crate::http::bare(Method::Get, Host::Default, "/api/external-engine"@),
    {
        let path = String::from_str("/api/external-engine");
        self.client.request(Method::Get, Host::Default, path)
    }

    /// Gets an external engine by id. `GET /api/external-engine/{id}`
    pub fn get(&self, id: &str) -> (r: ApiRequest)
        ensures
            r@ == crate::http::bare(
                Method::Get,
                Host::Default,
                "/api/external-engine/"@ + crate::text::segment_text(id@) + ""@,
            ),
    {
        let path = crate::http::path1("/api/external-engine/", id, "");
        self.client.request(Method::Get, Host::Default, path)
    }

    /// Registers a new external engine. `POST /api/external-engine`
    pub fn create(&self, registration: &LichessExternalEngineRegistration) -> (r: ApiRequest)
        ensures
            r@ == crate::http::bare(Method::Post, Host::Default, "/api/external-engine"@)
                .with_body(crate::http::BodyView::Json(registration_view(*registration))),
    {
        let path = String::from_str("/api/external-engine");
        self.client.request(Method::Post, Host::Default, path).json(registration.payload())
    }

    /// Updates an external engine. `PUT /api/external-engine/{id}`
    pub fn update(&self, id: &str, registration: &LichessExternalEngineRegistration) -> (r: ApiRequest)
        ensures
            r@ == crate::http::bare(
                Method::Put,
                Host::Default,
                "/api/external-engine/"@ + crate::text::segment_text(id@) + ""@,
            )
                .with_body(crate::http::BodyView::Json(registration_view(*registration))),
    {
        let path = crate::http::path1("/api/external-engine/", id, "");
        self.client.request(Method::Put, Host::Default, path).json(registration.payload())
    }

    /// Deletes an external engine. `DELETE /api/external-engine/{id}`
    pub fn delete(&self, id: &str) -> (r: ApiRequest)
        ensures
            r@ == crate::http::bare(
                Method::Delete,
                Host::Default,
                "/api/external-engine/"@ + crate::text::segment_text(id@) + ""@,
            ),
    {
        let path = crate::http::path1("/api/external-engine/", id, "");
        self.client.request(Method::Delete, Host::Default, path)
    }

    /// Requests analysis from an external engine, streaming the output as
    /// NDJSON; `work` is the analysis request as JSON text. Served from
    /// `engine.lichess.ovh`.
    ///
    /// `POST /api/external-engine/{id}/analyse`
    pub fn analyse(&self, id: &str, client_secret: &str, work: &str) -> (r: ApiRequest)
        ensures
            r@ == crate::http::bare(
                Method::Post,
                Host::Engine,
                "/api/external-engine/"@ + crate::text::segment_text(id@) + "/analyse"@,
            )
                .with_body(
                    crate::http::BodyView::Json(
                        JsonView::EngineAnalysis { client_secret: client_secret@, work: work@ },
                    ),
                ),
    {
        let path = crate::http::path1("/api/external-engine/", id, "/analyse");
        self.client.request(Method::Post, Host::Engine, path).json(JsonPayload::EngineAnalysis {
            client_secret: String::from_str(client_secret),
            work: String::from_str(work),
        })
    }

    /// Acquires a unit of analysis work as an engine provider; an answer of
    /// `204 No Content` means there is nothing to do. Served from
    /// `engine.lichess.ovh`.
    ///
    /// `POST /api/external-engine/work`
    pub fn acquire_work(&self, provider_secret: &str) -> (r: ApiRequest)
        ensures
            r@ == crate::http::bare(Method::Post, Host::Engine, "/api/external-engine/work"@)
                .with_body(crate::http::BodyView::Json(JsonView::ProviderSecret(provider_secret@))),
    {
        let path = String::from_str("/api/external-engine/work");
        self.client.request(Method::Post, Host::Engine, path)
            .json(JsonPayload::ProviderSecret(String::from_str(provider_secret)))
    }

    /// Submits engine analysis output for a unit of work. Served from
    /// `engine.lichess.ovh`.
    ///
    /// `POST /api/external-engine/work/{id}`
    pub fn submit_work(&self, work_id: &str, output: &str) -> (r: ApiRequest)
        ensures
            r@ == crate::http::bare(
                Method::Post,
                Host::Engine,
                "/api/external-engine/work/"@ + crate::text::segment_text(work_id@) + ""@,
            )
                .with_body(crate::http::BodyView::Text(output@)),
    {
        let path = crate::http::path1("/api/external-engine/work/", work_id, "");
        self.client.request(Method::Post, Host::Engine, path).text_body(String::from_str(output))
    }
}

/// The outcome of acquiring work from the server's answer: `204 No Content`
/// means there is nothing to do; any other (successful) answer is the decoded
/// unit of work, or the error of decoding it.
pub fn acquire_outcome<T>(status: u16, decoded: Result<T, LichessError>) -> (r: Result<
    Option<T>,
    LichessError,
>)
    ensures
        status == 204 ==> r matches Ok(None),
        status != 204 ==> r == match decoded {
            Ok(w) => Ok::<Option<T>, LichessError>(Some(w)),
            Err(e) => Err(e),
        },
{
    if status == 204 {
        Ok(None)
    } else {
        match decoded {
            Ok(w) => Ok(Some(w)),
            Err(e) => Err(e),
        }
    }
}

impl LichessClient {
    /// External Engine API: register and manage external analysis engines.
    pub fn external_engine(&self) -> (r: ExternalEngineApi<'_>)
        ensures
            r.client_of() == self,
    {
        ExternalEngineApi::new(self)
    }
}

} // verus!
