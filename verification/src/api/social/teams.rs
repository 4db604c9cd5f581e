//! The Teams API: discover teams and manage membership.
//!
//! Reached through [`LichessClient::teams`].

use vstd::prelude::*;

use crate::client::LichessClient;
use crate::config::Host;
use crate::http::{ApiRequest, Method};
use crate::secret::REDACTED;

verus! {

/// Form body for joining a team.
///
/// The `Debug` output redacts the entry `password`.
#[derive(Clone)]
pub struct JoinForm<'a> {
    /// A message to the team leaders.
    pub message: Option<&'a str>,
    /// The team's entry password.
    pub password: Option<&'a str>,
}

/// The pairs of [`JoinForm`] carry its field under `message`.
proof fn lemma_join_form_message(q: JoinForm)
    ensures
        crate::text::carries(q.pairs_view(), "message"@, match q.message { Some(v) => Some(v@), None => None }),
{
    reveal_strlit("message");
    reveal_strlit("password");
    assert("message"@.len() != "password"@.len());
    let p0 = crate::http::str_pair("message"@, q.message);
    let p1 = crate::http::str_pair("password"@, q.password);
    let s0 = p0;
    let s1 = s0 + p1;
    assert(q.pairs_view() == s1);
    let v = match q.message { Some(v) => Some(v@), None => None };
    assert(p0 == crate::text::one_pair("message"@, v));
    crate::text::lemma_one_pair_carries("message"@, v);
    crate::text::lemma_extend(s0, p1, "message"@, v, false);
}

/// The pairs of [`JoinForm`] carry its field under `password`.
proof fn lemma_join_form_password(q: JoinForm)
    ensures
        crate::text::carries(q.pairs_view(), "password"@, match q.password { Some(v) => Some(v@), None => None }),
{
    reveal_strlit("message");
    reveal_strlit("password");
    assert("password"@.len() != "message"@.len());
    let p0 = crate::http::str_pair("message"@, q.message);
    let p1 = crate::http::str_pair("password"@, q.password);
    let s0 = p0;
    let s1 = s0 + p1;
    assert(q.pairs_view() == s1);
    let v = match q.password { Some(v) => Some(v@), None => None };
    crate::text::lemma_extend(s0, p1, "password"@, v, true);
}

/// The pairs of [`JoinForm`] carry each of its fields under that field's own
/// key (`message`, `password`), with the value given to it, and a key only when its field is set.
pub proof fn lemma_join_form_carries_fields(q: JoinForm)
    ensures
        crate::text::carries(q.pairs_view(), "message"@, match q.message { Some(v) => Some(v@), None => None }),
        crate::text::carries(q.pairs_view(), "password"@, match q.password { Some(v) => Some(v@), None => None }),
{
    lemma_join_form_message(q);
    lemma_join_form_password(q);
}

impl<'a> JoinForm<'a> {
    /// The query pairs, in order.
    pub open spec fn pairs_view(self) -> crate::text::Pairs {
        crate::http::str_pair("message"@, self.message)
            + crate::http::str_pair("password"@, self.password)
    }

    /// The query pairs.
    pub fn pairs(&self) -> (r: Vec<(String, String)>)
        ensures
            r.deep_view() == self.pairs_view(),
    {
        let mut out: Vec<(String, String)> = Vec::new();
        crate::http::push_opt_str(&mut out, "message", self.message);
        crate::http::push_opt_str(&mut out, "password", self.password);
        assert(out.deep_view() =~= self.pairs_view());
        out
    }

    /// The query with every filter unset.
    pub open spec fn blank() -> Self {
        JoinForm { message: None, password: None }
    }
}

impl<'a> Default for JoinForm<'a> {
    /// Every filter unset.
    fn default() -> (r: Self)
        ensures
            r == Self::blank(),
    {
        JoinForm { message: None, password: None }
    }
}

impl<'a> JoinForm<'a> {
    /// What the `Debug` output shows of the password: the redaction marker
    /// when there is one.
    pub fn shown_password(&self) -> (r: Option<&'static str>)
        ensures
            r is Some <==> self.password is Some,
            r matches Some(text) ==> text@ == REDACTED@,
    {
        match self.password {
            Some(_) => Some(REDACTED),
            None => None,
        }
    }
}

impl<'a> core::fmt::Debug for JoinForm<'a> {
    /// Writes the message and, in place of the password, the redaction
    /// marker.
    fn fmt(&self, f: &mut core::fmt::Formatter<'_>) -> core::fmt::Result {
        let shown = self.shown_password();
        let mut builder = crate::secret::debug_struct(f, "JoinForm");
        crate::secret::struct_field(&mut builder, "message", &self.message);
        crate::secret::struct_field(&mut builder, "password", &shown);
        crate::secret::struct_finish(&mut builder)
    }
}

/// Accessor for the Teams API.
#[derive(Debug)]
pub struct TeamsApi<'a> {
    client: &'a LichessClient,
}

impl<'a> TeamsApi<'a> {
    /// The client the accessor is bound to.
    pub closed spec fn client_of(&self) -> &'a LichessClient {
        self.client
    }

    /// Binds the accessor to a client.
    pub fn new(client: &'a LichessClient) -> (r: Self)
        ensures
            r.client_of() == client,
    {
        TeamsApi { client }
    }

    /// Gets a team by id. `GET /api/team/{teamId}`
    pub fn get(&self, team_id: &str) -> (r: ApiRequest)
        ensures
            r@ == crate::http::bare(
                Method::Get,
                Host::Default,
                "/api/team/"@ + crate::text::segment_text(team_id@) + ""@,
            ),
    {
        let path = crate::http::path1("/api/team/", team_id, "");
        self.client.request(Method::Get, Host::Default, path)
    }

    /// Lists the most popular teams, paginated. `GET /api/team/all`
    pub fn all(&self, page: u32) -> (r: ApiRequest)
        ensures
            r@ == crate::http::bare(Method::Get, Host::Default, "/api/team/all"@)
                .with_query(seq![("page"@, crate::text::dec_nat(page as nat))]),
    {
        let path = String::from_str("/api/team/all");
        let mut q: Vec<(String, String)> = Vec::new();
        crate::http::push_pair(&mut q, "page", crate::text::u64_to_string(page as u64));
        assert(q.deep_view() =~= seq![("page"@, crate::text::dec_nat(page as nat))]);
        self.client.request(Method::Get, Host::Default, path).query(q)
    }

    /// Lists the teams a user belongs to. `GET /api/team/of/{username}`
    pub fn of_user(&self, username: &str) -> (r: ApiRequest)
        ensures
            r@ == crate::http::bare(
                Method::Get,
                Host::Default,
                "/api/team/of/"@ + crate::text::segment_text(username@) + ""@,
            ),
    {
        let path = crate::http::path1("/api/team/of/", username, "");
        self.client.request(Method::Get, Host::Default, path)
    }

    /// Searches teams by text, paginated. `GET /api/team/search`
    pub fn search(&self, text: &str, page: u32) -> (r: ApiRequest)
        ensures
            r@ == crate::http::bare(Method::Get, Host::Default, "/api/team/search"@)
                .with_query(
                    seq![("text"@, text@)] + seq![("page"@, crate::text::dec_nat(page as nat))],
                ),
    {
        let path = String::from_str("/api/team/search");
        let mut q: Vec<(String, String)> = Vec::new();
        crate::http::push_pair(&mut q, "text", String::from_str(text));
        crate::http::push_pair(&mut q, "page", crate::text::u64_to_string(page as u64));
        assert(q.deep_view() =~= seq![("text"@, text@)]
                + seq![("page"@, crate::text::dec_nat(page as nat))]);
        self.client.request(Method::Get, Host::Default, path).query(q)
    }

    /// Streams the members of a team. `GET /api/team/{teamId}/users`
    pub fn members(&self, team_id: &str) -> (r: ApiRequest)
        ensures
            r@ == crate::http::bare(
                Method::Get,
                Host::Default,
                "/api/team/"@ + crate::text::segment_text(team_id@) + "/users"@,
            ),
    {
        let path = crate::http::path1("/api/team/", team_id, "/users");
        self.client.request(Method::Get, Host::Default, path)
    }

    /// Joins a team, optionally with a message and entry password.
    /// `POST /team/{teamId}/join`
    pub fn join(&self, team_id: &str, message: Option<&str>, password: Option<&str>) -> (r: ApiRequest)
        ensures
            r@ == crate::http::bare(
                Method::Post,
                Host::Default,
                "/team/"@ + crate::text::segment_text(team_id@) + "/join"@,
            )
                .with_body(
                    crate::http::BodyView::Form((JoinForm { message, password }).pairs_view()),
                ),
    {
        let path = crate::http::path1("/team/", team_id, "/join");
        let form = JoinForm { message, password };
        self.client.request(Method::Post, Host::Default, path).form(form.pairs())
    }

    /// Leaves a team. `POST /team/{teamId}/quit`
    pub fn quit(&self, team_id: &str) -> (r: ApiRequest)
        ensures
            r@ == crate::http::bare(
                Method::Post,
                Host::Default,
                "/team/"@ + crate::text::segment_text(team_id@) + "/quit"@,
            ),
    {
        let path = crate::http::path1("/team/", team_id, "/quit");
        self.client.request(Method::Post, Host::Default, path)
    }

    /// Kicks a member from a team. `POST /api/team/{teamId}/kick/{userId}`
    pub fn kick(&self, team_id: &str, user_id: &str) -> (r: ApiRequest)
        ensures
            r@ == crate::http::bare(
                Method::Post,
                Host::Default,
                "/api/team/"@
                    + crate::text::segment_text(team_id@)
                    + "/kick/"@
                    + crate::text::segment_text(user_id@)
                    + ""@,
            ),
    {
        let path = crate::http::path2("/api/team/", team_id, "/kick/", user_id, "");
        self.client.request(Method::Post, Host::Default, path)
    }

    /// Sends a private message to all members. `POST /team/{teamId}/pm-all`
    pub fn message_all(&self, team_id: &str, message: &str) -> (r: ApiRequest)
        ensures
            r@ == crate::http::bare(
                Method::Post,
                Host::Default,
                "/team/"@ + crate::text::segment_text(team_id@) + "/pm-all"@,
            )
                .with_body(crate::http::BodyView::Form(seq![("message"@, message@)])),
    {
        let path = crate::http::path1("/team/", team_id, "/pm-all");
        let mut q: Vec<(String, String)> = Vec::new();
        crate::http::push_pair(&mut q, "message", String::from_str(message));
        assert(q.deep_view() =~= seq![("message"@, message@)]);
        self.client.request(Method::Post, Host::Default, path).form(q)
    }

    /// Lists pending join requests. `GET /api/team/{teamId}/requests`
    pub fn join_requests(&self, team_id: &str) -> (r: ApiRequest)
        ensures
            r@ == crate::http::bare(
                Method::Get,
                Host::Default,
                "/api/team/"@ + crate::text::segment_text(team_id@) + "/requests"@,
            ),
    {
        let path = crate::http::path1("/api/team/", team_id, "/requests");
        self.client.request(Method::Get, Host::Default, path)
    }

    /// Accepts a join request.
    /// `POST /api/team/{teamId}/request/{userId}/accept`
    pub fn accept_request(&self, team_id: &str, user_id: &str) -> (r: ApiRequest)
        ensures
            r@ == crate::http::bare(
                Method::Post,
                Host::Default,
                "/api/team/"@
                    + crate::text::segment_text(team_id@)
                    + "/request/"@
                    + crate::text::segment_text(user_id@)
                    + "/accept"@,
            ),
    {
        let path = crate::http::path2("/api/team/", team_id, "/request/", user_id, "/accept");
        self.client.request(Method::Post, Host::Default, path)
    }

    /// Declines a join request.
    /// `POST /api/team/{teamId}/request/{userId}/decline`
    pub fn decline_request(&self, team_id: &str, user_id: &str) -> (r: ApiRequest)
        ensures
            r@ == crate::http::bare(
                Method::Post,
                Host::Default,
                "/api/team/"@
                    + crate::text::segment_text(team_id@)
                    + "/request/"@
                    + crate::text::segment_text(user_id@)
                    + "/decline"@,
            ),
    {
        let path = crate::http::path2("/api/team/", team_id, "/request/", user_id, "/decline");
        self.client.request(Method::Post, Host::Default, path)
    }

    /// Streams the arena tournaments of a team (NDJSON).
    /// `GET /api/team/{teamId}/arena`
    pub fn arena_tournaments(&self, team_id: &str) -> (r: ApiRequest)
        ensures
            r@ == crate::http::bare(
                Method::Get,
                Host::Default,
                "/api/team/"@ + crate::text::segment_text(team_id@) + "/arena"@,
            ),
    {
        let path = crate::http::path1("/api/team/", team_id, "/arena");
        self.client.request(Method::Get, Host::Default, path)
    }

    /// Streams the swiss tournaments of a team (NDJSON).
    /// `GET /api/team/{teamId}/swiss`
    pub fn swiss_tournaments(&self, team_id: &str) -> (r: ApiRequest)
        ensures
            r@ == crate::http::bare(
                Method::Get,
                Host::Default,
                "/api/team/"@ + crate::text::segment_text(team_id@) + "/swiss"@,
            ),
    {
        let path = crate::http::path1("/api/team/", team_id, "/swiss");
        self.client.request(Method::Get, Host::Default, path)
    }
}

impl LichessClient {
    /// Teams API: discover teams and manage membership.
    pub fn teams(&self) -> (r: TeamsApi<'_>)
        ensures
            r.client_of() == self,
    {
        TeamsApi::new(self)
    }
}

} // verus!
