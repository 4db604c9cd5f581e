//! The Puzzles API: daily puzzle, lookups, the next puzzle, and activity.
//!
//! Reached through [`LichessClient::puzzles`].

use vstd::prelude::*;

use crate::client::LichessClient;
use crate::config::Host;
use crate::http::{ApiRequest, JsonPayload, Method};
use crate::model::LichessColor;
use crate::text::IntoText;

verus! {

/// Accessor for the Puzzles API.
#[derive(Debug)]
pub struct PuzzlesApi<'a> {
    client: &'a LichessClient,
}

/// Query parameters for the next puzzle.
#[derive(Debug, Clone)]
pub struct NextQuery<'a> {
    /// The theme or opening.
    pub angle: Option<&'a str>,
    /// The difficulty.
    pub difficulty: Option<&'a str>,
    /// The side to play.
    pub color: Option<LichessColor>,
}

/// The pairs of [`NextQuery`] carry its field under `angle`.
proof fn lemma_next_query_angle(q: NextQuery)
    ensures
        crate::text::carries(q.pairs_view(), "angle"@, match q.angle { Some(v) => Some(v@), None => None }),
{
    reveal_strlit("angle");
    reveal_strlit("color");
    reveal_strlit("difficulty");
    assert("angle"@[0] != "color"@[0]);
    assert("angle"@.len() != "difficulty"@.len());
    let p0 = crate::http::str_pair("angle"@, q.angle);
    let p1 = crate::http::str_pair("difficulty"@, q.difficulty);
    let p2 = crate::http::opt_pair("color"@, LichessColor::opt_wire(q.color));
    let s0 = p0;
    let s1 = s0 + p1;
    let s2 = s1 + p2;
    assert(q.pairs_view() == s2);
    let v = match q.angle { Some(v) => Some(v@), None => None };
    assert(p0 == crate::text::one_pair("angle"@, v));
    crate::text::lemma_one_pair_carries("angle"@, v);
    crate::text::lemma_extend(s0, p1, "angle"@, v, false);
    crate::text::lemma_extend(s1, p2, "angle"@, v, false);
}

/// The pairs of [`NextQuery`] carry its field under `difficulty`.
proof fn lemma_next_query_difficulty(q: NextQuery)
    ensures
        crate::text::carries(q.pairs_view(), "difficulty"@, match q.difficulty { Some(v) => Some(v@), None => None }),
{
    reveal_strlit("angle");
    reveal_strlit("color");
    reveal_strlit("difficulty");
    assert("difficulty"@.len() != "angle"@.len());
    assert("difficulty"@.len() != "color"@.len());
    let p0 = crate::http::str_pair("angle"@, q.angle);
    let p1 = crate::http::str_pair("difficulty"@, q.difficulty);
    let p2 = crate::http::opt_pair("color"@, LichessColor::opt_wire(q.color));
    let s0 = p0;
    let s1 = s0 + p1;
    let s2 = s1 + p2;
    assert(q.pairs_view() == s2);
    let v = match q.difficulty { Some(v) => Some(v@), None => None };
    crate::text::lemma_extend(s0, p1, "difficulty"@, v, true);
    crate::text::lemma_extend(s1, p2, "difficulty"@, v, false);
}

/// The pairs of [`NextQuery`] carry its field under `color`.
proof fn lemma_next_query_color(q: NextQuery)
    ensures
        crate::text::carries(q.pairs_view(), "color"@, LichessColor::opt_wire(q.color)),
{
    reveal_strlit("angle");
    reveal_strlit("color");
    reveal_strlit("difficulty");
    assert("color"@[0] != "angle"@[0]);
    assert("color"@.len() != "difficulty"@.len());
    let p0 = crate::http::str_pair("angle"@, q.angle);
    let p1 = crate::http::str_pair("difficulty"@, q.difficulty);
    let p2 = crate::http::opt_pair("color"@, LichessColor::opt_wire(q.color));
    let s0 = p0;
    let s1 = s0 + p1;
    let s2 = s1 + p2;
    assert(q.pairs_view() == s2);
    let v = LichessColor::opt_wire(q.color);
    crate::text::lemma_extend(s0, p1, "color"@, None, false);
    crate::text::lemma_extend(s1, p2, "color"@, v, true);
}

/// The pairs of [`NextQuery`] carry each of its fields under that field's own
/// key (`angle`, `difficulty`, `color`), with the value given to it, and a key only when its field is set.
pub proof fn lemma_next_query_carries_fields(q: NextQuery)
    ensures
        crate::text::carries(q.pairs_view(), "angle"@, match q.angle { Some(v) => Some(v@), None => None }),
        crate::text::carries(q.pairs_view(), "difficulty"@, match q.difficulty { Some(v) => Some(v@), None => None }),
        crate::text::carries(q.pairs_view(), "color"@, LichessColor::opt_wire(q.color)),
{
    lemma_next_query_angle(q);
    lemma_next_query_difficulty(q);
    lemma_next_query_color(q);
}

impl<'a> NextQuery<'a> {
    /// The query pairs, in order.
    pub open spec fn pairs_view(self) -> crate::text::Pairs {
        crate::http::str_pair("angle"@, self.angle)
            + crate::http::str_pair("difficulty"@, self.difficulty)
            + crate::http::opt_pair("color"@, LichessColor::opt_wire(self.color))
    }

    /// The query pairs.
    pub fn pairs(&self) -> (r: Vec<(String, String)>)
        ensures
            r.deep_view() == self.pairs_view(),
    {
        let mut out: Vec<(String, String)> = Vec::new();
        crate::http::push_opt_str(&mut out, "angle", self.angle);
        crate::http::push_opt_str(&mut out, "difficulty", self.difficulty);
        match self.color {
            Some(x) => crate::http::push_pair(&mut out, "color", String::from_str(x.as_str())),
            None => {},
        }
        assert(out.deep_view() =~= self.pairs_view());
        out
    }

    /// The query with every filter unset.
    pub open spec fn blank() -> Self {
        NextQuery { angle: None, difficulty: None, color: None }
    }
}

impl<'a> Default for NextQuery<'a> {
    /// Every filter unset.
    fn default() -> (r: Self)
        ensures
            r == Self::blank(),
    {
        NextQuery { angle: None, difficulty: None, color: None }
    }
}

/// Query parameters for puzzle activity.
#[derive(Debug, Clone)]
pub struct ActivityQuery {
    /// The number of entries.
    pub max: Option<u32>,
    /// Only entries before this timestamp (ms).
    pub before: Option<i64>,
    /// Only entries since this timestamp (ms).
    pub since: Option<i64>,
}

/// The pairs of [`ActivityQuery`] carry its field under `max`.
proof fn lemma_activity_query_max(q: ActivityQuery)
    ensures
        crate::text::carries(q.pairs_view(), "max"@, match q.max { Some(x) => Some(crate::text::dec_nat(x as nat)), None => None }),
{
    reveal_strlit("before");
    reveal_strlit("max");
    reveal_strlit("since");
    assert("max"@.len() != "before"@.len());
    assert("max"@.len() != "since"@.len());
    let p0 = crate::http::nat_pair("max"@, crate::http::opt_u32(q.max));
    let p1 = crate::http::int_pair("before"@, crate::http::opt_i64(q.before));
    let p2 = crate::http::int_pair("since"@, crate::http::opt_i64(q.since));
    let s0 = p0;
    let s1 = s0 + p1;
    let s2 = s1 + p2;
    assert(q.pairs_view() == s2);
    let v = match q.max { Some(x) => Some(crate::text::dec_nat(x as nat)), None => None };
    assert(p0 == crate::text::one_pair("max"@, v));
    crate::text::lemma_one_pair_carries("max"@, v);
    crate::text::lemma_extend(s0, p1, "max"@, v, false);
    crate::text::lemma_extend(s1, p2, "max"@, v, false);
}

/// The pairs of [`ActivityQuery`] carry its field under `before`.
proof fn lemma_activity_query_before(q: ActivityQuery)
    ensures
        crate::text::carries(q.pairs_view(), "before"@, match q.before { Some(x) => Some(crate::text::dec_int(x as int)), None => None }),
{
    reveal_strlit("before");
    reveal_strlit("max");
    reveal_strlit("since");
    assert("before"@.len() != "max"@.len());
    assert("before"@.len() != "since"@.len());
    let p0 = crate::http::nat_pair("max"@, crate::http::opt_u32(q.max));
    let p1 = crate::http::int_pair("before"@, crate::http::opt_i64(q.before));
    let p2 = crate::http::int_pair("since"@, crate::http::opt_i64(q.since));
    let s0 = p0;
    let s1 = s0 + p1;
    let s2 = s1 + p2;
    assert(q.pairs_view() == s2);
    let v = match q.before { Some(x) => Some(crate::text::dec_int(x as int)), None => None };
    crate::text::lemma_extend(s0, p1, "before"@, v, true);
    crate::text::lemma_extend(s1, p2, "before"@, v, false);
}

/// The pairs of [`ActivityQuery`] carry its field under `since`.
proof fn lemma_activity_query_since(q: ActivityQuery)
    ensures
        crate::text::carries(q.pairs_view(), "since"@, match q.since { Some(x) => Some(crate::text::dec_int(x as int)), None => None }),
{
    reveal_strlit("before");
    reveal_strlit("max");
    reveal_strlit("since");
    assert("since"@.len() != "before"@.len());
    assert("since"@.len() != "max"@.len());
    let p0 = crate::http::nat_pair("max"@, crate::http::opt_u32(q.max));
    let p1 = crate::http::int_pair("before"@, crate::http::opt_i64(q.before));
    let p2 = crate::http::int_pair("since"@, crate::http::opt_i64(q.since));
    let s0 = p0;
    let s1 = s0 + p1;
    let s2 = s1 + p2;
    assert(q.pairs_view() == s2);
    let v = match q.since { Some(x) => Some(crate::text::dec_int(x as int)), None => None };
    crate::text::lemma_extend(s0, p1, "since"@, None, false);
    crate::text::lemma_extend(s1, p2, "since"@, v, true);
}

/// The pairs of [`ActivityQuery`] carry each of its fields under that field's own
/// key (`max`, `before`, `since`), with the value given to it, and a key only when its field is set.
pub proof fn lemma_activity_query_carries_fields(q: ActivityQuery)
    ensures
        crate::text::carries(q.pairs_view(), "max"@, match q.max { Some(x) => Some(crate::text::dec_nat(x as nat)), None => None }),
        crate::text::carries(q.pairs_view(), "before"@, match q.before { Some(x) => Some(crate::text::dec_int(x as int)), None => None }),
        crate::text::carries(q.pairs_view(), "since"@, match q.since { Some(x) => Some(crate::text::dec_int(x as int)), None => None }),
{
    lemma_activity_query_max(q);
    lemma_activity_query_before(q);
    lemma_activity_query_since(q);
}

impl ActivityQuery {
    /// The query pairs, in order.
    pub open spec fn pairs_view(self) -> crate::text::Pairs {
        crate::http::nat_pair("max"@, crate::http::opt_u32(self.max))
            + crate::http::int_pair("before"@, crate::http::opt_i64(self.before))
            + crate::http::int_pair("since"@, crate::http::opt_i64(self.since))
    }

    /// The query pairs.
    pub fn pairs(&self) -> (r: Vec<(String, String)>)
        ensures
            r.deep_view() == self.pairs_view(),
    {
        let mut out: Vec<(String, String)> = Vec::new();
        crate::http::push_opt_u32(&mut out, "max", self.max);
        crate::http::push_opt_i64(&mut out, "before", self.before);
        crate::http::push_opt_i64(&mut out, "since", self.since);
        assert(out.deep_view() =~= self.pairs_view());
        out
    }

    /// The query with every filter unset.
    pub open spec fn blank() -> Self {
        ActivityQuery { max: None, before: None, since: None }
    }
}

impl Default for ActivityQuery {
    /// Every filter unset.
    fn default() -> (r: Self)
        ensures
            r == Self::blank(),
    {
        ActivityQuery { max: None, before: None, since: None }
    }
}

/// A solution submitted for a puzzle in a batch.
#[derive(Debug, Clone, PartialEq, Eq)]
pub struct LichessPuzzleSolution {
    /// The puzzle id.
    pub id: String,
    /// Whether it was solved correctly.
    pub win: bool,
    /// Whether the attempt was rated.
    pub rated: Option<bool>,
}

/// Each solution as its id, outcome and rating flag.
pub open spec fn solution_views(list: Seq<LichessPuzzleSolution>) -> Seq<(Seq<char>, bool, Option<bool>)> {
    list.map_values(|s: LichessPuzzleSolution| (s.id@, s.win, s.rated))
}

/// Each solution is sent as its own id, outcome and rating flag, in order.
pub proof fn lemma_solution_views(list: Seq<LichessPuzzleSolution>)
    ensures
        solution_views(list).len() == list.len(),
        forall|i: int|
            0 <= i < list.len() ==> #[trigger] solution_views(list)[i] == (list[i].id@, list[i].win, list[i].rated),
{
}

/// Copies a list of solutions.
pub fn copy_solutions(list: &[LichessPuzzleSolution]) -> (r: Vec<LichessPuzzleSolution>)
    ensures
        solution_views(r@) == solution_views(list@),
{
    let mut out: Vec<LichessPuzzleSolution> = Vec::new();
    let mut i: usize = 0;
    while i < list.len()
        invariant
            i <= list@.len(),
            solution_views(out@) =~= solution_views(list@.take(i as int)),
        decreases list@.len() - i,
    {
        let s = &list[i];
        let copy = LichessPuzzleSolution { id: s.id.clone(), win: s.win, rated: s.rated };
        let ghost before = out@;
        out.push(copy);
        proof {
            assert(out@ =~= before.push(copy));
            assert(list@.take(i + 1) =~= list@.take(i as int).push(list@[i as int]));
            assert(solution_views(out@) =~= solution_views(before)
                    .push((copy.id@, copy.win, copy.rated)));
            assert(solution_views(list@.take(i + 1)) =~= solution_views(list@.take(i as int)).push(
                (list@[i as int].id@, list@[i as int].win, list@[i as int].rated),
            ));
        }
        i = i + 1;
    }
    assert(list@.take(list@.len() as int) =~= list@);
    out
}

impl LichessPuzzleSolution {
    /// Creates a solution for a puzzle.
    pub fn new<I: IntoText>(id: I, win: bool) -> (r: LichessPuzzleSolution)
        ensures
            r.id@ == id.text_of(),
            r.win == win,
            r.rated is None,
    {
        LichessPuzzleSolution { id: id.into_text(), win, rated: None }
    }
}

impl<'a> PuzzlesApi<'a> {
    /// The client the accessor is bound to.
    pub closed spec fn client_of(&self) -> &'a LichessClient {
        self.client
    }

    /// Binds the accessor to a client.
    pub fn new(client: &'a LichessClient) -> (r: Self)
        ensures
            r.client_of() == client,
    {
        PuzzlesApi { client }
    }

    /// Gets the daily puzzle. `GET /api/puzzle/daily`
    pub fn daily(&self) -> (r: ApiRequest)
        ensures
            r@ == crate::http::bare(Method::Get, Host::Default, "/api/puzzle/daily"@),
    {
        let path = String::from_str("/api/puzzle/daily");
        self.client.request(Method::Get, Host::Default, path)
    }

    /// Gets a puzzle by id. `GET /api/puzzle/{id}`
    pub fn get(&self, id: &str) -> (r: ApiRequest)
        ensures
            r@ == crate::http::bare(
                Method::Get,
                Host::Default,
                "/api/puzzle/"@ + crate::text::segment_text(id@) + ""@,
            ),
    {
        let path = crate::http::path1("/api/puzzle/", id, "");
        self.client.request(Method::Get, Host::Default, path)
    }

    /// Gets a new puzzle, optionally filtered by theme, difficulty, and color.
    ///
    /// `GET /api/puzzle/next`
    pub fn next(&self, angle: Option<&str>, difficulty: Option<&str>, color: Option<LichessColor>) -> (r:
        ApiRequest)
        ensures
            r@ == crate::http::bare(Method::Get, Host::Default, "/api/puzzle/next"@).with_query(
                (NextQuery { angle, difficulty, color }).pairs_view(),
            ),
    {
        let query = NextQuery { angle, difficulty, color };
        let path = String::from_str("/api/puzzle/next");
        self.client.request(Method::Get, Host::Default, path).query(query.pairs())
    }

    /// Streams the authenticated user's puzzle activity, most recent first.
    ///
    /// `before`/`since` bound the window by timestamp (ms). Requires the
    /// `puzzle:read` scope. `GET /api/puzzle/activity`
    pub fn activity(&self, max: Option<u32>, before: Option<i64>, since: Option<i64>) -> (r: ApiRequest)
        ensures
            r@ == crate::http::bare(Method::Get, Host::Default, "/api/puzzle/activity"@).with_query(
                (ActivityQuery { max, before, since }).pairs_view(),
            ),
    {
        let query = ActivityQuery { max, before, since };
        let path = String::from_str("/api/puzzle/activity");
        self.client.request(Method::Get, Host::Default, path).query(query.pairs())
    }

    /// Gets a batch of puzzles for the given angle (theme/opening).
    ///
    /// `difficulty` (e.g. `easiest`…`hardest`) and `color` (`white`/`black`)
    /// tune the selection. `GET /api/puzzle/batch/{angle}`
    pub fn batch(&self, angle: &str, nb: u32, difficulty: Option<&str>, color: Option<LichessColor>) -> (r: ApiRequest)
        ensures
            r@ == crate::http::bare(
                Method::Get,
                Host::Default,
                "/api/puzzle/batch/"@ + crate::text::segment_text(angle@) + ""@,
            )
                .with_query(
                    seq![("nb"@, crate::text::dec_nat(nb as nat))]
                        + crate::http::str_pair("difficulty"@, difficulty)
                        + crate::http::opt_pair("color"@, LichessColor::opt_wire(color)),
                ),
    {
        let path = crate::http::path1("/api/puzzle/batch/", angle, "");
        let mut q: Vec<(String, String)> = Vec::new();
        crate::http::push_pair(&mut q, "nb", crate::text::u64_to_string(nb as u64));
        crate::http::push_opt_str(&mut q, "difficulty", difficulty);
        match color {
            Some(c) => crate::http::push_pair(&mut q, "color", String::from_str(c.as_str())),
            None => {},
        }
        assert(q.deep_view() =~= seq![("nb"@, crate::text::dec_nat(nb as nat))] + crate::http::str_pair("difficulty"@, difficulty)
            + crate::http::opt_pair("color"@, LichessColor::opt_wire(color)));
        self.client.request(Method::Get, Host::Default, path).query(q)
    }

    /// Submits puzzle solutions and updates ratings; the body is
    /// `{"solutions": [...]}`.
    ///
    /// When `nb` > 0, the response also carries a fresh batch of `nb` puzzles
    /// (equivalent to calling [`batch`](Self::batch)); pass `0` to skip it.
    /// `POST /api/puzzle/batch/{angle}`
    pub fn solve_batch(&self, angle: &str, solutions: &[LichessPuzzleSolution], nb: u32) -> (r: ApiRequest)
        ensures
            r@ == crate::http::bare(
                Method::Post,
                Host::Default,
                "/api/puzzle/batch/"@ + crate::text::segment_text(angle@) + ""@,
            )
                .with_query(seq![("nb"@, crate::text::dec_nat(nb as nat))])
                .with_body(
                    crate::http::BodyView::Json(
                        crate::http::JsonView::PuzzleSolutions(solution_views(solutions@)),
                    ),
                ),
    {
        let path = crate::http::path1("/api/puzzle/batch/", angle, "");
        let mut q: Vec<(String, String)> = Vec::new();
        crate::http::push_pair(&mut q, "nb", crate::text::u64_to_string(nb as u64));
        assert(q.deep_view() =~= seq![("nb"@, crate::text::dec_nat(nb as nat))]);
        let list = copy_solutions(solutions);
        self.client.request(Method::Post, Host::Default, path)
            .query(q)
            .json(JsonPayload::PuzzleSolutions(list))
    }

    /// Gets the authenticated user's puzzle dashboard for the last `days` days.
    ///
    /// `GET /api/puzzle/dashboard/{days}`
    pub fn dashboard(&self, days: u32) -> (r: ApiRequest)
        ensures
            r@ == crate::http::bare(
                Method::Get,
                Host::Default,
                "/api/puzzle/dashboard/"@ + crate::text::dec_nat(days as nat),
            ),
    {
        // `days` is numeric, so it needs no percent-encoding.
        let mut path = String::from_str("/api/puzzle/dashboard/");
        let n = crate::text::u64_to_string(days as u64);
        path.append(n.as_str());
        self.client.request(Method::Get, Host::Default, path)
    }

    /// Gets a puzzle replay session for a theme over the last `days` days.
    ///
    /// `GET /api/puzzle/replay/{days}/{theme}`
    pub fn replay(&self, days: u32, theme: &str) -> (r: ApiRequest)
        ensures
            r@ == crate::http::bare(
                Method::Get,
                Host::Default,
                "/api/puzzle/replay/"@
                    + crate::text::dec_nat(days as nat)
                    + "/"@
                    + crate::text::segment_text(
                    theme@,
                ),
            ),
    {
        let mut path = String::from_str("/api/puzzle/replay/");
        let n = crate::text::u64_to_string(days as u64);
        path.append(n.as_str());
        path.append("/");
        crate::text::push_segment(&mut path, theme);
        self.client.request(Method::Get, Host::Default, path)
    }

    /// Gets a user's Puzzle Storm dashboard.
    ///
    /// `days` sets how many days of history to include. `GET /api/storm/dashboard/{username}`
    pub fn storm_dashboard(&self, username: &str, days: Option<u32>) -> (r: ApiRequest)
        ensures
            r@ == crate::http::bare(
                Method::Get,
                Host::Default,
                "/api/storm/dashboard/"@ + crate::text::segment_text(username@) + ""@,
            )
                .with_query(crate::http::nat_pair("days"@, crate::http::opt_u32(days))),
    {
        let path = crate::http::path1("/api/storm/dashboard/", username, "");
        let mut q: Vec<(String, String)> = Vec::new();
        crate::http::push_opt_u32(&mut q, "days", days);
        assert(q.deep_view() =~= crate::http::nat_pair("days"@, crate::http::opt_u32(days)));
        self.client.request(Method::Get, Host::Default, path).query(q)
    }

    /// Gets a puzzle race by id. `GET /api/racer/{id}`
    pub fn racer(&self, id: &str) -> (r: ApiRequest)
        ensures
            r@ == crate::http::bare(
                Method::Get,
                Host::Default,
                "/api/racer/"@ + crate::text::segment_text(id@) + ""@,
            ),
    {
        let path = crate::http::path1("/api/racer/", id, "");
        self.client.request(Method::Get, Host::Default, path)
    }

    /// Creates a new puzzle race. `POST /api/racer`
    pub fn create_racer(&self) -> (r: ApiRequest)
        ensures
            r@ == crate::http::bare(Method::Post, Host::Default, "/api/racer"@),
    {
        let path = String::from_str("/api/racer");
        self.client.request(Method::Post, Host::Default, path)
    }
}

impl LichessClient {
    /// Puzzles API: the daily puzzle, lookups, and activity.
    pub fn puzzles(&self) -> (r: PuzzlesApi<'_>)
        ensures
            r.client_of() == self,
    {
        PuzzlesApi::new(self)
    }
}

} // verus!
