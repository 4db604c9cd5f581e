//! The Studies API: export and import study PGN, list studies, edit chapters.
//!
//! Reached through [`LichessClient::studies`].

use vstd::prelude::*;

use crate::client::LichessClient;
use crate::config::Host;
use crate::http::{ApiRequest, Method};
use crate::model::{LichessColor, LichessVariantKey, PgnExportOptions};

verus! {

/// Analysis mode applied to chapters imported into a study.
#[derive(Debug, Clone, Copy, PartialEq, Eq, Structural)]
pub enum StudyChapterMode {
    /// Practise with the computer.
    Practice,
    /// Hide the next moves.
    Conceal,
    /// Interactive lesson (gamebook).
    Gamebook,
}

/// The wire text of each [`StudyChapterMode`], as the API spells it: `Practice` is
/// `practice`, `Conceal` is `conceal`, `Gamebook` is `gamebook`.
pub proof fn lemma_study_chapter_mode_wire_texts()
    ensures
        StudyChapterMode::Practice.wire() == seq!['p', 'r', 'a', 'c', 't', 'i', 'c', 'e'],
        StudyChapterMode::Conceal.wire() == seq!['c', 'o', 'n', 'c', 'e', 'a', 'l'],
        StudyChapterMode::Gamebook.wire() == seq!['g', 'a', 'm', 'e', 'b', 'o', 'o', 'k'],
{
    reveal_strlit("conceal");
    reveal_strlit("gamebook");
    reveal_strlit("practice");
    assert(StudyChapterMode::Practice.wire() =~= seq!['p', 'r', 'a', 'c', 't', 'i', 'c', 'e']);
    assert(StudyChapterMode::Conceal.wire() =~= seq!['c', 'o', 'n', 'c', 'e', 'a', 'l']);
    assert(StudyChapterMode::Gamebook.wire() =~= seq!['g', 'a', 'm', 'e', 'b', 'o', 'o', 'k']);
}

impl StudyChapterMode {
    /// The wire representation of each value.
    pub open spec fn wire(self) -> Seq<char> {
        match self {
            StudyChapterMode::Practice => "practice"@,
            StudyChapterMode::Conceal => "conceal"@,
            StudyChapterMode::Gamebook => "gamebook"@,
        }
    }

    /// The wire representation.
    pub fn as_str(self) -> (r: &'static str)
        ensures
            r@ == self.wire(),
    {
        match self {
            StudyChapterMode::Practice => "practice",
            StudyChapterMode::Conceal => "conceal",
            StudyChapterMode::Gamebook => "gamebook",
        }
    }

    /// The wire representation of an optional value.
    pub open spec fn opt_wire(o: Option<StudyChapterMode>) -> Option<Seq<char>> {
        match o {
            Some(x) => Some(x.wire()),
            None => None,
        }
    }
}

/// Form body for importing PGN into a study.
#[derive(Debug, Clone)]
pub struct ImportForm<'a> {
    /// The chapter name.
    pub name: &'a str,
    /// The PGN to import.
    pub pgn: &'a str,
    /// The board orientation.
    pub orientation: Option<LichessColor>,
    /// The variant.
    pub variant: Option<LichessVariantKey>,
    /// The analysis mode.
    pub mode: Option<StudyChapterMode>,
}

/// The pairs of [`ImportForm`] carry its field under `name`.
proof fn lemma_import_form_name(q: ImportForm)
    ensures
        crate::text::carries(q.pairs_view(), "name"@, Some(q.name@)),
{
    reveal_strlit("mode");
    reveal_strlit("name");
    reveal_strlit("orientation");
    reveal_strlit("pgn");
    reveal_strlit("variant");
    assert("name"@[0] != "mode"@[0]);
    assert("name"@.len() != "orientation"@.len());
    assert("name"@.len() != "pgn"@.len());
    assert("name"@.len() != "variant"@.len());
    let p0 = seq![("name"@, q.name@)];
    let p1 = seq![("pgn"@, q.pgn@)];
    let p2 = crate::http::opt_pair("orientation"@, LichessColor::opt_wire(q.orientation));
    let p3 = crate::http::opt_pair("variant"@, LichessVariantKey::opt_wire(q.variant));
    let p4 = crate::http::opt_pair("mode"@, StudyChapterMode::opt_wire(q.mode));
    let s0 = p0;
    let s1 = s0 + p1;
    let s2 = s1 + p2;
    let s3 = s2 + p3;
    let s4 = s3 + p4;
    assert(q.pairs_view() == s4);
    let v = Some(q.name@);
    assert(p0 == crate::text::one_pair("name"@, v));
    crate::text::lemma_one_pair_carries("name"@, v);
    crate::text::lemma_extend(s0, p1, "name"@, v, false);
    crate::text::lemma_extend(s1, p2, "name"@, v, false);
    crate::text::lemma_extend(s2, p3, "name"@, v, false);
    crate::text::lemma_extend(s3, p4, "name"@, v, false);
}

/// The pairs of [`ImportForm`] carry its field under `pgn`.
proof fn lemma_import_form_pgn(q: ImportForm)
    ensures
        crate::text::carries(q.pairs_view(), "pgn"@, Some(q.pgn@)),
{
    reveal_strlit("mode");
    reveal_strlit("name");
    reveal_strlit("orientation");
    reveal_strlit("pgn");
    reveal_strlit("variant");
    assert("pgn"@.len() != "mode"@.len());
    assert("pgn"@.len() != "name"@.len());
    assert("pgn"@.len() != "orientation"@.len());
    assert("pgn"@.len() != "variant"@.len());
    let p0 = seq![("name"@, q.name@)];
    let p1 = seq![("pgn"@, q.pgn@)];
    let p2 = crate::http::opt_pair("orientation"@, LichessColor::opt_wire(q.orientation));
    let p3 = crate::http::opt_pair("variant"@, LichessVariantKey::opt_wire(q.variant));
    let p4 = crate::http::opt_pair("mode"@, StudyChapterMode::opt_wire(q.mode));
    let s0 = p0;
    let s1 = s0 + p1;
    let s2 = s1 + p2;
    let s3 = s2 + p3;
    let s4 = s3 + p4;
    assert(q.pairs_view() == s4);
    let v = Some(q.pgn@);
    crate::text::lemma_extend(s0, p1, "pgn"@, v, true);
    crate::text::lemma_extend(s1, p2, "pgn"@, v, false);
    crate::text::lemma_extend(s2, p3, "pgn"@, v, false);
    crate::text::lemma_extend(s3, p4, "pgn"@, v, false);
}

/// The pairs of [`ImportForm`] carry its field under `orientation`.
proof fn lemma_import_form_orientation(q: ImportForm)
    ensures
        crate::text::carries(q.pairs_view(), "orientation"@, LichessColor::opt_wire(q.orientation)),
{
    reveal_strlit("mode");
    reveal_strlit("name");
    reveal_strlit("orientation");
    reveal_strlit("pgn");
    reveal_strlit("variant");
    assert("orientation"@.len() != "mode"@.len());
    assert("orientation"@.len() != "name"@.len());
    assert("orientation"@.len() != "pgn"@.len());
    assert("orientation"@.len() != "variant"@.len());
    let p0 = seq![("name"@, q.name@)];
    let p1 = seq![("pgn"@, q.pgn@)];
    let p2 = crate::http::opt_pair("orientation"@, LichessColor::opt_wire(q.orientation));
    let p3 = crate::http::opt_pair("variant"@, LichessVariantKey::opt_wire(q.variant));
    let p4 = crate::http::opt_pair("mode"@, StudyChapterMode::opt_wire(q.mode));
    let s0 = p0;
    let s1 = s0 + p1;
    let s2 = s1 + p2;
    let s3 = s2 + p3;
    let s4 = s3 + p4;
    assert(q.pairs_view() == s4);
    let v = LichessColor::opt_wire(q.orientation);
    crate::text::lemma_extend(s0, p1, "orientation"@, None, false);
    crate::text::lemma_extend(s1, p2, "orientation"@, v, true);
    crate::text::lemma_extend(s2, p3, "orientation"@, v, false);
    crate::text::lemma_extend(s3, p4, "orientation"@, v, false);
}

/// The pairs of [`ImportForm`] carry its field under `variant`.
proof fn lemma_import_form_variant(q: ImportForm)
    ensures
        crate::text::carries(q.pairs_view(), "variant"@, LichessVariantKey::opt_wire(q.variant)),
{
    reveal_strlit("mode");
    reveal_strlit("name");
    reveal_strlit("orientation");
    reveal_strlit("pgn");
    reveal_strlit("variant");
    assert("variant"@.len() != "mode"@.len());
    assert("variant"@.len() != "name"@.len());
    assert("variant"@.len() != "orientation"@.len());
    assert("variant"@.len() != "pgn"@.len());
    let p0 = seq![("name"@, q.name@)];
    let p1 = seq![("pgn"@, q.pgn@)];
    let p2 = crate::http::opt_pair("orientation"@, LichessColor::opt_wire(q.orientation));
    let p3 = crate::http::opt_pair("variant"@, LichessVariantKey::opt_wire(q.variant));
    let p4 = crate::http::opt_pair("mode"@, StudyChapterMode::opt_wire(q.mode));
    let s0 = p0;
    let s1 = s0 + p1;
    let s2 = s1 + p2;
    let s3 = s2 + p3;
    let s4 = s3 + p4;
    assert(q.pairs_view() == s4);
    let v = LichessVariantKey::opt_wire(q.variant);
    crate::text::lemma_extend(s0, p1, "variant"@, None, false);
    crate::text::lemma_extend(s1, p2, "variant"@, None, false);
    crate::text::lemma_extend(s2, p3, "variant"@, v, true);
    crate::text::lemma_extend(s3, p4, "variant"@, v, false);
}

/// The pairs of [`ImportForm`] carry its field under `mode`.
proof fn lemma_import_form_mode(q: ImportForm)
    ensures
        crate::text::carries(q.pairs_view(), "mode"@, StudyChapterMode::opt_wire(q.mode)),
{
    reveal_strlit("mode");
    reveal_strlit("name");
    reveal_strlit("orientation");
    reveal_strlit("pgn");
    reveal_strlit("variant");
    assert("mode"@[0] != "name"@[0]);
    assert("mode"@.len() != "orientation"@.len());
    assert("mode"@.len() != "pgn"@.len());
    assert("mode"@.len() != "variant"@.len());
    let p0 = seq![("name"@, q.name@)];
    let p1 = seq![("pgn"@, q.pgn@)];
    let p2 = crate::http::opt_pair("orientation"@, LichessColor::opt_wire(q.orientation));
    let p3 = crate::http::opt_pair("variant"@, LichessVariantKey::opt_wire(q.variant));
    let p4 = crate::http::opt_pair("mode"@, StudyChapterMode::opt_wire(q.mode));
    let s0 = p0;
    let s1 = s0 + p1;
    let s2 = s1 + p2;
    let s3 = s2 + p3;
    let s4 = s3 + p4;
    assert(q.pairs_view() == s4);
    let v = StudyChapterMode::opt_wire(q.mode);
    crate::text::lemma_extend(s0, p1, "mode"@, None, false);
    crate::text::lemma_extend(s1, p2, "mode"@, None, false);
    crate::text::lemma_extend(s2, p3, "mode"@, None, false);
    crate::text::lemma_extend(s3, p4, "mode"@, v, true);
}

/// The pairs of [`ImportForm`] carry each of its fields under that field's own
/// key (`name`, `pgn`, `orientation`, `variant`, `mode`), with the value given to it, and a key only when its field is set.
pub proof fn lemma_import_form_carries_fields(q: ImportForm)
    ensures
        crate::text::carries(q.pairs_view(), "name"@, Some(q.name@)),
        crate::text::carries(q.pairs_view(), "pgn"@, Some(q.pgn@)),
        crate::text::carries(q.pairs_view(), "orientation"@, LichessColor::opt_wire(q.orientation)),
        crate::text::carries(q.pairs_view(), "variant"@, LichessVariantKey::opt_wire(q.variant)),
        crate::text::carries(q.pairs_view(), "mode"@, StudyChapterMode::opt_wire(q.mode)),
{
    lemma_import_form_name(q);
    lemma_import_form_pgn(q);
    lemma_import_form_orientation(q);
    lemma_import_form_variant(q);
    lemma_import_form_mode(q);
}

impl<'a> ImportForm<'a> {
    /// The query pairs, in order.
    pub open spec fn pairs_view(self) -> crate::text::Pairs {
        seq![("name"@, self.name@)]
            + seq![("pgn"@, self.pgn@)]
            + crate::http::opt_pair("orientation"@, LichessColor::opt_wire(self.orientation))
            + crate::http::opt_pair("variant"@, LichessVariantKey::opt_wire(self.variant))
            + crate::http::opt_pair("mode"@, StudyChapterMode::opt_wire(self.mode))
    }

    /// The query pairs.
    pub fn pairs(&self) -> (r: Vec<(String, String)>)
        ensures
            r.deep_view() == self.pairs_view(),
    {
        let mut out: Vec<(String, String)> = Vec::new();
        crate::http::push_pair(&mut out, "name", String::from_str(self.name));
        crate::http::push_pair(&mut out, "pgn", String::from_str(self.pgn));
        match self.orientation {
            Some(x) => crate::http::push_pair(&mut out, "orientation", String::from_str(x.as_str())),
            None => {},
        }
        match self.variant {
            Some(x) => crate::http::push_pair(&mut out, "variant", String::from_str(x.as_str())),
            None => {},
        }
        match self.mode {
            Some(x) => crate::http::push_pair(&mut out, "mode", String::from_str(x.as_str())),
            None => {},
        }
        assert(out.deep_view() =~= self.pairs_view());
        out
    }
}

/// Accessor for the Studies API.
#[derive(Debug)]
pub struct StudiesApi<'a> {
    client: &'a LichessClient,
}

impl<'a> StudiesApi<'a> {
    /// The client the accessor is bound to.
    pub closed spec fn client_of(&self) -> &'a LichessClient {
        self.client
    }

    /// Binds the accessor to a client.
    pub fn new(client: &'a LichessClient) -> (r: Self)
        ensures
            r.client_of() == client,
    {
        StudiesApi { client }
    }

    /// Exports one chapter as PGN. `GET /api/study/{studyId}/{chapterId}.pgn`
    pub fn export_chapter_pgn(&self, study_id: &str, chapter_id: &str, options: &PgnExportOptions) -> (r: ApiRequest)
        ensures
            r@ == crate::http::bare(
                Method::Get,
                Host::Default,
                "/api/study/"@
                    + crate::text::segment_text(study_id@)
                    + "/"@
                    + crate::text::segment_text(chapter_id@)
                    + ".pgn"@,
            )
                .with_query(options.pairs_view()),
    {
        let path = crate::http::path2("/api/study/", study_id, "/", chapter_id, ".pgn");
        let q = options.pairs();
        self.client.request(Method::Get, Host::Default, path).query(q)
    }

    /// Exports all chapters of a study as PGN. `GET /api/study/{studyId}.pgn`
    pub fn export_study_pgn(&self, study_id: &str, options: &PgnExportOptions) -> (r: ApiRequest)
        ensures
            r@ == crate::http::bare(
                Method::Get,
                Host::Default,
                "/api/study/"@ + crate::text::segment_text(study_id@) + ".pgn"@,
            )
                .with_query(options.pairs_view()),
    {
        let path = crate::http::path1("/api/study/", study_id, ".pgn");
        let q = options.pairs();
        self.client.request(Method::Get, Host::Default, path).query(q)
    }

    /// Reads a study's metadata headers without the body, for cheap
    /// change-detection; the answer's `Last-Modified` header is the value of
    /// interest. `HEAD /api/study/{studyId}.pgn`
    pub fn study_pgn_metadata(&self, study_id: &str) -> (r: ApiRequest)
        ensures
            r@ == crate::http::bare(
                Method::Head,
                Host::Default,
                "/api/study/"@ + crate::text::segment_text(study_id@) + ".pgn"@,
            ),
    {
        let path = crate::http::path1("/api/study/", study_id, ".pgn");
        self.client.request(Method::Head, Host::Default, path)
    }

    /// Exports all of a user's studies as PGN.
    /// `GET /api/study/by/{username}/export.pgn`
    pub fn export_all_pgn(&self, username: &str, options: &PgnExportOptions) -> (r: ApiRequest)
        ensures
            r@ == crate::http::bare(
                Method::Get,
                Host::Default,
                "/api/study/by/"@ + crate::text::segment_text(username@) + "/export.pgn"@,
            )
                .with_query(options.pairs_view()),
    {
        let path = crate::http::path1("/api/study/by/", username, "/export.pgn");
        let q = options.pairs();
        self.client.request(Method::Get, Host::Default, path).query(q)
    }

    /// Streams metadata for a user's studies. `GET /api/study/by/{username}`
    pub fn list_metadata(&self, username: &str) -> (r: ApiRequest)
        ensures
            r@ == crate::http::bare(
                Method::Get,
                Host::Default,
                "/api/study/by/"@ + crate::text::segment_text(username@) + ""@,
            ),
    {
        let path = crate::http::path1("/api/study/by/", username, "");
        self.client.request(Method::Get, Host::Default, path)
    }

    /// Imports PGN as one or more chapters of a study.
    /// `POST /api/study/{studyId}/import-pgn`
    pub fn import_pgn(&self, study_id: &'a str, name: &'a str, pgn: &'a str) -> (r: ImportPgnRequest<'a>)
        ensures
            r.client_of() == self.client_of(),
            r.study_id_of() == study_id,
            r.form_of() == (ImportForm { name, pgn, orientation: None, variant: None, mode: None }),
    {
        ImportPgnRequest::new(self.client, study_id, name, pgn)
    }

    /// Deletes a chapter from a study.
    /// `DELETE /api/study/{studyId}/{chapterId}`
    pub fn delete_chapter(&self, study_id: &str, chapter_id: &str) -> (r: ApiRequest)
        ensures
            r@ == crate::http::bare(
                Method::Delete,
                Host::Default,
                "/api/study/"@
                    + crate::text::segment_text(study_id@)
                    + "/"@
                    + crate::text::segment_text(chapter_id@)
                    + ""@,
            ),
    {
        let path = crate::http::path2("/api/study/", study_id, "/", chapter_id, "");
        self.client.request(Method::Delete, Host::Default, path)
    }

    /// Starts building a new (empty) study. `POST /api/study`
    pub fn create_study(&self, name: &'a str) -> (r: CreateStudyRequest<'a>)
        ensures
            r.client_of() == self.client_of(),
            r.form_of() == CreateStudyForm::named(name),
    {
        CreateStudyRequest::new(self.client, name)
    }

    /// Replaces the moves of a chapter from PGN.
    /// `POST /api/study/{studyId}/{chapterId}/moves`
    pub fn update_chapter_moves(&self, study_id: &str, chapter_id: &str, pgn: &str) -> (r: ApiRequest)
        ensures
            r@ == crate::http::bare(
                Method::Post,
                Host::Default,
                "/api/study/"@
                    + crate::text::segment_text(study_id@)
                    + "/"@
                    + crate::text::segment_text(chapter_id@)
                    + "/moves"@,
            )
                .with_body(crate::http::BodyView::Form(seq![("pgn"@, pgn@)])),
    {
        let path = crate::http::path2("/api/study/", study_id, "/", chapter_id, "/moves");
        let mut q: Vec<(String, String)> = Vec::new();
        crate::http::push_pair(&mut q, "pgn", String::from_str(pgn));
        assert(q.deep_view() =~= seq![("pgn"@, pgn@)]);
        self.client.request(Method::Post, Host::Default, path).form(q)
    }

    /// Updates the PGN tags of a chapter.
    /// `POST /api/study/{studyId}/{chapterId}/tags`
    pub fn update_chapter_tags(&self, study_id: &str, chapter_id: &str, pgn_tags: &str) -> (r: ApiRequest)
        ensures
            r@ == crate::http::bare(
                Method::Post,
                Host::Default,
                "/api/study/"@
                    + crate::text::segment_text(study_id@)
                    + "/"@
                    + crate::text::segment_text(chapter_id@)
                    + "/tags"@,
            )
                .with_body(crate::http::BodyView::Form(seq![("pgn"@, pgn_tags@)])),
    {
        let path = crate::http::path2("/api/study/", study_id, "/", chapter_id, "/tags");
        let mut q: Vec<(String, String)> = Vec::new();
        crate::http::push_pair(&mut q, "pgn", String::from_str(pgn_tags));
        assert(q.deep_view() =~= seq![("pgn"@, pgn_tags@)]);
        self.client.request(Method::Post, Host::Default, path).form(q)
    }
}

/// Form body for creating a study.
#[derive(Debug, Clone)]
pub struct CreateStudyForm<'a> {
    /// The study name.
    pub name: &'a str,
    /// The visibility.
    pub visibility: Option<&'a str>,
    /// Who may use computer analysis.
    pub computer: Option<&'a str>,
    /// Who may use the opening explorer.
    pub explorer: Option<&'a str>,
    /// Who may clone the study.
    pub cloneable: Option<&'a str>,
    /// Who may share/export the study.
    pub shareable: Option<&'a str>,
    /// Who may use the chat.
    pub chat: Option<&'a str>,
    /// Whether everyone stays on the same chapter/position.
    pub sticky: Option<bool>,
}

/// The pairs of [`CreateStudyForm`] carry its field under `name`.
proof fn lemma_create_study_form_name(q: CreateStudyForm)
    ensures
        crate::text::carries(q.pairs_view(), "name"@, Some(q.name@)),
{
    reveal_strlit("chat");
    reveal_strlit("cloneable");
    reveal_strlit("computer");
    reveal_strlit("explorer");
    reveal_strlit("name");
    reveal_strlit("shareable");
    reveal_strlit("sticky");
    reveal_strlit("visibility");
    assert("name"@[0] != "chat"@[0]);
    assert("name"@.len() != "cloneable"@.len());
    assert("name"@.len() != "computer"@.len());
    assert("name"@.len() != "explorer"@.len());
    assert("name"@.len() != "shareable"@.len());
    assert("name"@.len() != "sticky"@.len());
    assert("name"@.len() != "visibility"@.len());
    let p0 = seq![("name"@, q.name@)];
    let p1 = crate::http::str_pair("visibility"@, q.visibility);
    let p2 = crate::http::str_pair("computer"@, q.computer);
    let p3 = crate::http::str_pair("explorer"@, q.explorer);
    let p4 = crate::http::str_pair("cloneable"@, q.cloneable);
    let p5 = crate::http::str_pair("shareable"@, q.shareable);
    let p6 = crate::http::str_pair("chat"@, q.chat);
    let p7 = crate::http::bool_pair("sticky"@, q.sticky);
    let s0 = p0;
    let s1 = s0 + p1;
    let s2 = s1 + p2;
    let s3 = s2 + p3;
    let s4 = s3 + p4;
    let s5 = s4 + p5;
    let s6 = s5 + p6;
    let s7 = s6 + p7;
    assert(q.pairs_view() == s7);
    let v = Some(q.name@);
    assert(p0 == crate::text::one_pair("name"@, v));
    crate::text::lemma_one_pair_carries("name"@, v);
    crate::text::lemma_extend(s0, p1, "name"@, v, false);
    crate::text::lemma_extend(s1, p2, "name"@, v, false);
    crate::text::lemma_extend(s2, p3, "name"@, v, false);
    crate::text::lemma_extend(s3, p4, "name"@, v, false);
    crate::text::lemma_extend(s4, p5, "name"@, v, false);
    crate::text::lemma_extend(s5, p6, "name"@, v, false);
    crate::text::lemma_extend(s6, p7, "name"@, v, false);
}

/// The pairs of [`CreateStudyForm`] carry its field under `visibility`.
proof fn lemma_create_study_form_visibility(q: CreateStudyForm)
    ensures
        crate::text::carries(q.pairs_view(), "visibility"@, match q.visibility { Some(v) => Some(v@), None => None }),
{
    reveal_strlit("chat");
    reveal_strlit("cloneable");
    reveal_strlit("computer");
    reveal_strlit("explorer");
    reveal_strlit("name");
    reveal_strlit("shareable");
    reveal_strlit("sticky");
    reveal_strlit("visibility");
    assert("visibility"@.len() != "chat"@.len());
    assert("visibility"@.len() != "cloneable"@.len());
    assert("visibility"@.len() != "computer"@.len());
    assert("visibility"@.len() != "explorer"@.len());
    assert("visibility"@.len() != "name"@.len());
    assert("visibility"@.len() != "shareable"@.len());
    assert("visibility"@.len() != "sticky"@.len());
    let p0 = seq![("name"@, q.name@)];
    let p1 = crate::http::str_pair("visibility"@, q.visibility);
    let p2 = crate::http::str_pair("computer"@, q.computer);
    let p3 = crate::http::str_pair("explorer"@, q.explorer);
    let p4 = crate::http::str_pair("cloneable"@, q.cloneable);
    let p5 = crate::http::str_pair("shareable"@, q.shareable);
    let p6 = crate::http::str_pair("chat"@, q.chat);
    let p7 = crate::http::bool_pair("sticky"@, q.sticky);
    let s0 = p0;
    let s1 = s0 + p1;
    let s2 = s1 + p2;
    let s3 = s2 + p3;
    let s4 = s3 + p4;
    let s5 = s4 + p5;
    let s6 = s5 + p6;
    let s7 = s6 + p7;
    assert(q.pairs_view() == s7);
    let v = match q.visibility { Some(v) => Some(v@), None => None };
    crate::text::lemma_extend(s0, p1, "visibility"@, v, true);
    crate::text::lemma_extend(s1, p2, "visibility"@, v, false);
    crate::text::lemma_extend(s2, p3, "visibility"@, v, false);
    crate::text::lemma_extend(s3, p4, "visibility"@, v, false);
    crate::text::lemma_extend(s4, p5, "visibility"@, v, false);
    crate::text::lemma_extend(s5, p6, "visibility"@, v, false);
    crate::text::lemma_extend(s6, p7, "visibility"@, v, false);
}

/// The pairs of [`CreateStudyForm`] carry its field under `computer`.
proof fn lemma_create_study_form_computer(q: CreateStudyForm)
    ensures
        crate::text::carries(q.pairs_view(), "computer"@, match q.computer { Some(v) => Some(v@), None => None }),
{
    reveal_strlit("chat");
    reveal_strlit("cloneable");
    reveal_strlit("computer");
    reveal_strlit("explorer");
    reveal_strlit("name");
    reveal_strlit("shareable");
    reveal_strlit("sticky");
    reveal_strlit("visibility");
    assert("computer"@.len() != "chat"@.len());
    assert("computer"@.len() != "cloneable"@.len());
    assert("computer"@[0] != "explorer"@[0]);
    assert("computer"@.len() != "name"@.len());
    assert("computer"@.len() != "shareable"@.len());
    assert("computer"@.len() != "sticky"@.len());
    assert("computer"@.len() != "visibility"@.len());
    let p0 = seq![("name"@, q.name@)];
    let p1 = crate::http::str_pair("visibility"@, q.visibility);
    let p2 = crate::http::str_pair("computer"@, q.computer);
    let p3 = crate::http::str_pair("explorer"@, q.explorer);
    let p4 = crate::http::str_pair("cloneable"@, q.cloneable);
    let p5 = crate::http::str_pair("shareable"@, q.shareable);
    let p6 = crate::http::str_pair("chat"@, q.chat);
    let p7 = crate::http::bool_pair("sticky"@, q.sticky);
    let s0 = p0;
    let s1 = s0 + p1;
    let s2 = s1 + p2;
    let s3 = s2 + p3;
    let s4 = s3 + p4;
    let s5 = s4 + p5;
    let s6 = s5 + p6;
    let s7 = s6 + p7;
    assert(q.pairs_view() == s7);
    let v = match q.computer { Some(v) => Some(v@), None => None };
    crate::text::lemma_extend(s0, p1, "computer"@, None, false);
    crate::text::lemma_extend(s1, p2, "computer"@, v, true);
    crate::text::lemma_extend(s2, p3, "computer"@, v, false);
    crate::text::lemma_extend(s3, p4, "computer"@, v, false);
    crate::text::lemma_extend(s4, p5, "computer"@, v, false);
    crate::text::lemma_extend(s5, p6, "computer"@, v, false);
    crate::text::lemma_extend(s6, p7, "computer"@, v, false);
}

/// The pairs of [`CreateStudyForm`] carry its field under `explorer`.
proof fn lemma_create_study_form_explorer(q: CreateStudyForm)
    ensures
        crate::text::carries(q.pairs_view(), "explorer"@, match q.explorer { Some(v) => Some(v@), None => None }),
{
    reveal_strlit("chat");
    reveal_strlit("cloneable");
    reveal_strlit("computer");
    reveal_strlit("explorer");
    reveal_strlit("name");
    reveal_strlit("shareable");
    reveal_strlit("sticky");
    reveal_strlit("visibility");
    assert("explorer"@.len() != "chat"@.len());
    assert("explorer"@.len() != "cloneable"@.len());
    assert("explorer"@[0] != "computer"@[0]);
    assert("explorer"@.len() != "name"@.len());
    assert("explorer"@.len() != "shareable"@.len());
    assert("explorer"@.len() != "sticky"@.len());
    assert("explorer"@.len() != "visibility"@.len());
    let p0 = seq![("name"@, q.name@)];
    let p1 = crate::http::str_pair("visibility"@, q.visibility);
    let p2 = crate::http::str_pair("computer"@, q.computer);
    let p3 = crate::http::str_pair("explorer"@, q.explorer);
    let p4 = crate::http::str_pair("cloneable"@, q.cloneable);
    let p5 = crate::http::str_pair("shareable"@, q.shareable);
    let p6 = crate::http::str_pair("chat"@, q.chat);
    let p7 = crate::http::bool_pair("sticky"@, q.sticky);
    let s0 = p0;
    let s1 = s0 + p1;
    let s2 = s1 + p2;
    let s3 = s2 + p3;
    let s4 = s3 + p4;
    let s5 = s4 + p5;
    let s6 = s5 + p6;
    let s7 = s6 + p7;
    assert(q.pairs_view() == s7);
    let v = match q.explorer { Some(v) => Some(v@), None => None };
    crate::text::lemma_extend(s0, p1, "explorer"@, None, false);
    crate::text::lemma_extend(s1, p2, "explorer"@, None, false);
    crate::text::lemma_extend(s2, p3, "explorer"@, v, true);
    crate::text::lemma_extend(s3, p4, "explorer"@, v, false);
    crate::text::lemma_extend(s4, p5, "explorer"@, v, false);
    crate::text::lemma_extend(s5, p6, "explorer"@, v, false);
    crate::text::lemma_extend(s6, p7, "explorer"@, v, false);
}

/// The pairs of [`CreateStudyForm`] carry its field under `cloneable`.
proof fn lemma_create_study_form_cloneable(q: CreateStudyForm)
    ensures
        crate::text::carries(q.pairs_view(), "cloneable"@, match q.cloneable { Some(v) => Some(v@), None => None }),
{
    reveal_strlit("chat");
    reveal_strlit("cloneable");
    reveal_strlit("computer");
    reveal_strlit("explorer");
    reveal_strlit("name");
    reveal_strlit("shareable");
    reveal_strlit("sticky");
    reveal_strlit("visibility");
    assert("cloneable"@.len() != "chat"@.len());
    assert("cloneable"@.len() != "computer"@.len());
    assert("cloneable"@.len() != "explorer"@.len());
    assert("cloneable"@.len() != "name"@.len());
    assert("cloneable"@[0] != "shareable"@[0]);
    assert("cloneable"@.len() != "sticky"@.len());
    assert("cloneable"@.len() != "visibility"@.len());
    let p0 = seq![("name"@, q.name@)];
    let p1 = crate::http::str_pair("visibility"@, q.visibility);
    let p2 = crate::http::str_pair("computer"@, q.computer);
    let p3 = crate::http::str_pair("explorer"@, q.explorer);
    let p4 = crate::http::str_pair("cloneable"@, q.cloneable);
    let p5 = crate::http::str_pair("shareable"@, q.shareable);
    let p6 = crate::http::str_pair("chat"@, q.chat);
    let p7 = crate::http::bool_pair("sticky"@, q.sticky);
    let s0 = p0;
    let s1 = s0 + p1;
    let s2 = s1 + p2;
    let s3 = s2 + p3;
    let s4 = s3 + p4;
    let s5 = s4 + p5;
    let s6 = s5 + p6;
    let s7 = s6 + p7;
    assert(q.pairs_view() == s7);
    let v = match q.cloneable { Some(v) => Some(v@), None => None };
    crate::text::lemma_extend(s0, p1, "cloneable"@, None, false);
    crate::text::lemma_extend(s1, p2, "cloneable"@, None, false);
    crate::text::lemma_extend(s2, p3, "cloneable"@, None, false);
    crate::text::lemma_extend(s3, p4, "cloneable"@, v, true);
    crate::text::lemma_extend(s4, p5, "cloneable"@, v, false);
    crate::text::lemma_extend(s5, p6, "cloneable"@, v, false);
    crate::text::lemma_extend(s6, p7, "cloneable"@, v, false);
}

/// The pairs of [`CreateStudyForm`] carry its field under `shareable`.
proof fn lemma_create_study_form_shareable(q: CreateStudyForm)
    ensures
        crate::text::carries(q.pairs_view(), "shareable"@, match q.shareable { Some(v) => Some(v@), None => None }),
{
    reveal_strlit("chat");
    reveal_strlit("cloneable");
    reveal_strlit("computer");
    reveal_strlit("explorer");
    reveal_strlit("name");
    reveal_strlit("shareable");
    reveal_strlit("sticky");
    reveal_strlit("visibility");
    assert("shareable"@.len() != "chat"@.len());
    assert("shareable"@[0] != "cloneable"@[0]);
    assert("shareable"@.len() != "computer"@.len());
    assert("shareable"@.len() != "explorer"@.len());
    assert("shareable"@.len() != "name"@.len());
    assert("shareable"@.len() != "sticky"@.len());
    assert("shareable"@.len() != "visibility"@.len());
    let p0 = seq![("name"@, q.name@)];
    let p1 = crate::http::str_pair("visibility"@, q.visibility);
    let p2 = crate::http::str_pair("computer"@, q.computer);
    let p3 = crate::http::str_pair("explorer"@, q.explorer);
    let p4 = crate::http::str_pair("cloneable"@, q.cloneable);
    let p5 = crate::http::str_pair("shareable"@, q.shareable);
    let p6 = crate::http::str_pair("chat"@, q.chat);
    let p7 = crate::http::bool_pair("sticky"@, q.sticky);
    let s0 = p0;
    let s1 = s0 + p1;
    let s2 = s1 + p2;
    let s3 = s2 + p3;
    let s4 = s3 + p4;
    let s5 = s4 + p5;
    let s6 = s5 + p6;
    let s7 = s6 + p7;
    assert(q.pairs_view() == s7);
    let v = match q.shareable { Some(v) => Some(v@), None => None };
    crate::text::lemma_extend(s0, p1, "shareable"@, None, false);
    crate::text::lemma_extend(s1, p2, "shareable"@, None, false);
    crate::text::lemma_extend(s2, p3, "shareable"@, None, false);
    crate::text::lemma_extend(s3, p4, "shareable"@, None, false);
    crate::text::lemma_extend(s4, p5, "shareable"@, v, true);
    crate::text::lemma_extend(s5, p6, "shareable"@, v, false);
    crate::text::lemma_extend(s6, p7, "shareable"@, v, false);
}

/// The pairs of [`CreateStudyForm`] carry its field under `chat`.
proof fn lemma_create_study_form_chat(q: CreateStudyForm)
    ensures
        crate::text::carries(q.pairs_view(), "chat"@, match q.chat { Some(v) => Some(v@), None => None }),
{
    reveal_strlit("chat");
    reveal_strlit("cloneable");
    reveal_strlit("computer");
    reveal_strlit("explorer");
    reveal_strlit("name");
    reveal_strlit("shareable");
    reveal_strlit("sticky");
    reveal_strlit("visibility");
    assert("chat"@.len() != "cloneable"@.len());
    assert("chat"@.len() != "computer"@.len());
    assert("chat"@.len() != "explorer"@.len());
    assert("chat"@[0] != "name"@[0]);
    assert("chat"@.len() != "shareable"@.len());
    assert("chat"@.len() != "sticky"@.len());
    assert("chat"@.len() != "visibility"@.len());
    let p0 = seq![("name"@, q.name@)];
    let p1 = crate::http::str_pair("visibility"@, q.visibility);
    let p2 = crate::http::str_pair("computer"@, q.computer);
    let p3 = crate::http::str_pair("explorer"@, q.explorer);
    let p4 = crate::http::str_pair("cloneable"@, q.cloneable);
    let p5 = crate::http::str_pair("shareable"@, q.shareable);
    let p6 = crate::http::str_pair("chat"@, q.chat);
    let p7 = crate::http::bool_pair("sticky"@, q.sticky);
    let s0 = p0;
    let s1 = s0 + p1;
    let s2 = s1 + p2;
    let s3 = s2 + p3;
    let s4 = s3 + p4;
    let s5 = s4 + p5;
    let s6 = s5 + p6;
    let s7 = s6 + p7;
    assert(q.pairs_view() == s7);
    let v = match q.chat { Some(v) => Some(v@), None => None };
    crate::text::lemma_extend(s0, p1, "chat"@, None, false);
    crate::text::lemma_extend(s1, p2, "chat"@, None, false);
    crate::text::lemma_extend(s2, p3, "chat"@, None, false);
    crate::text::lemma_extend(s3, p4, "chat"@, None, false);
    crate::text::lemma_extend(s4, p5, "chat"@, None, false);
    crate::text::lemma_extend(s5, p6, "chat"@, v, true);
    crate::text::lemma_extend(s6, p7, "chat"@, v, false);
}

/// The pairs of [`CreateStudyForm`] carry its field under `sticky`.
proof fn lemma_create_study_form_sticky(q: CreateStudyForm)
    ensures
        crate::text::carries(q.pairs_view(), "sticky"@, match q.sticky { Some(b) => Some(if b { seq!['t', 'r', 'u', 'e'] } else { seq!['f', 'a', 'l', 's', 'e'] }), None => None }),
{
    reveal_strlit("chat");
    reveal_strlit("cloneable");
    reveal_strlit("computer");
    reveal_strlit("explorer");
    reveal_strlit("name");
    reveal_strlit("shareable");
    reveal_strlit("sticky");
    reveal_strlit("visibility");
    assert("sticky"@.len() != "chat"@.len());
    assert("sticky"@.len() != "cloneable"@.len());
    assert("sticky"@.len() != "computer"@.len());
    assert("sticky"@.len() != "explorer"@.len());
    assert("sticky"@.len() != "name"@.len());
    assert("sticky"@.len() != "shareable"@.len());
    assert("sticky"@.len() != "visibility"@.len());
    let p0 = seq![("name"@, q.name@)];
    let p1 = crate::http::str_pair("visibility"@, q.visibility);
    let p2 = crate::http::str_pair("computer"@, q.computer);
    let p3 = crate::http::str_pair("explorer"@, q.explorer);
    let p4 = crate::http::str_pair("cloneable"@, q.cloneable);
    let p5 = crate::http::str_pair("shareable"@, q.shareable);
    let p6 = crate::http::str_pair("chat"@, q.chat);
    let p7 = crate::http::bool_pair("sticky"@, q.sticky);
    let s0 = p0;
    let s1 = s0 + p1;
    let s2 = s1 + p2;
    let s3 = s2 + p3;
    let s4 = s3 + p4;
    let s5 = s4 + p5;
    let s6 = s5 + p6;
    let s7 = s6 + p7;
    assert(q.pairs_view() == s7);
    let v = match q.sticky { Some(b) => Some(if b { seq!['t', 'r', 'u', 'e'] } else { seq!['f', 'a', 'l', 's', 'e'] }), None => None };
    crate::text::lemma_extend(s0, p1, "sticky"@, None, false);
    crate::text::lemma_extend(s1, p2, "sticky"@, None, false);
    crate::text::lemma_extend(s2, p3, "sticky"@, None, false);
    crate::text::lemma_extend(s3, p4, "sticky"@, None, false);
    crate::text::lemma_extend(s4, p5, "sticky"@, None, false);
    crate::text::lemma_extend(s5, p6, "sticky"@, None, false);
    crate::text::lemma_extend(s6, p7, "sticky"@, v, true);
}

/// The pairs of [`CreateStudyForm`] carry each of its fields under that field's own
/// key (`name`, `visibility`, `computer`, `explorer`, `cloneable`, `shareable`, `chat`, `sticky`), with the value given to it, and a key only when its field is set.
pub proof fn lemma_create_study_form_carries_fields(q: CreateStudyForm)
    ensures
        crate::text::carries(q.pairs_view(), "name"@, Some(q.name@)),
        crate::text::carries(q.pairs_view(), "visibility"@, match q.visibility { Some(v) => Some(v@), None => None }),
        crate::text::carries(q.pairs_view(), "computer"@, match q.computer { Some(v) => Some(v@), None => None }),
        crate::text::carries(q.pairs_view(), "explorer"@, match q.explorer { Some(v) => Some(v@), None => None }),
        crate::text::carries(q.pairs_view(), "cloneable"@, match q.cloneable { Some(v) => Some(v@), None => None }),
        crate::text::carries(q.pairs_view(), "shareable"@, match q.shareable { Some(v) => Some(v@), None => None }),
        crate::text::carries(q.pairs_view(), "chat"@, match q.chat { Some(v) => Some(v@), None => None }),
        crate::text::carries(q.pairs_view(), "sticky"@, match q.sticky { Some(b) => Some(if b { seq!['t', 'r', 'u', 'e'] } else { seq!['f', 'a', 'l', 's', 'e'] }), None => None }),
{
    lemma_create_study_form_name(q);
    lemma_create_study_form_visibility(q);
    lemma_create_study_form_computer(q);
    lemma_create_study_form_explorer(q);
    lemma_create_study_form_cloneable(q);
    lemma_create_study_form_shareable(q);
    lemma_create_study_form_chat(q);
    lemma_create_study_form_sticky(q);
}

impl<'a> CreateStudyForm<'a> {
    /// The form with the name and every option unset.
    pub open spec fn named(name: &'a str) -> Self {
        CreateStudyForm {
            name,
            visibility: None,
            computer: None,
            explorer: None,
            cloneable: None,
            shareable: None,
            chat: None,
            sticky: None,
        }
    }

    /// The query pairs, in order.
    pub open spec fn pairs_view(self) -> crate::text::Pairs {
        seq![("name"@, self.name@)]
            + crate::http::str_pair("visibility"@, self.visibility)
            + crate::http::str_pair("computer"@, self.computer)
            + crate::http::str_pair("explorer"@, self.explorer)
            + crate::http::str_pair("cloneable"@, self.cloneable)
            + crate::http::str_pair("shareable"@, self.shareable)
            + crate::http::str_pair("chat"@, self.chat)
            + crate::http::bool_pair("sticky"@, self.sticky)
    }

    /// The query pairs.
    #[verifier::rlimit(40)]
    pub fn pairs(&self) -> (r: Vec<(String, String)>)
        ensures
            r.deep_view() == self.pairs_view(),
    {
        let mut out: Vec<(String, String)> = Vec::new();
        crate::http::push_pair(&mut out, "name", String::from_str(self.name));
        crate::http::push_opt_str(&mut out, "visibility", self.visibility);
        crate::http::push_opt_str(&mut out, "computer", self.computer);
        crate::http::push_opt_str(&mut out, "explorer", self.explorer);
        crate::http::push_opt_str(&mut out, "cloneable", self.cloneable);
        crate::http::push_opt_str(&mut out, "shareable", self.shareable);
        crate::http::push_opt_str(&mut out, "chat", self.chat);
        crate::http::push_opt_bool(&mut out, "sticky", self.sticky);
        assert(out.deep_view() =~= self.pairs_view());
        out
    }
}

/// Builder for creating a study.
#[derive(Debug)]
pub struct CreateStudyRequest<'a> {
    client: &'a LichessClient,
    form: CreateStudyForm<'a>,
}

impl<'a> CreateStudyRequest<'a> {
    /// The client the builder is bound to.
    pub closed spec fn client_of(&self) -> &'a LichessClient {
        self.client
    }

    /// The form built so far.
    pub closed spec fn form_of(&self) -> CreateStudyForm<'a> {
        self.form
    }

    /// Creates the request builder.
    pub fn new(client: &'a LichessClient, name: &'a str) -> (r: Self)
        ensures
            r.client_of() == client,
            r.form_of() == CreateStudyForm::named(name),
    {
        CreateStudyRequest {
            client,
            form: CreateStudyForm {
                name,
                visibility: None,
                computer: None,
                explorer: None,
                cloneable: None,
                shareable: None,
                chat: None,
                sticky: None,
            },
        }
    }

    /// Sets the visibility (`public`, `unlisted`, or `private`).
    pub fn visibility(self, visibility: &'a str) -> (r: Self)
        ensures
            r.form_of() == (CreateStudyForm { visibility: Some(visibility), ..self.form_of() }),
            r.client_of() == self.client_of(),
    {
        let mut r = self;
        r.form.visibility = Some(visibility);
        r
    }

    /// Sets who may use computer analysis (`everyone`/`contributor`/`nobody`).
    pub fn computer(self, computer: &'a str) -> (r: Self)
        ensures
            r.form_of() == (CreateStudyForm { computer: Some(computer), ..self.form_of() }),
            r.client_of() == self.client_of(),
    {
        let mut r = self;
        r.form.computer = Some(computer);
        r
    }

    /// Sets who may use the opening explorer.
    pub fn explorer(self, explorer: &'a str) -> (r: Self)
        ensures
            r.form_of() == (CreateStudyForm { explorer: Some(explorer), ..self.form_of() }),
            r.client_of() == self.client_of(),
    {
        let mut r = self;
        r.form.explorer = Some(explorer);
        r
    }

    /// Sets who may clone the study.
    pub fn cloneable(self, cloneable: &'a str) -> (r: Self)
        ensures
            r.form_of() == (CreateStudyForm { cloneable: Some(cloneable), ..self.form_of() }),
            r.client_of() == self.client_of(),
    {
        let mut r = self;
        r.form.cloneable = Some(cloneable);
        r
    }

    /// Sets who may share/export the study.
    pub fn shareable(self, shareable: &'a str) -> (r: Self)
        ensures
            r.form_of() == (CreateStudyForm { shareable: Some(shareable), ..self.form_of() }),
            r.client_of() == self.client_of(),
    {
        let mut r = self;
        r.form.shareable = Some(shareable);
        r
    }

    /// Sets who may use the chat.
    pub fn chat(self, chat: &'a str) -> (r: Self)
        ensures
            r.form_of() == (CreateStudyForm { chat: Some(chat), ..self.form_of() }),
            r.client_of() == self.client_of(),
    {
        let mut r = self;
        r.form.chat = Some(chat);
        r
    }

    /// Sets whether everyone stays on the same chapter/position.
    pub fn sticky(self, sticky: bool) -> (r: Self)
        ensures
            r.form_of() == (CreateStudyForm { sticky: Some(sticky), ..self.form_of() }),
            r.client_of() == self.client_of(),
    {
        let mut r = self;
        r.form.sticky = Some(sticky);
        r
    }

    /// Creates the study; the answer carries its id.
    pub fn send(self) -> (r: ApiRequest)
        ensures
            r@ == crate::http::bare(Method::Post, Host::Default, "/api/study"@)
                .with_body(crate::http::BodyView::Form(self.form_of().pairs_view())),
    {
        let path = String::from_str("/api/study");
        self.client.request(Method::Post, Host::Default, path).form(self.form.pairs())
    }
}

/// Builder for importing PGN into a study.
#[derive(Debug)]
pub struct ImportPgnRequest<'a> {
    client: &'a LichessClient,
    study_id: &'a str,
    form: ImportForm<'a>,
}

impl<'a> ImportPgnRequest<'a> {
    /// The client the builder is bound to.
    pub closed spec fn client_of(&self) -> &'a LichessClient {
        self.client
    }

    /// The study to import into.
    pub closed spec fn study_id_of(&self) -> &'a str {
        self.study_id
    }

    /// The form built so far.
    pub closed spec fn form_of(&self) -> ImportForm<'a> {
        self.form
    }

    /// Creates the request builder.
    pub fn new(client: &'a LichessClient, study_id: &'a str, name: &'a str, pgn: &'a str) -> (r: Self)
        ensures
            r.client_of() == client,
            r.study_id_of() == study_id,
            r.form_of() == (ImportForm { name, pgn, orientation: None, variant: None, mode: None }),
    {
        ImportPgnRequest {
            client,
            study_id,
            form: ImportForm { name, pgn, orientation: None, variant: None, mode: None },
        }
    }

    /// Sets the board orientation.
    pub fn orientation(self, orientation: LichessColor) -> (r: Self)
        ensures
            r.form_of() == (ImportForm { orientation: Some(orientation), ..self.form_of() }),
            r.client_of() == self.client_of(),
            r.study_id_of() == self.study_id_of(),
    {
        let mut r = self;
        r.form.orientation = Some(orientation);
        r
    }

    /// Sets the variant.
    pub fn variant(self, variant: LichessVariantKey) -> (r: Self)
        ensures
            r.form_of() == (ImportForm { variant: Some(variant), ..self.form_of() }),
            r.client_of() == self.client_of(),
            r.study_id_of() == self.study_id_of(),
    {
        let mut r = self;
        r.form.variant = Some(variant);
        r
    }

    /// Sets the analysis mode for the imported chapters
    /// (`practice`, `conceal`, or `gamebook`).
    pub fn mode(self, mode: StudyChapterMode) -> (r: Self)
        ensures
            r.form_of() == (ImportForm { mode: Some(mode), ..self.form_of() }),
            r.client_of() == self.client_of(),
            r.study_id_of() == self.study_id_of(),
    {
        let mut r = self;
        r.form.mode = Some(mode);
        r
    }

    /// Performs the import.
    pub fn send(self) -> (r: ApiRequest)
        ensures
            r@ == crate::http::bare(
                Method::Post,
                Host::Default,
                "/api/study/"@ + crate::text::segment_text(self.study_id_of()@) + "/import-pgn"@,
            )
                .with_body(crate::http::BodyView::Form(self.form_of().pairs_view())),
    {
        let path = crate::http::path1("/api/study/", self.study_id, "/import-pgn");
        self.client.request(Method::Post, Host::Default, path).form(self.form.pairs())
    }
}

impl LichessClient {
    /// Studies API: export and import study PGN, list studies, edit chapters.
    pub fn studies(&self) -> (r: StudiesApi<'_>)
        ensures
            r.client_of() == self,
    {
        StudiesApi::new(self)
    }
}

} // verus!
