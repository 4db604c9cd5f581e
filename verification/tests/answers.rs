use litchee::api::auth::oauth::{join_scopes, AuthorizationRequest, PkceVerifier, Scope};
use litchee::api::engine::external_engine::{acquire_outcome, LichessExternalEngineRegistration};
use litchee::api::social::teams::JoinForm;
use litchee::api::tournaments::swiss::send_outcome;
use litchee::api::training::puzzles::LichessPuzzleSolution;
use litchee::client::LichessClient;
use litchee::config::Host;
use litchee::error::{answer_failure, ApiError, ApiErrorKind, LichessError};
use litchee::http::JsonPayload;
use litchee::json_doc::{JsonScalar, JsonValue};
use litchee::ndjson::{Frame, LineFramer};
use litchee::secret::Secret;

fn line(frame: Frame) -> Vec<u8> {
    match frame {
        Frame::Line(l) => l,
        other => panic!("expected a line, got {other:?}"),
    }
}

#[test]
fn framer_yields_complete_lines_and_skips_blank_ones() {
    let mut framer = LineFramer::new(100);
    framer.push(b"{\"a\":1}\n\n  \r\n{\"b\":2}\n{\"c\"");
    assert_eq!(line(framer.next_frame()), b"{\"a\":1}".to_vec());
    assert_eq!(line(framer.next_frame()), b"{\"b\":2}".to_vec());
    assert!(matches!(framer.next_frame(), Frame::NeedMore));
    framer.push(b":3}");
    assert!(matches!(framer.next_frame(), Frame::NeedMore));
    framer.finish();
    assert_eq!(line(framer.next_frame()), b"{\"c\":3}".to_vec());
    assert!(matches!(framer.next_frame(), Frame::End));
}

#[test]
fn framer_refuses_a_pending_line_over_the_cap_and_ends() {
    let mut framer = LineFramer::new(4);
    framer.push(b"12345");
    assert!(matches!(framer.next_frame(), Frame::TooLong));
    assert!(matches!(framer.next_frame(), Frame::End));
}

#[test]
fn framer_keeps_a_long_line_whose_newline_has_arrived() {
    let mut framer = LineFramer::new(4);
    framer.push(b"123456\n");
    assert_eq!(line(framer.next_frame()), b"123456".to_vec());
}

#[test]
fn framer_ends_on_trailing_whitespace() {
    let mut framer = LineFramer::new(10);
    framer.push(b"1\n \t");
    framer.finish();
    assert_eq!(line(framer.next_frame()), b"1".to_vec());
    assert!(matches!(framer.next_frame(), Frame::End));
}

#[test]
fn answer_failure_prefers_the_error_field() {
    match answer_failure(429, Some("slow down".to_owned()), "{\"error\":\"slow down\"}".to_owned(), Some(60)) {
        LichessError::Api(api) => {
            assert_eq!(api.status, 429);
            assert_eq!(api.kind, ApiErrorKind::RateLimited);
            assert_eq!(api.message.as_deref(), Some("slow down"));
            assert_eq!(api.retry_after, Some(60));
        }
        other => panic!("expected an API error, got {other:?}"),
    }
}

#[test]
fn answer_failure_falls_back_to_the_text_then_to_nothing() {
    match answer_failure(500, None, "oops".to_owned(), None) {
        LichessError::Api(api) => assert_eq!(api.message.as_deref(), Some("oops")),
        other => panic!("expected an API error, got {other:?}"),
    }
    match answer_failure(404, None, String::new(), None) {
        LichessError::Api(api) => {
            assert_eq!(api.kind, ApiErrorKind::NotFound);
            assert_eq!(api.message, None);
        }
        other => panic!("expected an API error, got {other:?}"),
    }
}

#[test]
fn acquire_outcome_maps_no_content_to_none() {
    let decoded: Result<u32, LichessError> = Err(LichessError::Transport("empty".to_owned()));
    assert!(matches!(acquire_outcome(204, decoded), Ok(None)));
    assert!(matches!(acquire_outcome(200, Ok::<u32, LichessError>(7)), Ok(Some(7))));
    let failed: Result<u32, LichessError> =
        Err(LichessError::Decode { what: "LichessEngineWork".to_owned(), message: "eof".to_owned() });
    assert!(matches!(acquire_outcome(200, failed), Err(LichessError::Decode { .. })));
}

#[test]
fn send_outcome_reclassifies_only_an_edit() {
    let unauthorized = || Err::<(), LichessError>(LichessError::Api(ApiError::new(401, None, None)));
    match send_outcome(true, unauthorized()) {
        Err(LichessError::Api(api)) => assert_eq!(api.kind, ApiErrorKind::SwissUnauthorizedEdit),
        other => panic!("unexpected {other:?}"),
    }
    match send_outcome(false, unauthorized()) {
        Err(LichessError::Api(api)) => assert_eq!(api.kind, ApiErrorKind::Unauthorized),
        other => panic!("unexpected {other:?}"),
    }
    assert!(matches!(send_outcome(true, Ok::<u8, LichessError>(3)), Ok(3)));
}

#[test]
fn registration_fields_leave_out_unset_values() {
    let registration = LichessExternalEngineRegistration {
        name: "E".to_owned(),
        max_threads: 4,
        max_hash: 128,
        provider_secret: Secret::new("s".to_owned()),
        ..Default::default()
    };
    let keys: Vec<String> = registration.payload().fields().into_iter().map(|(k, _)| k).collect();
    assert_eq!(keys, vec!["name", "maxThreads", "maxHash", "providerSecret"]);
    let full = LichessExternalEngineRegistration {
        default_depth: Some(20),
        variants: vec!["chess".to_owned()],
        provider_data: Some("d".to_owned()),
        ..registration
    };
    let keys: Vec<String> = full.payload().fields().into_iter().map(|(k, _)| k).collect();
    assert_eq!(keys, vec!["name", "maxThreads", "maxHash", "providerSecret", "defaultDepth", "variants", "providerData"]);
}

#[test]
fn solution_fields_leave_out_an_unset_rating_flag() {
    let mut rated = LichessPuzzleSolution::new("p1", true);
    rated.rated = Some(false);
    let plain = LichessPuzzleSolution::new("p2", false);
    let fields = JsonPayload::PuzzleSolutions(vec![rated, plain]).fields();
    assert_eq!(fields.len(), 1);
    assert_eq!(fields[0].0, "solutions");
    match &fields[0].1 {
        JsonValue::Objects(objects) => {
            assert_eq!(objects.len(), 2);
            let keys0: Vec<&str> = objects[0].iter().map(|(k, _)| k.as_str()).collect();
            let keys1: Vec<&str> = objects[1].iter().map(|(k, _)| k.as_str()).collect();
            assert_eq!(keys0, vec!["id", "win", "rated"]);
            assert_eq!(keys1, vec!["id", "win"]);
            assert!(matches!(&objects[1][0].1, JsonScalar::Text(t) if t == "p2"));
        }
        other => panic!("expected objects, got {other:?}"),
    }
}

#[test]
fn provider_secret_body_has_one_field() {
    let fields = JsonPayload::ProviderSecret("abc".to_owned()).fields();
    assert_eq!(fields.len(), 1);
    assert_eq!(fields[0].0, "providerSecret");
    assert!(matches!(&fields[0].1, JsonValue::Text(t) if t == "abc"));
}

#[test]
fn joined_scopes_split_and_parse_back() {
    let scopes = [Scope::BoardPlay, Scope::ChallengeWrite, Scope::PreferenceRead];
    let joined = join_scopes(&scopes);
    let parsed: Vec<Option<Scope>> = joined.split(' ').map(Scope::parse).collect();
    assert_eq!(parsed, scopes.iter().map(|s| Some(*s)).collect::<Vec<_>>());
}

#[test]
fn authorization_url_fails_on_an_unparsable_base() {
    let client = LichessClient::builder().base_url(Host::Default, "not a url".to_owned()).build().unwrap();
    let request = AuthorizationRequest { client_id: "app", redirect_uri: "http://localhost/cb", scopes: &[], username_hint: None };
    match client.oauth().authorization_url(&request) {
        Err(LichessError::InvalidRequest(message)) => assert!(message.starts_with("invalid base URL: ")),
        other => panic!("expected an invalid request, got {other:?}"),
    }
}

#[test]
fn authorization_url_uses_the_configured_base() {
    let client = LichessClient::builder().base_url(Host::Default, "http://localhost:8080".to_owned()).build().unwrap();
    assert_eq!(client.base_url(Host::Default), "http://localhost:8080");
    assert_eq!(client.base_url(Host::Tablebase), "https://tablebase.lichess.org");
    let request = AuthorizationRequest { client_id: "app", redirect_uri: "http://localhost/cb", scopes: &[], username_hint: None };
    let auth = client.oauth().authorization_url(&request).unwrap();
    assert!(auth.url.starts_with("http://localhost:8080/oauth?"));
}

#[test]
fn verifier_debug_prints_the_quoted_marker() {
    let verifier = PkceVerifier::generate();
    assert_eq!(format!("{verifier:?}"), "PkceVerifier(\"<redacted>\")");
}

#[test]
fn join_form_debug_shows_the_message_and_hides_the_password() {
    let form = JoinForm { message: Some("hi"), password: Some("supersecret") };
    assert_eq!(format!("{form:?}"), "JoinForm { message: Some(\"hi\"), password: Some(\"<redacted>\") }");
    let open = JoinForm { message: None, password: None };
    assert_eq!(format!("{open:?}"), "JoinForm { message: None, password: None }");
}
