use litchee::api::auth::oauth::{authorize_url_from, AuthorizationRequest, CodeExchange, PkceVerifier, Scope};
use litchee::api::engine::external_engine::LichessExternalEngineRegistration;
use litchee::api::training::puzzles::LichessPuzzleSolution;
use litchee::api::training::studies::StudyChapterMode;
use litchee::client::LichessClient;
use litchee::config::Host;
use litchee::error::{classify_status, ApiErrorKind, LichessError};
use litchee::http::{Body, JsonPayload, Method};
use litchee::model::LichessColor;
use litchee::secret::Secret;
use litchee::text::{bool_to_string, i64_to_string, segment, u64_to_string};

fn encode(pairs: &[(String, String)]) -> String {
    serde_urlencoded::to_string(pairs).unwrap()
}

#[test]
fn segment_escapes_reserved_and_non_ascii_text() {
    assert_eq!(segment("a/b?c#d e"), "a%2Fb%3Fc%23d%20e");
    assert_eq!(segment("é"), "%C3%A9");
    assert_eq!(segment("Az09-._~"), "Az09-._~");
}

#[test]
fn authorization_url_carries_challenge_state_and_scopes() {
    let client = LichessClient::new();
    let request = AuthorizationRequest {
        client_id: "my-app",
        redirect_uri: "http://localhost/cb",
        scopes: &[Scope::BoardPlay, Scope::ChallengeWrite],
        username_hint: Some("bob"),
    };
    let auth = client.oauth().authorization_url(&request).unwrap();
    assert_eq!(auth.state.len(), 24);
    assert!(auth.state.bytes().all(|b| b.is_ascii_alphanumeric()));
    let challenge = auth.verifier.code_challenge();
    assert!(auth.url.starts_with("https://lichess.org/oauth?response_type=code&client_id=my-app"));
    assert!(auth.url.contains(&format!("code_challenge={challenge}")));
    assert!(auth.url.contains("code_challenge_method=S256"));
    assert!(auth.url.contains("scope=board%3Aplay+challenge%3Awrite"));
    assert!(auth.url.contains(&format!("state={}", auth.state)));
    assert!(auth.url.ends_with("&username=bob"));
}

#[test]
fn invalid_url_becomes_an_invalid_request() {
    match authorize_url_from(Err("relative URL without a base".to_owned())) {
        Err(LichessError::InvalidRequest(message)) => {
            assert_eq!(message, "invalid base URL: relative URL without a base")
        }
        other => panic!("expected InvalidRequest, got {other:?}"),
    }
    assert_eq!(authorize_url_from(Ok("https://x".to_owned())).unwrap(), "https://x");
}

#[test]
fn code_exchange_posts_the_verifier() {
    let client = LichessClient::new();
    let verifier = PkceVerifier::new("a".repeat(43)).unwrap();
    let exchange = CodeExchange { code: "c0de", code_verifier: &verifier, redirect_uri: "http://x", client_id: "id" };
    let request = client.oauth().exchange_code(&exchange);
    assert_eq!(request.path, "/api/token");
    match request.body {
        Body::Form(pairs) => assert_eq!(
            encode(&pairs),
            format!("grant_type=authorization_code&code=c0de&code_verifier={}&redirect_uri=http%3A%2F%2Fx&client_id=id", "a".repeat(43))
        ),
        other => panic!("expected a form, got {other:?}"),
    }
    match client.oauth().test_tokens(&["t1", "t2"]).body {
        Body::Text(text) => assert_eq!(text, "t1,t2"),
        other => panic!("expected text, got {other:?}"),
    }
    assert_eq!(client.oauth().revoke_token().method, Method::Delete);
}

#[test]
fn puzzle_solutions_travel_as_json() {
    let client = LichessClient::new();
    let solutions = [LichessPuzzleSolution::new("p1", true), LichessPuzzleSolution::new(String::from("p2"), false)];
    let request = client.puzzles().solve_batch("mix", &solutions, 0);
    assert_eq!(request.path, "/api/puzzle/batch/mix");
    assert_eq!(encode(&request.query), "nb=0");
    match request.body {
        Body::Json(JsonPayload::PuzzleSolutions(list)) => {
            assert_eq!(list, solutions.to_vec());
        }
        other => panic!("expected solutions, got {other:?}"),
    }
    assert_eq!(client.puzzles().replay(30, "fork").path, "/api/puzzle/replay/30/fork");
    assert_eq!(client.puzzles().dashboard(7).path, "/api/puzzle/dashboard/7");
}

#[test]
fn activity_query_omits_unset_fields() {
    let client = LichessClient::new();
    let request = client.puzzles().activity(Some(10), None, Some(5));
    assert_eq!(encode(&request.query), "max=10&since=5");
    let next = client.puzzles().next(None, Some("harder"), Some(LichessColor::White));
    assert_eq!(encode(&next.query), "difficulty=harder&color=white");
}

#[test]
fn study_import_form_names_the_mode() {
    let client = LichessClient::new();
    let request = client.studies().import_pgn("s1", "Ch", "1. e4").mode(StudyChapterMode::Gamebook).send();
    assert_eq!(request.path, "/api/study/s1/import-pgn");
    match request.body {
        Body::Form(pairs) => assert_eq!(encode(&pairs), "name=Ch&pgn=1.+e4&mode=gamebook"),
        other => panic!("expected a form, got {other:?}"),
    }
    assert_eq!(client.studies().study_pgn_metadata("s1").method, Method::Head);
}

#[test]
fn engine_requests_go_to_the_right_host() {
    let client = LichessClient::new();
    let registration = LichessExternalEngineRegistration {
        name: "E".to_owned(),
        max_threads: 4,
        max_hash: 128,
        provider_secret: Secret::new("s".to_owned()),
        ..Default::default()
    };
    let create = client.external_engine().create(&registration);
    assert_eq!(create.host, Host::Default);
    match create.body {
        Body::Json(JsonPayload::EngineRegistration(copy)) => assert_eq!(copy, registration),
        other => panic!("expected a registration, got {other:?}"),
    }
    let work = client.external_engine().acquire_work("ps");
    assert_eq!(work.host, Host::Engine);
    assert_eq!(client.external_engine().analyse("e 1", "cs", "{}").path, "/api/external-engine/e%201/analyse");
}

#[test]
fn raw_paths_keep_their_text() {
    let client = LichessClient::new();
    assert_eq!(client.messaging().send("bob", "hi").path, "/inbox/bob");
    assert_eq!(client.tv().channel_feed("blitz").path, "/api/tv/blitz/feed");
    let tb = client.tablebase().atomic("8/8");
    assert_eq!(tb.host, Host::Tablebase);
    assert_eq!(encode(&tb.query), "fen=8%2F8");
    assert_eq!(client.relations().unfollow("bob").path, "/api/rel/unfollow/bob");
}

#[test]
fn team_join_sends_message_and_password() {
    let client = LichessClient::new();
    match client.teams().join("t", Some("hi"), Some("pw")).body {
        Body::Form(pairs) => assert_eq!(encode(&pairs), "message=hi&password=pw"),
        other => panic!("expected a form, got {other:?}"),
    }
    assert_eq!(encode(&client.teams().search("chess club", 3).query), "text=chess+club&page=3");
}

#[test]
fn cloud_eval_query_has_fen_then_options() {
    let client = LichessClient::new();
    let request = client.analysis().cloud_eval("f").multi_pv(3).send();
    assert_eq!(encode(&request.query), "fen=f&multiPv=3");
}

#[test]
fn client_builder_keeps_token_and_line_cap() {
    let client = LichessClient::builder().token("lip_x".to_owned()).max_line_bytes(100).build().unwrap();
    assert_eq!(client.token().map(|t| t.expose().as_str()), Some("lip_x"));
    assert_eq!(client.max_line_bytes(), 100);
    assert!(LichessClient::new().token().is_none());
}

#[test]
fn statuses_are_classified() {
    assert_eq!(classify_status(400), ApiErrorKind::BadRequest);
    assert_eq!(classify_status(401), ApiErrorKind::Unauthorized);
    assert_eq!(classify_status(403), ApiErrorKind::Forbidden);
    assert_eq!(classify_status(404), ApiErrorKind::NotFound);
    assert_eq!(classify_status(429), ApiErrorKind::RateLimited);
    assert_eq!(classify_status(502), ApiErrorKind::Server);
    assert_eq!(classify_status(418), ApiErrorKind::Other);
}

#[test]
fn decimal_rendering_of_numbers() {
    assert_eq!(u64_to_string(0), "0");
    assert_eq!(u64_to_string(18446744073709551615), "18446744073709551615");
    assert_eq!(i64_to_string(-9223372036854775808), "-9223372036854775808");
    assert_eq!(i64_to_string(42), "42");
    assert_eq!(bool_to_string(true), "true");
}
