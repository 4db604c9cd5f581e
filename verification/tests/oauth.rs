use litchee::api::auth::oauth::pkce::random_alphanumeric;
use litchee::api::auth::oauth::{exchange_outcome, join_scopes, token_failure, LichessToken, OAuthErrorBody, PkceVerifier, Scope};
use litchee::error::{LichessError, OAuthErrorCode, PkceError};
use litchee::secret::Secret;
use litchee::text::is_unreserved;

#[test]
fn joins_scopes_with_spaces() {
    let joined = join_scopes(&[Scope::BoardPlay, Scope::ChallengeWrite]);
    assert_eq!(joined, "board:play challenge:write");
}

#[test]
fn empty_scopes_join_to_empty_string() {
    assert_eq!(join_scopes(&[]), "");
}

#[test]
fn token_failure_prefers_oauth_error() {
    let body: serde_json::Value =
        serde_json::from_str(r#"{"error":"invalid_grant","error_description":"bad verifier"}"#).unwrap();
    let parsed = OAuthErrorBody {
        error: body["error"].as_str().unwrap().to_owned(),
        error_description: body["error_description"].as_str().map(str::to_owned),
    };
    let error = token_failure(400, Some(parsed));
    match error {
        LichessError::OAuth(oauth) => {
            assert_eq!(oauth.code, OAuthErrorCode::InvalidGrant);
            assert_eq!(oauth.description.as_deref(), Some("bad verifier"));
        }
        other => panic!("expected OAuth error, got {other:?}"),
    }
}

#[test]
fn token_failure_without_oauth_body_keeps_the_status() {
    match token_failure(503, None) {
        LichessError::Api(api) => {
            assert_eq!(api.status, 503);
            assert!(api.message.is_none());
        }
        other => panic!("expected Api error, got {other:?}"),
    }
}

#[test]
fn matches_rfc7636_appendix_b_vector() {
    let verifier = PkceVerifier::new("dBjftJeZ4CVP-mB92K27uhbUJU1p1r_wW1gFWFOEjXk").unwrap();
    assert_eq!(verifier.code_challenge(), "E9Melhoa2OwvFrEMTJguCHaoeK1t8URWbuGJSstw-cM");
}

#[test]
fn generated_verifier_is_valid_length_and_alphabet() {
    let verifier = PkceVerifier::generate();
    assert_eq!(verifier.as_str().len(), 64);
    assert!(PkceVerifier::new(verifier.as_str().to_owned()).is_ok());
}

#[test]
fn rejects_short_verifier() {
    let err = PkceVerifier::new("too-short").unwrap_err();
    assert!(matches!(err, PkceError::InvalidVerifierLength(9)));
}

#[test]
fn rejects_long_verifier() {
    let err = PkceVerifier::new("a".repeat(129)).unwrap_err();
    assert!(matches!(err, PkceError::InvalidVerifierLength(129)));
}

#[test]
fn accepts_boundary_lengths() {
    assert!(PkceVerifier::new("a".repeat(43)).is_ok());
    assert!(PkceVerifier::new("a".repeat(128)).is_ok());
    assert!(matches!(PkceVerifier::new("a".repeat(42)), Err(PkceError::InvalidVerifierLength(42))));
}

#[test]
fn rejects_illegal_characters() {
    let value = "a".repeat(50) + " spaces not allowed in here padded out";
    let err = PkceVerifier::new(value).unwrap_err();
    assert!(matches!(err, PkceError::InvalidVerifierChars));
}

#[test]
fn rejects_multibyte_characters_by_byte_length() {
    // 43 characters but 44 bytes: the length check counts bytes.
    let value = "é".to_owned() + &"a".repeat(42);
    assert!(matches!(PkceVerifier::new(value), Err(PkceError::InvalidVerifierChars)));
}

#[test]
fn debug_is_redacted() {
    let verifier = PkceVerifier::new("a".repeat(50)).unwrap();
    assert!(!format!("{verifier:?}").contains(&"a".repeat(50)));
}

#[test]
fn random_alphanumeric_has_requested_length() {
    let value = random_alphanumeric(24);
    assert_eq!(value.len(), 24);
    assert!(value.bytes().all(is_unreserved));
}

#[test]
fn round_trips_every_scope() {
    for scope in Scope::ALL {
        assert_eq!(Scope::parse(scope.as_str()), Some(scope));
    }
}

#[test]
fn unknown_scope_is_none() {
    assert_eq!(Scope::parse("does:notexist"), None);
}

#[test]
fn uses_colon_separated_wire_format() {
    assert_eq!(Scope::BoardPlay.as_str(), "board:play");
    assert_eq!(Scope::WebMod.to_string(), "web:mod");
}

#[test]
fn wire_strings_are_unique() {
    let mut wires: Vec<&str> = Scope::ALL.iter().map(|scope| scope.as_str()).collect();
    wires.sort_unstable();
    let total = wires.len();
    wires.dedup();
    assert_eq!(wires.len(), total, "duplicate wire strings in the table");
}

#[test]
fn debug_redacts_the_secret() {
    let token = LichessToken {
        access_token: Secret::new("lio_secret".to_owned()),
        token_type: "Bearer".to_owned(),
        expires_in: 10,
    };
    assert!(!format!("{token:?}").contains("lio_secret"));
}

#[test]
fn secret_exposes_its_value() {
    let secret = Secret::new("lio_secret".to_owned());
    assert_eq!(secret.expose(), "lio_secret");
    assert_eq!(format!("{secret:?}"), "<redacted>");
    assert_eq!(secret.into_inner(), "lio_secret");
}

#[test]
fn exchange_outcome_follows_the_status() {
    let token = || LichessToken {
        access_token: Secret::new("lio_x".to_owned()),
        token_type: "Bearer".to_owned(),
        expires_in: 60,
    };
    let ok = exchange_outcome(200, Ok(token()), None).unwrap();
    assert_eq!(ok.access_token.expose(), "lio_x");
    let body = OAuthErrorBody { error: "invalid_client".to_owned(), error_description: None };
    match exchange_outcome(401, Ok(token()), Some(body)) {
        Err(LichessError::OAuth(oauth)) => assert_eq!(oauth.code, OAuthErrorCode::InvalidClient),
        other => panic!("expected OAuth error, got {other:?}"),
    }
    match exchange_outcome(500, Ok(token()), None) {
        Err(LichessError::Api(api)) => assert_eq!(api.status, 500),
        other => panic!("expected Api error, got {other:?}"),
    }
}

#[test]
fn unknown_oauth_codes_are_kept_verbatim() {
    let body = OAuthErrorBody { error: "slow_down".to_owned(), error_description: Some("wait".to_owned()) };
    match token_failure(400, Some(body)) {
        LichessError::OAuth(oauth) => assert_eq!(oauth.code, OAuthErrorCode::Other("slow_down".to_owned())),
        other => panic!("expected OAuth error, got {other:?}"),
    }
}
