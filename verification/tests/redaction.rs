use litchee::api::engine::external_engine::{LichessExternalEngine, LichessExternalEngineRegistration};
use litchee::api::social::teams::JoinForm;
use litchee::secret::Secret;

#[test]
fn engine_debug_redacts_client_secret() {
    let engine = LichessExternalEngine {
        id: "eng".to_owned(),
        name: "My Engine".to_owned(),
        client_secret: Secret::new("supersecret".to_owned()),
        user_id: "u".to_owned(),
        max_threads: 8,
        max_hash: 256,
        variants: vec!["chess".to_owned()],
        provider_data: None,
    };
    let debug = format!("{engine:?}");
    assert!(!debug.contains("supersecret"));
    assert!(debug.contains("<redacted>"));
    assert!(debug.contains("My Engine"));
}

#[test]
fn registration_debug_redacts_provider_secret() {
    let registration = LichessExternalEngineRegistration {
        name: "E".to_owned(),
        max_threads: 4,
        max_hash: 128,
        provider_secret: Secret::new("supersecret".to_owned()),
        ..Default::default()
    };
    let debug = format!("{registration:?}");
    assert!(!debug.contains("supersecret"));
    assert!(debug.contains("<redacted>"));
}

#[test]
fn join_form_debug_redacts_password() {
    let form = JoinForm { message: Some("hi"), password: Some("supersecret") };
    let debug = format!("{form:?}");
    assert!(!debug.contains("supersecret"));
    assert!(debug.contains("<redacted>"));
    assert!(debug.contains("hi"));
}
