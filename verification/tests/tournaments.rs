use litchee::api::tournaments::arena::ArenaConditions;
use litchee::api::tournaments::swiss::{map_unauthorized_edit, SwissConditions};
use litchee::client::LichessClient;
use litchee::error::{ApiError, ApiErrorKind, LichessError};
use litchee::http::{Body, Method};

fn encode(pairs: &[(String, String)]) -> String {
    serde_urlencoded::to_string(pairs).unwrap()
}

#[test]
fn maps_401_to_swiss_unauthorized_edit() {
    let err = LichessError::Api(ApiError::new(401, None, None));
    match map_unauthorized_edit(err) {
        LichessError::Api(api) => assert_eq!(api.kind, ApiErrorKind::SwissUnauthorizedEdit),
        other => panic!("expected Api error, got {other:?}"),
    }
}

#[test]
fn leaves_non_401_errors_unchanged() {
    let err = LichessError::Api(ApiError::new(404, None, None));
    match map_unauthorized_edit(err) {
        LichessError::Api(api) => assert_eq!(api.kind, ApiErrorKind::NotFound),
        other => panic!("expected Api error, got {other:?}"),
    }
}

#[test]
fn reclassifying_twice_changes_nothing_more() {
    let once = map_unauthorized_edit(LichessError::Api(ApiError::new(401, Some("no".to_owned()), Some(3))));
    let twice = map_unauthorized_edit(once.clone());
    match (once, twice) {
        (LichessError::Api(a), LichessError::Api(b)) => {
            assert_eq!(a.kind, b.kind);
            assert_eq!(b.status, 401);
            assert_eq!(b.message.as_deref(), Some("no"));
            assert_eq!(b.retry_after, Some(3));
        }
        other => panic!("expected Api errors, got {other:?}"),
    }
    let transport = map_unauthorized_edit(LichessError::Transport("reset".to_owned()));
    assert!(matches!(transport, LichessError::Transport(ref m) if m == "reset"));
}

#[test]
fn arena_conditions_serialize_to_dotted_keys() {
    let query = encode(&ArenaConditions::default().min_rating(1600).allow_list("a,b,%titled").bots(false).pairs());
    assert!(query.contains("conditions.minRating.rating=1600"));
    assert!(query.contains("conditions.allowList=a%2Cb%2C%25titled"));
    assert!(query.contains("conditions.bots=false"));
}

#[test]
fn arena_empty_conditions_serialize_to_nothing() {
    assert_eq!(encode(&ArenaConditions::default().pairs()), "");
}

#[test]
fn swiss_conditions_serialize_to_dotted_keys() {
    let query = encode(&SwissConditions::default().max_rating(2200).play_your_games(true).pairs());
    assert!(query.contains("conditions.maxRating.rating=2200"));
    assert!(query.contains("conditions.playYourGames=true"));
}

#[test]
fn swiss_empty_conditions_serialize_to_nothing() {
    assert_eq!(encode(&SwissConditions::default().pairs()), "");
}

#[test]
fn arena_creation_puts_the_flat_fields_before_the_conditions() {
    let client = LichessClient::new();
    let request = client
        .arena()
        .create("Hourly", "0.5", 0, 30)
        .rated(true)
        .conditions(ArenaConditions::default().bots(true))
        .send();
    assert_eq!(request.method, Method::Post);
    assert_eq!(request.path, "/api/tournament");
    match request.body {
        Body::Form(pairs) => assert_eq!(
            encode(&pairs),
            "name=Hourly&clockTime=0.5&clockIncrement=0&minutes=30&rated=true&conditions.bots=true"
        ),
        other => panic!("expected a form, got {other:?}"),
    }
}

#[test]
fn arena_update_targets_the_tournament() {
    let client = LichessClient::new();
    let request = client.arena().update("x y", "Daily", "3", 2, 60).send();
    assert_eq!(request.path, "/api/tournament/x%20y");
}

#[test]
fn arena_created_by_repeats_the_status_key() {
    let client = LichessClient::new();
    let request = client.arena().created_by("bob", Some(5), &[10, 20]);
    assert_eq!(request.path, "/api/user/bob/tournament/created");
    assert_eq!(encode(&request.query), "nb=5&status=10&status=20");
}

#[test]
fn swiss_edit_and_create_use_their_own_paths() {
    let client = LichessClient::new();
    let edit = client.swiss().edit("abc", 300, 0, 7).name("Weekly");
    assert!(edit.is_edit());
    let request = edit.send();
    assert_eq!(request.path, "/api/swiss/abc/edit");
    let create = client.swiss().create("team", 60, 1, 5).send();
    assert_eq!(create.path, "/api/swiss/new/team");
    match create.body {
        Body::Form(pairs) => assert_eq!(encode(&pairs), "clock.limit=60&clock.increment=1&nbRounds=5"),
        other => panic!("expected a form, got {other:?}"),
    }
}

#[test]
fn swiss_actions_post_to_the_action_path() {
    let client = LichessClient::new();
    assert_eq!(client.swiss().schedule_next_round("abc").path, "/api/swiss/abc/schedule-next-round");
    assert_eq!(client.swiss().join("abc").method, Method::Post);
    assert_eq!(client.swiss().trf("abc").path, "/swiss/abc.trf");
}

#[test]
fn tournament_games_export_carries_the_player_filter() {
    let client = LichessClient::new();
    let request = client.arena().games("t1").player("bob").stream();
    assert_eq!(request.path, "/api/tournament/t1/games");
    assert_eq!(encode(&request.query), "player=bob");
    let swiss = client.swiss().games("s1").pgn();
    assert_eq!(swiss.path, "/api/swiss/s1/games");
    assert!(swiss.query.is_empty());
}
