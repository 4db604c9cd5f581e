use litchee::api::gameplay::board::LichessChatRoom;
use litchee::api::gameplay::challenges::LichessChallengeColor;
use litchee::api::gameplay::games::GameSort;
use litchee::client::LichessClient;
use litchee::http::{Accept, Body, Method};
use litchee::model::{GameExportOptions, LichessVariantKey};

fn encode(pairs: &[(String, String)]) -> String {
    serde_urlencoded::to_string(pairs).unwrap()
}

#[test]
fn game_sort_uses_camel_case() {
    assert_eq!(serde_urlencoded::to_string([("sort", GameSort::DateAsc.as_str())]).unwrap(), "sort=dateAsc");
    assert_eq!(serde_urlencoded::to_string([("sort", GameSort::DateDesc.as_str())]).unwrap(), "sort=dateDesc");
}

#[test]
fn user_games_export_lists_filters_then_export_flags() {
    let client = LichessClient::new();
    let request = client
        .games()
        .export_user("bob")
        .max(10)
        .sort(GameSort::DateAsc)
        .rated(true)
        .export(GameExportOptions { clocks: Some(true), ..GameExportOptions::default() })
        .stream();
    assert_eq!(request.path, "/api/games/user/bob");
    assert_eq!(request.accept, Some(Accept::Ndjson));
    assert_eq!(encode(&request.query), "max=10&rated=true&sort=dateAsc&clocks=true");
}

#[test]
fn single_game_export_asks_for_json_or_pgn() {
    let client = LichessClient::new();
    let json = client.games().export("abc").with_bookmarked(true).evals(false).json();
    assert_eq!(json.path, "/game/export/abc");
    assert_eq!(json.accept, Some(Accept::Json));
    assert_eq!(encode(&json.query), "withBookmarked=true&evals=false");
    assert_eq!(client.games().export("abc").pgn().accept, Some(Accept::Pgn));
}

#[test]
fn export_by_ids_sends_the_ids_as_text() {
    let client = LichessClient::new();
    let request = client.games().export_by_ids(&["a", "b", "c"]).stream();
    assert_eq!(request.method, Method::Post);
    match request.body {
        Body::Text(text) => assert_eq!(text, "a,b,c"),
        other => panic!("expected text, got {other:?}"),
    }
}

#[test]
fn bookmark_toggle_omits_the_flag() {
    let client = LichessClient::new();
    assert!(client.games().bookmark("g", None).query.is_empty());
    assert_eq!(encode(&client.games().bookmark("g", Some(false)).query), "v=false");
}

#[test]
fn challenge_form_and_keep_alive_stream() {
    let client = LichessClient::new();
    let request = client
        .challenges()
        .challenge("bob")
        .clock(300, 5)
        .color(LichessChallengeColor::Random)
        .variant(LichessVariantKey::Chess960)
        .stream();
    assert_eq!(request.path, "/api/challenge/bob");
    assert_eq!(request.accept, Some(Accept::Ndjson));
    match request.body {
        Body::Form(pairs) => assert_eq!(
            encode(&pairs),
            "clock.limit=300&clock.increment=5&color=random&variant=chess960&keepAliveStream=true"
        ),
        other => panic!("expected a form, got {other:?}"),
    }
}

#[test]
fn declining_sends_a_reason_only_when_given() {
    let client = LichessClient::new();
    assert!(matches!(client.challenges().decline("c1", None).body, Body::Empty));
    match client.challenges().decline("c1", Some("later")).body {
        Body::Form(pairs) => assert_eq!(encode(&pairs), "reason=later"),
        other => panic!("expected a form, got {other:?}"),
    }
}

#[test]
fn start_clocks_sends_the_second_token_only_when_given() {
    let client = LichessClient::new();
    assert_eq!(encode(&client.challenges().start_clocks("g", "t1", None).query), "token1=t1");
    assert_eq!(encode(&client.challenges().start_clocks("g", "t1", Some("t2")).query), "token1=t1&token2=t2");
    assert_eq!(client.challenges().add_time("g", 15).path, "/api/round/g/add-time/15");
}

#[test]
fn ai_challenge_starts_with_the_level() {
    let client = LichessClient::new();
    match client.challenges().challenge_ai(3).days(2).send().body {
        Body::Form(pairs) => assert_eq!(encode(&pairs), "level=3&days=2"),
        other => panic!("expected a form, got {other:?}"),
    }
}

#[test]
fn board_answers_are_yes_or_no() {
    let client = LichessClient::new();
    assert_eq!(client.board().handle_draw("g", true).path, "/api/board/game/g/draw/yes");
    assert_eq!(client.bot().handle_takeback("g", false).path, "/api/bot/game/g/takeback/no");
    assert_eq!(client.board().resign("g").path, "/api/board/game/g/resign");
    assert_eq!(encode(&client.bot().make_move("g", "e2e4", false).query), "offeringDraw=false");
}

#[test]
fn chat_form_names_the_room() {
    let client = LichessClient::new();
    match client.board().write_chat("g", LichessChatRoom::Spectator, "gg").body {
        Body::Form(pairs) => assert_eq!(encode(&pairs), "room=spectator&text=gg"),
        other => panic!("expected a form, got {other:?}"),
    }
}

#[test]
fn seek_carries_the_clock_text() {
    let client = LichessClient::new();
    match client.board().seek().clock("2.5", 3).rated(false).send().body {
        Body::Form(pairs) => assert_eq!(encode(&pairs), "rated=false&time=2.5&increment=3"),
        other => panic!("expected a form, got {other:?}"),
    }
}

#[test]
fn bulk_pairing_form_starts_with_the_players() {
    let client = LichessClient::new();
    match client.bulk_pairing().create("a:b").clock(60, 0).pair_at(5).send().body {
        Body::Form(pairs) => assert_eq!(encode(&pairs), "players=a%3Ab&clock.limit=60&clock.increment=0&pairAt=5"),
        other => panic!("expected a form, got {other:?}"),
    }
    assert_eq!(client.bulk_pairing().delete("x").method, Method::Delete);
}

#[test]
fn unset_export_options_add_nothing() {
    assert!(GameExportOptions::default().pairs().is_empty());
    assert!(litchee::model::PgnExportOptions::default().pairs().is_empty());
    let client = LichessClient::new();
    assert!(client.games().current_game("bob").json().query.is_empty());
}
