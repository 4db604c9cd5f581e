use litchee::api::database::opening_explorer::{join_csv, ExplorerMode, RatingGroup};
use litchee::client::LichessClient;
use litchee::model::{LichessColor, LichessSpeed};

/// A client with no config — enough to build request builders offline.
fn client() -> LichessClient {
    LichessClient::builder().build().expect("client builds")
}

#[test]
fn join_csv_omits_empty_and_comma_joins() {
    assert_eq!(join_csv(&[]), None);
    assert_eq!(join_csv(&["a", "b", "c"]), Some("a,b,c".to_owned()));
}

#[test]
fn lichess_default_query_is_fen_only() {
    let client = client();
    let req = client.opening_explorer().lichess("thefen");
    assert_eq!(req.query.fen, "thefen");
    assert!(req.query.play.is_none() && req.query.speeds.is_none());
}

#[test]
fn lichess_speeds_and_ratings_are_comma_joined() {
    let client = client();
    let req = client
        .opening_explorer()
        .lichess("f")
        .speeds(&[LichessSpeed::Blitz, LichessSpeed::Rapid])
        .ratings(&[RatingGroup::R1600, RatingGroup::R1800]);
    assert_eq!(req.query.speeds.as_deref(), Some("blitz,rapid"));
    assert_eq!(req.query.ratings.as_deref(), Some("1600,1800"));
}

#[test]
fn empty_filters_are_omitted_but_play_is_kept() {
    let client = client();
    let req = client.opening_explorer().lichess("f").play("e2e4").speeds(&[]).ratings(&[]);
    assert_eq!(req.query.play, Some("e2e4"));
    assert!(req.query.speeds.is_none() && req.query.ratings.is_none());
}

#[test]
fn masters_query_uses_year_bounds() {
    let client = client();
    let req = client.opening_explorer().masters("f").since(1952).until(2020).top_games(15);
    assert_eq!(req.query.since, Some(1952));
    assert_eq!(req.query.until, Some(2020));
    assert_eq!(req.query.top_games, Some(15));
}

#[test]
fn player_query_joins_speeds_and_modes() {
    let client = client();
    let req = client
        .opening_explorer()
        .player("bobby", LichessColor::Black, "f")
        .speeds(&[LichessSpeed::Bullet])
        .modes(&[ExplorerMode::Rated, ExplorerMode::Casual])
        .recent_games(5);
    assert_eq!(req.query.player, "bobby");
    assert_eq!(req.query.color, LichessColor::Black);
    assert_eq!(req.query.speeds.as_deref(), Some("bullet"));
    assert_eq!(req.query.modes.as_deref(), Some("rated,casual"));
    assert_eq!(req.query.recent_games, Some(5));
}

#[test]
fn rating_group_round_trips() {
    for group in RatingGroup::ALL {
        assert_eq!(RatingGroup::from_u16(group.as_u16()), Some(group));
    }
    assert_eq!(RatingGroup::from_u16(1234), None);
}

#[test]
fn explorer_mode_wire_values() {
    assert_eq!(ExplorerMode::Casual.as_str(), "casual");
    assert_eq!(ExplorerMode::Rated.as_str(), "rated");
}

#[test]
fn lichess_lookup_sends_the_query_in_order() {
    let client = client();
    let request = client
        .opening_explorer()
        .lichess("f")
        .history(true)
        .speeds(&[LichessSpeed::Blitz])
        .play("e2e4")
        .send();
    let pairs: Vec<(&str, &str)> = request.query.iter().map(|(k, v)| (k.as_str(), v.as_str())).collect();
    assert_eq!(pairs, vec![("fen", "f"), ("play", "e2e4"), ("speeds", "blitz"), ("history", "true")]);
    assert_eq!(request.path, "/lichess");
}

#[test]
fn masters_pgn_encodes_the_game_id() {
    let client = client();
    let request = client.opening_explorer().masters_pgn("a/b c");
    assert_eq!(request.path, "/masters/pgn/a%2Fb%20c");
}
