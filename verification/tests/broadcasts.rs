use litchee::api::broadcasting::broadcasts::{BroadcastCustomPoints, BroadcastCustomScoring, BroadcastGrouping, BroadcastTourInfo};
use litchee::client::LichessClient;
use litchee::http::{Body, Method};
use litchee::model::PgnExportOptions;

fn encode(pairs: &[(String, String)]) -> String {
    serde_urlencoded::to_string(pairs).unwrap()
}

#[test]
fn tour_info_serializes_to_dotted_keys() {
    let query = encode(&BroadcastTourInfo::default().format("8-player RR").fide_tc("standard").pairs());
    assert!(query.contains("info.format=8-player+RR"));
    assert!(query.contains("info.fideTC=standard"));
}

#[test]
fn empty_tour_info_serializes_to_nothing() {
    assert_eq!(encode(&BroadcastTourInfo::default().pairs()), "");
}

#[test]
fn grouping_encodes_nested_and_indexed_keys() {
    let mut pairs = vec![("tiebreaks[0]".to_owned(), "BH".to_owned())];
    BroadcastGrouping::default().name("Open").tours("a,b").score_group("a,b").append_pairs(&mut pairs);
    let encoded = encode(&pairs);
    assert_eq!(
        encoded,
        "tiebreaks%5B0%5D=BH&grouping.info.name=Open\
         &grouping.info.tours=a%2Cb&grouping.scoreGroups%5B0%5D=a%2Cb"
    );
}

#[test]
fn tour_form_joins_fields_info_tiebreaks_and_grouping() {
    let client = LichessClient::new();
    let request = client
        .broadcasts()
        .create_tour("Cup")
        .tier(4)
        .info(BroadcastTourInfo::default().location("Oslo"))
        .tiebreaks(&["BH", "AOB"])
        .grouping(BroadcastGrouping::default().score_group("a").score_group("b"))
        .send();
    assert_eq!(request.path, "/broadcast/new");
    match request.body {
        Body::Form(pairs) => assert_eq!(
            encode(&pairs),
            "name=Cup&tier=4&info.location=Oslo&tiebreaks%5B0%5D=BH&tiebreaks%5B1%5D=AOB\
             &grouping.scoreGroups%5B0%5D=a&grouping.scoreGroups%5B1%5D=b"
        ),
        other => panic!("expected a form, got {other:?}"),
    }
}

#[test]
fn tour_edit_targets_the_tournament() {
    let client = LichessClient::new();
    assert_eq!(client.broadcasts().update_tour("t/1", "Cup").send().path, "/broadcast/t%2F1/edit");
}

#[test]
fn round_form_appends_custom_scoring_and_patch_query() {
    let client = LichessClient::new();
    let points = |win: &str, draw: &str| BroadcastCustomPoints { win: win.to_owned(), draw: draw.to_owned() };
    let request = client
        .broadcasts()
        .update_round("r1", "Round 1")
        .delay(60)
        .custom_scoring(BroadcastCustomScoring { white: points("1", "0.5"), black: points("1.5", "0.5") })
        .team_custom_scoring(points("2", "1"))
        .patch(true)
        .send();
    assert_eq!(request.path, "/broadcast/round/r1/edit");
    assert_eq!(encode(&request.query), "patch=true");
    match request.body {
        Body::Form(pairs) => assert_eq!(
            encode(&pairs),
            "name=Round+1&delay=60&customScoring.white.win=1&customScoring.white.draw=0.5\
             &customScoring.black.win=1.5&customScoring.black.draw=0.5\
             &teamCustomScoring.win=2&teamCustomScoring.draw=1"
        ),
        other => panic!("expected a form, got {other:?}"),
    }
}

#[test]
fn round_creation_goes_under_the_tournament() {
    let client = LichessClient::new();
    let request = client.broadcasts().create_round("t1", "R").send();
    assert_eq!(request.path, "/broadcast/t1/new");
    assert!(request.query.is_empty());
}

#[test]
fn pgn_exports_carry_the_options() {
    let client = LichessClient::new();
    let options = PgnExportOptions { clocks: Some(false), comments: None, variations: Some(true) };
    let request = client.broadcasts().round_pgn("r1", &options);
    assert_eq!(request.path, "/api/broadcast/round/r1.pgn");
    assert_eq!(encode(&request.query), "clocks=false&variations=true");
}

#[test]
fn round_lookup_encodes_each_segment() {
    let client = LichessClient::new();
    let request = client.broadcasts().round("a b", "c/d", "e");
    assert_eq!(request.path, "/api/broadcast/a%20b/c%2Fd/e");
    assert_eq!(request.method, Method::Get);
}

#[test]
fn search_sends_query_and_page() {
    let client = LichessClient::new();
    assert_eq!(encode(&client.broadcasts().search("world cup", 2).query), "q=world+cup&page=2");
}

#[test]
fn push_pgn_sends_the_pgn_as_text() {
    let client = LichessClient::new();
    match client.broadcasts().push_pgn("r1", "1. e4 *").body {
        Body::Text(text) => assert_eq!(text, "1. e4 *"),
        other => panic!("expected text, got {other:?}"),
    }
}
