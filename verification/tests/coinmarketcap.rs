use coin_news::coinmarketcap::{
    articles, overview, overview_article_for, overview_at, request, website,
};
use coin_news::json::parse;
use coin_news::request::Param;
use coin_news::NewsArticle;

const ANSWER: &[u8] = br#"{"status": {"error_code": 0}, "data": {"BTC": {
    "name": "Bitcoin",
    "description": "A coin.",
    "urls": {"website": ["https://bitcoin.org/", "https://second.example/"], "explorer": []}
}}}"#;

fn param(name: &str, value: &str) -> Param {
    Param { name: name.to_string(), value: value.to_string() }
}

#[test]
fn the_request_carries_symbol_and_key() {
    let asked = request("secret", "btc");
    assert_eq!(asked.url, "https://pro-api.coinmarketcap.com/v1/cryptocurrency/info");
    assert_eq!(asked.query, vec![param("symbol", "btc")]);
    assert_eq!(asked.headers, vec![param("X-CMC_PRO_API_KEY", "secret")]);
}

#[test]
fn the_symbol_is_asked_as_written() {
    assert_eq!(request("k", "Btc x").query, vec![param("symbol", "Btc x")]);
    assert_eq!(request("", "").query, vec![param("symbol", "")]);
}

#[test]
fn the_overview_points_to_the_first_website() {
    let document = parse(ANSWER).unwrap();
    assert_eq!(website(&document, "BTC"), Some("https://bitcoin.org/"));
    assert_eq!(
        overview_at(&document, "BTC", "2024-05-01T10:00:00+00:00"),
        vec![NewsArticle {
            title: "Overview of BTC".to_string(),
            url: "https://bitcoin.org/".to_string(),
            source: "CoinMarketCap".to_string(),
            date: "2024-05-01T10:00:00+00:00".to_string(),
        }]
    );
}

#[test]
fn the_key_is_looked_up_as_written() {
    let document = parse(ANSWER).unwrap();
    assert_eq!(website(&document, "btc"), None);
    assert_eq!(website(&document, "Bitcoin"), None);
    assert_eq!(website(&document, ""), None);
    assert_eq!(overview_at(&document, "btc", "now"), vec![]);
}

#[test]
fn an_answer_of_another_shape_holds_no_overview() {
    let shapes: Vec<&[u8]> = vec![
        br#"{}"#,
        br#"{"data": null}"#,
        br#"{"data": []}"#,
        br#"{"data": {"BTC": "text"}}"#,
        br#"{"data": {"BTC": [{"urls": {"website": ["https://x.example"]}}]}}"#,
        br#"{"data": {"BTC": {}}}"#,
        br#"{"data": {"BTC": {"description": "d"}}}"#,
        br#"{"data": {"BTC": {"urls": {}}}}"#,
        br#"{"data": {"BTC": {"urls": {"website": []}}}}"#,
        br#"{"data": {"BTC": {"urls": {"website": [null, "https://x.example"]}}}}"#,
        br#"{"data": {"BTC": {"urls": {"website": "https://x.example"}}}}"#,
        br#"{"data": {"ETH": {"urls": {"website": ["https://x.example"]}}}}"#,
    ];
    for body in shapes {
        let document = parse(body).unwrap();
        assert_eq!(website(&document, "BTC"), None);
        assert_eq!(overview_at(&document, "BTC", "now"), vec![]);
        assert_eq!(overview(&document, "BTC"), vec![]);
        assert_eq!(articles(body, "BTC"), vec![]);
    }
}

#[test]
fn a_description_is_not_asked_for() {
    let body = br#"{"data": {"X": {"urls": {"website": ["https://x.example"]}}}}"#;
    let document = parse(body).unwrap();
    assert_eq!(website(&document, "X"), Some("https://x.example"));
}

#[test]
fn a_body_that_is_no_json_holds_no_overview() {
    assert_eq!(articles(b"", "BTC"), vec![]);
    assert_eq!(articles(b"not json", "BTC"), vec![]);
    assert_eq!(articles(&ANSWER[..ANSWER.len() - 1], "BTC"), vec![]);
}

#[test]
fn the_overview_is_dated_now() {
    let before = chrono::Utc::now();
    let found = articles(ANSWER, "BTC");
    let after = chrono::Utc::now();
    assert_eq!(found.len(), 1);
    assert_eq!(found[0].title, "Overview of BTC");
    assert_eq!(found[0].url, "https://bitcoin.org/");
    assert_eq!(found[0].source, "CoinMarketCap");
    let date = chrono::DateTime::parse_from_rfc3339(&found[0].date).unwrap();
    assert!(before <= date && date <= after);
    assert!(found[0].date.ends_with("+00:00"));
}

#[test]
fn the_overview_of_a_document_is_dated_now_too() {
    let document = parse(ANSWER).unwrap();
    let found = overview(&document, "BTC");
    assert_eq!(found.len(), 1);
    assert_eq!(found[0].title, "Overview of BTC");
    assert!(chrono::DateTime::parse_from_rfc3339(&found[0].date).is_ok());
}

#[test]
fn the_title_embeds_the_query() {
    let written = overview_article_for("some coin", "https://s.example", "D");
    assert_eq!(written.title, "Overview of some coin");
    assert_eq!(written.url, "https://s.example");
    assert_eq!(written.source, "CoinMarketCap");
    assert_eq!(written.date, "D");
    assert_eq!(overview_article_for("", "", "").title, "Overview of ");
}
