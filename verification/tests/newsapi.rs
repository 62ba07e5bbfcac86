use coin_news::json::{Json, Member};
use coin_news::newsapi::{
    article_from, articles, articles_from, request, request_for_term, MAX_ARTICLES,
};
use coin_news::NewsArticle;

fn article(title: &str, url: &str, source: &str, date: &str) -> NewsArticle {
    NewsArticle {
        title: title.to_string(),
        url: url.to_string(),
        source: source.to_string(),
        date: date.to_string(),
    }
}

fn member(key: &str, value: &str) -> Member {
    Member { key: key.to_string(), value: Json::Text(value.to_string()) }
}

#[test]
fn the_request_searches_for_the_resolved_name_in_lower_case() {
    let asked = request("KEY", "BTC");
    assert_eq!(asked.url, "https://newsdata.io/api/1/news?apikey=KEY&q=bitcoin&language=en");
    assert!(asked.query.is_empty());
    assert!(asked.headers.is_empty());
    assert_eq!(
        request("k", "bnb").url,
        "https://newsdata.io/api/1/news?apikey=k&q=binance coin&language=en"
    );
}

#[test]
fn the_request_lowers_an_unknown_query_too() {
    assert_eq!(
        request("KEY", "Some Coin").url,
        "https://newsdata.io/api/1/news?apikey=KEY&q=some coin&language=en"
    );
    assert_eq!(request("", "").url, "https://newsdata.io/api/1/news?apikey=&q=&language=en");
}

#[test]
fn the_term_goes_into_the_address_as_given() {
    let asked = request_for_term("a&b", "X y");
    assert_eq!(asked.url, "https://newsdata.io/api/1/news?apikey=a&b&q=X y&language=en");
    assert!(asked.query.is_empty());
    assert!(asked.headers.is_empty());
}

#[test]
fn a_result_becomes_an_article() {
    let body = br#"{"status": "success", "results": [
        {"title": "Up", "link": "https://a.example/1", "source_id": "wire", "pubDate": "2024-05-01 10:00:00"}
    ]}"#;
    assert_eq!(
        articles(body),
        vec![article("Up", "https://a.example/1", "wire", "2024-05-01 10:00:00")]
    );
}

#[test]
fn missing_fields_take_their_defaults() {
    let body = br#"{"results": [{}, {"title": 3, "link": null, "source_id": ["x"], "pubDate": {}}, "text", {"title": "only"}]}"#;
    assert_eq!(
        articles(body),
        vec![
            article("", "", "NewsData.io", ""),
            article("", "", "NewsData.io", ""),
            article("", "", "NewsData.io", ""),
            article("only", "", "NewsData.io", ""),
        ]
    );
}

#[test]
fn at_most_five_results_are_kept_in_their_order() {
    let body = br#"{"results": [{"title": "1"}, {"title": "2"}, {"title": "3"}, {"title": "4"},
        {"title": "5"}, {"title": "6"}, {"title": "7"}]}"#;
    let found = articles(body);
    assert_eq!(MAX_ARTICLES, 5);
    assert_eq!(found.len(), 5);
    let titles: Vec<&str> = found.iter().map(|a| a.title.as_str()).collect();
    assert_eq!(titles, vec!["1", "2", "3", "4", "5"]);
}

#[test]
fn exactly_five_results_are_all_kept() {
    let body = br#"{"results": [{"title": "1"}, {"title": "2"}, {"title": "3"}, {"title": "4"}, {"title": "5"}]}"#;
    assert_eq!(articles(body).len(), 5);
}

#[test]
fn an_answer_without_results_holds_no_articles() {
    assert_eq!(articles(br#"{"status": "error"}"#), vec![]);
    assert_eq!(articles(br#"{"results": []}"#), vec![]);
    assert_eq!(articles(br#"{"results": null}"#), vec![]);
    assert_eq!(articles(br#"{"results": {"title": "x"}}"#), vec![]);
    assert_eq!(articles(br#"{"results": "none"}"#), vec![]);
    assert_eq!(articles(br#"[{"title": "x"}]"#), vec![]);
    assert_eq!(articles(b"null"), vec![]);
}

#[test]
fn a_body_that_is_no_json_holds_no_articles() {
    assert_eq!(articles(b""), vec![]);
    assert_eq!(articles(b"<html>Bad Gateway</html>"), vec![]);
    assert_eq!(articles(br#"{"results": [{"title": "x"}]"#), vec![]);
}

#[test]
fn articles_are_read_from_a_document_in_memory() {
    let document = Json::Object(vec![Member {
        key: "results".to_string(),
        value: Json::Array(vec![
            Json::Object(vec![member("title", "T"), member("pubDate", "D")]),
            Json::Object(vec![member("link", "L"), member("source_id", "S")]),
        ]),
    }]);
    assert_eq!(
        articles_from(&document),
        vec![article("T", "", "NewsData.io", "D"), article("", "L", "S", "")]
    );
    assert_eq!(articles_from(&Json::Null), vec![]);
}

#[test]
fn one_entry_is_read_by_its_four_keys() {
    let entry = Json::Object(vec![
        member("title", "T"),
        member("link", "L"),
        member("source_id", "S"),
        member("pubDate", "D"),
        member("description", "ignored"),
    ]);
    assert_eq!(article_from(&entry), article("T", "L", "S", "D"));
    assert_eq!(article_from(&Json::Array(vec![])), article("", "", "NewsData.io", ""));
}
