//! The market-data lookup: which request it is asked with, and how its
//! answer becomes the overview of a coin.

use vstd::prelude::*;
use vstd::string::StringExecFns;
use crate::article::{ArticleView, NewsArticle};
use crate::clock::now_rfc3339;
use crate::json::{element_of, member_of, parse, parsed_document, text_of, Json, JsonValue};
use crate::request::{GetRequest, Param, ParamView, RequestView};

verus! {

/// The request that looks `query` up under `api_key`: the symbol goes as a
/// query parameter exactly as written, the key as a header.
pub open spec fn lookup_request(api_key: Seq<char>, query: Seq<char>) -> RequestView {
    RequestView {
        url: "https://pro-api.coinmarketcap.com/v1/cryptocurrency/info"@,
        query: seq![ParamView { name: "symbol"@, value: query }],
        headers: seq![ParamView { name: "X-CMC_PRO_API_KEY"@, value: api_key }],
    }
}

/// The first website that an answer lists for `query`: the string at
/// `data.<query>.urls.website[0]`, where the answer reaches that far.
pub open spec fn website_of(document: JsonValue, query: Seq<char>) -> Option<Seq<char>> {
    let entry = member_of(document.member("data"@), query);
    text_of(element_of(member_of(member_of(entry, "urls"@), "website"@), 0))
}

/// The overview article of `query` that points to `site`.
pub open spec fn overview_article(query: Seq<char>, site: Seq<char>, date: Seq<char>) -> ArticleView {
    ArticleView { title: "Overview of "@ + query, url: site, source: "CoinMarketCap"@, date }
}

/// The articles of an answer read at `date`: the overview of `query` where
/// the answer lists a website for it, else none.
pub open spec fn overview_of(document: JsonValue, query: Seq<char>, date: Seq<char>) -> Seq<
    ArticleView,
> {
    match website_of(document, query) {
        Some(site) => seq![overview_article(query, site, date)],
        None => Seq::empty(),
    }
}

/// The articles of a response body read at `date`: those of the document it
/// holds, none if it holds no document.
pub open spec fn overview_of_body(body: Seq<u8>, query: Seq<char>, date: Seq<char>) -> Seq<
    ArticleView,
> {
    match parsed_document(body) {
        Some(document) => overview_of(document, query, date),
        None => Seq::empty(),
    }
}

/// Writes the request that asks the market data about `query`.
pub fn request(api_key: &str, query: &str) -> (request: GetRequest)
    ensures
        request@ == lookup_request(api_key@, query@),
{
    let mut query_params: Vec<Param> = Vec::new();
    query_params.push(Param::new("symbol", query));
    let mut headers: Vec<Param> = Vec::new();
    headers.push(Param::new("X-CMC_PRO_API_KEY", api_key));
    let request = GetRequest {
        url: "https://pro-api.coinmarketcap.com/v1/cryptocurrency/info".to_owned(),
        query: query_params,
        headers,
    };
    assert(request.query.deep_view() =~= lookup_request(api_key@, query@).query);
    assert(request.headers.deep_view() =~= lookup_request(api_key@, query@).headers);
    request
}

/// Finds the first website that an answer lists for `query`.
pub fn website<'a>(document: &'a Json, query: &str) -> (site: Option<&'a str>)
    ensures
        site.deep_view() == website_of(document@, query@),
{
    let entry = Json::member_of(document.get("data"), query);
    let sites = Json::member_of(Json::member_of(entry, "urls"), "website");
    Json::text_of(Json::element_of(sites, 0))
}

/// Writes the overview article of `query` that points to `site`.
pub fn overview_article_for(query: &str, site: &str, date: &str) -> (article: NewsArticle)
    ensures
        article@ == overview_article(query@, site@, date@),
{
    let mut title = String::from_str("Overview of ");
    title.append(query);
    NewsArticle {
        title,
        url: site.to_owned(),
        source: "CoinMarketCap".to_owned(),
        date: date.to_owned(),
    }
}

/// Reads the overview out of an answer, dated `date`.
pub fn overview_at(document: &Json, query: &str, date: &str) -> (articles: Vec<NewsArticle>)
    ensures
        articles.deep_view() == overview_of(document@, query@, date@),
        articles.len() <= 1,
{
    let mut articles: Vec<NewsArticle> = Vec::new();
    match website(document, query) {
        Some(site) => {
            articles.push(overview_article_for(query, site, date));
        },
        None => {},
    }
    assert(articles.deep_view() =~= overview_of(document@, query@, date@));
    articles
}

/// Reads the overview out of an answer and dates it now. The clock is read
/// only where there is an overview to date.
pub fn overview(document: &Json, query: &str) -> (articles: Vec<NewsArticle>)
    ensures
        exists|date: Seq<char>| articles.deep_view() == overview_of(document@, query@, date),
        articles.len() <= 1,
{
    let mut articles: Vec<NewsArticle> = Vec::new();
    match website(document, query) {
        Some(site) => {
            let date = now_rfc3339();
            articles.push(overview_article_for(query, site, date.as_str()));
            assert(articles.deep_view() =~= overview_of(document@, query@, date@));
        },
        None => {
            assert(articles.deep_view() =~= overview_of(document@, query@, Seq::empty()));
        },
    }
    articles
}

/// Reads the overview out of a response body and dates it now. A body that
/// is no JSON text, or is not shaped as an answer, holds none.
pub fn articles(body: &[u8], query: &str) -> (articles: Vec<NewsArticle>)
    ensures
        exists|date: Seq<char>| articles.deep_view() == overview_of_body(body@, query@, date),
        articles.len() <= 1,
{
    match parse(body) {
        Some(document) => {
            let articles = overview(&document, query);
            let ghost date = choose|date: Seq<char>|
                articles.deep_view() == overview_of(document@, query@, date);
            assert(articles.deep_view() == overview_of_body(body@, query@, date));
            articles
        },
        None => {
            let none: Vec<NewsArticle> = Vec::new();
            assert(none.deep_view() =~= overview_of_body(body@, query@, Seq::empty()));
            none
        },
    }
}

} // verus!
