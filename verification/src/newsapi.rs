//! The news search: which request it is asked with, and how its answer
//! becomes articles.

use vstd::prelude::*;
use vstd::string::StringExecFns;
use crate::article::{ArticleView, NewsArticle};
use crate::json::{parse, parsed_document, Json, JsonValue};
use crate::request::{GetRequest, ParamView, RequestView};
use crate::symbol::{resolve_coin_name, resolved_name};
use crate::text::{lowercase_of, to_lowercase};

verus! {

/// How many results of one answer are kept, at most.
pub const MAX_ARTICLES: usize = 5;

/// The term that is searched for `query`: the name it resolves to, in lower
/// case.
pub open spec fn search_term(query: Seq<char>) -> Seq<char> {
    lowercase_of(resolved_name(query))
}

/// The address of a search for `term` under `api_key`. Key and term stand in
/// it as they are written.
pub open spec fn search_url(api_key: Seq<char>, term: Seq<char>) -> Seq<char> {
    "https://newsdata.io/api/1/news?apikey="@ + api_key + "&q="@ + term + "&language=en"@
}

/// The request of a search for `term`: its address, and nothing else.
pub open spec fn search_request(api_key: Seq<char>, term: Seq<char>) -> RequestView {
    RequestView { url: search_url(api_key, term), query: Seq::empty(), headers: Seq::empty() }
}

/// The characters of `value` where it is a string, else `fallback`.
pub open spec fn text_or(value: Option<JsonValue>, fallback: Seq<char>) -> Seq<char> {
    match value {
        Some(JsonValue::Text(text)) => text,
        _ => fallback,
    }
}

/// The article that one result stands for. A field that is missing, or is no
/// string, is empty; the source then is the service itself.
pub open spec fn article_of(entry: JsonValue) -> ArticleView {
    ArticleView {
        title: text_or(entry.member("title"@), ""@),
        url: text_or(entry.member("link"@), ""@),
        source: text_or(entry.member("source_id"@), "NewsData.io"@),
        date: text_or(entry.member("pubDate"@), ""@),
    }
}

/// The results that an answer lists: the array under `results`, where there
/// is one.
pub open spec fn results_of(document: JsonValue) -> Seq<JsonValue> {
    match document.member("results"@) {
        Some(JsonValue::Array(items)) => items,
        _ => Seq::empty(),
    }
}

/// The articles of an answer: one for each of its first results, in their
/// order, up to [`MAX_ARTICLES`].
pub open spec fn articles_of(document: JsonValue) -> Seq<ArticleView> {
    let results = results_of(document);
    let kept = if results.len() <= MAX_ARTICLES {
        results.len()
    } else {
        MAX_ARTICLES as nat
    };
    Seq::new(kept, |i: int| article_of(results[i]))
}

/// The articles of a response body: those of the document it holds, none if
/// it holds no document.
pub open spec fn articles_of_body(body: Seq<u8>) -> Seq<ArticleView> {
    match parsed_document(body) {
        Some(document) => articles_of(document),
        None => Seq::empty(),
    }
}

/// Writes the request of a search for `term`, which is sent as it is given.
pub fn request_for_term(api_key: &str, term: &str) -> (request: GetRequest)
    ensures
        request@ == search_request(api_key@, term@),
{
    let mut url = String::from_str("https://newsdata.io/api/1/news?apikey=");
    url.append(api_key);
    url.append("&q=");
    url.append(term);
    url.append("&language=en");
    let request = GetRequest { url, query: Vec::new(), headers: Vec::new() };
    assert(request.query.deep_view() =~= Seq::<ParamView>::empty());
    assert(request.headers.deep_view() =~= Seq::<ParamView>::empty());
    request
}

/// Writes the request that asks the news search about `query`.
pub fn request(api_key: &str, query: &str) -> (request: GetRequest)
    ensures
        request@ == search_request(api_key@, search_term(query@)),
{
    let term = to_lowercase(resolve_coin_name(query));
    request_for_term(api_key, term.as_str())
}

fn text_or_else(value: Option<&Json>, fallback: &str) -> (text: String)
    ensures
        text@ == text_or(value.deep_view(), fallback@),
{
    match value {
        Some(Json::Text(text)) => text.clone(),
        _ => fallback.to_owned(),
    }
}

/// Reads one result as an article.
pub fn article_from(entry: &Json) -> (article: NewsArticle)
    ensures
        article@ == article_of(entry@),
{
    NewsArticle {
        title: text_or_else(entry.get("title"), ""),
        url: text_or_else(entry.get("link"), ""),
        source: text_or_else(entry.get("source_id"), "NewsData.io"),
        date: text_or_else(entry.get("pubDate"), ""),
    }
}

/// Reads the articles out of an answer.
pub fn articles_from(document: &Json) -> (articles: Vec<NewsArticle>)
    ensures
        articles.deep_view() == articles_of(document@),
        articles.len() <= MAX_ARTICLES,
{
    let mut articles: Vec<NewsArticle> = Vec::new();
    match document.get("results") {
        Some(Json::Array(results)) => {
            let mut i: usize = 0;
            while i < results.len() && i < MAX_ARTICLES
                invariant
                    i <= results.len(),
                    i <= MAX_ARTICLES,
                    articles.len() == i,
                    results_of(document@) == results.deep_view(),
                    forall|j: int|
                        0 <= j < i ==> (#[trigger] articles@[j])@ == article_of(results@[j]@),
                decreases results.len() - i,
            {
                articles.push(article_from(&results[i]));
                i += 1;
            }
            assert(articles.deep_view() =~= articles_of(document@));
        },
        _ => {
            assert(articles.deep_view() =~= articles_of(document@));
        },
    }
    articles
}

/// Reads the articles out of a response body. A body that is no JSON text,
/// or is not shaped as an answer, holds none.
pub fn articles(body: &[u8]) -> (articles: Vec<NewsArticle>)
    ensures
        articles.deep_view() == articles_of_body(body@),
        articles.len() <= MAX_ARTICLES,
{
    match parse(body) {
        Some(document) => articles_from(&document),
        None => {
            let none: Vec<NewsArticle> = Vec::new();
            assert(none.deep_view() =~= Seq::<ArticleView>::empty());
            none
        },
    }
}

} // verus!
