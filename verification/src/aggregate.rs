//! Merging what the two sources gave.
//!
//! Both sources are asked about every query, and both are waited for. A
//! source that failed adds nothing to the articles and one line to the log;
//! it never takes away what the other source gave.

use vstd::prelude::*;
use vstd::string::StringExecFns;
use crate::article::{ArticleView, NewsArticle};
use crate::coinmarketcap::overview_of;
use crate::json::JsonValue;
use crate::newsapi::{articles_of, MAX_ARTICLES};

verus! {

/// The two sources, in the order in which their articles are listed.
#[derive(Debug, Clone, Copy, PartialEq, Eq, Structural)]
pub enum Source {
    NewsApi,
    CoinMarketCap,
}

impl Source {
    /// The name that the log gives the source.
    pub open spec fn label(self) -> Seq<char> {
        match self {
            Source::NewsApi => "NewsAPI"@,
            Source::CoinMarketCap => "CoinMarketCap"@,
        }
    }

    /// The name that the log gives the source.
    pub fn name(self) -> (name: &'static str)
        ensures
            name@ == self.label(),
    {
        match self {
            Source::NewsApi => "NewsAPI",
            Source::CoinMarketCap => "CoinMarketCap",
        }
    }
}

/// The log line for a source that failed on `query`.
pub open spec fn failure_line(source: Source, query: Seq<char>) -> Seq<char> {
    "Error fetching "@ + source.label() + " for query: "@ + query
}

/// The log of one query: a line for each source that failed, the news search
/// first.
pub open spec fn failure_lines(news_failed: bool, market_failed: bool, query: Seq<char>) -> Seq<
    Seq<char>,
> {
    let news = if news_failed {
        seq![failure_line(Source::NewsApi, query)]
    } else {
        Seq::empty()
    };
    let market = if market_failed {
        seq![failure_line(Source::CoinMarketCap, query)]
    } else {
        Seq::empty()
    };
    news + market
}

/// What a source adds to the answer: its articles, or nothing if it failed.
pub open spec fn share(outcome: Option<Seq<ArticleView>>) -> Seq<ArticleView> {
    match outcome {
        Some(articles) => articles,
        None => Seq::empty(),
    }
}

/// The answer to one query: what the news search adds, then what the market
/// data adds.
pub open spec fn combined_articles(
    news: Option<Seq<ArticleView>>,
    market: Option<Seq<ArticleView>>,
) -> Seq<ArticleView> {
    share(news) + share(market)
}

/// The articles that a source came back with, if it came back with any
/// answer at all.
pub open spec fn outcome_of<E>(result: Result<Vec<NewsArticle>, E>) -> Option<Seq<ArticleView>> {
    match result {
        Ok(articles) => Some(articles.deep_view()),
        Err(_) => None,
    }
}

/// The merged answer to one query, as a mathematical value.
pub struct CombinedView {
    pub articles: Seq<ArticleView>,
    pub log: Seq<Seq<char>>,
}

/// The merged answer to one query: the articles to hand out, and the lines
/// to log.
#[derive(Debug, PartialEq, Eq)]
pub struct Combined {
    pub articles: Vec<NewsArticle>,
    pub log: Vec<String>,
}

impl View for Combined {
    type V = CombinedView;

    open spec fn view(&self) -> CombinedView {
        CombinedView { articles: self.articles.deep_view(), log: self.log.deep_view() }
    }
}

/// Writes the log line for a source that failed on `query`.
pub fn failure_line_for(source: Source, query: &str) -> (line: String)
    ensures
        line@ == failure_line(source, query@),
{
    let mut line = String::from_str("Error fetching ");
    line.append(source.name());
    line.append(" for query: ");
    line.append(query);
    line
}

/// Merges the outcomes of the two sources for `query`. The articles of the
/// news search come first, those of the market data after them; each source
/// that failed is named in the log, and in the same order.
pub fn combine<E, F>(
    query: &str,
    news: Result<Vec<NewsArticle>, E>,
    market: Result<Vec<NewsArticle>, F>,
) -> (combined: Combined)
    ensures
        combined@.articles == combined_articles(outcome_of(news), outcome_of(market)),
        combined@.log == failure_lines(news is Err, market is Err, query@),
{
    let mut articles: Vec<NewsArticle> = Vec::new();
    let mut log: Vec<String> = Vec::new();
    match news {
        Ok(mut found) => {
            articles.append(&mut found);
        },
        Err(_) => {
            log.push(failure_line_for(Source::NewsApi, query));
        },
    }
    assert(articles.deep_view() =~= share(outcome_of(news)));
    assert(log.deep_view() =~= failure_lines(news is Err, false, query@));
    match market {
        Ok(mut found) => {
            articles.append(&mut found);
        },
        Err(_) => {
            log.push(failure_line_for(Source::CoinMarketCap, query));
        },
    }
    assert(articles.deep_view() =~= combined_articles(outcome_of(news), outcome_of(market)));
    assert(log.deep_view() =~= failure_lines(news is Err, market is Err, query@));
    Combined { articles, log }
}

/// Where both sources answer, the result is the articles of the news search
/// followed by those of the market data, and nothing is logged. Read out of a
/// news answer and a market answer, that is at most [`MAX_ARTICLES`] articles
/// followed by at most one.
pub proof fn lemma_both_answer(
    news: JsonValue,
    market: JsonValue,
    query: Seq<char>,
    date: Seq<char>,
)
    ensures
        articles_of(news).len() <= MAX_ARTICLES,
        overview_of(market, query, date).len() <= 1,
        combined_articles(Some(articles_of(news)), Some(overview_of(market, query, date)))
            == articles_of(news) + overview_of(market, query, date),
        failure_lines(false, false, query) == Seq::<Seq<char>>::empty(),
{
}

/// Where both sources answer, whatever they answer, the result is the first
/// answer followed by the second.
pub proof fn lemma_answers_in_order(news: Seq<ArticleView>, market: Seq<ArticleView>)
    ensures
        combined_articles(Some(news), Some(market)) == news + market,
{
}

/// Where the news search fails and the market data answers, the result is
/// exactly the market data's articles, and the log holds one line, which
/// names the news search and ends with the query.
pub proof fn lemma_news_fails(market: Seq<ArticleView>, query: Seq<char>)
    ensures
        combined_articles(None, Some(market)) == market,
        failure_lines(true, false, query) == seq![failure_line(Source::NewsApi, query)],
        failure_line(Source::NewsApi, query) == "Error fetching NewsAPI for query: "@ + query,
{
    reveal_strlit("Error fetching NewsAPI for query: ");
    reveal_strlit("Error fetching ");
    reveal_strlit("NewsAPI");
    reveal_strlit(" for query: ");
    assert("Error fetching "@ + "NewsAPI"@ + " for query: "@
        =~= "Error fetching NewsAPI for query: "@);
}

/// Where the market data fails and the news search answers, the result is
/// exactly the news search's articles, and the log holds one line, which
/// names the market data and ends with the query.
pub proof fn lemma_market_fails(news: Seq<ArticleView>, query: Seq<char>)
    ensures
        combined_articles(Some(news), None) == news,
        failure_lines(false, true, query) == seq![failure_line(Source::CoinMarketCap, query)],
        failure_line(Source::CoinMarketCap, query) == "Error fetching CoinMarketCap for query: "@
            + query,
{
    reveal_strlit("Error fetching CoinMarketCap for query: ");
    reveal_strlit("Error fetching ");
    reveal_strlit("CoinMarketCap");
    reveal_strlit(" for query: ");
    assert("Error fetching "@ + "CoinMarketCap"@ + " for query: "@
        =~= "Error fetching CoinMarketCap for query: "@);
}

/// Where both sources fail, the result is empty, and the log names both, the
/// news search first.
pub proof fn lemma_both_fail(query: Seq<char>)
    ensures
        combined_articles(None, None) == Seq::<ArticleView>::empty(),
        failure_lines(true, true, query) == seq![
            failure_line(Source::NewsApi, query),
            failure_line(Source::CoinMarketCap, query),
        ],
{
}

} // verus!
