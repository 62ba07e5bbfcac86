//! The article record that every source is normalised into.

use vstd::prelude::*;

verus! {

/// An article as plain text: the model that contracts speak of.
pub struct ArticleView {
    pub title: Seq<char>,
    pub url: Seq<char>,
    pub source: Seq<char>,
    pub date: Seq<char>,
}

/// One normalised article. The date keeps whatever form its source gave it.
#[derive(Debug, PartialEq, Eq)]
pub struct NewsArticle {
    pub title: String,
    pub url: String,
    pub source: String,
    pub date: String,
}

impl View for NewsArticle {
    type V = ArticleView;

    open spec fn view(&self) -> ArticleView {
        ArticleView {
            title: self.title@,
            url: self.url@,
            source: self.source@,
            date: self.date@,
        }
    }
}

impl DeepView for NewsArticle {
    type V = ArticleView;

    open spec fn deep_view(&self) -> ArticleView {
        self.view()
    }
}

} // verus!
