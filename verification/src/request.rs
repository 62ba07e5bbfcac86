//! The GET request that a source is asked with.
//!
//! The crate decides what is asked; whoever holds the network sends it.

use vstd::prelude::*;

verus! {

/// A name and its value, as plain text.
pub struct ParamView {
    pub name: Seq<char>,
    pub value: Seq<char>,
}

/// A GET request as a mathematical value.
pub struct RequestView {
    pub url: Seq<char>,
    pub query: Seq<ParamView>,
    pub headers: Seq<ParamView>,
}

/// A name and its value: one query parameter, or one header.
#[derive(Debug, PartialEq, Eq)]
pub struct Param {
    pub name: String,
    pub value: String,
}

/// A GET request: the address as it is written, the query parameters that the
/// sender still has to encode and attach, and the headers to set.
#[derive(Debug, PartialEq, Eq)]
pub struct GetRequest {
    pub url: String,
    pub query: Vec<Param>,
    pub headers: Vec<Param>,
}

impl View for Param {
    type V = ParamView;

    open spec fn view(&self) -> ParamView {
        ParamView { name: self.name@, value: self.value@ }
    }
}

impl DeepView for Param {
    type V = ParamView;

    open spec fn deep_view(&self) -> ParamView {
        self.view()
    }
}

impl View for GetRequest {
    type V = RequestView;

    open spec fn view(&self) -> RequestView {
        RequestView {
            url: self.url@,
            query: self.query.deep_view(),
            headers: self.headers.deep_view(),
        }
    }
}

impl Param {
    /// Pairs `name` with `value`, copying both.
    pub fn new(name: &str, value: &str) -> (param: Param)
        ensures
            param@ == (ParamView { name: name@, value: value@ }),
    {
        Param { name: name.to_owned(), value: value.to_owned() }
    }
}

} // verus!
