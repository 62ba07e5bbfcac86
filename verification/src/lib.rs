//! News about a coin, gathered from two upstream services.
//!
//! The crate holds the rules of the aggregator: how a ticker symbol becomes a
//! search term, which request goes to each service, how each response body
//! becomes article records, and how the two outcomes are merged. Sending the
//! requests is left to the caller.

pub mod aggregate;
pub mod article;
mod clock;
pub mod coinmarketcap;
pub mod json;
pub mod newsapi;
pub mod request;
pub mod symbol;
pub mod text;

pub use article::NewsArticle;
