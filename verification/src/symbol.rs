//! From a ticker symbol to the name a coin is known by.

use vstd::prelude::*;
use crate::text::{to_uppercase, uppercase_of};

verus! {

/// The fixed table of tickers: the display name of `ticker`, if it has one.
/// Tickers are listed in upper case.
pub open spec fn ticker_name(ticker: Seq<char>) -> Option<Seq<char>> {
    if ticker == "BTC"@ {
        Some("Bitcoin"@)
    } else if ticker == "ETH"@ {
        Some("Ethereum"@)
    } else if ticker == "BNB"@ {
        Some("Binance Coin"@)
    } else if ticker == "ADA"@ {
        Some("Cardano"@)
    } else if ticker == "DOGE"@ {
        Some("Dogecoin"@)
    } else if ticker == "XRP"@ {
        Some("Ripple"@)
    } else if ticker == "SOL"@ {
        Some("Solana"@)
    } else if ticker == "DOT"@ {
        Some("Polkadot"@)
    } else if ticker == "AVAX"@ {
        Some("Avalanche"@)
    } else {
        None
    }
}

/// Whether the table lists `ticker`.
pub open spec fn is_ticker(ticker: Seq<char>) -> bool {
    ticker_name(ticker) is Some
}

/// The name for `symbol`, given its upper-case form: the table's entry where
/// there is one, else the symbol as it was written.
pub open spec fn display_name(symbol: Seq<char>, upper: Seq<char>) -> Seq<char> {
    match ticker_name(upper) {
        Some(name) => name,
        None => symbol,
    }
}

/// The name that `symbol` resolves to.
pub open spec fn resolved_name(symbol: Seq<char>) -> Seq<char> {
    display_name(symbol, uppercase_of(symbol))
}

/// Looks `ticker` up in the table, exactly as written.
pub fn ticker_display_name(ticker: &str) -> (name: Option<&'static str>)
    ensures
        match name {
            Some(found) => ticker_name(ticker@) == Some(found@),
            None => ticker_name(ticker@) is None,
        },
{
    if ticker.eq("BTC") {
        Some("Bitcoin")
    } else if ticker.eq("ETH") {
        Some("Ethereum")
    } else if ticker.eq("BNB") {
        Some("Binance Coin")
    } else if ticker.eq("ADA") {
        Some("Cardano")
    } else if ticker.eq("DOGE") {
        Some("Dogecoin")
    } else if ticker.eq("XRP") {
        Some("Ripple")
    } else if ticker.eq("SOL") {
        Some("Solana")
    } else if ticker.eq("DOT") {
        Some("Polkadot")
    } else if ticker.eq("AVAX") {
        Some("Avalanche")
    } else {
        None
    }
}

/// Resolves `symbol` once its upper-case form is known.
pub fn display_name_for<'a>(symbol: &'a str, upper: &str) -> (name: &'a str)
    ensures
        name@ == display_name(symbol@, upper@),
{
    match ticker_display_name(upper) {
        Some(found) => found,
        None => symbol,
    }
}

/// Resolves a ticker symbol to a display name, whatever its case. A symbol
/// that the table does not list comes back unchanged.
pub fn resolve_coin_name(symbol: &str) -> (name: &str)
    ensures
        name@ == resolved_name(symbol@),
{
    let upper = to_uppercase(symbol);
    display_name_for(symbol, upper.as_str())
}

proof fn lemma_tickers_differ()
    ensures
        "BTC"@.len() == 3 && "BTC"@[0] == 'B' && "BTC"@[1] == 'T',
        "ETH"@.len() == 3 && "ETH"@[0] == 'E',
        "BNB"@.len() == 3 && "BNB"@[0] == 'B' && "BNB"@[1] == 'N',
        "ADA"@.len() == 3 && "ADA"@[0] == 'A',
        "DOGE"@.len() == 4 && "DOGE"@[0] == 'D',
        "XRP"@.len() == 3 && "XRP"@[0] == 'X',
        "SOL"@.len() == 3 && "SOL"@[0] == 'S',
        "DOT"@.len() == 3 && "DOT"@[0] == 'D',
        "AVAX"@.len() == 4 && "AVAX"@[0] == 'A',
{
    reveal_strlit("BTC");
    reveal_strlit("ETH");
    reveal_strlit("BNB");
    reveal_strlit("ADA");
    reveal_strlit("DOGE");
    reveal_strlit("XRP");
    reveal_strlit("SOL");
    reveal_strlit("DOT");
    reveal_strlit("AVAX");
}

/// The table, entry by entry: each of its nine tickers has its display name,
/// and nothing else has one.
pub proof fn lemma_ticker_table(ticker: Seq<char>)
    ensures
        ticker_name("BTC"@) == Some("Bitcoin"@),
        ticker_name("ETH"@) == Some("Ethereum"@),
        ticker_name("BNB"@) == Some("Binance Coin"@),
        ticker_name("ADA"@) == Some("Cardano"@),
        ticker_name("DOGE"@) == Some("Dogecoin"@),
        ticker_name("XRP"@) == Some("Ripple"@),
        ticker_name("SOL"@) == Some("Solana"@),
        ticker_name("DOT"@) == Some("Polkadot"@),
        ticker_name("AVAX"@) == Some("Avalanche"@),
        is_ticker(ticker) <==> {
            ||| ticker == "BTC"@
            ||| ticker == "ETH"@
            ||| ticker == "BNB"@
            ||| ticker == "ADA"@
            ||| ticker == "DOGE"@
            ||| ticker == "XRP"@
            ||| ticker == "SOL"@
            ||| ticker == "DOT"@
            ||| ticker == "AVAX"@
        },
{
    lemma_tickers_differ();
}

/// A symbol whose upper-case form is a ticker of the table resolves to that
/// ticker's display name, in whatever case the symbol was written. Every
/// other symbol resolves to itself.
pub proof fn lemma_resolves_by_table(symbol: Seq<char>)
    ensures
        uppercase_of(symbol) == "BTC"@ ==> resolved_name(symbol) == "Bitcoin"@,
        uppercase_of(symbol) == "ETH"@ ==> resolved_name(symbol) == "Ethereum"@,
        uppercase_of(symbol) == "BNB"@ ==> resolved_name(symbol) == "Binance Coin"@,
        uppercase_of(symbol) == "ADA"@ ==> resolved_name(symbol) == "Cardano"@,
        uppercase_of(symbol) == "DOGE"@ ==> resolved_name(symbol) == "Dogecoin"@,
        uppercase_of(symbol) == "XRP"@ ==> resolved_name(symbol) == "Ripple"@,
        uppercase_of(symbol) == "SOL"@ ==> resolved_name(symbol) == "Solana"@,
        uppercase_of(symbol) == "DOT"@ ==> resolved_name(symbol) == "Polkadot"@,
        uppercase_of(symbol) == "AVAX"@ ==> resolved_name(symbol) == "Avalanche"@,
        !is_ticker(uppercase_of(symbol)) ==> resolved_name(symbol) == symbol,
{
    lemma_ticker_table(uppercase_of(symbol));
}

} // verus!
