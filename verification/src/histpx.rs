//! Exchanges and the sources of price data.

use vstd::prelude::*;
use vstd::string::*;

pub mod coinapi;
pub mod cryptowatch;
pub mod poloniex;

verus! {

/// What to ask a price service: the address, the parameters of the query
/// and the headers of the request, each in its order.
#[derive(Debug, Clone, PartialEq, Eq)]
pub struct PriceQuery {
    pub url: String,
    pub params: Vec<(String, String)>,
    pub headers: Vec<(String, String)>,
}

/// A `PriceQuery` as mathematics.
pub struct PriceQueryView {
    pub url: Seq<char>,
    pub params: Seq<(Seq<char>, Seq<char>)>,
    pub headers: Seq<(Seq<char>, Seq<char>)>,
}

/// Pairs of texts as mathematics.
pub open spec fn pair_views(pairs: Seq<(String, String)>) -> Seq<(Seq<char>, Seq<char>)> {
    Seq::new(pairs.len(), |i: int| (pairs[i].0@, pairs[i].1@))
}

impl View for PriceQuery {
    type V = PriceQueryView;

    open spec fn view(&self) -> PriceQueryView {
        PriceQueryView {
            url: self.url@,
            params: pair_views(self.params@),
            headers: pair_views(self.headers@),
        }
    }
}

/// A name and a value, as owned texts.
pub fn pair(name: &str, value: &str) -> (both: (String, String))
    ensures
        both.0@ == name@,
        both.1@ == value@,
{
    (name.to_owned(), value.to_owned())
}

/// The markets whose prices are followed.
#[derive(Debug, Copy, Clone, PartialEq, Eq, Structural)]
pub enum Exchange {
    Kraken,
    Bitstamp,
    Poloniex,
    Gdax,
    Coinbase,
    Btce,
    Gemini,
    Binance,
    Bitfinex,
}

/// Every market once.
pub const EXCHANGES: [Exchange; 9] = [
    Exchange::Kraken,
    Exchange::Bitstamp,
    Exchange::Poloniex,
    Exchange::Gdax,
    Exchange::Coinbase,
    Exchange::Btce,
    Exchange::Gemini,
    Exchange::Binance,
    Exchange::Bitfinex,
];

/// The services that prices are taken from.
#[derive(Debug, Copy, Clone, PartialEq, Eq, Structural)]
pub enum DataSource {
    Poloniex,
    Cryptowatch,
    Coinapi,
}

/// How a price in fiat was arrived at.
#[derive(Debug, Copy, Clone, PartialEq, Eq, Structural)]
pub enum FxMethod {
    EthUsd,
    EthUsdt,
    EthBtcUsd,
}

impl Exchange {
    /// The name of the market in price files and in the services' paths:
    /// lower case.
    pub open spec fn name(self) -> Seq<char> {
        match self {
            Exchange::Kraken => "kraken"@,
            Exchange::Bitstamp => "bitstamp"@,
            Exchange::Poloniex => "poloniex"@,
            Exchange::Gdax => "gdax"@,
            Exchange::Coinbase => "coinbase"@,
            Exchange::Btce => "btce"@,
            Exchange::Gemini => "gemini"@,
            Exchange::Binance => "binance"@,
            Exchange::Bitfinex => "bitfinex"@,
        }
    }

    /// The name of the market in price files and in the services' paths.
    pub fn as_str(&self) -> (name: &'static str)
        ensures
            name@ == self.name(),
    {
        match self {
            Exchange::Kraken => "kraken",
            Exchange::Bitstamp => "bitstamp",
            Exchange::Poloniex => "poloniex",
            Exchange::Gdax => "gdax",
            Exchange::Coinbase => "coinbase",
            Exchange::Btce => "btce",
            Exchange::Gemini => "gemini",
            Exchange::Binance => "binance",
            Exchange::Bitfinex => "bitfinex",
        }
    }

    /// The name of the market in capitals, as one service spells it.
    pub open spec fn capital_name(self) -> Seq<char> {
        match self {
            Exchange::Kraken => "KRAKEN"@,
            Exchange::Bitstamp => "BITSTAMP"@,
            Exchange::Poloniex => "POLONIEX"@,
            Exchange::Gdax => "GDAX"@,
            Exchange::Coinbase => "COINBASE"@,
            Exchange::Btce => "BTCE"@,
            Exchange::Gemini => "GEMINI"@,
            Exchange::Binance => "BINANCE"@,
            Exchange::Bitfinex => "BITFINEX"@,
        }
    }

    /// The name of the market in capitals.
    pub fn as_capitals(&self) -> (name: &'static str)
        ensures
            name@ == self.capital_name(),
    {
        match self {
            Exchange::Kraken => "KRAKEN",
            Exchange::Bitstamp => "BITSTAMP",
            Exchange::Poloniex => "POLONIEX",
            Exchange::Gdax => "GDAX",
            Exchange::Coinbase => "COINBASE",
            Exchange::Btce => "BTCE",
            Exchange::Gemini => "GEMINI",
            Exchange::Binance => "BINANCE",
            Exchange::Bitfinex => "BITFINEX",
        }
    }
}

impl DataSource {
    /// The name of the service in price files: lower case.
    pub open spec fn name(self) -> Seq<char> {
        match self {
            DataSource::Poloniex => "poloniex"@,
            DataSource::Cryptowatch => "cryptowatch"@,
            DataSource::Coinapi => "coinapi"@,
        }
    }

    /// The name of the service in price files.
    pub fn as_str(&self) -> (name: &'static str)
        ensures
            name@ == self.name(),
    {
        match self {
            DataSource::Poloniex => "poloniex",
            DataSource::Cryptowatch => "cryptowatch",
            DataSource::Coinapi => "coinapi",
        }
    }
}

impl FxMethod {
    /// The tag of the method in price files: capitals and underscores.
    pub open spec fn name(self) -> Seq<char> {
        match self {
            FxMethod::EthUsd => "ETH_USD"@,
            FxMethod::EthUsdt => "ETH_USDT"@,
            FxMethod::EthBtcUsd => "ETH_BTC_USD"@,
        }
    }

    /// The tag of the method in price files.
    pub fn as_str(&self) -> (name: &'static str)
        ensures
            name@ == self.name(),
    {
        match self {
            FxMethod::EthUsd => "ETH_USD",
            FxMethod::EthUsdt => "ETH_USDT",
            FxMethod::EthBtcUsd => "ETH_BTC_USD",
        }
    }
}

} // verus!
