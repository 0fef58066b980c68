//! Prices from Cryptowatch.

use crate::histpx::{pair, pair_views, Exchange, PriceQuery, PriceQueryView};
use crate::util::{decimal_string, decimal_text};
use vstd::prelude::*;
use vstd::string::*;

verus! {

/// The Cryptowatch service.
#[derive(Debug, Clone, Copy)]
pub struct CryptoWatch {}

/// The query for the candles of five minutes of a market after `start_ts`.
pub open spec fn ohlc_query(start_ts: u64, market: Exchange) -> PriceQueryView {
    PriceQueryView {
        url: "https://api.cryptowat.ch/markets/"@ + market.name() + "/ethusd/ohlc"@,
        params: seq![("after"@, decimal_text(start_ts)), ("periods"@, "300"@)],
        headers: Seq::empty(),
    }
}

impl CryptoWatch {
    pub fn new() -> (service: Self) {
        CryptoWatch {  }
    }

    /// What to ask for the candles of five minutes of `market` after
    /// `start_ts`.
    pub fn request(start_ts: u64, market: &Exchange) -> (query: PriceQuery)
        ensures
            query@ == ohlc_query(start_ts, *market),
    {
        let start = decimal_string(start_ts);
        let mut url = "https://api.cryptowat.ch/markets/".to_owned();
        url.append(market.as_str());
        url.append("/ethusd/ohlc");
        let mut params: Vec<(String, String)> = Vec::new();
        params.push(pair("after", start.as_str()));
        params.push(pair("periods", "300"));
        let query = PriceQuery { url, params, headers: Vec::new() };
        assert(pair_views(query.params@) =~= ohlc_query(start_ts, *market).params);
        assert(pair_views(query.headers@) =~= ohlc_query(start_ts, *market).headers);
        query
    }
}

} // verus!
