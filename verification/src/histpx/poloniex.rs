//! Prices from Poloniex.

use crate::histpx::{pair, pair_views, PriceQuery, PriceQueryView};
use crate::util::{decimal_string, decimal_text};
use vstd::prelude::*;
use vstd::string::*;

verus! {

/// The Poloniex service.
#[derive(Debug, Clone, Copy)]
pub struct Poloniex {}

/// The query for the candles of five minutes from `start_ts` on.
pub open spec fn chart_query(start_ts: u64) -> PriceQueryView {
    PriceQueryView {
        url: "https://poloniex.com/public"@,
        params: seq![
            ("command"@, "returnChartData"@),
            ("currencyPair"@, "USDT_ETH"@),
            ("end"@, "9999999999"@),
            ("period"@, "300"@),
            ("start"@, decimal_text(start_ts)),
        ],
        headers: Seq::empty(),
    }
}

impl Poloniex {
    pub fn new() -> (service: Self) {
        Poloniex {  }
    }

    /// What to ask for the candles of five minutes from `start_ts` on.
    pub fn request(start_ts: u64) -> (query: PriceQuery)
        ensures
            query@ == chart_query(start_ts),
    {
        let start = decimal_string(start_ts);
        let mut params: Vec<(String, String)> = Vec::new();
        params.push(pair("command", "returnChartData"));
        params.push(pair("currencyPair", "USDT_ETH"));
        params.push(pair("end", "9999999999"));
        params.push(pair("period", "300"));
        params.push(pair("start", start.as_str()));
        let query = PriceQuery {
            url: "https://poloniex.com/public".to_owned(),
            params,
            headers: Vec::new(),
        };
        assert(pair_views(query.params@) =~= chart_query(start_ts).params);
        assert(pair_views(query.headers@) =~= chart_query(start_ts).headers);
        query
    }
}

} // verus!
