//! Prices from CoinAPI. The service speaks of moments in RFC 3339, which
//! the `chrono` crate writes and reads.

use crate::histpx::{pair, pair_views, Exchange, PriceQuery, PriceQueryView};
use vstd::prelude::*;
use vstd::string::*;

verus! {

/// The CoinAPI service.
#[derive(Debug, Clone, Copy)]
pub struct CoinApi {}

/// The moment `secs` seconds after the start of 1970, in UTC, as `chrono`
/// writes it in RFC 3339; nothing where `chrono` has no such date.
pub uninterp spec fn rfc3339_text(secs: i64) -> Option<Seq<char>>;

/// The seconds since the start of 1970 of the moment that an RFC 3339
/// text names, as `chrono` reads it; nothing for any other text.
pub uninterp spec fn rfc3339_seconds(text: Seq<char>) -> Option<i64>;

/// `chrono::DateTime::from_timestamp` with no nanoseconds, then
/// `DateTime::to_rfc3339` on the date it gives: the moment as text, and
/// nothing where the first of the two gives no date. The same number
/// always gives the same text.
#[verifier::external_body]
fn rfc3339_utc(secs: i64) -> (text: Option<String>)
    ensures
        text.is_some() == rfc3339_text(secs).is_some(),
        text matches Some(t) ==> rfc3339_text(secs) == Some(t@),
{
    match chrono::DateTime::from_timestamp(secs, 0) {
        Some(moment) => Some(moment.to_rfc3339()),
        None => None,
    }
}

/// `chrono::DateTime::parse_from_rfc3339`, then `DateTime::timestamp` on
/// the date it gives: the seconds of the moment, and nothing where the
/// text does not parse. The same text always gives the same number.
#[verifier::external_body]
fn seconds_of_rfc3339(text: &str) -> (secs: Option<i64>)
    ensures
        secs == rfc3339_seconds(text@),
{
    match chrono::DateTime::parse_from_rfc3339(text) {
        Ok(moment) => Some(moment.timestamp()),
        Err(_) => None,
    }
}

/// The query for candles of five minutes of a market from a moment on,
/// the moment given as text.
pub open spec fn history_query(time_start: Seq<char>, market: Exchange) -> PriceQueryView {
    PriceQueryView {
        url: "https://rest.coinapi.io/v1/ohlcv/"@ + market.capital_name()
            + "_SPOT_ETH_USD/history"@,
        params: seq![
            ("period_id"@, "5MIN"@),
            ("time_start"@, time_start),
            ("include_empty_items"@, "false"@),
            ("limit"@, "1000"@),
        ],
        headers: seq![("X-CoinAPI-Key"@, "<your key here>"@)],
    }
}

/// The end of a candle's period as the series keeps it: the seconds of
/// the moment, where there is a moment and it is not before 1970.
pub open spec fn period_end(secs: Option<i64>) -> Option<u64> {
    match secs {
        Some(s) => if s >= 0 {
            Some(s as u64)
        } else {
            None
        },
        None => None,
    }
}

impl CoinApi {
    pub fn new() -> (service: Self) {
        CoinApi {  }
    }

    /// What to ask for the candles of five minutes of `market` from the
    /// moment `time_start` on.
    pub fn request_from(time_start: &str, market: &Exchange) -> (query: PriceQuery)
        ensures
            query@ == history_query(time_start@, *market),
    {
        let mut url = "https://rest.coinapi.io/v1/ohlcv/".to_owned();
        url.append(market.as_capitals());
        url.append("_SPOT_ETH_USD/history");
        let mut params: Vec<(String, String)> = Vec::new();
        params.push(pair("period_id", "5MIN"));
        params.push(pair("time_start", time_start));
        params.push(pair("include_empty_items", "false"));
        params.push(pair("limit", "1000"));
        let mut headers: Vec<(String, String)> = Vec::new();
        headers.push(pair("X-CoinAPI-Key", "<your key here>"));
        let query = PriceQuery { url, params, headers };
        assert(pair_views(query.params@) =~= history_query(time_start@, *market).params);
        assert(pair_views(query.headers@) =~= history_query(time_start@, *market).headers);
        query
    }

    /// What to ask for the candles of five minutes of `market` from
    /// `start_ts` on; nothing where `start_ts` is beyond the dates that can
    /// be written.
    pub fn request(start_ts: u64, market: &Exchange) -> (query: Option<PriceQuery>)
        ensures
            match query {
                Some(q) => {
                    &&& start_ts <= i64::MAX
                    &&& rfc3339_text(start_ts as i64) matches Some(t)
                    &&& q@ == history_query(t, *market)
                },
                None => start_ts > i64::MAX || rfc3339_text(start_ts as i64) is None,
            },
    {
        if start_ts > i64::MAX as u64 {
            return None;
        }
        match rfc3339_utc(start_ts as i64) {
            Some(time_start) => Some(Self::request_from(time_start.as_str(), market)),
            None => None,
        }
    }

    /// The end of a candle's period, from the seconds of its moment.
    pub fn end_ts_of(secs: Option<i64>) -> (end_ts: Option<u64>)
        ensures
            end_ts == period_end(secs),
    {
        match secs {
            Some(s) => if s >= 0 {
                Some(s as u64)
            } else {
                None
            },
            None => None,
        }
    }

    /// The end of a candle's period, from the text that the service gives
    /// for it.
    pub fn end_ts(time_period_end: &str) -> (end_ts: Option<u64>)
        ensures
            end_ts == period_end(rfc3339_seconds(time_period_end@)),
    {
        Self::end_ts_of(seconds_of_rfc3339(time_period_end))
    }
}

} // verus!
