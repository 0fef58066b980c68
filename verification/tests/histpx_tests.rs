use evmobserver::histpx::coinapi::CoinApi;
use evmobserver::histpx::cryptowatch::CryptoWatch;
use evmobserver::histpx::poloniex::Poloniex;
use evmobserver::histpx::Exchange;
use evmobserver::util::decimal_string;

fn pairs(list: &[(&str, &str)]) -> Vec<(String, String)> {
    list.iter().map(|(a, b)| (a.to_string(), b.to_string())).collect()
}

#[test]
fn poloniex_query() {
    let _service = Poloniex::new();
    let query = Poloniex::request(1438922534);
    assert_eq!(query.url, "https://poloniex.com/public");
    assert_eq!(
        query.params,
        pairs(&[
            ("command", "returnChartData"),
            ("currencyPair", "USDT_ETH"),
            ("end", "9999999999"),
            ("period", "300"),
            ("start", "1438922534"),
        ])
    );
    assert!(query.headers.is_empty());
}

#[test]
fn cryptowatch_query() {
    let _service = CryptoWatch::new();
    let query = CryptoWatch::request(1524199386, &Exchange::Kraken);
    assert_eq!(query.url, "https://api.cryptowat.ch/markets/kraken/ethusd/ohlc");
    assert_eq!(query.params, pairs(&[("after", "1524199386"), ("periods", "300")]));
    assert!(query.headers.is_empty());
}

#[test]
fn coinapi_query() {
    let _service = CoinApi::new();
    let query = CoinApi::request(1524199386, &Exchange::Gdax).unwrap();
    assert_eq!(query.url, "https://rest.coinapi.io/v1/ohlcv/GDAX_SPOT_ETH_USD/history");
    assert_eq!(
        query.params,
        pairs(&[
            ("period_id", "5MIN"),
            ("time_start", "2018-04-20T04:43:06+00:00"),
            ("include_empty_items", "false"),
            ("limit", "1000"),
        ])
    );
    assert_eq!(query.headers, pairs(&[("X-CoinAPI-Key", "<your key here>")]));
    assert_eq!(CoinApi::request(0, &Exchange::Gdax).unwrap().params[1].1, "1970-01-01T00:00:00+00:00");
    assert!(CoinApi::request(u64::MAX, &Exchange::Gdax).is_none());
    assert!(CoinApi::request(i64::MAX as u64, &Exchange::Gdax).is_none());
}

#[test]
fn coinapi_period_end() {
    assert_eq!(CoinApi::end_ts("2018-04-20T04:43:06+00:00"), Some(1524199386));
    assert_eq!(CoinApi::end_ts("2018-04-20T04:45:00.0000000Z"), Some(1524199500));
    assert_eq!(CoinApi::end_ts("1970-01-01T01:00:00+01:00"), Some(0));
    assert_eq!(CoinApi::end_ts("1969-12-31T23:59:59Z"), None);
    assert_eq!(CoinApi::end_ts("yesterday"), None);
    assert_eq!(CoinApi::end_ts_of(Some(5)), Some(5));
    assert_eq!(CoinApi::end_ts_of(Some(-5)), None);
    assert_eq!(CoinApi::end_ts_of(None), None);
}

#[test]
fn decimal_strings() {
    assert_eq!(decimal_string(0), "0");
    assert_eq!(decimal_string(1524199386), "1524199386");
    assert_eq!(decimal_string(u64::MAX), "18446744073709551615");
}
