use evmobserver::histpx::{DataSource, Exchange, FxMethod};
use evmobserver::prices::{BestPrice, Candlestick};

#[derive(Debug, Clone, Copy, PartialEq)]
struct Quote {
    open: f64,
    high: f64,
    low: f64,
    close: f64,
    volume: Option<f64>,
}

fn candle(end_ts: u64, close: f64) -> Candlestick<Quote> {
    Candlestick {
        market: Exchange::Poloniex,
        source: DataSource::Poloniex,
        fx_method: FxMethod::EthUsdt,
        end_ts,
        quote: Quote { open: 1.0, high: 3.0, low: 1.0, close, volume: None },
    }
}

#[test]
fn empty_series_finds_nothing() {
    let series: BestPrice<Quote> = BestPrice::new();
    assert_eq!(series.len(), 0);
    assert!(series.nearest_record(0).is_none());
    assert!(series.nearest_record(u64::MAX).is_none());
}

#[test]
fn nearest_looks_forward() {
    let mut series = BestPrice::new();
    series.load(vec![candle(100, 1.0), candle(200, 2.0), candle(300, 3.0)]);
    assert_eq!(series.nearest_record(150).unwrap().end_ts, 200);
    assert_eq!(series.nearest_record(300).unwrap().end_ts, 300);
    assert!(series.nearest_record(301).is_none());
    assert_eq!(series.nearest_record(0).unwrap().end_ts, 100);
    assert_eq!(series.nearest_record(100).unwrap().end_ts, 100);
    assert_eq!(series.nearest_record(101).unwrap().end_ts, 200);
    assert_eq!(series.nearest_record(299).unwrap().end_ts, 300);
}

#[test]
fn first_seen_wins() {
    let mut series = BestPrice::new();
    series.load(vec![candle(100, 1.5), candle(100, 9.5)]);
    assert_eq!(series.len(), 1);
    assert_eq!(series.nearest_record(100).unwrap().quote.close, 1.5);
    assert!(!series.insert(candle(100, 7.0)));
    assert_eq!(series.len(), 1);
    assert_eq!(series.nearest_record(50).unwrap().quote.close, 1.5);
}

#[test]
fn load_order_does_not_matter_for_the_search() {
    let mut series = BestPrice::new();
    series.load(vec![candle(300, 3.0), candle(100, 1.0), candle(200, 2.0), candle(100, 8.0)]);
    assert_eq!(series.len(), 3);
    assert_eq!(series.nearest_record(1).unwrap().quote.close, 1.0);
    assert_eq!(series.nearest_record(101).unwrap().quote.close, 2.0);
    assert_eq!(series.nearest_record(201).unwrap().quote.close, 3.0);
    assert!(series.insert(candle(250, 2.5)));
    assert_eq!(series.nearest_record(201).unwrap().quote.close, 2.5);
    assert_eq!(series.len(), 4);
}

#[test]
fn names_of_markets_and_sources() {
    assert_eq!(Exchange::Kraken.as_str(), "kraken");
    assert_eq!(Exchange::Bitfinex.as_str(), "bitfinex");
    assert_eq!(Exchange::Gdax.as_capitals(), "GDAX");
    assert_eq!(DataSource::Cryptowatch.as_str(), "cryptowatch");
    assert_eq!(DataSource::Coinapi.as_str(), "coinapi");
    assert_eq!(FxMethod::EthUsd.as_str(), "ETH_USD");
    assert_eq!(FxMethod::EthUsdt.as_str(), "ETH_USDT");
    assert_eq!(FxMethod::EthBtcUsd.as_str(), "ETH_BTC_USD");
    assert_eq!(evmobserver::histpx::EXCHANGES.len(), 9);
    for market in evmobserver::histpx::EXCHANGES.iter() {
        assert_eq!(market.as_str().to_ascii_uppercase(), market.as_capitals());
    }
}
