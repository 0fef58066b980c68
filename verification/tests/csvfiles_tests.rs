use evmobserver::csvfiles::{PriceReader, TraceOutFile, LINE_LIMIT};
use evmobserver::error::RunError;
use evmobserver::evminst::{as_str, EvmInst, VALUES};
use evmobserver::evmtrace::EvmTrace;
use evmobserver::gethrpc::{BlockInfo, TxnInfo};
use evmobserver::histpx::{DataSource, Exchange, FxMethod};
use evmobserver::instcount::InstCount;
use evmobserver::prices::Candlestick;

fn expected_header() -> String {
    let mut header = String::from("ts,block_num,txn_index,addr_from,addr_to,gas_px,");
    for op in VALUES.iter() {
        header.push_str(&format!("{}_count,{}_gas,", as_str(op), as_str(op)));
    }
    header.push('\n');
    header
}

fn txn(index: u32) -> TxnInfo {
    TxnInfo { block_num: 5, block_index: index, gas_price: 9, from: "0xf".into(), to: "0xt".into() }
}

#[test]
fn first_file_and_fresh_totals() {
    let (totals, first) = TraceOutFile::new(4_000_000);
    assert_eq!(first.file_name, "counts.4000000.csv");
    assert_eq!(String::from_utf8(first.header).unwrap(), expected_header());
    assert_eq!(
        totals,
        TraceOutFile {
            last_block: 0,
            last_time_stamp: 0,
            total_written: 0,
            total_txns: 0,
            total_inst: 0,
            total_gas: 0,
        }
    );
}

#[test]
fn header_and_names() {
    assert_eq!(String::from_utf8(TraceOutFile::header()).unwrap(), expected_header());
    assert_eq!(TraceOutFile::file_name(0), "counts.0.csv");
    assert_eq!(TraceOutFile::file_name(u64::MAX), "counts.18446744073709551615.csv");
    let file = TraceOutFile::create_outfile(12);
    assert_eq!(file.file_name, "counts.12.csv");
    assert_eq!(file.header, TraceOutFile::header());
    assert_eq!(EvmTrace::parse_row(&file.header), None);
}

#[test]
fn totals_grow_by_the_row() {
    let (mut totals, _) = TraceOutFile::new(5);
    let mut counter = InstCount::new();
    counter.record(EvmInst::ADD, 3);
    counter.record(EvmInst::ADD, 3);
    counter.record(EvmInst::STOP, 0);
    counter.add_gas(EvmInst::MUL, 1000);
    let block = BlockInfo { block_num: 5, time_stamp: 77, gas_limit: 1 };
    let write = totals.write_count(&counter, &txn(0), &block).unwrap();
    assert!(write.rotate_to.is_none());
    assert_eq!(write.row, EvmTrace::from_counts(&counter, &txn(0), &block).to_row());
    assert_eq!(totals.total_txns, 1);
    assert_eq!(totals.total_inst, 3);
    assert_eq!(totals.total_gas, 6);
    assert_eq!(totals.total_written, write.row.len() as u64);
    assert_eq!(totals.last_block, 5);
    assert_eq!(totals.last_time_stamp, 77);
    let second = totals.write_count(&counter, &txn(1), &block).unwrap();
    assert_eq!(totals.total_txns, 2);
    assert_eq!(totals.total_inst, 6);
    assert_eq!(totals.total_gas, 12);
    assert_eq!(totals.total_written, (write.row.len() + second.row.len()) as u64);
}

#[test]
fn rotation_after_the_limit() {
    assert_eq!(LINE_LIMIT, 10_000);
    let (mut totals, first) = TraceOutFile::new(1);
    let mut files: Vec<(String, Vec<Vec<u8>>)> = vec![(first.file_name, vec![first.header])];
    let mut counter = InstCount::new();
    counter.record(EvmInst::PUSH1, 3);
    for i in 0..(LINE_LIMIT + 1) {
        let block = BlockInfo { block_num: 100 + i / 10, time_stamp: i, gas_limit: 0 };
        let write = totals.write_count(&counter, &txn((i % 10) as u32), &block).unwrap();
        files.last_mut().unwrap().1.push(write.row);
        assert_eq!(write.rotate_to.is_some(), i + 1 == LINE_LIMIT);
        if let Some(next) = write.rotate_to {
            files.push((next.file_name, vec![next.header]));
        }
    }
    assert_eq!(files.len(), 2);
    assert_eq!(files[0].0, "counts.1.csv");
    assert_eq!(files[0].1.len() as u64, LINE_LIMIT + 1);
    assert_eq!(files[1].0, "counts.1099.csv");
    assert_eq!(files[1].1.len(), 2);
    assert_eq!(files[1].1[0], TraceOutFile::header());
    assert_eq!(EvmTrace::parse_row(&files[1].1[1]).unwrap().ts, LINE_LIMIT);
    assert_eq!(totals.total_txns, LINE_LIMIT + 1);
    assert_eq!(totals.total_inst, LINE_LIMIT + 1);
    assert_eq!(totals.total_gas, 3 * (LINE_LIMIT + 1));
}

#[test]
fn totals_that_do_not_fit_change_nothing() {
    let (mut totals, _) = TraceOutFile::new(1);
    let mut counter = InstCount::new();
    counter.record(EvmInst::ADD, u64::MAX);
    let block = BlockInfo { block_num: 1, time_stamp: 1, gas_limit: 1 };
    assert!(totals.write_count(&counter, &txn(0), &block).is_ok());
    let before = totals;
    let mut one = InstCount::new();
    one.record(EvmInst::ADD, 1);
    assert_eq!(totals.write_count(&one, &txn(1), &block), Err(RunError::Overflow));
    assert_eq!(totals, before);
}

fn candle(end_ts: u64, mid: f64) -> Candlestick<f64> {
    Candlestick {
        market: Exchange::Gdax,
        source: DataSource::Coinapi,
        fx_method: FxMethod::EthUsd,
        end_ts,
        quote: mid,
    }
}

#[test]
fn rows_join_to_the_next_price() {
    let reader = PriceReader::new(vec![candle(100, 1.0), candle(200, 2.0), candle(300, 3.0), candle(200, 9.0)]);
    assert_eq!(reader.len(), 3);
    assert_eq!(reader.join(b"150,1,0,a,b,1,").unwrap().quote, 2.0);
    assert_eq!(reader.join(b"300,1,0,a,b,1,").unwrap().quote, 3.0);
    assert_eq!(reader.join(b"301,1,0,a,b,1,").err(), Some(RunError::JoinMiss));
    assert_eq!(reader.join(b"ts,block_num,").err(), Some(RunError::BadRow));
    let lines = vec![
        b"ts,block_num,".to_vec(),
        b"99,".to_vec(),
        b"1000,".to_vec(),
        b"200,".to_vec(),
    ];
    let found = reader.process(&lines);
    assert_eq!(found.len(), 4);
    assert_eq!(found[0].as_ref().err(), Some(&RunError::BadRow));
    assert_eq!(found[1].as_ref().unwrap().end_ts, 100);
    assert_eq!(found[2].as_ref().err(), Some(&RunError::JoinMiss));
    assert_eq!(found[3].as_ref().unwrap().quote, 2.0);
}
