use evmobserver::evminst::{as_str, EvmInst, INST_COUNT, VALUES};
use evmobserver::evmtrace::EvmTrace;
use evmobserver::gethrpc::{BlockInfo, TxnInfo};
use evmobserver::instcount::InstCount;

fn sample() -> EvmTrace {
    let mut counter = InstCount::new();
    counter.record(EvmInst::ADD, 3);
    counter.record(EvmInst::ADD, 3);
    counter.record(EvmInst::STOP, 0);
    counter.record(EvmInst::SUICIDE, 5000);
    let txn = TxnInfo {
        block_num: 46147,
        block_index: 3,
        gas_price: 50_000_000_000,
        from: "0xa1e4380a3b1f749673e270229993ee55f35663b4".to_string(),
        to: String::new(),
    };
    let block = BlockInfo { block_num: 46147, time_stamp: 1438918233, gas_limit: 21000 };
    EvmTrace::from_counts(&counter, &txn, &block)
}

fn expected_row() -> String {
    let mut row =
        String::from("1438918233,46147,3,0xa1e4380a3b1f749673e270229993ee55f35663b4,,50000000000,");
    for op in VALUES.iter() {
        match op {
            EvmInst::STOP => row.push_str("1,0,"),
            EvmInst::ADD => row.push_str("2,6,"),
            EvmInst::SUICIDE => row.push_str("1,5000,"),
            _ => row.push_str("0,0,"),
        }
    }
    row.push('\n');
    row
}

#[test]
fn record_from_counter() {
    let record = sample();
    assert_eq!(record.ts, 1438918233);
    assert_eq!(record.block_num, 46147);
    assert_eq!(record.txn_index, 3);
    assert_eq!(record.gas_px, 50_000_000_000);
    assert_eq!(record.addr_to, "");
    assert_eq!(record.count_of(EvmInst::ADD), 2);
    assert_eq!(record.gas_of(EvmInst::ADD), 6);
    assert_eq!(record.count_of(EvmInst::STOP), 1);
    assert_eq!(record.gas_of(EvmInst::STOP), 0);
    assert_eq!(record.count_of(EvmInst::MUL), 0);
    assert_eq!(record.total_gas(), Some(5006));
}

#[test]
fn gas_without_a_count_is_not_in_the_row() {
    let mut counter = InstCount::new();
    counter.add_gas(EvmInst::MUL, 77);
    let txn = TxnInfo { block_num: 1, block_index: 0, gas_price: 1, from: "a".into(), to: "b".into() };
    let block = BlockInfo { block_num: 1, time_stamp: 2, gas_limit: 3 };
    let record = EvmTrace::from_counts(&counter, &txn, &block);
    assert_eq!(record.count_of(EvmInst::MUL), 0);
    assert_eq!(record.gas_of(EvmInst::MUL), 0);
    assert_eq!(record.total_gas(), Some(0));
}

#[test]
fn row_text() {
    assert_eq!(String::from_utf8(sample().to_row()).unwrap(), expected_row());
}

#[test]
fn row_reads_back() {
    let record = sample();
    let row = record.to_row();
    assert_eq!(EvmTrace::parse_row(&row), Some(record.clone()));
    assert_eq!(EvmTrace::parse_row(&row[..row.len() - 1]), Some(record));
}

#[test]
fn all_zero_row_reads_back() {
    let record = EvmTrace {
        ts: 0,
        block_num: 0,
        txn_index: 0,
        addr_from: String::new(),
        addr_to: String::new(),
        gas_px: 0,
        counts: [0; INST_COUNT],
        gas: [0; INST_COUNT],
    };
    assert_eq!(EvmTrace::parse_row(&record.to_row()), Some(record));
}

#[test]
fn largest_numbers_read_back() {
    let record = EvmTrace {
        ts: u64::MAX,
        block_num: u64::MAX,
        txn_index: u32::MAX,
        addr_from: "\u{e9}t\u{e9}".to_string(),
        addr_to: "line\nend".to_string(),
        gas_px: u64::MAX,
        counts: [u64::MAX; INST_COUNT],
        gas: [u64::MAX; INST_COUNT],
    };
    assert_eq!(EvmTrace::parse_row(&record.to_row()), Some(record.clone()));
    assert_eq!(record.total_gas(), None);
}

#[test]
fn an_address_with_a_comma_does_not_read_back() {
    let mut record = sample();
    record.addr_to = "a,b".to_string();
    assert_eq!(EvmTrace::parse_row(&record.to_row()), None);
}

#[test]
fn what_is_no_row() {
    let row = expected_row();
    assert_eq!(EvmTrace::parse_row(b""), None);
    assert_eq!(EvmTrace::parse_row(b"\n"), None);
    assert_eq!(EvmTrace::parse_row(row.replace("1438918233", "ts").as_bytes()), None);
    assert_eq!(EvmTrace::parse_row(row.replace("1438918233", "01438918233").as_bytes()), None);
    assert_eq!(EvmTrace::parse_row(row.replace("1438918233", "+1438918233").as_bytes()), None);
    assert_eq!(EvmTrace::parse_row(row.replace(",46147,3,", ",46147,4294967296,").as_bytes()), None);
    assert_eq!(EvmTrace::parse_row(row.replace("2,6,", "2,6").as_bytes()), None);
    assert_eq!(EvmTrace::parse_row(row.replace("2,6,", "2,6,0,").as_bytes()), None);
    assert_eq!(EvmTrace::parse_row(row.replace(",\n", "\n").as_bytes()), None);
    assert_eq!(EvmTrace::parse_row(row.replace(",\n", ",x\n").as_bytes()), None);
    assert_eq!(EvmTrace::parse_row(row.replace(",\n", ",\n\n").as_bytes()), None);
    assert_eq!(EvmTrace::parse_row(row.replace("1,5000,", "1,18446744073709551616,").as_bytes()), None);
    let mut bad = row.clone().into_bytes();
    bad[27] = 0xff;
    assert_eq!(EvmTrace::parse_row(&bad), None);
}

#[test]
fn leading_timestamp_of_a_line() {
    assert_eq!(EvmTrace::leading_timestamp(expected_row().as_bytes()), Some(1438918233));
    assert_eq!(EvmTrace::leading_timestamp(b"150,rest"), Some(150));
    assert_eq!(EvmTrace::leading_timestamp(b"150"), Some(150));
    assert_eq!(EvmTrace::leading_timestamp(b"+150,"), Some(150));
    assert_eq!(EvmTrace::leading_timestamp(b"ts,block_num"), None);
    assert_eq!(EvmTrace::leading_timestamp(b",150"), None);
    assert_eq!(EvmTrace::leading_timestamp(b""), None);
    assert_eq!(EvmTrace::leading_timestamp(b"15 0,"), None);
}

#[test]
fn names_in_column_order() {
    assert_eq!(as_str(&VALUES[0]), "STOP");
    assert_eq!(as_str(&VALUES[134]), "SUICIDE");
}
