use evmobserver::evminst::{EvmInst, VALUES};
use evmobserver::instcount::InstCount;

#[test]
fn new_counter_is_empty() {
    let c = InstCount::new();
    for op in VALUES.iter() {
        assert_eq!(c.get_count(*op), 0);
        assert_eq!(c.get_gas(*op), 0);
    }
    assert_eq!(c.get_gas_total(), 0);
}

#[test]
fn records_sum_up_per_instruction() {
    let mut c = InstCount::new();
    let costs = [3u64, 5, 0, 11, 200];
    for g in costs.iter() {
        c.record(EvmInst::ADD, *g);
    }
    c.record(EvmInst::MUL, 7);
    assert_eq!(c.get_count(EvmInst::ADD), 5);
    assert_eq!(c.get_gas(EvmInst::ADD), 219);
    assert_eq!(c.get_count(EvmInst::MUL), 1);
    assert_eq!(c.get_gas(EvmInst::MUL), 7);
    assert_eq!(c.get_count(EvmInst::SUB), 0);
    assert_eq!(c.get_gas(EvmInst::SUB), 0);
    assert_eq!(c.get_gas_total(), 226);
}

#[test]
fn clear_resets_everything() {
    let mut c = InstCount::new();
    c.record(EvmInst::SLOAD, 200);
    c.inc_count(EvmInst::STOP);
    c.add_gas(EvmInst::STOP, 9);
    c.clear();
    for op in VALUES.iter() {
        assert_eq!(c.get_count(*op), 0);
        assert_eq!(c.get_gas(*op), 0);
    }
    assert_eq!(c.get_gas_total(), 0);
    c.record(EvmInst::SLOAD, 1);
    assert_eq!(c.get_count(EvmInst::SLOAD), 1);
    assert_eq!(c.get_gas_total(), 1);
}

#[test]
fn count_and_gas_are_kept_apart() {
    let mut c = InstCount::new();
    c.inc_count(EvmInst::JUMP);
    c.inc_count(EvmInst::JUMP);
    assert_eq!(c.get_count(EvmInst::JUMP), 2);
    assert_eq!(c.get_gas(EvmInst::JUMP), 0);
    c.add_gas(EvmInst::JUMPI, 10);
    assert_eq!(c.get_count(EvmInst::JUMPI), 0);
    assert_eq!(c.get_gas(EvmInst::JUMPI), 10);
    assert_eq!(c.get_gas_total(), 10);
}

#[test]
fn can_record_sees_the_limits() {
    let mut c = InstCount::new();
    assert!(c.can_record(EvmInst::ADD, u64::MAX));
    c.record(EvmInst::ADD, u64::MAX);
    assert!(!c.can_record(EvmInst::ADD, 1));
    assert!(!c.can_record(EvmInst::MUL, 1));
    assert!(c.can_record(EvmInst::MUL, 0));
    assert_eq!(c.get_gas_total(), u64::MAX);
}

#[test]
fn counts_in_words() {
    let mut c = InstCount::new();
    assert_eq!(c.pretty_counts(), "");
    c.record(EvmInst::SLOAD, 200);
    c.record(EvmInst::ADD, 3);
    c.record(EvmInst::ADD, 3);
    c.record(EvmInst::STOP, 0);
    c.add_gas(EvmInst::MUL, 5);
    assert_eq!(c.pretty_counts(), "STOP:1(0), ADD:2(6), SLOAD:1(200), ");
}

#[test]
fn total_is_the_sum_of_the_gas() {
    let mut c = InstCount::new();
    c.record(EvmInst::ADD, 3);
    c.add_gas(EvmInst::MUL, 40);
    c.record(EvmInst::SLOAD, 200);
    c.inc_count(EvmInst::STOP);
    c.add_gas(EvmInst::ADD, u64::MAX - 243);
    let sum: u64 = VALUES.iter().map(|op| c.get_gas(*op)).sum();
    assert_eq!(sum, u64::MAX);
    assert_eq!(c.get_gas_total(), u64::MAX);
    for op in VALUES.iter() {
        assert!(c.get_gas(*op) <= c.get_gas_total());
    }
}
