use evmobserver::evminst::{as_str, EvmInst, INST_COUNT, VALUES};

#[test]
fn names_read_back() {
    for op in VALUES.iter() {
        assert_eq!(EvmInst::from_str(as_str(op)), *op);
        assert_eq!(EvmInst::parse(as_str(op)), Some(*op));
    }
}

#[test]
fn known_names() {
    assert_eq!(EvmInst::from_str("STOP"), EvmInst::STOP);
    assert_eq!(EvmInst::from_str("ADD"), EvmInst::ADD);
    assert_eq!(EvmInst::from_str("SLOAD"), EvmInst::SLOAD);
    assert_eq!(EvmInst::from_str("SUICIDE"), EvmInst::SUICIDE);
    assert_eq!(EvmInst::from_opt_str(Some("PUSH32")), EvmInst::PUSH32);
    assert_eq!(as_str(&EvmInst::DELEGATECALL), "DELEGATECALL");
}

#[test]
fn unknown_names_are_refused() {
    assert_eq!(EvmInst::parse("add"), None);
    assert_eq!(EvmInst::parse(""), None);
    assert_eq!(EvmInst::parse("ADD "), None);
    assert_eq!(EvmInst::parse("INVALID"), None);
    assert_eq!(EvmInst::parse("PUSH33"), None);
}

#[test]
fn opcode_bytes() {
    assert_eq!(EvmInst::STOP.code(), 0x00);
    assert_eq!(EvmInst::ADD.code(), 0x01);
    assert_eq!(EvmInst::SHA3.code(), 0x20);
    assert_eq!(EvmInst::SLOAD.code(), 0x54);
    assert_eq!(EvmInst::STATICCALL.code(), 0xfa);
    assert_eq!(EvmInst::CREATE2.code(), 0xfb);
    assert_eq!(EvmInst::REVERT.code(), 0xfd);
    assert_eq!(EvmInst::SUICIDE.code(), 0xff);
}

#[test]
fn opcode_bytes_are_distinct_and_order_the_instructions() {
    for a in VALUES.iter() {
        for b in VALUES.iter() {
            assert_eq!(a.code() == b.code(), a == b);
            assert_eq!(a < b, a.code() < b.code());
        }
    }
}

#[test]
fn column_order() {
    assert_eq!(INST_COUNT, 135);
    assert_eq!(VALUES.len(), 135);
    assert_eq!(VALUES[0], EvmInst::STOP);
    assert_eq!(VALUES[1], EvmInst::ADD);
    assert_eq!(VALUES[49], EvmInst::SLOAD);
    assert_eq!(VALUES[131], EvmInst::CREATE2);
    assert_eq!(VALUES[132], EvmInst::REVERT);
    assert_eq!(VALUES[133], EvmInst::STATICCALL);
    assert_eq!(VALUES[134], EvmInst::SUICIDE);
    for (i, op) in VALUES.iter().enumerate() {
        assert_eq!(op.ordinal(), i);
    }
}
