use evmobserver::error::RunError;
use evmobserver::gethrpc::{quantity_of, BlockInfo, GethRpc, ReadEvent, TxnInfo};
use evmobserver::jsonval::fractions_are_short;

fn answered(payload: &[u8]) -> GethRpc {
    let mut rpc = GethRpc::new();
    assert_eq!(rpc.consume_response(ReadEvent::Data(payload)), Ok(true));
    rpc
}

#[test]
fn request_texts() {
    assert_eq!(
        GethRpc::block_number(),
        br#"{"jsonrpc":"2.0","method":"eth_blockNumber","params":[],"id":1}"#.to_vec()
    );
    assert_eq!(
        GethRpc::get_block(255),
        br#"{"jsonrpc":"2.0","method":"eth_getBlockByNumber","params":["0xff",false],"id":1}"#
            .to_vec()
    );
    assert_eq!(
        GethRpc::txn_by_block_idx(4096, 0),
        br#"{"jsonrpc":"2.0","method":"eth_getTransactionByBlockNumberAndIndex","params":["0x1000","0x0"],"id":1}"#
            .to_vec()
    );
    assert_eq!(
        GethRpc::trace_block_request(0),
        br#"{"jsonrpc":"2.0","method":"debug_traceBlockByNumber","params":["0x0",{"disableStorage":true,"disableStack":true,"disableMemory":true}],"id":1}"#
            .to_vec()
    );
}

#[test]
fn answer_is_whole_at_the_line_end() {
    let mut rpc = GethRpc::new();
    assert_eq!(rpc.consume_response(ReadEvent::Data(b"{\"result\":")), Ok(false));
    assert_eq!(rpc.consume_response(ReadEvent::TimedOut), Ok(false));
    assert_eq!(rpc.consume_response(ReadEvent::Data(b"\"0x10\"")), Ok(false));
    assert_eq!(rpc.consume_response(ReadEvent::Data(b"}\n")), Ok(true));
    assert_eq!(rpc.response(), b"{\"result\":\"0x10\"}\n");
    assert_eq!(rpc.get_latest_block(), Some(16));
    rpc.begin_response();
    assert_eq!(rpc.response(), b"");
}

#[test]
fn a_line_end_inside_a_read_does_not_end_the_answer() {
    let mut rpc = GethRpc::new();
    assert_eq!(rpc.consume_response(ReadEvent::Data(b"{\n\"result\"")), Ok(false));
    assert_eq!(rpc.consume_response(ReadEvent::Data(b":\"0x2\"}\n")), Ok(true));
    assert_eq!(rpc.get_latest_block(), Some(2));
}

#[test]
fn closed_stream_and_failed_read() {
    let mut rpc = GethRpc::new();
    assert_eq!(rpc.consume_response(ReadEvent::Data(b"{")), Ok(false));
    assert_eq!(rpc.consume_response(ReadEvent::Data(b"")), Err(RunError::ConnectionClosed));
    assert_eq!(rpc.consume_response(ReadEvent::Failed), Err(RunError::IoError));
    assert_eq!(rpc.response(), b"{");
}

#[test]
fn latest_block() {
    assert_eq!(answered(b"{\"jsonrpc\":\"2.0\",\"id\":1,\"result\":\"0x4b7\"}\n").get_latest_block(), Some(1207));
    assert_eq!(answered(b"{\"result\":1207}\n").get_latest_block(), None);
    assert_eq!(answered(b"{\"result\":null}\n").get_latest_block(), None);
    assert_eq!(answered(b"{\"error\":\"x\"}\n").get_latest_block(), None);
    assert_eq!(answered(b"not json\n").get_latest_block(), None);
    assert_eq!(answered(b"\xff\xfe\n").get_latest_block(), None);
}

#[test]
fn block_info_with_defaults() {
    let rpc = answered(b"{\"result\":{\"timestamp\":\"0x5a\",\"gas_limit\":\"0x2fefd8\"}}\n");
    assert_eq!(
        rpc.block_info(9),
        Ok(BlockInfo { block_num: 9, time_stamp: 90, gas_limit: 3141592 })
    );
    let rpc = answered(b"{\"result\":{\"timestamp\":\"0x5a\",\"gasLimit\":\"0x2fefd8\"}}\n");
    assert_eq!(rpc.block_info(9), Ok(BlockInfo { block_num: 9, time_stamp: 90, gas_limit: 0 }));
    let rpc = answered(b"{\"result\":null}\n");
    assert_eq!(rpc.block_info(3), Ok(BlockInfo { block_num: 3, time_stamp: 0, gas_limit: 0 }));
    let rpc = answered(b"{\"result\":{\"timestamp\":\"soon\"}}\n");
    assert_eq!(rpc.block_info(3), Ok(BlockInfo { block_num: 3, time_stamp: 0, gas_limit: 0 }));
}

#[test]
fn txn_info_with_defaults() {
    let rpc = answered(
        b"{\"result\":{\"from\":\"0xabc\",\"to\":\"0xdef\",\"gasPrice\":\"0x3b9aca00\"}}\n",
    );
    assert_eq!(
        rpc.txn_info(7, 2),
        Ok(TxnInfo {
            block_num: 7,
            block_index: 2,
            gas_price: 1_000_000_000,
            from: "0xabc".to_string(),
            to: "0xdef".to_string(),
        })
    );
    let rpc = answered(b"{\"result\":{\"from\":\"0xabc\",\"to\":null}}\n");
    assert_eq!(
        rpc.txn_info(7, 0),
        Ok(TxnInfo {
            block_num: 7,
            block_index: 0,
            gas_price: 0,
            from: "0xabc".to_string(),
            to: String::new(),
        })
    );
}

#[test]
fn malformed_answers_carry_the_raw_bytes() {
    let raw = b"{\"result\": \n".to_vec();
    let rpc = answered(&raw);
    assert_eq!(rpc.block_info(1), Err(RunError::ParseError(raw.clone())));
    assert_eq!(rpc.txn_info(1, 0), Err(RunError::ParseError(raw.clone())));
    assert_eq!(rpc.trace_block().err(), Some(RunError::ParseError(raw.clone())));
    assert_eq!(rpc.parse_response().err(), Some(RunError::ParseError(raw)));
    let rpc = answered(b"\xc3\x28\n");
    assert_eq!(rpc.parse_response().err(), Some(RunError::ParseError(b"\xc3\x28\n".to_vec())));
}

#[test]
fn trace_block_gives_the_document() {
    let rpc = answered(b"{\"result\":[{\"result\":{\"structLogs\":[]}}]}\n");
    let doc = rpc.trace_block().unwrap();
    assert_eq!(doc["result"].len(), 1);
    assert!(doc["result"][0]["result"]["structLogs"].is_empty());
}

#[test]
fn fields_on_their_own() {
    assert_eq!(quantity_of(Some("0x10")), Some(16));
    assert_eq!(quantity_of(Some("16")), None);
    assert_eq!(quantity_of(None), None);
    assert_eq!(
        BlockInfo::from_fields(4, Some("0x1"), None),
        BlockInfo { block_num: 4, time_stamp: 1, gas_limit: 0 }
    );
    assert_eq!(
        TxnInfo::from_fields(4, 1, None, Some("0x9"), Some("0x2")),
        TxnInfo { block_num: 4, block_index: 1, gas_price: 2, from: String::new(), to: "0x9".to_string() }
    );
}

#[test]
fn recoverable_failures() {
    assert!(RunError::JoinMiss.is_recoverable());
    assert!(RunError::BadRow.is_recoverable());
    assert!(!RunError::IoError.is_recoverable());
    assert!(!RunError::ConnectionClosed.is_recoverable());
    assert!(!RunError::ParseError(Vec::new()).is_recoverable());
    assert!(!RunError::MissingFieldError("op".to_string()).is_recoverable());
    assert!(!RunError::NoUpstreamBlock.is_recoverable());
    assert!(!RunError::Overflow.is_recoverable());
    assert!(!RunError::WriteError.is_recoverable());
    assert!(!RunError::ConnectionError.is_recoverable());
    assert!(!RunError::UnknownInstruction("X".to_string()).is_recoverable());
}

fn zero_with_fraction(digits: usize) -> Vec<u8> {
    let mut raw = b"{\"result\":0.".to_vec();
    raw.extend(std::iter::repeat(b'0').take(digits));
    raw.extend_from_slice(b"}\n");
    raw
}

#[test]
fn fractions_up_to_the_limit_are_read() {
    let rpc = answered(&zero_with_fraction(32767));
    let doc = rpc.parse_response().unwrap();
    assert!(doc["result"].is_number());
    assert_eq!(rpc.get_latest_block(), None);
    assert!(rpc.block_info(1).is_ok());
    let rpc = answered(&zero_with_fraction(1));
    assert!(rpc.parse_response().is_ok());
}

#[test]
fn longer_fractions_are_not_handed_to_the_parser() {
    for digits in [32768usize, 32769, 40000, 100000] {
        let raw = zero_with_fraction(digits);
        let rpc = answered(&raw);
        assert_eq!(rpc.parse_response().err(), Some(RunError::ParseError(raw.clone())));
        assert_eq!(rpc.block_info(1), Err(RunError::ParseError(raw.clone())));
        assert_eq!(rpc.txn_info(1, 0), Err(RunError::ParseError(raw.clone())));
        assert_eq!(rpc.trace_block().err(), Some(RunError::ParseError(raw)));
        assert_eq!(rpc.get_latest_block(), None);
    }
    let mut raw = b"{\"result\":\"v1.".to_vec();
    raw.extend(std::iter::repeat(b'7').take(32768));
    raw.extend_from_slice(b"\"}\n");
    assert_eq!(answered(&raw).parse_response().err(), Some(RunError::ParseError(raw)));
}

#[test]
fn long_runs_of_digits_without_a_point_are_read() {
    let mut raw = b"{\"result\":\"0x".to_vec();
    raw.extend(std::iter::repeat(b'0').take(70000));
    raw.extend_from_slice(b"1f\"}\n");
    assert_eq!(answered(&raw).get_latest_block(), Some(31));
    let mut raw = b"{\"result\":1".to_vec();
    raw.extend(std::iter::repeat(b'0').take(200));
    raw.extend_from_slice(b"}\n");
    assert!(answered(&raw).parse_response().is_ok());
}

#[test]
fn the_guard_on_fractions() {
    assert!(fractions_are_short(b""));
    assert!(fractions_are_short(b"1.5e10, 2.25"));
    let mut text = b"x.".to_vec();
    text.extend(std::iter::repeat(b'9').take(32767));
    assert!(fractions_are_short(&text));
    text.push(b'a');
    text.extend(std::iter::repeat(b'9').take(40000));
    assert!(fractions_are_short(&text));
    text.push(b'.');
    text.extend(std::iter::repeat(b'0').take(32768));
    assert!(!fractions_are_short(&text));
}
