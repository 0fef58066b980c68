use evmobserver::csvfiles::CountWrite;
use evmobserver::error::RunError;
use evmobserver::evmextract::{count_instructions, struct_logs, Action, EvmExtract, TraceStep, Turn};
use evmobserver::evminst::{EvmInst, VALUES};
use evmobserver::evmtrace::EvmTrace;
use evmobserver::gethrpc::{GethRpc, ReadEvent};
use evmobserver::instcount::InstCount;

const TWO_TXNS: &str = "{\"jsonrpc\":\"2.0\",\"id\":1,\"result\":[\
    {\"result\":{\"gas\":21006,\"structLogs\":[\
        {\"pc\":0,\"op\":\"ADD\",\"gas\":100,\"gasCost\":3,\"depth\":1},\
        {\"pc\":1,\"op\":\"ADD\",\"gas\":97,\"gasCost\":3,\"depth\":1},\
        {\"pc\":2,\"op\":\"STOP\",\"gas\":94,\"gasCost\":0,\"depth\":1}]}},\
    {\"result\":{\"gas\":21200,\"structLogs\":[\
        {\"pc\":0,\"op\":\"SLOAD\",\"gas\":300,\"gasCost\":200,\"depth\":1}]}}]}\n";

fn step(op: Option<&str>, gas_cost: Option<u64>) -> TraceStep {
    TraceStep { op: op.map(|s| s.to_string()), gas_cost }
}

fn has(request: &[u8], what: &str) -> bool {
    String::from_utf8_lossy(request).contains(what)
}

fn node(request: &[u8], traces: &dyn Fn(&[u8]) -> String) -> Vec<u8> {
    if has(request, "eth_blockNumber") {
        b"{\"result\":\"0x8\"}\n".to_vec()
    } else if has(request, "eth_getBlockByNumber") {
        if has(request, "[\"0x7\"") {
            b"{\"result\":{\"timestamp\":\"0x64\",\"gas_limit\":\"0x5208\"}}\n".to_vec()
        } else {
            b"{\"result\":{\"timestamp\":\"0xc8\"}}\n".to_vec()
        }
    } else if has(request, "debug_traceBlockByNumber") {
        traces(request).into_bytes()
    } else if has(request, "[\"0x7\",\"0x0\"]") {
        b"{\"result\":{\"from\":\"0xaa\",\"to\":\"0xbb\",\"gasPrice\":\"0x2\"}}\n".to_vec()
    } else {
        b"{\"result\":{\"from\":\"0xcc\",\"to\":null,\"gasPrice\":\"0x3\"}}\n".to_vec()
    }
}

fn drive(
    collector: &mut EvmExtract,
    first: Action,
    traces: &dyn Fn(&[u8]) -> String,
) -> Result<(Vec<CountWrite>, Vec<Vec<u8>>), RunError> {
    let mut writes = Vec::new();
    let mut requests = Vec::new();
    let mut action = first;
    loop {
        let request = match action {
            Action::Send(request) => request,
            Action::Read => panic!("nothing was sent"),
            Action::Done => return Ok((writes, requests)),
        };
        let answer = node(&request, traces);
        requests.push(request);
        let mut turn = collector.handle(ReadEvent::TimedOut)?;
        assert_eq!(turn, Turn { write: None, action: Action::Read });
        for chunk in answer.chunks(7) {
            turn = collector.handle(ReadEvent::Data(chunk))?;
        }
        if let Some(write) = turn.write {
            writes.push(write);
        }
        action = turn.action;
        assert!(action != Action::Read);
    }
}

fn two_then_none(request: &[u8]) -> String {
    if has(request, "[\"0x7\"") {
        TWO_TXNS.to_string()
    } else {
        "{\"result\":[]}\n".to_string()
    }
}

#[test]
fn steps_are_read_from_the_log() {
    let doc = json::parse(TWO_TXNS).unwrap();
    let steps = struct_logs(&doc["result"][0]["result"]["structLogs"]);
    assert_eq!(
        steps,
        vec![step(Some("ADD"), Some(3)), step(Some("ADD"), Some(3)), step(Some("STOP"), Some(0))]
    );
    let doc = json::parse("[{\"op\":7,\"gasCost\":\"3\"},{},{\"op\":\"X\",\"gasCost\":1.5},{\"gasCost\":-1}]").unwrap();
    assert_eq!(
        struct_logs(&doc),
        vec![step(None, None), step(None, None), step(Some("X"), None), step(None, None)]
    );
    assert!(struct_logs(&json::parse("{\"op\":\"ADD\"}").unwrap()).is_empty());
    assert!(struct_logs(&json::parse("null").unwrap()).is_empty());
}

#[test]
fn counting_steps() {
    let mut txn = InstCount::new();
    let mut total = InstCount::new();
    total.record(EvmInst::ADD, 10);
    let steps = vec![step(Some("ADD"), Some(3)), step(Some("ADD"), Some(3)), step(Some("STOP"), Some(0))];
    assert_eq!(count_instructions(&steps, &mut txn, &mut total), Ok(()));
    assert_eq!(txn.get_count(EvmInst::ADD), 2);
    assert_eq!(txn.get_gas(EvmInst::ADD), 6);
    assert_eq!(txn.get_count(EvmInst::STOP), 1);
    assert_eq!(txn.get_gas_total(), 6);
    assert_eq!(total.get_count(EvmInst::ADD), 3);
    assert_eq!(total.get_gas(EvmInst::ADD), 16);
    assert_eq!(total.get_gas_total(), 16);
}

#[test]
fn counting_stops_at_the_first_bad_step() {
    let cases: Vec<(TraceStep, RunError)> = vec![
        (step(None, Some(1)), RunError::MissingFieldError("op".to_string())),
        (step(None, None), RunError::MissingFieldError("op".to_string())),
        (step(Some("NOP"), Some(1)), RunError::UnknownInstruction("NOP".to_string())),
        (step(Some("NOP"), None), RunError::UnknownInstruction("NOP".to_string())),
        (step(Some("MUL"), None), RunError::MissingFieldError("gasCost".to_string())),
        (step(Some("MUL"), Some(u64::MAX)), RunError::Overflow),
    ];
    for (bad, failure) in cases {
        let mut txn = InstCount::new();
        let mut total = InstCount::new();
        let steps = vec![step(Some("ADD"), Some(3)), bad, step(Some("SUB"), Some(5))];
        assert_eq!(count_instructions(&steps, &mut txn, &mut total), Err(failure));
        assert_eq!(txn.get_count(EvmInst::ADD), 1);
        assert_eq!(txn.get_count(EvmInst::MUL), 0);
        assert_eq!(txn.get_count(EvmInst::SUB), 0);
        assert_eq!(txn.get_gas_total(), 3);
        assert_eq!(total.get_gas_total(), 3);
    }
}

#[test]
fn one_block_with_two_transactions() {
    let (mut collector, first) = EvmExtract::new(7);
    assert_eq!(first.file_name, "counts.7.csv");
    assert!(collector.is_idle());
    let start = collector.catchup(8);
    let (writes, requests) = drive(&mut collector, start, &two_then_none).unwrap();
    assert_eq!(writes.len(), 2);
    let first = EvmTrace::parse_row(&writes[0].row).unwrap();
    let second = EvmTrace::parse_row(&writes[1].row).unwrap();
    assert_eq!((first.ts, first.block_num, first.txn_index, first.gas_px), (100, 7, 0, 2));
    assert_eq!((first.addr_from.as_str(), first.addr_to.as_str()), ("0xaa", "0xbb"));
    assert_eq!((second.ts, second.block_num, second.txn_index, second.gas_px), (100, 7, 1, 3));
    assert_eq!((second.addr_from.as_str(), second.addr_to.as_str()), ("0xcc", ""));
    for op in VALUES.iter() {
        let (count, gas) = match op {
            EvmInst::ADD => (2, 6),
            EvmInst::STOP => (1, 0),
            _ => (0, 0),
        };
        assert_eq!((first.count_of(*op), first.gas_of(*op)), (count, gas));
        let (count, gas) = match op {
            EvmInst::SLOAD => (1, 200),
            _ => (0, 0),
        };
        assert_eq!((second.count_of(*op), second.gas_of(*op)), (count, gas));
    }
    assert!(writes[0].rotate_to.is_none() && writes[1].rotate_to.is_none());
    assert_eq!(collector.out_file().total_gas, 206);
    assert_eq!(collector.out_file().total_inst, 4);
    assert_eq!(collector.out_file().total_txns, 2);
    assert_eq!(collector.out_file().last_block, 7);
    assert_eq!(collector.out_file().last_time_stamp, 100);
    assert_eq!(
        collector.out_file().total_written,
        (writes[0].row.len() + writes[1].row.len()) as u64
    );
    assert_eq!(collector.total_count().get_gas_total(), 206);
    assert_eq!(collector.total_count().get_count(EvmInst::ADD), 2);
    assert_eq!(collector.txn_count().get_count(EvmInst::SLOAD), 1);
    assert_eq!(collector.txn_count().get_count(EvmInst::ADD), 0);
    assert_eq!(collector.current_block(), 8);
    assert!(collector.is_idle());
    assert_eq!(
        requests,
        vec![
            GethRpc::get_block(7),
            GethRpc::trace_block_request(7),
            GethRpc::txn_by_block_idx(7, 0),
            GethRpc::txn_by_block_idx(7, 1),
            GethRpc::get_block(8),
            GethRpc::trace_block_request(8),
        ]
    );
}

#[test]
fn empty_trace_moves_the_cursor_and_nothing_else() {
    for empty in ["{\"result\":[]}\n", "{\"result\":null}\n", "{}\n", "{\"result\":{}}\n"] {
        let (mut collector, _) = EvmExtract::new(3);
        let start = collector.catchup(4);
        let none = move |_: &[u8]| empty.to_string();
        let (writes, requests) = drive(&mut collector, start, &none).unwrap();
        assert!(writes.is_empty());
        assert_eq!(requests.len(), 4);
        assert_eq!(collector.current_block(), 4);
        assert_eq!(collector.out_file().total_txns, 0);
        assert_eq!(collector.out_file().total_inst, 0);
        assert_eq!(collector.out_file().total_gas, 0);
        assert_eq!(collector.out_file().total_written, 0);
        assert_eq!(collector.total_count().get_gas_total(), 0);
    }
}

#[test]
fn transactions_without_steps_are_passed_over() {
    let trace = |_: &[u8]| {
        "{\"result\":[{\"result\":{\"structLogs\":[]}},{\"error\":\"x\"},\
         {\"result\":{\"structLogs\":[{\"op\":\"POP\",\"gasCost\":2}]}},\
         {\"result\":{\"structLogs\":[]}}]}\n"
            .to_string()
    };
    let (mut collector, _) = EvmExtract::new(1);
    let start = collector.catchup(2);
    let (writes, requests) = drive(&mut collector, start, &trace).unwrap();
    assert_eq!(writes.len(), 2);
    assert_eq!(EvmTrace::parse_row(&writes[0].row).unwrap().txn_index, 2);
    assert_eq!(EvmTrace::parse_row(&writes[1].row).unwrap().block_num, 2);
    assert!(requests.contains(&GethRpc::txn_by_block_idx(1, 2)));
    assert!(!requests.contains(&GethRpc::txn_by_block_idx(1, 0)));
    assert!(!requests.contains(&GethRpc::txn_by_block_idx(1, 3)));
}

#[test]
fn cursor_at_the_target_is_a_no_op() {
    let (mut collector, _) = EvmExtract::new(9);
    assert_eq!(collector.catchup(9), Action::Done);
    assert_eq!(collector.catchup(2), Action::Done);
    assert!(collector.is_idle());
    assert_eq!(collector.current_block(), 9);
    assert_eq!(
        collector.handle(ReadEvent::Data(b"stray\n")),
        Ok(Turn { write: None, action: Action::Done })
    );
}

#[test]
fn catching_up_to_the_latest_block() {
    let (mut collector, _) = EvmExtract::new(7);
    let start = collector.catchup_latest();
    assert_eq!(start, Action::Send(GethRpc::block_number()));
    let (writes, requests) = drive(&mut collector, start, &two_then_none).unwrap();
    assert_eq!(writes.len(), 2);
    assert_eq!(requests.len(), 7);
    assert_eq!(collector.current_block(), 8);
    let again = collector.catchup_latest();
    let (writes, requests) = drive(&mut collector, again, &two_then_none).unwrap();
    assert!(writes.is_empty());
    assert_eq!(requests.len(), 1);
}

#[test]
fn no_latest_block_is_fatal() {
    for answer in ["{\"result\":null}\n", "{\"result\":12}\n", "garbage\n"] {
        let (mut collector, _) = EvmExtract::new(7);
        collector.catchup_latest();
        assert_eq!(
            collector.handle(ReadEvent::Data(answer.as_bytes())),
            Err(RunError::NoUpstreamBlock)
        );
    }
}

#[test]
fn failures_of_the_node_are_fatal() {
    let (mut collector, _) = EvmExtract::new(1);
    collector.catchup(2);
    assert_eq!(collector.handle(ReadEvent::Failed), Err(RunError::IoError));
    assert_eq!(collector.handle(ReadEvent::Data(b"")), Err(RunError::ConnectionClosed));
    assert_eq!(
        collector.handle(ReadEvent::Data(b"{{\n")),
        Err(RunError::ParseError(b"{{\n".to_vec()))
    );
    let bad_trace = |_: &[u8]| "[1,\n".to_string();
    let (mut collector, _) = EvmExtract::new(1);
    let start = collector.catchup(2);
    assert_eq!(
        drive(&mut collector, start, &bad_trace).err(),
        Some(RunError::ParseError(b"[1,\n".to_vec()))
    );
    assert_eq!(collector.current_block(), 1);
}

#[test]
fn bad_steps_are_fatal() {
    let cases = [
        ("{\"op\":\"FROB\",\"gasCost\":1}", RunError::UnknownInstruction("FROB".to_string())),
        ("{\"gasCost\":1}", RunError::MissingFieldError("op".to_string())),
        ("{\"op\":\"ADD\"}", RunError::MissingFieldError("gasCost".to_string())),
        ("{\"op\":\"ADD\",\"gasCost\":-3}", RunError::MissingFieldError("gasCost".to_string())),
    ];
    for (bad, failure) in cases {
        let trace = move |_: &[u8]| {
            format!("{{\"result\":[{{\"result\":{{\"structLogs\":[{}]}}}}]}}\n", bad)
        };
        let (mut collector, _) = EvmExtract::new(1);
        let start = collector.catchup(2);
        assert_eq!(drive(&mut collector, start, &trace).err(), Some(failure));
        assert_eq!(collector.out_file().total_txns, 0);
    }
}

#[test]
fn a_range_of_empty_blocks() {
    let (mut collector, _) = EvmExtract::new(3);
    let none = |_: &[u8]| "{\"result\":[]}\n".to_string();
    let start = collector.catchup(12);
    assert_eq!(start, Action::Send(GethRpc::get_block(3)));
    let (writes, requests) = drive(&mut collector, start, &none).unwrap();
    assert!(writes.is_empty());
    let mut expected = Vec::new();
    for block in 3..=12u64 {
        expected.push(GethRpc::get_block(block));
        expected.push(GethRpc::trace_block_request(block));
    }
    assert_eq!(requests, expected);
    assert_eq!(collector.current_block(), 12);
    assert!(collector.is_idle());
    assert_eq!(collector.out_file().total_txns, 0);
    assert_eq!(collector.out_file().total_written, 0);
    assert_eq!(collector.out_file().last_block, 0);
    assert_eq!(collector.total_count().get_gas_total(), 0);
    assert_eq!(collector.total_count().pretty_counts(), "");
}
