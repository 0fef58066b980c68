//! The node's JSON-RPC interface over one unframed byte stream: the
//! requests, the framing of the answers, and what is read out of them.
//!
//! Nothing here touches the stream. Whoever owns it writes the bytes of a
//! request, reads, and hands each outcome of a read to `consume_response`.

use crate::error::{Failure, RunError};
use crate::jsonval::{
    as_str, fractions_are_short, fractions_short, member, member_of, parse, parsed, text_of,
};
use crate::util::{hex_quantity, hex_to_u64, lit, prefixed_hex, push_bytes, to_hex, utf8_str};
use json::JsonValue;
use vstd::prelude::*;
use vstd::string::*;
use vstd::utf8::{decode_utf8, encode_utf8, valid_utf8};

verus! {

/// Interesting Block information.
#[derive(Debug, Clone, Copy, PartialEq, Eq, Structural)]
pub struct BlockInfo {
    pub block_num: u64,
    pub time_stamp: u64,
    pub gas_limit: u64,
}

/// Interesting transaction info. `to` is empty for a contract creation.
#[derive(Debug, Clone, PartialEq, Eq)]
pub struct TxnInfo {
    pub block_num: u64,
    pub block_index: u32,
    pub gas_price: u64,
    pub from: String,
    pub to: String,
}

/// A `TxnInfo` with its texts as sequences of characters.
pub struct TxnInfoView {
    pub block_num: u64,
    pub block_index: u32,
    pub gas_price: u64,
    pub from: Seq<char>,
    pub to: Seq<char>,
}

impl View for TxnInfo {
    type V = TxnInfoView;

    open spec fn view(&self) -> TxnInfoView {
        TxnInfoView {
            block_num: self.block_num,
            block_index: self.block_index,
            gas_price: self.gas_price,
            from: self.from@,
            to: self.to@,
        }
    }
}

/// What one read on the stream gave.
#[derive(Debug, Clone, Copy)]
pub enum ReadEvent<'a> {
    /// The bytes read. No bytes at all means that the node closed the stream.
    Data(&'a [u8]),
    /// The read timed out or would have blocked: the node is slow, not gone.
    TimedOut,
    /// The read failed in any other way.
    Failed,
}

/// The byte that ends an answer.
pub const END_OF_RESPONSE: u8 = 0x0a;

/// The request for the number of the latest block.
pub open spec fn block_number_request() -> Seq<u8> {
    lit("{\"jsonrpc\":\"2.0\",\"method\":\"eth_blockNumber\",\"params\":[],\"id\":1}")
}

/// The request for the header of a block.
pub open spec fn get_block_request(block_num: u64) -> Seq<u8> {
    lit("{\"jsonrpc\":\"2.0\",\"method\":\"eth_getBlockByNumber\",\"params\":[\"") + hex_quantity(
        block_num as nat,
    ) + lit("\",false],\"id\":1}")
}

/// The request for one transaction of a block.
pub open spec fn txn_request(block_num: u64, txn_index: u32) -> Seq<u8> {
    lit(
        "{\"jsonrpc\":\"2.0\",\"method\":\"eth_getTransactionByBlockNumberAndIndex\",\"params\":[\"",
    ) + hex_quantity(block_num as nat) + lit("\",\"") + hex_quantity(txn_index as nat) + lit(
        "\"],\"id\":1}",
    )
}

/// The request for the trace of a block, without storage, stack and memory.
pub open spec fn trace_request(block_num: u64) -> Seq<u8> {
    lit("{\"jsonrpc\":\"2.0\",\"method\":\"debug_traceBlockByNumber\",\"params\":[\"")
        + hex_quantity(block_num as nat) + lit(
        "\",{\"disableStorage\":true,\"disableStack\":true,\"disableMemory\":true}],\"id\":1}",
    )
}

/// The bytes at hand after one more read.
pub open spec fn received(before: Seq<u8>, event: ReadEvent<'_>) -> Seq<u8> {
    match event {
        ReadEvent::Data(chunk) => before + chunk@,
        _ => before,
    }
}

/// Where one read leaves the exchange: at a whole answer (`Ok(true)`), in
/// need of another read, or failed.
pub open spec fn answer_state(event: ReadEvent<'_>) -> Result<bool, Failure> {
    match event {
        ReadEvent::Data(chunk) => if chunk@.len() == 0 {
            Err(Failure::ConnectionClosed)
        } else {
            Ok(chunk@.last() == END_OF_RESPONSE)
        },
        ReadEvent::TimedOut => Ok(false),
        ReadEvent::Failed => Err(Failure::IoError),
    }
}

/// The outcome of a step, with its failure as mathematics.
pub open spec fn outcome<T>(result: Result<T, RunError>) -> Result<T, Failure> {
    match result {
        Ok(value) => Ok(value),
        Err(e) => Err(e@),
    }
}

/// The characters of a field that is there.
pub open spec fn text_view(field: Option<&str>) -> Option<Seq<char>> {
    match field {
        Some(text) => Some(text@),
        None => None,
    }
}

/// The number in a field that holds a quantity such as `0x1b4`.
pub open spec fn quantity(field: Option<Seq<char>>) -> Option<u64> {
    match field {
        Some(text) => prefixed_hex(encode_utf8(text)),
        None => None,
    }
}

/// The number in a field that holds a quantity; zero where the field is
/// missing or holds none.
pub open spec fn quantity_or_zero(field: Option<Seq<char>>) -> u64 {
    match quantity(field) {
        Some(n) => n,
        None => 0,
    }
}

/// The text of a field; empty where the field is missing.
pub open spec fn text_or_empty(field: Option<Seq<char>>) -> Seq<char> {
    match field {
        Some(text) => text,
        None => Seq::empty(),
    }
}

/// The document in an answer, where the answer is UTF-8 and JSON and
/// none of its fractions is longer than the parser can count.
pub open spec fn document(payload: Seq<u8>) -> Option<JsonValue> {
    if valid_utf8(payload) && fractions_short(payload) {
        parsed(decode_utf8(payload))
    } else {
        None
    }
}

/// The string under `name` in the `result` of an answer.
pub open spec fn result_field(doc: JsonValue, name: Seq<char>) -> Option<Seq<char>> {
    text_of(member_of(member_of(doc, "result"@), name))
}

/// The latest block that an answer to `block_number_request` names.
pub open spec fn latest_block_in(doc: JsonValue) -> Option<u64> {
    quantity(text_of(member_of(doc, "result"@)))
}

/// The block information in an answer to `get_block_request`.
pub open spec fn block_info_in(doc: JsonValue, block_num: u64) -> BlockInfo {
    BlockInfo {
        block_num,
        time_stamp: quantity_or_zero(result_field(doc, "timestamp"@)),
        gas_limit: quantity_or_zero(result_field(doc, "gas_limit"@)),
    }
}

/// The transaction information in an answer to `txn_request`.
pub open spec fn txn_info_in(doc: JsonValue, block_num: u64, block_index: u32) -> TxnInfoView {
    TxnInfoView {
        block_num,
        block_index,
        gas_price: quantity_or_zero(result_field(doc, "gasPrice"@)),
        from: text_or_empty(result_field(doc, "from"@)),
        to: text_or_empty(result_field(doc, "to"@)),
    }
}

/// The number in a field that holds a quantity.
pub fn quantity_of(field: Option<&str>) -> (number: Option<u64>)
    ensures
        number == quantity(text_view(field)),
{
    match field {
        Some(text) => hex_to_u64(text),
        None => None,
    }
}

impl BlockInfo {
    /// The information on block `block_num`, from the fields of the node's
    /// answer. A field that is missing or is no quantity counts as zero.
    pub fn from_fields(block_num: u64, timestamp: Option<&str>, gas_limit: Option<&str>) -> (info:
        BlockInfo)
        ensures
            info == (BlockInfo {
                block_num,
                time_stamp: quantity_or_zero(text_view(timestamp)),
                gas_limit: quantity_or_zero(text_view(gas_limit)),
            }),
    {
        let time_stamp = match quantity_of(timestamp) {
            Some(n) => n,
            None => 0,
        };
        let gas_limit = match quantity_of(gas_limit) {
            Some(n) => n,
            None => 0,
        };
        BlockInfo { block_num, time_stamp, gas_limit }
    }
}

impl TxnInfo {
    /// The information on transaction `block_index` of block `block_num`,
    /// from the fields of the node's answer. A missing address is empty; a
    /// gas price that is missing or is no quantity counts as zero.
    pub fn from_fields(
        block_num: u64,
        block_index: u32,
        from: Option<&str>,
        to: Option<&str>,
        gas_price: Option<&str>,
    ) -> (info: TxnInfo)
        ensures
            info@ == (TxnInfoView {
                block_num,
                block_index,
                gas_price: quantity_or_zero(text_view(gas_price)),
                from: text_or_empty(text_view(from)),
                to: text_or_empty(text_view(to)),
            }),
    {
        let from = match from {
            Some(text) => text.to_owned(),
            None => String::new(),
        };
        let to = match to {
            Some(text) => text.to_owned(),
            None => String::new(),
        };
        let gas_price = match quantity_of(gas_price) {
            Some(n) => n,
            None => 0,
        };
        TxnInfo { block_num, block_index, gas_price, from, to }
    }
}

/// Geth IPC interactions: the requests, and the answer as far as it has
/// arrived.
pub struct GethRpc {
    /// Accumulate partial reads from the stream until the answer is whole.
    results: Vec<u8>,
}

impl View for GethRpc {
    type V = Seq<u8>;

    /// The bytes of the answer that have arrived.
    closed spec fn view(&self) -> Seq<u8> {
        self.results@
    }
}

impl GethRpc {
    /// A client that has received nothing.
    pub fn new() -> (rpc: Self)
        ensures
            rpc@ == Seq::<u8>::empty(),
    {
        GethRpc { results: Vec::new() }
    }

    /// The bytes to send for the number of the latest block.
    pub fn block_number() -> (request: Vec<u8>)
        ensures
            request@ == block_number_request(),
    {
        let mut request: Vec<u8> = Vec::new();
        push_bytes(
            &mut request,
            "{\"jsonrpc\":\"2.0\",\"method\":\"eth_blockNumber\",\"params\":[],\"id\":1}".as_bytes(),
        );
        request
    }

    /// The bytes to send for the header of block `block_num`.
    pub fn get_block(block_num: u64) -> (request: Vec<u8>)
        ensures
            request@ == get_block_request(block_num),
    {
        let mut request: Vec<u8> = Vec::new();
        push_bytes(
            &mut request,
            "{\"jsonrpc\":\"2.0\",\"method\":\"eth_getBlockByNumber\",\"params\":[\"".as_bytes(),
        );
        push_bytes(&mut request, to_hex(block_num).as_slice());
        push_bytes(&mut request, "\",false],\"id\":1}".as_bytes());
        request
    }

    /// The bytes to send for transaction `txn_index` of block `block_num`.
    pub fn txn_by_block_idx(block_num: u64, txn_index: u32) -> (request: Vec<u8>)
        ensures
            request@ == txn_request(block_num, txn_index),
    {
        let mut request: Vec<u8> = Vec::new();
        push_bytes(
            &mut request,
            "{\"jsonrpc\":\"2.0\",\"method\":\"eth_getTransactionByBlockNumberAndIndex\",\"params\":[\"".as_bytes(),
        );
        push_bytes(&mut request, to_hex(block_num).as_slice());
        push_bytes(&mut request, "\",\"".as_bytes());
        push_bytes(&mut request, to_hex(txn_index as u64).as_slice());
        push_bytes(&mut request, "\"],\"id\":1}".as_bytes());
        request
    }

    /// The bytes to send for the trace of block `block_num`.
    pub fn trace_block_request(block_num: u64) -> (request: Vec<u8>)
        ensures
            request@ == trace_request(block_num),
    {
        let mut request: Vec<u8> = Vec::new();
        push_bytes(
            &mut request,
            "{\"jsonrpc\":\"2.0\",\"method\":\"debug_traceBlockByNumber\",\"params\":[\"".as_bytes(),
        );
        push_bytes(&mut request, to_hex(block_num).as_slice());
        push_bytes(
            &mut request,
            "\",{\"disableStorage\":true,\"disableStack\":true,\"disableMemory\":true}],\"id\":1}".as_bytes(),
        );
        request
    }

    /// Forget the previous answer: a request is about to be sent.
    pub fn begin_response(&mut self)
        ensures
            final(self)@ == Seq::<u8>::empty(),
    {
        self.results.clear();
    }

    /// Take in the outcome of one read. `Ok(true)`: the answer is whole;
    /// `Ok(false)`: read again.
    ///
    /// The node ends each answer with a line end and sends nothing behind
    /// it before the next request, so the answer is whole when the bytes
    /// just read end in one. A timeout changes nothing. A read of no bytes
    /// means that the stream is closed.
    pub fn consume_response(&mut self, event: ReadEvent<'_>) -> (whole: Result<bool, RunError>)
        ensures
            final(self)@ == received(old(self)@, event),
            outcome(whole) == answer_state(event),
    {
        match event {
            ReadEvent::Data(chunk) => {
                if chunk.len() == 0 {
                    Err(RunError::ConnectionClosed)
                } else {
                    push_bytes(&mut self.results, chunk);
                    Ok(chunk[chunk.len() - 1] == END_OF_RESPONSE)
                }
            },
            ReadEvent::TimedOut => Ok(false),
            ReadEvent::Failed => Err(RunError::IoError),
        }
    }

    /// The bytes of the answer that have arrived.
    pub fn response(&self) -> (payload: &[u8])
        ensures
            payload@ == self@,
    {
        self.results.as_slice()
    }

    /// The answer as a document, or `ParseError` with the raw answer where
    /// it is not JSON, or holds a fraction of more digits than the parser
    /// can count.
    pub fn parse_response(&self) -> (doc: Result<JsonValue, RunError>)
        ensures
            match doc {
                Ok(d) => document(self@) == Some(d),
                Err(e) => document(self@) is None && e@ == Failure::ParseError(self@),
            },
    {
        if !fractions_are_short(self.results.as_slice()) {
            return Err(RunError::ParseError(self.results.clone()));
        }
        match utf8_str(self.results.as_slice()) {
            Some(text) => {
                proof {
                    vstd::utf8::encode_utf8_decode_utf8(text@);
                }
                match parse(text) {
                    Ok(d) => Ok(d),
                    Err(_) => Err(RunError::ParseError(self.results.clone())),
                }
            },
            None => Err(RunError::ParseError(self.results.clone())),
        }
    }

    /// Latest block number in the answer to `block_number`, if the answer
    /// is a document whose `result` is a quantity.
    pub fn get_latest_block(&self) -> (latest: Option<u64>)
        ensures
            latest == match document(self@) {
                Some(doc) => latest_block_in(doc),
                None => None,
            },
    {
        match self.parse_response() {
            Ok(doc) => quantity_of(as_str(member(&doc, "result"))),
            Err(_) => None,
        }
    }

    /// `BlockInfo` for `block_num` from the answer to `get_block`.
    pub fn block_info(&self, block_num: u64) -> (info: Result<BlockInfo, RunError>)
        ensures
            match info {
                Ok(block) => document(self@) matches Some(doc) && block == block_info_in(
                    doc,
                    block_num,
                ),
                Err(e) => document(self@) is None && e@ == Failure::ParseError(self@),
            },
    {
        let doc = match self.parse_response() {
            Ok(d) => d,
            Err(e) => {
                return Err(e);
            },
        };
        let result = member(&doc, "result");
        Ok(
            BlockInfo::from_fields(
                block_num,
                as_str(member(result, "timestamp")),
                as_str(member(result, "gas_limit")),
            ),
        )
    }

    /// Transaction information for the transaction in the given block at
    /// the given index, from the answer to `txn_by_block_idx`.
    pub fn txn_info(&self, block_num: u64, block_index: u32) -> (info: Result<TxnInfo, RunError>)
        ensures
            match info {
                Ok(txn) => document(self@) matches Some(doc) && txn@ == txn_info_in(
                    doc,
                    block_num,
                    block_index,
                ),
                Err(e) => document(self@) is None && e@ == Failure::ParseError(self@),
            },
    {
        let doc = match self.parse_response() {
            Ok(d) => d,
            Err(e) => {
                return Err(e);
            },
        };
        let result = member(&doc, "result");
        Ok(
            TxnInfo::from_fields(
                block_num,
                block_index,
                as_str(member(result, "from")),
                as_str(member(result, "to")),
                as_str(member(result, "gasPrice")),
            ),
        )
    }

    /// The answer to `trace_block_request` as a document.
    pub fn trace_block(&self) -> (doc: Result<JsonValue, RunError>)
        ensures
            match doc {
                Ok(d) => document(self@) == Some(d),
                Err(e) => document(self@) is None && e@ == Failure::ParseError(self@),
            },
    {
        self.parse_response()
    }
}

} // verus!
