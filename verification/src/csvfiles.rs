//! CSV output of counts: what goes into the count files and when a new
//! file begins. The files themselves belong to the caller, who appends each
//! row, flushes, and opens the next file when told to.

use crate::error::{Failure, RunError};
use crate::evminst::{as_str, INST_COUNT, VALUES};
use crate::evmtrace::{
    join_fields, leading_time, lemma_join_take, record_of, EvmTrace, EvmTraceView, COMMA, NEWLINE,
};
use crate::prices::{loaded, nearest, BestPrice, Candlestick};
use crate::gethrpc::{BlockInfo, TxnInfo};
use crate::instcount::{gas_sum, InstCount, Tally};
use crate::util::{
    ascii_string, decimal, lemma_render_plain, lit, push_bytes, render_u64,
};
use vstd::prelude::*;
use vstd::string::*;
use vstd::utf8::{decode_utf8, encode_utf8};

verus! {

/// A new file begins after every `LINE_LIMIT` rows.
pub const LINE_LIMIT: u64 = 10_000;

/// The fields of a header.
pub const HEADER_FIELDS: usize = 276;

/// A count file to create: its name, and the header that it starts with.
#[derive(Debug, Clone, PartialEq, Eq)]
pub struct OutFile {
    pub file_name: String,
    pub header: Vec<u8>,
}

/// What one call of `write_count` asks of the caller: append `row` to the
/// current file and flush; then, where `rotate_to` is there, close the file
/// and go on with that one.
#[derive(Debug, Clone, PartialEq, Eq)]
pub struct CountWrite {
    pub row: Vec<u8>,
    pub rotate_to: Option<OutFile>,
}

/// An `OutFile` as mathematics.
pub struct OutFileView {
    pub file_name: Seq<char>,
    pub header: Seq<u8>,
}

impl View for OutFile {
    type V = OutFileView;

    open spec fn view(&self) -> OutFileView {
        OutFileView { file_name: self.file_name@, header: self.header@ }
    }
}

/// A `CountWrite` as mathematics.
pub struct CountWriteView {
    pub row: Seq<u8>,
    pub rotate_to: Option<OutFileView>,
}

impl View for CountWrite {
    type V = CountWriteView;

    open spec fn view(&self) -> CountWriteView {
        CountWriteView {
            row: self.row@,
            rotate_to: match self.rotate_to {
                Some(file) => Some(file@),
                None => None,
            },
        }
    }
}

/// The running totals of the rows written, over all files.
#[derive(Debug, Clone, Copy, PartialEq, Eq, Structural)]
pub struct TraceOutFile {
    pub last_block: u64,
    pub last_time_stamp: u64,
    pub total_written: u64,
    pub total_txns: u64,
    pub total_inst: u64,
    pub total_gas: u64,
}

/// The sum of a run of numbers.
pub open spec fn sum_of(numbers: Seq<u64>) -> nat
    decreases numbers.len(),
{
    if numbers.len() == 0 {
        0
    } else {
        sum_of(numbers.drop_last()) + numbers.last() as nat
    }
}

/// A part of a run never sums to more than the whole.
pub proof fn lemma_sum_of_prefix(numbers: Seq<u64>, n: int)
    requires
        0 <= n <= numbers.len(),
    ensures
        sum_of(numbers.take(n)) <= sum_of(numbers),
    decreases numbers.len() - n,
{
    if n == numbers.len() {
        assert(numbers.take(n) =~= numbers);
    } else {
        lemma_sum_of_prefix(numbers, n + 1);
        assert(numbers.take(n + 1).drop_last() =~= numbers.take(n));
    }
}

/// A run of numbers sums to what the same numbers sum to as gas.
pub proof fn lemma_sums_agree(numbers: Seq<u64>, gas: Seq<nat>)
    requires
        numbers.len() == gas.len(),
        forall|i: int| 0 <= i < numbers.len() ==> #[trigger] numbers[i] == gas[i],
    ensures
        sum_of(numbers) == gas_sum(gas),
    decreases numbers.len(),
{
    if numbers.len() > 0 {
        lemma_sums_agree(numbers.drop_last(), gas.drop_last());
    }
}

/// The gas in the row of a counter is the total of the counter, as long
/// as no instruction holds gas without having run: `write_count` then
/// adds to its gas total exactly what `get_gas_total` gives.
pub proof fn lemma_row_gas_is_total(
    tally: Tally,
    txn: crate::gethrpc::TxnInfoView,
    block: BlockInfo,
)
    requires
        tally.well_formed(),
        tally.balanced(),
        forall|i: int|
            0 <= i < INST_COUNT && #[trigger] tally.counts[i] == 0 ==> tally.gas[i] == 0,
    ensures
        sum_of(record_of(tally, txn, block).gas) == tally.total,
{
    let row = record_of(tally, txn, block);
    assert forall|i: int| 0 <= i < row.gas.len() implies #[trigger] row.gas[i] == tally.gas[i] by {
        assert(tally.gas[i] <= u64::MAX);
        if tally.counts[i] == 0 {
            assert(tally.gas[i] == 0);
        }
    }
    lemma_sums_agree(row.gas, tally.gas);
}

/// The names of the columns, in order: six for the transaction, then a
/// count and a gas column for every instruction.
pub open spec fn header_fields() -> Seq<Seq<u8>> {
    seq![
        lit("ts"),
        lit("block_num"),
        lit("txn_index"),
        lit("addr_from"),
        lit("addr_to"),
        lit("gas_px"),
    ] + Seq::new(
        (2 * INST_COUNT) as nat,
        |i: int|
            if i % 2 == 0 {
                encode_utf8(VALUES[i / 2].mnemonic()) + lit("_count")
            } else {
                encode_utf8(VALUES[i / 2].mnemonic()) + lit("_gas")
            },
    )
}

/// The header row of a count file.
pub open spec fn header_row() -> Seq<u8> {
    join_fields(header_fields()) + seq![NEWLINE]
}

/// The name of the count file that starts at a block, in bytes.
pub open spec fn file_name_bytes(block_num: u64) -> Seq<u8> {
    lit("counts.") + decimal(block_num as nat) + lit(".csv")
}

/// The count file that starts at a block: `counts.`, the number of the
/// block, `.csv`; and in it the header.
pub open spec fn out_file(block_num: u64) -> OutFileView {
    OutFileView { file_name: decode_utf8(file_name_bytes(block_num)), header: header_row() }
}

impl TraceOutFile {
    /// Whether the totals still fit in 64 bits after one more row.
    pub open spec fn admits(self, record: EvmTraceView) -> bool {
        &&& self.total_txns < u64::MAX
        &&& self.total_inst + sum_of(record.counts) <= u64::MAX
        &&& self.total_gas + sum_of(record.gas) <= u64::MAX
        &&& self.total_written + record.row().len() <= u64::MAX
    }

    /// The totals after one more row.
    pub open spec fn after(self, record: EvmTraceView) -> TraceOutFile {
        TraceOutFile {
            last_block: record.block_num,
            last_time_stamp: record.ts,
            total_written: (self.total_written + record.row().len()) as u64,
            total_txns: (self.total_txns + 1) as u64,
            total_inst: (self.total_inst + sum_of(record.counts)) as u64,
            total_gas: (self.total_gas + sum_of(record.gas)) as u64,
        }
    }

    /// Whether the row just written was the last of its file.
    pub open spec fn file_is_full(self) -> bool {
        self.total_txns % LINE_LIMIT == 0
    }

    /// What is handed out for writing with one more row.
    pub open spec fn hands_out(self, record: EvmTraceView) -> CountWriteView {
        CountWriteView {
            row: record.row(),
            rotate_to: if self.after(record).file_is_full() {
                Some(out_file(record.block_num))
            } else {
                None
            },
        }
    }

    /// The totals of a run that has written nothing.
    pub open spec fn fresh() -> TraceOutFile {
        TraceOutFile {
            last_block: 0,
            last_time_stamp: 0,
            total_written: 0,
            total_txns: 0,
            total_inst: 0,
            total_gas: 0,
        }
    }

    /// The totals of a run that has written nothing, and the first file of
    /// the run, named after `starting_block`.
    pub fn new(starting_block: u64) -> (start: (TraceOutFile, OutFile))
        ensures
            start.0 == TraceOutFile::fresh(),
            start.1@ == out_file(starting_block),
    {
        (
            TraceOutFile {
                last_block: 0,
                last_time_stamp: 0,
                total_written: 0,
                total_txns: 0,
                total_inst: 0,
                total_gas: 0,
            },
            Self::create_outfile(starting_block),
        )
    }

    /// The header row: the name of every column, each followed by a comma.
    pub fn header() -> (row: Vec<u8>)
        ensures
            row@ == header_row(),
    {
        let ghost fields = header_fields();
        let mut row: Vec<u8> = Vec::new();
        assert(fields.take(0) =~= Seq::<Seq<u8>>::empty());
        proof {
            lemma_join_take(fields, 0);
            lemma_join_take(fields, 1);
            lemma_join_take(fields, 2);
            lemma_join_take(fields, 3);
            lemma_join_take(fields, 4);
            lemma_join_take(fields, 5);
        }
        push_bytes(&mut row, "ts".as_bytes());
        row.push(COMMA);
        assert(row@ =~= join_fields(fields.take(1)));
        push_bytes(&mut row, "block_num".as_bytes());
        row.push(COMMA);
        assert(row@ =~= join_fields(fields.take(2)));
        push_bytes(&mut row, "txn_index".as_bytes());
        row.push(COMMA);
        assert(row@ =~= join_fields(fields.take(3)));
        push_bytes(&mut row, "addr_from".as_bytes());
        row.push(COMMA);
        assert(row@ =~= join_fields(fields.take(4)));
        push_bytes(&mut row, "addr_to".as_bytes());
        row.push(COMMA);
        assert(row@ =~= join_fields(fields.take(5)));
        push_bytes(&mut row, "gas_px".as_bytes());
        row.push(COMMA);
        assert(row@ =~= join_fields(fields.take(6)));
        let mut i: usize = 0;
        while i < INST_COUNT
            invariant
                i <= INST_COUNT,
                fields == header_fields(),
                fields.len() == HEADER_FIELDS,
                row@ == join_fields(fields.take(6 + 2 * i)),
            decreases INST_COUNT - i,
        {
            proof {
                lemma_join_take(fields, 6 + 2 * i);
                lemma_join_take(fields, 6 + 2 * i + 1);
                assert(fields[6 + 2 * i] == encode_utf8(VALUES[i as int].mnemonic()) + lit(
                    "_count",
                ));
                assert(fields[6 + 2 * i + 1] == encode_utf8(VALUES[i as int].mnemonic()) + lit(
                    "_gas",
                ));
            }
            let op = VALUES[i];
            let name = as_str(&op).as_bytes();
            let ghost before = row@;
            push_bytes(&mut row, name);
            push_bytes(&mut row, "_count".as_bytes());
            row.push(COMMA);
            assert(row@ =~= before + fields[6 + 2 * i] + seq![COMMA]);
            let ghost middle = row@;
            push_bytes(&mut row, name);
            push_bytes(&mut row, "_gas".as_bytes());
            row.push(COMMA);
            assert(row@ =~= middle + fields[6 + 2 * i + 1] + seq![COMMA]);
            i += 1;
        }
        assert(fields.take(HEADER_FIELDS as int) =~= fields);
        row.push(NEWLINE);
        row
    }

    /// The name of the count file that starts at `block_num`:
    /// `counts.`, the number, `.csv`.
    pub fn file_name(block_num: u64) -> (name: String)
        ensures
            name@ == out_file(block_num).file_name,
            encode_utf8(name@) == file_name_bytes(block_num),
    {
        let mut bytes: Vec<u8> = Vec::new();
        push_bytes(&mut bytes, "counts.".as_bytes());
        push_bytes(&mut bytes, render_u64(block_num, 10).as_slice());
        push_bytes(&mut bytes, ".csv".as_bytes());
        proof {
            reveal_strlit("counts.");
            reveal_strlit(".csv");
            vstd::utf8::is_ascii_chars_encode_utf8("counts."@);
            vstd::utf8::is_ascii_chars_encode_utf8(".csv"@);
            lemma_render_plain(block_num as nat, 10);
            let digits = decimal(block_num as nat);
            assert forall|i: int| 0 <= i < bytes@.len() implies #[trigger] bytes@[i] < 0x80 by {
                if i < 7 {
                    assert(bytes@[i] == lit("counts.")[i]);
                } else if i < 7 + digits.len() {
                    assert(bytes@[i] == digits[i - 7]);
                } else {
                    assert(bytes@[i] == lit(".csv")[i - 7 - digits.len()]);
                }
            }
        }
        ascii_string(bytes.as_slice())
    }

    /// The file to go on with from `block_num`: its name and its header.
    pub fn create_outfile(block_num: u64) -> (file: OutFile)
        ensures
            file@ == out_file(block_num),
    {
        OutFile { file_name: Self::file_name(block_num), header: Self::header() }
    }

    /// The file that follows the one that is full: it is named after the
    /// block of the row written last.
    pub fn rotate_file(&self) -> (file: OutFile)
        ensures
            file@ == out_file(self.last_block),
    {
        Self::create_outfile(self.last_block)
    }

    /// Account for the row of one transaction and hand it out for writing.
    ///
    /// The row is that of `EvmTrace::from_counts`. The totals grow by the
    /// row: one transaction, its instructions, its gas, its bytes. After
    /// every `LINE_LIMIT` rows the caller is told to go on with a new file.
    /// Where a total would leave 64 bits, nothing changes and the error is
    /// `Overflow`.
    pub fn write_count(
        &mut self,
        txn_count: &InstCount,
        txn_info: &TxnInfo,
        block_info: &BlockInfo,
    ) -> (written: Result<CountWrite, RunError>)
        ensures
            match written {
                Ok(w) => {
                    let record = record_of(txn_count@, txn_info@, *block_info);
                    &&& old(self).admits(record)
                    &&& *final(self) == old(self).after(record)
                    &&& w@ == old(self).hands_out(record)
                },
                Err(e) => {
                    &&& !old(self).admits(record_of(txn_count@, txn_info@, *block_info))
                    &&& e@ == Failure::Overflow
                    &&& *final(self) == *old(self)
                },
            },
    {
        let record = EvmTrace::from_counts(txn_count, txn_info, block_info);
        let insts = match sum_checked(&record.counts) {
            Some(n) => n,
            None => {
                return Err(RunError::Overflow);
            },
        };
        let gas = match sum_checked(&record.gas) {
            Some(n) => n,
            None => {
                return Err(RunError::Overflow);
            },
        };
        let row = record.to_row();
        let total_txns = match self.total_txns.checked_add(1) {
            Some(n) => n,
            None => {
                return Err(RunError::Overflow);
            },
        };
        let total_inst = match self.total_inst.checked_add(insts) {
            Some(n) => n,
            None => {
                return Err(RunError::Overflow);
            },
        };
        let total_gas = match self.total_gas.checked_add(gas) {
            Some(n) => n,
            None => {
                return Err(RunError::Overflow);
            },
        };
        let total_written = match self.total_written.checked_add(row.len() as u64) {
            Some(n) => n,
            None => {
                return Err(RunError::Overflow);
            },
        };
        self.total_txns = total_txns;
        self.total_inst = total_inst;
        self.total_gas = total_gas;
        self.total_written = total_written;
        self.last_block = block_info.block_num;
        self.last_time_stamp = block_info.time_stamp;
        let rotate_to = if self.total_txns % LINE_LIMIT == 0 {
            Some(self.rotate_file())
        } else {
            None
        };
        Ok(CountWrite { row, rotate_to })
    }
}

/// The sum of the numbers, where it fits in 64 bits.
fn sum_checked(numbers: &[u64; INST_COUNT]) -> (sum: Option<u64>)
    ensures
        match sum {
            Some(n) => n == sum_of(numbers@),
            None => sum_of(numbers@) > u64::MAX,
        },
{
    let mut acc: u64 = 0;
    let mut i: usize = 0;
    assert(numbers@.take(0) =~= Seq::<u64>::empty());
    while i < INST_COUNT
        invariant
            i <= INST_COUNT,
            acc == sum_of(numbers@.take(i as int)),
        decreases INST_COUNT - i,
    {
        assert(numbers@.take(i + 1).drop_last() =~= numbers@.take(i as int));
        proof {
            lemma_sum_of_prefix(numbers@, i + 1);
        }
        acc = match acc.checked_add(numbers[i]) {
            Some(n) => n,
            None => {
                return None;
            },
        };
        i += 1;
    }
    assert(numbers@.take(INST_COUNT as int) =~= numbers@);
    Some(acc)
}

/// A new file begins exactly when the number of rows written reaches a
/// multiple of `LINE_LIMIT`: after row `LINE_LIMIT`, and not after the row
/// before it or the row behind it.
pub proof fn lemma_rotation_points(totals: TraceOutFile, record: EvmTraceView)
    requires
        totals.admits(record),
    ensures
        totals.after(record).file_is_full() <==> (totals.total_txns + 1) % (LINE_LIMIT as int) == 0,
        totals.total_txns == LINE_LIMIT - 1 ==> totals.after(record).file_is_full(),
        totals.total_txns == LINE_LIMIT ==> !totals.after(record).file_is_full(),
        totals.total_txns < LINE_LIMIT - 1 ==> !totals.after(record).file_is_full(),
{
}

/// Count files joined with prices: for each row, the next price at or
/// after the time of the row.
pub struct PriceReader<Q> {
    pub prices: BestPrice<Q>,
}

/// The price that belongs to a line of a count file: the candle with the
/// smallest end time at or after the time that the line starts with.
/// `BadRow` where the line starts with no time, `JoinMiss` where every
/// candle ends before it.
pub open spec fn joined<Q>(series: Seq<Candlestick<Q>>, line: Seq<u8>) -> Result<
    Candlestick<Q>,
    Failure,
> {
    match leading_time(line) {
        None => Err(Failure::BadRow),
        Some(ts) => match nearest(series, ts) {
            None => Err(Failure::JoinMiss),
            Some(candle) => Ok(candle),
        },
    }
}

/// The outcome of a join, as mathematics.
pub open spec fn join_outcome<Q>(found: Result<&Candlestick<Q>, RunError>) -> Result<
    Candlestick<Q>,
    Failure,
> {
    match found {
        Ok(candle) => Ok(*candle),
        Err(e) => Err(e@),
    }
}

impl<Q> PriceReader<Q> {
    /// A reader over the prices in `records`; of records with one end
    /// time the first counts.
    pub fn new(records: Vec<Candlestick<Q>>) -> (reader: Self)
        ensures
            reader.prices.well_formed(),
            reader.prices@ == loaded(Seq::empty(), records@),
    {
        let mut prices = BestPrice::new();
        prices.load(records);
        PriceReader { prices }
    }

    /// How many prices there are.
    pub fn len(&self) -> (count: usize)
        ensures
            count == self.prices@.len(),
    {
        self.prices.len()
    }

    /// The price that belongs to one line of a count file.
    pub fn join(&self, line: &[u8]) -> (found: Result<&Candlestick<Q>, RunError>)
        requires
            self.prices.well_formed(),
        ensures
            join_outcome(found) == joined(self.prices@, line@),
    {
        match EvmTrace::leading_timestamp(line) {
            None => Err(RunError::BadRow),
            Some(ts) => match self.prices.nearest_record(ts) {
                None => Err(RunError::JoinMiss),
                Some(candle) => Ok(candle),
            },
        }
    }

    /// The price that belongs to each line of a count file, in the order
    /// of the lines. A line without a price is a miss in its place; the
    /// lines behind it are joined all the same.
    pub fn process<'a>(&'a self, lines: &Vec<Vec<u8>>) -> (found: Vec<
        Result<&'a Candlestick<Q>, RunError>,
    >)
        requires
            self.prices.well_formed(),
        ensures
            found@.len() == lines@.len(),
            forall|i: int|
                0 <= i < lines@.len() ==> join_outcome(#[trigger] found@[i]) == joined(
                    self.prices@,
                    lines@[i]@,
                ),
    {
        let mut found: Vec<Result<&'a Candlestick<Q>, RunError>> = Vec::new();
        let mut i: usize = 0;
        while i < lines.len()
            invariant
                i <= lines.len(),
                self.prices.well_formed(),
                found@.len() == i,
                forall|k: int|
                    0 <= k < i ==> join_outcome(#[trigger] found@[k]) == joined(
                        self.prices@,
                        lines@[k]@,
                    ),
            decreases lines.len() - i,
        {
            let outcome = self.join(lines[i].as_slice());
            found.push(outcome);
            i += 1;
        }
        found
    }
}

/// A line joins to a price exactly when it starts with a time and some
/// candle ends at or after that time; the price is then the earliest such
/// candle, never one that ended before the time.
pub proof fn lemma_join_looks_forward<Q>(series: Seq<Candlestick<Q>>, line: Seq<u8>)
    requires
        crate::prices::ascending(series),
    ensures
        match joined(series, line) {
            Ok(candle) => leading_time(line) matches Some(ts) && candle.end_ts >= ts
                && series.contains(candle),
            Err(e) => e == Failure::BadRow || e == Failure::JoinMiss,
        },
        joined(series, line) == Err::<Candlestick<Q>, Failure>(Failure::JoinMiss) ==> (
        leading_time(line) matches Some(ts) && forall|i: int|
            0 <= i < series.len() ==> (#[trigger] series[i]).end_ts < ts),
{
    match leading_time(line) {
        Some(ts) => {
            crate::prices::lemma_nearest_is_least(series, ts);
        },
        None => {},
    }
}

} // verus!
