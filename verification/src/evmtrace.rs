//! The rows of the count files: one transaction each, with its place in
//! the chain, its parties, its gas price, and for every instruction a count
//! and the gas it took, in the order of `VALUES`.
//!
//! A row is a run of fields, each of them followed by a comma, and a line
//! end: `ts,block_num,txn_index,addr_from,addr_to,gas_px,` and then
//! `count,gas,` per instruction.

use crate::evminst::{lemma_values_distinct, EvmInst, INST_COUNT, VALUES};
use crate::gethrpc::{BlockInfo, TxnInfo, TxnInfoView};
use crate::instcount::{InstCount, Tally};
use crate::util::{
    all_digits, decimal, digit_of, digits_value, lemma_render_plain, lemma_render_reads_back,
    parse_radix, parse_u64, push_bytes, render, render_u64, utf8_str,
};
use vstd::prelude::*;
use vstd::slice::slice_subrange;
use vstd::string::*;
use vstd::utf8::{decode_utf8, encode_utf8, valid_utf8};

verus! {

/// The byte that ends a field.
pub const COMMA: u8 = 0x2c;

/// The byte that ends a row.
pub const NEWLINE: u8 = 0x0a;

/// The fields before the per-instruction ones.
pub const LEADING_FIELDS: usize = 6;

/// The fields of a row.
pub const FIELD_COUNT: usize = 276;

/// One row of a count file.
#[derive(Debug, Clone, PartialEq, Eq)]
pub struct EvmTrace {
    pub ts: u64,
    pub block_num: u64,
    pub txn_index: u32,
    pub addr_from: String,
    pub addr_to: String,
    pub gas_px: u64,
    /// How often each instruction ran, by its ordinal.
    pub counts: [u64; INST_COUNT],
    /// The gas that each instruction took, by its ordinal.
    pub gas: [u64; INST_COUNT],
}

/// A row as mathematics.
pub struct EvmTraceView {
    pub ts: u64,
    pub block_num: u64,
    pub txn_index: u32,
    pub addr_from: Seq<char>,
    pub addr_to: Seq<char>,
    pub gas_px: u64,
    pub counts: Seq<u64>,
    pub gas: Seq<u64>,
}

impl View for EvmTrace {
    type V = EvmTraceView;

    open spec fn view(&self) -> EvmTraceView {
        EvmTraceView {
            ts: self.ts,
            block_num: self.block_num,
            txn_index: self.txn_index,
            addr_from: self.addr_from@,
            addr_to: self.addr_to@,
            gas_px: self.gas_px,
            counts: self.counts@,
            gas: self.gas@,
        }
    }
}

/// No byte of the field is a comma.
pub open spec fn comma_free(field: Seq<u8>) -> bool {
    forall|i: int| 0 <= i < field.len() ==> #[trigger] field[i] != COMMA
}

/// The fields, each followed by a comma.
pub open spec fn join_fields(fields: Seq<Seq<u8>>) -> Seq<u8>
    decreases fields.len(),
{
    if fields.len() == 0 {
        Seq::empty()
    } else {
        join_fields(fields.drop_last()) + fields.last() + seq![COMMA]
    }
}

/// The text cut at its commas. There is always a last piece, behind the
/// last comma; it is empty where the text ends in one.
pub open spec fn split_fields(text: Seq<u8>) -> Seq<Seq<u8>>
    decreases text.len(),
{
    if text.len() == 0 {
        seq![Seq::empty()]
    } else {
        let before = split_fields(text.drop_last());
        if text.last() == COMMA {
            before.push(Seq::empty())
        } else {
            before.update(before.len() - 1, before.last().push(text.last()))
        }
    }
}

/// The number that a field holds, if the field is a number as `decimal`
/// writes it: digits only, and no leading zero but in `0` itself.
pub open spec fn canonical_decimal(field: Seq<u8>) -> Option<u64> {
    if field.len() > 0 && all_digits(field, 10) && (field.len() == 1 || field[0] != 0x30)
        && digits_value(field, 10) <= u64::MAX {
        Some(digits_value(field, 10) as u64)
    } else {
        None
    }
}

impl EvmTraceView {
    /// A count and a gas sum for every instruction.
    pub open spec fn well_formed(self) -> bool {
        self.counts.len() == INST_COUNT && self.gas.len() == INST_COUNT
    }

    /// Neither address holds a comma.
    pub open spec fn separable(self) -> bool {
        comma_free(encode_utf8(self.addr_from)) && comma_free(encode_utf8(self.addr_to))
    }

    /// The fields of the row, in order.
    pub open spec fn fields(self) -> Seq<Seq<u8>> {
        seq![
            decimal(self.ts as nat),
            decimal(self.block_num as nat),
            decimal(self.txn_index as nat),
            encode_utf8(self.addr_from),
            encode_utf8(self.addr_to),
            decimal(self.gas_px as nat),
        ] + Seq::new(
            (2 * INST_COUNT) as nat,
            |i: int|
                if i % 2 == 0 {
                    decimal(self.counts[i / 2] as nat)
                } else {
                    decimal(self.gas[i / 2] as nat)
                },
        )
    }

    /// The row without its line end.
    pub open spec fn row_text(self) -> Seq<u8> {
        join_fields(self.fields())
    }

    /// The row as the count file holds it.
    pub open spec fn row(self) -> Seq<u8> {
        self.row_text() + seq![NEWLINE]
    }

    /// The gas of the instructions that ran, up to ordinal `n`.
    pub open spec fn gas_upto(self, n: int) -> nat
        decreases n,
    {
        if n <= 0 {
            0
        } else {
            self.gas_upto(n - 1) + if self.counts[n - 1] == 0 {
                0nat
            } else {
                self.gas[n - 1] as nat
            }
        }
    }

    /// The gas of the transaction: that of every instruction that ran.
    pub open spec fn total_gas(self) -> nat {
        self.gas_upto(INST_COUNT as int)
    }

    /// How often `op` ran.
    pub open spec fn count_of(self, op: EvmInst) -> u64 {
        self.counts[op.spec_ordinal()]
    }

    /// The gas that `op` took.
    pub open spec fn gas_of(self, op: EvmInst) -> u64 {
        self.gas[op.spec_ordinal()]
    }
}

/// The row that a transaction's counter gives. An instruction that never
/// ran has no gas in the row, whatever the counter holds for it.
pub open spec fn record_of(tally: Tally, txn: TxnInfoView, block: BlockInfo) -> EvmTraceView {
    EvmTraceView {
        ts: block.time_stamp,
        block_num: block.block_num,
        txn_index: txn.block_index,
        addr_from: txn.from,
        addr_to: txn.to,
        gas_px: txn.gas_price,
        counts: Seq::new(INST_COUNT as nat, |i: int| tally.counts[i] as u64),
        gas: Seq::new(
            INST_COUNT as nat,
            |i: int|
                if tally.counts[i] == 0 {
                    0
                } else {
                    tally.gas[i] as u64
                },
        ),
    }
}

/// Whether every field that must hold a number holds one.
pub open spec fn numbers_in(fields: Seq<Seq<u8>>) -> bool {
    forall|k: int|
        0 <= k < FIELD_COUNT && k != 3 && k != 4 ==> (#[trigger] canonical_decimal(
            fields[k],
        )) is Some
}

/// The row that the pieces of a line hold, if they hold one: exactly
/// `FIELD_COUNT` fields and nothing behind the last comma, numbers where
/// numbers belong, a transaction index within `u32`, addresses in UTF-8.
pub open spec fn row_from_fields(fields: Seq<Seq<u8>>) -> Option<EvmTraceView> {
    if fields.len() == FIELD_COUNT + 1 && fields.last().len() == 0 && numbers_in(fields)
        && canonical_decimal(fields[2]).unwrap() <= u32::MAX && valid_utf8(fields[3]) && valid_utf8(
        fields[4],
    ) {
        Some(
            EvmTraceView {
                ts: canonical_decimal(fields[0]).unwrap(),
                block_num: canonical_decimal(fields[1]).unwrap(),
                txn_index: canonical_decimal(fields[2]).unwrap() as u32,
                addr_from: decode_utf8(fields[3]),
                addr_to: decode_utf8(fields[4]),
                gas_px: canonical_decimal(fields[5]).unwrap(),
                counts: Seq::new(
                    INST_COUNT as nat,
                    |i: int| canonical_decimal(fields[LEADING_FIELDS + 2 * i]).unwrap(),
                ),
                gas: Seq::new(
                    INST_COUNT as nat,
                    |i: int| canonical_decimal(fields[LEADING_FIELDS + 2 * i + 1]).unwrap(),
                ),
            },
        )
    } else {
        None
    }
}

/// A line without its line end, if it has one.
pub open spec fn line_body(line: Seq<u8>) -> Seq<u8> {
    if line.len() > 0 && line.last() == NEWLINE {
        line.drop_last()
    } else {
        line
    }
}

/// The row that a line of a count file holds, if it holds one. The line
/// end may be missing.
pub open spec fn parsed_row(line: Seq<u8>) -> Option<EvmTraceView> {
    row_from_fields(split_fields(line_body(line)))
}

/// The time that a line of a count file starts with: its first field, read
/// as a decimal number. The rest of the line is not looked at.
pub open spec fn leading_time(line: Seq<u8>) -> Option<u64> {
    parse_radix(split_fields(line)[0], 10)
}

/// The gas up to an ordinal never exceeds the gas up to a later one.
pub proof fn lemma_gas_upto_grows(record: EvmTraceView, n: int, m: int)
    requires
        n <= m,
    ensures
        record.gas_upto(n) <= record.gas_upto(m),
    decreases m - n,
{
    if n < m {
        lemma_gas_upto_grows(record, n, m - 1);
    }
}

/// Joining one more field appends it and a comma.
pub proof fn lemma_join_take(fields: Seq<Seq<u8>>, k: int)
    requires
        0 <= k < fields.len(),
    ensures
        join_fields(fields.take(k + 1)) == join_fields(fields.take(k)) + fields[k] + seq![COMMA],
{
    assert(fields.take(k + 1).drop_last() =~= fields.take(k));
}

/// Cutting a text never gives less than one piece.
pub proof fn lemma_split_nonempty(text: Seq<u8>)
    ensures
        split_fields(text).len() >= 1,
    decreases text.len(),
{
    if text.len() > 0 {
        lemma_split_nonempty(text.drop_last());
    }
}

/// Bytes without a comma, put behind a text, lengthen its last piece.
pub proof fn lemma_split_append(text: Seq<u8>, field: Seq<u8>)
    requires
        comma_free(field),
    ensures
        split_fields(text).len() >= 1,
        split_fields(text + field) == split_fields(text).update(
            split_fields(text).len() - 1,
            split_fields(text).last() + field,
        ),
    decreases field.len(),
{
    lemma_split_nonempty(text);
    let pieces = split_fields(text);
    if field.len() == 0 {
        assert(text + field =~= text);
        assert(pieces.last() + field =~= pieces.last());
        assert(pieces.update(pieces.len() - 1, pieces.last()) =~= pieces);
    } else {
        let shorter = field.drop_last();
        assert(comma_free(shorter)) by {
            assert forall|i: int| 0 <= i < shorter.len() implies #[trigger] shorter[i] != COMMA by {
                assert(shorter[i] == field[i]);
            }
        }
        lemma_split_append(text, shorter);
        assert((text + field).drop_last() =~= text + shorter);
        assert((text + field).last() == field.last());
        assert(field[field.len() - 1] != COMMA);
        let mid = split_fields(text + shorter);
        assert((pieces.last() + shorter).push(field.last()) =~= pieces.last() + field);
        assert(mid.update(mid.len() - 1, mid.last().push(field.last())) =~= pieces.update(
            pieces.len() - 1,
            pieces.last() + field,
        ));
    }
}

/// Cutting what `join_fields` made gives the fields back, and an empty
/// piece behind the last comma.
pub proof fn lemma_split_join(fields: Seq<Seq<u8>>)
    requires
        forall|k: int| 0 <= k < fields.len() ==> comma_free(#[trigger] fields[k]),
    ensures
        split_fields(join_fields(fields)) == fields.push(Seq::empty()),
    decreases fields.len(),
{
    if fields.len() == 0 {
        assert(fields.push(Seq::<u8>::empty()) =~= seq![Seq::<u8>::empty()]);
    } else {
        let head = fields.drop_last();
        lemma_split_join(head);
        let joined = join_fields(head);
        lemma_split_append(joined, fields.last());
        let with_field = joined + fields.last();
        let whole = join_fields(fields);
        assert(whole.drop_last() =~= with_field);
        assert(whole.last() == COMMA);
        assert(Seq::<u8>::empty() + fields.last() =~= fields.last());
        assert(split_fields(whole) =~= fields.push(Seq::empty()));
    }
}

/// A number of one digit or more has no leading zero as `render` writes it.
pub proof fn lemma_render_leading(n: nat, radix: nat)
    requires
        2 <= radix <= 36,
        n >= 1,
    ensures
        render(n, radix)[0] != 0x30,
    decreases n,
{
    if n >= radix {
        let q = n / radix;
        assert(1 <= q < n) by (nonlinear_arith)
            requires
                radix >= 2,
                n >= radix,
                q == n / radix,
        ;
        lemma_render_leading(q, radix);
        lemma_render_reads_back(q, radix);
    }
}

/// A decimal number as written reads back as itself.
pub proof fn lemma_decimal_reads_back(n: u64)
    ensures
        canonical_decimal(decimal(n as nat)) == Some(n),
        comma_free(decimal(n as nat)),
{
    lemma_render_reads_back(n as nat, 10);
    lemma_render_plain(n as nat, 10);
    let text = decimal(n as nat);
    if n >= 1 {
        lemma_render_leading(n as nat, 10);
    }
    if n < 10 {
        assert(text.len() == 1);
    }
    assert forall|i: int| 0 <= i < text.len() implies #[trigger] text[i] != COMMA by {
        let b = render(n as nat, 10)[i];
        assert(0x30 <= b <= 0x39 || 0x61 <= b <= 0x7a);
    }
}

/// The fields of a row, one by one: none holds a comma, and each number
/// reads back.
pub proof fn lemma_fields_of_record(record: EvmTraceView)
    requires
        record.well_formed(),
        record.separable(),
    ensures
        record.fields().len() == FIELD_COUNT,
        forall|k: int| 0 <= k < FIELD_COUNT ==> comma_free(#[trigger] record.fields()[k]),
        canonical_decimal(record.fields()[0]) == Some(record.ts),
        canonical_decimal(record.fields()[1]) == Some(record.block_num),
        canonical_decimal(record.fields()[2]) == Some(record.txn_index as u64),
        record.fields()[3] == encode_utf8(record.addr_from),
        record.fields()[4] == encode_utf8(record.addr_to),
        canonical_decimal(record.fields()[5]) == Some(record.gas_px),
        forall|i: int|
            0 <= i < INST_COUNT ==> canonical_decimal(
                #[trigger] record.fields()[LEADING_FIELDS + 2 * i],
            ) == Some(record.counts[i]),
        forall|i: int|
            0 <= i < INST_COUNT ==> canonical_decimal(
                #[trigger] record.fields()[LEADING_FIELDS + 2 * i + 1],
            ) == Some(record.gas[i]),
{
    let fields = record.fields();
    lemma_decimal_reads_back(record.ts);
    lemma_decimal_reads_back(record.block_num);
    lemma_decimal_reads_back(record.txn_index as u64);
    lemma_decimal_reads_back(record.gas_px);
    assert forall|i: int| 0 <= i < INST_COUNT implies canonical_decimal(
        #[trigger] fields[LEADING_FIELDS + 2 * i],
    ) == Some(record.counts[i]) && comma_free(fields[LEADING_FIELDS + 2 * i]) by {
        assert(fields[LEADING_FIELDS + 2 * i] == decimal(record.counts[i] as nat));
        lemma_decimal_reads_back(record.counts[i]);
    }
    assert forall|i: int| 0 <= i < INST_COUNT implies canonical_decimal(
        #[trigger] fields[LEADING_FIELDS + 2 * i + 1],
    ) == Some(record.gas[i]) && comma_free(fields[LEADING_FIELDS + 2 * i + 1]) by {
        assert(fields[LEADING_FIELDS + 2 * i + 1] == decimal(record.gas[i] as nat));
        lemma_decimal_reads_back(record.gas[i]);
    }
    assert forall|k: int| 0 <= k < FIELD_COUNT implies comma_free(#[trigger] fields[k]) by {
        if k >= LEADING_FIELDS {
            let i = (k - LEADING_FIELDS) / 2;
            if (k - LEADING_FIELDS) % 2 == 0 {
                assert(k == LEADING_FIELDS + 2 * i);
            } else {
                assert(k == LEADING_FIELDS + 2 * i + 1);
            }
        }
    }
}

/// The fields of a row, with nothing behind the last comma, read back as
/// the row.
pub proof fn lemma_fields_read_back(record: EvmTraceView)
    requires
        record.well_formed(),
        record.separable(),
    ensures
        row_from_fields(record.fields().push(Seq::empty())) == Some(record),
{
    lemma_fields_of_record(record);
    let fields = record.fields();
    let pieces = fields.push(Seq::empty());
    assert(pieces.len() == FIELD_COUNT + 1);
    assert forall|k: int| 0 <= k < FIELD_COUNT implies pieces[k] == fields[k] by {}
    assert(numbers_in(pieces)) by {
        assert forall|k: int| 0 <= k < FIELD_COUNT && k != 3 && k != 4 implies (
        #[trigger] canonical_decimal(pieces[k])) is Some by {
            assert(pieces[k] == fields[k]);
            if k >= LEADING_FIELDS {
                let i = (k - LEADING_FIELDS) / 2;
                if (k - LEADING_FIELDS) % 2 == 0 {
                    assert(k == LEADING_FIELDS + 2 * i);
                    assert(canonical_decimal(fields[LEADING_FIELDS + 2 * i]) is Some);
                } else {
                    assert(k == LEADING_FIELDS + 2 * i + 1);
                    assert(canonical_decimal(fields[LEADING_FIELDS + 2 * i + 1]) is Some);
                }
            }
        }
    }
    vstd::utf8::encode_utf8_valid_utf8(record.addr_from);
    vstd::utf8::encode_utf8_valid_utf8(record.addr_to);
    vstd::utf8::encode_utf8_decode_utf8(record.addr_from);
    vstd::utf8::encode_utf8_decode_utf8(record.addr_to);
    assert(pieces[2] == fields[2]);
    assert(pieces[3] == fields[3]);
    assert(pieces[4] == fields[4]);
    let back = row_from_fields(pieces).unwrap();
    assert(back.counts =~= record.counts) by {
        assert forall|i: int| 0 <= i < INST_COUNT implies back.counts[i] == record.counts[i] by {
            assert(pieces[LEADING_FIELDS + 2 * i] == fields[LEADING_FIELDS + 2 * i]);
        }
    }
    assert(back.gas =~= record.gas) by {
        assert forall|i: int| 0 <= i < INST_COUNT implies back.gas[i] == record.gas[i] by {
            assert(pieces[LEADING_FIELDS + 2 * i + 1] == fields[LEADING_FIELDS + 2 * i + 1]);
        }
    }
}

/// Writing a row and reading it back gives the same row, field for field,
/// zero counts included, with or without the line end, as long as
/// neither address holds a comma.
pub proof fn lemma_row_round_trip(record: EvmTraceView)
    requires
        record.well_formed(),
        record.separable(),
    ensures
        parsed_row(record.row()) == Some(record),
        parsed_row(record.row_text()) == Some(record),
{
    let fields = record.fields();
    lemma_fields_of_record(record);
    lemma_fields_read_back(record);
    lemma_split_join(fields);
    let text = record.row_text();
    assert(text == join_fields(fields.drop_last()) + fields.last() + seq![COMMA]);
    assert(text.len() > 0 && text.last() == COMMA);
    assert(record.row().drop_last() =~= text);
    assert(line_body(record.row()) == text);
    assert(line_body(text) == text);
}

/// Where the pieces of a line lie: the piece `k` runs from `cuts[k].0`
/// to `cuts[k].1`.
pub open spec fn cuts_match(line: Seq<u8>, cuts: Seq<(usize, usize)>, pieces: Seq<Seq<u8>>) -> bool {
    &&& cuts.len() == pieces.len()
    &&& forall|k: int|
        0 <= k < cuts.len() ==> {
            let cut = #[trigger] cuts[k];
            cut.0 <= cut.1 <= line.len() && line.subrange(cut.0 as int, cut.1 as int) == pieces[k]
        }
}

/// Cut the first `end` bytes of a line at their commas.
fn cut_fields(line: &[u8], end: usize) -> (cuts: Vec<(usize, usize)>)
    requires
        end <= line.len(),
    ensures
        cuts_match(line@, cuts@, split_fields(line@.take(end as int))),
{
    let mut cuts: Vec<(usize, usize)> = Vec::new();
    let mut start: usize = 0;
    let mut i: usize = 0;
    assert(line@.subrange(0, 0) =~= Seq::<u8>::empty());
    assert(line@.take(0) =~= Seq::<u8>::empty());
    while i < end
        invariant
            start <= i <= end <= line.len(),
            split_fields(line@.take(i as int)).len() == cuts.len() + 1,
            cuts_match(line@, cuts@, split_fields(line@.take(i as int)).drop_last()),
            split_fields(line@.take(i as int)).last() == line@.subrange(start as int, i as int),
        decreases end - i,
    {
        let ghost before = split_fields(line@.take(i as int));
        let ghost after = split_fields(line@.take(i + 1));
        assert(line@.take(i + 1).drop_last() =~= line@.take(i as int));
        assert(line@.take(i + 1).last() == line@[i as int]);
        if line[i] == COMMA {
            cuts.push((start, i));
            start = i + 1;
            assert(after == before.push(Seq::empty()));
            assert(after.drop_last() =~= before);
            assert(line@.subrange(start as int, start as int) =~= Seq::<u8>::empty());
            assert(cuts_match(line@, cuts@, after.drop_last())) by {
                assert forall|k: int| 0 <= k < cuts@.len() implies {
                    let cut = #[trigger] cuts@[k];
                    cut.0 <= cut.1 <= line@.len() && line@.subrange(cut.0 as int, cut.1 as int)
                        == before[k]
                } by {
                    if k < cuts@.len() - 1 {
                        assert(before.drop_last()[k] == before[k]);
                    }
                }
            }
        } else {
            assert(after == before.update(before.len() - 1, before.last().push(line@[i as int])));
            assert(after.drop_last() =~= before.drop_last());
            assert(line@.subrange(start as int, i as int).push(line@[i as int]) =~= line@.subrange(
                start as int,
                i + 1,
            ));
        }
        i += 1;
    }
    cuts.push((start, end));
    proof {
        let pieces = split_fields(line@.take(end as int));
        assert forall|k: int| 0 <= k < cuts@.len() implies {
            let cut = #[trigger] cuts@[k];
            cut.0 <= cut.1 <= line@.len() && line@.subrange(cut.0 as int, cut.1 as int) == pieces[k]
        } by {
            if k < cuts@.len() - 1 {
                assert(pieces.drop_last()[k] == pieces[k]);
            }
        }
    }
    cuts
}

/// Read a field as `decimal` writes numbers.
fn read_decimal(field: &[u8]) -> (number: Option<u64>)
    ensures
        number == canonical_decimal(field@),
{
    if field.len() == 0 {
        return None;
    }
    if field.len() > 1 && field[0] == 0x30 {
        return None;
    }
    let mut i: usize = 0;
    while i < field.len()
        invariant
            i <= field.len(),
            forall|j: int| 0 <= j < i ==> (#[trigger] digit_of(field@[j], 10)) is Some,
        decreases field.len() - i,
    {
        if !(0x30 <= field[i] && field[i] <= 0x39) {
            assert(digit_of(field@[i as int], 10) is None);
            return None;
        }
        i += 1;
    }
    assert(field@[0] != 0x2b) by {
        assert(digit_of(field@[0], 10) is Some);
    }
    parse_u64(field, 10)
}

impl EvmTrace {
    /// The row of a transaction, from its counter and what the node said of
    /// the transaction and of its block.
    pub fn from_counts(txn_count: &InstCount, txn_info: &TxnInfo, block_info: &BlockInfo) -> (record:
        EvmTrace)
        ensures
            record@ == record_of(txn_count@, txn_info@, *block_info),
            record@.well_formed(),
    {
        let mut counts: [u64; INST_COUNT] = [0; INST_COUNT];
        let mut gas: [u64; INST_COUNT] = [0; INST_COUNT];
        let ghost tally = txn_count@;
        let mut i: usize = 0;
        while i < INST_COUNT
            invariant
                i <= INST_COUNT,
                tally == txn_count@,
                forall|j: int| 0 <= j < i ==> counts[j] == tally.counts[j],
                forall|j: int|
                    0 <= j < i ==> gas[j] == (if tally.counts[j] == 0 {
                        0
                    } else {
                        tally.gas[j]
                    }),
            decreases INST_COUNT - i,
        {
            let op = VALUES[i];
            proof {
                lemma_values_distinct(i as int);
            }
            let count = txn_count.get_count(op);
            counts[i] = count;
            if count != 0 {
                gas[i] = txn_count.get_gas(op);
            } else {
                gas[i] = 0;
            }
            i += 1;
        }
        let record = EvmTrace {
            ts: block_info.time_stamp,
            block_num: block_info.block_num,
            txn_index: txn_info.block_index,
            addr_from: txn_info.from.clone(),
            addr_to: txn_info.to.clone(),
            gas_px: txn_info.gas_price,
            counts,
            gas,
        };
        assert(record@.counts =~= record_of(tally, txn_info@, *block_info).counts);
        assert(record@.gas =~= record_of(tally, txn_info@, *block_info).gas);
        record
    }

    /// How often `op` ran.
    pub fn count_of(&self, op: EvmInst) -> (count: u64)
        ensures
            count == self@.count_of(op),
    {
        self.counts[op.ordinal()]
    }

    /// The gas that `op` took.
    pub fn gas_of(&self, op: EvmInst) -> (gas: u64)
        ensures
            gas == self@.gas_of(op),
    {
        self.gas[op.ordinal()]
    }

    /// The gas of the transaction: that of every instruction that ran.
    /// Nothing where the sum does not fit in 64 bits.
    pub fn total_gas(&self) -> (total: Option<u64>)
        ensures
            match total {
                Some(n) => n == self@.total_gas(),
                None => self@.total_gas() > u64::MAX,
            },
    {
        let mut acc: u64 = 0;
        let mut i: usize = 0;
        while i < INST_COUNT
            invariant
                i <= INST_COUNT,
                acc == self@.gas_upto(i as int),
            decreases INST_COUNT - i,
        {
            if self.counts[i] != 0 {
                acc = match acc.checked_add(self.gas[i]) {
                    Some(n) => n,
                    None => {
                        proof {
                            lemma_gas_upto_grows(self@, i + 1, INST_COUNT as int);
                        }
                        return None;
                    },
                };
            }
            i += 1;
        }
        Some(acc)
    }

    /// The row as the count file holds it, line end included.
    pub fn to_row(&self) -> (row: Vec<u8>)
        ensures
            row@ == self@.row(),
    {
        let ghost fields = self@.fields();
        let mut row: Vec<u8> = Vec::new();
        assert(fields.take(0) =~= Seq::<Seq<u8>>::empty());
        proof {
            lemma_join_take(fields, 0);
            lemma_join_take(fields, 1);
            lemma_join_take(fields, 2);
            lemma_join_take(fields, 3);
            lemma_join_take(fields, 4);
            lemma_join_take(fields, 5);
        }
        push_bytes(&mut row, render_u64(self.ts, 10).as_slice());
        row.push(COMMA);
        assert(row@ =~= join_fields(fields.take(1)));
        push_bytes(&mut row, render_u64(self.block_num, 10).as_slice());
        row.push(COMMA);
        assert(row@ =~= join_fields(fields.take(2)));
        push_bytes(&mut row, render_u64(self.txn_index as u64, 10).as_slice());
        row.push(COMMA);
        assert(row@ =~= join_fields(fields.take(3)));
        push_bytes(&mut row, self.addr_from.as_str().as_bytes());
        row.push(COMMA);
        assert(row@ =~= join_fields(fields.take(4)));
        push_bytes(&mut row, self.addr_to.as_str().as_bytes());
        row.push(COMMA);
        assert(row@ =~= join_fields(fields.take(5)));
        push_bytes(&mut row, render_u64(self.gas_px, 10).as_slice());
        row.push(COMMA);
        assert(row@ =~= join_fields(fields.take(6)));
        let mut i: usize = 0;
        while i < INST_COUNT
            invariant
                i <= INST_COUNT,
                fields == self@.fields(),
                fields.len() == FIELD_COUNT,
                row@ == join_fields(fields.take(LEADING_FIELDS + 2 * i)),
            decreases INST_COUNT - i,
        {
            proof {
                lemma_join_take(fields, LEADING_FIELDS + 2 * i);
                lemma_join_take(fields, LEADING_FIELDS + 2 * i + 1);
                assert(fields[LEADING_FIELDS + 2 * i] == decimal(self.counts@[i as int] as nat));
                assert(fields[LEADING_FIELDS + 2 * i + 1] == decimal(self.gas@[i as int] as nat));
            }
            let ghost before = row@;
            push_bytes(&mut row, render_u64(self.counts[i], 10).as_slice());
            row.push(COMMA);
            assert(row@ =~= before + fields[LEADING_FIELDS + 2 * i] + seq![COMMA]);
            let ghost middle = row@;
            push_bytes(&mut row, render_u64(self.gas[i], 10).as_slice());
            row.push(COMMA);
            assert(row@ =~= middle + fields[LEADING_FIELDS + 2 * i + 1] + seq![COMMA]);
            i += 1;
        }
        assert(fields.take(FIELD_COUNT as int) =~= fields);
        row.push(NEWLINE);
        row
    }

    /// Read one line of a count file. `None` for anything but a row: the
    /// header, a line cut short, a field that is no number.
    pub fn parse_row(line: &[u8]) -> (record: Option<EvmTrace>)
        ensures
            match record {
                Some(r) => parsed_row(line@) == Some(r@),
                None => parsed_row(line@) is None,
            },
    {
        let end: usize = if line.len() > 0 && line[line.len() - 1] == NEWLINE {
            line.len() - 1
        } else {
            line.len()
        };
        let ghost body = line@.take(end as int);
        assert(body =~= line_body(line@));
        let ghost pieces = split_fields(body);
        let cuts = cut_fields(line, end);
        if cuts.len() != FIELD_COUNT + 1 {
            return None;
        }
        if cuts[FIELD_COUNT].0 != cuts[FIELD_COUNT].1 {
            assert(pieces.last().len() != 0);
            return None;
        }
        assert(pieces.last().len() == 0);
        let ts = match read_decimal(slice_subrange(line, cuts[0].0, cuts[0].1)) {
            Some(n) => n,
            None => {
                assert(canonical_decimal(pieces[0]) is None);
                return None;
            },
        };
        let block_num = match read_decimal(slice_subrange(line, cuts[1].0, cuts[1].1)) {
            Some(n) => n,
            None => {
                assert(canonical_decimal(pieces[1]) is None);
                return None;
            },
        };
        let txn_index = match read_decimal(slice_subrange(line, cuts[2].0, cuts[2].1)) {
            Some(n) => n,
            None => {
                assert(canonical_decimal(pieces[2]) is None);
                return None;
            },
        };
        if txn_index > u32::MAX as u64 {
            return None;
        }
        let addr_from = match utf8_str(slice_subrange(line, cuts[3].0, cuts[3].1)) {
            Some(text) => {
                proof {
                    vstd::utf8::encode_utf8_decode_utf8(text@);
                }
                text.to_owned()
            },
            None => {
                return None;
            },
        };
        let addr_to = match utf8_str(slice_subrange(line, cuts[4].0, cuts[4].1)) {
            Some(text) => {
                proof {
                    vstd::utf8::encode_utf8_decode_utf8(text@);
                }
                text.to_owned()
            },
            None => {
                return None;
            },
        };
        let gas_px = match read_decimal(slice_subrange(line, cuts[5].0, cuts[5].1)) {
            Some(n) => n,
            None => {
                assert(canonical_decimal(pieces[5]) is None);
                return None;
            },
        };
        let mut counts: [u64; INST_COUNT] = [0; INST_COUNT];
        let mut gas: [u64; INST_COUNT] = [0; INST_COUNT];
        let mut i: usize = 0;
        while i < INST_COUNT
            invariant
                i <= INST_COUNT,
                cuts.len() == FIELD_COUNT + 1,
                pieces == split_fields(body),
                cuts_match(line@, cuts@, pieces),
                parsed_row(line@) == row_from_fields(pieces),
                forall|j: int|
                    0 <= j < i ==> canonical_decimal(pieces[LEADING_FIELDS + 2 * j]) == Some(
                        #[trigger] counts[j],
                    ),
                forall|j: int|
                    0 <= j < i ==> canonical_decimal(pieces[LEADING_FIELDS + 2 * j + 1]) == Some(
                        #[trigger] gas[j],
                    ),
            decreases INST_COUNT - i,
        {
            let c = cuts[LEADING_FIELDS + 2 * i];
            let g = cuts[LEADING_FIELDS + 2 * i + 1];
            match read_decimal(slice_subrange(line, c.0, c.1)) {
                Some(n) => {
                    counts[i] = n;
                },
                None => {
                    assert(canonical_decimal(pieces[LEADING_FIELDS + 2 * i]) is None);
                    return None;
                },
            }
            match read_decimal(slice_subrange(line, g.0, g.1)) {
                Some(n) => {
                    gas[i] = n;
                },
                None => {
                    assert(canonical_decimal(pieces[LEADING_FIELDS + 2 * i + 1]) is None);
                    return None;
                },
            }
            i += 1;
        }
        let record = EvmTrace {
            ts,
            block_num,
            txn_index: txn_index as u32,
            addr_from,
            addr_to,
            gas_px,
            counts,
            gas,
        };
        proof {
            assert(numbers_in(pieces)) by {
                assert forall|k: int| 0 <= k < FIELD_COUNT && k != 3 && k != 4 implies (
                #[trigger] canonical_decimal(pieces[k])) is Some by {
                    if k >= LEADING_FIELDS {
                        let j = (k - LEADING_FIELDS) / 2;
                        if (k - LEADING_FIELDS) % 2 == 0 {
                            assert(canonical_decimal(pieces[LEADING_FIELDS + 2 * j]) == Some(
                                counts[j],
                            ));
                        } else {
                            assert(canonical_decimal(pieces[LEADING_FIELDS + 2 * j + 1]) == Some(
                                gas[j],
                            ));
                        }
                    }
                }
            }
            let expected = parsed_row(line@).unwrap();
            assert(record@.counts =~= expected.counts);
            assert(record@.gas =~= expected.gas);
        }
        Some(record)
    }

    /// The time that a line of a count file starts with.
    pub fn leading_timestamp(line: &[u8]) -> (ts: Option<u64>)
        ensures
            ts == leading_time(line@),
    {
        let cuts = cut_fields(line, line.len());
        assert(line@.take(line.len() as int) =~= line@);
        proof {
            lemma_split_nonempty(line@);
        }
        parse_u64(slice_subrange(line, cuts[0].0, cuts[0].1), 10)
    }
}

/// What is written for a transaction reads back as the row that was
/// written: the row of its counter, its parties and its block.
pub proof fn lemma_written_row_reads_back(tally: Tally, txn: TxnInfoView, block: BlockInfo)
    requires
        comma_free(encode_utf8(txn.from)),
        comma_free(encode_utf8(txn.to)),
    ensures
        parsed_row(record_of(tally, txn, block).row()) == Some(record_of(tally, txn, block)),
{
    lemma_row_round_trip(record_of(tally, txn, block));
}

} // verus!
