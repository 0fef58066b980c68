//! Collect EVM statistics: what the steps of a trace add to the counters,
//! and the catch-up over a range of blocks as the decisions between one
//! read from the node and the next.

use crate::csvfiles::{CountWrite, CountWriteView, OutFile, TraceOutFile};
use crate::error::{Failure, RunError};
use crate::evminst::{named, EvmInst};
use crate::evmtrace::record_of;
use crate::gethrpc::{
    answer_state, block_info_in, block_number_request, document, get_block_request,
    latest_block_in, received, trace_request, txn_info_in, txn_request, BlockInfo, GethRpc,
    ReadEvent, END_OF_RESPONSE,
};
use crate::instcount::{InstCount, Tally};
use crate::jsonval::{
    as_str, as_u64, is_empty, is_empty_of, item, item_of, len, len_of, member, member_of, members,
    members_of, text_of, u64_of,
};
use json::JsonValue;
use vstd::prelude::*;
use vstd::string::*;

verus! {

/// One step of a trace, as the node reports it: the name of the
/// instruction and what it cost, each of them possibly missing.
#[derive(Debug, Clone, PartialEq, Eq)]
pub struct TraceStep {
    pub op: Option<String>,
    pub gas_cost: Option<u64>,
}

/// A `TraceStep` as mathematics.
pub struct TraceStepView {
    pub op: Option<Seq<char>>,
    pub gas_cost: Option<u64>,
}

impl View for TraceStep {
    type V = TraceStepView;

    open spec fn view(&self) -> TraceStepView {
        TraceStepView {
            op: match self.op {
                Some(name) => Some(name@),
                None => None,
            },
            gas_cost: self.gas_cost,
        }
    }
}

/// The steps, each as mathematics.
pub open spec fn step_views(steps: Seq<TraceStep>) -> Seq<TraceStepView> {
    Seq::new(steps.len(), |i: int| steps[i]@)
}

/// The step that an entry of a transaction's log holds: the string under
/// `op` and the number under `gasCost`.
pub open spec fn step_in(entry: JsonValue) -> TraceStepView {
    TraceStepView {
        op: text_of(member_of(entry, "op"@)),
        gas_cost: u64_of(member_of(entry, "gasCost"@)),
    }
}

/// The steps that a transaction's log holds, in its order.
pub open spec fn steps_in(logs: JsonValue) -> Seq<TraceStepView> {
    Seq::new(members_of(logs).len(), |i: int| step_in(members_of(logs)[i]))
}

/// What a step stands for: an instruction and its cost. A step without a
/// name or a cost fails with `MissingFieldError` and the name of the
/// field; one whose name is no instruction fails with
/// `UnknownInstruction` and that name. The name is looked at first.
pub open spec fn decoded(step: TraceStepView) -> Result<(EvmInst, u64), Failure> {
    match step.op {
        None => Err(Failure::MissingFieldError("op"@)),
        Some(name) => match named(name) {
            None => Err(Failure::UnknownInstruction(name)),
            Some(op) => match step.gas_cost {
                None => Err(Failure::MissingFieldError("gasCost"@)),
                Some(gas) => Ok((op, gas)),
            },
        },
    }
}

/// Where counting stands: the counter of the transaction, the counter of
/// the run, and the failure that stopped the counting, if one did.
pub struct Counting {
    pub txn: Tally,
    pub total: Tally,
    pub fault: Option<Failure>,
}

impl Counting {
    /// Counting after one more step. Nothing is counted after a
    /// failure. A step that would take a number beyond 64 bits in either
    /// counter fails with `Overflow` and is not counted.
    pub open spec fn step(self, step: TraceStepView) -> Counting {
        if self.fault is Some {
            self
        } else {
            match decoded(step) {
                Err(e) => Counting { fault: Some(e), ..self },
                Ok((op, gas)) => if self.txn.admits(op, gas as nat) && self.total.admits(
                    op,
                    gas as nat,
                ) {
                    Counting {
                        txn: self.txn.recorded(op, gas as nat),
                        total: self.total.recorded(op, gas as nat),
                        fault: None,
                    }
                } else {
                    Counting { fault: Some(Failure::Overflow), ..self }
                },
            }
        }
    }

    /// Counting after each of the steps in turn.
    pub open spec fn steps(self, steps: Seq<TraceStepView>) -> Counting
        decreases steps.len(),
    {
        if steps.len() == 0 {
            self
        } else {
            self.steps(steps.drop_last()).step(steps.last())
        }
    }
}

/// The steps of a transaction, decoded, where each of them decodes.
pub open spec fn all_decoded(steps: Seq<TraceStepView>) -> Option<Seq<(EvmInst, u64)>>
    decreases steps.len(),
{
    if steps.len() == 0 {
        Some(Seq::empty())
    } else {
        match (all_decoded(steps.drop_last()), decoded(steps.last())) {
            (Some(before), Ok(step)) => Some(before.push(step)),
            _ => None,
        }
    }
}

/// Counting that did not fail has recorded every step: the counters hold
/// what `recorded_all` gives for the decoded steps.
pub proof fn lemma_counted_is_recorded(start: Counting, steps: Seq<TraceStepView>)
    requires
        start.fault is None,
        start.steps(steps).fault is None,
    ensures
        all_decoded(steps) is Some,
        start.steps(steps).txn == start.txn.recorded_all(all_decoded(steps).unwrap()),
        start.steps(steps).total == start.total.recorded_all(all_decoded(steps).unwrap()),
    decreases steps.len(),
{
    if steps.len() > 0 {
        let before = start.steps(steps.drop_last());
        lemma_counted_is_recorded(start, steps.drop_last());
        let list = all_decoded(steps.drop_last()).unwrap();
        let last = decoded(steps.last())->Ok_0;
        assert(list.push(last).drop_last() =~= list);
    }
}

/// Read the steps out of a transaction's log.
pub fn struct_logs(logs: &JsonValue) -> (steps: Vec<TraceStep>)
    ensures
        step_views(steps@) == steps_in(*logs),
{
    let entries = members(logs);
    let mut steps: Vec<TraceStep> = Vec::new();
    let mut i: usize = 0;
    while i < entries.len()
        invariant
            i <= entries.len(),
            entries@.len() == members_of(*logs).len(),
            forall|k: int|
                0 <= k < entries@.len() ==> *(#[trigger] entries@[k]) == members_of(*logs)[k],
            steps@.len() == i,
            forall|k: int| 0 <= k < i ==> (#[trigger] steps@[k])@ == step_in(members_of(*logs)[k]),
        decreases entries.len() - i,
    {
        let entry = entries[i];
        let op = match as_str(member(entry, "op")) {
            Some(name) => Some(name.to_owned()),
            None => None,
        };
        let gas_cost = as_u64(member(entry, "gasCost"));
        steps.push(TraceStep { op, gas_cost });
        i += 1;
    }
    assert(step_views(steps@) =~= steps_in(*logs));
    steps
}

/// Count the steps of one transaction into its counter and into the
/// counter of the run, in their order, up to the first step that fails.
pub fn count_instructions(
    steps: &Vec<TraceStep>,
    txn_count: &mut InstCount,
    total_count: &mut InstCount,
) -> (counted: Result<(), RunError>)
    ensures
        ({
            let end = (Counting {
                txn: old(txn_count)@,
                total: old(total_count)@,
                fault: None,
            }).steps(step_views(steps@));
            &&& final(txn_count)@ == end.txn
            &&& final(total_count)@ == end.total
            &&& match counted {
                Ok(_) => end.fault is None,
                Err(e) => end.fault == Some(e@),
            }
        }),
{
    let ghost start = Counting { txn: txn_count@, total: total_count@, fault: None };
    let ghost views = step_views(steps@);
    let mut i: usize = 0;
    assert(views.take(0) =~= Seq::<TraceStepView>::empty());
    while i < steps.len()
        invariant
            i <= steps.len(),
            views == step_views(steps@),
            start == (Counting { txn: old(txn_count)@, total: old(total_count)@, fault: None }),
            start.steps(views.take(i as int)) == (Counting {
                txn: txn_count@,
                total: total_count@,
                fault: None,
            }),
        decreases steps.len() - i,
    {
        let ghost before = start.steps(views.take(i as int));
        assert(views.take(i + 1).drop_last() =~= views.take(i as int));
        assert(views.take(i + 1).last() == steps@[i as int]@);
        let ghost after = before.step(steps@[i as int]@);
        assert(start.steps(views.take(i + 1)) == after);
        let fault: Option<RunError> = match &steps[i].op {
            None => Some(RunError::MissingFieldError("op".to_owned())),
            Some(name) => match EvmInst::parse(name.as_str()) {
                None => Some(RunError::UnknownInstruction(name.clone())),
                Some(op) => match steps[i].gas_cost {
                    None => Some(RunError::MissingFieldError("gasCost".to_owned())),
                    Some(gas) => {
                        if txn_count.can_record(op, gas) && total_count.can_record(op, gas) {
                            txn_count.record(op, gas);
                            total_count.record(op, gas);
                            None
                        } else {
                            Some(RunError::Overflow)
                        }
                    },
                },
            },
        };
        match fault {
            Some(e) => {
                assert(after.fault == Some(e@));
                assert(after.txn == txn_count@ && after.total == total_count@);
                proof {
                    lemma_fault_stays(after, views, i + 1);
                    assert(views.take(views.len() as int) =~= views);
                }
                return Err(e);
            },
            None => {},
        }
        i += 1;
    }
    assert(views.take(i as int) =~= views);
    Ok(())
}

/// After a failure the rest of the steps changes nothing.
pub proof fn lemma_fault_stays(failed: Counting, steps: Seq<TraceStepView>, n: int)
    requires
        0 <= n <= steps.len(),
        failed.fault is Some,
    ensures
        forall|start: Counting|
            #[trigger] start.steps(steps.take(n)) == failed ==> start.steps(steps) == failed,
    decreases steps.len() - n,
{
    if n == steps.len() {
        assert(steps.take(n) =~= steps);
    } else {
        lemma_fault_stays(failed, steps, n + 1);
        assert(steps.take(n + 1).drop_last() =~= steps.take(n));
        assert forall|start: Counting| #[trigger]
            start.steps(steps.take(n)) == failed implies start.steps(steps) == failed by {
            assert(start.steps(steps.take(n + 1)) == failed);
        }
    }
}

/// Where a catch-up stands between two reads.
pub enum Phase {
    /// Nothing is asked of the node.
    Idle,
    /// The number of the latest block is asked for.
    Latest,
    /// The header of `block` is asked for.
    Block { block: u64, target: u64 },
    /// The trace of `block` is asked for.
    Trace { block: u64, target: u64, info: BlockInfo },
    /// Transaction `index` of `block` is asked for; `doc` is the answer
    /// that holds the trace of the block.
    Txn { block: u64, target: u64, info: BlockInfo, doc: JsonValue, index: u32 },
}

/// What the owner of the stream does next.
#[derive(Debug, Clone, PartialEq, Eq)]
pub enum Action {
    /// Write these bytes to the node, then read.
    Send(Vec<u8>),
    /// Read again: the answer is not whole yet.
    Read,
    /// Nothing: the catch-up is complete.
    Done,
}

/// An `Action` as mathematics.
pub enum ActionView {
    Send(Seq<u8>),
    Read,
    Done,
}

impl View for Action {
    type V = ActionView;

    open spec fn view(&self) -> ActionView {
        match self {
            Action::Send(request) => ActionView::Send(request@),
            Action::Read => ActionView::Read,
            Action::Done => ActionView::Done,
        }
    }
}

/// What one read led to: a row to write, if a transaction was completed,
/// and what to do next. The row is written before anything else is done.
#[derive(Debug, Clone, PartialEq, Eq)]
pub struct Turn {
    pub write: Option<CountWrite>,
    pub action: Action,
}

/// A `Turn` as mathematics.
pub struct TurnView {
    pub write: Option<CountWriteView>,
    pub action: ActionView,
}

impl View for Turn {
    type V = TurnView;

    open spec fn view(&self) -> TurnView {
        TurnView {
            write: match self.write {
                Some(w) => Some(w@),
                None => None,
            },
            action: self.action@,
        }
    }
}

/// The outcome of a read, as mathematics.
pub open spec fn turn_outcome(turn: Result<Turn, RunError>) -> Result<TurnView, Failure> {
    match turn {
        Ok(t) => Ok(t@),
        Err(e) => Err(e@),
    }
}

/// A turn that writes nothing.
pub open spec fn quiet(action: ActionView) -> Result<TurnView, Failure> {
    Ok(TurnView { write: None, action })
}

/// The log of transaction `index` in the trace of a block.
pub open spec fn logs_at(trace: JsonValue, index: usize) -> JsonValue {
    member_of(member_of(item_of(trace, index), "result"@), "structLogs"@)
}

/// The first transaction at or after `from` whose log is not empty; the
/// length of the trace where there is none.
pub open spec fn next_traced(trace: JsonValue, from: usize) -> usize
    decreases len_of(trace) - from,
{
    if from >= len_of(trace) {
        len_of(trace)
    } else if !is_empty_of(logs_at(trace, from)) {
        from
    } else {
        next_traced(trace, (from + 1) as usize)
    }
}

/// A collector as mathematics: what has arrived of the answer awaited,
/// the cursor, the counters, the totals of the rows written, and the phase.
pub struct Collector {
    pub received: Seq<u8>,
    pub current_block: u64,
    pub txn_count: Tally,
    pub total_count: Tally,
    pub out_file: TraceOutFile,
    pub phase: Phase,
}

impl Collector {
    /// Ask for the header of `block`.
    pub open spec fn ask_block(self, block: u64, target: u64) -> (Collector, ActionView) {
        (
            Collector { received: Seq::empty(), phase: Phase::Block { block, target }, ..self },
            ActionView::Send(get_block_request(block)),
        )
    }

    /// Start to catch up to `target`: nothing to do where the cursor has
    /// reached it; else the blocks from the cursor to `target`, both
    /// included, are gone through, the cursor's own first.
    pub open spec fn begin(self, target: u64) -> (Collector, ActionView) {
        if self.current_block >= target {
            (Collector { phase: Phase::Idle, ..self }, ActionView::Done)
        } else {
            self.ask_block(self.current_block, target)
        }
    }

    /// `block` is through: the cursor moves to it, and the next block is
    /// asked for unless `block` was the last.
    pub open spec fn end_block(self, block: u64, target: u64) -> (Collector, ActionView) {
        let moved = Collector { current_block: block, ..self };
        if block < target {
            moved.ask_block((block + 1) as u64, target)
        } else {
            (Collector { phase: Phase::Idle, ..moved }, ActionView::Done)
        }
    }

    /// Go on with the first transaction at or after `from` that has steps:
    /// ask the node for it. Where there is none the block is through. A
    /// transaction whose index is beyond `u32` fails with `Overflow` and
    /// ends the catch-up.
    pub open spec fn seek(
        self,
        doc: JsonValue,
        block: u64,
        target: u64,
        info: BlockInfo,
        from: usize,
    ) -> (Collector, Result<ActionView, Failure>) {
        let trace = member_of(doc, "result"@);
        let index = next_traced(trace, from);
        if index >= len_of(trace) {
            let (next, action) = self.end_block(block, target);
            (next, Ok(action))
        } else if index > u32::MAX {
            (Collector { phase: Phase::Idle, ..self }, Err(Failure::Overflow))
        } else {
            (
                Collector {
                    received: Seq::empty(),
                    phase: Phase::Txn { block, target, info, doc, index: index as u32 },
                    ..self
                },
                Ok(ActionView::Send(txn_request(block, index as u32))),
            )
        }
    }

    /// The answer to the question for a transaction has arrived: its
    /// steps are counted into a cleared counter and into the counter of the
    /// run, its row is accounted for and handed out, and the next
    /// transaction is looked for.
    pub open spec fn txn_answered(
        self,
        block: u64,
        target: u64,
        info: BlockInfo,
        doc: JsonValue,
        index: u32,
    ) -> (Collector, Result<TurnView, Failure>) {
        match document(self.received) {
            None => (self, Err(Failure::ParseError(self.received))),
            Some(answer) => {
                let txn = txn_info_in(answer, block, index);
                let logs = logs_at(member_of(doc, "result"@), index as usize);
                let counted = (Counting {
                    txn: Tally::empty(),
                    total: self.total_count,
                    fault: None,
                }).steps(steps_in(logs));
                let after_count = Collector {
                    txn_count: counted.txn,
                    total_count: counted.total,
                    ..self
                };
                let record = record_of(counted.txn, txn, info);
                if counted.fault is Some {
                    (after_count, Err(counted.fault.unwrap()))
                } else if !self.out_file.admits(record) {
                    (after_count, Err(Failure::Overflow))
                } else {
                    let written = Collector {
                        out_file: self.out_file.after(record),
                        ..after_count
                    };
                    let (next, action) = if index as usize == usize::MAX {
                        let (next, action) = written.end_block(block, target);
                        (next, Ok::<ActionView, Failure>(action))
                    } else {
                        written.seek(doc, block, target, info, (index + 1) as usize)
                    };
                    match action {
                        Err(e) => (next, Err(e)),
                        Ok(a) => (
                            next,
                            Ok(TurnView { write: Some(self.out_file.hands_out(record)), action: a }),
                        ),
                    }
                }
            },
        }
    }

    /// A whole answer has arrived. What it answers is known from the phase.
    /// An answer that is no JSON fails with `ParseError` and changes
    /// nothing; so does, with `NoUpstreamBlock`, an answer that does not
    /// name the latest block. A block whose trace is empty is through at
    /// once.
    pub open spec fn answered(self) -> (Collector, Result<TurnView, Failure>) {
        match self.phase {
            Phase::Idle => (self, quiet(ActionView::Done)),
            Phase::Latest => match document(self.received) {
                None => (self, Err(Failure::NoUpstreamBlock)),
                Some(answer) => match latest_block_in(answer) {
                    None => (self, Err(Failure::NoUpstreamBlock)),
                    Some(target) => (self.begin(target).0, quiet(self.begin(target).1)),
                },
            },
            Phase::Block { block, target } => match document(self.received) {
                None => (self, Err(Failure::ParseError(self.received))),
                Some(answer) => (
                    Collector {
                        received: Seq::empty(),
                        phase: Phase::Trace {
                            block,
                            target,
                            info: block_info_in(answer, block),
                        },
                        ..self
                    },
                    quiet(ActionView::Send(crate::gethrpc::trace_request(block))),
                ),
            },
            Phase::Trace { block, target, info } => match document(self.received) {
                None => (self, Err(Failure::ParseError(self.received))),
                Some(doc) => if is_empty_of(member_of(doc, "result"@)) {
                    (self.end_block(block, target).0, quiet(self.end_block(block, target).1))
                } else {
                    let (next, action) = self.seek(doc, block, target, info, 0);
                    match action {
                        Err(e) => (next, Err(e)),
                        Ok(a) => (next, quiet(a)),
                    }
                },
            },
            Phase::Txn { block, target, info, doc, index } => self.txn_answered(
                block,
                target,
                info,
                doc,
                index,
            ),
        }
    }

    /// A whole answer has arrived behind what had arrived before.
    pub open spec fn answer_arrived(self, answer: Seq<u8>) -> (Collector, Result<TurnView, Failure>) {
        (Collector { received: self.received + answer, ..self }).answered()
    }

    /// The collector after whole answers have arrived one after the other.
    pub open spec fn after_answers(self, answers: Seq<Seq<u8>>) -> Collector
        decreases answers.len(),
    {
        if answers.len() == 0 {
            self
        } else {
            self.after_answers(answers.drop_last()).answer_arrived(answers.last()).0
        }
    }

    /// What answer `k` of a run of whole answers led to.
    pub open spec fn turn_at(self, answers: Seq<Seq<u8>>, k: int) -> Result<TurnView, Failure> {
        self.after_answers(answers.take(k)).answer_arrived(answers[k]).1
    }

    /// One read has come back. While nothing is asked of the node it is
    /// ignored. Else the bytes are taken in; a failed read, or a stream
    /// that was closed, ends the run; a timeout and an answer that is not
    /// whole yet lead to another read; a whole answer is dealt with.
    pub open spec fn handled(self, event: ReadEvent<'_>) -> (Collector, Result<TurnView, Failure>) {
        if self.phase is Idle {
            (self, quiet(ActionView::Done))
        } else {
            let taken = Collector { received: received(self.received, event), ..self };
            match answer_state(event) {
                Err(e) => (taken, Err(e)),
                Ok(whole) => if whole {
                    taken.answered()
                } else {
                    (taken, quiet(ActionView::Read))
                },
            }
        }
    }
}

/// Collect EVM statistics: catch up over blocks, count the instructions
/// of each transaction, and account for the rows.
pub struct EvmExtract {
    rpc: GethRpc,
    current_block: u64,
    txn_count: InstCount,
    total_count: InstCount,
    out_file: TraceOutFile,
    phase: Phase,
}

impl View for EvmExtract {
    type V = Collector;

    closed spec fn view(&self) -> Collector {
        Collector {
            received: self.rpc@,
            current_block: self.current_block,
            txn_count: self.txn_count@,
            total_count: self.total_count@,
            out_file: self.out_file,
            phase: self.phase,
        }
    }
}

impl EvmExtract {
    /// A collector whose cursor stands at `starting_block`, and the first
    /// count file of the run.
    pub fn new(starting_block: u64) -> (start: (EvmExtract, OutFile))
        ensures
            start.0@ == (Collector {
                received: Seq::empty(),
                current_block: starting_block,
                txn_count: Tally::empty(),
                total_count: Tally::empty(),
                out_file: TraceOutFile::fresh(),
                phase: Phase::Idle,
            }),
            start.1@ == crate::csvfiles::out_file(starting_block),
    {
        let (out_file, first) = TraceOutFile::new(starting_block);
        (
            EvmExtract {
                rpc: GethRpc::new(),
                current_block: starting_block,
                txn_count: InstCount::new(),
                total_count: InstCount::new(),
                out_file,
                phase: Phase::Idle,
            },
            first,
        )
    }

    /// The block that was gone through last; the starting block before any.
    pub fn current_block(&self) -> (block: u64)
        ensures
            block == self@.current_block,
    {
        self.current_block
    }

    /// The totals of the rows handed out so far.
    pub fn out_file(&self) -> (totals: TraceOutFile)
        ensures
            totals == self@.out_file,
    {
        self.out_file
    }

    /// The counter of the run.
    pub fn total_count(&self) -> (counter: &InstCount)
        ensures
            counter@ == self@.total_count,
    {
        &self.total_count
    }

    /// The counter of the transaction counted last.
    pub fn txn_count(&self) -> (counter: &InstCount)
        ensures
            counter@ == self@.txn_count,
    {
        &self.txn_count
    }

    /// Whether nothing is asked of the node.
    pub fn is_idle(&self) -> (idle: bool)
        ensures
            idle == (self@.phase is Idle),
    {
        match self.phase {
            Phase::Idle => true,
            _ => false,
        }
    }

    fn ask_block(&mut self, block: u64, target: u64) -> (action: Action)
        ensures
            (final(self)@, action@) == old(self)@.ask_block(block, target),
    {
        self.rpc.begin_response();
        self.phase = Phase::Block { block, target };
        Action::Send(GethRpc::get_block(block))
    }

    /// Catch up to `target_block`. Nothing happens where the cursor has
    /// reached it. An exchange that was under way is given up.
    pub fn catchup(&mut self, target_block: u64) -> (action: Action)
        ensures
            (final(self)@, action@) == old(self)@.begin(target_block),
    {
        if self.current_block >= target_block {
            self.phase = Phase::Idle;
            Action::Done
        } else {
            self.ask_block(self.current_block, target_block)
        }
    }

    /// Catch up to the latest block of the node: ask the node for its
    /// number. The answer starts the catch-up; without that number the run
    /// fails with `NoUpstreamBlock`.
    pub fn catchup_latest(&mut self) -> (action: Action)
        ensures
            final(self)@ == (Collector {
                received: Seq::empty(),
                phase: Phase::Latest,
                ..old(self)@
            }),
            action@ == ActionView::Send(block_number_request()),
    {
        self.rpc.begin_response();
        self.phase = Phase::Latest;
        Action::Send(GethRpc::block_number())
    }

    fn end_block(&mut self, block: u64, target: u64) -> (action: Action)
        ensures
            (final(self)@, action@) == old(self)@.end_block(block, target),
    {
        self.current_block = block;
        if block < target {
            self.ask_block(block + 1, target)
        } else {
            self.phase = Phase::Idle;
            Action::Done
        }
    }

    fn seek(&mut self, doc: JsonValue, block: u64, target: u64, info: BlockInfo, from: usize) -> (action:
        Result<Action, RunError>)
        ensures
            final(self)@ == old(self)@.seek(doc, block, target, info, from).0,
            (match action {
                Ok(a) => Ok::<ActionView, Failure>(a@),
                Err(e) => Err(e@),
            }) == old(self)@.seek(doc, block, target, info, from).1,
    {
        let trace = member(&doc, "result");
        let count = len(trace);
        let mut index: usize = from;
        let mut found = false;
        while index < count && !found
            invariant
                count == len_of(*trace),
                next_traced(*trace, from) == next_traced(*trace, index),
                found ==> index < count && !is_empty_of(logs_at(*trace, index)),
            decreases
                    count - index,
                    (if found {
                        0int
                    } else {
                        1int
                    }),
        {
            let logs = member(member(item(trace, index), "result"), "structLogs");
            if !is_empty(logs) {
                found = true;
            } else {
                index += 1;
            }
        }
        assert(next_traced(*trace, from) == if index >= count {
            count
        } else {
            index
        });
        if index >= count {
            Ok(self.end_block(block, target))
        } else if index > u32::MAX as usize {
            self.phase = Phase::Idle;
            Err(RunError::Overflow)
        } else {
            let request = GethRpc::txn_by_block_idx(block, index as u32);
            self.rpc.begin_response();
            self.phase = Phase::Txn { block, target, info, doc, index: index as u32 };
            Ok(Action::Send(request))
        }
    }

    fn txn_answered(&mut self, block: u64, target: u64, info: BlockInfo, doc: JsonValue, index: u32) -> (turn:
        Result<Turn, RunError>)
        ensures
            (final(self)@, turn_outcome(turn)) == (Collector {
                phase: Phase::Txn { block, target, info, doc, index },
                ..old(self)@
            }).txn_answered(block, target, info, doc, index),
    {
        let txn_info = match self.rpc.txn_info(block, index) {
            Ok(t) => t,
            Err(e) => {
                self.phase = Phase::Txn { block, target, info, doc, index };
                return Err(e);
            },
        };
        let steps = struct_logs(
            member(member(item(member(&doc, "result"), index as usize), "result"), "structLogs"),
        );
        self.txn_count.clear();
        match count_instructions(&steps, &mut self.txn_count, &mut self.total_count) {
            Ok(_) => {},
            Err(e) => {
                self.phase = Phase::Txn { block, target, info, doc, index };
                return Err(e);
            },
        }
        let write = match self.out_file.write_count(&self.txn_count, &txn_info, &info) {
            Ok(w) => w,
            Err(e) => {
                self.phase = Phase::Txn { block, target, info, doc, index };
                return Err(e);
            },
        };
        let action = if index as usize == usize::MAX {
            Ok(self.end_block(block, target))
        } else {
            self.seek(doc, block, target, info, index as usize + 1)
        };
        match action {
            Ok(a) => Ok(Turn { write: Some(write), action: a }),
            Err(e) => Err(e),
        }
    }

    fn answered(&mut self) -> (turn: Result<Turn, RunError>)
        ensures
            (final(self)@, turn_outcome(turn)) == old(self)@.answered(),
    {
        let mut phase = Phase::Idle;
        std::mem::swap(&mut self.phase, &mut phase);
        match phase {
            Phase::Idle => Ok(Turn { write: None, action: Action::Done }),
            Phase::Latest => {
                match self.rpc.get_latest_block() {
                    Some(target) => Ok(Turn { write: None, action: self.catchup(target) }),
                    None => {
                        self.phase = Phase::Latest;
                        Err(RunError::NoUpstreamBlock)
                    },
                }
            },
            Phase::Block { block, target } => {
                match self.rpc.block_info(block) {
                    Ok(info) => {
                        self.rpc.begin_response();
                        self.phase = Phase::Trace { block, target, info };
                        Ok(
                            Turn {
                                write: None,
                                action: Action::Send(GethRpc::trace_block_request(block)),
                            },
                        )
                    },
                    Err(e) => {
                        self.phase = Phase::Block { block, target };
                        Err(e)
                    },
                }
            },
            Phase::Trace { block, target, info } => {
                match self.rpc.trace_block() {
                    Ok(doc) => {
                        let action = if is_empty(member(&doc, "result")) {
                            Ok(self.end_block(block, target))
                        } else {
                            self.seek(doc, block, target, info, 0)
                        };
                        match action {
                            Ok(a) => Ok(Turn { write: None, action: a }),
                            Err(e) => Err(e),
                        }
                    },
                    Err(e) => {
                        self.phase = Phase::Trace { block, target, info };
                        Err(e)
                    },
                }
            },
            Phase::Txn { block, target, info, doc, index } => self.txn_answered(
                block,
                target,
                info,
                doc,
                index,
            ),
        }
    }

    /// Take in the outcome of one read and say what to do next.
    pub fn handle(&mut self, event: ReadEvent<'_>) -> (turn: Result<Turn, RunError>)
        ensures
            (final(self)@, turn_outcome(turn)) == old(self)@.handled(event),
    {
        if self.is_idle() {
            return Ok(Turn { write: None, action: Action::Done });
        }
        match self.rpc.consume_response(event) {
            Err(e) => Err(e),
            Ok(whole) => {
                if whole {
                    self.answered()
                } else {
                    Ok(Turn { write: None, action: Action::Read })
                }
            },
        }
    }
}

/// An answer that holds a trace without entries.
pub open spec fn empty_trace(answer: Seq<u8>) -> bool {
    document(answer) matches Some(doc) && is_empty_of(member_of(doc, "result"@))
}

/// A read that brings a whole answer at once is dealt with as that answer.
pub proof fn lemma_whole_answer(c: Collector, event: ReadEvent<'_>)
    requires
        !(c.phase is Idle),
        event matches ReadEvent::Data(chunk) && chunk@.len() > 0 && chunk@.last()
            == END_OF_RESPONSE,
    ensures
        event matches ReadEvent::Data(chunk) && c.handled(event) == c.answer_arrived(chunk@),
{
}

/// A block whose trace is empty moves the cursor to that block, hands out
/// no row and leaves the counters and the totals of the rows as they were.
pub proof fn lemma_empty_trace_block(c: Collector, block: u64, target: u64, info: BlockInfo)
    requires
        c.phase == (Phase::Trace { block, target, info }),
        document(c.received) matches Some(doc) && is_empty_of(member_of(doc, "result"@)),
    ensures
        c.answered().0.current_block == block,
        c.answered().0.out_file == c.out_file,
        c.answered().0.txn_count == c.txn_count,
        c.answered().0.total_count == c.total_count,
        c.answered().1 matches Ok(turn) && turn.write is None,
{
}

/// Where a catch-up over blocks without transactions stands after `n`
/// answers, a header and a trace for each block in turn: which block is
/// asked for, where the cursor is, and that nothing else has changed.
pub open spec fn empty_blocks_state(
    c: Collector,
    block: u64,
    target: u64,
    answers: Seq<Seq<u8>>,
    n: int,
) -> Collector {
    let cursor = if n < 2 {
        c.current_block
    } else {
        (block + n / 2 - 1) as u64
    };
    let at = (block + n / 2) as u64;
    Collector {
        received: if n == answers.len() {
            answers[n - 1]
        } else {
            Seq::empty()
        },
        current_block: cursor,
        phase: if n == answers.len() {
            Phase::Idle
        } else if n % 2 == 0 {
            Phase::Block { block: at, target }
        } else {
            Phase::Trace {
                block: at,
                target,
                info: block_info_in(document(answers[n - 1]).unwrap(), at),
            }
        },
        ..c
    }
}

/// What answer `k` of such a catch-up leads to: after a header the trace
/// of the block is asked for, after a trace the header of the next block,
/// and after the last trace nothing. No row is written and no transaction
/// is asked for.
pub open spec fn empty_blocks_turn(block: u64, answers: Seq<Seq<u8>>, k: int) -> Result<
    TurnView,
    Failure,
> {
    if k % 2 == 0 {
        quiet(ActionView::Send(trace_request((block + k / 2) as u64)))
    } else if k + 1 == answers.len() {
        quiet(ActionView::Done)
    } else {
        quiet(ActionView::Send(get_block_request((block + k / 2 + 1) as u64)))
    }
}

/// A header that arrives whole leads to the question for the trace.
pub proof fn lemma_header_answered(s: Collector, block: u64, target: u64, answer: Seq<u8>)
    requires
        s.phase == (Phase::Block { block, target }),
        s.received.len() == 0,
        document(answer) is Some,
    ensures
        s.answer_arrived(answer).0 == (Collector {
            received: Seq::empty(),
            phase: Phase::Trace {
                block,
                target,
                info: block_info_in(document(answer).unwrap(), block),
            },
            ..s
        }),
        s.answer_arrived(answer).1 == quiet(ActionView::Send(trace_request(block))),
{
    assert(s.received + answer =~= answer);
}

/// A trace without entries that arrives whole ends its block: the cursor
/// moves there, and the next block is asked for unless it was the last.
pub proof fn lemma_empty_trace_answered(
    s: Collector,
    block: u64,
    target: u64,
    info: BlockInfo,
    answer: Seq<u8>,
)
    requires
        s.phase == (Phase::Trace { block, target, info }),
        s.received.len() == 0,
        empty_trace(answer),
    ensures
        s.answer_arrived(answer).0 == (Collector {
            received: if block < target {
                Seq::empty()
            } else {
                answer
            },
            current_block: block,
            phase: if block < target {
                Phase::Block { block: (block + 1) as u64, target }
            } else {
                Phase::Idle
            },
            ..s
        }),
        s.answer_arrived(answer).1 == quiet(
            if block < target {
                ActionView::Send(get_block_request((block + 1) as u64))
            } else {
                ActionView::Done
            },
        ),
{
    assert(s.received + answer =~= answer);
}

/// The step of the law below: the state after `n` answers.
pub proof fn lemma_empty_blocks_step(
    c: Collector,
    block: u64,
    target: u64,
    answers: Seq<Seq<u8>>,
    n: int,
)
    requires
        c.phase == (Phase::Block { block, target }),
        c.received.len() == 0,
        block <= target,
        answers.len() == 2 * (target - block + 1),
        forall|k: int| 0 <= k < answers.len() ==> document(#[trigger] answers[k]) is Some,
        forall|k: int| 0 <= k < answers.len() && k % 2 == 1 ==> empty_trace(#[trigger] answers[k]),
        0 <= n <= answers.len(),
    ensures
        c.after_answers(answers.take(n)) == empty_blocks_state(c, block, target, answers, n),
        n > 0 ==> c.turn_at(answers, n - 1) == empty_blocks_turn(block, answers, n - 1),
    decreases n,
{
    if n == 0 {
        assert(answers.take(0) =~= Seq::<Seq<u8>>::empty());
        assert(c.received =~= Seq::<u8>::empty());
    } else {
        let m = n - 1;
        lemma_empty_blocks_step(c, block, target, answers, m);
        let before = empty_blocks_state(c, block, target, answers, m);
        let answer = answers[m];
        assert(answers.take(n).drop_last() =~= answers.take(m));
        assert(answers.take(n).last() == answer);
        assert(c.after_answers(answers.take(n)) == before.answer_arrived(answer).0);
        assert(c.turn_at(answers, m) == before.answer_arrived(answer).1);
        assert(document(answer) is Some);
        let at = (block + m / 2) as u64;
        assert(m < answers.len());
        assert(block + m / 2 <= target);
        if m % 2 == 0 {
            assert(n / 2 == m / 2);
            assert(n % 2 == 1);
            assert(before.phase == (Phase::Block { block: at, target }));
            lemma_header_answered(before, at, target, answer);
        } else {
            assert(n / 2 == m / 2 + 1);
            assert(n % 2 == 0);
            assert(empty_trace(answer));
            let info = block_info_in(document(answers[m - 1]).unwrap(), at);
            assert(before.phase == (Phase::Trace { block: at, target, info }));
            lemma_empty_trace_answered(before, at, target, info, answer);
            if n == answers.len() {
                assert(at == target);
            } else {
                assert(at < target);
            }
        }
    }
}

/// A catch-up over blocks none of which has a transaction, whatever their
/// number: the cursor ends at the target, every block on the way is asked
/// for in turn, no row is written, no transaction is asked for, and the
/// counters and the totals of the rows are as they were.
pub proof fn lemma_empty_blocks(c: Collector, target: u64, answers: Seq<Seq<u8>>)
    requires
        c.current_block < target,
        answers.len() == 2 * (target - c.current_block + 1),
        forall|k: int| 0 <= k < answers.len() ==> document(#[trigger] answers[k]) is Some,
        forall|k: int| 0 <= k < answers.len() && k % 2 == 1 ==> empty_trace(#[trigger] answers[k]),
    ensures
        c.begin(target).1 == ActionView::Send(get_block_request(c.current_block)),
        c.begin(target).0.after_answers(answers).current_block == target,
        c.begin(target).0.after_answers(answers).phase is Idle,
        c.begin(target).0.after_answers(answers).out_file == c.out_file,
        c.begin(target).0.after_answers(answers).txn_count == c.txn_count,
        c.begin(target).0.after_answers(answers).total_count == c.total_count,
        forall|k: int|
            0 <= k < answers.len() ==> #[trigger] c.begin(target).0.turn_at(answers, k)
                == empty_blocks_turn(c.current_block, answers, k),
        forall|k: int|
            0 <= k < answers.len() ==> (#[trigger] empty_blocks_turn(c.current_block, answers, k)
                matches Ok(turn) && turn.write is None),
{
    let start = c.begin(target).0;
    assert(start.received =~= Seq::<u8>::empty());
    lemma_empty_blocks_step(start, c.current_block, target, answers, answers.len() as int);
    assert(answers.take(answers.len() as int) =~= answers);
    assert forall|k: int| 0 <= k < answers.len() implies #[trigger] start.turn_at(answers, k)
        == empty_blocks_turn(c.current_block, answers, k) by {
        lemma_empty_blocks_step(start, c.current_block, target, answers, k + 1);
    }
}

/// Catching up to a block that the cursor has reached does nothing.
pub proof fn lemma_caught_up(c: Collector, target: u64)
    requires
        c.current_block >= target,
    ensures
        c.begin(target).1 == ActionView::Done,
        c.begin(target).0 == (Collector { phase: Phase::Idle, ..c }),
{
}

} // verus!
