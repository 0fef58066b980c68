//! Counts of EVM instructions and of the gas that they consumed.

use crate::evminst::{as_str, lemma_values_distinct, lemma_values_complete, EvmInst, INST_COUNT, VALUES};
use crate::util::{decimal_string, decimal_text};
use vstd::string::*;
use vstd::prelude::*;

verus! {

/// What a counter holds, as mathematics: for each instruction, by its
/// ordinal, how often it ran and what gas it took, and the gas of all.
pub struct Tally {
    pub counts: Seq<nat>,
    pub gas: Seq<nat>,
    pub total: nat,
}

impl Tally {
    /// The tally in which nothing has been recorded.
    pub open spec fn empty() -> Tally {
        Tally {
            counts: Seq::new(INST_COUNT as nat, |i: int| 0nat),
            gas: Seq::new(INST_COUNT as nat, |i: int| 0nat),
            total: 0,
        }
    }

    /// One slot per instruction, and every number within `u64`.
    pub open spec fn well_formed(self) -> bool {
        &&& self.counts.len() == INST_COUNT
        &&& self.gas.len() == INST_COUNT
        &&& forall|i: int| 0 <= i < INST_COUNT ==> #[trigger] self.counts[i] <= u64::MAX
        &&& forall|i: int| 0 <= i < INST_COUNT ==> #[trigger] self.gas[i] <= u64::MAX
        &&& self.total <= u64::MAX
    }

    /// How often `op` ran.
    pub open spec fn count_of(self, op: EvmInst) -> nat {
        self.counts[op.spec_ordinal()]
    }

    /// The gas that the runs of `op` took.
    pub open spec fn gas_of(self, op: EvmInst) -> nat {
        self.gas[op.spec_ordinal()]
    }

    /// The tally after one more run of `op`.
    pub open spec fn counted(self, op: EvmInst) -> Tally {
        Tally { counts: self.counts.update(op.spec_ordinal(), self.count_of(op) + 1), ..self }
    }

    /// The tally after `op` took `gas_used` more gas.
    pub open spec fn charged(self, op: EvmInst, gas_used: nat) -> Tally {
        Tally {
            gas: self.gas.update(op.spec_ordinal(), self.gas_of(op) + gas_used),
            total: self.total + gas_used,
            ..self
        }
    }

    /// The tally after one run of `op` that took `gas_cost`.
    pub open spec fn recorded(self, op: EvmInst, gas_cost: nat) -> Tally {
        self.counted(op).charged(op, gas_cost)
    }

    /// The tally after each of `steps` in turn.
    pub open spec fn recorded_all(self, steps: Seq<(EvmInst, u64)>) -> Tally
        decreases steps.len(),
    {
        if steps.len() == 0 {
            self
        } else {
            self.recorded_all(steps.drop_last()).recorded(steps.last().0, steps.last().1 as nat)
        }
    }

    /// Whether the total is the sum of the gas of the instructions. Every
    /// counter is balanced: gas is never charged to one without the other.
    pub open spec fn balanced(self) -> bool {
        self.total == gas_sum(self.gas)
    }

    /// Whether one more run of `op` at `gas_cost` keeps every number within `u64`.
    pub open spec fn admits(self, op: EvmInst, gas_cost: nat) -> bool {
        &&& self.count_of(op) < u64::MAX
        &&& self.gas_of(op) + gas_cost <= u64::MAX
        &&& self.total + gas_cost <= u64::MAX
    }
}

/// The sum of the gas of all instructions.
pub open spec fn gas_sum(gas: Seq<nat>) -> nat
    decreases gas.len(),
{
    if gas.len() == 0 {
        0
    } else {
        gas_sum(gas.drop_last()) + gas.last()
    }
}

/// Changing the gas of one instruction changes the sum by as much.
pub proof fn lemma_gas_sum_update(gas: Seq<nat>, i: int, value: nat)
    requires
        0 <= i < gas.len(),
    ensures
        gas_sum(gas.update(i, value)) + gas[i] == gas_sum(gas) + value,
        gas[i] <= gas_sum(gas),
    decreases gas.len(),
{
    let changed = gas.update(i, value);
    if i == gas.len() - 1 {
        assert(changed.drop_last() =~= gas.drop_last());
    } else {
        lemma_gas_sum_update(gas.drop_last(), i, value);
        assert(changed.drop_last() =~= gas.drop_last().update(i, value));
    }
}

/// Where no instruction took gas the sum is zero.
pub proof fn lemma_gas_sum_zero(gas: Seq<nat>)
    requires
        forall|i: int| 0 <= i < gas.len() ==> #[trigger] gas[i] == 0,
    ensures
        gas_sum(gas) == 0,
    decreases gas.len(),
{
    if gas.len() > 0 {
        lemma_gas_sum_zero(gas.drop_last());
    }
}

/// The empty tally is balanced, and counting, charging and recording keep
/// a tally balanced. In a balanced tally no instruction holds more gas
/// than the total.
pub proof fn lemma_balanced(tally: Tally, op: EvmInst, gas_cost: nat)
    requires
        tally.gas.len() == INST_COUNT,
        tally.balanced(),
    ensures
        Tally::empty().balanced(),
        tally.counted(op).balanced(),
        tally.charged(op, gas_cost).balanced(),
        tally.recorded(op, gas_cost).balanced(),
        tally.gas_of(op) <= tally.total,
{
    lemma_values_complete(op);
    lemma_gas_sum_zero(Tally::empty().gas);
    lemma_gas_sum_update(tally.gas, op.spec_ordinal(), tally.gas_of(op) + gas_cost);
}

/// Whatever is recorded into an empty counter, the total is the sum of
/// the gas of the instructions, and an instruction that never ran holds no
/// gas.
pub proof fn lemma_recorded_all_balanced(steps: Seq<(EvmInst, u64)>)
    ensures
        Tally::empty().recorded_all(steps).counts.len() == INST_COUNT,
        Tally::empty().recorded_all(steps).gas.len() == INST_COUNT,
        Tally::empty().recorded_all(steps).balanced(),
        forall|i: int|
            0 <= i < INST_COUNT && #[trigger] Tally::empty().recorded_all(steps).counts[i] == 0
                ==> Tally::empty().recorded_all(steps).gas[i] == 0,
    decreases steps.len(),
{
    if steps.len() == 0 {
        lemma_gas_sum_zero(Tally::empty().gas);
    } else {
        let before = Tally::empty().recorded_all(steps.drop_last());
        lemma_recorded_all_balanced(steps.drop_last());
        lemma_balanced(before, steps.last().0, steps.last().1 as nat);
    }
}

/// The counts in words, up to ordinal `n`: for every instruction that ran,
/// in the order of `VALUES`, its name, a colon, its count, its gas in
/// round brackets, a comma and a blank.
pub open spec fn pretty_upto(tally: Tally, n: int) -> Seq<char>
    decreases n,
{
    if n <= 0 {
        Seq::empty()
    } else if tally.counts[n - 1] == 0 {
        pretty_upto(tally, n - 1)
    } else {
        pretty_upto(tally, n - 1) + VALUES[n - 1].mnemonic() + ":"@ + decimal_text(
            tally.counts[n - 1] as u64,
        ) + "("@ + decimal_text(tally.gas[n - 1] as u64) + ")"@ + ", "@
    }
}

/// How many of `steps` ran `op`.
pub open spec fn occurrences(steps: Seq<(EvmInst, u64)>, op: EvmInst) -> nat
    decreases steps.len(),
{
    if steps.len() == 0 {
        0
    } else {
        occurrences(steps.drop_last(), op) + if steps.last().0 == op {
            1nat
        } else {
            0nat
        }
    }
}

/// The gas that the runs of `op` among `steps` took.
pub open spec fn gas_spent_on(steps: Seq<(EvmInst, u64)>, op: EvmInst) -> nat
    decreases steps.len(),
{
    if steps.len() == 0 {
        0
    } else {
        gas_spent_on(steps.drop_last(), op) + if steps.last().0 == op {
            steps.last().1 as nat
        } else {
            0nat
        }
    }
}

/// The gas that all of `steps` took.
pub open spec fn gas_spent(steps: Seq<(EvmInst, u64)>) -> nat
    decreases steps.len(),
{
    if steps.len() == 0 {
        0
    } else {
        gas_spent(steps.drop_last()) + steps.last().1 as nat
    }
}

/// Organize counts of EVM instructions and the gas consumed by them.
pub struct InstCount {
    evm_counts: [u64; INST_COUNT],
    gas_counts: [u64; INST_COUNT],
    gas_total: u64,
}

impl View for InstCount {
    type V = Tally;

    closed spec fn view(&self) -> Tally {
        Tally {
            counts: Seq::new(INST_COUNT as nat, |i: int| self.evm_counts[i] as nat),
            gas: Seq::new(INST_COUNT as nat, |i: int| self.gas_counts[i] as nat),
            total: self.gas_total as nat,
        }
    }
}

impl InstCount {
    /// The total is the sum of the gas of the instructions, always.
    #[verifier::type_invariant]
    spec fn total_is_sum(&self) -> bool {
        self@.balanced()
    }

    /// A counter in which nothing has been recorded.
    pub fn new() -> (counter: Self)
        ensures
            counter@ == Tally::empty(),
            counter@.balanced(),
    {
        let evm_counts: [u64; INST_COUNT] = [0; INST_COUNT];
        let gas_counts: [u64; INST_COUNT] = [0; INST_COUNT];
        proof {
            let ghost gas = Seq::new(INST_COUNT as nat, |i: int| gas_counts[i] as nat);
            assert(gas =~= Tally::empty().gas);
            lemma_gas_sum_zero(gas);
        }
        let counter = InstCount { evm_counts, gas_counts, gas_total: 0 };
        assert(counter@.counts =~= Tally::empty().counts);
        assert(counter@.gas =~= Tally::empty().gas);
        counter
    }

    /// What a counter holds always has one slot per instruction, with
    /// numbers within `u64`.
    pub proof fn lemma_well_formed(&self)
        ensures
            self@.well_formed(),
    {
    }

    /// Count one more run of `evm_inst`.
    pub fn inc_count(&mut self, evm_inst: EvmInst)
        requires
            old(self)@.count_of(evm_inst) < u64::MAX,
        ensures
            final(self)@ == old(self)@.counted(evm_inst),
    {
        let i = evm_inst.ordinal();
        proof {
            use_type_invariant(&*self);
        }
        let mut evm_counts = self.evm_counts;
        evm_counts[i] = evm_counts[i] + 1;
        let counted = InstCount {
            evm_counts,
            gas_counts: self.gas_counts,
            gas_total: self.gas_total,
        };
        assert(counted@.counts =~= old(self)@.counted(evm_inst).counts);
        assert(counted@.gas =~= old(self)@.gas);
        *self = counted;
    }

    /// Charge `gas_used` to `evm_inst` and to the total. The total bounds
    /// the gas of every instruction, so it is the only number that can
    /// leave 64 bits.
    pub fn add_gas(&mut self, evm_inst: EvmInst, gas_used: u64)
        requires
            old(self)@.total + gas_used <= u64::MAX,
        ensures
            final(self)@ == old(self)@.charged(evm_inst, gas_used as nat),
            final(self)@.balanced(),
    {
        let i = evm_inst.ordinal();
        proof {
            use_type_invariant(&*self);
            lemma_balanced(self@, evm_inst, gas_used as nat);
        }
        let mut gas_counts = self.gas_counts;
        gas_counts[i] = gas_counts[i] + gas_used;
        proof {
            let before = self@.gas;
            let after = Seq::new(INST_COUNT as nat, |k: int| gas_counts[k] as nat);
            let raised = (before[i as int] + gas_used) as nat;
            assert(after =~= before.update(i as int, raised));
            lemma_gas_sum_update(before, i as int, raised);
        }
        let charged = InstCount {
            evm_counts: self.evm_counts,
            gas_counts,
            gas_total: self.gas_total + gas_used,
        };
        assert(charged@.gas =~= old(self)@.charged(evm_inst, gas_used as nat).gas);
        assert(charged@.counts =~= old(self)@.counts);
        assert(charged@ == old(self)@.charged(evm_inst, gas_used as nat));
        *self = charged;
    }

    /// Whether `record` may be called with these arguments: whether every
    /// number stays within `u64`.
    pub fn can_record(&self, evm_inst: EvmInst, gas_cost: u64) -> (fits: bool)
        ensures
            fits == self@.admits(evm_inst, gas_cost as nat),
    {
        let i = evm_inst.ordinal();
        self.evm_counts[i] < u64::MAX && gas_cost <= u64::MAX - self.gas_counts[i] && gas_cost
            <= u64::MAX - self.gas_total
    }

    /// Record one run of `evm_inst` that took `gas_cost`.
    pub fn record(&mut self, evm_inst: EvmInst, gas_cost: u64)
        requires
            old(self)@.admits(evm_inst, gas_cost as nat),
        ensures
            final(self)@ == old(self)@.recorded(evm_inst, gas_cost as nat),
    {
        self.inc_count(evm_inst);
        self.add_gas(evm_inst, gas_cost);
    }

    /// How often `evm_inst` ran.
    pub fn get_count(&self, evm_inst: EvmInst) -> (count: u64)
        ensures
            count == self@.count_of(evm_inst),
    {
        self.evm_counts[evm_inst.ordinal()]
    }

    /// The gas that the runs of `evm_inst` took; never more than the total.
    pub fn get_gas(&self, evm_inst: EvmInst) -> (gas: u64)
        ensures
            gas == self@.gas_of(evm_inst),
            gas <= self@.total,
    {
        proof {
            use_type_invariant(&*self);
            lemma_balanced(self@, evm_inst, 0);
        }
        self.gas_counts[evm_inst.ordinal()]
    }

    /// The gas that all recorded runs took: the sum of the gas of the
    /// instructions.
    pub fn get_gas_total(&self) -> (gas: u64)
        ensures
            gas == self@.total,
            gas == gas_sum(self@.gas),
    {
        proof {
            use_type_invariant(&*self);
        }
        self.gas_total
    }

    /// The counts in words, such as `ADD:2(6), STOP:1(0), `: every
    /// instruction that ran, with its count and, in brackets, its gas.
    pub fn pretty_counts(&self) -> (text: String)
        ensures
            text@ == pretty_upto(self@, INST_COUNT as int),
    {
        let mut text = String::new();
        let mut i: usize = 0;
        while i < INST_COUNT
            invariant
                i <= INST_COUNT,
                text@ == pretty_upto(self@, i as int),
            decreases INST_COUNT - i,
        {
            let op = VALUES[i];
            proof {
                lemma_values_distinct(i as int);
            }
            let count = self.get_count(op);
            if count != 0 {
                let gas = self.get_gas(op);
                let ghost before = text@;
                text.append(as_str(&op));
                text.append(":");
                text.append(decimal_string(count).as_str());
                text.append("(");
                text.append(decimal_string(gas).as_str());
                text.append(")");
                text.append(", ");
                assert(text@ =~= before + op.mnemonic() + ":"@ + decimal_text(count) + "("@
                    + decimal_text(gas) + ")"@ + ", "@);
            }
            i += 1;
        }
        text
    }

    /// Forget everything recorded, keeping the counter for reuse.
    pub fn clear(&mut self)
        ensures
            final(self)@ == Tally::empty(),
    {
        *self = InstCount::new();
    }
}

/// A counter that was cleared holds nothing for any instruction.
pub proof fn lemma_cleared(op: EvmInst)
    ensures
        Tally::empty().count_of(op) == 0,
        Tally::empty().gas_of(op) == 0,
        Tally::empty().total == 0,
{
    lemma_values_complete(op);
}

/// Recording leaves the slots of every other instruction as they were.
pub proof fn lemma_recorded_elsewhere(t: Tally, op: EvmInst, gas_cost: nat, other: EvmInst)
    requires
        t.counts.len() == INST_COUNT,
        t.gas.len() == INST_COUNT,
        other != op,
    ensures
        t.recorded(op, gas_cost).count_of(other) == t.count_of(other),
        t.recorded(op, gas_cost).gas_of(other) == t.gas_of(other),
{
    lemma_values_complete(op);
    lemma_values_complete(other);
}

/// After a run of steps recorded into an empty counter, each instruction's
/// count is the number of its steps, its gas is the sum of their costs, and
/// the total is the sum of all costs.
pub proof fn lemma_recorded_all(steps: Seq<(EvmInst, u64)>, op: EvmInst)
    ensures
        Tally::empty().recorded_all(steps).counts.len() == INST_COUNT,
        Tally::empty().recorded_all(steps).gas.len() == INST_COUNT,
        Tally::empty().recorded_all(steps).count_of(op) == occurrences(steps, op),
        Tally::empty().recorded_all(steps).gas_of(op) == gas_spent_on(steps, op),
        Tally::empty().recorded_all(steps).total == gas_spent(steps),
    decreases steps.len(),
{
    lemma_values_complete(op);
    if steps.len() > 0 {
        let before = Tally::empty().recorded_all(steps.drop_last());
        lemma_recorded_all(steps.drop_last(), op);
        lemma_values_complete(steps.last().0);
        if steps.last().0 != op {
            lemma_recorded_elsewhere(before, steps.last().0, steps.last().1 as nat, op);
        }
    }
}

} // verus!
