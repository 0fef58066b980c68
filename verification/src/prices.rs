//! Ethereum historical prices: candles in the order of their end times, one
//! per end time, and the search for the next price at or after a moment.

use crate::histpx::{DataSource, Exchange, FxMethod};
use vstd::prelude::*;

verus! {

/// One candle: where it came from, when its period ended, and its
/// prices. The prices are whatever the caller keeps in `quote`; the series
/// orders and finds candles by `end_ts` alone.
#[derive(Debug, Clone)]
pub struct Candlestick<Q> {
    pub market: Exchange,
    pub source: DataSource,
    pub fx_method: FxMethod,
    pub end_ts: u64,
    pub quote: Q,
}

/// Candles in the order of their end times, no end time twice.
pub open spec fn ascending<Q>(series: Seq<Candlestick<Q>>) -> bool {
    forall|i: int, j: int|
        0 <= i < j < series.len() ==> (#[trigger] series[i]).end_ts < (#[trigger] series[j]).end_ts
}

/// Whether the series has a candle that ends at `ts`.
pub open spec fn has_time<Q>(series: Seq<Candlestick<Q>>, ts: u64) -> bool {
    exists|i: int| 0 <= i < series.len() && (#[trigger] series[i]).end_ts == ts
}

/// How many candles of the series end before `ts`. In an ascending series
/// this is the place of the first candle that ends at or after `ts`.
pub open spec fn rank<Q>(series: Seq<Candlestick<Q>>, ts: u64) -> int
    decreases series.len(),
{
    if series.len() == 0 {
        0
    } else {
        rank(series.drop_last(), ts) + if series.last().end_ts < ts {
            1int
        } else {
            0int
        }
    }
}

/// The series after one more candle was offered to it: unchanged where it
/// has a candle of that end time, else with the candle at its place.
pub open spec fn offered<Q>(series: Seq<Candlestick<Q>>, candle: Candlestick<Q>) -> Seq<
    Candlestick<Q>,
> {
    if has_time(series, candle.end_ts) {
        series
    } else {
        series.insert(rank(series, candle.end_ts), candle)
    }
}

/// The series after each of `records` was offered to it in turn.
pub open spec fn loaded<Q>(series: Seq<Candlestick<Q>>, records: Seq<Candlestick<Q>>) -> Seq<
    Candlestick<Q>,
>
    decreases records.len(),
{
    if records.len() == 0 {
        series
    } else {
        offered(loaded(series, records.drop_last()), records.last())
    }
}

/// The candle with the smallest end time at or after `ts`, if there is one.
pub open spec fn nearest<Q>(series: Seq<Candlestick<Q>>, ts: u64) -> Option<Candlestick<Q>> {
    if rank(series, ts) < series.len() {
        Some(series[rank(series, ts)])
    } else {
        None
    }
}

/// In an ascending series the candles that end before `ts` are exactly
/// those before place `rank`.
pub proof fn lemma_rank_splits<Q>(series: Seq<Candlestick<Q>>, ts: u64)
    requires
        ascending(series),
    ensures
        0 <= rank(series, ts) <= series.len(),
        forall|i: int| 0 <= i < rank(series, ts) ==> (#[trigger] series[i]).end_ts < ts,
        forall|i: int| rank(series, ts) <= i < series.len() ==> (#[trigger] series[i]).end_ts >= ts,
    decreases series.len(),
{
    if series.len() > 0 {
        let head = series.drop_last();
        assert(ascending(head)) by {
            assert forall|i: int, j: int| 0 <= i < j < head.len() implies (#[trigger] head[i]).end_ts
                < (#[trigger] head[j]).end_ts by {
                assert(head[i] == series[i] && head[j] == series[j]);
            }
        }
        lemma_rank_splits(head, ts);
        let r = rank(head, ts);
        assert forall|i: int| 0 <= i < rank(series, ts) implies (#[trigger] series[i]).end_ts
            < ts by {
            if i < head.len() {
                assert(series[i] == head[i]);
                if i >= r {
                    assert(series[i].end_ts < series[series.len() - 1].end_ts);
                }
            }
        }
        assert forall|i: int| rank(series, ts) <= i < series.len() implies (
        #[trigger] series[i]).end_ts >= ts by {
            if i < head.len() {
                assert(series[i] == head[i]);
                if series.last().end_ts < ts {
                    assert(r < head.len() ==> head[r].end_ts >= ts);
                    assert(i >= r);
                    assert(series[i].end_ts < series[series.len() - 1].end_ts);
                }
            }
        }
    }
}

/// A place before which every candle ends before `ts`, and from which on
/// none does, is the rank of `ts`.
pub proof fn lemma_split_is_rank<Q>(series: Seq<Candlestick<Q>>, ts: u64, place: int)
    requires
        ascending(series),
        0 <= place <= series.len(),
        forall|i: int| 0 <= i < place ==> (#[trigger] series[i]).end_ts < ts,
        forall|i: int| place <= i < series.len() ==> (#[trigger] series[i]).end_ts >= ts,
    ensures
        rank(series, ts) == place,
{
    lemma_rank_splits(series, ts);
    let r = rank(series, ts);
    if r < place {
        assert(series[r].end_ts >= ts);
        assert(series[r].end_ts < ts);
    } else if place < r {
        assert(series[place].end_ts < ts);
        assert(series[place].end_ts >= ts);
    }
}

/// Offering a candle keeps the series ascending, and keeps every candle
/// that it had.
pub proof fn lemma_offered_ascending<Q>(series: Seq<Candlestick<Q>>, candle: Candlestick<Q>)
    requires
        ascending(series),
    ensures
        ascending(offered(series, candle)),
        has_time(offered(series, candle), candle.end_ts),
        forall|i: int|
            0 <= i < series.len() ==> offered(series, candle).contains(#[trigger] series[i]),
        offered(series, candle).len() == series.len() + if has_time(series, candle.end_ts) {
            0int
        } else {
            1int
        },
{
    lemma_rank_splits(series, candle.end_ts);
    let after = offered(series, candle);
    let r = rank(series, candle.end_ts);
    if has_time(series, candle.end_ts) {
        assert forall|i: int| 0 <= i < series.len() implies after.contains(
            #[trigger] series[i],
        ) by {
            assert(after[i] == series[i]);
        }
    } else {
        assert forall|i: int, j: int| 0 <= i < j < after.len() implies (#[trigger] after[i]).end_ts
            < (#[trigger] after[j]).end_ts by {
            if i < r {
                assert(after[i] == series[i]);
            } else if i > r {
                assert(after[i] == series[i - 1]);
            }
            if j < r {
                assert(after[j] == series[j]);
            } else if j > r {
                assert(after[j] == series[j - 1]);
                assert(series[j - 1].end_ts >= candle.end_ts);
                assert(series[j - 1].end_ts != candle.end_ts);
            }
        }
        assert(after[r] == candle);
        assert forall|i: int| 0 <= i < series.len() implies after.contains(
            #[trigger] series[i],
        ) by {
            if i < r {
                assert(after[i] == series[i]);
            } else {
                assert(after[i + 1] == series[i]);
            }
        }
    }
}

/// Loading keeps the series ascending.
pub proof fn lemma_loaded_ascending<Q>(series: Seq<Candlestick<Q>>, records: Seq<Candlestick<Q>>)
    requires
        ascending(series),
    ensures
        ascending(loaded(series, records)),
    decreases records.len(),
{
    if records.len() > 0 {
        lemma_loaded_ascending(series, records.drop_last());
        lemma_offered_ascending(loaded(series, records.drop_last()), records.last());
    }
}

/// A candle that the series takes stands at the rank of its end time,
/// and is what `nearest` finds for that time.
pub proof fn lemma_offered_found<Q>(series: Seq<Candlestick<Q>>, candle: Candlestick<Q>)
    requires
        ascending(series),
        !has_time(series, candle.end_ts),
    ensures
        nearest(offered(series, candle), candle.end_ts) == Some(candle),
{
    lemma_rank_splits(series, candle.end_ts);
    lemma_offered_ascending(series, candle);
    let r = rank(series, candle.end_ts);
    let after = series.insert(r, candle);
    assert(after == offered(series, candle));
    assert(after[r] == candle);
    assert forall|i: int| 0 <= i < r implies (#[trigger] after[i]).end_ts < candle.end_ts by {
        assert(after[i] == series[i]);
    }
    assert forall|i: int| r <= i < after.len() implies (#[trigger] after[i]).end_ts
        >= candle.end_ts by {
        if i > r {
            assert(after[i] == series[i - 1]);
        }
    }
    lemma_split_is_rank(after, candle.end_ts, r);
}

/// Of two candles with one end time, offered one after the other, the
/// first stays and the second changes nothing.
pub proof fn lemma_first_seen_wins<Q>(
    series: Seq<Candlestick<Q>>,
    first: Candlestick<Q>,
    second: Candlestick<Q>,
)
    requires
        ascending(series),
        first.end_ts == second.end_ts,
    ensures
        offered(offered(series, first), second) == offered(series, first),
        !has_time(series, first.end_ts) ==> nearest(
            offered(offered(series, first), second),
            first.end_ts,
        ) == Some(first),
{
    lemma_offered_ascending(series, first);
    let after = offered(series, first);
    assert(has_time(after, second.end_ts));
    assert(offered(after, second) == after);
    if !has_time(series, first.end_ts) {
        lemma_offered_found(series, first);
    }
}

/// Once a series holds a candle for an end time, nothing that is loaded
/// later replaces it.
pub proof fn lemma_loaded_keeps<Q>(
    series: Seq<Candlestick<Q>>,
    records: Seq<Candlestick<Q>>,
    held: Candlestick<Q>,
)
    requires
        ascending(series),
        series.contains(held),
    ensures
        loaded(series, records).contains(held),
    decreases records.len(),
{
    if records.len() > 0 {
        let before = loaded(series, records.drop_last());
        lemma_loaded_keeps(series, records.drop_last(), held);
        lemma_loaded_ascending(series, records.drop_last());
        lemma_offered_ascending(before, records.last());
        let i = choose|i: int| 0 <= i < before.len() && before[i] == held;
        assert(offered(before, records.last()).contains(before[i]));
    }
}

/// Loading in two parts is loading the whole.
pub proof fn lemma_loaded_split<Q>(
    series: Seq<Candlestick<Q>>,
    records: Seq<Candlestick<Q>>,
    n: int,
)
    requires
        0 <= n <= records.len(),
    ensures
        loaded(series, records) == loaded(loaded(series, records.take(n)), records.skip(n)),
    decreases records.len() - n,
{
    if n == records.len() {
        assert(records.take(n) =~= records);
        assert(records.skip(n) =~= Seq::<Candlestick<Q>>::empty());
    } else {
        let tail = records.skip(n);
        lemma_loaded_split(series, records.drop_last(), n);
        assert(records.drop_last().take(n) =~= records.take(n));
        assert(records.drop_last().skip(n) =~= tail.drop_last());
        assert(tail.last() == records.last());
    }
}

/// The end times of a loaded series are those that it had and those of
/// the records.
pub proof fn lemma_loaded_times<Q>(
    series: Seq<Candlestick<Q>>,
    records: Seq<Candlestick<Q>>,
    ts: u64,
)
    requires
        ascending(series),
    ensures
        has_time(loaded(series, records), ts) <==> has_time(series, ts) || exists|j: int|
            0 <= j < records.len() && (#[trigger] records[j]).end_ts == ts,
    decreases records.len(),
{
    if records.len() > 0 {
        let head = records.drop_last();
        let before = loaded(series, head);
        let last = records.last();
        lemma_loaded_times(series, head, ts);
        lemma_loaded_ascending(series, head);
        lemma_offered_ascending(before, last);
        lemma_rank_splits(before, last.end_ts);
        let after = offered(before, last);
        let r = rank(before, last.end_ts);
        if has_time(after, ts) {
            let i = choose|i: int| 0 <= i < after.len() && (#[trigger] after[i]).end_ts == ts;
            if !has_time(before, last.end_ts) {
                if i < r {
                    assert(before[i] == after[i]);
                } else if i > r {
                    assert(before[i - 1] == after[i]);
                } else {
                    assert(records[records.len() - 1].end_ts == ts);
                }
            }
            if has_time(before, ts) && !has_time(series, ts) {
                let j = choose|j: int| 0 <= j < head.len() && (#[trigger] head[j]).end_ts == ts;
                assert(records[j].end_ts == ts);
            }
        }
        if has_time(series, ts) || (exists|j: int|
            0 <= j < records.len() && (#[trigger] records[j]).end_ts == ts) {
            if !has_time(series, ts) {
                let j = choose|j: int|
                    0 <= j < records.len() && (#[trigger] records[j]).end_ts == ts;
                if j < head.len() {
                    assert(head[j].end_ts == ts);
                }
            }
            if has_time(before, ts) {
                let i = choose|i: int| 0 <= i < before.len() && (#[trigger] before[i]).end_ts == ts;
                assert(after.contains(before[i]));
                let k = choose|k: int| 0 <= k < after.len() && after[k] == before[i];
                assert(after[k].end_ts == ts);
            } else {
                assert(last.end_ts == ts);
            }
        }
    }
}

/// A candle that an ascending series holds is what `nearest` finds for
/// its end time.
pub proof fn lemma_nearest_of_held<Q>(series: Seq<Candlestick<Q>>, held: Candlestick<Q>)
    requires
        ascending(series),
        series.contains(held),
    ensures
        nearest(series, held.end_ts) == Some(held),
{
    let i = choose|i: int| 0 <= i < series.len() && series[i] == held;
    assert forall|k: int| 0 <= k < i implies (#[trigger] series[k]).end_ts < held.end_ts by {
        assert(series[k].end_ts < series[i].end_ts);
    }
    assert forall|k: int| i <= k < series.len() implies (#[trigger] series[k]).end_ts
        >= held.end_ts by {
        if k > i {
            assert(series[i].end_ts < series[k].end_ts);
        }
    }
    lemma_split_is_rank(series, held.end_ts, i);
}

/// Of the records that are loaded, the first with an end time that the
/// series did not have is the candle that the series then holds for that
/// time, whatever follows it in the load.
pub proof fn lemma_first_loaded_wins<Q>(
    series: Seq<Candlestick<Q>>,
    records: Seq<Candlestick<Q>>,
    k: int,
)
    requires
        ascending(series),
        0 <= k < records.len(),
        !has_time(series, records[k].end_ts),
        forall|j: int| 0 <= j < k ==> (#[trigger] records[j]).end_ts != records[k].end_ts,
    ensures
        ascending(loaded(series, records)),
        nearest(loaded(series, records), records[k].end_ts) == Some(records[k]),
{
    let first = records[k];
    let before = loaded(series, records.take(k));
    lemma_loaded_ascending(series, records.take(k));
    lemma_loaded_times(series, records.take(k), first.end_ts);
    assert(!has_time(before, first.end_ts)) by {
        if has_time(before, first.end_ts) {
            let j = choose|j: int|
                0 <= j < records.take(k).len() && (#[trigger] records.take(k)[j]).end_ts
                    == first.end_ts;
            assert(records[j].end_ts == first.end_ts);
        }
    }
    lemma_offered_ascending(before, first);
    lemma_rank_splits(before, first.end_ts);
    let with_first = offered(before, first);
    assert(with_first[rank(before, first.end_ts)] == first);
    assert(with_first.contains(first));
    assert(records.take(k + 1).drop_last() =~= records.take(k));
    assert(loaded(series, records.take(k + 1)) == with_first);
    lemma_loaded_split(series, records, k + 1);
    lemma_loaded_keeps(with_first, records.skip(k + 1), first);
    lemma_loaded_ascending(with_first, records.skip(k + 1));
    lemma_nearest_of_held(loaded(series, records), first);
}

/// What `nearest` finds ends at or after `ts`, and no candle of the
/// series that ends at or after `ts` ends earlier. It finds nothing only
/// where every candle ends before `ts`.
pub proof fn lemma_nearest_is_least<Q>(series: Seq<Candlestick<Q>>, ts: u64)
    requires
        ascending(series),
    ensures
        match nearest(series, ts) {
            Some(found) => {
                &&& series.contains(found)
                &&& found.end_ts >= ts
                &&& forall|i: int|
                    0 <= i < series.len() && (#[trigger] series[i]).end_ts >= ts ==> found.end_ts
                        <= series[i].end_ts
            },
            None => forall|i: int| 0 <= i < series.len() ==> (#[trigger] series[i]).end_ts < ts,
        },
{
    lemma_rank_splits(series, ts);
    let r = rank(series, ts);
    if r < series.len() {
        assert(series[r] == nearest(series, ts).unwrap());
        assert forall|i: int| 0 <= i < series.len() && (#[trigger] series[i]).end_ts
            >= ts implies series[r].end_ts <= series[i].end_ts by {
            if i < r {
                assert(series[i].end_ts < ts);
            } else if i > r {
                assert(series[r].end_ts < series[i].end_ts);
            }
        }
    }
}

/// Historical prices, ordered by the time at which each candle ended.
pub struct BestPrice<Q> {
    prices: Vec<Candlestick<Q>>,
}

impl<Q> View for BestPrice<Q> {
    type V = Seq<Candlestick<Q>>;

    /// The candles, earliest first.
    closed spec fn view(&self) -> Seq<Candlestick<Q>> {
        self.prices@
    }
}

impl<Q> BestPrice<Q> {
    /// Whether the candles stand in the order of their end times, no end
    /// time twice. Every series that this module hands out is.
    pub open spec fn well_formed(&self) -> bool {
        ascending(self@)
    }

    /// A series without candles.
    pub fn new() -> (series: Self)
        ensures
            series@ == Seq::<Candlestick<Q>>::empty(),
            series.well_formed(),
    {
        BestPrice { prices: Vec::new() }
    }

    /// How many candles the series holds.
    pub fn len(&self) -> (count: usize)
        ensures
            count == self@.len(),
    {
        self.prices.len()
    }

    /// The place of the first candle that ends at or after `ts`; the
    /// number of candles where there is none.
    fn lower_bound(&self, ts: u64) -> (place: usize)
        requires
            self.well_formed(),
        ensures
            place == rank(self@, ts),
            place <= self@.len(),
    {
        let mut low: usize = 0;
        let mut high: usize = self.prices.len();
        while low < high
            invariant
                low <= high <= self.prices@.len(),
                forall|i: int| 0 <= i < low ==> (#[trigger] self.prices@[i]).end_ts < ts,
                forall|i: int|
                    high <= i < self.prices@.len() ==> (#[trigger] self.prices@[i]).end_ts >= ts,
                ascending(self.prices@),
            decreases high - low,
        {
            let mid = low + (high - low) / 2;
            if self.prices[mid].end_ts < ts {
                assert forall|i: int| 0 <= i < mid + 1 implies (#[trigger] self.prices@[i]).end_ts
                    < ts by {
                    if i < mid {
                        assert(self.prices@[i].end_ts < self.prices@[mid as int].end_ts);
                    }
                }
                low = mid + 1;
            } else {
                assert forall|i: int| mid <= i < self.prices@.len() implies (
                #[trigger] self.prices@[i]).end_ts >= ts by {
                    if i > mid {
                        assert(self.prices@[mid as int].end_ts < self.prices@[i].end_ts);
                    }
                }
                high = mid;
            }
        }
        proof {
            lemma_split_is_rank(self@, ts, low as int);
        }
        low
    }

    /// Offer one candle to the series. It is taken unless the series has
    /// a candle of the same end time already: first seen wins.
    pub fn insert(&mut self, candle: Candlestick<Q>) -> (taken: bool)
        requires
            old(self).well_formed(),
        ensures
            final(self).well_formed(),
            final(self)@ == offered(old(self)@, candle),
            taken == !has_time(old(self)@, candle.end_ts),
    {
        let place = self.lower_bound(candle.end_ts);
        proof {
            lemma_rank_splits(self@, candle.end_ts);
            lemma_offered_ascending(self@, candle);
        }
        if place < self.prices.len() && self.prices[place].end_ts == candle.end_ts {
            assert(has_time(self@, candle.end_ts));
            false
        } else {
            assert(!has_time(self@, candle.end_ts)) by {
                if has_time(self@, candle.end_ts) {
                    let i = choose|i: int|
                        0 <= i < self@.len() && (#[trigger] self@[i]).end_ts == candle.end_ts;
                    if i > place {
                        assert(self@[place as int].end_ts < self@[i].end_ts);
                    }
                }
            }
            self.prices.insert(place, candle);
            true
        }
    }

    /// Offer each of `records` to the series, in their order.
    pub fn load(&mut self, records: Vec<Candlestick<Q>>)
        requires
            old(self).well_formed(),
        ensures
            final(self).well_formed(),
            final(self)@ == loaded(old(self)@, records@),
    {
        let ghost all = records@;
        let mut records = records;
        let mut rest: Vec<Candlestick<Q>> = Vec::new();
        // Turn the records round, so that they can be taken off the end in
        // their order.
        while records.len() > 0
            invariant
                rest@.len() + records@.len() == all.len(),
                forall|k: int| 0 <= k < records@.len() ==> records@[k] == all[k],
                forall|k: int| 0 <= k < rest@.len() ==> rest@[k] == all[all.len() - 1 - k],
            decreases records.len(),
        {
            let candle = records.pop().unwrap();
            rest.push(candle);
        }
        let ghost mut done: int = 0;
        assert(all.take(0) =~= Seq::<Candlestick<Q>>::empty());
        while rest.len() > 0
            invariant
                0 <= done,
                done + rest@.len() == all.len(),
                forall|k: int| 0 <= k < rest@.len() ==> rest@[k] == all[all.len() - 1 - k],
                self.well_formed(),
                self@ == loaded(old(self)@, all.take(done)),
            decreases rest.len(),
        {
            let candle = rest.pop().unwrap();
            assert(candle == all[done]);
            assert(all.take(done + 1).drop_last() =~= all.take(done));
            self.insert(candle);
            proof {
                done = done + 1;
            }
        }
        assert(all.take(done) =~= all);
    }

    /// The candle with the smallest end time at or after `ts`; none where
    /// `ts` is later than every end time. The search looks forward only: a
    /// candle that ended just before `ts` is never found.
    pub fn nearest_record(&self, ts: u64) -> (found: Option<&Candlestick<Q>>)
        requires
            self.well_formed(),
        ensures
            match found {
                Some(candle) => nearest(self@, ts) == Some(*candle),
                None => nearest(self@, ts) is None,
            },
    {
        let place = self.lower_bound(ts);
        if place < self.prices.len() {
            Some(&self.prices[place])
        } else {
            None
        }
    }
}

} // verus!
