//! The graph history: the samples of the last minute, oldest first.

use std::collections::VecDeque;
use vstd::prelude::*;

verus! {

broadcast use vstd::seq_lib::group_filter_ensures;

/// A sample with the time it was taken, in nanoseconds on the application's
/// monotonic clock.
pub struct TimedItem<G> {
    pub time: u64,
    pub item: G,
}

/// How long a sample stays in the history: one minute, in nanoseconds.
pub const HISTORY_WINDOW_NANOS: u64 = 60_000_000_000;

/// Whether a sample taken at `time` is still kept at `now`: the time elapsed
/// since it (zero if it lies in the future) is under one minute.
pub open spec fn is_recent(time: u64, now: u64) -> bool {
    (if now >= time {
        now - time
    } else {
        0
    }) < HISTORY_WINDOW_NANOS
}

/// The samples of `history` still kept at `now`, in their order.
pub open spec fn recent<G>(history: Seq<TimedItem<G>>, now: u64) -> Seq<TimedItem<G>> {
    history.filter(|e: TimedItem<G>| is_recent(e.time, now))
}

fn is_recent_exec(time: u64, now: u64) -> (r: bool)
    ensures
        r == is_recent(time, now),
{
    now.saturating_sub(time) < HISTORY_WINDOW_NANOS
}

/// Drops from `history` the samples that are a minute old or older at `now`,
/// keeping the others in their order.
pub fn retain_recent<G>(history: &mut VecDeque<TimedItem<G>>, now: u64)
    ensures
        final(history)@ == recent(old(history)@, now),
{
    let ghost orig = history@;
    let ghost pred = |e: TimedItem<G>| is_recent(e.time, now);
    let n = history.len();
    let mut i: usize = 0;
    assert(orig.skip(0) =~= orig);
    assert(orig.take(0).filter(pred) =~= Seq::empty()) by {
        reveal_with_fuel(Seq::<_>::filter, 1);
    }
    while i < n
        invariant
            n == orig.len(),
            i <= n,
            history@ == orig.skip(i as int) + orig.take(i as int).filter(pred),
            pred == (|e: TimedItem<G>| is_recent(e.time, now)),
        decreases n - i,
    {
        let ghost before = history@;
        proof {
            assert(orig.take(i + 1).drop_last() =~= orig.take(i as int));
            assert(orig.take(i + 1).last() == orig[i as int]);
            reveal_with_fuel(Seq::<_>::filter, 1);
            assert(history@.len() > 0);
        }
        let entry = history.pop_front().unwrap();
        proof {
            assert(entry == orig[i as int]);
            assert(history@ =~= orig.skip(i + 1) + orig.take(i as int).filter(pred));
        }
        if is_recent_exec(entry.time, now) {
            history.push_back(entry);
            proof {
                assert(orig.take(i + 1).filter(pred) == orig.take(i as int).filter(pred).push(
                    orig[i as int],
                ));
                assert(history@ =~= orig.skip(i + 1) + orig.take(i + 1).filter(pred));
            }
        } else {
            proof {
                assert(orig.take(i + 1).filter(pred) == orig.take(i as int).filter(pred));
                assert(history@ =~= orig.skip(i + 1) + orig.take(i + 1).filter(pred));
            }
        }
        i = i + 1;
    }
    assert(orig.take(n as int) =~= orig);
    assert(orig.skip(n as int) =~= Seq::<TimedItem<G>>::empty());
    assert(history@ =~= orig.filter(pred));
}

/// Appends a sample taken at `time` to `history`, then drops the samples that
/// are a minute old or older at `now`.
pub fn record_sample<G>(history: &mut VecDeque<TimedItem<G>>, item: G, time: u64, now: u64)
    ensures
        final(history)@ == recent(old(history)@.push((TimedItem { time, item })), now),
{
    history.push_back(TimedItem { time, item });
    retain_recent(history, now);
}

/// After recording, every sample in the history is recent, and a sample taken
/// less than a minute before `now` is the newest one kept.
pub proof fn recorded_history_is_recent<G>(history: Seq<TimedItem<G>>, item: G, time: u64, now: u64)
    ensures
        forall|i: int|
            0 <= i < recent(history.push((TimedItem { time, item })), now).len() ==> is_recent(
                #[trigger] recent(history.push((TimedItem { time, item })), now)[i].time,
                now,
            ),
        recent(history.push((TimedItem { time, item })), now).len() <= history.len() + 1,
        is_recent(time, now) ==> recent(history.push((TimedItem { time, item })), now).last()
            == (TimedItem { time, item }),
        is_recent(time, now) ==> recent(history.push((TimedItem { time, item })), now)
            == recent(history, now).push((TimedItem { time, item })),
{
    let pred = |e: TimedItem<G>| is_recent(e.time, now);
    let s = history.push((TimedItem { time, item }));
    reveal_with_fuel(Seq::<_>::filter, 1);
    assert(s.drop_last() =~= history);
    assert forall|i: int| 0 <= i < s.filter(pred).len() implies is_recent(
        #[trigger] s.filter(pred)[i].time,
        now,
    ) by {
        s.lemma_filter_pred(pred, i);
    }
}

} // verus!
