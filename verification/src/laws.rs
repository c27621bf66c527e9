//! What holds of every run of the cache.
//!
//! Each law is stated over the replay functions of [`crate::trace`], which
//! are built from the same model steps that the contracts of
//! [`crate::cache::CoalescingCache`] promise.

use crate::cache::{Admission, CacheState};
use crate::error::FetchError;
use crate::trace::{
    answered, answers, attached, called_keys, calls, fetcher_is, fetcher_returns, fetches, handed,
    no_report, run, starts_fetch, step, total_fetches, untouched, Answer, Event,
};
use vstd::prelude::*;

verus! {

/// A step keeps cached keys and pending keys apart.
pub proof fn lemma_step_keeps_wf(state: CacheState, event: Event)
    requires
        state.wf(),
    ensures
        step(state, event).wf(),
{
}

/// A run keeps cached keys and pending keys apart.
pub proof fn lemma_run_keeps_wf(state: CacheState, trace: Seq<Event>)
    requires
        state.wf(),
    ensures
        run(state, trace).wf(),
    decreases trace.len(),
{
    if trace.len() > 0 {
        lemma_run_keeps_wf(state, trace.drop_last());
        lemma_step_keeps_wf(run(state, trace.drop_last()), trace.last());
    }
}

/// An event on one key leaves every other key as it was: cached or not, with
/// the same value, pending or not, with the same owner and waiters.
pub proof fn lemma_step_frame(state: CacheState, event: Event, key: u64)
    requires
        event.key() != key,
    ensures
        step(state, event).results.contains_key(key) == state.results.contains_key(key),
        step(state, event).results[key] == state.results[key],
        step(state, event).pending.contains_key(key) == state.pending.contains_key(key),
        step(state, event).pending[key] == state.pending[key],
        step(state, event).admission(key) == state.admission(key),
{
}

proof fn lemma_filter_keeps_all<A>(items: Seq<A>, pred: spec_fn(A) -> bool)
    requires
        forall|i: int| 0 <= i < items.len() ==> pred(#[trigger] items[i]),
    ensures
        items.filter(pred) == items,
    decreases items.len(),
{
    reveal(Seq::filter);
    if items.len() > 0 {
        lemma_filter_keeps_all(items.drop_last(), pred);
    }
}

proof fn lemma_filter_keeps_none<A>(items: Seq<A>, pred: spec_fn(A) -> bool)
    requires
        forall|i: int| 0 <= i < items.len() ==> !pred(#[trigger] items[i]),
    ensures
        items.filter(pred) == Seq::<A>::empty(),
    decreases items.len(),
{
    reveal(Seq::filter);
    if items.len() > 0 {
        lemma_filter_keeps_none(items.drop_last(), pred);
    }
}

/// The answers for `key` after one more event: those given before, and all
/// that the event releases where it is about `key`.
pub proof fn lemma_answered_step(state: CacheState, trace: Seq<Event>, key: u64)
    requires
        trace.len() > 0,
    ensures
        answered(state, trace, key) == answered(state, trace.drop_last(), key) + (if trace.last().key()
            == key {
            handed(run(state, trace.drop_last()), trace.last()).len()
        } else {
            0
        }),
{
    // Every answer that an event releases is for the event's own key.
    let pred = |answer: Answer| answer.key == key;
    let released = handed(run(state, trace.drop_last()), trace.last());
    if trace.last().key() == key {
        lemma_filter_keeps_all(released, pred);
    } else {
        lemma_filter_keeps_none(released, pred);
    }
}

/// A run that is not about `key` leaves `key` as it was: its cached value,
/// its pending fetch and the waiters of that fetch. The fetcher does not run
/// for it and nobody is answered for it.
pub proof fn lemma_run_frame(state: CacheState, trace: Seq<Event>, key: u64)
    requires
        untouched(trace, key),
    ensures
        run(state, trace).results.contains_key(key) == state.results.contains_key(key),
        run(state, trace).results[key] == state.results[key],
        run(state, trace).pending.contains_key(key) == state.pending.contains_key(key),
        run(state, trace).pending[key] == state.pending[key],
        run(state, trace).admission(key) == state.admission(key),
        fetches(state, trace, key) == 0,
        answered(state, trace, key) == 0,
    decreases trace.len(),
{
    if trace.len() == 0 {
        assert(answers(state, trace).filter(|answer: Answer| answer.key == key) =~= Seq::empty())
            by {
            reveal(Seq::filter);
        }
    } else {
        let earlier = trace.drop_last();
        assert(untouched(earlier, key)) by {
            assert forall|i: int| 0 <= i < earlier.len() implies (#[trigger] earlier[i]).key()
                != key by {
                assert(earlier[i] == trace[i]);
            }
        }
        lemma_run_frame(state, earlier, key);
        lemma_step_frame(run(state, earlier), trace.last(), key);
        lemma_answered_step(state, trace, key);
    }
}

/// No caller is left behind.
///
/// Over any run, from any state, the callers that asked for a key are all
/// accounted for: each has been answered, or is held by the key's pending
/// fetch as its owner or as one of its waiters. So whenever the key is not
/// pending, nobody who asked for it is still waiting.
pub proof fn law_no_caller_left_behind(state: CacheState, trace: Seq<Event>, key: u64)
    ensures
        calls(trace, key) + attached(state, key) == answered(state, trace, key) + attached(
            run(state, trace),
            key,
        ),
        !state.pending.contains_key(key) && !run(state, trace).pending.contains_key(key)
            ==> answered(state, trace, key) == calls(trace, key),
    decreases trace.len(),
{
    if trace.len() == 0 {
        assert(answers(state, trace).filter(|answer: Answer| answer.key == key) =~= Seq::empty())
            by {
            reveal(Seq::filter);
        }
    } else {
        law_no_caller_left_behind(state, trace.drop_last(), key);
        lemma_answered_step(state, trace, key);
    }
}

/// What holds of one key after a run from the empty cache, where the fetcher
/// answers that key with `value`.
proof fn lemma_single_flight(trace: Seq<Event>, key: u64, value: u64)
    requires
        fetcher_returns(trace, key, value),
    ensures
        run(CacheState::empty(), trace).wf(),
        calls(trace, key) == 0 ==> fetches(CacheState::empty(), trace, key) == 0 && run(
            CacheState::empty(),
            trace,
        ).admission(key) == Admission::Owner,
        calls(trace, key) > 0 ==> fetches(CacheState::empty(), trace, key) == 1 && run(
            CacheState::empty(),
            trace,
        ).admission(key) != Admission::Owner,
        run(CacheState::empty(), trace).results.contains_key(key) ==> run(
            CacheState::empty(),
            trace,
        ).results[key] == value,
        forall|j: int|
            0 <= j < answers(CacheState::empty(), trace).len() && (#[trigger] answers(
                CacheState::empty(),
                trace,
            )[j]).key == key ==> answers(CacheState::empty(), trace)[j].result == Ok::<
                u64,
                FetchError,
            >(value),
    decreases trace.len(),
{
    if trace.len() > 0 {
        let earlier = trace.drop_last();
        assert(fetcher_returns(earlier, key, value)) by {
            assert forall|i: int| 0 <= i < earlier.len() && (#[trigger] earlier[i]).is_report_for(
                key,
            ) implies earlier[i]->Report_outcome == Ok::<u64, FetchError>(value) by {
                assert(earlier[i] == trace[i]);
            }
        }
        lemma_single_flight(earlier, key, value);
    }
}

/// Single flight.
///
/// Take any run from the empty cache, however its callers interleave, in
/// which the fetcher answers `key` with `value`. Then the fetcher ran for
/// `key` exactly once if anyone asked for it (and not at all otherwise),
/// every answer given for `key` is `value`, and once the key is no longer
/// pending every caller that asked for it has its answer.
pub proof fn law_single_flight(trace: Seq<Event>, key: u64, value: u64)
    requires
        fetcher_returns(trace, key, value),
    ensures
        fetches(CacheState::empty(), trace, key) == (if calls(trace, key) > 0 {
            1nat
        } else {
            0nat
        }),
        forall|j: int|
            0 <= j < answers(CacheState::empty(), trace).len() && (#[trigger] answers(
                CacheState::empty(),
                trace,
            )[j]).key == key ==> answers(CacheState::empty(), trace)[j].result == Ok::<
                u64,
                FetchError,
            >(value),
        !run(CacheState::empty(), trace).pending.contains_key(key) ==> answered(
            CacheState::empty(),
            trace,
            key,
        ) == calls(trace, key),
{
    lemma_single_flight(trace, key, value);
    law_no_caller_left_behind(CacheState::empty(), trace, key);
}

/// One fetch per pending episode.
///
/// While a key is pending and its fetch has not been reported, nobody else
/// becomes its owner: the fetcher does not run for it again, the owner stays
/// the same, nobody is answered, and each caller that asks for the key joins
/// its waiters.
pub proof fn law_one_fetch_per_episode(state: CacheState, trace: Seq<Event>, key: u64)
    requires
        state.wf(),
        state.pending.contains_key(key),
        no_report(trace, key),
    ensures
        fetches(state, trace, key) == 0,
        answered(state, trace, key) == 0,
        run(state, trace).pending.contains_key(key),
        run(state, trace).pending[key].owner == state.pending[key].owner,
        run(state, trace).pending[key].waiters.len() == state.pending[key].waiters.len() + calls(
            trace,
            key,
        ),
    decreases trace.len(),
{
    if trace.len() == 0 {
        assert(answers(state, trace).filter(|answer: Answer| answer.key == key) =~= Seq::empty())
            by {
            reveal(Seq::filter);
        }
    } else {
        let earlier = trace.drop_last();
        assert(no_report(earlier, key)) by {
            assert forall|i: int| 0 <= i < earlier.len() implies !(#[trigger] earlier[i]).is_report_for(
                key,
            ) by {
                assert(earlier[i] == trace[i]);
            }
        }
        law_one_fetch_per_episode(state, earlier, key);
        lemma_run_keeps_wf(state, earlier);
        lemma_answered_step(state, trace, key);
    }
}

/// A cached result is permanent.
///
/// Whatever happens after a key has been cached, its entry is neither removed
/// nor overwritten, the fetcher does not run for it, and every answer for it
/// is the cached value.
pub proof fn law_results_are_permanent(state: CacheState, trace: Seq<Event>, key: u64)
    requires
        state.wf(),
        state.results.contains_key(key),
    ensures
        run(state, trace).results.contains_key(key),
        run(state, trace).results[key] == state.results[key],
        fetches(state, trace, key) == 0,
        answered(state, trace, key) == calls(trace, key),
        forall|j: int|
            0 <= j < answers(state, trace).len() && (#[trigger] answers(state, trace)[j]).key
                == key ==> answers(state, trace)[j].result == Ok::<u64, FetchError>(
                state.results[key],
            ),
    decreases trace.len(),
{
    law_no_caller_left_behind(state, trace, key);
    if trace.len() > 0 {
        let earlier = trace.drop_last();
        law_results_are_permanent(state, earlier, key);
        lemma_run_keeps_wf(state, earlier);
    }
}

/// Cache reuse.
///
/// Once the owner has settled its fetch of `key` with `value`, every later
/// call for `key`, after any run of events, is answered with `value` from the
/// cache, and the fetcher does not run for `key` again.
pub proof fn law_cache_reuse(
    state: CacheState,
    owner: u64,
    key: u64,
    value: u64,
    trace: Seq<Event>,
    caller: u64,
)
    requires
        state.wf(),
        state.owns(key, owner),
    ensures
        ({
            let settled = state.settle(key, owner, Ok(value));
            let later = run(settled, trace);
            &&& fetches(settled, trace, key) == 0
            &&& later.admission(key) == Admission::Cached(value)
            &&& later.arrive(key, caller) == later
            &&& !starts_fetch(later, Event::Call { caller, key })
            &&& handed(later, Event::Call { caller, key }) == seq![
                Answer { caller, key, result: Ok(value) },
            ]
            &&& forall|j: int|
                0 <= j < answers(settled, trace).len() && (#[trigger] answers(settled, trace)[j]).key
                    == key ==> answers(settled, trace)[j].result == Ok::<u64, FetchError>(value)
        }),
{
    let settled = state.settle(key, owner, Ok(value));
    law_results_are_permanent(settled, trace, key);
}

/// Failure does not poison a key.
///
/// When the owner settles its fetch with an error, the owner is answered with
/// that error, every waiter with `Wait`, the key is no longer pending and has
/// no cached entry. Whatever then happens to other keys, the next caller that
/// asks for this one is admitted as owner of a new fetch.
pub proof fn law_failure_does_not_poison(
    state: CacheState,
    owner: u64,
    key: u64,
    error: FetchError,
    between: Seq<Event>,
    next: u64,
)
    requires
        state.wf(),
        state.owns(key, owner),
        untouched(between, key),
    ensures
        ({
            let report = Event::Report { caller: owner, key, outcome: Err(error) };
            let released = handed(state, report);
            let failed = step(state, report);
            let later = run(failed, between);
            &&& released.len() == 1 + state.pending[key].waiters.len()
            &&& released[0] == Answer { caller: owner, key, result: Err(error) }
            &&& forall|i: int|
                0 <= i < state.pending[key].waiters.len() ==> #[trigger] released[i + 1] == Answer {
                    caller: state.pending[key].waiters[i],
                    key,
                    result: Err(FetchError::Wait),
                }
            &&& !failed.pending.contains_key(key)
            &&& !failed.results.contains_key(key)
            &&& failed.results == state.results
            &&& later.admission(key) == Admission::Owner
            &&& starts_fetch(later, Event::Call { caller: next, key })
            &&& later.arrive(key, next).owns(key, next)
        }),
{
    let report = Event::Report { caller: owner, key, outcome: Err(error) };
    lemma_run_frame(step(state, report), between, key);
}

/// A key has been asked for in a trace exactly when it is among the called
/// keys, of which there are finitely many.
pub proof fn lemma_called_keys(trace: Seq<Event>)
    ensures
        called_keys(trace).finite(),
        forall|key: u64| #[trigger] called_keys(trace).contains(key) <==> calls(trace, key) > 0,
    decreases trace.len(),
{
    if trace.len() > 0 {
        lemma_called_keys(trace.drop_last());
    }
}

proof fn lemma_total_fetches(trace: Seq<Event>, fetcher: spec_fn(u64) -> u64)
    requires
        fetcher_is(trace, fetcher),
    ensures
        called_keys(trace).finite(),
        run(CacheState::empty(), trace).wf(),
        forall|key: u64| #[trigger]
            called_keys(trace).contains(key) <==> run(CacheState::empty(), trace).admission(key)
                != Admission::Owner,
        total_fetches(CacheState::empty(), trace) == called_keys(trace).len(),
    decreases trace.len(),
{
    let start = CacheState::empty();
    if trace.len() > 0 {
        let earlier = trace.drop_last();
        let event = trace.last();
        let before = run(start, earlier);
        let after = run(start, trace);
        assert(fetcher_is(earlier, fetcher)) by {
            assert forall|key: u64| fetcher_returns(earlier, key, #[trigger] fetcher(key)) by {
                assert(fetcher_returns(trace, key, fetcher(key)));
                assert forall|i: int|
                    0 <= i < earlier.len() && (#[trigger] earlier[i]).is_report_for(
                        key,
                    ) implies earlier[i]->Report_outcome == Ok::<u64, FetchError>(fetcher(key)) by {
                    assert(earlier[i] == trace[i]);
                }
            }
        }
        lemma_total_fetches(earlier, fetcher);
        // The last event's report, if it is one, brings a value.
        assert(fetcher_returns(trace, event.key(), fetcher(event.key())));
        assert forall|key: u64| #[trigger]
            called_keys(trace).contains(key) <==> after.admission(key) != Admission::Owner by {
            assert(called_keys(earlier).contains(key) <==> before.admission(key)
                != Admission::Owner);
        }
        assert(called_keys(earlier).contains(event.key()) <==> before.admission(event.key())
            != Admission::Owner);
    }
}

/// Independence.
///
/// Take any run from the empty cache in which the fetcher answers each key
/// with that key's own value. Then the fetcher ran exactly once for each
/// distinct key that was asked for, so as many times as there are such keys,
/// and every answer is the value of the key it was given for.
pub proof fn law_independence(trace: Seq<Event>, fetcher: spec_fn(u64) -> u64)
    requires
        fetcher_is(trace, fetcher),
    ensures
        called_keys(trace).finite(),
        total_fetches(CacheState::empty(), trace) == called_keys(trace).len(),
        forall|key: u64|
            fetches(CacheState::empty(), trace, key) == (if #[trigger] called_keys(trace).contains(
                key,
            ) {
                1nat
            } else {
                0nat
            }),
        forall|j: int|
            0 <= j < answers(CacheState::empty(), trace).len() ==> (#[trigger] answers(
                CacheState::empty(),
                trace,
            )[j]).result == Ok::<u64, FetchError>(
                fetcher(answers(CacheState::empty(), trace)[j].key),
            ),
{
    lemma_total_fetches(trace, fetcher);
    lemma_called_keys(trace);
    assert forall|key: u64|
        fetches(CacheState::empty(), trace, key) == (if #[trigger] called_keys(trace).contains(key) {
            1nat
        } else {
            0nat
        }) by {
        law_single_flight(trace, key, fetcher(key));
    }
    assert forall|j: int| 0 <= j < answers(CacheState::empty(), trace).len() implies (
    #[trigger] answers(CacheState::empty(), trace)[j]).result == Ok::<u64, FetchError>(
        fetcher(answers(CacheState::empty(), trace)[j].key),
    ) by {
        let key = answers(CacheState::empty(), trace)[j].key;
        law_single_flight(trace, key, fetcher(key));
    }
}

} // verus!
