//! Runs of the cache, for stating what holds of every interleaving.
//!
//! Concurrent callers reach the cache one critical section at a time, so a
//! run is a sequence of events: a caller arrives, or a caller reports how its
//! fetch went. The functions here replay such a sequence over the cache's
//! model and count what a driver would observe: how often the fetcher ran,
//! and which answers went to whom.

use crate::cache::{waiter_signal, Admission, CacheState};
use crate::error::FetchError;
use vstd::prelude::*;

verus! {

/// One critical section of a run.
pub enum Event {
    /// `caller` asks for `key`.
    Call { caller: u64, key: u64 },
    /// `caller` reports that its fetch of `key` has ended with `outcome`.
    Report { caller: u64, key: u64, outcome: Result<u64, FetchError> },
}

/// What one caller got back for one key.
pub struct Answer {
    pub caller: u64,
    pub key: u64,
    pub result: Result<u64, FetchError>,
}

impl Event {
    /// The key that the event is about.
    pub open spec fn key(self) -> u64 {
        match self {
            Event::Call { key, .. } => key,
            Event::Report { key, .. } => key,
        }
    }

    /// The event is a caller asking for `key`.
    pub open spec fn is_call_for(self, key: u64) -> bool {
        self is Call && self.key() == key
    }

    /// The event is a report on a fetch of `key`.
    pub open spec fn is_report_for(self, key: u64) -> bool {
        self is Report && self.key() == key
    }
}

/// The cache after `event`.
pub open spec fn step(state: CacheState, event: Event) -> CacheState {
    match event {
        Event::Call { caller, key } => state.arrive(key, caller),
        Event::Report { caller, key, outcome } => state.settle(key, caller, outcome),
    }
}

/// Whether `event` makes its caller run the fetcher: it is a call, and the
/// caller is admitted as owner.
pub open spec fn starts_fetch(state: CacheState, event: Event) -> bool {
    event is Call && state.admission(event.key()) == Admission::Owner
}

/// The answers that `event` releases, in the order in which they are given.
///
/// A call that hits the cache is answered at once. A report by the owner
/// answers the owner with the outcome itself and each waiter with the signal;
/// any other event answers nobody.
pub open spec fn handed(state: CacheState, event: Event) -> Seq<Answer> {
    match event {
        Event::Call { caller, key } => match state.admission(key) {
            Admission::Cached(value) => seq![Answer { caller, key, result: Ok(value) }],
            _ => Seq::empty(),
        },
        Event::Report { caller, key, outcome } => if state.owns(key, caller) {
            seq![Answer { caller, key, result: outcome }] + Seq::new(
                state.pending[key].waiters.len(),
                |i: int|
                    Answer {
                        caller: state.pending[key].waiters[i],
                        key,
                        result: waiter_signal(outcome),
                    },
            )
        } else {
            Seq::empty()
        },
    }
}

/// The cache after the events of `trace`, in order, starting from `state`.
pub open spec fn run(state: CacheState, trace: Seq<Event>) -> CacheState
    decreases trace.len(),
{
    if trace.len() == 0 {
        state
    } else {
        step(run(state, trace.drop_last()), trace.last())
    }
}

/// How often the fetcher runs for `key` during `trace`.
pub open spec fn fetches(state: CacheState, trace: Seq<Event>, key: u64) -> nat
    decreases trace.len(),
{
    if trace.len() == 0 {
        0
    } else {
        let before = run(state, trace.drop_last());
        let earlier = fetches(state, trace.drop_last(), key);
        if trace.last().key() == key && starts_fetch(before, trace.last()) {
            earlier + 1
        } else {
            earlier
        }
    }
}

/// How often the fetcher runs during `trace`, whatever the key.
pub open spec fn total_fetches(state: CacheState, trace: Seq<Event>) -> nat
    decreases trace.len(),
{
    if trace.len() == 0 {
        0
    } else {
        let before = run(state, trace.drop_last());
        let earlier = total_fetches(state, trace.drop_last());
        if starts_fetch(before, trace.last()) {
            earlier + 1
        } else {
            earlier
        }
    }
}

/// Every answer given during `trace`, in order.
pub open spec fn answers(state: CacheState, trace: Seq<Event>) -> Seq<Answer>
    decreases trace.len(),
{
    if trace.len() == 0 {
        Seq::empty()
    } else {
        answers(state, trace.drop_last()) + handed(
            run(state, trace.drop_last()),
            trace.last(),
        )
    }
}

/// How many answers for `key` are given during `trace`.
pub open spec fn answered(state: CacheState, trace: Seq<Event>, key: u64) -> nat {
    answers(state, trace).filter(|answer: Answer| answer.key == key).len()
}

/// How many calls for `key` are in `trace`.
pub open spec fn calls(trace: Seq<Event>, key: u64) -> nat
    decreases trace.len(),
{
    if trace.len() == 0 {
        0
    } else if trace.last().is_call_for(key) {
        calls(trace.drop_last(), key) + 1
    } else {
        calls(trace.drop_last(), key)
    }
}

/// The keys that are asked for in `trace`.
pub open spec fn called_keys(trace: Seq<Event>) -> Set<u64>
    decreases trace.len(),
{
    if trace.len() == 0 {
        Set::empty()
    } else if trace.last() is Call {
        called_keys(trace.drop_last()).insert(trace.last().key())
    } else {
        called_keys(trace.drop_last())
    }
}

/// How many callers are held by the pending fetch of `key`: its owner and its
/// waiters, or nobody where the key is not pending.
pub open spec fn attached(state: CacheState, key: u64) -> nat {
    if state.pending.contains_key(key) {
        1 + state.pending[key].waiters.len()
    } else {
        0
    }
}

/// Every report on `key` in `trace` brings the value `value`: the fetcher
/// answers that key with that value and never fails on it.
pub open spec fn fetcher_returns(trace: Seq<Event>, key: u64, value: u64) -> bool {
    forall|i: int|
        0 <= i < trace.len() && (#[trigger] trace[i]).is_report_for(key) ==> trace[i]
            ->Report_outcome == Ok::<u64, FetchError>(value)
}

/// Every report in `trace` brings the value that `fetcher` gives for its key.
pub open spec fn fetcher_is(trace: Seq<Event>, fetcher: spec_fn(u64) -> u64) -> bool {
    forall|key: u64| fetcher_returns(trace, key, #[trigger] fetcher(key))
}

/// No report on `key` is in `trace`.
pub open spec fn no_report(trace: Seq<Event>, key: u64) -> bool {
    forall|i: int| 0 <= i < trace.len() ==> !(#[trigger] trace[i]).is_report_for(key)
}

/// No event of `trace` is about `key`.
pub open spec fn untouched(trace: Seq<Event>, key: u64) -> bool {
    forall|i: int| 0 <= i < trace.len() ==> (#[trigger] trace[i]).key() != key
}

} // verus!
