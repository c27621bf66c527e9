//! The coalescing cache: completed results, pending fetches and the callers
//! that wait on them.
//!
//! Every method is one short critical section. A driver holds its lock, calls
//! [`CoalescingCache::arrive`] for an arriving caller, and does what the
//! [`Admission`] says: answer at once, run the fetch with the lock released,
//! or suspend until signalled. When the fetch has come back the owner takes
//! the lock again and calls [`CoalescingCache::settle`], which stores the
//! value, ends the pending episode, and hands back the waiters to signal.

use crate::error::FetchError;
use std::collections::HashMap;
use vstd::prelude::*;

verus! {

broadcast use vstd::std_specs::hash::group_hash_axioms;

/// What the cache decides for a caller that asks for a key.
#[derive(Clone, Copy, Debug, PartialEq, Eq, Structural)]
pub enum Admission {
    /// The key's fetch has succeeded before: here is its value.
    Cached(u64),
    /// Nobody is fetching the key. The caller has claimed it and must run the
    /// fetch, then settle it.
    Owner,
    /// The key is being fetched. The caller has been registered and will be
    /// named to the owner when the fetch settles.
    Waiter,
}

/// A pending fetch as contracts see it: who runs it, and who waits for it, in
/// order of arrival.
#[verifier::ext_equal]
pub struct Episode {
    pub owner: u64,
    pub waiters: Seq<u64>,
}

/// The cache as contracts see it.
#[verifier::ext_equal]
pub struct CacheState {
    /// The value of every key whose fetch has succeeded.
    pub results: Map<u64, u64>,
    /// The episode of every key that is being fetched.
    pub pending: Map<u64, Episode>,
}

/// What a waiter receives when the fetch it waited on has settled with
/// `outcome`: the value itself, or `Wait` in place of whatever the owner saw.
pub open spec fn waiter_signal(outcome: Result<u64, FetchError>) -> Result<u64, FetchError> {
    match outcome {
        Ok(value) => Ok(value),
        Err(_) => Err(FetchError::Wait),
    }
}

impl CacheState {
    /// The cache that has seen nothing yet.
    pub open spec fn empty() -> CacheState {
        CacheState { results: Map::empty(), pending: Map::empty() }
    }

    /// No key is at once cached and pending.
    pub open spec fn wf(self) -> bool {
        forall|key: u64| !(self.results.contains_key(key) && self.pending.contains_key(key))
    }

    /// `caller` runs the pending fetch of `key`.
    pub open spec fn owns(self, key: u64, caller: u64) -> bool {
        self.pending.contains_key(key) && self.pending[key].owner == caller
    }

    /// How a caller that asks for `key` is admitted: the cache is looked up
    /// first, then the pending fetches.
    pub open spec fn admission(self, key: u64) -> Admission {
        if self.results.contains_key(key) {
            Admission::Cached(self.results[key])
        } else if self.pending.contains_key(key) {
            Admission::Waiter
        } else {
            Admission::Owner
        }
    }

    /// The cache after `caller` has asked for `key`. A hit changes nothing; a
    /// waiter is appended to the key's episode; an owner opens one.
    pub open spec fn arrive(self, key: u64, caller: u64) -> CacheState {
        match self.admission(key) {
            Admission::Cached(_) => self,
            Admission::Waiter => CacheState {
                pending: self.pending.insert(
                    key,
                    Episode {
                        owner: self.pending[key].owner,
                        waiters: self.pending[key].waiters.push(caller),
                    },
                ),
                ..self
            },
            Admission::Owner => CacheState {
                pending: self.pending.insert(key, Episode { owner: caller, waiters: Seq::empty() }),
                ..self
            },
        }
    }

    /// The cache after `caller` has reported `outcome` for `key`. Only the
    /// owner's report counts: it ends the episode, and a value is cached.
    /// From anyone else the report changes nothing.
    pub open spec fn settle(
        self,
        key: u64,
        caller: u64,
        outcome: Result<u64, FetchError>,
    ) -> CacheState {
        if self.owns(key, caller) {
            CacheState {
                results: match outcome {
                    Ok(value) => self.results.insert(key, value),
                    Err(_) => self.results,
                },
                pending: self.pending.remove(key),
            }
        } else {
            self
        }
    }
}

/// What the owner gets back for settling its fetch.
#[derive(Debug)]
pub struct Release {
    /// The callers that waited on the fetch, in order of arrival. Each is to
    /// be signalled once.
    pub waiters: Vec<u64>,
    /// What each of them is to receive.
    pub signal: Result<u64, FetchError>,
}

/// A pending fetch: its owner and the callers registered behind it.
pub struct PendingFetch {
    owner: u64,
    waiters: Vec<u64>,
}

impl View for PendingFetch {
    type V = Episode;

    closed spec fn view(&self) -> Episode {
        Episode { owner: self.owner, waiters: self.waiters@ }
    }
}

/// The shared state of the coalescing cache.
pub struct CoalescingCache {
    request_cache: HashMap<u64, u64>,
    pending_requests: HashMap<u64, PendingFetch>,
}

impl View for CoalescingCache {
    type V = CacheState;

    closed spec fn view(&self) -> CacheState {
        CacheState {
            results: self.request_cache@,
            pending: self.pending_requests@.map_values(|fetch: PendingFetch| fetch@),
        }
    }
}

impl Default for CoalescingCache {
    fn default() -> (cache: Self)
        ensures
            cache@ == CacheState::empty(),
    {
        CoalescingCache::new()
    }
}

impl CoalescingCache {
    /// A cache with no result and no pending fetch.
    pub fn new() -> (cache: Self)
        ensures
            cache@ == CacheState::empty(),
    {
        CoalescingCache { request_cache: HashMap::new(), pending_requests: HashMap::new() }
    }

    /// The cached value of `key`, if its fetch has succeeded.
    pub fn cached(&self, key: u64) -> (value: Option<u64>)
        ensures
            value == (if self@.results.contains_key(key) {
                Some(self@.results[key])
            } else {
                None
            }),
    {
        match self.request_cache.get(&key) {
            Some(value) => Some(*value),
            None => None,
        }
    }

    /// Whether `key` is being fetched.
    pub fn is_pending(&self, key: u64) -> (pending: bool)
        ensures
            pending == self@.pending.contains_key(key),
    {
        self.pending_requests.contains_key(&key)
    }

    /// Admits `caller`, who asks for `key`.
    ///
    /// The lookup in the cache, the lookup among the pending fetches, and the
    /// claim or the registration that follows are one step: nothing can come
    /// between seeing a key pending and being on its list of waiters.
    pub fn arrive(&mut self, key: u64, caller: u64) -> (admission: Admission)
        ensures
            admission == old(self)@.admission(key),
            final(self)@ == old(self)@.arrive(key, caller),
            old(self)@.wf() ==> final(self)@.wf(),
    {
        match self.request_cache.get(&key) {
            Some(value) => {
                return Admission::Cached(*value);
            },
            None => {},
        }
        match self.pending_requests.remove(&key) {
            Some(mut fetch) => {
                fetch.waiters.push(caller);
                self.pending_requests.insert(key, fetch);
                Admission::Waiter
            },
            None => {
                self.pending_requests.insert(key, PendingFetch { owner: caller, waiters: Vec::new() });
                Admission::Owner
            },
        }
    }

    /// Settles the fetch of `key` that `caller` owns, with `outcome`.
    ///
    /// A value is stored first, then the key stops being pending, and the
    /// waiters are handed back last, with what they are to receive. A failure
    /// stores nothing: the key is free for a new attempt. Where `caller` does
    /// not own a pending fetch of `key`, nothing changes and nobody is to be
    /// signalled.
    pub fn settle(&mut self, key: u64, caller: u64, outcome: Result<u64, FetchError>) -> (release:
        Option<Release>)
        ensures
            final(self)@ == old(self)@.settle(key, caller, outcome),
            old(self)@.wf() ==> final(self)@.wf(),
            match release {
                Some(release) => {
                    &&& old(self)@.owns(key, caller)
                    &&& release.waiters@ == old(self)@.pending[key].waiters
                    &&& release.signal == waiter_signal(outcome)
                },
                None => !old(self)@.owns(key, caller),
            },
    {
        let owned = match self.pending_requests.get(&key) {
            Some(fetch) => fetch.owner == caller,
            None => false,
        };
        if !owned {
            return None;
        }
        let signal = match outcome {
            Ok(value) => {
                self.request_cache.insert(key, value);
                Ok(value)
            },
            Err(_) => Err(FetchError::Wait),
        };
        match self.pending_requests.remove(&key) {
            Some(fetch) => Some(Release { waiters: fetch.waiters, signal }),
            None => None,
        }
    }
}

} // verus!
