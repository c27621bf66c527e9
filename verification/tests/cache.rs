use rpc_coalescer::cache::{Admission, CoalescingCache};
use rpc_coalescer::error::FetchError;

/// A fetcher stub: counts its calls and answers each key with a fixed rule.
struct Stub {
    calls: u64,
}

impl Stub {
    fn fetch(&mut self, key: u64) -> Result<u64, FetchError> {
        self.calls += 1;
        Ok(key * 2 + 1)
    }
}

#[test]
fn new_cache_is_empty() {
    let cache = CoalescingCache::new();
    assert_eq!(cache.cached(100), None);
    assert!(!cache.is_pending(100));
}

#[test]
fn first_caller_owns_the_fetch() {
    let mut cache = CoalescingCache::new();
    assert_eq!(cache.arrive(100, 1), Admission::Owner);
    assert!(cache.is_pending(100));
    assert_eq!(cache.cached(100), None);
}

#[test]
fn later_callers_wait_while_the_key_is_pending() {
    let mut cache = CoalescingCache::new();
    assert_eq!(cache.arrive(100, 1), Admission::Owner);
    assert_eq!(cache.arrive(100, 2), Admission::Waiter);
    assert_eq!(cache.arrive(100, 3), Admission::Waiter);
    assert!(cache.is_pending(100));
}

#[test]
fn five_callers_share_one_fetch() {
    let mut cache = CoalescingCache::new();
    let mut fetcher_calls = 0;
    let mut results: Vec<(u64, Result<u64, FetchError>)> = Vec::new();
    let mut owner = None;
    for caller in 1..=5u64 {
        match cache.arrive(100, caller) {
            Admission::Cached(value) => results.push((caller, Ok(value))),
            Admission::Owner => {
                fetcher_calls += 1;
                owner = Some(caller);
            }
            Admission::Waiter => {}
        }
    }
    assert_eq!(owner, Some(1));
    assert_eq!(fetcher_calls, 1);
    assert!(results.is_empty());

    let outcome = Ok(42);
    let release = cache.settle(100, 1, outcome).expect("the owner settles its fetch");
    results.push((1, outcome));
    for waiter in &release.waiters {
        results.push((*waiter, release.signal));
    }
    assert_eq!(release.waiters, vec![2, 3, 4, 5]);
    assert_eq!(release.signal, Ok(42));
    assert_eq!(results.len(), 5);
    for (_, result) in &results {
        assert_eq!(*result, Ok(42));
    }
    assert_eq!(fetcher_calls, 1);
    assert!(!cache.is_pending(100));
    assert_eq!(cache.cached(100), Some(42));
}

#[test]
fn single_flight_whatever_the_arrival_order() {
    // Some callers arrive before the fetch settles, some after.
    let mut cache = CoalescingCache::new();
    let mut stub = Stub { calls: 0 };
    let mut answers = Vec::new();
    assert_eq!(cache.arrive(7, 10), Admission::Owner);
    assert_eq!(cache.arrive(7, 11), Admission::Waiter);
    let outcome = stub.fetch(7);
    let release = cache.settle(7, 10, outcome).unwrap();
    answers.push(outcome);
    for _ in &release.waiters {
        answers.push(release.signal);
    }
    for caller in 12..20 {
        match cache.arrive(7, caller) {
            Admission::Cached(value) => answers.push(Ok(value)),
            other => panic!("caller {} was admitted as {:?}", caller, other),
        }
    }
    assert_eq!(stub.calls, 1);
    assert_eq!(answers.len(), 10);
    assert!(answers.iter().all(|answer| *answer == Ok(15)));
}

#[test]
fn distinct_keys_are_fetched_independently() {
    let mut cache = CoalescingCache::new();
    let mut stub = Stub { calls: 0 };
    let keys = [5604990u64, 5604991, 5604992, 5604993, 5604994];
    // Two callers per key, interleaved across the keys.
    for (i, key) in keys.iter().enumerate() {
        assert_eq!(cache.arrive(*key, i as u64), Admission::Owner);
    }
    for (i, key) in keys.iter().enumerate() {
        assert_eq!(cache.arrive(*key, 100 + i as u64), Admission::Waiter);
    }
    for (i, key) in keys.iter().enumerate().rev() {
        let outcome = stub.fetch(*key);
        let release = cache.settle(*key, i as u64, outcome).unwrap();
        assert_eq!(outcome, Ok(key * 2 + 1));
        assert_eq!(release.waiters, vec![100 + i as u64]);
        assert_eq!(release.signal, Ok(key * 2 + 1));
    }
    assert_eq!(stub.calls, 5);
    for key in keys {
        assert_eq!(cache.cached(key), Some(key * 2 + 1));
        assert!(!cache.is_pending(key));
    }
}

#[test]
fn settling_one_key_leaves_the_others_pending() {
    let mut cache = CoalescingCache::new();
    assert_eq!(cache.arrive(1, 10), Admission::Owner);
    assert_eq!(cache.arrive(2, 20), Admission::Owner);
    let release = cache.settle(1, 10, Ok(11)).unwrap();
    assert!(release.waiters.is_empty());
    assert!(cache.is_pending(2));
    assert_eq!(cache.cached(2), None);
    assert_eq!(cache.arrive(2, 21), Admission::Waiter);
}

#[test]
fn a_cached_key_is_served_without_a_fetch() {
    let mut cache = CoalescingCache::new();
    assert_eq!(cache.arrive(100, 1), Admission::Owner);
    cache.settle(100, 1, Ok(42)).unwrap();
    // Other keys come and go in between.
    assert_eq!(cache.arrive(200, 2), Admission::Owner);
    cache.settle(200, 2, Err(FetchError::Transport)).unwrap();
    assert_eq!(cache.arrive(300, 3), Admission::Owner);
    cache.settle(300, 3, Ok(7)).unwrap();
    for caller in 4..10 {
        assert_eq!(cache.arrive(100, caller), Admission::Cached(42));
        assert!(!cache.is_pending(100));
    }
    assert_eq!(cache.cached(100), Some(42));
}

#[test]
fn a_cached_value_is_never_overwritten() {
    let mut cache = CoalescingCache::new();
    assert_eq!(cache.arrive(100, 1), Admission::Owner);
    cache.settle(100, 1, Ok(42)).unwrap();
    // A late or stray report cannot replace the entry.
    assert!(cache.settle(100, 1, Ok(43)).is_none());
    assert!(cache.settle(100, 2, Err(FetchError::Decode)).is_none());
    assert_eq!(cache.cached(100), Some(42));
    assert_eq!(cache.arrive(100, 3), Admission::Cached(42));
}

#[test]
fn a_failed_fetch_does_not_poison_the_key() {
    let mut cache = CoalescingCache::new();
    assert_eq!(cache.arrive(100, 1), Admission::Owner);
    assert_eq!(cache.arrive(100, 2), Admission::Waiter);
    assert_eq!(cache.arrive(100, 3), Admission::Waiter);
    let release = cache.settle(100, 1, Err(FetchError::Transport)).unwrap();
    assert_eq!(release.waiters, vec![2, 3]);
    assert_eq!(release.signal, Err(FetchError::Wait));
    assert!(!cache.is_pending(100));
    assert_eq!(cache.cached(100), None);
    // The next caller starts a new fetch, which may succeed.
    assert_eq!(cache.arrive(100, 4), Admission::Owner);
    assert_eq!(cache.arrive(100, 5), Admission::Waiter);
    let release = cache.settle(100, 4, Ok(42)).unwrap();
    assert_eq!(release.waiters, vec![5]);
    assert_eq!(release.signal, Ok(42));
    assert_eq!(cache.cached(100), Some(42));
}

#[test]
fn waiters_never_see_the_owners_error() {
    for error in [FetchError::Transport, FetchError::Protocol, FetchError::Decode, FetchError::Wait] {
        let mut cache = CoalescingCache::new();
        assert_eq!(cache.arrive(9, 1), Admission::Owner);
        assert_eq!(cache.arrive(9, 2), Admission::Waiter);
        let release = cache.settle(9, 1, Err(error)).unwrap();
        assert_eq!(release.signal, Err(FetchError::Wait));
        assert_eq!(release.waiters, vec![2]);
    }
}

#[test]
fn only_the_owner_can_settle() {
    let mut cache = CoalescingCache::new();
    assert_eq!(cache.arrive(100, 1), Admission::Owner);
    assert_eq!(cache.arrive(100, 2), Admission::Waiter);
    assert!(cache.settle(100, 2, Ok(1)).is_none());
    assert!(cache.settle(101, 1, Ok(1)).is_none());
    assert!(cache.is_pending(100));
    assert_eq!(cache.cached(100), None);
    assert_eq!(cache.cached(101), None);
    let release = cache.settle(100, 1, Ok(42)).unwrap();
    assert_eq!(release.waiters, vec![2]);
}

#[test]
fn settling_twice_signals_nobody_the_second_time() {
    let mut cache = CoalescingCache::new();
    assert_eq!(cache.arrive(100, 1), Admission::Owner);
    assert_eq!(cache.arrive(100, 2), Admission::Waiter);
    assert!(cache.settle(100, 1, Err(FetchError::Protocol)).is_some());
    assert!(cache.settle(100, 1, Err(FetchError::Protocol)).is_none());
    assert!(!cache.is_pending(100));
}

#[test]
fn every_waiter_is_handed_back_once_in_order_of_arrival() {
    let mut cache = CoalescingCache::new();
    assert_eq!(cache.arrive(1, 50), Admission::Owner);
    let mut expected = Vec::new();
    for caller in (0..40u64).rev() {
        assert_eq!(cache.arrive(1, caller), Admission::Waiter);
        expected.push(caller);
    }
    // The same caller may wait twice; it is then signalled twice.
    assert_eq!(cache.arrive(1, 7), Admission::Waiter);
    expected.push(7);
    let release = cache.settle(1, 50, Ok(3)).unwrap();
    assert_eq!(release.waiters, expected);
    assert!(!cache.is_pending(1));
    // Nobody is left registered: a new episode starts with no waiters.
    let mut cache2 = cache;
    assert_eq!(cache2.arrive(1, 60), Admission::Cached(3));
}

#[test]
fn no_waiter_is_left_after_a_randomised_run() {
    // A fixed pseudo-random schedule of arrivals and reports over a few keys.
    let mut cache = CoalescingCache::new();
    let mut seed: u64 = 0x2545f4914f6cdd1d;
    let mut owners: Vec<Option<u64>> = vec![None; 4];
    let mut waiting: Vec<Vec<u64>> = vec![Vec::new(); 4];
    let mut calls = 0u64;
    let mut answered = 0u64;
    let mut fetcher_runs = 0u64;
    for caller in 0..2000u64 {
        seed ^= seed << 13;
        seed ^= seed >> 7;
        seed ^= seed << 17;
        let key = (seed % 4) as usize;
        if seed % 3 == 0 {
            if let Some(owner) = owners[key].take() {
                let outcome = if seed % 5 == 0 { Err(FetchError::Transport) } else { Ok(key as u64) };
                let release = cache.settle(key as u64, owner, outcome).unwrap();
                assert_eq!(release.waiters, waiting[key]);
                answered += 1 + release.waiters.len() as u64;
                waiting[key].clear();
                assert!(!cache.is_pending(key as u64));
            }
            continue;
        }
        calls += 1;
        match cache.arrive(key as u64, caller) {
            Admission::Cached(value) => {
                assert_eq!(value, key as u64);
                assert!(owners[key].is_none());
                answered += 1;
            }
            Admission::Owner => {
                assert!(owners[key].is_none());
                owners[key] = Some(caller);
                fetcher_runs += 1;
            }
            Admission::Waiter => {
                assert!(owners[key].is_some());
                waiting[key].push(caller);
            }
        }
    }
    for key in 0..4usize {
        if let Some(owner) = owners[key].take() {
            let release = cache.settle(key as u64, owner, Ok(key as u64)).unwrap();
            assert_eq!(release.waiters, waiting[key]);
            answered += 1 + release.waiters.len() as u64;
        }
        assert!(!cache.is_pending(key as u64));
    }
    assert_eq!(answered, calls);
    assert!(fetcher_runs >= 4);
}

#[test]
fn default_cache_is_empty() {
    let mut cache = CoalescingCache::default();
    assert_eq!(cache.cached(1), None);
    assert!(!cache.is_pending(1));
    assert_eq!(cache.arrive(1, 1), Admission::Owner);
}
