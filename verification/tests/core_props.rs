//! Credential-hasher and bootstrap-supervisor properties, run against the
//! real hashing and randomness crates.

use cr8s::auth::{create_password_hasher, SESSION_TOKEN_LEN};
use cr8s::bootstrap::{backoff_delay, run_bootstrap, Connector, PoolSlot, RetryConfig};
use cr8s::password::{create_mock_password_hasher, PasswordHasherTrait};
use std::collections::HashSet;

#[test]
fn test_hash_twice_differs_and_both_verify() {
    let hasher = create_password_hasher().unwrap();
    let password = "s3cret-password".to_string();

    let h1 = hasher.hash_password(&password).unwrap();
    let h2 = hasher.hash_password(&password).unwrap();

    // Distinct random salt per call: two hashes of the same password differ.
    assert_ne!(h1, h2);
    // Both verify the password they were produced from.
    assert!(hasher.verify_password(&h1, &password).is_ok());
    assert!(hasher.verify_password(&h2, &password).is_ok());
}

#[test]
fn test_verify_rejects_other_password() {
    let hasher = create_password_hasher().unwrap();
    let p = "correct horse".to_string();
    let q = "battery staple".to_string();

    let h = hasher.hash_password(&p).unwrap();
    assert!(hasher.verify_password(&h, &q).is_err());
    assert!(hasher.verify_password(&h, &p).is_ok());
}

#[test]
fn test_verify_rejects_garbage_hash() {
    let hasher = create_password_hasher().unwrap();
    assert!(hasher
        .verify_password(&"not a phc string".to_string(), &"pw".to_string())
        .is_err());
}

#[test]
fn test_mock_hasher_round_trip() {
    let hasher = create_mock_password_hasher().unwrap();
    let h = hasher.hash_password(&"pw".to_string()).unwrap();
    assert_eq!(h, "mock_hash(pw)");
    assert!(hasher.verify_password(&h, &"pw".to_string()).is_ok());
    assert!(hasher.verify_password(&h, &"pw2".to_string()).is_err());
    assert_eq!(hasher.generate_session_token(), "mock-session-token");
}

#[test]
fn test_token_length_and_alphabet() {
    let hasher = create_password_hasher().unwrap();
    for _ in 0..50 {
        let token = hasher.generate_session_token();
        assert_eq!(token.chars().count(), SESSION_TOKEN_LEN);
        assert!(token.chars().all(|c| c.is_ascii_alphanumeric()));
    }
}

#[test]
fn test_tokens_do_not_repeat() {
    let hasher = create_password_hasher().unwrap();
    let mut seen: HashSet<String> = HashSet::new();
    for _ in 0..10_000 {
        let token = hasher.generate_session_token();
        assert!(seen.insert(token), "duplicate session token generated");
    }
}

/// A fake store: fails the first `failures` connection attempts, then
/// succeeds; records every sleep the supervisor asks for.
struct FlakyStore {
    failures: u32,
    attempts_made: u32,
    sleeps: Vec<u64>,
}

impl FlakyStore {
    fn new(failures: u32) -> FlakyStore {
        FlakyStore {
            failures,
            attempts_made: 0,
            sleeps: Vec::new(),
        }
    }
}

impl Connector for FlakyStore {
    type Handle = &'static str;

    fn try_connect(&mut self) -> Result<&'static str, String> {
        self.attempts_made += 1;
        if self.attempts_made <= self.failures {
            Err("connection refused".to_string())
        } else {
            Ok("pool-handle")
        }
    }

    fn sleep_secs(&mut self, secs: u64) {
        self.sleeps.push(secs);
    }
}

#[test]
fn test_bootstrap_succeeds_on_third_attempt_after_backoff() {
    let mut store = FlakyStore::new(2);
    let cfg = RetryConfig {
        max_attempts: 10,
        base_delay_secs: 1,
        cap_secs: 8,
    };

    let (handle, stats) = run_bootstrap(&mut store, &cfg).unwrap();
    assert_eq!(handle, "pool-handle");
    assert_eq!(stats.attempts, 3);
    assert_eq!(store.attempts_made, 3);
    // Backoff 1s after the first failure, 2s after the second: 3s in all.
    assert_eq!(store.sleeps, vec![1, 2]);
    assert_eq!(stats.total_sleep_secs, 3);
}

#[test]
fn test_bootstrap_exhausts_attempts_and_publishes_nothing() {
    let mut store = FlakyStore::new(u32::MAX);
    let cfg = RetryConfig {
        max_attempts: 3,
        base_delay_secs: 1,
        cap_secs: 8,
    };
    let mut slot: PoolSlot<&'static str> = PoolSlot::new();

    let failure = run_bootstrap(&mut store, &cfg).unwrap_err();
    assert_eq!(failure.attempts, 3);
    assert_eq!(store.attempts_made, 3);
    assert_eq!(failure.last_error, "connection refused");
    // Sleeps only between attempts, none after the last one.
    assert_eq!(store.sleeps, vec![1, 2]);
    // No handle was produced, so nothing was published.
    assert!(!slot.is_initialized());
    assert!(slot.get().is_none());
}

#[test]
fn test_backoff_is_capped_exponential() {
    // base 2, cap 16: 2, 4, 8, 16, 16, ...
    assert_eq!(backoff_delay(2, 1, 16), 2);
    assert_eq!(backoff_delay(2, 2, 16), 4);
    assert_eq!(backoff_delay(2, 3, 16), 8);
    assert_eq!(backoff_delay(2, 4, 16), 16);
    assert_eq!(backoff_delay(2, 5, 16), 16);
    assert_eq!(backoff_delay(2, 63, 16), 16);
    // base 1, cap 8: 1, 2, 4, 8, 8, ...
    assert_eq!(backoff_delay(1, 1, 8), 1);
    assert_eq!(backoff_delay(1, 2, 8), 2);
    assert_eq!(backoff_delay(1, 3, 8), 4);
    assert_eq!(backoff_delay(1, 4, 8), 8);
    assert_eq!(backoff_delay(1, 5, 8), 8);
}

#[test]
fn test_publish_once_wins_exactly_once() {
    let mut slot: PoolSlot<String> = PoolSlot::new();
    assert!(!slot.is_initialized());

    // Two bootstrap paths race to publish; the slot is a linearizable
    // compare-and-set, so exactly the first publish wins.
    let won_first = slot.publish("handle-a".to_string());
    let won_second = slot.publish("handle-b".to_string());

    assert!(won_first);
    assert!(!won_second);
    assert_eq!(slot.get(), Some(&"handle-a".to_string()));
}

#[test]
fn test_retry_config_defaults() {
    let db = RetryConfig::database_defaults();
    assert_eq!(
        (db.max_attempts, db.base_delay_secs, db.cap_secs),
        (50, 1, 8)
    );
    let cache = RetryConfig::cache_defaults();
    assert_eq!(
        (cache.max_attempts, cache.base_delay_secs, cache.cap_secs),
        (20, 2, 16)
    );
}
