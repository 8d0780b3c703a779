//! Connection bootstrap supervisor: retry with capped exponential backoff
//! around a store's connection attempt, and a publish-once slot for the
//! resulting process-wide handle.
//!
//! The supervisor drives a `Connector`, which performs one connection attempt
//! (including a liveness probe) and sleeps between attempts; the relational
//! store and the cache store each get their own connector and are bootstrapped
//! independently.

use vstd::prelude::*;

verus! {

/// Configuration for one store's bootstrap: how many attempts, the base
/// backoff delay, and the backoff cap.
#[derive(Debug, Clone, Copy)]
pub struct RetryConfig {
    pub max_attempts: u32,
    pub base_delay_secs: u64,
    pub cap_secs: u64,
}

impl RetryConfig {
    /// The relational store's default retry budget.
    pub fn database_defaults() -> (r: RetryConfig)
        ensures
            r.max_attempts == 50,
            r.base_delay_secs == 1,
            r.cap_secs == 8,
    {
        RetryConfig { max_attempts: 50, base_delay_secs: 1, cap_secs: 8 }
    }

    /// The cache store's default retry budget.
    pub fn cache_defaults() -> (r: RetryConfig)
        ensures
            r.max_attempts == 20,
            r.base_delay_secs == 2,
            r.cap_secs == 16,
    {
        RetryConfig { max_attempts: 20, base_delay_secs: 2, cap_secs: 16 }
    }
}

pub open spec fn spec_pow2(n: nat) -> nat
    decreases n,
{
    if n == 0 {
        1
    } else {
        2 * spec_pow2((n - 1) as nat)
    }
}

/// The backoff slept after failed attempt `attempt`:
/// `min(base * 2^(attempt - 1), cap)`.
pub open spec fn spec_backoff(base: nat, attempt: nat, cap: nat) -> nat
    recommends
        attempt >= 1,
{
    if base * spec_pow2((attempt - 1) as nat) > cap {
        cap
    } else {
        base * spec_pow2((attempt - 1) as nat)
    }
}

/// Total sleep after `k` failed attempts: the sum of the first `k` backoffs.
pub open spec fn spec_total_backoff(base: nat, cap: nat, k: nat) -> nat
    decreases k,
{
    if k == 0 {
        0
    } else {
        spec_total_backoff(base, cap, (k - 1) as nat) + spec_backoff(base, k, cap)
    }
}

/// Compute the capped exponential backoff for a failed attempt.
pub fn backoff_delay(base: u64, attempt: u32, cap: u64) -> (r: u64)
    requires
        attempt >= 1,
    ensures
        r == spec_backoff(base as nat, attempt as nat, cap as nat),
        r <= cap,
{
    if base > cap {
        proof {
            assert(spec_pow2(0) == 1);
            lemma_pow2_ge_one((attempt - 1) as nat);
            assert(base as nat * spec_pow2((attempt - 1) as nat) >= base as nat * 1) by (nonlinear_arith)
                requires
                    spec_pow2((attempt - 1) as nat) >= 1,
            ;
        }
        return cap;
    }
    let mut d: u64 = base;
    let mut k: u32 = 1;
    let ghost b = base as nat;
    let ghost c = cap as nat;
    while k < attempt
        invariant
            1 <= k <= attempt,
            d as nat == spec_backoff(b, k as nat, c),
            d <= cap,
            b <= c,
            c == cap as nat,
            b == base as nat,
        decreases attempt - k,
    {
        let ghost t = b * spec_pow2((k - 1) as nat);
        proof {
            assert(spec_pow2(k as nat) == 2 * spec_pow2((k - 1) as nat));
            assert(b * spec_pow2(k as nat) == 2 * t) by (nonlinear_arith)
                requires
                    spec_pow2(k as nat) == 2 * spec_pow2((k - 1) as nat),
                    t == b * spec_pow2((k - 1) as nat),
            ;
        }
        if d <= cap / 2 {
            d = d * 2;
            proof {
                if t <= c {
                    assert(d as nat == 2 * t);
                    assert(2 * t <= c);
                } else {
                    assert(c <= c / 2);
                    assert(c == 0);
                    assert(d as nat == 0);
                }
            }
        } else {
            proof {
                if t > c {
                    assert(2 * t > c);
                } else {
                    assert(d as nat == t);
                    assert(2 * t > c);
                }
            }
            d = cap;
        }
        k = k + 1;
    }
    d
}

proof fn lemma_pow2_ge_one(n: nat)
    ensures
        spec_pow2(n) >= 1,
    decreases n,
{
    if n > 0 {
        lemma_pow2_ge_one((n - 1) as nat);
    }
}

/// One backing store's connection interface, as driven by the supervisor: a
/// single connection attempt (with its liveness probe), and the sleep between
/// attempts. Implementations talk to the outside world, so nothing is
/// promised about their outcomes.
pub trait Connector: Sized {
    /// The pooled connection handle a successful attempt produces.
    type Handle;

    /// Try to establish and probe one pooled connection.
    fn try_connect(&mut self) -> (r: Result<Self::Handle, String>);

    /// Sleep for `secs` seconds before the next attempt.
    fn sleep_secs(&mut self, secs: u64);
}

/// How a successful bootstrap went: the attempt that succeeded and the total
/// backoff slept before it.
#[derive(Debug, Clone, Copy)]
pub struct BootstrapStats {
    pub attempts: u32,
    pub total_sleep_secs: u64,
}

/// Terminal bootstrap failure: the retry budget is exhausted. The process
/// must not serve traffic after this.
#[derive(Debug)]
pub struct StartupFailure {
    /// How many attempts were made (the full budget).
    pub attempts: u32,
    /// Total backoff slept between attempts.
    pub total_sleep_secs: u64,
    /// The last underlying cause.
    pub last_error: String,
}

/// Run the retry loop for one store: attempt, and on failure sleep the capped
/// exponential backoff before the next attempt, until success or an exhausted
/// budget. Exactly `max_attempts` attempts are made before failure, with no
/// sleep after the last one.
pub fn run_bootstrap<C: Connector>(conn: &mut C, cfg: &RetryConfig) -> (r: Result<
    (C::Handle, BootstrapStats),
    StartupFailure,
>)
    requires
        cfg.max_attempts >= 1,
        cfg.max_attempts as int * cfg.cap_secs as int <= u64::MAX as int,
    ensures
        r matches Ok(p) ==> 1 <= p.1.attempts <= cfg.max_attempts && p.1.total_sleep_secs as nat
            == spec_total_backoff(
            cfg.base_delay_secs as nat,
            cfg.cap_secs as nat,
            (p.1.attempts - 1) as nat,
        ),
        r matches Err(f) ==> f.attempts == cfg.max_attempts && f.total_sleep_secs as nat
            == spec_total_backoff(
            cfg.base_delay_secs as nat,
            cfg.cap_secs as nat,
            (cfg.max_attempts - 1) as nat,
        ),
{
    let ghost b = cfg.base_delay_secs as nat;
    let ghost c = cfg.cap_secs as nat;
    let mut attempt: u32 = 1;
    let mut total_sleep: u64 = 0;
    while attempt < cfg.max_attempts
        invariant
            1 <= attempt <= cfg.max_attempts,
            total_sleep as nat == spec_total_backoff(b, c, (attempt - 1) as nat),
            total_sleep as int <= (attempt - 1) as int * cfg.cap_secs as int,
            cfg.max_attempts as int * cfg.cap_secs as int <= u64::MAX as int,
            b == cfg.base_delay_secs as nat,
            c == cfg.cap_secs as nat,
        ensures
            1 <= attempt <= cfg.max_attempts,
            total_sleep as nat == spec_total_backoff(b, c, (attempt - 1) as nat),
            attempt == cfg.max_attempts,
        decreases cfg.max_attempts - attempt,
    {
        match conn.try_connect() {
            Ok(handle) => {
                return Ok((handle, BootstrapStats { attempts: attempt, total_sleep_secs: total_sleep }));
            },
            Err(_) => {
                let d = backoff_delay(cfg.base_delay_secs, attempt, cfg.cap_secs);
                conn.sleep_secs(d);
                proof {
                    assert((attempt - 1) as int * cfg.cap_secs as int + cfg.cap_secs as int
                        == attempt as int * cfg.cap_secs as int) by (nonlinear_arith);
                    assert(attempt as int * cfg.cap_secs as int <= cfg.max_attempts as int
                        * cfg.cap_secs as int) by (nonlinear_arith)
                        requires
                            attempt as int <= cfg.max_attempts as int,
                            cfg.cap_secs as int >= 0,
                    ;
                }
                total_sleep = total_sleep + d;
                attempt = attempt + 1;
            },
        }
    }
    match conn.try_connect() {
        Ok(handle) => Ok((handle, BootstrapStats { attempts: attempt, total_sleep_secs: total_sleep })),
        Err(e) => Err(
            StartupFailure { attempts: attempt, total_sleep_secs: total_sleep, last_error: e },
        ),
    }
}

/// What publishing into a set-once slot does: the first publish wins, any
/// later one is a no-op.
pub open spec fn spec_publish<H>(current: Option<H>, handle: H) -> (Option<H>, bool) {
    if current is None {
        (Some(handle), true)
    } else {
        (current, false)
    }
}

/// A set-once slot for a process-wide pool handle. The first publish wins;
/// a losing publish leaves the slot untouched and reports that it lost, so
/// the caller can discard its own handle deliberately rather than silently.
pub struct PoolSlot<H> {
    value: Option<H>,
}

impl<H> PoolSlot<H> {
    /// The published handle, if any.
    pub closed spec fn spec_get(&self) -> Option<H> {
        self.value
    }

    /// An empty slot.
    pub fn new() -> (r: PoolSlot<H>)
        ensures
            r.spec_get() is None,
    {
        PoolSlot { value: None }
    }

    /// Publish a handle unless one is already published; report whether this
    /// call won. A losing call never overwrites the published handle.
    pub fn publish(&mut self, handle: H) -> (won: bool)
        ensures
            (final(self).spec_get(), won) == spec_publish(old(self).spec_get(), handle),
            won == (old(self).spec_get() is None),
    {
        match self.value {
            Some(_) => false,
            None => {
                self.value = Some(handle);
                true
            },
        }
    }

    /// Whether a handle has been published.
    pub fn is_initialized(&self) -> (r: bool)
        ensures
            r == (self.spec_get() is Some),
    {
        self.value.is_some()
    }

    /// Borrow the published handle, if any.
    pub fn get(&self) -> (r: Option<&H>)
        ensures
            match r {
                Some(h) => self.spec_get() == Some(*h),
                None => self.spec_get() is None,
            },
    {
        self.value.as_ref()
    }
}

/// Exactly one of two publishes into a fresh slot wins: the first publish
/// claims the slot, the second is a no-op that reports losing, and the slot
/// holds the first handle afterwards.
pub proof fn lemma_publish_once<H>(h1: H, h2: H)
    ensures
        ({
            let (s1, won1) = spec_publish(None::<H>, h1);
            let (s2, won2) = spec_publish(s1, h2);
            won1 && !won2 && s2 == Some(h1)
        }),
{
}

} // verus!
