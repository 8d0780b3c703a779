//! Session storage: the key-value mapping from opaque session token to user id.
//!
//! `CacheContextTrait` is the abstract capability; `SessionStore` is the
//! in-process implementation, a vector of entries with unique token keys.
//! A production implementation backed by an external cache service lives
//! outside the verified library and is injected the same way.
//!
//! Expiration policy: entries stay until explicitly cleared; no time-to-live
//! is applied at write time.

use vstd::prelude::*;

verus! {

/// Failure of the backing cache service.
#[derive(Debug, Clone, Copy, PartialEq, Eq, Structural)]
pub enum CacheError {
    Backend,
}

/// What a sequence of (token, user id) entries associates with `t`:
/// the user id of the first entry whose token is `t`, if any.
pub open spec fn spec_lookup(es: Seq<(String, i32)>, t: Seq<char>) -> Option<i32>
    decreases es.len(),
{
    if es.len() == 0 {
        None
    } else if es[0].0@ == t {
        Some(es[0].1)
    } else {
        spec_lookup(es.drop_first(), t)
    }
}

/// No two entries share a token.
pub open spec fn unique_tokens(es: Seq<(String, i32)>) -> bool {
    forall|i: int, j: int| 0 <= i < j < es.len() ==> (#[trigger] es[i]).0@ != (#[trigger] es[j]).0@
}

proof fn lemma_lookup_found(es: Seq<(String, i32)>, t: Seq<char>, k: int)
    requires
        0 <= k < es.len(),
        es[k].0@ == t,
        forall|j: int| 0 <= j < k ==> (#[trigger] es[j]).0@ != t,
    ensures
        spec_lookup(es, t) == Some(es[k].1),
    decreases es.len(),
{
    if k > 0 {
        lemma_lookup_found(es.drop_first(), t, k - 1);
    }
}

proof fn lemma_lookup_absent(es: Seq<(String, i32)>, t: Seq<char>)
    requires
        forall|j: int| 0 <= j < es.len() ==> (#[trigger] es[j]).0@ != t,
    ensures
        spec_lookup(es, t) is None,
    decreases es.len(),
{
    if es.len() > 0 {
        lemma_lookup_absent(es.drop_first(), t);
    }
}

proof fn lemma_lookup_push(es: Seq<(String, i32)>, x: (String, i32), t: Seq<char>)
    ensures
        spec_lookup(es.push(x), t) == (if spec_lookup(es, t) is Some {
            spec_lookup(es, t)
        } else if x.0@ == t {
            Some(x.1)
        } else {
            None
        }),
    decreases es.len(),
{
    let ps = es.push(x);
    if es.len() == 0 {
        assert(ps[0] == x);
        assert(ps.drop_first() =~= Seq::<(String, i32)>::empty());
        if x.0@ == t {
            assert(spec_lookup(ps, t) == Some(x.1));
        } else {
            assert(spec_lookup(ps.drop_first(), t) is None);
        }
    } else {
        assert(ps[0] == es[0]);
        assert(ps.drop_first() =~= es.drop_first().push(x));
        lemma_lookup_push(es.drop_first(), x, t);
        if es[0].0@ == t {
            assert(spec_lookup(ps, t) == Some(es[0].1));
            assert(spec_lookup(es, t) == Some(es[0].1));
        } else {
            assert(spec_lookup(ps, t) == spec_lookup(es.drop_first().push(x), t));
            assert(spec_lookup(es, t) == spec_lookup(es.drop_first(), t));
        }
    }
}

proof fn lemma_lookup_remove(es: Seq<(String, i32)>, k: int, t: Seq<char>)
    requires
        unique_tokens(es),
        0 <= k < es.len(),
    ensures
        spec_lookup(es.remove(k), t) == (if es[k].0@ == t {
            None
        } else {
            spec_lookup(es, t)
        }),
    decreases es.len(),
{
    assert(unique_tokens(es.drop_first()));
    if k == 0 {
        assert(es.remove(0) =~= es.drop_first());
        if es[0].0@ == t {
            assert(forall|j: int|
                0 <= j < es.drop_first().len() ==> (#[trigger] es.drop_first()[j]).0@ != t);
            lemma_lookup_absent(es.drop_first(), t);
        }
    } else {
        assert(es.remove(k)[0] == es[0]);
        assert(es.remove(k).drop_first() =~= es.drop_first().remove(k - 1));
        lemma_lookup_remove(es.drop_first(), k - 1, t);
    }
}

/// Abstract trait over session/token cache behavior.
///
/// The model is the partial map from token to user id, exposed as
/// `spec_lookup_token`. Any call may fail with a backend error; what an
/// implementation promises beyond that is stated on the implementation.
pub trait CacheContextTrait: Sized {
    /// Implementation-specific well-formedness of the store. The default
    /// leaves an outside implementation unconstrained; verified
    /// implementations override it.
    open spec fn spec_wf(&self) -> bool {
        true
    }

    /// The user id currently associated with `token`, if any. The default
    /// claims nothing; verified implementations override it.
    open spec fn spec_lookup_token(&self, token: Seq<char>) -> Option<i32> {
        None
    }

    /// Resolve a session token to the associated user id, or `None` if the
    /// token is not present.
    fn get_user_id_by_session_token(&self, token: &String) -> (r: Result<Option<i32>, CacheError>)
        requires
            self.spec_wf(),
        ensures
            r matches Ok(v) ==> v == self.spec_lookup_token(token@),
    ;

    /// Associate `token` with `user_id`, overwriting any prior mapping for
    /// that token; other tokens are untouched.
    fn set_user_session_token(&mut self, user_id: i32, token: &String) -> (r: Result<
        (),
        CacheError,
    >)
        requires
            old(self).spec_wf(),
        ensures
            final(self).spec_wf(),
            r is Ok ==> forall|t: Seq<char>|
                final(self).spec_lookup_token(t) == (if t == token@ {
                    Some(user_id)
                } else {
                    old(self).spec_lookup_token(t)
                }),
    ;

    /// Remove the mapping for `token` if present; report whether anything was
    /// removed. Repeat calls are idempotent.
    fn clear_session_token(&mut self, token: &String) -> (r: Result<bool, CacheError>)
        requires
            old(self).spec_wf(),
        ensures
            final(self).spec_wf(),
            r matches Ok(b) ==> b == (old(self).spec_lookup_token(token@) is Some)
                && forall|t: Seq<char>|
                final(self).spec_lookup_token(t) == (if t == token@ {
                    None::<i32>
                } else {
                    old(self).spec_lookup_token(t)
                }),
    ;
}

/// In-process session store: a vector of (token, user id) entries with
/// pairwise-distinct tokens.
pub struct SessionStore {
    entries: Vec<(String, i32)>,
}

impl SessionStore {
    /// An empty session store.
    pub fn new() -> (r: SessionStore)
        ensures
            r.spec_wf(),
            forall|t: Seq<char>| r.spec_lookup_token(t) is None,
    {
        let r = SessionStore { entries: Vec::new() };
        proof {
            assert forall|t: Seq<char>| r.spec_lookup_token(t) is None by {
                lemma_lookup_absent(r.entries@, t);
            }
        }
        r
    }

    /// Index of the entry holding `token`, if any.
    fn find_index(&self, token: &String) -> (r: Option<usize>)
        ensures
            match r {
                Some(k) => k < self.entries@.len() && self.entries@[k as int].0@ == token@,
                None => forall|j: int|
                    0 <= j < self.entries@.len() ==> (#[trigger] self.entries@[j]).0@ != token@,
            },
    {
        let mut i: usize = 0;
        while i < self.entries.len()
            invariant
                i <= self.entries@.len(),
                forall|j: int| 0 <= j < i ==> (#[trigger] self.entries@[j]).0@ != token@,
            decreases self.entries@.len() - i,
        {
            if self.entries[i].0 == *token {
                return Some(i);
            }
            i = i + 1;
        }
        None
    }
}

impl CacheContextTrait for SessionStore {
    closed spec fn spec_wf(&self) -> bool {
        unique_tokens(self.entries@)
    }

    closed spec fn spec_lookup_token(&self, token: Seq<char>) -> Option<i32> {
        spec_lookup(self.entries@, token)
    }

    /// Never fails: the store is in-process.
    fn get_user_id_by_session_token(&self, token: &String) -> (r: Result<Option<i32>, CacheError>)
        ensures
            r is Ok,
    {
        match self.find_index(token) {
            Some(k) => {
                proof {
                    assert forall|j: int| 0 <= j < k implies (#[trigger] self.entries@[j]).0@
                        != token@ by {
                        assert(self.entries@[j].0@ != self.entries@[k as int].0@);
                    }
                    lemma_lookup_found(self.entries@, token@, k as int);
                }
                Ok(Some(self.entries[k].1))
            },
            None => {
                proof {
                    lemma_lookup_absent(self.entries@, token@);
                }
                Ok(None)
            },
        }
    }

    /// Never fails: the store is in-process.
    fn set_user_session_token(&mut self, user_id: i32, token: &String) -> (r: Result<
        (),
        CacheError,
    >)
        ensures
            r is Ok,
    {
        let cleared = self.clear_session_token(token);
        let ghost before = *self;
        self.entries.push((token.clone(), user_id));
        proof {
            assert(cleared is Ok);
            let x = self.entries@.last();
            assert(self.entries@ == before.entries@.push(x));
            assert(x.0@ == token@);
            assert forall|t: Seq<char>|
                self.spec_lookup_token(t) == (if t == token@ {
                    Some(user_id)
                } else {
                    old(self).spec_lookup_token(t)
                }) by {
                lemma_lookup_push(before.entries@, x, t);
                if t == token@ {
                    assert(before.spec_lookup_token(t) is None);
                }
            }
            assert forall|i: int, j: int|
                0 <= i < j < self.entries@.len() implies (#[trigger] self.entries@[i]).0@ != (
            #[trigger] self.entries@[j]).0@ by {
                if j == self.entries@.len() - 1 {
                    assert(self.entries@[i] == before.entries@[i]);
                    if before.entries@[i].0@ == token@ {
                        lemma_lookup_found_any(before.entries@, token@, i);
                    }
                } else {
                    assert(self.entries@[i] == before.entries@[i]);
                    assert(self.entries@[j] == before.entries@[j]);
                }
            }
        }
        Ok(())
    }

    /// Never fails: the store is in-process.
    fn clear_session_token(&mut self, token: &String) -> (r: Result<bool, CacheError>)
        ensures
            r is Ok,
    {
        match self.find_index(token) {
            Some(k) => {
                proof {
                    lemma_lookup_found_any(self.entries@, token@, k as int);
                }
                let ghost before = self.entries@;
                self.entries.remove(k);
                proof {
                    assert forall|t: Seq<char>|
                        self.spec_lookup_token(t) == (if t == token@ {
                            None::<i32>
                        } else {
                            spec_lookup(before, t)
                        }) by {
                        lemma_lookup_remove(before, k as int, t);
                    }
                    assert(unique_tokens(self.entries@)) by {
                        lemma_unique_remove(before, k as int);
                    }
                }
                Ok(true)
            },
            None => {
                proof {
                    lemma_lookup_absent(self.entries@, token@);
                }
                Ok(false)
            },
        }
    }
}

/// If any entry holds token `t`, the lookup finds something.
proof fn lemma_lookup_found_any(es: Seq<(String, i32)>, t: Seq<char>, k: int)
    requires
        0 <= k < es.len(),
        es[k].0@ == t,
    ensures
        spec_lookup(es, t) is Some,
    decreases es.len(),
{
    if es[0].0@ != t {
        lemma_lookup_found_any(es.drop_first(), t, k - 1);
    }
}

proof fn lemma_unique_remove(es: Seq<(String, i32)>, k: int)
    requires
        unique_tokens(es),
        0 <= k < es.len(),
    ensures
        unique_tokens(es.remove(k)),
{
    assert forall|i: int, j: int|
        0 <= i < j < es.remove(k).len() implies (#[trigger] es.remove(k)[i]).0@ != (
    #[trigger] es.remove(k)[j]).0@ by {
        let i0: int = if i < k {
            i
        } else {
            i + 1
        };
        let j0: int = if j < k {
            j
        } else {
            j + 1
        };
        assert(es.remove(k)[i] == es[i0]);
        assert(es.remove(k)[j] == es[j0]);
    }
}

/// Return the in-process session cache context.
pub fn create_cache_context() -> (r: SessionStore)
    ensures
        r.spec_wf(),
        forall|t: Seq<char>| r.spec_lookup_token(t) is None,
{
    SessionStore::new()
}

} // verus!
