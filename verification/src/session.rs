//! The session and ownership authority: resolves opaque session tokens,
//! held server-side, to user identities, and decides whether a caller
//! may mutate a link.
//!
//! The store is keyed by a per-process signing secret generated once at
//! startup and shared, immutable, by every worker: no operation here
//! ever changes it. On a successful login the gateway binds the caller's
//! token to the user; logout purges the binding.

use vstd::prelude::*;

use crate::credentials::random_redis_key;
use crate::links::Route;

verus! {

/// Mathematical image of the authority: the immutable signing secret and
/// the token-to-user bindings.
pub struct SessionAuthorityView {
    pub secret: Seq<u8>,
    pub sessions: Seq<(u64, u128)>,
}

/// No two bindings share a token.
pub open spec fn tokens_wf(s: Seq<(u64, u128)>) -> bool {
    forall|i: int, j: int| 0 <= i < j < s.len() ==> s[i].0 != s[j].0
}

/// Some binding carries `token`.
pub open spec fn contains_token(s: Seq<(u64, u128)>, token: u64) -> bool {
    exists|i: int| 0 <= i < s.len() && s[i].0 == token
}

/// Position of the binding carrying `token`.
pub open spec fn token_index(s: Seq<(u64, u128)>, token: u64) -> int {
    choose|i: int| 0 <= i < s.len() && s[i].0 == token
}

/// The user a token resolves to, if any.
pub open spec fn spec_resolve(s: Seq<(u64, u128)>, token: u64) -> Option<u128> {
    if contains_token(s, token) {
        Some(s[token_index(s, token)].1)
    } else {
        None
    }
}

/// Under `tokens_wf`, a position holding `token` is the unique one.
pub proof fn lemma_token_index_is(s: Seq<(u64, u128)>, token: u64, i: int)
    requires
        tokens_wf(s),
        0 <= i < s.len(),
        s[i].0 == token,
    ensures
        contains_token(s, token),
        token_index(s, token) == i,
{
    assert(contains_token(s, token));
    let j = token_index(s, token);
    if i < j {
        assert(s[i].0 != s[j].0);
    } else if j < i {
        assert(s[j].0 != s[i].0);
    }
}

/// Replacing the binding at a position keeps every other token's
/// resolution.
proof fn lemma_resolve_update_other(s: Seq<(u64, u128)>, i: int, token: u64, uid: u128, t: u64)
    requires
        tokens_wf(s),
        0 <= i < s.len(),
        s[i].0 == token,
        t != token,
    ensures
        spec_resolve(s.update(i, (token, uid)), t) == spec_resolve(s, t),
{
    let s2 = s.update(i, (token, uid));
    if contains_token(s2, t) {
        let j = choose|j: int| 0 <= j < s2.len() && s2[j].0 == t;
        assert(s[j].0 == t);
        lemma_token_index_is(s, t, j);
        assert(tokens_wf(s2)) by {
            assert forall|a: int, b: int| 0 <= a < b < s2.len() implies s2[a].0 != s2[b].0 by {
                assert(s2[a].0 == s[a].0 && s2[b].0 == s[b].0);
            }
        }
        lemma_token_index_is(s2, t, j);
    } else if contains_token(s, t) {
        let j = choose|j: int| 0 <= j < s.len() && s[j].0 == t;
        assert(s2[j].0 == t);
    }
}

/// Appending a binding keeps every other token's resolution.
proof fn lemma_resolve_push_other(s: Seq<(u64, u128)>, token: u64, uid: u128, t: u64)
    requires
        tokens_wf(s),
        !contains_token(s, token),
        t != token,
    ensures
        spec_resolve(s.push((token, uid)), t) == spec_resolve(s, t),
{
    let s2 = s.push((token, uid));
    if contains_token(s2, t) {
        let j = choose|j: int| 0 <= j < s2.len() && s2[j].0 == t;
        assert(j < s.len());
        assert(s[j].0 == t);
        lemma_token_index_is(s, t, j);
        assert(tokens_wf(s2)) by {
            assert forall|a: int, b: int| 0 <= a < b < s2.len() implies s2[a].0 != s2[b].0 by {
                if b == s.len() {
                    assert(!(0 <= a < s.len() && s[a].0 == token));
                }
            }
        }
        lemma_token_index_is(s2, t, j);
    } else if contains_token(s, t) {
        let j = choose|j: int| 0 <= j < s.len() && s[j].0 == t;
        assert(s2[j].0 == t);
    }
}

/// Removing a binding keeps every other token's resolution.
proof fn lemma_resolve_remove_other(s: Seq<(u64, u128)>, i: int, t: u64)
    requires
        tokens_wf(s),
        0 <= i < s.len(),
        s[i].0 != t,
    ensures
        spec_resolve(s.remove(i), t) == spec_resolve(s, t),
        tokens_wf(s.remove(i)),
{
    let s2 = s.remove(i);
    assert(tokens_wf(s2)) by {
        assert forall|a: int, b: int| 0 <= a < b < s2.len() implies s2[a].0 != s2[b].0 by {
            let a0 = if a < i {
                a
            } else {
                a + 1
            };
            let b0 = if b < i {
                b
            } else {
                b + 1
            };
            assert(s2[a] == s[a0] && s2[b] == s[b0]);
        }
    }
    if contains_token(s2, t) {
        let j = choose|j: int| 0 <= j < s2.len() && s2[j].0 == t;
        let j0 = if j < i {
            j
        } else {
            j + 1
        };
        assert(s2[j] == s[j0]);
        lemma_token_index_is(s, t, j0);
        lemma_token_index_is(s2, t, j);
    } else if contains_token(s, t) {
        let j = choose|j: int| 0 <= j < s.len() && s[j].0 == t;
        let j2 = if j < i {
            j
        } else {
            j - 1
        };
        assert(s2[j2] == s[j]);
    }
}

/// The session store: a per-process signing secret and the bindings from
/// opaque tokens to authenticated users.
pub struct SessionAuthority {
    secret: [u8; 32],
    sessions: Vec<(u64, u128)>,
}

impl View for SessionAuthority {
    type V = SessionAuthorityView;

    closed spec fn view(&self) -> SessionAuthorityView {
        SessionAuthorityView { secret: self.secret@, sessions: self.sessions@ }
    }
}

impl SessionAuthority {
    /// Token uniqueness.
    pub open spec fn wf(&self) -> bool {
        tokens_wf(self@.sessions)
    }

    /// An authority with the given signing secret and no bindings.
    pub fn new(secret: [u8; 32]) -> (r: Self)
        ensures
            r.wf(),
            r@.secret == secret@,
            r@.sessions == Seq::<(u64, u128)>::empty(),
    {
        SessionAuthority { secret, sessions: Vec::new() }
    }

    /// An authority with a freshly drawn random signing secret, for
    /// process startup; the secret is fixed for the process lifetime and
    /// shared by all workers.
    pub fn with_fresh_secret() -> (r: Self)
        ensures
            r.wf(),
            r@.sessions == Seq::<(u64, u128)>::empty(),
    {
        SessionAuthority::new(random_redis_key())
    }

    /// Resolve a session token to the user it is bound to, if any.
    pub fn authenticate(&self, token: u64) -> (r: Option<u128>)
        requires
            self.wf(),
        ensures
            r == spec_resolve(self@.sessions, token),
    {
        let mut i: usize = 0;
        while i < self.sessions.len()
            invariant
                self.wf(),
                0 <= i <= self@.sessions.len(),
                self@.sessions.len() == self.sessions@.len(),
                forall|j: int| 0 <= j < i ==> self@.sessions[j].0 != token,
            decreases self@.sessions.len() - i,
        {
            if self.sessions[i].0 == token {
                proof {
                    lemma_token_index_is(self@.sessions, token, i as int);
                }
                return Some(self.sessions[i].1);
            }
            i += 1;
        }
        None
    }

    /// Bind `token` to `user_id`, replacing any binding the token had.
    /// Every other token's resolution, and the secret, are untouched.
    pub fn bind(&mut self, token: u64, user_id: u128)
        requires
            old(self).wf(),
        ensures
            final(self).wf(),
            final(self)@.secret == old(self)@.secret,
            spec_resolve(final(self)@.sessions, token) == Some(user_id),
            forall|t: u64|
                t != token ==> spec_resolve(final(self)@.sessions, t) == spec_resolve(
                    old(self)@.sessions,
                    t,
                ),
    {
        let ghost pre = self@.sessions;
        let mut i: usize = 0;
        while i < self.sessions.len()
            invariant
                self.wf(),
                *self == *old(self),
                0 <= i <= self@.sessions.len(),
                self@.sessions.len() == self.sessions@.len(),
                forall|j: int| 0 <= j < i ==> self@.sessions[j].0 != token,
            decreases self@.sessions.len() - i,
        {
            if self.sessions[i].0 == token {
                proof {
                    lemma_token_index_is(self@.sessions, token, i as int);
                }
                self.sessions.set(i, (token, user_id));
                proof {
                    let s2 = old(self)@.sessions.update(i as int, (token, user_id));
                    assert(self@.sessions =~= s2);
                    assert forall|a: int, b: int| 0 <= a < b < s2.len() implies s2[a].0
                        != s2[b].0 by {
                        assert(s2[a].0 == old(self)@.sessions[a].0 && s2[b].0 == old(
                            self,
                        )@.sessions[b].0);
                    }
                    lemma_token_index_is(s2, token, i as int);
                    assert forall|t: u64| t != token implies spec_resolve(s2, t) == spec_resolve(
                        old(self)@.sessions,
                        t,
                    ) by {
                        lemma_resolve_update_other(
                            old(self)@.sessions,
                            i as int,
                            token,
                            user_id,
                            t,
                        );
                    }
                }
                return ;
            }
            i += 1;
        }
        self.sessions.push((token, user_id));
        proof {
            let s2 = old(self)@.sessions.push((token, user_id));
            assert(self@.sessions =~= s2);
            assert(!contains_token(old(self)@.sessions, token));
            assert forall|a: int, b: int| 0 <= a < b < s2.len() implies s2[a].0 != s2[b].0 by {
                if b == old(self)@.sessions.len() {
                    assert(!(0 <= a < old(self)@.sessions.len() && old(self)@.sessions[a].0
                        == token));
                }
            }
            lemma_token_index_is(s2, token, old(self)@.sessions.len() as int);
            assert forall|t: u64| t != token implies spec_resolve(s2, t) == spec_resolve(
                old(self)@.sessions,
                t,
            ) by {
                lemma_resolve_push_other(old(self)@.sessions, token, user_id, t);
            }
        }
    }

    /// Purge the binding `token` carries, if any; the logout path. Every
    /// other token's resolution, and the secret, are untouched.
    pub fn purge(&mut self, token: u64)
        requires
            old(self).wf(),
        ensures
            final(self).wf(),
            final(self)@.secret == old(self)@.secret,
            spec_resolve(final(self)@.sessions, token) is None,
            forall|t: u64|
                t != token ==> spec_resolve(final(self)@.sessions, t) == spec_resolve(
                    old(self)@.sessions,
                    t,
                ),
    {
        let mut i: usize = 0;
        while i < self.sessions.len()
            invariant
                self.wf(),
                *self == *old(self),
                0 <= i <= self@.sessions.len(),
                self@.sessions.len() == self.sessions@.len(),
                forall|j: int| 0 <= j < i ==> self@.sessions[j].0 != token,
            decreases self@.sessions.len() - i,
        {
            if self.sessions[i].0 == token {
                self.sessions.remove(i);
                proof {
                    let s2 = old(self)@.sessions.remove(i as int);
                    assert(self@.sessions =~= s2);
                    assert forall|t: u64| t != token implies spec_resolve(s2, t) == spec_resolve(
                        old(self)@.sessions,
                        t,
                    ) && tokens_wf(s2) by {
                        lemma_resolve_remove_other(old(self)@.sessions, i as int, t);
                    }
                    if contains_token(s2, token) {
                        let j = choose|j: int| 0 <= j < s2.len() && s2[j].0 == token;
                        let j0 = if j < i {
                            j
                        } else {
                            j + 1
                        };
                        assert(s2[j] == old(self)@.sessions[j0]);
                        lemma_token_index_is(old(self)@.sessions, token, j0);
                        lemma_token_index_is(old(self)@.sessions, token, i as int);
                    }
                }
                return ;
            }
            i += 1;
        }
    }

    /// Whether `user_id` may mutate `link`: true exactly when the link's
    /// recorded creator is that user. An orphan link authorizes nobody.
    pub fn authorize(&self, user_id: u128, link: &Route) -> (r: bool)
        ensures
            r == (link@.creator_id == Some(user_id)),
    {
        match link.creator_id {
            Some(c) => c == user_id,
            None => false,
        }
    }
}

} // verus!
