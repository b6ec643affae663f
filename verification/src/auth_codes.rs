//! The server-side authorization-code store.
//!
//! A code binds a user to a requesting client for a few minutes and is
//! consumed exactly once: the exchange endpoint removes it from the store
//! the moment it is looked up, so a second exchange with the same code
//! finds nothing.

use vstd::prelude::*;

use crate::config::AUTH_CODE_TTL_SECONDS;

verus! {

/// Mathematical image of one stored authorization code.
pub struct AuthCodeView {
    pub user_id: int,
    pub client_id: Seq<char>,
    pub code: Seq<char>,
    pub expires: int,
}

/// One short-lived authorization code bound to a (user, client) pair.
pub struct AuthCodeData {
    user_id: i32,
    client_id: String,
    code: String,
    expires_timestamp: u64,
}

impl View for AuthCodeData {
    type V = AuthCodeView;

    closed spec fn view(&self) -> AuthCodeView {
        AuthCodeView {
            user_id: self.user_id as int,
            client_id: self.client_id@,
            code: self.code@,
            expires: self.expires_timestamp as int,
        }
    }
}

impl AuthCodeData {
    pub fn get_user_id(&self) -> (r: i32)
        ensures
            r as int == self@.user_id,
    {
        self.user_id
    }

    pub fn get_client_id(&self) -> (r: &String)
        ensures
            r@ == self@.client_id,
    {
        &self.client_id
    }

    pub fn get_code(&self) -> (r: &String)
        ensures
            r@ == self@.code,
    {
        &self.code
    }

    pub fn get_expires_timestamp(&self) -> (r: u64)
        ensures
            r as int == self@.expires,
    {
        self.expires_timestamp
    }

    /// A code is expired once `now` lies strictly past its expiry.
    pub fn is_expired(&self, now: u64) -> (r: bool)
        ensures
            r == (now > self@.expires),
    {
        now > self.expires_timestamp
    }
}

/// `rec` carries the code string `code`.
pub open spec fn has_code(rec: AuthCodeView, code: Seq<char>) -> bool {
    rec.code == code
}

/// The authorization-code store: a set of codes, each string occurring at
/// most once.
pub struct AuthCodeStore {
    codes: Vec<AuthCodeData>,
}

impl AuthCodeStore {
    /// Every stored code string is distinct.
    pub closed spec fn wf(self) -> bool {
        forall|i: int, j: int|
            #![trigger self.codes@[i]@, self.codes@[j]@]
            0 <= i < j < self.codes@.len() ==> self.codes@[i]@.code != self.codes@[j]@.code
    }

    /// Some record carries the code string.
    pub closed spec fn spec_contains(self, code: Seq<char>) -> bool {
        exists|i: int| 0 <= i < self.codes@.len() && has_code(#[trigger] self.codes@[i]@, code)
    }

    /// The index of the record carrying the code string, when one exists.
    pub closed spec fn spec_index_of(self, code: Seq<char>) -> int {
        choose|i: int| 0 <= i < self.codes@.len() && has_code(#[trigger] self.codes@[i]@, code)
    }

    /// The record stored for the code string, if any.
    pub closed spec fn spec_lookup(self, code: Seq<char>) -> Option<AuthCodeView> {
        if self.spec_contains(code) {
            Some(self.codes@[self.spec_index_of(code)]@)
        } else {
            None
        }
    }

    /// How many codes the store holds.
    pub closed spec fn spec_len(self) -> nat {
        self.codes@.len()
    }

    /// With `wf`, the record index of a code string is unique.
    proof fn lemma_unique_index(self, code: Seq<char>, i: int)
        requires
            self.wf(),
            0 <= i < self.codes@.len(),
            has_code(self.codes@[i]@, code),
        ensures
            self.spec_contains(code),
            self.spec_index_of(code) == i,
            self.spec_lookup(code) == Some(self.codes@[i]@),
    {
        assert(self.spec_contains(code));
        let j = self.spec_index_of(code);
        assert(0 <= j < self.codes@.len() && has_code(self.codes@[j]@, code));
        if i < j {
            assert(self.codes@[i]@.code != self.codes@[j]@.code);
        } else if j < i {
            assert(self.codes@[j]@.code != self.codes@[i]@.code);
        }
    }

    /// The index of the record carrying `code`, or the record count when
    /// there is none.
    fn find_index(&self, code: &String) -> (idx: usize)
        ensures
            idx <= self.codes@.len(),
            idx < self.codes@.len() ==> has_code(self.codes@[idx as int]@, code@),
            idx == self.codes@.len() ==> forall|k: int|
                0 <= k < self.codes@.len() ==> !has_code(#[trigger] self.codes@[k]@, code@),
    {
        let n = self.codes.len();
        let mut i: usize = 0;
        while i < n
            invariant
                n == self.codes@.len(),
                i <= n,
                forall|k: int| 0 <= k < i ==> !has_code(#[trigger] self.codes@[k]@, code@),
            decreases n - i,
        {
            if self.codes[i].code == *code {
                return i;
            }
            i += 1;
        }
        n
    }

    /// An empty store.
    pub fn new() -> (r: AuthCodeStore)
        ensures
            r.wf(),
            r.spec_len() == 0,
            forall|c: Seq<char>| r.spec_lookup(c) is None,
    {
        AuthCodeStore { codes: Vec::new() }
    }

    /// Persist a fresh authorization code for `(user_id, client_id)`,
    /// expiring `AUTH_CODE_TTL_SECONDS` after `now`.  A record already
    /// carrying the same code string is replaced; every other record is
    /// left untouched.
    pub fn insert(&mut self, user_id: i32, client_id: String, code: String, now: u64)
        requires
            old(self).wf(),
            now + AUTH_CODE_TTL_SECONDS <= u64::MAX,
        ensures
            final(self).wf(),
            final(self).spec_lookup(code@) matches Some(rec) && rec.user_id == user_id as int
                && rec.client_id == client_id@ && rec.code == code@ && rec.expires == now
                + AUTH_CODE_TTL_SECONDS,
            forall|c: Seq<char>|
                c != code@ ==> final(self).spec_lookup(c) == old(self).spec_lookup(c),
    {
        let n = self.codes.len();
        let idx = self.find_index(&code);
        let rec = AuthCodeData {
            user_id,
            client_id,
            code: code.clone(),
            expires_timestamp: now + AUTH_CODE_TTL_SECONDS,
        };
        if idx < n {
            let ghost old_codes = self.codes@;
            self.codes[idx] = rec;
            proof {
                assert forall|a: int, b: int|
                    #![trigger self.codes@[a]@, self.codes@[b]@]
                    0 <= a < b < self.codes@.len() implies self.codes@[a]@.code
                    != self.codes@[b]@.code by {
                    assert(has_code(old_codes[idx as int]@, code@));
                    assert(old_codes[a]@ == self.codes@[a]@ || a == idx);
                    assert(old_codes[b]@ == self.codes@[b]@ || b == idx);
                }
                self.lemma_unique_index(code@, idx as int);
                assert forall|c: Seq<char>| c != code@ implies self.spec_lookup(c) == old(
                    self,
                ).spec_lookup(c) by {
                    self.lemma_lookup_eq_pointwise(*old(self), c, idx as int);
                }
            }
        } else {
            let ghost old_codes = self.codes@;
            self.codes.push(rec);
            proof {
                let new_len = self.codes@.len();
                assert forall|a: int, b: int|
                    #![trigger self.codes@[a]@, self.codes@[b]@]
                    0 <= a < b < new_len implies self.codes@[a]@.code != self.codes@[b]@.code by {
                    if b == new_len - 1 {
                        assert(!has_code(old_codes[a]@, code@));
                        assert(self.codes@[a]@ == old_codes[a]@);
                    }
                }
                self.lemma_unique_index(code@, new_len - 1);
                assert forall|c: Seq<char>| c != code@ implies self.spec_lookup(c) == old(
                    self,
                ).spec_lookup(c) by {
                    self.lemma_lookup_eq_pointwise(*old(self), c, new_len - 1);
                }
            }
        }
    }

    /// Two stores that differ only at index `at` — whose record carries
    /// some *other* code string — agree on `c`.
    proof fn lemma_lookup_eq_pointwise(self, other: AuthCodeStore, c: Seq<char>, at: int)
        requires
            self.wf(),
            other.wf(),
            0 <= at < self.codes@.len(),
            self.codes@[at]@.code != c,
            self.codes@.len() == other.codes@.len() || self.codes@.len() == other.codes@.len() + 1,
            self.codes@.len() == other.codes@.len() ==> (other.codes@[at]@.code
                == self.codes@[at]@.code && forall|k: int|
                0 <= k < self.codes@.len() && k != at ==> self.codes@[k]@ == #[trigger] other.codes@[k]@),
            self.codes@.len() == other.codes@.len() + 1 ==> (at == self.codes@.len() - 1 && forall|
                k: int,
            |
                0 <= k < other.codes@.len() ==> self.codes@[k]@ == #[trigger] other.codes@[k]@),
        ensures
            self.spec_lookup(c) == other.spec_lookup(c),
    {
        if self.spec_contains(c) {
            let i = self.spec_index_of(c);
            assert(0 <= i < self.codes@.len() && has_code(self.codes@[i]@, c));
            assert(i != at);
            assert(has_code(other.codes@[i]@, c));
            other.lemma_unique_index(c, i);
            self.lemma_unique_index(c, i);
        } else if other.spec_contains(c) {
            let i = other.spec_index_of(c);
            assert(0 <= i < other.codes@.len() && has_code(other.codes@[i]@, c));
            if self.codes@.len() == other.codes@.len() {
                if i == at {
                    assert(false);
                } else {
                    assert(has_code(self.codes@[i]@, c));
                    assert(self.spec_contains(c));
                    assert(false);
                }
            } else {
                assert(i < other.codes@.len());
                assert(has_code(self.codes@[i]@, c));
                assert(self.spec_contains(c));
                assert(false);
            }
        }
    }

    /// The record carrying this code, if any, left in place.
    pub fn get(&self, code: &String) -> (r: Option<&AuthCodeData>)
        requires
            self.wf(),
        ensures
            r matches Some(d) ==> (self.spec_lookup(code@) == Some(d@) && d@.code == code@),
            r is None ==> self.spec_lookup(code@) is None,
    {
        let idx = self.find_index(code);
        if idx < self.codes.len() {
            proof {
                self.lemma_unique_index(code@, idx as int);
            }
            Some(&self.codes[idx])
        } else {
            proof {
                if self.spec_contains(code@) {
                    let j = self.spec_index_of(code@);
                    assert(0 <= j < self.codes@.len() && has_code(self.codes@[j]@, code@));
                }
            }
            None
        }
    }

    /// Look up a code and consume it: on a hit the record is removed from
    /// the store and returned, so the same code can never be exchanged a
    /// second time.
    pub fn take(&mut self, code: &String) -> (r: Option<AuthCodeData>)
        requires
            old(self).wf(),
        ensures
            final(self).wf(),
            old(self).spec_lookup(code@) matches Some(v) ==> (r matches Some(d) && d@ == v
                && d@.code == code@),
            old(self).spec_lookup(code@) is None ==> r is None && *final(self) == *old(self),
            final(self).spec_lookup(code@) is None,
            forall|c: Seq<char>|
                c != code@ ==> final(self).spec_lookup(c) == old(self).spec_lookup(c),
    {
        let idx = self.find_index(code);
        if idx < self.codes.len() {
            proof {
                self.lemma_unique_index(code@, idx as int);
            }
            let ghost pre = *self;
            let rec = self.codes.remove(idx);
            proof {
                pre.lemma_remove_preserves(*self, idx as int);
                if self.spec_contains(code@) {
                    let j = self.spec_index_of(code@);
                    assert(0 <= j < self.codes@.len() && has_code(self.codes@[j]@, code@));
                    let j0 = if j < idx { j } else { j + 1 };
                    assert(pre.codes@[j0]@ == self.codes@[j]@);
                    pre.lemma_unique_index(code@, j0);
                    assert(false);
                }
            }
            Some(rec)
        } else {
            proof {
                if self.spec_contains(code@) {
                    let j = self.spec_index_of(code@);
                    assert(0 <= j < self.codes@.len() && has_code(self.codes@[j]@, code@));
                }
            }
            None
        }
    }

    /// Removing the record at `at` keeps the store well formed and leaves
    /// every other code's lookup unchanged.
    proof fn lemma_remove_preserves(self, after: AuthCodeStore, at: int)
        requires
            self.wf(),
            0 <= at < self.codes@.len(),
            after.codes@ == self.codes@.remove(at),
        ensures
            after.wf(),
            forall|c: Seq<char>|
                c != self.codes@[at]@.code ==> after.spec_lookup(c) == self.spec_lookup(c),
    {
        let sq = self.codes@;
        let aq = after.codes@;
        assert(aq.len() == sq.len() - 1);
        assert forall|k: int| 0 <= k < aq.len() implies aq[k] == (if k < at {
            sq[k]
        } else {
            sq[k + 1]
        }) by {}
        assert forall|a: int, b: int|
            #![trigger aq[a]@, aq[b]@]
            0 <= a < b < aq.len() implies aq[a]@.code != aq[b]@.code by {
            let a0 = if a < at { a } else { a + 1 };
            let b0 = if b < at { b } else { b + 1 };
            assert(aq[a]@ == sq[a0]@ && aq[b]@ == sq[b0]@);
            assert(0 <= a0 < b0 < sq.len());
        }
        assert forall|c: Seq<char>| c != self.codes@[at]@.code implies after.spec_lookup(c)
            == self.spec_lookup(c) by {
            if self.spec_contains(c) {
                let i = self.spec_index_of(c);
                assert(0 <= i < sq.len() && has_code(sq[i]@, c));
                assert(i != at);
                let i2 = if i < at { i } else { i - 1 };
                assert(aq[i2]@ == sq[i]@);
                self.lemma_unique_index(c, i);
                after.lemma_unique_index(c, i2);
            } else {
                if after.spec_contains(c) {
                    let i = after.spec_index_of(c);
                    assert(0 <= i < aq.len() && has_code(aq[i]@, c));
                    let i0 = if i < at { i } else { i + 1 };
                    assert(sq[i0]@ == aq[i]@);
                    assert(self.spec_contains(c));
                    assert(false);
                }
            }
        }
    }
}

} // verus!
