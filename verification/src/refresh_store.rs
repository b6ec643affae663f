//! The server-side refresh-token store.
//!
//! One record per (user, client) pair: storing a token for a pair that
//! already has one overwrites the old record, which silently invalidates
//! the old token.  All timestamps are seconds since the Unix epoch and are
//! supplied by the caller; the store never reads a clock.

use vstd::prelude::*;

use crate::config::REFRESH_TOKEN_TTL_SECONDS;

verus! {

/// Mathematical image of one stored refresh-token record.
pub struct RefreshTokenView {
    pub user_id: int,
    pub client_id: Seq<char>,
    pub token: Seq<char>,
    pub created: int,
    pub expires: int,
}

/// The currently valid opaque refresh token of one (user, client) pair.
pub struct RefreshToken {
    user_id: i32,
    client_id: String,
    token: String,
    created_timestamp: u64,
    expires_timestamp: u64,
}

impl View for RefreshToken {
    type V = RefreshTokenView;

    closed spec fn view(&self) -> RefreshTokenView {
        RefreshTokenView {
            user_id: self.user_id as int,
            client_id: self.client_id@,
            token: self.token@,
            created: self.created_timestamp as int,
            expires: self.expires_timestamp as int,
        }
    }
}

impl RefreshToken {
    /// Assemble a record as the storage collaborator returns it.
    pub fn new(
        user_id: i32,
        client_id: String,
        token: String,
        created_timestamp: u64,
        expires_timestamp: u64,
    ) -> (r: RefreshToken)
        ensures
            r@.user_id == user_id as int,
            r@.client_id == client_id@,
            r@.token == token@,
            r@.created == created_timestamp as int,
            r@.expires == expires_timestamp as int,
    {
        RefreshToken { user_id, client_id, token, created_timestamp, expires_timestamp }
    }

    pub fn get_token(&self) -> (r: &String)
        ensures
            r@ == self@.token,
    {
        &self.token
    }

    pub fn get_client_id(&self) -> (r: &String)
        ensures
            r@ == self@.client_id,
    {
        &self.client_id
    }

    pub fn get_user_id(&self) -> (r: i32)
        ensures
            r as int == self@.user_id,
    {
        self.user_id
    }

    pub fn get_created_timestamp(&self) -> (r: u64)
        ensures
            r as int == self@.created,
    {
        self.created_timestamp
    }

    pub fn get_expires_timestamp(&self) -> (r: u64)
        ensures
            r as int == self@.expires,
    {
        self.expires_timestamp
    }

    /// A record is expired once `now` lies strictly past its expiry.
    pub fn is_expired(&self, now: u64) -> (r: bool)
        ensures
            r == (now > self@.expires),
    {
        now > self.expires_timestamp
    }
}

/// `rec` belongs to the (user, client) pair `(user_id, client_id)`.
pub open spec fn matches_key(rec: RefreshTokenView, user_id: int, client_id: Seq<char>) -> bool {
    rec.user_id == user_id && rec.client_id == client_id
}

/// The refresh-token store: a set of records with at most one per
/// (user, client) pair.
pub struct RefreshTokenStore {
    records: Vec<RefreshToken>,
}

impl RefreshTokenStore {
    /// At most one record per (user, client) pair.
    pub closed spec fn wf(self) -> bool {
        forall|i: int, j: int|
            #![trigger self.records@[i]@, self.records@[j]@]
            0 <= i < j < self.records@.len() ==> !matches_key(
                self.records@[i]@,
                self.records@[j]@.user_id,
                self.records@[j]@.client_id,
            )
    }

    /// Some record for the pair exists.
    pub closed spec fn spec_contains(self, user_id: int, client_id: Seq<char>) -> bool {
        exists|i: int|
            0 <= i < self.records@.len() && matches_key(
                #[trigger] self.records@[i]@,
                user_id,
                client_id,
            )
    }

    /// The index of the record for the pair, when one exists.
    pub closed spec fn spec_index_of(self, user_id: int, client_id: Seq<char>) -> int {
        choose|i: int|
            0 <= i < self.records@.len() && matches_key(
                #[trigger] self.records@[i]@,
                user_id,
                client_id,
            )
    }

    /// The record stored for the pair, if any.
    pub closed spec fn spec_lookup(self, user_id: int, client_id: Seq<char>) -> Option<
        RefreshTokenView,
    > {
        if self.spec_contains(user_id, client_id) {
            Some(self.records@[self.spec_index_of(user_id, client_id)]@)
        } else {
            None
        }
    }

    /// How many records the store holds.
    pub closed spec fn spec_len(self) -> nat {
        self.records@.len()
    }

    /// With `wf`, the record index of a pair is unique.
    proof fn lemma_unique_index(self, user_id: int, client_id: Seq<char>, i: int)
        requires
            self.wf(),
            0 <= i < self.records@.len(),
            matches_key(self.records@[i]@, user_id, client_id),
        ensures
            self.spec_contains(user_id, client_id),
            self.spec_index_of(user_id, client_id) == i,
            self.spec_lookup(user_id, client_id) == Some(self.records@[i]@),
    {
        assert(self.spec_contains(user_id, client_id));
        let j = self.spec_index_of(user_id, client_id);
        assert(0 <= j < self.records@.len() && matches_key(self.records@[j]@, user_id, client_id));
        if i < j {
            assert(!matches_key(
                self.records@[i]@,
                self.records@[j]@.user_id,
                self.records@[j]@.client_id,
            ));
        } else if j < i {
            assert(!matches_key(
                self.records@[j]@,
                self.records@[i]@.user_id,
                self.records@[i]@.client_id,
            ));
        }
    }

    /// The index of the record for the pair, or the record count when
    /// there is none.
    fn find_index(&self, user_id: i32, client_id: &String) -> (idx: usize)
        ensures
            idx <= self.records@.len(),
            idx < self.records@.len() ==> matches_key(
                self.records@[idx as int]@,
                user_id as int,
                client_id@,
            ),
            idx == self.records@.len() ==> forall|k: int|
                0 <= k < self.records@.len() ==> !matches_key(
                    #[trigger] self.records@[k]@,
                    user_id as int,
                    client_id@,
                ),
    {
        let n = self.records.len();
        let mut i: usize = 0;
        while i < n
            invariant
                n == self.records@.len(),
                i <= n,
                forall|k: int|
                    0 <= k < i ==> !matches_key(
                        #[trigger] self.records@[k]@,
                        user_id as int,
                        client_id@,
                    ),
            decreases n - i,
        {
            if self.records[i].user_id == user_id && self.records[i].client_id == *client_id {
                return i;
            }
            i += 1;
        }
        n
    }

    /// An empty store.
    pub fn new() -> (r: RefreshTokenStore)
        ensures
            r.wf(),
            r.spec_len() == 0,
            forall|u: int, c: Seq<char>| r.spec_lookup(u, c) is None,
    {
        RefreshTokenStore { records: Vec::new() }
    }

    /// Insert or replace the record for `(user_id, client_id)`: the new
    /// record carries `token`, is created at `now` and expires fourteen
    /// days later.  Every other pair's record is left untouched.  Returns
    /// the token that was stored.
    pub fn upsert(&mut self, user_id: i32, client_id: String, token: String, now: u64) -> (r:
        String)
        requires
            old(self).wf(),
            now + REFRESH_TOKEN_TTL_SECONDS <= u64::MAX,
        ensures
            final(self).wf(),
            r@ == token@,
            final(self).spec_lookup(user_id as int, client_id@) matches Some(rec) && rec.token
                == token@ && rec.created == now && rec.expires == now
                + REFRESH_TOKEN_TTL_SECONDS,
            forall|u: int, c: Seq<char>|
                !(u == user_id as int && c == client_id@) ==> final(self).spec_lookup(u, c) == old(
                    self,
                ).spec_lookup(u, c),
            old(self).spec_contains(user_id as int, client_id@) ==> final(self).spec_len() == old(
                self,
            ).spec_len(),
            !old(self).spec_contains(user_id as int, client_id@) ==> final(self).spec_len() == old(
                self,
            ).spec_len() + 1,
    {
        let n = self.records.len();
        let idx = self.find_index(user_id, &client_id);
        let rec = RefreshToken {
            user_id,
            client_id: client_id.clone(),
            token: token.clone(),
            created_timestamp: now,
            expires_timestamp: now + REFRESH_TOKEN_TTL_SECONDS,
        };
        if idx < n {
            let ghost old_records = self.records@;
            self.records[idx] = rec;
            proof {
                assert forall|a: int, b: int|
                    #![trigger self.records@[a]@, self.records@[b]@]
                    0 <= a < b < self.records@.len() implies !matches_key(
                    self.records@[a]@,
                    self.records@[b]@.user_id,
                    self.records@[b]@.client_id,
                ) by {
                    assert(matches_key(old_records[idx as int]@, user_id as int, client_id@));
                    assert(old_records[a]@ == self.records@[a]@ || a == idx);
                    assert(old_records[b]@ == self.records@[b]@ || b == idx);
                }
                self.lemma_unique_index(user_id as int, client_id@, idx as int);
                assert forall|u: int, c: Seq<char>|
                    !(u == user_id as int && c == client_id@) implies self.spec_lookup(u, c) == old(
                    self,
                ).spec_lookup(u, c) by {
                    self.lemma_lookup_eq_pointwise(*old(self), u, c, idx as int);
                }
            }
        } else {
            let ghost old_records = self.records@;
            self.records.push(rec);
            proof {
                let new_len = self.records@.len();
                assert forall|a: int, b: int|
                    #![trigger self.records@[a]@, self.records@[b]@]
                    0 <= a < b < new_len implies !matches_key(
                    self.records@[a]@,
                    self.records@[b]@.user_id,
                    self.records@[b]@.client_id,
                ) by {
                    if b == new_len - 1 {
                        assert(!matches_key(old_records[a]@, user_id as int, client_id@));
                        assert(self.records@[a]@ == old_records[a]@);
                    }
                }
                self.lemma_unique_index(user_id as int, client_id@, new_len - 1);
                assert forall|u: int, c: Seq<char>|
                    !(u == user_id as int && c == client_id@) implies self.spec_lookup(u, c) == old(
                    self,
                ).spec_lookup(u, c) by {
                    self.lemma_lookup_eq_pointwise(*old(self), u, c, new_len - 1);
                }
            }
        }
        token
    }

    /// Two stores that differ only at index `at` — where both hold a
    /// record for some *other* pair — agree on `(u, c)`.
    proof fn lemma_lookup_eq_pointwise(
        self,
        other: RefreshTokenStore,
        u: int,
        c: Seq<char>,
        at: int,
    )
        requires
            self.wf(),
            other.wf(),
            self.records@.len() == other.records@.len() || self.records@.len() == other.records@.len()
                + 1,
            0 <= at < self.records@.len(),
            self.records@.len() == other.records@.len() ==> (matches_key(
                other.records@[at]@,
                self.records@[at]@.user_id,
                self.records@[at]@.client_id,
            ) && forall|k: int|
                0 <= k < self.records@.len() && k != at ==> self.records@[k]@ == #[trigger] other.records@[k]@),
            self.records@.len() == other.records@.len() + 1 ==> (at == self.records@.len() - 1
                && forall|k: int|
                0 <= k < other.records@.len() ==> self.records@[k]@ == #[trigger] other.records@[k]@),
            !(u == self.records@[at]@.user_id && c == self.records@[at]@.client_id),
        ensures
            self.spec_lookup(u, c) == other.spec_lookup(u, c),
    {
        if self.spec_contains(u, c) {
            let i = self.spec_index_of(u, c);
            assert(0 <= i < self.records@.len() && matches_key(self.records@[i]@, u, c));
            assert(i != at);
            assert(matches_key(other.records@[i]@, u, c));
            other.lemma_unique_index(u, c, i);
            self.lemma_unique_index(u, c, i);
        } else if other.spec_contains(u, c) {
            let i = other.spec_index_of(u, c);
            assert(0 <= i < other.records@.len() && matches_key(other.records@[i]@, u, c));
            if self.records@.len() == other.records@.len() {
                if i == at {
                    assert(matches_key(other.records@[at]@, self.records@[at]@.user_id,
                        self.records@[at]@.client_id));
                    assert(false);
                } else {
                    assert(matches_key(self.records@[i]@, u, c));
                    assert(self.spec_contains(u, c));
                    assert(false);
                }
            } else {
                assert(i < other.records@.len());
                assert(matches_key(self.records@[i]@, u, c));
                assert(self.spec_contains(u, c));
                assert(false);
            }
        }
    }

    /// The record stored for `(user_id, client_id)`, if any.
    pub fn get(&self, user_id: i32, client_id: &String) -> (r: Option<&RefreshToken>)
        requires
            self.wf(),
        ensures
            r matches Some(rec) ==> (self.spec_lookup(user_id as int, client_id@) == Some(rec@)
                && rec@.user_id == user_id as int && rec@.client_id == client_id@),
            r is None ==> self.spec_lookup(user_id as int, client_id@) is None,
    {
        let idx = self.find_index(user_id, client_id);
        if idx < self.records.len() {
            proof {
                self.lemma_unique_index(user_id as int, client_id@, idx as int);
            }
            Some(&self.records[idx])
        } else {
            proof {
                if self.spec_contains(user_id as int, client_id@) {
                    let j = self.spec_index_of(user_id as int, client_id@);
                    assert(0 <= j < self.records@.len() && matches_key(
                        self.records@[j]@,
                        user_id as int,
                        client_id@,
                    ));
                }
            }
            None
        }
    }

    /// Remove every record of `user_id`, whatever the client; records of
    /// other users are untouched.  Returns how many records were removed.
    pub fn delete_all(&mut self, user_id: i32) -> (count: usize)
        requires
            old(self).wf(),
        ensures
            final(self).wf(),
            forall|c: Seq<char>| final(self).spec_lookup(user_id as int, c) is None,
            forall|u: int, c: Seq<char>|
                u != user_id as int ==> final(self).spec_lookup(u, c) == old(self).spec_lookup(
                    u,
                    c,
                ),
            final(self).spec_len() + count == old(self).spec_len(),
    {
        let n0 = self.records.len();
        let mut count: usize = 0;
        let mut i: usize = 0;
        while i < self.records.len()
            invariant
                old(self).records@.len() == n0,
                i <= self.records@.len(),
                self.wf(),
                count + self.records@.len() == old(self).records@.len(),
                forall|k: int| 0 <= k < i ==> (#[trigger] self.records@[k]@).user_id != user_id as int,
                forall|u: int, c: Seq<char>|
                    u != user_id as int ==> self.spec_lookup(u, c) == old(self).spec_lookup(u, c),
            decreases self.records@.len() - i,
        {
            if self.records[i].user_id == user_id {
                let ghost pre = *self;
                self.records.remove(i);
                proof {
                    assert(count + self.records@.len() + 1 == old(self).records@.len());
                }
                count += 1;
                proof {
                    pre.lemma_remove_preserves(*self, i as int, user_id as int);
                }
            } else {
                i += 1;
            }
        }
        proof {
            assert forall|c: Seq<char>| final(self).spec_lookup(user_id as int, c) is None by {
                if self.spec_contains(user_id as int, c) {
                    let j = self.spec_index_of(user_id as int, c);
                    assert(0 <= j < self.records@.len() && matches_key(
                        self.records@[j]@,
                        user_id as int,
                        c,
                    ));
                }
            }
        }
        count
    }

    /// Removing one record of `user_id` keeps the store well formed and
    /// leaves every other user's lookups unchanged.
    proof fn lemma_remove_preserves(self, after: RefreshTokenStore, at: int, user_id: int)
        requires
            self.wf(),
            0 <= at < self.records@.len(),
            self.records@[at]@.user_id == user_id,
            after.records@ == self.records@.remove(at),
        ensures
            after.wf(),
            forall|u: int, c: Seq<char>|
                u != user_id ==> after.spec_lookup(u, c) == self.spec_lookup(u, c),
    {
        let sq = self.records@;
        let aq = after.records@;
        assert(aq.len() == sq.len() - 1);
        assert forall|k: int| 0 <= k < aq.len() implies aq[k] == (if k < at {
            sq[k]
        } else {
            sq[k + 1]
        }) by {}
        assert forall|a: int, b: int|
            #![trigger aq[a]@, aq[b]@]
            0 <= a < b < aq.len() implies !matches_key(
            aq[a]@,
            aq[b]@.user_id,
            aq[b]@.client_id,
        ) by {
            let a0 = if a < at { a } else { a + 1 };
            let b0 = if b < at { b } else { b + 1 };
            assert(aq[a]@ == sq[a0]@ && aq[b]@ == sq[b0]@);
            assert(0 <= a0 < b0 < sq.len());
        }
        assert forall|u: int, c: Seq<char>| u != user_id implies after.spec_lookup(u, c)
            == self.spec_lookup(u, c) by {
            if self.spec_contains(u, c) {
                let i = self.spec_index_of(u, c);
                assert(0 <= i < sq.len() && matches_key(sq[i]@, u, c));
                assert(i != at);
                let i2 = if i < at { i } else { i - 1 };
                assert(aq[i2]@ == sq[i]@);
                self.lemma_unique_index(u, c, i);
                after.lemma_unique_index(u, c, i2);
            } else {
                if after.spec_contains(u, c) {
                    let i = after.spec_index_of(u, c);
                    assert(0 <= i < aq.len() && matches_key(aq[i]@, u, c));
                    let i0 = if i < at { i } else { i + 1 };
                    assert(sq[i0]@ == aq[i]@);
                    assert(self.spec_contains(u, c));
                    assert(false);
                }
            }
        }
    }
}

/// Law: after a second upsert for the same (user, client) pair, the
/// stored token is the second one; the first token, if different, can
/// never be returned for that pair again.
pub proof fn lemma_upsert_overwrites(
    s: RefreshTokenStore,
    user_id: int,
    client_id: Seq<char>,
    t1: Seq<char>,
    t2: Seq<char>,
)
    requires
        s.spec_lookup(user_id, client_id) matches Some(r) && r.token == t2,
    ensures
        t1 != t2 ==> !(s.spec_lookup(user_id, client_id) matches Some(r1) && r1.token == t1),
{
}

} // verus!
