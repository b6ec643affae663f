//! Registered client sites, as the engine reads them from the storage
//! collaborator.
//!
//! A client site is an external application allowed to take part in the
//! authorization-code exchange.  The engine reads a site by its public
//! client id; the id is unique, as the table's constraint demands.

use vstd::prelude::*;

use crate::auth::AuthError;

verus! {

/// A client site row as the engine reads it.
pub struct ClientData {
    pub id: i32,
    pub domain: String,
    pub name: String,
    pub hashed_client_secret: String,
    pub client_id: String,
    pub redirect_uri: String,
    pub logo_url: String,
    pub description: String,
    pub category: String,
    pub client_type: String,
    pub is_active: i8,
    pub is_internal: i8,
    pub created_timestamp: u64,
}

impl ClientData {
    /// Whether the site takes part in logins at all.
    pub open spec fn spec_is_active(self) -> bool {
        self.is_active == 1
    }

    /// Whether this row is the identity provider's own site.
    pub open spec fn spec_is_internal(self) -> bool {
        self.is_internal == 1
    }

    pub fn get_is_active(&self) -> (r: bool)
        ensures
            r == self.spec_is_active(),
    {
        self.is_active == 1
    }

    pub fn get_is_internal(&self) -> (r: bool)
        ensures
            r == self.spec_is_internal(),
    {
        self.is_internal == 1
    }
}

/// A light reference to a client site, for lists.
pub struct ClientRef {
    pub client_id: String,
    pub name: String,
    pub logo_url: String,
}

/// The fields entered when a client site is registered for the first
/// time.
pub struct NewClientData {
    pub site_domain: String,
    pub site_name: String,
    pub hashed_client_secret: String,
    pub client_id: String,
    pub redirect_uri: String,
    pub logo_url: String,
    pub description: String,
    pub category: String,
    pub client_type: String,
    pub is_active: bool,
}

/// The fields updated on an existing client site.
pub struct UpdateClientData {
    pub site_domain: String,
    pub site_name: String,
    pub client_id: String,
    pub redirect_uri: String,
    pub logo_url: String,
    pub description: String,
    pub category: String,
    pub client_type: String,
    pub is_active: bool,
}

/// A freshly hashed client secret, on its way to storage.
pub struct UpdateClientSecret {
    pub hashed_client_secret: String,
}

/// The client-sites table: one row per public client id.
pub struct ClientDirectory {
    sites: Vec<ClientData>,
    next_id: i32,
}

impl ClientDirectory {
    /// Client ids are unique.
    pub closed spec fn wf(self) -> bool {
        forall|i: int, j: int|
            #![trigger self.sites@[i], self.sites@[j]]
            0 <= i < j < self.sites@.len() ==> self.sites@[i].client_id@
                != self.sites@[j].client_id@
    }

    /// Some row has this client id.
    pub closed spec fn spec_contains(self, client_id: Seq<char>) -> bool {
        exists|i: int|
            0 <= i < self.sites@.len() && (#[trigger] self.sites@[i]).client_id@ == client_id
    }

    /// The row with this client id, if any.
    pub closed spec fn spec_lookup(self, client_id: Seq<char>) -> Option<ClientData> {
        if self.spec_contains(client_id) {
            Some(
                self.sites@[choose|i: int|
                    0 <= i < self.sites@.len() && (#[trigger] self.sites@[i]).client_id@
                        == client_id],
            )
        } else {
            None
        }
    }

    /// How many sites are registered.
    pub closed spec fn spec_len(self) -> nat {
        self.sites@.len()
    }

    /// The registered sites, in storage order.
    pub closed spec fn spec_sites(self) -> Seq<ClientData> {
        self.sites@
    }

    /// With `wf`, the row index of a client id is unique.
    proof fn lemma_unique_index(self, client_id: Seq<char>, i: int)
        requires
            self.wf(),
            0 <= i < self.sites@.len(),
            self.sites@[i].client_id@ == client_id,
        ensures
            self.spec_contains(client_id),
            self.spec_lookup(client_id) == Some(self.sites@[i]),
    {
        assert(self.spec_contains(client_id));
        let j = choose|j: int|
            0 <= j < self.sites@.len() && (#[trigger] self.sites@[j]).client_id@ == client_id;
        if i < j {
            assert(self.sites@[i].client_id@ != self.sites@[j].client_id@);
        } else if j < i {
            assert(self.sites@[j].client_id@ != self.sites@[i].client_id@);
        }
    }

    /// The row id the next registered site will get.
    pub closed spec fn spec_next_id(self) -> int {
        self.next_id as int
    }

    /// Whether a fresh row id remains to hand out.
    pub open spec fn spec_has_free_id(self) -> bool {
        self.spec_next_id() < i32::MAX as int
    }

    /// An empty directory.
    pub fn new() -> (r: ClientDirectory)
        ensures
            r.wf(),
            r.spec_len() == 0,
            r.spec_next_id() == 1,
            forall|c: Seq<char>| r.spec_lookup(c) is None,
    {
        ClientDirectory { sites: Vec::new(), next_id: 1 }
    }

    /// Register a client site under a fresh row id; fails exactly when no
    /// fresh row id remains.  The caller has already checked that the
    /// public client id is free.
    pub fn add_client(&mut self, data: NewClientData, is_internal: bool) -> (r: Result<
        i32,
        AuthError,
    >)
        requires
            old(self).wf(),
            !old(self).spec_contains(data.client_id@),
        ensures
            final(self).wf(),
            r is Err <==> !old(self).spec_has_free_id(),
            r matches Ok(id) ==> (id as int == old(self).spec_next_id()
                && final(self).spec_next_id() == old(self).spec_next_id() + 1),
            r matches Ok(id) ==> (final(self).spec_lookup(data.client_id@) matches Some(c)
                && c.client_id@ == data.client_id@ && c.hashed_client_secret@
                == data.hashed_client_secret@ && c.redirect_uri@ == data.redirect_uri@ && c.name@
                == data.site_name@ && c.domain@ == data.site_domain@ && c.spec_is_active()
                == data.is_active && c.spec_is_internal() == is_internal),
            r matches Err(e) ==> (e == AuthError::StorageError && *final(self) == *old(self)),
            forall|c: Seq<char>|
                c != data.client_id@ ==> final(self).spec_lookup(c) == old(self).spec_lookup(c),
    {
        if self.next_id == i32::MAX {
            return Err(AuthError::StorageError);
        }
        let id = self.next_id;
        let site = ClientData {
            id,
            domain: data.site_domain,
            name: data.site_name,
            hashed_client_secret: data.hashed_client_secret,
            client_id: data.client_id,
            redirect_uri: data.redirect_uri,
            logo_url: data.logo_url,
            description: data.description,
            category: data.category,
            client_type: data.client_type,
            is_active: if data.is_active {
                1
            } else {
                0
            },
            is_internal: if is_internal {
                1
            } else {
                0
            },
            created_timestamp: 0,
        };
        let ghost old_sites = self.sites@;
        self.sites.push(site);
        self.next_id = id + 1;
        proof {
            let new_len = self.sites@.len();
            assert forall|a: int, b: int|
                #![trigger self.sites@[a], self.sites@[b]]
                0 <= a < b < new_len implies self.sites@[a].client_id@
                != self.sites@[b].client_id@ by {
                if b == new_len - 1 {
                    assert(self.sites@[a] == old_sites[a]);
                }
            }
            self.lemma_unique_index(data.client_id@, new_len - 1);
            assert forall|c: Seq<char>| c != data.client_id@ implies self.spec_lookup(c)
                == old(self).spec_lookup(c) by {
                self.lemma_push_preserves(*old(self), c);
            }
        }
        Ok(id)
    }

    /// Pushing a row with a fresh client id leaves every other id's
    /// lookup unchanged.
    proof fn lemma_push_preserves(self, other: ClientDirectory, c: Seq<char>)
        requires
            self.wf(),
            other.wf(),
            self.sites@.len() == other.sites@.len() + 1,
            forall|k: int|
                0 <= k < other.sites@.len() ==> self.sites@[k] == #[trigger] other.sites@[k],
            self.sites@[self.sites@.len() - 1].client_id@ != c,
        ensures
            self.spec_lookup(c) == other.spec_lookup(c),
    {
        if self.spec_contains(c) {
            let i = choose|i: int|
                0 <= i < self.sites@.len() && (#[trigger] self.sites@[i]).client_id@ == c;
            assert(i < self.sites@.len() - 1);
            assert(other.sites@[i].client_id@ == c);
            self.lemma_unique_index(c, i);
            other.lemma_unique_index(c, i);
        } else {
            if other.spec_contains(c) {
                let i = choose|i: int|
                    0 <= i < other.sites@.len() && (#[trigger] other.sites@[i]).client_id@ == c;
                assert(self.sites@[i].client_id@ == c);
                assert(self.spec_contains(c));
                assert(false);
            }
        }
    }

    /// The row with this client id, if any.
    pub fn get_client_by_client_id(&self, client_id: &String) -> (r: Option<&ClientData>)
        requires
            self.wf(),
        ensures
            r matches Some(c) ==> (self.spec_lookup(client_id@) == Some(*c) && c.client_id@
                == client_id@),
            r is None ==> self.spec_lookup(client_id@) is None,
    {
        let n = self.sites.len();
        let mut i: usize = 0;
        while i < n
            invariant
                n == self.sites@.len(),
                i <= n,
                self.wf(),
                forall|k: int| 0 <= k < i ==> (#[trigger] self.sites@[k]).client_id@ != client_id@,
            decreases n - i,
        {
            if self.sites[i].client_id == *client_id {
                proof {
                    self.lemma_unique_index(client_id@, i as int);
                }
                return Some(&self.sites[i]);
            }
            i += 1;
        }
        proof {
            if self.spec_contains(client_id@) {
                let j = choose|j: int|
                    0 <= j < self.sites@.len() && (#[trigger] self.sites@[j]).client_id@
                        == client_id@;
                assert(0 <= j < self.sites@.len());
            }
        }
        None
    }

    /// The stored secret hash of a client site, if the site exists.
    pub fn get_client_secret(&self, client_id: &String) -> (r: Option<UpdateClientSecret>)
        requires
            self.wf(),
        ensures
            r matches Some(s) ==> (self.spec_lookup(client_id@) matches Some(c)
                && s.hashed_client_secret@ == c.hashed_client_secret@),
            r is None ==> self.spec_lookup(client_id@) is None,
    {
        match self.get_client_by_client_id(client_id) {
            Some(site) => Some(
                UpdateClientSecret { hashed_client_secret: site.hashed_client_secret.clone() },
            ),
            None => None,
        }
    }

    /// The redirect URI of a client site, if the site exists.
    pub fn get_redirect_uri(&self, client_id: &String) -> (r: Option<String>)
        requires
            self.wf(),
        ensures
            r matches Some(u) ==> (self.spec_lookup(client_id@) matches Some(c) && u@
                == c.redirect_uri@),
            r is None ==> self.spec_lookup(client_id@) is None,
    {
        match self.get_client_by_client_id(client_id) {
            Some(site) => Some(site.redirect_uri.clone()),
            None => None,
        }
    }

    /// References to every registered site, in storage order.
    pub fn get_client_refs(&self) -> (r: Vec<ClientRef>)
        ensures
            r@.len() == self.spec_len(),
            forall|i: int|
                0 <= i < r@.len() ==> ((#[trigger] r@[i]).client_id@
                    == self.spec_sites()[i].client_id@ && r@[i].name@ == self.spec_sites()[i].name@
                    && r@[i].logo_url@ == self.spec_sites()[i].logo_url@),
    {
        let n = self.sites.len();
        let mut refs: Vec<ClientRef> = Vec::new();
        let mut i: usize = 0;
        while i < n
            invariant
                n == self.sites@.len(),
                i <= n,
                refs@.len() == i,
                forall|k: int|
                    0 <= k < i ==> ((#[trigger] refs@[k]).client_id@ == self.sites@[k].client_id@
                        && refs@[k].name@ == self.sites@[k].name@ && refs@[k].logo_url@
                        == self.sites@[k].logo_url@),
            decreases n - i,
        {
            refs.push(
                ClientRef {
                    client_id: self.sites[i].client_id.clone(),
                    name: self.sites[i].name.clone(),
                    logo_url: self.sites[i].logo_url.clone(),
                },
            );
            i += 1;
        }
        refs
    }
}

} // verus!
