//! Authorized users: who may drive the orchestrator, and which room each
//! user's sessions are keyed by.

use crate::config::RoomInfo;
use std::collections::HashMap;
use vstd::prelude::*;

verus! {

broadcast use vstd::std_specs::hash::group_hash_axioms;

/// One authorized user.
#[derive(Clone, Copy)]
pub struct User {
    /// The user's chat identity.
    pub chat_id: i64,
}

impl User {
    pub fn new(chat_id: i64) -> (r: User)
        ensures
            r.chat_id == chat_id,
    {
        User { chat_id }
    }
}

/// The set of authorized users, keyed by chat identity.
pub struct AuthConfig {
    inner: HashMap<i64, User>,
}

impl View for AuthConfig {
    type V = Map<i64, User>;

    closed spec fn view(&self) -> Map<i64, User> {
        self.inner@
    }
}

impl AuthConfig {
    /// Every entry is keyed by its own chat identity.
    pub open spec fn wf(&self) -> bool {
        forall|k: i64| self@.contains_key(k) ==> self@[k].chat_id == k
    }

    /// Builds the set from a loaded user list: exactly the listed chat
    /// identities are authorized.
    pub fn new(users: Vec<User>) -> (r: AuthConfig)
        ensures
            r.wf(),
            forall|k: i64|
                r@.contains_key(k) <==> exists|j: int|
                    0 <= j < users@.len() && users@[j].chat_id == k,
    {
        let mut inner: HashMap<i64, User> = HashMap::new();
        let mut i: usize = 0;
        while i < users.len()
            invariant
                i <= users.len(),
                forall|k: i64| inner@.contains_key(k) ==> inner@[k].chat_id == k,
                forall|k: i64|
                    inner@.contains_key(k) <==> exists|j: int|
                        0 <= j < i && users@[j].chat_id == k,
            decreases users.len() - i,
        {
            let u = users[i];
            inner.insert(u.chat_id, u);
            proof {
                assert forall|k: i64| inner@.contains_key(k) implies exists|j: int|
                    0 <= j < i + 1 && users@[j].chat_id == k by {
                    if k == u.chat_id {
                        assert(users@[i as int].chat_id == k);
                    }
                }
            }
            i = i + 1;
        }
        AuthConfig { inner }
    }

    /// Authorizes a chat identity, doing nothing if it is already
    /// authorized. Returns whether the set changed, so that the caller
    /// knows to persist it.
    pub fn create(&mut self, id: i64) -> (created: bool)
        requires
            old(self).wf(),
        ensures
            final(self).wf(),
            created == !old(self)@.contains_key(id),
            final(self)@.contains_key(id),
            final(self)@[id].chat_id == id,
            forall|k: i64|
                k != id ==> (final(self)@.contains_key(k) <==> old(self)@.contains_key(k)),
            forall|k: i64|
                k != id && old(self)@.contains_key(k) ==> final(self)@[k] == old(self)@[k],
    {
        if self.inner.contains_key(&id) {
            false
        } else {
            self.inner.insert(id, User::new(id));
            proof {
                assert forall|k: i64| self@.contains_key(k) implies self@[k].chat_id == k by {
                    if k != id {
                        assert(old(self)@.contains_key(k));
                    }
                }
            }
            true
        }
    }

    /// Whether a chat identity is authorized.
    pub fn has_permission(&self, id: i64) -> (r: bool)
        ensures
            r == self@.contains_key(id),
    {
        self.inner.contains_key(&id)
    }

    /// The room an authorized user's sessions are keyed by: the user's
    /// own chat identity.
    pub fn room(&self, id: i64) -> (r: RoomInfo)
        requires
            self.wf(),
            self@.contains_key(id),
        ensures
            r.index_spec() == id,
    {
        let user = match self.inner.get(&id) {
            Some(u) => *u,
            None => User::new(id),
        };
        RoomInfo::new(user.chat_id)
    }
}

} // verus!
