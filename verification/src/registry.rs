//! Session registry: the map from user identity to the currently active
//! pipeline handle, with atomic replace and take.

use crate::live::LiveBody;
use std::collections::HashMap;
use vstd::prelude::*;

verus! {

broadcast use vstd::std_specs::hash::group_hash_axioms;

/// At most one pipeline handle per user identity; the map model makes a
/// second simultaneous handle for the same identity unrepresentable.
pub struct SessionRegistry {
    lives: HashMap<i64, LiveBody>,
}

impl View for SessionRegistry {
    type V = Map<i64, LiveBody>;

    closed spec fn view(&self) -> Map<i64, LiveBody> {
        self.lives@
    }
}

impl SessionRegistry {
    /// An empty registry: no session is active.
    pub fn new() -> (r: SessionRegistry)
        ensures
            r@ == Map::<i64, LiveBody>::empty(),
    {
        SessionRegistry { lives: HashMap::new() }
    }

    /// Atomically installs `body` as the sole handle for `id`, returning
    /// whatever handle previously occupied the slot so that the caller
    /// can terminate it.
    pub fn replace(&mut self, id: i64, body: LiveBody) -> (prev: Option<LiveBody>)
        ensures
            final(self)@ == old(self)@.insert(id, body),
            match prev {
                Some(b) => old(self)@.contains_key(id) && b == old(self)@[id],
                None => !old(self)@.contains_key(id),
            },
    {
        self.lives.insert(id, body)
    }

    /// Atomically removes and returns the current handle for `id`,
    /// leaving no entry.
    pub fn take(&mut self, id: i64) -> (r: Option<LiveBody>)
        ensures
            final(self)@ == old(self)@.remove(id),
            !final(self)@.contains_key(id),
            match r {
                Some(b) => old(self)@.contains_key(id) && b == old(self)@[id],
                None => !old(self)@.contains_key(id) && final(self)@ == old(self)@,
            },
    {
        let r = self.lives.remove(&id);
        proof {
            if r is None {
                assert(self.lives@ =~= old(self).lives@);
            }
        }
        r
    }

    /// Read-only existence check.
    pub fn peek_exists(&self, id: i64) -> (r: bool)
        ensures
            r == self@.contains_key(id),
    {
        self.lives.contains_key(&id)
    }
}

} // verus!
