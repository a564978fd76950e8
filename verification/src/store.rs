//! Session descriptor store: per-room pull arguments, push credential and
//! transport mode, with create-on-first-write semantics.

use crate::live::StreamArgs;
use std::collections::HashMap;
use vstd::prelude::*;

verus! {

broadcast use vstd::std_specs::hash::group_hash_axioms;

/// Holds one descriptor per room identity.
pub struct DescriptorStore {
    rooms: HashMap<i64, StreamArgs>,
}

impl View for DescriptorStore {
    type V = Map<i64, StreamArgs>;

    closed spec fn view(&self) -> Map<i64, StreamArgs> {
        self.rooms@
    }
}

impl DescriptorStore {
    /// An empty store: no room is configured.
    pub fn new() -> (r: DescriptorStore)
        ensures
            r@ == Map::<i64, StreamArgs>::empty(),
    {
        DescriptorStore { rooms: HashMap::new() }
    }

    /// The descriptor snapshot for a room, or nothing if the room was
    /// never configured. Side-effect-free.
    pub fn get(&self, id: i64) -> (r: Option<&StreamArgs>)
        ensures
            match r {
                Some(d) => self@.contains_key(id) && *d == self@[id],
                None => !self@.contains_key(id),
            },
    {
        self.rooms.get(&id)
    }

    /// Sets the push credential for a room, creating the descriptor with
    /// an empty argument list and RTMP transport if it is absent. Returns
    /// whether the descriptor was created.
    pub fn set_credential(&mut self, id: i64, key: String) -> (created: bool)
        ensures
            created == !old(self)@.contains_key(id),
            final(self)@.contains_key(id),
            final(self)@[id].live_key == key,
            final(self)@[id].room_index == if old(self)@.contains_key(id) {
                old(self)@[id].room_index
            } else {
                id
            },
            final(self)@[id].args@ == if old(self)@.contains_key(id) {
                old(self)@[id].args@
            } else {
                Seq::<String>::empty()
            },
            final(self)@[id].srt == if old(self)@.contains_key(id) {
                old(self)@[id].srt
            } else {
                false
            },
            forall|k: i64|
                k != id ==> (final(self)@.contains_key(k) <==> old(self)@.contains_key(k)),
            forall|k: i64|
                k != id && old(self)@.contains_key(k) ==> final(self)@[k] == old(self)@[k],
    {
        let prior = self.rooms.remove(&id);
        match prior {
            Some(mut d) => {
                let created = false;
                d.live_key = key;
                self.rooms.insert(id, d);
                created
            },
            None => {
                self.rooms.insert(
                    id,
                    StreamArgs { room_index: id, args: Vec::new(), live_key: key, srt: false },
                );
                true
            },
        }
    }

    /// Replaces the argument list wholesale, creating the descriptor with
    /// an empty credential and RTMP transport if it is absent. Returns
    /// whether the descriptor was created.
    pub fn set_arguments(&mut self, id: i64, args: Vec<String>) -> (created: bool)
        ensures
            created == !old(self)@.contains_key(id),
            final(self)@.contains_key(id),
            final(self)@[id].args == args,
            final(self)@[id].room_index == if old(self)@.contains_key(id) {
                old(self)@[id].room_index
            } else {
                id
            },
            final(self)@[id].live_key@ == if old(self)@.contains_key(id) {
                old(self)@[id].live_key@
            } else {
                Seq::<char>::empty()
            },
            final(self)@[id].srt == if old(self)@.contains_key(id) {
                old(self)@[id].srt
            } else {
                false
            },
            forall|k: i64|
                k != id ==> (final(self)@.contains_key(k) <==> old(self)@.contains_key(k)),
            forall|k: i64|
                k != id && old(self)@.contains_key(k) ==> final(self)@[k] == old(self)@[k],
    {
        let prior = self.rooms.remove(&id);
        match prior {
            Some(mut d) => {
                d.args = args;
                self.rooms.insert(id, d);
                false
            },
            None => {
                self.rooms.insert(
                    id,
                    StreamArgs { room_index: id, args, live_key: String::new(), srt: false },
                );
                true
            },
        }
    }

    /// Empties the argument list of a room's descriptor, leaving the
    /// credential untouched; does nothing if the room was never
    /// configured. Returns whether a descriptor existed.
    pub fn clear_arguments(&mut self, id: i64) -> (existed: bool)
        ensures
            existed == old(self)@.contains_key(id),
            final(self)@.contains_key(id) <==> old(self)@.contains_key(id),
            old(self)@.contains_key(id) ==> {
                &&& final(self)@[id].args@ == Seq::<String>::empty()
                &&& final(self)@[id].live_key == old(self)@[id].live_key
                &&& final(self)@[id].room_index == old(self)@[id].room_index
                &&& final(self)@[id].srt == old(self)@[id].srt
            },
            forall|k: i64|
                k != id ==> (final(self)@.contains_key(k) <==> old(self)@.contains_key(k)),
            forall|k: i64|
                k != id && old(self)@.contains_key(k) ==> final(self)@[k] == old(self)@[k],
            !old(self)@.contains_key(id) ==> final(self)@ == old(self)@,
    {
        let prior = self.rooms.remove(&id);
        match prior {
            Some(mut d) => {
                d.args = Vec::new();
                self.rooms.insert(id, d);
                true
            },
            None => {
                proof {
                    assert(self.rooms@ =~= old(self).rooms@);
                }
                false
            },
        }
    }
}

} // verus!
