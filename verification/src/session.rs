//! Session lifecycle: the decisions of the orchestrator, from command to
//! registry change, with the process work left to the caller.
//!
//! A start request runs in two verified steps around the unverifiable
//! process work: `begin_start` displaces any old session (the caller
//! terminates the returned handle and launches the new pipeline), and
//! `finish_start` installs the new handle only once the launch succeeded,
//! so a failed launch leaves the identity idle.

use crate::live::LiveBody;
use crate::registry::SessionRegistry;
use crate::store::DescriptorStore;
use vstd::prelude::*;

verus! {

/// The decision taken when a start request arrives.
pub enum StartPrep {
    /// The room was never configured: nothing changed, no process work.
    NotConfigured,
    /// The start may proceed; `previous` is the displaced handle, to be
    /// terminated by the caller, and the identity holds no session until
    /// `finish_start`.
    Proceed { previous: Option<LiveBody> },
}

/// Owns the two pieces of shared state and serializes the lifecycle
/// decisions over them.
pub struct Orchestrator {
    pub store: DescriptorStore,
    pub registry: SessionRegistry,
}

impl Orchestrator {
    /// A fresh orchestrator: nothing configured, nothing active.
    pub fn new() -> (r: Orchestrator)
        ensures
            r.store@ == Map::<i64, crate::live::StreamArgs>::empty(),
            r.registry@ == Map::<i64, LiveBody>::empty(),
    {
        Orchestrator { store: DescriptorStore::new(), registry: SessionRegistry::new() }
    }

    /// First half of a start request: refuses an unconfigured room, and
    /// otherwise clears the identity's slot, handing back the displaced
    /// handle exactly once.
    pub fn begin_start(&mut self, id: i64) -> (r: StartPrep)
        ensures
            final(self).store == old(self).store,
            match r {
                StartPrep::NotConfigured => {
                    &&& !old(self).store@.contains_key(id)
                    &&& final(self).registry@ == old(self).registry@
                },
                StartPrep::Proceed { previous } => {
                    &&& old(self).store@.contains_key(id)
                    &&& final(self).registry@ == old(self).registry@.remove(id)
                    &&& !final(self).registry@.contains_key(id)
                    &&& match previous {
                        Some(b) => old(self).registry@.contains_key(id) && b == old(self).registry@[id],
                        None => !old(self).registry@.contains_key(id),
                    }
                },
            },
    {
        let configured = match self.store.get(id) {
            Some(_) => true,
            None => false,
        };
        if configured {
            let previous = self.registry.take(id);
            StartPrep::Proceed { previous }
        } else {
            StartPrep::NotConfigured
        }
    }

    /// Second half of a start request, called only after the new pipeline
    /// is running: installs the new handle as the sole one for `id`.
    pub fn finish_start(&mut self, id: i64, body: LiveBody) -> (prev: Option<LiveBody>)
        ensures
            final(self).store == old(self).store,
            final(self).registry@ == old(self).registry@.insert(id, body),
            final(self).registry@.contains_key(id),
            match prev {
                Some(b) => old(self).registry@.contains_key(id) && b == old(self).registry@[id],
                None => !old(self).registry@.contains_key(id),
            },
    {
        self.registry.replace(id, body)
    }

    /// An end request: removes and returns the active handle, to be
    /// terminated by the caller; reports a session that never started by
    /// returning nothing and changing nothing.
    pub fn end_session(&mut self, id: i64) -> (r: Option<LiveBody>)
        ensures
            final(self).store == old(self).store,
            final(self).registry@ == old(self).registry@.remove(id),
            !final(self).registry@.contains_key(id),
            match r {
                Some(b) => old(self).registry@.contains_key(id) && b == old(self).registry@[id],
                None => {
                    &&& !old(self).registry@.contains_key(id)
                    &&& final(self).registry@ == old(self).registry@
                },
            },
    {
        self.registry.take(id)
    }
}

/// Replacing the handle for one identity installs exactly that handle
/// there and binds every identity to at most one handle: the slot for
/// `id` holds `body` alone, and no other identity's handle changes.
pub proof fn lemma_replace_installs_sole_handle(m: Map<i64, LiveBody>, id: i64, body: LiveBody)
    ensures
        m.insert(id, body).contains_key(id),
        m.insert(id, body)[id] == body,
        forall|k: i64| k != id ==> (m.insert(id, body).contains_key(k) <==> m.contains_key(k)),
        forall|k: i64| k != id && m.contains_key(k) ==> m.insert(id, body)[k] == m[k],
{
}

/// Taking a handle clears the slot: whoever takes next gets nothing, so
/// the displaced pipeline is handed out for termination exactly once,
/// even when an explicit end races a restart for the same identity.
pub proof fn lemma_take_hands_out_once(m: Map<i64, LiveBody>, id: i64)
    ensures
        !m.remove(id).contains_key(id),
        m.remove(id).remove(id) == m.remove(id),
        forall|k: i64| k != id ==> (m.remove(id).contains_key(k) <==> m.contains_key(k)),
        forall|k: i64| k != id && m.contains_key(k) ==> m.remove(id)[k] == m[k],
{
    assert(m.remove(id).remove(id) =~= m.remove(id));
}

/// A restart over an active session: the old handle is displaced before
/// the new one exists, the identity is idle in between (so a failed
/// launch leaves it idle), and once the new handle is installed it is the
/// sole entry for the identity.
pub proof fn lemma_restart_displaces_then_installs(
    m: Map<i64, LiveBody>,
    id: i64,
    body: LiveBody,
)
    ensures
        !m.remove(id).contains_key(id),
        m.remove(id).insert(id, body).contains_key(id),
        m.remove(id).insert(id, body)[id] == body,
        forall|k: i64|
            k != id ==> (m.remove(id).insert(id, body).contains_key(k) <==> m.contains_key(k)),
        forall|k: i64|
            k != id && m.contains_key(k) ==> m.remove(id).insert(id, body)[k] == m[k],
{
}

} // verus!
