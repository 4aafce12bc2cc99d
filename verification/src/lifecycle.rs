//! Lifecycle management of per-object listener resources: the mapping from
//! a registry object's identity to the listeners registered for it, released
//! exactly when the object is removed and never retained afterwards.

use std::collections::HashMap;
use vstd::prelude::*;

verus! {

broadcast use vstd::std_specs::hash::group_hash_axioms;

/// One active subscription registered for a registry object.
#[derive(Clone, Copy, Debug, PartialEq, Eq, Structural)]
pub enum ListenerKind {
    /// Delivers the object's info/state refreshes.
    StateChange,
    /// Fires when the object leaves the registry.
    Removal,
}

/// The mapping from a live registry object's identity to its active
/// listeners. An identity is present exactly between its "appeared" event
/// and its matching "removed" event.
pub struct LifecycleManager {
    entries: HashMap<u32, Vec<ListenerKind>>,
}

impl View for LifecycleManager {
    type V = Map<u32, Seq<ListenerKind>>;

    closed spec fn view(&self) -> Map<u32, Seq<ListenerKind>> {
        self.entries@.map_values(|listeners: Vec<ListenerKind>| listeners@)
    }
}

impl LifecycleManager {
    /// An empty mapping: no object is tracked yet.
    pub fn new() -> (manager: Self)
        ensures
            manager@ =~= Map::<u32, Seq<ListenerKind>>::empty(),
    {
        LifecycleManager { entries: HashMap::new() }
    }

    /// Whether listeners are currently held for `identity`.
    pub fn contains(&self, identity: u32) -> (held: bool)
        ensures
            held == self@.contains_key(identity),
    {
        self.entries.contains_key(&identity)
    }

    /// How many identities currently hold listeners.
    pub fn len(&self) -> (count: usize)
        ensures
            count == self@.len(),
    {
        proof {
            assert(self@.dom() =~= self.entries@.dom());
        }
        self.entries.len()
    }

    /// Record the listeners registered for a newly appeared identity. Each
    /// identity may be inserted at most once between an appear and its
    /// matching removal: a second insert is rejected and changes nothing.
    pub fn insert(&mut self, identity: u32, listeners: Vec<ListenerKind>) -> (accepted: bool)
        ensures
            accepted == !old(self)@.contains_key(identity),
            accepted ==> final(self)@ =~= old(self)@.insert(identity, listeners@),
            !accepted ==> final(self)@ =~= old(self)@,
    {
        if self.entries.contains_key(&identity) {
            false
        } else {
            self.entries.insert(identity, listeners);
            true
        }
    }

    /// Release the listeners held for `identity`, if any: after the call the
    /// identity holds none, so no further callback can be delivered through
    /// them. Removing an unknown identity is a no-op.
    pub fn remove(&mut self, identity: u32)
        ensures
            final(self)@ =~= old(self)@.remove(identity),
    {
        self.entries.remove(&identity);
    }
}

} // verus!
