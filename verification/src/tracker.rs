//! The device tracker: decides for each registry object whether it is the
//! target device, keeps at most one tracked device at a time as a one-shot
//! latch, forwards the tracked device's state changes to reconciliation, and
//! consults the lifecycle manager on every appear and remove event.

use vstd::prelude::*;
use crate::lifecycle::{LifecycleManager, ListenerKind};
use crate::props::{spec_is_target, Properties};
use crate::reconcile::{reconcile, spec_level_for_state, spec_level_value, DeviceState, IndicatorCommand};

verus! {

/// The kind tag a registry object carries.
#[derive(Clone, Copy, Debug, PartialEq, Eq, Structural)]
pub enum ObjectKind {
    /// A device/node object: tracked for resource cleanup, and a candidate
    /// for identification.
    DeviceNode,
    /// Any other registry object: ignored.
    Other,
}

/// The listeners registered for every appearing device/node object: one
/// state-change subscription and one removal subscription.
pub open spec fn spec_node_listener_set() -> Seq<ListenerKind> {
    seq![ListenerKind::StateChange, ListenerKind::Removal]
}

/// The latch after an info/state event: while nothing is latched, the first
/// object whose properties satisfy the identification predicate becomes the
/// tracked device; once latched, the predicate is never re-evaluated.
pub open spec fn spec_latch_after_info(
    latch: Option<u32>,
    entries: Seq<(String, String)>,
    identity: u32,
) -> Option<u32> {
    if latch is None && spec_is_target(entries) {
        Some(identity)
    } else {
        latch
    }
}

/// Whether an info/state event for `identity` is forwarded to
/// reconciliation: exactly when, after any latching, `identity` is the
/// tracked device.
pub open spec fn spec_forwards(
    latch: Option<u32>,
    entries: Seq<(String, String)>,
    identity: u32,
) -> bool {
    spec_latch_after_info(latch, entries, identity) == Some(identity)
}

/// The latch after `identity` is removed from the registry: cleared if it
/// was the tracked device, untouched otherwise.
pub open spec fn spec_latch_after_remove(latch: Option<u32>, identity: u32) -> Option<u32> {
    if latch == Some(identity) {
        None
    } else {
        latch
    }
}

/// The monitor's tracking state: the one-shot latch naming the tracked
/// device, if any, and the per-object listener bookkeeping.
pub struct DeviceTracker {
    /// The tracked device's identity, once the identification predicate has
    /// matched; at most one device is ever tracked at a time.
    pub latch: Option<u32>,
    /// Listener resources per live device/node object.
    pub lifecycle: LifecycleManager,
}

impl DeviceTracker {
    /// Initially no device is tracked and no listeners are held.
    pub fn new() -> (tracker: Self)
        ensures
            tracker.latch is None,
            tracker.lifecycle@ =~= Map::<u32, Seq<ListenerKind>>::empty(),
    {
        DeviceTracker { latch: None, lifecycle: LifecycleManager::new() }
    }

    /// A registry object appeared. An object of any other kind is ignored;
    /// a device/node object gets a state-change and a removal subscription,
    /// recorded under its identity, whether or not it is the target. The
    /// caller registers the subscriptions exactly when `subscribed` is true.
    pub fn on_object_appeared(&mut self, identity: u32, kind: ObjectKind) -> (subscribed: bool)
        ensures
            final(self).latch == old(self).latch,
            kind != ObjectKind::DeviceNode ==> !subscribed && final(self).lifecycle@ =~= old(
                self,
            ).lifecycle@,
            kind == ObjectKind::DeviceNode ==> subscribed == !old(
                self,
            ).lifecycle@.contains_key(identity),
            subscribed ==> final(self).lifecycle@ =~= old(self).lifecycle@.insert(
                identity,
                spec_node_listener_set(),
            ),
            !subscribed ==> final(self).lifecycle@ =~= old(self).lifecycle@,
    {
        match kind {
            ObjectKind::DeviceNode => {
                let mut listeners: Vec<ListenerKind> = Vec::new();
                listeners.push(ListenerKind::StateChange);
                listeners.push(ListenerKind::Removal);
                proof {
                    assert(listeners@ =~= spec_node_listener_set());
                }
                self.lifecycle.insert(identity, listeners)
            },
            ObjectKind::Other => false,
        }
    }

    /// An object's info/state refreshed. While no device is latched, the
    /// identification predicate is evaluated against `props`, and on a match
    /// the object becomes the tracked device. If the event's identity is the
    /// tracked device's, its state is reconciled into the indicator command
    /// the caller must issue; any other object's event has no effect.
    pub fn on_state_info(
        &mut self,
        identity: u32,
        props: &Properties,
        state: DeviceState,
    ) -> (cmd: Option<IndicatorCommand>)
        ensures
            final(self).lifecycle@ =~= old(self).lifecycle@,
            final(self).latch == spec_latch_after_info(old(self).latch, props@, identity),
            cmd is Some <==> spec_forwards(old(self).latch, props@, identity),
            (match cmd {
                Some(c) => {
                    &&& c.category@ == "leds"@
                    &&& c.device@ == "white:camera-indicator"@
                    &&& c.level == spec_level_value(spec_level_for_state(state))
                },
                None => true,
            }),
    {
        if self.latch.is_none() && crate::props::is_target(props) {
            self.latch = Some(identity);
        }
        match self.latch {
            Some(held) => {
                if held == identity {
                    Some(reconcile(state))
                } else {
                    None
                }
            },
            None => None,
        }
    }

    /// A registry object was removed: its listeners are released, and if it
    /// was the tracked device the latch is cleared. No indicator command is
    /// issued on removal; the indicator keeps its last-set level.
    pub fn on_object_removed(&mut self, identity: u32)
        ensures
            final(self).lifecycle@ =~= old(self).lifecycle@.remove(identity),
            final(self).latch == spec_latch_after_remove(old(self).latch, identity),
    {
        self.lifecycle.remove(identity);
        match self.latch {
            Some(held) => {
                if held == identity {
                    self.latch = None;
                }
            },
            None => {},
        }
    }
}

/// Whether a registry-level error is fatal for the monitor: exactly the
/// sentinel identity 0 stops the event loop and surfaces the failure as the
/// process result; every other error is logged and monitoring continues.
pub fn fatal_registry_error(identity: u32) -> (fatal: bool)
    ensures
        fatal <==> identity == 0,
{
    identity == 0
}

} // verus!
