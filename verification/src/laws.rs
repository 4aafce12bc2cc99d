//! Laws of the monitor core, stated and proved over the spec-level models
//! that the executable contracts use.

use vstd::prelude::*;
use crate::lifecycle::ListenerKind;
use crate::props::spec_lookup;
use crate::props::spec_is_target;
use crate::reconcile::{spec_level_for_state, DeviceState, IndicatorLevel};
use crate::tracker::{spec_forwards, spec_latch_after_info, spec_latch_after_remove};

verus! {

/// A properties mapping that lacks any one of the three required fields
/// never satisfies the identification predicate, so an info/state event
/// carrying it never latches a tracked device: the latch is left exactly as
/// it was.
pub proof fn lemma_missing_field_never_latches(
    latch: Option<u32>,
    entries: Seq<(String, String)>,
    identity: u32,
)
    requires
        spec_lookup(entries, "media.role"@) is None || spec_lookup(
            entries,
            "api.libcamera.location"@,
        ) is None || spec_lookup(entries, "device.product.name"@) is None,
    ensures
        !spec_is_target(entries),
        spec_latch_after_info(latch, entries, identity) == latch,
{
}

/// While no device is latched, the first object whose properties match all
/// three fixed targets becomes the tracked device.
pub proof fn lemma_first_match_latches(entries: Seq<(String, String)>, identity: u32)
    requires
        spec_is_target(entries),
    ensures
        spec_latch_after_info(None::<u32>, entries, identity) == Some(identity),
{
}

/// Once a device is latched, no later info/state event re-latches: the
/// identification predicate is never re-evaluated while the latch is held,
/// whatever properties arrive and whichever object they belong to.
pub proof fn lemma_latch_never_reevaluated(
    held: u32,
    entries: Seq<(String, String)>,
    identity: u32,
)
    ensures
        spec_latch_after_info(Some(held), entries, identity) == Some(held),
{
}

/// The reconciliation mapping is total and deterministic: the running state
/// maps to the indicator's on level, and every other state maps to off, so
/// repeated observations of one state always command the same level.
pub proof fn lemma_reconcile_levels(state: DeviceState)
    ensures
        state == DeviceState::Running ==> spec_level_for_state(state) == IndicatorLevel::On,
        state != DeviceState::Running ==> spec_level_for_state(state) == IndicatorLevel::Off,
{
}

/// Removing an object other than the tracked device leaves the latch
/// untouched; removal never issues an indicator command, whatever object it
/// concerns.
pub proof fn lemma_remove_other_keeps_latch(latch: Option<u32>, identity: u32)
    requires
        latch != Some(identity),
    ensures
        spec_latch_after_remove(latch, identity) == latch,
{
}

/// Removing the tracked device clears the latch, and afterwards no
/// info/state event whose properties fail the identification predicate is
/// forwarded to the indicator: no command is issued until a fresh match
/// latches again.
pub proof fn lemma_remove_tracked_silences(
    identity: u32,
    entries: Seq<(String, String)>,
    other: u32,
)
    requires
        !spec_is_target(entries),
    ensures
        spec_latch_after_remove(Some(identity), identity) is None,
        !spec_forwards(None::<u32>, entries, other),
{
}

/// Inserting an identity's listeners and then removing that identity leaves
/// the lifecycle mapping exactly as it was: no residual listener state.
pub proof fn lemma_insert_then_remove_restores(
    mapping: Map<u32, Seq<ListenerKind>>,
    identity: u32,
    listeners: Seq<ListenerKind>,
)
    requires
        !mapping.contains_key(identity),
    ensures
        mapping.insert(identity, listeners).remove(identity) =~= mapping,
{
}

/// Removing an identity that holds no listeners changes nothing.
pub proof fn lemma_remove_unknown_is_noop(mapping: Map<u32, Seq<ListenerKind>>, identity: u32)
    requires
        !mapping.contains_key(identity),
    ensures
        mapping.remove(identity) =~= mapping,
{
}

} // verus!
