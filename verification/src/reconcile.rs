//! State reconciliation: mapping an observed device state to an indicator
//! command, and building the fallback notification used when the indicator
//! cannot be updated.

use vstd::prelude::*;

verus! {

/// The last-observed runtime state of a registry object's device.
#[derive(Clone, Copy, Debug, PartialEq, Eq, Structural)]
pub enum DeviceState {
    Running,
    Idle,
    Error,
    Unknown,
}

/// The binary level driven to the physical indicator.
#[derive(Clone, Copy, Debug, PartialEq, Eq, Structural)]
pub enum IndicatorLevel {
    On,
    Off,
}

/// The indicator is on exactly while the device is actively running;
/// every other state turns it off.
pub open spec fn spec_level_for_state(state: DeviceState) -> IndicatorLevel {
    match state {
        DeviceState::Running => IndicatorLevel::On,
        _ => IndicatorLevel::Off,
    }
}

/// The wire value of an indicator level: 1 for on, 0 for off.
pub open spec fn spec_level_value(level: IndicatorLevel) -> u32 {
    match level {
        IndicatorLevel::On => 1,
        IndicatorLevel::Off => 0,
    }
}

pub fn level_for_state(state: DeviceState) -> (level: IndicatorLevel)
    ensures
        level == spec_level_for_state(state),
{
    match state {
        DeviceState::Running => IndicatorLevel::On,
        _ => IndicatorLevel::Off,
    }
}

pub fn level_value(level: IndicatorLevel) -> (value: u32)
    ensures
        value == spec_level_value(level),
{
    match level {
        IndicatorLevel::On => 1,
        IndicatorLevel::Off => 0,
    }
}

/// One "set indicator level" request for the system control channel.
pub struct IndicatorCommand {
    pub category: String,
    pub device: String,
    pub level: u32,
}

/// Translate a device-state observation into the indicator command to issue:
/// category "leds", the fixed indicator device, level on iff running.
pub fn reconcile(state: DeviceState) -> (cmd: IndicatorCommand)
    ensures
        cmd.category@ == "leds"@,
        cmd.device@ == "white:camera-indicator"@,
        cmd.level == spec_level_value(spec_level_for_state(state)),
{
    IndicatorCommand {
        category: "leds".to_owned(),
        device: "white:camera-indicator".to_owned(),
        level: level_value(level_for_state(state)),
    }
}

/// The display name of a device state, used in the fallback notification body.
pub open spec fn spec_state_name(state: DeviceState) -> Seq<char> {
    match state {
        DeviceState::Running => "Running"@,
        DeviceState::Idle => "Idle"@,
        DeviceState::Error => "Error"@,
        DeviceState::Unknown => "Unknown"@,
    }
}

pub fn state_name(state: DeviceState) -> (name: String)
    ensures
        name@ == spec_state_name(state),
{
    match state {
        DeviceState::Running => "Running".to_owned(),
        DeviceState::Idle => "Idle".to_owned(),
        DeviceState::Error => "Error".to_owned(),
        DeviceState::Unknown => "Unknown".to_owned(),
    }
}

/// One "post message" request for the session control channel.
pub struct NotifyRequest {
    pub app_id: String,
    pub replace_id: u32,
    pub icon: String,
    pub summary: String,
    pub body: String,
    pub timeout_ms: i32,
}

/// Build the best-effort notification describing a state transition whose
/// indicator update failed: a fixed summary plus the state's name as body.
pub fn fallback_notification(state: DeviceState) -> (req: NotifyRequest)
    ensures
        req.app_id@ == "org.u7fa9.x13s-camera-led"@,
        req.replace_id == 42,
        req.icon@ == "camera-web-symbolic"@,
        req.summary@ == "Camera state changed"@,
        req.body@ == spec_state_name(state),
        req.timeout_ms == 0,
{
    NotifyRequest {
        app_id: "org.u7fa9.x13s-camera-led".to_owned(),
        replace_id: 42,
        icon: "camera-web-symbolic".to_owned(),
        summary: "Camera state changed".to_owned(),
        body: state_name(state),
        timeout_ms: 0,
    }
}

} // verus!
