use camera_led::reconcile::{
    fallback_notification, level_for_state, level_value, reconcile, state_name, DeviceState,
    IndicatorLevel,
};

#[test]
fn running_maps_to_on() {
    assert_eq!(level_for_state(DeviceState::Running), IndicatorLevel::On);
}

#[test]
fn every_other_state_maps_to_off() {
    assert_eq!(level_for_state(DeviceState::Idle), IndicatorLevel::Off);
    assert_eq!(level_for_state(DeviceState::Error), IndicatorLevel::Off);
    assert_eq!(level_for_state(DeviceState::Unknown), IndicatorLevel::Off);
}

#[test]
fn level_values_are_one_and_zero() {
    assert_eq!(level_value(IndicatorLevel::On), 1);
    assert_eq!(level_value(IndicatorLevel::Off), 0);
}

#[test]
fn reconcile_running_commands_on() {
    let cmd = reconcile(DeviceState::Running);
    assert_eq!(cmd.category, "leds");
    assert_eq!(cmd.device, "white:camera-indicator");
    assert_eq!(cmd.level, 1);
}

#[test]
fn reconcile_idle_commands_off() {
    let cmd = reconcile(DeviceState::Idle);
    assert_eq!(cmd.category, "leds");
    assert_eq!(cmd.device, "white:camera-indicator");
    assert_eq!(cmd.level, 0);
}

#[test]
fn repeated_reconcile_keeps_level() {
    let first = reconcile(DeviceState::Running);
    let second = reconcile(DeviceState::Running);
    assert_eq!(first.level, second.level);
    assert_eq!(second.level, 1);
}

#[test]
fn state_names() {
    assert_eq!(state_name(DeviceState::Running), "Running");
    assert_eq!(state_name(DeviceState::Idle), "Idle");
    assert_eq!(state_name(DeviceState::Error), "Error");
    assert_eq!(state_name(DeviceState::Unknown), "Unknown");
}

#[test]
fn fallback_notification_describes_state() {
    let req = fallback_notification(DeviceState::Running);
    assert_eq!(req.app_id, "org.u7fa9.x13s-camera-led");
    assert_eq!(req.replace_id, 42);
    assert_eq!(req.icon, "camera-web-symbolic");
    assert_eq!(req.summary, "Camera state changed");
    assert!(req.body.contains("Running"));
    assert_eq!(req.timeout_ms, 0);
}
