use std::time::Instant;

use ftctui::ftc_proto::time_packet::RobotOpmodeState;
use ftctui::network::{CommandEffect, TelemetryPlan};
use ftctui::robot::{status_shown, telemetry_line_parts, OpModeStatusShown, Robot};

#[test]
fn an_empty_robot_knows_nothing() {
    let r = Robot::new_empty();
    assert_eq!(r.active_opmode, "$Stop$Robot$");
    assert!(r.active_opmode_state.is_none());
    assert!(r.opmode_list.is_none());
    assert!(r.battery_voltage.is_none());
    assert!(r.telemetry_list.is_empty());
}

#[test]
fn the_fake_robot() {
    let r = Robot::new_fake();
    assert_eq!(r.active_opmode_state, Some(RobotOpmodeState::Running));
    assert_eq!(r.active_opmode, "Bautonomous");
    assert_eq!(r.opmode_list.as_ref().unwrap().len(), 6);
    assert_eq!(f32::from_bits(r.battery_voltage.unwrap()), 12.3);
    assert_eq!(r.telemetry_list.len(), 19);
    assert_eq!(r.warning_message.as_deref(), Some("Test warning message"));
    let types = r.configuration_types.unwrap();
    assert_eq!(types.len(), 62);
    assert!(types.iter().any(|t| t.xml_tag_aliases == vec![String::from("RevRoboticsHDHexMotor")]));
}

#[test]
fn command_effects_update_the_opmode() {
    let mut r = Robot::new_empty();
    r.apply_command_effect(CommandEffect::OpModeInitialized(String::from("Auto")));
    assert_eq!(r.active_opmode, "Auto");
    assert_eq!(r.active_opmode_state, Some(RobotOpmodeState::Initialized));
    r.apply_command_effect(CommandEffect::OpModeRunning(String::from("Auto")));
    assert_eq!(r.active_opmode_state, Some(RobotOpmodeState::Running));
    r.apply_command_effect(CommandEffect::SetOpModeState(RobotOpmodeState::Stopped));
    assert_eq!(r.active_opmode, "Auto");
    assert_eq!(r.active_opmode_state, Some(RobotOpmodeState::Stopped));
    r.apply_command_effect(CommandEffect::Unhandled);
    assert_eq!(r.active_opmode_state, Some(RobotOpmodeState::Stopped));
}

#[test]
fn telemetry_plans_update_messages_and_lines() {
    let mut r = Robot::new_empty();
    r.apply_telemetry_plan(TelemetryPlan {
        battery_voltages: vec![],
        warning_message: Some(Some(String::from("w"))),
        error_message: None,
        telemetry_list: Some(vec![String::from("a")]),
    });
    assert_eq!(r.warning_message.as_deref(), Some("w"));
    assert_eq!(r.telemetry_list, vec![String::from("a")]);
    r.apply_telemetry_plan(TelemetryPlan {
        battery_voltages: vec![],
        warning_message: Some(None),
        error_message: Some(Some(String::from("e"))),
        telemetry_list: None,
    });
    assert_eq!(r.warning_message, None);
    assert_eq!(r.error_message.as_deref(), Some("e"));
    assert_eq!(r.telemetry_list, vec![String::from("a")]);
}

#[test]
fn battery_voltage_is_recorded() {
    let mut r = Robot::new_empty();
    let now = Instant::now();
    r.record_battery_voltage(12.5f32.to_bits(), now);
    assert_eq!(r.battery_voltage, Some(12.5f32.to_bits()));
    assert_eq!(r.last_battery_update, now);
}

#[test]
fn telemetry_lines_with_keys_are_split() {
    let parts = |k: &str, v: &str| Some((String::from(k), String::from(v)));
    assert_eq!(telemetry_line_parts("Motor power : 0.5"), parts("Motor power", "0.5"));
    assert_eq!(telemetry_line_parts("  key :   value  "), parts("key", "value"));
    assert_eq!(telemetry_line_parts("a : b : c"), parts("a", "b"));
    assert_eq!(telemetry_line_parts(" : "), parts("", ""));
    assert_eq!(telemetry_line_parts("no separator"), None);
    assert_eq!(telemetry_line_parts("a:b"), None);
}

#[test]
fn opmode_states_are_shown_in_four_kinds() {
    assert_eq!(status_shown(RobotOpmodeState::NotStarted), OpModeStatusShown::Initialized);
    assert_eq!(status_shown(RobotOpmodeState::EmergencyStopped), OpModeStatusShown::Stopped);
    assert_eq!(status_shown(RobotOpmodeState::Running).label(), "Running");
    assert_eq!(status_shown(RobotOpmodeState::Unknown).label(), "Unknown");
}
