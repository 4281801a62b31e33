use std::time::Instant;

use ftctui::ftc_proto::gamepad_packet::GamepadPacketData;
use ftctui::ftc_proto::heartbeat_packet::HeartbeatPacketData;
use ftctui::ftc_proto::packet::{Packet, PacketType};
use ftctui::ftc_proto::robot_command::{CommandPacketData, INIT_OPMODE, OPMODE_STOP, RUN_OPMODE};
use ftctui::ftc_proto::telemetry_packet::{TelemetryEntry, TelemetryPacket};
use ftctui::ftc_proto::time_packet::RobotOpmodeState;
use ftctui::ftc_proto::traits::{Readable, Writeable};
use ftctui::network::{
    acknowledgement_for, classify_datagram, command_packet, command_packet_effect,
    gamepad_update_packet, heartbeat_request_packet, init_opmode_command, is_status_tag_text, new_command,
    next_sequence, prepare_outgoing, retransmission_step, run_opmode_command,
    stop_opmode_command, telemetry_plan, time_request_data, CommandEffect, NetworkStatus,
    ReceivedDatagram, SharedNetworkData,
};

fn command(name: &str, data: &str) -> CommandPacketData {
    CommandPacketData {
        timestamp: 1,
        acknowledged: false,
        command: String::from(name),
        data: String::from(data),
    }
}

#[test]
fn sequence_numbers_wrap() {
    assert_eq!(next_sequence(0), 1);
    assert_eq!(next_sequence(-1), 0);
    assert_eq!(next_sequence(i16::MAX), i16::MIN);
}

#[test]
fn outgoing_packets_get_sequence_numbers_but_heartbeats_do_not() {
    let p = Packet::from_packet_type_and_bytes(PacketType::Time, vec![1]);
    let (p, next) = prepare_outgoing(p, 41);
    assert_eq!(p.sequence_number, Some(41));
    assert_eq!(next, 42);
    let h = heartbeat_request_packet();
    let (h, next) = prepare_outgoing(h, 42);
    assert_eq!(h.sequence_number, None);
    assert_eq!(next, 42);
}

#[test]
fn the_heartbeat_request() {
    let h = heartbeat_request_packet();
    assert_eq!(h.packet_type, PacketType::Heartbeat);
    let mut data = h.data.clone();
    let hb = HeartbeatPacketData::read_from(&mut data).unwrap();
    assert_eq!(hb.sequence_number, 10003);
    assert_eq!(hb.sdk_build_year, 2025);
}

#[test]
fn the_time_request() {
    let t = time_request_data(5, 6);
    assert_eq!(t.timestamp, 5);
    assert_eq!(t.unix_millis_sent, 6);
    assert_eq!(t.robot_op_mode_state, RobotOpmodeState::NotStarted);
    assert_eq!(t.timezone, "Europe/Ljubljana");
}

#[test]
fn gamepad_packets_only_on_change() {
    let a = GamepadPacketData::default_for_user(1);
    let mut b = a;
    assert!(gamepad_update_packet(&a, &b).is_none());
    b.button_flags = 256;
    let p = gamepad_update_packet(&b, &a).unwrap();
    assert_eq!(p.packet_type, PacketType::Gamepad);
    let mut data = p.data.clone();
    assert_eq!(GamepadPacketData::read_from(&mut data), Some(b));
}

#[test]
fn opmode_command_data() {
    let run = run_opmode_command(String::from("Auto"), 9);
    assert_eq!(run.command, RUN_OPMODE);
    assert_eq!(run.data, "Auto");
    assert!(!run.acknowledged);
    let init = init_opmode_command(String::from("Tele"), 9);
    assert_eq!(init.command, INIT_OPMODE);
    let stop = stop_opmode_command(3);
    assert_eq!(stop.command, INIT_OPMODE);
    assert_eq!(stop.data, OPMODE_STOP);
    assert_eq!(stop.timestamp, 3);
    let mut expected = command("X", "y");
    expected.timestamp = 2;
    assert_eq!(new_command("X", String::from("y"), 2), expected);
}

#[test]
fn command_packets_carry_their_sequence_number() {
    let c = command("CMD_X", "d");
    let p = command_packet(7, &c);
    assert_eq!(p.packet_type, PacketType::Command);
    assert_eq!(p.sequence_number, Some(7));
    let mut data = p.data.clone();
    assert_eq!(CommandPacketData::read_from(&mut data), Some(c));
}

#[test]
fn acknowledging_forgets_pending_commands_of_that_name() {
    let now = Instant::now();
    let mut shared = SharedNetworkData::new();
    assert_eq!(shared.state, NetworkStatus::Establishing);
    shared.record_sent_command(1, command("A", ""), now);
    shared.record_sent_command(2, command("B", ""), now);
    shared.record_sent_command(3, command("A", "again"), now);
    shared.acknowledge_command(&String::from("A"));
    assert_eq!(shared.unacknowledged_command_packets.len(), 1);
    assert_eq!(shared.unacknowledged_command_packets[0].0 .1.command, "B");
    shared.acknowledge_command(&String::from("C"));
    assert_eq!(shared.unacknowledged_command_packets.len(), 1);
}

#[test]
fn connection_times_out() {
    let mut shared = SharedNetworkData::new();
    shared.record_received(Instant::now());
    assert_eq!(shared.state, NetworkStatus::Connected);
    shared.apply_timeout(Some(1_999_999_999));
    assert_eq!(shared.state, NetworkStatus::Connected);
    shared.apply_timeout(Some(2_000_000_000));
    assert_eq!(shared.state, NetworkStatus::Disconnected);
    let mut fresh = SharedNetworkData::new();
    fresh.apply_timeout(None);
    assert_eq!(fresh.state, NetworkStatus::Establishing);
}

#[test]
fn retransmission_gives_up_after_ten_sends() {
    let now = Instant::now();
    let entries = vec![
        ((1, command("A", "")), now, 0u8),
        ((2, command("B", "")), now, 10u8),
        ((3, command("C", "")), now, 4u8),
    ];
    let elapsed = vec![250_000_000u128, 250_000_000, 100_000_000];
    let (kept, sent) = retransmission_step(entries, &elapsed, now);
    assert_eq!(kept.len(), 2);
    assert_eq!(kept[0].2, 1);
    assert_eq!(kept[1].2, 4);
    assert_eq!(sent.len(), 1);
    assert_eq!(sent[0].sequence_number, Some(1));
}

#[test]
fn datagrams_are_classified() {
    let c = command("CMD_NOTIFY_ROBOT_STATE", "2");
    let p = command_packet(3, &c);
    let mut bytes = Vec::new();
    p.write_to(&mut bytes);
    match classify_datagram(bytes) {
        ReceivedDatagram::Command(Some(d)) => assert_eq!(d, c),
        other => panic!("unexpected {:?}", other),
    }
    assert!(matches!(classify_datagram(vec![]), ReceivedDatagram::Unreadable));
    assert!(matches!(classify_datagram(vec![2, 0, 0, 0, 1]), ReceivedDatagram::Gamepad));
    // A frame announcing more data than it holds cannot be read.
    assert!(matches!(classify_datagram(vec![4, 0, 9, 0, 1, 2]), ReceivedDatagram::Unreadable));
    // A command frame whose payload is cut short.
    assert!(matches!(classify_datagram(vec![4, 0, 2, 0, 1, 0, 0]), ReceivedDatagram::Command(None)));
}

#[test]
fn telemetry_datagrams_are_decoded() {
    let t = telemetry("", &[("\0a", "x : 1")]);
    let mut data = Vec::new();
    t.write_to(&mut data);
    let p = Packet::from_packet_type_and_bytes(PacketType::Telemetry, data).with_sequence_number(1);
    let mut bytes = Vec::new();
    p.write_to(&mut bytes);
    match classify_datagram(bytes) {
        ReceivedDatagram::Telemetry(Some(d)) => {
            assert_eq!(d.string_entries, t.string_entries);
            let plan = telemetry_plan(&d);
            assert_eq!(plan.telemetry_list, Some(vec![String::from("x : 1")]));
        },
        other => panic!("unexpected {:?}", other),
    }
}

#[test]
fn heartbeat_datagrams_are_decoded() {
    let mut bytes = Vec::new();
    heartbeat_request_packet().write_to(&mut bytes);
    match classify_datagram(bytes) {
        ReceivedDatagram::Heartbeat(Some(h)) => assert_eq!(h.sequence_number, 10003),
        other => panic!("unexpected {:?}", other),
    }
}

#[test]
fn received_commands() {
    assert_eq!(
        command_packet_effect(&command("CMD_NOTIFY_ROBOT_STATE", "2")),
        CommandEffect::SetOpModeState(RobotOpmodeState::Running)
    );
    assert_eq!(
        command_packet_effect(&command("CMD_NOTIFY_ROBOT_STATE", "x")),
        CommandEffect::InvalidOpModeState
    );
    assert_eq!(
        command_packet_effect(&command("CMD_NOTIFY_INIT_OP_MODE", "Auto")),
        CommandEffect::OpModeInitialized(String::from("Auto"))
    );
    assert_eq!(
        command_packet_effect(&command("CMD_NOTIFY_RUN_OP_MODE", "Auto")),
        CommandEffect::OpModeRunning(String::from("Auto"))
    );
    assert_eq!(command_packet_effect(&command("CMD_NOTIFY_OP_MODE_LIST", "[]")), CommandEffect::OpModeList);
    assert_eq!(
        command_packet_effect(&command("CMD_NOTIFY_ACTIVE_CONFIGURATION", "{}")),
        CommandEffect::ActiveConfiguration
    );
    assert_eq!(command_packet_effect(&command("CMD_SOMETHING", "")), CommandEffect::Unhandled);
    let mut ack = command("CMD_X", "");
    ack.acknowledged = true;
    assert_eq!(command_packet_effect(&ack), CommandEffect::Acknowledgement);
}

#[test]
fn received_commands_are_acknowledged() {
    let a = acknowledgement_for(&command("CMD_NOTIFY_RUN_OP_MODE", "Auto"), 77);
    assert!(a.acknowledged);
    assert_eq!(a.command, "CMD_NOTIFY_RUN_OP_MODE");
    assert_eq!(a.data, "");
    assert_eq!(a.timestamp, 77);
}

fn telemetry(tag: &str, entries: &[(&str, &str)]) -> TelemetryPacket {
    TelemetryPacket {
        unix_timestamp_millis: 0,
        is_sorted: false,
        robot_state: RobotOpmodeState::Running,
        tag: String::from(tag),
        string_entries: entries
            .iter()
            .map(|(k, v)| TelemetryEntry { key: String::from(*k), value: String::from(*v) })
            .collect(),
        float_entries: Vec::new(),
    }
}

#[test]
fn user_telemetry_lines() {
    let plan = telemetry_plan(&telemetry(
        "",
        &[("\0a", "x : 1"), ("Status", "ignored"), ("\0b", "y : 2"), ("$Robot$Battery$Level$", "12.5")],
    ));
    assert_eq!(plan.telemetry_list, Some(vec![String::from("x : 1"), String::from("y : 2")]));
    assert_eq!(plan.battery_voltages, vec![String::from("12.5")]);
    assert_eq!(plan.warning_message, None);
    assert_eq!(plan.error_message, None);
}

#[test]
fn status_telemetry() {
    let warn = telemetry_plan(&telemetry("$System$Warning$", &[("$System$Warning$", "low")]));
    assert_eq!(warn.warning_message, Some(Some(String::from("low"))));
    assert_eq!(warn.telemetry_list, Some(Vec::new()));
    let err = telemetry_plan(&telemetry("$System$Error$", &[("$System$Error$", "bad")]));
    assert_eq!(err.error_message, Some(Some(String::from("bad"))));
    let none = telemetry_plan(&telemetry("$System$None$", &[("$System$None$", "")]));
    assert_eq!(none.warning_message, Some(None));
    assert_eq!(none.error_message, Some(None));
    let battery =
        telemetry_plan(&telemetry("$Robot$Battery$Level$", &[("$Robot$Battery$Level$", "12.1")]));
    assert_eq!(battery.battery_voltages, vec![String::from("12.1"), String::from("12.1")]);
}

#[test]
fn mismatched_or_unknown_tags_are_ignored() {
    let mismatch = telemetry_plan(&telemetry("$System$Warning$", &[("other", "x")]));
    assert_eq!(mismatch.telemetry_list, None);
    assert_eq!(mismatch.warning_message, None);
    let unknown = telemetry_plan(&telemetry("Mystery", &[("\0a", "x")]));
    assert_eq!(unknown.telemetry_list, None);
    assert!(unknown.battery_voltages.is_empty());
}

#[test]
fn status_tags_are_recognised() {
    assert!(is_status_tag_text("$Robot$Battery$Level$"));
    assert!(is_status_tag_text("$RobotController$Battery$Status$"));
    assert!(is_status_tag_text("$System$Warning$"));
    assert!(is_status_tag_text("$System$Error$"));
    assert!(is_status_tag_text("$System$None$"));
    assert!(!is_status_tag_text(""));
    assert!(!is_status_tag_text("$System$Other$"));
}
