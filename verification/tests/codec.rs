use ftctui::ftc_proto::gamepad_packet::GamepadPacketData;
use ftctui::ftc_proto::heartbeat_packet::HeartbeatPacketData;
use ftctui::ftc_proto::packet::{Packet, PacketType};
use ftctui::ftc_proto::robot_command::{read_u16_prefixed, write_u16_prefixed, CommandPacketData};
use ftctui::ftc_proto::telemetry_packet::{FloatEntry, TelemetryEntry, TelemetryPacket};
use ftctui::ftc_proto::time_packet::{RobotOpmodeState, TimePacketData};
use ftctui::ftc_proto::test_deserializer::test_deserializer;
use ftctui::ftc_proto::traits::{read_string_from, Readable, Sizeable, Writeable};

#[test]
fn sizes_of_integers() {
    assert_eq!(u8::get_size_bytes(), 1);
    assert_eq!(i16::get_size_bytes(), 2);
    assert_eq!(u32::get_size_bytes(), 4);
    assert_eq!(i64::get_size_bytes(), 8);
}

#[test]
fn heartbeat_round_trip() {
    let hb = HeartbeatPacketData {
        peer_type: 1,
        sequence_number: 10003,
        sdk_build_month: 1,
        sdk_build_year: 2025,
        sdk_major_version: 10,
        sdk_minor_version: 2,
    };
    let mut buffer = Vec::new();
    hb.write_to(&mut buffer);
    assert_eq!(buffer, vec![124, 1, 0x27, 0x13, 1, 0x07, 0xe9, 10, 2, 0]);
    assert_eq!(HeartbeatPacketData::read_from(&mut buffer), Some(hb));
    assert!(buffer.is_empty());
}

#[test]
fn integers_are_big_endian() {
    let mut buffer = Vec::new();
    0x1234u16.write_to(&mut buffer);
    (-2i32).write_to(&mut buffer);
    0x0102030405060708u64.write_to(&mut buffer);
    true.write_to(&mut buffer);
    assert_eq!(
        buffer,
        vec![0x12, 0x34, 0xff, 0xff, 0xff, 0xfe, 1, 2, 3, 4, 5, 6, 7, 8, 1]
    );
    assert_eq!(u16::read_from(&mut buffer), Some(0x1234));
    assert_eq!(i32::read_from(&mut buffer), Some(-2));
    assert_eq!(u64::read_from(&mut buffer), Some(0x0102030405060708));
    assert_eq!(bool::read_from(&mut buffer), Some(true));
    assert!(buffer.is_empty());
}

#[test]
fn short_reads_fail() {
    let mut buffer = vec![0x12];
    assert_eq!(u16::read_from(&mut buffer), None);
    let mut empty: Vec<u8> = Vec::new();
    assert_eq!(u8::read_from(&mut empty), None);
    assert_eq!(i64::read_from(&mut vec![1, 2, 3]), None);
}

#[test]
fn booleans_other_than_zero_and_one_do_not_read() {
    let mut buffer = vec![2, 0];
    assert_eq!(bool::read_from(&mut buffer), None);
    assert_eq!(bool::read_from(&mut buffer), Some(false));
}

#[test]
fn strings_round_trip() {
    let mut buffer = Vec::new();
    String::from("jože").write_to(&mut buffer);
    assert_eq!(buffer, "jože".as_bytes().to_vec());
    assert_eq!(read_string_from(&mut buffer, 5), Some(String::from("jože")));
    assert!(buffer.is_empty());
    let mut invalid = vec![0xff, 0xfe, 7];
    assert_eq!(read_string_from(&mut invalid, 2), None);
    assert_eq!(invalid, vec![7]);
}

#[test]
fn length_prefixed_strings_round_trip() {
    let mut buffer = Vec::new();
    write_u16_prefixed(&String::from("abc"), &mut buffer);
    assert_eq!(buffer, vec![0, 3, b'a', b'b', b'c']);
    assert_eq!(read_u16_prefixed(&mut buffer), Some(String::from("abc")));
}

#[test]
fn packet_frame() {
    let packet = Packet::from_packet_type_and_bytes(PacketType::Command, vec![9, 8, 7])
        .with_sequence_number(5);
    let mut buffer = Vec::new();
    packet.write_to(&mut buffer);
    assert_eq!(buffer, vec![4, 0, 3, 0, 5, 9, 8, 7]);
    let back = Packet::read_from(&mut buffer).unwrap();
    assert_eq!(back, packet);
}

#[test]
fn heartbeat_frames_have_no_sequence_number() {
    let packet = Packet::from_packet_type_and_bytes(PacketType::Heartbeat, vec![1, 2]);
    let mut buffer = Vec::new();
    packet.write_to(&mut buffer);
    assert_eq!(buffer, vec![3, 0, 2, 1, 2]);
    assert_eq!(Packet::read_from(&mut buffer), Some(packet));
}

#[test]
fn unknown_packet_types_do_not_read() {
    let mut buffer = vec![9, 0, 0, 0, 0];
    assert_eq!(Packet::read_from(&mut buffer), None);
    assert_eq!(PacketType::from_code(0), None);
    assert_eq!(PacketType::from_code(5), Some(PacketType::Telemetry));
    assert_eq!(PacketType::Time.code(), 1);
}

#[test]
fn time_packet_round_trip() {
    let t = TimePacketData {
        timestamp: 123456789,
        robot_op_mode_state: RobotOpmodeState::Running,
        unix_millis_sent: 1700000000000,
        unix_millis_received_1: 1,
        unix_millis_received_2: 2,
        timezone: String::from("Europe/Ljubljana"),
    };
    let mut buffer = Vec::new();
    t.write_to(&mut buffer);
    assert_eq!(buffer.len(), 8 + 1 + 8 + 8 + 8 + 1 + 16);
    assert_eq!(buffer[8], 2);
    assert_eq!(buffer[33], 16);
    assert_eq!(TimePacketData::read_from(&mut buffer), Some(t));
}

#[test]
fn opmode_states_from_wire_values() {
    assert_eq!(RobotOpmodeState::from(1i8), RobotOpmodeState::Initialized);
    assert_eq!(RobotOpmodeState::from(4i8), RobotOpmodeState::EmergencyStopped);
    assert_eq!(RobotOpmodeState::from(42i8), RobotOpmodeState::Unknown);
    assert_eq!(i8::from(RobotOpmodeState::Unknown), -1);
    assert_eq!(i8::from(RobotOpmodeState::Stopped), 3);
}

#[test]
fn command_packet_round_trip() {
    let c = CommandPacketData {
        timestamp: 42,
        acknowledged: false,
        command: String::from("CMD_INIT_OP_MODE"),
        data: String::from("Robot"),
    };
    let mut buffer = Vec::new();
    c.write_to(&mut buffer);
    assert_eq!(&buffer[0..8], &[0, 0, 0, 0, 0, 0, 0, 42]);
    assert_eq!(buffer[8], 0);
    assert_eq!(&buffer[9..11], &[0, 16]);
    assert_eq!(buffer.len(), 8 + 1 + 2 + 16 + 2 + 5);
    assert_eq!(CommandPacketData::read_from(&mut buffer), Some(c));
}

#[test]
fn acknowledgements_carry_no_data() {
    let c = CommandPacketData {
        timestamp: 1,
        acknowledged: true,
        command: String::from("X"),
        data: String::from("ignored"),
    };
    let mut buffer = Vec::new();
    c.write_to(&mut buffer);
    assert_eq!(buffer, vec![0, 0, 0, 0, 0, 0, 0, 1, 1, 0, 1, b'X']);
    let back = CommandPacketData::read_from(&mut buffer).unwrap();
    assert!(back.acknowledged);
    assert_eq!(back.command, "X");
    assert_eq!(back.data, "");
}

#[test]
fn gamepad_packet_round_trip() {
    let mut g = GamepadPacketData::default_for_user(2);
    g.left_stick_x = 0.5f32.to_bits();
    g.button_flags = 256 | 8;
    g.timestamp = 77;
    let mut buffer = Vec::new();
    g.write_to(&mut buffer);
    assert_eq!(buffer[0], 5);
    assert_eq!(buffer.len(), 1 + 4 + 8 + 4 * 6 + 4 + 3 + 4 * 4);
    assert_eq!(GamepadPacketData::read_from(&mut buffer), Some(g));
    assert!(buffer.is_empty());
}

#[test]
fn default_gamepad_state() {
    let g = GamepadPacketData::default_for_user(1);
    assert_eq!(g.gamepad_id, 2002);
    assert_eq!(g.user, 1);
    assert_eq!(g.button_flags, 0);
    assert_eq!(g.gamepad_type, 2);
    assert_eq!(g.left_trigger, 0);
}

#[test]
fn telemetry_packet_round_trip() {
    let t = TelemetryPacket {
        unix_timestamp_millis: 99,
        is_sorted: true,
        robot_state: RobotOpmodeState::Initialized,
        tag: String::from(""),
        string_entries: vec![TelemetryEntry {
            key: String::from("\0a"),
            value: String::from("line"),
        }],
        float_entries: vec![FloatEntry { key: String::from("f"), value: 1.5f32.to_bits() }],
    };
    let mut buffer = Vec::new();
    t.write_to(&mut buffer);
    let back = TelemetryPacket::read_from(&mut buffer).unwrap();
    assert!(buffer.is_empty());
    assert_eq!(back.unix_timestamp_millis, 99);
    assert!(back.is_sorted);
    assert_eq!(back.robot_state, RobotOpmodeState::Initialized);
    assert_eq!(back.tag, "");
    assert_eq!(back.string_entries, t.string_entries);
    assert_eq!(back.float_entries, t.float_entries);
}

#[test]
fn recordings_of_packets_are_counted() {
    let hb = HeartbeatPacketData {
        peer_type: 1,
        sequence_number: 7,
        sdk_build_month: 1,
        sdk_build_year: 2025,
        sdk_major_version: 10,
        sdk_minor_version: 2,
    };
    let command = CommandPacketData {
        timestamp: 5,
        acknowledged: true,
        command: String::from("CMD_RESTART_ROBOT"),
        data: String::new(),
    };
    let mut recording = Vec::new();
    Packet::from_packet_type_and_writable(PacketType::Heartbeat, &hb).write_to(&mut recording);
    Packet::from_packet_type_and_writable(PacketType::Command, &command)
        .with_sequence_number(3)
        .write_to(&mut recording);
    // A time packet whose payload is too short to decode
    Packet::from_packet_type_and_bytes(PacketType::Time, vec![1, 2, 3])
        .with_sequence_number(4)
        .write_to(&mut recording);
    assert_eq!(test_deserializer(recording.clone()), (2, 3));
    // Reading stops at a byte that names no packet type
    recording.push(9);
    recording.extend_from_slice(&[0, 0, 0, 0]);
    assert_eq!(test_deserializer(recording), (2, 3));
    assert_eq!(test_deserializer(Vec::new()), (0, 0));
}

#[test]
fn truncated_packets_do_not_read() {
    // A command frame announcing 5 data bytes but holding only one
    let mut buffer = vec![0x04, 0x00, 0x05, 0x00, 0x01, 0xAA];
    assert_eq!(Packet::read_from(&mut buffer), None);
    // A negative data length
    let mut buffer = vec![0x03, 0xFF, 0xFF, 1, 2, 3];
    assert_eq!(Packet::read_from(&mut buffer), None);
}
