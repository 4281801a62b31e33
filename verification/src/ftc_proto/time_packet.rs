//! Time packets, which the driver station sends periodically and the robot echoes.

use vstd::prelude::*;
use vstd::utf8::encode_utf8;

use super::traits::{
    be_u64, lemma_i8_round_trip, lemma_string_round_trip, lemma_u64_round_trip, lemma_u8_round_trip,
    read_string_from, spec_read_string, Readable, Writeable,
};

verus! {

/// Data structure of a Time packet
///
/// If requesting, timestamp should be a very large number in nanoseconds,
/// robot_state should be 0,
/// unix_millis_sent should be the current unix time in milliseconds,
/// unix_millis_received_1 should be 0,
/// unix_millis_received_2 should be 0,
/// timezone should be the device's current timezone
#[derive(Debug, Clone, PartialEq, Eq)]
pub struct TimePacketData {
    /// Apparently in nanoseconds (System.nanoTime())
    pub timestamp: u64,
    pub robot_op_mode_state: RobotOpmodeState,
    /// Unix milliseconds epoch of when we sent the request packet
    pub unix_millis_sent: u64,
    pub unix_millis_received_1: u64,
    pub unix_millis_received_2: u64,
    pub timezone: String,
}

/// The mathematical value of a [TimePacketData].
pub struct TimePacketDataView {
    pub timestamp: u64,
    pub robot_op_mode_state: RobotOpmodeState,
    pub unix_millis_sent: u64,
    pub unix_millis_received_1: u64,
    pub unix_millis_received_2: u64,
    pub timezone: Seq<char>,
}

impl View for TimePacketData {
    type V = TimePacketDataView;

    open spec fn view(&self) -> TimePacketDataView {
        TimePacketDataView {
            timestamp: self.timestamp,
            robot_op_mode_state: self.robot_op_mode_state,
            unix_millis_sent: self.unix_millis_sent,
            unix_millis_received_1: self.unix_millis_received_1,
            unix_millis_received_2: self.unix_millis_received_2,
            timezone: self.timezone@,
        }
    }
}

/// The bytes a time packet with this view is written as: the timestamps and state in
/// order, then the timezone prefixed by its byte length (truncated to 8 bits).
pub open spec fn spec_write_time_packet(v: TimePacketDataView) -> Seq<u8> {
    <u64 as Writeable>::spec_write(v.timestamp) + <i8 as Writeable>::spec_write(
        i8_of_state(v.robot_op_mode_state),
    ) + <u64 as Writeable>::spec_write(v.unix_millis_sent) + <u64 as Writeable>::spec_write(
        v.unix_millis_received_1,
    ) + <u64 as Writeable>::spec_write(v.unix_millis_received_2) + <u8 as Writeable>::spec_write(
        encode_utf8(v.timezone).len() as u8,
    ) + encode_utf8(v.timezone)
}

/// What reading a time packet from `b` yields and what it leaves.
pub open spec fn spec_read_time_packet(b: Seq<u8>) -> (Option<TimePacketDataView>, Seq<u8>) {
    let (timestamp, r0) = <u64 as Readable>::spec_read(b);
    if timestamp is None {
        (None, r0)
    } else {
        let (state, r1) = <i8 as Readable>::spec_read(r0);
        if state is None {
            (None, r1)
        } else {
            let (sent, r2) = <u64 as Readable>::spec_read(r1);
            if sent is None {
                (None, r2)
            } else {
                let (received_1, r3) = <u64 as Readable>::spec_read(r2);
                if received_1 is None {
                    (None, r3)
                } else {
                    let (received_2, r4) = <u64 as Readable>::spec_read(r3);
                    if received_2 is None {
                        (None, r4)
                    } else {
                        let (tz_len, r5) = <u8 as Readable>::spec_read(r4);
                        if tz_len is None {
                            (None, r5)
                        } else {
                            let (tz, r6) = spec_read_string(r5, tz_len->0 as nat);
                            if tz is None {
                                (None, r6)
                            } else {
                                (
                                    Some(
                                        TimePacketDataView {
                                            timestamp: timestamp->0,
                                            robot_op_mode_state: state_of_i8(state->0),
                                            unix_millis_sent: sent->0,
                                            unix_millis_received_1: received_1->0,
                                            unix_millis_received_2: received_2->0,
                                            timezone: tz->0,
                                        },
                                    ),
                                    r6,
                                )
                            }
                        }
                    }
                }
            }
        }
    }
}

impl Writeable for TimePacketData {
    open spec fn spec_write(v: TimePacketDataView) -> Seq<u8> {
        spec_write_time_packet(v)
    }

    fn write_to(&self, buffer: &mut Vec<u8>) {
        let ghost start = buffer@;
        self.timestamp.write_to(buffer);
        let op_mode_state: i8 = self.robot_op_mode_state.into();
        assert(op_mode_state == i8_of_state(self.robot_op_mode_state));
        op_mode_state.write_to(buffer);
        self.unix_millis_sent.write_to(buffer);
        self.unix_millis_received_1.write_to(buffer);
        self.unix_millis_received_2.write_to(buffer);
        let tz_len = self.timezone.as_str().as_bytes().len();
        assert(tz_len == encode_utf8(self.timezone@).len());
        (#[verifier::truncate] (tz_len as u8)).write_to(buffer);
        self.timezone.write_to(buffer);
        assert(buffer@ =~= start + spec_write_time_packet(self@));
    }
}

impl Readable for TimePacketData {
    open spec fn spec_read(buffer: Seq<u8>) -> (Option<TimePacketDataView>, Seq<u8>) {
        spec_read_time_packet(buffer)
    }


    fn read_from(buffer: &mut Vec<u8>) -> (res: Option<TimePacketData>) {
        let ghost b0 = buffer@;
        let timestamp = match u64::read_from(buffer) {
            Some(x) => x,
            None => return None,
        };
        let ghost b1 = buffer@;
        assert(<u64 as Readable>::spec_read(b0) == (Some(timestamp), b1));
        let robot_state = match i8::read_from(buffer) {
            Some(x) => x,
            None => return None,
        };
        let ghost b2 = buffer@;
        assert(<i8 as Readable>::spec_read(b1) == (Some(robot_state), b2));
        let unix_millis_sent = match u64::read_from(buffer) {
            Some(x) => x,
            None => return None,
        };
        let ghost b3 = buffer@;
        assert(<u64 as Readable>::spec_read(b2) == (Some(unix_millis_sent), b3));
        let unix_millis_received_1 = match u64::read_from(buffer) {
            Some(x) => x,
            None => return None,
        };
        let ghost b4 = buffer@;
        assert(<u64 as Readable>::spec_read(b3) == (Some(unix_millis_received_1), b4));
        let unix_millis_received_2 = match u64::read_from(buffer) {
            Some(x) => x,
            None => return None,
        };
        let ghost b5 = buffer@;
        assert(<u64 as Readable>::spec_read(b4) == (Some(unix_millis_received_2), b5));
        let timezone_length = match u8::read_from(buffer) {
            Some(x) => x,
            None => return None,
        };
        let ghost b6 = buffer@;
        assert(<u8 as Readable>::spec_read(b5) == (Some(timezone_length), b6));
        let timezone = match read_string_from(buffer, timezone_length as usize) {
            Some(x) => x,
            None => return None,
        };
        Some(
            TimePacketData {
                timestamp,
                robot_op_mode_state: RobotOpmodeState::from(robot_state),
                unix_millis_sent,
                unix_millis_received_1,
                unix_millis_received_2,
                timezone,
            },
        )
    }
}

/// Reading back a written time packet gives it back and leaves what followed, when its
/// timezone fits the 8-bit length prefix.
#[verifier::spinoff_prover]
#[verifier::rlimit(30)]
pub proof fn lemma_time_packet_round_trip(v: TimePacketDataView, rest: Seq<u8>)
    requires
        encode_utf8(v.timezone).len() <= 0xff,
    ensures
        spec_read_time_packet(spec_write_time_packet(v) + rest) == (Some(v), rest),
{
    let tz = encode_utf8(v.timezone);
    let e0 = <u64 as Writeable>::spec_write(v.timestamp);
    let e1 = <i8 as Writeable>::spec_write(i8_of_state(v.robot_op_mode_state));
    let e2 = <u64 as Writeable>::spec_write(v.unix_millis_sent);
    let e3 = <u64 as Writeable>::spec_write(v.unix_millis_received_1);
    let e4 = <u64 as Writeable>::spec_write(v.unix_millis_received_2);
    let e5 = <u8 as Writeable>::spec_write(tz.len() as u8);
    let t6 = tz + rest;
    let t5 = e5 + t6;
    let t4 = e4 + t5;
    let t3 = e3 + t4;
    let t2 = e2 + t3;
    let t1 = e1 + t2;
    let t0 = e0 + t1;
    assert(spec_write_time_packet(v) + rest =~= t0);
    lemma_u64_round_trip(v.timestamp, t1);
    lemma_i8_round_trip(i8_of_state(v.robot_op_mode_state), t2);
    lemma_state_round_trip(v.robot_op_mode_state);
    lemma_u64_round_trip(v.unix_millis_sent, t3);
    lemma_u64_round_trip(v.unix_millis_received_1, t4);
    lemma_u64_round_trip(v.unix_millis_received_2, t5);
    lemma_u8_round_trip(tz.len() as u8, t6);
    lemma_string_round_trip(v.timezone, rest);
}

/// The wire format of a time packet: the timestamp (big-endian, 64 bits), the opmode
/// state's code as one byte, the time sent, the time received first and the time received
/// second (each big-endian, 64 bits), the timezone's byte length as one byte and its UTF-8
/// bytes. Reading such bytes gives the packet back and leaves what follows.
pub proof fn lemma_time_packet_wire_format(v: TimePacketDataView, rest: Seq<u8>)
    requires
        encode_utf8(v.timezone).len() <= 0xff,
    ensures
        spec_write_time_packet(v) == be_u64(v.timestamp) + seq![
            i8_of_state(v.robot_op_mode_state) as u8,
        ] + be_u64(v.unix_millis_sent) + be_u64(v.unix_millis_received_1) + be_u64(
            v.unix_millis_received_2,
        ) + seq![encode_utf8(v.timezone).len() as u8] + encode_utf8(v.timezone),
        spec_read_time_packet(spec_write_time_packet(v) + rest) == (Some(v), rest),
{
    assert(spec_write_time_packet(v) =~= be_u64(v.timestamp) + seq![
        i8_of_state(v.robot_op_mode_state) as u8,
    ] + be_u64(v.unix_millis_sent) + be_u64(v.unix_millis_received_1) + be_u64(
        v.unix_millis_received_2,
    ) + seq![encode_utf8(v.timezone).len() as u8] + encode_utf8(v.timezone));
    lemma_time_packet_round_trip(v, rest);
}

/// State of the robot's active opmode, as carried in time and telemetry packets.
#[derive(PartialEq, Eq, Structural, PartialOrd, Ord, Clone, Copy, Debug)]
pub enum RobotOpmodeState {
    Unknown,
    NotStarted,
    Initialized,
    Running,
    Stopped,
    EmergencyStopped,
}

impl View for RobotOpmodeState {
    type V = RobotOpmodeState;

    open spec fn view(&self) -> RobotOpmodeState {
        *self
    }
}

/// The wire value of a state.
pub open spec fn i8_of_state(s: RobotOpmodeState) -> i8 {
    match s {
        RobotOpmodeState::Unknown => -1i8,
        RobotOpmodeState::NotStarted => 0,
        RobotOpmodeState::Initialized => 1,
        RobotOpmodeState::Running => 2,
        RobotOpmodeState::Stopped => 3,
        RobotOpmodeState::EmergencyStopped => 4,
    }
}

/// The state a wire value stands for; values without a state read as `Unknown`.
pub open spec fn state_of_i8(v: i8) -> RobotOpmodeState {
    if v == 0 {
        RobotOpmodeState::NotStarted
    } else if v == 1 {
        RobotOpmodeState::Initialized
    } else if v == 2 {
        RobotOpmodeState::Running
    } else if v == 3 {
        RobotOpmodeState::Stopped
    } else if v == 4 {
        RobotOpmodeState::EmergencyStopped
    } else {
        RobotOpmodeState::Unknown
    }
}

/// Every state survives the trip through its wire value.
pub proof fn lemma_state_round_trip(s: RobotOpmodeState)
    ensures
        state_of_i8(i8_of_state(s)) == s,
{
}

impl From<i8> for RobotOpmodeState {
    fn from(v: i8) -> (s: RobotOpmodeState) {
        match v {
            0 => RobotOpmodeState::NotStarted,
            1 => RobotOpmodeState::Initialized,
            2 => RobotOpmodeState::Running,
            3 => RobotOpmodeState::Stopped,
            4 => RobotOpmodeState::EmergencyStopped,
            _ => RobotOpmodeState::Unknown,
        }
    }
}

impl vstd::std_specs::convert::FromSpecImpl<i8> for RobotOpmodeState {
    open spec fn obeys_from_spec() -> bool {
        true
    }

    open spec fn from_spec(v: i8) -> RobotOpmodeState {
        state_of_i8(v)
    }
}

impl From<RobotOpmodeState> for i8 {
    fn from(s: RobotOpmodeState) -> (v: i8) {
        match s {
            RobotOpmodeState::Unknown => -1i8,
            RobotOpmodeState::NotStarted => 0,
            RobotOpmodeState::Initialized => 1,
            RobotOpmodeState::Running => 2,
            RobotOpmodeState::Stopped => 3,
            RobotOpmodeState::EmergencyStopped => 4,
        }
    }
}

impl vstd::std_specs::convert::FromSpecImpl<RobotOpmodeState> for i8 {
    open spec fn obeys_from_spec() -> bool {
        true
    }

    open spec fn from_spec(s: RobotOpmodeState) -> i8 {
        i8_of_state(s)
    }
}

} // verus!
