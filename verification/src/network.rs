//! Decisions of the network loop: sequence numbers, the commands awaiting an
//! acknowledgement, connection state, and what to do with each packet received.

use vstd::prelude::*;

use std::time::Instant;

use crate::clock::{elapsed_nanos, instant_now};
use crate::ftc_proto::gamepad_packet::GamepadPacketData;
use crate::ftc_proto::heartbeat_packet::HeartbeatPacketData;
use crate::ftc_proto::packet::{
    has_sequence_number, packet_type_of_code, payload_fits, spec_read_header, Packet,
    PacketType, PacketView,
};
use crate::ftc_proto::robot_command::{
    spec_write_command_packet, CommandPacketData, CommandPacketDataView, INIT_OPMODE,
    NOTIFY_ACTIVE_CONFIGURATION, NOTIFY_INIT_OPMODE, NOTIFY_OP_MODES, NOTIFY_OP_MODE_STATE,
    NOTIFY_RUN_OPMODE, OPMODE_STOP, RUN_OPMODE,
};
use crate::ftc_proto::telemetry_packet::{
    TelemetryEntry, TelemetryEntryView, TelemetryPacket, TelemetryPacketView, ROBOT_BATTERY_LEVEL_KEY,
    ROBOT_CONTROLLER_BATTERY_STATUS_KEY, SYSTEM_ERROR_KEY, SYSTEM_NONE_KEY, SYSTEM_WARNING_KEY,
};
use crate::ftc_proto::time_packet::{state_of_i8, RobotOpmodeState, TimePacketData};
use crate::ftc_proto::traits::{Readable, Writeable};
use crate::text::{chars_eq_str, chars_of, parse_i8, spec_parse_i8};

verus! {

/// How long to wait before retransmitting packets that we didn't get an ack for, in
/// nanoseconds
pub const RETRANSMISSION_INTERVAL_NANOS: u128 = 200_000_000;

/// How long to wait before saying the connection is dead, in nanoseconds
pub const CONNECTION_TIMEOUT_INTERVAL_NANOS: u128 = 2_000_000_000;

/// How many times a command is sent before we give up on an acknowledgement
pub const MAX_COMMAND_TRANSMISSIONS: u8 = 10;

/// The size of the buffer datagrams are received into; the largest packet that can be
/// received
pub const RECEIVE_BUFFER_SIZE: usize = 16000;

/// The current state of the network connection
#[derive(Debug, Clone, Copy, PartialEq, Eq, Structural)]
pub enum NetworkStatus {
    Establishing,
    Connected,
    Disconnected,
}

/// A command that was sent and not acknowledged yet: (sequence number, command), when it
/// was last transmitted, and how many times it was retransmitted.
pub type PendingCommand = ((i16, CommandPacketData), Instant, u8);

/// Debug data shared from the network thread
#[derive(Debug)]
pub struct SharedNetworkData {
    pub state: NetworkStatus,
    /// Packets that we sent but didn't receive a response to
    ///
    /// In format of (Packet, last transmission, number of times we transmitted it)
    pub unacknowledged_command_packets: Vec<PendingCommand>,
    /// The last time we received a packet
    pub last_received: Option<Instant>,
}

/// The pending commands that remain once those named `command` are acknowledged.
pub open spec fn spec_without_command(s: Seq<PendingCommand>, command: Seq<char>) -> Seq<
    PendingCommand,
>
    decreases s.len(),
{
    if s.len() == 0 {
        s
    } else {
        let rest = spec_without_command(s.drop_last(), command);
        if s.last().0.1@.command == command {
            rest
        } else {
            rest.push(s.last())
        }
    }
}

/// The sequence number after `seq`: sequence numbers wrap around.
pub open spec fn next_sequence_number(seq: i16) -> i16 {
    if seq == i16::MAX {
        i16::MIN
    } else {
        (seq + 1) as i16
    }
}

/// The sequence number after `seq`, wrapping around as an atomic `fetch_add` does.
pub fn next_sequence(seq: i16) -> (n: i16)
    ensures
        n == next_sequence_number(seq),
{
    if seq == i16::MAX {
        i16::MIN
    } else {
        seq + 1
    }
}

/// Prepares a packet for sending: every packet but a heartbeat gets `sequence` as its
/// sequence number, and then the next sequence number is due. Returns the packet and
/// the sequence number due afterwards.
pub fn prepare_outgoing(packet: Packet, sequence: i16) -> (r: (Packet, i16))
    ensures
        r.0.packet_type == packet.packet_type,
        r.0.data@ == packet.data@,
        packet.packet_type != PacketType::Heartbeat ==> r.0.sequence_number == Some(sequence)
            && r.1 == next_sequence_number(sequence),
        packet.packet_type == PacketType::Heartbeat ==> r.0.sequence_number
            == packet.sequence_number && r.1 == sequence,
{
    if packet.packet_type != PacketType::Heartbeat {
        (packet.with_sequence_number(sequence), next_sequence(sequence))
    } else {
        (packet, sequence)
    }
}

/// The packet a command is sent in, with the given sequence number.
pub open spec fn spec_command_packet(sequence: i16, command: CommandPacketData) -> PacketView {
    PacketView {
        packet_type: PacketType::Command,
        sequence_number: Some(sequence),
        data: spec_write_command_packet(command@),
    }
}

/// The packet a command is sent in, with the given sequence number.
pub fn command_packet(sequence: i16, command: &CommandPacketData) -> (p: Packet)
    ensures
        p@ == spec_command_packet(sequence, *command),
{
    Packet::from_packet_type_and_writable(PacketType::Command, command).with_sequence_number(
        sequence,
    )
}

/// Whether a pending command has been transmitted often enough to give up on it.
pub open spec fn given_up(e: PendingCommand) -> bool {
    e.2 >= MAX_COMMAND_TRANSMISSIONS
}

/// Whether a pending command is due to be transmitted again, `elapsed` nanoseconds after
/// its last transmission.
pub open spec fn retransmission_due(elapsed: u128) -> bool {
    elapsed >= RETRANSMISSION_INTERVAL_NANOS
}

/// The pending commands kept and the packets retransmitted after checking the first `n`
/// pending commands, `elapsed[i]` nanoseconds after the last transmission of the i-th:
/// a command sent ten times is dropped, one due is retransmitted with its own sequence
/// number (and marked sent at `now`, once more), and any other is kept as it is.
pub open spec fn spec_retransmit(
    es: Seq<PendingCommand>,
    elapsed: Seq<u128>,
    now: Instant,
    n: nat,
) -> (Seq<PendingCommand>, Seq<PacketView>)
    decreases n,
{
    if n == 0 {
        (Seq::empty(), Seq::empty())
    } else {
        let (kept, sent) = spec_retransmit(es, elapsed, now, (n - 1) as nat);
        let e = es[n - 1];
        if given_up(e) {
            (kept, sent)
        } else if retransmission_due(elapsed[n - 1]) {
            (
                kept.push((e.0, now, (e.2 + 1) as u8)),
                sent.push(spec_command_packet(e.0.0, e.0.1)),
            )
        } else {
            (kept.push(e), sent)
        }
    }
}

/// The views of some packets.
pub open spec fn packet_views(ps: Seq<Packet>) -> Seq<PacketView> {
    ps.map_values(|p: Packet| p@)
}

/// Checks each pending command once, given how long ago each was last transmitted.
/// Returns the pending commands kept and the packets to send again.
pub fn retransmission_step(
    entries: Vec<PendingCommand>,
    elapsed: &Vec<u128>,
    now: Instant,
) -> (r: (Vec<PendingCommand>, Vec<Packet>))
    requires
        elapsed@.len() == entries@.len(),
    ensures
        (r.0@, packet_views(r.1@)) == spec_retransmit(
            entries@,
            elapsed@,
            now,
            entries@.len(),
        ),
{
    let ghost all = entries@;
    let n = entries.len();
    let mut rest = entries;
    let mut kept: Vec<PendingCommand> = Vec::new();
    let mut sent: Vec<Packet> = Vec::new();
    let mut i: usize = 0;
    while rest.len() > 0
        invariant
            i + rest@.len() == all.len() == elapsed@.len() == n,
            rest@ == all.skip(i as int),
            (kept@, packet_views(sent@)) == spec_retransmit(all, elapsed@, now, i as nat),
        decreases rest@.len(),
    {
        let e = rest.remove(0);
        assert(e == all[i as int]);
        let ghost old_sent = sent@;
        if e.2 >= MAX_COMMAND_TRANSMISSIONS {
        } else if elapsed[i] >= RETRANSMISSION_INTERVAL_NANOS {
            let p = command_packet(e.0.0, &e.0.1);
            sent.push(p);
            assert(packet_views(sent@) =~= packet_views(old_sent).push(p@));
            let ((seq, command), _, times) = e;
            kept.push(((seq, command), now, times + 1));
        } else {
            kept.push(e);
        }
        assert(rest@ =~= all.skip(i + 1));
        i += 1;
    }
    (kept, sent)
}

impl SharedNetworkData {
    /// The shared data of a connection being established: nothing sent or received yet.
    pub fn new() -> (d: SharedNetworkData)
        ensures
            d.state == NetworkStatus::Establishing,
            d.unacknowledged_command_packets@.len() == 0,
            d.last_received is None,
    {
        SharedNetworkData {
            state: NetworkStatus::Establishing,
            unacknowledged_command_packets: Vec::new(),
            last_received: None,
        }
    }

    /// Records a command just sent with sequence number `sequence` at `now`, to be
    /// retransmitted until acknowledged.
    pub fn record_sent_command(&mut self, sequence: i16, command: CommandPacketData, now: Instant)
        ensures
            final(self).state == old(self).state,
            final(self).last_received == old(self).last_received,
            final(self).unacknowledged_command_packets@
                == old(self).unacknowledged_command_packets@.push(((sequence, command), now, 0u8)),
    {
        self.unacknowledged_command_packets.push(((sequence, command), now, 0));
    }

    /// Forgets every pending command with the acknowledged command's name.
    pub fn acknowledge_command(&mut self, command: &String)
        ensures
            final(self).state == old(self).state,
            final(self).last_received == old(self).last_received,
            final(self).unacknowledged_command_packets@ == spec_without_command(
                old(self).unacknowledged_command_packets@,
                command@,
            ),
    {
        let mut rest: Vec<PendingCommand> = Vec::new();
        core::mem::swap(&mut rest, &mut self.unacknowledged_command_packets);
        let ghost all = rest@;
        let n = rest.len();
        let mut i: usize = 0;
        while rest.len() > 0
            invariant
                i + rest@.len() == all.len() == n,
                rest@ == all.skip(i as int),
                self.state == old(self).state,
                self.last_received == old(self).last_received,
                self.unacknowledged_command_packets@ == spec_without_command(
                    all.take(i as int),
                    command@,
                ),
            decreases rest@.len(),
        {
            let e = rest.remove(0);
            assert(e == all[i as int]);
            assert(all.take(i + 1).drop_last() =~= all.take(i as int));
            if e.0.1.command != *command {
                self.unacknowledged_command_packets.push(e);
            }
            assert(rest@ =~= all.skip(i + 1));
            i += 1;
        }
        assert(all.take(i as int) =~= all);
    }

    /// Marks the connection disconnected when the last packet arrived at least the
    /// timeout ago, `elapsed` being how long ago that was (if any packet arrived).
    pub fn apply_timeout(&mut self, elapsed_since_last_received: Option<u128>)
        ensures
            final(self).last_received == old(self).last_received,
            final(self).unacknowledged_command_packets@
                == old(self).unacknowledged_command_packets@,
            final(self).state == (match elapsed_since_last_received {
                Some(e) => if e >= CONNECTION_TIMEOUT_INTERVAL_NANOS {
                    NetworkStatus::Disconnected
                } else {
                    old(self).state
                },
                None => old(self).state,
            }),
    {
        if let Some(e) = elapsed_since_last_received {
            if e >= CONNECTION_TIMEOUT_INTERVAL_NANOS {
                self.state = NetworkStatus::Disconnected;
            }
        }
    }

    /// Checks the network status against the clock: disconnected once no packet has
    /// arrived for the timeout.
    pub fn check_connection(&mut self)
        ensures
            final(self).last_received == old(self).last_received,
            final(self).unacknowledged_command_packets@
                == old(self).unacknowledged_command_packets@,
            old(self).last_received is None ==> final(self).state == old(self).state,
            final(self).state == old(self).state || final(self).state
                == NetworkStatus::Disconnected,
    {
        let elapsed = match &self.last_received {
            Some(t) => Some(elapsed_nanos(t)),
            None => None,
        };
        self.apply_timeout(elapsed);
    }

    /// Records that a packet arrived at `now`: the connection is up.
    pub fn record_received(&mut self, now: Instant)
        ensures
            final(self).last_received == Some(now),
            final(self).state == NetworkStatus::Connected,
            final(self).unacknowledged_command_packets@
                == old(self).unacknowledged_command_packets@,
    {
        self.last_received = Some(now);
        self.state = NetworkStatus::Connected;
    }

    /// The retransmission check of the network loop: nothing while disconnected;
    /// otherwise every pending command is checked against the clock as
    /// [retransmission_step] says. Returns the packets to send again.
    pub fn retransmit_due(&mut self) -> (sent: Vec<Packet>)
        ensures
            final(self).state == old(self).state,
            final(self).last_received == old(self).last_received,
            old(self).state == NetworkStatus::Disconnected ==> sent@.len() == 0
                && final(self).unacknowledged_command_packets@
                == old(self).unacknowledged_command_packets@,
            old(self).state != NetworkStatus::Disconnected ==> exists|
                elapsed: Seq<u128>,
                now: Instant,
            |
                elapsed.len() == old(self).unacknowledged_command_packets@.len() && (
                final(self).unacknowledged_command_packets@,
                packet_views(sent@),
            ) == spec_retransmit(
                old(self).unacknowledged_command_packets@,
                elapsed,
                now,
                old(self).unacknowledged_command_packets@.len(),
            ),
    {
        if self.state == NetworkStatus::Disconnected {
            return Vec::new();
        }
        let mut elapsed: Vec<u128> = Vec::new();
        let mut i: usize = 0;
        while i < self.unacknowledged_command_packets.len()
            invariant
                i <= self.unacknowledged_command_packets@.len(),
                elapsed@.len() == i,
            decreases self.unacknowledged_command_packets@.len() - i,
        {
            elapsed.push(elapsed_nanos(&self.unacknowledged_command_packets[i].1));
            i += 1;
        }
        let now = instant_now();
        let mut entries: Vec<PendingCommand> = Vec::new();
        core::mem::swap(&mut entries, &mut self.unacknowledged_command_packets);
        let (kept, sent) = retransmission_step(entries, &elapsed, now);
        self.unacknowledged_command_packets = kept;
        sent
    }
}

/// What a received datagram was found to be.
#[derive(Debug)]
pub enum ReceivedDatagram {
    /// Not readable as a packet
    Unreadable,
    /// A time packet, and its time data if readable
    Time(Option<TimePacketData>),
    /// A gamepad packet, which a robot should never send
    Gamepad,
    /// A heartbeat packet, and its heartbeat data if readable
    Heartbeat(Option<HeartbeatPacketData>),
    /// A command packet, and its command data if readable
    Command(Option<CommandPacketData>),
    /// A telemetry packet, and its telemetry data if readable
    Telemetry(Option<TelemetryPacket>),
}

/// Classifies a datagram: the packet frame is read first, and the payload it carries is
/// then decoded as the packet type says.
pub fn classify_datagram(bytes: Vec<u8>) -> (r: ReceivedDatagram)
    ensures
        ({
            let (p, rest) = <Packet as Readable>::spec_read(bytes@);
            match p {
                None => r is Unreadable,
                Some(p) => match p.packet_type {
                    PacketType::Time => (r matches ReceivedDatagram::Time(d) && (d is Some
                        <==> <TimePacketData as Readable>::spec_read(p.data).0 is Some) && (
                    d matches Some(d) ==> <TimePacketData as Readable>::spec_read(p.data).0
                        == Some(d@))),
                    PacketType::Gamepad => r is Gamepad,
                    PacketType::Heartbeat => (r matches ReceivedDatagram::Heartbeat(d) && d
                        == <HeartbeatPacketData as Readable>::spec_read(p.data).0),
                    PacketType::Command => (r matches ReceivedDatagram::Command(d) && (d is Some
                        <==> <CommandPacketData as Readable>::spec_read(p.data).0 is Some) && (
                    d matches Some(d) ==> <CommandPacketData as Readable>::spec_read(p.data).0
                        == Some(d@))),
                    PacketType::Telemetry => (r matches ReceivedDatagram::Telemetry(d) && (d is Some
                        <==> <TelemetryPacket as Readable>::spec_read(p.data).0 is Some) && (
                    d matches Some(d) ==> <TelemetryPacket as Readable>::spec_read(p.data).0
                        == Some(d@))),
                },
            }
        }),
{
    let mut buffer = bytes;
    let packet = match Packet::read_from(&mut buffer) {
        Some(p) => p,
        None => return ReceivedDatagram::Unreadable,
    };
    let mut data = packet.data;
    match packet.packet_type {
        PacketType::Time => ReceivedDatagram::Time(TimePacketData::read_from(&mut data)),
        PacketType::Gamepad => ReceivedDatagram::Gamepad,
        PacketType::Heartbeat => ReceivedDatagram::Heartbeat(
            HeartbeatPacketData::read_from(&mut data),
        ),
        PacketType::Command => ReceivedDatagram::Command(CommandPacketData::read_from(&mut data)),
        PacketType::Telemetry => ReceivedDatagram::Telemetry(TelemetryPacket::read_from(&mut data)),
    }
}

/// The heartbeat the driver station sends every second.
pub fn heartbeat_request_packet() -> (p: Packet)
    ensures
        p.packet_type == PacketType::Heartbeat,
        p.sequence_number is None,
        p.data@ == <HeartbeatPacketData as Writeable>::spec_write(
            HeartbeatPacketData {
                sequence_number: 10003,
                peer_type: 1,
                sdk_build_month: 1,
                sdk_build_year: 2025,
                sdk_major_version: 10,
                sdk_minor_version: 2,
            },
        ),
{
    Packet::from_packet_type_and_writable(
        PacketType::Heartbeat,
        &HeartbeatPacketData {
            sequence_number: 10003,
            peer_type: 1,
            sdk_build_month: 1,
            sdk_build_year: 2025,
            sdk_major_version: 10,
            sdk_minor_version: 2,
        },
    )
}

/// The time request the driver station sends every 100 milliseconds: its uptime in
/// nanoseconds, the robot state 0, the Unix time in milliseconds and its timezone.
pub fn time_request_data(timestamp: u64, unix_millis: u64) -> (d: TimePacketData)
    ensures
        d.timestamp == timestamp,
        d.robot_op_mode_state == state_of_i8(0),
        d.unix_millis_sent == unix_millis,
        d.unix_millis_received_1 == 0,
        d.unix_millis_received_2 == 0,
        d.timezone@ == "Europe/Ljubljana"@,
{
    TimePacketData {
        timestamp,
        robot_op_mode_state: RobotOpmodeState::from(0i8),
        unix_millis_sent: unix_millis,
        unix_millis_received_1: 0,
        unix_millis_received_2: 0,
        timezone: String::from_str("Europe/Ljubljana"),
    }
}

/// The gamepad packet to send for a user, if their state changed since the last one sent.
pub fn gamepad_update_packet(current: &GamepadPacketData, last_sent: &GamepadPacketData) -> (p:
    Option<Packet>)
    ensures
        *current == *last_sent ==> p is None,
        *current != *last_sent ==> (p matches Some(p) && p.packet_type == PacketType::Gamepad
            && p.sequence_number is None && p.data@ == <GamepadPacketData as Writeable>::spec_write(
            *current,
        )),
{
    if *current != *last_sent {
        Some(Packet::from_packet_type_and_writable(PacketType::Gamepad, current))
    } else {
        None
    }
}

/// A command to send, not an acknowledgement.
pub fn new_command(command: &str, data: String, timestamp: u64) -> (c: CommandPacketData)
    ensures
        c@ == (CommandPacketDataView {
            timestamp,
            acknowledged: false,
            command: command@,
            data: data@,
        }),
{
    CommandPacketData { acknowledged: false, command: String::from_str(command), data, timestamp }
}

/// The command that starts the named opmode.
pub fn run_opmode_command(opmode: String, timestamp: u64) -> (c: CommandPacketData)
    ensures
        c@ == (CommandPacketDataView {
            timestamp,
            acknowledged: false,
            command: RUN_OPMODE@,
            data: opmode@,
        }),
{
    new_command(RUN_OPMODE, opmode, timestamp)
}

/// The command that initializes the named opmode.
pub fn init_opmode_command(opmode: String, timestamp: u64) -> (c: CommandPacketData)
    ensures
        c@ == (CommandPacketDataView {
            timestamp,
            acknowledged: false,
            command: INIT_OPMODE@,
            data: opmode@,
        }),
{
    new_command(INIT_OPMODE, opmode, timestamp)
}

/// The command that stops the running opmode: initializing the stop opmode.
pub fn stop_opmode_command(timestamp: u64) -> (c: CommandPacketData)
    ensures
        c@ == (CommandPacketDataView {
            timestamp,
            acknowledged: false,
            command: INIT_OPMODE@,
            data: OPMODE_STOP@,
        }),
{
    new_command(INIT_OPMODE, String::from_str(OPMODE_STOP), timestamp)
}

/// What a command packet received from the robot asks of the driver station.
#[derive(Debug, Clone, PartialEq, Eq)]
pub enum CommandEffect {
    /// The robot acknowledged one of our commands: forget the pending commands of this name
    Acknowledgement,
    /// The active opmode is in this state now
    SetOpModeState(RobotOpmodeState),
    /// The opmode state in the data is not a number
    InvalidOpModeState,
    /// The data is the JSON list of the robot's opmodes
    OpModeList,
    /// The data is the JSON description of the active configuration
    ActiveConfiguration,
    /// The named opmode is initialized
    OpModeInitialized(String),
    /// The named opmode is running
    OpModeRunning(String),
    /// A command we do not handle
    Unhandled,
}

/// The mathematical value of a [CommandEffect].
pub enum CommandEffectView {
    Acknowledgement,
    SetOpModeState(RobotOpmodeState),
    InvalidOpModeState,
    OpModeList,
    ActiveConfiguration,
    OpModeInitialized(Seq<char>),
    OpModeRunning(Seq<char>),
    Unhandled,
}

impl View for CommandEffect {
    type V = CommandEffectView;

    open spec fn view(&self) -> CommandEffectView {
        match self {
            CommandEffect::Acknowledgement => CommandEffectView::Acknowledgement,
            CommandEffect::SetOpModeState(s) => CommandEffectView::SetOpModeState(*s),
            CommandEffect::InvalidOpModeState => CommandEffectView::InvalidOpModeState,
            CommandEffect::OpModeList => CommandEffectView::OpModeList,
            CommandEffect::ActiveConfiguration => CommandEffectView::ActiveConfiguration,
            CommandEffect::OpModeInitialized(n) => CommandEffectView::OpModeInitialized(n@),
            CommandEffect::OpModeRunning(n) => CommandEffectView::OpModeRunning(n@),
            CommandEffect::Unhandled => CommandEffectView::Unhandled,
        }
    }
}

/// What a command packet received from the robot asks of the driver station: an
/// acknowledgement closes our pending commands of that name; otherwise the command name
/// decides, the data giving the opmode state (as a decimal `i8`) or the opmode's name.
pub open spec fn spec_command_effect(packet: CommandPacketDataView) -> CommandEffectView {
    if packet.acknowledged {
        CommandEffectView::Acknowledgement
    } else if packet.command == NOTIFY_OP_MODE_STATE@ {
        match spec_parse_i8(packet.data) {
            Some(v) => CommandEffectView::SetOpModeState(state_of_i8(v)),
            None => CommandEffectView::InvalidOpModeState,
        }
    } else if packet.command == NOTIFY_OP_MODES@ {
        CommandEffectView::OpModeList
    } else if packet.command == NOTIFY_ACTIVE_CONFIGURATION@ {
        CommandEffectView::ActiveConfiguration
    } else if packet.command == NOTIFY_INIT_OPMODE@ {
        CommandEffectView::OpModeInitialized(packet.data)
    } else if packet.command == NOTIFY_RUN_OPMODE@ {
        CommandEffectView::OpModeRunning(packet.data)
    } else {
        CommandEffectView::Unhandled
    }
}

/// Decides what a received command packet asks of the driver station.
pub fn command_packet_effect(packet: &CommandPacketData) -> (e: CommandEffect)
    ensures
        e@ == spec_command_effect(packet@),
{
    if packet.acknowledged {
        return CommandEffect::Acknowledgement;
    }
    let command = chars_of(packet.command.as_str());
    if chars_eq_str(&command, NOTIFY_OP_MODE_STATE) {
        match parse_i8(&chars_of(packet.data.as_str())) {
            Some(v) => CommandEffect::SetOpModeState(RobotOpmodeState::from(v)),
            None => CommandEffect::InvalidOpModeState,
        }
    } else if chars_eq_str(&command, NOTIFY_OP_MODES) {
        CommandEffect::OpModeList
    } else if chars_eq_str(&command, NOTIFY_ACTIVE_CONFIGURATION) {
        CommandEffect::ActiveConfiguration
    } else if chars_eq_str(&command, NOTIFY_INIT_OPMODE) {
        CommandEffect::OpModeInitialized(packet.data.clone())
    } else if chars_eq_str(&command, NOTIFY_RUN_OPMODE) {
        CommandEffect::OpModeRunning(packet.data.clone())
    } else {
        CommandEffect::Unhandled
    }
}

/// The acknowledgement the driver station sends back for a command it received.
pub fn acknowledgement_for(packet: &CommandPacketData, timestamp: u64) -> (a: CommandPacketData)
    ensures
        a@ == (CommandPacketDataView {
            timestamp,
            acknowledged: true,
            command: packet.command@,
            data: Seq::empty(),
        }),
{
    CommandPacketData {
        command: packet.command.clone(),
        acknowledged: true,
        data: String::new(),
        timestamp,
    }
}

/// What a telemetry packet changes on the driver station.
#[derive(Debug, Clone, PartialEq, Eq)]
pub struct TelemetryPlan {
    /// Values of battery level entries, in order, each to be read as the battery voltage
    pub battery_voltages: Vec<String>,
    /// The new system warning, if it changes (`Some(None)` clears it)
    pub warning_message: Option<Option<String>>,
    /// The new system error, if it changes (`Some(None)` clears it)
    pub error_message: Option<Option<String>>,
    /// The new telemetry display lines, unless the packet is ignored
    pub telemetry_list: Option<Vec<String>>,
}

/// The mathematical value of a [TelemetryPlan].
pub struct TelemetryPlanView {
    pub battery_voltages: Seq<Seq<char>>,
    pub warning_message: Option<Option<Seq<char>>>,
    pub error_message: Option<Option<Seq<char>>>,
    pub telemetry_list: Option<Seq<Seq<char>>>,
}

/// The view of an optional string.
pub open spec fn opt_view(o: Option<String>) -> Option<Seq<char>> {
    match o {
        Some(s) => Some(s@),
        None => None,
    }
}

/// The view of an optional list of strings.
pub open spec fn opt_list_view(o: Option<Vec<String>>) -> Option<Seq<Seq<char>>> {
    match o {
        Some(v) => Some(v@.map_values(|s: String| s@)),
        None => None,
    }
}

impl View for TelemetryPlan {
    type V = TelemetryPlanView;

    open spec fn view(&self) -> TelemetryPlanView {
        TelemetryPlanView {
            battery_voltages: self.battery_voltages@.map_values(|s: String| s@),
            warning_message: match self.warning_message {
                Some(w) => Some(opt_view(w)),
                None => None,
            },
            error_message: match self.error_message {
                Some(e) => Some(opt_view(e)),
                None => None,
            },
            telemetry_list: opt_list_view(self.telemetry_list),
        }
    }
}

/// Whether a telemetry key marks a user telemetry line: it starts with the null character.
pub open spec fn is_user_line_key(key: Seq<char>) -> bool {
    key.len() > 0 && key[0] == '\0'
}

/// The values of the battery level entries among `es`, in order.
pub open spec fn battery_values(es: Seq<TelemetryEntryView>) -> Seq<Seq<char>>
    decreases es.len(),
{
    if es.len() == 0 {
        Seq::empty()
    } else if es.last().key == ROBOT_BATTERY_LEVEL_KEY@ {
        battery_values(es.drop_last()).push(es.last().value)
    } else {
        battery_values(es.drop_last())
    }
}

/// The values of the user telemetry lines among `es`, in order.
pub open spec fn user_lines(es: Seq<TelemetryEntryView>) -> Seq<Seq<char>>
    decreases es.len(),
{
    if es.len() == 0 {
        Seq::empty()
    } else if es.last().key != ROBOT_BATTERY_LEVEL_KEY@ && is_user_line_key(es.last().key) {
        user_lines(es.drop_last()).push(es.last().value)
    } else {
        user_lines(es.drop_last())
    }
}

/// Whether a tag is one of the status tags, whose packets carry their status entry first.
pub open spec fn is_status_tag(tag: Seq<char>) -> bool {
    tag == ROBOT_BATTERY_LEVEL_KEY@ || tag == ROBOT_CONTROLLER_BATTERY_STATUS_KEY@ || tag
        == SYSTEM_WARNING_KEY@ || tag == SYSTEM_ERROR_KEY@ || tag == SYSTEM_NONE_KEY@
}

/// Whether a packet tag is one of the status tags: a packet with such a tag must carry
/// its status entry, which [`telemetry_plan`] reads first.
pub fn is_status_tag_text(tag: &str) -> (r: bool)
    ensures
        r == is_status_tag(tag@),
{
    let t = chars_of(tag);
    chars_eq_str(&t, ROBOT_BATTERY_LEVEL_KEY) || chars_eq_str(&t, ROBOT_CONTROLLER_BATTERY_STATUS_KEY)
        || chars_eq_str(&t, SYSTEM_WARNING_KEY) || chars_eq_str(&t, SYSTEM_ERROR_KEY)
        || chars_eq_str(&t, SYSTEM_NONE_KEY)
}

/// What a telemetry packet changes. A tagged packet is a status packet, whose first entry
/// must carry the tag as its key: a battery level is read from it; a warning or an error
/// is set from its value; `$System$None$` clears both; an unknown tag or a first entry
/// with another key leaves everything unchanged. Then (unless the packet was ignored) every
/// battery level entry is read as the voltage and the values of the entries whose keys
/// start with the null character become the telemetry lines.
pub open spec fn spec_telemetry_plan(p: TelemetryPacketView) -> TelemetryPlanView {
    let es = p.string_entries;
    let ignored = TelemetryPlanView {
        battery_voltages: Seq::empty(),
        warning_message: None,
        error_message: None,
        telemetry_list: None,
    };
    let lines = TelemetryPlanView {
        battery_voltages: battery_values(es),
        warning_message: None,
        error_message: None,
        telemetry_list: Some(user_lines(es)),
    };
    if p.tag.len() == 0 {
        lines
    } else if p.tag == ROBOT_BATTERY_LEVEL_KEY@ {
        if es[0].key == ROBOT_BATTERY_LEVEL_KEY@ {
            TelemetryPlanView {
                battery_voltages: seq![es[0].value] + battery_values(es),
                ..lines
            }
        } else {
            lines
        }
    } else if !is_status_tag(p.tag) || es[0].key != p.tag {
        ignored
    } else if p.tag == SYSTEM_WARNING_KEY@ {
        TelemetryPlanView { warning_message: Some(Some(es[0].value)), ..lines }
    } else if p.tag == SYSTEM_ERROR_KEY@ {
        TelemetryPlanView { error_message: Some(Some(es[0].value)), ..lines }
    } else if p.tag == SYSTEM_NONE_KEY@ {
        TelemetryPlanView { warning_message: Some(None), error_message: Some(None), ..lines }
    } else {
        lines
    }
}

/// Decides what a telemetry packet changes.
pub fn telemetry_plan(packet: &TelemetryPacket) -> (plan: TelemetryPlan)
    requires
        is_status_tag(packet.tag@) ==> packet.string_entries@.len() > 0,
    ensures
        plan@ == spec_telemetry_plan(packet@),
{
    let ghost es = packet@.string_entries;
    let tag = chars_of(packet.tag.as_str());
    let mut battery_voltages: Vec<String> = Vec::new();
    let mut warning_message: Option<Option<String>> = None;
    let mut error_message: Option<Option<String>> = None;
    if tag.len() > 0 {
        let is_battery = chars_eq_str(&tag, ROBOT_BATTERY_LEVEL_KEY);
        let is_status = chars_eq_str(&tag, ROBOT_CONTROLLER_BATTERY_STATUS_KEY);
        let is_warning = chars_eq_str(&tag, SYSTEM_WARNING_KEY);
        let is_error = chars_eq_str(&tag, SYSTEM_ERROR_KEY);
        let is_none = chars_eq_str(&tag, SYSTEM_NONE_KEY);
        if !(is_battery || is_status || is_warning || is_error || is_none) {
            assert(battery_voltages@.map_values(|s: String| s@) =~= Seq::<Seq<char>>::empty());
            return TelemetryPlan {
                battery_voltages,
                warning_message,
                error_message,
                telemetry_list: None,
            };
        }
        let first = &packet.string_entries[0];
        assert(first@ == es[0]);
        let first_key = chars_of(first.key.as_str());
        if is_battery {
            if chars_eq_str(&first_key, ROBOT_BATTERY_LEVEL_KEY) {
                battery_voltages.push(first.value.clone());
                assert(battery_voltages@.map_values(|s: String| s@) =~= seq![es[0].value]);
            }
        } else {
            if !chars_eq_str(&first_key, packet.tag.as_str()) {
                assert(battery_voltages@.map_values(|s: String| s@) =~= Seq::<Seq<char>>::empty());
                return TelemetryPlan {
                    battery_voltages,
                    warning_message,
                    error_message,
                    telemetry_list: None,
                };
            }
            if is_warning {
                warning_message = Some(Some(first.value.clone()));
            } else if is_error {
                error_message = Some(Some(first.value.clone()));
            } else if is_none {
                warning_message = Some(None);
                error_message = Some(None);
            }
        }
    }
    let ghost prefix = battery_voltages@.map_values(|s: String| s@);
    assert(prefix =~= (if tag@.len() > 0 && tag@ == ROBOT_BATTERY_LEVEL_KEY@ && es[0].key
        == ROBOT_BATTERY_LEVEL_KEY@ {
        seq![es[0].value]
    } else {
        Seq::empty()
    }));
    let mut lines: Vec<String> = Vec::new();
    assert(lines@.map_values(|s: String| s@) =~= Seq::<Seq<char>>::empty());
    assert(es.take(0) =~= Seq::<TelemetryEntryView>::empty());
    let mut i: usize = 0;
    while i < packet.string_entries.len()
        invariant
            i <= es.len(),
            es == packet@.string_entries,
            battery_voltages@.map_values(|s: String| s@) == prefix + battery_values(
                es.take(i as int),
            ),
            lines@.map_values(|s: String| s@) == user_lines(es.take(i as int)),
        decreases es.len() - i,
    {
        let entry = &packet.string_entries[i];
        assert(entry@ == es[i as int]);
        assert(es.take(i + 1).drop_last() =~= es.take(i as int));
        let key = chars_of(entry.key.as_str());
        let ghost old_b = battery_voltages@;
        let ghost old_l = lines@;
        if chars_eq_str(&key, ROBOT_BATTERY_LEVEL_KEY) {
            battery_voltages.push(entry.value.clone());
            assert(battery_voltages@.map_values(|s: String| s@) =~= old_b.map_values(
                |s: String| s@,
            ).push(entry.value@));
        } else if key.len() > 0 && key[0] == '\0' {
            lines.push(entry.value.clone());
            assert(lines@.map_values(|s: String| s@) =~= old_l.map_values(|s: String| s@).push(
                entry.value@,
            ));
        }
        i += 1;
    }
    assert(es.take(i as int) =~= es);
    TelemetryPlan { battery_voltages, warning_message, error_message, telemetry_list: Some(lines) }
}

/// The telemetry lines of a packet are the values of exactly those entries whose key
/// starts with the null character, in the order they came; the battery voltages are the
/// values of exactly the entries keyed `$Robot$Battery$Level$`, in order.
pub proof fn lemma_telemetry_lines_and_voltages(es: Seq<TelemetryEntryView>)
    ensures
        user_lines(es) == es.filter(
            |e: TelemetryEntryView| e.key.len() > 0 && e.key[0] == '\0',
        ).map_values(|e: TelemetryEntryView| e.value),
        battery_values(es) == es.filter(
            |e: TelemetryEntryView| e.key == "$Robot$Battery$Level$"@,
        ).map_values(|e: TelemetryEntryView| e.value),
    decreases es.len(),
{
    reveal(Seq::filter);
    reveal_strlit("$Robot$Battery$Level$");
    let f = |e: TelemetryEntryView| e.key.len() > 0 && e.key[0] == '\0';
    let g = |e: TelemetryEntryView| e.key == "$Robot$Battery$Level$"@;
    let v = |e: TelemetryEntryView| e.value;
    if es.len() > 0 {
        lemma_telemetry_lines_and_voltages(es.drop_last());
        let d = es.drop_last();
        assert(es.filter(f) == if f(es.last()) {
            d.filter(f).push(es.last())
        } else {
            d.filter(f)
        });
        assert(es.filter(g) == if g(es.last()) {
            d.filter(g).push(es.last())
        } else {
            d.filter(g)
        });
        assert(d.filter(f).push(es.last()).map_values(v) =~= d.filter(f).map_values(v).push(
            es.last().value,
        ));
        assert(d.filter(g).push(es.last()).map_values(v) =~= d.filter(g).map_values(v).push(
            es.last().value,
        ));
        if es.last().key == ROBOT_BATTERY_LEVEL_KEY@ {
            assert(es.last().key[0] == '$');
        }
    }
}

/// Acknowledging a command forgets exactly the pending commands of that name: the others
/// stay, in the order they were sent, and none of that name remains.
pub proof fn lemma_acknowledge_forgets(s: Seq<PendingCommand>, command: Seq<char>)
    ensures
        spec_without_command(s, command) == s.filter(
            |e: PendingCommand| e.0.1@.command != command,
        ),
        forall|i: int|
            0 <= i < spec_without_command(s, command).len() ==> (#[trigger] spec_without_command(
                s,
                command,
            )[i]).0.1@.command != command,
    decreases s.len(),
{
    reveal(Seq::filter);
    let f = |e: PendingCommand| e.0.1@.command != command;
    if s.len() > 0 {
        lemma_acknowledge_forgets(s.drop_last(), command);
        assert(spec_without_command(s, command) =~= s.filter(f));
    }
}

/// A retransmission check never lets a command be sent more than the allowed number of
/// times, keeps no more commands than were pending, and sends at most one packet for each
/// pending command.
pub proof fn lemma_retransmit_bounds(
    es: Seq<PendingCommand>,
    elapsed: Seq<u128>,
    now: Instant,
    n: nat,
)
    requires
        n <= es.len(),
        n <= elapsed.len(),
        forall|i: int| 0 <= i < es.len() ==> (#[trigger] es[i]).2 <= MAX_COMMAND_TRANSMISSIONS,
    ensures
        spec_retransmit(es, elapsed, now, n).0.len() <= n,
        spec_retransmit(es, elapsed, now, n).1.len() <= spec_retransmit(es, elapsed, now, n).0.len(),
        forall|i: int|
            0 <= i < spec_retransmit(es, elapsed, now, n).0.len() ==> (#[trigger] spec_retransmit(
                es,
                elapsed,
                now,
                n,
            ).0[i]).2 <= MAX_COMMAND_TRANSMISSIONS,
    decreases n,
{
    if n > 0 {
        lemma_retransmit_bounds(es, elapsed, now, (n - 1) as nat);
        let e = es[n - 1];
        assert(e.2 <= MAX_COMMAND_TRANSMISSIONS);
    }
}

/// What a retransmission check keeps of one pending command, last transmitted `elapsed`
/// nanoseconds ago: nothing once it was sent ten times, the command marked sent at `now`
/// once more when it is due, else the command as it is.
pub open spec fn entry_kept(e: PendingCommand, elapsed: u128, now: Instant) -> Seq<PendingCommand> {
    if given_up(e) {
        Seq::empty()
    } else if retransmission_due(elapsed) {
        seq![(e.0, now, (e.2 + 1) as u8)]
    } else {
        seq![e]
    }
}

/// What a retransmission check sends for one pending command: its packet, with its own
/// sequence number, when it is due and was not sent ten times yet; else nothing.
pub open spec fn entry_sent(e: PendingCommand, elapsed: u128) -> Seq<PacketView> {
    if !given_up(e) && retransmission_due(elapsed) {
        seq![spec_command_packet(e.0.0, e.0.1)]
    } else {
        Seq::empty()
    }
}

proof fn lemma_retransmit_prefix(es: Seq<PendingCommand>, elapsed: Seq<u128>, now: Instant, n: nat)
    requires
        n <= es.len(),
        n <= elapsed.len(),
    ensures
        spec_retransmit(es, elapsed, now, n) == (
            Seq::new(n, |i: int| entry_kept(es[i], elapsed[i], now)).flatten_alt(),
            Seq::new(n, |i: int| entry_sent(es[i], elapsed[i])).flatten_alt(),
        ),
    decreases n,
{
    let ks = Seq::new(n, |i: int| entry_kept(es[i], elapsed[i], now));
    let ss = Seq::new(n, |i: int| entry_sent(es[i], elapsed[i]));
    if n > 0 {
        lemma_retransmit_prefix(es, elapsed, now, (n - 1) as nat);
        assert(ks.drop_last() =~= Seq::new((n - 1) as nat, |i: int| entry_kept(es[i], elapsed[i], now)));
        assert(ss.drop_last() =~= Seq::new((n - 1) as nat, |i: int| entry_sent(es[i], elapsed[i])));
        let (kept, sent) = spec_retransmit(es, elapsed, now, (n - 1) as nat);
        assert(kept.add(ks.last()) =~= spec_retransmit(es, elapsed, now, n).0);
        assert(sent.add(ss.last()) =~= spec_retransmit(es, elapsed, now, n).1);
    }
}

/// A retransmission check treats each pending command on its own, in the order they were
/// sent: one sent ten times is dropped without being sent again; one due (at least the
/// retransmission interval after its last transmission) is sent again once, with its own
/// sequence number, and kept as sent at `now` once more; any other is kept as it is.
pub proof fn lemma_retransmit_entrywise(es: Seq<PendingCommand>, elapsed: Seq<u128>, now: Instant)
    requires
        elapsed.len() == es.len(),
    ensures
        spec_retransmit(es, elapsed, now, es.len()) == (
            Seq::new(es.len(), |i: int| entry_kept(es[i], elapsed[i], now)).flatten(),
            Seq::new(es.len(), |i: int| entry_sent(es[i], elapsed[i])).flatten(),
        ),
{
    lemma_retransmit_prefix(es, elapsed, now, es.len());
    Seq::new(es.len(), |i: int| entry_kept(es[i], elapsed[i], now)).lemma_flatten_and_flatten_alt_are_equivalent();
    Seq::new(es.len(), |i: int| entry_sent(es[i], elapsed[i])).lemma_flatten_and_flatten_alt_are_equivalent();
}

/// A pending command sent fewer than ten times is sent again, with its own sequence number,
/// once 200 ms or more have passed since its last transmission, and is then marked sent
/// at the time of the check with one transmission more; before that it is kept as it is
/// and nothing is sent; one sent ten times is dropped without being sent again.
pub proof fn lemma_retransmit_one(e: PendingCommand, elapsed: u128, now: Instant)
    ensures
        e.2 < 10 && elapsed >= 200_000_000 ==> spec_retransmit(seq![e], seq![elapsed], now, 1)
            == (seq![(e.0, now, (e.2 + 1) as u8)], seq![
            (PacketView {
                packet_type: PacketType::Command,
                sequence_number: Some(e.0.0),
                data: spec_write_command_packet(e.0.1@),
            }),
        ]),
        e.2 < 10 && elapsed < 200_000_000 ==> spec_retransmit(seq![e], seq![elapsed], now, 1)
            == (seq![e], Seq::<PacketView>::empty()),
        e.2 >= 10 ==> spec_retransmit(seq![e], seq![elapsed], now, 1) == (
            Seq::<PendingCommand>::empty(),
            Seq::<PacketView>::empty(),
        ),
{
    assert(spec_retransmit(seq![e], seq![elapsed], now, 0) == (
        Seq::<PendingCommand>::empty(),
        Seq::<PacketView>::empty(),
    ));
    assert(Seq::<PendingCommand>::empty().push(e) =~= seq![e]);
    assert(Seq::<PendingCommand>::empty().push((e.0, now, (e.2 + 1) as u8)) =~= seq![
        (e.0, now, (e.2 + 1) as u8),
    ]);
}

} // verus!
