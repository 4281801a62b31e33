//! Command packets (requests, notifications and their acknowledgements) and the data that
//! some commands carry.

use vstd::prelude::*;
use vstd::utf8::encode_utf8;

use super::traits::{
    be_u16, be_u64, lemma_bool_round_trip, lemma_string_round_trip, lemma_u16_round_trip, lemma_u64_round_trip,
    read_string_from, spec_read_string, Readable, Writeable,
};

verus! {

/// Data structure of a Robot Command Packet
#[derive(Debug, Clone, PartialEq, Eq)]
pub struct CommandPacketData {
    /// Apparently in nanoseconds (System.nanoTime())
    ///
    /// eg. 9336809990439
    pub timestamp: u64,
    /// If set to true, we are just acknowledging a command sent by the other party, not sending
    /// one ourselves. In such a case, we don't send any command data.
    pub acknowledged: bool,
    pub command: String,
    pub data: String,
}

/// The mathematical value of a [CommandPacketData].
pub struct CommandPacketDataView {
    pub timestamp: u64,
    pub acknowledged: bool,
    pub command: Seq<char>,
    pub data: Seq<char>,
}

impl View for CommandPacketData {
    type V = CommandPacketDataView;

    open spec fn view(&self) -> CommandPacketDataView {
        CommandPacketDataView {
            timestamp: self.timestamp,
            acknowledged: self.acknowledged,
            command: self.command@,
            data: self.data@,
        }
    }
}

/// The bytes of a string prefixed by its byte length (truncated to 16 bits).
#[verifier::opaque]
pub open spec fn spec_write_u16_prefixed(s: Seq<char>) -> Seq<u8> {
    <u16 as Writeable>::spec_write(encode_utf8(s).len() as u16) + encode_utf8(s)
}

/// The bytes a command packet with this view is written as: timestamp, acknowledgement
/// flag and command, then (unless it is an acknowledgement) the data.
pub open spec fn spec_write_command_packet(v: CommandPacketDataView) -> Seq<u8> {
    <u64 as Writeable>::spec_write(v.timestamp) + <bool as Writeable>::spec_write(v.acknowledged)
        + spec_write_u16_prefixed(v.command) + if v.acknowledged {
        Seq::empty()
    } else {
        spec_write_u16_prefixed(v.data)
    }
}

/// What reading a string prefixed by a 16-bit byte length yields and what it leaves.
#[verifier::opaque]
pub open spec fn spec_read_u16_prefixed(b: Seq<u8>) -> (Option<Seq<char>>, Seq<u8>) {
    let (len, r0) = <u16 as Readable>::spec_read(b);
    if len is None {
        (None, r0)
    } else {
        spec_read_string(r0, len->0 as nat)
    }
}

/// What reading a command packet from `b` yields and what it leaves. The data of an
/// acknowledgement is empty.
pub open spec fn spec_read_command_packet(b: Seq<u8>) -> (Option<CommandPacketDataView>, Seq<u8>) {
    let (timestamp, r0) = <u64 as Readable>::spec_read(b);
    if timestamp is None {
        (None, r0)
    } else {
        let (acknowledged, r1) = <bool as Readable>::spec_read(r0);
        if acknowledged is None {
            (None, r1)
        } else {
            let (command, r2) = spec_read_u16_prefixed(r1);
            if command is None {
                (None, r2)
            } else if acknowledged->0 {
                (
                    Some(
                        CommandPacketDataView {
                            timestamp: timestamp->0,
                            acknowledged: true,
                            command: command->0,
                            data: Seq::empty(),
                        },
                    ),
                    r2,
                )
            } else {
                let (data, r3) = spec_read_u16_prefixed(r2);
                if data is None {
                    (None, r3)
                } else {
                    (
                        Some(
                            CommandPacketDataView {
                                timestamp: timestamp->0,
                                acknowledged: false,
                                command: command->0,
                                data: data->0,
                            },
                        ),
                        r3,
                    )
                }
            }
        }
    }
}

/// Writes the byte length of `s` (truncated to 16 bits) and then `s`.
pub fn write_u16_prefixed(s: &String, buffer: &mut Vec<u8>)
    ensures
        final(buffer)@ == old(buffer)@ + spec_write_u16_prefixed(s@),
{
    reveal(spec_write_u16_prefixed);
    let ghost start = buffer@;
    let len = s.as_str().as_bytes().len();
    (#[verifier::truncate] (len as u16)).write_to(buffer);
    s.write_to(buffer);
    assert(buffer@ =~= start + spec_write_u16_prefixed(s@));
}

/// Reads a string prefixed by its 16-bit byte length.
pub fn read_u16_prefixed(buffer: &mut Vec<u8>) -> (res: Option<String>)
    ensures
        final(buffer)@ == spec_read_u16_prefixed(old(buffer)@).1,
        res is Some <==> spec_read_u16_prefixed(old(buffer)@).0 is Some,
        res matches Some(s) ==> spec_read_u16_prefixed(old(buffer)@).0 == Some(s@),
{
    reveal(spec_read_u16_prefixed);
    let len = match u16::read_from(buffer) {
        Some(l) => l,
        None => return None,
    };
    read_string_from(buffer, len as usize)
}

impl Writeable for CommandPacketData {
    open spec fn spec_write(v: CommandPacketDataView) -> Seq<u8> {
        spec_write_command_packet(v)
    }

    fn write_to(&self, buffer: &mut Vec<u8>) {
        let ghost start = buffer@;
        self.timestamp.write_to(buffer);
        self.acknowledged.write_to(buffer);
        write_u16_prefixed(&self.command, buffer);
        if !self.acknowledged {
            write_u16_prefixed(&self.data, buffer);
        }
        assert(buffer@ =~= start + spec_write_command_packet(self@));
    }
}

impl Readable for CommandPacketData {
    open spec fn spec_read(buffer: Seq<u8>) -> (Option<CommandPacketDataView>, Seq<u8>) {
        spec_read_command_packet(buffer)
    }


    fn read_from(buffer: &mut Vec<u8>) -> (res: Option<CommandPacketData>) {
        let ghost b0 = buffer@;
        let timestamp = match u64::read_from(buffer) {
            Some(x) => x,
            None => return None,
        };
        let ghost b1 = buffer@;
        assert(<u64 as Readable>::spec_read(b0) == (Some(timestamp), b1));
        let acknowledged = match bool::read_from(buffer) {
            Some(x) => x,
            None => return None,
        };
        let ghost b2 = buffer@;
        assert(<bool as Readable>::spec_read(b1) == (Some(acknowledged), b2));
        let command = match read_u16_prefixed(buffer) {
            Some(x) => x,
            None => return None,
        };
        let ghost b3 = buffer@;
        assert(spec_read_u16_prefixed(b2) == (Some(command@), b3));
        let mut data = String::new();
        if !acknowledged {
            data = match read_u16_prefixed(buffer) {
                Some(x) => x,
                None => return None,
            };
        }
        Some(CommandPacketData { timestamp, acknowledged, command, data })
    }
}

/// Whether a command packet can be written and read back unchanged: its strings fit the
/// 16-bit length prefixes, and an acknowledgement carries no data.
pub open spec fn command_packet_well_formed(v: CommandPacketDataView) -> bool {
    &&& encode_utf8(v.command).len() <= 0xffff
    &&& encode_utf8(v.data).len() <= 0xffff
    &&& v.acknowledged ==> v.data.len() == 0
}

/// Reading back a length-prefixed string gives it back and leaves what followed.
pub proof fn lemma_u16_prefixed_round_trip(s: Seq<char>, rest: Seq<u8>)
    requires
        encode_utf8(s).len() <= 0xffff,
    ensures
        spec_read_u16_prefixed(spec_write_u16_prefixed(s) + rest) == (Some(s), rest),
{
    reveal(spec_read_u16_prefixed);
    reveal(spec_write_u16_prefixed);
    let n = encode_utf8(s).len() as u16;
    assert(spec_write_u16_prefixed(s) + rest =~= <u16 as Writeable>::spec_write(n) + (
    encode_utf8(s) + rest));
    lemma_u16_round_trip(n, encode_utf8(s) + rest);
    lemma_string_round_trip(s, rest);
}

/// Reading back a written well-formed command packet gives it back and leaves what
/// followed.
pub proof fn lemma_command_packet_round_trip(v: CommandPacketDataView, rest: Seq<u8>)
    requires
        command_packet_well_formed(v),
    ensures
        spec_read_command_packet(spec_write_command_packet(v) + rest) == (Some(v), rest),
{
    let tail = if v.acknowledged {
        Seq::<u8>::empty()
    } else {
        spec_write_u16_prefixed(v.data)
    };
    let t3 = tail + rest;
    let t2 = spec_write_u16_prefixed(v.command) + t3;
    let t1 = <bool as Writeable>::spec_write(v.acknowledged) + t2;
    let t0 = <u64 as Writeable>::spec_write(v.timestamp) + t1;
    assert(spec_write_command_packet(v) + rest =~= t0);
    lemma_u64_round_trip(v.timestamp, t1);
    lemma_bool_round_trip(v.acknowledged, t2);
    lemma_u16_prefixed_round_trip(v.command, t3);
    if v.acknowledged {
        assert(t3 =~= rest);
        assert(v.data =~= Seq::<char>::empty());
    } else {
        lemma_u16_prefixed_round_trip(v.data, rest);
    }
}

/// The wire format of a command packet: the timestamp (big-endian, 64 bits), the
/// acknowledgement flag as one byte (1 or 0), the command's byte length (big-endian, 16
/// bits) and its UTF-8 bytes, then, unless it is an acknowledgement, the data's byte length
/// and its UTF-8 bytes. Reading such bytes gives the packet back and leaves what follows.
pub proof fn lemma_command_packet_wire_format(v: CommandPacketDataView, rest: Seq<u8>)
    requires
        command_packet_well_formed(v),
    ensures
        spec_write_command_packet(v) == be_u64(v.timestamp) + seq![
            if v.acknowledged {
                1u8
            } else {
                0u8
            },
        ] + be_u16(encode_utf8(v.command).len() as u16) + encode_utf8(v.command) + if v.acknowledged {
            Seq::<u8>::empty()
        } else {
            be_u16(encode_utf8(v.data).len() as u16) + encode_utf8(v.data)
        },
        spec_read_command_packet(spec_write_command_packet(v) + rest) == (Some(v), rest),
{
    reveal(spec_write_u16_prefixed);
    let tail = if v.acknowledged {
        Seq::<u8>::empty()
    } else {
        be_u16(encode_utf8(v.data).len() as u16) + encode_utf8(v.data)
    };
    assert(spec_write_command_packet(v) =~= be_u64(v.timestamp) + seq![
        if v.acknowledged {
            1u8
        } else {
            0u8
        },
    ] + be_u16(encode_utf8(v.command).len() as u16) + encode_utf8(v.command) + tail);
    lemma_command_packet_round_trip(v, rest);
}

/// Client to server
pub const RESTART_ROBOT: &'static str = "CMD_RESTART_ROBOT";

/// Data is stringified i32 match number
///
/// Client to server
pub const SET_MATCH_NUMBER: &'static str = "CMD_SET_MATCH_NUMBER";

/// Data is stringified integer representation of RobotOpModeState
///
/// Server to client
pub const NOTIFY_OP_MODE_STATE: &'static str = "CMD_NOTIFY_ROBOT_STATE";

/// Client to server
pub const REQUEST_OP_MODES: &'static str = "CMD_REQUEST_OP_MODE_LIST";

/// Data is a json list of OpModeData
///
/// Server to client
pub const NOTIFY_OP_MODES: &'static str = "CMD_NOTIFY_OP_MODE_LIST";

/// Data is a string name of a configuration
///
/// Client to server
pub const ACTIVATE_CONFIGURATION: &'static str = "CMD_ACTIVATE_CONFIGURATION";

/// Client to server
pub const REQUEST_ACTIVE_CONFIGURATION: &'static str = "CMD_REQUEST_ACTIVE_CONFIG";

/// Data is json RobotConfiguration
///
/// Server to client
pub const NOTIFY_ACTIVE_CONFIGURATION: &'static str = "CMD_NOTIFY_ACTIVE_CONFIGURATION";

/// Data is a string name of an opmode
///
/// To stop the running opmode, send this with $Stop$Robot$
///
/// Client to server
pub const INIT_OPMODE: &'static str = "CMD_INIT_OP_MODE";

/// Data is a string name of an opmode
///
/// Client to server
pub const RUN_OPMODE: &'static str = "CMD_RUN_OP_MODE";

/// Data is a string name of an opmode
///
/// Server to client
pub const NOTIFY_INIT_OPMODE: &'static str = "CMD_NOTIFY_INIT_OP_MODE";

/// Data is a string name of an opmode
///
/// Server to client
pub const NOTIFY_RUN_OPMODE: &'static str = "CMD_NOTIFY_RUN_OP_MODE";

/// Data about a particular opmode, sent in notify opmode list
#[derive(Debug, Clone, PartialEq, Eq, PartialOrd, Ord)]
pub struct OpModeData {
    /// Type of opmode. System opmodes cannot be user defined, and an example of one is
    /// "$Stop$Robot$", which means there is no running opmode.
    pub flavor: OpModeFlavor,
    /// Name of the group the opmode belongs to. "$$$$$$$" is the default group
    pub group: String,
    /// Name of the opmode
    pub name: String,
    /// External source of the opmode, if any
    pub source: Option<OpModeSource>,
    /// User friendly display name for system opmodes
    pub system_opmode_display_name: Option<String>,
}

/// The mathematical value of an [OpModeData].
pub struct OpModeDataView {
    pub flavor: OpModeFlavor,
    pub group: Seq<char>,
    pub name: Seq<char>,
    pub source: Option<OpModeSource>,
    pub system_opmode_display_name: Option<Seq<char>>,
}

impl View for OpModeData {
    type V = OpModeDataView;

    open spec fn view(&self) -> OpModeDataView {
        OpModeDataView {
            flavor: self.flavor,
            group: self.group@,
            name: self.name@,
            source: self.source,
            system_opmode_display_name: match self.system_opmode_display_name {
                Some(n) => Some(n@),
                None => None,
            },
        }
    }
}

pub const DEFAULT_OPMODE_GROUP: &'static str = "$$$$$$$";

pub const OPMODE_STOP: &'static str = "$Stop$Robot$";

/// What type of opmode it is
#[derive(Debug, Clone, Copy, PartialEq, Eq, Structural, PartialOrd, Ord)]
pub enum OpModeFlavor {
    Autonomous,
    System,
    Teleop,
}

/// Optional external source of the opmode
#[derive(Debug, Clone, Copy, PartialEq, Eq, Structural, PartialOrd, Ord)]
pub enum OpModeSource {
    AndroidStudio,
    Blockly,
    ExternalLibrary,
    OnbotJava,
}

/// Data about a particular configuration (file)
#[derive(Debug, Clone, PartialEq, Eq, PartialOrd, Ord)]
pub struct RobotConfiguration {
    /// Unsure what this means
    pub is_dirty: bool,
    /// Where the configuration is stored
    pub location: ConfigurationLocation,
    /// Name of the configuration
    pub name: String,
    /// 0 by default, likely set to some value if location is Resource
    pub resource_id: i32,
}

/// Where the configuration is stored
#[derive(Debug, Clone, Copy, PartialEq, Eq, Structural, PartialOrd, Ord)]
pub enum ConfigurationLocation {
    /// Not stored anywhere (`NONE` on the wire)
    NoLocation,
    LocalStorage,
    Resource,
}

} // verus!
