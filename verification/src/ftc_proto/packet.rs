//! The frame around every packet: its type, an optional sequence number and its data.

use vstd::prelude::*;

use super::traits::{
    append_bytes, be_u16, lemma_i16_round_trip, take_front, Readable, Writeable,
};

verus! {

/// Base structure of all packets
#[derive(Debug, Clone, PartialEq, Eq)]
pub struct Packet {
    pub packet_type: PacketType,
    /// Is there for most packets, expect for Heartbeat
    pub sequence_number: Option<i16>,
    pub data: Vec<u8>,
}

/// The mathematical value of a [Packet].
pub struct PacketView {
    pub packet_type: PacketType,
    pub sequence_number: Option<i16>,
    pub data: Seq<u8>,
}

impl View for Packet {
    type V = PacketView;

    open spec fn view(&self) -> PacketView {
        PacketView {
            packet_type: self.packet_type,
            sequence_number: self.sequence_number,
            data: self.data@,
        }
    }
}

impl Packet {
    /// Creates a packet from the type and data, setting the sequence number to None (as its set
    /// later, when sending)
    pub fn from_packet_type_and_bytes(packet_type: PacketType, data: Vec<u8>) -> (p: Packet)
        ensures
            p.packet_type == packet_type,
            p.sequence_number is None,
            p.data@ == data@,
    {
        Packet { sequence_number: None, packet_type, data }
    }

    /// Creates a packet from the packet type and any writable data
    pub fn from_packet_type_and_writable<W: Writeable>(packet_type: PacketType, data: &W) -> (p:
        Packet)
        ensures
            p.packet_type == packet_type,
            p.sequence_number is None,
            p.data@ == W::spec_write(data@),
    {
        let mut data_buffer = Vec::new();
        data.write_to(&mut data_buffer);
        assert(data_buffer@ =~= W::spec_write(data@));
        Self::from_packet_type_and_bytes(packet_type, data_buffer)
    }

    /// Returns self with sequence number set to Some(arg)
    pub fn with_sequence_number(self, sequence_number: i16) -> (p: Self)
        ensures
            p.packet_type == self.packet_type,
            p.sequence_number == Some(sequence_number),
            p.data@ == self.data@,
    {
        let mut self_a = self;
        self_a.sequence_number = Some(sequence_number);
        self_a
    }
}

/// The header and data bytes a packet with this view is written as.
pub open spec fn spec_write_packet(v: PacketView) -> Seq<u8> {
    seq![packet_type_code(v.packet_type)] + be_u16((v.data.len() as i16) as u16) + match v.sequence_number {
        Some(s) => be_u16(s as u16),
        None => Seq::empty(),
    } + v.data
}

impl Writeable for Packet {
    open spec fn spec_write(v: PacketView) -> Seq<u8> {
        spec_write_packet(v)
    }

    fn write_to(&self, buffer: &mut Vec<u8>) {
        let ghost start = buffer@;
        self.packet_type.write_to(buffer);
        (self.data.len() as i16).write_to(buffer);
        if let Some(seq) = self.sequence_number {
            seq.write_to(buffer);
        }
        append_bytes(buffer, self.data.as_slice());
        assert(buffer@ =~= start + spec_write_packet(self@));
    }
}

/// Whether a packet of this type carries a sequence number on the wire.
pub open spec fn has_sequence_number(t: PacketType) -> bool {
    t != PacketType::Heartbeat
}

/// What is left after the type, length and (for all but heartbeats) sequence number
/// have been read from `buffer`: the header fields and the rest, or `None` where the
/// header is cut short or invalid, with the buffer as the failing read left it.
pub open spec fn spec_read_header(buffer: Seq<u8>) -> (Option<(PacketType, i16, Option<i16>)>, Seq<u8>) {
    let (t, r1) = <PacketType as Readable>::spec_read(buffer);
    match t {
        None => (None, r1),
        Some(t) => {
            let (len, r2) = <i16 as Readable>::spec_read(r1);
            match len {
                None => (None, r2),
                Some(len) => if has_sequence_number(t) {
                    let (seq, r3) = <i16 as Readable>::spec_read(r2);
                    match seq {
                        None => (None, r3),
                        Some(seq) => (Some((t, len, Some(seq))), r3),
                    }
                } else {
                    (Some((t, len, None)), r2)
                },
            }
        },
    }
}

/// Whether the data length a header announces fits in the bytes after it.
pub open spec fn payload_fits(data_length: i16, rest: Seq<u8>) -> bool {
    (data_length as usize) as int <= rest.len()
}

impl Readable for Packet {
    open spec fn spec_read(buffer: Seq<u8>) -> (Option<PacketView>, Seq<u8>) {
        let (h, rest) = spec_read_header(buffer);
        match h {
            None => (None, rest),
            Some((t, len, seq)) => {
                let n = (len as usize) as int;
                if payload_fits(len, rest) {
                    (
                        Some(PacketView { packet_type: t, sequence_number: seq, data: rest.take(n) }),
                        rest.skip(n),
                    )
                } else {
                    // The buffer is not long enough for the data the header announces (or
                    // the length is negative): nothing is read past the header.
                    (None, rest)
                }
            },
        }
    }

    fn read_from(buffer: &mut Vec<u8>) -> (res: Option<Packet>) {
        let ghost b0 = buffer@;
        let packet_type = match PacketType::read_from(buffer) {
            Some(t) => t,
            None => return None,
        };
        let ghost b1 = buffer@;
        assert(<PacketType as Readable>::spec_read(b0) == (Some(packet_type), b1));
        let data_length = match i16::read_from(buffer) {
            Some(l) => l,
            None => return None,
        };
        let ghost b2 = buffer@;
        assert(<i16 as Readable>::spec_read(b1) == (Some(data_length), b2));
        let sequence_number = if packet_type != PacketType::Heartbeat {
            match i16::read_from(buffer) {
                Some(s) => Some(s),
                None => return None,
            }
        } else {
            None
        };
        assert(spec_read_header(b0) == (Some((packet_type, data_length, sequence_number)), buffer@));
        if data_length as usize > buffer.len() {
            return None;
        }
        let data = take_front(buffer, data_length as usize);
        Some(Packet { packet_type, sequence_number, data })
    }
}

/// Kinds of packet
#[derive(Debug, Clone, Copy, PartialEq, Eq, Structural, PartialOrd, Ord)]
pub enum PacketType {
    /// Packet periodically pinging the server with one timestamp and the timezone, the server
    /// echoes it back with two more timestamps
    Time,
    /// Packet giving the server gamepad data
    Gamepad,
    /// Packet used for heartbeating, sent and received every second, contains the sdk versions of
    /// both apps
    Heartbeat,
    /// Packet to issue commands from the robot and receive data from it
    Command,
    /// Packet giving us opmode telemetry data
    Telemetry,
}

impl View for PacketType {
    type V = PacketType;

    open spec fn view(&self) -> PacketType {
        *self
    }
}

/// The byte identifying a packet type on the wire.
pub open spec fn packet_type_code(t: PacketType) -> u8 {
    match t {
        PacketType::Time => 1,
        PacketType::Gamepad => 2,
        PacketType::Heartbeat => 3,
        PacketType::Command => 4,
        PacketType::Telemetry => 5,
    }
}

/// The packet type a byte identifies, if any.
pub open spec fn packet_type_of_code(b: u8) -> Option<PacketType> {
    if b == 1 {
        Some(PacketType::Time)
    } else if b == 2 {
        Some(PacketType::Gamepad)
    } else if b == 3 {
        Some(PacketType::Heartbeat)
    } else if b == 4 {
        Some(PacketType::Command)
    } else if b == 5 {
        Some(PacketType::Telemetry)
    } else {
        None
    }
}

impl PacketType {
    /// The byte identifying this packet type on the wire.
    pub fn code(&self) -> (b: u8)
        ensures
            b == packet_type_code(*self),
    {
        match self {
            PacketType::Time => 1,
            PacketType::Gamepad => 2,
            PacketType::Heartbeat => 3,
            PacketType::Command => 4,
            PacketType::Telemetry => 5,
        }
    }

    /// The packet type a byte identifies, if any.
    pub fn from_code(b: u8) -> (t: Option<PacketType>)
        ensures
            t == packet_type_of_code(b),
    {
        match b {
            1 => Some(PacketType::Time),
            2 => Some(PacketType::Gamepad),
            3 => Some(PacketType::Heartbeat),
            4 => Some(PacketType::Command),
            5 => Some(PacketType::Telemetry),
            _ => None,
        }
    }
}

impl Writeable for PacketType {
    open spec fn spec_write(v: PacketType) -> Seq<u8> {
        seq![packet_type_code(v)]
    }

    fn write_to(&self, buffer: &mut Vec<u8>) {
        self.code().write_to(buffer);
    }
}

impl Readable for PacketType {
    /// The type byte is consumed even when it names no packet type.
    open spec fn spec_read(buffer: Seq<u8>) -> (Option<PacketType>, Seq<u8>) {
        if buffer.len() < 1 {
            (None, buffer)
        } else {
            (packet_type_of_code(buffer[0]), buffer.skip(1))
        }
    }


    fn read_from(buffer: &mut Vec<u8>) -> (res: Option<PacketType>) {
        match u8::read_from(buffer) {
            Some(b) => PacketType::from_code(b),
            None => None,
        }
    }
}

/// Reading back a written packet type gives it back.
pub proof fn lemma_packet_type_round_trip(t: PacketType, rest: Seq<u8>)
    ensures
        <PacketType as Readable>::spec_read(<PacketType as Writeable>::spec_write(t) + rest) == (
            Some(t),
            rest,
        ),
{
    assert((seq![packet_type_code(t)] + rest).skip(1) =~= rest);
}

/// Whether a packet can be written and read back unchanged: its data length fits the
/// signed 16-bit length field and it carries a sequence number exactly when its type
/// has one on the wire.
pub open spec fn packet_well_formed(v: PacketView) -> bool {
    &&& v.data.len() <= 0x7fff
    &&& (v.sequence_number is Some <==> has_sequence_number(v.packet_type))
}

/// Reading back a written well-formed packet gives it back and leaves what followed.
pub proof fn lemma_packet_round_trip(v: PacketView, rest: Seq<u8>)
    requires
        packet_well_formed(v),
    ensures
        <Packet as Readable>::spec_read(spec_write_packet(v) + rest) == (Some(v), rest),
{
    let len = v.data.len() as i16;
    assert(len as int == v.data.len());
    let seq_bytes = match v.sequence_number {
        Some(s) => be_u16(s as u16),
        None => Seq::<u8>::empty(),
    };
    let after_type = be_u16(len as u16) + seq_bytes + v.data + rest;
    let b = spec_write_packet(v) + rest;
    assert(b =~= seq![packet_type_code(v.packet_type)] + after_type);
    lemma_packet_type_round_trip(v.packet_type, after_type);
    lemma_i16_round_trip(len, seq_bytes + v.data + rest);
    assert(after_type =~= be_u16(len as u16) + (seq_bytes + v.data + rest));
    match v.sequence_number {
        Some(s) => {
            lemma_i16_round_trip(s, v.data + rest);
            assert(seq_bytes + v.data + rest =~= be_u16(s as u16) + (v.data + rest));
        },
        None => {
            assert(seq_bytes + v.data + rest =~= v.data + rest);
        },
    }
    assert((v.data + rest).take(v.data.len() as int) =~= v.data);
    assert((v.data + rest).skip(v.data.len() as int) =~= rest);
}

} // verus!
