//! Heartbeat packets, exchanged about once a second.

use vstd::prelude::*;

use super::traits::{
    be_u16, u16_of_be, lemma_i16_round_trip, lemma_i8_round_trip, lemma_u8_round_trip, Readable, Writeable,
};

verus! {

pub const HEARTBEAT_SEQUENCE_NUMBER_REQUEST: i16 = 10003;

pub const HEARTBEAT_SEQUENCE_NUMBER_RESPONSE: i16 = 7;

/// Data structure of a Heartbeat packet
///
/// This packet is only sent from the client to the server, about 25x per second
#[derive(Debug, Clone, PartialEq, Eq, Copy)]
pub struct HeartbeatPacketData {
    /// Usually 1 ([PEER_TYPE_PEER])
    pub peer_type: i8,
    /// Always 10003 for requests, always 7 for responses
    pub sequence_number: i16,
    pub sdk_build_month: i8,
    pub sdk_build_year: i16,
    pub sdk_major_version: i8,
    pub sdk_minor_version: i8,
}

impl View for HeartbeatPacketData {
    type V = HeartbeatPacketData;

    open spec fn view(&self) -> HeartbeatPacketData {
        *self
    }
}

/// The bytes a HeartbeatPacketData with this view is written as.
pub open spec fn spec_write_heartbeat_packet_data(v: HeartbeatPacketData) -> Seq<u8> {
    <u8 as Writeable>::spec_write(124u8)
        + <i8 as Writeable>::spec_write(v.peer_type)
        + <i16 as Writeable>::spec_write(v.sequence_number)
        + <i8 as Writeable>::spec_write(v.sdk_build_month)
        + <i16 as Writeable>::spec_write(v.sdk_build_year)
        + <i8 as Writeable>::spec_write(v.sdk_major_version)
        + <i8 as Writeable>::spec_write(v.sdk_minor_version)
        + <u8 as Writeable>::spec_write(0u8)
}

/// How many bytes a read of a HeartbeatPacketData consumes before failing on a buffer of `len` bytes:
/// every field that still fits is read.
pub open spec fn heartbeat_packet_data_consumed(len: nat) -> nat {
    if len < 1 {
        0
    } else     if len < 2 {
        1
    } else     if len < 4 {
        2
    } else     if len < 5 {
        4
    } else     if len < 7 {
        5
    } else     if len < 8 {
        7
    } else     if len < 9 {
        8
    } else     if len < 10 {
        9
    } else {
        10
    }
}

/// What reading a HeartbeatPacketData from `b` yields and what it leaves: the fields at their fixed
/// offsets when all 10 bytes are there, and otherwise nothing, with the fields that fit
/// consumed.
pub open spec fn spec_read_heartbeat_packet_data(b: Seq<u8>) -> (Option<HeartbeatPacketData>, Seq<u8>) {
    if b.len() < 10 {
        (None, b.skip(heartbeat_packet_data_consumed(b.len()) as int))
    } else {
        (Some(HeartbeatPacketData {
            peer_type: b.skip(1)[0] as i8,
            sequence_number: u16_of_be(b.skip(2)) as i16,
            sdk_build_month: b.skip(4)[0] as i8,
            sdk_build_year: u16_of_be(b.skip(5)) as i16,
            sdk_major_version: b.skip(7)[0] as i8,
            sdk_minor_version: b.skip(8)[0] as i8
        }), b.skip(10))
    }
}

impl Writeable for HeartbeatPacketData {
    /// A leading 124 byte, the fields in order, and a trailing 0 byte.
    open spec fn spec_write(v: HeartbeatPacketData) -> Seq<u8> {
        spec_write_heartbeat_packet_data(v)
    }

    fn write_to(&self, buffer: &mut Vec<u8>) {
        let ghost start = buffer@;
        124u8.write_to(buffer);
        self.peer_type.write_to(buffer);
        self.sequence_number.write_to(buffer);
        self.sdk_build_month.write_to(buffer);
        self.sdk_build_year.write_to(buffer);
        self.sdk_major_version.write_to(buffer);
        self.sdk_minor_version.write_to(buffer);
        0u8.write_to(buffer);
        assert(buffer@ =~= start + spec_write_heartbeat_packet_data(self@));
    }
}

impl Readable for HeartbeatPacketData {
    /// The leading and trailing bytes are read but not checked.
    open spec fn spec_read(buffer: Seq<u8>) -> (Option<HeartbeatPacketData>, Seq<u8>) {
        spec_read_heartbeat_packet_data(buffer)
    }


    fn read_from(buffer: &mut Vec<u8>) -> (res: Option<HeartbeatPacketData>) {
        let ghost b0 = buffer@;
        let _c0 = match u8::read_from(buffer) {
            Some(x) => x,
            None => return None,
        };
        assert(buffer@ =~= b0.skip(1));
        let peer_type = match i8::read_from(buffer) {
            Some(x) => x,
            None => return None,
        };
        assert(buffer@ =~= b0.skip(2));
        let sequence_number = match i16::read_from(buffer) {
            Some(x) => x,
            None => return None,
        };
        assert(buffer@ =~= b0.skip(4));
        let sdk_build_month = match i8::read_from(buffer) {
            Some(x) => x,
            None => return None,
        };
        assert(buffer@ =~= b0.skip(5));
        let sdk_build_year = match i16::read_from(buffer) {
            Some(x) => x,
            None => return None,
        };
        assert(buffer@ =~= b0.skip(7));
        let sdk_major_version = match i8::read_from(buffer) {
            Some(x) => x,
            None => return None,
        };
        assert(buffer@ =~= b0.skip(8));
        let sdk_minor_version = match i8::read_from(buffer) {
            Some(x) => x,
            None => return None,
        };
        assert(buffer@ =~= b0.skip(9));
        let _c7 = match u8::read_from(buffer) {
            Some(x) => x,
            None => return None,
        };
        assert(buffer@ =~= b0.skip(10));
        Some(HeartbeatPacketData { peer_type, sequence_number, sdk_build_month, sdk_build_year, sdk_major_version, sdk_minor_version })
    }
}

/// Reading back what a HeartbeatPacketData wrote gives it back and leaves what followed.
pub proof fn lemma_heartbeat_packet_data_round_trip(v: HeartbeatPacketData, rest: Seq<u8>)
    ensures
        spec_read_heartbeat_packet_data(spec_write_heartbeat_packet_data(v) + rest) == (Some(v), rest),
{
    let b = spec_write_heartbeat_packet_data(v) + rest;
    let t0 = b.skip(0);
    assert(t0 =~= <u8 as Writeable>::spec_write(124u8) + b.skip(1));
    lemma_u8_round_trip(124u8, b.skip(1));
    let t1 = b.skip(1);
    assert(t1 =~= <i8 as Writeable>::spec_write(v.peer_type) + b.skip(2));
    lemma_i8_round_trip(v.peer_type, b.skip(2));
    let t2 = b.skip(2);
    assert(t2 =~= <i16 as Writeable>::spec_write(v.sequence_number) + b.skip(4));
    lemma_i16_round_trip(v.sequence_number, b.skip(4));
    let t3 = b.skip(4);
    assert(t3 =~= <i8 as Writeable>::spec_write(v.sdk_build_month) + b.skip(5));
    lemma_i8_round_trip(v.sdk_build_month, b.skip(5));
    let t4 = b.skip(5);
    assert(t4 =~= <i16 as Writeable>::spec_write(v.sdk_build_year) + b.skip(7));
    lemma_i16_round_trip(v.sdk_build_year, b.skip(7));
    let t5 = b.skip(7);
    assert(t5 =~= <i8 as Writeable>::spec_write(v.sdk_major_version) + b.skip(8));
    lemma_i8_round_trip(v.sdk_major_version, b.skip(8));
    let t6 = b.skip(8);
    assert(t6 =~= <i8 as Writeable>::spec_write(v.sdk_minor_version) + b.skip(9));
    lemma_i8_round_trip(v.sdk_minor_version, b.skip(9));
    let t7 = b.skip(9);
    assert(t7 =~= <u8 as Writeable>::spec_write(0u8) + b.skip(10));
    lemma_u8_round_trip(0u8, b.skip(10));
    assert(b.skip(10) =~= rest);
}

/// The wire format of a heartbeat: a leading 124 byte, the peer type as one byte, the
/// sequence number (big-endian, 16 bits), the SDK's build month as one byte, its build year
/// (big-endian, 16 bits), its major and minor versions as one byte each, and a trailing 0
/// byte. Reading such bytes gives the heartbeat back and leaves what follows.
pub proof fn lemma_heartbeat_packet_data_wire_format(v: HeartbeatPacketData, rest: Seq<u8>)
    ensures
        spec_write_heartbeat_packet_data(v) == seq![124u8, v.peer_type as u8] + be_u16(
            v.sequence_number as u16,
        ) + seq![v.sdk_build_month as u8] + be_u16(v.sdk_build_year as u16) + seq![
            v.sdk_major_version as u8,
            v.sdk_minor_version as u8,
            0u8,
        ],
        spec_read_heartbeat_packet_data(spec_write_heartbeat_packet_data(v) + rest) == (
            Some(v),
            rest,
        ),
{
    assert(spec_write_heartbeat_packet_data(v) =~= seq![124u8, v.peer_type as u8] + be_u16(
        v.sequence_number as u16,
    ) + seq![v.sdk_build_month as u8] + be_u16(v.sdk_build_year as u16) + seq![
        v.sdk_major_version as u8,
        v.sdk_minor_version as u8,
        0u8,
    ]);
    lemma_heartbeat_packet_data_round_trip(v, rest);
}

pub const PEER_TYPE_NOT_SET: i8 = 0;

pub const PEER_TYPE_PEER: i8 = 1;

pub const PEER_TYPE_GROUP_OWNER: i8 = 2;

pub const PEER_TYPE_NOT_CONNECTED_DUE_TO_PREEXISTING_CONNECTION: i8 = 3;

} // verus!
