//! Reading a recording of packets back to back, to check how many of them decode.

use vstd::prelude::*;

use crate::ftc_proto::gamepad_packet::GamepadPacketData;
use crate::ftc_proto::heartbeat_packet::HeartbeatPacketData;
use crate::ftc_proto::packet::{
    lemma_packet_round_trip, packet_well_formed, spec_write_packet, Packet, PacketType, PacketView,
};
use crate::ftc_proto::robot_command::CommandPacketData;
use crate::ftc_proto::telemetry_packet::TelemetryPacket;
use crate::ftc_proto::time_packet::TimePacketData;
use crate::ftc_proto::traits::Readable;

verus! {

/// Whether the data of a packet reads as the payload its type says it carries.
pub open spec fn payload_decodes(p: PacketView) -> bool {
    match p.packet_type {
        PacketType::Telemetry => <TelemetryPacket as Readable>::spec_read(p.data).0 is Some,
        PacketType::Time => <TimePacketData as Readable>::spec_read(p.data).0 is Some,
        PacketType::Command => <CommandPacketData as Readable>::spec_read(p.data).0 is Some,
        PacketType::Heartbeat => <HeartbeatPacketData as Readable>::spec_read(p.data).0 is Some,
        PacketType::Gamepad => <GamepadPacketData as Readable>::spec_read(p.data).0 is Some,
    }
}

/// Reading packets one after another from a recording until it is used up or a packet
/// cannot be read: how many payloads decoded and how many packets were read.
pub open spec fn spec_recording_counts(bytes: Seq<u8>) -> (nat, nat)
    decreases bytes.len(),
{
    if bytes.len() == 0 {
        (0, 0)
    } else {
        let (p, rest) = <Packet as Readable>::spec_read(bytes);
        match p {
            None => (0, 0),
            Some(p) => {
                proof {
                    lemma_read_shrinks(bytes);
                }
                let (decoded, read) = spec_recording_counts(rest);
                ((decoded + if payload_decodes(p) {
                    1nat
                } else {
                    0nat
                }) as nat, read + 1)
            },
        }
    }
}

/// Reading from bytes that are there, whether it succeeds or not, consumes some of them.
pub proof fn lemma_read_shrinks(bytes: Seq<u8>)
    requires
        bytes.len() > 0,
    ensures
        <Packet as Readable>::spec_read(bytes).1.len() < bytes.len(),
{
}

/// Decodes the data of a packet as its type says; whether that succeeded.
fn decode_payload(packet: Packet) -> (r: bool)
    ensures
        r == payload_decodes(packet@),
{
    let mut data = packet.data;
    match packet.packet_type {
        PacketType::Telemetry => TelemetryPacket::read_from(&mut data).is_some(),
        PacketType::Time => TimePacketData::read_from(&mut data).is_some(),
        PacketType::Command => CommandPacketData::read_from(&mut data).is_some(),
        PacketType::Heartbeat => HeartbeatPacketData::read_from(&mut data).is_some(),
        PacketType::Gamepad => GamepadPacketData::read_from(&mut data).is_some(),
    }
}

/// Tests deserializing a recording of packets: reads packets from the front of `binary`
/// until it is used up or a packet cannot be read, decoding each payload as its packet
/// type says. Returns how many payloads decoded and how many packets were read.
pub fn test_deserializer(binary: Vec<u8>) -> (r: (usize, usize))
    ensures
        spec_recording_counts(binary@) == (r.0 as nat, r.1 as nat),
{
    let ghost b0 = binary@;
    // A vector's length is a usize, so at most one packet can be read per byte.
    let size: usize = binary.len();
    assert(b0.len() == size);
    let mut buffer = binary;
    let mut success: usize = 0;
    let mut i: usize = 0;
    let mut done = false;
    while !done && buffer.len() > 0
        invariant
            b0.len() <= usize::MAX,
            buffer@.len() <= b0.len(),
            success <= i,
            i <= b0.len() - buffer@.len(),
            !done ==> spec_recording_counts(b0) == (
                (success + spec_recording_counts(buffer@).0) as nat,
                (i + spec_recording_counts(buffer@).1) as nat,
            ),
            done ==> spec_recording_counts(b0) == (success as nat, i as nat),
        decreases buffer@.len(),
    {
        let ghost before = buffer@;
        proof {
            lemma_read_shrinks(before);
        }
        match Packet::read_from(&mut buffer) {
            None => {
                done = true;
            },
            Some(packet) => {
                assert(buffer@.len() < before.len());
                i += 1;
                let decoded = decode_payload(packet);
                assert(spec_recording_counts(before) == (
                    (spec_recording_counts(buffer@).0 + if decoded {
                        1nat
                    } else {
                        0nat
                    }) as nat,
                    spec_recording_counts(buffer@).1 + 1,
                ));
                if decoded {
                    success += 1;
                }
            },
        }
    }
    (success, i)
}

/// The bytes of packets written one after another.
pub open spec fn spec_write_recording(ps: Seq<PacketView>) -> Seq<u8>
    decreases ps.len(),
{
    if ps.len() == 0 {
        Seq::empty()
    } else {
        spec_write_packet(ps[0]) + spec_write_recording(ps.drop_first())
    }
}

/// How many of the packets carry a payload that decodes.
pub open spec fn decoding_count(ps: Seq<PacketView>) -> nat
    decreases ps.len(),
{
    if ps.len() == 0 {
        0
    } else {
        (if payload_decodes(ps[0]) {
            1nat
        } else {
            0nat
        }) + decoding_count(ps.drop_first())
    }
}

/// A recording of well-formed packets written one after another reads back as all of
/// them: every packet is read, and those whose payload decodes are counted.
pub proof fn lemma_recording_round_trip(ps: Seq<PacketView>)
    requires
        forall|i: int| 0 <= i < ps.len() ==> packet_well_formed(#[trigger] ps[i]),
    ensures
        spec_recording_counts(spec_write_recording(ps)) == (decoding_count(ps), ps.len()),
    decreases ps.len(),
{
    if ps.len() > 0 {
        let rest = spec_write_recording(ps.drop_first());
        assert(packet_well_formed(ps[0]));
        lemma_packet_round_trip(ps[0], rest);
        assert forall|i: int| 0 <= i < ps.drop_first().len() implies packet_well_formed(
            #[trigger] ps.drop_first()[i],
        ) by {
            assert(ps.drop_first()[i] == ps[i + 1]);
        }
        lemma_recording_round_trip(ps.drop_first());
        assert(spec_write_packet(ps[0]).len() > 0);
    }
}

} // verus!
