//! Telemetry packets: the robot's status lines and the active opmode's telemetry.

use vstd::prelude::*;
use vstd::utf8::encode_utf8;

use super::robot_command::{
    lemma_u16_prefixed_round_trip, read_u16_prefixed, spec_read_u16_prefixed,
    spec_write_u16_prefixed, write_u16_prefixed,
};
use super::time_packet::{i8_of_state, lemma_state_round_trip, state_of_i8, RobotOpmodeState};
use super::traits::{
    be_u16, be_u32, lemma_bool_round_trip, lemma_i64_round_trip, lemma_i8_round_trip, lemma_string_round_trip,
    lemma_u32_round_trip, lemma_u8_round_trip, read_string_from, spec_read_string, Readable,
    Writeable,
};

verus! {

pub const ROBOT_BATTERY_LEVEL_KEY: &'static str = "$Robot$Battery$Level$";

pub const ROBOT_CONTROLLER_BATTERY_STATUS_KEY: &'static str = "$RobotController$Battery$Status$";

pub const SYSTEM_WARNING_KEY: &'static str = "$System$Warning$";

pub const SYSTEM_ERROR_KEY: &'static str = "$System$Error$";

pub const SYSTEM_NONE_KEY: &'static str = "$System$None$";

/// What reading `n` values of type `T` one after another yields and what it leaves.
pub open spec fn spec_read_many<T: Readable>(b: Seq<u8>, n: nat) -> (Option<Seq<T::V>>, Seq<u8>)
    decreases n,
{
    if n == 0 {
        (Some(Seq::empty()), b)
    } else {
        let (prev, r) = spec_read_many::<T>(b, (n - 1) as nat);
        if prev is None {
            (None, r)
        } else {
            let (item, r2) = T::spec_read(r);
            if item is None {
                (None, r2)
            } else {
                (Some(prev->0.push(item->0)), r2)
            }
        }
    }
}

/// The bytes of values of type `T` written one after another.
pub open spec fn spec_write_many<T: Writeable>(vs: Seq<T::V>) -> Seq<u8>
    decreases vs.len(),
{
    if vs.len() == 0 {
        Seq::empty()
    } else {
        spec_write_many::<T>(vs.drop_last()) + T::spec_write(vs.last())
    }
}

/// The views of the items of a vector.
pub open spec fn views<T: View>(items: Seq<T>) -> Seq<T::V> {
    items.map_values(|x: T| x@)
}

/// Reads `n` values of type `T` one after another.
pub fn read_many<T: Readable>(buffer: &mut Vec<u8>, n: u8) -> (res: Option<Vec<T>>)
    ensures
        final(buffer)@ == spec_read_many::<T>(old(buffer)@, n as nat).1,
        res is Some <==> spec_read_many::<T>(old(buffer)@, n as nat).0 is Some,
        res matches Some(items) ==> spec_read_many::<T>(old(buffer)@, n as nat).0 == Some(
            views(items@),
        ),
{
    let ghost b0 = buffer@;
    let mut items: Vec<T> = Vec::new();
    let mut i: u8 = 0;
    while i < n
        invariant
            i <= n,
            spec_read_many::<T>(b0, i as nat) == (Some(views(items@)), buffer@),
            b0 == old(buffer)@,
        decreases n - i,
    {
        let ghost before = buffer@;
        let item = match T::read_from(buffer) {
            Some(x) => x,
            None => {
                assert(spec_read_many::<T>(b0, (i + 1) as nat) == (
                    None::<Seq<T::V>>,
                    buffer@,
                ));
                proof {
                    lemma_read_many_stuck::<T>(b0, (i + 1) as nat, n as nat);
                }
                return None;
            },
        };
        let ghost old_items = items@;
        items.push(item);
        assert(views(items@) =~= views(old_items).push(item@));
        i += 1;
    }
    Some(items)
}

/// Once reading fails, reading more items fails with the same leftover.
pub proof fn lemma_read_many_stuck<T: Readable>(b: Seq<u8>, i: nat, k: nat)
    requires
        i <= k,
        spec_read_many::<T>(b, i).0 is None,
    ensures
        spec_read_many::<T>(b, k) == spec_read_many::<T>(b, i),
    decreases k - i,
{
    if i < k {
        lemma_read_many_stuck::<T>(b, i, (k - 1) as nat);
    }
}

/// Writes `items` one after another.
pub fn write_many<T: Writeable>(items: &Vec<T>, buffer: &mut Vec<u8>)
    ensures
        final(buffer)@ == old(buffer)@ + spec_write_many::<T>(views(items@)),
{
    let ghost start = buffer@;
    let mut i: usize = 0;
    while i < items.len()
        invariant
            i <= items@.len(),
            buffer@ == start + spec_write_many::<T>(views(items@.take(i as int))),
        decreases items@.len() - i,
    {
        let ghost before = buffer@;
        items[i].write_to(buffer);
        assert(views(items@.take((i + 1) as int)).drop_last() =~= views(items@.take(i as int)));
        i += 1;
    }
    assert(items@.take(i as int) =~= items@);
}

/// Reading back values written one after another gives them back, when each of them reads
/// back on its own.
pub proof fn lemma_many_round_trip<T: Writeable + Readable>(vs: Seq<<T as View>::V>, rest: Seq<u8>)
    requires
        forall|i: int, r: Seq<u8>|
            0 <= i < vs.len() ==> #[trigger] T::spec_read(T::spec_write(vs[i]) + r) == (
                Some(vs[i]),
                r,
            ),
    ensures
        spec_read_many::<T>(spec_write_many::<T>(vs) + rest, vs.len()) == (Some(vs), rest),
    decreases vs.len(),
{
    if vs.len() > 0 {
        let last = vs.last();
        let tail = T::spec_write(last) + rest;
        assert(spec_write_many::<T>(vs) + rest =~= spec_write_many::<T>(vs.drop_last()) + tail);
        assert forall|i: int, r: Seq<u8>|
            0 <= i < vs.drop_last().len() implies #[trigger] T::spec_read(
            T::spec_write(vs.drop_last()[i]) + r) == (Some(vs.drop_last()[i]), r) by {
            assert(vs.drop_last()[i] == vs[i]);
            assert(T::spec_read(T::spec_write(vs[i]) + r) == (Some(vs[i]), r));
        }
        lemma_many_round_trip::<T>(vs.drop_last(), tail);
        assert(T::spec_read(T::spec_write(vs[vs.len() - 1]) + rest) == (
            Some(vs[vs.len() - 1]),
            rest,
        ));
        assert(vs.drop_last().push(last) =~= vs);
    }
}

/// A telemetry packet
#[derive(Debug)]
pub struct TelemetryPacket {
    /// Unix epoch in milliseconds of when packet was sent
    pub unix_timestamp_millis: i64,
    /// Set to true if telemetry map entries are sorted
    pub is_sorted: bool,
    /// Current state of the robot / active opmode
    pub robot_state: RobotOpmodeState,
    /// Optional tag, can be empty string
    pub tag: String,
    pub string_entries: Vec<TelemetryEntry>,
    pub float_entries: Vec<FloatEntry>,
}

/// The mathematical value of a [TelemetryPacket].
pub struct TelemetryPacketView {
    pub unix_timestamp_millis: i64,
    pub is_sorted: bool,
    pub robot_state: RobotOpmodeState,
    pub tag: Seq<char>,
    pub string_entries: Seq<TelemetryEntryView>,
    pub float_entries: Seq<FloatEntryView>,
}

impl View for TelemetryPacket {
    type V = TelemetryPacketView;

    open spec fn view(&self) -> TelemetryPacketView {
        TelemetryPacketView {
            unix_timestamp_millis: self.unix_timestamp_millis,
            is_sorted: self.is_sorted,
            robot_state: self.robot_state,
            tag: self.tag@,
            string_entries: views(self.string_entries@),
            float_entries: views(self.float_entries@),
        }
    }
}

/// The bytes a telemetry packet with this view is written as. The tag length and the
/// entry counts are truncated to 8 bits.
pub open spec fn spec_write_telemetry_packet(v: TelemetryPacketView) -> Seq<u8> {
    <i64 as Writeable>::spec_write(v.unix_timestamp_millis) + <bool as Writeable>::spec_write(
        v.is_sorted,
    ) + <i8 as Writeable>::spec_write(i8_of_state(v.robot_state)) + <u8 as Writeable>::spec_write(
        encode_utf8(v.tag).len() as u8,
    ) + encode_utf8(v.tag) + <u8 as Writeable>::spec_write(v.string_entries.len() as u8)
        + spec_write_many::<TelemetryEntry>(v.string_entries) + <u8 as Writeable>::spec_write(
        v.float_entries.len() as u8,
    ) + spec_write_many::<FloatEntry>(v.float_entries)
}

/// What reading a telemetry packet from `b` yields and what it leaves.
pub open spec fn spec_read_telemetry_packet(b: Seq<u8>) -> (Option<TelemetryPacketView>, Seq<u8>) {
    let (ts, r0) = <i64 as Readable>::spec_read(b);
    if ts is None {
        (None, r0)
    } else {
        let (sorted, r1) = <bool as Readable>::spec_read(r0);
        if sorted is None {
            (None, r1)
        } else {
            let (state, r2) = <i8 as Readable>::spec_read(r1);
            if state is None {
                (None, r2)
            } else {
                let (tag_len, r3) = <u8 as Readable>::spec_read(r2);
                if tag_len is None {
                    (None, r3)
                } else {
                    let (tag, r4) = spec_read_string(r3, tag_len->0 as nat);
                    if tag is None {
                        (None, r4)
                    } else {
                        spec_read_telemetry_entries(ts->0, sorted->0, state->0, tag->0, r4)
                    }
                }
            }
        }
    }
}

/// The entry lists of a telemetry packet whose header fields have been read.
#[verifier::opaque]
pub open spec fn spec_read_telemetry_entries(
    ts: i64,
    sorted: bool,
    state: i8,
    tag: Seq<char>,
    b: Seq<u8>,
) -> (Option<TelemetryPacketView>, Seq<u8>) {
    let (n, r0) = <u8 as Readable>::spec_read(b);
    if n is None {
        (None, r0)
    } else {
        let (strings, r1) = spec_read_many::<TelemetryEntry>(r0, n->0 as nat);
        if strings is None {
            (None, r1)
        } else {
            let (m, r2) = <u8 as Readable>::spec_read(r1);
            if m is None {
                (None, r2)
            } else {
                let (floats, r3) = spec_read_many::<FloatEntry>(r2, m->0 as nat);
                if floats is None {
                    (None, r3)
                } else {
                    (
                        Some(
                            TelemetryPacketView {
                                unix_timestamp_millis: ts,
                                is_sorted: sorted,
                                robot_state: state_of_i8(state),
                                tag,
                                string_entries: strings->0,
                                float_entries: floats->0,
                            },
                        ),
                        r3,
                    )
                }
            }
        }
    }
}

impl Readable for TelemetryPacket {
    open spec fn spec_read(buffer: Seq<u8>) -> (Option<TelemetryPacketView>, Seq<u8>) {
        spec_read_telemetry_packet(buffer)
    }


    fn read_from(buffer: &mut Vec<u8>) -> (res: Option<TelemetryPacket>) {
        reveal(spec_read_telemetry_entries);
        let ghost b0 = buffer@;
        let unix_timestamp_millis = match i64::read_from(buffer) {
            Some(x) => x,
            None => return None,
        };
        let ghost b1 = buffer@;
        assert(<i64 as Readable>::spec_read(b0) == (Some(unix_timestamp_millis), b1));
        let is_sorted = match bool::read_from(buffer) {
            Some(x) => x,
            None => return None,
        };
        let ghost b2 = buffer@;
        assert(<bool as Readable>::spec_read(b1) == (Some(is_sorted), b2));
        let state = match i8::read_from(buffer) {
            Some(x) => x,
            None => return None,
        };
        let ghost b3 = buffer@;
        assert(<i8 as Readable>::spec_read(b2) == (Some(state), b3));
        let tag_length = match u8::read_from(buffer) {
            Some(x) => x,
            None => return None,
        };
        let ghost b4 = buffer@;
        assert(<u8 as Readable>::spec_read(b3) == (Some(tag_length), b4));
        let tag = match read_string_from(buffer, tag_length as usize) {
            Some(x) => x,
            None => return None,
        };
        let ghost b5 = buffer@;
        assert(spec_read_string(b4, tag_length as nat) == (Some(tag@), b5));
        let number_of_string_entries = match u8::read_from(buffer) {
            Some(x) => x,
            None => return None,
        };
        let ghost b6 = buffer@;
        assert(<u8 as Readable>::spec_read(b5) == (Some(number_of_string_entries), b6));
        let string_entries = match read_many::<TelemetryEntry>(buffer, number_of_string_entries) {
            Some(x) => x,
            None => return None,
        };
        let ghost b7 = buffer@;
        assert(spec_read_many::<TelemetryEntry>(b6, number_of_string_entries as nat) == (
            Some(views(string_entries@)),
            b7,
        ));
        let number_of_float_entries = match u8::read_from(buffer) {
            Some(x) => x,
            None => return None,
        };
        let ghost b8 = buffer@;
        assert(<u8 as Readable>::spec_read(b7) == (Some(number_of_float_entries), b8));
        let float_entries = match read_many::<FloatEntry>(buffer, number_of_float_entries) {
            Some(x) => x,
            None => return None,
        };
        Some(
            TelemetryPacket {
                unix_timestamp_millis,
                is_sorted,
                robot_state: RobotOpmodeState::from(state),
                tag,
                string_entries,
                float_entries,
            },
        )
    }
}

impl Writeable for TelemetryPacket {
    open spec fn spec_write(v: TelemetryPacketView) -> Seq<u8> {
        spec_write_telemetry_packet(v)
    }

    fn write_to(&self, buffer: &mut Vec<u8>) {
        let ghost start = buffer@;
        self.unix_timestamp_millis.write_to(buffer);
        self.is_sorted.write_to(buffer);
        let robot_state: i8 = self.robot_state.into();
        assert(robot_state == i8_of_state(self.robot_state));
        robot_state.write_to(buffer);
        let tag_len = self.tag.as_str().as_bytes().len();
        (#[verifier::truncate] (tag_len as u8)).write_to(buffer);
        self.tag.write_to(buffer);
        (#[verifier::truncate] (self.string_entries.len() as u8)).write_to(buffer);
        write_many(&self.string_entries, buffer);
        (#[verifier::truncate] (self.float_entries.len() as u8)).write_to(buffer);
        write_many(&self.float_entries, buffer);
        assert(buffer@ =~= start + spec_write_telemetry_packet(self@));
    }
}

/// A key and its (possibly empty) value
#[derive(Debug, Clone, PartialEq, Eq, PartialOrd, Ord)]
pub struct TelemetryEntry {
    pub key: String,
    /// Note: can be empty string
    pub value: String,
}

/// The mathematical value of a [TelemetryEntry].
pub struct TelemetryEntryView {
    pub key: Seq<char>,
    pub value: Seq<char>,
}

impl View for TelemetryEntry {
    type V = TelemetryEntryView;

    open spec fn view(&self) -> TelemetryEntryView {
        TelemetryEntryView { key: self.key@, value: self.value@ }
    }
}

impl Readable for TelemetryEntry {
    /// The key and then the value, each prefixed by its 16-bit byte length.
    open spec fn spec_read(buffer: Seq<u8>) -> (Option<TelemetryEntryView>, Seq<u8>) {
        let (key, r0) = spec_read_u16_prefixed(buffer);
        if key is None {
            (None, r0)
        } else {
            let (value, r1) = spec_read_u16_prefixed(r0);
            if value is None {
                (None, r1)
            } else {
                (Some(TelemetryEntryView { key: key->0, value: value->0 }), r1)
            }
        }
    }


    fn read_from(buffer: &mut Vec<u8>) -> (res: Option<TelemetryEntry>) {
        let ghost b0 = buffer@;
        let key = match read_u16_prefixed(buffer) {
            Some(x) => x,
            None => return None,
        };
        assert(spec_read_u16_prefixed(b0).0 == Some(key@));
        let value = match read_u16_prefixed(buffer) {
            Some(x) => x,
            None => return None,
        };
        Some(TelemetryEntry { key, value })
    }
}

impl Writeable for TelemetryEntry {
    open spec fn spec_write(v: TelemetryEntryView) -> Seq<u8> {
        spec_write_u16_prefixed(v.key) + spec_write_u16_prefixed(v.value)
    }

    fn write_to(&self, buffer: &mut Vec<u8>) {
        write_u16_prefixed(&self.key, buffer);
        write_u16_prefixed(&self.value, buffer);
        assert(buffer@ =~= old(buffer)@ + spec_write_u16_prefixed(self.key@)
            + spec_write_u16_prefixed(self.value@));
    }
}

/// A key with a single-precision value, held by its bit pattern.
#[derive(Debug, Clone, PartialEq, Eq, PartialOrd)]
pub struct FloatEntry {
    pub key: String,
    /// The bits of an `f32`
    pub value: u32,
}

/// The mathematical value of a [FloatEntry].
pub struct FloatEntryView {
    pub key: Seq<char>,
    pub value: u32,
}

impl View for FloatEntry {
    type V = FloatEntryView;

    open spec fn view(&self) -> FloatEntryView {
        FloatEntryView { key: self.key@, value: self.value }
    }
}

impl Readable for FloatEntry {
    /// The key prefixed by its 16-bit byte length, then the value's four bytes.
    open spec fn spec_read(buffer: Seq<u8>) -> (Option<FloatEntryView>, Seq<u8>) {
        let (key, r0) = spec_read_u16_prefixed(buffer);
        if key is None {
            (None, r0)
        } else {
            let (value, r1) = <u32 as Readable>::spec_read(r0);
            if value is None {
                (None, r1)
            } else {
                (Some(FloatEntryView { key: key->0, value: value->0 }), r1)
            }
        }
    }


    fn read_from(buffer: &mut Vec<u8>) -> (res: Option<FloatEntry>) {
        let ghost b0 = buffer@;
        let key = match read_u16_prefixed(buffer) {
            Some(x) => x,
            None => return None,
        };
        assert(spec_read_u16_prefixed(b0).0 == Some(key@));
        let value = match u32::read_from(buffer) {
            Some(x) => x,
            None => return None,
        };
        Some(FloatEntry { key, value })
    }
}

impl Writeable for FloatEntry {
    open spec fn spec_write(v: FloatEntryView) -> Seq<u8> {
        spec_write_u16_prefixed(v.key) + <u32 as Writeable>::spec_write(v.value)
    }

    fn write_to(&self, buffer: &mut Vec<u8>) {
        write_u16_prefixed(&self.key, buffer);
        self.value.write_to(buffer);
        assert(buffer@ =~= old(buffer)@ + spec_write_u16_prefixed(self.key@)
            + <u32 as Writeable>::spec_write(self.value));
    }
}

/// Whether a telemetry entry can be written and read back: key and value fit their 16-bit
/// length prefixes.
pub open spec fn telemetry_entry_well_formed(e: TelemetryEntryView) -> bool {
    encode_utf8(e.key).len() <= 0xffff && encode_utf8(e.value).len() <= 0xffff
}

/// Reading back a written well-formed telemetry entry gives it back.
pub proof fn lemma_telemetry_entry_round_trip(e: TelemetryEntryView, rest: Seq<u8>)
    requires
        telemetry_entry_well_formed(e),
    ensures
        <TelemetryEntry as Readable>::spec_read(<TelemetryEntry as Writeable>::spec_write(e) + rest)
            == (Some(e), rest),
{
    let t1 = spec_write_u16_prefixed(e.value) + rest;
    assert(<TelemetryEntry as Writeable>::spec_write(e) + rest =~= spec_write_u16_prefixed(e.key)
        + t1);
    lemma_u16_prefixed_round_trip(e.key, t1);
    lemma_u16_prefixed_round_trip(e.value, rest);
}

/// The wire format of a telemetry entry: the key's byte length (big-endian, 16 bits) and its
/// UTF-8 bytes come first, then the value's byte length and its UTF-8 bytes. Reading such
/// bytes gives that key and that value, and leaves what follows them.
pub proof fn lemma_telemetry_entry_wire_format(key: Seq<char>, value: Seq<char>, rest: Seq<u8>)
    requires
        encode_utf8(key).len() <= 0xffff,
        encode_utf8(value).len() <= 0xffff,
    ensures
        <TelemetryEntry as Writeable>::spec_write((TelemetryEntryView { key, value })) == be_u16(
            encode_utf8(key).len() as u16,
        ) + encode_utf8(key) + be_u16(encode_utf8(value).len() as u16) + encode_utf8(value),
        <TelemetryEntry as Readable>::spec_read(
            be_u16(encode_utf8(key).len() as u16) + encode_utf8(key) + be_u16(
                encode_utf8(value).len() as u16,
            ) + encode_utf8(value) + rest,
        ) == (Some((TelemetryEntryView { key, value })), rest),
{
    reveal(spec_write_u16_prefixed);
    let e = TelemetryEntryView { key, value };
    let wire = be_u16(encode_utf8(key).len() as u16) + encode_utf8(key) + be_u16(
        encode_utf8(value).len() as u16,
    ) + encode_utf8(value);
    assert(<TelemetryEntry as Writeable>::spec_write(e) =~= wire);
    assert(wire + rest =~= <TelemetryEntry as Writeable>::spec_write(e) + rest);
    lemma_telemetry_entry_round_trip(e, rest);
}

/// Reading back a written float entry whose key fits its 16-bit length prefix gives it back.
pub proof fn lemma_float_entry_round_trip(e: FloatEntryView, rest: Seq<u8>)
    requires
        encode_utf8(e.key).len() <= 0xffff,
    ensures
        <FloatEntry as Readable>::spec_read(<FloatEntry as Writeable>::spec_write(e) + rest) == (
            Some(e),
            rest,
        ),
{
    let t1 = <u32 as Writeable>::spec_write(e.value) + rest;
    assert(<FloatEntry as Writeable>::spec_write(e) + rest =~= spec_write_u16_prefixed(e.key)
        + t1);
    lemma_u16_prefixed_round_trip(e.key, t1);
    lemma_u32_round_trip(e.value, rest);
}

/// The wire format of a float entry: the key's byte length (big-endian, 16 bits) and its
/// UTF-8 bytes, then the value's four bytes (big-endian). Reading such bytes gives that key
/// and that value, and leaves what follows them.
pub proof fn lemma_float_entry_wire_format(key: Seq<char>, value: u32, rest: Seq<u8>)
    requires
        encode_utf8(key).len() <= 0xffff,
    ensures
        <FloatEntry as Writeable>::spec_write((FloatEntryView { key, value })) == be_u16(
            encode_utf8(key).len() as u16,
        ) + encode_utf8(key) + be_u32(value),
        <FloatEntry as Readable>::spec_read(
            be_u16(encode_utf8(key).len() as u16) + encode_utf8(key) + be_u32(value) + rest,
        ) == (Some((FloatEntryView { key, value })), rest),
{
    reveal(spec_write_u16_prefixed);
    let e = FloatEntryView { key, value };
    let wire = be_u16(encode_utf8(key).len() as u16) + encode_utf8(key) + be_u32(value);
    assert(<FloatEntry as Writeable>::spec_write(e) =~= wire);
    lemma_float_entry_round_trip(e, rest);
}

/// Whether a telemetry packet can be written and read back unchanged: the tag fits its
/// 8-bit length, there are at most 255 entries of each kind, and every key and value fits
/// its 16-bit length.
pub open spec fn telemetry_packet_well_formed(v: TelemetryPacketView) -> bool {
    &&& encode_utf8(v.tag).len() <= 0xff
    &&& v.string_entries.len() <= 0xff
    &&& v.float_entries.len() <= 0xff
    &&& forall|i: int|
        0 <= i < v.string_entries.len() ==> telemetry_entry_well_formed(
            #[trigger] v.string_entries[i],
        )
    &&& forall|i: int|
        0 <= i < v.float_entries.len() ==> encode_utf8(#[trigger] v.float_entries[i].key).len()
            <= 0xffff
}

/// Reading back the written entry lists of a well-formed telemetry packet gives them back.
proof fn lemma_telemetry_entries_round_trip(v: TelemetryPacketView, rest: Seq<u8>)
    requires
        telemetry_packet_well_formed(v),
    ensures
        spec_read_telemetry_entries(
            v.unix_timestamp_millis,
            v.is_sorted,
            i8_of_state(v.robot_state),
            v.tag,
            <u8 as Writeable>::spec_write(v.string_entries.len() as u8) + spec_write_many::<
                TelemetryEntry,
            >(v.string_entries) + <u8 as Writeable>::spec_write(v.float_entries.len() as u8)
                + spec_write_many::<FloatEntry>(v.float_entries) + rest,
        ) == (Some(v), rest),
{
    reveal(spec_read_telemetry_entries);
    let floats = spec_write_many::<FloatEntry>(v.float_entries);
    let strings = spec_write_many::<TelemetryEntry>(v.string_entries);
    let t8 = floats + rest;
    let t7 = <u8 as Writeable>::spec_write(v.float_entries.len() as u8) + t8;
    let t6 = strings + t7;
    let t5 = <u8 as Writeable>::spec_write(v.string_entries.len() as u8) + t6;
    assert(<u8 as Writeable>::spec_write(v.string_entries.len() as u8) + strings
        + <u8 as Writeable>::spec_write(v.float_entries.len() as u8) + floats + rest =~= t5);
    lemma_state_round_trip(v.robot_state);
    lemma_u8_round_trip(v.string_entries.len() as u8, t6);
    assert forall|i: int, r: Seq<u8>| 0 <= i < v.string_entries.len() implies #[trigger]
        <TelemetryEntry as Readable>::spec_read(
        <TelemetryEntry as Writeable>::spec_write(v.string_entries[i]) + r) == (
        Some(v.string_entries[i]),
        r,
    ) by {
        lemma_telemetry_entry_round_trip(v.string_entries[i], r);
    }
    lemma_many_round_trip::<TelemetryEntry>(v.string_entries, t7);
    lemma_u8_round_trip(v.float_entries.len() as u8, t8);
    assert forall|i: int, r: Seq<u8>| 0 <= i < v.float_entries.len() implies #[trigger]
        <FloatEntry as Readable>::spec_read(
        <FloatEntry as Writeable>::spec_write(v.float_entries[i]) + r) == (
        Some(v.float_entries[i]),
        r,
    ) by {
        lemma_float_entry_round_trip(v.float_entries[i], r);
    }
    lemma_many_round_trip::<FloatEntry>(v.float_entries, rest);
}

/// Reading back a written well-formed telemetry packet gives it back and leaves what
/// followed.
#[verifier::spinoff_prover]
pub proof fn lemma_telemetry_packet_round_trip(v: TelemetryPacketView, rest: Seq<u8>)
    requires
        telemetry_packet_well_formed(v),
    ensures
        spec_read_telemetry_packet(spec_write_telemetry_packet(v) + rest) == (Some(v), rest),
{
    let tag = encode_utf8(v.tag);
    let t5 = <u8 as Writeable>::spec_write(v.string_entries.len() as u8) + spec_write_many::<
        TelemetryEntry,
    >(v.string_entries) + <u8 as Writeable>::spec_write(v.float_entries.len() as u8)
        + spec_write_many::<FloatEntry>(v.float_entries) + rest;
    let t4 = tag + t5;
    let t3 = <u8 as Writeable>::spec_write(tag.len() as u8) + t4;
    let t2 = <i8 as Writeable>::spec_write(i8_of_state(v.robot_state)) + t3;
    let t1 = <bool as Writeable>::spec_write(v.is_sorted) + t2;
    let t0 = <i64 as Writeable>::spec_write(v.unix_timestamp_millis) + t1;
    assert(spec_write_telemetry_packet(v) + rest =~= t0);
    lemma_i64_round_trip(v.unix_timestamp_millis, t1);
    lemma_bool_round_trip(v.is_sorted, t2);
    lemma_i8_round_trip(i8_of_state(v.robot_state), t3);
    lemma_u8_round_trip(tag.len() as u8, t4);
    lemma_string_round_trip(v.tag, t5);
    assert(<i64 as Readable>::spec_read(t0) == (Some(v.unix_timestamp_millis), t1));
    assert(<bool as Readable>::spec_read(t1) == (Some(v.is_sorted), t2));
    assert(<i8 as Readable>::spec_read(t2) == (Some(i8_of_state(v.robot_state)), t3));
    assert(<u8 as Readable>::spec_read(t3) == (Some(tag.len() as u8), t4));
    assert((tag.len() as u8) as nat == tag.len());
    assert(spec_read_string(t4, tag.len()) == (Some(v.tag), t5));
    assert(spec_read_telemetry_packet(t0) == spec_read_telemetry_entries(
        v.unix_timestamp_millis,
        v.is_sorted,
        i8_of_state(v.robot_state),
        v.tag,
        t5,
    ));
    lemma_telemetry_entries_round_trip(v, rest);
}

} // verus!
