//! Gamepad packets, carrying the state of one driver's controller.
//!
//! Analog values (sticks, triggers, touchpad) travel as IEEE-754 single-precision numbers;
//! they are held here by their bit patterns, which is exactly what goes on the wire.

use vstd::prelude::*;

use super::traits::{
    be_u32, be_u64, u32_of_be, u64_of_be, lemma_i32_round_trip, lemma_u32_round_trip, lemma_u64_round_trip, lemma_u8_round_trip,
    Readable, Writeable,
};

verus! {

/// Data structure of a Gamepad packet
///
/// This packet is only sent from the client to the server, about 25x per second.
/// Each analog field holds the bit pattern of an `f32`.
#[derive(Debug, Clone, PartialEq, Eq, Structural, Copy, Default)]
pub struct GamepadPacketData {
    /// eg. 2002
    pub gamepad_id: i32,
    /// millis?
    /// eg. 3790115
    pub timestamp: u64,
    pub left_stick_x: u32,
    pub left_stick_y: u32,
    pub right_stick_x: u32,
    pub right_stick_y: u32,
    pub left_trigger: u32,
    pub right_trigger: u32,
    /// See the `BUTTON_*` flags
    pub button_flags: u32,
    /// 1 / 2
    pub user: u8,
    pub legacy_type: u8,
    pub gamepad_type: u8,
    pub touchpad_finger_1_x: u32,
    pub touchpad_finger_1_y: u32,
    pub touchpad_finger_2_x: u32,
    pub touchpad_finger_2_y: u32,
}

impl View for GamepadPacketData {
    type V = GamepadPacketData;

    open spec fn view(&self) -> GamepadPacketData {
        *self
    }
}

/// The resting state reported for a user with no bound controller.
pub open spec fn spec_default_for_user(user: u8) -> GamepadPacketData {
    GamepadPacketData {
        gamepad_id: 2002,
        timestamp: 0,
        left_stick_x: 0,
        left_stick_y: 0,
        right_stick_x: 0,
        right_stick_y: 0,
        left_trigger: 0,
        right_trigger: 0,
        button_flags: 0,
        user,
        legacy_type: GAMEPAD_TYPE_XBOX_360,
        gamepad_type: GAMEPAD_TYPE_XBOX_360,
        touchpad_finger_1_x: 0,
        touchpad_finger_1_y: 0,
        touchpad_finger_2_x: 0,
        touchpad_finger_2_y: 0,
    }
}

impl GamepadPacketData {
    /// The resting state of a gamepad for `user`: centred sticks, released triggers and
    /// buttons, an Xbox 360 layout and id 2002.
    pub fn default_for_user(user: u8) -> (g: GamepadPacketData)
        ensures
            g == spec_default_for_user(user),
    {
        GamepadPacketData {
            gamepad_id: 2002,
            timestamp: 0,
            left_stick_x: 0,
            left_stick_y: 0,
            right_stick_x: 0,
            right_stick_y: 0,
            left_trigger: 0,
            right_trigger: 0,
            button_flags: 0,
            user,
            legacy_type: GAMEPAD_TYPE_XBOX_360,
            gamepad_type: GAMEPAD_TYPE_XBOX_360,
            touchpad_finger_1_x: 0,
            touchpad_finger_1_y: 0,
            touchpad_finger_2_x: 0,
            touchpad_finger_2_y: 0,
        }
    }
}

/// The bytes a GamepadPacketData with this view is written as.
pub open spec fn spec_write_gamepad_packet_data(v: GamepadPacketData) -> Seq<u8> {
    <u8 as Writeable>::spec_write(5u8)
        + <i32 as Writeable>::spec_write(v.gamepad_id)
        + <u64 as Writeable>::spec_write(v.timestamp)
        + <u32 as Writeable>::spec_write(v.left_stick_x)
        + <u32 as Writeable>::spec_write(v.left_stick_y)
        + <u32 as Writeable>::spec_write(v.right_stick_x)
        + <u32 as Writeable>::spec_write(v.right_stick_y)
        + <u32 as Writeable>::spec_write(v.left_trigger)
        + <u32 as Writeable>::spec_write(v.right_trigger)
        + <u32 as Writeable>::spec_write(v.button_flags)
        + <u8 as Writeable>::spec_write(v.user)
        + <u8 as Writeable>::spec_write(v.legacy_type)
        + <u8 as Writeable>::spec_write(v.gamepad_type)
        + <u32 as Writeable>::spec_write(v.touchpad_finger_1_x)
        + <u32 as Writeable>::spec_write(v.touchpad_finger_1_y)
        + <u32 as Writeable>::spec_write(v.touchpad_finger_2_x)
        + <u32 as Writeable>::spec_write(v.touchpad_finger_2_y)
}

/// How many bytes a read of a GamepadPacketData consumes before failing on a buffer of `len` bytes:
/// every field that still fits is read.
pub open spec fn gamepad_packet_data_consumed(len: nat) -> nat {
    if len < 1 {
        0
    } else     if len < 5 {
        1
    } else     if len < 13 {
        5
    } else     if len < 17 {
        13
    } else     if len < 21 {
        17
    } else     if len < 25 {
        21
    } else     if len < 29 {
        25
    } else     if len < 33 {
        29
    } else     if len < 37 {
        33
    } else     if len < 41 {
        37
    } else     if len < 42 {
        41
    } else     if len < 43 {
        42
    } else     if len < 44 {
        43
    } else     if len < 48 {
        44
    } else     if len < 52 {
        48
    } else     if len < 56 {
        52
    } else     if len < 60 {
        56
    } else {
        60
    }
}

/// What reading a GamepadPacketData from `b` yields and what it leaves: the fields at their fixed
/// offsets when all 60 bytes are there, and otherwise nothing, with the fields that fit
/// consumed.
pub open spec fn spec_read_gamepad_packet_data(b: Seq<u8>) -> (Option<GamepadPacketData>, Seq<u8>) {
    if b.len() < 60 {
        (None, b.skip(gamepad_packet_data_consumed(b.len()) as int))
    } else {
        (Some(GamepadPacketData {
            gamepad_id: u32_of_be(b.skip(1)) as i32,
            timestamp: u64_of_be(b.skip(5)),
            left_stick_x: u32_of_be(b.skip(13)),
            left_stick_y: u32_of_be(b.skip(17)),
            right_stick_x: u32_of_be(b.skip(21)),
            right_stick_y: u32_of_be(b.skip(25)),
            left_trigger: u32_of_be(b.skip(29)),
            right_trigger: u32_of_be(b.skip(33)),
            button_flags: u32_of_be(b.skip(37)),
            user: b.skip(41)[0],
            legacy_type: b.skip(42)[0],
            gamepad_type: b.skip(43)[0],
            touchpad_finger_1_x: u32_of_be(b.skip(44)),
            touchpad_finger_1_y: u32_of_be(b.skip(48)),
            touchpad_finger_2_x: u32_of_be(b.skip(52)),
            touchpad_finger_2_y: u32_of_be(b.skip(56))
        }), b.skip(60))
    }
}

impl Writeable for GamepadPacketData {
    /// A leading 5 byte, then the fields in order.
    open spec fn spec_write(v: GamepadPacketData) -> Seq<u8> {
        spec_write_gamepad_packet_data(v)
    }

    fn write_to(&self, buffer: &mut Vec<u8>) {
        let ghost start = buffer@;
        5u8.write_to(buffer);
        self.gamepad_id.write_to(buffer);
        self.timestamp.write_to(buffer);
        self.left_stick_x.write_to(buffer);
        self.left_stick_y.write_to(buffer);
        self.right_stick_x.write_to(buffer);
        self.right_stick_y.write_to(buffer);
        self.left_trigger.write_to(buffer);
        self.right_trigger.write_to(buffer);
        self.button_flags.write_to(buffer);
        self.user.write_to(buffer);
        self.legacy_type.write_to(buffer);
        self.gamepad_type.write_to(buffer);
        self.touchpad_finger_1_x.write_to(buffer);
        self.touchpad_finger_1_y.write_to(buffer);
        self.touchpad_finger_2_x.write_to(buffer);
        self.touchpad_finger_2_y.write_to(buffer);
        assert(buffer@ =~= start + spec_write_gamepad_packet_data(self@));
    }
}

impl Readable for GamepadPacketData {
    /// The leading byte is read but not checked.
    open spec fn spec_read(buffer: Seq<u8>) -> (Option<GamepadPacketData>, Seq<u8>) {
        spec_read_gamepad_packet_data(buffer)
    }


    fn read_from(buffer: &mut Vec<u8>) -> (res: Option<GamepadPacketData>) {
        let ghost b0 = buffer@;
        let _c0 = match u8::read_from(buffer) {
            Some(x) => x,
            None => return None,
        };
        assert(buffer@ =~= b0.skip(1));
        let gamepad_id = match i32::read_from(buffer) {
            Some(x) => x,
            None => return None,
        };
        assert(buffer@ =~= b0.skip(5));
        let timestamp = match u64::read_from(buffer) {
            Some(x) => x,
            None => return None,
        };
        assert(buffer@ =~= b0.skip(13));
        let left_stick_x = match u32::read_from(buffer) {
            Some(x) => x,
            None => return None,
        };
        assert(buffer@ =~= b0.skip(17));
        let left_stick_y = match u32::read_from(buffer) {
            Some(x) => x,
            None => return None,
        };
        assert(buffer@ =~= b0.skip(21));
        let right_stick_x = match u32::read_from(buffer) {
            Some(x) => x,
            None => return None,
        };
        assert(buffer@ =~= b0.skip(25));
        let right_stick_y = match u32::read_from(buffer) {
            Some(x) => x,
            None => return None,
        };
        assert(buffer@ =~= b0.skip(29));
        let left_trigger = match u32::read_from(buffer) {
            Some(x) => x,
            None => return None,
        };
        assert(buffer@ =~= b0.skip(33));
        let right_trigger = match u32::read_from(buffer) {
            Some(x) => x,
            None => return None,
        };
        assert(buffer@ =~= b0.skip(37));
        let button_flags = match u32::read_from(buffer) {
            Some(x) => x,
            None => return None,
        };
        assert(buffer@ =~= b0.skip(41));
        let user = match u8::read_from(buffer) {
            Some(x) => x,
            None => return None,
        };
        assert(buffer@ =~= b0.skip(42));
        let legacy_type = match u8::read_from(buffer) {
            Some(x) => x,
            None => return None,
        };
        assert(buffer@ =~= b0.skip(43));
        let gamepad_type = match u8::read_from(buffer) {
            Some(x) => x,
            None => return None,
        };
        assert(buffer@ =~= b0.skip(44));
        let touchpad_finger_1_x = match u32::read_from(buffer) {
            Some(x) => x,
            None => return None,
        };
        assert(buffer@ =~= b0.skip(48));
        let touchpad_finger_1_y = match u32::read_from(buffer) {
            Some(x) => x,
            None => return None,
        };
        assert(buffer@ =~= b0.skip(52));
        let touchpad_finger_2_x = match u32::read_from(buffer) {
            Some(x) => x,
            None => return None,
        };
        assert(buffer@ =~= b0.skip(56));
        let touchpad_finger_2_y = match u32::read_from(buffer) {
            Some(x) => x,
            None => return None,
        };
        assert(buffer@ =~= b0.skip(60));
        Some(GamepadPacketData { gamepad_id, timestamp, left_stick_x, left_stick_y, right_stick_x, right_stick_y, left_trigger, right_trigger, button_flags, user, legacy_type, gamepad_type, touchpad_finger_1_x, touchpad_finger_1_y, touchpad_finger_2_x, touchpad_finger_2_y })
    }
}

/// Reading back what a GamepadPacketData wrote gives it back and leaves what followed.
pub proof fn lemma_gamepad_packet_data_round_trip(v: GamepadPacketData, rest: Seq<u8>)
    ensures
        spec_read_gamepad_packet_data(spec_write_gamepad_packet_data(v) + rest) == (Some(v), rest),
{
    let b = spec_write_gamepad_packet_data(v) + rest;
    let t0 = b.skip(0);
    assert(t0 =~= <u8 as Writeable>::spec_write(5u8) + b.skip(1));
    lemma_u8_round_trip(5u8, b.skip(1));
    let t1 = b.skip(1);
    assert(t1 =~= <i32 as Writeable>::spec_write(v.gamepad_id) + b.skip(5));
    lemma_i32_round_trip(v.gamepad_id, b.skip(5));
    let t2 = b.skip(5);
    assert(t2 =~= <u64 as Writeable>::spec_write(v.timestamp) + b.skip(13));
    lemma_u64_round_trip(v.timestamp, b.skip(13));
    let t3 = b.skip(13);
    assert(t3 =~= <u32 as Writeable>::spec_write(v.left_stick_x) + b.skip(17));
    lemma_u32_round_trip(v.left_stick_x, b.skip(17));
    let t4 = b.skip(17);
    assert(t4 =~= <u32 as Writeable>::spec_write(v.left_stick_y) + b.skip(21));
    lemma_u32_round_trip(v.left_stick_y, b.skip(21));
    let t5 = b.skip(21);
    assert(t5 =~= <u32 as Writeable>::spec_write(v.right_stick_x) + b.skip(25));
    lemma_u32_round_trip(v.right_stick_x, b.skip(25));
    let t6 = b.skip(25);
    assert(t6 =~= <u32 as Writeable>::spec_write(v.right_stick_y) + b.skip(29));
    lemma_u32_round_trip(v.right_stick_y, b.skip(29));
    let t7 = b.skip(29);
    assert(t7 =~= <u32 as Writeable>::spec_write(v.left_trigger) + b.skip(33));
    lemma_u32_round_trip(v.left_trigger, b.skip(33));
    let t8 = b.skip(33);
    assert(t8 =~= <u32 as Writeable>::spec_write(v.right_trigger) + b.skip(37));
    lemma_u32_round_trip(v.right_trigger, b.skip(37));
    let t9 = b.skip(37);
    assert(t9 =~= <u32 as Writeable>::spec_write(v.button_flags) + b.skip(41));
    lemma_u32_round_trip(v.button_flags, b.skip(41));
    let t10 = b.skip(41);
    assert(t10 =~= <u8 as Writeable>::spec_write(v.user) + b.skip(42));
    lemma_u8_round_trip(v.user, b.skip(42));
    let t11 = b.skip(42);
    assert(t11 =~= <u8 as Writeable>::spec_write(v.legacy_type) + b.skip(43));
    lemma_u8_round_trip(v.legacy_type, b.skip(43));
    let t12 = b.skip(43);
    assert(t12 =~= <u8 as Writeable>::spec_write(v.gamepad_type) + b.skip(44));
    lemma_u8_round_trip(v.gamepad_type, b.skip(44));
    let t13 = b.skip(44);
    assert(t13 =~= <u32 as Writeable>::spec_write(v.touchpad_finger_1_x) + b.skip(48));
    lemma_u32_round_trip(v.touchpad_finger_1_x, b.skip(48));
    let t14 = b.skip(48);
    assert(t14 =~= <u32 as Writeable>::spec_write(v.touchpad_finger_1_y) + b.skip(52));
    lemma_u32_round_trip(v.touchpad_finger_1_y, b.skip(52));
    let t15 = b.skip(52);
    assert(t15 =~= <u32 as Writeable>::spec_write(v.touchpad_finger_2_x) + b.skip(56));
    lemma_u32_round_trip(v.touchpad_finger_2_x, b.skip(56));
    let t16 = b.skip(56);
    assert(t16 =~= <u32 as Writeable>::spec_write(v.touchpad_finger_2_y) + b.skip(60));
    lemma_u32_round_trip(v.touchpad_finger_2_y, b.skip(60));
    assert(b.skip(60) =~= rest);
}

/// The wire format of a gamepad packet: a leading 5 byte, the gamepad id (big-endian, 32
/// bits), the timestamp (big-endian, 64 bits), the left stick's x and y, the right stick's
/// x and y, the left and right triggers and the button flags (each big-endian, 32 bits),
/// the user, the legacy type and the gamepad type as one byte each, and the touchpad's
/// first finger's x and y and second finger's x and y (each big-endian, 32 bits). Reading
/// such bytes gives the packet back and leaves what follows.
pub proof fn lemma_gamepad_packet_data_wire_format(v: GamepadPacketData, rest: Seq<u8>)
    ensures
        spec_write_gamepad_packet_data(v) == seq![5u8] + be_u32(v.gamepad_id as u32) + be_u64(
            v.timestamp,
        ) + be_u32(v.left_stick_x) + be_u32(v.left_stick_y) + be_u32(v.right_stick_x) + be_u32(
            v.right_stick_y,
        ) + be_u32(v.left_trigger) + be_u32(v.right_trigger) + be_u32(v.button_flags) + seq![
            v.user,
            v.legacy_type,
            v.gamepad_type,
        ] + be_u32(v.touchpad_finger_1_x) + be_u32(v.touchpad_finger_1_y) + be_u32(
            v.touchpad_finger_2_x,
        ) + be_u32(v.touchpad_finger_2_y),
        spec_read_gamepad_packet_data(spec_write_gamepad_packet_data(v) + rest) == (Some(v), rest),
{
    assert(spec_write_gamepad_packet_data(v) =~= seq![5u8] + be_u32(v.gamepad_id as u32) + be_u64(
        v.timestamp,
    ) + be_u32(v.left_stick_x) + be_u32(v.left_stick_y) + be_u32(v.right_stick_x) + be_u32(
        v.right_stick_y,
    ) + be_u32(v.left_trigger) + be_u32(v.right_trigger) + be_u32(v.button_flags) + seq![
        v.user,
        v.legacy_type,
        v.gamepad_type,
    ] + be_u32(v.touchpad_finger_1_x) + be_u32(v.touchpad_finger_1_y) + be_u32(
        v.touchpad_finger_2_x,
    ) + be_u32(v.touchpad_finger_2_y));
    lemma_gamepad_packet_data_round_trip(v, rest);
}

pub const GAMEPAD_TYPE_UNKNOWN: u8 = 0;

pub const GAMEPAD_TYPE_LOGITECH_F310: u8 = 1;

pub const GAMEPAD_TYPE_XBOX_360: u8 = 2;

pub const GAMEPAD_TYPE_SONY_PS4: u8 = 3;

pub const GAMEPAD_TYPE_SONY_PS4_SUPPORTED_BY_KERNEL: u8 = 4;

/// Bit flags in [GamepadPacketData::button_flags] representing which buttons are pressed
pub const BUTTON_RIGHT_BUMPER: u32 = 1;

pub const BUTTON_LEFT_BUMPER: u32 = 2;

pub const BUTTON_BACK: u32 = 4;

pub const BUTTON_START: u32 = 8;

pub const BUTTON_GUIDE: u32 = 16;

pub const BUTTON_Y: u32 = 32;

pub const BUTTON_X: u32 = 64;

pub const BUTTON_B: u32 = 128;

pub const BUTTON_A: u32 = 256;

pub const BUTTON_DPAD_RIGHT: u32 = 512;

pub const BUTTON_DPAD_LEFT: u32 = 1024;

pub const BUTTON_DPAD_DOWN: u32 = 2048;

pub const BUTTON_DPAD_UP: u32 = 4096;

pub const BUTTON_RIGHT_STICK_BUTTON: u32 = 8192;

pub const BUTTON_LEFT_STICK_BUTTON: u32 = 16384;

pub const BUTTON_TOUCHPAD: u32 = 32768;

pub const BUTTON_TOUCHPAD_FINGER_2: u32 = 65536;

pub const BUTTON_TOUCHPAD_FINGER_1: u32 = 131072;

} // verus!
