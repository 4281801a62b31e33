//! Big-endian binary encoding shared by every packet of the protocol.

use vstd::prelude::*;
use vstd::utf8::*;
use vstd::string::*;

verus! {

/// Big-endian bytes of a `u16`.
pub open spec fn be_u16(v: u16) -> Seq<u8> {
    seq![(v >> 8u16) as u8, v as u8]
}

/// The `u16` whose big-endian bytes start `b`.
pub open spec fn u16_of_be(b: Seq<u8>) -> u16 {
    (((b[0] as u16) << 8u16) | (b[1] as u16)) as u16
}

/// Big-endian bytes of a `u32`.
pub open spec fn be_u32(v: u32) -> Seq<u8> {
    seq![(v >> 24u32) as u8, (v >> 16u32) as u8, (v >> 8u32) as u8, v as u8]
}

/// The `u32` whose big-endian bytes start `b`.
pub open spec fn u32_of_be(b: Seq<u8>) -> u32 {
    (((b[0] as u32) << 24u32) | ((b[1] as u32) << 16u32) | ((b[2] as u32) << 8u32) | (
    b[3] as u32)) as u32
}

/// Big-endian bytes of a `u64`.
pub open spec fn be_u64(v: u64) -> Seq<u8> {
    seq![
        (v >> 56u64) as u8,
        (v >> 48u64) as u8,
        (v >> 40u64) as u8,
        (v >> 32u64) as u8,
        (v >> 24u64) as u8,
        (v >> 16u64) as u8,
        (v >> 8u64) as u8,
        v as u8,
    ]
}

/// The `u64` whose big-endian bytes start `b`.
pub open spec fn u64_of_be(b: Seq<u8>) -> u64 {
    (((b[0] as u64) << 56u64) | ((b[1] as u64) << 48u64) | ((b[2] as u64) << 40u64) | ((
    b[3] as u64) << 32u64) | ((b[4] as u64) << 24u64) | ((b[5] as u64) << 16u64) | ((
    b[6] as u64) << 8u64) | (b[7] as u64)) as u64
}

/// What a fixed-width read of `n` bytes gives: the decoded value and the rest, or
/// nothing (and the buffer untouched) when fewer than `n` bytes are there.
pub open spec fn fixed_read<T>(buffer: Seq<u8>, n: nat, value: T) -> (Option<T>, Seq<u8>) {
    if buffer.len() < n {
        (None, buffer)
    } else {
        (Some(value), buffer.skip(n as int))
    }
}

/// Objects that can be appended to a byte buffer.
pub trait Writeable: View {
    /// The bytes that `write_to` appends for a value with this view.
    spec fn spec_write(v: Self::V) -> Seq<u8>;

    /// Appends self in bytes to the buffer
    fn write_to(&self, buffer: &mut Vec<u8>)
        ensures
            final(buffer)@ == old(buffer)@ + Self::spec_write(self@),
    ;
}

/// Objects that have a fixed size byte representation.
pub trait Sizeable: Writeable {
    /// Returns the written size of the type, used for prefixing the size before the type's data
    fn get_size_bytes() -> (n: u16)
        ensures
            forall|v: Self::V| #[trigger] Self::spec_write(v).len() == n,
    ;
}

/// Objects that can be read from the front of a byte buffer.
pub trait Readable: View + Sized {
    /// What reading from `buffer` yields (`None` on failure) and the bytes that are left.
    spec fn spec_read(buffer: Seq<u8>) -> (Option<Self::V>, Seq<u8>);

    /// Attempts to read self from the start of the buffer, removing the bytes.
    ///
    /// Returns `None` if the buffer is not long enough or the read otherwise failed.
    fn read_from(buffer: &mut Vec<u8>) -> (res: Option<Self>)
        ensures
            final(buffer)@ == Self::spec_read(old(buffer)@).1,
            res is Some <==> Self::spec_read(old(buffer)@).0 is Some,
            res matches Some(v) ==> Self::spec_read(old(buffer)@).0 == Some(v@),
    ;
}

/// Removes the first `n` bytes of `buffer` and returns them.
pub fn take_front(buffer: &mut Vec<u8>, n: usize) -> (head: Vec<u8>)
    requires
        n <= old(buffer)@.len(),
    ensures
        head@ == old(buffer)@.take(n as int),
        final(buffer)@ == old(buffer)@.skip(n as int),
{
    let mut rest = buffer.split_off(n);
    core::mem::swap(buffer, &mut rest);
    rest
}

/// Appends `bytes` to the end of `buffer`.
pub fn append_bytes(buffer: &mut Vec<u8>, bytes: &[u8])
    ensures
        final(buffer)@ == old(buffer)@ + bytes@,
{
    let ghost start = buffer@;
    let mut i: usize = 0;
    while i < bytes.len()
        invariant
            i <= bytes@.len(),
            buffer@ == start + bytes@.take(i as int),
        decreases bytes@.len() - i,
    {
        buffer.push(bytes[i]);
        i += 1;
        assert(bytes@.take(i as int) =~= bytes@.take((i - 1) as int).push(bytes@[i - 1]));
    }
    assert(bytes@.take(i as int) =~= bytes@);
}

impl Writeable for u8 {
    open spec fn spec_write(v: u8) -> Seq<u8> {
        seq![v]
    }

    fn write_to(&self, buffer: &mut Vec<u8>) {
        buffer.push(*self);
    }
}

impl Sizeable for u8 {
    fn get_size_bytes() -> (n: u16) {
        1
    }
}

impl Readable for u8 {
    open spec fn spec_read(buffer: Seq<u8>) -> (Option<u8>, Seq<u8>) {
        fixed_read(buffer, 1, buffer[0])
    }


    fn read_from(buffer: &mut Vec<u8>) -> (res: Option<u8>) {
        if buffer.len() < 1 {
            return None;
        }
        Some(buffer.remove(0))
    }
}

impl Writeable for u16 {
    open spec fn spec_write(v: u16) -> Seq<u8> {
        be_u16(v)
    }

    fn write_to(&self, buffer: &mut Vec<u8>) {
        buffer.push((*self >> 8u16) as u8);
        buffer.push(*self as u8);
    }
}

impl Sizeable for u16 {
    fn get_size_bytes() -> (n: u16) {
        2
    }
}

impl Readable for u16 {
    open spec fn spec_read(buffer: Seq<u8>) -> (Option<u16>, Seq<u8>) {
        fixed_read(buffer, 2, u16_of_be(buffer))
    }


    fn read_from(buffer: &mut Vec<u8>) -> (res: Option<u16>) {
        if buffer.len() < 2 {
            return None;
        }
        let b0 = buffer[0];
        let b1 = buffer[1];
        let _ = take_front(buffer, 2);
        Some((((b0 as u16) << 8u16) | (b1 as u16)) as u16)
    }
}

impl Writeable for u32 {
    open spec fn spec_write(v: u32) -> Seq<u8> {
        be_u32(v)
    }

    fn write_to(&self, buffer: &mut Vec<u8>) {
        let v = *self;
        buffer.push((v >> 24u32) as u8);
        buffer.push((v >> 16u32) as u8);
        buffer.push((v >> 8u32) as u8);
        buffer.push(v as u8);
        assert(buffer@ =~= old(buffer)@ + be_u32(v));
    }
}

impl Sizeable for u32 {
    fn get_size_bytes() -> (n: u16) {
        4
    }
}

impl Readable for u32 {
    open spec fn spec_read(buffer: Seq<u8>) -> (Option<u32>, Seq<u8>) {
        fixed_read(buffer, 4, u32_of_be(buffer))
    }


    fn read_from(buffer: &mut Vec<u8>) -> (res: Option<u32>) {
        if buffer.len() < 4 {
            return None;
        }
        let b0 = buffer[0];
        let b1 = buffer[1];
        let b2 = buffer[2];
        let b3 = buffer[3];
        let _ = take_front(buffer, 4);
        Some((((b0 as u32) << 24u32) | ((b1 as u32) << 16u32) | ((b2 as u32) << 8u32) | (
        b3 as u32)) as u32)
    }
}

impl Writeable for u64 {
    open spec fn spec_write(v: u64) -> Seq<u8> {
        be_u64(v)
    }

    fn write_to(&self, buffer: &mut Vec<u8>) {
        let v = *self;
        buffer.push((v >> 56u64) as u8);
        buffer.push((v >> 48u64) as u8);
        buffer.push((v >> 40u64) as u8);
        buffer.push((v >> 32u64) as u8);
        buffer.push((v >> 24u64) as u8);
        buffer.push((v >> 16u64) as u8);
        buffer.push((v >> 8u64) as u8);
        buffer.push(v as u8);
        assert(buffer@ =~= old(buffer)@ + be_u64(v));
    }
}

impl Sizeable for u64 {
    fn get_size_bytes() -> (n: u16) {
        8
    }
}

impl Readable for u64 {
    open spec fn spec_read(buffer: Seq<u8>) -> (Option<u64>, Seq<u8>) {
        fixed_read(buffer, 8, u64_of_be(buffer))
    }


    fn read_from(buffer: &mut Vec<u8>) -> (res: Option<u64>) {
        if buffer.len() < 8 {
            return None;
        }
        let b0 = buffer[0];
        let b1 = buffer[1];
        let b2 = buffer[2];
        let b3 = buffer[3];
        let b4 = buffer[4];
        let b5 = buffer[5];
        let b6 = buffer[6];
        let b7 = buffer[7];
        let _ = take_front(buffer, 8);
        Some((((b0 as u64) << 56u64) | ((b1 as u64) << 48u64) | ((b2 as u64) << 40u64) | ((
        b3 as u64) << 32u64) | ((b4 as u64) << 24u64) | ((b5 as u64) << 16u64) | ((
        b6 as u64) << 8u64) | (b7 as u64)) as u64)
    }
}

impl Writeable for i8 {
    open spec fn spec_write(v: i8) -> Seq<u8> {
        seq![v as u8]
    }

    fn write_to(&self, buffer: &mut Vec<u8>) {
        buffer.push(*self as u8);
    }
}

impl Sizeable for i8 {
    fn get_size_bytes() -> (n: u16) {
        1
    }
}

impl Readable for i8 {
    open spec fn spec_read(buffer: Seq<u8>) -> (Option<i8>, Seq<u8>) {
        fixed_read(buffer, 1, buffer[0] as i8)
    }


    fn read_from(buffer: &mut Vec<u8>) -> (res: Option<i8>) {
        if buffer.len() < 1 {
            return None;
        }
        Some(buffer.remove(0) as i8)
    }
}

impl Writeable for i16 {
    open spec fn spec_write(v: i16) -> Seq<u8> {
        be_u16(v as u16)
    }

    fn write_to(&self, buffer: &mut Vec<u8>) {
        (*self as u16).write_to(buffer);
    }
}

impl Sizeable for i16 {
    fn get_size_bytes() -> (n: u16) {
        2
    }
}

impl Readable for i16 {
    open spec fn spec_read(buffer: Seq<u8>) -> (Option<i16>, Seq<u8>) {
        fixed_read(buffer, 2, u16_of_be(buffer) as i16)
    }


    fn read_from(buffer: &mut Vec<u8>) -> (res: Option<i16>) {
        match u16::read_from(buffer) {
            Some(v) => Some(v as i16),
            None => None,
        }
    }
}

impl Writeable for i32 {
    open spec fn spec_write(v: i32) -> Seq<u8> {
        be_u32(v as u32)
    }

    fn write_to(&self, buffer: &mut Vec<u8>) {
        (*self as u32).write_to(buffer);
    }
}

impl Sizeable for i32 {
    fn get_size_bytes() -> (n: u16) {
        4
    }
}

impl Readable for i32 {
    open spec fn spec_read(buffer: Seq<u8>) -> (Option<i32>, Seq<u8>) {
        fixed_read(buffer, 4, u32_of_be(buffer) as i32)
    }


    fn read_from(buffer: &mut Vec<u8>) -> (res: Option<i32>) {
        match u32::read_from(buffer) {
            Some(v) => Some(v as i32),
            None => None,
        }
    }
}

impl Writeable for i64 {
    open spec fn spec_write(v: i64) -> Seq<u8> {
        be_u64(v as u64)
    }

    fn write_to(&self, buffer: &mut Vec<u8>) {
        (*self as u64).write_to(buffer);
    }
}

impl Sizeable for i64 {
    fn get_size_bytes() -> (n: u16) {
        8
    }
}

impl Readable for i64 {
    open spec fn spec_read(buffer: Seq<u8>) -> (Option<i64>, Seq<u8>) {
        fixed_read(buffer, 8, u64_of_be(buffer) as i64)
    }


    fn read_from(buffer: &mut Vec<u8>) -> (res: Option<i64>) {
        match u64::read_from(buffer) {
            Some(v) => Some(v as i64),
            None => None,
        }
    }
}

/// The byte a `bool` is written as.
pub open spec fn bool_byte(b: bool) -> u8 {
    if b {
        1
    } else {
        0
    }
}

impl Writeable for bool {
    open spec fn spec_write(v: bool) -> Seq<u8> {
        seq![bool_byte(v)]
    }

    fn write_to(&self, buffer: &mut Vec<u8>) {
        buffer.push(if *self { 1u8 } else { 0u8 });
    }
}

impl Sizeable for bool {
    fn get_size_bytes() -> (n: u16) {
        1
    }
}

impl Readable for bool {
    /// A byte is consumed even when it is neither 0 nor 1.
    open spec fn spec_read(buffer: Seq<u8>) -> (Option<bool>, Seq<u8>) {
        if buffer.len() < 1 {
            (None, buffer)
        } else if buffer[0] == 0 {
            (Some(false), buffer.skip(1))
        } else if buffer[0] == 1 {
            (Some(true), buffer.skip(1))
        } else {
            (None, buffer.skip(1))
        }
    }


    fn read_from(buffer: &mut Vec<u8>) -> (res: Option<bool>) {
        if buffer.len() < 1 {
            return None;
        }
        let byte = buffer.remove(0);
        match byte {
            0 => Some(false),
            1 => Some(true),
            _ => None,
        }
    }
}

impl Writeable for String {
    open spec fn spec_write(v: Seq<char>) -> Seq<u8> {
        encode_utf8(v)
    }

    fn write_to(&self, buffer: &mut Vec<u8>) {
        append_bytes(buffer, self.as_str().as_bytes());
    }
}

/// Reads `size` bytes as a UTF-8 string, if there are that many.
///
/// Returns `None` if the buffer is too short (leaving it untouched) or if the bytes are
/// not valid UTF-8 (after removing them).
pub fn read_string_from(buffer: &mut Vec<u8>, size: usize) -> (res: Option<String>)
    ensures
        final(buffer)@ == spec_read_string(old(buffer)@, size as nat).1,
        res is Some <==> spec_read_string(old(buffer)@, size as nat).0 is Some,
        res matches Some(s) ==> spec_read_string(old(buffer)@, size as nat).0 == Some(s@),
{
    if buffer.len() < size {
        return None;
    }
    let bytes = take_front(buffer, size);
    string_from_utf8(bytes)
}

/// What [read_string_from] yields from `buffer` and what it leaves.
pub open spec fn spec_read_string(buffer: Seq<u8>, size: nat) -> (Option<Seq<char>>, Seq<u8>) {
    if buffer.len() < size {
        (None, buffer)
    } else if valid_utf8(buffer.take(size as int)) {
        (Some(decode_utf8(buffer.take(size as int))), buffer.skip(size as int))
    } else {
        (None, buffer.skip(size as int))
    }
}

/// `String::from_utf8`, keeping the string on success.
///
/// Trusted: the standard library documents that it succeeds exactly on valid UTF-8 and
/// that the string then holds the characters those bytes encode.
#[verifier::external_body]
pub(crate) fn string_from_utf8(bytes: Vec<u8>) -> (res: Option<String>)
    ensures
        res is Some <==> valid_utf8(bytes@),
        res matches Some(s) ==> s@ == decode_utf8(bytes@),
{
    String::from_utf8(bytes).ok()
}

/// Reading back what a `u16` wrote gives the value and leaves what followed.
pub proof fn lemma_u16_round_trip(v: u16, rest: Seq<u8>)
    ensures
        <u16 as Readable>::spec_read(be_u16(v) + rest) == (Some(v), rest),
{
    let b = be_u16(v) + rest;
    let hi = (v >> 8u16) as u8;
    let lo = v as u8;
    assert(b[0] == hi && b[1] == lo);
    assert((((hi as u16) << 8u16) | (lo as u16)) as u16 == v) by (bit_vector)
        requires
            hi == (v >> 8u16) as u8,
            lo == v as u8,
    ;
    assert(b.skip(2) =~= rest);
}

/// Reading back what a `u32` wrote gives the value and leaves what followed.
pub proof fn lemma_u32_round_trip(v: u32, rest: Seq<u8>)
    ensures
        <u32 as Readable>::spec_read(be_u32(v) + rest) == (Some(v), rest),
{
    let b = be_u32(v) + rest;
    let b0 = (v >> 24u32) as u8;
    let b1 = (v >> 16u32) as u8;
    let b2 = (v >> 8u32) as u8;
    let b3 = v as u8;
    assert(b[0] == b0 && b[1] == b1 && b[2] == b2 && b[3] == b3);
    assert((((b0 as u32) << 24u32) | ((b1 as u32) << 16u32) | ((b2 as u32) << 8u32) | (
    b3 as u32)) as u32 == v) by (bit_vector)
        requires
            b0 == (v >> 24u32) as u8,
            b1 == (v >> 16u32) as u8,
            b2 == (v >> 8u32) as u8,
            b3 == v as u8,
    ;
    assert(b.skip(4) =~= rest);
}

/// Reading back what a `u64` wrote gives the value and leaves what followed.
pub proof fn lemma_u64_round_trip(v: u64, rest: Seq<u8>)
    ensures
        <u64 as Readable>::spec_read(be_u64(v) + rest) == (Some(v), rest),
{
    let b = be_u64(v) + rest;
    let b0 = (v >> 56u64) as u8;
    let b1 = (v >> 48u64) as u8;
    let b2 = (v >> 40u64) as u8;
    let b3 = (v >> 32u64) as u8;
    let b4 = (v >> 24u64) as u8;
    let b5 = (v >> 16u64) as u8;
    let b6 = (v >> 8u64) as u8;
    let b7 = v as u8;
    assert(b[0] == b0 && b[1] == b1 && b[2] == b2 && b[3] == b3);
    assert(b[4] == b4 && b[5] == b5 && b[6] == b6 && b[7] == b7);
    assert((((b0 as u64) << 56u64) | ((b1 as u64) << 48u64) | ((b2 as u64) << 40u64) | ((
    b3 as u64) << 32u64) | ((b4 as u64) << 24u64) | ((b5 as u64) << 16u64) | ((
    b6 as u64) << 8u64) | (b7 as u64)) as u64 == v) by (bit_vector)
        requires
            b0 == (v >> 56u64) as u8,
            b1 == (v >> 48u64) as u8,
            b2 == (v >> 40u64) as u8,
            b3 == (v >> 32u64) as u8,
            b4 == (v >> 24u64) as u8,
            b5 == (v >> 16u64) as u8,
            b6 == (v >> 8u64) as u8,
            b7 == v as u8,
    ;
    assert(b.skip(8) =~= rest);
}

/// Reading back what a `u8` wrote gives the value and leaves what followed.
pub proof fn lemma_u8_round_trip(v: u8, rest: Seq<u8>)
    ensures
        <u8 as Readable>::spec_read(seq![v] + rest) == (Some(v), rest),
{
    assert((seq![v] + rest).skip(1) =~= rest);
}

/// Reading back what an `i8` wrote gives the value and leaves what followed.
pub proof fn lemma_i8_round_trip(v: i8, rest: Seq<u8>)
    ensures
        <i8 as Readable>::spec_read(<i8 as Writeable>::spec_write(v) + rest) == (Some(v), rest),
{
    assert((seq![v as u8] + rest).skip(1) =~= rest);
    assert((v as u8) as i8 == v) by (bit_vector);
}

/// Reading back what an `i16` wrote gives the value and leaves what followed.
pub proof fn lemma_i16_round_trip(v: i16, rest: Seq<u8>)
    ensures
        <i16 as Readable>::spec_read(<i16 as Writeable>::spec_write(v) + rest) == (Some(v), rest),
{
    lemma_u16_round_trip(v as u16, rest);
    assert((v as u16) as i16 == v) by (bit_vector);
}

/// Reading back what an `i32` wrote gives the value and leaves what followed.
pub proof fn lemma_i32_round_trip(v: i32, rest: Seq<u8>)
    ensures
        <i32 as Readable>::spec_read(<i32 as Writeable>::spec_write(v) + rest) == (Some(v), rest),
{
    lemma_u32_round_trip(v as u32, rest);
    assert((v as u32) as i32 == v) by (bit_vector);
}

/// Reading back what an `i64` wrote gives the value and leaves what followed.
pub proof fn lemma_i64_round_trip(v: i64, rest: Seq<u8>)
    ensures
        <i64 as Readable>::spec_read(<i64 as Writeable>::spec_write(v) + rest) == (Some(v), rest),
{
    lemma_u64_round_trip(v as u64, rest);
    assert((v as u64) as i64 == v) by (bit_vector);
}

/// Reading back what a `bool` wrote gives the value and leaves what followed.
pub proof fn lemma_bool_round_trip(v: bool, rest: Seq<u8>)
    ensures
        <bool as Readable>::spec_read(<bool as Writeable>::spec_write(v) + rest) == (Some(v), rest),
{
    assert((seq![bool_byte(v)] + rest).skip(1) =~= rest);
}

/// Reading a string of the length it was written with gives it back and leaves what
/// followed.
pub proof fn lemma_string_round_trip(s: Seq<char>, rest: Seq<u8>)
    ensures
        spec_read_string(encode_utf8(s) + rest, encode_utf8(s).len()) == (Some(s), rest),
{
    let b = encode_utf8(s) + rest;
    let n = encode_utf8(s).len();
    assert(b.take(n as int) =~= encode_utf8(s));
    assert(b.skip(n as int) =~= rest);
    encode_utf8_valid_utf8(s);
    encode_utf8_decode_utf8(s);
}

} // verus!
