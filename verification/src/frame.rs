//! Frames on the greeter socket: a four-byte length in the machine's byte
//! order, then that many bytes of payload.

use vstd::endian;
use vstd::prelude::*;

verus! {

/// The four bytes of `n`, least significant first.
pub open spec fn little_endian(n: u32) -> Seq<u8> {
    seq![
        (n % 0x100) as u8,
        (n / 0x100 % 0x100) as u8,
        (n / 0x1_0000 % 0x100) as u8,
        (n / 0x100_0000) as u8,
    ]
}

/// The four bytes of `n` in the machine's byte order.
pub open spec fn native_bytes(n: u32) -> Seq<u8> {
    match endian::endianness() {
        endian::Endian::Little => little_endian(n),
        endian::Endian::Big => little_endian(n).reverse(),
    }
}

/// The number whose bytes, least significant first, are `bytes`.
pub open spec fn little_endian_value(bytes: Seq<u8>) -> int {
    bytes[0] + 0x100 * bytes[1] + 0x1_0000 * bytes[2] + 0x100_0000 * bytes[3]
}

/// The number that four bytes in the machine's byte order stand for.
pub open spec fn native_value(bytes: Seq<u8>) -> int {
    match endian::endianness() {
        endian::Endian::Little => little_endian_value(bytes),
        endian::Endian::Big => little_endian_value(bytes.reverse()),
    }
}

/// `u32::to_ne_bytes`: the number's memory representation in the byte order of
/// the machine that runs the program.
#[verifier::external_body]
fn to_native_bytes(n: u32) -> (bytes: [u8; 4])
    ensures
        bytes@ == native_bytes(n),
{
    n.to_ne_bytes()
}

/// `u32::from_ne_bytes`: the number whose memory representation, in the byte
/// order of the machine that runs the program, is the four bytes.
#[verifier::external_body]
fn from_native_bytes(bytes: [u8; 4]) -> (n: u32)
    ensures
        n == native_value(bytes@),
{
    u32::from_ne_bytes(bytes)
}

/// The length that a frame announces for a payload of `len` bytes: only its
/// low 32 bits fit the header.
pub open spec fn announced(len: nat) -> u32 {
    (len % 0x1_0000_0000) as u32
}

/// A payload as it travels: the header, then the payload.
pub open spec fn framed(payload: Seq<u8>) -> Seq<u8> {
    native_bytes(announced(payload.len())) + payload
}

/// What a reader finds at the start of a byte stream.
pub enum Arrival {
    /// The stream ends before a whole header has come.
    End,
    /// The stream ends inside the payload that a header announced.
    Torn,
    /// A whole frame: its payload, and what follows it.
    Frame { payload: Seq<u8>, rest: Seq<u8> },
}

/// Reads one frame off the start of a stream: a header, then as many bytes as
/// the header announces.
pub open spec fn arrival(stream: Seq<u8>) -> Arrival {
    if stream.len() < 4 {
        Arrival::End
    } else {
        let len = native_value(stream.take(4));
        if stream.len() < 4 + len {
            Arrival::Torn
        } else {
            Arrival::Frame { payload: stream.subrange(4, 4 + len), rest: stream.skip(4 + len) }
        }
    }
}

/// Several payloads as they travel one after the other.
pub open spec fn framed_all(payloads: Seq<Seq<u8>>) -> Seq<u8>
    decreases payloads.len(),
{
    if payloads.len() == 0 {
        Seq::empty()
    } else {
        framed(payloads[0]) + framed_all(payloads.skip(1))
    }
}

/// The payloads of the frames that a reader takes off a stream, up to the
/// first point where no whole frame is left.
pub open spec fn arrivals(stream: Seq<u8>) -> Seq<Seq<u8>>
    decreases stream.len(),
{
    match arrival(stream) {
        Arrival::Frame { payload, rest } => if rest.len() < stream.len() {
            seq![payload] + arrivals(rest)
        } else {
            Seq::empty()
        },
        _ => Seq::empty(),
    }
}

/// Puts a payload into a frame.
pub fn encode(payload: &[u8]) -> (r: Vec<u8>)
    ensures
        r@ == framed(payload@),
{
    let len: u64 = payload.len() as u64;
    assert(len as u32 == len % 0x1_0000_0000) by (bit_vector);
    let header = to_native_bytes(#[verifier::truncate] (len as u32));
    let mut r: Vec<u8> = Vec::new();
    r.extend_from_slice(&header);
    r.extend_from_slice(payload);
    assert(r@ =~= framed(payload@));
    r
}

/// Reads the length out of a frame's header.
pub fn decode_length(header: [u8; 4]) -> (r: u32)
    ensures
        r == native_value(header@),
{
    from_native_bytes(header)
}

proof fn lemma_little_endian(n: u32)
    ensures
        little_endian_value(little_endian(n)) == n,
{
    let bytes = little_endian(n);
    assert(bytes[0] == n % 0x100);
    assert(bytes[1] == n / 0x100 % 0x100);
    assert(bytes[2] == n / 0x1_0000 % 0x100);
    assert(bytes[3] == n / 0x100_0000);
    assert(n == n % 0x100 + 0x100 * (n / 0x100 % 0x100) + 0x1_0000 * (n / 0x1_0000 % 0x100)
        + 0x100_0000 * (n / 0x100_0000)) by (bit_vector);
}

/// The number in a header is the number that was put there.
pub proof fn header_round_trip(n: u32)
    ensures
        native_bytes(n).len() == 4,
        native_value(native_bytes(n)) == n,
{
    lemma_little_endian(n);
    assert(little_endian(n).reverse().reverse() =~= little_endian(n));
}

/// A reader takes off a stream exactly the payload that was framed at its
/// start, and is left with exactly what follows the frame. This holds of every
/// payload whose length fits the header.
pub proof fn frame_round_trip(payload: Seq<u8>, rest: Seq<u8>)
    requires
        payload.len() <= u32::MAX,
    ensures
        arrival(framed(payload) + rest) == (Arrival::Frame { payload, rest }),
{
    header_round_trip(announced(payload.len()));
    let stream = framed(payload) + rest;
    assert(stream.take(4) =~= native_bytes(announced(payload.len())));
    assert(stream.subrange(4, 4 + payload.len() as int) =~= payload);
    assert(stream.skip(4 + payload.len() as int) =~= rest);
}

/// A reader of a stream of frames gets back the payloads that were written, in
/// order, and nothing else.
pub proof fn stream_round_trip(payloads: Seq<Seq<u8>>)
    requires
        forall|i: int| 0 <= i < payloads.len() ==> (#[trigger] payloads[i]).len() <= u32::MAX,
    ensures
        arrivals(framed_all(payloads)) == payloads,
    decreases payloads.len(),
{
    if payloads.len() == 0 {
        assert(arrivals(framed_all(payloads)) =~= payloads);
    } else {
        let first = payloads[0];
        let others = payloads.skip(1);
        assert forall|i: int| 0 <= i < others.len() implies (#[trigger] others[i]).len()
            <= u32::MAX by {
            assert(others[i] == payloads[i + 1]);
        }
        stream_round_trip(others);
        frame_round_trip(first, framed_all(others));
        header_round_trip(announced(first.len()));
        assert(seq![first] + others =~= payloads);
    }
}

/// A frame is four bytes that hold the payload's length, as far as 32 bits hold
/// it, and then the payload, byte by byte.
pub proof fn frame_is_length_and_payload(payload: Seq<u8>)
    ensures
        framed(payload).len() == 4 + payload.len(),
        framed(payload).skip(4) == payload,
        (payload.len() - native_value(framed(payload).take(4))) % 0x1_0000_0000 == 0,
        0 <= native_value(framed(payload).take(4)) <= u32::MAX,
{
    header_round_trip(announced(payload.len()));
    assert(framed(payload).take(4) =~= native_bytes(announced(payload.len())));
    assert(framed(payload).skip(4) =~= payload);
}

} // verus!
