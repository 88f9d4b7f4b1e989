//! Decoding of the fixed 12-byte fragment header.
//!
//! The wire format is big-endian throughout: a 16-bit type code at offset 0,
//! a 16-bit chunk index at offset 2, a 32-bit frame id at offset 4 and a
//! 32-bit stream id at offset 8. The payload follows from offset 12 on.

use vstd::prelude::*;
use vstd::slice::slice_subrange;
use vstd::slice::slice_to_vec;

verus! {

/// Type code of a First fragment: it begins a new image.
pub const CODE_FIRST: u16 = 0x9060;

/// Type code of a Middle fragment: its payload is appended to the image.
pub const CODE_MIDDLE: u16 = 0x8060;

/// Type code of an End fragment: it is appended and completes the image.
pub const CODE_END: u16 = 0x80e0;

/// Big-endian 16-bit value held by the two bytes of `s` at offsets `i`, `i + 1`.
pub open spec fn be16_at(s: Seq<u8>, i: int) -> int
    recommends
        0 <= i,
        i + 2 <= s.len(),
{
    (s[i] as int) * 0x100 + (s[i + 1] as int)
}

/// Big-endian 32-bit value held by the four bytes of `s` at offsets `i` .. `i + 4`.
pub open spec fn be32_at(s: Seq<u8>, i: int) -> int
    recommends
        0 <= i,
        i + 4 <= s.len(),
{
    be16_at(s, i) * 0x10000 + be16_at(s, i + 2)
}

/// Whether `code` is one of the three recognized fragment type codes.
pub open spec fn recognized_code(code: int) -> bool {
    ||| code == CODE_FIRST as int
    ||| code == CODE_MIDDLE as int
    ||| code == CODE_END as int
}

/// Position of a fragment within the fragment sequence of one image.
pub enum PacketType {
    First,
    Middle,
    End,
}

impl PacketType {
    /// The wire code that encodes this packet type.
    pub open spec fn code(self) -> int {
        match self {
            PacketType::First => CODE_FIRST as int,
            PacketType::Middle => CODE_MIDDLE as int,
            PacketType::End => CODE_END as int,
        }
    }

    /// Human-readable name of this packet type, for diagnostics.
    pub fn label(&self) -> (r: String)
        ensures
            *self is First ==> r@ == "FirstPacket"@,
            *self is Middle ==> r@ == "MiddlePacket"@,
            *self is End ==> r@ == "EndPacket"@,
    {
        let r = match self {
            PacketType::First => "FirstPacket".to_string(),
            PacketType::Middle => "MiddlePacket".to_string(),
            PacketType::End => "EndPacket".to_string(),
        };
        proof {
            vstd::string::to_string_from_display_ensures_for_str("FirstPacket", r);
            vstd::string::to_string_from_display_ensures_for_str("MiddlePacket", r);
            vstd::string::to_string_from_display_ensures_for_str("EndPacket", r);
        }
        r
    }
}

/// One decoded fragment: the typed header fields together with the full
/// received datagram (header included) as `buffer`.
pub struct Frame {
    pub packet_type: PacketType,
    pub stream_number: u32,
    pub frame_number: u32,
    pub chunk_number: u16,
    pub buffer: Vec<u8>,
}

impl Frame {
    /// A fragment always carries at least the 12-byte header it was decoded
    /// from.
    pub open spec fn wf(self) -> bool {
        self.buffer@.len() >= 12
    }
}

/// Big-endian 16-bit read at the start of `buf`.
pub fn u8_to_u16(buf: &[u8]) -> (r: u16)
    requires
        buf@.len() >= 2,
    ensures
        r as int == be16_at(buf@, 0),
{
    (buf[0] as u16) * 0x100 + (buf[1] as u16)
}

/// Big-endian 32-bit read at the start of `buf`.
pub fn u8_to_u32(buf: &[u8]) -> (r: u32)
    requires
        buf@.len() >= 4,
    ensures
        r as int == be32_at(buf@, 0),
{
    (u8_to_u16(slice_subrange(buf, 0, 2)) as u32) * 0x10000 + (u8_to_u16(
        slice_subrange(buf, 2, 4),
    ) as u32)
}

/// The two bytes that encode `v` big-endian.
pub open spec fn be16_bytes(v: u16) -> Seq<u8> {
    seq![(v / 0x100) as u8, (v % 0x100) as u8]
}

/// The four bytes that encode `v` big-endian.
pub open spec fn be32_bytes(v: u32) -> Seq<u8> {
    be16_bytes((v / 0x10000) as u16) + be16_bytes((v % 0x10000) as u16)
}

/// The 12-byte wire header that carries a type code, a chunk index, a frame id
/// and a stream id.
pub open spec fn encode_header(code: u16, chunk: u16, frame: u32, stream: u32) -> Seq<u8> {
    be16_bytes(code) + be16_bytes(chunk) + be32_bytes(frame) + be32_bytes(stream)
}

proof fn lemma_be16_bytes_value(v: u16)
    ensures
        be16_bytes(v).len() == 2,
        be16_at(be16_bytes(v), 0) == v,
{
    assert(v as int == (v as int / 0x100) * 0x100 + (v as int % 0x100)) by (nonlinear_arith);
}

proof fn lemma_be32_bytes_value(v: u32)
    ensures
        be32_bytes(v).len() == 4,
        be32_at(be32_bytes(v), 0) == v,
{
    let hi = (v / 0x10000) as u16;
    let lo = (v % 0x10000) as u16;
    lemma_be16_bytes_value(hi);
    lemma_be16_bytes_value(lo);
    assert(be16_at(be32_bytes(v), 0) == hi);
    assert(be16_at(be32_bytes(v), 2) == lo);
    assert(v as int == (v as int / 0x10000) * 0x10000 + (v as int % 0x10000))
        by (nonlinear_arith);
}

/// Header round-trip: decoding the big-endian encoding of a type code, chunk
/// index, frame id and stream id recovers exactly those four values, whatever
/// payload follows the header. Together with the contract of `decode`, a
/// recognized code therefore decodes to a fragment holding the encoded fields.
pub proof fn lemma_header_round_trip(code: u16, chunk: u16, frame: u32, stream: u32, payload: Seq<u8>)
    ensures
        ({
            let d = encode_header(code, chunk, frame, stream) + payload;
            &&& d.len() == 12 + payload.len()
            &&& be16_at(d, 0) == code
            &&& be16_at(d, 2) == chunk
            &&& be32_at(d, 4) == frame
            &&& be32_at(d, 8) == stream
        }),
{
    let d = encode_header(code, chunk, frame, stream) + payload;
    lemma_be16_bytes_value(code);
    lemma_be16_bytes_value(chunk);
    lemma_be32_bytes_value(frame);
    lemma_be32_bytes_value(stream);
    assert(be16_at(d, 0) == be16_at(be16_bytes(code), 0));
    assert(be16_at(d, 2) == be16_at(be16_bytes(chunk), 0));
    assert(be32_at(d, 4) == be32_at(be32_bytes(frame), 0));
    assert(be32_at(d, 8) == be32_at(be32_bytes(stream), 0));
}

/// Parse one raw datagram into a typed fragment, or reject it.
///
/// A datagram shorter than 12 bytes cannot hold a header; one whose type code
/// is not recognized is silently dropped. Otherwise every header field is
/// decoded and the whole datagram is kept as the fragment's buffer.
pub fn decode(datagram: &[u8]) -> (r: Option<Frame>)
    ensures
        r is Some <==> datagram@.len() >= 12 && recognized_code(be16_at(datagram@, 0)),
        r matches Some(f) ==> {
            &&& f.packet_type.code() == be16_at(datagram@, 0)
            &&& f.chunk_number as int == be16_at(datagram@, 2)
            &&& f.frame_number as int == be32_at(datagram@, 4)
            &&& f.stream_number as int == be32_at(datagram@, 8)
            &&& f.buffer@ == datagram@
            &&& f.wf()
        },
{
    if datagram.len() < 12 {
        return None;
    }
    let packet_type = match u8_to_u16(slice_subrange(datagram, 0, 2)) {
        0x9060 => PacketType::First,
        0x8060 => PacketType::Middle,
        0x80e0 => PacketType::End,
        _ => {
            return None;
        },
    };
    Some(
        Frame {
            packet_type,
            chunk_number: u8_to_u16(slice_subrange(datagram, 2, 4)),
            frame_number: u8_to_u32(slice_subrange(datagram, 4, 8)),
            stream_number: u8_to_u32(slice_subrange(datagram, 8, 12)),
            buffer: slice_to_vec(datagram),
        },
    )
}

} // verus!
