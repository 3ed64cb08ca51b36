//! Streaming decode of packets from a growing receive buffer, and their encode.
use crate::buffers::{
    buf_as_slice, buf_contents, buf_extend, buf_freeze, buf_reserve, buf_split_to,
    bytes_as_slice,
};
use crate::protocol::{
    be16, be32, be64, magic_valid, opcode_valid, u16_bytes, u32_bytes, u64_bytes, Magic, Opcode,
    PacketHeader, PacketView, HEADER_LEN_BYTES,
};
use bytes::BytesMut;
use vstd::arithmetic::div_mod::{lemma_fundamental_div_mod, lemma_fundamental_div_mod_converse};
use vstd::prelude::*;

verus! {

#[verifier::external_type_specification]
#[verifier::external_body]
pub struct ExIoError(std::io::Error);

/// Why a complete frame was refused.
#[derive(Debug, Clone, Copy, PartialEq, Eq)]
pub enum HeaderFault {
    /// The magic byte is neither request nor response.
    InvalidMagic(u8),
    /// The opcode byte names no command.
    InvalidOpcode(u8),
    /// Extras and key together claim more bytes than the body holds.
    BodyTooShort { extras_length: u8, key_length: u16, total_body_length: u32 },
}

/// An error met while decoding or encoding packets.
#[derive(Debug)]
pub enum MemcachedBinaryCodecError {
    /// The buffered frame is malformed; the stream cannot be trusted further.
    InvalidHeader(HeaderFault),
    /// The underlying transport failed.
    Io(std::io::Error),
}

impl From<std::io::Error> for MemcachedBinaryCodecError {
    fn from(e: std::io::Error) -> (r: MemcachedBinaryCodecError)
        ensures
            r == MemcachedBinaryCodecError::Io(e),
    {
        MemcachedBinaryCodecError::Io(e)
    }
}

impl vstd::std_specs::convert::FromSpecImpl<std::io::Error> for MemcachedBinaryCodecError {
    open spec fn obeys_from_spec() -> bool {
        true
    }

    open spec fn from_spec(e: std::io::Error) -> MemcachedBinaryCodecError {
        MemcachedBinaryCodecError::Io(e)
    }
}

/// Total length of the frame whose header starts `s`.
pub open spec fn frame_len(s: Seq<u8>) -> nat {
    HEADER_LEN_BYTES as nat + be32(s, 8)
}

/// `s` starts with a whole frame: its header and all the body it announces.
pub open spec fn frame_ready(s: Seq<u8>) -> bool {
    s.len() >= HEADER_LEN_BYTES && s.len() >= frame_len(s)
}

/// Extras and key fit inside the announced body.
pub open spec fn lengths_fit(s: Seq<u8>) -> bool {
    s[4] as nat + be16(s, 2) <= be32(s, 8)
}

/// The fault of the frame that starts `s`, checked in wire order, if any.
pub open spec fn fault_of(s: Seq<u8>) -> Option<HeaderFault> {
    if !magic_valid(s[0]) {
        Some(HeaderFault::InvalidMagic(s[0]))
    } else if !opcode_valid(s[1]) {
        Some(HeaderFault::InvalidOpcode(s[1]))
    } else if !lengths_fit(s) {
        Some(
            HeaderFault::BodyTooShort {
                extras_length: s[4],
                key_length: be16(s, 2) as u16,
                total_body_length: be32(s, 8) as u32,
            },
        )
    } else {
        None
    }
}

/// The packet framed at the front of `s`.
pub open spec fn parse_frame(s: Seq<u8>) -> PacketView {
    let e = s[4] as int;
    let k = be16(s, 2) as int;
    let end = frame_len(s) as int;
    PacketView {
        magic: s[0],
        opcode: s[1],
        key_length: be16(s, 2) as u16,
        extras_length: s[4],
        data_type: s[5],
        vbucket_id_or_status: be16(s, 6) as u16,
        total_body_length: be32(s, 8) as u32,
        opaque: be32(s, 12) as u32,
        cas: be64(s, 16) as u64,
        extras: s.subrange(24, 24 + e),
        key: s.subrange(24 + e, 24 + e + k),
        payload: s.subrange(24 + e + k, end),
    }
}

/// Reads the big-endian `u16` at `i` by composing its bytes.
fn read_be16(s: &[u8], i: usize) -> (r: u16)
    requires
        i + 2 <= s@.len(),
    ensures
        r as nat == be16(s@, i as int),
{
    (s[i] as u16) * 256 + s[i + 1] as u16
}

/// Reads the big-endian `u32` at `i` by composing its bytes.
fn read_be32(s: &[u8], i: usize) -> (r: u32)
    requires
        i + 4 <= s@.len(),
    ensures
        r as nat == be32(s@, i as int),
{
    let n = s.len();
    (read_be16(s, i) as u32) * 65536 + read_be16(s, i + 2) as u32
}

/// Reads the big-endian `u64` at `i` by composing its bytes.
fn read_be64(s: &[u8], i: usize) -> (r: u64)
    requires
        i + 8 <= s@.len(),
    ensures
        r as nat == be64(s@, i as int),
{
    let n = s.len();
    (read_be32(s, i) as u64) * 4294967296 + read_be32(s, i + 4) as u64
}

/// Appends the two bytes of `x`, most significant first.
fn push_be16(v: &mut Vec<u8>, x: u16)
    ensures
        final(v)@ == old(v)@ + u16_bytes(x),
{
    v.push((x / 256) as u8);
    v.push((x % 256) as u8);
    assert(final(v)@ =~= old(v)@ + u16_bytes(x));
}

/// Appends the four bytes of `x`, most significant first.
fn push_be32(v: &mut Vec<u8>, x: u32)
    ensures
        final(v)@ == old(v)@ + u32_bytes(x),
{
    push_be16(v, (x / 65536) as u16);
    push_be16(v, (x % 65536) as u16);
    assert(final(v)@ =~= old(v)@ + u32_bytes(x));
}

/// Appends the eight bytes of `x`, most significant first.
fn push_be64(v: &mut Vec<u8>, x: u64)
    ensures
        final(v)@ == old(v)@ + u64_bytes(x),
{
    push_be32(v, (x / 4294967296) as u32);
    push_be32(v, (x % 4294967296) as u32);
    assert(final(v)@ =~= old(v)@ + u64_bytes(x));
}

/// The 24 header bytes of `h`.
fn header_vec(h: &PacketHeader) -> (r: Vec<u8>)
    ensures
        r@ == h@.header_bytes(),
{
    let mut v: Vec<u8> = Vec::with_capacity(HEADER_LEN_BYTES);
    v.push(h.magic);
    v.push(h.opcode);
    push_be16(&mut v, h.key_length);
    v.push(h.extras_length);
    v.push(h.data_type);
    push_be16(&mut v, h.vbucket_id_or_status);
    push_be32(&mut v, h.total_body_length);
    push_be32(&mut v, h.opaque);
    push_be64(&mut v, h.cas);
    assert(v@ =~= h@.header_bytes());
    v
}

/// Stateless transcoder between a receive buffer and packets.
pub struct MemcachedBinaryCodec {}

impl MemcachedBinaryCodec {
    pub fn new() -> (r: MemcachedBinaryCodec) {
        MemcachedBinaryCodec {  }
    }

    /// Takes the first packet off the front of `src`.
    ///
    /// `Ok(None)` means the buffer does not yet hold a whole frame; the buffer
    /// is then left as it was. A whole frame with a bad magic, a bad opcode or
    /// segment lengths beyond its body is refused, and the buffer is left as it
    /// was too. Otherwise the frame is removed from the buffer and returned,
    /// its segments sharing the buffer's storage.
    pub fn decode(&mut self, src: &mut BytesMut) -> (r: Result<
        Option<PacketHeader>,
        MemcachedBinaryCodecError,
    >)
        ensures
            ({
                let s = buf_contents(*old(src));
                if !frame_ready(s) {
                    &&& r matches Ok(None)
                    &&& buf_contents(*final(src)) == s
                } else if fault_of(s).is_some() {
                    &&& r matches Err(MemcachedBinaryCodecError::InvalidHeader(f))
                    &&& Some(f) == fault_of(s)
                    &&& buf_contents(*final(src)) == s
                } else {
                    &&& r matches Ok(Some(h))
                    &&& h@ == parse_frame(s)
                    &&& buf_contents(*final(src)) == s.subrange(frame_len(s) as int, s.len() as int)
                }
            }),
    {
        let bytes = buf_as_slice(src);
        let len = bytes.len();
        if len < HEADER_LEN_BYTES {
            return Ok(None);
        }
        let total_body_length = read_be32(bytes, 8);
        if (len as u64) < HEADER_LEN_BYTES as u64 + total_body_length as u64 {
            return Ok(None);
        }
        let magic = bytes[0];
        let opcode = bytes[1];
        let key_length = read_be16(bytes, 2);
        let extras_length = bytes[4];
        let data_type = bytes[5];
        let vbucket_id_or_status = read_be16(bytes, 6);
        let opaque = read_be32(bytes, 12);
        let cas = read_be64(bytes, 16);
        if Magic::from_u8(magic).is_none() {
            return Err(MemcachedBinaryCodecError::InvalidHeader(HeaderFault::InvalidMagic(magic)));
        }
        if Opcode::from_u8(opcode).is_none() {
            return Err(
                MemcachedBinaryCodecError::InvalidHeader(HeaderFault::InvalidOpcode(opcode)),
            );
        }
        if extras_length as u32 + key_length as u32 > total_body_length {
            return Err(
                MemcachedBinaryCodecError::InvalidHeader(
                    HeaderFault::BodyTooShort { extras_length, key_length, total_body_length },
                ),
            );
        }
        let ghost s = buf_contents(*src);
        let mut frame = buf_split_to(src, HEADER_LEN_BYTES + total_body_length as usize);
        let _header = buf_split_to(&mut frame, HEADER_LEN_BYTES);
        let extras = buf_freeze(buf_split_to(&mut frame, extras_length as usize));
        let key = buf_freeze(buf_split_to(&mut frame, key_length as usize));
        let payload = buf_freeze(frame);
        let h = PacketHeader {
            magic,
            opcode,
            key_length,
            extras_length,
            data_type,
            vbucket_id_or_status,
            total_body_length,
            opaque,
            cas,
            extras,
            key,
            payload,
        };
        assert(h@.extras =~= parse_frame(s).extras);
        assert(h@.key =~= parse_frame(s).key);
        assert(h@.payload =~= parse_frame(s).payload);
        Ok(Some(h))
    }

    /// Appends the wire form of `item` to `dst`: the header with every
    /// multi-byte field big-endian, then extras, key and value.
    pub fn encode(&mut self, item: PacketHeader, dst: &mut BytesMut) -> (r: Result<
        (),
        MemcachedBinaryCodecError,
    >)
        requires
            item@.is_consistent(),
            buf_contents(*old(dst)).len() + HEADER_LEN_BYTES + item.total_body_length
                <= isize::MAX,
        ensures
            r is Ok,
            buf_contents(*final(dst)) == buf_contents(*old(dst)) + item@.wire(),
    {
        let ghost d = buf_contents(*dst);
        buf_reserve(dst, HEADER_LEN_BYTES + item.total_body_length as usize);
        let head = header_vec(&item);
        buf_extend(dst, head.as_slice());
        if item.extras_length > 0 {
            buf_extend(dst, bytes_as_slice(&item.extras));
        }
        assert(buf_contents(*dst) =~= d + item@.header_bytes() + item@.extras);
        if item.key_length > 0 {
            buf_extend(dst, bytes_as_slice(&item.key));
        }
        assert(buf_contents(*dst) =~= d + item@.header_bytes() + item@.extras + item@.key);
        if item.total_body_length - item.key_length as u32 - item.extras_length as u32 > 0 {
            buf_extend(dst, bytes_as_slice(&item.payload));
        }
        assert(buf_contents(*dst) =~= d + item@.wire());
        Ok(())
    }
}

/// The two bytes at `i`, read big-endian and written back, are the same bytes.
proof fn lemma_be16_bytes(s: Seq<u8>, i: int)
    requires
        0 <= i,
        i + 2 <= s.len(),
    ensures
        be16(s, i) < 65536,
        u16_bytes(be16(s, i) as u16) == s.subrange(i, i + 2),
{
    let v = be16(s, i) as int;
    lemma_fundamental_div_mod_converse(v, 256, s[i] as int, s[i + 1] as int);
    assert(u16_bytes(be16(s, i) as u16) =~= s.subrange(i, i + 2));
}

/// The four bytes at `i`, read big-endian and written back, are the same bytes.
proof fn lemma_be32_bytes(s: Seq<u8>, i: int)
    requires
        0 <= i,
        i + 4 <= s.len(),
    ensures
        be32(s, i) < 4294967296,
        u32_bytes(be32(s, i) as u32) == s.subrange(i, i + 4),
{
    lemma_be16_bytes(s, i);
    lemma_be16_bytes(s, i + 2);
    let v = be32(s, i) as int;
    lemma_fundamental_div_mod_converse(v, 65536, be16(s, i) as int, be16(s, i + 2) as int);
    assert(u32_bytes(be32(s, i) as u32) =~= s.subrange(i, i + 4));
}

/// The eight bytes at `i`, read big-endian and written back, are the same bytes.
proof fn lemma_be64_bytes(s: Seq<u8>, i: int)
    requires
        0 <= i,
        i + 8 <= s.len(),
    ensures
        be64(s, i) < 18446744073709551616,
        u64_bytes(be64(s, i) as u64) == s.subrange(i, i + 8),
{
    lemma_be32_bytes(s, i);
    lemma_be32_bytes(s, i + 4);
    let v = be64(s, i) as int;
    lemma_fundamental_div_mod_converse(
        v,
        4294967296,
        be32(s, i) as int,
        be32(s, i + 4) as int,
    );
    assert(u64_bytes(be64(s, i) as u64) =~= s.subrange(i, i + 8));
}

/// Decoding then encoding gives back the bytes: a whole, well-formed frame at
/// the front of a buffer decodes to a consistent, valid packet whose wire form
/// is exactly that frame.
pub proof fn lemma_decode_then_encode(s: Seq<u8>)
    requires
        frame_ready(s),
        fault_of(s).is_none(),
    ensures
        parse_frame(s).is_consistent(),
        parse_frame(s).is_valid(),
        parse_frame(s).wire() == s.subrange(0, frame_len(s) as int),
{
    let p = parse_frame(s);
    lemma_be16_bytes(s, 2);
    lemma_be16_bytes(s, 6);
    lemma_be32_bytes(s, 8);
    lemma_be32_bytes(s, 12);
    lemma_be64_bytes(s, 16);
    assert(p.header_bytes() =~= s.subrange(0, 24));
    assert(p.wire() =~= s.subrange(0, frame_len(s) as int));
}

/// Two bytes written from `v` read back, big-endian, as `v`.
proof fn lemma_read_u16(s: Seq<u8>, i: int, v: u16)
    requires
        0 <= i,
        i + 2 <= s.len(),
        s.subrange(i, i + 2) == u16_bytes(v),
    ensures
        be16(s, i) == v,
{
    assert(s[i] == s.subrange(i, i + 2)[0]);
    assert(s[i + 1] == s.subrange(i, i + 2)[1]);
    lemma_fundamental_div_mod(v as int, 256);
}

/// Four bytes written from `v` read back, big-endian, as `v`.
proof fn lemma_read_u32(s: Seq<u8>, i: int, v: u32)
    requires
        0 <= i,
        i + 4 <= s.len(),
        s.subrange(i, i + 4) == u32_bytes(v),
    ensures
        be32(s, i) == v,
{
    assert(s.subrange(i, i + 2) =~= s.subrange(i, i + 4).subrange(0, 2));
    assert(s.subrange(i + 2, i + 4) =~= s.subrange(i, i + 4).subrange(2, 4));
    assert(u32_bytes(v).subrange(0, 2) =~= u16_bytes((v / 65536) as u16));
    assert(u32_bytes(v).subrange(2, 4) =~= u16_bytes((v % 65536) as u16));
    lemma_read_u16(s, i, (v / 65536) as u16);
    lemma_read_u16(s, i + 2, (v % 65536) as u16);
    lemma_fundamental_div_mod(v as int, 65536);
}

/// Eight bytes written from `v` read back, big-endian, as `v`.
proof fn lemma_read_u64(s: Seq<u8>, i: int, v: u64)
    requires
        0 <= i,
        i + 8 <= s.len(),
        s.subrange(i, i + 8) == u64_bytes(v),
    ensures
        be64(s, i) == v,
{
    assert(s.subrange(i, i + 4) =~= s.subrange(i, i + 8).subrange(0, 4));
    assert(s.subrange(i + 4, i + 8) =~= s.subrange(i, i + 8).subrange(4, 8));
    assert(u64_bytes(v).subrange(0, 4) =~= u32_bytes((v / 4294967296) as u32));
    assert(u64_bytes(v).subrange(4, 8) =~= u32_bytes((v % 4294967296) as u32));
    lemma_read_u32(s, i, (v / 4294967296) as u32);
    lemma_read_u32(s, i + 4, (v % 4294967296) as u32);
    lemma_fundamental_div_mod(v as int, 4294967296);
}

/// Encoding then decoding gives back the packet: the wire form of a consistent,
/// valid packet is one whole, well-formed frame that decodes to that packet.
pub proof fn lemma_encode_then_decode(p: PacketView)
    requires
        p.is_consistent(),
        p.is_valid(),
    ensures
        frame_ready(p.wire()),
        frame_len(p.wire()) == p.wire().len(),
        fault_of(p.wire()).is_none(),
        parse_frame(p.wire()) == p,
{
    let w = p.wire();
    let h = p.header_bytes();
    assert(h.len() == 24);
    assert(w.subrange(2, 4) =~= u16_bytes(p.key_length));
    assert(w.subrange(6, 8) =~= u16_bytes(p.vbucket_id_or_status));
    assert(w.subrange(8, 12) =~= u32_bytes(p.total_body_length));
    assert(w.subrange(12, 16) =~= u32_bytes(p.opaque));
    assert(w.subrange(16, 24) =~= u64_bytes(p.cas));
    lemma_read_u16(w, 2, p.key_length);
    lemma_read_u16(w, 6, p.vbucket_id_or_status);
    lemma_read_u32(w, 8, p.total_body_length);
    lemma_read_u32(w, 12, p.opaque);
    lemma_read_u64(w, 16, p.cas);
    let q = parse_frame(w);
    assert(q.extras =~= p.extras);
    assert(q.key =~= p.key);
    assert(q.payload =~= p.payload);
}

/// Streaming equivalence: while a frame arrives byte by byte, every proper
/// prefix of it is reported incomplete, and the frame alone decodes exactly as
/// any longer buffer that starts with it.
pub proof fn lemma_streaming_equivalence(s: Seq<u8>, j: int)
    requires
        frame_ready(s),
        0 <= j < frame_len(s),
    ensures
        !frame_ready(s.subrange(0, j)),
        frame_ready(s.subrange(0, frame_len(s) as int)),
        frame_len(s.subrange(0, frame_len(s) as int)) == frame_len(s),
        fault_of(s.subrange(0, frame_len(s) as int)) == fault_of(s),
        fault_of(s).is_none() ==> parse_frame(s.subrange(0, frame_len(s) as int)) == parse_frame(
            s,
        ),
{
    let w = s.subrange(0, frame_len(s) as int);
    let pre = s.subrange(0, j);
    if j >= 24 {
        assert(be32(pre, 8) == be32(s, 8));
    }
    assert(be16(w, 2) == be16(s, 2));
    assert(be16(w, 6) == be16(s, 6));
    assert(be32(w, 8) == be32(s, 8));
    assert(be32(w, 12) == be32(s, 12));
    assert(be64(w, 16) == be64(s, 16));
    if fault_of(s).is_none() {
        assert(parse_frame(w).extras =~= parse_frame(s).extras);
        assert(parse_frame(w).key =~= parse_frame(s).key);
        assert(parse_frame(w).payload =~= parse_frame(s).payload);
    }
}

} // verus!
