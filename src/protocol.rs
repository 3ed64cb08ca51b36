//! The wire vocabulary of the memcached binary protocol: the closed sets of
//! magic bytes, opcodes and response statuses, the decoded packet, and the
//! mathematical description of a packet's wire form.
use crate::buffers::{bytes_as_slice, bytes_contents};
use bytes::Bytes;
use vstd::prelude::*;

verus! {

/// Length of the fixed packet header on the wire.
pub const HEADER_LEN_BYTES: usize = 24;

/// A command code. Any byte outside this table is not an opcode.
#[derive(Debug, Clone, Copy, PartialEq, Eq)]
pub enum Opcode {
    Get,
    SetValue,
    Add,
    Replace,
    Delete,
    Increment,
    Decrement,
    Quit,
    Flush,
    GetQ,
    Noop,
    Version,
    GetK,
    GetKQ,
    Append,
    Prepend,
    Stat,
    SetQ,
    AddQ,
    ReplaceQ,
    DeleteQ,
    IncrementQ,
    DecrementQ,
    QuitQ,
    FlushQ,
    AppendQ,
    PrependQ,
    Verbosity,
    Touch,
    GAT,
    GATQ,
    SaslListMechs,
    SaslAuth,
    SaslStep,
    RGet,
    RSet,
    RSetQ,
    RAppend,
    RAppendQ,
    RPrepend,
    RPrependQ,
    RDelete,
    RDeleteQ,
    RIncr,
    RIncrQ,
    RDecr,
    RDecrQ,
    SetVbucket,
    GetVbucket,
    DelVbucket,
    TapConnect,
    TapMutation,
    TapDelete,
    TapFlush,
    TapOpaque,
    TapVbucketSet,
    TapCheckpointStart,
    TapCheckpointEnd,
}

/// Whether `b` is the code of some opcode.
pub open spec fn opcode_valid(b: u8) -> bool {
    b <= 0x1e || (0x20 <= b && b <= 0x22) || (0x30 <= b && b <= 0x47)
}

impl Opcode {
    pub open spec fn spec_code(self) -> u8 {
        match self {
            Opcode::Get => 0x00,
            Opcode::SetValue => 0x01,
            Opcode::Add => 0x02,
            Opcode::Replace => 0x03,
            Opcode::Delete => 0x04,
            Opcode::Increment => 0x05,
            Opcode::Decrement => 0x06,
            Opcode::Quit => 0x07,
            Opcode::Flush => 0x08,
            Opcode::GetQ => 0x09,
            Opcode::Noop => 0x0a,
            Opcode::Version => 0x0b,
            Opcode::GetK => 0x0c,
            Opcode::GetKQ => 0x0d,
            Opcode::Append => 0x0e,
            Opcode::Prepend => 0x0f,
            Opcode::Stat => 0x10,
            Opcode::SetQ => 0x11,
            Opcode::AddQ => 0x12,
            Opcode::ReplaceQ => 0x13,
            Opcode::DeleteQ => 0x14,
            Opcode::IncrementQ => 0x15,
            Opcode::DecrementQ => 0x16,
            Opcode::QuitQ => 0x17,
            Opcode::FlushQ => 0x18,
            Opcode::AppendQ => 0x19,
            Opcode::PrependQ => 0x1a,
            Opcode::Verbosity => 0x1b,
            Opcode::Touch => 0x1c,
            Opcode::GAT => 0x1d,
            Opcode::GATQ => 0x1e,
            Opcode::SaslListMechs => 0x20,
            Opcode::SaslAuth => 0x21,
            Opcode::SaslStep => 0x22,
            Opcode::RGet => 0x30,
            Opcode::RSet => 0x31,
            Opcode::RSetQ => 0x32,
            Opcode::RAppend => 0x33,
            Opcode::RAppendQ => 0x34,
            Opcode::RPrepend => 0x35,
            Opcode::RPrependQ => 0x36,
            Opcode::RDelete => 0x37,
            Opcode::RDeleteQ => 0x38,
            Opcode::RIncr => 0x39,
            Opcode::RIncrQ => 0x3a,
            Opcode::RDecr => 0x3b,
            Opcode::RDecrQ => 0x3c,
            Opcode::SetVbucket => 0x3d,
            Opcode::GetVbucket => 0x3e,
            Opcode::DelVbucket => 0x3f,
            Opcode::TapConnect => 0x40,
            Opcode::TapMutation => 0x41,
            Opcode::TapDelete => 0x42,
            Opcode::TapFlush => 0x43,
            Opcode::TapOpaque => 0x44,
            Opcode::TapVbucketSet => 0x45,
            Opcode::TapCheckpointStart => 0x46,
            Opcode::TapCheckpointEnd => 0x47,
        }
    }

    /// The byte that stands for this opcode on the wire.
    #[verifier::when_used_as_spec(spec_code)]
    pub fn code(self) -> (r: u8)
        ensures
            r == self.spec_code(),
    {
        match self {
            Opcode::Get => 0x00,
            Opcode::SetValue => 0x01,
            Opcode::Add => 0x02,
            Opcode::Replace => 0x03,
            Opcode::Delete => 0x04,
            Opcode::Increment => 0x05,
            Opcode::Decrement => 0x06,
            Opcode::Quit => 0x07,
            Opcode::Flush => 0x08,
            Opcode::GetQ => 0x09,
            Opcode::Noop => 0x0a,
            Opcode::Version => 0x0b,
            Opcode::GetK => 0x0c,
            Opcode::GetKQ => 0x0d,
            Opcode::Append => 0x0e,
            Opcode::Prepend => 0x0f,
            Opcode::Stat => 0x10,
            Opcode::SetQ => 0x11,
            Opcode::AddQ => 0x12,
            Opcode::ReplaceQ => 0x13,
            Opcode::DeleteQ => 0x14,
            Opcode::IncrementQ => 0x15,
            Opcode::DecrementQ => 0x16,
            Opcode::QuitQ => 0x17,
            Opcode::FlushQ => 0x18,
            Opcode::AppendQ => 0x19,
            Opcode::PrependQ => 0x1a,
            Opcode::Verbosity => 0x1b,
            Opcode::Touch => 0x1c,
            Opcode::GAT => 0x1d,
            Opcode::GATQ => 0x1e,
            Opcode::SaslListMechs => 0x20,
            Opcode::SaslAuth => 0x21,
            Opcode::SaslStep => 0x22,
            Opcode::RGet => 0x30,
            Opcode::RSet => 0x31,
            Opcode::RSetQ => 0x32,
            Opcode::RAppend => 0x33,
            Opcode::RAppendQ => 0x34,
            Opcode::RPrepend => 0x35,
            Opcode::RPrependQ => 0x36,
            Opcode::RDelete => 0x37,
            Opcode::RDeleteQ => 0x38,
            Opcode::RIncr => 0x39,
            Opcode::RIncrQ => 0x3a,
            Opcode::RDecr => 0x3b,
            Opcode::RDecrQ => 0x3c,
            Opcode::SetVbucket => 0x3d,
            Opcode::GetVbucket => 0x3e,
            Opcode::DelVbucket => 0x3f,
            Opcode::TapConnect => 0x40,
            Opcode::TapMutation => 0x41,
            Opcode::TapDelete => 0x42,
            Opcode::TapFlush => 0x43,
            Opcode::TapOpaque => 0x44,
            Opcode::TapVbucketSet => 0x45,
            Opcode::TapCheckpointStart => 0x46,
            Opcode::TapCheckpointEnd => 0x47,
        }
    }

    /// The opcode whose code is `b`, if there is one.
    pub fn from_u8(b: u8) -> (r: Option<Opcode>)
        ensures
            r.is_some() == opcode_valid(b),
            r matches Some(op) ==> op.spec_code() == b,
    {
        match b {
            0x00 => Some(Opcode::Get),
            0x01 => Some(Opcode::SetValue),
            0x02 => Some(Opcode::Add),
            0x03 => Some(Opcode::Replace),
            0x04 => Some(Opcode::Delete),
            0x05 => Some(Opcode::Increment),
            0x06 => Some(Opcode::Decrement),
            0x07 => Some(Opcode::Quit),
            0x08 => Some(Opcode::Flush),
            0x09 => Some(Opcode::GetQ),
            0x0a => Some(Opcode::Noop),
            0x0b => Some(Opcode::Version),
            0x0c => Some(Opcode::GetK),
            0x0d => Some(Opcode::GetKQ),
            0x0e => Some(Opcode::Append),
            0x0f => Some(Opcode::Prepend),
            0x10 => Some(Opcode::Stat),
            0x11 => Some(Opcode::SetQ),
            0x12 => Some(Opcode::AddQ),
            0x13 => Some(Opcode::ReplaceQ),
            0x14 => Some(Opcode::DeleteQ),
            0x15 => Some(Opcode::IncrementQ),
            0x16 => Some(Opcode::DecrementQ),
            0x17 => Some(Opcode::QuitQ),
            0x18 => Some(Opcode::FlushQ),
            0x19 => Some(Opcode::AppendQ),
            0x1a => Some(Opcode::PrependQ),
            0x1b => Some(Opcode::Verbosity),
            0x1c => Some(Opcode::Touch),
            0x1d => Some(Opcode::GAT),
            0x1e => Some(Opcode::GATQ),
            0x20 => Some(Opcode::SaslListMechs),
            0x21 => Some(Opcode::SaslAuth),
            0x22 => Some(Opcode::SaslStep),
            0x30 => Some(Opcode::RGet),
            0x31 => Some(Opcode::RSet),
            0x32 => Some(Opcode::RSetQ),
            0x33 => Some(Opcode::RAppend),
            0x34 => Some(Opcode::RAppendQ),
            0x35 => Some(Opcode::RPrepend),
            0x36 => Some(Opcode::RPrependQ),
            0x37 => Some(Opcode::RDelete),
            0x38 => Some(Opcode::RDeleteQ),
            0x39 => Some(Opcode::RIncr),
            0x3a => Some(Opcode::RIncrQ),
            0x3b => Some(Opcode::RDecr),
            0x3c => Some(Opcode::RDecrQ),
            0x3d => Some(Opcode::SetVbucket),
            0x3e => Some(Opcode::GetVbucket),
            0x3f => Some(Opcode::DelVbucket),
            0x40 => Some(Opcode::TapConnect),
            0x41 => Some(Opcode::TapMutation),
            0x42 => Some(Opcode::TapDelete),
            0x43 => Some(Opcode::TapFlush),
            0x44 => Some(Opcode::TapOpaque),
            0x45 => Some(Opcode::TapVbucketSet),
            0x46 => Some(Opcode::TapCheckpointStart),
            0x47 => Some(Opcode::TapCheckpointEnd),
            _ => None,
        }
    }
}

/// Whether a packet is a command or a reply.
#[derive(Debug, Clone, Copy, PartialEq, Eq)]
pub enum Magic {
    Request,
    Response,
}

/// Whether `b` is the magic byte of a request or of a response.
pub open spec fn magic_valid(b: u8) -> bool {
    b == 0x80 || b == 0x81
}

impl Magic {
    pub open spec fn spec_code(self) -> u8 {
        match self {
            Magic::Request => 0x80,
            Magic::Response => 0x81,
        }
    }

    /// The byte that stands for this magic on the wire.
    #[verifier::when_used_as_spec(spec_code)]
    pub fn code(self) -> (r: u8)
        ensures
            r == self.spec_code(),
    {
        match self {
            Magic::Request => 0x80,
            Magic::Response => 0x81,
        }
    }

    /// The magic whose code is `b`, if there is one.
    pub fn from_u8(b: u8) -> (r: Option<Magic>)
        ensures
            r.is_some() == magic_valid(b),
            r matches Some(m) ==> m.spec_code() == b,
    {
        match b {
            0x80 => Some(Magic::Request),
            0x81 => Some(Magic::Response),
            _ => None,
        }
    }
}

/// The status carried in the vbucket field of a response.
#[derive(Debug, Clone, Copy, PartialEq, Eq)]
pub enum ResponseStatus {
    NoError,
    KeyNotFound,
    KeyExists,
    ValueTooLarge,
    InvalidArguments,
    ItemNotStored,
    IncrDecrOnNonNumericValue,
    TheVbucketBelongsToAnotherServer,
    AuthenticationError,
    AuthenticationContinue,
    UnknownCommand,
    OutOfMemory,
    NotSupported,
    InternalError,
    Busy,
    TemporaryFailure,
}

/// Extras of the storage commands (set, add, replace).
#[derive(Debug, Clone, Copy, PartialEq, Eq)]
pub struct StoreExtras {
    pub flags: u32,
    pub expiration: u32,
}

/// Extras of the counter commands (increment, decrement).
#[derive(Debug, Clone, Copy, PartialEq, Eq)]
pub struct CounterExtras {
    pub amount: u64,
    pub initial_value: u64,
    pub expiration: u32,
}

/// Big-endian value of the two bytes of `s` at `i`.
pub open spec fn be16(s: Seq<u8>, i: int) -> nat {
    s[i] as nat * 256 + s[i + 1] as nat
}

/// Big-endian value of the four bytes of `s` at `i`.
pub open spec fn be32(s: Seq<u8>, i: int) -> nat {
    be16(s, i) * 65536 + be16(s, i + 2)
}

/// Big-endian value of the eight bytes of `s` at `i`.
pub open spec fn be64(s: Seq<u8>, i: int) -> nat {
    be32(s, i) * 4294967296 + be32(s, i + 4)
}

/// The two bytes of `v`, most significant first.
pub open spec fn u16_bytes(v: u16) -> Seq<u8> {
    seq![(v / 256) as u8, (v % 256) as u8]
}

/// The four bytes of `v`, most significant first.
pub open spec fn u32_bytes(v: u32) -> Seq<u8> {
    u16_bytes((v / 65536) as u16) + u16_bytes((v % 65536) as u16)
}

/// The eight bytes of `v`, most significant first.
pub open spec fn u64_bytes(v: u64) -> Seq<u8> {
    u32_bytes((v / 4294967296) as u32) + u32_bytes((v % 4294967296) as u32)
}

/// A packet as a mathematical value: the header fields and the three segments.
pub struct PacketView {
    pub magic: u8,
    pub opcode: u8,
    pub key_length: u16,
    pub extras_length: u8,
    pub data_type: u8,
    pub vbucket_id_or_status: u16,
    pub total_body_length: u32,
    pub opaque: u32,
    pub cas: u64,
    pub extras: Seq<u8>,
    pub key: Seq<u8>,
    pub payload: Seq<u8>,
}

impl PacketView {
    /// The length fields agree with the segments they describe.
    pub open spec fn is_consistent(self) -> bool {
        &&& self.extras.len() == self.extras_length as nat
        &&& self.key.len() == self.key_length as nat
        &&& self.total_body_length as nat == self.extras.len() + self.key.len()
            + self.payload.len()
    }

    /// Magic and opcode are members of their tables.
    pub open spec fn is_valid(self) -> bool {
        magic_valid(self.magic) && opcode_valid(self.opcode)
    }

    /// The 24 header bytes, every multi-byte field big-endian.
    pub open spec fn header_bytes(self) -> Seq<u8> {
        seq![self.magic, self.opcode] + u16_bytes(self.key_length) + seq![
            self.extras_length,
            self.data_type,
        ] + u16_bytes(self.vbucket_id_or_status) + u32_bytes(self.total_body_length)
            + u32_bytes(self.opaque) + u64_bytes(self.cas)
    }

    /// The packet as it stands on the wire: header, extras, key, value.
    pub open spec fn wire(self) -> Seq<u8> {
        self.header_bytes() + self.extras + self.key + self.payload
    }
}

/// One decoded packet. The three segments are shared views of the buffer the
/// packet was read from.
#[derive(Debug, Default)]
pub struct PacketHeader {
    pub magic: u8,
    pub opcode: u8,
    pub key_length: u16,
    pub extras_length: u8,
    pub data_type: u8,
    pub vbucket_id_or_status: u16,
    pub total_body_length: u32,
    pub opaque: u32,
    pub cas: u64,
    pub extras: Bytes,
    pub key: Bytes,
    pub payload: Bytes,
}

impl Clone for PacketHeader {
    /// Another handle on the same packet; the segments are shared, not copied.
    fn clone(&self) -> (r: PacketHeader)
        ensures
            r@ == self@,
    {
        PacketHeader {
            magic: self.magic,
            opcode: self.opcode,
            key_length: self.key_length,
            extras_length: self.extras_length,
            data_type: self.data_type,
            vbucket_id_or_status: self.vbucket_id_or_status,
            total_body_length: self.total_body_length,
            opaque: self.opaque,
            cas: self.cas,
            extras: self.extras.clone(),
            key: self.key.clone(),
            payload: self.payload.clone(),
        }
    }
}

impl PacketHeader {
    /// Whether the length fields agree with the segments: what `encode` needs.
    pub fn has_consistent_lengths(&self) -> (r: bool)
        ensures
            r == self@.is_consistent(),
    {
        let e = bytes_as_slice(&self.extras).len();
        let k = bytes_as_slice(&self.key).len();
        let p = bytes_as_slice(&self.payload).len();
        e == self.extras_length as usize && k == self.key_length as usize
            && self.total_body_length as u128 == e as u128 + k as u128 + p as u128
    }
}

impl View for PacketHeader {
    type V = PacketView;

    open spec fn view(&self) -> PacketView {
        PacketView {
            magic: self.magic,
            opcode: self.opcode,
            key_length: self.key_length,
            extras_length: self.extras_length,
            data_type: self.data_type,
            vbucket_id_or_status: self.vbucket_id_or_status,
            total_body_length: self.total_body_length,
            opaque: self.opaque,
            cas: self.cas,
            extras: bytes_contents(self.extras),
            key: bytes_contents(self.key),
            payload: bytes_contents(self.payload),
        }
    }
}

} // verus!
