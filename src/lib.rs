//! Framing codec and connection relay logic for the memcached binary protocol.
//!
//! `MemcachedBinaryCodec` turns a growing receive buffer into packets and
//! packets back into wire bytes; `connection` holds the decisions of a relay
//! direction that drives it.
pub mod buffers;
pub mod codec;
pub mod connection;
pub mod protocol;

pub use codec::{HeaderFault, MemcachedBinaryCodec, MemcachedBinaryCodecError};
pub use connection::{decode_event, echo_reply, step, ConnAction, ConnEvent, ConnState};
pub use protocol::{
    CounterExtras, Magic, Opcode, PacketHeader, ResponseStatus, StoreExtras, HEADER_LEN_BYTES,
};
