//! The decisions of one relay direction of a connection, as a state machine
//! from state and event to next state and action. The caller performs the
//! action (a read, a transform, a write) and reports back what happened.
use crate::buffers::bytes_empty;
use crate::codec::MemcachedBinaryCodecError;
use crate::protocol::{PacketHeader, PacketView};
use vstd::prelude::*;

verus! {

/// Where a relay direction stands.
#[derive(Debug, Clone, Copy, PartialEq, Eq)]
pub enum ConnState {
    /// Waiting for a whole frame in the receive buffer.
    AwaitingFrame,
    /// A frame was decoded and is being transformed.
    Decoded,
    /// The transformed frame is being written out.
    Forwarded,
    /// Ended cleanly.
    Closed,
    /// Ended on an error.
    Failed,
}

/// What happened since the last step.
#[derive(Debug, Clone, Copy, PartialEq, Eq)]
pub enum ConnEvent {
    /// The buffer does not hold a whole frame yet.
    NeedMoreData,
    /// A frame was taken off the buffer.
    FrameDecoded,
    /// The buffered frame is malformed.
    FramingError,
    /// The transform produced a packet.
    Transformed,
    /// The transform refused the packet.
    TransformFailed,
    /// The encoded packet was written and flushed.
    Written,
    /// The peer closed its side; `partial` tells whether part of a frame was
    /// left in the buffer.
    EndOfStream { partial: bool },
    /// A read or a write failed.
    TransportFailed,
    /// The paired direction of the same connection has ended.
    PeerFinished,
}

/// What the caller is to do next.
#[derive(Debug, Clone, Copy, PartialEq, Eq)]
pub enum ConnAction {
    /// Read more bytes into the buffer, then decode.
    Read,
    /// Decode from the buffer as it is.
    Decode,
    /// Apply the transform to the decoded packet.
    Transform,
    /// Encode the packet and write it, flushing before the next frame.
    Write,
    /// Release buffer and sockets; nothing more happens on this direction.
    Shutdown,
}

impl ConnState {
    pub open spec fn spec_is_terminal(self) -> bool {
        self == ConnState::Closed || self == ConnState::Failed
    }

    /// Whether the direction has ended, cleanly or not.
    #[verifier::when_used_as_spec(spec_is_terminal)]
    pub fn is_terminal(self) -> (r: bool)
        ensures
            r == self.spec_is_terminal(),
    {
        match self {
            ConnState::Closed | ConnState::Failed => true,
            _ => false,
        }
    }
}

/// The transition table of a relay direction.
///
/// An ended direction stays ended. A transport failure fails it from any
/// state; the end of the paired direction closes it. A framing error is fatal:
/// no attempt is made to resynchronise on a stream whose framing was lost. An
/// event that cannot come in the current state fails the direction too.
pub open spec fn transition(s: ConnState, e: ConnEvent) -> (ConnState, ConnAction) {
    if s.spec_is_terminal() {
        (s, ConnAction::Shutdown)
    } else {
        match (s, e) {
            (_, ConnEvent::TransportFailed) => (ConnState::Failed, ConnAction::Shutdown),
            (_, ConnEvent::PeerFinished) => (ConnState::Closed, ConnAction::Shutdown),
            (ConnState::AwaitingFrame, ConnEvent::NeedMoreData) => (
                ConnState::AwaitingFrame,
                ConnAction::Read,
            ),
            (ConnState::AwaitingFrame, ConnEvent::FrameDecoded) => (
                ConnState::Decoded,
                ConnAction::Transform,
            ),
            (ConnState::AwaitingFrame, ConnEvent::FramingError) => (
                ConnState::Failed,
                ConnAction::Shutdown,
            ),
            (ConnState::AwaitingFrame, ConnEvent::EndOfStream { partial }) => if partial {
                (ConnState::Failed, ConnAction::Shutdown)
            } else {
                (ConnState::Closed, ConnAction::Shutdown)
            },
            (ConnState::Decoded, ConnEvent::Transformed) => (
                ConnState::Forwarded,
                ConnAction::Write,
            ),
            (ConnState::Forwarded, ConnEvent::Written) => (
                ConnState::AwaitingFrame,
                ConnAction::Decode,
            ),
            _ => (ConnState::Failed, ConnAction::Shutdown),
        }
    }
}

/// One step of a relay direction.
pub fn step(s: ConnState, e: ConnEvent) -> (r: (ConnState, ConnAction))
    ensures
        r == transition(s, e),
{
    if s.is_terminal() {
        return (s, ConnAction::Shutdown);
    }
    match (s, e) {
        (_, ConnEvent::TransportFailed) => (ConnState::Failed, ConnAction::Shutdown),
        (_, ConnEvent::PeerFinished) => (ConnState::Closed, ConnAction::Shutdown),
        (ConnState::AwaitingFrame, ConnEvent::NeedMoreData) => (
            ConnState::AwaitingFrame,
            ConnAction::Read,
        ),
        (ConnState::AwaitingFrame, ConnEvent::FrameDecoded) => (
            ConnState::Decoded,
            ConnAction::Transform,
        ),
        (ConnState::AwaitingFrame, ConnEvent::FramingError) => (
            ConnState::Failed,
            ConnAction::Shutdown,
        ),
        (ConnState::AwaitingFrame, ConnEvent::EndOfStream { partial }) => if partial {
            (ConnState::Failed, ConnAction::Shutdown)
        } else {
            (ConnState::Closed, ConnAction::Shutdown)
        },
        (ConnState::Decoded, ConnEvent::Transformed) => (ConnState::Forwarded, ConnAction::Write),
        (ConnState::Forwarded, ConnEvent::Written) => (ConnState::AwaitingFrame, ConnAction::Decode),
        _ => (ConnState::Failed, ConnAction::Shutdown),
    }
}

/// The event that an outcome of `decode` reports.
pub fn decode_event(r: &Result<Option<PacketHeader>, MemcachedBinaryCodecError>) -> (e: ConnEvent)
    ensures
        e == (match r {
            Ok(None) => ConnEvent::NeedMoreData,
            Ok(Some(_)) => ConnEvent::FrameDecoded,
            Err(MemcachedBinaryCodecError::InvalidHeader(_)) => ConnEvent::FramingError,
            Err(MemcachedBinaryCodecError::Io(_)) => ConnEvent::TransportFailed,
        }),
{
    match r {
        Ok(None) => ConnEvent::NeedMoreData,
        Ok(Some(_)) => ConnEvent::FrameDecoded,
        Err(MemcachedBinaryCodecError::InvalidHeader(_)) => ConnEvent::FramingError,
        Err(MemcachedBinaryCodecError::Io(_)) => ConnEvent::TransportFailed,
    }
}

/// A bare response to `request`: same opcode, data type, opaque and CAS, with
/// status zero and no extras, key or value.
pub fn echo_reply(request: &PacketHeader) -> (r: PacketHeader)
    ensures
        r@ == (PacketView {
            magic: 0x81,
            opcode: request.opcode,
            key_length: 0,
            extras_length: 0,
            data_type: request.data_type,
            vbucket_id_or_status: 0,
            total_body_length: 0,
            opaque: request.opaque,
            cas: request.cas,
            extras: Seq::empty(),
            key: Seq::empty(),
            payload: Seq::empty(),
        }),
        r@.is_consistent(),
{
    PacketHeader {
        magic: 0x81,
        opcode: request.opcode,
        key_length: 0,
        extras_length: 0,
        data_type: request.data_type,
        vbucket_id_or_status: 0,
        total_body_length: 0,
        opaque: request.opaque,
        cas: request.cas,
        extras: bytes_empty(),
        key: bytes_empty(),
        payload: bytes_empty(),
    }
}

} // verus!
