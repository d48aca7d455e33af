//! A parser and encoder for the HTTP/2 framing layer.
//!
//! Frames are read from, and written into, caller-owned byte buffers. A parsed
//! frame borrows every variable-length field from the buffer it came from.
//! Each codec states what it reads or writes over the byte-level model in
//! [`wire`], and the library proves that encoding and then parsing a valid
//! frame gives the frame back.

use vstd::prelude::*;
use crate::wire::{be_u32, u32_be, STREAM_ID_MASK};

pub mod wire;
pub mod kind;
pub mod flag;
pub mod frame;
pub mod payload;

pub use crate::flag::Flag;
pub use crate::kind::Kind;
pub use crate::frame::{Frame, FrameHeader, rand_for_payload};
pub use crate::payload::{Payload, Priority, Setting, SettingIdentifier, Settings};

verus! {

/// Errors that can occur while parsing an HTTP/2 frame.
#[derive(Copy, Clone, Debug, PartialEq, Eq, Hash, Structural)]
pub enum Error {
    /// Fewer bytes were available than the header or the payload needs.
    Short,
    /// The flag byte has bits set outside the known flags.
    BadFlag(u8),
    /// An unsupported frame kind. Unknown kinds parse as `Kind::Unregistered`,
    /// so the codec itself never returns this.
    BadKind(u8),
    /// The pad length is not smaller than the payload length.
    TooMuchPadding(u8),
    /// The payload is shorter than its kind and flags require.
    PayloadLengthTooShort,
    /// A settings payload whose length is not a multiple of six.
    PartialSettingLength,
    /// A payload whose length is not the one size its kind allows.
    InvalidPayloadLength,
}

/// The number of bytes in a frame header.
pub const FRAME_HEADER_BYTES: usize = 9;

/// The identifier of a stream: 31 bits, the top bit of the field being reserved.
#[derive(Copy, Clone, Debug, PartialEq, Eq, Hash, Structural)]
pub struct StreamIdentifier(pub u32);

/// The stream identifier in the first four bytes of `s`, with the reserved
/// top bit cleared.
pub open spec fn stream_id_of(s: Seq<u8>) -> StreamIdentifier {
    StreamIdentifier(be_u32(s) & STREAM_ID_MASK)
}

/// The four bytes that a stream identifier is written as; the reserved top
/// bit is always clear.
pub open spec fn stream_id_bytes(id: StreamIdentifier) -> Seq<u8> {
    u32_be(id.0 & STREAM_ID_MASK)
}

impl StreamIdentifier {
    /// Whether the reserved top bit is clear, as on every parsed identifier.
    pub open spec fn wf(self) -> bool {
        self.0 <= STREAM_ID_MASK
    }

    /// Reads a stream identifier from the first four bytes of `buf`,
    /// ignoring the reserved top bit.
    pub fn parse(buf: &[u8]) -> (r: StreamIdentifier)
        requires
            buf@.len() >= 4,
        ensures
            r == stream_id_of(buf@),
            r.wf(),
    {
        let v = crate::wire::read_u32(buf);
        proof {
            assert(v & 0x7FFF_FFFFu32 <= 0x7FFF_FFFFu32) by (bit_vector);
        }
        StreamIdentifier(v & STREAM_ID_MASK)
    }

    /// Writes this identifier into the first four bytes of `buf`, with the
    /// reserved top bit clear, and returns the number of bytes written.
    pub fn encode(&self, buf: &mut [u8]) -> (n: usize)
        requires
            old(buf)@.len() >= 4,
        ensures
            n == 4,
            final(buf)@ == stream_id_bytes(*self) + old(buf)@.skip(4),
    {
        crate::wire::encode_u32(buf, self.0 & STREAM_ID_MASK)
    }
}

/// Two four-byte fields that differ at most in the top bit hold the same
/// stream identifier.
pub proof fn lemma_stream_id_ignores_reserved_bit(a: Seq<u8>, b: Seq<u8>)
    requires
        a.len() >= 4,
        b.len() >= 4,
        a[0] & 0x7F == b[0] & 0x7F,
        a[1] == b[1],
        a[2] == b[2],
        a[3] == b[3],
    ensures
        stream_id_of(a) == stream_id_of(b),
{
    let (a0, a1, a2, a3, b0) = (a[0], a[1], a[2], a[3], b[0]);
    assert(a0 & 0x7F == b0 & 0x7F ==> (((a0 as u32) << 24u32) | ((a1 as u32) << 16u32) | ((
    a2 as u32) << 8u32) | (a3 as u32)) & 0x7FFF_FFFF == (((b0 as u32) << 24u32) | ((a1 as u32)
        << 16u32) | ((a2 as u32) << 8u32) | (a3 as u32)) & 0x7FFF_FFFF) by (bit_vector);
}

/// Writing a stream identifier whose reserved bit is clear and reading it
/// back gives the same identifier.
pub proof fn lemma_stream_id_round_trip(id: StreamIdentifier, rest: Seq<u8>)
    requires
        id.wf(),
    ensures
        stream_id_of(stream_id_bytes(id) + rest) == id,
{
    let v = id.0;
    assert(v <= 0x7FFF_FFFF ==> v & 0x7FFF_FFFF == v) by (bit_vector);
    crate::wire::lemma_u32_round_trip(v, rest);
}

/// An error code, as carried by reset and go-away frames.
#[derive(Copy, Clone, Debug, PartialEq, Eq, Hash, Structural)]
pub struct ErrorCode(pub u32);

/// Error classes of the protocol.
pub enum HttpError {
    Protocol,
    Internal,
    FlowControlError,
    SettingsTimeout,
}

impl ErrorCode {
    /// Reads an error code from the first four bytes of `buf`.
    pub fn parse(buf: &[u8]) -> (r: ErrorCode)
        requires
            buf@.len() >= 4,
        ensures
            r.0 == be_u32(buf@),
    {
        ErrorCode(crate::wire::read_u32(buf))
    }

    /// Writes this code into the first four bytes of `buf` and returns the
    /// number of bytes written.
    pub fn encode(&self, buf: &mut [u8]) -> (n: usize)
        requires
            old(buf)@.len() >= 4,
        ensures
            n == 4,
            final(buf)@ == u32_be(self.0) + old(buf)@.skip(4),
    {
        crate::wire::encode_u32(buf, self.0)
    }
}

/// The increment of a window update.
///
/// All 32 bits are kept: unlike a stream identifier, the top bit is not
/// cleared on parse, and a caller that wants the 31-bit increment clears it.
#[derive(Copy, Clone, Debug, PartialEq, Eq, Hash, Structural)]
pub struct SizeIncrement(pub u32);

impl SizeIncrement {
    /// Reads an increment from the first four bytes of `buf`, top bit included.
    pub fn parse(buf: &[u8]) -> (r: SizeIncrement)
        requires
            buf@.len() >= 4,
        ensures
            r.0 == be_u32(buf@),
    {
        SizeIncrement(crate::wire::read_u32(buf))
    }

    /// Writes this increment into the first four bytes of `buf` and returns
    /// the number of bytes written.
    pub fn encode(&self, buf: &mut [u8]) -> (n: usize)
        requires
            old(buf)@.len() >= 4,
        ensures
            n == 4,
            final(buf)@ == u32_be(self.0) + old(buf)@.skip(4),
    {
        crate::wire::encode_u32(buf, self.0)
    }
}

} // verus!
