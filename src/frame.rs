//! Frame headers and whole frames.

use vstd::prelude::*;
use crate::{Error, Kind, Flag, StreamIdentifier, FRAME_HEADER_BYTES};
use crate::{stream_id_of, stream_id_bytes};
use crate::flag::flag_bits_valid;
use crate::kind::{kind_of, kind_byte};
use crate::wire::{be_u24, u24_be, STREAM_ID_MASK};
use crate::flag::PRIORITY;
use crate::payload::{Payload, PayloadView, parse_payload, is_padded, has_priority};

verus! {

/// The fixed nine-byte prefix of every frame.
#[derive(Copy, Clone, Debug, PartialEq, Eq, Hash, Structural)]
pub struct FrameHeader {
    /// The length of the payload that follows, below 2^24.
    pub length: u32,
    pub kind: Kind,
    pub flag: Flag,
    pub id: StreamIdentifier,
}

/// A frame header as plain values: the flags are their byte.
pub struct HeaderView {
    pub length: u32,
    pub kind: Kind,
    pub flag: u8,
    pub id: StreamIdentifier,
}

impl View for FrameHeader {
    type V = HeaderView;

    open spec fn view(&self) -> HeaderView {
        HeaderView { length: self.length, kind: self.kind, flag: self.flag@, id: self.id }
    }
}

impl HeaderView {
    /// A header that can be written and read back: a 24-bit length, known
    /// flags only, and a stream identifier with the reserved bit clear.
    pub open spec fn wf(self) -> bool {
        &&& self.length < 0x100_0000
        &&& flag_bits_valid(self.flag)
        &&& self.id.wf()
    }
}

/// What parsing the bytes `s` as a frame header gives.
pub open spec fn parse_header(s: Seq<u8>) -> Result<HeaderView, Error> {
    if s.len() < 9 {
        Err(Error::Short)
    } else if !flag_bits_valid(s[4]) {
        Err(Error::BadFlag(s[4]))
    } else {
        Ok(
            HeaderView {
                length: be_u24(s),
                kind: kind_of(s[3]),
                flag: s[4],
                id: stream_id_of(s.skip(5)),
            },
        )
    }
}

/// The nine bytes that a header is written as.
pub open spec fn header_bytes(h: HeaderView) -> Seq<u8> {
    u24_be(h.length) + seq![kind_byte(h.kind), h.flag] + stream_id_bytes(h.id)
}

impl FrameHeader {
    /// Parses the first nine bytes of `buf` as a frame header.
    pub fn parse(buf: &[u8]) -> (r: Result<FrameHeader, Error>)
        ensures
            r matches Ok(h) ==> parse_header(buf@) == Ok::<HeaderView, Error>(h@) && h.flag.wf(),
            r matches Err(e) ==> parse_header(buf@) == Err::<HeaderView, Error>(e),
    {
        if buf.len() < FRAME_HEADER_BYTES {
            return Err(Error::Short);
        }
        let flag = match Flag::new(buf[4]) {
            Ok(f) => f,
            Err(_) => return Err(Error::BadFlag(buf[4])),
        };
        let rest = vstd::slice::slice_subrange(buf, 5, buf.len());
        Ok(
            FrameHeader {
                length: ((buf[0] as u32) << 16u32) | ((buf[1] as u32) << 8u32) | buf[2] as u32,
                kind: Kind::new(buf[3]),
                flag,
                id: StreamIdentifier::parse(rest),
            },
        )
    }

    /// Writes this header into the first nine bytes of `buf`. Bits of the
    /// length above the low 24 are dropped.
    pub fn encode(&self, buf: &mut [u8])
        requires
            old(buf)@.len() >= 9,
        ensures
            final(buf)@ == header_bytes(self@) + old(buf)@.skip(9),
    {
        crate::wire::encode_u24(buf, self.length);
        buf[3] = self.kind.encode();
        buf[4] = self.flag.bits();
        let (_, tail) = buf.split_at_mut(5);
        self.id.encode(tail);
        assert(final(buf)@ =~= header_bytes(self@) + old(buf)@.skip(9));
    }
}

/// Writing a well-formed header and reading it back gives the same header,
/// whatever bytes follow it.
pub proof fn lemma_header_round_trip(h: HeaderView, rest: Seq<u8>)
    requires
        h.wf(),
    ensures
        parse_header(header_bytes(h) + rest) == Ok::<HeaderView, Error>(h),
{
    let s = header_bytes(h) + rest;
    crate::wire::lemma_u24_round_trip(h.length, s.skip(3));
    assert(u24_be(h.length) + s.skip(3) =~= s);
    assert(s.skip(5) =~= stream_id_bytes(h.id) + rest);
    crate::lemma_stream_id_round_trip(h.id, rest);
    crate::kind::lemma_kind_round_trip(h.kind);
}

/// A frame: its header and its payload. The payload borrows from the buffer
/// it was parsed from.
#[derive(Copy, Clone, Debug, PartialEq, Eq, Hash)]
pub struct Frame<'a> {
    pub header: FrameHeader,
    pub payload: Payload<'a>,
}

/// A frame as plain values.
pub struct FrameView {
    pub header: HeaderView,
    pub payload: PayloadView,
}

impl<'a> View for Frame<'a> {
    type V = FrameView;

    open spec fn view(&self) -> FrameView {
        FrameView { header: self.header@, payload: self.payload@ }
    }
}

impl FrameView {
    /// A frame whose header describes its payload: the payload's kind and
    /// length, no padding, and the priority flag set for a header block
    /// exactly when it carries priority fields (on other kinds, set only on
    /// payloads of at least five bytes).
    pub open spec fn wf(self) -> bool {
        &&& self.header.wf()
        &&& self.payload.wf()
        &&& self.header.length == self.payload.encoded_len()
        &&& self.header.kind == self.payload.kind()
        &&& !is_padded(self.header.flag)
        &&& has_priority(self.header.flag) ==> self.header.length >= 5
        &&& self.header.kind == Kind::Headers ==> (has_priority(self.header.flag)
            <==> self.payload.priority() is Some)
    }
}

/// The bytes that a frame is written as: its header, then its payload.
pub open spec fn frame_bytes(f: FrameView) -> Seq<u8> {
    header_bytes(f.header) + f.payload.encoding()
}

impl<'a> Frame<'a> {
    /// Parses the payload in `buf` of a frame whose header is `header`.
    pub fn parse(header: FrameHeader, buf: &'a [u8]) -> (r: Result<Frame<'a>, Error>)
        ensures
            r matches Ok(f) ==> f.header == header && parse_payload(header@, buf@) == Ok::<
                PayloadView,
                Error,
            >(f.payload@),
            r matches Err(e) ==> parse_payload(header@, buf@) == Err::<PayloadView, Error>(e),
    {
        match Payload::parse(header, buf) {
            Ok(payload) => Ok(Frame { header, payload }),
            Err(e) => Err(e),
        }
    }

    /// Writes this frame, header then payload, at the start of `buf` and
    /// returns the number of bytes written.
    pub fn encode(&self, buf: &mut [u8]) -> (n: usize)
        requires
            old(buf)@.len() >= 9 + self.payload@.encoded_len(),
        ensures
            n == 9 + self.payload@.encoded_len(),
            final(buf)@ == frame_bytes(self@) + old(buf)@.skip(n as int),
    {
        // a slice's length fits in a usize
        assert(buf@.len() == buf.len());
        self.header.encode(buf);
        let (_, tail) = buf.split_at_mut(FRAME_HEADER_BYTES);
        let payload_wrote = self.payload.encode(tail);
        assert(final(buf)@ =~= frame_bytes(self@) + old(buf)@.skip(9 + payload_wrote));
        payload_wrote + FRAME_HEADER_BYTES
    }

    /// The number of bytes `encode` writes for this frame.
    pub fn encoded_len(&self) -> (n: usize)
        requires
            9 + self.payload@.encoded_len() <= usize::MAX,
        ensures
            n == 9 + self.payload@.encoded_len(),
    {
        FRAME_HEADER_BYTES + self.payload.encoded_len()
    }
}

impl FrameHeader {
    /// The header that describes `payload` on stream `id`: its length and
    /// kind, and the priority flag alone when it carries priority fields.
    pub fn for_payload(payload: &Payload, id: StreamIdentifier) -> (r: FrameHeader)
        requires
            payload@.encoded_len() < 0x100_0000,
        ensures
            r.length == payload@.encoded_len(),
            r.kind == payload@.kind(),
            r.flag@ == (if payload@.priority() is Some {
                PRIORITY
            } else {
                0
            }),
            r.flag.wf(),
            r.id == id,
            payload@.wf() && id.wf() ==> (FrameView { header: r@, payload: payload@ }).wf(),
    {
        let flag = if payload.priority().is_some() {
            Flag::priority()
        } else {
            Flag::empty()
        };
        proof {
            assert(PRIORITY & 0x8u8 != 0x8 && 0u8 & 0x8u8 != 0x8) by (bit_vector);
            assert(PRIORITY & 0x20u8 == 0x20 && 0u8 & 0x20u8 != 0x20) by (bit_vector);
        }
        FrameHeader {
            length: payload.encoded_len() as u32,
            kind: payload.kind(),
            flag,
            id,
        }
    }
}

/// Relies on `rand::random`: a `u32` drawn from the thread-local generator;
/// nothing is known of which.
#[verifier::external_body]
fn random_u32() -> (r: u32) {
    rand::random::<u32>()
}

/// A header that describes `payload` as `FrameHeader::for_payload` does, on
/// a stream drawn at random.
pub fn rand_for_payload(payload: &Payload) -> (r: FrameHeader)
    requires
        payload@.encoded_len() < 0x100_0000,
    ensures
        r.length == payload@.encoded_len(),
        r.kind == payload@.kind(),
        r.flag@ == (if payload@.priority() is Some {
            PRIORITY
        } else {
            0
        }),
        r.id.wf(),
        payload@.wf() ==> (FrameView { header: r@, payload: payload@ }).wf(),
{
    let raw = random_u32();
    proof {
        assert(raw & 0x7FFF_FFFFu32 <= 0x7FFF_FFFFu32) by (bit_vector);
    }
    FrameHeader::for_payload(payload, StreamIdentifier(raw & STREAM_ID_MASK))
}

/// Writing a well-formed frame and parsing it back, the header from the
/// first nine bytes and the payload from the rest, gives the same frame,
/// whatever bytes follow it.
pub proof fn lemma_frame_round_trip(f: FrameView, rest: Seq<u8>)
    requires
        f.wf(),
    ensures
        parse_header(frame_bytes(f) + rest) == Ok::<HeaderView, Error>(f.header),
        parse_payload(f.header, (frame_bytes(f) + rest).skip(9)) == Ok::<PayloadView, Error>(
            f.payload,
        ),
{
    let s = frame_bytes(f) + rest;
    lemma_header_round_trip(f.header, f.payload.encoding() + rest);
    assert(s =~= header_bytes(f.header) + (f.payload.encoding() + rest));
    assert(s.skip(9) =~= f.payload.encoding() + rest);
    crate::payload::lemma_payload_round_trip(f.header, f.payload, rest);
}

} // verus!
