//! The flag byte of a frame header.

use vstd::prelude::*;
use crate::Error;

verus! {

/// The bits of the flag byte that have a meaning.
pub const VALID_FLAG_BITS: u8 = 0x2D;

/// End of stream on data and header-bearing frames; shares its bit with `ACK`.
pub const END_STREAM: u8 = 0x1;
/// Acknowledgment on settings and ping frames; shares its bit with `END_STREAM`.
pub const ACK: u8 = 0x1;
/// The header block ends in this frame.
pub const END_HEADERS: u8 = 0x4;
/// The payload starts with a pad length and ends in padding.
pub const PADDED: u8 = 0x8;
/// The payload carries the priority fields.
pub const PRIORITY: u8 = 0x20;

/// Whether a flag byte sets no bit outside the known flags.
pub open spec fn flag_bits_valid(bits: u8) -> bool {
    bits & !VALID_FLAG_BITS == 0
}

/// A set of frame flags.
///
/// Bit `0x1` means end of stream on some frame kinds and acknowledgment on
/// others; the set stores only the bit, and which meaning applies is for the
/// caller to decide from the frame's kind.
#[derive(Copy, Clone, Debug, PartialEq, Eq, Hash, Structural)]
pub struct Flag {
    bits: u8,
}

impl View for Flag {
    type V = u8;

    /// The flag byte.
    closed spec fn view(&self) -> u8 {
        self.bits
    }
}

impl Flag {
    /// Every value made by this type's functions has only known bits set.
    pub open spec fn wf(self) -> bool {
        flag_bits_valid(self@)
    }

    /// The flag set of a flag byte, or `BadFlag` with the byte if it sets an
    /// unknown bit.
    pub fn new(data: u8) -> (r: Result<Flag, Error>)
        ensures
            r is Ok <==> flag_bits_valid(data),
            r matches Ok(f) ==> f@ == data && f.wf(),
            r is Err ==> r == Err::<Flag, Error>(Error::BadFlag(data)),
    {
        match Flag::from_bits(data) {
            Some(v) => Ok(v),
            None => Err(Error::BadFlag(data)),
        }
    }

    /// The flag set of a flag byte, or `None` if it sets an unknown bit.
    pub fn from_bits(bits: u8) -> (r: Option<Flag>)
        ensures
            r is Some <==> flag_bits_valid(bits),
            r matches Some(f) ==> f@ == bits && f.wf(),
    {
        if bits & !VALID_FLAG_BITS == 0 {
            Some(Flag { bits })
        } else {
            None
        }
    }

    /// The flag byte of this set.
    pub fn bits(&self) -> (r: u8)
        ensures
            r == self@,
    {
        self.bits
    }

    /// The set with no flags.
    pub fn empty() -> (r: Flag)
        ensures
            r@ == 0,
            r.wf(),
    {
        proof {
            assert(0u8 & !0x2Du8 == 0) by (bit_vector);
        }
        Flag { bits: 0 }
    }

    /// Whether every flag of `other` is in this set.
    pub fn contains(&self, other: Flag) -> (r: bool)
        ensures
            r == (self@ & other@ == other@),
    {
        self.bits & other.bits == other.bits
    }

    /// The flags of this set and of `other` together.
    pub fn union(&self, other: Flag) -> (r: Flag)
        requires
            self.wf(),
            other.wf(),
        ensures
            r@ == self@ | other@,
            r.wf(),
    {
        let bits = self.bits | other.bits;
        proof {
            let a = self.bits;
            let b = other.bits;
            assert(a & !0x2Du8 == 0 && b & !0x2Du8 == 0 ==> (a | b) & !0x2Du8 == 0)
                by (bit_vector);
        }
        Flag { bits }
    }

    /// The acknowledgment flag alone.
    pub fn ack() -> (r: Flag)
        ensures
            r@ == ACK,
            r.wf(),
    {
        proof {
            assert(0x1u8 & !0x2Du8 == 0) by (bit_vector);
        }
        Flag { bits: ACK }
    }

    /// The end-of-stream flag alone.
    pub fn end_stream() -> (r: Flag)
        ensures
            r@ == END_STREAM,
            r.wf(),
    {
        proof {
            assert(0x1u8 & !0x2Du8 == 0) by (bit_vector);
        }
        Flag { bits: END_STREAM }
    }

    /// The end-of-headers flag alone.
    pub fn end_headers() -> (r: Flag)
        ensures
            r@ == END_HEADERS,
            r.wf(),
    {
        proof {
            assert(0x4u8 & !0x2Du8 == 0) by (bit_vector);
        }
        Flag { bits: END_HEADERS }
    }

    /// The padded flag alone.
    pub fn padded() -> (r: Flag)
        ensures
            r@ == PADDED,
            r.wf(),
    {
        proof {
            assert(0x8u8 & !0x2Du8 == 0) by (bit_vector);
        }
        Flag { bits: PADDED }
    }

    /// The priority flag alone.
    pub fn priority() -> (r: Flag)
        ensures
            r@ == PRIORITY,
            r.wf(),
    {
        proof {
            assert(0x20u8 & !0x2Du8 == 0) by (bit_vector);
        }
        Flag { bits: PRIORITY }
    }
}

impl core::ops::BitOr for Flag {
    type Output = Flag;

    fn bitor(self, other: Flag) -> (r: Flag) {
        Flag { bits: self.bits | other.bits }
    }
}

impl vstd::std_specs::ops::BitOrSpecImpl for Flag {
    open spec fn obeys_bitor_spec() -> bool {
        true
    }

    open spec fn bitor_req(self, other: Flag) -> bool {
        true
    }

    closed spec fn bitor_spec(self, other: Flag) -> Flag {
        Flag { bits: (self.bits | other.bits) as u8 }
    }
}

} // verus!
