//! The frame kinds of the protocol.

use vstd::prelude::*;

verus! {

/// The kind of a frame, from the kind byte of its header.
///
/// The ten registered kinds have their own variant; every other byte is
/// `Unregistered`, so that frames of kinds defined later still parse.
#[derive(Copy, Clone, Debug, PartialEq, Eq, Hash, Structural)]
pub enum Kind {
    Data,
    Headers,
    Priority,
    Reset,
    Settings,
    PushPromise,
    Ping,
    GoAway,
    WindowUpdate,
    Continuation,
    Unregistered,
}

/// The kind that a kind byte stands for.
pub open spec fn kind_of(byte: u8) -> Kind {
    if byte == 0 {
        Kind::Data
    } else if byte == 1 {
        Kind::Headers
    } else if byte == 2 {
        Kind::Priority
    } else if byte == 3 {
        Kind::Reset
    } else if byte == 4 {
        Kind::Settings
    } else if byte == 5 {
        Kind::PushPromise
    } else if byte == 6 {
        Kind::Ping
    } else if byte == 7 {
        Kind::GoAway
    } else if byte == 8 {
        Kind::WindowUpdate
    } else if byte == 9 {
        Kind::Continuation
    } else {
        Kind::Unregistered
    }
}

/// The byte that a kind is written as; `Unregistered` is written as 255,
/// so the byte that an unregistered kind was read from is not kept.
pub open spec fn kind_byte(kind: Kind) -> u8 {
    match kind {
        Kind::Data => 0,
        Kind::Headers => 1,
        Kind::Priority => 2,
        Kind::Reset => 3,
        Kind::Settings => 4,
        Kind::PushPromise => 5,
        Kind::Ping => 6,
        Kind::GoAway => 7,
        Kind::WindowUpdate => 8,
        Kind::Continuation => 9,
        Kind::Unregistered => 255,
    }
}

impl Kind {
    /// The kind of a kind byte; never fails.
    pub fn new(byte: u8) -> (r: Kind)
        ensures
            r == kind_of(byte),
    {
        match byte {
            0 => Kind::Data,
            1 => Kind::Headers,
            2 => Kind::Priority,
            3 => Kind::Reset,
            4 => Kind::Settings,
            5 => Kind::PushPromise,
            6 => Kind::Ping,
            7 => Kind::GoAway,
            8 => Kind::WindowUpdate,
            9 => Kind::Continuation,
            _ => Kind::Unregistered,
        }
    }

    /// The kind byte of this kind.
    pub fn encode(&self) -> (r: u8)
        ensures
            r == kind_byte(*self),
    {
        match *self {
            Kind::Data => 0,
            Kind::Headers => 1,
            Kind::Priority => 2,
            Kind::Reset => 3,
            Kind::Settings => 4,
            Kind::PushPromise => 5,
            Kind::Ping => 6,
            Kind::GoAway => 7,
            Kind::WindowUpdate => 8,
            Kind::Continuation => 9,
            Kind::Unregistered => 255,
        }
    }
}

/// A kind byte maps to a registered kind exactly when it is below ten, and
/// each registered kind is written back as the byte it was read from.
pub proof fn lemma_kind_total(byte: u8)
    ensures
        byte < 10 ==> kind_of(byte) != Kind::Unregistered && kind_byte(kind_of(byte)) == byte,
        byte >= 10 ==> kind_of(byte) == Kind::Unregistered,
{
}

/// Writing a kind and reading the byte back gives the same kind.
pub proof fn lemma_kind_round_trip(kind: Kind)
    ensures
        kind_of(kind_byte(kind)) == kind,
{
}

} // verus!
