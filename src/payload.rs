//! Frame payloads: the ten registered layouts and the unregistered one.

use vstd::prelude::*;
use crate::{Error, Kind, ErrorCode, SizeIncrement, StreamIdentifier};
use crate::{stream_id_of, stream_id_bytes};
use crate::frame::{FrameHeader, HeaderView};
use crate::flag::{Flag, PADDED, PRIORITY};
use crate::wire::{be_u16, be_u32, be_u64, u16_be, u32_be, u64_be, STREAM_ID_MASK};

verus! {

/// A frame payload. Variable-length fields are views into the buffer the
/// payload was parsed from; the payload cannot outlive that buffer.
#[derive(Copy, Clone, Debug, PartialEq, Eq, Hash)]
pub enum Payload<'a> {
    Data { data: &'a [u8] },
    Headers { priority: Option<Priority>, block: &'a [u8] },
    Priority(Priority),
    Reset(ErrorCode),
    Settings(Settings<'a>),
    PushPromise { promised: StreamIdentifier, block: &'a [u8] },
    Ping(u64),
    GoAway { last: StreamIdentifier, error: ErrorCode, data: &'a [u8] },
    WindowUpdate(SizeIncrement),
    Continuation(&'a [u8]),
    Unregistered(&'a [u8]),
}

/// A payload as plain values: each view is the sequence of its bytes.
pub enum PayloadView {
    Data { data: Seq<u8> },
    Headers { priority: Option<Priority>, block: Seq<u8> },
    Priority(Priority),
    Reset(ErrorCode),
    Settings(Seq<u8>),
    PushPromise { promised: StreamIdentifier, block: Seq<u8> },
    Ping(u64),
    GoAway { last: StreamIdentifier, error: ErrorCode, data: Seq<u8> },
    WindowUpdate(SizeIncrement),
    Continuation(Seq<u8>),
    Unregistered(Seq<u8>),
}

impl<'a> View for Payload<'a> {
    type V = PayloadView;

    open spec fn view(&self) -> PayloadView {
        match *self {
            Payload::Data { data } => PayloadView::Data { data: data@ },
            Payload::Headers { priority, block } => PayloadView::Headers {
                priority,
                block: block@,
            },
            Payload::Priority(p) => PayloadView::Priority(p),
            Payload::Reset(e) => PayloadView::Reset(e),
            Payload::Settings(s) => PayloadView::Settings(s@),
            Payload::PushPromise { promised, block } => PayloadView::PushPromise {
                promised,
                block: block@,
            },
            Payload::Ping(v) => PayloadView::Ping(v),
            Payload::GoAway { last, error, data } => PayloadView::GoAway {
                last,
                error,
                data: data@,
            },
            Payload::WindowUpdate(inc) => PayloadView::WindowUpdate(inc),
            Payload::Continuation(block) => PayloadView::Continuation(block@),
            Payload::Unregistered(block) => PayloadView::Unregistered(block@),
        }
    }
}

impl PayloadView {
    /// The frame kind this payload belongs to.
    pub open spec fn kind(self) -> Kind {
        match self {
            PayloadView::Data { .. } => Kind::Data,
            PayloadView::Headers { .. } => Kind::Headers,
            PayloadView::Priority(..) => Kind::Priority,
            PayloadView::Reset(..) => Kind::Reset,
            PayloadView::Settings(..) => Kind::Settings,
            PayloadView::PushPromise { .. } => Kind::PushPromise,
            PayloadView::Ping(..) => Kind::Ping,
            PayloadView::GoAway { .. } => Kind::GoAway,
            PayloadView::WindowUpdate(..) => Kind::WindowUpdate,
            PayloadView::Continuation(..) => Kind::Continuation,
            PayloadView::Unregistered(..) => Kind::Unregistered,
        }
    }

    /// The priority fields the payload carries, if any.
    pub open spec fn priority(self) -> Option<Priority> {
        match self {
            PayloadView::Priority(p) => Some(p),
            PayloadView::Headers { priority, .. } => priority,
            _ => None,
        }
    }

    /// A payload that parsing can give: stream identifiers with the reserved
    /// bit clear, and settings that are whole records.
    pub open spec fn wf(self) -> bool {
        match self {
            PayloadView::Headers { priority, .. } => priority matches Some(p) ==> p.wf(),
            PayloadView::Priority(p) => p.wf(),
            PayloadView::Settings(b) => b.len() % 6 == 0,
            PayloadView::PushPromise { promised, .. } => promised.wf(),
            PayloadView::GoAway { last, .. } => last.wf(),
            _ => true,
        }
    }

    /// The number of bytes the payload is written as.
    pub open spec fn encoded_len(self) -> nat {
        match self {
            PayloadView::Data { data } => data.len(),
            PayloadView::Headers { priority, block } => if priority is Some {
                5 + block.len()
            } else {
                block.len()
            },
            PayloadView::Priority(..) => 5,
            PayloadView::Reset(..) => 4,
            PayloadView::Settings(b) => b.len(),
            PayloadView::PushPromise { block, .. } => 4 + block.len(),
            PayloadView::Ping(..) => 8,
            PayloadView::GoAway { data, .. } => 8 + data.len(),
            PayloadView::WindowUpdate(..) => 4,
            PayloadView::Continuation(block) => block.len(),
            PayloadView::Unregistered(block) => block.len(),
        }
    }

    /// The bytes the payload is written as.
    pub open spec fn encoding(self) -> Seq<u8> {
        match self {
            PayloadView::Data { data } => data,
            PayloadView::Headers { priority, block } => match priority {
                Some(p) => priority_bytes(p) + block,
                None => block,
            },
            PayloadView::Priority(p) => priority_bytes(p),
            PayloadView::Reset(e) => u32_be(e.0),
            PayloadView::Settings(b) => b,
            PayloadView::PushPromise { promised, block } => stream_id_bytes(promised) + block,
            PayloadView::Ping(v) => u64_be(v),
            PayloadView::GoAway { last, error, data } => stream_id_bytes(last) + u32_be(error.0)
                + data,
            PayloadView::WindowUpdate(inc) => u32_be(inc.0),
            PayloadView::Continuation(block) => block,
            PayloadView::Unregistered(block) => block,
        }
    }
}

/// Whether a flag byte marks the payload as padded.
pub open spec fn is_padded(flag: u8) -> bool {
    flag & PADDED == PADDED
}

/// Whether a flag byte marks the priority fields as present.
pub open spec fn has_priority(flag: u8) -> bool {
    flag & PRIORITY == PRIORITY
}

/// The least payload length that the padding and priority flags allow.
pub open spec fn min_payload_length(padding: bool, priority: bool) -> u32 {
    if priority && padding {
        6
    } else if priority {
        5
    } else if padding {
        1
    } else {
        0
    }
}

/// The content of a payload `s` once the pad length byte in front and the
/// padding behind are taken off, when `padding` is set. A pad length that is
/// not smaller than the payload is `TooMuchPadding`.
pub open spec fn unpad(padding: bool, s: Seq<u8>) -> Result<Seq<u8>, Error> {
    if !padding {
        Ok(s)
    } else if s[0] as int >= s.len() {
        Err(Error::TooMuchPadding(s[0]))
    } else {
        Ok(s.subrange(1, s.len() - s[0]))
    }
}

/// What a payload of kind `kind` whose bytes are exactly `s` parses to.
pub open spec fn parse_body(kind: Kind, padding: bool, priority: bool, s: Seq<u8>) -> Result<
    PayloadView,
    Error,
> {
    match kind {
        Kind::Data => match unpad(padding, s) {
            Ok(data) => Ok(PayloadView::Data { data }),
            Err(e) => Err(e),
        },
        Kind::Headers => match unpad(padding, s) {
            Ok(b) => if !priority {
                Ok(PayloadView::Headers { priority: None, block: b })
            } else if b.len() < 5 {
                Err(Error::PayloadLengthTooShort)
            } else {
                Ok(PayloadView::Headers { priority: Some(priority_of(b)), block: b.skip(5) })
            },
            Err(e) => Err(e),
        },
        Kind::Priority => if s.len() < 5 {
            Err(Error::PayloadLengthTooShort)
        } else {
            Ok(PayloadView::Priority(priority_of(s)))
        },
        Kind::Reset => if s.len() < 4 {
            Err(Error::PayloadLengthTooShort)
        } else {
            Ok(PayloadView::Reset(ErrorCode(be_u32(s))))
        },
        Kind::Settings => if s.len() % 6 != 0 {
            Err(Error::PartialSettingLength)
        } else {
            Ok(PayloadView::Settings(s))
        },
        Kind::Ping => if s.len() != 8 {
            Err(Error::InvalidPayloadLength)
        } else {
            Ok(PayloadView::Ping(be_u64(s)))
        },
        Kind::GoAway => if s.len() < 8 {
            Err(Error::PayloadLengthTooShort)
        } else {
            Ok(
                PayloadView::GoAway {
                    last: stream_id_of(s),
                    error: ErrorCode(be_u32(s.skip(4))),
                    data: s.skip(8),
                },
            )
        },
        Kind::WindowUpdate => if s.len() != 4 {
            Err(Error::InvalidPayloadLength)
        } else {
            Ok(PayloadView::WindowUpdate(SizeIncrement(be_u32(s))))
        },
        Kind::PushPromise => match unpad(padding, s) {
            Ok(b) => if b.len() < 4 {
                Err(Error::PayloadLengthTooShort)
            } else {
                Ok(PayloadView::PushPromise { promised: stream_id_of(b), block: b.skip(4) })
            },
            Err(e) => Err(e),
        },
        Kind::Continuation => Ok(PayloadView::Continuation(s)),
        Kind::Unregistered => Ok(PayloadView::Unregistered(s)),
    }
}

/// What parsing the bytes `s` as the payload of a frame with header `h` gives.
/// Bytes past the header's length belong to whatever follows and are ignored.
pub open spec fn parse_payload(h: HeaderView, s: Seq<u8>) -> Result<PayloadView, Error> {
    let padding = is_padded(h.flag);
    let priority = has_priority(h.flag);
    if s.len() < h.length {
        Err(Error::Short)
    } else if h.length < min_payload_length(padding, priority) {
        Err(Error::PayloadLengthTooShort)
    } else {
        parse_body(h.kind, padding, priority, s.take(h.length as int))
    }
}

/// Which of the padding and priority layouts a payload uses.
#[derive(Copy, Clone, Debug, PartialEq, Eq, Hash, Structural)]
struct ParserSettings {
    padding: bool,
    priority: bool,
}

/// The number of bytes of the priority fields.
pub const PRIORITY_BYTES: u32 = 5;
/// The number of bytes of the pad length.
pub const PADDING_BYTES: u32 = 1;
/// The number of bytes of one setting record.
pub const SETTING_BYTES: usize = 6;

/// The priority fields of a stream: 5 bytes on the wire.
#[derive(Copy, Clone, Debug, PartialEq, Eq, Hash, Structural)]
pub struct Priority {
    /// The top bit of the first byte.
    pub exclusive: bool,
    /// The stream this one depends on: the remaining 31 bits.
    pub dependency: StreamIdentifier,
    /// The raw weight byte; by convention the weight is one more.
    pub weight: u8,
}

/// The priority fields in the first five bytes of `s`.
pub open spec fn priority_of(s: Seq<u8>) -> Priority {
    Priority { exclusive: s[0] & 0x80 != 0, dependency: stream_id_of(s), weight: s[4] }
}

/// The four-byte word of the priority fields: the dependency, with the
/// exclusive flag as its top bit.
pub open spec fn priority_word(p: Priority) -> u32 {
    if p.exclusive {
        (p.dependency.0 & STREAM_ID_MASK) | 0x8000_0000
    } else {
        p.dependency.0 & STREAM_ID_MASK
    }
}

/// The five bytes that priority fields are written as.
pub open spec fn priority_bytes(p: Priority) -> Seq<u8> {
    u32_be(priority_word(p)) + seq![p.weight]
}

impl Priority {
    /// Whether the dependency's reserved bit is clear, as on parsed fields.
    pub open spec fn wf(self) -> bool {
        self.dependency.wf()
    }

    /// Reads the priority fields from the front of `buf` when `present`,
    /// returning the bytes after them; when not `present`, returns `buf`
    /// whole and no fields. Fails with `PayloadLengthTooShort` when the
    /// fields are present and `buf` holds fewer than five bytes.
    pub fn parse(present: bool, buf: &[u8]) -> (r: Result<(&[u8], Option<Priority>), Error>)
        ensures
            !present ==> (r matches Ok((rest, p)) && rest@ == buf@ && p is None),
            present && buf@.len() < 5 ==> r == Err::<(&[u8], Option<Priority>), Error>(
                Error::PayloadLengthTooShort,
            ),
            present && buf@.len() >= 5 ==> (r matches Ok((rest, p)) && rest@ == buf@.skip(5) && p
                == Some(priority_of(buf@))),
    {
        if present {
            if buf.len() < PRIORITY_BYTES as usize {
                return Err(Error::PayloadLengthTooShort);
            }
            let rest = vstd::slice::slice_subrange(buf, 5, buf.len());
            Ok(
                (
                    rest,
                    Some(
                        Priority {
                            exclusive: buf[0] & 0x80 != 0,
                            dependency: StreamIdentifier::parse(buf),
                            weight: buf[4],
                        },
                    ),
                ),
            )
        } else {
            Ok((buf, None))
        }
    }

    /// Writes these fields into the first five bytes of `buf` and returns the
    /// number of bytes written.
    pub fn encode(&self, buf: &mut [u8]) -> (n: usize)
        requires
            old(buf)@.len() >= 5,
        ensures
            n == 5,
            final(buf)@ == priority_bytes(*self) + old(buf)@.skip(5),
    {
        let word = if self.exclusive {
            (self.dependency.0 & STREAM_ID_MASK) | 0x8000_0000
        } else {
            self.dependency.0 & STREAM_ID_MASK
        };
        crate::wire::encode_u32(buf, word);
        buf[PRIORITY_BYTES as usize - 1] = self.weight;
        assert(buf@ =~= priority_bytes(*self) + old(buf)@.skip(5));
        PRIORITY_BYTES as usize
    }
}

/// Writing well-formed priority fields and reading them back gives the same
/// fields, whatever bytes follow them.
pub proof fn lemma_priority_round_trip(p: Priority, rest: Seq<u8>)
    requires
        p.wf(),
    ensures
        priority_of(priority_bytes(p) + rest) == p,
        (priority_bytes(p) + rest).skip(5) == rest,
{
    let s = priority_bytes(p) + rest;
    let w = priority_word(p);
    let d = p.dependency.0;
    assert(s =~= u32_be(w) + s.skip(4));
    crate::wire::lemma_u32_round_trip(w, s.skip(4));
    assert(s[0] == (w >> 24u32) as u8);
    let b0 = s[0];
    assert(d <= 0x7FFF_FFFF ==> ((d & 0x7FFF_FFFF) | 0x8000_0000) & 0x7FFF_FFFF == d
        && (d & 0x7FFF_FFFF) & 0x7FFF_FFFF == d) by (bit_vector);
    assert(b0 == (w >> 24u32) as u8 ==> (b0 & 0x80 != 0 <==> w & 0x8000_0000 != 0))
        by (bit_vector);
    assert(d <= 0x7FFF_FFFF ==> ((d & 0x7FFF_FFFF) | 0x8000_0000) & 0x8000_0000 != 0 && (d
        & 0x7FFF_FFFF) & 0x8000_0000 == 0) by (bit_vector);
    assert(s.skip(5) =~= rest);
}

/// One setting: a 16-bit identifier and a 32-bit value, 6 bytes on the wire.
#[derive(Copy, Clone, Debug, PartialEq, Eq, Hash, Structural)]
pub struct Setting {
    /// The raw identifier, kept even when it is not a registered one.
    pub identifier: u16,
    pub value: u32,
}

/// The registered setting identifiers.
#[derive(Copy, Clone, Debug, PartialEq, Eq, Hash, Structural)]
pub enum SettingIdentifier {
    HeaderTableSize,
    EnablePush,
    MaxConcurrentStreams,
    InitialWindowSize,
    MaxFrameSize,
}

/// The registered name of a setting identifier, if it has one.
pub open spec fn setting_name(identifier: u16) -> Option<SettingIdentifier> {
    if identifier == 1 {
        Some(SettingIdentifier::HeaderTableSize)
    } else if identifier == 2 {
        Some(SettingIdentifier::EnablePush)
    } else if identifier == 3 {
        Some(SettingIdentifier::MaxConcurrentStreams)
    } else if identifier == 4 {
        Some(SettingIdentifier::InitialWindowSize)
    } else if identifier == 5 {
        Some(SettingIdentifier::MaxFrameSize)
    } else {
        None
    }
}

/// The setting record in the first six bytes of `s`.
pub open spec fn setting_of(s: Seq<u8>) -> Setting {
    Setting { identifier: be_u16(s), value: be_u32(s.skip(2)) }
}

/// The six bytes that a setting is written as.
pub open spec fn setting_bytes(st: Setting) -> Seq<u8> {
    u16_be(st.identifier) + u32_be(st.value)
}

/// The records of a settings payload, six bytes each, in order.
pub open spec fn records(s: Seq<u8>) -> Seq<Setting> {
    Seq::new(s.len() / 6, |i: int| setting_of(s.skip(6 * i)))
}

/// The bytes of a sequence of settings, written one after another.
pub open spec fn records_bytes(settings: Seq<Setting>) -> Seq<u8>
    decreases settings.len(),
{
    if settings.len() == 0 {
        Seq::empty()
    } else {
        records_bytes(settings.drop_last()) + setting_bytes(settings.last())
    }
}

impl Setting {
    /// A setting with the given raw identifier and value.
    pub fn new(identifier: u16, value: u32) -> (r: Setting)
        ensures
            r == (Setting { identifier, value }),
    {
        Setting { identifier, value }
    }

    /// The registered name of this setting's identifier, or `None` when the
    /// identifier is not registered.
    pub fn identifier(&self) -> (r: Option<SettingIdentifier>)
        ensures
            r == setting_name(self.identifier),
    {
        match self.identifier {
            1 => Some(SettingIdentifier::HeaderTableSize),
            2 => Some(SettingIdentifier::EnablePush),
            3 => Some(SettingIdentifier::MaxConcurrentStreams),
            4 => Some(SettingIdentifier::InitialWindowSize),
            5 => Some(SettingIdentifier::MaxFrameSize),
            _ => None,
        }
    }

    /// The value of this setting.
    pub fn value(&self) -> (r: u32)
        ensures
            r == self.value,
    {
        self.value
    }

    /// Reads one setting record from the first six bytes of `buf`.
    pub fn parse(buf: &[u8]) -> (r: Setting)
        requires
            buf@.len() >= 6,
        ensures
            r == setting_of(buf@),
    {
        let identifier = crate::wire::read_u16(buf);
        let rest = vstd::slice::slice_subrange(buf, 2, buf.len());
        Setting { identifier, value: crate::wire::read_u32(rest) }
    }

    /// Writes this setting into the first six bytes of `buf` and returns the
    /// number of bytes written.
    pub fn encode(&self, buf: &mut [u8]) -> (n: usize)
        requires
            old(buf)@.len() >= 6,
        ensures
            n == 6,
            final(buf)@ == setting_bytes(*self) + old(buf)@.skip(6),
    {
        crate::wire::encode_u16(buf, self.identifier);
        let (_, tail) = buf.split_at_mut(2);
        crate::wire::encode_u32(tail, self.value);
        assert(final(buf)@ =~= setting_bytes(*self) + old(buf)@.skip(6));
        SETTING_BYTES
    }

    /// Writes `settings` one after another from the start of `buf`, six
    /// bytes each, and returns the number of bytes written.
    pub fn encode_all(settings: &[Setting], buf: &mut [u8]) -> (n: usize)
        requires
            old(buf)@.len() >= 6 * settings@.len(),
        ensures
            n == 6 * settings@.len(),
            final(buf)@ == records_bytes(settings@) + old(buf)@.skip(n as int),
    {
        let mut i: usize = 0;
        while i < settings.len()
            invariant
                i <= settings@.len(),
                buf@.len() == old(buf)@.len(),
                buf.len() >= 6 * settings@.len(),
                buf@ == records_bytes(settings@.take(i as int)) + old(buf)@.skip(6 * i),
            decreases settings@.len() - i,
        {
            proof {
                lemma_records_bytes_len(settings@.take(i as int));
            }
            let at = SETTING_BYTES * i;
            let (_, tail) = buf.split_at_mut(at);
            let _ = settings[i].encode(tail);
            proof {
                let next = settings@.take(i + 1);
                assert(next.drop_last() =~= settings@.take(i as int));
                assert(next.last() == settings@[i as int]);
            }
            i = i + 1;
            assert(buf@ =~= records_bytes(settings@.take(i as int)) + old(buf)@.skip(6 * i));
        }
        assert(settings@.take(i as int) =~= settings@);
        SETTING_BYTES * i
    }
}

/// The bytes of `n` settings are `6 * n` bytes.
pub proof fn lemma_records_bytes_len(settings: Seq<Setting>)
    ensures
        records_bytes(settings).len() == 6 * settings.len(),
    decreases settings.len(),
{
    if settings.len() > 0 {
        lemma_records_bytes_len(settings.drop_last());
    }
}

/// The `j`-th group of six bytes of a sequence of settings is the `j`-th
/// setting's bytes.
proof fn lemma_records_bytes_at(settings: Seq<Setting>, j: int)
    requires
        0 <= j < settings.len(),
    ensures
        records_bytes(settings).skip(6 * j).take(6) == setting_bytes(settings[j]),
    decreases settings.len(),
{
    let init = settings.drop_last();
    lemma_records_bytes_len(init);
    let all = records_bytes(settings);
    if j == settings.len() - 1 {
        assert(all.skip(6 * j).take(6) =~= setting_bytes(settings[j]));
    } else {
        lemma_records_bytes_at(init, j);
        assert(all.skip(6 * j).take(6) =~= records_bytes(init).skip(6 * j).take(6));
    }
}

/// Writing a setting and reading it back gives the same setting, whatever
/// bytes follow it.
pub proof fn lemma_setting_round_trip(st: Setting, rest: Seq<u8>)
    ensures
        setting_of(setting_bytes(st) + rest) == st,
{
    let s = setting_bytes(st) + rest;
    crate::wire::lemma_u16_round_trip(st.identifier, u32_be(st.value) + rest);
    assert(s =~= u16_be(st.identifier) + (u32_be(st.value) + rest));
    crate::wire::lemma_u32_round_trip(st.value, rest);
    assert(s.skip(2) =~= u32_be(st.value) + rest);
}

/// Writing settings one after another and reading the records back gives the
/// same settings.
pub proof fn lemma_records_round_trip(settings: Seq<Setting>)
    ensures
        records(records_bytes(settings)) == settings,
{
    let b = records_bytes(settings);
    lemma_records_bytes_len(settings);
    assert forall|j: int| 0 <= j < settings.len() implies #[trigger] setting_of(b.skip(6 * j))
        == settings[j] by {
        lemma_records_bytes_at(settings, j);
        let x = b.skip(6 * j);
        assert(x =~= setting_bytes(settings[j]) + x.skip(6));
        lemma_setting_round_trip(settings[j], x.skip(6));
    }
    assert(records(b) =~= settings);
}

/// The records of a settings payload, as a view into the bytes it was
/// parsed from; its length is a multiple of six.
#[derive(Copy, Clone, Debug, PartialEq, Eq, Hash)]
pub struct Settings<'a> {
    bytes: &'a [u8],
}

impl<'a> View for Settings<'a> {
    type V = Seq<u8>;

    /// The bytes of the records.
    closed spec fn view(&self) -> Seq<u8> {
        self.bytes@
    }
}

impl<'a> Settings<'a> {
    /// Whether the bytes are a whole number of records, as on every value
    /// that `parse` returns.
    pub open spec fn wf(self) -> bool {
        self@.len() % 6 == 0
    }

    /// Views `buf` as settings records, or fails with `PartialSettingLength`
    /// if its length is not a multiple of six.
    pub fn parse(buf: &'a [u8]) -> (r: Result<Settings<'a>, Error>)
        ensures
            r is Ok <==> buf@.len() % 6 == 0,
            r matches Ok(s) ==> s@ == buf@ && s.wf(),
            r is Err ==> r == Err::<Settings<'a>, Error>(Error::PartialSettingLength),
    {
        if buf.len() % SETTING_BYTES != 0 {
            Err(Error::PartialSettingLength)
        } else {
            Ok(Settings { bytes: buf })
        }
    }

    /// The number of records.
    pub fn len(&self) -> (r: usize)
        ensures
            r == records(self@).len(),
    {
        self.bytes.len() / SETTING_BYTES
    }

    /// The bytes of the records.
    pub fn as_bytes(&self) -> (r: &'a [u8])
        ensures
            r@ == self@,
    {
        self.bytes
    }

    /// The record at position `i`.
    pub fn get(&self, i: usize) -> (r: Setting)
        requires
            i < records(self@).len(),
        ensures
            r == records(self@)[i as int],
    {
        let total = self.bytes.len();
        proof {
            let n = total as int;
            assert(i < n / 6 ==> 6 * i + 6 <= n) by (nonlinear_arith);
        }
        let at = SETTING_BYTES * i;
        let rest = vstd::slice::slice_subrange(self.bytes, at, self.bytes.len());
        Setting::parse(rest)
    }

    /// Every record, decoded in order.
    pub fn to_vec(&self) -> (r: Vec<Setting>)
        ensures
            r@ == records(self@),
    {
        let n = self.len();
        let mut out: Vec<Setting> = Vec::new();
        let mut i: usize = 0;
        while i < n
            invariant
                n == records(self@).len(),
                i <= n,
                out@ == records(self@).take(i as int),
            decreases n - i,
        {
            out.push(self.get(i));
            i = i + 1;
            assert(out@ =~= records(self@).take(i as int));
        }
        assert(out@ =~= records(self@));
        out
    }
}

/// Takes the pad length byte and the padding off a payload whose bytes are
/// exactly `buf`, when the padding flag is set.
fn trim_padding<'b>(settings: ParserSettings, header: FrameHeader, buf: &'b [u8]) -> (r: Result<
    &'b [u8],
    Error,
>)
    requires
        buf@.len() == header.length,
        settings.padding ==> header.length >= 1,
    ensures
        r matches Ok(b) ==> unpad(settings.padding, buf@) == Ok::<Seq<u8>, Error>(b@),
        r matches Err(e) ==> unpad(settings.padding, buf@) == Err::<Seq<u8>, Error>(e),
{
    if settings.padding {
        let pad_length = buf[0];
        if pad_length as u32 >= header.length {
            Err(Error::TooMuchPadding(pad_length))
        } else {
            Ok(vstd::slice::slice_subrange(buf, 1, header.length as usize - pad_length as usize))
        }
    } else {
        Ok(buf)
    }
}

impl<'a> Payload<'a> {
    /// The frame kind of this payload.
    pub fn kind(&self) -> (r: Kind)
        ensures
            r == self@.kind(),
    {
        match *self {
            Payload::Data { .. } => Kind::Data,
            Payload::Headers { .. } => Kind::Headers,
            Payload::Priority(..) => Kind::Priority,
            Payload::Reset(..) => Kind::Reset,
            Payload::Settings(..) => Kind::Settings,
            Payload::PushPromise { .. } => Kind::PushPromise,
            Payload::Ping(..) => Kind::Ping,
            Payload::GoAway { .. } => Kind::GoAway,
            Payload::WindowUpdate(_) => Kind::WindowUpdate,
            Payload::Continuation(_) => Kind::Continuation,
            Payload::Unregistered(_) => Kind::Unregistered,
        }
    }

    /// Parses the payload of a frame with header `header` from `buf`, which
    /// holds at least `header.length` bytes; bytes past that are ignored.
    pub fn parse(header: FrameHeader, buf: &'a [u8]) -> (r: Result<Payload<'a>, Error>)
        ensures
            r matches Ok(p) ==> parse_payload(header@, buf@) == Ok::<PayloadView, Error>(p@),
            r matches Err(e) ==> parse_payload(header@, buf@) == Err::<PayloadView, Error>(e),
    {
        let settings = ParserSettings {
            padding: header.flag.contains(Flag::padded()),
            priority: header.flag.contains(Flag::priority()),
        };
        if buf.len() < header.length as usize {
            return Err(Error::Short);
        }
        let min_payload_length = if settings.priority && settings.padding {
            PRIORITY_BYTES + PADDING_BYTES
        } else if settings.priority {
            PRIORITY_BYTES
        } else if settings.padding {
            PADDING_BYTES
        } else {
            0
        };
        if header.length < min_payload_length {
            return Err(Error::PayloadLengthTooShort);
        }
        let body = vstd::slice::slice_subrange(buf, 0, header.length as usize);
        match header.kind {
            Kind::Data => Payload::parse_data(header, body, settings),
            Kind::Headers => Payload::parse_headers(header, body, settings),
            Kind::Priority => match Priority::parse(true, body) {
                Ok((_, Some(priority))) => Ok(Payload::Priority(priority)),
                Ok((_, None)) => Err(Error::PayloadLengthTooShort),
                Err(e) => Err(e),
            },
            Kind::Reset => Payload::parse_reset(header, body),
            Kind::Settings => Payload::parse_settings(header, body),
            Kind::Ping => Payload::parse_ping(header, body),
            Kind::GoAway => Payload::parse_goaway(header, body),
            Kind::WindowUpdate => Payload::parse_window_update(header, body),
            Kind::PushPromise => Payload::parse_push_promise(header, body, settings),
            Kind::Continuation => Ok(Payload::Continuation(body)),
            Kind::Unregistered => Ok(Payload::Unregistered(body)),
        }
    }

    /// Writes this payload at the start of `buf` and returns the number of
    /// bytes written, which is `encoded_len`.
    pub fn encode(&self, buf: &mut [u8]) -> (n: usize)
        requires
            old(buf)@.len() >= self@.encoded_len(),
        ensures
            n == self@.encoded_len(),
            final(buf)@ == self@.encoding() + old(buf)@.skip(n as int),
    {
        // a slice's length fits in a usize
        assert(buf@.len() == buf.len());
        match *self {
            Payload::Data { data } => {
                let n = crate::wire::encode_memory(data, buf, 0);
                assert(buf@ =~= self@.encoding() + old(buf)@.skip(n as int));
                n
            },
            Payload::Headers { priority, block } => {
                let priority_wrote = match priority {
                    Some(p) => p.encode(buf),
                    None => 0,
                };
                let block_wrote = crate::wire::encode_memory(block, buf, priority_wrote);
                assert(buf@ =~= self@.encoding() + old(buf)@.skip(
                    priority_wrote + block_wrote,
                ));
                priority_wrote + block_wrote
            },
            Payload::Reset(error) => error.encode(buf),
            Payload::Settings(settings) => {
                let n = crate::wire::encode_memory(settings.as_bytes(), buf, 0);
                assert(buf@ =~= self@.encoding() + old(buf)@.skip(n as int));
                n
            },
            Payload::Ping(data) => crate::wire::encode_u64(buf, data),
            Payload::GoAway { last, error, data } => {
                let last_wrote = last.encode(buf);
                let (_, tail) = buf.split_at_mut(last_wrote);
                let error_wrote = error.encode(tail);
                let data_wrote = crate::wire::encode_memory(data, buf, 8);
                assert(buf@ =~= self@.encoding() + old(buf)@.skip(8 + data_wrote));
                last_wrote + error_wrote + data_wrote
            },
            Payload::WindowUpdate(increment) => increment.encode(buf),
            Payload::PushPromise { promised, block } => {
                let promised_wrote = promised.encode(buf);
                let block_wrote = crate::wire::encode_memory(block, buf, promised_wrote);
                assert(buf@ =~= self@.encoding() + old(buf)@.skip(4 + block_wrote));
                promised_wrote + block_wrote
            },
            Payload::Priority(priority) => priority.encode(buf),
            Payload::Continuation(block) => {
                let n = crate::wire::encode_memory(block, buf, 0);
                assert(buf@ =~= self@.encoding() + old(buf)@.skip(n as int));
                n
            },
            Payload::Unregistered(block) => {
                let n = crate::wire::encode_memory(block, buf, 0);
                assert(buf@ =~= self@.encoding() + old(buf)@.skip(n as int));
                n
            },
        }
    }

    /// The number of bytes `encode` writes for this payload.
    pub fn encoded_len(&self) -> (n: usize)
        requires
            self@.encoded_len() <= usize::MAX,
        ensures
            n == self@.encoded_len(),
    {
        match *self {
            Payload::Data { data } => data.len(),
            Payload::Headers { priority, block } => {
                let priority_len: usize = if priority.is_some() {
                    5
                } else {
                    0
                };
                priority_len + block.len()
            },
            Payload::Reset(_) => 4,
            Payload::Settings(settings) => settings.as_bytes().len(),
            Payload::Ping(_) => 8,
            Payload::GoAway { data, .. } => 4 + 4 + data.len(),
            Payload::WindowUpdate(_) => 4,
            Payload::PushPromise { block, .. } => 4 + block.len(),
            Payload::Priority(_) => 5,
            Payload::Continuation(block) => block.len(),
            Payload::Unregistered(block) => block.len(),
        }
    }

    /// The pad length of this payload: parsing drops the padding and
    /// encoding writes none, so there is never one.
    pub fn padded(&self) -> (r: Option<u32>)
        ensures
            r is None,
    {
        None
    }

    /// The priority fields this payload carries, if any.
    pub fn priority(&self) -> (r: Option<&Priority>)
        ensures
            r is Some <==> self@.priority() is Some,
            r matches Some(p) ==> self@.priority() == Some(*p),
    {
        match self {
            Payload::Priority(priority) => Some(priority),
            Payload::Headers { priority, .. } => priority.as_ref(),
            _ => None,
        }
    }

    fn parse_data(header: FrameHeader, buf: &'a [u8], settings: ParserSettings) -> (r: Result<
        Payload<'a>,
        Error,
    >)
        requires
            buf@.len() == header.length,
            settings.padding ==> header.length >= 1,
        ensures
            r matches Ok(p) ==> parse_body(Kind::Data, settings.padding, settings.priority, buf@)
                == Ok::<PayloadView, Error>(p@),
            r matches Err(e) ==> parse_body(Kind::Data, settings.padding, settings.priority, buf@)
                == Err::<PayloadView, Error>(e),
    {
        match trim_padding(settings, header, buf) {
            Ok(data) => Ok(Payload::Data { data }),
            Err(e) => Err(e),
        }
    }

    fn parse_headers(header: FrameHeader, buf: &'a [u8], settings: ParserSettings) -> (r: Result<
        Payload<'a>,
        Error,
    >)
        requires
            buf@.len() == header.length,
            settings.padding ==> header.length >= 1,
        ensures
            r matches Ok(p) ==> parse_body(
                Kind::Headers,
                settings.padding,
                settings.priority,
                buf@,
            ) == Ok::<PayloadView, Error>(p@),
            r matches Err(e) ==> parse_body(
                Kind::Headers,
                settings.padding,
                settings.priority,
                buf@,
            ) == Err::<PayloadView, Error>(e),
    {
        let content = match trim_padding(settings, header, buf) {
            Ok(c) => c,
            Err(e) => return Err(e),
        };
        match Priority::parse(settings.priority, content) {
            Ok((block, priority)) => Ok(Payload::Headers { priority, block }),
            Err(e) => Err(e),
        }
    }

    fn parse_reset(header: FrameHeader, buf: &'a [u8]) -> (r: Result<Payload<'a>, Error>)
        requires
            buf@.len() == header.length,
        ensures
            r matches Ok(p) ==> parse_body(Kind::Reset, false, false, buf@) == Ok::<
                PayloadView,
                Error,
            >(p@),
            r matches Err(e) ==> parse_body(Kind::Reset, false, false, buf@) == Err::<
                PayloadView,
                Error,
            >(e),
    {
        if header.length < 4 {
            return Err(Error::PayloadLengthTooShort);
        }
        Ok(Payload::Reset(ErrorCode::parse(buf)))
    }

    fn parse_settings(header: FrameHeader, buf: &'a [u8]) -> (r: Result<Payload<'a>, Error>)
        requires
            buf@.len() == header.length,
        ensures
            r matches Ok(p) ==> parse_body(Kind::Settings, false, false, buf@) == Ok::<
                PayloadView,
                Error,
            >(p@),
            r matches Err(e) ==> parse_body(Kind::Settings, false, false, buf@) == Err::<
                PayloadView,
                Error,
            >(e),
    {
        match Settings::parse(buf) {
            Ok(settings) => Ok(Payload::Settings(settings)),
            Err(e) => Err(e),
        }
    }

    fn parse_ping(header: FrameHeader, buf: &'a [u8]) -> (r: Result<Payload<'a>, Error>)
        requires
            buf@.len() == header.length,
        ensures
            r matches Ok(p) ==> parse_body(Kind::Ping, false, false, buf@) == Ok::<
                PayloadView,
                Error,
            >(p@),
            r matches Err(e) ==> parse_body(Kind::Ping, false, false, buf@) == Err::<
                PayloadView,
                Error,
            >(e),
    {
        if header.length != 8 {
            return Err(Error::InvalidPayloadLength);
        }
        Ok(Payload::Ping(crate::wire::read_u64(buf)))
    }

    fn parse_goaway(header: FrameHeader, buf: &'a [u8]) -> (r: Result<Payload<'a>, Error>)
        requires
            buf@.len() == header.length,
        ensures
            r matches Ok(p) ==> parse_body(Kind::GoAway, false, false, buf@) == Ok::<
                PayloadView,
                Error,
            >(p@),
            r matches Err(e) ==> parse_body(Kind::GoAway, false, false, buf@) == Err::<
                PayloadView,
                Error,
            >(e),
    {
        if header.length < 8 {
            return Err(Error::PayloadLengthTooShort);
        }
        let last = StreamIdentifier::parse(buf);
        let error = ErrorCode::parse(vstd::slice::slice_subrange(buf, 4, buf.len()));
        let data = vstd::slice::slice_subrange(buf, 8, buf.len());
        Ok(Payload::GoAway { last, error, data })
    }

    fn parse_window_update(header: FrameHeader, buf: &'a [u8]) -> (r: Result<Payload<'a>, Error>)
        requires
            buf@.len() == header.length,
        ensures
            r matches Ok(p) ==> parse_body(Kind::WindowUpdate, false, false, buf@) == Ok::<
                PayloadView,
                Error,
            >(p@),
            r matches Err(e) ==> parse_body(Kind::WindowUpdate, false, false, buf@) == Err::<
                PayloadView,
                Error,
            >(e),
    {
        if header.length != 4 {
            return Err(Error::InvalidPayloadLength);
        }
        Ok(Payload::WindowUpdate(SizeIncrement::parse(buf)))
    }

    fn parse_push_promise(header: FrameHeader, buf: &'a [u8], settings: ParserSettings) -> (r:
        Result<Payload<'a>, Error>)
        requires
            buf@.len() == header.length,
            settings.padding ==> header.length >= 1,
        ensures
            r matches Ok(p) ==> parse_body(
                Kind::PushPromise,
                settings.padding,
                settings.priority,
                buf@,
            ) == Ok::<PayloadView, Error>(p@),
            r matches Err(e) ==> parse_body(
                Kind::PushPromise,
                settings.padding,
                settings.priority,
                buf@,
            ) == Err::<PayloadView, Error>(e),
    {
        let content = match trim_padding(settings, header, buf) {
            Ok(c) => c,
            Err(e) => return Err(e),
        };
        if content.len() < 4 {
            return Err(Error::PayloadLengthTooShort);
        }
        let promised = StreamIdentifier::parse(content);
        let block = vstd::slice::slice_subrange(content, 4, content.len());
        Ok(Payload::PushPromise { promised, block })
    }
}

/// `encode` writes exactly `encoded_len` bytes: the encoding of every
/// payload is as long as its encoded length.
pub proof fn lemma_encoded_len(p: PayloadView)
    ensures
        p.encoding().len() == p.encoded_len(),
{
}

/// A payload written out parses back to itself under a header that
/// describes it: its kind and length, no padding, and the priority flag set
/// for a header block exactly when it carries priority fields (and, on other
/// kinds, only when the payload is at least five bytes long). Bytes that
/// follow the payload are ignored.
pub proof fn lemma_payload_round_trip(h: HeaderView, p: PayloadView, rest: Seq<u8>)
    requires
        p.wf(),
        h.length == p.encoded_len(),
        h.kind == p.kind(),
        !is_padded(h.flag),
        has_priority(h.flag) ==> h.length >= 5,
        h.kind == Kind::Headers ==> (has_priority(h.flag) <==> p.priority() is Some),
    ensures
        parse_payload(h, p.encoding() + rest) == Ok::<PayloadView, Error>(p),
{
    let e = p.encoding();
    let s = e + rest;
    lemma_encoded_len(p);
    assert(s.take(h.length as int) =~= e);
    match p {
        PayloadView::Headers { priority, block } => {
            if let Some(pr) = priority {
                lemma_priority_round_trip(pr, block);
            }
        },
        PayloadView::Priority(pr) => {
            lemma_priority_round_trip(pr, Seq::empty());
            assert(priority_bytes(pr) + Seq::empty() =~= e);
        },
        PayloadView::Reset(code) => {
            crate::wire::lemma_u32_round_trip(code.0, Seq::empty());
            assert(u32_be(code.0) + Seq::empty() =~= e);
        },
        PayloadView::PushPromise { promised, block } => {
            crate::lemma_stream_id_round_trip(promised, block);
            assert(e.skip(4) =~= block);
        },
        PayloadView::Ping(v) => {
            crate::wire::lemma_u64_round_trip(v, Seq::empty());
            assert(u64_be(v) + Seq::empty() =~= e);
        },
        PayloadView::GoAway { last, error, data } => {
            crate::lemma_stream_id_round_trip(last, u32_be(error.0) + data);
            assert(e =~= stream_id_bytes(last) + (u32_be(error.0) + data));
            crate::wire::lemma_u32_round_trip(error.0, data);
            assert(e.skip(4) =~= u32_be(error.0) + data);
            assert(e.skip(8) =~= data);
        },
        PayloadView::WindowUpdate(inc) => {
            crate::wire::lemma_u32_round_trip(inc.0, Seq::empty());
            assert(u32_be(inc.0) + Seq::empty() =~= e);
        },
        _ => {},
    }
}

} // verus!
