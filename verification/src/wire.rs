//! Protobuf wire-format reader, independent of any schema.
//!
//! This layer knows nothing of `gtfs-realtime.proto`; it only splits bytes
//! into `(field number, wire type, raw value)` triples. Interpreting them is
//! the decoder's job.
//!
//! Design rule: no fault is swallowed. When a fault is found the reader stops:
//! the remaining bytes cannot be trusted, and without a guarantee of progress
//! going on would risk an endless loop.
use vstd::prelude::*;
use crate::anomaly::{spec_is_wire_level, AnomalyKind};
use crate::wire_type;

verus! {

/// A varint is at most 10 bytes long (64 bits at 7 bits per byte, rounded up).
pub const MAX_VARINT_BYTES: usize = 10;

/// The fault that stops the wire reader.
#[derive(Debug, Clone, PartialEq, Eq)]
pub struct WireFault {
    pub kind: AnomalyKind,
    pub offset: usize,
}

/// The raw value of a field, by wire type.
#[derive(Debug, Clone, PartialEq)]
pub enum WireValue<'a> {
    Varint(u64),
    Fixed64(u64),
    Len(&'a [u8]),
    Fixed32(u32),
    /// Start or end tag of a (deprecated, proto2) group. The body is not read.
    Group,
}

/// A raw wire value, with the bytes of a length-delimited value as a sequence.
pub enum ValueView {
    Varint(u64),
    Fixed64(u64),
    Len(Seq<u8>),
    Fixed32(u32),
    Group,
}

impl View for WireValue<'_> {
    type V = ValueView;

    open spec fn view(&self) -> ValueView {
        match self {
            WireValue::Varint(v) => ValueView::Varint(*v),
            WireValue::Fixed64(v) => ValueView::Fixed64(*v),
            WireValue::Len(s) => ValueView::Len(s@),
            WireValue::Fixed32(v) => ValueView::Fixed32(*v),
            WireValue::Group => ValueView::Group,
        }
    }
}

/// The wire type code of a value.
pub open spec fn spec_value_wire_type(v: ValueView) -> u8 {
    match v {
        ValueView::Varint(_) => wire_type::VARINT,
        ValueView::Fixed64(_) => wire_type::FIXED64,
        ValueView::Len(_) => wire_type::LEN,
        ValueView::Fixed32(_) => wire_type::FIXED32,
        ValueView::Group => wire_type::START_GROUP,
    }
}

impl WireValue<'_> {
    /// The wire type code of this value.
    pub fn wire_type(&self) -> (r: u8)
        ensures
            r == spec_value_wire_type(self@),
    {
        match self {
            WireValue::Varint(_) => wire_type::VARINT,
            WireValue::Fixed64(_) => wire_type::FIXED64,
            WireValue::Len(_) => wire_type::LEN,
            WireValue::Fixed32(_) => wire_type::FIXED32,
            WireValue::Group => wire_type::START_GROUP,
        }
    }
}

/// A single wire field in raw form.
#[derive(Debug, Clone, PartialEq)]
pub struct Field<'a> {
    pub number: u32,
    pub wire_type: u8,
    pub value: WireValue<'a>,
    /// Position of the field's tag within the bytes being read.
    pub offset: usize,
}

/// A field as a plain value.
pub struct FieldView {
    pub number: u32,
    pub wire_type: u8,
    pub value: ValueView,
    pub offset: usize,
}

impl View for Field<'_> {
    type V = FieldView;

    open spec fn view(&self) -> FieldView {
        FieldView {
            number: self.number,
            wire_type: self.wire_type,
            value: self.value@,
            offset: self.offset,
        }
    }
}

/// How far a field reaches past its tag: the length of a length-delimited value, else 0.
pub open spec fn spec_span(f: FieldView) -> nat {
    match f.value {
        ValueView::Len(s) => s.len(),
        _ => 0,
    }
}

/// Outcome of reading a varint.
pub enum VarintOutcome {
    Done { value: u64, end: int },
    Truncated { end: int },
    TooLong { end: int },
}

/// Reads a varint starting at `start`, with `consumed` bytes already read
/// and `acc` their accumulated low bits.
pub open spec fn varint_from(buf: Seq<u8>, start: int, consumed: nat, acc: u64) -> VarintOutcome
    decreases MAX_VARINT_BYTES - consumed,
{
    if start + consumed >= buf.len() {
        VarintOutcome::Truncated { end: start + consumed }
    } else if consumed >= MAX_VARINT_BYTES {
        VarintOutcome::TooLong { end: start + consumed }
    } else {
        let b = buf[start + consumed];
        let next = acc | (((b & 0x7f) as u64) << ((7 * consumed) as u32));
        if b & 0x80 == 0 {
            VarintOutcome::Done { value: next, end: start + consumed + 1 }
        } else {
            varint_from(buf, start, consumed + 1, next)
        }
    }
}

/// The varint at `start`.
pub open spec fn varint_at(buf: Seq<u8>, start: int) -> VarintOutcome {
    varint_from(buf, start, 0, 0)
}

/// Little-endian value of the 8 bytes at `p`.
pub open spec fn le64_at(buf: Seq<u8>, p: int) -> u64 {
    (buf[p] as int + buf[p + 1] as int * 0x100 + buf[p + 2] as int * 0x10000 + buf[p + 3] as int
        * 0x1000000 + buf[p + 4] as int * 0x100000000 + buf[p + 5] as int * 0x10000000000
        + buf[p + 6] as int * 0x1000000000000 + buf[p + 7] as int * 0x100000000000000) as u64
}

/// Little-endian value of the 4 bytes at `p`.
pub open spec fn le32_at(buf: Seq<u8>, p: int) -> u32 {
    (buf[p] as int + buf[p + 1] as int * 0x100 + buf[p + 2] as int * 0x10000 + buf[p + 3] as int
        * 0x1000000) as u32
}

/// Outcome of reading one field: the field and the position after it, or the
/// fault and the position where the reader stood when it found the fault.
pub enum FieldOutcome {
    Read { field: FieldView, end: int },
    Fault { kind: AnomalyKind, end: int },
}

/// The kind of fault a failed varint read reports.
pub open spec fn varint_fault(o: VarintOutcome) -> FieldOutcome {
    match o {
        VarintOutcome::TooLong { end } => FieldOutcome::Fault { kind: AnomalyKind::VarintTooLong, end },
        VarintOutcome::Truncated { end } => FieldOutcome::Fault { kind: AnomalyKind::Truncated, end },
        VarintOutcome::Done { end, .. } => FieldOutcome::Fault { kind: AnomalyKind::Truncated, end },
    }
}

/// Reads the value of a field with tag `(number, wt)` whose tag ended at `p`.
pub open spec fn value_at(buf: Seq<u8>, start: int, number: u32, wt: u8, p: int) -> FieldOutcome {
    if wt == wire_type::VARINT {
        match varint_at(buf, p) {
            VarintOutcome::Done { value, end } => FieldOutcome::Read {
                field: FieldView {
                    number,
                    wire_type: wt,
                    value: ValueView::Varint(value),
                    offset: start as usize,
                },
                end,
            },
            o => varint_fault(o),
        }
    } else if wt == wire_type::FIXED64 {
        if buf.len() - p < 8 {
            FieldOutcome::Fault { kind: AnomalyKind::Truncated, end: p }
        } else {
            FieldOutcome::Read {
                field: FieldView {
                    number,
                    wire_type: wt,
                    value: ValueView::Fixed64(le64_at(buf, p)),
                    offset: start as usize,
                },
                end: p + 8,
            }
        }
    } else if wt == wire_type::FIXED32 {
        if buf.len() - p < 4 {
            FieldOutcome::Fault { kind: AnomalyKind::Truncated, end: p }
        } else {
            FieldOutcome::Read {
                field: FieldView {
                    number,
                    wire_type: wt,
                    value: ValueView::Fixed32(le32_at(buf, p)),
                    offset: start as usize,
                },
                end: p + 4,
            }
        }
    } else if wt == wire_type::LEN {
        match varint_at(buf, p) {
            VarintOutcome::Done { value, end } => {
                let len = value as usize;
                let remaining = (buf.len() - end) as usize;
                if len > remaining {
                    FieldOutcome::Fault {
                        kind: AnomalyKind::LengthExceedsRemaining { declared: len, remaining },
                        end,
                    }
                } else {
                    FieldOutcome::Read {
                        field: FieldView {
                            number,
                            wire_type: wt,
                            value: ValueView::Len(buf.subrange(end, end + len)),
                            offset: start as usize,
                        },
                        end: end + len,
                    }
                }
            },
            o => varint_fault(o),
        }
    } else if wt == wire_type::START_GROUP || wt == wire_type::END_GROUP {
        FieldOutcome::Fault { kind: AnomalyKind::DeprecatedGroup, end: p }
    } else {
        FieldOutcome::Fault { kind: AnomalyKind::ReservedWireType { found: wt }, end: p }
    }
}

/// Reads the field whose tag starts at `start`.
pub open spec fn field_at(buf: Seq<u8>, start: int) -> FieldOutcome {
    match varint_at(buf, start) {
        VarintOutcome::Done { value: tag, end } => {
            let number = (tag >> 3u64) as u32;
            let wt = (tag & 7u64) as u8;
            if number == 0 {
                FieldOutcome::Fault { kind: AnomalyKind::ZeroFieldNumber, end }
            } else {
                value_at(buf, start, number, wt, end)
            }
        },
        o => varint_fault(o),
    }
}

/// A varint read moves forward by one to ten bytes and stays within the buffer.
pub proof fn lemma_varint_bounds(buf: Seq<u8>, start: int, consumed: nat, acc: u64)
    requires
        0 <= start,
        consumed <= MAX_VARINT_BYTES,
        start + consumed <= buf.len(),
    ensures
        match varint_from(buf, start, consumed, acc) {
            VarintOutcome::Done { end, .. } => start + consumed < end <= buf.len() && end
                <= start + MAX_VARINT_BYTES,
            VarintOutcome::Truncated { end } => end == buf.len() && start + consumed <= end,
            VarintOutcome::TooLong { end } => end == start + MAX_VARINT_BYTES && end <= buf.len(),
        },
    decreases MAX_VARINT_BYTES - consumed,
{
    if start + consumed >= buf.len() {
    } else if consumed >= MAX_VARINT_BYTES {
    } else {
        let b = buf[start + consumed];
        let next = acc | (((b & 0x7f) as u64) << ((7 * consumed) as u32));
        if b & 0x80 != 0 {
            lemma_varint_bounds(buf, start, consumed + 1, next);
        }
    }
}

/// Reading a field always moves forward and stays within the buffer; a field's
/// value lies between its tag and the position after it.
pub proof fn lemma_field_bounds(buf: Seq<u8>, start: int)
    requires
        0 <= start < buf.len(),
        buf.len() <= usize::MAX,
    ensures
        match field_at(buf, start) {
            FieldOutcome::Read { field, end } => start < end <= buf.len() && field.offset
                == start && field.number != 0 && start + spec_span(field) < end,
            FieldOutcome::Fault { end, .. } => start <= end <= buf.len(),
        },
{
    lemma_varint_bounds(buf, start, 0, 0);
    match varint_at(buf, start) {
        VarintOutcome::Done { value: tag, end } => {
            lemma_varint_bounds(buf, end, 0, 0);
        },
        _ => {},
    }
}

/// Reader state as a plain value.
pub struct ReaderView {
    pub buf: Seq<u8>,
    pub pos: int,
    pub stopped: bool,
}

/// Field-by-field reader over a byte slice.
pub struct WireReader<'a> {
    buf: &'a [u8],
    pos: usize,
    stopped: bool,
}

impl<'a> View for WireReader<'a> {
    type V = ReaderView;

    closed spec fn view(&self) -> ReaderView {
        ReaderView { buf: self.buf@, pos: self.pos as int, stopped: self.stopped }
    }
}

impl<'a> WireReader<'a> {
    /// The reader never stands past the end of its buffer.
    #[verifier::type_invariant]
    spec fn wf(&self) -> bool {
        self.pos <= self.buf@.len()
    }

    pub fn new(buf: &'a [u8]) -> (r: Self)
        ensures
            r@ == (ReaderView { buf: buf@, pos: 0, stopped: false }),
    {
        WireReader { buf, pos: 0, stopped: false }
    }

    /// Number of unread bytes.
    pub fn remaining(&self) -> (r: usize)
        ensures
            r == self@.buf.len() - self@.pos,
    {
        proof {
            use_type_invariant(self);
        }
        self.buf.len() - self.pos
    }

    /// Current byte position.
    pub fn position(&self) -> (r: usize)
        ensures
            r == self@.pos,
    {
        self.pos
    }

    /// Whether a fault has stopped the reader.
    pub fn is_stopped(&self) -> (r: bool)
        ensures
            r == self@.stopped,
    {
        self.stopped
    }

    /// Reads the next field.
    ///
    /// `None` is a clean end, and so is every call after a fault.
    /// `Some(Err(_))` is a fault; the reader stops.
    pub fn next_field(&mut self) -> (r: Option<Result<Field<'a>, WireFault>>)
        ensures
            final(self)@.buf == old(self)@.buf,
            ({
                let v = old(self)@;
                if v.stopped || v.pos >= v.buf.len() {
                    r is None && final(self)@ == v
                } else {
                    match field_at(v.buf, v.pos) {
                        FieldOutcome::Read { field, end } => r matches Some(Ok(f)) && f@ == field
                            && final(self)@.pos == end && !final(self)@.stopped && v.pos < end,
                        FieldOutcome::Fault { kind, end } => r matches Some(Err(fault))
                            && fault.kind == kind && fault.offset == v.pos && final(self)@.pos
                            == end && final(self)@.stopped,
                    }
                }
            }),
    {
        proof {
            use_type_invariant(&*self);
        }
        if self.stopped || self.pos >= self.buf.len() {
            return None;
        }
        let start = self.pos;
        proof {
            lemma_field_bounds(self.buf@, start as int);
        }
        match self.read_field(start) {
            Ok(field) => Some(Ok(field)),
            Err(fault) => {
                self.stopped = true;
                Some(Err(fault))
            },
        }
    }

    fn read_field(&mut self, start: usize) -> (r: Result<Field<'a>, WireFault>)
        requires
            old(self).wf(),
            start == old(self).pos,
            start < old(self).buf@.len(),
            !old(self).stopped,
        ensures
            final(self).wf(),
            final(self).buf == old(self).buf,
            !final(self).stopped,
            match field_at(old(self).buf@, start as int) {
                FieldOutcome::Read { field, end } => r matches Ok(f) && f@ == field
                    && final(self).pos == end,
                FieldOutcome::Fault { kind, end } => r matches Err(fault) && fault.kind == kind
                    && fault.offset == start && final(self).pos == end,
            },
    {
        let ghost buf = self.buf@;
        let tag = self.read_varint(start)?;
        let number = (tag >> 3) as u32;
        let wt = (tag & 0x07) as u8;
        if number == 0 {
            return Err(WireFault { kind: AnomalyKind::ZeroFieldNumber, offset: start });
        }
        let value = if wt == wire_type::VARINT {
            WireValue::Varint(self.read_varint(start)?)
        } else if wt == wire_type::FIXED64 {
            WireValue::Fixed64(self.read_fixed64(start)?)
        } else if wt == wire_type::FIXED32 {
            WireValue::Fixed32(self.read_fixed32(start)?)
        } else if wt == wire_type::LEN {
            let declared = self.read_varint(start)?;
            let len = declared as usize;
            let remaining = self.remaining();
            let total = self.buf.len();
            assert(remaining == total - self.pos);
            if len > remaining {
                return Err(
                    WireFault {
                        kind: AnomalyKind::LengthExceedsRemaining { declared: len, remaining },
                        offset: start,
                    },
                );
            }
            let slice = &self.buf[self.pos..self.pos + len];
            self.pos = self.pos + len;
            WireValue::Len(slice)
        } else if wt == wire_type::START_GROUP || wt == wire_type::END_GROUP {
            // GTFS-Realtime never uses groups. Skipping a body correctly would
            // have to follow nested groups; the reader stops here instead.
            return Err(WireFault { kind: AnomalyKind::DeprecatedGroup, offset: start });
        } else {
            return Err(WireFault { kind: AnomalyKind::ReservedWireType { found: wt }, offset: start });
        };
        Ok(Field { number, wire_type: wt, value, offset: start })
    }

    fn read_varint(&mut self, field_start: usize) -> (r: Result<u64, WireFault>)
        requires
            old(self).wf(),
        ensures
            final(self).wf(),
            final(self).buf == old(self).buf,
            final(self).stopped == old(self).stopped,
            match varint_at(old(self).buf@, old(self).pos as int) {
                VarintOutcome::Done { value, end } => r == Ok::<u64, WireFault>(value)
                    && final(self).pos == end,
                VarintOutcome::Truncated { end } => r matches Err(fault) && fault.kind
                    == AnomalyKind::Truncated && fault.offset == field_start && final(self).pos
                    == end,
                VarintOutcome::TooLong { end } => r matches Err(fault) && fault.kind
                    == AnomalyKind::VarintTooLong && fault.offset == field_start
                    && final(self).pos == end,
            },
    {
        let ghost start = self.pos as int;
        let mut result: u64 = 0;
        let mut shift: u32 = 0;
        let mut consumed: usize = 0;
        loop
            invariant
                self.wf(),
                self.buf == old(self).buf,
                self.stopped == old(self).stopped,
                start == old(self).pos,
                consumed <= MAX_VARINT_BYTES,
                self.pos == start + consumed,
                shift == 7 * consumed,
                varint_from(self.buf@, start, 0, 0) == varint_from(
                    self.buf@,
                    start,
                    consumed as nat,
                    result,
                ),
            decreases MAX_VARINT_BYTES - consumed,
        {
            if self.pos >= self.buf.len() {
                return Err(WireFault { kind: AnomalyKind::Truncated, offset: field_start });
            }
            if consumed == MAX_VARINT_BYTES {
                return Err(WireFault { kind: AnomalyKind::VarintTooLong, offset: field_start });
            }
            let byte = self.buf[self.pos];
            self.pos = self.pos + 1;
            consumed = consumed + 1;
            // Only the top bit of the tenth byte fits; the shift never exceeds 63.
            result = result | ((byte & 0x7F) as u64) << shift;
            if byte & 0x80 == 0 {
                return Ok(result);
            }
            shift = shift + 7;
        }
    }

    fn read_fixed64(&mut self, field_start: usize) -> (r: Result<u64, WireFault>)
        requires
            old(self).wf(),
        ensures
            final(self).wf(),
            final(self).buf == old(self).buf,
            final(self).stopped == old(self).stopped,
            if old(self).buf@.len() - old(self).pos < 8 {
                r matches Err(fault) && fault.kind == AnomalyKind::Truncated && fault.offset
                    == field_start && final(self).pos == old(self).pos
            } else {
                r == Ok::<u64, WireFault>(le64_at(old(self).buf@, old(self).pos as int))
                    && final(self).pos == old(self).pos + 8
            },
    {
        if self.remaining() < 8 {
            return Err(WireFault { kind: AnomalyKind::Truncated, offset: field_start });
        }
        let p = self.pos;
        let v = (self.buf[p] as u64) + (self.buf[p + 1] as u64) * 0x100 + (self.buf[p + 2] as u64)
            * 0x10000 + (self.buf[p + 3] as u64) * 0x1000000 + (self.buf[p + 4] as u64)
            * 0x100000000 + (self.buf[p + 5] as u64) * 0x10000000000 + (self.buf[p + 6] as u64)
            * 0x1000000000000 + (self.buf[p + 7] as u64) * 0x100000000000000;
        self.pos = p + 8;
        Ok(v)
    }

    fn read_fixed32(&mut self, field_start: usize) -> (r: Result<u32, WireFault>)
        requires
            old(self).wf(),
        ensures
            final(self).wf(),
            final(self).buf == old(self).buf,
            final(self).stopped == old(self).stopped,
            if old(self).buf@.len() - old(self).pos < 4 {
                r matches Err(fault) && fault.kind == AnomalyKind::Truncated && fault.offset
                    == field_start && final(self).pos == old(self).pos
            } else {
                r == Ok::<u32, WireFault>(le32_at(old(self).buf@, old(self).pos as int))
                    && final(self).pos == old(self).pos + 4
            },
    {
        if self.remaining() < 4 {
            return Err(WireFault { kind: AnomalyKind::Truncated, offset: field_start });
        }
        let p = self.pos;
        let v = (self.buf[p] as u32) + (self.buf[p + 1] as u32) * 0x100 + (self.buf[p + 2] as u32)
            * 0x10000 + (self.buf[p + 3] as u32) * 0x1000000;
        self.pos = p + 4;
        Ok(v)
    }
}

// ── Value interpretation helpers ─────────────────────────────────────────────

/// Interprets a varint as `bool`: in protobuf every non-zero value is `true`.
pub fn as_bool(v: u64) -> (r: bool)
    ensures
        r == (v != 0),
{
    v != 0
}

/// Interprets a varint as `int32` (negatives arrive sign-extended to 64 bits).
pub fn as_i32(v: u64) -> (r: i32)
    ensures
        r == (v as u32) as i32,
{
    v as u32 as i32
}


/// Every fault the wire reader reports is wire-level: a payload that gives
/// one does not read as protobuf.
pub proof fn law_wire_faults_are_wire_level(buf: Seq<u8>, start: int)
    ensures
        field_at(buf, start) matches FieldOutcome::Fault { kind, .. } ==> spec_is_wire_level(kind),
{
}


/// A varint of one byte below `0x80` is that byte; one of two bytes is the
/// low seven bits of the first plus 128 times the second.
pub proof fn law_short_varints(buf: Seq<u8>, start: int)
    requires
        0 <= start,
    ensures
        start < buf.len() && buf[start] < 0x80 ==> varint_at(buf, start) == (VarintOutcome::Done {
            value: buf[start] as u64,
            end: start + 1,
        }),
        start + 1 < buf.len() && buf[start] >= 0x80 && buf[start + 1] < 0x80 ==> varint_at(buf, start)
            == (VarintOutcome::Done {
            value: ((buf[start] - 0x80) + 0x80 * buf[start + 1]) as u64,
            end: start + 2,
        }),
        start >= buf.len() ==> varint_at(buf, start) == (VarintOutcome::Truncated { end: start }),
{
    if start < buf.len() {
        let b = buf[start];
        assert(b < 0x80 ==> (0u64 | (((b & 0x7f) as u64) << 0u32)) == b as u64 && b & 0x80 == 0)
            by (bit_vector);
        assert(b >= 0x80 ==> (0u64 | (((b & 0x7f) as u64) << 0u32)) == (b - 0x80) as u64 && b & 0x80
            != 0) by (bit_vector);
        if start + 1 < buf.len() && b >= 0x80 {
            let c = buf[start + 1];
            let lo: u64 = (b - 0x80) as u64;
            assert(lo < 0x80 && c < 0x80 ==> (lo | (((c & 0x7f) as u64) << 7u32)) == lo + 0x80
                * (c as u64) && c & 0x80 == 0) by (bit_vector);
            if c < 0x80 {
                reveal_with_fuel(varint_from, 3);
                assert(varint_from(buf, start, 0, 0) == varint_from(buf, start, 1, lo));
                assert((7 * 1nat) as u32 == 7u32);
                assert(varint_from(buf, start, 1, lo) == (VarintOutcome::Done {
                    value: lo | (((c & 0x7f) as u64) << 7u32),
                    end: start + 2,
                }));
            }
        }
    }
}

/// A field whose tag is one byte of wire type 0 followed by a one-byte
/// varint is read as field `tag / 8` holding that byte, and ends two bytes on.
pub proof fn law_small_varint_field(buf: Seq<u8>, start: int)
    requires
        0 <= start,
        start + 1 < buf.len(),
        buf[start] < 0x80,
        buf[start] % 8 == 0,
        buf[start] >= 8,
        buf[start + 1] < 0x80,
    ensures
        field_at(buf, start) == (FieldOutcome::Read {
            field: FieldView {
                number: (buf[start] / 8) as u32,
                wire_type: 0,
                value: ValueView::Varint(buf[start + 1] as u64),
                offset: start as usize,
            },
            end: start + 2,
        }),
{
    law_short_varints(buf, start);
    law_short_varints(buf, start + 1);
    let t = buf[start] as u64;
    assert(t < 0x80 && t % 8 == 0 && t >= 8 ==> (t >> 3u64) as u32 == (t / 8) as u32 && (t & 7u64)
        as u8 == 0u8 && (t >> 3u64) as u32 != 0u32) by (bit_vector);
}

} // verus!
