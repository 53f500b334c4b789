//! Decoding machinery that binds wire fields to schema messages.
//!
//! Each message type only writes `merge_field`: "this field number is that
//! field of mine". Unknown-field detection, wire type checks, `required`
//! checks, the depth cap, path tracking and anomaly reporting live here, in
//! one place.
use vstd::prelude::*;
use crate::anomaly::{spec_is_payload_level, spec_is_wire_level, Anomaly, AnomalyKind, AnomalyView};
use crate::text::{decimal, decimal_string, join_dot, join_with_dot, owned, string_views, utf8_to_string};
use crate::wire::{field_at, spec_span, Field, FieldOutcome, FieldView, ValueView, WireReader, WireValue};
use crate::wire_type;
use vstd::utf8::{decode_utf8, valid_utf8};

verus! {

/// Nesting cap for nested messages.
///
/// The GTFS-Realtime schema has no message that contains itself, and the
/// decoder only descends into fields it knows, so a hostile payload cannot
/// raise the depth at will. The deepest legitimate path is five levels:
/// `FeedMessage → entity → alert → informed_entity → trip → modified_trip`.
/// The cap stays as a cheap guard should the schema ever gain a cycle.
pub const DEFAULT_MAX_DEPTH: u32 = 32;

/// Extension ranges that `gtfs-realtime.proto` reserves in every message.
pub open spec fn spec_in_extension_range(field: u32) -> bool {
    (1000 <= field <= 1999) || (9000 <= field <= 9999)
}

fn in_extension_range(field: u32) -> (r: bool)
    ensures
        r == spec_in_extension_range(field),
{
    (field >= 1000 && field <= 1999) || (field >= 9000 && field <= 9999)
}

/// The anomaly for a field number a message does not define.
pub open spec fn spec_undefined_field(number: u32) -> AnomalyKind {
    if spec_in_extension_range(number) {
        AnomalyKind::ExtensionField { field: number }
    } else {
        AnomalyKind::UnknownField { field: number }
    }
}

/// The parts of the decoding state that a nested decode restores on exit.
pub struct Env {
    pub path: Seq<Seq<char>>,
    pub depth: u32,
    pub max_depth: u32,
    pub offset_base: usize,
}

/// Decoding state as a plain value.
pub struct CtxView {
    pub env: Env,
    pub anomalies: Seq<AnomalyView>,
}

/// Records an anomaly at `local` bytes past the start of the current message.
pub open spec fn spec_report(env: Env, acc: Seq<AnomalyView>, kind: AnomalyKind, local: int) -> Seq<
    AnomalyView,
> {
    acc.push(
        AnomalyView { kind, path: join_dot(env.path), offset: (env.offset_base + local) as usize },
    )
}

/// The anomaly for a field that arrived with another wire type than expected.
pub open spec fn spec_wrong_type(env: Env, acc: Seq<AnomalyView>, f: FieldView, expected: u8) -> Seq<
    AnomalyView,
> {
    spec_report(
        env,
        acc,
        AnomalyKind::UnexpectedWireType { expected, found: f.wire_type },
        f.offset as int,
    )
}

/// Reads a varint field.
pub open spec fn spec_u64(env: Env, acc: Seq<AnomalyView>, f: FieldView) -> (Option<u64>, Seq<
    AnomalyView,
>) {
    match f.value {
        ValueView::Varint(v) => (Some(v), acc),
        _ => (None, spec_wrong_type(env, acc, f, wire_type::VARINT)),
    }
}

/// Reads a varint field as `uint32` (truncating, as protobuf does).
pub open spec fn spec_u32(env: Env, acc: Seq<AnomalyView>, f: FieldView) -> (Option<u32>, Seq<
    AnomalyView,
>) {
    let (v, a) = spec_u64(env, acc, f);
    (
        match v {
            Some(x) => Some(x as u32),
            None => None,
        },
        a,
    )
}

/// Reads a varint field as `int32` (low 32 bits, two's complement).
pub open spec fn spec_i32(env: Env, acc: Seq<AnomalyView>, f: FieldView) -> (Option<i32>, Seq<
    AnomalyView,
>) {
    let (v, a) = spec_u64(env, acc, f);
    (
        match v {
            Some(x) => Some((x as u32) as i32),
            None => None,
        },
        a,
    )
}

/// Reads a varint field as `int64` (two's complement).
pub open spec fn spec_i64(env: Env, acc: Seq<AnomalyView>, f: FieldView) -> (Option<i64>, Seq<
    AnomalyView,
>) {
    let (v, a) = spec_u64(env, acc, f);
    (
        match v {
            Some(x) => Some(x as i64),
            None => None,
        },
        a,
    )
}

/// Reads a varint field as `bool`: every non-zero value is `true`.
pub open spec fn spec_bool(env: Env, acc: Seq<AnomalyView>, f: FieldView) -> (Option<bool>, Seq<
    AnomalyView,
>) {
    let (v, a) = spec_u64(env, acc, f);
    (
        match v {
            Some(x) => Some(x != 0),
            None => None,
        },
        a,
    )
}

/// A singular field after a read: the new value when the read succeeded,
/// else the value it had (a broken repetition does not erase a good one).
pub open spec fn keep<T>(read: Option<T>, current: Option<T>) -> Option<T> {
    if read is Some {
        read
    } else {
        current
    }
}

/// A repeated field after a read: extended only when the read succeeded.
pub open spec fn push_some<T>(items: Seq<T>, read: Option<T>) -> Seq<T> {
    match read {
        Some(v) => items.push(v),
        None => items,
    }
}

/// Reads a fixed32 field as its raw bits.
pub open spec fn spec_fixed32(env: Env, acc: Seq<AnomalyView>, f: FieldView) -> (Option<u32>, Seq<
    AnomalyView,
>) {
    match f.value {
        ValueView::Fixed32(v) => (Some(v), acc),
        _ => (None, spec_wrong_type(env, acc, f, wire_type::FIXED32)),
    }
}

/// Reads a fixed64 field as its raw bits.
pub open spec fn spec_fixed64(env: Env, acc: Seq<AnomalyView>, f: FieldView) -> (Option<u64>, Seq<
    AnomalyView,
>) {
    match f.value {
        ValueView::Fixed64(v) => (Some(v), acc),
        _ => (None, spec_wrong_type(env, acc, f, wire_type::FIXED64)),
    }
}

/// Reads a length-delimited field's bytes.
pub open spec fn spec_bytes(env: Env, acc: Seq<AnomalyView>, f: FieldView) -> (Option<Seq<u8>>, Seq<
    AnomalyView,
>) {
    match f.value {
        ValueView::Len(s) => (Some(s), acc),
        _ => (None, spec_wrong_type(env, acc, f, wire_type::LEN)),
    }
}

/// Reads a string field; invalid UTF-8 is reported and the value dropped.
pub open spec fn spec_string(env: Env, acc: Seq<AnomalyView>, f: FieldView) -> (Option<Seq<char>>, Seq<
    AnomalyView,
>) {
    match f.value {
        ValueView::Len(s) => if valid_utf8(s) {
            (Some(decode_utf8(s)), acc)
        } else {
            (None, spec_report(env, acc, AnomalyKind::InvalidUtf8, f.offset as int))
        },
        _ => (None, spec_wrong_type(env, acc, f, wire_type::LEN)),
    }
}

/// A sum type whose variants carry the numbers of a protobuf enum.
pub trait ProtoEnum: Sized + Copy {
    /// The enum's name in the specification.
    spec fn spec_enum_name() -> &'static str;

    /// The variant a number stands for, if any.
    spec fn spec_from_i32(value: i32) -> Option<Self>;

    /// The number a variant stands for.
    spec fn spec_value(self) -> i32;

    fn enum_name() -> (r: &'static str)
        ensures
            r == Self::spec_enum_name(),
    ;

    fn from_i32(value: i32) -> (r: Option<Self>)
        ensures
            r == Self::spec_from_i32(value),
    ;

    /// A variant's number maps back to the variant.
    proof fn law_round_trip(e: Self)
        ensures
            Self::spec_from_i32(e.spec_value()) == Some(e),
    ;

    /// A number that maps to a variant is that variant's number.
    proof fn law_value_of_variant(v: i32)
        ensures
            Self::spec_from_i32(v) matches Some(e) ==> e.spec_value() == v,
    ;
}

/// Reads an enum field; a number the schema does not define is reported and dropped.
pub open spec fn spec_enum<E: ProtoEnum>(env: Env, acc: Seq<AnomalyView>, f: FieldView) -> (Option<
    E,
>, Seq<AnomalyView>) {
    match f.value {
        ValueView::Varint(raw) => {
            let signed = raw as i64;
            match E::spec_from_i32(signed as i32) {
                Some(v) => (Some(v), acc),
                None => (
                    None,
                    spec_report(
                        env,
                        acc,
                        AnomalyKind::UnknownEnumValue {
                            enum_name: E::spec_enum_name(),
                            value: signed,
                        },
                        f.offset as int,
                    ),
                ),
            }
        },
        _ => (None, spec_wrong_type(env, acc, f, wire_type::VARINT)),
    }
}

/// The decoding contract of a message type.
pub trait Message: Sized + View {
    /// The message with no field set.
    spec fn spec_empty() -> Self::V;

    /// Merging one field: the new message, whether the field number is
    /// defined, and the anomalies after.
    spec fn spec_merge(msg: Self::V, f: FieldView, env: Env, acc: Seq<AnomalyView>) -> (
        Self::V,
        bool,
        Seq<AnomalyView>,
    );

    /// The anomalies after checking proto2 `required` fields.
    spec fn spec_check_required(msg: Self::V, env: Env, acc: Seq<AnomalyView>) -> Seq<AnomalyView>;

    fn empty() -> (r: Self)
        ensures
            r@ == Self::spec_empty(),
    ;

    /// Merges a known field into the message; `false` when this schema does
    /// not define the field number (the caller reports it, and nothing was
    /// reported here). What a field adds lies within its bytes, in order.
    fn merge_field(&mut self, field: &Field<'_>, ctx: &mut DecodeCtx) -> (known: bool)
        requires
            old(ctx)@.env.offset_base + field@.offset + spec_span(field@) <= usize::MAX,
        ensures
            final(ctx)@.env == old(ctx)@.env,
            appended_in_order(
                old(ctx)@.anomalies,
                final(ctx)@.anomalies,
                old(ctx)@.env.offset_base + field@.offset,
                old(ctx)@.env.offset_base + field@.offset + spec_span(field@),
            ),
            !known ==> final(ctx)@.anomalies == old(ctx)@.anomalies,
            (final(self)@, known, final(ctx)@.anomalies) == Self::spec_merge(
                old(self)@,
                field@,
                old(ctx)@.env,
                old(ctx)@.anomalies,
            ),
    ;

    /// Checks proto2 `required` fields; what it reports stands at the start
    /// of the body.
    fn check_required(&self, ctx: &mut DecodeCtx)
        ensures
            final(ctx)@.env == old(ctx)@.env,
            appended_in_order(
                old(ctx)@.anomalies,
                final(ctx)@.anomalies,
                old(ctx)@.env.offset_base as int,
                old(ctx)@.env.offset_base as int,
            ),
            final(ctx)@.anomalies == Self::spec_check_required(
                self@,
                old(ctx)@.env,
                old(ctx)@.anomalies,
            ),
    ;
}

/// Reads the fields of a message body from `pos` on.
pub open spec fn spec_fields<M: Message>(
    bytes: Seq<u8>,
    pos: int,
    msg: M::V,
    env: Env,
    acc: Seq<AnomalyView>,
) -> (M::V, Seq<AnomalyView>)
    decreases bytes.len() - pos,
{
    if pos < 0 || pos >= bytes.len() {
        (msg, acc)
    } else {
        match field_at(bytes, pos) {
            FieldOutcome::Read { field, end } => {
                let (merged, known, acc2) = M::spec_merge(msg, field, env, acc);
                let acc3 = if known {
                    acc2
                } else {
                    spec_report(env, acc2, spec_undefined_field(field.number), field.offset as int)
                };
                if pos < end <= bytes.len() {
                    spec_fields::<M>(bytes, end, merged, env, acc3)
                } else {
                    (merged, acc3)
                }
            },
            FieldOutcome::Fault { kind, end } => {
                let acc2 = spec_report(env, acc, kind, pos);
                let left = bytes.len() - end;
                if left > 0 {
                    (
                        msg,
                        spec_report(
                            env,
                            acc2,
                            AnomalyKind::TrailingGarbage { remaining: left as usize },
                            end,
                        ),
                    )
                } else {
                    (msg, acc2)
                }
            },
        }
    }
}

/// Where the leading run of anomalies at offset `at` ends, looking from `i`.
pub open spec fn lead_end(s: Seq<AnomalyView>, at: int, i: int) -> int
    decreases s.len() - i,
{
    if 0 <= i < s.len() && s[i].offset == at {
        lead_end(s, at, i + 1)
    } else {
        i
    }
}

/// What a message body adds to the anomalies: its fields in order, then the
/// `required` check.
///
/// A missing `required` field is reported at the start of the body. Its
/// anomaly follows those the fields gave at that same offset and comes before
/// the later ones, so the list stays in byte order and, at equal offsets, in
/// decoding order.
pub open spec fn spec_body<M: Message>(bytes: Seq<u8>, env: Env) -> (M::V, Seq<AnomalyView>) {
    let (msg, found) = spec_fields::<M>(bytes, 0, M::spec_empty(), env, Seq::empty());
    let required = M::spec_check_required(msg, env, Seq::empty());
    let k = lead_end(found, env.offset_base as int, 0);
    (msg, found.take(k) + required + found.skip(k))
}

/// Decodes a message body after the anomalies `acc`, which it keeps in front
/// unchanged: what the body adds does not depend on what came before it.
pub open spec fn spec_decode_body<M: Message>(bytes: Seq<u8>, env: Env, acc: Seq<AnomalyView>) -> (
    M::V,
    Seq<AnomalyView>,
) {
    let (msg, own) = spec_body::<M>(bytes, env);
    (msg, acc + own)
}

/// Appending in order, at or past every offset already there, keeps the
/// whole list in order.
pub proof fn lemma_append_keeps_order(
    before: Seq<AnomalyView>,
    after: Seq<AnomalyView>,
    floor: int,
    lo: int,
    hi: int,
)
    requires
        offsets_in_order(before),
        forall|i: int| 0 <= i < before.len() ==> floor <= #[trigger] before[i].offset <= lo,
        appended_in_order(before, after, lo, hi),
        floor <= lo <= hi,
    ensures
        offsets_in_order(after),
        forall|i: int| 0 <= i < after.len() ==> floor <= #[trigger] after[i].offset <= hi,
{
    assert forall|i: int, j: int| 0 <= i <= j < after.len() implies #[trigger] after[i].offset
        <= #[trigger] after[j].offset by {
        if j < before.len() {
            assert(after[i] == before[i]);
            assert(after[j] == before[j]);
        } else if i < before.len() {
            assert(after[i] == before[i]);
        }
    }
    assert forall|i: int| 0 <= i < after.len() implies floor <= #[trigger] after[i].offset <= hi by {
        if i < before.len() {
            assert(after[i] == before[i]);
        }
    }
}

/// Placing anomalies at the body's start after the leading ones at that
/// offset keeps a body's anomalies in order.
proof fn lemma_required_in_front(
    acc: Seq<AnomalyView>,
    found: Seq<AnomalyView>,
    required: Seq<AnomalyView>,
    k: int,
    base: int,
    hi: int,
)
    requires
        offsets_in_order(found),
        forall|i: int| 0 <= i < found.len() ==> base <= #[trigger] found[i].offset <= hi,
        0 <= k <= found.len(),
        forall|j: int| 0 <= j < k ==> #[trigger] found[j].offset == base,
        appended_in_order(Seq::empty(), required, base, base),
        base <= hi,
    ensures
        appended_in_order(acc, acc + (found.take(k) + required + found.skip(k)), base, hi),
{
    let own = found.take(k) + required + found.skip(k);
    let all = acc + own;
    let r = required.len();
    assert forall|i: int| 0 <= i < own.len() implies #[trigger] own[i].offset == (if i < k + r {
        base
    } else {
        found[i - r].offset as int
    }) by {
        if i < k {
            assert(own[i] == found[i]);
        } else if i < k + r {
            assert(own[i] == required[i - k]);
        } else {
            assert(own[i] == found[i - r]);
        }
    }
    assert forall|i: int, j: int| acc.len() <= i <= j < all.len() implies #[trigger] all[i].offset
        <= #[trigger] all[j].offset by {
        let a = i - acc.len();
        let b = j - acc.len();
        assert(all[i] == own[a]);
        assert(all[j] == own[b]);
        assert(own[a].offset == (if a < k + r { base } else { found[a - r].offset as int }));
        assert(own[b].offset == (if b < k + r { base } else { found[b - r].offset as int }));
        if b >= k + r {
            assert(base <= found[b - r].offset);
        }
    }
    assert forall|i: int| acc.len() <= i < all.len() implies base <= #[trigger] all[i].offset <= hi by {
        let a = i - acc.len();
        assert(all[i] == own[a]);
        assert(own[a].offset == (if a < k + r { base } else { found[a - r].offset as int }));
    }
}

/// Anomaly offsets never decrease from one entry to the next.
pub open spec fn offsets_in_order(s: Seq<AnomalyView>) -> bool {
    forall|i: int, j: int| 0 <= i <= j < s.len() ==> #[trigger] s[i].offset <= #[trigger] s[j].offset
}

/// `after` is `before` followed by new anomalies whose offsets never decrease
/// and all lie between `lo` and `hi`.
pub open spec fn appended_in_order(
    before: Seq<AnomalyView>,
    after: Seq<AnomalyView>,
    lo: int,
    hi: int,
) -> bool {
    &&& before.len() <= after.len()
    &&& forall|i: int| 0 <= i < before.len() ==> after[i] == before[i]
    &&& forall|i: int, j: int|
        before.len() <= i <= j < after.len() ==> #[trigger] after[i].offset <= #[trigger] after[j].offset
    &&& forall|i: int| before.len() <= i < after.len() ==> lo <= #[trigger] after[i].offset <= hi
}

/// Decodes a nested message body whose field tag stands at `base`; the path
/// segment has already been pushed onto `env`. Past the depth cap the field is
/// reported at its tag and dropped.
pub open spec fn spec_decode_nested<M: Message>(
    bytes: Seq<u8>,
    base: usize,
    env: Env,
    acc: Seq<AnomalyView>,
) -> (Option<M::V>, Seq<AnomalyView>) {
    if env.depth >= env.max_depth {
        (
            None,
            spec_report(
                env,
                acc,
                AnomalyKind::DepthLimitExceeded { limit: env.max_depth },
                base - env.offset_base,
            ),
        )
    } else {
        let inner = Env { depth: (env.depth + 1) as u32, offset_base: base, ..env };
        let (msg, acc2) = spec_decode_body::<M>(bytes, inner, acc);
        (Some(msg), acc2)
    }
}

/// Decodes a nested message field under the path segment `segment`.
pub open spec fn spec_nested_at<M: Message>(
    f: FieldView,
    segment: Seq<char>,
    env: Env,
    acc: Seq<AnomalyView>,
) -> (Option<M::V>, Seq<AnomalyView>) {
    match f.value {
        ValueView::Len(bytes) => spec_decode_nested::<M>(
            bytes,
            (env.offset_base + f.offset) as usize,
            Env { path: env.path.push(segment), ..env },
            acc,
        ),
        _ => (None, spec_wrong_type(env, acc, f, wire_type::LEN)),
    }
}

/// A nested message field adds exactly what its body gives on its own
/// ([`spec_body`]), one level down: the segment pushed onto the
/// path, one level deeper, offsets counted from the field's tag. The
/// anomalies that came before stay in front, unchanged. A field of another
/// wire type is one `UnexpectedWireType` at the field's tag, under the
/// enclosing path.
pub proof fn law_nested_appends_the_body_alone<M: Message>(
    f: FieldView,
    segment: Seq<char>,
    env: Env,
    acc: Seq<AnomalyView>,
)
    ensures
        (match f.value {
            ValueView::Len(body) => env.depth < env.max_depth ==> {
                let inner = Env {
                    path: env.path.push(segment),
                    depth: (env.depth + 1) as u32,
                    max_depth: env.max_depth,
                    offset_base: (env.offset_base + f.offset) as usize,
                };
                let (msg, own) = spec_body::<M>(body, inner);
                spec_nested_at::<M>(f, segment, env, acc) == (Some(msg), acc + own)
            },
            _ => spec_nested_at::<M>(f, segment, env, acc) == (
                None::<M::V>,
                acc.push(
                    AnomalyView {
                        kind: AnomalyKind::UnexpectedWireType {
                            expected: wire_type::LEN,
                            found: f.wire_type,
                        },
                        path: join_dot(env.path),
                        offset: (env.offset_base + f.offset) as usize,
                    },
                ),
            ),
        }),
{
    match f.value {
        ValueView::Len(body) => {
            if env.depth < env.max_depth {
                let inner = Env {
                    path: env.path.push(segment),
                    depth: (env.depth + 1) as u32,
                    max_depth: env.max_depth,
                    offset_base: (env.offset_base + f.offset) as usize,
                };
            }
        },
        _ => {},
    }
}

/// An enum field that carries a variant's own number reads back as that
/// variant and reports nothing.
pub proof fn law_enum_value_round_trip<E: ProtoEnum>(
    env: Env,
    acc: Seq<AnomalyView>,
    f: FieldView,
    e: E,
)
    requires
        f.value == ValueView::Varint(e.spec_value() as i64 as u64),
    ensures
        spec_enum::<E>(env, acc, f) == (Some(e), acc),
{
    E::law_round_trip(e);
    let v: i32 = e.spec_value();
    assert((v as i64 as u64) as i64 as i32 == v) by (bit_vector);
}

/// The path segment of element `index` of a repeated field.
pub open spec fn indexed_segment(name: Seq<char>, index: nat) -> Seq<char> {
    name + seq!['['] + decimal(index) + seq![']']
}

/// The view of an optional value.
pub open spec fn opt_view<T: View>(o: Option<T>) -> Option<T::V> {
    match o {
        Some(v) => Some(v@),
        None => None,
    }
}

/// State carried through a decode: anomalies, the path stack and the depth.
pub struct DecodeCtx {
    anomalies: Vec<Anomaly>,
    /// Path segments; joined only when an anomaly is produced.
    path: Vec<String>,
    depth: u32,
    max_depth: u32,
    /// Where the current message body starts in the root payload. Anomaly
    /// offsets are always relative to the root payload.
    offset_base: usize,
}

impl View for DecodeCtx {
    type V = CtxView;

    closed spec fn view(&self) -> CtxView {
        CtxView {
            env: Env {
                path: string_views(self.path@),
                depth: self.depth,
                max_depth: self.max_depth,
                offset_base: self.offset_base,
            },
            anomalies: self.anomalies@.map_values(|a: Anomaly| a@),
        }
    }
}

impl Default for DecodeCtx {
    fn default() -> (r: Self)
        ensures
            r@.env == (Env {
                path: Seq::empty(),
                depth: 0,
                max_depth: DEFAULT_MAX_DEPTH,
                offset_base: 0,
            }),
            r@.anomalies == Seq::<AnomalyView>::empty(),
    {
        Self::new()
    }
}

impl DecodeCtx {
    pub fn new() -> (r: Self)
        ensures
            r@.env == (Env {
                path: Seq::empty(),
                depth: 0,
                max_depth: DEFAULT_MAX_DEPTH,
                offset_base: 0,
            }),
            r@.anomalies == Seq::<AnomalyView>::empty(),
    {
        let r = DecodeCtx {
            anomalies: Vec::new(),
            path: Vec::new(),
            depth: 0,
            max_depth: DEFAULT_MAX_DEPTH,
            offset_base: 0,
        };
        proof {
            assert(r@.env.path =~= Seq::empty());
            assert(r@.anomalies =~= Seq::empty());
        }
        r
    }

    /// Replaces the nesting cap (for fuzzing and tests).
    pub fn with_max_depth(self, max_depth: u32) -> (r: Self)
        ensures
            r@.env == (Env { max_depth, ..self@.env }),
            r@.anomalies == self@.anomalies,
    {
        let mut s = self;
        s.max_depth = max_depth;
        s
    }

    /// The anomalies so far, in byte order.
    pub fn anomalies(&self) -> (r: &[Anomaly])
        ensures
            r@.map_values(|a: Anomaly| a@) == self@.anomalies,
    {
        self.anomalies.as_slice()
    }

    pub fn into_anomalies(self) -> (r: Vec<Anomaly>)
        ensures
            r@.map_values(|a: Anomaly| a@) == self@.anomalies,
    {
        self.anomalies
    }

    /// Records an anomaly; the offset is made relative to the root payload.
    pub fn report(&mut self, kind: AnomalyKind, local_offset: usize)
        requires
            old(self)@.env.offset_base + local_offset <= usize::MAX,
        ensures
            final(self)@.env == old(self)@.env,
            appended_in_order(
                old(self)@.anomalies,
                final(self)@.anomalies,
                old(self)@.env.offset_base + local_offset,
                old(self)@.env.offset_base + local_offset,
            ),
            final(self)@.anomalies == spec_report(
                old(self)@.env,
                old(self)@.anomalies,
                kind,
                local_offset as int,
            ),
    {
        let path = join_with_dot(&self.path);
        let a = Anomaly::new(kind, path, self.offset_base + local_offset);
        let ghost before = self.anomalies@;
        self.anomalies.push(a);
        proof {
            assert(self.anomalies@.map_values(|a: Anomaly| a@) =~= before.map_values(
                |a: Anomaly| a@,
            ).push(a@));
        }
    }

    fn push_path(&mut self, seg: String)
        ensures
            final(self)@.env == (Env { path: old(self)@.env.path.push(seg@), ..old(self)@.env }),
            final(self)@.anomalies == old(self)@.anomalies,
            final(self).path@.len() == old(self).path@.len() + 1,
    {
        self.path.push(seg);
        proof {
            assert(string_views(self.path@) =~= string_views(old(self).path@).push(seg@));
        }
    }

    fn pop_path(&mut self)
        requires
            old(self).path@.len() > 0,
        ensures
            final(self)@.env == (Env {
                path: old(self)@.env.path.drop_last(),
                ..old(self)@.env
            }),
            final(self)@.anomalies == old(self)@.anomalies,
    {
        self.path.pop();
        proof {
            assert(string_views(self.path@) =~= string_views(old(self).path@).drop_last());
        }
    }

    fn wrong_type(&mut self, f: &Field<'_>, expected: u8)
        requires
            old(self)@.env.offset_base + f.offset <= usize::MAX,
        ensures
            final(self)@.env == old(self)@.env,
            appended_in_order(
                old(self)@.anomalies,
                final(self)@.anomalies,
                old(self)@.env.offset_base + f@.offset,
                old(self)@.env.offset_base + f@.offset + spec_span(f@),
            ),
            final(self)@.anomalies == spec_wrong_type(
                old(self)@.env,
                old(self)@.anomalies,
                f@,
                expected,
            ),
    {
        self.report(AnomalyKind::UnexpectedWireType { expected, found: f.wire_type }, f.offset);
    }

    // ── Scalar readers ───────────────────────────────────────────────────────
    //
    // All follow one pattern: if the wire type is not the expected one, report
    // and return `None`. A mistyped field is a real producer bug; interpreting
    // it anyway would hide that bug.

    pub fn u64(&mut self, f: &Field<'_>) -> (r: Option<u64>)
        requires
            old(self)@.env.offset_base + f.offset <= usize::MAX,
        ensures
            final(self)@.env == old(self)@.env,
            appended_in_order(
                old(self)@.anomalies,
                final(self)@.anomalies,
                old(self)@.env.offset_base + f@.offset,
                old(self)@.env.offset_base + f@.offset + spec_span(f@),
            ),
            (r, final(self)@.anomalies) == spec_u64(old(self)@.env, old(self)@.anomalies, f@),
    {
        match f.value {
            WireValue::Varint(v) => Some(v),
            _ => {
                self.wrong_type(f, wire_type::VARINT);
                None
            },
        }
    }

    pub fn u32(&mut self, f: &Field<'_>) -> (r: Option<u32>)
        requires
            old(self)@.env.offset_base + f.offset <= usize::MAX,
        ensures
            final(self)@.env == old(self)@.env,
            appended_in_order(
                old(self)@.anomalies,
                final(self)@.anomalies,
                old(self)@.env.offset_base + f@.offset,
                old(self)@.env.offset_base + f@.offset + spec_span(f@),
            ),
            (r, final(self)@.anomalies) == spec_u32(old(self)@.env, old(self)@.anomalies, f@),
    {
        match self.u64(f) {
            Some(v) => Some(v as u32),
            None => None,
        }
    }

    pub fn i32(&mut self, f: &Field<'_>) -> (r: Option<i32>)
        requires
            old(self)@.env.offset_base + f.offset <= usize::MAX,
        ensures
            final(self)@.env == old(self)@.env,
            appended_in_order(
                old(self)@.anomalies,
                final(self)@.anomalies,
                old(self)@.env.offset_base + f@.offset,
                old(self)@.env.offset_base + f@.offset + spec_span(f@),
            ),
            (r, final(self)@.anomalies) == spec_i32(old(self)@.env, old(self)@.anomalies, f@),
    {
        match self.u64(f) {
            Some(v) => Some(crate::wire::as_i32(v)),
            None => None,
        }
    }

    pub fn i64(&mut self, f: &Field<'_>) -> (r: Option<i64>)
        requires
            old(self)@.env.offset_base + f.offset <= usize::MAX,
        ensures
            final(self)@.env == old(self)@.env,
            appended_in_order(
                old(self)@.anomalies,
                final(self)@.anomalies,
                old(self)@.env.offset_base + f@.offset,
                old(self)@.env.offset_base + f@.offset + spec_span(f@),
            ),
            (r, final(self)@.anomalies) == spec_i64(old(self)@.env, old(self)@.anomalies, f@),
    {
        match self.u64(f) {
            Some(v) => Some(v as i64),
            None => None,
        }
    }

    pub fn bool(&mut self, f: &Field<'_>) -> (r: Option<bool>)
        requires
            old(self)@.env.offset_base + f.offset <= usize::MAX,
        ensures
            final(self)@.env == old(self)@.env,
            appended_in_order(
                old(self)@.anomalies,
                final(self)@.anomalies,
                old(self)@.env.offset_base + f@.offset,
                old(self)@.env.offset_base + f@.offset + spec_span(f@),
            ),
            (r, final(self)@.anomalies) == spec_bool(old(self)@.env, old(self)@.anomalies, f@),
    {
        match self.u64(f) {
            Some(v) => Some(crate::wire::as_bool(v)),
            None => None,
        }
    }

    /// A `float` field, as its IEEE-754 bits.
    pub fn fixed32(&mut self, f: &Field<'_>) -> (r: Option<u32>)
        requires
            old(self)@.env.offset_base + f.offset <= usize::MAX,
        ensures
            final(self)@.env == old(self)@.env,
            appended_in_order(
                old(self)@.anomalies,
                final(self)@.anomalies,
                old(self)@.env.offset_base + f@.offset,
                old(self)@.env.offset_base + f@.offset + spec_span(f@),
            ),
            (r, final(self)@.anomalies) == spec_fixed32(old(self)@.env, old(self)@.anomalies, f@),
    {
        match f.value {
            WireValue::Fixed32(v) => Some(v),
            _ => {
                self.wrong_type(f, wire_type::FIXED32);
                None
            },
        }
    }

    /// A `double` field, as its IEEE-754 bits.
    pub fn fixed64(&mut self, f: &Field<'_>) -> (r: Option<u64>)
        requires
            old(self)@.env.offset_base + f.offset <= usize::MAX,
        ensures
            final(self)@.env == old(self)@.env,
            appended_in_order(
                old(self)@.anomalies,
                final(self)@.anomalies,
                old(self)@.env.offset_base + f@.offset,
                old(self)@.env.offset_base + f@.offset + spec_span(f@),
            ),
            (r, final(self)@.anomalies) == spec_fixed64(old(self)@.env, old(self)@.anomalies, f@),
    {
        match f.value {
            WireValue::Fixed64(v) => Some(v),
            _ => {
                self.wrong_type(f, wire_type::FIXED64);
                None
            },
        }
    }

    /// A UTF-8 string field. Invalid bytes are reported and the field dropped.
    pub fn string(&mut self, f: &Field<'_>) -> (r: Option<String>)
        requires
            old(self)@.env.offset_base + f.offset <= usize::MAX,
        ensures
            final(self)@.env == old(self)@.env,
            appended_in_order(
                old(self)@.anomalies,
                final(self)@.anomalies,
                old(self)@.env.offset_base + f@.offset,
                old(self)@.env.offset_base + f@.offset + spec_span(f@),
            ),
            (opt_view(r), final(self)@.anomalies) == spec_string(
                old(self)@.env,
                old(self)@.anomalies,
                f@,
            ),
    {
        let bytes = match self.bytes(f) {
            Some(b) => b,
            None => return None,
        };
        match utf8_to_string(bytes) {
            Some(s) => Some(s),
            None => {
                self.report(AnomalyKind::InvalidUtf8, f.offset);
                None
            },
        }
    }

    pub fn bytes<'a>(&mut self, f: &Field<'a>) -> (r: Option<&'a [u8]>)
        requires
            old(self)@.env.offset_base + f.offset <= usize::MAX,
        ensures
            final(self)@.env == old(self)@.env,
            appended_in_order(
                old(self)@.anomalies,
                final(self)@.anomalies,
                old(self)@.env.offset_base + f@.offset,
                old(self)@.env.offset_base + f@.offset + spec_span(f@),
            ),
            (opt_view(r), final(self)@.anomalies) == spec_bytes(
                old(self)@.env,
                old(self)@.anomalies,
                f@,
            ),
    {
        match f.value {
            WireValue::Len(b) => Some(b),
            _ => {
                self.wrong_type(f, wire_type::LEN);
                None
            },
        }
    }

    /// An enum field. A number the schema does not define is reported and the
    /// field dropped; the raw number stays readable through `u64`.
    pub fn enum_value<E: ProtoEnum>(&mut self, f: &Field<'_>) -> (r: Option<E>)
        requires
            old(self)@.env.offset_base + f.offset <= usize::MAX,
        ensures
            final(self)@.env == old(self)@.env,
            appended_in_order(
                old(self)@.anomalies,
                final(self)@.anomalies,
                old(self)@.env.offset_base + f@.offset,
                old(self)@.env.offset_base + f@.offset + spec_span(f@),
            ),
            (r, final(self)@.anomalies) == spec_enum::<E>(old(self)@.env, old(self)@.anomalies, f@),
    {
        let raw = match self.u64(f) {
            Some(v) => v,
            None => return None,
        };
        let signed = raw as i64;
        match E::from_i32(signed as i32) {
            Some(v) => Some(v),
            None => {
                self.report(
                    AnomalyKind::UnknownEnumValue { enum_name: E::enum_name(), value: signed },
                    f.offset,
                );
                None
            },
        }
    }

    /// A nested message. The depth cap applies here.
    pub fn nested<M: Message>(&mut self, f: &Field<'_>, field_name: &str) -> (r: Option<M>)
        requires
            old(self)@.env.offset_base + f.offset + spec_span(f@) <= usize::MAX,
        ensures
            final(self)@.env == old(self)@.env,
            appended_in_order(
                old(self)@.anomalies,
                final(self)@.anomalies,
                old(self)@.env.offset_base + f@.offset,
                old(self)@.env.offset_base + f@.offset + spec_span(f@),
            ),
            (opt_view(r), final(self)@.anomalies) == spec_nested_at::<M>(
                f@,
                field_name@,
                old(self)@.env,
                old(self)@.anomalies,
            ),
    {
        let bytes = match self.bytes(f) {
            Some(b) => b,
            None => return None,
        };
        // The tag offset serves as the anchor of the nested body: close enough
        // to the body, and the same reference for every anomaly inside it.
        let base = self.offset_base + f.offset;
        self.push_path(owned(field_name));
        let out = self.decode_nested::<M>(bytes, base);
        self.pop_path();
        proof {
            assert(self@.env.path =~= old(self)@.env.path);
        }
        out
    }

    /// A repeated nested message; the path segment carries the element index.
    pub fn nested_repeated<M: Message>(&mut self, f: &Field<'_>, field_name: &str, index: usize) -> (r:
        Option<M>)
        requires
            old(self)@.env.offset_base + f.offset + spec_span(f@) <= usize::MAX,
        ensures
            final(self)@.env == old(self)@.env,
            appended_in_order(
                old(self)@.anomalies,
                final(self)@.anomalies,
                old(self)@.env.offset_base + f@.offset,
                old(self)@.env.offset_base + f@.offset + spec_span(f@),
            ),
            (opt_view(r), final(self)@.anomalies) == spec_nested_at::<M>(
                f@,
                indexed_segment(field_name@, index as nat),
                old(self)@.env,
                old(self)@.anomalies,
            ),
    {
        let bytes = match self.bytes(f) {
            Some(b) => b,
            None => return None,
        };
        let base = self.offset_base + f.offset;
        let mut seg = owned(field_name);
        seg.append("[");
        let digits = decimal_string(index as u64);
        seg.append(digits.as_str());
        seg.append("]");
        proof {
            reveal_strlit("[");
            reveal_strlit("]");
            assert(seg@ =~= indexed_segment(field_name@, index as nat));
        }
        self.push_path(seg);
        let out = self.decode_nested::<M>(bytes, base);
        self.pop_path();
        proof {
            assert(self@.env.path =~= old(self)@.env.path);
        }
        out
    }

    fn decode_nested<M: Message>(&mut self, bytes: &[u8], base: usize) -> (r: Option<M>)
        requires
            old(self)@.env.offset_base <= base,
            base + bytes@.len() <= usize::MAX,
            old(self).path@.len() > 0,
        ensures
            final(self)@.env == old(self)@.env,
            appended_in_order(
                old(self)@.anomalies,
                final(self)@.anomalies,
                base as int,
                base + bytes@.len(),
            ),
            final(self).path@.len() == old(self).path@.len(),
            (opt_view(r), final(self)@.anomalies) == spec_decode_nested::<M>(
                bytes@,
                base,
                old(self)@.env,
                old(self)@.anomalies,
            ),
    {
        if self.depth >= self.max_depth {
            self.report(AnomalyKind::DepthLimitExceeded { limit: self.max_depth }, base - self.offset_base);
            return None;
        }
        let saved_base = self.offset_base;
        let ghost saved_path = self.path@;
        self.offset_base = base;
        self.depth = self.depth + 1;
        let msg = decode_body::<M>(bytes, self);
        self.depth = self.depth - 1;
        self.offset_base = saved_base;
        proof {
            assert(string_views(self.path@) == string_views(saved_path));
            assert(self.path@.len() == string_views(self.path@).len());
        }
        Some(msg)
    }

    /// Reports a missing proto2 `required` field.
    pub fn missing_required(&mut self, field: &'static str)
        ensures
            final(self)@.env == old(self)@.env,
            appended_in_order(
                old(self)@.anomalies,
                final(self)@.anomalies,
                old(self)@.env.offset_base as int,
                old(self)@.env.offset_base as int,
            ),
            final(self)@.anomalies == spec_report(
                old(self)@.env,
                old(self)@.anomalies,
                AnomalyKind::MissingRequiredField { field },
                0,
            ),
    {
        self.report(AnomalyKind::MissingRequiredField { field }, 0);
    }
}

/// Decodes a message body (a bare sequence of fields, without a length prefix).
///
/// On a wire fault the reader stops; the fields decoded up to then are kept.
/// This is where partial results come from. The anomalies it adds are in byte
/// order and lie within the body.
pub fn decode_body<M: Message>(bytes: &[u8], ctx: &mut DecodeCtx) -> (r: M)
    requires
        old(ctx)@.env.offset_base + bytes@.len() <= usize::MAX,
    ensures
        final(ctx)@.env == old(ctx)@.env,
        (r@, final(ctx)@.anomalies) == spec_decode_body::<M>(
            bytes@,
            old(ctx)@.env,
            old(ctx)@.anomalies,
        ),
        appended_in_order(
            old(ctx)@.anomalies,
            final(ctx)@.anomalies,
            old(ctx)@.env.offset_base as int,
            old(ctx)@.env.offset_base + bytes@.len(),
        ),
{
    let ghost env = ctx@.env;
    let ghost acc0 = ctx@.anomalies;
    let ghost base = env.offset_base as int;
    // The body's anomalies are gathered apart and joined at the end, so that
    // the `required` check can stand in front of what the fields gave.
    let mut outer: Vec<Anomaly> = Vec::new();
    std::mem::swap(&mut outer, &mut ctx.anomalies);
    proof {
        assert(ctx@.anomalies =~= Seq::<AnomalyView>::empty());
    }
    let ghost goal = spec_fields::<M>(bytes@, 0, M::spec_empty(), env, Seq::empty());
    let mut msg = M::empty();
    let mut reader = WireReader::new(bytes);
    let total = bytes.len();
    loop
        invariant_except_break
            reader@.buf == bytes@,
            !reader@.stopped,
            0 <= reader@.pos <= bytes@.len(),
            total == bytes@.len(),
            ctx@.env == env,
            base == env.offset_base,
            env.offset_base + bytes@.len() <= usize::MAX,
            goal == spec_fields::<M>(bytes@, reader@.pos, msg@, env, ctx@.anomalies),
            offsets_in_order(ctx@.anomalies),
            forall|i: int|
                0 <= i < ctx@.anomalies.len() ==> base <= #[trigger] ctx@.anomalies[i].offset
                    < base + reader@.pos,
        ensures
            ctx@.env == env,
            goal == (msg@, ctx@.anomalies),
            offsets_in_order(ctx@.anomalies),
            forall|i: int|
                0 <= i < ctx@.anomalies.len() ==> base <= #[trigger] ctx@.anomalies[i].offset
                    <= base + bytes@.len(),
        decreases bytes@.len() - reader@.pos,
    {
        let ghost pos = reader@.pos;
        let ghost before = ctx@.anomalies;
        match reader.next_field() {
            None => {
                break;
            },
            Some(Ok(field)) => {
                proof {
                    crate::wire::lemma_field_bounds(bytes@, pos);
                    assert(field@.offset == pos);
                }
                let known = msg.merge_field(&field, ctx);
                proof {
                    lemma_append_keeps_order(
                        before,
                        ctx@.anomalies,
                        base,
                        base + pos,
                        base + pos + spec_span(field@),
                    );
                }
                if !known {
                    let kind = if in_extension_range(field.number) {
                        AnomalyKind::ExtensionField { field: field.number }
                    } else {
                        AnomalyKind::UnknownField { field: field.number }
                    };
                    ctx.report(kind, field.offset);
                    proof {
                        lemma_append_keeps_order(before, ctx@.anomalies, base, base + pos, base + pos);
                    }
                }
            },
            Some(Err(fault)) => {
                proof {
                    crate::wire::lemma_field_bounds(bytes@, pos);
                }
                ctx.report(fault.kind, fault.offset);
                let ghost mid = ctx@.anomalies;
                proof {
                    lemma_append_keeps_order(before, mid, base, base + pos, base + pos);
                }
                // Bytes left unread after the fault are reported on their own:
                // "the payload is broken" and "its last 3 KB are broken" are
                // different diagnoses.
                let left = reader.remaining();
                if left > 0 {
                    ctx.report(AnomalyKind::TrailingGarbage { remaining: left }, reader.position());
                    proof {
                        lemma_append_keeps_order(
                            mid,
                            ctx@.anomalies,
                            base,
                            base + reader@.pos,
                            base + reader@.pos,
                        );
                    }
                }
                break;
            },
        }
    }
    let ghost fields_v = ctx@.anomalies;
    let mut found: Vec<Anomaly> = Vec::new();
    std::mem::swap(&mut found, &mut ctx.anomalies);
    let ghost found_v = found@.map_values(|a: Anomaly| a@);
    proof {
        assert(found_v =~= fields_v);
        assert(ctx@.anomalies =~= Seq::<AnomalyView>::empty());
    }
    // The fields' anomalies at the body's own start come first, then the
    // `required` check, then the later ones.
    let start = ctx.offset_base;
    let mut k: usize = 0;
    while k < found.len() && found[k].offset == start
        invariant
            k <= found_v.len(),
            found_v == found@.map_values(|a: Anomaly| a@),
            start == base,
            lead_end(found_v, base, 0) == lead_end(found_v, base, k as int),
            forall|j: int| 0 <= j < k ==> #[trigger] found_v[j].offset == base,
        decreases found_v.len() - k,
    {
        proof {
            assert(found@[k as int]@ == found_v[k as int]);
        }
        k = k + 1;
    }
    proof {
        if k < found_v.len() {
            assert(found@[k as int]@ == found_v[k as int]);
        }
        assert(lead_end(found_v, base, k as int) == k);
    }
    let mut later = found.split_off(k);
    msg.check_required(ctx);
    let mut required: Vec<Anomaly> = Vec::new();
    std::mem::swap(&mut required, &mut ctx.anomalies);
    let ghost required_v = required@.map_values(|a: Anomaly| a@);
    let ghost outer_v = outer@.map_values(|a: Anomaly| a@);
    proof {
        assert(found@.map_values(|a: Anomaly| a@) =~= found_v.take(k as int));
        assert(later@.map_values(|a: Anomaly| a@) =~= found_v.skip(k as int));
        assert(outer_v =~= acc0);
    }
    outer.append(&mut found);
    outer.append(&mut required);
    outer.append(&mut later);
    ctx.anomalies = outer;
    proof {
        assert(ctx@.anomalies =~= acc0 + (found_v.take(k as int) + required_v + found_v.skip(
            k as int,
        )));
        lemma_required_in_front(acc0, found_v, required_v, k as int, base, base + bytes@.len());
    }
    msg
}


/// What the decoder reports of the bytes left after a fault, of a field sent
/// with another wire type and of a refused nesting is wire-level; what it
/// reports of the schema (undefined field numbers, missing `required` fields,
/// an entity's payload count, unknown enum values, invalid UTF-8) is not, and
/// neither is a payload that looks textual, which is payload-level.
pub proof fn law_anomaly_levels(
    remaining: usize,
    expected: u8,
    found: u8,
    limit: u32,
    number: u32,
    field: &'static str,
    count: usize,
    enum_name: &'static str,
    value: i64,
    looks_like: &'static str,
)
    ensures
        spec_is_wire_level(AnomalyKind::TrailingGarbage { remaining }),
        spec_is_wire_level(AnomalyKind::UnexpectedWireType { expected, found }),
        spec_is_wire_level(AnomalyKind::DepthLimitExceeded { limit }),
        !spec_is_wire_level(spec_undefined_field(number)),
        !spec_is_wire_level(AnomalyKind::MissingRequiredField { field }),
        !spec_is_wire_level(AnomalyKind::MultiplePayloads { count }),
        !spec_is_wire_level(AnomalyKind::NoPayload),
        !spec_is_wire_level(AnomalyKind::UnknownEnumValue { enum_name, value }),
        !spec_is_wire_level(AnomalyKind::InvalidUtf8),
        !spec_is_wire_level(AnomalyKind::NotProtobuf { looks_like }),
        spec_is_payload_level(AnomalyKind::NotProtobuf { looks_like }),
        !spec_is_payload_level(spec_undefined_field(number)),
{
}

} // verus!
