//! Structural observations collected while decoding.
//!
//! These are not rule findings: they say what was seen in the bytes. Whether
//! an observation is a violation, and how severe, is for a higher layer.
//!
//! Three families: payload level (the content is not protobuf at all), wire
//! level (protobuf framing is broken) and schema level (framing is sound but
//! does not match the GTFS-Realtime schema).
//!
//! Anomalies are collected while decoding, in byte order, with no hash map or
//! parallelism anywhere: the same input gives the same list in the same order
//! on every run.
use vstd::prelude::*;
use crate::text::{decimal, push_decimal, push_lit, signed_decimal, signed_decimal_string};

verus! {

/// Kind of a structural observation.
#[derive(Debug, Clone, PartialEq, Eq)]
pub enum AnomalyKind {
    /// The payload ended in the middle of a field.
    Truncated,
    /// Bytes are left over after the fault that stopped the reader.
    TrailingGarbage { remaining: usize },
    /// A varint longer than 10 bytes: no u64 is encoded that long.
    VarintTooLong,
    /// The schema expects this field with another wire type.
    UnexpectedWireType { expected: u8, found: u8 },
    /// proto2 group encoding (wire type 3/4). GTFS-Realtime never uses it.
    DeprecatedGroup,
    /// A wire type that protobuf does not define (6 or 7).
    ReservedWireType { found: u8 },
    /// A length-delimited field declares more bytes than are left.
    LengthExceedsRemaining { declared: usize, remaining: usize },
    /// Field number 0, which protobuf does not allow.
    ZeroFieldNumber,
    /// The nesting cap was reached.
    DepthLimitExceeded { limit: u32 },
    /// The payload looks like a common textual HTTP body instead of protobuf.
    NotProtobuf { looks_like: &'static str },
    /// A field number this message does not define.
    UnknownField { field: u32 },
    /// An undefined field number inside an extension range (1000-1999 / 9000-9999).
    ExtensionField { field: u32 },
    /// A proto2 `required` field is absent.
    MissingRequiredField { field: &'static str },
    /// A `FeedEntity` carries several payloads (the specification allows one).
    MultiplePayloads { count: usize },
    /// A `FeedEntity` carries no payload.
    NoPayload,
    /// An enum field holds a number the schema does not define.
    UnknownEnumValue { enum_name: &'static str, value: i64 },
    /// A string field is not valid UTF-8.
    InvalidUtf8,
}

/// Whether the kind belongs to the wire framing.
pub open spec fn spec_is_wire_level(k: AnomalyKind) -> bool {
    match k {
        AnomalyKind::Truncated => true,
        AnomalyKind::TrailingGarbage { .. } => true,
        AnomalyKind::VarintTooLong => true,
        AnomalyKind::UnexpectedWireType { .. } => true,
        AnomalyKind::DeprecatedGroup => true,
        AnomalyKind::ReservedWireType { .. } => true,
        AnomalyKind::LengthExceedsRemaining { .. } => true,
        AnomalyKind::ZeroFieldNumber => true,
        AnomalyKind::DepthLimitExceeded { .. } => true,
        _ => false,
    }
}

/// Whether the kind says the payload is not protobuf at all.
pub open spec fn spec_is_payload_level(k: AnomalyKind) -> bool {
    k is NotProtobuf
}

/// The stable short name of each kind.
pub open spec fn spec_stable_name(k: AnomalyKind) -> &'static str {
    match k {
        AnomalyKind::Truncated => "truncated",
        AnomalyKind::TrailingGarbage { .. } => "trailing_garbage",
        AnomalyKind::VarintTooLong => "varint_too_long",
        AnomalyKind::UnexpectedWireType { .. } => "unexpected_wire_type",
        AnomalyKind::DeprecatedGroup => "deprecated_group",
        AnomalyKind::ReservedWireType { .. } => "reserved_wire_type",
        AnomalyKind::LengthExceedsRemaining { .. } => "length_exceeds_remaining",
        AnomalyKind::ZeroFieldNumber => "zero_field_number",
        AnomalyKind::DepthLimitExceeded { .. } => "depth_limit_exceeded",
        AnomalyKind::NotProtobuf { .. } => "not_protobuf",
        AnomalyKind::UnknownField { .. } => "unknown_field",
        AnomalyKind::ExtensionField { .. } => "extension_field",
        AnomalyKind::MissingRequiredField { .. } => "missing_required_field",
        AnomalyKind::MultiplePayloads { .. } => "multiple_payloads",
        AnomalyKind::NoPayload => "no_payload",
        AnomalyKind::UnknownEnumValue { .. } => "unknown_enum_value",
        AnomalyKind::InvalidUtf8 => "invalid_utf8",
    }
}

/// The position of each variant in the declaration of [`AnomalyKind`].
pub open spec fn variant_number(k: AnomalyKind) -> nat {
    match k {
        AnomalyKind::Truncated => 0,
        AnomalyKind::TrailingGarbage { .. } => 1,
        AnomalyKind::VarintTooLong => 2,
        AnomalyKind::UnexpectedWireType { .. } => 3,
        AnomalyKind::DeprecatedGroup => 4,
        AnomalyKind::ReservedWireType { .. } => 5,
        AnomalyKind::LengthExceedsRemaining { .. } => 6,
        AnomalyKind::ZeroFieldNumber => 7,
        AnomalyKind::DepthLimitExceeded { .. } => 8,
        AnomalyKind::NotProtobuf { .. } => 9,
        AnomalyKind::UnknownField { .. } => 10,
        AnomalyKind::ExtensionField { .. } => 11,
        AnomalyKind::MissingRequiredField { .. } => 12,
        AnomalyKind::MultiplePayloads { .. } => 13,
        AnomalyKind::NoPayload => 14,
        AnomalyKind::UnknownEnumValue { .. } => 15,
        AnomalyKind::InvalidUtf8 => 16,
    }
}

/// The variant a stable name stands for: no two names share both their
/// length and their first letter.
spec fn variant_named(s: Seq<char>) -> nat {
    if s.len() == 9 && s[0] == 't' {
        0
    } else if s.len() == 16 && s[0] == 't' {
        1
    } else if s.len() == 15 && s[0] == 'v' {
        2
    } else if s.len() == 20 && s[0] == 'u' {
        3
    } else if s.len() == 16 && s[0] == 'd' {
        4
    } else if s.len() == 18 && s[0] == 'r' {
        5
    } else if s.len() == 24 && s[0] == 'l' {
        6
    } else if s.len() == 17 && s[0] == 'z' {
        7
    } else if s.len() == 20 && s[0] == 'd' {
        8
    } else if s.len() == 12 && s[0] == 'n' {
        9
    } else if s.len() == 13 && s[0] == 'u' {
        10
    } else if s.len() == 15 && s[0] == 'e' {
        11
    } else if s.len() == 22 && s[0] == 'm' {
        12
    } else if s.len() == 17 && s[0] == 'm' {
        13
    } else if s.len() == 10 && s[0] == 'n' {
        14
    } else if s.len() == 18 && s[0] == 'u' {
        15
    } else {
        16
    }
}

/// A kind's stable name stands for its variant.
proof fn lemma_name_gives_variant(k: AnomalyKind)
    ensures
        variant_named(spec_stable_name(k)@) == variant_number(k),
{
    reveal_strlit("truncated");
    reveal_strlit("trailing_garbage");
    reveal_strlit("varint_too_long");
    reveal_strlit("unexpected_wire_type");
    reveal_strlit("deprecated_group");
    reveal_strlit("reserved_wire_type");
    reveal_strlit("length_exceeds_remaining");
    reveal_strlit("zero_field_number");
    reveal_strlit("depth_limit_exceeded");
    reveal_strlit("not_protobuf");
    reveal_strlit("unknown_field");
    reveal_strlit("extension_field");
    reveal_strlit("missing_required_field");
    reveal_strlit("multiple_payloads");
    reveal_strlit("no_payload");
    reveal_strlit("unknown_enum_value");
    reveal_strlit("invalid_utf8");
    match k {
        AnomalyKind::Truncated => {},
        AnomalyKind::TrailingGarbage { .. } => {},
        AnomalyKind::VarintTooLong => {},
        AnomalyKind::UnexpectedWireType { .. } => {},
        AnomalyKind::DeprecatedGroup => {},
        AnomalyKind::ReservedWireType { .. } => {},
        AnomalyKind::LengthExceedsRemaining { .. } => {},
        AnomalyKind::ZeroFieldNumber => {},
        AnomalyKind::DepthLimitExceeded { .. } => {},
        AnomalyKind::NotProtobuf { .. } => {},
        AnomalyKind::UnknownField { .. } => {},
        AnomalyKind::ExtensionField { .. } => {},
        AnomalyKind::MissingRequiredField { .. } => {},
        AnomalyKind::MultiplePayloads { .. } => {},
        AnomalyKind::NoPayload => {},
        AnomalyKind::UnknownEnumValue { .. } => {},
        AnomalyKind::InvalidUtf8 => {},
    }
}

/// The stable name of each variant, as the report and the documentation
/// spell it.
pub proof fn law_stable_name_table(k: AnomalyKind)
    ensures
        (match k {
            AnomalyKind::Truncated => spec_stable_name(k)@ == "truncated"@,
            AnomalyKind::TrailingGarbage { .. } => spec_stable_name(k)@ == "trailing_garbage"@,
            AnomalyKind::VarintTooLong => spec_stable_name(k)@ == "varint_too_long"@,
            AnomalyKind::UnexpectedWireType { .. } => spec_stable_name(k)@ == "unexpected_wire_type"@,
            AnomalyKind::DeprecatedGroup => spec_stable_name(k)@ == "deprecated_group"@,
            AnomalyKind::ReservedWireType { .. } => spec_stable_name(k)@ == "reserved_wire_type"@,
            AnomalyKind::LengthExceedsRemaining { .. } => spec_stable_name(k)@ == "length_exceeds_remaining"@,
            AnomalyKind::ZeroFieldNumber => spec_stable_name(k)@ == "zero_field_number"@,
            AnomalyKind::DepthLimitExceeded { .. } => spec_stable_name(k)@ == "depth_limit_exceeded"@,
            AnomalyKind::NotProtobuf { .. } => spec_stable_name(k)@ == "not_protobuf"@,
            AnomalyKind::UnknownField { .. } => spec_stable_name(k)@ == "unknown_field"@,
            AnomalyKind::ExtensionField { .. } => spec_stable_name(k)@ == "extension_field"@,
            AnomalyKind::MissingRequiredField { .. } => spec_stable_name(k)@ == "missing_required_field"@,
            AnomalyKind::MultiplePayloads { .. } => spec_stable_name(k)@ == "multiple_payloads"@,
            AnomalyKind::NoPayload => spec_stable_name(k)@ == "no_payload"@,
            AnomalyKind::UnknownEnumValue { .. } => spec_stable_name(k)@ == "unknown_enum_value"@,
            AnomalyKind::InvalidUtf8 => spec_stable_name(k)@ == "invalid_utf8"@,
        }),
{
}

/// Stable names tell the variants apart: two kinds have the same name
/// exactly when they are the same variant, whatever their payloads.
pub proof fn law_stable_names_tell_variants_apart(a: AnomalyKind, b: AnomalyKind)
    ensures
        (spec_stable_name(a)@ == spec_stable_name(b)@) == (variant_number(a) == variant_number(b)),
{
    lemma_name_gives_variant(a);
    lemma_name_gives_variant(b);
}

/// The human-readable description of each kind.
pub open spec fn spec_describe(k: AnomalyKind) -> Seq<char> {
    match k {
        AnomalyKind::Truncated => "payload truncated"@,
        AnomalyKind::TrailingGarbage { remaining } => decimal(remaining as nat)
            + " trailing byte(s) after root message"@,
        AnomalyKind::VarintTooLong => "varint longer than 10 bytes"@,
        AnomalyKind::UnexpectedWireType { expected, found } => "wire type "@ + decimal(
            found as nat,
        ) + ", expected "@ + decimal(expected as nat),
        AnomalyKind::DeprecatedGroup => "deprecated group wire type (3/4)"@,
        AnomalyKind::ReservedWireType { found } => "reserved wire type "@ + decimal(found as nat),
        AnomalyKind::LengthExceedsRemaining { declared, remaining } => "declared length "@
            + decimal(declared as nat) + " exceeds "@ + decimal(remaining as nat)
            + " remaining byte(s)"@,
        AnomalyKind::ZeroFieldNumber => "field number 0 is invalid"@,
        AnomalyKind::DepthLimitExceeded { limit } => "nesting deeper than "@ + decimal(
            limit as nat,
        ),
        AnomalyKind::NotProtobuf { looks_like } => "payload is not protobuf (looks like "@
            + looks_like@ + ")"@,
        AnomalyKind::UnknownField { field } => "unknown field number "@ + decimal(field as nat),
        AnomalyKind::ExtensionField { field } => "extension field number "@ + decimal(
            field as nat,
        ) + " (not decoded)"@,
        AnomalyKind::MissingRequiredField { field } => "required field '"@ + field@
            + "' is missing"@,
        AnomalyKind::MultiplePayloads { count } => "FeedEntity carries "@ + decimal(count as nat)
            + " payloads, expected at most 1"@,
        AnomalyKind::NoPayload => "FeedEntity carries no payload"@,
        AnomalyKind::UnknownEnumValue { enum_name, value } => "value "@ + signed_decimal(
            value as int,
        ) + " is not a known "@ + enum_name@,
        AnomalyKind::InvalidUtf8 => "string field is not valid UTF-8"@,
    }
}

impl AnomalyKind {
    /// Whether the observation belongs to the wire framing rather than the schema.
    pub fn is_wire_level(&self) -> (r: bool)
        ensures
            r == spec_is_wire_level(*self),
    {
        match self {
            AnomalyKind::Truncated => true,
            AnomalyKind::TrailingGarbage { .. } => true,
            AnomalyKind::VarintTooLong => true,
            AnomalyKind::UnexpectedWireType { .. } => true,
            AnomalyKind::DeprecatedGroup => true,
            AnomalyKind::ReservedWireType { .. } => true,
            AnomalyKind::LengthExceedsRemaining { .. } => true,
            AnomalyKind::ZeroFieldNumber => true,
            AnomalyKind::DepthLimitExceeded { .. } => true,
            _ => false,
        }
    }

    /// Whether the input looks like a common textual response body instead of protobuf.
    pub fn is_payload_level(&self) -> (r: bool)
        ensures
            r == spec_is_payload_level(*self),
    {
        matches!(self, AnomalyKind::NotProtobuf { .. })
    }

    /// A fixed short name that survives renaming of the variants; usable as a
    /// grouping key.
    pub fn stable_name(&self) -> (r: &'static str)
        ensures
            r == spec_stable_name(*self),
    {
        match self {
            AnomalyKind::Truncated => "truncated",
            AnomalyKind::TrailingGarbage { .. } => "trailing_garbage",
            AnomalyKind::VarintTooLong => "varint_too_long",
            AnomalyKind::UnexpectedWireType { .. } => "unexpected_wire_type",
            AnomalyKind::DeprecatedGroup => "deprecated_group",
            AnomalyKind::ReservedWireType { .. } => "reserved_wire_type",
            AnomalyKind::LengthExceedsRemaining { .. } => "length_exceeds_remaining",
            AnomalyKind::ZeroFieldNumber => "zero_field_number",
            AnomalyKind::DepthLimitExceeded { .. } => "depth_limit_exceeded",
            AnomalyKind::NotProtobuf { .. } => "not_protobuf",
            AnomalyKind::UnknownField { .. } => "unknown_field",
            AnomalyKind::ExtensionField { .. } => "extension_field",
            AnomalyKind::MissingRequiredField { .. } => "missing_required_field",
            AnomalyKind::MultiplePayloads { .. } => "multiple_payloads",
            AnomalyKind::NoPayload => "no_payload",
            AnomalyKind::UnknownEnumValue { .. } => "unknown_enum_value",
            AnomalyKind::InvalidUtf8 => "invalid_utf8",
        }
    }

    /// Human-readable description, as the `Display` of the kind reads.
    pub fn describe(&self) -> (s: String)
        ensures
            s@ == spec_describe(*self),
    {
        let mut s = String::new();
        match self {
            AnomalyKind::Truncated => push_lit(&mut s, "payload truncated"),
            AnomalyKind::TrailingGarbage { remaining } => {
                push_decimal(&mut s, *remaining as u64);
                push_lit(&mut s, " trailing byte(s) after root message");
            },
            AnomalyKind::VarintTooLong => push_lit(&mut s, "varint longer than 10 bytes"),
            AnomalyKind::UnexpectedWireType { expected, found } => {
                push_lit(&mut s, "wire type ");
                push_decimal(&mut s, *found as u64);
                push_lit(&mut s, ", expected ");
                push_decimal(&mut s, *expected as u64);
            },
            AnomalyKind::DeprecatedGroup => push_lit(&mut s, "deprecated group wire type (3/4)"),
            AnomalyKind::ReservedWireType { found } => {
                push_lit(&mut s, "reserved wire type ");
                push_decimal(&mut s, *found as u64);
            },
            AnomalyKind::LengthExceedsRemaining { declared, remaining } => {
                push_lit(&mut s, "declared length ");
                push_decimal(&mut s, *declared as u64);
                push_lit(&mut s, " exceeds ");
                push_decimal(&mut s, *remaining as u64);
                push_lit(&mut s, " remaining byte(s)");
            },
            AnomalyKind::ZeroFieldNumber => push_lit(&mut s, "field number 0 is invalid"),
            AnomalyKind::DepthLimitExceeded { limit } => {
                push_lit(&mut s, "nesting deeper than ");
                push_decimal(&mut s, *limit as u64);
            },
            AnomalyKind::NotProtobuf { looks_like } => {
                push_lit(&mut s, "payload is not protobuf (looks like ");
                push_lit(&mut s, looks_like);
                push_lit(&mut s, ")");
            },
            AnomalyKind::UnknownField { field } => {
                push_lit(&mut s, "unknown field number ");
                push_decimal(&mut s, *field as u64);
            },
            AnomalyKind::ExtensionField { field } => {
                push_lit(&mut s, "extension field number ");
                push_decimal(&mut s, *field as u64);
                push_lit(&mut s, " (not decoded)");
            },
            AnomalyKind::MissingRequiredField { field } => {
                push_lit(&mut s, "required field '");
                push_lit(&mut s, field);
                push_lit(&mut s, "' is missing");
            },
            AnomalyKind::MultiplePayloads { count } => {
                push_lit(&mut s, "FeedEntity carries ");
                push_decimal(&mut s, *count as u64);
                push_lit(&mut s, " payloads, expected at most 1");
            },
            AnomalyKind::NoPayload => push_lit(&mut s, "FeedEntity carries no payload"),
            AnomalyKind::UnknownEnumValue { enum_name, value } => {
                push_lit(&mut s, "value ");
                let d = signed_decimal_string(*value);
                s.append(d.as_str());
                push_lit(&mut s, " is not a known ");
                push_lit(&mut s, enum_name);
            },
            AnomalyKind::InvalidUtf8 => push_lit(&mut s, "string field is not valid UTF-8"),
        }
        proof {
            assert(s@ =~= spec_describe(*self));
        }
        s
    }
}

/// A single structural observation.
#[derive(Debug, Clone, PartialEq, Eq)]
pub struct Anomaly {
    pub kind: AnomalyKind,
    /// Field path, e.g. `entity[12].trip_update.trip.trip_id`; empty for the root.
    pub path: String,
    /// Byte offset where the observation starts, from the start of the payload.
    pub offset: usize,
}

/// What an anomaly says, with its path as characters.
pub struct AnomalyView {
    pub kind: AnomalyKind,
    pub path: Seq<char>,
    pub offset: usize,
}

impl View for Anomaly {
    type V = AnomalyView;

    open spec fn view(&self) -> AnomalyView {
        AnomalyView { kind: self.kind, path: self.path@, offset: self.offset }
    }
}

/// The description of an anomaly: offset, then path when there is one, then
/// the description of its kind.
pub open spec fn spec_anomaly_text(a: AnomalyView) -> Seq<char> {
    if a.path.len() == 0 {
        "@"@ + decimal(a.offset as nat) + ": "@ + spec_describe(a.kind)
    } else {
        "@"@ + decimal(a.offset as nat) + " "@ + a.path + ": "@ + spec_describe(a.kind)
    }
}

impl Anomaly {
    pub fn new(kind: AnomalyKind, path: String, offset: usize) -> (r: Self)
        ensures
            r.kind == kind,
            r.path@ == path@,
            r.offset == offset,
    {
        Anomaly { kind, path, offset }
    }

    /// Human-readable text, as the `Display` of an anomaly reads.
    pub fn describe(&self) -> (s: String)
        ensures
            s@ == spec_anomaly_text(self@),
    {
        let mut s = String::new();
        push_lit(&mut s, "@");
        push_decimal(&mut s, self.offset as u64);
        if self.path.as_str().is_empty() {
            push_lit(&mut s, ": ");
        } else {
            push_lit(&mut s, " ");
            s.append(self.path.as_str());
            push_lit(&mut s, ": ");
        }
        let k = self.kind.describe();
        s.append(k.as_str());
        proof {
            assert(s@ =~= spec_anomaly_text(self@));
        }
        s
    }
}

} // verus!
