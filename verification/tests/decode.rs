use gtfs_rt::anomaly::AnomalyKind;
use gtfs_rt::decode::DecodeCtx;
use gtfs_rt::model::enums::{Incrementality, TripScheduleRelationship};
use gtfs_rt::{decode_feed_message, decode_feed_message_with};

/// Builds protobuf payloads field by field; fixtures are built in code so
/// that what changes and why stays readable.
#[derive(Debug, Default, Clone)]
struct Enc(Vec<u8>);

impl Enc {
    fn new() -> Self {
        Self(Vec::new())
    }

    fn into_bytes(self) -> Vec<u8> {
        self.0
    }

    fn as_slice(&self) -> &[u8] {
        &self.0
    }

    fn varint(&mut self, mut v: u64) {
        loop {
            let byte = (v & 0x7F) as u8;
            v >>= 7;
            if v == 0 {
                self.0.push(byte);
                return;
            }
            self.0.push(byte | 0x80);
        }
    }

    fn tag(&mut self, number: u32, wire_type: u8) {
        self.varint((u64::from(number) << 3) | u64::from(wire_type));
    }

    fn varint_field(mut self, number: u32, value: u64) -> Self {
        self.tag(number, 0);
        self.varint(value);
        self
    }

    fn i32_field(self, number: u32, value: i32) -> Self {
        // Negative int32 is sign-extended to 64 bits on the wire.
        self.varint_field(number, value as i64 as u64)
    }

    fn bytes_field(mut self, number: u32, value: &[u8]) -> Self {
        self.tag(number, 2);
        self.varint(value.len() as u64);
        self.0.extend_from_slice(value);
        self
    }

    fn string_field(self, number: u32, value: &str) -> Self {
        self.bytes_field(number, value.as_bytes())
    }

    fn msg_field(self, number: u32, inner: Enc) -> Self {
        self.bytes_field(number, inner.as_slice())
    }

    fn f32_field(mut self, number: u32, value: f32) -> Self {
        self.tag(number, 5);
        self.0.extend_from_slice(&value.to_bits().to_le_bytes());
        self
    }

    fn f64_field(mut self, number: u32, value: f64) -> Self {
        self.tag(number, 1);
        self.0.extend_from_slice(&value.to_bits().to_le_bytes());
        self
    }
}

/// A valid `FeedHeader` (`gtfs_realtime_version` + timestamp).
fn header(timestamp: u64) -> Enc {
    Enc::new().string_field(1, "2.0").varint_field(3, timestamp)
}

/// A valid `TripUpdate` body: only `trip.trip_id`.
fn trip_update(trip_id: &str) -> Enc {
    Enc::new().msg_field(1, Enc::new().string_field(1, trip_id))
}

/// A valid `FeedEntity` carrying one `TripUpdate`.
fn entity_with_trip_update(id: &str, trip_id: &str) -> Enc {
    Enc::new().string_field(1, id).msg_field(3, trip_update(trip_id))
}

/// A fully valid `FeedMessage` with one entity.
fn minimal_feed() -> Vec<u8> {
    Enc::new()
        .msg_field(1, header(1_757_000_000))
        .msg_field(2, entity_with_trip_update("e1", "T1"))
        .into_bytes()
}


/// The stable names of the anomaly kinds, to compare which anomalies came
/// out in one line.
fn kinds(bytes: &[u8]) -> Vec<&'static str> {
    decode_feed_message(bytes).anomalies.iter().map(|a| a.kind.stable_name()).collect()
}

// ── Valid data stays silent ─────────────────────────────────────────────────

#[test]
fn minimal_valid_feed_is_silent() {
    let out = decode_feed_message(&minimal_feed());
    assert!(out.is_clean(), "unexpected anomalies: {:?}", out.anomalies);
    assert_eq!(out.message.entity.len(), 1);
    let e = &out.message.entity[0];
    assert_eq!(e.id.as_deref(), Some("e1"));
    assert_eq!(
        e.trip_update.as_ref().unwrap().trip.as_ref().unwrap().trip_id.as_deref(),
        Some("T1")
    );
}

#[test]
fn header_fields_round_trip() {
    let bytes = Enc::new()
        .msg_field(
            1,
            Enc::new()
                .string_field(1, "2.0")
                .varint_field(2, 1) // DIFFERENTIAL
                .varint_field(3, 1_757_000_000)
                .string_field(4, "v42"),
        )
        .msg_field(2, entity_with_trip_update("e1", "T1"))
        .into_bytes();

    let out = decode_feed_message(&bytes);
    assert!(out.is_clean(), "{:?}", out.anomalies);
    let h = out.message.header.unwrap();
    assert_eq!(h.gtfs_realtime_version.as_deref(), Some("2.0"));
    assert_eq!(h.incrementality, Some(Incrementality::Differential));
    assert_eq!(h.timestamp, Some(1_757_000_000));
    assert_eq!(h.feed_version.as_deref(), Some("v42"));
}

#[test]
fn all_three_payload_kinds_are_silent() {
    for (field, label) in [(3u32, "trip_update"), (4, "vehicle"), (5, "alert")] {
        let payload = match field {
            3 => trip_update("T1"),
            4 => Enc::new().msg_field(1, Enc::new().string_field(1, "T1")),
            _ => Enc::new().varint_field(6, 3), // Alert.cause = TECHNICAL_PROBLEM
        };
        let bytes = Enc::new()
            .msg_field(1, header(1))
            .msg_field(2, Enc::new().string_field(1, "e1").msg_field(field, payload))
            .into_bytes();
        let out = decode_feed_message(&bytes);
        assert!(out.is_clean(), "{label}: {:?}", out.anomalies);
    }
}

#[test]
fn negative_delay_round_trips() {
    // Negative int32 values arrive as 10-byte varints; shortening them loses data.
    let tu = trip_update("T1").i32_field(5, -120);
    let bytes = Enc::new()
        .msg_field(1, header(1))
        .msg_field(2, Enc::new().string_field(1, "e1").msg_field(3, tu))
        .into_bytes();
    let out = decode_feed_message(&bytes);
    assert!(out.is_clean(), "{:?}", out.anomalies);
    assert_eq!(out.message.entity[0].trip_update.as_ref().unwrap().delay, Some(-120));
}

#[test]
fn position_with_both_required_fields_is_silent() {
    let vp = Enc::new()
        .msg_field(1, Enc::new().string_field(1, "T1"))
        .msg_field(2, Enc::new().f32_field(1, 41.0).f32_field(2, 29.0).f64_field(4, 12345.5));
    let bytes = Enc::new()
        .msg_field(1, header(1))
        .msg_field(2, Enc::new().string_field(1, "e1").msg_field(4, vp))
        .into_bytes();
    let out = decode_feed_message(&bytes);
    assert!(out.is_clean(), "{:?}", out.anomalies);
    let p = out.message.entity[0].vehicle.as_ref().unwrap().position.as_ref().unwrap();
    assert_eq!(p.latitude.map(f32::from_bits), Some(41.0));
    assert_eq!(p.odometer.map(f64::from_bits), Some(12345.5));
}

// ── proto2 `required` eksiklikleri ───────────────────────────────────────────

#[test]
fn missing_feed_header_is_reported() {
    let bytes = Enc::new().msg_field(2, entity_with_trip_update("e1", "T1")).into_bytes();
    assert_eq!(kinds(&bytes), vec!["missing_required_field"]);
}

#[test]
fn missing_realtime_version_is_reported() {
    let bytes = Enc::new()
        .msg_field(1, Enc::new().varint_field(3, 1)) // timestamp only
        .msg_field(2, entity_with_trip_update("e1", "T1"))
        .into_bytes();
    let out = decode_feed_message(&bytes);
    let names: Vec<_> = out.anomalies.iter().map(|a| a.kind.stable_name()).collect();
    assert_eq!(names, vec!["missing_required_field"]);
    assert_eq!(out.anomalies[0].path, "header");
}

#[test]
fn missing_entity_id_is_reported() {
    let bytes = Enc::new()
        .msg_field(1, header(1))
        .msg_field(2, Enc::new().msg_field(3, trip_update("T1")))
        .into_bytes();
    let out = decode_feed_message(&bytes);
    assert!(out
        .anomalies
        .iter()
        .any(|a| a.kind == AnomalyKind::MissingRequiredField { field: "FeedEntity.id" }));
}

#[test]
fn missing_trip_in_trip_update_is_reported() {
    let bytes = Enc::new()
        .msg_field(1, header(1))
        .msg_field(
            2,
            Enc::new().string_field(1, "e1").msg_field(3, Enc::new().varint_field(4, 99)),
        )
        .into_bytes();
    let out = decode_feed_message(&bytes);
    assert!(out
        .anomalies
        .iter()
        .any(|a| a.kind == AnomalyKind::MissingRequiredField { field: "TripUpdate.trip" }));
}

#[test]
fn missing_position_coordinates_are_reported_individually() {
    // Only longitude given: the missing latitude is a finding of its own.
    let vp = Enc::new().msg_field(2, Enc::new().f32_field(2, 29.0));
    let bytes = Enc::new()
        .msg_field(1, header(1))
        .msg_field(2, Enc::new().string_field(1, "e1").msg_field(4, vp))
        .into_bytes();
    let out = decode_feed_message(&bytes);
    let missing: Vec<_> = out
        .anomalies
        .iter()
        .filter_map(|a| match a.kind {
            AnomalyKind::MissingRequiredField { field } => Some(field),
            _ => None,
        })
        .collect();
    assert_eq!(missing, vec!["Position.latitude"]);
}

// ── FeedEntity payload count ────────────────────────────────────────────────

#[test]
fn entity_with_no_payload_is_reported() {
    let bytes = Enc::new()
        .msg_field(1, header(1))
        .msg_field(2, Enc::new().string_field(1, "e1"))
        .into_bytes();
    assert_eq!(kinds(&bytes), vec!["no_payload"]);
}

#[test]
fn entity_with_two_payloads_is_reported() {
    let bytes = Enc::new()
        .msg_field(1, header(1))
        .msg_field(
            2,
            Enc::new()
                .string_field(1, "e1")
                .msg_field(3, trip_update("T1"))
                .msg_field(4, Enc::new().msg_field(1, Enc::new().string_field(1, "T1"))),
        )
        .into_bytes();
    let out = decode_feed_message(&bytes);
    assert!(out
        .anomalies
        .iter()
        .any(|a| a.kind == AnomalyKind::MultiplePayloads { count: 2 }));
}

// ── Bilinmeyen alanlar ve enum'lar ───────────────────────────────────────────

#[test]
fn unknown_field_is_reported_with_its_number() {
    let bytes = Enc::new()
        .msg_field(1, header(1).varint_field(77, 1))
        .msg_field(2, entity_with_trip_update("e1", "T1"))
        .into_bytes();
    let out = decode_feed_message(&bytes);
    assert!(out.anomalies.iter().any(|a| a.kind == AnomalyKind::UnknownField { field: 77 }));
}

#[test]
fn extension_range_fields_are_distinguished_from_unknown() {
    // 1000-1999 and 9000-9999 are extension ranges, not the same as an unknown field.
    for field in [1000u32, 1999, 9000, 9999] {
        let bytes = Enc::new()
            .msg_field(1, header(1).varint_field(field, 1))
            .msg_field(2, entity_with_trip_update("e1", "T1"))
            .into_bytes();
        let out = decode_feed_message(&bytes);
        assert!(
            out.anomalies.iter().any(|a| a.kind == AnomalyKind::ExtensionField { field }),
            "field {field} not marked as an extension: {:?}",
            out.anomalies
        );
    }
    // Just outside the ranges is NOT an extension.
    for field in [999u32, 2000, 8999, 10000] {
        let bytes = Enc::new()
            .msg_field(1, header(1).varint_field(field, 1))
            .msg_field(2, entity_with_trip_update("e1", "T1"))
            .into_bytes();
        let out = decode_feed_message(&bytes);
        assert!(
            out.anomalies.iter().any(|a| a.kind == AnomalyKind::UnknownField { field }),
            "field {field} wrongly taken for an extension"
        );
    }
}

#[test]
fn unknown_enum_value_is_reported_and_field_is_dropped() {
    // 4 is undefined in TripDescriptor.ScheduleRelationship.
    let tu = Enc::new().msg_field(1, Enc::new().string_field(1, "T1").varint_field(4, 4));
    let bytes = Enc::new()
        .msg_field(1, header(1))
        .msg_field(2, Enc::new().string_field(1, "e1").msg_field(3, tu))
        .into_bytes();
    let out = decode_feed_message(&bytes);
    assert!(out.anomalies.iter().any(|a| matches!(
        a.kind,
        AnomalyKind::UnknownEnumValue { value: 4, .. }
    )));
    let trip = out.message.entity[0].trip_update.as_ref().unwrap().trip.as_ref().unwrap();
    assert_eq!(trip.schedule_relationship, None, "an unrecognised enum field is dropped");
    assert_eq!(trip.trip_id.as_deref(), Some("T1"), "the other fields are kept");
}

#[test]
fn known_enum_value_survives() {
    let tu = Enc::new().msg_field(1, Enc::new().string_field(1, "T1").varint_field(4, 3));
    let bytes = Enc::new()
        .msg_field(1, header(1))
        .msg_field(2, Enc::new().string_field(1, "e1").msg_field(3, tu))
        .into_bytes();
    let out = decode_feed_message(&bytes);
    assert!(out.is_clean(), "{:?}", out.anomalies);
    let trip = out.message.entity[0].trip_update.as_ref().unwrap().trip.as_ref().unwrap();
    assert_eq!(trip.schedule_relationship, Some(TripScheduleRelationship::Canceled));
}

// ── Wire-level faults ───────────────────────────────────────────────────────

#[test]
fn wrong_wire_type_is_reported_and_other_fields_survive() {
    // gtfs_realtime_version is a string; a varint is sent.
    let bytes = Enc::new()
        .msg_field(1, Enc::new().varint_field(1, 20).varint_field(3, 99))
        .msg_field(2, entity_with_trip_update("e1", "T1"))
        .into_bytes();
    let out = decode_feed_message(&bytes);
    assert!(out.anomalies.iter().any(|a| matches!(
        a.kind,
        AnomalyKind::UnexpectedWireType { expected: 2, found: 0 }
    )));
    // The sound field of the same message is kept.
    assert_eq!(out.message.header.as_ref().unwrap().timestamp, Some(99));
}

#[test]
fn invalid_utf8_is_reported() {
    let bytes = Enc::new()
        .msg_field(1, Enc::new().bytes_field(1, &[0xFF, 0xFE]).varint_field(3, 1))
        .msg_field(2, entity_with_trip_update("e1", "T1"))
        .into_bytes();
    let out = decode_feed_message(&bytes);
    assert!(out.anomalies.iter().any(|a| a.kind == AnomalyKind::InvalidUtf8));
}

#[test]
fn truncated_payload_keeps_what_was_decoded() {
    let full = minimal_feed();
    let cut = &full[..full.len() - 3];
    let out = decode_feed_message(cut);
    assert!(!out.is_clean());
    assert!(out.wire_anomalies().len() > 0);
    // The header was read whole; the entity after it is cut short.
    assert!(out.message.header.is_some(), "the partial result is kept");
}

#[test]
fn empty_payload_reports_missing_header_only() {
    assert_eq!(kinds(&[]), vec!["missing_required_field"]);
}

// ── Depth cap ───────────────────────────────────────────────────────────────

#[test]
fn schema_has_no_cycles_so_nesting_cannot_run_away() {
    // The GTFS-Realtime schema has NO message that contains itself. The decoder
    // descends into a nested message only for fields it KNOWS, so a hostile
    // payload cannot raise the depth at will: the wrapping attempt hits an
    // "unknown field" on the second level and the descent stops there.
    //
    // This test records that the default depth cap (32) CANNOT be reached in
    // practice. The cap stays all the same: should the schema gain a cyclic
    // field (e.g. nested TripModifications), it would be the only defence.
    let mut inner = Enc::new().string_field(1, "T1");
    for _ in 0..200 {
        inner = Enc::new().msg_field(7, inner); // TripDescriptor.modified_trip
    }
    let tu = Enc::new().msg_field(1, inner);
    let bytes = Enc::new()
        .msg_field(1, header(1))
        .msg_field(2, Enc::new().string_field(1, "e1").msg_field(3, tu))
        .into_bytes();

    let out = decode_feed_message(&bytes);
    assert!(
        !out.anomalies.iter().any(|a| matches!(a.kind, AnomalyKind::DepthLimitExceeded { .. })),
        "the cap was reached: the schema may have become cyclic, revisit the assumption"
    );
    // ModifiedTripSelector has no field 7: the descent stops here.
    assert!(out.anomalies.iter().any(|a| a.kind == AnomalyKind::UnknownField { field: 7 }));
}

#[test]
fn deepest_legitimate_path_decodes_cleanly() {
    // The deepest legitimate path in the schema is 5 levels:
    //   FeedMessage → entity → alert → informed_entity → trip → modified_trip
    // The depth cap must be well above it, or it would cut valid data.
    let modified = Enc::new().string_field(1, "MOD1").string_field(2, "T1");
    let trip = Enc::new().string_field(1, "T1").msg_field(7, modified);
    let selector = Enc::new().string_field(2, "R1").msg_field(4, trip);
    let alert = Enc::new().varint_field(6, 3).msg_field(5, selector);
    let bytes = Enc::new()
        .msg_field(1, header(1))
        .msg_field(2, Enc::new().string_field(1, "e1").msg_field(5, alert))
        .into_bytes();

    let out = decode_feed_message(&bytes);
    assert!(out.is_clean(), "the deepest legitimate path produced anomalies: {:?}", out.anomalies);
    let sel = &out.message.entity[0].alert.as_ref().unwrap().informed_entity[0];
    let mt = sel.trip.as_ref().unwrap().modified_trip.as_ref().unwrap();
    assert_eq!(mt.modifications_id.as_deref(), Some("MOD1"));
}

#[test]
fn depth_limit_is_configurable() {
    let inner = Enc::new().msg_field(7, Enc::new().string_field(1, "T1"));
    let tu = Enc::new().msg_field(1, inner);
    let bytes = Enc::new()
        .msg_field(1, header(1))
        .msg_field(2, Enc::new().string_field(1, "e1").msg_field(3, tu))
        .into_bytes();

    // Passes cleanly with the default cap.
    assert!(decode_feed_message(&bytes).is_clean());
    // Hits the cap with a 2-level cap.
    let out = decode_feed_message_with(&bytes, DecodeCtx::new().with_max_depth(2));
    assert!(out
        .anomalies
        .iter()
        .any(|a| matches!(a.kind, AnomalyKind::DepthLimitExceeded { limit: 2 })));
}

// ── Yol (path) ve determinizm ────────────────────────────────────────────────

#[test]
fn anomaly_path_locates_the_field() {
    // An unknown field in the second entity's TripUpdate.
    let tu = trip_update("T1").varint_field(55, 1);
    let bytes = Enc::new()
        .msg_field(1, header(1))
        .msg_field(2, entity_with_trip_update("e1", "T1"))
        .msg_field(2, Enc::new().string_field(1, "e2").msg_field(3, tu))
        .into_bytes();

    let out = decode_feed_message(&bytes);
    let a = out
        .anomalies
        .iter()
        .find(|a| a.kind == AnomalyKind::UnknownField { field: 55 })
        .expect("the unknown field was not found");
    assert_eq!(a.path, "entity[1].trip_update");
}

#[test]
fn decoding_is_deterministic() {
    // Same input, separate runs: the model and the anomaly list are identical.
    let mut messy = Enc::new()
        .msg_field(1, header(1).varint_field(77, 1))
        .msg_field(2, Enc::new().string_field(1, "e1"))
        .msg_field(2, entity_with_trip_update("e2", "T2"))
        .into_bytes();
    messy.extend_from_slice(&[0x08]); // truncated varint

    let first = decode_feed_message(&messy);
    for _ in 0..20 {
        let again = decode_feed_message(&messy);
        assert_eq!(first, again);
    }
}

#[test]
fn anomalies_are_ordered_by_byte_offset() {
    let bytes = Enc::new()
        .msg_field(1, header(1).varint_field(77, 1))
        .msg_field(2, Enc::new().string_field(1, "e1")) // no_payload
        .into_bytes();
    let out = decode_feed_message(&bytes);
    let offsets: Vec<usize> = out.anomalies.iter().map(|a| a.offset).collect();
    let mut sorted = offsets.clone();
    sorted.sort_unstable();
    assert_eq!(offsets, sorted, "anomalies not in byte order: {:?}", out.anomalies);
}

// ── Payload classification and anomaly text ─────────────────────────────────

#[test]
fn html_error_page_does_not_panic() {
    // A common case: an HTML error page comes back instead of the feed.
    let out = decode_feed_message(b"<!DOCTYPE html><html><body>502 Bad Gateway</body></html>");
    assert!(!out.is_clean());
    assert!(out.wire_anomalies().len() > 0);
}

#[test]
fn textual_bodies_are_classified_before_wire_decoding() {
    for (body, label) in [
        (&b"<!DOCTYPE html><html></html>"[..], "html"),
        (&b"\r\n  <html><body>502</body></html>"[..], "html"),
        (&b"<?xml version=\"1.0\"?><error/>"[..], "xml"),
        (&b"{\"error\":\"quota\"}"[..], "json"),
        (&b"[1,2]"[..], "json"),
    ] {
        let out = decode_feed_message(body);
        let a = &out.anomalies[0];
        assert_eq!(a.kind, AnomalyKind::NotProtobuf { looks_like: label }, "{label}");
        assert!(a.kind.is_payload_level());
        assert!(!a.kind.is_wire_level());
        assert_eq!(a.offset, 0);
        assert_eq!(a.path, "");
        assert_eq!(
            out.anomalies.iter().filter(|a| a.kind.is_payload_level()).count(),
            1,
            "{label}: {:?}",
            out.anomalies
        );
        assert!(!out.is_clean());
    }
    // Group tags come first in these bodies, so the wire reading stops at once.
    for body in [&b"<html>"[..], &b"{}"[..], &b"[1]"[..]] {
        let out = decode_feed_message(body);
        assert!(out.anomalies[1].kind.is_wire_level(), "{:?}", out.anomalies);
        assert_eq!(out.anomalies[1].offset, 0);
        assert!(out.message.header.is_none());
    }
}

#[test]
fn a_valid_feed_is_never_taken_for_text() {
    // A header of length 0x3c ('<') or 0x7b ('{') must still decode.
    let version = "x".repeat(0x3c - 2);
    let bytes = Enc::new()
        .msg_field(1, Enc::new().string_field(1, &version))
        .msg_field(2, entity_with_trip_update("e1", "T1"))
        .into_bytes();
    assert_eq!(bytes[1], 0x3c);
    let out = decode_feed_message(&bytes);
    assert!(out.is_clean(), "{:?}", out.anomalies);
}

#[test]
fn anomaly_text_reads_like_the_display() {
    let bytes = Enc::new()
        .msg_field(1, header(1).varint_field(77, 1))
        .msg_field(2, entity_with_trip_update("e1", "T1"))
        .into_bytes();
    let out = decode_feed_message(&bytes);
    let a = out
        .anomalies
        .iter()
        .find(|a| a.kind == AnomalyKind::UnknownField { field: 77 })
        .unwrap();
    assert_eq!(a.path, "header");
    assert_eq!(a.describe(), format!("@{} header: unknown field number 77", a.offset));
    assert_eq!(a.kind.stable_name(), "unknown_field");

    let root = decode_feed_message(&[]);
    assert_eq!(
        root.anomalies[0].describe(),
        "@0: required field 'FeedMessage.header' is missing"
    );
    assert_eq!(
        AnomalyKind::UnknownEnumValue { enum_name: "Alert.Cause", value: -3 }.describe(),
        "value -3 is not a known Alert.Cause"
    );
    assert_eq!(
        AnomalyKind::LengthExceedsRemaining { declared: 9, remaining: 2 }.describe(),
        "declared length 9 exceeds 2 remaining byte(s)"
    );
    assert_eq!(
        AnomalyKind::TrailingGarbage { remaining: 120 }.describe(),
        "120 trailing byte(s) after root message"
    );
}

#[test]
fn trailing_bytes_after_a_fault_are_reported() {
    // A reserved wire type at the root, followed by 3 unread bytes.
    let mut bytes = Enc::new().msg_field(1, header(1)).into_bytes();
    let fault_at = bytes.len();
    bytes.extend_from_slice(&[0x0f, 1, 2, 3]);
    let out = decode_feed_message(&bytes);
    let names: Vec<_> = out.anomalies.iter().map(|a| a.kind.stable_name()).collect();
    assert_eq!(names, vec!["reserved_wire_type", "trailing_garbage"]);
    assert_eq!(out.anomalies[0].offset, fault_at);
    assert_eq!(out.anomalies[1].kind, AnomalyKind::TrailingGarbage { remaining: 3 });
    assert_eq!(out.anomalies[1].offset, fault_at + 1);
    assert!(out.message.header.is_some());
}

#[test]
fn nested_offsets_count_from_the_root_payload() {
    // An unknown field inside the second entity's trip update: its offset is
    // the tag offset of the entity plus that of the trip update plus its own.
    let first = entity_with_trip_update("e1", "T1");
    let tu = trip_update("T1").varint_field(55, 1);
    let bytes = Enc::new()
        .msg_field(1, header(1))
        .msg_field(2, first)
        .msg_field(2, Enc::new().string_field(1, "e2").msg_field(3, tu))
        .into_bytes();
    let out = decode_feed_message(&bytes);
    let a = out
        .anomalies
        .iter()
        .find(|a| a.kind == AnomalyKind::UnknownField { field: 55 })
        .unwrap();
    assert!(a.offset < bytes.len());
    assert_eq!(out.message.entity.len(), 2);
}

#[test]
fn a_repeated_broken_string_does_not_erase_a_good_one() {
    // feed_version given twice: valid, then invalid UTF-8.
    let bytes = Enc::new()
        .msg_field(
            1,
            header(1).string_field(4, "v1").bytes_field(4, &[0xC3, 0x28]),
        )
        .msg_field(2, entity_with_trip_update("e1", "T1"))
        .into_bytes();
    let out = decode_feed_message(&bytes);
    assert_eq!(out.message.header.as_ref().unwrap().feed_version.as_deref(), Some("v1"));
    assert!(out.anomalies.iter().any(|a| a.kind == AnomalyKind::InvalidUtf8));
}

#[test]
fn a_missing_required_field_is_reported_before_the_later_fields_of_its_message() {
    // An entity without `id`: `is_deleted`, then unknown field 77. What the
    // message lacks is reported at the message's own offset, ahead of what
    // its later fields gave, so the list stays in byte order.
    let bytes = [0x0a, 0x05, 0x0a, 0x03, b'2', b'.', b'0', 0x12, 0x05, 0x10, 0x00, 0xe8, 0x04, 0x01];
    let out = decode_feed_message(&bytes);
    let found: Vec<(&str, usize)> =
        out.anomalies.iter().map(|a| (a.kind.stable_name(), a.offset)).collect();
    assert_eq!(
        found,
        vec![("missing_required_field", 7), ("no_payload", 7), ("unknown_field", 9)]
    );
}

#[test]
fn a_missing_header_follows_the_anomalies_at_its_offset() {
    // Field 3 twice at the root: unknown fields at 0 and 2, and no header.
    let out = decode_feed_message(&[0x18, 0x01, 0x18, 0x01]);
    let found: Vec<(&str, usize)> =
        out.anomalies.iter().map(|a| (a.kind.stable_name(), a.offset)).collect();
    assert_eq!(
        found,
        vec![("unknown_field", 0), ("missing_required_field", 0), ("unknown_field", 2)]
    );
}

#[test]
fn a_wrong_wire_type_at_the_start_comes_before_the_missing_field() {
    // The header sends gtfs_realtime_version as a varint: both anomalies sit
    // at the header's offset, in decoding order.
    let bytes = Enc::new()
        .msg_field(1, Enc::new().varint_field(1, 20).varint_field(3, 99))
        .msg_field(2, entity_with_trip_update("e1", "T1"))
        .into_bytes();
    let out = decode_feed_message(&bytes);
    let found: Vec<(&str, &str, usize)> = out
        .anomalies
        .iter()
        .map(|a| (a.kind.stable_name(), a.path.as_str(), a.offset))
        .collect();
    assert_eq!(
        found,
        vec![("unexpected_wire_type", "header", 0), ("missing_required_field", "header", 0)]
    );
}

#[test]
fn a_wire_fault_at_the_start_comes_before_the_missing_field() {
    // A header whose only byte is a tag of wire type 3 (a group).
    let bytes = Enc::new().bytes_field(1, &[0x0b]).into_bytes();
    let out = decode_feed_message(&bytes);
    let found: Vec<(&str, usize)> =
        out.anomalies.iter().map(|a| (a.kind.stable_name(), a.offset)).collect();
    assert_eq!(
        found,
        vec![("deprecated_group", 0), ("missing_required_field", 0)]
    );
}

#[test]
fn a_field_past_the_depth_cap_is_reported_at_its_tag() {
    // An unknown field at offset 0, then an entity at offset 2 that a cap of
    // zero refuses to enter.
    let bytes = Enc::new()
        .msg_field(3, Enc::new())
        .msg_field(2, Enc::new())
        .into_bytes();
    let out = decode_feed_message_with(&bytes, DecodeCtx::new().with_max_depth(0));
    let found: Vec<(&str, usize)> =
        out.anomalies.iter().map(|a| (a.kind.stable_name(), a.offset)).collect();
    assert_eq!(
        found,
        vec![("unknown_field", 0), ("missing_required_field", 0), ("depth_limit_exceeded", 2)]
    );
}

#[test]
fn stable_names_tell_the_variants_apart() {
    let kinds = [
        AnomalyKind::Truncated,
        AnomalyKind::TrailingGarbage { remaining: 1 },
        AnomalyKind::VarintTooLong,
        AnomalyKind::UnexpectedWireType { expected: 2, found: 0 },
        AnomalyKind::DeprecatedGroup,
        AnomalyKind::ReservedWireType { found: 6 },
        AnomalyKind::LengthExceedsRemaining { declared: 3, remaining: 1 },
        AnomalyKind::ZeroFieldNumber,
        AnomalyKind::DepthLimitExceeded { limit: 2 },
        AnomalyKind::NotProtobuf { looks_like: "html" },
        AnomalyKind::UnknownField { field: 7 },
        AnomalyKind::ExtensionField { field: 1000 },
        AnomalyKind::MissingRequiredField { field: "FeedMessage.header" },
        AnomalyKind::MultiplePayloads { count: 2 },
        AnomalyKind::NoPayload,
        AnomalyKind::UnknownEnumValue { enum_name: "X", value: 9 },
        AnomalyKind::InvalidUtf8,
    ];
    for (i, a) in kinds.iter().enumerate() {
        for (j, b) in kinds.iter().enumerate() {
            assert_eq!(a.stable_name() == b.stable_name(), i == j);
        }
    }
    assert_eq!(
        AnomalyKind::UnknownField { field: 7 }.stable_name(),
        AnomalyKind::UnknownField { field: 77 }.stable_name()
    );
}

#[test]
fn a_fresh_context_decodes_as_the_default_cap() {
    let bytes = Enc::new()
        .msg_field(1, header(1).varint_field(77, 1))
        .msg_field(2, entity_with_trip_update("e1", "T1"))
        .into_bytes();
    assert!(DecodeCtx::new().anomalies().is_empty());
    let a = decode_feed_message_with(&bytes, DecodeCtx::new());
    let b = decode_feed_message_with(&bytes, DecodeCtx::new().with_max_depth(32));
    assert_eq!(a, b);
    assert_eq!(a, decode_feed_message(&bytes));
}
