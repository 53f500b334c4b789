use gtfs_rt::anomaly::AnomalyKind;
use gtfs_rt::wire::{as_bool, as_i32, Field, WireFault, WireReader, WireValue, MAX_VARINT_BYTES};
use gtfs_rt::wire_type;

/// Tag byte: `(number << 3) | wire_type`.
fn tag(number: u32, wt: u8) -> u8 {
    ((number << 3) as u8) | wt
}

fn fields(buf: &[u8]) -> Vec<Result<Field<'_>, WireFault>> {
    let mut r = WireReader::new(buf);
    let mut out = Vec::new();
    while let Some(f) = r.next_field() {
        out.push(f);
    }
    out
}

#[test]
fn reads_varint_field() {
    // field 1, varint 150 (0x96 0x01)
    let buf = [tag(1, wire_type::VARINT), 0x96, 0x01];
    let got = fields(&buf);
    assert_eq!(got.len(), 1);
    let f = got[0].as_ref().unwrap();
    assert_eq!(f.number, 1);
    assert_eq!(f.value, WireValue::Varint(150));
    assert_eq!(f.offset, 0);
}

#[test]
fn reads_length_delimited_field() {
    let mut buf = vec![tag(2, wire_type::LEN), 3];
    buf.extend_from_slice(b"abc");
    let got = fields(&buf);
    let f = got[0].as_ref().unwrap();
    assert_eq!(f.number, 2);
    assert_eq!(f.value, WireValue::Len(b"abc"));
}

#[test]
fn reads_fixed32_and_fixed64() {
    let mut buf = vec![tag(3, wire_type::FIXED32)];
    buf.extend_from_slice(&1.5f32.to_bits().to_le_bytes());
    buf.push(tag(4, wire_type::FIXED64));
    buf.extend_from_slice(&2.5f64.to_bits().to_le_bytes());

    let got = fields(&buf);
    assert_eq!(got.len(), 2);
    match got[0].as_ref().unwrap().value {
        WireValue::Fixed32(v) => assert_eq!(f32::from_bits(v), 1.5),
        ref other => panic!("unexpected: {other:?}"),
    }
    match got[1].as_ref().unwrap().value {
        WireValue::Fixed64(v) => assert_eq!(f64::from_bits(v), 2.5),
        ref other => panic!("unexpected: {other:?}"),
    }
}

#[test]
fn reads_several_fields_in_order() {
    let mut buf = vec![tag(1, wire_type::VARINT), 1, tag(2, wire_type::LEN), 2];
    buf.extend_from_slice(b"hi");
    let got = fields(&buf);
    let numbers: Vec<u32> = got.iter().map(|f| f.as_ref().unwrap().number).collect();
    assert_eq!(numbers, vec![1, 2]);
}

#[test]
fn truncated_varint_is_reported() {
    // continuation bit set, nothing follows
    let buf = [tag(1, wire_type::VARINT), 0x80];
    let got = fields(&buf);
    assert_eq!(got[0].as_ref().unwrap_err().kind, AnomalyKind::Truncated);
}

#[test]
fn truncated_fixed_is_reported() {
    let buf = [tag(3, wire_type::FIXED32), 0x01, 0x02];
    let got = fields(&buf);
    assert_eq!(got[0].as_ref().unwrap_err().kind, AnomalyKind::Truncated);
}

#[test]
fn varint_longer_than_ten_bytes_is_reported() {
    let mut buf = vec![tag(1, wire_type::VARINT)];
    buf.extend(std::iter::repeat_n(0xFF, MAX_VARINT_BYTES));
    buf.push(0x01);
    let got = fields(&buf);
    assert_eq!(got[0].as_ref().unwrap_err().kind, AnomalyKind::VarintTooLong);
}

#[test]
fn ten_byte_varint_is_accepted() {
    // u64::MAX is a 10-byte varint; the limit itself must be valid.
    let mut buf = vec![tag(1, wire_type::VARINT)];
    buf.extend(std::iter::repeat_n(0xFF, MAX_VARINT_BYTES - 1));
    buf.push(0x01);
    let got = fields(&buf);
    assert_eq!(got[0].as_ref().unwrap().value, WireValue::Varint(u64::MAX));
}

#[test]
fn zero_field_number_is_reported() {
    let buf = [0x00, 0x00];
    let got = fields(&buf);
    assert_eq!(got[0].as_ref().unwrap_err().kind, AnomalyKind::ZeroFieldNumber);
}

#[test]
fn reserved_wire_types_are_reported() {
    for wt in [6u8, 7u8] {
        let buf = [tag(1, wt)];
        let got = fields(&buf);
        assert_eq!(
            got[0].as_ref().unwrap_err().kind,
            AnomalyKind::ReservedWireType { found: wt },
            "wire type {wt}"
        );
    }
}

#[test]
fn group_wire_types_are_reported() {
    for wt in [wire_type::START_GROUP, wire_type::END_GROUP] {
        let buf = [tag(1, wt)];
        let got = fields(&buf);
        assert_eq!(got[0].as_ref().unwrap_err().kind, AnomalyKind::DeprecatedGroup);
    }
}

#[test]
fn length_exceeding_buffer_is_reported() {
    // declares 9 bytes, 2 are there
    let buf = [tag(2, wire_type::LEN), 9, 0x61, 0x62];
    let got = fields(&buf);
    assert_eq!(
        got[0].as_ref().unwrap_err().kind,
        AnomalyKind::LengthExceedsRemaining { declared: 9, remaining: 2 }
    );
}

#[test]
fn zero_length_field_is_valid() {
    let buf = [tag(2, wire_type::LEN), 0];
    let got = fields(&buf);
    assert_eq!(got[0].as_ref().unwrap().value, WireValue::Len(b""));
}

#[test]
fn reader_stops_after_fault() {
    // A valid field after a broken one must not be read: after a fault the
    // alignment cannot be trusted and going on would invent fields.
    let buf = [tag(1, 7), tag(1, wire_type::VARINT), 1];
    let mut r = WireReader::new(&buf);
    assert!(r.next_field().unwrap().is_err());
    assert!(r.next_field().is_none());
    assert!(r.is_stopped());
}

#[test]
fn empty_input_yields_nothing() {
    let mut r = WireReader::new(&[]);
    assert!(r.next_field().is_none());
    assert!(!r.is_stopped());
}

#[test]
fn reader_always_advances_or_stops() {
    // Every two-byte input: the loop must end.
    for a in 0u16..=0xFF {
        for b in 0u16..=0xFF {
            let buf = [a as u8, b as u8];
            let mut r = WireReader::new(&buf);
            let mut guard = 0;
            while r.next_field().is_some() {
                guard += 1;
                assert!(guard <= buf.len(), "reader did not advance: {buf:?}");
            }
        }
    }
}

#[test]
fn position_and_remaining_track_progress() {
    let buf = [tag(1, wire_type::VARINT), 1, tag(1, wire_type::VARINT), 2];
    let mut r = WireReader::new(&buf);
    assert_eq!(r.remaining(), 4);
    r.next_field().unwrap().unwrap();
    assert_eq!(r.position(), 2);
    assert_eq!(r.remaining(), 2);
    r.next_field().unwrap().unwrap();
    assert_eq!(r.remaining(), 0);
    assert!(r.next_field().is_none());
}

// ── further cases ────────────────────────────────────────────────────────────

#[test]
fn fault_offset_is_the_tag_position_and_position_stays_after_the_read() {
    // A good field, then a length that promises too much.
    let buf = [tag(1, wire_type::VARINT), 5, tag(2, wire_type::LEN), 7, 0x61];
    let mut r = WireReader::new(&buf);
    r.next_field().unwrap().unwrap();
    let fault = r.next_field().unwrap().unwrap_err();
    assert_eq!(fault.offset, 2);
    assert_eq!(fault.kind, AnomalyKind::LengthExceedsRemaining { declared: 7, remaining: 1 });
    // The reader stands after the declared length.
    assert_eq!(r.position(), 4);
    assert_eq!(r.remaining(), 1);
}

#[test]
fn fixed_values_are_little_endian() {
    let buf = [tag(1, wire_type::FIXED32), 0x01, 0x02, 0x03, 0x04];
    let got = fields(&buf);
    assert_eq!(got[0].as_ref().unwrap().value, WireValue::Fixed32(0x0403_0201));
    let buf = [tag(1, wire_type::FIXED64), 1, 0, 0, 0, 0, 0, 0, 0x80];
    let got = fields(&buf);
    assert_eq!(got[0].as_ref().unwrap().value, WireValue::Fixed64(0x8000_0000_0000_0001));
}

#[test]
fn multi_byte_tag_and_wire_type_codes() {
    // field 77 needs a two-byte tag: (77 << 3) = 616 = 0xE8 0x04
    let buf = [0xE8, 0x04, 0x2A];
    let got = fields(&buf);
    let f = got[0].as_ref().unwrap();
    assert_eq!(f.number, 77);
    assert_eq!(f.wire_type, wire_type::VARINT);
    assert_eq!(f.value, WireValue::Varint(42));
    assert_eq!(f.value.wire_type(), wire_type::VARINT);
    assert_eq!(WireValue::Len(b"x").wire_type(), wire_type::LEN);
    assert_eq!(WireValue::Fixed32(0).wire_type(), wire_type::FIXED32);
    assert_eq!(WireValue::Fixed64(0).wire_type(), wire_type::FIXED64);
    assert_eq!(WireValue::Group.wire_type(), wire_type::START_GROUP);
}

#[test]
fn value_helpers_follow_protobuf() {
    assert!(as_bool(2));
    assert!(!as_bool(0));
    assert_eq!(as_i32((-120i64) as u64), -120);
    assert_eq!(as_i32(0x1_0000_0005), 5);
}
