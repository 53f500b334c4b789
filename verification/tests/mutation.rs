//! Small mutations of a valid feed: the decoder must stay total and deterministic.
use gtfs_rt::decode_feed_message;

fn field(number: u8, payload: &[u8]) -> Vec<u8> {
    let mut out = vec![(number << 3) | 2, payload.len() as u8];
    out.extend_from_slice(payload);
    out
}

/// A fully valid `FeedMessage` with one entity (header with version and
/// timestamp, entity `e1` with a trip update for `T1`).
fn minimal_feed() -> Vec<u8> {
    let mut header = field(1, b"2.0");
    header.extend_from_slice(&[0x18, 0xc0, 0xe2, 0xe6, 0xc5, 0x06]);
    let trip = field(1, b"T1");
    let trip_update = field(1, &trip);
    let mut entity = field(1, b"e1");
    entity.extend_from_slice(&field(3, &trip_update));
    let mut out = field(1, &header);
    out.extend_from_slice(&field(2, &entity));
    out
}

fn assert_total_and_deterministic(bytes: &[u8]) {
    let first = decode_feed_message(bytes);
    let second = decode_feed_message(bytes);
    assert_eq!(first, second, "the same mutated input decoded differently");
}

#[test]
fn every_truncation_of_valid_feed_is_total() {
    let seed = minimal_feed();
    assert!(decode_feed_message(&seed).is_clean());
    for end in 0..=seed.len() {
        assert_total_and_deterministic(&seed[..end]);
    }
}

#[test]
fn every_single_bit_flip_of_valid_feed_is_total() {
    let seed = minimal_feed();
    for byte_index in 0..seed.len() {
        for bit in 0..8 {
            let mut mutated = seed.clone();
            mutated[byte_index] ^= 1 << bit;
            assert_total_and_deterministic(&mutated);
        }
    }
}

#[test]
fn common_tail_and_boundary_mutations_are_total() {
    let seed = minimal_feed();
    let mutations: &[&[u8]] = &[
        &[0x00],
        &[0x7b],
        &[0x3c, b'h', b't', b'm', b'l', b'>'],
        &[0x80],
        &[0xff, 0xff, 0xff, 0xff, 0xff, 0xff, 0xff, 0xff, 0xff, 0xff, 0x01],
    ];
    for suffix in mutations {
        let mut appended = seed.clone();
        appended.extend_from_slice(suffix);
        assert_total_and_deterministic(&appended);

        let mut prefixed = suffix.to_vec();
        prefixed.extend_from_slice(&seed);
        assert_total_and_deterministic(&prefixed);
    }
}
