//! Tests of the key codec, the partition namer and the location setting, on
//! exact expected values.

use bevy_easy_database::config::resolve_location;
use bevy_easy_database::config::DatabaseLocation;
use bevy_easy_database::keys::decode_key;
use bevy_easy_database::keys::encode_key;
use bevy_easy_database::naming::partition_name;

#[test]
fn encode_is_fixed_width_big_endian() {
    assert_eq!(encode_key(7), vec![0, 0, 0, 7]);
    assert_eq!(encode_key(0x01020304), vec![1, 2, 3, 4]);
    assert_eq!(encode_key(0), vec![0, 0, 0, 0]);
}

#[test]
fn decode_round_trips_every_valid_id() {
    for id in [0u32, 1, 7, 0x0102_0304, u32::MAX - 1] {
        assert_eq!(decode_key(&encode_key(id)), Some(id));
    }
}

#[test]
fn decode_rejects_wrong_width() {
    assert_eq!(decode_key(&[]), None);
    assert_eq!(decode_key(&[0, 0, 7]), None);
    assert_eq!(decode_key(&[0, 0, 0, 0, 7]), None);
}

#[test]
fn decode_rejects_null_id() {
    assert_eq!(decode_key(&[0xff, 0xff, 0xff, 0xff]), None);
}

#[test]
fn partition_name_is_the_decimal_rendering() {
    assert_eq!(partition_name(0), b"0".to_vec());
    assert_eq!(partition_name(7), b"7".to_vec());
    assert_eq!(partition_name(12345), b"12345".to_vec());
    assert_eq!(partition_name(u64::MAX), b"18446744073709551615".to_vec());
}

#[test]
fn partition_names_are_deterministic_and_distinct() {
    assert_eq!(partition_name(42), partition_name(42));
    assert_ne!(partition_name(42), partition_name(43));
}

#[test]
fn location_defaults_when_unconfigured() {
    assert_eq!(resolve_location(None), "./database".to_string());
    let configured = DatabaseLocation("/tmp/store".to_string());
    assert_eq!(resolve_location(Some(configured)), "/tmp/store".to_string());
}
