use proxy_wasm_harness::codec::deserialize_header_map;
use proxy_wasm_harness::codec::read_u32_le;
use proxy_wasm_harness::codec::serialize_header_map;
use proxy_wasm_harness::codec::write_u32_le;

fn pair(key: &str, value: &str) -> (Vec<u8>, Vec<u8>) {
    (key.as_bytes().to_vec(), value.as_bytes().to_vec())
}

#[test]
fn u32_little_endian_layout() {
    let mut out: Vec<u8> = Vec::new();
    write_u32_le(&mut out, 0x0403_0201);
    assert_eq!(out, vec![0x01, 0x02, 0x03, 0x04]);
    assert_eq!(read_u32_le(&out, 0), 0x0403_0201);
}

#[test]
fn u32_round_trip_extremes() {
    for value in [0u32, 1, 0xff, 0x100, 0xffff_ffff] {
        let mut out: Vec<u8> = Vec::new();
        write_u32_le(&mut out, value);
        assert_eq!(read_u32_le(&out, 0), value);
    }
}

#[test]
fn serialized_header_map_layout() {
    let pairs = vec![pair("a", "bc")];
    let bytes = serialize_header_map(&pairs);
    assert_eq!(
        bytes,
        vec![
            1, 0, 0, 0, // one pair
            1, 0, 0, 0, // key length
            2, 0, 0, 0, // value length
            b'a', 0, b'b', b'c', 0,
        ]
    );
}

#[test]
fn empty_header_map_serializes_to_count_only() {
    let pairs: Vec<(Vec<u8>, Vec<u8>)> = Vec::new();
    let bytes = serialize_header_map(&pairs);
    assert_eq!(bytes, vec![0, 0, 0, 0]);
    assert_eq!(deserialize_header_map(&bytes), Some(Vec::new()));
}

#[test]
fn header_map_round_trips() {
    let pairs = vec![
        pair(":method", "GET"),
        pair(":path", "/hello"),
        pair(":authority", "developer"),
    ];
    let bytes = serialize_header_map(&pairs);
    assert_eq!(deserialize_header_map(&bytes), Some(pairs));
}

#[test]
fn header_map_with_empty_and_binary_values_round_trips() {
    let pairs = vec![
        pair("", ""),
        (vec![0u8, 1, 2], vec![255u8, 0, 128]),
        pair("duplicate", "one"),
        pair("duplicate", "two"),
    ];
    let bytes = serialize_header_map(&pairs);
    assert_eq!(deserialize_header_map(&bytes), Some(pairs));
}

#[test]
fn deserialize_rejects_short_input() {
    assert_eq!(deserialize_header_map(&[]), None);
    assert_eq!(deserialize_header_map(&[1, 0, 0]), None);
}

#[test]
fn deserialize_rejects_truncated_tables() {
    // one pair announced, but no length table follows
    assert_eq!(deserialize_header_map(&[1, 0, 0, 0]), None);
    // length table truncated after the key length
    assert_eq!(deserialize_header_map(&[1, 0, 0, 0, 1, 0, 0, 0]), None);
}

#[test]
fn deserialize_rejects_missing_terminators() {
    let pairs = vec![pair("a", "b")];
    let mut bytes = serialize_header_map(&pairs);
    let last = bytes.len() - 1;
    bytes[last] = 7; // final terminator is not 0x00
    assert_eq!(deserialize_header_map(&bytes), None);
}

#[test]
fn deserialize_rejects_trailing_bytes() {
    let pairs = vec![pair("a", "b")];
    let mut bytes = serialize_header_map(&pairs);
    bytes.push(0);
    assert_eq!(deserialize_header_map(&bytes), None);
}
