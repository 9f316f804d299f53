use split_server::ids::{id_text, new_id, parse_id};

#[test]
fn id_text_is_hyphenated_lower_hex() {
    let id: u128 = 0xa1a2a3a4b1b2c1c2d1d2d3d4d5d6d7d8;
    assert_eq!(id_text(id), "a1a2a3a4-b1b2-c1c2-d1d2-d3d4d5d6d7d8");
}

#[test]
fn id_text_of_zero_and_small_values() {
    assert_eq!(id_text(0), "00000000-0000-0000-0000-000000000000");
    assert_eq!(id_text(0xff), "00000000-0000-0000-0000-0000000000ff");
}

#[test]
fn parse_id_reads_hyphenated_and_simple_forms() {
    assert_eq!(parse_id("550e8400-e29b-41d4-a716-446655440000"), Ok(0x550e8400e29b41d4a716446655440000));
    assert_eq!(parse_id("550e8400e29b41d4a716446655440000"), Ok(0x550e8400e29b41d4a716446655440000));
    assert_eq!(parse_id("550E8400-E29B-41D4-A716-446655440000"), Ok(0x550e8400e29b41d4a716446655440000));
}

#[test]
fn parse_id_rejects_non_uuids() {
    for text in ["", "not-a-uuid", "550e8400-e29b-41d4-a716-44665544000"] {
        let reason = parse_id(text).unwrap_err();
        assert_eq!(reason, uuid::Uuid::parse_str(text).unwrap_err().to_string());
        assert!(!reason.is_empty());
    }
}

#[test]
fn id_text_parses_back() {
    for id in [0u128, 1, 0x0123456789abcdef0123456789abcdef, u128::MAX] {
        assert_eq!(parse_id(&id_text(id)), Ok(id));
        assert_eq!(id_text(id).len(), 36);
    }
}

#[test]
fn new_id_lays_out_time_version_variant_and_random_bytes() {
    let random = [0xff, 0x12, 0xff, 0x34, 0x56, 0x78, 0x9a, 0xbc, 0xde, 0xf0];
    let id = new_id(0x0123_4567_89ab, &random);
    assert_eq!(id_text(id), "01234567-89ab-7f12-bf34-56789abcdef0");
    assert_eq!(id >> 80, 0x0123_4567_89ab);
    assert_eq!((id >> 76) & 0xf, 7);
    assert_eq!((id >> 62) & 0x3, 2);
}

#[test]
fn new_id_keeps_low_48_bits_of_time() {
    let id = new_id(u64::MAX, &[0; 10]);
    assert_eq!(id >> 80, 0xffff_ffff_ffff);
    assert_eq!(id & ((1u128 << 80) - 1), (0x7000u128 << 64) | (0x80u128 << 56));
    assert_ne!(new_id(1, &[0; 10]), new_id(2, &[0; 10]));
    assert_ne!(new_id(1, &[0; 10]), new_id(1, &[0, 0, 0, 0, 0, 0, 0, 0, 0, 1]));
}
