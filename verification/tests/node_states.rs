use cfview::decode::Decoder;

#[test]
fn equal_context_and_value_decodes_as_utf8() {
    let v = "hello world".as_bytes();
    assert_eq!(Decoder::NodeState.decode(v, v), "hello world");
}

#[test]
fn equal_context_and_value_with_invalid_utf8_substitutes() {
    let v: &[u8] = &[0xff, 0xfe];
    let out = Decoder::NodeState.decode(v, v);
    assert_eq!(out, "\u{fffd}\u{fffd}");
}

#[test]
fn db_version_three_bytes_dotted() {
    let ctx = "db_version".as_bytes();
    assert_eq!(Decoder::NodeState.decode(ctx, &[1, 2, 3]), "1.2.3");
    assert_eq!(Decoder::NodeState.decode(ctx, &[255, 0, 9]), "255.0.9");
}

#[test]
fn db_version_wrong_length_is_invalid_version() {
    let ctx = "db_version".as_bytes();
    let out = Decoder::NodeState.decode(ctx, &[1, 2]);
    assert!(out.starts_with("<invalid version"));
    assert_eq!(out, "<invalid version 0102>");
}

#[test]
fn block_id_keys_decode_value_as_full_block_id() {
    let mut v = Vec::new();
    v.extend_from_slice(&(-1i32).to_be_bytes());
    v.extend_from_slice(&0x8000000000000000u64.to_be_bytes());
    v.extend_from_slice(&7u32.to_be_bytes());
    v.extend_from_slice(&[0x01; 32]);
    v.extend_from_slice(&[0x02; 32]);
    let expected = format!(
        "-1:8000000000000000:7:{}:{}",
        "01".repeat(32),
        "02".repeat(32)
    );
    for key in [
        "background_sync_low",
        "background_sync_high",
        "LastMcBlockId",
        "InitMcBlockId",
        "ShardsClientMcBlockId",
    ] {
        assert_eq!(Decoder::NodeState.decode(key.as_bytes(), &v), expected);
    }
}

#[test]
fn block_id_key_with_short_value_is_invalid() {
    let out = Decoder::NodeState.decode("LastMcBlockId".as_bytes(), &[1, 2]);
    assert_eq!(out, "<invalid 0102>");
}

#[test]
fn last_uploaded_archive_is_uint32() {
    let ctx = "last_uploaded_archive".as_bytes();
    assert_eq!(Decoder::NodeState.decode(ctx, &777u32.to_be_bytes()), "777");
    assert!(Decoder::NodeState.decode(ctx, &[1]).starts_with("<invalid"));
}

#[test]
fn unknown_key_falls_back_to_hex() {
    let out = Decoder::NodeState.decode("some_other_key".as_bytes(), &[0xab, 0xcd]);
    assert_eq!(out, "abcd");
}
