use cfview::catalog::{layout_for, Layout};
use cfview::decode::Decoder;
use cfview::rows::{decode_row, decode_rows, resolve, LookupError};

#[test]
fn catalog_maps_known_names() {
    assert_eq!(
        layout_for("archives"),
        Layout { key: Decoder::UnsignedInt32, value: Decoder::Blob }
    );
    assert_eq!(
        layout_for("key_blocks"),
        Layout { key: Decoder::UnsignedInt32, value: Decoder::FullBlockId }
    );
    assert_eq!(
        layout_for("shard_states"),
        Layout { key: Decoder::ShortBlockId, value: Decoder::ShardStateTriple }
    );
    for name in ["prev1", "prev2", "next1", "next2"] {
        assert_eq!(
            layout_for(name),
            Layout { key: Decoder::Hex, value: Decoder::FullBlockId }
        );
    }
    assert_eq!(
        layout_for("package_entries"),
        Layout { key: Decoder::PackageEntryId, value: Decoder::Blob }
    );
    assert_eq!(
        layout_for("node_states"),
        Layout { key: Decoder::NodeState, value: Decoder::NodeState }
    );
}

#[test]
fn catalog_is_total_with_hex_default() {
    for name in ["", "default", "unheard_of", "ARCHIVES", "archives2"] {
        assert_eq!(
            layout_for(name),
            Layout { key: Decoder::Hex, value: Decoder::Hex }
        );
    }
}

#[test]
fn resolve_finds_opened_family() {
    let families = vec![
        "default".to_string(),
        "archives".to_string(),
        "node_states".to_string(),
    ];
    let handle = resolve(&families, "archives").expect("archives is opened");
    assert_eq!(handle.name, "archives");
    assert_eq!(
        handle.layout,
        Layout { key: Decoder::UnsignedInt32, value: Decoder::Blob }
    );
    let fallback = resolve(&families, "default").expect("default is opened");
    assert_eq!(
        fallback.layout,
        Layout { key: Decoder::Hex, value: Decoder::Hex }
    );
}

#[test]
fn resolve_rejects_absent_family() {
    let families = vec!["archives".to_string()];
    assert_eq!(
        resolve(&families, "missing").unwrap_err(),
        LookupError::FamilyNotOpened
    );
    assert_eq!(
        resolve(&Vec::new(), "archives").unwrap_err(),
        LookupError::FamilyNotOpened
    );
}

#[test]
fn decode_row_uses_key_as_context_for_both_sides() {
    let layout = layout_for("node_states");
    let row = decode_row(
        layout,
        "db_version".as_bytes(),
        &[1, 2, 3],
    );
    assert_eq!(row.key, "db_version");
    assert_eq!(row.value, "1.2.3");
}

#[test]
fn empty_family_yields_zero_rows() {
    let layout = layout_for("archives");
    let pairs: Vec<(Vec<u8>, Vec<u8>)> = Vec::new();
    let rows = decode_rows(layout, &pairs, 10000);
    assert_eq!(rows.len(), 0);
}

#[test]
fn capped_scan_is_prefix_of_uncapped_scan() {
    let layout = layout_for("archives");
    let pairs: Vec<(Vec<u8>, Vec<u8>)> = (0u32..5)
        .map(|i| (i.to_be_bytes().to_vec(), vec![0u8; i as usize]))
        .collect();
    let capped = decode_rows(layout, &pairs, 3);
    let full = decode_rows(layout, &pairs, usize::MAX);
    assert_eq!(capped.len(), 3);
    assert_eq!(full.len(), 5);
    for i in 0..3 {
        assert_eq!(capped[i].key, full[i].key);
        assert_eq!(capped[i].value, full[i].value);
    }
    assert_eq!(full[4].key, "4");
    assert_eq!(full[4].value, "<4 bytes>");
}

#[test]
fn rows_keep_native_order() {
    let layout = layout_for("archives");
    let pairs: Vec<(Vec<u8>, Vec<u8>)> = (10u32..14)
        .map(|i| (i.to_be_bytes().to_vec(), Vec::new()))
        .collect();
    let rows = decode_rows(layout, &pairs, 100);
    let keys: Vec<&str> = rows.iter().map(|r| r.key.as_str()).collect();
    assert_eq!(keys, ["10", "11", "12", "13"]);
}
