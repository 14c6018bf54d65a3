use arcropolis::offsets::{
    resolved, search_offset_by_pattern, search_offsets, words_from_bytes, OffsetTable, IDK_OFFSET,
    LOOKUP_STREAM_HASH_OFFSET, TITLE_SCREEN_VERSION_OFFSET,
};

#[test]
fn startup_table_holds_the_fallback_offsets() {
    let t = search_offsets();
    assert_eq!(t.lookup_stream_hash, 0x335a350);
    assert_eq!(t.idk, 0x335f150);
    assert_eq!(t.add_idx_to_table1_and_table2, 0x33595a0);
    assert_eq!(t.title_screen_version, 0x35ba960);
    assert_eq!(t.parse_nus3bank_file, 0x35528f4);
    assert_eq!(t, OffsetTable::new());
    assert_eq!(LOOKUP_STREAM_HASH_OFFSET, 0x335a350);
    assert_eq!(IDK_OFFSET, 0x335f150);
    assert_eq!(TITLE_SCREEN_VERSION_OFFSET, 0x35ba960);
}

#[test]
fn resolver_hit_overrides_the_fallback() {
    assert_eq!(resolved(Some(0x1234), 0x9999), 0x1234);
    assert_eq!(resolved(None, 0x9999), 0x9999);
}

#[test]
fn pattern_scan_overrides_the_fallback_only_on_a_hit() {
    let mut text = vec![0u8; 32];
    text[12..16].copy_from_slice(&[0xAA, 0xBB, 0xCC, 0xDD]);
    assert_eq!(search_offset_by_pattern(&text, &[0xAA, 0xBB, 0xCC, 0xDD], 0x9999), 12);
    assert_eq!(search_offset_by_pattern(&text, &[0xEE, 0xFF], 0x9999), 0x9999);
}

#[test]
fn region_bytes_pack_into_little_endian_words() {
    let bytes = [0x1F, 0x20, 0x03, 0xD5, 0x40, 0x04, 0x40, 0xA9, 0xFF];
    let words = words_from_bytes(&bytes);
    // The trailing partial word is dropped.
    assert_eq!(words, vec![0xD503201F, 0xA9400440]);
    assert_eq!(words_from_bytes(&[]), Vec::<u32>::new());
}
