use comtrade_rust::encoding::{is_decodable_len, Decoder};

#[test]
fn latin1_resolves_to_its_decoder() {
    let decoder = Decoder::resolve(Some("latin1"));
    assert_eq!(decoder.canonical_name(), "windows-1252");
}

#[test]
fn unknown_label_resolves_to_utf8() {
    let decoder = Decoder::resolve(Some("bogus-label"));
    assert_eq!(decoder.canonical_name(), "UTF-8");
}

#[test]
fn absent_label_resolves_to_utf8() {
    let decoder = Decoder::resolve(None);
    assert_eq!(decoder.canonical_name(), "UTF-8");
}

#[test]
fn labels_are_matched_without_case_and_outer_space() {
    assert_eq!(Decoder::resolve(Some("  Shift_JIS\n")).canonical_name(), "Shift_JIS");
    assert_eq!(Decoder::resolve(Some("UTF-16le")).canonical_name(), "UTF-16LE");
}

#[test]
fn registry_lookup_tells_known_from_unknown() {
    assert!(Decoder::for_label("bogus-label").is_none());
    assert!(Decoder::for_label("").is_none());
    match Decoder::for_label("utf8") {
        Some(decoder) => assert_eq!(decoder.canonical_name(), "UTF-8"),
        None => panic!("utf8 is a registered label"),
    }
}

#[test]
fn utf8_decoder_is_named_utf8() {
    assert_eq!(Decoder::utf8().canonical_name(), "UTF-8");
}

#[test]
fn latin1_decoder_reads_single_bytes() {
    let decoder = Decoder::resolve(Some("latin1"));
    assert_eq!(decoder.decode(&[0x63, 0x61, 0x66, 0xE9]), "caf\u{e9}");
}

#[test]
fn utf8_decoder_replaces_malformed_bytes() {
    let decoder = Decoder::utf8();
    assert_eq!(decoder.decode(&[0x63, 0x61, 0x66, 0xE9]), "caf\u{fffd}");
    assert_eq!(decoder.decode(&[0x63, 0x61, 0x66, 0xC3, 0xA9]), "caf\u{e9}");
}

#[test]
fn byte_order_mark_overrides_the_decoder() {
    let decoder = Decoder::resolve(Some("latin1"));
    assert_eq!(decoder.decode(&[0xEF, 0xBB, 0xBF, 0xC3, 0xA9]), "\u{e9}");
}

#[test]
fn ordinary_lengths_are_decodable() {
    assert!(is_decodable_len(0));
    assert!(is_decodable_len(1 << 20));
    assert!(!is_decodable_len(usize::MAX));
}
