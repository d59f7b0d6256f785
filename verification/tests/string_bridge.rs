use vlc::tools::{decode_native, from_cstr, from_cstr_bytes, path_to_cstr, round_trip, to_cstr};

#[test]
fn to_cstr_terminates_with_single_nul() {
    let c = to_cstr("hello");
    let bytes = c.as_bytes_with_nul();
    assert_eq!(bytes.as_slice(), b"hello\0");
}

#[test]
fn encode_decode_round_trip() {
    assert_eq!(round_trip("hello world"), "hello world");
    assert_eq!(round_trip(""), "");
    assert_eq!(round_trip("caf\u{e9} \u{1f3b5}"), "caf\u{e9} \u{1f3b5}");
}

#[test]
fn decode_native_reads_back_encoded_text() {
    let c = to_cstr("media://example");
    assert_eq!(decode_native(&c), "media://example");
}

#[test]
fn path_to_cstr_accepts_plain_path() {
    let r = path_to_cstr("/tmp/example.ogg");
    let ns = r.ok().expect("plain path must encode");
    assert_eq!(ns.as_bytes_with_nul().as_slice(), b"/tmp/example.ogg\0");
}

#[test]
fn path_to_cstr_reports_first_nul_position() {
    let r = path_to_cstr("ab\0cd\0e");
    let err = r.err().expect("embedded nul must be refused");
    assert_eq!(err.position, 2);
}

#[test]
fn from_cstr_null_pointer_is_absent() {
    assert_eq!(from_cstr(&None), None);
}

#[test]
fn from_cstr_decodes_exact_bytes() {
    assert_eq!(from_cstr(&Some(b"English".to_vec())), Some(String::from("English")));
}

#[test]
fn from_cstr_replaces_invalid_sequences() {
    let decoded = from_cstr_bytes(&vec![0xff, 0x61]);
    assert_eq!(decoded, "\u{fffd}a");
}
