use smite_api::signature::{make_signature, to_lower_hex};

fn is_lower_hex(s: &str) -> bool {
    s.chars().all(|c| c.is_ascii_digit() || ('a'..='f').contains(&c))
}

#[test]
fn signature_of_empty_inputs_is_md5_of_empty() {
    assert_eq!(make_signature("", "", "", ""), "d41d8cd98f00b204e9800998ecf8427e");
}

#[test]
fn signature_joins_parts_in_order() {
    // MD5("abc")
    assert_eq!(make_signature("a", "b", "c", ""), "900150983cd24fb0d6963f7d28e17f72");
    assert_eq!(make_signature("", "ab", "", "c"), "900150983cd24fb0d6963f7d28e17f72");
}

#[test]
fn signature_is_deterministic_and_hex() {
    let a = make_signature("1004", "createsession", "SECRET-REDACTED", "20230101120030");
    let b = make_signature("1004", "createsession", "SECRET-REDACTED", "20230101120030");
    assert_eq!(a, b);
    assert_eq!(a.len(), 32);
    assert!(is_lower_hex(&a));
}

#[test]
fn signature_changes_with_any_single_character() {
    let base = make_signature("1004", "getgods", "ABCDEF", "20230101120030");
    assert_ne!(base, make_signature("1005", "getgods", "ABCDEF", "20230101120030"));
    assert_ne!(base, make_signature("1004", "getgodS", "ABCDEF", "20230101120030"));
    assert_ne!(base, make_signature("1004", "getgods", "ABCDEG", "20230101120030"));
    assert_ne!(base, make_signature("1004", "getgods", "ABCDEF", "20230101120031"));
    assert_ne!(base, make_signature("1004", "getgods", "abcdef", "20230101120030"));
}

#[test]
fn lower_hex_renders_each_byte() {
    assert_eq!(to_lower_hex(&[0x00, 0x0f, 0xa5, 0xff]), "000fa5ff");
    assert_eq!(to_lower_hex(&[]), "");
}
