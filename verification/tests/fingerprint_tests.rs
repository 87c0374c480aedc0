use winpaste::fingerprint::{fingerprint_bytes, image_placeholder, text_preview};

#[test]
fn fingerprint_is_sha256_hex_lowercase() {
    // Well-known SHA-256 digest of the ASCII bytes "hello".
    let h = fingerprint_bytes(b"hello");
    assert_eq!(h, "2cf24dba5fb0a30e26e83b2ac5b9e29e1b161e5c1fa7425e73043362938b9824");
}

#[test]
fn fingerprint_of_empty_input() {
    // Well-known SHA-256 digest of the empty byte sequence.
    let h = fingerprint_bytes(b"");
    assert_eq!(h, "e3b0c44298fc1c149afbf4c8996fb92427ae41e4649b934ca495991b7852b855");
}

#[test]
fn equal_bytes_fingerprint_alike() {
    let a = fingerprint_bytes(b"some clipboard content");
    let b = fingerprint_bytes(b"some clipboard content");
    assert_eq!(a, b);
    assert_eq!(a.len(), 64);
}

#[test]
fn different_bytes_fingerprint_differently() {
    let a = fingerprint_bytes(b"content one");
    let b = fingerprint_bytes(b"content two");
    assert_ne!(a, b);
}

#[test]
fn preview_of_short_text_is_the_text() {
    assert_eq!(text_preview("hello"), "hello");
    assert_eq!(text_preview(""), "");
}

#[test]
fn preview_truncates_to_200_scalar_values() {
    let long: String = "a".repeat(500);
    let p = text_preview(&long);
    assert_eq!(p.chars().count(), 200);
    assert_eq!(p, "a".repeat(200));
}

#[test]
fn preview_never_splits_a_multibyte_character() {
    // 500 two-byte characters: the cut must fall on a character boundary.
    let long: String = "\u{00e9}".repeat(500);
    let p = text_preview(&long);
    assert_eq!(p.chars().count(), 200);
    assert_eq!(p, "\u{00e9}".repeat(200));
}

#[test]
fn preview_of_exactly_200_characters_is_whole() {
    let text: String = "x".repeat(200);
    assert_eq!(text_preview(&text), text);
}

#[test]
fn image_placeholder_is_constant() {
    assert_eq!(image_placeholder(), "[Image]");
}
