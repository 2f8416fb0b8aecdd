use emoji_resizer::etag::{format_etag, make_etag};

#[test]
fn etag_of_empty_body() {
    assert_eq!(make_etag(b""), "W/\"da39a3ee5e6b4b0d3255bfef95601890afd80709\"");
}

#[test]
fn etag_of_abc() {
    assert_eq!(make_etag(b"abc"), "W/\"a9993e364706816aba3e25717850c26c9cd0d89d\"");
}

#[test]
fn etag_is_the_same_for_the_same_bytes() {
    let body = vec![7u8; 1000];
    let again = body.clone();
    assert_eq!(make_etag(&body), make_etag(&again));
    assert_eq!(make_etag(&body), make_etag(&body));
}

#[test]
fn etag_differs_when_one_byte_differs() {
    let body = vec![7u8; 1000];
    let mut other = body.clone();
    other[500] = 8;
    assert_ne!(make_etag(&body), make_etag(&other));
    assert_ne!(make_etag(b"abc"), make_etag(b"abd"));
}

#[test]
fn format_etag_writes_lower_case_hex() {
    assert_eq!(format_etag(&[0x00, 0xff, 0x1a, 0xB2, 0x09]), "W/\"00ff1ab209\"");
    assert_eq!(format_etag(&[]), "W/\"\"");
}

#[test]
fn format_etag_covers_every_digit() {
    assert_eq!(
        format_etag(&[0x01, 0x23, 0x45, 0x67, 0x89, 0xab, 0xcd, 0xef]),
        "W/\"0123456789abcdef\""
    );
}

#[test]
fn etag_has_the_shape_of_a_weak_validator() {
    let tag = make_etag(b"some body");
    assert!(tag.starts_with("W/\""));
    assert!(tag.ends_with('"'));
    assert_eq!(tag.len(), 44);
}
