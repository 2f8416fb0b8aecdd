use emoji_resizer::sniff::{classify, is_animated_webp, Classification};

fn container(chunks: &[(&[u8; 4], &[u8])]) -> Vec<u8> {
    let mut body: Vec<u8> = Vec::new();
    for (tag, payload) in chunks {
        body.extend_from_slice(&tag[..]);
        body.extend_from_slice(&(payload.len() as u32).to_le_bytes());
        body.extend_from_slice(payload);
        if payload.len() % 2 == 1 {
            body.push(0);
        }
    }
    let mut out: Vec<u8> = Vec::new();
    out.extend_from_slice(b"RIFF");
    out.extend_from_slice(&((body.len() + 4) as u32).to_le_bytes());
    out.extend_from_slice(b"WEBP");
    out.extend_from_slice(&body);
    out
}

#[test]
fn short_buffers_are_static() {
    assert!(!is_animated_webp(b""));
    assert!(!is_animated_webp(b"RIFF"));
    assert!(!is_animated_webp(b"RIFF\x00\x00\x00\x00WEB"));
    assert_eq!(classify(b"RIFF\x00\x00\x00\x00WEB"), Classification::Static);
}

#[test]
fn foreign_headers_are_static() {
    let mut data = container(&[(b"ANIM", &[0u8; 6])]);
    assert!(is_animated_webp(&data));
    data[0] = b'X';
    assert!(!is_animated_webp(&data));
    let mut data = container(&[(b"ANIM", &[0u8; 6])]);
    data[11] = b'Q';
    assert!(!is_animated_webp(&data));
    let png = [0x89u8, b'P', b'N', b'G', 0x0D, 0x0A, 0x1A, 0x0A, 0, 0, 0, 13, b'I', b'H', b'D', b'R'];
    assert_eq!(classify(&png), Classification::Static);
}

#[test]
fn header_alone_is_static() {
    assert!(!is_animated_webp(b"RIFF\x04\x00\x00\x00WEBP"));
}

#[test]
fn containers_without_marker_chunks_are_static() {
    let data = container(&[(b"VP8 ", &[1u8, 2, 3, 4]), (b"EXIF", &[9u8; 7]), (b"XMP ", &[])]);
    assert!(!is_animated_webp(&data));
    assert_eq!(classify(&data), Classification::Static);
}

#[test]
fn animation_chunk_makes_animated_at_any_position() {
    let first = container(&[(b"ANIM", &[0u8; 6]), (b"VP8 ", &[1u8, 2, 3])]);
    let middle = container(&[(b"ICCP", &[7u8; 5]), (b"ANIM", &[0u8; 6]), (b"ANMF", &[1u8; 16])]);
    let last = container(&[(b"VP8L", &[1u8; 9]), (b"EXIF", &[2u8; 2]), (b"ANIM", &[0u8; 6])]);
    assert!(is_animated_webp(&first));
    assert!(is_animated_webp(&middle));
    assert!(is_animated_webp(&last));
    assert_eq!(classify(&last), Classification::Animated);
}

#[test]
fn extended_chunk_flag_decides() {
    let set = container(&[(b"VP8X", &[0x02u8, 0, 0, 0, 0, 0, 0, 0, 0, 0])]);
    let set_among_others = container(&[(b"VP8X", &[0x12u8, 0, 0, 0, 0, 0, 0, 0, 0, 0])]);
    let clear = container(&[(b"VP8X", &[0x10u8, 0, 0, 0, 0, 0, 0, 0, 0, 0]), (b"VP8 ", &[1u8; 4])]);
    let all_but_animation = container(&[(b"VP8X", &[0xFDu8, 0, 0, 0, 0, 0, 0, 0, 0, 0])]);
    assert!(is_animated_webp(&set));
    assert!(is_animated_webp(&set_among_others));
    assert!(!is_animated_webp(&clear));
    assert!(!is_animated_webp(&all_but_animation));
}

#[test]
fn extended_chunk_is_authoritative_over_later_animation_chunk() {
    let data = container(&[(b"VP8X", &[0u8; 10]), (b"ANIM", &[0u8; 6])]);
    assert!(!is_animated_webp(&data));
}

#[test]
fn animation_chunk_before_extended_chunk_wins() {
    let data = container(&[(b"ANIM", &[0u8; 6]), (b"VP8X", &[0u8; 10])]);
    assert!(is_animated_webp(&data));
}

#[test]
fn extended_chunk_without_flag_byte_is_static() {
    let mut data: Vec<u8> = Vec::new();
    data.extend_from_slice(b"RIFF\x0c\x00\x00\x00WEBPVP8X\x0a\x00\x00\x00");
    assert_eq!(data.len(), 20);
    assert!(!is_animated_webp(&data));
}

#[test]
fn oversized_chunk_ends_the_walk() {
    let mut data: Vec<u8> = Vec::new();
    data.extend_from_slice(b"RIFF\xff\xff\xff\xffWEBP");
    data.extend_from_slice(b"VP8 \xff\xff\xff\xff");
    data.extend_from_slice(b"ANIM\x06\x00\x00\x00\x00\x00\x00\x00\x00\x00");
    assert!(!is_animated_webp(&data));
    let mut just_past: Vec<u8> = Vec::new();
    just_past.extend_from_slice(b"RIFF\x00\x00\x00\x00WEBP");
    just_past.extend_from_slice(b"VP8 \x05\x00\x00\x00\x01\x02\x03\x04");
    assert!(!is_animated_webp(&just_past));
}

#[test]
fn odd_payloads_are_padded() {
    let mut data: Vec<u8> = Vec::new();
    data.extend_from_slice(b"RIFF\x00\x00\x00\x00WEBP");
    data.extend_from_slice(b"EXIF\x03\x00\x00\x00\x01\x02\x03\x00");
    data.extend_from_slice(b"ANIM\x00\x00\x00\x00");
    assert!(is_animated_webp(&data));
    let mut unpadded: Vec<u8> = Vec::new();
    unpadded.extend_from_slice(b"RIFF\x00\x00\x00\x00WEBP");
    unpadded.extend_from_slice(b"EXIF\x03\x00\x00\x00\x01\x02\x03");
    unpadded.extend_from_slice(b"ANIM\x00\x00\x00\x00\x00");
    assert!(!is_animated_webp(&unpadded));
}

#[test]
fn truncated_chunk_header_is_static() {
    let mut data = container(&[(b"VP8 ", &[1u8, 2])]);
    data.extend_from_slice(b"ANIM\x00\x00\x00");
    assert!(!is_animated_webp(&data));
}

#[test]
fn chunk_sizes_are_little_endian() {
    let payload = vec![0u8; 0x0102];
    let data = container(&[(b"VP8 ", &payload), (b"ANIM", &[0u8; 6])]);
    assert_eq!(&data[16..20], &[0x02u8, 0x01, 0x00, 0x00]);
    assert!(is_animated_webp(&data));
}
