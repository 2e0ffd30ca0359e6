use quizzle_migrator::container::{
    decode_container, encode_container, text_from_bytes, ContainerKind, DecodeError,
};
use std::io::Write;

fn base64_of(bytes: &[u8]) -> String {
    base64::Engine::encode(&base64::engine::general_purpose::STANDARD, bytes)
}

fn zlib_of(bytes: &[u8]) -> Vec<u8> {
    let mut encoder = flate2::write::ZlibEncoder::new(Vec::new(), flate2::Compression::default());
    encoder.write_all(bytes).unwrap();
    encoder.finish().unwrap()
}

#[test]
fn base64_container_yields_its_text() {
    let content = base64_of(b"{\"title\": \"Quiz\"}");
    assert_eq!(
        decode_container(content.as_bytes(), ContainerKind::Base64),
        Ok("{\"title\": \"Quiz\"}".to_string())
    );
}

#[test]
fn base64_container_of_a_known_text() {
    assert_eq!(
        decode_container(b"aGVsbG8=", ContainerKind::Base64),
        Ok("hello".to_string())
    );
}

#[test]
fn base64_container_is_trimmed_at_both_ends() {
    assert_eq!(
        decode_container(b" \t\r\naGVsbG8=\n\n  ", ContainerKind::Base64),
        Ok("hello".to_string())
    );
}

#[test]
fn base64_container_is_not_trimmed_inside() {
    assert_eq!(
        decode_container(b"aGVs bG8=", ContainerKind::Base64),
        Err(DecodeError::InvalidBase64)
    );
}

#[test]
fn base64_container_keeps_text_beyond_ascii() {
    let content = base64_of("Größe ✓".as_bytes());
    assert_eq!(
        decode_container(content.as_bytes(), ContainerKind::Base64),
        Ok("Größe ✓".to_string())
    );
}

#[test]
fn empty_base64_container_yields_empty_text() {
    assert_eq!(decode_container(b"", ContainerKind::Base64), Ok(String::new()));
    assert_eq!(decode_container(b"  \n", ContainerKind::Base64), Ok(String::new()));
}

#[test]
fn invalid_base64_is_rejected() {
    assert_eq!(
        decode_container(b"this is not base64!", ContainerKind::Base64),
        Err(DecodeError::InvalidBase64)
    );
    assert_eq!(
        decode_container(b"aGVsbG8", ContainerKind::Base64),
        Err(DecodeError::InvalidBase64)
    );
}

#[test]
fn base64_container_that_is_not_utf8_is_rejected() {
    assert_eq!(
        decode_container(&[0xff, 0xfe, 0x41], ContainerKind::Base64),
        Err(DecodeError::InvalidUtf8)
    );
}

#[test]
fn base64_payload_that_is_not_utf8_is_rejected() {
    let content = base64_of(&[0xc3, 0x28]);
    assert_eq!(
        decode_container(content.as_bytes(), ContainerKind::Base64),
        Err(DecodeError::InvalidUtf8)
    );
}

#[test]
fn zlib_container_yields_its_text() {
    let content = zlib_of("{\"title\": \"Prüfung\"}".as_bytes());
    assert_eq!(
        decode_container(&content, ContainerKind::Zlib),
        Ok("{\"title\": \"Prüfung\"}".to_string())
    );
}

#[test]
fn corrupted_zlib_stream_is_rejected() {
    assert_eq!(
        decode_container(b"definitely not zlib", ContainerKind::Zlib),
        Err(DecodeError::InvalidCompression)
    );
    let mut content = zlib_of(b"some text that is long enough to be worth compressing");
    content.truncate(content.len() / 2);
    assert_eq!(
        decode_container(&content, ContainerKind::Zlib),
        Err(DecodeError::InvalidCompression)
    );
}

#[test]
fn empty_zlib_container_is_rejected() {
    assert_eq!(
        decode_container(b"", ContainerKind::Zlib),
        Err(DecodeError::InvalidCompression)
    );
}

#[test]
fn zlib_payload_that_is_not_utf8_is_rejected() {
    let content = zlib_of(&[0x66, 0x6f, 0x80, 0x6f]);
    assert_eq!(
        decode_container(&content, ContainerKind::Zlib),
        Err(DecodeError::InvalidUtf8)
    );
}

#[test]
fn the_kind_is_never_guessed_from_the_content() {
    let content = zlib_of(b"hello");
    assert!(decode_container(&content, ContainerKind::Base64).is_err());
    assert_eq!(
        decode_container(b"aGVsbG8=", ContainerKind::Zlib),
        Err(DecodeError::InvalidCompression)
    );
}

#[test]
fn encoded_container_is_a_zlib_stream_of_the_text() {
    let stream = encode_container("hello, quiz").unwrap();
    assert_ne!(stream, b"hello, quiz".to_vec());
    assert_eq!(stream, zlib_of(b"hello, quiz"));
    assert_eq!(
        decode_container(&stream, ContainerKind::Zlib),
        Ok("hello, quiz".to_string())
    );
}

#[test]
fn encoding_and_decoding_give_the_text_back() {
    for text in ["", "a", "{\n  \"title\": \"Ünïcödé\"\n}", "aaaaaaaaaaaaaaaaaaaaaaaaaaaaaaaa"] {
        let stream = encode_container(text).unwrap();
        assert_eq!(decode_container(&stream, ContainerKind::Zlib), Ok(text.to_string()));
    }
}

#[test]
fn bytes_are_read_as_utf8_text() {
    assert_eq!(text_from_bytes(b""), Ok(String::new()));
    assert_eq!(text_from_bytes(b"quiz"), Ok("quiz".to_string()));
    assert_eq!(text_from_bytes(&[0xc3, 0xa4]), Ok("ä".to_string()));
    assert_eq!(text_from_bytes(&[0xf0, 0x9f, 0x8e, 0x93]), Ok("🎓".to_string()));
}

#[test]
fn bytes_that_are_not_utf8_are_rejected() {
    assert_eq!(text_from_bytes(&[0xc3]), Err(DecodeError::InvalidUtf8));
    assert_eq!(text_from_bytes(&[0xc0, 0xaf]), Err(DecodeError::InvalidUtf8));
    assert_eq!(text_from_bytes(&[0xed, 0xa0, 0x80]), Err(DecodeError::InvalidUtf8));
    assert_eq!(text_from_bytes(&[0xf4, 0x90, 0x80, 0x80]), Err(DecodeError::InvalidUtf8));
    assert_eq!(text_from_bytes(&[0x61, 0x80]), Err(DecodeError::InvalidUtf8));
}

#[test]
fn only_whitespace_at_the_ends_is_dropped() {
    let inner = "aGVs\u{2003}bG8=";
    assert!(decode_container(inner.as_bytes(), ContainerKind::Base64).is_err());
    let outer = "\u{2003}\u{a0}aGVsbG8=\u{3000}\u{85}";
    assert_eq!(decode_container(outer.as_bytes(), ContainerKind::Base64), Ok("hello".to_string()));
    let no_space = "\u{200b}aGVsbG8=";
    assert_eq!(
        decode_container(no_space.as_bytes(), ContainerKind::Base64),
        Err(DecodeError::InvalidBase64)
    );
}
