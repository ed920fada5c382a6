use std::borrow::Cow;

use modio::request::multipart::boundary::{random, Boundary, Rng, BOUNDARY_LEN};
use modio::request::multipart::encoding::{
    percent_encode_attr_char, percent_encode_noop, percent_encode_path_segment,
};
use modio::request::multipart::{Chunk, Form, Part};

fn body_of(chunks: Vec<Chunk<()>>) -> Vec<u8> {
    let mut out = Vec::new();
    for c in chunks {
        match c {
            Chunk::Bytes(b) => out.extend_from_slice(&b),
            Chunk::Stream(()) => panic!("no stream expected"),
        }
    }
    out
}

#[test]
fn boundary_format() {
    let b = Boundary::from_words(1, 0xabc, u64::MAX, 0);
    assert_eq!(
        b.value(),
        b"0000000000000001-0000000000000abc-ffffffffffffffff-0000000000000000"
    );
    assert_eq!(b.value().len(), BOUNDARY_LEN);
    let mut delimiter = b"--".to_vec();
    delimiter.extend_from_slice(b.value());
    delimiter.extend_from_slice(b"\r\n");
    assert_eq!(b.delimiter(), delimiter);
    let mut terminator = b"--".to_vec();
    terminator.extend_from_slice(b.value());
    terminator.extend_from_slice(b"--\r\n");
    assert_eq!(b.terminator(), terminator);
}

#[test]
fn generated_boundary_is_hex() {
    let b = Boundary::generate();
    let v = b.value();
    assert_eq!(v.len(), 67);
    for (i, c) in v.iter().enumerate() {
        if i == 16 || i == 33 || i == 50 {
            assert_eq!(*c, b'-');
        } else {
            assert!(c.is_ascii_digit() || (b'a'..=b'f').contains(c));
        }
    }
}

#[test]
fn xorshift_step() {
    let mut rng = Rng::new(1);
    let n = random(&mut rng);
    // One xorshift step of 1 gives 0x2000001, multiplied by the constant.
    assert_eq!(n, 0x2000001u64.wrapping_mul(0x2545_f491_4f6c_dd1d));
}

#[test]
fn percent_encodings() {
    assert_eq!(percent_encode_noop("a b"), Cow::Borrowed("a b"));
    assert_eq!(percent_encode_path_segment("plain"), Cow::Borrowed("plain"));
    assert_eq!(
        percent_encode_path_segment("a b/c%"),
        Cow::<str>::Owned("a%20b%2Fc%25".to_owned())
    );
    assert_eq!(
        percent_encode_path_segment("ü"),
        Cow::<str>::Owned("%C3%BC".to_owned())
    );
    assert_eq!(
        percent_encode_attr_char("a b!"),
        Cow::<str>::Owned("a%20b!".to_owned())
    );
    // A single byte stays borrowed, as the encoder hands it out in one piece.
    assert_eq!(percent_encode_path_segment(" "), Cow::Borrowed("%20"));
}

#[test]
fn empty_form_has_empty_body() {
    let form = Form::<()>::new();
    assert_eq!(form.compute_length(), Some(0));
    assert!(form.stream().is_empty());
}

#[test]
fn text_form_body() {
    let form = Form::<()>::new()
        .text("name".to_owned(), "value".to_owned())
        .part(
            "file".to_owned(),
            Part::bytes(b"abc".to_vec())
                .file_name("a\"b.txt".to_owned())
                .mime("text/plain".to_owned()),
        );
    let boundary = form.boundary().to_vec();
    let length = form.compute_length();
    let mut content_type = b"multipart/form-data; boundary=".to_vec();
    content_type.extend_from_slice(&boundary);
    assert_eq!(form.content_type(), content_type);

    let body = body_of(form.stream());
    let mut expected = Vec::new();
    expected.extend_from_slice(b"--");
    expected.extend_from_slice(&boundary);
    expected.extend_from_slice(b"\r\nContent-Disposition: form-data; name=\"name\"\r\n\r\nvalue\r\n");
    expected.extend_from_slice(b"--");
    expected.extend_from_slice(&boundary);
    expected.extend_from_slice(
        b"\r\nContent-Disposition: form-data; name=\"file\"; filename=\"a\\\"b.txt\"\r\nContent-type: text/plain\r\n\r\nabc\r\n",
    );
    expected.extend_from_slice(b"--");
    expected.extend_from_slice(&boundary);
    expected.extend_from_slice(b"--\r\n");
    assert_eq!(body, expected);
    assert_eq!(length, Some(expected.len() as u64));
}

#[test]
fn encoded_field_names() {
    let form = Form::<()>::new()
        .percent_encode_attr_char()
        .text("a b".to_owned(), "x".to_owned());
    let body = String::from_utf8(body_of(form.stream())).unwrap();
    assert!(body.contains("Content-Disposition: form-data; name*=utf8''a%20b\r\n\r\nx\r\n"));

    let form = Form::<()>::new()
        .percent_encode_attr_char()
        .percent_encode_path_seqment()
        .text("a b".to_owned(), "x".to_owned());
    let body = String::from_utf8(body_of(form.stream())).unwrap();
    assert!(body.contains("Content-Disposition: form-data; name*=utf8''a%20b\r\n\r\nx\r\n"));

    let form = Form::<()>::new()
        .percent_encode_noop()
        .text("a b".to_owned(), "x".to_owned());
    let body = String::from_utf8(body_of(form.stream())).unwrap();
    assert!(body.contains("Content-Disposition: form-data; name=\"a b\"\r\n\r\nx\r\n"));
}

#[test]
fn streamed_parts() {
    let form = Form::<u8>::new()
        .part("s".to_owned(), Part::stream(7u8, None))
        .part("t".to_owned(), Part::stream_with_length(9u8, None, 10));
    assert_eq!(form.compute_length(), None);
    let form = Form::<u8>::new().part("t".to_owned(), Part::stream_with_length(9u8, None, 10));
    let boundary_len = form.boundary().len() as u64;
    let header = b"Content-Disposition: form-data; name=\"t\"".len() as u64;
    assert_eq!(
        form.compute_length(),
        Some(2 + boundary_len + 2 + header + 4 + 10 + 2 + 2 + boundary_len + 4)
    );
    let chunks = form.stream();
    assert_eq!(chunks.len(), 5);
    assert!(matches!(chunks[2], Chunk::Stream(9)));
    let form = Form::<u8>::new().part("u".to_owned(), Part::stream(1u8, Some(5)));
    assert!(form.compute_length().is_some());
}

#[test]
fn file_part_names() {
    let form = Form::<u8>::new().part("f".to_owned(), Part::file(1u8, Some(3), Some("x.zip"), "fallback"));
    let chunks = form.stream();
    match &chunks[1] {
        Chunk::Bytes(h) => assert!(String::from_utf8(h.clone()).unwrap().contains("filename=\"x.zip\"")),
        Chunk::Stream(_) => panic!("headers expected"),
    }
    let form = Form::<u8>::new().part("f".to_owned(), Part::file(1u8, None, None, "fallback"));
    let chunks = form.stream();
    match &chunks[1] {
        Chunk::Bytes(h) => assert!(String::from_utf8(h.clone()).unwrap().contains("filename=\"fallback\"")),
        Chunk::Stream(_) => panic!("headers expected"),
    }
}

#[test]
fn streamed_length_matches_declared_stream() {
    let form = Form::<Vec<u8>>::new()
        .text("a".to_owned(), "hello".to_owned())
        .part("s".to_owned(), Part::stream_with_length(vec![b'x'; 10], None, 10))
        .part("b".to_owned(), Part::bytes(vec![1, 2, 3]));
    let length = form.compute_length().unwrap();
    let mut body = Vec::new();
    for c in form.stream() {
        match c {
            Chunk::Bytes(b) => body.extend_from_slice(&b),
            Chunk::Stream(s) => body.extend_from_slice(&s),
        }
    }
    assert_eq!(body.len() as u64, length);
}
