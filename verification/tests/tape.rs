use bytes::Bytes;
use middleman::http_utils::start_of_body;
use middleman::message::{Header, Response, ResponseHead, Version};
use middleman::tape::{decode, decode_parsed, encode, ParsedHead, TapeError};

fn header(name: &str, value: &str) -> Header {
    Header { name: name.as_bytes().to_vec(), value: value.as_bytes().to_vec() }
}

fn response(version: Version, status: u16, headers: Vec<Header>, body: &'static [u8]) -> Response {
    Response { head: ResponseHead { version, status, headers }, body: Bytes::from_static(body) }
}

fn pairs(headers: &[Header]) -> Vec<(String, String)> {
    headers
        .iter()
        .map(|h| {
            (
                String::from_utf8(h.name.clone()).unwrap(),
                String::from_utf8(h.value.clone()).unwrap(),
            )
        })
        .collect()
}

#[test]
fn encode_writes_status_line_headers_blank_line_and_body() {
    let resp = response(
        Version::Http11,
        200,
        vec![header("content-type", "text/plain"), header("x-a", "1")],
        b"hi",
    );
    assert_eq!(
        encode(&resp),
        b"HTTP/1.1 200 OK\r\ncontent-type:text/plain\r\nx-a:1\r\n\r\nhi".to_vec()
    );
}

#[test]
fn encode_without_headers_or_body() {
    let resp = response(Version::Http11, 404, vec![], b"");
    assert_eq!(encode(&resp), b"HTTP/1.1 404 Not Found\r\n\r\n".to_vec());
}

#[test]
fn encode_status_without_standard_reason_has_empty_phrase() {
    let resp = response(Version::Http11, 299, vec![], b"x");
    assert_eq!(encode(&resp), b"HTTP/1.1 299 \r\n\r\nx".to_vec());
}

#[test]
fn encode_uses_the_label_of_each_version() {
    assert_eq!(encode(&response(Version::Http09, 200, vec![], b"")), b"HTTP/0.9 200 OK\r\n\r\n");
    assert_eq!(encode(&response(Version::Http10, 200, vec![], b"")), b"HTTP/1.0 200 OK\r\n\r\n");
    assert_eq!(encode(&response(Version::Http11, 200, vec![], b"")), b"HTTP/1.1 200 OK\r\n\r\n");
    assert_eq!(encode(&response(Version::H2, 200, vec![], b"")), b"HTTP/2.0 200 OK\r\n\r\n");
    assert_eq!(encode(&response(Version::H3, 200, vec![], b"")), b"HTTP/3.0 200 OK\r\n\r\n");
}

#[test]
fn encode_writes_the_status_as_a_decimal_numeral() {
    assert_eq!(encode(&response(Version::Http11, 100, vec![], b"")), b"HTTP/1.1 100 Continue\r\n\r\n");
    assert_eq!(encode(&response(Version::Http11, 999, vec![], b"")), b"HTTP/1.1 999 \r\n\r\n");
    assert_eq!(encode(&response(Version::Http11, 7, vec![], b"")), b"HTTP/1.1 7 \r\n\r\n");
    assert_eq!(encode(&response(Version::Http11, 65535, vec![], b"")), b"HTTP/1.1 65535 \r\n\r\n");
    assert_eq!(encode(&response(Version::Http11, 0, vec![], b"")), b"HTTP/1.1 0 \r\n\r\n");
}

#[test]
fn encode_keeps_header_order_and_duplicates() {
    let resp = response(
        Version::Http11,
        200,
        vec![header("set-cookie", "a=1"), header("vary", "accept"), header("set-cookie", "b=2")],
        b"",
    );
    assert_eq!(
        encode(&resp),
        b"HTTP/1.1 200 OK\r\nset-cookie:a=1\r\nvary:accept\r\nset-cookie:b=2\r\n\r\n".to_vec()
    );
}

#[test]
fn encode_keeps_binary_bodies_as_they_are() {
    let resp = response(Version::Http11, 200, vec![], b"\x00\xff\r\n\r\n\x01");
    assert_eq!(encode(&resp), b"HTTP/1.1 200 OK\r\n\r\n\x00\xff\r\n\r\n\x01".to_vec());
}

#[test]
fn decode_reads_status_headers_and_body_offset() {
    let blob = b"HTTP/1.1 200 OK\r\ncontent-type:text/plain\r\nx-a:1\r\n\r\nhi".to_vec();
    let d = decode(&blob).unwrap();
    assert_eq!(d.status, 200);
    assert_eq!(
        pairs(&d.headers),
        vec![
            ("content-type".to_string(), "text/plain".to_string()),
            ("x-a".to_string(), "1".to_string())
        ]
    );
    assert_eq!(d.body_offset, 51);
    assert_eq!(&blob[d.body_offset..], b"hi");
}

#[test]
fn decode_after_encode_gives_the_response_back() {
    let resp = response(
        Version::Http11,
        503,
        vec![header("retry-after", "120"), header("content-length", "11")],
        b"come\r\n\r\nback",
    );
    let blob = encode(&resp);
    let d = decode(&blob).unwrap();
    assert_eq!(d.status, 503);
    assert_eq!(
        pairs(&d.headers),
        vec![
            ("retry-after".to_string(), "120".to_string()),
            ("content-length".to_string(), "11".to_string())
        ]
    );
    assert_eq!(&blob[d.body_offset..], b"come\r\n\r\nback");
    assert_eq!(d.body_offset, blob.len() - 12);
}

#[test]
fn decode_after_encode_with_empty_reason_and_empty_value() {
    let resp = response(Version::Http10, 299, vec![header("x-empty", "")], b"");
    let blob = encode(&resp);
    assert_eq!(blob, b"HTTP/1.0 299 \r\nx-empty:\r\n\r\n".to_vec());
    let d = decode(&blob).unwrap();
    assert_eq!(d.status, 299);
    assert_eq!(pairs(&d.headers), vec![("x-empty".to_string(), "".to_string())]);
    assert_eq!(d.body_offset, blob.len());
}

#[test]
fn decode_body_offset_is_the_scan_not_the_parser() {
    let blob = b"HTTP/1.1 200 OK\na:b\n\nbody\r\n\r\ntail".to_vec();
    let d = decode(&blob).unwrap();
    assert_eq!(d.status, 200);
    assert_eq!(pairs(&d.headers), vec![("a".to_string(), "b".to_string())]);
    assert_eq!(d.body_offset, start_of_body(&blob));
    assert_eq!(&blob[d.body_offset..], b"tail");
}

#[test]
fn decode_without_terminator_has_offset_zero() {
    let blob = b"HTTP/1.1 204 No Content\n\n".to_vec();
    let d = decode(&blob).unwrap();
    assert_eq!(d.status, 204);
    assert!(d.headers.is_empty());
    assert_eq!(d.body_offset, 0);
}

#[test]
fn decode_trims_spaces_around_header_values() {
    let blob = b"HTTP/1.1 200 OK\r\nserver:  nginx \r\n\r\n".to_vec();
    let d = decode(&blob).unwrap();
    assert_eq!(pairs(&d.headers), vec![("server".to_string(), "nginx".to_string())]);
}

#[test]
fn decode_rejects_what_is_no_response_head() {
    assert_eq!(decode(&b"not a tape".to_vec()).unwrap_err(), TapeError::MalformedTape);
    assert_eq!(decode(&Vec::new()).unwrap_err(), TapeError::MalformedTape);
    assert_eq!(decode(&b"HTTP/1.1 20x OK\r\n\r\n".to_vec()).unwrap_err(), TapeError::MalformedTape);
    assert_eq!(decode(&b"HTTP/2.0 200 OK\r\n\r\n".to_vec()).unwrap_err(), TapeError::MalformedTape);
    assert_eq!(
        decode(&b"HTTP/1.1 200 OK\r\nbad name:1\r\n\r\n".to_vec()).unwrap_err(),
        TapeError::MalformedTape
    );
}

#[test]
fn decode_rejects_a_head_that_does_not_end() {
    assert_eq!(decode(&b"HTTP/1.1 200 OK\r\n".to_vec()).unwrap_err(), TapeError::MalformedTape);
    assert_eq!(decode(&b"HTTP/1.1 200 OK\r\na:b\r\n".to_vec()).unwrap_err(), TapeError::MalformedTape);
    assert_eq!(decode(&b"HTTP/1.1 2".to_vec()).unwrap_err(), TapeError::MalformedTape);
}

#[test]
fn decode_reads_up_to_sixty_four_headers() {
    let mut blob = b"HTTP/1.1 200 OK\r\n".to_vec();
    for i in 0..64 {
        blob.extend_from_slice(format!("h{}:{}\r\n", i, i).as_bytes());
    }
    let mut longer = blob.clone();
    blob.extend_from_slice(b"\r\nbody");
    let d = decode(&blob).unwrap();
    assert_eq!(d.headers.len(), 64);
    assert_eq!(d.headers[63].name, b"h63".to_vec());
    assert_eq!(d.headers[63].value, b"63".to_vec());
    assert_eq!(&blob[d.body_offset..], b"body");
    longer.extend_from_slice(b"h64:64\r\n\r\nbody");
    assert_eq!(decode(&longer).unwrap_err(), TapeError::MalformedTape);
}

#[test]
fn decode_parsed_takes_code_and_headers_from_the_parser() {
    let blob = b"anything\r\n\r\nbody".to_vec();
    let parsed = ParsedHead { code: Some(418), headers: vec![header("a", "b")] };
    let d = decode_parsed(Some(parsed), &blob).unwrap();
    assert_eq!(d.status, 418);
    assert_eq!(pairs(&d.headers), vec![("a".to_string(), "b".to_string())]);
    assert_eq!(d.body_offset, 12);
}

#[test]
fn decode_parsed_without_code_or_head_is_malformed() {
    let blob = b"x\r\n\r\n".to_vec();
    let parsed = ParsedHead { code: None, headers: vec![] };
    assert_eq!(decode_parsed(Some(parsed), &blob).unwrap_err(), TapeError::MalformedTape);
    assert_eq!(decode_parsed(None, &blob).unwrap_err(), TapeError::MalformedTape);
}

#[test]
fn body_of_an_encoded_response_starts_behind_its_head() {
    let resp = response(
        Version::Http11,
        200,
        vec![header("a", "\t spaced \t"), header("b", "")],
        b"\r\n\r\n\r\n\r\n",
    );
    let blob = encode(&resp);
    let offset = start_of_body(&blob);
    assert_eq!(offset + 8, blob.len());
    assert_eq!(&blob[offset..], b"\r\n\r\n\r\n\r\n");
}

#[test]
fn header_values_outside_ascii_are_written_and_read_as_raw_bytes() {
    let resp = Response {
        head: ResponseHead {
            version: Version::Http11,
            status: 200,
            headers: vec![Header { name: b"x-name".to_vec(), value: b"caf\xe9 \xff".to_vec() }],
        },
        body: Bytes::from_static(b"b"),
    };
    let blob = encode(&resp);
    assert_eq!(blob, b"HTTP/1.1 200 OK\r\nx-name:caf\xe9 \xff\r\n\r\nb".to_vec());
    let d = decode(&blob).unwrap();
    assert_eq!(d.headers.len(), 1);
    assert_eq!(d.headers[0].name, b"x-name".to_vec());
    assert_eq!(d.headers[0].value, b"caf\xe9 \xff".to_vec());
    assert_eq!(&blob[d.body_offset..], b"b");
}

#[test]
fn a_header_value_with_a_line_break_moves_the_body_offset() {
    let resp = Response {
        head: ResponseHead {
            version: Version::Http11,
            status: 200,
            headers: vec![
                Header { name: b"a".to_vec(), value: b"1\r\n".to_vec() },
                Header { name: b"b".to_vec(), value: b"2".to_vec() },
            ],
        },
        body: Bytes::from_static(b"body"),
    };
    assert!(!resp.head.is_valid());
    let blob = encode(&resp);
    assert_eq!(blob, b"HTTP/1.1 200 OK\r\na:1\r\n\r\nb:2\r\n\r\nbody".to_vec());
    assert_eq!(&blob[start_of_body(&blob)..], b"b:2\r\n\r\nbody");
}
