use bytes::Bytes;
use middleman::clone::clone_body;
use middleman::http_utils::{empty, full, start_of_body};

#[test]
fn start_of_body_finds_first_terminator() {
    let blob = b"HTTP/1.1 200 OK\r\na:b\r\n\r\nhi\r\n\r\nrest".to_vec();
    assert_eq!(start_of_body(&blob), 24);
    assert_eq!(&blob[24..], b"hi\r\n\r\nrest");
}

#[test]
fn start_of_body_without_terminator_is_zero() {
    assert_eq!(start_of_body(&b"HTTP/1.1 200 OK\r\n".to_vec()), 0);
    assert_eq!(start_of_body(&Vec::new()), 0);
    assert_eq!(start_of_body(&b"\r\n\r".to_vec()), 0);
}

#[test]
fn start_of_body_terminator_at_the_very_end() {
    assert_eq!(start_of_body(&b"\r\n\r\n".to_vec()), 4);
    assert_eq!(start_of_body(&b"x\r\n\r\n".to_vec()), 5);
}

#[test]
fn clone_body_drains_every_byte() {
    let body = clone_body(Bytes::from_static(b"hello, tape"));
    assert_eq!(body, b"hello, tape".to_vec());
    assert_eq!(clone_body(Bytes::new()), Vec::<u8>::new());
}

#[test]
fn clone_body_longer_than_first_reservation() {
    let data: Vec<u8> = (0..5000u32).map(|i| (i % 251) as u8).collect();
    assert_eq!(clone_body(Bytes::from(data.clone())), data);
}

#[test]
fn full_and_empty_hold_what_they_were_given() {
    assert_eq!(full(b"abc".to_vec()).as_ref(), b"abc");
    assert!(empty().is_empty());
}
