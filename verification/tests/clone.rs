use bytes::Bytes;
use middleman::clone::{
    clone_body, clone_bytes_request, clone_bytes_response, clone_incoming_request,
    clone_incoming_response,
};
use middleman::message::{Header, Request, RequestHead, Response, ResponseHead, Uri, Version};

fn header(name: &str, value: &str) -> Header {
    Header { name: name.as_bytes().to_vec(), value: value.as_bytes().to_vec() }
}

fn post_head() -> RequestHead {
    RequestHead {
        method: "POST".to_string(),
        uri: Uri {
            scheme: None,
            authority: None,
            path: "/orders".to_string(),
            query: Some("id=7".to_string()),
        },
        version: Version::Http11,
        headers: vec![header("content-type", "application/json"), header("accept", "*/*")],
    }
}

fn ok_head() -> ResponseHead {
    ResponseHead {
        version: Version::Http10,
        status: 201,
        headers: vec![header("location", "/orders/7")],
    }
}

fn assert_request_is(req: &Request, body: &[u8]) {
    assert_eq!(req.head.method, "POST");
    assert_eq!(req.head.uri.path, "/orders");
    assert_eq!(req.head.uri.query.as_deref(), Some("id=7"));
    assert_eq!(req.head.uri.scheme, None);
    assert_eq!(req.head.uri.authority, None);
    assert_eq!(req.head.version, Version::Http11);
    assert_eq!(req.head.headers.len(), 2);
    assert_eq!(req.head.headers[0].name, b"content-type".to_vec());
    assert_eq!(req.head.headers[0].value, b"application/json".to_vec());
    assert_eq!(req.head.headers[1].name, b"accept".to_vec());
    assert_eq!(req.head.headers[1].value, b"*/*".to_vec());
    assert_eq!(req.body.as_ref(), body);
}

fn assert_response_is(resp: &Response, body: &[u8]) {
    assert_eq!(resp.head.version, Version::Http10);
    assert_eq!(resp.head.status, 201);
    assert_eq!(resp.head.headers.len(), 1);
    assert_eq!(resp.head.headers[0].name, b"location".to_vec());
    assert_eq!(resp.head.headers[0].value, b"/orders/7".to_vec());
    assert_eq!(resp.body.as_ref(), body);
}

#[test]
fn incoming_request_is_duplicated_byte_for_byte() {
    let body = b"{\"id\":7,\"note\":\"\r\n\r\n\"}";
    let (a, b) = clone_incoming_request(post_head(), Bytes::from_static(body));
    assert_request_is(&a, body);
    assert_request_is(&b, body);
}

#[test]
fn buffered_request_is_duplicated_byte_for_byte() {
    let req = Request { head: post_head(), body: Bytes::from_static(b"abc") };
    let (a, b) = clone_bytes_request(req);
    assert_request_is(&a, b"abc");
    assert_request_is(&b, b"abc");
}

#[test]
fn incoming_response_is_duplicated_byte_for_byte() {
    let body: Vec<u8> = (0..=255u8).collect();
    let (a, b) = clone_incoming_response(ok_head(), Bytes::from(body.clone()));
    assert_response_is(&a, &body);
    assert_response_is(&b, &body);
}

#[test]
fn buffered_response_is_duplicated_byte_for_byte() {
    let resp = Response { head: ok_head(), body: Bytes::from_static(b"created") };
    let (a, b) = clone_bytes_response(resp);
    assert_response_is(&a, b"created");
    assert_response_is(&b, b"created");
}

#[test]
fn empty_body_is_duplicated_as_empty() {
    let (a, b) = clone_incoming_request(post_head(), Bytes::new());
    assert_request_is(&a, b"");
    assert_request_is(&b, b"");
}

#[test]
fn reading_one_copy_leaves_the_other_whole() {
    let (a, b) = clone_incoming_response(ok_head(), Bytes::from_static(b"once and again"));
    let drained = clone_body(a.body);
    assert_eq!(drained, b"once and again".to_vec());
    assert_eq!(b.body.as_ref(), b"once and again");
    let again = clone_body(b.body.clone());
    assert_eq!(again, b"once and again".to_vec());
    assert_eq!(b.body.as_ref(), b"once and again");
}

#[test]
fn copies_share_nothing_with_each_other() {
    let (mut a, b) = clone_incoming_request(post_head(), Bytes::from_static(b"x"));
    a.head.method.push_str("-changed");
    a.head.headers[0].value.clear();
    a.head.uri.path.clear();
    assert_request_is(&b, b"x");
}

#[test]
fn duplicate_copies_every_part() {
    let req = Request { head: post_head(), body: Bytes::from_static(b"abc") };
    assert_request_is(&req.duplicate(), b"abc");
    assert_request_is(&req, b"abc");
    let resp = Response { head: ok_head(), body: Bytes::from_static(b"def") };
    assert_response_is(&resp.duplicate(), b"def");
    assert_response_is(&resp, b"def");
}
