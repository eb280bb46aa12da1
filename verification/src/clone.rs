//! Duplication of once-readable messages into two independent copies.
//!
//! A message that arrives from the network can be read once. Whoever needs
//! it twice drains it into memory first and hands out two copies, each with
//! a buffer of its own over the same bytes.

use crate::body::{contents, get_u8, has_remaining};
use crate::http_utils::full;
use crate::message::{Request, RequestHead, RequestView, Response, ResponseHead, ResponseView};
use bytes::Bytes;
use vstd::prelude::*;

verus! {

/// `Vec::capacity`: how many bytes the vector can hold before it grows.
/// Nothing is claimed of the number: the allocator picks it.
#[verifier::external_body]
fn capacity(v: &Vec<u8>) -> usize {
    v.capacity()
}

/// Drains `y` to its end and returns every byte of it, in order.
pub fn clone_body(y: Bytes) -> (body: Vec<u8>)
    ensures
        body@ == contents(y),
{
    let mut y = y;
    let ghost all = contents(y);
    let mut body: Vec<u8> = Vec::with_capacity(1000);
    while has_remaining(&y)
        invariant
            body@ + contents(y) == all,
        decreases contents(y).len(),
    {
        if capacity(&body) == body.len() {
            body.reserve(100);
        }
        let b = get_u8(&mut y);
        let ghost before = body@;
        body.push(b);
        assert(body@ + contents(y) =~= before + (seq![b] + contents(y)));
    }
    assert(body@ =~= body@ + contents(y));
    body
}

/// Two copies of the request with head `head` whose body arrived as `body`.
/// Both hold the head and every byte of the body.
pub fn clone_incoming_request(head: RequestHead, body: Bytes) -> (pair: (Request, Request))
    ensures
        pair.0@ == (RequestView { head: head@, body: contents(body) }),
        pair.1@ == pair.0@,
{
    let body = clone_body(body);
    let first = Request { head: head.duplicate(), body: full(body.clone()) };
    let second = Request { head, body: full(body) };
    (first, second)
}

/// Two copies of a request that is already in memory.
pub fn clone_bytes_request(req: Request) -> (pair: (Request, Request))
    ensures
        pair.0@ == req@,
        pair.1@ == req@,
{
    let Request { head, body } = req;
    clone_incoming_request(head, body)
}

/// Two copies of the response with head `head` whose body arrived as
/// `body`. Both hold the head and every byte of the body.
pub fn clone_incoming_response(head: ResponseHead, body: Bytes) -> (pair: (Response, Response))
    ensures
        pair.0@ == (ResponseView { head: head@, body: contents(body) }),
        pair.1@ == pair.0@,
{
    let body = clone_body(body);
    let first = Response { head: head.duplicate(), body: full(body.clone()) };
    let second = Response { head, body: full(body) };
    (first, second)
}

/// Two copies of a response that is already in memory.
pub fn clone_bytes_response(resp: Response) -> (pair: (Response, Response))
    ensures
        pair.0@ == resp@,
        pair.1@ == resp@,
{
    let Response { head, body } = resp;
    clone_incoming_response(head, body)
}

} // verus!
