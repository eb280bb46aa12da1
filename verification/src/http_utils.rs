//! Byte-level helpers shared by the tape codec and the dispatcher.

use crate::body::contents;
use bytes::Bytes;
use vstd::prelude::*;

verus! {

/// Carriage return.
pub const CR: u8 = 13;

/// Line feed.
pub const LF: u8 = 10;

/// The four bytes `\r\n\r\n` stand at index `i` of `s`.
pub open spec fn is_terminator_at(s: Seq<u8>, i: int) -> bool {
    &&& 0 <= i
    &&& i + 3 < s.len()
    &&& s[i] == CR
    &&& s[i + 1] == LF
    &&& s[i + 2] == CR
    &&& s[i + 3] == LF
}

/// Index `i` holds the first head terminator of `s`.
pub open spec fn is_first_terminator(s: Seq<u8>, i: int) -> bool {
    &&& is_terminator_at(s, i)
    &&& forall|j: int| 0 <= j < i ==> !is_terminator_at(s, j)
}

/// Some index of `s` holds a head terminator.
pub open spec fn has_terminator(s: Seq<u8>) -> bool {
    exists|i: int| is_terminator_at(s, i)
}

/// Where the body of a recorded blob begins: just behind the first
/// `\r\n\r\n`, or 0 when the blob holds none.
pub open spec fn body_start(s: Seq<u8>) -> int {
    if has_terminator(s) {
        (choose|i: int| is_first_terminator(s, i)) + 4
    } else {
        0
    }
}

/// The first terminator is unique, so it fixes `body_start`.
pub proof fn lemma_body_start_at(s: Seq<u8>, i: int)
    requires
        is_first_terminator(s, i),
    ensures
        body_start(s) == i + 4,
{
    assert(is_terminator_at(s, i));
    let k = choose|k: int| is_first_terminator(s, k);
    assert(is_first_terminator(s, k));
    if k < i {
        assert(!is_terminator_at(s, k));
    } else if i < k {
        assert(!is_terminator_at(s, i));
    }
}

/// A blob without terminator has its body at 0.
pub proof fn lemma_body_start_none(s: Seq<u8>)
    requires
        forall|j: int| 0 <= j ==> !is_terminator_at(s, j),
    ensures
        body_start(s) == 0,
{
}

/// Scans `payload` for the first `\r\n\r\n` and returns the index just
/// behind it; returns 0 when there is none.
pub fn start_of_body(payload: &Vec<u8>) -> (offset: usize)
    ensures
        offset == body_start(payload@),
        offset == 0 <==> !has_terminator(payload@),
        offset != 0 ==> is_first_terminator(payload@, offset - 4),
        offset <= payload@.len(),
{
    let n = payload.len();
    if n < 4 {
        proof {
            lemma_body_start_none(payload@);
        }
        return 0;
    }
    let mut i: usize = 0;
    while i <= n - 4
        invariant
            n == payload@.len(),
            n >= 4,
            i <= n - 3,
            forall|j: int| 0 <= j < i ==> !is_terminator_at(payload@, j),
        decreases n - i,
    {
        if payload[i] == CR && payload[i + 1] == LF && payload[i + 2] == CR && payload[i + 3] == LF {
            proof {
                assert(is_first_terminator(payload@, i as int));
                lemma_body_start_at(payload@, i as int);
            }
            return i + 4;
        }
        i = i + 1;
    }
    proof {
        lemma_body_start_none(payload@);
    }
    0
}

/// A body without bytes.
///
/// Trusted: `Bytes::new` makes a buffer that holds nothing.
#[verifier::external_body]
pub fn empty() -> (body: Bytes)
    ensures
        contents(body) == Seq::<u8>::empty(),
{
    Bytes::new()
}

/// A body that holds exactly the bytes of `chunk`.
///
/// Trusted: `Bytes::from` takes a vector over without changing a byte.
#[verifier::external_body]
pub fn full(chunk: Vec<u8>) -> (body: Bytes)
    ensures
        contents(body) == chunk@,
{
    Bytes::from(chunk)
}

} // verus!
