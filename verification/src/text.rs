//! ASCII text as bytes.

use vstd::prelude::*;

verus! {

/// The bytes of an ASCII text: one byte for each character.
pub open spec fn ascii(s: Seq<char>) -> Seq<u8> {
    Seq::new(s.len(), |i: int| s[i] as u8)
}

/// The bytes of the ASCII text `s`.
pub(crate) fn ascii_bytes(s: &str) -> (r: Vec<u8>)
    requires
        vstd::string::is_ascii(s),
    ensures
        r@ == ascii(s@),
{
    let r = s.as_bytes_vec();
    proof {
        vstd::utf8::is_ascii_chars_encode_utf8(s@);
        assert(r@ =~= ascii(s@));
    }
    r
}

/// Whether two byte strings are the same.
pub(crate) fn bytes_eq(a: &Vec<u8>, b: &Vec<u8>) -> (r: bool)
    ensures
        r == (a@ == b@),
{
    if a.len() != b.len() {
        return false;
    }
    let mut i: usize = 0;
    while i < a.len()
        invariant
            a.len() == b.len(),
            i <= a.len(),
            forall|j: int| 0 <= j < i ==> a@[j] == b@[j],
        decreases a.len() - i,
    {
        if a[i] != b[i] {
            return false;
        }
        i = i + 1;
    }
    assert(a@ =~= b@);
    true
}

/// Appends `bytes` to `out`.
pub(crate) fn append_bytes(out: &mut Vec<u8>, bytes: &Vec<u8>)
    ensures
        final(out)@ == old(out)@ + bytes@,
{
    out.extend_from_slice(bytes.as_slice());
    assert(out@ =~= old(out)@ + bytes@);
}

/// Whether the text `a` reads `b`.
pub(crate) fn text_is(a: &String, b: &str) -> (r: bool)
    ensures
        r == (a@ == b@),
{
    let t = String::from_str(b);
    *a == t
}

} // verus!
