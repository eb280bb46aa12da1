//! HTTP messages as plain values: a head, and a body held in one buffer.

use crate::body::{contents, share};
use crate::text::bytes_eq;
use bytes::Bytes;
use vstd::prelude::*;

verus! {

/// One header line: a name and a value, both as raw bytes.
///
/// Names are kept in lower case, as they arrive from the connection driver.
#[derive(Debug)]
pub struct Header {
    pub name: Vec<u8>,
    pub value: Vec<u8>,
}

/// What a [`Header`] holds.
pub struct HeaderView {
    pub name: Seq<u8>,
    pub value: Seq<u8>,
}

impl View for Header {
    type V = HeaderView;

    open spec fn view(&self) -> HeaderView {
        HeaderView { name: self.name@, value: self.value@ }
    }
}

/// The headers of a message, in order.
pub open spec fn headers_view(hs: Seq<Header>) -> Seq<HeaderView> {
    Seq::new(hs.len(), |i: int| hs[i]@)
}

/// An optional text, seen as an optional sequence of characters.
pub open spec fn text_view(t: Option<String>) -> Option<Seq<char>> {
    match t {
        Some(s) => Some(s@),
        None => None,
    }
}

/// A copy of an optional text.
pub fn copy_text(t: &Option<String>) -> (r: Option<String>)
    ensures
        text_view(r) == text_view(*t),
{
    match t {
        Some(s) => Some(s.clone()),
        None => None,
    }
}

impl Header {
    /// A copy of this header.
    pub fn duplicate(&self) -> (r: Header)
        ensures
            r@ == self@,
    {
        let name = self.name.clone();
        let value = self.value.clone();
        assert(name@ =~= self.name@ && value@ =~= self.value@);
        Header { name, value }
    }
}

/// A copy of a list of headers, in the same order.
pub fn copy_headers(hs: &Vec<Header>) -> (r: Vec<Header>)
    ensures
        headers_view(r@) == headers_view(hs@),
{
    let mut r: Vec<Header> = Vec::with_capacity(hs.len());
    let mut i: usize = 0;
    while i < hs.len()
        invariant
            i <= hs.len(),
            r@.len() == i,
            forall|j: int| 0 <= j < i ==> r@[j]@ == hs@[j]@,
        decreases hs.len() - i,
    {
        r.push(hs[i].duplicate());
        i = i + 1;
    }
    assert(headers_view(r@) =~= headers_view(hs@));
    r
}

/// A byte that may stand in a header name: a lower-case letter, a digit, or
/// one of the marks that a token admits.
pub open spec fn is_name_byte(b: u8) -> bool {
    ||| 'a' as u8 <= b <= 'z' as u8
    ||| '0' as u8 <= b <= '9' as u8
    ||| b == '!' as u8
    ||| b == '#' as u8
    ||| b == '$' as u8
    ||| b == '%' as u8
    ||| b == '&' as u8
    ||| b == '\'' as u8
    ||| b == '*' as u8
    ||| b == '+' as u8
    ||| b == '-' as u8
    ||| b == '.' as u8
    ||| b == '^' as u8
    ||| b == '_' as u8
    ||| b == '`' as u8
    ||| b == '|' as u8
    ||| b == '~' as u8
}

/// The longest header name that a message can carry.
pub const MAX_NAME_LEN: usize = 65535;

/// A header name that a message can carry: a non-empty token in lower case,
/// no longer than [`MAX_NAME_LEN`].
pub open spec fn valid_name(name: Seq<u8>) -> bool {
    &&& 0 < name.len() <= MAX_NAME_LEN
    &&& forall|i: int| 0 <= i < name.len() ==> is_name_byte(#[trigger] name[i])
}

/// A byte that may stand in a header value: a tab, or anything from the
/// space upwards but the delete character.
pub open spec fn is_value_byte(b: u8) -> bool {
    (b >= 32 && b != 127) || b == 9
}

/// A header value that a message can carry.
pub open spec fn valid_value(value: Seq<u8>) -> bool {
    forall|i: int| 0 <= i < value.len() ==> is_value_byte(#[trigger] value[i])
}

/// A header that a message can carry.
pub open spec fn valid_header(h: HeaderView) -> bool {
    valid_name(h.name) && valid_value(h.value)
}

/// A list of headers that a message can carry.
pub open spec fn valid_headers(hs: Seq<HeaderView>) -> bool {
    forall|i: int| 0 <= i < hs.len() ==> valid_header(#[trigger] hs[i])
}

/// A status code that a response can carry.
pub open spec fn valid_status(status: u16) -> bool {
    100 <= status <= 999
}

/// A byte of a header name in lower case: capital letters are lowered,
/// every other byte stays.
pub open spec fn lowered(b: u8) -> u8 {
    if 'A' as u8 <= b <= 'Z' as u8 {
        (b + 32) as u8
    } else {
        b
    }
}

/// A header name in lower case.
pub open spec fn lowered_name(name: Seq<u8>) -> Seq<u8> {
    Seq::new(name.len(), |i: int| lowered(name[i]))
}

/// Whether `b` may stand in a header name.
pub fn name_byte_ok(b: u8) -> (r: bool)
    ensures
        r == is_name_byte(b),
{
    (b >= 'a' as u8 && b <= 'z' as u8) || (b >= '0' as u8 && b <= '9' as u8) || b == '!' as u8
        || b == '#' as u8 || b == '$' as u8 || b == '%' as u8 || b == '&' as u8 || b == '\'' as u8
        || b == '*' as u8 || b == '+' as u8 || b == '-' as u8 || b == '.' as u8 || b == '^' as u8
        || b == '_' as u8 || b == '`' as u8 || b == '|' as u8 || b == '~' as u8
}

/// The name in lower case, where that is a name a message can carry.
pub fn normalize_name(name: &Vec<u8>) -> (r: Option<Vec<u8>>)
    ensures
        match r {
            Some(n) => valid_name(lowered_name(name@)) && n@ == lowered_name(name@),
            None => !valid_name(lowered_name(name@)),
        },
{
    if name.len() == 0 || name.len() > MAX_NAME_LEN {
        return None;
    }
    let mut out: Vec<u8> = Vec::with_capacity(name.len());
    let mut i: usize = 0;
    while i < name.len()
        invariant
            i <= name.len(),
            out@.len() == i,
            forall|j: int| 0 <= j < i ==> out@[j] == lowered(name@[j]) && is_name_byte(out@[j]),
        decreases name.len() - i,
    {
        let b = name[i];
        let low: u8 = if b >= 'A' as u8 && b <= 'Z' as u8 {
            b + 32
        } else {
            b
        };
        if !name_byte_ok(low) {
            assert(!is_name_byte(lowered_name(name@)[i as int]));
            return None;
        }
        out.push(low);
        i = i + 1;
    }
    assert(out@ =~= lowered_name(name@));
    Some(out)
}

/// Whether `value` is a header value that a message can carry.
pub fn value_ok(value: &Vec<u8>) -> (r: bool)
    ensures
        r == valid_value(value@),
{
    let mut i: usize = 0;
    while i < value.len()
        invariant
            i <= value.len(),
            forall|j: int| 0 <= j < i ==> is_value_byte(#[trigger] value@[j]),
        decreases value.len() - i,
    {
        let b = value[i];
        if !((b >= 32 && b != 127) || b == 9) {
            return false;
        }
        i = i + 1;
    }
    true
}

/// Whether `name` is a header name that a message can carry.
pub fn name_ok(name: &Vec<u8>) -> (r: bool)
    ensures
        r == valid_name(name@),
{
    if name.len() == 0 || name.len() > MAX_NAME_LEN {
        return false;
    }
    let mut i: usize = 0;
    while i < name.len()
        invariant
            i <= name.len(),
            forall|j: int| 0 <= j < i ==> is_name_byte(#[trigger] name@[j]),
        decreases name.len() - i,
    {
        if !name_byte_ok(name[i]) {
            return false;
        }
        i = i + 1;
    }
    true
}

/// Whether a message can carry each header of `hs`.
pub fn headers_ok(hs: &Vec<Header>) -> (r: bool)
    ensures
        r == valid_headers(headers_view(hs@)),
{
    let ghost all = headers_view(hs@);
    let mut i: usize = 0;
    while i < hs.len()
        invariant
            i <= hs.len(),
            all == headers_view(hs@),
            forall|j: int| 0 <= j < i ==> valid_header(#[trigger] all[j]),
        decreases hs.len() - i,
    {
        assert(all[i as int] == hs@[i as int]@);
        if !name_ok(&hs[i].name) || !value_ok(&hs[i].value) {
            assert(!valid_header(all[i as int]));
            return false;
        }
        i = i + 1;
    }
    true
}

/// The value of the first header of `hs` that is named `name`.
pub open spec fn first_value(hs: Seq<HeaderView>, name: Seq<u8>) -> Option<Seq<u8>>
    decreases hs.len(),
{
    if hs.len() == 0 {
        None
    } else if hs[0].name == name {
        Some(hs[0].value)
    } else {
        first_value(hs.skip(1), name)
    }
}

/// The first header named `name` decides: where header `i` carries the name
/// and none before it does, its value is the one looked up.
pub proof fn lemma_first_value_at(hs: Seq<HeaderView>, name: Seq<u8>, i: int)
    requires
        0 <= i < hs.len(),
        hs[i].name == name,
        forall|j: int| 0 <= j < i ==> (#[trigger] hs[j]).name != name,
    ensures
        first_value(hs, name) == Some(hs[i].value),
    decreases i,
{
    if i > 0 {
        assert(hs[0].name != name);
        let rest = hs.skip(1);
        assert forall|j: int| 0 <= j < i - 1 implies (#[trigger] rest[j]).name != name by {
            assert(rest[j] == hs[j + 1]);
        }
        lemma_first_value_at(rest, name, i - 1);
    }
}

/// Where no header carries the name, nothing is looked up.
pub proof fn lemma_first_value_none(hs: Seq<HeaderView>, name: Seq<u8>)
    requires
        forall|j: int| 0 <= j < hs.len() ==> (#[trigger] hs[j]).name != name,
    ensures
        first_value(hs, name) is None,
    decreases hs.len(),
{
    if hs.len() > 0 {
        assert(hs[0].name != name);
        let rest = hs.skip(1);
        assert forall|j: int| 0 <= j < rest.len() implies (#[trigger] rest[j]).name != name by {
            assert(rest[j] == hs[j + 1]);
        }
        lemma_first_value_none(rest, name);
    }
}

/// Looks up the first header of `hs` that is named `name`.
pub fn find_header<'a>(hs: &'a Vec<Header>, name: &Vec<u8>) -> (r: Option<&'a Vec<u8>>)
    ensures
        match r {
            Some(v) => first_value(headers_view(hs@), name@) == Some(v@),
            None => first_value(headers_view(hs@), name@) is None,
        },
{
    let ghost all = headers_view(hs@);
    let mut i: usize = 0;
    assert(all.skip(0) =~= all);
    while i < hs.len()
        invariant
            i <= hs.len(),
            all == headers_view(hs@),
            first_value(all, name@) == first_value(all.skip(i as int), name@),
        decreases hs.len() - i,
    {
        let ghost rest = all.skip(i as int);
        assert(rest[0] == hs@[i as int]@);
        if bytes_eq(&hs[i].name, name) {
            return Some(&hs[i].value);
        }
        assert(rest.skip(1) =~= all.skip(i as int + 1));
        i = i + 1;
    }
    None
}

/// The protocol version that a message was framed in.
#[derive(Clone, Copy, Debug, PartialEq, Eq, Structural)]
pub enum Version {
    Http09,
    Http10,
    Http11,
    H2,
    H3,
}

/// A request target, taken apart.
///
/// `path` never holds the query: the part behind the first `?` of the
/// target is `query`.
#[derive(Debug)]
pub struct Uri {
    pub scheme: Option<String>,
    pub authority: Option<String>,
    pub path: String,
    pub query: Option<String>,
}

/// What a [`Uri`] holds.
pub struct UriView {
    pub scheme: Option<Seq<char>>,
    pub authority: Option<Seq<char>>,
    pub path: Seq<char>,
    pub query: Option<Seq<char>>,
}

impl View for Uri {
    type V = UriView;

    open spec fn view(&self) -> UriView {
        UriView {
            scheme: text_view(self.scheme),
            authority: text_view(self.authority),
            path: self.path@,
            query: text_view(self.query),
        }
    }
}

/// The path and the query of a target as one text: the path, and behind a
/// `?` the query where there is one.
pub open spec fn target_of(uri: UriView) -> Seq<char> {
    match uri.query {
        Some(q) => uri.path + seq!['?'] + q,
        None => uri.path,
    }
}

impl Uri {
    /// The path and the query as they stand in a request line.
    pub fn path_and_query(&self) -> (r: String)
        ensures
            r@ == target_of(self@),
    {
        proof {
            reveal_strlit("?");
        }
        let mut r = self.path.clone();
        match &self.query {
            Some(q) => {
                r.append("?");
                r.append(q.as_str());
                assert(r@ =~= target_of(self@));
            },
            None => {},
        }
        r
    }

    /// A copy of this target.
    pub fn duplicate(&self) -> (r: Uri)
        ensures
            r@ == self@,
    {
        Uri {
            scheme: copy_text(&self.scheme),
            authority: copy_text(&self.authority),
            path: self.path.clone(),
            query: copy_text(&self.query),
        }
    }
}

/// The head of a request: everything but the body.
#[derive(Debug)]
pub struct RequestHead {
    pub method: String,
    pub uri: Uri,
    pub version: Version,
    pub headers: Vec<Header>,
}

/// What a [`RequestHead`] holds.
pub struct RequestHeadView {
    pub method: Seq<char>,
    pub uri: UriView,
    pub version: Version,
    pub headers: Seq<HeaderView>,
}

impl View for RequestHead {
    type V = RequestHeadView;

    open spec fn view(&self) -> RequestHeadView {
        RequestHeadView {
            method: self.method@,
            uri: self.uri@,
            version: self.version,
            headers: headers_view(self.headers@),
        }
    }
}

impl RequestHead {
    /// A copy of this head.
    pub fn duplicate(&self) -> (r: RequestHead)
        ensures
            r@ == self@,
    {
        RequestHead {
            method: self.method.clone(),
            uri: self.uri.duplicate(),
            version: self.version,
            headers: copy_headers(&self.headers),
        }
    }
}

/// A request whose body has been read into memory.
#[derive(Debug)]
pub struct Request {
    pub head: RequestHead,
    pub body: Bytes,
}

/// What a [`Request`] holds.
pub struct RequestView {
    pub head: RequestHeadView,
    pub body: Seq<u8>,
}

impl View for Request {
    type V = RequestView;

    open spec fn view(&self) -> RequestView {
        RequestView { head: self.head@, body: contents(self.body) }
    }
}

impl Request {
    /// A copy of this request, body included.
    pub fn duplicate(&self) -> (r: Request)
        ensures
            r@ == self@,
    {
        Request { head: self.head.duplicate(), body: share(&self.body) }
    }
}

/// The head of a response: everything but the body.
#[derive(Debug)]
pub struct ResponseHead {
    pub version: Version,
    pub status: u16,
    pub headers: Vec<Header>,
}

/// What a [`ResponseHead`] holds.
pub struct ResponseHeadView {
    pub version: Version,
    pub status: u16,
    pub headers: Seq<HeaderView>,
}

impl ResponseHeadView {
    /// A head that a response can carry: a status in range, and headers
    /// with valid names and values.
    pub open spec fn valid(self) -> bool {
        valid_status(self.status) && valid_headers(self.headers)
    }
}

impl View for ResponseHead {
    type V = ResponseHeadView;

    open spec fn view(&self) -> ResponseHeadView {
        ResponseHeadView {
            version: self.version,
            status: self.status,
            headers: headers_view(self.headers@),
        }
    }
}

impl ResponseHead {
    /// Whether a response can carry this head.
    pub fn is_valid(&self) -> (r: bool)
        ensures
            r == self@.valid(),
    {
        100 <= self.status && self.status <= 999 && headers_ok(&self.headers)
    }

    /// A copy of this head.
    pub fn duplicate(&self) -> (r: ResponseHead)
        ensures
            r@ == self@,
    {
        ResponseHead {
            version: self.version,
            status: self.status,
            headers: copy_headers(&self.headers),
        }
    }
}

/// A response whose body has been read into memory.
#[derive(Debug)]
pub struct Response {
    pub head: ResponseHead,
    pub body: Bytes,
}

/// What a [`Response`] holds.
pub struct ResponseView {
    pub head: ResponseHeadView,
    pub body: Seq<u8>,
}

impl View for Response {
    type V = ResponseView;

    open spec fn view(&self) -> ResponseView {
        ResponseView { head: self.head@, body: contents(self.body) }
    }
}

impl Response {
    /// A copy of this response, body included.
    pub fn duplicate(&self) -> (r: Response)
        ensures
            r@ == self@,
    {
        Response { head: self.head.duplicate(), body: share(&self.body) }
    }
}

} // verus!
