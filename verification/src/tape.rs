//! The tape codec: a response written out as a flat blob, and read back.
//!
//! A tape is a status line, one line for each header, an empty line, and
//! then the body as it is, to the end of the blob. Lines end in `\r\n`.

use crate::body::share;
use crate::clone::clone_body;
use crate::http_utils::{
    body_start, is_first_terminator, is_terminator_at, lemma_body_start_at, start_of_body, CR, LF,
};
use crate::message::{
    headers_view, is_name_byte, is_value_byte, valid_header, valid_headers, valid_status, Header,
    HeaderView, Response, ResponseHeadView, ResponseView, Version,
};
use crate::text::{append_bytes, ascii, ascii_bytes};
use http::StatusCode;
use vstd::prelude::*;

verus! {

/// The space between the fields of a status line.
pub const SP: u8 = 32;

/// The colon between a header's name and its value.
pub const COLON: u8 = 58;

/// How many headers a tape may hold and still be read back.
pub const MAX_HEADERS: usize = 64;

/// Why a tape could not be used.
#[derive(Clone, Copy, Debug, PartialEq, Eq, Structural)]
pub enum TapeError {
    /// No tape is stored under the key.
    NotFound,
    /// The blob does not start with a response head that can be read.
    MalformedTape,
    /// The store failed otherwise.
    IoError,
}

/// The label that a protocol version is written as.
pub open spec fn version_label(v: Version) -> Seq<char> {
    match v {
        Version::Http09 => "HTTP/0.9"@,
        Version::Http10 => "HTTP/1.0"@,
        Version::Http11 => "HTTP/1.1"@,
        Version::H2 => "HTTP/2.0"@,
        Version::H3 => "HTTP/3.0"@,
    }
}

/// The byte of the digit `0`; the other digits follow it in order.
pub const DIGIT_ZERO: u8 = 48;

/// The byte of the decimal digit `d`.
pub open spec fn digit(d: nat) -> u8 {
    (DIGIT_ZERO + d) as u8
}

/// The decimal numeral of `n`, without leading zeros.
pub open spec fn decimal(n: nat) -> Seq<u8>
    decreases n,
{
    if n < 10 {
        seq![digit(n)]
    } else {
        decimal(n / 10).push(digit(n % 10))
    }
}

/// The standard reason phrase that the `http` crate's table holds for a
/// status code (`StatusCode::canonical_reason`), as bytes; `None` where the
/// table has no entry.
pub uninterp spec fn canonical_reason_of(status: u16) -> Option<Seq<u8>>;

/// An optional byte string, seen as an optional sequence.
pub open spec fn bytes_view(b: Option<Vec<u8>>) -> Option<Seq<u8>> {
    match b {
        Some(v) => Some(v@),
        None => None,
    }
}

/// `StatusCode::canonical_reason` of the `http` crate, for a code in the
/// range that `StatusCode::from_u16` accepts.
///
/// Trusted: the result is the table's entry for the code, and every phrase
/// of the table is made of printable ASCII characters.
#[verifier::external_body]
fn canonical_reason(status: u16) -> (r: Option<Vec<u8>>)
    requires
        100 <= status <= 999,
    ensures
        bytes_view(r) == canonical_reason_of(status),
        r matches Some(text) ==> forall|i: int|
            0 <= i < text@.len() ==> 0x20 <= #[trigger] text@[i] <= 0x7e,
{
    let code = StatusCode::from_u16(status).ok()?;
    code.canonical_reason().map(|s| s.as_bytes().to_vec())
}

/// The reason phrase written behind a status: the standard phrase of the
/// code, or nothing where it has none.
pub open spec fn reason_phrase(status: u16) -> Seq<u8> {
    if valid_status(status) {
        match canonical_reason_of(status) {
            Some(text) => text,
            None => Seq::empty(),
        }
    } else {
        Seq::empty()
    }
}

/// The first line of a tape: version label, status, reason phrase.
pub open spec fn status_line(head: ResponseHeadView, reason: Seq<u8>) -> Seq<u8> {
    ascii(version_label(head.version)) + seq![SP] + decimal(head.status as nat) + seq![SP] + reason
        + seq![CR, LF]
}

/// One header as a line of a tape.
pub open spec fn header_line(h: HeaderView) -> Seq<u8> {
    h.name + seq![COLON] + h.value + seq![CR, LF]
}

/// The header lines of a tape, in the order of the headers.
pub open spec fn header_lines(hs: Seq<HeaderView>) -> Seq<u8>
    decreases hs.len(),
{
    if hs.len() == 0 {
        Seq::empty()
    } else {
        header_lines(hs.drop_last()) + header_line(hs.last())
    }
}

/// Everything of a tape before the body, the empty line included.
pub open spec fn encoded_head(head: ResponseHeadView, reason: Seq<u8>) -> Seq<u8> {
    status_line(head, reason) + header_lines(head.headers) + seq![CR, LF]
}

/// The tape of a response, with `reason` for its reason phrase.
pub open spec fn encoded_with(r: ResponseView, reason: Seq<u8>) -> Seq<u8> {
    encoded_head(r.head, reason) + r.body
}

/// The tape of a response: the one with the standard reason phrase of its
/// status.
pub open spec fn encoded(r: ResponseView) -> Seq<u8> {
    encoded_with(r, reason_phrase(r.head.status))
}

/// No byte of `s` is a line feed.
pub open spec fn no_line_feed(s: Seq<u8>) -> bool {
    forall|i: int| 0 <= i < s.len() ==> #[trigger] s[i] != LF
}

/// `s` ends in `\r\n`.
spec fn ends_line(s: Seq<u8>) -> bool {
    s.len() >= 2 && s[s.len() - 2] == CR && s[s.len() - 1] == LF
}

/// `s` holds no `\r\n\r\n`.
spec fn unterminated(s: Seq<u8>) -> bool {
    forall|j: int| !is_terminator_at(s, j)
}

/// A line with something on it, put behind whole lines, ends no head.
proof fn lemma_append_line(h: Seq<u8>, content: Seq<u8>)
    requires
        h.len() == 0 || ends_line(h),
        unterminated(h),
        content.len() > 0,
        no_line_feed(content),
    ensures
        ends_line(h + content + seq![CR, LF]),
        unterminated(h + content + seq![CR, LF]),
{
    let s = h + content + seq![CR, LF];
    assert(s.len() == h.len() + content.len() + 2);
    assert forall|j: int| !is_terminator_at(s, j) by {
        if is_terminator_at(s, j) {
            if j + 3 < h.len() {
                assert(s[j] == h[j] && s[j + 1] == h[j + 1] && s[j + 2] == h[j + 2] && s[j + 3]
                    == h[j + 3]);
                assert(is_terminator_at(h, j));
            } else if j + 3 < h.len() + content.len() {
                assert(s[j + 3] == content[j + 3 - h.len()]);
            } else if j + 3 == h.len() + content.len() {
                assert(s[j + 3] == CR);
            } else {
                assert(j + 3 == s.len() - 1);
                assert(s[j + 1] == content[j + 1 - h.len()]);
            }
        }
    }
}

/// A decimal numeral is made of digits, and of one at least.
proof fn lemma_decimal_digits(n: nat)
    ensures
        decimal(n).len() > 0,
        forall|i: int|
            0 <= i < decimal(n).len() ==> DIGIT_ZERO <= #[trigger] decimal(n)[i] <= DIGIT_ZERO + 9,
    decreases n,
{
    if n >= 10 {
        lemma_decimal_digits(n / 10);
    }
}

/// The status line is one whole line.
proof fn lemma_status_line(head: ResponseHeadView, reason: Seq<u8>)
    requires
        no_line_feed(reason),
    ensures
        ends_line(status_line(head, reason)),
        unterminated(status_line(head, reason)),
{
    reveal_strlit("HTTP/0.9");
    reveal_strlit("HTTP/1.0");
    reveal_strlit("HTTP/1.1");
    reveal_strlit("HTTP/2.0");
    reveal_strlit("HTTP/3.0");
    lemma_decimal_digits(head.status as nat);
    let label = ascii(version_label(head.version));
    assert(label.len() == 8);
    assert(no_line_feed(label));
    let content = label + seq![SP] + decimal(head.status as nat) + seq![SP] + reason;
    assert(no_line_feed(content));
    lemma_append_line(Seq::empty(), content);
    assert(status_line(head, reason) =~= Seq::<u8>::empty() + content + seq![CR, LF]);
}

/// The status line and the header lines behind it are whole lines, none of
/// them empty.
proof fn lemma_header_lines(head: ResponseHeadView, reason: Seq<u8>, hs: Seq<HeaderView>)
    requires
        valid_headers(hs),
        no_line_feed(reason),
    ensures
        ends_line(status_line(head, reason) + header_lines(hs)),
        unterminated(status_line(head, reason) + header_lines(hs)),
    decreases hs.len(),
{
    if hs.len() == 0 {
        lemma_status_line(head, reason);
        assert(status_line(head, reason) + header_lines(hs) =~= status_line(head, reason));
    } else {
        let front = hs.drop_last();
        assert forall|i: int| 0 <= i < front.len() implies valid_header(#[trigger] front[i]) by {
            assert(front[i] == hs[i]);
        }
        lemma_header_lines(head, reason, front);
        let h = hs.last();
        assert(valid_header(h));
        let content = h.name + seq![COLON] + h.value;
        assert(no_line_feed(content)) by {
            assert forall|i: int| 0 <= i < content.len() implies #[trigger] content[i] != LF by {
                if i < h.name.len() {
                    assert(is_name_byte(h.name[i]));
                } else if i > h.name.len() {
                    assert(is_value_byte(h.value[i - h.name.len() - 1]));
                }
            }
        }
        let before = status_line(head, reason) + header_lines(front);
        lemma_append_line(before, content);
        assert(status_line(head, reason) + header_lines(hs) =~= before + content + seq![CR, LF]);
    }
}

/// The body of a tape starts where its head ends. In the tape of a response
/// with valid headers, written with a reason phrase that holds no line
/// feed, the first `\r\n\r\n` is the end of the head: the scan for the body
/// finds every byte of the body and nothing else.
pub proof fn lemma_encoded_body_offset(r: ResponseView, reason: Seq<u8>)
    requires
        valid_headers(r.head.headers),
        no_line_feed(reason),
    ensures
        is_first_terminator(encoded_with(r, reason), encoded_head(r.head, reason).len() - 4),
        body_start(encoded_with(r, reason)) == encoded_head(r.head, reason).len(),
        encoded_with(r, reason).skip(body_start(encoded_with(r, reason))) == r.body,
{
    let lines = status_line(r.head, reason) + header_lines(r.head.headers);
    lemma_header_lines(r.head, reason, r.head.headers);
    let s = encoded_with(r, reason);
    assert(s =~= lines + seq![CR, LF] + r.body);
    let p = lines.len() - 2;
    assert(encoded_head(r.head, reason).len() == lines.len() + 2);
    assert(is_terminator_at(s, p));
    assert forall|j: int| 0 <= j < p implies !is_terminator_at(s, j) by {
        if is_terminator_at(s, j) {
            if j + 3 < lines.len() {
                assert(s[j] == lines[j] && s[j + 1] == lines[j + 1] && s[j + 2] == lines[j + 2]
                    && s[j + 3] == lines[j + 3]);
                assert(is_terminator_at(lines, j));
            } else {
                assert(s[j + 3] == CR);
            }
        }
    }
    lemma_body_start_at(s, p);
    assert(s.skip(p + 4) =~= r.body);
}

/// The label of `v` as bytes.
fn version_label_bytes(v: Version) -> (r: Vec<u8>)
    ensures
        r@ == ascii(version_label(v)),
{
    proof {
        reveal_strlit("HTTP/0.9");
        reveal_strlit("HTTP/1.0");
        reveal_strlit("HTTP/1.1");
        reveal_strlit("HTTP/2.0");
        reveal_strlit("HTTP/3.0");
    }
    match v {
        Version::Http09 => ascii_bytes("HTTP/0.9"),
        Version::Http10 => ascii_bytes("HTTP/1.0"),
        Version::Http11 => ascii_bytes("HTTP/1.1"),
        Version::H2 => ascii_bytes("HTTP/2.0"),
        Version::H3 => ascii_bytes("HTTP/3.0"),
    }
}

/// Appends the decimal numeral of `n` to `out`.
fn push_decimal(out: &mut Vec<u8>, n: u16)
    ensures
        final(out)@ == old(out)@ + decimal(n as nat),
    decreases n,
{
    if n >= 10 {
        push_decimal(out, n / 10);
    }
    let d: u8 = (n % 10) as u8;
    out.push(DIGIT_ZERO + d);
    assert(out@ =~= old(out)@ + decimal(n as nat));
}

/// The reason phrase of `status`, as [`encode`] writes it.
pub fn reason_of(status: u16) -> (reason: Vec<u8>)
    ensures
        reason@ == reason_phrase(status),
        no_line_feed(reason@),
{
    if 100 <= status && status <= 999 {
        match canonical_reason(status) {
            Some(text) => text,
            None => Vec::new(),
        }
    } else {
        Vec::new()
    }
}

/// Writes a response out as a tape with `reason` for its reason phrase:
/// the status line, each header as `name:value`, an empty line, then the
/// body unchanged.
///
/// Where the headers are valid and the reason holds no line feed, the body
/// of the tape is found again by the scan for the first `\r\n\r\n`.
pub fn encode_with(resp: &Response, reason: &Vec<u8>) -> (out: Vec<u8>)
    ensures
        out@ == encoded_with(resp@, reason@),
        valid_headers(resp@.head.headers) && no_line_feed(reason@) ==> {
            &&& body_start(out@) + resp@.body.len() == out@.len()
            &&& out@.skip(body_start(out@)) == resp@.body
        },
{
    let mut out: Vec<u8> = version_label_bytes(resp.head.version);
    out.push(SP);
    push_decimal(&mut out, resp.head.status);
    out.push(SP);
    append_bytes(&mut out, reason);
    out.push(CR);
    out.push(LF);
    assert(out@ =~= status_line(resp.head@, reason@));
    let ghost hs = headers_view(resp.head.headers@);
    let mut i: usize = 0;
    assert(hs.take(0) =~= Seq::<HeaderView>::empty());
    while i < resp.head.headers.len()
        invariant
            i <= resp.head.headers.len(),
            hs == headers_view(resp.head.headers@),
            out@ == status_line(resp.head@, reason@) + header_lines(hs.take(i as int)),
        decreases resp.head.headers.len() - i,
    {
        let ghost before = out@;
        let h = &resp.head.headers[i];
        append_bytes(&mut out, &h.name);
        out.push(COLON);
        append_bytes(&mut out, &h.value);
        out.push(CR);
        out.push(LF);
        proof {
            let next = hs.take(i as int + 1);
            assert(next.drop_last() =~= hs.take(i as int));
            assert(next.last() == h@);
            assert(out@ =~= before + header_line(h@));
        }
        i = i + 1;
    }
    assert(hs.take(i as int) =~= hs);
    out.push(CR);
    out.push(LF);
    assert(out@ =~= encoded_head(resp.head@, reason@));
    let body = clone_body(share(&resp.body));
    append_bytes(&mut out, &body);
    proof {
        if valid_headers(resp@.head.headers) && no_line_feed(reason@) {
            lemma_encoded_body_offset(resp@, reason@);
        }
    }
    out
}

/// Writes a response out as a tape: the status line with the standard
/// reason phrase of the status, each header as `name:value`, an empty line,
/// then the body unchanged.
///
/// Where the headers are valid, the body of the tape is found again by the
/// scan for the first `\r\n\r\n`.
pub fn encode(resp: &Response) -> (out: Vec<u8>)
    ensures
        out@ == encoded(resp@),
        valid_headers(resp@.head.headers) ==> {
            &&& body_start(out@) + resp@.body.len() == out@.len()
            &&& out@.skip(body_start(out@)) == resp@.body
        },
{
    let reason = reason_of(resp.head.status);
    encode_with(resp, &reason)
}

/// What the head parser found in a blob that starts with a complete
/// response head.
#[derive(Debug)]
pub struct ParsedHead {
    /// The status code of the status line.
    pub code: Option<u16>,
    /// The header lines, in order, names and values as the parser cut them.
    pub headers: Vec<Header>,
}

/// What a [`ParsedHead`] holds.
pub struct ParsedHeadView {
    pub code: Option<u16>,
    pub headers: Seq<HeaderView>,
}

impl View for ParsedHead {
    type V = ParsedHeadView;

    open spec fn view(&self) -> ParsedHeadView {
        ParsedHeadView { code: self.code, headers: headers_view(self.headers@) }
    }
}

/// An optional parsed head, seen through its view.
pub open spec fn parsed_view(p: Option<ParsedHead>) -> Option<ParsedHeadView> {
    match p {
        Some(head) => Some(head@),
        None => None,
    }
}

/// What `httparse::Response::parse` makes of `data` when it is given room
/// for `capacity` headers: the status code and headers of a complete head,
/// or `None` where the parser reports an error or an incomplete head.
pub uninterp spec fn parsed_head_of(data: Seq<u8>, capacity: usize) -> Option<ParsedHeadView>;

/// Runs `httparse::Response::parse` over `data` with room for `capacity`
/// headers.
///
/// Trusted: the parser's outcome depends on the bytes and the capacity
/// alone. Nothing else is claimed of it here.
#[verifier::external_body]
fn parse_head(data: &Vec<u8>, capacity: usize) -> (r: Option<ParsedHead>)
    ensures
        parsed_view(r) == parsed_head_of(data@, capacity),
{
    let mut slots = vec![httparse::EMPTY_HEADER; capacity];
    let mut head = httparse::Response::new(&mut slots);
    match head.parse(data) {
        Ok(httparse::Status::Complete(_)) => Some(ParsedHead {
            code: head.code,
            headers: head.headers.iter().map(|h| Header {
                name: h.name.as_bytes().to_vec(),
                value: h.value.to_vec(),
            }).collect(),
        }),
        Ok(httparse::Status::Partial) => None,
        Err(_) => None,
    }
}

/// A tape taken apart: the status, the headers, and where the body starts.
#[derive(Debug)]
pub struct Decoded {
    pub status: u16,
    pub headers: Vec<Header>,
    pub body_offset: usize,
}

/// What a [`Decoded`] holds.
pub struct DecodedView {
    pub status: u16,
    pub headers: Seq<HeaderView>,
    pub body_offset: int,
}

impl View for Decoded {
    type V = DecodedView;

    open spec fn view(&self) -> DecodedView {
        DecodedView {
            status: self.status,
            headers: headers_view(self.headers@),
            body_offset: self.body_offset as int,
        }
    }
}

/// The outcome of decoding, seen through its view.
pub open spec fn decoded_view(r: Result<Decoded, TapeError>) -> Result<DecodedView, TapeError> {
    match r {
        Ok(d) => Ok(d@),
        Err(e) => Err(e),
    }
}

/// What decoding yields for a blob `data`, given what the head parser made
/// of it: the parser's status and headers, and the body offset found by
/// scanning `data` for the first `\r\n\r\n`. A blob whose head the parser
/// did not read to its end, or whose status line gave no code, is
/// malformed.
pub open spec fn decoded(parsed: Option<ParsedHeadView>, data: Seq<u8>) -> Result<
    DecodedView,
    TapeError,
> {
    match parsed {
        Some(head) => match head.code {
            Some(code) => Ok(
                DecodedView { status: code, headers: head.headers, body_offset: body_start(data) },
            ),
            None => Err(TapeError::MalformedTape),
        },
        None => Err(TapeError::MalformedTape),
    }
}

/// Puts together what the head parser found in `data` and the body offset
/// of `data`. The offset comes from a scan of the bytes, not from the
/// parser.
pub fn decode_parsed(parsed: Option<ParsedHead>, data: &Vec<u8>) -> (r: Result<Decoded, TapeError>)
    ensures
        decoded_view(r) == decoded(parsed_view(parsed), data@),
{
    match parsed {
        Some(head) => match head.code {
            Some(code) => Ok(
                Decoded { status: code, headers: head.headers, body_offset: start_of_body(data) },
            ),
            None => Err(TapeError::MalformedTape),
        },
        None => Err(TapeError::MalformedTape),
    }
}

/// Takes a tape apart into status, headers and body offset. Fails with
/// `MalformedTape` where the head parser cannot read the head.
pub fn decode(data: &Vec<u8>) -> (r: Result<Decoded, TapeError>)
    ensures
        decoded_view(r) == decoded(parsed_head_of(data@, MAX_HEADERS), data@),
{
    decode_parsed(parse_head(data, MAX_HEADERS), data)
}

} // verus!
