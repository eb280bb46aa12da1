//! Tapes on disk: where a recording lives, what is written to it, and what
//! is served from it.

use crate::config::{Config, ConfigView, IpAddress};
use crate::http_utils::{empty, full};
use crate::message::{
    find_header, first_value, headers_view, is_name_byte, lowered, lowered_name, normalize_name,
    text_view, valid_header, valid_headers, valid_name, valid_status, valid_value, value_ok,
    Header, HeaderView, Request, RequestHead, RequestHeadView, RequestView, Response,
    ResponseHead, ResponseHeadView, ResponseView, Version,
};
use crate::tape::{
    decode, decode_parsed, decoded, encode, encoded, encoded_with, lemma_encoded_body_offset,
    no_line_feed, parsed_head_of, parsed_view, Decoded, DecodedView, ParsedHead, ParsedHeadView,
    TapeError, MAX_HEADERS,
};
use crate::text::{ascii, ascii_bytes};
use vstd::prelude::*;

verus! {

/// The status sent when a recording is asked for and none exists.
pub const NOT_IMPLEMENTED: u16 = 501;

/// The name of the header that a missing recording echoes: `accept`.
pub open spec fn accept_name() -> Seq<u8> {
    ascii("accept"@)
}

/// Whether a recording is stored at `recording_name`: whether a regular
/// file is there.
///
/// Trusted: `Path::is_file` asks the filesystem and does not panic. The
/// answer depends on what is on disk when it is asked, so nothing is
/// claimed of it.
#[verifier::external_body]
pub fn recording_exists(recording_name: &str) -> bool {
    std::path::Path::new(recording_name).is_file()
}

/// The key of a request's tape: the tape root, the path of the request
/// target and the method, each below the one before. Neither the query nor
/// the body takes part.
pub open spec fn recording_path(folder: Seq<char>, req: RequestHeadView) -> Seq<char> {
    folder + seq!['/'] + req.uri.path + seq!['/'] + req.method
}

/// The directory that holds the tapes of a request's path.
pub open spec fn recording_dir(folder: Seq<char>, req: RequestHeadView) -> Seq<char> {
    folder + seq!['/'] + req.uri.path
}

/// Where the tape of `req` lives below `folder`.
pub fn recording_name(folder: &str, req: &RequestHead) -> (name: String)
    ensures
        name@ == recording_path(folder@, req@),
{
    proof {
        reveal_strlit("/");
    }
    let mut name = String::from_str(folder);
    name.append("/");
    name.append(req.uri.path.as_str());
    name.append("/");
    name.append(req.method.as_str());
    assert(name@ =~= recording_path(folder@, req@));
    name
}

/// No character of `s` is a slash.
pub open spec fn no_slash(s: Seq<char>) -> bool {
    forall|i: int| 0 <= i < s.len() ==> #[trigger] s[i] != '/'
}

/// Two requests with the same path and method share one tape, whatever
/// their queries, bodies, headers or other parts are.
pub proof fn lemma_key_depends_on_path_and_method(
    folder: Seq<char>,
    a: RequestView,
    b: RequestView,
)
    requires
        a.head.uri.path == b.head.uri.path,
        a.head.method == b.head.method,
    ensures
        recording_path(folder, a.head) == recording_path(folder, b.head),
{
}

/// Below one root, requests with different paths or different methods have
/// different tapes, as long as no method holds a slash: a key names one
/// path and one method.
pub proof fn lemma_key_is_one_to_one(folder: Seq<char>, a: RequestHeadView, b: RequestHeadView)
    requires
        no_slash(a.method),
        no_slash(b.method),
        recording_path(folder, a) == recording_path(folder, b),
    ensures
        a.uri.path == b.uri.path,
        a.method == b.method,
{
    let s = recording_path(folder, a);
    let da = recording_dir(folder, a);
    let db = recording_dir(folder, b);
    assert(s == da + seq!['/'] + a.method);
    assert(s == db + seq!['/'] + b.method);
    assert(s.len() == da.len() + 1 + a.method.len());
    assert(s.len() == db.len() + 1 + b.method.len());
    if a.method.len() < b.method.len() {
        assert(s[da.len() as int] == '/');
        assert(s[da.len() as int] == b.method[da.len() - db.len() - 1]);
    } else if b.method.len() < a.method.len() {
        assert(s[db.len() as int] == '/');
        assert(s[db.len() as int] == a.method[db.len() - da.len() - 1]);
    }
    assert(da.len() == db.len());
    assert(a.method =~= s.skip(da.len() as int + 1));
    assert(b.method =~= s.skip(db.len() as int + 1));
    assert(da =~= s.take(da.len() as int));
    assert(db =~= s.take(db.len() as int));
    let prefix = folder + seq!['/'];
    assert(da == prefix + a.uri.path);
    assert(db == prefix + b.uri.path);
    assert(a.uri.path =~= da.skip(prefix.len() as int));
    assert(b.uri.path =~= db.skip(prefix.len() as int));
}

/// The answer to a request whose recording is missing: status 501, the
/// request's first `accept` header where it has one, and no body.
pub open spec fn missing(req: RequestHeadView) -> ResponseView {
    ResponseView {
        head: ResponseHeadView {
            version: Version::Http11,
            status: NOT_IMPLEMENTED,
            headers: match first_value(req.headers, accept_name()) {
                Some(v) => seq![HeaderView { name: accept_name(), value: v }],
                None => Seq::empty(),
            },
        },
        body: Seq::empty(),
    }
}

/// Builds the answer to a request whose recording is missing.
pub fn not_implemented(req: &RequestHead) -> (resp: Response)
    ensures
        resp@ == missing(req@),
{
    proof {
        reveal_strlit("accept");
    }
    let name = ascii_bytes("accept");
    let mut headers: Vec<Header> = Vec::new();
    match find_header(&req.headers, &name) {
        Some(v) => {
            headers.push(Header { name, value: v.clone() });
            assert(headers_view(headers@) =~= seq![HeaderView { name: accept_name(), value: v@ }]);
        },
        None => {
            assert(headers_view(headers@) =~= Seq::<HeaderView>::empty());
        },
    }
    Response {
        head: ResponseHead { version: Version::Http11, status: NOT_IMPLEMENTED, headers },
        body: empty(),
    }
}

/// The headers of a tape can all be carried by a response: each name is a
/// valid name once lowered, and each value is a valid value.
pub open spec fn acceptable(hs: Seq<HeaderView>) -> bool {
    forall|i: int|
        0 <= i < hs.len() ==> valid_name(lowered_name((#[trigger] hs[i]).name)) && valid_value(
            hs[i].value,
        )
}

/// The headers of a tape as a response carries them: names in lower case,
/// values and order unchanged.
pub open spec fn normalized(hs: Seq<HeaderView>) -> Seq<HeaderView> {
    Seq::new(hs.len(), |i: int| HeaderView { name: lowered_name(hs[i].name), value: hs[i].value })
}

/// The response that a decoded tape stands for: the tape's status and
/// headers, and as body every byte of `data` from the body offset on. A
/// tape whose status or headers no response can carry is malformed.
pub open spec fn assembled(d: DecodedView, data: Seq<u8>) -> Result<ResponseView, TapeError> {
    if valid_status(d.status) && acceptable(d.headers) && 0 <= d.body_offset <= data.len() {
        Ok(
            ResponseView {
                head: ResponseHeadView {
                    version: Version::Http11,
                    status: d.status,
                    headers: normalized(d.headers),
                },
                body: data.skip(d.body_offset),
            },
        )
    } else {
        Err(TapeError::MalformedTape)
    }
}

/// The headers of a tape that a response can carry are valid once they are
/// normalized.
pub proof fn lemma_normalized_is_valid(hs: Seq<HeaderView>)
    requires
        acceptable(hs),
    ensures
        valid_headers(normalized(hs)),
{
    assert forall|i: int| 0 <= i < hs.len() implies valid_header(#[trigger] normalized(hs)[i]) by {
        assert(valid_name(lowered_name(hs[i].name)));
    }
}

/// The outcome of a replay, seen through its view.
pub open spec fn response_view(r: Result<Response, TapeError>) -> Result<ResponseView, TapeError> {
    match r {
        Ok(resp) => Ok(resp@),
        Err(e) => Err(e),
    }
}

/// The headers in lower case, where a response can carry them all.
fn normalize_headers(hs: &Vec<Header>) -> (r: Option<Vec<Header>>)
    ensures
        match r {
            Some(out) => acceptable(headers_view(hs@)) && headers_view(out@) == normalized(
                headers_view(hs@),
            ),
            None => !acceptable(headers_view(hs@)),
        },
{
    let ghost all = headers_view(hs@);
    let mut out: Vec<Header> = Vec::with_capacity(hs.len());
    let mut i: usize = 0;
    while i < hs.len()
        invariant
            i <= hs.len(),
            all == headers_view(hs@),
            out@.len() == i,
            forall|j: int|
                0 <= j < i ==> valid_name(lowered_name((#[trigger] all[j]).name)) && valid_value(
                    all[j].value,
                ),
            forall|j: int|
                0 <= j < i ==> (#[trigger] out@[j])@ == (HeaderView {
                    name: lowered_name(all[j].name),
                    value: all[j].value,
                }),
        decreases hs.len() - i,
    {
        let h = &hs[i];
        assert(all[i as int] == h@);
        let name = match normalize_name(&h.name) {
            Some(name) => name,
            None => {
                proof {
                    let bad = headers_view(hs@)[i as int];
                    assert(!valid_name(lowered_name(bad.name)));
                    assert(!acceptable(headers_view(hs@)));
                }
                return None;
            },
        };
        if !value_ok(&h.value) {
            proof {
                let bad = headers_view(hs@)[i as int];
                assert(!valid_value(bad.value));
                assert(!acceptable(headers_view(hs@)));
            }
            return None;
        }
        out.push(Header { name, value: h.value.clone() });
        i = i + 1;
    }
    assert(headers_view(out@) =~= normalized(all));
    Some(out)
}

/// Builds the response that a decoded tape stands for; `data` is the whole
/// tape.
pub fn assemble(d: Decoded, data: &Vec<u8>) -> (r: Result<Response, TapeError>)
    ensures
        response_view(r) == assembled(d@, data@),
        r matches Ok(resp) ==> resp@.head.valid(),
{
    if d.status < 100 || d.status > 999 || d.body_offset > data.len() {
        return Err(TapeError::MalformedTape);
    }
    let headers = match normalize_headers(&d.headers) {
        Some(headers) => headers,
        None => {
            return Err(TapeError::MalformedTape);
        },
    };
    proof {
        lemma_normalized_is_valid(d@.headers);
    }
    let tail = vstd::slice::slice_subrange(data.as_slice(), d.body_offset, data.len());
    let body = vstd::slice::slice_to_vec(tail);
    assert(body@ =~= data@.skip(d.body_offset as int));
    Ok(
        Response {
            head: ResponseHead { version: Version::Http11, status: d.status, headers },
            body: full(body),
        },
    )
}

/// The response that a tape stands for, given what the head parser made of
/// the tape: the parser's status and headers, and the body that the scan of
/// the tape finds.
pub open spec fn replayed_with(parsed: Option<ParsedHeadView>, data: Seq<u8>) -> Result<
    ResponseView,
    TapeError,
> {
    match decoded(parsed, data) {
        Ok(d) => assembled(d, data),
        Err(e) => Err(e),
    }
}

/// What a replay answers. Without a tape: the 501 answer of [`missing`].
/// With one: the response that the tape stands for.
pub open spec fn replayed(req: RequestHeadView, tape: Option<Seq<u8>>) -> Result<
    ResponseView,
    TapeError,
> {
    match tape {
        None => Ok(missing(req)),
        Some(data) => replayed_with(parsed_head_of(data, MAX_HEADERS), data),
    }
}

/// Headers that are valid are in lower case already, and a response can
/// carry them as they are.
pub proof fn lemma_valid_headers_are_normal(hs: Seq<HeaderView>)
    requires
        valid_headers(hs),
    ensures
        acceptable(hs),
        normalized(hs) == hs,
{
    assert forall|i: int| 0 <= i < hs.len() implies lowered_name((#[trigger] hs[i]).name)
        == hs[i].name by {
        let name = hs[i].name;
        assert(valid_header(hs[i]));
        assert forall|k: int| 0 <= k < name.len() implies lowered(name[k]) == name[k] by {
            assert(is_name_byte(name[k]));
        }
        assert(lowered_name(name) =~= name);
    }
    assert forall|i: int| 0 <= i < hs.len() implies valid_name(
        lowered_name((#[trigger] hs[i]).name),
    ) && valid_value(hs[i].value) by {
        assert(valid_header(hs[i]));
    }
    assert(normalized(hs) =~= hs);
}

/// Round trip, as far as this crate decides it. Take the tape of a valid
/// response, written with a reason phrase without line feed. Where the head
/// parser reads from it the status and the headers that were written, the
/// tape stands for the response itself: its status, its headers in order
/// and its body, byte for byte, framed as HTTP/1.1.
pub proof fn lemma_replay_of_encoded(r: ResponseView, reason: Seq<u8>)
    requires
        r.head.valid(),
        no_line_feed(reason),
    ensures
        replayed_with(
            Some(ParsedHeadView { code: Some(r.head.status), headers: r.head.headers }),
            encoded_with(r, reason),
        ) == Ok::<ResponseView, TapeError>(
            ResponseView {
                head: ResponseHeadView {
                    version: Version::Http11,
                    status: r.head.status,
                    headers: r.head.headers,
                },
                body: r.body,
            },
        ),
{
    lemma_encoded_body_offset(r, reason);
    lemma_valid_headers_are_normal(r.head.headers);
}

/// A tape's bytes, where there is a tape.
pub open spec fn tape_view(tape: Option<&Vec<u8>>) -> Option<Seq<u8>> {
    match tape {
        Some(data) => Some(data@),
        None => None,
    }
}

/// Builds the response that a tape stands for, from the whole tape `data`
/// and what the head parser made of it.
pub fn replay_parsed(parsed: Option<ParsedHead>, data: &Vec<u8>) -> (r: Result<Response, TapeError>)
    ensures
        response_view(r) == replayed_with(parsed_view(parsed), data@),
        r matches Ok(resp) ==> resp@.head.valid(),
{
    match decode_parsed(parsed, data) {
        Ok(d) => assemble(d, data),
        Err(e) => Err(e),
    }
}

/// Answers `req` from its recording: `tape` is what the store holds under
/// the request's key, `None` where it holds nothing.
pub fn replay(req: &RequestHead, tape: Option<&Vec<u8>>) -> (r: Result<Response, TapeError>)
    ensures
        response_view(r) == replayed(req@, tape_view(tape)),
{
    match tape {
        None => Ok(not_implemented(req)),
        Some(data) => match decode(data) {
            Ok(d) => assemble(d, data),
            Err(e) => Err(e),
        },
    }
}

/// What is to be written to the store for one recording.
#[derive(Debug)]
pub struct TapeWrite {
    /// The directory to make first, parents included.
    pub dir: String,
    /// The file to create or overwrite.
    pub path: String,
    /// The bytes of the file.
    pub contents: Vec<u8>,
}

/// What a [`TapeWrite`] holds.
pub struct TapeWriteView {
    pub dir: Seq<char>,
    pub path: Seq<char>,
    pub contents: Seq<u8>,
}

impl View for TapeWrite {
    type V = TapeWriteView;

    open spec fn view(&self) -> TapeWriteView {
        TapeWriteView { dir: self.dir@, path: self.path@, contents: self.contents@ }
    }
}

/// The write that records `resp` as the answer to `req`.
pub open spec fn recorded(config: ConfigView, req: RequestHeadView, resp: ResponseView) -> TapeWriteView {
    TapeWriteView {
        dir: recording_dir(config.tapes, req),
        path: recording_path(config.tapes, req),
        contents: encoded(resp),
    }
}

/// Prepares the recording of `resp` under the key of `req`: the directory
/// of the request's path, the tape file in it, and the response as a tape.
pub fn record(config: &Config, req: &Request, resp: &Response) -> (write: TapeWrite)
    ensures
        write@ == recorded(config@, req@.head, resp@),
        write@.path == write@.dir + seq!['/'] + req@.head.method,
{
    proof {
        reveal_strlit("/");
    }
    let mut dir = config.tapes.clone();
    dir.append("/");
    dir.append(req.head.uri.path.as_str());
    assert(dir@ =~= recording_dir(config@.tapes, req@.head));
    let path = recording_name(config.tapes.as_str(), &req.head);
    TapeWrite { dir, path, contents: encode(resp) }
}

/// One request to be sent upstream, and how to reach the upstream.
#[derive(Debug)]
pub struct UpstreamCall {
    /// The address to open a TCP connection to.
    pub ip: IpAddress,
    pub port: u16,
    /// The name to negotiate TLS for; `None` for a plain connection.
    pub server_name: Option<String>,
    /// The request to send once connected.
    pub request: Request,
}

/// What an [`UpstreamCall`] holds.
pub struct UpstreamCallView {
    pub ip: IpAddress,
    pub port: u16,
    pub server_name: Option<Seq<char>>,
    pub request: RequestView,
}

impl View for UpstreamCall {
    type V = UpstreamCallView;

    open spec fn view(&self) -> UpstreamCallView {
        UpstreamCallView {
            ip: self.ip,
            port: self.port,
            server_name: text_view(self.server_name),
            request: self.request@,
        }
    }
}

/// The call that sends `req` upstream as the settings say: to the resolved
/// address and port, over TLS for the upstream's host name where the
/// settings ask for TLS.
pub open spec fn upstream_call(config: ConfigView, req: RequestView) -> UpstreamCallView {
    UpstreamCallView {
        ip: config.upstream_ip,
        port: config.upstream_port,
        server_name: if config.upstream_tls {
            Some(config.upstream)
        } else {
            None
        },
        request: req,
    }
}

/// The call that sends `req` upstream over a plain connection.
pub fn make_request_insecure(config: &Config, req: Request) -> (call: UpstreamCall)
    ensures
        call@ == (UpstreamCallView {
            ip: config@.upstream_ip,
            port: config@.upstream_port,
            server_name: None,
            request: req@,
        }),
{
    UpstreamCall {
        ip: config.upstream_ip,
        port: config.upstream_port,
        server_name: None,
        request: req,
    }
}

/// The call that sends `req` upstream over TLS, negotiated for the
/// upstream's host name.
pub fn make_request_secure(config: &Config, req: Request) -> (call: UpstreamCall)
    ensures
        call@ == (UpstreamCallView {
            ip: config@.upstream_ip,
            port: config@.upstream_port,
            server_name: Some(config@.upstream),
            request: req@,
        }),
{
    UpstreamCall {
        ip: config.upstream_ip,
        port: config.upstream_port,
        server_name: Some(config.upstream.clone()),
        request: req,
    }
}

/// The call that sends `req` upstream: over TLS where the settings say so,
/// plain otherwise.
pub fn make_request(config: &Config, req: Request) -> (call: UpstreamCall)
    ensures
        call@ == upstream_call(config@, req@),
{
    if config.upstream_tls {
        make_request_secure(config, req)
    } else {
        make_request_insecure(config, req)
    }
}

} // verus!
