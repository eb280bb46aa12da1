//! The dispatcher: what to do with one request, step by step.
//!
//! The dispatcher neither reads nor writes. Each step takes what has just
//! happened (an [`Event`]) and says what is to be done next (an
//! [`Action`]); the program around it does the work and reports back.

use crate::body::contents;
use crate::clone::{clone_incoming_request, clone_incoming_response};
use crate::config::{Config, ConfigView};
use crate::http_utils::{empty, full};
use crate::message::{
    copy_text, find_header, first_value, Request, RequestHead, RequestHeadView, RequestView,
    Response, ResponseHead, ResponseHeadView, ResponseView, Uri, Version,
};
use crate::proxy::{
    make_request, missing, record, recorded, recording_exists, recording_name, recording_path,
    replay, replayed, upstream_call, TapeWrite, TapeWriteView, UpstreamCall, UpstreamCallView,
};
use crate::tape::TapeError;
use crate::text::{ascii, ascii_bytes, bytes_eq, text_is};
use bytes::Bytes;
use vstd::prelude::*;

verus! {

/// The status of the answer that opens a tunnel.
pub const OK: u16 = 200;

/// The status of the answer to a tunnel request without a target.
pub const BAD_REQUEST: u16 = 400;

/// The method that asks for a tunnel.
pub open spec fn connect_method() -> Seq<char> {
    "CONNECT"@
}

/// The name of the header that asks for a request to be passed through:
/// `x-middleman-passthrough`.
pub open spec fn passthrough_name() -> Seq<u8> {
    ascii("x-middleman-passthrough"@)
}

/// The one value of the passthrough header that does not ask for it.
pub open spec fn passthrough_off() -> Seq<u8> {
    ascii("false"@)
}

/// The body of the answer to a tunnel request without a target.
pub open spec fn bad_connect_text() -> Seq<u8> {
    ascii("CONNECT must be to a socket address"@)
}

/// The request asks for a tunnel.
pub open spec fn is_connect(head: RequestHeadView) -> bool {
    head.method == connect_method()
}

/// The request asks to be passed through: it carries the passthrough
/// header, and the first value of it is anything but `false`.
pub open spec fn wants_passthrough(head: RequestHeadView) -> bool {
    match first_value(head.headers, passthrough_name()) {
        Some(v) => v != passthrough_off(),
        None => false,
    }
}

/// The answer that opens a tunnel: 200, no headers, no body.
pub open spec fn tunnel_opened() -> ResponseView {
    ResponseView {
        head: ResponseHeadView { version: Version::Http11, status: OK, headers: Seq::empty() },
        body: Seq::empty(),
    }
}

/// The answer to a tunnel request without a target: 400 and a plain text.
pub open spec fn tunnel_refused() -> ResponseView {
    ResponseView {
        head: ResponseHeadView {
            version: Version::Http11,
            status: BAD_REQUEST,
            headers: Seq::empty(),
        },
        body: bad_connect_text(),
    }
}

/// Why an exchange ended without an answer.
#[derive(Clone, Copy, Debug, PartialEq, Eq, Structural)]
pub enum Failure {
    /// The tape could not be read or made sense of.
    Tape(TapeError),
    /// Reading the request or talking to the upstream failed.
    Transport,
    /// An event arrived that the exchange was not waiting for.
    OutOfTurn,
}

/// What has just happened.
#[derive(Debug)]
pub enum Event {
    /// A request arrived; `tape_exists` says whether the store holds a tape
    /// under its key.
    Arrived { head: RequestHead, tape_exists: bool },
    /// The body of the request has been read to its end.
    Body(Bytes),
    /// The tape has been read, or could not be.
    Tape(Result<Vec<u8>, TapeError>),
    /// The upstream answered with this head, and the body of its answer has
    /// been read to its end.
    Answered(ResponseHead, Bytes),
    /// Reading the request's body, or the exchange with the upstream,
    /// failed.
    Broken,
}

/// What an [`Event`] holds.
pub enum EventView {
    Arrived { head: RequestHeadView, tape_exists: bool },
    Body(Seq<u8>),
    Tape(Result<Seq<u8>, TapeError>),
    Answered(ResponseHeadView, Seq<u8>),
    Broken,
}

impl View for Event {
    type V = EventView;

    open spec fn view(&self) -> EventView {
        match *self {
            Event::Arrived { head, tape_exists } => EventView::Arrived { head: head@, tape_exists },
            Event::Body(body) => EventView::Body(contents(body)),
            Event::Tape(Ok(data)) => EventView::Tape(Ok(data@)),
            Event::Tape(Err(e)) => EventView::Tape(Err(e)),
            Event::Answered(head, body) => EventView::Answered(head@, contents(body)),
            Event::Broken => EventView::Broken,
        }
    }
}

/// What is to be done next.
#[derive(Debug)]
pub enum Action {
    /// Send the response; the exchange is over.
    Respond(Response),
    /// Send the response, then relay bytes between the client and `addr`.
    Tunnel { response: Response, addr: String },
    /// Read the tape at `path` and report it.
    ReadTape { path: String },
    /// Read the request's body to its end and report it.
    ReadBody,
    /// Make the call and report the upstream's answer.
    Forward(UpstreamCall),
    /// Write the tape, then send the response; the exchange is over.
    Record { write: TapeWrite, response: Response },
    /// Give the exchange up.
    Fail(Failure),
}

/// What an [`Action`] holds.
pub enum ActionView {
    Respond(ResponseView),
    Tunnel { response: ResponseView, addr: Seq<char> },
    ReadTape { path: Seq<char> },
    ReadBody,
    Forward(UpstreamCallView),
    Record { write: TapeWriteView, response: ResponseView },
    Fail(Failure),
}

impl View for Action {
    type V = ActionView;

    open spec fn view(&self) -> ActionView {
        match *self {
            Action::Respond(response) => ActionView::Respond(response@),
            Action::Tunnel { response, addr } => ActionView::Tunnel {
                response: response@,
                addr: addr@,
            },
            Action::ReadTape { path } => ActionView::ReadTape { path: path@ },
            Action::ReadBody => ActionView::ReadBody,
            Action::Forward(call) => ActionView::Forward(call@),
            Action::Record { write, response } => ActionView::Record {
                write: write@,
                response: response@,
            },
            Action::Fail(f) => ActionView::Fail(f),
        }
    }
}

/// How far the exchange over one request has come.
#[derive(Debug)]
pub enum Exchange {
    /// No request has arrived yet.
    Start,
    /// The tape of the request is being read.
    Replaying { head: RequestHead },
    /// The body of the request is being read; `keep` says whether the
    /// upstream's answer will be recorded.
    Collecting { head: RequestHead, keep: bool },
    /// The upstream is being asked; `retained` is the copy of the request
    /// that the answer will be recorded under, if it will be.
    Forwarding { retained: Option<Request> },
    /// The exchange is over.
    Done,
}

/// What an [`Exchange`] holds.
pub enum ExchangeView {
    Start,
    Replaying { head: RequestHeadView },
    Collecting { head: RequestHeadView, keep: bool },
    Forwarding { retained: Option<RequestView> },
    Done,
}

impl View for Exchange {
    type V = ExchangeView;

    open spec fn view(&self) -> ExchangeView {
        match *self {
            Exchange::Start => ExchangeView::Start,
            Exchange::Replaying { head } => ExchangeView::Replaying { head: head@ },
            Exchange::Collecting { head, keep } => ExchangeView::Collecting { head: head@, keep },
            Exchange::Forwarding { retained: Some(req) } => ExchangeView::Forwarding {
                retained: Some(req@),
            },
            Exchange::Forwarding { retained: None } => ExchangeView::Forwarding { retained: None },
            Exchange::Done => ExchangeView::Done,
        }
    }
}

/// The first step of an exchange: what to do with a request that has just
/// arrived.
///
/// A tunnel request is answered at once, whatever else holds. In
/// replay-only mode the request is answered from its tape, or with 501
/// where it has none. Otherwise a request that asks for it is passed
/// through; one with a tape is answered from the tape; any other is sent
/// upstream and its answer recorded.
pub open spec fn arrive(config: ConfigView, head: RequestHeadView, tape_exists: bool) -> (
    ExchangeView,
    ActionView,
) {
    if is_connect(head) {
        match head.uri.authority {
            Some(addr) => (
                ExchangeView::Done,
                ActionView::Tunnel { response: tunnel_opened(), addr },
            ),
            None => (ExchangeView::Done, ActionView::Respond(tunnel_refused())),
        }
    } else if config.replay_only {
        if tape_exists {
            (
                ExchangeView::Replaying { head },
                ActionView::ReadTape { path: recording_path(config.tapes, head) },
            )
        } else {
            (ExchangeView::Done, ActionView::Respond(missing(head)))
        }
    } else if wants_passthrough(head) {
        (ExchangeView::Collecting { head, keep: false }, ActionView::ReadBody)
    } else if tape_exists {
        (
            ExchangeView::Replaying { head },
            ActionView::ReadTape { path: recording_path(config.tapes, head) },
        )
    } else {
        (ExchangeView::Collecting { head, keep: true }, ActionView::ReadBody)
    }
}

/// The end of a replay: the answer that the tape stands for. A tape that
/// went missing since it was looked for is answered like a missing one; any
/// other failure of the store, and a tape that cannot be decoded, end the
/// exchange without an answer.
pub open spec fn replay_done(head: RequestHeadView, tape: Result<Seq<u8>, TapeError>) -> ActionView {
    let outcome = match tape {
        Ok(data) => replayed(head, Some(data)),
        Err(TapeError::NotFound) => replayed(head, None),
        Err(e) => Err(e),
    };
    match outcome {
        Ok(resp) => ActionView::Respond(resp),
        Err(e) => ActionView::Fail(Failure::Tape(e)),
    }
}

/// One step of an exchange: the state it goes to and what is to be done.
pub open spec fn transition(config: ConfigView, state: ExchangeView, event: EventView) -> (
    ExchangeView,
    ActionView,
) {
    match (state, event) {
        (ExchangeView::Start, EventView::Arrived { head, tape_exists }) => arrive(
            config,
            head,
            tape_exists,
        ),
        (ExchangeView::Replaying { head }, EventView::Tape(tape)) => (
            ExchangeView::Done,
            replay_done(head, tape),
        ),
        (ExchangeView::Collecting { head, keep }, EventView::Body(body)) => {
            let req = RequestView { head, body };
            (
                ExchangeView::Forwarding {
                    retained: if keep {
                        Some(req)
                    } else {
                        None
                    },
                },
                ActionView::Forward(upstream_call(config, req)),
            )
        },
        (ExchangeView::Forwarding { retained }, EventView::Answered(head, body)) => {
            let resp = ResponseView { head, body };
            (
                ExchangeView::Done,
                match retained {
                    Some(req) => ActionView::Record {
                        write: recorded(config, req.head, resp),
                        response: resp,
                    },
                    None => ActionView::Respond(resp),
                },
            )
        },
        (ExchangeView::Collecting { .. }, EventView::Broken) => (
            ExchangeView::Done,
            ActionView::Fail(Failure::Transport),
        ),
        (ExchangeView::Forwarding { .. }, EventView::Broken) => (
            ExchangeView::Done,
            ActionView::Fail(Failure::Transport),
        ),
        _ => (ExchangeView::Done, ActionView::Fail(Failure::OutOfTurn)),
    }
}

/// The target of a tunnel request: the authority of the request target.
pub fn host_addr(uri: &Uri) -> (addr: Option<String>)
    ensures
        crate::message::text_view(addr) == uri@.authority,
{
    copy_text(&uri.authority)
}

/// Whether the request asks to be passed through.
pub fn passthrough_requested(head: &RequestHead) -> (r: bool)
    ensures
        r == wants_passthrough(head@),
{
    proof {
        reveal_strlit("x-middleman-passthrough");
        reveal_strlit("false");
    }
    let name = ascii_bytes("x-middleman-passthrough");
    match find_header(&head.headers, &name) {
        Some(v) => {
            let off = ascii_bytes("false");
            !bytes_eq(v, &off)
        },
        None => false,
    }
}

impl Exchange {
    /// An exchange that waits for its request.
    pub fn new() -> (state: Exchange)
        ensures
            state@ == ExchangeView::Start,
    {
        Exchange::Start
    }

    /// Whether the exchange is over.
    pub fn is_done(&self) -> (done: bool)
        ensures
            done == (self@ == ExchangeView::Done),
    {
        match self {
            Exchange::Done => true,
            _ => false,
        }
    }

    /// Takes one step: consumes what has just happened and says what is to
    /// be done next.
    pub fn step(self, config: &Config, event: Event) -> (next: (Exchange, Action))
        ensures
            (next.0@, next.1@) == transition(config@, self@, event@),
    {
        match (self, event) {
            (Exchange::Start, Event::Arrived { head, tape_exists }) => first_step(
                config,
                head,
                tape_exists,
            ),
            (Exchange::Replaying { head }, Event::Tape(tape)) => {
                let outcome = match tape {
                    Ok(data) => replay(&head, Some(&data)),
                    Err(TapeError::NotFound) => replay(&head, None),
                    Err(e) => Err(e),
                };
                match outcome {
                    Ok(resp) => (Exchange::Done, Action::Respond(resp)),
                    Err(e) => (Exchange::Done, Action::Fail(Failure::Tape(e))),
                }
            },
            (Exchange::Collecting { head, keep }, Event::Body(body)) => {
                let (req, new_req) = clone_incoming_request(head, body);
                if keep {
                    (
                        Exchange::Forwarding { retained: Some(req) },
                        Action::Forward(make_request(config, new_req)),
                    )
                } else {
                    (
                        Exchange::Forwarding { retained: None },
                        Action::Forward(make_request(config, req)),
                    )
                }
            },
            (Exchange::Forwarding { retained }, Event::Answered(head, body)) => {
                let (resp, new_resp) = clone_incoming_response(head, body);
                match retained {
                    Some(req) => {
                        let write = record(config, &req, &new_resp);
                        (Exchange::Done, Action::Record { write, response: resp })
                    },
                    None => (Exchange::Done, Action::Respond(new_resp)),
                }
            },
            (Exchange::Collecting { .. }, Event::Broken) => (
                Exchange::Done,
                Action::Fail(Failure::Transport),
            ),
            (Exchange::Forwarding { .. }, Event::Broken) => (
                Exchange::Done,
                Action::Fail(Failure::Transport),
            ),
            _ => (Exchange::Done, Action::Fail(Failure::OutOfTurn)),
        }
    }
}

/// The first step, for a request that has just arrived.
pub fn first_step(config: &Config, head: RequestHead, tape_exists: bool) -> (next: (
    Exchange,
    Action,
))
    ensures
        (next.0@, next.1@) == arrive(config@, head@, tape_exists),
{
    proof {
        reveal_strlit("CONNECT must be to a socket address");
    }
    if text_is(&head.method, "CONNECT") {
        match host_addr(&head.uri) {
            Some(addr) => {
                let response = Response {
                    head: ResponseHead { version: Version::Http11, status: OK, headers: Vec::new() },
                    body: empty(),
                };
                assert(response@.head.headers =~= Seq::empty());
                (Exchange::Done, Action::Tunnel { response, addr })
            },
            None => {
                let response = Response {
                    head: ResponseHead {
                        version: Version::Http11,
                        status: BAD_REQUEST,
                        headers: Vec::new(),
                    },
                    body: full(ascii_bytes("CONNECT must be to a socket address")),
                };
                assert(response@.head.headers =~= Seq::empty());
                (Exchange::Done, Action::Respond(response))
            },
        }
    } else if config.replay_only {
        if tape_exists {
            let path = recording_name(config.tapes.as_str(), &head);
            (Exchange::Replaying { head }, Action::ReadTape { path })
        } else {
            (Exchange::Done, Action::Respond(crate::proxy::not_implemented(&head)))
        }
    } else if passthrough_requested(&head) {
        (Exchange::Collecting { head, keep: false }, Action::ReadBody)
    } else if tape_exists {
        let path = recording_name(config.tapes.as_str(), &head);
        (Exchange::Replaying { head }, Action::ReadTape { path })
    } else {
        (Exchange::Collecting { head, keep: true }, Action::ReadBody)
    }
}

/// Starts the exchange over a request that has just arrived. The store is
/// asked whether it holds the request's tape only where the answer
/// matters.
pub fn proxy_handler(config: &Config, head: RequestHead) -> (next: (Exchange, Action))
    ensures
        (next.0@, next.1@) == arrive(config@, head@, true) || (next.0@, next.1@) == arrive(
            config@,
            head@,
            false,
        ),
{
    let connect = text_is(&head.method, "CONNECT");
    if connect || (!config.replay_only && passthrough_requested(&head)) {
        first_step(config, head, false)
    } else {
        let name = recording_name(config.tapes.as_str(), &head);
        let tape_exists = recording_exists(name.as_str());
        first_step(config, head, tape_exists)
    }
}

/// The actions of an exchange that starts in `state` and is told `events`,
/// one after the other.
pub open spec fn run(config: ConfigView, state: ExchangeView, events: Seq<EventView>) -> Seq<
    ActionView,
>
    decreases events.len(),
{
    if events.len() == 0 {
        Seq::empty()
    } else {
        let (next, action) = transition(config, state, events[0]);
        seq![action] + run(config, next, events.skip(1))
    }
}

/// The actions of the whole exchange over a request, whatever is reported
/// to it after the request has arrived.
pub open spec fn whole_run(
    config: ConfigView,
    head: RequestHeadView,
    tape_exists: bool,
    later: Seq<EventView>,
) -> Seq<ActionView> {
    run(config, ExchangeView::Start, seq![EventView::Arrived { head, tape_exists }] + later)
}

/// No action of `actions` asks for the upstream.
pub open spec fn never_forwards(actions: Seq<ActionView>) -> bool {
    forall|i: int| 0 <= i < actions.len() ==> !(#[trigger] actions[i] is Forward)
}

/// No action of `actions` writes a tape.
pub open spec fn never_records(actions: Seq<ActionView>) -> bool {
    forall|i: int| 0 <= i < actions.len() ==> !(#[trigger] actions[i] is Record)
}

/// A state from which no step asks for the upstream: the tape is being
/// read, or the exchange is over.
pub open spec fn off_line(state: ExchangeView) -> bool {
    state is Replaying || state is Done
}

/// A state from which no step writes a tape: nothing is, or will be,
/// retained to record under.
pub open spec fn keeps_nothing(state: ExchangeView) -> bool {
    match state {
        ExchangeView::Collecting { keep, .. } => !keep,
        ExchangeView::Forwarding { retained } => retained is None,
        ExchangeView::Replaying { .. } => true,
        ExchangeView::Done => true,
        ExchangeView::Start => false,
    }
}

/// From a state that is off line, nothing that is reported leads to the
/// upstream.
pub proof fn lemma_off_line_never_forwards(
    config: ConfigView,
    state: ExchangeView,
    events: Seq<EventView>,
)
    requires
        off_line(state),
    ensures
        never_forwards(run(config, state, events)),
    decreases events.len(),
{
    if events.len() > 0 {
        let (next, action) = transition(config, state, events[0]);
        lemma_off_line_never_forwards(config, next, events.skip(1));
        let rest = run(config, next, events.skip(1));
        let all = run(config, state, events);
        assert forall|i: int| 0 <= i < all.len() implies !(#[trigger] all[i] is Forward) by {
            if i > 0 {
                assert(all[i] == rest[i - 1]);
            }
        }
    }
}

/// From a state that keeps nothing, nothing that is reported leads to a
/// write.
pub proof fn lemma_keeps_nothing_never_records(
    config: ConfigView,
    state: ExchangeView,
    events: Seq<EventView>,
)
    requires
        keeps_nothing(state),
    ensures
        never_records(run(config, state, events)),
    decreases events.len(),
{
    if events.len() > 0 {
        let (next, action) = transition(config, state, events[0]);
        lemma_keeps_nothing_never_records(config, next, events.skip(1));
        let rest = run(config, next, events.skip(1));
        let all = run(config, state, events);
        assert forall|i: int| 0 <= i < all.len() implies !(#[trigger] all[i] is Record) by {
            if i > 0 {
                assert(all[i] == rest[i - 1]);
            }
        }
    }
}

/// The action answers the client: it sends a response.
pub open spec fn answers(action: ActionView) -> bool {
    action is Respond || action is Tunnel || action is Record
}

/// Once an exchange is over, whatever is reported to it is out of turn.
pub proof fn lemma_done_stays_done(config: ConfigView, events: Seq<EventView>)
    ensures
        forall|i: int|
            0 <= i < run(config, ExchangeView::Done, events).len() ==> #[trigger] run(
                config,
                ExchangeView::Done,
                events,
            )[i] == ActionView::Fail(Failure::OutOfTurn),
    decreases events.len(),
{
    if events.len() > 0 {
        lemma_done_stays_done(config, events.skip(1));
        let rest = run(config, ExchangeView::Done, events.skip(1));
        let all = run(config, ExchangeView::Done, events);
        assert forall|i: int| 0 <= i < all.len() implies #[trigger] all[i] == ActionView::Fail(
            Failure::OutOfTurn,
        ) by {
            if i > 0 {
                assert(all[i] == rest[i - 1]);
            }
        }
    }
}

/// One answer for one request. Whatever the request is and whatever is
/// reported, from any state: once an action answers the client, the
/// exchange is over, and every action after it is a failure out of turn. So
/// no run holds two answers.
pub proof fn lemma_one_answer(config: ConfigView, state: ExchangeView, events: Seq<EventView>)
    ensures
        forall|i: int, j: int|
            0 <= i < j < run(config, state, events).len() && answers(
                #[trigger] run(config, state, events)[i],
            ) ==> #[trigger] run(config, state, events)[j] == ActionView::Fail(
                Failure::OutOfTurn,
            ),
    decreases events.len(),
{
    if events.len() > 0 {
        let (next, action) = transition(config, state, events[0]);
        let rest = run(config, next, events.skip(1));
        let all = run(config, state, events);
        lemma_one_answer(config, next, events.skip(1));
        if answers(action) {
            assert(next == ExchangeView::Done);
            lemma_done_stays_done(config, events.skip(1));
        }
        assert forall|i: int, j: int| 0 <= i < j < all.len() && answers(#[trigger] all[i])
            implies #[trigger] all[j] == ActionView::Fail(Failure::OutOfTurn) by {
            assert(all[j] == rest[j - 1]);
            if i > 0 {
                assert(all[i] == rest[i - 1]);
            }
        }
    }
}

/// The run of an exchange is its first step, then the run from where that
/// step leads.
proof fn lemma_whole_run_unfolds(
    config: ConfigView,
    head: RequestHeadView,
    tape_exists: bool,
    later: Seq<EventView>,
)
    ensures
        whole_run(config, head, tape_exists, later) == seq![arrive(config, head, tape_exists).1]
            + run(config, arrive(config, head, tape_exists).0, later),
{
    let events = seq![EventView::Arrived { head, tape_exists }] + later;
    assert(events.skip(1) =~= later);
    assert(events[0] == (EventView::Arrived { head, tape_exists }));
}

/// Replay precedence. In replay-only mode no exchange ever asks for the
/// upstream, whatever the request is and whatever is reported; and a
/// request without a tape, other than a tunnel request, is answered with
/// 501 in the first step.
pub proof fn lemma_replay_only_never_forwards(
    config: ConfigView,
    head: RequestHeadView,
    tape_exists: bool,
    later: Seq<EventView>,
)
    requires
        config.replay_only,
    ensures
        never_forwards(whole_run(config, head, tape_exists, later)),
        !is_connect(head) ==> arrive(config, head, false) == (
            ExchangeView::Done,
            ActionView::Respond(missing(head)),
        ),
        missing(head).head.status == 501,
{
    lemma_whole_run_unfolds(config, head, tape_exists, later);
    let (state, first) = arrive(config, head, tape_exists);
    lemma_off_line_never_forwards(config, state, later);
    let rest = run(config, state, later);
    let all = whole_run(config, head, tape_exists, later);
    assert forall|i: int| 0 <= i < all.len() implies !(#[trigger] all[i] is Forward) by {
        if i > 0 {
            assert(all[i] == rest[i - 1]);
        }
    }
}

/// A passthrough header that reads `true` asks for passthrough.
pub proof fn lemma_true_asks_for_passthrough(head: RequestHeadView)
    requires
        first_value(head.headers, passthrough_name()) == Some(ascii("true"@)),
    ensures
        wants_passthrough(head),
{
    reveal_strlit("true");
    reveal_strlit("false");
    assert(ascii("true"@).len() == 4);
    assert(ascii("false"@).len() == 5);
}

/// Passthrough precedence. The exchange over a request that asks for
/// passthrough never writes a tape, in whatever mode, with or without a
/// tape under its key, and whatever is reported; outside replay-only mode
/// such a request, other than a tunnel request, has its body read in the
/// first step and nothing kept of it.
pub proof fn lemma_passthrough_never_records(
    config: ConfigView,
    head: RequestHeadView,
    tape_exists: bool,
    later: Seq<EventView>,
)
    requires
        wants_passthrough(head),
    ensures
        never_records(whole_run(config, head, tape_exists, later)),
        !config.replay_only && !is_connect(head) ==> arrive(config, head, tape_exists) == (
            ExchangeView::Collecting { head, keep: false },
            ActionView::ReadBody,
        ),
{
    lemma_whole_run_unfolds(config, head, tape_exists, later);
    let (state, first) = arrive(config, head, tape_exists);
    lemma_keeps_nothing_never_records(config, state, later);
    let rest = run(config, state, later);
    let all = whole_run(config, head, tape_exists, later);
    assert forall|i: int| 0 <= i < all.len() implies !(#[trigger] all[i] is Record) by {
        if i > 0 {
            assert(all[i] == rest[i - 1]);
        }
    }
}

/// Cache-hit short-circuit. A request with a tape under its key, other than
/// a tunnel request and, outside replay-only mode, one that asks for
/// passthrough, has its tape read in the first step; once the tape is
/// reported it is answered with what the tape decodes to; and whatever is
/// reported, the exchange never asks for the upstream.
pub proof fn lemma_hit_never_forwards(
    config: ConfigView,
    head: RequestHeadView,
    tape: Seq<u8>,
    later: Seq<EventView>,
)
    requires
        !is_connect(head),
        config.replay_only || !wants_passthrough(head),
    ensures
        arrive(config, head, true) == (
            ExchangeView::Replaying { head },
            ActionView::ReadTape { path: recording_path(config.tapes, head) },
        ),
        replayed(head, Some(tape)) matches Ok(resp) ==> transition(
            config,
            ExchangeView::Replaying { head },
            EventView::Tape(Ok(tape)),
        ) == (ExchangeView::Done, ActionView::Respond(resp)),
        never_forwards(whole_run(config, head, true, later)),
{
    lemma_whole_run_unfolds(config, head, true, later);
    let state = ExchangeView::Replaying { head };
    lemma_off_line_never_forwards(config, state, later);
    let rest = run(config, state, later);
    let all = whole_run(config, head, true, later);
    assert forall|i: int| 0 <= i < all.len() implies !(#[trigger] all[i] is Forward) by {
        if i > 0 {
            assert(all[i] == rest[i - 1]);
        }
    }
}

} // verus!
