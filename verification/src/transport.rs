//! What the transport sends back for each request it receives, and the settings of the NATS
//! transport.
//!
//! A request that cannot be parsed is answered with a parse error. A request that can is handed
//! to the request handler; for `tasks/sendSubscribe` the events of a successful answer are sent
//! one by one before the answer itself, for every other method only the answer is sent. Where
//! the handler fails, an internal error is sent instead.
use std::time::Duration;
use vstd::prelude::*;
use crate::json_text::{json_quoted, json_string};
use crate::server::{INTERNAL_ERROR, PARSE_ERROR};
use crate::types::{
    create_error_response, events_view, failure_view, JsonRpcRequest, JsonRpcResponse,
    JsonRpcResponseView,
    RpcResult, RpcResultView, TaskStreamingEvent, TaskStreamingEventView,
};

verus! {

/// One message that the transport sends to a reply subject.
#[derive(Debug)]
pub enum Outgoing {
    Event(TaskStreamingEvent),
    Response(JsonRpcResponse),
}

pub enum OutgoingView {
    Event(TaskStreamingEventView),
    Response(JsonRpcResponseView),
}

impl View for Outgoing {
    type V = OutgoingView;

    open spec fn view(&self) -> OutgoingView {
        match self {
            Outgoing::Event(e) => OutgoingView::Event(e@),
            Outgoing::Response(r) => OutgoingView::Response(r@),
        }
    }
}

/// The JSON text `{"error":..}` with `text` as the error.
pub open spec fn error_detail(text: Seq<char>) -> Seq<char> {
    "{\"error\":"@ + json_quoted(text) + "}"@
}

/// The JSON text `{"error":..}` with `text` as the error.
fn error_detail_text(text: &str) -> (r: String)
    ensures
        r@ == error_detail(text@),
{
    let mut r = "{\"error\":".to_string();
    let quoted = json_string(text);
    r.append(quoted.as_str());
    r.append("}");
    r
}

/// The answer to a request that could not be parsed, where the parser said `error_text`:
/// id `null`, `PARSE_ERROR`, `Parse error`, and the parser's text as the error's data.
pub fn parse_error_response(error_text: &str) -> (r: JsonRpcResponse)
    ensures
        r@ == failure_view("null"@, PARSE_ERROR, "Parse error"@, Some(error_detail(error_text@))),
{
    create_error_response(
        "null".to_string(),
        PARSE_ERROR,
        "Parse error".to_string(),
        Some(error_detail_text(error_text)),
    )
}

/// The answer to request `id` whose handler failed with `error_text`: `INTERNAL_ERROR`,
/// `Internal error`, and the handler's text as the error's data.
pub open spec fn internal_error_view(id: Seq<char>, error_text: Seq<char>) -> JsonRpcResponseView {
    failure_view(id, INTERNAL_ERROR, "Internal error"@, Some(error_detail(error_text)))
}

/// The answer to request `id` whose handler failed with `error_text`.
pub fn internal_error_response(id: String, error_text: &str) -> (r: JsonRpcResponse)
    ensures
        r@ == internal_error_view(id@, error_text@),
{
    create_error_response(
        id,
        INTERNAL_ERROR,
        "Internal error".to_string(),
        Some(error_detail_text(error_text)),
    )
}

/// The method whose successful answer is followed, on the wire, by its events.
pub open spec fn streaming_method() -> Seq<char> {
    "tasks/sendSubscribe"@
}

/// The events of an answer, each as a message of its own.
pub open spec fn event_messages(events: Seq<TaskStreamingEventView>) -> Seq<OutgoingView> {
    events.map_values(|e: TaskStreamingEventView| OutgoingView::Event(e))
}

/// What is sent back for request `request_id` of method `method`, given what the handler
/// gave: its answer, or the text of its failure. For a successful `tasks/sendSubscribe`, the
/// events of the answer go first: those of an `Events` result, or, for a result given as JSON
/// text, `listed_events`, the events that the text lists under `events`.
pub open spec fn replies_view(
    method: Seq<char>,
    request_id: Seq<char>,
    handled: Result<JsonRpcResponseView, Seq<char>>,
    listed_events: Seq<TaskStreamingEventView>,
) -> Seq<OutgoingView> {
    match handled {
        Err(e) => seq![OutgoingView::Response(internal_error_view(request_id, e))],
        Ok(resp) => {
            if method == streaming_method() && resp.error is None {
                match resp.result {
                    Some(RpcResultView::Events(events)) => event_messages(events).push(
                        OutgoingView::Response(resp),
                    ),
                    Some(RpcResultView::Json(_)) => event_messages(listed_events).push(
                        OutgoingView::Response(resp),
                    ),
                    _ => seq![OutgoingView::Response(resp)],
                }
            } else {
                seq![OutgoingView::Response(resp)]
            }
        },
    }
}

/// Each of `events`, in order, as a message of its own.
fn push_events(out: &mut Vec<Outgoing>, events: &Vec<TaskStreamingEvent>)
    ensures
        final(out)@.map_values(|o: Outgoing| o@) =~= old(out)@.map_values(|o: Outgoing| o@)
            + event_messages(events_view(events@)),
{
    let ghost start = out@.map_values(|o: Outgoing| o@);
    let ghost evs = events_view(events@);
    let n = events.len();
    let mut i: usize = 0;
    while i < n
        invariant
            n == events@.len(),
            i <= n,
            evs == events_view(events@),
            out@.map_values(|o: Outgoing| o@) =~= start + event_messages(evs.take(i as int)),
        decreases n - i,
    {
        let e = events[i].clone();
        assert(e@ == evs[i as int]);
        let ghost before = out@.map_values(|o: Outgoing| o@);
        out.push(Outgoing::Event(e));
        assert(out@.map_values(|o: Outgoing| o@) =~= before.push(OutgoingView::Event(evs[i as int])));
        assert(evs.take(i + 1) =~= evs.take(i as int).push(evs[i as int]));
        assert(event_messages(evs.take(i + 1)) =~= event_messages(evs.take(i as int)).push(
            OutgoingView::Event(evs[i as int]),
        ));
        i = i + 1;
    }
    assert(evs.take(n as int) =~= evs);
}

/// What is sent back, in order, for a request of method `method` with id `request_id`;
/// `listed_events` are the events that a result given as JSON text lists under `events`.
pub fn replies_for(
    method: &String,
    request_id: String,
    handled: Result<JsonRpcResponse, String>,
    listed_events: Vec<TaskStreamingEvent>,
) -> (r: Vec<Outgoing>)
    ensures
        r@.map_values(|o: Outgoing| o@) == replies_view(
            method@,
            request_id@,
            match handled {
                Ok(resp) => Ok(resp@),
                Err(e) => Err(e@),
            },
            events_view(listed_events@),
        ),
{
    let mut out: Vec<Outgoing> = Vec::new();
    match handled {
        Err(e) => {
            out.push(Outgoing::Response(internal_error_response(request_id, e.as_str())));
        },
        Ok(resp) => {
            let streaming = *method == "tasks/sendSubscribe".to_string();
            if streaming && resp.error.is_none() {
                match &resp.result {
                    Some(RpcResult::Events(events)) => {
                        push_events(&mut out, events);
                    },
                    Some(RpcResult::Json(_)) => {
                        push_events(&mut out, &listed_events);
                    },
                    _ => {},
                }
            }
            let ghost before = out@.map_values(|o: Outgoing| o@);
            let ghost rv = resp@;
            out.push(Outgoing::Response(resp));
            assert(out@.map_values(|o: Outgoing| o@) =~= before.push(OutgoingView::Response(rv)));
        },
    }
    out
}

/// What the transport does with a message that arrives on its subject.
#[derive(Debug)]
pub enum IncomingAction {
    /// Nothing: the message has no reply subject to answer to.
    Skip,
    /// Send these replies, without consulting the request handler.
    Reply(Vec<Outgoing>),
    /// Hand the request to the request handler.
    Handle(JsonRpcRequest),
}

/// Decides what to do with a message, given whether it has a reply subject and what parsing
/// its payload as a request gave: the request, or the parser's error text.
pub fn on_incoming(has_reply_subject: bool, parsed: Result<JsonRpcRequest, String>) -> (r:
    IncomingAction)
    ensures
        !has_reply_subject ==> r is Skip,
        has_reply_subject ==> match parsed {
            Ok(req) => r matches IncomingAction::Handle(h) && h@ == req@,
            Err(e) => r matches IncomingAction::Reply(out) && out@.map_values(|o: Outgoing| o@)
                == seq![
                OutgoingView::Response(
                    failure_view("null"@, PARSE_ERROR, "Parse error"@, Some(error_detail(e@))),
                ),
            ],
        },
{
    if !has_reply_subject {
        return IncomingAction::Skip;
    }
    match parsed {
        Ok(req) => IncomingAction::Handle(req),
        Err(e) => {
            let mut out: Vec<Outgoing> = Vec::new();
            let resp = parse_error_response(e.as_str());
            let ghost rv = resp@;
            out.push(Outgoing::Response(resp));
            assert(out@.map_values(|o: Outgoing| o@) =~= seq![OutgoingView::Response(rv)]);
            IncomingAction::Reply(out)
        },
    }
}

/// Factory for creating NATS transports: the server's URL, the subject to serve, and how long
/// to wait for a connection.
#[derive(Debug)]
pub struct NatsTransportFactory {
    url: String,
    subject: String,
    connect_timeout: Duration,
}

pub struct NatsTransportFactoryView {
    pub url: Seq<char>,
    pub subject: Seq<char>,
    pub connect_timeout: Duration,
}

impl View for NatsTransportFactory {
    type V = NatsTransportFactoryView;

    closed spec fn view(&self) -> NatsTransportFactoryView {
        NatsTransportFactoryView {
            url: self.url@,
            subject: self.subject@,
            connect_timeout: self.connect_timeout,
        }
    }
}

impl NatsTransportFactory {
    /// Create a new NatsTransportFactory.
    pub fn new(url: &str, subject: &str, connect_timeout: Duration) -> (r: Self)
        ensures
            r@ == (NatsTransportFactoryView { url: url@, subject: subject@, connect_timeout }),
    {
        NatsTransportFactory { url: url.to_string(), subject: subject.to_string(), connect_timeout }
    }

    /// The URL of the NATS server.
    pub fn url(&self) -> (r: &String)
        ensures
            r@ == self@.url,
    {
        &self.url
    }

    /// The subject that the transport serves.
    pub fn subject(&self) -> (r: &String)
        ensures
            r@ == self@.subject,
    {
        &self.subject
    }

    /// How long the transport waits for a connection.
    pub fn connect_timeout(&self) -> (r: Duration)
        ensures
            r == self@.connect_timeout,
    {
        self.connect_timeout
    }
}

} // verus!
