//! Envelopes of the debugging protocol, their decoding, and the
//! classification of one raw frame.

use vstd::prelude::*;

use crate::json::{field, find_member, json_parse, member, parse_json, Json, JsonNumber};

verus! {

/// Identifies one call within the scope that issued it.
pub type CallId = u16;

/// The result of a completed method call.
#[derive(Debug, PartialEq)]
pub struct Response {
    pub call_id: CallId,
    pub result: Json,
}

/// A notification not tied to an outstanding call.
#[derive(Debug, PartialEq)]
pub struct Event {
    pub method: String,
    pub params: Json,
}

/// One envelope as it stands in a frame, before attribution.
#[derive(Debug, PartialEq)]
pub enum Message {
    Event(Event),
    Response(Response),
}

/// What a classified frame carries.
#[derive(Debug, PartialEq)]
pub enum IncomingMessageKind {
    Event(Event),
    MethodResponse(Response),
}

/// Which endpoint a classified frame is attributed to.
#[derive(Debug, PartialEq)]
pub enum IncomingMessage<T> {
    FromBrowser(T),
    FromTarget(T),
}

/// Why a frame could not be classified, with the text that failed.
#[derive(Debug, PartialEq)]
pub enum DecodeError {
    /// The frame is not JSON, or is neither a response nor an event.
    MalformedEnvelope(String),
    /// The message tunnelled in an event is not a response.
    MalformedTunnel(String),
}

/// A `DecodeError` with its text as a sequence of characters.
pub enum DecodeFailure {
    MalformedEnvelope(Seq<char>),
    MalformedTunnel(Seq<char>),
}

impl View for DecodeError {
    type V = DecodeFailure;

    open spec fn view(&self) -> DecodeFailure {
        match self {
            DecodeError::MalformedEnvelope(t) => DecodeFailure::MalformedEnvelope(t@),
            DecodeError::MalformedTunnel(t) => DecodeFailure::MalformedTunnel(t@),
        }
    }
}

/// A classification with its error seen through the error's view.
pub open spec fn outcome(r: Result<IncomingMessage<IncomingMessageKind>, DecodeError>) -> Result<
    IncomingMessage<IncomingMessageKind>,
    DecodeFailure,
> {
    match r {
        Ok(m) => Ok(m),
        Err(e) => Err(e@),
    }
}

/// A call identifier written as a JSON number.
pub open spec fn call_id_of(v: Json) -> Option<CallId> {
    match v {
        Json::Number(JsonNumber::Unsigned(n)) => if n <= 0xffff {
            Some(n as u16)
        } else {
            None
        },
        _ => None,
    }
}

/// The response that `doc` spells: an `id` that is a call identifier and a
/// `result`.
pub open spec fn response_of(doc: Json) -> Option<Response> {
    match (member(doc, "id"@), member(doc, "result"@)) {
        (Some(id), Some(result)) => match call_id_of(id) {
            Some(call_id) => Some(Response { call_id, result }),
            None => None,
        },
        _ => None,
    }
}

/// The event that `doc` spells: a string `method` and `params`.
pub open spec fn event_of(doc: Json) -> Option<Event> {
    match (member(doc, "method"@), member(doc, "params"@)) {
        (Some(Json::Str(method)), Some(params)) => Some(Event { method, params }),
        _ => None,
    }
}

/// The envelope in `doc`: a response when it is one, else an event.
pub open spec fn message_of(doc: Json) -> Option<Message> {
    match response_of(doc) {
        Some(r) => Some(Message::Response(r)),
        None => match event_of(doc) {
            Some(e) => Some(Message::Event(e)),
            None => None,
        },
    }
}

/// The string member `key` of `v`, when `v` is an object that has one.
pub open spec fn string_member_of(v: Json, key: Seq<char>) -> Option<Seq<char>> {
    match member(v, key) {
        Some(Json::Str(s)) => Some(s@),
        _ => None,
    }
}

/// The text of a message that a target sent, when an event's `params`
/// tunnel one in the string member `message`.
pub open spec fn tunnel_of(params: Json) -> Option<Seq<char>> {
    string_member_of(params, "message"@)
}

/// The session that a tunnelling event names in the string member
/// `sessionId` of its `params`; `None` for any other frame.
pub open spec fn session_of(raw: Seq<char>) -> Option<Seq<char>> {
    match json_parse(raw) {
        Some(doc) => match message_of(doc) {
            Some(Message::Event(e)) => if tunnel_of(e.params) is Some {
                string_member_of(e.params, "sessionId"@)
            } else {
                None
            },
            _ => None,
        },
        None => None,
    }
}

/// The target's response tunnelled as the text `t`.
pub open spec fn tunnelled(t: Seq<char>) -> Result<IncomingMessage<IncomingMessageKind>, DecodeFailure> {
    match json_parse(t) {
        Some(inner) => match response_of(inner) {
            Some(r) => Ok(IncomingMessage::FromTarget(IncomingMessageKind::MethodResponse(r))),
            None => Err(DecodeFailure::MalformedTunnel(t)),
        },
        None => Err(DecodeFailure::MalformedTunnel(t)),
    }
}

/// The classification of the raw frame `raw`.
pub open spec fn classify(raw: Seq<char>) -> Result<IncomingMessage<IncomingMessageKind>, DecodeFailure> {
    match json_parse(raw) {
        None => Err(DecodeFailure::MalformedEnvelope(raw)),
        Some(doc) => match message_of(doc) {
            None => Err(DecodeFailure::MalformedEnvelope(raw)),
            Some(Message::Response(r)) => Ok(
                IncomingMessage::FromBrowser(IncomingMessageKind::MethodResponse(r)),
            ),
            Some(Message::Event(e)) => match tunnel_of(e.params) {
                None => Ok(IncomingMessage::FromTarget(IncomingMessageKind::Event(e))),
                Some(t) => tunnelled(t),
            },
        },
    }
}

proof fn lemma_field_after_remove(s: Seq<(String, Json)>, i: int, key: Seq<char>)
    requires
        0 <= i < s.len(),
        s[i].0@ != key,
    ensures
        field(s.remove(i), key) == field(s, key),
    decreases s.len(),
{
    if i == 0 {
        assert(s.remove(0) =~= s.drop_first());
    } else {
        assert(s.remove(i).drop_first() =~= s.drop_first().remove(i - 1));
        assert(s.remove(i)[0] == s[0]);
        if s[0].0@ != key {
            lemma_field_after_remove(s.drop_first(), i - 1, key);
        }
    }
}

/// Takes the response out of the members of an object, leaving them
/// untouched when they spell none.
fn take_response(entries: &mut Vec<(String, Json)>) -> (r: Option<Response>)
    ensures
        r == response_of(Json::Object(*old(entries))),
        r is None ==> *final(entries) == *old(entries),
{
    let id = match find_member(entries, "id") {
        Some(i) => i,
        None => return None,
    };
    let at = match find_member(entries, "result") {
        Some(i) => i,
        None => return None,
    };
    let call_id: CallId = match &entries[id].1 {
        Json::Number(JsonNumber::Unsigned(n)) => if *n <= 0xffff {
            *n as u16
        } else {
            return None;
        },
        _ => return None,
    };
    let (_, result) = entries.remove(at);
    Some(Response { call_id, result })
}

/// Takes the event out of the members of an object.
fn take_event(entries: &mut Vec<(String, Json)>) -> (r: Option<Event>)
    ensures
        r == event_of(Json::Object(*old(entries))),
{
    let im = match find_member(entries, "method") {
        Some(i) => i,
        None => return None,
    };
    if find_member(entries, "params").is_none() {
        return None;
    }
    match &entries[im].1 {
        Json::Str(_) => {},
        _ => return None,
    }
    let ghost before = entries@;
    let (_, named) = entries.remove(im);
    let method = match named {
        Json::Str(m) => m,
        _ => return None,
    };
    proof {
        reveal_strlit("method");
        reveal_strlit("params");
        assert(before[im as int].0@[0] != "params"@[0]);
        lemma_field_after_remove(before, im as int, "params"@);
    }
    let ip = match find_member(entries, "params") {
        Some(i) => i,
        None => return None,
    };
    let (_, params) = entries.remove(ip);
    Some(Event { method, params })
}

/// Decodes a document as a response: an object with a `result` and an
/// `id` that is an integer from 0 to 65535.
pub fn decode_response(doc: Json) -> (r: Option<Response>)
    ensures
        r == response_of(doc),
{
    match doc {
        Json::Object(mut entries) => take_response(&mut entries),
        _ => None,
    }
}

/// Decodes a document as a response if it is one, else as an event.
pub fn decode_message(doc: Json) -> (r: Option<Message>)
    ensures
        r == message_of(doc),
{
    match doc {
        Json::Object(mut entries) => match take_response(&mut entries) {
            Some(resp) => Some(Message::Response(resp)),
            None => match take_event(&mut entries) {
                Some(e) => Some(Message::Event(e)),
                None => None,
            },
        },
        _ => None,
    }
}

/// The string member `key` of `v`.
pub fn string_member<'a>(v: &'a Json, key: &str) -> (r: Option<&'a String>)
    ensures
        match r {
            Some(s) => string_member_of(*v, key@) == Some(s@),
            None => string_member_of(*v, key@) is None,
        },
{
    match v {
        Json::Object(entries) => match find_member(entries, key) {
            Some(i) => match &entries[i].1 {
                Json::Str(s) => Some(s),
                _ => None,
            },
            None => None,
        },
        _ => None,
    }
}

/// The string member `message` of an event's parameters, which carries a
/// message of a target session.
pub fn tunnel_message(params: &Json) -> (r: Option<&String>)
    ensures
        match r {
            Some(s) => tunnel_of(*params) == Some(s@),
            None => tunnel_of(*params) is None,
        },
{
    string_member(params, "message")
}

/// Classifies one raw frame: a response from the browser, an event from a
/// target, or a target's response tunnelled inside a browser event.
///
/// Every event that tunnels nothing is attributed to a target, also one
/// that the browser raises on its own account (a target attached or
/// detached). Telling those apart needs the method's namespace or a
/// session identifier, and is left open here.
pub fn parse_raw_message(raw_message: &str) -> (r: Result<IncomingMessage<IncomingMessageKind>, DecodeError>)
    ensures
        outcome(r) == classify(raw_message@),
{
    parse_raw_message_with_session(raw_message).0
}

/// Classifies one raw frame as `parse_raw_message` does, and also hands
/// back the session named by an event that tunnels a target's message, so
/// that the caller can attribute the inner response to that session.
pub fn parse_raw_message_with_session(raw_message: &str) -> (r: (
    Result<IncomingMessage<IncomingMessageKind>, DecodeError>,
    Option<String>,
))
    ensures
        outcome(r.0) == classify(raw_message@),
        match r.1 {
            Some(s) => session_of(raw_message@) == Some(s@),
            None => session_of(raw_message@) is None,
        },
{
    let doc = match parse_json(raw_message) {
        Some(d) => d,
        None => return (Err(DecodeError::MalformedEnvelope(raw_message.to_owned())), None),
    };
    let event = match decode_message(doc) {
        Some(Message::Response(resp)) => {
            return (Ok(IncomingMessage::FromBrowser(IncomingMessageKind::MethodResponse(resp))), None);
        },
        Some(Message::Event(e)) => e,
        None => return (Err(DecodeError::MalformedEnvelope(raw_message.to_owned())), None),
    };
    let text = match tunnel_message(&event.params) {
        Some(t) => t.clone(),
        None => return (Ok(IncomingMessage::FromTarget(IncomingMessageKind::Event(event))), None),
    };
    let session = match string_member(&event.params, "sessionId") {
        Some(s) => Some(s.clone()),
        None => None,
    };
    let classified = match parse_json(text.as_str()) {
        Some(d) => match decode_response(d) {
            Some(resp) => Ok(IncomingMessage::FromTarget(IncomingMessageKind::MethodResponse(resp))),
            None => Err(DecodeError::MalformedTunnel(text)),
        },
        None => Err(DecodeError::MalformedTunnel(text)),
    };
    (classified, session)
}

/// A frame that reads as an object whose `id` is the call identifier `n`
/// and whose `result` is `v` is the browser's response to call `n`,
/// carrying `v` as it stands.
pub proof fn lemma_response_frame(raw: Seq<char>, doc: Json, n: CallId, v: Json)
    requires
        json_parse(raw) == Some(doc),
        member(doc, "id"@) == Some(Json::Number(JsonNumber::Unsigned(n as u64))),
        member(doc, "result"@) == Some(v),
    ensures
        classify(raw) == Ok::<_, DecodeFailure>(
            IncomingMessage::FromBrowser(IncomingMessageKind::MethodResponse(Response { call_id: n, result: v })),
        ),
{
}

/// A frame that reads as an event with method `m` and parameters `p`, and
/// not as a response, is that very event from a target when `p` has no
/// string member `message`.
pub proof fn lemma_event_frame(raw: Seq<char>, doc: Json, m: String, p: Json)
    requires
        json_parse(raw) == Some(doc),
        response_of(doc) is None,
        member(doc, "method"@) == Some(Json::Str(m)),
        member(doc, "params"@) == Some(p),
        tunnel_of(p) is None,
    ensures
        classify(raw) == Ok::<_, DecodeFailure>(
            IncomingMessage::FromTarget(IncomingMessageKind::Event(Event { method: m, params: p })),
        ),
{
}

/// An event, whatever its method, whose parameters tunnel a text that
/// reads as a response to call `n` with result `v` is the target's
/// response to call `n`, carrying `v`: both come from the inner document.
pub proof fn lemma_tunnelled_response(
    raw: Seq<char>,
    doc: Json,
    m: String,
    p: Json,
    t: Seq<char>,
    inner: Json,
    n: CallId,
    v: Json,
)
    requires
        json_parse(raw) == Some(doc),
        response_of(doc) is None,
        member(doc, "method"@) == Some(Json::Str(m)),
        member(doc, "params"@) == Some(p),
        tunnel_of(p) == Some(t),
        json_parse(t) == Some(inner),
        member(inner, "id"@) == Some(Json::Number(JsonNumber::Unsigned(n as u64))),
        member(inner, "result"@) == Some(v),
    ensures
        classify(raw) == Ok::<_, DecodeFailure>(
            IncomingMessage::FromTarget(IncomingMessageKind::MethodResponse(Response { call_id: n, result: v })),
        ),
{
}

/// Classifying the same frame twice gives the same outcome, and the very
/// same message when it succeeds.
pub proof fn lemma_classification_repeats(
    raw: Seq<char>,
    r1: Result<IncomingMessage<IncomingMessageKind>, DecodeError>,
    r2: Result<IncomingMessage<IncomingMessageKind>, DecodeError>,
)
    requires
        outcome(r1) == classify(raw),
        outcome(r2) == classify(raw),
    ensures
        outcome(r1) == outcome(r2),
        r1 is Ok ==> r1 == r2,
{
}

/// An event whose parameters tunnel a text that is not JSON fails as a
/// malformed tunnel, carrying that text.
pub proof fn lemma_tunnel_not_json(raw: Seq<char>, doc: Json, m: String, p: Json, t: Seq<char>)
    requires
        json_parse(raw) == Some(doc),
        response_of(doc) is None,
        member(doc, "method"@) == Some(Json::Str(m)),
        member(doc, "params"@) == Some(p),
        tunnel_of(p) == Some(t),
        json_parse(t) is None,
    ensures
        classify(raw) == Err::<IncomingMessage<IncomingMessageKind>, _>(DecodeFailure::MalformedTunnel(t)),
{
}

} // verus!
