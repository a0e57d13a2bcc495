//! The control plane's message logic.
//!
//! A separate helper process drives the UI through a socket: one
//! newline-delimited JSON request per line, `{"action": ..., "payload":
//! ...}`, answered by one newline-delimited JSON reply.  The listener, the
//! per-connection workers and the thirty-second wait live at the process
//! edge; what stands here is everything they decide: how a request line is
//! read apart, what event reaches the UI, what reply a timed-out wait
//! synthesizes, and how request and reply are framed for the wire.

use vstd::prelude::*;

use crate::json::{spec_get, Json, JsonView};
use crate::json_text::{json_text, push_json};

verus! {

/// The action a control request names: its `action` field where that is a
/// string, the empty name otherwise.
pub open spec fn action_of(request: JsonView) -> Seq<char> {
    match spec_get(request, "action"@) {
        Some(JsonView::Str(s)) => s,
        _ => Seq::empty(),
    }
}

/// The payload a control request carries: its `payload` field whatever it
/// holds, an empty object where there is none.
pub open spec fn payload_of(request: JsonView) -> JsonView {
    match spec_get(request, "payload"@) {
        Some(p) => p,
        None => JsonView::Obj(Seq::empty()),
    }
}

/// The event a control request becomes for the UI's subscribers.
pub open spec fn control_event(action: Seq<char>, payload: JsonView) -> JsonView {
    JsonView::Obj(seq![("action"@, JsonView::Str(action)), ("payload"@, payload)])
}

/// The reply the control plane synthesizes when no answer arrived in time,
/// or the channel was dropped without one.
pub open spec fn timeout_reply() -> JsonView {
    JsonView::Obj(seq![("error"@, JsonView::Str("Timeout or no response"@))])
}

/// Reads a control request apart into the action it names and the payload it
/// carries: a missing or non-string action becomes the empty name, a missing
/// payload an empty object; nothing is rejected.
pub fn control_request_parts(request: &Json) -> (r: (String, Json))
    ensures
        r.0@ == action_of(request@),
        r.1@ == payload_of(request@),
{
    let action = match request.get("action") {
        Some(v) => match v.as_str() {
            Some(s) => s.clone(),
            None => String::new(),
        },
        None => String::new(),
    };
    let payload = match request.get("payload") {
        Some(v) => v.duplicate(),
        None => Json::empty_obj(),
    };
    (action, payload)
}

/// The event document published to the UI for a control request.
pub fn control_event_json(action: &str, payload: Json) -> (r: Json)
    ensures
        r@ == control_event(action@, payload@),
{
    crate::json::obj2("action", crate::json::jstr(action), "payload", payload)
}

/// What the connection worker answers with: the UI's reply where one arrived
/// on the channel, the synthesized timeout error where none did.
pub fn reply_or_timeout(received: Option<Json>) -> (r: Json)
    ensures
        match received {
            Some(v) => r@ == v@,
            None => r@ == timeout_reply(),
        },
{
    match received {
        Some(v) => v,
        None => crate::json::obj1("error", crate::json::jstr("Timeout or no response")),
    }
}

/// One frame of the wire protocol: the compact text of a document and the
/// newline that delimits it.
pub open spec fn framed(v: JsonView) -> Seq<char> {
    json_text(v) + seq!['\n']
}

/// A control request as the helper process puts it on the wire: the framed
/// `{"action": ..., "payload": ...}` document.
pub fn control_request_line(action: &str, payload: &Json) -> (r: String)
    ensures
        r@ == framed(
            JsonView::Obj(seq![("action"@, JsonView::Str(action@)), ("payload"@, payload@)]),
        ),
{
    let message = crate::json::obj2(
        "action",
        crate::json::jstr(action),
        "payload",
        payload.duplicate(),
    );
    frame_line(&message)
}

/// A document framed for the wire: its compact text and the delimiting
/// newline.
pub fn frame_line(v: &Json) -> (r: String)
    ensures
        r@ == framed(v@),
{
    let mut out: Vec<char> = Vec::new();
    push_json(&mut out, v);
    out.push('\n');
    let r = crate::json_text::chars_to_string(&out);
    proof {
        assert(out@ =~= json_text(v@) + seq!['\n']);
    }
    r
}

} // verus!
