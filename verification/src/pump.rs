//! The reader pump's step: what one drained chunk becomes.
//!
//! One dedicated worker per session blocks on its pty device and drains
//! fixed-size chunks; that loop, and the read call, live at the process
//! edge.  What stands here is each non-empty chunk's effect: the chunk is
//! published as an output event addressed to the session — all listeners,
//! not just one — and appended to the session's retained output with the
//! oldest bytes evicted first.  A pump that outlives its session (a kill
//! does not signal it) appends to nothing, and its events address a dead id.

use vstd::prelude::*;

use crate::buffer::retained;
use crate::registry::Registry;

verus! {

/// What the lossy UTF-8 decoding of a byte chunk reads; it depends on the
/// bytes alone.  Invalid sequences are replaced, never rejected.
pub uninterp spec fn utf8_lossy(bytes: Seq<u8>) -> Seq<char>;

/// Relies on `String::from_utf8_lossy`: the decoding is a function of the
/// bytes alone, and no bytes decode to no text.
#[verifier::external_body]
fn utf8_lossy_string(bytes: &[u8]) -> (r: String)
    ensures
        r@ == utf8_lossy(bytes@),
        bytes@.len() == 0 ==> r@.len() == 0,
{
    String::from_utf8_lossy(bytes).to_string()
}

/// One output event: the session it is addressed to and the decoded text of
/// the drained chunk.
pub struct OutputEvent {
    pub tab_id: String,
    pub data: String,
}

/// The name of the broadcast channel that carries a session's output.
pub fn event_channel(tab_id: &str) -> (r: String)
    ensures
        r@ == "shell-output-"@ + tab_id@,
{
    let mut out = String::from_str("shell-output-");
    out.append(tab_id);
    out
}

/// One step of the reader pump, for a non-empty chunk drained from the
/// session's device: the chunk joins the session's retained output — with
/// the oldest bytes evicted first, and silently nowhere when the session
/// was killed meanwhile — and comes back as the output event to broadcast.
pub fn pump_chunk<H>(registry: &mut Registry<H>, tab_id: &str, chunk: &[u8]) -> (ev: OutputEvent)
    requires
        old(registry).wf(),
    ensures
        final(registry).wf(),
        old(registry)@.contains_key(tab_id@) ==> final(registry)@ == old(registry)@.insert(
            tab_id@,
            retained(old(registry)@[tab_id@] + chunk@),
        ),
        !old(registry)@.contains_key(tab_id@) ==> final(registry)@ == old(registry)@,
        ev.tab_id@ == tab_id@,
        ev.data@ == utf8_lossy(chunk@),
{
    let data = utf8_lossy_string(chunk);
    registry.append_output(tab_id, chunk);
    OutputEvent { tab_id: String::from_str(tab_id), data }
}

} // verus!
