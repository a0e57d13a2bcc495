//! The control plane's correlation slot and message logic: the single-slot
//! overwrite hazard, the timeout reply, and the wire framing.

use wsl_terminal::control::{
    control_event_json, control_request_line, control_request_parts, frame_line,
    reply_or_timeout,
};
use wsl_terminal::json::{jint, jstr, obj1, obj2, Json};
use wsl_terminal::json_text::to_json_string;
use wsl_terminal::slot::PendingSlot;

#[test]
fn second_request_overwrites_the_slot_and_orphans_the_first() {
    let mut slot: PendingSlot<&str> = PendingSlot::new();
    assert_eq!(slot.install("first caller"), None);
    let orphan = slot.install("second caller");
    assert_eq!(orphan, Some("first caller"));
    assert_eq!(slot.take(), Some("second caller"));
    assert_eq!(slot.take(), None);
}

#[test]
fn delivering_to_an_empty_slot_finds_nothing() {
    let mut slot: PendingSlot<u8> = PendingSlot::new();
    assert_eq!(slot.take(), None);
}

#[test]
fn a_timed_out_wait_synthesizes_the_error_reply() {
    let r = reply_or_timeout(None);
    assert_eq!(to_json_string(&r), "{\"error\":\"Timeout or no response\"}");
    let real = reply_or_timeout(Some(jstr("answer")));
    assert_eq!(to_json_string(&real), "\"answer\"");
}

#[test]
fn a_request_line_is_read_apart_with_defaults() {
    let req = obj2("action", jstr("open_tab"), "payload", obj1("shell", jstr("cmd")));
    let (action, payload) = control_request_parts(&req);
    assert_eq!(action, "open_tab");
    assert_eq!(to_json_string(&payload), "{\"shell\":\"cmd\"}");

    let bare = Json::Null;
    let (action2, payload2) = control_request_parts(&bare);
    assert_eq!(action2, "");
    assert_eq!(to_json_string(&payload2), "{}");

    let odd = obj2("action", jint(3), "payload", jstr("raw"));
    let (action3, payload3) = control_request_parts(&odd);
    assert_eq!(action3, "");
    assert_eq!(to_json_string(&payload3), "\"raw\"");
}

#[test]
fn events_and_frames_are_built_exactly() {
    let ev = control_event_json("get_state", Json::empty_obj());
    assert_eq!(to_json_string(&ev), "{\"action\":\"get_state\",\"payload\":{}}");
    assert_eq!(
        control_request_line("get_state", &Json::empty_obj()),
        "{\"action\":\"get_state\",\"payload\":{}}\n"
    );
    assert_eq!(frame_line(&jint(5)), "5\n");
}
