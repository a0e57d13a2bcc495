//! The retained-output buffer and the session registry, exercised end to
//! end: capacity eviction, lifecycle bookkeeping, and the reader pump's
//! step.

use wsl_terminal::buffer::{OutputBuffer, MAX_BUFFER_SIZE};
use wsl_terminal::pump::{event_channel, pump_chunk};
use wsl_terminal::registry::Registry;

#[test]
fn buffer_keeps_everything_while_it_fits() {
    let mut b = OutputBuffer::new();
    b.append(b"hello ");
    b.append(b"world");
    assert_eq!(b.snapshot(), b"hello world");
    assert_eq!(b.len(), 11);
}

#[test]
fn buffer_evicts_oldest_bytes_first() {
    let mut b = OutputBuffer::new();
    let mut history: Vec<u8> = Vec::new();
    for round in 0..27u8 {
        let chunk = vec![round; 4096];
        history.extend_from_slice(&chunk);
        b.append(&chunk);
    }
    assert!(history.len() > MAX_BUFFER_SIZE);
    assert_eq!(b.len(), MAX_BUFFER_SIZE);
    let expected = &history[history.len() - MAX_BUFFER_SIZE..];
    assert_eq!(b.snapshot(), expected);
}

#[test]
fn buffer_takes_the_suffix_of_one_huge_chunk() {
    let mut b = OutputBuffer::new();
    b.append(b"old data that will vanish");
    let big: Vec<u8> = (0..(MAX_BUFFER_SIZE + 5)).map(|i| (i % 251) as u8).collect();
    b.append(&big);
    assert_eq!(b.len(), MAX_BUFFER_SIZE);
    assert_eq!(b.snapshot(), &big[5..]);
}

#[test]
fn registry_holds_exactly_the_spawned_not_killed_ids() {
    let mut reg: Registry<u32> = Registry::new();
    reg.spawn(String::from("a"), 1);
    reg.spawn(String::from("b"), 2);
    reg.spawn(String::from("c"), 3);
    reg.kill("b");
    assert!(reg.contains("a"));
    assert!(!reg.contains("b"));
    assert!(reg.contains("c"));
    reg.kill("b");
    assert!(!reg.contains("b"));
    reg.kill("a");
    reg.kill("c");
    assert!(!reg.contains("a") && !reg.contains("c"));
}

#[test]
fn read_buffer_of_an_unknown_id_is_empty_not_an_error() {
    let reg: Registry<u32> = Registry::new();
    assert_eq!(reg.read_buffer("never-spawned"), Vec::<u8>::new());
}

#[test]
fn spawning_an_existing_id_replaces_its_session() {
    let mut reg: Registry<u32> = Registry::new();
    reg.spawn(String::from("t"), 1);
    reg.append_output("t", b"some output");
    reg.spawn(String::from("t"), 2);
    assert_eq!(reg.read_buffer("t"), Vec::<u8>::new());
    assert_eq!(reg.handle_mut("t").map(|h| *h), Some(2));
}

#[test]
fn writes_and_resizes_on_a_missing_id_are_silent_no_ops() {
    let mut reg: Registry<u32> = Registry::new();
    assert!(reg.handle_mut("missing").is_none());
    reg.append_output("missing", b"ignored");
    assert!(!reg.contains("missing"));
}

#[test]
fn invalid_bytes_are_replaced_not_rejected() {
    let mut reg: Registry<u32> = Registry::new();
    reg.spawn(String::from("t"), 1);
    let ev = pump_chunk(&mut reg, "t", &[0xff, b'h', b'i']);
    assert_eq!(ev.data, "\u{fffd}hi");
    assert_eq!(reg.read_buffer("t"), vec![0xff, b'h', b'i']);
}

#[test]
fn pump_publishes_and_retains_each_chunk() {
    let mut reg: Registry<u32> = Registry::new();
    reg.spawn(String::from("t1"), 7);
    let ev = pump_chunk(&mut reg, "t1", b"echo hi\r\nhi\r\n");
    assert_eq!(ev.tab_id, "t1");
    assert!(ev.data.contains("hi"));
    assert_eq!(reg.read_buffer("t1"), b"echo hi\r\nhi\r\n");
    assert_eq!(event_channel("t1"), "shell-output-t1");
    reg.kill("t1");
    assert_eq!(reg.read_buffer("t1"), Vec::<u8>::new());
    let ev2 = pump_chunk(&mut reg, "t1", b"late");
    assert_eq!(ev2.tab_id, "t1");
    assert_eq!(reg.read_buffer("t1"), Vec::<u8>::new());
}
