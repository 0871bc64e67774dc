//! Tests of the connection manager and the shared session slot: the
//! handshake, the heartbeat-timeout reconnection cycle, failure throttling,
//! and the command path's connected/disconnected gate.

use pulse_link::bus::{Topic, Value};
use pulse_link::codec::handshake_frame;
use pulse_link::listener::{Framing, Listener, PollEvent};
use pulse_link::manager::{Manager, LOG_SUPPRESS_THRESHOLD};
use pulse_link::session::SessionSlot;

#[test]
fn no_connect_attempt_before_port_is_known() {
    let manager = Manager::new();
    let slot = SessionSlot::new();
    assert!(!manager.should_attempt_connect(&slot));

    let mut slot = SessionSlot::new();
    slot.publish_port(50_000);
    assert!(manager.should_attempt_connect(&slot));
}

#[test]
fn connect_success_places_session_after_handshake() {
    let mut manager = Manager::new();
    let mut slot = SessionSlot::new();
    slot.publish_port(0xC350);
    // The handshake frame is written before the session is placed.
    assert_eq!(handshake_frame(0xC350), vec![3u8, 0xC3, 0x50]);
    manager.on_connected(&mut slot, 0xC350);
    assert!(slot.is_connected());
    assert!(!manager.should_attempt_connect(&slot));
}

#[test]
fn timeout_clears_session_then_manager_retries() {
    // A successful handshake, then no datagrams for longer than the
    // timeout: the listener publishes disconnected and asks for teardown,
    // the session is cleared, and the manager's next poll goes back to
    // attempting a connection.
    let timeout_ms = 10_000u64;
    let mut manager = Manager::new();
    let mut slot = SessionSlot::new();
    slot.publish_port(50_000);
    manager.on_connected(&mut slot, 50_000);

    let mut listener = Listener::new(0, timeout_ms, Framing::Tagged);
    let raw = bincode::serialize(&(1u32, 0.5f32)).unwrap();
    let out = listener.poll_step(500, PollEvent::Datagram(raw));
    assert!(!out.teardown);

    // timeout + 1s after the last datum.
    let out = listener.poll_step(500 + timeout_ms + 1_000, PollEvent::Empty);
    assert!(out.teardown);
    assert_eq!(out.publishes, vec![(Topic::Connection, Value::Flag(false))]);
    slot.clear_session();
    assert!(!slot.is_connected());

    manager.poll_session(&slot);
    assert!(manager.should_attempt_connect(&slot));
}

#[test]
fn failures_are_logged_only_below_the_threshold() {
    let mut manager = Manager::new();
    // Only the first four of a run of consecutive failures log: the
    // counter is incremented first, and the failure logs while the
    // incremented count stays below the threshold of five.
    for _ in 0..LOG_SUPPRESS_THRESHOLD - 1 {
        assert!(manager.on_connect_failure());
    }
    // The fifth failure, and every later one, retries silently.
    assert!(!manager.on_connect_failure());
    assert!(!manager.on_connect_failure());

    // A success resets the counter, so the next failure logs again.
    let mut slot = SessionSlot::new();
    slot.publish_port(50_000);
    let mut manager2 = manager;
    manager2.poll_session(&slot);
    manager2.on_connected(&mut slot, 50_000);
    slot.clear_session();
    manager2.poll_session(&slot);
    assert!(manager2.on_connect_failure());
}

#[test]
fn command_while_disconnected_is_a_no_op() {
    let slot = SessionSlot::new();
    let payload = "hi".as_bytes().to_vec();
    assert_eq!(slot.command_frame(7, &payload), None);
    assert_eq!(slot.amplitude_frame(128), None);
}

#[test]
fn command_while_connected_writes_framed_bytes() {
    let mut slot = SessionSlot::new();
    slot.publish_port(50_000);
    slot.set_session();
    let payload = "hi".as_bytes().to_vec();
    assert_eq!(slot.command_frame(7, &payload), Some(vec![7u8, b'h', b'i']));
    assert_eq!(slot.amplitude_frame(128), Some(vec![2u8, 128]));
}
