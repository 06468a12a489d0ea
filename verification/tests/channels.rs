//! Tests for the bounded update channel, the unbounded command
//! channel, and the callback bridge: ordering, backpressure, and
//! closure semantics.
use netidx_bridge::bridge::{
    BridgeCall, CallMode, CallOutcome, CallbackBridge, ErrorDisposition, error_disposition,
};
use netidx_bridge::channel::{Command, CommandChannel, RecvOutcome, SendOutcome, UpdateChannel};
use netidx_bridge::value::{Event, Value};

fn batch(v: u32) -> Vec<(u64, Event)> {
    vec![(1, Event::Update(Value::U32(v)))]
}

#[test]
fn update_channel_fills_to_capacity_and_blocks() {
    let mut ch = UpdateChannel::new(3);
    assert!(matches!(ch.try_send(batch(1)), SendOutcome::Sent));
    assert!(matches!(ch.try_send(batch(2)), SendOutcome::Sent));
    assert!(matches!(ch.try_send(batch(3)), SendOutcome::Sent));
    // the channel is full: the producer observes Full and gets the
    // batch back unchanged — nothing is dropped, nothing grows
    assert_eq!(ch.len(), ch.capacity());
    match ch.try_send(batch(4)) {
        SendOutcome::Full(b) => assert_eq!(b, batch(4)),
        _ => panic!("a full channel must refuse the batch"),
    }
    assert_eq!(ch.len(), 3);
    // draining one slot lets the producer proceed again
    assert!(matches!(ch.recv(), RecvOutcome::Item(_)));
    assert!(matches!(ch.try_send(batch(4)), SendOutcome::Sent));
}

#[test]
fn update_channel_preserves_order() {
    let mut ch = UpdateChannel::new(4);
    ch.try_send(batch(1));
    ch.try_send(batch(2));
    match ch.recv() {
        RecvOutcome::Item(b) => assert_eq!(b, batch(1)),
        _ => panic!("expected the first batch"),
    }
    match ch.recv() {
        RecvOutcome::Item(b) => assert_eq!(b, batch(2)),
        _ => panic!("expected the second batch"),
    }
    assert!(matches!(ch.recv(), RecvOutcome::Empty));
}

#[test]
fn update_channel_close_drains_then_disconnects() {
    let mut ch = UpdateChannel::new(2);
    ch.try_send(batch(1));
    ch.close();
    // closed: new sends bounce back, queued batches still drain
    match ch.try_send(batch(2)) {
        SendOutcome::Disconnected(b) => assert_eq!(b, batch(2)),
        _ => panic!("a closed channel must refuse the batch"),
    }
    assert!(matches!(ch.recv(), RecvOutcome::Item(_)));
    assert!(matches!(ch.recv(), RecvOutcome::Disconnected));
}

#[test]
fn command_channel_keeps_every_command_in_order() {
    let mut ch = CommandChannel::new();
    assert!(ch.send(Command::Subscribe { path: "/a".to_string() }).is_none());
    assert!(ch.send(Command::Unsubscribe { id: 1 }).is_none());
    assert_eq!(ch.len(), 2);
    match ch.recv() {
        RecvOutcome::Item(Command::Subscribe { path }) => assert_eq!(path, "/a"),
        _ => panic!("expected the subscribe first"),
    }
    match ch.recv() {
        RecvOutcome::Item(Command::Unsubscribe { id }) => assert_eq!(id, 1),
        _ => panic!("expected the unsubscribe second"),
    }
    assert!(matches!(ch.recv(), RecvOutcome::Empty));
    ch.close();
    match ch.send(Command::Unsubscribe { id: 2 }) {
        Some(Command::Unsubscribe { id }) => assert_eq!(id, 2),
        _ => panic!("a closed channel must hand the command back"),
    }
    assert!(matches!(ch.recv(), RecvOutcome::Disconnected));
}

#[test]
fn bridge_blocks_when_host_never_drains() {
    let mut bridge = CallbackBridge::new(1);
    let call = BridgeCall { callback: 7, events: batch(1) };
    assert!(matches!(bridge.try_call(call), CallOutcome::Accepted));
    // the host side never drains: the next call does not go through
    // and comes back intact, so the dispatcher blocks instead of
    // dropping it
    let call = BridgeCall { callback: 7, events: batch(2) };
    match bridge.try_call(call) {
        CallOutcome::WouldBlock(c) => {
            assert_eq!(c.callback, 7);
            assert_eq!(c.events, batch(2));
        }
        _ => panic!("a full mailbox must refuse the call"),
    }
    assert_eq!(bridge.len(), 1);
    // once the host pumps, the dispatcher can proceed
    let pumped = bridge.pump().expect("one call was pending");
    assert_eq!(pumped.events, batch(1));
    let call = BridgeCall { callback: 7, events: batch(2) };
    assert!(matches!(bridge.try_call(call), CallOutcome::Accepted));
    assert!(bridge.pump().is_some());
    assert!(bridge.pump().is_none());
}

#[test]
fn callback_failure_policy() {
    // recoverable with a sink: report and continue
    assert_eq!(error_disposition(CallMode::Recoverable, true), ErrorDisposition::Report);
    // no sink configured: the failure is fatal
    assert_eq!(error_disposition(CallMode::Recoverable, false), ErrorDisposition::Abort);
    // fatal mode is fatal regardless of the sink
    assert_eq!(error_disposition(CallMode::Fatal, true), ErrorDisposition::Abort);
    assert_eq!(error_disposition(CallMode::Fatal, false), ErrorDisposition::Abort);
}
