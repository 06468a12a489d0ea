//! Scenario tests for the subscription multiplexer: the dispatcher,
//! table, and registry working together, driven the way the
//! surrounding process drives them, with a fake network collaborator
//! granting identifiers and counting calls.
use netidx_bridge::channel::Command;
use netidx_bridge::dispatcher::{CommandOutcome, Delivery, DispatcherState, Subscriber};
use netidx_bridge::value::{Event, Value};

/// A fake external collaborator: grants fresh subscription ids and
/// handle tokens, and counts how often it is asked.
struct FakeNet {
    next_id: u64,
    next_handle: u64,
    subscribe_calls: u64,
    released: Vec<u64>,
}

impl FakeNet {
    fn new() -> FakeNet {
        FakeNet { next_id: 1, next_handle: 100, subscribe_calls: 0, released: Vec::new() }
    }

    fn grant(&mut self) -> (u64, u64) {
        self.subscribe_calls += 1;
        let id = self.next_id;
        let handle = self.next_handle;
        self.next_id += 1;
        self.next_handle += 100;
        (id, handle)
    }

    fn release(&mut self, handle: u64) {
        self.released.push(handle);
    }
}

/// Drive one subscribe command the way the dispatcher loop does:
/// ask the dispatcher first, call the collaborator only when needed.
fn drive_subscribe(sub: &mut Subscriber, net: &mut FakeNet, path: &str) -> u64 {
    match sub.on_command(Command::Subscribe { path: path.to_string() }) {
        CommandOutcome::AlreadySubscribed(id) => id,
        CommandOutcome::NeedsExternal(p) => {
            let (id, handle) = net.grant();
            let (got, surplus) = sub.subscribe(p, id, handle);
            if let Some(h) = surplus {
                net.release(h);
            }
            got
        }
        _ => unreachable!(),
    }
}

fn update(v: u32) -> Event {
    Event::Update(Value::U32(v))
}

#[test]
fn update_delivered_only_for_live_ids() {
    let mut net = FakeNet::new();
    let mut sub = Subscriber::new();
    let a = drive_subscribe(&mut sub, &mut net, "/a");
    let b = drive_subscribe(&mut sub, &mut net, "/b");
    sub.register_callback(a, 11);
    sub.register_callback(b, 22);
    if let Some(h) = sub.unsubscribe(b) {
        net.release(h);
    }
    // b is gone, 77 was never subscribed: only a's event is delivered.
    let out = sub.on_batch(vec![(a, update(1)), (b, update(2)), (77, update(3))]);
    assert_eq!(out.len(), 1);
    assert_eq!(out[0].id, a);
    assert_eq!(out[0].callbacks, vec![11]);
    assert_eq!(out[0].event, update(1));
}

#[test]
fn single_update_fans_out_to_all_callbacks() {
    let mut net = FakeNet::new();
    let mut sub = Subscriber::new();
    let a = drive_subscribe(&mut sub, &mut net, "/a");
    sub.register_callback(a, 101);
    sub.register_callback(a, 102);
    sub.register_callback(a, 103);
    let out = sub.on_batch(vec![(a, update(7))]);
    // one group, three invocations, registration order, same value
    assert_eq!(out.len(), 1);
    assert_eq!(out[0].callbacks, vec![101, 102, 103]);
    assert_eq!(out[0].event, Event::Update(Value::U32(7)));
}

#[test]
fn unsubscribe_twice_is_noop() {
    let mut net = FakeNet::new();
    let mut sub = Subscriber::new();
    let a = drive_subscribe(&mut sub, &mut net, "/a");
    let first = sub.unsubscribe(a);
    assert!(first.is_some());
    let second = sub.unsubscribe(a);
    assert!(second.is_none());
    assert_eq!(sub.live_subscriptions(), 0);
}

#[test]
fn resubscribe_same_path_reuses_id() {
    let mut net = FakeNet::new();
    let mut sub = Subscriber::new();
    let first = drive_subscribe(&mut sub, &mut net, "/a/b");
    let second = drive_subscribe(&mut sub, &mut net, "/a/b");
    assert_eq!(first, second);
    assert_eq!(net.subscribe_calls, 1);
    assert_eq!(sub.live_subscriptions(), 1);
}

#[test]
fn surplus_grant_is_handed_back_for_release() {
    let mut net = FakeNet::new();
    let mut sub = Subscriber::new();
    let first = drive_subscribe(&mut sub, &mut net, "/a");
    // A racing grant for an already-live path: nothing is inserted and
    // the surplus handle comes back so it can be released.
    let (id, handle) = net.grant();
    let (got, surplus) = sub.subscribe("/a".to_string(), id, handle);
    assert_eq!(got, first);
    assert_eq!(surplus, Some(handle));
    assert_eq!(sub.live_subscriptions(), 1);
}

#[test]
fn batch_order_and_registration_order_are_preserved() {
    let mut net = FakeNet::new();
    let mut sub = Subscriber::new();
    let one = drive_subscribe(&mut sub, &mut net, "/one");
    let two = drive_subscribe(&mut sub, &mut net, "/two");
    sub.register_callback(one, 11);
    sub.register_callback(two, 22);
    let a = update(0xA);
    let b = update(0xB);
    let c = update(0xC);
    let out = sub.on_batch(vec![(one, a), (one, b), (two, c)]);
    assert_eq!(out.len(), 3);
    // id=1's callback observes A before B; id=2's callback observes C;
    // relative order matches batch order.
    assert_eq!(out[0].id, one);
    assert_eq!(out[0].event, update(0xA));
    assert_eq!(out[1].id, one);
    assert_eq!(out[1].event, update(0xB));
    assert_eq!(out[2].id, two);
    assert_eq!(out[2].event, update(0xC));
    assert_eq!(out[0].callbacks, vec![11]);
    assert_eq!(out[2].callbacks, vec![22]);
}

#[test]
fn teardown_releases_every_handle_and_silences_delivery() {
    let mut net = FakeNet::new();
    let mut sub = Subscriber::new();
    let a = drive_subscribe(&mut sub, &mut net, "/a");
    let _b = drive_subscribe(&mut sub, &mut net, "/b");
    let _c = drive_subscribe(&mut sub, &mut net, "/c");
    sub.register_callback(a, 11);
    let handles = sub.teardown();
    for h in handles {
        net.release(h);
    }
    // exactly three external releases, one per live subscription
    assert_eq!(net.released.len(), 3);
    assert_eq!(net.released, vec![100, 200, 300]);
    // and zero callback invocations after the drop completed
    let out = sub.on_batch(vec![(a, update(1))]);
    assert!(out.is_empty());
    assert!(matches!(sub.state(), DispatcherState::Stopped));
}

#[test]
fn unsubscribed_event_notifies_then_purges() {
    let mut net = FakeNet::new();
    let mut sub = Subscriber::new();
    net.next_id = 5;
    let five = drive_subscribe(&mut sub, &mut net, "/x");
    assert_eq!(five, 5);
    sub.register_callback(five, 9);
    let out = sub.on_batch(vec![(five, Event::Unsubscribed)]);
    // exactly one Unsubscribed notification to the registered callback
    assert_eq!(out.len(), 1);
    assert_eq!(out[0].id, 5);
    assert_eq!(out[0].callbacks, vec![9]);
    assert_eq!(out[0].event, Event::Unsubscribed);
    // the id is purged: a later update for it (a race) is silently ignored
    let out = sub.on_batch(vec![(five, update(1))]);
    assert!(out.is_empty());
    assert_eq!(sub.subscribed_id(&"/x".to_string()), None);
    assert_eq!(sub.live_subscriptions(), 0);
}

#[test]
fn unsubscribed_and_update_in_one_batch() {
    let mut net = FakeNet::new();
    let mut sub = Subscriber::new();
    let a = drive_subscribe(&mut sub, &mut net, "/a");
    sub.register_callback(a, 9);
    // the teardown and the racing update arrive in the same batch
    let out = sub.on_batch(vec![(a, Event::Unsubscribed), (a, update(3))]);
    assert_eq!(out.len(), 1);
    assert_eq!(out[0].event, Event::Unsubscribed);
}

#[test]
fn registration_before_subscribe_is_inert_until_live() {
    let mut net = FakeNet::new();
    let mut sub = Subscriber::new();
    // register against an id that is not yet live: retained, not dropped
    sub.register_callback(1, 77);
    let out = sub.on_batch(vec![(1, update(4))]);
    assert!(out.is_empty());
    // once the id becomes live the retained registration starts firing
    let a = drive_subscribe(&mut sub, &mut net, "/late");
    assert_eq!(a, 1);
    let out = sub.on_batch(vec![(1, update(4))]);
    assert_eq!(out.len(), 1);
    assert_eq!(out[0].callbacks, vec![77]);
}

#[test]
fn unregister_prunes_and_reports() {
    let mut net = FakeNet::new();
    let mut sub = Subscriber::new();
    let a = drive_subscribe(&mut sub, &mut net, "/a");
    let cb1 = sub.register_callback(a, 11);
    let cb2 = sub.register_callback(a, 12);
    assert_ne!(cb1, cb2);
    assert!(sub.unregister_callback(a, cb1));
    let out = sub.on_batch(vec![(a, update(1))]);
    assert_eq!(out[0].callbacks, vec![12]);
    assert!(sub.unregister_callback(a, cb2));
    // the set became empty and was pruned: no deliveries, and a second
    // unregister of the same callback finds nothing
    let out = sub.on_batch(vec![(a, update(2))]);
    assert!(out.is_empty());
    assert!(!sub.unregister_callback(a, cb2));
}

#[test]
fn commands_register_and_unregister() {
    let mut net = FakeNet::new();
    let mut sub = Subscriber::new();
    let a = drive_subscribe(&mut sub, &mut net, "/a");
    let cb = match sub.on_command(Command::Register { id: a, callback: 31 }) {
        CommandOutcome::Registered(cb) => cb,
        _ => unreachable!(),
    };
    match sub.on_command(Command::Unregister { id: a, callback_id: cb }) {
        CommandOutcome::Unregistered(removed) => assert!(removed),
        _ => unreachable!(),
    }
    match sub.on_command(Command::Unsubscribe { id: a }) {
        CommandOutcome::Unsubscribed(h) => {
            net.release(h.expect("the id was live"));
        }
        _ => unreachable!(),
    }
    match sub.on_command(Command::Unsubscribe { id: a }) {
        CommandOutcome::Unsubscribed(h) => assert!(h.is_none()),
        _ => unreachable!(),
    }
}

#[test]
fn path_of_annotates_events() {
    let mut net = FakeNet::new();
    let mut sub = Subscriber::new();
    let a = drive_subscribe(&mut sub, &mut net, "/some/path");
    assert_eq!(sub.path_of(a), Some("/some/path".to_string()));
    assert_eq!(sub.path_of(a + 1), None);
}

#[test]
fn draining_still_delivers_then_stops() {
    let mut net = FakeNet::new();
    let mut sub = Subscriber::new();
    let a = drive_subscribe(&mut sub, &mut net, "/a");
    sub.register_callback(a, 11);
    assert!(matches!(sub.state(), DispatcherState::Running));
    sub.on_updates_closed();
    assert!(matches!(sub.state(), DispatcherState::Draining));
    // buffered batches are still delivered while draining
    let out = sub.on_batch(vec![(a, update(1))]);
    assert_eq!(out.len(), 1);
    sub.on_updates_closed();
    assert!(matches!(sub.state(), DispatcherState::Draining));
    let handles = sub.teardown();
    assert_eq!(handles.len(), 1);
    assert!(matches!(sub.state(), DispatcherState::Stopped));
}

#[test]
fn delivery_groups_expose_their_parts() {
    let d = Delivery { id: 3, callbacks: vec![1, 2], event: Event::Unsubscribed };
    assert_eq!(d.id, 3);
    assert_eq!(d.callbacks.len(), 2);
    assert_eq!(d.event, Event::Unsubscribed);
}
