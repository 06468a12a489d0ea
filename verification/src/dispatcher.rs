//! The dispatcher: the single logical owner of the subscription table
//! and the callback registry.
//!
//! It applies control commands, and redistributes each batched event to
//! the callbacks registered for its subscription, in the exact order
//! the network layer produced the events and the callbacks were
//! registered.  A server-initiated `Unsubscribed` event is delivered to
//! the currently registered callbacks (so they observe their own
//! teardown) and then purges both the table entry and the registry
//! entry, after which later updates for that identifier are silently
//! ignored.
//!
//! The dispatcher never performs the external subscribe call itself:
//! when a command needs one it hands the path back to the caller, which
//! performs the call and feeds the granted identifier and handle token
//! back in.  This keeps every decision in verified code while the
//! network client stays outside it.
use vstd::prelude::*;
use crate::channel::Batch;
use crate::channel::Command;
use crate::registry::CallbackRegistry;
use crate::registry::RegModel;
use crate::registry::reg_cbs;
use crate::registry::reg_handles;
use crate::registry::reg_has;
use crate::registry::reg_ids_unique;
use crate::registry::reg_idx;
use crate::registry::reg_purge;
use crate::registry::reg_unregister;
use crate::registry::reg_wf;
use crate::registry::cbs_has;
use crate::table::SubscriptionTable;
use crate::table::TableModel;
use crate::table::table_handles;
use crate::table::table_has_id;
use crate::table::table_has_path;
use crate::table::table_idx;
use crate::table::table_pidx;
use crate::table::table_unsub;
use crate::table::table_wf;
use crate::value::Event;
use crate::value::Value;

verus! {

/// The dispatcher's control state.  It runs while updates flow, drains
/// buffered batches once the producer side has shut down, and stops
/// when nothing more can arrive.
#[derive(Clone, Copy, Debug, PartialEq, Eq, Structural)]
pub enum DispatcherState {
    Running,
    Draining,
    Stopped,
}

/// One fan-out group: one event for one subscription, together with
/// the host callback tokens that must receive it, in registration
/// order.
pub struct Delivery {
    pub id: u64,
    pub callbacks: Vec<u64>,
    pub event: Event,
}

/// The mathematical shape of a fan-out group.
pub struct DeliveryModel {
    pub id: u64,
    pub callbacks: Seq<u64>,
    pub event: Event,
}

impl View for Delivery {
    type V = DeliveryModel;

    open spec fn view(&self) -> DeliveryModel {
        DeliveryModel { id: self.id, callbacks: self.callbacks@, event: self.event }
    }
}

/// Dispatching one `(id, event)` pair: an event for an identifier with
/// no live table entry is ignored; otherwise it is fanned out to the
/// callbacks currently registered for the identifier (one group, in
/// registration order — none if no callback is registered), and an
/// `Unsubscribed` event then atomically purges the table entry and the
/// registry entry.
pub open spec fn step_model(t: TableModel, r: RegModel, id: u64, ev: Event) -> (
    TableModel,
    RegModel,
    Seq<DeliveryModel>,
) {
    if !table_has_id(t, id) {
        (t, r, Seq::<DeliveryModel>::empty())
    } else {
        let ds = if reg_has(r, id) {
            seq![DeliveryModel { id, callbacks: reg_handles(r, id), event: ev }]
        } else {
            Seq::<DeliveryModel>::empty()
        };
        match ev {
            Event::Unsubscribed => (t.remove(table_idx(t, id)), reg_purge(r, id), ds),
            Event::Update(_) => (t, r, ds),
        }
    }
}

/// Dispatching a whole batch, item by item in the order received,
/// threading the table and registry through each step and
/// concatenating the fan-out groups in order.
pub open spec fn dispatch_model(t: TableModel, r: RegModel, batch: Seq<(u64, Event)>) -> (
    TableModel,
    RegModel,
    Seq<DeliveryModel>,
)
    decreases batch.len(),
{
    if batch.len() == 0 {
        (t, r, Seq::<DeliveryModel>::empty())
    } else {
        let s = step_model(t, r, batch[0].0, batch[0].1);
        let rest = dispatch_model(s.0, s.1, batch.skip(1));
        (rest.0, rest.1, s.2 + rest.2)
    }
}

/// What the dispatcher decided about one control command.  A subscribe
/// for a path without a live entry cannot be completed here: the
/// external collaborator must grant an identifier and handle first, so
/// the path is handed back and the caller completes the subscription
/// with [`Subscriber::subscribe`].
pub enum CommandOutcome {
    /// The path already has a live subscription; no external call is
    /// made, the existing identifier is reused.
    AlreadySubscribed(u64),
    /// The caller must request an external subscription for this path,
    /// then feed the grant back in.
    NeedsExternal(String),
    /// The callback was registered under this fresh callback id.
    Registered(u64),
    /// Whether an unregister found and removed a registration.
    Unregistered(bool),
    /// The handle token to release, if the identifier was live.
    /// Unsubscribing an unknown identifier is a no-op, not an error.
    Unsubscribed(Option<u64>),
}

/// The subscription multiplexer: the dispatcher-owned state that maps
/// live subscriptions to callbacks and fans batched events out to
/// them.
pub struct Subscriber {
    table: SubscriptionTable,
    registry: CallbackRegistry,
    state: DispatcherState,
}

impl Subscriber {
    /// The table model: one `(id, path, handle)` triple per live
    /// subscription.
    pub closed spec fn table_model(&self) -> TableModel {
        self.table@
    }

    /// The registry model: per-subscription callback lists in
    /// registration order.
    pub closed spec fn reg_model(&self) -> RegModel {
        self.registry@
    }

    /// The control state.
    pub closed spec fn state_spec(&self) -> DispatcherState {
        self.state
    }

    /// The next callback identifier the registry will allocate.
    pub closed spec fn next_cb(&self) -> u64 {
        self.registry.next()
    }

    /// The multiplexer's invariant: both columns of the table are
    /// unique, and the registry is well formed against its counter.
    pub open spec fn wf(&self) -> bool {
        table_wf(self.table_model()) && reg_wf(self.reg_model(), self.next_cb())
    }

    /// A fresh multiplexer with no subscriptions and no callbacks.
    pub fn new() -> (s: Self)
        ensures
            s.wf(),
            s.table_model() =~= Seq::<(u64, Seq<char>, u64)>::empty(),
            s.reg_model() =~= Seq::<(u64, Seq<(u64, u64)>)>::empty(),
            s.state_spec() == DispatcherState::Running,
            s.next_cb() == 0,
    {
        Subscriber {
            table: SubscriptionTable::new(),
            registry: CallbackRegistry::new(),
            state: DispatcherState::Running,
        }
    }

    /// The current control state.
    pub fn state(&self) -> (s: DispatcherState)
        ensures
            s == self.state_spec(),
    {
        self.state
    }

    /// The next callback identifier the registry will allocate: lets a
    /// driver check that the counter has room before it registers.
    pub fn next_callback_id(&self) -> (n: u64)
        ensures
            n == self.next_cb(),
    {
        self.registry.next_id()
    }

    /// The number of live subscriptions.
    pub fn live_subscriptions(&self) -> (n: usize)
        ensures
            n == self.table_model().len(),
    {
        self.table.len()
    }

    /// The identifier of the live subscription for `path`, if any: the
    /// check a driver makes before requesting an external subscribe,
    /// so that an existing entry is reused instead of duplicated.
    pub fn subscribed_id(&self, path: &String) -> (r: Option<u64>)
        requires
            self.wf(),
        ensures
            match r {
                Some(id) => table_has_path(self.table_model(), path@)
                    && self.table_model()[table_pidx(self.table_model(), path@)].0 == id,
                None => !table_has_path(self.table_model(), path@),
            },
    {
        self.table.id_of(path)
    }

    /// The path of the live subscription `id`, if any: used to annotate
    /// delivered events with the path they belong to.
    pub fn path_of(&self, id: u64) -> (r: Option<String>)
        requires
            self.wf(),
        ensures
            match r {
                Some(p) => table_has_id(self.table_model(), id)
                    && p@ == self.table_model()[table_idx(self.table_model(), id)].1,
                None => !table_has_id(self.table_model(), id),
            },
    {
        self.table.path_of(id)
    }

    /// Record a subscription.  `id` and `handle` are the identifier and
    /// handle token granted by the external collaborator; the
    /// collaborator never reuses a live identifier, which is what the
    /// precondition states.
    ///
    /// Subscribing is idempotent per path: when the path already has a
    /// live entry, the existing identifier is returned, nothing is
    /// inserted, and the surplus grant's handle token comes back in the
    /// second component so the caller can release it — no handle leaks
    /// and no duplicate live subscription is ever created.
    pub fn subscribe(&mut self, path: String, id: u64, handle: u64) -> (r: (u64, Option<u64>))
        requires
            old(self).wf(),
            !table_has_id(old(self).table_model(), id),
        ensures
            final(self).wf(),
            final(self).reg_model() == old(self).reg_model(),
            final(self).state_spec() == old(self).state_spec(),
            final(self).next_cb() == old(self).next_cb(),
            table_has_path(old(self).table_model(), path@) ==> r.0 == old(self).table_model()[
                table_pidx(old(self).table_model(), path@)
            ].0 && r.1 == Some(handle) && final(self).table_model() == old(self).table_model(),
            !table_has_path(old(self).table_model(), path@) ==> r.0 == id && r.1 is None
                && final(self).table_model() =~= old(self).table_model().push((id, path@, handle)),
    {
        match self.table.id_of(&path) {
            Some(existing) => (existing, Some(handle)),
            None => {
                self.table.insert(path, id, handle);
                (id, None)
            },
        }
    }

    /// Drop the subscription `id`.  If it was live, its entry is
    /// removed and its handle token returned so the caller can release
    /// the external handle; an unknown identifier is a no-op, not an
    /// error, so unsubscribing twice behaves exactly like unsubscribing
    /// once.  Registered callbacks are left in place and become inert:
    /// delivery is gated by the table.  Unsubscribing is best-effort
    /// with respect to the network side: events for the identifier
    /// that are already queued when this returns are ignored at
    /// dispatch rather than delivered.
    pub fn unsubscribe(&mut self, id: u64) -> (r: Option<u64>)
        requires
            old(self).wf(),
        ensures
            final(self).wf(),
            final(self).reg_model() == old(self).reg_model(),
            final(self).state_spec() == old(self).state_spec(),
            final(self).next_cb() == old(self).next_cb(),
            final(self).table_model() =~= table_unsub(old(self).table_model(), id),
            !table_has_id(final(self).table_model(), id),
            match r {
                Some(h) => table_has_id(old(self).table_model(), id)
                    && h == old(self).table_model()[table_idx(old(self).table_model(), id)].2,
                None => !table_has_id(old(self).table_model(), id)
                    && final(self).table_model() == old(self).table_model(),
            },
    {
        self.table.remove(id)
    }

    /// Register a host callback for a subscription identifier; returns
    /// the fresh callback identifier.  A registration against an
    /// identifier that is not (or not yet) live is retained but inert
    /// until the identifier becomes live — it is never silently
    /// dropped.
    pub fn register_callback(&mut self, id: u64, callback: u64) -> (cb: u64)
        requires
            old(self).wf(),
            old(self).next_cb() < u64::MAX,
        ensures
            final(self).wf(),
            final(self).table_model() == old(self).table_model(),
            final(self).state_spec() == old(self).state_spec(),
            cb == old(self).next_cb(),
            final(self).next_cb() == old(self).next_cb() + 1,
            final(self).reg_model() =~~= if reg_has(old(self).reg_model(), id) {
                old(self).reg_model().update(
                    reg_idx(old(self).reg_model(), id),
                    (id, reg_cbs(old(self).reg_model(), id).push((cb, callback))),
                )
            } else {
                old(self).reg_model().push((id, seq![(cb, callback)]))
            },
    {
        self.registry.register(id, callback)
    }

    /// Remove one callback registration.  When its subscription's set
    /// becomes empty the whole entry is pruned.  Returns whether a
    /// registration was removed.
    pub fn unregister_callback(&mut self, id: u64, callback_id: u64) -> (removed: bool)
        requires
            old(self).wf(),
        ensures
            final(self).wf(),
            final(self).table_model() == old(self).table_model(),
            final(self).state_spec() == old(self).state_spec(),
            final(self).next_cb() == old(self).next_cb(),
            final(self).reg_model() =~~= reg_unregister(old(self).reg_model(), id, callback_id),
            removed == (reg_has(old(self).reg_model(), id) && cbs_has(
                reg_cbs(old(self).reg_model(), id),
                callback_id,
            )),
    {
        self.registry.unregister(id, callback_id)
    }

    /// Apply one control command.  Subscribes that need an external
    /// grant are handed back as [`CommandOutcome::NeedsExternal`]; all
    /// other commands are applied here.
    pub fn on_command(&mut self, cmd: Command) -> (r: CommandOutcome)
        requires
            old(self).wf(),
            cmd matches Command::Register { .. } ==> old(self).next_cb() < u64::MAX,
        ensures
            final(self).wf(),
            final(self).state_spec() == old(self).state_spec(),
            match cmd {
                Command::Subscribe { path } => (match r {
                    CommandOutcome::AlreadySubscribed(id) => table_has_path(
                        old(self).table_model(),
                        path@,
                    ) && old(self).table_model()[table_pidx(old(self).table_model(), path@)].0
                        == id && final(self).table_model() == old(self).table_model()
                        && final(self).reg_model() == old(self).reg_model()
                        && final(self).next_cb() == old(self).next_cb(),
                    CommandOutcome::NeedsExternal(p) => !table_has_path(
                        old(self).table_model(),
                        path@,
                    ) && p == path && final(self).table_model() == old(self).table_model()
                        && final(self).reg_model() == old(self).reg_model()
                        && final(self).next_cb() == old(self).next_cb(),
                    _ => false,
                }),
                Command::Unsubscribe { id } => (match r {
                    CommandOutcome::Unsubscribed(h) => final(self).table_model() =~= table_unsub(
                        old(self).table_model(),
                        id,
                    ) && final(self).reg_model() == old(self).reg_model()
                        && final(self).next_cb() == old(self).next_cb() && (match h {
                        Some(hh) => table_has_id(old(self).table_model(), id)
                            && hh == old(self).table_model()[
                            table_idx(old(self).table_model(), id)
                        ].2,
                        None => !table_has_id(old(self).table_model(), id),
                    }),
                    _ => false,
                }),
                Command::Register { id, callback } => (match r {
                    CommandOutcome::Registered(cb) => cb == old(self).next_cb()
                        && final(self).next_cb() == old(self).next_cb() + 1
                        && final(self).table_model() == old(self).table_model()
                        && final(self).reg_model() =~~= (if reg_has(old(self).reg_model(), id) {
                        old(self).reg_model().update(
                            reg_idx(old(self).reg_model(), id),
                            (id, reg_cbs(old(self).reg_model(), id).push((cb, callback))),
                        )
                    } else {
                        old(self).reg_model().push((id, seq![(cb, callback)]))
                    }),
                    _ => false,
                }),
                Command::Unregister { id, callback_id } => (match r {
                    CommandOutcome::Unregistered(removed) => final(self).table_model()
                        == old(self).table_model()
                        && final(self).next_cb() == old(self).next_cb()
                        && final(self).reg_model() =~~= reg_unregister(
                        old(self).reg_model(),
                        id,
                        callback_id,
                    ) && removed == (reg_has(old(self).reg_model(), id) && cbs_has(
                        reg_cbs(old(self).reg_model(), id),
                        callback_id,
                    )),
                    _ => false,
                }),
            },
    {
        match cmd {
            Command::Subscribe { path } => {
                match self.table.id_of(&path) {
                    Some(existing) => CommandOutcome::AlreadySubscribed(existing),
                    None => CommandOutcome::NeedsExternal(path),
                }
            },
            Command::Unsubscribe { id } => CommandOutcome::Unsubscribed(self.unsubscribe(id)),
            Command::Register { id, callback } => CommandOutcome::Registered(
                self.register_callback(id, callback),
            ),
            Command::Unregister { id, callback_id } => CommandOutcome::Unregistered(
                self.unregister_callback(id, callback_id),
            ),
        }
    }

    /// Dispatch one batch: fan every event out to the callbacks
    /// registered for its subscription, exactly as [`dispatch_model`]
    /// says — events in batch order, callbacks in registration order,
    /// unknown identifiers ignored, `Unsubscribed` purging its
    /// identifier after delivery.  A stopped dispatcher delivers
    /// nothing and changes nothing.
    pub fn on_batch(&mut self, batch: Batch) -> (out: Vec<Delivery>)
        requires
            old(self).wf(),
        ensures
            final(self).wf(),
            final(self).state_spec() == old(self).state_spec(),
            final(self).next_cb() == old(self).next_cb(),
            old(self).state_spec() == DispatcherState::Stopped ==> out@.len() == 0
                && final(self).table_model() == old(self).table_model()
                && final(self).reg_model() == old(self).reg_model(),
            old(self).state_spec() != DispatcherState::Stopped ==> ({
                let m = dispatch_model(old(self).table_model(), old(self).reg_model(), batch@);
                final(self).table_model() =~~= m.0 && final(self).reg_model() =~~= m.1 && out@
                    .map_values(|d: Delivery| d@) =~~= m.2
            }),
    {
        let mut out: Vec<Delivery> = Vec::new();
        if matches!(self.state, DispatcherState::Stopped) {
            return out;
        }
        let mut batch = batch;
        let ghost t0 = self.table_model();
        let ghost r0 = self.reg_model();
        let ghost orig = batch@;
        proof {
            assert(Seq::<DeliveryModel>::empty() + dispatch_model(t0, r0, orig).2 =~= dispatch_model(
                t0,
                r0,
                orig,
            ).2);
            assert(out@.map_values(|d: Delivery| d@) =~= Seq::<DeliveryModel>::empty());
        }
        while batch.len() > 0
            invariant
                self.wf(),
                self.state_spec() == old(self).state_spec(),
                self.next_cb() == old(self).next_cb(),
                ({
                    let m = dispatch_model(self.table_model(), self.reg_model(), batch@);
                    dispatch_model(t0, r0, orig).0 == m.0 && dispatch_model(t0, r0, orig).1 == m.1
                        && dispatch_model(t0, r0, orig).2 == out@.map_values(|d: Delivery| d@)
                        + m.2
                }),
            decreases batch@.len(),
        {
            let ghost pre_b = batch@;
            let ghost t_pre = self.table_model();
            let ghost r_pre = self.reg_model();
            let ghost out_pre = out@.map_values(|d: Delivery| d@);
            let (id, ev) = batch.remove(0);
            let ghost sm = step_model(t_pre, r_pre, id, ev);
            proof {
                assert(pre_b[0].0 == id && pre_b[0].1 == ev);
                assert(batch@ =~= pre_b.skip(1));
                assert(dispatch_model(t_pre, r_pre, pre_b) == (
                    dispatch_model(sm.0, sm.1, pre_b.skip(1)).0,
                    dispatch_model(sm.0, sm.1, pre_b.skip(1)).1,
                    sm.2 + dispatch_model(sm.0, sm.1, pre_b.skip(1)).2,
                ));
            }
            if self.table.contains_id(id) {
                let cbs = self.registry.snapshot(id);
                let is_unsub = matches!(ev, Event::Unsubscribed);
                proof {
                    if cbs.len() > 0 {
                        assert(reg_handles(r_pre, id).len() > 0);
                        assert(reg_has(r_pre, id));
                    } else {
                        if reg_has(r_pre, id) {
                            assert(r_pre[reg_idx(r_pre, id)].1.len() > 0);
                            assert(reg_handles(r_pre, id).len() > 0);
                        }
                        assert(!reg_has(r_pre, id));
                    }
                }
                if cbs.len() > 0 {
                    let ghost dv = DeliveryModel { id, callbacks: cbs@, event: ev };
                    out.push(Delivery { id, callbacks: cbs, event: ev });
                    proof {
                        assert(cbs@ == reg_handles(r_pre, id));
                        assert(sm.2 =~= seq![dv]);
                        assert(out@.map_values(|d: Delivery| d@) =~= out_pre + sm.2);
                    }
                } else {
                    proof {
                        assert(sm.2 =~= Seq::<DeliveryModel>::empty());
                        assert(out@.map_values(|d: Delivery| d@) =~= out_pre + sm.2);
                    }
                }
                if is_unsub {
                    self.table.remove(id);
                    self.registry.purge(id);
                    proof {
                        assert(self.table_model() == sm.0);
                        assert(self.reg_model() == sm.1);
                    }
                } else {
                    proof {
                        assert(self.table_model() == sm.0);
                        assert(self.reg_model() == sm.1);
                    }
                }
            } else {
                proof {
                    assert(sm == (t_pre, r_pre, Seq::<DeliveryModel>::empty()));
                    assert(out@.map_values(|d: Delivery| d@) =~= out_pre + sm.2);
                }
            }
            proof {
                let mc = dispatch_model(self.table_model(), self.reg_model(), batch@);
                assert(dispatch_model(t_pre, r_pre, pre_b).2 == sm.2 + mc.2);
                assert(out_pre + (sm.2 + mc.2) =~= (out_pre + sm.2) + mc.2);
                assert(dispatch_model(t0, r0, orig).2 == out@.map_values(|d: Delivery| d@) + mc.2);
            }
        }
        proof {
            let m = dispatch_model(self.table_model(), self.reg_model(), batch@);
            assert(m.2 =~= Seq::<DeliveryModel>::empty());
            assert(out@.map_values(|d: Delivery| d@) + m.2 =~= out@.map_values(|d: Delivery| d@));
        }
        out
    }

    /// The update stream's producer side has shut down: a running
    /// dispatcher turns to draining and finishes the batches still
    /// buffered; the control state changes in no other way.
    pub fn on_updates_closed(&mut self)
        requires
            old(self).wf(),
        ensures
            final(self).wf(),
            final(self).table_model() == old(self).table_model(),
            final(self).reg_model() == old(self).reg_model(),
            final(self).next_cb() == old(self).next_cb(),
            final(self).state_spec() == (if old(self).state_spec() == DispatcherState::Running {
                DispatcherState::Draining
            } else {
                old(self).state_spec()
            }),
    {
        if matches!(self.state, DispatcherState::Running) {
            self.state = DispatcherState::Draining;
        }
    }

    /// Tear the whole multiplexer down.  Every live entry is dropped
    /// and exactly its handle tokens are handed back — one per live
    /// subscription, in table order — so the caller releases every
    /// external handle and leaks none.  The registry is cleared and the
    /// dispatcher stops: afterwards no batch produces any callback
    /// invocation.
    pub fn teardown(&mut self) -> (handles: Vec<u64>)
        requires
            old(self).wf(),
        ensures
            final(self).wf(),
            handles@ =~= table_handles(old(self).table_model()),
            handles@.len() == old(self).table_model().len(),
            final(self).table_model() =~= Seq::<(u64, Seq<char>, u64)>::empty(),
            final(self).reg_model() =~= Seq::<(u64, Seq<(u64, u64)>)>::empty(),
            final(self).state_spec() == DispatcherState::Stopped,
            final(self).next_cb() == old(self).next_cb(),
    {
        let handles = self.table.drain();
        self.registry.clear();
        self.state = DispatcherState::Stopped;
        handles
    }
}

/// Subscribing to the same path twice without an intervening
/// unsubscribe reuses the identifier: once the first grant is
/// recorded, the path is live and its entry carries the first grant's
/// identifier, so a second subscribe returns that identifier, inserts
/// nothing, and hands the second grant's handle back for release —
/// no duplicate live entry and no second network subscription.
pub proof fn lemma_resubscribe_same_path(t: TableModel, p: Seq<char>, id: u64, handle: u64)
    requires
        table_wf(t),
        !table_has_path(t, p),
    ensures
        table_has_path(t.push((id, p, handle)), p),
        t.push((id, p, handle))[table_pidx(t.push((id, p, handle)), p)].0 == id,
{
    let t1 = t.push((id, p, handle));
    assert(t1[t.len() as int].1 == p);
    assert(table_has_path(t1, p));
    let k = table_pidx(t1, p);
    assert(0 <= k < t1.len() && t1[k].1 == p);
    if k < t.len() {
        assert(t[k].1 == p);
    }
    assert(k == t.len() as int);
}

/// An identifier live after a removal was live before it: dispatch
/// only ever shrinks the table, never grows it.
proof fn lemma_has_id_after_remove(t: TableModel, i: int, x: u64)
    requires
        0 <= i < t.len(),
        table_has_id(t.remove(i), x),
    ensures
        table_has_id(t, x),
{
    let tr = t.remove(i);
    let j = choose|j: int| 0 <= j < tr.len() && tr[j].0 == x;
    if j < i {
        assert(t[j].0 == x);
    } else {
        assert(t[j + 1].0 == x);
    }
}

/// Every fan-out group produced by dispatching a batch belongs to a
/// subscription that was live in the table when the batch reached the
/// dispatcher.  An event whose identifier was already torn down — or
/// never subscribed — is never delivered to any callback.
pub proof fn lemma_deliveries_only_for_live_ids(
    t: TableModel,
    r: RegModel,
    batch: Seq<(u64, Event)>,
)
    ensures
        forall|k: int|
            0 <= k < dispatch_model(t, r, batch).2.len() ==> table_has_id(
                t,
                (#[trigger] dispatch_model(t, r, batch).2[k]).id,
            ),
    decreases batch.len(),
{
    if batch.len() > 0 {
        let s = step_model(t, r, batch[0].0, batch[0].1);
        let rest = dispatch_model(s.0, s.1, batch.skip(1));
        lemma_deliveries_only_for_live_ids(s.0, s.1, batch.skip(1));
        assert forall|k: int| 0 <= k < dispatch_model(t, r, batch).2.len() implies table_has_id(
            t,
            (dispatch_model(t, r, batch).2[k]).id,
        ) by {
            let ds = dispatch_model(t, r, batch).2;
            assert(ds == s.2 + rest.2);
            if k < s.2.len() {
                assert(ds[k] == s.2[k]);
                assert(table_has_id(t, batch[0].0));
                assert(ds[k].id == batch[0].0);
            } else {
                assert(ds[k] == rest.2[k - s.2.len()]);
                assert(table_has_id(s.0, ds[k].id));
                if table_has_id(t, batch[0].0) && batch[0].1 is Unsubscribed {
                    lemma_has_id_after_remove(t, table_idx(t, batch[0].0), ds[k].id);
                }
            }
        }
    }
}

/// One incoming update for a live subscription with registered
/// callbacks produces exactly one fan-out group: it carries every
/// registered callback token, in registration order, each paired with
/// the same value — so a subscription with n callbacks sees exactly n
/// invocations per update, and the table and registry are unchanged.
pub proof fn lemma_update_fan_out(t: TableModel, r: RegModel, id: u64, v: Value)
    requires
        table_has_id(t, id),
        reg_has(r, id),
    ensures
        dispatch_model(t, r, seq![(id, Event::Update(v))]).0 == t,
        dispatch_model(t, r, seq![(id, Event::Update(v))]).1 == r,
        dispatch_model(t, r, seq![(id, Event::Update(v))]).2 =~= seq![
            DeliveryModel { id, callbacks: reg_handles(r, id), event: Event::Update(v) },
        ],
        dispatch_model(t, r, seq![(id, Event::Update(v))]).2[0].callbacks.len() == reg_cbs(
            r,
            id,
        ).len(),
{
    let b = seq![(id, Event::Update(v))];
    let s = step_model(t, r, id, Event::Update(v));
    assert(b[0] == (id, Event::Update(v)));
    assert(b.skip(1).len() == 0);
    assert(dispatch_model(s.0, s.1, b.skip(1)) == (s.0, s.1, Seq::<DeliveryModel>::empty()));
    assert(s.2 + Seq::<DeliveryModel>::empty() =~= s.2);
    assert(reg_handles(r, id).len() == reg_cbs(r, id).len());
}

/// A server-initiated teardown: dispatching `Unsubscribed` for a live
/// subscription delivers exactly one notification to its currently
/// registered callbacks, then purges both the table entry and the
/// registry entry — and an update for the same identifier arriving in
/// a later batch is silently ignored, delivered to nobody.
pub proof fn lemma_unsubscribed_purges(t: TableModel, r: RegModel, id: u64, v: Value)
    requires
        table_wf(t),
        reg_ids_unique(r),
        table_has_id(t, id),
        reg_has(r, id),
    ensures
        ({
            let m = dispatch_model(t, r, seq![(id, Event::Unsubscribed)]);
            let m2 = dispatch_model(m.0, m.1, seq![(id, Event::Update(v))]);
            !table_has_id(m.0, id) && !reg_has(m.1, id) && m.2 =~= seq![
                DeliveryModel { id, callbacks: reg_handles(r, id), event: Event::Unsubscribed },
            ] && m2.0 == m.0 && m2.1 == m.1 && m2.2 =~= Seq::<DeliveryModel>::empty()
        }),
{
    let b = seq![(id, Event::Unsubscribed)];
    let s = step_model(t, r, id, Event::Unsubscribed);
    assert(b[0] == (id, Event::Unsubscribed));
    assert(b.skip(1).len() == 0);
    assert(dispatch_model(s.0, s.1, b.skip(1)) == (s.0, s.1, Seq::<DeliveryModel>::empty()));
    assert(s.2 + Seq::<DeliveryModel>::empty() =~= s.2);
    crate::table::lemma_unsubscribe_idempotent(t, id);
    assert(table_unsub(t, id) == t.remove(table_idx(t, id)));
    crate::registry::lemma_purge_removes(r, id);
    let m = dispatch_model(t, r, b);
    assert(m.0 == s.0 && m.1 == s.1);
    let b2 = seq![(id, Event::Update(v))];
    assert(b2[0] == (id, Event::Update(v)));
    assert(b2.skip(1).len() == 0);
    assert(!table_has_id(m.0, id));
    let s2 = step_model(m.0, m.1, id, Event::Update(v));
    assert(s2 == (m.0, m.1, Seq::<DeliveryModel>::empty()));
    assert(dispatch_model(s2.0, s2.1, b2.skip(1)) == (s2.0, s2.1, Seq::<DeliveryModel>::empty()));
    assert(dispatch_model(m.0, m.1, b2).2 =~= Seq::<DeliveryModel>::empty());
}

} // verus!
