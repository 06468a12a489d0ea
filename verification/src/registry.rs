//! The callback registry: per-subscription sets of registered host
//! callbacks.
//!
//! Callback identifiers come from a monotonic counter owned by the
//! registry, so every registration gets a fresh identifier.  An entry
//! whose callback set becomes empty is pruned immediately: the registry
//! never holds a dangling empty set.  A registration against a
//! subscription identifier that is not (or not yet) live is retained
//! but inert: delivery is gated by the subscription table, so such a
//! callback receives nothing until the identifier becomes live.
use vstd::prelude::*;

verus! {

/// One registered callback: its identifier and the host callback token
/// it invokes.
pub struct CallbackReg {
    pub cb_id: u64,
    pub handle: u64,
}

/// All callbacks registered for one subscription identifier, in
/// registration order.
pub struct RegEntry {
    pub id: u64,
    pub callbacks: Vec<CallbackReg>,
}

/// The registry is modelled as the sequence of its entries, each
/// reduced to plain values: `(subscription id, [(callback id, host
/// callback token)])`, both in insertion order.
pub type RegModel = Seq<(u64, Seq<(u64, u64)>)>;

/// Is there an entry for `id`?
pub open spec fn reg_has(r: RegModel, id: u64) -> bool {
    exists|i: int| 0 <= i < r.len() && r[i].0 == id
}

/// The position of the entry for `id` (meaningful when `reg_has`).
pub open spec fn reg_idx(r: RegModel, id: u64) -> int {
    choose|i: int| 0 <= i < r.len() && r[i].0 == id
}

/// The callbacks registered for `id`, in registration order; empty if
/// none are.
pub open spec fn reg_cbs(r: RegModel, id: u64) -> Seq<(u64, u64)> {
    if reg_has(r, id) {
        r[reg_idx(r, id)].1
    } else {
        Seq::empty()
    }
}

/// The host callback tokens registered for `id`, in registration
/// order.
pub open spec fn reg_handles(r: RegModel, id: u64) -> Seq<u64> {
    reg_cbs(r, id).map_values(|c: (u64, u64)| c.1)
}

/// The registry after the whole entry for `id` is removed (a no-op if
/// there is none).
pub open spec fn reg_purge(r: RegModel, id: u64) -> RegModel {
    if reg_has(r, id) {
        r.remove(reg_idx(r, id))
    } else {
        r
    }
}

/// Does the callback set hold `cb_id`?
pub open spec fn cbs_has(cbs: Seq<(u64, u64)>, cb_id: u64) -> bool {
    exists|k: int| 0 <= k < cbs.len() && cbs[k].0 == cb_id
}

/// The position of `cb_id` in the callback set (meaningful when
/// `cbs_has`).
pub open spec fn cbs_idx(cbs: Seq<(u64, u64)>, cb_id: u64) -> int {
    choose|k: int| 0 <= k < cbs.len() && cbs[k].0 == cb_id
}

/// The registry after one callback is unregistered: the callback is
/// removed from its subscription's set, and an entry whose set becomes
/// empty is pruned.  Unknown identifiers are a no-op.
pub open spec fn reg_unregister(r: RegModel, id: u64, cb_id: u64) -> RegModel {
    if !reg_has(r, id) {
        r
    } else {
        let i = reg_idx(r, id);
        let cbs = r[i].1;
        if !cbs_has(cbs, cb_id) {
            r
        } else if cbs.len() == 1 {
            r.remove(i)
        } else {
            r.update(i, (id, cbs.remove(cbs_idx(cbs, cb_id))))
        }
    }
}

/// Each subscription identifier has at most one entry.
pub open spec fn reg_ids_unique(r: RegModel) -> bool {
    forall|i: int, j: int| 0 <= i < j < r.len() ==> r[i].0 != r[j].0
}

/// Well-formedness of a registry model against its id counter `next`:
/// subscription entries are unique, no entry has an empty callback
/// set, every callback id was allocated below `next`, and callback
/// ids within an entry are unique.
pub open spec fn reg_wf(r: RegModel, next: u64) -> bool {
    &&& reg_ids_unique(r)
    &&& forall|i: int| 0 <= i < r.len() ==> (#[trigger] r[i]).1.len() > 0
    &&& forall|i: int, k: int|
        0 <= i < r.len() && 0 <= k < r[i].1.len() ==> (#[trigger] r[i].1[k]).0 < next
    &&& forall|i: int, k: int, l: int|
        0 <= i < r.len() && 0 <= k < l < r[i].1.len()
            ==> (#[trigger] r[i].1[k]).0 != (#[trigger] r[i].1[l]).0
}

/// Purging an identifier removes its only entry: afterwards no
/// callback is registered for it.
pub proof fn lemma_purge_removes(r: RegModel, id: u64)
    requires
        reg_ids_unique(r),
    ensures
        !reg_has(reg_purge(r, id), id),
{
    if reg_has(r, id) {
        let i = reg_idx(r, id);
        assert(0 <= i < r.len() && r[i].0 == id);
        let rr = r.remove(i);
        if reg_has(rr, id) {
            let j = choose|j: int| 0 <= j < rr.len() && rr[j].0 == id;
            if j < i {
                assert(r[j].0 == id);
            } else {
                assert(r[j + 1].0 == id);
            }
        }
    }
}

/// Per-subscription sets of registered host callbacks, plus the
/// monotonic counter that allocates callback identifiers.
pub struct CallbackRegistry {
    entries: Vec<RegEntry>,
    next_cb_id: u64,
}

impl View for CallbackRegistry {
    type V = RegModel;

    closed spec fn view(&self) -> RegModel {
        self.entries@.map_values(
            |e: RegEntry| (e.id, e.callbacks@.map_values(|c: CallbackReg| (c.cb_id, c.handle))),
        )
    }
}

impl CallbackRegistry {
    /// The next callback identifier this registry will allocate.
    pub closed spec fn next(&self) -> u64 {
        self.next_cb_id
    }

    /// The registry's invariant.
    pub open spec fn wf(&self) -> bool {
        reg_wf(self@, self.next())
    }

    /// An empty registry.
    pub fn new() -> (r: Self)
        ensures
            r@ =~= Seq::<(u64, Seq<(u64, u64)>)>::empty(),
            r.next() == 0,
            r.wf(),
    {
        CallbackRegistry { entries: Vec::new(), next_cb_id: 0 }
    }

    /// The next callback identifier, as a runtime value.
    pub fn next_id(&self) -> (n: u64)
        ensures
            n == self.next(),
    {
        self.next_cb_id
    }

    /// Is at least one callback registered for `id`?
    pub fn has(&self, id: u64) -> (b: bool)
        ensures
            b == reg_has(self@, id),
    {
        let mut i: usize = 0;
        while i < self.entries.len()
            invariant
                0 <= i <= self.entries.len(),
                forall|j: int| 0 <= j < i ==> self@[j].0 != id,
            decreases self.entries.len() - i,
        {
            if self.entries[i].id == id {
                assert(self@[i as int].0 == id);
                return true;
            }
            i += 1;
        }
        false
    }

    /// Register a callback for a subscription identifier and return the
    /// fresh callback identifier.  If the identifier already has an
    /// entry the callback is appended to it, preserving registration
    /// order; otherwise a new entry is created.
    pub fn register(&mut self, id: u64, handle: u64) -> (cb: u64)
        requires
            old(self).wf(),
            old(self).next() < u64::MAX,
        ensures
            final(self).wf(),
            cb == old(self).next(),
            final(self).next() == old(self).next() + 1,
            final(self)@ =~~= if reg_has(old(self)@, id) {
                old(self)@.update(
                    reg_idx(old(self)@, id),
                    (id, reg_cbs(old(self)@, id).push((cb, handle))),
                )
            } else {
                old(self)@.push((id, seq![(cb, handle)]))
            },
    {
        let cb = self.next_cb_id;
        let ghost pre = self@;
        let mut i: usize = 0;
        while i < self.entries.len()
            invariant
                0 <= i <= self.entries.len(),
                self@ == pre,
                pre == old(self)@,
                self.next_cb_id == cb,
                cb == old(self).next(),
                old(self).next() < u64::MAX,
                self.wf(),
                forall|j: int| 0 <= j < i ==> self@[j].0 != id,
            decreases self.entries.len() - i,
        {
            if self.entries[i].id == id {
                assert(self@[i as int].0 == id);
                assert(reg_idx(self@, id) == i as int);
                let e = vstd::std_specs::vec::vec_index_mut(&mut self.entries, i);
                e.callbacks.push(CallbackReg { cb_id: cb, handle });
                self.next_cb_id = self.next_cb_id + 1;
                assert(self@ =~~= pre.update(i as int, (id, reg_cbs(pre, id).push((cb, handle)))));
                return cb;
            }
            i += 1;
        }
        let mut callbacks: Vec<CallbackReg> = Vec::new();
        callbacks.push(CallbackReg { cb_id: cb, handle });
        self.entries.push(RegEntry { id, callbacks });
        self.next_cb_id = self.next_cb_id + 1;
        assert(self@ =~~= pre.push((id, seq![(cb, handle)])));
        cb
    }

    /// Unregister one callback.  If its subscription's set becomes
    /// empty the whole entry is pruned.  Returns whether anything was
    /// removed; unknown identifiers are a no-op, not an error.
    pub fn unregister(&mut self, id: u64, cb_id: u64) -> (removed: bool)
        requires
            old(self).wf(),
        ensures
            final(self).wf(),
            final(self).next() == old(self).next(),
            final(self)@ =~~= reg_unregister(old(self)@, id, cb_id),
            removed == (reg_has(old(self)@, id) && cbs_has(reg_cbs(old(self)@, id), cb_id)),
    {
        let ghost pre = self@;
        let mut i: usize = 0;
        while i < self.entries.len()
            invariant
                0 <= i <= self.entries.len(),
                self@ == pre,
                pre == old(self)@,
                old(self).next() == self.next_cb_id,
                self.wf(),
                forall|j: int| 0 <= j < i ==> self@[j].0 != id,
            decreases self.entries.len() - i,
        {
            if self.entries[i].id == id {
                assert(self@[i as int].0 == id);
                assert(reg_idx(self@, id) == i as int);
                let ghost cbs = self@[i as int].1;
                let n = self.entries[i].callbacks.len();
                let mut k: usize = 0;
                while k < n
                    invariant
                        0 <= k <= n,
                        self@ == pre,
                        pre == old(self)@,
                        old(self).next() == self.next_cb_id,
                        self.wf(),
                        i < self.entries.len(),
                        self.entries[i as int].id == id,
                        n == self.entries[i as int].callbacks.len(),
                        cbs == self@[i as int].1,
                        reg_idx(self@, id) == i as int,
                        forall|l: int| 0 <= l < k ==> cbs[l].0 != cb_id,
                    decreases n - k,
                {
                    if self.entries[i].callbacks[k].cb_id == cb_id {
                        assert(cbs[k as int].0 == cb_id);
                        assert(cbs_idx(cbs, cb_id) == k as int);
                        if n == 1 {
                            self.entries.remove(i);
                            assert(self@ =~~= pre.remove(i as int));
                        } else {
                            let e = vstd::std_specs::vec::vec_index_mut(&mut self.entries, i);
                            e.callbacks.remove(k);
                            assert(self@ =~~= pre.update(
                                i as int,
                                (id, cbs.remove(k as int)),
                            ));
                        }
                        return true;
                    }
                    k += 1;
                }
                assert(!cbs_has(cbs, cb_id));
                return false;
            }
            i += 1;
        }
        return false;
    }

    /// A consistent snapshot of the host callback tokens registered for
    /// `id`, in registration order.  Dispatch uses one snapshot per
    /// fan-out, so a mutation between two fan-outs never invalidates an
    /// ongoing one.
    pub fn snapshot(&self, id: u64) -> (out: Vec<u64>)
        requires
            self.wf(),
        ensures
            out@ =~= reg_handles(self@, id),
    {
        let mut i: usize = 0;
        while i < self.entries.len()
            invariant
                0 <= i <= self.entries.len(),
                self.wf(),
                forall|j: int| 0 <= j < i ==> self@[j].0 != id,
            decreases self.entries.len() - i,
        {
            if self.entries[i].id == id {
                assert(self@[i as int].0 == id);
                assert(reg_idx(self@, id) == i as int);
                let n = self.entries[i].callbacks.len();
                let mut out: Vec<u64> = Vec::new();
                let mut k: usize = 0;
                while k < n
                    invariant
                        0 <= k <= n,
                        i < self.entries.len(),
                        n == self.entries[i as int].callbacks.len(),
                        reg_has(self@, id),
                        reg_idx(self@, id) == i as int,
                        out@.len() == k,
                        forall|l: int|
                            0 <= l < k ==> out@[l] == self@[i as int].1[l].1,
                    decreases n - k,
                {
                    out.push(self.entries[i].callbacks[k].handle);
                    k += 1;
                }
                assert(out@ =~= reg_handles(self@, id));
                return out;
            }
            i += 1;
        }
        assert(!reg_has(self@, id));
        Vec::new()
    }

    /// Remove the whole entry for `id`, if any: used when a
    /// subscription is torn down by the source.
    pub fn purge(&mut self, id: u64)
        requires
            old(self).wf(),
        ensures
            final(self).wf(),
            final(self).next() == old(self).next(),
            final(self)@ =~~= reg_purge(old(self)@, id),
    {
        let ghost pre = self@;
        let mut i: usize = 0;
        while i < self.entries.len()
            invariant
                0 <= i <= self.entries.len(),
                self@ == pre,
                pre == old(self)@,
                old(self).next() == self.next_cb_id,
                self.wf(),
                forall|j: int| 0 <= j < i ==> self@[j].0 != id,
            decreases self.entries.len() - i,
        {
            if self.entries[i].id == id {
                assert(self@[i as int].0 == id);
                assert(reg_idx(self@, id) == i as int);
                self.entries.remove(i);
                assert(self@ =~~= pre.remove(i as int));
                return ;
            }
            i += 1;
        }
    }

    /// Remove every entry: used on teardown of the whole multiplexer.
    pub fn clear(&mut self)
        ensures
            final(self)@ =~= Seq::<(u64, Seq<(u64, u64)>)>::empty(),
            final(self).next() == old(self).next(),
            final(self).wf(),
    {
        self.entries.clear();
    }
}

} // verus!
