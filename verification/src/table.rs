//! The subscription table: the authoritative mapping from subscription
//! identifier to its path and its external handle token.
//!
//! The dispatcher owns the table exclusively; no other component reads
//! or mutates it.  At most one live entry exists per distinct path, and
//! identifiers are never reused while an entry could still reference
//! them, so both columns are unique.
use vstd::prelude::*;

verus! {

/// One live subscription: its identifier, its path, and the token of
/// the external handle whose release tears down the network-level
/// subscription.
pub struct SubscriptionEntry {
    pub id: u64,
    pub path: String,
    pub handle: u64,
}

/// The table is modelled as the sequence of its entries, each reduced
/// to plain values: `(id, path, handle)`.
pub type TableModel = Seq<(u64, Seq<char>, u64)>;

/// Is there an entry for `id`?
pub open spec fn table_has_id(t: TableModel, id: u64) -> bool {
    exists|i: int| 0 <= i < t.len() && t[i].0 == id
}

/// Is there an entry for `path`?
pub open spec fn table_has_path(t: TableModel, path: Seq<char>) -> bool {
    exists|i: int| 0 <= i < t.len() && t[i].1 == path
}

/// The position of the entry for `id` (meaningful when `table_has_id`).
pub open spec fn table_idx(t: TableModel, id: u64) -> int {
    choose|i: int| 0 <= i < t.len() && t[i].0 == id
}

/// The position of the entry for `path` (meaningful when
/// `table_has_path`).
pub open spec fn table_pidx(t: TableModel, path: Seq<char>) -> int {
    choose|i: int| 0 <= i < t.len() && t[i].1 == path
}

/// Both columns of the table are unique: one entry per identifier and
/// one live entry per distinct path.
pub open spec fn table_wf(t: TableModel) -> bool {
    forall|i: int, j: int|
        0 <= i < j < t.len() ==> t[i].0 != t[j].0 && t[i].1 != t[j].1
}

/// The handle tokens of all live entries, in table order.
pub open spec fn table_handles(t: TableModel) -> Seq<u64> {
    t.map_values(|e: (u64, Seq<char>, u64)| e.2)
}

/// The table after the entry for `id` is removed; unchanged when no
/// entry exists, so removing twice equals removing once.
pub open spec fn table_unsub(t: TableModel, id: u64) -> TableModel {
    if table_has_id(t, id) {
        t.remove(table_idx(t, id))
    } else {
        t
    }
}

/// Unsubscribing is idempotent: removing an identifier leaves no entry
/// for it behind, so removing it a second time changes nothing — the
/// second call is a no-op, not an error.
pub proof fn lemma_unsubscribe_idempotent(t: TableModel, id: u64)
    requires
        table_wf(t),
    ensures
        !table_has_id(table_unsub(t, id), id),
        table_unsub(table_unsub(t, id), id) == table_unsub(t, id),
{
    if table_has_id(t, id) {
        let i = table_idx(t, id);
        assert(0 <= i < t.len() && t[i].0 == id);
        let tr = t.remove(i);
        assert(!table_has_id(tr, id)) by {
            if table_has_id(tr, id) {
                let j = choose|j: int| 0 <= j < tr.len() && tr[j].0 == id;
                if j < i {
                    assert(t[j].0 == id);
                } else {
                    assert(t[j + 1].0 == id);
                }
            }
        }
    }
}

/// The authoritative mapping from subscription identifier to path and
/// external handle token.
pub struct SubscriptionTable {
    entries: Vec<SubscriptionEntry>,
}

impl View for SubscriptionTable {
    type V = TableModel;

    closed spec fn view(&self) -> TableModel {
        self.entries@.map_values(|e: SubscriptionEntry| (e.id, e.path@, e.handle))
    }
}

impl SubscriptionTable {
    /// An empty table.
    pub fn new() -> (t: Self)
        ensures
            t@ =~= Seq::<(u64, Seq<char>, u64)>::empty(),
            table_wf(t@),
    {
        SubscriptionTable { entries: Vec::new() }
    }

    /// The number of live subscriptions.
    pub fn len(&self) -> (n: usize)
        ensures
            n == self@.len(),
    {
        self.entries.len()
    }

    /// Does the table hold an entry for `id`?
    pub fn contains_id(&self, id: u64) -> (b: bool)
        ensures
            b == table_has_id(self@, id),
    {
        let mut i: usize = 0;
        while i < self.entries.len()
            invariant
                0 <= i <= self.entries.len(),
                forall|j: int| 0 <= j < i ==> self@[j].0 != id,
            decreases self.entries.len() - i,
        {
            if self.entries[i].id == id {
                assert(self@[i as int].0 == id);
                return true;
            }
            i += 1;
        }
        false
    }

    /// The identifier of the live entry for `path`, if any.
    pub fn id_of(&self, path: &String) -> (r: Option<u64>)
        requires
            table_wf(self@),
        ensures
            match r {
                Some(id) => table_has_path(self@, path@) && table_has_id(self@, id)
                    && self@[table_pidx(self@, path@)].0 == id,
                None => !table_has_path(self@, path@),
            },
    {
        let mut i: usize = 0;
        while i < self.entries.len()
            invariant
                0 <= i <= self.entries.len(),
                table_wf(self@),
                forall|j: int| 0 <= j < i ==> self@[j].1 != path@,
            decreases self.entries.len() - i,
        {
            if self.entries[i].path == *path {
                assert(self@[i as int].1 == path@);
                assert(table_pidx(self@, path@) == i as int);
                return Some(self.entries[i].id);
            }
            i += 1;
        }
        None
    }

    /// The path of the entry for `id`, if any.
    pub fn path_of(&self, id: u64) -> (r: Option<String>)
        requires
            table_wf(self@),
        ensures
            match r {
                Some(p) => table_has_id(self@, id)
                    && p@ == self@[table_idx(self@, id)].1,
                None => !table_has_id(self@, id),
            },
    {
        let mut i: usize = 0;
        while i < self.entries.len()
            invariant
                0 <= i <= self.entries.len(),
                table_wf(self@),
                forall|j: int| 0 <= j < i ==> self@[j].0 != id,
            decreases self.entries.len() - i,
        {
            if self.entries[i].id == id {
                assert(self@[i as int].0 == id);
                assert(table_idx(self@, id) == i as int);
                return Some(self.entries[i].path.clone());
            }
            i += 1;
        }
        None
    }

    /// Insert a fresh entry.  The caller has already established that
    /// neither the identifier nor the path is live.
    pub fn insert(&mut self, path: String, id: u64, handle: u64)
        requires
            table_wf(old(self)@),
            !table_has_id(old(self)@, id),
            !table_has_path(old(self)@, path@),
        ensures
            final(self)@ =~= old(self)@.push((id, path@, handle)),
            table_wf(final(self)@),
    {
        let ghost pre = self@;
        let ghost pv = path@;
        self.entries.push(SubscriptionEntry { id, path, handle });
        assert(self@ =~= pre.push((id, pv, handle)));
    }

    /// Remove the entry for `id`, handing back its handle token so the
    /// caller can release the external handle.  Absent identifiers are
    /// a no-op, not an error.
    pub fn remove(&mut self, id: u64) -> (r: Option<u64>)
        requires
            table_wf(old(self)@),
        ensures
            table_wf(final(self)@),
            match r {
                Some(h) => table_has_id(old(self)@, id)
                    && h == old(self)@[table_idx(old(self)@, id)].2
                    && final(self)@ =~= old(self)@.remove(table_idx(old(self)@, id)),
                None => !table_has_id(old(self)@, id) && final(self)@ == old(self)@,
            },
            final(self)@ =~= table_unsub(old(self)@, id),
            !table_has_id(final(self)@, id),
    {
        let mut i: usize = 0;
        while i < self.entries.len()
            invariant
                0 <= i <= self.entries.len(),
                self@ == old(self)@,
                table_wf(self@),
                forall|j: int| 0 <= j < i ==> self@[j].0 != id,
            decreases self.entries.len() - i,
        {
            if self.entries[i].id == id {
                assert(self@[i as int].0 == id);
                assert(table_idx(self@, id) == i as int);
                let ghost pre = self@;
                let e = self.entries.remove(i);
                assert(self@ =~= pre.remove(i as int));
                assert(!table_has_id(self@, id)) by {
                    assert(forall|j: int| 0 <= j < self@.len()
                        ==> self@[j] == (if j < i as int { pre[j] } else { pre[j + 1] }));
                }
                return Some(e.handle);
            }
            i += 1;
        }
        None
    }

    /// Remove every entry, handing back all handle tokens in table
    /// order, so the caller can release every external handle.
    pub fn drain(&mut self) -> (handles: Vec<u64>)
        ensures
            handles@ =~= table_handles(old(self)@),
            final(self)@ =~= Seq::<(u64, Seq<char>, u64)>::empty(),
            table_wf(final(self)@),
    {
        let mut handles: Vec<u64> = Vec::new();
        let mut i: usize = 0;
        while i < self.entries.len()
            invariant
                0 <= i <= self.entries.len(),
                self@ == old(self)@,
                handles@.len() == i,
                forall|j: int| 0 <= j < i ==> handles@[j] == self@[j].2,
            decreases self.entries.len() - i,
        {
            handles.push(self.entries[i].handle);
            i += 1;
        }
        self.entries.clear();
        handles
    }
}

} // verus!
