//! The session-scoped dataset cache.
//!
//! Per dataset the cache holds one slot, *unloaded* or *loaded* with a
//! table.  A demand for a dataset is served from the memo when the slot is
//! loaded; only when it is unloaded does the driver go to the store, handing
//! the result back through [`DatasetCache::complete_load`].  The cache counts
//! completed store loads, so the at-most-one-load guarantee is a visible,
//! instrumented fact and not only a reading of the code.
//!
//! All operations run on the single thread that owns the cache; a slot is
//! checked and filled with no other access in between.  An embedding that
//! introduced concurrent access to one cache would need mutual exclusion per
//! slot to keep these guarantees.

use vstd::prelude::*;
use crate::ids::{DatasetId, DATASET_COUNT};
use crate::table::{Table, TableModel};

verus! {

/// Mathematical value of the cache: one optional table per dataset, in
/// enumeration order, and the number of store loads completed so far.
pub struct CacheModel {
    pub slots: Seq<Option<TableModel>>,
    pub loads: nat,
}

/// The slot is unloaded, so a demand must go to the store.
pub open spec fn spec_needs_load(m: CacheModel, i: int) -> bool {
    m.slots[i] is None
}

/// Direct insertion of a caller-provided table; no store load happened.
pub open spec fn spec_put(m: CacheModel, i: int, t: TableModel) -> CacheModel {
    CacheModel { slots: m.slots.update(i, Option::Some(t)), loads: m.loads }
}

/// A store load finished and fills the slot.
pub open spec fn spec_complete_load(m: CacheModel, i: int, t: TableModel) -> CacheModel {
    CacheModel { slots: m.slots.update(i, Option::Some(t)), loads: m.loads + 1 }
}

/// The slot returns to unloaded; the next demand re-reads from disk.
pub open spec fn spec_invalidate(m: CacheModel, i: int) -> CacheModel {
    CacheModel { slots: m.slots.update(i, Option::None), loads: m.loads }
}

/// One whole demand round: a loaded slot is served from the memo and
/// nothing changes; an unloaded one is filled by a store load that brought
/// `fresh`.  This is the protocol the driver follows with `get`,
/// `needs_load` and `complete_load`.
pub open spec fn spec_get_or_load(m: CacheModel, i: int, fresh: TableModel) -> (CacheModel, TableModel) {
    match m.slots[i] {
        Option::Some(t) => (m, t),
        Option::None => (spec_complete_load(m, i, fresh), fresh),
    }
}

/// The session cache: one slot per dataset, plus the load counter.
pub struct DatasetCache {
    slots: Vec<Option<Table>>,
    loads: u64,
}

impl View for DatasetCache {
    type V = CacheModel;

    closed spec fn view(&self) -> CacheModel {
        CacheModel { slots: self.slots.deep_view(), loads: self.loads as nat }
    }
}

impl DatasetCache {
    /// One slot per dataset.
    pub open spec fn wf(self) -> bool {
        self@.slots.len() == DATASET_COUNT
    }

    /// A fresh session: every slot unloaded, no loads counted.
    pub fn new() -> (c: DatasetCache)
        ensures
            c.wf(),
            c@.loads == 0,
            forall|i: int| 0 <= i < DATASET_COUNT ==> c@.slots[i] is None,
    {
        let mut slots: Vec<Option<Table>> = Vec::new();
        let mut k: usize = 0;
        while k < DATASET_COUNT
            invariant
                k <= DATASET_COUNT,
                slots.deep_view().len() == k,
                forall|i: int| 0 <= i < k ==> slots.deep_view()[i] is None,
            decreases DATASET_COUNT - k,
        {
            let ghost pre = slots.deep_view();
            slots.push(Option::None);
            proof {
                assert(slots.deep_view() =~= pre.push(Option::None));
            }
            k = k + 1;
        }
        DatasetCache { slots, loads: 0 }
    }

    /// The number of store loads completed in this session.
    pub fn loads(&self) -> (n: u64)
        ensures
            n == self@.loads,
    {
        self.loads
    }

    /// Whether a demand for `id` must go to the store.
    pub fn needs_load(&self, id: DatasetId) -> (r: bool)
        requires
            self.wf(),
        ensures
            r == spec_needs_load(self@, id.ordinal()),
    {
        self.slots[id.index()].is_none()
    }

    /// The memoized table for `id`, when its slot is loaded.  No I/O ever
    /// happens here.
    pub fn get(&self, id: DatasetId) -> (r: Option<&Table>)
        requires
            self.wf(),
        ensures
            match r {
                Option::Some(t) => self@.slots[id.ordinal()] == Option::Some(t@),
                Option::None => spec_needs_load(self@, id.ordinal()),
            },
    {
        let i = id.index();
        match &self.slots[i] {
            Option::Some(t) => Option::Some(t),
            Option::None => Option::None,
        }
    }

    /// Records the table a finished store load brought for `id`.  The slot
    /// must still be unloaded: a compliant driver cannot load twice without
    /// an intervening invalidation.
    pub fn complete_load(&mut self, id: DatasetId, t: Table)
        requires
            old(self).wf(),
            t.wf(),
            spec_needs_load(old(self)@, id.ordinal()),
            old(self)@.loads < u64::MAX,
        ensures
            final(self).wf(),
            final(self)@ == spec_complete_load(old(self)@, id.ordinal(), t@),
    {
        let i = id.index();
        let ghost pre = self.slots.deep_view();
        self.slots.set(i, Option::Some(t));
        self.loads = self.loads + 1;
        proof {
            assert(self.slots.deep_view() =~= pre.update(id.ordinal(), Option::Some(t@)));
        }
    }

    /// Sets the slot for `id` to a caller-provided table, typically after a
    /// successful in-memory edit, avoiding a drop back to disk.
    pub fn put(&mut self, id: DatasetId, t: Table)
        requires
            old(self).wf(),
            t.wf(),
        ensures
            final(self).wf(),
            final(self)@ == spec_put(old(self)@, id.ordinal(), t@),
    {
        let i = id.index();
        let ghost pre = self.slots.deep_view();
        self.slots.set(i, Option::Some(t));
        proof {
            assert(self.slots.deep_view() =~= pre.update(id.ordinal(), Option::Some(t@)));
        }
    }

    /// Resets the slot for `id` to unloaded, forcing the next demand to
    /// re-read from disk — used after an external save to refresh.
    pub fn invalidate(&mut self, id: DatasetId)
        requires
            old(self).wf(),
        ensures
            final(self).wf(),
            final(self)@ == spec_invalidate(old(self)@, id.ordinal()),
    {
        let i = id.index();
        let ghost pre = self.slots.deep_view();
        self.slots.set(i, Option::None);
        proof {
            assert(self.slots.deep_view() =~= pre.update(id.ordinal(), Option::None));
        }
    }
}

/// At most one load per dataset per session: across two consecutive demand
/// rounds for the same dataset with no invalidation between them, the load
/// counter rises at most once, the second round is served from the memo
/// unchanged, and both rounds hand out the same table.
pub proof fn lemma_at_most_one_load(m: CacheModel, i: int, t1: TableModel, t2: TableModel)
    requires
        0 <= i < m.slots.len(),
    ensures
        ({
            let (m1, r1) = spec_get_or_load(m, i, t1);
            let (m2, r2) = spec_get_or_load(m1, i, t2);
            &&& m2.loads <= m.loads + 1
            &&& m2 == m1
            &&& r2 == r1
            &&& !spec_needs_load(m1, i)
        }),
{
}

/// Invalidation forces a reload: after a direct `put` of one table and an
/// `invalidate`, the slot is unloaded again, and the next demand round hands
/// out whatever the store now reads from disk — not the table put earlier.
pub proof fn lemma_invalidate_forces_reload(m: CacheModel, i: int, t1: TableModel, t2: TableModel)
    requires
        0 <= i < m.slots.len(),
    ensures
        spec_needs_load(spec_invalidate(spec_put(m, i, t1), i), i),
        ({
            let (m2, r2) = spec_get_or_load(spec_invalidate(spec_put(m, i, t1), i), i, t2);
            r2 == t2 && m2.slots[i] == Option::Some(t2)
        }),
{
}

/// A demand round never touches any other dataset's slot.
pub proof fn lemma_get_or_load_frame(m: CacheModel, i: int, j: int, fresh: TableModel)
    requires
        0 <= i < m.slots.len(),
        0 <= j < m.slots.len(),
        i != j,
    ensures
        spec_get_or_load(m, i, fresh).0.slots[j] == m.slots[j],
        spec_put(m, i, fresh).slots[j] == m.slots[j],
        spec_invalidate(m, i).slots[j] == m.slots[j],
{
}

} // verus!
