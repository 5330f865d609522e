//! The surface registry: the one place live surfaces are recorded, keyed
//! by surface id. Ids are assigned by the GUI collaborator at creation
//! time; the registry refuses any id it has seen before, so an id that was
//! closed can never come back as a key.

use vstd::prelude::*;
use std::collections::HashMap;
use std::collections::HashSet;

verus! {

broadcast use vstd::std_specs::hash::group_hash_axioms;

#[derive(Clone, Copy, PartialEq, Eq, Structural, Debug)]
pub enum SurfaceKind {
    Normal,
    Headless,
}

/// What the dispatcher remembers about one live surface.
#[derive(Clone)]
pub struct SurfaceRecord {
    pub id: u64,
    pub kind: SurfaceKind,
    /// Raised above other windows until first paint; cleared exactly once.
    pub pinned: bool,
    /// True iff the job is export-only and no console is attached.
    pub minimized: bool,
    pub export_path: String,
    pub download_path: String,
}

/// The abstract registry: the live surfaces, and every id ever accepted.
pub struct RegistryModel {
    pub live: Map<u64, SurfaceRecord>,
    pub seen: Set<u64>,
}

impl RegistryModel {
    pub open spec fn wf(self) -> bool {
        self.live.dom().subset_of(self.seen)
    }

    /// An id that was accepted once and is no longer live.
    pub open spec fn retired(self, id: u64) -> bool {
        self.seen.contains(id) && !self.live.dom().contains(id)
    }
}

/// Accepting a new surface: refused outright for any id seen before.
pub open spec fn spec_add(m: RegistryModel, id: u64, rec: SurfaceRecord) -> (RegistryModel, bool) {
    if m.seen.contains(id) {
        (m, false)
    } else {
        (RegistryModel { live: m.live.insert(id, rec), seen: m.seen.insert(id) }, true)
    }
}

/// Closing a surface: the entry is erased; the id stays seen forever.
pub open spec fn spec_close(m: RegistryModel, id: u64) -> RegistryModel {
    RegistryModel { live: m.live.remove(id), seen: m.seen }
}

/// Clearing the raised-above-others mark after first paint.
pub open spec fn spec_unpin(m: RegistryModel, id: u64) -> RegistryModel {
    if m.live.dom().contains(id) {
        RegistryModel {
            live: m.live.insert(id, SurfaceRecord { pinned: false, ..m.live[id] }),
            seen: m.seen,
        }
    } else {
        m
    }
}

pub struct Registry {
    live: HashMap<u64, SurfaceRecord>,
    seen: HashSet<u64>,
}

impl View for Registry {
    type V = RegistryModel;

    closed spec fn view(&self) -> RegistryModel {
        RegistryModel { live: self.live@, seen: self.seen@ }
    }
}

impl Registry {
    pub fn new() -> (r: Self)
        ensures
            r@.live == Map::<u64, SurfaceRecord>::empty(),
            r@.seen == Set::<u64>::empty(),
            r@.wf(),
    {
        Registry { live: HashMap::new(), seen: HashSet::new() }
    }

    /// Records a newly built surface. Refused when the id was ever seen
    /// before: ids are never reused.
    pub fn add(&mut self, rec: SurfaceRecord) -> (accepted: bool)
        requires
            old(self)@.wf(),
        ensures
            accepted == spec_add(old(self)@, rec.id, rec).1,
            final(self)@ == spec_add(old(self)@, rec.id, rec).0,
            final(self)@.wf(),
    {
        if self.seen.contains(&rec.id) {
            return false;
        }
        self.seen.insert(rec.id);
        self.live.insert(rec.id, rec);
        true
    }

    /// Erases a surface. Yields whether the id was live.
    pub fn close(&mut self, id: u64) -> (was_live: bool)
        requires
            old(self)@.wf(),
        ensures
            was_live == old(self)@.live.dom().contains(id),
            final(self)@ == spec_close(old(self)@, id),
            final(self)@.wf(),
    {
        let was = self.live.remove(&id);
        was.is_some()
    }

    /// Clears the raised-above-others mark of a live surface.
    pub fn unpin(&mut self, id: u64) -> (was_live: bool)
        requires
            old(self)@.wf(),
        ensures
            was_live == old(self)@.live.dom().contains(id),
            final(self)@ == spec_unpin(old(self)@, id),
            final(self)@.wf(),
    {
        match self.live.remove(&id) {
            Some(rec) => {
                let updated = SurfaceRecord { pinned: false, ..rec };
                self.live.insert(id, updated);
                proof {
                    assert(self@.live =~= spec_unpin(old(self)@, id).live);
                }
                true
            },
            None => {
                proof {
                    assert(self@.live =~= old(self)@.live);
                }
                false
            },
        }
    }

    pub fn get(&self, id: u64) -> (r: Option<&SurfaceRecord>)
        ensures
            match r {
                Some(rec) => self@.live.dom().contains(id) && *rec == self@.live[id],
                None => !self@.live.dom().contains(id),
            },
    {
        self.live.get(&id)
    }

    pub fn contains(&self, id: u64) -> (r: bool)
        ensures
            r == self@.live.dom().contains(id),
    {
        self.live.contains_key(&id)
    }

    pub fn len(&self) -> (r: usize)
        ensures
            r == self@.live.dom().len(),
    {
        self.live.len()
    }
}

/// One registry transition, as the dispatcher performs them.
pub enum RegOp {
    Add(u64, SurfaceRecord),
    Close(u64),
    Unpin(u64),
}

pub open spec fn apply_op(m: RegistryModel, op: RegOp) -> RegistryModel {
    match op {
        RegOp::Add(id, rec) => spec_add(m, id, rec).0,
        RegOp::Close(id) => spec_close(m, id),
        RegOp::Unpin(id) => spec_unpin(m, id),
    }
}

pub open spec fn apply_ops(m: RegistryModel, ops: Seq<RegOp>) -> RegistryModel
    decreases ops.len(),
{
    if ops.len() == 0 {
        m
    } else {
        apply_ops(apply_op(m, ops[0]), ops.drop_first())
    }
}

/// Law: once a surface id has been closed, no sequence of registry
/// operations ever makes it a live key again.
pub proof fn lemma_no_id_reuse(m: RegistryModel, ops: Seq<RegOp>, id: u64)
    requires
        m.retired(id),
    ensures
        apply_ops(m, ops).retired(id),
        !apply_ops(m, ops).live.dom().contains(id),
    decreases ops.len(),
{
    if ops.len() > 0 {
        let m2 = apply_op(m, ops[0]);
        assert(m2.retired(id)) by {
            match ops[0] {
                RegOp::Add(id2, rec) => {
                    if id2 == id {
                        assert(m.seen.contains(id));
                    }
                },
                RegOp::Close(id2) => {},
                RegOp::Unpin(id2) => {},
            }
        }
        lemma_no_id_reuse(m2, ops.drop_first(), id);
    }
}

} // verus!
