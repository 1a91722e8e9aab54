//! Bookkeeping for a group of spawned task bodies.
//!
//! The group records one slot per spawned body, in the order they were added,
//! with the body's lifecycle status. Aborting is a request: a running body
//! becomes `AbortRequested` and only the runtime reports it `Done` once its
//! teardown finished. Completed slots stay until they are drained.
use vstd::prelude::*;

verus! {

/// Lifecycle of one supervised body.
#[derive(Debug, Clone, Copy, PartialEq, Eq, Structural)]
pub enum TaskStatus {
    Running,
    AbortRequested,
    Done,
}

/// One slot: the body's id and status.
pub type Slot = (u64, TaskStatus);

/// The status after an abort request.
pub open spec fn aborted(st: TaskStatus) -> TaskStatus {
    match st {
        TaskStatus::Running => TaskStatus::AbortRequested,
        _ => st,
    }
}

/// The slots after an abort request to every body.
pub open spec fn abort_slots(s: Seq<Slot>) -> Seq<Slot> {
    s.map_values(|x: Slot| (x.0, aborted(x.1)))
}

/// The slots that are not yet drained: those whose body has not completed,
/// in their order.
pub open spec fn undrained(s: Seq<Slot>) -> Seq<Slot>
    decreases s.len(),
{
    if s.len() == 0 {
        s
    } else if s.last().1 == TaskStatus::Done {
        undrained(s.drop_last())
    } else {
        undrained(s.drop_last()).push(s.last())
    }
}

/// A slot after the body with id `id` completed.
pub open spec fn finish_slot(x: Slot, id: u64) -> Slot {
    if x.0 == id {
        (x.0, TaskStatus::Done)
    } else {
        x
    }
}

/// The slots after the body with id `id` completed.
pub open spec fn finish_slots(s: Seq<Slot>, id: u64) -> Seq<Slot> {
    s.map_values(|x: Slot| finish_slot(x, id))
}

/// Ids strictly increase along the slots and all lie below `next`.
pub open spec fn ids_ordered(s: Seq<Slot>, next: u64) -> bool {
    &&& forall|i: int, j: int| 0 <= i < j < s.len() ==> s[i].0 < s[j].0
    &&& forall|i: int| 0 <= i < s.len() ==> s[i].0 < next
}

/// Asking every body to abort a second time changes nothing, and asking an
/// empty group changes nothing either.
pub proof fn lemma_abort_idempotent(s: Seq<Slot>)
    ensures
        abort_slots(abort_slots(s)) == abort_slots(s),
        s.len() == 0 ==> abort_slots(s) == s,
{
    assert(abort_slots(abort_slots(s)) =~= abort_slots(s));
    if s.len() == 0 {
        assert(abort_slots(s) =~= s);
    }
}

/// Draining twice removes nothing more than draining once.
pub proof fn lemma_drain_idempotent(s: Seq<Slot>)
    ensures
        undrained(undrained(s)) == undrained(s),
    decreases s.len(),
{
    if s.len() > 0 {
        lemma_drain_idempotent(s.drop_last());
        if s.last().1 != TaskStatus::Done {
            let u = undrained(s.drop_last());
            assert(u.push(s.last()).drop_last() =~= u);
        }
    }
}

/// A supervised group of task bodies.
pub struct TaskGroup {
    slots: Vec<Slot>,
    next_id: u64,
}

impl View for TaskGroup {
    type V = Seq<Slot>;

    closed spec fn view(&self) -> Seq<Slot> {
        self.slots@
    }
}

impl TaskGroup {
    /// The id that the next added body receives.
    pub closed spec fn next_id(&self) -> u64 {
        self.next_id
    }

    /// Internal consistency: ids are unique, ordered and below the next id.
    pub open spec fn wf(&self) -> bool {
        ids_ordered(self@, self.next_id())
    }

    /// An empty group.
    pub fn new() -> (r: TaskGroup)
        ensures
            r.wf(),
            r@ == Seq::<Slot>::empty(),
    {
        TaskGroup { slots: Vec::new(), next_id: 0 }
    }

    /// The number of slots not yet drained: bodies in flight plus completed
    /// ones that were not drained yet.
    pub fn len(&self) -> (r: usize)
        ensures
            r == self@.len(),
    {
        self.slots.len()
    }

    /// The status of the body with this id, if it is still in the group.
    pub fn status(&self, id: u64) -> (r: Option<TaskStatus>)
        requires
            self.wf(),
        ensures
            match r {
                Some(st) => exists|i: int| 0 <= i < self@.len() && self@[i] == (id, st),
                None => forall|i: int| 0 <= i < self@.len() ==> self@[i].0 != id,
            },
    {
        let mut i: usize = 0;
        while i < self.slots.len()
            invariant
                i <= self.slots@.len(),
                forall|j: int| 0 <= j < i ==> self.slots@[j].0 != id,
            decreases self.slots@.len() - i,
        {
            if self.slots[i].0 == id {
                assert(self@[i as int] == (id, self.slots@[i as int].1));
                return Some(self.slots[i].1);
            }
            i = i + 1;
        }
        None
    }

    /// Registers a newly spawned body as running and returns its id. Fails,
    /// changing nothing, once every id has been handed out.
    pub fn add(&mut self) -> (r: Option<u64>)
        requires
            old(self).wf(),
        ensures
            final(self).wf(),
            old(self).next_id() < u64::MAX ==> r == Some(old(self).next_id()) && final(self)@ == old(
                self,
            )@.push((old(self).next_id(), TaskStatus::Running)),
            old(self).next_id() == u64::MAX ==> r is None && final(self)@ == old(self)@,
    {
        if self.next_id == u64::MAX {
            return None;
        }
        let id = self.next_id;
        self.slots.push((id, TaskStatus::Running));
        self.next_id = id + 1;
        Some(id)
    }

    /// Records that the body with this id has completed, normally or through
    /// an abort. Returns whether the id was in the group.
    pub fn mark_done(&mut self, id: u64) -> (found: bool)
        requires
            old(self).wf(),
        ensures
            final(self).wf(),
            found == exists|i: int| 0 <= i < old(self)@.len() && old(self)@[i].0 == id,
            final(self)@ == finish_slots(old(self)@, id),
    {
        let mut i: usize = 0;
        while i < self.slots.len()
            invariant
                i <= self.slots@.len(),
                self.slots@.len() == old(self).slots@.len(),
                self.next_id == old(self).next_id,
                ids_ordered(old(self).slots@, old(self).next_id),
                forall|j: int| 0 <= j < i ==> old(self).slots@[j].0 != id,
                forall|j: int| 0 <= j < self.slots@.len() ==> self.slots@[j] == old(self).slots@[j],
            decreases self.slots@.len() - i,
        {
            if self.slots[i].0 == id {
                let ghost pre = self.slots@;
                self.slots.set(i, (id, TaskStatus::Done));
                proof {
                    let o = old(self).slots@;
                    assert(o[i as int].0 == id);
                    assert(old(self)@[i as int].0 == id);
                    assert(self.slots@ == pre.update(i as int, (id, TaskStatus::Done)));
                    assert forall|j: int| 0 <= j < o.len() implies self.slots@[j] == finish_slot(o[j], id) by {
                        if j > i {
                            assert(o[i as int].0 < o[j].0);
                            assert(pre[j] == o[j]);
                        } else if j < i {
                            assert(pre[j] == o[j]);
                        }
                    }
                    assert(self.slots@ =~= finish_slots(o, id));
                    assert forall|j: int| 0 <= j < o.len() implies #[trigger] self.slots@[j].0 == o[j].0 by {}
                }
                return true;
            }
            i = i + 1;
        }
        assert(self.slots@ =~= finish_slots(old(self).slots@, id));
        false
    }

    /// Requests an abort of every body that is still running. Idempotent.
    pub fn abort_all(&mut self)
        requires
            old(self).wf(),
        ensures
            final(self).wf(),
            final(self)@ == abort_slots(old(self)@),
    {
        let mut i: usize = 0;
        while i < self.slots.len()
            invariant
                i <= self.slots@.len(),
                self.slots@.len() == old(self).slots@.len(),
                self.next_id == old(self).next_id,
                forall|j: int|
                    0 <= j < i ==> self.slots@[j] == (old(self).slots@[j].0, aborted(
                        old(self).slots@[j].1,
                    )),
                forall|j: int| i <= j < self.slots@.len() ==> self.slots@[j] == old(self).slots@[j],
            decreases self.slots@.len() - i,
        {
            let (id, st) = self.slots[i];
            if st == TaskStatus::Running {
                self.slots.set(i, (id, TaskStatus::AbortRequested));
            }
            i = i + 1;
        }
        assert(self.slots@ =~= abort_slots(old(self)@));
    }

    /// Removes every completed slot without waiting, keeping the others in
    /// order, and returns how many were removed.
    pub fn drain_completed(&mut self) -> (removed: usize)
        requires
            old(self).wf(),
        ensures
            final(self).wf(),
            final(self)@ == undrained(old(self)@),
            removed == old(self)@.len() - final(self)@.len(),
    {
        let mut kept: Vec<Slot> = Vec::new();
        let mut i: usize = 0;
        while i < self.slots.len()
            invariant
                i <= self.slots@.len(),
                kept@ == undrained(self.slots@.subrange(0, i as int)),
                kept@.len() <= i,
                ids_ordered(self.slots@, self.next_id),
                forall|a: int| 0 <= a < kept@.len() ==> #[trigger] kept@[a].0 < self.next_id,
                forall|a: int, j: int|
                    0 <= a < kept@.len() && i <= j < self.slots@.len() ==> #[trigger] kept@[a].0
                        < #[trigger] self.slots@[j].0,
                forall|a: int, b: int|
                    0 <= a < b < kept@.len() ==> kept@[a].0 < kept@[b].0,
            decreases self.slots@.len() - i,
        {
            let ghost pre = self.slots@.subrange(0, i as int);
            let slot = self.slots[i];
            assert(self.slots@.subrange(0, i + 1).drop_last() =~= pre);
            if slot.1 != TaskStatus::Done {
                kept.push(slot);
            }
            i = i + 1;
        }
        assert(self.slots@.subrange(0, self.slots@.len() as int) =~= self.slots@);
        let removed = self.slots.len() - kept.len();
        self.slots = kept;
        removed
    }
}

} // verus!
