//! The thread coordinator: a panic-capturing supervisor over a growing
//! set of spawned tasks with one shared result type.
//!
//! The bookkeeping is the verified part: tasks are numbered in spawn
//! order, every finished (or panicked) task hands in exactly one outcome
//! under its number, and the two waiting modes — first-come and all, in
//! spawn order — are stated over those numbers. The threads themselves,
//! the panic catching and the blocking channel live with the caller,
//! which reports each completion through `deliver`.

use vstd::prelude::*;

verus! {

/// How one supervised task ended: with a value, or with a captured panic.
/// The panic's payload stays with the caller that caught it.
#[derive(Clone, Copy, Debug, PartialEq, Eq)]
pub enum Outcome<T> {
    /// The task's closure returned this value.
    Finished(T),

    /// The task's closure panicked; the panic was captured, not re-raised.
    Panicked,
}

/// A thread coordinator, which simplifies the coordination of many
/// threads with the same return values.
pub struct Coordinator<T> {
    /// How many tasks were spawned; the next task gets this number.
    pub count: usize,

    /// How many outcomes a caller has not waited for yet.
    pub count_active: usize,

    /// Outcomes handed in and not yet consumed by `wait_next`, in arrival
    /// order: the model of the completion channel.
    pub pending: Vec<(usize, Outcome<T>)>,

    /// For each spawned task, whether its outcome was handed in.
    pub delivered: Vec<bool>,
}

impl<T> Coordinator<T> {
    /// The bookkeeping a coordinator keeps itself in: one delivery slot
    /// per task, no more unconsumed waiters than tasks, and every pending
    /// outcome filed once, under the number of a spawned, delivered task.
    pub open spec fn wf(&self) -> bool {
        &&& self.delivered@.len() == self.count
        &&& self.count_active <= self.count
        &&& forall|i: int|
            0 <= i < self.pending@.len() ==> (#[trigger] self.pending@[i]).0 < self.count
                && self.delivered@[self.pending@[i].0 as int]
        &&& forall|i: int, j: int|
            0 <= i < j < self.pending@.len() ==> (#[trigger] self.pending@[i]).0 != (
            #[trigger] self.pending@[j]).0
    }

    /// Whether the task numbered `id` has handed in its outcome already.
    pub open spec fn outcome_of(&self, id: int) -> Option<Outcome<T>> {
        if exists|i: int| 0 <= i < self.pending@.len() && (#[trigger] self.pending@[i]).0 == id {
            let i = choose|i: int|
                0 <= i < self.pending@.len() && (#[trigger] self.pending@[i]).0 == id;
            Some(self.pending@[i].1)
        } else {
            None
        }
    }

    /// Creates a new, initially empty, thread coordinator.
    pub fn new() -> (r: Self)
        ensures
            r.wf(),
            r.count == 0,
            r.count_active == 0,
            r.pending@ == Seq::<(usize, Outcome<T>)>::empty(),
    {
        Coordinator { count: 0, count_active: 0, pending: Vec::new(), delivered: Vec::new() }
    }

    /// Adds a task to the thread coordinator and returns its number, so
    /// the caller can start the task's closure — panics captured — and
    /// later hand its outcome in under that number.
    pub fn spawn(&mut self) -> (id: usize)
        requires
            old(self).wf(),
            old(self).count < usize::MAX,
        ensures
            final(self).wf(),
            id == old(self).count,
            final(self).count == old(self).count + 1,
            final(self).count_active == old(self).count_active + 1,
            final(self).pending == old(self).pending,
            final(self).delivered@ == old(self).delivered@.push(false),
    {
        let id = self.count;
        self.count = self.count + 1;
        self.count_active = self.count_active + 1;
        self.delivered.push(false);
        id
    }

    /// Hands in the outcome of the task numbered `id`, as the task's
    /// thread does over the completion channel when its closure returns
    /// or its panic is caught. Each task reports once: a second outcome
    /// under the same number, or one under an unknown number, is refused.
    pub fn deliver(&mut self, id: usize, outcome: Outcome<T>) -> (accepted: bool)
        requires
            old(self).wf(),
        ensures
            final(self).wf(),
            final(self).count == old(self).count,
            final(self).count_active == old(self).count_active,
            accepted == (id < old(self).count && !old(self).delivered@[id as int]),
            accepted ==> {
                &&& final(self).pending@ == old(self).pending@.push((id, outcome))
                &&& final(self).delivered@ == old(self).delivered@.update(id as int, true)
            },
            !accepted ==> *final(self) == *old(self),
    {
        if id < self.count && !self.delivered[id] {
            self.delivered[id] = true;
            self.pending.push((id, outcome));
            proof {
                let oldp = old(self).pending@;
                assert forall|i: int|
                    0 <= i < self.pending@.len() implies (#[trigger] self.pending@[i]).0
                    < self.count && self.delivered@[self.pending@[i].0 as int] by {
                    if i < oldp.len() {
                        assert(oldp[i].0 < old(self).count);
                        assert(old(self).delivered@[oldp[i].0 as int]);
                    }
                }
                assert forall|i: int, j: int|
                    0 <= i < j < self.pending@.len() implies (#[trigger] self.pending@[i]).0 != (
                #[trigger] self.pending@[j]).0 by {
                    if j == self.pending@.len() - 1 {
                        assert(old(self).delivered@[oldp[i].0 as int]);
                    }
                }
            }
            true
        } else {
            false
        }
    }

    /// If there are any running tasks, takes the outcome that arrived
    /// first — necessarily one of the finished or panicked tasks, never a
    /// still-running one — without waiting for the rest. If there are no
    /// running tasks, returns `None` instantly.
    ///
    /// In the running system this blocks on the completion channel until
    /// some task reports; here the caller delivers an outcome first, and
    /// that blocking point is the requirement that one is pending.
    pub fn wait_next(&mut self) -> (r: Option<Outcome<T>>)
        requires
            old(self).wf(),
            old(self).count_active > 0 ==> old(self).pending@.len() > 0,
        ensures
            final(self).wf(),
            final(self).count == old(self).count,
            final(self).delivered == old(self).delivered,
            old(self).count_active == 0 ==> {
                &&& r is None
                &&& *final(self) == *old(self)
            },
            old(self).count_active > 0 ==> {
                &&& r == Some(old(self).pending@[0].1)
                &&& final(self).pending@ == old(self).pending@.drop_first()
                &&& final(self).count_active == old(self).count_active - 1
            },
    {
        if self.count_active == 0 {
            return None;
        }
        self.count_active = self.count_active - 1;
        let first = self.pending.remove(0);
        Some(first.1)
    }

    /// Reports every task's outcome, indexed by spawn order: the tasks
    /// that handed an outcome in stand under their numbers, and a task
    /// that never reported — still blocked when the run was torn down, or
    /// already consumed by `wait_next` — is left as `None`.
    ///
    /// In the running system this blocks until every active task reports;
    /// the outcomes the caller delivered first are the ones reported.
    pub fn wait_all(self) -> (r: Vec<Option<Outcome<T>>>)
        requires
            self.wf(),
        ensures
            r@.len() == self.count,
            forall|i: int|
                0 <= i < self.pending@.len() ==> r@[(#[trigger] self.pending@[i]).0 as int]
                    == Some(self.pending@[i].1),
            forall|id: int|
                0 <= id < self.count && (forall|i: int|
                    0 <= i < self.pending@.len() ==> (#[trigger] self.pending@[i]).0 != id)
                    ==> #[trigger] r@[id] is None,
    {
        let mut responses: Vec<Option<Outcome<T>>> = Vec::new();
        let n = self.count;
        let mut i: usize = 0;
        while i < n
            invariant
                i <= n,
                responses@.len() == i,
                forall|j: int| 0 <= j < i ==> #[trigger] responses@[j] is None,
            decreases n - i,
        {
            responses.push(None);
            i += 1;
        }

        let mut pending = self.pending;
        let ghost all = pending@;
        let mut k: usize = 0;
        let m = pending.len();
        while k < m
            invariant
                k <= m,
                m == all.len(),
                pending@ == all.skip(k as int),
                responses@.len() == self.count,
                forall|i: int|
                    0 <= i < all.len() ==> (#[trigger] all[i]).0 < self.count,
                forall|i: int, j: int|
                    0 <= i < j < all.len() ==> (#[trigger] all[i]).0 != (#[trigger] all[j]).0,
                forall|j: int|
                    0 <= j < k ==> responses@[(#[trigger] all[j]).0 as int] == Some(all[j].1),
                forall|id: int|
                    0 <= id < self.count && (forall|i: int|
                        0 <= i < k ==> (#[trigger] all[i]).0 != id) ==> #[trigger] responses@[id]
                        is None,
            decreases m - k,
        {
            let entry = pending.remove(0);
            proof {
                assert(entry == all[k as int]);
                assert(pending@ =~= all.skip(k as int + 1));
            }
            let id = entry.0;
            responses[id] = Some(entry.1);
            k += 1;
        }
        responses
    }
}

} // verus!
