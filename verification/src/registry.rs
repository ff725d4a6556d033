use vstd::prelude::*;

use crate::controller::Controller;
use crate::executor::initial_executor_for;
use crate::executor::step_post;
use crate::executor::Action;
use crate::executor::Event;
use crate::executor::Executor;
use crate::executor::OpError;
use crate::executor::Outcome;
use crate::executor::Phase;
use crate::executor::Termination;
use crate::operation::Operation;

verus! {

/// One in-flight operation: its description, its shared control handle,
/// and its execution state machine.
pub struct PendingEntry {
    pub id: u64,
    pub op: Operation,
    pub controller: Controller,
    pub executor: Executor,
}

/// One successfully finished operation, kept until the user dismisses it.
pub struct CompleteEntry {
    pub id: u64,
    pub op: Operation,
}

/// One operation that terminated without completing: either cancelled by
/// the user (no error dialog is owed) or failed, carrying the typed
/// error. Kept until the user dismisses it.
pub struct FailedEntry {
    pub id: u64,
    pub op: Operation,
    pub controller: Controller,
    pub term: Termination,
}

/// Aggregate progress for the single combined indicator: how many
/// progress-worthy operations still run, how many finished ones await
/// acknowledgement, and the mean progress of the running ones in
/// thousandths.
#[derive(Clone, Copy, Debug, Eq, PartialEq, Structural)]
pub struct ProgressSnapshot {
    pub running: u64,
    pub finished: u64,
    pub mean_permille: u16,
}

/// A pending entry is internally consistent: its machine and controller
/// are well formed and agree on progress.
pub open spec fn entry_wf(e: PendingEntry) -> bool {
    &&& e.executor.wf()
    &&& e.controller.wf()
    &&& e.executor.coupled(e.controller)
}

/// The number of progress-worthy operations among the pending entries.
pub open spec fn count_progress_worthy(s: Seq<PendingEntry>) -> int
    decreases s.len(),
{
    if s.len() == 0 {
        0
    } else {
        count_progress_worthy(s.drop_last()) + if s.last().op.progress_worthy() {
            1int
        } else {
            0int
        }
    }
}

/// The summed progress (in thousandths) of the progress-worthy pending
/// entries.
pub open spec fn sum_permille(s: Seq<PendingEntry>) -> int
    decreases s.len(),
{
    if s.len() == 0 {
        0
    } else {
        sum_permille(s.drop_last()) + if s.last().op.progress_worthy() {
            s.last().controller.progress_permille_spec()
        } else {
            0int
        }
    }
}

/// The number of progress-worthy operations among the complete entries:
/// finished work the user has not acknowledged yet.
pub open spec fn count_complete_worthy(s: Seq<CompleteEntry>) -> int
    decreases s.len(),
{
    if s.len() == 0 {
        0
    } else {
        count_complete_worthy(s.drop_last()) + if s.last().op.progress_worthy() {
            1int
        } else {
            0int
        }
    }
}

/// The engine's public surface: tracks every in-flight, completed and
/// failed operation under a strictly increasing 64-bit identifier that
/// is never reused within the registry's lifetime. Each identifier sits
/// in exactly one of the three collections, moving from pending to
/// complete or failed exactly once and never back.
pub struct PendingRegistry {
    pub next_id: u64,
    pub pending: Vec<PendingEntry>,
    pub complete: Vec<CompleteEntry>,
    pub failed: Vec<FailedEntry>,
}

impl PendingRegistry {
    pub open spec fn pending_ids(self) -> Seq<u64> {
        self.pending@.map(|i: int, e: PendingEntry| e.id)
    }

    pub open spec fn has_pending(self, id: u64) -> bool {
        exists|i: int| 0 <= i < self.pending@.len() && (#[trigger] self.pending@[i]).id == id
    }

    /// Identifier discipline: every issued id is below `next_id`; the
    /// pending list is ordered by id; no id appears twice anywhere.
    pub open spec fn ids_wf(self) -> bool {
        &&& forall|i: int|
            0 <= i < self.pending@.len() ==> (#[trigger] self.pending@[i]).id < self.next_id
        &&& forall|i: int|
            0 <= i < self.complete@.len() ==> (#[trigger] self.complete@[i]).id < self.next_id
        &&& forall|i: int|
            0 <= i < self.failed@.len() ==> (#[trigger] self.failed@[i]).id < self.next_id
        &&& forall|i: int, j: int|
            0 <= i < j < self.pending@.len() ==> (#[trigger] self.pending@[i]).id < (
            #[trigger] self.pending@[j]).id
        &&& forall|i: int, j: int|
            0 <= i < self.complete@.len() && 0 <= j < self.complete@.len() && i != j ==> (
            #[trigger] self.complete@[i]).id != (#[trigger] self.complete@[j]).id
        &&& forall|i: int, j: int|
            0 <= i < self.failed@.len() && 0 <= j < self.failed@.len() && i != j ==> (
            #[trigger] self.failed@[i]).id != (#[trigger] self.failed@[j]).id
        &&& forall|i: int, j: int|
            0 <= i < self.pending@.len() && 0 <= j < self.complete@.len() ==> (
            #[trigger] self.pending@[i]).id != (#[trigger] self.complete@[j]).id
        &&& forall|i: int, j: int|
            0 <= i < self.pending@.len() && 0 <= j < self.failed@.len() ==> (
            #[trigger] self.pending@[i]).id != (#[trigger] self.failed@[j]).id
        &&& forall|i: int, j: int|
            0 <= i < self.complete@.len() && 0 <= j < self.failed@.len() ==> (
            #[trigger] self.complete@[i]).id != (#[trigger] self.failed@[j]).id
    }

    pub open spec fn wf(self) -> bool {
        &&& self.ids_wf()
        &&& forall|i: int| 0 <= i < self.pending@.len() ==> entry_wf(#[trigger] self.pending@[i])
        &&& forall|i: int|
            0 <= i < self.failed@.len() ==> (#[trigger] self.failed@[i]).term
                != Termination::Completed
    }

    /// An empty registry, as created with the application.
    pub fn new() -> (r: PendingRegistry)
        ensures
            r.wf(),
            r.next_id == 0,
            r.pending@.len() == 0,
            r.complete@.len() == 0,
            r.failed@.len() == 0,
    {
        PendingRegistry {
            next_id: 0,
            pending: Vec::new(),
            complete: Vec::new(),
            failed: Vec::new(),
        }
    }

    /// Register `op`: allocate the next identifier, build a fresh
    /// controller and executor for it, and file it as pending. Returns
    /// the identifier immediately; the caller spawns the runner that
    /// will drive the new entry.
    pub fn submit(&mut self, op: Operation) -> (id: u64)
        requires
            old(self).wf(),
            old(self).next_id < u64::MAX,
        ensures
            final(self).wf(),
            id == old(self).next_id,
            final(self).next_id == old(self).next_id + 1,
            final(self).complete == old(self).complete,
            final(self).failed == old(self).failed,
            final(self).pending@.len() == old(self).pending@.len() + 1,
            forall|i: int|
                0 <= i < old(self).pending@.len() ==> final(self).pending@[i] == old(
                    self,
                ).pending@[i],
            final(self).pending@.last().id == id,
            final(self).pending@.last().op == op,
            initial_executor_for(final(self).pending@.last().executor, op),
            final(self).pending@.last().controller == (Controller {
                paused: false,
                cancelled: false,
                items_done: 0,
                items_total: final(self).pending@.last().executor.plan.len() as u64,
            }),
    {
        let id = self.next_id;
        self.next_id = self.next_id + 1;
        let executor = Executor::new(&op);
        let controller = Controller::new(executor.items_total());
        self.pending.push(PendingEntry { id, op, controller, executor });
        id
    }

    /// Whether `id` is still in flight.
    pub fn is_pending(&self, id: u64) -> (r: bool)
        ensures
            r == self.has_pending(id),
    {
        let mut i: usize = 0;
        while i < self.pending.len()
            invariant
                i <= self.pending.len(),
                forall|j: int| 0 <= j < i ==> (#[trigger] self.pending@[j]).id != id,
            decreases self.pending.len() - i,
        {
            if self.pending[i].id == id {
                return true;
            }
            i = i + 1;
        }
        false
    }

    /// The position of `id` in the pending list, if it is still there.
    fn find_pending(&self, id: u64) -> (r: Option<usize>)
        ensures
            match r {
                Some(i) => i < self.pending@.len() && self.pending@[i as int].id == id,
                None => !self.has_pending(id),
            },
    {
        let mut i: usize = 0;
        while i < self.pending.len()
            invariant
                i <= self.pending.len(),
                forall|j: int| 0 <= j < i ==> (#[trigger] self.pending@[j]).id != id,
            decreases self.pending.len() - i,
        {
            if self.pending[i].id == id {
                return Some(i);
            }
            i = i + 1;
        }
        None
    }

    /// Ask the operation `id` to pause at its next checkpoint. A missing
    /// id (already finished) is a no-op. Only the flag changes: pausing
    /// is cooperative.
    pub fn pause(&mut self, id: u64) -> (found: bool)
        requires
            old(self).wf(),
        ensures
            final(self).wf(),
            found == old(self).has_pending(id),
            final(self).next_id == old(self).next_id,
            final(self).complete == old(self).complete,
            final(self).failed == old(self).failed,
            final(self).pending@.len() == old(self).pending@.len(),
            forall|i: int|
                0 <= i < old(self).pending@.len() && old(self).pending@[i].id != id ==> final(self).pending@[i] == old(self).pending@[i],
            forall|i: int|
                0 <= i < old(self).pending@.len() && old(self).pending@[i].id == id ==> final(self).pending@[i] == (PendingEntry {
                    controller: (Controller { paused: true, ..old(self).pending@[i].controller }),
                    ..old(self).pending@[i]
                }),
    {
        match self.find_pending(id) {
            None => false,
            Some(i) => {
                let mut e = self.pending.remove(i);
                e.controller.pause();
                self.pending.insert(i, e);
                proof {
                    assert(self.pending@ =~= old(self).pending@.update(
                        i as int,
                        self.pending@[i as int],
                    ));
                }
                true
            },
        }
    }

    /// Clear the pause flag of operation `id`.
    pub fn unpause(&mut self, id: u64) -> (found: bool)
        requires
            old(self).wf(),
        ensures
            final(self).wf(),
            found == old(self).has_pending(id),
            final(self).next_id == old(self).next_id,
            final(self).complete == old(self).complete,
            final(self).failed == old(self).failed,
            final(self).pending@.len() == old(self).pending@.len(),
            forall|i: int|
                0 <= i < old(self).pending@.len() && old(self).pending@[i].id != id ==> final(self).pending@[i] == old(self).pending@[i],
            forall|i: int|
                0 <= i < old(self).pending@.len() && old(self).pending@[i].id == id ==> final(self).pending@[i] == (PendingEntry {
                    controller: (Controller { paused: false, ..old(self).pending@[i].controller }),
                    ..old(self).pending@[i]
                }),
    {
        match self.find_pending(id) {
            None => false,
            Some(i) => {
                let mut e = self.pending.remove(i);
                e.controller.unpause();
                self.pending.insert(i, e);
                proof {
                    assert(self.pending@ =~= old(self).pending@.update(
                        i as int,
                        self.pending@[i as int],
                    ));
                }
                true
            },
        }
    }

    /// Ask the operation `id` to stop at its next checkpoint. Monotonic:
    /// once set, the flag is never cleared again.
    pub fn cancel(&mut self, id: u64) -> (found: bool)
        requires
            old(self).wf(),
        ensures
            final(self).wf(),
            found == old(self).has_pending(id),
            final(self).next_id == old(self).next_id,
            final(self).complete == old(self).complete,
            final(self).failed == old(self).failed,
            final(self).pending@.len() == old(self).pending@.len(),
            forall|i: int|
                0 <= i < old(self).pending@.len() && old(self).pending@[i].id != id ==> final(self).pending@[i] == old(self).pending@[i],
            forall|i: int|
                0 <= i < old(self).pending@.len() && old(self).pending@[i].id == id ==> final(self).pending@[i] == (PendingEntry {
                    controller: (Controller {
                        cancelled: true,
                        ..old(self).pending@[i].controller
                    }),
                    ..old(self).pending@[i]
                }),
    {
        match self.find_pending(id) {
            None => false,
            Some(i) => {
                let mut e = self.pending.remove(i);
                e.controller.cancel();
                self.pending.insert(i, e);
                proof {
                    assert(self.pending@ =~= old(self).pending@.update(
                        i as int,
                        self.pending@[i as int],
                    ));
                }
                true
            },
        }
    }

    /// Fan a pause or unpause out to every pending operation.
    pub fn pause_all(&mut self, pause: bool)
        requires
            old(self).wf(),
        ensures
            final(self).wf(),
            final(self).next_id == old(self).next_id,
            final(self).complete == old(self).complete,
            final(self).failed == old(self).failed,
            final(self).pending@.len() == old(self).pending@.len(),
            forall|i: int|
                0 <= i < old(self).pending@.len() ==> final(self).pending@[i] == (PendingEntry {
                    controller: (Controller { paused: pause, ..old(self).pending@[i].controller }),
                    ..old(self).pending@[i]
                }),
    {
        let n = self.pending.len();
        let mut i: usize = 0;
        while i < n
            invariant
                old(self).wf(),
                n == self.pending.len(),
                i <= n,
                self.next_id == old(self).next_id,
                self.complete == old(self).complete,
                self.failed == old(self).failed,
                self.pending@.len() == old(self).pending@.len(),
                forall|j: int|
                    i <= j < n ==> (#[trigger] self.pending@[j]) == old(self).pending@[j],
                forall|j: int|
                    0 <= j < i ==> (#[trigger] self.pending@[j]) == (PendingEntry {
                        controller: (Controller {
                            paused: pause,
                            ..old(self).pending@[j].controller
                        }),
                        ..old(self).pending@[j]
                    }),
            decreases n - i,
        {
            let mut e = self.pending.remove(i);
            if pause {
                e.controller.pause();
            } else {
                e.controller.unpause();
            }
            self.pending.insert(i, e);
            i = i + 1;
        }
    }

    /// Fan cancellation out to every pending operation: the best-effort
    /// teardown path.
    pub fn cancel_all(&mut self)
        requires
            old(self).wf(),
        ensures
            final(self).wf(),
            final(self).next_id == old(self).next_id,
            final(self).complete == old(self).complete,
            final(self).failed == old(self).failed,
            final(self).pending@.len() == old(self).pending@.len(),
            forall|i: int|
                0 <= i < old(self).pending@.len() ==> final(self).pending@[i] == (PendingEntry {
                    controller: (Controller {
                        cancelled: true,
                        ..old(self).pending@[i].controller
                    }),
                    ..old(self).pending@[i]
                }),
    {
        let n = self.pending.len();
        let mut i: usize = 0;
        while i < n
            invariant
                old(self).wf(),
                n == self.pending.len(),
                i <= n,
                self.next_id == old(self).next_id,
                self.complete == old(self).complete,
                self.failed == old(self).failed,
                self.pending@.len() == old(self).pending@.len(),
                forall|j: int|
                    i <= j < n ==> (#[trigger] self.pending@[j]) == old(self).pending@[j],
                forall|j: int|
                    0 <= j < i ==> (#[trigger] self.pending@[j]) == (PendingEntry {
                        controller: (Controller {
                            cancelled: true,
                            ..old(self).pending@[j].controller
                        }),
                        ..old(self).pending@[j]
                    }),
            decreases n - i,
        {
            let mut e = self.pending.remove(i);
            e.controller.cancel();
            self.pending.insert(i, e);
            i = i + 1;
        }
    }

    /// Drive the state machine of operation `id` by one transition. The
    /// runner calls this with each event it gathered; the returned
    /// action is what it must do next. `None` means the id is no longer
    /// pending. Touches no other entry, so one operation's sticky
    /// conflict choice, progress or cancellation can never leak into a
    /// concurrently running one.
    pub fn step_pending(&mut self, id: u64, event: Event) -> (r: Option<Action>)
        requires
            old(self).wf(),
        ensures
            final(self).wf(),
            final(self).next_id == old(self).next_id,
            final(self).complete == old(self).complete,
            final(self).failed == old(self).failed,
            final(self).pending@.len() == old(self).pending@.len(),
            r is None <==> !old(self).has_pending(id),
            r is None ==> *final(self) == *old(self),
            forall|i: int|
                0 <= i < old(self).pending@.len() && old(self).pending@[i].id != id ==> final(self).pending@[i] == old(self).pending@[i],
            forall|i: int|
                0 <= i < old(self).pending@.len() && old(self).pending@[i].id == id ==> {
                    &&& final(self).pending@[i].id == id
                    &&& final(self).pending@[i].op == old(self).pending@[i].op
                    &&& (r matches Some(action) && step_post(
                        old(self).pending@[i].executor,
                        old(self).pending@[i].controller,
                        event,
                        final(self).pending@[i].executor,
                        final(self).pending@[i].controller,
                        action,
                    ))
                },
    {
        match self.find_pending(id) {
            None => None,
            Some(i) => {
                let mut e = self.pending.remove(i);
                let action = e.executor.step(&mut e.controller, event);
                self.pending.insert(i, e);
                proof {
                    assert(self.pending@ =~= old(self).pending@.update(
                        i as int,
                        self.pending@[i as int],
                    ));
                }
                Some(action)
            },
        }
    }

    /// File the terminated operation `id` out of pending and hand back
    /// its outcome: a completed operation moves to the complete list, a
    /// cancelled or failed one to the failed list with its termination.
    /// `None` — the id is not pending, or its machine has not reached a
    /// terminal state — changes nothing; calling this in that situation
    /// is a programming error in the runner.
    pub fn finish(&mut self, id: u64) -> (r: Option<Outcome>)
        requires
            old(self).wf(),
        ensures
            final(self).wf(),
            final(self).next_id == old(self).next_id,
            r is None ==> *final(self) == *old(self),
            (r is None) <==> !(exists|i: int|
                0 <= i < old(self).pending@.len() && (#[trigger] old(self).pending@[i]).id == id
                    && old(self).pending@[i].executor.phase is Finished),
            r matches Some(outcome) ==> exists|i: int|
                #![auto]
                0 <= i < old(self).pending@.len() && old(self).pending@[i].id == id && finish_post(
                    *old(self),
                    *final(self),
                    i,
                    outcome,
                ),
    {
        match self.find_pending(id) {
            None => None,
            Some(i) => {
                if !self.pending[i].executor.is_finished() {
                    proof {
                        let i_ = i as int;
                        assert forall|j: int|
                            0 <= j < self.pending@.len() && (#[trigger] self.pending@[j]).id
                                == id implies j == i_ by {
                            if j < i_ {
                                assert(self.pending@[j].id < self.pending@[i_].id);
                            } else if j > i_ {
                                assert(self.pending@[i_].id < self.pending@[j].id);
                            }
                        }
                    }
                    return None;
                }
                let e = self.pending.remove(i);
                let PendingEntry { id: eid, op, controller, executor } = e;
                let outcome = executor.into_outcome();
                match &outcome {
                    Outcome::Completed { .. } => {
                        self.complete.push(CompleteEntry { id: eid, op });
                    },
                    Outcome::Cancelled => {
                        self.failed.push(
                            FailedEntry { id: eid, op, controller, term: Termination::Cancelled },
                        );
                    },
                    Outcome::Failed { error } => {
                        let term = Termination::Failed { error: clone_op_error(error) };
                        self.failed.push(FailedEntry { id: eid, op, controller, term });
                    },
                }
                proof {
                    let i_ = i as int;
                    assert(self.pending@ == old(self).pending@.remove(i_));
                    assert(finish_post(*old(self), *self, i_, outcome));
                }
                Some(outcome)
            },
        }
    }
}

impl PendingRegistry {
    /// Aggregate progress over the pending operations whose kind is
    /// progress-worthy, for the single combined indicator: how many
    /// run, how many completed ones await acknowledgement, and the
    /// mean progress of the running ones in thousandths (zero when
    /// none runs).
    pub fn progress_snapshot(&self) -> (r: ProgressSnapshot)
        requires
            self.wf(),
        ensures
            r.running == count_progress_worthy(self.pending@),
            r.finished == count_complete_worthy(self.complete@),
            r.mean_permille == (if count_progress_worthy(self.pending@) == 0 {
                0int
            } else {
                sum_permille(self.pending@) / count_progress_worthy(self.pending@)
            }),
    {
        let mut running: u64 = 0;
        let mut sum: u128 = 0;
        let mut i: usize = 0;
        while i < self.pending.len()
            invariant
                self.wf(),
                i <= self.pending.len(),
                running == count_progress_worthy(self.pending@.take(i as int)),
                sum == sum_permille(self.pending@.take(i as int)),
                running <= i,
                sum <= 1000 * (running as int),
            decreases self.pending.len() - i,
        {
            proof {
                assert(self.pending@.take(i + 1).drop_last() =~= self.pending@.take(i as int));
                assert(self.pending@.take(i + 1).last() == self.pending@[i as int]);
            }
            let e = &self.pending[i];
            if e.op.show_progress_notification() {
                running = running + 1;
                sum = sum + e.controller.progress_permille() as u128;
            }
            i = i + 1;
        }
        proof {
            assert(self.pending@.take(self.pending@.len() as int) =~= self.pending@);
        }
        let mean_permille: u16 = if running == 0 {
            0
        } else {
            proof {
                lemma_mean_bounded(sum as int, running as int);
            }
            (sum / (running as u128)) as u16
        };
        let mut finished: u64 = 0;
        let mut j: usize = 0;
        while j < self.complete.len()
            invariant
                j <= self.complete.len(),
                finished == count_complete_worthy(self.complete@.take(j as int)),
                finished <= j,
            decreases self.complete.len() - j,
        {
            proof {
                assert(self.complete@.take(j + 1).drop_last() =~= self.complete@.take(j as int));
                assert(self.complete@.take(j + 1).last() == self.complete@[j as int]);
            }
            if self.complete[j].op.show_progress_notification() {
                finished = finished + 1;
            }
            j = j + 1;
        }
        proof {
            assert(self.complete@.take(self.complete@.len() as int) =~= self.complete@);
        }
        ProgressSnapshot { running, finished, mean_permille }
    }

    /// Evict a complete entry after the user dismissed it. Its id is
    /// gone for good: it is never reissued.
    pub fn dismiss_complete(&mut self, id: u64) -> (found: bool)
        requires
            old(self).wf(),
        ensures
            final(self).wf(),
            final(self).next_id == old(self).next_id,
            final(self).pending == old(self).pending,
            final(self).failed == old(self).failed,
            !found ==> *final(self) == *old(self),
            !found ==> !(exists|i: int|
                0 <= i < old(self).complete@.len() && (#[trigger] old(self).complete@[i]).id
                    == id),
            found ==> exists|i: int|
                #![auto]
                0 <= i < old(self).complete@.len() && old(self).complete@[i].id == id && final(self).complete@ == old(self).complete@.remove(i),
    {
        match self.find_complete(id) {
            None => false,
            Some(i) => {
                self.complete.remove(i);
                true
            },
        }
    }

    /// Evict a failed entry after the user dismissed it.
    pub fn dismiss_failed(&mut self, id: u64) -> (found: bool)
        requires
            old(self).wf(),
        ensures
            final(self).wf(),
            final(self).next_id == old(self).next_id,
            final(self).pending == old(self).pending,
            final(self).complete == old(self).complete,
            !found ==> *final(self) == *old(self),
            !found ==> !(exists|i: int|
                0 <= i < old(self).failed@.len() && (#[trigger] old(self).failed@[i]).id == id),
            found ==> exists|i: int|
                #![auto]
                0 <= i < old(self).failed@.len() && old(self).failed@[i].id == id && final(self).failed@ == old(self).failed@.remove(i),
    {
        match self.find_failed(id) {
            None => false,
            Some(i) => {
                self.failed.remove(i);
                true
            },
        }
    }

    /// The position of `id` among the complete entries, if it is there.
    fn find_complete(&self, id: u64) -> (r: Option<usize>)
        ensures
            match r {
                Some(i) => i < self.complete@.len() && self.complete@[i as int].id == id,
                None => !(exists|i: int|
                    0 <= i < self.complete@.len() && (#[trigger] self.complete@[i]).id == id),
            },
    {
        let mut i: usize = 0;
        while i < self.complete.len()
            invariant
                i <= self.complete.len(),
                forall|j: int| 0 <= j < i ==> (#[trigger] self.complete@[j]).id != id,
            decreases self.complete.len() - i,
        {
            if self.complete[i].id == id {
                return Some(i);
            }
            i = i + 1;
        }
        None
    }

    /// The position of `id` among the failed entries, if it is there.
    fn find_failed(&self, id: u64) -> (r: Option<usize>)
        ensures
            match r {
                Some(i) => i < self.failed@.len() && self.failed@[i as int].id == id,
                None => !(exists|i: int|
                    0 <= i < self.failed@.len() && (#[trigger] self.failed@[i]).id == id),
            },
    {
        let mut i: usize = 0;
        while i < self.failed.len()
            invariant
                i <= self.failed.len(),
                forall|j: int| 0 <= j < i ==> (#[trigger] self.failed@[j]).id != id,
            decreases self.failed.len() - i,
        {
            if self.failed[i].id == id {
                return Some(i);
            }
            i = i + 1;
        }
        None
    }
}

/// The mean of summed thousandths stays a thousandth figure: dividing a
/// sum bounded by a thousand per contributor by the number of
/// contributors lands in `[0, 1000]`.
proof fn lemma_mean_bounded(sum: int, count: int)
    requires
        0 < count,
        0 <= sum <= 1000 * count,
    ensures
        0 <= sum / count <= 1000,
{
    assert((1000 * count) / count == 1000) by (nonlinear_arith)
        requires
            count > 0,
    ;
    assert(sum / count <= (1000 * count) / count) by (nonlinear_arith)
        requires
            sum <= 1000 * count,
            count > 0,
    ;
    assert(sum / count >= 0) by (nonlinear_arith)
        requires
            sum >= 0,
            count > 0,
    ;
}

/// What `finish` does when it files the pending entry at position `i`:
/// the entry leaves the pending list and lands, with its identifier and
/// operation, where its termination belongs; the returned outcome
/// carries the selection, the collected trash handles, or the error.
pub open spec fn finish_post(
    pre: PendingRegistry,
    post: PendingRegistry,
    i: int,
    outcome: Outcome,
) -> bool {
    let e = pre.pending@[i];
    &&& post.pending@ == pre.pending@.remove(i)
    &&& match e.executor.phase {
        Phase::Finished { term } => match term {
            Termination::Completed => {
                &&& post.complete@ == pre.complete@.push(CompleteEntry { id: e.id, op: e.op })
                &&& post.failed == pre.failed
                &&& outcome matches Outcome::Completed { selection, trashed }
                &&& selection.selected == e.executor.selected
                &&& selection.ignored == e.executor.ignored
                &&& trashed == e.executor.trashed
            },
            Termination::Cancelled => {
                &&& post.failed@ == pre.failed@.push(
                    FailedEntry {
                        id: e.id,
                        op: e.op,
                        controller: e.controller,
                        term: Termination::Cancelled,
                    },
                )
                &&& post.complete == pre.complete
                &&& outcome is Cancelled
            },
            Termination::Failed { error } => {
                &&& post.failed@ == pre.failed@.push(
                    FailedEntry {
                        id: e.id,
                        op: e.op,
                        controller: e.controller,
                        term: Termination::Failed { error },
                    },
                )
                &&& post.complete == pre.complete
                &&& outcome matches Outcome::Failed { error: e2 } && e2 == error
            },
        },
        _ => false,
    }
}

impl PendingRegistry {
    /// An identifier addresses at most one operation at any time: a
    /// pending id sits in neither the complete nor the failed list, and
    /// within each list every id appears once. Together with `finish`,
    /// which moves an id out of pending exactly once, and `submit`,
    /// which only issues fresh ids, this is the
    /// pending-to-terminal-exactly-once lifecycle.
    pub proof fn lemma_id_in_one_collection(self, i: int, j: int)
        requires
            self.wf(),
        ensures
            0 <= i < self.pending@.len() && 0 <= j < self.complete@.len() ==> self.pending@[i].id
                != self.complete@[j].id,
            0 <= i < self.pending@.len() && 0 <= j < self.failed@.len() ==> self.pending@[i].id
                != self.failed@[j].id,
            0 <= i < self.complete@.len() && 0 <= j < self.failed@.len() ==> self.complete@[i].id
                != self.failed@[j].id,
            0 <= i < j < self.pending@.len() ==> self.pending@[i].id != self.pending@[j].id,
            0 <= i < self.complete@.len() && 0 <= j < self.complete@.len() && i != j
                ==> self.complete@[i].id != self.complete@[j].id,
            0 <= i < self.failed@.len() && 0 <= j < self.failed@.len() && i != j
                ==> self.failed@[i].id != self.failed@[j].id,
    {
    }
}

/// An exact copy of a typed operation error.
fn clone_op_error(e: &OpError) -> (r: OpError)
    ensures
        r == *e,
{
    match e {
        OpError::PasswordRequired => OpError::PasswordRequired,
        OpError::Failure { path, message } => OpError::Failure {
            path: path.clone(),
            message: message.clone(),
        },
    }
}

} // verus!
