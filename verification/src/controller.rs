use vstd::prelude::*;

verus! {

/// Summary of a running operation's state, derived from the cancel and pause
/// flags. Cancellation always dominates pausing.
#[derive(Clone, Copy, Debug, PartialEq, Eq, Structural)]
pub enum ControllerState {
    Running,
    Paused,
    Cancelled,
}

/// The shared pause/cancel/progress handle for one running operation.
///
/// The issuer writes the pause and cancel flags and reads progress; the
/// executor reads the flags at its checkpoints and writes progress. The
/// issuer is expected to guard the whole struct with a single lock when the
/// two run concurrently; this type itself only carries the signals.
///
/// The cancel flag is monotonic: once set it is never cleared. Progress is
/// a pair of counters `items_done / items_total`; the executor only moves
/// `items_done` forward.
pub struct Controller {
    pub paused: bool,
    pub cancelled: bool,
    pub items_done: u64,
    pub items_total: u64,
}

impl Controller {
    /// Progress counters never overtake the denominator.
    pub open spec fn wf(self) -> bool {
        self.items_done <= self.items_total
    }

    /// The state summary the issuer displays: cancellation dominates
    /// pausing, pausing dominates running.
    pub open spec fn state_spec(self) -> ControllerState {
        if self.cancelled {
            ControllerState::Cancelled
        } else if self.paused {
            ControllerState::Paused
        } else {
            ControllerState::Running
        }
    }

    /// A fresh controller: not paused, not cancelled, no progress yet.
    pub fn new(items_total: u64) -> (r: Controller)
        ensures
            r == (Controller {
                paused: false,
                cancelled: false,
                items_done: 0,
                items_total: items_total,
            }),
            r.wf(),
    {
        Controller { paused: false, cancelled: false, items_done: 0, items_total }
    }

    /// Ask the executor to pause at its next checkpoint. Idempotent and
    /// cooperative: only the flag changes here.
    pub fn pause(&mut self)
        ensures
            *final(self) == (Controller { paused: true, ..*old(self) }),
    {
        self.paused = true;
    }

    /// Clear the pause flag. Idempotent.
    pub fn unpause(&mut self)
        ensures
            *final(self) == (Controller { paused: false, ..*old(self) }),
    {
        self.paused = false;
    }

    /// Ask the executor to stop at its next checkpoint. Idempotent and
    /// monotonic: the flag is never cleared again.
    pub fn cancel(&mut self)
        ensures
            *final(self) == (Controller { cancelled: true, ..*old(self) }),
    {
        self.cancelled = true;
    }

    pub fn is_paused(&self) -> (r: bool)
        ensures
            r == self.paused,
    {
        self.paused
    }

    pub fn is_cancelled(&self) -> (r: bool)
        ensures
            r == self.cancelled,
    {
        self.cancelled
    }

    /// The raw progress counters, `(done, total)`.
    pub fn progress(&self) -> (r: (u64, u64))
        ensures
            r.0 == self.items_done,
            r.1 == self.items_total,
    {
        (self.items_done, self.items_total)
    }

    /// Progress as a share of one thousand, rounded down. An operation with
    /// an empty work list reports zero until it terminates.
    pub fn progress_permille(&self) -> (r: u16)
        requires
            self.wf(),
        ensures
            r == self.progress_permille_spec(),
            r <= 1000,
    {
        if self.items_total == 0 {
            0
        } else {
            let scaled: u128 = (self.items_done as u128) * 1000 / (self.items_total as u128);
            proof {
                lemma_scaled_ratio_bounded(self.items_done as int, self.items_total as int);
            }
            scaled as u16
        }
    }

    pub open spec fn progress_permille_spec(self) -> int {
        if self.items_total == 0 {
            0
        } else {
            (self.items_done * 1000) / (self.items_total as int)
        }
    }
}

/// A ratio of counters scaled by one thousand stays at or below one
/// thousand when the numerator is at most the denominator.
proof fn lemma_scaled_ratio_bounded(done: int, total: int)
    requires
        0 <= done <= total,
        0 < total,
    ensures
        0 <= (done * 1000) / total <= 1000,
{
    assert(done * 1000 <= total * 1000) by (nonlinear_arith)
        requires
            done <= total,
    ;
    assert((total * 1000) / total == 1000) by (nonlinear_arith)
        requires
            total > 0,
    ;
    assert((done * 1000) / total <= (total * 1000) / total) by (nonlinear_arith)
        requires
            done * 1000 <= total * 1000,
            total > 0,
    ;
    assert((done * 1000) / total >= 0) by (nonlinear_arith)
        requires
            done >= 0,
            total > 0,
    ;
}

impl Controller {
    /// Write the progress counters. Called by the executor after each item.
    pub fn set_progress(&mut self, done: u64, total: u64)
        requires
            done <= total,
        ensures
            *final(self) == (Controller { items_done: done, items_total: total, ..*old(self) }),
            final(self).wf(),
    {
        self.items_done = done;
        self.items_total = total;
    }

    /// The state summary: cancellation dominates pausing.
    pub fn state(&self) -> (r: ControllerState)
        ensures
            r == self.state_spec(),
    {
        if self.cancelled {
            ControllerState::Cancelled
        } else if self.paused {
            ControllerState::Paused
        } else {
            ControllerState::Running
        }
    }
}

} // verus!
