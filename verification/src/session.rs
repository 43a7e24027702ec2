//! The steps by which the panel takes the terminal and gives it back.
//!
//! The caller owns the terminal and does the work; this module decides what
//! comes next. The caller takes the step that a [`Session`] names, reports
//! whether it went well, and gets the session that follows. Once raw mode is
//! on, every way to the end leads through both steps that undo it, whatever
//! fails in between.

use vstd::prelude::*;

verus! {

/// For how many seconds the panel stays on the screen.
pub const DWELL_SECONDS: u64 = 3;

/// One thing for the caller to do.
#[derive(Debug, Clone, Copy, PartialEq, Eq, Structural)]
pub enum Step {
    /// Switch the terminal's input to raw mode.
    EnableRaw,
    /// Switch to the alternate screen.
    EnterAlternate,
    /// Draw the panel.
    Draw,
    /// Leave the panel on the screen for the dwell time.
    Dwell,
    /// Switch raw mode off.
    DisableRaw,
    /// Go back to the main screen.
    LeaveAlternate,
    /// Nothing is left to do.
    Finish,
}

impl Step {
    /// How many steps are still to be taken, this one included, if all of
    /// them go well.
    pub open spec fn steps_left(self) -> nat {
        match self {
            Step::EnableRaw => 6,
            Step::EnterAlternate => 5,
            Step::Draw => 4,
            Step::Dwell => 3,
            Step::DisableRaw => 2,
            Step::LeaveAlternate => 1,
            Step::Finish => 0,
        }
    }

    /// The step that follows this one when it went well (`ok`) or failed.
    /// A failure before the terminal is held ends the session; one while it
    /// is held leads straight to giving it back; the two steps that give it
    /// back are both taken, whether or not the first went well.
    pub open spec fn followed_by(self, ok: bool) -> Step {
        match self {
            Step::EnableRaw => if ok {
                Step::EnterAlternate
            } else {
                Step::Finish
            },
            Step::EnterAlternate => if ok {
                Step::Draw
            } else {
                Step::DisableRaw
            },
            Step::Draw => if ok {
                Step::Dwell
            } else {
                Step::DisableRaw
            },
            Step::Dwell => Step::DisableRaw,
            Step::DisableRaw => Step::LeaveAlternate,
            Step::LeaveAlternate => Step::Finish,
            Step::Finish => Step::Finish,
        }
    }
}

/// Where a showing of the panel stands.
#[derive(Debug, Clone, Copy, PartialEq, Eq, Structural)]
pub struct Session {
    /// The step to take now.
    pub next: Step,
    /// Raw mode was switched on and no attempt was made yet to switch it off.
    pub raw: bool,
    /// The alternate screen was entered and no attempt was made yet to leave it.
    pub alternate: bool,
    /// The first step that failed, if any did.
    pub failed: Option<Step>,
}

impl Session {
    /// The session before anything was done to the terminal.
    pub open spec fn initial() -> Session {
        Session { next: Step::EnableRaw, raw: false, alternate: false, failed: None }
    }

    /// The terminal is as the session found it: neither raw mode nor the
    /// alternate screen is held.
    pub open spec fn terminal_normal(self) -> bool {
        !self.raw && !self.alternate
    }

    /// The session is over.
    pub open spec fn finished(self) -> bool {
        self.next == Step::Finish
    }

    /// What is held fits the step that is due, and nothing failed on the way
    /// to a step that is only reached when all went well.
    pub open spec fn wf(self) -> bool {
        match self.next {
            Step::EnableRaw => !self.raw && !self.alternate && self.failed is None,
            Step::EnterAlternate => self.raw && !self.alternate && self.failed is None,
            Step::Draw => self.raw && self.alternate && self.failed is None,
            Step::Dwell => self.raw && self.alternate && self.failed is None,
            Step::DisableRaw => self.raw,
            Step::LeaveAlternate => !self.raw,
            Step::Finish => !self.raw && !self.alternate,
        }
    }

    /// The session that follows when the step that was due went well (`ok`)
    /// or failed.
    pub open spec fn after(self, ok: bool) -> Session {
        Session {
            next: self.next.followed_by(ok),
            raw: match self.next {
                Step::EnableRaw => ok,
                Step::DisableRaw => false,
                _ => self.raw,
            },
            alternate: match self.next {
                Step::EnterAlternate => ok,
                Step::LeaveAlternate => false,
                _ => self.alternate,
            },
            failed: if ok || self.failed is Some || self.finished() {
                self.failed
            } else {
                Some(self.next)
            },
        }
    }

    /// The session that follows a run of steps with the given outcomes,
    /// first to last.
    pub open spec fn after_all(self, outcomes: Seq<bool>) -> Session
        decreases outcomes.len(),
    {
        if outcomes.len() == 0 {
            self
        } else {
            self.after_all(outcomes.drop_last()).after(outcomes.last())
        }
    }

    /// Starts a session: the first step is to switch raw mode on.
    pub fn begin() -> (s: Session)
        ensures
            s == Session::initial(),
            s.wf(),
    {
        Session { next: Step::EnableRaw, raw: false, alternate: false, failed: None }
    }

    /// Takes note of how the step that was due went, and says what follows.
    pub fn advance(self, ok: bool) -> (s: Session)
        ensures
            s == self.after(ok),
            self.wf() ==> s.wf(),
    {
        let next = match self.next {
            Step::EnableRaw => if ok {
                Step::EnterAlternate
            } else {
                Step::Finish
            },
            Step::EnterAlternate => if ok {
                Step::Draw
            } else {
                Step::DisableRaw
            },
            Step::Draw => if ok {
                Step::Dwell
            } else {
                Step::DisableRaw
            },
            Step::Dwell => Step::DisableRaw,
            Step::DisableRaw => Step::LeaveAlternate,
            Step::LeaveAlternate => Step::Finish,
            Step::Finish => Step::Finish,
        };
        let raw = match self.next {
            Step::EnableRaw => ok,
            Step::DisableRaw => false,
            _ => self.raw,
        };
        let alternate = match self.next {
            Step::EnterAlternate => ok,
            Step::LeaveAlternate => false,
            _ => self.alternate,
        };
        let failed = if ok || self.failed.is_some() || self.is_finished() {
            self.failed
        } else {
            Some(self.next)
        };
        Session { next, raw, alternate, failed }
    }

    /// Tells whether the session is over.
    pub fn is_finished(&self) -> (b: bool)
        ensures
            b == self.finished(),
    {
        self.next == Step::Finish
    }

    /// Tells whether the session is over and every step went well.
    pub fn succeeded(&self) -> (b: bool)
        ensures
            b == (self.finished() && self.failed is None),
    {
        self.is_finished() && self.failed.is_none()
    }

    /// Every step keeps the session well formed.
    pub proof fn lemma_after_keeps_wf(self, ok: bool)
        requires
            self.wf(),
        ensures
            self.after(ok).wf(),
    {
    }

    /// Every step but the last brings the end nearer, so a session is over
    /// after six steps at most.
    pub proof fn lemma_after_nears_end(self, ok: bool)
        ensures
            !self.finished() ==> self.after(ok).next.steps_left() < self.next.steps_left(),
            self.finished() ==> self.after(ok) == self,
    {
    }

    /// Whatever the outcomes of its steps, a session that started from the
    /// beginning is well formed, it is over after six steps at most, and
    /// once it is over the terminal is as it was found.
    pub proof fn lemma_terminal_given_back(outcomes: Seq<bool>)
        ensures
            Session::initial().after_all(outcomes).wf(),
            Session::initial().after_all(outcomes).finished() ==> Session::initial().after_all(
                outcomes,
            ).terminal_normal(),
            Session::initial().after_all(outcomes).next.steps_left() + outcomes.len() <= 6
                || Session::initial().after_all(outcomes).finished(),
            outcomes.len() >= 6 ==> Session::initial().after_all(outcomes).finished(),
        decreases outcomes.len(),
    {
        if outcomes.len() > 0 {
            Self::lemma_terminal_given_back(outcomes.drop_last());
        }
    }

    /// Where every step goes well, the steps are taken in their order and
    /// the session ends without a failure.
    pub proof fn lemma_clean_run(outcomes: Seq<bool>)
        requires
            forall|i: int| 0 <= i < outcomes.len() ==> outcomes[i],
        ensures
            Session::initial().after_all(outcomes).failed is None,
            outcomes.len() <= 6 ==> Session::initial().after_all(outcomes).next.steps_left() + outcomes.len() == 6,
            outcomes.len() >= 6 ==> Session::initial().after_all(outcomes).finished(),
        decreases outcomes.len(),
    {
        if outcomes.len() > 0 {
            Self::lemma_clean_run(outcomes.drop_last());
        }
    }

    /// While the terminal is held, the session is not over: the steps that
    /// give it back are still to come.
    pub proof fn lemma_held_means_unfinished(self)
        requires
            self.wf(),
            !self.terminal_normal(),
        ensures
            !self.finished(),
            self.raw ==> self.next.steps_left() >= Step::DisableRaw.steps_left(),
            self.alternate ==> self.next.steps_left() >= Step::LeaveAlternate.steps_left(),
    {
    }
}

} // verus!
