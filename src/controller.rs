//! The decisions of the capture-then-restore cycle.
//!
//! The caller performs the operating-system work: it queries the frontmost
//! process before showing the picker, activates the target returned here,
//! waits `SETTLE_DELAY_MS`, then types the snippet into whatever window has
//! focus by then.  Each event moves the controller to its next phase and
//! returns what the caller is to do.
use vstd::prelude::*;

use crate::history::{after_capture, observed_view, restoration_target, FocusHistory, HistoryView};
use crate::resolver::RawIdentity;
use crate::text::opt_view;

verus! {

/// Pause, in milliseconds, between an activation attempt and typing, so that
/// the operating system completes the focus switch first.
pub const SETTLE_DELAY_MS: u64 = 100;

/// The text that precedes the target's name in an activation error.
pub const ACTIVATION_FAILED: &'static str = "Failed to activate ";

#[derive(Clone, Copy, Debug, PartialEq, Eq, Structural)]
pub enum Phase {
    /// Nothing in progress.
    Idle,
    /// The frontmost application was recorded and the picker is shown.
    Captured,
    /// A target was handed out for activation; its outcome is awaited.
    Restoring,
}

/// The error reported when activating `target` failed.
pub open spec fn activation_error(target: Seq<char>) -> Seq<char> {
    ACTIVATION_FAILED@ + target
}

/// The restoration cycle: the focus history, the phase, and the target of
/// the activation in progress.
pub struct RestorationController {
    history: FocusHistory,
    phase: Phase,
    pending: Option<String>,
}

pub struct ControllerView {
    pub history: HistoryView,
    pub phase: Phase,
    pub pending: Option<Seq<char>>,
}

impl View for RestorationController {
    type V = ControllerView;

    closed spec fn view(&self) -> ControllerView {
        ControllerView { history: self.history@, phase: self.phase, pending: opt_view(self.pending) }
    }
}

impl RestorationController {
    /// A controller at rest, with an empty history.
    pub fn new() -> (r: RestorationController)
        ensures
            r@.history.last is None,
            r@.history.previous is None,
            r@.phase == Phase::Idle,
            r@.pending is None,
    {
        RestorationController { history: FocusHistory::new(), phase: Phase::Idle, pending: None }
    }

    /// The picker is about to be shown, and `frontmost` is what the query for
    /// the frontmost process gave: it is captured into the history.
    pub fn on_show(&mut self, frontmost: Option<RawIdentity>)
        ensures
            final(self)@.history == after_capture(old(self)@.history, observed_view(frontmost)),
            final(self)@.phase == Phase::Captured,
            final(self)@.pending is None,
    {
        self.history.capture(frontmost);
        self.phase = Phase::Captured;
        self.pending = None;
    }

    /// The user picked a snippet: returns the application to activate, if
    /// any; with `None` focus stays where it is.
    pub fn on_prompt_selected(&mut self) -> (r: Option<String>)
        ensures
            opt_view(r) == restoration_target(old(self)@.history),
            final(self)@.history == old(self)@.history,
            final(self)@.phase == Phase::Restoring,
            final(self)@.pending == opt_view(r),
    {
        let target = self.history.take_restoration_target();
        let kept = match &target {
            Some(t) => Some(t.clone()),
            None => None,
        };
        self.pending = kept;
        self.phase = Phase::Restoring;
        target
    }

    /// The activation attempt ended, successfully or not.  A failure to
    /// activate the pending target is reported as an error naming it; the
    /// caller still types the snippet afterwards.
    pub fn on_activation_finished(&mut self, activated: bool) -> (r: Result<(), String>)
        ensures
            final(self)@.history == old(self)@.history,
            final(self)@.phase == Phase::Idle,
            final(self)@.pending is None,
            match r {
                Ok(()) => activated || old(self)@.phase != Phase::Restoring
                    || old(self)@.pending is None,
                Err(e) => !activated && old(self)@.phase == Phase::Restoring
                    && old(self)@.pending is Some && e@ == activation_error(
                    old(self)@.pending->0,
                ),
            },
    {
        let outcome = if !activated && self.phase == Phase::Restoring {
            match &self.pending {
                Some(t) => {
                    let mut message = String::from_str(ACTIVATION_FAILED);
                    message.append(t.as_str());
                    Err(message)
                },
                None => Ok(()),
            }
        } else {
            Ok(())
        };
        self.pending = None;
        self.phase = Phase::Idle;
        outcome
    }

    /// The phase of the cycle.
    pub fn phase(&self) -> (r: Phase)
        ensures
            r == self@.phase,
    {
        self.phase
    }

    /// The focus history.
    pub fn history(&self) -> (r: &FocusHistory)
        ensures
            r@ == self@.history,
    {
        &self.history
    }
}

} // verus!
