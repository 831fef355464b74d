//! The self-update screen and the background check for a newer release.
//! Running the updater is the caller's; it reports phases here.
use vstd::prelude::*;

use crate::app::{App, Effect};
use crate::screen::Screen;
use crate::sync_state::{UpdatePhase, UpdateScreenState};
use crate::text::{concat_str, owned};

verus! {

/// Whether a finished update leaves nothing newer to offer.
pub open spec fn spec_settles_update(phase: UpdatePhase) -> bool {
    phase is Done || phase is UpToDate
}

/// The headline of the update screen for a phase.
pub open spec fn spec_status_label(phase: UpdatePhase) -> Seq<char> {
    match phase {
        UpdatePhase::Checking => "Checking for updates…"@,
        UpdatePhase::Downloading => "Downloading new release…"@,
        UpdatePhase::Extracting => "Extracting binary…"@,
        UpdatePhase::Replacing => "Installing…"@,
        UpdatePhase::Done(version) => "Updated to v"@ + version@,
        UpdatePhase::UpToDate => "Already up to date"@,
        UpdatePhase::Failed(_) => "Update failed"@,
    }
}

/// The headline of the update screen for a phase.
pub fn status_label(phase: &UpdatePhase) -> (r: String)
    ensures
        r@ == spec_status_label(*phase),
{
    match phase {
        UpdatePhase::Checking => owned("Checking for updates…"),
        UpdatePhase::Downloading => owned("Downloading new release…"),
        UpdatePhase::Extracting => owned("Extracting binary…"),
        UpdatePhase::Replacing => owned("Installing…"),
        UpdatePhase::Done(version) => concat_str("Updated to v", version.as_str()),
        UpdatePhase::UpToDate => owned("Already up to date"),
        UpdatePhase::Failed(_) => owned("Update failed"),
    }
}

impl<R> App<R> {
    /// What `launch_update` leaves behind.
    pub open spec fn post_launch_update(self, next: Self, r: Effect) -> bool {
        &&& next == (App {
            update_state: Some(UpdateScreenState { phase: UpdatePhase::Checking, tick: 0 }),
            screen: Screen::UpdateProgress,
            ..self
        })
        &&& r == Effect::StartUpdate
    }

    /// Opens the update screen; the caller starts the updater.
    pub fn launch_update(&mut self) -> (r: Effect)
        requires
            old(self).wf(),
        ensures
            final(self).wf(),
            old(self).post_launch_update(*final(self), r),
    {
        self.update_state = Some(UpdateScreenState { phase: UpdatePhase::Checking, tick: 0 });
        self.screen = Screen::UpdateProgress;
        Effect::StartUpdate
    }

    /// What `apply_update_event` leaves behind.
    pub open spec fn post_apply_update_event(self, next: Self, phase: UpdatePhase) -> bool {
        &&& next.available_update == if spec_settles_update(phase) {
            Some(None)
        } else {
            self.available_update
        }
        &&& next.update_state == match self.update_state {
            Some(st) => Some(UpdateScreenState { phase, ..st }),
            None => None,
        }
        &&& next == (App {
            available_update: next.available_update,
            update_state: next.update_state,
            ..self
        })
    }

    /// Takes a phase reported by the updater; once it has installed or
    /// found nothing newer, the main menu stops offering an update.
    pub fn apply_update_event(&mut self, phase: UpdatePhase)
        requires
            old(self).wf(),
        ensures
            final(self).wf(),
            old(self).post_apply_update_event(*final(self), phase),
    {
        let settles = match &phase {
            UpdatePhase::Done(_) | UpdatePhase::UpToDate => true,
            _ => false,
        };
        if settles {
            self.available_update = Some(None);
        }
        let mut state = None;
        std::mem::swap(&mut state, &mut self.update_state);
        match state {
            Some(mut st) => {
                st.phase = phase;
                self.update_state = Some(st);
            },
            None => {},
        }
    }

    /// Whether the updater has nothing more to do (or none is running).
    pub fn update_is_terminal(&self) -> (r: bool)
        ensures
            r == match self.update_state {
                Some(st) => st.phase.spec_is_terminal(),
                None => true,
            },
    {
        match &self.update_state {
            Some(st) => st.phase.is_terminal(),
            None => true,
        }
    }

    /// What `cancel_update` leaves behind.
    pub open spec fn post_cancel_update(self, next: Self, r: Effect) -> bool {
        &&& next == (App { update_state: None, ..self })
        &&& r == if self.update_state is Some {
            Effect::StopUpdate
        } else {
            Effect::Nothing
        }
    }

    /// Closes the update state; a running updater is stopped by the caller
    /// (`Effect::StopUpdate`).
    pub fn cancel_update(&mut self) -> (r: Effect)
        requires
            old(self).wf(),
        ensures
            final(self).wf(),
            old(self).post_cancel_update(*final(self), r),
    {
        let had = self.update_state.is_some();
        self.update_state = None;
        if had {
            Effect::StopUpdate
        } else {
            Effect::Nothing
        }
    }

    /// What `tick_update` leaves behind.
    pub open spec fn post_tick_update(self, next: Self) -> bool {
        &&& next.update_state == match self.update_state {
            Some(st) => Some(UpdateScreenState { tick: ((st.tick + 1) % 256) as u8, ..st }),
            None => None,
        }
        &&& next == (App { update_state: next.update_state, ..self })
    }

    /// Advances the spinner of the update screen.
    pub fn tick_update(&mut self)
        requires
            old(self).wf(),
        ensures
            final(self).wf(),
            old(self).post_tick_update(*final(self)),
    {
        let mut state = None;
        std::mem::swap(&mut state, &mut self.update_state);
        match state {
            Some(mut st) => {
                st.tick = st.tick.wrapping_add(1);
                self.update_state = Some(st);
            },
            None => {},
        }
    }

    /// Records the outcome of the background release check: the newer
    /// version, or `None` when there is none or the check could not finish.
    pub fn finish_update_check(&mut self, newer: Option<String>)
        requires
            old(self).wf(),
        ensures
            final(self).wf(),
            *final(self) == (App { available_update: Some(newer), ..*old(self) }),
    {
        self.available_update = Some(newer);
    }
}

} // verus!
