//! When to redraw: on a pending change, or once the refresh interval has passed.
use vstd::prelude::*;
use crate::navigation::{Key, Screen, Outcome, outcome_of, classify};

verus! {

/// Milliseconds between two redraws when nothing else asks for one.
pub const REFRESH_INTERVAL_MS: u64 = 2000;

/// Whether a redraw is due: a change is pending, or more than `interval` has
/// passed since `last_refresh`.
pub open spec fn redraw_due(dirty: bool, last_refresh: u64, now: u64, interval: u64) -> bool {
    dirty || now - last_refresh > interval
}

/// Whether a redraw is due at `now` (times in milliseconds). A clock that reads
/// earlier than `last_refresh` counts as no time passed.
pub fn should_redraw(dirty: bool, last_refresh: u64, now: u64, interval: u64) -> (r: bool)
    ensures
        r == redraw_due(dirty, last_refresh, now, interval),
{
    dirty || (now > last_refresh && now - last_refresh > interval)
}

/// What the driving loop does next.
#[derive(Clone, Copy, Debug, PartialEq, Eq, Structural)]
pub enum Action {
    /// Restore the terminal and stop.
    Quit,
    /// Paint the panels of this screen, then call `mark_refreshed`.
    Redraw(Screen),
    /// Nothing to do in this iteration.
    Wait,
}

/// The state that lives for the whole session: the active screen, whether a
/// redraw is owed, and when the last one happened (milliseconds).
#[derive(Clone, Copy, Debug, PartialEq, Eq, Structural)]
pub struct Dashboard {
    pub screen: Screen,
    pub dirty: bool,
    pub last_refresh: u64,
}

/// The dashboard after `key`: a navigation key moves and marks dirty; the quit
/// key and the keys that mean nothing here change nothing.
pub open spec fn after_key(d: Dashboard, key: Key) -> Dashboard {
    match outcome_of(d.screen, key) {
        Outcome::Navigate(s) => Dashboard { screen: s, dirty: true, ..d },
        _ => d,
    }
}

/// The dashboard after an iteration with input `key` (if any) at `now`, and the
/// action it asks for.
pub open spec fn step_result(d: Dashboard, key: Option<Key>, now: u64) -> (Dashboard, Action) {
    let quit = match key {
        Some(k) => outcome_of(d.screen, k) == Outcome::Quit,
        None => false,
    };
    let d2 = match key {
        Some(k) => after_key(d, k),
        None => d,
    };
    if quit {
        (d2, Action::Quit)
    } else if redraw_due(d2.dirty, d2.last_refresh, now, REFRESH_INTERVAL_MS) {
        (d2, Action::Redraw(d2.screen))
    } else {
        (d2, Action::Wait)
    }
}

impl Dashboard {
    /// The state at start-up: the welcome screen, with a redraw owed.
    pub fn new(now: u64) -> (r: Dashboard)
        ensures
            r.screen == Screen::Welcome,
            r.dirty,
            r.last_refresh == now,
    {
        Dashboard { screen: Screen::Welcome, dirty: true, last_refresh: now }
    }

    /// Applies a key press. Returns whether it was the quit key.
    pub fn handle_key(&mut self, key: Key) -> (quit: bool)
        ensures
            *final(self) == after_key(*old(self), key),
            quit == (outcome_of(old(self).screen, key) == Outcome::Quit),
    {
        match classify(self.screen, key) {
            Outcome::Navigate(s) => {
                self.screen = s;
                self.dirty = true;
                false
            },
            Outcome::Quit => true,
            Outcome::Ignored => false,
        }
    }

    /// Whether a redraw is due at `now`.
    pub fn redraw_due_at(&self, now: u64) -> (r: bool)
        ensures
            r == redraw_due(self.dirty, self.last_refresh, now, REFRESH_INTERVAL_MS),
    {
        should_redraw(self.dirty, self.last_refresh, now, REFRESH_INTERVAL_MS)
    }

    /// Records a completed redraw at `now`: nothing is owed any more.
    pub fn mark_refreshed(&mut self, now: u64)
        ensures
            final(self).screen == old(self).screen,
            !final(self).dirty,
            final(self).last_refresh == now,
    {
        self.dirty = false;
        self.last_refresh = now;
    }

    /// One iteration of the session: applies the key read in it, if any, and
    /// says whether to quit, redraw or wait.
    pub fn step(&mut self, key: Option<Key>, now: u64) -> (a: Action)
        ensures
            (*final(self), a) == step_result(*old(self), key, now),
    {
        let quit = match key {
            Some(k) => self.handle_key(k),
            None => false,
        };
        if quit {
            Action::Quit
        } else if self.redraw_due_at(now) {
            Action::Redraw(self.screen)
        } else {
            Action::Wait
        }
    }
}

} // verus!
