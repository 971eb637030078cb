//! Properties that hold across the navigation table, the scheduler and the
//! panel content.
use vstd::prelude::*;
use crate::navigation::{Key, Screen, Outcome, table, next_screen, outcome_of};
use crate::scheduler::{Dashboard, Action, REFRESH_INTERVAL_MS, after_key, step_result, redraw_due};
use crate::content::{Readings, NO_BATTERY_TEXT, body_text};
use crate::text::is_digit;

verus! {

/// The screen reached from `s` by pressing `key` `n` times.
pub open spec fn press_n(s: Screen, key: Key, n: nat) -> Screen
    decreases n,
{
    if n == 0 {
        s
    } else {
        press_n(next_screen(s, key), key, (n - 1) as nat)
    }
}

/// The screens of the detail ring, which Up and Down both walk round.
pub open spec fn in_detail_ring(s: Screen) -> bool {
    s == Screen::DetailedMetrics || s == Screen::CPUDetails || s == Screen::MemoryDetails
        || s == Screen::BatteryDetails
}

/// The number of screens on the detail ring.
pub const DETAIL_RING_LEN: u64 = 4;

/// A key that the table does not define on the current screen leaves the
/// screen as it is and owes no redraw.
pub proof fn lemma_unlisted_key_changes_nothing(d: Dashboard, key: Key)
    requires
        table(d.screen, key).is_none(),
    ensures
        next_screen(d.screen, key) == d.screen,
        after_key(d, key) == d,
{
}

/// Pressing Up, or Down, once per screen of the detail ring brings every screen
/// of the ring back to itself.
pub proof fn lemma_detail_ring_closes(s: Screen)
    requires
        in_detail_ring(s),
    ensures
        press_n(s, Key::Up, DETAIL_RING_LEN as nat) == s,
        press_n(s, Key::Down, DETAIL_RING_LEN as nat) == s,
{
    reveal_with_fuel(press_n, 5);
}

/// Up on the welcome screen, and Down on the help screen, stay where they are
/// however often they are pressed.
pub proof fn lemma_boundaries_hold(n: nat)
    ensures
        press_n(Screen::Welcome, Key::Up, n) == Screen::Welcome,
        press_n(Screen::Instructions, Key::Down, n) == Screen::Instructions,
    decreases n,
{
    if n > 0 {
        lemma_boundaries_hold((n - 1) as nat);
    }
}

/// A key that navigates marks the dashboard dirty, so the same iteration asks
/// for a redraw of the new screen, however little time has passed.
pub proof fn lemma_navigation_forces_redraw(d: Dashboard, key: Key, now: u64)
    requires
        outcome_of(d.screen, key) is Navigate,
    ensures
        after_key(d, key).dirty,
        after_key(d, key).screen == next_screen(d.screen, key),
        redraw_due(after_key(d, key).dirty, d.last_refresh, now, REFRESH_INTERVAL_MS),
        step_result(d, Some(key), now) == (after_key(d, key), Action::Redraw(next_screen(d.screen, key))),
{
}

/// Once more than the refresh interval has passed, an iteration without input
/// asks for a redraw of the unchanged screen.
pub proof fn lemma_interval_forces_redraw(d: Dashboard, now: u64)
    requires
        now - d.last_refresh > REFRESH_INTERVAL_MS,
    ensures
        redraw_due(d.dirty, d.last_refresh, now, REFRESH_INTERVAL_MS),
        step_result(d, None, now) == (d, Action::Redraw(d.screen)),
{
}

/// Without a battery the battery screen shows exactly the fallback message, in
/// which no digit appears.
pub proof fn lemma_no_battery_fallback()
    ensures
        body_text(Screen::BatteryDetails, Readings::Battery(None)) == NO_BATTERY_TEXT@,
        forall|i: int|
            0 <= i < NO_BATTERY_TEXT@.len() ==> !is_digit(#[trigger] NO_BATTERY_TEXT@[i]),
{
    reveal_strlit("Battery Details:\n- No battery information available.");
}

} // verus!
