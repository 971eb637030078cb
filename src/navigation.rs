//! Screens of the dashboard and the keys that move between them.
use vstd::prelude::*;

verus! {

/// The display mode that is active; exactly one at any time.
#[derive(Clone, Copy, Debug, PartialEq, Eq, Structural)]
pub enum Screen {
    Welcome,
    Metrics,
    Instructions,
    DetailedMetrics,
    CPUDetails,
    MemoryDetails,
    BatteryDetails,
}

/// A key press, as far as the dashboard tells keys apart.
#[derive(Clone, Copy, Debug, PartialEq, Eq, Structural)]
pub enum Key {
    Up,
    Down,
    Enter,
    Char(char),
    Other,
}

/// The character that ends the session.
pub const QUIT_CHAR: char = 'q';

/// What a key press means on a given screen.
#[derive(Clone, Copy, Debug, PartialEq, Eq, Structural)]
pub enum Outcome {
    /// A navigation key that the table defines here; the screen may be the same one.
    Navigate(Screen),
    /// The quit key, recognised on every screen.
    Quit,
    /// A key that means nothing on this screen.
    Ignored,
}

/// The navigation table: the screen that `key` leads to from `current`, where the
/// table defines one. Up and Down walk the detail screens as a ring and Enter
/// drills down; the digit shortcuts of a linear menu are not part of this table,
/// so `1`, `2` and `3` are ignored like any other unlisted key.
pub open spec fn table(current: Screen, key: Key) -> Option<Screen> {
    match (current, key) {
        (Screen::Welcome, Key::Up) => Some(Screen::Welcome),
        (Screen::Welcome, Key::Down) => Some(Screen::Metrics),
        (Screen::Metrics, Key::Up) => Some(Screen::Welcome),
        (Screen::Metrics, Key::Down) => Some(Screen::Instructions),
        (Screen::Metrics, Key::Enter) => Some(Screen::DetailedMetrics),
        (Screen::Instructions, Key::Up) => Some(Screen::Metrics),
        (Screen::Instructions, Key::Down) => Some(Screen::Instructions),
        (Screen::DetailedMetrics, Key::Up) => Some(Screen::BatteryDetails),
        (Screen::DetailedMetrics, Key::Down) => Some(Screen::CPUDetails),
        (Screen::DetailedMetrics, Key::Enter) => Some(Screen::CPUDetails),
        (Screen::CPUDetails, Key::Up) => Some(Screen::DetailedMetrics),
        (Screen::CPUDetails, Key::Down) => Some(Screen::MemoryDetails),
        (Screen::CPUDetails, Key::Enter) => Some(Screen::MemoryDetails),
        (Screen::MemoryDetails, Key::Up) => Some(Screen::CPUDetails),
        (Screen::MemoryDetails, Key::Down) => Some(Screen::BatteryDetails),
        (Screen::MemoryDetails, Key::Enter) => Some(Screen::BatteryDetails),
        (Screen::BatteryDetails, Key::Up) => Some(Screen::MemoryDetails),
        (Screen::BatteryDetails, Key::Down) => Some(Screen::DetailedMetrics),
        (Screen::BatteryDetails, Key::Enter) => Some(Screen::Welcome),
        _ => None,
    }
}

pub open spec fn is_quit(key: Key) -> bool {
    key == Key::Char(QUIT_CHAR)
}

/// The screen after `key` on `current`: the table's entry, or `current` itself.
pub open spec fn next_screen(current: Screen, key: Key) -> Screen {
    match table(current, key) {
        Some(s) => s,
        None => current,
    }
}

pub open spec fn outcome_of(current: Screen, key: Key) -> Outcome {
    if is_quit(key) {
        Outcome::Quit
    } else {
        match table(current, key) {
            Some(s) => Outcome::Navigate(s),
            None => Outcome::Ignored,
        }
    }
}

/// Whether `key` is the quit key.
pub fn is_quit_key(key: Key) -> (r: bool)
    ensures
        r == is_quit(key),
{
    match key {
        Key::Char(c) => c == QUIT_CHAR,
        _ => false,
    }
}

/// The entry of the navigation table for `current` and `key`, if it has one.
pub fn lookup(current: Screen, key: Key) -> (r: Option<Screen>)
    ensures
        r == table(current, key),
{
    match key {
        Key::Up => Some(
            match current {
                Screen::Welcome => Screen::Welcome,
                Screen::Metrics => Screen::Welcome,
                Screen::Instructions => Screen::Metrics,
                Screen::DetailedMetrics => Screen::BatteryDetails,
                Screen::CPUDetails => Screen::DetailedMetrics,
                Screen::MemoryDetails => Screen::CPUDetails,
                Screen::BatteryDetails => Screen::MemoryDetails,
            },
        ),
        Key::Down => Some(
            match current {
                Screen::Welcome => Screen::Metrics,
                Screen::Metrics => Screen::Instructions,
                Screen::Instructions => Screen::Instructions,
                Screen::DetailedMetrics => Screen::CPUDetails,
                Screen::CPUDetails => Screen::MemoryDetails,
                Screen::MemoryDetails => Screen::BatteryDetails,
                Screen::BatteryDetails => Screen::DetailedMetrics,
            },
        ),
        Key::Enter => match current {
            Screen::Metrics => Some(Screen::DetailedMetrics),
            Screen::DetailedMetrics => Some(Screen::CPUDetails),
            Screen::CPUDetails => Some(Screen::MemoryDetails),
            Screen::MemoryDetails => Some(Screen::BatteryDetails),
            Screen::BatteryDetails => Some(Screen::Welcome),
            _ => None,
        },
        _ => None,
    }
}

/// The screen that follows `current` after `key`. A key that the table does not
/// define on `current` (the quit key among them) leaves the screen as it is.
pub fn transition(current: Screen, key: Key) -> (r: Screen)
    ensures
        r == next_screen(current, key),
{
    match lookup(current, key) {
        Some(s) => s,
        None => current,
    }
}

/// What `key` means on `current`: quit, a move (possibly to the same screen), or
/// nothing.
pub fn classify(current: Screen, key: Key) -> (r: Outcome)
    ensures
        r == outcome_of(current, key),
{
    if is_quit_key(key) {
        Outcome::Quit
    } else {
        match lookup(current, key) {
            Some(s) => Outcome::Navigate(s),
            None => Outcome::Ignored,
        }
    }
}

} // verus!
