use nova_metrics::navigation::{classify, is_quit_key, lookup, transition, Key, Outcome, Screen};

const ALL: [Screen; 7] = [
    Screen::Welcome,
    Screen::Metrics,
    Screen::Instructions,
    Screen::DetailedMetrics,
    Screen::CPUDetails,
    Screen::MemoryDetails,
    Screen::BatteryDetails,
];

#[test]
fn down_three_times_reaches_instructions_and_stays() {
    let mut s = Screen::Welcome;
    for _ in 0..3 {
        s = transition(s, Key::Down);
    }
    assert_eq!(s, Screen::Instructions);
    s = transition(s, Key::Down);
    assert_eq!(s, Screen::Instructions);
}

#[test]
fn enter_drills_down_and_wraps_to_welcome() {
    let mut s = Screen::Metrics;
    let expected = [
        Screen::DetailedMetrics,
        Screen::CPUDetails,
        Screen::MemoryDetails,
        Screen::BatteryDetails,
        Screen::Welcome,
    ];
    for e in expected {
        s = transition(s, Key::Enter);
        assert_eq!(s, e);
    }
}

#[test]
fn full_table_up_down_enter() {
    let rows = [
        (Screen::Welcome, Screen::Welcome, Screen::Metrics, None),
        (Screen::Metrics, Screen::Welcome, Screen::Instructions, Some(Screen::DetailedMetrics)),
        (Screen::Instructions, Screen::Metrics, Screen::Instructions, None),
        (Screen::DetailedMetrics, Screen::BatteryDetails, Screen::CPUDetails, Some(Screen::CPUDetails)),
        (Screen::CPUDetails, Screen::DetailedMetrics, Screen::MemoryDetails, Some(Screen::MemoryDetails)),
        (Screen::MemoryDetails, Screen::CPUDetails, Screen::BatteryDetails, Some(Screen::BatteryDetails)),
        (Screen::BatteryDetails, Screen::MemoryDetails, Screen::DetailedMetrics, Some(Screen::Welcome)),
    ];
    for (s, up, down, enter) in rows {
        assert_eq!(lookup(s, Key::Up), Some(up));
        assert_eq!(lookup(s, Key::Down), Some(down));
        assert_eq!(lookup(s, Key::Enter), enter);
    }
}

#[test]
fn unlisted_keys_leave_screen_unchanged() {
    for s in ALL {
        for k in [Key::Other, Key::Char('x'), Key::Char('1'), Key::Char('2'), Key::Char('3')] {
            assert_eq!(transition(s, k), s);
            assert_eq!(classify(s, k), Outcome::Ignored);
        }
    }
    assert_eq!(transition(Screen::Welcome, Key::Enter), Screen::Welcome);
    assert_eq!(classify(Screen::Instructions, Key::Enter), Outcome::Ignored);
}

#[test]
fn quit_key_recognised_everywhere() {
    assert!(is_quit_key(Key::Char('q')));
    assert!(!is_quit_key(Key::Char('Q')));
    for s in ALL {
        assert_eq!(classify(s, Key::Char('q')), Outcome::Quit);
        assert_eq!(transition(s, Key::Char('q')), s);
    }
}

#[test]
fn up_ring_closes_after_four_presses() {
    for s in [Screen::DetailedMetrics, Screen::CPUDetails, Screen::MemoryDetails, Screen::BatteryDetails] {
        let mut up = s;
        let mut down = s;
        for _ in 0..4 {
            up = transition(up, Key::Up);
            down = transition(down, Key::Down);
        }
        assert_eq!(up, s);
        assert_eq!(down, s);
    }
    let mut w = Screen::Welcome;
    let mut i = Screen::Instructions;
    for _ in 0..10 {
        w = transition(w, Key::Up);
        i = transition(i, Key::Down);
        assert_eq!(w, Screen::Welcome);
        assert_eq!(i, Screen::Instructions);
    }
}

#[test]
fn no_op_navigation_still_counts_as_navigation() {
    assert_eq!(classify(Screen::Welcome, Key::Up), Outcome::Navigate(Screen::Welcome));
    assert_eq!(classify(Screen::Instructions, Key::Down), Outcome::Navigate(Screen::Instructions));
}
