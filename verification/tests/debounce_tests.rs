use hakkaa::debounce::{
    PressCounter, PressDetector, PressEvent, PressWait, DEBOUNCE_DELAY_MS,
};

fn clean_press() -> [PressEvent; 5] {
    [
        PressEvent::WentHigh,
        PressEvent::SettleElapsed,
        PressEvent::WentLow,
        PressEvent::SettleElapsed,
        PressEvent::WentHigh,
    ]
}

#[test]
fn one_press_confirms_at_the_final_edge_only() {
    let mut d = PressDetector::new();
    let evs = clean_press();
    for (i, ev) in evs.iter().enumerate() {
        assert!(!d.is_confirmed(), "confirmed after only {} events", i);
        d.on_event(*ev);
    }
    assert!(d.is_confirmed());
    assert_eq!(d.expected_wait(), None);
}

#[test]
fn mismatched_events_change_nothing() {
    let mut d = PressDetector::new();
    d.on_event(PressEvent::WentLow);
    d.on_event(PressEvent::SettleElapsed);
    assert_eq!(d.expected_wait(), Some(PressWait::High));
    d.on_event(PressEvent::WentHigh);
    assert_eq!(d.expected_wait(), Some(PressWait::Settle));
    d.on_event(PressEvent::WentLow);
    assert_eq!(d.expected_wait(), Some(PressWait::Settle));
    assert!(!d.is_confirmed());
}

#[test]
fn press_pulse_timeline_confirms_at_the_last_rise() {
    // Input pulses: rise at t=0, fall at t=105, rise at t=210, with a
    // settle delay of 100 ms. The press is confirmed at t=210, not earlier.
    assert_eq!(DEBOUNCE_DELAY_MS, 100);
    let mut d = PressDetector::new();
    let mut now: u64 = 0;
    let mut confirmed_at: Option<u64> = None;

    // t=0: the line rises.
    d.on_event(PressEvent::WentHigh);
    assert!(!d.is_confirmed());
    // t=100: the settle delay after the rise runs out.
    now += DEBOUNCE_DELAY_MS;
    d.on_event(PressEvent::SettleElapsed);
    assert!(!d.is_confirmed());
    // t=105: the line falls.
    now = 105;
    d.on_event(PressEvent::WentLow);
    assert!(!d.is_confirmed());
    // t=205: the settle delay after the fall runs out.
    now += DEBOUNCE_DELAY_MS;
    d.on_event(PressEvent::SettleElapsed);
    assert!(!d.is_confirmed());
    // t=210: the line rises again — the confirming edge.
    now = 210;
    d.on_event(PressEvent::WentHigh);
    if d.is_confirmed() {
        confirmed_at = Some(now);
    }
    assert_eq!(confirmed_at, Some(210));
}

#[test]
fn three_presses_need_three_complete_sequences() {
    let mut c = PressCounter::new(3);
    let mut fed: usize = 0;
    for _ in 0..3 {
        for ev in clean_press() {
            assert!(!c.is_complete(), "complete after only {} events", fed);
            c.on_event(ev);
            fed += 1;
        }
    }
    assert!(c.is_complete());
}

#[test]
fn two_and_a_half_sequences_never_complete() {
    let mut c = PressCounter::new(3);
    for _ in 0..2 {
        for ev in clean_press() {
            c.on_event(ev);
        }
    }
    // Half a third sequence: rise, settle, fall — and nothing more.
    c.on_event(PressEvent::WentHigh);
    c.on_event(PressEvent::SettleElapsed);
    c.on_event(PressEvent::WentLow);
    assert!(!c.is_complete());
}

#[test]
fn reset_starts_the_next_round() {
    let mut c = PressCounter::new(1);
    for ev in clean_press() {
        c.on_event(ev);
    }
    assert!(c.is_complete());
    c.reset();
    assert!(!c.is_complete());
    assert_eq!(c.expected_wait(), Some(PressWait::High));
    for ev in clean_press() {
        c.on_event(ev);
    }
    assert!(c.is_complete());
}
