use hakkaa::signal::Signal;

#[test]
fn an_empty_mailbox_holds_nothing() {
    let mut s: Signal<u64> = Signal::new();
    assert_eq!(s.try_take(), None);
}

#[test]
fn the_latest_of_two_unconsumed_values_survives() {
    let mut s: Signal<u64> = Signal::new();
    s.signal(1);
    s.signal(2);
    assert_eq!(s.try_take(), Some(2));
    assert_eq!(s.try_take(), None);
}

#[test]
fn taking_consumes_and_clears() {
    let mut s: Signal<()> = Signal::new();
    s.signal(());
    assert_eq!(s.try_take(), Some(()));
    assert_eq!(s.try_take(), None);
}

#[test]
fn reset_discards_a_stale_value() {
    let mut s: Signal<u64> = Signal::new();
    s.signal(7);
    s.reset();
    assert_eq!(s.try_take(), None);
}
