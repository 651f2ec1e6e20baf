use hakkaa::led::{Storeys, STOREY_LEDS};
use hakkaa::playback::{BackAndForthPlayer, SinglePassPlayer, IMAGE_DELAY_MS, ROW_DELAY_MS};
use hakkaa::switch::LowActiveSwitch;

fn bank() -> Storeys {
    Storeys::new([LowActiveSwitch::new(true); 8])
}

fn shown(storeys: &Storeys) -> u8 {
    let mut row: u8 = 0;
    for i in 0..STOREY_LEDS {
        if storeys.led_is_on(i) {
            row |= 1 << i;
        }
    }
    row
}

#[test]
fn single_pass_displays_rows_in_order_and_wraps() {
    let mut storeys = bank();
    let mut player = SinglePassPlayer::new(vec![0x01, 0x02, 0x04]);
    assert!(!player.step(&mut storeys));
    assert_eq!(shown(&storeys), 0x01);
    assert!(!player.step(&mut storeys));
    assert_eq!(shown(&storeys), 0x02);
    assert!(player.step(&mut storeys));
    assert_eq!(shown(&storeys), 0x04);
    // The next pass starts over at the first row.
    assert!(!player.step(&mut storeys));
    assert_eq!(shown(&storeys), 0x01);
}

#[test]
fn fixed_cadence_constants_match_the_reference() {
    assert_eq!(ROW_DELAY_MS, 5);
    assert_eq!(IMAGE_DELAY_MS, 30);
}

#[test]
fn back_and_forth_shows_the_pattern_then_its_reverse() {
    let mut storeys = bank();
    let mut player = BackAndForthPlayer::new(vec![0x01, 0x02, 0x04], 60, 1000);
    let mut now: u64 = 1000;
    let mut rows = Vec::new();
    while !player.is_finished() {
        let remaining = player.step(&mut storeys, now);
        rows.push(shown(&storeys));
        now += remaining;
    }
    assert_eq!(rows, vec![0x01, 0x02, 0x04, 0x04, 0x02, 0x01]);
}

#[test]
fn back_and_forth_hits_absolute_deadlines() {
    // Pattern length 3, total period 60: row duration (60/2)/3 = 10.
    let mut storeys = bank();
    let mut player = BackAndForthPlayer::new(vec![0x01, 0x02, 0x04], 60, 1000);
    let mut now: u64 = 1000;
    for k in 0..6u64 {
        let remaining = player.step(&mut storeys, now);
        // Stepping exactly on schedule, each row's budget is one full row
        // duration, and the next deadline is anchored to the start.
        assert_eq!(remaining, 10);
        now += remaining;
        assert_eq!(now, 1000 + (k + 1) * 10);
    }
    assert!(player.is_finished());
    // The double pass filled the whole period.
    assert_eq!(now, 1000 + 60);
}

#[test]
fn back_and_forth_corrects_drift_instead_of_accumulating_it() {
    let mut storeys = bank();
    let mut player = BackAndForthPlayer::new(vec![0x01, 0x02, 0x04], 60, 1000);
    // The first row's work overran by 3 ms: the suspension shrinks so the
    // next row still starts at the absolute deadline.
    let remaining = player.step(&mut storeys, 1003);
    assert_eq!(remaining, 7);
    assert_eq!(1003 + remaining, 1010);
    // The second row overran its whole budget: continue immediately.
    let remaining = player.step(&mut storeys, 1025);
    assert_eq!(remaining, 0);
    // Back on schedule, the third row's deadline is still the absolute one.
    let remaining = player.step(&mut storeys, 1025);
    assert_eq!(remaining, 5);
    assert_eq!(1025 + remaining, 1030);
}

#[test]
fn back_and_forth_total_is_within_the_rounding_loss() {
    // Period 100 over 3 rows: row duration (100/2)/3 = 16, so the double
    // pass takes 96 ms — short of the period by less than 2 * 3 * 2.
    let mut storeys = bank();
    let mut player = BackAndForthPlayer::new(vec![0x01, 0x02, 0x04], 100, 0);
    let mut now: u64 = 0;
    while !player.is_finished() {
        now += player.step(&mut storeys, now);
    }
    assert_eq!(now, 96);
    assert!(now <= 100);
    assert!(100 - now < 6);
}
