use hakkaa::eol::{EolTest, EOL_STEP_MS};
use hakkaa::led::{Blinker, Cycler, Storeys, STOREY_LEDS};
use hakkaa::switch::LowActiveSwitch;

fn bank() -> Storeys {
    Storeys::new([LowActiveSwitch::new(true); 8])
}

fn shown(storeys: &Storeys) -> u8 {
    let mut row: u8 = 0;
    for i in 0..STOREY_LEDS {
        if storeys.led_is_on(i) {
            row |= 1 << i;
        }
    }
    row
}

#[test]
fn animation_cadence_matches_the_reference() {
    assert_eq!(EOL_STEP_MS, 500);
}

#[test]
fn race_resolution_preserves_the_losing_animations_outputs() {
    // The cycle animation runs (and never completes) until the button
    // confirmation wins the race; whatever it lit stays lit afterwards.
    let mut storeys = bank();
    let mut finished_led = LowActiveSwitch::new(true);
    let mut eol = EolTest::new();
    let mut cycler = Cycler::new(&mut storeys);
    for _ in 0..3 {
        cycler.step(&mut storeys);
    }
    let before = shown(&storeys);
    assert_eq!(before, 0b0000_0100);

    eol.on_confirmed(&mut storeys, &mut finished_led);
    assert!(!eol.is_done());
    assert_eq!(shown(&storeys), before);
    assert!(finished_led.output_level_high());
}

#[test]
fn second_confirmation_finalizes_the_outputs() {
    let mut storeys = bank();
    let mut finished_led = LowActiveSwitch::new(true);
    let mut eol = EolTest::new();

    eol.on_confirmed(&mut storeys, &mut finished_led);
    let mut blinker = Blinker::new();
    blinker.step(&mut storeys);
    blinker.step(&mut storeys);
    assert_eq!(shown(&storeys), 0x00);

    eol.on_confirmed(&mut storeys, &mut finished_led);
    assert!(eol.is_done());
    assert_eq!(shown(&storeys), 0xff);
    assert!(!finished_led.output_level_high());
}

#[test]
fn confirmations_after_finalization_change_nothing() {
    let mut storeys = bank();
    let mut finished_led = LowActiveSwitch::new(true);
    let mut eol = EolTest::new();
    eol.on_confirmed(&mut storeys, &mut finished_led);
    eol.on_confirmed(&mut storeys, &mut finished_led);
    assert!(eol.is_done());
    eol.on_confirmed(&mut storeys, &mut finished_led);
    assert!(eol.is_done());
    assert_eq!(shown(&storeys), 0xff);
    assert!(!finished_led.output_level_high());
}
