use hakkaa::led::{Blinker, Cycler, Storeys, STOREY_LEDS};
use hakkaa::switch::LowActiveSwitch;

fn bank() -> Storeys {
    Storeys::new([LowActiveSwitch::new(true); 8])
}

fn shown(storeys: &Storeys) -> u8 {
    let mut row: u8 = 0;
    for i in 0..STOREY_LEDS {
        if storeys.led_is_on(i) {
            row |= 1 << i;
        }
    }
    row
}

#[test]
fn set_pattern_maps_each_bit_to_its_channel() {
    let mut storeys = bank();
    storeys.set_pattern(0b1011_0001);
    for i in 0..STOREY_LEDS {
        let expected = (0b1011_0001u8 >> i) & 1 == 1;
        assert_eq!(storeys.led_is_on(i), expected);
    }
}

#[test]
fn set_pattern_extremes() {
    let mut storeys = bank();
    storeys.set_pattern(0xff);
    assert_eq!(shown(&storeys), 0xff);
    storeys.set_pattern(0x00);
    assert_eq!(shown(&storeys), 0x00);
}

#[test]
fn all_on_and_all_off_drive_the_whole_bank() {
    let mut storeys = bank();
    storeys.all_on();
    assert_eq!(shown(&storeys), 0xff);
    assert!(!storeys.output_level_high(0));
    storeys.all_off();
    assert_eq!(shown(&storeys), 0x00);
    assert!(storeys.output_level_high(0));
}

#[test]
fn switch_led_touches_one_channel_only() {
    let mut storeys = bank();
    storeys.set_pattern(0b0000_1111);
    storeys.switch_led(6, true);
    assert_eq!(shown(&storeys), 0b0100_1111);
    storeys.switch_led(0, false);
    assert_eq!(shown(&storeys), 0b0100_1110);
}

#[test]
fn free_returns_the_switches_as_they_stand() {
    let mut storeys = bank();
    storeys.set_pattern(0b0000_0101);
    let leds = storeys.free();
    assert!(!leds[0].output_level_high());
    assert!(leds[1].output_level_high());
    assert!(!leds[2].output_level_high());
}

#[test]
fn cycler_keeps_exactly_one_led_lit() {
    let mut storeys = bank();
    let mut cycler = Cycler::new(&mut storeys);
    assert_eq!(shown(&storeys), 0x00);
    for k in 0..9 {
        cycler.step(&mut storeys);
        let expected = 1u8 << (k % STOREY_LEDS);
        assert_eq!(shown(&storeys), expected);
    }
}

#[test]
fn blinker_alternates_all_on_and_all_off() {
    let mut storeys = bank();
    let mut blinker = Blinker::new();
    blinker.step(&mut storeys);
    assert_eq!(shown(&storeys), 0xff);
    blinker.step(&mut storeys);
    assert_eq!(shown(&storeys), 0x00);
    blinker.step(&mut storeys);
    assert_eq!(shown(&storeys), 0xff);
}
