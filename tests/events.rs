use rpi_simon_says::events::{Disambiguator, DOUBLE_PRESS_THRESH_US, FLUSH_DELAY_US};
use rpi_simon_says::ButtonPress;

#[test]
fn spaced_presses_are_singles_in_order() {
    let mut d = Disambiguator::new();
    let gap = FLUSH_DELAY_US + DOUBLE_PRESS_THRESH_US;
    let mut out = Vec::new();
    for (k, pin) in [4u8, 17, 27, 4].iter().enumerate() {
        let now = 1_000 + gap * k as u64;
        assert_eq!(d.on_raw_press(*pin, now), FLUSH_DELAY_US);
        if let Some(e) = d.flush() {
            out.push(e);
        }
    }
    assert_eq!(
        out,
        vec![
            ButtonPress::Single(4),
            ButtonPress::Single(17),
            ButtonPress::Single(27),
            ButtonPress::Single(4)
        ]
    );
}

#[test]
fn close_pair_is_one_double() {
    let mut d = Disambiguator::new();
    d.on_raw_press(4, 1_000);
    d.on_raw_press(17, 1_000 + 10_000);
    assert_eq!(d.flush(), Some(ButtonPress::Double));
    assert_eq!(d.flush(), None);
}

#[test]
fn close_pair_on_same_pin_is_double() {
    let mut d = Disambiguator::new();
    d.on_raw_press(4, 5_000);
    d.on_raw_press(4, 5_000 + DOUBLE_PRESS_THRESH_US - 1);
    assert_eq!(d.flush(), Some(ButtonPress::Double));
    assert_eq!(d.flush(), None);
}

#[test]
fn press_exactly_one_window_later_is_single() {
    let mut d = Disambiguator::new();
    d.on_raw_press(4, 5_000);
    d.on_raw_press(4, 5_000 + DOUBLE_PRESS_THRESH_US);
    assert_eq!(d.flush(), Some(ButtonPress::Single(4)));
    assert_eq!(d.flush(), None);
}

#[test]
fn spaced_pair_within_delay_emits_the_later_single() {
    let mut same = Disambiguator::new();
    same.on_raw_press(27, 0);
    same.on_raw_press(27, 40_000);
    assert_eq!(same.flush(), Some(ButtonPress::Single(27)));
    assert_eq!(same.flush(), None);

    let mut other = Disambiguator::new();
    other.on_raw_press(4, 0);
    other.on_raw_press(17, 40_000);
    assert_eq!(other.flush(), Some(ButtonPress::Single(17)));
    assert_eq!(other.flush(), None);
}

#[test]
fn third_press_keeps_double() {
    let mut d = Disambiguator::new();
    d.on_raw_press(4, 0);
    d.on_raw_press(17, 10_000);
    d.on_raw_press(27, 20_000);
    assert_eq!(d.flush(), Some(ButtonPress::Double));
    assert_eq!(d.flush(), None);
    assert_eq!(d.flush(), None);
}

#[test]
fn first_press_is_single_even_at_time_zero() {
    let mut d = Disambiguator::new();
    d.on_raw_press(16, 0);
    assert_eq!(d.flush(), Some(ButtonPress::Single(16)));
}

#[test]
fn clock_reading_earlier_counts_as_no_time_passed() {
    let mut d = Disambiguator::new();
    d.on_raw_press(4, 100_000);
    d.flush();
    d.on_raw_press(17, 50_000);
    assert_eq!(d.flush(), Some(ButtonPress::Double));
}

#[test]
fn custom_timing_is_used() {
    let mut d = Disambiguator::with_timing(5, 8);
    assert_eq!(d.on_raw_press(4, 100), 8);
    assert_eq!(d.flush(), Some(ButtonPress::Single(4)));
    d.on_raw_press(17, 104);
    assert_eq!(d.flush(), Some(ButtonPress::Double));
    d.on_raw_press(27, 109);
    assert_eq!(d.flush(), Some(ButtonPress::Single(27)));
}
