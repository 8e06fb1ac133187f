use rpi_simon_says::play::{Outcome, RoundPlay, Turn};
use rpi_simon_says::round::Round;
use rpi_simon_says::ButtonPress;

const A: u8 = 4;
const B: u8 = 27;

fn play_of(seq: Vec<u8>) -> RoundPlay {
    RoundPlay::new(Round::with_sequence(seq))
}

#[test]
fn full_round_is_won() {
    let mut play = play_of(vec![A, A, B]);
    assert_eq!(play.on_press(ButtonPress::Single(A)), Turn::Advanced);
    assert_eq!(play.round().current_sequence(), &[A, A]);
    assert_eq!(play.on_press(ButtonPress::Single(A)), Turn::Await);
    assert_eq!(play.on_press(ButtonPress::Single(A)), Turn::Advanced);
    assert_eq!(play.on_press(ButtonPress::Single(A)), Turn::Await);
    assert_eq!(play.on_press(ButtonPress::Single(A)), Turn::Await);
    assert!(play.round().is_finished());
    assert_eq!(play.on_press(ButtonPress::Single(B)), Turn::Over(Outcome::Won));
    assert_eq!(play.outcome(), Some(Outcome::Won));
}

#[test]
fn wrong_final_answer_is_lost() {
    let mut play = play_of(vec![A, A, B]);
    assert_eq!(play.on_press(ButtonPress::Single(A)), Turn::Advanced);
    assert_eq!(play.on_press(ButtonPress::Single(A)), Turn::Await);
    assert_eq!(play.on_press(ButtonPress::Single(A)), Turn::Advanced);
    assert_eq!(play.on_press(ButtonPress::Single(A)), Turn::Await);
    assert_eq!(play.on_press(ButtonPress::Single(A)), Turn::Await);
    assert_eq!(play.on_press(ButtonPress::Single(A)), Turn::Over(Outcome::Lost));
    assert_eq!(play.outcome(), Some(Outcome::Lost));
}

#[test]
fn early_mismatch_is_lost() {
    let mut play = play_of(vec![A, A, B]);
    assert_eq!(play.on_press(ButtonPress::Single(A)), Turn::Advanced);
    assert_eq!(play.on_press(ButtonPress::Single(B)), Turn::Over(Outcome::Lost));
}

#[test]
fn double_press_resets_at_any_point() {
    let mut fresh = play_of(vec![A, A, B]);
    assert_eq!(fresh.on_press(ButtonPress::Double), Turn::Over(Outcome::Reset));
    assert_eq!(fresh.outcome(), Some(Outcome::Reset));

    let mut midway = play_of(vec![A, A, B]);
    assert_eq!(midway.on_press(ButtonPress::Single(A)), Turn::Advanced);
    assert_eq!(midway.on_press(ButtonPress::Single(A)), Turn::Await);
    assert_eq!(midway.on_press(ButtonPress::Double), Turn::Over(Outcome::Reset));
}

#[test]
fn ended_round_keeps_its_outcome() {
    let mut play = play_of(vec![A]);
    assert_eq!(play.outcome(), None);
    assert_eq!(play.on_press(ButtonPress::Single(A)), Turn::Over(Outcome::Won));
    assert_eq!(play.on_press(ButtonPress::Double), Turn::Over(Outcome::Won));
    assert_eq!(play.on_press(ButtonPress::Single(B)), Turn::Over(Outcome::Won));
}
