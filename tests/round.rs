use rpi_simon_says::round::Round;

const A: u8 = 4;
const B: u8 = 27;

#[test]
fn new_round_draws_from_available_pins() {
    let mut round = Round::new(5, &[A, B]);
    assert_eq!(round.len(), 5);
    for _ in 0..4 {
        assert!(!round.is_finished());
        round.advance();
    }
    assert!(round.is_finished());
    let seq = round.current_sequence();
    assert_eq!(seq.len(), 5);
    assert!(seq.iter().all(|p| *p == A || *p == B));
}

#[test]
fn new_round_with_one_pin_repeats_it() {
    let mut round = Round::new(3, &[9]);
    round.advance();
    round.advance();
    assert_eq!(round.current_sequence(), &[9, 9, 9]);
}

#[test]
fn round_of_length_one_is_finished_at_once() {
    let round = Round::new(1, &[A]);
    assert!(round.is_finished());
    assert_eq!(round.current_len(), 1);
}

#[test]
fn matches_compares_only_the_answer_prefix() {
    let round = Round::with_sequence(vec![A, A, B]);
    assert!(round.matches(&[A]));
    assert!(!round.matches(&[B]));
    assert!(round.matches(&[]));
    assert!(round.matches(&[A, A, B]));
    assert!(!round.matches(&[A, A, A]));
}

#[test]
fn current_sequence_grows_with_advance() {
    let mut round = Round::with_sequence(vec![A, A, B]);
    assert_eq!(round.current_sequence(), &[A]);
    assert_eq!(round.current_len(), 1);
    round.advance();
    assert_eq!(round.current_sequence(), &[A, A]);
    assert_eq!(round.current_len(), 2);
    assert!(!round.is_finished());
    round.advance();
    assert_eq!(round.current_sequence(), &[A, A, B]);
    assert!(round.is_finished());
}
