use vstd::prelude::*;
use vstd::slice::slice_subrange;

use rand::seq::SliceRandom;

use crate::GPIOPin;

verus! {

#[verifier::external_type_specification]
#[verifier::external_body]
pub struct ExThreadRng(rand::rngs::ThreadRng);

/// Relies on rand::thread_rng: hands out a handle to this thread's generator, seeded
/// from the operating system; nothing is promised of it.
#[verifier::external_body]
fn thread_rng() -> rand::rngs::ThreadRng {
    rand::thread_rng()
}

/// Relies on rand's `SliceRandom::choose` for slices: `None` exactly when the slice
/// is empty, else one of its elements.
#[verifier::external_body]
fn choose_pin(pins: &[GPIOPin], rng: &mut rand::rngs::ThreadRng) -> (r: Option<GPIOPin>)
    ensures
        r.is_none() <==> pins@.len() == 0,
        r matches Some(p) ==> pins@.contains(p),
{
    pins.choose(rng).copied()
}

/// Whether every pin of `s` is one of `pins`.
pub open spec fn drawn_from(s: Seq<GPIOPin>, pins: Seq<GPIOPin>) -> bool {
    forall|i: int| 0 <= i < s.len() ==> #[trigger] pins.contains(s[i])
}

/// State for each complete round of Simon Says
///
/// ```
/// let mut round = Round::new(length, &[4, 5]);
///
/// let mut answer: Vec<u8> = Vec::with_capacity(round.current_len());
///
/// // ... Code to blink & receive button press events, calling round.advance() with each turn
///
/// if round.matches(&answer) && round.is_finished() {
///     println!("You won!");
/// }
/// ```
#[derive(Debug)]
pub struct Round {
    /// GPIO button pins
    sequence: Vec<GPIOPin>,
    current_item: usize,
}

impl Round {
    /// The target sequence of the round.
    pub closed spec fn sequence(&self) -> Seq<GPIOPin> {
        self.sequence@
    }

    /// Index of the last element revealed so far.
    pub closed spec fn cursor(&self) -> nat {
        self.current_item as nat
    }

    /// The revealed part of the sequence: what the player must reproduce this turn.
    pub open spec fn prefix(&self) -> Seq<GPIOPin> {
        self.sequence().subrange(0, self.cursor() + 1 as int)
    }

    /// Whether the whole sequence has been revealed.
    pub open spec fn finished(&self) -> bool {
        self.cursor() + 1 == self.sequence().len()
    }

    /// Whether `answer` agrees with the sequence at each of its positions.
    pub open spec fn agrees(&self, answer: Seq<GPIOPin>) -> bool {
        answer.len() <= self.sequence().len() && answer =~= self.sequence().subrange(
            0,
            answer.len() as int,
        )
    }

    #[verifier::type_invariant]
    closed spec fn inv(self) -> bool {
        self.current_item < self.sequence.len()
    }

    /// Create a round that asks for exactly `sequence`, starting at its first element.
    pub fn with_sequence(sequence: Vec<GPIOPin>) -> (round: Self)
        requires
            sequence@.len() >= 1,
        ensures
            round.sequence() == sequence@,
            round.cursor() == 0,
    {
        Round { sequence, current_item: 0 }
    }

    /// Create a new game round with the given length
    /// - creates a random sequence using the available Buttons
    pub fn new(length: usize, available_gpio_buttons: &[GPIOPin]) -> (round: Self)
        requires
            length >= 1,
            available_gpio_buttons@.len() > 0,
        ensures
            round.sequence().len() == length,
            drawn_from(round.sequence(), available_gpio_buttons@),
            round.cursor() == 0,
    {
        let mut sequence: Vec<GPIOPin> = Vec::with_capacity(length);
        let mut rng = thread_rng();
        let mut i: usize = 0;
        while i < length
            invariant
                i <= length,
                available_gpio_buttons@.len() > 0,
                sequence@.len() == i,
                drawn_from(sequence@, available_gpio_buttons@),
            decreases length - i,
        {
            let item = match choose_pin(available_gpio_buttons, &mut rng) {
                Some(p) => p,
                None => available_gpio_buttons[0],
            };
            assert(available_gpio_buttons@.contains(item)) by {
                if item == available_gpio_buttons@[0] {
                    assert(available_gpio_buttons@[0] == item);
                }
            }
            sequence.push(item);
            assert(sequence@.last() == item);
            i = i + 1;
        }
        Self::with_sequence(sequence)
    }

    /// The sequence length (number of guesses needed) of this game round
    #[allow(clippy::len_without_is_empty)]
    pub fn len(&self) -> (n: usize)
        ensures
            n == self.sequence().len(),
            self.cursor() < n,
    {
        proof {
            use_type_invariant(self);
        }
        self.sequence.len()
    }

    /// Has this round been exhausted?
    pub fn is_finished(&self) -> (b: bool)
        ensures
            b == self.finished(),
    {
        proof {
            use_type_invariant(self);
        }
        self.current_item == (self.len() - 1)
    }

    /// Progress the current item after a successful guess
    pub fn advance(&mut self)
        requires
            !old(self).finished(),
        ensures
            final(self).sequence() == old(self).sequence(),
            final(self).cursor() == old(self).cursor() + 1,
    {
        proof {
            use_type_invariant(&*self);
        }
        self.current_item = self.current_item + 1;
    }

    /// The current sequence length (will increase as round advances)
    pub fn current_len(&self) -> (n: usize)
        ensures
            n == self.cursor() + 1,
            n <= self.sequence().len(),
    {
        proof {
            use_type_invariant(self);
        }
        self.current_item + 1
    }

    /// The current sequence (to compare to user guesses)
    pub fn current_sequence(&self) -> (s: &[GPIOPin])
        ensures
            s@ == self.prefix(),
    {
        proof {
            use_type_invariant(self);
        }
        slice_subrange(self.sequence.as_slice(), 0, self.current_item + 1)
    }

    /// Does the given answer match the sequence (only tests up to the answer length)
    pub fn matches(&self, answer: &[GPIOPin]) -> (b: bool)
        requires
            answer@.len() <= self.sequence().len(),
        ensures
            b == self.agrees(answer@),
    {
        let mut i: usize = 0;
        while i < answer.len()
            invariant
                i <= answer@.len() <= self.sequence@.len(),
                answer@.subrange(0, i as int) =~= self.sequence@.subrange(0, i as int),
            decreases answer@.len() - i,
        {
            if answer[i] != self.sequence[i] {
                assert(answer@[i as int] != self.sequence().subrange(0, answer@.len() as int)[i as int]);
                return false;
            }
            assert(answer@.subrange(0, i + 1) =~= answer@.subrange(0, i as int).push(answer@[i as int]));
            assert(self.sequence@.subrange(0, i + 1) =~= self.sequence@.subrange(0, i as int).push(self.sequence@[i as int]));
            i = i + 1;
        }
        assert(answer@ =~= answer@.subrange(0, answer@.len() as int));
        true
    }
}

} // verus!
