use vstd::prelude::*;

use crate::round::Round;
use crate::{ButtonPress, GPIOPin};

verus! {

/// How a round ended.
#[derive(Debug, Clone, Copy, PartialEq, Eq, Structural)]
pub enum Outcome {
    /// The whole sequence was reproduced.
    Won,
    /// A press did not match the sequence.
    Lost,
    /// A double press abandoned the round.
    Reset,
}

/// What the driver of a round does after a press.
#[derive(Debug, Clone, Copy, PartialEq, Eq, Structural)]
pub enum Turn {
    /// Keep collecting presses for the current prefix.
    Await,
    /// The prefix was reproduced and the round moved on: present the longer prefix.
    Advanced,
    /// The round is over.
    Over(Outcome),
}

/// One round being played: the round, the presses collected for its current
/// prefix, and how it ended, once it has.
#[derive(Debug)]
pub struct RoundPlay {
    round: Round,
    answer: Vec<GPIOPin>,
    outcome: Option<Outcome>,
}

impl RoundPlay {
    /// The round being played.
    pub closed spec fn round_view(&self) -> &Round {
        &self.round
    }

    /// The presses collected for the current prefix.
    pub closed spec fn answer(&self) -> Seq<GPIOPin> {
        self.answer@
    }

    /// How the round ended, once it has.
    pub closed spec fn ended(&self) -> Option<Outcome> {
        self.outcome
    }

    /// While the round goes on, the presses collected so far agree with the
    /// sequence and fall short of the current prefix.
    pub closed spec fn wf(&self) -> bool {
        &&& self.answer@.len() <= self.round.cursor() + 1
        &&& self.outcome is None ==> {
            &&& self.answer@.len() < self.round.cursor() + 1
            &&& self.round.agrees(self.answer@)
        }
    }

    /// Start playing `round`, awaiting the presses of its first prefix.
    pub fn new(round: Round) -> (play: Self)
        ensures
            play.wf(),
            play.round_view() == &round,
            play.answer() == Seq::<GPIOPin>::empty(),
            play.ended() is None,
    {
        let play = RoundPlay { round, answer: Vec::new(), outcome: None };
        assert(play.answer@ =~= play.round.sequence().subrange(0, 0));
        play
    }

    /// The round being played, to present its current prefix.
    pub fn round(&self) -> (r: &Round)
        ensures
            r == self.round_view(),
    {
        &self.round
    }

    /// How the round ended, or `None` while it goes on.
    pub fn outcome(&self) -> (o: Option<Outcome>)
        ensures
            o == self.ended(),
    {
        self.outcome
    }

    /// Take one press event. A double press abandons the round. A single press is
    /// appended to the answer: a mismatch loses the round; a full match of the
    /// current prefix wins it when the round is finished, and else advances it. Once
    /// the round has ended, every press just reports how.
    pub fn on_press(&mut self, press: ButtonPress) -> (turn: Turn)
        requires
            old(self).wf(),
        ensures
            final(self).wf(),
            old(self).ended() matches Some(o) ==> {
                &&& turn == Turn::Over(o)
                &&& final(self).ended() == old(self).ended()
                &&& final(self).round_view() == old(self).round_view()
                &&& final(self).answer() == old(self).answer()
            },
            old(self).ended() is None && press == ButtonPress::Double ==> {
                &&& turn == Turn::Over(Outcome::Reset)
                &&& final(self).ended() == Some(Outcome::Reset)
                &&& final(self).round_view() == old(self).round_view()
            },
            old(self).ended() is None ==> (press matches ButtonPress::Single(pin) ==> {
                let round = old(self).round_view();
                let a = old(self).answer().push(pin);
                if !round.agrees(a) {
                    &&& turn == Turn::Over(Outcome::Lost)
                    &&& final(self).ended() == Some(Outcome::Lost)
                    &&& final(self).round_view() == round
                } else if a.len() < round.cursor() + 1 {
                    &&& turn == Turn::Await
                    &&& final(self).ended() is None
                    &&& final(self).round_view() == round
                    &&& final(self).answer() == a
                } else if round.finished() {
                    &&& turn == Turn::Over(Outcome::Won)
                    &&& final(self).ended() == Some(Outcome::Won)
                    &&& final(self).round_view() == round
                } else {
                    &&& turn == Turn::Advanced
                    &&& final(self).ended() is None
                    &&& final(self).round_view().sequence() == round.sequence()
                    &&& final(self).round_view().cursor() == round.cursor() + 1
                    &&& final(self).answer() == Seq::<GPIOPin>::empty()
                }
            }),
    {
        if let Some(o) = self.outcome {
            return Turn::Over(o);
        }
        match press {
            ButtonPress::Double => {
                self.outcome = Some(Outcome::Reset);
                Turn::Over(Outcome::Reset)
            },
            ButtonPress::Single(pin) => {
                let current = self.round.current_len();
                self.answer.push(pin);
                if !self.round.matches(self.answer.as_slice()) {
                    self.outcome = Some(Outcome::Lost);
                    Turn::Over(Outcome::Lost)
                } else if self.answer.len() < current {
                    Turn::Await
                } else if self.round.is_finished() {
                    self.outcome = Some(Outcome::Won);
                    Turn::Over(Outcome::Won)
                } else {
                    self.round.advance();
                    self.answer = Vec::new();
                    assert(self.answer@ =~= self.round.sequence().subrange(0, 0));
                    Turn::Advanced
                }
            },
        }
    }
}

} // verus!
