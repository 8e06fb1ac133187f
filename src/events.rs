use vstd::prelude::*;

use crate::{ButtonPress, GPIOPin};

verus! {

/// Default coincidence window, in microseconds: two raw presses closer than this
/// count as one double press.
pub const DOUBLE_PRESS_THRESH_US: u64 = 30_000;

/// Default flush delay, in microseconds: how long a resolved press is held back
/// before it is emitted.
pub const FLUSH_DELAY_US: u64 = 50_000;

/// Settle time of the electrical debounce of each button, in microseconds.
pub const DEBOUNCE_THRESH_US: u64 = 100_000;

/// The state shared by all buttons of a group: at most one press waiting to be
/// emitted, and the time of the most recent raw press on any pin.
#[derive(Debug, Clone, Copy, PartialEq, Eq, Structural)]
pub struct Slot {
    pub pending: Option<ButtonPress>,
    pub last_trigger: Option<u64>,
}

/// Time from `then` to `now`; zero when the clock reads earlier than `then`.
pub open spec fn elapsed(then: u64, now: u64) -> int {
    if now >= then {
        now - then
    } else {
        0
    }
}

/// Whether a raw press at `now` falls within `window` of the previous raw press.
/// Before the first press there is no previous one.
pub open spec fn coincident(last_trigger: Option<u64>, now: u64, window: u64) -> bool {
    match last_trigger {
        Some(t) => elapsed(t, now) < window,
        None => false,
    }
}

/// What a raw press on `pin` at `now` resolves to.
pub open spec fn resolve(last_trigger: Option<u64>, pin: GPIOPin, now: u64, window: u64) -> ButtonPress {
    if coincident(last_trigger, now, window) {
        ButtonPress::Double
    } else {
        ButtonPress::Single(pin)
    }
}

/// The later of the stored trigger time and `now`.
pub open spec fn latest(last_trigger: Option<u64>, now: u64) -> u64 {
    match last_trigger {
        Some(t) if t > now => t,
        _ => now,
    }
}

/// The shared state after a raw press on `pin` at `now`: the pending slot is
/// overwritten with what the press resolves to, and the trigger time moves on.
pub open spec fn press_step(s: Slot, pin: GPIOPin, now: u64, window: u64) -> Slot {
    Slot {
        pending: Some(resolve(s.last_trigger, pin, now, window)),
        last_trigger: Some(latest(s.last_trigger, now)),
    }
}

/// The shared state after a deferred flush: whatever was pending has been taken.
pub open spec fn flush_step(s: Slot) -> Slot {
    Slot { pending: None, last_trigger: s.last_trigger }
}

/// One thing that happens to a button group: a raw press on a pin at a time, or
/// one deferred flush coming due.
#[derive(Debug, Clone, Copy, PartialEq, Eq, Structural)]
pub enum Stimulus {
    Press(GPIOPin, u64),
    Flush,
}

/// Feed `xs` in order to a group whose state is `s`; the final state and the events
/// emitted on the way.
pub open spec fn run(s: Slot, xs: Seq<Stimulus>, window: u64) -> (Slot, Seq<ButtonPress>)
    decreases xs.len(),
{
    if xs.len() == 0 {
        (s, Seq::empty())
    } else {
        match xs[0] {
            Stimulus::Press(pin, now) => run(press_step(s, pin, now, window), xs.drop_first(), window),
            Stimulus::Flush => {
                let (s2, out) = run(flush_step(s), xs.drop_first(), window);
                match s.pending {
                    Some(e) => (s2, seq![e] + out),
                    None => (s2, out),
                }
            },
        }
    }
}

/// The stimuli that raw presses `presses` (pin and time, in order of arrival) give
/// rise to, in order of time, from the `i`-th press and the `j`-th flush on: each
/// press schedules one flush `delay` after it. A flush that falls due at the very
/// instant of a press is taken first. The group is taken to have no flush
/// outstanding before the first of `presses`.
pub open spec fn timeline_from(presses: Seq<(GPIOPin, u64)>, delay: u64, i: nat, j: nat) -> Seq<Stimulus>
    decreases (if i < presses.len() { presses.len() - i } else { 0 }) + (if j < presses.len() {
        presses.len() - j
    } else {
        0
    }),
{
    if i >= presses.len() && j >= presses.len() {
        Seq::empty()
    } else if j < presses.len() && (i >= presses.len() || presses[j as int].1 + delay <= presses[i as int].1) {
        seq![Stimulus::Flush] + timeline_from(presses, delay, i, j + 1)
    } else {
        seq![Stimulus::Press(presses[i as int].0, presses[i as int].1)] + timeline_from(presses, delay, i + 1, j)
    }
}

/// All stimuli of `presses`, in order of time.
pub open spec fn timeline(presses: Seq<(GPIOPin, u64)>, delay: u64) -> Seq<Stimulus> {
    timeline_from(presses, delay, 0, 0)
}

/// Whether `s` holds nothing pending and no press within `window` before `t`.
pub open spec fn quiet(s: Slot, t: u64, window: u64) -> bool {
    &&& s.pending is None
    &&& match s.last_trigger {
        Some(last) => last <= t && t - last >= window,
        None => true,
    }
}

/// Event disambiguator of a button group: turns raw presses into `Single` and
/// `Double` events, holding each back for a flush delay so that a near-simultaneous
/// second press can turn it into a `Double`.
#[derive(Debug)]
pub struct Disambiguator {
    window: u64,
    delay: u64,
    slot: Slot,
}

impl Disambiguator {
    /// Coincidence window.
    pub closed spec fn window(&self) -> u64 {
        self.window
    }

    /// Flush delay.
    pub closed spec fn delay(&self) -> u64 {
        self.delay
    }

    /// The shared state.
    pub closed spec fn slot(&self) -> Slot {
        self.slot
    }

    #[verifier::type_invariant]
    closed spec fn inv(self) -> bool {
        self.window < self.delay
    }

    /// A disambiguator with the default window and delay, that has seen no press.
    pub fn new() -> (d: Self)
        ensures
            d.window() == DOUBLE_PRESS_THRESH_US,
            d.delay() == FLUSH_DELAY_US,
            d.slot() == (Slot { pending: None, last_trigger: None }),
    {
        Disambiguator {
            window: DOUBLE_PRESS_THRESH_US,
            delay: FLUSH_DELAY_US,
            slot: Slot { pending: None, last_trigger: None },
        }
    }

    /// A disambiguator with the given window and delay, that has seen no press. The
    /// delay must exceed the window, so that a second press within the window comes
    /// before the first one's flush.
    pub fn with_timing(window: u64, delay: u64) -> (d: Self)
        requires
            window < delay,
        ensures
            d.window() == window,
            d.delay() == delay,
            d.slot() == (Slot { pending: None, last_trigger: None }),
    {
        Disambiguator { window, delay, slot: Slot { pending: None, last_trigger: None } }
    }

    /// A raw press on `pin` seen at time `now`: overwrites the pending slot with
    /// `Double` when the previous raw press on any pin lies within the window, else
    /// with `Single(pin)`, and records the time. Returns the delay after which the
    /// caller must run one `flush`.
    pub fn on_raw_press(&mut self, pin: GPIOPin, now: u64) -> (flush_after: u64)
        ensures
            final(self).window() == old(self).window(),
            final(self).delay() == old(self).delay(),
            final(self).slot() == press_step(old(self).slot(), pin, now, old(self).window()),
            old(self).slot().last_trigger matches Some(t) ==> t <= final(self).slot().last_trigger->0,
            flush_after == old(self).delay(),
    {
        let coincident = match self.slot.last_trigger {
            Some(t) => {
                let gone = if now >= t { now - t } else { 0 };
                gone < self.window
            },
            None => false,
        };
        proof {
            use_type_invariant(&*self);
        }
        self.slot.pending = if coincident {
            Some(ButtonPress::Double)
        } else {
            Some(ButtonPress::Single(pin))
        };
        self.slot.last_trigger = match self.slot.last_trigger {
            Some(t) if t > now => Some(t),
            _ => Some(now),
        };
        self.delay
    }

    /// A deferred flush coming due: takes whatever is pending, if anything, for
    /// the caller to emit.
    pub fn flush(&mut self) -> (emitted: Option<ButtonPress>)
        ensures
            final(self).window() == old(self).window(),
            final(self).delay() == old(self).delay(),
            final(self).slot() == flush_step(old(self).slot()),
            emitted == old(self).slot().pending,
    {
        proof {
            use_type_invariant(&*self);
        }
        let emitted = self.slot.pending;
        self.slot.pending = None;
        emitted
    }
}

} // verus!
