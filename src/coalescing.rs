use vstd::prelude::*;

use crate::events::{flush_step, press_step, quiet, run, timeline, timeline_from, Slot, Stimulus};
use crate::{ButtonPress, GPIOPin};

verus! {

/// Running a sequence that starts with `x` is one step on `x`, then the rest.
proof fn lemma_run_cons(s: Slot, x: Stimulus, rest: Seq<Stimulus>, window: u64)
    ensures
        run(s, seq![x] + rest, window) == (match x {
            Stimulus::Press(pin, now) => run(press_step(s, pin, now, window), rest, window),
            Stimulus::Flush => {
                let (s2, out) = run(flush_step(s), rest, window);
                match s.pending {
                    Some(e) => (s2, seq![e] + out),
                    None => (s2, out),
                }
            },
        }),
{
    let xs = seq![x] + rest;
    assert(xs[0] == x);
    assert(xs.drop_first() =~= rest);
}

/// The stimuli of two presses less than `delay` apart: both presses come first,
/// then both flushes.
proof fn lemma_timeline_of_close_pair(p0: GPIOPin, t0: u64, p1: GPIOPin, t1: u64, delay: u64)
    requires
        0 < delay,
        t0 <= t1 < t0 + delay,
    ensures
        timeline(seq![(p0, t0), (p1, t1)], delay) =~= seq![
            Stimulus::Press(p0, t0),
            Stimulus::Press(p1, t1),
            Stimulus::Flush,
            Stimulus::Flush,
        ],
{
    let ps = seq![(p0, t0), (p1, t1)];
    assert(timeline_from(ps, delay, 2, 2) == Seq::<Stimulus>::empty());
    assert(timeline_from(ps, delay, 2, 1) == seq![Stimulus::Flush] + timeline_from(ps, delay, 2, 2));
    assert(timeline_from(ps, delay, 2, 0) == seq![Stimulus::Flush] + timeline_from(ps, delay, 2, 1));
    assert(timeline_from(ps, delay, 1, 0) == seq![Stimulus::Press(p1, t1)] + timeline_from(
        ps,
        delay,
        2,
        0,
    ));
    assert(timeline_from(ps, delay, 0, 0) == seq![Stimulus::Press(p0, t0)] + timeline_from(
        ps,
        delay,
        1,
        0,
    ));
}

/// What two presses less than `delay` apart emit, starting from `s`.
proof fn lemma_run_of_close_pair(s: Slot, p0: GPIOPin, t0: u64, p1: GPIOPin, t1: u64, window: u64, delay: u64)
    requires
        0 < delay,
        t0 <= t1 < t0 + delay,
    ensures
        ({
            let s1 = press_step(press_step(s, p0, t0, window), p1, t1, window);
            run(s, timeline(seq![(p0, t0), (p1, t1)], delay), window).1 == seq![s1.pending->0]
        }),
{
    lemma_timeline_of_close_pair(p0, t0, p1, t1, delay);
    let a = press_step(s, p0, t0, window);
    let b = press_step(a, p1, t1, window);
    let c = flush_step(b);
    let d = flush_step(c);
    lemma_run_cons(d, Stimulus::Flush, Seq::empty(), window);
    assert(run(d, Seq::empty(), window) == (d, Seq::<ButtonPress>::empty()));
    lemma_run_cons(c, Stimulus::Flush, Seq::empty(), window);
    lemma_run_cons(b, Stimulus::Flush, seq![Stimulus::Flush], window);
    assert(seq![Stimulus::Flush] + seq![Stimulus::Flush] =~= seq![Stimulus::Flush, Stimulus::Flush]);
    lemma_run_cons(a, Stimulus::Press(p1, t1), seq![Stimulus::Flush, Stimulus::Flush], window);
    assert(seq![Stimulus::Press(p1, t1)] + seq![Stimulus::Flush, Stimulus::Flush] =~= seq![
        Stimulus::Press(p1, t1),
        Stimulus::Flush,
        Stimulus::Flush,
    ]);
    lemma_run_cons(
        s,
        Stimulus::Press(p0, t0),
        seq![Stimulus::Press(p1, t1), Stimulus::Flush, Stimulus::Flush],
        window,
    );
    assert(seq![Stimulus::Press(p0, t0)] + seq![
        Stimulus::Press(p1, t1),
        Stimulus::Flush,
        Stimulus::Flush,
    ] =~= seq![
        Stimulus::Press(p0, t0),
        Stimulus::Press(p1, t1),
        Stimulus::Flush,
        Stimulus::Flush,
    ]);
    assert(seq![b.pending->0] + Seq::<ButtonPress>::empty() =~= seq![b.pending->0]);
}

/// Two raw presses on any two pins, the same or different, less than the window
/// apart, emit exactly one `Double` and no `Single`, whatever the group saw before.
pub proof fn lemma_close_pair_is_double(
    s: Slot,
    p0: GPIOPin,
    t0: u64,
    p1: GPIOPin,
    t1: u64,
    window: u64,
    delay: u64,
)
    requires
        window < delay,
        t0 <= t1,
        t1 - t0 < window,
    ensures
        run(s, timeline(seq![(p0, t0), (p1, t1)], delay), window).1 == seq![ButtonPress::Double],
{
    lemma_run_of_close_pair(s, p0, t0, p1, t1, window, delay);
}

/// Two raw presses more than the window but less than the delay apart, from a quiet
/// group, emit one `Single`, when the first flush comes due: the second press
/// overwrites the pending press with its own `Single`, and the second flush finds
/// nothing. So a press on the same pin as the one before is emitted as that
/// earlier `Single`.
pub proof fn lemma_spaced_pair_emits_one_single(
    s: Slot,
    p0: GPIOPin,
    t0: u64,
    p1: GPIOPin,
    t1: u64,
    window: u64,
    delay: u64,
)
    requires
        window < delay,
        quiet(s, t0, window),
        t0 + window < t1 < t0 + delay,
    ensures
        run(s, timeline(seq![(p0, t0), (p1, t1)], delay), window).1 == seq![ButtonPress::Single(p1)],
        p0 == p1 ==> run(s, timeline(seq![(p0, t0), (p1, t1)], delay), window).1 == seq![
            ButtonPress::Single(p0),
        ],
{
    lemma_run_of_close_pair(s, p0, t0, p1, t1, window, delay);
}

/// The stimuli of presses spaced more than `delay` apart, from the `i`-th on: each
/// press is followed by its own flush.
proof fn lemma_run_of_spaced(s: Slot, presses: Seq<(GPIOPin, u64)>, window: u64, delay: u64, i: nat)
    requires
        window < delay,
        i <= presses.len(),
        i < presses.len() ==> quiet(s, presses[i as int].1, window),
        forall|k: int|
            0 <= k < presses.len() - 1 ==> #[trigger] presses[k].1 + delay + window <= presses[k
                + 1].1,
    ensures
        run(s, timeline_from(presses, delay, i, i), window).1 == presses.subrange(
            i as int,
            presses.len() as int,
        ).map_values(|p: (GPIOPin, u64)| ButtonPress::Single(p.0)),
    decreases presses.len() - i,
{
    let singles = |p: (GPIOPin, u64)| ButtonPress::Single(p.0);
    if i == presses.len() {
        assert(timeline_from(presses, delay, i, i) == Seq::<Stimulus>::empty());
        assert(presses.subrange(i as int, presses.len() as int).map_values(singles) =~= Seq::<
            ButtonPress,
        >::empty());
    } else {
        let (pin, t) = presses[i as int];
        let rest = timeline_from(presses, delay, i + 1, i + 1);
        assert(timeline_from(presses, delay, i + 1, i) == seq![Stimulus::Flush] + rest) by {
            if i + 1 < presses.len() {
                assert(presses[i as int].1 + delay + window <= presses[i + 1 as int].1);
            }
        }
        assert(timeline_from(presses, delay, i, i) == seq![Stimulus::Press(pin, t)] + (seq![
            Stimulus::Flush,
        ] + rest));
        let a = press_step(s, pin, t, window);
        let b = flush_step(a);
        assert(a.pending == Some(ButtonPress::Single(pin)));
        assert(a.last_trigger == Some(t));
        lemma_run_cons(s, Stimulus::Press(pin, t), seq![Stimulus::Flush] + rest, window);
        lemma_run_cons(a, Stimulus::Flush, rest, window);
        if i + 1 < presses.len() {
            assert(presses[i as int].1 + delay + window <= presses[i + 1 as int].1);
        }
        lemma_run_of_spaced(b, presses, window, delay, i + 1);
        assert(presses.subrange(i as int, presses.len() as int).map_values(singles) =~= seq![
            ButtonPress::Single(pin),
        ] + presses.subrange(i + 1 as int, presses.len() as int).map_values(singles));
    }
}

/// Raw presses spaced at least the delay plus the window apart, from a quiet group,
/// each emit exactly one `Single` of their own pin, in the order they arrived.
pub proof fn lemma_spaced_presses_stay_single(
    s: Slot,
    presses: Seq<(GPIOPin, u64)>,
    window: u64,
    delay: u64,
)
    requires
        window < delay,
        presses.len() > 0 ==> quiet(s, presses[0].1, window),
        forall|k: int|
            0 <= k < presses.len() - 1 ==> #[trigger] presses[k].1 + delay + window <= presses[k
                + 1].1,
    ensures
        run(s, timeline(presses, delay), window).1 == presses.map_values(
            |p: (GPIOPin, u64)| ButtonPress::Single(p.0),
        ),
{
    lemma_run_of_spaced(s, presses, window, delay, 0);
    assert(presses.subrange(0, presses.len() as int) =~= presses);
}

} // verus!
