//! The observable bus effects of the driver, and what a run of them does to
//! the framing lines.

use vstd::prelude::*;

verus! {

/// One observable effect of the driver on the display bus.
///
/// The driver never touches the hardware itself: each operation returns the
/// exact sequence of effects to perform, in order. The surrounding binary
/// carries them out: a `Delay` busy-waits on the countdown timer, a `Drain`
/// busy-waits until the sequencing engine reports its transmit queue empty
/// and itself stalled, an `Enqueue` hands one byte to the transmit queue
/// (busy-waiting while the queue is full), and the rest set single output
/// lines.
#[derive(Clone, Copy, Debug, PartialEq, Eq, Structural)]
pub enum Action {
    /// Block for the given number of microseconds.
    Delay(u64),
    /// Set the data/command-select line (`dc`; low marks command bytes, high
    /// marks data bytes) and the chip-select line (`cs`; low selects the
    /// controller, high deselects it) to the given levels.
    Frame { dc: bool, cs: bool },
    /// Wait until the transmit queue is empty and the engine has stalled.
    Drain,
    /// Hand one byte to the engine's transmit queue.
    Enqueue(u8),
    /// Set the backlight-enable line.
    Backlight(bool),
    /// Set the reset line (high keeps the controller out of reset).
    Reset(bool),
}

/// The levels of the two framing lines.
#[derive(Clone, Copy, Debug, PartialEq, Eq, Structural)]
pub struct Lines {
    /// Data/command-select level: low marks command bytes, high data bytes.
    pub dc: bool,
    /// Chip-select level: low selects the controller, high deselects it.
    pub cs: bool,
}

/// The framing-line levels after one action, starting from `s`.
pub open spec fn step(s: Lines, a: Action) -> Lines {
    match a {
        Action::Frame { dc, cs } => Lines { dc, cs },
        _ => s,
    }
}

/// The framing transitions of a run, in order: the (dc, cs) level pair of
/// each `Frame` action.
pub open spec fn framings(t: Seq<Action>) -> Seq<(bool, bool)>
    decreases t.len(),
{
    if t.len() == 0 {
        Seq::empty()
    } else {
        match t.first() {
            Action::Frame { dc, cs } => seq![(dc, cs)] + framings(t.drop_first()),
            _ => framings(t.drop_first()),
        }
    }
}

/// The bytes a run hands to the transmit queue, in order.
pub open spec fn enqueued(t: Seq<Action>) -> Seq<u8>
    decreases t.len(),
{
    if t.len() == 0 {
        Seq::empty()
    } else {
        match t.first() {
            Action::Enqueue(b) => seq![b] + enqueued(t.drop_first()),
            _ => enqueued(t.drop_first()),
        }
    }
}

/// The delays of a run longer than the one-microsecond pin settle, in
/// order: the inter-command delays of an initialization run, as against the
/// settle delays around framing transitions.
pub open spec fn long_delays(t: Seq<Action>) -> Seq<u64>
    decreases t.len(),
{
    if t.len() == 0 {
        Seq::empty()
    } else {
        match t.first() {
            Action::Delay(us) => if us > 1 {
                seq![us] + long_delays(t.drop_first())
            } else {
                long_delays(t.drop_first())
            },
            _ => long_delays(t.drop_first()),
        }
    }
}

/// The framing-line levels after a whole run, starting from `s`.
pub open spec fn lines_after(s: Lines, t: Seq<Action>) -> Lines
    decreases t.len(),
{
    if t.len() == 0 {
        s
    } else {
        lines_after(step(s, t.first()), t.drop_first())
    }
}

/// The bytes a run hands to the transmit queue while the framing lines stand
/// at levels (`dc`, `cs`), in order, starting from `s`.
pub open spec fn bytes_framed(s: Lines, t: Seq<Action>, dc: bool, cs: bool) -> Seq<u8>
    decreases t.len(),
{
    if t.len() == 0 {
        Seq::empty()
    } else {
        let rest = bytes_framed(step(s, t.first()), t.drop_first(), dc, cs);
        match t.first() {
            Action::Enqueue(b) => if s.dc == dc && s.cs == cs {
                seq![b] + rest
            } else {
                rest
            },
            _ => rest,
        }
    }
}

/// What a one-action run contributes to each of the four observations.
pub proof fn lemma_one_action(s: Lines, a: Action, dc: bool, cs: bool)
    ensures
        framings(seq![a]) == (match a {
            Action::Frame { dc: d, cs: c } => seq![(d, c)],
            _ => Seq::<(bool, bool)>::empty(),
        }),
        enqueued(seq![a]) == (match a {
            Action::Enqueue(b) => seq![b],
            _ => Seq::<u8>::empty(),
        }),
        lines_after(s, seq![a]) == step(s, a),
        bytes_framed(s, seq![a], dc, cs) == (match a {
            Action::Enqueue(b) => if s.dc == dc && s.cs == cs {
                seq![b]
            } else {
                Seq::<u8>::empty()
            },
            _ => Seq::<u8>::empty(),
        }),
        long_delays(seq![a]) == (match a {
            Action::Delay(us) => if us > 1 {
                seq![us]
            } else {
                Seq::<u64>::empty()
            },
            _ => Seq::<u64>::empty(),
        }),
{
    let t = seq![a];
    assert(t.first() == a);
    assert(t.drop_first() =~= Seq::<Action>::empty());
    assert(lines_after(step(s, a), Seq::<Action>::empty()) == step(s, a));
    assert(framings(Seq::<Action>::empty()) == Seq::<(bool, bool)>::empty());
    assert(enqueued(Seq::<Action>::empty()) == Seq::<u8>::empty());
    assert(bytes_framed(step(s, a), Seq::<Action>::empty(), dc, cs) == Seq::<u8>::empty());
    assert(framings(t) =~= (match a {
        Action::Frame { dc: d, cs: c } => seq![(d, c)],
        _ => Seq::<(bool, bool)>::empty(),
    }));
    assert(enqueued(t) =~= (match a {
        Action::Enqueue(b) => seq![b],
        _ => Seq::<u8>::empty(),
    }));
    assert(bytes_framed(s, t, dc, cs) =~= (match a {
        Action::Enqueue(b) => if s.dc == dc && s.cs == cs {
            seq![b]
        } else {
            Seq::<u8>::empty()
        },
        _ => Seq::<u8>::empty(),
    }));
    assert(long_delays(Seq::<Action>::empty()) == Seq::<u64>::empty());
    assert(long_delays(t) =~= (match a {
        Action::Delay(us) => if us > 1 {
            seq![us]
        } else {
            Seq::<u64>::empty()
        },
        _ => Seq::<u64>::empty(),
    }));
}

/// `framings` distributes over concatenation.
pub proof fn lemma_framings_add(a: Seq<Action>, b: Seq<Action>)
    ensures
        framings(a + b) == framings(a) + framings(b),
    decreases a.len(),
{
    if a.len() == 0 {
        assert(a + b =~= b);
        assert(framings(a) + framings(b) =~= framings(b));
    } else {
        assert((a + b).drop_first() =~= a.drop_first() + b);
        assert((a + b).first() == a.first());
        lemma_framings_add(a.drop_first(), b);
        assert(framings(a + b) =~= framings(a) + framings(b));
    }
}

/// `enqueued` distributes over concatenation.
pub proof fn lemma_enqueued_add(a: Seq<Action>, b: Seq<Action>)
    ensures
        enqueued(a + b) == enqueued(a) + enqueued(b),
    decreases a.len(),
{
    if a.len() == 0 {
        assert(a + b =~= b);
        assert(enqueued(a) + enqueued(b) =~= enqueued(b));
    } else {
        assert((a + b).drop_first() =~= a.drop_first() + b);
        assert((a + b).first() == a.first());
        lemma_enqueued_add(a.drop_first(), b);
        assert(enqueued(a + b) =~= enqueued(a) + enqueued(b));
    }
}

/// `long_delays` distributes over concatenation.
pub proof fn lemma_long_delays_add(a: Seq<Action>, b: Seq<Action>)
    ensures
        long_delays(a + b) == long_delays(a) + long_delays(b),
    decreases a.len(),
{
    if a.len() == 0 {
        assert(a + b =~= b);
        assert(long_delays(a) + long_delays(b) =~= long_delays(b));
    } else {
        assert((a + b).drop_first() =~= a.drop_first() + b);
        assert((a + b).first() == a.first());
        lemma_long_delays_add(a.drop_first(), b);
        assert(long_delays(a + b) =~= long_delays(a) + long_delays(b));
    }
}

/// Running a concatenation moves the framing lines as running its parts in
/// turn.
pub proof fn lemma_lines_after_add(s: Lines, a: Seq<Action>, b: Seq<Action>)
    ensures
        lines_after(s, a + b) == lines_after(lines_after(s, a), b),
    decreases a.len(),
{
    if a.len() == 0 {
        assert(a + b =~= b);
    } else {
        assert((a + b).drop_first() =~= a.drop_first() + b);
        assert((a + b).first() == a.first());
        lemma_lines_after_add(step(s, a.first()), a.drop_first(), b);
    }
}

/// `bytes_framed` distributes over concatenation, the second part starting
/// from the framing-line levels the first part ends in.
pub proof fn lemma_bytes_framed_add(s: Lines, a: Seq<Action>, b: Seq<Action>, dc: bool, cs: bool)
    ensures
        bytes_framed(s, a + b, dc, cs) == bytes_framed(s, a, dc, cs) + bytes_framed(
            lines_after(s, a),
            b,
            dc,
            cs,
        ),
    decreases a.len(),
{
    if a.len() == 0 {
        assert(a + b =~= b);
        assert(bytes_framed(s, a, dc, cs) + bytes_framed(s, b, dc, cs) =~= bytes_framed(
            s,
            b,
            dc,
            cs,
        ));
    } else {
        assert((a + b).drop_first() =~= a.drop_first() + b);
        assert((a + b).first() == a.first());
        lemma_bytes_framed_add(step(s, a.first()), a.drop_first(), b, dc, cs);
        assert(bytes_framed(s, a + b, dc, cs) =~= bytes_framed(s, a, dc, cs) + bytes_framed(
            lines_after(s, a),
            b,
            dc,
            cs,
        ));
    }
}

} // verus!
