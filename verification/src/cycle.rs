//! The refresh loop as a state machine: which phase it is in, what each
//! signal makes of that phase, and what the loop has to do in answer.
//!
//! A refresh that fails leaves the published value in place and the loop
//! running: the next tick tries again.

use vstd::prelude::*;

verus! {

/// Where the loop stands. `Stopped` is final.
#[derive(Debug, Clone, Copy, PartialEq, Eq, Structural)]
pub enum Phase {
    /// The first value is published and the loop has not been started.
    Idle,
    /// The loop answers ticks by refreshing.
    Running,
    /// The loop has ended and does nothing further.
    Stopped,
}

/// What can happen to the loop.
pub enum Signal<V> {
    /// The loop was started in the background.
    Spawned,
    /// One period has elapsed.
    Tick,
    /// The source completed and produced this value.
    Refreshed(V),
    /// The source failed or did not complete in time.
    Failed,
    /// The source of ticks is exhausted.
    Closed,
    /// The last handle to the cache is gone.
    Cancelled,
}

/// What the loop does in answer to a signal.
#[derive(Debug, Clone, Copy, PartialEq, Eq, Structural)]
pub enum Action {
    /// Nothing: wait for the next signal.
    Wait,
    /// Invoke the source.
    Invoke,
    /// Replace the published value by the one the signal carries.
    Publish,
    /// End the loop and release the source and the ticks.
    Halt,
}

/// Whether a signal ends the loop.
pub open spec fn ends<V>(signal: Signal<V>) -> bool {
    signal is Closed || signal is Cancelled
}

/// The phase after `signal` arrives in `phase`.
pub open spec fn next_phase<V>(phase: Phase, signal: Signal<V>) -> Phase {
    if phase is Stopped || ends(signal) {
        Phase::Stopped
    } else if signal is Spawned {
        Phase::Running
    } else {
        phase
    }
}

/// The answer to `signal` arriving in `phase`.
pub open spec fn action<V>(phase: Phase, signal: Signal<V>) -> Action {
    if phase is Stopped || ends(signal) {
        Action::Halt
    } else if phase is Running && signal is Tick {
        Action::Invoke
    } else if phase is Running && signal is Refreshed {
        Action::Publish
    } else {
        Action::Wait
    }
}

/// One transition of the loop: the next phase and the action to take. The
/// signal is only read, so that its value stays with the caller for
/// publishing.
pub fn step<V>(phase: Phase, signal: &Signal<V>) -> (out: (Phase, Action))
    ensures
        out.0 == next_phase(phase, *signal),
        out.1 == action(phase, *signal),
{
    match phase {
        Phase::Stopped => (Phase::Stopped, Action::Halt),
        Phase::Idle => match signal {
            Signal::Spawned => (Phase::Running, Action::Wait),
            Signal::Closed | Signal::Cancelled => (Phase::Stopped, Action::Halt),
            _ => (Phase::Idle, Action::Wait),
        },
        Phase::Running => match signal {
            Signal::Tick => (Phase::Running, Action::Invoke),
            Signal::Refreshed(_) => (Phase::Running, Action::Publish),
            Signal::Closed | Signal::Cancelled => (Phase::Stopped, Action::Halt),
            _ => (Phase::Running, Action::Wait),
        },
    }
}

/// The values that one signal adds to what is published: the value of a
/// completed refresh while the loop runs, and nothing otherwise.
pub open spec fn published_by<V>(phase: Phase, signal: Signal<V>) -> Seq<V> {
    if action(phase, signal) is Publish {
        seq![signal->Refreshed_0]
    } else {
        Seq::empty()
    }
}

/// The values that one signal reports as produced by the source.
pub open spec fn produced_by<V>(signal: Signal<V>) -> Seq<V> {
    if signal is Refreshed {
        seq![signal->Refreshed_0]
    } else {
        Seq::empty()
    }
}

/// The phase after all of `signals` have arrived, in order, in `phase`.
pub open spec fn phase_after<V>(phase: Phase, signals: Seq<Signal<V>>) -> Phase
    decreases signals.len(),
{
    if signals.len() == 0 {
        phase
    } else {
        phase_after(next_phase(phase, signals[0]), signals.drop_first())
    }
}

/// The values published while `signals` arrive, in order, in `phase`.
pub open spec fn published<V>(phase: Phase, signals: Seq<Signal<V>>) -> Seq<V>
    decreases signals.len(),
{
    if signals.len() == 0 {
        Seq::empty()
    } else {
        published_by(phase, signals[0]) + published(
            next_phase(phase, signals[0]),
            signals.drop_first(),
        )
    }
}

/// The values that the source produced according to `signals`, in order.
pub open spec fn produced<V>(signals: Seq<Signal<V>>) -> Seq<V>
    decreases signals.len(),
{
    if signals.len() == 0 {
        Seq::empty()
    } else {
        produced_by(signals[0]) + produced(signals.drop_first())
    }
}

/// How often the source is invoked while `signals` arrive in `phase`.
pub open spec fn invocations<V>(phase: Phase, signals: Seq<Signal<V>>) -> nat
    decreases signals.len(),
{
    if signals.len() == 0 {
        0
    } else {
        let rest = invocations(next_phase(phase, signals[0]), signals.drop_first());
        if action(phase, signals[0]) is Invoke {
            rest + 1
        } else {
            rest
        }
    }
}

/// How many ticks are among `signals`.
pub open spec fn ticks<V>(signals: Seq<Signal<V>>) -> nat
    decreases signals.len(),
{
    if signals.len() == 0 {
        0
    } else if signals[0] is Tick {
        ticks(signals.drop_first()) + 1
    } else {
        ticks(signals.drop_first())
    }
}

/// Whether `key` grows strictly along `values`.
pub open spec fn increasing<V>(values: Seq<V>, key: spec_fn(V) -> int) -> bool {
    forall|i: int, j: int| 0 <= i < j < values.len() ==> key(values[i]) < key(values[j])
}

/// Taking signals one at a time adds up to the run as a whole: after
/// `signals` and then `last`, the phase and the published values are those
/// of the run over `signals` followed by the one step for `last`.
pub proof fn lemma_run_extends<V>(phase: Phase, signals: Seq<Signal<V>>, last: Signal<V>)
    ensures
        phase_after(phase, signals.push(last)) == next_phase(phase_after(phase, signals), last),
        published(phase, signals.push(last)) == published(phase, signals) + published_by(
            phase_after(phase, signals),
            last,
        ),
    decreases signals.len(),
{
    let all = signals.push(last);
    let none = Seq::<Signal<V>>::empty();
    if signals.len() == 0 {
        let next = next_phase(phase, last);
        assert(all[0] == last);
        assert(all.drop_first() =~= none);
        assert(phase_after(next, none) == next);
        assert(published(next, none) =~= Seq::<V>::empty());
        assert(published(phase, all) =~= published_by(phase, last));
        assert(published(phase, signals) + published_by(phase, last) =~= published_by(
            phase,
            last,
        ));
    } else {
        let next = next_phase(phase, signals[0]);
        assert(all[0] == signals[0]);
        assert(all.drop_first() =~= signals.drop_first().push(last));
        lemma_run_extends(next, signals.drop_first(), last);
        assert(published(phase, all) =~= published(phase, signals) + published_by(
            phase_after(phase, signals),
            last,
        ));
    }
}

/// A stopped loop stays stopped whatever arrives: it publishes nothing and
/// never invokes the source again.
pub proof fn lemma_stopped_is_final<V>(signals: Seq<Signal<V>>)
    ensures
        phase_after(Phase::Stopped, signals) == Phase::Stopped,
        published(Phase::Stopped, signals) == Seq::<V>::empty(),
        invocations(Phase::Stopped, signals) == 0,
    decreases signals.len(),
{
    if signals.len() > 0 {
        lemma_stopped_is_final(signals.drop_first());
    }
}

/// Once a signal that ends the loop has arrived, the loop is stopped for
/// good: whatever follows, nothing more is published and the source is not
/// invoked further.
pub proof fn lemma_end_stops_the_loop<V>(phase: Phase, end: Signal<V>, later: Seq<Signal<V>>)
    requires
        ends(end),
    ensures
        phase_after(phase, seq![end] + later) == Phase::Stopped,
        published(phase, seq![end] + later) == Seq::<V>::empty(),
        invocations(phase, seq![end] + later) == 0,
{
    let all = seq![end] + later;
    assert(all[0] == end);
    assert(all.drop_first() =~= later);
    lemma_stopped_is_final(later);
}

/// How far along a phase is: the loop only ever moves forward.
pub open spec fn rank(phase: Phase) -> nat {
    match phase {
        Phase::Idle => 0,
        Phase::Running => 1,
        Phase::Stopped => 2,
    }
}

/// No run takes the loop back to an earlier phase.
pub proof fn lemma_phase_never_goes_back<V>(phase: Phase, signals: Seq<Signal<V>>)
    ensures
        rank(phase) <= rank(phase_after(phase, signals)),
    decreases signals.len(),
{
    if signals.len() > 0 {
        lemma_phase_never_goes_back(next_phase(phase, signals[0]), signals.drop_first());
    }
}

/// The loop invokes the source only in answer to a tick, and at most once
/// for each.
pub proof fn lemma_one_invocation_per_tick<V>(phase: Phase, signals: Seq<Signal<V>>)
    ensures
        invocations(phase, signals) <= ticks(signals),
    decreases signals.len(),
{
    if signals.len() > 0 {
        lemma_one_invocation_per_tick(next_phase(phase, signals[0]), signals.drop_first());
    }
}

/// Every published value is one that the source produced: the loop never
/// publishes anything else.
pub proof fn lemma_published_was_produced<V>(phase: Phase, signals: Seq<Signal<V>>, i: int)
    requires
        0 <= i < published(phase, signals).len(),
    ensures
        produced(signals).contains(published(phase, signals)[i]),
    decreases signals.len(),
{
    let head = published_by(phase, signals[0]);
    let rest = signals.drop_first();
    let next = next_phase(phase, signals[0]);
    if i < head.len() {
        assert(produced(signals)[0] == published(phase, signals)[i]);
    } else {
        lemma_published_was_produced(next, rest, i - head.len());
        let v = published(next, rest)[i - head.len()];
        let j = choose|j: int| 0 <= j < produced(rest).len() && produced(rest)[j] == v;
        assert(produced(signals)[produced_by(signals[0]).len() + j] == v);
    }
}

/// Without a new value from the source nothing is replaced: a run in which
/// the source produced nothing publishes nothing.
pub proof fn lemma_nothing_produced_nothing_published<V>(phase: Phase, signals: Seq<Signal<V>>)
    requires
        produced(signals).len() == 0,
    ensures
        published(phase, signals).len() == 0,
{
    if published(phase, signals).len() > 0 {
        lemma_published_was_produced(phase, signals, 0);
    }
}

/// What is published keeps the order in which it was produced: where the
/// source's values grow strictly under `key`, so do the published ones.
pub proof fn lemma_published_in_order<V>(
    phase: Phase,
    signals: Seq<Signal<V>>,
    key: spec_fn(V) -> int,
)
    requires
        increasing(produced(signals), key),
    ensures
        increasing(published(phase, signals), key),
    decreases signals.len(),
{
    if signals.len() > 0 {
        let head = published_by(phase, signals[0]);
        let made = produced_by(signals[0]);
        let rest = signals.drop_first();
        let next = next_phase(phase, signals[0]);
        let all = published(phase, signals);
        assert forall|i: int, j: int| 0 <= i < j < produced(rest).len() implies key(
            produced(rest)[i],
        ) < key(produced(rest)[j]) by {
            assert(produced(signals)[made.len() + i] == produced(rest)[i]);
            assert(produced(signals)[made.len() + j] == produced(rest)[j]);
        }
        lemma_published_in_order(next, rest, key);
        assert forall|i: int, j: int| 0 <= i < j < all.len() implies key(all[i]) < key(
            all[j],
        ) by {
            if i < head.len() {
                let k = j - head.len();
                lemma_published_was_produced(next, rest, k);
                let v = published(next, rest)[k];
                let m = choose|m: int| 0 <= m < produced(rest).len() && produced(rest)[m] == v;
                assert(produced(signals)[0] == all[i]);
                assert(produced(signals)[made.len() + m] == v);
            } else {
                assert(all[i] == published(next, rest)[i - head.len()]);
                assert(all[j] == published(next, rest)[j - head.len()]);
            }
        }
    }
}

} // verus!
