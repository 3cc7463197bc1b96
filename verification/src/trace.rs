//! Traces of the discovery engine.
//!
//! A trace is the sequence of events the driver fed into the step function,
//! starting from some phase. The functions here say which phase a trace
//! reaches, which captured handles its events report, and which handles the
//! engine hands off along it; the lemmas state the engine's guarantees over
//! whole traces: a fatal failure or an abandoned consumer ends the task at
//! once, and no handle is ever delivered twice when the registry admits each
//! device at most once.

use vstd::prelude::*;

use crate::monitor::Action;
use crate::monitor::Event;
use crate::monitor::OpenOutcome;
use crate::monitor::Phase;
use crate::monitor::event_fits;
use crate::monitor::is_terminal;
use crate::monitor::spec_step;

verus! {

/// The phase reached after stepping through all of `events` from `p`.
pub open spec fn run_phase<H, E>(p: Phase, events: Seq<Event<H, E>>) -> Phase
    decreases events.len(),
{
    if events.len() == 0 {
        p
    } else {
        run_phase(spec_step(p, events[0]).0, events.skip(1))
    }
}

/// True iff each event of the trace is one the driver can report in the
/// phase reached at that point: the driver only observes what the pending
/// action asked it to await, and a terminal task observes nothing.
pub open spec fn valid_from<H, E>(p: Phase, events: Seq<Event<H, E>>) -> bool
    decreases events.len(),
{
    if events.len() == 0 {
        true
    } else {
        event_fits(p, events[0]) && valid_from(spec_step(p, events[0]).0, events.skip(1))
    }
}

/// The handles of all capture reports among the trace's events, in order.
pub open spec fn captured_handles<H, E>(events: Seq<Event<H, E>>) -> Seq<H>
    decreases events.len(),
{
    if events.len() == 0 {
        Seq::empty()
    } else {
        let rest = captured_handles(events.skip(1));
        match events[0] {
            Event::Opened(OpenOutcome::Captured(handle)) => seq![handle] + rest,
            _ => rest,
        }
    }
}

/// The handles the engine hands off along the trace, in delivery order.
pub open spec fn delivered_handles<H, E>(p: Phase, events: Seq<Event<H, E>>) -> Seq<H>
    decreases events.len(),
{
    if events.len() == 0 {
        Seq::empty()
    } else {
        let next = spec_step(p, events[0]);
        let rest = delivered_handles(next.0, events.skip(1));
        match next.1 {
            Action::Deliver(handle) => seq![handle] + rest,
            _ => rest,
        }
    }
}

/// Along a valid trace, the event at each position fits the phase reached
/// there.
pub proof fn lemma_valid_index_fits<H, E>(p: Phase, events: Seq<Event<H, E>>, i: int)
    requires
        valid_from(p, events),
        0 <= i < events.len(),
    ensures
        event_fits(run_phase(p, events.take(i)), events[i]),
    decreases i,
{
    if i == 0 {
        assert(events.take(0) =~= Seq::<Event<H, E>>::empty());
    } else {
        let p1 = spec_step(p, events[0]).0;
        lemma_valid_index_fits(p1, events.skip(1), i - 1);
        assert(events.skip(1)[i - 1] == events[i]);
        assert(events.take(i)[0] == events[0]);
        assert(events.take(i).skip(1) =~= events.skip(1).take(i - 1));
    }
}

/// A valid trace cannot continue past a step that reaches a terminal phase:
/// that step is the trace's last.
pub proof fn lemma_terminal_ends_trace<H, E>(p: Phase, events: Seq<Event<H, E>>, i: int)
    requires
        valid_from(p, events),
        0 <= i < events.len(),
        is_terminal(spec_step(run_phase(p, events.take(i)), events[i]).0),
    ensures
        i == events.len() - 1,
        run_phase(p, events) == spec_step(run_phase(p, events.take(i)), events[i]).0,
    decreases i,
{
    if i == 0 {
        assert(events.take(0) =~= Seq::<Event<H, E>>::empty());
        let p1 = spec_step(p, events[0]).0;
        if events.len() > 1 {
            assert(valid_from(p1, events.skip(1)));
            assert(event_fits(p1, events.skip(1)[0]));
            assert(false);
        }
        assert(events.skip(1) =~= Seq::<Event<H, E>>::empty());
        assert(run_phase(p, events) == run_phase(p1, events.skip(1)));
        assert(run_phase(p1, events.skip(1)) == p1);
    } else {
        let p1 = spec_step(p, events[0]).0;
        assert(events.take(i)[0] == events[0]);
        assert(events.take(i).skip(1) =~= events.skip(1).take(i - 1));
        assert(events.skip(1)[i - 1] == events[i]);
        lemma_terminal_ends_trace(p1, events.skip(1), i - 1);
        assert(run_phase(p, events.take(i)) == run_phase(p1, events.skip(1).take(i - 1)));
        assert(run_phase(p, events) == run_phase(p1, events.skip(1)));
    }
}

/// Hand-offs split at any point of a trace: the handles delivered along the
/// whole trace are those delivered along the first `i` events followed by
/// those delivered along the rest.
pub proof fn lemma_delivered_split<H, E>(p: Phase, events: Seq<Event<H, E>>, i: int)
    requires
        0 <= i <= events.len(),
    ensures
        delivered_handles(p, events) == delivered_handles(p, events.take(i))
            + delivered_handles(run_phase(p, events.take(i)), events.skip(i)),
    decreases i,
{
    if i == 0 {
        assert(events.take(0) =~= Seq::<Event<H, E>>::empty());
        assert(events.skip(0) =~= events);
        assert(delivered_handles(p, events.take(0)) + delivered_handles(p, events)
            =~= delivered_handles(p, events));
    } else {
        let p1 = spec_step(p, events[0]).0;
        lemma_delivered_split(p1, events.skip(1), i - 1);
        assert(events.take(i)[0] == events[0]);
        assert(events.take(i).skip(1) =~= events.skip(1).take(i - 1));
        assert(events.skip(1).skip(i - 1) =~= events.skip(i));
        let head = delivered_handles(p1, events.skip(1).take(i - 1));
        let tail = delivered_handles(
            run_phase(p1, events.skip(1).take(i - 1)),
            events.skip(i),
        );
        match spec_step(p, events[0]).1 {
            Action::Deliver(handle) => {
                assert(seq![handle] + (head + tail) =~= (seq![handle] + head) + tail);
            },
            _ => {},
        }
    }
}

/// An I/O failure reported for any open attempt is fatal: the step that
/// consumes it delivers that failure and moves to the failed phase, so the
/// trace ends there — in particular, no further open attempt follows. The
/// consumer sees the failure once; every later pull finds the hand-off
/// channel closed and reports the stable source-exhausted condition.
pub proof fn lemma_io_failure_is_fatal<H, E>(p: Phase, events: Seq<Event<H, E>>, i: int, err: E)
    requires
        valid_from(p, events),
        0 <= i < events.len(),
        events[i] == Event::<H, E>::Opened(OpenOutcome::IoFailure(err)),
    ensures
        spec_step(run_phase(p, events.take(i)), events[i])
            == (Phase::Failed, Action::<H, E>::Fail(err)),
        i == events.len() - 1,
        run_phase(p, events) is Failed,
{
    lemma_valid_index_fits(p, events, i);
    lemma_terminal_ends_trace(p, events, i);
}

/// Once the consumer side of the hand-off channel is abandoned — observed
/// either as the abandonment check firing at a suspension point or as a
/// rejected hand-off send — the task stops at once: it moves to the done
/// phase, the trace ends, no further open attempt or hand-off follows, and
/// the handles already handed off are exactly those of the trace so far.
pub proof fn lemma_abandonment_stops_task<H, E>(p: Phase, events: Seq<Event<H, E>>, i: int)
    requires
        valid_from(p, events),
        0 <= i < events.len(),
        events[i] is Abandoned || events[i] == Event::<H, E>::Sent(false),
    ensures
        spec_step(run_phase(p, events.take(i)), events[i]).0 is Done,
        spec_step(run_phase(p, events.take(i)), events[i]).1 is Stop,
        i == events.len() - 1,
        run_phase(p, events) is Done,
        delivered_handles(p, events) == delivered_handles(p, events.take(i)),
{
    lemma_valid_index_fits(p, events, i);
    lemma_terminal_ends_trace(p, events, i);
    lemma_delivered_split(p, events, i);
    let p_i = run_phase(p, events.take(i));
    assert(events.skip(i)[0] == events[i]);
    assert(events.skip(i).len() == 1);
    assert(events.skip(i).skip(1) =~= Seq::<Event<H, E>>::empty());
    assert(spec_step(p_i, events[i]).1 is Stop);
    assert(delivered_handles(spec_step(p_i, events[i]).0, events.skip(i).skip(1))
        =~= Seq::<H>::empty());
    assert(delivered_handles(p_i, events.skip(i)) =~= Seq::<H>::empty());
    assert(delivered_handles(p, events.take(i)) + Seq::<H>::empty()
        =~= delivered_handles(p, events.take(i)));
}

/// How many times `x` occurs in `s`.
pub open spec fn occurrences<T>(s: Seq<T>, x: T) -> nat
    decreases s.len(),
{
    if s.len() == 0 {
        0
    } else {
        (if s[0] == x {
            1nat
        } else {
            0nat
        }) + occurrences(s.skip(1), x)
    }
}

proof fn lemma_occurrences_push_front<T>(x: T, s: Seq<T>, y: T)
    ensures
        occurrences(seq![x] + s, y) == (if x == y {
            1nat
        } else {
            0nat
        }) + occurrences(s, y),
{
    assert((seq![x] + s)[0] == x);
    assert((seq![x] + s).skip(1) =~= s);
}

proof fn lemma_occurrence_at_index<T>(s: Seq<T>, k: int)
    requires
        0 <= k < s.len(),
    ensures
        occurrences(s, s[k]) >= 1,
    decreases k,
{
    if k > 0 {
        lemma_occurrence_at_index(s.skip(1), k - 1);
        assert(s.skip(1)[k - 1] == s[k]);
    }
}

proof fn lemma_two_occurrences<T>(s: Seq<T>, i: int, j: int)
    requires
        0 <= i < j < s.len(),
        s[i] == s[j],
    ensures
        occurrences(s, s[i]) >= 2,
    decreases i,
{
    if i == 0 {
        lemma_occurrence_at_index(s.skip(1), j - 1);
        assert(s.skip(1)[j - 1] == s[j]);
    } else {
        lemma_two_occurrences(s.skip(1), i - 1, j - 1);
        assert(s.skip(1)[i - 1] == s[i]);
        assert(s.skip(1)[j - 1] == s[j]);
    }
}

proof fn lemma_no_occurrence<T>(s: Seq<T>, x: T)
    requires
        forall|k: int| 0 <= k < s.len() ==> s[k] != x,
    ensures
        occurrences(s, x) == 0,
    decreases s.len(),
{
    if s.len() > 0 {
        assert forall|k: int| 0 <= k < s.skip(1).len() implies s.skip(1)[k] != x by {
            assert(s.skip(1)[k] == s[k + 1]);
        }
        lemma_no_occurrence(s.skip(1), x);
    }
}

proof fn lemma_distinct_bounds_occurrences<T>(s: Seq<T>, x: T)
    requires
        forall|i: int, j: int| 0 <= i < j < s.len() ==> s[i] != s[j],
    ensures
        occurrences(s, x) <= 1,
    decreases s.len(),
{
    if s.len() > 0 {
        let rest = s.skip(1);
        if s[0] == x {
            assert forall|k: int| 0 <= k < rest.len() implies rest[k] != x by {
                assert(rest[k] == s[k + 1]);
                assert(s[0] != s[k + 1]);
            }
            lemma_no_occurrence(rest, x);
        } else {
            assert forall|i: int, j: int| 0 <= i < j < rest.len() implies rest[i] != rest[j] by {
                assert(rest[i] == s[i + 1]);
                assert(rest[j] == s[j + 1]);
                assert(s[i + 1] != s[j + 1]);
            }
            lemma_distinct_bounds_occurrences(rest, x);
        }
    }
}

/// Every hand-off has a capture report behind it: along any trace, a handle
/// is handed off no more often than the trace's events report it captured.
pub proof fn lemma_delivered_within_captured<H, E>(
    p: Phase,
    events: Seq<Event<H, E>>,
    handle: H,
)
    ensures
        occurrences(delivered_handles(p, events), handle)
            <= occurrences(captured_handles(events), handle),
    decreases events.len(),
{
    if events.len() > 0 {
        let next = spec_step(p, events[0]);
        lemma_delivered_within_captured(next.0, events.skip(1), handle);
        match next.1 {
            Action::Deliver(h) => {
                assert(events[0] == Event::<H, E>::Opened(OpenOutcome::Captured(h)));
                lemma_occurrences_push_front(h, delivered_handles(next.0, events.skip(1)), handle);
                lemma_occurrences_push_front(h, captured_handles(events.skip(1)), handle);
            },
            _ => {
                match events[0] {
                    Event::Opened(OpenOutcome::Captured(h)) => {
                        lemma_occurrences_push_front(h, captured_handles(events.skip(1)), handle);
                    },
                    _ => {},
                }
            },
        }
    }
}

/// Registry dedup carries through to delivery: when no two capture reports
/// of a trace carry the same handle — the registry guarantees at-most-once
/// capture per physical device, across the enumeration phase and the watch
/// phase combined — the engine never hands off two handles derived from the
/// same device.
pub proof fn lemma_no_duplicate_delivery<H, E>(p: Phase, events: Seq<Event<H, E>>)
    requires
        forall|i: int, j: int|
            0 <= i < j < captured_handles(events).len() ==> captured_handles(events)[i]
                != captured_handles(events)[j],
    ensures
        forall|i: int, j: int|
            0 <= i < j < delivered_handles(p, events).len() ==> delivered_handles(p, events)[i]
                != delivered_handles(p, events)[j],
{
    let d = delivered_handles(p, events);
    assert forall|i: int, j: int| 0 <= i < j < d.len() implies d[i] != d[j] by {
        if d[i] == d[j] {
            lemma_two_occurrences(d, i, j);
            lemma_delivered_within_captured(p, events, d[i]);
            lemma_distinct_bounds_occurrences(captured_handles(events), d[i]);
        }
    }
}

} // verus!
