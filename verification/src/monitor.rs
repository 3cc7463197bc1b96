//! The discovery engine's decision core.
//!
//! The engine merges a one-time directory enumeration with a live
//! filesystem-change watch into a single ordered stream of captured devices.
//! Everything the background task decides — which candidate to open next,
//! what each collaborator outcome means, when the task is finished or dead —
//! is the pure step function below. The task's driver performs one awaited
//! operation per issued [`Action`], reports what happened as an [`Event`],
//! and feeds it back into [`step`].
//!
//! `H` is the caller's captured-device handle type and `E` its fatal-failure
//! type; the engine only routes such values, it never inspects them.

use vstd::prelude::*;

verus! {

/// Phase of the background discovery task.
///
/// The task first drains the pre-existing directory entries (`Drain*`), then
/// consumes live creation notifications (`Watch*`). Within each of the two
/// sources, `Ready` means the next candidate is awaited, `Opening` means an
/// open attempt on one candidate is in flight, and `Delivering` means a
/// captured handle is being handed off to the consumer. `Done` and `Failed`
/// are terminal: the task processes no further candidates.
#[derive(Clone, Copy, PartialEq, Eq, Structural, Debug)]
pub enum Phase {
    DrainReady,
    DrainOpening,
    DrainDelivering,
    WatchReady,
    WatchOpening,
    WatchDelivering,
    Done,
    Failed,
}

/// Outcome of one open attempt on a candidate, as reported by the
/// interceptor collaborator.
pub enum OpenOutcome<H, E> {
    /// The device was opened, matched, and exclusively captured.
    Captured(H),
    /// The open attempt failed at the I/O level: treated as systemic, fatal.
    IoFailure(E),
    /// Not a usable input device (or a duplicate the registry rejected).
    NotApplicable,
    /// A usable device whose identity no allowlist entry admits.
    NotMatchingAllowlist,
}

/// What the driver observed while performing the previously issued action.
pub enum Event<H, E> {
    /// Enumeration yielded the next pre-existing entry's file name, or `None`
    /// once the listing is exhausted.
    Entry(Option<Vec<u8>>),
    /// Enumeration itself failed.
    EntryFailed(E),
    /// A creation notification arrived, carrying the new entry's file name
    /// if the notification had one.
    Created(Option<Vec<u8>>),
    /// Reading the next notification failed.
    WatchFailed(E),
    /// The notification source shut down cleanly.
    WatchClosed,
    /// The open attempt on the current candidate finished.
    Opened(OpenOutcome<H, E>),
    /// The hand-off send finished; `true` iff the consumer accepted it.
    Sent(bool),
    /// The consumer side of the hand-off channel was found abandoned.
    Abandoned,
}

/// What the driver must do next.
pub enum Action<H, E> {
    /// Await the next pre-existing directory entry.
    FetchEntry,
    /// Await the next creation notification.
    AwaitCreation,
    /// Ask the interceptor to open the candidate with this file name.
    Open(Vec<u8>),
    /// Hand this captured handle off to the consumer.
    Deliver(H),
    /// Deliver this single fatal failure, then end the task.
    Fail(E),
    /// End the task silently.
    Stop,
}

/// True iff the task is finished and processes no further events.
pub open spec fn is_terminal(p: Phase) -> bool {
    p is Done || p is Failed
}

/// True iff `name` begins with the literal prefix `event`: only such entries
/// are raw input device nodes; others sharing the directory are ignored.
pub open spec fn spec_is_event_name(name: Seq<u8>) -> bool {
    // the bytes of "event" in ASCII
    &&& name.len() >= 5
    &&& name[0] == 101u8
    &&& name[1] == 118u8
    &&& name[2] == 101u8
    &&& name[3] == 110u8
    &&& name[4] == 116u8
}

/// Whether an event is one the driver can report in the given phase: each
/// phase awaits exactly the operation its pending action named, and
/// abandonment is only detected at suspension points (never mid-open).
pub open spec fn event_fits<H, E>(p: Phase, e: Event<H, E>) -> bool {
    match p {
        Phase::DrainReady => e matches Event::Entry(_) || e matches Event::EntryFailed(_)
            || e is Abandoned,
        Phase::WatchReady => e matches Event::Created(_) || e matches Event::WatchFailed(_)
            || e is WatchClosed || e is Abandoned,
        Phase::DrainOpening => e matches Event::Opened(_),
        Phase::WatchOpening => e matches Event::Opened(_),
        Phase::DrainDelivering => e matches Event::Sent(_) || e is Abandoned,
        Phase::WatchDelivering => e matches Event::Sent(_) || e is Abandoned,
        Phase::Done => false,
        Phase::Failed => false,
    }
}

/// The engine's transition function: given the current phase and the event
/// the driver observed, the phase to move to and the action to perform next.
pub open spec fn spec_step<H, E>(p: Phase, e: Event<H, E>) -> (Phase, Action<H, E>) {
    match (p, e) {
        (Phase::DrainReady, Event::Entry(Some(name))) => if spec_is_event_name(name@) {
            (Phase::DrainOpening, Action::Open(name))
        } else {
            (Phase::DrainReady, Action::FetchEntry)
        },
        (Phase::DrainReady, Event::Entry(None)) => (Phase::WatchReady, Action::AwaitCreation),
        (Phase::DrainReady, Event::EntryFailed(err)) => (Phase::Failed, Action::Fail(err)),
        (Phase::WatchReady, Event::Created(Some(name))) => if spec_is_event_name(name@) {
            (Phase::WatchOpening, Action::Open(name))
        } else {
            (Phase::WatchReady, Action::AwaitCreation)
        },
        (Phase::WatchReady, Event::Created(None)) => (Phase::WatchReady, Action::AwaitCreation),
        (Phase::WatchReady, Event::WatchFailed(err)) => (Phase::Failed, Action::Fail(err)),
        (Phase::WatchReady, Event::WatchClosed) => (Phase::Done, Action::Stop),
        (Phase::DrainOpening, Event::Opened(OpenOutcome::Captured(handle))) => (
            Phase::DrainDelivering,
            Action::Deliver(handle),
        ),
        (Phase::DrainOpening, Event::Opened(OpenOutcome::IoFailure(err))) => (
            Phase::Failed,
            Action::Fail(err),
        ),
        (Phase::DrainOpening, Event::Opened(OpenOutcome::NotApplicable)) => (
            Phase::DrainReady,
            Action::FetchEntry,
        ),
        (Phase::DrainOpening, Event::Opened(OpenOutcome::NotMatchingAllowlist)) => (
            Phase::DrainReady,
            Action::FetchEntry,
        ),
        (Phase::WatchOpening, Event::Opened(OpenOutcome::Captured(handle))) => (
            Phase::WatchDelivering,
            Action::Deliver(handle),
        ),
        (Phase::WatchOpening, Event::Opened(OpenOutcome::IoFailure(err))) => (
            Phase::Failed,
            Action::Fail(err),
        ),
        (Phase::WatchOpening, Event::Opened(OpenOutcome::NotApplicable)) => (
            Phase::WatchReady,
            Action::AwaitCreation,
        ),
        (Phase::WatchOpening, Event::Opened(OpenOutcome::NotMatchingAllowlist)) => (
            Phase::WatchReady,
            Action::AwaitCreation,
        ),
        (Phase::DrainDelivering, Event::Sent(true)) => (Phase::DrainReady, Action::FetchEntry),
        (Phase::DrainDelivering, Event::Sent(false)) => (Phase::Done, Action::Stop),
        (Phase::WatchDelivering, Event::Sent(true)) => (Phase::WatchReady, Action::AwaitCreation),
        (Phase::WatchDelivering, Event::Sent(false)) => (Phase::Done, Action::Stop),
        (_, Event::Abandoned) => (Phase::Done, Action::Stop),
        (_, _) => (p, Action::Stop),
    }
}

/// True iff `name` begins with the literal prefix `event`.
pub fn is_event_name(name: &Vec<u8>) -> (r: bool)
    ensures
        r == spec_is_event_name(name@),
{
    name.len() >= 5 && name[0] == 101u8 && name[1] == 118u8 && name[2] == 101u8
        && name[3] == 110u8 && name[4] == 116u8
}

/// The task's first phase and action. Initialization (opening the directory
/// listing and establishing the creation subscription, in that order) happens
/// before the first candidate is fetched; any failure there is fatal and is
/// delivered exactly once.
pub fn start<H, E>(setup: Result<(), E>) -> (r: (Phase, Action<H, E>))
    ensures
        r == spec_start::<H, E>(setup),
{
    match setup {
        Ok(()) => (Phase::DrainReady, Action::FetchEntry),
        Err(err) => (Phase::Failed, Action::Fail(err)),
    }
}

/// What [`start`] returns: enumeration begins only if setup succeeded.
pub open spec fn spec_start<H, E>(setup: Result<(), E>) -> (Phase, Action<H, E>) {
    match setup {
        Ok(()) => (Phase::DrainReady, Action::FetchEntry),
        Err(err) => (Phase::Failed, Action::Fail(err)),
    }
}

/// One step of the background task.
pub fn step<H, E>(p: Phase, e: Event<H, E>) -> (r: (Phase, Action<H, E>))
    requires
        event_fits(p, e),
    ensures
        r == spec_step(p, e),
{
    match (p, e) {
        (Phase::DrainReady, Event::Entry(Some(name))) => if is_event_name(&name) {
            (Phase::DrainOpening, Action::Open(name))
        } else {
            (Phase::DrainReady, Action::FetchEntry)
        },
        (Phase::DrainReady, Event::Entry(None)) => (Phase::WatchReady, Action::AwaitCreation),
        (Phase::DrainReady, Event::EntryFailed(err)) => (Phase::Failed, Action::Fail(err)),
        (Phase::WatchReady, Event::Created(Some(name))) => if is_event_name(&name) {
            (Phase::WatchOpening, Action::Open(name))
        } else {
            (Phase::WatchReady, Action::AwaitCreation)
        },
        (Phase::WatchReady, Event::Created(None)) => (Phase::WatchReady, Action::AwaitCreation),
        (Phase::WatchReady, Event::WatchFailed(err)) => (Phase::Failed, Action::Fail(err)),
        (Phase::WatchReady, Event::WatchClosed) => (Phase::Done, Action::Stop),
        (Phase::DrainOpening, Event::Opened(OpenOutcome::Captured(handle))) => (
            Phase::DrainDelivering,
            Action::Deliver(handle),
        ),
        (Phase::DrainOpening, Event::Opened(OpenOutcome::IoFailure(err))) => (
            Phase::Failed,
            Action::Fail(err),
        ),
        (Phase::DrainOpening, Event::Opened(OpenOutcome::NotApplicable)) => (
            Phase::DrainReady,
            Action::FetchEntry,
        ),
        (Phase::DrainOpening, Event::Opened(OpenOutcome::NotMatchingAllowlist)) => (
            Phase::DrainReady,
            Action::FetchEntry,
        ),
        (Phase::WatchOpening, Event::Opened(OpenOutcome::Captured(handle))) => (
            Phase::WatchDelivering,
            Action::Deliver(handle),
        ),
        (Phase::WatchOpening, Event::Opened(OpenOutcome::IoFailure(err))) => (
            Phase::Failed,
            Action::Fail(err),
        ),
        (Phase::WatchOpening, Event::Opened(OpenOutcome::NotApplicable)) => (
            Phase::WatchReady,
            Action::AwaitCreation,
        ),
        (Phase::WatchOpening, Event::Opened(OpenOutcome::NotMatchingAllowlist)) => (
            Phase::WatchReady,
            Action::AwaitCreation,
        ),
        (Phase::DrainDelivering, Event::Sent(true)) => (Phase::DrainReady, Action::FetchEntry),
        (Phase::DrainDelivering, Event::Sent(false)) => (Phase::Done, Action::Stop),
        (Phase::WatchDelivering, Event::Sent(true)) => (
            Phase::WatchReady,
            Action::AwaitCreation,
        ),
        (Phase::WatchDelivering, Event::Sent(false)) => (Phase::Done, Action::Stop),
        (_, Event::Abandoned) => (Phase::Done, Action::Stop),
        (_, _) => (p, Action::Stop),
    }
}

/// A creation notification with no associated name is ignored: the task
/// stays in the watch phase, still operable, and simply awaits the next
/// notification.
pub proof fn lemma_nameless_notification_ignored<H, E>()
    ensures
        spec_step::<H, E>(Phase::WatchReady, Event::Created(None)) == (
            Phase::WatchReady,
            Action::<H, E>::AwaitCreation,
        ),
        !is_terminal(Phase::WatchReady),
{
}

/// Where a phase stands in discovery order: the enumeration of pre-existing
/// entries first, then the live watch, then the terminal phases.
pub open spec fn phase_rank(p: Phase) -> int {
    match p {
        Phase::DrainReady => 0,
        Phase::DrainOpening => 0,
        Phase::DrainDelivering => 0,
        Phase::WatchReady => 1,
        Phase::WatchOpening => 1,
        Phase::WatchDelivering => 1,
        Phase::Done => 2,
        Phase::Failed => 2,
    }
}

/// The task never moves backwards in discovery order: once it has switched
/// from draining the pre-existing listing to the live watch it never returns,
/// and it never leaves a terminal phase. Delivered handles therefore keep
/// discovery order — every handle found by enumeration is handed off before
/// any handle found by the live watch.
pub proof fn lemma_discovery_order_monotone<H, E>(p: Phase, e: Event<H, E>)
    ensures
        phase_rank(spec_step(p, e).0) >= phase_rank(p),
{
}

/// A result the background task handed off: either a captured handle or the
/// task's single fatal failure.
pub enum Delivery<H, E> {
    Handle(H),
    Failure(E),
}

/// What one pull on the engine returns to its consumer.
pub enum ReadOutcome<H, E> {
    /// The next captured-device handle, in discovery order.
    Handle(H),
    /// The task's single fatal failure.
    Failure(E),
    /// The task has exited (after its failure, or cleanly): a stable
    /// terminal condition reported by this and every later pull.
    SourceExhausted,
}

/// What [`resolve_read`] returns for each received message.
pub open spec fn spec_resolve_read<H, E>(msg: Option<Delivery<H, E>>) -> ReadOutcome<H, E> {
    match msg {
        Some(Delivery::Handle(handle)) => ReadOutcome::Handle(handle),
        Some(Delivery::Failure(err)) => ReadOutcome::Failure(err),
        None => ReadOutcome::SourceExhausted,
    }
}

/// The pull operation's decision: a received message is returned as is, and
/// a closed channel (the task has exited) is reported as the stable
/// source-exhausted condition, so a pull after the failure or after clean
/// exit never hangs and always reports the same terminal outcome.
pub fn resolve_read<H, E>(msg: Option<Delivery<H, E>>) -> (r: ReadOutcome<H, E>)
    ensures
        r == spec_resolve_read(msg),
{
    match msg {
        Some(Delivery::Handle(handle)) => ReadOutcome::Handle(handle),
        Some(Delivery::Failure(err)) => ReadOutcome::Failure(err),
        None => ReadOutcome::SourceExhausted,
    }
}

} // verus!
