use rkvm_input::monitor::{
    is_event_name, resolve_read, start, step, Action, Delivery, Event, OpenOutcome, Phase,
    ReadOutcome,
};

type Ev = Event<u64, &'static str>;
type Out = OpenOutcome<u64, &'static str>;

fn name(s: &str) -> Vec<u8> {
    s.as_bytes().to_vec()
}

#[test]
fn event_prefix_filter() {
    assert!(is_event_name(&name("event0")));
    assert!(is_event_name(&name("event")));
    assert!(is_event_name(&name("event17")));
    assert!(!is_event_name(&name("even")));
    assert!(!is_event_name(&name("")));
    assert!(!is_event_name(&name("js0")));
    assert!(!is_event_name(&name("mouse1")));
    assert!(!is_event_name(&name("Event3")));
}

#[test]
fn setup_success_starts_enumeration() {
    let (phase, action) = start::<u64, &'static str>(Ok(()));
    assert_eq!(phase, Phase::DrainReady);
    assert!(matches!(action, Action::FetchEntry));
}

#[test]
fn setup_failure_is_fatal() {
    let (phase, action) = start::<u64, &'static str>(Err("inotify init failed"));
    assert_eq!(phase, Phase::Failed);
    assert!(matches!(action, Action::Fail("inotify init failed")));
}

// The scenario: pre-existing entries `event3` (open succeeds) and `js0`
// (wrong prefix), then a creation notification for `event7` whose open
// reports "not matching allowlist". The captured handle for `event3` is
// delivered first, `js0` never reaches an open attempt, and `event7`'s
// rejection neither surfaces as a result nor ends the task.
#[test]
fn drain_then_watch_scenario() {
    let (p, a) = start::<u64, &'static str>(Ok(()));
    assert!(matches!(a, Action::FetchEntry));

    // event3 is enumerated: it is opened, captured, and handed off.
    let (p, a) = step(p, Ev::Entry(Some(name("event3"))));
    assert_eq!(p, Phase::DrainOpening);
    match a {
        Action::Open(n) => assert_eq!(n, name("event3")),
        _ => panic!("expected an open attempt"),
    }
    let (p, a) = step(p, Ev::Opened(Out::Captured(3)));
    assert_eq!(p, Phase::DrainDelivering);
    assert!(matches!(a, Action::Deliver(3)));
    assert!(matches!(
        resolve_read::<u64, &'static str>(Some(Delivery::Handle(3))),
        ReadOutcome::Handle(3)
    ));
    let (p, a) = step(p, Ev::Sent(true));
    assert_eq!(p, Phase::DrainReady);
    assert!(matches!(a, Action::FetchEntry));

    // js0 is enumerated: wrong prefix, discarded without an open attempt.
    let (p, a) = step(p, Ev::Entry(Some(name("js0"))));
    assert_eq!(p, Phase::DrainReady);
    assert!(matches!(a, Action::FetchEntry));

    // The listing is exhausted: the task switches to the live watch.
    let (p, a) = step(p, Ev::Entry(None));
    assert_eq!(p, Phase::WatchReady);
    assert!(matches!(a, Action::AwaitCreation));

    // event7 appears: it is opened, but no allowlist entry admits it; the
    // rejection is silent and the task keeps watching.
    let (p, a) = step(p, Ev::Created(Some(name("event7"))));
    assert_eq!(p, Phase::WatchOpening);
    match a {
        Action::Open(n) => assert_eq!(n, name("event7")),
        _ => panic!("expected an open attempt"),
    }
    let (p, a) = step(p, Ev::Opened(Out::NotMatchingAllowlist));
    assert_eq!(p, Phase::WatchReady);
    assert!(matches!(a, Action::AwaitCreation));
}

#[test]
fn not_applicable_is_silent_too() {
    let (p, _) = step(Phase::DrainReady, Ev::Entry(Some(name("event1"))));
    let (p, a) = step(p, Ev::Opened(Out::NotApplicable));
    assert_eq!(p, Phase::DrainReady);
    assert!(matches!(a, Action::FetchEntry));
}

// An I/O failure on any open attempt is fatal: the single failure is
// delivered, and afterwards every pull reports the stable source-exhausted
// condition.
#[test]
fn io_failure_on_open_is_fatal() {
    let (p, _) = step(Phase::WatchReady, Ev::Created(Some(name("event2"))));
    let (p, a) = step(p, Ev::Opened(Out::IoFailure("device subsystem gone")));
    assert_eq!(p, Phase::Failed);
    assert!(matches!(a, Action::Fail("device subsystem gone")));

    assert!(matches!(
        resolve_read::<u64, &'static str>(Some(Delivery::Failure("device subsystem gone"))),
        ReadOutcome::Failure("device subsystem gone")
    ));
    // The task is gone, the channel is closed: every later pull reports the
    // same terminal condition.
    assert!(matches!(
        resolve_read::<u64, &'static str>(None),
        ReadOutcome::SourceExhausted
    ));
    assert!(matches!(
        resolve_read::<u64, &'static str>(None),
        ReadOutcome::SourceExhausted
    ));
}

#[test]
fn enumeration_failure_is_fatal() {
    let (p, a) = step(Phase::DrainReady, Ev::EntryFailed("directory unreadable"));
    assert_eq!(p, Phase::Failed);
    assert!(matches!(a, Action::Fail("directory unreadable")));
}

#[test]
fn watch_failure_is_fatal() {
    let (p, a) = step(Phase::WatchReady, Ev::WatchFailed("watch read error"));
    assert_eq!(p, Phase::Failed);
    assert!(matches!(a, Action::Fail("watch read error")));
}

// A creation notification with no associated name is ignored: the task keeps
// watching and handles later notifications normally.
#[test]
fn nameless_notification_is_ignored() {
    let (p, a) = step(Phase::WatchReady, Ev::Created(None));
    assert_eq!(p, Phase::WatchReady);
    assert!(matches!(a, Action::AwaitCreation));

    let (p, a) = step(p, Ev::Created(Some(name("event9"))));
    assert_eq!(p, Phase::WatchOpening);
    assert!(matches!(a, Action::Open(_)));
}

#[test]
fn watch_source_exhaustion_ends_silently() {
    let (p, a) = step(Phase::WatchReady, Ev::WatchClosed);
    assert_eq!(p, Phase::Done);
    assert!(matches!(a, Action::Stop));
}

// Abandoning the consumer stops the task at the next suspension point, in
// whichever phase it stands, without a failure.
#[test]
fn abandonment_stops_task() {
    for phase in [
        Phase::DrainReady,
        Phase::WatchReady,
        Phase::DrainDelivering,
        Phase::WatchDelivering,
    ] {
        let (p, a) = step(phase, Ev::Abandoned);
        assert_eq!(p, Phase::Done);
        assert!(matches!(a, Action::Stop));
    }
}

#[test]
fn rejected_handoff_stops_task() {
    let (p, a) = step(Phase::DrainDelivering, Ev::Sent(false));
    assert_eq!(p, Phase::Done);
    assert!(matches!(a, Action::Stop));

    let (p, a) = step(Phase::WatchDelivering, Ev::Sent(false));
    assert_eq!(p, Phase::Done);
    assert!(matches!(a, Action::Stop));
}

// The registry guarantees at-most-once capture per physical device across
// both discovery phases: a re-appearing device is reported "not applicable"
// instead of being captured again, so its handle is never delivered twice.
#[test]
fn registry_dedup_across_phases() {
    let mut delivered: Vec<u64> = Vec::new();

    // event5 is captured during enumeration and delivered.
    let (p, _) = step(Phase::DrainReady, Ev::Entry(Some(name("event5"))));
    let (p, a) = step(p, Ev::Opened(Out::Captured(5)));
    if let Action::Deliver(h) = a {
        delivered.push(h);
    }
    let (p, _) = step(p, Ev::Sent(true));
    let (p, _) = step(p, Ev::Entry(None));

    // The same device re-appears under the watch: the registry rejects the
    // duplicate, nothing is delivered, and the task keeps watching.
    let (p, _) = step(p, Ev::Created(Some(name("event5"))));
    let (p, a) = step(p, Ev::Opened(Out::NotApplicable));
    if let Action::Deliver(h) = a {
        delivered.push(h);
    }
    assert_eq!(p, Phase::WatchReady);
    assert!(matches!(a, Action::AwaitCreation));
    assert_eq!(delivered, vec![5]);
}

#[test]
fn accepted_handoff_resumes_watching() {
    let (p, a) = step(Phase::WatchDelivering, Ev::Sent(true));
    assert_eq!(p, Phase::WatchReady);
    assert!(matches!(a, Action::AwaitCreation));
}
