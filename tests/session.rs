use simgine_core::elapsed::Elapsed;
use simgine_core::session::{Request, RequestOutcome, Session, Snapshot};
use simgine_core::speed::{GameSpeed, Paused};
use simgine_core::time::{Clock, Weekday, SECS_PER_MIN};

fn mirrored_state() -> Snapshot {
    Snapshot {
        weekday: Weekday::Fri,
        clock: Clock::new(8, 30).unwrap(),
        speed: GameSpeed::Ultra,
        paused: Paused(false),
    }
}

#[test]
fn hosting_starts_with_default_state() {
    let mut session = Session::new();
    assert!(!session.is_host());
    assert_eq!(session.snapshot(), None);
    assert_eq!(session.multiplier(), None);

    assert!(session.start_hosting());
    assert!(session.is_host());
    assert_eq!(
        session.snapshot(),
        Some(Snapshot {
            weekday: Weekday::Mon,
            clock: Clock::new(13, 0).unwrap(),
            speed: GameSpeed::Normal,
            paused: Paused(true),
        })
    );
    assert_eq!(session.multiplier(), Some(0));
}

#[test]
fn hosting_twice_is_refused() {
    let mut session = Session::new();
    assert!(session.start_hosting());
    session.request(Request::SetSpeed(GameSpeed::Fast));
    assert!(!session.start_hosting());
    assert_eq!(session.multiplier(), Some(3));
}

#[test]
fn host_ticks_and_applies_requests() {
    let mut session = Session::new();
    session.start_hosting();
    let changes = session.tick(Elapsed::from_secs(SECS_PER_MIN));
    assert_eq!(changes.clock, Some(Clock::new(13, 1).unwrap()));
    assert_eq!(changes.weekday, None);

    let outcome = session.request(Request::SetSpeed(GameSpeed::Fast));
    match outcome {
        RequestOutcome::Applied(update) => {
            assert_eq!(update.multiplier, Some(3));
            assert_eq!(update.paused, Some(Paused(false)));
        }
        other => panic!("expected the host to apply the request, got {other:?}"),
    }
    session.request(Request::TogglePause);
    assert_eq!(session.multiplier(), Some(0));
    session.request(Request::SetPaused(false));
    assert_eq!(session.multiplier(), Some(3));
    assert_eq!(session.snapshot().unwrap().speed, GameSpeed::Fast);
}

#[test]
fn host_ignores_snapshots() {
    let mut session = Session::new();
    session.start_hosting();
    assert!(!session.receive(mirrored_state()));
    assert_eq!(session.snapshot().unwrap().weekday, Weekday::Mon);
}

#[test]
fn mirror_follows_snapshots_and_forwards_requests() {
    let mut session = Session::new();
    assert!(session.receive(mirrored_state()));
    assert!(!session.is_host());
    assert_eq!(session.snapshot(), Some(mirrored_state()));
    assert_eq!(session.multiplier(), Some(8));

    let changes = session.tick(Elapsed::from_secs(600));
    assert_eq!(changes.weekday, None);
    assert_eq!(changes.clock, None);
    assert_eq!(session.snapshot(), Some(mirrored_state()));

    let outcome = session.request(Request::TogglePause);
    assert_eq!(outcome, RequestOutcome::Forwarded(Request::TogglePause));
    assert_eq!(session.snapshot(), Some(mirrored_state()));

    let newer = Snapshot {
        paused: Paused(true),
        ..mirrored_state()
    };
    assert!(session.receive(newer));
    assert_eq!(session.snapshot(), Some(newer));
    assert_eq!(session.multiplier(), Some(0));
}

#[test]
fn without_session_requests_are_dropped() {
    let mut session = Session::default();
    assert_eq!(
        session.request(Request::SetSpeed(GameSpeed::Fast)),
        RequestOutcome::Dropped
    );
    let changes = session.tick(Elapsed::from_secs(10));
    assert_eq!(changes.clock, None);
    assert_eq!(session.snapshot(), None);
}

#[test]
fn ending_drops_the_state() {
    let mut session = Session::new();
    session.start_hosting();
    session.tick(Elapsed::from_secs(100));
    session.end();
    assert_eq!(session.snapshot(), None);
    assert!(session.start_hosting());
    assert_eq!(session.snapshot().unwrap().clock, Clock::new(13, 0).unwrap());

    session.end();
    session.receive(mirrored_state());
    session.end();
    assert_eq!(session.snapshot(), None);
}
