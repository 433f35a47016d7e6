//! Who may change the calendar and the speed: nobody outside a session, the
//! host inside one, while peers only mirror what the host replicates and
//! forward their requests to it.
use vstd::prelude::*;

use crate::elapsed::Elapsed;
use crate::speed::{update_between, GameSpeed, Paused, SpeedController, SpeedUpdate, SpeedView};
use crate::time::{Clock, ClockChanges, ClockModel, ClockView, Weekday, MINS_PER_HOUR};

verus! {

/// The replicated part of a session's state. The carry of the clock model
/// stays with the host and is not part of it.
#[derive(Clone, Copy, Debug, PartialEq, Eq, Structural)]
pub struct Snapshot {
    pub weekday: Weekday,
    pub clock: Clock,
    pub speed: GameSpeed,
    pub paused: Paused,
}

/// A change that a peer asks the host for.
#[derive(Clone, Copy, Debug, PartialEq, Eq, Structural)]
pub enum Request {
    SetSpeed(GameSpeed),
    SetPaused(bool),
    TogglePause,
}

/// What became of a request.
#[derive(Clone, Copy, Debug, PartialEq, Eq, Structural)]
pub enum RequestOutcome {
    /// The host applied it.
    Applied(SpeedUpdate),
    /// A mirroring peer passes it on to the host.
    Forwarded(Request),
    /// No session is active.
    Dropped,
}

/// Abstract state of a session.
pub enum SessionView {
    Inactive,
    Hosting { clock: ClockView, speed: SpeedView },
    Mirroring(Snapshot),
}

/// The speed state that `request` asks for, from `s`.
pub open spec fn requested(s: SpeedView, request: Request) -> SpeedView {
    match request {
        Request::SetSpeed(speed) => SpeedView { paused: false, speed },
        Request::SetPaused(paused) => SpeedView { paused, speed: s.speed },
        Request::TogglePause => SpeedView { paused: !s.paused, speed: s.speed },
    }
}

/// Lifecycle of the calendar and speed state on one peer.
pub enum Session {
    Inactive,
    Hosting { clock: ClockModel, speed: SpeedController },
    Mirroring(Snapshot),
}

impl View for Session {
    type V = SessionView;

    open spec fn view(&self) -> SessionView {
        match self {
            Session::Inactive => SessionView::Inactive,
            Session::Hosting { clock, speed } => SessionView::Hosting {
                clock: clock@,
                speed: speed@,
            },
            Session::Mirroring(snapshot) => SessionView::Mirroring(*snapshot),
        }
    }
}

impl Session {
    /// No session yet.
    pub fn new() -> (r: Session)
        ensures
            r@ == SessionView::Inactive,
    {
        Session::Inactive
    }

    /// Whether this peer holds the authoritative state.
    pub fn is_host(&self) -> (r: bool)
        ensures
            r <==> self@ is Hosting,
    {
        match self {
            Session::Hosting { .. } => true,
            _ => false,
        }
    }

    /// Creates the authoritative state of a new session: Monday 13:00,
    /// paused, at normal speed. Only a peer without a session can host; any
    /// other is left as it was.
    pub fn start_hosting(&mut self) -> (r: bool)
        ensures
            r <==> old(self)@ is Inactive,
            r ==> final(self)@ == (SessionView::Hosting {
                clock: ClockView { day: 0, minute: 13 * MINS_PER_HOUR as nat, carry: 0 },
                speed: SpeedView { paused: true, speed: GameSpeed::Normal },
            }),
            !r ==> final(self)@ == old(self)@,
    {
        match self {
            Session::Inactive => {
                *self = Session::Hosting { clock: ClockModel::new(), speed: SpeedController::new() };
                true
            },
            _ => false,
        }
    }

    /// Ends the session, hosted or mirrored, and drops its state.
    pub fn end(&mut self)
        ensures
            final(self)@ == SessionView::Inactive,
    {
        *self = Session::Inactive;
    }

    /// Takes a snapshot from the host: a peer without a session starts
    /// mirroring, a mirroring one overwrites its copy. The host ignores it.
    pub fn receive(&mut self, snapshot: Snapshot) -> (r: bool)
        ensures
            r <==> !(old(self)@ is Hosting),
            r ==> final(self)@ == SessionView::Mirroring(snapshot),
            !r ==> final(self)@ == old(self)@,
    {
        match self {
            Session::Hosting { .. } => false,
            _ => {
                *self = Session::Mirroring(snapshot);
                true
            },
        }
    }

    /// Advances the host's calendar by `elapsed`. A mirror never ticks, and
    /// without a session there is nothing to tick.
    pub fn tick(&mut self, elapsed: Elapsed) -> (r: ClockChanges)
        ensures
            final(self)@ == (match old(self)@ {
                SessionView::Hosting { clock, speed } => SessionView::Hosting {
                    clock: clock.step(elapsed@),
                    speed,
                },
                other => other,
            }),
            !(old(self)@ is Hosting) ==> r == (ClockChanges { weekday: None, clock: None }),
            old(self)@ matches SessionView::Hosting { clock, .. } ==> {
                let after = clock.step(elapsed@);
                &&& r.weekday == (if after.day != clock.day {
                    Some(Weekday::from_ordinal(after.day))
                } else {
                    None
                })
                &&& r.clock is Some <==> after.minute != clock.minute
                &&& r.clock matches Some(c) ==> c@ == after.minute
            },
    {
        match self {
            Session::Hosting { clock, .. } => clock.tick(elapsed),
            _ => ClockChanges { weekday: None, clock: None },
        }
    }

    /// Handles a speed or pause request: the host applies it, a mirror
    /// forwards it, and without a session it is dropped.
    pub fn request(&mut self, request: Request) -> (r: RequestOutcome)
        ensures
            final(self)@ == (match old(self)@ {
                SessionView::Hosting { clock, speed } => SessionView::Hosting {
                    clock,
                    speed: requested(speed, request),
                },
                other => other,
            }),
            r == (match old(self)@ {
                SessionView::Hosting { speed, .. } => RequestOutcome::Applied(
                    update_between(speed, requested(speed, request)),
                ),
                SessionView::Mirroring(_) => RequestOutcome::Forwarded(request),
                SessionView::Inactive => RequestOutcome::Dropped,
            }),
    {
        match self {
            Session::Hosting { speed, .. } => {
                let update = match request {
                    Request::SetSpeed(s) => speed.request_set_speed(s),
                    Request::SetPaused(p) => speed.request_set_paused(p),
                    Request::TogglePause => speed.request_toggle_pause(),
                };
                RequestOutcome::Applied(update)
            },
            Session::Mirroring(_) => RequestOutcome::Forwarded(request),
            Session::Inactive => RequestOutcome::Dropped,
        }
    }

    /// The state to replicate (on the host) or the mirrored copy (on a
    /// peer); nothing without a session.
    pub fn snapshot(&self) -> (r: Option<Snapshot>)
        ensures
            (self@ is Inactive) <==> r is None,
            self@ matches SessionView::Mirroring(s) ==> r == Some(s),
            self@ matches SessionView::Hosting { clock, speed } ==> (r matches Some(s) && s.weekday
                == Weekday::from_ordinal(clock.day) && s.clock@ == clock.minute && s.speed
                == speed.speed && s.paused == Paused(speed.paused)),
    {
        match self {
            Session::Inactive => None,
            Session::Hosting { clock, speed } => {
                Some(
                    Snapshot {
                        weekday: clock.weekday(),
                        clock: clock.clock(),
                        speed: speed.speed(),
                        paused: speed.paused(),
                    },
                )
            },
            Session::Mirroring(snapshot) => Some(*snapshot),
        }
    }

    /// The time-dilation factor that this peer's time source runs at: the
    /// host's applied factor, or a mirror's from its copy; none without a
    /// session.
    pub fn multiplier(&self) -> (r: Option<u32>)
        ensures
            r == (match self@ {
                SessionView::Hosting { speed, .. } => Some(speed.effective() as u32),
                SessionView::Mirroring(s) => Some(
                    (SpeedView { paused: s.paused.0, speed: s.speed }).effective() as u32,
                ),
                SessionView::Inactive => None,
            }),
    {
        match self {
            Session::Hosting { speed, .. } => Some(speed.applied_multiplier()),
            Session::Mirroring(s) => if s.paused.0 {
                Some(0)
            } else {
                Some(s.speed.multiplier())
            },
            Session::Inactive => None,
        }
    }
}

impl Default for Session {
    fn default() -> (r: Session)
        ensures
            r@ == SessionView::Inactive,
    {
        Session::new()
    }
}

} // verus!
