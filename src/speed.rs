//! Simulation speed and the pause flag, and the time-dilation factor that
//! the two decide together.
use vstd::prelude::*;

verus! {

/// Speed selected for the simulation while it runs.
#[derive(Clone, Copy, Debug, PartialEq, Eq, Structural)]
pub enum GameSpeed {
    Normal,
    Fast,
    Ultra,
}

impl GameSpeed {
    /// How many times faster than wall-clock time the simulation runs.
    pub open spec fn factor(self) -> nat {
        match self {
            GameSpeed::Normal => 1,
            GameSpeed::Fast => 3,
            GameSpeed::Ultra => 8,
        }
    }

    /// How many times faster than wall-clock time the simulation runs.
    pub fn multiplier(&self) -> (r: u32)
        ensures
            r == self.factor(),
    {
        match self {
            GameSpeed::Normal => 1,
            GameSpeed::Fast => 3,
            GameSpeed::Ultra => 8,
        }
    }
}

impl Default for GameSpeed {
    fn default() -> (r: GameSpeed)
        ensures
            r == GameSpeed::Normal,
    {
        GameSpeed::Normal
    }
}

/// Whether the simulation is paused.
#[derive(Clone, Copy, Debug, PartialEq, Eq, Structural)]
pub struct Paused(pub bool);

impl Paused {
    /// The opposite state.
    pub fn toggled(&self) -> (r: Paused)
        ensures
            r.0 == !self.0,
    {
        Paused(!self.0)
    }
}

impl Default for Paused {
    /// A session starts paused.
    fn default() -> (r: Paused)
        ensures
            r.0,
    {
        Paused(true)
    }
}

/// Abstract state of the speed controller.
pub struct SpeedView {
    pub paused: bool,
    pub speed: GameSpeed,
}

impl SpeedView {
    /// The time-dilation factor: nothing while paused, else the speed's.
    pub open spec fn effective(self) -> nat {
        if self.paused {
            0
        } else {
            self.speed.factor()
        }
    }
}

/// What a request replaced: the new speed and pause flag where they
/// changed, and the new time-dilation factor where it changed.
#[derive(Clone, Copy, Debug, PartialEq, Eq, Structural)]
pub struct SpeedUpdate {
    pub speed: Option<GameSpeed>,
    pub paused: Option<Paused>,
    pub multiplier: Option<u32>,
}

/// The update that turns `before` into `after`.
pub open spec fn update_between(before: SpeedView, after: SpeedView) -> SpeedUpdate {
    SpeedUpdate {
        speed: if after.speed != before.speed {
            Some(after.speed)
        } else {
            None
        },
        paused: if after.paused != before.paused {
            Some(Paused(after.paused))
        } else {
            None
        },
        multiplier: if after.effective() != before.effective() {
            Some(after.effective() as u32)
        } else {
            None
        },
    }
}

/// The authority's speed state, together with the time-dilation factor last
/// handed to the simulation's time source, which always equals the one the
/// state decides.
#[derive(Clone, Copy, Debug, PartialEq, Eq, Structural)]
pub struct SpeedController {
    speed: GameSpeed,
    paused: Paused,
    applied: u32,
}

impl View for SpeedController {
    type V = SpeedView;

    closed spec fn view(&self) -> SpeedView {
        SpeedView { paused: self.paused.0, speed: self.speed }
    }
}

impl SpeedController {
    #[verifier::type_invariant]
    spec fn inv(self) -> bool {
        self.applied == self@.effective()
    }

    /// A fresh session's speed state: paused, at normal speed.
    pub fn new() -> (r: SpeedController)
        ensures
            r@ == (SpeedView { paused: true, speed: GameSpeed::Normal }),
    {
        SpeedController { speed: GameSpeed::Normal, paused: Paused(true), applied: 0 }
    }

    /// The selected speed, kept while paused.
    pub fn speed(&self) -> (r: GameSpeed)
        ensures
            r == self@.speed,
    {
        self.speed
    }

    /// The pause flag.
    pub fn paused(&self) -> (r: Paused)
        ensures
            r.0 == self@.paused,
    {
        self.paused
    }

    /// The time-dilation factor that the pause flag and the speed decide.
    pub fn effective_multiplier(&self) -> (r: u32)
        ensures
            r == self@.effective(),
    {
        if self.paused.0 {
            0
        } else {
            self.speed.multiplier()
        }
    }

    /// The time-dilation factor last handed to the simulation's time source.
    pub fn applied_multiplier(&self) -> (r: u32)
        ensures
            r == self@.effective(),
    {
        proof {
            use_type_invariant(self);
        }
        self.applied
    }

    /// Installs a new state and reports what it replaced.
    fn replace(&mut self, after: SpeedController) -> (r: SpeedUpdate)
        ensures
            final(self)@ == after@,
            r == update_between(old(self)@, after@),
    {
        proof {
            use_type_invariant(&*self);
            use_type_invariant(&after);
        }
        let before = *self;
        *self = after;
        SpeedUpdate {
            speed: if after.speed != before.speed {
                Some(after.speed)
            } else {
                None
            },
            paused: if after.paused != before.paused {
                Some(after.paused)
            } else {
                None
            },
            multiplier: if after.applied != before.applied {
                Some(after.applied)
            } else {
                None
            },
        }
    }

    /// Selects `speed`; selecting a speed also resumes a paused simulation.
    pub fn request_set_speed(&mut self, speed: GameSpeed) -> (r: SpeedUpdate)
        ensures
            final(self)@ == (SpeedView { paused: false, speed }),
            final(self)@.effective() == speed.factor(),
            r == update_between(old(self)@, final(self)@),
    {
        let applied = speed.multiplier();
        self.replace(SpeedController { speed, paused: Paused(false), applied })
    }

    /// Flips the pause flag and keeps the selected speed, so that resuming
    /// runs at it again.
    pub fn request_toggle_pause(&mut self) -> (r: SpeedUpdate)
        ensures
            final(self)@ == (SpeedView { paused: !old(self)@.paused, speed: old(self)@.speed }),
            r == update_between(old(self)@, final(self)@),
    {
        let paused = self.paused.toggled();
        self.request_set_paused(paused.0)
    }

    /// Sets the pause flag and keeps the selected speed.
    pub fn request_set_paused(&mut self, paused: bool) -> (r: SpeedUpdate)
        ensures
            final(self)@ == (SpeedView { paused, speed: old(self)@.speed }),
            r == update_between(old(self)@, final(self)@),
    {
        let applied = if paused {
            0
        } else {
            self.speed.multiplier()
        };
        self.replace(SpeedController { speed: self.speed, paused: Paused(paused), applied })
    }
}

impl Default for SpeedController {
    fn default() -> (r: SpeedController)
        ensures
            r@ == (SpeedView { paused: true, speed: GameSpeed::Normal }),
    {
        SpeedController::new()
    }
}

} // verus!
