//! Authoritative in-game calendar and simulation-speed model of a life
//! simulation: a clock that turns elapsed wall time into weekdays, hours and
//! minutes, a speed controller that couples the pause flag with the selected
//! speed, and the session state machine that decides who may change either.

pub mod elapsed;
pub mod session;
pub mod speed;
pub mod time;
