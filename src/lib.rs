//! Moving entities toward queued destinations: the waypoint queue and its
//! arrival detector, and the decisions of the kinematic, physics-driven and
//! pointer-driven motion strategies.

use vstd::prelude::*;

pub mod linear;
pub mod mouse_control;
pub mod physic;
pub mod route;

verus! {

/// Configuration of the movement systems: the host states in which they run.
/// With no state listed they run in every state.
pub struct MovementPlugin<T> {
    pub states: Vec<T>,
}

impl<T> MovementPlugin<T> {
    /// Systems that run in the given states only.
    pub fn new(states: Vec<T>) -> (r: Self)
        ensures
            r.states@ == states@,
    {
        MovementPlugin { states }
    }

    /// Systems that run whatever the state.
    pub fn any() -> (r: Self)
        ensures
            r.states@.len() == 0,
    {
        MovementPlugin { states: Vec::new() }
    }

    /// Whether the systems run without a state condition.
    pub fn runs_in_every_state(&self) -> (r: bool)
        ensures
            r == (self.states@.len() == 0),
    {
        self.states.len() == 0
    }
}

/// Builds plugins whose systems run whatever the state.
pub struct MovementPluginAnyState;

impl MovementPluginAnyState {
    /// A plugin configuration with no state condition.
    pub fn any<T>() -> (r: MovementPlugin<T>)
        ensures
            r.states@.len() == 0,
    {
        MovementPlugin::any()
    }
}

} // verus!
