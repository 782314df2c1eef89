//! Kinematic travel: an entity moved straight toward the head of its queue.
//! The vector arithmetic is the host's; this module decides when a step is
//! taken, at which speed, and what an arrival does to the queue.

use vstd::prelude::*;
use crate::route::{advance_if_arrived, advanced, retarget, retargeted};

verus! {

/// A waypoint of kinematic travel: a position, and a speed that overrides the
/// movement's own while this waypoint is the target.
pub struct LinearDestination<V, S> {
    pub pos: V,
    pub custom_velocity: Option<S>,
}

impl<V, S> LinearDestination<V, S> {
    /// A waypoint at `pos`, travelled at the movement's own speed.
    pub fn from_pos(pos: V) -> (r: Self)
        ensures
            r.pos == pos,
            r.custom_velocity is None,
    {
        LinearDestination { pos, custom_velocity: None }
    }
}

/// Kinematic travel state of one entity: its speed (units per millisecond of
/// tick), its queue of waypoints, whether the route repeats, whether travel
/// is paused, and the distance under which a waypoint counts as reached.
pub struct LinearMovement<V, S> {
    pub speed: S,
    pub des: Vec<LinearDestination<V, S>>,
    pub is_repeated: bool,
    pub is_freezed: bool,
    pub epsilon: S,
}

/// The speed of a tick: the head waypoint's override where it has one, else
/// the movement's own speed.
pub open spec fn effective_speed_of<V, S>(speed: S, head: LinearDestination<V, S>) -> S {
    match head.custom_velocity {
        Some(v) => v,
        None => speed,
    }
}

impl<V, S: Copy> LinearMovement<V, S> {
    /// Pauses travel; the queue is kept.
    pub fn freeze(&mut self)
        ensures
            final(self).is_freezed,
            final(self).des@ == old(self).des@,
            final(self).is_repeated == old(self).is_repeated,
            final(self).speed == old(self).speed,
            final(self).epsilon == old(self).epsilon,
    {
        self.is_freezed = true;
    }

    /// Resumes travel where it was paused.
    pub fn go(&mut self)
        ensures
            !final(self).is_freezed,
            final(self).des@ == old(self).des@,
            final(self).is_repeated == old(self).is_repeated,
            final(self).speed == old(self).speed,
            final(self).epsilon == old(self).epsilon,
    {
        self.is_freezed = false;
    }

    /// Whether this tick moves the entity: it has a target and is not paused.
    pub fn needs_step(&self) -> (r: bool)
        ensures
            r == (self.des@.len() > 0 && !self.is_freezed),
    {
        self.des.len() > 0 && !self.is_freezed
    }

    /// The speed toward the current target, or `None` with no target.
    pub fn effective_speed(&self) -> (r: Option<S>)
        ensures
            self.des@.len() == 0 ==> r is None,
            self.des@.len() > 0 ==> r == Some(effective_speed_of(self.speed, self.des@[0])),
    {
        if self.des.len() == 0 {
            return None;
        }
        match self.des[0].custom_velocity {
            Some(v) => Some(v),
            None => Some(self.speed),
        }
    }

    /// Ends a tick of travel. `arrived` says whether the position after this
    /// tick's step lies within `epsilon` of the target. With no target, or
    /// while paused, nothing changes and no arrival is reported; otherwise an
    /// arrival is reported exactly when `arrived` holds, and the queue then
    /// advances.
    pub fn finish_step(&mut self, arrived: bool) -> (event: bool)
        ensures
            event == (arrived && old(self).des@.len() > 0 && !old(self).is_freezed),
            event ==> final(self).des@ == advanced(old(self).des@, old(self).is_repeated),
            !event ==> final(self).des@ == old(self).des@,
            final(self).is_repeated == old(self).is_repeated,
            final(self).is_freezed == old(self).is_freezed,
            final(self).speed == old(self).speed,
            final(self).epsilon == old(self).epsilon,
    {
        if self.is_freezed {
            return false;
        }
        advance_if_arrived(&mut self.des, arrived, self.is_repeated)
    }

    /// Sends the entity to `pos`: appended to the route when chaining, else
    /// the route is replaced by that one waypoint.
    pub fn set_target(&mut self, pos: V, is_chain: bool)
        ensures
            final(self).des@ == retargeted(old(self).des@, LinearDestination::<V, S> { pos: pos, custom_velocity: None }, is_chain),
            final(self).is_repeated == old(self).is_repeated,
            final(self).is_freezed == old(self).is_freezed,
            final(self).speed == old(self).speed,
            final(self).epsilon == old(self).epsilon,
    {
        retarget(&mut self.des, LinearDestination::from_pos(pos), is_chain);
    }
}

} // verus!
