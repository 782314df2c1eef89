//! Physics-driven travel: a rigid body pushed toward the head of its queue by
//! an external force, with a dead band between a minimum and a maximum
//! closing speed. The solver integrates the motion and the host computes the
//! vectors; this module decides, each tick, what becomes of the force and of
//! the queue.

use vstd::prelude::*;
use crate::route::{advance_if_arrived, advanced, retarget, retargeted};

verus! {

/// A waypoint of physics-driven travel.
pub struct PhysicDestination<V> {
    pub pos: V,
}

impl<V> PhysicDestination<V> {
    /// A waypoint at `pos`.
    pub fn from_pos(pos: V) -> (r: Self)
        ensures
            r.pos == pos,
    {
        PhysicDestination { pos }
    }
}

/// Physics-driven travel state of one entity: its queue of waypoints,
/// whether the route repeats (`circle`), the arrival distance, the band of
/// closing speeds in which the force is left alone, and the times in which
/// thrust reaches the top speed and lateral drift is cancelled.
pub struct PhysicMovement<V, S> {
    pub des: Vec<PhysicDestination<V>>,
    pub circle: bool,
    pub epsilon: S,
    pub max_velocity: S,
    pub min_velocity: S,
    pub acceleration_time: S,
    pub break_time: S,
}

/// What becomes of the external force on the body this tick.
#[derive(PartialEq, Eq, Structural, Clone, Copy, Debug)]
pub enum ForceCommand {
    /// The force applied so far stays as it is.
    Keep,
    /// No external force is applied any more: the body coasts.
    Clear,
    /// The force is replaced by the thrust of this tick: forward toward the
    /// target, plus a correction against lateral drift.
    Thrust,
}

/// The outcome of one tick of physics-driven travel.
#[derive(PartialEq, Eq, Structural, Clone, Copy, Debug)]
pub struct PhysicTick {
    /// Whether the body arrived at its target this tick.
    pub arrived: bool,
    pub force: ForceCommand,
}

/// The force command for a body that has a target and did not arrive, given
/// where its closing speed stands: thrust at or under the minimum, coast at or
/// over the maximum, and in between leave the force alone. The minimum is
/// tested first, so a band with its minimum over its maximum thrusts.
pub open spec fn band_command(at_or_below_min: bool, at_or_above_max: bool) -> ForceCommand {
    if at_or_below_min {
        ForceCommand::Thrust
    } else if at_or_above_max {
        ForceCommand::Clear
    } else {
        ForceCommand::Keep
    }
}

impl<V, S> PhysicMovement<V, S> {
    /// Runs the controller for one tick. The host supplies what it measured
    /// against the head waypoint: `arrived` (the distance is within `epsilon`,
    /// or within what the closing speed covers in this tick),
    /// `at_or_below_min` (closing speed at most `min_velocity`) and
    /// `at_or_above_max` (closing speed at least `max_velocity`).
    ///
    /// With no target nothing changes: no arrival and the force kept. On
    /// arrival the force is cleared and the queue advances. Otherwise the
    /// queue is kept and the force follows the speed band.
    pub fn travel(&mut self, arrived: bool, at_or_below_min: bool, at_or_above_max: bool) -> (r: PhysicTick)
        ensures
            old(self).des@.len() == 0 ==> r == (PhysicTick { arrived: false, force: ForceCommand::Keep }),
            r.arrived == (arrived && old(self).des@.len() > 0),
            r.arrived ==> r.force == ForceCommand::Clear,
            r.arrived ==> final(self).des@ == advanced(old(self).des@, old(self).circle),
            !r.arrived ==> final(self).des@ == old(self).des@,
            old(self).des@.len() > 0 && !arrived ==> r.force == band_command(at_or_below_min, at_or_above_max),
            final(self).circle == old(self).circle,
            final(self).epsilon == old(self).epsilon,
            final(self).max_velocity == old(self).max_velocity,
            final(self).min_velocity == old(self).min_velocity,
            final(self).acceleration_time == old(self).acceleration_time,
            final(self).break_time == old(self).break_time,
    {
        if self.des.len() == 0 {
            return PhysicTick { arrived: false, force: ForceCommand::Keep };
        }
        if advance_if_arrived(&mut self.des, arrived, self.circle) {
            return PhysicTick { arrived: true, force: ForceCommand::Clear };
        }
        let force = if at_or_below_min {
            ForceCommand::Thrust
        } else if at_or_above_max {
            ForceCommand::Clear
        } else {
            ForceCommand::Keep
        };
        PhysicTick { arrived: false, force }
    }

    /// Sends the body to `pos`: appended to the route when chaining, else the
    /// route is replaced by that one waypoint.
    pub fn set_target(&mut self, pos: V, is_chain: bool)
        ensures
            final(self).des@ == retargeted(old(self).des@, PhysicDestination::<V> { pos: pos }, is_chain),
            final(self).circle == old(self).circle,
            final(self).epsilon == old(self).epsilon,
            final(self).max_velocity == old(self).max_velocity,
            final(self).min_velocity == old(self).min_velocity,
            final(self).acceleration_time == old(self).acceleration_time,
            final(self).break_time == old(self).break_time,
    {
        retarget(&mut self.des, PhysicDestination::from_pos(pos), is_chain);
    }
}

/// Inside the band of closing speeds strictly between the minimum and the
/// maximum, a body that has a target and does not arrive gets no new force
/// command: the force it had stays.
pub proof fn lemma_dead_band(at_or_below_min: bool, at_or_above_max: bool)
    requires
        !at_or_below_min,
        !at_or_above_max,
    ensures
        band_command(at_or_below_min, at_or_above_max) == ForceCommand::Keep,
{
}

} // verus!
