//! Pointer-driven targets: a click resolved against catcher planes becomes a
//! new waypoint for every entity that follows the pointer.

use vstd::prelude::*;
use crate::linear::{LinearDestination, LinearMovement};
use crate::physic::{PhysicDestination, PhysicMovement};
use crate::route::retargeted;

verus! {

/// Marks a plane that turns a pointer position into a world point.
pub struct ClickCatcher;

/// Marks an entity that follows the pointer. With `is_chain` a click appends
/// a waypoint to its route; without, the click replaces the route.
pub struct MovementObject {
    pub is_chain: bool,
}

/// Whether the catcher at `i` is the first, in registration order, that the
/// pointer ray hits.
pub open spec fn is_first_hit<P>(hits: Seq<Option<P>>, i: int) -> bool {
    &&& 0 <= i < hits.len()
    &&& hits[i] is Some
    &&& forall|j: int| 0 <= j < i ==> hits[j] is None
}

/// Picks the catcher whose hit resolves a click: `hits` holds, for each
/// catcher in registration order, where the pointer ray meets its plane, if
/// it does. The first hit wins; `None` when the ray meets none of them.
pub fn first_hit<P>(hits: &Vec<Option<P>>) -> (r: Option<usize>)
    ensures
        r matches Some(i) ==> is_first_hit(hits@, i as int),
        r is None ==> forall|j: int| 0 <= j < hits@.len() ==> hits@[j] is None,
{
    let mut i: usize = 0;
    while i < hits.len()
        invariant
            i <= hits@.len(),
            forall|j: int| 0 <= j < i ==> hits@[j] is None,
        decreases hits@.len() - i,
    {
        if hits[i].is_some() {
            return Some(i);
        }
        i += 1;
    }
    None
}

impl MovementObject {
    /// Sends a kinematic mover to the clicked point, chaining or replacing as
    /// this marker says.
    pub fn apply_linear<V, S: Copy>(&self, movement: &mut LinearMovement<V, S>, point: V)
        ensures
            final(movement).des@ == retargeted(old(movement).des@, LinearDestination::<V, S> { pos: point, custom_velocity: None }, self.is_chain),
            final(movement).is_repeated == old(movement).is_repeated,
            final(movement).is_freezed == old(movement).is_freezed,
            final(movement).speed == old(movement).speed,
            final(movement).epsilon == old(movement).epsilon,
    {
        movement.set_target(point, self.is_chain);
    }

    /// Sends a physics-driven body to the clicked point, chaining or replacing
    /// as this marker says.
    pub fn apply_physic<V, S>(&self, movement: &mut PhysicMovement<V, S>, point: V)
        ensures
            final(movement).des@ == retargeted(old(movement).des@, PhysicDestination::<V> { pos: point }, self.is_chain),
            final(movement).circle == old(movement).circle,
            final(movement).epsilon == old(movement).epsilon,
            final(movement).max_velocity == old(movement).max_velocity,
            final(movement).min_velocity == old(movement).min_velocity,
            final(movement).acceleration_time == old(movement).acceleration_time,
            final(movement).break_time == old(movement).break_time,
    {
        movement.set_target(point, self.is_chain);
    }
}

} // verus!
