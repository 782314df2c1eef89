//! The destination queue shared by the motion strategies, and the arrival
//! detector that advances it.

use vstd::prelude::*;

verus! {

/// The queue after the entity reached its head waypoint: the head leaves the
/// front and, on a repeating route, comes back at the end.
pub open spec fn advanced<W>(des: Seq<W>, repeat: bool) -> Seq<W> {
    if des.len() == 0 {
        des
    } else if repeat {
        des.drop_first().push(des[0])
    } else {
        des.drop_first()
    }
}

/// The queue after `k` arrivals in a row.
pub open spec fn advanced_times<W>(des: Seq<W>, repeat: bool, k: nat) -> Seq<W>
    decreases k,
{
    if k == 0 {
        des
    } else {
        advanced(advanced_times(des, repeat, (k - 1) as nat), repeat)
    }
}

/// The queue after a new target was set: appended to the route when chaining,
/// else the only waypoint left.
pub open spec fn retargeted<W>(des: Seq<W>, next: W, is_chain: bool) -> Seq<W> {
    if is_chain {
        des.push(next)
    } else {
        seq![next]
    }
}

/// Runs the arrival detector on a queue. `arrived` says whether the entity
/// reached the queue's head this tick. When it did and the queue is not
/// empty, one arrival is reported and the queue advances; otherwise nothing
/// changes.
pub fn advance_if_arrived<W>(des: &mut Vec<W>, arrived: bool, repeat: bool) -> (event: bool)
    ensures
        event == (arrived && old(des)@.len() > 0),
        event ==> final(des)@ == advanced(old(des)@, repeat),
        !event ==> final(des)@ == old(des)@,
{
    if !arrived || des.len() == 0 {
        return false;
    }
    let head = des.remove(0);
    if repeat {
        des.push(head);
    }
    true
}

/// Sets a new target on a queue: appended when chaining, else the queue is
/// replaced by that one waypoint.
pub fn retarget<W>(des: &mut Vec<W>, next: W, is_chain: bool)
    ensures
        final(des)@ == retargeted(old(des)@, next, is_chain),
{
    if is_chain {
        des.push(next);
    } else {
        *des = vec![next];
    }
}

/// Arrivals at the head of the queue move its waypoints to the back in turn,
/// keeping their order, on a repeating route.
pub proof fn lemma_advanced_times_rotates<W>(des: Seq<W>, k: nat)
    requires
        k <= des.len(),
    ensures
        advanced_times(des, true, k) == des.subrange(k as int, des.len() as int) + des.subrange(0, k as int),
    decreases k,
{
    if k > 0 {
        let km = (k - 1) as nat;
        lemma_advanced_times_rotates(des, km);
        let prev = des.subrange(km as int, des.len() as int) + des.subrange(0, km as int);
        assert(prev.len() == des.len());
        assert(prev[0] == des[km as int]);
        assert(prev.drop_first().push(prev[0]) =~= des.subrange(k as int, des.len() as int) + des.subrange(0, k as int));
    }
}

/// A repeating route comes back to where it started, in the same order, once
/// the entity has arrived at each of its waypoints.
pub proof fn lemma_patrol_returns<W>(des: Seq<W>)
    ensures
        advanced_times(des, true, des.len()) == des,
{
    lemma_advanced_times_rotates(des, des.len());
    assert(des.subrange(des.len() as int, des.len() as int) + des.subrange(0, des.len() as int) =~= des);
}

/// On a route that does not repeat, each arrival removes exactly the waypoint
/// at its head: after `k` arrivals the first `k` waypoints are gone.
pub proof fn lemma_advanced_times_drops<W>(des: Seq<W>, k: nat)
    requires
        k <= des.len(),
    ensures
        advanced_times(des, false, k) == des.subrange(k as int, des.len() as int),
    decreases k,
{
    if k > 0 {
        let km = (k - 1) as nat;
        lemma_advanced_times_drops(des, km);
        assert(des.subrange(km as int, des.len() as int).drop_first() =~= des.subrange(k as int, des.len() as int));
    }
}

} // verus!
