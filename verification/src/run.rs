//! Runs: what holds of every sequence of calls that a host makes on one player,
//! whatever arithmetic it supplies.

use vstd::prelude::*;
use crate::effect::{Effect, SPEED_INCREASED};
use crate::player::Player;

verus! {

/// A call of one of the two hooks of a living player.
pub enum Call {
    /// `Player::physics_process` with this `delta`.
    PhysicsProcess { delta: u64 },
    /// `Player::increase_speed` with this `amount`.
    IncreaseSpeed { amount: u64 },
}

/// One call as it went: the player before and after, and the effect handed back.
pub struct Step {
    pub before: Player,
    pub call: Call,
    pub after: Player,
    pub effect: Effect,
}

impl Step {
    /// What the hook that was called promises of this step without looking at
    /// the numbers: a physics step leaves the player alone and asks for a
    /// rotation; a raise keeps the angular speed and emits the signal.
    pub open spec fn lawful(self) -> bool {
        match self.call {
            Call::PhysicsProcess { .. } => self.after == self.before && self.effect is Rotate,
            Call::IncreaseSpeed { .. } => {
                &&& self.after.angular_speed == self.before.angular_speed
                &&& self.effect.emits(SPEED_INCREASED@)
            },
        }
    }
}

/// `steps` is a run from `start`: every step is lawful, the first begins at
/// `start`, and each later one begins where the one before it ended.
pub open spec fn is_run(start: Player, steps: Seq<Step>) -> bool {
    &&& forall|i: int| 0 <= i < steps.len() ==> (#[trigger] steps[i]).lawful()
    &&& steps.len() > 0 ==> steps[0].before == start
    &&& forall|i: int| 0 < i < steps.len() ==> (#[trigger] steps[i]).before == steps[i - 1].after
}

/// The player at the end of a run from `start`.
pub open spec fn last_state(start: Player, steps: Seq<Step>) -> Player {
    if steps.len() == 0 {
        start
    } else {
        steps.last().after
    }
}

/// How many steps handed back the signal of a raised speed.
pub open spec fn signals(steps: Seq<Step>) -> nat
    decreases steps.len(),
{
    if steps.len() == 0 {
        0
    } else {
        let heard: nat = if steps.last().effect.emits(SPEED_INCREASED@) { 1 } else { 0 };
        signals(steps.drop_last()) + heard
    }
}

/// How many steps were calls of `increase_speed`.
pub open spec fn raises(steps: Seq<Step>) -> nat
    decreases steps.len(),
{
    if steps.len() == 0 {
        0
    } else {
        let raised: nat = if steps.last().call is IncreaseSpeed { 1 } else { 0 };
        raises(steps.drop_last()) + raised
    }
}

/// In every run the signal of a raised speed is emitted once for each call of
/// `increase_speed`, and by nothing else.
pub proof fn one_signal_for_each_raise(start: Player, steps: Seq<Step>)
    requires
        is_run(start, steps),
    ensures
        signals(steps) == raises(steps),
    decreases steps.len(),
{
    if steps.len() > 0 {
        let earlier = steps.drop_last();
        assert(is_run(start, earlier));
        one_signal_for_each_raise(start, earlier);
        assert(steps.last().lawful());
    }
}

/// No run changes the angular speed: every step of it begins and ends with the
/// one that the run started with, so every physics step turns at the same rate.
pub proof fn angular_speed_is_constant(start: Player, steps: Seq<Step>)
    requires
        is_run(start, steps),
    ensures
        last_state(start, steps).angular_speed == start.angular_speed,
        forall|i: int| 0 <= i < steps.len() ==> {
            &&& (#[trigger] steps[i]).before.angular_speed == start.angular_speed
            &&& steps[i].after.angular_speed == start.angular_speed
        },
    decreases steps.len(),
{
    if steps.len() > 0 {
        let earlier = steps.drop_last();
        assert(is_run(start, earlier));
        angular_speed_is_constant(start, earlier);
        let last = steps.len() - 1;
        assert(steps[last].lawful());
        if last > 0 {
            assert(steps[last].before == steps[last - 1].after);
            assert(earlier[last - 1] == steps[last - 1]);
        }
        assert forall|i: int| 0 <= i < steps.len() implies {
            &&& (#[trigger] steps[i]).before.angular_speed == start.angular_speed
            &&& steps[i].after.angular_speed == start.angular_speed
        } by {
            if i < last {
                assert(earlier[i] == steps[i]);
            }
        }
    }
}

} // verus!
