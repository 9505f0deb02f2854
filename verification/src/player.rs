//! The player and the three hooks through which the host drives it.

use vstd::prelude::*;
use crate::effect::{Effect, GREETING, SPEED_INCREASED};
use crate::run::{Call, Step};
use crate::scalar::{initial_speeds_are_finite, is_finite, INITIAL_ANGULAR_SPEED, INITIAL_SPEED};

verus! {

/// The state of one player. Both speeds are binary64 bit patterns.
#[derive(Clone, Copy, Debug, PartialEq, Eq)]
pub struct Player {
    /// Linear speed, in units per second. No hook reads it but
    /// `increase_speed`.
    pub speed: u64,
    /// Angular speed, in radians per second.
    pub angular_speed: u64,
}

impl Player {
    /// Both speeds are finite numbers.
    pub open spec fn wf(self) -> bool {
        is_finite(self.speed) && is_finite(self.angular_speed)
    }

    /// A new player: the two starting speeds, and the greeting for the console.
    pub fn init() -> (made: (Player, Effect))
        ensures
            made.0.speed == INITIAL_SPEED,
            made.0.angular_speed == INITIAL_ANGULAR_SPEED,
            made.0.wf(),
            made.1.prints(GREETING@),
    {
        proof {
            initial_speeds_are_finite();
        }
        (Player { speed: INITIAL_SPEED, angular_speed: INITIAL_ANGULAR_SPEED }, Effect::Print(GREETING))
    }

    /// One physics step of `delta` seconds (a binary64 pattern). The angle to
    /// turn by is what `narrowed_product` gives for the angular speed and
    /// `delta`, in this order; the player itself does not change.
    pub fn physics_process<F>(&self, delta: u64, narrowed_product: F) -> (effect: Effect)
        where F: FnOnce(u64, u64) -> u32
        requires
            narrowed_product.requires((self.angular_speed, delta)),
        ensures
            effect matches Effect::Rotate(angle)
                && narrowed_product.ensures((self.angular_speed, delta), angle),
            (Step {
                before: *self,
                call: Call::PhysicsProcess { delta },
                after: *self,
                effect,
            }).lawful(),
    {
        Effect::Rotate(narrowed_product(self.angular_speed, delta))
    }

    /// Raises the linear speed by `amount` (a binary64 pattern, of either
    /// sign and any size): the new speed is what `sum` gives for the old speed
    /// and `amount`, in this order. The angular speed stays. The effect handed
    /// back announces the change, which has been made by then, with one
    /// signal. The new speed is finite only if `sum` gave a finite number.
    pub fn increase_speed<F>(&mut self, amount: u64, sum: F) -> (effect: Effect)
        where F: FnOnce(u64, u64) -> u64
        requires
            sum.requires((old(self).speed, amount)),
        ensures
            sum.ensures((old(self).speed, amount), final(self).speed),
            final(self).angular_speed == old(self).angular_speed,
            old(self).wf() && is_finite(final(self).speed) ==> final(self).wf(),
            effect.emits(SPEED_INCREASED@),
            (Step {
                before: *old(self),
                call: Call::IncreaseSpeed { amount },
                after: *final(self),
                effect,
            }).lawful(),
    {
        self.speed = sum(self.speed, amount);
        Effect::Emit(SPEED_INCREASED)
    }
}

} // verus!
