//! When a weapon fires, and which of its timers restart.

use vstd::prelude::*;

verus! {

/// What a weapon does in a frame.
#[derive(PartialEq, Eq, Structural, Clone, Copy, Debug)]
pub enum FireStep {
    /// A timer is still running: nothing happens.
    Wait,
    /// Ready, but there is no owner to fire from or nothing to aim at: the
    /// retry timer restarts so that the search is not repeated every frame.
    Retry,
    /// The weapon fires and its cooldown restarts.
    Fire,
}

/// The step of a weapon whose cooldown and retry timers have (`cooldown_ready`,
/// `retry_ready`) or have not run out, whose owner was found or not, and for
/// which a direction to fire in was found or not.
pub fn request_fire_step(
    cooldown_ready: bool,
    retry_ready: bool,
    owner_found: bool,
    has_direction: bool,
) -> (r: FireStep)
    ensures
        r == (if !cooldown_ready || !retry_ready {
            FireStep::Wait
        } else if !owner_found || !has_direction {
            FireStep::Retry
        } else {
            FireStep::Fire
        }),
{
    if !cooldown_ready || !retry_ready {
        FireStep::Wait
    } else if !owner_found || !has_direction {
        FireStep::Retry
    } else {
        FireStep::Fire
    }
}

} // verus!
