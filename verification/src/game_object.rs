use vstd::prelude::*;

use crate::game_event::GameEvent;
use crate::input_handler::{Controls, InputHandler};

verus! {

/// Anything that the world moves on once per frame.
pub trait Updatable: Sized {
    /// Whether `after` is what one step of `delta_time` nanoseconds makes of
    /// `before` while `controls` are held. A type that says nothing of its
    /// steps leaves this as it is: every outcome counts as a step.
    open spec fn stepped(before: Self, after: Self, controls: Controls, delta_time: u64) -> bool {
        true
    }

    /// Moves the value on by `delta_time` nanoseconds and reports what
    /// happened on the way.
    fn update(&mut self, input_handler: &InputHandler, delta_time: u64) -> (event: GameEvent<Self>)
        ensures
            Self::stepped(*old(self), *final(self), input_handler@, delta_time),
    ;
}

} // verus!
