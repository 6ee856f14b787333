use vstd::prelude::*;

use crate::game_event::GameEvent;
use crate::game_object::Updatable;
use crate::input_handler::{Controls, InputHandler};
use crate::timer_object::{advanced, expires, Status, TimerObject};

verus! {

/// Time between two shots, in nanoseconds.
pub const FIRE_COOLDOWN: u64 = 200_000_000;

/// What the engine does to the player's velocity in one step, before the
/// ambient drag that every step applies.
#[derive(Clone, Copy, Debug, PartialEq, Eq, Structural)]
pub enum Thrust {
    /// Accelerate along the heading.
    Forward,
    /// Decay the speed by the braking drag.
    Brake,
    /// Neither.
    Coast,
}

/// The thrust that the held controls ask for. Forward and backward held
/// together cancel each other.
pub open spec fn thrust_of(controls: Controls) -> Thrust {
    if controls.up && !controls.down {
        Thrust::Forward
    } else if controls.down && !controls.up {
        Thrust::Brake
    } else {
        Thrust::Coast
    }
}

/// The turn that the held controls ask for: right adds one, left takes one
/// away, so both together cancel.
pub open spec fn turn_of(controls: Controls) -> int {
    (if controls.right { 1int } else { 0int }) - (if controls.left { 1int } else { 0int })
}

/// Whether a step fires: the fire control is held, and the gun is ready at
/// the start of the step or becomes ready because the cooldown runs out in
/// it.
pub open spec fn fires(ready: bool, cooldown: Status, controls: Controls, delta_time: u64) -> bool {
    controls.shoot && (ready || expires(cooldown, delta_time))
}

/// One shot per cooldown: while the time that remains of the cooldown is
/// longer than the step, the step fires nothing, whatever is held.
pub proof fn lemma_no_shot_during_cooldown(player: Player, controls: Controls, delta_time: u64)
    requires
        player.wf(),
        player.cooldown() matches Status::Running(remaining) && delta_time < remaining,
    ensures
        !player.ready(),
        !fires(player.ready(), player.cooldown(), controls, delta_time),
{
}

/// The player's firing control: the cooldown between two shots and whether
/// the gun is ready.
pub struct Player {
    fire_timer: TimerObject,
    fire_ready: bool,
}

impl Player {
    /// The cooldown timer.
    pub closed spec fn timer(&self) -> TimerObject {
        self.fire_timer
    }

    /// The state of the cooldown timer.
    pub open spec fn cooldown(&self) -> Status {
        self.timer().status()
    }

    /// Whether the gun is ready.
    pub closed spec fn ready(&self) -> bool {
        self.fire_ready
    }

    /// The cooldown timer is well formed and has the length of the fire
    /// cooldown, and the gun is ready exactly while the cooldown is idle.
    pub open spec fn wf(&self) -> bool {
        &&& self.timer().wf()
        &&& self.timer().length() == FIRE_COOLDOWN
        &&& self.ready() <==> self.cooldown() is NotRunning
    }

    /// A player whose gun is ready and whose cooldown is idle.
    pub fn new() -> (player: Self)
        ensures
            player.wf(),
            player.ready(),
            player.cooldown() == Status::NotRunning,
    {
        Self { fire_timer: TimerObject::new(FIRE_COOLDOWN), fire_ready: true }
    }

    /// One step of the firing control. The cooldown advances by
    /// `delta_time` nanoseconds and makes the gun ready when it runs out.
    /// Then, if the fire control is held and the gun is ready, the gun
    /// fires: it is no longer ready, the cooldown starts at its full length,
    /// and the step reports `PlayerShoot` with the projectile that `make`
    /// builds. Otherwise `make` is not called and the step reports nothing.
    pub fn update<E, F: FnOnce() -> E>(
        &mut self,
        input_handler: &InputHandler,
        delta_time: u64,
        make: F,
    ) -> (event: GameEvent<E>)
        requires
            old(self).wf(),
            make.requires(()),
        ensures
            final(self).wf(),
            fires(old(self).ready(), old(self).cooldown(), input_handler@, delta_time) ==> {
                &&& event matches GameEvent::PlayerShoot(projectile)
                &&& make.ensures((), projectile)
            },
            !fires(old(self).ready(), old(self).cooldown(), input_handler@, delta_time) ==> {
                event == GameEvent::<E>::NoEvent
            },
            final(self).cooldown() == if fires(
                old(self).ready(),
                old(self).cooldown(),
                input_handler@,
                delta_time,
            ) {
                Status::Running(FIRE_COOLDOWN)
            } else {
                advanced(old(self).cooldown(), delta_time)
            },
    {
        match self.fire_timer.update(input_handler, delta_time) {
            GameEvent::TimerFire => {
                self.fire_ready = true;
            },
            _ => (),
        };

        if *input_handler.shoot() && self.fire_ready {
            self.fire_ready = false;
            self.fire_timer.start_only_if_not_running();
            GameEvent::PlayerShoot(make())
        } else {
            GameEvent::NoEvent
        }
    }

    /// What this step does to the player's velocity.
    pub fn thrust(input_handler: &InputHandler) -> (thrust: Thrust)
        ensures
            thrust == thrust_of(input_handler@),
    {
        if *input_handler.up() && !*input_handler.down() {
            Thrust::Forward
        } else if *input_handler.down() && !*input_handler.up() {
            Thrust::Brake
        } else {
            Thrust::Coast
        }
    }

    /// Which way this step turns the player: 1 to the right, -1 to the
    /// left, 0 when neither or both are held.
    pub fn turn(input_handler: &InputHandler) -> (sign: i8)
        ensures
            sign == turn_of(input_handler@),
    {
        let right: i8 = if *input_handler.right() { 1 } else { 0 };
        let left: i8 = if *input_handler.left() { 1 } else { 0 };
        right - left
    }

    /// The cooldown timer.
    pub fn fire_timer(&self) -> (timer: &TimerObject)
        ensures
            *timer == self.timer(),
    {
        &self.fire_timer
    }

    /// Whether the gun is ready.
    pub fn fire_ready(&self) -> (ready: &bool)
        ensures
            *ready == self.ready(),
    {
        &self.fire_ready
    }
}

} // verus!
