use vstd::prelude::*;

use crate::game_event::GameEvent;
use crate::game_object::Updatable;
use crate::input_handler::{Controls, InputHandler};

verus! {

/// Whether a cooldown is counting down, and how much of it is left.
#[derive(Clone, Copy, Debug, PartialEq, Eq, Structural)]
pub enum Status {
    /// The timer is idle.
    NotRunning,
    /// The timer counts down; the field is the time that remains, in
    /// nanoseconds.
    Running(u64),
}

/// The state that follows `status` when a timer of the given `length` is
/// asked to start: an idle timer starts with its full length, a running one
/// is left alone.
pub open spec fn started(length: u64, status: Status) -> Status {
    match status {
        Status::NotRunning => Status::Running(length),
        Status::Running(remaining) => Status::Running(remaining),
    }
}

/// Whether a step of `delta_time` uses up what remains in `status`.
pub open spec fn expires(status: Status, delta_time: u64) -> bool {
    status matches Status::Running(remaining) && remaining <= delta_time
}

/// The state that follows `status` after `delta_time` has passed.
pub open spec fn advanced(status: Status, delta_time: u64) -> Status {
    match status {
        Status::Running(remaining) if remaining > delta_time => Status::Running(
            (remaining - delta_time) as u64,
        ),
        _ => Status::NotRunning,
    }
}

/// The event that a step of `delta_time` reports from `status`.
pub open spec fn reported(status: Status, delta_time: u64) -> GameEvent<TimerObject> {
    if expires(status, delta_time) {
        GameEvent::TimerFire
    } else {
        GameEvent::NoEvent
    }
}

/// An idle timer stays idle and reports nothing, however much time passes.
pub proof fn lemma_idle_stays_idle(delta_time: u64)
    ensures
        advanced(Status::NotRunning, delta_time) == Status::NotRunning,
        reported(Status::NotRunning, delta_time) == GameEvent::<TimerObject>::NoEvent,
{
}

/// A cooldown fires once: the step in which it runs out leaves the timer
/// idle, and the step after it reports nothing.
pub proof fn lemma_fires_once(status: Status, delta_time: u64, next_delta_time: u64)
    requires
        expires(status, delta_time),
    ensures
        reported(status, delta_time) == GameEvent::<TimerObject>::TimerFire,
        advanced(status, delta_time) == Status::NotRunning,
        reported(advanced(status, delta_time), next_delta_time)
            == GameEvent::<TimerObject>::NoEvent,
{
}

/// Asking a running timer to start changes nothing, so asking twice is the
/// same as asking once.
pub proof fn lemma_start_idempotent(length: u64, status: Status)
    ensures
        status is Running ==> started(length, status) == status,
        started(length, started(length, status)) == started(length, status),
{
}

/// Two steps leave the timer in the state that one step of their sum does.
pub proof fn lemma_advance_splits(status: Status, first: u64, second: u64)
    requires
        first + second <= u64::MAX,
    ensures
        advanced(advanced(status, first), second) == advanced(status, (first + second) as u64),
{
}

/// A one-shot countdown. It fires once when the time that remains reaches
/// zero and is idle from then on, until it is started again.
#[derive(Clone, Copy, Debug, PartialEq, Eq, Structural)]
pub struct TimerObject {
    length: u64,
    status: Status,
}

impl TimerObject {
    /// The full length of the cooldown, in nanoseconds.
    pub closed spec fn length(&self) -> u64 {
        self.length
    }

    /// The current state.
    pub closed spec fn status(&self) -> Status {
        self.status
    }

    /// A running timer has a positive time left, and never more than its
    /// length.
    pub open spec fn wf(&self) -> bool {
        &&& self.length() > 0
        &&& self.status() matches Status::Running(remaining) ==> 0 < remaining <= self.length()
    }

    /// An idle timer with a cooldown of `length` nanoseconds.
    pub fn new(length: u64) -> (timer: Self)
        requires
            length > 0,
        ensures
            timer.wf(),
            timer.length() == length,
            timer.status() == Status::NotRunning,
    {
        Self { length, status: Status::NotRunning }
    }

    /// Starts the countdown at the full length, unless it is running
    /// already: a cooldown cannot be restarted early.
    pub fn start_only_if_not_running(&mut self)
        requires
            old(self).wf(),
        ensures
            final(self).wf(),
            final(self).length() == old(self).length(),
            final(self).status() == started(old(self).length(), old(self).status()),
    {
        match self.status {
            Status::NotRunning => {
                self.status = Status::Running(self.length);
            },
            _ => (),
        };
    }

    /// The time that remains, in nanoseconds, or `None` when the timer is
    /// idle.
    pub fn remaining(&self) -> (left: Option<u64>)
        ensures
            left == match self.status() {
                Status::NotRunning => None::<u64>,
                Status::Running(remaining) => Some(remaining),
            },
    {
        match self.status {
            Status::NotRunning => None,
            Status::Running(left) => Some(left),
        }
    }

    /// Whether the countdown is under way.
    pub fn is_running(&self) -> (running: bool)
        ensures
            running == (self.status() is Running),
    {
        match self.status {
            Status::NotRunning => false,
            Status::Running(_) => true,
        }
    }
}

impl Updatable for TimerObject {
    /// A step keeps the length and advances the countdown.
    open spec fn stepped(before: Self, after: Self, controls: Controls, delta_time: u64) -> bool {
        &&& after.length() == before.length()
        &&& after.status() == advanced(before.status(), delta_time)
    }

    /// Lets `delta_time` nanoseconds pass, whatever is held. An idle timer
    /// stays idle and reports nothing. A running one reports `TimerFire` and
    /// becomes idle when nothing remains; otherwise it keeps running with
    /// what is left.
    fn update(&mut self, input_handler: &InputHandler, delta_time: u64) -> (event: GameEvent<Self>)
        ensures
            old(self).wf() ==> final(self).wf(),
            final(self).length() == old(self).length(),
            final(self).status() == advanced(old(self).status(), delta_time),
            event == reported(old(self).status(), delta_time),
    {
        match self.status {
            Status::NotRunning => GameEvent::NoEvent,
            Status::Running(left) => {
                if left <= delta_time {
                    self.status = Status::NotRunning;
                    GameEvent::TimerFire
                } else {
                    self.status = Status::Running(left - delta_time);
                    GameEvent::NoEvent
                }
            },
        }
    }
}

} // verus!
