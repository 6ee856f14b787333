use vstd::prelude::*;

verus! {

/// What one update step reports back to its caller. At most one event is
/// reported per step.
#[derive(Debug, PartialEq, Eq)]
pub enum GameEvent<E> {
    /// Nothing happened that the caller has to act on.
    NoEvent,
    /// A cooldown timer ran out during this step.
    TimerFire,
    /// The player fired. The field is the new projectile; whoever receives
    /// the event owns it from then on.
    PlayerShoot(E),
}

} // verus!
