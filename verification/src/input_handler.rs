use vstd::prelude::*;

verus! {

/// A key of the keyboard, as far as the controls tell keys apart.
#[derive(Clone, Copy, Debug, PartialEq, Eq, Structural)]
pub enum Key {
    /// Move forward.
    W,
    /// Brake.
    S,
    /// Turn left.
    A,
    /// Turn right.
    D,
    /// Fire.
    Space,
    /// Any key that no control is bound to.
    Other,
}

/// One event of the windowing system, reduced to what the controls read.
#[derive(Clone, Copy, Debug, PartialEq, Eq, Structural)]
pub enum InputEvent {
    /// The user asked to leave the game.
    Quit,
    /// A key went down. The key code is absent where the system reports none.
    KeyDown { keycode: Option<Key> },
    /// A key went up. The key code is absent where the system reports none.
    KeyUp { keycode: Option<Key> },
    /// Any other event.
    Other,
}

/// The five control intents, each held or not.
#[derive(Clone, Copy, Debug, PartialEq, Eq, Structural)]
pub struct Controls {
    pub up: bool,
    pub down: bool,
    pub left: bool,
    pub right: bool,
    pub shoot: bool,
}

impl Controls {
    /// No control is held.
    pub open spec fn released() -> Controls {
        Controls { up: false, down: false, left: false, right: false, shoot: false }
    }

    /// The controls after `key` was set to `held`; a key that is bound to no
    /// control changes nothing.
    pub open spec fn with_key(self, key: Key, held: bool) -> Controls {
        match key {
            Key::W => Controls { up: held, ..self },
            Key::S => Controls { down: held, ..self },
            Key::A => Controls { left: held, ..self },
            Key::D => Controls { right: held, ..self },
            Key::Space => Controls { shoot: held, ..self },
            Key::Other => self,
        }
    }

    /// The controls after `event`.
    pub open spec fn after(self, event: InputEvent) -> Controls {
        match event {
            InputEvent::KeyDown { keycode: Some(key) } => self.with_key(key, true),
            InputEvent::KeyUp { keycode: Some(key) } => self.with_key(key, false),
            _ => self,
        }
    }
}

/// Snapshot of the control intents that are held at this moment.
pub struct InputHandler {
    up: bool,
    down: bool,
    left: bool,
    right: bool,
    shoot: bool,
}

impl View for InputHandler {
    type V = Controls;

    closed spec fn view(&self) -> Controls {
        Controls {
            up: self.up,
            down: self.down,
            left: self.left,
            right: self.right,
            shoot: self.shoot,
        }
    }
}

impl InputHandler {
    /// A snapshot in which nothing is held.
    pub fn new() -> (handler: Self)
        ensures
            handler@ == Controls::released(),
    {
        Self { up: false, down: false, left: false, right: false, shoot: false }
    }

    /// Takes one event in. Returns `false` exactly for a quit request, which
    /// tells the caller to leave its loop; every other event returns `true`.
    /// A key press or release of a bound key sets or clears its intent.
    pub fn consume(&mut self, event: &InputEvent) -> (keep_running: bool)
        ensures
            keep_running == !(*event is Quit),
            final(self)@ == old(self)@.after(*event),
    {
        match event {
            InputEvent::Quit => false,
            InputEvent::KeyDown { keycode: Some(key_code) } => {
                self.set_key(*key_code, true);
                true
            },
            InputEvent::KeyUp { keycode: Some(key_code) } => {
                self.set_key(*key_code, false);
                true
            },
            _ => true,
        }
    }

    fn set_key(&mut self, key: Key, held: bool)
        ensures
            final(self)@ == old(self)@.with_key(key, held),
    {
        match key {
            Key::W => self.up = held,
            Key::S => self.down = held,
            Key::A => self.left = held,
            Key::D => self.right = held,
            Key::Space => self.shoot = held,
            Key::Other => (),
        }
    }

    /// Whether "move forward" is held.
    pub fn up(&self) -> (held: &bool)
        ensures
            *held == self@.up,
    {
        &self.up
    }

    /// Whether "move backward" is held.
    pub fn down(&self) -> (held: &bool)
        ensures
            *held == self@.down,
    {
        &self.down
    }

    /// Whether "turn left" is held.
    pub fn left(&self) -> (held: &bool)
        ensures
            *held == self@.left,
    {
        &self.left
    }

    /// Whether "turn right" is held.
    pub fn right(&self) -> (held: &bool)
        ensures
            *held == self@.right,
    {
        &self.right
    }

    /// Whether "fire" is held.
    pub fn shoot(&self) -> (held: &bool)
        ensures
            *held == self@.shoot,
    {
        &self.shoot
    }
}

} // verus!
