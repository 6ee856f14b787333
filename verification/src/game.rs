use vstd::prelude::*;

use crate::game_event::GameEvent;
use crate::game_object::Updatable;
use crate::input_handler::InputHandler;
use crate::player::{fires, Player, FIRE_COOLDOWN};
use crate::timer_object::{advanced, Status};

verus! {

/// A colour of the render target.
#[derive(Clone, Copy, Debug, PartialEq, Eq, Structural)]
pub struct Rgb {
    pub r: u8,
    pub g: u8,
    pub b: u8,
}

/// One step of a draw pass.
#[derive(Clone, Copy, Debug, PartialEq, Eq, Structural)]
pub enum DrawStep {
    /// Clear the render target to a colour.
    Clear(Rgb),
    /// Draw the background over the whole target.
    Background,
    /// Draw the spawned entity at this place of the collection.
    Entity(usize),
    /// Draw the player.
    Player,
    /// Show what was drawn.
    Present,
}

/// The frame counter after one more frame; it starts over after 255.
pub open spec fn next_frame(frame: u8) -> u8 {
    if frame == 255 {
        0
    } else {
        (frame + 1) as u8
    }
}

/// How far `frame` is into its half of the colour cycle: the counter itself
/// on the way up, its distance from 255 on the way down.
pub open spec fn ramp(frame: u8) -> u8 {
    if frame < 128 {
        frame
    } else {
        (255 - frame) as u8
    }
}

/// The colour that the render target is cleared to in `frame`.
pub open spec fn tint(frame: u8) -> Rgb {
    Rgb { r: ramp(frame), g: 64, b: (128 - ramp(frame)) as u8 }
}

/// The draw pass of a world with `count` spawned entities in `frame`:
/// clear, background, every entity in the order of the collection, the
/// player, present.
pub open spec fn draw_order(frame: u8, count: nat) -> Seq<DrawStep> {
    seq![DrawStep::Clear(tint(frame)), DrawStep::Background] + Seq::new(
        count,
        |i: int| DrawStep::Entity(i as usize),
    ) + seq![DrawStep::Player, DrawStep::Present]
}

/// In a draw pass the entities come in the order of the collection, each
/// before the player, and the player before the present.
pub proof fn lemma_player_drawn_last(frame: u8, count: nat)
    ensures
        draw_order(frame, count).len() == count + 4,
        draw_order(frame, count)[0] == DrawStep::Clear(tint(frame)),
        draw_order(frame, count)[1] == DrawStep::Background,
        forall|i: int|
            0 <= i < count ==> #[trigger] draw_order(frame, count)[i + 2] == DrawStep::Entity(
                i as usize,
            ),
        draw_order(frame, count)[count as int + 2] == DrawStep::Player,
        draw_order(frame, count)[count as int + 3] == DrawStep::Present,
{
}

/// The world: the player and the entities that were spawned, oldest first.
/// Entities are only ever added, at the end.
pub struct Game<E> {
    frame: u8,
    player: Player,
    entities: Vec<E>,
}

impl<E: Updatable> Game<E> {
    /// The number of frames so far, modulo 256.
    pub closed spec fn frame_count(&self) -> u8 {
        self.frame
    }

    /// The player.
    pub closed spec fn pilot(&self) -> Player {
        self.player
    }

    /// The spawned entities, oldest first.
    pub closed spec fn spawned(&self) -> Seq<E> {
        self.entities@
    }

    /// The player's firing control is well formed.
    pub open spec fn wf(&self) -> bool {
        self.pilot().wf()
    }

    /// A world at frame 0 with a fresh player and no entities.
    pub fn new() -> (game: Self)
        ensures
            game.wf(),
            game.frame_count() == 0,
            game.pilot().ready(),
            game.pilot().cooldown() == Status::NotRunning,
            game.spawned() == Seq::<E>::empty(),
    {
        Self { frame: 0, player: Player::new(), entities: Vec::new() }
    }

    /// The number of frames so far, modulo 256.
    pub fn frame(&self) -> (frame: u8)
        ensures
            frame == self.frame_count(),
    {
        self.frame
    }

    /// One frame. The frame counter moves on and the player's firing
    /// control takes its step. If the player fires, the world takes the
    /// projectile that `make` builds and puts it behind all the others.
    /// Then every entity, the new one included, is moved on by
    /// `delta_time` nanoseconds, oldest first. No entity leaves the
    /// collection or changes its place, and no event is handed on.
    pub fn update<F: FnOnce() -> E>(
        &mut self,
        input_handler: &InputHandler,
        delta_time: u64,
        make: F,
    ) -> (event: GameEvent<E>)
        requires
            old(self).wf(),
            make.requires(()),
        ensures
            final(self).wf(),
            final(self).frame_count() == next_frame(old(self).frame_count()),
            event == GameEvent::<E>::NoEvent,
            final(self).pilot().cooldown() == if fires(
                old(self).pilot().ready(),
                old(self).pilot().cooldown(),
                input_handler@,
                delta_time,
            ) {
                Status::Running(FIRE_COOLDOWN)
            } else {
                advanced(old(self).pilot().cooldown(), delta_time)
            },
            forall|k: int|
                0 <= k < old(self).spawned().len() ==> E::stepped(
                    old(self).spawned()[k],
                    #[trigger] final(self).spawned()[k],
                    input_handler@,
                    delta_time,
                ),
            !fires(
                old(self).pilot().ready(),
                old(self).pilot().cooldown(),
                input_handler@,
                delta_time,
            ) ==> final(self).spawned().len() == old(self).spawned().len(),
            fires(
                old(self).pilot().ready(),
                old(self).pilot().cooldown(),
                input_handler@,
                delta_time,
            ) ==> final(self).spawned().len() == old(self).spawned().len() + 1 && exists|born: E|
                make.ensures((), born) && E::stepped(
                    born,
                    final(self).spawned().last(),
                    input_handler@,
                    delta_time,
                ),
    {
        self.frame = self.frame.wrapping_add(1);
        match self.player.update(input_handler, delta_time, make) {
            GameEvent::PlayerShoot(projectile) => self.entities.push(projectile),
            _ => (),
        }
        let ghost pilot: Player = self.player;
        let ghost taken: Seq<E> = self.entities@;
        let count: usize = self.entities.len();
        let mut i: usize = 0;
        while i < count
            invariant
                i <= count,
                count == taken.len(),
                self.entities@.len() == taken.len(),
                self.frame == next_frame(old(self).frame),
                self.player == pilot,
                forall|k: int|
                    0 <= k < i ==> E::stepped(
                        taken[k],
                        #[trigger] self.entities@[k],
                        input_handler@,
                        delta_time,
                    ),
                forall|k: int| i <= k < count ==> self.entities@[k] == taken[k],
            decreases count - i,
        {
            self.entities[i].update(input_handler, delta_time);
            i += 1;
        }
        proof {
            if fires(
                old(self).pilot().ready(),
                old(self).pilot().cooldown(),
                input_handler@,
                delta_time,
            ) {
                assert(make.ensures((), taken.last()));
                assert(E::stepped(
                    taken.last(),
                    self.entities@.last(),
                    input_handler@,
                    delta_time,
                ));
            }
        }
        GameEvent::NoEvent
    }

    /// The spawned entities, oldest first.
    pub fn entities(&self) -> (entities: &Vec<E>)
        ensures
            entities@ == self.spawned(),
    {
        &self.entities
    }

    /// The player.
    pub fn player(&self) -> (player: &Player)
        ensures
            *player == self.pilot(),
    {
        &self.player
    }

    /// The colour that the render target is cleared to in this frame.
    pub fn clear_color(&self) -> (color: Rgb)
        ensures
            color == tint(self.frame_count()),
    {
        let i: u8 = self.frame;
        let level: u8 = if i < 128 { i } else { 255 - i };
        Rgb { r: level, g: 64, b: 128 - level }
    }

    /// The draw pass of this frame, step by step: clear, background, every
    /// spawned entity in the order of the collection, then the player on
    /// top, then present.
    pub fn draw(&self) -> (steps: Vec<DrawStep>)
        ensures
            steps@ == draw_order(self.frame_count(), self.spawned().len()),
    {
        let mut steps: Vec<DrawStep> = Vec::new();
        steps.push(DrawStep::Clear(self.clear_color()));
        steps.push(DrawStep::Background);
        let count: usize = self.entities.len();
        let mut i: usize = 0;
        while i < count
            invariant
                i <= count,
                count == self.spawned().len(),
                steps@ == seq![DrawStep::Clear(tint(self.frame_count())), DrawStep::Background]
                    + Seq::new(i as nat, |k: int| DrawStep::Entity(k as usize)),
            decreases count - i,
        {
            steps.push(DrawStep::Entity(i));
            i += 1;
        }
        steps.push(DrawStep::Player);
        steps.push(DrawStep::Present);
        steps
    }
}

} // verus!
