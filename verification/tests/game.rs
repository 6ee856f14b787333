use dogfight::game::{DrawStep, Game, Rgb};
use dogfight::game_event::GameEvent;
use dogfight::game_object::Updatable;
use dogfight::input_handler::{InputEvent, InputHandler, Key};
use dogfight::timer_object::TimerObject;

const MS: u64 = 1_000_000;

/// A projectile that counts how long it has flown.
#[derive(Debug, PartialEq)]
struct Shot {
    name: char,
    flown: u64,
    slope: f32,
}

impl Updatable for Shot {
    fn update(&mut self, _: &InputHandler, delta_time: u64) -> GameEvent<Self> {
        self.flown += delta_time;
        GameEvent::NoEvent
    }
}

fn shot(name: char) -> Shot {
    Shot { name, flown: 0, slope: 0.5 }
}

fn running(length: u64) -> TimerObject {
    let mut timer = TimerObject::new(length);
    timer.start_only_if_not_running();
    timer
}

fn firing() -> InputHandler {
    let mut input = InputHandler::new();
    input.consume(&InputEvent::KeyDown { keycode: Some(Key::Space) });
    input
}

#[test]
fn new_world_is_empty_at_frame_zero() {
    let game: Game<Shot> = Game::new();
    assert_eq!(game.frame(), 0);
    assert!(game.entities().is_empty());
    assert!(*game.player().fire_ready());
}

#[test]
fn frame_counter_wraps_after_255() {
    let mut game: Game<Shot> = Game::new();
    let idle = InputHandler::new();
    for _ in 0..255 {
        game.update(&idle, 16 * MS, || shot('x'));
    }
    assert_eq!(game.frame(), 255);
    game.update(&idle, 16 * MS, || shot('x'));
    assert_eq!(game.frame(), 0);
    assert!(game.entities().is_empty());
}

#[test]
fn update_hands_no_event_on() {
    let mut game: Game<Shot> = Game::new();
    assert_eq!(game.update(&firing(), 16 * MS, || shot('a')), GameEvent::NoEvent);
    assert_eq!(game.update(&firing(), 16 * MS, || shot('b')), GameEvent::NoEvent);
    assert_eq!(game.update(&InputHandler::new(), 16 * MS, || shot('c')), GameEvent::NoEvent);
    assert_eq!(game.player().fire_timer().remaining(), Some(168 * MS));
}

#[test]
fn a_shot_joins_the_collection_and_is_moved_in_the_same_frame() {
    let mut game: Game<Shot> = Game::new();
    game.update(&firing(), 16 * MS, || shot('a'));
    assert_eq!(game.entities(), &vec![Shot { name: 'a', flown: 16 * MS, slope: 0.5 }]);
}

#[test]
fn nothing_is_built_without_a_shot() {
    let mut game: Game<Shot> = Game::new();
    let mut built = 0;
    game.update(&InputHandler::new(), 16 * MS, || {
        built += 1;
        shot('a')
    });
    assert_eq!(built, 0);
    game.update(&firing(), 16 * MS, || {
        built += 1;
        shot('a')
    });
    game.update(&firing(), 16 * MS, || {
        built += 1;
        shot('b')
    });
    assert_eq!(built, 1);
    assert_eq!(game.entities().len(), 1);
}

#[test]
fn spawn_ordering_across_a_cooldown() {
    let mut game: Game<Shot> = Game::new();
    let fire = firing();

    game.update(&fire, 16 * MS, || shot('a'));
    game.update(&fire, 250 * MS, || shot('b'));

    assert_eq!(
        game.entities(),
        &vec![
            Shot { name: 'a', flown: 266 * MS, slope: 0.5 },
            Shot { name: 'b', flown: 250 * MS, slope: 0.5 },
        ]
    );

    let steps = game.draw();
    let first = steps.iter().position(|s| *s == DrawStep::Entity(0)).unwrap();
    let second = steps.iter().position(|s| *s == DrawStep::Entity(1)).unwrap();
    let player = steps.iter().position(|s| *s == DrawStep::Player).unwrap();
    assert!(first < second && second < player);
}

#[test]
fn held_fire_spawns_once_per_cooldown() {
    let mut game: Game<Shot> = Game::new();
    let fire = firing();
    for _ in 0..13 {
        game.update(&fire, 16 * MS, || shot('s'));
    }
    assert_eq!(game.entities().len(), 1);
    assert_eq!(game.player().fire_timer().remaining(), Some(8 * MS));
    game.update(&fire, 16 * MS, || shot('t'));
    assert_eq!(game.entities().len(), 2);
    assert_eq!(game.entities()[0], Shot { name: 's', flown: 14 * 16 * MS, slope: 0.5 });
    assert_eq!(game.entities()[1], Shot { name: 't', flown: 16 * MS, slope: 0.5 });
}

#[test]
fn clear_color_ramps_up_and_down() {
    let mut game: Game<Shot> = Game::new();
    let idle = InputHandler::new();
    assert_eq!(game.clear_color(), Rgb { r: 0, g: 64, b: 128 });
    for _ in 0..127 {
        game.update(&idle, MS, || shot('x'));
    }
    assert_eq!(game.clear_color(), Rgb { r: 127, g: 64, b: 1 });
    game.update(&idle, MS, || shot('x'));
    assert_eq!(game.frame(), 128);
    assert_eq!(game.clear_color(), Rgb { r: 127, g: 64, b: 1 });
    for _ in 0..127 {
        game.update(&idle, MS, || shot('x'));
    }
    assert_eq!(game.frame(), 255);
    assert_eq!(game.clear_color(), Rgb { r: 0, g: 64, b: 128 });
}

#[test]
fn draw_pass_of_an_empty_world() {
    let game: Game<Shot> = Game::new();
    assert_eq!(
        game.draw(),
        vec![
            DrawStep::Clear(Rgb { r: 0, g: 64, b: 128 }),
            DrawStep::Background,
            DrawStep::Player,
            DrawStep::Present,
        ]
    );
}

#[test]
fn draw_pass_puts_entities_in_order_before_the_player() {
    let mut game: Game<Shot> = Game::new();
    let fire = firing();
    game.update(&fire, 200 * MS, || shot('a'));
    game.update(&fire, 200 * MS, || shot('b'));
    game.update(&fire, 200 * MS, || shot('c'));
    assert_eq!(
        game.draw(),
        vec![
            DrawStep::Clear(Rgb { r: 3, g: 64, b: 125 }),
            DrawStep::Background,
            DrawStep::Entity(0),
            DrawStep::Entity(1),
            DrawStep::Entity(2),
            DrawStep::Player,
            DrawStep::Present,
        ]
    );
}

#[test]
fn timers_as_entities_count_down_with_the_world() {
    let mut game: Game<TimerObject> = Game::new();
    let fire = firing();
    game.update(&fire, 16 * MS, || running(1000 * MS));
    game.update(&fire, 250 * MS, || running(300 * MS));
    game.update(&InputHandler::new(), 100 * MS, || running(1));
    let left: Vec<Option<u64>> = game.entities().iter().map(|t| t.remaining()).collect();
    assert_eq!(left, vec![Some(634 * MS), None]);
}
