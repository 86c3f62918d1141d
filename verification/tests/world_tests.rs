use walk_the_dog::boy::RedHatBoy;
use walk_the_dog::geometry::{Point, Rect};
use walk_the_dog::lifecycle::{GameError, WalkTheDog};
use walk_the_dog::obstacle::{Barrier, Image, Obstacle, Platform};
use walk_the_dog::sheet::{frame_name_string, Cell, Sheet, SheetFrame};
use walk_the_dog::state_machine::{RedHatBoyContext, RedHatBoyStateMachine};
use walk_the_dog::world::{KeyState, Walk};

fn boy_cell() -> Cell {
    Cell {
        frame: Rect::new_from_x_y(5, 7, 100, 60),
        sprite_source_size: Point { x: 2, y: 3 },
    }
}

fn full_sheet() -> Sheet {
    let tags: [(&str, u8); 5] = [("Idle", 29), ("Run", 23), ("Slide", 14), ("Jump", 35), ("Dead", 29)];
    let mut frames: Vec<SheetFrame> = Vec::new();
    for (tag, limit) in tags {
        let mut f: u8 = 0;
        while f <= limit {
            frames.push(SheetFrame { name: frame_name_string(tag, f), cell: boy_cell() });
            f += 3;
        }
    }
    Sheet::from_frames(frames).unwrap()
}

fn running_boy(x: i16, y: i16) -> RedHatBoy {
    RedHatBoy {
        state_machine: RedHatBoyStateMachine::Running(RedHatBoyContext {
            frame: 0,
            position: Point { x, y },
            velocity: Point { x: 4, y: 0 },
        }),
        sprite_sheet: full_sheet(),
    }
}

fn no_keys() -> KeyState {
    KeyState { down: false, up: false, left: false, right: false, space: false }
}

fn walk_with(obstacles: Vec<Obstacle>) -> Walk {
    Walk::new(
        running_boy(100, 479),
        Image::new(Point { x: 0, y: 0 }, 600, 600),
        Image::new(Point { x: 600, y: 0 }, 600, 600),
        obstacles,
        full_sheet(),
    )
}

#[test]
fn scroll_velocity_opposes_the_run() {
    let walk = walk_with(Vec::new());
    assert_eq!(walk.velocity(), -4);
}

#[test]
fn idle_boy_gives_zero_scroll() {
    let mut walk = walk_with(Vec::new());
    walk.boy = RedHatBoy::new(full_sheet());
    assert_eq!(walk.velocity(), 0);
}

#[test]
fn tick_scrolls_world_while_character_advances() {
    let mut walk = walk_with(Vec::new());
    assert!(walk.ready());
    walk.update(&no_keys());
    let c = walk.boy.state_machine.context();
    assert_eq!(c.position.x, 104);
    assert_eq!(walk.first_background.bounding_box(), Rect::new_from_x_y(-4, 0, 600, 600));
    assert_eq!(walk.second_background.bounding_box(), Rect::new_from_x_y(596, 0, 600, 600));
}

#[test]
fn tick_applies_pressed_keys() {
    let mut walk = walk_with(Vec::new());
    let keys = KeyState { down: false, up: false, left: false, right: false, space: true };
    walk.update(&keys);
    assert!(matches!(walk.boy.state_machine, RedHatBoyStateMachine::Jumping(_)));

    let mut walk2 = walk_with(Vec::new());
    let slide = KeyState { down: true, up: false, left: false, right: false, space: false };
    walk2.update(&slide);
    assert!(matches!(walk2.boy.state_machine, RedHatBoyStateMachine::Sliding(_)));
}

#[test]
fn backgrounds_retile_without_gap() {
    // Two tiling backgrounds of width 600: once the first one's right edge
    // crosses 0, its x is reset to exactly the second one's right edge.
    let mut walk = walk_with(Vec::new());
    let keys = no_keys();
    for _ in 0..150 {
        assert!(walk.ready());
        walk.update(&keys);
    }
    // after 150 ticks of scroll -4 the first background sits at exactly -600
    assert_eq!(walk.first_background.bounding_box().x(), -600);
    assert_eq!(walk.first_background.right(), 0);
    walk.update(&keys);
    // right edge passed 0 this tick: relocated to the second's right edge
    assert_eq!(walk.second_background.right(), 596);
    assert_eq!(walk.first_background.bounding_box().x(), 596);
    // and from here on the two always abut: no gap, no overlap
    for _ in 0..200 {
        walk.update(&keys);
        let a = walk.first_background.bounding_box();
        let b = walk.second_background.bounding_box();
        assert!(a.right() == b.x() || b.right() == a.x());
    }
}

#[test]
fn offscreen_obstacles_are_culled_and_stay_gone() {
    // right() == -20 and right() == 0 are culled; right() == 530 survives.
    let gone = Obstacle::Barrier(Barrier::new(Image::new(Point { x: -50, y: 546 }, 30, 30)));
    let edge = Obstacle::Barrier(Barrier::new(Image::new(Point { x: -30, y: 546 }, 30, 30)));
    let kept = Obstacle::Barrier(Barrier::new(Image::new(Point { x: 500, y: 546 }, 30, 30)));
    let mut walk = walk_with(vec![gone, edge, kept]);
    walk.update(&no_keys());
    assert_eq!(walk.obstacles.len(), 1);
    match &walk.obstacles[0] {
        Obstacle::Barrier(b) => {
            // the survivor was translated by the scroll velocity
            assert_eq!(b.image.bounding_box(), Rect::new_from_x_y(496, 546, 30, 30));
        },
        _ => unreachable!(),
    }
    for _ in 0..10 {
        walk.update(&no_keys());
        assert!(walk.obstacles.len() <= 1);
    }
}

#[test]
fn landing_resolves_during_the_tick() {
    // A platform under a downward-moving character: the tick's collision
    // phase feeds Land back into the machine.
    let sheet = full_sheet();
    let names: Vec<String> = Vec::new();
    let rels = vec![Rect::new_from_x_y(0, -20, 200, 93)];
    let platform = Obstacle::Platform(Platform::new(&sheet, Point { x: 100, y: 300 }, &names, &rels));
    let mut walk = walk_with(vec![platform]);
    walk.boy = RedHatBoy {
        state_machine: RedHatBoyStateMachine::Running(RedHatBoyContext {
            frame: 0,
            position: Point { x: 100, y: 290 },
            velocity: Point { x: 4, y: 5 },
        }),
        sprite_sheet: full_sheet(),
    };
    assert!(walk.ready());
    walk.update(&no_keys());
    assert!(matches!(walk.boy.state_machine, RedHatBoyStateMachine::Running(_)));
    assert_eq!(walk.boy.pos_y(), 280);
}

#[test]
fn new_game_is_loading() {
    let game = WalkTheDog::new();
    assert!(matches!(game, WalkTheDog::Loading));
    assert!(game.ready());
}

#[test]
fn initialize_succeeds_once_and_only_once() {
    let mut game = WalkTheDog::new();
    assert!(game.initialize(walk_with(Vec::new())).is_ok());
    assert!(matches!(game, WalkTheDog::Loaded(_)));
    let again = game.initialize(walk_with(Vec::new()));
    assert_eq!(again, Err(GameError::AlreadyInitialized));
    assert_eq!(
        GameError::AlreadyInitialized.message(),
        "Error: Game is already initialized!"
    );
}

#[test]
fn lifecycle_update_ticks_only_when_loaded() {
    let mut game = WalkTheDog::new();
    game.update(&no_keys());
    assert!(matches!(game, WalkTheDog::Loading));
    game.initialize(walk_with(Vec::new())).unwrap();
    assert!(game.ready());
    game.update(&no_keys());
    match &game {
        WalkTheDog::Loaded(walk) => {
            assert_eq!(walk.boy.state_machine.context().position.x, 104);
        },
        WalkTheDog::Loading => unreachable!(),
    }
}
