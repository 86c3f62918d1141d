use walk_the_dog::boy::{sheet_has_all_frames, RedHatBoy};
use walk_the_dog::geometry::{Point, Rect};
use walk_the_dog::obstacle::{Barrier, Image, Obstacle, Platform};
use walk_the_dog::sheet::{frame_name_string, Cell, Sheet, SheetFrame};
use walk_the_dog::state_machine::{RedHatBoyContext, RedHatBoyStateMachine, FALLING_FRAMES};

fn boy_cell() -> Cell {
    Cell {
        frame: Rect::new_from_x_y(5, 7, 100, 60),
        sprite_source_size: Point { x: 2, y: 3 },
    }
}

/// A sheet with every animation frame the character can ask for.
fn full_sheet() -> Sheet {
    let tags: [(&str, u8); 5] = [("Idle", 29), ("Run", 23), ("Slide", 14), ("Jump", 35), ("Dead", 29)];
    let mut frames: Vec<SheetFrame> = Vec::new();
    for (tag, limit) in tags {
        let mut f: u8 = 0;
        while f <= limit {
            frames.push(SheetFrame { name: frame_name_string(tag, f), cell: boy_cell() });
            f += 3;
        }
    }
    Sheet::from_frames(frames).unwrap()
}

fn running_boy(x: i16, y: i16, vx: i16, vy: i16) -> RedHatBoy {
    RedHatBoy {
        state_machine: RedHatBoyStateMachine::Running(RedHatBoyContext {
            frame: 0,
            position: Point { x, y },
            velocity: Point { x: vx, y: vy },
        }),
        sprite_sheet: full_sheet(),
    }
}

#[test]
fn the_full_sheet_covers_every_frame() {
    assert!(sheet_has_all_frames(&full_sheet()));
    let partial = Sheet::from_frames(vec![SheetFrame {
        name: frame_name_string("Idle", 0),
        cell: boy_cell(),
    }])
    .unwrap();
    assert!(!sheet_has_all_frames(&partial));
}

#[test]
fn boy_boxes_follow_the_sprite_trim() {
    let boy = RedHatBoy::new(full_sheet());
    // position (-20, 479), sprite trim offset (2, 3), frame 100 x 60
    assert_eq!(boy.destination_box(), Rect::new_from_x_y(-18, 482, 100, 60));
    // collision box: shrunk by the fixed offsets 18 / 14 / 28
    assert_eq!(boy.bounding_box(), Rect::new_from_x_y(0, 496, 72, 46));
    assert_eq!(boy.frame_name(), "Idle (1).png");
    assert_eq!(boy.current_sprite(), Some(boy_cell()));
}

#[test]
fn platform_construction_offsets_collision_rects_by_the_anchor() {
    let sheet = full_sheet();
    let names = vec![String::from("13.png")];
    let rels = vec![
        Rect::new_from_x_y(0, 0, 60, 54),
        Rect::new_from_x_y(60, 0, 384 - 120, 93),
        Rect::new_from_x_y(384 - 60, 0, 60, 54),
    ];
    let p = Platform::new(&sheet, Point { x: 370, y: 420 }, &names, &rels);
    let boxes = p.bounding_boxes();
    assert_eq!(boxes.len(), 3);
    assert_eq!(boxes[0], Rect::new_from_x_y(370, 420, 60, 54));
    assert_eq!(boxes[1], Rect::new_from_x_y(430, 420, 264, 93));
    assert_eq!(boxes[2], Rect::new_from_x_y(694, 420, 60, 54));
    // "13.png" is not on the character sheet: visual cells are skipped
    assert_eq!(p.sprites.len(), 0);
}

#[test]
fn repeated_moves_equal_one_large_move() {
    let sheet = full_sheet();
    let names: Vec<String> = Vec::new();
    let rels = vec![Rect::new_from_x_y(10, 5, 60, 54)];
    let p = Platform::new(&sheet, Point { x: 370, y: 420 }, &names, &rels);
    let mut stepped = Obstacle::Platform(p);
    for _ in 0..3 {
        stepped.move_horizontally(-4);
    }
    let q = Platform::new(&sheet, Point { x: 370, y: 420 }, &names, &rels);
    let mut once = Obstacle::Platform(q);
    once.move_horizontally(-12);
    match (&stepped, &once) {
        (Obstacle::Platform(a), Obstacle::Platform(b)) => {
            assert_eq!(a.position, b.position);
            assert_eq!(a.bounding_boxes, b.bounding_boxes);
            assert_eq!(a.bounding_boxes[0], Rect::new_from_x_y(368, 425, 60, 54));
        },
        _ => unreachable!(),
    }
}

#[test]
fn obstacle_right_reports_the_rightmost_extent() {
    let sheet = full_sheet();
    let names: Vec<String> = Vec::new();
    let rels = vec![Rect::new_from_x_y(0, 0, 60, 54), Rect::new_from_x_y(60, 0, 60, 54)];
    let p = Obstacle::Platform(Platform::new(&sheet, Point { x: 100, y: 0 }, &names, &rels));
    assert_eq!(p.right(), 220);
    let empty = Obstacle::Platform(Platform::new(&sheet, Point { x: 100, y: 0 }, &names, &Vec::new()));
    assert_eq!(empty.right(), 0);
    let b = Obstacle::Barrier(Barrier::new(Image::new(Point { x: 150, y: 546 }, 30, 30)));
    assert_eq!(b.right(), 180);
}

#[test]
fn downward_hit_from_above_the_anchor_lands() {
    // Running with downward velocity 5, character y = 290, platform anchored
    // at y = 300 with a collision rectangle at y = 280: Land(280).
    let sheet = full_sheet();
    let names: Vec<String> = Vec::new();
    let rels = vec![Rect::new_from_x_y(0, -20, 60, 93)];
    let p = Obstacle::Platform(Platform::new(&sheet, Point { x: 100, y: 300 }, &names, &rels));
    let mut boy = running_boy(100, 290, 4, 5);
    p.check_intersection(&mut boy);
    assert!(matches!(boy.state_machine, RedHatBoyStateMachine::Running(_)));
    assert_eq!(boy.pos_y(), 280);
}

#[test]
fn platform_hit_without_downward_motion_knocks_out() {
    let sheet = full_sheet();
    let names: Vec<String> = Vec::new();
    let rels = vec![Rect::new_from_x_y(0, -20, 60, 93)];
    let p = Obstacle::Platform(Platform::new(&sheet, Point { x: 100, y: 300 }, &names, &rels));
    let mut boy = running_boy(100, 290, 4, 0);
    p.check_intersection(&mut boy);
    assert!(matches!(boy.state_machine, RedHatBoyStateMachine::Falling(_)));
}

#[test]
fn first_intersecting_rectangle_answers() {
    // Two overlapping rectangles both intersect the character: the response
    // comes from the first in stored order.
    let sheet = full_sheet();
    let names: Vec<String> = Vec::new();
    let rels = vec![Rect::new_from_x_y(0, -25, 200, 93), Rect::new_from_x_y(0, -20, 200, 93)];
    let p = Obstacle::Platform(Platform::new(&sheet, Point { x: 100, y: 300 }, &names, &rels));
    let mut boy = running_boy(100, 290, 4, 5);
    p.check_intersection(&mut boy);
    assert_eq!(boy.pos_y(), 275);
}

#[test]
fn missing_the_platform_changes_nothing() {
    let sheet = full_sheet();
    let names: Vec<String> = Vec::new();
    let rels = vec![Rect::new_from_x_y(0, 0, 10, 10)];
    let p = Obstacle::Platform(Platform::new(&sheet, Point { x: 5000, y: 5000 }, &names, &rels));
    let mut boy = running_boy(100, 290, 4, 5);
    let before = boy.state_machine;
    p.check_intersection(&mut boy);
    assert_eq!(boy.state_machine, before);
}

#[test]
fn barrier_hit_from_the_side_knocks_out_then_dies() {
    // A barrier has no platform semantics: any intersection knocks out, the
    // character falls, and once the falling animation completes it is
    // terminally knocked out.
    let barrier = Obstacle::Barrier(Barrier::new(Image::new(Point { x: 150, y: 300 }, 30, 60)));
    let mut boy = running_boy(100, 290, 4, 0);
    barrier.check_intersection(&mut boy);
    assert!(matches!(boy.state_machine, RedHatBoyStateMachine::Falling(_)));
    assert_eq!(boy.state_machine.context().velocity, Point { x: 0, y: 0 });
    for _ in 0..FALLING_FRAMES {
        boy.update();
        assert!(matches!(boy.state_machine, RedHatBoyStateMachine::Falling(_)));
    }
    boy.update();
    assert!(matches!(boy.state_machine, RedHatBoyStateMachine::KnockedOut(_)));
}

#[test]
fn barrier_miss_changes_nothing() {
    let barrier = Obstacle::Barrier(Barrier::new(Image::new(Point { x: 5000, y: 5000 }, 30, 60)));
    let mut boy = running_boy(100, 290, 4, 0);
    let before = boy.state_machine;
    barrier.check_intersection(&mut boy);
    assert_eq!(boy.state_machine, before);
}

#[test]
fn sprite_destinations_abut_left_to_right() {
    let cells = vec![
        SheetFrame { name: String::from("13.png"), cell: Cell {
            frame: Rect::new_from_x_y(0, 0, 120, 60),
            sprite_source_size: Point { x: 0, y: 0 },
        } },
        SheetFrame { name: String::from("14.png"), cell: Cell {
            frame: Rect::new_from_x_y(120, 0, 80, 60),
            sprite_source_size: Point { x: 0, y: 0 },
        } },
    ];
    let sheet = Sheet::from_frames(cells).unwrap();
    let names = vec![String::from("13.png"), String::from("14.png")];
    let p = Platform::new(&sheet, Point { x: 370, y: 420 }, &names, &Vec::new());
    assert_eq!(p.sprites.len(), 2);
    let dests = p.sprite_destinations();
    assert_eq!(dests.len(), 2);
    assert_eq!(dests[0], Rect::new_from_x_y(370, 420, 120, 60));
    assert_eq!(dests[1], Rect::new_from_x_y(490, 420, 80, 60));
}

#[test]
fn image_moves_and_retiles() {
    let mut img = Image::new(Point { x: 0, y: 0 }, 600, 600);
    img.move_horizontally(-4);
    assert_eq!(img.bounding_box(), Rect::new_from_x_y(-4, 0, 600, 600));
    assert_eq!(img.right(), 596);
    img.set_x(596);
    assert_eq!(img.bounding_box(), Rect::new_from_x_y(596, 0, 600, 600));
}
