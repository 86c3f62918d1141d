use walk_the_dog::geometry::{Point, Rect};
use walk_the_dog::sheet::{frame_name_string, Cell, Sheet, SheetFrame};

fn cell() -> Cell {
    Cell {
        frame: Rect::new_from_x_y(5, 7, 100, 60),
        sprite_source_size: Point { x: 2, y: 3 },
    }
}

#[test]
fn rect_edges() {
    let r = Rect::new_from_x_y(10, 20, 30, 40);
    assert_eq!(r.x(), 10);
    assert_eq!(r.y(), 20);
    assert_eq!(r.right(), 40);
    assert_eq!(r.bottom(), 60);
    let d = Rect::default();
    assert_eq!(d.right(), 0);
    assert_eq!(d.bottom(), 0);
}

#[test]
fn rect_set_x_keeps_size() {
    let mut r = Rect::new(Point { x: 1, y: 2 }, 3, 4);
    r.set_x(-9);
    assert_eq!(r, Rect::new_from_x_y(-9, 2, 3, 4));
}

#[test]
fn rects_overlapping_intersect() {
    let a = Rect::new_from_x_y(0, 0, 10, 10);
    let b = Rect::new_from_x_y(5, 5, 10, 10);
    assert!(a.intersects(&b));
    assert!(b.intersects(&a));
}

#[test]
fn touching_rects_do_not_intersect() {
    let a = Rect::new_from_x_y(0, 0, 10, 10);
    let b = Rect::new_from_x_y(10, 0, 10, 10);
    assert!(!a.intersects(&b));
    let c = Rect::new_from_x_y(0, 10, 10, 10);
    assert!(!a.intersects(&c));
    let far = Rect::new_from_x_y(100, 100, 5, 5);
    assert!(!a.intersects(&far));
}

#[test]
fn frame_names_hold_each_frame_for_three_ticks() {
    assert_eq!(frame_name_string("Idle", 0), "Idle (1).png");
    assert_eq!(frame_name_string("Idle", 1), "Idle (1).png");
    assert_eq!(frame_name_string("Idle", 2), "Idle (1).png");
    assert_eq!(frame_name_string("Idle", 3), "Idle (2).png");
    assert_eq!(frame_name_string("Run", 23), "Run (8).png");
    assert_eq!(frame_name_string("Jump", 35), "Jump (12).png");
    assert_eq!(frame_name_string("Dead", 29), "Dead (10).png");
}

#[test]
fn sheet_rejects_duplicate_names() {
    let frames = vec![
        SheetFrame { name: String::from("a.png"), cell: cell() },
        SheetFrame { name: String::from("b.png"), cell: cell() },
        SheetFrame { name: String::from("a.png"), cell: cell() },
    ];
    assert!(Sheet::from_frames(frames).is_none());
}

#[test]
fn sheet_lookup_finds_the_named_cell() {
    let special = Cell {
        frame: Rect::new_from_x_y(400, 0, 64, 64),
        sprite_source_size: Point { x: 0, y: 0 },
    };
    let frames = vec![
        SheetFrame { name: String::from("a.png"), cell: cell() },
        SheetFrame { name: String::from("b.png"), cell: special },
    ];
    let sheet = Sheet::from_frames(frames).unwrap();
    assert_eq!(sheet.cell(&String::from("b.png")), Some(special));
    assert_eq!(sheet.cell(&String::from("a.png")), Some(cell()));
    assert_eq!(sheet.cell(&String::from("c.png")), None);
}
