//! Geometry primitives: a point and an axis-aligned rectangle with
//! intersection testing, the foundation of the collision engine.

use vstd::prelude::*;

verus! {

/// Largest coordinate magnitude of the play region. Keeping every position
/// within it leaves ample i16 headroom for one tick of motion and for the
/// box offsets derived from sprite cells.
pub const SCENE_LIMIT: i16 = 20000;

/// A point in scene units (x grows rightward, y grows downward).
#[derive(Clone, Copy, PartialEq, Eq, Structural, Debug)]
pub struct Point {
    pub x: i16,
    pub y: i16,
}

impl Point {
    /// Both coordinates lie within the play region.
    pub open spec fn bounded(self) -> bool {
        &&& -SCENE_LIMIT <= self.x <= SCENE_LIMIT
        &&& -SCENE_LIMIT <= self.y <= SCENE_LIMIT
    }

    /// Executable form of `bounded`.
    pub fn is_bounded(&self) -> (r: bool)
        ensures
            r == self.bounded(),
    {
        -SCENE_LIMIT <= self.x && self.x <= SCENE_LIMIT && -SCENE_LIMIT <= self.y && self.y
            <= SCENE_LIMIT
    }
}

/// An axis-aligned rectangle: anchor position plus width and height.
#[derive(Clone, Copy, PartialEq, Eq, Structural, Debug)]
pub struct Rect {
    pub position: Point,
    pub width: i16,
    pub height: i16,
}

impl Rect {
    /// Right edge, as a mathematical integer.
    pub open spec fn spec_right(self) -> int {
        self.position.x + self.width
    }

    /// Bottom edge, as a mathematical integer.
    pub open spec fn spec_bottom(self) -> int {
        self.position.y + self.height
    }

    /// The sum x + width stays within i16.
    pub open spec fn right_fits(self) -> bool {
        i16::MIN <= self.spec_right() <= i16::MAX
    }

    /// The sum y + height stays within i16.
    pub open spec fn bottom_fits(self) -> bool {
        i16::MIN <= self.spec_bottom() <= i16::MAX
    }

    /// Both edge sums stay within i16.
    pub open spec fn edges_fit(self) -> bool {
        self.right_fits() && self.bottom_fits()
    }

    /// Nonnegative size, anchored in the play region, with both far edges
    /// still inside it; implies `edges_fit`.
    pub open spec fn bounded(self) -> bool {
        &&& self.position.bounded()
        &&& 0 <= self.width
        &&& 0 <= self.height
        &&& self.spec_right() <= SCENE_LIMIT
        &&& self.spec_bottom() <= SCENE_LIMIT
    }

    /// Open-interval overlap on both axes.
    pub open spec fn spec_intersects(self, other: Rect) -> bool {
        &&& self.position.x < other.spec_right()
        &&& self.spec_right() > other.position.x
        &&& self.position.y < other.spec_bottom()
        &&& self.spec_bottom() > other.position.y
    }

    pub fn new(position: Point, width: i16, height: i16) -> (r: Rect)
        ensures
            r == (Rect { position, width, height }),
    {
        Rect { position, width, height }
    }

    pub fn new_from_x_y(x: i16, y: i16, width: i16, height: i16) -> (r: Rect)
        ensures
            r == (Rect { position: Point { x, y }, width, height }),
    {
        Rect { position: Point { x, y }, width, height }
    }

    pub fn x(&self) -> (r: i16)
        ensures
            r == self.position.x,
    {
        self.position.x
    }

    pub fn y(&self) -> (r: i16)
        ensures
            r == self.position.y,
    {
        self.position.y
    }

    pub fn right(&self) -> (r: i16)
        requires
            self.right_fits(),
        ensures
            r == self.spec_right(),
    {
        self.position.x + self.width
    }

    pub fn bottom(&self) -> (r: i16)
        requires
            self.bottom_fits(),
        ensures
            r == self.spec_bottom(),
    {
        self.position.y + self.height
    }

    /// Move the rectangle so its left edge sits at `x`; size is unchanged.
    pub fn set_x(&mut self, x: i16)
        ensures
            *final(self) == (Rect {
                position: Point { x, y: old(self).position.y },
                width: old(self).width,
                height: old(self).height,
            }),
    {
        self.position.x = x;
    }

    /// Executable form of `bounded`; the edge sums are taken in i32 so the
    /// test itself cannot overflow.
    pub fn is_bounded(&self) -> (r: bool)
        ensures
            r == self.bounded(),
    {
        self.position.is_bounded() && 0 <= self.width && 0 <= self.height
            && self.position.x as i32 + self.width as i32 <= SCENE_LIMIT as i32
            && self.position.y as i32 + self.height as i32 <= SCENE_LIMIT as i32
    }

    pub fn intersects(&self, rect: &Rect) -> (r: bool)
        requires
            self.edges_fit(),
            rect.edges_fit(),
        ensures
            r == self.spec_intersects(*rect),
    {
        self.x() < rect.right() && self.right() > rect.x() && self.y() < rect.bottom()
            && self.bottom() > rect.y()
    }
}

impl Default for Rect {
    /// The zero-sized rectangle at the origin.
    fn default() -> (r: Rect)
        ensures
            r == (Rect { position: Point { x: 0, y: 0 }, width: 0, height: 0 }),
    {
        Rect { position: Point { x: 0, y: 0 }, width: 0, height: 0 }
    }
}

} // verus!
