//! Obstacles the character can land on or be knocked out by: a single-image
//! barrier and a multi-segment platform, behind one closed dispatch type.
//! Collision policy, identical across kinds: on the first intersecting
//! collision rectangle, a character moving downward from above the anchor
//! lands on the rectangle's top edge; anything else knocks it out.

use vstd::prelude::*;
use vstd::arithmetic::mul::lemma_mul_is_distributive_sub_other_way;
use crate::boy::RedHatBoy;
use crate::geometry::{Point, Rect};
use crate::sheet::{spec_lookup, Cell, Sheet};
use crate::state_machine::{Event, RedHatBoyStateMachine};

verus! {

/// A positioned image: the visual and collision extent coincide.
#[derive(Clone, Copy, PartialEq, Eq, Structural, Debug)]
pub struct Image {
    pub bounding_box: Rect,
}

impl Image {
    /// An image of the given pixel size anchored at `position`.
    pub fn new(position: Point, width: i16, height: i16) -> (r: Image)
        ensures
            r.bounding_box == (Rect { position, width, height }),
    {
        Image { bounding_box: Rect { position, width, height } }
    }

    pub fn bounding_box(&self) -> (r: Rect)
        ensures
            r == self.bounding_box,
    {
        self.bounding_box
    }

    pub fn right(&self) -> (r: i16)
        requires
            self.bounding_box.right_fits(),
        ensures
            r == self.bounding_box.spec_right(),
    {
        self.bounding_box.right()
    }

    pub fn move_horizontally(&mut self, distance: i16)
        requires
            i16::MIN <= old(self).bounding_box.position.x + distance <= i16::MAX,
        ensures
            final(self).bounding_box == spec_rect_moved(old(self).bounding_box, distance),
    {
        let x = self.bounding_box.position.x + distance;
        self.bounding_box.set_x(x);
    }

    pub fn set_x(&mut self, x: i16)
        ensures
            final(self).bounding_box == (Rect {
                position: Point { x, y: old(self).bounding_box.position.y },
                width: old(self).bounding_box.width,
                height: old(self).bounding_box.height,
            }),
    {
        self.bounding_box.set_x(x);
    }
}

/// `r` shifted horizontally by `dx`; size and height unchanged.
pub open spec fn spec_rect_moved(r: Rect, dx: i16) -> Rect {
    Rect {
        position: Point { x: (r.position.x + dx) as i16, y: r.position.y },
        width: r.width,
        height: r.height,
    }
}

/// `r` shifted horizontally by `dx`, `n` times over.
pub open spec fn spec_rect_moved_n(r: Rect, dx: i16, n: nat) -> Rect
    decreases n,
{
    if n == 0 {
        r
    } else {
        spec_rect_moved(spec_rect_moved_n(r, dx, (n - 1) as nat), dx)
    }
}

/// An authored, anchor-relative rectangle placed at `anchor`: how platform
/// construction turns relative collision geometry into absolute geometry.
pub open spec fn spec_rect_offset(r: Rect, anchor: Point) -> Rect {
    Rect {
        position: Point {
            x: (r.position.x + anchor.x) as i16,
            y: (r.position.y + anchor.y) as i16,
        },
        width: r.width,
        height: r.height,
    }
}

/// Repeated incremental movement does not drift: `n` horizontal moves by
/// `dx` land a rectangle exactly where one move by `n * dx` would, as long
/// as every intermediate x-coordinate stays within i16.
pub proof fn lemma_moves_accumulate(r: Rect, dx: i16, n: nat)
    requires
        forall|k: int| 0 <= k <= n ==> i16::MIN <= r.position.x + #[trigger] (k * dx) <= i16::MAX,
    ensures
        spec_rect_moved_n(r, dx, n) == (Rect {
            position: Point { x: (r.position.x + n * dx) as i16, y: r.position.y },
            width: r.width,
            height: r.height,
        }),
    decreases n,
{
    if n == 0 {
        assert(r.position.x + 0 * dx == r.position.x);
    } else {
        lemma_moves_accumulate(r, dx, (n - 1) as nat);
        lemma_mul_is_distributive_sub_other_way(dx as int, n as int, 1);
        assert(r.position.x + (n - 1) * dx + dx == r.position.x + n * dx);
        assert(i16::MIN <= r.position.x + (n - 1) * dx <= i16::MAX);
        assert(i16::MIN <= r.position.x + n * dx <= i16::MAX);
    }
}

/// A platform's stored collision rectangles, after construction at `anchor`
/// and `n` moves by `dx`, sit at exactly the authored coordinates offset by
/// `anchor` plus `n * dx` — no drift from repeated incremental application.
pub proof fn lemma_platform_moves_accumulate(authored: Rect, anchor: Point, dx: i16, n: nat)
    requires
        i16::MIN <= authored.position.x + anchor.x <= i16::MAX,
        i16::MIN <= authored.position.y + anchor.y <= i16::MAX,
        forall|k: int|
            0 <= k <= n ==> i16::MIN <= authored.position.x + anchor.x + #[trigger] (k * dx)
                <= i16::MAX,
    ensures
        spec_rect_moved_n(spec_rect_offset(authored, anchor), dx, n) == (Rect {
            position: Point {
                x: (authored.position.x + anchor.x + n * dx) as i16,
                y: (authored.position.y + anchor.y) as i16,
            },
            width: authored.width,
            height: authored.height,
        }),
{
    lemma_moves_accumulate(spec_rect_offset(authored, anchor), dx, n);
}

/// The mathematical content of an obstacle: all the geometry the world tick
/// reads or translates, free of the containers that hold it.
pub enum ObstacleView {
    Barrier { bounding_box: Rect },
    Platform { position: Point, sprites: Seq<Cell>, bounding_boxes: Seq<Rect> },
}

/// `ov` translated horizontally by `dx`: the anchor and every stored
/// collision rectangle move together.
pub open spec fn spec_moved_view(ov: ObstacleView, dx: i16) -> ObstacleView {
    match ov {
        ObstacleView::Barrier { bounding_box } => ObstacleView::Barrier {
            bounding_box: spec_rect_moved(bounding_box, dx),
        },
        ObstacleView::Platform { position, sprites, bounding_boxes } => ObstacleView::Platform {
            position: Point { x: (position.x + dx) as i16, y: position.y },
            sprites,
            bounding_boxes: Seq::new(
                bounding_boxes.len(),
                |i: int| spec_rect_moved(bounding_boxes[i], dx),
            ),
        },
    }
}

/// Rightmost extent of an obstacle, the scroll-culling key: the right edge
/// of a barrier's image, or of the last collision rectangle of a platform
/// (0 for a platform without any).
pub open spec fn spec_right_edge_view(ov: ObstacleView) -> int {
    match ov {
        ObstacleView::Barrier { bounding_box } => bounding_box.spec_right(),
        ObstacleView::Platform { bounding_boxes, .. } => if bounding_boxes.len() == 0 {
            0
        } else {
            bounding_boxes.last().spec_right()
        },
    }
}

/// The first rectangle of `rects`, in stored order, that intersects `bb`.
pub open spec fn spec_first_hit(rects: Seq<Rect>, bb: Rect) -> Option<Rect>
    decreases rects.len(),
{
    if rects.len() == 0 {
        None
    } else if bb.spec_intersects(rects[0]) {
        Some(rects[0])
    } else {
        spec_first_hit(rects.drop_first(), bb)
    }
}

/// A single static image whose bounding box is its image bounds.
pub struct Barrier {
    pub image: Image,
}

impl Barrier {
    pub fn new(image: Image) -> (r: Barrier)
        ensures
            r.image == image,
    {
        Barrier { image }
    }

}

/// The machine after testing `boy` against the obstacle `ov`: on the first
/// intersecting collision rectangle, a character moving downward from above
/// the anchor lands on the rectangle's top edge, anything else is knocked
/// out; no intersection leaves the machine untouched.
pub open spec fn spec_collide_view(ov: ObstacleView, boy: RedHatBoy) -> RedHatBoyStateMachine {
    match ov {
        ObstacleView::Barrier { bounding_box } => {
            if boy.spec_bounding_box().spec_intersects(bounding_box) {
                boy.state_machine.spec_transition(Event::KnockOut)
            } else {
                boy.state_machine
            }
        },
        ObstacleView::Platform { position, sprites, bounding_boxes } => {
            match spec_first_hit(bounding_boxes, boy.spec_bounding_box()) {
                Some(hit) => {
                    let c = boy.state_machine.spec_context();
                    if c.velocity.y > 0 && c.position.y < position.y {
                        boy.state_machine.spec_transition(Event::Land(hit.position.y))
                    } else {
                        boy.state_machine.spec_transition(Event::KnockOut)
                    }
                },
                None => boy.state_machine,
            }
        },
    }
}

/// A rectangle returned by `spec_first_hit` is one of the tested rectangles.
pub proof fn lemma_first_hit_is_member(rects: Seq<Rect>, bb: Rect)
    ensures
        spec_first_hit(rects, bb) matches Some(r) ==> exists|k: int|
            0 <= k < rects.len() && rects[k] == r,
    decreases rects.len(),
{
    if rects.len() == 0 {
    } else if bb.spec_intersects(rects[0]) {
        assert(rects[0] == spec_first_hit(rects, bb)->0);
    } else {
        lemma_first_hit_is_member(rects.drop_first(), bb);
        if spec_first_hit(rects.drop_first(), bb) is Some {
            let r = spec_first_hit(rects.drop_first(), bb)->0;
            let k = choose|k: int| 0 <= k < rects.drop_first().len() && rects.drop_first()[k] == r;
            assert(rects[k + 1] == r);
        }
    }
}

/// A shared-sheet platform: sprite cells drawn left-to-right from the anchor
/// (purely visual), and independently authored collision rectangles, stored
/// in absolute coordinates.
pub struct Platform {
    pub sprites: Vec<Cell>,
    pub bounding_boxes: Vec<Rect>,
    pub position: Point,
}

/// The cells of `sheet` under `names`, in order, skipping names the sheet
/// does not have.
pub open spec fn spec_cells_of(sheet: Sheet, names: Seq<String>) -> Seq<Cell>
    decreases names.len(),
{
    if names.len() == 0 {
        Seq::empty()
    } else {
        let rest = spec_cells_of(sheet, names.drop_first());
        match spec_lookup(sheet.frames@, names[0]@) {
            Some(c) => seq![c] + rest,
            None => rest,
        }
    }
}

impl Platform {
    /// Construct a platform at `position` from named visual cells and
    /// anchor-relative collision rectangles; every collision rectangle is
    /// offset by the anchor once, here, and stored absolute.
    pub fn new(
        sheet: &Sheet,
        position: Point,
        sprite_names: &Vec<String>,
        bounding_boxes: &Vec<Rect>,
    ) -> (r: Platform)
        requires
            forall|i: int|
                0 <= i < bounding_boxes@.len() ==> i16::MIN <= #[trigger] bounding_boxes@[i].position.x
                    + position.x <= i16::MAX && i16::MIN <= bounding_boxes@[i].position.y
                    + position.y <= i16::MAX,
        ensures
            r.position == position,
            r.sprites@ == spec_cells_of(*sheet, sprite_names@),
            r.bounding_boxes@.len() == bounding_boxes@.len(),
            forall|i: int|
                0 <= i < bounding_boxes@.len() ==> r.bounding_boxes@[i] == spec_rect_offset(
                    #[trigger] bounding_boxes@[i],
                    position,
                ),
    {
        let mut sprites: Vec<Cell> = Vec::new();
        let n = sprite_names.len();
        let mut i: usize = 0;
        proof {
            assert(sprite_names@.skip(0) =~= sprite_names@);
        }
        while i < n
            invariant
                n == sprite_names@.len(),
                i <= n,
                spec_cells_of(*sheet, sprite_names@) == sprites@ + spec_cells_of(
                    *sheet,
                    sprite_names@.skip(i as int),
                ),
            decreases n - i,
        {
            proof {
                assert(sprite_names@.skip(i as int)[0] == sprite_names@[i as int]);
                assert(sprite_names@.skip(i as int).drop_first() =~= sprite_names@.skip(
                    i as int + 1,
                ));
            }
            match sheet.cell(&sprite_names[i]) {
                Some(c) => {
                    let ghost prev = sprites@;
                    sprites.push(c);
                    proof {
                        assert(sprites@ =~= prev + seq![c]);
                        assert(prev + (seq![c] + spec_cells_of(
                            *sheet,
                            sprite_names@.skip(i as int + 1),
                        )) =~= sprites@ + spec_cells_of(*sheet, sprite_names@.skip(i as int + 1)));
                    }
                },
                None => {},
            }
            i += 1;
        }
        proof {
            assert(sprite_names@.skip(n as int) =~= Seq::<String>::empty());
            assert(sprites@ + Seq::<Cell>::empty() =~= sprites@);
        }
        let mut absolute: Vec<Rect> = Vec::new();
        let m = bounding_boxes.len();
        let mut j: usize = 0;
        while j < m
            invariant
                m == bounding_boxes@.len(),
                j <= m,
                absolute@.len() == j,
                forall|k: int|
                    0 <= k < j ==> absolute@[k] == spec_rect_offset(
                        #[trigger] bounding_boxes@[k],
                        position,
                    ),
                forall|i: int|
                    0 <= i < bounding_boxes@.len() ==> i16::MIN
                        <= #[trigger] bounding_boxes@[i].position.x + position.x <= i16::MAX
                        && i16::MIN <= bounding_boxes@[i].position.y + position.y <= i16::MAX,
            decreases m - j,
        {
            let b = bounding_boxes[j];
            absolute.push(
                Rect::new_from_x_y(
                    b.x() + position.x,
                    b.y() + position.y,
                    b.width,
                    b.height,
                ),
            );
            j += 1;
        }
        Platform { sprites, bounding_boxes: absolute, position }
    }

    /// The stored, absolute collision rectangles, in authored order.
    pub fn bounding_boxes(&self) -> (r: &Vec<Rect>)
        ensures
            r@ == self.bounding_boxes@,
    {
        &self.bounding_boxes
    }

    /// The rectangles the platform's sprite cells are drawn at: left to
    /// right from the anchor, each cell abutting the previous one.
    pub fn sprite_destinations(&self) -> (r: Vec<Rect>)
        requires
            forall|i: int|
                0 <= i <= self.sprites@.len() ==> i16::MIN <= self.position.x
                    + #[trigger] spec_width_prefix(self.sprites@, i) <= i16::MAX,
        ensures
            r@.len() == self.sprites@.len(),
            forall|i: int|
                0 <= i < self.sprites@.len() ==> r@[i] == (Rect {
                    position: Point {
                        x: (self.position.x + spec_width_prefix(self.sprites@, i)) as i16,
                        y: self.position.y,
                    },
                    width: self.sprites@[i].frame.width,
                    height: self.sprites@[i].frame.height,
                }),
    {
        let mut r: Vec<Rect> = Vec::new();
        let n = self.sprites.len();
        let mut x: i16 = self.position.x;
        let mut i: usize = 0;
        while i < n
            invariant
                n == self.sprites@.len(),
                i <= n,
                r@.len() == i,
                x == self.position.x + spec_width_prefix(self.sprites@, i as int),
                forall|k: int|
                    0 <= k <= self.sprites@.len() ==> i16::MIN <= self.position.x
                        + #[trigger] spec_width_prefix(self.sprites@, k) <= i16::MAX,
                forall|k: int|
                    0 <= k < i ==> r@[k] == (Rect {
                        position: Point {
                            x: (self.position.x + spec_width_prefix(self.sprites@, k)) as i16,
                            y: self.position.y,
                        },
                        width: self.sprites@[k].frame.width,
                        height: self.sprites@[k].frame.height,
                    }),
            decreases n - i,
        {
            let sprite = self.sprites[i];
            r.push(Rect::new_from_x_y(x, self.position.y, sprite.frame.width, sprite.frame.height));
            proof {
                assert(spec_width_prefix(self.sprites@, i as int + 1) == spec_width_prefix(
                    self.sprites@,
                    i as int,
                ) + self.sprites@[i as int].frame.width);
            }
            x = x + sprite.frame.width;
            i += 1;
        }
        r
    }
}

/// The summed widths of the first `i` sprite cells: the horizontal offset of
/// cell `i` from the platform's anchor when drawn.
pub open spec fn spec_width_prefix(sprites: Seq<Cell>, i: int) -> int
    decreases i,
{
    if i <= 0 {
        0
    } else {
        spec_width_prefix(sprites, i - 1) + sprites[i - 1].frame.width
    }
}

/// Any world object the character can land on or be knocked out by: the
/// closed set of obstacle kinds, dispatched as one sum type.
pub enum Obstacle {
    Barrier(Barrier),
    Platform(Platform),
}

impl View for Obstacle {
    type V = ObstacleView;

    open spec fn view(&self) -> ObstacleView {
        match self {
            Obstacle::Barrier(b) => ObstacleView::Barrier { bounding_box: b.image.bounding_box },
            Obstacle::Platform(p) => ObstacleView::Platform {
                position: p.position,
                sprites: p.sprites@,
                bounding_boxes: p.bounding_boxes@,
            },
        }
    }
}

impl Obstacle {
    /// Every collision rectangle sits inside the play region.
    pub open spec fn bounded(self) -> bool {
        match self {
            Obstacle::Barrier(b) => b.image.bounding_box.bounded(),
            Obstacle::Platform(p) => {
                &&& p.position.bounded()
                &&& forall|i: int|
                    0 <= i < p.bounding_boxes@.len() ==> (#[trigger] p.bounding_boxes@[i]).bounded()
            },
        }
    }

    /// Executable form of `bounded`.
    pub fn is_bounded(&self) -> (r: bool)
        ensures
            r == self.bounded(),
    {
        match self {
            Obstacle::Barrier(b) => b.image.bounding_box.is_bounded(),
            Obstacle::Platform(p) => {
                if !p.position.is_bounded() {
                    return false;
                }
                let n = p.bounding_boxes.len();
                let mut i: usize = 0;
                while i < n
                    invariant
                        *self == Obstacle::Platform(*p),
                        p.position.bounded(),
                        n == p.bounding_boxes@.len(),
                        i <= n,
                        forall|k: int| 0 <= k < i ==> (#[trigger] p.bounding_boxes@[k]).bounded(),
                    decreases n - i,
                {
                    if !p.bounding_boxes[i].is_bounded() {
                        assert(!(p.bounding_boxes@[i as int]).bounded());
                        return false;
                    }
                    i += 1;
                }
                true
            },
        }
    }

    /// Rightmost extent of the obstacle, the scroll-culling key.
    pub open spec fn spec_right_edge(self) -> int {
        spec_right_edge_view(self@)
    }

    /// Every stored rectangle's edge sums stay within i16: enough for
    /// `right` and `check_intersection`.
    pub open spec fn edges_fit(self) -> bool {
        match self {
            Obstacle::Barrier(b) => b.image.bounding_box.edges_fit(),
            Obstacle::Platform(p) => forall|i: int|
                0 <= i < p.bounding_boxes@.len() ==> (#[trigger] p.bounding_boxes@[i]).edges_fit(),
        }
    }

    /// Every stored x-coordinate may move by `dx` without leaving i16.
    pub open spec fn move_fits(self, dx: i16) -> bool {
        match self {
            Obstacle::Barrier(b) => i16::MIN <= b.image.bounding_box.position.x + dx <= i16::MAX,
            Obstacle::Platform(p) => {
                &&& i16::MIN <= p.position.x + dx <= i16::MAX
                &&& forall|i: int|
                    0 <= i < p.bounding_boxes@.len() ==> i16::MIN
                        <= (#[trigger] p.bounding_boxes@[i]).position.x + dx <= i16::MAX
            },
        }
    }

    /// The machine after testing `boy` against this obstacle.
    pub open spec fn spec_collide(self, boy: RedHatBoy) -> RedHatBoyStateMachine {
        spec_collide_view(self@, boy)
    }

    pub fn right(&self) -> (r: i16)
        requires
            self.edges_fit(),
        ensures
            r == self.spec_right_edge(),
    {
        match self {
            Obstacle::Barrier(b) => b.image.right(),
            Obstacle::Platform(p) => {
                let n = p.bounding_boxes.len();
                if n == 0 {
                    let d = Rect::default();
                    d.right()
                } else {
                    p.bounding_boxes[n - 1].right()
                }
            },
        }
    }

    /// Translate the obstacle horizontally by `x`.
    pub fn move_horizontally(&mut self, x: i16)
        requires
            old(self).move_fits(x),
        ensures
            final(self)@ == spec_moved_view(old(self)@, x),
    {
        match self {
            Obstacle::Barrier(b) => {
                b.image.move_horizontally(x);
            },
            Obstacle::Platform(p) => {
                p.position.x = p.position.x + x;
                let n = p.bounding_boxes.len();
                let mut moved: Vec<Rect> = Vec::new();
                let mut i: usize = 0;
                while i < n
                    invariant
                        n == p.bounding_boxes@.len(),
                        i <= n,
                        moved@.len() == i,
                        forall|k: int|
                            0 <= k < i ==> moved@[k] == spec_rect_moved(
                                #[trigger] p.bounding_boxes@[k],
                                x,
                            ),
                        forall|k: int|
                            0 <= k < n ==> i16::MIN <= (#[trigger] p.bounding_boxes@[k]).position.x
                                + x <= i16::MAX,
                    decreases n - i,
                {
                    let b = p.bounding_boxes[i];
                    moved.push(Rect::new_from_x_y(b.x() + x, b.y(), b.width, b.height));
                    i += 1;
                }
                p.bounding_boxes = moved;
                proof {
                    assert(p.bounding_boxes@ =~= Seq::new(
                        old(self)->Platform_0.bounding_boxes@.len(),
                        |k: int| spec_rect_moved(old(self)->Platform_0.bounding_boxes@[k], x),
                    ));
                }
            },
        }
    }

    /// Test the character's collision rectangle against this obstacle and
    /// feed the matching event, if any, back into the state machine.
    pub fn check_intersection(&self, boy: &mut RedHatBoy)
        requires
            old(boy).wf(),
            old(boy).pos_bounded(),
            self.edges_fit(),
        ensures
            final(boy).state_machine == self.spec_collide(*old(boy)),
            final(boy).sprite_sheet == old(boy).sprite_sheet,
            final(boy).wf(),
    {
        match self {
            Obstacle::Barrier(b) => {
                if boy.bounding_box().intersects(&b.image.bounding_box) {
                    boy.knock_out();
                }
            },
            Obstacle::Platform(p) => {
                let bb = boy.bounding_box();
                let n = p.bounding_boxes.len();
                let mut i: usize = 0;
                proof {
                    assert(p.bounding_boxes@.skip(0) =~= p.bounding_boxes@);
                }
                while i < n
                    invariant
                        *self == Obstacle::Platform(*p),
                        old(boy).wf(),
                        old(boy).pos_bounded(),
                        boy == old(boy),
                        bb == old(boy).spec_bounding_box(),
                        bb.edges_fit(),
                        n == p.bounding_boxes@.len(),
                        i <= n,
                        forall|k: int|
                            0 <= k < p.bounding_boxes@.len() ==> (
                            #[trigger] p.bounding_boxes@[k]).edges_fit(),
                        spec_first_hit(p.bounding_boxes@, bb) == spec_first_hit(
                            p.bounding_boxes@.skip(i as int),
                            bb,
                        ),
                    decreases n - i,
                {
                    proof {
                        assert(p.bounding_boxes@.skip(i as int)[0] == p.bounding_boxes@[i as int]);
                    }
                    if bb.intersects(&p.bounding_boxes[i]) {
                        proof {
                            assert(spec_first_hit(p.bounding_boxes@.skip(i as int), bb) == Some(
                                p.bounding_boxes@[i as int],
                            ));
                        }
                        if boy.velocity_y() > 0 && boy.pos_y() < p.position.y {
                            boy.land_on(p.bounding_boxes[i].y());
                        } else {
                            boy.knock_out();
                        }
                        return ;
                    }
                    proof {
                        assert(p.bounding_boxes@.skip(i as int).drop_first() =~= p.bounding_boxes@
                            .skip(i as int + 1));
                    }
                    i += 1;
                }
                proof {
                    assert(p.bounding_boxes@.skip(n as int) =~= Seq::<Rect>::empty());
                }
            },
        }
    }
}

} // verus!
