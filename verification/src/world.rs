//! The world: one character, a pair of tiling backgrounds, and the live
//! obstacle list, driven by the fixed per-tick protocol — apply input, update
//! the character, scroll, cull, then move and collision-test each obstacle
//! in order against the character's current collision rectangle.

use vstd::prelude::*;
use crate::boy::RedHatBoy;
use crate::geometry::{Point, Rect, SCENE_LIMIT};
use crate::obstacle::{
    lemma_first_hit_is_member, spec_collide_view, spec_first_hit, spec_moved_view, spec_rect_moved,
    spec_right_edge_view, Image, Obstacle, ObstacleView,
};
use crate::sheet::{Sheet, CELL_LIMIT};
use crate::state_machine::{
    lemma_knock_out_keeps_position, lemma_land_position, lemma_steering_keeps_position,
    lemma_update_position_delta, Event, RedHatBoyStateMachine, RUNNING_SPEED,
};

verus! {

/// Largest distance any coordinate of the character can change in one tick;
/// positions this far inside the play region stay inside it.
pub const TICK_MARGIN: i16 = 32;

/// One per-tick snapshot of the polled input keys. `up` and `left` are
/// deliberately unimplemented extension points: the tick reads only `down`,
/// `right` and `space`.
#[derive(Clone, Copy, PartialEq, Eq, Structural, Debug)]
pub struct KeyState {
    pub down: bool,
    pub up: bool,
    pub left: bool,
    pub right: bool,
    pub space: bool,
}

/// The views of a sequence of obstacles, in order.
pub open spec fn seq_views(obs: Seq<Obstacle>) -> Seq<ObstacleView> {
    Seq::new(obs.len(), |i: int| obs[i]@)
}

/// The obstacles that survive the cull step: those whose rightmost extent
/// has not yet scrolled past 0, in their original order.
pub open spec fn spec_retained(views: Seq<ObstacleView>) -> Seq<ObstacleView>
    decreases views.len(),
{
    if views.len() == 0 {
        Seq::empty()
    } else {
        let rest = spec_retained(views.drop_first());
        if spec_right_edge_view(views[0]) > 0 {
            seq![views[0]] + rest
        } else {
            rest
        }
    }
}

/// Every survivor of the cull step still has a positive rightmost extent and
/// is one of the original obstacles.
pub proof fn lemma_retained_are_survivors(views: Seq<ObstacleView>)
    ensures
        forall|j: int|
            0 <= j < spec_retained(views).len() ==> spec_right_edge_view(
                #[trigger] spec_retained(views)[j],
            ) > 0,
        forall|j: int|
            0 <= j < spec_retained(views).len() ==> exists|i: int|
                0 <= i < views.len() && views[i] == #[trigger] spec_retained(views)[j],
    decreases views.len(),
{
    if views.len() == 0 {
    } else {
        lemma_retained_are_survivors(views.drop_first());
        let rest = spec_retained(views.drop_first());
        assert forall|j: int|
            0 <= j < spec_retained(views).len() implies spec_right_edge_view(
            #[trigger] spec_retained(views)[j],
        ) > 0 && exists|i: int|
            0 <= i < views.len() && views[i] == spec_retained(views)[j] by {
            if spec_right_edge_view(views[0]) > 0 && j == 0 {
                assert(views[0] == spec_retained(views)[0]);
            } else {
                let j2 = if spec_right_edge_view(views[0]) > 0 {
                    j - 1
                } else {
                    j
                };
                assert(spec_retained(views)[j] == rest[j2]);
                let i2 = choose|i: int|
                    0 <= i < views.drop_first().len() && views.drop_first()[i] == rest[j2];
                assert(views[i2 + 1] == rest[j2]);
            }
        }
    }
}

/// Every obstacle of the post-cull list, moved by `v`: the tick translates
/// each survivor by the scroll velocity, in place, in order.
pub open spec fn spec_obstacles_moved(views: Seq<ObstacleView>, v: i16) -> Seq<ObstacleView> {
    Seq::new(views.len(), |i: int| spec_moved_view(views[i], v))
}

/// The machine after the per-obstacle phase: each obstacle, already moved by
/// `v`, is collision-tested in list order against the character's current
/// collision rectangle, and its event — if any — is applied at once, visible
/// to the obstacles after it.
pub open spec fn spec_machine_after_obstacles(
    views: Seq<ObstacleView>,
    v: i16,
    boy: RedHatBoy,
) -> RedHatBoyStateMachine
    decreases views.len(),
{
    if views.len() == 0 {
        boy.state_machine
    } else {
        let moved = spec_moved_view(views[0], v);
        let m1 = spec_collide_view(moved, boy);
        spec_machine_after_obstacles(views.drop_first(), v, boy.spec_with_machine(m1))
    }
}

/// The machine after the input phase: each pressed steering key fires its
/// event independently, in the fixed order slide, run, jump.
pub open spec fn spec_after_input(m: RedHatBoyStateMachine, keys: KeyState) -> RedHatBoyStateMachine {
    let m1 = if keys.down {
        m.spec_transition(Event::Slide)
    } else {
        m
    };
    let m2 = if keys.right {
        m1.spec_transition(Event::Run)
    } else {
        m1
    };
    if keys.space {
        m2.spec_transition(Event::Jump)
    } else {
        m2
    }
}

/// The uniform world scroll velocity: the negative of the character's
/// horizontal speed.
pub open spec fn spec_scroll_velocity(m: RedHatBoyStateMachine) -> i16 {
    (0 - m.spec_context().velocity.x) as i16
}

/// Both backgrounds translated by the scroll velocity; whichever one's right
/// edge has passed 0 is relocated immediately to the right of the other,
/// producing infinite tiling with exactly two images.
pub open spec fn spec_scrolled_backgrounds(first: Image, second: Image, v: i16) -> (Image, Image) {
    let m1 = Image { bounding_box: spec_rect_moved(first.bounding_box, v) };
    let m2 = Image { bounding_box: spec_rect_moved(second.bounding_box, v) };
    let r1 = if m1.bounding_box.spec_right() < 0 {
        Image {
            bounding_box: Rect {
                position: Point {
                    x: m2.bounding_box.spec_right() as i16,
                    y: m1.bounding_box.position.y,
                },
                width: m1.bounding_box.width,
                height: m1.bounding_box.height,
            },
        }
    } else {
        m1
    };
    let r2 = if m2.bounding_box.spec_right() < 0 {
        Image {
            bounding_box: Rect {
                position: Point {
                    x: r1.bounding_box.spec_right() as i16,
                    y: m2.bounding_box.position.y,
                },
                width: m2.bounding_box.width,
                height: m2.bounding_box.height,
            },
        }
    } else {
        m2
    };
    (r1, r2)
}

/// The world: the character, the two tiling backgrounds, the live obstacle
/// list, and the sheet platforms are built from.
pub struct Walk {
    pub boy: RedHatBoy,
    pub first_background: Image,
    pub second_background: Image,
    pub obstacles: Vec<Obstacle>,
    pub obstacle_sheet: Sheet,
}

/// The complete effect of one tick of `Walk::update`: the relation between
/// the world before (`pre`) and after (`post`) one call with `keys` held.
pub open spec fn spec_ticked(pre: Walk, keys: KeyState, post: Walk) -> bool {
    let m_up = spec_after_input(pre.boy.state_machine, keys).spec_transition(Event::Update);
    let boy_mid = pre.boy.spec_with_machine(m_up);
    let v = spec_scroll_velocity(m_up);
    let bgs = spec_scrolled_backgrounds(pre.first_background, pre.second_background, v);
    let culled = spec_retained(seq_views(pre.obstacles@));
    &&& post.boy.sprite_sheet == pre.boy.sprite_sheet
    &&& post.obstacle_sheet == pre.obstacle_sheet
    &&& post.first_background == bgs.0
    &&& post.second_background == bgs.1
    &&& seq_views(post.obstacles@) == spec_obstacles_moved(culled, v)
    &&& post.boy.state_machine == spec_machine_after_obstacles(culled, v, boy_mid)
}

/// Obstacle culling is permanent: every obstacle still in the list after a
/// tick is one of the pre-tick obstacles whose rightmost extent was still
/// positive, translated by the scroll velocity. An obstacle culled for
/// `right() <= 0` is absent, and nothing ever re-adds one.
pub proof fn lemma_culled_never_return(pre: Walk, keys: KeyState, post: Walk)
    requires
        spec_ticked(pre, keys, post),
    ensures
        ({
            let m_up = spec_after_input(pre.boy.state_machine, keys).spec_transition(Event::Update);
            let v = spec_scroll_velocity(m_up);
            forall|j: int|
                0 <= j < post.obstacles@.len() ==> exists|i: int|
                    0 <= i < pre.obstacles@.len() && spec_right_edge_view(pre.obstacles@[i]@) > 0
                        && #[trigger] post.obstacles@[j]@ == spec_moved_view(pre.obstacles@[i]@, v)
        }),
{
    let views = seq_views(pre.obstacles@);
    let m_up = spec_after_input(pre.boy.state_machine, keys).spec_transition(Event::Update);
    let v = spec_scroll_velocity(m_up);
    let culled = spec_retained(views);
    lemma_retained_are_survivors(views);
    assert forall|j: int| 0 <= j < post.obstacles@.len() implies exists|i: int|
        0 <= i < pre.obstacles@.len() && spec_right_edge_view(pre.obstacles@[i]@) > 0
            && #[trigger] post.obstacles@[j]@ == spec_moved_view(pre.obstacles@[i]@, v) by {
        assert(seq_views(post.obstacles@) == spec_obstacles_moved(culled, v));
        assert(seq_views(post.obstacles@).len() == post.obstacles@.len());
        assert(spec_obstacles_moved(culled, v).len() == culled.len());
        assert(0 <= j < culled.len());
        assert(post.obstacles@[j]@ == seq_views(post.obstacles@)[j]);
        assert(seq_views(post.obstacles@)[j] == spec_moved_view(culled[j], v));
        assert(spec_right_edge_view(spec_retained(views)[j]) > 0);
        assert(exists|i: int| 0 <= i < views.len() && views[i] == spec_retained(views)[j]);
        let i = choose|i: int| 0 <= i < views.len() && views[i] == culled[j];
        assert(pre.obstacles@[i]@ == views[i]);
        assert(spec_right_edge_view(pre.obstacles@[i]@) > 0);
        assert(post.obstacles@[j]@ == spec_moved_view(pre.obstacles@[i]@, v));
    }
}

impl Walk {
    /// Assemble a world from its loaded parts.
    pub fn new(
        boy: RedHatBoy,
        first_background: Image,
        second_background: Image,
        obstacles: Vec<Obstacle>,
        obstacle_sheet: Sheet,
    ) -> (r: Walk)
        ensures
            r.boy == boy,
            r.first_background == first_background,
            r.second_background == second_background,
            r.obstacles == obstacles,
            r.obstacle_sheet == obstacle_sheet,
    {
        Walk { boy, first_background, second_background, obstacles, obstacle_sheet }
    }

    /// The uniform scroll velocity of this tick.
    pub fn velocity(&self) -> (r: i16)
        requires
            self.boy.state_machine.wf(),
        ensures
            r == spec_scroll_velocity(self.boy.state_machine),
            -RUNNING_SPEED <= r <= 0,
    {
        0 - self.boy.walking_speed()
    }

    /// One tick of the fixed per-tick protocol: apply the pressed steering
    /// events, advance the character, scroll both backgrounds (retiling
    /// whichever has fully left the screen), cull every obstacle whose
    /// rightmost extent has passed 0, then move each survivor by the scroll
    /// velocity and resolve its intersection against the character's current
    /// collision rectangle — a resolution that may itself change the state
    /// machine, visibly to the obstacles processed after it.
    pub fn update(&mut self, keystate: &KeyState)
        requires
            old(self).tick_ok(),
        ensures
            spec_ticked(*old(self), *keystate, *final(self)),
            final(self).boy.wf(),
    {
        let ghost m0 = old(self).boy.state_machine;
        if keystate.down {
            self.boy.slide();
        }
        let ghost m1 = self.boy.state_machine;
        if keystate.right {
            self.boy.run_right();
        }
        let ghost m2 = self.boy.state_machine;
        if keystate.space {
            self.boy.jump();
        }
        proof {
            assert(self.boy.state_machine == spec_after_input(m0, *keystate));
            lemma_steering_keeps_position(m0, Event::Slide);
            lemma_steering_keeps_position(m1, Event::Run);
            lemma_steering_keeps_position(m2, Event::Jump);
            assert(self.boy.state_machine.spec_context().position == m0.spec_context().position);
            assert(self.boy.wf());
            assert(self.boy.state_machine.event_fits(Event::Update));
        }
        let ghost m3 = self.boy.state_machine;
        self.boy.update();
        let ghost m_up = self.boy.state_machine;
        proof {
            lemma_update_position_delta(m3);
            assert(self.boy.pos_bounded());
            assert(self.boy.wf());
        }
        let ghost boy_mid = self.boy;
        proof {
            assert(boy_mid == old(self).boy.spec_with_machine(m_up));
        }
        let velocity = self.velocity();
        self.first_background.move_horizontally(velocity);
        self.second_background.move_horizontally(velocity);
        if self.first_background.right() < 0 {
            let x = self.second_background.right();
            self.first_background.set_x(x);
        }
        if self.second_background.right() < 0 {
            let x = self.first_background.right();
            self.second_background.set_x(x);
        }
        proof {
            assert(self.first_background == spec_scrolled_backgrounds(
                old(self).first_background,
                old(self).second_background,
                velocity,
            ).0);
            assert(self.second_background == spec_scrolled_backgrounds(
                old(self).first_background,
                old(self).second_background,
                velocity,
            ).1);
        }
        let ghost g_bg1 = self.first_background;
        let ghost g_bg2 = self.second_background;
        let ghost g_sheet = self.obstacle_sheet;

        let mut source: Vec<Obstacle> = Vec::new();
        core::mem::swap(&mut source, &mut self.obstacles);
        let ghost orig_views = seq_views(source@);
        proof {
            assert(orig_views == seq_views(old(self).obstacles@));
        }
        let mut kept: Vec<Obstacle> = Vec::new();
        while source.len() > 0
            invariant
                spec_retained(orig_views) == seq_views(kept@) + spec_retained(seq_views(source@)),
                forall|k: int| 0 <= k < source@.len() ==> (#[trigger] source@[k]).bounded(),
                forall|k: int| 0 <= k < kept@.len() ==> (#[trigger] kept@[k]).bounded(),
            decreases source@.len(),
        {
            let ghost pre = source@;
            let o = source.remove(0);
            proof {
                assert(source@ =~= pre.drop_first());
                assert(seq_views(source@) =~= seq_views(pre).drop_first());
                assert(seq_views(pre)[0] == o@);
                assert(o.edges_fit());
            }
            let ghost kept_pre = kept@;
            if o.right() > 0 {
                kept.push(o);
                proof {
                    assert(seq_views(kept@) =~= seq_views(kept_pre) + seq![o@]);
                    assert((seq_views(kept_pre) + seq![o@]) + spec_retained(seq_views(source@))
                        =~= seq_views(kept_pre) + (seq![o@] + spec_retained(seq_views(source@))));
                }
            }
        }
        proof {
            assert(seq_views(source@) =~= Seq::<ObstacleView>::empty());
            assert(seq_views(kept@) + spec_retained(seq_views(source@)) =~= seq_views(kept@));
            assert(spec_retained(orig_views) == seq_views(kept@));
        }

        let ghost culled_views = seq_views(kept@);
        let ghost n_total = kept@.len();
        proof {
            assert(culled_views.skip(0) =~= culled_views);
            assert(seq_views(self.obstacles@) =~= spec_obstacles_moved(culled_views, velocity)
                .take(0));
        }
        while kept.len() > 0
            invariant
                -RUNNING_SPEED <= velocity <= 0,
                self.boy.wf(),
                self.boy.pos_bounded(),
                self.boy.sprite_sheet == boy_mid.sprite_sheet,
                self.first_background == g_bg1,
                self.second_background == g_bg2,
                self.obstacle_sheet == g_sheet,
                forall|k: int| 0 <= k < kept@.len() ==> (#[trigger] kept@[k]).bounded(),
                self.obstacles@.len() + kept@.len() == n_total,
                n_total == culled_views.len(),
                culled_views.skip(self.obstacles@.len() as int) == seq_views(kept@),
                seq_views(self.obstacles@) == spec_obstacles_moved(culled_views, velocity).take(
                    self.obstacles@.len() as int,
                ),
                spec_machine_after_obstacles(culled_views, velocity, boy_mid)
                    == spec_machine_after_obstacles(seq_views(kept@), velocity, self.boy),
            decreases kept@.len(),
        {
            let ghost kept_pre = kept@;
            let ghost n_done = self.obstacles@.len();
            let mut o = kept.remove(0);
            let ghost o_pre = o;
            proof {
                assert(kept@ =~= kept_pre.drop_first());
                assert(seq_views(kept@) =~= seq_views(kept_pre).drop_first());
                assert(seq_views(kept_pre)[0] == o_pre@);
                assert(o.bounded());
                assert(o.move_fits(velocity));
            }
            o.move_horizontally(velocity);
            proof {
                assert(o@ == spec_moved_view(o_pre@, velocity));
                assert(o.edges_fit());
            }
            let ghost boy_before = self.boy;
            o.check_intersection(&mut self.boy);
            proof {
                assert(self.boy.state_machine == spec_collide_view(o@, boy_before));
                assert(self.boy == boy_before.spec_with_machine(self.boy.state_machine));
                assert(spec_machine_after_obstacles(seq_views(kept_pre), velocity, boy_before)
                    == spec_machine_after_obstacles(seq_views(kept@), velocity, self.boy));
                match o@ {
                    ObstacleView::Barrier { bounding_box } => {
                        lemma_knock_out_keeps_position(boy_before.state_machine);
                    },
                    ObstacleView::Platform { position, sprites, bounding_boxes } => {
                        let bb = boy_before.spec_bounding_box();
                        match spec_first_hit(bounding_boxes, bb) {
                            Some(hit) => {
                                lemma_first_hit_is_member(bounding_boxes, bb);
                                let k = choose|k: int|
                                    0 <= k < bounding_boxes.len() && bounding_boxes[k] == hit;
                                let pre_boxes = o_pre@->bounding_boxes;
                                assert(bounding_boxes[k] == spec_rect_moved(
                                    pre_boxes[k],
                                    velocity,
                                ));
                                assert(pre_boxes[k].bounded());
                                assert(-SCENE_LIMIT <= hit.position.y <= SCENE_LIMIT);
                                lemma_land_position(boy_before.state_machine, hit.position.y);
                                lemma_knock_out_keeps_position(boy_before.state_machine);
                            },
                            None => {},
                        }
                    },
                }
                assert(self.boy.pos_bounded());
            }
            let ghost obs_pre = self.obstacles@;
            self.obstacles.push(o);
            proof {
                assert(seq_views(self.obstacles@) =~= seq_views(obs_pre) + seq![o@]);
                assert(culled_views[n_done as int] == o_pre@);
                assert(spec_obstacles_moved(culled_views, velocity)[n_done as int] == o@);
                assert(seq_views(self.obstacles@) =~= spec_obstacles_moved(
                    culled_views,
                    velocity,
                ).take(n_done as int + 1));
                assert(culled_views.skip(self.obstacles@.len() as int) =~= seq_views(kept@));
            }
        }
        proof {
            assert(seq_views(kept@) =~= Seq::<ObstacleView>::empty());
            assert(spec_machine_after_obstacles(seq_views(kept@), velocity, self.boy)
                == self.boy.state_machine);
            assert(self.obstacles@.len() == n_total);
            assert(seq_views(self.obstacles@) =~= spec_obstacles_moved(culled_views, velocity)
                .take(n_total as int));
            assert(spec_obstacles_moved(culled_views, velocity).take(n_total as int)
                =~= spec_obstacles_moved(culled_views, velocity));
            assert(velocity == spec_scroll_velocity(m_up));
        }
    }

    /// Everything one tick relies on: a well-formed character whose position
    /// has one tick of headroom inside the play region, bounded backgrounds
    /// of sensible width, and bounded obstacles.
    pub open spec fn tick_ok(self) -> bool {
        let p = self.boy.state_machine.spec_context().position;
        &&& self.boy.wf()
        &&& -SCENE_LIMIT + TICK_MARGIN <= p.x <= SCENE_LIMIT - TICK_MARGIN
        &&& -SCENE_LIMIT + TICK_MARGIN <= p.y <= SCENE_LIMIT - TICK_MARGIN
        &&& self.first_background.bounding_box.bounded()
        &&& self.first_background.bounding_box.width <= CELL_LIMIT
        &&& self.second_background.bounding_box.bounded()
        &&& self.second_background.bounding_box.width <= CELL_LIMIT
        &&& forall|i: int|
            0 <= i < self.obstacles@.len() ==> (#[trigger] self.obstacles@[i]).bounded()
    }

    /// Executable form of `tick_ok`: the guard a caller runs before `update`.
    pub fn ready(&self) -> (r: bool)
        ensures
            r == self.tick_ok(),
    {
        if !self.boy.state_machine.is_wf() {
            return false;
        }
        if !crate::boy::sheet_has_all_frames(&self.boy.sprite_sheet) {
            return false;
        }
        let p = self.boy.state_machine.context().position;
        if !(-SCENE_LIMIT + TICK_MARGIN <= p.x && p.x <= SCENE_LIMIT - TICK_MARGIN
            && -SCENE_LIMIT + TICK_MARGIN <= p.y && p.y <= SCENE_LIMIT - TICK_MARGIN) {
            return false;
        }
        if !(self.first_background.bounding_box.is_bounded()
            && self.first_background.bounding_box.width <= CELL_LIMIT
            && self.second_background.bounding_box.is_bounded()
            && self.second_background.bounding_box.width <= CELL_LIMIT) {
            return false;
        }
        let n = self.obstacles.len();
        let mut i: usize = 0;
        while i < n
            invariant
                n == self.obstacles@.len(),
                i <= n,
                self.boy.wf(),
                ({
                    let p = self.boy.state_machine.spec_context().position;
                    -SCENE_LIMIT + TICK_MARGIN <= p.x <= SCENE_LIMIT - TICK_MARGIN
                        && -SCENE_LIMIT + TICK_MARGIN <= p.y <= SCENE_LIMIT - TICK_MARGIN
                }),
                self.first_background.bounding_box.bounded(),
                self.first_background.bounding_box.width <= CELL_LIMIT,
                self.second_background.bounding_box.bounded(),
                self.second_background.bounding_box.width <= CELL_LIMIT,
                forall|k: int| 0 <= k < i ==> (#[trigger] self.obstacles@[k]).bounded(),
            decreases n - i,
        {
            if !self.obstacles[i].is_bounded() {
                assert(!(self.obstacles@[i as int]).bounded());
                return false;
            }
            i += 1;
        }
        true
    }
}

} // verus!
