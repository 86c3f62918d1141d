//! The player-character state machine: a closed set of movement states, each
//! owning the shared physical context, with typed transitions triggered by
//! discrete events. A (state, event) pair without a rule in the transition
//! table is a silent no-op, never an error.

use vstd::prelude::*;
use crate::geometry::Point;

verus! {

/// Vertical coordinate of the ground the character stands on.
pub const FLOOR: i16 = 479;

/// Horizontal coordinate the character starts at.
pub const STARTING_POINT: i16 = -20;

/// Frame-counter ceiling of the idle animation.
pub const IDLE_FRAMES: u8 = 29;

/// Frame-counter ceiling of the running animation.
pub const RUNNING_FRAMES: u8 = 23;

/// Frame-counter ceiling of the sliding animation.
pub const SLIDING_FRAMES: u8 = 14;

/// Frame-counter ceiling of the jumping animation.
pub const JUMPING_FRAMES: u8 = 35;

/// Frame-counter ceiling of the falling animation.
pub const FALLING_FRAMES: u8 = 29;

/// Horizontal speed set by the `Run` event.
pub const RUNNING_SPEED: i16 = 4;

/// Upward impulse set by the `Jump` event (negative y is up).
pub const JUMP_SPEED: i16 = -25;

/// Downward acceleration added on every jumping tick.
pub const GRAVITY: i16 = 1;

/// Largest downward velocity gravity may build up to.
pub const TERMINAL_VELOCITY: i16 = 20;

/// The physical state shared across character states: exactly one state owns
/// it at any time; transitions move it into the successor state.
#[derive(Clone, Copy, PartialEq, Eq, Structural, Debug)]
pub struct RedHatBoyContext {
    /// Animation frame counter; advances once per update tick, resets to 0
    /// on transition into a new state.
    pub frame: u8,
    /// Position in scene units.
    pub position: Point,
    /// Per-tick position delta.
    pub velocity: Point,
}

/// A discrete event fed to the state machine. `Update` is the implicit
/// per-tick event; `Land` carries the y-coordinate of the struck surface.
#[derive(Clone, Copy, PartialEq, Eq, Structural, Debug)]
pub enum Event {
    Run,
    Slide,
    Jump,
    KnockOut,
    Land(i16),
    Update,
}

/// The closed set of character states, each parameterized by the context.
#[derive(Clone, Copy, PartialEq, Eq, Structural, Debug)]
pub enum RedHatBoyStateMachine {
    Idle(RedHatBoyContext),
    Running(RedHatBoyContext),
    Sliding(RedHatBoyContext),
    Jumping(RedHatBoyContext),
    Falling(RedHatBoyContext),
    KnockedOut(RedHatBoyContext),
}

/// Frame advanced by one, wrapping to 0 once the ceiling is reached.
pub open spec fn spec_advance_frame(c: RedHatBoyContext, limit: u8) -> RedHatBoyContext {
    RedHatBoyContext {
        frame: if c.frame < limit {
            (c.frame + 1) as u8
        } else {
            0
        },
        position: c.position,
        velocity: c.velocity,
    }
}

/// Frame reset to 0, everything else kept: the effect of entering a new state.
pub open spec fn spec_reset_frame(c: RedHatBoyContext) -> RedHatBoyContext {
    RedHatBoyContext { frame: 0, position: c.position, velocity: c.velocity }
}

/// Frame reset and velocity zeroed: the effect of being knocked out.
pub open spec fn spec_stopped(c: RedHatBoyContext) -> RedHatBoyContext {
    RedHatBoyContext { frame: 0, position: c.position, velocity: Point { x: 0, y: 0 } }
}

/// Vertical velocity after one tick of gravity, clamped at terminal velocity.
pub open spec fn spec_gravity(vy: i16) -> int {
    if vy < TERMINAL_VELOCITY {
        vy + GRAVITY
    } else {
        vy as int
    }
}

impl RedHatBoyStateMachine {
    /// The freshly created machine: idle at the starting point, at rest.
    pub open spec fn spec_initial() -> RedHatBoyStateMachine {
        RedHatBoyStateMachine::Idle(
            RedHatBoyContext {
                frame: 0,
                position: Point { x: STARTING_POINT, y: FLOOR },
                velocity: Point { x: 0, y: 0 },
            },
        )
    }

    /// The context owned by the current state.
    pub open spec fn spec_context(self) -> RedHatBoyContext {
        match self {
            RedHatBoyStateMachine::Idle(c) => c,
            RedHatBoyStateMachine::Running(c) => c,
            RedHatBoyStateMachine::Sliding(c) => c,
            RedHatBoyStateMachine::Jumping(c) => c,
            RedHatBoyStateMachine::Falling(c) => c,
            RedHatBoyStateMachine::KnockedOut(c) => c,
        }
    }

    /// The frame-counter ceiling of the current state's animation.
    pub open spec fn spec_frame_limit(self) -> u8 {
        match self {
            RedHatBoyStateMachine::Idle(_) => IDLE_FRAMES,
            RedHatBoyStateMachine::Running(_) => RUNNING_FRAMES,
            RedHatBoyStateMachine::Sliding(_) => SLIDING_FRAMES,
            RedHatBoyStateMachine::Jumping(_) => JUMPING_FRAMES,
            RedHatBoyStateMachine::Falling(_) => FALLING_FRAMES,
            RedHatBoyStateMachine::KnockedOut(_) => FALLING_FRAMES,
        }
    }

    /// Internal invariant: the frame counter respects the state's ceiling and
    /// the velocity respects the speed constants.
    pub open spec fn wf(self) -> bool {
        &&& self.spec_context().frame <= self.spec_frame_limit()
        &&& 0 <= self.spec_context().velocity.x <= RUNNING_SPEED
        &&& JUMP_SPEED <= self.spec_context().velocity.y <= TERMINAL_VELOCITY
    }

    /// True exactly on the (state, event) pairs that have a row in the
    /// transition table; every other pair is a no-op.
    pub open spec fn has_rule(self, event: Event) -> bool {
        match (self, event) {
            (RedHatBoyStateMachine::Idle(_), Event::Run) => true,
            (RedHatBoyStateMachine::Idle(_), Event::Update) => true,
            (RedHatBoyStateMachine::Running(_), Event::Slide) => true,
            (RedHatBoyStateMachine::Running(_), Event::Jump) => true,
            (RedHatBoyStateMachine::Running(_), Event::Land(_)) => true,
            (RedHatBoyStateMachine::Running(_), Event::KnockOut) => true,
            (RedHatBoyStateMachine::Running(_), Event::Update) => true,
            (RedHatBoyStateMachine::Sliding(_), Event::Update) => true,
            (RedHatBoyStateMachine::Sliding(_), Event::Land(_)) => true,
            (RedHatBoyStateMachine::Sliding(_), Event::KnockOut) => true,
            (RedHatBoyStateMachine::Jumping(_), Event::Update) => true,
            (RedHatBoyStateMachine::Jumping(_), Event::Land(_)) => true,
            (RedHatBoyStateMachine::Jumping(_), Event::KnockOut) => true,
            (RedHatBoyStateMachine::Falling(_), Event::Update) => true,
            _ => false,
        }
    }

    /// The position and velocity sums computed by `event` stay within i16;
    /// only the two integrating updates do any arithmetic at all.
    pub open spec fn event_fits(self, event: Event) -> bool {
        match (self, event) {
            (RedHatBoyStateMachine::Running(c), Event::Update) => i16::MIN <= c.position.x
                + c.velocity.x <= i16::MAX,
            (RedHatBoyStateMachine::Jumping(c), Event::Update) => {
                &&& i16::MIN <= c.position.x + c.velocity.x <= i16::MAX
                &&& i16::MIN <= c.position.y + spec_gravity(c.velocity.y) <= i16::MAX
            },
            _ => true,
        }
    }

    /// The transition table as a pure function: the successor machine of
    /// `self` under `event`, with the context effect of the matching row, or
    /// `self` itself where no row matches.
    pub open spec fn spec_transition(self, event: Event) -> RedHatBoyStateMachine {
        match (self, event) {
            (RedHatBoyStateMachine::Idle(c), Event::Run) => RedHatBoyStateMachine::Running(
                RedHatBoyContext {
                    frame: 0,
                    position: c.position,
                    velocity: Point { x: RUNNING_SPEED, y: c.velocity.y },
                },
            ),
            (RedHatBoyStateMachine::Idle(c), Event::Update) => RedHatBoyStateMachine::Idle(
                spec_advance_frame(c, IDLE_FRAMES),
            ),
            (RedHatBoyStateMachine::Running(c), Event::Slide) => RedHatBoyStateMachine::Sliding(
                spec_reset_frame(c),
            ),
            (RedHatBoyStateMachine::Running(c), Event::Jump) => RedHatBoyStateMachine::Jumping(
                RedHatBoyContext {
                    frame: 0,
                    position: c.position,
                    velocity: Point { x: c.velocity.x, y: JUMP_SPEED },
                },
            ),
            (RedHatBoyStateMachine::Running(c), Event::Land(y)) => RedHatBoyStateMachine::Running(
                RedHatBoyContext {
                    frame: c.frame,
                    position: Point { x: c.position.x, y },
                    velocity: c.velocity,
                },
            ),
            (RedHatBoyStateMachine::Running(c), Event::KnockOut) => RedHatBoyStateMachine::Falling(
                spec_stopped(c),
            ),
            (RedHatBoyStateMachine::Running(c), Event::Update) => RedHatBoyStateMachine::Running(
                RedHatBoyContext {
                    frame: spec_advance_frame(c, RUNNING_FRAMES).frame,
                    position: Point {
                        x: (c.position.x + c.velocity.x) as i16,
                        y: c.position.y,
                    },
                    velocity: c.velocity,
                },
            ),
            (RedHatBoyStateMachine::Sliding(c), Event::Update) => {
                let advanced = spec_advance_frame(c, SLIDING_FRAMES);
                if advanced.frame >= SLIDING_FRAMES {
                    RedHatBoyStateMachine::Running(spec_reset_frame(advanced))
                } else {
                    RedHatBoyStateMachine::Sliding(advanced)
                }
            },
            (RedHatBoyStateMachine::Sliding(c), Event::Land(y)) => RedHatBoyStateMachine::Sliding(
                RedHatBoyContext {
                    frame: c.frame,
                    position: Point { x: c.position.x, y },
                    velocity: c.velocity,
                },
            ),
            (RedHatBoyStateMachine::Sliding(c), Event::KnockOut) => RedHatBoyStateMachine::Falling(
                spec_stopped(c),
            ),
            (RedHatBoyStateMachine::Jumping(c), Event::Update) => {
                let vy = spec_gravity(c.velocity.y) as i16;
                let x = (c.position.x + c.velocity.x) as i16;
                let y = (c.position.y + vy) as i16;
                if y >= FLOOR {
                    RedHatBoyStateMachine::Running(
                        RedHatBoyContext {
                            frame: 0,
                            position: Point { x, y: FLOOR },
                            velocity: Point { x: c.velocity.x, y: 0 },
                        },
                    )
                } else {
                    RedHatBoyStateMachine::Jumping(
                        RedHatBoyContext {
                            frame: spec_advance_frame(c, JUMPING_FRAMES).frame,
                            position: Point { x, y },
                            velocity: Point { x: c.velocity.x, y: vy },
                        },
                    )
                }
            },
            (RedHatBoyStateMachine::Jumping(c), Event::Land(y)) => RedHatBoyStateMachine::Running(
                RedHatBoyContext {
                    frame: 0,
                    position: Point { x: c.position.x, y },
                    velocity: Point { x: c.velocity.x, y: 0 },
                },
            ),
            (RedHatBoyStateMachine::Jumping(c), Event::KnockOut) => RedHatBoyStateMachine::Falling(
                spec_stopped(c),
            ),
            (RedHatBoyStateMachine::Falling(c), Event::Update) => {
                if c.frame >= FALLING_FRAMES {
                    RedHatBoyStateMachine::KnockedOut(spec_reset_frame(c))
                } else {
                    RedHatBoyStateMachine::Falling(spec_advance_frame(c, FALLING_FRAMES))
                }
            },
            _ => self,
        }
    }

    /// The animation name prefix of the current state.
    pub open spec fn spec_frame_name(self) -> Seq<char> {
        match self {
            RedHatBoyStateMachine::Idle(_) => "Idle"@,
            RedHatBoyStateMachine::Running(_) => "Run"@,
            RedHatBoyStateMachine::Sliding(_) => "Slide"@,
            RedHatBoyStateMachine::Jumping(_) => "Jump"@,
            RedHatBoyStateMachine::Falling(_) => "Dead"@,
            RedHatBoyStateMachine::KnockedOut(_) => "Dead"@,
        }
    }

    /// The freshly created machine: idle at the starting point, at rest.
    pub fn new() -> (r: RedHatBoyStateMachine)
        ensures
            r == RedHatBoyStateMachine::spec_initial(),
    {
        RedHatBoyStateMachine::Idle(
            RedHatBoyContext {
                frame: 0,
                position: Point { x: STARTING_POINT, y: FLOOR },
                velocity: Point { x: 0, y: 0 },
            },
        )
    }

    pub fn context(&self) -> (c: RedHatBoyContext)
        ensures
            c == self.spec_context(),
    {
        match self {
            RedHatBoyStateMachine::Idle(c) => *c,
            RedHatBoyStateMachine::Running(c) => *c,
            RedHatBoyStateMachine::Sliding(c) => *c,
            RedHatBoyStateMachine::Jumping(c) => *c,
            RedHatBoyStateMachine::Falling(c) => *c,
            RedHatBoyStateMachine::KnockedOut(c) => *c,
        }
    }

    pub fn frame_name(&self) -> (r: &'static str)
        ensures
            r@ == self.spec_frame_name(),
    {
        match self {
            RedHatBoyStateMachine::Idle(_) => "Idle",
            RedHatBoyStateMachine::Running(_) => "Run",
            RedHatBoyStateMachine::Sliding(_) => "Slide",
            RedHatBoyStateMachine::Jumping(_) => "Jump",
            RedHatBoyStateMachine::Falling(_) => "Dead",
            RedHatBoyStateMachine::KnockedOut(_) => "Dead",
        }
    }

    /// Executable form of the invariant `wf`.
    pub fn is_wf(&self) -> (r: bool)
        ensures
            r == self.wf(),
    {
        let limit: u8 = match self {
            RedHatBoyStateMachine::Idle(_) => IDLE_FRAMES,
            RedHatBoyStateMachine::Running(_) => RUNNING_FRAMES,
            RedHatBoyStateMachine::Sliding(_) => SLIDING_FRAMES,
            RedHatBoyStateMachine::Jumping(_) => JUMPING_FRAMES,
            RedHatBoyStateMachine::Falling(_) => FALLING_FRAMES,
            RedHatBoyStateMachine::KnockedOut(_) => FALLING_FRAMES,
        };
        let c = self.context();
        c.frame <= limit && 0 <= c.velocity.x && c.velocity.x <= RUNNING_SPEED && JUMP_SPEED
            <= c.velocity.y && c.velocity.y <= TERMINAL_VELOCITY
    }

    /// Apply one event, consuming the machine and returning the successor
    /// the transition table prescribes.
    pub fn transition(self, event: Event) -> (r: RedHatBoyStateMachine)
        requires
            self.event_fits(event),
        ensures
            r == self.spec_transition(event),
            self.wf() ==> r.wf(),
    {
        match (self, event) {
            (RedHatBoyStateMachine::Idle(c), Event::Run) => RedHatBoyStateMachine::Running(
                RedHatBoyContext {
                    frame: 0,
                    position: c.position,
                    velocity: Point { x: RUNNING_SPEED, y: c.velocity.y },
                },
            ),
            (RedHatBoyStateMachine::Idle(c), Event::Update) => RedHatBoyStateMachine::Idle(
                Self::advance_frame(c, IDLE_FRAMES),
            ),
            (RedHatBoyStateMachine::Running(c), Event::Slide) => RedHatBoyStateMachine::Sliding(
                Self::reset_frame(c),
            ),
            (RedHatBoyStateMachine::Running(c), Event::Jump) => RedHatBoyStateMachine::Jumping(
                RedHatBoyContext {
                    frame: 0,
                    position: c.position,
                    velocity: Point { x: c.velocity.x, y: JUMP_SPEED },
                },
            ),
            (RedHatBoyStateMachine::Running(c), Event::Land(y)) => RedHatBoyStateMachine::Running(
                RedHatBoyContext {
                    frame: c.frame,
                    position: Point { x: c.position.x, y },
                    velocity: c.velocity,
                },
            ),
            (RedHatBoyStateMachine::Running(c), Event::KnockOut) => RedHatBoyStateMachine::Falling(
                Self::stopped(c),
            ),
            (RedHatBoyStateMachine::Running(c), Event::Update) => RedHatBoyStateMachine::Running(
                RedHatBoyContext {
                    frame: Self::advance_frame(c, RUNNING_FRAMES).frame,
                    position: Point { x: c.position.x + c.velocity.x, y: c.position.y },
                    velocity: c.velocity,
                },
            ),
            (RedHatBoyStateMachine::Sliding(c), Event::Update) => {
                let advanced = Self::advance_frame(c, SLIDING_FRAMES);
                if advanced.frame >= SLIDING_FRAMES {
                    RedHatBoyStateMachine::Running(Self::reset_frame(advanced))
                } else {
                    RedHatBoyStateMachine::Sliding(advanced)
                }
            },
            (RedHatBoyStateMachine::Sliding(c), Event::Land(y)) => RedHatBoyStateMachine::Sliding(
                RedHatBoyContext {
                    frame: c.frame,
                    position: Point { x: c.position.x, y },
                    velocity: c.velocity,
                },
            ),
            (RedHatBoyStateMachine::Sliding(c), Event::KnockOut) => RedHatBoyStateMachine::Falling(
                Self::stopped(c),
            ),
            (RedHatBoyStateMachine::Jumping(c), Event::Update) => {
                let vy: i16 = if c.velocity.y < TERMINAL_VELOCITY {
                    c.velocity.y + GRAVITY
                } else {
                    c.velocity.y
                };
                let x = c.position.x + c.velocity.x;
                let y = c.position.y + vy;
                if y >= FLOOR {
                    RedHatBoyStateMachine::Running(
                        RedHatBoyContext {
                            frame: 0,
                            position: Point { x, y: FLOOR },
                            velocity: Point { x: c.velocity.x, y: 0 },
                        },
                    )
                } else {
                    RedHatBoyStateMachine::Jumping(
                        RedHatBoyContext {
                            frame: Self::advance_frame(c, JUMPING_FRAMES).frame,
                            position: Point { x, y },
                            velocity: Point { x: c.velocity.x, y: vy },
                        },
                    )
                }
            },
            (RedHatBoyStateMachine::Jumping(c), Event::Land(y)) => RedHatBoyStateMachine::Running(
                RedHatBoyContext {
                    frame: 0,
                    position: Point { x: c.position.x, y },
                    velocity: Point { x: c.velocity.x, y: 0 },
                },
            ),
            (RedHatBoyStateMachine::Jumping(c), Event::KnockOut) => RedHatBoyStateMachine::Falling(
                Self::stopped(c),
            ),
            (RedHatBoyStateMachine::Falling(c), Event::Update) => {
                if c.frame >= FALLING_FRAMES {
                    RedHatBoyStateMachine::KnockedOut(Self::reset_frame(c))
                } else {
                    RedHatBoyStateMachine::Falling(Self::advance_frame(c, FALLING_FRAMES))
                }
            },
            (m, _) => m,
        }
    }

    /// Apply the implicit per-tick event.
    pub fn update(self) -> (r: RedHatBoyStateMachine)
        requires
            self.event_fits(Event::Update),
        ensures
            r == self.spec_transition(Event::Update),
            self.wf() ==> r.wf(),
    {
        self.transition(Event::Update)
    }

    fn advance_frame(c: RedHatBoyContext, limit: u8) -> (r: RedHatBoyContext)
        ensures
            r == spec_advance_frame(c, limit),
    {
        RedHatBoyContext {
            frame: if c.frame < limit {
                c.frame + 1
            } else {
                0
            },
            position: c.position,
            velocity: c.velocity,
        }
    }

    fn reset_frame(c: RedHatBoyContext) -> (r: RedHatBoyContext)
        ensures
            r == spec_reset_frame(c),
    {
        RedHatBoyContext { frame: 0, position: c.position, velocity: c.velocity }
    }

    fn stopped(c: RedHatBoyContext) -> (r: RedHatBoyContext)
        ensures
            r == spec_stopped(c),
    {
        RedHatBoyContext { frame: 0, position: c.position, velocity: Point { x: 0, y: 0 } }
    }
}

/// Both machines sit in the same variant of the closed state set.
pub open spec fn same_variant(a: RedHatBoyStateMachine, b: RedHatBoyStateMachine) -> bool {
    ||| (a is Idle && b is Idle)
    ||| (a is Running && b is Running)
    ||| (a is Sliding && b is Sliding)
    ||| (a is Jumping && b is Jumping)
    ||| (a is Falling && b is Falling)
    ||| (a is KnockedOut && b is KnockedOut)
}

/// A (state, event) pair without a row in the transition table leaves the
/// machine entirely unchanged: same state tag, same position, same velocity,
/// same frame counter.
pub proof fn lemma_untabled_pair_is_noop(m: RedHatBoyStateMachine, event: Event)
    requires
        !m.has_rule(event),
    ensures
        m.spec_transition(event) == m,
{
}

/// `Land(y)` from Running, Sliding or Jumping sets position.y to exactly `y`,
/// regardless of the incoming velocity, and never moves the machine to
/// Falling or KnockedOut.
pub proof fn lemma_land_snaps_to_surface(m: RedHatBoyStateMachine, y: i16)
    requires
        m is Running || m is Sliding || m is Jumping,
    ensures
        m.spec_transition(Event::Land(y)).spec_context().position.y == y,
        !(m.spec_transition(Event::Land(y)) is Falling),
        !(m.spec_transition(Event::Land(y)) is KnockedOut),
{
}

/// KnockedOut is terminal: every event leaves state and context unchanged.
pub proof fn lemma_knocked_out_is_terminal(m: RedHatBoyStateMachine, event: Event)
    requires
        m is KnockedOut,
    ensures
        m.spec_transition(event) == m,
{
}

/// One transition step only ever keeps the frame counter, advances it by
/// one, or resets it to 0; and whenever the state tag changes, the counter
/// of the successor is 0.
pub proof fn lemma_frame_counter_step(m: RedHatBoyStateMachine, event: Event)
    ensures
        ({
            let f = m.spec_context().frame;
            let f2 = m.spec_transition(event).spec_context().frame;
            f2 == f || f2 == f + 1 || f2 == 0
        }),
        !same_variant(m, m.spec_transition(event)) ==> m.spec_transition(
            event,
        ).spec_context().frame == 0,
{
}

/// The steering events (`Run`, `Slide`, `Jump`) never move the character:
/// only `Update` integrates position, and only `Land` snaps it.
pub proof fn lemma_steering_keeps_position(m: RedHatBoyStateMachine, event: Event)
    requires
        event is Run || event is Slide || event is Jump,
    ensures
        m.spec_transition(event).spec_context().position == m.spec_context().position,
{
}

/// `KnockOut` never moves the character: it only zeroes the velocity and
/// resets the frame (or does nothing at all).
pub proof fn lemma_knock_out_keeps_position(m: RedHatBoyStateMachine)
    ensures
        m.spec_transition(Event::KnockOut).spec_context().position == m.spec_context().position,
{
}

/// `Land(y)` keeps the horizontal position, and either snaps the vertical
/// position to exactly `y` or — outside the landing states — leaves it alone.
pub proof fn lemma_land_position(m: RedHatBoyStateMachine, y: i16)
    ensures
        m.spec_transition(Event::Land(y)).spec_context().position.x == m.spec_context().position.x,
        m.spec_transition(Event::Land(y)).spec_context().position.y == y || m.spec_transition(
            Event::Land(y),
        ).spec_context().position.y == m.spec_context().position.y,
{
}

/// One `Update` of a well-formed machine moves the character at most
/// `RUNNING_SPEED` to the right and at most one tick of vertical velocity,
/// unless it snaps it onto the floor.
pub proof fn lemma_update_position_delta(m: RedHatBoyStateMachine)
    requires
        m.wf(),
        m.event_fits(Event::Update),
    ensures
        ({
            let p0 = m.spec_context().position;
            let p1 = m.spec_transition(Event::Update).spec_context().position;
            &&& p0.x <= p1.x <= p0.x + RUNNING_SPEED
            &&& (p0.y + JUMP_SPEED <= p1.y <= p0.y + TERMINAL_VELOCITY || p1.y == FLOOR)
        }),
{
}

/// The invariant is inductive: a well-formed machine stays well-formed under
/// every event of the transition table.
pub proof fn lemma_transition_preserves_wf(m: RedHatBoyStateMachine, event: Event)
    requires
        m.wf(),
    ensures
        m.spec_transition(event).wf(),
{
}

} // verus!
