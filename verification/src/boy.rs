//! The character entity: wraps the state machine and its sprite sheet,
//! exposes the drawn rectangle (destination box) and the smaller collision
//! rectangle (bounding box), and applies named events.

use vstd::prelude::*;
use crate::geometry::{Point, Rect, SCENE_LIMIT};
use crate::sheet::{spec_frame_name, spec_lookup, frame_name_string, Cell, Sheet, CELL_LIMIT};
use crate::state_machine::{
    Event, RedHatBoyStateMachine, FALLING_FRAMES, IDLE_FRAMES, JUMPING_FRAMES, RUNNING_FRAMES,
    SLIDING_FRAMES,
};

verus! {

/// Horizontal inset of the collision rectangle inside the drawn rectangle.
pub const X_OFFSET: i16 = 18;

/// Vertical inset of the collision rectangle inside the drawn rectangle.
pub const Y_OFFSET: i16 = 14;

/// Total width trimmed off the drawn rectangle for collision purposes.
pub const WIDTH_OFFSET: i16 = 28;

/// Every animation frame of the state tagged `tag`, up to `limit`, resolves
/// to a bounded cell of the sheet.
pub open spec fn spec_tag_covered(sheet: Sheet, tag: Seq<char>, limit: u8) -> bool {
    forall|f: u8|
        f <= limit ==> (#[trigger] spec_lookup(sheet.frames@, spec_frame_name(tag, f as int))
            matches Some(c) && c.bounded())
}

/// The sheet resolves every animation frame the character can ever ask for:
/// all five animation name prefixes, each up to its frame ceiling. A sheet
/// without one of them would abort the game on lookup, so the character
/// refuses to run on it.
pub open spec fn spec_sheet_ok(sheet: Sheet) -> bool {
    &&& spec_tag_covered(sheet, "Idle"@, IDLE_FRAMES)
    &&& spec_tag_covered(sheet, "Run"@, RUNNING_FRAMES)
    &&& spec_tag_covered(sheet, "Slide"@, SLIDING_FRAMES)
    &&& spec_tag_covered(sheet, "Jump"@, JUMPING_FRAMES)
    &&& spec_tag_covered(sheet, "Dead"@, FALLING_FRAMES)
}

fn tag_covered(sheet: &Sheet, tag: &str, limit: u8) -> (r: bool)
    requires
        limit <= 35,
    ensures
        r == spec_tag_covered(*sheet, tag@, limit),
{
    let mut f: u8 = 0;
    while f <= limit
        invariant
            limit <= 35,
            f <= limit + 1,
            forall|g: u8|
                g < f ==> (#[trigger] spec_lookup(
                    sheet.frames@,
                    spec_frame_name(tag@, g as int),
                ) matches Some(c) && c.bounded()),
        decreases limit + 1 - f,
    {
        let name = frame_name_string(tag, f);
        match sheet.cell(&name) {
            Some(c) => {
                if !c.is_bounded() {
                    assert(!spec_tag_covered(*sheet, tag@, limit));
                    return false;
                }
            },
            None => {
                assert(!spec_tag_covered(*sheet, tag@, limit));
                return false;
            },
        }
        f += 1;
    }
    true
}

/// Check that `sheet` resolves every animation frame the character can ask
/// for; the guard a caller runs before handing a loaded sheet to
/// `RedHatBoy::new`.
pub fn sheet_has_all_frames(sheet: &Sheet) -> (r: bool)
    ensures
        r == spec_sheet_ok(*sheet),
{
    tag_covered(sheet, "Idle", IDLE_FRAMES) && tag_covered(sheet, "Run", RUNNING_FRAMES)
        && tag_covered(sheet, "Slide", SLIDING_FRAMES) && tag_covered(
        sheet,
        "Jump",
        JUMPING_FRAMES,
    ) && tag_covered(sheet, "Dead", FALLING_FRAMES)
}

/// The player character: the state machine plus the sprite sheet its
/// animation frames are drawn from.
pub struct RedHatBoy {
    pub state_machine: RedHatBoyStateMachine,
    pub sprite_sheet: Sheet,
}

impl RedHatBoy {
    /// Machine invariant holds and the sheet covers every animation frame.
    pub open spec fn wf(self) -> bool {
        &&& self.state_machine.wf()
        &&& spec_sheet_ok(self.sprite_sheet)
    }

    /// The same character with its machine replaced: how contracts describe
    /// the state machine evolving while the sheet stays put.
    pub open spec fn spec_with_machine(self, m: RedHatBoyStateMachine) -> RedHatBoy {
        RedHatBoy { state_machine: m, sprite_sheet: self.sprite_sheet }
    }

    /// The character's position sits in the play region.
    pub open spec fn pos_bounded(self) -> bool {
        self.state_machine.spec_context().position.bounded()
    }

    /// The sheet key of the current animation frame.
    pub open spec fn spec_frame_name(self) -> Seq<char> {
        spec_frame_name(
            self.state_machine.spec_frame_name(),
            self.state_machine.spec_context().frame as int,
        )
    }

    /// The sprite cell of the current animation frame, if the sheet has it.
    pub open spec fn spec_current_sprite(self) -> Option<Cell> {
        spec_lookup(self.sprite_sheet.frames@, self.spec_frame_name())
    }

    /// The rectangle the current sprite is drawn at: the context position
    /// offset by the sprite's art-trim offset, sized to the sprite's frame.
    pub open spec fn spec_destination_box(self) -> Rect {
        let c = self.state_machine.spec_context();
        let sprite = self.spec_current_sprite()->0;
        Rect {
            position: Point {
                x: (c.position.x + sprite.sprite_source_size.x) as i16,
                y: (c.position.y + sprite.sprite_source_size.y) as i16,
            },
            width: sprite.frame.width,
            height: sprite.frame.height,
        }
    }

    /// The collision rectangle: the destination box shrunk by the fixed
    /// per-axis offsets, removing transparent padding.
    pub open spec fn spec_bounding_box(self) -> Rect {
        let d = self.spec_destination_box();
        Rect {
            position: Point {
                x: (d.position.x + X_OFFSET) as i16,
                y: (d.position.y + Y_OFFSET) as i16,
            },
            width: (d.width - WIDTH_OFFSET) as i16,
            height: (d.height - Y_OFFSET) as i16,
        }
    }

    /// A character on a complete sheet always has a current sprite, and its
    /// cell is bounded.
    pub proof fn lemma_current_sprite_exists(self)
        requires
            self.wf(),
        ensures
            self.spec_current_sprite() is Some,
            self.spec_current_sprite()->0.bounded(),
    {
        match self.state_machine {
            RedHatBoyStateMachine::Idle(_) => {
                assert(spec_lookup(
                    self.sprite_sheet.frames@,
                    spec_frame_name("Idle"@, self.state_machine.spec_context().frame as int),
                ) matches Some(c) && c.bounded());
            },
            RedHatBoyStateMachine::Running(_) => {
                assert(spec_lookup(
                    self.sprite_sheet.frames@,
                    spec_frame_name("Run"@, self.state_machine.spec_context().frame as int),
                ) matches Some(c) && c.bounded());
            },
            RedHatBoyStateMachine::Sliding(_) => {
                assert(spec_lookup(
                    self.sprite_sheet.frames@,
                    spec_frame_name("Slide"@, self.state_machine.spec_context().frame as int),
                ) matches Some(c) && c.bounded());
            },
            RedHatBoyStateMachine::Jumping(_) => {
                assert(spec_lookup(
                    self.sprite_sheet.frames@,
                    spec_frame_name("Jump"@, self.state_machine.spec_context().frame as int),
                ) matches Some(c) && c.bounded());
            },
            RedHatBoyStateMachine::Falling(_) => {
                assert(spec_lookup(
                    self.sprite_sheet.frames@,
                    spec_frame_name("Dead"@, self.state_machine.spec_context().frame as int),
                ) matches Some(c) && c.bounded());
            },
            RedHatBoyStateMachine::KnockedOut(_) => {
                assert(spec_lookup(
                    self.sprite_sheet.frames@,
                    spec_frame_name("Dead"@, self.state_machine.spec_context().frame as int),
                ) matches Some(c) && c.bounded());
            },
        }
    }

    /// A fresh character on `sprite_sheet`: idle at the starting point.
    pub fn new(sprite_sheet: Sheet) -> (r: RedHatBoy)
        ensures
            r.state_machine == RedHatBoyStateMachine::spec_initial(),
            r.sprite_sheet == sprite_sheet,
    {
        RedHatBoy { state_machine: RedHatBoyStateMachine::new(), sprite_sheet }
    }

    /// The sheet key of the current animation frame.
    pub fn frame_name(&self) -> (r: String)
        requires
            self.state_machine.wf(),
        ensures
            r@ == self.spec_frame_name(),
    {
        frame_name_string(self.state_machine.frame_name(), self.state_machine.context().frame)
    }

    /// The sprite cell of the current animation frame, if the sheet has it.
    pub fn current_sprite(&self) -> (r: Option<Cell>)
        requires
            self.state_machine.wf(),
        ensures
            r == self.spec_current_sprite(),
    {
        let name = self.frame_name();
        self.sprite_sheet.cell(&name)
    }

    pub fn destination_box(&self) -> (r: Rect)
        requires
            self.wf(),
            self.pos_bounded(),
        ensures
            r == self.spec_destination_box(),
            r.edges_fit(),
    {
        proof {
            self.lemma_current_sprite_exists();
        }
        let sprite = self.current_sprite().unwrap();
        let c = self.state_machine.context();
        Rect::new_from_x_y(
            c.position.x + sprite.sprite_source_size.x,
            c.position.y + sprite.sprite_source_size.y,
            sprite.frame.width,
            sprite.frame.height,
        )
    }

    pub fn bounding_box(&self) -> (r: Rect)
        requires
            self.wf(),
            self.pos_bounded(),
        ensures
            r == self.spec_bounding_box(),
            r.edges_fit(),
    {
        proof {
            self.lemma_current_sprite_exists();
        }
        let dest = self.destination_box();
        Rect::new_from_x_y(
            dest.x() + X_OFFSET,
            dest.y() + Y_OFFSET,
            dest.width - WIDTH_OFFSET,
            dest.height - Y_OFFSET,
        )
    }

    pub fn pos_y(&self) -> (r: i16)
        ensures
            r == self.state_machine.spec_context().position.y,
    {
        self.state_machine.context().position.y
    }

    pub fn velocity_y(&self) -> (r: i16)
        ensures
            r == self.state_machine.spec_context().velocity.y,
    {
        self.state_machine.context().velocity.y
    }

    pub fn walking_speed(&self) -> (r: i16)
        ensures
            r == self.state_machine.spec_context().velocity.x,
    {
        self.state_machine.context().velocity.x
    }

    /// Apply the implicit per-tick event.
    pub fn update(&mut self)
        requires
            old(self).state_machine.event_fits(Event::Update),
        ensures
            final(self).state_machine == old(self).state_machine.spec_transition(Event::Update),
            final(self).sprite_sheet == old(self).sprite_sheet,
            old(self).wf() ==> final(self).wf(),
    {
        self.state_machine = self.state_machine.update();
    }

    pub fn run_right(&mut self)
        ensures
            final(self).state_machine == old(self).state_machine.spec_transition(Event::Run),
            final(self).sprite_sheet == old(self).sprite_sheet,
            old(self).wf() ==> final(self).wf(),
    {
        self.state_machine = self.state_machine.transition(Event::Run);
    }

    pub fn slide(&mut self)
        ensures
            final(self).state_machine == old(self).state_machine.spec_transition(Event::Slide),
            final(self).sprite_sheet == old(self).sprite_sheet,
            old(self).wf() ==> final(self).wf(),
    {
        self.state_machine = self.state_machine.transition(Event::Slide);
    }

    pub fn jump(&mut self)
        ensures
            final(self).state_machine == old(self).state_machine.spec_transition(Event::Jump),
            final(self).sprite_sheet == old(self).sprite_sheet,
            old(self).wf() ==> final(self).wf(),
    {
        self.state_machine = self.state_machine.transition(Event::Jump);
    }

    pub fn knock_out(&mut self)
        ensures
            final(self).state_machine == old(self).state_machine.spec_transition(Event::KnockOut),
            final(self).sprite_sheet == old(self).sprite_sheet,
            old(self).wf() ==> final(self).wf(),
    {
        self.state_machine = self.state_machine.transition(Event::KnockOut);
    }

    /// Land on the surface at height `position`.
    pub fn land_on(&mut self, position: i16)
        ensures
            final(self).state_machine == old(self).state_machine.spec_transition(
                Event::Land(position),
            ),
            final(self).sprite_sheet == old(self).sprite_sheet,
            old(self).wf() ==> final(self).wf(),
    {
        self.state_machine = self.state_machine.transition(Event::Land(position));
    }
}

} // verus!
