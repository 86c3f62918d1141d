//! Sprite-sheet lookup: maps a frame name to a source rectangle on a shared
//! sprite image. Names are the keys of the loaded manifest; the animation
//! frame names the character asks for are built here as well.

use vstd::prelude::*;
use vstd::string::StringExecFns;
use crate::geometry::{Point, Rect};

verus! {

/// Largest extent any sprite cell coordinate or dimension may have.
pub const CELL_LIMIT: i16 = 4096;

/// One sprite cell of a sheet: where its pixels sit on the shared image
/// (`frame`) and the art-trim offset to apply when drawing
/// (`sprite_source_size`).
#[derive(Clone, Copy, PartialEq, Eq, Structural, Debug)]
pub struct Cell {
    pub frame: Rect,
    pub sprite_source_size: Point,
}

impl Cell {
    /// Every coordinate and dimension is nonnegative and at most
    /// `CELL_LIMIT`: what a well-formed asset manifest delivers.
    pub open spec fn bounded(self) -> bool {
        &&& 0 <= self.frame.position.x <= CELL_LIMIT
        &&& 0 <= self.frame.position.y <= CELL_LIMIT
        &&& 0 <= self.frame.width <= CELL_LIMIT
        &&& 0 <= self.frame.height <= CELL_LIMIT
        &&& 0 <= self.sprite_source_size.x <= CELL_LIMIT
        &&& 0 <= self.sprite_source_size.y <= CELL_LIMIT
    }

    /// Executable form of `bounded`.
    pub fn is_bounded(&self) -> (r: bool)
        ensures
            r == self.bounded(),
    {
        0 <= self.frame.position.x && self.frame.position.x <= CELL_LIMIT
            && 0 <= self.frame.position.y && self.frame.position.y <= CELL_LIMIT
            && 0 <= self.frame.width && self.frame.width <= CELL_LIMIT
            && 0 <= self.frame.height && self.frame.height <= CELL_LIMIT
            && 0 <= self.sprite_source_size.x && self.sprite_source_size.x <= CELL_LIMIT
            && 0 <= self.sprite_source_size.y && self.sprite_source_size.y <= CELL_LIMIT
    }
}

/// A named sprite cell, one entry of a sheet.
pub struct SheetFrame {
    pub name: String,
    pub cell: Cell,
}

/// The first cell stored under `name`, scanning entries in order.
pub open spec fn spec_lookup(frames: Seq<SheetFrame>, name: Seq<char>) -> Option<Cell>
    decreases frames.len(),
{
    if frames.len() == 0 {
        None
    } else if frames[0].name@ == name {
        Some(frames[0].cell)
    } else {
        spec_lookup(frames.drop_first(), name)
    }
}

/// No two entries share a name: the map-like invariant of the sheet.
pub open spec fn unique_names(frames: Seq<SheetFrame>) -> bool {
    forall|i: int, j: int|
        0 <= i < j < frames.len() ==> frames[i].name@ != frames[j].name@
}

/// A sprite sheet: named cells on one shared image. The image itself lives
/// with the renderer; the core only reads the geometry.
pub struct Sheet {
    pub frames: Vec<SheetFrame>,
}

impl Sheet {
    /// Build a sheet from loaded manifest entries. Returns `None` exactly
    /// when two entries share a name.
    pub fn from_frames(frames: Vec<SheetFrame>) -> (r: Option<Sheet>)
        ensures
            r matches Some(s) ==> s.frames@ == frames@ && unique_names(frames@),
            r is None <==> !unique_names(frames@),
    {
        let n = frames.len();
        let mut i: usize = 0;
        while i < n
            invariant
                n == frames@.len(),
                i <= n,
                forall|p: int, q: int| 0 <= p < q < frames@.len() && p < i ==> frames@[p].name@ != frames@[q].name@,
            decreases n - i,
        {
            let mut j: usize = i + 1;
            while j < n
                invariant
                    n == frames@.len(),
                    i < j <= n,
                    forall|q: int| i < q < j ==> frames@[i as int].name@ != frames@[q].name@,
                decreases n - j,
            {
                if frames[i].name == frames[j].name {
                    assert(!unique_names(frames@));
                    return None;
                }
                j += 1;
            }
            i += 1;
        }
        Some(Sheet { frames })
    }

    /// The first cell stored under `name`, or `None` when the sheet has no
    /// entry of that name.
    pub fn cell(&self, name: &String) -> (r: Option<Cell>)
        ensures
            r == spec_lookup(self.frames@, name@),
    {
        let n = self.frames.len();
        let mut i: usize = 0;
        proof {
            assert(self.frames@.skip(0) =~= self.frames@);
        }
        while i < n
            invariant
                n == self.frames@.len(),
                i <= n,
                spec_lookup(self.frames@, name@) == spec_lookup(
                    self.frames@.skip(i as int),
                    name@,
                ),
            decreases n - i,
        {
            proof {
                assert(self.frames@.skip(i as int)[0] == self.frames@[i as int]);
            }
            if self.frames[i].name == *name {
                return Some(self.frames[i].cell);
            }
            proof {
                assert(self.frames@.skip(i as int).drop_first() =~= self.frames@.skip(
                    i as int + 1,
                ));
            }
            i += 1;
        }
        proof {
            assert(self.frames@.skip(n as int) =~= Seq::<SheetFrame>::empty());
        }
        None
    }
}

/// The decimal digits of an animation frame index (1 through 12: the largest
/// frame ceiling is 35, so indices stop at 35 / 3 + 1).
pub open spec fn spec_index_digits(i: int) -> Seq<char> {
    if i == 1 {
        "1"@
    } else if i == 2 {
        "2"@
    } else if i == 3 {
        "3"@
    } else if i == 4 {
        "4"@
    } else if i == 5 {
        "5"@
    } else if i == 6 {
        "6"@
    } else if i == 7 {
        "7"@
    } else if i == 8 {
        "8"@
    } else if i == 9 {
        "9"@
    } else if i == 10 {
        "10"@
    } else if i == 11 {
        "11"@
    } else {
        "12"@
    }
}

/// The sheet key of animation frame `frame` of the state tagged `tag`:
/// `"{tag} ({frame / 3 + 1}).png"`. Each animation frame is held for three
/// ticks, so the frame index is `frame / 3 + 1`.
pub open spec fn spec_frame_name(tag: Seq<char>, frame: int) -> Seq<char> {
    tag + " ("@ + spec_index_digits(frame / 3 + 1) + ").png"@
}

/// Build the sheet key of animation frame `frame` of the state tagged `tag`.
pub fn frame_name_string(tag: &str, frame: u8) -> (r: String)
    requires
        frame <= 35,
    ensures
        r@ == spec_frame_name(tag@, frame as int),
{
    let idx = frame / 3 + 1;
    let digits: &str = match idx {
        1 => "1",
        2 => "2",
        3 => "3",
        4 => "4",
        5 => "5",
        6 => "6",
        7 => "7",
        8 => "8",
        9 => "9",
        10 => "10",
        11 => "11",
        _ => "12",
    };
    assert(digits@ == spec_index_digits(frame as int / 3 + 1));
    let mut s = tag.to_owned();
    s.append(" (");
    s.append(digits);
    s.append(").png");
    s
}

} // verus!
