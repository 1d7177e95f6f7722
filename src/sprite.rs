use vstd::prelude::*;
use crate::geometry::{Point, Rect};

verus! {

/// Largest value of a field of a well-formed sheet rectangle.
pub const SHEET_LIMIT: i16 = 4000;

/// A rectangle as a sprite sheet descriptor gives it.
#[derive(Clone, Copy, Debug, PartialEq, Eq, Structural)]
pub struct SheetRect {
    pub x: i16,
    pub y: i16,
    pub w: i16,
    pub h: i16,
}

/// One frame of a sprite sheet: where it lies in the sheet image, and the
/// offset at which it is drawn.
#[derive(Clone, Copy, Debug, PartialEq, Eq, Structural)]
pub struct Cell {
    pub frame: SheetRect,
    pub sprite_source_size: SheetRect,
}

pub open spec fn sheet_value_ok(v: int) -> bool {
    0 <= v <= SHEET_LIMIT
}

impl SheetRect {
    pub open spec fn wf(self) -> bool {
        &&& sheet_value_ok(self.x as int)
        &&& sheet_value_ok(self.y as int)
        &&& sheet_value_ok(self.w as int)
        &&& sheet_value_ok(self.h as int)
    }

    pub fn is_wf(&self) -> (r: bool)
        ensures
            r == self.wf(),
    {
        0 <= self.x && self.x <= SHEET_LIMIT && 0 <= self.y && self.y <= SHEET_LIMIT && 0 <= self.w
            && self.w <= SHEET_LIMIT && 0 <= self.h && self.h <= SHEET_LIMIT
    }
}

impl Cell {
    pub open spec fn wf(self) -> bool {
        self.frame.wf() && self.sprite_source_size.wf()
    }
}

/// A handle to a loaded image, with its size.
#[derive(Clone, Copy, Debug, PartialEq, Eq, Structural)]
pub struct ImageAsset {
    pub id: u32,
    pub width: i16,
    pub height: i16,
}

/// Frames of a sprite sheet by name. The first entry of a name is the one
/// that counts.
#[derive(Debug)]
pub struct Sheet {
    frames: Vec<(String, Cell)>,
}

/// No name comes twice in `frames`.
pub open spec fn keys_unique(frames: Seq<(String, Cell)>) -> bool {
    forall|a: int, b: int| 0 <= a < b < frames.len() ==> (#[trigger] frames[a]).0@ != (#[trigger] frames[b]).0@
}

/// The first index at which `frames` holds `name`, or the length.
pub open spec fn first_index_of(frames: Seq<(String, Cell)>, name: Seq<char>) -> int
    decreases frames.len(),
{
    if frames.len() == 0 {
        0
    } else if frames[0].0@ == name {
        0
    } else {
        1 + first_index_of(frames.drop_first(), name)
    }
}

/// The cell that a list of frames gives a name.
pub open spec fn lookup(frames: Seq<(String, Cell)>, name: Seq<char>) -> Option<Cell> {
    let i = first_index_of(frames, name);
    if i < frames.len() {
        Some(frames[i].1)
    } else {
        None
    }
}

proof fn lemma_first_index(frames: Seq<(String, Cell)>, name: Seq<char>)
    ensures
        0 <= first_index_of(frames, name) <= frames.len(),
        first_index_of(frames, name) < frames.len() ==> frames[first_index_of(frames, name)].0@
            == name,
        forall|j: int| 0 <= j < first_index_of(frames, name) ==> frames[j].0@ != name,
    decreases frames.len(),
{
    if frames.len() > 0 && frames[0].0@ != name {
        lemma_first_index(frames.drop_first(), name);
        assert forall|j: int| 0 <= j < first_index_of(frames, name) implies frames[j].0@ != name by {
            if j > 0 {
                assert(frames[j] == frames.drop_first()[j - 1]);
            }
        }
    }
}

proof fn lemma_first_index_is(frames: Seq<(String, Cell)>, name: Seq<char>, i: int)
    requires
        0 <= i <= frames.len(),
        i < frames.len() ==> frames[i].0@ == name,
        forall|j: int| 0 <= j < i ==> frames[j].0@ != name,
    ensures
        first_index_of(frames, name) == i,
    decreases frames.len(),
{
    if frames.len() > 0 && i > 0 {
        lemma_first_index_is(frames.drop_first(), name, i - 1);
    }
}

impl Sheet {
    /// Every cell is in range and every name comes once.
    pub open spec fn wf(self) -> bool {
        &&& forall|i: int| 0 <= i < self.entries().len() ==> (#[trigger] self.entries()[i]).1.wf()
        &&& keys_unique(self.entries())
    }

    pub closed spec fn entries(self) -> Seq<(String, Cell)> {
        self.frames@
    }

    /// The cell under `name`, if any.
    pub open spec fn cell_spec(self, name: Seq<char>) -> Option<Cell> {
        lookup(self.entries(), name)
    }

    pub open spec fn has(self, name: Seq<char>) -> bool {
        self.cell_spec(name) is Some
    }

    pub proof fn lemma_cells_wf(self, name: Seq<char>)
        requires
            self.wf(),
        ensures
            self.cell_spec(name) matches Some(c) ==> c.wf(),
    {
        lemma_first_index(self.frames@, name);
    }

    /// A sheet from named frames; `None` where a frame's values are out of
    /// range or a name comes twice.
    pub fn new(frames: Vec<(String, Cell)>) -> (r: Option<Sheet>)
        ensures
            r is Some <==> (forall|i: int| 0 <= i < frames@.len() ==> (#[trigger] frames@[i]).1.wf())
                && keys_unique(frames@),
            r matches Some(s) ==> s.entries() == frames@ && s.wf(),
    {
        let mut i: usize = 0;
        while i < frames.len()
            invariant
                0 <= i <= frames@.len(),
                forall|j: int| 0 <= j < i ==> (#[trigger] frames@[j]).1.wf(),
                keys_unique(frames@.take(i as int)),
            decreases frames@.len() - i,
        {
            if !(frames[i].1.frame.is_wf() && frames[i].1.sprite_source_size.is_wf()) {
                return None;
            }
            let mut j: usize = 0;
            while j < i
                invariant
                    0 <= j <= i < frames@.len(),
                    forall|a: int| 0 <= a < j ==> (#[trigger] frames@[a]).0@ != frames@[i as int].0@,
                decreases i - j,
            {
                if string_eq(&frames[j].0, frames[i].0.as_str()) {
                    proof {
                        assert(frames@.take(i as int + 1)[j as int] == frames@[j as int]);
                        assert(frames@.take(i as int + 1)[i as int] == frames@[i as int]);
                    }
                    return None;
                }
                j = j + 1;
            }
            proof {
                let t = frames@.take(i as int + 1);
                assert forall|a: int, b: int| 0 <= a < b < t.len() implies (#[trigger] t[a]).0@ != (
                #[trigger] t[b]).0@ by {
                    assert(t[a] == frames@[a]);
                    assert(t[b] == frames@[b]);
                    if b < i {
                        assert(frames@.take(i as int)[a] == frames@[a]);
                        assert(frames@.take(i as int)[b] == frames@[b]);
                    }
                }
            }
            i = i + 1;
        }
        assert(frames@.take(i as int) == frames@);
        Some(Sheet { frames })
    }

    /// Looks a frame up by name.
    pub fn cell(&self, name: &str) -> (r: Option<Cell>)
        ensures
            r == self.cell_spec(name@),
    {
        let mut i: usize = 0;
        while i < self.frames.len()
            invariant
                0 <= i <= self.frames@.len(),
                forall|j: int| 0 <= j < i ==> self.frames@[j].0@ != name@,
            decreases self.frames@.len() - i,
        {
            let key: &str = self.frames[i].0.as_str();
            if key.len() == name.len() && string_eq(&self.frames[i].0, name) {
                proof {
                    lemma_first_index_is(self.frames@, name@, i as int);
                }
                return Some(self.frames[i].1);
            }
            proof {
                if self.frames@[i as int].0@ == name@ {
                    assert(self.frames@[i as int].0@.len() == name@.len());
                }
            }
            i = i + 1;
        }
        proof {
            lemma_first_index_is(self.frames@, name@, i as int);
        }
        None
    }
}

fn string_eq(a: &String, b: &str) -> (r: bool)
    ensures
        r == (a@ == b@),
{
    let b_owned = String::from_str(b);
    *a == b_owned
}

/// A sprite sheet: named frames and the image that they cut from.
#[derive(Debug)]
pub struct SpriteSheet {
    pub sheet: Sheet,
    pub image: ImageAsset,
}

impl SpriteSheet {
    pub fn new(sheet: Sheet, image: ImageAsset) -> (r: SpriteSheet)
        ensures
            r.sheet == sheet,
            r.image == image,
    {
        SpriteSheet { sheet, image }
    }

    pub fn cell(&self, name: &str) -> (r: Option<Cell>)
        ensures
            r == self.sheet.cell_spec(name@),
    {
        self.sheet.cell(name)
    }
}

/// An image placed in the world, with the box it covers.
#[derive(Clone, Copy, Debug, PartialEq, Eq, Structural)]
pub struct Image {
    pub asset: ImageAsset,
    pub bounding_box: Rect,
}

impl Image {
    pub open spec fn wf(self) -> bool {
        self.bounding_box.wf()
    }

    pub open spec fn right_spec(self) -> int {
        self.bounding_box.right_spec()
    }

    pub open spec fn new_spec(asset: ImageAsset, position: Point) -> Image {
        Image { asset, bounding_box: Rect { position, width: asset.width, height: asset.height } }
    }

    /// The image placed with its top-left corner at `position`.
    pub fn new(asset: ImageAsset, position: Point) -> (r: Image)
        ensures
            r == Image::new_spec(asset, position),
    {
        Image { asset, bounding_box: Rect::new(position, asset.width, asset.height) }
    }

    pub fn bounding_box(&self) -> (r: Rect)
        ensures
            r == self.bounding_box,
    {
        self.bounding_box
    }

    pub fn set_x(&mut self, x: i16)
        ensures
            final(self).asset == old(self).asset,
            final(self).bounding_box == (Rect {
                position: Point { x, y: old(self).bounding_box.position.y },
                ..old(self).bounding_box
            }),
    {
        self.bounding_box.set_x(x);
    }

    pub fn move_horizontally(&mut self, distance: i16)
        requires
            i16::MIN <= old(self).bounding_box.position.x + distance <= i16::MAX,
        ensures
            final(self).asset == old(self).asset,
            final(self).bounding_box == (Rect {
                position: Point {
                    x: (old(self).bounding_box.position.x + distance) as i16,
                    y: old(self).bounding_box.position.y,
                },
                ..old(self).bounding_box
            }),
    {
        let x = self.bounding_box.x() + distance;
        self.set_x(x);
    }

    pub fn right(&self) -> (r: i16)
        requires
            i16::MIN <= self.right_spec() <= i16::MAX,
        ensures
            r == self.right_spec(),
    {
        self.bounding_box.right()
    }
}

/// One image draw: the part `source` of `image`, drawn over `destination`.
#[derive(Clone, Copy, Debug, PartialEq, Eq, Structural)]
pub struct Draw {
    pub image: ImageAsset,
    pub source: Rect,
    pub destination: Rect,
}

} // verus!
