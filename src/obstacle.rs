use vstd::prelude::*;
use crate::character::RedHatBoy;
use crate::geometry::{coord_ok, Point, Rect};
use crate::red_hat_boy::{
    lemma_fall_ends, lemma_fall_ticks, step, updates, Event, Phase, FALLING_FRAMES, PLAYER_HEIGHT,
};
use crate::sprite::{Cell, Draw, Image, ImageAsset, Sheet, SpriteSheet};

verus! {

/// Largest width or height of one obstacle piece, and farthest that a
/// platform's box starts to the right of the platform.
pub const PIECE_LIMIT: i16 = 1000;

/// Most cells that a platform is drawn with.
pub const PLATFORM_CELLS_MAX: usize = 4;

pub open spec fn piece_ok(v: int) -> bool {
    0 <= v <= PIECE_LIMIT
}

/// An offset of a box from its platform's position.
pub open spec fn offset_ok(v: int) -> bool {
    -PIECE_LIMIT <= v <= PIECE_LIMIT
}

/// Boxes and a cell count that make a well-formed platform: at least one
/// box, each starting within a piece to the right of the platform's
/// position, with a piece's extent at most; a few cells.
pub open spec fn platform_shape_ok(boxes: Seq<Rect>, cells: int) -> bool {
    &&& boxes.len() > 0
    &&& cells <= PLATFORM_CELLS_MAX
    &&& forall|i: int|
        0 <= i < boxes.len() ==> {
            let b = #[trigger] boxes[i];
            &&& piece_ok(b.position.x as int)
            &&& piece_ok(b.position.y as int)
            &&& piece_ok(b.width as int)
            &&& piece_ok(b.height as int)
        }
}

/// A single image that knocks the character out on contact.
#[derive(Clone, Copy, Debug, PartialEq, Eq, Structural)]
pub struct Barrier {
    pub image: Image,
}

/// A run of sprite cells with collision boxes that the character can land on
/// from above.
#[derive(Clone, Debug)]
pub struct Platform {
    pub image: ImageAsset,
    pub bounding_boxes: Vec<Rect>,
    pub sprites: Vec<Cell>,
    pub position: Point,
}

/// The obstacles of a level.
#[derive(Clone, Debug)]
pub enum Obstacle {
    Barrier(Barrier),
    Platform(Platform),
}

/// The index of the first box in `boxes` that `b` intersects, or the length.
pub open spec fn first_hit(boxes: Seq<Rect>, b: Rect) -> int
    decreases boxes.len(),
{
    if boxes.len() == 0 {
        0
    } else if b.intersects_spec(boxes[0]) {
        0
    } else {
        1 + first_hit(boxes.drop_first(), b)
    }
}

proof fn lemma_first_hit_is(boxes: Seq<Rect>, b: Rect, i: int)
    requires
        0 <= i <= boxes.len(),
        i < boxes.len() ==> b.intersects_spec(boxes[i]),
        forall|j: int| 0 <= j < i ==> !b.intersects_spec(#[trigger] boxes[j]),
    ensures
        first_hit(boxes, b) == i,
    decreases boxes.len(),
{
    if boxes.len() > 0 && i > 0 {
        assert(!b.intersects_spec(boxes[0]));
        assert forall|j: int| 0 <= j < i - 1 implies !b.intersects_spec(
            #[trigger] boxes.drop_first()[j],
        ) by {
            assert(boxes.drop_first()[j] == boxes[j + 1]);
        }
        lemma_first_hit_is(boxes.drop_first(), b, i - 1);
    }
}

/// The cells found in `sheet` under `names`, in order, skipping names it lacks.
pub open spec fn found_cells(sheet: Sheet, names: Seq<&str>) -> Seq<Cell>
    decreases names.len(),
{
    if names.len() == 0 {
        Seq::empty()
    } else {
        let rest = found_cells(sheet, names.drop_last());
        match sheet.cell_spec(names.last()@) {
            Some(c) => rest.push(c),
            None => rest,
        }
    }
}

/// The total width of the first `n` cells.
pub open spec fn cells_width(cells: Seq<Cell>, n: int) -> int
    decreases n,
{
    if n <= 0 {
        0
    } else {
        cells_width(cells, n - 1) + cells[n - 1].frame.w
    }
}

/// The draw of a platform's cell `i`: after the cells before it.
pub open spec fn platform_cell_draw(p: Platform, i: int) -> Draw {
    let c = p.sprites@[i];
    Draw {
        image: p.image,
        source: Rect { position: Point { x: c.frame.x, y: c.frame.y }, width: c.frame.w, height: c.frame.h },
        destination: Rect {
            position: Point { x: (p.position.x + cells_width(p.sprites@, i)) as i16, y: p.position.y },
            width: c.frame.w,
            height: c.frame.h,
        },
    }
}

/// A platform's cells drawn side by side from its position.
pub open spec fn platform_draws(p: Platform) -> Seq<Draw> {
    Seq::new(p.sprites@.len(), |i: int| platform_cell_draw(p, i))
}

/// `r` is box `b` shifted right by `d`.
pub open spec fn shifted(b: Rect, d: int) -> Rect {
    Rect { position: Point { x: (b.position.x + d) as i16, y: b.position.y }, ..b }
}

/// The character after a collision that resolves with `event`.
pub open spec fn resolved(boy: RedHatBoy, old_boy: RedHatBoy, event: Event) -> bool {
    &&& boy.wf()
    &&& boy.moved_to(step(old_boy.model().0, old_boy.model().1, event), old_boy)
    &&& boy.sounds == old_boy.sounds
}

/// A touch of the barrier knocks the character out; otherwise nothing changes.
pub open spec fn barrier_resolves(b: Barrier, boy: RedHatBoy, old_boy: RedHatBoy) -> bool {
    if old_boy.bounding_box_spec().intersects_spec(b.image.bounding_box) {
        resolved(boy, old_boy, Event::KnockOut)
    } else {
        boy == old_boy
    }
}

/// The first box of the platform that the character touches decides: coming
/// down (positive vertical velocity) from above the platform's top, it lands
/// on that box; otherwise it is knocked out. Untouched, nothing changes.
pub open spec fn platform_resolves(p: Platform, boy: RedHatBoy, old_boy: RedHatBoy) -> bool {
    let boxes = p.bounding_boxes@;
    let hit = first_hit(boxes, old_boy.bounding_box_spec());
    let c = old_boy.model().1;
    if 0 <= hit < boxes.len() {
        if c.velocity.y > 0 && c.position.y < p.position.y {
            resolved(boy, old_boy, Event::Land(boxes[hit].position.y))
        } else {
            resolved(boy, old_boy, Event::KnockOut)
        }
    } else {
        boy == old_boy
    }
}

impl Barrier {
    pub open spec fn wf(self) -> bool {
        let b = self.image.bounding_box;
        &&& coord_ok(b.position.x as int)
        &&& coord_ok(b.position.y as int)
        &&& piece_ok(b.width as int)
        &&& piece_ok(b.height as int)
    }

    pub fn new(image: Image) -> (r: Barrier)
        ensures
            r.image == image,
    {
        Barrier { image }
    }

    /// Knocks the character out if it touches the barrier.
    pub fn check_intersection(&self, boy: &mut RedHatBoy)
        requires
            self.wf(),
            old(boy).wf(),
        ensures
            barrier_resolves(*self, *final(boy), *old(boy)),
            final(boy).wf(),
    {
        if boy.bounding_box().intersects(&self.image.bounding_box()) {
            boy.knock_out();
        }
    }

    /// The whole image, drawn over its box.
    pub open spec fn draw_spec(self) -> Draw {
        Draw {
            image: self.image.asset,
            source: Rect {
                position: Point { x: 0, y: 0 },
                width: self.image.asset.width,
                height: self.image.asset.height,
            },
            destination: self.image.bounding_box,
        }
    }

    pub fn draw(&self) -> (r: Draw)
        ensures
            r == self.draw_spec(),
    {
        Draw {
            image: self.image.asset,
            source: Rect::new_from_x_y(0, 0, self.image.asset.width, self.image.asset.height),
            destination: self.image.bounding_box(),
        }
    }

    pub fn draw_rect(&self) -> (r: Rect)
        ensures
            r == self.image.bounding_box,
    {
        self.image.bounding_box()
    }

    pub fn move_horizontally(&mut self, x: i16)
        requires
            i16::MIN <= old(self).image.bounding_box.position.x + x <= i16::MAX,
        ensures
            final(self).image.asset == old(self).image.asset,
            final(self).image.bounding_box == shifted(old(self).image.bounding_box, x as int),
    {
        self.image.move_horizontally(x);
    }

    pub fn right(&self) -> (r: i16)
        requires
            self.wf(),
        ensures
            r == self.image.right_spec(),
    {
        self.image.right()
    }
}

impl Platform {
    pub open spec fn wf(self) -> bool {
        &&& coord_ok(self.position.x as int)
        &&& coord_ok(self.position.y as int)
        &&& self.bounding_boxes@.len() > 0
        &&& self.sprites@.len() <= PLATFORM_CELLS_MAX
        &&& forall|i: int| 0 <= i < self.sprites@.len() ==> (#[trigger] self.sprites@[i]).wf()
        &&& forall|i: int|
            0 <= i < self.bounding_boxes@.len() ==> {
                let b = #[trigger] self.bounding_boxes@[i];
                &&& self.position.x <= b.position.x <= self.position.x + PIECE_LIMIT
                &&& coord_ok(b.position.y as int)
                &&& piece_ok(b.width as int)
                &&& piece_ok(b.height as int)
            }
    }

    /// Moving by `d` keeps every coordinate in the `i16` range.
    pub open spec fn can_move(self, d: int) -> bool {
        &&& i16::MIN <= self.position.x + d <= i16::MAX
        &&& forall|i: int|
            0 <= i < self.bounding_boxes@.len() ==> i16::MIN <= (#[trigger] self.bounding_boxes@[i]).position.x
                + d <= i16::MAX
    }

    /// The right edge of the last box, or 0 without boxes.
    pub open spec fn right_spec(self) -> int {
        if self.bounding_boxes@.len() == 0 {
            0
        } else {
            self.bounding_boxes@.last().right_spec()
        }
    }

    /// A platform at `position` drawn with the cells of `sheet` under
    /// `sprite_names` (names it lacks are skipped), whose collision boxes are
    /// `bounding_boxes` placed relative to `position`.
    pub fn new(sheet: &SpriteSheet, position: Point, sprite_names: &[&str], bounding_boxes: &[Rect]) -> (r:
        Platform)
        requires
            sheet.sheet.wf(),
            -15000 <= position.x <= 15000,
            -15000 <= position.y <= 15000,
            forall|i: int| 0 <= i < sprite_names@.len() ==> sheet.sheet.has((#[trigger] sprite_names@[i])@),
            forall|i: int|
                0 <= i < bounding_boxes@.len() ==> {
                    let b = #[trigger] bounding_boxes@[i];
                    &&& offset_ok(b.position.x as int)
                    &&& offset_ok(b.position.y as int)
                },
        ensures
            platform_shape_ok(bounding_boxes@, sprite_names@.len() as int) ==> r.wf(),
            r.image == sheet.image,
            r.position == position,
            r.sprites@ == found_cells(sheet.sheet, sprite_names@),
            r.sprites@.len() == sprite_names@.len(),
            r.bounding_boxes@.len() == bounding_boxes@.len(),
            forall|i: int|
                0 <= i < bounding_boxes@.len() ==> #[trigger] r.bounding_boxes@[i] == (Rect {
                    position: Point {
                        x: (bounding_boxes@[i].position.x + position.x) as i16,
                        y: (bounding_boxes@[i].position.y + position.y) as i16,
                    },
                    ..bounding_boxes@[i]
                }),
    {
        let mut sprites: Vec<Cell> = Vec::new();
        let mut i: usize = 0;
        while i < sprite_names.len()
            invariant
                0 <= i <= sprite_names@.len(),
                sheet.sheet.wf(),
                sprites@ == found_cells(sheet.sheet, sprite_names@.take(i as int)),
                sprites@.len() == i,
                forall|j: int| 0 <= j < sprite_names@.len() ==> sheet.sheet.has((#[trigger] sprite_names@[j])@),
                forall|j: int| 0 <= j < sprites@.len() ==> (#[trigger] sprites@[j]).wf(),
            decreases sprite_names@.len() - i,
        {
            assert(sprite_names@.take(i + 1).drop_last() == sprite_names@.take(i as int));
            let found = sheet.cell(sprite_names[i]);
            proof {
                sheet.sheet.lemma_cells_wf(sprite_names@[i as int]@);
            }
            match found {
                Some(cell) => sprites.push(cell),
                None => {},
            }
            i = i + 1;
        }
        assert(sprite_names@.take(sprite_names@.len() as int) == sprite_names@);
        let mut boxes: Vec<Rect> = Vec::new();
        let mut k: usize = 0;
        while k < bounding_boxes.len()
            invariant
                0 <= k <= bounding_boxes@.len(),
                -15000 <= position.x <= 15000,
                -15000 <= position.y <= 15000,
                forall|i: int|
                    0 <= i < bounding_boxes@.len() ==> {
                        let b = #[trigger] bounding_boxes@[i];
                        &&& offset_ok(b.position.x as int)
                        &&& offset_ok(b.position.y as int)
                    },
                boxes@.len() == k,
                forall|i: int|
                    0 <= i < k ==> #[trigger] boxes@[i] == (Rect {
                        position: Point {
                            x: (bounding_boxes@[i].position.x + position.x) as i16,
                            y: (bounding_boxes@[i].position.y + position.y) as i16,
                        },
                        ..bounding_boxes@[i]
                    }),
            decreases bounding_boxes@.len() - k,
        {
            let b = bounding_boxes[k];
            boxes.push(Rect::new_from_x_y(b.x() + position.x, b.y() + position.y, b.width, b.height));
            k = k + 1;
        }
        Platform { image: sheet.image, position, sprites, bounding_boxes: boxes }
    }

    pub fn bounding_boxes(&self) -> (r: &Vec<Rect>)
        ensures
            r@ == self.bounding_boxes@,
    {
        &self.bounding_boxes
    }

    /// Lands the character on the first box it touches if it comes down from
    /// above the platform's top; otherwise knocks it out.
    pub fn check_intersection(&self, boy: &mut RedHatBoy)
        requires
            self.wf(),
            old(boy).wf(),
        ensures
            platform_resolves(*self, *final(boy), *old(boy)),
            final(boy).wf(),
    {
        let boy_box = boy.bounding_box();
        let mut i: usize = 0;
        while i < self.bounding_boxes.len()
            invariant
                self.wf(),
                boy_box.wf(),
                boy.wf(),
                *boy == *old(boy),
                boy_box == old(boy).bounding_box_spec(),
                0 <= i <= self.bounding_boxes@.len(),
                forall|j: int| 0 <= j < i ==> !boy_box.intersects_spec(#[trigger] self.bounding_boxes@[j]),
            decreases self.bounding_boxes@.len() - i,
        {
            let b = self.bounding_boxes[i];
            if boy_box.intersects(&b) {
                proof {
                    lemma_first_hit_is(self.bounding_boxes@, boy_box, i as int);
                }
                if boy.velocity_y() > 0 && boy.pos_y() < self.position.y {
                    boy.land_on(b.y());
                } else {
                    boy.knock_out();
                }
                return;
            }
            i = i + 1;
        }
        proof {
            lemma_first_hit_is(self.bounding_boxes@, boy_box, i as int);
        }
    }

    /// The cells side by side from the platform's position, each at its own width.
    pub fn draw(&self) -> (r: Vec<Draw>)
        requires
            self.wf(),
        ensures
            r@ == platform_draws(*self),
    {
        let mut draws: Vec<Draw> = Vec::new();
        let mut x: i16 = 0;
        let mut i: usize = 0;
        while i < self.sprites.len()
            invariant
                self.wf(),
                0 <= i <= self.sprites@.len(),
                x == cells_width(self.sprites@, i as int),
                0 <= x <= 4000 * i,
                draws@ == platform_draws(*self).take(i as int),
            decreases self.sprites@.len() - i,
        {
            let c = self.sprites[i];
            assert(c.wf());
            draws.push(
                Draw {
                    image: self.image,
                    source: Rect::new_from_x_y(c.frame.x, c.frame.y, c.frame.w, c.frame.h),
                    destination: Rect::new_from_x_y(self.position.x + x, self.position.y, c.frame.w, c.frame.h),
                },
            );
            x = x + c.frame.w;
            i = i + 1;
            assert(draws@ =~= platform_draws(*self).take(i as int));
        }
        assert(platform_draws(*self).take(i as int) =~= platform_draws(*self));
        draws
    }

    /// The collision boxes, for debug drawing.
    pub fn draw_rect(&self) -> (r: Vec<Rect>)
        ensures
            r@ == self.bounding_boxes@,
    {
        let mut rects: Vec<Rect> = Vec::new();
        let mut i: usize = 0;
        while i < self.bounding_boxes.len()
            invariant
                0 <= i <= self.bounding_boxes@.len(),
                rects@ == self.bounding_boxes@.take(i as int),
            decreases self.bounding_boxes@.len() - i,
        {
            rects.push(self.bounding_boxes[i]);
            i = i + 1;
            assert(rects@ == self.bounding_boxes@.take(i as int));
        }
        assert(self.bounding_boxes@.take(i as int) == self.bounding_boxes@);
        rects
    }

    pub fn move_horizontally(&mut self, x: i16)
        requires
            old(self).can_move(x as int),
        ensures
            final(self).image == old(self).image,
            final(self).sprites == old(self).sprites,
            final(self).position == (Point { x: (old(self).position.x + x) as i16, y: old(self).position.y }),
            final(self).bounding_boxes@.len() == old(self).bounding_boxes@.len(),
            forall|i: int|
                0 <= i < old(self).bounding_boxes@.len() ==> #[trigger] final(self).bounding_boxes@[i]
                    == shifted(old(self).bounding_boxes@[i], x as int),
    {
        self.position.x = self.position.x + x;
        let ghost old_boxes = self.bounding_boxes@;
        let mut i: usize = 0;
        while i < self.bounding_boxes.len()
            invariant
                0 <= i <= self.bounding_boxes@.len(),
                self.bounding_boxes@.len() == old_boxes.len(),
                old_boxes == old(self).bounding_boxes@,
                self.image == old(self).image,
                self.sprites == old(self).sprites,
                self.position == (Point { x: (old(self).position.x + x) as i16, y: old(self).position.y }),
                forall|j: int|
                    0 <= j < old_boxes.len() ==> i16::MIN <= (#[trigger] old_boxes[j]).position.x + x <= i16::MAX,
                forall|j: int| 0 <= j < i ==> #[trigger] self.bounding_boxes@[j] == shifted(old_boxes[j], x as int),
                forall|j: int| i <= j < old_boxes.len() ==> #[trigger] self.bounding_boxes@[j] == old_boxes[j],
            decreases old_boxes.len() - i,
        {
            let mut b = self.bounding_boxes[i];
            b.set_x(b.x() + x);
            self.bounding_boxes.set(i, b);
            i = i + 1;
        }
    }

    pub fn right(&self) -> (r: i16)
        requires
            self.wf(),
        ensures
            r == self.right_spec(),
    {
        if self.bounding_boxes.len() == 0 {
            0
        } else {
            let last = self.bounding_boxes.len() - 1;
            assert(self.bounding_boxes@.last() == self.bounding_boxes@[last as int]);
            self.bounding_boxes[last].right()
        }
    }
}

impl Obstacle {
    pub open spec fn wf(self) -> bool {
        match self {
            Obstacle::Barrier(b) => b.wf(),
            Obstacle::Platform(p) => p.wf(),
        }
    }

    pub open spec fn right_spec(self) -> int {
        match self {
            Obstacle::Barrier(b) => b.image.right_spec(),
            Obstacle::Platform(p) => p.right_spec(),
        }
    }

    /// Where the obstacle starts: the barrier's box, the platform's position.
    pub open spec fn left_spec(self) -> int {
        match self {
            Obstacle::Barrier(b) => b.image.bounding_box.position.x as int,
            Obstacle::Platform(p) => p.position.x as int,
        }
    }

    /// `self` is `o` moved right by `d`.
    pub open spec fn is_moved(self, o: Obstacle, d: int) -> bool {
        match (self, o) {
            (Obstacle::Barrier(n), Obstacle::Barrier(b)) => {
                &&& n.image.asset == b.image.asset
                &&& n.image.bounding_box == shifted(b.image.bounding_box, d)
            },
            (Obstacle::Platform(n), Obstacle::Platform(p)) => {
                &&& n.image == p.image
                &&& n.sprites == p.sprites
                &&& n.position == (Point { x: (p.position.x + d) as i16, y: p.position.y })
                &&& n.bounding_boxes@.len() == p.bounding_boxes@.len()
                &&& forall|i: int|
                    0 <= i < p.bounding_boxes@.len() ==> #[trigger] n.bounding_boxes@[i] == shifted(
                        p.bounding_boxes@[i],
                        d,
                    )
            },
            _ => false,
        }
    }

    /// Moving by `d` keeps every coordinate in the `i16` range.
    pub open spec fn can_move(self, d: int) -> bool {
        match self {
            Obstacle::Barrier(b) => i16::MIN <= b.image.bounding_box.position.x + d <= i16::MAX,
            Obstacle::Platform(p) => p.can_move(d),
        }
    }

    /// What the obstacle draws, in order.
    pub open spec fn draws(self) -> Seq<Draw> {
        match self {
            Obstacle::Barrier(b) => seq![b.draw_spec()],
            Obstacle::Platform(p) => platform_draws(p),
        }
    }

    pub open spec fn resolves(self, boy: RedHatBoy, old_boy: RedHatBoy) -> bool {
        match self {
            Obstacle::Barrier(b) => barrier_resolves(b, boy, old_boy),
            Obstacle::Platform(p) => platform_resolves(p, boy, old_boy),
        }
    }

    pub fn check_intersection(&self, boy: &mut RedHatBoy)
        requires
            self.wf(),
            old(boy).wf(),
        ensures
            self.resolves(*final(boy), *old(boy)),
            final(boy).wf(),
    {
        match self {
            Obstacle::Barrier(b) => b.check_intersection(boy),
            Obstacle::Platform(p) => p.check_intersection(boy),
        }
    }

    pub fn draw(&self) -> (r: Vec<Draw>)
        requires
            self.wf(),
        ensures
            r@ == self.draws(),
    {
        match self {
            Obstacle::Barrier(b) => {
                let mut v: Vec<Draw> = Vec::new();
                v.push(b.draw());
                v
            },
            Obstacle::Platform(p) => p.draw(),
        }
    }

    pub fn draw_rect(&self) -> (r: Vec<Rect>)
        ensures
            self matches Obstacle::Barrier(b) ==> r@ == seq![b.image.bounding_box],
            self matches Obstacle::Platform(p) ==> r@ == p.bounding_boxes@,
    {
        match self {
            Obstacle::Barrier(b) => {
                let mut v: Vec<Rect> = Vec::new();
                v.push(b.draw_rect());
                v
            },
            Obstacle::Platform(p) => p.draw_rect(),
        }
    }

    pub fn move_horizontally(&mut self, x: i16)
        requires
            old(self).can_move(x as int),
        ensures
            final(self).is_moved(*old(self), x as int),
    {
        match self {
            Obstacle::Barrier(b) => b.move_horizontally(x),
            Obstacle::Platform(p) => p.move_horizontally(x),
        }
    }

    pub fn right(&self) -> (r: i16)
        requires
            self.wf(),
        ensures
            r == self.right_spec(),
    {
        match self {
            Obstacle::Barrier(b) => b.right(),
            Obstacle::Platform(p) => p.right(),
        }
    }

    /// An obstacle not yet past the left edge stays well-formed when the world scrolls
    /// left by at most a piece's width.
    pub proof fn lemma_moved_wf(self, o: Obstacle, d: int)
        requires
            o.wf(),
            o.right_spec() >= 0,
            -PIECE_LIMIT <= d <= 0,
            self.is_moved(o, d),
        ensures
            self.wf(),
            self.right_spec() == o.right_spec() + d,
    {
        match (self, o) {
            (Obstacle::Platform(n), Obstacle::Platform(p)) => {
                let last = p.bounding_boxes@.len() - 1;
                assert(n.bounding_boxes@[last] == shifted(p.bounding_boxes@[last], d));
                assert(p.bounding_boxes@[last].position.x <= p.position.x + PIECE_LIMIT);
                assert forall|i: int| 0 <= i < n.sprites@.len() implies (#[trigger] n.sprites@[i]).wf() by {
                    assert(n.sprites@[i] == p.sprites@[i]);
                }
                assert forall|i: int| 0 <= i < n.bounding_boxes@.len() implies {
                    let b = #[trigger] n.bounding_boxes@[i];
                    &&& n.position.x <= b.position.x <= n.position.x + PIECE_LIMIT
                    &&& coord_ok(b.position.y as int)
                    &&& piece_ok(b.width as int)
                    &&& piece_ok(b.height as int)
                } by {
                    assert(n.bounding_boxes@[i] == shifted(p.bounding_boxes@[i], d));
                }
            },
            _ => {},
        }
    }
}

/// The largest right edge among `s`, or 0 for none.
pub open spec fn max_right(s: Seq<Obstacle>) -> int
    decreases s.len(),
{
    if s.len() == 0 {
        0
    } else if s.len() == 1 {
        s[0].right_spec()
    } else {
        let r = max_right(s.drop_last());
        if s.last().right_spec() > r {
            s.last().right_spec()
        } else {
            r
        }
    }
}

/// The rightmost edge among the obstacles, 0 when there are none.
pub fn rightmost(obstacle_list: &Vec<Obstacle>) -> (r: i16)
    requires
        forall|i: int| 0 <= i < obstacle_list@.len() ==> (#[trigger] obstacle_list@[i]).wf(),
    ensures
        r == max_right(obstacle_list@),
{
    let mut best: i16 = 0;
    let mut i: usize = 0;
    while i < obstacle_list.len()
        invariant
            0 <= i <= obstacle_list@.len(),
            forall|j: int| 0 <= j < obstacle_list@.len() ==> (#[trigger] obstacle_list@[j]).wf(),
            best == max_right(obstacle_list@.take(i as int)),
        decreases obstacle_list@.len() - i,
    {
        let r = obstacle_list[i].right();
        assert(obstacle_list@.take(i + 1).drop_last() == obstacle_list@.take(i as int));
        if i == 0 || r > best {
            best = r;
        }
        i = i + 1;
    }
    assert(obstacle_list@.take(i as int) == obstacle_list@);
    best
}

/// A phase in which a collision acts on the character.
pub open spec fn collidable(p: Phase) -> bool {
    p == Phase::Running || p == Phase::Sliding || p == Phase::Jumping
}

/// A character that touches a platform while coming down (positive vertical
/// velocity) from above the platform's top lands on the box it touches: it
/// stands exactly one character height above that box's top, running (or
/// still sliding). Touching it the same way without coming down, it falls.
pub proof fn lemma_platform_landing(p: Platform, boy: RedHatBoy, after: RedHatBoy)
    requires
        p.wf(),
        boy.wf(),
        collidable(boy.model().0),
        platform_resolves(p, after, boy),
        first_hit(p.bounding_boxes@, boy.bounding_box_spec()) < p.bounding_boxes@.len(),
    ensures
        ({
            let top = p.bounding_boxes@[first_hit(p.bounding_boxes@, boy.bounding_box_spec())].position.y;
            let c = boy.model().1;
            &&& (c.velocity.y > 0 && c.position.y < p.position.y) ==> {
                &&& after.model().1.position.y == top - PLAYER_HEIGHT
                &&& after.model().0 == if boy.model().0 == Phase::Sliding {
                    Phase::Sliding
                } else {
                    Phase::Running
                }
            }
            &&& c.velocity.y <= 0 ==> after.model().0 == Phase::Falling
        }),
{
    lemma_first_hit_bounds(p.bounding_boxes@, boy.bounding_box_spec());
}

proof fn lemma_first_hit_bounds(boxes: Seq<Rect>, b: Rect)
    ensures
        0 <= first_hit(boxes, b) <= boxes.len(),
    decreases boxes.len(),
{
    if boxes.len() > 0 && !b.intersects_spec(boxes[0]) {
        lemma_first_hit_bounds(boxes.drop_first(), b);
    }
}

/// A character that touches a barrier while running, sliding or jumping,
/// whatever its velocity, falls, and lies knocked out once as many ticks as
/// the fall has frames have passed.
pub proof fn lemma_barrier_knocks_out(b: Barrier, boy: RedHatBoy, after: RedHatBoy, n: nat)
    requires
        b.wf(),
        boy.wf(),
        collidable(boy.model().0),
        boy.bounding_box_spec().intersects_spec(b.image.bounding_box),
        barrier_resolves(b, after, boy),
        n >= FALLING_FRAMES,
    ensures
        after.model().0 == Phase::Falling,
        forall|k: nat| 0 < k < FALLING_FRAMES ==> (#[trigger] updates(Phase::Falling, after.model().1, k)).0 == Phase::Falling,
        updates(Phase::Falling, after.model().1, n).0 == Phase::KnockedOut,
{
    assert(after.model().1.frame == 0);
    lemma_fall_ends(after.model().1, n);
    assert forall|k: nat| 0 < k < FALLING_FRAMES implies (#[trigger] updates(Phase::Falling, after.model().1, k)).0
        == Phase::Falling by {
        lemma_fall_ticks(after.model().1, k);
    }
}

/// A well-formed obstacle ends no further left than it starts.
pub proof fn lemma_right_of_left(o: Obstacle)
    requires
        o.wf(),
    ensures
        o.right_spec() >= o.left_spec(),
{
    if let Obstacle::Platform(p) = o {
        let last = p.bounding_boxes@.len() - 1;
        assert(p.bounding_boxes@.last() == p.bounding_boxes@[last]);
    }
}

proof fn lemma_max_right_at_most(a: Seq<Obstacle>, t: int)
    requires
        a.len() > 0,
        forall|i: int| 0 <= i < a.len() ==> (#[trigger] a[i]).right_spec() <= t,
    ensures
        max_right(a) <= t,
    decreases a.len(),
{
    if a.len() > 1 {
        lemma_max_right_at_most(a.drop_last(), t);
    }
}

/// Appending obstacles that all end beyond `t` to ones that all end at or
/// before `t`: the rightmost edge is that of the appended ones.
pub proof fn lemma_max_right_append(a: Seq<Obstacle>, b: Seq<Obstacle>, t: int)
    requires
        b.len() > 0,
        forall|i: int| 0 <= i < a.len() ==> (#[trigger] a[i]).right_spec() <= t,
        forall|i: int| 0 <= i < b.len() ==> (#[trigger] b[i]).right_spec() > t,
    ensures
        max_right(a + b) == max_right(b),
    decreases b.len(),
{
    assert((a + b).drop_last() =~= a + b.drop_last());
    assert((a + b).last() == b.last());
    if b.len() == 1 {
        assert(a + b.drop_last() =~= a);
        if a.len() > 0 {
            lemma_max_right_at_most(a, t);
        } else {
            assert(a + b =~= b);
        }
    } else {
        lemma_max_right_append(a, b.drop_last(), t);
    }
}

} // verus!
