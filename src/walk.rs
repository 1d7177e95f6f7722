use vstd::prelude::*;
use crate::character::RedHatBoy;
use crate::geometry::{Point, Rect};
use crate::obstacle::{lemma_max_right_append, lemma_right_of_left, max_right, rightmost, shifted, Obstacle};
use crate::red_hat_boy::RUNNING_SPEED;
use crate::segments::{
    has_platform_cells, is_segment, platform_and_stone, stone_and_platform, stone_ok, FIRST_PLATFORM, HIGH_PLATFORM,
    LOW_PLATFORM, PLATFORM_FIRST_OFFSET, STONE_FIRST_OFFSET, STONE_SECOND_OFFSET,
};
use crate::sprite::{Draw, Image, ImageAsset, SpriteSheet};

verus! {

/// Below this timeline the next segment is generated.
pub const TIMELINE_MINIMUM: i16 = 1000;

/// Gap between the timeline and the start of the next segment.
pub const OBSTACLE_BUFFER: i16 = 20;

/// Narrowest background that the wraparound keeps seamless.
pub const BACKGROUND_MIN_WIDTH: i16 = 8;

/// Widest background.
pub const BACKGROUND_MAX_WIDTH: i16 = 8000;

/// Relies on rand::random: a value drawn from the thread-local generator;
/// nothing is promised of it.
pub assume_specification<T>[ rand::random::<T> ]() -> (r: T)
    where
        rand::distributions::Standard: rand::distributions::Distribution<T>,
;

/// `img` moved right by `d`.
pub open spec fn image_moved(img: Image, d: int) -> Image {
    Image { bounding_box: shifted(img.bounding_box, d), ..img }
}

/// `img` with its left edge at `x`.
pub open spec fn image_at(img: Image, x: int) -> Image {
    Image { bounding_box: Rect { position: Point { x: x as i16, y: img.bounding_box.position.y }, ..img.bounding_box }, ..img }
}

/// Both backgrounds moved by `d`; one whose right edge has passed 0 goes
/// right after the other.
pub open spec fn scrolled(first: Image, second: Image, d: int) -> (Image, Image) {
    let f1 = image_moved(first, d);
    let s1 = image_moved(second, d);
    let f2 = if f1.right_spec() < 0 {
        image_at(f1, s1.right_spec())
    } else {
        f1
    };
    let s2 = if s1.right_spec() < 0 {
        image_at(s1, f2.right_spec())
    } else {
        s1
    };
    (f2, s2)
}

/// Two copies of one background side by side, the left one covering the
/// left edge of the view.
pub open spec fn backgrounds_wf(first: Image, second: Image) -> bool {
    let w = first.asset.width as int;
    &&& BACKGROUND_MIN_WIDTH <= w <= BACKGROUND_MAX_WIDTH
    &&& second.asset == first.asset
    &&& first.bounding_box.width == w
    &&& second.bounding_box.width == w
    &&& ({
        let fx = first.bounding_box.position.x as int;
        let sx = second.bounding_box.position.x as int;
        ||| (sx == fx + w && -w <= fx <= 0)
        ||| (fx == sx + w && -w <= sx <= 0)
    })
}

/// The obstacles of `s` whose right edge has not passed 0, in order.
pub open spec fn on_screen(s: Seq<Obstacle>) -> Seq<Obstacle>
    decreases s.len(),
{
    if s.len() == 0 {
        s
    } else {
        let rest = on_screen(s.drop_last());
        if s.last().right_spec() >= 0 {
            rest.push(s.last())
        } else {
            rest
        }
    }
}

/// `boys` is the character before and after meeting each of `obs` in turn.
pub open spec fn resolve_chain(obs: Seq<Obstacle>, boys: Seq<RedHatBoy>) -> bool {
    &&& boys.len() == obs.len() + 1
    &&& forall|i: int| 0 <= i < obs.len() ==> #[trigger] obs[i].resolves(boys[i + 1], boys[i])
}

/// A timeline that a level may hold.
pub open spec fn timeline_ok(t: int) -> bool {
    -15000 <= t <= 16000
}

/// The obstacles that generation appends for layout `choice` at `offset`.
pub open spec fn is_layout(s: Seq<Obstacle>, choice: u8, stone: ImageAsset, sheet: SpriteSheet, offset: int) -> bool {
    if choice == 0 {
        is_segment(s, stone, sheet, offset + STONE_FIRST_OFFSET, offset + FIRST_PLATFORM, LOW_PLATFORM)
    } else if choice == 1 {
        is_segment(s, stone, sheet, offset + STONE_SECOND_OFFSET, offset + PLATFORM_FIRST_OFFSET, HIGH_PLATFORM)
    } else {
        s.len() == 0
    }
}

/// The level: the character, two backgrounds, the obstacles in the order
/// they were generated, and the timeline, the right edge of what has been
/// generated.
#[derive(Debug)]
pub struct Walk {
    pub boy: RedHatBoy,
    pub backgrounds: [Image; 2],
    pub obstacles: Vec<Obstacle>,
    pub obstacle_sheet: SpriteSheet,
    pub stone: ImageAsset,
    pub timeline: i16,
}

/// `new` is `old` without the obstacles that have left the view, the others
/// moved by `d` and each, in order, having acted on the character.
pub open spec fn obstacles_updated(old: Walk, new: Walk, d: int) -> bool {
    &&& new.obstacles@.len() == on_screen(old.obstacles@).len()
    &&& forall|i: int|
        0 <= i < new.obstacles@.len() ==> #[trigger] new.obstacles@[i].is_moved(on_screen(old.obstacles@)[i], d)
    &&& exists|boys: Seq<RedHatBoy>|
        {
            &&& #[trigger] resolve_chain(new.obstacles@, boys)
            &&& boys[0] == old.boy
            &&& boys.last() == new.boy
        }
    &&& new.backgrounds == old.backgrounds
    &&& new.timeline == old.timeline
    &&& new.obstacle_sheet == old.obstacle_sheet
    &&& new.stone == old.stone
}

/// `new` is `old` with the segment of layout `choice` appended one buffer
/// beyond the old timeline, and the timeline at the right edge of what was
/// appended; no appended obstacle starts before that buffer.
pub open spec fn generated(old: Walk, new: Walk, choice: u8) -> bool {
    let old_len = old.obstacles@.len();
    let added = new.obstacles@.subrange(old_len as int, new.obstacles@.len() as int);
    &&& new.obstacles@.len() >= old_len
    &&& new.obstacles@.subrange(0, old_len as int) == old.obstacles@
    &&& is_layout(added, choice, old.stone, old.obstacle_sheet, old.timeline + OBSTACLE_BUFFER)
    &&& new.timeline == max_right(added)
    &&& forall|i: int| 0 <= i < added.len() ==> #[trigger] added[i].left_spec() >= old.timeline + OBSTACLE_BUFFER
    &&& new.boy == old.boy
    &&& new.backgrounds == old.backgrounds
    &&& new.obstacle_sheet == old.obstacle_sheet
    &&& new.stone == old.stone
}

proof fn lemma_layout_facts(s: Seq<Obstacle>, choice: u8, stone: ImageAsset, sheet: SpriteSheet, offset: int)
    requires
        is_layout(s, choice, stone, sheet, offset),
        -15000 <= offset <= 1020,
        stone_ok(stone),
    ensures
        forall|i: int| 0 <= i < s.len() ==> (#[trigger] s[i]).wf(),
        forall|i: int| 0 <= i < s.len() ==> #[trigger] s[i].left_spec() >= offset,
        timeline_ok(max_right(s)),
{
    if s.len() > 0 {
        assert(s[0].wf());
        assert(s[1].wf());
        assert(max_right(s.drop_last()) == s[0].right_spec());
    }
}

impl Walk {
    pub open spec fn wf(self) -> bool {
        &&& self.boy.wf()
        &&& backgrounds_wf(self.backgrounds[0], self.backgrounds[1])
        &&& forall|i: int| 0 <= i < self.obstacles@.len() ==> (#[trigger] self.obstacles@[i]).wf()
        &&& self.obstacle_sheet.sheet.wf()
        &&& has_platform_cells(self.obstacle_sheet.sheet)
        &&& stone_ok(self.stone)
        &&& timeline_ok(self.timeline as int)
    }

    /// A level at its start: backgrounds at 0 and one width to the right, a
    /// stone-then-platform segment at 0, the timeline at its right edge.
    pub fn new(boy: RedHatBoy, background: ImageAsset, obstacle_sheet: SpriteSheet, stone: ImageAsset) -> (r: Walk)
        requires
            boy.wf(),
            BACKGROUND_MIN_WIDTH <= background.width <= BACKGROUND_MAX_WIDTH,
            obstacle_sheet.sheet.wf(),
            has_platform_cells(obstacle_sheet.sheet),
            stone_ok(stone),
        ensures
            r.wf(),
            r.boy == boy,
            r.backgrounds[0] == Image::new_spec(background, Point { x: 0, y: 0 }),
            r.backgrounds[1] == Image::new_spec(background, Point { x: background.width, y: 0 }),
            is_layout(r.obstacles@, 0, stone, obstacle_sheet, 0),
            r.timeline == max_right(r.obstacles@),
            r.obstacle_sheet == obstacle_sheet,
            r.stone == stone,
    {
        let obstacles = stone_and_platform(stone, &obstacle_sheet, 0);
        proof {
            lemma_layout_facts(obstacles@, 0, stone, obstacle_sheet, 0);
        }
        let timeline = rightmost(&obstacles);
        let first = Image::new(background, Point { x: 0, y: 0 });
        let second = Image::new(background, Point { x: background.width, y: 0 });
        Walk { boy, backgrounds: [first, second], obstacles, obstacle_sheet, stone, timeline }
    }

    /// The speed at which the world scrolls: against the character's run.
    pub fn velocity(&self) -> (r: i16)
        requires
            self.wf(),
        ensures
            r == -self.boy.model().1.velocity.x,
            r == 0 || r == -RUNNING_SPEED,
    {
        -self.boy.walking_speed()
    }

    pub fn knocked_out(&self) -> (r: bool)
        ensures
            r == (self.boy.model().0 == crate::red_hat_boy::Phase::KnockedOut),
    {
        self.boy.knocked_out()
    }

    /// Scrolls both backgrounds by `distance`, moving one that has left the
    /// view to the right of the other.
    pub fn scroll_backgrounds(&mut self, distance: i16)
        requires
            old(self).wf(),
            -RUNNING_SPEED <= distance <= 0,
        ensures
            final(self).wf(),
            (final(self).backgrounds[0], final(self).backgrounds[1]) == scrolled(
                old(self).backgrounds[0],
                old(self).backgrounds[1],
                distance as int,
            ),
            final(self).boy == old(self).boy,
            final(self).obstacles == old(self).obstacles,
            final(self).timeline == old(self).timeline,
            final(self).obstacle_sheet == old(self).obstacle_sheet,
            final(self).stone == old(self).stone,
    {
        let mut first = self.backgrounds[0];
        let mut second = self.backgrounds[1];
        first.move_horizontally(distance);
        second.move_horizontally(distance);
        if first.right() < 0 {
            first.set_x(second.right());
        }
        if second.right() < 0 {
            second.set_x(first.right());
        }
        self.backgrounds = [first, second];
    }

    /// Drops the obstacles that have left the view, then moves each of the
    /// others by `distance` and lets it act on the character, in order.
    pub fn update_obstacles(&mut self, distance: i16)
        requires
            old(self).wf(),
            -RUNNING_SPEED <= distance <= 0,
        ensures
            final(self).wf(),
            obstacles_updated(*old(self), *final(self), distance as int),
    {
        let ghost orig = self.obstacles@;
        let mut rest: Vec<Obstacle> = Vec::new();
        std::mem::swap(&mut rest, &mut self.obstacles);
        let ghost mut boys: Seq<RedHatBoy> = seq![self.boy];
        let mut k: usize = 0;
        let n = rest.len();
        while k < n
            invariant
                n == orig.len(),
                0 <= k <= n,
                rest@ == orig.subrange(k as int, n as int),
                forall|j: int| 0 <= j < orig.len() ==> (#[trigger] orig[j]).wf(),
                -RUNNING_SPEED <= distance <= 0,
                self.obstacles@.len() == on_screen(orig.take(k as int)).len(),
                forall|j: int|
                    0 <= j < self.obstacles@.len() ==> #[trigger] self.obstacles@[j].is_moved(
                        on_screen(orig.take(k as int))[j],
                        distance as int,
                    ),
                forall|j: int| 0 <= j < self.obstacles@.len() ==> (#[trigger] self.obstacles@[j]).wf(),
                resolve_chain(self.obstacles@, boys),
                boys[0] == old(self).boy,
                boys.last() == self.boy,
                self.boy.wf(),
                self.backgrounds == old(self).backgrounds,
                self.timeline == old(self).timeline,
                self.obstacle_sheet == old(self).obstacle_sheet,
                self.stone == old(self).stone,
                backgrounds_wf(self.backgrounds[0], self.backgrounds[1]),
                self.obstacle_sheet.sheet.wf(),
                has_platform_cells(self.obstacle_sheet.sheet),
                stone_ok(self.stone),
                timeline_ok(self.timeline as int),
            decreases n - k,
        {
            let mut o = rest.remove(0);
            assert(o == orig[k as int]);
            assert(orig.take(k + 1).drop_last() == orig.take(k as int));
            assert(orig.take(k + 1).last() == orig[k as int]);
            if o.right() >= 0 {
                let ghost before = o;
                o.move_horizontally(distance);
                proof {
                    o.lemma_moved_wf(before, distance as int);
                }
                let ghost boy_before = self.boy;
                o.check_intersection(&mut self.boy);
                let ghost prev = self.obstacles@;
                self.obstacles.push(o);
                proof {
                    let nb = boys.push(self.boy);
                    assert forall|j: int| 0 <= j < self.obstacles@.len() implies #[trigger] self.obstacles@[j].resolves(
                        nb[j + 1],
                        nb[j],
                    ) by {
                        if j < prev.len() {
                            assert(self.obstacles@[j] == prev[j]);
                            assert(prev[j].resolves(boys[j + 1], boys[j]));
                        }
                    }
                    boys = nb;
                }
            }
            proof {
                assert(rest@ =~= orig.subrange(k + 1, n as int));
            }
            k = k + 1;
        }
        assert(orig.take(n as int) == orig);
    }

    /// Appends the segment of layout `choice` (0: stone then platform, 1:
    /// platform then stone, otherwise none) one buffer beyond the timeline,
    /// and moves the timeline to its right edge.
    pub fn generate_segment(&mut self, choice: u8)
        requires
            old(self).wf(),
            old(self).timeline < TIMELINE_MINIMUM,
        ensures
            final(self).wf(),
            generated(*old(self), *final(self), choice),
    {
        let offset = self.timeline + OBSTACLE_BUFFER;
        let mut next_obstacles = if choice == 0 {
            stone_and_platform(self.stone, &self.obstacle_sheet, offset)
        } else if choice == 1 {
            platform_and_stone(self.stone, &self.obstacle_sheet, offset)
        } else {
            Vec::new()
        };
        proof {
            if next_obstacles@.len() > 0 {
                assert(next_obstacles@[0].wf());
                assert(next_obstacles@[1].wf());
            }
        }
        let timeline = rightmost(&next_obstacles);
        let ghost added = next_obstacles@;
        let ghost before = self.obstacles@;
        self.timeline = timeline;
        self.obstacles.append(&mut next_obstacles);
        proof {
            assert(self.obstacles@.subrange(before.len() as int, self.obstacles@.len() as int) == added);
            assert(self.obstacles@.subrange(0, before.len() as int) == before);
            assert forall|i: int| 0 <= i < self.obstacles@.len() implies (#[trigger] self.obstacles@[i]).wf() by {
                if i >= before.len() {
                    assert(self.obstacles@[i] == added[i - before.len()]);
                }
            }
            if added.len() > 0 {
                assert(max_right(added.drop_last()) == added[0].right_spec());
            }
        }
    }

    /// Appends a segment of a layout chosen at random, one buffer beyond the
    /// timeline, and moves the timeline to its right edge.
    pub fn generate_next_segment(&mut self)
        requires
            old(self).wf(),
            old(self).timeline < TIMELINE_MINIMUM,
        ensures
            final(self).wf(),
            exists|choice: u8| choice < 2 && #[trigger] generated(*old(self), *final(self), choice),
    {
        let platform_first: bool = rand::random::<bool>();
        let choice: u8 = if platform_first {
            1
        } else {
            0
        };
        self.generate_segment(choice);
    }

    /// Moves the timeline with the world.
    pub fn advance_timeline(&mut self, distance: i16)
        requires
            old(self).wf(),
            old(self).timeline >= TIMELINE_MINIMUM,
            -RUNNING_SPEED <= distance <= 0,
        ensures
            final(self).wf(),
            final(self).timeline == old(self).timeline + distance,
            final(self).boy == old(self).boy,
            final(self).backgrounds == old(self).backgrounds,
            final(self).obstacles == old(self).obstacles,
            final(self).obstacle_sheet == old(self).obstacle_sheet,
            final(self).stone == old(self).stone,
    {
        self.timeline = self.timeline + distance;
    }

    /// The level after a game over: a fresh character, a stone-then-platform
    /// segment at 0 and the timeline at its right edge; the backgrounds stay.
    pub fn reset(walk: Walk) -> (r: Walk)
        requires
            walk.wf(),
        ensures
            r.wf(),
            r.boy.model().0 == crate::red_hat_boy::Phase::Idle,
            r.boy.model().1 == (crate::red_hat_boy::RedHatBoyContext {
                frame: 0,
                position: Point { x: crate::red_hat_boy::STARTING_POINT, y: crate::red_hat_boy::FLOOR },
                velocity: Point { x: 0, y: 0 },
                jump_sound: walk.boy.model().1.jump_sound,
            }),
            r.boy.sprite_sheet == walk.boy.sprite_sheet,
            r.boy.image == walk.boy.image,
            r.boy.sounds@ == Seq::<crate::red_hat_boy::Sound>::empty(),
            r.backgrounds == walk.backgrounds,
            is_layout(r.obstacles@, 0, walk.stone, walk.obstacle_sheet, 0),
            r.timeline == max_right(r.obstacles@),
            r.obstacle_sheet == walk.obstacle_sheet,
            r.stone == walk.stone,
    {
        let starting_obstacles = stone_and_platform(walk.stone, &walk.obstacle_sheet, 0);
        proof {
            lemma_layout_facts(starting_obstacles@, 0, walk.stone, walk.obstacle_sheet, 0);
        }
        let timeline = rightmost(&starting_obstacles);
        Walk {
            boy: RedHatBoy::reset(walk.boy),
            backgrounds: walk.backgrounds,
            obstacles: starting_obstacles,
            obstacle_sheet: walk.obstacle_sheet,
            stone: walk.stone,
            timeline,
        }
    }

    /// What to draw, back to front: the backgrounds, the character, the
    /// obstacles.
    pub fn draw(&self) -> (r: Vec<Draw>)
        requires
            self.wf(),
        ensures
            r@ == walk_draws(*self),
    {
        let mut draws: Vec<Draw> = Vec::new();
        draws.push(draw_background(&self.backgrounds[0]));
        draws.push(draw_background(&self.backgrounds[1]));
        draws.push(self.boy.draw());
        let ghost head = draws@;
        assert(obstacles_draws(self.obstacles@.take(0)) =~= Seq::<Draw>::empty());
        let mut i: usize = 0;
        while i < self.obstacles.len()
            invariant
                self.wf(),
                0 <= i <= self.obstacles@.len(),
                head == seq![
                    background_draw(self.backgrounds[0]),
                    background_draw(self.backgrounds[1]),
                    self.boy.draw_spec(),
                ],
                draws@ == head + obstacles_draws(self.obstacles@.take(i as int)),
            decreases self.obstacles@.len() - i,
        {
            let mut more = self.obstacles[i].draw();
            assert(self.obstacles@.take(i + 1).drop_last() == self.obstacles@.take(i as int));
            assert(self.obstacles@.take(i + 1).last() == self.obstacles@[i as int]);
            draws.append(&mut more);
            i = i + 1;
            assert(draws@ =~= head + obstacles_draws(self.obstacles@.take(i as int)));
        }
        assert(self.obstacles@.take(i as int) == self.obstacles@);
        draws
    }
}

/// Where every obstacle placed so far ends at or before the timeline, a
/// generated segment moves the timeline at least one buffer further, to the
/// rightmost edge of all obstacles.
pub proof fn lemma_generated_rightmost(old: Walk, new: Walk, choice: u8)
    requires
        old.wf(),
        new.wf(),
        choice < 2,
        generated(old, new, choice),
        forall|i: int| 0 <= i < old.obstacles@.len() ==> (#[trigger] old.obstacles@[i]).right_spec() <= old.timeline,
    ensures
        new.timeline == max_right(new.obstacles@),
        new.timeline >= old.timeline + OBSTACLE_BUFFER,
{
    let old_len = old.obstacles@.len();
    let added = new.obstacles@.subrange(old_len as int, new.obstacles@.len() as int);
    assert(new.obstacles@ =~= new.obstacles@.subrange(0, old_len as int) + added);
    assert(added.len() == 2);
    assert forall|i: int| 0 <= i < added.len() implies (#[trigger] added[i]).right_spec() > old.timeline by {
        assert(added[i] == new.obstacles@[old_len + i]);
        lemma_right_of_left(added[i]);
    }
    lemma_max_right_append(old.obstacles@, added, old.timeline as int);
    assert(added[1] == added.last());
    lemma_right_of_left(added[1]);
    assert(max_right(added.drop_last()) == added[0].right_spec());
}

/// The draws of `s`, one obstacle after another.
pub open spec fn obstacles_draws(s: Seq<Obstacle>) -> Seq<Draw>
    decreases s.len(),
{
    if s.len() == 0 {
        Seq::empty()
    } else {
        obstacles_draws(s.drop_last()) + s.last().draws()
    }
}

/// Everything a level draws, back to front: both backgrounds, the
/// character, then every obstacle in order.
pub open spec fn walk_draws(w: Walk) -> Seq<Draw> {
    seq![background_draw(w.backgrounds[0]), background_draw(w.backgrounds[1]), w.boy.draw_spec()]
        + obstacles_draws(w.obstacles@)
}

/// A background drawn whole over its box.
pub open spec fn background_draw(img: Image) -> Draw {
    Draw {
        image: img.asset,
        source: Rect { position: Point { x: 0, y: 0 }, width: img.asset.width, height: img.asset.height },
        destination: img.bounding_box,
    }
}

fn draw_background(img: &Image) -> (r: Draw)
    ensures
        r == background_draw(*img),
{
    Draw {
        image: img.asset,
        source: Rect::new_from_x_y(0, 0, img.asset.width, img.asset.height),
        destination: img.bounding_box,
    }
}

} // verus!
