use vstd::prelude::*;
use crate::geometry::{Point, Rect};
use crate::red_hat_boy::{
    event_ok, frame_limit_of, label_of, land_ok, lemma_rise_bounds, step, Event, Phase,
    RedHatBoyContext, RedHatBoyStateMachine, Sound, FALLING_FRAMES, FALL_FRAME_NAME, FLOOR, LOWEST_Y,
    IDLE_FRAMES, IDLE_FRAME_NAME, JUMPING_FRAMES, JUMP_FRAME_NAME, RUNNING_FRAMES, RUN_FRAME_NAME,
    SLIDING_FRAMES, SLIDE_FRAME_NAME, STARTING_POINT,
};
use crate::sprite::{Cell, Draw, ImageAsset, Sheet, SheetRect, SHEET_LIMIT};

verus! {

/// The decimal digits of `n`, without leading zeros.
pub open spec fn decimal(n: nat) -> Seq<char>
    decreases n,
{
    if n < 10 {
        seq![digit_char(n)]
    } else {
        decimal(n / 10) + seq![digit_char(n % 10)]
    }
}

pub open spec fn digit_char(d: nat) -> char {
    ((d + '0' as nat) as u32) as char
}

/// Relies on `u8`'s `Display` (through `ToString::to_string`): the value in
/// decimal digits, without sign or leading zeros.
#[verifier::external_body]
fn decimal_string(n: u8) -> (r: String)
    ensures
        r@ == decimal(n as nat),
{
    n.to_string()
}

/// The sprite name of frame counter `frame` in phase `p`: the animation
/// advances one picture every three ticks, pictures counted from 1.
pub open spec fn frame_name_of(p: Phase, frame: int) -> Seq<char> {
    label_of(p) + " ("@ + decimal((frame / 3 + 1) as nat) + ").png"@
}

/// The sheet holds a picture for every frame counter of every phase.
pub open spec fn covers_animations(sheet: Sheet) -> bool {
    forall|p: Phase, k: int| 0 <= k <= frame_limit_of(p) ==> #[trigger] sheet.has(frame_name_of(p, k))
}

pub open spec fn covers_phase(sheet: Sheet, p: Phase) -> bool {
    forall|k: int| 0 <= k <= frame_limit_of(p) ==> #[trigger] sheet.has(frame_name_of(p, k))
}

fn frame_name_for(label: &str, frame: u8) -> (r: String)
    ensures
        r@ == label@ + " ("@ + decimal((frame / 3 + 1) as nat) + ").png"@,
{
    let mut name = String::from_str(label);
    name.append(" (");
    let digits = decimal_string(frame / 3 + 1);
    name.append(digits.as_str());
    name.append(").png");
    name
}

fn phase_label(p: Phase) -> (r: &'static str)
    ensures
        r@ == label_of(p),
{
    match p {
        Phase::Idle => IDLE_FRAME_NAME,
        Phase::Running => RUN_FRAME_NAME,
        Phase::Sliding => SLIDE_FRAME_NAME,
        Phase::Jumping => JUMP_FRAME_NAME,
        _ => FALL_FRAME_NAME,
    }
}

fn phase_frames(p: Phase) -> (r: u8)
    ensures
        r == frame_limit_of(p),
{
    match p {
        Phase::Idle => IDLE_FRAMES,
        Phase::Running => RUNNING_FRAMES,
        Phase::Sliding => SLIDING_FRAMES,
        Phase::Jumping => JUMPING_FRAMES,
        _ => FALLING_FRAMES,
    }
}

fn sheet_covers_phase(sheet: &Sheet, p: Phase) -> (r: bool)
    ensures
        r == covers_phase(*sheet, p),
{
    let limit = phase_frames(p);
    let label = phase_label(p);
    let mut k: u8 = 0;
    while k <= limit
        invariant
            limit == frame_limit_of(p),
            label@ == label_of(p),
            k <= limit + 1,
            forall|j: int| 0 <= j < k ==> #[trigger] sheet.has(frame_name_of(p, j)),
        decreases limit + 1 - k,
    {
        let name = frame_name_for(label, k);
        if sheet.cell(name.as_str()).is_none() {
            assert(!sheet.has(frame_name_of(p, k as int)));
            return false;
        }
        k = k + 1;
    }
    true
}

/// Whether `sheet` holds a picture for every frame of the character.
pub fn has_animation_frames(sheet: &Sheet) -> (r: bool)
    ensures
        r == covers_animations(*sheet),
{
    let r = sheet_covers_phase(sheet, Phase::Idle) && sheet_covers_phase(sheet, Phase::Running)
        && sheet_covers_phase(sheet, Phase::Sliding) && sheet_covers_phase(sheet, Phase::Jumping)
        && sheet_covers_phase(sheet, Phase::Falling) && sheet_covers_phase(sheet, Phase::KnockedOut);
    proof {
        if r {
            assert forall|p: Phase, k: int| 0 <= k <= frame_limit_of(p) implies #[trigger] sheet.has(
                frame_name_of(p, k),
            ) by {
                assert(covers_phase(*sheet, p));
            }
        }
    }
    r
}

/// Horizontal inset of the collision box from the drawn sprite.
pub const X_OFFSET: i16 = 18;

/// Vertical inset of the collision box from the drawn sprite.
pub const Y_OFFSET: i16 = 14;

/// How much narrower the collision box is than the drawn sprite.
pub const WIDTH_OFFSET: i16 = 28;

/// Where a sprite cell is drawn for a character at `position`.
pub open spec fn destination_of(position: Point, cell: Cell) -> Rect {
    Rect {
        position: Point {
            x: (position.x + cell.sprite_source_size.x) as i16,
            y: (position.y + cell.sprite_source_size.y) as i16,
        },
        width: cell.frame.w,
        height: cell.frame.h,
    }
}

/// The collision box: the drawn box less fixed insets.
pub open spec fn collision_box_of(d: Rect) -> Rect {
    Rect {
        position: Point { x: (d.position.x + X_OFFSET) as i16, y: (d.position.y + Y_OFFSET) as i16 },
        width: (d.width - WIDTH_OFFSET) as i16,
        height: (d.height - Y_OFFSET) as i16,
    }
}

/// The playable character: its state machine, the sheet it is drawn from, and
/// the sounds it has asked to be played since they were last taken.
#[derive(Debug)]
pub struct RedHatBoy {
    pub state_machine: RedHatBoyStateMachine,
    pub sprite_sheet: Sheet,
    pub image: ImageAsset,
    pub sounds: Vec<Sound>,
}

impl RedHatBoy {
    pub open spec fn wf(self) -> bool {
        &&& self.state_machine.wf()
        &&& self.sprite_sheet.wf()
        &&& covers_animations(self.sprite_sheet)
    }

    pub open spec fn model(self) -> (Phase, RedHatBoyContext) {
        (self.state_machine.phase_spec(), self.state_machine.ctx())
    }

    pub open spec fn frame_name_spec(self) -> Seq<char> {
        frame_name_of(self.state_machine.phase_spec(), self.state_machine.ctx().frame as int)
    }

    pub open spec fn cell_spec(self) -> Cell {
        self.sprite_sheet.cell_spec(self.frame_name_spec())->Some_0
    }

    pub open spec fn destination_box_spec(self) -> Rect {
        destination_of(self.state_machine.ctx().position, self.cell_spec())
    }

    pub open spec fn bounding_box_spec(self) -> Rect {
        collision_box_of(self.destination_box_spec())
    }

    /// The current picture, drawn at the character's position.
    pub open spec fn draw_spec(self) -> Draw {
        Draw {
            image: self.image,
            source: Rect {
                position: Point { x: self.cell_spec().frame.x, y: self.cell_spec().frame.y },
                width: self.cell_spec().frame.w,
                height: self.cell_spec().frame.h,
            },
            destination: self.destination_box_spec(),
        }
    }

    /// The same character with its state machine replaced.
    pub open spec fn moved_to(self, next: (Phase, RedHatBoyContext), old_boy: RedHatBoy) -> bool {
        &&& self.model() == next
        &&& self.sprite_sheet == old_boy.sprite_sheet
        &&& self.image == old_boy.image
    }

    /// An idle character at the starting point, drawn from `sheet`.
    pub fn new(sheet: Sheet, image: ImageAsset, jump_sound: Sound) -> (r: RedHatBoy)
        requires
            sheet.wf(),
            covers_animations(sheet),
        ensures
            r.wf(),
            r.model() == (Phase::Idle, RedHatBoyContext {
                frame: 0,
                position: Point { x: STARTING_POINT, y: FLOOR },
                velocity: Point { x: 0, y: 0 },
                jump_sound,
            }),
            r.sprite_sheet == sheet,
            r.image == image,
            r.sounds@ == Seq::<Sound>::empty(),
    {
        RedHatBoy {
            state_machine: RedHatBoyStateMachine::new(jump_sound),
            sprite_sheet: sheet,
            image,
            sounds: Vec::new(),
        }
    }

    /// The same character, fresh: idle at the starting point again.
    pub fn reset(boy: RedHatBoy) -> (r: RedHatBoy)
        requires
            boy.wf(),
        ensures
            r.wf(),
            r.model() == (Phase::Idle, RedHatBoyContext {
                frame: 0,
                position: Point { x: STARTING_POINT, y: FLOOR },
                velocity: Point { x: 0, y: 0 },
                jump_sound: boy.state_machine.ctx().jump_sound,
            }),
            r.sprite_sheet == boy.sprite_sheet,
            r.image == boy.image,
            r.sounds@ == Seq::<Sound>::empty(),
    {
        let jump_sound = boy.state_machine.context().jump_sound;
        RedHatBoy::new(boy.sprite_sheet, boy.image, jump_sound)
    }

    /// The name of the picture that shows the character now.
    pub fn frame_name(&self) -> (r: String)
        ensures
            r@ == self.frame_name_spec(),
    {
        frame_name_for(self.state_machine.frame_name(), self.state_machine.context().frame)
    }

    pub fn current_sprite(&self) -> (r: Option<Cell>)
        ensures
            r == self.sprite_sheet.cell_spec(self.frame_name_spec()),
    {
        let name = self.frame_name();
        self.sprite_sheet.cell(name.as_str())
    }

    fn sprite(&self) -> (r: Cell)
        requires
            self.wf(),
        ensures
            r == self.cell_spec(),
            r.wf(),
    {
        proof {
            assert(self.sprite_sheet.has(self.frame_name_spec()));
            self.sprite_sheet.lemma_cells_wf(self.frame_name_spec());
        }
        match self.current_sprite() {
            Some(cell) => cell,
            None => {
                proof {
                    assert(false);
                }
                Cell {
                    frame: SheetRect { x: 0, y: 0, w: 0, h: 0 },
                    sprite_source_size: SheetRect { x: 0, y: 0, w: 0, h: 0 },
                }
            },
        }
    }

    /// Where the current picture is drawn.
    pub fn destination_box(&self) -> (r: Rect)
        requires
            self.wf(),
        ensures
            r == self.destination_box_spec(),
            r.wf(),
            LOWEST_Y <= r.position.x <= 20000,
            LOWEST_Y <= r.position.y <= 20000,
            0 <= r.width <= SHEET_LIMIT,
            0 <= r.height <= SHEET_LIMIT,
    {
        let sprite = self.sprite();
        let position = self.state_machine.context().position;
        proof {
            lemma_rise_bounds(self.state_machine.ctx().velocity.y as int);
        }
        Rect::new_from_x_y(
            position.x + sprite.sprite_source_size.x,
            position.y + sprite.sprite_source_size.y,
            sprite.frame.w,
            sprite.frame.h,
        )
    }

    /// The box that collides with obstacles.
    pub fn bounding_box(&self) -> (r: Rect)
        requires
            self.wf(),
        ensures
            r == self.bounding_box_spec(),
            r.wf(),
    {
        let d = self.destination_box();
        Rect::new_from_x_y(d.x() + X_OFFSET, d.y() + Y_OFFSET, d.width - WIDTH_OFFSET, d.height - Y_OFFSET)
    }

    /// The draw of the current picture at the character's position.
    pub fn draw(&self) -> (r: Draw)
        requires
            self.wf(),
        ensures
            r == self.draw_spec(),
    {
        let sprite = self.sprite();
        Draw {
            image: self.image,
            source: Rect::new_from_x_y(sprite.frame.x, sprite.frame.y, sprite.frame.w, sprite.frame.h),
            destination: self.destination_box(),
        }
    }

    /// The collision box, for debug drawing.
    pub fn draw_rect(&self) -> (r: Rect)
        requires
            self.wf(),
        ensures
            r == self.bounding_box_spec(),
    {
        self.bounding_box()
    }

    pub fn knocked_out(&self) -> (r: bool)
        ensures
            r == (self.model().0 == Phase::KnockedOut),
    {
        self.state_machine.knocked_out()
    }

    pub fn pos_y(&self) -> (r: i16)
        ensures
            r == self.model().1.position.y,
    {
        self.state_machine.context().position.y
    }

    pub fn velocity_y(&self) -> (r: i16)
        ensures
            r == self.model().1.velocity.y,
    {
        self.state_machine.context().velocity.y
    }

    pub fn walking_speed(&self) -> (r: i16)
        ensures
            r == self.model().1.velocity.x,
    {
        self.state_machine.context().velocity.x
    }

    pub fn phase(&self) -> (r: Phase)
        ensures
            r == self.model().0,
    {
        self.state_machine.phase()
    }

    fn apply(&mut self, event: Event)
        requires
            old(self).wf(),
            event_ok(event),
        ensures
            final(self).wf(),
            final(self).moved_to(step(old(self).model().0, old(self).model().1, event), *old(self)),
            final(self).sounds == old(self).sounds,
    {
        self.state_machine = self.state_machine.transition(event);
    }

    pub fn update(&mut self)
        requires
            old(self).wf(),
        ensures
            final(self).wf(),
            final(self).moved_to(step(old(self).model().0, old(self).model().1, Event::Update), *old(self)),
            final(self).sounds == old(self).sounds,
    {
        self.apply(Event::Update);
    }

    pub fn run_right(&mut self)
        requires
            old(self).wf(),
        ensures
            final(self).wf(),
            final(self).moved_to(step(old(self).model().0, old(self).model().1, Event::Run), *old(self)),
            final(self).sounds == old(self).sounds,
    {
        self.apply(Event::Run);
    }

    pub fn slide(&mut self)
        requires
            old(self).wf(),
        ensures
            final(self).wf(),
            final(self).moved_to(step(old(self).model().0, old(self).model().1, Event::Slide), *old(self)),
            final(self).sounds == old(self).sounds,
    {
        self.apply(Event::Slide);
    }

    /// Jumps where the phase allows it, and then asks for the jump sound.
    pub fn jump(&mut self)
        requires
            old(self).wf(),
        ensures
            final(self).wf(),
            final(self).moved_to(step(old(self).model().0, old(self).model().1, Event::Jump), *old(self)),
            final(self).sounds@ == if old(self).model().0 == Phase::Running {
                old(self).sounds@.push(old(self).model().1.jump_sound)
            } else {
                old(self).sounds@
            },
    {
        let was_running = matches!(self.state_machine, RedHatBoyStateMachine::Running(_));
        self.apply(Event::Jump);
        if was_running {
            let sound = self.state_machine.context().jump_sound;
            self.sounds.push(sound);
        }
    }

    pub fn land_on(&mut self, position: i16)
        requires
            old(self).wf(),
            land_ok(position as int),
        ensures
            final(self).wf(),
            final(self).moved_to(step(old(self).model().0, old(self).model().1, Event::Land(position)), *old(self)),
            final(self).sounds == old(self).sounds,
    {
        self.apply(Event::Land(position));
    }

    pub fn knock_out(&mut self)
        requires
            old(self).wf(),
        ensures
            final(self).wf(),
            final(self).moved_to(step(old(self).model().0, old(self).model().1, Event::KnockOut), *old(self)),
            final(self).sounds == old(self).sounds,
    {
        self.apply(Event::KnockOut);
    }

    /// Hands out the sounds asked for so far, oldest first, and forgets them.
    pub fn take_sounds(&mut self) -> (r: Vec<Sound>)
        ensures
            r@ == old(self).sounds@,
            final(self).sounds@ == Seq::<Sound>::empty(),
            final(self).state_machine == old(self).state_machine,
            final(self).sprite_sheet == old(self).sprite_sheet,
            final(self).image == old(self).image,
    {
        let mut taken: Vec<Sound> = Vec::new();
        std::mem::swap(&mut taken, &mut self.sounds);
        taken
    }
}

} // verus!
