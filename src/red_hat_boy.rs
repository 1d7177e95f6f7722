use vstd::prelude::*;
use crate::geometry::{Point, coord_ok};

verus! {

/// Height of the playing field.
pub const HEIGHT: i16 = 600;

/// The character's y-position when it stands on the ground.
pub const FLOOR: i16 = 479;

pub const PLAYER_HEIGHT: i16 = HEIGHT - FLOOR;

pub const GRAVITY: i16 = 1;

pub const TERMINAL_VELOCITY: i16 = 20;

pub const STARTING_POINT: i16 = -20;

pub const RUNNING_SPEED: i16 = 4;

pub const JUMP_SPEED: i16 = -25;

pub const IDLE_FRAMES: u8 = 29;

pub const RUNNING_FRAMES: u8 = 23;

pub const SLIDING_FRAMES: u8 = 14;

pub const JUMPING_FRAMES: u8 = 35;

pub const FALLING_FRAMES: u8 = 29;

pub const IDLE_FRAME_NAME: &'static str = "Idle";

pub const RUN_FRAME_NAME: &'static str = "Run";

pub const SLIDE_FRAME_NAME: &'static str = "Slide";

pub const JUMP_FRAME_NAME: &'static str = "Jump";

pub const FALL_FRAME_NAME: &'static str = "Dead";

/// Lowest y-position that the character's context is kept above, with room
/// for the rise of a jump.
pub const LOWEST_Y: i16 = -17000;

/// Height that one jump can still add to the rise, in a phase that may jump.
pub const JUMP_RESERVE: i16 = 300;

/// A handle to a loaded sound.
#[derive(Clone, Copy, Debug, PartialEq, Eq, Structural)]
pub struct Sound {
    pub id: u32,
}

/// How far the character still rises, under gravity, from vertical velocity `v`.
pub open spec fn rise(v: int) -> int
    decreases -v,
{
    if v >= -1 {
        0
    } else {
        rise(v + 1) - (v + 1)
    }
}

pub proof fn lemma_rise_bounds(v: int)
    requires
        JUMP_SPEED <= v,
    ensures
        0 <= rise(v) <= rise(JUMP_SPEED as int),
        rise(JUMP_SPEED as int) == JUMP_RESERVE,
    decreases -v,
{
    reveal_with_fuel(rise, 26);
    if v < -1 {
        lemma_rise_bounds(v + 1);
        lemma_rise_monotone(v);
    }
}

proof fn lemma_rise_monotone(v: int)
    requires
        JUMP_SPEED <= v,
    ensures
        rise(v) <= rise(JUMP_SPEED as int),
    decreases v - JUMP_SPEED,
{
    if v > JUMP_SPEED {
        lemma_rise_monotone(v - 1);
        lemma_rise_nonneg(v - 1);
        if v >= 0 {
            assert(rise(v) == 0);
        } else {
            assert(rise(v - 1) == rise(v) - v);
        }
    }
}

proof fn lemma_rise_nonneg(v: int)
    ensures
        rise(v) >= 0,
    decreases -v,
{
    if v < -1 {
        lemma_rise_nonneg(v + 1);
    }
}

/// The physics and animation payload that every phase carries.
#[derive(Clone, Copy, Debug, PartialEq, Eq, Structural)]
pub struct RedHatBoyContext {
    pub frame: u8,
    pub position: Point,
    pub velocity: Point,
    pub jump_sound: Sound,
}

impl RedHatBoyContext {
    /// Bounds that every phase keeps: `reserve` is the rise that a later
    /// jump may still add, `frame_limit` the phase's frame count.
    pub open spec fn wf(self, reserve: int, frame_limit: int) -> bool {
        &&& self.position.y <= COORD_LIMIT_Y
        &&& self.position.y - rise(self.velocity.y as int) - reserve >= LOWEST_Y
        &&& JUMP_SPEED <= self.velocity.y <= TERMINAL_VELOCITY
        &&& (self.velocity.x == 0 || self.velocity.x == RUNNING_SPEED)
        &&& coord_ok(self.position.x as int)
        &&& self.frame <= frame_limit
    }

    /// The vertical move of one tick stays in the `i16` range.
    pub open spec fn fits_tick(self) -> bool {
        let vy = if self.velocity.y < TERMINAL_VELOCITY {
            self.velocity.y + GRAVITY
        } else {
            self.velocity.y as int
        };
        i16::MIN <= self.position.y + vy <= i16::MAX
    }

    /// One tick: gravity up to the terminal velocity, the frame counter
    /// wrapping after `frame_count`, vertical motion clamped at the floor.
    pub open spec fn updated(self, frame_count: u8) -> RedHatBoyContext {
        let vy = if self.velocity.y < TERMINAL_VELOCITY {
            (self.velocity.y + GRAVITY) as i16
        } else {
            self.velocity.y
        };
        let frame = if self.frame < frame_count {
            (self.frame + 1) as u8
        } else {
            0u8
        };
        let y = if self.position.y + vy > FLOOR {
            FLOOR
        } else {
            (self.position.y + vy) as i16
        };
        RedHatBoyContext {
            frame,
            position: Point { x: self.position.x, y },
            velocity: Point { x: self.velocity.x, y: vy },
            jump_sound: self.jump_sound,
        }
    }

    pub open spec fn with_frame(self, frame: u8) -> RedHatBoyContext {
        RedHatBoyContext { frame, ..self }
    }

    pub open spec fn with_velocity_x(self, x: i16) -> RedHatBoyContext {
        RedHatBoyContext { velocity: Point { x, y: self.velocity.y }, ..self }
    }

    pub open spec fn with_velocity_y(self, y: i16) -> RedHatBoyContext {
        RedHatBoyContext { velocity: Point { x: self.velocity.x, y }, ..self }
    }

    /// Standing on a surface at height `position`.
    pub open spec fn placed_on(self, position: i16) -> RedHatBoyContext {
        RedHatBoyContext {
            position: Point { x: self.position.x, y: (position - PLAYER_HEIGHT) as i16 },
            ..self
        }
    }

    pub proof fn lemma_update_wf(self, frame_count: u8, reserve: int)
        requires
            self.wf(reserve, 255),
            0 <= reserve <= JUMP_RESERVE,
        ensures
            self.updated(frame_count).wf(reserve, frame_count as int),
            self.updated(frame_count).position.y <= FLOOR,
    {
        lemma_rise_bounds(self.velocity.y as int);
        let n = self.updated(frame_count);
        lemma_rise_bounds(n.velocity.y as int);
        if self.velocity.y < TERMINAL_VELOCITY && self.velocity.y < -1 {
            assert(rise(self.velocity.y as int) == rise(n.velocity.y as int) - n.velocity.y);
        }
    }

    pub fn update(self, frame_count: u8) -> (r: RedHatBoyContext)
        requires
            self.fits_tick(),
        ensures
            r == self.updated(frame_count),
    {
        let mut c = self;
        if c.velocity.y < TERMINAL_VELOCITY {
            c.velocity.y = c.velocity.y + GRAVITY;
        }
        if c.frame < frame_count {
            c.frame = c.frame + 1;
        } else {
            c.frame = 0;
        }
        c.position.y = c.position.y + c.velocity.y;
        if c.position.y > FLOOR {
            c.position.y = FLOOR;
        }
        c
    }

    fn set_vertical_velocity(self, y: i16) -> (r: RedHatBoyContext)
        ensures
            r == self.with_velocity_y(y),
    {
        let mut c = self;
        c.velocity.y = y;
        c
    }

    fn reset_frame(self) -> (r: RedHatBoyContext)
        ensures
            r == self.with_frame(0),
    {
        let mut c = self;
        c.frame = 0;
        c
    }

    fn run_right(self) -> (r: RedHatBoyContext)
        ensures
            r == self.with_velocity_x(RUNNING_SPEED),
    {
        let mut c = self;
        c.velocity.x = RUNNING_SPEED;
        c
    }

    fn stop(self) -> (r: RedHatBoyContext)
        ensures
            r == self.with_velocity_x(0),
    {
        let mut c = self;
        c.velocity.x = 0;
        c
    }

    fn set_on(self, position: i16) -> (r: RedHatBoyContext)
        requires
            surface_ok(position as int),
        ensures
            r == self.placed_on(position),
    {
        let mut c = self;
        c.position.y = position - PLAYER_HEIGHT;
        c
    }
}

/// Highest y-position that a context may hold (below the floor only after
/// landing on something low).
pub const COORD_LIMIT_Y: i16 = 16000;

/// A surface height that a context can be placed on without leaving the
/// `i16` range.
pub open spec fn surface_ok(p: int) -> bool {
    i16::MIN + PLAYER_HEIGHT <= p
}

/// A surface height that the character may be placed on.
pub open spec fn land_ok(p: int) -> bool {
    coord_ok(p)
}

#[derive(Clone, Copy, Debug, PartialEq, Eq, Structural)]
pub struct Idle;

#[derive(Clone, Copy, Debug, PartialEq, Eq, Structural)]
pub struct Running;

#[derive(Clone, Copy, Debug, PartialEq, Eq, Structural)]
pub struct Sliding;

#[derive(Clone, Copy, Debug, PartialEq, Eq, Structural)]
pub struct Jumping;

#[derive(Clone, Copy, Debug, PartialEq, Eq, Structural)]
pub struct Falling;

#[derive(Clone, Copy, Debug, PartialEq, Eq, Structural)]
pub struct KnockedOut;

/// The character in phase `S`, owning its context.
#[derive(Clone, Copy, Debug, PartialEq, Eq, Structural)]
pub struct RedHatBoyState<S> {
    pub context: RedHatBoyContext,
    pub state: S,
}

impl<S> RedHatBoyState<S> {
    pub fn context(&self) -> (r: &RedHatBoyContext)
        ensures
            *r == self.context,
    {
        &self.context
    }
}

impl RedHatBoyState<Idle> {
    /// Standing at the starting point on the floor, at rest.
    pub fn new(jump_sound: Sound) -> (r: RedHatBoyState<Idle>)
        ensures
            r.context == (RedHatBoyContext {
                frame: 0,
                position: Point { x: STARTING_POINT, y: FLOOR },
                velocity: Point { x: 0, y: 0 },
                jump_sound,
            }),
    {
        RedHatBoyState {
            context: RedHatBoyContext {
                frame: 0,
                position: Point { x: STARTING_POINT, y: FLOOR },
                velocity: Point { x: 0, y: 0 },
                jump_sound,
            },
            state: Idle,
        }
    }

    pub fn run(self) -> (r: RedHatBoyState<Running>)
        ensures
            r.context == self.context.with_frame(0).with_velocity_x(RUNNING_SPEED),
    {
        RedHatBoyState { context: self.context.reset_frame().run_right(), state: Running }
    }

    pub fn update(self) -> (r: RedHatBoyState<Idle>)
        requires
            self.context.fits_tick(),
        ensures
            r.context == self.context.updated(IDLE_FRAMES),
    {
        RedHatBoyState { context: self.context.update(IDLE_FRAMES), state: Idle }
    }

    pub fn frame_name(&self) -> (r: &'static str)
        ensures
            r@ == IDLE_FRAME_NAME@,
    {
        IDLE_FRAME_NAME
    }
}

impl RedHatBoyState<Running> {
    pub fn frame_name(&self) -> (r: &'static str)
        ensures
            r@ == RUN_FRAME_NAME@,
    {
        RUN_FRAME_NAME
    }

    pub fn update(self) -> (r: RedHatBoyState<Running>)
        requires
            self.context.fits_tick(),
        ensures
            r.context == self.context.updated(RUNNING_FRAMES),
    {
        RedHatBoyState { context: self.context.update(RUNNING_FRAMES), state: Running }
    }

    pub fn slide(self) -> (r: RedHatBoyState<Sliding>)
        ensures
            r.context == self.context.with_frame(0),
    {
        RedHatBoyState { context: self.context.reset_frame(), state: Sliding }
    }

    /// Takes off; the caller plays the context's jump sound.
    pub fn jump(self) -> (r: RedHatBoyState<Jumping>)
        ensures
            r.context == self.context.with_velocity_y(JUMP_SPEED).with_frame(0),
    {
        RedHatBoyState {
            context: self.context.set_vertical_velocity(JUMP_SPEED).reset_frame(),
            state: Jumping,
        }
    }

    pub fn knock_out(self) -> (r: RedHatBoyState<Falling>)
        ensures
            r.context == self.context.with_frame(0).with_velocity_x(0),
    {
        RedHatBoyState { context: self.context.reset_frame().stop(), state: Falling }
    }

    pub fn land_on(self, position: i16) -> (r: RedHatBoyState<Running>)
        requires
            surface_ok(position as int),
        ensures
            r.context == self.context.placed_on(position),
    {
        RedHatBoyState { context: self.context.set_on(position), state: Running }
    }
}

impl RedHatBoyState<Sliding> {
    pub fn frame_name(&self) -> (r: &'static str)
        ensures
            r@ == SLIDE_FRAME_NAME@,
    {
        SLIDE_FRAME_NAME
    }

    /// Slides on, or stands up once the slide animation has played.
    pub fn update(self) -> (r: SlidingEndState)
        requires
            self.context.fits_tick(),
        ensures
            ({
                let c = self.context.updated(SLIDING_FRAMES);
                if c.frame >= SLIDING_FRAMES {
                    r matches SlidingEndState::Complete(n) && n.context == c.with_frame(0)
                } else {
                    r matches SlidingEndState::Sliding(n) && n.context == c
                }
            }),
    {
        let s = RedHatBoyState { context: self.context.update(SLIDING_FRAMES), state: Sliding };
        if s.context.frame >= SLIDING_FRAMES {
            SlidingEndState::Complete(s.stand())
        } else {
            SlidingEndState::Sliding(s)
        }
    }

    pub fn stand(self) -> (r: RedHatBoyState<Running>)
        ensures
            r.context == self.context.with_frame(0),
    {
        RedHatBoyState { context: self.context.reset_frame(), state: Running }
    }

    pub fn knock_out(self) -> (r: RedHatBoyState<Falling>)
        ensures
            r.context == self.context.with_frame(0).with_velocity_x(0),
    {
        RedHatBoyState { context: self.context.reset_frame().stop(), state: Falling }
    }

    pub fn land_on(self, position: i16) -> (r: RedHatBoyState<Sliding>)
        requires
            surface_ok(position as int),
        ensures
            r.context == self.context.placed_on(position),
    {
        RedHatBoyState { context: self.context.set_on(position), state: Sliding }
    }
}

impl RedHatBoyState<Jumping> {
    pub fn frame_name(&self) -> (r: &'static str)
        ensures
            r@ == JUMP_FRAME_NAME@,
    {
        JUMP_FRAME_NAME
    }

    /// Flies on, or runs on from the floor once it is reached.
    pub fn update(self) -> (r: JumpingEndState)
        requires
            self.context.fits_tick(),
        ensures
            ({
                let c = self.context.updated(JUMPING_FRAMES);
                if c.position.y >= FLOOR {
                    r matches JumpingEndState::Complete(n) && n.context == c.with_frame(0).placed_on(HEIGHT)
                } else {
                    r matches JumpingEndState::Jumping(n) && n.context == c
                }
            }),
    {
        let s = RedHatBoyState { context: self.context.update(JUMPING_FRAMES), state: Jumping };
        if s.context.position.y >= FLOOR {
            JumpingEndState::Complete(s.land_on(HEIGHT))
        } else {
            JumpingEndState::Jumping(s)
        }
    }

    pub fn land(self) -> (r: RedHatBoyState<Running>)
        ensures
            r.context == self.context.with_frame(0),
    {
        RedHatBoyState { context: self.context.reset_frame(), state: Running }
    }

    pub fn land_on(self, position: i16) -> (r: RedHatBoyState<Running>)
        requires
            surface_ok(position as int),
        ensures
            r.context == self.context.with_frame(0).placed_on(position),
    {
        RedHatBoyState { context: self.context.reset_frame().set_on(position), state: Running }
    }

    pub fn knock_out(self) -> (r: RedHatBoyState<Falling>)
        ensures
            r.context == self.context.with_frame(0).with_velocity_x(0),
    {
        RedHatBoyState { context: self.context.reset_frame().stop(), state: Falling }
    }
}

impl RedHatBoyState<Falling> {
    pub fn frame_name(&self) -> (r: &'static str)
        ensures
            r@ == FALL_FRAME_NAME@,
    {
        FALL_FRAME_NAME
    }

    /// Falls on, or lies knocked out once the fall animation has played.
    pub fn update(self) -> (r: FallingEndState)
        requires
            self.context.fits_tick(),
        ensures
            ({
                let c = self.context.updated(FALLING_FRAMES);
                if c.frame >= FALLING_FRAMES {
                    r matches FallingEndState::KnockedOut(n) && n.context == c
                } else {
                    r matches FallingEndState::Falling(n) && n.context == c
                }
            }),
    {
        let s = RedHatBoyState { context: self.context.update(FALLING_FRAMES), state: Falling };
        if s.context.frame >= FALLING_FRAMES {
            FallingEndState::KnockedOut(s.knock_out())
        } else {
            FallingEndState::Falling(s)
        }
    }

    pub fn knock_out(self) -> (r: RedHatBoyState<KnockedOut>)
        ensures
            r.context == self.context,
    {
        RedHatBoyState { context: self.context, state: KnockedOut }
    }
}

impl RedHatBoyState<KnockedOut> {
    pub fn frame_name(&self) -> (r: &'static str)
        ensures
            r@ == FALL_FRAME_NAME@,
    {
        FALL_FRAME_NAME
    }
}

pub enum SlidingEndState {
    Complete(RedHatBoyState<Running>),
    Sliding(RedHatBoyState<Sliding>),
}

pub enum JumpingEndState {
    Complete(RedHatBoyState<Running>),
    Jumping(RedHatBoyState<Jumping>),
}

pub enum FallingEndState {
    KnockedOut(RedHatBoyState<KnockedOut>),
    Falling(RedHatBoyState<Falling>),
}

/// The phase that a character is in.
#[derive(Clone, Copy, Debug, PartialEq, Eq, Structural)]
pub enum Phase {
    Idle,
    Running,
    Sliding,
    Jumping,
    Falling,
    KnockedOut,
}

/// What may happen to the character.
#[derive(Clone, Copy, Debug, PartialEq, Eq, Structural)]
pub enum Event {
    Run,
    Slide,
    Update,
    Jump,
    KnockOut,
    Land(i16),
}

/// The rise that a later jump may still add, in each phase.
pub open spec fn reserve_of(p: Phase) -> int {
    match p {
        Phase::Idle | Phase::Running | Phase::Sliding => JUMP_RESERVE as int,
        _ => 0,
    }
}

/// The frame count of each phase's animation.
pub open spec fn frame_limit_of(p: Phase) -> int {
    match p {
        Phase::Idle => IDLE_FRAMES as int,
        Phase::Running => RUNNING_FRAMES as int,
        Phase::Sliding => SLIDING_FRAMES as int,
        Phase::Jumping => JUMPING_FRAMES as int,
        _ => FALLING_FRAMES as int,
    }
}

/// The events that a phase reacts to; every other event leaves the character
/// as it is.
pub open spec fn accepts(p: Phase, e: Event) -> bool {
    match (p, e) {
        (Phase::Idle, Event::Run) => true,
        (Phase::Idle, Event::Update) => true,
        (Phase::Running, Event::Slide) => true,
        (Phase::Running, Event::Jump) => true,
        (Phase::Running, Event::Update) => true,
        (Phase::Running, Event::KnockOut) => true,
        (Phase::Running, Event::Land(_)) => true,
        (Phase::Sliding, Event::Update) => true,
        (Phase::Sliding, Event::KnockOut) => true,
        (Phase::Sliding, Event::Land(_)) => true,
        (Phase::Jumping, Event::Update) => true,
        (Phase::Jumping, Event::KnockOut) => true,
        (Phase::Jumping, Event::Land(_)) => true,
        (Phase::Falling, Event::Update) => true,
        _ => false,
    }
}

/// The transition table: phase and context after event `e`.
pub open spec fn step(p: Phase, c: RedHatBoyContext, e: Event) -> (Phase, RedHatBoyContext) {
    if !accepts(p, e) {
        (p, c)
    } else {
        match (p, e) {
            (Phase::Idle, Event::Run) => (Phase::Running, c.with_frame(0).with_velocity_x(RUNNING_SPEED)),
            (Phase::Idle, Event::Update) => (Phase::Idle, c.updated(IDLE_FRAMES)),
            (Phase::Running, Event::Slide) => (Phase::Sliding, c.with_frame(0)),
            (Phase::Running, Event::Jump) => (Phase::Jumping, c.with_velocity_y(JUMP_SPEED).with_frame(0)),
            (Phase::Running, Event::Update) => (Phase::Running, c.updated(RUNNING_FRAMES)),
            (Phase::Running, Event::Land(y)) => (Phase::Running, c.placed_on(y)),
            (Phase::Sliding, Event::Update) => {
                let n = c.updated(SLIDING_FRAMES);
                if n.frame >= SLIDING_FRAMES {
                    (Phase::Running, n.with_frame(0))
                } else {
                    (Phase::Sliding, n)
                }
            },
            (Phase::Sliding, Event::Land(y)) => (Phase::Sliding, c.placed_on(y)),
            (Phase::Jumping, Event::Update) => {
                let n = c.updated(JUMPING_FRAMES);
                if n.position.y >= FLOOR {
                    (Phase::Running, n.with_frame(0).placed_on(HEIGHT))
                } else {
                    (Phase::Jumping, n)
                }
            },
            (Phase::Jumping, Event::Land(y)) => (Phase::Running, c.with_frame(0).placed_on(y)),
            (Phase::Falling, Event::Update) => {
                let n = c.updated(FALLING_FRAMES);
                if n.frame >= FALLING_FRAMES {
                    (Phase::KnockedOut, n)
                } else {
                    (Phase::Falling, n)
                }
            },
            (_, _) => (Phase::Falling, c.with_frame(0).with_velocity_x(0)),
        }
    }
}

/// An event that the character can take: a surface to land on lies in the world.
pub open spec fn event_ok(e: Event) -> bool {
    e matches Event::Land(y) ==> land_ok(y as int)
}

/// The character's typed phase together with its context.
#[derive(Clone, Copy, Debug)]
pub enum RedHatBoyStateMachine {
    Idle(RedHatBoyState<Idle>),
    Running(RedHatBoyState<Running>),
    Sliding(RedHatBoyState<Sliding>),
    Jumping(RedHatBoyState<Jumping>),
    Falling(RedHatBoyState<Falling>),
    KnockedOut(RedHatBoyState<KnockedOut>),
}

impl RedHatBoyStateMachine {
    pub open spec fn phase_spec(self) -> Phase {
        match self {
            RedHatBoyStateMachine::Idle(_) => Phase::Idle,
            RedHatBoyStateMachine::Running(_) => Phase::Running,
            RedHatBoyStateMachine::Sliding(_) => Phase::Sliding,
            RedHatBoyStateMachine::Jumping(_) => Phase::Jumping,
            RedHatBoyStateMachine::Falling(_) => Phase::Falling,
            RedHatBoyStateMachine::KnockedOut(_) => Phase::KnockedOut,
        }
    }

    pub open spec fn ctx(self) -> RedHatBoyContext {
        match self {
            RedHatBoyStateMachine::Idle(s) => s.context,
            RedHatBoyStateMachine::Running(s) => s.context,
            RedHatBoyStateMachine::Sliding(s) => s.context,
            RedHatBoyStateMachine::Jumping(s) => s.context,
            RedHatBoyStateMachine::Falling(s) => s.context,
            RedHatBoyStateMachine::KnockedOut(s) => s.context,
        }
    }

    /// The context keeps the bounds of its phase.
    pub open spec fn wf(self) -> bool {
        self.ctx().wf(reserve_of(self.phase_spec()), frame_limit_of(self.phase_spec()))
    }

    /// A fresh character, idle at the starting point.
    pub fn new(jump_sound: Sound) -> (r: RedHatBoyStateMachine)
        ensures
            r.phase_spec() == Phase::Idle,
            r.ctx() == (RedHatBoyContext {
                frame: 0,
                position: Point { x: STARTING_POINT, y: FLOOR },
                velocity: Point { x: 0, y: 0 },
                jump_sound,
            }),
            r.wf(),
    {
        proof {
            lemma_rise_bounds(0);
        }
        RedHatBoyStateMachine::Idle(RedHatBoyState::<Idle>::new(jump_sound))
    }

    pub fn phase(&self) -> (r: Phase)
        ensures
            r == self.phase_spec(),
    {
        match self {
            RedHatBoyStateMachine::Idle(_) => Phase::Idle,
            RedHatBoyStateMachine::Running(_) => Phase::Running,
            RedHatBoyStateMachine::Sliding(_) => Phase::Sliding,
            RedHatBoyStateMachine::Jumping(_) => Phase::Jumping,
            RedHatBoyStateMachine::Falling(_) => Phase::Falling,
            RedHatBoyStateMachine::KnockedOut(_) => Phase::KnockedOut,
        }
    }

    /// Applies one event; an event that the phase does not accept changes
    /// nothing.
    pub fn transition(self, event: Event) -> (r: RedHatBoyStateMachine)
        requires
            self.wf(),
            accepts(self.phase_spec(), event) ==> event_ok(event),
        ensures
            (r.phase_spec(), r.ctx()) == step(self.phase_spec(), self.ctx(), event),
            !accepts(self.phase_spec(), event) ==> r == self,
            r.wf(),
    {
        proof {
            lemma_rise_bounds(self.ctx().velocity.y as int);
            let p = self.phase_spec();
            if event is Update {
                self.ctx().lemma_update_wf(IDLE_FRAMES, reserve_of(p));
                self.ctx().lemma_update_wf(RUNNING_FRAMES, reserve_of(p));
                self.ctx().lemma_update_wf(SLIDING_FRAMES, reserve_of(p));
                self.ctx().lemma_update_wf(JUMPING_FRAMES, reserve_of(p));
                self.ctx().lemma_update_wf(FALLING_FRAMES, reserve_of(p));
            }
        }
        match (self, event) {
            (RedHatBoyStateMachine::Idle(s), Event::Run) => RedHatBoyStateMachine::Running(s.run()),
            (RedHatBoyStateMachine::Running(s), Event::Slide) => RedHatBoyStateMachine::Sliding(s.slide()),
            (RedHatBoyStateMachine::Idle(s), Event::Update) => RedHatBoyStateMachine::Idle(s.update()),
            (RedHatBoyStateMachine::Running(s), Event::Update) => RedHatBoyStateMachine::Running(s.update()),
            (RedHatBoyStateMachine::Sliding(s), Event::Update) => match s.update() {
                SlidingEndState::Complete(n) => RedHatBoyStateMachine::Running(n),
                SlidingEndState::Sliding(n) => RedHatBoyStateMachine::Sliding(n),
            },
            (RedHatBoyStateMachine::Running(s), Event::Jump) => RedHatBoyStateMachine::Jumping(s.jump()),
            (RedHatBoyStateMachine::Jumping(s), Event::Update) => match s.update() {
                JumpingEndState::Complete(n) => RedHatBoyStateMachine::Running(n),
                JumpingEndState::Jumping(n) => RedHatBoyStateMachine::Jumping(n),
            },
            (RedHatBoyStateMachine::Running(s), Event::KnockOut) => RedHatBoyStateMachine::Falling(s.knock_out()),
            (RedHatBoyStateMachine::Sliding(s), Event::KnockOut) => RedHatBoyStateMachine::Falling(s.knock_out()),
            (RedHatBoyStateMachine::Jumping(s), Event::KnockOut) => RedHatBoyStateMachine::Falling(s.knock_out()),
            (RedHatBoyStateMachine::Falling(s), Event::Update) => match s.update() {
                FallingEndState::KnockedOut(n) => RedHatBoyStateMachine::KnockedOut(n),
                FallingEndState::Falling(n) => RedHatBoyStateMachine::Falling(n),
            },
            (RedHatBoyStateMachine::Jumping(s), Event::Land(y)) => RedHatBoyStateMachine::Running(s.land_on(y)),
            (RedHatBoyStateMachine::Running(s), Event::Land(y)) => RedHatBoyStateMachine::Running(s.land_on(y)),
            (RedHatBoyStateMachine::Sliding(s), Event::Land(y)) => RedHatBoyStateMachine::Sliding(s.land_on(y)),
            (other, _) => other,
        }
    }

    /// The label of the phase's animation.
    pub fn frame_name(&self) -> (r: &'static str)
        ensures
            r@ == label_of(self.phase_spec()),
    {
        match self {
            RedHatBoyStateMachine::Idle(s) => s.frame_name(),
            RedHatBoyStateMachine::Running(s) => s.frame_name(),
            RedHatBoyStateMachine::Sliding(s) => s.frame_name(),
            RedHatBoyStateMachine::Jumping(s) => s.frame_name(),
            RedHatBoyStateMachine::Falling(s) => s.frame_name(),
            RedHatBoyStateMachine::KnockedOut(s) => s.frame_name(),
        }
    }

    pub fn context(&self) -> (r: &RedHatBoyContext)
        ensures
            *r == self.ctx(),
    {
        match self {
            RedHatBoyStateMachine::Idle(s) => s.context(),
            RedHatBoyStateMachine::Running(s) => s.context(),
            RedHatBoyStateMachine::Sliding(s) => s.context(),
            RedHatBoyStateMachine::Jumping(s) => s.context(),
            RedHatBoyStateMachine::Falling(s) => s.context(),
            RedHatBoyStateMachine::KnockedOut(s) => s.context(),
        }
    }

    pub fn knocked_out(&self) -> (r: bool)
        ensures
            r == (self.phase_spec() == Phase::KnockedOut),
    {
        matches!(self, RedHatBoyStateMachine::KnockedOut(_))
    }

    pub fn update(self) -> (r: RedHatBoyStateMachine)
        requires
            self.wf(),
        ensures
            (r.phase_spec(), r.ctx()) == step(self.phase_spec(), self.ctx(), Event::Update),
            r.wf(),
    {
        self.transition(Event::Update)
    }
}

/// The animation label of each phase.
pub open spec fn label_of(p: Phase) -> Seq<char> {
    match p {
        Phase::Idle => IDLE_FRAME_NAME@,
        Phase::Running => RUN_FRAME_NAME@,
        Phase::Sliding => SLIDE_FRAME_NAME@,
        Phase::Jumping => JUMP_FRAME_NAME@,
        _ => FALL_FRAME_NAME@,
    }
}

/// Phase and context after `n` ticks without other events.
pub open spec fn updates(p: Phase, c: RedHatBoyContext, n: nat) -> (Phase, RedHatBoyContext)
    decreases n,
{
    if n == 0 {
        (p, c)
    } else {
        let (q, d) = step(p, c, Event::Update);
        updates(q, d, (n - 1) as nat)
    }
}

/// An idle or running character counts its frame up by one each tick, from
/// its current frame to the phase's frame count, and is back at frame 0 on
/// the tick after that; it stays in its phase throughout.
pub proof fn lemma_frame_cycle(p: Phase, c: RedHatBoyContext, n: nat)
    requires
        p == Phase::Idle || p == Phase::Running,
        c.frame <= frame_limit_of(p),
        c.frame + n <= frame_limit_of(p) + 1,
    ensures
        updates(p, c, n).0 == p,
        updates(p, c, n).1.frame == if c.frame + n <= frame_limit_of(p) {
            c.frame + n
        } else {
            0
        },
    decreases n,
{
    if n > 0 {
        let (q, d) = step(p, c, Event::Update);
        assert(updates(p, c, n) == updates(q, d, (n - 1) as nat));
        assert(q == p);
        if c.frame < frame_limit_of(p) {
            assert(d.frame == c.frame + 1);
            lemma_frame_cycle(q, d, (n - 1) as nat);
        } else {
            assert(d.frame == 0);
            assert(n == 1);
            assert(updates(q, d, 0) == (q, d));
        }
    }
}

/// A sliding character's frame never passes the slide's frame count.
pub proof fn lemma_slide_frames(c: RedHatBoyContext)
    requires
        c.wf(reserve_of(Phase::Sliding), frame_limit_of(Phase::Sliding)),
    ensures
        ({
            let (q, d) = step(Phase::Sliding, c, Event::Update);
            d.frame <= SLIDING_FRAMES && (q == Phase::Sliding || (q == Phase::Running && d.frame == 0))
        }),
{
}

/// One tick of a jump that started on or above the floor: the character
/// moves up while its new vertical velocity is negative and down while it is
/// positive; it stays airborne until it reaches the floor, and there it runs
/// on from frame 0, standing exactly on the floor.
pub proof fn lemma_jump_tick(c: RedHatBoyContext)
    requires
        c.wf(reserve_of(Phase::Jumping), frame_limit_of(Phase::Jumping)),
        c.position.y <= FLOOR,
    ensures
        ({
            let (q, d) = step(Phase::Jumping, c, Event::Update);
            let v = c.updated(JUMPING_FRAMES).velocity.y;
            &&& d.velocity.y == v
            &&& (q == Phase::Jumping || q == Phase::Running)
            &&& (q == Phase::Jumping <==> c.position.y + v < FLOOR)
            &&& (v < 0 ==> q == Phase::Jumping && d.position.y < c.position.y)
            &&& (v > 0 && q == Phase::Jumping ==> d.position.y > c.position.y)
            &&& (q == Phase::Running ==> d.position.y == FLOOR && d.frame == 0)
            &&& d.position.y <= FLOOR
        }),
{
    lemma_rise_bounds(c.velocity.y as int);
}

/// Every jump that started on or above the floor ends, after finitely many
/// ticks, in the running phase at frame 0, exactly on the floor.
pub proof fn lemma_jump_lands(c: RedHatBoyContext) -> (n: nat)
    requires
        c.wf(reserve_of(Phase::Jumping), frame_limit_of(Phase::Jumping)),
        c.position.y <= FLOOR,
    ensures
        n > 0,
        updates(Phase::Jumping, c, n).0 == Phase::Running,
        updates(Phase::Jumping, c, n).1.position.y == FLOOR,
        updates(Phase::Jumping, c, n).1.frame == 0,
        forall|m: nat| m < n ==> (#[trigger] updates(Phase::Jumping, c, m)).0 == Phase::Jumping,
    decreases (TERMINAL_VELOCITY - c.velocity.y) * 30 + (FLOOR - c.position.y),
{
    let (q, d) = step(Phase::Jumping, c, Event::Update);
    lemma_jump_tick(c);
    if q == Phase::Running {
        assert(updates(q, d, 0) == (q, d));
        assert forall|m: nat| m < 1 implies (#[trigger] updates(Phase::Jumping, c, m)).0 == Phase::Jumping by {
            assert(m == 0);
        }
        1
    } else {
        c.lemma_update_wf(JUMPING_FRAMES, 0);
        let k = lemma_jump_lands(d);
        assert forall|m: nat| m < k + 1 implies (#[trigger] updates(Phase::Jumping, c, m)).0 == Phase::Jumping by {
            if m > 0 {
                assert(updates(Phase::Jumping, c, m) == updates(q, d, (m - 1) as nat));
                assert(updates(q, d, (m - 1) as nat).0 == Phase::Jumping);
            }
        }
        k + 1
    }
}

/// An idle or running character's frame counter, after `k` ticks, is its
/// current frame plus `k`, wrapping after the phase's frame count: counted
/// from 0 it runs through 0..=count and is 0 again exactly at tick count + 1.
/// The character stays in its phase.
pub proof fn lemma_frame_wraps(p: Phase, c: RedHatBoyContext, k: nat)
    requires
        p == Phase::Idle || p == Phase::Running,
        c.frame <= frame_limit_of(p),
    ensures
        updates(p, c, k).0 == p,
        updates(p, c, k).1.frame == (c.frame + k) % (frame_limit_of(p) + 1),
    decreases k,
{
    let m = frame_limit_of(p) + 1;
    if k == 0 {
        vstd::arithmetic::div_mod::lemma_small_mod(c.frame as nat, m as nat);
    } else {
        let (q, d) = step(p, c, Event::Update);
        assert(updates(p, c, k) == updates(q, d, (k - 1) as nat));
        assert(q == p);
        if c.frame < frame_limit_of(p) {
            vstd::arithmetic::div_mod::lemma_small_mod((c.frame + 1) as nat, m as nat);
            assert(d.frame == (c.frame + 1) % m);
        } else {
            vstd::arithmetic::div_mod::lemma_mod_self_0(m);
            assert(d.frame == (c.frame + 1) % m);
        }
        lemma_frame_wraps(q, d, (k - 1) as nat);
        vstd::arithmetic::div_mod::lemma_add_mod_noop_right((k - 1) as int, c.frame + 1, m);
        assert((k - 1) + (c.frame + 1) == c.frame + k);
        assert(d.frame + (k - 1) == (k - 1) + (c.frame + 1) % m);
    }
}

/// A fall that starts at frame `f` stays a fall, with frame `f + k`, for
/// `k` below the fall's frame count less `f`, and is knocked out exactly at
/// that tick: from frame 0, falling at ticks 1 to 28, knocked out at 29.
pub proof fn lemma_fall_ticks(c: RedHatBoyContext, k: nat)
    requires
        c.frame < FALLING_FRAMES,
        k <= FALLING_FRAMES - c.frame,
    ensures
        k < FALLING_FRAMES - c.frame ==> updates(Phase::Falling, c, k).0 == Phase::Falling
            && updates(Phase::Falling, c, k).1.frame == c.frame + k,
        k == FALLING_FRAMES - c.frame ==> updates(Phase::Falling, c, k).0 == Phase::KnockedOut,
    decreases k,
{
    if k > 0 {
        let (q, d) = step(Phase::Falling, c, Event::Update);
        assert(updates(Phase::Falling, c, k) == updates(q, d, (k - 1) as nat));
        if q == Phase::KnockedOut {
            assert(k == 1);
            assert(updates(q, d, 0) == (q, d));
        } else {
            lemma_fall_ticks(d, (k - 1) as nat);
        }
    }
}

/// A knocked-out character stays as it is, tick after tick.
pub proof fn lemma_knocked_out_stays(c: RedHatBoyContext, n: nat)
    ensures
        updates(Phase::KnockedOut, c, n) == (Phase::KnockedOut, c),
    decreases n,
{
    if n > 0 {
        lemma_knocked_out_stays(c, (n - 1) as nat);
    }
}

/// A falling character is knocked out once the fall animation has played:
/// at the latest after as many ticks as the fall has frames.
pub proof fn lemma_fall_ends(c: RedHatBoyContext, n: nat)
    requires
        c.frame < FALLING_FRAMES,
        n >= FALLING_FRAMES - c.frame,
    ensures
        updates(Phase::Falling, c, n).0 == Phase::KnockedOut,
    decreases n,
{
    let (q, d) = step(Phase::Falling, c, Event::Update);
    if q == Phase::KnockedOut {
        lemma_knocked_out_stays(d, (n - 1) as nat);
    } else {
        lemma_fall_ends(d, (n - 1) as nat);
    }
}

} // verus!
