use vstd::prelude::*;
use crate::input::KeyState;
use crate::red_hat_boy::{step, Event, Phase, RedHatBoyContext, FALLING_FRAMES};
use crate::sprite::Draw;
use crate::ui::{draw_ui, hide_ui, Ui};
use crate::walk::{generated, obstacles_updated, walk_draws, scrolled, Walk, TIMELINE_MINIMUM};

verus! {

/// The control shown once the character is knocked out.
pub const NEW_GAME_BUTTON: &'static str = "<button id='new_game'>New Game</button>";

/// A one-shot signal for the "new game" control: fired by the user, taken
/// by the game when it polls.
#[derive(Clone, Copy, Debug, PartialEq, Eq, Structural)]
pub struct NewGameSignal {
    pub fired: bool,
}

impl NewGameSignal {
    pub fn new() -> (r: NewGameSignal)
        ensures
            !r.fired,
    {
        NewGameSignal { fired: false }
    }

    pub fn fire(&mut self)
        ensures
            final(self).fired,
    {
        self.fired = true;
    }

    /// Whether the signal has fired; takes it, so that it answers once.
    pub fn poll(&mut self) -> (r: bool)
        ensures
            r == old(self).fired,
            !final(self).fired,
    {
        let r = self.fired;
        self.fired = false;
        r
    }
}

#[derive(Clone, Copy, Debug, PartialEq, Eq, Structural)]
pub struct Ready;

#[derive(Clone, Copy, Debug, PartialEq, Eq, Structural)]
pub struct Walking;

#[derive(Clone, Copy, Debug, PartialEq, Eq, Structural)]
pub struct GameOver {
    pub new_game_event: NewGameSignal,
}

impl GameOver {
    pub fn new_game_pressed(&mut self) -> (r: bool)
        ensures
            r == old(self).new_game_event.fired,
            !final(self).new_game_event.fired,
    {
        self.new_game_event.poll()
    }
}

/// The game in phase `T`, owning the level.
#[derive(Debug)]
pub struct WalkTheDogState<T> {
    pub state: T,
    pub walk: Walk,
}

#[derive(Debug)]
pub enum ReadyEndState {
    Complete(WalkTheDogState<Walking>),
    Continue(WalkTheDogState<Ready>),
}

#[derive(Debug)]
pub enum WalkingEndState {
    Complete(WalkTheDogState<GameOver>),
    Continue(WalkTheDogState<Walking>),
}

#[derive(Debug)]
pub enum GameOverEndState {
    Complete(WalkTheDogState<Ready>),
    Continue(WalkTheDogState<GameOver>),
}

/// The character after the input of one tick: a slide if `down`, a jump if
/// `space`, then a tick.
pub open spec fn input_model(m: (Phase, RedHatBoyContext), down: bool, space: bool) -> (Phase, RedHatBoyContext) {
    let m1 = if down {
        step(m.0, m.1, Event::Slide)
    } else {
        m
    };
    let m2 = if space {
        step(m1.0, m1.1, Event::Jump)
    } else {
        m1
    };
    step(m2.0, m2.1, Event::Update)
}

/// One tick of a running level, in order: the input and a tick reach the
/// character; the backgrounds scroll against its run; obstacles off screen
/// go, the others scroll and act on the character; then either a segment is
/// generated (timeline below the minimum) or the timeline scrolls too.
pub open spec fn walking_tick(w0: Walk, w: Walk, down: bool, space: bool) -> bool {
    let d = -w0.boy.model().1.velocity.x;
    exists|w1: Walk, w2: Walk|
        #[trigger] obstacles_updated(w1, w2, d) && {
            &&& w1.boy.model() == input_model(w0.boy.model(), down, space)
            &&& w1.boy.sprite_sheet == w0.boy.sprite_sheet
            &&& w1.boy.image == w0.boy.image
            &&& w1.obstacles == w0.obstacles
            &&& w1.timeline == w0.timeline
            &&& w1.obstacle_sheet == w0.obstacle_sheet
            &&& w1.stone == w0.stone
            &&& (w1.backgrounds[0], w1.backgrounds[1]) == scrolled(w0.backgrounds[0], w0.backgrounds[1], d)
            &&& if w0.timeline < TIMELINE_MINIMUM {
                exists|choice: u8| choice < 2 && #[trigger] generated(w2, w, choice)
            } else {
                &&& w.timeline == w0.timeline + d
                &&& w.boy == w2.boy
                &&& w.obstacles == w2.obstacles
                &&& w.backgrounds == w2.backgrounds
                &&& w.obstacle_sheet == w2.obstacle_sheet
                &&& w.stone == w2.stone
            }
        }
}

/// `w` is `w0` started over: a fresh idle character, a stone-then-platform
/// segment at 0 with the timeline at its right edge, the same backgrounds.
pub open spec fn is_reset(w0: Walk, w: Walk) -> bool {
    &&& w.boy.model().0 == Phase::Idle
    &&& w.boy.model().1.position == (crate::geometry::Point {
        x: crate::red_hat_boy::STARTING_POINT,
        y: crate::red_hat_boy::FLOOR,
    })
    &&& w.boy.model().1.velocity == (crate::geometry::Point { x: 0, y: 0 })
    &&& w.boy.model().1.frame == 0
    &&& w.boy.model().1.jump_sound == w0.boy.model().1.jump_sound
    &&& w.boy.sprite_sheet == w0.boy.sprite_sheet
    &&& w.boy.image == w0.boy.image
    &&& w.boy.sounds@ == Seq::<crate::red_hat_boy::Sound>::empty()
    &&& w.obstacle_sheet == w0.obstacle_sheet
    &&& w.stone == w0.stone
    &&& w.backgrounds == w0.backgrounds
    &&& crate::walk::is_layout(w.obstacles@, 0, w0.stone, w0.obstacle_sheet, 0)
    &&& w.timeline == crate::obstacle::max_right(w.obstacles@)
}

/// Everything of the level but the character's state stays: the world is
/// static, and the character keeps its pictures and sound requests.
pub open spec fn world_kept(w0: Walk, w: Walk) -> bool {
    &&& w.backgrounds == w0.backgrounds
    &&& w.obstacles == w0.obstacles
    &&& w.timeline == w0.timeline
    &&& w.obstacle_sheet == w0.obstacle_sheet
    &&& w.stone == w0.stone
    &&& w.boy.sprite_sheet == w0.boy.sprite_sheet
    &&& w.boy.image == w0.boy.image
    &&& w.boy.sounds == w0.boy.sounds
}

pub open spec fn arrow_right() -> Seq<char> {
    "ArrowRight"@
}

pub open spec fn arrow_down() -> Seq<char> {
    "ArrowDown"@
}

pub open spec fn space() -> Seq<char> {
    "Space"@
}

impl WalkTheDogState<Ready> {
    pub fn new(walk: Walk) -> (r: WalkTheDogState<Ready>)
        ensures
            r.walk == walk,
    {
        WalkTheDogState { state: Ready, walk }
    }

    /// The character idles; "ArrowRight" starts the run.
    pub fn update(self, keystate: &KeyState) -> (r: ReadyEndState)
        requires
            self.walk.wf(),
            self.walk.boy.model().0 == Phase::Idle,
        ensures
            ({
                let m1 = step(self.walk.boy.model().0, self.walk.boy.model().1, Event::Update);
                if keystate.holds(arrow_right()) {
                    r matches ReadyEndState::Complete(s) && s.walk.wf() && world_kept(self.walk, s.walk)
                        && s.walk.boy.model() == step(m1.0, m1.1, Event::Run) && s.walk.boy.model().0
                        == Phase::Running && s.walk.boy.model().1.velocity.x == crate::red_hat_boy::RUNNING_SPEED
                        && s.walk.boy.model().1.frame == 0
                } else {
                    r matches ReadyEndState::Continue(s) && s.walk.wf() && world_kept(self.walk, s.walk)
                        && s.walk.boy.model() == m1 && s.walk.boy.model().0 == Phase::Idle
                }
            }),
    {
        let mut s = self;
        s.walk.boy.update();
        if keystate.is_pressed("ArrowRight") {
            ReadyEndState::Complete(s.start_running())
        } else {
            ReadyEndState::Continue(s)
        }
    }

    pub fn start_running(self) -> (r: WalkTheDogState<Walking>)
        requires
            self.walk.wf(),
        ensures
            r.walk.wf(),
            r.walk.boy.model() == step(self.walk.boy.model().0, self.walk.boy.model().1, Event::Run),
            world_kept(self.walk, r.walk),
    {
        let mut s = self;
        s.run_right();
        WalkTheDogState { state: Walking, walk: s.walk }
    }

    pub fn run_right(&mut self)
        requires
            old(self).walk.wf(),
        ensures
            final(self).walk.wf(),
            final(self).walk.boy.model() == step(old(self).walk.boy.model().0, old(self).walk.boy.model().1, Event::Run),
            world_kept(old(self).walk, final(self).walk),
    {
        self.walk.boy.run_right();
    }
}

impl WalkTheDogState<Walking> {
    /// One tick of the running level; ends the game once the character is
    /// knocked out, showing the "new game" control.
    pub fn update(self, keystate: &KeyState, ui: &mut Ui) -> (r: WalkingEndState)
        requires
            self.walk.wf(),
        ensures
            match r {
                WalkingEndState::Complete(s) => {
                    &&& s.walk.wf()
                    &&& walking_tick(self.walk, s.walk, keystate.holds(arrow_down()), keystate.holds(space()))
                    &&& s.walk.boy.model().0 == Phase::KnockedOut
                    &&& !s.state.new_game_event.fired
                    &&& final(ui).view() == seq![NEW_GAME_BUTTON@] + old(ui).view()
                },
                WalkingEndState::Continue(s) => {
                    &&& s.walk.wf()
                    &&& walking_tick(self.walk, s.walk, keystate.holds(arrow_down()), keystate.holds(space()))
                    &&& s.walk.boy.model().0 != Phase::KnockedOut
                    &&& final(ui).view() == old(ui).view()
                },
            },
    {
        let ghost w0 = self.walk;
        let mut s = self;
        if keystate.is_pressed("ArrowDown") {
            s.walk.boy.slide();
        }
        if keystate.is_pressed("Space") {
            s.walk.boy.jump();
        }
        s.walk.boy.update();
        let walk_speed = s.walk.velocity();
        s.walk.scroll_backgrounds(walk_speed);
        let ghost w1 = s.walk;
        s.walk.update_obstacles(walk_speed);
        let ghost w2 = s.walk;
        if s.walk.timeline < TIMELINE_MINIMUM {
            s.walk.generate_next_segment();
        } else {
            s.walk.advance_timeline(walk_speed);
        }
        proof {
            assert(obstacles_updated(w1, w2, -w0.boy.model().1.velocity.x));
        }
        if s.walk.knocked_out() {
            WalkingEndState::Complete(s.end_game(ui))
        } else {
            WalkingEndState::Continue(s)
        }
    }

    pub fn end_game(self, ui: &mut Ui) -> (r: WalkTheDogState<GameOver>)
        ensures
            r.walk == self.walk,
            !r.state.new_game_event.fired,
            final(ui).view() == seq![NEW_GAME_BUTTON@] + old(ui).view(),
    {
        draw_ui(ui, NEW_GAME_BUTTON);
        WalkTheDogState { state: GameOver { new_game_event: NewGameSignal::new() }, walk: self.walk }
    }
}

impl WalkTheDogState<GameOver> {
    /// Starts over once the "new game" signal has fired.
    pub fn update(self, ui: &mut Ui) -> (r: GameOverEndState)
        requires
            self.walk.wf(),
        ensures
            self.state.new_game_event.fired ==> (r matches GameOverEndState::Complete(s) && s.walk.wf()
                && is_reset(self.walk, s.walk) && final(ui).view() == (if old(ui).view().len() > 0 {
                old(ui).view().drop_first()
            } else {
                old(ui).view()
            })),
            !self.state.new_game_event.fired ==> (r matches GameOverEndState::Continue(s) && s.walk
                == self.walk && !s.state.new_game_event.fired && final(ui).view() == old(ui).view()),
    {
        let mut s = self;
        if s.state.new_game_pressed() {
            GameOverEndState::Complete(s.new_game(ui))
        } else {
            GameOverEndState::Continue(s)
        }
    }

    pub fn new_game(self, ui: &mut Ui) -> (r: WalkTheDogState<Ready>)
        requires
            self.walk.wf(),
        ensures
            r.walk.wf(),
            is_reset(self.walk, r.walk),
            final(ui).view() == (if old(ui).view().len() > 0 {
                old(ui).view().drop_first()
            } else {
                old(ui).view()
            }),
    {
        let _refocus = hide_ui(ui);
        WalkTheDogState { state: Ready, walk: Walk::reset(self.walk) }
    }
}

/// One tick of the game machine: ready, "ArrowRight" starts the run with
/// the character running at running speed; running, the level takes a tick
/// and the game is over exactly when the character is knocked out; over, the
/// "new game" signal starts the level over, ready again.
pub open spec fn ticked(m: WalkTheDogStateMachine, r: WalkTheDogStateMachine, keystate: KeyState) -> bool {
    &&& r.wf()
    &&& m.phase_spec() == GamePhase::Ready ==> {
        let m1 = step(m.walk_spec().boy.model().0, m.walk_spec().boy.model().1, Event::Update);
        &&& world_kept(m.walk_spec(), r.walk_spec())
        &&& if keystate.holds(arrow_right()) {
            &&& r.phase_spec() == GamePhase::Walking
            &&& r.walk_spec().boy.model() == step(m1.0, m1.1, Event::Run)
            &&& r.walk_spec().boy.model().0 == Phase::Running
            &&& r.walk_spec().boy.model().1.velocity.x == crate::red_hat_boy::RUNNING_SPEED
            &&& r.walk_spec().boy.model().1.frame == 0
        } else {
            &&& r.phase_spec() == GamePhase::Ready
            &&& r.walk_spec().boy.model() == m1
        }
    }
    &&& m.phase_spec() == GamePhase::Walking ==> {
        &&& walking_tick(m.walk_spec(), r.walk_spec(), keystate.holds(arrow_down()), keystate.holds(space()))
        &&& (r.phase_spec() == GamePhase::GameOver <==> r.walk_spec().boy.model().0 == Phase::KnockedOut)
        &&& r.phase_spec() != GamePhase::Ready
    }
    &&& m matches WalkTheDogStateMachine::GameOver(g) ==> if g.state.new_game_event.fired {
        r.phase_spec() == GamePhase::Ready && is_reset(m.walk_spec(), r.walk_spec())
    } else {
        r.phase_spec() == GamePhase::GameOver && r.walk_spec() == m.walk_spec()
    }
}

/// The phase of the game.
#[derive(Clone, Copy, Debug, PartialEq, Eq, Structural)]
pub enum GamePhase {
    Ready,
    Walking,
    GameOver,
}

/// The game's typed phase together with its level.
#[derive(Debug)]
pub enum WalkTheDogStateMachine {
    Ready(WalkTheDogState<Ready>),
    Walking(WalkTheDogState<Walking>),
    GameOver(WalkTheDogState<GameOver>),
}

impl WalkTheDogStateMachine {
    pub open spec fn phase_spec(self) -> GamePhase {
        match self {
            WalkTheDogStateMachine::Ready(_) => GamePhase::Ready,
            WalkTheDogStateMachine::Walking(_) => GamePhase::Walking,
            WalkTheDogStateMachine::GameOver(_) => GamePhase::GameOver,
        }
    }

    pub open spec fn walk_spec(self) -> Walk {
        match self {
            WalkTheDogStateMachine::Ready(s) => s.walk,
            WalkTheDogStateMachine::Walking(s) => s.walk,
            WalkTheDogStateMachine::GameOver(s) => s.walk,
        }
    }

    /// The level is well-formed, and the character idles while the game is ready.
    pub open spec fn wf(self) -> bool {
        &&& self.walk_spec().wf()
        &&& (self.phase_spec() == GamePhase::Ready ==> self.walk_spec().boy.model().0 == Phase::Idle)
    }

    pub fn new(walk: Walk) -> (r: WalkTheDogStateMachine)
        ensures
            r.phase_spec() == GamePhase::Ready,
            r.walk_spec() == walk,
    {
        WalkTheDogStateMachine::Ready(WalkTheDogState::<Ready>::new(walk))
    }

    pub fn phase(&self) -> (r: GamePhase)
        ensures
            r == self.phase_spec(),
    {
        match self {
            WalkTheDogStateMachine::Ready(_) => GamePhase::Ready,
            WalkTheDogStateMachine::Walking(_) => GamePhase::Walking,
            WalkTheDogStateMachine::GameOver(_) => GamePhase::GameOver,
        }
    }

    pub fn walk(&self) -> (r: &Walk)
        ensures
            *r == self.walk_spec(),
    {
        match self {
            WalkTheDogStateMachine::Ready(s) => &s.walk,
            WalkTheDogStateMachine::Walking(s) => &s.walk,
            WalkTheDogStateMachine::GameOver(s) => &s.walk,
        }
    }

    /// One tick of the game.
    pub fn update(self, keystate: &KeyState, ui: &mut Ui) -> (r: WalkTheDogStateMachine)
        requires
            self.wf(),
        ensures
            ticked(self, r, *keystate),
    {
        match self {
            WalkTheDogStateMachine::Ready(state) => match state.update(keystate) {
                ReadyEndState::Complete(walking) => WalkTheDogStateMachine::Walking(walking),
                ReadyEndState::Continue(ready) => WalkTheDogStateMachine::Ready(ready),
            },
            WalkTheDogStateMachine::Walking(state) => match state.update(keystate, ui) {
                WalkingEndState::Complete(game_over) => WalkTheDogStateMachine::GameOver(game_over),
                WalkingEndState::Continue(walking) => WalkTheDogStateMachine::Walking(walking),
            },
            WalkTheDogStateMachine::GameOver(state) => match state.update(ui) {
                GameOverEndState::Complete(ready) => WalkTheDogStateMachine::Ready(ready),
                GameOverEndState::Continue(game_over) => WalkTheDogStateMachine::GameOver(game_over),
            },
        }
    }

    /// What to draw: the level as it stands, frozen after a game over.
    pub fn draw(&self) -> (r: Vec<Draw>)
        requires
            self.wf(),
        ensures
            r@ == walk_draws(self.walk_spec()),
    {
        self.walk().draw()
    }
}

/// Why the game could not be initialized.
#[derive(Clone, Copy, Debug, PartialEq, Eq, Structural)]
pub enum GameError {
    AlreadyInitialized,
}

/// The game: nothing until it is initialized, then its state machine; and
/// the overlay that it shows controls on.
#[derive(Debug)]
pub struct WalkTheDog {
    machine: Option<WalkTheDogStateMachine>,
    pub ui: Ui,
}

impl WalkTheDog {
    pub closed spec fn machine_spec(self) -> Option<WalkTheDogStateMachine> {
        self.machine
    }

    pub open spec fn wf(self) -> bool {
        self.machine_spec() matches Some(m) ==> m.wf()
    }

    pub fn new() -> (r: WalkTheDog)
        ensures
            r.machine_spec() is None,
            r.wf(),
    {
        WalkTheDog { machine: None, ui: Ui::new() }
    }

    /// The game ready to play on `walk`; an error if this one already runs.
    pub fn initialize(&self, walk: Walk) -> (r: Result<WalkTheDog, GameError>)
        requires
            walk.wf(),
            walk.boy.model().0 == Phase::Idle,
        ensures
            self.machine_spec() is None ==> (r matches Ok(g) && g.wf() && (g.machine_spec() matches Some(m)
                && m.phase_spec() == GamePhase::Ready && m.walk_spec() == walk)),
            self.machine_spec() is Some ==> r == Err::<WalkTheDog, GameError>(GameError::AlreadyInitialized),
    {
        match self.machine {
            None => Ok(WalkTheDog { machine: Some(WalkTheDogStateMachine::new(walk)), ui: Ui::new() }),
            Some(_) => Err(GameError::AlreadyInitialized),
        }
    }

    pub fn phase(&self) -> (r: Option<GamePhase>)
        ensures
            r == (match self.machine_spec() {
                Some(m) => Some(m.phase_spec()),
                None => None::<GamePhase>,
            }),
    {
        match &self.machine {
            Some(m) => Some(m.phase()),
            None => None,
        }
    }

    pub fn walk(&self) -> (r: Option<&Walk>)
        ensures
            r == (match self.machine_spec() {
                Some(m) => Some(&m.walk_spec()),
                None => None::<&Walk>,
            }),
    {
        match &self.machine {
            Some(m) => Some(m.walk()),
            None => None,
        }
    }

    /// Fires the "new game" signal, if the game is over.
    pub fn new_game_event(&mut self)
        requires
            old(self).wf(),
        ensures
            final(self).wf(),
            old(self).machine_spec() matches Some(WalkTheDogStateMachine::GameOver(g)) ==> (final(self).machine_spec() matches Some(WalkTheDogStateMachine::GameOver(h)) && h.state.new_game_event.fired && h.walk == g.walk),
            !(old(self).machine_spec() matches Some(WalkTheDogStateMachine::GameOver(_))) ==> final(self).machine_spec() == old(self).machine_spec(),
    {
        if let Some(WalkTheDogStateMachine::GameOver(g)) = &mut self.machine {
            g.state.new_game_event.fire();
        }
    }

    /// One tick of the game, if it is initialized.
    pub fn update(&mut self, keystate: &KeyState)
        requires
            old(self).wf(),
        ensures
            final(self).wf(),
            old(self).machine_spec() is None ==> final(self).machine_spec() is None,
            old(self).machine_spec() matches Some(m) ==> (final(self).machine_spec() matches Some(n) && ticked(
                m,
                n,
                *keystate,
            )),
    {
        match self.machine.take() {
            Some(machine) => {
                self.machine = Some(machine.update(keystate, &mut self.ui));
            },
            None => {},
        }
    }

    /// Sounds that the character asked for since the last call.
    pub fn take_sounds(&mut self) -> (r: Vec<crate::red_hat_boy::Sound>)
        requires
            old(self).wf(),
        ensures
            final(self).wf(),
            old(self).machine_spec() matches Some(m) ==> r@ == m.walk_spec().boy.sounds@,
            old(self).machine_spec() matches Some(m) ==> (final(self).machine_spec() matches Some(n)
                && n.walk_spec().boy.sounds@.len() == 0 && n.walk_spec().boy.model() == m.walk_spec().boy.model()
                && n.phase_spec() == m.phase_spec()),
            old(self).machine_spec() is None ==> r@.len() == 0 && final(self).machine_spec() is None,
    {
        match &mut self.machine {
            Some(WalkTheDogStateMachine::Ready(s)) => s.walk.boy.take_sounds(),
            Some(WalkTheDogStateMachine::Walking(s)) => s.walk.boy.take_sounds(),
            Some(WalkTheDogStateMachine::GameOver(s)) => s.walk.boy.take_sounds(),
            None => Vec::new(),
        }
    }

    /// What to draw; nothing before initialization.
    pub fn draw(&self) -> (r: Vec<Draw>)
        requires
            self.wf(),
        ensures
            self.machine_spec() matches Some(m) ==> r@ == walk_draws(m.walk_spec()),
            self.machine_spec() is None ==> r@.len() == 0,
    {
        match &self.machine {
            Some(machine) => machine.draw(),
            None => Vec::new(),
        }
    }
}

proof fn lemma_chain_keeps_fallen_from(obs: Seq<crate::obstacle::Obstacle>, boys: Seq<crate::character::RedHatBoy>, i: int, k: int)
    requires
        crate::walk::resolve_chain(obs, boys),
        0 <= i <= k <= obs.len(),
        boys[i].model().0 == Phase::Falling || boys[i].model().0 == Phase::KnockedOut,
    ensures
        boys[k].model() == boys[i].model(),
    decreases k - i,
{
    if k > i {
        lemma_chain_keeps_fallen_from(obs, boys, i, k - 1);
        let j = k - 1;
        assert(obs[j].resolves(boys[j + 1], boys[j]));
    }
}

/// Within the obstacles' turn of a tick, a barrier that the character
/// touches while running, sliding or jumping leaves it falling at frame 0 at
/// the end of the turn, whatever the obstacles after it.
pub proof fn lemma_barrier_hit_in_turn(
    w1: Walk,
    w2: Walk,
    boys: Seq<crate::character::RedHatBoy>,
    i: int,
)
    requires
        crate::walk::resolve_chain(w2.obstacles@, boys),
        boys[0] == w1.boy,
        boys.last() == w2.boy,
        0 <= i < w2.obstacles@.len(),
        boys[i].wf(),
        crate::obstacle::collidable(boys[i].model().0),
        w2.obstacles@[i] matches crate::obstacle::Obstacle::Barrier(b) && boys[i].bounding_box_spec().intersects_spec(
            b.image.bounding_box,
        ),
    ensures
        w2.boy.model().0 == Phase::Falling,
        w2.boy.model().1.frame == 0,
        w2.boy.model().1.velocity.x == 0,
{
    let j = i;
    assert(w2.obstacles@[j].resolves(boys[j + 1], boys[j]));
    lemma_chain_keeps_fallen_from(w2.obstacles@, boys, i + 1, w2.obstacles@.len() as int);
}

/// A running level whose character is falling only ticks it: obstacles no
/// longer act on it.
pub proof fn lemma_falling_walk_tick(w0: Walk, w: Walk, down: bool, space: bool)
    requires
        w0.boy.model().0 == Phase::Falling,
        walking_tick(w0, w, down, space),
    ensures
        w.boy.model() == step(Phase::Falling, w0.boy.model().1, Event::Update),
{
    let d = -w0.boy.model().1.velocity.x;
    let (w1, w2) = choose|w1: Walk, w2: Walk|
        #[trigger] obstacles_updated(w1, w2, d) && {
            &&& w1.boy.model() == input_model(w0.boy.model(), down, space)
            &&& w1.boy.sprite_sheet == w0.boy.sprite_sheet
            &&& w1.boy.image == w0.boy.image
            &&& w1.obstacles == w0.obstacles
            &&& w1.timeline == w0.timeline
            &&& w1.obstacle_sheet == w0.obstacle_sheet
            &&& w1.stone == w0.stone
            &&& (w1.backgrounds[0], w1.backgrounds[1]) == scrolled(w0.backgrounds[0], w0.backgrounds[1], d)
            &&& if w0.timeline < TIMELINE_MINIMUM {
                exists|choice: u8| choice < 2 && #[trigger] generated(w2, w, choice)
            } else {
                &&& w.timeline == w0.timeline + d
                &&& w.boy == w2.boy
                &&& w.obstacles == w2.obstacles
                &&& w.backgrounds == w2.backgrounds
                &&& w.obstacle_sheet == w2.obstacle_sheet
                &&& w.stone == w2.stone
            }
        };
    let boys = choose|boys: Seq<crate::character::RedHatBoy>|
        {
            &&& #[trigger] crate::walk::resolve_chain(w2.obstacles@, boys)
            &&& boys[0] == w1.boy
            &&& boys.last() == w2.boy
        };
    lemma_chain_keeps_fallen_from(w2.obstacles@, boys, 0, w2.obstacles@.len() as int);
    if w0.timeline < TIMELINE_MINIMUM {
        let choice = choose|choice: u8| choice < 2 && #[trigger] generated(w2, w, choice);
    }
}

/// A game whose character has just been knocked down (falling, frame 0)
/// while running stays running for the next ticks, whatever the keys, and is
/// over exactly at the tick that ends the fall animation.
pub proof fn lemma_fall_ends_game(ms: Seq<WalkTheDogStateMachine>, keys: Seq<KeyState>)
    requires
        ms.len() == FALLING_FRAMES + 1,
        keys.len() == FALLING_FRAMES,
        forall|i: int| 0 <= i < FALLING_FRAMES ==> #[trigger] ticked(ms[i], ms[i + 1], keys[i]),
        ms[0].phase_spec() == GamePhase::Walking,
        ms[0].walk_spec().boy.model().0 == Phase::Falling,
        ms[0].walk_spec().boy.model().1.frame == 0,
    ensures
        forall|k: int| 0 <= k < FALLING_FRAMES ==> (#[trigger] ms[k]).phase_spec() == GamePhase::Walking,
        ms[FALLING_FRAMES as int].phase_spec() == GamePhase::GameOver,
{
    lemma_fall_prefix(ms, keys, FALLING_FRAMES as int);
    assert forall|k: int| 0 <= k < FALLING_FRAMES implies (#[trigger] ms[k]).phase_spec() == GamePhase::Walking by {
        lemma_fall_prefix(ms, keys, k);
    }
}

proof fn lemma_fall_prefix(ms: Seq<WalkTheDogStateMachine>, keys: Seq<KeyState>, k: int)
    requires
        ms.len() == FALLING_FRAMES + 1,
        keys.len() == FALLING_FRAMES,
        forall|i: int| 0 <= i < FALLING_FRAMES ==> #[trigger] ticked(ms[i], ms[i + 1], keys[i]),
        ms[0].phase_spec() == GamePhase::Walking,
        ms[0].walk_spec().boy.model().0 == Phase::Falling,
        ms[0].walk_spec().boy.model().1.frame == 0,
        0 <= k <= FALLING_FRAMES,
    ensures
        k < FALLING_FRAMES ==> ms[k].phase_spec() == GamePhase::Walking && ms[k].walk_spec().boy.model().0
            == Phase::Falling && ms[k].walk_spec().boy.model().1.frame == k,
        k == FALLING_FRAMES ==> ms[k].phase_spec() == GamePhase::GameOver,
    decreases k,
{
    if k > 0 {
        lemma_fall_prefix(ms, keys, k - 1);
        let j = k - 1;
        assert(ticked(ms[j], ms[j + 1], keys[j]));
        let down = keys[k - 1].holds(arrow_down());
        let sp = keys[k - 1].holds(space());
        lemma_falling_walk_tick(ms[k - 1].walk_spec(), ms[k].walk_spec(), down, sp);
    }
}

} // verus!
