//! The game state machine: the ball, the goals, the mode, and the per-tick
//! update pipeline.
//!
//! One call of [`State::update`] is one tick. Every tick runs four steps in
//! a fixed order: ball movement, score increment, mode transition, goal
//! contact. The mode transition reads goal liveness as of the previous
//! tick, because the goal contact step runs after it; so the game reports
//! `Over` on the tick after the last goal died, not on the same tick. The
//! whole pipeline is captured by the specification function [`spec_update`],
//! and `update` is proved to implement it exactly.

use crate::config::{
    BALL_DELTA, BALL_SIZE, BALL_START_X, BALL_START_Y, GOAL_COUNT, GOAL_SIZE, SCREEN_OUTLINE_HEIGHT,
    SCREEN_OUTLINE_LEFT, SCREEN_OUTLINE_TOP, SCREEN_OUTLINE_WIDTH, X_MAX, X_MIN, Y_MAX, Y_MIN,
};
use crate::math::{intersects, spec_intersects, Point, Size};
use vstd::prelude::*;

verus! {

/// The mode the game is in. Exactly one mode is current at any time and
/// all per-tick behavior branches on it.
#[derive(Clone, Copy, Debug, PartialEq, Eq, Structural)]
pub enum Mode {
    /// Introduce the game with a splash screen.
    Intro,
    /// Actively playing the game.
    Play,
    /// The game is over; the score and the low score are shown.
    Over,
}

/// One tilt control signal, already compared against the fixed angle
/// threshold: `Pos` for a reading above the threshold, `Neg` for one below
/// its negation, `Neutral` for everything in between. A reading that
/// compares with neither bound, such as a non-finite sample, is neutral
/// too, so malformed input degrades to no movement on that axis.
#[derive(Clone, Copy, Debug, PartialEq, Eq, Structural)]
pub enum Tilt {
    /// Signal below the negative threshold.
    Neg,
    /// Signal within the threshold band: no movement on this axis.
    Neutral,
    /// Signal above the positive threshold.
    Pos,
}

/// The Ball is the entity that the user controls on the screen, trying to
/// visit goals as quickly as possible.
#[derive(Clone, Copy, Debug, PartialEq, Eq, Structural)]
pub struct Ball {
    /// The current location of this ball: the top-left corner of its
    /// bounding box.
    pub location: Point,
}

impl Ball {
    /// Return a new ball at the given location.
    fn new(location: Point) -> (b: Ball)
        ensures
            b.location == location,
    {
        Ball { location }
    }

    /// Return the current location of this ball.
    pub fn location(&self) -> (p: Point)
        ensures
            p == self.location,
    {
        self.location
    }

    /// Return the side length of this ball's bounding box.
    pub fn size(&self) -> (s: u32)
        ensures
            s == BALL_SIZE,
    {
        BALL_SIZE
    }
}

/// A goal is a box on the screen that the ball needs to visit.
#[derive(Clone, Copy, Debug, PartialEq, Eq, Structural)]
pub struct Goal {
    /// The location of the goal: the top-left corner of its box. Goals
    /// never move.
    pub location: Point,
    /// The goal is alive if it has yet to be visited by the ball.
    pub alive: bool,
}

impl Goal {
    /// Return a new, alive goal at the given location.
    fn new(location: Point) -> (g: Goal)
        ensures
            g.location == location,
            g.alive,
    {
        Goal { location, alive: true }
    }

    /// Return the location of the goal.
    pub fn location(&self) -> (p: Point)
        ensures
            p == self.location,
    {
        self.location
    }

    /// Return the side length of the goal's box.
    pub fn size(&self) -> (s: u32)
        ensures
            s == GOAL_SIZE,
    {
        GOAL_SIZE
    }

    /// Return whether the goal is still alive.
    pub fn alive(&self) -> (a: bool)
        ensures
            a == self.alive,
    {
        self.alive
    }
}

/// Mathematical model of one goal: its fixed position and its liveness.
pub ghost struct GoalView {
    pub x: int,
    pub y: int,
    pub alive: bool,
}

/// Mathematical model of the whole game state.
pub ghost struct GameView {
    pub mode: Mode,
    pub score: int,
    pub low_score: int,
    pub ball_x: int,
    pub ball_y: int,
    pub goals: Seq<GoalView>,
}

impl View for Goal {
    type V = GoalView;

    open spec fn view(&self) -> GoalView {
        GoalView { x: self.location.x as int, y: self.location.y as int, alive: self.alive }
    }
}

/// x coordinate of goal number `i` at the start of a round.
pub open spec fn spec_goal_x(i: int) -> int {
    if i == 0 {
        10
    } else if i == 1 {
        100
    } else if i == 2 {
        50
    } else {
        10
    }
}

/// y coordinate of goal number `i` at the start of a round.
pub open spec fn spec_goal_y(i: int) -> int {
    if i == 0 {
        12
    } else if i == 1 {
        50
    } else if i == 2 {
        20
    } else {
        50
    }
}

/// The goals at the start of a round: all four at their fixed locations,
/// all alive.
pub open spec fn spec_initial_goals() -> Seq<GoalView> {
    Seq::new(
        GOAL_COUNT as nat,
        |i: int| GoalView { x: spec_goal_x(i), y: spec_goal_y(i), alive: true },
    )
}

/// The game state right after construction: intro mode, score 0, the low
/// score at its "no completed round yet" sentinel, the ball at its start
/// location, all goals alive.
pub open spec fn spec_initial_state() -> GameView {
    GameView {
        mode: Mode::Intro,
        score: 0,
        low_score: i32::MAX as int,
        ball_x: BALL_START_X as int,
        ball_y: BALL_START_Y as int,
        goals: spec_initial_goals(),
    }
}

/// Every goal of the sequence is dead.
pub open spec fn spec_all_dead(goals: Seq<GoalView>) -> bool {
    forall|i: int| 0 <= i < goals.len() ==> !(#[trigger] goals[i]).alive
}

/// The ball's x coordinate after one tick under roll signal `roll`: one
/// step right while below the right bound on a positive signal, one step
/// left while above the left bound on a negative one, unchanged otherwise.
/// The bound check comes before the move, so a move can reach but not pass
/// a bound.
pub open spec fn spec_move_x(x: int, roll: Tilt) -> int {
    if roll is Pos && x < X_MAX {
        x + BALL_DELTA
    } else if roll is Neg && x > X_MIN {
        x - BALL_DELTA
    } else {
        x
    }
}

/// The ball's y coordinate after one tick under pitch signal `pitch`: one
/// step up (towards smaller y) while above the top bound on a positive
/// signal, one step down while below the bottom bound on a negative one,
/// unchanged otherwise.
pub open spec fn spec_move_y(y: int, pitch: Tilt) -> int {
    if pitch is Pos && y > Y_MIN {
        y - BALL_DELTA
    } else if pitch is Neg && y < Y_MAX {
        y + BALL_DELTA
    } else {
        y
    }
}

/// Tick step 1: the ball moves under the two tilt signals; nothing else
/// changes.
pub open spec fn spec_ball_step(g: GameView, pitch: Tilt, roll: Tilt) -> GameView {
    GameView {
        ball_x: spec_move_x(g.ball_x, roll),
        ball_y: spec_move_y(g.ball_y, pitch),
        ..g
    }
}

/// Tick step 2: the score counts one more elapsed tick, in every mode.
pub open spec fn spec_score_step(g: GameView) -> GameView {
    GameView { score: g.score + 1, ..g }
}

/// Tick step 3: the mode transition. Intro always hands over to Play.
/// Play ends when every goal is already dead, recording the round's score
/// in the low score if it is a new minimum. Over restarts the round on the
/// very next tick: score back to 0, ball back to its start location, all
/// goals alive again.
pub open spec fn spec_mode_step(g: GameView) -> GameView {
    match g.mode {
        Mode::Intro => GameView { mode: Mode::Play, ..g },
        Mode::Play => if spec_all_dead(g.goals) {
            GameView {
                mode: Mode::Over,
                low_score: if g.score < g.low_score {
                    g.score
                } else {
                    g.low_score
                },
                ..g
            }
        } else {
            g
        },
        Mode::Over => GameView {
            mode: Mode::Play,
            score: 0,
            ball_x: BALL_START_X as int,
            ball_y: BALL_START_Y as int,
            goals: spec_initial_goals(),
            ..g
        },
    }
}

/// One goal after the contact check against the ball at (ball_x, ball_y):
/// it stays where it is, and it is alive afterwards exactly if it was
/// alive before and its box does not intersect the ball's box.
pub open spec fn spec_kill_goal(g: GoalView, ball_x: int, ball_y: int) -> GoalView {
    GoalView {
        x: g.x,
        y: g.y,
        alive: g.alive && !spec_intersects(
            g.x,
            g.y,
            GOAL_SIZE as int,
            ball_x,
            ball_y,
            BALL_SIZE as int,
        ),
    }
}

/// Tick step 4: every goal runs the contact check against the ball's
/// just-moved box; nothing else changes.
pub open spec fn spec_goal_step(g: GameView) -> GameView {
    GameView {
        goals: g.goals.map_values(|gv: GoalView| spec_kill_goal(gv, g.ball_x, g.ball_y)),
        ..g
    }
}

/// One whole tick: ball movement, then score, then mode transition, then
/// goal contact, in this fixed order. The mode transition therefore sees
/// goal liveness as of the previous tick, and the goal contact check sees
/// the ball's just-moved location.
pub open spec fn spec_update(g: GameView, pitch: Tilt, roll: Tilt) -> GameView {
    spec_goal_step(spec_mode_step(spec_score_step(spec_ball_step(g, pitch, roll))))
}

/// Well-formedness of a game state: four goals standing at their fixed
/// locations; the ball inside the play-field bounds and aligned to the
/// movement step, so that repeated moves reach but never pass a bound; a
/// non-negative score; a positive low score.
pub open spec fn wf_view(g: GameView) -> bool {
    &&& g.goals.len() == GOAL_COUNT
    &&& forall|i: int|
        0 <= i < g.goals.len() ==> (#[trigger] g.goals[i]).x == spec_goal_x(i) && g.goals[i].y
            == spec_goal_y(i)
    &&& X_MIN <= g.ball_x <= X_MAX
    &&& Y_MIN <= g.ball_y <= Y_MAX
    &&& g.ball_x % (BALL_DELTA as int) == 0
    &&& g.ball_y % (BALL_DELTA as int) == 0
    &&& 0 <= g.score
    &&& 0 < g.low_score
}

/// The SmallBall game state.
pub struct State {
    /// The current score: ticks elapsed in the current round.
    pub score: i32,
    /// The lowest score achieved in a completed round, or `i32::MAX` while
    /// no round has been completed.
    pub low_score: i32,
    /// The current state of the ball.
    pub ball: Ball,
    /// The current state of the goals.
    pub goals: Vec<Goal>,
    /// The current game mode.
    pub mode: Mode,
}

impl View for State {
    type V = GameView;

    open spec fn view(&self) -> GameView {
        GameView {
            mode: self.mode,
            score: self.score as int,
            low_score: self.low_score as int,
            ball_x: self.ball.location.x as int,
            ball_y: self.ball.location.y as int,
            goals: self.goals@.map_values(|g: Goal| g@),
        }
    }
}

impl State {
    /// Well-formedness of this state; established by [`State::new`] and
    /// preserved by [`State::update`].
    pub open spec fn wf(&self) -> bool {
        wf_view(self@)
    }

    /// Return a new game State with the default initial state.
    pub fn new() -> (s: State)
        ensures
            s@ == spec_initial_state(),
            s.wf(),
    {
        let s = State {
            score: 0,
            low_score: i32::MAX,
            ball: State::initial_ball(),
            goals: State::initial_goals(),
            mode: Mode::Intro,
        };
        s
    }

    /// Return the current state of the ball.
    pub fn ball(&self) -> (b: &Ball)
        ensures
            *b == self.ball,
    {
        &self.ball
    }

    /// Return the current score.
    pub fn score(&self) -> (s: i32)
        ensures
            s == self.score,
    {
        self.score
    }

    /// Return the lowest score achieved in a completed round.
    pub fn low_score(&self) -> (s: i32)
        ensures
            s == self.low_score,
    {
        self.low_score
    }

    /// Return the current game mode.
    pub fn mode(&self) -> (m: &Mode)
        ensures
            *m == self.mode,
    {
        &self.mode
    }

    /// Return the ball in its start-of-round state.
    pub fn initial_ball() -> (b: Ball)
        ensures
            b.location.x == BALL_START_X,
            b.location.y == BALL_START_Y,
    {
        Ball::new(Point::new(BALL_START_X, BALL_START_Y))
    }

    /// Return the goals in their start-of-round state: all four at their
    /// fixed locations, all alive.
    pub fn initial_goals() -> (goals: Vec<Goal>)
        ensures
            goals@.map_values(|g: Goal| g@) == spec_initial_goals(),
    {
        let mut goals: Vec<Goal> = Vec::new();
        goals.push(Goal::new(Point::new(10, 12)));
        goals.push(Goal::new(Point::new(100, 50)));
        goals.push(Goal::new(Point::new(50, 20)));
        goals.push(Goal::new(Point::new(10, 50)));
        proof {
            assert(goals@.map_values(|g: Goal| g@) =~= spec_initial_goals());
        }
        goals
    }

    /// Update the state of the game by one tick from the latest pitch and
    /// roll control signals. The four sub-steps run in a fixed order —
    /// ball movement, score, mode transition, goal contact — so the whole
    /// tick is exactly [`spec_update`] applied to the previous state.
    pub fn update(&mut self, pitch: Tilt, roll: Tilt)
        requires
            old(self).score < i32::MAX,
        ensures
            final(self)@ == spec_update(old(self)@, pitch, roll),
            old(self).wf() ==> final(self).wf(),
    {
        self.update_ball(pitch, roll);
        self.update_score();
        self.update_mode();
        self.update_goals();
        proof {
            if old(self).wf() {
                lemma_update_preserves_wf(old(self)@, pitch, roll);
            }
        }
    }

    /// Tick step 3: the mode transition; see [`spec_mode_step`].
    fn update_mode(&mut self)
        ensures
            final(self)@ == spec_mode_step(old(self)@),
    {
        match self.mode {
            Mode::Intro => {
                self.mode = Mode::Play;
            },
            Mode::Play => {
                if State::all_dead(&self.goals) {
                    self.mode = Mode::Over;
                    if self.score < self.low_score {
                        self.low_score = self.score;
                    }
                }
            },
            Mode::Over => {
                self.mode = Mode::Play;
                self.score = 0;
                self.ball = State::initial_ball();
                self.goals = State::initial_goals();
            },
        }
    }

    /// Return true if every goal of the vector is dead.
    fn all_dead(goals: &Vec<Goal>) -> (r: bool)
        ensures
            r == spec_all_dead(goals@.map_values(|g: Goal| g@)),
    {
        let mut i: usize = 0;
        while i < goals.len()
            invariant
                i <= goals.len(),
                forall|j: int| 0 <= j < i ==> !(#[trigger] goals@[j]).alive,
            decreases goals.len() - i,
        {
            if goals[i].alive {
                assert(goals@.map_values(|g: Goal| g@)[i as int].alive);
                return false;
            }
            i = i + 1;
        }
        true
    }

    /// Tick step 2: the score counts one more elapsed tick, in every mode;
    /// see [`spec_score_step`].
    fn update_score(&mut self)
        requires
            old(self).score < i32::MAX,
        ensures
            final(self)@ == spec_score_step(old(self)@),
    {
        self.score = self.score + 1;
    }

    /// Tick step 1: move the ball under the two tilt signals; see
    /// [`spec_move_x`] and [`spec_move_y`]. Each bound check comes before
    /// the move, so the guarded additions stay far from the integer
    /// limits whatever the current coordinates are.
    fn update_ball(&mut self, pitch: Tilt, roll: Tilt)
        ensures
            final(self)@ == spec_ball_step(old(self)@, pitch, roll),
    {
        let mut x = self.ball.location.x;
        let mut y = self.ball.location.y;

        match pitch {
            Tilt::Pos => {
                if y > Y_MIN {
                    y = y - BALL_DELTA;
                }
            },
            Tilt::Neg => {
                if y < Y_MAX {
                    y = y + BALL_DELTA;
                }
            },
            Tilt::Neutral => {},
        }

        match roll {
            Tilt::Pos => {
                if x < X_MAX {
                    x = x + BALL_DELTA;
                }
            },
            Tilt::Neg => {
                if x > X_MIN {
                    x = x - BALL_DELTA;
                }
            },
            Tilt::Neutral => {},
        }

        self.ball = Ball::new(Point::new(x, y));
    }

    /// Tick step 4: run the contact check for every goal against the
    /// ball's just-moved box; a visited goal dies and a dead goal stays
    /// dead; see [`spec_goal_step`].
    fn update_goals(&mut self)
        ensures
            final(self)@ == spec_goal_step(old(self)@),
    {
        let ball_location = self.ball.location;
        let mut i: usize = 0;
        while i < self.goals.len()
            invariant
                i <= self.goals.len(),
                self.ball == old(self).ball,
                self.mode == old(self).mode,
                self.score == old(self).score,
                self.low_score == old(self).low_score,
                ball_location == old(self).ball.location,
                self.goals@.len() == old(self).goals@.len(),
                forall|j: int|
                    0 <= j < i ==> (#[trigger] self.goals@[j])@ == spec_kill_goal(
                        old(self).goals@[j]@,
                        old(self)@.ball_x,
                        old(self)@.ball_y,
                    ),
                forall|j: int|
                    i <= j < self.goals@.len() ==> #[trigger] self.goals@[j] == old(
                        self,
                    ).goals@[j],
            decreases self.goals.len() - i,
        {
            let g = self.goals[i];
            if g.alive && intersects(g.location, GOAL_SIZE, ball_location, BALL_SIZE) {
                self.goals.set(i, Goal { location: g.location, alive: false });
            }
            i = i + 1;
        }
        proof {
            assert(final(self)@.goals =~= spec_goal_step(old(self)@).goals);
        }
    }

    /// Return the top-left point of the rectangle outlining the
    /// play-field.
    pub fn screen_outline_top_left(&self) -> (p: Point)
        ensures
            p.x == SCREEN_OUTLINE_LEFT,
            p.y == SCREEN_OUTLINE_TOP,
    {
        Point::new(SCREEN_OUTLINE_LEFT, SCREEN_OUTLINE_TOP)
    }

    /// Return the size of the rectangle outlining the play-field.
    pub fn screen_outline_size(&self) -> (s: Size)
        ensures
            s.width == SCREEN_OUTLINE_WIDTH,
            s.height == SCREEN_OUTLINE_HEIGHT,
    {
        Size::new(SCREEN_OUTLINE_WIDTH, SCREEN_OUTLINE_HEIGHT)
    }

    /// Return the goals that are still alive, in their fixed order.
    pub fn goals_alive(&self) -> (alive: Vec<Goal>)
        ensures
            alive@.map_values(|g: Goal| g@) == self@.goals.filter(|gv: GoalView| gv.alive),
    {
        let mut alive: Vec<Goal> = Vec::new();
        let mut i: usize = 0;
        while i < self.goals.len()
            invariant
                i <= self.goals.len(),
                alive@.map_values(|g: Goal| g@) == self@.goals.take(i as int).filter(
                    |gv: GoalView| gv.alive,
                ),
            decreases self.goals.len() - i,
        {
            let ghost prefix = self@.goals.take(i as int);
            let g = self.goals[i];
            if g.alive {
                alive.push(g);
            }
            proof {
                assert(self@.goals.take(i + 1 as int) =~= prefix.push(self@.goals[i as int]));
                prefix.lemma_filter_push(self@.goals[i as int], |gv: GoalView| gv.alive);
                assert(self@.goals[i as int] == g@);
            }
            i = i + 1;
        }
        proof {
            assert(self@.goals.take(self.goals@.len() as int) =~= self@.goals);
        }
        alive
    }
}

impl Default for State {
    /// The default game state is the freshly constructed one.
    fn default() -> (s: Self)
        ensures
            s@ == spec_initial_state(),
            s.wf(),
    {
        Self::new()
    }
}

/// Law: a tick preserves well-formedness — in particular the ball reaches
/// but never passes the play-field bounds.
pub proof fn lemma_update_preserves_wf(g: GameView, pitch: Tilt, roll: Tilt)
    requires
        wf_view(g),
    ensures
        wf_view(spec_update(g, pitch, roll)),
{
    let stepped = spec_mode_step(spec_score_step(spec_ball_step(g, pitch, roll)));
    let result = spec_update(g, pitch, roll);
    assert(result.goals.len() == stepped.goals.len());
    assert forall|i: int| 0 <= i < result.goals.len() implies result.goals[i].x == spec_goal_x(i)
        && result.goals[i].y == spec_goal_y(i) by {
        assert(result.goals[i] == spec_kill_goal(stepped.goals[i], stepped.ball_x, stepped.ball_y));
        if g.mode is Over {
            assert(stepped.goals[i] == spec_initial_goals()[i]);
        }
    }
}

/// Law (mode cycle): Intro always hands over to Play; Play ends exactly
/// when every goal was already dead, recording the round's score in the
/// low score if it is a new minimum; Over restarts the round on the very
/// next tick with score 0, the ball at its start location, and all goals
/// alive.
pub proof fn lemma_mode_cycle(g: GameView, pitch: Tilt, roll: Tilt)
    ensures
        g.mode is Intro ==> spec_update(g, pitch, roll).mode is Play,
        g.mode is Play && spec_all_dead(g.goals) ==> {
            let r = spec_update(g, pitch, roll);
            &&& r.mode is Over
            &&& r.score == g.score + 1
            &&& r.low_score == if g.score + 1 < g.low_score {
                g.score + 1
            } else {
                g.low_score
            }
        },
        g.mode is Play && !spec_all_dead(g.goals) ==> spec_update(g, pitch, roll).mode is Play,
        g.mode is Over ==> {
            let r = spec_update(g, pitch, roll);
            &&& r.mode is Play
            &&& r.score == 0
            &&& r.low_score == g.low_score
            &&& r.ball_x == BALL_START_X as int
            &&& r.ball_y == BALL_START_Y as int
            &&& r.goals == spec_initial_goals()
        },
{
    if g.mode is Over {
        let r = spec_update(g, pitch, roll);
        assert forall|i: int| 0 <= i < r.goals.len() implies r.goals[i]
            == spec_initial_goals()[i] by {
            lemma_initial_ball_clears_goal(i);
        }
        assert(r.goals =~= spec_initial_goals());
    }
}

/// At the start of a round no goal touches the ball's start box, so the
/// round-restart tick leaves every fresh goal alive.
proof fn lemma_initial_ball_clears_goal(i: int)
    ensures
        0 <= i < GOAL_COUNT ==> !spec_intersects(
            spec_goal_x(i),
            spec_goal_y(i),
            GOAL_SIZE as int,
            BALL_START_X as int,
            BALL_START_Y as int,
            BALL_SIZE as int,
        ),
{
}

/// Law (monotonic low score): a tick never increases the low score.
pub proof fn lemma_low_score_monotonic(g: GameView, pitch: Tilt, roll: Tilt)
    ensures
        spec_update(g, pitch, roll).low_score <= g.low_score,
{
}

/// Law (score monotonicity): every tick increments the score by exactly
/// one, in every mode, except the round-restart tick out of Over, which
/// resets it to zero.
pub proof fn lemma_score_step(g: GameView, pitch: Tilt, roll: Tilt)
    ensures
        g.mode !is Over ==> spec_update(g, pitch, roll).score == g.score + 1,
        g.mode is Over ==> spec_update(g, pitch, roll).score == 0,
{
}

/// Law (movement clamping): under a positive roll signal the ball moves
/// right by exactly one step while below the right bound, and stays put
/// once the bound is reached; the symmetric clauses hold for the other
/// three directions.
pub proof fn lemma_move_clamped(x: int, y: int)
    ensures
        x < X_MAX ==> spec_move_x(x, Tilt::Pos) == x + BALL_DELTA,
        x >= X_MAX ==> spec_move_x(x, Tilt::Pos) == x,
        x > X_MIN ==> spec_move_x(x, Tilt::Neg) == x - BALL_DELTA,
        x <= X_MIN ==> spec_move_x(x, Tilt::Neg) == x,
        spec_move_x(x, Tilt::Neutral) == x,
        y > Y_MIN ==> spec_move_y(y, Tilt::Pos) == y - BALL_DELTA,
        y <= Y_MIN ==> spec_move_y(y, Tilt::Pos) == y,
        y < Y_MAX ==> spec_move_y(y, Tilt::Neg) == y + BALL_DELTA,
        y >= Y_MAX ==> spec_move_y(y, Tilt::Neg) == y,
        spec_move_y(y, Tilt::Neutral) == y,
{
}

/// Law (goal one-shot death): on any tick that is not the round-restart
/// tick out of Over, a dead goal stays dead.
pub proof fn lemma_goal_death_permanent(g: GameView, pitch: Tilt, roll: Tilt, i: int)
    requires
        g.mode !is Over,
        0 <= i < g.goals.len(),
        !g.goals[i].alive,
    ensures
        i < spec_update(g, pitch, roll).goals.len(),
        !spec_update(g, pitch, roll).goals[i].alive,
{
}

} // verus!
