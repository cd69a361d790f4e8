use smallball::config::{
    BALL_DELTA, BALL_START_X, BALL_START_Y, SCREEN_OUTLINE_HEIGHT, SCREEN_OUTLINE_LEFT,
    SCREEN_OUTLINE_TOP, SCREEN_OUTLINE_WIDTH, X_MAX,
};
use smallball::math::{Point, Size};
use smallball::smallball::{Mode, State, Tilt};

/// The pitch/roll angle threshold, above which the ball is moved in the
/// corresponding direction. The library consumes the already-compared
/// signal, so the comparison lives here, as it does in the program that
/// samples the sensor.
const ANGLE_THRESHOLD: f32 = 0.6;

fn tilt(v: f32) -> Tilt {
    if v > ANGLE_THRESHOLD {
        Tilt::Pos
    } else if v < -ANGLE_THRESHOLD {
        Tilt::Neg
    } else {
        Tilt::Neutral
    }
}

fn ball_location_delta(delta_x: i32, delta_y: i32) -> Point {
    Point::new(
        State::initial_ball().location().x + delta_x,
        State::initial_ball().location().y + delta_y,
    )
}

fn game_state_in_play_mode() -> State {
    let mut state = State::default();
    assert_eq!(state.score(), 0);
    assert_eq!(*state.mode(), Mode::Intro);
    state.update(tilt(0.0), tilt(0.0));
    assert_eq!(*state.ball(), State::initial_ball());
    assert_eq!(state.score(), 1);
    state
}

#[test]
fn transition_from_intro_to_play_test() {
    // GIVEN game state in intro mode
    let mut state = State::new();
    assert_eq!(*state.mode(), Mode::Intro);
    // WHEN update is called
    state.update(tilt(0.0), tilt(0.0));
    // THEN game transitions to play mode
    assert_eq!(*state.mode(), Mode::Play);
}

#[test]
fn transition_from_play_to_over_test() {
    // GIVEN game state in play mode
    let mut state = game_state_in_play_mode();

    // GIVEN all goals dead
    for goal in state.goals.iter_mut() {
        goal.alive = false;
    }

    // WHEN update is called
    state.update(tilt(0.0), tilt(0.0));

    // THEN game transitions to over mode and the low score is updated
    assert_eq!(*state.mode(), Mode::Over);
    assert_eq!(state.low_score(), 2);
}

#[test]
fn transition_from_over_to_play_test() {
    // GIVEN game state in over mode
    let mut state = game_state_in_play_mode();
    for goal in state.goals.iter_mut() {
        goal.alive = false;
    }
    state.update(tilt(0.0), tilt(0.0));
    assert_eq!(*state.mode(), Mode::Over);

    // WHEN update is called
    state.update(tilt(0.0), tilt(0.0));

    // THEN game transitions to play mode
    assert_eq!(*state.mode(), Mode::Play);
}

#[test]
fn ball_moves_right_test() {
    // GIVEN game state in play mode
    let mut state = game_state_in_play_mode();

    // WHEN the roll is positive and above threshold
    state.update(tilt(0.0), tilt(ANGLE_THRESHOLD + 0.1));

    // THEN the ball moves to the right
    assert_eq!(state.ball().location(), ball_location_delta(BALL_DELTA, 0));
}

#[test]
fn ball_moves_left_test() {
    // GIVEN game state in play mode
    let mut state = game_state_in_play_mode();

    // WHEN the roll is negative and above threshold
    state.update(tilt(0.0), tilt(-(ANGLE_THRESHOLD + 0.1)));

    // THEN the ball moves to the left
    assert_eq!(state.ball().location(), ball_location_delta(-BALL_DELTA, 0));
}

#[test]
fn ball_moves_up_test() {
    // GIVEN game state in play mode
    let mut state = game_state_in_play_mode();

    // WHEN the pitch is positive and above threshold
    state.update(tilt(ANGLE_THRESHOLD + 0.1), tilt(0.0));

    // THEN the ball moves to up
    assert_eq!(state.ball().location(), ball_location_delta(0, -BALL_DELTA));
}

#[test]
fn ball_moves_down_test() {
    // GIVEN game state in play mode
    let mut state = game_state_in_play_mode();

    // WHEN the pitch is negative and above threshold
    state.update(tilt(-(ANGLE_THRESHOLD + 0.1)), tilt(0.0));

    // THEN the ball moves to down
    assert_eq!(state.ball().location(), ball_location_delta(0, BALL_DELTA));
}

#[test]
fn ball_moves_diagonally_test() {
    // GIVEN game state in play mode
    let mut state = game_state_in_play_mode();

    // WHEN the pitch and roll are both positive and above threshold
    state.update(tilt(ANGLE_THRESHOLD + 0.1), tilt(ANGLE_THRESHOLD + 0.1));

    // THEN the ball moves to diagonally
    assert_eq!(
        state.ball().location(),
        ball_location_delta(BALL_DELTA, -BALL_DELTA)
    );
}

#[test]
fn ball_stays_put_test() {
    // GIVEN game state in play mode
    let mut state = game_state_in_play_mode();

    // WHEN the pitch and roll are both positive and below threshold
    state.update(tilt(ANGLE_THRESHOLD - 0.1), tilt(ANGLE_THRESHOLD - 0.1));

    // THEN the ball stays put
    assert_eq!(state.ball().location(), State::initial_ball().location());
}

#[test]
fn ball_visits_goal_test() {
    // GIVEN game state in play mode with first goal alive
    let mut state = game_state_in_play_mode();
    assert!(state.goals[0].alive);
    assert_eq!(state.goals_alive().len(), State::initial_goals().len());

    // WHEN the ball moves to visit the goal
    state.ball.location = State::initial_goals()[0].location();
    state.update(tilt(0.0), tilt(0.0));

    // THEN the goal is dead
    assert!(!state.goals[0].alive);
    assert_eq!(
        state.goals_alive().len(),
        State::initial_goals().len() - 1
    );
}

#[test]
fn update_score_test() {
    // GIVEN game state in play mode
    let mut state = game_state_in_play_mode();
    assert_eq!(state.score(), 1);
    // WHEN update is called
    state.update(tilt(0.0), tilt(0.0));
    // THEN the score increments
    assert_eq!(state.score(), 2);
    // WHEN update is called
    state.update(tilt(0.0), tilt(0.0));
    // THEN the score increments
    assert_eq!(state.score(), 3);
}

#[test]
fn screen_outline_test() {
    let state = game_state_in_play_mode();
    assert_eq!(
        state.screen_outline_top_left(),
        Point::new(SCREEN_OUTLINE_LEFT, SCREEN_OUTLINE_TOP)
    );
    assert_eq!(
        state.screen_outline_size(),
        Size::new(SCREEN_OUTLINE_WIDTH, SCREEN_OUTLINE_HEIGHT)
    );
}

#[test]
fn over_to_play_resets_round_test() {
    // complete a round, reach over mode
    let mut state = game_state_in_play_mode();
    for goal in state.goals.iter_mut() {
        goal.alive = false;
    }
    state.update(tilt(0.0), tilt(0.0));
    assert_eq!(*state.mode(), Mode::Over);

    // the restart tick brings back the initial round state
    state.update(tilt(0.0), tilt(0.0));
    assert_eq!(*state.mode(), Mode::Play);
    assert_eq!(state.score(), 0);
    assert_eq!(*state.ball(), State::initial_ball());
    assert_eq!(state.goals_alive().len(), 4);
    for goal in state.goals.iter() {
        assert!(goal.alive);
    }
}

#[test]
fn low_score_never_increases_test() {
    // first completed round: ticks until score 4, then all goals dead
    let mut state = game_state_in_play_mode();
    state.update(tilt(0.0), tilt(0.0));
    state.update(tilt(0.0), tilt(0.0));
    state.update(tilt(0.0), tilt(0.0));
    assert_eq!(state.score(), 4);
    for goal in state.goals.iter_mut() {
        goal.alive = false;
    }
    state.update(tilt(0.0), tilt(0.0));
    assert_eq!(*state.mode(), Mode::Over);
    assert_eq!(state.low_score(), 5);

    // second, quicker round: the low score drops to the new minimum
    state.update(tilt(0.0), tilt(0.0));
    assert_eq!(*state.mode(), Mode::Play);
    for goal in state.goals.iter_mut() {
        goal.alive = false;
    }
    state.update(tilt(0.0), tilt(0.0));
    assert_eq!(*state.mode(), Mode::Over);
    assert_eq!(state.low_score(), 1);

    // third, slower round: the low score stays at the minimum
    state.update(tilt(0.0), tilt(0.0));
    state.update(tilt(0.0), tilt(0.0));
    state.update(tilt(0.0), tilt(0.0));
    for goal in state.goals.iter_mut() {
        goal.alive = false;
    }
    state.update(tilt(0.0), tilt(0.0));
    assert_eq!(*state.mode(), Mode::Over);
    assert_eq!(state.low_score(), 1);
}

#[test]
fn ball_clamps_at_right_bound_test() {
    // repeated ticks with roll above threshold move the ball right in
    // fixed steps until x reaches the right bound, then leave it there
    let mut state = game_state_in_play_mode();
    let start_x = state.ball().location().x;
    assert_eq!(start_x, BALL_START_X);
    let steps_to_bound = (X_MAX - start_x) / BALL_DELTA;
    for step in 1..=steps_to_bound {
        state.update(tilt(0.0), tilt(1.0));
        assert_eq!(state.ball().location().x, start_x + step * BALL_DELTA);
    }
    assert_eq!(state.ball().location().x, X_MAX);
    for _ in 0..5 {
        state.update(tilt(0.0), tilt(1.0));
        assert_eq!(state.ball().location().x, X_MAX);
    }
}

#[test]
fn goal_death_is_permanent_test() {
    // kill the first goal
    let mut state = game_state_in_play_mode();
    state.ball.location = State::initial_goals()[0].location();
    state.update(tilt(0.0), tilt(0.0));
    assert!(!state.goals[0].alive);

    // move the ball away and tick on: the goal stays dead
    state.ball.location = State::initial_ball().location();
    for _ in 0..10 {
        state.update(tilt(0.0), tilt(0.0));
        assert!(!state.goals[0].alive);
    }
}

#[test]
fn non_finite_input_is_neutral_test() {
    // a NaN or infinite sensor reading fails every threshold comparison,
    // so it degrades to no movement on that axis
    assert_eq!(tilt(f32::NAN), Tilt::Neutral);
    assert_eq!(tilt(f32::INFINITY), Tilt::Pos);
    assert_eq!(tilt(f32::NEG_INFINITY), Tilt::Neg);
    let mut state = game_state_in_play_mode();
    state.update(tilt(f32::NAN), tilt(f32::NAN));
    assert_eq!(*state.ball(), State::initial_ball());
}

#[test]
fn end_to_end_example_test() {
    // the default initial ball stands at its fixed start coordinate
    let mut state = State::new();
    assert_eq!(
        state.ball().location(),
        Point::new(BALL_START_X, BALL_START_Y)
    );
    assert_eq!(state.ball().size(), 8);

    // with neutral input the first tick moves nothing and the score
    // becomes 1
    state.update(tilt(0.0), tilt(0.0));
    assert_eq!(
        state.ball().location(),
        Point::new(BALL_START_X, BALL_START_Y)
    );
    assert_eq!(state.score(), 1);

    // placing the ball onto one goal and ticking with neutral input kills
    // exactly that goal
    state.ball.location = state.goals[2].location();
    state.update(tilt(0.0), tilt(0.0));
    assert!(!state.goals[2].alive);
    assert!(state.goals[0].alive);
    assert!(state.goals[1].alive);
    assert!(state.goals[3].alive);
    assert_eq!(state.goals_alive().len(), 3);
}

#[test]
fn goals_alive_keeps_order_test() {
    // killing a middle goal keeps the remaining goals in insertion order
    let mut state = game_state_in_play_mode();
    state.ball.location = state.goals[1].location();
    state.update(tilt(0.0), tilt(0.0));
    let alive = state.goals_alive();
    assert_eq!(alive.len(), 3);
    assert_eq!(alive[0].location(), State::initial_goals()[0].location());
    assert_eq!(alive[1].location(), State::initial_goals()[2].location());
    assert_eq!(alive[2].location(), State::initial_goals()[3].location());
}
