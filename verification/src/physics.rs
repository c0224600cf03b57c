//! One simulation step of the match: paddles track their players' wishes at a
//! bounded speed, the ball bounces off walls and paddles, and a ball that
//! reaches the left or right edge scores and is served again.
//!
//! Positions are 16-bit; every intermediate sum is formed in 32 bits, so the
//! step asks of its input only that the resulting state can be represented.

use crate::ball::BALL_RADIUS;
use crate::lcd::{HEIGHT, WIDTH};
use crate::network::packets::{
    spec_new_gamestate, spec_reset_ball, BallPacket, GamestatePacket, InputPacket, RacketPacket,
    STATE_RUNNING, STATE_WON_PLAYER_1, STATE_WON_PLAYER_2,
};
use crate::racket::{RACKET_HEIGHT, RACKET_WIDTH};
use vstd::prelude::*;

verus! {

/// The most a paddle moves in one tick, in pixels.
pub const RACKET_SPEED: i16 = 8;

/// The number of points that wins the match.
pub const WIN_SCORE: u8 = 9;

/// An axis-aligned box, by its four edges.
#[derive(Debug, Copy, Clone, PartialEq, Eq)]
pub struct Rectangle {
    pub left: i32,
    pub right: i32,
    pub top: i32,
    pub bottom: i32,
}

/// `v`, moved into `low..=high`.
pub open spec fn spec_clamp(v: int, low: int, high: int) -> int {
    if v < low {
        low
    } else if v > high {
        high
    } else {
        v
    }
}

/// The distance of `v` from zero.
pub open spec fn spec_abs(v: int) -> int {
    if v < 0 {
        -v
    } else {
        v
    }
}

/// Where a paddle at `y` stands one tick later when its player asks for
/// `goal_y`: at most `RACKET_SPEED` closer, and inside the field.
pub open spec fn spec_racket_step(y: int, goal_y: int) -> int {
    spec_clamp(
        y + spec_clamp(goal_y - y, -RACKET_SPEED, RACKET_SPEED as int),
        RACKET_HEIGHT as int,
        HEIGHT - 1 - RACKET_HEIGHT,
    )
}

/// The column the ball would reach this tick.
pub open spec fn spec_x_new(ball: BallPacket) -> int {
    ball.x + ball.x_vel
}

/// The row the ball would reach this tick.
pub open spec fn spec_y_new(ball: BallPacket) -> int {
    ball.y + ball.y_vel
}

/// The two boxes share a point.
pub open spec fn spec_overlap(rectangle1: Rectangle, rectangle2: Rectangle) -> bool {
    !(rectangle2.right < rectangle1.left || rectangle2.left > rectangle1.right || rectangle2.top
        > rectangle1.bottom || rectangle2.bottom < rectangle1.top)
}

/// The ball, where it would be after this tick and taken as a horizontal
/// stroke of its own width, meets the paddle where the paddle stood before
/// the tick.
pub open spec fn spec_touches(ball: BallPacket, racket: RacketPacket) -> bool {
    &&& spec_abs(spec_x_new(ball) - racket.x) <= BALL_RADIUS + RACKET_WIDTH
    &&& spec_abs(spec_y_new(ball) - racket.y) <= RACKET_HEIGHT
}

/// The ball meets the paddle having been wholly above it.
pub open spec fn spec_hits_upper_edge(ball: BallPacket, racket: RacketPacket) -> bool {
    spec_touches(ball, racket) && ball.y + BALL_RADIUS < racket.y - RACKET_HEIGHT
}

/// The ball meets the paddle having been wholly below it.
pub open spec fn spec_hits_lower_edge(ball: BallPacket, racket: RacketPacket) -> bool {
    spec_touches(ball, racket) && ball.y - BALL_RADIUS > racket.y + RACKET_HEIGHT
}

/// The ball meets the paddle from neither above nor below. An edge hit is
/// never also a face hit.
pub open spec fn spec_hits_face(ball: BallPacket, racket: RacketPacket) -> bool {
    &&& spec_touches(ball, racket)
    &&& !(ball.y + BALL_RADIUS < racket.y - RACKET_HEIGHT)
    &&& !(ball.y - BALL_RADIUS > racket.y + RACKET_HEIGHT)
}

/// The ball would leave the field through the top or the bottom wall.
pub open spec fn spec_hits_wall(ball: BallPacket) -> bool {
    spec_y_new(ball) < BALL_RADIUS || spec_y_new(ball) > HEIGHT - 1 - BALL_RADIUS
}

/// The ball reaches the left edge: a point for the right player.
pub open spec fn spec_in_left_goal(ball: BallPacket) -> bool {
    spec_x_new(ball) <= BALL_RADIUS
}

/// The ball reaches the right edge: a point for the left player.
pub open spec fn spec_in_right_goal(ball: BallPacket) -> bool {
    spec_x_new(ball) >= WIDTH - 1 - BALL_RADIUS
}

/// The ball's vertical velocity after this tick's collisions: a wall turns
/// it round; after that a hit on a paddle's upper edge sends the ball up and,
/// failing that, a hit on a lower edge sends it down.
pub open spec fn spec_next_y_vel(state: GamestatePacket) -> int {
    let ball = state.ball;
    let after_wall = if spec_hits_wall(ball) {
        -ball.y_vel
    } else {
        ball.y_vel as int
    };
    if spec_hits_upper_edge(ball, state.rackets[0]) || spec_hits_upper_edge(
        ball,
        state.rackets[1],
    ) {
        -spec_abs(after_wall)
    } else if spec_hits_lower_edge(ball, state.rackets[0]) || spec_hits_lower_edge(
        ball,
        state.rackets[1],
    ) {
        spec_abs(after_wall)
    } else {
        after_wall
    }
}

/// The ball's horizontal velocity after this tick's collisions, when no goal
/// is scored: a hit on a paddle's face sends the ball towards the far half.
pub open spec fn spec_next_x_vel(state: GamestatePacket) -> int {
    let ball = state.ball;
    if spec_hits_face(ball, state.rackets[0]) || spec_hits_face(ball, state.rackets[1]) {
        if spec_x_new(ball) > WIDTH / 2 {
            -spec_abs(ball.x_vel as int)
        } else {
            spec_abs(ball.x_vel as int)
        }
    } else {
        ball.x_vel as int
    }
}

/// The ball after a tick in which no goal is scored: it moves by its
/// velocity as the collisions left it.
pub open spec fn spec_moved_ball(state: GamestatePacket) -> BallPacket {
    BallPacket {
        x: (state.ball.x + spec_next_x_vel(state)) as i16,
        y: (state.ball.y + spec_next_y_vel(state)) as i16,
        x_vel: spec_next_x_vel(state) as i16,
        y_vel: spec_next_y_vel(state) as i16,
    }
}

/// The state that follows `state` can be represented: where the match is
/// running, a point scored fits the score byte, and without a goal the ball's
/// new position and velocity fit 16 bits.
pub open spec fn spec_tick_fits(state: GamestatePacket) -> bool {
    if state.state != STATE_RUNNING {
        true
    } else if spec_in_left_goal(state.ball) {
        state.score[1] < u8::MAX
    } else if spec_in_right_goal(state.ball) {
        state.score[0] < u8::MAX
    } else {
        &&& i16::MIN <= spec_next_x_vel(state) <= i16::MAX
        &&& i16::MIN <= spec_next_y_vel(state) <= i16::MAX
        &&& i16::MIN <= state.ball.x + spec_next_x_vel(state) <= i16::MAX
        &&& i16::MIN <= state.ball.y + spec_next_y_vel(state) <= i16::MAX
    }
}

/// The state one tick after `state`.
///
/// Nothing moves unless the match is running. Otherwise both paddles step
/// towards their players' wishes. A ball that reaches the left or right edge
/// scores for the player on the other side, ends the match at `WIN_SCORE`
/// points and is served again; any other ball moves on.
pub open spec fn spec_tick(
    state: GamestatePacket,
    inputs: [InputPacket; 2],
    total_time: usize,
) -> GamestatePacket {
    if state.state != STATE_RUNNING {
        state
    } else {
        let rackets = [
            RacketPacket {
                x: state.rackets[0].x,
                y: spec_racket_step(state.rackets[0].y as int, inputs[0].goal_y as int) as i16,
            },
            RacketPacket {
                x: state.rackets[1].x,
                y: spec_racket_step(state.rackets[1].y as int, inputs[1].goal_y as int) as i16,
            },
        ];
        if spec_in_left_goal(state.ball) {
            GamestatePacket {
                rackets,
                ball: spec_reset_ball(total_time),
                score: [state.score[0], (state.score[1] + 1) as u8],
                state: if state.score[1] + 1 >= WIN_SCORE {
                    STATE_WON_PLAYER_2
                } else {
                    STATE_RUNNING
                },
            }
        } else if spec_in_right_goal(state.ball) {
            GamestatePacket {
                rackets,
                ball: spec_reset_ball(total_time),
                score: [(state.score[0] + 1) as u8, state.score[1]],
                state: if state.score[0] + 1 >= WIN_SCORE {
                    STATE_WON_PLAYER_1
                } else {
                    STATE_RUNNING
                },
            }
        } else {
            GamestatePacket {
                rackets,
                ball: spec_moved_ball(state),
                score: state.score,
                state: STATE_RUNNING,
            }
        }
    }
}

impl Rectangle {
    /// The box around a centre, by half its width and half its height.
    pub fn new(centre_x: i32, centre_y: i32, width: i32, height: i32) -> (result: Rectangle)
        requires
            i32::MIN <= centre_x - width <= i32::MAX,
            i32::MIN <= centre_x + width <= i32::MAX,
            i32::MIN <= centre_y - height <= i32::MAX,
            i32::MIN <= centre_y + height <= i32::MAX,
        ensures
            result.left == centre_x - width,
            result.right == centre_x + width,
            result.top == centre_y - height,
            result.bottom == centre_y + height,
    {
        Rectangle {
            left: centre_x - width,
            right: centre_x + width,
            top: centre_y - height,
            bottom: centre_y + height,
        }
    }
}

/// Whether two boxes share a point; edges that touch count.
pub fn overlap_test(rectangle1: Rectangle, rectangle2: Rectangle) -> (result: bool)
    ensures
        result == spec_overlap(rectangle1, rectangle2),
{
    !(rectangle2.right < rectangle1.left || rectangle2.left > rectangle1.right || rectangle2.top
        > rectangle1.bottom || rectangle2.bottom < rectangle1.top)
}

/// The distance of `value` from zero.
pub fn abs(value: i32) -> (result: i32)
    requires
        value > i32::MIN,
    ensures
        result == spec_abs(value as int),
{
    if value < 0 {
        -value
    } else {
        value
    }
}

/// Moves a paddle one tick towards `goal_y`.
fn racket_step(y: i16, goal_y: i16) -> (result: i16)
    ensures
        result == spec_racket_step(y as int, goal_y as int),
{
    let racket_height: i32 = RACKET_HEIGHT as i32;
    let height: i32 = HEIGHT as i32;
    let speed: i32 = RACKET_SPEED as i32;
    let mut racket_pos: i32 = y as i32;
    let mut input_direction: i32 = goal_y as i32 - racket_pos;
    if input_direction > speed {
        input_direction = speed;
    } else if input_direction < -speed {
        input_direction = -speed;
    }
    racket_pos += input_direction;
    if racket_pos < racket_height {
        racket_pos = racket_height;
    } else if racket_pos > height - 1 - racket_height {
        racket_pos = height - 1 - racket_height;
    }
    racket_pos as i16
}

/// Whether the ball meets a paddle this tick, and where: on the upper edge,
/// on the lower edge, or on the face.
fn contact(ball: &BallPacket, racket: &RacketPacket) -> (result: (bool, bool, bool))
    ensures
        result.0 == spec_hits_upper_edge(*ball, *racket),
        result.1 == spec_hits_lower_edge(*ball, *racket),
        result.2 == spec_hits_face(*ball, *racket),
{
    let racket_width: i32 = RACKET_WIDTH as i32;
    let racket_height: i32 = RACKET_HEIGHT as i32;
    let ball_radius: i32 = BALL_RADIUS as i32;
    let x_pos_new: i32 = ball.x as i32 + ball.x_vel as i32;
    let y_pos_new: i32 = ball.y as i32 + ball.y_vel as i32;
    let rect_ball = Rectangle::new(x_pos_new, y_pos_new, ball_radius, 0);
    let rect_racket = Rectangle::new(racket.x as i32, racket.y as i32, racket_width, racket_height);
    if overlap_test(rect_ball, rect_racket) {
        if (ball.y as i32) + ball_radius < (racket.y as i32) - racket_height {
            (true, false, false)
        } else if (ball.y as i32) - ball_radius > (racket.y as i32) + racket_height {
            (false, true, false)
        } else {
            (false, false, true)
        }
    } else {
        (false, false, false)
    }
}

/// The ball's velocity after this tick's collisions, horizontal then
/// vertical, for a tick in which no goal is scored.
fn next_velocity(state: &GamestatePacket) -> (result: (i32, i32))
    ensures
        result.0 == spec_next_x_vel(*state),
        result.1 == spec_next_y_vel(*state),
{
    let ball_radius: i32 = BALL_RADIUS as i32;
    let height: i32 = HEIGHT as i32;
    let width: i32 = WIDTH as i32;
    let ball = state.ball;
    let x_pos_new: i32 = ball.x as i32 + ball.x_vel as i32;
    let y_pos_new: i32 = ball.y as i32 + ball.y_vel as i32;

    // the paddles, as they stood before this tick, against the moved ball
    let (left_upper, left_lower, left_face) = contact(&ball, &state.rackets[0]);
    let (right_upper, right_lower, right_face) = contact(&ball, &state.rackets[1]);
    let touches_racket_upper_side = left_upper || right_upper;
    let touches_racket_under_side = left_lower || right_lower;
    let touches_racket_face = left_face || right_face;

    // top and bottom walls, then the paddles' edges
    let mut y_vel: i32 = ball.y_vel as i32;
    if y_pos_new < ball_radius || y_pos_new > height - 1 - ball_radius {
        y_vel = -y_vel;
    }
    if touches_racket_upper_side {
        y_vel = -abs(y_vel);
    } else if touches_racket_under_side {
        y_vel = abs(y_vel);
    }
    // the paddles' faces
    let mut x_vel: i32 = ball.x_vel as i32;
    if touches_racket_face {
        if x_pos_new > width / 2 {
            x_vel = -abs(x_vel);
        } else {
            x_vel = abs(x_vel);
        }
    }
    (x_vel, y_vel)
}

/// Whether `value` is a 16-bit position or velocity.
fn fits_i16(value: i32) -> (result: bool)
    ensures
        result == (i16::MIN <= value <= i16::MAX),
{
    -32768 <= value && value <= 32767
}

/// Whether the state that follows `state` can be represented, which is what
/// `calculate_physics` asks of its input.
pub fn tick_fits(state: &GamestatePacket) -> (result: bool)
    ensures
        result == spec_tick_fits(*state),
{
    let ball_radius: i32 = BALL_RADIUS as i32;
    let width: i32 = WIDTH as i32;
    let x_pos_new: i32 = state.ball.x as i32 + state.ball.x_vel as i32;
    if state.state != STATE_RUNNING {
        true
    } else if x_pos_new <= ball_radius {
        state.score[1] < 255
    } else if x_pos_new >= width - 1 - ball_radius {
        state.score[0] < 255
    } else {
        let (x_vel, y_vel) = next_velocity(state);
        fits_i16(x_vel) && fits_i16(y_vel) && fits_i16(state.ball.x as i32 + x_vel) && fits_i16(
            state.ball.y as i32 + y_vel,
        )
    }
}

/// Advances the match by one tick.
pub fn calculate_physics(
    server_gamestate: &mut GamestatePacket,
    inputs: [InputPacket; 2],
    total_time: usize,
)
    requires
        spec_tick_fits(*old(server_gamestate)),
    ensures
        *final(server_gamestate) == spec_tick(*old(server_gamestate), inputs, total_time),
{
    if server_gamestate.state != STATE_RUNNING {
        return ;
    }
    let ball_radius: i32 = BALL_RADIUS as i32;
    let width: i32 = WIDTH as i32;
    let ball = server_gamestate.ball;
    let x_pos_new: i32 = ball.x as i32 + ball.x_vel as i32;
    let (x_vel, y_vel) = next_velocity(server_gamestate);

    // each paddle follows its player
    let left = server_gamestate.rackets[0];
    let right = server_gamestate.rackets[1];
    server_gamestate.rackets = [
        RacketPacket { x: left.x, y: racket_step(left.y, inputs[0].goal_y) },
        RacketPacket { x: right.x, y: racket_step(right.y, inputs[1].goal_y) },
    ];

    if x_pos_new <= ball_radius {
        // a goal on the left: the right player scores
        server_gamestate.score = [server_gamestate.score[0], server_gamestate.score[1] + 1];
        if server_gamestate.score[1] >= WIN_SCORE {
            server_gamestate.state = STATE_WON_PLAYER_2;
        }
        server_gamestate.ball.reset(total_time);
    } else if x_pos_new >= width - 1 - ball_radius {
        // a goal on the right: the left player scores
        server_gamestate.score = [server_gamestate.score[0] + 1, server_gamestate.score[1]];
        if server_gamestate.score[0] >= WIN_SCORE {
            server_gamestate.state = STATE_WON_PLAYER_1;
        }
        server_gamestate.ball.reset(total_time);
    } else {
        server_gamestate.ball = BallPacket {
            x: (ball.x as i32 + x_vel) as i16,
            y: (ball.y as i32 + y_vel) as i16,
            x_vel: x_vel as i16,
            y_vel: y_vel as i16,
        };
    }
    assert(server_gamestate.rackets =~= spec_tick(
        *old(server_gamestate),
        inputs,
        total_time,
    ).rackets);
    assert(server_gamestate.score =~= spec_tick(*old(server_gamestate), inputs, total_time).score);
}

/// The state after a tick that is made only where the next state can be
/// represented: else the state stays as it is.
pub open spec fn spec_advance(
    state: GamestatePacket,
    inputs: [InputPacket; 2],
    total_time: usize,
) -> GamestatePacket {
    if spec_tick_fits(state) {
        spec_tick(state, inputs, total_time)
    } else {
        state
    }
}

/// Advances the match by one tick, for every state and every input. Where
/// the next state cannot be represented nothing changes; the result says
/// whether the tick was made. Paddles that stand inside the field stay
/// inside it, whatever the players ask for.
pub fn advance_tick(
    state: &mut GamestatePacket,
    inputs: [InputPacket; 2],
    total_time: usize,
) -> (advanced: bool)
    ensures
        advanced == spec_tick_fits(*old(state)),
        *final(state) == spec_advance(*old(state), inputs, total_time),
        spec_racket_in_bounds(old(state).rackets[0]) ==> spec_racket_in_bounds(
            final(state).rackets[0],
        ),
        spec_racket_in_bounds(old(state).rackets[1]) ==> spec_racket_in_bounds(
            final(state).rackets[1],
        ),
        final(state).rackets[0].x == old(state).rackets[0].x,
        final(state).rackets[1].x == old(state).rackets[1].x,
{
    if tick_fits(state) {
        calculate_physics(state, inputs, total_time);
        true
    } else {
        false
    }
}

/// A paddle lies inside the field.
pub open spec fn spec_racket_in_bounds(racket: RacketPacket) -> bool {
    RACKET_HEIGHT <= racket.y <= HEIGHT - 1 - RACKET_HEIGHT
}

/// A state from which play can go on for any number of ticks: paddles and
/// ball inside the field, the ball no faster than its own radius per tick,
/// and a running match not yet decided.
pub open spec fn spec_playable(state: GamestatePacket) -> bool {
    &&& spec_racket_in_bounds(state.rackets[0])
    &&& spec_racket_in_bounds(state.rackets[1])
    &&& BALL_RADIUS <= state.ball.y <= HEIGHT - 1 - BALL_RADIUS
    &&& BALL_RADIUS < state.ball.x < WIDTH - 1 - BALL_RADIUS
    &&& spec_abs(state.ball.x_vel as int) <= BALL_RADIUS
    &&& spec_abs(state.ball.y_vel as int) <= BALL_RADIUS
    &&& state.state == STATE_RUNNING ==> state.score[0] < WIN_SCORE && state.score[1] < WIN_SCORE
}

/// Whether play can go on from `state`, which is what a frame of play asks
/// of the match it is handed.
pub fn playable(state: &GamestatePacket) -> (result: bool)
    ensures
        result == spec_playable(*state),
{
    let ball = state.ball;
    30 <= state.rackets[0].y && state.rackets[0].y <= 241 && 30 <= state.rackets[1].y
        && state.rackets[1].y <= 241 && 10 <= ball.y && ball.y <= 261 && 10 < ball.x && ball.x
        < 469 && -10 <= ball.x_vel && ball.x_vel <= 10 && -10 <= ball.y_vel && ball.y_vel <= 10 && (
    state.state != STATE_RUNNING || (state.score[0] < WIN_SCORE && state.score[1] < WIN_SCORE))
}

/// A paddle that starts inside the field moves towards its goal, by at most
/// `RACKET_SPEED`, and never past it.
pub proof fn lemma_racket_tracks_goal(y: i16, goal_y: i16)
    requires
        RACKET_HEIGHT <= y <= HEIGHT - 1 - RACKET_HEIGHT,
    ensures
        spec_abs(spec_racket_step(y as int, goal_y as int) - y) <= RACKET_SPEED,
        y <= goal_y ==> y <= spec_racket_step(y as int, goal_y as int) <= goal_y,
        goal_y <= y ==> goal_y <= spec_racket_step(y as int, goal_y as int) <= y,
{
}

/// Paddles stay inside the field: whatever the players ask for, a tick
/// leaves each paddle that was inside the field inside the field.
pub proof fn lemma_rackets_stay_in_bounds(
    state: GamestatePacket,
    inputs: [InputPacket; 2],
    total_time: usize,
)
    requires
        spec_racket_in_bounds(state.rackets[0]),
        spec_racket_in_bounds(state.rackets[1]),
    ensures
        spec_racket_in_bounds(spec_tick(state, inputs, total_time).rackets[0]),
        spec_racket_in_bounds(spec_tick(state, inputs, total_time).rackets[1]),
        spec_tick(state, inputs, total_time).rackets[0].x == state.rackets[0].x,
        spec_tick(state, inputs, total_time).rackets[1].x == state.rackets[1].x,
{
}

/// While the match is running a tick puts each paddle inside the field,
/// wherever it stood before.
pub proof fn lemma_running_tick_bounds_rackets(
    state: GamestatePacket,
    inputs: [InputPacket; 2],
    total_time: usize,
)
    requires
        state.state == STATE_RUNNING,
    ensures
        spec_racket_in_bounds(spec_tick(state, inputs, total_time).rackets[0]),
        spec_racket_in_bounds(spec_tick(state, inputs, total_time).rackets[1]),
{
}

/// A match that is not running stands still: a tick changes nothing.
pub proof fn lemma_tick_idle_unless_running(
    state: GamestatePacket,
    inputs: [InputPacket; 2],
    total_time: usize,
)
    requires
        state.state != STATE_RUNNING,
    ensures
        spec_tick(state, inputs, total_time) == state,
{
}

/// Once a tick has decided the match, every later tick leaves the state as
/// that tick left it.
pub proof fn lemma_won_is_final(
    state: GamestatePacket,
    inputs: [InputPacket; 2],
    total_time: usize,
    later_inputs: [InputPacket; 2],
    later_time: usize,
)
    requires
        spec_tick(state, inputs, total_time).state != STATE_RUNNING,
    ensures
        spec_tick(spec_tick(state, inputs, total_time), later_inputs, later_time) == spec_tick(
            state,
            inputs,
            total_time,
        ),
{
}

/// A running match is decided exactly by the point that brings a player to
/// `WIN_SCORE`.
pub proof fn lemma_win_transition(
    state: GamestatePacket,
    inputs: [InputPacket; 2],
    total_time: usize,
)
    requires
        state.state == STATE_RUNNING,
    ensures
        spec_tick(state, inputs, total_time).state == STATE_WON_PLAYER_2 <==> spec_in_left_goal(
            state.ball,
        ) && state.score[1] + 1 >= WIN_SCORE,
        spec_tick(state, inputs, total_time).state == STATE_WON_PLAYER_1 <==> !spec_in_left_goal(
            state.ball,
        ) && spec_in_right_goal(state.ball) && state.score[0] + 1 >= WIN_SCORE,
{
}

/// A wall turns the ball round: a ball that would cross the top or the
/// bottom wall, and meets no paddle's edge, leaves with its vertical
/// velocity reversed. A ball falling towards the top wall so leaves it
/// rising, and the other way round.
pub proof fn lemma_wall_reflects(
    state: GamestatePacket,
    inputs: [InputPacket; 2],
    total_time: usize,
)
    requires
        state.state == STATE_RUNNING,
        spec_tick_fits(state),
        !spec_in_left_goal(state.ball),
        !spec_in_right_goal(state.ball),
        spec_hits_wall(state.ball),
        !spec_hits_upper_edge(state.ball, state.rackets[0]),
        !spec_hits_upper_edge(state.ball, state.rackets[1]),
        !spec_hits_lower_edge(state.ball, state.rackets[0]),
        !spec_hits_lower_edge(state.ball, state.rackets[1]),
    ensures
        spec_tick(state, inputs, total_time).ball.y_vel == -state.ball.y_vel,
        spec_tick(state, inputs, total_time).ball.y == state.ball.y - state.ball.y_vel,
{
}

/// A goal gives one point to the player on the other side, and the ball is
/// served from the centre of the field; without a goal the scores stand.
pub proof fn lemma_goal_scores_and_serves(
    state: GamestatePacket,
    inputs: [InputPacket; 2],
    total_time: usize,
)
    requires
        state.state == STATE_RUNNING,
        spec_tick_fits(state),
    ensures
        spec_in_left_goal(state.ball) ==> {
            &&& spec_tick(state, inputs, total_time).score[0] == state.score[0]
            &&& spec_tick(state, inputs, total_time).score[1] == state.score[1] + 1
            &&& spec_tick(state, inputs, total_time).ball == spec_reset_ball(total_time)
        },
        !spec_in_left_goal(state.ball) && spec_in_right_goal(state.ball) ==> {
            &&& spec_tick(state, inputs, total_time).score[0] == state.score[0] + 1
            &&& spec_tick(state, inputs, total_time).score[1] == state.score[1]
            &&& spec_tick(state, inputs, total_time).ball == spec_reset_ball(total_time)
        },
        !spec_in_left_goal(state.ball) && !spec_in_right_goal(state.ball) ==> {
            &&& spec_tick(state, inputs, total_time).score == state.score
            &&& spec_tick(state, inputs, total_time).state == STATE_RUNNING
        },
        spec_reset_ball(total_time).x == WIDTH / 2,
        spec_reset_ball(total_time).y == HEIGHT / 2,
{
}

/// During play a ball is too slow to jump from beside a paddle into its
/// span: from a playable state no paddle is hit on an edge, so a paddle can
/// only ever turn the ball round by its face.
pub proof fn lemma_playable_has_no_edge_hits(state: GamestatePacket)
    requires
        spec_playable(state),
    ensures
        !spec_hits_upper_edge(state.ball, state.rackets[0]),
        !spec_hits_upper_edge(state.ball, state.rackets[1]),
        !spec_hits_lower_edge(state.ball, state.rackets[0]),
        !spec_hits_lower_edge(state.ball, state.rackets[1]),
{
}

/// A fresh match is playable.
pub proof fn lemma_new_is_playable(total_time: usize)
    ensures
        spec_playable(spec_new_gamestate(total_time)),
{
}

/// Play can always go on: from a playable state the next state can be
/// represented and is playable again. In particular the ball stays between
/// the top and the bottom wall.
pub proof fn lemma_tick_keeps_playable(
    state: GamestatePacket,
    inputs: [InputPacket; 2],
    total_time: usize,
)
    requires
        spec_playable(state),
    ensures
        spec_tick_fits(state),
        spec_playable(spec_tick(state, inputs, total_time)),
{
}

} // verus!
