//! What the players' fingers ask for.
//!
//! The touch panel is polled by the caller once a frame; the points it
//! reports are handed in, first touch first.

use crate::network::packets::InputPacket;
use vstd::prelude::*;

verus! {

/// One finger on the panel.
#[derive(Debug, Copy, Clone, PartialEq, Eq)]
pub struct TouchPoint {
    pub x: u16,
    pub y: u16,
}

/// Remembers whether the panel was touched a frame ago.
pub struct Input {
    pub touch_last_frame: bool,
}

/// What a menu sees of the panel in one frame.
#[derive(Debug, Copy, Clone, PartialEq, Eq)]
pub struct Touch {
    pub is_down: bool,
    pub x: u16,
    pub y: u16,
    /// Was there a touch in the last frame?
    pub any_touch_last_frame: bool,
}

/// The rightmost column that steers the left paddle.
pub const PLAYER_1_MAX_X: u16 = 199;

/// The leftmost column that steers the right paddle.
pub const PLAYER_2_MIN_X: u16 = 280;

/// A row of the panel as a paddle's goal: its 16 bits read as a signed number.
pub open spec fn spec_as_goal(y: u16) -> i16 {
    if y < 0x8000 {
        y as i16
    } else {
        (y - 0x1_0000) as i16
    }
}

/// The goal a paddle is left with after a frame's touches: the row of the
/// last touch between the columns `x_min` and `x_max`, or the goal it had
/// where there is none.
pub open spec fn spec_goal_after(
    current: i16,
    touches: Seq<TouchPoint>,
    x_min: int,
    x_max: int,
) -> i16
    decreases touches.len(),
{
    if touches.len() == 0 {
        current
    } else if x_min <= touches.last().x <= x_max {
        spec_as_goal(touches.last().y)
    } else {
        spec_goal_after(current, touches.drop_last(), x_min, x_max)
    }
}

/// What a menu sees: the first touch if there is one.
pub open spec fn spec_menu_touch(touches: Seq<TouchPoint>, touch_last_frame: bool) -> Touch {
    if touches.len() == 0 {
        Touch { is_down: false, x: 0, y: 0, any_touch_last_frame: touch_last_frame }
    } else {
        Touch {
            is_down: true,
            x: touches[0].x,
            y: touches[0].y,
            any_touch_last_frame: touch_last_frame,
        }
    }
}

/// Reads a row of the panel as a goal.
fn as_goal(y: u16) -> (result: i16)
    ensures
        result == spec_as_goal(y),
{
    if y < 0x8000 {
        y as i16
    } else {
        (y as i32 - 0x1_0000) as i16
    }
}

impl Input {
    /// No touch seen so far.
    pub fn new() -> (result: Input)
        ensures
            !result.touch_last_frame,
    {
        Input { touch_last_frame: false }
    }

    /// Two players on one board: touches in the left part of the panel
    /// steer the left paddle, touches in the right part the right one.
    pub fn evaluate_touch_two_players(
        &mut self,
        touches: &Vec<TouchPoint>,
        local_input_1: &mut InputPacket,
        local_input_2: &mut InputPacket,
    )
        ensures
            *final(self) == *old(self),
            final(local_input_1).goal_y == spec_goal_after(
                old(local_input_1).goal_y,
                touches@,
                0,
                PLAYER_1_MAX_X as int,
            ),
            final(local_input_2).goal_y == spec_goal_after(
                old(local_input_2).goal_y,
                touches@,
                PLAYER_2_MIN_X as int,
                u16::MAX as int,
            ),
    {
        let mut i: usize = 0;
        assert(touches@.take(0) =~= Seq::<TouchPoint>::empty());
        while i < touches.len()
            invariant
                i <= touches.len(),
                local_input_1.goal_y == spec_goal_after(
                    old(local_input_1).goal_y,
                    touches@.take(i as int),
                    0,
                    PLAYER_1_MAX_X as int,
                ),
                local_input_2.goal_y == spec_goal_after(
                    old(local_input_2).goal_y,
                    touches@.take(i as int),
                    PLAYER_2_MIN_X as int,
                    u16::MAX as int,
                ),
            decreases touches.len() - i,
        {
            let touch = touches[i];
            assert(touches@.take(i + 1).drop_last() =~= touches@.take(i as int));
            // Player_1
            if touch.x <= PLAYER_1_MAX_X {
                local_input_1.goal_y = as_goal(touch.y);
            }
            // Player_2
            if touch.x >= PLAYER_2_MIN_X {
                local_input_2.goal_y = as_goal(touch.y);
            }
            i += 1;
        }
        assert(touches@.take(touches.len() as int) =~= touches@);
    }

    /// One player on this board: every touch steers the paddle.
    pub fn evaluate_touch_one_player(
        &mut self,
        touches: &Vec<TouchPoint>,
        local_input_1: &mut InputPacket,
    )
        ensures
            *final(self) == *old(self),
            final(local_input_1).goal_y == spec_goal_after(
                old(local_input_1).goal_y,
                touches@,
                0,
                u16::MAX as int,
            ),
    {
        let mut i: usize = 0;
        assert(touches@.take(0) =~= Seq::<TouchPoint>::empty());
        while i < touches.len()
            invariant
                i <= touches.len(),
                local_input_1.goal_y == spec_goal_after(
                    old(local_input_1).goal_y,
                    touches@.take(i as int),
                    0,
                    u16::MAX as int,
                ),
            decreases touches.len() - i,
        {
            let touch = touches[i];
            assert(touches@.take(i + 1).drop_last() =~= touches@.take(i as int));
            local_input_1.goal_y = as_goal(touch.y);
            i += 1;
        }
        assert(touches@.take(touches.len() as int) =~= touches@);
    }

    /// A menu looks at the first touch only, and remembers for the next
    /// frame whether there was one.
    pub fn handle_menu(&mut self, touches: &Vec<TouchPoint>) -> (result: Touch)
        ensures
            result == spec_menu_touch(touches@, old(self).touch_last_frame),
            final(self).touch_last_frame == (touches@.len() > 0),
    {
        let mut result = Touch {
            is_down: false,
            x: 0,
            y: 0,
            any_touch_last_frame: self.touch_last_frame,
        };
        self.touch_last_frame = false;
        if touches.len() > 0 {
            // only get the first touch
            let touch = touches[0];
            self.touch_last_frame = true;
            result.is_down = true;
            result.x = touch.x;
            result.y = touch.y;
        }
        result
    }
}

/// A press is a touch that was not there a frame ago.
pub open spec fn spec_pressed(touch: Touch) -> bool {
    touch.is_down && !touch.any_touch_last_frame
}

} // verus!
