//! The ball as it is drawn.

use crate::graphics::{
    draw_circle, draw_partial_circle, spec_draw_circle, spec_draw_partial_circle,
};
use crate::lcd::{Framebuffer, HEIGHT, WIDTH};
use crate::network::packets::BallPacket;
use crate::BGCOLOR;
use vstd::prelude::*;

verus! {

/// The colour index the ball is drawn in.
pub const BALL_COLOR: u8 = 255;

/// The ball's radius, in pixels.
pub const BALL_RADIUS: u16 = 10;

/// The ball on the screen: where its centre is, and where it was a frame ago.
pub struct Ball {
    xpos_centre: u16,
    ypos_centre: u16,
    xpos_centre_old: u16,
    ypos_centre_old: u16,
}

/// A ball centred at `x`, `y` lies wholly on the screen.
pub open spec fn spec_ball_on_screen(x: int, y: int) -> bool {
    &&& BALL_RADIUS <= x
    &&& x + BALL_RADIUS < WIDTH
    &&& BALL_RADIUS <= y
    &&& y + BALL_RADIUS < HEIGHT
}

/// The picture with the ball drawn over it.
pub open spec fn spec_draw_ball(pixels: Seq<u8>, x: int, y: int) -> Seq<u8> {
    spec_draw_circle(pixels, x, y, BALL_RADIUS as int, BALL_COLOR)
}

/// The picture after the ball has moved: what only the old ball covered is
/// wiped, what only the new ball covers is drawn.
pub open spec fn spec_move_ball(
    pixels: Seq<u8>,
    old_x: int,
    old_y: int,
    new_x: int,
    new_y: int,
) -> Seq<u8> {
    spec_draw_partial_circle(
        spec_draw_partial_circle(
            pixels,
            old_x,
            old_y,
            new_x,
            new_y,
            BALL_RADIUS as int,
            BALL_RADIUS as int,
            BGCOLOR,
        ),
        new_x,
        new_y,
        old_x,
        old_y,
        BALL_RADIUS as int,
        BALL_RADIUS as int,
        BALL_COLOR,
    )
}

impl Ball {
    /// The column of the centre.
    pub closed spec fn spec_xpos_centre(&self) -> u16 {
        self.xpos_centre
    }

    /// The row of the centre.
    pub closed spec fn spec_ypos_centre(&self) -> u16 {
        self.ypos_centre
    }

    /// The column of the centre a frame ago.
    pub closed spec fn spec_xpos_centre_old(&self) -> u16 {
        self.xpos_centre_old
    }

    /// The row of the centre a frame ago.
    pub closed spec fn spec_ypos_centre_old(&self) -> u16 {
        self.ypos_centre_old
    }

    /// A ball in the middle of the field.
    pub fn new() -> (result: Ball)
        ensures
            result.spec_xpos_centre() == 239,
            result.spec_ypos_centre() == 135,
            result.spec_xpos_centre_old() == 239,
            result.spec_ypos_centre_old() == 135,
    {
        Ball { xpos_centre: 239, ypos_centre: 135, xpos_centre_old: 239, ypos_centre_old: 135 }
    }

    pub fn set_xpos_centre(&mut self, xpos_centre_set: u16)
        ensures
            final(self).spec_xpos_centre() == xpos_centre_set,
            final(self).spec_ypos_centre() == old(self).spec_ypos_centre(),
            final(self).spec_xpos_centre_old() == old(self).spec_xpos_centre_old(),
            final(self).spec_ypos_centre_old() == old(self).spec_ypos_centre_old(),
    {
        self.xpos_centre = xpos_centre_set;
    }

    pub fn set_xpos_centre_old(&mut self, xpos_centre_set: u16)
        ensures
            final(self).spec_xpos_centre_old() == xpos_centre_set,
            final(self).spec_xpos_centre() == old(self).spec_xpos_centre(),
            final(self).spec_ypos_centre() == old(self).spec_ypos_centre(),
            final(self).spec_ypos_centre_old() == old(self).spec_ypos_centre_old(),
    {
        self.xpos_centre_old = xpos_centre_set;
    }

    pub fn set_ypos_centre(&mut self, ypos_centre_set: u16)
        ensures
            final(self).spec_ypos_centre() == ypos_centre_set,
            final(self).spec_xpos_centre() == old(self).spec_xpos_centre(),
            final(self).spec_xpos_centre_old() == old(self).spec_xpos_centre_old(),
            final(self).spec_ypos_centre_old() == old(self).spec_ypos_centre_old(),
    {
        self.ypos_centre = ypos_centre_set;
    }

    pub fn set_ypos_centre_old(&mut self, ypos_centre_set: u16)
        ensures
            final(self).spec_ypos_centre_old() == ypos_centre_set,
            final(self).spec_xpos_centre() == old(self).spec_xpos_centre(),
            final(self).spec_ypos_centre() == old(self).spec_ypos_centre(),
            final(self).spec_xpos_centre_old() == old(self).spec_xpos_centre_old(),
    {
        self.ypos_centre_old = ypos_centre_set;
    }

    pub fn get_xpos_centre(&self) -> (result: u16)
        ensures
            result == self.spec_xpos_centre(),
    {
        self.xpos_centre
    }

    pub fn get_xpos_centre_old(&self) -> (result: u16)
        ensures
            result == self.spec_xpos_centre_old(),
    {
        self.xpos_centre_old
    }

    pub fn get_ypos_centre(&self) -> (result: u16)
        ensures
            result == self.spec_ypos_centre(),
    {
        self.ypos_centre
    }

    pub fn get_ypos_centre_old(&self) -> (result: u16)
        ensures
            result == self.spec_ypos_centre_old(),
    {
        self.ypos_centre_old
    }

    /// Draws the whole ball where it is.
    pub fn draw_ball<F: Framebuffer>(&self, buffer: &mut F)
        requires
            old(buffer).spec_wf(),
            spec_ball_on_screen(self.spec_xpos_centre() as int, self.spec_ypos_centre() as int),
        ensures
            final(buffer).spec_wf(),
            final(buffer).spec_pixels() == spec_draw_ball(
                old(buffer).spec_pixels(),
                self.spec_xpos_centre() as int,
                self.spec_ypos_centre() as int,
            ),
            final(buffer).spec_shown() == old(buffer).spec_shown(),
    {
        draw_circle(
            buffer,
            self.xpos_centre as u32,
            self.ypos_centre as u32,
            BALL_RADIUS as u32,
            BALL_COLOR,
        );
    }

    /// Moves the ball to where the match has it and redraws only what
    /// changed.
    pub fn update_ball_pos<F: Framebuffer>(&mut self, framebuffer: &mut F, new_ball: BallPacket)
        requires
            old(framebuffer).spec_wf(),
            spec_ball_on_screen(
                old(self).spec_xpos_centre() as int,
                old(self).spec_ypos_centre() as int,
            ),
            spec_ball_on_screen(new_ball.x as int, new_ball.y as int),
        ensures
            final(self).spec_xpos_centre() == new_ball.x,
            final(self).spec_ypos_centre() == new_ball.y,
            final(self).spec_xpos_centre_old() == old(self).spec_xpos_centre(),
            final(self).spec_ypos_centre_old() == old(self).spec_ypos_centre(),
            final(framebuffer).spec_wf(),
            final(framebuffer).spec_pixels() == spec_move_ball(
                old(framebuffer).spec_pixels(),
                old(self).spec_xpos_centre() as int,
                old(self).spec_ypos_centre() as int,
                new_ball.x as int,
                new_ball.y as int,
            ),
            final(framebuffer).spec_shown() == old(framebuffer).spec_shown(),
    {
        // Remember old state
        self.xpos_centre_old = self.xpos_centre;
        self.ypos_centre_old = self.ypos_centre;
        // Copy Position from Gamestate to self
        self.xpos_centre = new_ball.x as u16;
        self.ypos_centre = new_ball.y as u16;

        // erase old ball
        draw_partial_circle(
            framebuffer,
            self.xpos_centre_old as u32,
            self.ypos_centre_old as u32,
            self.xpos_centre as u32,
            self.ypos_centre as u32,
            BALL_RADIUS as u32,
            BALL_RADIUS as u32,
            BGCOLOR,
        );
        // draw new ball
        draw_partial_circle(
            framebuffer,
            self.xpos_centre as u32,
            self.ypos_centre as u32,
            self.xpos_centre_old as u32,
            self.ypos_centre_old as u32,
            BALL_RADIUS as u32,
            BALL_RADIUS as u32,
            BALL_COLOR,
        );
    }
}

/// Moving a ball that is on the picture gives the picture of the ball at
/// its new place: redrawing only what changed leaves what wiping the whole
/// old ball and drawing the whole new one would leave.
pub proof fn lemma_move_ball_redraws(pixels: Seq<u8>, old_x: int, old_y: int, new_x: int, new_y: int)
    ensures
        spec_move_ball(spec_draw_ball(pixels, old_x, old_y), old_x, old_y, new_x, new_y)
            == spec_draw_ball(
            spec_draw_circle(pixels, old_x, old_y, BALL_RADIUS as int, BGCOLOR),
            new_x,
            new_y,
        ),
{
    assert(spec_move_ball(spec_draw_ball(pixels, old_x, old_y), old_x, old_y, new_x, new_y)
        =~= spec_draw_ball(
        spec_draw_circle(pixels, old_x, old_y, BALL_RADIUS as int, BGCOLOR),
        new_x,
        new_y,
    ));
}

} // verus!
