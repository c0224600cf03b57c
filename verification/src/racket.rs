//! The paddles as they are drawn.

use crate::graphics::{draw_rectangle, spec_draw_rectangle};
use crate::lcd::{Framebuffer, HEIGHT, WIDTH};
use crate::BGCOLOR;
use vstd::prelude::*;

verus! {

/// Half of a paddle's horizontal extent, in pixels.
pub const RACKET_WIDTH: u16 = 10;

/// Half of a paddle's vertical extent, in pixels.
pub const RACKET_HEIGHT: u16 = 30;

/// The colour index paddles are drawn in.
pub const RACKET_COLOR: u8 = 150;

/// A paddle on the screen: where its centre is, and where it was a frame ago.
pub struct Racket {
    xpos_centre: u16,
    ypos_centre: u16,
    ypos_centre_old: u16,
}

/// A paddle centred in column `x` lies between the left and right edge.
pub open spec fn spec_column_on_screen(x: int) -> bool {
    RACKET_WIDTH <= x && x + RACKET_WIDTH < WIDTH
}

/// A paddle centred in row `y` lies between the top and bottom edge.
pub open spec fn spec_row_on_screen(y: int) -> bool {
    RACKET_HEIGHT <= y && y + RACKET_HEIGHT < HEIGHT
}

/// The picture with a paddle drawn over it.
pub open spec fn spec_draw_racket(pixels: Seq<u8>, x: int, y: int, color: u8) -> Seq<u8> {
    spec_draw_rectangle(
        pixels,
        x - RACKET_WIDTH,
        x + RACKET_WIDTH,
        y - RACKET_HEIGHT,
        y + RACKET_HEIGHT,
        color,
    )
}

/// The picture after a strip of a paddle's column is wiped and another is
/// drawn.
pub open spec fn spec_draw_moved_racket(
    pixels: Seq<u8>,
    x: int,
    y_top_erase: int,
    y_bottom_erase: int,
    y_top_draw: int,
    y_bottom_draw: int,
) -> Seq<u8> {
    spec_draw_rectangle(
        spec_draw_rectangle(
            pixels,
            x - RACKET_WIDTH,
            x + RACKET_WIDTH,
            y_top_erase,
            y_bottom_erase,
            BGCOLOR,
        ),
        x - RACKET_WIDTH,
        x + RACKET_WIDTH,
        y_top_draw,
        y_bottom_draw,
        RACKET_COLOR,
    )
}

/// The smaller of two rows.
pub open spec fn spec_min(a: int, b: int) -> int {
    if a <= b {
        a
    } else {
        b
    }
}

/// The larger of two rows.
pub open spec fn spec_max(a: int, b: int) -> int {
    if a >= b {
        a
    } else {
        b
    }
}

/// The picture after a paddle in column `x` has moved from row `old_y` to
/// row `new_y`: the rows it left are wiped, the rows it reached are drawn,
/// and a paddle that stays leaves the picture alone.
pub open spec fn spec_move_racket(pixels: Seq<u8>, x: int, old_y: int, new_y: int) -> Seq<u8> {
    if new_y > old_y {
        spec_draw_moved_racket(
            pixels,
            x,
            old_y - RACKET_HEIGHT,
            spec_min(new_y - RACKET_HEIGHT - 1, old_y + RACKET_HEIGHT),
            spec_max(old_y + RACKET_HEIGHT, new_y - RACKET_HEIGHT),
            new_y + RACKET_HEIGHT,
        )
    } else if new_y < old_y {
        spec_draw_moved_racket(
            pixels,
            x,
            spec_max(new_y + RACKET_HEIGHT + 1, old_y - RACKET_HEIGHT),
            old_y + RACKET_HEIGHT,
            new_y - RACKET_HEIGHT,
            spec_min(old_y - RACKET_HEIGHT, new_y + RACKET_HEIGHT),
        )
    } else {
        pixels
    }
}

/// The smaller of two rows.
fn min(a: u16, b: u16) -> (result: u16)
    ensures
        result == spec_min(a as int, b as int),
{
    if a <= b {
        a
    } else {
        b
    }
}

/// The larger of two rows.
fn max(a: u16, b: u16) -> (result: u16)
    ensures
        result == spec_max(a as int, b as int),
{
    if a >= b {
        a
    } else {
        b
    }
}

impl Racket {
    /// The column of the centre.
    pub closed spec fn spec_xpos_centre(&self) -> u16 {
        self.xpos_centre
    }

    /// The row of the centre.
    pub closed spec fn spec_ypos_centre(&self) -> u16 {
        self.ypos_centre
    }

    /// The row of the centre a frame ago.
    pub closed spec fn spec_ypos_centre_old(&self) -> u16 {
        self.ypos_centre_old
    }

    /// The paddle of player 0 stands at the left edge, that of any other
    /// player at the right edge; both start half way down.
    pub fn new(player_id: u8) -> (result: Racket)
        ensures
            result.spec_xpos_centre() == if player_id == 0 {
                RACKET_WIDTH as int
            } else {
                479 - RACKET_WIDTH
            },
            result.spec_ypos_centre() == 135,
            result.spec_ypos_centre_old() == 135,
    {
        if player_id == 0 {
            Racket { xpos_centre: RACKET_WIDTH, ypos_centre: 135, ypos_centre_old: 135 }
        } else {
            Racket { xpos_centre: 479 - RACKET_WIDTH, ypos_centre: 135, ypos_centre_old: 135 }
        }
    }

    pub fn set_ypos_centre(&mut self, ypos_centre_set: u16)
        ensures
            final(self).spec_ypos_centre() == ypos_centre_set,
            final(self).spec_xpos_centre() == old(self).spec_xpos_centre(),
            final(self).spec_ypos_centre_old() == old(self).spec_ypos_centre_old(),
    {
        self.ypos_centre = ypos_centre_set;
    }

    pub fn set_ypos_centre_old(&mut self, ypos_centre_set: u16)
        ensures
            final(self).spec_ypos_centre_old() == ypos_centre_set,
            final(self).spec_xpos_centre() == old(self).spec_xpos_centre(),
            final(self).spec_ypos_centre() == old(self).spec_ypos_centre(),
    {
        self.ypos_centre_old = ypos_centre_set;
    }

    pub fn get_xpos_centre(&self) -> (result: u16)
        ensures
            result == self.spec_xpos_centre(),
    {
        self.xpos_centre
    }

    pub fn get_ypos_centre(&self) -> (result: u16)
        ensures
            result == self.spec_ypos_centre(),
    {
        self.ypos_centre
    }

    pub fn get_ypos_centre_old(&self) -> (result: u16)
        ensures
            result == self.spec_ypos_centre_old(),
    {
        self.ypos_centre_old
    }

    /// Draws the whole paddle where it stands.
    pub fn draw_racket<F: Framebuffer>(&self, buffer: &mut F)
        requires
            old(buffer).spec_wf(),
            spec_column_on_screen(self.spec_xpos_centre() as int),
            spec_row_on_screen(self.spec_ypos_centre() as int),
        ensures
            final(buffer).spec_wf(),
            final(buffer).spec_pixels() == spec_draw_racket(
                old(buffer).spec_pixels(),
                self.spec_xpos_centre() as int,
                self.spec_ypos_centre() as int,
                RACKET_COLOR,
            ),
            final(buffer).spec_shown() == old(buffer).spec_shown(),
    {
        draw_rectangle(
            buffer,
            self.xpos_centre - RACKET_WIDTH,
            self.xpos_centre + RACKET_WIDTH,
            self.ypos_centre - RACKET_HEIGHT,
            self.ypos_centre + RACKET_HEIGHT,
            RACKET_COLOR,
        );
    }

    /// Wipes one strip of the paddle's column and draws another.
    pub fn draw_moved_racket<F: Framebuffer>(
        &self,
        buffer: &mut F,
        y_top_erase: u16,
        y_bottom_erase: u16,
        y_top_draw: u16,
        y_bottom_draw: u16,
    )
        requires
            old(buffer).spec_wf(),
            spec_column_on_screen(self.spec_xpos_centre() as int),
            y_top_erase <= y_bottom_erase ==> y_bottom_erase < HEIGHT,
            y_top_draw <= y_bottom_draw ==> y_bottom_draw < HEIGHT,
        ensures
            final(buffer).spec_wf(),
            final(buffer).spec_pixels() == spec_draw_moved_racket(
                old(buffer).spec_pixels(),
                self.spec_xpos_centre() as int,
                y_top_erase as int,
                y_bottom_erase as int,
                y_top_draw as int,
                y_bottom_draw as int,
            ),
            final(buffer).spec_shown() == old(buffer).spec_shown(),
    {
        // erase old racket
        draw_rectangle(
            buffer,
            self.xpos_centre - RACKET_WIDTH,
            self.xpos_centre + RACKET_WIDTH,
            y_top_erase,
            y_bottom_erase,
            BGCOLOR,
        );
        // draw new racket
        draw_rectangle(
            buffer,
            self.xpos_centre - RACKET_WIDTH,
            self.xpos_centre + RACKET_WIDTH,
            y_top_draw,
            y_bottom_draw,
            RACKET_COLOR,
        );
    }

    /// Moves the paddle to a new row and redraws only what changed.
    pub fn update_racket_pos<F: Framebuffer>(&mut self, framebuffer: &mut F, new_ypos_centre: u16)
        requires
            old(framebuffer).spec_wf(),
            spec_column_on_screen(old(self).spec_xpos_centre() as int),
            spec_row_on_screen(old(self).spec_ypos_centre() as int),
            spec_row_on_screen(new_ypos_centre as int),
        ensures
            final(self).spec_xpos_centre() == old(self).spec_xpos_centre(),
            final(self).spec_ypos_centre() == new_ypos_centre,
            final(self).spec_ypos_centre_old() == old(self).spec_ypos_centre(),
            final(framebuffer).spec_wf(),
            final(framebuffer).spec_pixels() == spec_move_racket(
                old(framebuffer).spec_pixels(),
                old(self).spec_xpos_centre() as int,
                old(self).spec_ypos_centre() as int,
                new_ypos_centre as int,
            ),
            final(framebuffer).spec_shown() == old(framebuffer).spec_shown(),
    {
        // Remember old state
        self.ypos_centre_old = self.ypos_centre;
        // Copy Position from Gamestate to self
        self.ypos_centre = new_ypos_centre;
        // if racket moved down
        if self.ypos_centre > self.ypos_centre_old {
            self.draw_moved_racket(
                framebuffer,
                self.get_ypos_centre_old() - RACKET_HEIGHT,
                min(
                    self.get_ypos_centre() - RACKET_HEIGHT - 1,
                    self.get_ypos_centre_old() + RACKET_HEIGHT,
                ),
                max(
                    self.get_ypos_centre_old() + RACKET_HEIGHT,
                    self.get_ypos_centre() - RACKET_HEIGHT,
                ),
                self.get_ypos_centre() + RACKET_HEIGHT,
            );
        }
        // if racket moved up
        if self.get_ypos_centre() < self.get_ypos_centre_old() {
            self.draw_moved_racket(
                framebuffer,
                max(
                    self.get_ypos_centre() + RACKET_HEIGHT + 1,
                    self.get_ypos_centre_old() - RACKET_HEIGHT,
                ),
                self.get_ypos_centre_old() + RACKET_HEIGHT,
                self.get_ypos_centre() - RACKET_HEIGHT,
                min(
                    self.get_ypos_centre_old() - RACKET_HEIGHT,
                    self.get_ypos_centre() + RACKET_HEIGHT,
                ),
            );
        }
    }
}

/// Moving a paddle that is on the picture gives the picture of the paddle
/// at its new place: redrawing only the rows that changed leaves what wiping
/// the whole old paddle and drawing the whole new one would leave.
pub proof fn lemma_move_racket_redraws(pixels: Seq<u8>, x: int, old_y: int, new_y: int)
    ensures
        spec_move_racket(spec_draw_racket(pixels, x, old_y, RACKET_COLOR), x, old_y, new_y)
            == spec_draw_racket(
            spec_draw_racket(pixels, x, old_y, BGCOLOR),
            x,
            new_y,
            RACKET_COLOR,
        ),
{
    assert(spec_move_racket(spec_draw_racket(pixels, x, old_y, RACKET_COLOR), x, old_y, new_y)
        =~= spec_draw_racket(
        spec_draw_racket(pixels, x, old_y, BGCOLOR),
        x,
        new_y,
        RACKET_COLOR,
    ));
}

} // verus!
