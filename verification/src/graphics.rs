//! Drawing: rectangles, discs, seven-segment digits and the playing field.
//!
//! Every drawing function is specified by the picture it leaves: a spec
//! function from the picture before to the picture after.

use crate::ball::{spec_ball_on_screen, spec_draw_ball, spec_move_ball, Ball};
use crate::fps::FpsCounter;
use crate::lcd::{spec_blank, Framebuffer, HEIGHT, WIDTH};
use crate::network::packets::{
    GamestatePacket, STATE_RUNNING, STATE_WON_PLAYER_1, STATE_WON_PLAYER_2,
};
use crate::racket::{
    spec_column_on_screen, spec_draw_racket, spec_move_racket, spec_row_on_screen, Racket,
    RACKET_COLOR,
};
use vstd::prelude::*;

verus! {

/// The column of the pixel at index `i` of a picture.
pub open spec fn spec_column(i: int) -> int {
    i % (WIDTH as int)
}

/// The row of the pixel at index `i` of a picture.
pub open spec fn spec_row(i: int) -> int {
    i / (WIDTH as int)
}

/// The pixel of a point on the screen stands in the point's row and column.
proof fn lemma_point_index(x: int, y: int)
    requires
        0 <= x < WIDTH,
    ensures
        spec_column(y * WIDTH + x) == x,
        spec_row(y * WIDTH + x) == y,
{
}

/// The point lies in the rectangle, edges included.
pub open spec fn spec_in_rectangle(
    x: int,
    y: int,
    x_left: int,
    x_right: int,
    y_top: int,
    y_bottom: int,
) -> bool {
    x_left <= x <= x_right && y_top <= y <= y_bottom
}

/// The picture with a filled rectangle drawn over it.
pub open spec fn spec_draw_rectangle(
    pixels: Seq<u8>,
    x_left: int,
    x_right: int,
    y_top: int,
    y_bottom: int,
    color: u8,
) -> Seq<u8> {
    Seq::new(
        pixels.len(),
        |i: int|
            if spec_in_rectangle(spec_column(i), spec_row(i), x_left, x_right, y_top, y_bottom) {
                color
            } else {
                pixels[i]
            },
    )
}

/// The rows above `y`, and the columns left of `x` in row `y`, of a
/// rectangle being filled row by row.
spec fn spec_rectangle_done(
    i: int,
    x_left: int,
    x_right: int,
    y_top: int,
    y: int,
    x: int,
) -> bool {
    x_left <= spec_column(i) <= x_right && y_top <= spec_row(i) && (spec_row(i) < y || (spec_row(i)
        == y && spec_column(i) < x))
}

/// Fills the columns `x_left..x_end` of the rows `y_top..y_end`.
fn fill<F: Framebuffer>(
    buffer: &mut F,
    x_left: usize,
    x_end: usize,
    y_top: usize,
    y_end: usize,
    color: u8,
)
    requires
        old(buffer).spec_wf(),
        x_left < x_end && y_top < y_end ==> x_end <= WIDTH && y_end <= HEIGHT,
    ensures
        final(buffer).spec_wf(),
        final(buffer).spec_pixels() == spec_draw_rectangle(
            old(buffer).spec_pixels(),
            x_left as int,
            x_end - 1,
            y_top as int,
            y_end - 1,
            color,
        ),
        final(buffer).spec_shown() == old(buffer).spec_shown(),
{
    let ghost before = buffer.spec_pixels();
    proof {
        buffer.lemma_picture_size();
    }
    if !(x_left < x_end && y_top < y_end) {
        assert(before =~= spec_draw_rectangle(
            before,
            x_left as int,
            x_end - 1,
            y_top as int,
            y_end - 1,
            color,
        ));
        return ;
    }
    let mut y: usize = y_top;
    while y < y_end
        invariant
            y_top <= y <= y_end,
            x_left < x_end <= WIDTH,
            y_end <= HEIGHT,
            buffer.spec_wf(),
            buffer.spec_shown() == old(buffer).spec_shown(),
            buffer.spec_pixels().len() == before.len(),
            before.len() == WIDTH * HEIGHT,
            forall|i: int|
                0 <= i < before.len() ==> buffer.spec_pixels()[i] == if spec_rectangle_done(
                    i,
                    x_left as int,
                    x_end - 1,
                    y_top as int,
                    y as int,
                    x_left as int,
                ) {
                    color
                } else {
                    before[i]
                },
        decreases y_end - y,
    {
        let mut x: usize = x_left;
        while x < x_end
            invariant
                y_top <= y < y_end,
                x_left <= x <= x_end,
                x_end <= WIDTH,
                y_end <= HEIGHT,
                buffer.spec_wf(),
                buffer.spec_shown() == old(buffer).spec_shown(),
                buffer.spec_pixels().len() == before.len(),
                before.len() == WIDTH * HEIGHT,
                forall|i: int|
                    0 <= i < before.len() ==> buffer.spec_pixels()[i] == if spec_rectangle_done(
                        i,
                        x_left as int,
                        x_end - 1,
                        y_top as int,
                        y as int,
                        x as int,
                    ) {
                        color
                    } else {
                        before[i]
                    },
            decreases x_end - x,
        {
            buffer.set_pixel(x, y, color);
            x += 1;
        }
        y += 1;
    }
    assert(buffer.spec_pixels() =~= spec_draw_rectangle(
        before,
        x_left as int,
        x_end - 1,
        y_top as int,
        y_end - 1,
        color,
    ));
}

/// Fills the rectangle between two columns and two rows, all four included.
pub fn draw_rectangle<F: Framebuffer>(
    buffer: &mut F,
    x_left: u16,
    x_right: u16,
    y_top: u16,
    y_bottom: u16,
    color: u8,
)
    requires
        old(buffer).spec_wf(),
        x_left <= x_right && y_top <= y_bottom ==> x_right < WIDTH && y_bottom < HEIGHT,
    ensures
        final(buffer).spec_wf(),
        final(buffer).spec_pixels() == spec_draw_rectangle(
            old(buffer).spec_pixels(),
            x_left as int,
            x_right as int,
            y_top as int,
            y_bottom as int,
            color,
        ),
        final(buffer).spec_shown() == old(buffer).spec_shown(),
{
    fill(
        buffer,
        x_left as usize,
        x_right as usize + 1,
        y_top as usize,
        y_bottom as usize + 1,
        color,
    );
}

/// Fills the square of side `size` whose top left corner is `x`, `y`.
pub fn quad<F: Framebuffer>(x: usize, y: usize, size: usize, color: &u8, framebuffer: &mut F)
    requires
        old(framebuffer).spec_wf(),
        size > 0 ==> x + size <= WIDTH && y + size <= HEIGHT,
    ensures
        final(framebuffer).spec_wf(),
        final(framebuffer).spec_pixels() == spec_draw_rectangle(
            old(framebuffer).spec_pixels(),
            x as int,
            x + size - 1,
            y as int,
            y + size - 1,
            *color,
        ),
        final(framebuffer).spec_shown() == old(framebuffer).spec_shown(),
{
    if size == 0 {
        proof {
            framebuffer.lemma_picture_size();
        }
        assert(framebuffer.spec_pixels() =~= spec_draw_rectangle(
            framebuffer.spec_pixels(),
            x as int,
            x + size - 1,
            y as int,
            y + size - 1,
            *color,
        ));
        return ;
    }
    fill(framebuffer, x, x + size, y, y + size, *color);
}

/// The point lies in the disc round `x_centre`, `y_centre`, rim included.
pub open spec fn spec_in_circle(x: int, y: int, x_centre: int, y_centre: int, radius: int) -> bool {
    (x - x_centre) * (x - x_centre) + (y - y_centre) * (y - y_centre) <= radius * radius
}

/// The picture with a filled disc drawn over it.
pub open spec fn spec_draw_circle(
    pixels: Seq<u8>,
    x_pos_centre: int,
    y_pos_centre: int,
    radius: int,
    color: u8,
) -> Seq<u8> {
    Seq::new(
        pixels.len(),
        |i: int|
            if spec_in_circle(spec_column(i), spec_row(i), x_pos_centre, y_pos_centre, radius) {
                color
            } else {
                pixels[i]
            },
    )
}

/// The picture with that part of a disc drawn over it which lies outside a
/// second disc.
pub open spec fn spec_draw_partial_circle(
    pixels: Seq<u8>,
    x_pos_centre: int,
    y_pos_centre: int,
    x_pos_centre_part: int,
    y_pos_centre_part: int,
    radius: int,
    radius_part: int,
    color: u8,
) -> Seq<u8> {
    Seq::new(
        pixels.len(),
        |i: int|
            if spec_in_circle(spec_column(i), spec_row(i), x_pos_centre, y_pos_centre, radius)
                && !spec_in_circle(
                spec_column(i),
                spec_row(i),
                x_pos_centre_part,
                y_pos_centre_part,
                radius_part,
            ) {
                color
            } else {
                pixels[i]
            },
    )
}

/// A disc lies within the square drawn round it.
proof fn lemma_circle_in_square(x: int, y: int, x_centre: int, y_centre: int, radius: int)
    requires
        radius >= 0,
        spec_in_circle(x, y, x_centre, y_centre, radius),
    ensures
        x_centre - radius <= x <= x_centre + radius,
        y_centre - radius <= y <= y_centre + radius,
{
    let dx = x - x_centre;
    let dy = y - y_centre;
    assert(dx * dx + dy * dy <= radius * radius && radius >= 0 ==> -radius <= dx <= radius
        && -radius <= dy <= radius) by (nonlinear_arith);
}

/// Whether a point lies in a disc.
fn in_circle(x: u32, y: u32, x_centre: u32, y_centre: u32, radius: u32) -> (result: bool)
    requires
        x <= 0xffff,
        y <= 0xffff,
        x_centre <= 0xffff,
        y_centre <= 0xffff,
        radius <= 0xffff,
    ensures
        result == spec_in_circle(
            x as int,
            y as int,
            x_centre as int,
            y_centre as int,
            radius as int,
        ),
{
    let dx: u64 = if x >= x_centre {
        (x - x_centre) as u64
    } else {
        (x_centre - x) as u64
    };
    let dy: u64 = if y >= y_centre {
        (y - y_centre) as u64
    } else {
        (y_centre - y) as u64
    };
    let r: u64 = radius as u64;
    assert(dx * dx <= 0xffff * 0xffff && dy * dy <= 0xffff * 0xffff && r * r <= 0xffff * 0xffff)
        by (nonlinear_arith)
        requires
            dx <= 0xffff,
            dy <= 0xffff,
            r <= 0xffff,
    ;
    assert(dx * dx == (x - x_centre) * (x - x_centre)) by (nonlinear_arith)
        requires
            dx == x - x_centre || dx == -(x - x_centre),
    ;
    assert(dy * dy == (y - y_centre) * (y - y_centre)) by (nonlinear_arith)
        requires
            dy == y - y_centre || dy == -(y - y_centre),
    ;
    dx * dx + dy * dy <= r * r
}

/// The pixels a disc, or a disc without a second one, covers in the rows
/// above `y` and left of `x` in row `y`.
spec fn spec_circle_done(
    i: int,
    x_centre: int,
    y_centre: int,
    radius: int,
    part: Option<(int, int, int)>,
    y: int,
    x: int,
) -> bool {
    &&& spec_in_circle(spec_column(i), spec_row(i), x_centre, y_centre, radius)
    &&& match part {
        Some((x_part, y_part, radius_part)) => !spec_in_circle(
            spec_column(i),
            spec_row(i),
            x_part,
            y_part,
            radius_part,
        ),
        None => true,
    }
    &&& x_centre - radius <= spec_column(i) <= x_centre + radius
    &&& y_centre - radius <= spec_row(i)
    &&& (spec_row(i) < y || (spec_row(i) == y && spec_column(i) < x))
}

/// Draws a disc, less a second one where `part` names one.
fn disc<F: Framebuffer>(
    buffer: &mut F,
    x_centre: u32,
    y_centre: u32,
    radius: u32,
    part: Option<(u32, u32, u32)>,
    color: u8,
)
    requires
        old(buffer).spec_wf(),
        radius <= x_centre,
        x_centre + radius < WIDTH,
        radius <= y_centre,
        y_centre + radius < HEIGHT,
        part matches Some(p) ==> p.0 <= 0xffff && p.1 <= 0xffff && p.2 <= 0xffff,
    ensures
        final(buffer).spec_wf(),
        final(buffer).spec_shown() == old(buffer).spec_shown(),
        final(buffer).spec_pixels() == match part {
            Some(p) => spec_draw_partial_circle(
                old(buffer).spec_pixels(),
                x_centre as int,
                y_centre as int,
                p.0 as int,
                p.1 as int,
                radius as int,
                p.2 as int,
                color,
            ),
            None => spec_draw_circle(
                old(buffer).spec_pixels(),
                x_centre as int,
                y_centre as int,
                radius as int,
                color,
            ),
        },
{
    let ghost before = buffer.spec_pixels();
    let ghost ghost_part: Option<(int, int, int)> = match part {
        Some(p) => Some((p.0 as int, p.1 as int, p.2 as int)),
        None => None,
    };
    proof {
        buffer.lemma_picture_size();
    }
    let y_end: u32 = y_centre + radius + 1;
    let x_end: u32 = x_centre + radius + 1;
    let x_start: u32 = x_centre - radius;
    let mut y: u32 = y_centre - radius;
    while y < y_end
        invariant
            y_centre - radius <= y <= y_end,
            y_end == y_centre + radius + 1,
            x_end == x_centre + radius + 1,
            x_start == x_centre - radius,
            radius <= x_centre,
            radius <= y_centre,
            x_end <= WIDTH,
            y_end <= HEIGHT,
            part matches Some(p) ==> p.0 <= 0xffff && p.1 <= 0xffff && p.2 <= 0xffff,
            ghost_part == match part {
                Some(p) => Some((p.0 as int, p.1 as int, p.2 as int)),
                None => None::<(int, int, int)>,
            },
            buffer.spec_wf(),
            buffer.spec_shown() == old(buffer).spec_shown(),
            buffer.spec_pixels().len() == before.len(),
            before.len() == WIDTH * HEIGHT,
            forall|i: int|
                0 <= i < before.len() ==> buffer.spec_pixels()[i] == if spec_circle_done(
                    i,
                    x_centre as int,
                    y_centre as int,
                    radius as int,
                    ghost_part,
                    y as int,
                    x_start as int,
                ) {
                    color
                } else {
                    before[i]
                },
        decreases y_end - y,
    {
        let mut x: u32 = x_start;
        while x < x_end
            invariant
                y_centre - radius <= y < y_end,
                x_start <= x <= x_end,
                y_end == y_centre + radius + 1,
                x_end == x_centre + radius + 1,
                x_start == x_centre - radius,
                radius <= x_centre,
                radius <= y_centre,
                x_end <= WIDTH,
                y_end <= HEIGHT,
                part matches Some(p) ==> p.0 <= 0xffff && p.1 <= 0xffff && p.2 <= 0xffff,
                ghost_part == match part {
                    Some(p) => Some((p.0 as int, p.1 as int, p.2 as int)),
                    None => None::<(int, int, int)>,
                },
                buffer.spec_wf(),
                buffer.spec_shown() == old(buffer).spec_shown(),
                buffer.spec_pixels().len() == before.len(),
                before.len() == WIDTH * HEIGHT,
                forall|i: int|
                    0 <= i < before.len() ==> buffer.spec_pixels()[i] == if spec_circle_done(
                        i,
                        x_centre as int,
                        y_centre as int,
                        radius as int,
                        ghost_part,
                        y as int,
                        x as int,
                    ) {
                        color
                    } else {
                        before[i]
                    },
            decreases x_end - x,
        {
            let inside = in_circle(x, y, x_centre, y_centre, radius);
            let cut = match part {
                Some(p) => in_circle(x, y, p.0, p.1, p.2),
                None => false,
            };
            if inside && !cut {
                buffer.set_pixel(x as usize, y as usize, color);
            }
            x += 1;
        }
        y += 1;
    }
    assert forall|i: int| 0 <= i < before.len() implies buffer.spec_pixels()[i] == (if spec_in_circle(
        spec_column(i),
        spec_row(i),
        x_centre as int,
        y_centre as int,
        radius as int,
    ) && (match ghost_part {
        Some((x_part, y_part, radius_part)) => !spec_in_circle(
            spec_column(i),
            spec_row(i),
            x_part,
            y_part,
            radius_part,
        ),
        None => true,
    }) {
        color
    } else {
        before[i]
    }) by {
        if spec_in_circle(
            spec_column(i),
            spec_row(i),
            x_centre as int,
            y_centre as int,
            radius as int,
        ) {
            lemma_circle_in_square(
                spec_column(i),
                spec_row(i),
                x_centre as int,
                y_centre as int,
                radius as int,
            );
        }
    }
    match part {
        Some(p) => {
            assert(buffer.spec_pixels() =~= spec_draw_partial_circle(
                before,
                x_centre as int,
                y_centre as int,
                p.0 as int,
                p.1 as int,
                radius as int,
                p.2 as int,
                color,
            ));
        },
        None => {
            assert(buffer.spec_pixels() =~= spec_draw_circle(
                before,
                x_centre as int,
                y_centre as int,
                radius as int,
                color,
            ));
        },
    }
}

/// Draws a filled disc that lies on the screen.
pub fn draw_circle<F: Framebuffer>(
    buffer: &mut F,
    x_pos_centre: u32,
    y_pos_centre: u32,
    radius: u32,
    color: u8,
)
    requires
        old(buffer).spec_wf(),
        radius <= x_pos_centre,
        x_pos_centre + radius < WIDTH,
        radius <= y_pos_centre,
        y_pos_centre + radius < HEIGHT,
    ensures
        final(buffer).spec_wf(),
        final(buffer).spec_pixels() == spec_draw_circle(
            old(buffer).spec_pixels(),
            x_pos_centre as int,
            y_pos_centre as int,
            radius as int,
            color,
        ),
        final(buffer).spec_shown() == old(buffer).spec_shown(),
{
    disc(buffer, x_pos_centre, y_pos_centre, radius, None, color);
}

/// Draws that part of a disc on the screen which lies outside a second disc.
/// Moving a disc a little paints few pixels this way: the old disc less the
/// new one in the background colour, then the new one less the old.
pub fn draw_partial_circle<F: Framebuffer>(
    buffer: &mut F,
    x_pos_centre: u32,
    y_pos_centre: u32,
    x_pos_centre_part: u32,
    y_pos_centre_part: u32,
    radius: u32,
    radius_part: u32,
    color: u8,
)
    requires
        old(buffer).spec_wf(),
        radius <= x_pos_centre,
        x_pos_centre + radius < WIDTH,
        radius <= y_pos_centre,
        y_pos_centre + radius < HEIGHT,
        x_pos_centre_part <= 0xffff,
        y_pos_centre_part <= 0xffff,
        radius_part <= 0xffff,
    ensures
        final(buffer).spec_wf(),
        final(buffer).spec_pixels() == spec_draw_partial_circle(
            old(buffer).spec_pixels(),
            x_pos_centre as int,
            y_pos_centre as int,
            x_pos_centre_part as int,
            y_pos_centre_part as int,
            radius as int,
            radius_part as int,
            color,
        ),
        final(buffer).spec_shown() == old(buffer).spec_shown(),
{
    disc(
        buffer,
        x_pos_centre,
        y_pos_centre,
        radius,
        Some((x_pos_centre_part, y_pos_centre_part, radius_part)),
        color,
    );
}

/// The colour of a lit segment.
pub const SEGMENT_ON: u8 = 255;

/// The colour of a dark segment.
pub const SEGMENT_OFF: u8 = 0;

/// The colour of a segment.
pub open spec fn spec_segment_color(lit: bool) -> u8 {
    if lit {
        SEGMENT_ON
    } else {
        SEGMENT_OFF
    }
}

/// The picture with three pixels of row `y` drawn from column `x` on, the
/// middle one only where a colour is given for it.
pub open spec fn spec_segment_row(
    pixels: Seq<u8>,
    x: int,
    y: int,
    left: u8,
    middle: Option<u8>,
    right: u8,
) -> Seq<u8> {
    Seq::new(
        pixels.len(),
        |i: int|
            if spec_row(i) != y {
                pixels[i]
            } else if spec_column(i) == x {
                left
            } else if spec_column(i) == x + 2 {
                right
            } else if spec_column(i) == x + 1 && middle is Some {
                middle->0
            } else {
                pixels[i]
            },
    )
}

/// The picture with a seven-segment digit, three pixels wide and seven
/// high, drawn with its top left corner at `x`, `y`. Each segment is drawn
/// lit or dark: the horizontal ones fill their row, the vertical ones stand
/// at both ends of the two rows between, and the two pixels inside the digit
/// are left alone.
pub open spec fn spec_draw_seven_segment(
    pixels: Seq<u8>,
    x: int,
    y: int,
    top: bool,
    top_left: bool,
    top_right: bool,
    center: bool,
    bottom_left: bool,
    bottom_right: bool,
    bottom: bool,
) -> Seq<u8> {
    let t = spec_segment_color(top);
    let tl = spec_segment_color(top_left);
    let tr = spec_segment_color(top_right);
    let c = spec_segment_color(center);
    let bl = spec_segment_color(bottom_left);
    let br = spec_segment_color(bottom_right);
    let b = spec_segment_color(bottom);
    let row_0 = spec_segment_row(pixels, x, y, t, Some(t), t);
    let row_1 = spec_segment_row(row_0, x, y + 1, tl, None, tr);
    let row_2 = spec_segment_row(row_1, x, y + 2, tl, None, tr);
    let row_3 = spec_segment_row(row_2, x, y + 3, c, Some(c), c);
    let row_4 = spec_segment_row(row_3, x, y + 4, bl, None, br);
    let row_5 = spec_segment_row(row_4, x, y + 5, bl, None, br);
    spec_segment_row(row_5, x, y + 6, b, Some(b), b)
}

/// The segments that show a digit: top, top left, top right, centre, bottom
/// left, bottom right, bottom.
pub open spec fn spec_segments(number: int) -> (bool, bool, bool, bool, bool, bool, bool) {
    if number == 0 {
        (true, true, true, false, true, true, true)
    } else if number == 1 {
        (false, false, true, false, false, true, false)
    } else if number == 2 {
        (true, false, true, true, true, false, true)
    } else if number == 3 {
        (true, false, true, true, false, true, true)
    } else if number == 4 {
        (false, true, true, true, false, true, false)
    } else if number == 5 {
        (true, true, false, true, false, true, true)
    } else if number == 6 {
        (true, true, false, true, true, true, true)
    } else if number == 7 {
        (true, false, true, false, false, true, false)
    } else if number == 8 {
        (true, true, true, true, true, true, true)
    } else {
        (true, true, true, true, false, true, true)
    }
}

/// The picture with a digit drawn; a number above nine draws nothing.
pub open spec fn spec_draw_number(pixels: Seq<u8>, x: int, y: int, number: int) -> Seq<u8> {
    if 0 <= number <= 9 {
        let s = spec_segments(number);
        spec_draw_seven_segment(pixels, x, y, s.0, s.1, s.2, s.3, s.4, s.5, s.6)
    } else {
        pixels
    }
}

/// The picture with the frame rate, capped at 99, drawn as two digits in
/// the top left corner.
pub open spec fn spec_draw_fps(pixels: Seq<u8>, last_fps: int) -> Seq<u8> {
    let number = if last_fps > 99 {
        99
    } else {
        last_fps
    };
    spec_draw_number(spec_draw_number(pixels, 0, 0, number / 10), 5, 0, number % 10)
}

/// Draws the frame rate in the top left corner.
pub fn draw_fps<F: Framebuffer>(framebuffer: &mut F, fps: &FpsCounter)
    requires
        old(framebuffer).spec_wf(),
    ensures
        final(framebuffer).spec_wf(),
        final(framebuffer).spec_pixels() == spec_draw_fps(
            old(framebuffer).spec_pixels(),
            fps.last_fps as int,
        ),
        final(framebuffer).spec_shown() == old(framebuffer).spec_shown(),
{
    let mut number = fps.last_fps;
    if number > 99 {
        number = 99;
    }
    draw_number(framebuffer, 0, 0, number / 10);
    draw_number(framebuffer, 5, 0, number % 10);
}

/// Draws one digit; a number above nine draws nothing.
pub fn draw_number<F: Framebuffer>(framebuffer: &mut F, x: usize, y: usize, number: usize)
    requires
        old(framebuffer).spec_wf(),
        number <= 9 ==> x + 2 < WIDTH && y + 6 < HEIGHT,
    ensures
        final(framebuffer).spec_wf(),
        final(framebuffer).spec_pixels() == spec_draw_number(
            old(framebuffer).spec_pixels(),
            x as int,
            y as int,
            number as int,
        ),
        final(framebuffer).spec_shown() == old(framebuffer).spec_shown(),
{
    if number == 0 {
        draw_seven_segment(framebuffer, x, y, true, true, true, false, true, true, true);
    } else if number == 1 {
        draw_seven_segment(framebuffer, x, y, false, false, true, false, false, true, false);
    } else if number == 2 {
        draw_seven_segment(framebuffer, x, y, true, false, true, true, true, false, true);
    } else if number == 3 {
        draw_seven_segment(framebuffer, x, y, true, false, true, true, false, true, true);
    } else if number == 4 {
        draw_seven_segment(framebuffer, x, y, false, true, true, true, false, true, false);
    } else if number == 5 {
        draw_seven_segment(framebuffer, x, y, true, true, false, true, false, true, true);
    } else if number == 6 {
        draw_seven_segment(framebuffer, x, y, true, true, false, true, true, true, true);
    } else if number == 7 {
        draw_seven_segment(framebuffer, x, y, true, false, true, false, false, true, false);
    } else if number == 8 {
        draw_seven_segment(framebuffer, x, y, true, true, true, true, true, true, true);
    } else if number == 9 {
        draw_seven_segment(framebuffer, x, y, true, true, true, true, false, true, true);
    }
}

/// Draws one row of a digit.
fn segment_row<F: Framebuffer>(
    framebuffer: &mut F,
    x: usize,
    y: usize,
    left: u8,
    middle: Option<u8>,
    right: u8,
)
    requires
        old(framebuffer).spec_wf(),
        x + 2 < WIDTH,
        y < HEIGHT,
    ensures
        final(framebuffer).spec_wf(),
        final(framebuffer).spec_pixels() == spec_segment_row(
            old(framebuffer).spec_pixels(),
            x as int,
            y as int,
            left,
            middle,
            right,
        ),
        final(framebuffer).spec_shown() == old(framebuffer).spec_shown(),
{
    proof {
        framebuffer.lemma_picture_size();
        lemma_point_index(x as int, y as int);
        lemma_point_index(x + 1, y as int);
        lemma_point_index(x + 2, y as int);
    }
    framebuffer.set_pixel(x, y, left);
    match middle {
        Some(color) => {
            framebuffer.set_pixel(x + 1, y, color);
        },
        None => {},
    }
    framebuffer.set_pixel(x + 2, y, right);
    assert(framebuffer.spec_pixels() =~= spec_segment_row(
        old(framebuffer).spec_pixels(),
        x as int,
        y as int,
        left,
        middle,
        right,
    ));
}

/// Draws the seven segments of a digit, each lit or dark.
pub fn draw_seven_segment<F: Framebuffer>(
    framebuffer: &mut F,
    x: usize,
    y: usize,
    top: bool,
    top_left: bool,
    top_right: bool,
    center: bool,
    bottom_left: bool,
    bottom_right: bool,
    bottom: bool,
)
    requires
        old(framebuffer).spec_wf(),
        x + 2 < WIDTH,
        y + 6 < HEIGHT,
    ensures
        final(framebuffer).spec_wf(),
        final(framebuffer).spec_pixels() == spec_draw_seven_segment(
            old(framebuffer).spec_pixels(),
            x as int,
            y as int,
            top,
            top_left,
            top_right,
            center,
            bottom_left,
            bottom_right,
            bottom,
        ),
        final(framebuffer).spec_shown() == old(framebuffer).spec_shown(),
{
    proof {
        framebuffer.lemma_picture_size();
    }
    let black: u8 = SEGMENT_OFF;
    let white: u8 = SEGMENT_ON;
    let top_color = if top { white } else { black };
    let top_left_color = if top_left { white } else { black };
    let top_right_color = if top_right { white } else { black };
    let center_color = if center { white } else { black };
    let bottom_left_color = if bottom_left { white } else { black };
    let bottom_right_color = if bottom_right { white } else { black };
    let bottom_color = if bottom { white } else { black };
    segment_row(framebuffer, x, y + 0, top_color, Some(top_color), top_color);
    segment_row(framebuffer, x, y + 1, top_left_color, None, top_right_color);
    segment_row(framebuffer, x, y + 2, top_left_color, None, top_right_color);
    segment_row(framebuffer, x, y + 3, center_color, Some(center_color), center_color);
    segment_row(framebuffer, x, y + 4, bottom_left_color, None, bottom_right_color);
    segment_row(framebuffer, x, y + 5, bottom_left_color, None, bottom_right_color);
    segment_row(framebuffer, x, y + 6, bottom_color, Some(bottom_color), bottom_color);
}

/// The picture with both paddles and the ball drawn over it.
pub open spec fn spec_draw_initial(pixels: Seq<u8>, rackets: [Racket; 2], ball: Ball) -> Seq<u8> {
    spec_draw_ball(
        spec_draw_racket(
            spec_draw_racket(
                pixels,
                rackets[0].spec_xpos_centre() as int,
                rackets[0].spec_ypos_centre() as int,
                RACKET_COLOR,
            ),
            rackets[1].spec_xpos_centre() as int,
            rackets[1].spec_ypos_centre() as int,
            RACKET_COLOR,
        ),
        ball.spec_xpos_centre() as int,
        ball.spec_ypos_centre() as int,
    )
}

/// Paddles and ball lie wholly on the screen.
pub open spec fn spec_pieces_on_screen(rackets: [Racket; 2], ball: Ball) -> bool {
    &&& spec_column_on_screen(rackets[0].spec_xpos_centre() as int)
    &&& spec_row_on_screen(rackets[0].spec_ypos_centre() as int)
    &&& spec_column_on_screen(rackets[1].spec_xpos_centre() as int)
    &&& spec_row_on_screen(rackets[1].spec_ypos_centre() as int)
    &&& spec_ball_on_screen(ball.spec_xpos_centre() as int, ball.spec_ypos_centre() as int)
}

/// Whether paddles and ball lie wholly on the screen, which is what drawing
/// them asks.
pub fn pieces_on_screen(rackets: &[Racket; 2], ball: &Ball) -> (result: bool)
    ensures
        result == spec_pieces_on_screen(*rackets, *ball),
{
    let left = &rackets[0];
    let right = &rackets[1];
    10 <= left.get_xpos_centre() && left.get_xpos_centre() < 470 && 30 <= left.get_ypos_centre()
        && left.get_ypos_centre() < 242 && 10 <= right.get_xpos_centre()
        && right.get_xpos_centre() < 470 && 30 <= right.get_ypos_centre()
        && right.get_ypos_centre() < 242 && 10 <= ball.get_xpos_centre() && ball.get_xpos_centre()
        < 470 && 10 <= ball.get_ypos_centre() && ball.get_ypos_centre() < 262
}

/// Draws the paddles and the ball where they stand.
pub fn draw_initial<F: Framebuffer>(framebuffer: &mut F, rackets: &[Racket; 2], ball: &Ball)
    requires
        old(framebuffer).spec_wf(),
        spec_pieces_on_screen(*rackets, *ball),
    ensures
        final(framebuffer).spec_wf(),
        final(framebuffer).spec_pixels() == spec_draw_initial(
            old(framebuffer).spec_pixels(),
            *rackets,
            *ball,
        ),
        final(framebuffer).spec_shown() == old(framebuffer).spec_shown(),
{
    // Draw Racket Start Position
    rackets[0].draw_racket(framebuffer);
    rackets[1].draw_racket(framebuffer);
    ball.draw_ball(framebuffer);
}

/// The picture with the guide lines drawn: the quarter lines in a dim
/// colour, the two centre lines in a brighter one, the horizontal centre
/// line on top.
pub open spec fn spec_draw_guidelines(pixels: Seq<u8>) -> Seq<u8> {
    Seq::new(
        pixels.len(),
        |i: int|
            if spec_row(i) >= HEIGHT {
                pixels[i]
            } else if spec_row(i) == 136 {
                128u8
            } else if spec_column(i) == 240 {
                128u8
            } else if spec_column(i) == 120 || spec_column(i) == 360 {
                64u8
            } else {
                pixels[i]
            },
    )
}

/// The guide lines as far as the first `y` rows of the vertical lines and
/// the first `x` columns of the horizontal line are drawn.
spec fn spec_guidelines_done(pixels: Seq<u8>, i: int, y: int, x: int) -> u8 {
    if spec_row(i) == 136 && spec_column(i) < x {
        128u8
    } else if spec_row(i) < y && spec_column(i) == 240 {
        128u8
    } else if spec_row(i) < y && (spec_column(i) == 120 || spec_column(i) == 360) {
        64u8
    } else {
        pixels[i]
    }
}

/// Draws the guide lines of the field.
pub fn draw_guidelines<F: Framebuffer>(framebuffer: &mut F)
    requires
        old(framebuffer).spec_wf(),
    ensures
        final(framebuffer).spec_wf(),
        final(framebuffer).spec_pixels() == spec_draw_guidelines(old(framebuffer).spec_pixels()),
        final(framebuffer).spec_shown() == old(framebuffer).spec_shown(),
{
    let ghost before = framebuffer.spec_pixels();
    proof {
        framebuffer.lemma_picture_size();
    }
    // center guidelines
    let mut y: usize = 0;
    while y < 272
        invariant
            y <= 272,
            framebuffer.spec_wf(),
            framebuffer.spec_shown() == old(framebuffer).spec_shown(),
            framebuffer.spec_pixels().len() == before.len(),
            before.len() == WIDTH * HEIGHT,
            forall|i: int|
                0 <= i < before.len() ==> #[trigger] framebuffer.spec_pixels()[i]
                    == spec_guidelines_done(before, i, y as int, 0),
        decreases 272 - y,
    {
        proof {
            lemma_point_index(120, y as int);
            lemma_point_index(240, y as int);
            lemma_point_index(360, y as int);
        }
        framebuffer.set_pixel(480 / 4, y, 64);
        framebuffer.set_pixel(480 / 2, y, 128);
        framebuffer.set_pixel(480 / 4 * 3, y, 64);
        y += 1;
    }
    let mut x: usize = 0;
    while x < 480
        invariant
            x <= 480,
            framebuffer.spec_wf(),
            framebuffer.spec_shown() == old(framebuffer).spec_shown(),
            framebuffer.spec_pixels().len() == before.len(),
            before.len() == WIDTH * HEIGHT,
            forall|i: int|
                0 <= i < before.len() ==> #[trigger] framebuffer.spec_pixels()[i]
                    == spec_guidelines_done(before, i, 272, x as int),
        decreases 480 - x,
    {
        proof {
            lemma_point_index(x as int, 136);
        }
        framebuffer.set_pixel(x, 272 / 2, 128);
        x += 1;
    }
    assert(framebuffer.spec_pixels() =~= spec_draw_guidelines(before));
}

/// Wipes what a wider digit leaves visible left of a zero.
pub fn draw_fix_for_score_0<F: Framebuffer>(framebuffer: &mut F, x: usize, y: usize)
    requires
        old(framebuffer).spec_wf(),
        x + 1 < WIDTH,
        y + 30 < HEIGHT,
    ensures
        final(framebuffer).spec_wf(),
        final(framebuffer).spec_pixels() == spec_draw_rectangle(
            old(framebuffer).spec_pixels(),
            x as int,
            x + 1,
            y + 10,
            y + 30,
            0,
        ),
        final(framebuffer).spec_shown() == old(framebuffer).spec_shown(),
{
    let x = x as u16;
    let y = y as u16;
    draw_rectangle(framebuffer, x, x + 1, y + 10, y + 30, 0);
}

/// Wipes what a wider digit leaves visible right of a one.
pub fn draw_fix_for_score_1<F: Framebuffer>(framebuffer: &mut F, x: usize, y: usize)
    requires
        old(framebuffer).spec_wf(),
        x + 16 < WIDTH,
        y + 30 < HEIGHT,
    ensures
        final(framebuffer).spec_wf(),
        final(framebuffer).spec_pixels() == spec_draw_rectangle(
            old(framebuffer).spec_pixels(),
            x + 10,
            x + 16,
            y + 10,
            y + 30,
            0,
        ),
        final(framebuffer).spec_shown() == old(framebuffer).spec_shown(),
{
    let x = x as u16;
    let y = y as u16;
    draw_rectangle(framebuffer, x + 10, x + 16, y + 10, y + 30, 0);
}

/// Where the left player's score is written.
pub const SCORE_1_X: usize = 480 / 2 - 10 - 15;

pub const SCORE_1_Y: usize = 272 - 50;

/// Where the right player's score is written.
pub const SCORE_2_X: usize = 480 / 2 + 10;

pub const SCORE_2_Y: usize = 272 - 50;

/// The number of clock ticks after which the scores are written again even
/// if they did not change.
pub const SCORE_REDRAW_TIME: usize = 800;

/// What the picture shows of the match, so that only changes are redrawn.
#[derive(Debug, Copy, Clone, PartialEq, Eq)]
pub struct GraphicsCache {
    pub score: [u8; 2],
    pub last_score_redraw: usize,
    pub last_state: u8,
}

/// The text that a frame asks for. The caller writes it, in this order,
/// after the frame is drawn: the winner's banner in the top left corner,
/// then each score at its place.
#[derive(Debug, Copy, Clone, PartialEq, Eq)]
pub struct GraphicsText {
    /// The player, 1 or 2, whose win is to be announced.
    pub banner: Option<u8>,
    /// The left player's score, to be written at `SCORE_1_X`, `SCORE_1_Y`.
    pub score_1: Option<u8>,
    /// The right player's score, to be written at `SCORE_2_X`, `SCORE_2_Y`.
    pub score_2: Option<u8>,
}

/// A cache that matches no score, so that both are written at once.
pub open spec fn spec_new_cache() -> GraphicsCache {
    GraphicsCache { score: [99u8, 99u8], last_score_redraw: 0, last_state: 0 }
}

impl GraphicsCache {
    pub fn new() -> (result: GraphicsCache)
        ensures
            result == spec_new_cache(),
    {
        GraphicsCache { score: [99, 99], last_score_redraw: 0, last_state: 0 }
    }
}

/// Ball and paddles of a state lie wholly on the screen, so that the state
/// can be drawn.
pub open spec fn spec_drawable(gamestate: GamestatePacket) -> bool {
    &&& spec_ball_on_screen(gamestate.ball.x as int, gamestate.ball.y as int)
    &&& spec_row_on_screen(gamestate.rackets[0].y as int)
    &&& spec_row_on_screen(gamestate.rackets[1].y as int)
}

/// Whether a state can be drawn, which is what `update_graphics` asks of it.
pub fn drawable(gamestate: &GamestatePacket) -> (result: bool)
    ensures
        result == spec_drawable(*gamestate),
{
    let ball = gamestate.ball;
    10 <= ball.x && ball.x < 470 && 10 <= ball.y && ball.y < 262 && 30 <= gamestate.rackets[0].y
        && gamestate.rackets[0].y < 242 && 30 <= gamestate.rackets[1].y && gamestate.rackets[1].y
        < 242
}

/// A match starts again: the picture shows a finished match and the state
/// is running.
pub open spec fn spec_restarts(gamestate: GamestatePacket, cache: GraphicsCache) -> bool {
    gamestate.state == STATE_RUNNING && cache.last_state != STATE_RUNNING
}

/// The cache as the scores are compared with: a fresh one where a match
/// starts again, else the old one with the state noted.
pub open spec fn spec_cache_for_frame(
    gamestate: GamestatePacket,
    cache: GraphicsCache,
) -> GraphicsCache {
    if spec_restarts(gamestate, cache) {
        spec_new_cache()
    } else {
        GraphicsCache {
            score: cache.score,
            last_score_redraw: cache.last_score_redraw,
            last_state: gamestate.state,
        }
    }
}

/// The banner a frame asks for: the winner's, in the frame in which the
/// picture first shows the win.
pub open spec fn spec_banner(gamestate: GamestatePacket, cache: GraphicsCache) -> Option<u8> {
    if gamestate.state == STATE_RUNNING || cache.last_state == gamestate.state {
        None
    } else if gamestate.state == STATE_WON_PLAYER_1 {
        Some(1u8)
    } else if gamestate.state == STATE_WON_PLAYER_2 {
        Some(2u8)
    } else {
        None
    }
}

/// A score is written again when it changed or was last written more than
/// `SCORE_REDRAW_TIME` ticks ago.
pub open spec fn spec_redraw_score(
    score: u8,
    cached: u8,
    total_time: usize,
    last_score_redraw: usize,
) -> bool {
    score != cached || total_time > last_score_redraw + SCORE_REDRAW_TIME
}

/// The picture made ready for a score: the digits zero and one are narrower
/// than the others, so what a wider digit left beside them is wiped.
pub open spec fn spec_fix_score(
    pixels: Seq<u8>,
    redraw: bool,
    score: u8,
    cached: u8,
    x: int,
    y: int,
) -> Seq<u8> {
    if !redraw {
        pixels
    } else if score == 0 && cached != 0 {
        spec_draw_rectangle(pixels, x, x + 1, y + 10, y + 30, 0)
    } else if score == 1 && cached != 1 {
        spec_draw_rectangle(pixels, x + 10, x + 16, y + 10, y + 30, 0)
    } else {
        pixels
    }
}

/// The picture of a frame: where a match starts again the field is wiped
/// and drawn anew; then the ball and both paddles move to where the state
/// has them; then room is made for the scores that are written again.
pub open spec fn spec_update_graphics(
    pixels: Seq<u8>,
    gamestate: GamestatePacket,
    rackets: [Racket; 2],
    ball: Ball,
    cache: GraphicsCache,
    total_time: usize,
) -> Seq<u8> {
    let start = if spec_restarts(gamestate, cache) {
        spec_draw_initial(spec_blank(0), rackets, ball)
    } else {
        pixels
    };
    let moved = spec_move_racket(
        spec_move_racket(
            spec_move_ball(
                start,
                ball.spec_xpos_centre() as int,
                ball.spec_ypos_centre() as int,
                gamestate.ball.x as int,
                gamestate.ball.y as int,
            ),
            rackets[0].spec_xpos_centre() as int,
            rackets[0].spec_ypos_centre() as int,
            gamestate.rackets[0].y as int,
        ),
        rackets[1].spec_xpos_centre() as int,
        rackets[1].spec_ypos_centre() as int,
        gamestate.rackets[1].y as int,
    );
    let compared = spec_cache_for_frame(gamestate, cache);
    spec_fix_score(
        spec_fix_score(
            moved,
            spec_redraw_score(
                gamestate.score[0],
                compared.score[0],
                total_time,
                compared.last_score_redraw,
            ),
            gamestate.score[0],
            compared.score[0],
            SCORE_1_X as int,
            SCORE_1_Y as int,
        ),
        spec_redraw_score(
            gamestate.score[1],
            compared.score[1],
            total_time,
            compared.last_score_redraw,
        ),
        gamestate.score[1],
        compared.score[1],
        SCORE_2_X as int,
        SCORE_2_Y as int,
    )
}

/// The cache after a frame: it holds the state shown, the scores written,
/// and the time they were last written.
pub open spec fn spec_update_cache(
    gamestate: GamestatePacket,
    cache: GraphicsCache,
    total_time: usize,
) -> GraphicsCache {
    let compared = spec_cache_for_frame(gamestate, cache);
    let redraw_1 = spec_redraw_score(
        gamestate.score[0],
        compared.score[0],
        total_time,
        compared.last_score_redraw,
    );
    let redraw_2 = spec_redraw_score(
        gamestate.score[1],
        compared.score[1],
        total_time,
        compared.last_score_redraw,
    );
    GraphicsCache {
        score: [
            if redraw_1 {
                gamestate.score[0]
            } else {
                compared.score[0]
            },
            if redraw_2 {
                gamestate.score[1]
            } else {
                compared.score[1]
            },
        ],
        last_score_redraw: if redraw_1 || redraw_2 {
            total_time
        } else {
            compared.last_score_redraw
        },
        last_state: compared.last_state,
    }
}

/// The text a frame asks for.
pub open spec fn spec_update_text(
    gamestate: GamestatePacket,
    cache: GraphicsCache,
    total_time: usize,
) -> GraphicsText {
    let compared = spec_cache_for_frame(gamestate, cache);
    GraphicsText {
        banner: spec_banner(gamestate, cache),
        score_1: if spec_redraw_score(
            gamestate.score[0],
            compared.score[0],
            total_time,
            compared.last_score_redraw,
        ) {
            Some(gamestate.score[0])
        } else {
            None
        },
        score_2: if spec_redraw_score(
            gamestate.score[1],
            compared.score[1],
            total_time,
            compared.last_score_redraw,
        ) {
            Some(gamestate.score[1])
        } else {
            None
        },
    }
}

/// Whether a score is to be written again.
fn redraw_score(score: u8, cached: u8, total_time: usize, last_score_redraw: usize) -> (result:
    bool)
    ensures
        result == spec_redraw_score(score, cached, total_time, last_score_redraw),
{
    score != cached || match last_score_redraw.checked_add(SCORE_REDRAW_TIME) {
        Some(limit) => total_time > limit,
        None => false,
    }
}

/// Brings the picture up to date with the match and says what text is to
/// be written over it.
pub fn update_graphics<F: Framebuffer>(
    framebuffer: &mut F,
    gamestate: &GamestatePacket,
    rackets: &mut [Racket; 2],
    ball: &mut Ball,
    cache: &mut GraphicsCache,
    total_time: usize,
    _delta_time: usize,
) -> (result: GraphicsText)
    requires
        old(framebuffer).spec_wf(),
        spec_pieces_on_screen(*old(rackets), *old(ball)),
        spec_drawable(*gamestate),
    ensures
        final(framebuffer).spec_wf(),
        final(framebuffer).spec_shown() == old(framebuffer).spec_shown(),
        final(framebuffer).spec_pixels() == spec_update_graphics(
            old(framebuffer).spec_pixels(),
            *gamestate,
            *old(rackets),
            *old(ball),
            *old(cache),
            total_time,
        ),
        *final(cache) == spec_update_cache(*gamestate, *old(cache), total_time),
        result == spec_update_text(*gamestate, *old(cache), total_time),
        spec_pieces_on_screen(*final(rackets), *final(ball)),
        final(ball).spec_xpos_centre() == gamestate.ball.x,
        final(ball).spec_ypos_centre() == gamestate.ball.y,
        final(ball).spec_xpos_centre_old() == old(ball).spec_xpos_centre(),
        final(ball).spec_ypos_centre_old() == old(ball).spec_ypos_centre(),
        forall|id: int|
            0 <= id < 2 ==> {
                &&& (#[trigger] final(rackets)[id]).spec_xpos_centre() == old(
                    rackets,
                )[id].spec_xpos_centre()
                &&& final(rackets)[id].spec_ypos_centre() == gamestate.rackets[id].y
                &&& final(rackets)[id].spec_ypos_centre_old() == old(rackets)[id].spec_ypos_centre()
            },
{
    let mut banner: Option<u8> = None;
    if gamestate.state != 0 {
        if cache.last_state != gamestate.state {
            if gamestate.state == STATE_WON_PLAYER_1 {
                banner = Some(1);
            } else if gamestate.state == STATE_WON_PLAYER_2 {
                banner = Some(2);
            }
            cache.last_state = gamestate.state;
        }
    } else if cache.last_state != 0 {
        cache.last_state = 0;
        framebuffer.clear();
        *cache = GraphicsCache::new();
        draw_initial(framebuffer, rackets, ball);
    }
    assert(*cache =~= spec_cache_for_frame(*gamestate, *old(cache)));

    //send gamestate to ball
    ball.update_ball_pos(framebuffer, gamestate.ball);
    // send gamestate to racket to let racket move
    rackets[0].update_racket_pos(framebuffer, gamestate.rackets[0].y as u16);
    rackets[1].update_racket_pos(framebuffer, gamestate.rackets[1].y as u16);

    let redraw_score_1 = redraw_score(
        gamestate.score[0],
        cache.score[0],
        total_time,
        cache.last_score_redraw,
    );
    let redraw_score_2 = redraw_score(
        gamestate.score[1],
        cache.score[1],
        total_time,
        cache.last_score_redraw,
    );

    if redraw_score_1 || redraw_score_2 {
        cache.last_score_redraw = total_time;
    }
    let mut score_1: Option<u8> = None;
    let mut score_2: Option<u8> = None;
    if redraw_score_1 {
        if gamestate.score[0] == 0 && cache.score[0] != 0 {
            draw_fix_for_score_0(framebuffer, SCORE_1_X, SCORE_1_Y);
        } else if gamestate.score[0] == 1 && cache.score[0] != 1 {
            draw_fix_for_score_1(framebuffer, SCORE_1_X, SCORE_1_Y);
        }
        cache.score = [gamestate.score[0], cache.score[1]];
        score_1 = Some(gamestate.score[0]);
    }
    if redraw_score_2 {
        if gamestate.score[1] == 0 && cache.score[1] != 0 {
            draw_fix_for_score_0(framebuffer, SCORE_2_X, SCORE_2_Y);
        } else if gamestate.score[1] == 1 && cache.score[1] != 1 {
            draw_fix_for_score_1(framebuffer, SCORE_2_X, SCORE_2_Y);
        }
        cache.score = [cache.score[0], gamestate.score[1]];
        score_2 = Some(gamestate.score[1]);
    }
    assert(cache.score =~= spec_update_cache(*gamestate, *old(cache), total_time).score);
    GraphicsText { banner, score_1, score_2 }
}

} // verus!
