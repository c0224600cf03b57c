//! Writing text: where the pixels of rendered glyphs go.
//!
//! A font renderer turns a text into pixels, each with its offset from the
//! start of the line and its coverage. The writer keeps a cursor, breaks the
//! line at the right edge of the screen, starts again at the top when the
//! bottom is reached, and sets the pixels.

use crate::lcd::{spec_on_screen, spec_set_pixel, Framebuffer, HEIGHT, WIDTH};
use vstd::prelude::*;

verus! {

/// One pixel of a rendered text: its offset from the start of the line and
/// how strongly the glyph covers it.
#[derive(Debug, Copy, Clone, PartialEq, Eq)]
pub struct GlyphPixel {
    pub x: i32,
    pub y: i32,
    pub alpha: u8,
}

/// The place on the screen that offsets are counted from.
#[derive(Debug, Copy, Clone, PartialEq, Eq)]
pub struct TextWriter {
    pub x_pos: i32,
    pub y_pos: i32,
}

/// The largest offset and font height a writer takes.
pub const MAX_OFFSET: i32 = 0xffff;

/// An offset or a font height lies within what a writer takes.
pub open spec fn spec_offset(v: int) -> bool {
    0 <= v <= MAX_OFFSET
}

/// The cursor after the pixel at offset `x` is placed: a pixel that would
/// fall beyond the right edge starts a new line, one font height further
/// down, and a line that would not fit above the bottom edge starts again
/// at the top.
pub open spec fn spec_place(cursor: TextWriter, x: int, font_height: int) -> TextWriter {
    let wraps = cursor.x_pos + x >= WIDTH;
    let x_pos = if wraps {
        -x
    } else {
        cursor.x_pos as int
    };
    let y_pos = if wraps {
        cursor.y_pos + font_height
    } else {
        cursor.y_pos as int
    };
    TextWriter {
        x_pos: x_pos as i32,
        y_pos: if y_pos + font_height >= HEIGHT {
            0
        } else {
            y_pos as i32
        },
    }
}

/// The picture after one pixel of a text is written with the cursor already
/// placed for it: the pixel is set where it falls on the screen.
pub open spec fn spec_write_pixel(pixels: Seq<u8>, cursor: TextWriter, pixel: GlyphPixel) -> Seq<
    u8,
> {
    if spec_on_screen(cursor.x_pos + pixel.x, cursor.y_pos + pixel.y) {
        spec_set_pixel(pixels, cursor.x_pos + pixel.x, cursor.y_pos + pixel.y, pixel.alpha)
    } else {
        pixels
    }
}

/// The cursor after a text is written.
pub open spec fn spec_cursor_after(
    cursor: TextWriter,
    glyphs: Seq<GlyphPixel>,
    font_height: int,
) -> TextWriter
    decreases glyphs.len(),
{
    if glyphs.len() == 0 {
        cursor
    } else {
        spec_place(
            spec_cursor_after(cursor, glyphs.drop_last(), font_height),
            glyphs.last().x as int,
            font_height,
        )
    }
}

/// The picture after a text is written.
pub open spec fn spec_write(
    pixels: Seq<u8>,
    cursor: TextWriter,
    glyphs: Seq<GlyphPixel>,
    font_height: int,
) -> Seq<u8>
    decreases glyphs.len(),
{
    if glyphs.len() == 0 {
        pixels
    } else {
        spec_write_pixel(
            spec_write(pixels, cursor, glyphs.drop_last(), font_height),
            spec_cursor_after(cursor, glyphs, font_height),
            glyphs.last(),
        )
    }
}

/// Every pixel of a text has offsets a writer takes.
pub open spec fn spec_glyphs_in_range(glyphs: Seq<GlyphPixel>) -> bool {
    forall|i: int|
        0 <= i < glyphs.len() ==> spec_offset((#[trigger] glyphs[i]).x as int) && spec_offset(
            glyphs[i].y as int,
        )
}

/// Whether every pixel of a text has offsets a writer takes.
pub fn glyphs_in_range(glyphs: &Vec<GlyphPixel>) -> (result: bool)
    ensures
        result == spec_glyphs_in_range(glyphs@),
{
    let mut i: usize = 0;
    while i < glyphs.len()
        invariant
            i <= glyphs.len(),
            forall|j: int|
                0 <= j < i ==> spec_offset((#[trigger] glyphs@[j]).x as int) && spec_offset(
                    glyphs@[j].y as int,
                ),
        decreases glyphs.len() - i,
    {
        let pixel = glyphs[i];
        if pixel.x < 0 || pixel.x > MAX_OFFSET || pixel.y < 0 || pixel.y > MAX_OFFSET {
            return false;
        }
        i += 1;
    }
    true
}

impl TextWriter {
    /// The cursor is on the screen, or left of it by no more than an offset.
    pub open spec fn spec_wf(&self) -> bool {
        -MAX_OFFSET <= self.x_pos < WIDTH && 0 <= self.y_pos < HEIGHT
    }

    /// Whether the cursor is where a writer can go on from.
    pub fn well_formed(&self) -> (result: bool)
        ensures
            result == self.spec_wf(),
    {
        -MAX_OFFSET <= self.x_pos && self.x_pos < WIDTH as i32 && 0 <= self.y_pos && self.y_pos
            < HEIGHT as i32
    }

    /// A writer at the top left corner.
    pub fn new() -> (result: TextWriter)
        ensures
            result.x_pos == 0,
            result.y_pos == 0,
            result.spec_wf(),
    {
        TextWriter { x_pos: 0, y_pos: 0 }
    }

    /// Writes one pixel of a text.
    pub fn write_pixel<F: Framebuffer>(
        &mut self,
        framebuffer: &mut F,
        pixel: GlyphPixel,
        font_height: i32,
    )
        requires
            old(self).spec_wf(),
            old(framebuffer).spec_wf(),
            spec_offset(pixel.x as int),
            spec_offset(pixel.y as int),
            spec_offset(font_height as int),
        ensures
            final(self).spec_wf(),
            *final(self) == spec_place(*old(self), pixel.x as int, font_height as int),
            final(framebuffer).spec_wf(),
            final(framebuffer).spec_pixels() == spec_write_pixel(
                old(framebuffer).spec_pixels(),
                *final(self),
                pixel,
            ),
            final(framebuffer).spec_shown() == old(framebuffer).spec_shown(),
    {
        let x = pixel.x;
        let y = pixel.y;
        if self.x_pos + x >= WIDTH as i32 {
            self.x_pos = -x;
            self.y_pos += font_height;
        }
        if self.y_pos + font_height >= HEIGHT as i32 {
            self.y_pos = 0;
        }
        let column = self.x_pos + x;
        let row = self.y_pos + y;
        if 0 <= column && column < WIDTH as i32 && 0 <= row && row < HEIGHT as i32 {
            framebuffer.set_pixel(column as usize, row as usize, pixel.alpha);
        }
    }

    /// Writes a rendered text from where the cursor stands.
    pub fn write<F: Framebuffer>(
        &mut self,
        framebuffer: &mut F,
        glyphs: &Vec<GlyphPixel>,
        font_height: i32,
    )
        requires
            old(self).spec_wf(),
            old(framebuffer).spec_wf(),
            spec_glyphs_in_range(glyphs@),
            spec_offset(font_height as int),
        ensures
            final(self).spec_wf(),
            *final(self) == spec_cursor_after(*old(self), glyphs@, font_height as int),
            final(framebuffer).spec_wf(),
            final(framebuffer).spec_pixels() == spec_write(
                old(framebuffer).spec_pixels(),
                *old(self),
                glyphs@,
                font_height as int,
            ),
            final(framebuffer).spec_shown() == old(framebuffer).spec_shown(),
    {
        let mut i: usize = 0;
        assert(glyphs@.take(0) =~= Seq::<GlyphPixel>::empty());
        while i < glyphs.len()
            invariant
                i <= glyphs.len(),
                self.spec_wf(),
                framebuffer.spec_wf(),
                spec_glyphs_in_range(glyphs@),
                spec_offset(font_height as int),
                *self == spec_cursor_after(*old(self), glyphs@.take(i as int), font_height as int),
                framebuffer.spec_pixels() == spec_write(
                    old(framebuffer).spec_pixels(),
                    *old(self),
                    glyphs@.take(i as int),
                    font_height as int,
                ),
                framebuffer.spec_shown() == old(framebuffer).spec_shown(),
            decreases glyphs.len() - i,
        {
            assert(glyphs@.take(i + 1).drop_last() =~= glyphs@.take(i as int));
            self.write_pixel(framebuffer, glyphs[i], font_height);
            i += 1;
        }
        assert(glyphs@.take(glyphs.len() as int) =~= glyphs@);
    }

    /// Writes a rendered text from a place on the screen.
    pub fn write_at<F: Framebuffer>(
        &mut self,
        framebuffer: &mut F,
        glyphs: &Vec<GlyphPixel>,
        font_height: i32,
        x: usize,
        y: usize,
    )
        requires
            old(framebuffer).spec_wf(),
            spec_on_screen(x as int, y as int),
            spec_glyphs_in_range(glyphs@),
            spec_offset(font_height as int),
        ensures
            final(self).spec_wf(),
            *final(self) == spec_cursor_after(
                TextWriter { x_pos: x as i32, y_pos: y as i32 },
                glyphs@,
                font_height as int,
            ),
            final(framebuffer).spec_wf(),
            final(framebuffer).spec_pixels() == spec_write(
                old(framebuffer).spec_pixels(),
                TextWriter { x_pos: x as i32, y_pos: y as i32 },
                glyphs@,
                font_height as int,
            ),
            final(framebuffer).spec_shown() == old(framebuffer).spec_shown(),
    {
        self.x_pos = x as i32;
        self.y_pos = y as i32;
        self.write(framebuffer, glyphs, font_height);
    }
}

} // verus!
