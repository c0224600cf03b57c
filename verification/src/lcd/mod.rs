//! The display: its dimensions and the two pixel buffers that are drawn to
//! and shown in turn.
//!
//! A picture is a sequence of `WIDTH * HEIGHT` colour indices, row by row.

pub mod text;

pub use self::text::TextWriter;
use vstd::prelude::*;

verus! {

/// Number of pixel rows.
pub const HEIGHT: usize = 272;

/// Number of pixel columns.
pub const WIDTH: usize = 480;

/// Number of bytes one pixel takes.
pub const LAYER_1_OCTETS_PER_PIXEL: usize = 1;

/// Number of bytes one picture takes.
pub const LAYER_1_LENGTH: usize = HEIGHT * WIDTH * LAYER_1_OCTETS_PER_PIXEL;

/// The point lies on the screen.
pub open spec fn spec_on_screen(x: int, y: int) -> bool {
    0 <= x < WIDTH && 0 <= y < HEIGHT
}

/// Where the pixel of a point stands in a picture.
pub open spec fn spec_pixel_index(x: int, y: int) -> int {
    y * WIDTH + x
}

/// The picture `pixels` with one pixel set.
pub open spec fn spec_set_pixel(pixels: Seq<u8>, x: int, y: int, color: u8) -> Seq<u8> {
    pixels.update(spec_pixel_index(x, y), color)
}

/// A picture of one colour.
pub open spec fn spec_blank(color: u8) -> Seq<u8> {
    Seq::new(LAYER_1_LENGTH as nat, |i: int| color)
}

/// A surface that is drawn to pixel by pixel while another picture is shown.
pub trait Framebuffer {
    /// The buffers have the size of the screen.
    spec fn spec_wf(&self) -> bool;

    /// The picture being drawn.
    spec fn spec_pixels(&self) -> Seq<u8>;

    /// The picture being shown.
    spec fn spec_shown(&self) -> Seq<u8>;

    /// Both pictures of a well-formed surface have the size of the screen.
    proof fn lemma_picture_size(&self)
        requires
            self.spec_wf(),
        ensures
            self.spec_pixels().len() == LAYER_1_LENGTH,
            self.spec_shown().len() == LAYER_1_LENGTH,
    ;

    /// Sets one pixel of the picture being drawn.
    fn set_pixel(&mut self, x: usize, y: usize, color: u8)
        requires
            old(self).spec_wf(),
            spec_on_screen(x as int, y as int),
        ensures
            final(self).spec_wf(),
            final(self).spec_pixels() == spec_set_pixel(
                old(self).spec_pixels(),
                x as int,
                y as int,
                color,
            ),
            final(self).spec_shown() == old(self).spec_shown(),
    ;

    /// Shows the picture that was being drawn, and goes on drawing on a copy
    /// of it.
    fn swap_buffers(&mut self)
        requires
            old(self).spec_wf(),
        ensures
            final(self).spec_wf(),
            final(self).spec_pixels() == old(self).spec_pixels(),
            final(self).spec_shown() == old(self).spec_pixels(),
    ;

    /// Wipes the picture being drawn.
    fn clear(&mut self)
        requires
            old(self).spec_wf(),
        ensures
            final(self).spec_wf(),
            final(self).spec_pixels() == spec_blank(0),
            final(self).spec_shown() == old(self).spec_shown(),
    ;

    /// Replaces the picture being drawn by the first `WIDTH * HEIGHT` bytes
    /// of `src`.
    fn copy_full(&mut self, src: &[u8])
        requires
            old(self).spec_wf(),
            src@.len() >= LAYER_1_LENGTH,
        ensures
            final(self).spec_wf(),
            final(self).spec_pixels() == src@.subrange(0, LAYER_1_LENGTH as int),
            final(self).spec_shown() == old(self).spec_shown(),
    ;
}

/// Two buffers of one byte per pixel. Drawing goes to the first until the
/// buffers are swapped, then to the second, and so on in turn.
pub struct FramebufferL8 {
    pub write_to_buffer_2: bool,
    pub framebuffer: Vec<u8>,
    pub backbuffer: Vec<u8>,
}

impl FramebufferL8 {
    /// Two black pictures; drawing starts on the first.
    pub fn new() -> (result: Self)
        ensures
            result.spec_wf(),
            !result.write_to_buffer_2,
            result.spec_pixels() == spec_blank(0),
            result.spec_shown() == spec_blank(0),
    {
        let write_to_buffer_2 = false;
        let result = FramebufferL8 {
            write_to_buffer_2,
            framebuffer: vec![0; WIDTH * HEIGHT],
            backbuffer: vec![0; WIDTH * HEIGHT],
        };
        assert(result.framebuffer@ =~= spec_blank(0));
        assert(result.backbuffer@ =~= spec_blank(0));
        result
    }

    /// Whether both buffers have the size of the screen, which is what
    /// drawing asks.
    pub fn well_formed(&self) -> (result: bool)
        ensures
            result == self.spec_wf(),
    {
        self.framebuffer.len() == LAYER_1_LENGTH && self.backbuffer.len() == LAYER_1_LENGTH
    }
}

/// Overwrites `dest` with the first bytes of `src`.
fn copy_pixels(dest: &mut Vec<u8>, src: &[u8])
    requires
        src@.len() >= old(dest)@.len(),
    ensures
        final(dest)@ == src@.subrange(0, old(dest)@.len() as int),
{
    let count = dest.len();
    let mut i: usize = 0;
    while i < count
        invariant
            i <= count,
            count == dest@.len(),
            src@.len() >= count,
            forall|j: int| 0 <= j < i ==> dest@[j] == src@[j],
        decreases count - i,
    {
        dest[i] = src[i];
        i += 1;
    }
    assert(dest@ =~= src@.subrange(0, count as int));
}

impl Framebuffer for FramebufferL8 {
    open spec fn spec_wf(&self) -> bool {
        self.framebuffer@.len() == LAYER_1_LENGTH && self.backbuffer@.len() == LAYER_1_LENGTH
    }

    open spec fn spec_pixels(&self) -> Seq<u8> {
        if self.write_to_buffer_2 {
            self.backbuffer@
        } else {
            self.framebuffer@
        }
    }

    open spec fn spec_shown(&self) -> Seq<u8> {
        if self.write_to_buffer_2 {
            self.framebuffer@
        } else {
            self.backbuffer@
        }
    }

    proof fn lemma_picture_size(&self) {
    }

    fn set_pixel(&mut self, x: usize, y: usize, color: u8) {
        let pixel = y * WIDTH + x;
        if self.write_to_buffer_2 {
            self.backbuffer[pixel * LAYER_1_OCTETS_PER_PIXEL] = color;
        } else {
            self.framebuffer[pixel * LAYER_1_OCTETS_PER_PIXEL] = color;
        }
    }

    fn swap_buffers(&mut self)
        ensures
            final(self).write_to_buffer_2 == !old(self).write_to_buffer_2,
    {
        if self.write_to_buffer_2 {
            copy_pixels(&mut self.framebuffer, self.backbuffer.as_slice());
        } else {
            copy_pixels(&mut self.backbuffer, self.framebuffer.as_slice());
        }
        self.write_to_buffer_2 = !self.write_to_buffer_2;
    }

    fn clear(&mut self) {
        let empty: Vec<u8> = vec![0; WIDTH * HEIGHT];
        assert(empty@ =~= spec_blank(0));
        self.copy_full(empty.as_slice());
    }

    fn copy_full(&mut self, src: &[u8]) {
        if self.write_to_buffer_2 {
            copy_pixels(&mut self.backbuffer, src);
        } else {
            copy_pixels(&mut self.framebuffer, src);
        }
    }
}

} // verus!
