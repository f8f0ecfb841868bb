//! The monochrome framebuffer and its redraw flag.
use vstd::prelude::*;

verus! {

/// Pixels per row.
pub const SCREEN_WIDTH: usize = 64;

/// Rows of pixels.
pub const SCREEN_HEIGHT: usize = 32;

/// Pixels on the whole screen, stored row by row.
pub const SCREEN_PIXELS: usize = 2048;

/// A 64x32 bitmap, one byte per pixel, and a flag that tells the renderer
/// that the picture changed.
pub struct Graphics {
    pub gfx: [u8; SCREEN_PIXELS],
    draw_flag: bool,
}

/// What a `Graphics` holds: the pixels row by row, and the redraw flag.
pub struct Screen {
    pub pixels: Seq<u8>,
    pub draw_flag: bool,
}

impl Screen {
    /// The screen has its full size and every pixel is either off (0) or on (1).
    pub open spec fn wf(self) -> bool {
        &&& self.pixels.len() == SCREEN_PIXELS
        &&& forall|p: int| 0 <= p < self.pixels.len() ==> #[trigger] self.pixels[p] <= 1
    }

    /// A screen with every pixel off and no redraw pending.
    pub open spec fn blank() -> Screen {
        Screen { pixels: Seq::new(SCREEN_PIXELS as nat, |p: int| 0u8), draw_flag: false }
    }
}

impl View for Graphics {
    type V = Screen;

    closed spec fn view(&self) -> Screen {
        Screen { pixels: self.gfx@, draw_flag: self.draw_flag }
    }
}

impl Graphics {
    /// Every framebuffer holds exactly `SCREEN_PIXELS` pixels.
    pub proof fn lemma_len(&self)
        ensures
            self@.pixels.len() == SCREEN_PIXELS,
    {
    }

    /// A blank screen with no redraw pending.
    pub fn new() -> (gr: Graphics)
        ensures
            gr@ == Screen::blank(),
            gr@.wf(),
    {
        let gr = Graphics { gfx: [0; SCREEN_PIXELS], draw_flag: false };
        assert(gr@.pixels =~= Screen::blank().pixels);
        gr
    }

    /// The value of pixel `p`, counted row by row from the top left.
    pub fn pixel(&self, p: usize) -> (value: u8)
        requires
            p < SCREEN_PIXELS,
        ensures
            value == self@.pixels[p as int],
    {
        self.gfx[p]
    }

    /// Flips pixel `p` by exclusive or with 1 and tells whether it was on before.
    pub fn toggle(&mut self, p: usize) -> (was_on: bool)
        requires
            p < SCREEN_PIXELS,
        ensures
            was_on == (old(self)@.pixels[p as int] == 1),
            final(self)@ == (Screen {
                pixels: old(self)@.pixels.update(p as int, old(self)@.pixels[p as int] ^ 1),
                ..old(self)@
            }),
    {
        let was_on = self.gfx[p] == 1;
        self.gfx[p] = self.gfx[p] ^ 1;
        was_on
    }

    /// Marks the picture as changed.
    pub fn draw_flag_set(&mut self)
        ensures
            final(self)@ == (Screen { draw_flag: true, ..old(self)@ }),
    {
        self.draw_flag = true;
    }

    /// Marks the picture as rendered.
    pub fn draw_flag_clear(&mut self)
        ensures
            final(self)@ == (Screen { draw_flag: false, ..old(self)@ }),
    {
        self.draw_flag = false;
    }

    /// Whether the picture changed since the flag was last cleared.
    pub fn draw_flag(&self) -> (pending: bool)
        ensures
            pending == self@.draw_flag,
    {
        self.draw_flag
    }

    /// Turns every pixel off. The redraw flag keeps its value.
    pub fn clear(&mut self)
        ensures
            final(self)@ == (Screen { pixels: Screen::blank().pixels, ..old(self)@ }),
    {
        self.gfx = [0; SCREEN_PIXELS];
        assert(self@.pixels =~= Screen::blank().pixels);
    }
}

} // verus!
