//! The text console on the framebuffer: pixel addressing, glyph colouring and the
//! movement of the text cursor.
use vstd::prelude::*;

verus! {

pub const LINE_SPACING: usize = 2;
pub const LETTER_SPACING: usize = 0;
pub const BORDER_PADDING: usize = 1;
/// The height of a glyph of the console font, in pixels.
pub const CHAR_RASTER_HEIGHT: usize = 16;

/// The byte offset of pixel `(x, y)` in a framebuffer of `pitch` bytes a row and
/// four bytes a pixel.
pub fn pixel_offset(x: u64, y: u64, pitch: u64) -> (off: usize)
    requires
        y * pitch + x * 4 <= u64::MAX,
        y * pitch + x * 4 <= usize::MAX,
    ensures
        off == y * pitch + x * 4,
{
    assert(0 <= y * pitch <= y * pitch + x * 4) by (nonlinear_arith)
        requires
            y * pitch + x * 4 <= u64::MAX,
    ;
    let off = y * pitch + x * 4;
    off as usize
}

/// The colour of a glyph pixel of coverage `intensity` drawn in colour `(r, g, b)`:
/// each channel is the coverage masked with the channel, placed in bytes 2, 1, 0.
pub fn pixel_color(intensity: u8, r: u8, g: u8, b: u8) -> (c: u32)
    ensures
        c == (intensity & r) as u32 * 0x1_0000 + (intensity & g) as u32 * 0x100 + (intensity & b) as u32,
{
    let i = intensity as u32;
    let c = ((i & r as u32) << 16) | ((i & g as u32) << 8) | (i & b as u32);
    assert(c == (intensity & r) as u32 * 0x1_0000 + (intensity & g) as u32 * 0x100 + (intensity
        & b) as u32) by (bit_vector)
        requires
            i == intensity as u32,
            c == ((i & r as u32) << 16) | ((i & g as u32) << 8) | (i & b as u32),
    ;
    c
}

/// Where the next glyph of the console goes.
#[derive(Debug, Clone, Copy, PartialEq, Eq, Structural)]
pub struct TextCursor {
    pub x: usize,
    pub y: usize,
}

/// What writing a character asks of the screen: whether to clear it first, and
/// where to draw the glyph, if one is drawn.
#[derive(Debug, Clone, Copy, PartialEq, Eq)]
pub struct Placement {
    pub clear_screen: bool,
    pub draw_at: Option<(usize, usize)>,
}

/// The cursor and the placement after writing `c`, for glyphs at most
/// `char_width` wide, a glyph of `rendered_width`, and a screen of `width` by
/// `height` pixels. A line feed moves to the start of the next line; a carriage
/// return to the left border. Another character first moves to the next line when
/// it would not fit, asks for a clear when the line would not fit vertically (the
/// cursor stays where it is), is drawn at the cursor, and moves the cursor on.
pub open spec fn after_char(
    cur: TextCursor,
    c: char,
    char_width: usize,
    rendered_width: usize,
    width: usize,
    height: usize,
) -> (TextCursor, Placement) {
    if c == '\n' {
        (
            TextCursor { x: 0, y: (cur.y + CHAR_RASTER_HEIGHT + LINE_SPACING) as usize },
            Placement { clear_screen: false, draw_at: None },
        )
    } else if c == '\r' {
        (TextCursor { x: BORDER_PADDING, y: cur.y }, Placement { clear_screen: false, draw_at: None })
    } else {
        let wraps = cur.x + char_width >= width;
        let x = if wraps {
            0
        } else {
            cur.x
        };
        let y = if wraps {
            cur.y + CHAR_RASTER_HEIGHT + LINE_SPACING
        } else {
            cur.y as int
        };
        (
            TextCursor { x: (x + rendered_width + LETTER_SPACING) as usize, y: y as usize },
            Placement {
                clear_screen: y + CHAR_RASTER_HEIGHT + BORDER_PADDING >= height,
                draw_at: Some((x as usize, y as usize)),
            },
        )
    }
}

/// A glyph is drawn where the cursor stands after wrapping: at the start of
/// the next line (18 pixels lower) when it would reach the right edge, else at
/// the cursor. The screen is cleared exactly when the glyph drawn there would
/// reach the bottom: its line, 16 pixels and one of border, does not end above
/// `height`. Line feeds and carriage returns draw nothing and clear nothing.
pub proof fn lemma_glyph_placement(
    cur: TextCursor,
    c: char,
    char_width: usize,
    rendered_width: usize,
    width: usize,
    height: usize,
)
    requires
        char_fits(cur, c, char_width, rendered_width, width),
    ensures
        ({
            let p = after_char(cur, c, char_width, rendered_width, width, height).1;
            &&& (c == '\n' || c == '\r') ==> p.draw_at is None && !p.clear_screen
            &&& (c != '\n' && c != '\r' && cur.x + char_width >= width) ==> p.draw_at == Some((0usize, (cur.y + 18) as usize))
            &&& (c != '\n' && c != '\r' && cur.x + char_width < width) ==> p.draw_at == Some(
                (cur.x, cur.y),
            )
            &&& p.draw_at is Some ==> p.clear_screen == (p.draw_at.unwrap().1 + 17 >= height)
        }),
{
}

/// Whether writing `c` stays inside the range of `usize`.
pub open spec fn char_fits(cur: TextCursor, c: char, char_width: usize, rendered_width: usize, width: usize) -> bool {
    if c == '\n' {
        cur.y + CHAR_RASTER_HEIGHT + LINE_SPACING <= usize::MAX
    } else if c == '\r' {
        true
    } else {
        &&& cur.x + char_width <= usize::MAX
        &&& if cur.x + char_width >= width {
            cur.y + 2 * CHAR_RASTER_HEIGHT + LINE_SPACING + BORDER_PADDING <= usize::MAX
        } else {
            cur.y + CHAR_RASTER_HEIGHT + BORDER_PADDING <= usize::MAX && cur.x + rendered_width
                <= usize::MAX
        }
    }
}

impl TextCursor {
    /// The top left corner.
    pub fn new() -> (c: Self)
        ensures
            c.x == 0,
            c.y == 0,
    {
        TextCursor { x: 0, y: 0 }
    }

    /// Moves to the start of the next line.
    pub fn newline(&mut self)
        requires
            old(self).y + CHAR_RASTER_HEIGHT + LINE_SPACING <= usize::MAX,
        ensures
            final(self).y == old(self).y + CHAR_RASTER_HEIGHT + LINE_SPACING,
            final(self).x == 0,
    {
        self.y = self.y + CHAR_RASTER_HEIGHT + LINE_SPACING;
        self.x = 0;
    }

    /// Moves to the left border.
    pub fn carriage_return(&mut self)
        ensures
            final(self).y == old(self).y,
            final(self).x == BORDER_PADDING,
    {
        self.x = BORDER_PADDING;
    }

    /// Writes `c`: moves the cursor and says what the screen must do.
    pub fn write_char(
        &mut self,
        c: char,
        char_width: usize,
        rendered_width: usize,
        width: usize,
        height: usize,
    ) -> (p: Placement)
        requires
            char_fits(*old(self), c, char_width, rendered_width, width),
        ensures
            (*final(self), p) == after_char(*old(self), c, char_width, rendered_width, width, height),
            c == '\n' || c == '\r' ==> p.draw_at is None && !p.clear_screen,
            c != '\n' && c != '\r' ==> p.draw_at == Some(
                if old(self).x + char_width >= width {
                    (0usize, (old(self).y + 18) as usize)
                } else {
                    (old(self).x, old(self).y)
                },
            ),
            p.draw_at is Some ==> p.clear_screen == (p.draw_at.unwrap().1 + 17 >= height),
    {
        if c == '\n' {
            self.newline();
            Placement { clear_screen: false, draw_at: None }
        } else if c == '\r' {
            self.carriage_return();
            Placement { clear_screen: false, draw_at: None }
        } else {
            if self.x + char_width >= width {
                self.newline();
            }
            let clear_screen = self.y + CHAR_RASTER_HEIGHT + BORDER_PADDING >= height;
            let at = (self.x, self.y);
            self.x = self.x + rendered_width + LETTER_SPACING;
            Placement { clear_screen, draw_at: Some(at) }
        }
    }

    /// Writes `c` as `write_char` does, or gives `None` and leaves the cursor
    /// where it is when a coordinate would not fit in a `usize`.
    pub fn try_write_char(
        &mut self,
        c: char,
        char_width: usize,
        rendered_width: usize,
        width: usize,
        height: usize,
    ) -> (p: Option<Placement>)
        ensures
            p is None <==> !char_fits(*old(self), c, char_width, rendered_width, width),
            p is None ==> *final(self) == *old(self),
            p is Some ==> (*final(self), p->0) == after_char(
                *old(self),
                c,
                char_width,
                rendered_width,
                width,
                height,
            ),
    {
        let fits = if c == '\n' {
            self.y.checked_add(CHAR_RASTER_HEIGHT + LINE_SPACING).is_some()
        } else if c == '\r' {
            true
        } else {
            match self.x.checked_add(char_width) {
                None => false,
                Some(right) => {
                    if right >= width {
                        self.y.checked_add(2 * CHAR_RASTER_HEIGHT + LINE_SPACING + BORDER_PADDING).is_some()
                    } else {
                        self.y.checked_add(CHAR_RASTER_HEIGHT + BORDER_PADDING).is_some()
                            && self.x.checked_add(rendered_width).is_some()
                    }
                },
            }
        };
        if fits {
            Some(self.write_char(c, char_width, rendered_width, width, height))
        } else {
            None
        }
    }
}

} // verus!
