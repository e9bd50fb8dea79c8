//! A terminal of 80 by 25 characters on a display.
//!
//! Characters go into a grid of cells at the cursor. A line feed, or a
//! character behind the last column, moves the cursor to the start of the
//! next line; a character below the last line first scrolls the grid up
//! by one line. Rendering draws the glyph of every cell into the shadow
//! buffer of the display, each bit of a glyph as a square of pixels.

use vstd::prelude::*;
use vstd::string::StrSliceExecFns;
use font8x8::UnicodeFonts;
use crate::framebuffer::{Color, Display, DisplayView};

verus! {

/// Characters in a line.
pub const TTY_WIDTH: usize = 80;

/// Lines on the terminal.
pub const TTY_HEIGHT: usize = 25;

/// Cells of the grid.
pub const TTY_CELLS: usize = 80 * 25;

/// The largest scale that the terminal is rendered at: up to it every
/// pixel coordinate of the grid fits in 32 bits.
pub const MAX_SCALE: usize = 0x10_0000;

/// The scale at which the terminal redraws itself after scrolling.
pub const SCROLL_SCALE: usize = 2;

/// The glyph of a character in the basic font of the `font8x8` crate:
/// eight rows from the top, in each row bit 0 for the leftmost pixel.
/// `None` for a character that the font does not have.
pub uninterp spec fn basic_glyph(c: char) -> Option<Seq<u8>>;

/// Calls `font8x8::UnicodeFonts::get` on `font8x8::BASIC_FONTS`. Trusted:
/// the result is a function of the character alone.
#[verifier::external_body]
fn glyph(c: char) -> (rows: Option<[u8; 8]>)
    ensures
        match rows {
            Some(found) => basic_glyph(c) == Some(found@),
            None => basic_glyph(c).is_none(),
        },
{
    font8x8::BASIC_FONTS.get(c)
}

/// The colour in which the terminal redraws itself after scrolling.
pub open spec fn spec_white() -> Color {
    Color { red: 255, green: 255, blue: 255 }
}

/// The display after `count` pixels in a row were drawn, from (`px`, `py`)
/// to the right.
pub open spec fn spec_fill_row(d: DisplayView, px: int, py: int, count: nat, color: Color) -> DisplayView
    decreases count,
{
    if count == 0 {
        d
    } else {
        spec_fill_row(d, px, py, (count - 1) as nat, color).draw(px + count - 1, py, color)
    }
}

/// The display after `rows` rows of `scale` pixels were drawn, the first
/// from (`px`, `py`) to the right and each of the others below the one
/// before.
pub open spec fn spec_fill_block(
    d: DisplayView,
    px: int,
    py: int,
    scale: nat,
    rows: nat,
    color: Color,
) -> DisplayView
    decreases rows,
{
    if rows == 0 {
        d
    } else {
        spec_fill_row(
            spec_fill_block(d, px, py, scale, (rows - 1) as nat, color),
            px,
            py + rows - 1,
            scale,
            color,
        )
    }
}

/// Whether bit `bit` of `byte` is set.
pub open spec fn spec_bit(byte: u8, bit: int) -> bool {
    (byte >> (bit as u8)) & 1 == 1
}

/// The display after the lowest `bits` bits of one row of a glyph were
/// drawn: a square of `scale` by `scale` pixels for every bit that is set,
/// the square of bit 0 at (`x0`, `py`) and each of the others to the right
/// of the one before.
pub open spec fn spec_glyph_row(
    d: DisplayView,
    byte: u8,
    x0: int,
    py: int,
    scale: nat,
    bits: nat,
    color: Color,
) -> DisplayView
    decreases bits,
{
    if bits == 0 {
        d
    } else {
        let before = spec_glyph_row(d, byte, x0, py, scale, (bits - 1) as nat, color);
        if spec_bit(byte, bits - 1) {
            spec_fill_block(before, x0 + (bits - 1) * scale, py, scale, scale, color)
        } else {
            before
        }
    }
}

/// The display after the first `count` rows of a glyph were drawn with its
/// upper left corner at (`x0`, `y0`).
pub open spec fn spec_glyph(
    d: DisplayView,
    rows: Seq<u8>,
    x0: int,
    y0: int,
    scale: nat,
    count: nat,
    color: Color,
) -> DisplayView
    decreases count,
{
    if count == 0 {
        d
    } else {
        spec_glyph_row(
            spec_glyph(d, rows, x0, y0, scale, (count - 1) as nat, color),
            rows[count - 1],
            x0,
            y0 + (count - 1) * scale,
            scale,
            8,
            color,
        )
    }
}

/// The display after the first `count` cells of the grid were rendered,
/// line by line. The glyph of the cell in column `x` of line `y` has its
/// upper left corner at (`8 * scale * x`, `8 * scale * y`); a cell whose
/// character the font does not have is left out.
pub open spec fn spec_render(d: DisplayView, cells: Seq<char>, scale: nat, count: nat, color: Color) -> DisplayView
    decreases count,
{
    if count == 0 {
        d
    } else {
        let before = spec_render(d, cells, scale, (count - 1) as nat, color);
        let i = count - 1;
        match basic_glyph(cells[i]) {
            Some(rows) => spec_glyph(
                before,
                rows,
                (i % 80) * 8 * scale,
                (i / 80) * 8 * scale,
                scale,
                8,
                color,
            ),
            None => before,
        }
    }
}

proof fn lemma_scaled(a: int, bound: int, scale: int)
    by (nonlinear_arith)
    requires
        0 <= a <= bound,
        0 <= scale,
    ensures
        0 <= a * scale <= bound * scale,
{
}

fn fill_row(display: &mut Display, px: usize, py: usize, count: usize, color: Color)
    requires
        px + count <= i32::MAX,
        py <= i32::MAX,
    ensures
        final(display)@ == spec_fill_row(old(display)@, px as int, py as int, count as nat, color),
{
    let mut dx: usize = 0;
    while dx < count
        invariant
            0 <= dx <= count,
            px + count <= i32::MAX,
            py <= i32::MAX,
            display@ == spec_fill_row(old(display)@, px as int, py as int, dx as nat, color),
        decreases count - dx,
    {
        display.draw_pixel((px + dx) as i32, py as i32, color);
        dx += 1;
    }
}

fn fill_block(display: &mut Display, px: usize, py: usize, scale: usize, color: Color)
    requires
        px + scale <= i32::MAX,
        py + scale <= i32::MAX,
    ensures
        final(display)@ == spec_fill_block(
            old(display)@,
            px as int,
            py as int,
            scale as nat,
            scale as nat,
            color,
        ),
{
    let mut dy: usize = 0;
    while dy < scale
        invariant
            0 <= dy <= scale,
            px + scale <= i32::MAX,
            py + scale <= i32::MAX,
            display@ == spec_fill_block(
                old(display)@,
                px as int,
                py as int,
                scale as nat,
                dy as nat,
                color,
            ),
        decreases scale - dy,
    {
        fill_row(display, px, py + dy, scale, color);
        dy += 1;
    }
}

fn draw_glyph_row(display: &mut Display, byte: u8, x0: usize, py: usize, scale: usize, color: Color)
    requires
        x0 + 8 * scale <= i32::MAX,
        py + scale <= i32::MAX,
    ensures
        final(display)@ == spec_glyph_row(
            old(display)@,
            byte,
            x0 as int,
            py as int,
            scale as nat,
            8,
            color,
        ),
{
    let mut bit: usize = 0;
    while bit < 8
        invariant
            0 <= bit <= 8,
            x0 + 8 * scale <= i32::MAX,
            py + scale <= i32::MAX,
            display@ == spec_glyph_row(
                old(display)@,
                byte,
                x0 as int,
                py as int,
                scale as nat,
                bit as nat,
                color,
            ),
        decreases 8 - bit,
    {
        proof {
            lemma_scaled(bit as int, 7, scale as int);
        }
        if (byte >> (bit as u8)) & 1 == 1 {
            fill_block(display, x0 + bit * scale, py, scale, color);
        }
        bit += 1;
    }
}

fn draw_glyph(display: &mut Display, rows: &[u8; 8], x0: usize, y0: usize, scale: usize, color: Color)
    requires
        x0 + 8 * scale <= i32::MAX,
        y0 + 8 * scale <= i32::MAX,
    ensures
        final(display)@ == spec_glyph(
            old(display)@,
            rows@,
            x0 as int,
            y0 as int,
            scale as nat,
            8,
            color,
        ),
{
    let mut row: usize = 0;
    while row < 8
        invariant
            0 <= row <= 8,
            x0 + 8 * scale <= i32::MAX,
            y0 + 8 * scale <= i32::MAX,
            display@ == spec_glyph(
                old(display)@,
                rows@,
                x0 as int,
                y0 as int,
                scale as nat,
                row as nat,
                color,
            ),
        decreases 8 - row,
    {
        proof {
            lemma_scaled(row as int, 7, scale as int);
        }
        draw_glyph_row(display, rows[row], x0, y0 + row * scale, scale, color);
        row += 1;
    }
}

fn render_cells(display: &mut Display, cells: &Vec<char>, scale: usize, color: Color)
    requires
        cells.len() == TTY_CELLS,
        scale <= MAX_SCALE,
    ensures
        final(display)@ == spec_render(old(display)@, cells@, scale as nat, TTY_CELLS as nat, color),
{
    let mut i: usize = 0;
    while i < TTY_CELLS
        invariant
            0 <= i <= TTY_CELLS,
            cells.len() == TTY_CELLS,
            scale <= MAX_SCALE,
            display@ == spec_render(old(display)@, cells@, scale as nat, i as nat, color),
        decreases TTY_CELLS - i,
    {
        let x = i % TTY_WIDTH;
        let y = i / TTY_WIDTH;
        match glyph(cells[i]) {
            Some(rows) => {
                proof {
                    lemma_scaled(x * 8, 632, scale as int);
                    lemma_scaled(y * 8, 192, scale as int);
                    lemma_scaled(scale as int, MAX_SCALE as int, 640);
                }
                draw_glyph(display, &rows, x * 8 * scale, y * 8 * scale, scale, color);
            },
            None => {},
        }
        i += 1;
    }
}

/// The line below line `y`.
pub open spec fn spec_next_line(y: nat) -> nat {
    if y < usize::MAX {
        y + 1
    } else {
        y
    }
}

/// The grid after it was scrolled up by one line: every line holds what
/// the line below it held, and the last line is blank.
pub open spec fn spec_scrolled(cells: Seq<char>) -> Seq<char> {
    Seq::new(
        TTY_CELLS as nat,
        |i: int|
            if i < TTY_CELLS - TTY_WIDTH {
                cells[i + TTY_WIDTH]
            } else {
                ' '
            },
    )
}

/// A terminal as a mathematical value.
pub struct TtyView {
    pub display: DisplayView,
    /// The cells of the grid, line by line.
    pub cells: Seq<char>,
    pub cursor_x: nat,
    pub cursor_y: nat,
}

impl TtyView {
    /// The grid has its full size and the cursor is not beyond the end of
    /// its line.
    pub open spec fn valid(self) -> bool {
        self.cells.len() == TTY_CELLS && self.cursor_x <= TTY_WIDTH
    }

    /// The terminal after the character `c` was written.
    pub open spec fn put(self, c: char) -> TtyView {
        if c == '\n' {
            TtyView {
                display: self.display,
                cells: self.cells,
                cursor_x: 0,
                cursor_y: spec_next_line(self.cursor_y),
            }
        } else {
            let x = if self.cursor_x >= TTY_WIDTH {
                0
            } else {
                self.cursor_x
            };
            let y = if self.cursor_x >= TTY_WIDTH {
                spec_next_line(self.cursor_y)
            } else {
                self.cursor_y
            };
            if y >= TTY_HEIGHT {
                let cells = spec_scrolled(self.cells);
                TtyView {
                    display: spec_render(
                        self.display.cleared(),
                        cells,
                        SCROLL_SCALE as nat,
                        TTY_CELLS as nat,
                        spec_white(),
                    ),
                    cells: cells.update((TTY_HEIGHT - 1) * TTY_WIDTH + x, c),
                    cursor_x: x + 1,
                    cursor_y: (TTY_HEIGHT - 1) as nat,
                }
            } else {
                TtyView {
                    display: self.display,
                    cells: self.cells.update(y * TTY_WIDTH + x, c),
                    cursor_x: x + 1,
                    cursor_y: y,
                }
            }
        }
    }

    /// Whether writing `c` scrolls the grid, and so redraws the display.
    pub open spec fn scrolls(self, c: char) -> bool {
        c != '\n' && (if self.cursor_x >= TTY_WIDTH {
            spec_next_line(self.cursor_y)
        } else {
            self.cursor_y
        }) >= TTY_HEIGHT
    }

    /// The terminal after the first `count` characters of `text` were
    /// written.
    pub open spec fn written(self, text: Seq<char>, count: nat) -> TtyView
        decreases count,
    {
        if count == 0 {
            self
        } else {
            self.written(text, (count - 1) as nat).put(text[count - 1])
        }
    }

    /// Whether writing the first `count` characters of `text` scrolls the
    /// grid at least once.
    pub open spec fn scrolled_by(self, text: Seq<char>, count: nat) -> bool
        decreases count,
    {
        if count == 0 {
            false
        } else {
            self.scrolled_by(text, (count - 1) as nat) || self.written(
                text,
                (count - 1) as nat,
            ).scrolls(text[count - 1])
        }
    }

    /// Writing a character keeps the terminal valid.
    pub proof fn lemma_put_valid(self, c: char)
        requires
            self.valid(),
        ensures
            self.put(c).valid(),
    {
    }
}

/// A terminal: a grid of characters, a cursor, and the display that the
/// grid is rendered on.
pub struct TTY {
    display: Display,
    buffer: Vec<char>,
    cursor_x: usize,
    cursor_y: usize,
}

impl View for TTY {
    type V = TtyView;

    closed spec fn view(&self) -> TtyView {
        TtyView {
            display: self.display@,
            cells: self.buffer@,
            cursor_x: self.cursor_x as nat,
            cursor_y: self.cursor_y as nat,
        }
    }
}

impl TTY {
    /// The invariant of the terminal.
    pub open spec fn wf(&self) -> bool {
        self@.valid()
    }

    /// A terminal on `display`: every cell blank, the cursor in the upper
    /// left corner.
    pub fn new(display: Display) -> (tty: Self)
        ensures
            tty.wf(),
            tty@.display == display@,
            tty@.cells == Seq::new(TTY_CELLS as nat, |i: int| ' '),
            tty@.cursor_x == 0,
            tty@.cursor_y == 0,
    {
        let mut buffer: Vec<char> = Vec::with_capacity(TTY_CELLS);
        let mut i: usize = 0;
        while i < TTY_CELLS
            invariant
                0 <= i <= TTY_CELLS,
                buffer@.len() == i,
                forall|k: int| 0 <= k < i ==> buffer@[k] == ' ',
            decreases TTY_CELLS - i,
        {
            buffer.push(' ');
            i += 1;
        }
        assert(buffer@ =~= Seq::new(TTY_CELLS as nat, |i: int| ' '));
        TTY { display, buffer, cursor_x: 0, cursor_y: 0 }
    }

    /// The display of the terminal.
    pub fn display(&self) -> (display: &Display)
        ensures
            display@ == self@.display,
    {
        &self.display
    }

    /// The character in column `x` of line `y`.
    pub fn cell(&self, x: usize, y: usize) -> (c: char)
        requires
            self.wf(),
            x < TTY_WIDTH,
            y < TTY_HEIGHT,
        ensures
            c == self@.cells[y * TTY_WIDTH + x],
    {
        self.buffer[y * TTY_WIDTH + x]
    }

    /// The column and the line of the cursor.
    pub fn cursor(&self) -> (position: (usize, usize))
        ensures
            position.0 == self@.cursor_x,
            position.1 == self@.cursor_y,
    {
        (self.cursor_x, self.cursor_y)
    }

    /// Sets every byte of the shadow buffer of the display to zero.
    pub fn clear_display(&mut self)
        requires
            old(self).wf(),
        ensures
            final(self).wf(),
            final(self)@.display == old(self)@.display.cleared(),
            final(self)@.cells == old(self)@.cells,
            final(self)@.cursor_x == old(self)@.cursor_x,
            final(self)@.cursor_y == old(self)@.cursor_y,
    {
        self.display.clear_buf();
    }

    fn next_line(&mut self)
        ensures
            final(self)@.display == old(self)@.display,
            final(self)@.cells == old(self)@.cells,
            final(self)@.cursor_x == 0,
            final(self)@.cursor_y == spec_next_line(old(self)@.cursor_y),
    {
        self.cursor_x = 0;
        if self.cursor_y < usize::MAX {
            self.cursor_y += 1;
        }
    }

    fn scroll_up(&mut self)
        requires
            old(self).wf(),
        ensures
            final(self)@.cells == spec_scrolled(old(self)@.cells),
            final(self)@.display == spec_render(
                old(self)@.display.cleared(),
                spec_scrolled(old(self)@.cells),
                SCROLL_SCALE as nat,
                TTY_CELLS as nat,
                spec_white(),
            ),
            final(self)@.cursor_x == old(self)@.cursor_x,
            final(self)@.cursor_y == old(self)@.cursor_y,
    {
        let mut i: usize = 0;
        while i < TTY_CELLS
            invariant
                0 <= i <= TTY_CELLS,
                self.buffer@.len() == TTY_CELLS,
                self.display@ == old(self).display@,
                self.cursor_x == old(self).cursor_x,
                self.cursor_y == old(self).cursor_y,
                forall|k: int| 0 <= k < i ==> self.buffer@[k] == spec_scrolled(old(self)@.cells)[k],
                forall|k: int| i <= k < TTY_CELLS ==> self.buffer@[k] == old(self)@.cells[k],
            decreases TTY_CELLS - i,
        {
            let c = if i < TTY_CELLS - TTY_WIDTH {
                self.buffer[i + TTY_WIDTH]
            } else {
                ' '
            };
            self.buffer.set(i, c);
            i += 1;
        }
        assert(self.buffer@ =~= spec_scrolled(old(self)@.cells));
        self.display.clear_buf();
        render_cells(
            &mut self.display,
            &self.buffer,
            SCROLL_SCALE,
            Color { red: 255, green: 255, blue: 255 },
        );
    }

    /// Writes one character at the cursor. Returns whether the grid was
    /// scrolled: the display was then redrawn and is to be shown.
    pub fn write_char(&mut self, c: char) -> (scrolled: bool)
        requires
            old(self).wf(),
        ensures
            final(self).wf(),
            final(self)@ == old(self)@.put(c),
            scrolled == old(self)@.scrolls(c),
    {
        if c == '\n' {
            self.next_line();
            return false;
        }
        if self.cursor_x >= TTY_WIDTH {
            self.next_line();
        }
        let mut scrolled = false;
        if self.cursor_y >= TTY_HEIGHT {
            self.scroll_up();
            self.cursor_y = TTY_HEIGHT - 1;
            scrolled = true;
        }
        self.buffer.set(self.cursor_y * TTY_WIDTH + self.cursor_x, c);
        self.cursor_x += 1;
        scrolled
    }

    /// Writes the characters of `s` one after the other. Returns whether
    /// the grid was scrolled on the way.
    pub fn write_str(&mut self, s: &str) -> (scrolled: bool)
        requires
            old(self).wf(),
        ensures
            final(self).wf(),
            final(self)@ == old(self)@.written(s@, s@.len()),
            scrolled == old(self)@.scrolled_by(s@, s@.len()),
    {
        let count = s.unicode_len();
        let mut scrolled = false;
        let mut i: usize = 0;
        while i < count
            invariant
                0 <= i <= count,
                count == s@.len(),
                self.wf(),
                self@ == old(self)@.written(s@, i as nat),
                scrolled == old(self)@.scrolled_by(s@, i as nat),
            decreases count - i,
        {
            let c = s.get_char(i);
            let now = self.write_char(c);
            scrolled = scrolled || now;
            i += 1;
        }
        scrolled
    }

    /// Draws the grid into the shadow buffer of the display: every bit of
    /// a glyph as a square of `scale` by `scale` pixels in `color`.
    pub fn render(&mut self, scale: usize, color: Color)
        requires
            old(self).wf(),
            scale <= MAX_SCALE,
        ensures
            final(self).wf(),
            final(self)@.display == spec_render(
                old(self)@.display,
                old(self)@.cells,
                scale as nat,
                TTY_CELLS as nat,
                color,
            ),
            final(self)@.cells == old(self)@.cells,
            final(self)@.cursor_x == old(self)@.cursor_x,
            final(self)@.cursor_y == old(self)@.cursor_y,
    {
        render_cells(&mut self.display, &self.buffer, scale, color);
    }
}

} // verus!
