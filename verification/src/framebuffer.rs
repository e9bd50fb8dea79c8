//! A frame buffer kept in memory: pixels are drawn into a shadow buffer,
//! which the caller copies to the screen.

use vstd::prelude::*;

verus! {

/// A pixel of the screen: `x` counts from the left, `y` from the top.
#[derive(Debug, Clone, Copy, PartialEq, Eq, Structural)]
pub struct Position {
    pub x: usize,
    pub y: usize,
}

/// A colour by its red, green and blue parts.
#[derive(Debug, Clone, Copy, PartialEq, Eq, Structural)]
pub struct Color {
    pub red: u8,
    pub green: u8,
    pub blue: u8,
}

/// How the bytes of a pixel are laid out.
#[derive(Debug, Clone, Copy, PartialEq, Eq, Structural)]
pub enum PixelFormat {
    /// Red, green, blue: one byte each.
    Rgb,
    /// Blue, green, red: one byte each.
    Bgr,
    /// One byte of grey.
    U8,
    /// A layout that is not known.
    Unknown,
}

/// The shape of a frame buffer.
#[derive(Debug, Clone, Copy, PartialEq, Eq, Structural)]
pub struct FrameBufferInfo {
    /// Size of the buffer in bytes.
    pub byte_len: usize,
    /// Pixels in a line.
    pub width: usize,
    /// Lines on the screen.
    pub height: usize,
    pub pixel_format: PixelFormat,
    /// Bytes from one pixel to the next.
    pub bytes_per_pixel: usize,
    /// Pixels from one line to the next.
    pub stride: usize,
}

/// The grey of a colour: a third of each part, added up.
pub open spec fn spec_gray(color: Color) -> u8 {
    (color.red / 3 + color.green / 3 + color.blue / 3) as u8
}

/// The bytes that stand for `color` in `format`, where the format is
/// known.
pub open spec fn spec_pixel_bytes(format: PixelFormat, color: Color) -> Option<Seq<u8>> {
    match format {
        PixelFormat::Rgb => Some(seq![color.red, color.green, color.blue]),
        PixelFormat::Bgr => Some(seq![color.blue, color.green, color.red]),
        PixelFormat::U8 => Some(seq![spec_gray(color)]),
        PixelFormat::Unknown => None,
    }
}

/// Where the bytes of the pixel at `position` begin.
pub open spec fn spec_byte_offset(info: FrameBufferInfo, position: Position) -> int {
    (position.y * info.stride + position.x) * info.bytes_per_pixel
}

/// The buffer after the pixel at `position` was set to `color`, or `None`
/// where the pixel cannot be set: the format is not known, or the bytes
/// of the pixel do not lie within the buffer.
pub open spec fn spec_set_pixel(
    buf: Seq<u8>,
    info: FrameBufferInfo,
    position: Position,
    color: Color,
) -> Option<Seq<u8>> {
    match spec_pixel_bytes(info.pixel_format, color) {
        Some(bytes) => {
            let offset = spec_byte_offset(info, position);
            if offset + bytes.len() <= buf.len() {
                Some(
                    buf.subrange(0, offset) + bytes + buf.subrange(
                        offset + bytes.len(),
                        buf.len() as int,
                    ),
                )
            } else {
                None
            }
        },
        None => None,
    }
}

fn byte_offset(info: &FrameBufferInfo, position: Position) -> (offset: Option<usize>)
    ensures
        match offset {
            Some(value) => value == spec_byte_offset(*info, position),
            None => spec_byte_offset(*info, position) > usize::MAX,
        },
{
    let line_offset = match position.y.checked_mul(info.stride) {
        Some(value) => value,
        None => {
            proof {
                lemma_product_grows(
                    position.y * info.stride + position.x,
                    info.bytes_per_pixel as int,
                    usize::MAX as int,
                );
            }
            return if info.bytes_per_pixel == 0 {
                Some(0)
            } else {
                None
            };
        },
    };
    let pixel_offset = match line_offset.checked_add(position.x) {
        Some(value) => value,
        None => {
            proof {
                lemma_product_grows(
                    position.y * info.stride + position.x,
                    info.bytes_per_pixel as int,
                    usize::MAX as int,
                );
            }
            return if info.bytes_per_pixel == 0 {
                Some(0)
            } else {
                None
            };
        },
    };
    pixel_offset.checked_mul(info.bytes_per_pixel)
}

proof fn lemma_product_grows(a: int, b: int, bound: int)
    by (nonlinear_arith)
    requires
        a > bound,
        bound >= 0,
        b >= 0,
    ensures
        b == 0 ==> a * b == 0,
        b > 0 ==> a * b > bound,
{
}

/// Sets the pixel at `position` of the buffer `buf` to `color`. Returns
/// whether the pixel was set; where it cannot be set the buffer stays as
/// it is.
pub fn set_pixel_in(buf: &mut Vec<u8>, info: &FrameBufferInfo, position: Position, color: Color) -> (written:
    bool)
    ensures
        match spec_set_pixel(old(buf)@, *info, position, color) {
            Some(after) => written && final(buf)@ == after,
            None => !written && final(buf)@ == old(buf)@,
        },
{
    let len = buf.len();
    let offset = match byte_offset(info, position) {
        Some(offset) => offset,
        None => {
            return false;
        },
    };
    match info.pixel_format {
        PixelFormat::Rgb => {
            if offset > len || len - offset < 3 {
                return false;
            }
            buf.set(offset, color.red);
            buf.set(offset + 1, color.green);
            buf.set(offset + 2, color.blue);
        },
        PixelFormat::Bgr => {
            if offset > len || len - offset < 3 {
                return false;
            }
            buf.set(offset, color.blue);
            buf.set(offset + 1, color.green);
            buf.set(offset + 2, color.red);
        },
        PixelFormat::U8 => {
            if offset >= len {
                return false;
            }
            let gray = color.red / 3 + color.green / 3 + color.blue / 3;
            buf.set(offset, gray);
        },
        PixelFormat::Unknown => {
            return false;
        },
    }
    assert(buf@ =~= spec_set_pixel(old(buf)@, *info, position, color).unwrap());
    true
}

/// A display as a mathematical value.
pub struct DisplayView {
    pub shadow: Seq<u8>,
    pub info: FrameBufferInfo,
}

impl DisplayView {
    /// The display after the pixel at (`x`, `y`) was drawn in `color`. A
    /// pixel off the screen, or one that cannot be set, changes nothing.
    pub open spec fn draw(self, x: int, y: int, color: Color) -> DisplayView {
        if 0 <= x < self.info.width && 0 <= y < self.info.height {
            match spec_set_pixel(
                self.shadow,
                self.info,
                Position { x: x as usize, y: y as usize },
                color,
            ) {
                Some(after) => DisplayView { shadow: after, info: self.info },
                None => self,
            }
        } else {
            self
        }
    }

    /// The display with every byte of the shadow buffer zero.
    pub open spec fn cleared(self) -> DisplayView {
        DisplayView { shadow: Seq::new(self.shadow.len(), |i: int| 0u8), info: self.info }
    }
}

/// A screen with its shadow buffer.
pub struct Display {
    shadow: Vec<u8>,
    info: FrameBufferInfo,
}

impl View for Display {
    type V = DisplayView;

    closed spec fn view(&self) -> DisplayView {
        DisplayView { shadow: self.shadow@, info: self.info }
    }
}

impl Display {
    /// A display for a frame buffer of `buffer_len` bytes of the shape
    /// `info`, with a shadow buffer of the same size, all zero.
    pub fn new_from_buffer(buffer_len: usize, info: &FrameBufferInfo) -> (display: Self)
        ensures
            display@.info == *info,
            display@.shadow == Seq::new(buffer_len as nat, |i: int| 0u8),
    {
        let mut shadow: Vec<u8> = Vec::with_capacity(buffer_len);
        let mut i: usize = 0;
        while i < buffer_len
            invariant
                0 <= i <= buffer_len,
                shadow@.len() == i,
                forall|k: int| 0 <= k < i ==> shadow@[k] == 0,
            decreases buffer_len - i,
        {
            shadow.push(0);
            i += 1;
        }
        assert(shadow@ =~= Seq::new(buffer_len as nat, |i: int| 0u8));
        Display { shadow, info: *info }
    }

    /// The shadow buffer: what the caller copies to the screen.
    pub fn shadow(&self) -> (bytes: &Vec<u8>)
        ensures
            bytes@ == self@.shadow,
    {
        &self.shadow
    }

    /// The shape of the frame buffer.
    pub fn info(&self) -> (info: FrameBufferInfo)
        ensures
            info == self@.info,
    {
        self.info
    }

    /// Sets every byte of the shadow buffer to zero.
    pub fn clear_buf(&mut self)
        ensures
            final(self)@ == old(self)@.cleared(),
    {
        let len = self.shadow.len();
        let mut i: usize = 0;
        while i < len
            invariant
                0 <= i <= len,
                self.shadow@.len() == len,
                self.info == old(self).info,
                forall|k: int| 0 <= k < i ==> self.shadow@[k] == 0,
            decreases len - i,
        {
            self.shadow.set(i, 0);
            i += 1;
        }
        assert(self.shadow@ =~= old(self)@.cleared().shadow);
    }

    /// Draws the pixel at (`x`, `y`) in `color` into the shadow buffer. A
    /// pixel off the screen is left out.
    pub fn draw_pixel(&mut self, x: i32, y: i32, color: Color)
        ensures
            final(self)@ == old(self)@.draw(x as int, y as int, color),
    {
        if x >= 0 && y >= 0 && (x as usize) < self.info.width && (y as usize) < self.info.height {
            let info = self.info;
            let _ = set_pixel_in(&mut self.shadow, &info, Position { x: x as usize, y: y as usize }, color);
        }
    }
}

} // verus!
