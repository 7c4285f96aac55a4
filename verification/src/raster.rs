//! The frame as a sequence of bytes: where a pixel lies in the buffer, what a
//! pixel of the canvas looks like, and what painting a part of the canvas
//! does to a buffer.
//!
//! The buffer holds the frame row by row, four bytes (red, green, blue,
//! alpha) per pixel. The canvas is the window of the frame that starts
//! `CANVAS_X` pixels from the left and `CANVAS_Y` pixels from the top. Canvas
//! coordinates are counted from that corner.

use vstd::prelude::*;
use crate::color::{ZXAttribute, ZXPalette};
use crate::geometry::{
    ATTR_COLS,
    BYTES_PER_PIXEL,
    CANVAS_HEIGHT,
    CANVAS_WIDTH,
    CANVAS_X,
    CANVAS_Y,
    SCREEN_WIDTH,
};

verus! {

/// Side of the square in the top left corner of the frame that shows the
/// border colour.
pub const BORDER_PATCH: usize = 16;

/// Index in the buffer of channel `k` of the frame pixel at (`x`, `y`).
pub open spec fn byte_index(x: int, y: int, k: int) -> int {
    (y * SCREEN_WIDTH + x) * BYTES_PER_PIXEL + k
}

/// Column in the frame of the pixel that byte `i` of the buffer belongs to.
pub open spec fn pixel_x(i: int) -> int {
    i / (BYTES_PER_PIXEL as int) % (SCREEN_WIDTH as int)
}

/// Row in the frame of the pixel that byte `i` of the buffer belongs to.
pub open spec fn pixel_y(i: int) -> int {
    i / (BYTES_PER_PIXEL as int) / (SCREEN_WIDTH as int)
}

/// Channel that byte `i` of the buffer holds.
pub open spec fn channel(i: int) -> int {
    i % (BYTES_PER_PIXEL as int)
}

/// Index in the bitmap grid of the byte at pixel row `line` and block column
/// `col`.
pub open spec fn bitmap_index(line: int, col: int) -> int {
    line * ATTR_COLS + col
}

/// Index in the attribute grid of the cell at `row` and `col`.
pub open spec fn attr_index(row: int, col: int) -> int {
    row * ATTR_COLS + col
}

/// State of pixel `bit` of a bitmap byte, counted from the left: the most
/// significant bit is the leftmost pixel.
pub open spec fn pixel_on(data: u8, bit: int) -> bool {
    (data >> ((7 - bit) as u8)) & 1 == 1
}

/// Byte `i` of the buffer belongs to a pixel of the canvas.
pub open spec fn in_canvas(i: int) -> bool {
    &&& CANVAS_X <= pixel_x(i) < CANVAS_X + CANVAS_WIDTH
    &&& CANVAS_Y <= pixel_y(i) < CANVAS_Y + CANVAS_HEIGHT
}

/// Byte `i` of the buffer belongs to a pixel of the canvas in one of the
/// pixel rows `first..end` and one of the block columns `left..right`.
pub open spec fn in_window(i: int, first: int, end: int, left: int, right: int) -> bool {
    &&& CANVAS_Y + first <= pixel_y(i) < CANVAS_Y + end
    &&& CANVAS_X + left * 8 <= pixel_x(i) < CANVAS_X + right * 8
}

/// Byte `i` of the buffer belongs to a pixel of the border patch.
pub open spec fn in_border_patch(i: int) -> bool {
    &&& 0 <= pixel_x(i) < BORDER_PATCH
    &&& 0 <= pixel_y(i) < BORDER_PATCH
}

/// RGBA value of the canvas pixel at (`cx`, `cy`): the bit of the pixel in
/// its bitmap byte, shown in the colours of the cell that the pixel lies in.
pub open spec fn canvas_pixel(
    attributes: Seq<ZXAttribute>,
    bitmap: Seq<u8>,
    flash: bool,
    cx: int,
    cy: int,
) -> Seq<u8> {
    ZXPalette.rgba(
        attributes[attr_index(cy / 8, cx / 8)],
        pixel_on(bitmap[bitmap_index(cy, cx / 8)], cx % 8),
        flash,
    )
}

/// Value of byte `i` of the buffer when its pixel, a pixel of the canvas,
/// shows what the grids hold.
pub open spec fn canvas_byte(
    attributes: Seq<ZXAttribute>,
    bitmap: Seq<u8>,
    flash: bool,
    i: int,
) -> u8 {
    canvas_pixel(attributes, bitmap, flash, pixel_x(i) - CANVAS_X, pixel_y(i) - CANVAS_Y)[channel(
        i,
    )]
}

/// The buffer after the blocks in pixel rows `first..end` and block columns
/// `left..right` have been drawn from the grids: the bytes of those blocks
/// show the grids, every other byte is as before.
pub open spec fn paint_window(
    buffer: Seq<u8>,
    attributes: Seq<ZXAttribute>,
    bitmap: Seq<u8>,
    flash: bool,
    first: int,
    end: int,
    left: int,
    right: int,
) -> Seq<u8> {
    Seq::new(
        buffer.len(),
        |i: int|
            if in_window(i, first, end, left, right) {
                canvas_byte(attributes, bitmap, flash, i)
            } else {
                buffer[i]
            },
    )
}

/// The buffer after the border patch has been filled with `pixel`: the bytes
/// of the patch hold the channels of `pixel`, every other byte is as before.
pub open spec fn paint_border_patch(buffer: Seq<u8>, pixel: Seq<u8>) -> Seq<u8> {
    Seq::new(
        buffer.len(),
        |i: int|
            if in_border_patch(i) {
                pixel[channel(i)]
            } else {
                buffer[i]
            },
    )
}

/// A byte index is made of the coordinates of its pixel and of its channel,
/// and those can be read back from it.
pub proof fn lemma_byte_index(x: int, y: int, k: int)
    requires
        0 <= x < SCREEN_WIDTH,
        0 <= y,
        0 <= k < BYTES_PER_PIXEL,
    ensures
        pixel_x(byte_index(x, y, k)) == x,
        pixel_y(byte_index(x, y, k)) == y,
        channel(byte_index(x, y, k)) == k,
        0 <= byte_index(x, y, k),
{
    assert(SCREEN_WIDTH == 320 && BYTES_PER_PIXEL == 4);
    let p = y * 320 + x;
    assert(byte_index(x, y, k) == p * 4 + k);
    assert((p * 4 + k) / 4 == p);
    assert(p / 320 == y && p % 320 == x);
}

/// Every byte of the buffer is one channel of one pixel of the frame.
pub proof fn lemma_byte_position(i: int)
    requires
        0 <= i,
    ensures
        0 <= pixel_x(i) < SCREEN_WIDTH,
        0 <= pixel_y(i),
        0 <= channel(i) < BYTES_PER_PIXEL,
        byte_index(pixel_x(i), pixel_y(i), channel(i)) == i,
{
    assert(SCREEN_WIDTH == 320 && BYTES_PER_PIXEL == 4);
    let p = i / 4;
    assert(i == p * 4 + i % 4);
    assert(p == (p / 320) * 320 + p % 320);
}

/// Reads the state of a pixel from its bitmap byte.
pub fn get_pixel_state(data: u8, bit: usize) -> (state: bool)
    requires
        bit < 8,
    ensures
        state == pixel_on(data, bit as int),
{
    let shift: u8 = bit as u8;
    let moved: u8 = data << shift;
    assert(((moved & 0x80) != 0) == ((data >> ((7 - shift) as u8)) & 1 == 1)) by (bit_vector)
        requires
            shift < 8,
            moved == data << shift,
    ;
    (moved & 0x80) != 0
}

} // verus!
