//! Dimensions of the canvas, of the frame around it and of the grids behind it.

use vstd::prelude::*;

verus! {

/// Width of the drawing area in pixels.
pub const CANVAS_WIDTH: usize = 256;

/// Height of the drawing area in pixels.
pub const CANVAS_HEIGHT: usize = 192;

/// Horizontal position of the canvas inside the frame.
pub const CANVAS_X: usize = 32;

/// Vertical position of the canvas inside the frame.
pub const CANVAS_Y: usize = 24;

/// Width of the whole frame, border included.
pub const SCREEN_WIDTH: usize = CANVAS_WIDTH + 32 * 2;

/// Height of the whole frame, border included.
pub const SCREEN_HEIGHT: usize = CANVAS_HEIGHT + 24 * 2;

/// Number of pixels in the frame.
pub const PIXEL_COUNT: usize = 76800;

/// Number of attribute cells (and of 8x1 blocks) in a row.
pub const ATTR_COLS: usize = CANVAS_WIDTH / 8;

/// Number of attribute rows.
pub const ATTR_ROWS: usize = CANVAS_HEIGHT / 8;

/// Width of the border in 8-pixel columns.
pub const BORDER_COLS: usize = 4;

/// Height of the border in 8-pixel rows.
pub const BORDER_ROWS: usize = 3;

/// Bytes of one RGBA pixel.
pub const BYTES_PER_PIXEL: usize = 4;

/// Number of bytes in the pixel buffer.
pub const BUFFER_SIZE: usize = 307200;

/// Number of bytes in the bitmap grid.
pub const BITMAP_SIZE: usize = 6144;

/// Number of cells in the attribute grid.
pub const ATTR_COUNT: usize = 768;

/// The dimensions in numbers.
pub proof fn lemma_dimensions()
    ensures
        CANVAS_WIDTH == 256,
        CANVAS_HEIGHT == 192,
        CANVAS_X == 32,
        CANVAS_Y == 24,
        SCREEN_WIDTH == 320,
        SCREEN_HEIGHT == 240,
        ATTR_COLS == 32,
        ATTR_ROWS == 24,
        BYTES_PER_PIXEL == 4,
{
}

/// The sizes of the grids and of the buffer are the products of their dimensions.
pub proof fn lemma_sizes()
    ensures
        PIXEL_COUNT == SCREEN_HEIGHT * SCREEN_WIDTH,
        BUFFER_SIZE == PIXEL_COUNT * BYTES_PER_PIXEL,
        BITMAP_SIZE == CANVAS_HEIGHT * ATTR_COLS,
        ATTR_COUNT == ATTR_ROWS * ATTR_COLS,
        SCREEN_WIDTH == CANVAS_WIDTH + 2 * CANVAS_X,
        SCREEN_HEIGHT == CANVAS_HEIGHT + 2 * CANVAS_Y,
        CANVAS_X == BORDER_COLS * 8,
        CANVAS_Y == BORDER_ROWS * 8,
{
    assert(SCREEN_HEIGHT == 240 && SCREEN_WIDTH == 320);
    assert(CANVAS_HEIGHT == 192 && ATTR_COLS == 32 && ATTR_ROWS == 24);
}

} // verus!
