//! Where the beam is: the cycle at which it reaches a block, and the row it
//! is on at a given cycle.
//!
//! All times are cycles since the start of the frame. The model is over
//! unbounded integers; the executable functions compute in `u128`, which
//! holds every value that `usize` constants and coordinates of the canvas
//! can produce.

use vstd::prelude::*;
use crate::machine::ZXSpecs;

verus! {

/// Cycle from which the beam times of the canvas are counted.
pub open spec fn origin(specs: ZXSpecs) -> int {
    specs.clocks_first_pixel + 2
}

/// Cycles that the beam needs from the left edge of the canvas to block
/// column `col`: the columns are fetched in pairs, one pair every 8 cycles.
pub open spec fn column_delay(col: int) -> int {
    col / 2 * 8
}

/// Cycle at which the beam scans the block at pixel row `line` and block
/// column `col`.
pub open spec fn block_time(specs: ZXSpecs, line: int, col: int) -> int {
    origin(specs) + line * specs.clocks_line + column_delay(col)
}

/// Pixel row that the beam is on at cycle `clock`, as seen from block column
/// `col`: 0 before the beam has reached that column in the first row, then
/// one more with every scanline.
pub open spec fn beam_line(specs: ZXSpecs, col: int, clock: int) -> int {
    if clock < origin(specs) + column_delay(col) {
        0
    } else {
        (clock - (origin(specs) + column_delay(col))) / (specs.clocks_line as int) + 1
    }
}

/// Cycle before which a change of the attribute at `row` and `col` is still
/// seen in the current frame, for a beam on pixel row `beam`: the start of
/// the cell while the beam is above it, the beam's own row inside the cell,
/// the cell's last row once the beam is below it.
pub open spec fn attr_block_time(specs: ZXSpecs, row: int, col: int, beam: int) -> int {
    if beam <= row * 8 {
        block_time(specs, row * 8, col)
    } else if beam < (row + 1) * 8 {
        block_time(specs, row * 8 + beam % 8, col)
    } else {
        block_time(specs, row * 8 + 7, col)
    }
}

/// First pixel row that is drawn again when the attribute at `row` changes
/// while the beam is on pixel row `beam`.
pub open spec fn attr_first_line(row: int, beam: int) -> int {
    beam % 8 + row * 8
}

/// A write to the bitmap byte at `line` and `col` at cycle `clock` comes
/// before the beam.
pub open spec fn bitmap_write_in_time(specs: ZXSpecs, line: int, col: int, clock: int) -> bool {
    clock < block_time(specs, line, col)
}

/// A write to the attribute at `row` and `col` at cycle `clock` comes before
/// the beam has left the cell.
pub open spec fn attr_write_in_time(specs: ZXSpecs, row: int, col: int, clock: int) -> bool {
    clock < attr_block_time(specs, row, col, beam_line(specs, col, clock))
}

/// Computes the cycle at which the beam scans a block.
pub fn get_block_time(specs: &ZXSpecs, line: usize, col: usize) -> (time: u128)
    requires
        line < 192,
        col < 32,
    ensures
        time == block_time(*specs, line as int, col as int),
{
    let per_line: u128 = specs.clocks_line as u128;
    let rows: u128 = line as u128;
    assert(rows * per_line <= 191 * 0x1_0000_0000_0000_0000) by (nonlinear_arith)
        requires
            rows <= 191,
            per_line < 0x1_0000_0000_0000_0000,
    ;
    let delay: u128 = ((col / 2) * 8) as u128;
    specs.clocks_first_pixel as u128 + 2 + rows * per_line + delay
}

/// Computes the pixel row that the beam is on.
pub fn get_beam_line(specs: &ZXSpecs, col: usize, clock: usize) -> (beam: u128)
    requires
        specs.wf(),
        col < 32,
    ensures
        beam == beam_line(*specs, col as int, clock as int),
        beam <= clock + 1,
{
    let start: u128 = specs.clocks_first_pixel as u128 + 2 + ((col / 2) * 8) as u128;
    let now: u128 = clock as u128;
    if now < start {
        0
    } else {
        (now - start) / (specs.clocks_line as u128) + 1
    }
}

/// Computes the cycle before which a change of an attribute is still seen in
/// the current frame.
pub fn get_attr_block_time(specs: &ZXSpecs, row: usize, col: usize, beam: u128) -> (time: u128)
    requires
        row < 24,
        col < 32,
    ensures
        time == attr_block_time(*specs, row as int, col as int, beam as int),
{
    let first: usize = row * 8;
    if beam <= first as u128 {
        get_block_time(specs, first, col)
    } else if beam < (first + 8) as u128 {
        get_block_time(specs, first + (beam % 8) as usize, col)
    } else {
        get_block_time(specs, first + 7, col)
    }
}

/// A change of an attribute is seen in the current frame exactly when the
/// beam has not yet left the cell: while the beam is above the cell or
/// inside it the write always comes in time, and once the beam is below the
/// cell it never does.
pub proof fn lemma_attr_write_in_time(specs: ZXSpecs, row: int, col: int, clock: int)
    requires
        specs.wf(),
        0 <= row < 24,
        0 <= col < 32,
        0 <= clock,
    ensures
        attr_write_in_time(specs, row, col, clock) <==> beam_line(specs, col, clock) < (row + 1)
            * 8,
        0 <= beam_line(specs, col, clock),
{
    let start = origin(specs) + column_delay(col);
    let per_line = specs.clocks_line as int;
    let beam = beam_line(specs, col, clock);
    let top = row * 8;
    if clock < start {
        assert(top * per_line >= 0) by (nonlinear_arith)
            requires
                top >= 0,
                per_line > 0,
        ;
    } else {
        let d = clock - start;
        let q = d / per_line;
        assert(q * per_line <= d < (q + 1) * per_line && q >= 0) by (nonlinear_arith)
            requires
                q == d / per_line,
                d >= 0,
                per_line > 0,
        ;
        assert(beam == q + 1);
        if beam <= top {
            assert(beam * per_line <= top * per_line) by (nonlinear_arith)
                requires
                    beam <= top,
                    per_line > 0,
            ;
        } else if beam < top + 8 {
            assert(beam % 8 == beam - top);
        } else {
            assert((top + 7) * per_line <= q * per_line) by (nonlinear_arith)
                requires
                    top + 7 <= q,
                    per_line > 0,
            ;
        }
    }
}

} // verus!
