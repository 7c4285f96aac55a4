//! The state of the screen as mathematical values, and what each operation
//! of the renderer does to it.

use vstd::prelude::*;
use vstd::arithmetic::div_mod::lemma_mod_multiples_vanish;
use crate::address::{
    attr_col,
    attr_row,
    bitmap_col,
    bitmap_line,
    is_attr_addr,
    is_bitmap_addr,
    lemma_attr_addr_round_trip,
    lemma_bitmap_addr_round_trip,
};
use crate::color::{ZXAttribute, ZXPalette};
use crate::geometry::{
    ATTR_COLS,
    ATTR_COUNT,
    BITMAP_SIZE,
    BUFFER_SIZE,
    CANVAS_HEIGHT,
    CANVAS_X,
    CANVAS_Y,
    lemma_dimensions,
};
use crate::machine::ZXSpecs;
use crate::raster::{
    attr_index,
    bitmap_index,
    byte_index,
    canvas_byte,
    in_canvas,
    lemma_byte_index,
    paint_border_patch,
    paint_window,
    pixel_on,
};
use crate::timing::{
    attr_first_line,
    attr_write_in_time,
    beam_line,
    bitmap_write_in_time,
    lemma_attr_write_in_time,
};

verus! {

/// Number of frames after which the flash phase changes.
pub const FLASH_PERIOD: u64 = 32;

/// The state of a screen.
#[verifier::ext_equal]
pub struct ScreenView {
    /// The attribute grid, row by row.
    pub attributes: Seq<ZXAttribute>,
    /// The bitmap grid, pixel row by pixel row.
    pub bitmap: Seq<u8>,
    /// The pixel buffer.
    pub buffer: Seq<u8>,
    /// Timing constants of the machine that the screen belongs to.
    pub specs: ZXSpecs,
    /// The flash phase: whether flashing cells currently show ink and paper
    /// exchanged.
    pub flash: bool,
    /// Number of frames started so far, counted modulo 2^64.
    pub frame_counter: u64,
}

impl ScreenView {
    /// The grids and the buffer have their sizes, and the timing constants
    /// are those of a machine.
    pub open spec fn wf(self) -> bool {
        &&& self.attributes.len() == ATTR_COUNT
        &&& self.bitmap.len() == BITMAP_SIZE
        &&& self.buffer.len() == BUFFER_SIZE
        &&& self.specs.wf()
    }

    /// The state of a new screen: black ink on black paper everywhere, no
    /// pixel set, every byte of the buffer 0, first flash phase.
    pub open spec fn initial(specs: ZXSpecs) -> ScreenView {
        ScreenView {
            attributes: Seq::new(ATTR_COUNT as nat, |i: int| ZXAttribute::of_byte(0)),
            bitmap: Seq::new(BITMAP_SIZE as nat, |i: int| 0u8),
            buffer: Seq::new(BUFFER_SIZE as nat, |i: int| 0u8),
            specs,
            flash: false,
            frame_counter: 0,
        }
    }

    /// The state after the blocks in pixel rows `first..end` and block
    /// columns `left..right` have been drawn from the grids.
    pub open spec fn redrawn(self, first: int, end: int, left: int, right: int) -> ScreenView {
        ScreenView {
            buffer: paint_window(
                self.buffer,
                self.attributes,
                self.bitmap,
                self.flash,
                first,
                end,
                left,
                right,
            ),
            ..self
        }
    }

    /// The state after the border colour has been set: the border patch is
    /// filled with the ink of `color`, shown as a set pixel in the first
    /// flash phase.
    pub open spec fn with_border(self, color: u8) -> ScreenView {
        ScreenView {
            buffer: paint_border_patch(
                self.buffer,
                ZXPalette.rgba(ZXAttribute::of_byte(color), true, false),
            ),
            ..self
        }
    }

    /// The frame counter after one more frame.
    pub open spec fn next_counter(self) -> u64 {
        if self.frame_counter == u64::MAX {
            0
        } else {
            (self.frame_counter + 1) as u64
        }
    }

    /// The start of a frame changes the flash phase.
    pub open spec fn next_frame_toggles(self) -> bool {
        self.next_counter() % FLASH_PERIOD == 0
    }

    /// The state after a frame has started: the counter has advanced, the
    /// flash phase has changed if the counter says so, and the whole canvas
    /// has been drawn from the grids in the new phase.
    pub open spec fn with_new_frame(self) -> ScreenView {
        ScreenView {
            frame_counter: self.next_counter(),
            flash: self.flash != self.next_frame_toggles(),
            ..self
        }.redrawn(0, CANVAS_HEIGHT as int, 0, ATTR_COLS as int)
    }

    /// The state after `data` has been written to the bitmap address `addr`
    /// at cycle `clock`: the byte is stored, and its block is drawn again if
    /// the beam has not reached it yet.
    pub open spec fn with_bitmap_byte(self, addr: u16, clock: usize, data: u8) -> ScreenView {
        let line = bitmap_line(addr as int);
        let col = bitmap_col(addr as int);
        let stored = ScreenView {
            bitmap: self.bitmap.update(bitmap_index(line, col), data),
            ..self
        };
        if bitmap_write_in_time(self.specs, line, col, clock as int) {
            stored.redrawn(line, line + 1, col, col + 1)
        } else {
            stored
        }
    }

    /// The state after `value` has been written to the attribute address
    /// `addr` at cycle `clock`: the attribute is stored, and if the beam has
    /// not left the cell yet, the rows of the cell from the one that the beam
    /// is on (counted within the cell) are drawn again.
    pub open spec fn with_attr_byte(self, addr: u16, clock: usize, value: u8) -> ScreenView {
        let row = attr_row(addr as int);
        let col = attr_col(addr as int);
        let stored = ScreenView {
            attributes: self.attributes.update(attr_index(row, col), ZXAttribute::of_byte(value)),
            ..self
        };
        if attr_write_in_time(self.specs, row, col, clock as int) {
            stored.redrawn(
                attr_first_line(row, beam_line(self.specs, col, clock as int)),
                (row + 1) * 8,
                col,
                col + 1,
            )
        } else {
            stored
        }
    }
}

/// One call of an operation of the renderer.
pub enum ScreenOp {
    /// The border colour is set.
    SetBorder { color: u8 },
    /// A frame starts.
    NewFrame,
    /// A byte is written to the bitmap area.
    WriteBitmap { addr: u16, clock: usize, data: u8 },
    /// A byte is written to the attribute area.
    WriteAttr { addr: u16, clock: usize, value: u8 },
}

impl ScreenOp {
    /// The call is one that the renderer accepts: a write goes to an address
    /// of its area.
    pub open spec fn valid(self) -> bool {
        match self {
            ScreenOp::WriteBitmap { addr, .. } => is_bitmap_addr(addr as int),
            ScreenOp::WriteAttr { addr, .. } => is_attr_addr(addr as int),
            _ => true,
        }
    }
}

impl ScreenView {
    /// The state after one call.
    pub open spec fn after(self, op: ScreenOp) -> ScreenView {
        match op {
            ScreenOp::SetBorder { color } => self.with_border(color),
            ScreenOp::NewFrame => self.with_new_frame(),
            ScreenOp::WriteBitmap { addr, clock, data } => self.with_bitmap_byte(addr, clock, data),
            ScreenOp::WriteAttr { addr, clock, value } => self.with_attr_byte(addr, clock, value),
        }
    }

    /// The state after a sequence of calls, made in order.
    pub open spec fn after_all(self, ops: Seq<ScreenOp>) -> ScreenView
        decreases ops.len(),
    {
        if ops.len() == 0 {
            self
        } else {
            self.after_all(ops.drop_last()).after(ops.last())
        }
    }
}

/// Number of frames that start in a sequence of calls.
pub open spec fn frames_in(ops: Seq<ScreenOp>) -> nat
    decreases ops.len(),
{
    if ops.len() == 0 {
        0
    } else {
        frames_in(ops.drop_last()) + if ops.last() is NewFrame {
            1nat
        } else {
            0nat
        }
    }
}

/// Number of multiples of the flash period among the `frames` numbers that
/// follow `counter`: the number of times the flash phase changes in that
/// many frames.
pub open spec fn flash_changes(counter: int, frames: nat) -> nat
    decreases frames,
{
    if frames == 0 {
        0
    } else {
        flash_changes(counter, (frames - 1) as nat) + if (counter + frames) % (FLASH_PERIOD as int)
            == 0 {
            1nat
        } else {
            0nat
        }
    }
}

/// Every call keeps the state well formed: the grids and the buffer keep
/// their sizes, and the timing constants stay as they are.
pub proof fn lemma_after_keeps_wf(v: ScreenView, op: ScreenOp)
    requires
        v.wf(),
        op.valid(),
    ensures
        v.after(op).wf(),
        v.after(op).buffer.len() == BUFFER_SIZE,
        v.after(op).specs == v.specs,
{
    lemma_dimensions();
    match op {
        ScreenOp::WriteBitmap { addr, .. } => {
            lemma_bitmap_addr_round_trip(addr as int);
        },
        ScreenOp::WriteAttr { addr, .. } => {
            lemma_attr_addr_round_trip(addr as int);
        },
        _ => {},
    }
}

/// In every state that calls lead to from a well-formed one, the buffer has
/// four bytes for every pixel of the frame.
pub proof fn lemma_after_all_keeps_wf(v: ScreenView, ops: Seq<ScreenOp>)
    requires
        v.wf(),
        forall|j: int| 0 <= j < ops.len() ==> (#[trigger] ops[j]).valid(),
    ensures
        v.after_all(ops).wf(),
        v.after_all(ops).buffer.len() == BUFFER_SIZE,
        v.after_all(ops).specs == v.specs,
    decreases ops.len(),
{
    if ops.len() > 0 {
        lemma_after_all_keeps_wf(v, ops.drop_last());
        lemma_after_keeps_wf(v.after_all(ops.drop_last()), ops.last());
    }
}

/// The border and the canvas are drawn by different calls: setting the
/// border colour changes no byte of the canvas, and no other call changes a
/// byte outside the canvas.
pub proof fn lemma_border_and_canvas_apart(v: ScreenView, op: ScreenOp, i: int)
    requires
        v.wf(),
        op.valid(),
        0 <= i < BUFFER_SIZE,
    ensures
        op is SetBorder && in_canvas(i) ==> v.after(op).buffer[i] == v.buffer[i],
        !(op is SetBorder) && !in_canvas(i) ==> v.after(op).buffer[i] == v.buffer[i],
{
    lemma_dimensions();
    match op {
        ScreenOp::WriteBitmap { addr, .. } => {
            lemma_bitmap_addr_round_trip(addr as int);
        },
        ScreenOp::WriteAttr { addr, .. } => {
            lemma_attr_addr_round_trip(addr as int);
        },
        _ => {},
    }
}

/// Only the start of a frame moves the frame counter and the flash phase;
/// writes and border changes leave both alone.
pub proof fn lemma_only_frames_move_flash(v: ScreenView, op: ScreenOp)
    ensures
        !(op is NewFrame) ==> v.after(op).flash == v.flash && v.after(op).frame_counter
            == v.frame_counter,
        op is NewFrame ==> v.after(op).frame_counter == v.next_counter() && v.after(op).flash == (
        v.flash != v.next_frame_toggles()),
{
}

/// In any 32 frames in a row the flash phase changes exactly once; in
/// general the number of changes in `frames` frames is the number of
/// periods that the counter completes.
pub proof fn lemma_flash_changes(counter: int, frames: nat)
    requires
        0 <= counter,
    ensures
        flash_changes(counter, frames) == (counter % (FLASH_PERIOD as int) + frames) / (
        FLASH_PERIOD as int),
        frames == FLASH_PERIOD ==> flash_changes(counter, frames) == 1,
    decreases frames,
{
    if frames > 0 {
        lemma_flash_changes(counter, (frames - 1) as nat);
    }
}

/// The wrapped counter steps as the unbounded count of frames does, and it
/// is a multiple of the flash period exactly when that count is one.
proof fn lemma_counter_step(prev: u64, total: int)
    requires
        1 <= total,
        prev == (total - 1) % 0x1_0000_0000_0000_0000,
    ensures
        (if prev == u64::MAX {
            0
        } else {
            prev + 1
        }) == total % 0x1_0000_0000_0000_0000,
        (total % 0x1_0000_0000_0000_0000) % 32 == total % 32,
{
    let q = total / 0x1_0000_0000_0000_0000;
    let r = total % 0x1_0000_0000_0000_0000;
    assert(total == 0x1_0000_0000_0000_0000 * q + r);
    assert(32 * (q * 0x800_0000_0000_0000) == 0x1_0000_0000_0000_0000 * q);
    lemma_mod_multiples_vanish(q * 0x800_0000_0000_0000, r, 32);
}

/// After a sequence of calls the frame counter has advanced by the number
/// of frames among them, and the flash phase has changed once for every
/// multiple of the flash period that the counter has passed, whatever
/// writes and border changes came in between.
pub proof fn lemma_flash_after_all(v: ScreenView, ops: Seq<ScreenOp>)
    ensures
        v.after_all(ops).frame_counter == (v.frame_counter + frames_in(ops))
            % 0x1_0000_0000_0000_0000,
        v.after_all(ops).flash == (v.flash != (flash_changes(
            v.frame_counter as int,
            frames_in(ops),
        ) % 2 == 1)),
    decreases ops.len(),
{
    if ops.len() > 0 {
        let before = v.after_all(ops.drop_last());
        lemma_flash_after_all(v, ops.drop_last());
        lemma_only_frames_move_flash(before, ops.last());
        if ops.last() is NewFrame {
            lemma_counter_step(before.frame_counter, v.frame_counter + frames_in(ops));
        }
    }
}

/// The flash phase changes exactly once in every 32 frames: after calls
/// that start 32 frames, it is the opposite of what it was.
pub proof fn lemma_flash_period(v: ScreenView, ops: Seq<ScreenOp>)
    requires
        frames_in(ops) == FLASH_PERIOD,
    ensures
        flash_changes(v.frame_counter as int, frames_in(ops)) == 1,
        v.after_all(ops).flash == !v.flash,
{
    lemma_flash_changes(v.frame_counter as int, frames_in(ops));
    lemma_flash_after_all(v, ops);
}

/// After the start of a frame every pixel of the canvas shows what the
/// grids hold, in the new flash phase.
pub proof fn lemma_new_frame_shows_grids(v: ScreenView, i: int)
    requires
        v.wf(),
        0 <= i < BUFFER_SIZE,
        in_canvas(i),
    ensures
        v.with_new_frame().buffer[i] == canvas_byte(
            v.attributes,
            v.bitmap,
            v.with_new_frame().flash,
            i,
        ),
{
    lemma_dimensions();
}

/// A write to the bitmap that comes before the beam changes the 8 pixels of
/// its block at once: pixel `bit` of the block shows bit `bit` of the byte,
/// counted from the left, in the colours of its cell. A write that comes
/// later leaves the buffer as it is. Either way the byte is stored, so that
/// the next frame shows it.
pub proof fn lemma_bitmap_write(v: ScreenView, addr: u16, clock: usize, data: u8, bit: int, k: int)
    requires
        v.wf(),
        is_bitmap_addr(addr as int),
        0 <= bit < 8,
        0 <= k < 4,
    ensures
        ({
            let line = bitmap_line(addr as int);
            let col = bitmap_col(addr as int);
            let i = byte_index(CANVAS_X + col * 8 + bit, CANVAS_Y + line, k);
            let attr = v.attributes[attr_index(line / 8, col)];
            let written = v.with_bitmap_byte(addr, clock, data);
            &&& 0 <= i < BUFFER_SIZE
            &&& written.bitmap == v.bitmap.update(bitmap_index(line, col), data)
            &&& bitmap_write_in_time(v.specs, line, col, clock as int) ==> written.buffer[i]
                == ZXPalette.rgba(attr, pixel_on(data, bit), v.flash)[k]
            &&& !bitmap_write_in_time(v.specs, line, col, clock as int) ==> written.buffer
                == v.buffer
            &&& written.with_new_frame().buffer[i] == ZXPalette.rgba(
                attr,
                pixel_on(data, bit),
                written.with_new_frame().flash,
            )[k]
        }),
{
    lemma_dimensions();
    lemma_bitmap_addr_round_trip(addr as int);
    let line = bitmap_line(addr as int);
    let col = bitmap_col(addr as int);
    lemma_byte_index(CANVAS_X + col * 8 + bit, CANVAS_Y + line, k);
}

/// A write to an attribute is seen in the current frame exactly while the
/// beam has not left the cell. Then the rows of the cell from the row that
/// the beam is on, counted within the cell, show the new attribute at once,
/// and the rows above them stay as they are. A write that comes later leaves
/// the buffer as it is. Either way the attribute is stored, so that the next
/// frame shows it in the whole cell.
pub proof fn lemma_attr_write(
    v: ScreenView,
    addr: u16,
    clock: usize,
    value: u8,
    line: int,
    bit: int,
    k: int,
)
    requires
        v.wf(),
        is_attr_addr(addr as int),
        attr_row(addr as int) * 8 <= line < (attr_row(addr as int) + 1) * 8,
        0 <= bit < 8,
        0 <= k < 4,
    ensures
        ({
            let row = attr_row(addr as int);
            let col = attr_col(addr as int);
            let beam = beam_line(v.specs, col, clock as int);
            let first = attr_first_line(row, beam);
            let i = byte_index(CANVAS_X + col * 8 + bit, CANVAS_Y + line, k);
            let attr = ZXAttribute::of_byte(value);
            let state = pixel_on(v.bitmap[bitmap_index(line, col)], bit);
            let written = v.with_attr_byte(addr, clock, value);
            &&& 0 <= i < BUFFER_SIZE
            &&& written.attributes == v.attributes.update(attr_index(row, col), attr)
            &&& attr_write_in_time(v.specs, row, col, clock as int) <==> beam < (row + 1) * 8
            &&& beam < (row + 1) * 8 && first <= line ==> written.buffer[i] == ZXPalette.rgba(
                attr,
                state,
                v.flash,
            )[k]
            &&& beam < (row + 1) * 8 && line < first ==> written.buffer[i] == v.buffer[i]
            &&& beam >= (row + 1) * 8 ==> written.buffer == v.buffer
            &&& written.with_new_frame().buffer[i] == ZXPalette.rgba(
                attr,
                state,
                written.with_new_frame().flash,
            )[k]
        }),
{
    lemma_dimensions();
    lemma_attr_addr_round_trip(addr as int);
    let row = attr_row(addr as int);
    let col = attr_col(addr as int);
    lemma_attr_write_in_time(v.specs, row, col, clock as int);
    lemma_byte_index(CANVAS_X + col * 8 + bit, CANVAS_Y + line, k);
    assert(line / 8 == row);
}

} // verus!
