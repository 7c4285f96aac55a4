//! The renderer: it keeps the bitmap and attribute grids, and a pixel buffer
//! that it redraws from them, on every frame as a whole and on every write
//! as far as the beam has not passed yet.

use vstd::prelude::*;
use crate::address::{
    bitmap_col,
    bitmap_line,
    get_attr_col,
    get_attr_row,
    get_bitmap_col,
    get_bitmap_line,
    is_attr_addr,
    is_bitmap_addr,
};
use crate::color::{ZXAttribute, ZXPalette};
use crate::geometry::{
    ATTR_COLS,
    ATTR_COUNT,
    BITMAP_SIZE,
    BUFFER_SIZE,
    BYTES_PER_PIXEL,
    CANVAS_HEIGHT,
    CANVAS_X,
    CANVAS_Y,
    SCREEN_WIDTH,
    lemma_dimensions,
};
use crate::machine::{Clocks, ZXMachine};
use crate::model::{FLASH_PERIOD, ScreenView, lemma_bitmap_write};
use crate::raster::{
    BORDER_PATCH,
    attr_index,
    bitmap_index,
    byte_index,
    canvas_byte,
    channel,
    get_pixel_state,
    in_border_patch,
    in_window,
    lemma_byte_index,
    lemma_byte_position,
    pixel_on,
    pixel_x,
    pixel_y,
};
use crate::timing::{
    bitmap_write_in_time,
    block_time,
    get_attr_block_time,
    get_beam_line,
    get_block_time,
};

verus! {

/// The screen of the machine.
pub struct ZXScreen {
    attributes: [ZXAttribute; ATTR_COUNT],
    bitmap: [u8; BITMAP_SIZE],
    buffer: [u8; BUFFER_SIZE],
    machine: ZXMachine,
    palette: ZXPalette,
    flash: bool,
    frame_counter: u64,
}

impl View for ZXScreen {
    type V = ScreenView;

    closed spec fn view(&self) -> ScreenView {
        ScreenView {
            attributes: self.attributes@,
            bitmap: self.bitmap@,
            buffer: self.buffer@,
            specs: self.machine.specs,
            flash: self.flash,
            frame_counter: self.frame_counter,
        }
    }
}

impl ZXScreen {
    /// The screen is in a state that the operations keep it in.
    pub open spec fn wf(&self) -> bool {
        self@.wf()
    }

    /// Returns a new screen for the given machine.
    pub fn new(machine_type: ZXMachine, palette_type: ZXPalette) -> (screen: ZXScreen)
        requires
            machine_type.specs.wf(),
        ensures
            screen.wf(),
            screen@ == ScreenView::initial(machine_type.specs),
    {
        let blank = ZXAttribute::from_byte(0);
        let screen = ZXScreen {
            attributes: [blank; ATTR_COUNT],
            bitmap: [0; BITMAP_SIZE],
            buffer: [0; BUFFER_SIZE],
            machine: machine_type,
            palette: palette_type,
            flash: false,
            frame_counter: 0,
        };
        assert(screen@ =~= ScreenView::initial(machine_type.specs));
        screen
    }

    /// Sets the border colour: fills the border patch with the ink of
    /// `color`. The cycle of the write plays no part.
    pub fn set_border(&mut self, color: u8, _clocks: Clocks)
        requires
            old(self).wf(),
        ensures
            final(self).wf(),
            final(self)@ == old(self)@.with_border(color),
    {
        let attr = ZXAttribute::from_byte(color);
        let rgba = self.palette.get_rgba(&attr, true, false);
        let ghost before = self@;
        for y in 0..BORDER_PATCH
            invariant
                before.wf(),
                rgba@ == ZXPalette.rgba(attr, true, false),
                self@.attributes == before.attributes,
                self@.bitmap == before.bitmap,
                self@.specs == before.specs,
                self@.flash == before.flash,
                self@.frame_counter == before.frame_counter,
                self@.buffer.len() == BUFFER_SIZE,
                forall|i: int|
                    0 <= i < BUFFER_SIZE ==> #[trigger] self@.buffer[i] == if in_border_patch(i)
                        && pixel_y(i) < y {
                        rgba@[channel(i)]
                    } else {
                        before.buffer[i]
                    },
        {
            for x in 0..BORDER_PATCH
                invariant
                    y < BORDER_PATCH,
                    before.wf(),
                    rgba@ == ZXPalette.rgba(attr, true, false),
                    self@.attributes == before.attributes,
                    self@.bitmap == before.bitmap,
                    self@.specs == before.specs,
                    self@.flash == before.flash,
                    self@.frame_counter == before.frame_counter,
                    self@.buffer.len() == BUFFER_SIZE,
                    forall|i: int|
                        0 <= i < BUFFER_SIZE ==> #[trigger] self@.buffer[i] == if in_border_patch(
                            i,
                        ) && (pixel_y(i) < y || (pixel_y(i) == y && pixel_x(i) < x)) {
                            rgba@[channel(i)]
                        } else {
                            before.buffer[i]
                        },
            {
                proof {
                    lemma_dimensions();
                }
                let pixel = (y * SCREEN_WIDTH + x) * BYTES_PER_PIXEL;
                let ghost filled = self@.buffer;
                proof {
                    lemma_byte_index(x as int, y as int, 0);
                    lemma_byte_index(x as int, y as int, 1);
                    lemma_byte_index(x as int, y as int, 2);
                    lemma_byte_index(x as int, y as int, 3);
                    assert(pixel == byte_index(x as int, y as int, 0));
                }
                self.buffer[pixel] = rgba[0];
                self.buffer[pixel + 1] = rgba[1];
                self.buffer[pixel + 2] = rgba[2];
                self.buffer[pixel + 3] = rgba[3];
                proof {
                    assert forall|i: int| 0 <= i < BUFFER_SIZE implies #[trigger] self@.buffer[i]
                        == if in_border_patch(i) && (pixel_y(i) < y || (pixel_y(i) == y
                        && pixel_x(i) < x + 1)) {
                        rgba@[channel(i)]
                    } else {
                        before.buffer[i]
                    } by {
                        lemma_byte_position(i);
                        if pixel <= i <= pixel + 3 {
                            assert(self@.buffer[i] == rgba[i - pixel]);
                        } else {
                            assert(self@.buffer[i] == filled[i]);
                        }
                    }
                }
            }
        }
        assert(self@.buffer =~= before.with_border(color).buffer);
    }

    /// Starts a frame: advances the frame counter, changes the flash phase
    /// when the counter reaches a multiple of the flash period, and draws
    /// the whole canvas from the grids. The counter wraps round at 2^64,
    /// which is a multiple of the flash period.
    pub fn new_frame(&mut self)
        requires
            old(self).wf(),
        ensures
            final(self).wf(),
            final(self)@ == old(self)@.with_new_frame(),
    {
        let ghost before = self@;
        self.frame_counter = self.frame_counter.wrapping_add(1);
        if self.frame_counter % FLASH_PERIOD == 0 {
            self.flash = !self.flash;
        }
        let ghost ticked = self@;
        assert(ticked == ScreenView {
            frame_counter: before.next_counter(),
            flash: before.flash != before.next_frame_toggles(),
            ..before
        });
        for line in 0..CANVAS_HEIGHT
            invariant
                ticked.wf(),
                self@ == ticked.redrawn(0, line as int, 0, ATTR_COLS as int),
        {
            let ghost above = self@;
            for col in 0..ATTR_COLS
                invariant
                    line < CANVAS_HEIGHT,
                    ticked.wf(),
                    above == ticked.redrawn(0, line as int, 0, ATTR_COLS as int),
                    self@ == above.redrawn(line as int, line + 1, 0, col as int),
            {
                self.update_buffer_block(line, col);
                assert(self@ =~= above.redrawn(line as int, line + 1, 0, col + 1));
            }
            assert(self@ =~= ticked.redrawn(0, line + 1, 0, ATTR_COLS as int));
        }
    }

    /// Draws the block at pixel row `line` and block column `col` from the
    /// grids.
    fn update_buffer_block(&mut self, line: usize, col: usize)
        requires
            old(self).wf(),
            line < CANVAS_HEIGHT,
            col < ATTR_COLS,
        ensures
            final(self).wf(),
            final(self)@ == old(self)@.redrawn(line as int, line + 1, col as int, col + 1),
    {
        proof {
            lemma_dimensions();
        }
        let data = self.bitmap[line * ATTR_COLS + col];
        let row = line / 8;
        // index of the first byte of the block
        let block_base_index = (((line + CANVAS_Y) * SCREEN_WIDTH) + CANVAS_X + col * 8)
            * BYTES_PER_PIXEL;
        let block_attr = self.attributes[row * ATTR_COLS + col];
        let ghost before = self@;
        for bit in 0..8usize
            invariant
                line < CANVAS_HEIGHT,
                col < ATTR_COLS,
                block_base_index == ((line + 24) * 320 + 32 + col * 8) * 4,
                data == before.bitmap[bitmap_index(line as int, col as int)],
                block_attr == before.attributes[attr_index(line as int / 8, col as int)],
                before.wf(),
                self@.attributes == before.attributes,
                self@.bitmap == before.bitmap,
                self@.specs == before.specs,
                self@.flash == before.flash,
                self@.frame_counter == before.frame_counter,
                self@.buffer.len() == BUFFER_SIZE,
                forall|i: int|
                    0 <= i < BUFFER_SIZE ==> #[trigger] self@.buffer[i] == if in_window(
                        i,
                        line as int,
                        line + 1,
                        col as int,
                        col + 1,
                    ) && pixel_x(i) < CANVAS_X + col * 8 + bit {
                        canvas_byte(before.attributes, before.bitmap, before.flash, i)
                    } else {
                        before.buffer[i]
                    },
        {
            proof {
                lemma_dimensions();
            }
            let pixel = block_base_index + bit * BYTES_PER_PIXEL;
            let state = get_pixel_state(data, bit);
            let color = self.palette.get_rgba(&block_attr, state, self.flash);
            let ghost filled = self@.buffer;
            proof {
                lemma_byte_index(CANVAS_X + col * 8 + bit, CANVAS_Y + line, 0);
                lemma_byte_index(CANVAS_X + col * 8 + bit, CANVAS_Y + line, 1);
                lemma_byte_index(CANVAS_X + col * 8 + bit, CANVAS_Y + line, 2);
                lemma_byte_index(CANVAS_X + col * 8 + bit, CANVAS_Y + line, 3);
                assert(pixel == byte_index(CANVAS_X + col * 8 + bit, CANVAS_Y + line, 0));
                assert(pixel + 3 < BUFFER_SIZE);
            }
            self.buffer[pixel] = color[0];
            self.buffer[pixel + 1] = color[1];
            self.buffer[pixel + 2] = color[2];
            self.buffer[pixel + 3] = color[3];
            proof {
                assert forall|i: int| 0 <= i < BUFFER_SIZE implies #[trigger] self@.buffer[i]
                    == if in_window(i, line as int, line + 1, col as int, col + 1) && pixel_x(i)
                    < CANVAS_X + col * 8 + bit + 1 {
                    canvas_byte(before.attributes, before.bitmap, before.flash, i)
                } else {
                    before.buffer[i]
                } by {
                    lemma_byte_position(i);
                    if pixel <= i <= pixel + 3 {
                        assert(self@.buffer[i] == color[i - pixel]);
                    } else {
                        assert(self@.buffer[i] == filled[i]);
                    }
                }
            }
        }
        assert(self@.buffer =~= before.redrawn(line as int, line + 1, col as int, col + 1).buffer);
    }

    /// Takes a write of `data` to the bitmap address `addr` at cycle
    /// `clocks`: stores the byte, and draws its block again if the beam has
    /// not reached the block yet. A later write leaves the buffer as it is;
    /// the next frame shows the byte.
    pub fn write_bitmap_byte(&mut self, addr: u16, clocks: Clocks, data: u8)
        requires
            old(self).wf(),
            is_bitmap_addr(addr as int),
        ensures
            final(self).wf(),
            final(self)@ == old(self)@.with_bitmap_byte(addr, clocks.0, data),
            clocks.0 < block_time(
                old(self)@.specs,
                bitmap_line(addr as int),
                bitmap_col(addr as int),
            ) ==> forall|bit: int, k: int|
                0 <= bit < 8 && 0 <= k < 4 ==> final(self)@.buffer[#[trigger] byte_index(
                    CANVAS_X + bitmap_col(addr as int) * 8 + bit,
                    CANVAS_Y + bitmap_line(addr as int),
                    k,
                )] == ZXPalette.rgba(
                    old(self)@.attributes[attr_index(
                        bitmap_line(addr as int) / 8,
                        bitmap_col(addr as int),
                    )],
                    pixel_on(data, bit),
                    old(self)@.flash,
                )[k],
            clocks.0 >= block_time(
                old(self)@.specs,
                bitmap_line(addr as int),
                bitmap_col(addr as int),
            ) ==> final(self)@.buffer == old(self)@.buffer,
    {
        proof {
            lemma_dimensions();
        }
        let line = get_bitmap_line(addr);
        let col = get_bitmap_col(addr);
        self.bitmap[line * ATTR_COLS + col] = data;
        let specs = *self.machine.specs();
        let block_time = get_block_time(&specs, line, col);
        if (clocks.count() as u128) < block_time {
            self.update_buffer_block(line, col);
        }
        proof {
            assert forall|bit: int, k: int| 0 <= bit < 8 && 0 <= k < 4 implies ({
                let i = #[trigger] byte_index(CANVAS_X + col * 8 + bit, CANVAS_Y + line, k);
                let attr = old(self)@.attributes[attr_index(line as int / 8, col as int)];
                let written = old(self)@.with_bitmap_byte(addr, clocks.0, data);
                bitmap_write_in_time(old(self)@.specs, line as int, col as int, clocks.0 as int)
                    ==> written.buffer[i] == ZXPalette.rgba(
                    attr,
                    pixel_on(data, bit),
                    old(self)@.flash,
                )[k]
            }) by {
                lemma_bitmap_write(old(self)@, addr, clocks.0, data, bit, k);
            }
        }
    }

    /// Takes a write of `value` to the attribute address `addr` at cycle
    /// `clocks`: stores the attribute, and draws again the rows of the cell
    /// that the beam has not passed yet.
    pub fn write_attr_byte(&mut self, addr: u16, clocks: Clocks, value: u8)
        requires
            old(self).wf(),
            is_attr_addr(addr as int),
        ensures
            final(self).wf(),
            final(self)@ == old(self)@.with_attr_byte(addr, clocks.0, value),
    {
        proof {
            lemma_dimensions();
        }
        let row = get_attr_row(addr);
        let col = get_attr_col(addr);
        self.attributes[row * ATTR_COLS + col] = ZXAttribute::from_byte(value);
        let specs = *self.machine.specs();
        let beam_line = get_beam_line(&specs, col, clocks.count());
        let block_time = get_attr_block_time(&specs, row, col, beam_line);
        let ghost stored = self@;
        // the rows of the cell from the beam's row on are still to come
        if (clocks.count() as u128) < block_time {
            let first = (beam_line % 8) as usize + row * 8;
            assert(self@ =~= stored.redrawn(first as int, first as int, col as int, col + 1));
            for line_shift in first..(row + 1) * 8
                invariant
                    first <= (row + 1) * 8,
                    row < 24,
                    col < ATTR_COLS,
                    stored.wf(),
                    self@ == stored.redrawn(first as int, line_shift as int, col as int, col + 1),
            {
                self.update_buffer_block(line_shift, col);
                assert(self@ =~= stored.redrawn(first as int, line_shift + 1, col as int, col + 1));
            }
        }
    }

    /// Returns the pixel buffer: the frame row by row, four bytes per pixel.
    pub fn clone_texture(&self) -> (texture: &[u8])
        requires
            self.wf(),
        ensures
            texture@ == self@.buffer,
            texture@.len() == BUFFER_SIZE,
    {
        &self.buffer
    }
}

} // verus!
