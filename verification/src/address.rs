//! Codec between display-file addresses and grid coordinates.
//!
//! The bitmap area does not store its rows one after another. With `Y7..Y0`
//! the bits of a pixel row and `X4..X0` those of a block column, the address
//! of a bitmap byte is laid out as
//!
//! ```text
//! 0 1 0 Y7 Y6 Y2 Y1 Y0 | Y5 Y4 Y3 X4 X3 X2 X1 X0
//! ```
//!
//! The attribute area that follows it is linear, one byte per 8x8 cell.

use vstd::prelude::*;

verus! {

/// First address of the bitmap area.
pub const BITMAP_BASE: u16 = 0x4000;

/// Last address of the bitmap area.
pub const BITMAP_LAST: u16 = 0x57FF;

/// First address of the attribute area.
pub const ATTR_BASE: u16 = 0x5800;

/// Last address of the attribute area.
pub const ATTR_LAST: u16 = 0x5AFF;

/// `addr` lies in the bitmap area.
pub open spec fn is_bitmap_addr(addr: int) -> bool {
    BITMAP_BASE <= addr <= BITMAP_LAST
}

/// `addr` lies in the attribute area.
pub open spec fn is_attr_addr(addr: int) -> bool {
    ATTR_BASE <= addr <= ATTR_LAST
}

/// Address of the first byte of pixel row `line`: bits 0-2 of the row go to
/// address bits 8-10, bits 3-5 to address bits 5-7 and bits 6-7 to address
/// bits 11-12.
pub open spec fn bitmap_line_addr(line: int) -> int {
    0x4000 + (line / 64 % 4) * 0x800 + (line % 8) * 0x100 + (line / 8 % 8) * 0x20
}

/// Pixel row that the address of a bitmap byte belongs to.
pub open spec fn bitmap_line(addr: int) -> int {
    (addr / 0x800 % 4) * 64 + (addr / 0x20 % 8) * 8 + addr / 0x100 % 8
}

/// Block column that the address of a bitmap byte belongs to.
pub open spec fn bitmap_col(addr: int) -> int {
    addr % 32
}

/// Address of the bitmap byte at pixel row `line` and block column `col`.
pub open spec fn bitmap_addr(line: int, col: int) -> int {
    bitmap_line_addr(line) + col
}

/// Attribute row of an attribute address.
pub open spec fn attr_row(addr: int) -> int {
    (addr - ATTR_BASE) / 32
}

/// Attribute column of an attribute address.
pub open spec fn attr_col(addr: int) -> int {
    (addr - ATTR_BASE) % 32
}

/// Address of the attribute cell at `row` and `col`.
pub open spec fn attr_addr(row: int, col: int) -> int {
    ATTR_BASE + row * 32 + col
}

/// Splits a 16-bit word into its high and low byte.
pub fn split_word(value: u16) -> (halves: (u8, u8))
    ensures
        halves.0 == value / 256,
        halves.1 == value % 256,
{
    let h: u16 = value >> 8;
    let l: u16 = value & 0xFF;
    assert(h == value / 256 && h < 256) by (bit_vector)
        requires
            h == value >> 8,
    ;
    assert(l == value % 256 && l < 256) by (bit_vector)
        requires
            l == value & 0xFF,
    ;
    (h as u8, l as u8)
}

/// Encodes a pixel row as the address of its first bitmap byte.
pub fn get_bitmap_line_addr(line: u16) -> (addr: u16)
    ensures
        addr == bitmap_line_addr(line as int),
        line < 192 ==> is_bitmap_addr(addr as int),
{
    let addr: u16 = 0x4000 | (line << 5) & 0x1800 | (line << 8) & 0x0700 | (line << 2) & 0x00E0;
    assert(addr == 0x4000 + (line / 64 % 4) * 0x800 + (line % 8) * 0x100 + (line / 8 % 8) * 0x20)
        by (bit_vector)
        requires
            addr == 0x4000u16 | (line << 5) & 0x1800 | (line << 8) & 0x0700 | (line << 2) & 0x00E0,
    ;
    addr
}

/// Decodes the pixel row from the address of a bitmap byte.
pub fn get_bitmap_line(addr: u16) -> (line: usize)
    ensures
        line == bitmap_line(addr as int),
        line < 256,
        is_bitmap_addr(addr as int) ==> line < 192,
{
    let (h, l) = split_word(addr);
    let y: u8 = (h & 0x07) | ((l >> 2) & 0x38) | ((h << 3) & 0xC0);
    assert(y == (h / 8 % 4) * 64 + (l / 32 % 8) * 8 + h % 8) by (bit_vector)
        requires
            y == (h & 0x07) | ((l >> 2) & 0x38) | ((h << 3) & 0xC0),
    ;
    y as usize
}

/// Decodes the block column from the address of a bitmap byte.
pub fn get_bitmap_col(addr: u16) -> (col: usize)
    ensures
        col == bitmap_col(addr as int),
        col < 32,
{
    let (_, l) = split_word(addr);
    let x: u8 = l & 0x1F;
    assert(x == l % 32) by (bit_vector)
        requires
            x == l & 0x1F,
    ;
    x as usize
}

/// Decodes the attribute row from an attribute address.
pub fn get_attr_row(addr: u16) -> (row: usize)
    requires
        addr >= ATTR_BASE,
    ensures
        row == attr_row(addr as int),
        is_attr_addr(addr as int) ==> row < 24,
{
    ((addr - 0x5800) / 32) as usize
}

/// Decodes the attribute column from an attribute address.
pub fn get_attr_col(addr: u16) -> (col: usize)
    requires
        addr >= ATTR_BASE,
    ensures
        col == attr_col(addr as int),
        col < 32,
{
    ((addr - 0x5800) % 32) as usize
}

/// Encoding a pixel row and decoding the address gives the row back, at
/// block column 0 of the bitmap area.
pub proof fn lemma_bitmap_line_round_trip(line: int)
    requires
        0 <= line < 192,
    ensures
        is_bitmap_addr(bitmap_line_addr(line)),
        bitmap_line(bitmap_line_addr(line)) == line,
        bitmap_col(bitmap_line_addr(line)) == 0,
{
    lemma_bitmap_cell_round_trip(line, 0);
}

/// Every cell of the bitmap grid has an address in the bitmap area, and
/// decoding that address gives the cell back.
pub proof fn lemma_bitmap_cell_round_trip(line: int, col: int)
    requires
        0 <= line < 192,
        0 <= col < 32,
    ensures
        is_bitmap_addr(bitmap_addr(line, col)),
        bitmap_line(bitmap_addr(line, col)) == line,
        bitmap_col(bitmap_addr(line, col)) == col,
{
    let y = line as u16;
    let x = col as u16;
    let a = bitmap_addr(line, col) as u16;
    assert(a == 0x4000 + (y / 64 % 4) * 0x800 + (y % 8) * 0x100 + (y / 8 % 8) * 0x20 + x);
    assert(0x4000 <= a <= 0x57FF && (a / 0x800 % 4) * 64 + (a / 0x20 % 8) * 8 + a / 0x100 % 8 == y
        && a % 32 == x) by (bit_vector)
        requires
            y < 192,
            x < 32,
            a == 0x4000 + (y / 64 % 4) * 0x800 + (y % 8) * 0x100 + (y / 8 % 8) * 0x20 + x,
    ;
}

/// Every address of the bitmap area decodes to a cell of the bitmap grid,
/// and encoding that cell gives the address back: no two addresses share a
/// cell.
pub proof fn lemma_bitmap_addr_round_trip(addr: int)
    requires
        is_bitmap_addr(addr),
    ensures
        0 <= bitmap_line(addr) < 192,
        0 <= bitmap_col(addr) < 32,
        bitmap_addr(bitmap_line(addr), bitmap_col(addr)) == addr,
{
    let a = addr as u16;
    let y = bitmap_line(addr) as u16;
    let x = bitmap_col(addr) as u16;
    assert(y == (a / 0x800 % 4) * 64 + (a / 0x20 % 8) * 8 + a / 0x100 % 8);
    assert(y < 192 && x < 32 && 0x4000 + (y / 64 % 4) * 0x800 + (y % 8) * 0x100 + (y / 8 % 8)
        * 0x20 + x == a) by (bit_vector)
        requires
            0x4000 <= a <= 0x57FF,
            y == (a / 0x800 % 4) * 64 + (a / 0x20 % 8) * 8 + a / 0x100 % 8,
            x == a % 32,
    ;
}

/// Every address of the attribute area decodes to a cell of the attribute
/// grid, and encoding that cell gives the address back.
pub proof fn lemma_attr_addr_round_trip(addr: int)
    requires
        is_attr_addr(addr),
    ensures
        0 <= attr_row(addr) < 24,
        0 <= attr_col(addr) < 32,
        attr_addr(attr_row(addr), attr_col(addr)) == addr,
{
}

/// Every cell of the attribute grid has an address in the attribute area,
/// and decoding that address gives the cell back.
pub proof fn lemma_attr_cell_round_trip(row: int, col: int)
    requires
        0 <= row < 24,
        0 <= col < 32,
    ensures
        is_attr_addr(attr_addr(row, col)),
        attr_row(attr_addr(row, col)) == row,
        attr_col(attr_addr(row, col)) == col,
{
}

} // verus!
