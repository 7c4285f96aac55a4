//! Colours, cell attributes and the palette that turns them into RGBA pixels.

use vstd::prelude::*;
use crate::geometry::BYTES_PER_PIXEL;

verus! {

/// Channel value of a colour shown at full brightness.
pub const LEVEL_BRIGHT: u8 = 0xFF;

/// Channel value of a colour shown at normal brightness.
pub const LEVEL_NORMAL: u8 = 0x88;

/// One of the eight colours of the machine, numbered by its 3-bit code.
#[derive(Clone, Copy, PartialEq, Eq, Structural, Debug)]
pub enum ZXColor {
    Black,
    Blue,
    Red,
    Purple,
    Green,
    Cyan,
    Yellow,
    White,
}

impl ZXColor {
    /// The colour with the 3-bit code `bits`.
    pub open spec fn of_bits(bits: int) -> ZXColor {
        if bits == 0 {
            ZXColor::Black
        } else if bits == 1 {
            ZXColor::Blue
        } else if bits == 2 {
            ZXColor::Red
        } else if bits == 3 {
            ZXColor::Purple
        } else if bits == 4 {
            ZXColor::Green
        } else if bits == 5 {
            ZXColor::Cyan
        } else if bits == 6 {
            ZXColor::Yellow
        } else {
            ZXColor::White
        }
    }

    /// The colour has a red component.
    pub open spec fn has_red(self) -> bool {
        self is Red || self is Purple || self is Yellow || self is White
    }

    /// The colour has a green component.
    pub open spec fn has_green(self) -> bool {
        self is Green || self is Cyan || self is Yellow || self is White
    }

    /// The colour has a blue component.
    pub open spec fn has_blue(self) -> bool {
        self is Blue || self is Purple || self is Cyan || self is White
    }

    /// The RGBA quadruplet of the colour when its components are shown at
    /// `level`. Alpha is always opaque.
    pub open spec fn rgba(self, level: u8) -> Seq<u8> {
        seq![
            if self.has_red() { level } else { 0u8 },
            if self.has_green() { level } else { 0u8 },
            if self.has_blue() { level } else { 0u8 },
            0xFFu8,
        ]
    }

    /// Returns the colour with the 3-bit code `bits`.
    pub fn from_bits(bits: u8) -> (color: ZXColor)
        requires
            bits <= 7,
        ensures
            color == ZXColor::of_bits(bits as int),
    {
        match bits {
            0 => ZXColor::Black,
            1 => ZXColor::Blue,
            2 => ZXColor::Red,
            3 => ZXColor::Purple,
            4 => ZXColor::Green,
            5 => ZXColor::Cyan,
            6 => ZXColor::Yellow,
            _ => ZXColor::White,
        }
    }
}

/// Attribute of an 8x8 cell: ink and paper colour, flash and brightness.
#[derive(Clone, Copy, PartialEq, Eq, Structural, Debug)]
pub struct ZXAttribute {
    pub ink: ZXColor,
    pub paper: ZXColor,
    pub flash: bool,
    pub bright: bool,
}

impl ZXAttribute {
    /// The attribute that a byte encodes: ink in bits 0-2, paper in bits 3-5,
    /// brightness in bit 6 and flash in bit 7.
    pub open spec fn of_byte(data: u8) -> ZXAttribute {
        ZXAttribute {
            ink: ZXColor::of_bits(data as int % 8),
            paper: ZXColor::of_bits(data as int / 8 % 8),
            flash: data as int / 128 == 1,
            bright: data as int / 64 % 2 == 1,
        }
    }

    /// The attribute with ink and paper exchanged.
    pub open spec fn swapped(self) -> ZXAttribute {
        ZXAttribute { ink: self.paper, paper: self.ink, flash: self.flash, bright: self.bright }
    }

    /// The colour in which a pixel of this cell is shown: ink when the pixel
    /// is set, paper when it is not, the two exchanged while a flashing cell
    /// is in the inverted phase.
    pub open spec fn shown(self, state: bool, flash_state: bool) -> ZXColor {
        if state != (self.flash && flash_state) {
            self.ink
        } else {
            self.paper
        }
    }

    /// The channel value at which the colours of this cell are shown.
    pub open spec fn level(self) -> u8 {
        if self.bright {
            LEVEL_BRIGHT
        } else {
            LEVEL_NORMAL
        }
    }

    /// Decodes an attribute byte.
    pub fn from_byte(data: u8) -> (attr: ZXAttribute)
        ensures
            attr == ZXAttribute::of_byte(data),
    {
        let ink: u8 = data & 0x07;
        let paper: u8 = (data >> 3) & 0x07;
        let flash: u8 = data & 0x80;
        let bright: u8 = data & 0x40;
        assert(ink == data % 8 && paper == data / 8 % 8 && (flash != 0) == (data / 128 == 1) && (
        bright != 0) == (data / 64 % 2 == 1)) by (bit_vector)
            requires
                ink == data & 0x07,
                paper == (data >> 3) & 0x07,
                flash == data & 0x80,
                bright == data & 0x40,
        ;
        ZXAttribute {
            ink: ZXColor::from_bits(ink),
            paper: ZXColor::from_bits(paper),
            flash: flash != 0,
            bright: bright != 0,
        }
    }
}

/// The palette: the function from a cell's attribute and a pixel's state to
/// the pixel's RGBA value.
pub struct ZXPalette;

impl ZXPalette {
    /// The RGBA value of a pixel with the given state in a cell with the
    /// given attribute, while the flash phase is `flash_state`.
    pub open spec fn rgba(self, attr: ZXAttribute, state: bool, flash_state: bool) -> Seq<u8> {
        attr.shown(state, flash_state).rgba(attr.level())
    }

    /// Returns the default palette.
    pub fn default() -> (palette: ZXPalette)
        ensures
            palette == ZXPalette,
    {
        ZXPalette
    }

    /// Returns the RGBA value of a pixel from its cell's attribute, its own
    /// state and the flash phase.
    pub fn get_rgba(&self, attr: &ZXAttribute, state: bool, flash_state: bool) -> (pixel: [u8;
        BYTES_PER_PIXEL])
        ensures
            pixel@ == self.rgba(*attr, state, flash_state),
    {
        let base_color: u8 = if attr.bright {
            0xFF
        } else {
            0x88
        };
        let color = if state != (attr.flash && flash_state) {
            attr.ink
        } else {
            attr.paper
        };
        let pixel: [u8; BYTES_PER_PIXEL] = match color {
            ZXColor::Black => [0x00, 0x00, 0x00, 0xFF],
            ZXColor::Blue => [0x00, 0x00, base_color, 0xFF],
            ZXColor::Red => [base_color, 0x00, 0x00, 0xFF],
            ZXColor::Purple => [base_color, 0x00, base_color, 0xFF],
            ZXColor::Green => [0x00, base_color, 0x00, 0xFF],
            ZXColor::Cyan => [0x00, base_color, base_color, 0xFF],
            ZXColor::Yellow => [base_color, base_color, 0x00, 0xFF],
            ZXColor::White => [base_color, base_color, base_color, 0xFF],
        };
        assert(pixel@ =~= self.rgba(*attr, state, flash_state));
        pixel
    }
}

/// A pixel shown in black is (0, 0, 0, 255) whatever the brightness; a cell
/// whose ink and paper are both black shows nothing else, whatever the
/// pixel's state and the flash phase.
pub proof fn lemma_black_has_one_shade(
    palette: ZXPalette,
    attr: ZXAttribute,
    state: bool,
    flash_state: bool,
)
    ensures
        attr.shown(state, flash_state) is Black ==> palette.rgba(attr, state, flash_state) == seq![
            0u8,
            0u8,
            0u8,
            0xFFu8,
        ],
        attr.ink is Black && attr.paper is Black ==> palette.rgba(attr, state, flash_state)
            == seq![0u8, 0u8, 0u8, 0xFFu8],
{
    if attr.shown(state, flash_state) is Black {
        assert(palette.rgba(attr, state, flash_state) =~= seq![0u8, 0u8, 0u8, 0xFFu8]);
    }
}

/// A set pixel looks like a clear pixel of the cell with ink and paper
/// exchanged, and the other way round.
pub proof fn lemma_state_selects_ink_or_paper(
    palette: ZXPalette,
    attr: ZXAttribute,
    state: bool,
    flash_state: bool,
)
    ensures
        palette.rgba(attr, state, flash_state) == palette.rgba(
            attr.swapped(),
            !state,
            flash_state,
        ),
        !(attr.flash && flash_state) ==> attr.shown(true, flash_state) == attr.ink && attr.shown(
            false,
            flash_state,
        ) == attr.paper,
        attr.flash && flash_state ==> attr.shown(true, flash_state) == attr.paper && attr.shown(
            false,
            flash_state,
        ) == attr.ink,
{
}

/// Every pixel value has four bytes, is opaque, and uses no channel value
/// but 0 and the cell's level.
pub proof fn lemma_rgba_shape(palette: ZXPalette, attr: ZXAttribute, state: bool, flash_state: bool)
    ensures
        palette.rgba(attr, state, flash_state).len() == BYTES_PER_PIXEL,
        palette.rgba(attr, state, flash_state)[3] == 0xFF,
        forall|k: int|
            0 <= k < 3 ==> {
                let c = #[trigger] palette.rgba(attr, state, flash_state)[k];
                c == 0 || c == attr.level()
            },
{
}

} // verus!
