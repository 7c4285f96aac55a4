use zx_screen::color::{ZXAttribute, ZXColor, ZXPalette};

#[test]
fn colors_are_numbered_by_their_code() {
    assert_eq!(ZXColor::from_bits(0), ZXColor::Black);
    assert_eq!(ZXColor::from_bits(1), ZXColor::Blue);
    assert_eq!(ZXColor::from_bits(2), ZXColor::Red);
    assert_eq!(ZXColor::from_bits(3), ZXColor::Purple);
    assert_eq!(ZXColor::from_bits(4), ZXColor::Green);
    assert_eq!(ZXColor::from_bits(5), ZXColor::Cyan);
    assert_eq!(ZXColor::from_bits(6), ZXColor::Yellow);
    assert_eq!(ZXColor::from_bits(7), ZXColor::White);
}

#[test]
fn attribute_byte_is_split_into_its_fields() {
    let attr = ZXAttribute::from_byte(0x00);
    assert_eq!(
        attr,
        ZXAttribute { ink: ZXColor::Black, paper: ZXColor::Black, flash: false, bright: false }
    );
    let attr = ZXAttribute::from_byte(0x47);
    assert_eq!(
        attr,
        ZXAttribute { ink: ZXColor::White, paper: ZXColor::Black, flash: false, bright: true }
    );
    let attr = ZXAttribute::from_byte(0x8A);
    assert_eq!(
        attr,
        ZXAttribute { ink: ZXColor::Red, paper: ZXColor::Blue, flash: true, bright: false }
    );
    let attr = ZXAttribute::from_byte(0xFF);
    assert_eq!(
        attr,
        ZXAttribute { ink: ZXColor::White, paper: ZXColor::White, flash: true, bright: true }
    );
    let attr = ZXAttribute::from_byte(0x38);
    assert_eq!(
        attr,
        ZXAttribute { ink: ZXColor::Black, paper: ZXColor::White, flash: false, bright: false }
    );
}

#[test]
fn every_attribute_byte_decodes_by_its_bits() {
    for byte in 0..=255u8 {
        let attr = ZXAttribute::from_byte(byte);
        assert_eq!(attr.ink, ZXColor::from_bits(byte & 7));
        assert_eq!(attr.paper, ZXColor::from_bits((byte >> 3) & 7));
        assert_eq!(attr.bright, byte & 0x40 != 0);
        assert_eq!(attr.flash, byte & 0x80 != 0);
    }
}

#[test]
fn palette_of_normal_colors() {
    let palette = ZXPalette::default();
    let expected: [[u8; 4]; 8] = [
        [0x00, 0x00, 0x00, 0xFF],
        [0x00, 0x00, 0x88, 0xFF],
        [0x88, 0x00, 0x00, 0xFF],
        [0x88, 0x00, 0x88, 0xFF],
        [0x00, 0x88, 0x00, 0xFF],
        [0x00, 0x88, 0x88, 0xFF],
        [0x88, 0x88, 0x00, 0xFF],
        [0x88, 0x88, 0x88, 0xFF],
    ];
    for code in 0..8u8 {
        let attr = ZXAttribute::from_byte(code);
        assert_eq!(palette.get_rgba(&attr, true, false), expected[code as usize]);
    }
}

#[test]
fn palette_of_bright_colors() {
    let palette = ZXPalette::default();
    let expected: [[u8; 4]; 8] = [
        [0x00, 0x00, 0x00, 0xFF],
        [0x00, 0x00, 0xFF, 0xFF],
        [0xFF, 0x00, 0x00, 0xFF],
        [0xFF, 0x00, 0xFF, 0xFF],
        [0x00, 0xFF, 0x00, 0xFF],
        [0x00, 0xFF, 0xFF, 0xFF],
        [0xFF, 0xFF, 0x00, 0xFF],
        [0xFF, 0xFF, 0xFF, 0xFF],
    ];
    for code in 0..8u8 {
        let attr = ZXAttribute::from_byte(0x40 | code);
        assert_eq!(palette.get_rgba(&attr, true, false), expected[code as usize]);
    }
}

#[test]
fn clear_pixel_shows_paper() {
    let palette = ZXPalette::default();
    // red ink on green paper
    let attr = ZXAttribute::from_byte(0x22);
    assert_eq!(palette.get_rgba(&attr, true, false), [0x88, 0x00, 0x00, 0xFF]);
    assert_eq!(palette.get_rgba(&attr, false, false), [0x00, 0x88, 0x00, 0xFF]);
}

#[test]
fn flash_phase_exchanges_ink_and_paper_of_flashing_cells_only() {
    let palette = ZXPalette::default();
    let steady = ZXAttribute::from_byte(0x22);
    assert_eq!(palette.get_rgba(&steady, true, true), [0x88, 0x00, 0x00, 0xFF]);
    assert_eq!(palette.get_rgba(&steady, false, true), [0x00, 0x88, 0x00, 0xFF]);
    let flashing = ZXAttribute::from_byte(0xA2);
    assert_eq!(palette.get_rgba(&flashing, true, false), [0x88, 0x00, 0x00, 0xFF]);
    assert_eq!(palette.get_rgba(&flashing, false, false), [0x00, 0x88, 0x00, 0xFF]);
    assert_eq!(palette.get_rgba(&flashing, true, true), [0x00, 0x88, 0x00, 0xFF]);
    assert_eq!(palette.get_rgba(&flashing, false, true), [0x88, 0x00, 0x00, 0xFF]);
}

#[test]
fn black_on_black_is_always_opaque_black() {
    let palette = ZXPalette::default();
    for byte in [0x00u8, 0x40, 0x80, 0xC0] {
        let attr = ZXAttribute::from_byte(byte);
        for state in [false, true] {
            for phase in [false, true] {
                assert_eq!(palette.get_rgba(&attr, state, phase), [0, 0, 0, 255]);
            }
        }
    }
}

#[test]
fn set_pixel_equals_clear_pixel_of_swapped_attribute() {
    let palette = ZXPalette::default();
    for byte in 0..=255u8 {
        let attr = ZXAttribute::from_byte(byte);
        let swapped =
            ZXAttribute { ink: attr.paper, paper: attr.ink, flash: attr.flash, bright: attr.bright };
        for phase in [false, true] {
            assert_eq!(
                palette.get_rgba(&attr, true, phase),
                palette.get_rgba(&swapped, false, phase)
            );
            assert_eq!(
                palette.get_rgba(&attr, false, phase),
                palette.get_rgba(&swapped, true, phase)
            );
        }
    }
}
