use zx_screen::address::{
    get_attr_col, get_attr_row, get_bitmap_col, get_bitmap_line, get_bitmap_line_addr, split_word,
};

#[test]
fn split_word_gives_high_and_low_byte() {
    assert_eq!(split_word(0x0000), (0x00, 0x00));
    assert_eq!(split_word(0x1234), (0x12, 0x34));
    assert_eq!(split_word(0x57FF), (0x57, 0xFF));
    assert_eq!(split_word(0xFFFF), (0xFF, 0xFF));
}

#[test]
fn line_address_of_known_rows() {
    assert_eq!(get_bitmap_line_addr(0), 0x4000);
    // bits 0-2 of the row move to bits 8-10
    assert_eq!(get_bitmap_line_addr(1), 0x4100);
    assert_eq!(get_bitmap_line_addr(7), 0x4700);
    // bits 3-5 of the row move to bits 5-7
    assert_eq!(get_bitmap_line_addr(8), 0x4020);
    assert_eq!(get_bitmap_line_addr(56), 0x40E0);
    // bits 6-7 of the row move to bits 11-12
    assert_eq!(get_bitmap_line_addr(64), 0x4800);
    assert_eq!(get_bitmap_line_addr(128), 0x5000);
    assert_eq!(get_bitmap_line_addr(191), 0x57E0);
}

#[test]
fn line_of_known_addresses() {
    assert_eq!(get_bitmap_line(0x4000), 0);
    assert_eq!(get_bitmap_line(0x401F), 0);
    assert_eq!(get_bitmap_line(0x4100), 1);
    assert_eq!(get_bitmap_line(0x4020), 8);
    assert_eq!(get_bitmap_line(0x4800), 64);
    assert_eq!(get_bitmap_line(0x4820), 72);
    assert_eq!(get_bitmap_line(0x57FF), 191);
}

#[test]
fn column_of_known_addresses() {
    assert_eq!(get_bitmap_col(0x4000), 0);
    assert_eq!(get_bitmap_col(0x4001), 1);
    assert_eq!(get_bitmap_col(0x401F), 31);
    assert_eq!(get_bitmap_col(0x4020), 0);
    assert_eq!(get_bitmap_col(0x57FF), 31);
}

#[test]
fn every_row_round_trips() {
    for row in 0..192u16 {
        let addr: u16 = get_bitmap_line_addr(row);
        assert!(addr >= 0x4000 && addr <= 0x57FF);
        assert_eq!(get_bitmap_line(addr), row as usize);
        assert_eq!(get_bitmap_col(addr), 0);
    }
}

#[test]
fn every_bitmap_cell_has_its_own_address() {
    let mut seen = vec![false; 0x1800];
    for row in 0..192u16 {
        for col in 0..32u16 {
            let addr: u16 = get_bitmap_line_addr(row) + col;
            assert!(addr >= 0x4000 && addr <= 0x57FF);
            assert_eq!(get_bitmap_line(addr), row as usize);
            assert_eq!(get_bitmap_col(addr), col as usize);
            assert!(!seen[(addr - 0x4000) as usize]);
            seen[(addr - 0x4000) as usize] = true;
        }
    }
    assert!(seen.iter().all(|s| *s));
}

#[test]
fn every_bitmap_address_decodes_into_the_grid() {
    for addr in 0x4000..=0x57FFu16 {
        let line: usize = get_bitmap_line(addr);
        let col: usize = get_bitmap_col(addr);
        assert!(line < 192);
        assert!(col < 32);
        assert_eq!(get_bitmap_line_addr(line as u16) + col as u16, addr);
    }
}

#[test]
fn attribute_cell_of_known_addresses() {
    assert_eq!(get_attr_row(0x5800), 0);
    assert_eq!(get_attr_col(0x5800), 0);
    assert_eq!(get_attr_row(0x581F), 0);
    assert_eq!(get_attr_col(0x581F), 31);
    assert_eq!(get_attr_row(0x5820), 1);
    assert_eq!(get_attr_col(0x5820), 0);
    assert_eq!(get_attr_row(0x5AFF), 23);
    assert_eq!(get_attr_col(0x5AFF), 31);
}

#[test]
fn every_attribute_address_decodes_into_the_grid() {
    for addr in 0x5800..=0x5AFFu16 {
        let row: usize = get_attr_row(addr);
        let col: usize = get_attr_col(addr);
        assert!(row < 24);
        assert!(col < 32);
        assert_eq!(0x5800 + row * 32 + col, addr as usize);
    }
}

#[test]
fn every_attribute_cell_round_trips() {
    for row in 0..24usize {
        for col in 0..32usize {
            let addr: u16 = (0x5800 + row * 32 + col) as u16;
            assert_eq!(get_attr_row(addr), row);
            assert_eq!(get_attr_col(addr), col);
        }
    }
}
