use zx_screen::machine::{Clocks, ZXMachine, ZXSpecs};
use zx_screen::timing::{get_attr_block_time, get_beam_line, get_block_time};

#[test]
fn clocks_count_is_the_number_held() {
    assert_eq!(Clocks(0).count(), 0);
    assert_eq!(Clocks(69888).count(), 69888);
}

#[test]
fn machine_keeps_its_timing_constants() {
    let specs = ZXSpecs { clocks_first_pixel: 14336, clocks_line: 224 };
    let machine = ZXMachine::new(specs);
    assert_eq!(*machine.specs(), specs);
    assert_eq!(machine.specs().clocks_first_pixel, 14336);
    assert_eq!(machine.specs().clocks_line, 224);
}

#[test]
fn block_time_follows_the_formula() {
    let specs = ZXSpecs { clocks_first_pixel: 14336, clocks_line: 224 };
    assert_eq!(get_block_time(&specs, 0, 0), 14338);
    assert_eq!(get_block_time(&specs, 0, 1), 14338);
    assert_eq!(get_block_time(&specs, 0, 2), 14346);
    assert_eq!(get_block_time(&specs, 0, 31), 14338 + 120);
    assert_eq!(get_block_time(&specs, 1, 0), 14338 + 224);
    assert_eq!(get_block_time(&specs, 191, 31), 14338 + 191 * 224 + 120);
}

#[test]
fn block_time_does_not_overflow() {
    let specs = ZXSpecs { clocks_first_pixel: usize::MAX, clocks_line: usize::MAX };
    assert_eq!(
        get_block_time(&specs, 191, 31),
        usize::MAX as u128 + 2 + 191 * (usize::MAX as u128) + 120
    );
}

#[test]
fn beam_line_is_zero_before_the_column_is_reached() {
    let specs = ZXSpecs { clocks_first_pixel: 14336, clocks_line: 224 };
    assert_eq!(get_beam_line(&specs, 0, 0), 0);
    assert_eq!(get_beam_line(&specs, 0, 14337), 0);
    assert_eq!(get_beam_line(&specs, 2, 14345), 0);
}

#[test]
fn beam_line_counts_scanlines_from_one() {
    let specs = ZXSpecs { clocks_first_pixel: 14336, clocks_line: 224 };
    assert_eq!(get_beam_line(&specs, 0, 14338), 1);
    assert_eq!(get_beam_line(&specs, 0, 14338 + 223), 1);
    assert_eq!(get_beam_line(&specs, 0, 14338 + 224), 2);
    assert_eq!(get_beam_line(&specs, 2, 14346), 1);
    assert_eq!(get_beam_line(&specs, 0, 14338 + 224 * 3 + 5), 4);
    assert_eq!(get_beam_line(&specs, 31, 14338 + 120 + 224 * 191), 192);
}

#[test]
fn attr_block_time_before_the_cell_is_its_first_row() {
    let specs = ZXSpecs { clocks_first_pixel: 14336, clocks_line: 224 };
    assert_eq!(get_attr_block_time(&specs, 0, 0, 0), 14338);
    assert_eq!(get_attr_block_time(&specs, 1, 0, 0), 14338 + 8 * 224);
    assert_eq!(get_attr_block_time(&specs, 1, 0, 8), 14338 + 8 * 224);
    assert_eq!(get_attr_block_time(&specs, 2, 5, 3), 14338 + 16 * 224 + 16);
}

#[test]
fn attr_block_time_inside_the_cell_is_the_beam_row() {
    let specs = ZXSpecs { clocks_first_pixel: 14336, clocks_line: 224 };
    assert_eq!(get_attr_block_time(&specs, 0, 0, 1), 14338 + 224);
    assert_eq!(get_attr_block_time(&specs, 0, 0, 7), 14338 + 7 * 224);
    assert_eq!(get_attr_block_time(&specs, 1, 0, 9), 14338 + 9 * 224);
    assert_eq!(get_attr_block_time(&specs, 1, 0, 15), 14338 + 15 * 224);
}

#[test]
fn attr_block_time_past_the_cell_is_its_last_row() {
    let specs = ZXSpecs { clocks_first_pixel: 14336, clocks_line: 224 };
    assert_eq!(get_attr_block_time(&specs, 0, 0, 8), 14338 + 7 * 224);
    assert_eq!(get_attr_block_time(&specs, 0, 0, 100), 14338 + 7 * 224);
    assert_eq!(get_attr_block_time(&specs, 1, 0, 16), 14338 + 15 * 224);
    assert_eq!(get_attr_block_time(&specs, 23, 31, 1000), 14338 + 191 * 224 + 120);
}
