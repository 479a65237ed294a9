use yaci::chip8::Chip8;
use yaci::fault::Fault;

fn machine_with(program: &[u8]) -> Chip8 {
    let mut chip = Chip8::new();
    assert_eq!(chip.load_rom(program), Ok(()));
    chip
}

fn run(chip: &mut Chip8, cycles: usize) {
    for _ in 0..cycles {
        assert_eq!(chip.clock_with(0), Ok(()));
    }
}

fn lit_cells(chip: &Chip8) -> Vec<(usize, usize)> {
    let mut lit = Vec::new();
    for (y, row) in chip.dump_vmem().iter().enumerate() {
        for (x, cell) in row.iter().enumerate() {
            assert!(*cell <= 1);
            if *cell == 1 {
                lit.push((x, y));
            }
        }
    }
    lit
}

#[test]
fn draw_sets_exactly_the_sprite_bits() {
    // glyph "0" at column 3, row 2: F0 90 90 90 F0
    let mut chip = machine_with(&[0x00, 0xE0, 0x61, 0x03, 0x62, 0x02, 0xA0, 0x00, 0xD1, 0x25]);
    run(&mut chip, 5);
    let expected = vec![
        (3, 2), (4, 2), (5, 2), (6, 2),
        (3, 3), (6, 3),
        (3, 4), (6, 4),
        (3, 5), (6, 5),
        (3, 6), (4, 6), (5, 6), (6, 6),
    ];
    assert_eq!(lit_cells(&chip), expected);
    assert_eq!(chip.register(0xF), 0);
    assert!(chip.is_awaiting_redraw());
    assert_eq!(chip.get_redraw_section(), (2, 3, 5, 8));
    assert_eq!(chip.pc(), 0x20A);
}

#[test]
fn drawing_twice_clears_the_display_again() {
    let mut chip = machine_with(&[0x00, 0xE0, 0x61, 0x03, 0x62, 0x02, 0xA0, 0x00, 0xD1, 0x25, 0xD1,
        0x25]);
    run(&mut chip, 6);
    assert_eq!(lit_cells(&chip), vec![]);
    assert_eq!(chip.register(0xF), 1);
}

#[test]
fn drawing_twice_restores_any_display() {
    // glyph "8" drawn first, then glyph "1" twice on top of it
    let mut chip = machine_with(&[0xA0, 0x28, 0xD0, 0x05, 0xA0, 0x05, 0xD0, 0x05, 0xD0, 0x05]);
    run(&mut chip, 2);
    let before = chip.dump_vmem().clone();
    run(&mut chip, 2);
    assert_ne!(chip.dump_vmem(), &before);
    run(&mut chip, 1);
    assert_eq!(chip.dump_vmem(), &before);
}

#[test]
fn sprite_wraps_round_both_edges() {
    // one row of eight pixels at column 63, row 31
    let mut chip = machine_with(&[0x61, 63, 0x62, 31, 0xA2, 0x0A, 0xD1, 0x21, 0x12, 0x08, 0xFF]);
    run(&mut chip, 4);
    let expected = vec![(0, 31), (1, 31), (2, 31), (3, 31), (4, 31), (5, 31), (6, 31), (63, 31)];
    assert_eq!(lit_cells(&chip), expected);
    assert_eq!(chip.dump_vmem_line(31)[63], 1);
    assert_eq!(chip.register(0xF), 0);
}

#[test]
fn sprite_rows_wrap_to_the_top() {
    // two rows at column 62, row 31
    let mut chip = machine_with(&[0x61, 62, 0x62, 31, 0xA2, 0x0A, 0xD1, 0x22, 0x12, 0x08, 0xC0, 0xE0]);
    run(&mut chip, 4);
    let expected = vec![(0, 0), (62, 0), (63, 0), (62, 31), (63, 31)];
    assert_eq!(lit_cells(&chip), expected);
}

#[test]
fn coordinates_are_taken_modulo_the_display() {
    // column 64 + 5, row 32 * 7 + 1
    let mut chip = machine_with(&[0x61, 69, 0x62, 225, 0xA2, 0x0A, 0xD1, 0x21, 0x12, 0x08, 0x81]);
    run(&mut chip, 4);
    assert_eq!(lit_cells(&chip), vec![(5, 1), (12, 1)]);
    assert_eq!(chip.get_redraw_section(), (225, 69, 1, 8));
}

#[test]
fn collision_is_flagged_only_when_a_lit_cell_goes_dark() {
    // 0x80 at (0,0), then 0x40 at (0,0): no collision; then 0xC0: collision
    let mut chip = machine_with(&[0xA2, 0x10, 0xD0, 0x01, 0xA2, 0x11, 0xD0, 0x01, 0xA2, 0x12, 0xD0,
        0x01, 0x12, 0x0C, 0x00, 0x00, 0x80, 0x40, 0xC0]);
    run(&mut chip, 2);
    assert_eq!(lit_cells(&chip), vec![(0, 0)]);
    assert_eq!(chip.register(0xF), 0);
    run(&mut chip, 2);
    assert_eq!(lit_cells(&chip), vec![(0, 0), (1, 0)]);
    assert_eq!(chip.register(0xF), 0);
    run(&mut chip, 2);
    assert_eq!(lit_cells(&chip), vec![]);
    assert_eq!(chip.register(0xF), 1);
}

#[test]
fn collision_flag_is_reset_by_the_next_draw() {
    let mut chip = machine_with(&[0xA2, 0x0A, 0xD0, 0x01, 0xD0, 0x01, 0xD0, 0x01, 0x12, 0x08, 0x80]);
    run(&mut chip, 3);
    assert_eq!(chip.register(0xF), 1);
    run(&mut chip, 1);
    assert_eq!(chip.register(0xF), 0);
}

#[test]
fn draw_with_no_rows_changes_no_cell() {
    let mut chip = machine_with(&[0x61, 0x07, 0xAF, 0xFF, 0xD1, 0x20]);
    run(&mut chip, 3);
    assert_eq!(lit_cells(&chip), vec![]);
    assert_eq!(chip.register(0xF), 0);
    assert!(chip.is_awaiting_redraw());
    assert_eq!(chip.get_redraw_section(), (0, 7, 0, 8));
    assert_eq!(chip.pc(), 0x206);
}

#[test]
fn draw_takes_its_place_from_the_flag_register_as_it_was() {
    // vF = 3 is the column; the collision flag replaces it afterwards
    let mut chip = machine_with(&[0x6F, 0x03, 0xA2, 0x0A, 0xDF, 0x01, 0xDF, 0x01, 0x12, 0x08, 0x80]);
    run(&mut chip, 3);
    assert_eq!(lit_cells(&chip), vec![(3, 0)]);
    assert_eq!(chip.register(0xF), 0);
    assert_eq!(chip.get_redraw_section(), (0, 3, 1, 8));
    run(&mut chip, 1);
    assert_eq!(lit_cells(&chip), vec![(0, 0), (3, 0)]);
}

#[test]
fn tallest_sprite_has_fifteen_rows() {
    let mut program = vec![0xA2, 0x06, 0xD0, 0x0F, 0x12, 0x04];
    program.extend_from_slice(&[0x80; 15]);
    let mut chip = machine_with(&program);
    run(&mut chip, 2);
    let expected: Vec<(usize, usize)> = (0..15).map(|y| (0, y)).collect();
    assert_eq!(lit_cells(&chip), expected);
    assert_eq!(chip.get_redraw_section(), (0, 0, 15, 8));
}

#[test]
fn clear_turns_every_cell_off() {
    let mut chip = machine_with(&[0xA0, 0x00, 0xD0, 0x05, 0x00, 0xE0]);
    run(&mut chip, 2);
    assert!(!lit_cells(&chip).is_empty());
    chip.fulfill_redraw();
    run(&mut chip, 1);
    assert_eq!(lit_cells(&chip), vec![]);
    assert!(chip.is_awaiting_redraw());
    assert_eq!(chip.get_redraw_section(), (0, 0, 32, 64));
    assert_eq!(chip.pc(), 0x206);
    assert_eq!(chip.dump_vmem().len(), 32);
    assert_eq!(chip.dump_vmem_line(0).len(), 64);
}

#[test]
fn redraw_flag_is_raised_by_draw_and_cleared_by_the_host() {
    let mut chip = machine_with(&[0x61, 0x01, 0xD0, 0x01, 0x71, 0x01, 0x00, 0xE0]);
    run(&mut chip, 1);
    assert!(!chip.is_awaiting_redraw());
    run(&mut chip, 1);
    assert!(chip.is_awaiting_redraw());
    chip.fulfill_redraw();
    assert!(!chip.is_awaiting_redraw());
    run(&mut chip, 1);
    assert!(!chip.is_awaiting_redraw());
    run(&mut chip, 1);
    assert!(chip.is_awaiting_redraw());
}

#[test]
fn display_lines_match_the_whole_display() {
    let mut chip = machine_with(&[0x61, 10, 0x62, 20, 0xA0, 0x0F, 0xD1, 0x25]);
    run(&mut chip, 4);
    for line in 0..32 {
        assert_eq!(chip.dump_vmem_line(line), chip.dump_vmem()[line].as_slice());
    }
    assert_eq!(&chip.dump_vmem_line(20)[10..18], &[1, 1, 1, 1, 0, 0, 0, 0]);
    assert_eq!(&chip.dump_vmem_line(21)[10..18], &[0, 0, 0, 1, 0, 0, 0, 0]);
}

#[test]
fn draw_fault_leaves_the_display_untouched() {
    let mut chip = machine_with(&[0xA0, 0x00, 0xD0, 0x05, 0xAF, 0xFF, 0xD0, 0x02]);
    run(&mut chip, 3);
    let before = chip.dump_vmem().clone();
    assert_eq!(chip.clock_with(0), Err(Fault::OutOfBoundsAccess));
    assert_eq!(chip.dump_vmem(), &before);
}
