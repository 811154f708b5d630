use chip8_core::instruction::Instruction;
use chip8_core::{Emu, SCREEN_HEIGHT, SCREEN_WIDTH};

fn lit_cells(emu: &Emu) -> Vec<(usize, usize)> {
    let display = emu.get_display();
    let mut cells = Vec::new();
    for row in 0..SCREEN_HEIGHT {
        for col in 0..SCREEN_WIDTH {
            if display[col + row * SCREEN_WIDTH] {
                cells.push((col, row));
            }
        }
    }
    cells
}

fn staged(program: &[u8], n: usize) -> Emu {
    let mut emu = Emu::new();
    emu.load(program);
    for _ in 0..n {
        assert!(emu.can_tick());
        emu.tick();
    }
    emu
}

#[test]
fn draw_glyph_zero_at_origin() {
    // I = 0 holds the glyph for 0: F0 90 90 90 F0.
    let emu = staged(&[0xD0, 0x05], 1);
    assert_eq!(
        lit_cells(&emu),
        vec![
            (0, 0), (1, 0), (2, 0), (3, 0),
            (0, 1), (3, 1),
            (0, 2), (3, 2),
            (0, 3), (3, 3),
            (0, 4), (1, 4), (2, 4), (3, 4),
        ]
    );
    assert_eq!(emu.register(0xF), 0);
    assert_eq!(emu.pc(), 0x202);
    assert_eq!(emu.index(), 0);
}

#[test]
fn draw_wraps_columns_at_sixty() {
    // I = 0x20A: one row of eight set pixels; V0 = 60, V1 = 5.
    let emu = staged(&[0xA2, 0x0A, 0x60, 0x3C, 0x61, 0x05, 0xD0, 0x11, 0x00, 0x00, 0xFF], 4);
    assert_eq!(
        lit_cells(&emu),
        vec![(0, 5), (1, 5), (2, 5), (3, 5), (60, 5), (61, 5), (62, 5), (63, 5)]
    );
    assert_eq!(emu.register(0xF), 0);
}

#[test]
fn draw_wraps_rows_at_thirty() {
    // Four rows of a single leftmost pixel; V0 = 7, V1 = 30.
    let emu = staged(
        &[0xA2, 0x0A, 0x60, 0x07, 0x61, 0x1E, 0xD0, 0x14, 0x00, 0x00, 0x80, 0x80, 0x80, 0x80],
        4,
    );
    assert_eq!(lit_cells(&emu), vec![(7, 0), (7, 1), (7, 30), (7, 31)]);
}

#[test]
fn draw_wraps_both_ways_and_keeps_bit_order() {
    // Rows FF and 81 at column 60, row 31.
    let emu = staged(&[0xA2, 0x0A, 0x60, 0x3C, 0x61, 0x1F, 0xD0, 0x12, 0x00, 0x00, 0xFF, 0x81], 4);
    assert_eq!(
        lit_cells(&emu),
        vec![
            (3, 0), (60, 0),
            (0, 31), (1, 31), (2, 31), (3, 31), (60, 31), (61, 31), (62, 31), (63, 31),
        ]
    );
}

#[test]
fn draw_reduces_large_coordinates() {
    // V0 = 200 is column 8, V1 = 100 is row 4.
    let emu = staged(&[0xA2, 0x0A, 0x60, 0xC8, 0x61, 0x64, 0xD0, 0x11, 0x00, 0x00, 0xC0], 4);
    assert_eq!(lit_cells(&emu), vec![(8, 4), (9, 4)]);
}

#[test]
fn draw_twice_erases_and_reports_collision() {
    let mut emu = staged(&[0xA2, 0x0A, 0x60, 0x3C, 0x61, 0x1F, 0xD0, 0x12, 0xD0, 0x12, 0xFF, 0x81], 4);
    assert_eq!(emu.register(0xF), 0);
    assert_eq!(lit_cells(&emu).len(), 10);
    emu.tick();
    assert!(lit_cells(&emu).is_empty());
    assert_eq!(emu.register(0xF), 1);
}

#[test]
fn draw_twice_restores_other_content() {
    let mut emu = Emu::new();
    emu.execute(Instruction::Draw { x: 0, y: 0, rows: 5 }, 0);
    let before = emu.get_display().to_vec();
    emu.execute(Instruction::SetImm { x: 1, nn: 2 }, 0);
    emu.execute(Instruction::SetIndex { addr: 5 }, 0);
    emu.execute(Instruction::Draw { x: 1, y: 1, rows: 5 }, 0);
    assert_eq!(emu.register(0xF), 1);
    assert_ne!(emu.get_display().to_vec(), before);
    emu.execute(Instruction::Draw { x: 1, y: 1, rows: 5 }, 0);
    assert_eq!(emu.get_display().to_vec(), before);
    assert_eq!(emu.register(0xF), 1);
}

#[test]
fn collision_only_where_a_lit_pixel_goes_out() {
    let mut emu = Emu::new();
    // Glyph 0 at (0, 0): columns 0..3 of rows 0..4, with a hole in the middle.
    emu.execute(Instruction::Draw { x: 0, y: 0, rows: 5 }, 0);
    // A single pixel into the hole at (1, 1): no collision, pixel lit.
    emu.load(&[0x80]);
    emu.execute(Instruction::SetIndex { addr: 0x200 }, 0);
    emu.execute(Instruction::SetImm { x: 1, nn: 1 }, 0);
    emu.execute(Instruction::Draw { x: 1, y: 1, rows: 1 }, 0);
    assert_eq!(emu.register(0xF), 0);
    assert!(emu.get_display()[1 + SCREEN_WIDTH]);
    // A single pixel onto the glyph's corner at (0, 0): collision, pixel out.
    emu.execute(Instruction::Draw { x: 0, y: 0, rows: 1 }, 0);
    assert_eq!(emu.register(0xF), 1);
    assert!(!emu.get_display()[0]);
    // Next to the glyph: the flag goes back to 0.
    emu.execute(Instruction::SetImm { x: 2, nn: 10 }, 0);
    emu.execute(Instruction::Draw { x: 2, y: 2, rows: 1 }, 0);
    assert_eq!(emu.register(0xF), 0);
    assert!(emu.get_display()[10 + 10 * SCREEN_WIDTH]);
}

#[test]
fn collision_is_decided_once_for_the_sprite() {
    let mut emu = Emu::new();
    emu.load(&[0x80, 0x80, 0x80]);
    emu.execute(Instruction::SetIndex { addr: 0x200 }, 0);
    // Light (0, 0) only, then draw three rows over it: the hit is in the
    // first row, the later rows do not take the flag back.
    emu.execute(Instruction::Draw { x: 0, y: 0, rows: 1 }, 0);
    emu.execute(Instruction::Draw { x: 0, y: 0, rows: 3 }, 0);
    assert_eq!(emu.register(0xF), 1);
    assert_eq!(lit_cells(&emu), vec![(0, 1), (0, 2)]);
}

#[test]
fn unset_pixels_do_not_collide() {
    let mut emu = Emu::new();
    emu.execute(Instruction::Draw { x: 0, y: 0, rows: 5 }, 0);
    // The sprite 0F covers columns 4..7 only; the glyph is in columns 0..3.
    emu.load(&[0x0F]);
    emu.execute(Instruction::SetIndex { addr: 0x200 }, 0);
    emu.execute(Instruction::Draw { x: 0, y: 0, rows: 1 }, 0);
    assert_eq!(emu.register(0xF), 0);
    assert_eq!(lit_cells(&emu).len(), 14 + 4);
}

#[test]
fn draw_of_no_rows_clears_the_flag() {
    let mut emu = Emu::new();
    emu.execute(Instruction::SetImm { x: 0xF, nn: 1 }, 0);
    emu.execute(Instruction::SetIndex { addr: 0xFFF }, 0);
    assert!(emu.permits(Instruction::Draw { x: 0, y: 0, rows: 0 }));
    emu.execute(Instruction::Draw { x: 0, y: 0, rows: 0 }, 0);
    assert_eq!(emu.register(0xF), 0);
    assert!(lit_cells(&emu).is_empty());
}

#[test]
fn draw_reads_coordinates_before_writing_the_flag() {
    let mut emu = Emu::new();
    emu.execute(Instruction::SetImm { x: 0xF, nn: 20 }, 0);
    emu.load(&[0x80]);
    emu.execute(Instruction::SetIndex { addr: 0x200 }, 0);
    emu.execute(Instruction::Draw { x: 0xF, y: 0xF, rows: 1 }, 0);
    assert_eq!(lit_cells(&emu), vec![(20, 20)]);
    assert_eq!(emu.register(0xF), 0);
}

#[test]
fn clear_screen_unlights_everything() {
    let emu = staged(&[0xD0, 0x05, 0x00, 0xE0], 2);
    assert!(lit_cells(&emu).is_empty());
    assert_eq!(emu.get_display().len(), 2048);
}
