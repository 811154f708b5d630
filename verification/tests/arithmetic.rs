use chip8_core::instruction::Instruction;
use chip8_core::Emu;

fn with_regs(x: u8, a: u8, y: u8, b: u8) -> Emu {
    let mut emu = Emu::new();
    emu.execute(Instruction::SetImm { x, nn: a }, 0);
    emu.execute(Instruction::SetImm { x: y, nn: b }, 0);
    emu
}

fn run_words(program: &[u8], n: usize) -> Emu {
    let mut emu = Emu::new();
    emu.load(program);
    for _ in 0..n {
        assert!(emu.can_tick());
        emu.tick();
    }
    emu
}

#[test]
fn add_with_carry_without_overflow() {
    let emu = run_words(&[0x61, 0x14, 0x62, 0x28, 0x81, 0x24], 3);
    assert_eq!(emu.register(1), 0x3C);
    assert_eq!(emu.register(2), 0x28);
    assert_eq!(emu.register(0xF), 0);
}

#[test]
fn add_with_carry_with_overflow() {
    let emu = run_words(&[0x61, 0xC8, 0x62, 0x64, 0x81, 0x24], 3);
    assert_eq!(emu.register(1), 44);
    assert_eq!(emu.register(0xF), 1);
}

#[test]
fn add_with_carry_at_the_boundary() {
    let mut emu = with_regs(1, 255, 2, 0);
    emu.execute(Instruction::AddCarry { x: 1, y: 2 }, 0);
    assert_eq!((emu.register(1), emu.register(0xF)), (255, 0));
    let mut emu = with_regs(1, 255, 2, 1);
    emu.execute(Instruction::AddCarry { x: 1, y: 2 }, 0);
    assert_eq!((emu.register(1), emu.register(0xF)), (0, 1));
    let mut emu = with_regs(1, 255, 2, 255);
    emu.execute(Instruction::AddCarry { x: 1, y: 2 }, 0);
    assert_eq!((emu.register(1), emu.register(0xF)), (254, 1));
}

#[test]
fn add_with_carry_for_all_operands() {
    for a in 0..=255u16 {
        for b in [0u16, 1, 2, 127, 128, 254, 255] {
            let mut emu = with_regs(3, a as u8, 4, b as u8);
            emu.execute(Instruction::AddCarry { x: 3, y: 4 }, 0);
            assert_eq!(emu.register(3) as u16, (a + b) % 256);
            assert_eq!(emu.register(0xF) == 1, a + b >= 256);
            assert!(emu.register(0xF) <= 1);
            assert_eq!(emu.register(4) as u16, b);
        }
    }
}

#[test]
fn add_with_carry_clears_stale_flag() {
    let mut emu = with_regs(0xF, 1, 2, 3);
    emu.execute(Instruction::AddCarry { x: 2, y: 2 }, 0);
    assert_eq!(emu.register(2), 6);
    assert_eq!(emu.register(0xF), 0);
}

#[test]
fn add_with_carry_into_flag_register_keeps_the_flag() {
    let mut emu = with_regs(0xF, 3, 0, 4);
    emu.execute(Instruction::AddCarry { x: 0xF, y: 0 }, 0);
    assert_eq!(emu.register(0xF), 0);
    let mut emu = with_regs(0xF, 200, 0, 100);
    emu.execute(Instruction::AddCarry { x: 0xF, y: 0 }, 0);
    assert_eq!(emu.register(0xF), 1);
}

#[test]
fn add_register_to_itself() {
    let mut emu = with_regs(5, 0x90, 6, 0);
    emu.execute(Instruction::AddCarry { x: 5, y: 5 }, 0);
    assert_eq!((emu.register(5), emu.register(0xF)), (0x20, 1));
}

#[test]
fn subtract_with_borrow_without_borrow() {
    let emu = run_words(&[0x61, 0x0A, 0x62, 0x03, 0x81, 0x25], 3);
    assert_eq!(emu.register(1), 7);
    assert_eq!(emu.register(0xF), 1);
}

#[test]
fn subtract_with_borrow_with_borrow() {
    let emu = run_words(&[0x61, 0x03, 0x62, 0x0A, 0x81, 0x25], 3);
    assert_eq!(emu.register(1), 249);
    assert_eq!(emu.register(0xF), 0);
}

#[test]
fn subtract_equal_operands_sets_flag() {
    let mut emu = with_regs(1, 9, 2, 9);
    emu.execute(Instruction::SubBorrow { x: 1, y: 2 }, 0);
    assert_eq!((emu.register(1), emu.register(0xF)), (0, 1));
}

#[test]
fn subtract_with_borrow_for_all_operands() {
    for a in 0..=255i32 {
        for b in [0i32, 1, 2, 127, 128, 254, 255] {
            let mut emu = with_regs(3, a as u8, 4, b as u8);
            emu.execute(Instruction::SubBorrow { x: 3, y: 4 }, 0);
            assert_eq!(emu.register(3) as i32, (a - b).rem_euclid(256));
            assert_eq!(emu.register(0xF) == 1, a >= b);
            assert!(emu.register(0xF) <= 1);
        }
    }
}

#[test]
fn reverse_subtract_writes_vx() {
    let emu = run_words(&[0x61, 0x03, 0x62, 0x0A, 0x81, 0x27], 3);
    assert_eq!(emu.register(1), 7);
    assert_eq!(emu.register(2), 0x0A);
    assert_eq!(emu.register(0xF), 1);
}

#[test]
fn reverse_subtract_with_borrow() {
    let emu = run_words(&[0x61, 0x0A, 0x62, 0x03, 0x81, 0x27], 3);
    assert_eq!(emu.register(1), 249);
    assert_eq!(emu.register(2), 3);
    assert_eq!(emu.register(0xF), 0);
}

#[test]
fn shift_right_moves_low_bit_to_flag() {
    let emu = run_words(&[0x61, 0x05, 0x81, 0x06], 2);
    assert_eq!(emu.register(1), 2);
    assert_eq!(emu.register(0xF), 1);
    let emu = run_words(&[0x61, 0xFE, 0x81, 0x06], 2);
    assert_eq!(emu.register(1), 0x7F);
    assert_eq!(emu.register(0xF), 0);
}

#[test]
fn shift_left_moves_high_bit_to_flag() {
    let emu = run_words(&[0x61, 0x81, 0x81, 0x0E], 2);
    assert_eq!(emu.register(1), 0x02);
    assert_eq!(emu.register(0xF), 1);
    let emu = run_words(&[0x61, 0x7F, 0x81, 0x0E], 2);
    assert_eq!(emu.register(1), 0xFE);
    assert_eq!(emu.register(0xF), 0);
}

#[test]
fn shift_left_flag_is_bit_seven_not_bit_three() {
    let emu = run_words(&[0x61, 0x08, 0x81, 0x0E], 2);
    assert_eq!(emu.register(1), 0x10);
    assert_eq!(emu.register(0xF), 0);
    let emu = run_words(&[0x61, 0x80, 0x81, 0x0E], 2);
    assert_eq!(emu.register(1), 0);
    assert_eq!(emu.register(0xF), 1);
}

#[test]
fn shifts_for_all_values() {
    for a in 0..=255u16 {
        let mut emu = with_regs(1, a as u8, 2, 0);
        emu.execute(Instruction::ShiftRight { x: 1 }, 0);
        assert_eq!(emu.register(1) as u16, a / 2);
        assert_eq!(emu.register(0xF) as u16, a % 2);
        let mut emu = with_regs(1, a as u8, 2, 0);
        emu.execute(Instruction::ShiftLeft { x: 1 }, 0);
        assert_eq!(emu.register(1) as u16, (a * 2) % 256);
        assert_eq!(emu.register(0xF) as u16, a / 128);
    }
}

#[test]
fn add_immediate_wraps_and_leaves_flag() {
    let emu = run_words(&[0x6F, 0x07, 0x61, 0xFF, 0x71, 0x02], 3);
    assert_eq!(emu.register(1), 1);
    assert_eq!(emu.register(0xF), 7);
}

#[test]
fn bitwise_operations() {
    let emu = run_words(&[0x6F, 0x09, 0x61, 0xCC, 0x62, 0xAA, 0x81, 0x21], 4);
    assert_eq!(emu.register(1), 0xEE);
    assert_eq!(emu.register(0xF), 9);
    let emu = run_words(&[0x6F, 0x09, 0x61, 0xCC, 0x62, 0xAA, 0x81, 0x22], 4);
    assert_eq!(emu.register(1), 0x88);
    assert_eq!(emu.register(0xF), 9);
    let emu = run_words(&[0x6F, 0x09, 0x61, 0xCC, 0x62, 0xAA, 0x81, 0x23], 4);
    assert_eq!(emu.register(1), 0x66);
    assert_eq!(emu.register(0xF), 9);
    assert_eq!(emu.register(2), 0xAA);
}

#[test]
fn move_between_registers() {
    let emu = run_words(&[0x61, 0x11, 0x62, 0x22, 0x81, 0x20], 3);
    assert_eq!(emu.register(1), 0x22);
    assert_eq!(emu.register(2), 0x22);
}

#[test]
fn add_to_index_wraps_at_sixteen_bits() {
    let emu = run_words(&[0xA1, 0x00, 0x60, 0x23, 0xF0, 0x1E], 3);
    assert_eq!(emu.index(), 0x123);
    let mut emu = Emu::new();
    emu.execute(Instruction::SetImm { x: 0, nn: 0xFF }, 0);
    for _ in 0..257 {
        emu.execute(Instruction::AddIndex { x: 0 }, 0);
    }
    // 257 * 255 = 65535; one more step wraps.
    assert_eq!(emu.index(), 0xFFFF);
    emu.execute(Instruction::AddIndex { x: 0 }, 0);
    assert_eq!(emu.index(), 0xFE);
}

#[test]
fn font_address_is_five_times_the_digit() {
    let emu = run_words(&[0x60, 0x00, 0xF0, 0x29], 2);
    assert_eq!(emu.index(), 0);
    let emu = run_words(&[0x60, 0x0A, 0xF0, 0x29], 2);
    assert_eq!(emu.index(), 50);
    let emu = run_words(&[0x60, 0x0F, 0xF0, 0x29], 2);
    assert_eq!(emu.index(), 75);
    let emu = run_words(&[0x60, 0xFF, 0xF0, 0x29], 2);
    assert_eq!(emu.index(), 1275);
}

#[test]
fn decimal_digits_are_stored() {
    let emu = run_words(&[0xA3, 0x00, 0x60, 0xEA, 0xF0, 0x33], 3);
    assert_eq!(emu.memory(0x300), 2);
    assert_eq!(emu.memory(0x301), 3);
    assert_eq!(emu.memory(0x302), 4);
    assert_eq!(emu.memory(0x303), 0);
    assert_eq!(emu.memory(0x2FF), 0);
    let emu = run_words(&[0xA3, 0x00, 0x60, 0x07, 0xF0, 0x33], 3);
    assert_eq!((emu.memory(0x300), emu.memory(0x301), emu.memory(0x302)), (0, 0, 7));
    let emu = run_words(&[0xA3, 0x00, 0x60, 0xFF, 0xF0, 0x33], 3);
    assert_eq!((emu.memory(0x300), emu.memory(0x301), emu.memory(0x302)), (2, 5, 5));
    let emu = run_words(&[0xA3, 0x00, 0x60, 0x64, 0xF0, 0x33], 3);
    assert_eq!((emu.memory(0x300), emu.memory(0x301), emu.memory(0x302)), (1, 0, 0));
}

#[test]
fn decimal_digits_for_all_values() {
    for a in 0..=255u8 {
        let mut emu = Emu::new();
        emu.execute(Instruction::SetIndex { addr: 0x400 }, 0);
        emu.execute(Instruction::SetImm { x: 7, nn: a }, 0);
        emu.execute(Instruction::StoreBcd { x: 7 }, 0);
        assert_eq!(format!("{}{}{}", emu.memory(0x400), emu.memory(0x401), emu.memory(0x402)), format!("{:03}", a));
    }
}

#[test]
fn store_registers_excludes_vx() {
    let emu = run_words(&[0x60, 0x11, 0x61, 0x22, 0x62, 0x33, 0xA3, 0x00, 0xF2, 0x55], 5);
    assert_eq!(emu.memory(0x300), 0x11);
    assert_eq!(emu.memory(0x301), 0x22);
    assert_eq!(emu.memory(0x302), 0);
    assert_eq!(emu.index(), 0x300);
}

#[test]
fn store_zero_registers_writes_nothing() {
    let emu = run_words(&[0x60, 0x11, 0xA3, 0x00, 0xF0, 0x55], 3);
    assert_eq!(emu.memory(0x300), 0);
}

#[test]
fn load_registers_excludes_vx() {
    let emu = run_words(&[0x62, 0x77, 0xA2, 0x06, 0xF2, 0x65, 0xAB, 0xCD, 0xEF], 3);
    assert_eq!(emu.register(0), 0xAB);
    assert_eq!(emu.register(1), 0xCD);
    assert_eq!(emu.register(2), 0x77);
    assert_eq!(emu.index(), 0x206);
}

#[test]
fn store_all_but_the_flag_then_load_back() {
    let mut emu = Emu::new();
    for x in 0..16u8 {
        emu.execute(Instruction::SetImm { x, nn: 0xA0 + x }, 0);
    }
    emu.execute(Instruction::SetIndex { addr: 0xFF1 }, 0);
    assert!(emu.permits(Instruction::StoreRegs { x: 15 }));
    emu.execute(Instruction::StoreRegs { x: 15 }, 0);
    for k in 0..15usize {
        assert_eq!(emu.memory(0xFF1 + k), 0xA0 + k as u8);
    }
    assert_eq!(emu.memory(0xFF0), 0);
    for x in 0..16u8 {
        emu.execute(Instruction::SetImm { x, nn: 0 }, 0);
    }
    emu.execute(Instruction::LoadRegs { x: 15 }, 0);
    for k in 0..15usize {
        assert_eq!(emu.register(k), 0xA0 + k as u8);
    }
    assert_eq!(emu.register(15), 0);
}

#[test]
fn random_byte_is_masked() {
    for nn in [0x00u8, 0x0F, 0xF0, 0x01, 0x80, 0x55] {
        for _ in 0..64 {
            let emu = run_words(&[0x61, 0xFF, 0xC1, nn], 2);
            assert_eq!(emu.register(1) & !nn, 0);
            assert_eq!(emu.pc(), 0x204);
        }
    }
}

#[test]
fn random_instruction_uses_the_given_byte() {
    let mut emu = Emu::new();
    emu.execute(Instruction::Random { x: 4, nn: 0x3C }, 0xA5);
    assert_eq!(emu.register(4), 0x24);
    emu.execute(Instruction::Random { x: 4, nn: 0xFF }, 0xA5);
    assert_eq!(emu.register(4), 0xA5);
    emu.execute(Instruction::Random { x: 4, nn: 0x00 }, 0xA5);
    assert_eq!(emu.register(4), 0);
}

#[test]
fn random_instruction_varies() {
    let mut seen = [false; 256];
    for _ in 0..4096 {
        let emu = run_words(&[0xC0, 0xFF], 1);
        seen[emu.register(0) as usize] = true;
    }
    assert!(seen.iter().filter(|s| **s).count() > 128);
}
