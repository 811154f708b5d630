use chip8_core::{decode, Instruction};

#[test]
fn decodes_every_class() {
    assert_eq!(decode(0x0000), Some(Instruction::Nop));
    assert_eq!(decode(0x00E0), Some(Instruction::ClearScreen));
    assert_eq!(decode(0x00EE), Some(Instruction::Return));
    assert_eq!(decode(0x1ABC), Some(Instruction::Jump { addr: 0xABC }));
    assert_eq!(decode(0x2ABC), Some(Instruction::Call { addr: 0xABC }));
    assert_eq!(decode(0x3A12), Some(Instruction::SkipEqImm { x: 0xA, nn: 0x12 }));
    assert_eq!(decode(0x4A12), Some(Instruction::SkipNeImm { x: 0xA, nn: 0x12 }));
    assert_eq!(decode(0x5AB0), Some(Instruction::SkipEqReg { x: 0xA, y: 0xB }));
    assert_eq!(decode(0x6A12), Some(Instruction::SetImm { x: 0xA, nn: 0x12 }));
    assert_eq!(decode(0x7A12), Some(Instruction::AddImm { x: 0xA, nn: 0x12 }));
    assert_eq!(decode(0x8AB0), Some(Instruction::Move { x: 0xA, y: 0xB }));
    assert_eq!(decode(0x8AB1), Some(Instruction::Or { x: 0xA, y: 0xB }));
    assert_eq!(decode(0x8AB2), Some(Instruction::And { x: 0xA, y: 0xB }));
    assert_eq!(decode(0x8AB3), Some(Instruction::Xor { x: 0xA, y: 0xB }));
    assert_eq!(decode(0x8AB4), Some(Instruction::AddCarry { x: 0xA, y: 0xB }));
    assert_eq!(decode(0x8AB5), Some(Instruction::SubBorrow { x: 0xA, y: 0xB }));
    assert_eq!(decode(0x8AB6), Some(Instruction::ShiftRight { x: 0xA }));
    assert_eq!(decode(0x8AB7), Some(Instruction::SubReverse { x: 0xA, y: 0xB }));
    assert_eq!(decode(0x8ABE), Some(Instruction::ShiftLeft { x: 0xA }));
    assert_eq!(decode(0x9AB0), Some(Instruction::SkipNeReg { x: 0xA, y: 0xB }));
    assert_eq!(decode(0xAABC), Some(Instruction::SetIndex { addr: 0xABC }));
    assert_eq!(decode(0xBABC), Some(Instruction::JumpOffset { addr: 0xABC }));
    assert_eq!(decode(0xCA12), Some(Instruction::Random { x: 0xA, nn: 0x12 }));
    assert_eq!(decode(0xDAB7), Some(Instruction::Draw { x: 0xA, y: 0xB, rows: 7 }));
    assert_eq!(decode(0xEA9E), Some(Instruction::SkipKey { x: 0xA }));
    assert_eq!(decode(0xEAA1), Some(Instruction::SkipNoKey { x: 0xA }));
    assert_eq!(decode(0xFA07), Some(Instruction::GetDelay { x: 0xA }));
    assert_eq!(decode(0xFA0A), Some(Instruction::WaitKey { x: 0xA }));
    assert_eq!(decode(0xFA15), Some(Instruction::SetDelay { x: 0xA }));
    assert_eq!(decode(0xFA18), Some(Instruction::SetSound { x: 0xA }));
    assert_eq!(decode(0xFA1E), Some(Instruction::AddIndex { x: 0xA }));
    assert_eq!(decode(0xFA29), Some(Instruction::FontAddr { x: 0xA }));
    assert_eq!(decode(0xFA33), Some(Instruction::StoreBcd { x: 0xA }));
    assert_eq!(decode(0xFA55), Some(Instruction::StoreRegs { x: 0xA }));
    assert_eq!(decode(0xFA65), Some(Instruction::LoadRegs { x: 0xA }));
}

#[test]
fn rejects_words_outside_the_set() {
    for op in [0x0001u16, 0x00E1, 0x00EF, 0x0100, 0x0ABC, 0x5AB1, 0x5ABF, 0x8AB8, 0x8AB9, 0x8ABA, 0x8ABD, 0x8ABF, 0x9AB1, 0xEA9F, 0xEA00, 0xEAA0, 0xEAFF, 0xFA00, 0xFA08, 0xFA16, 0xFA1F, 0xFA30, 0xFA56, 0xFA66, 0xFAFF] {
        assert_eq!(decode(op), None);
    }
}

#[test]
fn decodes_operand_extremes() {
    assert_eq!(decode(0x1000), Some(Instruction::Jump { addr: 0 }));
    assert_eq!(decode(0x1FFF), Some(Instruction::Jump { addr: 0xFFF }));
    assert_eq!(decode(0x6000), Some(Instruction::SetImm { x: 0, nn: 0 }));
    assert_eq!(decode(0x6FFF), Some(Instruction::SetImm { x: 0xF, nn: 0xFF }));
    assert_eq!(decode(0xD000), Some(Instruction::Draw { x: 0, y: 0, rows: 0 }));
    assert_eq!(decode(0xDFFF), Some(Instruction::Draw { x: 0xF, y: 0xF, rows: 0xF }));
    assert_eq!(decode(0xF065), Some(Instruction::LoadRegs { x: 0 }));
    assert_eq!(decode(0xFF65), Some(Instruction::LoadRegs { x: 0xF }));
}

#[test]
fn every_decoded_instruction_is_well_formed() {
    let mut known = 0u32;
    for op in 0..=0xFFFFu16 {
        if let Some(instr) = decode(op) {
            assert!(instr.well_formed());
            known += 1;
        }
    }
    // 3 fixed words, 10 full classes of 4096, 256 each of 5XY0 and 9XY0,
    // 9 rows of 256 in class 8, 2 rows of 16 in class E, 9 rows of 16 in class F.
    assert_eq!(known, 3 + 10 * 4096 + 2 * 256 + 9 * 256 + 2 * 16 + 9 * 16);
}
