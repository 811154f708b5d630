//! The instruction set: what an opcode word means, and how it is decoded.

use vstd::prelude::*;

verus! {

/// One decoded instruction. `x` and `y` select registers, `nn` is an 8-bit
/// immediate, `addr` a 12-bit address, `rows` the height of a sprite.
#[derive(Clone, Copy, Debug, PartialEq, Eq, Structural)]
pub enum Instruction {
    /// `0000`: does nothing.
    Nop,
    /// `00E0`: unlight every pixel.
    ClearScreen,
    /// `00EE`: return from a subroutine.
    Return,
    /// `1NNN`: continue at `addr`.
    Jump { addr: u16 },
    /// `2NNN`: call the subroutine at `addr`.
    Call { addr: u16 },
    /// `3XNN`: skip the next instruction if `Vx == nn`.
    SkipEqImm { x: u8, nn: u8 },
    /// `4XNN`: skip the next instruction if `Vx != nn`.
    SkipNeImm { x: u8, nn: u8 },
    /// `5XY0`: skip the next instruction if `Vx == Vy`.
    SkipEqReg { x: u8, y: u8 },
    /// `6XNN`: `Vx := nn`.
    SetImm { x: u8, nn: u8 },
    /// `7XNN`: `Vx := Vx + nn`, wrapping, flag untouched.
    AddImm { x: u8, nn: u8 },
    /// `8XY0`: `Vx := Vy`.
    Move { x: u8, y: u8 },
    /// `8XY1`: `Vx := Vx | Vy`.
    Or { x: u8, y: u8 },
    /// `8XY2`: `Vx := Vx & Vy`.
    And { x: u8, y: u8 },
    /// `8XY3`: `Vx := Vx ^ Vy`.
    Xor { x: u8, y: u8 },
    /// `8XY4`: `Vx := Vx + Vy`, `VF` := carry.
    AddCarry { x: u8, y: u8 },
    /// `8XY5`: `Vx := Vx - Vy`, `VF` := no borrow.
    SubBorrow { x: u8, y: u8 },
    /// `8XY6`: `Vx := Vx >> 1`, `VF` := the bit shifted out.
    ShiftRight { x: u8 },
    /// `8XY7`: `Vx := Vy - Vx`, `VF` := no borrow.
    SubReverse { x: u8, y: u8 },
    /// `8XYE`: `Vx := Vx << 1`, `VF` := the bit shifted out.
    ShiftLeft { x: u8 },
    /// `9XY0`: skip the next instruction if `Vx != Vy`.
    SkipNeReg { x: u8, y: u8 },
    /// `ANNN`: `I := addr`.
    SetIndex { addr: u16 },
    /// `BNNN`: continue at `V0 + addr`.
    JumpOffset { addr: u16 },
    /// `CXNN`: `Vx := random byte & nn`.
    Random { x: u8, nn: u8 },
    /// `DXYN`: draw the sprite of `rows` rows at `I` at column `Vx`, row `Vy`.
    Draw { x: u8, y: u8, rows: u8 },
    /// `EX9E`: skip the next instruction if key `Vx` is down.
    SkipKey { x: u8 },
    /// `EXA1`: skip the next instruction if key `Vx` is up.
    SkipNoKey { x: u8 },
    /// `FX07`: `Vx := delay timer`.
    GetDelay { x: u8 },
    /// `FX0A`: wait until a key is down, then `Vx := its index`.
    WaitKey { x: u8 },
    /// `FX15`: `delay timer := Vx`.
    SetDelay { x: u8 },
    /// `FX18`: `sound timer := Vx`.
    SetSound { x: u8 },
    /// `FX1E`: `I := I + Vx`, wrapping at 16 bits.
    AddIndex { x: u8 },
    /// `FX29`: `I :=` address of the glyph for `Vx`.
    FontAddr { x: u8 },
    /// `FX33`: store the decimal digits of `Vx` at `I`, `I+1`, `I+2`.
    StoreBcd { x: u8 },
    /// `FX55`: store the registers below `Vx` at `I`.
    StoreRegs { x: u8 },
    /// `FX65`: load the registers below `Vx` from `I`.
    LoadRegs { x: u8 },
}

/// The highest-order nibble of an opcode: its class.
pub open spec fn class_of(op: u16) -> u8 {
    (op / 0x1000) as u8
}

/// The second nibble: the register `x`.
pub open spec fn x_of(op: u16) -> u8 {
    (op / 0x100 % 0x10) as u8
}

/// The third nibble: the register `y`.
pub open spec fn y_of(op: u16) -> u8 {
    (op / 0x10 % 0x10) as u8
}

/// The lowest nibble.
pub open spec fn n_of(op: u16) -> u8 {
    (op % 0x10) as u8
}

/// The low byte: the immediate `nn`.
pub open spec fn nn_of(op: u16) -> u8 {
    (op % 0x100) as u8
}

/// The low twelve bits: the address `nnn`.
pub open spec fn addr_of(op: u16) -> u16 {
    op % 0x1000
}

/// The instruction that an opcode stands for, `None` where the word is
/// outside the instruction set.
pub open spec fn decode_spec(op: u16) -> Option<Instruction> {
    let (x, y, n) = (x_of(op), y_of(op), n_of(op));
    let (nn, addr) = (nn_of(op), addr_of(op));
    match class_of(op) {
        0x0 => if op == 0x0000 {
            Some(Instruction::Nop)
        } else if op == 0x00E0 {
            Some(Instruction::ClearScreen)
        } else if op == 0x00EE {
            Some(Instruction::Return)
        } else {
            None
        },
        0x1 => Some(Instruction::Jump { addr }),
        0x2 => Some(Instruction::Call { addr }),
        0x3 => Some(Instruction::SkipEqImm { x, nn }),
        0x4 => Some(Instruction::SkipNeImm { x, nn }),
        0x5 => if n == 0 {
            Some(Instruction::SkipEqReg { x, y })
        } else {
            None
        },
        0x6 => Some(Instruction::SetImm { x, nn }),
        0x7 => Some(Instruction::AddImm { x, nn }),
        0x8 => match n {
            0x0 => Some(Instruction::Move { x, y }),
            0x1 => Some(Instruction::Or { x, y }),
            0x2 => Some(Instruction::And { x, y }),
            0x3 => Some(Instruction::Xor { x, y }),
            0x4 => Some(Instruction::AddCarry { x, y }),
            0x5 => Some(Instruction::SubBorrow { x, y }),
            0x6 => Some(Instruction::ShiftRight { x }),
            0x7 => Some(Instruction::SubReverse { x, y }),
            0xE => Some(Instruction::ShiftLeft { x }),
            _ => None,
        },
        0x9 => if n == 0 {
            Some(Instruction::SkipNeReg { x, y })
        } else {
            None
        },
        0xA => Some(Instruction::SetIndex { addr }),
        0xB => Some(Instruction::JumpOffset { addr }),
        0xC => Some(Instruction::Random { x, nn }),
        0xD => Some(Instruction::Draw { x, y, rows: n }),
        0xE => if nn == 0x9E {
            Some(Instruction::SkipKey { x })
        } else if nn == 0xA1 {
            Some(Instruction::SkipNoKey { x })
        } else {
            None
        },
        _ => match nn {
            0x07 => Some(Instruction::GetDelay { x }),
            0x0A => Some(Instruction::WaitKey { x }),
            0x15 => Some(Instruction::SetDelay { x }),
            0x18 => Some(Instruction::SetSound { x }),
            0x1E => Some(Instruction::AddIndex { x }),
            0x29 => Some(Instruction::FontAddr { x }),
            0x33 => Some(Instruction::StoreBcd { x }),
            0x55 => Some(Instruction::StoreRegs { x }),
            0x65 => Some(Instruction::LoadRegs { x }),
            _ => None,
        },
    }
}

impl Instruction {
    /// Every operand is within the width of its opcode field: register
    /// indices and row counts below 16, addresses below 4096.
    pub open spec fn wf(self) -> bool {
        match self {
            Instruction::Nop | Instruction::ClearScreen | Instruction::Return => true,
            Instruction::Jump { addr }
            | Instruction::Call { addr }
            | Instruction::SetIndex { addr }
            | Instruction::JumpOffset { addr } => addr < 0x1000,
            Instruction::SkipEqImm { x, .. }
            | Instruction::SkipNeImm { x, .. }
            | Instruction::SetImm { x, .. }
            | Instruction::AddImm { x, .. }
            | Instruction::Random { x, .. } => x < 16,
            Instruction::SkipEqReg { x, y }
            | Instruction::Move { x, y }
            | Instruction::Or { x, y }
            | Instruction::And { x, y }
            | Instruction::Xor { x, y }
            | Instruction::AddCarry { x, y }
            | Instruction::SubBorrow { x, y }
            | Instruction::SubReverse { x, y }
            | Instruction::SkipNeReg { x, y } => x < 16 && y < 16,
            Instruction::Draw { x, y, rows } => x < 16 && y < 16 && rows < 16,
            Instruction::ShiftRight { x }
            | Instruction::ShiftLeft { x }
            | Instruction::SkipKey { x }
            | Instruction::SkipNoKey { x }
            | Instruction::GetDelay { x }
            | Instruction::WaitKey { x }
            | Instruction::SetDelay { x }
            | Instruction::SetSound { x }
            | Instruction::AddIndex { x }
            | Instruction::FontAddr { x }
            | Instruction::StoreBcd { x }
            | Instruction::StoreRegs { x }
            | Instruction::LoadRegs { x } => x < 16,
        }
    }
}

impl Instruction {
    /// Checks that every operand fits its opcode field.
    pub fn well_formed(&self) -> (ok: bool)
        ensures
            ok == self.wf(),
    {
        match *self {
            Instruction::Nop | Instruction::ClearScreen | Instruction::Return => true,
            Instruction::Jump { addr }
            | Instruction::Call { addr }
            | Instruction::SetIndex { addr }
            | Instruction::JumpOffset { addr } => addr < 0x1000,
            Instruction::SkipEqImm { x, .. }
            | Instruction::SkipNeImm { x, .. }
            | Instruction::SetImm { x, .. }
            | Instruction::AddImm { x, .. }
            | Instruction::Random { x, .. } => x < 16,
            Instruction::SkipEqReg { x, y }
            | Instruction::Move { x, y }
            | Instruction::Or { x, y }
            | Instruction::And { x, y }
            | Instruction::Xor { x, y }
            | Instruction::AddCarry { x, y }
            | Instruction::SubBorrow { x, y }
            | Instruction::SubReverse { x, y }
            | Instruction::SkipNeReg { x, y } => x < 16 && y < 16,
            Instruction::Draw { x, y, rows } => x < 16 && y < 16 && rows < 16,
            Instruction::ShiftRight { x }
            | Instruction::ShiftLeft { x }
            | Instruction::SkipKey { x }
            | Instruction::SkipNoKey { x }
            | Instruction::GetDelay { x }
            | Instruction::WaitKey { x }
            | Instruction::SetDelay { x }
            | Instruction::SetSound { x }
            | Instruction::AddIndex { x }
            | Instruction::FontAddr { x }
            | Instruction::StoreBcd { x }
            | Instruction::StoreRegs { x }
            | Instruction::LoadRegs { x } => x < 16,
        }
    }
}

/// Masking and shifting an opcode yields its fields.
pub proof fn lemma_fields_by_mask(op: u16)
    ensures
        (op & 0xF000) >> 12 == op / 0x1000,
        (op & 0x0F00) >> 8 == op / 0x100 % 0x10,
        (op & 0x00F0) >> 4 == op / 0x10 % 0x10,
        op & 0x000F == op % 0x10,
        op & 0x00FF == op % 0x100,
        op & 0x0FFF == op % 0x1000,
{
    assert((op & 0xF000) >> 12 == op / 0x1000) by (bit_vector);
    assert((op & 0x0F00) >> 8 == op / 0x100 % 0x10) by (bit_vector);
    assert((op & 0x00F0) >> 4 == op / 0x10 % 0x10) by (bit_vector);
    assert(op & 0x000F == op % 0x10) by (bit_vector);
    assert(op & 0x00FF == op % 0x100) by (bit_vector);
    assert(op & 0x0FFF == op % 0x1000) by (bit_vector);
}

/// Whatever an opcode decodes to has operands that fit their fields.
pub proof fn lemma_decode_wf(op: u16)
    ensures
        decode_spec(op) matches Some(instr) ==> instr.wf(),
{
}

/// Decodes an opcode word. Returns `None` exactly for the words that are
/// outside the instruction set.
pub fn decode(op: u16) -> (r: Option<Instruction>)
    ensures
        r == decode_spec(op),
        r matches Some(instr) ==> instr.wf(),
{
    proof {
        lemma_fields_by_mask(op);
        lemma_decode_wf(op);
    }
    let class = ((op & 0xF000) >> 12) as u8;
    let x = ((op & 0x0F00) >> 8) as u8;
    let y = ((op & 0x00F0) >> 4) as u8;
    let n = (op & 0x000F) as u8;
    let nn = (op & 0x00FF) as u8;
    let addr = op & 0x0FFF;
    match (class, x, y, n) {
        (0x0, 0x0, 0x0, 0x0) => Some(Instruction::Nop),
        (0x0, 0x0, 0xE, 0x0) => Some(Instruction::ClearScreen),
        (0x0, 0x0, 0xE, 0xE) => Some(Instruction::Return),
        (0x1, _, _, _) => Some(Instruction::Jump { addr }),
        (0x2, _, _, _) => Some(Instruction::Call { addr }),
        (0x3, _, _, _) => Some(Instruction::SkipEqImm { x, nn }),
        (0x4, _, _, _) => Some(Instruction::SkipNeImm { x, nn }),
        (0x5, _, _, 0x0) => Some(Instruction::SkipEqReg { x, y }),
        (0x6, _, _, _) => Some(Instruction::SetImm { x, nn }),
        (0x7, _, _, _) => Some(Instruction::AddImm { x, nn }),
        (0x8, _, _, 0x0) => Some(Instruction::Move { x, y }),
        (0x8, _, _, 0x1) => Some(Instruction::Or { x, y }),
        (0x8, _, _, 0x2) => Some(Instruction::And { x, y }),
        (0x8, _, _, 0x3) => Some(Instruction::Xor { x, y }),
        (0x8, _, _, 0x4) => Some(Instruction::AddCarry { x, y }),
        (0x8, _, _, 0x5) => Some(Instruction::SubBorrow { x, y }),
        (0x8, _, _, 0x6) => Some(Instruction::ShiftRight { x }),
        (0x8, _, _, 0x7) => Some(Instruction::SubReverse { x, y }),
        (0x8, _, _, 0xE) => Some(Instruction::ShiftLeft { x }),
        (0x9, _, _, 0x0) => Some(Instruction::SkipNeReg { x, y }),
        (0xA, _, _, _) => Some(Instruction::SetIndex { addr }),
        (0xB, _, _, _) => Some(Instruction::JumpOffset { addr }),
        (0xC, _, _, _) => Some(Instruction::Random { x, nn }),
        (0xD, _, _, _) => Some(Instruction::Draw { x, y, rows: n }),
        (0xE, _, 0x9, 0xE) => Some(Instruction::SkipKey { x }),
        (0xE, _, 0xA, 0x1) => Some(Instruction::SkipNoKey { x }),
        (0xF, _, 0x0, 0x7) => Some(Instruction::GetDelay { x }),
        (0xF, _, 0x0, 0xA) => Some(Instruction::WaitKey { x }),
        (0xF, _, 0x1, 0x5) => Some(Instruction::SetDelay { x }),
        (0xF, _, 0x1, 0x8) => Some(Instruction::SetSound { x }),
        (0xF, _, 0x1, 0xE) => Some(Instruction::AddIndex { x }),
        (0xF, _, 0x2, 0x9) => Some(Instruction::FontAddr { x }),
        (0xF, _, 0x3, 0x3) => Some(Instruction::StoreBcd { x }),
        (0xF, _, 0x5, 0x5) => Some(Instruction::StoreRegs { x }),
        (0xF, _, 0x6, 0x5) => Some(Instruction::LoadRegs { x }),
        _ => None,
    }
}

} // verus!
