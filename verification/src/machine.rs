//! The mathematical model of the machine: its state as a value, and the
//! effect of every instruction as a function from state to state.

use vstd::prelude::*;
use crate::consts::FONTSET;
use crate::instruction::{decode_spec, Instruction};

verus! {

/// The architectural state of the machine.
pub struct Machine {
    /// Address of the next instruction.
    pub pc: u16,
    /// The 4096 bytes of memory.
    pub ram: Seq<u8>,
    /// The 64 x 32 framebuffer, row by row; `true` is a lit pixel.
    pub screen: Seq<bool>,
    /// The registers `V0`..`VF`.
    pub v: Seq<u8>,
    /// The index register `I`.
    pub i: u16,
    /// Number of return addresses on the stack.
    pub sp: u16,
    /// The return-address stack; its live entries are those below `sp`.
    pub stack: Seq<u16>,
    /// For each key, whether it is held down.
    pub keys: Seq<bool>,
    /// The delay timer.
    pub dt: u8,
    /// The sound timer.
    pub st: u8,
}

/// Whether pixel `c` of a sprite row is set; pixel 0 is the leftmost one and
/// sits in the highest-order bit.
pub open spec fn sprite_bit(row: u8, c: u8) -> bool {
    row & (0x80u8 >> c) != 0
}

/// The sprite column that falls on framebuffer cell `cell` when the sprite's
/// left edge is at column `vx`.
pub open spec fn sprite_col(vx: u8, cell: int) -> int {
    (cell % 64 - vx) % 64
}

/// The sprite row that falls on framebuffer cell `cell` when the sprite's
/// top edge is at row `vy`.
pub open spec fn sprite_row(vy: u8, cell: int) -> int {
    (cell / 64 - vy) % 32
}

/// The framebuffer cell on which pixel `c` of row `r` of a sprite falls.
pub open spec fn cell_of(vx: u8, vy: u8, r: int, c: int) -> int {
    (vx + c) % 64 + ((vy + r) % 32) * 64
}

/// A cell carries pixel `c` of row `r` exactly if it is the cell that this
/// pixel falls on.
pub proof fn lemma_cell_of(vx: u8, vy: u8, r: int, c: int, cell: int)
    requires
        0 <= r < 32,
        0 <= c < 64,
        0 <= cell < 2048,
    ensures
        0 <= cell_of(vx, vy, r, c) < 2048,
        (sprite_col(vx, cell) == c && sprite_row(vy, cell) == r) <==> cell == cell_of(vx, vy, r, c),
{
}

/// The value of a flag register: 1 for `true`, 0 for `false`.
pub open spec fn flag(b: bool) -> u8 {
    if b {
        1
    } else {
        0
    }
}

/// The lowest index at or above `from` of a key that is held down.
pub open spec fn first_key_down(keys: Seq<bool>, from: int) -> Option<u8>
    decreases keys.len() - from,
{
    if from < 0 || from >= keys.len() {
        None
    } else if keys[from] {
        Some(from as u8)
    } else {
        first_key_down(keys, from + 1)
    }
}

impl Machine {
    /// Every component has its fixed size, and the stack pointer is within
    /// the stack's capacity.
    pub open spec fn wf(self) -> bool {
        &&& self.ram.len() == 4096
        &&& self.screen.len() == 2048
        &&& self.v.len() == 16
        &&& self.stack.len() == 16
        &&& self.keys.len() == 16
        &&& self.sp <= 16
    }

    /// The state after power-on: the font in low memory, the program counter
    /// at the program start, everything else zero.
    pub open spec fn initial() -> Machine {
        Machine {
            pc: 0x200,
            ram: Seq::new(4096, |a: int| if 0 <= a < 80 { FONTSET@[a] } else { 0u8 }),
            screen: Seq::new(2048, |k: int| false),
            v: Seq::new(16, |k: int| 0u8),
            i: 0,
            sp: 0,
            stack: Seq::new(16, |k: int| 0u16),
            keys: Seq::new(16, |k: int| false),
            dt: 0,
            st: 0,
        }
    }

    /// The state after `data` has been copied to the program start.
    pub open spec fn loaded(self, data: Seq<u8>) -> Machine {
        Machine {
            ram: Seq::new(
                4096,
                |a: int| if 0x200 <= a < 0x200 + data.len() { data[a - 0x200] } else { self.ram[a] },
            ),
            ..self
        }
    }

    /// The state after one tick of the timers: each goes down by one and
    /// stops at zero.
    pub open spec fn timers_ticked(self) -> Machine {
        Machine {
            dt: if self.dt > 0 { (self.dt - 1) as u8 } else { 0 },
            st: if self.st > 0 { (self.st - 1) as u8 } else { 0 },
            ..self
        }
    }

    /// The state after key `idx` has been pressed or released.
    pub open spec fn key_set(self, idx: int, pressed: bool) -> Machine {
        Machine { keys: self.keys.update(idx, pressed), ..self }
    }

    /// Both bytes of the next opcode lie within memory.
    pub open spec fn can_fetch(self) -> bool {
        self.pc + 1 < 4096
    }

    /// The opcode at the program counter: two bytes, high byte first.
    pub open spec fn opcode(self) -> u16 {
        (self.ram[self.pc as int] * 256 + self.ram[self.pc + 1]) as u16
    }

    /// The state with the program counter moved past one instruction.
    pub open spec fn advanced(self) -> Machine {
        Machine { pc: (self.pc + 2) as u16, ..self }
    }

    /// The state with the program counter moved back by one instruction.
    pub open spec fn rewound(self) -> Machine {
        Machine { pc: (self.pc - 2) as u16, ..self }
    }

    /// The state with the next instruction skipped if `cond` holds.
    pub open spec fn skip_when(self, cond: bool) -> Machine {
        if cond {
            self.advanced()
        } else {
            self
        }
    }

    /// The state with register `x` set to `val`.
    pub open spec fn with_reg(self, x: u8, val: u8) -> Machine {
        Machine { v: self.v.update(x as int, val), ..self }
    }

    /// The state with register `x` set to `val` and then the flag register
    /// set to `f`. The flag is written last, so it wins where `x` is `VF`.
    pub open spec fn with_reg_and_flag(self, x: u8, val: u8, f: u8) -> Machine {
        Machine { v: self.v.update(x as int, val).update(0xF, f), ..self }
    }

    /// `00E0`: every pixel unlit.
    pub open spec fn clear_screen(self) -> Machine {
        Machine { screen: Seq::new(2048, |k: int| false), ..self }
    }

    /// `00EE`: the top of the stack popped into the program counter.
    pub open spec fn ret(self) -> Machine {
        Machine { pc: self.stack[self.sp - 1], sp: (self.sp - 1) as u16, ..self }
    }

    /// `1NNN`.
    pub open spec fn jump(self, addr: u16) -> Machine {
        Machine { pc: addr, ..self }
    }

    /// `2NNN`: the program counter pushed, then set to `addr`.
    pub open spec fn call(self, addr: u16) -> Machine {
        Machine {
            pc: addr,
            sp: (self.sp + 1) as u16,
            stack: self.stack.update(self.sp as int, self.pc),
            ..self
        }
    }

    /// `7XNN`: wrapping addition of an immediate, flag untouched.
    pub open spec fn add_imm(self, x: u8, nn: u8) -> Machine {
        self.with_reg(x, ((self.v[x as int] + nn) % 256) as u8)
    }

    /// `8XY4`: wrapping addition; the flag is the carry out of bit 7.
    pub open spec fn add_carry(self, x: u8, y: u8) -> Machine {
        let sum = self.v[x as int] + self.v[y as int];
        self.with_reg_and_flag(x, (sum % 256) as u8, flag(sum >= 256))
    }

    /// `8XY5`: wrapping subtraction `Vx - Vy`; the flag is 1 where no borrow
    /// occurred.
    pub open spec fn sub_borrow(self, x: u8, y: u8) -> Machine {
        let (a, b) = (self.v[x as int], self.v[y as int]);
        self.with_reg_and_flag(x, ((a - b) % 256) as u8, flag(a >= b))
    }

    /// `8XY7`: wrapping subtraction `Vy - Vx`, stored in `Vx`, the register
    /// that the opcode's second nibble names; the flag is 1 where no borrow
    /// occurred.
    pub open spec fn sub_reverse(self, x: u8, y: u8) -> Machine {
        let (a, b) = (self.v[x as int], self.v[y as int]);
        self.with_reg_and_flag(x, ((b - a) % 256) as u8, flag(b >= a))
    }

    /// `8XY6`: `Vx` halved; the flag is the bit that fell off.
    pub open spec fn shift_right(self, x: u8) -> Machine {
        let a = self.v[x as int];
        self.with_reg_and_flag(x, a / 2, a % 2)
    }

    /// `8XYE`: `Vx` doubled, truncated to eight bits; the flag is the bit
    /// that fell off, bit 7 of the old `Vx`, as 0 or 1.
    pub open spec fn shift_left(self, x: u8) -> Machine {
        let a = self.v[x as int];
        self.with_reg_and_flag(x, ((a * 2) % 256) as u8, a / 128)
    }

    /// `BNNN`.
    pub open spec fn jump_offset(self, addr: u16) -> Machine {
        Machine { pc: (self.v[0] + addr) as u16, ..self }
    }

    /// `FX0A`: the lowest key held down goes to `Vx`; with no key down the
    /// program counter goes back to this instruction.
    pub open spec fn wait_key(self, x: u8) -> Machine {
        match first_key_down(self.keys, 0) {
            Some(k) => self.with_reg(x, k),
            None => self.rewound(),
        }
    }

    /// `FX1E`: wrapping at sixteen bits.
    pub open spec fn add_index(self, x: u8) -> Machine {
        Machine { i: ((self.i + self.v[x as int]) % 0x10000) as u16, ..self }
    }

    /// `FX29`: glyphs are five bytes each and start at address 0. A `Vx`
    /// above 15 names no glyph; the address is computed all the same.
    pub open spec fn font_addr(self, x: u8) -> Machine {
        Machine { i: (self.v[x as int] * 5) as u16, ..self }
    }

    /// `FX33`: hundreds, tens and ones of `Vx` at `I`, `I+1`, `I+2`.
    pub open spec fn store_bcd(self, x: u8) -> Machine {
        let a = self.v[x as int];
        Machine {
            ram: self.ram.update(self.i as int, a / 100).update(self.i + 1, a / 10 % 10).update(
                self.i + 2,
                a % 10,
            ),
            ..self
        }
    }

    /// `FX55`: the `x` registers `V0`..`V(x-1)` copied to memory at `I`;
    /// `Vx` itself is not copied, and `I` stays.
    pub open spec fn store_regs(self, x: u8) -> Machine {
        Machine {
            ram: Seq::new(
                4096,
                |a: int| if self.i <= a < self.i + x { self.v[a - self.i] } else { self.ram[a] },
            ),
            ..self
        }
    }

    /// `FX65`: the `x` registers `V0`..`V(x-1)` filled from memory at `I`;
    /// `Vx` itself is not filled, and `I` stays.
    pub open spec fn load_regs(self, x: u8) -> Machine {
        Machine {
            v: Seq::new(16, |k: int| if k < x { self.ram[self.i + k] } else { self.v[k] }),
            ..self
        }
    }

    /// Whether a sprite of `rows` rows at `I`, drawn with its top left
    /// corner at column `vx` and row `vy`, has a set pixel on framebuffer
    /// cell `cell`. Columns wrap modulo 64 and rows modulo 32.
    pub open spec fn sprite_covers(self, vx: u8, vy: u8, rows: u8, cell: int) -> bool {
        let c = sprite_col(vx, cell);
        let r = sprite_row(vy, cell);
        c < 8 && r < rows && sprite_bit(self.ram[self.i + r], c as u8)
    }

    /// Whether drawing the sprite turns off a pixel: some cell that it
    /// covers is lit.
    pub open spec fn sprite_collides(self, vx: u8, vy: u8, rows: u8) -> bool {
        exists|cell: int|
            0 <= cell < 2048 && self.screen[cell] && #[trigger] self.sprite_covers(
                vx,
                vy,
                rows,
                cell,
            )
    }

    /// `DXYN`: every cell that the sprite covers is flipped; the flag says
    /// whether a lit pixel went out.
    pub open spec fn draw(self, x: u8, y: u8, rows: u8) -> Machine {
        let (vx, vy) = (self.v[x as int], self.v[y as int]);
        Machine {
            screen: Seq::new(
                2048,
                |cell: int| self.screen[cell] != self.sprite_covers(vx, vy, rows, cell),
            ),
            v: self.v.update(0xF, flag(self.sprite_collides(vx, vy, rows))),
            ..self
        }
    }

    /// Whether `instr` can be executed in this state: its operands fit, and
    /// it stays within memory, the stack, the keypad and the range of the
    /// program counter.
    pub open spec fn permits(self, instr: Instruction) -> bool {
        &&& instr.wf()
        &&& match instr {
            Instruction::Return => 0 < self.sp,
            Instruction::Call { .. } => self.sp < 16,
            Instruction::SkipEqImm { x, nn } => self.v[x as int] == nn ==> self.pc + 2 <= u16::MAX,
            Instruction::SkipNeImm { x, nn } => self.v[x as int] != nn ==> self.pc + 2 <= u16::MAX,
            Instruction::SkipEqReg { x, y } => self.v[x as int] == self.v[y as int] ==> self.pc
                + 2 <= u16::MAX,
            Instruction::SkipNeReg { x, y } => self.v[x as int] != self.v[y as int] ==> self.pc
                + 2 <= u16::MAX,
            Instruction::SkipKey { x } => {
                &&& self.v[x as int] < 16
                &&& self.keys[self.v[x as int] as int] ==> self.pc + 2 <= u16::MAX
            },
            Instruction::SkipNoKey { x } => {
                &&& self.v[x as int] < 16
                &&& !self.keys[self.v[x as int] as int] ==> self.pc + 2 <= u16::MAX
            },
            Instruction::WaitKey { .. } => first_key_down(self.keys, 0) is None ==> self.pc >= 2,
            Instruction::Draw { rows, .. } => rows == 0 || self.i + rows <= 4096,
            Instruction::StoreBcd { .. } => self.i + 2 < 4096,
            Instruction::StoreRegs { x } | Instruction::LoadRegs { x } => x == 0 || self.i + x
                <= 4096,
            _ => true,
        }
    }

    /// The state after `instr` has been executed, the program counter having
    /// been moved past it already. `rnd` is the byte that the random
    /// instruction draws; no other instruction looks at it.
    pub open spec fn execute(self, instr: Instruction, rnd: u8) -> Machine {
        match instr {
            Instruction::Nop => self,
            Instruction::ClearScreen => self.clear_screen(),
            Instruction::Return => self.ret(),
            Instruction::Jump { addr } => self.jump(addr),
            Instruction::Call { addr } => self.call(addr),
            Instruction::SkipEqImm { x, nn } => self.skip_when(self.v[x as int] == nn),
            Instruction::SkipNeImm { x, nn } => self.skip_when(self.v[x as int] != nn),
            Instruction::SkipEqReg { x, y } => self.skip_when(self.v[x as int] == self.v[y as int]),
            Instruction::SetImm { x, nn } => self.with_reg(x, nn),
            Instruction::AddImm { x, nn } => self.add_imm(x, nn),
            Instruction::Move { x, y } => self.with_reg(x, self.v[y as int]),
            Instruction::Or { x, y } => self.with_reg(x, self.v[x as int] | self.v[y as int]),
            Instruction::And { x, y } => self.with_reg(x, self.v[x as int] & self.v[y as int]),
            Instruction::Xor { x, y } => self.with_reg(x, self.v[x as int] ^ self.v[y as int]),
            Instruction::AddCarry { x, y } => self.add_carry(x, y),
            Instruction::SubBorrow { x, y } => self.sub_borrow(x, y),
            Instruction::ShiftRight { x } => self.shift_right(x),
            Instruction::SubReverse { x, y } => self.sub_reverse(x, y),
            Instruction::ShiftLeft { x } => self.shift_left(x),
            Instruction::SkipNeReg { x, y } => self.skip_when(self.v[x as int] != self.v[y as int]),
            Instruction::SetIndex { addr } => Machine { i: addr, ..self },
            Instruction::JumpOffset { addr } => self.jump_offset(addr),
            Instruction::Random { x, nn } => self.with_reg(x, rnd & nn),
            Instruction::Draw { x, y, rows } => self.draw(x, y, rows),
            Instruction::SkipKey { x } => self.skip_when(self.keys[self.v[x as int] as int]),
            Instruction::SkipNoKey { x } => self.skip_when(!self.keys[self.v[x as int] as int]),
            Instruction::GetDelay { x } => self.with_reg(x, self.dt),
            Instruction::WaitKey { x } => self.wait_key(x),
            Instruction::SetDelay { x } => Machine { dt: self.v[x as int], ..self },
            Instruction::SetSound { x } => Machine { st: self.v[x as int], ..self },
            Instruction::AddIndex { x } => self.add_index(x),
            Instruction::FontAddr { x } => self.font_addr(x),
            Instruction::StoreBcd { x } => self.store_bcd(x),
            Instruction::StoreRegs { x } => self.store_regs(x),
            Instruction::LoadRegs { x } => self.load_regs(x),
        }
    }

    /// The instruction at the program counter, if the word there is one.
    pub open spec fn next_instruction(self) -> Option<Instruction> {
        decode_spec(self.opcode())
    }

    /// Whether one full cycle can run: the opcode lies within memory, it
    /// belongs to the instruction set, and the state permits it.
    pub open spec fn can_step(self) -> bool {
        &&& self.can_fetch()
        &&& self.next_instruction() matches Some(instr) && self.advanced().permits(instr)
    }

    /// The state after one full cycle: fetch, advance, execute.
    pub open spec fn step(self, rnd: u8) -> Machine {
        self.advanced().execute(self.next_instruction().unwrap(), rnd)
    }
}

} // verus!
