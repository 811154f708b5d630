//! Properties of the instruction set, proved over the model.

use vstd::prelude::*;
use crate::consts::FONTSET;
use crate::instruction::{lemma_decode_wf, Instruction};
use crate::machine::{
    cell_of, first_key_down, flag, lemma_cell_of, sprite_bit, sprite_col, sprite_row, Machine,
};

verus! {

/// The initial state: the program counter at the program start, the font in
/// the first eighty bytes of memory, the rest of memory zero, every
/// register and both timers zero, the stack empty, every pixel unlit and
/// every key up.
pub proof fn lemma_initial_state()
    ensures
        Machine::initial().wf(),
        Machine::initial().pc == 0x200,
        Machine::initial().i == 0,
        Machine::initial().sp == 0,
        Machine::initial().dt == 0,
        Machine::initial().st == 0,
        forall|a: int| 0 <= a < 80 ==> Machine::initial().ram[a] == FONTSET@[a],
        forall|a: int| 80 <= a < 4096 ==> Machine::initial().ram[a] == 0,
        forall|k: int| 0 <= k < 16 ==> Machine::initial().v[k] == 0,
        forall|k: int| 0 <= k < 16 ==> Machine::initial().stack[k] == 0,
        forall|k: int| 0 <= k < 16 ==> !Machine::initial().keys[k],
        forall|k: int| 0 <= k < 2048 ==> !Machine::initial().screen[k],
{
}

/// Executing a permitted instruction keeps the shape of the state: no
/// component changes its size and the stack pointer stays within the stack.
pub proof fn lemma_execute_wf(m: Machine, instr: Instruction, rnd: u8)
    requires
        m.wf(),
        m.permits(instr),
    ensures
        m.execute(instr, rnd).wf(),
{
}

/// What each instruction leaves alone. No instruction changes the keys. The
/// delay timer changes only when it is set, and so does the sound timer.
/// Only clearing and drawing change the framebuffer, only the two store
/// instructions change memory, only call and return change the stack and
/// its pointer, and only the three index instructions change `I`.
pub proof fn lemma_execute_frame(m: Machine, instr: Instruction, rnd: u8)
    requires
        m.wf(),
        m.permits(instr),
    ensures
        ({
            let after = m.execute(instr, rnd);
            &&& after.keys == m.keys
            &&& !(instr is SetDelay) ==> after.dt == m.dt
            &&& !(instr is SetSound) ==> after.st == m.st
            &&& !(instr is ClearScreen || instr is Draw) ==> after.screen == m.screen
            &&& !(instr is StoreBcd || instr is StoreRegs) ==> after.ram == m.ram
            &&& !(instr is Call || instr is Return) ==> after.stack == m.stack && after.sp == m.sp
            &&& !(instr is SetIndex || instr is AddIndex || instr is FontAddr) ==> after.i == m.i
        }),
{
}

/// A cycle moves the program counter past exactly one instruction, unless
/// the instruction is a jump, a call, a return, a skip or the key wait.
pub proof fn lemma_step_advances(m: Machine, rnd: u8)
    requires
        m.wf(),
        m.can_step(),
        m.next_instruction() matches Some(instr) && !(instr is Jump || instr is JumpOffset
            || instr is Call || instr is Return || instr is SkipEqImm || instr is SkipNeImm
            || instr is SkipEqReg || instr is SkipNeReg || instr is SkipKey || instr is SkipNoKey
            || instr is WaitKey),
    ensures
        m.step(rnd).pc == m.pc + 2,
{
}

/// A skip moves the program counter past one instruction more than a plain
/// instruction does if its condition holds, and not otherwise.
pub proof fn lemma_skip(m: Machine, cond: bool)
    requires
        m.pc + 4 <= u16::MAX,
    ensures
        m.advanced().skip_when(cond).pc == m.pc + (if cond { 4int } else { 2int }),
        m.advanced().skip_when(cond) == (Machine { pc: m.advanced().skip_when(cond).pc, ..m }),
{
}

/// Only the random instruction looks at the random byte.
pub proof fn lemma_random_byte_unused(m: Machine, instr: Instruction, r1: u8, r2: u8)
    requires
        !(instr is Random),
    ensures
        m.execute(instr, r1) == m.execute(instr, r2),
{
}

/// The random instruction leaves in `Vx` a byte none of whose bits lies
/// outside the mask.
pub proof fn lemma_random_masked(m: Machine, x: u8, nn: u8, rnd: u8)
    requires
        m.wf(),
        x < 16,
    ensures
        m.execute(Instruction::Random { x, nn }, rnd).v[x as int] & !nn == 0,
        m.execute(Instruction::Random { x, nn }, rnd).v[x as int] <= nn,
{
    assert((rnd & nn) & !nn == 0) by (bit_vector);
    assert(rnd & nn <= nn) by (bit_vector);
}

/// Add with carry: the flag becomes 1 if the sum of the two registers does
/// not fit in eight bits and 0 otherwise; a destination other than the flag
/// register receives the sum modulo 256; no other register and nothing
/// else changes.
pub proof fn lemma_add_with_carry(m: Machine, x: u8, y: u8, rnd: u8)
    requires
        m.wf(),
        x < 16,
        y < 16,
    ensures
        ({
            let after = m.execute(Instruction::AddCarry { x, y }, rnd);
            let sum = m.v[x as int] + m.v[y as int];
            &&& after.v[0xF] == (if sum >= 256 { 1u8 } else { 0u8 })
            &&& x != 0xF ==> after.v[x as int] == sum % 256
            &&& forall|k: int| 0 <= k < 0xF && k != x ==> after.v[k] == m.v[k]
            &&& after == (Machine { v: after.v, ..m })
        }),
{
}

/// Subtract with borrow: the flag becomes 1 if `Vx >= Vy` and 0 otherwise;
/// a destination other than the flag register receives the difference
/// modulo 256; no other register and nothing else changes.
pub proof fn lemma_sub_with_borrow(m: Machine, x: u8, y: u8, rnd: u8)
    requires
        m.wf(),
        x < 16,
        y < 16,
    ensures
        ({
            let after = m.execute(Instruction::SubBorrow { x, y }, rnd);
            let (a, b) = (m.v[x as int], m.v[y as int]);
            &&& after.v[0xF] == (if a >= b { 1u8 } else { 0u8 })
            &&& x != 0xF ==> after.v[x as int] == (a - b) % 256
            &&& forall|k: int| 0 <= k < 0xF && k != x ==> after.v[k] == m.v[k]
            &&& after == (Machine { v: after.v, ..m })
        }),
{
}

/// Reverse subtract: as subtract with borrow, with the operands exchanged
/// and the result still in `Vx`.
pub proof fn lemma_sub_reversed(m: Machine, x: u8, y: u8, rnd: u8)
    requires
        m.wf(),
        x < 16,
        y < 16,
    ensures
        ({
            let after = m.execute(Instruction::SubReverse { x, y }, rnd);
            let (a, b) = (m.v[x as int], m.v[y as int]);
            &&& after.v[0xF] == (if b >= a { 1u8 } else { 0u8 })
            &&& x != 0xF ==> after.v[x as int] == (b - a) % 256
            &&& forall|k: int| 0 <= k < 0xF && k != x ==> after.v[k] == m.v[k]
            &&& after == (Machine { v: after.v, ..m })
        }),
{
}

/// The shifts, on a register other than the flag register: the register is
/// halved or doubled, and the bit that falls off is the flag, so that
/// nothing of the old value is lost.
pub proof fn lemma_shifts(m: Machine, x: u8, rnd: u8)
    requires
        m.wf(),
        x < 0xF,
    ensures
        ({
            let right = m.execute(Instruction::ShiftRight { x }, rnd);
            let left = m.execute(Instruction::ShiftLeft { x }, rnd);
            let a = m.v[x as int];
            &&& right.v[0xF] <= 1
            &&& left.v[0xF] <= 1
            &&& a == 2 * right.v[x as int] + right.v[0xF]
            &&& 2 * a == 256 * left.v[0xF] + left.v[x as int]
        }),
{
}

/// The three bytes that the decimal instruction stores are decimal digits,
/// and they are the digits of `Vx`.
pub proof fn lemma_bcd_digits(m: Machine, x: u8, rnd: u8)
    requires
        m.wf(),
        x < 16,
        m.i + 2 < 4096,
    ensures
        ({
            let after = m.execute(Instruction::StoreBcd { x }, rnd);
            let (h, t, o) = (after.ram[m.i as int], after.ram[m.i + 1], after.ram[m.i + 2]);
            &&& h < 10 && t < 10 && o < 10
            &&& m.v[x as int] == 100 * h + 10 * t + o
            &&& forall|a: int| 0 <= a < 4096 && !(m.i <= a <= m.i + 2) ==> after.ram[a] == m.ram[a]
        }),
{
}

/// Loading the registers back from where they were stored changes no
/// register, and storing changes memory nowhere else.
pub proof fn lemma_store_then_load(m: Machine, x: u8, rnd: u8)
    requires
        m.wf(),
        x < 16,
        x == 0 || m.i + x <= 4096,
    ensures
        ({
            let stored = m.execute(Instruction::StoreRegs { x }, rnd);
            &&& forall|k: int| 0 <= k < x ==> stored.ram[m.i + k] == m.v[k]
            &&& forall|a: int| 0 <= a < 4096 && !(m.i <= a < m.i + x) ==> stored.ram[a] == m.ram[a]
            &&& stored.execute(Instruction::LoadRegs { x }, rnd) == stored
        }),
{
    let stored = m.execute(Instruction::StoreRegs { x }, rnd);
    assert(stored.load_regs(x).v =~= stored.v);
}

/// The stack is last in, first out: a return after a call continues where
/// the call was made and leaves the stack pointer and the live entries of
/// the stack as they were.
pub proof fn lemma_call_then_return(m: Machine, addr: u16, rnd: u8)
    requires
        m.wf(),
        m.sp < 16,
    ensures
        ({
            let called = m.execute(Instruction::Call { addr }, rnd);
            let back = called.execute(Instruction::Return, rnd);
            &&& called.pc == addr
            &&& called.sp == m.sp + 1
            &&& back.pc == m.pc
            &&& back.sp == m.sp
            &&& forall|k: int| 0 <= k < m.sp ==> back.stack[k] == m.stack[k]
            &&& back == (Machine { stack: back.stack, ..m })
        }),
{
}

/// The key scan yields a key exactly if one is held down, and then the
/// lowest one.
pub proof fn lemma_first_key_down(keys: Seq<bool>, from: int)
    requires
        0 <= from,
        keys.len() <= 256,
    ensures
        match first_key_down(keys, from) {
            Some(k) => from <= k < keys.len() && keys[k as int] && forall|j: int|
                from <= j < k ==> !keys[j],
            None => forall|j: int| from <= j < keys.len() ==> !keys[j],
        },
    decreases keys.len() - from,
{
    if from < keys.len() && !keys[from] {
        lemma_first_key_down(keys, from + 1);
    }
}

/// A cycle that meets the key-wait instruction while no key is held down
/// leaves the whole state as it was, the program counter included.
pub proof fn lemma_wait_without_key(m: Machine, x: u8, rnd: u8)
    requires
        m.wf(),
        m.can_fetch(),
        m.next_instruction() == Some(Instruction::WaitKey { x }),
        forall|k: int| 0 <= k < 16 ==> !m.keys[k],
    ensures
        m.can_step(),
        m.step(rnd) == m,
{
    lemma_first_key_down(m.keys, 0);
    lemma_decode_wf(m.opcode());
}

/// A cycle that meets the key-wait instruction while a key is held down
/// stores the lowest such key in `Vx` and goes on to the next instruction.
pub proof fn lemma_wait_with_key(m: Machine, x: u8, key: u8, rnd: u8)
    requires
        m.wf(),
        m.can_fetch(),
        m.next_instruction() == Some(Instruction::WaitKey { x }),
        key < 16,
        m.keys[key as int],
        forall|k: int| 0 <= k < key ==> !m.keys[k],
    ensures
        m.can_step(),
        m.step(rnd) == m.advanced().with_reg(x, key),
{
    lemma_first_key_down(m.keys, 0);
    lemma_decode_wf(m.opcode());
}

/// Pixel `c` of a sprite row is bit `7 - c` of its byte.
pub proof fn lemma_sprite_bit(row: u8)
    ensures
        sprite_bit(row, 0) <==> row / 128 % 2 == 1,
        sprite_bit(row, 1) <==> row / 64 % 2 == 1,
        sprite_bit(row, 2) <==> row / 32 % 2 == 1,
        sprite_bit(row, 3) <==> row / 16 % 2 == 1,
        sprite_bit(row, 4) <==> row / 8 % 2 == 1,
        sprite_bit(row, 5) <==> row / 4 % 2 == 1,
        sprite_bit(row, 6) <==> row / 2 % 2 == 1,
        sprite_bit(row, 7) <==> row % 2 == 1,
{
    assert((row & (0x80u8 >> 0u8) != 0) <==> row / 128 % 2 == 1) by (bit_vector);
    assert((row & (0x80u8 >> 1u8) != 0) <==> row / 64 % 2 == 1) by (bit_vector);
    assert((row & (0x80u8 >> 2u8) != 0) <==> row / 32 % 2 == 1) by (bit_vector);
    assert((row & (0x80u8 >> 3u8) != 0) <==> row / 16 % 2 == 1) by (bit_vector);
    assert((row & (0x80u8 >> 4u8) != 0) <==> row / 8 % 2 == 1) by (bit_vector);
    assert((row & (0x80u8 >> 5u8) != 0) <==> row / 4 % 2 == 1) by (bit_vector);
    assert((row & (0x80u8 >> 6u8) != 0) <==> row / 2 % 2 == 1) by (bit_vector);
    assert((row & (0x80u8 >> 7u8) != 0) <==> row % 2 == 1) by (bit_vector);
}

/// Where the sprite's pixels land: a cell is covered exactly if a set pixel
/// of the sprite, in column `c` of row `r`, falls on it, the cell in column
/// `(vx + c) mod 64` of row `(vy + r) mod 32`.
pub proof fn lemma_sprite_covers(m: Machine, vx: u8, vy: u8, rows: u8, cell: int)
    requires
        rows <= 32,
        0 <= cell < 2048,
    ensures
        m.sprite_covers(vx, vy, rows, cell) <==> exists|r: int, c: int|
            0 <= r < rows && 0 <= c < 8 && sprite_bit(m.ram[m.i + r], c as u8) && cell
                == #[trigger] cell_of(vx, vy, r, c),
{
    if m.sprite_covers(vx, vy, rows, cell) {
        let c = sprite_col(vx, cell);
        let r = sprite_row(vy, cell);
        lemma_cell_of(vx, vy, r, c, cell);
        assert(cell == cell_of(vx, vy, r, c));
    }
    if exists|r: int, c: int|
        0 <= r < rows && 0 <= c < 8 && sprite_bit(m.ram[m.i + r], c as u8) && cell
            == #[trigger] cell_of(vx, vy, r, c) {
        let (r, c) = choose|r: int, c: int|
            0 <= r < rows && 0 <= c < 8 && sprite_bit(m.ram[m.i + r], c as u8) && cell
                == #[trigger] cell_of(vx, vy, r, c);
        lemma_cell_of(vx, vy, r, c, cell);
    }
}

/// Drawing flips exactly the cells on which a set pixel of the sprite falls,
/// and changes nothing but the framebuffer and the flag register.
pub proof fn lemma_draw_pixels(m: Machine, x: u8, y: u8, rows: u8, rnd: u8)
    requires
        m.wf(),
        x < 16,
        y < 16,
        rows < 16,
    ensures
        ({
            let after = m.execute(Instruction::Draw { x, y, rows }, rnd);
            let (vx, vy) = (m.v[x as int], m.v[y as int]);
            &&& forall|r: int, c: int|
                0 <= r < rows && 0 <= c < 8 && sprite_bit(m.ram[m.i + r], c as u8)
                    ==> after.screen[#[trigger] cell_of(vx, vy, r, c)] != m.screen[cell_of(
                    vx,
                    vy,
                    r,
                    c,
                )]
            &&& forall|cell: int|
                0 <= cell < 2048 && !m.sprite_covers(vx, vy, rows, cell) ==> after.screen[cell]
                    == m.screen[cell]
            &&& forall|k: int| 0 <= k < 0xF ==> after.v[k] == m.v[k]
            &&& after == (Machine { screen: after.screen, v: after.v, ..m })
        }),
{
    let after = m.execute(Instruction::Draw { x, y, rows }, rnd);
    let (vx, vy) = (m.v[x as int], m.v[y as int]);
    assert forall|r: int, c: int|
        0 <= r < rows && 0 <= c < 8 && sprite_bit(
            m.ram[m.i + r],
            c as u8,
        ) implies after.screen[#[trigger] cell_of(vx, vy, r, c)] != m.screen[cell_of(vx, vy, r, c)] by {
        let cell = cell_of(vx, vy, r, c);
        lemma_cell_of(vx, vy, r, c, 0);
        lemma_sprite_covers(m, vx, vy, rows, cell);
    }
}

/// The collision flag after a draw is 1 exactly if a set pixel of the sprite
/// fell on a cell that was lit before the draw, and 0 otherwise.
pub proof fn lemma_draw_collision(m: Machine, x: u8, y: u8, rows: u8, rnd: u8)
    requires
        m.wf(),
        x < 16,
        y < 16,
        rows < 16,
    ensures
        ({
            let after = m.execute(Instruction::Draw { x, y, rows }, rnd);
            let (vx, vy) = (m.v[x as int], m.v[y as int]);
            let hit = exists|r: int, c: int|
                0 <= r < rows && 0 <= c < 8 && sprite_bit(m.ram[m.i + r], c as u8)
                    && m.screen[#[trigger] cell_of(vx, vy, r, c)];
            &&& hit ==> after.v[0xF] == 1
            &&& !hit ==> after.v[0xF] == 0
        }),
{
    let (vx, vy) = (m.v[x as int], m.v[y as int]);
    let hit = exists|r: int, c: int|
        0 <= r < rows && 0 <= c < 8 && sprite_bit(m.ram[m.i + r], c as u8)
            && m.screen[#[trigger] cell_of(vx, vy, r, c)];
    if hit {
        let (r, c) = choose|r: int, c: int|
            0 <= r < rows && 0 <= c < 8 && sprite_bit(m.ram[m.i + r], c as u8)
                && m.screen[#[trigger] cell_of(vx, vy, r, c)];
        let cell = cell_of(vx, vy, r, c);
        lemma_cell_of(vx, vy, r, c, 0);
        lemma_sprite_covers(m, vx, vy, rows, cell);
        assert(m.sprite_covers(vx, vy, rows, cell));
        assert(m.sprite_collides(vx, vy, rows));
    }
    if m.sprite_collides(vx, vy, rows) {
        let cell = choose|cell: int|
            0 <= cell < 2048 && m.screen[cell] && #[trigger] m.sprite_covers(vx, vy, rows, cell);
        lemma_sprite_covers(m, vx, vy, rows, cell);
        let (r, c) = choose|r: int, c: int|
            0 <= r < rows && 0 <= c < 8 && sprite_bit(m.ram[m.i + r], c as u8) && cell
                == #[trigger] cell_of(vx, vy, r, c);
        assert(m.screen[cell_of(vx, vy, r, c)]);
        assert(hit);
    }
}

/// Drawing a sprite a second time at the same place undoes the first draw:
/// the framebuffer is as it was. The second draw reports a collision
/// exactly if the first one lit a pixel, that is, if the sprite covers a
/// cell that was unlit at the start. The coordinates must not come from the
/// flag register, which the first draw overwrites.
pub proof fn lemma_draw_twice(m: Machine, x: u8, y: u8, rows: u8, rnd: u8)
    requires
        m.wf(),
        x < 0xF,
        y < 0xF,
        rows < 16,
    ensures
        ({
            let once = m.execute(Instruction::Draw { x, y, rows }, rnd);
            let twice = once.execute(Instruction::Draw { x, y, rows }, rnd);
            let (vx, vy) = (m.v[x as int], m.v[y as int]);
            let lit_by_first = exists|cell: int|
                0 <= cell < 2048 && !m.screen[cell] && #[trigger] m.sprite_covers(
                    vx,
                    vy,
                    rows,
                    cell,
                );
            &&& twice.screen == m.screen
            &&& twice.v[0xF] == flag(lit_by_first)
            &&& twice == (Machine { v: twice.v, ..m })
        }),
{
    let once = m.execute(Instruction::Draw { x, y, rows }, rnd);
    let twice = once.execute(Instruction::Draw { x, y, rows }, rnd);
    let (vx, vy) = (m.v[x as int], m.v[y as int]);
    assert forall|cell: int| 0 <= cell < 2048 implies once.sprite_covers(vx, vy, rows, cell)
        == m.sprite_covers(vx, vy, rows, cell) by {}
    assert(twice.screen =~= m.screen);
    let lit_by_first = exists|cell: int|
        0 <= cell < 2048 && !m.screen[cell] && #[trigger] m.sprite_covers(vx, vy, rows, cell);
    if lit_by_first {
        let cell = choose|cell: int|
            0 <= cell < 2048 && !m.screen[cell] && #[trigger] m.sprite_covers(vx, vy, rows, cell);
        assert(once.screen[cell] && once.sprite_covers(vx, vy, rows, cell));
    }
    if once.sprite_collides(vx, vy, rows) {
        let cell = choose|cell: int|
            0 <= cell < 2048 && once.screen[cell] && #[trigger] once.sprite_covers(
                vx,
                vy,
                rows,
                cell,
            );
        assert(!m.screen[cell] && m.sprite_covers(vx, vy, rows, cell));
    }
}

} // verus!
