//! The executable machine and the interface that a host drives it through.

use vstd::prelude::*;
use crate::consts::{
    FONTSET, FONTSET_SIZE, NUM_KEYS, NUM_REGS, RAM_SIZE, SCREEN_SIZE, STACK_SIZE, START_ADDR,
};
use crate::instruction::{decode, Instruction};
use crate::machine::Machine;
use crate::random::random_byte;

verus! {

/// A CHIP-8 machine. Its state is the value `self@`.
///
/// The machine does not check at run time that a program stays within
/// memory, the stack and the keypad: [`Emu::tick`] and [`Emu::execute`]
/// demand it of the caller, and [`Emu::can_tick`] and [`Emu::permits`] tell
/// a host whether the demand is met.
pub struct Emu {
    pub(crate) pc: u16,
    pub(crate) ram: [u8; RAM_SIZE],
    pub(crate) screen: [bool; SCREEN_SIZE],
    pub(crate) v_reg: [u8; NUM_REGS],
    pub(crate) i_reg: u16,
    pub(crate) sp: u16,
    pub(crate) stack: [u16; STACK_SIZE],
    pub(crate) keys: [bool; NUM_KEYS],
    pub(crate) dt: u8,
    pub(crate) st: u8,
}

impl View for Emu {
    type V = Machine;

    open(crate) spec fn view(&self) -> Machine {
        Machine {
            pc: self.pc,
            ram: self.ram@,
            screen: self.screen@,
            v: self.v_reg@,
            i: self.i_reg,
            sp: self.sp,
            stack: self.stack@,
            keys: self.keys@,
            dt: self.dt,
            st: self.st,
        }
    }
}

impl Emu {
    /// The stack pointer never leaves the stack's capacity.
    #[verifier::type_invariant]
    pub(crate) open spec fn inv(&self) -> bool {
        self.sp <= 16
    }

    /// A machine in its initial state.
    pub fn new() -> (emu: Self)
        ensures
            emu@ == Machine::initial(),
    {
        let mut emu = Emu {
            pc: START_ADDR,
            ram: [0; RAM_SIZE],
            screen: [false; SCREEN_SIZE],
            v_reg: [0; NUM_REGS],
            i_reg: 0,
            sp: 0,
            stack: [0; STACK_SIZE],
            keys: [false; NUM_KEYS],
            dt: 0,
            st: 0,
        };
        emu.load_font();
        assert(emu@.ram =~= Machine::initial().ram);
        assert(emu@.screen =~= Machine::initial().screen);
        assert(emu@.v =~= Machine::initial().v);
        assert(emu@.stack =~= Machine::initial().stack);
        assert(emu@.keys =~= Machine::initial().keys);
        emu
    }

    /// Copies the font to the start of memory.
    fn load_font(&mut self)
        ensures
            final(self)@ == (Machine {
                ram: Seq::new(
                    4096,
                    |a: int| if 0 <= a < 80 { FONTSET@[a] } else { old(self)@.ram[a] },
                ),
                ..old(self)@
            }),
    {
        proof {
            use_type_invariant(&*self);
        }
        let mut k: usize = 0;
        while k < FONTSET_SIZE
            invariant
                k <= 80,
                self.sp <= 16,
                self@ == (Machine { ram: self@.ram, ..old(self)@ }),
                forall|a: int| 0 <= a < k ==> self@.ram[a] == FONTSET@[a],
                forall|a: int| k <= a < 4096 ==> self@.ram[a] == old(self)@.ram[a],
            decreases 80 - k,
        {
            self.ram[k] = FONTSET[k];
            k += 1;
        }
        assert(self@.ram =~= Seq::new(
            4096,
            |a: int| if 0 <= a < 80 { FONTSET@[a] } else { old(self)@.ram[a] },
        ));
    }

    /// Puts the machine back into its initial state.
    pub fn reset(&mut self)
        ensures
            final(self)@ == Machine::initial(),
    {
        self.sp = 0;
        self.pc = START_ADDR;
        self.ram = [0; RAM_SIZE];
        self.screen = [false; SCREEN_SIZE];
        self.v_reg = [0; NUM_REGS];
        self.i_reg = 0;
        self.stack = [0; STACK_SIZE];
        self.keys = [false; NUM_KEYS];
        self.dt = 0;
        self.st = 0;
        self.load_font();
        assert(self@.ram =~= Machine::initial().ram);
        assert(self@.screen =~= Machine::initial().screen);
        assert(self@.v =~= Machine::initial().v);
        assert(self@.stack =~= Machine::initial().stack);
        assert(self@.keys =~= Machine::initial().keys);
    }

    /// Reads the opcode at the program counter and moves the program
    /// counter past it.
    pub(crate) fn fetch(&mut self) -> (op: u16)
        requires
            old(self)@.can_fetch(),
        ensures
            op == old(self)@.opcode(),
            final(self)@ == old(self)@.advanced(),
    {
        proof {
            use_type_invariant(&*self);
        }
        let higher_byte = self.ram[self.pc as usize] as u16;
        let lower_byte = self.ram[(self.pc + 1) as usize] as u16;
        let op = (higher_byte << 8) | lower_byte;
        assert((higher_byte << 8) | lower_byte == higher_byte * 256 + lower_byte) by (bit_vector)
            requires
                higher_byte < 256,
                lower_byte < 256,
        ;
        self.pc += 2;
        op
    }

    /// Runs one cycle: fetches the instruction at the program counter,
    /// moves the program counter past it, and executes it. The random
    /// instruction draws its byte from the generator of the current thread;
    /// every other instruction is a function of the state alone.
    pub fn tick(&mut self)
        requires
            old(self)@.can_step(),
        ensures
            exists|rnd: u8| final(self)@ == #[trigger] old(self)@.step(rnd),
            !(old(self)@.next_instruction() matches Some(Instruction::Random { .. }))
                ==> final(self)@ == old(self)@.step(0),
    {
        let op = self.fetch();
        let instr = decode(op).unwrap();
        let rnd = match instr {
            Instruction::Random { .. } => random_byte(),
            _ => 0,
        };
        self.execute(instr, rnd);
        assert(self@ == old(self)@.step(rnd));
    }

    /// Whether the next call of [`Emu::tick`] may be made: the instruction
    /// at the program counter exists and the state permits it.
    pub fn can_tick(&self) -> (ok: bool)
        ensures
            ok == self@.can_step(),
    {
        if self.pc >= 4095 {
            return false;
        }
        let higher_byte = self.ram[self.pc as usize] as u16;
        let lower_byte = self.ram[(self.pc + 1) as usize] as u16;
        let op = (higher_byte << 8) | lower_byte;
        assert((higher_byte << 8) | lower_byte == higher_byte * 256 + lower_byte) by (bit_vector)
            requires
                higher_byte < 256,
                lower_byte < 256,
        ;
        match decode(op) {
            Some(instr) => self.permits_at(instr, self.pc + 2),
            None => false,
        }
    }

    /// Whether `instr` may be handed to [`Emu::execute`] in this state.
    pub fn permits(&self, instr: Instruction) -> (ok: bool)
        ensures
            ok == self@.permits(instr),
    {
        self.permits_at(instr, self.pc)
    }

    /// Whether `instr` may be executed with the program counter at `pc`.
    fn permits_at(&self, instr: Instruction, pc: u16) -> (ok: bool)
        ensures
            ok == (Machine { pc, ..self@ }).permits(instr),
    {
        proof {
            use_type_invariant(self);
        }
        if !instr.well_formed() {
            return false;
        }
        let room = pc <= u16::MAX - 2;
        match instr {
            Instruction::Return => self.sp > 0,
            Instruction::Call { .. } => self.sp < 16,
            Instruction::SkipEqImm { x, nn } => room || self.v_reg[x as usize] != nn,
            Instruction::SkipNeImm { x, nn } => room || self.v_reg[x as usize] == nn,
            Instruction::SkipEqReg { x, y } => room || self.v_reg[x as usize]
                != self.v_reg[y as usize],
            Instruction::SkipNeReg { x, y } => room || self.v_reg[x as usize]
                == self.v_reg[y as usize],
            Instruction::SkipKey { x } => {
                let vx = self.v_reg[x as usize];
                vx < 16 && (room || !self.keys[vx as usize])
            },
            Instruction::SkipNoKey { x } => {
                let vx = self.v_reg[x as usize];
                vx < 16 && (room || self.keys[vx as usize])
            },
            Instruction::WaitKey { .. } => pc >= 2 || self.scan_keys().is_some(),
            Instruction::Draw { rows, .. } => rows == 0 || self.i_reg as usize + rows as usize
                <= RAM_SIZE,
            Instruction::StoreBcd { .. } => (self.i_reg as usize) + 2 < RAM_SIZE,
            Instruction::StoreRegs { x } | Instruction::LoadRegs { x } => x == 0
                || self.i_reg as usize + x as usize <= RAM_SIZE,
            _ => true,
        }
    }

    /// Executes `instr`, the program counter having been moved past it
    /// already. `rnd` is the byte that the random instruction uses.
    pub fn execute(&mut self, instr: Instruction, rnd: u8)
        requires
            old(self)@.permits(instr),
        ensures
            final(self)@ == old(self)@.execute(instr, rnd),
    {
        match instr {
            Instruction::Nop => {},
            Instruction::ClearScreen => self.clr_scr(),
            Instruction::Return => self.ret_subrt(),
            Instruction::Jump { addr } => self.jump(addr),
            Instruction::Call { addr } => self.call_subrt(addr),
            Instruction::SkipEqImm { x, nn } => self.skip_if(x, nn),
            Instruction::SkipNeImm { x, nn } => self.skip_if_not(x, nn),
            Instruction::SkipEqReg { x, y } => self.skip_if_2_reg(x, y),
            Instruction::SetImm { x, nn } => self.set_register(x, nn),
            Instruction::AddImm { x, nn } => self.add_and_set(x, nn),
            Instruction::Move { x, y } => self.set_reg_from_reg(x, y),
            Instruction::Or { x, y } => self.or(x, y),
            Instruction::And { x, y } => self.and(x, y),
            Instruction::Xor { x, y } => self.xor(x, y),
            Instruction::AddCarry { x, y } => self.add_with_overdlow(x, y),
            Instruction::SubBorrow { x, y } => self.sub_with_underflow(x, y),
            Instruction::ShiftRight { x } => self.right_shift(x),
            Instruction::SubReverse { x, y } => self.reverse_sub_with_overflow(x, y),
            Instruction::ShiftLeft { x } => self.left_shift(x),
            Instruction::SkipNeReg { x, y } => self.skip_if_not_eq(x, y),
            Instruction::SetIndex { addr } => self.set_i_reg(addr),
            Instruction::JumpOffset { addr } => self.jump_with_V(addr),
            Instruction::Random { x, nn } => self.random_with_and(x, nn, rnd),
            Instruction::Draw { x, y, rows } => self.draw_sprite(x, y, rows),
            Instruction::SkipKey { x } => self.skip_on_key_press(x),
            Instruction::SkipNoKey { x } => self.skip_if_key_not_pressed(x),
            Instruction::GetDelay { x } => self.copy_dt(x),
            Instruction::WaitKey { x } => self.wait_for_key_press(x),
            Instruction::SetDelay { x } => self.update_dt(x),
            Instruction::SetSound { x } => self.update_st(x),
            Instruction::AddIndex { x } => self.update_i_reg(x),
            Instruction::FontAddr { x } => self.set_font_address(x),
            Instruction::StoreBcd { x } => self.convert_bcd(x),
            Instruction::StoreRegs { x } => self.store_reg(x),
            Instruction::LoadRegs { x } => self.load_reg(x),
        }
    }

    /// Counts both timers down by one; a timer at zero stays there.
    pub fn tick_timers(&mut self)
        ensures
            final(self)@ == old(self)@.timers_ticked(),
    {
        proof {
            use_type_invariant(&*self);
        }
        if self.dt > 0 {
            self.dt -= 1;
        }
        if self.st > 0 {
            self.st -= 1;
        }
    }

    /// The framebuffer, row by row.
    pub fn get_display(&self) -> (display: &[bool])
        ensures
            display@ == self@.screen,
            display@.len() == 2048,
    {
        &self.screen
    }

    /// Records that key `idx` has been pressed or released.
    pub fn keypress(&mut self, idx: usize, pressed: bool)
        requires
            idx < 16,
        ensures
            final(self)@ == old(self)@.key_set(idx as int, pressed),
    {
        proof {
            use_type_invariant(&*self);
        }
        self.keys[idx] = pressed;
    }

    /// Copies a program to the program start.
    pub fn load(&mut self, data: &[u8])
        requires
            0x200 + data@.len() <= 4096,
        ensures
            final(self)@ == old(self)@.loaded(data@),
    {
        proof {
            use_type_invariant(&*self);
        }
        let start = START_ADDR as usize;
        let mut k: usize = 0;
        assert(self@.ram =~= self@.loaded(data@.take(0)).ram);
        while k < data.len()
            invariant
                k <= data@.len(),
                start == 0x200,
                0x200 + data@.len() <= 4096,
                self.sp <= 16,
                self@ == old(self)@.loaded(data@.take(k as int)),
            decreases data@.len() - k,
        {
            self.ram[start + k] = data[k];
            k += 1;
            assert(self@.ram =~= old(self)@.loaded(data@.take(k as int)).ram);
        }
        assert(data@.take(k as int) =~= data@);
    }

    /// The program counter.
    pub fn pc(&self) -> (pc: u16)
        ensures
            pc == self@.pc,
    {
        self.pc
    }

    /// The register `Vx`.
    pub fn register(&self, x: usize) -> (val: u8)
        requires
            x < 16,
        ensures
            val == self@.v[x as int],
    {
        self.v_reg[x]
    }

    /// The index register `I`.
    pub fn index(&self) -> (i: u16)
        ensures
            i == self@.i,
    {
        self.i_reg
    }

    /// The number of return addresses on the stack.
    pub fn stack_pointer(&self) -> (sp: u16)
        ensures
            sp == self@.sp,
            sp <= 16,
    {
        proof {
            use_type_invariant(self);
        }
        self.sp
    }

    /// The delay timer.
    pub fn delay_timer(&self) -> (dt: u8)
        ensures
            dt == self@.dt,
    {
        self.dt
    }

    /// The sound timer.
    pub fn sound_timer(&self) -> (st: u8)
        ensures
            st == self@.st,
    {
        self.st
    }

    /// The byte of memory at `addr`.
    pub fn memory(&self, addr: usize) -> (byte: u8)
        requires
            addr < 4096,
        ensures
            byte == self@.ram[addr as int],
    {
        self.ram[addr]
    }
}

} // verus!
