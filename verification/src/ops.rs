//! The instructions that work on registers, timers and the program
//! counter. Each one expects the program counter to have been moved past
//! the instruction already.

use vstd::prelude::*;
use crate::consts::{FLAG, GLYPH_SIZE};
use crate::emu::Emu;
use crate::machine::{first_key_down, Machine};

verus! {

impl Emu {
    /// Pushes a return address.
    pub(crate) fn push(&mut self, val: u16)
        requires
            old(self)@.sp < 16,
        ensures
            final(self)@ == (Machine {
                sp: (old(self)@.sp + 1) as u16,
                stack: old(self)@.stack.update(old(self)@.sp as int, val),
                ..old(self)@
            }),
    {
        self.stack[self.sp as usize] = val;
        self.sp += 1;
    }

    /// Pops the most recent return address.
    pub(crate) fn pop(&mut self) -> (val: u16)
        requires
            0 < old(self)@.sp,
        ensures
            val == old(self)@.stack[old(self)@.sp - 1],
            final(self)@ == (Machine { sp: (old(self)@.sp - 1) as u16, ..old(self)@ }),
    {
        proof {
            use_type_invariant(&*self);
        }
        self.sp -= 1;
        self.stack[self.sp as usize]
    }

    /// `00EE`.
    pub(crate) fn ret_subrt(&mut self)
        requires
            0 < old(self)@.sp,
        ensures
            final(self)@ == old(self)@.ret(),
    {
        proof {
            use_type_invariant(&*self);
        }
        let ret_addr = self.pop();
        self.pc = ret_addr;
    }

    /// `1NNN`.
    pub(crate) fn jump(&mut self, addr: u16)
        ensures
            final(self)@ == old(self)@.jump(addr),
    {
        proof {
            use_type_invariant(&*self);
        }
        self.pc = addr;
    }

    /// `2NNN`.
    pub(crate) fn call_subrt(&mut self, addr: u16)
        requires
            old(self)@.sp < 16,
        ensures
            final(self)@ == old(self)@.call(addr),
    {
        let pc = self.pc;
        self.push(pc);
        self.pc = addr;
    }

    /// Moves the program counter past one more instruction.
    fn skip(&mut self)
        requires
            old(self)@.pc + 2 <= u16::MAX,
        ensures
            final(self)@ == old(self)@.advanced(),
    {
        proof {
            use_type_invariant(&*self);
        }
        self.pc += 2;
    }

    /// `3XNN`.
    pub(crate) fn skip_if(&mut self, x: u8, nn: u8)
        requires
            x < 16,
            old(self)@.v[x as int] == nn ==> old(self)@.pc + 2 <= u16::MAX,
        ensures
            final(self)@ == old(self)@.skip_when(old(self)@.v[x as int] == nn),
    {
        if self.v_reg[x as usize] == nn {
            self.skip();
        }
    }

    /// `4XNN`.
    pub(crate) fn skip_if_not(&mut self, x: u8, nn: u8)
        requires
            x < 16,
            old(self)@.v[x as int] != nn ==> old(self)@.pc + 2 <= u16::MAX,
        ensures
            final(self)@ == old(self)@.skip_when(old(self)@.v[x as int] != nn),
    {
        if self.v_reg[x as usize] != nn {
            self.skip();
        }
    }

    /// `5XY0`.
    pub(crate) fn skip_if_2_reg(&mut self, x: u8, y: u8)
        requires
            x < 16,
            y < 16,
            old(self)@.v[x as int] == old(self)@.v[y as int] ==> old(self)@.pc + 2 <= u16::MAX,
        ensures
            final(self)@ == old(self)@.skip_when(old(self)@.v[x as int] == old(self)@.v[y as int]),
    {
        if self.v_reg[x as usize] == self.v_reg[y as usize] {
            self.skip();
        }
    }

    /// `9XY0`.
    pub(crate) fn skip_if_not_eq(&mut self, x: u8, y: u8)
        requires
            x < 16,
            y < 16,
            old(self)@.v[x as int] != old(self)@.v[y as int] ==> old(self)@.pc + 2 <= u16::MAX,
        ensures
            final(self)@ == old(self)@.skip_when(old(self)@.v[x as int] != old(self)@.v[y as int]),
    {
        if self.v_reg[x as usize] != self.v_reg[y as usize] {
            self.skip();
        }
    }

    /// `6XNN`.
    pub(crate) fn set_register(&mut self, x: u8, nn: u8)
        requires
            x < 16,
        ensures
            final(self)@ == old(self)@.with_reg(x, nn),
    {
        proof {
            use_type_invariant(&*self);
        }
        self.v_reg[x as usize] = nn;
    }

    /// Writes `val` to `Vx` and then `f` to the flag register.
    fn set_with_flag(&mut self, x: u8, val: u8, f: u8)
        requires
            x < 16,
        ensures
            final(self)@ == old(self)@.with_reg_and_flag(x, val, f),
    {
        proof {
            use_type_invariant(&*self);
        }
        self.v_reg[x as usize] = val;
        self.v_reg[FLAG] = f;
    }

    /// `7XNN`.
    pub(crate) fn add_and_set(&mut self, x: u8, nn: u8)
        requires
            x < 16,
        ensures
            final(self)@ == old(self)@.add_imm(x, nn),
    {
        let sum = self.v_reg[x as usize].wrapping_add(nn);
        self.set_register(x, sum);
    }

    /// `8XY0`.
    pub(crate) fn set_reg_from_reg(&mut self, x: u8, y: u8)
        requires
            x < 16,
            y < 16,
        ensures
            final(self)@ == old(self)@.with_reg(x, old(self)@.v[y as int]),
    {
        let val = self.v_reg[y as usize];
        self.set_register(x, val);
    }

    /// `8XY1`.
    pub(crate) fn or(&mut self, x: u8, y: u8)
        requires
            x < 16,
            y < 16,
        ensures
            final(self)@ == old(self)@.with_reg(x, old(self)@.v[x as int] | old(self)@.v[y as int]),
    {
        let val = self.v_reg[x as usize] | self.v_reg[y as usize];
        self.set_register(x, val);
    }

    /// `8XY2`.
    pub(crate) fn and(&mut self, x: u8, y: u8)
        requires
            x < 16,
            y < 16,
        ensures
            final(self)@ == old(self)@.with_reg(x, old(self)@.v[x as int] & old(self)@.v[y as int]),
    {
        let val = self.v_reg[x as usize] & self.v_reg[y as usize];
        self.set_register(x, val);
    }

    /// `8XY3`.
    pub(crate) fn xor(&mut self, x: u8, y: u8)
        requires
            x < 16,
            y < 16,
        ensures
            final(self)@ == old(self)@.with_reg(x, old(self)@.v[x as int] ^ old(self)@.v[y as int]),
    {
        let val = self.v_reg[x as usize] ^ self.v_reg[y as usize];
        self.set_register(x, val);
    }

    /// `8XY4`.
    pub(crate) fn add_with_overdlow(&mut self, x: u8, y: u8)
        requires
            x < 16,
            y < 16,
        ensures
            final(self)@ == old(self)@.add_carry(x, y),
    {
        let a = self.v_reg[x as usize];
        let b = self.v_reg[y as usize];
        let result = a.wrapping_add(b);
        let carry: u8 = if result < a { 1 } else { 0 };
        self.set_with_flag(x, result, carry);
    }

    /// `8XY5`.
    pub(crate) fn sub_with_underflow(&mut self, x: u8, y: u8)
        requires
            x < 16,
            y < 16,
        ensures
            final(self)@ == old(self)@.sub_borrow(x, y),
    {
        let a = self.v_reg[x as usize];
        let b = self.v_reg[y as usize];
        let result = a.wrapping_sub(b);
        let no_borrow: u8 = if a >= b { 1 } else { 0 };
        self.set_with_flag(x, result, no_borrow);
    }

    /// `8XY6`.
    pub(crate) fn right_shift(&mut self, x: u8)
        requires
            x < 16,
        ensures
            final(self)@ == old(self)@.shift_right(x),
    {
        let a = self.v_reg[x as usize];
        let lsb = a & 1;
        let half = a >> 1;
        assert(a & 1 == a % 2) by (bit_vector);
        assert(a >> 1 == a / 2) by (bit_vector);
        self.set_with_flag(x, half, lsb);
    }

    /// `8XY7`.
    pub(crate) fn reverse_sub_with_overflow(&mut self, x: u8, y: u8)
        requires
            x < 16,
            y < 16,
        ensures
            final(self)@ == old(self)@.sub_reverse(x, y),
    {
        let a = self.v_reg[x as usize];
        let b = self.v_reg[y as usize];
        let result = b.wrapping_sub(a);
        let no_borrow: u8 = if b >= a { 1 } else { 0 };
        self.set_with_flag(x, result, no_borrow);
    }

    /// `8XYE`.
    pub(crate) fn left_shift(&mut self, x: u8)
        requires
            x < 16,
        ensures
            final(self)@ == old(self)@.shift_left(x),
    {
        let a = self.v_reg[x as usize];
        let msb = (a & 0x80) >> 7;
        let double = a << 1;
        assert((a & 0x80) >> 7 == a / 128) by (bit_vector);
        assert(a << 1 == (a * 2) % 256) by (bit_vector);
        self.set_with_flag(x, double, msb);
    }

    /// `ANNN`.
    pub(crate) fn set_i_reg(&mut self, addr: u16)
        ensures
            final(self)@ == (Machine { i: addr, ..old(self)@ }),
    {
        proof {
            use_type_invariant(&*self);
        }
        self.i_reg = addr;
    }

    /// `BNNN`.
    #[allow(non_snake_case)]
    pub(crate) fn jump_with_V(&mut self, addr: u16)
        requires
            addr < 0x1000,
        ensures
            final(self)@ == old(self)@.jump_offset(addr),
    {
        proof {
            use_type_invariant(&*self);
        }
        self.pc = self.v_reg[0] as u16 + addr;
    }

    /// `CXNN`, with the random byte already drawn.
    pub(crate) fn random_with_and(&mut self, x: u8, nn: u8, rnd: u8)
        requires
            x < 16,
        ensures
            final(self)@ == old(self)@.with_reg(x, rnd & nn),
    {
        self.set_register(x, rnd & nn);
    }

    /// `EX9E`.
    pub(crate) fn skip_on_key_press(&mut self, x: u8)
        requires
            x < 16,
            old(self)@.v[x as int] < 16,
            old(self)@.keys[old(self)@.v[x as int] as int] ==> old(self)@.pc + 2 <= u16::MAX,
        ensures
            final(self)@ == old(self)@.skip_when(old(self)@.keys[old(self)@.v[x as int] as int]),
    {
        let vx = self.v_reg[x as usize];
        let key = self.keys[vx as usize];
        if key {
            self.skip();
        }
    }

    /// `EXA1`.
    pub(crate) fn skip_if_key_not_pressed(&mut self, x: u8)
        requires
            x < 16,
            old(self)@.v[x as int] < 16,
            !old(self)@.keys[old(self)@.v[x as int] as int] ==> old(self)@.pc + 2 <= u16::MAX,
        ensures
            final(self)@ == old(self)@.skip_when(!old(self)@.keys[old(self)@.v[x as int] as int]),
    {
        let vx = self.v_reg[x as usize];
        let key = self.keys[vx as usize];
        if !key {
            self.skip();
        }
    }

    /// `FX07`.
    pub(crate) fn copy_dt(&mut self, x: u8)
        requires
            x < 16,
        ensures
            final(self)@ == old(self)@.with_reg(x, old(self)@.dt),
    {
        let dt = self.dt;
        self.set_register(x, dt);
    }

    /// The lowest key that is held down, if there is one.
    pub(crate) fn scan_keys(&self) -> (key: Option<u8>)
        ensures
            key == first_key_down(self@.keys, 0),
    {
        let mut k: u8 = 0;
        while k < 16
            invariant
                k <= 16,
                first_key_down(self@.keys, 0) == first_key_down(self@.keys, k as int),
            decreases 16 - k,
        {
            if self.keys[k as usize] {
                return Some(k);
            }
            k += 1;
        }
        None
    }

    /// `FX0A`.
    pub(crate) fn wait_for_key_press(&mut self, x: u8)
        requires
            x < 16,
            first_key_down(old(self)@.keys, 0) is None ==> old(self)@.pc >= 2,
        ensures
            final(self)@ == old(self)@.wait_key(x),
    {
        proof {
            use_type_invariant(&*self);
        }
        match self.scan_keys() {
            Some(k) => self.set_register(x, k),
            None => {
                self.pc -= 2;
            },
        }
    }

    /// `FX15`.
    pub(crate) fn update_dt(&mut self, x: u8)
        requires
            x < 16,
        ensures
            final(self)@ == (Machine { dt: old(self)@.v[x as int], ..old(self)@ }),
    {
        proof {
            use_type_invariant(&*self);
        }
        self.dt = self.v_reg[x as usize];
    }

    /// `FX18`.
    pub(crate) fn update_st(&mut self, x: u8)
        requires
            x < 16,
        ensures
            final(self)@ == (Machine { st: old(self)@.v[x as int], ..old(self)@ }),
    {
        proof {
            use_type_invariant(&*self);
        }
        self.st = self.v_reg[x as usize];
    }

    /// `FX1E`.
    pub(crate) fn update_i_reg(&mut self, x: u8)
        requires
            x < 16,
        ensures
            final(self)@ == old(self)@.add_index(x),
    {
        proof {
            use_type_invariant(&*self);
        }
        self.i_reg = self.i_reg.wrapping_add(self.v_reg[x as usize] as u16);
    }

    /// `FX29`.
    pub(crate) fn set_font_address(&mut self, x: u8)
        requires
            x < 16,
        ensures
            final(self)@ == old(self)@.font_addr(x),
    {
        proof {
            use_type_invariant(&*self);
        }
        let c = self.v_reg[x as usize] as u16;
        self.i_reg = c * GLYPH_SIZE;
    }
}

} // verus!
