//! The instructions that move data between the registers and memory.

use vstd::prelude::*;
use crate::emu::Emu;

verus! {

impl Emu {
    /// `FX33`.
    pub(crate) fn convert_bcd(&mut self, x: u8)
        requires
            x < 16,
            old(self)@.i + 2 < 4096,
        ensures
            final(self)@ == old(self)@.store_bcd(x),
    {
        proof {
            use_type_invariant(&*self);
        }
        let vx = self.v_reg[x as usize];
        let at = self.i_reg as usize;
        self.ram[at] = vx / 100;
        self.ram[at + 1] = (vx / 10) % 10;
        self.ram[at + 2] = vx % 10;
    }

    /// `FX55`.
    pub(crate) fn store_reg(&mut self, x: u8)
        requires
            x < 16,
            x == 0 || old(self)@.i + x <= 4096,
        ensures
            final(self)@ == old(self)@.store_regs(x),
    {
        proof {
            use_type_invariant(&*self);
        }
        let at = self.i_reg as usize;
        let mut k: usize = 0;
        assert(self@.ram =~= self@.store_regs(0).ram);
        while k < x as usize
            invariant
                k <= x < 16,
                at == old(self)@.i,
                x == 0 || at + x <= 4096,
                self.sp <= 16,
                self.i_reg == old(self).i_reg,
                self.v_reg == old(self).v_reg,
                self@ == old(self)@.store_regs(k as u8),
            decreases x - k,
        {
            self.ram[at + k] = self.v_reg[k];
            k += 1;
            assert(self@.ram =~= old(self)@.store_regs(k as u8).ram);
        }
    }

    /// `FX65`.
    pub(crate) fn load_reg(&mut self, x: u8)
        requires
            x < 16,
            x == 0 || old(self)@.i + x <= 4096,
        ensures
            final(self)@ == old(self)@.load_regs(x),
    {
        proof {
            use_type_invariant(&*self);
        }
        let at = self.i_reg as usize;
        let mut k: usize = 0;
        assert(self@.v =~= self@.load_regs(0).v);
        while k < x as usize
            invariant
                k <= x < 16,
                at == old(self)@.i,
                x == 0 || at + x <= 4096,
                self.sp <= 16,
                self.i_reg == old(self).i_reg,
                self.ram == old(self).ram,
                self@ == old(self)@.load_regs(k as u8),
            decreases x - k,
        {
            self.v_reg[k] = self.ram[at + k];
            k += 1;
            assert(self@.v =~= old(self)@.load_regs(k as u8).v);
        }
    }
}

} // verus!
