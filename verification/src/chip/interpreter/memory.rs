//! The index register and the instructions that read and write memory.

use vstd::prelude::*;
use crate::chip::errors::ChipError;
use crate::chip::interpreter::{Chip8, OPCODE_SIZE};
use crate::chip::machine::lands;

verus! {

impl Chip8 {
    /// LD - set the I register to nnn
    pub(super) fn op_annn(&mut self, nnn: u16) -> (res: Result<(), ChipError>)
        ensures
            lands(old(self)@, final(self)@, res, old(self)@.ld_index(nnn)),
    {
        let next = match self.next_pc(OPCODE_SIZE) {
            Ok(p) => p,
            Err(e) => return Err(e),
        };
        proof {
            use_type_invariant(&*self);
        }
        self.i = nnn;
        self.pc = next;
        proof {
            assert(self@ =~= old(self)@.ld_index(nnn)->Ok_0);
        }
        Ok(())
    }

    /// ADD - add the values of I and Vx and store the sum in I
    pub(super) fn op_fx1e(&mut self, x: usize) -> (res: Result<(), ChipError>)
        requires
            x < 16,
        ensures
            lands(old(self)@, final(self)@, res, old(self)@.add_index(x as int)),
    {
        let vx = self.regs[x] as u16;
        if self.i > 0xFFFF - vx {
            return Err(ChipError::AddressBoundaryError);
        }
        let next = match self.next_pc(OPCODE_SIZE) {
            Ok(p) => p,
            Err(e) => return Err(e),
        };
        proof {
            use_type_invariant(&*self);
        }
        self.i = self.i + vx;
        self.pc = next;
        proof {
            assert(self@ =~= old(self)@.add_index(x as int)->Ok_0);
        }
        Ok(())
    }

    /// LD - set I to the address of the font glyph for the value of Vx
    pub(super) fn op_fx29(&mut self, x: usize) -> (res: Result<(), ChipError>)
        requires
            x < 16,
        ensures
            lands(old(self)@, final(self)@, res, old(self)@.ld_font(x as int)),
    {
        let next = match self.next_pc(OPCODE_SIZE) {
            Ok(p) => p,
            Err(e) => return Err(e),
        };
        proof {
            use_type_invariant(&*self);
        }
        self.i = (self.regs[x] as u16) * 5;
        self.pc = next;
        proof {
            assert(self@ =~= old(self)@.ld_font(x as int)->Ok_0);
        }
        Ok(())
    }

    /// LD - store the BCD representation of Vx at I, I+1, I+2
    pub(super) fn op_fx33(&mut self, x: usize) -> (res: Result<(), ChipError>)
        requires
            x < 16,
        ensures
            lands(old(self)@, final(self)@, res, old(self)@.bcd(x as int)),
    {
        if self.i > 4093 {
            return Err(ChipError::AddressBoundaryError);
        }
        let next = match self.next_pc(OPCODE_SIZE) {
            Ok(p) => p,
            Err(e) => return Err(e),
        };
        proof {
            use_type_invariant(&*self);
        }
        let vx = self.regs[x];
        let at = self.i as usize;
        self.ram[at] = vx / 100;
        self.ram[at + 1] = (vx % 100) / 10;
        self.ram[at + 2] = vx % 10;
        self.pc = next;
        proof {
            assert(self@ =~= old(self)@.bcd(x as int)->Ok_0);
        }
        Ok(())
    }

    /// LD - store registers V0 through Vx in memory starting at location I
    pub(super) fn op_fx55(&mut self, x: usize) -> (res: Result<(), ChipError>)
        requires
            x < 16,
        ensures
            lands(old(self)@, final(self)@, res, old(self)@.store(x as int)),
    {
        if self.i as usize + x > 4095 {
            return Err(ChipError::AddressBoundaryError);
        }
        let next = match self.next_pc(OPCODE_SIZE) {
            Ok(p) => p,
            Err(e) => return Err(e),
        };
        proof {
            use_type_invariant(&*self);
        }
        let at = self.i as usize;
        let mut i: usize = 0;
        while i < x + 1
            invariant
                i <= x + 1,
                x < 16,
                at == self.i,
                at + x <= 4095,
                self.same_scalars(*old(self)),
                self.regs == old(self).regs,
                self.screen == old(self).screen,
                forall|a: int| 0 <= a < 4096 ==> #[trigger] self.ram[a] == (if at <= a < at + i {
                    old(self).regs[a - at]
                } else {
                    old(self).ram[a]
                }),
            decreases x + 1 - i,
        {
            proof {
                use_type_invariant(&*self);
            }
            self.ram[at + i] = self.regs[i];
            i += 1;
        }
        proof {
            use_type_invariant(&*self);
        }
        self.pc = next;
        proof {
            assert(self@ =~= old(self)@.store(x as int)->Ok_0);
        }
        Ok(())
    }

    /// LD - load registers V0 through Vx from memory starting at location I
    pub(super) fn op_fx65(&mut self, x: usize) -> (res: Result<(), ChipError>)
        requires
            x < 16,
        ensures
            lands(old(self)@, final(self)@, res, old(self)@.load(x as int)),
    {
        if self.i as usize + x > 4095 {
            return Err(ChipError::AddressBoundaryError);
        }
        let next = match self.next_pc(OPCODE_SIZE) {
            Ok(p) => p,
            Err(e) => return Err(e),
        };
        proof {
            use_type_invariant(&*self);
        }
        let at = self.i as usize;
        let mut i: usize = 0;
        while i < x + 1
            invariant
                i <= x + 1,
                x < 16,
                at == self.i,
                at + x <= 4095,
                self.same_scalars(*old(self)),
                self.ram == old(self).ram,
                self.screen == old(self).screen,
                forall|r: int| 0 <= r < 16 ==> #[trigger] self.regs[r] == (if r < i {
                    old(self).ram[at + r]
                } else {
                    old(self).regs[r]
                }),
            decreases x + 1 - i,
        {
            proof {
                use_type_invariant(&*self);
            }
            self.regs[i] = self.ram[at + i];
            i += 1;
        }
        proof {
            use_type_invariant(&*self);
        }
        self.pc = next;
        proof {
            assert(self@ =~= old(self)@.load(x as int)->Ok_0);
        }
        Ok(())
    }
}

} // verus!
