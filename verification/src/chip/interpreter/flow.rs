//! Jumps, calls, returns and conditional skips.

use vstd::prelude::*;
use crate::chip::errors::ChipError;
use crate::chip::interpreter::{Chip8, OPCODE_SIZE};
use crate::chip::machine::lands;

verus! {

impl Chip8 {
    /// RET - return from a subroutine
    pub(super) fn op_00ee(&mut self) -> (res: Result<(), ChipError>)
        ensures
            lands(old(self)@, final(self)@, res, old(self)@.ret()),
    {
        if self.sp == 0 {
            return Err(ChipError::StackUnderflow);
        }
        proof {
            use_type_invariant(&*self);
        }
        self.sp -= 1;
        self.pc = self.stack[self.sp as usize];
        proof {
            assert(self@ =~= old(self)@.ret()->Ok_0);
        }
        Ok(())
    }

    /// JP - jump to location nnn
    pub(super) fn op_1nnn(&mut self, addr: u16) -> (res: Result<(), ChipError>)
        ensures
            lands(old(self)@, final(self)@, res, old(self)@.jp(addr)),
    {
        proof {
            use_type_invariant(&*self);
        }
        self.pc = addr;
        proof {
            assert(self@ =~= old(self)@.jp(addr)->Ok_0);
        }
        Ok(())
    }

    /// CALL - call subroutine at nnn
    pub(super) fn op_2nnn(&mut self, addr: u16) -> (res: Result<(), ChipError>)
        ensures
            lands(old(self)@, final(self)@, res, old(self)@.call(addr)),
    {
        proof {
            use_type_invariant(&*self);
        }
        if self.sp >= 16 {
            return Err(ChipError::StackOverflow);
        }
        let next = match self.next_pc(OPCODE_SIZE) {
            Ok(p) => p,
            Err(e) => return Err(e),
        };
        self.stack[self.sp as usize] = next;
        self.sp += 1;
        self.pc = addr;
        proof {
            assert(self@ =~= old(self)@.call(addr)->Ok_0);
        }
        Ok(())
    }

    /// SE - skip next instruction if Vx == kk
    pub(super) fn op_3xkk(&mut self, x: usize, kk: u8) -> (res: Result<(), ChipError>)
        requires
            x < 16,
        ensures
            lands(old(self)@, final(self)@, res, old(self)@.se_byte(x as int, kk)),
    {
        let vx = self.regs[x];
        let delta = if vx == kk {
            2 * OPCODE_SIZE
        } else {
            OPCODE_SIZE
        };
        let next = match self.next_pc(delta) {
            Ok(p) => p,
            Err(e) => return Err(e),
        };
        proof {
            use_type_invariant(&*self);
        }
        self.pc = next;
        proof {
            assert(self@ =~= old(self)@.se_byte(x as int, kk)->Ok_0);
        }
        Ok(())
    }

    /// SNE - skip next instruction if Vx != kk
    pub(super) fn op_4xkk(&mut self, x: usize, kk: u8) -> (res: Result<(), ChipError>)
        requires
            x < 16,
        ensures
            lands(old(self)@, final(self)@, res, old(self)@.sne_byte(x as int, kk)),
    {
        let vx = self.regs[x];
        let delta = if vx != kk {
            2 * OPCODE_SIZE
        } else {
            OPCODE_SIZE
        };
        let next = match self.next_pc(delta) {
            Ok(p) => p,
            Err(e) => return Err(e),
        };
        proof {
            use_type_invariant(&*self);
        }
        self.pc = next;
        proof {
            assert(self@ =~= old(self)@.sne_byte(x as int, kk)->Ok_0);
        }
        Ok(())
    }

    /// SE - skip next instruction if Vx == Vy
    pub(super) fn op_5ky0(&mut self, x: usize, y: usize) -> (res: Result<(), ChipError>)
        requires
            x < 16,
            y < 16,
        ensures
            lands(old(self)@, final(self)@, res, old(self)@.se_reg(x as int, y as int)),
    {
        let vx = self.regs[x];
        let vy = self.regs[y];
        let delta = if vx == vy {
            2 * OPCODE_SIZE
        } else {
            OPCODE_SIZE
        };
        let next = match self.next_pc(delta) {
            Ok(p) => p,
            Err(e) => return Err(e),
        };
        proof {
            use_type_invariant(&*self);
        }
        self.pc = next;
        proof {
            assert(self@ =~= old(self)@.se_reg(x as int, y as int)->Ok_0);
        }
        Ok(())
    }

    /// SNE - skip next instruction if Vx != Vy
    pub(super) fn op_9xy0(&mut self, x: usize, y: usize) -> (res: Result<(), ChipError>)
        requires
            x < 16,
            y < 16,
        ensures
            lands(old(self)@, final(self)@, res, old(self)@.sne_reg(x as int, y as int)),
    {
        let vx = self.regs[x];
        let vy = self.regs[y];
        let delta = if vx != vy {
            2 * OPCODE_SIZE
        } else {
            OPCODE_SIZE
        };
        let next = match self.next_pc(delta) {
            Ok(p) => p,
            Err(e) => return Err(e),
        };
        proof {
            use_type_invariant(&*self);
        }
        self.pc = next;
        proof {
            assert(self@ =~= old(self)@.sne_reg(x as int, y as int)->Ok_0);
        }
        Ok(())
    }

    /// JP - jump to location nnn + V0
    pub(super) fn op_bnnn(&mut self, nnn: u16) -> (res: Result<(), ChipError>)
        requires
            nnn < 0x1000,
        ensures
            lands(old(self)@, final(self)@, res, old(self)@.jp_offset(nnn)),
    {
        proof {
            use_type_invariant(&*self);
        }
        let addr = self.regs[0x00] as u16 + nnn;
        self.pc = addr;
        proof {
            assert(self@ =~= old(self)@.jp_offset(nnn)->Ok_0);
        }
        Ok(())
    }
}

} // verus!
