//! Loads and arithmetic on the registers `V0..VF`.

use vstd::prelude::*;
use crate::chip::errors::ChipError;
use crate::chip::interpreter::{Chip8, OPCODE_SIZE};
use crate::chip::machine::lands;
use crate::chip::rng::random_byte;

verus! {

impl Chip8 {
    /// LD - sets the value kk into Vx register
    pub(super) fn op_6xkk(&mut self, x: usize, kk: u8) -> (res: Result<(), ChipError>)
        requires
            x < 16,
        ensures
            lands(old(self)@, final(self)@, res, old(self)@.ld_byte(x as int, kk)),
    {
        let next = match self.next_pc(OPCODE_SIZE) {
            Ok(p) => p,
            Err(e) => return Err(e),
        };
        proof {
            use_type_invariant(&*self);
        }
        self.regs[x] = kk;
        self.pc = next;
        proof {
            assert(self@ =~= old(self)@.ld_byte(x as int, kk)->Ok_0);
        }
        Ok(())
    }

    /// ADD - adds the value kk to Vx register, wrapping
    pub(super) fn op_7xkk(&mut self, x: usize, kk: u8) -> (res: Result<(), ChipError>)
        requires
            x < 16,
        ensures
            lands(old(self)@, final(self)@, res, old(self)@.add_byte(x as int, kk)),
    {
        let next = match self.next_pc(OPCODE_SIZE) {
            Ok(p) => p,
            Err(e) => return Err(e),
        };
        proof {
            use_type_invariant(&*self);
        }
        let vx = self.regs[x];
        self.regs[x] = vx.wrapping_add(kk);
        self.pc = next;
        proof {
            assert(self@ =~= old(self)@.add_byte(x as int, kk)->Ok_0);
        }
        Ok(())
    }

    /// LD - sets the value of Vy register into Vx register
    pub(super) fn op_8xy0(&mut self, x: usize, y: usize) -> (res: Result<(), ChipError>)
        requires
            x < 16,
            y < 16,
        ensures
            lands(old(self)@, final(self)@, res, old(self)@.ld_reg(x as int, y as int)),
    {
        let next = match self.next_pc(OPCODE_SIZE) {
            Ok(p) => p,
            Err(e) => return Err(e),
        };
        proof {
            use_type_invariant(&*self);
        }
        let vy = self.regs[y];
        self.regs[x] = vy;
        self.pc = next;
        proof {
            assert(self@ =~= old(self)@.ld_reg(x as int, y as int)->Ok_0);
        }
        Ok(())
    }

    /// OR - bitwise OR of Vx and Vy, stored in Vx
    pub(super) fn op_8xy1(&mut self, x: usize, y: usize) -> (res: Result<(), ChipError>)
        requires
            x < 16,
            y < 16,
        ensures
            lands(old(self)@, final(self)@, res, old(self)@.or(x as int, y as int)),
    {
        let next = match self.next_pc(OPCODE_SIZE) {
            Ok(p) => p,
            Err(e) => return Err(e),
        };
        proof {
            use_type_invariant(&*self);
        }
        let vx = self.regs[x];
        let vy = self.regs[y];
        self.regs[x] = vx | vy;
        self.pc = next;
        proof {
            assert(self@ =~= old(self)@.or(x as int, y as int)->Ok_0);
        }
        Ok(())
    }

    /// AND - bitwise AND of Vx and Vy, stored in Vx
    pub(super) fn op_8xy2(&mut self, x: usize, y: usize) -> (res: Result<(), ChipError>)
        requires
            x < 16,
            y < 16,
        ensures
            lands(old(self)@, final(self)@, res, old(self)@.and(x as int, y as int)),
    {
        let next = match self.next_pc(OPCODE_SIZE) {
            Ok(p) => p,
            Err(e) => return Err(e),
        };
        proof {
            use_type_invariant(&*self);
        }
        let vx = self.regs[x];
        let vy = self.regs[y];
        self.regs[x] = vx & vy;
        self.pc = next;
        proof {
            assert(self@ =~= old(self)@.and(x as int, y as int)->Ok_0);
        }
        Ok(())
    }

    /// XOR - bitwise XOR of Vx and Vy, stored in Vx
    pub(super) fn op_8xy3(&mut self, x: usize, y: usize) -> (res: Result<(), ChipError>)
        requires
            x < 16,
            y < 16,
        ensures
            lands(old(self)@, final(self)@, res, old(self)@.xor(x as int, y as int)),
    {
        let next = match self.next_pc(OPCODE_SIZE) {
            Ok(p) => p,
            Err(e) => return Err(e),
        };
        proof {
            use_type_invariant(&*self);
        }
        let vx = self.regs[x];
        let vy = self.regs[y];
        self.regs[x] = vx ^ vy;
        self.pc = next;
        proof {
            assert(self@ =~= old(self)@.xor(x as int, y as int)->Ok_0);
        }
        Ok(())
    }

    /// ADD - adds Vx and Vy, sets VF on carry, stores the low byte in Vx
    pub(super) fn op_8xy4(&mut self, x: usize, y: usize) -> (res: Result<(), ChipError>)
        requires
            x < 16,
            y < 16,
        ensures
            lands(old(self)@, final(self)@, res, old(self)@.add_reg(x as int, y as int)),
    {
        let next = match self.next_pc(OPCODE_SIZE) {
            Ok(p) => p,
            Err(e) => return Err(e),
        };
        proof {
            use_type_invariant(&*self);
        }
        let vx = self.regs[x] as u16;
        let vy = self.regs[y] as u16;
        let result = vx + vy;
        self.regs[0x0F] = if result > 0xFF {
            1
        } else {
            0
        };
        self.regs[x] = (result % 256) as u8;
        self.pc = next;
        proof {
            assert(self@ =~= old(self)@.add_reg(x as int, y as int)->Ok_0);
        }
        Ok(())
    }

    /// SUB - VF is set if Vx > Vy, then Vy is subtracted from Vx
    pub(super) fn op_8xy5(&mut self, x: usize, y: usize) -> (res: Result<(), ChipError>)
        requires
            x < 16,
            y < 16,
        ensures
            lands(old(self)@, final(self)@, res, old(self)@.sub_reg(x as int, y as int)),
    {
        let next = match self.next_pc(OPCODE_SIZE) {
            Ok(p) => p,
            Err(e) => return Err(e),
        };
        proof {
            use_type_invariant(&*self);
        }
        let vx = self.regs[x];
        let vy = self.regs[y];
        self.regs[0x0F] = if vx > vy {
            1
        } else {
            0
        };
        self.regs[x] = vx.wrapping_sub(vy);
        self.pc = next;
        proof {
            assert(self@ =~= old(self)@.sub_reg(x as int, y as int)->Ok_0);
        }
        Ok(())
    }

    /// SHR - VF is set to the least significant bit of Vx, then Vx is halved
    pub(super) fn op_8xy6(&mut self, x: usize) -> (res: Result<(), ChipError>)
        requires
            x < 16,
        ensures
            lands(old(self)@, final(self)@, res, old(self)@.shr(x as int)),
    {
        let next = match self.next_pc(OPCODE_SIZE) {
            Ok(p) => p,
            Err(e) => return Err(e),
        };
        proof {
            use_type_invariant(&*self);
        }
        let vx = self.regs[x];
        let bit = vx & 0x01;
        assert(vx & 0x01 == vx % 2 && vx >> 1u8 == vx / 2) by (bit_vector);
        self.regs[0x0F] = if bit == 1 {
            1
        } else {
            0
        };
        self.regs[x] = vx >> 1u8;
        self.pc = next;
        proof {
            assert(self@ =~= old(self)@.shr(x as int)->Ok_0);
        }
        Ok(())
    }

    /// SUBN - VF is set if Vy > Vx, then Vx is subtracted from Vy, stored in Vx
    pub(super) fn op_8xy7(&mut self, x: usize, y: usize) -> (res: Result<(), ChipError>)
        requires
            x < 16,
            y < 16,
        ensures
            lands(old(self)@, final(self)@, res, old(self)@.subn_reg(x as int, y as int)),
    {
        let next = match self.next_pc(OPCODE_SIZE) {
            Ok(p) => p,
            Err(e) => return Err(e),
        };
        proof {
            use_type_invariant(&*self);
        }
        let vx = self.regs[x];
        let vy = self.regs[y];
        self.regs[0x0F] = if vy > vx {
            1
        } else {
            0
        };
        self.regs[x] = vy.wrapping_sub(vx);
        self.pc = next;
        proof {
            assert(self@ =~= old(self)@.subn_reg(x as int, y as int)->Ok_0);
        }
        Ok(())
    }

    /// SHL - VF is set to the most significant bit of Vx, then Vx is doubled
    pub(super) fn op_8xye(&mut self, x: usize) -> (res: Result<(), ChipError>)
        requires
            x < 16,
        ensures
            lands(old(self)@, final(self)@, res, old(self)@.shl(x as int)),
    {
        let next = match self.next_pc(OPCODE_SIZE) {
            Ok(p) => p,
            Err(e) => return Err(e),
        };
        proof {
            use_type_invariant(&*self);
        }
        let vx = self.regs[x];
        assert((vx & 0x80) >> 7u8 == vx / 128 && vx << 1u8 == (vx * 2) % 256) by (bit_vector);
        self.regs[0x0F] = (vx & 0x80) >> 7u8;
        self.regs[x] = vx << 1u8;
        self.pc = next;
        proof {
            assert(self@ =~= old(self)@.shl(x as int)->Ok_0);
        }
        Ok(())
    }

    /// RND - Set Vx = random byte AND kk
    pub(super) fn op_cxkk(&mut self, x: usize, kk: u8) -> (res: Result<(), ChipError>)
        requires
            x < 16,
        ensures
            exists|random: u8|
                lands(old(self)@, final(self)@, res, old(self)@.rnd(x as int, kk, random)),
    {
        let rand_num = random_byte();
        self.rnd_with(x, kk, rand_num)
    }

    /// What RND does once the random byte is drawn.
    pub(super) fn rnd_with(&mut self, x: usize, kk: u8, random: u8) -> (res: Result<(), ChipError>)
        requires
            x < 16,
        ensures
            lands(old(self)@, final(self)@, res, old(self)@.rnd(x as int, kk, random)),
    {
        let next = match self.next_pc(OPCODE_SIZE) {
            Ok(p) => p,
            Err(e) => return Err(e),
        };
        proof {
            use_type_invariant(&*self);
        }
        self.regs[x] = random & kk;
        self.pc = next;
        proof {
            assert(self@ =~= old(self)@.rnd(x as int, kk, random)->Ok_0);
        }
        Ok(())
    }
}

} // verus!
