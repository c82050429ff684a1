//! Keys and timers.

use vstd::prelude::*;
use crate::chip::errors::ChipError;
use crate::chip::interpreter::{Chip8, OPCODE_SIZE};
use crate::chip::machine::{lands, RunState};

verus! {

impl Chip8 {
    /// SKP - skip next instruction if the key with the value of Vx is pressed
    pub(super) fn op_ex9e(&mut self, x: usize) -> (res: Result<(), ChipError>)
        requires
            x < 16,
        ensures
            lands(old(self)@, final(self)@, res, old(self)@.skp(x as int)),
    {
        let vx = self.regs[x] as usize;
        let down = vx < 16 && self.keypad[vx];
        let delta = if down {
            2 * OPCODE_SIZE
        } else {
            OPCODE_SIZE
        };
        let next = match self.next_pc(delta) {
            Ok(p) => p,
            Err(e) => return Err(e),
        };
        proof {
            use_type_invariant(&*self);
        }
        self.pc = next;
        proof {
            assert(self@ =~= old(self)@.skp(x as int)->Ok_0);
        }
        Ok(())
    }

    /// SKNP - skip next instruction if the key with the value of Vx is not pressed
    pub(super) fn op_exa1(&mut self, x: usize) -> (res: Result<(), ChipError>)
        requires
            x < 16,
        ensures
            lands(old(self)@, final(self)@, res, old(self)@.sknp(x as int)),
    {
        let vx = self.regs[x] as usize;
        let down = vx < 16 && self.keypad[vx];
        let delta = if !down {
            2 * OPCODE_SIZE
        } else {
            OPCODE_SIZE
        };
        let next = match self.next_pc(delta) {
            Ok(p) => p,
            Err(e) => return Err(e),
        };
        proof {
            use_type_invariant(&*self);
        }
        self.pc = next;
        proof {
            assert(self@ =~= old(self)@.sknp(x as int)->Ok_0);
        }
        Ok(())
    }

    /// LD - load the value of the delay timer into Vx
    pub(super) fn op_fx07(&mut self, x: usize) -> (res: Result<(), ChipError>)
        requires
            x < 16,
        ensures
            lands(old(self)@, final(self)@, res, old(self)@.ld_from_delay(x as int)),
    {
        let next = match self.next_pc(OPCODE_SIZE) {
            Ok(p) => p,
            Err(e) => return Err(e),
        };
        proof {
            use_type_invariant(&*self);
        }
        self.regs[x] = self.delay_timer;
        self.pc = next;
        proof {
            assert(self@ =~= old(self)@.ld_from_delay(x as int)->Ok_0);
        }
        Ok(())
    }

    /// LD - execution stops until a key is pressed; the key goes to Vx
    pub(super) fn op_fx0a(&mut self, x: usize) -> (res: Result<(), ChipError>)
        requires
            x < 16,
        ensures
            lands(old(self)@, final(self)@, res, old(self)@.ld_key(x as int)),
    {
        let next = match self.next_pc(OPCODE_SIZE) {
            Ok(p) => p,
            Err(e) => return Err(e),
        };
        proof {
            use_type_invariant(&*self);
        }
        self.state = RunState::AwaitingKey { target: x as u8 };
        self.pc = next;
        proof {
            assert(self@ =~= old(self)@.ld_key(x as int)->Ok_0);
        }
        Ok(())
    }

    /// LD - load the value of Vx into the delay timer
    pub(super) fn op_fx15(&mut self, x: usize) -> (res: Result<(), ChipError>)
        requires
            x < 16,
        ensures
            lands(old(self)@, final(self)@, res, old(self)@.ld_delay(x as int)),
    {
        let next = match self.next_pc(OPCODE_SIZE) {
            Ok(p) => p,
            Err(e) => return Err(e),
        };
        proof {
            use_type_invariant(&*self);
        }
        self.delay_timer = self.regs[x];
        self.pc = next;
        proof {
            assert(self@ =~= old(self)@.ld_delay(x as int)->Ok_0);
        }
        Ok(())
    }

    /// LD - load the value of Vx into the sound timer
    pub(super) fn op_fx18(&mut self, x: usize) -> (res: Result<(), ChipError>)
        requires
            x < 16,
        ensures
            lands(old(self)@, final(self)@, res, old(self)@.ld_sound(x as int)),
    {
        let next = match self.next_pc(OPCODE_SIZE) {
            Ok(p) => p,
            Err(e) => return Err(e),
        };
        proof {
            use_type_invariant(&*self);
        }
        self.sound_timer = self.regs[x];
        self.pc = next;
        proof {
            assert(self@ =~= old(self)@.ld_sound(x as int)->Ok_0);
        }
        Ok(())
    }
}

} // verus!
