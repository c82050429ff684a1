use vstd::prelude::*;
use crate::chip::errors::ChipError;
use crate::chip::font::FONT_SET;
use crate::chip::instruction::{decode, Instruction};
use crate::chip::laws::law_perform_keeps_shape;
use crate::chip::machine::{lands, Machine, RunState};

mod draw;
mod flow;
mod input;
mod memory;
mod registers;

verus! {

/// Number of bytes of memory.
pub const MEM_SIZE: usize = 0x1000;

/// Number of pixels in a row of the screen.
pub const SCREEN_WIDTH: usize = 64;

/// Number of rows of the screen.
pub const SCREEN_HEIGHT: usize = 32;

/// Number of bytes in an instruction.
pub const OPCODE_SIZE: u16 = 2;

/// The framebuffer that an array of 0/1 cells stands for.
pub open spec fn screen_model(cells: [[u8; 64]; 32]) -> Seq<Seq<bool>> {
    Seq::new(32, |cy: int| Seq::new(64, |cx: int| cells[cy][cx] == 1u8))
}

/// Whether every cell is 0 or 1.
pub open spec fn cells_are_bits(cells: [[u8; 64]; 32]) -> bool {
    forall|cy: int, cx: int| 0 <= cy < 32 && 0 <= cx < 64 ==> #[trigger] cells[cy][cx] <= 1
}

/// A CHIP-8 machine: memory, registers, call stack, timers, key states and
/// framebuffer. Its contracts speak of the [`Machine`] that it stands for.
#[derive(Debug)]
pub struct Chip8 {
    i: u16,
    pc: u16,
    sp: u8,
    ram: [u8; MEM_SIZE],
    regs: [u8; 16],
    delay_timer: u8,
    sound_timer: u8,
    stack: [u16; 16],
    keypad: [bool; 16],
    prev_keypad: [bool; 16],
    screen: [[u8; SCREEN_WIDTH]; SCREEN_HEIGHT],
    state: RunState,
    screen_drawed: bool,
}

impl View for Chip8 {
    type V = Machine;

    closed spec fn view(&self) -> Machine {
        Machine {
            memory: self.ram@,
            regs: self.regs@,
            index: self.i,
            pc: self.pc,
            stack: self.stack@.subrange(0, self.sp as int),
            delay_timer: self.delay_timer,
            sound_timer: self.sound_timer,
            keypad: self.keypad@,
            prev_keypad: self.prev_keypad@,
            screen: screen_model(self.screen),
            run: self.state,
            redraw: self.screen_drawed,
        }
    }
}

impl Clone for Chip8 {
    fn clone(&self) -> (copy: Chip8)
        ensures
            copy@ == self@,
    {
        proof {
            use_type_invariant(self);
        }
        Chip8 {
            i: self.i,
            pc: self.pc,
            sp: self.sp,
            ram: self.ram,
            regs: self.regs,
            delay_timer: self.delay_timer,
            sound_timer: self.sound_timer,
            stack: self.stack,
            keypad: self.keypad,
            prev_keypad: self.prev_keypad,
            screen: self.screen,
            state: self.state,
            screen_drawed: self.screen_drawed,
        }
    }
}

impl Chip8 {
    #[verifier::type_invariant]
    spec fn inv(self) -> bool {
        &&& self.sp <= 16
        &&& cells_are_bits(self.screen)
        &&& (self.state matches RunState::AwaitingKey { target } ==> target < 16)
    }

    /// Whether `self` and `other` agree on everything but memory, registers
    /// and screen.
    spec fn same_scalars(self, other: Chip8) -> bool {
        &&& self.i == other.i
        &&& self.pc == other.pc
        &&& self.sp == other.sp
        &&& self.delay_timer == other.delay_timer
        &&& self.sound_timer == other.sound_timer
        &&& self.stack == other.stack
        &&& self.keypad == other.keypad
        &&& self.prev_keypad == other.prev_keypad
        &&& self.state == other.state
        &&& self.screen_drawed == other.screen_drawed
    }

    /// A machine with the font loaded, the program counter at 0x200 and
    /// everything else zero.
    pub fn new() -> (chip: Chip8)
        ensures
            chip@ == Machine::initial(),
            chip@.wf(),
    {
        let mut ram = [0u8; 4096];
        let mut a: usize = 0;
        while a < 80
            invariant
                a <= 80,
                forall|j: int| 0 <= j < a ==> ram[j] == FONT_SET[j],
                forall|j: int| a <= j < 4096 ==> ram[j] == 0,
            decreases 80 - a,
        {
            ram[a] = FONT_SET[a];
            a += 1;
        }
        let chip = Chip8 {
            i: 0,
            pc: 0x200,
            sp: 0,
            ram,
            regs: [0u8; 16],
            delay_timer: 0,
            sound_timer: 0,
            stack: [0u16; 16],
            keypad: [false; 16],
            prev_keypad: [false; 16],
            screen: [[0u8; 64]; 32],
            state: RunState::Running,
            screen_drawed: false,
        };
        assert(chip@ =~~= Machine::initial());
        chip
    }

    /// Copies a program image into memory from address 0x200 on. Bytes that
    /// would fall behind the end of memory are dropped.
    pub fn load_rom(&mut self, rom: &[u8])
        ensures
            final(self)@ == old(self)@.loaded(rom@),
            final(self)@.wf(),
    {
        let mut k: usize = 0;
        while k < rom.len() && k < MEM_SIZE - 0x200
            invariant
                k <= rom.len(),
                k <= 4096 - 0x200,
                self.same_scalars(*old(self)),
                self.regs == old(self).regs,
                self.screen == old(self).screen,
                forall|a: int|
                    0 <= a < 4096 ==> #[trigger] self.ram[a] == (if 0x200 <= a < 0x200 + k {
                        rom@[a - 0x200]
                    } else {
                        old(self).ram[a]
                    }),
            decreases rom.len() - k,
        {
            proof {
                use_type_invariant(&*self);
            }
            self.ram[0x200 + k] = rom[k];
            k += 1;
        }
        proof {
            use_type_invariant(&*self);
        }
        assert(self@ =~= old(self)@.loaded(rom@));
    }

    /// Latches a snapshot of the sixteen keys for the next cycle.
    pub fn set_keypad(&mut self, keys: [bool; 16])
        ensures
            final(self)@ == old(self)@.with_keypad(keys@),
            final(self)@.wf(),
    {
        proof {
            use_type_invariant(&*self);
        }
        self.keypad = keys;
    }

    /// Tells the machine that the renderer has consumed the frame.
    pub fn clear_screen_drawed(&mut self)
        ensures
            final(self)@ == old(self)@.frame_consumed(),
            final(self)@.wf(),
    {
        proof {
            use_type_invariant(&*self);
        }
        self.screen_drawed = false;
    }

    /// The framebuffer: 32 rows of 64 cells, each 1 for a lit pixel and 0
    /// for a dark one.
    pub fn screen(&self) -> (cells: &[[u8; SCREEN_WIDTH]; SCREEN_HEIGHT])
        ensures
            screen_model(*cells) == self@.screen,
            cells_are_bits(*cells),
    {
        proof {
            use_type_invariant(self);
        }
        &self.screen
    }

    /// Whether a draw has changed the framebuffer since the renderer last
    /// consumed it.
    pub fn screen_drawed(&self) -> (flag: bool)
        ensures
            flag == self@.redraw,
    {
        self.screen_drawed
    }

    /// The key states latched for the current cycle.
    pub fn keypad(&self) -> (keys: [bool; 16])
        ensures
            keys@ == self@.keypad,
    {
        self.keypad
    }

    /// The registers `V0..VF`.
    pub fn registers(&self) -> (regs: [u8; 16])
        ensures
            regs@ == self@.regs,
    {
        self.regs
    }

    /// The whole memory.
    pub fn memory(&self) -> (ram: &[u8; MEM_SIZE])
        ensures
            ram@ == self@.memory,
    {
        &self.ram
    }

    /// The index register `I`.
    pub fn index(&self) -> (i: u16)
        ensures
            i == self@.index,
    {
        self.i
    }

    /// The program counter.
    pub fn program_counter(&self) -> (pc: u16)
        ensures
            pc == self@.pc,
    {
        self.pc
    }

    /// The return addresses of the calls in progress, the oldest first.
    pub fn return_addresses(&self) -> (addrs: Vec<u16>)
        ensures
            addrs@ == self@.stack,
    {
        proof {
            use_type_invariant(self);
        }
        let mut addrs: Vec<u16> = Vec::new();
        let mut k: usize = 0;
        while k < self.sp as usize
            invariant
                k <= self.sp <= 16,
                addrs@ == self.stack@.subrange(0, k as int),
            decreases self.sp - k,
        {
            addrs.push(self.stack[k]);
            proof {
                assert(addrs@ =~= self.stack@.subrange(0, k + 1));
            }
            k += 1;
        }
        addrs
    }

    /// The delay timer.
    pub fn delay_timer(&self) -> (t: u8)
        ensures
            t == self@.delay_timer,
    {
        self.delay_timer
    }

    /// The sound timer.
    pub fn sound_timer(&self) -> (t: u8)
        ensures
            t == self@.sound_timer,
    {
        self.sound_timer
    }

    /// Whether the machine runs or waits for a key.
    pub fn run_state(&self) -> (state: RunState)
        ensures
            state == self@.run,
    {
        self.state
    }

    /// Runs one cycle. While the machine waits for a key, the cycle only
    /// looks for a key that has just been pressed; else it fetches the
    /// instruction at the program counter and executes it. Either way the
    /// cycle ends with the tick of the timers. A cycle that fails leaves the
    /// machine as it was.
    pub fn emulate_cycle(&mut self) -> (res: Result<(), ChipError>)
        ensures
            exists|random: u8| lands(old(self)@, final(self)@, res, old(self)@.cycle(random)),
            !old(self)@.cycle_draws_random() ==> lands(
                old(self)@,
                final(self)@,
                res,
                old(self)@.cycle(0),
            ),
            final(self)@.wf(),
    {
        proof {
            use_type_invariant(&*self);
        }
        let ghost random: u8 = 0;
        match self.state {
            RunState::AwaitingKey { target } => {
                self.key_wait(target as usize);
            },
            RunState::Running => {
                let opcode = match self.fetch(self.pc as usize) {
                    Ok(word) => word,
                    Err(e) => return Err(e),
                };
                match self.execute(opcode) {
                    Ok(()) => {},
                    Err(e) => {
                        return Err(e);
                    },
                }
                proof {
                    random = choose|random: u8|
                        lands(old(self)@, self@, Ok(()), old(self)@.execute(opcode, random));
                }
            },
        }
        self.tick();
        proof {
            use_type_invariant(&*self);
        }
        assert(lands(old(self)@, self@, Ok(()), old(self)@.cycle(random)));
        Ok(())
    }

    /// The instruction word at `addr`: the byte there is its high half, the
    /// next byte its low half. Fails unless both bytes are inside memory.
    pub fn fetch(&self, addr: usize) -> (res: Result<usize, ChipError>)
        ensures
            res == self@.fetched(addr as int),
    {
        if addr > MEM_SIZE - 2 {
            return Err(ChipError::AddressBoundaryError);
        }
        // most significant byte
        let mbyte = self.ram[addr] as usize;
        // less significant byte
        let lbyte = self.ram[addr + 1] as usize;
        assert((mbyte << 8) | lbyte == mbyte * 256 + lbyte) by (bit_vector)
            requires
                mbyte < 256,
                lbyte < 256,
        ;
        Ok((mbyte << 8) | lbyte)
    }

    /// Decodes `opcode` and executes it. Only the low sixteen bits of
    /// `opcode` count. A word that matches no instruction is an
    /// `InvalidOpcode`. A failing instruction leaves the machine as it was.
    pub fn execute(&mut self, opcode: usize) -> (res: Result<(), ChipError>)
        ensures
            exists|random: u8|
                lands(old(self)@, final(self)@, res, old(self)@.execute(opcode, random)),
            !Machine::opcode_draws_random(opcode) ==> lands(
                old(self)@,
                final(self)@,
                res,
                old(self)@.execute(opcode, 0),
            ),
            final(self)@.wf(),
    {
        proof {
            use_type_invariant(&*self);
        }
        match decode(opcode) {
            Err(e) => {
                assert(lands(old(self)@, self@, Err(e), old(self)@.execute(opcode, 0)));
                Err(e)
            },
            Ok(Instruction::Rnd { x, kk }) => {
                let res = self.op_cxkk(x as usize, kk);
                proof {
                    let random = choose|random: u8|
                        lands(old(self)@, self@, res, old(self)@.rnd(x as int, kk, random));
                    assert(lands(old(self)@, self@, res, old(self)@.execute(opcode, random)));
                }
                res
            },
            Ok(ins) => {
                let res = self.perform(ins, 0);
                assert(lands(old(self)@, self@, res, old(self)@.execute(opcode, 0)));
                res
            },
        }
    }

    /// Executes one decoded instruction. `random` is the byte that a `Rnd`
    /// instruction uses; no other instruction looks at it. An operand out of
    /// its range is an `InvalidOpcode`. A failing instruction leaves the
    /// machine as it was.
    pub fn perform(&mut self, ins: Instruction, random: u8) -> (res: Result<(), ChipError>)
        ensures
            lands(old(self)@, final(self)@, res, old(self)@.perform(ins, random)),
            final(self)@.wf(),
    {
        proof {
            use_type_invariant(&*self);
            if old(self)@.perform(ins, random) is Ok {
                law_perform_keeps_shape(old(self)@, ins, random);
            }
        }
        if !ins.has_operands_in_range() {
            return Err(ChipError::InvalidOpcode);
        }
        match ins {
            Instruction::Cls => self.op_00e0(),
            Instruction::Ret => self.op_00ee(),
            Instruction::Jp { addr } => self.op_1nnn(addr),
            Instruction::Call { addr } => self.op_2nnn(addr),
            Instruction::SeByte { x, kk } => self.op_3xkk(x as usize, kk),
            Instruction::SneByte { x, kk } => self.op_4xkk(x as usize, kk),
            Instruction::SeReg { x, y } => self.op_5ky0(x as usize, y as usize),
            Instruction::LdByte { x, kk } => self.op_6xkk(x as usize, kk),
            Instruction::AddByte { x, kk } => self.op_7xkk(x as usize, kk),
            Instruction::LdReg { x, y } => self.op_8xy0(x as usize, y as usize),
            Instruction::Or { x, y } => self.op_8xy1(x as usize, y as usize),
            Instruction::And { x, y } => self.op_8xy2(x as usize, y as usize),
            Instruction::Xor { x, y } => self.op_8xy3(x as usize, y as usize),
            Instruction::AddReg { x, y } => self.op_8xy4(x as usize, y as usize),
            Instruction::Sub { x, y } => self.op_8xy5(x as usize, y as usize),
            Instruction::Shr { x } => self.op_8xy6(x as usize),
            Instruction::Subn { x, y } => self.op_8xy7(x as usize, y as usize),
            Instruction::Shl { x } => self.op_8xye(x as usize),
            Instruction::SneReg { x, y } => self.op_9xy0(x as usize, y as usize),
            Instruction::LdIndex { addr } => self.op_annn(addr),
            Instruction::JpOffset { addr } => self.op_bnnn(addr),
            Instruction::Rnd { x, kk } => self.rnd_with(x as usize, kk, random),
            Instruction::Drw { x, y, n } => self.op_dxyn(x as usize, y as usize, n as usize),
            Instruction::Skp { x } => self.op_ex9e(x as usize),
            Instruction::Sknp { x } => self.op_exa1(x as usize),
            Instruction::LdFromDelay { x } => self.op_fx07(x as usize),
            Instruction::LdKey { x } => self.op_fx0a(x as usize),
            Instruction::LdDelay { x } => self.op_fx15(x as usize),
            Instruction::LdSound { x } => self.op_fx18(x as usize),
            Instruction::AddIndex { x } => self.op_fx1e(x as usize),
            Instruction::LdFont { x } => self.op_fx29(x as usize),
            Instruction::Bcd { x } => self.op_fx33(x as usize),
            Instruction::Store { x } => self.op_fx55(x as usize),
            Instruction::Load { x } => self.op_fx65(x as usize),
        }
    }

    /// The end of a cycle: the timers count down and the key snapshot of
    /// this cycle becomes the previous one.
    fn tick(&mut self)
        ensures
            final(self)@ == old(self)@.tick(),
    {
        proof {
            use_type_invariant(&*self);
        }
        if self.delay_timer > 0 {
            self.delay_timer -= 1;
        }
        if self.sound_timer > 0 {
            self.sound_timer -= 1;
        }
        self.prev_keypad = self.keypad;
        assert(self@ =~= old(self)@.tick());
    }

    /// The look at the keys of a waiting machine: the lowest key that is down now
    /// and was up in the previous cycle goes to register `target`.
    fn key_wait(&mut self, target: usize)
        requires
            target < 16,
        ensures
            final(self)@ == old(self)@.key_wait(target as int),
    {
        let mut key: usize = 0;
        while key < 16
            invariant
                key <= 16,
                target < 16,
                *self == *old(self),
                self@.first_new_key() == self@.first_new_key_from(key as int),
            decreases 16 - key,
        {
            if self.keypad[key] && !self.prev_keypad[key] {
                proof {
                    use_type_invariant(&*self);
                }
                self.regs[target] = key as u8;
                self.state = RunState::Running;
                assert(self@ =~= old(self)@.key_wait(target as int));
                return ;
            }
            key += 1;
        }
    }

    /// The program counter moved forward by `delta`.
    fn next_pc(&self, delta: u16) -> (res: Result<u16, ChipError>)
        requires
            delta <= 4,
        ensures
            self@.advanced(delta as int) matches Ok(m) ==> res == Ok::<u16, ChipError>(m.pc),
            self@.advanced(delta as int) matches Err(e) ==> res == Err::<u16, ChipError>(e),
    {
        if self.pc > 0xFFFF - delta {
            Err(ChipError::AddressBoundaryError)
        } else {
            Ok(self.pc + delta)
        }
    }
}

} // verus!
