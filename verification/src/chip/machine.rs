use vstd::prelude::*;
use crate::chip::errors::ChipError;
use crate::chip::font::font;
use crate::chip::instruction::{decoded, Instruction};

verus! {

/// Whether the interpreter is executing instructions or waiting for a key.
#[derive(Debug, Clone, Copy, PartialEq, Eq, Structural)]
pub enum RunState {
    /// Each cycle fetches and executes one instruction.
    Running,
    /// Each cycle only looks for a key that has just been pressed; its number
    /// goes to register `target`.
    AwaitingKey { target: u8 },
}

/// The mathematical state of a CHIP-8 machine. Every contract of the
/// interpreter is stated over values of this type.
#[verifier::ext_equal]
pub struct Machine {
    /// The 4096 bytes of memory.
    pub memory: Seq<u8>,
    /// The sixteen registers `V0..VF`.
    pub regs: Seq<u8>,
    /// The index register `I`.
    pub index: u16,
    /// The program counter.
    pub pc: u16,
    /// The return addresses of the calls in progress, the oldest first.
    pub stack: Seq<u16>,
    /// The delay timer.
    pub delay_timer: u8,
    /// The sound timer.
    pub sound_timer: u8,
    /// The key states latched for the current cycle.
    pub keypad: Seq<bool>,
    /// The key states that were latched for the previous cycle.
    pub prev_keypad: Seq<bool>,
    /// The framebuffer: 32 rows of 64 pixels, `true` for a lit pixel.
    pub screen: Seq<Seq<bool>>,
    /// Running, or waiting for a key.
    pub run: RunState,
    /// Set by drawing; tells the renderer that the framebuffer changed.
    pub redraw: bool,
}

/// A framebuffer with every pixel off.
pub open spec fn blank_screen() -> Seq<Seq<bool>> {
    Seq::new(32, |cy: int| Seq::new(64, |cx: int| false))
}

/// Bit `7 - col` of `byte`: the pixel in column `col` of a sprite row, the
/// most significant bit being column 0.
pub open spec fn sprite_bit(byte: u8, col: int) -> bool {
    (byte >> ((7 - col) as u8)) & 1u8 == 1u8
}

/// How an executed step must relate the state before it, the state after it
/// and its result to what the model expects: on success the new state is the
/// expected one, on failure the error is the expected one and the state is
/// untouched.
pub open spec fn lands(
    before: Machine,
    after: Machine,
    res: Result<(), ChipError>,
    expected: Result<Machine, ChipError>,
) -> bool {
    match expected {
        Ok(m) => res is Ok && after == m,
        Err(e) => res == Err::<(), ChipError>(e) && after == before,
    }
}

impl Machine {
    /// The shape that every machine state has.
    pub open spec fn wf(self) -> bool {
        &&& self.memory.len() == 4096
        &&& self.regs.len() == 16
        &&& self.stack.len() <= 16
        &&& self.keypad.len() == 16
        &&& self.prev_keypad.len() == 16
        &&& self.screen.len() == 32
        &&& forall|cy: int| 0 <= cy < 32 ==> (#[trigger] self.screen[cy]).len() == 64
        &&& (self.run matches RunState::AwaitingKey { target } ==> target < 16)
    }

    /// The state of a machine that was just created: the font at the bottom
    /// of memory, the program counter at 0x200, everything else zero.
    pub open spec fn initial() -> Machine {
        Machine {
            memory: Seq::new(4096, |a: int| if a < 80 { font()[a] } else { 0u8 }),
            regs: Seq::new(16, |r: int| 0u8),
            index: 0,
            pc: 0x200,
            stack: Seq::empty(),
            delay_timer: 0,
            sound_timer: 0,
            keypad: Seq::new(16, |k: int| false),
            prev_keypad: Seq::new(16, |k: int| false),
            screen: blank_screen(),
            run: RunState::Running,
            redraw: false,
        }
    }

    /// The state after a program image was copied to memory from 0x200 on;
    /// what would fall behind the end of memory is dropped.
    pub open spec fn loaded(self, rom: Seq<u8>) -> Machine {
        Machine {
            memory: Seq::new(
                4096,
                |a: int| if 0x200 <= a < 0x200 + rom.len() { rom[a - 0x200] } else { self.memory[a] },
            ),
            ..self
        }
    }

    /// The state after the caller latched a new snapshot of the keys.
    pub open spec fn with_keypad(self, keys: Seq<bool>) -> Machine {
        Machine { keypad: keys, ..self }
    }

    /// The state after the renderer consumed the frame.
    pub open spec fn frame_consumed(self) -> Machine {
        Machine { redraw: false, ..self }
    }

    /// The state with register `x` set to `value`.
    pub open spec fn with_reg(self, x: int, value: u8) -> Machine {
        Machine { regs: self.regs.update(x, value), ..self }
    }

    /// The state with the program counter moved forward by `delta`, or
    /// `AddressBoundaryError` where the counter cannot hold the sum.
    pub open spec fn advanced(self, delta: int) -> Result<Machine, ChipError> {
        if self.pc + delta > 0xFFFF {
            Err(ChipError::AddressBoundaryError)
        } else {
            Ok(Machine { pc: (self.pc + delta) as u16, ..self })
        }
    }

    /// Moves past the next instruction as well if `skip` holds.
    pub open spec fn skipped(self, skip: bool) -> Result<Machine, ChipError> {
        self.advanced(if skip { 4 } else { 2 })
    }

    /// The instruction word at `addr`: two bytes, the first one the more
    /// significant. Needs both bytes inside memory.
    pub open spec fn fetched(self, addr: int) -> Result<usize, ChipError> {
        if addr > 4094 {
            Err(ChipError::AddressBoundaryError)
        } else {
            Ok((self.memory[addr] as int * 256 + self.memory[addr + 1] as int) as usize)
        }
    }

    /// Whether key number `key` exists and is down in the current snapshot.
    pub open spec fn key_down(self, key: int) -> bool {
        0 <= key < 16 && self.keypad[key]
    }

    /// Whether key `key` is down now and was up in the previous cycle.
    pub open spec fn newly_pressed(self, key: int) -> bool {
        self.keypad[key] && !self.prev_keypad[key]
    }

    /// The lowest key from `from` on that has just been pressed.
    pub open spec fn first_new_key_from(self, from: int) -> Option<u8>
        decreases 16 - from,
    {
        if from >= 16 || from < 0 {
            None
        } else if self.newly_pressed(from) {
            Some(from as u8)
        } else {
            self.first_new_key_from(from + 1)
        }
    }

    /// The lowest key that has just been pressed, if there is one.
    pub open spec fn first_new_key(self) -> Option<u8> {
        self.first_new_key_from(0)
    }

    // Each instruction below moves the program counter past itself unless
    // it says what else becomes of the counter, and fails with an
    // `AddressBoundaryError` where the counter cannot hold the new value.

    /// `00E0`, CLS: every pixel goes off. The redraw flag is not touched.
    pub open spec fn cls(self) -> Result<Machine, ChipError> {
        Machine { screen: blank_screen(), ..self }.advanced(2)
    }

    /// `00EE`, RET: the youngest return address leaves the stack and becomes
    /// the program counter. With no call in progress this is a
    /// `StackUnderflow`.
    pub open spec fn ret(self) -> Result<Machine, ChipError> {
        if self.stack.len() == 0 {
            Err(ChipError::StackUnderflow)
        } else {
            Ok(Machine { pc: self.stack.last(), stack: self.stack.drop_last(), ..self })
        }
    }

    /// `1nnn`, JP: the program counter becomes `addr`.
    pub open spec fn jp(self, addr: u16) -> Result<Machine, ChipError> {
        Ok(Machine { pc: addr, ..self })
    }

    /// `2nnn`, CALL: the address of the next instruction goes onto the stack
    /// and the program counter becomes `addr`. With sixteen calls in progress
    /// this is a `StackOverflow`; where the next instruction has no 16-bit
    /// address, an `AddressBoundaryError`.
    pub open spec fn call(self, addr: u16) -> Result<Machine, ChipError> {
        if self.stack.len() >= 16 {
            Err(ChipError::StackOverflow)
        } else if self.pc + 2 > 0xFFFF {
            Err(ChipError::AddressBoundaryError)
        } else {
            Ok(Machine { pc: addr, stack: self.stack.push((self.pc + 2) as u16), ..self })
        }
    }

    /// `3xkk`, SE: skips the next instruction if `Vx == kk`.
    pub open spec fn se_byte(self, x: int, kk: u8) -> Result<Machine, ChipError> {
        self.skipped(self.regs[x] == kk)
    }

    /// `4xkk`, SNE: skips the next instruction if `Vx != kk`.
    pub open spec fn sne_byte(self, x: int, kk: u8) -> Result<Machine, ChipError> {
        self.skipped(self.regs[x] != kk)
    }

    /// `5xy0`, SE: skips the next instruction if `Vx == Vy`.
    pub open spec fn se_reg(self, x: int, y: int) -> Result<Machine, ChipError> {
        self.skipped(self.regs[x] == self.regs[y])
    }

    /// `6xkk`, LD: `Vx` becomes `kk`.
    pub open spec fn ld_byte(self, x: int, kk: u8) -> Result<Machine, ChipError> {
        self.with_reg(x, kk).advanced(2)
    }

    /// `7xkk`, ADD: `Vx` becomes `Vx + kk` modulo 256. `VF` is not touched.
    pub open spec fn add_byte(self, x: int, kk: u8) -> Result<Machine, ChipError> {
        self.with_reg(x, ((self.regs[x] + kk) % 256) as u8).advanced(2)
    }

    /// `8xy0`, LD: `Vx` becomes `Vy`.
    pub open spec fn ld_reg(self, x: int, y: int) -> Result<Machine, ChipError> {
        self.with_reg(x, self.regs[y]).advanced(2)
    }

    /// `8xy1`, OR: `Vx` becomes `Vx | Vy`.
    pub open spec fn or(self, x: int, y: int) -> Result<Machine, ChipError> {
        self.with_reg(x, self.regs[x] | self.regs[y]).advanced(2)
    }

    /// `8xy2`, AND: `Vx` becomes `Vx & Vy`.
    pub open spec fn and(self, x: int, y: int) -> Result<Machine, ChipError> {
        self.with_reg(x, self.regs[x] & self.regs[y]).advanced(2)
    }

    /// `8xy3`, XOR: `Vx` becomes `Vx ^ Vy`.
    pub open spec fn xor(self, x: int, y: int) -> Result<Machine, ChipError> {
        self.with_reg(x, self.regs[x] ^ self.regs[y]).advanced(2)
    }

    /// `8xy4`, ADD: `VF` becomes 1 if `Vx + Vy` is above 255 and 0 if not; `Vx`
    /// becomes the sum modulo 256. The flag is written first, so with
    /// `x == 15` the sum prevails.
    pub open spec fn add_reg(self, x: int, y: int) -> Result<Machine, ChipError> {
        let sum = self.regs[x] + self.regs[y];
        self.with_reg(0xF, if sum > 255 { 1u8 } else { 0u8 }).with_reg(x, (sum % 256) as u8).advanced(2)
    }

    /// `8xy5`, SUB: `VF` becomes 1 if `Vx > Vy` and 0 if not; `Vx` becomes
    /// `Vx - Vy` modulo 256. The flag is written first, so with `x == 15` the
    /// difference prevails.
    pub open spec fn sub_reg(self, x: int, y: int) -> Result<Machine, ChipError> {
        let a = self.regs[x];
        let b = self.regs[y];
        self.with_reg(0xF, if a > b { 1u8 } else { 0u8 }).with_reg(x, ((a - b) % 256) as u8).advanced(2)
    }

    /// `8xy6`, SHR: `VF` becomes the lowest bit of `Vx`; `Vx` is halved.
    pub open spec fn shr(self, x: int) -> Result<Machine, ChipError> {
        let a = self.regs[x];
        self.with_reg(0xF, (a % 2) as u8).with_reg(x, (a / 2) as u8).advanced(2)
    }

    /// `8xy7`, SUBN: `VF` becomes 1 if `Vy > Vx` and 0 if not; `Vx` becomes
    /// `Vy - Vx` modulo 256.
    pub open spec fn subn_reg(self, x: int, y: int) -> Result<Machine, ChipError> {
        let a = self.regs[x];
        let b = self.regs[y];
        self.with_reg(0xF, if b > a { 1u8 } else { 0u8 }).with_reg(x, ((b - a) % 256) as u8).advanced(2)
    }

    /// `8xyE`, SHL: `VF` becomes the highest bit of `Vx`; `Vx` is doubled
    /// modulo 256.
    pub open spec fn shl(self, x: int) -> Result<Machine, ChipError> {
        let a = self.regs[x];
        self.with_reg(0xF, (a / 128) as u8).with_reg(x, ((a * 2) % 256) as u8).advanced(2)
    }

    /// `9xy0`, SNE: skips the next instruction if `Vx != Vy`.
    pub open spec fn sne_reg(self, x: int, y: int) -> Result<Machine, ChipError> {
        self.skipped(self.regs[x] != self.regs[y])
    }

    /// `Annn`, LD I: `I` becomes `addr`.
    pub open spec fn ld_index(self, addr: u16) -> Result<Machine, ChipError> {
        Machine { index: addr, ..self }.advanced(2)
    }

    /// `Bnnn`, JP V0: the program counter becomes `V0 + addr`.
    pub open spec fn jp_offset(self, addr: u16) -> Result<Machine, ChipError>
        recommends
            addr < 0x1000,
    {
        Ok(Machine { pc: (self.regs[0] + addr) as u16, ..self })
    }

    /// `Cxkk`, RND: `Vx` becomes `random & kk`, where `random` is the byte
    /// that was drawn.
    pub open spec fn rnd(self, x: int, kk: u8, random: u8) -> Result<Machine, ChipError> {
        self.with_reg(x, random & kk).advanced(2)
    }

    /// `Ex9E`, SKP: skips the next instruction if the key whose number is in
    /// `Vx` is down. A number of 16 or more names no key, and no key is not
    /// down.
    pub open spec fn skp(self, x: int) -> Result<Machine, ChipError> {
        self.skipped(self.key_down(self.regs[x] as int))
    }

    /// `ExA1`, SKNP: skips the next instruction if the key whose number is in
    /// `Vx` is not down.
    pub open spec fn sknp(self, x: int) -> Result<Machine, ChipError> {
        self.skipped(!self.key_down(self.regs[x] as int))
    }

    /// `Fx07`, LD: `Vx` becomes the delay timer.
    pub open spec fn ld_from_delay(self, x: int) -> Result<Machine, ChipError> {
        self.with_reg(x, self.delay_timer).advanced(2)
    }

    /// `Fx0A`, LD K: the machine starts to wait for a key, whose number will
    /// go to `Vx`.
    pub open spec fn ld_key(self, x: int) -> Result<Machine, ChipError> {
        Machine { run: RunState::AwaitingKey { target: x as u8 }, ..self }.advanced(2)
    }

    /// `Fx15`, LD DT: the delay timer becomes `Vx`.
    pub open spec fn ld_delay(self, x: int) -> Result<Machine, ChipError> {
        Machine { delay_timer: self.regs[x], ..self }.advanced(2)
    }

    /// `Fx18`, LD ST: the sound timer becomes `Vx`.
    pub open spec fn ld_sound(self, x: int) -> Result<Machine, ChipError> {
        Machine { sound_timer: self.regs[x], ..self }.advanced(2)
    }

    /// `Fx1E`, ADD I: `I` becomes `I + Vx`. Where sixteen bits cannot hold the
    /// sum this is an `AddressBoundaryError`.
    pub open spec fn add_index(self, x: int) -> Result<Machine, ChipError> {
        if self.index + self.regs[x] > 0xFFFF {
            Err(ChipError::AddressBoundaryError)
        } else {
            Machine { index: (self.index + self.regs[x]) as u16, ..self }.advanced(2)
        }
    }

    /// `Fx29`, LD F: `I` becomes `5 * Vx`, where the glyph for the digit in
    /// `Vx` starts.
    pub open spec fn ld_font(self, x: int) -> Result<Machine, ChipError> {
        Machine { index: (self.regs[x] * 5) as u16, ..self }.advanced(2)
    }

    /// `Fx33`, LD B: the hundreds, tens and units of `Vx` go to memory at `I`,
    /// `I+1` and `I+2`. Unless all three are inside memory this is an
    /// `AddressBoundaryError`.
    pub open spec fn bcd(self, x: int) -> Result<Machine, ChipError> {
        let v = self.regs[x];
        let at = self.index as int;
        if at + 2 > 4095 {
            Err(ChipError::AddressBoundaryError)
        } else {
            Machine {
                memory: self.memory.update(at, (v / 100) as u8).update(
                    at + 1,
                    ((v % 100) / 10) as u8,
                ).update(at + 2, (v % 10) as u8),
                ..self
            }.advanced(2)
        }
    }

    /// `Fx55`, LD [I]: `V0..=Vx` go to memory at `I..=I+x`; `I` stays. Unless
    /// all of these are inside memory this is an `AddressBoundaryError`.
    pub open spec fn store(self, x: int) -> Result<Machine, ChipError> {
        let at = self.index as int;
        if at + x > 4095 {
            Err(ChipError::AddressBoundaryError)
        } else {
            Machine {
                memory: Seq::new(
                    4096,
                    |a: int| if at <= a <= at + x { self.regs[a - at] } else { self.memory[a] },
                ),
                ..self
            }.advanced(2)
        }
    }

    /// `Fx65`, LD Vx: `V0..=Vx` are read from memory at `I..=I+x`; `I` stays.
    /// Unless all of these are inside memory this is an
    /// `AddressBoundaryError`.
    pub open spec fn load(self, x: int) -> Result<Machine, ChipError> {
        let at = self.index as int;
        if at + x > 4095 {
            Err(ChipError::AddressBoundaryError)
        } else {
            Machine {
                regs: Seq::new(16, |r: int| if r <= x { self.memory[at + r] } else { self.regs[r] }),
                ..self
            }.advanced(2)
        }
    }

    /// The pixel at (`row`, `col`) of the sprite that starts at `I`.
    pub open spec fn sprite_pixel(self, row: int, col: int) -> bool {
        sprite_bit(self.memory[self.index + row], col)
    }

    /// Whether an `n`-row sprite whose top left corner is at column `vx`,
    /// row `vy` has a set pixel on the screen cell (`cy`, `cx`). The sprite
    /// wraps around both edges of the screen.
    pub open spec fn sprite_covers(self, vx: int, vy: int, n: int, cy: int, cx: int) -> bool {
        let row = (cy - vy) % 32;
        let col = (cx - vx) % 64;
        row < n && col < 8 && self.sprite_pixel(row, col)
    }

    /// The framebuffer after the sprite was XORed onto it.
    pub open spec fn drawn_screen(self, vx: int, vy: int, n: int) -> Seq<Seq<bool>> {
        Seq::new(
            32,
            |cy: int|
                Seq::new(64, |cx: int| self.screen[cy][cx] != self.sprite_covers(vx, vy, n, cy, cx)),
        )
    }

    /// Whether drawing the sprite turns a lit pixel off.
    pub open spec fn sprite_collides(self, vx: int, vy: int, n: int) -> bool {
        exists|cy: int, cx: int|
            0 <= cy < 32 && 0 <= cx < 64 && self.screen[cy][cx] && #[trigger] self.sprite_covers(
                vx,
                vy,
                n,
                cy,
                cx,
            )
    }

    /// `Dxyn`, DRW: the `n` bytes at `I` are XORed onto the screen as a sprite
    /// of `n` rows of eight pixels with its top left corner at column `Vx`,
    /// row `Vy`; `VF` becomes 1 if that turns a lit pixel off and 0 if not;
    /// the redraw flag goes up. The position is read before `VF` is written.
    /// Unless the `n` bytes are inside memory this is an
    /// `AddressBoundaryError`.
    pub open spec fn drw(self, x: int, y: int, n: int) -> Result<Machine, ChipError> {
        let vx = self.regs[x] as int;
        let vy = self.regs[y] as int;
        if n > 0 && self.index + n > 4096 {
            Err(ChipError::AddressBoundaryError)
        } else {
            Machine {
                screen: self.drawn_screen(vx, vy, n),
                regs: self.regs.update(0xF, if self.sprite_collides(vx, vy, n) { 1u8 } else { 0u8 }),
                redraw: true,
                ..self
            }.advanced(2)
        }
    }

    /// The effect of one decoded instruction. `random` is the byte that a
    /// `Rnd` instruction draws; no other instruction looks at it. An operand
    /// out of range is an invalid opcode.
    pub open spec fn perform(self, ins: Instruction, random: u8) -> Result<Machine, ChipError> {
        if !ins.operands_in_range() {
            Err(ChipError::InvalidOpcode)
        } else {
            match ins {
                Instruction::Cls => self.cls(),
                Instruction::Ret => self.ret(),
                Instruction::Jp { addr } => self.jp(addr),
                Instruction::Call { addr } => self.call(addr),
                Instruction::SeByte { x, kk } => self.se_byte(x as int, kk),
                Instruction::SneByte { x, kk } => self.sne_byte(x as int, kk),
                Instruction::SeReg { x, y } => self.se_reg(x as int, y as int),
                Instruction::LdByte { x, kk } => self.ld_byte(x as int, kk),
                Instruction::AddByte { x, kk } => self.add_byte(x as int, kk),
                Instruction::LdReg { x, y } => self.ld_reg(x as int, y as int),
                Instruction::Or { x, y } => self.or(x as int, y as int),
                Instruction::And { x, y } => self.and(x as int, y as int),
                Instruction::Xor { x, y } => self.xor(x as int, y as int),
                Instruction::AddReg { x, y } => self.add_reg(x as int, y as int),
                Instruction::Sub { x, y } => self.sub_reg(x as int, y as int),
                Instruction::Shr { x } => self.shr(x as int),
                Instruction::Subn { x, y } => self.subn_reg(x as int, y as int),
                Instruction::Shl { x } => self.shl(x as int),
                Instruction::SneReg { x, y } => self.sne_reg(x as int, y as int),
                Instruction::LdIndex { addr } => self.ld_index(addr),
                Instruction::JpOffset { addr } => self.jp_offset(addr),
                Instruction::Rnd { x, kk } => self.rnd(x as int, kk, random),
                Instruction::Drw { x, y, n } => self.drw(x as int, y as int, n as int),
                Instruction::Skp { x } => self.skp(x as int),
                Instruction::Sknp { x } => self.sknp(x as int),
                Instruction::LdFromDelay { x } => self.ld_from_delay(x as int),
                Instruction::LdKey { x } => self.ld_key(x as int),
                Instruction::LdDelay { x } => self.ld_delay(x as int),
                Instruction::LdSound { x } => self.ld_sound(x as int),
                Instruction::AddIndex { x } => self.add_index(x as int),
                Instruction::LdFont { x } => self.ld_font(x as int),
                Instruction::Bcd { x } => self.bcd(x as int),
                Instruction::Store { x } => self.store(x as int),
                Instruction::Load { x } => self.load(x as int),
            }
        }
    }

    /// The effect of the instruction word `opcode`.
    pub open spec fn execute(self, opcode: usize, random: u8) -> Result<Machine, ChipError> {
        match decoded(opcode) {
            Ok(ins) => self.perform(ins, random),
            Err(e) => Err(e),
        }
    }

    /// Whether executing `opcode` draws a random byte.
    pub open spec fn opcode_draws_random(opcode: usize) -> bool {
        decoded(opcode) matches Ok(Instruction::Rnd { .. })
    }

    /// Whether the next cycle draws a random byte: the machine runs and the
    /// instruction at the program counter is a `Rnd`.
    pub open spec fn cycle_draws_random(self) -> bool {
        &&& self.run is Running
        &&& self.fetched(self.pc as int) matches Ok(opcode)
        &&& Self::opcode_draws_random(opcode)
    }

    /// The end of a cycle: both timers count down towards zero and the key
    /// snapshot of this cycle becomes the previous one.
    pub open spec fn tick(self) -> Machine {
        Machine {
            delay_timer: if self.delay_timer > 0 { (self.delay_timer - 1) as u8 } else { 0u8 },
            sound_timer: if self.sound_timer > 0 { (self.sound_timer - 1) as u8 } else { 0u8 },
            prev_keypad: self.keypad,
            ..self
        }
    }

    /// The look at the keys that replaces an instruction while the machine waits:
    /// a key that has just been pressed goes to register `target` and the
    /// machine runs again; without one nothing changes.
    pub open spec fn key_wait(self, target: int) -> Machine {
        match self.first_new_key() {
            Some(key) => Machine { run: RunState::Running, ..self.with_reg(target, key) },
            None => self,
        }
    }

    /// One whole cycle: the look at the keys while waiting, else fetch and execute;
    /// then the tick. A failed fetch or instruction fails the cycle.
    pub open spec fn cycle(self, random: u8) -> Result<Machine, ChipError> {
        match self.run {
            RunState::AwaitingKey { target } => Ok(self.key_wait(target as int).tick()),
            RunState::Running => match self.fetched(self.pc as int) {
                Err(e) => Err(e),
                Ok(opcode) => match self.execute(opcode, random) {
                    Err(e) => Err(e),
                    Ok(next) => Ok(next.tick()),
                },
            },
        }
    }
}

} // verus!
