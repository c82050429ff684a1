use vstd::prelude::*;
use crate::chip::errors::ChipError;

verus! {

/// One decoded instruction with its operands.
///
/// `x` and `y` name registers, `kk` is an immediate byte, `addr` a 12-bit
/// address and `n` a sprite height.
#[derive(Debug, Clone, Copy, PartialEq, Eq, Structural)]
pub enum Instruction {
    /// `00E0`: clear the display.
    Cls,
    /// `00EE`: return from a subroutine.
    Ret,
    /// `1nnn`: jump to `addr`.
    Jp { addr: u16 },
    /// `2nnn`: call the subroutine at `addr`.
    Call { addr: u16 },
    /// `3xkk`: skip the next instruction if `Vx == kk`.
    SeByte { x: u8, kk: u8 },
    /// `4xkk`: skip the next instruction if `Vx != kk`.
    SneByte { x: u8, kk: u8 },
    /// `5xy0`: skip the next instruction if `Vx == Vy`.
    SeReg { x: u8, y: u8 },
    /// `6xkk`: `Vx = kk`.
    LdByte { x: u8, kk: u8 },
    /// `7xkk`: `Vx = Vx + kk`, wrapping, flag untouched.
    AddByte { x: u8, kk: u8 },
    /// `8xy0`: `Vx = Vy`.
    LdReg { x: u8, y: u8 },
    /// `8xy1`: `Vx = Vx | Vy`.
    Or { x: u8, y: u8 },
    /// `8xy2`: `Vx = Vx & Vy`.
    And { x: u8, y: u8 },
    /// `8xy3`: `Vx = Vx ^ Vy`.
    Xor { x: u8, y: u8 },
    /// `8xy4`: `Vx = Vx + Vy` with carry in `VF`.
    AddReg { x: u8, y: u8 },
    /// `8xy5`: `Vx = Vx - Vy` with `VF = Vx > Vy`.
    Sub { x: u8, y: u8 },
    /// `8xy6`: `Vx = Vx >> 1` with the lost bit in `VF`.
    Shr { x: u8 },
    /// `8xy7`: `Vx = Vy - Vx` with `VF = Vy > Vx`.
    Subn { x: u8, y: u8 },
    /// `8xyE`: `Vx = Vx << 1` with the lost bit in `VF`.
    Shl { x: u8 },
    /// `9xy0`: skip the next instruction if `Vx != Vy`.
    SneReg { x: u8, y: u8 },
    /// `Annn`: `I = addr`.
    LdIndex { addr: u16 },
    /// `Bnnn`: jump to `V0 + addr`.
    JpOffset { addr: u16 },
    /// `Cxkk`: `Vx = random byte & kk`.
    Rnd { x: u8, kk: u8 },
    /// `Dxyn`: draw the `n`-row sprite at `I` at position `(Vx, Vy)`.
    Drw { x: u8, y: u8, n: u8 },
    /// `Ex9E`: skip the next instruction if key `Vx` is pressed.
    Skp { x: u8 },
    /// `ExA1`: skip the next instruction if key `Vx` is not pressed.
    Sknp { x: u8 },
    /// `Fx07`: `Vx = delay timer`.
    LdFromDelay { x: u8 },
    /// `Fx0A`: wait for a key press and store the key in `Vx`.
    LdKey { x: u8 },
    /// `Fx15`: `delay timer = Vx`.
    LdDelay { x: u8 },
    /// `Fx18`: `sound timer = Vx`.
    LdSound { x: u8 },
    /// `Fx1E`: `I = I + Vx`.
    AddIndex { x: u8 },
    /// `Fx29`: `I = address of the glyph for Vx`.
    LdFont { x: u8 },
    /// `Fx33`: store the three decimal digits of `Vx` at `I`, `I+1`, `I+2`.
    Bcd { x: u8 },
    /// `Fx55`: store `V0..=Vx` in memory from `I` on.
    Store { x: u8 },
    /// `Fx65`: load `V0..=Vx` from memory from `I` on.
    Load { x: u8 },
}

/// The four nibbles of the low sixteen bits of `opcode`, most significant first.
pub open spec fn nibbles(opcode: usize) -> (u8, u8, u8, u8) {
    (
        ((opcode / 0x1000) % 16) as u8,
        ((opcode / 0x100) % 16) as u8,
        ((opcode / 0x10) % 16) as u8,
        (opcode % 16) as u8,
    )
}

/// The low twelve bits of `opcode`: its address operand.
pub open spec fn operand_nnn(opcode: usize) -> u16 {
    (opcode % 0x1000) as u16
}

/// The low eight bits of `opcode`: its immediate byte.
pub open spec fn operand_kk(opcode: usize) -> u8 {
    (opcode % 0x100) as u8
}

/// The instruction that the low sixteen bits of `opcode` encode, or
/// `InvalidOpcode` where they encode none.
pub open spec fn decoded(opcode: usize) -> Result<Instruction, ChipError> {
    let (op, x, y, n) = nibbles(opcode);
    let addr = operand_nnn(opcode);
    let kk = operand_kk(opcode);
    if op == 0x0 && x == 0x0 && y == 0xE && n == 0x0 {
        Ok(Instruction::Cls)
    } else if op == 0x0 && x == 0x0 && y == 0xE && n == 0xE {
        Ok(Instruction::Ret)
    } else if op == 0x1 {
        Ok(Instruction::Jp { addr })
    } else if op == 0x2 {
        Ok(Instruction::Call { addr })
    } else if op == 0x3 {
        Ok(Instruction::SeByte { x, kk })
    } else if op == 0x4 {
        Ok(Instruction::SneByte { x, kk })
    } else if op == 0x5 && n == 0x0 {
        Ok(Instruction::SeReg { x, y })
    } else if op == 0x6 {
        Ok(Instruction::LdByte { x, kk })
    } else if op == 0x7 {
        Ok(Instruction::AddByte { x, kk })
    } else if op == 0x8 && n == 0x0 {
        Ok(Instruction::LdReg { x, y })
    } else if op == 0x8 && n == 0x1 {
        Ok(Instruction::Or { x, y })
    } else if op == 0x8 && n == 0x2 {
        Ok(Instruction::And { x, y })
    } else if op == 0x8 && n == 0x3 {
        Ok(Instruction::Xor { x, y })
    } else if op == 0x8 && n == 0x4 {
        Ok(Instruction::AddReg { x, y })
    } else if op == 0x8 && n == 0x5 {
        Ok(Instruction::Sub { x, y })
    } else if op == 0x8 && n == 0x6 {
        Ok(Instruction::Shr { x })
    } else if op == 0x8 && n == 0x7 {
        Ok(Instruction::Subn { x, y })
    } else if op == 0x8 && n == 0xE {
        Ok(Instruction::Shl { x })
    } else if op == 0x9 && n == 0x0 {
        Ok(Instruction::SneReg { x, y })
    } else if op == 0xA {
        Ok(Instruction::LdIndex { addr })
    } else if op == 0xB {
        Ok(Instruction::JpOffset { addr })
    } else if op == 0xC {
        Ok(Instruction::Rnd { x, kk })
    } else if op == 0xD {
        Ok(Instruction::Drw { x, y, n })
    } else if op == 0xE && y == 0x9 && n == 0xE {
        Ok(Instruction::Skp { x })
    } else if op == 0xE && y == 0xA && n == 0x1 {
        Ok(Instruction::Sknp { x })
    } else if op == 0xF && y == 0x0 && n == 0x7 {
        Ok(Instruction::LdFromDelay { x })
    } else if op == 0xF && y == 0x0 && n == 0xA {
        Ok(Instruction::LdKey { x })
    } else if op == 0xF && y == 0x1 && n == 0x5 {
        Ok(Instruction::LdDelay { x })
    } else if op == 0xF && y == 0x1 && n == 0x8 {
        Ok(Instruction::LdSound { x })
    } else if op == 0xF && y == 0x1 && n == 0xE {
        Ok(Instruction::AddIndex { x })
    } else if op == 0xF && y == 0x2 && n == 0x9 {
        Ok(Instruction::LdFont { x })
    } else if op == 0xF && y == 0x3 && n == 0x3 {
        Ok(Instruction::Bcd { x })
    } else if op == 0xF && y == 0x5 && n == 0x5 {
        Ok(Instruction::Store { x })
    } else if op == 0xF && y == 0x6 && n == 0x5 {
        Ok(Instruction::Load { x })
    } else {
        Err(ChipError::InvalidOpcode)
    }
}

impl Instruction {
    /// Whether every operand is in the range that its encoding allows:
    /// register numbers and sprite heights below 16, addresses below 4096.
    pub open spec fn operands_in_range(self) -> bool {
        match self {
            Instruction::Cls | Instruction::Ret => true,
            Instruction::Jp { addr }
            | Instruction::Call { addr }
            | Instruction::LdIndex { addr }
            | Instruction::JpOffset { addr } => addr < 0x1000,
            Instruction::SeByte { x, .. }
            | Instruction::SneByte { x, .. }
            | Instruction::LdByte { x, .. }
            | Instruction::AddByte { x, .. }
            | Instruction::Rnd { x, .. } => x < 16,
            Instruction::SeReg { x, y }
            | Instruction::LdReg { x, y }
            | Instruction::Or { x, y }
            | Instruction::And { x, y }
            | Instruction::Xor { x, y }
            | Instruction::AddReg { x, y }
            | Instruction::Sub { x, y }
            | Instruction::Subn { x, y }
            | Instruction::SneReg { x, y } => x < 16 && y < 16,
            Instruction::Drw { x, y, n } => x < 16 && y < 16 && n < 16,
            Instruction::Shr { x }
            | Instruction::Shl { x }
            | Instruction::Skp { x }
            | Instruction::Sknp { x }
            | Instruction::LdFromDelay { x }
            | Instruction::LdKey { x }
            | Instruction::LdDelay { x }
            | Instruction::LdSound { x }
            | Instruction::AddIndex { x }
            | Instruction::LdFont { x }
            | Instruction::Bcd { x }
            | Instruction::Store { x }
            | Instruction::Load { x } => x < 16,
        }
    }

    /// Tests whether every operand is in the range that its encoding allows.
    pub fn has_operands_in_range(&self) -> (ok: bool)
        ensures
            ok == self.operands_in_range(),
    {
        match *self {
            Instruction::Cls | Instruction::Ret => true,
            Instruction::Jp { addr }
            | Instruction::Call { addr }
            | Instruction::LdIndex { addr }
            | Instruction::JpOffset { addr } => addr < 0x1000,
            Instruction::SeByte { x, .. }
            | Instruction::SneByte { x, .. }
            | Instruction::LdByte { x, .. }
            | Instruction::AddByte { x, .. }
            | Instruction::Rnd { x, .. } => x < 16,
            Instruction::SeReg { x, y }
            | Instruction::LdReg { x, y }
            | Instruction::Or { x, y }
            | Instruction::And { x, y }
            | Instruction::Xor { x, y }
            | Instruction::AddReg { x, y }
            | Instruction::Sub { x, y }
            | Instruction::Subn { x, y }
            | Instruction::SneReg { x, y } => x < 16 && y < 16,
            Instruction::Drw { x, y, n } => x < 16 && y < 16 && n < 16,
            Instruction::Shr { x }
            | Instruction::Shl { x }
            | Instruction::Skp { x }
            | Instruction::Sknp { x }
            | Instruction::LdFromDelay { x }
            | Instruction::LdKey { x }
            | Instruction::LdDelay { x }
            | Instruction::LdSound { x }
            | Instruction::AddIndex { x }
            | Instruction::LdFont { x }
            | Instruction::Bcd { x }
            | Instruction::Store { x }
            | Instruction::Load { x } => x < 16,
        }
    }
}

/// Splits the low sixteen bits of `opcode` into four nibbles, most
/// significant first. Higher bits are ignored.
pub fn to_nibbles(opcode: usize) -> (parts: (u8, u8, u8, u8))
    ensures
        parts == nibbles(opcode),
        parts.0 < 16 && parts.1 < 16 && parts.2 < 16 && parts.3 < 16,
{
    assert((opcode & 0xF000) >> 12 == (opcode / 0x1000) % 16) by (bit_vector);
    assert((opcode & 0x0F00) >> 8 == (opcode / 0x100) % 16) by (bit_vector);
    assert((opcode & 0x00F0) >> 4 == (opcode / 0x10) % 16) by (bit_vector);
    assert(opcode & 0x000F == opcode % 16) by (bit_vector);
    (
        ((opcode & 0xF000) >> 12) as u8,
        ((opcode & 0x0F00) >> 8) as u8,
        ((opcode & 0x00F0) >> 4) as u8,
        (opcode & 0x000F) as u8,
    )
}

/// Decodes the low sixteen bits of `opcode`. Returns `InvalidOpcode` exactly
/// when they match no instruction pattern.
pub fn decode(opcode: usize) -> (res: Result<Instruction, ChipError>)
    ensures
        res == decoded(opcode),
        res matches Ok(ins) ==> ins.operands_in_range(),
{
    let nib = to_nibbles(opcode);
    assert(opcode & 0x0FFF == opcode % 0x1000) by (bit_vector);
    assert(opcode & 0x00FF == opcode % 0x100) by (bit_vector);
    let addr = (opcode & 0x0FFF) as u16;
    let kk = (opcode & 0x00FF) as u8;
    let x = nib.1;
    let y = nib.2;
    let n = nib.3;
    match nib {
        (0x0, 0x0, 0xE, 0x0) => Ok(Instruction::Cls),
        (0x0, 0x0, 0xE, 0xE) => Ok(Instruction::Ret),
        (0x1, _, _, _) => Ok(Instruction::Jp { addr }),
        (0x2, _, _, _) => Ok(Instruction::Call { addr }),
        (0x3, _, _, _) => Ok(Instruction::SeByte { x, kk }),
        (0x4, _, _, _) => Ok(Instruction::SneByte { x, kk }),
        (0x5, _, _, 0x0) => Ok(Instruction::SeReg { x, y }),
        (0x6, _, _, _) => Ok(Instruction::LdByte { x, kk }),
        (0x7, _, _, _) => Ok(Instruction::AddByte { x, kk }),
        (0x8, _, _, 0x0) => Ok(Instruction::LdReg { x, y }),
        (0x8, _, _, 0x1) => Ok(Instruction::Or { x, y }),
        (0x8, _, _, 0x2) => Ok(Instruction::And { x, y }),
        (0x8, _, _, 0x3) => Ok(Instruction::Xor { x, y }),
        (0x8, _, _, 0x4) => Ok(Instruction::AddReg { x, y }),
        (0x8, _, _, 0x5) => Ok(Instruction::Sub { x, y }),
        (0x8, _, _, 0x6) => Ok(Instruction::Shr { x }),
        (0x8, _, _, 0x7) => Ok(Instruction::Subn { x, y }),
        (0x8, _, _, 0xE) => Ok(Instruction::Shl { x }),
        (0x9, _, _, 0x0) => Ok(Instruction::SneReg { x, y }),
        (0xA, _, _, _) => Ok(Instruction::LdIndex { addr }),
        (0xB, _, _, _) => Ok(Instruction::JpOffset { addr }),
        (0xC, _, _, _) => Ok(Instruction::Rnd { x, kk }),
        (0xD, _, _, _) => Ok(Instruction::Drw { x, y, n }),
        (0xE, _, 0x9, 0xE) => Ok(Instruction::Skp { x }),
        (0xE, _, 0xA, 0x1) => Ok(Instruction::Sknp { x }),
        (0xF, _, 0x0, 0x7) => Ok(Instruction::LdFromDelay { x }),
        (0xF, _, 0x0, 0xA) => Ok(Instruction::LdKey { x }),
        (0xF, _, 0x1, 0x5) => Ok(Instruction::LdDelay { x }),
        (0xF, _, 0x1, 0x8) => Ok(Instruction::LdSound { x }),
        (0xF, _, 0x1, 0xE) => Ok(Instruction::AddIndex { x }),
        (0xF, _, 0x2, 0x9) => Ok(Instruction::LdFont { x }),
        (0xF, _, 0x3, 0x3) => Ok(Instruction::Bcd { x }),
        (0xF, _, 0x5, 0x5) => Ok(Instruction::Store { x }),
        (0xF, _, 0x6, 0x5) => Ok(Instruction::Load { x }),
        _ => Err(ChipError::InvalidOpcode),
    }
}

} // verus!
