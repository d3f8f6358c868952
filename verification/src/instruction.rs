//! Instruction words and the instructions they encode.

use vstd::prelude::*;

verus! {

/// One instruction of the machine. `x` and `y` name registers; `addr` is a
/// 12-bit address, `value` and `mask` are 8-bit immediates.
#[derive(Clone, Copy, Debug, PartialEq, Eq, Structural)]
pub enum Instruction {
    /// `00E0`: turn every pixel off.
    ClearScreen,
    /// `00EE`: return from a subroutine.
    Return,
    /// `1nnn`: jump to `addr`.
    Jump { addr: u16 },
    /// `2nnn`: call the subroutine at `addr`.
    Call { addr: u16 },
    /// `3xnn`: skip the next instruction if `Vx == value`.
    SkipIfEqual { x: u8, value: u8 },
    /// `4xnn`: skip the next instruction if `Vx != value`.
    SkipIfNotEqual { x: u8, value: u8 },
    /// `5xy_`: skip the next instruction if `Vx == Vy`.
    SkipIfRegistersEqual { x: u8, y: u8 },
    /// `6xnn`: `Vx := value`.
    SetRegister { x: u8, value: u8 },
    /// `7xnn`: `Vx := Vx + value`, wrapping, flag untouched.
    AddValue { x: u8, value: u8 },
    /// `8xy0`: `Vx := Vy`.
    CopyRegister { x: u8, y: u8 },
    /// `8xy1`: `Vx := Vx | Vy`.
    Or { x: u8, y: u8 },
    /// `8xy2`: `Vx := Vx & Vy`.
    And { x: u8, y: u8 },
    /// `8xy3`: `Vx := Vx ^ Vy`.
    Xor { x: u8, y: u8 },
    /// `8xy4`: `Vx := Vx + Vy`, wrapping; the flag register tells of a carry.
    AddRegister { x: u8, y: u8 },
    /// `8xy5`: `Vx := Vx - Vy`, wrapping; the flag register tells that
    /// nothing was borrowed.
    Subtract { x: u8, y: u8 },
    /// `8x_6`: `Vx := Vx >> 1`; the flag register takes the bit shifted out.
    ShiftRight { x: u8 },
    /// `8xy7`: `Vx := Vy - Vx`, wrapping; the flag register tells that
    /// nothing was borrowed.
    SubtractFrom { x: u8, y: u8 },
    /// `8x_E`: `Vx := Vx << 1`; the flag register takes the bit shifted out.
    ShiftLeft { x: u8 },
    /// `9xy_`: skip the next instruction if `Vx != Vy`.
    SkipIfRegistersNotEqual { x: u8, y: u8 },
    /// `Annn`: index register := `addr`.
    SetIndex { addr: u16 },
    /// `Bnnn`: jump to `addr + V0`.
    JumpWithOffset { addr: u16 },
    /// `Cxnn`: `Vx :=` a random byte `& mask`.
    Random { x: u8, mask: u8 },
    /// `Dxyn`: draw the sprite of `rows` rows at (`Vx`, `Vy`).
    Draw { x: u8, y: u8, rows: u8 },
    /// `Ex9E`: skip the next instruction if the key in `Vx` is held down.
    SkipIfKeyPressed { x: u8 },
    /// `ExA1`: skip the next instruction if the key in `Vx` is not held down.
    SkipIfKeyNotPressed { x: u8 },
    /// `Fx07`: `Vx :=` delay timer.
    LoadDelayTimer { x: u8 },
    /// `Fx0A`: wait until a key is held down, then put it in `Vx`.
    WaitForKey { x: u8 },
    /// `Fx15`: delay timer := `Vx`.
    SetDelayTimer { x: u8 },
    /// `Fx18`: sound timer := `Vx`.
    SetSoundTimer { x: u8 },
    /// `Fx1E`: index register := index register + `Vx`.
    AddToIndex { x: u8 },
    /// `Fx29`: index register := address of the font sprite for `Vx`.
    LoadFontAddress { x: u8 },
    /// `Fx33`: store the three decimal digits of `Vx` at the index register.
    StoreBcd { x: u8 },
    /// `Fx55`: store `V0` to `Vx` at the index register.
    DumpRegisters { x: u8 },
    /// `Fx65`: load `V0` to `Vx` from the index register.
    LoadRegisters { x: u8 },
    /// A word that encodes no instruction.
    Unknown { opcode: u16 },
}

/// The opcode family: the top four bits of the word.
pub open spec fn family_of(opcode: u16) -> u8 {
    (opcode as int / 0x1000) as u8
}

/// The 12-bit address field: the low twelve bits of the word.
pub open spec fn addr_of(opcode: u16) -> u16 {
    (opcode as int % 0x1000) as u16
}

/// The 8-bit immediate field: the low byte of the word.
pub open spec fn value_of(opcode: u16) -> u8 {
    (opcode as int % 0x100) as u8
}

/// The 4-bit immediate field: the low four bits of the word.
pub open spec fn nibble_of(opcode: u16) -> u8 {
    (opcode as int % 0x10) as u8
}

/// The first register field: the low four bits of the high byte.
pub open spec fn x_of(opcode: u16) -> u8 {
    ((opcode as int / 0x100) % 0x10) as u8
}

/// The second register field: the high four bits of the low byte.
pub open spec fn y_of(opcode: u16) -> u8 {
    ((opcode as int / 0x10) % 0x10) as u8
}

/// The instruction that a word encodes.
pub open spec fn decode_spec(opcode: u16) -> Instruction {
    let addr = addr_of(opcode);
    let value = value_of(opcode);
    let rows = nibble_of(opcode);
    let x = x_of(opcode);
    let y = y_of(opcode);
    let unknown = Instruction::Unknown { opcode };
    match family_of(opcode) {
        0x0 => if opcode == 0x00E0 {
            Instruction::ClearScreen
        } else if opcode == 0x00EE {
            Instruction::Return
        } else {
            unknown
        },
        0x1 => Instruction::Jump { addr },
        0x2 => Instruction::Call { addr },
        0x3 => Instruction::SkipIfEqual { x, value },
        0x4 => Instruction::SkipIfNotEqual { x, value },
        0x5 => Instruction::SkipIfRegistersEqual { x, y },
        0x6 => Instruction::SetRegister { x, value },
        0x7 => Instruction::AddValue { x, value },
        0x8 => match rows {
            0x0 => Instruction::CopyRegister { x, y },
            0x1 => Instruction::Or { x, y },
            0x2 => Instruction::And { x, y },
            0x3 => Instruction::Xor { x, y },
            0x4 => Instruction::AddRegister { x, y },
            0x5 => Instruction::Subtract { x, y },
            0x6 => Instruction::ShiftRight { x },
            0x7 => Instruction::SubtractFrom { x, y },
            0xE => Instruction::ShiftLeft { x },
            _ => unknown,
        },
        0x9 => Instruction::SkipIfRegistersNotEqual { x, y },
        0xA => Instruction::SetIndex { addr },
        0xB => Instruction::JumpWithOffset { addr },
        0xC => Instruction::Random { x, mask: value },
        0xD => Instruction::Draw { x, y, rows },
        0xE => match value {
            0x9E => Instruction::SkipIfKeyPressed { x },
            0xA1 => Instruction::SkipIfKeyNotPressed { x },
            _ => unknown,
        },
        _ => match value {
            0x07 => Instruction::LoadDelayTimer { x },
            0x0A => Instruction::WaitForKey { x },
            0x15 => Instruction::SetDelayTimer { x },
            0x18 => Instruction::SetSoundTimer { x },
            0x1E => Instruction::AddToIndex { x },
            0x29 => Instruction::LoadFontAddress { x },
            0x33 => Instruction::StoreBcd { x },
            0x55 => Instruction::DumpRegisters { x },
            0x65 => Instruction::LoadRegisters { x },
            _ => unknown,
        },
    }
}

impl Instruction {
    /// Whether every field fits the bits that an instruction word has for
    /// it: a register below 16, an address below 4096, a row count below 16.
    pub open spec fn well_formed(self) -> bool {
        match self {
            Instruction::ClearScreen | Instruction::Return | Instruction::Unknown { .. } => true,
            Instruction::Jump { addr }
            | Instruction::Call { addr }
            | Instruction::SetIndex { addr }
            | Instruction::JumpWithOffset { addr } => addr < 0x1000,
            Instruction::SkipIfEqual { x, .. }
            | Instruction::SkipIfNotEqual { x, .. }
            | Instruction::SetRegister { x, .. }
            | Instruction::AddValue { x, .. }
            | Instruction::Random { x, .. }
            | Instruction::ShiftRight { x }
            | Instruction::ShiftLeft { x }
            | Instruction::SkipIfKeyPressed { x }
            | Instruction::SkipIfKeyNotPressed { x }
            | Instruction::LoadDelayTimer { x }
            | Instruction::WaitForKey { x }
            | Instruction::SetDelayTimer { x }
            | Instruction::SetSoundTimer { x }
            | Instruction::AddToIndex { x }
            | Instruction::LoadFontAddress { x }
            | Instruction::StoreBcd { x }
            | Instruction::DumpRegisters { x }
            | Instruction::LoadRegisters { x } => x < 16,
            Instruction::SkipIfRegistersEqual { x, y }
            | Instruction::CopyRegister { x, y }
            | Instruction::Or { x, y }
            | Instruction::And { x, y }
            | Instruction::Xor { x, y }
            | Instruction::AddRegister { x, y }
            | Instruction::Subtract { x, y }
            | Instruction::SubtractFrom { x, y }
            | Instruction::SkipIfRegistersNotEqual { x, y } => x < 16 && y < 16,
            Instruction::Draw { x, y, rows } => x < 16 && y < 16 && rows < 16,
        }
    }

    /// Decodes an instruction word. Every word decodes; one that encodes no
    /// instruction gives `Unknown`.
    pub fn decode(opcode: u16) -> (instruction: Instruction)
        ensures
            instruction == decode_spec(opcode),
            instruction.well_formed(),
    {
        let family: u16 = opcode >> 12;
        let addr: u16 = opcode & 0x0FFF;
        let value: u8 = (opcode & 0x00FF) as u8;
        let rows: u8 = (opcode & 0x000F) as u8;
        let x: u8 = ((opcode & 0x0F00) >> 8) as u8;
        let y: u8 = ((opcode & 0x00F0) >> 4) as u8;
        assert(opcode >> 12 == opcode / 0x1000) by (bit_vector);
        assert(opcode & 0x0FFF == opcode % 0x1000) by (bit_vector);
        assert(opcode & 0x00FF == opcode % 0x100) by (bit_vector);
        assert(opcode & 0x000F == opcode % 0x10) by (bit_vector);
        assert((opcode & 0x0F00) >> 8 == (opcode / 0x100) % 0x10) by (bit_vector);
        assert((opcode & 0x00F0) >> 4 == (opcode / 0x10) % 0x10) by (bit_vector);
        let unknown = Instruction::Unknown { opcode };
        match family {
            0x0 => match opcode {
                0x00E0 => Instruction::ClearScreen,
                0x00EE => Instruction::Return,
                _ => unknown,
            },
            0x1 => Instruction::Jump { addr },
            0x2 => Instruction::Call { addr },
            0x3 => Instruction::SkipIfEqual { x, value },
            0x4 => Instruction::SkipIfNotEqual { x, value },
            0x5 => Instruction::SkipIfRegistersEqual { x, y },
            0x6 => Instruction::SetRegister { x, value },
            0x7 => Instruction::AddValue { x, value },
            0x8 => match rows {
                0x0 => Instruction::CopyRegister { x, y },
                0x1 => Instruction::Or { x, y },
                0x2 => Instruction::And { x, y },
                0x3 => Instruction::Xor { x, y },
                0x4 => Instruction::AddRegister { x, y },
                0x5 => Instruction::Subtract { x, y },
                0x6 => Instruction::ShiftRight { x },
                0x7 => Instruction::SubtractFrom { x, y },
                0xE => Instruction::ShiftLeft { x },
                _ => unknown,
            },
            0x9 => Instruction::SkipIfRegistersNotEqual { x, y },
            0xA => Instruction::SetIndex { addr },
            0xB => Instruction::JumpWithOffset { addr },
            0xC => Instruction::Random { x, mask: value },
            0xD => Instruction::Draw { x, y, rows },
            0xE => match value {
                0x9E => Instruction::SkipIfKeyPressed { x },
                0xA1 => Instruction::SkipIfKeyNotPressed { x },
                _ => unknown,
            },
            _ => match value {
                0x07 => Instruction::LoadDelayTimer { x },
                0x0A => Instruction::WaitForKey { x },
                0x15 => Instruction::SetDelayTimer { x },
                0x18 => Instruction::SetSoundTimer { x },
                0x1E => Instruction::AddToIndex { x },
                0x29 => Instruction::LoadFontAddress { x },
                0x33 => Instruction::StoreBcd { x },
                0x55 => Instruction::DumpRegisters { x },
                0x65 => Instruction::LoadRegisters { x },
                _ => unknown,
            },
        }
    }
}

} // verus!
