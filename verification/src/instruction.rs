//! The instruction set and its decoder.
//!
//! An instruction word is sixteen bits wide. Its top four bits select the
//! operation family; within some families the lowest four or eight bits select
//! the operation. The operands are cut out of fixed bit positions:
//!
//! ```text
//!   15..12   11..8   7..4   3..0
//!   family     x      y      n
//!                    '---- nn ----'
//!            '-------- nnn -------'
//! ```
use vstd::prelude::*;

verus! {

/// The bits that select the operation family.
pub const CODE_TYPE_MASK: u16 = 0xF000;

/// The bits that select the operation within families 0 and 8, and hold the
/// sprite height `n`.
pub const SUBCODE_TYPE_MASK: u16 = 0x000F;

/// The bits of the first register operand `x`.
pub const REGISTER_X_MASK: u16 = 0x0F00;

/// The bits of the second register operand `y`.
pub const REGISTER_Y_MASK: u16 = 0x00F0;

/// The bits of the immediate byte `nn`, which also select the operation
/// within families E and F.
pub const NN_MASK: u16 = 0x00FF;

/// The bits of the address `nnn`.
pub const NNN_MASK: u16 = 0x0FFF;

/// One decoded instruction. `x` and `y` name registers, `nn` is an eight-bit
/// immediate, `addr` a twelve-bit address and `n` a sprite height.
#[derive(Clone, Copy, Debug, PartialEq, Eq, Structural)]
pub enum Instruction {
    /// `0__0`: turn every pixel off.
    ClearDisplay,
    /// `0__E`: return from a subroutine.
    Return,
    /// `1nnn`: continue at `addr`.
    Jump { addr: u16 },
    /// `2nnn`: call the subroutine at `addr`.
    Call { addr: u16 },
    /// `3xnn`: skip the next instruction if register `x` equals `nn`.
    SkipIfEqual { x: usize, nn: u8 },
    /// `4xnn`: skip the next instruction if register `x` differs from `nn`.
    SkipIfNotEqual { x: usize, nn: u8 },
    /// `5xy_`: skip the next instruction if registers `x` and `y` are equal.
    SkipIfRegistersEqual { x: usize, y: usize },
    /// `6xnn`: register `x` becomes `nn`.
    SetRegister { x: usize, nn: u8 },
    /// `7xnn`: add `nn` to register `x`, wrapping, without touching the flag.
    AddImmediate { x: usize, nn: u8 },
    /// `8xy0`: register `x` becomes register `y`.
    Assign { x: usize, y: usize },
    /// `8xy1`: bitwise or of register `y` into register `x`.
    Or { x: usize, y: usize },
    /// `8xy2`: bitwise and of register `y` into register `x`.
    And { x: usize, y: usize },
    /// `8xy3`: bitwise exclusive or of register `y` into register `x`.
    Xor { x: usize, y: usize },
    /// `8xy4`: add register `y` to register `x`; the flag reports the carry.
    AddReg { x: usize, y: usize },
    /// `8xy5`: subtract register `y` from register `x`; the flag reports "no borrow".
    SubReg { x: usize, y: usize },
    /// `8xy6`: shift register `x` right by one; the flag receives the bit shifted out.
    ShiftRight { x: usize, y: usize },
    /// `8xy7`: register `x` becomes register `y` minus register `x`; the flag
    /// reports "no borrow".
    SubRegReversed { x: usize, y: usize },
    /// `8xyE`: shift register `x` left by one; the flag receives the bit shifted out.
    ShiftLeft { x: usize, y: usize },
    /// `9xy_`: skip the next instruction if registers `x` and `y` differ.
    SkipIfRegistersNotEqual { x: usize, y: usize },
    /// `Annn`: the index register becomes `addr`.
    SetIndex { addr: u16 },
    /// `Bnnn`: continue at `addr` plus register 0.
    JumpWithOffset { addr: u16 },
    /// `Cxnn`: register `x` becomes a random byte masked with `nn`.
    Random { x: usize, nn: u8 },
    /// `Dxyn`: draw the `n`-row sprite at the index register to the position
    /// held in registers `x` and `y`.
    Draw { x: usize, y: usize, n: u16 },
    /// `Ex9E`: skip the next instruction if the key named by register `x` is down.
    SkipIfKeyPressed { x: usize },
    /// `ExA1`: skip the next instruction if the key named by register `x` is up.
    SkipIfKeyNotPressed { x: usize },
    /// `Fx07`: register `x` becomes the delay timer.
    GetDelay { x: usize },
    /// `Fx0A`: wait until a key is down and store its code in register `x`.
    WaitForKey { x: usize },
    /// `Fx15`: the delay timer becomes register `x`.
    SetDelay { x: usize },
    /// `Fx18`: the sound timer becomes register `x`.
    SetSound { x: usize },
    /// `Fx1E`: add register `x` to the index register.
    AddToIndex { x: usize },
    /// `Fx29`: the index register becomes the address of the glyph for register `x`.
    SpriteLocationSet { x: usize },
    /// `Fx33`: store the three decimal digits of register `x` at the index register.
    StoreBcd { x: usize },
    /// `Fx55`: store registers 0 to `x` at the index register.
    RegisterDump { x: usize },
    /// `Fx65`: load registers 0 to `x` from the index register.
    RegisterLoad { x: usize },
    /// Any word that encodes none of the above.
    Unknown,
}

/// Bits 12 to 15: the operation family.
pub open spec fn opcode_family(word: u16) -> u16 {
    word / 0x1000
}

/// Bits 8 to 11: the first register operand.
pub open spec fn operand_x(word: u16) -> usize {
    ((word / 0x100) % 0x10) as usize
}

/// Bits 4 to 7: the second register operand.
pub open spec fn operand_y(word: u16) -> usize {
    ((word / 0x10) % 0x10) as usize
}

/// Bits 0 to 3: a sprite height, or the operation within a family.
pub open spec fn operand_n(word: u16) -> u16 {
    word % 0x10
}

/// Bits 0 to 7: an immediate byte, or the operation within a family.
pub open spec fn operand_nn(word: u16) -> u8 {
    (word % 0x100) as u8
}

/// Bits 0 to 11: an address.
pub open spec fn operand_nnn(word: u16) -> u16 {
    word % 0x1000
}

/// The register-to-register operations of family 8, selected by the low nibble.
pub open spec fn decode_arithmetic(word: u16) -> Instruction {
    let x = operand_x(word);
    let y = operand_y(word);
    let n = operand_n(word);
    if n == 0x0 {
        Instruction::Assign { x, y }
    } else if n == 0x1 {
        Instruction::Or { x, y }
    } else if n == 0x2 {
        Instruction::And { x, y }
    } else if n == 0x3 {
        Instruction::Xor { x, y }
    } else if n == 0x4 {
        Instruction::AddReg { x, y }
    } else if n == 0x5 {
        Instruction::SubReg { x, y }
    } else if n == 0x6 {
        Instruction::ShiftRight { x, y }
    } else if n == 0x7 {
        Instruction::SubRegReversed { x, y }
    } else if n == 0xE {
        Instruction::ShiftLeft { x, y }
    } else {
        Instruction::Unknown
    }
}

/// The timer, index and memory operations of family F, selected by the low byte.
pub open spec fn decode_misc(word: u16) -> Instruction {
    let x = operand_x(word);
    let nn = operand_nn(word);
    if nn == 0x07 {
        Instruction::GetDelay { x }
    } else if nn == 0x0A {
        Instruction::WaitForKey { x }
    } else if nn == 0x15 {
        Instruction::SetDelay { x }
    } else if nn == 0x18 {
        Instruction::SetSound { x }
    } else if nn == 0x1E {
        Instruction::AddToIndex { x }
    } else if nn == 0x29 {
        Instruction::SpriteLocationSet { x }
    } else if nn == 0x33 {
        Instruction::StoreBcd { x }
    } else if nn == 0x55 {
        Instruction::RegisterDump { x }
    } else if nn == 0x65 {
        Instruction::RegisterLoad { x }
    } else {
        Instruction::Unknown
    }
}

/// The instruction that a word encodes.
pub open spec fn decode_spec(word: u16) -> Instruction {
    let family = opcode_family(word);
    let x = operand_x(word);
    let y = operand_y(word);
    let n = operand_n(word);
    let nn = operand_nn(word);
    let addr = operand_nnn(word);
    if family == 0x0 {
        if n == 0x0 {
            Instruction::ClearDisplay
        } else if n == 0xE {
            Instruction::Return
        } else {
            Instruction::Unknown
        }
    } else if family == 0x1 {
        Instruction::Jump { addr }
    } else if family == 0x2 {
        Instruction::Call { addr }
    } else if family == 0x3 {
        Instruction::SkipIfEqual { x, nn }
    } else if family == 0x4 {
        Instruction::SkipIfNotEqual { x, nn }
    } else if family == 0x5 {
        Instruction::SkipIfRegistersEqual { x, y }
    } else if family == 0x6 {
        Instruction::SetRegister { x, nn }
    } else if family == 0x7 {
        Instruction::AddImmediate { x, nn }
    } else if family == 0x8 {
        decode_arithmetic(word)
    } else if family == 0x9 {
        Instruction::SkipIfRegistersNotEqual { x, y }
    } else if family == 0xA {
        Instruction::SetIndex { addr }
    } else if family == 0xB {
        Instruction::JumpWithOffset { addr }
    } else if family == 0xC {
        Instruction::Random { x, nn }
    } else if family == 0xD {
        Instruction::Draw { x, y, n }
    } else if family == 0xE {
        if nn == 0x9E {
            Instruction::SkipIfKeyPressed { x }
        } else if nn == 0xA1 {
            Instruction::SkipIfKeyNotPressed { x }
        } else {
            Instruction::Unknown
        }
    } else {
        decode_misc(word)
    }
}

impl Instruction {
    /// Every register operand is below 16, every address below 4096 and
    /// every sprite height below 16.
    pub open spec fn operands_in_range(self) -> bool {
        match self {
            Instruction::ClearDisplay | Instruction::Return | Instruction::Unknown => true,
            Instruction::Jump { addr }
            | Instruction::Call { addr }
            | Instruction::SetIndex { addr }
            | Instruction::JumpWithOffset { addr } => addr < 0x1000,
            Instruction::SkipIfEqual { x, nn }
            | Instruction::SkipIfNotEqual { x, nn }
            | Instruction::SetRegister { x, nn }
            | Instruction::AddImmediate { x, nn }
            | Instruction::Random { x, nn } => x < 16,
            Instruction::SkipIfRegistersEqual { x, y }
            | Instruction::SkipIfRegistersNotEqual { x, y }
            | Instruction::Assign { x, y }
            | Instruction::Or { x, y }
            | Instruction::And { x, y }
            | Instruction::Xor { x, y }
            | Instruction::AddReg { x, y }
            | Instruction::SubReg { x, y }
            | Instruction::ShiftRight { x, y }
            | Instruction::SubRegReversed { x, y }
            | Instruction::ShiftLeft { x, y } => x < 16 && y < 16,
            Instruction::Draw { x, y, n } => x < 16 && y < 16 && n < 16,
            Instruction::SkipIfKeyPressed { x }
            | Instruction::SkipIfKeyNotPressed { x }
            | Instruction::GetDelay { x }
            | Instruction::WaitForKey { x }
            | Instruction::SetDelay { x }
            | Instruction::SetSound { x }
            | Instruction::AddToIndex { x }
            | Instruction::SpriteLocationSet { x }
            | Instruction::StoreBcd { x }
            | Instruction::RegisterDump { x }
            | Instruction::RegisterLoad { x } => x < 16,
        }
    }
}

/// Decoding never yields an operand outside its range: whatever the word,
/// the result is either `Unknown` or an instruction whose register numbers,
/// address and height fit the machine.
pub proof fn lemma_decode_operands_in_range(word: u16)
    ensures
        decode_spec(word).operands_in_range(),
{
}

/// The mask-and-shift extraction of each field agrees with its position in the word.
proof fn lemma_fields(word: u16)
    ensures
        (word & CODE_TYPE_MASK) >> 12 == opcode_family(word),
        (word & REGISTER_X_MASK) >> 8 == operand_x(word),
        (word & REGISTER_Y_MASK) >> 4 == operand_y(word),
        word & SUBCODE_TYPE_MASK == operand_n(word),
        word & NN_MASK == operand_nn(word),
        word & NNN_MASK == operand_nnn(word),
{
    assert((word & 0xF000) >> 12 == word / 0x1000) by (bit_vector);
    assert((word & 0x0F00) >> 8 == (word / 0x100) % 0x10) by (bit_vector);
    assert((word & 0x00F0) >> 4 == (word / 0x10) % 0x10) by (bit_vector);
    assert(word & 0x000F == word % 0x10) by (bit_vector);
    assert(word & 0x00FF == word % 0x100) by (bit_vector);
    assert(word & 0x0FFF == word % 0x1000) by (bit_vector);
}

/// Classifies an instruction word. Every word decodes: one that encodes no
/// operation yields `Instruction::Unknown`.
pub fn decode(word: u16) -> (instruction: Instruction)
    ensures
        instruction == decode_spec(word),
        instruction.operands_in_range(),
{
    proof {
        lemma_fields(word);
    }
    let family: u16 = (word & CODE_TYPE_MASK) >> 12;
    let x: usize = ((word & REGISTER_X_MASK) >> 8) as usize;
    let y: usize = ((word & REGISTER_Y_MASK) >> 4) as usize;
    let n: u16 = word & SUBCODE_TYPE_MASK;
    let nn: u8 = (word & NN_MASK) as u8;
    let addr: u16 = word & NNN_MASK;
    match family {
        0x0 => match n {
            0x0 => Instruction::ClearDisplay,
            0xE => Instruction::Return,
            _ => Instruction::Unknown,
        },
        0x1 => Instruction::Jump { addr },
        0x2 => Instruction::Call { addr },
        0x3 => Instruction::SkipIfEqual { x, nn },
        0x4 => Instruction::SkipIfNotEqual { x, nn },
        0x5 => Instruction::SkipIfRegistersEqual { x, y },
        0x6 => Instruction::SetRegister { x, nn },
        0x7 => Instruction::AddImmediate { x, nn },
        0x8 => match n {
            0x0 => Instruction::Assign { x, y },
            0x1 => Instruction::Or { x, y },
            0x2 => Instruction::And { x, y },
            0x3 => Instruction::Xor { x, y },
            0x4 => Instruction::AddReg { x, y },
            0x5 => Instruction::SubReg { x, y },
            0x6 => Instruction::ShiftRight { x, y },
            0x7 => Instruction::SubRegReversed { x, y },
            0xE => Instruction::ShiftLeft { x, y },
            _ => Instruction::Unknown,
        },
        0x9 => Instruction::SkipIfRegistersNotEqual { x, y },
        0xA => Instruction::SetIndex { addr },
        0xB => Instruction::JumpWithOffset { addr },
        0xC => Instruction::Random { x, nn },
        0xD => Instruction::Draw { x, y, n },
        0xE => match nn {
            0x9E => Instruction::SkipIfKeyPressed { x },
            0xA1 => Instruction::SkipIfKeyNotPressed { x },
            _ => Instruction::Unknown,
        },
        _ => match nn {
            0x07 => Instruction::GetDelay { x },
            0x0A => Instruction::WaitForKey { x },
            0x15 => Instruction::SetDelay { x },
            0x18 => Instruction::SetSound { x },
            0x1E => Instruction::AddToIndex { x },
            0x29 => Instruction::SpriteLocationSet { x },
            0x33 => Instruction::StoreBcd { x },
            0x55 => Instruction::RegisterDump { x },
            0x65 => Instruction::RegisterLoad { x },
            _ => Instruction::Unknown,
        },
    }
}

} // verus!
