//! The instruction set and its decoder.

use vstd::prelude::*;
use crate::alu::AluOp;

verus! {

/// A decoded instruction. `x` and `y` name general registers.
#[derive(Clone, Copy, Debug, PartialEq, Eq)]
pub enum Instruction {
    /// `00E0`: clear the display.
    ClearScreen,
    /// `00EE`: return from a subroutine.
    Return,
    /// `1NNN`: jump to `addr`.
    Jump { addr: u16 },
    /// `2NNN`: call the subroutine at `addr`.
    Call { addr: u16 },
    /// `3XNN`: skip the next instruction if `VX == byte`.
    SkipIfEqual { x: u8, byte: u8 },
    /// `4XNN`: skip the next instruction if `VX != byte`.
    SkipIfNotEqual { x: u8, byte: u8 },
    /// `5XY0`: skip the next instruction if `VX == VY`.
    SkipIfRegistersEqual { x: u8, y: u8 },
    /// `6XNN`: `VX <- byte`.
    LoadByte { x: u8, byte: u8 },
    /// `7XNN`: `VX <- VX + byte`, wrapping, flag untouched.
    AddByte { x: u8, byte: u8 },
    /// `8XY_`: a register-to-register operation.
    Alu { op: AluOp, x: u8, y: u8 },
    /// `9XY0`: skip the next instruction if `VX != VY`.
    SkipIfRegistersNotEqual { x: u8, y: u8 },
    /// `ANNN`: `I <- addr`.
    LoadIndex { addr: u16 },
    /// `BNNN`: jump to `addr + V0`.
    JumpOffset { addr: u16 },
    /// `CXNN`: `VX <- random byte & mask`.
    Random { x: u8, mask: u8 },
    /// `DXYN`: draw a sprite of `rows` rows from memory at `I`.
    Draw { x: u8, y: u8, rows: u8 },
    /// `EX9E`: skip the next instruction if the key in `VX` is down.
    SkipIfKeyDown { x: u8 },
    /// `EXA1`: skip the next instruction if the key in `VX` is up.
    SkipIfKeyUp { x: u8 },
    /// `FX07`: `VX <- delay timer`.
    ReadDelay { x: u8 },
    /// `FX0A`: wait for a key and store it in `VX`.
    WaitKey { x: u8 },
    /// `FX15`: `delay timer <- VX`.
    SetDelay { x: u8 },
    /// `FX18`: `sound timer <- VX`.
    SetSound { x: u8 },
    /// `FX1E`: `I <- I + VX`, wrapping at 16 bits.
    AddIndex { x: u8 },
    /// `FX29`: `I <-` address of the glyph for `VX`.
    FontAddress { x: u8 },
    /// `FX33`: store the decimal digits of `VX` at `I`, `I + 1`, `I + 2`.
    StoreBcd { x: u8 },
    /// `FX55`: store `V0..=VX` at `I`, advancing `I`.
    StoreRegisters { x: u8 },
    /// `FX65`: load `V0..=VX` from `I`, advancing `I`.
    LoadRegisters { x: u8 },
}

/// The leading hexadecimal digit of an instruction word: its family.
pub open spec fn family(word: u16) -> int {
    word as int / 0x1000
}

/// The second hexadecimal digit of an instruction word: the `X` field.
pub open spec fn field_x(word: u16) -> u8 {
    ((word as int / 0x100) % 0x10) as u8
}

/// The third hexadecimal digit of an instruction word: the `Y` field.
pub open spec fn field_y(word: u16) -> u8 {
    ((word as int / 0x10) % 0x10) as u8
}

/// The last hexadecimal digit of an instruction word: the `N` field.
pub open spec fn field_n(word: u16) -> u8 {
    (word as int % 0x10) as u8
}

/// The low byte of an instruction word: the `NN` field.
pub open spec fn field_nn(word: u16) -> u8 {
    (word as int % 0x100) as u8
}

/// The low twelve bits of an instruction word: the `NNN` field.
pub open spec fn field_nnn(word: u16) -> u16 {
    (word as int % 0x1000) as u16
}

/// The operation that the last digit of an `8XY_` word selects.
pub open spec fn alu_op_of(n: u8) -> Option<AluOp> {
    if n == 0x0 {
        Some(AluOp::Assign)
    } else if n == 0x1 {
        Some(AluOp::Or)
    } else if n == 0x2 {
        Some(AluOp::And)
    } else if n == 0x3 {
        Some(AluOp::Xor)
    } else if n == 0x4 {
        Some(AluOp::Add)
    } else if n == 0x5 {
        Some(AluOp::Sub)
    } else if n == 0x6 {
        Some(AluOp::ShiftRight)
    } else if n == 0x7 {
        Some(AluOp::SubFrom)
    } else if n == 0xE {
        Some(AluOp::ShiftLeft)
    } else {
        None
    }
}

/// The instruction of the `FX__` family that the low byte `nn` selects.
pub open spec fn f_family(x: u8, nn: u8) -> Option<Instruction> {
    if nn == 0x07 {
        Some(Instruction::ReadDelay { x })
    } else if nn == 0x0A {
        Some(Instruction::WaitKey { x })
    } else if nn == 0x15 {
        Some(Instruction::SetDelay { x })
    } else if nn == 0x18 {
        Some(Instruction::SetSound { x })
    } else if nn == 0x1E {
        Some(Instruction::AddIndex { x })
    } else if nn == 0x29 {
        Some(Instruction::FontAddress { x })
    } else if nn == 0x33 {
        Some(Instruction::StoreBcd { x })
    } else if nn == 0x55 {
        Some(Instruction::StoreRegisters { x })
    } else if nn == 0x65 {
        Some(Instruction::LoadRegisters { x })
    } else {
        None
    }
}

/// The instruction that a 16-bit word encodes, or `None` where the word is
/// no instruction.
pub open spec fn decoded(word: u16) -> Option<Instruction> {
    let x = field_x(word);
    let y = field_y(word);
    let n = field_n(word);
    let nn = field_nn(word);
    let nnn = field_nnn(word);
    let fam = family(word);
    if fam == 0x0 {
        if word == 0x00E0 {
            Some(Instruction::ClearScreen)
        } else if word == 0x00EE {
            Some(Instruction::Return)
        } else {
            None
        }
    } else if fam == 0x1 {
        Some(Instruction::Jump { addr: nnn })
    } else if fam == 0x2 {
        Some(Instruction::Call { addr: nnn })
    } else if fam == 0x3 {
        Some(Instruction::SkipIfEqual { x, byte: nn })
    } else if fam == 0x4 {
        Some(Instruction::SkipIfNotEqual { x, byte: nn })
    } else if fam == 0x5 {
        if n == 0 {
            Some(Instruction::SkipIfRegistersEqual { x, y })
        } else {
            None
        }
    } else if fam == 0x6 {
        Some(Instruction::LoadByte { x, byte: nn })
    } else if fam == 0x7 {
        Some(Instruction::AddByte { x, byte: nn })
    } else if fam == 0x8 {
        match alu_op_of(n) {
            Some(op) => Some(Instruction::Alu { op, x, y }),
            None => None,
        }
    } else if fam == 0x9 {
        if n == 0 {
            Some(Instruction::SkipIfRegistersNotEqual { x, y })
        } else {
            None
        }
    } else if fam == 0xA {
        Some(Instruction::LoadIndex { addr: nnn })
    } else if fam == 0xB {
        Some(Instruction::JumpOffset { addr: nnn })
    } else if fam == 0xC {
        Some(Instruction::Random { x, mask: nn })
    } else if fam == 0xD {
        Some(Instruction::Draw { x, y, rows: n })
    } else if fam == 0xE {
        if nn == 0x9E {
            Some(Instruction::SkipIfKeyDown { x })
        } else if nn == 0xA1 {
            Some(Instruction::SkipIfKeyUp { x })
        } else {
            None
        }
    } else {
        f_family(x, nn)
    }
}

/// The last hexadecimal digit of the word of an `8XY_` operation.
pub open spec fn alu_code(op: AluOp) -> int {
    match op {
        AluOp::Assign => 0x0,
        AluOp::Or => 0x1,
        AluOp::And => 0x2,
        AluOp::Xor => 0x3,
        AluOp::Add => 0x4,
        AluOp::Sub => 0x5,
        AluOp::ShiftRight => 0x6,
        AluOp::SubFrom => 0x7,
        AluOp::ShiftLeft => 0xE,
    }
}

/// The word that encodes an instruction, digit by digit.
pub open spec fn encoded(instr: Instruction) -> int {
    match instr {
        Instruction::ClearScreen => 0x00E0,
        Instruction::Return => 0x00EE,
        Instruction::Jump { addr } => 0x1000 + addr,
        Instruction::Call { addr } => 0x2000 + addr,
        Instruction::SkipIfEqual { x, byte } => 0x3000 + 0x100 * x + byte,
        Instruction::SkipIfNotEqual { x, byte } => 0x4000 + 0x100 * x + byte,
        Instruction::SkipIfRegistersEqual { x, y } => 0x5000 + 0x100 * x + 0x10 * y,
        Instruction::LoadByte { x, byte } => 0x6000 + 0x100 * x + byte,
        Instruction::AddByte { x, byte } => 0x7000 + 0x100 * x + byte,
        Instruction::Alu { op, x, y } => 0x8000 + 0x100 * x + 0x10 * y + alu_code(op),
        Instruction::SkipIfRegistersNotEqual { x, y } => 0x9000 + 0x100 * x + 0x10 * y,
        Instruction::LoadIndex { addr } => 0xA000 + addr,
        Instruction::JumpOffset { addr } => 0xB000 + addr,
        Instruction::Random { x, mask } => 0xC000 + 0x100 * x + mask,
        Instruction::Draw { x, y, rows } => 0xD000 + 0x100 * x + 0x10 * y + rows,
        Instruction::SkipIfKeyDown { x } => 0xE09E + 0x100 * x,
        Instruction::SkipIfKeyUp { x } => 0xE0A1 + 0x100 * x,
        Instruction::ReadDelay { x } => 0xF007 + 0x100 * x,
        Instruction::WaitKey { x } => 0xF00A + 0x100 * x,
        Instruction::SetDelay { x } => 0xF015 + 0x100 * x,
        Instruction::SetSound { x } => 0xF018 + 0x100 * x,
        Instruction::AddIndex { x } => 0xF01E + 0x100 * x,
        Instruction::FontAddress { x } => 0xF029 + 0x100 * x,
        Instruction::StoreBcd { x } => 0xF033 + 0x100 * x,
        Instruction::StoreRegisters { x } => 0xF055 + 0x100 * x,
        Instruction::LoadRegisters { x } => 0xF065 + 0x100 * x,
    }
}

/// A word is made of its four hexadecimal digits, and of its family digit
/// and its low twelve bits, and its low byte of its last two digits.
pub proof fn lemma_word_digits(word: u16)
    ensures
        word == 0x1000 * family(word) + 0x100 * field_x(word) + 0x10 * field_y(word) + field_n(
            word,
        ),
        word == 0x1000 * family(word) + field_nnn(word),
        field_nn(word) == 0x10 * field_y(word) + field_n(word),
        0 <= family(word) < 16,
        field_x(word) < 16,
        field_y(word) < 16,
        field_n(word) < 16,
        field_nnn(word) < 0x1000,
{
    assert(word == 0x1000 * (word / 0x1000) + 0x100 * ((word / 0x100) % 0x10) + 0x10 * ((word
        / 0x10) % 0x10) + word % 0x10) by (bit_vector);
    assert(word == 0x1000 * (word / 0x1000) + word % 0x1000) by (bit_vector);
    assert(word % 0x100 == 0x10 * ((word / 0x10) % 0x10) + word % 0x10) by (bit_vector);
    assert(word / 0x1000 < 16) by (bit_vector);
}

/// The digits that a word is put together from are the fields that the
/// decoder reads from it.
pub proof fn lemma_digits_of_word(fam: int, x: int, y: int, n: int)
    requires
        0 <= fam < 16,
        0 <= x < 16,
        0 <= y < 16,
        0 <= n < 16,
    ensures
        ({
            let word = (0x1000 * fam + 0x100 * x + 0x10 * y + n) as u16;
            &&& word == 0x1000 * fam + 0x100 * x + 0x10 * y + n
            &&& family(word) == fam
            &&& field_x(word) == x
            &&& field_y(word) == y
            &&& field_n(word) == n
            &&& field_nn(word) == 0x10 * y + n
            &&& field_nnn(word) == 0x100 * x + 0x10 * y + n
        }),
{
    let f = fam as u16;
    let x = x as u16;
    let y = y as u16;
    let n = n as u16;
    let word = (0x1000 * f + 0x100 * x + 0x10 * y + n) as u16;
    assert({
        &&& word == 0x1000 * f + 0x100 * x + 0x10 * y + n
        &&& word / 0x1000 == f
        &&& (word / 0x100) % 0x10 == x
        &&& (word / 0x10) % 0x10 == y
        &&& word % 0x10 == n
        &&& word % 0x100 == 0x10 * y + n
        &&& word % 0x1000 == 0x100 * x + 0x10 * y + n
    }) by (bit_vector)
        requires
            f < 16,
            x < 16,
            y < 16,
            n < 16,
            word == (0x1000 * f + 0x100 * x + 0x10 * y + n) as u16,
    ;
}

/// Every well-formed instruction has a 16-bit word, and that word decodes
/// to the instruction.
pub proof fn lemma_decode_inverts_encode(instr: Instruction)
    requires
        instr.well_formed(),
    ensures
        0 <= encoded(instr) <= 0xFFFF,
        decoded(encoded(instr) as u16) == Some(instr),
{
    match instr {
        Instruction::ClearScreen => lemma_digits_of_word(0x0, 0x0, 0xE, 0x0),
        Instruction::Return => lemma_digits_of_word(0x0, 0x0, 0xE, 0xE),
        Instruction::Jump { addr } => lemma_address_word(0x1, addr),
        Instruction::Call { addr } => lemma_address_word(0x2, addr),
        Instruction::SkipIfEqual { x, byte } => lemma_byte_word(0x3, x, byte),
        Instruction::SkipIfNotEqual { x, byte } => lemma_byte_word(0x4, x, byte),
        Instruction::SkipIfRegistersEqual { x, y } => lemma_digits_of_word(
            0x5,
            x as int,
            y as int,
            0x0,
        ),
        Instruction::LoadByte { x, byte } => lemma_byte_word(0x6, x, byte),
        Instruction::AddByte { x, byte } => lemma_byte_word(0x7, x, byte),
        Instruction::Alu { op, x, y } => lemma_digits_of_word(
            0x8,
            x as int,
            y as int,
            alu_code(op),
        ),
        Instruction::SkipIfRegistersNotEqual { x, y } => lemma_digits_of_word(
            0x9,
            x as int,
            y as int,
            0x0,
        ),
        Instruction::LoadIndex { addr } => lemma_address_word(0xA, addr),
        Instruction::JumpOffset { addr } => lemma_address_word(0xB, addr),
        Instruction::Random { x, mask } => lemma_byte_word(0xC, x, mask),
        Instruction::Draw { x, y, rows } => lemma_digits_of_word(
            0xD,
            x as int,
            y as int,
            rows as int,
        ),
        Instruction::SkipIfKeyDown { x } => lemma_digits_of_word(0xE, x as int, 0x9, 0xE),
        Instruction::SkipIfKeyUp { x } => lemma_digits_of_word(0xE, x as int, 0xA, 0x1),
        Instruction::ReadDelay { x } => lemma_digits_of_word(0xF, x as int, 0x0, 0x7),
        Instruction::WaitKey { x } => lemma_digits_of_word(0xF, x as int, 0x0, 0xA),
        Instruction::SetDelay { x } => lemma_digits_of_word(0xF, x as int, 0x1, 0x5),
        Instruction::SetSound { x } => lemma_digits_of_word(0xF, x as int, 0x1, 0x8),
        Instruction::AddIndex { x } => lemma_digits_of_word(0xF, x as int, 0x1, 0xE),
        Instruction::FontAddress { x } => lemma_digits_of_word(0xF, x as int, 0x2, 0x9),
        Instruction::StoreBcd { x } => lemma_digits_of_word(0xF, x as int, 0x3, 0x3),
        Instruction::StoreRegisters { x } => lemma_digits_of_word(0xF, x as int, 0x5, 0x5),
        Instruction::LoadRegisters { x } => lemma_digits_of_word(0xF, x as int, 0x6, 0x5),
    }
}

/// The word made of a family digit and a twelve-bit address has that
/// family and that address.
proof fn lemma_address_word(fam: int, addr: u16)
    requires
        0 <= fam < 16,
        addr < 0x1000,
    ensures
        ({
            let word = (0x1000 * fam + addr) as u16;
            &&& word == 0x1000 * fam + addr
            &&& family(word) == fam
            &&& field_nnn(word) == addr
        }),
{
    lemma_word_digits(addr);
    lemma_digits_of_word(
        fam,
        field_x(addr) as int,
        field_y(addr) as int,
        field_n(addr) as int,
    );
}

/// The word made of a family digit, a register digit and a byte has that
/// family, that register and that byte.
proof fn lemma_byte_word(fam: int, x: u8, byte: u8)
    requires
        0 <= fam < 16,
        x < 16,
    ensures
        ({
            let word = (0x1000 * fam + 0x100 * x + byte) as u16;
            &&& word == 0x1000 * fam + 0x100 * x + byte
            &&& family(word) == fam
            &&& field_x(word) == x
            &&& field_nn(word) == byte
        }),
{
    lemma_word_digits(byte as u16);
    lemma_digits_of_word(
        fam,
        x as int,
        field_y(byte as u16) as int,
        field_n(byte as u16) as int,
    );
}

/// Every word that decodes does so to a well-formed instruction, of which
/// it is the encoding: no two words decode to the same instruction.
pub proof fn lemma_encode_inverts_decode(word: u16)
    ensures
        decoded(word) matches Some(instr) ==> instr.well_formed() && encoded(instr) == word,
{
    lemma_word_digits(word);
}

impl Instruction {
    /// Whether every register operand names one of the sixteen registers,
    /// every address operand fits twelve bits and a sprite has at most
    /// fifteen rows, as holds of every decoded instruction.
    pub open spec fn well_formed(self) -> bool {
        match self {
            Instruction::ClearScreen | Instruction::Return => true,
            Instruction::Jump { addr } | Instruction::Call { addr } | Instruction::LoadIndex {
                addr,
            } | Instruction::JumpOffset { addr } => addr < 0x1000,
            Instruction::SkipIfEqual { x, .. } | Instruction::SkipIfNotEqual { x, .. }
            | Instruction::LoadByte { x, .. } | Instruction::AddByte { x, .. }
            | Instruction::Random { x, .. } => x < 16,
            Instruction::SkipIfRegistersEqual { x, y } | Instruction::SkipIfRegistersNotEqual {
                x,
                y,
            } | Instruction::Alu { x, y, .. } => x < 16 && y < 16,
            Instruction::Draw { x, y, rows } => x < 16 && y < 16 && rows < 16,
            Instruction::SkipIfKeyDown { x } | Instruction::SkipIfKeyUp { x }
            | Instruction::ReadDelay { x } | Instruction::WaitKey { x } | Instruction::SetDelay {
                x,
            } | Instruction::SetSound { x } | Instruction::AddIndex { x }
            | Instruction::FontAddress { x } | Instruction::StoreBcd { x }
            | Instruction::StoreRegisters { x } | Instruction::LoadRegisters { x } => x < 16,
        }
    }

    /// Whether the instruction moves the program counter: a jump, a call,
    /// a return or a conditional skip.
    pub(crate) open spec fn is_branch(self) -> bool {
        match self {
            Instruction::Return
            | Instruction::Jump { .. }
            | Instruction::Call { .. }
            | Instruction::JumpOffset { .. }
            | Instruction::SkipIfEqual { .. }
            | Instruction::SkipIfNotEqual { .. }
            | Instruction::SkipIfRegistersEqual { .. }
            | Instruction::SkipIfRegistersNotEqual { .. }
            | Instruction::SkipIfKeyDown { .. }
            | Instruction::SkipIfKeyUp { .. } => true,
            _ => false,
        }
    }

    /// Whether the instruction writes one general register and nothing
    /// else but the flag.
    pub(crate) open spec fn writes_register(self) -> bool {
        match self {
            Instruction::LoadByte { .. }
            | Instruction::AddByte { .. }
            | Instruction::Alu { .. }
            | Instruction::Random { .. }
            | Instruction::ReadDelay { .. } => true,
            _ => false,
        }
    }

    /// Whether the instruction sets the index register, a timer or the
    /// mode.
    pub(crate) open spec fn is_setting(self) -> bool {
        match self {
            Instruction::LoadIndex { .. }
            | Instruction::WaitKey { .. }
            | Instruction::SetDelay { .. }
            | Instruction::SetSound { .. }
            | Instruction::AddIndex { .. }
            | Instruction::FontAddress { .. } => true,
            _ => false,
        }
    }

    /// Whether the instruction is well formed.
    pub fn is_well_formed(&self) -> (ok: bool)
        ensures
            ok == self.well_formed(),
    {
        match *self {
            Instruction::ClearScreen | Instruction::Return => true,
            Instruction::Jump { addr } | Instruction::Call { addr } | Instruction::LoadIndex {
                addr,
            } | Instruction::JumpOffset { addr } => addr < 0x1000,
            Instruction::SkipIfEqual { x, .. } | Instruction::SkipIfNotEqual { x, .. }
            | Instruction::LoadByte { x, .. } | Instruction::AddByte { x, .. }
            | Instruction::Random { x, .. } => x < 16,
            Instruction::SkipIfRegistersEqual { x, y } | Instruction::SkipIfRegistersNotEqual {
                x,
                y,
            } | Instruction::Alu { x, y, .. } => x < 16 && y < 16,
            Instruction::Draw { x, y, rows } => x < 16 && y < 16 && rows < 16,
            Instruction::SkipIfKeyDown { x } | Instruction::SkipIfKeyUp { x }
            | Instruction::ReadDelay { x } | Instruction::WaitKey { x } | Instruction::SetDelay {
                x,
            } | Instruction::SetSound { x } | Instruction::AddIndex { x }
            | Instruction::FontAddress { x } | Instruction::StoreBcd { x }
            | Instruction::StoreRegisters { x } | Instruction::LoadRegisters { x } => x < 16,
        }
    }
}

/// Decodes one instruction word. `None` marks a word that is no
/// instruction.
pub fn decode(word: u16) -> (instr: Option<Instruction>)
    ensures
        instr == decoded(word),
        instr matches Some(i) ==> i.well_formed(),
{
    let x = ((word & 0x0F00) >> 8) as u8;
    let y = ((word & 0x00F0) >> 4) as u8;
    let n = (word & 0x000F) as u8;
    let nn = (word & 0x00FF) as u8;
    let nnn = word & 0x0FFF;
    let high_nibble = (word & 0xF000) >> 12;
    proof {
        assert((word & 0x0F00) >> 8 == (word / 0x100) % 0x10) by (bit_vector);
        assert((word & 0x00F0) >> 4 == (word / 0x10) % 0x10) by (bit_vector);
        assert(word & 0x000F == word % 0x10) by (bit_vector);
        assert(word & 0x00FF == word % 0x100) by (bit_vector);
        assert(word & 0x0FFF == word % 0x1000) by (bit_vector);
        assert((word & 0xF000) >> 12 == word / 0x1000) by (bit_vector);
    }
    match high_nibble {
        0x0 => match word {
            0x00E0 => Some(Instruction::ClearScreen),
            0x00EE => Some(Instruction::Return),
            _ => None,
        },
        0x1 => Some(Instruction::Jump { addr: nnn }),
        0x2 => Some(Instruction::Call { addr: nnn }),
        0x3 => Some(Instruction::SkipIfEqual { x, byte: nn }),
        0x4 => Some(Instruction::SkipIfNotEqual { x, byte: nn }),
        0x5 => match n {
            0x0 => Some(Instruction::SkipIfRegistersEqual { x, y }),
            _ => None,
        },
        0x6 => Some(Instruction::LoadByte { x, byte: nn }),
        0x7 => Some(Instruction::AddByte { x, byte: nn }),
        0x8 => match n {
            0x0 => Some(Instruction::Alu { op: AluOp::Assign, x, y }),
            0x1 => Some(Instruction::Alu { op: AluOp::Or, x, y }),
            0x2 => Some(Instruction::Alu { op: AluOp::And, x, y }),
            0x3 => Some(Instruction::Alu { op: AluOp::Xor, x, y }),
            0x4 => Some(Instruction::Alu { op: AluOp::Add, x, y }),
            0x5 => Some(Instruction::Alu { op: AluOp::Sub, x, y }),
            0x6 => Some(Instruction::Alu { op: AluOp::ShiftRight, x, y }),
            0x7 => Some(Instruction::Alu { op: AluOp::SubFrom, x, y }),
            0xE => Some(Instruction::Alu { op: AluOp::ShiftLeft, x, y }),
            _ => None,
        },
        0x9 => match n {
            0x0 => Some(Instruction::SkipIfRegistersNotEqual { x, y }),
            _ => None,
        },
        0xA => Some(Instruction::LoadIndex { addr: nnn }),
        0xB => Some(Instruction::JumpOffset { addr: nnn }),
        0xC => Some(Instruction::Random { x, mask: nn }),
        0xD => Some(Instruction::Draw { x, y, rows: n }),
        0xE => match nn {
            0x9E => Some(Instruction::SkipIfKeyDown { x }),
            0xA1 => Some(Instruction::SkipIfKeyUp { x }),
            _ => None,
        },
        _ => match nn {
            0x07 => Some(Instruction::ReadDelay { x }),
            0x0A => Some(Instruction::WaitKey { x }),
            0x15 => Some(Instruction::SetDelay { x }),
            0x18 => Some(Instruction::SetSound { x }),
            0x1E => Some(Instruction::AddIndex { x }),
            0x29 => Some(Instruction::FontAddress { x }),
            0x33 => Some(Instruction::StoreBcd { x }),
            0x55 => Some(Instruction::StoreRegisters { x }),
            0x65 => Some(Instruction::LoadRegisters { x }),
            _ => None,
        },
    }
}

} // verus!
