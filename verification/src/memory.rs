//! The 4 KiB address space: font glyphs at the bottom, the program from
//! `0x200` upward.

use vstd::prelude::*;

verus! {

/// Number of addressable bytes.
pub const MEMORY_LENGTH: usize = 0x1000;

/// Address of the first loaded program byte, and the initial program
/// counter.
pub const PROGRAM_START_ADDR: usize = 0x200;

/// Address of the first font glyph.
pub const FONT_START_ADDR: usize = 0x000;

/// Bytes per font glyph.
pub const FONT_BYTES_PER_CHAR: u16 = 5;

/// The glyphs of the sixteen hexadecimal digits, five rows each.
pub const FONT_DATA: [u8; 80] = [
    0xF0, 0x90, 0x90, 0x90, 0xF0,
    0x20, 0x60, 0x20, 0x20, 0x70,
    0xF0, 0x10, 0xF0, 0x80, 0xF0,
    0xF0, 0x10, 0xF0, 0x10, 0xF0,
    0x90, 0x90, 0xF0, 0x10, 0x10,
    0xF0, 0x80, 0xF0, 0x10, 0xF0,
    0xF0, 0x80, 0xF0, 0x90, 0xF0,
    0xF0, 0x10, 0x20, 0x40, 0x40,
    0xF0, 0x90, 0xF0, 0x90, 0xF0,
    0xF0, 0x90, 0xF0, 0x10, 0xF0,
    0xF0, 0x90, 0xF0, 0x90, 0x90,
    0xE0, 0x90, 0xE0, 0x90, 0xE0,
    0xF0, 0x80, 0x80, 0x80, 0xF0,
    0xE0, 0x90, 0x90, 0x90, 0xE0,
    0xF0, 0x80, 0xF0, 0x80, 0xF0,
    0xF0, 0x80, 0xF0, 0x80, 0x80,
];

/// Main memory.
#[derive(Debug, PartialEq, Eq)]
pub struct Memory {
    /// The bytes, by address.
    pub bytes: [u8; 4096],
}

/// What a fresh memory holds at address `addr`: the font in its first
/// eighty bytes, zero elsewhere.
pub open spec fn initial_byte(addr: int) -> u8 {
    if 0 <= addr < 80 {
        FONT_DATA@[addr]
    } else {
        0u8
    }
}

/// Memory after `program` is copied to the program start address. What
/// does not fit below the end of memory is left out.
pub open spec fn loaded(memory: Seq<u8>, program: Seq<u8>) -> Seq<u8> {
    Seq::new(
        4096,
        |addr: int|
            if 0x200 <= addr < 0x200 + program.len() {
                program[addr - 0x200]
            } else {
                memory[addr]
            },
    )
}

/// The big-endian 16-bit word at `addr`, or `None` where its two bytes do
/// not both lie in memory.
pub open spec fn word_at(memory: Seq<u8>, addr: int) -> Option<u16> {
    if 0 <= addr && addr + 1 < 4096 {
        Some((memory[addr] * 256 + memory[addr + 1]) as u16)
    } else {
        None
    }
}

impl View for Memory {
    type V = Seq<u8>;

    open spec fn view(&self) -> Seq<u8> {
        self.bytes@
    }
}

impl Clone for Memory {
    fn clone(&self) -> (copy: Self)
        ensures
            copy == *self,
    {
        Memory { bytes: self.bytes }
    }
}

impl Memory {
    /// A memory that holds the font and is zero elsewhere.
    pub fn new() -> (mem: Self)
        ensures
            mem@ == Seq::new(4096, |addr: int| initial_byte(addr)),
    {
        let mut bytes: [u8; 4096] = [0; 4096];
        let mut k: usize = 0;
        while k < 80
            invariant
                k <= 80,
                forall|a: int| 0 <= a < k ==> bytes@[a] == FONT_DATA@[a],
                forall|a: int| k <= a < 4096 ==> bytes@[a] == 0,
            decreases 80 - k,
        {
            bytes[k] = FONT_DATA[k];
            k += 1;
        }
        Memory { bytes }
    }

    /// Copies `program` to the program start address and returns the number
    /// of bytes taken: all of it, or as much as fits below the end of memory.
    pub fn load_program(&mut self, program: &[u8]) -> (count: usize)
        ensures
            final(self)@ == loaded(old(self)@, program@),
            count == (if program@.len() <= 4096 - 0x200 {
                program@.len()
            } else {
                (4096 - 0x200) as nat
            }),
    {
        let room: usize = MEMORY_LENGTH - PROGRAM_START_ADDR;
        let count: usize = if program.len() <= room {
            program.len()
        } else {
            room
        };
        let mut k: usize = 0;
        while k < count
            invariant
                k <= count <= 4096 - 0x200,
                count <= program@.len(),
                forall|a: int| 0x200 <= a < 0x200 + k ==> self.bytes@[a] == program@[a - 0x200],
                forall|a: int|
                    0 <= a < 0x200 || 0x200 + k <= a < 4096 ==> self.bytes@[a] == old(
                        self,
                    ).bytes@[a],
            decreases count - k,
        {
            self.bytes[PROGRAM_START_ADDR + k] = program[k];
            k += 1;
        }
        count
    }

    /// The byte at `addr`, or `None` beyond the end of memory.
    pub fn read(&self, addr: usize) -> (byte: Option<u8>)
        ensures
            byte == (if addr < 4096 { Some(self@[addr as int]) } else { None }),
    {
        if addr < MEMORY_LENGTH {
            Some(self.bytes[addr])
        } else {
            None
        }
    }

    /// Stores `value` at `addr` and returns `true`; beyond the end of
    /// memory nothing is stored and `false` comes back.
    pub fn write(&mut self, addr: usize, value: u8) -> (stored: bool)
        ensures
            stored == (addr < 4096),
            final(self)@ == (if addr < 4096 {
                old(self)@.update(addr as int, value)
            } else {
                old(self)@
            }),
    {
        if addr < MEMORY_LENGTH {
            self.bytes[addr] = value;
            true
        } else {
            false
        }
    }

    /// The big-endian 16-bit word whose first byte is at `addr`, or `None`
    /// where the word reaches beyond the end of memory.
    pub fn read_word(&self, addr: usize) -> (word: Option<u16>)
        ensures
            word == word_at(self@, addr as int),
    {
        if addr < MEMORY_LENGTH - 1 {
            let high: u16 = self.bytes[addr] as u16;
            let low: u16 = self.bytes[addr + 1] as u16;
            Some(high * 256 + low)
        } else {
            None
        }
    }
}

} // verus!
