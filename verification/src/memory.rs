//! The 4096-byte address space with the built-in hexadecimal font.

use vstd::prelude::*;
use crate::error::Chip8Error;

verus! {

/// Number of addressable bytes.
pub const MEMORY_SIZE: usize = 4096;

/// Address at which a program image is placed, and at which execution starts.
pub const PROGRAM_START: u16 = 0x200;

/// Address of the first byte of the font: the sprite of digit 0.
pub const FONT_BASE: u16 = 0x050;

/// Bytes per font sprite.
pub const FONT_SPRITE_SIZE: u16 = 5;

/// The sixteen font sprites, digit 0 first, five rows each, the pixels of a
/// row in the high four bits of its byte.
pub const FONT: [u8; 80] = [
    0xF0, 0x90, 0x90, 0x90, 0xF0,
    0x20, 0x60, 0x20, 0x20, 0x70,
    0xF0, 0x10, 0xF0, 0x80, 0xF0,
    0xF0, 0x10, 0xF0, 0x10, 0xF0,
    0x90, 0x90, 0xF0, 0x10, 0x10,
    0xF0, 0x80, 0xF0, 0x10, 0xF0,
    0xF0, 0x80, 0xF0, 0x90, 0xF0,
    0xF0, 0x10, 0x20, 0x40, 0x40,
    0xF0, 0x90, 0xF0, 0x90, 0xF0,
    0xF0, 0x90, 0xF0, 0x10, 0xF0,
    0xF0, 0x90, 0xF0, 0x90, 0x90,
    0xE0, 0x90, 0xE0, 0x90, 0xE0,
    0xF0, 0x80, 0x80, 0x80, 0xF0,
    0xE0, 0x90, 0x90, 0x90, 0xE0,
    0xF0, 0x80, 0xF0, 0x80, 0xF0,
    0xF0, 0x80, 0xF0, 0x80, 0x80,
];

/// The bytes a fresh memory holds: the font from `FONT_BASE` on, zero
/// everywhere else.
pub open spec fn initial_memory() -> Seq<u8> {
    Seq::new(
        MEMORY_SIZE as nat,
        |a: int|
            if FONT_BASE <= a < FONT_BASE + 80 {
                FONT[a - FONT_BASE]
            } else {
                0u8
            },
    )
}

/// Where the sprite of `digit` starts.
pub open spec fn font_address(digit: u8) -> u16 {
    (FONT_BASE + FONT_SPRITE_SIZE * digit) as u16
}

/// `memory` after `rom` was copied to `PROGRAM_START` and the bytes after it.
pub open spec fn with_rom(memory: Seq<u8>, rom: Seq<u8>) -> Seq<u8> {
    Seq::new(
        memory.len(),
        |a: int|
            if PROGRAM_START <= a < PROGRAM_START + rom.len() {
                rom[a - PROGRAM_START]
            } else {
                memory[a]
            },
    )
}

/// The address space of the machine. Its view is the sequence of its 4096
/// bytes, by address.
pub struct Memory {
    data: [u8; 4096],
}

impl View for Memory {
    type V = Seq<u8>;

    closed spec fn view(&self) -> Seq<u8> {
        self.data@
    }
}

impl Memory {
    /// Every memory has exactly `MEMORY_SIZE` bytes.
    pub proof fn lemma_len(&self)
        ensures
            self@.len() == MEMORY_SIZE,
    {
    }

    /// A memory that holds the font and is zero elsewhere.
    pub fn new() -> (memory: Memory)
        ensures
            memory@ == initial_memory(),
    {
        let mut data: [u8; 4096] = [0; 4096];
        let mut k: usize = 0;
        while k < 80
            invariant
                k <= 80,
                forall|a: int|
                    0 <= a < 4096 ==> data@[a] == if FONT_BASE <= a < FONT_BASE + k {
                        FONT[a - FONT_BASE]
                    } else {
                        0u8
                    },
            decreases 80 - k,
        {
            data[FONT_BASE as usize + k] = FONT[k];
            k += 1;
        }
        assert(data@ =~= initial_memory());
        Memory { data }
    }

    /// The byte at `address`.
    pub fn read(&self, address: u16) -> (byte: u8)
        requires
            address < MEMORY_SIZE,
        ensures
            byte == self@[address as int],
    {
        self.data[address as usize]
    }

    /// Stores `byte` at `address` and leaves every other byte as it was.
    pub fn write(&mut self, address: u16, byte: u8)
        requires
            address < MEMORY_SIZE,
        ensures
            final(self)@ == old(self)@.update(address as int, byte),
    {
        self.data[address as usize] = byte;
    }

    /// Copies a program image to `PROGRAM_START` and the addresses after it.
    /// An image that would reach beyond the end of memory is rejected, and
    /// memory is then left untouched.
    pub fn load_rom(&mut self, rom: &[u8]) -> (loaded: Result<(), Chip8Error>)
        ensures
            loaded is Ok <==> PROGRAM_START + rom@.len() <= MEMORY_SIZE,
            loaded is Ok ==> final(self)@ == with_rom(old(self)@, rom@),
            loaded is Err ==> loaded == Err::<(), Chip8Error>(Chip8Error::RomTooLarge)
                && final(self)@ == old(self)@,
    {
        if rom.len() > MEMORY_SIZE - PROGRAM_START as usize {
            return Err(Chip8Error::RomTooLarge);
        }
        let mut k: usize = 0;
        while k < rom.len()
            invariant
                k <= rom@.len(),
                PROGRAM_START + rom@.len() <= MEMORY_SIZE,
                forall|a: int|
                    0 <= a < 4096 ==> self.data@[a] == if PROGRAM_START <= a < PROGRAM_START + k {
                        rom@[a - PROGRAM_START]
                    } else {
                        old(self).data@[a]
                    },
            decreases rom@.len() - k,
        {
            self.data[PROGRAM_START as usize + k] = rom[k];
            k += 1;
        }
        assert(self@ =~= with_rom(old(self)@, rom@));
        Ok(())
    }

    /// The address of the five-byte sprite that shows the hexadecimal digit
    /// `digit`.
    pub fn get_font_address(&self, digit: u8) -> (address: u16)
        requires
            digit < 16,
        ensures
            address == font_address(digit),
            address + FONT_SPRITE_SIZE <= MEMORY_SIZE,
    {
        FONT_BASE + FONT_SPRITE_SIZE * (digit as u16)
    }
}

} // verus!
