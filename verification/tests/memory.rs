use chip8::error::Chip8Error;
use chip8::memory::{Memory, FONT, FONT_BASE, FONT_SPRITE_SIZE, MEMORY_SIZE, PROGRAM_START};

#[test]
fn memory_constants() {
    assert_eq!(MEMORY_SIZE, 4096);
    assert_eq!(PROGRAM_START, 0x200);
    assert_eq!(FONT_SPRITE_SIZE, 5);
    assert_eq!(FONT.len(), 80);
    assert!((FONT_BASE as usize) + FONT.len() <= PROGRAM_START as usize);
}

#[test]
fn new_memory_holds_glyph_zero() {
    let memory = Memory::new();
    let base = memory.get_font_address(0);
    let expected = [0b1111_0000u8, 0b1001_0000, 0b1001_0000, 0b1001_0000, 0b1111_0000];
    for (row, byte) in expected.iter().enumerate() {
        assert_eq!(memory.read(base + row as u16), *byte);
    }
}

#[test]
fn new_memory_holds_every_glyph() {
    let memory = Memory::new();
    let glyphs: [[u8; 5]; 16] = [
        [0xF0, 0x90, 0x90, 0x90, 0xF0],
        [0x20, 0x60, 0x20, 0x20, 0x70],
        [0xF0, 0x10, 0xF0, 0x80, 0xF0],
        [0xF0, 0x10, 0xF0, 0x10, 0xF0],
        [0x90, 0x90, 0xF0, 0x10, 0x10],
        [0xF0, 0x80, 0xF0, 0x10, 0xF0],
        [0xF0, 0x80, 0xF0, 0x90, 0xF0],
        [0xF0, 0x10, 0x20, 0x40, 0x40],
        [0xF0, 0x90, 0xF0, 0x90, 0xF0],
        [0xF0, 0x90, 0xF0, 0x10, 0xF0],
        [0xF0, 0x90, 0xF0, 0x90, 0x90],
        [0xE0, 0x90, 0xE0, 0x90, 0xE0],
        [0xF0, 0x80, 0x80, 0x80, 0xF0],
        [0xE0, 0x90, 0x90, 0x90, 0xE0],
        [0xF0, 0x80, 0xF0, 0x80, 0xF0],
        [0xF0, 0x80, 0xF0, 0x80, 0x80],
    ];
    for digit in 0..16u8 {
        let base = memory.get_font_address(digit);
        for row in 0..5u16 {
            assert_eq!(memory.read(base + row), glyphs[digit as usize][row as usize]);
        }
    }
}

#[test]
fn new_memory_is_zero_outside_the_font() {
    let memory = Memory::new();
    for address in 0..4096u16 {
        if address < FONT_BASE || address >= FONT_BASE + 80 {
            assert_eq!(memory.read(address), 0, "address {}", address);
        }
    }
}

#[test]
fn font_addresses_are_contiguous() {
    let memory = Memory::new();
    assert_eq!(memory.get_font_address(0), 0x050);
    assert_eq!(memory.get_font_address(1), 0x055);
    assert_eq!(memory.get_font_address(0xA), 0x082);
    assert_eq!(memory.get_font_address(0xF), 0x09B);
}

#[test]
fn write_changes_one_byte_only() {
    let mut memory = Memory::new();
    memory.write(0x300, 0xAB);
    assert_eq!(memory.read(0x300), 0xAB);
    assert_eq!(memory.read(0x2FF), 0);
    assert_eq!(memory.read(0x301), 0);
    memory.write(0x300, 0x01);
    assert_eq!(memory.read(0x300), 0x01);
}

#[test]
fn read_and_write_reach_both_ends() {
    let mut memory = Memory::new();
    memory.write(0, 0x11);
    memory.write(4095, 0x22);
    assert_eq!(memory.read(0), 0x11);
    assert_eq!(memory.read(4095), 0x22);
}

#[test]
fn load_rom_copies_to_program_start() {
    let mut memory = Memory::new();
    let rom = [0x60u8, 0x05, 0x70, 0x0A];
    assert_eq!(memory.load_rom(&rom), Ok(()));
    assert_eq!(memory.read(0x1FF), 0);
    assert_eq!(memory.read(0x200), 0x60);
    assert_eq!(memory.read(0x201), 0x05);
    assert_eq!(memory.read(0x202), 0x70);
    assert_eq!(memory.read(0x203), 0x0A);
    assert_eq!(memory.read(0x204), 0);
    assert_eq!(memory.read(0x050), 0xF0);
}

#[test]
fn load_rom_accepts_an_empty_image() {
    let mut memory = Memory::new();
    memory.write(0x200, 0x77);
    assert_eq!(memory.load_rom(&[]), Ok(()));
    assert_eq!(memory.read(0x200), 0x77);
}

#[test]
fn load_rom_accepts_the_largest_image() {
    let mut memory = Memory::new();
    let rom = vec![0xEEu8; 4096 - 0x200];
    assert_eq!(memory.load_rom(&rom), Ok(()));
    assert_eq!(memory.read(0x200), 0xEE);
    assert_eq!(memory.read(4095), 0xEE);
    assert_eq!(memory.read(0x1FF), 0);
}

#[test]
fn load_rom_rejects_an_image_that_is_too_large() {
    let mut memory = Memory::new();
    memory.write(0x200, 0x77);
    let rom = vec![0xEEu8; 4096 - 0x200 + 1];
    assert_eq!(memory.load_rom(&rom), Err(Chip8Error::RomTooLarge));
    assert_eq!(memory.read(0x200), 0x77);
    assert_eq!(memory.read(0x201), 0);
    assert_eq!(memory.read(4095), 0);
}

#[test]
fn only_an_unknown_opcode_is_not_fatal() {
    assert!(!Chip8Error::UnknownOpcode(0x0123).is_fatal());
    assert!(Chip8Error::StackUnderflow.is_fatal());
    assert!(Chip8Error::AddressOutOfBounds.is_fatal());
    assert!(Chip8Error::RomTooLarge.is_fatal());
}
