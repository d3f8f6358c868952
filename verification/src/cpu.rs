//! The interpreter engine: registers, call stack and timers, and the
//! fetch, decode and execute cycle over memory, display and keypad.

use rand::rngs::ThreadRng;
use vstd::prelude::*;
use crate::error::Chip8Error;
use crate::frame_buffer::{FrameBuffer, HEIGHT, WIDTH};
use crate::instruction::{decode_spec, Instruction};
use crate::keypad::{lowest_pressed, Keypad};
use crate::memory::{font_address, Memory, MEMORY_SIZE, PROGRAM_START};
use crate::model::{
    can_fetch, flag_of, previous_pc, with_bcd, with_registers_dumped, with_registers_loaded,
    word_at, CpuState, Machine,
};
use crate::random::{random_byte, thread_rng};
use crate::sprite::{
    draw_row, lemma_sprite_clipped, lemma_sprite_empty, lemma_sprite_extended, sprite_drawn,
    sprite_erases, visible_rows,
};

verus! {

/// The processor. Its view is the state of its registers, call stack and
/// timers.
pub struct CPU {
    v: [u8; 16],
    i: u16,
    pc: u16,
    stack: Vec<u16>,
    delay_timer: u8,
    sound_timer: u8,
    rng: ThreadRng,
}

impl View for CPU {
    type V = CpuState;

    closed spec fn view(&self) -> CpuState {
        CpuState {
            v: self.v@,
            i: self.i,
            pc: self.pc,
            stack: self.stack@,
            delay_timer: self.delay_timer,
            sound_timer: self.sound_timer,
        }
    }
}

impl CPU {
    /// Every processor has sixteen registers.
    pub proof fn lemma_well_formed(&self)
        ensures
            self@.well_formed(),
    {
    }

    /// A processor just switched on.
    pub fn new() -> (cpu: CPU)
        ensures
            cpu@ == CpuState::initial(),
    {
        let cpu = CPU {
            v: [0; 16],
            i: 0,
            pc: PROGRAM_START,
            stack: Vec::new(),
            delay_timer: 0,
            sound_timer: 0,
            rng: thread_rng(),
        };
        assert(cpu@.v =~= CpuState::initial().v);
        cpu
    }

    /// The value of register `x`.
    pub fn register(&self, x: u8) -> (value: u8)
        requires
            x < 16,
        ensures
            value == self@.v[x as int],
    {
        self.v[x as usize]
    }

    /// The value of the index register.
    pub fn index_register(&self) -> (i: u16)
        ensures
            i == self@.i,
    {
        self.i
    }

    /// The value of the program counter.
    pub fn program_counter(&self) -> (pc: u16)
        ensures
            pc == self@.pc,
    {
        self.pc
    }

    /// The number of calls that have not returned yet.
    pub fn stack_depth(&self) -> (depth: usize)
        ensures
            depth == self@.stack.len(),
    {
        self.stack.len()
    }

    /// The value of the delay timer.
    pub fn delay_timer(&self) -> (timer: u8)
        ensures
            timer == self@.delay_timer,
    {
        self.delay_timer
    }

    /// The value of the sound timer.
    pub fn sound_timer(&self) -> (timer: u8)
        ensures
            timer == self@.sound_timer,
    {
        self.sound_timer
    }

    /// One timing tick: each timer that is not 0 goes down by one. The two
    /// timers run independently of each other.
    pub fn decrement_timer(&mut self)
        ensures
            final(self)@ == old(self)@.after_tick(),
    {
        if self.delay_timer > 0 {
            self.delay_timer -= 1;
        }
        if self.sound_timer > 0 {
            self.sound_timer -= 1;
        }
    }

    /// Reads the instruction word at the program counter, high byte first,
    /// and moves the program counter past it. Where the word does not lie
    /// in memory, nothing is changed.
    pub fn fetch(&mut self, memory: &Memory) -> (fetched: Result<u16, Chip8Error>)
        ensures
            fetched is Ok <==> can_fetch(old(self)@.pc),
            fetched matches Ok(word) ==> word == word_at(memory@, old(self)@.pc) && final(self)@
                == old(self)@.after_fetch(),
            fetched is Err ==> fetched == Err::<u16, Chip8Error>(Chip8Error::AddressOutOfBounds)
                && final(self)@ == old(self)@,
    {
        if self.pc as usize + 1 >= MEMORY_SIZE {
            return Err(Chip8Error::AddressOutOfBounds);
        }
        let hi: u16 = memory.read(self.pc) as u16;
        let lo: u16 = memory.read(self.pc + 1) as u16;
        self.pc += 2;
        assert(hi < 0x100 && lo < 0x100 ==> (hi << 8) | lo == hi * 0x100 + lo) by (bit_vector);
        Ok((hi << 8) | lo)
    }

    /// Puts `flag` into the flag register.
    fn set_flag(&mut self, flag: u8)
        ensures
            final(self)@ == old(self)@.with_flag(flag),
    {
        self.v[0xF] = flag;
    }

    /// Puts `value` into register `x`.
    fn set_register(&mut self, x: u8, value: u8)
        requires
            x < 16,
        ensures
            final(self)@ == old(self)@.with_register(x as int, value),
    {
        self.v[x as usize] = value;
    }

    /// Skips the next instruction if `condition` holds.
    fn skip_if(&mut self, condition: bool)
        ensures
            final(self)@ == old(self)@.skip_if(condition),
    {
        if condition {
            self.pc = self.pc.wrapping_add(2);
        }
    }

    /// `Vx := Vx + Vy`, wrapping; the flag register tells of a carry.
    fn add_register(&mut self, x: u8, y: u8)
        requires
            x < 16,
            y < 16,
        ensures
            final(self)@ == old(self)@.with_register(
                x as int,
                ((old(self)@.v[x as int] + old(self)@.v[y as int]) % 0x100) as u8,
            ).with_flag(flag_of(old(self)@.v[x as int] + old(self)@.v[y as int] > 0xFF)),
    {
        let vx: u8 = self.v[x as usize];
        let vy: u8 = self.v[y as usize];
        match vx.checked_add(vy) {
            Some(sum) => {
                self.v[x as usize] = sum;
                self.v[0xF] = 0;
            },
            None => {
                self.v[x as usize] = vx.wrapping_add(vy);
                self.v[0xF] = 1;
            },
        }
    }

    /// `Vx := minuend - subtrahend`, wrapping; the flag register tells that
    /// nothing was borrowed.
    fn subtract(&mut self, x: u8, minuend: u8, subtrahend: u8)
        requires
            x < 16,
        ensures
            final(self)@ == old(self)@.with_register(
                x as int,
                ((minuend - subtrahend) % 0x100) as u8,
            ).with_flag(flag_of(minuend >= subtrahend)),
    {
        self.v[x as usize] = minuend.wrapping_sub(subtrahend);
        self.v[0xF] = if minuend >= subtrahend {
            1
        } else {
            0
        };
    }

    /// `Vx := Vx >> 1`; the flag register takes the bit shifted out.
    fn shift_right(&mut self, x: u8)
        requires
            x < 16,
        ensures
            final(self)@ == old(self)@.with_register(
                x as int,
                (old(self)@.v[x as int] / 2) as u8,
            ).with_flag((old(self)@.v[x as int] % 2) as u8),
    {
        let vx: u8 = self.v[x as usize];
        assert(vx >> 1 == vx / 2 && vx & 1 == vx % 2) by (bit_vector);
        let shifted_out: u8 = vx & 0x1;
        self.v[x as usize] = vx >> 1;
        self.v[0xF] = shifted_out;
    }

    /// `Vx := Vx << 1`; the flag register takes the bit shifted out.
    fn shift_left(&mut self, x: u8)
        requires
            x < 16,
        ensures
            final(self)@ == old(self)@.with_register(
                x as int,
                ((old(self)@.v[x as int] * 2) % 0x100) as u8,
            ).with_flag((old(self)@.v[x as int] / 0x80) as u8),
    {
        let vx: u8 = self.v[x as usize];
        assert(vx << 1 == (vx * 2) % 0x100 && (vx >> 7) & 1 == vx / 0x80) by (bit_vector);
        let shifted_out: u8 = (vx >> 7) & 0x1;
        self.v[x as usize] = vx << 1;
        self.v[0xF] = shifted_out;
    }

    /// Index register := index register + `Vx`, wrapping; the flag register
    /// is set to 1 if the sum lies beyond the last address, and is left as
    /// it is otherwise.
    fn add_to_index(&mut self, x: u8)
        requires
            x < 16,
        ensures
            final(self)@ == if old(self)@.i + old(self)@.v[x as int] > 0x0FFF {
                old(self)@.with_index(
                    ((old(self)@.i + old(self)@.v[x as int]) % 0x1_0000) as u16,
                ).with_flag(1)
            } else {
                old(self)@.with_index(((old(self)@.i + old(self)@.v[x as int]) % 0x1_0000) as u16)
            },
    {
        let vx: u16 = self.v[x as usize] as u16;
        let beyond: bool = self.i as u32 + vx as u32 > 0x0FFF;
        self.i = self.i.wrapping_add(vx);
        if beyond {
            self.v[0xF] = 1;
        }
    }

    /// Whether the key that the low four bits of `Vx` name is held down.
    fn key_in_register_pressed(&self, keypad: &Keypad, x: u8) -> (pressed: bool)
        requires
            x < 16,
        ensures
            pressed == keypad@[self@.v[x as int] as int % 16],
    {
        let vx: u8 = self.v[x as usize];
        assert(vx & 0x0F == vx % 16) by (bit_vector);
        keypad.is_pressed(vx & 0x0F)
    }

    /// Puts the lowest key that is held down into `Vx`; while none is, moves
    /// the program counter back by one instruction, so that the instruction
    /// that waits is the next one again.
    fn wait_for_key(&mut self, keypad: &Keypad, x: u8)
        requires
            x < 16,
        ensures
            final(self)@ == match lowest_pressed(keypad@) {
                Some(key) => old(self)@.with_register(x as int, key),
                None => old(self)@.with_pc(previous_pc(old(self)@.pc)),
            },
    {
        if let Some(key) = keypad.get_pressed_key() {
            self.v[x as usize] = key;
        } else {
            self.pc = self.pc.wrapping_sub(2);
        }
    }

    /// Index register := the address of the font sprite for the digit that
    /// the low four bits of `Vx` name.
    fn load_font_address(&mut self, memory: &Memory, x: u8)
        requires
            x < 16,
        ensures
            final(self)@ == old(self)@.with_index(font_address(old(self)@.v[x as int] % 16)),
    {
        let vx: u8 = self.v[x as usize];
        assert(vx & 0x0F == vx % 16) by (bit_vector);
        self.i = memory.get_font_address(vx & 0x0F);
    }

    /// Takes the most recent return address off the call stack and continues
    /// there. With an empty call stack nothing is changed.
    fn return_from_subroutine(&mut self) -> (outcome: Result<(), Chip8Error>)
        ensures
            outcome is Ok <==> old(self)@.stack.len() > 0,
            outcome is Ok ==> final(self)@ == (CpuState {
                pc: old(self)@.stack.last(),
                stack: old(self)@.stack.drop_last(),
                ..old(self)@
            }),
            outcome is Err ==> outcome == Err::<(), Chip8Error>(Chip8Error::StackUnderflow)
                && final(self)@ == old(self)@,
    {
        match self.stack.pop() {
            Some(addr) => {
                self.pc = addr;
                Ok(())
            },
            None => Err(Chip8Error::StackUnderflow),
        }
    }

    /// Puts the program counter on the call stack and continues at `addr`.
    fn call_subroutine(&mut self, addr: u16)
        ensures
            final(self)@ == (CpuState {
                pc: addr,
                stack: old(self)@.stack.push(old(self)@.pc),
                ..old(self)@
            }),
    {
        self.stack.push(self.pc);
        self.pc = addr;
    }

    /// Draws the sprite of `rows` rows that memory holds at the index
    /// register, its top left corner at column `Vx mod 64` of row
    /// `Vy mod 32`, and puts into the flag register whether that turned a
    /// lit pixel off.
    fn draw_sprite(
        &mut self,
        memory: &Memory,
        display: &mut FrameBuffer,
        x: u8,
        y: u8,
        n: u8,
    ) -> (outcome: Result<(), Chip8Error>)
        requires
            x < 16,
            y < 16,
        ensures
            Machine::of(old(self)@, memory@, old(display)@).steps_to(
                Seq::empty(),
                Instruction::Draw { x, y, rows: n },
                0,
                Machine::of(final(self)@, memory@, final(display)@),
                outcome,
            ),
    {
        let x_coord: usize = self.v[x as usize] as usize % 64;
        let y_coord: usize = self.v[y as usize] as usize % 32;
        let visible: usize = if y_coord + n as usize <= 32 {
            n as usize
        } else {
            32 - y_coord
        };
        if n > 0 && self.i as usize + visible > MEMORY_SIZE {
            return Err(Chip8Error::AddressOutOfBounds);
        }
        proof {
            display.lemma_len();
            memory.lemma_len();
            lemma_sprite_empty(display@, memory@, self.i as int, x_coord as int, y_coord as int);
        }
        let mut erased: bool = false;
        let mut row: usize = 0;
        while row < n as usize && y_coord + row < 32
            invariant
                row <= visible,
                visible == visible_rows(y_coord as int, n as int),
                x_coord < WIDTH,
                y_coord < HEIGHT,
                n > 0 ==> self.i + visible <= MEMORY_SIZE,
                self@ == old(self)@,
                old(display)@.len() == 2048,
                display@ == sprite_drawn(
                    old(display)@,
                    memory@,
                    self.i as int,
                    x_coord as int,
                    y_coord as int,
                    row as int,
                ),
                erased == sprite_erases(
                    old(display)@,
                    memory@,
                    self.i as int,
                    x_coord as int,
                    y_coord as int,
                    row as int,
                ),
            decreases n - row,
        {
            proof {
                lemma_sprite_extended(
                    old(display)@,
                    memory@,
                    self.i as int,
                    x_coord as int,
                    y_coord as int,
                    row as int,
                );
            }
            let sprite_byte: u8 = memory.read(self.i + row as u16);
            if draw_row(display, sprite_byte, x_coord, y_coord + row) {
                erased = true;
            }
            row += 1;
        }
        proof {
            lemma_sprite_clipped(
                old(display)@,
                memory@,
                self.i as int,
                x_coord as int,
                y_coord as int,
                n as int,
            );
        }
        self.set_flag(if erased { 1 } else { 0 });
        Ok(())
    }

    /// Stores the three decimal digits of `Vx` at the index register and the
    /// two addresses after it, hundreds first.
    fn store_bcd(&self, memory: &mut Memory, x: u8) -> (outcome: Result<(), Chip8Error>)
        requires
            x < 16,
        ensures
            outcome is Ok <==> self@.i + 3 <= MEMORY_SIZE,
            outcome is Ok ==> final(memory)@ == with_bcd(
                old(memory)@,
                self@.i as int,
                self@.v[x as int],
            ),
            outcome is Err ==> outcome == Err::<(), Chip8Error>(Chip8Error::AddressOutOfBounds)
                && final(memory)@ == old(memory)@,
    {
        if self.i as usize + 3 > MEMORY_SIZE {
            return Err(Chip8Error::AddressOutOfBounds);
        }
        let vx: u8 = self.v[x as usize];
        memory.write(self.i, vx / 100);
        memory.write(self.i + 1, (vx / 10) % 10);
        memory.write(self.i + 2, vx % 10);
        Ok(())
    }

    /// Stores the registers `V0` to `Vx` at the index register and the
    /// addresses after it.
    fn dump_registers(&self, memory: &mut Memory, x: u8) -> (outcome: Result<(), Chip8Error>)
        requires
            x < 16,
        ensures
            outcome is Ok <==> self@.i + x + 1 <= MEMORY_SIZE,
            outcome is Ok ==> final(memory)@ == with_registers_dumped(
                old(memory)@,
                self@.i as int,
                self@.v,
                x as int,
            ),
            outcome is Err ==> outcome == Err::<(), Chip8Error>(Chip8Error::AddressOutOfBounds)
                && final(memory)@ == old(memory)@,
    {
        if self.i as usize + x as usize + 1 > MEMORY_SIZE {
            return Err(Chip8Error::AddressOutOfBounds);
        }
        proof {
            memory.lemma_len();
        }
        let mut k: u8 = 0;
        while k <= x
            invariant
                k <= x + 1,
                x < 16,
                self.i + x + 1 <= MEMORY_SIZE,
                old(memory)@.len() == MEMORY_SIZE,
                memory@ == with_registers_dumped(
                    old(memory)@,
                    self.i as int,
                    self.v@,
                    k as int - 1,
                ),
            decreases x + 1 - k,
        {
            memory.write(self.i + k as u16, self.v[k as usize]);
            assert(memory@ =~= with_registers_dumped(
                old(memory)@,
                self.i as int,
                self.v@,
                k as int,
            ));
            k += 1;
        }
        assert(old(memory)@ =~= with_registers_dumped(
            old(memory)@,
            self.i as int,
            self.v@,
            -1,
        )) by {
            memory.lemma_len();
        }
        Ok(())
    }

    /// Loads the registers `V0` to `Vx` from the index register and the
    /// addresses after it.
    fn load_registers(&mut self, memory: &Memory, x: u8) -> (outcome: Result<(), Chip8Error>)
        requires
            x < 16,
        ensures
            outcome is Ok <==> old(self)@.i + x + 1 <= MEMORY_SIZE,
            outcome is Ok ==> final(self)@ == (CpuState {
                v: with_registers_loaded(old(self)@.v, memory@, old(self)@.i as int, x as int),
                ..old(self)@
            }),
            outcome is Err ==> outcome == Err::<(), Chip8Error>(Chip8Error::AddressOutOfBounds)
                && final(self)@ == old(self)@,
    {
        if self.i as usize + x as usize + 1 > MEMORY_SIZE {
            return Err(Chip8Error::AddressOutOfBounds);
        }
        assert(self.v@ =~= with_registers_loaded(old(self).v@, memory@, self.i as int, -1));
        let mut k: u8 = 0;
        while k <= x
            invariant
                k <= x + 1,
                x < 16,
                self.i + x + 1 <= MEMORY_SIZE,
                self@ == (CpuState { v: self.v@, ..old(self)@ }),
                self.v@ == with_registers_loaded(
                    old(self).v@,
                    memory@,
                    self.i as int,
                    k as int - 1,
                ),
            decreases x + 1 - k,
        {
            self.v[k as usize] = memory.read(self.i + k as u16);
            assert(self.v@ =~= with_registers_loaded(
                old(self).v@,
                memory@,
                self.i as int,
                k as int,
            ));
            k += 1;
        }
        Ok(())
    }

    /// Executes one instruction, with `random` as the byte that chance
    /// gives. What the instruction makes of processor, memory and display
    /// is what `Machine::execute` says; an instruction that ends in an
    /// error changes nothing.
    pub fn execute(
        &mut self,
        instruction: Instruction,
        random: u8,
        memory: &mut Memory,
        display: &mut FrameBuffer,
        keypad: &Keypad,
    ) -> (outcome: Result<(), Chip8Error>)
        requires
            instruction.well_formed(),
        ensures
            Machine::of(old(self)@, old(memory)@, old(display)@).steps_to(
                keypad@,
                instruction,
                random,
                Machine::of(final(self)@, final(memory)@, final(display)@),
                outcome,
            ),
    {
        match instruction {
            Instruction::ClearScreen => {
                display.clear();
                Ok(())
            },
            Instruction::Return => self.return_from_subroutine(),
            Instruction::Jump { addr } => {
                self.pc = addr;
                Ok(())
            },
            Instruction::Call { addr } => {
                self.call_subroutine(addr);
                Ok(())
            },
            Instruction::SkipIfEqual { x, value } => {
                self.skip_if(self.v[x as usize] == value);
                Ok(())
            },
            Instruction::SkipIfNotEqual { x, value } => {
                self.skip_if(self.v[x as usize] != value);
                Ok(())
            },
            Instruction::SkipIfRegistersEqual { x, y } => {
                self.skip_if(self.v[x as usize] == self.v[y as usize]);
                Ok(())
            },
            Instruction::SetRegister { x, value } => {
                self.set_register(x, value);
                Ok(())
            },
            Instruction::AddValue { x, value } => {
                self.set_register(x, self.v[x as usize].wrapping_add(value));
                Ok(())
            },
            Instruction::CopyRegister { x, y } => {
                self.set_register(x, self.v[y as usize]);
                Ok(())
            },
            Instruction::Or { x, y } => {
                self.set_register(x, self.v[x as usize] | self.v[y as usize]);
                Ok(())
            },
            Instruction::And { x, y } => {
                self.set_register(x, self.v[x as usize] & self.v[y as usize]);
                Ok(())
            },
            Instruction::Xor { x, y } => {
                self.set_register(x, self.v[x as usize] ^ self.v[y as usize]);
                Ok(())
            },
            Instruction::AddRegister { x, y } => {
                self.add_register(x, y);
                Ok(())
            },
            Instruction::Subtract { x, y } => {
                self.subtract(x, self.v[x as usize], self.v[y as usize]);
                Ok(())
            },
            Instruction::ShiftRight { x } => {
                self.shift_right(x);
                Ok(())
            },
            Instruction::SubtractFrom { x, y } => {
                self.subtract(x, self.v[y as usize], self.v[x as usize]);
                Ok(())
            },
            Instruction::ShiftLeft { x } => {
                self.shift_left(x);
                Ok(())
            },
            Instruction::SkipIfRegistersNotEqual { x, y } => {
                self.skip_if(self.v[x as usize] != self.v[y as usize]);
                Ok(())
            },
            Instruction::SetIndex { addr } => {
                self.i = addr;
                Ok(())
            },
            Instruction::JumpWithOffset { addr } => {
                self.pc = addr + self.v[0] as u16;
                Ok(())
            },
            Instruction::Random { x, mask } => {
                self.set_register(x, random & mask);
                Ok(())
            },
            Instruction::Draw { x, y, rows } => self.draw_sprite(memory, display, x, y, rows),
            Instruction::SkipIfKeyPressed { x } => {
                self.skip_if(self.key_in_register_pressed(keypad, x));
                Ok(())
            },
            Instruction::SkipIfKeyNotPressed { x } => {
                self.skip_if(!self.key_in_register_pressed(keypad, x));
                Ok(())
            },
            Instruction::LoadDelayTimer { x } => {
                self.set_register(x, self.delay_timer);
                Ok(())
            },
            Instruction::WaitForKey { x } => {
                self.wait_for_key(keypad, x);
                Ok(())
            },
            Instruction::SetDelayTimer { x } => {
                self.delay_timer = self.v[x as usize];
                Ok(())
            },
            Instruction::SetSoundTimer { x } => {
                self.sound_timer = self.v[x as usize];
                Ok(())
            },
            Instruction::AddToIndex { x } => {
                self.add_to_index(x);
                Ok(())
            },
            Instruction::LoadFontAddress { x } => {
                self.load_font_address(memory, x);
                Ok(())
            },
            Instruction::StoreBcd { x } => self.store_bcd(memory, x),
            Instruction::DumpRegisters { x } => self.dump_registers(memory, x),
            Instruction::LoadRegisters { x } => self.load_registers(memory, x),
            Instruction::Unknown { opcode } => Err(Chip8Error::UnknownOpcode(opcode)),
        }
    }

    /// Decodes the instruction word `opcode` and executes the instruction.
    /// For `Random` a byte is drawn from the random number generator of the
    /// thread; the contract holds of whatever byte that was.
    pub fn decode_and_execute(
        &mut self,
        opcode: u16,
        memory: &mut Memory,
        display: &mut FrameBuffer,
        keypad: &Keypad,
    ) -> (outcome: Result<(), Chip8Error>)
        ensures
            exists|random: u8| #[trigger]
                Machine::of(old(self)@, old(memory)@, old(display)@).steps_to(
                    keypad@,
                    decode_spec(opcode),
                    random,
                    Machine::of(final(self)@, final(memory)@, final(display)@),
                    outcome,
                ),
            !(decode_spec(opcode) is Random) ==> Machine::of(
                old(self)@,
                old(memory)@,
                old(display)@,
            ).steps_to(
                keypad@,
                decode_spec(opcode),
                0,
                Machine::of(final(self)@, final(memory)@, final(display)@),
                outcome,
            ),
    {
        let instruction = Instruction::decode(opcode);
        let random: u8 = match instruction {
            Instruction::Random { .. } => random_byte(&mut self.rng),
            _ => 0,
        };
        let outcome = self.execute(instruction, random, memory, display, keypad);
        assert(Machine::of(old(self)@, old(memory)@, old(display)@).steps_to(
            keypad@,
            decode_spec(opcode),
            random,
            Machine::of(self@, memory@, display@),
            outcome,
        ));
        outcome
    }

    /// One cycle of the machine: fetches the instruction word at the program
    /// counter, then decodes and executes it. Where no word can be fetched,
    /// nothing is changed. An instruction that ends in an error changes
    /// nothing either, but the program counter has moved past it then.
    pub fn cycle(&mut self, memory: &mut Memory, display: &mut FrameBuffer, keypad: &Keypad) -> (outcome:
        Result<(), Chip8Error>)
        ensures
            !can_fetch(old(self)@.pc) ==> outcome == Err::<(), Chip8Error>(
                Chip8Error::AddressOutOfBounds,
            ) && final(self)@ == old(self)@ && final(memory)@ == old(memory)@ && final(display)@
                == old(display)@,
            can_fetch(old(self)@.pc) ==> exists|random: u8| #[trigger]
                Machine::of(old(self)@.after_fetch(), old(memory)@, old(display)@).steps_to(
                    keypad@,
                    decode_spec(word_at(old(memory)@, old(self)@.pc)),
                    random,
                    Machine::of(final(self)@, final(memory)@, final(display)@),
                    outcome,
                ),
            can_fetch(old(self)@.pc) && !(decode_spec(word_at(old(memory)@, old(self)@.pc))
                is Random) ==> Machine::of(
                old(self)@.after_fetch(),
                old(memory)@,
                old(display)@,
            ).steps_to(
                keypad@,
                decode_spec(word_at(old(memory)@, old(self)@.pc)),
                0,
                Machine::of(final(self)@, final(memory)@, final(display)@),
                outcome,
            ),
    {
        match self.fetch(memory) {
            Ok(opcode) => self.decode_and_execute(opcode, memory, display, keypad),
            Err(error) => Err(error),
        }
    }
}

} // verus!
