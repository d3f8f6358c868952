//! The machine as a mathematical value, and what each instruction makes of
//! it. The contracts of the interpreter are stated over this model.

use vstd::prelude::*;
use crate::error::Chip8Error;
use crate::frame_buffer::blank;
use crate::instruction::Instruction;
use crate::keypad::lowest_pressed;
use crate::memory::{font_address, MEMORY_SIZE, PROGRAM_START};
use crate::sprite::{sprite_drawn, sprite_erases, visible_rows};

verus! {

/// The registers, the call stack and the timers of the processor.
pub struct CpuState {
    /// The sixteen general registers `V0` to `VF`; `VF` is the flag register.
    pub v: Seq<u8>,
    /// The index register.
    pub i: u16,
    /// The program counter.
    pub pc: u16,
    /// The return addresses, the most recent call last.
    pub stack: Seq<u16>,
    /// The delay timer.
    pub delay_timer: u8,
    /// The sound timer.
    pub sound_timer: u8,
}

/// The whole machine but its keypad: processor, memory and display.
pub struct Machine {
    pub cpu: CpuState,
    pub memory: Seq<u8>,
    pub display: Seq<u8>,
}

/// The program counter after it moved on by one instruction. It is a 16-bit
/// register: beyond its last value it starts again at 0.
pub open spec fn next_pc(pc: u16) -> u16 {
    ((pc + 2) % 0x1_0000) as u16
}

/// The program counter after it moved back by one instruction.
pub open spec fn previous_pc(pc: u16) -> u16 {
    ((pc + 0x1_0000 - 2) % 0x1_0000) as u16
}

/// A timer after one tick: one less, unless it was 0 already.
pub open spec fn ticked(timer: u8) -> u8 {
    if timer > 0 {
        (timer - 1) as u8
    } else {
        0
    }
}

/// 1 for `true`, 0 for `false`.
pub open spec fn flag_of(condition: bool) -> u8 {
    if condition {
        1
    } else {
        0
    }
}

impl CpuState {
    /// Whether there are sixteen registers.
    pub open spec fn well_formed(self) -> bool {
        self.v.len() == 16
    }

    /// The state of a processor just switched on: everything 0, the program
    /// counter at the start of the program.
    pub open spec fn initial() -> CpuState {
        CpuState {
            v: Seq::new(16, |k: int| 0u8),
            i: 0,
            pc: PROGRAM_START,
            stack: Seq::empty(),
            delay_timer: 0,
            sound_timer: 0,
        }
    }

    /// This state with `value` in register `x`.
    pub open spec fn with_register(self, x: int, value: u8) -> CpuState {
        CpuState { v: self.v.update(x, value), ..self }
    }

    /// This state with `flag` in the flag register.
    pub open spec fn with_flag(self, flag: u8) -> CpuState {
        self.with_register(0xF, flag)
    }

    /// This state with the program counter at `pc`.
    pub open spec fn with_pc(self, pc: u16) -> CpuState {
        CpuState { pc, ..self }
    }

    /// This state with the index register at `i`.
    pub open spec fn with_index(self, i: u16) -> CpuState {
        CpuState { i, ..self }
    }

    /// This state with the next instruction skipped if `condition` holds.
    pub open spec fn skip_if(self, condition: bool) -> CpuState {
        if condition {
            self.with_pc(next_pc(self.pc))
        } else {
            self
        }
    }

    /// This state after one timing tick: each timer that is not 0 went down
    /// by one, the one independently of the other.
    pub open spec fn after_tick(self) -> CpuState {
        CpuState {
            delay_timer: ticked(self.delay_timer),
            sound_timer: ticked(self.sound_timer),
            ..self
        }
    }

    /// This state after the instruction word at the program counter was
    /// fetched.
    pub open spec fn after_fetch(self) -> CpuState {
        self.with_pc((self.pc + 2) as u16)
    }
}

/// Whether an instruction word can be fetched at `pc`: both of its bytes lie
/// in memory.
pub open spec fn can_fetch(pc: u16) -> bool {
    pc + 1 < MEMORY_SIZE
}

/// The instruction word at `pc`: the byte there is its high byte, the next
/// its low byte.
pub open spec fn word_at(memory: Seq<u8>, pc: u16) -> u16 {
    (memory[pc as int] * 0x100 + memory[pc + 1]) as u16
}

/// Memory after the three decimal digits of `value` were stored at `i`,
/// hundreds first.
pub open spec fn with_bcd(memory: Seq<u8>, i: int, value: u8) -> Seq<u8> {
    memory.update(i, (value / 100) as u8).update(i + 1, ((value / 10) % 10) as u8).update(
        i + 2,
        (value % 10) as u8,
    )
}

/// Memory after the registers `V0` to `Vx` were stored from `i` on.
pub open spec fn with_registers_dumped(memory: Seq<u8>, i: int, v: Seq<u8>, x: int) -> Seq<u8> {
    Seq::new(
        memory.len(),
        |a: int|
            if i <= a <= i + x {
                v[a - i]
            } else {
                memory[a]
            },
    )
}

/// The registers after `V0` to `Vx` were loaded from `i` on.
pub open spec fn with_registers_loaded(v: Seq<u8>, memory: Seq<u8>, i: int, x: int) -> Seq<u8> {
    Seq::new(
        v.len(),
        |k: int|
            if k <= x {
                memory[i + k]
            } else {
                v[k]
            },
    )
}

impl Machine {
    /// The machine made of a processor, a memory and a display.
    pub open spec fn of(cpu: CpuState, memory: Seq<u8>, display: Seq<u8>) -> Machine {
        Machine { cpu, memory, display }
    }

    /// Whether executing `instruction` on this machine ends with `outcome`
    /// and the machine `after`: where the instruction can be executed, in
    /// success and the machine that `execute` gives; where it cannot, in its
    /// error and this machine, unchanged.
    pub open spec fn steps_to(
        self,
        keys: Seq<bool>,
        instruction: Instruction,
        random: u8,
        after: Machine,
        outcome: Result<(), Chip8Error>,
    ) -> bool {
        match self.execute(keys, instruction, random) {
            Ok(next) => outcome is Ok && after == next,
            Err(error) => outcome == Err::<(), Chip8Error>(error) && after == self,
        }
    }

    /// This machine with the processor in state `cpu`.
    pub open spec fn with_cpu(self, cpu: CpuState) -> Machine {
        Machine { cpu, ..self }
    }

    /// The machine after `instruction` was executed while the keys were
    /// held as `keys` tells, or the error that the instruction ends in. An
    /// instruction that ends in an error changes nothing. `random` is the
    /// byte that chance gives; only `Random` reads it.
    ///
    /// An instruction that writes both a result and the flag register
    /// writes the flag last. A key or a digit that an instruction takes
    /// from a register is the low four bits of the register. The index
    /// register is never folded back into the address space: an
    /// instruction that would read or write beyond the last address ends
    /// in `AddressOutOfBounds`. A sprite is read only as far as its rows
    /// lie on the grid.
    pub open spec fn execute(self, keys: Seq<bool>, instruction: Instruction, random: u8) -> Result<
        Machine,
        Chip8Error,
    > {
        let cpu = self.cpu;
        let v = cpu.v;
        match instruction {
            Instruction::ClearScreen => Ok(Machine { display: blank(), ..self }),
            Instruction::Return => if cpu.stack.len() == 0 {
                Err(Chip8Error::StackUnderflow)
            } else {
                Ok(
                    self.with_cpu(
                        CpuState { pc: cpu.stack.last(), stack: cpu.stack.drop_last(), ..cpu },
                    ),
                )
            },
            Instruction::Jump { addr } => Ok(self.with_cpu(cpu.with_pc(addr))),
            Instruction::Call { addr } => Ok(
                self.with_cpu(CpuState { pc: addr, stack: cpu.stack.push(cpu.pc), ..cpu }),
            ),
            Instruction::SkipIfEqual { x, value } => Ok(
                self.with_cpu(cpu.skip_if(v[x as int] == value)),
            ),
            Instruction::SkipIfNotEqual { x, value } => Ok(
                self.with_cpu(cpu.skip_if(v[x as int] != value)),
            ),
            Instruction::SkipIfRegistersEqual { x, y } => Ok(
                self.with_cpu(cpu.skip_if(v[x as int] == v[y as int])),
            ),
            Instruction::SetRegister { x, value } => Ok(
                self.with_cpu(cpu.with_register(x as int, value)),
            ),
            Instruction::AddValue { x, value } => Ok(
                self.with_cpu(cpu.with_register(x as int, ((v[x as int] + value) % 0x100) as u8)),
            ),
            Instruction::CopyRegister { x, y } => Ok(
                self.with_cpu(cpu.with_register(x as int, v[y as int])),
            ),
            Instruction::Or { x, y } => Ok(
                self.with_cpu(cpu.with_register(x as int, v[x as int] | v[y as int])),
            ),
            Instruction::And { x, y } => Ok(
                self.with_cpu(cpu.with_register(x as int, v[x as int] & v[y as int])),
            ),
            Instruction::Xor { x, y } => Ok(
                self.with_cpu(cpu.with_register(x as int, v[x as int] ^ v[y as int])),
            ),
            Instruction::AddRegister { x, y } => Ok(
                self.with_cpu(
                    cpu.with_register(
                        x as int,
                        ((v[x as int] + v[y as int]) % 0x100) as u8,
                    ).with_flag(flag_of(v[x as int] + v[y as int] > 0xFF)),
                ),
            ),
            Instruction::Subtract { x, y } => Ok(
                self.with_cpu(
                    cpu.with_register(
                        x as int,
                        ((v[x as int] - v[y as int]) % 0x100) as u8,
                    ).with_flag(flag_of(v[x as int] >= v[y as int])),
                ),
            ),
            Instruction::ShiftRight { x } => Ok(
                self.with_cpu(
                    cpu.with_register(x as int, (v[x as int] / 2) as u8).with_flag(
                        (v[x as int] % 2) as u8,
                    ),
                ),
            ),
            Instruction::SubtractFrom { x, y } => Ok(
                self.with_cpu(
                    cpu.with_register(
                        x as int,
                        ((v[y as int] - v[x as int]) % 0x100) as u8,
                    ).with_flag(flag_of(v[y as int] >= v[x as int])),
                ),
            ),
            Instruction::ShiftLeft { x } => Ok(
                self.with_cpu(
                    cpu.with_register(x as int, ((v[x as int] * 2) % 0x100) as u8).with_flag(
                        (v[x as int] / 0x80) as u8,
                    ),
                ),
            ),
            Instruction::SkipIfRegistersNotEqual { x, y } => Ok(
                self.with_cpu(cpu.skip_if(v[x as int] != v[y as int])),
            ),
            Instruction::SetIndex { addr } => Ok(self.with_cpu(cpu.with_index(addr))),
            Instruction::JumpWithOffset { addr } => Ok(
                self.with_cpu(cpu.with_pc(((addr + v[0]) % 0x1_0000) as u16)),
            ),
            Instruction::Random { x, mask } => Ok(
                self.with_cpu(cpu.with_register(x as int, random & mask)),
            ),
            Instruction::Draw { x, y, rows } => {
                let x0 = v[x as int] as int % 64;
                let y0 = v[y as int] as int % 32;
                if rows > 0 && cpu.i + visible_rows(y0, rows as int) > MEMORY_SIZE {
                    Err(Chip8Error::AddressOutOfBounds)
                } else {
                    Ok(
                        Machine {
                            cpu: cpu.with_flag(
                                flag_of(
                                    sprite_erases(
                                        self.display,
                                        self.memory,
                                        cpu.i as int,
                                        x0,
                                        y0,
                                        rows as int,
                                    ),
                                ),
                            ),
                            display: sprite_drawn(
                                self.display,
                                self.memory,
                                cpu.i as int,
                                x0,
                                y0,
                                rows as int,
                            ),
                            ..self
                        },
                    )
                }
            },
            Instruction::SkipIfKeyPressed { x } => Ok(
                self.with_cpu(cpu.skip_if(keys[v[x as int] as int % 16])),
            ),
            Instruction::SkipIfKeyNotPressed { x } => Ok(
                self.with_cpu(cpu.skip_if(!keys[v[x as int] as int % 16])),
            ),
            Instruction::LoadDelayTimer { x } => Ok(
                self.with_cpu(cpu.with_register(x as int, cpu.delay_timer)),
            ),
            Instruction::WaitForKey { x } => match lowest_pressed(keys) {
                Some(key) => Ok(self.with_cpu(cpu.with_register(x as int, key))),
                None => Ok(self.with_cpu(cpu.with_pc(previous_pc(cpu.pc)))),
            },
            Instruction::SetDelayTimer { x } => Ok(
                self.with_cpu(CpuState { delay_timer: v[x as int], ..cpu }),
            ),
            Instruction::SetSoundTimer { x } => Ok(
                self.with_cpu(CpuState { sound_timer: v[x as int], ..cpu }),
            ),
            Instruction::AddToIndex { x } => {
                let moved = cpu.with_index(((cpu.i + v[x as int]) % 0x1_0000) as u16);
                if cpu.i + v[x as int] > 0x0FFF {
                    Ok(self.with_cpu(moved.with_flag(1)))
                } else {
                    Ok(self.with_cpu(moved))
                }
            },
            Instruction::LoadFontAddress { x } => Ok(
                self.with_cpu(cpu.with_index(font_address(v[x as int] % 16))),
            ),
            Instruction::StoreBcd { x } => if cpu.i + 3 > MEMORY_SIZE {
                Err(Chip8Error::AddressOutOfBounds)
            } else {
                Ok(Machine { memory: with_bcd(self.memory, cpu.i as int, v[x as int]), ..self })
            },
            Instruction::DumpRegisters { x } => if cpu.i + x + 1 > MEMORY_SIZE {
                Err(Chip8Error::AddressOutOfBounds)
            } else {
                Ok(
                    Machine {
                        memory: with_registers_dumped(self.memory, cpu.i as int, v, x as int),
                        ..self
                    },
                )
            },
            Instruction::LoadRegisters { x } => if cpu.i + x + 1 > MEMORY_SIZE {
                Err(Chip8Error::AddressOutOfBounds)
            } else {
                Ok(
                    self.with_cpu(
                        CpuState {
                            v: with_registers_loaded(v, self.memory, cpu.i as int, x as int),
                            ..cpu
                        },
                    ),
                )
            },
            Instruction::Unknown { opcode } => Err(Chip8Error::UnknownOpcode(opcode)),
        }
    }
}

} // verus!
