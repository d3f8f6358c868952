//! What holds of the machine whatever state it is in: each law is stated
//! over the model and proved from it.

use vstd::prelude::*;
use crate::frame_buffer::is_grid;
use crate::instruction::Instruction;
use crate::keypad::{lemma_lowest_pressed_from, lowest_pressed};
use crate::model::{can_fetch, CpuState, Machine};
use crate::sprite::{sprite_drawn, sprite_erases, sprite_lights};

verus! {

/// Only `Random` reads the random byte: every other instruction gives the
/// same result whatever the byte is.
pub proof fn lemma_random_byte_read_by_random_only(
    machine: Machine,
    keys: Seq<bool>,
    instruction: Instruction,
    random: u8,
    other: u8,
)
    requires
        !(instruction is Random),
    ensures
        machine.execute(keys, instruction, random) == machine.execute(keys, instruction, other),
{
}

/// Clearing the screen leaves every pixel off, and changes nothing else.
pub proof fn lemma_clear_screen(machine: Machine, keys: Seq<bool>, random: u8)
    ensures
        machine.execute(keys, Instruction::ClearScreen, random) matches Ok(next) && next.cpu
            == machine.cpu && next.memory == machine.memory && next.display.len() == 2048
            && forall|k: int| 0 <= k < 2048 ==> next.display[k] == 0,
{
}

/// Adding a register to a register puts 1 into the flag register if the
/// true sum is above 255 and 0 if it is not, and leaves the sum modulo 256
/// in `Vx`, unless `Vx` is the flag register itself, which holds the flag.
pub proof fn lemma_add_register(machine: Machine, keys: Seq<bool>, x: u8, y: u8, random: u8)
    requires
        machine.cpu.well_formed(),
        x < 16,
        y < 16,
    ensures
        machine.execute(keys, Instruction::AddRegister { x, y }, random) matches Ok(next) && {
            let sum = machine.cpu.v[x as int] + machine.cpu.v[y as int];
            &&& next.cpu.v[0xF] == if sum > 255 {
                1u8
            } else {
                0u8
            }
            &&& x != 0xF ==> next.cpu.v[x as int] == sum % 256
            &&& forall|r: int| 0 <= r < 16 && r != x && r != 0xF ==> next.cpu.v[r] == machine.cpu.v[r]
        },
{
}

/// Subtracting a register from a register puts 1 into the flag register if
/// `Vx >= Vy` held before and 0 if it did not, and leaves the difference
/// modulo 256 in `Vx`, unless `Vx` is the flag register itself.
pub proof fn lemma_subtract(machine: Machine, keys: Seq<bool>, x: u8, y: u8, random: u8)
    requires
        machine.cpu.well_formed(),
        x < 16,
        y < 16,
    ensures
        machine.execute(keys, Instruction::Subtract { x, y }, random) matches Ok(next) && {
            let vx = machine.cpu.v[x as int];
            let vy = machine.cpu.v[y as int];
            &&& next.cpu.v[0xF] == if vx >= vy {
                1u8
            } else {
                0u8
            }
            &&& x != 0xF ==> next.cpu.v[x as int] == (vx - vy) % 256
        },
{
}

/// Subtracting `Vx` from `Vy` puts 1 into the flag register if `Vy >= Vx`
/// held before and 0 if it did not, and leaves the difference modulo 256 in
/// `Vx`, unless `Vx` is the flag register itself.
pub proof fn lemma_subtract_from(machine: Machine, keys: Seq<bool>, x: u8, y: u8, random: u8)
    requires
        machine.cpu.well_formed(),
        x < 16,
        y < 16,
    ensures
        machine.execute(keys, Instruction::SubtractFrom { x, y }, random) matches Ok(next) && {
            let vx = machine.cpu.v[x as int];
            let vy = machine.cpu.v[y as int];
            &&& next.cpu.v[0xF] == if vy >= vx {
                1u8
            } else {
                0u8
            }
            &&& x != 0xF ==> next.cpu.v[x as int] == (vy - vx) % 256
        },
{
}

/// Shifting right moves the lowest bit that `Vx` had into the flag
/// register; `Vx` is left with its other bits, one place lower, unless it
/// is the flag register itself.
pub proof fn lemma_shift_right(machine: Machine, keys: Seq<bool>, x: u8, random: u8)
    requires
        machine.cpu.well_formed(),
        x < 16,
    ensures
        machine.execute(keys, Instruction::ShiftRight { x }, random) matches Ok(next) && {
            let vx = machine.cpu.v[x as int];
            &&& next.cpu.v[0xF] == vx & 1
            &&& x != 0xF ==> next.cpu.v[x as int] == vx >> 1
        },
{
    let vx = machine.cpu.v[x as int];
    assert(vx >> 1 == vx / 2 && vx & 1 == vx % 2) by (bit_vector);
}

/// Shifting left moves the highest bit that `Vx` had into the flag
/// register; `Vx` is left with its other bits, one place higher, unless it
/// is the flag register itself.
pub proof fn lemma_shift_left(machine: Machine, keys: Seq<bool>, x: u8, random: u8)
    requires
        machine.cpu.well_formed(),
        x < 16,
    ensures
        machine.execute(keys, Instruction::ShiftLeft { x }, random) matches Ok(next) && {
            let vx = machine.cpu.v[x as int];
            &&& next.cpu.v[0xF] == (vx >> 7) & 1
            &&& x != 0xF ==> next.cpu.v[x as int] == vx << 1
        },
{
    let vx = machine.cpu.v[x as int];
    assert(vx << 1 == (vx * 2) % 0x100 && (vx >> 7) & 1 == vx / 0x80) by (bit_vector);
}

/// Drawing a sprite twice at the same place gives back the pixels that
/// were there before the first draw.
pub proof fn lemma_sprite_drawn_twice(
    display: Seq<u8>,
    memory: Seq<u8>,
    i: int,
    x0: int,
    y0: int,
    rows: int,
)
    requires
        is_grid(display),
    ensures
        sprite_drawn(sprite_drawn(display, memory, i, x0, y0, rows), memory, i, x0, y0, rows)
            == display,
{
    assert(sprite_drawn(sprite_drawn(display, memory, i, x0, y0, rows), memory, i, x0, y0, rows)
        =~= display);
}

/// Drawing turns a lit pixel off exactly if some pixel is lit before the
/// draw and off after it.
pub proof fn lemma_sprite_erases(
    display: Seq<u8>,
    memory: Seq<u8>,
    i: int,
    x0: int,
    y0: int,
    rows: int,
)
    ensures
        sprite_erases(display, memory, i, x0, y0, rows) <==> exists|k: int|
            0 <= k < display.len() && #[trigger] display[k] == 1 && sprite_drawn(
                display,
                memory,
                i,
                x0,
                y0,
                rows,
            )[k] == 0,
{
    let after = sprite_drawn(display, memory, i, x0, y0, rows);
    if sprite_erases(display, memory, i, x0, y0, rows) {
        let k = choose|k: int|
            0 <= k < display.len() && sprite_lights(memory, i, x0, y0, rows, k)
                && #[trigger] display[k] == 1;
        assert(display[k] == 1 && after[k] == 0);
    }
    if exists|k: int| 0 <= k < display.len() && #[trigger] display[k] == 1 && after[k] == 0 {
        let k = choose|k: int| 0 <= k < display.len() && #[trigger] display[k] == 1 && after[k] == 0;
        assert(sprite_lights(memory, i, x0, y0, rows, k) && display[k] == 1);
    }
}

/// Of the processor, a draw changes the flag register only; it leaves
/// memory as it is.
pub proof fn lemma_draw_writes_flag_only(
    machine: Machine,
    keys: Seq<bool>,
    x: u8,
    y: u8,
    rows: u8,
    random: u8,
)
    requires
        machine.cpu.well_formed(),
    ensures
        machine.execute(keys, Instruction::Draw { x, y, rows }, random) matches Ok(next) ==> {
            &&& next.memory == machine.memory
            &&& next.cpu == machine.cpu.with_flag(next.cpu.v[0xF])
            &&& forall|r: int| 0 <= r < 0xF ==> next.cpu.v[r] == machine.cpu.v[r]
        },
{
    if let Ok(next) = machine.execute(keys, Instruction::Draw { x, y, rows }, random) {
        assert(next.cpu.v =~= machine.cpu.with_flag(next.cpu.v[0xF]).v);
    }
}

/// The draw instruction, executed twice in a row at the same place, gives
/// back the display that was there before. The place is the same whenever
/// neither coordinate is taken from the flag register, which the first draw
/// writes.
pub proof fn lemma_draw_twice(machine: Machine, keys: Seq<bool>, x: u8, y: u8, rows: u8, random: u8)
    requires
        machine.cpu.well_formed(),
        is_grid(machine.display),
        x < 16,
        y < 16,
        machine.execute(keys, Instruction::Draw { x, y, rows }, random) matches Ok(once)
            && once.cpu.v[x as int] % 64 == machine.cpu.v[x as int] % 64 && once.cpu.v[y as int]
            % 32 == machine.cpu.v[y as int] % 32,
    ensures
        machine.execute(keys, Instruction::Draw { x, y, rows }, random) matches Ok(once)
            && once.execute(keys, Instruction::Draw { x, y, rows }, random) matches Ok(twice)
            && twice.display == machine.display && twice.memory == machine.memory,
{
    let x0 = machine.cpu.v[x as int] as int % 64;
    let y0 = machine.cpu.v[y as int] as int % 32;
    lemma_sprite_drawn_twice(
        machine.display,
        machine.memory,
        machine.cpu.i as int,
        x0,
        y0,
        rows as int,
    );
}

/// After a draw the flag register is 1 if at least one pixel went from lit
/// to off during the draw, and 0 if none did.
pub proof fn lemma_draw_flag(machine: Machine, keys: Seq<bool>, x: u8, y: u8, rows: u8, random: u8)
    requires
        machine.cpu.well_formed(),
    ensures
        machine.execute(keys, Instruction::Draw { x, y, rows }, random) matches Ok(next) ==> {
            &&& next.cpu.v[0xF] == 0 || next.cpu.v[0xF] == 1
            &&& next.cpu.v[0xF] == 1 <==> exists|k: int|
                0 <= k < machine.display.len() && #[trigger] machine.display[k] == 1
                    && next.display[k] == 0
        },
{
    let x0 = machine.cpu.v[x as int] as int % 64;
    let y0 = machine.cpu.v[y as int] as int % 32;
    lemma_sprite_erases(
        machine.display,
        machine.memory,
        machine.cpu.i as int,
        x0,
        y0,
        rows as int,
    );
}

/// The key that `lowest_pressed` finds is held down and no lower key is;
/// it finds none only while no key is held down.
pub proof fn lemma_lowest_pressed(keys: Seq<bool>)
    requires
        keys.len() == 16,
    ensures
        match lowest_pressed(keys) {
            Some(key) => key < 16 && keys[key as int] && forall|j: int| 0 <= j < key ==> !keys[j],
            None => forall|j: int| 0 <= j < 16 ==> !keys[j],
        },
{
    lemma_lowest_pressed_from(keys, 0);
}

/// A cycle that fetches the instruction that waits for a key, while no key
/// is held down, leaves the processor as it was before the fetch: the same
/// instruction is the next one again.
pub proof fn lemma_wait_for_key_repeats(
    cpu: CpuState,
    memory: Seq<u8>,
    display: Seq<u8>,
    keys: Seq<bool>,
    x: u8,
    random: u8,
)
    requires
        can_fetch(cpu.pc),
        lowest_pressed(keys) is None,
    ensures
        Machine::of(cpu.after_fetch(), memory, display).execute(
            keys,
            Instruction::WaitForKey { x },
            random,
        ) == Ok::<Machine, crate::error::Chip8Error>(Machine::of(cpu, memory, display)),
{
}

/// A cycle that fetches the instruction that waits for a key, while a key
/// is held down, puts the lowest such key into `Vx` and leaves the program
/// counter behind the instruction.
pub proof fn lemma_wait_for_key_proceeds(
    cpu: CpuState,
    memory: Seq<u8>,
    display: Seq<u8>,
    keys: Seq<bool>,
    x: u8,
    random: u8,
)
    requires
        can_fetch(cpu.pc),
        lowest_pressed(keys) is Some,
    ensures
        Machine::of(cpu.after_fetch(), memory, display).execute(
            keys,
            Instruction::WaitForKey { x },
            random,
        ) == Ok::<Machine, crate::error::Chip8Error>(
            Machine::of(
                cpu.after_fetch().with_register(x as int, lowest_pressed(keys)->Some_0),
                memory,
                display,
            ),
        ),
        cpu.after_fetch().with_register(x as int, lowest_pressed(keys)->Some_0).pc == cpu.pc + 2,
{
}

} // verus!
