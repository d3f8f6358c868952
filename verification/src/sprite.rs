//! What drawing a sprite does to a grid of pixels.
//!
//! A sprite is a run of bytes, one per row, the leftmost pixel of a row in
//! the highest bit. Drawing inverts the pixels under the set bits. What
//! would fall beyond the right or the lower edge of the grid is left out.

use vstd::prelude::*;
use crate::frame_buffer::{toggled, FrameBuffer, HEIGHT, PIXEL_COUNT, WIDTH};

verus! {

/// Whether the pixel in column `column` of a sprite row is set; column 0 is
/// the leftmost.
pub open spec fn sprite_bit(row: u8, column: int) -> bool {
    (row >> ((7 - column) as u8)) & 1 == 1
}

/// Whether the first `columns` pixels of the sprite row `row`, placed with
/// its left end at column `x0` of grid row `y`, hold a set pixel over pixel
/// `k` of the row-major grid.
pub open spec fn row_lights(row: u8, x0: int, y: int, columns: int, k: int) -> bool {
    &&& k / 64 == y
    &&& x0 <= k % 64 < x0 + columns
    &&& sprite_bit(row, k % 64 - x0)
}

/// `display` after the first `columns` pixels of one sprite row were drawn.
pub open spec fn row_drawn(display: Seq<u8>, row: u8, x0: int, y: int, columns: int) -> Seq<u8> {
    Seq::new(
        display.len(),
        |k: int|
            if row_lights(row, x0, y, columns, k) {
                toggled(display[k])
            } else {
                display[k]
            },
    )
}

/// Whether drawing the first `columns` pixels of one sprite row turns a lit
/// pixel of `display` off.
pub open spec fn row_erases(display: Seq<u8>, row: u8, x0: int, y: int, columns: int) -> bool {
    exists|k: int|
        0 <= k < display.len() && row_lights(row, x0, y, columns, k)
            && #[trigger] display[k] == 1
}

/// Whether the sprite of `rows` rows that `memory` holds from address `i`
/// on, placed with its top left corner at column `x0` of row `y0`, holds a
/// set pixel over pixel `k` of the row-major grid.
pub open spec fn sprite_lights(
    memory: Seq<u8>,
    i: int,
    x0: int,
    y0: int,
    rows: int,
    k: int,
) -> bool {
    &&& y0 <= k / 64 < y0 + rows
    &&& x0 <= k % 64 < x0 + 8
    &&& sprite_bit(memory[i + (k / 64 - y0)], k % 64 - x0)
}

/// `display` after the sprite was drawn: the pixels under its set bits are
/// inverted, every other pixel is as before.
pub open spec fn sprite_drawn(
    display: Seq<u8>,
    memory: Seq<u8>,
    i: int,
    x0: int,
    y0: int,
    rows: int,
) -> Seq<u8> {
    Seq::new(
        display.len(),
        |k: int|
            if sprite_lights(memory, i, x0, y0, rows, k) {
                toggled(display[k])
            } else {
                display[k]
            },
    )
}

/// Whether drawing the sprite turns a lit pixel of `display` off.
pub open spec fn sprite_erases(
    display: Seq<u8>,
    memory: Seq<u8>,
    i: int,
    x0: int,
    y0: int,
    rows: int,
) -> bool {
    exists|k: int|
        0 <= k < display.len() && sprite_lights(memory, i, x0, y0, rows, k)
            && #[trigger] display[k] == 1
}

/// How many rows of a sprite of `rows` rows placed at row `y0` lie on the
/// grid.
pub open spec fn visible_rows(y0: int, rows: int) -> int {
    if y0 + rows <= 32 {
        rows
    } else {
        32 - y0
    }
}

/// Drawing one more pixel of a sprite row: the pixel under it is inverted if
/// it is set, and a lit pixel is turned off by the longer row if one was by
/// the shorter, or if the new pixel is set and lies on a lit one.
proof fn lemma_row_extended(display: Seq<u8>, row: u8, x0: int, y: int, columns: int)
    requires
        display.len() == PIXEL_COUNT,
        0 <= x0,
        0 <= y < HEIGHT,
        0 <= columns,
        x0 + columns < WIDTH,
    ensures
        row_drawn(display, row, x0, y, columns + 1) == if sprite_bit(row, columns) {
            row_drawn(display, row, x0, y, columns).update(
                y * 64 + x0 + columns,
                toggled(display[y * 64 + x0 + columns]),
            )
        } else {
            row_drawn(display, row, x0, y, columns)
        },
        row_drawn(display, row, x0, y, columns)[y * 64 + x0 + columns] == display[y * 64 + x0
            + columns],
        row_erases(display, row, x0, y, columns + 1) == (row_erases(display, row, x0, y, columns)
            || (sprite_bit(row, columns) && display[y * 64 + x0 + columns] == 1)),
{
    let idx = y * 64 + x0 + columns;
    let shorter = row_drawn(display, row, x0, y, columns);
    let longer = row_drawn(display, row, x0, y, columns + 1);
    assert(idx % 64 == x0 + columns && idx / 64 == y);
    assert forall|k: int| 0 <= k < display.len() implies (row_lights(
        row,
        x0,
        y,
        columns + 1,
        k,
    ) <==> row_lights(row, x0, y, columns, k) || (k == idx && sprite_bit(
        row,
        columns,
    ))) by {
        if k / 64 == y && k % 64 == x0 + columns {
            assert(k == idx);
        }
    }
    if sprite_bit(row, columns) {
        assert(longer =~= shorter.update(idx, toggled(display[idx])));
    } else {
        assert(longer =~= shorter);
    }
    if row_erases(display, row, x0, y, columns + 1) {
        let k = choose|k: int|
            0 <= k < display.len() && row_lights(row, x0, y, columns + 1, k)
                && #[trigger] display[k] == 1;
        if k != idx {
            assert(row_lights(row, x0, y, columns, k) && display[k] == 1);
        }
    }
    if row_erases(display, row, x0, y, columns) {
        let k = choose|k: int|
            0 <= k < display.len() && row_lights(row, x0, y, columns, k)
                && #[trigger] display[k] == 1;
        assert(row_lights(row, x0, y, columns + 1, k) && display[k] == 1);
    }
    if sprite_bit(row, columns) && display[idx] == 1 {
        assert(row_lights(row, x0, y, columns + 1, idx) && display[idx] == 1);
    }
}

/// A sprite row that reaches the right edge of the grid after `columns`
/// pixels is drawn in full by drawing those: the rest is left out.
proof fn lemma_row_clipped(display: Seq<u8>, row: u8, x0: int, y: int, columns: int)
    requires
        display.len() == PIXEL_COUNT,
        0 <= x0,
        0 <= columns <= 8,
        columns == 8 || x0 + columns == WIDTH,
    ensures
        row_drawn(display, row, x0, y, columns) == row_drawn(display, row, x0, y, 8),
        row_erases(display, row, x0, y, columns) == row_erases(display, row, x0, y, 8),
{
    assert forall|k: int| 0 <= k < display.len() implies (row_lights(
        row,
        x0,
        y,
        columns,
        k,
    ) <==> row_lights(row, x0, y, 8, k)) by {}
    assert(row_drawn(display, row, x0, y, columns) =~= row_drawn(display, row, x0, y, 8));
    if row_erases(display, row, x0, y, columns) {
        let k = choose|k: int|
            0 <= k < display.len() && row_lights(row, x0, y, columns, k)
                && #[trigger] display[k] == 1;
        assert(row_lights(row, x0, y, 8, k) && display[k] == 1);
    }
    if row_erases(display, row, x0, y, 8) {
        let k = choose|k: int|
            0 <= k < display.len() && row_lights(row, x0, y, 8, k)
                && #[trigger] display[k] == 1;
        assert(row_lights(row, x0, y, columns, k) && display[k] == 1);
    }
}

/// Drawing one more row of a sprite is drawing that row onto what the rows
/// before it gave; and a lit pixel is turned off by the longer sprite if one
/// was by the shorter, or is by the new row.
pub proof fn lemma_sprite_extended(
    display: Seq<u8>,
    memory: Seq<u8>,
    i: int,
    x0: int,
    y0: int,
    rows: int,
)
    requires
        display.len() == PIXEL_COUNT,
        0 <= rows,
    ensures
        sprite_drawn(display, memory, i, x0, y0, rows + 1) == row_drawn(
            sprite_drawn(display, memory, i, x0, y0, rows),
            memory[i + rows],
            x0,
            y0 + rows,
            8,
        ),
        sprite_erases(display, memory, i, x0, y0, rows + 1) == (sprite_erases(
            display,
            memory,
            i,
            x0,
            y0,
            rows,
        ) || row_erases(
            sprite_drawn(display, memory, i, x0, y0, rows),
            memory[i + rows],
            x0,
            y0 + rows,
            8,
        )),
{
    let shorter = sprite_drawn(display, memory, i, x0, y0, rows);
    let longer = sprite_drawn(display, memory, i, x0, y0, rows + 1);
    let row = memory[i + rows];
    let y = y0 + rows;
    assert forall|k: int| 0 <= k < display.len() implies (#[trigger] sprite_lights(
        memory,
        i,
        x0,
        y0,
        rows + 1,
        k,
    ) <==> sprite_lights(memory, i, x0, y0, rows, k) || row_lights(row, x0, y, 8, k)) by {}
    assert forall|k: int| 0 <= k < display.len() && row_lights(row, x0, y, 8, k) implies !(
    #[trigger] sprite_lights(memory, i, x0, y0, rows, k)) by {}
    assert(longer =~= row_drawn(shorter, row, x0, y, 8));
    if sprite_erases(display, memory, i, x0, y0, rows + 1) {
        let k = choose|k: int|
            0 <= k < display.len() && sprite_lights(memory, i, x0, y0, rows + 1, k)
                && #[trigger] display[k] == 1;
        if sprite_lights(memory, i, x0, y0, rows, k) {
            assert(display[k] == 1);
        } else {
            assert(row_lights(row, x0, y, 8, k) && shorter[k] == 1);
        }
    }
    if sprite_erases(display, memory, i, x0, y0, rows) {
        let k = choose|k: int|
            0 <= k < display.len() && sprite_lights(memory, i, x0, y0, rows, k)
                && #[trigger] display[k] == 1;
        assert(sprite_lights(memory, i, x0, y0, rows + 1, k) && display[k] == 1);
    }
    if row_erases(shorter, row, x0, y, 8) {
        let k = choose|k: int|
            0 <= k < shorter.len() && row_lights(row, x0, y, 8, k) && #[trigger] shorter[k] == 1;
        assert(!sprite_lights(memory, i, x0, y0, rows, k));
        assert(sprite_lights(memory, i, x0, y0, rows + 1, k) && display[k] == 1);
    }
}

/// A sprite of no rows changes nothing.
pub proof fn lemma_sprite_empty(display: Seq<u8>, memory: Seq<u8>, i: int, x0: int, y0: int)
    ensures
        sprite_drawn(display, memory, i, x0, y0, 0) == display,
        !sprite_erases(display, memory, i, x0, y0, 0),
{
    assert(sprite_drawn(display, memory, i, x0, y0, 0) =~= display);
}

/// A sprite that reaches the lower edge of the grid is drawn in full by
/// drawing the rows that lie on the grid: the rest is left out.
pub proof fn lemma_sprite_clipped(
    display: Seq<u8>,
    memory: Seq<u8>,
    i: int,
    x0: int,
    y0: int,
    rows: int,
)
    requires
        display.len() == PIXEL_COUNT,
        0 <= y0 < HEIGHT,
        0 <= rows,
    ensures
        sprite_drawn(display, memory, i, x0, y0, visible_rows(y0, rows)) == sprite_drawn(
            display,
            memory,
            i,
            x0,
            y0,
            rows,
        ),
        sprite_erases(display, memory, i, x0, y0, visible_rows(y0, rows)) == sprite_erases(
            display,
            memory,
            i,
            x0,
            y0,
            rows,
        ),
{
    let visible = visible_rows(y0, rows);
    assert forall|k: int| 0 <= k < display.len() implies (#[trigger] sprite_lights(
        memory,
        i,
        x0,
        y0,
        visible,
        k,
    ) <==> sprite_lights(memory, i, x0, y0, rows, k)) by {}
    assert(sprite_drawn(display, memory, i, x0, y0, visible) =~= sprite_drawn(
        display,
        memory,
        i,
        x0,
        y0,
        rows,
    ));
    if sprite_erases(display, memory, i, x0, y0, visible) {
        let k = choose|k: int|
            0 <= k < display.len() && sprite_lights(memory, i, x0, y0, visible, k)
                && #[trigger] display[k] == 1;
        assert(sprite_lights(memory, i, x0, y0, rows, k) && display[k] == 1);
    }
    if sprite_erases(display, memory, i, x0, y0, rows) {
        let k = choose|k: int|
            0 <= k < display.len() && sprite_lights(memory, i, x0, y0, rows, k)
                && #[trigger] display[k] == 1;
        assert(sprite_lights(memory, i, x0, y0, visible, k) && display[k] == 1);
    }
}

/// Draws one sprite row with its left end at column `x0` of row `y`, and
/// tells whether that turned a lit pixel off.
pub fn draw_row(display: &mut FrameBuffer, row: u8, x0: usize, y: usize) -> (erased: bool)
    requires
        x0 < WIDTH,
        y < HEIGHT,
    ensures
        final(display)@ == row_drawn(old(display)@, row, x0 as int, y as int, 8),
        erased == row_erases(old(display)@, row, x0 as int, y as int, 8),
{
    let mut erased: bool = false;
    let mut bit: u8 = 0;
    proof {
        display.lemma_len();
        assert(display@ =~= row_drawn(display@, row, x0 as int, y as int, 0));
    }
    while bit < 8 && x0 + (bit as usize) < 64
        invariant
            bit <= 8,
            x0 < WIDTH,
            y < HEIGHT,
            x0 + bit <= WIDTH,
            old(display)@.len() == PIXEL_COUNT,
            display@ == row_drawn(old(display)@, row, x0 as int, y as int, bit as int),
            erased == row_erases(old(display)@, row, x0 as int, y as int, bit as int),
        decreases 8 - bit,
    {
        proof {
            lemma_row_extended(old(display)@, row, x0 as int, y as int, bit as int);
        }
        let sprite_pixel: u8 = (row >> (7 - bit)) & 1;
        if sprite_pixel == 1 {
            let was_on: bool = display.flip_pixel(x0 + bit as usize, y);
            if was_on {
                erased = true;
            }
        }
        bit += 1;
    }
    proof {
        lemma_row_clipped(old(display)@, row, x0 as int, y as int, bit as int);
    }
    erased
}

} // verus!
