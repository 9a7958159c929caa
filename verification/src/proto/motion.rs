//! The layout of the loading indicators: how many cells they have, their tints, and
//! the order in which the mini spinner lights its cells.

use vstd::prelude::*;

verus! {

/// Cells in the zeron wave loader.
pub const ZERON_CELLS: usize = 5;

/// Side length of the gradient spinner matrix.
pub const MATRIX_SIDE: usize = 3;

/// Per-row tints of the gradient matrix spinner — zeron's "sunrise" gradient
/// sampled at each row: cool blue at the top, through amber, to pink.
pub const GSPIN_ROW_TINTS: [u32; 3] = [0xB6D3EF, 0xEDB185, 0xF888A0];

/// Clockwise ring position of each `(row, col)` cell of the 2×3 mini spinner,
/// top-left first: (0,0) → (0,1) → (1,1) → (2,1) → (2,0) → (1,0). Every cell of
/// a 2×3 grid is on the ring, so the brightness chases around it.
pub const MINI_RING: [[usize; 2]; 3] = [[0, 1], [5, 2], [4, 3]];

/// Cells in the mini spinner's ring.
pub const MINI_RING_LEN: usize = 6;

/// The cell of the mini spinner at a place on the ring.
pub open spec fn ring_cell(place: int) -> (int, int) {
    if place == 0 {
        (0, 0)
    } else if place == 1 {
        (0, 1)
    } else if place == 2 {
        (1, 1)
    } else if place == 3 {
        (2, 1)
    } else if place == 4 {
        (2, 0)
    } else {
        (1, 0)
    }
}

/// The ring of the mini spinner visits every cell once: each place on it is that of
/// one cell, each cell has one place, and neighbours on the ring touch in the grid.
pub proof fn mini_ring_visits_every_cell_once(place: int, row: int, col: int)
    requires
        0 <= place < MINI_RING_LEN,
        0 <= row < 3,
        0 <= col < 2,
    ensures
        ({
            let (r, c) = ring_cell(place);
            MINI_RING@[r]@[c] == place
        }),
        0 <= MINI_RING@[row]@[col] < MINI_RING_LEN,
        ring_cell(MINI_RING@[row]@[col] as int) == (row, col),
        ({
            let (r, c) = ring_cell(place);
            let (s, d) = ring_cell((place + 1) % (MINI_RING_LEN as int));
            (r == s && (c == d + 1 || d == c + 1)) || (c == d && (r == s + 1 || s == r + 1))
        }),
{
}

} // verus!
