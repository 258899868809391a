use vstd::prelude::*;

verus! {

/// An RGBA colour, one byte per channel.
#[derive(Debug, PartialEq, Eq, Structural, Clone, Copy)]
pub struct Color {
    pub r: u8,
    pub g: u8,
    pub b: u8,
    pub a: u8,
}

impl Color {
    /// Opaque white, the colour particles are drawn in.
    pub open spec fn white_spec() -> Color {
        Color { r: 255, g: 255, b: 255, a: 255 }
    }

    pub fn white() -> (r: Color)
        ensures
            r == Color::white_spec(),
    {
        Color { r: 255, g: 255, b: 255, a: 255 }
    }
}

/// Number of particles along each side of the starting grid.
pub const GRID_SIDE: u32 = 18;

/// Number of particles in the starting grid.
pub const GRID_LEN: usize = 324;

/// The grid cell of the particle at position `k` of the starting collection:
/// columns and rows both run from 1 to `GRID_SIDE`, with the column changing slowest.
pub open spec fn grid_cell(k: int) -> (u32, u32) {
    ((1 + k / GRID_SIDE as int) as u32, (1 + k % GRID_SIDE as int) as u32)
}

/// The grid cells of the starting particles, in particle order. A particle
/// in cell `(i, j)` starts at `(0.5 + 5 i, height - (0.5 + 5 j))` with no velocity.
pub fn grid_cells() -> (r: Vec<(u32, u32)>)
    ensures
        r@.len() == GRID_LEN,
        forall|k: int| 0 <= k < GRID_LEN ==> #[trigger] r@[k] == grid_cell(k),
{
    let mut out: Vec<(u32, u32)> = Vec::with_capacity(GRID_LEN);
    let mut i: u32 = 1;
    while i <= GRID_SIDE
        invariant
            1 <= i <= GRID_SIDE + 1,
            out@.len() == (i - 1) * GRID_SIDE,
            forall|k: int| 0 <= k < out@.len() ==> #[trigger] out@[k] == grid_cell(k),
        decreases GRID_SIDE + 1 - i,
    {
        let mut j: u32 = 1;
        while j <= GRID_SIDE
            invariant
                1 <= i <= GRID_SIDE,
                1 <= j <= GRID_SIDE + 1,
                out@.len() == (i - 1) * GRID_SIDE + j - 1,
                forall|k: int| 0 <= k < out@.len() ==> #[trigger] out@[k] == grid_cell(k),
            decreases GRID_SIDE + 1 - j,
        {
            proof {
                let k = (i - 1) * GRID_SIDE + j - 1;
                assert(k / 18 == i - 1 && k % 18 == j - 1) by (nonlinear_arith)
                    requires
                        k == (i - 1) * 18 + j - 1,
                        1 <= j <= 18,
                        1 <= i <= 18,
                ;
            }
            out.push((i, j));
            j = j + 1;
        }
        i = i + 1;
    }
    out
}

} // verus!
