//! The layout of the random scene: the grid of cells that each hold a small
//! sphere, and the choice of each sphere's kind of material.
use vstd::prelude::*;

verus! {

/// Relies on rand::random: 32 bits from the thread's generator, about which
/// nothing is promised.
#[verifier::external_body]
fn random_bits() -> u32 {
    rand::random::<u32>()
}

/// The lowest coordinate of a grid cell, on either axis.
pub const GRID_MIN: i32 = -11;

/// The number of cells along each axis of the grid.
pub const GRID_SIDE: usize = 22;

/// The number of cells of the grid.
pub const GRID_CELLS: usize = 484;

/// The number of equally likely values of a draw: a uniform number in
/// `[0, 1)` is a draw divided by this.
pub const DRAW_RANGE: u32 = 16777216;

/// The kind of material of a small sphere.
#[derive(Clone, Copy, Debug, PartialEq, Eq, Structural)]
pub enum MaterialKind {
    /// A diffuse surface.
    Diffuse,
    /// A metal surface.
    Metal,
    /// A glass sphere.
    Glass,
}

/// The cell at position `k` of the grid, rows of constant first coordinate
/// in turn.
pub open spec fn cell_of(k: int) -> (int, int) {
    (GRID_MIN + k / (GRID_SIDE as int), GRID_MIN + k % (GRID_SIDE as int))
}

/// The kind of material for the uniform number `draw / DRAW_RANGE`: diffuse
/// below four fifths, metal up to nineteen twentieths, glass above.
pub open spec fn kind_of(draw: nat) -> MaterialKind {
    if 5 * draw < 4 * (DRAW_RANGE as nat) {
        MaterialKind::Diffuse
    } else if 20 * draw <= 19 * (DRAW_RANGE as nat) {
        MaterialKind::Metal
    } else {
        MaterialKind::Glass
    }
}

/// The cells of the grid, each pair of coordinates from `GRID_MIN` up to
/// `GRID_MIN + GRID_SIDE - 1`, in the order in which their spheres are made.
pub fn grid_cells() -> (cells: Vec<(i32, i32)>)
    ensures
        cells@.len() == GRID_CELLS,
        forall|k: int|
            0 <= k < GRID_CELLS ==> (#[trigger] cells@[k]).0 == cell_of(k).0 && cells@[k].1
                == cell_of(k).1,
{
    let mut cells: Vec<(i32, i32)> = Vec::new();
    let mut a: usize = 0;
    while a < GRID_SIDE
        invariant
            a <= GRID_SIDE,
            cells@.len() == a * GRID_SIDE,
            forall|k: int|
                0 <= k < a * GRID_SIDE ==> (#[trigger] cells@[k]).0 == cell_of(k).0
                    && cells@[k].1 == cell_of(k).1,
        decreases GRID_SIDE - a,
    {
        let mut b: usize = 0;
        while b < GRID_SIDE
            invariant
                a < GRID_SIDE,
                b <= GRID_SIDE,
                cells@.len() == a * GRID_SIDE + b,
                forall|k: int|
                    0 <= k < a * GRID_SIDE + b ==> (#[trigger] cells@[k]).0 == cell_of(k).0
                        && cells@[k].1 == cell_of(k).1,
            decreases GRID_SIDE - b,
        {
            let ghost k = (a * GRID_SIDE + b) as int;
            assert(k / (GRID_SIDE as int) == a as int && k % (GRID_SIDE as int) == b as int)
                by (nonlinear_arith)
                requires
                    k == a * 22 + b,
                    b < 22,
            ;
            cells.push((GRID_MIN + a as i32, GRID_MIN + b as i32));
            b = b + 1;
        }
        a = a + 1;
    }
    cells
}

/// The kind of material for the uniform number `draw / DRAW_RANGE`.
pub fn kind_for_draw(draw: u32) -> (kind: MaterialKind)
    requires
        draw < DRAW_RANGE,
    ensures
        kind == kind_of(draw as nat),
{
    if (draw as u64) * 5 < (DRAW_RANGE as u64) * 4 {
        MaterialKind::Diffuse
    } else if (draw as u64) * 20 <= (DRAW_RANGE as u64) * 19 {
        MaterialKind::Metal
    } else {
        MaterialKind::Glass
    }
}

/// A draw from the thread's generator: the same bits from which rand makes
/// a uniform `[0, 1)` number of single precision.
pub fn random_draw() -> (draw: u32)
    ensures
        draw < DRAW_RANGE,
{
    let bits: u32 = random_bits();
    let draw = bits >> 8u32;
    assert(bits >> 8u32 < 16777216u32) by (bit_vector);
    draw
}

} // verus!
