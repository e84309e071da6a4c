//! The square grid of instances, centred on the origin.

use vstd::arithmetic::div_mod::lemma_fundamental_div_mod_converse;
use vstd::prelude::*;

verus! {

/// Instances along one side of the grid that is drawn.
pub const NUM_INSTANCES_PER_ROW: u32 = 20;

/// The axis that an instance's rotation turns about.
#[derive(Clone, Copy, Debug, PartialEq, Eq, Structural)]
pub enum RotationAxis {
    /// The z axis: the choice for an instance at the very centre, where no
    /// direction leads away from the centre.
    UnitZ,
    /// The direction from the grid's centre to the instance.
    Radial,
}

/// One instance of the grid. Offsets are counted in half cells from the
/// grid's centre to the cell's centre, so they are whole numbers for every
/// grid size.
#[derive(Clone, Copy, Debug, PartialEq, Eq, Structural)]
pub struct GridCell {
    pub column: u32,
    pub row: u32,
    pub offset_x: i64,
    pub offset_y: i64,
    pub axis: RotationAxis,
}

/// Half cells from the centre of a row of `n` cells to the centre of cell
/// `k`.
pub open spec fn half_cell_offset(n: u32, k: int) -> int {
    2 * k + 1 - n
}

/// The cell in the given column and row of a grid of `n` by `n`.
pub open spec fn grid_cell(n: u32, column: int, row: int) -> GridCell {
    let offset_x = half_cell_offset(n, column);
    let offset_y = half_cell_offset(n, row);
    GridCell {
        column: column as u32,
        row: row as u32,
        offset_x: offset_x as i64,
        offset_y: offset_y as i64,
        axis: if offset_x == 0 && offset_y == 0 {
            RotationAxis::UnitZ
        } else {
            RotationAxis::Radial
        },
    }
}

/// The whole grid, row after row.
pub open spec fn grid(n: u32) -> Seq<GridCell> {
    Seq::new((n * n) as nat, |i: int| grid_cell(n, i % (n as int), i / (n as int)))
}

impl GridCell {
    /// Whether the cell's centre is the grid's centre.
    pub open spec fn centred(self) -> bool {
        self.offset_x == 0 && self.offset_y == 0
    }

    /// The cell in the given column and row of a grid of `n` by `n`.
    pub fn at(n: u32, column: u32, row: u32) -> (cell: GridCell)
        requires
            column < n,
            row < n,
        ensures
            cell == grid_cell(n, column as int, row as int),
    {
        let offset_x: i64 = 2 * (column as i64) + 1 - (n as i64);
        let offset_y: i64 = 2 * (row as i64) + 1 - (n as i64);
        let axis = if offset_x == 0 && offset_y == 0 {
            RotationAxis::UnitZ
        } else {
            RotationAxis::Radial
        };
        GridCell { column, row, offset_x, offset_y, axis }
    }
}

/// Generates the instances of an `n` by `n` grid centred on the origin, row
/// after row.
pub fn instance_grid(n: u32) -> (cells: Vec<GridCell>)
    requires
        n * n <= usize::MAX,
    ensures
        cells@ == grid(n),
        cells@.len() == n * n,
{
    let mut cells: Vec<GridCell> = Vec::new();
    let mut row: u32 = 0;
    while row < n
        invariant
            0 <= row <= n,
            cells@.len() == row * n,
            forall|i: int| 0 <= i < cells@.len() ==> cells@[i] == grid(n)[i],
        decreases n - row,
    {
        let mut column: u32 = 0;
        while column < n
            invariant
                0 <= column <= n,
                0 <= row < n,
                cells@.len() == row * n + column,
                forall|i: int| 0 <= i < cells@.len() ==> cells@[i] == grid(n)[i],
            decreases n - column,
        {
            proof {
                let i = row * n + column;
                lemma_fundamental_div_mod_converse(i, n as int, row as int, column as int);
                assert(i < n * n) by (nonlinear_arith)
                    requires
                        i == row * n + column,
                        0 <= column < n,
                        0 <= row < n,
                ;
            }
            cells.push(GridCell::at(n, column, row));
            column = column + 1;
        }
        assert((row + 1) * n == row * n + n) by (nonlinear_arith);
        row = row + 1;
    }
    cells
}

/// The grid has one cell for each pair of a column and a row.
pub proof fn lemma_grid_size(n: u32)
    ensures
        grid(n).len() == n * n,
{
}

/// Where a cell of the grid stands: cell `row * n + column` is the one of
/// that column and row.
pub proof fn lemma_grid_position(n: u32, column: int, row: int)
    requires
        0 <= column < n,
        0 <= row < n,
    ensures
        0 <= row * n + column < grid(n).len(),
        grid(n)[row * n + column] == grid_cell(n, column, row),
{
    let i = row * n + column;
    lemma_fundamental_div_mod_converse(i, n as int, row, column);
    assert(0 <= i < n * n) by (nonlinear_arith)
        requires
            i == row * n + column,
            0 <= column < n,
            0 <= row < n,
    ;
}

/// No rotation axis is undefined: a cell turns about the z axis exactly when
/// it sits on the centre, and every other cell is away from the centre, so
/// the direction to it exists.
pub proof fn lemma_axis_defined(n: u32, i: int)
    requires
        0 <= i < grid(n).len(),
    ensures
        grid(n)[i].axis == RotationAxis::UnitZ <==> grid(n)[i].centred(),
        grid(n)[i].axis == RotationAxis::Radial <==> !grid(n)[i].centred(),
{
    lemma_cell_in_grid(n, i);
}

/// Column and row of the cell at position `i`.
pub proof fn lemma_cell_in_grid(n: u32, i: int)
    requires
        0 <= i < grid(n).len(),
    ensures
        n > 0,
        0 <= i % (n as int) < n,
        0 <= i / (n as int) < n,
        grid(n)[i].column == i % (n as int),
        grid(n)[i].row == i / (n as int),
        grid(n)[i].offset_x == half_cell_offset(n, i % (n as int)),
        grid(n)[i].offset_y == half_cell_offset(n, i / (n as int)),
{
    assert(n > 0) by (nonlinear_arith)
        requires
            0 <= i < n * n,
    ;
    let d = n as int;
    vstd::arithmetic::div_mod::lemma_fundamental_div_mod(i, d);
    vstd::arithmetic::div_mod::lemma_mod_bound(i, d);
    let q = i / d;
    let r = i % d;
    assert(0 <= q < d) by (nonlinear_arith)
        requires
            0 <= i < d * d,
            d > 0,
            i == d * q + r,
            0 <= r < d,
    ;
}

/// A grid with an even side has no cell on its centre; one with an odd side
/// has exactly the middle cell there.
pub proof fn lemma_centre_cell(n: u32, i: int)
    requires
        0 <= i < grid(n).len(),
    ensures
        grid(n)[i].centred() <==> (n % 2 == 1 && i == (n / 2) * n + n / 2),
{
    lemma_cell_in_grid(n, i);
    let d = n as int;
    vstd::arithmetic::div_mod::lemma_fundamental_div_mod(i, d);
    if n % 2 == 1 && i == (n / 2) * n + n / 2 {
        lemma_fundamental_div_mod_converse(i, d, (n / 2) as int, (n / 2) as int);
    }
    if grid(n)[i].centred() {
        assert(2 * (i % d) + 1 == n);
        assert(2 * (i / d) + 1 == n);
        assert(i % d == n / 2);
        assert(i / d == n / 2);
        assert(i == (n / 2) * n + n / 2) by (nonlinear_arith)
            requires
                i == d * (i / d) + i % d,
                i % d == n / 2,
                i / d == n / 2,
                d == n,
        ;
    }
}

} // verus!
