//! Pieces and placements, as far as the coordinator looks at them.

use vstd::prelude::*;

verus! {

/// Number of rows of the playing field.
pub const ROWS: usize = 40;

/// Number of cells in one row of the playing field.
pub const COLUMNS: usize = 10;

/// The seven piece shapes.
#[derive(Clone, Copy, Debug, PartialEq, Eq, Hash, Structural)]
pub enum Piece {
    I,
    O,
    T,
    L,
    J,
    S,
    Z,
}

/// The four orientations of a piece.
#[derive(Clone, Copy, Debug, PartialEq, Eq, Hash, Structural)]
pub enum RotationState {
    North,
    South,
    East,
    West,
}

/// A piece together with its orientation.
#[derive(Clone, Copy, Debug, PartialEq, Eq, Hash, Structural)]
pub struct PieceState(pub Piece, pub RotationState);

/// Whether a placement ended with a spin, and of which kind.
#[derive(Clone, Copy, Debug, PartialEq, Eq, Hash, Structural)]
pub enum TspinStatus {
    Plain,
    Mini,
    Full,
}

/// One cell of the playing field: column `x`, row `y`. Row 0 is the top row.
#[derive(Clone, Copy, Debug, PartialEq, Eq, Hash, Structural)]
pub struct Cell {
    pub x: usize,
    pub y: usize,
}

/// A decided placement: which piece it is, the four cells it comes to rest
/// in, and whether it got there by a spin.
#[derive(Clone, Copy, Debug, PartialEq, Eq, Hash)]
pub struct FallingPiece {
    pub kind: PieceState,
    pub cells: [Cell; 4],
    pub tspin: TspinStatus,
}

impl Cell {
    /// The cell lies inside the playing field.
    pub open spec fn in_field(self) -> bool {
        self.x < COLUMNS && self.y < ROWS
    }
}

impl FallingPiece {
    /// All four cells lie inside the playing field.
    pub open spec fn in_field(self) -> bool {
        forall|i: int| 0 <= i < 4 ==> (#[trigger] self.cells[i]).in_field()
    }

    /// One of the four cells is the cell in column `x` of row `y`.
    pub open spec fn occupies(self, x: int, y: int) -> bool {
        exists|i: int| 0 <= i < 4 && (#[trigger] self.cells[i]).x == x && self.cells[i].y == y
    }

    /// The piece that is placed.
    pub open spec fn piece(self) -> Piece {
        self.kind.0
    }

    /// Tells whether every cell of the placement lies inside the field.
    pub fn fits(&self) -> (r: bool)
        ensures
            r == self.in_field(),
    {
        let mut i: usize = 0;
        while i < 4
            invariant
                i <= 4,
                forall|j: int| 0 <= j < i ==> (#[trigger] self.cells[j]).in_field(),
            decreases 4 - i,
        {
            let c = self.cells[i];
            if c.x >= COLUMNS || c.y >= ROWS {
                return false;
            }
            i += 1;
        }
        true
    }
}

} // verus!
