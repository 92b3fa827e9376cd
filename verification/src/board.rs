//! The game-state snapshot: field, queue of upcoming pieces, held piece and
//! the two streak counters.

use std::collections::VecDeque;
use vstd::prelude::*;
use crate::piece::{FallingPiece, Piece, TspinStatus, COLUMNS, ROWS};

verus! {

/// What a snapshot is, mathematically.
pub struct BoardView {
    /// The rows of the field, row 0 being the top row; `true` is a filled cell.
    pub field: Seq<Seq<bool>>,
    /// The known upcoming pieces, the next one first.
    pub queue: Seq<Piece>,
    /// The piece set aside, if any.
    pub hold: Option<Piece>,
    /// The last clear was a qualifying one.
    pub b2b: bool,
    /// How many placements in a row have cleared a line.
    pub combo: nat,
}

/// A row without a filled cell.
pub open spec fn empty_row() -> Seq<bool> {
    Seq::new(COLUMNS as nat, |x: int| false)
}

/// Every cell of the row is filled.
pub open spec fn row_full(row: Seq<bool>) -> bool {
    forall|x: int| 0 <= x < row.len() ==> row[x]
}

/// No cell of the row is filled.
pub open spec fn row_empty(row: Seq<bool>) -> bool {
    forall|x: int| 0 <= x < row.len() ==> !row[x]
}

/// The rows of a field matrix.
pub open spec fn field_rows(field: [[bool; 10]; 40]) -> Seq<Seq<bool>> {
    Seq::new(ROWS as nat, |y: int| field[y]@)
}

/// The rows with the cells of a placement filled in.
pub open spec fn with_placement(rows: Seq<Seq<bool>>, mv: FallingPiece) -> Seq<Seq<bool>> {
    Seq::new(rows.len(), |y: int| Seq::new(rows[y].len(), |x: int| rows[y][x] || mv.occupies(x, y)))
}

/// The rows that are not completely filled, in their order.
pub open spec fn surviving_rows(rows: Seq<Seq<bool>>) -> Seq<Seq<bool>> {
    rows.filter(|row: Seq<bool>| !row_full(row))
}

/// How many rows are completely filled.
pub open spec fn full_lines(rows: Seq<Seq<bool>>) -> nat {
    (rows.len() - surviving_rows(rows).len()) as nat
}

/// The rows after the completed ones are taken out: those that survive keep
/// their order and sink to the bottom, and as many empty rows come in at the
/// top as were taken out.
pub open spec fn clear_lines(rows: Seq<Seq<bool>>) -> Seq<Seq<bool>> {
    Seq::new(full_lines(rows), |y: int| empty_row()) + surviving_rows(rows)
}

/// A clear that keeps the back-to-back streak alive: four lines or more at
/// once, or any clear made with a spin.
pub open spec fn qualifying_clear(lines: nat, tspin: TspinStatus) -> bool {
    lines > 0 && (lines >= 4 || tspin != TspinStatus::Plain)
}

impl BoardView {
    /// The snapshot of a game that has not begun.
    pub open spec fn empty() -> BoardView {
        BoardView {
            field: Seq::new(ROWS as nat, |y: int| empty_row()),
            queue: Seq::empty(),
            hold: None,
            b2b: false,
            combo: 0,
        }
    }

    /// The top row of the field holds no filled cell.
    pub open spec fn top_row_empty(self) -> bool {
        row_empty(self.field[0])
    }

    /// The snapshot with the field and both streak counters overwritten.
    pub open spec fn reset(self, field: [[bool; 10]; 40], b2b: bool, combo: u32) -> BoardView {
        BoardView { field: field_rows(field), b2b, combo: combo as nat, ..self }
    }

    /// The snapshot with one more piece at the end of the queue.
    pub open spec fn with_next_piece(self, piece: Piece) -> BoardView {
        BoardView { queue: self.queue.push(piece), ..self }
    }

    /// The placement uses the hold slot: it is not the piece at the head of
    /// the queue.
    pub open spec fn uses_hold(self, mv: FallingPiece) -> bool {
        mv.piece() != self.queue[0]
    }

    /// How many pieces leave the queue when the placement is confirmed: one,
    /// and one more where the hold slot is used while empty, as far as the
    /// queue has them.
    pub open spec fn pieces_drawn(self, mv: FallingPiece) -> nat {
        if self.uses_hold(mv) && self.hold is None && self.queue.len() >= 2 {
            2
        } else {
            1
        }
    }

    /// The snapshot after the pieces of a confirmed placement have left the
    /// queue and the hold slot has been swapped where it was used.
    pub open spec fn drawn(self, mv: FallingPiece) -> BoardView
        recommends
            self.queue.len() > 0,
    {
        BoardView {
            queue: self.queue.skip(self.pieces_drawn(mv) as int),
            hold: if self.uses_hold(mv) {
                Some(self.queue[0])
            } else {
                self.hold
            },
            ..self
        }
    }

    /// The snapshot after a placement is committed to the field: its cells
    /// are filled, completed lines are cleared, and the streak counters follow
    /// the number of lines cleared.
    pub open spec fn locked(self, mv: FallingPiece) -> BoardView {
        let filled = with_placement(self.field, mv);
        let lines = full_lines(filled);
        BoardView {
            field: clear_lines(filled),
            b2b: if lines > 0 {
                qualifying_clear(lines, mv.tspin)
            } else {
                self.b2b
            },
            combo: if lines > 0 {
                self.combo + 1
            } else {
                0
            },
            ..self
        }
    }

    /// The snapshot after a placement is confirmed.
    pub open spec fn confirmed(self, mv: FallingPiece) -> BoardView
        recommends
            self.queue.len() > 0,
    {
        self.drawn(mv).locked(mv)
    }
}

/// The authoritative game state.
pub struct Board {
    /// The field, row by row; row 0 is the top row.
    pub field: [[bool; 10]; 40],
    /// How many placements in a row have cleared a line.
    pub combo: u32,
    /// The last clear was a qualifying one.
    pub b2b_bonus: bool,
    /// The piece set aside, if any.
    pub hold_piece: Option<Piece>,
    /// The known upcoming pieces, the next one first.
    pub next_pieces: VecDeque<Piece>,
}

/// What committing a placement did.
#[derive(Clone, Copy, Debug, PartialEq, Eq, Hash, Structural)]
pub struct LockResult {
    /// How many lines were cleared.
    pub cleared_lines: usize,
    /// The back-to-back flag after the placement.
    pub b2b: bool,
    /// The combo counter after the placement.
    pub combo: u32,
}

impl View for Board {
    type V = BoardView;

    open spec fn view(&self) -> BoardView {
        BoardView {
            field: field_rows(self.field),
            queue: self.next_pieces@,
            hold: self.hold_piece,
            b2b: self.b2b_bonus,
            combo: self.combo as nat,
        }
    }
}

impl Clone for Board {
    /// A copy that is the same snapshot.
    fn clone(&self) -> (copy: Board)
        ensures
            copy@ == self@,
    {
        let mut next_pieces: VecDeque<Piece> = VecDeque::new();
        let mut i: usize = 0;
        while i < self.next_pieces.len()
            invariant
                i <= self.next_pieces.len(),
                next_pieces@ == self.next_pieces@.take(i as int),
            decreases self.next_pieces.len() - i,
        {
            next_pieces.push_back(self.next_pieces[i]);
            i += 1;
        }
        assert(self.next_pieces@.take(self.next_pieces.len() as int) =~= self.next_pieces@);
        Board {
            field: self.field,
            combo: self.combo,
            b2b_bonus: self.b2b_bonus,
            hold_piece: self.hold_piece,
            next_pieces,
        }
    }
}

impl Board {
    /// A snapshot with an empty field, no pieces and no streak.
    pub fn new() -> (b: Board)
        ensures
            b@ == BoardView::empty(),
    {
        let b = Board {
            field: [[false; 10]; 40],
            combo: 0,
            b2b_bonus: false,
            hold_piece: None,
            next_pieces: VecDeque::new(),
        };
        assert(b@.field =~~= BoardView::empty().field);
        b
    }

    /// Overwrites the field.
    pub fn set_field(&mut self, field: [[bool; 10]; 40])
        ensures
            final(self)@ == (BoardView { field: field_rows(field), ..old(self)@ }),
    {
        self.field = field;
    }

    /// Appends a piece to the queue.
    pub fn add_next_piece(&mut self, piece: Piece)
        ensures
            final(self)@ == old(self)@.with_next_piece(piece),
    {
        self.next_pieces.push_back(piece);
    }

    /// Takes the next piece off the queue, if there is one.
    pub fn advance_queue(&mut self) -> (next: Option<Piece>)
        ensures
            old(self)@.queue.len() == 0 ==> next is None && final(self)@ == old(self)@,
            old(self)@.queue.len() > 0 ==> next == Some(old(self)@.queue[0]) && final(self)@ == (
            BoardView { queue: old(self)@.queue.skip(1), ..old(self)@ }),
    {
        self.next_pieces.pop_front()
    }

    /// Puts a piece into the hold slot and hands out what was there.
    pub fn hold(&mut self, piece: Piece) -> (held: Option<Piece>)
        ensures
            held == old(self)@.hold,
            final(self)@ == (BoardView { hold: Some(piece), ..old(self)@ }),
    {
        let held = self.hold_piece;
        self.hold_piece = Some(piece);
        held
    }

    /// The number of known upcoming pieces.
    pub fn queue_len(&self) -> (n: usize)
        ensures
            n == self@.queue.len(),
    {
        self.next_pieces.len()
    }

    /// Tells whether the top row of the field holds no filled cell.
    pub fn top_row_is_empty(&self) -> (r: bool)
        ensures
            r == self@.top_row_empty(),
    {
        row_is_empty(&self.field[0])
    }

    /// Commits a placement to the field: fills its cells, clears the
    /// completed lines and updates the streak counters.
    pub fn lock_piece(&mut self, mv: FallingPiece) -> (res: LockResult)
        requires
            mv.in_field(),
            old(self)@.combo < u32::MAX,
        ensures
            final(self)@ == old(self)@.locked(mv),
            res.cleared_lines == full_lines(with_placement(old(self)@.field, mv)),
            res.b2b == final(self)@.b2b,
            res.combo == final(self)@.combo,
    {
        let ghost before = self.field;
        let mut i: usize = 0;
        while i < 4
            invariant
                i <= 4,
                mv.in_field(),
                self.combo == old(self).combo,
                self.b2b_bonus == old(self).b2b_bonus,
                self.hold_piece == old(self).hold_piece,
                self.next_pieces == old(self).next_pieces,
                forall|y: int, x: int|
                    0 <= y < ROWS && 0 <= x < COLUMNS ==> #[trigger] self.field[y][x] == (
                    before[y][x] || placed_before(mv, i as int, x, y)),
            decreases 4 - i,
        {
            let c = mv.cells[i];
            self.field[c.y][c.x] = true;
            i += 1;
        }
        let ghost filled = with_placement(old(self)@.field, mv);
        assert(field_rows(self.field) =~~= filled);
        let kept = self.surviving();
        let lines: usize = ROWS - kept.len();
        let mut out = [[false; 10]; 40];
        let mut w: usize = 0;
        while w < kept.len()
            invariant
                w <= kept.len(),
                kept.len() + lines == ROWS,
                forall|y: int| 0 <= y < lines ==> (#[trigger] out[y])@ == empty_row(),
                forall|k: int| 0 <= k < w ==> (#[trigger] out[lines + k])@ == kept[k]@,
            decreases kept.len() - w,
        {
            out[lines + w] = kept[w];
            w += 1;
        }
        assert(field_rows(out) =~~= clear_lines(filled)) by {
            assert forall|y: int| 0 <= y < ROWS implies field_rows(out)[y] == clear_lines(
                filled,
            )[y] by {
                if y >= lines {
                    assert(out[lines + (y - lines)]@ == kept[y - lines]@);
                }
            }
        }
        self.field = out;
        if lines > 0 {
            self.b2b_bonus = lines >= 4 || mv.tspin != TspinStatus::Plain;
            self.combo = self.combo + 1;
        } else {
            self.combo = 0;
        }
        LockResult { cleared_lines: lines, b2b: self.b2b_bonus, combo: self.combo }
    }

    /// The rows of the field that are not completely filled, top to bottom.
    fn surviving(&self) -> (kept: Vec<[bool; 10]>)
        ensures
            kept@.map_values(|row: [bool; 10]| row@) == surviving_rows(self@.field),
            kept.len() <= ROWS,
    {
        let ghost rows = self@.field;
        let ghost keep = |row: Seq<bool>| !row_full(row);
        let mut kept: Vec<[bool; 10]> = Vec::new();
        let mut y: usize = 0;
        while y < ROWS
            invariant
                y <= ROWS,
                rows == self@.field,
                keep == (|row: Seq<bool>| !row_full(row)),
                kept.len() <= y,
                kept@.map_values(|row: [bool; 10]| row@) == rows.take(y as int).filter(keep),
            decreases ROWS - y,
        {
            let full = row_is_full(&self.field[y]);
            proof {
                reveal(Seq::filter);
                assert(rows.take(y + 1).drop_last() =~= rows.take(y as int));
            }
            if !full {
                kept.push(self.field[y]);
            }
            y += 1;
        }
        assert(rows.take(ROWS as int) =~= rows);
        kept
    }
}

/// One of the first `n` cells of the placement is the cell in column `x` of
/// row `y`.
spec fn placed_before(mv: FallingPiece, n: int, x: int, y: int) -> bool {
    exists|j: int| 0 <= j < n && 0 <= j < 4 && (#[trigger] mv.cells[j]).x == x && mv.cells[j].y == y
}

/// Tells whether no cell of the row is filled.
pub fn row_is_empty(row: &[bool; 10]) -> (r: bool)
    ensures
        r == row_empty(row@),
{
    let mut x: usize = 0;
    while x < COLUMNS
        invariant
            x <= COLUMNS,
            forall|k: int| 0 <= k < x ==> !row[k],
        decreases COLUMNS - x,
    {
        if row[x] {
            return false;
        }
        x += 1;
    }
    true
}

/// Tells whether every cell of the row is filled.
pub fn row_is_full(row: &[bool; 10]) -> (r: bool)
    ensures
        r == row_full(row@),
{
    let mut x: usize = 0;
    while x < COLUMNS
        invariant
            x <= COLUMNS,
            forall|k: int| 0 <= k < x ==> row[k],
        decreases COLUMNS - x,
    {
        if !row[x] {
            return false;
        }
        x += 1;
    }
    true
}

} // verus!
