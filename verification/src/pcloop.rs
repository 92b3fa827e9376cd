//! The clear-sequence strategy where no solver is at hand: the types of its
//! interface, and an implementation that gives up at once.

use vstd::prelude::*;
use crate::board::{Board, LockResult};
use crate::piece::{FallingPiece, Piece};
use crate::protocol::{Move, MovementMode};
use crate::solution::Solution;
use crate::strategy::ClearSearch;

verus! {

/// Which of several clear sequences the solver is to prefer.
#[derive(Clone, Copy, Debug, PartialEq, Eq, Hash, Structural)]
pub enum PcPriority {
    Fastest,
    HighestAttack,
}

/// The plan behind a move of the clear-sequence strategy: the placements
/// still to come, each with what committing it does.
#[derive(Clone, Debug, PartialEq, Eq, Hash)]
pub struct Info {
    pub plan: Vec<(FallingPiece, LockResult)>,
}

/// A unit of solver work that finds nothing.
#[derive(Clone, Copy, Debug)]
pub struct PcSolver;

/// A clear-sequence strategy without a solver behind it. It hands out no
/// work, never has a plan, and reports at the first request that there is
/// none, so that the coordinator goes back to the general strategy.
#[derive(Clone, Copy, Debug)]
pub struct PcLooper;

impl PcSolver {
    /// Finds no clear sequence.
    pub fn solve(&self) -> (found: Option<Solution>)
        ensures
            found is None,
    {
        None
    }
}

impl PcLooper {
    /// A strategy that will give up at the first request, whatever the
    /// snapshot and the tuning.
    pub fn new(board: Board, use_hold: bool, mode: MovementMode, priority: PcPriority) -> PcLooper {
        PcLooper
    }

    /// Leaves the strategy as it is.
    pub fn add_next_piece(&mut self, piece: Piece)
        ensures
            *final(self) == *old(self),
    {
    }

    /// Hands out no work.
    pub fn think(&mut self) -> (work: Option<PcSolver>)
        ensures
            work is None,
            *final(self) == *old(self),
    {
        None
    }

    /// Reports that there is no clear sequence.
    pub fn suggest_move(&mut self) -> (answer: Result<(Move, Info), bool>)
        ensures
            answer matches Err(unsolvable) && unsolvable,
            *final(self) == *old(self),
    {
        Err(true)
    }

    /// No placement is a step of the plan, since there is none.
    pub fn play_move(&mut self, mv: FallingPiece) -> (planned: bool)
        ensures
            !planned,
            *final(self) == *old(self),
    {
        false
    }

    /// Leaves the strategy as it is, whatever was found.
    pub fn solution(&mut self, soln: Option<Solution>)
        ensures
            *final(self) == *old(self),
    {
    }
}

impl ClearSearch for PcLooper {
    type Solver = PcSolver;

    fn new(board: Board, use_hold: bool, mode: MovementMode, priority: PcPriority) -> Self {
        PcLooper::new(board, use_hold, mode, priority)
    }

    fn add_next_piece(&mut self, piece: Piece)
        ensures
            *final(self) == *old(self),
    {
        PcLooper::add_next_piece(self, piece)
    }

    fn think(&mut self) -> (work: Option<PcSolver>)
        ensures
            work is None,
            *final(self) == *old(self),
    {
        PcLooper::think(self)
    }

    fn suggest_move(&mut self) -> (answer: Result<(Move, Info), bool>)
        ensures
            answer matches Err(unsolvable) && unsolvable,
            *final(self) == *old(self),
    {
        PcLooper::suggest_move(self)
    }

    fn play_move(&mut self, mv: FallingPiece) -> (planned: bool)
        ensures
            !planned,
            *final(self) == *old(self),
    {
        PcLooper::play_move(self, mv)
    }

    fn solution(&mut self, soln: Option<Solution>)
        ensures
            *final(self) == *old(self),
    {
        PcLooper::solution(self, soln)
    }

    fn solve(solver: &PcSolver) -> (found: Option<Solution>)
        ensures
            found is None,
    {
        solver.solve()
    }
}

} // verus!
