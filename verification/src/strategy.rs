//! The two search strategies, as the coordinator sees them.
//!
//! The searches themselves are supplied from outside. The coordinator is
//! written against these two interfaces and makes no assumption about what
//! an implementation answers: whatever is proved of it holds for every
//! implementation.

use vstd::prelude::*;
use crate::board::Board;
use crate::pcloop::{Info, PcPriority};
use crate::piece::{FallingPiece, Piece};
use crate::protocol::{Move, MoveInfo, MovementMode, Options};
use crate::solution::Solution;

verus! {

/// The general strategy: a search that refines its suggestions through
/// background work units.
pub trait GeneralSearch: Sized {
    /// The oracle that rates positions; shared with the work units.
    type Evaluator;

    /// The opening book that a suggestion may be looked up in.
    type Book;

    /// One detachable unit of search work.
    type Thinker;

    /// What running a unit of search work yields.
    type ThinkResult;

    /// The statistics that come with a suggestion.
    type Stats;

    /// A fresh search that starts from the snapshot.
    fn new(board: Board, options: Options) -> Self;

    /// The field and the streak counters were replaced.
    fn reset(&mut self, field: [[bool; 10]; 40], b2b: bool, combo: u32);

    /// A further upcoming piece has become known.
    fn add_next_piece(&mut self, piece: Piece);

    /// A placement has been made.
    fn advance_move(&mut self, mv: FallingPiece);

    /// Look into this continuation first.
    fn force_analysis_line(&mut self, path: Vec<FallingPiece>);

    /// The move to recommend for the turn, if the search can name one now.
    fn suggest_move(
        &mut self,
        eval: &Self::Evaluator,
        book: Option<&Self::Book>,
        incoming: u32,
    ) -> Option<(Move, MoveInfo<Self::Stats>)>;

    /// One more unit of search work. `Err(false)` says that there is nothing
    /// left to search; `Err(true)` that no unit could be cut out this time.
    fn think(&mut self) -> Result<Self::Thinker, bool>;

    /// Takes in what a unit of search work has yielded.
    fn finish_thinking(&mut self, result: Self::ThinkResult);

    /// No placement avoids the loss of the game.
    fn is_dead(&self) -> bool;

    /// Runs a unit of search work. It has no access to the search it was cut
    /// from.
    fn run(thinker: Self::Thinker, eval: &Self::Evaluator) -> Self::ThinkResult;
}

/// The clear-sequence strategy: an exhaustive search for a run of
/// placements that empties the field.
pub trait ClearSearch: Sized {
    /// One detachable unit of solver work.
    type Solver;

    /// A fresh search that starts from the snapshot.
    fn new(board: Board, use_hold: bool, mode: MovementMode, priority: PcPriority) -> Self;

    /// A further upcoming piece has become known.
    fn add_next_piece(&mut self, piece: Piece);

    /// One more unit of solver work, if any is to be done.
    fn think(&mut self) -> Option<Self::Solver>;

    /// The next move of the plan. `Err(false)` says that no plan is ready
    /// yet; `Err(true)` that there provably is none.
    fn suggest_move(&mut self) -> Result<(Move, Info), bool>;

    /// A placement has been made; the answer is whether it was the next
    /// step of the plan.
    fn play_move(&mut self, mv: FallingPiece) -> bool;

    /// Takes in what a unit of solver work has found.
    fn solution(&mut self, soln: Option<Solution>);

    /// Runs a unit of solver work. It has no access to the search it was cut
    /// from.
    fn solve(solver: &Self::Solver) -> Option<Solution>;
}

} // verus!
