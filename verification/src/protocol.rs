//! What callers say to the coordinator and what it answers: the settings of
//! a session, the messages, and a recommended move.

use vstd::prelude::*;
use crate::pcloop::{Info, PcPriority};
use crate::piece::{FallingPiece, Piece};

verus! {

/// How pieces may be steered into place; handed on to the strategies.
#[derive(Clone, Copy, Debug, PartialEq, Eq, Hash, Structural)]
pub enum MovementMode {
    ZeroG,
    TwentyG,
    HardDropOnly,
}

/// The settings of a session. The coordinator reads them and never changes
/// them.
#[derive(Clone, Copy, Debug)]
pub struct Options {
    /// How pieces may be steered into place.
    pub mode: MovementMode,
    /// Whether a piece may be set aside.
    pub use_hold: bool,
    /// The tuning of the clear-sequence strategy; `None` switches it off.
    pub pcloop: Option<PcPriority>,
    /// The most work units of the general strategy that may be out at once.
    pub threads: u32,
}

/// One input of a controller.
#[derive(Clone, Copy, Debug, PartialEq, Eq, Hash, Structural)]
pub enum PieceMovement {
    Left,
    Right,
    Cw,
    Ccw,
    SonicDrop,
}

/// A recommended move: where the piece is to end up, and how to get it
/// there.
#[derive(Clone, Debug)]
pub struct Move {
    /// The inputs that steer the piece into place.
    pub inputs: Vec<PieceMovement>,
    /// The placement that the inputs lead to.
    pub expected_location: FallingPiece,
    /// Whether the hold slot is used first.
    pub hold: bool,
}

/// What comes with a recommended move to explain it.
pub enum MoveInfo<S> {
    /// Statistics of the general search.
    Normal(S),
    /// The move was looked up in the opening book.
    Book,
    /// The plan of the clear-sequence strategy.
    PcLoop(Info),
}

/// What a request for a move comes to, once the active strategy has been
/// asked.
pub enum Reply<S> {
    /// The move is given, and the request is met.
    Given(Move, MoveInfo<S>),
    /// There is no move yet: the request stays open.
    Open,
    /// The strategy will never have a move: the request stays open, and
    /// another strategy has to take over.
    GiveUp,
}

impl<S> Reply<S> {
    /// What the general strategy's answer comes to: the move it names, with
    /// what it says of it, or an open request.
    pub fn of_general(answer: Option<(Move, MoveInfo<S>)>) -> (reply: Reply<S>)
        ensures
            reply == match answer {
                Some((mv, info)) => Reply::<S>::Given(mv, info),
                None => Reply::<S>::Open,
            },
    {
        match answer {
            Some((mv, info)) => Reply::Given(mv, info),
            None => Reply::Open,
        }
    }

    /// What the clear-sequence strategy's answer comes to: the next move of
    /// its plan, with the plan to explain it; an open request where no plan
    /// is ready; or the end of this strategy where there provably is none.
    pub fn of_clear(answer: Result<(Move, Info), bool>) -> (reply: Reply<S>)
        ensures
            reply == match answer {
                Ok((mv, info)) => Reply::<S>::Given(mv, MoveInfo::<S>::PcLoop(info)),
                Err(false) => Reply::<S>::Open,
                Err(true) => Reply::<S>::GiveUp,
            },
    {
        match answer {
            Ok((mv, info)) => Reply::Given(mv, MoveInfo::PcLoop(info)),
            Err(false) => Reply::Open,
            Err(true) => Reply::GiveUp,
        }
    }
}

/// A message to the coordinator.
pub enum BotMsg {
    /// The field and the streak counters are replaced.
    Reset { field: [[bool; 10]; 40], b2b: bool, combo: u32 },
    /// A further upcoming piece has become known.
    NewPiece(Piece),
    /// A move is asked for; the number names the turn.
    SuggestMove(u32),
    /// A placement has been made.
    PlayMove(FallingPiece),
    /// The general search is to look into this continuation first.
    ForceAnalysisLine(Vec<FallingPiece>),
}

} // verus!
