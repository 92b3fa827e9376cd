//! Decision-mode coordinator of a block-stacking agent.
//!
//! The coordinator owns the game-state snapshot, keeps exactly one search
//! strategy active, hands out bounded batches of detachable work units and
//! takes their results back, dropping those that belong to a strategy it has
//! since left.
//!
//! - [`piece`] and [`board`]: pieces, placements and the snapshot.
//! - [`eligibility`]: when the clear-sequence strategy is worth a try.
//! - [`strategy`]: the two strategies, as interfaces that the searches
//!   implement.
//! - [`protocol`]: settings, messages and recommended moves.
//! - [`task`] and [`solution`]: work units, their results, and the clear
//!   sequence that a solver finds.
//! - [`batch`]: how a batch of general work is put together.
//! - [`modes`]: the coordinator itself.
//! - [`pcloop`]: the clear-sequence strategy where no solver is at hand.
//! - [`laws`]: what holds in every state and over any run of calls.

pub mod batch;
pub mod board;
pub mod eligibility;
pub mod laws;
pub mod modes;
pub mod pcloop;
pub mod piece;
pub mod protocol;
pub mod solution;
pub mod strategy;
pub mod task;

pub use board::Board;
pub use modes::ModeSwitchedBot;
pub use protocol::{BotMsg, Move, MoveInfo, Options};
pub use strategy::{ClearSearch, GeneralSearch};
pub use task::{ModeKind, Task, TaskResult};
