//! When the clear-sequence strategy is worth a try.

use vstd::prelude::*;
use crate::board::{Board, BoardView};
use crate::protocol::Options;

verus! {

/// How many upcoming pieces the clear-sequence strategy needs to see: the
/// ten placements of its window, and one more where a piece may be set
/// aside.
pub open spec fn pieces_needed(hold_enabled: bool) -> nat {
    if hold_enabled {
        11
    } else {
        10
    }
}

/// How many pieces count towards a clear sequence: those of the queue, and
/// the held piece where holding is enabled.
pub open spec fn pieces_known(queue_len: nat, holding: bool, hold_enabled: bool) -> nat {
    if hold_enabled && holding {
        queue_len + 1
    } else {
        queue_len
    }
}

/// The eligibility predicate on what it depends on: whether the top row is
/// empty, how long the queue is, whether a piece is held, and whether
/// holding is enabled.
pub open spec fn eligible(top_row_empty: bool, queue_len: nat, holding: bool, hold_enabled: bool) -> bool {
    top_row_empty && pieces_known(queue_len, holding, hold_enabled) >= pieces_needed(hold_enabled)
}

/// The eligibility predicate on a snapshot.
pub open spec fn can_pc_loop_spec(board: BoardView, hold_enabled: bool) -> bool {
    eligible(board.top_row_empty(), board.queue.len(), board.hold is Some, hold_enabled)
}

/// The clear-sequence strategy is switched on and the snapshot is eligible.
pub open spec fn enters_pc_loop(board: BoardView, options: Options) -> bool {
    options.pcloop is Some && can_pc_loop_spec(board, options.use_hold)
}

/// Decides whether the clear-sequence strategy is worth a try on this
/// snapshot: the top row of the field is empty and enough pieces are known.
pub fn can_pc_loop(board: &Board, hold_enabled: bool) -> (r: bool)
    ensures
        r == can_pc_loop_spec(board@, hold_enabled),
{
    if !board.top_row_is_empty() {
        return false;
    }
    let pieces = board.queue_len();
    if hold_enabled {
        if board.hold_piece.is_some() {
            pieces >= 10
        } else {
            pieces >= 11
        }
    } else {
        pieces >= 10
    }
}

/// Decides whether the coordinator is to run the clear-sequence strategy on
/// this snapshot: the strategy is switched on and the snapshot is eligible.
pub fn wants_pc_loop(board: &Board, options: &Options) -> (r: bool)
    ensures
        r == enters_pc_loop(board@, *options),
{
    options.pcloop.is_some() && can_pc_loop(board, options.use_hold)
}

} // verus!
