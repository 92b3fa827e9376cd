//! What holds of the coordinator in every state and over any run of calls.

use vstd::prelude::*;
use crate::board::{clear_lines, full_lines, with_placement, BoardView};
use crate::eligibility::{can_pc_loop_spec, eligible, pieces_known};
use crate::modes::{snapshot_after, BotView};
use crate::piece::FallingPiece;
use crate::protocol::{BotMsg, Options};
use crate::task::ModeKind;

verus! {

/// A confirmed placement takes exactly one piece off the queue, and exactly
/// one more where the hold slot is used while empty and the queue has a
/// second piece. The placement is committed to the field exactly once: the
/// field is the old one with the cells of the placement filled and the
/// completed lines cleared, and the combo counter has moved by one step.
/// This holds in every state, whichever strategy is active and whatever it
/// answers.
pub proof fn lemma_confirmed_move_draws_and_commits(state: BotView, mv: FallingPiece, plan_kept: bool)
    requires
        state.accepts(BotMsg::PlayMove(mv)),
    ensures
        ({
            let next = state.after_message(BotMsg::PlayMove(mv), plan_kept);
            let filled = with_placement(state.board.field, mv);
            &&& next.board.queue.len() + state.board.pieces_drawn(mv) == state.board.queue.len()
            &&& state.board.pieces_drawn(mv) == 1 || state.board.pieces_drawn(mv) == 2
            &&& state.board.pieces_drawn(mv) == 2 <==> mv.piece() != state.board.queue[0]
                && state.board.hold is None && state.board.queue.len() >= 2
            &&& next.board.field == clear_lines(filled)
            &&& next.board.combo == if full_lines(filled) > 0 {
                state.board.combo + 1
            } else {
                0
            }
            &&& next.board == state.board.confirmed(mv)
        }),
{
}

/// A reset in clear-sequence mode leaves the coordinator in general mode
/// with no work unit out, and a result of the clear-sequence strategy that
/// comes in afterwards changes nothing.
pub proof fn lemma_reset_ends_pc_loop(
    state: BotView,
    field: [[bool; 10]; 40],
    b2b: bool,
    combo: u32,
    plan_kept: bool,
)
    requires
        state.kind is PcLoop,
    ensures
        ({
            let next = state.after_message(BotMsg::Reset { field, b2b, combo }, plan_kept);
            &&& next.kind is Normal
            &&& next.outstanding == 0
            &&& next.after_result(ModeKind::PcLoop) == next
        }),
{
}

/// A reset leaves the coordinator in general mode, whatever the mode
/// before.
pub proof fn lemma_reset_leaves_normal(
    state: BotView,
    field: [[bool; 10]; 40],
    b2b: bool,
    combo: u32,
    plan_kept: bool,
)
    ensures
        state.after_message(BotMsg::Reset { field, b2b, combo }, plan_kept).kind is Normal,
{
}

/// The eligibility predicate depends on nothing but whether the top row is
/// empty and how many pieces are known: two snapshots that agree in both
/// get the same answer.
pub proof fn lemma_eligibility_is_determined(a: BoardView, b: BoardView, hold_enabled: bool)
    requires
        a.top_row_empty() == b.top_row_empty(),
        pieces_known(a.queue.len(), a.hold is Some, hold_enabled) == pieces_known(
            b.queue.len(),
            b.hold is Some,
            hold_enabled,
        ),
    ensures
        can_pc_loop_spec(a, hold_enabled) == can_pc_loop_spec(b, hold_enabled),
{
}

/// With a filled cell in the top row no number of known pieces makes a
/// snapshot eligible.
pub proof fn lemma_filled_top_row_is_never_eligible(queue_len: nat, holding: bool, hold_enabled: bool)
    ensures
        !eligible(false, queue_len, holding, hold_enabled),
{
}

/// With an empty top row a snapshot is eligible exactly from ten known
/// pieces on, and from eleven where holding is enabled, the held piece
/// counting as one.
pub proof fn lemma_eligibility_threshold(queue_len: nat, holding: bool, hold_enabled: bool)
    ensures
        !hold_enabled ==> (eligible(true, queue_len, holding, hold_enabled) <==> queue_len >= 10),
        hold_enabled && holding ==> (eligible(true, queue_len, holding, hold_enabled) <==> queue_len
            >= 10),
        hold_enabled && !holding ==> (eligible(true, queue_len, holding, hold_enabled)
            <==> queue_len >= 11),
{
}

/// A run of calls of `think` with nothing in between: the call on
/// `states[i]` hands out `emitted[i]` work units, a move if
/// `delivered[i]`, and leaves `states[i + 1]`.
pub open spec fn think_run(states: Seq<BotView>, emitted: Seq<nat>, delivered: Seq<bool>) -> bool {
    &&& states.len() == emitted.len() + 1
    &&& delivered.len() == emitted.len()
    &&& forall|i: int|
        0 <= i < emitted.len() ==> (#[trigger] states[i]).think_outcome(
            states[i + 1],
            emitted[i],
            delivered[i],
        )
}

/// How many work units the first `n` calls of a run hand out.
pub open spec fn units_sent(emitted: Seq<nat>, n: int) -> nat
    decreases n,
{
    if n <= 0 {
        0
    } else {
        units_sent(emitted, n - 1) + emitted[n - 1]
    }
}

/// Admission control. Over a run of calls of `think` with no result coming
/// in between, the number of work units of the general strategy that are
/// out never exceeds the ceiling of the settings, provided that it did not
/// at the start and that the ceiling is at least one.
pub proof fn lemma_admission_control(states: Seq<BotView>, emitted: Seq<nat>, delivered: Seq<bool>)
    requires
        think_run(states, emitted, delivered),
        states[0].outstanding <= states[0].options.threads,
        states[0].options.threads >= 1,
    ensures
        forall|i: int|
            0 <= i < states.len() ==> (#[trigger] states[i]).outstanding
                <= states[0].options.threads,
        forall|i: int| 0 <= i < states.len() ==> (#[trigger] states[i]).options == states[0].options,
    decreases states.len(),
{
    if emitted.len() > 0 {
        let n = emitted.len() as int;
        lemma_admission_control(states.drop_last(), emitted.drop_last(), delivered.drop_last());
        assert(states.drop_last()[n - 1] == states[n - 1]);
        assert forall|i: int| 0 <= i < states.len() implies (#[trigger] states[i]).outstanding
            <= states[0].options.threads && states[i].options == states[0].options by {
            if i < n {
                assert(states.drop_last()[i] == states[i]);
            }
        }
    }
}

/// While the general strategy stays active and no result comes in, the
/// count of work units that are out is the count at the start plus all that
/// the calls of `think` have handed out since.
pub proof fn lemma_outstanding_counts_units(
    states: Seq<BotView>,
    emitted: Seq<nat>,
    delivered: Seq<bool>,
)
    requires
        think_run(states, emitted, delivered),
        states[0].kind is Normal,
    ensures
        forall|i: int| 0 <= i < states.len() ==> (#[trigger] states[i]).kind is Normal,
        forall|i: int|
            0 <= i < states.len() ==> (#[trigger] states[i]).outstanding == states[0].outstanding
                + units_sent(emitted, i),
    decreases states.len(),
{
    if emitted.len() > 0 {
        let n = emitted.len() as int;
        lemma_outstanding_counts_units(states.drop_last(), emitted.drop_last(), delivered.drop_last());
        assert(states.drop_last()[n - 1] == states[n - 1]);
        assert forall|i: int| 0 <= i < states.len() implies (#[trigger] states[i]).kind is Normal
            && states[i].outstanding == states[0].outstanding + units_sent(emitted, i) by {
            if i < n {
                assert(states.drop_last()[i] == states[i]);
                lemma_units_sent_of_prefix(emitted, i);
            } else {
                lemma_units_sent_of_prefix(emitted, n - 1);
            }
        }
    }
}

/// The units that the first `n` calls hand out do not depend on the calls
/// after them.
pub proof fn lemma_units_sent_of_prefix(emitted: Seq<nat>, n: int)
    requires
        n < emitted.len(),
    ensures
        units_sent(emitted.drop_last(), n) == units_sent(emitted, n),
    decreases n,
{
    if n > 0 {
        lemma_units_sent_of_prefix(emitted, n - 1);
    }
}

/// A coordinator starts within the ceiling.
pub proof fn lemma_ceiling_at_start(board: BoardView, options: Options)
    ensures
        BotView::initial(board, options).within_ceiling(),
{
}

/// No message takes a coordinator out of the ceiling, whatever the active
/// strategy answers.
pub proof fn lemma_ceiling_after_message(state: BotView, msg: BotMsg, plan_kept: bool)
    requires
        state.within_ceiling(),
    ensures
        state.after_message(msg, plan_kept).within_ceiling(),
{
}

/// No call of `think` takes a coordinator out of the ceiling.
pub proof fn lemma_ceiling_after_think(state: BotView, next: BotView, emitted: nat, delivered: bool)
    requires
        state.within_ceiling(),
        state.think_outcome(next, emitted, delivered),
    ensures
        next.within_ceiling(),
{
}

/// No result takes a coordinator out of the ceiling.
pub proof fn lemma_ceiling_after_result(state: BotView, tag: ModeKind)
    requires
        state.within_ceiling(),
    ensures
        state.after_result(tag).within_ceiling(),
{
}

/// The snapshot follows the messages and nothing else: what a message does
/// to it depends neither on the active strategy nor on what that strategy
/// answers, and neither a call of `think` nor a result touches it.
pub proof fn lemma_snapshot_follows_messages(
    state: BotView,
    msg: BotMsg,
    plan_kept: bool,
    next: BotView,
    emitted: nat,
    delivered: bool,
    tag: ModeKind,
)
    ensures
        state.after_message(msg, plan_kept).board == snapshot_after(state.board, msg),
        state.think_outcome(next, emitted, delivered) ==> next.board == state.board,
        state.after_result(tag).board == state.board,
{
}

/// A result whose tag is not that of the active strategy changes nothing,
/// however often it comes in; and no result, stale or not, touches the
/// snapshot, the open request for a move, the settings or the mode.
pub proof fn lemma_stale_result_is_dropped(state: BotView, tag: ModeKind)
    ensures
        tag != state.kind ==> state.after_result(tag) == state,
        tag != state.kind ==> state.after_result(tag).after_result(tag) == state,
        state.after_result(tag).board == state.board,
        state.after_result(tag).pending == state.pending,
        state.after_result(tag).options == state.options,
        state.after_result(tag).kind == state.kind,
{
}

/// A result that was cut out under one strategy and comes in after a
/// message has switched to the other changes nothing.
pub proof fn lemma_result_after_switch_is_dropped(state: BotView, msg: BotMsg, plan_kept: bool)
    ensures
        ({
            let next = state.after_message(msg, plan_kept);
            next.kind != state.kind ==> next.after_result(state.kind) == next
        }),
{
}

/// Failover. Where a call of `think` leaves the clear-sequence mode, a
/// move had been asked for and is still asked for afterwards, the general
/// strategy is active, and the batch is the unit that seeds it, if it had
/// one: at most one unit, and as many as are then out.
pub proof fn lemma_failover_keeps_request(state: BotView, next: BotView, emitted: nat, delivered: bool)
    requires
        state.think_outcome(next, emitted, delivered),
        state.kind is PcLoop,
        next.kind is Normal,
    ensures
        state.pending is Some,
        next.pending == state.pending,
        !delivered,
        emitted <= 1,
        next.outstanding == emitted,
        next.board == state.board,
{
}

} // verus!
