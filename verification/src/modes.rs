//! The coordinator: one snapshot, one active strategy, and the rules by
//! which messages, work and results move it.

use vstd::prelude::*;
use crate::batch::{lemma_batch_step, Batch, BATCH_LIMIT};
use crate::board::{Board, BoardView};
use crate::eligibility::{enters_pc_loop, wants_pc_loop};
use crate::protocol::{BotMsg, Move, MoveInfo, Options, Reply};
use crate::strategy::{ClearSearch, GeneralSearch};
use crate::task::{ModeKind, Task, TaskResult};

verus! {

/// The active strategy.
enum Mode<G: GeneralSearch, C: ClearSearch> {
    Normal(G),
    PcLoop(C),
}

/// The coordinator.
pub struct ModeSwitchedBot<'a, G: GeneralSearch, C: ClearSearch> {
    mode: Mode<G, C>,
    options: Options,
    board: Board,
    do_move: Option<u32>,
    book: Option<&'a G::Book>,
    outstanding_thinks: u32,
}

/// What the coordinator keeps account of itself: all of its state but the
/// inside of the active strategy.
pub struct BotView {
    /// The snapshot.
    pub board: BoardView,
    /// The settings.
    pub options: Options,
    /// Which strategy is active.
    pub kind: ModeKind,
    /// The turn for which a move has been asked and not yet given.
    pub pending: Option<u32>,
    /// How many work units of the active general strategy are out.
    pub outstanding: nat,
}

/// The snapshot after a message: a reset overwrites the field and the
/// streak counters, a new piece joins the queue, a confirmed placement is
/// drawn and committed, and the other messages leave it alone.
pub open spec fn snapshot_after(board: BoardView, msg: BotMsg) -> BoardView {
    match msg {
        BotMsg::Reset { field, b2b, combo } => board.reset(field, b2b, combo),
        BotMsg::NewPiece(piece) => board.with_next_piece(piece),
        BotMsg::PlayMove(mv) => board.confirmed(mv),
        _ => board,
    }
}

impl BotView {
    /// Where a coordinator starts.
    pub open spec fn initial(board: BoardView, options: Options) -> BotView {
        BotView {
            board,
            options,
            kind: if enters_pc_loop(board, options) {
                ModeKind::PcLoop
            } else {
                ModeKind::Normal
            },
            pending: None,
            outstanding: 0,
        }
    }

    /// The messages that can be handled in this state. A confirmed
    /// placement needs a piece in the queue, cells inside the field and a
    /// combo counter that can still grow.
    pub open spec fn accepts(self, msg: BotMsg) -> bool {
        msg matches BotMsg::PlayMove(mv) ==> self.board.queue.len() > 0 && mv.in_field()
            && self.board.combo < u32::MAX
    }

    /// The state with a strategy of the given kind freshly started.
    pub open spec fn restarted(self, kind: ModeKind) -> BotView {
        BotView { kind, outstanding: 0, ..self }
    }

    /// The state after the general strategy, being active, has looked at a
    /// changed snapshot: it gives way to the clear-sequence strategy where
    /// that one is switched on and the snapshot is eligible.
    pub open spec fn reconsidered(self) -> BotView {
        if self.kind is Normal && enters_pc_loop(self.board, self.options) {
            self.restarted(ModeKind::PcLoop)
        } else {
            self
        }
    }

    /// The state after a message. `plan_kept` is the answer of the
    /// clear-sequence strategy to a confirmed placement, and matters for
    /// nothing else.
    pub open spec fn after_message(self, msg: BotMsg, plan_kept: bool) -> BotView {
        match msg {
            BotMsg::Reset { field, b2b, combo } => {
                let moved = BotView { board: self.board.reset(field, b2b, combo), ..self };
                if self.kind is PcLoop {
                    moved.restarted(ModeKind::Normal)
                } else {
                    moved
                }
            },
            BotMsg::NewPiece(piece) => (BotView {
                board: self.board.with_next_piece(piece),
                ..self
            }).reconsidered(),
            BotMsg::SuggestMove(incoming) => BotView { pending: Some(incoming), ..self },
            BotMsg::PlayMove(mv) => {
                let moved = BotView { board: self.board.confirmed(mv), ..self };
                if self.kind is PcLoop && !plan_kept {
                    moved.restarted(ModeKind::Normal)
                } else {
                    moved.reconsidered()
                }
            },
            BotMsg::ForceAnalysisLine(_) => self,
        }
    }

    /// The message is a confirmed placement that reaches the clear-sequence
    /// strategy: the one case in which a strategy's answer decides the next
    /// mode.
    pub open spec fn asks_plan(self, msg: BotMsg) -> bool {
        self.kind is PcLoop && msg is PlayMove
    }

    /// The state after a result of the given tag has come in. A result of
    /// the other strategy changes nothing; one of the general strategy,
    /// while it is active, takes a work unit off the count.
    pub open spec fn after_result(self, tag: ModeKind) -> BotView {
        if self.kind is Normal && tag is Normal && self.outstanding > 0 {
            BotView { outstanding: (self.outstanding - 1) as nat, ..self }
        } else {
            self
        }
    }

    /// What one call of `think` can do to the state, where it hands out
    /// `emitted` work units and, if `delivered`, a move.
    pub open spec fn think_outcome(self, next: BotView, emitted: nat, delivered: bool) -> bool {
        &&& next.board == self.board
        &&& next.options == self.options
        &&& delivered ==> self.pending is Some
        &&& next.pending == if delivered {
            None
        } else {
            self.pending
        }
        &&& match self.kind {
            ModeKind::Normal => {
                &&& next.kind is Normal
                &&& emitted <= BATCH_LIMIT
                &&& next.outstanding == self.outstanding + emitted
                &&& emitted > 0 ==> next.outstanding <= self.options.threads
            },
            ModeKind::PcLoop => match next.kind {
                ModeKind::PcLoop => {
                    &&& emitted <= 1
                    &&& next.outstanding == self.outstanding
                },
                ModeKind::Normal => {
                    &&& self.pending is Some
                    &&& !delivered
                    &&& emitted <= 1
                    &&& next.outstanding == emitted
                },
            },
        }
    }

    /// A call of `think` asks no strategy in this state: the general
    /// strategy is active, no move is asked for, and as many work units are
    /// out as may be.
    pub open spec fn asks_nobody(self) -> bool {
        self.kind is Normal && self.pending is None && self.outstanding >= self.options.threads
    }

    /// The count of work units that are out respects the ceiling of the
    /// settings. The one unit that seeds a general strategy which has just
    /// taken over from a failed clear-sequence strategy goes out whatever
    /// the ceiling, so that the bound is never less than one.
    pub open spec fn within_ceiling(self) -> bool {
        self.outstanding <= self.options.threads || self.outstanding <= 1
    }
}

impl<'a, G: GeneralSearch, C: ClearSearch> View for ModeSwitchedBot<'a, G, C> {
    type V = BotView;

    closed spec fn view(&self) -> BotView {
        BotView {
            board: self.board@,
            options: self.options,
            kind: match self.mode {
                Mode::Normal(_) => ModeKind::Normal,
                Mode::PcLoop(_) => ModeKind::PcLoop,
            },
            pending: self.do_move,
            outstanding: self.outstanding_thinks as nat,
        }
    }
}

impl<'a, G: GeneralSearch, C: ClearSearch> ModeSwitchedBot<'a, G, C> {
    /// A coordinator for the snapshot. It starts with the clear-sequence
    /// strategy where that one is switched on and the snapshot is eligible,
    /// and with the general strategy otherwise.
    pub fn new(board: Board, options: Options, book: Option<&'a G::Book>) -> (bot: Self)
        ensures
            bot@ == BotView::initial(board@, options),
    {
        let mode = if wants_pc_loop(&board, &options) {
            Mode::PcLoop(
                C::new(board.clone(), options.use_hold, options.mode, options.pcloop.unwrap()),
            )
        } else {
            Mode::Normal(G::new(board.clone(), options))
        };
        ModeSwitchedBot { mode, options, board, do_move: None, book, outstanding_thinks: 0 }
    }

    /// Takes a result back. It reaches the active strategy if it carries
    /// that strategy's tag; otherwise it is dropped and nothing changes.
    pub fn task_complete(&mut self, result: TaskResult<G>)
        ensures
            final(self)@ == old(self)@.after_result(result.kind()),
            result.kind() != old(self)@.kind ==> *final(self) == *old(self),
    {
        match &mut self.mode {
            Mode::Normal(bot) => match result {
                TaskResult::NormalThink(result) => {
                    bot.finish_thinking(result);
                    if self.outstanding_thinks > 0 {
                        self.outstanding_thinks = self.outstanding_thinks - 1;
                    }
                },
                _ => {},
            },
            Mode::PcLoop(bot) => match result {
                TaskResult::PcLoopSolve(result) => bot.solution(result),
                _ => {},
            },
        }
    }

    /// The snapshot.
    pub fn board(&self) -> (board: &Board)
        ensures
            board@ == self@.board,
    {
        &self.board
    }

    /// The settings.
    pub fn options(&self) -> (options: Options)
        ensures
            options == self@.options,
    {
        self.options
    }

    /// Which strategy is active.
    pub fn mode(&self) -> (kind: ModeKind)
        ensures
            kind == self@.kind,
    {
        match &self.mode {
            Mode::Normal(_) => ModeKind::Normal,
            Mode::PcLoop(_) => ModeKind::PcLoop,
        }
    }

    /// The turn for which a move has been asked and not yet given.
    pub fn pending_move(&self) -> (incoming: Option<u32>)
        ensures
            incoming == self@.pending,
    {
        self.do_move
    }

    /// How many work units of the active general strategy are out.
    pub fn outstanding_thinks(&self) -> (count: u32)
        ensures
            count == self@.outstanding,
    {
        self.outstanding_thinks
    }

    /// Tells whether the message can be handled in the present state.
    pub fn accepts(&self, msg: &BotMsg) -> (ok: bool)
        ensures
            ok == self@.accepts(*msg),
    {
        match msg {
            BotMsg::PlayMove(mv) => self.board.queue_len() > 0 && mv.fits() && self.board.combo
                < u32::MAX,
            _ => true,
        }
    }

    /// Handles one message.
    ///
    /// A reset overwrites the field and the streak counters, and ends the
    /// clear-sequence mode. A new piece joins the queue. A request for a
    /// move is noted. A confirmed placement takes its piece off the queue,
    /// swapping the hold slot where the placement is not of the piece at the
    /// head, and is committed to the field. After a new piece or a
    /// placement the general strategy gives way to the clear-sequence
    /// strategy where the snapshot has become eligible; the clear-sequence
    /// strategy gives way to a fresh general strategy where the placement
    /// was not the next step of its plan.
    pub fn message(&mut self, msg: BotMsg)
        requires
            old(self)@.accepts(msg),
        ensures
            ({
                let before = old(self)@;
                let after = final(self)@;
                &&& after == before.after_message(msg, true) || after == before.after_message(
                    msg,
                    false,
                )
                &&& !before.asks_plan(msg) ==> after == before.after_message(msg, true)
            }),
    {
        match msg {
            BotMsg::Reset { field, b2b, combo } => {
                self.board.set_field(field);
                self.board.b2b_bonus = b2b;
                self.board.combo = combo;
                match &mut self.mode {
                    Mode::Normal(bot) => bot.reset(field, b2b, combo),
                    Mode::PcLoop(_) => {
                        self.start_normal();
                    },
                }
            },
            BotMsg::NewPiece(piece) => {
                self.board.add_next_piece(piece);
                match &mut self.mode {
                    Mode::Normal(bot) => {
                        if wants_pc_loop(&self.board, &self.options) {
                            self.start_pc_loop();
                        } else {
                            bot.add_next_piece(piece);
                        }
                    },
                    Mode::PcLoop(bot) => bot.add_next_piece(piece),
                }
            },
            BotMsg::SuggestMove(incoming) => {
                self.do_move = Some(incoming);
            },
            BotMsg::PlayMove(mv) => {
                let ghost before = self.board@;
                let next = self.board.advance_queue().unwrap();
                if mv.kind.0 != next {
                    if self.board.hold(next).is_none() {
                        self.board.advance_queue();
                    }
                }
                assert(self.board@.queue =~= before.drawn(mv).queue);
                self.board.lock_piece(mv);
                match &mut self.mode {
                    Mode::Normal(bot) => {
                        if wants_pc_loop(&self.board, &self.options) {
                            self.start_pc_loop();
                        } else {
                            bot.advance_move(mv);
                        }
                    },
                    Mode::PcLoop(bot) => {
                        if !bot.play_move(mv) {
                            self.start_normal();
                        }
                    },
                }
            },
            BotMsg::ForceAnalysisLine(path) => match &mut self.mode {
                Mode::Normal(bot) => bot.force_analysis_line(path),
                _ => {},
            },
        }
    }

    /// Replaces the active strategy by a fresh general strategy on the
    /// present snapshot; none of its work units is out yet.
    fn start_normal(&mut self)
        ensures
            final(self)@ == old(self)@.restarted(ModeKind::Normal),
    {
        self.mode = Mode::Normal(G::new(self.board.clone(), self.options));
        self.outstanding_thinks = 0;
    }

    /// Replaces the active strategy by a fresh clear-sequence strategy on
    /// the present snapshot.
    fn start_pc_loop(&mut self)
        requires
            old(self).options.pcloop is Some,
        ensures
            final(self)@ == old(self)@.restarted(ModeKind::PcLoop),
    {
        self.mode = Mode::PcLoop(
            C::new(
                self.board.clone(),
                self.options.use_hold,
                self.options.mode,
                self.options.pcloop.unwrap(),
            ),
        );
        self.outstanding_thinks = 0;
    }

    /// Hands out the next batch of work, and a move where one has been
    /// asked for and the active strategy can give it.
    ///
    /// In general mode the strategy is asked for its move if one is wanted,
    /// and then for units of work up to ten times. The asking ends early
    /// when as many units are out as the settings allow, or when the
    /// strategy says that nothing is left to search. Where no move is wanted
    /// and no unit may go out, the strategy is not asked at all and nothing
    /// changes.
    ///
    /// In clear-sequence mode the strategy is asked for its move if one is
    /// wanted. Where it answers that there is no clear sequence, a fresh
    /// general strategy takes over at once and the batch is the one unit
    /// that it is asked for; the request for a move stays open. Otherwise
    /// the batch is the unit of solver work that the strategy hands out, if
    /// any, and a move that is given comes with the strategy's plan.
    pub fn think(&mut self, eval: &G::Evaluator) -> (out: (
        Vec<Task<G, C>>,
        Option<(Move, MoveInfo<G::Stats>)>,
    ))
        ensures
            old(self)@.think_outcome(final(self)@, out.0@.len(), out.1 is Some),
            forall|i: int| 0 <= i < out.0@.len() ==> (#[trigger] out.0@[i]).kind() == final(self)@.kind,
            old(self)@.asks_nobody() ==> out.0@.len() == 0 && out.1 is None,
            old(self)@.asks_nobody() ==> *final(self) == *old(self),
            old(self)@.kind is PcLoop ==> (out.1 matches Some(given) ==> given.1 is PcLoop),
    {
        match &mut self.mode {
            Mode::Normal(_) => self.think_normal(eval),
            Mode::PcLoop(bot) => {
                let mut suggestion: Option<(Move, MoveInfo<G::Stats>)> = None;
                if self.do_move.is_some() {
                    match Reply::of_clear(bot.suggest_move()) {
                        Reply::Given(mv, info) => {
                            suggestion = Some((mv, info));
                            self.do_move = None;
                        },
                        Reply::Open => {},
                        Reply::GiveUp => {
                            let mut fresh = G::new(self.board.clone(), self.options);
                            let first = fresh.think();
                            self.outstanding_thinks = if first.is_ok() {
                                1
                            } else {
                                0
                            };
                            self.mode = Mode::Normal(fresh);
                            return (Task::seed(first), None);
                        },
                    }
                }
                (Task::solving(bot.think()), suggestion)
            },
        }
    }

    /// The batch and the move of `think` while the general strategy is active.
    fn think_normal(&mut self, eval: &G::Evaluator) -> (out: (
        Vec<Task<G, C>>,
        Option<(Move, MoveInfo<G::Stats>)>,
    ))
        requires
            old(self)@.kind is Normal,
        ensures
            old(self)@.think_outcome(final(self)@, out.0@.len(), out.1 is Some),
            forall|i: int| 0 <= i < out.0@.len() ==> (#[trigger] out.0@[i]).kind() == ModeKind::Normal,
            old(self)@.asks_nobody() ==> out.0@.len() == 0 && out.1 is None,
            old(self)@.asks_nobody() ==> *final(self) == *old(self),
    {
        let mut suggestion: Option<(Move, MoveInfo<G::Stats>)> = None;
        if let Some(incoming) = self.do_move {
            if let Mode::Normal(bot) = &mut self.mode {
                match Reply::of_general(bot.suggest_move(eval, self.book, incoming)) {
                    Reply::Given(mv, info) => {
                        suggestion = Some((mv, info));
                        self.do_move = None;
                    },
                    _ => {},
                }
            }
        }
        let ghost asked_for = self@;
        let ghost entry = *self;
        let mut batch: Batch<G, C> = Batch::start(self.outstanding_thinks, self.options.threads);
        while batch.has_room()
            invariant
                self@ == asked_for,
                batch@.asked == 0 && !batch@.halted ==> *self == entry,
                asked_for.outstanding >= batch@.threads ==> batch@.asked == 0 && !batch@.halted,
                batch@.threads == asked_for.options.threads,
                batch@.asked <= BATCH_LIMIT,
                batch@.tasks.len() <= batch@.asked,
                batch@.outstanding == asked_for.outstanding + batch@.tasks.len(),
                batch@.tasks.len() > 0 ==> batch@.outstanding <= batch@.threads,
                batch@.all_general(),
            decreases
                    if batch@.halted {
                        0
                    } else {
                        1 + BATCH_LIMIT - batch@.asked
                    },
        {
            let answer = self.next_thinker();
            proof {
                lemma_batch_step(batch@, answer);
            }
            batch.take(answer);
        }
        self.outstanding_thinks = batch.outstanding;
        (batch.tasks, suggestion)
    }

    /// Asks the general strategy, where it is active, for a unit of work.
    /// Where it is not, there is nothing to search, and nothing is touched.
    fn next_thinker(&mut self) -> (step: Result<G::Thinker, bool>)
        ensures
            final(self)@ == old(self)@,
            old(self)@.kind is PcLoop ==> step == Err::<G::Thinker, bool>(false) && *final(self)
                == *old(self),
    {
        match &mut self.mode {
            Mode::Normal(bot) => bot.think(),
            Mode::PcLoop(_) => Err(false),
        }
    }

    /// Tells whether the position is lost. Only the general strategy can
    /// say so: in clear-sequence mode the answer is no.
    pub fn is_dead(&self) -> (dead: bool)
        ensures
            self@.kind is PcLoop ==> !dead,
    {
        if let Mode::Normal(bot) = &self.mode {
            bot.is_dead()
        } else {
            false
        }
    }
}

} // verus!
