//! Work units and their results: one variant of each per strategy.

use vstd::prelude::*;
use crate::solution::Solution;
use crate::strategy::{ClearSearch, GeneralSearch};

verus! {

/// The two modes of the coordinator, which are also the two tags of work
/// units and of their results.
#[derive(Clone, Copy, Debug, PartialEq, Eq, Hash, Structural)]
pub enum ModeKind {
    /// The general strategy.
    Normal,
    /// The clear-sequence strategy.
    PcLoop,
}

/// A detachable unit of work. It carries all that is needed to run it.
pub enum Task<G: GeneralSearch, C: ClearSearch> {
    /// A unit of the general search.
    NormalThink(G::Thinker),
    /// A unit of the clear-sequence solver.
    PcLoopSolve(C::Solver),
}

/// What running a unit of work has yielded.
pub enum TaskResult<G: GeneralSearch> {
    /// The yield of a unit of the general search.
    NormalThink(G::ThinkResult),
    /// The clear sequence that the solver found, if it found one.
    PcLoopSolve(Option<Solution>),
}

impl<G: GeneralSearch, C: ClearSearch> Task<G, C> {
    /// The strategy that the unit belongs to.
    pub open spec fn kind(self) -> ModeKind {
        match self {
            Task::NormalThink(_) => ModeKind::Normal,
            Task::PcLoopSolve(_) => ModeKind::PcLoop,
        }
    }

    /// The strategy that the unit belongs to.
    pub fn tag(&self) -> (k: ModeKind)
        ensures
            k == self.kind(),
    {
        match self {
            Task::NormalThink(_) => ModeKind::Normal,
            Task::PcLoopSolve(_) => ModeKind::PcLoop,
        }
    }

    /// Runs the unit. The result is of the variant of the unit, whatever
    /// the strategy computes.
    pub fn execute(self, eval: &G::Evaluator) -> (result: TaskResult<G>)
        ensures
            result.kind() == self.kind(),
    {
        match self {
            Task::NormalThink(thinker) => TaskResult::NormalThink(G::run(thinker, eval)),
            Task::PcLoopSolve(solver) => TaskResult::PcLoopSolve(C::solve(&solver)),
        }
    }

    /// The batch that goes out when the general strategy has just taken
    /// over: the one unit that the fresh search was asked for, where it had
    /// one.
    pub fn seed(first: Result<G::Thinker, bool>) -> (tasks: Vec<Task<G, C>>)
        ensures
            first matches Ok(thinker) ==> tasks@ == seq![Task::<G, C>::NormalThink(thinker)],
            first is Err ==> tasks@ == Seq::<Task<G, C>>::empty(),
    {
        let mut tasks: Vec<Task<G, C>> = Vec::new();
        if let Ok(thinker) = first {
            tasks.push(Task::NormalThink(thinker));
        }
        tasks
    }

    /// The batch that goes out in clear-sequence mode: the unit that the
    /// solver handed out, where it had one.
    pub fn solving(work: Option<C::Solver>) -> (tasks: Vec<Task<G, C>>)
        ensures
            work matches Some(solver) ==> tasks@ == seq![Task::<G, C>::PcLoopSolve(solver)],
            work is None ==> tasks@ == Seq::<Task<G, C>>::empty(),
    {
        let mut tasks: Vec<Task<G, C>> = Vec::new();
        if let Some(solver) = work {
            tasks.push(Task::PcLoopSolve(solver));
        }
        tasks
    }
}

impl<G: GeneralSearch> TaskResult<G> {
    /// The strategy that the result belongs to.
    pub open spec fn kind(self) -> ModeKind {
        match self {
            TaskResult::NormalThink(_) => ModeKind::Normal,
            TaskResult::PcLoopSolve(_) => ModeKind::PcLoop,
        }
    }

    /// The strategy that the result belongs to.
    pub fn tag(&self) -> (k: ModeKind)
        ensures
            k == self.kind(),
    {
        match self {
            TaskResult::NormalThink(_) => ModeKind::Normal,
            TaskResult::PcLoopSolve(_) => ModeKind::PcLoop,
        }
    }
}

} // verus!
