//! The batch of general work that one call of `think` puts together: how
//! often the strategy is asked, and what becomes of each answer.

use vstd::prelude::*;
use crate::strategy::{ClearSearch, GeneralSearch};
use crate::task::{ModeKind, Task};

verus! {

/// The most requests for a unit of work that go to the general strategy for
/// one batch.
pub const BATCH_LIMIT: u32 = 10;

/// A batch in the making.
pub struct Batch<G: GeneralSearch, C: ClearSearch> {
    /// The units gathered so far.
    pub tasks: Vec<Task<G, C>>,
    /// How often the strategy has been asked.
    pub asked: u32,
    /// How many units are out, those of the batch among them.
    pub outstanding: u32,
    /// The most units that may be out.
    pub threads: u32,
    /// The strategy has said that nothing is left to search.
    pub halted: bool,
}

/// What a batch in the making is, mathematically.
pub struct BatchView<G: GeneralSearch, C: ClearSearch> {
    /// The units gathered so far.
    pub tasks: Seq<Task<G, C>>,
    /// How often the strategy has been asked.
    pub asked: nat,
    /// How many units are out, those of the batch among them.
    pub outstanding: nat,
    /// The most units that may be out.
    pub threads: nat,
    /// The strategy has said that nothing is left to search.
    pub halted: bool,
}

impl<G: GeneralSearch, C: ClearSearch> BatchView<G, C> {
    /// The empty batch, to be filled while `outstanding` units are out and
    /// `threads` may be.
    pub open spec fn start(outstanding: nat, threads: nat) -> Self {
        BatchView { tasks: Seq::empty(), asked: 0, outstanding, threads, halted: false }
    }

    /// The strategy is to be asked once more: it has not said that nothing
    /// is left, it has been asked fewer than ten times, and fewer units are
    /// out than may be.
    pub open spec fn wants_more(self) -> bool {
        !self.halted && self.asked < BATCH_LIMIT && self.outstanding < self.threads
    }

    /// The batch after an answer of the strategy. A unit joins the batch
    /// and counts as out; `Err(true)` uses up a request; `Err(false)` ends
    /// the asking.
    pub open spec fn with_answer(self, answer: Result<G::Thinker, bool>) -> Self {
        match answer {
            Ok(thinker) => BatchView {
                tasks: self.tasks.push(Task::NormalThink(thinker)),
                asked: self.asked + 1,
                outstanding: self.outstanding + 1,
                ..self
            },
            Err(true) => BatchView { asked: self.asked + 1, ..self },
            Err(false) => BatchView { halted: true, ..self },
        }
    }

    /// The batch after a run of answers, each taken in as long as the
    /// strategy is to be asked; what comes after that is not looked at.
    pub open spec fn with_answers(self, answers: Seq<Result<G::Thinker, bool>>) -> Self
        decreases answers.len(),
    {
        if answers.len() == 0 || !self.wants_more() {
            self
        } else {
            self.with_answer(answers[0]).with_answers(answers.drop_first())
        }
    }

    /// Every unit of the batch is one of the general strategy.
    pub open spec fn all_general(self) -> bool {
        forall|i: int| 0 <= i < self.tasks.len() ==> (#[trigger] self.tasks[i]).kind() == ModeKind::Normal
    }
}

impl<G: GeneralSearch, C: ClearSearch> View for Batch<G, C> {
    type V = BatchView<G, C>;

    open spec fn view(&self) -> BatchView<G, C> {
        BatchView {
            tasks: self.tasks@,
            asked: self.asked as nat,
            outstanding: self.outstanding as nat,
            threads: self.threads as nat,
            halted: self.halted,
        }
    }
}

impl<G: GeneralSearch, C: ClearSearch> Batch<G, C> {
    /// An empty batch, to be filled while `outstanding` units are out and
    /// `threads` may be.
    pub fn start(outstanding: u32, threads: u32) -> (batch: Self)
        ensures
            batch@ == BatchView::<G, C>::start(outstanding as nat, threads as nat),
    {
        Batch { tasks: Vec::new(), asked: 0, outstanding, threads, halted: false }
    }

    /// Tells whether the strategy is to be asked once more.
    pub fn has_room(&self) -> (more: bool)
        ensures
            more == self@.wants_more(),
    {
        !self.halted && self.asked < BATCH_LIMIT && self.outstanding < self.threads
    }

    /// Takes in an answer of the strategy.
    pub fn take(&mut self, answer: Result<G::Thinker, bool>)
        requires
            old(self)@.wants_more(),
        ensures
            final(self)@ == old(self)@.with_answer(answer),
    {
        match answer {
            Ok(thinker) => {
                self.tasks.push(Task::NormalThink(thinker));
                self.outstanding = self.outstanding + 1;
                self.asked = self.asked + 1;
            },
            Err(true) => {
                self.asked = self.asked + 1;
            },
            Err(false) => {
                self.halted = true;
            },
        }
    }
}

/// An answer never takes a batch beyond the ceiling or the ten requests. It
/// adds one unit at most, never more units than requests, and adds a unit
/// exactly where one more unit counts as out. Units that are in the batch
/// stay in it, and all of them are units of the general strategy.
pub proof fn lemma_batch_step<G: GeneralSearch, C: ClearSearch>(
    batch: BatchView<G, C>,
    answer: Result<G::Thinker, bool>,
)
    requires
        batch.wants_more(),
    ensures
        ({
            let next = batch.with_answer(answer);
            &&& next.threads == batch.threads
            &&& next.outstanding <= batch.threads
            &&& next.asked <= BATCH_LIMIT
            &&& next.tasks.len() - batch.tasks.len() <= next.asked - batch.asked
            &&& next.tasks.len() - batch.tasks.len() == next.outstanding - batch.outstanding
            &&& next.tasks.len() - batch.tasks.len() == if answer is Ok {
                1int
            } else {
                0int
            }
            &&& next.tasks.take(batch.tasks.len() as int) == batch.tasks
            &&& batch.all_general() ==> next.all_general()
        }),
{
    let next = batch.with_answer(answer);
    assert(next.tasks.take(batch.tasks.len() as int) =~= batch.tasks);
}

/// Whatever the strategy answers, and however often: a batch that starts
/// empty holds ten units at most, all of the general strategy, and as many
/// as have come to be out on top of those that were; and where it holds
/// any, the units that are out do not exceed the ceiling.
pub proof fn lemma_batch_respects_ceiling<G: GeneralSearch, C: ClearSearch>(
    outstanding: nat,
    threads: nat,
    answers: Seq<Result<G::Thinker, bool>>,
)
    ensures
        ({
            let batch = BatchView::<G, C>::start(outstanding, threads).with_answers(answers);
            &&& batch.threads == threads
            &&& batch.tasks.len() <= BATCH_LIMIT
            &&& batch.outstanding == outstanding + batch.tasks.len()
            &&& batch.tasks.len() > 0 ==> batch.outstanding <= threads
            &&& outstanding >= threads ==> batch.tasks.len() == 0
            &&& batch.all_general()
        }),
{
    lemma_batch_run(BatchView::<G, C>::start(outstanding, threads), outstanding, answers);
}

/// What a run of answers keeps of a batch: the requests are ten at most,
/// the units are no more than the requests, every unit counts as out and is
/// one of the general strategy, and no unit goes out beyond the ceiling.
pub proof fn lemma_batch_run<G: GeneralSearch, C: ClearSearch>(
    batch: BatchView<G, C>,
    outstanding: nat,
    answers: Seq<Result<G::Thinker, bool>>,
)
    requires
        batch.asked <= BATCH_LIMIT,
        batch.tasks.len() <= batch.asked,
        batch.outstanding == outstanding + batch.tasks.len(),
        batch.tasks.len() > 0 ==> batch.outstanding <= batch.threads,
        batch.all_general(),
    ensures
        ({
            let next = batch.with_answers(answers);
            &&& next.threads == batch.threads
            &&& next.asked <= BATCH_LIMIT
            &&& next.tasks.len() <= next.asked
            &&& next.outstanding == outstanding + next.tasks.len()
            &&& next.tasks.len() > 0 ==> next.outstanding <= next.threads
            &&& batch.tasks.len() == 0 && outstanding >= batch.threads ==> next.tasks.len() == 0
            &&& next.all_general()
        }),
    decreases answers.len(),
{
    if answers.len() > 0 && batch.wants_more() {
        lemma_batch_step(batch, answers[0]);
        lemma_batch_run(batch.with_answer(answers[0]), outstanding, answers.drop_first());
    }
}

} // verus!
