use vstd::prelude::*;

use crate::stats_log::StatisticsLog;

verus! {

/// Bookkeeping of the simulation driver: the generation counter and the log of
/// per-generation statistics, which always advance together. The counter
/// starts at 1 and is always one more than the number of recorded
/// generations.
pub struct GenerationTracker<S> {
    generation: usize,
    log: StatisticsLog<S>,
}

impl<S> GenerationTracker<S> {
    /// Well-formedness: the counter is one more than the number of recorded
    /// generations.
    pub closed spec fn wf(&self) -> bool {
        self.generation == 1 + self.log@.len()
    }

    /// The generation counter as a number.
    pub closed spec fn counter(&self) -> nat {
        self.generation as nat
    }

    /// The statistics recorded so far, one per completed generation.
    pub closed spec fn history(&self) -> Seq<S> {
        self.log@
    }

    /// The starting state: generation 1, nothing recorded.
    pub fn new() -> (t: Self)
        ensures
            t.counter() == 1,
            t.history() == Seq::<S>::empty(),
            t.wf(),
    {
        GenerationTracker { generation: 1, log: StatisticsLog::new() }
    }

    /// The current generation counter, which is always one more than the
    /// number of recorded generations.
    pub fn generation(&self) -> (g: usize)
        requires
            self.wf(),
        ensures
            g as nat == self.counter(),
            g as nat == 1 + self.history().len(),
    {
        self.generation
    }

    /// The log of completed generations.
    pub fn log(&self) -> (l: &StatisticsLog<S>)
        ensures
            l@ == self.history(),
    {
        &self.log
    }

    /// Takes the outcome of one simulation step. `Some(stats)` marks a
    /// completed generation: the counter goes up by one and `stats` is
    /// appended to the log, both in this one call. `None` changes nothing.
    /// Returns whether a generation was completed. The log thus never loses
    /// or changes an entry and grows by exactly zero or one per call.
    pub fn record(&mut self, outcome: Option<S>) -> (completed: bool)
        requires
            old(self).wf(),
            outcome is Some ==> old(self).counter() < usize::MAX,
        ensures
            completed == outcome is Some,
            final(self).history() == match outcome {
                Some(stats) => old(self).history().push(stats),
                None => old(self).history(),
            },
            final(self).counter() == old(self).counter() + if completed { 1nat } else { 0nat },
            final(self).wf(),
            final(self).history().len() == old(self).history().len() + if completed {
                1int
            } else {
                0int
            },
            old(self).history() == final(self).history().subrange(
                0,
                old(self).history().len() as int,
            ),
    {
        match outcome {
            Some(stats) => {
                self.log.append(stats);
                self.generation = self.generation + 1;
                assert(old(self).history() =~= self.history().subrange(
                    0,
                    old(self).history().len() as int,
                ));
                true
            },
            None => {
                assert(self.history() =~= self.history().subrange(0, self.history().len() as int));
                false
            },
        }
    }
}

/// At every point after construction the generation counter equals one plus
/// the number of recorded generations.
pub proof fn lemma_counter_is_one_plus_log_len<S>(t: &GenerationTracker<S>)
    requires
        t.wf(),
    ensures
        t.counter() == 1 + t.history().len(),
{
}

} // verus!
