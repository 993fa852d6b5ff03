use vstd::prelude::*;

verus! {

/// Append-only history of per-generation statistics, in generation order:
/// entry `i` belongs to the generation that completed `i`-th.
pub struct StatisticsLog<S> {
    entries: Vec<S>,
}

impl<S> View for StatisticsLog<S> {
    type V = Seq<S>;

    closed spec fn view(&self) -> Seq<S> {
        self.entries@
    }
}

impl<S> StatisticsLog<S> {
    /// An empty log.
    pub fn new() -> (log: Self)
        ensures
            log@ == Seq::<S>::empty(),
    {
        StatisticsLog { entries: Vec::new() }
    }

    /// Number of generations recorded so far.
    pub fn len(&self) -> (n: usize)
        ensures
            n as int == self@.len(),
    {
        self.entries.len()
    }

    /// Whether no generation has been recorded yet.
    pub fn is_empty(&self) -> (b: bool)
        ensures
            b == (self@.len() == 0),
    {
        self.entries.len() == 0
    }

    /// Appends the statistics of the generation that just completed; earlier
    /// entries are left as they are.
    pub fn append(&mut self, stats: S)
        ensures
            final(self)@ == old(self)@.push(stats),
    {
        self.entries.push(stats);
    }

    /// The entry of the `index`-th recorded generation.
    pub fn get(&self, index: usize) -> (r: &S)
        requires
            index < self@.len(),
        ensures
            *r == self@[index as int],
    {
        &self.entries[index]
    }

    /// The most recently recorded entry, if any.
    pub fn latest(&self) -> (r: Option<&S>)
        ensures
            self@.len() == 0 ==> r is None,
            self@.len() > 0 ==> r == Some(&self@.last()),
    {
        let n = self.entries.len();
        if n == 0 {
            None
        } else {
            Some(&self.entries[n - 1])
        }
    }
}

impl<S: Copy> StatisticsLog<S> {
    /// A fresh snapshot of the log as `(index, entry)` pairs, in order, for
    /// plotting; later appends do not change a snapshot already taken.
    pub fn points(&self) -> (r: Vec<(usize, S)>)
        ensures
            r@.len() == self@.len(),
            forall|i: int| 0 <= i < r@.len() ==> #[trigger] r@[i] == (i as usize, self@[i]),
    {
        let mut r: Vec<(usize, S)> = Vec::new();
        let n = self.entries.len();
        let mut i: usize = 0;
        while i < n
            invariant
                n == self@.len(),
                i <= n,
                r@.len() == i,
                forall|j: int| 0 <= j < i ==> #[trigger] r@[j] == (j as usize, self@[j]),
            decreases n - i,
        {
            let e: S = self.entries[i];
            r.push((i, e));
            i = i + 1;
        }
        r
    }
}

} // verus!
