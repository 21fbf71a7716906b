//! The batch driver: a listing of artwork ids, each with the mark of how its
//! batch stands. One failed batch never stops the others.

use vstd::prelude::*;

verus! {

/// How the batch of one listed artwork stands.
#[derive(Clone, Copy, Debug, PartialEq, Eq, Structural)]
pub enum Mark {
    /// No download was asked for.
    Untouched,
    /// Its batch runs.
    Downloading,
    /// Its batch has ended with success.
    Succeeded,
    /// Its batch has ended with a failure.
    Failed,
}

/// One listed artwork.
#[derive(Clone, Copy, Debug, PartialEq, Eq, Structural)]
pub struct SweepEntry {
    pub id: u64,
    pub mark: Mark,
}

/// The mark that an ended batch leaves.
pub open spec fn mark_of(success: bool) -> Mark {
    if success {
        Mark::Succeeded
    } else {
        Mark::Failed
    }
}

/// The listing after the batch of entry `index` was started: an entry that
/// the listing lacks, or whose batch runs, changes nothing.
pub open spec fn started(entries: Seq<SweepEntry>, index: int) -> Seq<SweepEntry> {
    if 0 <= index < entries.len() && !(entries[index].mark is Downloading) {
        entries.update(index, SweepEntry { id: entries[index].id, mark: Mark::Downloading })
    } else {
        entries
    }
}

/// The listing after the batch of entry `index` ended: an entry that the
/// listing lacks, or whose batch does not run, changes nothing.
pub open spec fn finished(entries: Seq<SweepEntry>, index: int, success: bool) -> Seq<SweepEntry> {
    if 0 <= index < entries.len() && entries[index].mark is Downloading {
        entries.update(index, SweepEntry { id: entries[index].id, mark: mark_of(success) })
    } else {
        entries
    }
}

/// The listing after every batch that did not run was started.
pub open spec fn all_started(entries: Seq<SweepEntry>) -> Seq<SweepEntry> {
    Seq::new(entries.len(), |i: int| SweepEntry { id: entries[i].id, mark: Mark::Downloading })
}

/// The indices below `upto` whose batch does not run, in rising order.
pub open spec fn idle_indices(entries: Seq<SweepEntry>, upto: int) -> Seq<usize>
    decreases upto,
{
    if upto <= 0 {
        Seq::<usize>::empty()
    } else if entries[upto - 1].mark is Downloading {
        idle_indices(entries, upto - 1)
    } else {
        idle_indices(entries, upto - 1).push((upto - 1) as usize)
    }
}

/// The least index from `from` on whose entry is untouched.
pub open spec fn first_untouched(entries: Seq<SweepEntry>, from: int) -> Option<usize>
    decreases entries.len() - from,
{
    if from < 0 || from >= entries.len() {
        None
    } else if entries[from].mark is Untouched {
        Some(from as usize)
    } else {
        first_untouched(entries, from + 1)
    }
}

/// The number of entries below `upto` whose batch has failed.
pub open spec fn failed_among(entries: Seq<SweepEntry>, upto: int) -> nat
    decreases upto,
{
    if upto <= 0 {
        0
    } else if entries[upto - 1].mark is Failed {
        failed_among(entries, upto - 1) + 1
    } else {
        failed_among(entries, upto - 1)
    }
}

/// Whether the batch of some entry runs.
pub open spec fn any_running(entries: Seq<SweepEntry>) -> bool {
    exists|i: int| 0 <= i < entries.len() && #[trigger] entries[i].mark is Downloading
}

/// A listing of artworks that are downloaded batch by batch.
pub struct Sweep {
    entries: Vec<SweepEntry>,
}

impl View for Sweep {
    type V = Seq<SweepEntry>;

    closed spec fn view(&self) -> Seq<SweepEntry> {
        self.entries@
    }
}

impl Sweep {
    /// A listing of `ids`, in their order, not one of them touched.
    pub fn new(ids: &Vec<u64>) -> (s: Sweep)
        ensures
            s@.len() == ids@.len(),
            forall|i: int|
                0 <= i < ids@.len() ==> #[trigger] s@[i] == (SweepEntry {
                    id: ids@[i],
                    mark: Mark::Untouched,
                }),
    {
        let mut entries: Vec<SweepEntry> = Vec::new();
        let mut i: usize = 0;
        while i < ids.len()
            invariant
                i <= ids@.len(),
                entries@.len() == i,
                forall|j: int|
                    0 <= j < i ==> #[trigger] entries@[j] == (SweepEntry {
                        id: ids@[j],
                        mark: Mark::Untouched,
                    }),
            decreases ids@.len() - i,
        {
            entries.push(SweepEntry { id: ids[i], mark: Mark::Untouched });
            i += 1;
        }
        Sweep { entries }
    }

    /// Puts the artwork `id` at the end of the listing, untouched.
    pub fn push(&mut self, id: u64)
        ensures
            final(self)@ == old(self)@.push(SweepEntry { id, mark: Mark::Untouched }),
    {
        self.entries.push(SweepEntry { id, mark: Mark::Untouched });
    }

    /// The number of listed artworks.
    pub fn len(&self) -> (n: usize)
        ensures
            n == self@.len(),
    {
        self.entries.len()
    }

    /// The entry at `index`, if the listing has one.
    pub fn entry(&self, index: usize) -> (e: Option<SweepEntry>)
        ensures
            e == (if index < self@.len() {
                Some(self@[index as int])
            } else {
                None
            }),
    {
        if index < self.entries.len() {
            Some(self.entries[index])
        } else {
            None
        }
    }

    /// Starts the batch of the entry at `index` and returns its id. Where
    /// the listing has no such entry, or its batch runs already, nothing is
    /// started and nothing changes.
    pub fn start(&mut self, index: usize) -> (id: Option<u64>)
        ensures
            final(self)@ == started(old(self)@, index as int),
            id == (if index < old(self)@.len() && !(old(self)@[index as int].mark is Downloading) {
                Some(old(self)@[index as int].id)
            } else {
                None
            }),
    {
        if index >= self.entries.len() {
            return None;
        }
        let e: SweepEntry = self.entries[index];
        match e.mark {
            Mark::Downloading => None,
            _ => {
                self.entries.set(index, SweepEntry { id: e.id, mark: Mark::Downloading });
                Some(e.id)
            },
        }
    }

    /// Sweep-all: starts the batch of every entry whose batch does not run,
    /// and returns the indices of those entries in rising order. Each of
    /// them is to be finished on its own.
    pub fn start_all(&mut self) -> (indices: Vec<usize>)
        ensures
            final(self)@ == all_started(old(self)@),
            indices@ == idle_indices(old(self)@, old(self)@.len() as int),
    {
        let mut indices: Vec<usize> = Vec::new();
        let n: usize = self.entries.len();
        let mut i: usize = 0;
        while i < n
            invariant
                i <= n,
                n == old(self)@.len(),
                self.entries@.len() == n,
                indices@ == idle_indices(old(self)@, i as int),
                forall|j: int|
                    0 <= j < i ==> #[trigger] self.entries@[j] == (SweepEntry {
                        id: old(self)@[j].id,
                        mark: Mark::Downloading,
                    }),
                forall|j: int| i <= j < n ==> #[trigger] self.entries@[j] == old(self)@[j],
            decreases n - i,
        {
            let e: SweepEntry = self.entries[i];
            match e.mark {
                Mark::Downloading => {},
                _ => {
                    indices.push(i);
                    self.entries.set(i, SweepEntry { id: e.id, mark: Mark::Downloading });
                },
            }
            i += 1;
        }
        assert(self@ =~= all_started(old(self)@));
        indices
    }

    /// Sequential mode: the entry whose batch is to be started next, which
    /// is the first untouched one; none while a batch runs.
    pub fn next_in_turn(&self) -> (index: Option<usize>)
        ensures
            index == (if any_running(self@) {
                None
            } else {
                first_untouched(self@, 0)
            }),
    {
        let n: usize = self.entries.len();
        let mut i: usize = 0;
        while i < n
            invariant
                i <= n,
                n == self.entries@.len(),
                forall|j: int| 0 <= j < i ==> !(#[trigger] self.entries@[j].mark is Downloading),
            decreases n - i,
        {
            match self.entries[i].mark {
                Mark::Downloading => {
                    return None;
                },
                _ => {},
            }
            i += 1;
        }
        let mut k: usize = n;
        let mut found: Option<usize> = None;
        while k > 0
            invariant
                k <= n,
                n == self.entries@.len(),
                found == first_untouched(self@, k as int),
            decreases k,
        {
            k -= 1;
            match self.entries[k].mark {
                Mark::Untouched => {
                    found = Some(k);
                },
                _ => {},
            }
        }
        found
    }

    /// Takes note that the batch of the entry at `index` has ended, and
    /// marks the entry with its outcome. The other entries stay as they
    /// are. Where no batch of that entry runs, nothing changes.
    pub fn finish(&mut self, index: usize, success: bool) -> (taken: bool)
        ensures
            final(self)@ == finished(old(self)@, index as int, success),
            taken == (index < old(self)@.len() && old(self)@[index as int].mark is Downloading),
    {
        if index >= self.entries.len() {
            return false;
        }
        let e: SweepEntry = self.entries[index];
        match e.mark {
            Mark::Downloading => {
                let mark: Mark = if success {
                    Mark::Succeeded
                } else {
                    Mark::Failed
                };
                self.entries.set(index, SweepEntry { id: e.id, mark });
                true
            },
            _ => false,
        }
    }

    /// The number of entries whose batch has failed.
    pub fn failures(&self) -> (n: usize)
        ensures
            n == failed_among(self@, self@.len() as int),
    {
        let len: usize = self.entries.len();
        let mut n: usize = 0;
        let mut i: usize = 0;
        while i < len
            invariant
                i <= len,
                len == self.entries@.len(),
                n <= i,
                n == failed_among(self@, i as int),
            decreases len - i,
        {
            match self.entries[i].mark {
                Mark::Failed => {
                    n += 1;
                },
                _ => {},
            }
            i += 1;
        }
        n
    }

    /// Whether no batch runs.
    pub fn is_idle(&self) -> (idle: bool)
        ensures
            idle == !any_running(self@),
    {
        let n: usize = self.entries.len();
        let mut i: usize = 0;
        while i < n
            invariant
                i <= n,
                n == self.entries@.len(),
                forall|j: int| 0 <= j < i ==> !(#[trigger] self.entries@[j].mark is Downloading),
            decreases n - i,
        {
            match self.entries[i].mark {
                Mark::Downloading => {
                    return false;
                },
                _ => {},
            }
            i += 1;
        }
        true
    }
}

/// The listing after the running batches of the entries below `upto` have
/// ended, entry `i` with the outcome `outcomes[i]`.
pub open spec fn finished_each(entries: Seq<SweepEntry>, outcomes: Seq<bool>, upto: int) -> Seq<
    SweepEntry,
>
    decreases upto,
{
    if upto <= 0 {
        entries
    } else {
        finished(finished_each(entries, outcomes, upto - 1), upto - 1, outcomes[upto - 1])
    }
}

/// In a listing of which no batch runs, sweep-all starts one batch for each
/// entry.
pub proof fn lemma_sweep_all_starts_every_entry(entries: Seq<SweepEntry>, upto: int)
    requires
        0 <= upto <= entries.len() <= usize::MAX,
        !any_running(entries),
    ensures
        idle_indices(entries, upto).len() == upto,
        forall|i: int| 0 <= i < upto ==> #[trigger] idle_indices(entries, upto)[i] == i,
    decreases upto,
{
    if upto > 0 {
        lemma_sweep_all_starts_every_entry(entries, upto - 1);
        assert(!(entries[upto - 1].mark is Downloading));
    }
}

/// The end of one batch leaves the other entries as they are, and the ends
/// of two batches may be taken note of in either order.
pub proof fn lemma_batches_end_independently(
    entries: Seq<SweepEntry>,
    i: int,
    a: bool,
    j: int,
    b: bool,
)
    requires
        i != j,
    ensures
        finished(entries, i, a).len() == entries.len(),
        forall|k: int|
            0 <= k < entries.len() && k != i ==> #[trigger] finished(entries, i, a)[k] == entries[k],
        finished(finished(entries, i, a), j, b) == finished(finished(entries, j, b), i, a),
{
    assert(finished(finished(entries, i, a), j, b) =~= finished(finished(entries, j, b), i, a));
}

/// After sweep-all, when each batch has ended, each entry bears the mark of
/// its own batch: failures do not keep the others from their outcome.
pub proof fn lemma_every_entry_gets_its_outcome(entries: Seq<SweepEntry>, outcomes: Seq<bool>)
    requires
        outcomes.len() == entries.len(),
    ensures
        finished_each(all_started(entries), outcomes, entries.len() as int).len() == entries.len(),
        forall|i: int|
            0 <= i < entries.len() ==> #[trigger] finished_each(
                all_started(entries),
                outcomes,
                entries.len() as int,
            )[i] == (SweepEntry { id: entries[i].id, mark: mark_of(outcomes[i]) }),
{
    lemma_finished_prefix(entries, outcomes, entries.len() as int);
}

proof fn lemma_finished_prefix(entries: Seq<SweepEntry>, outcomes: Seq<bool>, upto: int)
    requires
        outcomes.len() == entries.len(),
        0 <= upto <= entries.len(),
    ensures
        finished_each(all_started(entries), outcomes, upto).len() == entries.len(),
        forall|i: int|
            0 <= i < upto ==> #[trigger] finished_each(all_started(entries), outcomes, upto)[i] == (
            SweepEntry { id: entries[i].id, mark: mark_of(outcomes[i]) }),
        forall|i: int|
            upto <= i < entries.len() ==> #[trigger] finished_each(
                all_started(entries),
                outcomes,
                upto,
            )[i] == (SweepEntry { id: entries[i].id, mark: Mark::Downloading }),
    decreases upto,
{
    if upto > 0 {
        lemma_finished_prefix(entries, outcomes, upto - 1);
    }
}

} // verus!
