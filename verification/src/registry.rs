//! The progress registry: for every running transfer, under its id, what has
//! been received so far.

use vstd::prelude::*;
use vstd::string::*;
use std::collections::HashMap;
use vstd::std_specs::iter::IteratorSpec;

verus! {

broadcast use vstd::std_specs::hash::group_hash_axioms;

/// The share of `total` that `bytes` makes, in percent, rounded down; `0`
/// where `total` is `0`.
pub open spec fn percent(bytes: nat, total: nat) -> nat {
    if total == 0 {
        0
    } else {
        bytes * 100 / total
    }
}

/// What the registry shows of one transfer.
pub struct DownloadInfo {
    pub title: String,
    pub progress: u64,
    pub bytes_transferred: u64,
    pub total_bytes: Option<u64>,
}

/// A `DownloadInfo` as plain values.
pub ghost struct Progress {
    pub label: Seq<char>,
    pub bytes_transferred: nat,
    pub total_bytes: Option<nat>,
}

impl Progress {
    /// The percentage shown: `0` until the total is known.
    pub open spec fn percentage(self) -> nat {
        match self.total_bytes {
            Some(t) => percent(self.bytes_transferred, t),
            None => 0,
        }
    }

    /// Not more has been received than the total, where that is known.
    pub open spec fn within_total(self) -> bool {
        match self.total_bytes {
            Some(t) => self.bytes_transferred <= t,
            None => true,
        }
    }

    /// The snapshot of a transfer that has not started to receive.
    pub open spec fn fresh(label: Seq<char>) -> Progress {
        Progress { label, bytes_transferred: 0, total_bytes: None }
    }

    /// Whether `next` may follow `self` for one transfer: the label stays,
    /// the byte count does not fall, a known total stays as it is, and the
    /// count keeps within the total.
    pub open spec fn may_become(self, next: Progress) -> bool {
        &&& next.label == self.label
        &&& self.bytes_transferred <= next.bytes_transferred
        &&& (self.total_bytes is Some ==> next.total_bytes == self.total_bytes)
        &&& next.within_total()
    }
}

impl View for DownloadInfo {
    type V = Progress;

    open spec fn view(&self) -> Progress {
        Progress {
            label: self.title@,
            bytes_transferred: self.bytes_transferred as nat,
            total_bytes: match self.total_bytes {
                Some(t) => Some(t as nat),
                None => None,
            },
        }
    }
}

/// `bytes * 100 / total`, or `0` where `total` is `0`.
pub fn percent_of(bytes: u64, total: u64) -> (p: u64)
    requires
        bytes <= total,
    ensures
        p == percent(bytes as nat, total as nat),
        p <= 100,
{
    if total == 0 {
        0
    } else {
        let wide: u128 = bytes as u128 * 100 / (total as u128);
        assert(bytes as nat * 100 / (total as nat) <= 100) by (nonlinear_arith)
            requires
                bytes <= total,
                total > 0,
        ;
        wide as u64
    }
}

impl DownloadInfo {
    /// The field `progress` is the percentage of the two counters.
    pub open spec fn consistent(&self) -> bool {
        &&& self@.within_total()
        &&& self.progress == self@.percentage()
    }

    /// The snapshot of a transfer that has not started to receive.
    pub fn new(title: String) -> (info: DownloadInfo)
        ensures
            info@ == Progress::fresh(title@),
            info.title == title,
            info.consistent(),
    {
        DownloadInfo { title, progress: 0, bytes_transferred: 0, total_bytes: None }
    }

    /// A copy of this snapshot.
    pub fn duplicate(&self) -> (info: DownloadInfo)
        ensures
            info == *self,
    {
        DownloadInfo {
            title: self.title.clone(),
            progress: self.progress,
            bytes_transferred: self.bytes_transferred,
            total_bytes: self.total_bytes,
        }
    }
}

/// Why the registry refused an operation.
#[derive(Clone, Copy, Debug, PartialEq, Eq, Structural)]
pub enum RegistryError {
    /// An entry with this id is present already.
    Occupied,
    /// No entry with this id is present.
    Missing,
    /// The byte count would fall below the one recorded.
    Regressed,
    /// A total is recorded and the new one differs from it.
    TotalChanged,
    /// The byte count would exceed the total.
    Overrun,
}

/// The running transfers by id. Each transfer writes only the entry under
/// its own id; a reader may look at all of them.
pub struct ProgressRegistry {
    entries: HashMap<u128, DownloadInfo>,
}

impl View for ProgressRegistry {
    type V = Map<u128, Progress>;

    closed spec fn view(&self) -> Map<u128, Progress> {
        Map::new(|id: u128| self.entries@.contains_key(id), |id: u128| self.entries@[id]@)
    }
}

/// The outcome that `update` owes for an entry `cur` (absent: `None`) and the
/// new counters.
pub open spec fn update_verdict(cur: Option<Progress>, bytes: nat, total: Option<nat>) -> Result<
    Progress,
    RegistryError,
> {
    match cur {
        None => Err(RegistryError::Missing),
        Some(p) => if bytes < p.bytes_transferred {
            Err(RegistryError::Regressed)
        } else if p.total_bytes is Some && total != p.total_bytes {
            Err(RegistryError::TotalChanged)
        } else if total is Some && bytes > total->0 {
            Err(RegistryError::Overrun)
        } else {
            Ok(Progress { label: p.label, bytes_transferred: bytes, total_bytes: total })
        },
    }
}

/// The entry under `id`, if there is one.
pub open spec fn lookup(m: Map<u128, Progress>, id: u128) -> Option<Progress> {
    if m.contains_key(id) {
        Some(m[id])
    } else {
        None
    }
}

/// The bits of an identifier that say of what kind it is.
pub const KIND_MASK: u128 = 0x0000_0000_0000_f000_c000_0000_0000_0000;

/// What those bits hold in an identifier that was drawn at random.
pub const RANDOM_KIND: u128 = 0x0000_0000_0000_4000_8000_0000_0000_0000;

/// Draws an identifier at random: `uuid::Uuid::new_v4`, handed out as the
/// number that `Uuid::as_u128` gives. Nothing is claimed of the random bits;
/// the version and variant bits are those that `new_v4` always sets.
#[verifier::external_body]
fn random_id() -> (id: u128)
    ensures
        id & KIND_MASK == RANDOM_KIND,
{
    uuid::Uuid::new_v4().as_u128()
}

/// Every id below `k` is in `s`: then `s` has at least `k` members.
proof fn lemma_initial_segment(s: Set<u128>, k: nat)
    requires
        s.finite(),
        k <= u128::MAX,
        forall|j: u128| j < k ==> s.contains(j),
    ensures
        s.len() >= k,
    decreases k,
{
    if k > 0 {
        let last: u128 = (k - 1) as u128;
        assert(s.contains(last));
        lemma_initial_segment(s.remove(last), (k - 1) as nat);
    }
}

impl ProgressRegistry {
    /// Every entry is consistent: its percentage is that of its counters,
    /// and its byte count keeps within its total.
    pub closed spec fn wf(&self) -> bool {
        forall|id: u128| #[trigger]
            self.entries@.contains_key(id) ==> self.entries@[id].consistent()
    }

    /// In a well-formed registry no entry has received more than its total.
    pub proof fn lemma_within_total(&self)
        requires
            self.wf(),
        ensures
            forall|id: u128| #[trigger] self@.contains_key(id) ==> self@[id].within_total(),
    {
    }

    /// A registry without entries.
    pub fn new() -> (r: ProgressRegistry)
        ensures
            r@ == Map::<u128, Progress>::empty(),
            r.wf(),
    {
        let r = ProgressRegistry { entries: HashMap::new() };
        assert(r@ =~= Map::<u128, Progress>::empty());
        r
    }

    /// The number of running transfers.
    pub fn len(&self) -> (n: usize)
        ensures
            n == self@.dom().len(),
            self@.dom().finite(),
    {
        assert(self@.dom() =~= self.entries@.dom());
        self.entries.len()
    }

    /// Whether no transfer is running.
    pub fn is_empty(&self) -> (b: bool)
        ensures
            b == (self@ == Map::<u128, Progress>::empty()),
    {
        let n: usize = self.len();
        proof {
            if n == 0 {
                assert(self@.dom() =~= Set::<u128>::empty());
                assert(self@ =~= Map::<u128, Progress>::empty());
            } else {
                assert(Map::<u128, Progress>::empty().dom().len() == 0);
            }
        }
        n == 0
    }

    /// Whether a transfer with this id is running.
    pub fn contains(&self, id: u128) -> (b: bool)
        ensures
            b == self@.contains_key(id),
    {
        self.entries.contains_key(&id)
    }

    /// The snapshot of the transfer with this id.
    pub fn get(&self, id: u128) -> (r: Option<DownloadInfo>)
        requires
            self.wf(),
        ensures
            match r {
                Some(info) => lookup(self@, id) == Some(info@) && info.consistent(),
                None => lookup(self@, id) is None,
            },
    {
        match self.entries.get(&id) {
            Some(info) => Some(info.duplicate()),
            None => None,
        }
    }

    /// Enters a transfer that is about to start: nothing received, total
    /// unknown. An id that is present already is refused and nothing changes.
    pub fn insert(&mut self, id: u128, label: String) -> (r: Result<(), RegistryError>)
        requires
            old(self).wf(),
        ensures
            final(self).wf(),
            old(self)@.contains_key(id) ==> r == Err::<(), RegistryError>(RegistryError::Occupied)
                && final(self)@ == old(self)@,
            !old(self)@.contains_key(id) ==> r is Ok && final(self)@ == old(self)@.insert(
                id,
                Progress::fresh(label@),
            ),
    {
        if self.entries.contains_key(&id) {
            Err(RegistryError::Occupied)
        } else {
            let ghost before = self@;
            self.entries.insert(id, DownloadInfo::new(label));
            assert(self@ =~= before.insert(id, Progress::fresh(label@)));
            Ok(())
        }
    }

    /// Records the counters of the transfer `id`. The entry is overwritten
    /// where the new counters may follow the recorded ones; otherwise the
    /// registry stays as it is and the reason is returned.
    pub fn update(&mut self, id: u128, bytes_transferred: u64, total_bytes: Option<u64>) -> (r:
        Result<(), RegistryError>)
        requires
            old(self).wf(),
        ensures
            final(self).wf(),
            match update_verdict(
                lookup(old(self)@, id),
                bytes_transferred as nat,
                match total_bytes {
                    Some(t) => Some(t as nat),
                    None => None,
                },
            ) {
                Ok(p) => r is Ok && final(self)@ == old(self)@.insert(id, p),
                Err(e) => r == Err::<(), RegistryError>(e) && final(self)@ == old(self)@,
            },
    {
        let cur: DownloadInfo = match self.entries.get(&id) {
            Some(info) => info.duplicate(),
            None => {
                return Err(RegistryError::Missing);
            },
        };
        if bytes_transferred < cur.bytes_transferred {
            return Err(RegistryError::Regressed);
        }
        if cur.total_bytes.is_some() && total_bytes != cur.total_bytes {
            return Err(RegistryError::TotalChanged);
        }
        let progress: u64 = match total_bytes {
            Some(t) => {
                if bytes_transferred > t {
                    return Err(RegistryError::Overrun);
                }
                percent_of(bytes_transferred, t)
            },
            None => 0,
        };
        let ghost before = self@;
        let next = DownloadInfo { title: cur.title, progress, bytes_transferred, total_bytes };
        self.entries.insert(id, next);
        assert(self@ =~= before.insert(id, next@));
        Ok(())
    }

    /// Takes the entry of a transfer that has ended, whatever its outcome,
    /// out of the registry and returns it.
    pub fn remove(&mut self, id: u128) -> (r: Option<DownloadInfo>)
        requires
            old(self).wf(),
        ensures
            final(self).wf(),
            final(self)@ == old(self)@.remove(id),
            match r {
                Some(info) => lookup(old(self)@, id) == Some(info@) && info.consistent(),
                None => lookup(old(self)@, id) is None,
            },
    {
        let ghost before = self@;
        let r = self.entries.remove(&id);
        assert(self@ =~= before.remove(id));
        r
    }

    /// The ids of the running transfers, each once, in no particular order.
    pub fn ids(&self) -> (ids: Vec<u128>)
        ensures
            ids@.to_set() == self@.dom(),
            ids@.no_duplicates(),
    {
        let mut ids: Vec<u128> = Vec::new();
        let ghost listed = vstd::std_specs::hash::spec_keys_iter(&self.entries).remaining();
        for k in iter: self.entries.keys()
            invariant
                iter.seq() == listed,
                ids@.len() == iter.index(),
                forall|j: int| 0 <= j < ids@.len() ==> ids@[j] == *listed[j],
        {
            ids.push(*k);
        }
        proof {
            assert(ids@ =~= listed.unref());
            assert(self@.dom() =~= self.entries@.dom());
            assert forall|i: int, j: int| 0 <= i < ids@.len() && 0 <= j < ids@.len() && i != j implies ids@[i]
                != ids@[j] by {
                assert(listed[i] != listed[j]);
            }
        }
        ids
    }

    /// Enters a transfer under an id that is drawn for it, and returns the
    /// id: one that was not in use.
    pub fn register(&mut self, label: String) -> (id: u128)
        requires
            old(self).wf(),
        ensures
            final(self).wf(),
            !old(self)@.contains_key(id),
            final(self)@ == old(self)@.insert(id, Progress::fresh(label@)),
    {
        let candidate: u128 = random_id();
        let id: u128 = self.claim_id(candidate);
        let ghost before = self@;
        self.entries.insert(id, DownloadInfo::new(label));
        assert(self@ =~= before.insert(id, Progress::fresh(label@)));
        id
    }

    /// An id under which no transfer is running: `candidate` itself where it
    /// is free, else the least free id.
    pub fn claim_id(&self, candidate: u128) -> (id: u128)
        ensures
            !self@.contains_key(id),
            !self@.contains_key(candidate) ==> id == candidate,
            self@.contains_key(candidate) ==> forall|j: u128| j < id ==> self@.contains_key(j),
    {
        if !self.entries.contains_key(&candidate) {
            return candidate;
        }
        let n: usize = self.entries.len();
        let mut id: u128 = 0;
        while self.entries.contains_key(&id)
            invariant
                id <= n,
                n == self.entries@.dom().len(),
                self.entries@.dom().finite(),
                forall|j: u128| j < id ==> self.entries@.contains_key(j),
            decreases n - id,
        {
            proof {
                lemma_initial_segment(self.entries@.dom(), (id + 1) as nat);
            }
            id = id + 1;
        }
        id
    }
}

/// An update that the registry accepts moves the entry forward: the label
/// stays, the byte count and the percentage do not fall, a total that was
/// known stays, and the count keeps within the total.
pub proof fn lemma_update_moves_forward(cur: Progress, bytes: nat, total: Option<nat>)
    requires
        cur.within_total(),
    ensures
        match update_verdict(Some(cur), bytes, total) {
            Ok(next) => cur.may_become(next) && cur.percentage() <= next.percentage(),
            Err(_) => true,
        },
{
    match update_verdict(Some(cur), bytes, total) {
        Ok(next) => {
            match cur.total_bytes {
                Some(t) => {
                    if t > 0 {
                        assert(cur.bytes_transferred * 100 / t <= bytes * 100 / t)
                            by (nonlinear_arith)
                            requires
                                cur.bytes_transferred <= bytes,
                                t > 0,
                        ;
                    }
                },
                None => {},
            }
        },
        Err(_) => {},
    }
}

/// What may follow what may follow an entry may follow the entry: over any
/// number of updates the byte count of a transfer never falls.
pub proof fn lemma_may_become_is_transitive(a: Progress, b: Progress, c: Progress)
    requires
        a.may_become(b),
        b.may_become(c),
    ensures
        a.may_become(c),
        a.bytes_transferred <= c.bytes_transferred,
{
}

} // verus!
