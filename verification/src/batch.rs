//! The download batch of one artwork: a transfer for each image, entered in
//! the progress registry while it runs, and the outcome of the whole.

use vstd::prelude::*;
use vstd::string::*;
use crate::data::{ArtworkModel, ArtworksData};
use crate::destination::{destination, destination_spec, Grouping};
use crate::registry::{Progress, ProgressRegistry};
use crate::text::{decimal, decimal_string};
use crate::transfer::TransferError;

verus! {

/// One image that is to be fetched.
pub struct TransferTask {
    pub id: u128,
    pub source_url: String,
    pub destination_path: String,
    pub label: String,
}

/// A `TransferTask` as plain values.
pub ghost struct TaskModel {
    pub id: u128,
    pub source_url: Seq<char>,
    pub destination_path: Seq<char>,
    pub label: Seq<char>,
}

impl View for TransferTask {
    type V = TaskModel;

    open spec fn view(&self) -> TaskModel {
        TaskModel {
            id: self.id,
            source_url: self.source_url@,
            destination_path: self.destination_path@,
            label: self.label@,
        }
    }
}

/// How the transfer of one image stands.
#[derive(Clone, Copy, Debug, PartialEq, Eq, Structural)]
pub enum Slot {
    /// It runs, or has not begun.
    Pending,
    /// It has ended with success.
    Succeeded,
    /// It has ended with this error.
    Failed(TransferError),
}

/// The failure of one image of a batch.
#[derive(Clone, Copy, Debug, PartialEq, Eq, Structural)]
pub struct ImageFailure {
    pub index: usize,
    pub error: TransferError,
}

/// A batch of which at least one transfer failed: the failures, by index.
pub struct BatchError {
    pub failures: Vec<ImageFailure>,
}

/// The label of image number `index`: the title, a hyphen, the index.
pub open spec fn label_spec(title: Seq<char>, index: nat) -> Seq<char> {
    title + seq!['-'] + decimal(index)
}

/// The task of image number `index`, under the id `id`.
pub open spec fn task_spec(
    output: Seq<char>,
    meta: ArtworkModel,
    artwork_id: nat,
    grouping: Grouping,
    name_with_id: bool,
    index: nat,
    id: u128,
) -> TaskModel {
    TaskModel {
        id,
        source_url: meta.images[index as int],
        destination_path: destination_spec(output, meta, artwork_id, grouping, index, name_with_id),
        label: label_spec(meta.title, index),
    }
}

/// The failures among `slots`, in the order of their indices.
pub open spec fn failures_of(slots: Seq<Slot>) -> Seq<ImageFailure>
    decreases slots.len(),
{
    if slots.len() == 0 {
        Seq::<ImageFailure>::empty()
    } else {
        let before = failures_of(slots.drop_last());
        match slots.last() {
            Slot::Failed(e) => before.push(
                ImageFailure { index: (slots.len() - 1) as usize, error: e },
            ),
            _ => before,
        }
    }
}

/// Whether every transfer has ended.
pub open spec fn all_settled(slots: Seq<Slot>) -> bool {
    forall|i: int| 0 <= i < slots.len() ==> !(#[trigger] slots[i] is Pending)
}

/// Whether every transfer has ended with success.
pub open spec fn all_succeeded(slots: Seq<Slot>) -> bool {
    forall|i: int| 0 <= i < slots.len() ==> #[trigger] slots[i] is Succeeded
}

/// The label of image number `index`.
pub fn label_of(title: &str, index: usize) -> (label: String)
    ensures
        label@ == label_spec(title@, index as nat),
{
    proof {
        reveal_strlit("-");
    }
    let mut label: String = String::from_str(title);
    label.append("-");
    let number: String = decimal_string(index as u64);
    label.append(number.as_str());
    assert(label@ =~= title@ + seq!['-'] + decimal(index as nat));
    label
}

/// The transfers of one artwork.
pub struct DownloadBatch {
    tasks: Vec<TransferTask>,
    slots: Vec<Slot>,
}

/// A `DownloadBatch` as plain values.
pub ghost struct BatchModel {
    pub tasks: Seq<TaskModel>,
    pub slots: Seq<Slot>,
}

impl BatchModel {
    /// The ids of the transfers that have not ended.
    pub open spec fn pending_ids(self) -> Set<u128> {
        Set::new(
            |id: u128|
                exists|i: int|
                    0 <= i < self.tasks.len() && self.slots[i] is Pending && #[trigger] self.tasks[i].id
                        == id,
        )
    }

    /// No two tasks have the same id, and every task has its slot.
    pub open spec fn wf(self) -> bool {
        &&& self.tasks.len() == self.slots.len()
        &&& self.tasks.len() <= usize::MAX
        &&& forall|i: int, j: int|
            0 <= i < j < self.tasks.len() ==> #[trigger] self.tasks[i].id != #[trigger] self.tasks[j].id
    }

    /// The registry `entries` holds the transfers of this batch that have
    /// not ended, beside the entries under the ids in `others` and no more.
    pub open spec fn registered_in(self, entries: Map<u128, Progress>, others: Set<u128>) -> bool {
        &&& entries.dom() == others.union(self.pending_ids())
        &&& others.disjoint(self.pending_ids())
    }

    /// Whether every transfer has ended.
    pub open spec fn is_complete(self) -> bool {
        all_settled(self.slots)
    }

    /// The outcome of the batch: none before every transfer has ended, then
    /// success where all succeeded, else the failures.
    pub open spec fn outcome(self) -> Option<Result<(), Seq<ImageFailure>>> {
        if !self.is_complete() {
            None
        } else if failures_of(self.slots).len() == 0 {
            Some(Ok(()))
        } else {
            Some(Err(failures_of(self.slots)))
        }
    }

    /// The batch after the transfer of image `index` ended with `outcome`.
    /// An index that the batch does not have, or a transfer that has ended
    /// before, changes nothing.
    pub open spec fn settled(self, index: int, outcome: Result<(), TransferError>) -> BatchModel {
        if 0 <= index < self.slots.len() && self.slots[index] is Pending {
            BatchModel {
                slots: self.slots.update(
                    index,
                    match outcome {
                        Ok(_) => Slot::Succeeded,
                        Err(e) => Slot::Failed(e),
                    },
                ),
                ..self
            }
        } else {
            self
        }
    }
}

impl View for DownloadBatch {
    type V = BatchModel;

    closed spec fn view(&self) -> BatchModel {
        BatchModel { tasks: Seq::new(self.tasks@.len(), |i: int| self.tasks@[i]@), slots: self.slots@ }
    }
}

/// Removing the id of a pending slot from the pending ids is settling it.
proof fn lemma_pending_after_settle(b: BatchModel, index: int, outcome: Result<(), TransferError>)
    requires
        b.wf(),
        0 <= index < b.slots.len(),
        b.slots[index] is Pending,
    ensures
        b.settled(index, outcome).pending_ids() == b.pending_ids().remove(b.tasks[index].id),
        b.settled(index, outcome).wf(),
{
    let a = b.settled(index, outcome);
    let id = b.tasks[index].id;
    assert forall|x: u128| a.pending_ids().contains(x) <==> b.pending_ids().remove(id).contains(
        x,
    ) by {
        if a.pending_ids().contains(x) {
            let i = choose|i: int|
                0 <= i < a.tasks.len() && a.slots[i] is Pending && #[trigger] a.tasks[i].id == x;
            assert(i != index);
            assert(b.slots[i] is Pending && b.tasks[i].id == x);
            if i < index {
                assert(b.tasks[i].id != b.tasks[index].id);
            } else {
                assert(b.tasks[index].id != b.tasks[i].id);
            }
        }
        if b.pending_ids().remove(id).contains(x) {
            let i = choose|i: int|
                0 <= i < b.tasks.len() && b.slots[i] is Pending && #[trigger] b.tasks[i].id == x;
            assert(i != index);
            assert(a.slots[i] is Pending && a.tasks[i].id == x);
        }
    }
    assert(a.pending_ids() =~= b.pending_ids().remove(id));
}

impl DownloadBatch {
    /// Opens the batch of an artwork: for each image, in the order of
    /// `metadata.images`, the file that it is stored in and an id of its
    /// own, under which it is entered in the registry before anything is
    /// requested. The entries that the registry had stay as they were.
    pub fn open(
        metadata: &ArtworksData,
        artwork_id: u64,
        output: &str,
        grouping: Grouping,
        name_with_id: bool,
        registry: &mut ProgressRegistry,
    ) -> (batch: DownloadBatch)
        requires
            old(registry).wf(),
        ensures
            final(registry).wf(),
            batch@.wf(),
            batch@.tasks.len() == metadata@.images.len(),
            forall|i: int|
                0 <= i < batch@.tasks.len() ==> #[trigger] batch@.tasks[i] == task_spec(
                    output@,
                    metadata@,
                    artwork_id as nat,
                    grouping,
                    name_with_id,
                    i as nat,
                    batch@.tasks[i].id,
                ),
            forall|i: int| 0 <= i < batch@.slots.len() ==> #[trigger] batch@.slots[i] is Pending,
            batch@.registered_in(final(registry)@, old(registry)@.dom()),
            forall|id: u128| #[trigger]
                old(registry)@.contains_key(id) ==> final(registry)@[id] == old(registry)@[id],
            forall|i: int|
                0 <= i < batch@.tasks.len() ==> final(registry)@[#[trigger] batch@.tasks[i].id]
                    == Progress::fresh(batch@.tasks[i].label),
    {
        let mut tasks: Vec<TransferTask> = Vec::new();
        let mut slots: Vec<Slot> = Vec::new();
        let n: usize = metadata.images.len();
        let mut i: usize = 0;
        while i < n
            invariant
                i <= n,
                n == metadata.images@.len(),
                n == metadata@.images.len(),
                registry.wf(),
                tasks@.len() == i,
                slots@.len() == i,
                forall|j: int| 0 <= j < i ==> #[trigger] slots@[j] is Pending,
                forall|j: int|
                    0 <= j < i ==> (#[trigger] tasks@[j])@ == task_spec(
                        output@,
                        metadata@,
                        artwork_id as nat,
                        grouping,
                        name_with_id,
                        j as nat,
                        tasks@[j].id,
                    ),
                forall|j: int, k: int|
                    0 <= j < k < i ==> (#[trigger] tasks@[j]).id != (#[trigger] tasks@[k]).id,
                forall|j: int| 0 <= j < i ==> !old(registry)@.contains_key((#[trigger] tasks@[j]).id),
                forall|j: int|
                    0 <= j < i ==> registry@.contains_key((#[trigger] tasks@[j]).id) && registry@[tasks@[j].id]
                        == Progress::fresh(tasks@[j].label@),
                forall|id: u128| #[trigger]
                    old(registry)@.contains_key(id) ==> registry@.contains_key(id) && registry@[id]
                        == old(registry)@[id],
                forall|id: u128| #[trigger]
                    registry@.contains_key(id) ==> old(registry)@.contains_key(id) || exists|j: int|
                        0 <= j < i && (#[trigger] tasks@[j]).id == id,
            decreases n - i,
        {
            let label: String = label_of(metadata.title.as_str(), i);
            let path: String = destination(output, metadata, artwork_id, grouping, i, name_with_id);
            let ghost before = registry@;
            let id: u128 = registry.register(label.clone());
            let task = TransferTask {
                id,
                source_url: metadata.images[i].clone(),
                destination_path: path,
                label,
            };
            assert(forall|j: int| 0 <= j < i ==> before.contains_key((#[trigger] tasks@[j]).id));
            let ghost earlier = tasks@;
            tasks.push(task);
            slots.push(Slot::Pending);
            assert(forall|j: int| 0 <= j < i ==> tasks@[j] == earlier[j]);
            assert forall|x: u128| #[trigger] registry@.contains_key(x) implies old(
                registry,
            )@.contains_key(x) || exists|j: int| 0 <= j < i + 1 && (#[trigger] tasks@[j]).id == x by {
                if x == id {
                    assert(tasks@[i as int].id == x);
                } else if !old(registry)@.contains_key(x) {
                    assert(before.contains_key(x));
                    let j = choose|j: int| 0 <= j < i && (#[trigger] earlier[j]).id == x;
                    assert(tasks@[j].id == x);
                }
            }
            i += 1;
        }
        let batch = DownloadBatch { tasks, slots };
        proof {
            let b = batch@;
            assert(b.registered_in(registry@, old(registry)@.dom())) by {
                assert forall|id: u128|
                    registry@.dom().contains(id) <==> old(registry)@.dom().union(
                        b.pending_ids(),
                    ).contains(id) by {
                    if registry@.contains_key(id) && !old(registry)@.contains_key(id) {
                        let j = choose|j: int| 0 <= j < n && (#[trigger] tasks@[j]).id == id;
                        assert(b.slots[j] is Pending && b.tasks[j].id == id);
                    }
                    if b.pending_ids().contains(id) {
                        let j = choose|j: int|
                            0 <= j < b.tasks.len() && b.slots[j] is Pending && #[trigger] b.tasks[j].id
                                == id;
                        assert(tasks@[j].id == id);
                    }
                }
                assert(registry@.dom() =~= old(registry)@.dom().union(b.pending_ids()));
                assert forall|id: u128|
                    !(old(registry)@.dom().contains(id) && b.pending_ids().contains(id)) by {
                    if b.pending_ids().contains(id) {
                        let j = choose|j: int|
                            0 <= j < b.tasks.len() && b.slots[j] is Pending && #[trigger] b.tasks[j].id
                                == id;
                        assert(tasks@[j].id == id);
                    }
                }
            }
            assert forall|k: int| 0 <= k < b.tasks.len() implies #[trigger] b.tasks[k] == task_spec(
                output@,
                metadata@,
                artwork_id as nat,
                grouping,
                name_with_id,
                k as nat,
                b.tasks[k].id,
            ) by {
                assert(b.tasks[k] == tasks@[k]@);
            }
            assert forall|k: int| 0 <= k < b.tasks.len() implies registry@[#[trigger] b.tasks[k].id]
                == Progress::fresh(b.tasks[k].label) by {
                assert(b.tasks[k] == tasks@[k]@);
            }
            assert forall|j: int, k: int| 0 <= j < k < b.tasks.len() implies #[trigger] b.tasks[j].id
                != #[trigger] b.tasks[k].id by {
                assert(b.tasks[j] == tasks@[j]@);
                assert(b.tasks[k] == tasks@[k]@);
            }
        }
        batch
    }

    /// The number of images in the batch.
    pub fn len(&self) -> (n: usize)
        requires
            self@.wf(),
        ensures
            n == self@.tasks.len(),
    {
        self.tasks.len()
    }

    /// The task of image number `index`.
    pub fn task(&self, index: usize) -> (t: &TransferTask)
        requires
            index < self@.tasks.len(),
        ensures
            t@ == self@.tasks[index as int],
    {
        &self.tasks[index]
    }

    /// How the transfer of image number `index` stands.
    pub fn slot(&self, index: usize) -> (s: Slot)
        requires
            index < self@.slots.len(),
        ensures
            s == self@.slots[index as int],
    {
        self.slots[index]
    }

    /// Takes note that the transfer of image number `index` has ended, with
    /// or without success, and takes its entry out of the registry. The
    /// other transfers are not touched. Returns whether the batch had such
    /// a transfer running; where not, nothing changes.
    pub fn settle(
        &mut self,
        index: usize,
        outcome: Result<(), TransferError>,
        registry: &mut ProgressRegistry,
    ) -> (taken: bool)
        requires
            old(self)@.wf(),
            old(registry).wf(),
        ensures
            final(self)@.wf(),
            final(registry).wf(),
            taken == (index < old(self)@.slots.len() && old(self)@.slots[index as int] is Pending),
            final(self)@ == old(self)@.settled(index as int, outcome),
            taken ==> final(registry)@ == old(registry)@.remove(old(self)@.tasks[index as int].id),
            !taken ==> final(registry)@ == old(registry)@,
            forall|others: Set<u128>| #[trigger]
                old(self)@.registered_in(old(registry)@, others) ==> final(self)@.registered_in(
                    final(registry)@,
                    others,
                ),
    {
        if index >= self.slots.len() {
            return false;
        }
        match self.slots[index] {
            Slot::Pending => {},
            _ => {
                return false;
            },
        }
        let next: Slot = match outcome {
            Ok(_) => Slot::Succeeded,
            Err(e) => Slot::Failed(e),
        };
        proof {
            lemma_pending_after_settle(self@, index as int, outcome);
        }
        self.slots.set(index, next);
        let _ = registry.remove(self.tasks[index].id);
        proof {
            let id = old(self)@.tasks[index as int].id;
            assert(old(self)@.pending_ids().contains(id)) by {
                assert(old(self)@.slots[index as int] is Pending);
            }
            assert forall|others: Set<u128>| #[trigger]
                old(self)@.registered_in(old(registry)@, others) implies self@.registered_in(
                registry@,
                others,
            ) by {
                assert(!others.contains(id));
                assert(registry@.dom() =~= others.union(self@.pending_ids()));
            }
        }
        true
    }

    /// Whether every transfer of the batch has ended.
    pub fn is_complete(&self) -> (done: bool)
        ensures
            done == self@.is_complete(),
    {
        let mut i: usize = 0;
        while i < self.slots.len()
            invariant
                i <= self.slots@.len(),
                forall|j: int| 0 <= j < i ==> !(#[trigger] self.slots@[j] is Pending),
            decreases self.slots@.len() - i,
        {
            match self.slots[i] {
                Slot::Pending => {
                    return false;
                },
                _ => {},
            }
            i += 1;
        }
        true
    }

    /// The outcome of the batch: `None` while a transfer runs; then `Ok`
    /// where every transfer succeeded, else the failures by index.
    pub fn result(&self) -> (r: Option<Result<(), BatchError>>)
        ensures
            match r {
                None => self@.outcome() is None,
                Some(Ok(_)) => self@.outcome() == Some(Ok::<(), Seq<ImageFailure>>(())),
                Some(Err(e)) => self@.outcome() == Some(Err::<(), Seq<ImageFailure>>(e.failures@)),
            },
    {
        if !self.is_complete() {
            return None;
        }
        let mut failures: Vec<ImageFailure> = Vec::new();
        let mut i: usize = 0;
        while i < self.slots.len()
            invariant
                i <= self.slots@.len(),
                failures@ == failures_of(self.slots@.take(i as int)),
            decreases self.slots@.len() - i,
        {
            assert(self.slots@.take(i + 1).drop_last() =~= self.slots@.take(i as int));
            match self.slots[i] {
                Slot::Failed(error) => {
                    failures.push(ImageFailure { index: i, error });
                },
                _ => {},
            }
            i += 1;
        }
        assert(self.slots@.take(i as int) =~= self.slots@);
        if failures.len() == 0 {
            Some(Ok(()))
        } else {
            Some(Err(BatchError { failures }))
        }
    }
}

/// A failure is listed exactly where a slot has failed, with its error.
pub proof fn lemma_failures_are_the_failed_slots(slots: Seq<Slot>)
    requires
        slots.len() <= usize::MAX,
    ensures
        forall|f: ImageFailure| #[trigger]
            failures_of(slots).contains(f) <==> f.index < slots.len() && slots[f.index as int]
                == Slot::Failed(f.error),
    decreases slots.len(),
{
    if slots.len() > 0 {
        let before = slots.drop_last();
        let last = (slots.len() - 1) as int;
        lemma_failures_are_the_failed_slots(before);
        assert forall|f: ImageFailure| #[trigger]
            failures_of(slots).contains(f) <==> f.index < slots.len() && slots[f.index as int]
                == Slot::Failed(f.error) by {
            let earlier = failures_of(before).contains(f);
            if f.index < last {
                assert(before[f.index as int] == slots[f.index as int]);
            }
            match slots.last() {
                Slot::Failed(e0) => {
                    let f0 = ImageFailure { index: last as usize, error: e0 };
                    let all = failures_of(before).push(f0);
                    assert(all[all.len() - 1] == f0);
                    if earlier {
                        let k = choose|k: int|
                            0 <= k < failures_of(before).len() && failures_of(before)[k] == f;
                        assert(all[k] == f);
                    }
                    if all.contains(f) {
                        let k = choose|k: int| 0 <= k < all.len() && all[k] == f;
                        if k < failures_of(before).len() {
                            assert(failures_of(before)[k] == f);
                        }
                    }
                },
                _ => {},
            }
        }
    }
}

/// No failure is listed exactly where no slot has failed.
pub proof fn lemma_no_failure_listed(slots: Seq<Slot>)
    requires
        slots.len() <= usize::MAX,
    ensures
        failures_of(slots).len() == 0 <==> forall|i: int|
            0 <= i < slots.len() ==> !(#[trigger] slots[i] is Failed),
{
    lemma_failures_are_the_failed_slots(slots);
    let fs = failures_of(slots);
    if fs.len() > 0 {
        assert(fs.contains(fs[0]));
        assert(slots[fs[0].index as int] is Failed);
    }
    if fs.len() == 0 {
        assert forall|i: int| 0 <= i < slots.len() implies !(#[trigger] slots[i] is Failed) by {
            if slots[i] is Failed {
                let f = ImageFailure { index: i as usize, error: slots[i]->Failed_0 };
                assert(fs.contains(f));
            }
        }
    }
}

/// Once every transfer of a batch has ended, none of them is left in the
/// registry: it holds the entries that stood beside the batch, and is empty
/// where there were none.
pub proof fn lemma_completed_batch_is_deregistered(
    b: BatchModel,
    entries: Map<u128, Progress>,
    others: Set<u128>,
)
    requires
        b.wf(),
        b.registered_in(entries, others),
        b.is_complete(),
    ensures
        b.pending_ids() == Set::<u128>::empty(),
        entries.dom() == others,
        others == Set::<u128>::empty() ==> entries == Map::<u128, Progress>::empty(),
{
    assert(b.pending_ids() =~= Set::<u128>::empty());
    assert(entries.dom() =~= others);
    if others == Set::<u128>::empty() {
        assert(entries =~= Map::<u128, Progress>::empty());
    }
}

/// The end of one transfer, failed or not, leaves its siblings as they are:
/// their tasks, their slots, and so their chance to succeed.
pub proof fn lemma_settling_spares_siblings(
    b: BatchModel,
    index: int,
    outcome: Result<(), TransferError>,
)
    requires
        b.wf(),
    ensures
        b.settled(index, outcome).tasks == b.tasks,
        b.settled(index, outcome).slots.len() == b.slots.len(),
        forall|j: int|
            0 <= j < b.slots.len() && j != index ==> #[trigger] b.settled(index, outcome).slots[j]
                == b.slots[j],
{
}

/// A completed batch reports success exactly where every transfer
/// succeeded; otherwise it reports the failures, and a transfer that
/// succeeded stays recorded as such.
pub proof fn lemma_batch_outcome(b: BatchModel)
    requires
        b.wf(),
        b.is_complete(),
    ensures
        b.outcome() is Some,
        b.outcome() == Some(Ok::<(), Seq<ImageFailure>>(())) <==> all_succeeded(b.slots),
        b.outcome()->0 is Err ==> b.outcome()->0->Err_0 == failures_of(b.slots) && exists|i: int|
            0 <= i < b.slots.len() && #[trigger] b.slots[i] is Failed,
{
    lemma_no_failure_listed(b.slots);
    if all_succeeded(b.slots) {
        assert forall|i: int| 0 <= i < b.slots.len() implies !(#[trigger] b.slots[i] is Failed) by {
            assert(b.slots[i] is Succeeded);
        }
    }
    if failures_of(b.slots).len() == 0 {
        assert forall|i: int| 0 <= i < b.slots.len() implies #[trigger] b.slots[i] is Succeeded by {
            assert(!(b.slots[i] is Pending));
            assert(!(b.slots[i] is Failed));
        }
    }
}

/// The tasks of one batch write to files of their own: tasks of different
/// images have different destinations.
pub proof fn lemma_tasks_have_their_own_files(
    output: Seq<char>,
    meta: ArtworkModel,
    artwork_id: nat,
    grouping: Grouping,
    name_with_id: bool,
    i: nat,
    a: u128,
    j: nat,
    b: u128,
)
    requires
        i != j,
    ensures
        task_spec(output, meta, artwork_id, grouping, name_with_id, i, a).destination_path
            != task_spec(output, meta, artwork_id, grouping, name_with_id, j, b).destination_path,
{
    crate::destination::lemma_destinations_differ(output, meta, artwork_id, grouping, name_with_id, i, j);
}

} // verus!
