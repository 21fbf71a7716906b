//! One transfer: a GET request whose body is written to a file. The input and
//! output are done by the caller; this module decides, after each thing that
//! happened, what is done next.

use vstd::prelude::*;
use vstd::string::*;

verus! {

/// Why a transfer ended without success.
#[derive(Clone, Copy, Debug, PartialEq, Eq, Structural)]
pub enum TransferError {
    /// The parent directory or the file could not be created, or a write failed.
    IoError,
    /// The request or the stream of the body failed.
    NetworkError,
    /// The service answered with a status that is not a success.
    RemoteError(u16),
}

/// How far a transfer has come.
#[derive(Clone, Copy, Debug, PartialEq, Eq, Structural)]
pub enum Phase {
    /// Nothing has been done.
    Created,
    /// The parent directory of the destination is being created.
    Preparing,
    /// The destination file is being opened.
    Opening,
    /// The request is on its way.
    Requesting,
    /// The next chunk of the body is awaited.
    Receiving,
    /// A chunk is being written to the file.
    Writing,
    /// The whole body is in the file.
    Completed,
    /// The transfer has failed.
    Failed(TransferError),
}

/// What the caller reports to a transfer.
#[derive(Clone, Copy, Debug, PartialEq, Eq, Structural)]
pub enum TransferEvent {
    /// The transfer is to begin.
    Start,
    /// The work on the file system that was asked for has succeeded.
    IoDone,
    /// The work on the file system that was asked for has failed.
    IoFailed,
    /// The response's head has arrived.
    Response { status: u16, content_length: Option<u64> },
    /// A chunk of the body has arrived.
    Chunk { len: u64 },
    /// The body has ended.
    EndOfBody,
    /// The request or the stream has failed.
    NetworkFailed,
}

/// What the observer is told after a chunk: the bytes received so far and
/// the total.
#[derive(Clone, Copy, Debug, PartialEq, Eq, Structural)]
pub struct ProgressReport {
    pub received: u64,
    pub total: u64,
}

/// What the caller is to do next.
#[derive(Clone, Copy, Debug, PartialEq, Eq, Structural)]
pub enum TransferAction {
    /// Create the parent directory of the destination, with its ancestors.
    CreateParent,
    /// Create the destination file, emptying one that exists.
    OpenFile,
    /// Send the GET request with the referer header.
    SendRequest,
    /// Tell the observer the total, then read the next chunk.
    AnnounceTotal(u64),
    /// Read the next chunk.
    ReadChunk,
    /// Write the chunk that arrived to the file; then, where `report` is
    /// given, tell the observer the bytes received so far and the total.
    WriteChunk { report: Option<ProgressReport> },
    /// The transfer has succeeded: close the file.
    Complete,
    /// The transfer has failed with this error.
    Abort(TransferError),
    /// The event does not belong here: do nothing.
    Ignore,
}

/// The state of a transfer: its phase, the bytes of the body received so
/// far, and the total that the response announced.
#[derive(Clone, Copy, Debug, PartialEq, Eq, Structural)]
pub struct TransferState {
    pub phase: Phase,
    pub received: u64,
    pub total: Option<u64>,
}

/// Whether a status code means success.
pub open spec fn is_success(status: u16) -> bool {
    200 <= status <= 299
}

/// `a + b`, held at the largest `u64`.
pub open spec fn capped_sum(a: u64, b: u64) -> u64 {
    if a + b > u64::MAX {
        u64::MAX
    } else {
        (a + b) as u64
    }
}

/// What is reported after a chunk: the count and the total, where the
/// response announced one.
pub open spec fn report_of(received: u64, total: Option<u64>) -> Option<ProgressReport> {
    match total {
        Some(t) => Some(ProgressReport { received, total: t }),
        None => None,
    }
}

impl TransferState {
    /// The state of a transfer before it begins.
    pub open spec fn initial() -> TransferState {
        TransferState { phase: Phase::Created, received: 0, total: None }
    }

    /// Whether the transfer has ended, with or without success.
    pub open spec fn is_terminal(self) -> bool {
        self.phase is Completed || self.phase is Failed
    }

    /// This state with another phase.
    pub open spec fn at(self, phase: Phase) -> TransferState {
        TransferState { phase, ..self }
    }

    /// This state after a failure.
    pub open spec fn failed(self, e: TransferError) -> (TransferState, TransferAction) {
        (self.at(Phase::Failed(e)), TransferAction::Abort(e))
    }

    /// The state after `event`, and what is to be done.
    pub open spec fn next(self, event: TransferEvent) -> (TransferState, TransferAction) {
        match (self.phase, event) {
            (Phase::Created, TransferEvent::Start) => (
                self.at(Phase::Preparing),
                TransferAction::CreateParent,
            ),
            (Phase::Preparing, TransferEvent::IoDone) => (
                self.at(Phase::Opening),
                TransferAction::OpenFile,
            ),
            (Phase::Preparing, TransferEvent::IoFailed) => self.failed(TransferError::IoError),
            (Phase::Opening, TransferEvent::IoDone) => (
                self.at(Phase::Requesting),
                TransferAction::SendRequest,
            ),
            (Phase::Opening, TransferEvent::IoFailed) => self.failed(TransferError::IoError),
            (Phase::Requesting, TransferEvent::Response { status, content_length }) => {
                if !is_success(status) {
                    self.failed(TransferError::RemoteError(status))
                } else {
                    (
                        TransferState { phase: Phase::Receiving, received: 0, total: content_length },
                        match content_length {
                            Some(t) => TransferAction::AnnounceTotal(t),
                            None => TransferAction::ReadChunk,
                        },
                    )
                }
            },
            (Phase::Requesting, TransferEvent::NetworkFailed) => self.failed(
                TransferError::NetworkError,
            ),
            (Phase::Receiving, TransferEvent::Chunk { len }) => {
                let received = capped_sum(self.received, len);
                (
                    TransferState { phase: Phase::Writing, received, total: self.total },
                    TransferAction::WriteChunk { report: report_of(received, self.total) },
                )
            },
            (Phase::Receiving, TransferEvent::EndOfBody) => (
                self.at(Phase::Completed),
                TransferAction::Complete,
            ),
            (Phase::Receiving, TransferEvent::NetworkFailed) => self.failed(
                TransferError::NetworkError,
            ),
            (Phase::Writing, TransferEvent::IoDone) => (
                self.at(Phase::Receiving),
                TransferAction::ReadChunk,
            ),
            (Phase::Writing, TransferEvent::IoFailed) => self.failed(TransferError::IoError),
            _ => (self, TransferAction::Ignore),
        }
    }
}

/// The name of the header that every request carries.
pub fn referer_header() -> (name: &'static str)
    ensures
        name@ == "referer"@,
{
    "referer"
}

/// The value of the referer header, which the image host asks for.
pub fn referer_value() -> (value: &'static str)
    ensures
        value@ == "https://www.pixiv.net/"@,
{
    "https://www.pixiv.net/"
}

/// Whether a status code means success.
pub fn status_is_success(status: u16) -> (ok: bool)
    ensures
        ok == is_success(status),
{
    200 <= status && status <= 299
}

/// One transfer from an address to a file.
pub struct Transfer {
    source_url: String,
    destination_path: String,
    state: TransferState,
}

impl View for Transfer {
    type V = TransferState;

    closed spec fn view(&self) -> TransferState {
        self.state
    }
}

impl Transfer {
    /// The address that is fetched.
    pub closed spec fn source(&self) -> Seq<char> {
        self.source_url@
    }

    /// The file that is written.
    pub closed spec fn destination(&self) -> Seq<char> {
        self.destination_path@
    }

    /// A transfer that has not begun.
    pub fn new(source_url: String, destination_path: String) -> (t: Transfer)
        ensures
            t@ == TransferState::initial(),
            t.source() == source_url@,
            t.destination() == destination_path@,
    {
        Transfer {
            source_url,
            destination_path,
            state: TransferState { phase: Phase::Created, received: 0, total: None },
        }
    }

    /// The address that is fetched.
    pub fn source_url(&self) -> (url: &str)
        ensures
            url@ == self.source(),
    {
        self.source_url.as_str()
    }

    /// The file that is written.
    pub fn destination_path(&self) -> (path: &str)
        ensures
            path@ == self.destination(),
    {
        self.destination_path.as_str()
    }

    /// The state of the transfer.
    pub fn state(&self) -> (s: TransferState)
        ensures
            s == self@,
    {
        self.state
    }

    /// How the transfer has ended: `None` while it runs.
    pub fn outcome(&self) -> (r: Option<Result<(), TransferError>>)
        ensures
            r == outcome_of(self@),
    {
        match self.state.phase {
            Phase::Completed => Some(Ok(())),
            Phase::Failed(e) => Some(Err(e)),
            _ => None,
        }
    }

    /// Takes note of what happened and says what is to be done next. The
    /// address and the file stay as they are.
    pub fn step(&mut self, event: TransferEvent) -> (action: TransferAction)
        ensures
            (final(self)@, action) == old(self)@.next(event),
            final(self).source() == old(self).source(),
            final(self).destination() == old(self).destination(),
    {
        let s: TransferState = self.state;
        let (phase, received, total, action): (Phase, u64, Option<u64>, TransferAction) = match (
            s.phase,
            event,
        ) {
            (Phase::Created, TransferEvent::Start) => (
                Phase::Preparing,
                s.received,
                s.total,
                TransferAction::CreateParent,
            ),
            (Phase::Preparing, TransferEvent::IoDone) => (
                Phase::Opening,
                s.received,
                s.total,
                TransferAction::OpenFile,
            ),
            (Phase::Opening, TransferEvent::IoDone) => (
                Phase::Requesting,
                s.received,
                s.total,
                TransferAction::SendRequest,
            ),
            (Phase::Preparing, TransferEvent::IoFailed)
            | (Phase::Opening, TransferEvent::IoFailed)
            | (Phase::Writing, TransferEvent::IoFailed) => (
                Phase::Failed(TransferError::IoError),
                s.received,
                s.total,
                TransferAction::Abort(TransferError::IoError),
            ),
            (Phase::Requesting, TransferEvent::Response { status, content_length }) => {
                if !status_is_success(status) {
                    (
                        Phase::Failed(TransferError::RemoteError(status)),
                        s.received,
                        s.total,
                        TransferAction::Abort(TransferError::RemoteError(status)),
                    )
                } else {
                    (
                        Phase::Receiving,
                        0,
                        content_length,
                        match content_length {
                            Some(t) => TransferAction::AnnounceTotal(t),
                            None => TransferAction::ReadChunk,
                        },
                    )
                }
            },
            (Phase::Requesting, TransferEvent::NetworkFailed)
            | (Phase::Receiving, TransferEvent::NetworkFailed) => (
                Phase::Failed(TransferError::NetworkError),
                s.received,
                s.total,
                TransferAction::Abort(TransferError::NetworkError),
            ),
            (Phase::Receiving, TransferEvent::Chunk { len }) => {
                let received: u64 = s.received.saturating_add(len);
                let report: Option<ProgressReport> = match s.total {
                    Some(t) => Some(ProgressReport { received, total: t }),
                    None => None,
                };
                (Phase::Writing, received, s.total, TransferAction::WriteChunk { report })
            },
            (Phase::Receiving, TransferEvent::EndOfBody) => (
                Phase::Completed,
                s.received,
                s.total,
                TransferAction::Complete,
            ),
            (Phase::Writing, TransferEvent::IoDone) => (
                Phase::Receiving,
                s.received,
                s.total,
                TransferAction::ReadChunk,
            ),
            _ => (s.phase, s.received, s.total, TransferAction::Ignore),
        };
        self.state = TransferState { phase, received, total };
        action
    }
}

/// How a transfer in state `s` has ended: `None` while it runs.
pub open spec fn outcome_of(s: TransferState) -> Option<Result<(), TransferError>> {
    match s.phase {
        Phase::Completed => Some(Ok(())),
        Phase::Failed(e) => Some(Err(e)),
        _ => None,
    }
}

impl TransferState {
    /// Before the response has arrived nothing is received and no total is
    /// known.
    pub open spec fn wf(self) -> bool {
        (self.phase is Created || self.phase is Preparing || self.phase is Opening
            || self.phase is Requesting) ==> self.received == 0 && self.total is None
    }

    /// Whether the response's head has arrived, or the transfer has failed
    /// before it could.
    pub open spec fn has_response(self) -> bool {
        self.phase is Receiving || self.phase is Writing || self.is_terminal()
    }

    /// The state after each chunk of `chunks` has arrived and was written.
    pub open spec fn after_chunks(self, chunks: Seq<u64>) -> TransferState
        decreases chunks.len(),
    {
        if chunks.len() == 0 {
            self
        } else {
            self.after_chunks(chunks.drop_last()).next(
                TransferEvent::Chunk { len: chunks.last() },
            ).0.next(TransferEvent::IoDone).0
        }
    }

    /// The state in which the response's head is awaited.
    pub open spec fn requesting() -> TransferState {
        TransferState::initial().next(TransferEvent::Start).0.next(TransferEvent::IoDone).0.next(
            TransferEvent::IoDone,
        ).0
    }
}

/// The sum of the lengths of `chunks`.
pub open spec fn total_length(chunks: Seq<u64>) -> nat
    decreases chunks.len(),
{
    if chunks.len() == 0 {
        0
    } else {
        total_length(chunks.drop_last()) + chunks.last() as nat
    }
}

/// Whatever happens, the bytes received never fall, a total that is known
/// stays, and the state stays well-formed.
pub proof fn lemma_transfer_moves_forward(s: TransferState, event: TransferEvent)
    requires
        s.wf(),
    ensures
        s.next(event).0.wf(),
        s.received <= s.next(event).0.received,
        s.total is Some ==> s.next(event).0.total == s.total,
{
}

/// The total is announced when the response arrives and at no other time:
/// so at most once, and before any report. A report gives the total that
/// was announced and the count of the bytes received.
pub proof fn lemma_total_is_announced_once(s: TransferState, event: TransferEvent)
    requires
        s.wf(),
    ensures
        s.next(event).1 matches TransferAction::AnnounceTotal(t) ==> s.phase is Requesting && s.total
            is None && s.next(event).0.phase is Receiving && s.next(event).0.total == Some(t),
        s.phase is Requesting || s.has_response() ==> s.next(event).0.has_response() || s.next(
            event,
        ).0 == s,
        s.has_response() ==> !(s.next(event).1 is AnnounceTotal),
        s.next(event).1 matches TransferAction::WriteChunk { report: Some(r) } ==> s.phase
            is Receiving && s.total == Some(r.total) && r.received == s.next(event).0.received,
        s.total is None ==> !(s.next(event).1 matches TransferAction::WriteChunk {
            report: Some(_),
        }),
{
}

/// A transfer that has ended stays as it is, whatever is reported to it.
pub proof fn lemma_ended_transfer_stays(s: TransferState, event: TransferEvent)
    requires
        s.is_terminal(),
    ensures
        s.next(event) == (s, TransferAction::Ignore),
{
}

/// A status that is no success fails the transfer with that status.
pub proof fn lemma_bad_status_fails(status: u16, content_length: Option<u64>)
    requires
        !is_success(status),
    ensures
        TransferState::requesting().next(TransferEvent::Response { status, content_length }).0.phase
            == Phase::Failed(TransferError::RemoteError(status)),
{
}

/// While the body arrives chunk by chunk, the bytes received are the sum of
/// the chunks.
pub proof fn lemma_chunks_add_up(s: TransferState, chunks: Seq<u64>)
    requires
        s.phase is Receiving,
        s.received + total_length(chunks) <= u64::MAX,
    ensures
        s.after_chunks(chunks) == (TransferState {
            phase: Phase::Receiving,
            received: (s.received + total_length(chunks)) as u64,
            total: s.total,
        }),
    decreases chunks.len(),
{
    if chunks.len() > 0 {
        lemma_chunks_add_up(s, chunks.drop_last());
    }
}

/// A response without a length does not keep a transfer from completing:
/// every chunk is written, nothing is announced or reported, and at the end
/// of the body the transfer has succeeded with the whole body received.
pub proof fn lemma_completes_without_length(status: u16, chunks: Seq<u64>)
    requires
        is_success(status),
        total_length(chunks) <= u64::MAX,
    ensures
        ({
            let head = TransferState::requesting().next(
                TransferEvent::Response { status, content_length: None },
            );
            let body = head.0.after_chunks(chunks);
            let end = body.next(TransferEvent::EndOfBody);
            &&& head.1 == TransferAction::ReadChunk
            &&& body.total is None
            &&& body.received == total_length(chunks)
            &&& end.0.phase is Completed
            &&& end.0.received == total_length(chunks)
            &&& end.1 == TransferAction::Complete
            &&& outcome_of(end.0) == Some(Ok::<(), TransferError>(()))
        }),
{
    let head = TransferState::requesting().next(
        TransferEvent::Response { status, content_length: None },
    );
    lemma_chunks_add_up(head.0, chunks);
}

} // verus!
