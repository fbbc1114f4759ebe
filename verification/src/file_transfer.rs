//! File transfer state machines.
//!
//! One file at a time travels in chunks of 100 KiB. The channel underneath
//! is reliable, so no acknowledgement per chunk is needed; either side may
//! cancel, and a cancelled receiver discards what it has received.

use crate::text::{decimal, push_decimal};
use vstd::prelude::*;
use vstd::string::StringExecFns;

verus! {

broadcast use vstd::string::group_string_axioms;

/// Size of a file-transfer chunk: 100 KiB.
pub const CHUNK_SIZE: usize = 100 * 1024;

/// Largest file that can be transferred: 4 GiB.
pub const MAX_FILE_SIZE: u64 = 4 * 1024 * 1024 * 1024;

/// Number of chunks a file of `size` bytes is cut into.
pub open spec fn chunk_count(size: int) -> int {
    (size + CHUNK_SIZE - 1) / (CHUNK_SIZE as int)
}

/// Direction of a transfer.
#[derive(Debug, Clone, Copy, PartialEq, Eq, Structural)]
pub enum TransferDirection {
    /// Sending a file to the remote side.
    Send,
    /// Receiving a file from the remote side.
    Receive,
}

/// States of the sending side.
#[derive(Debug, Clone, Copy, PartialEq, Eq, Structural)]
pub enum SenderState {
    /// Not transferring.
    Idle,
    /// Waiting for the remote side to accept the request.
    WaitingAccept,
    /// Sending chunks.
    Sending,
    /// The transfer finished.
    Completed,
    /// The transfer was cancelled.
    Canceled,
}

/// States of the receiving side.
#[derive(Debug, Clone, Copy, PartialEq, Eq, Structural)]
pub enum ReceiverState {
    /// Not transferring.
    Idle,
    /// Waiting for a transfer request.
    WaitingRequest,
    /// Receiving chunks.
    Receiving,
    /// The transfer finished.
    Completed,
    /// The transfer was cancelled.
    Canceled,
}

/// The name under which a sender state is displayed.
pub open spec fn sender_state_name(s: SenderState) -> Seq<char> {
    match s {
        SenderState::Idle => "Idle"@,
        SenderState::WaitingAccept => "WaitingAccept"@,
        SenderState::Sending => "Sending"@,
        SenderState::Completed => "Completed"@,
        SenderState::Canceled => "Canceled"@,
    }
}

/// The name under which a receiver state is displayed.
pub open spec fn receiver_state_name(s: ReceiverState) -> Seq<char> {
    match s {
        ReceiverState::Idle => "Idle"@,
        ReceiverState::WaitingRequest => "WaitingRequest"@,
        ReceiverState::Receiving => "Receiving"@,
        ReceiverState::Completed => "Completed"@,
        ReceiverState::Canceled => "Canceled"@,
    }
}

impl SenderState {
    /// The state's display name.
    pub fn to_string(&self) -> (r: String)
        ensures
            r@ == sender_state_name(*self),
    {
        match self {
            SenderState::Idle => "Idle".to_string(),
            SenderState::WaitingAccept => "WaitingAccept".to_string(),
            SenderState::Sending => "Sending".to_string(),
            SenderState::Completed => "Completed".to_string(),
            SenderState::Canceled => "Canceled".to_string(),
        }
    }
}

impl ReceiverState {
    /// The state's display name.
    pub fn to_string(&self) -> (r: String)
        ensures
            r@ == receiver_state_name(*self),
    {
        match self {
            ReceiverState::Idle => "Idle".to_string(),
            ReceiverState::WaitingRequest => "WaitingRequest".to_string(),
            ReceiverState::Receiving => "Receiving".to_string(),
            ReceiverState::Completed => "Completed".to_string(),
            ReceiverState::Canceled => "Canceled".to_string(),
        }
    }
}

/// Request to transfer a file.
#[derive(Debug, Clone)]
pub struct FileTransferRequest {
    /// Name of the file.
    pub filename: String,
    /// Size of the file in bytes.
    pub file_size: u64,
}

/// Answer of the receiving side to a request.
#[derive(Debug, Clone)]
pub struct FileTransferAccept {
    /// Whether the receiver accepts the transfer.
    pub accepted: bool,
}

/// One chunk of file data.
#[derive(Debug, Clone)]
pub struct FileTransferData {
    /// Index of the chunk, counted from 0.
    pub chunk_index: u64,
    /// The chunk's bytes (up to `CHUNK_SIZE` of them).
    pub data: Vec<u8>,
    /// Whether this is the last chunk.
    pub is_last: bool,
}

/// Notice that a transfer finished.
#[derive(Debug, Clone)]
pub struct FileTransferComplete {
    /// Index of the last chunk received.
    pub last_chunk_index: u64,
}

/// Notice that a transfer was cancelled.
#[derive(Debug, Clone)]
pub struct FileTransferCancel {
    /// Why the transfer was cancelled.
    pub reason: String,
}

/// What went wrong in a transfer.
#[derive(Debug, Clone)]
pub enum FileTransferError {
    InvalidStateTransition,
    InvalidFileSize,
    FileSizeTooLarge,
    IncompleteTransfer,
    UnexpectedChunkIndex { expected: u64, received: u64 },
    ChunkDataTooLarge { size: usize, max: usize },
}

/// An operation on the sending side, as the state machine sees it.
pub enum SenderStep {
    Request,
    Accept,
    /// Finishing, given whether every chunk has been sent.
    Complete { all_sent: bool },
    Cancel,
}

/// Whether the sender accepts `step` in state `s`.
pub open spec fn sender_allows(s: SenderState, step: SenderStep) -> bool {
    match step {
        SenderStep::Request => s == SenderState::Idle,
        SenderStep::Accept => s == SenderState::WaitingAccept,
        SenderStep::Complete { all_sent } => s == SenderState::Sending && all_sent,
        SenderStep::Cancel => true,
    }
}

/// The state that an accepted `step` leads to.
pub open spec fn sender_target(step: SenderStep) -> SenderState {
    match step {
        SenderStep::Request => SenderState::WaitingAccept,
        SenderStep::Accept => SenderState::Sending,
        SenderStep::Complete { .. } => SenderState::Completed,
        SenderStep::Cancel => SenderState::Canceled,
    }
}

/// The sender's state after `step`: a refused step changes nothing.
pub open spec fn sender_step(s: SenderState, step: SenderStep) -> SenderState {
    if sender_allows(s, step) {
        sender_target(step)
    } else {
        s
    }
}

/// The sender's state after a sequence of steps.
pub open spec fn sender_run(s: SenderState, steps: Seq<SenderStep>) -> SenderState
    decreases steps.len(),
{
    if steps.len() == 0 {
        s
    } else {
        sender_step(sender_run(s, steps.drop_last()), steps.last())
    }
}

/// Law: a file is cut into the fewest chunks that hold it. For a file of
/// `size` bytes, every chunk but the last is full and the last is not empty:
/// `(n - 1) * CHUNK_SIZE < size <= n * CHUNK_SIZE` where `n` is the number of
/// chunks, and no file up to `MAX_FILE_SIZE` needs more than 41944 chunks.
pub proof fn law_chunks_cover_file(size: int)
    requires
        0 < size <= MAX_FILE_SIZE,
    ensures
        (chunk_count(size) - 1) * (CHUNK_SIZE as int) < size <= chunk_count(size) * (CHUNK_SIZE as int),
        1 <= chunk_count(size) <= 41944,
{
    let n = chunk_count(size);
    assert(n * 102400 <= size + 102399 < n * 102400 + 102400) by (nonlinear_arith)
        requires
            n == (size + 102399) / 102400,
    ;
}

proof fn lemma_sender_reaches_waiting(steps: Seq<SenderStep>)
    ensures
        sender_run(SenderState::Idle, steps) == SenderState::WaitingAccept ==> exists|i: int|
            0 <= i < steps.len() && #[trigger] steps[i] == SenderStep::Request,
        sender_run(SenderState::Idle, steps) == SenderState::Sending ==> exists|i: int, j: int|
            0 <= i < j < steps.len() && #[trigger] steps[i] == SenderStep::Request && #[trigger] steps[j]
                == SenderStep::Accept,
        sender_run(SenderState::Idle, steps) == SenderState::Completed ==> exists|i: int, j: int, k: int|
            0 <= i < j < k < steps.len() && #[trigger] steps[i] == SenderStep::Request && #[trigger] steps[j]
                == SenderStep::Accept && (#[trigger] steps[k] is Complete),
    decreases steps.len(),
{
    if steps.len() > 0 {
        let prefix = steps.drop_last();
        lemma_sender_reaches_waiting(prefix);
        let before = sender_run(SenderState::Idle, prefix);
        let last = steps.len() - 1;
        assert(steps[last] == steps.last());
        assert forall|i: int| 0 <= i < prefix.len() implies #[trigger] steps[i] == prefix[i] by {}
        if sender_run(SenderState::Idle, steps) == SenderState::WaitingAccept {
            if before == SenderState::WaitingAccept {
                let i = choose|i: int| 0 <= i < prefix.len() && #[trigger] prefix[i] == SenderStep::Request;
                assert(steps[i] == prefix[i]);
            } else {
                assert(steps[last] == SenderStep::Request);
            }
        }
        if sender_run(SenderState::Idle, steps) == SenderState::Sending {
            if before == SenderState::Sending {
                let (i, j) = choose|i: int, j: int|
                    0 <= i < j < prefix.len() && #[trigger] prefix[i] == SenderStep::Request && #[trigger] prefix[j]
                        == SenderStep::Accept;
                assert(steps[i] == prefix[i] && steps[j] == prefix[j]);
            } else {
                let i = choose|i: int| 0 <= i < prefix.len() && #[trigger] prefix[i] == SenderStep::Request;
                assert(steps[i] == prefix[i]);
                assert(steps[last] == SenderStep::Accept);
            }
        }
        if sender_run(SenderState::Idle, steps) == SenderState::Completed {
            if before == SenderState::Completed {
                let (i, j, k) = choose|i: int, j: int, k: int|
                    0 <= i < j < k < prefix.len() && #[trigger] prefix[i] == SenderStep::Request && #[trigger] prefix[j]
                        == SenderStep::Accept && (#[trigger] prefix[k] is Complete);
                assert(steps[i] == prefix[i] && steps[j] == prefix[j] && steps[k] == prefix[k]);
            } else {
                let (i, j) = choose|i: int, j: int|
                    0 <= i < j < prefix.len() && #[trigger] prefix[i] == SenderStep::Request && #[trigger] prefix[j]
                        == SenderStep::Accept;
                assert(steps[i] == prefix[i] && steps[j] == prefix[j]);
                assert(steps[last] is Complete);
            }
        }
    }
}

/// Law: a transfer completes only after it was requested and then accepted.
/// Whatever steps a sender that starts idle goes through, if it ends
/// `Completed`, a request came first, an acceptance after it, and a
/// completion after that.
pub proof fn law_sender_completes_after_request_and_accept(steps: Seq<SenderStep>)
    requires
        sender_run(SenderState::Idle, steps) == SenderState::Completed,
    ensures
        exists|i: int, j: int, k: int|
            0 <= i < j < k < steps.len() && #[trigger] steps[i] == SenderStep::Request && #[trigger] steps[j]
                == SenderStep::Accept && (#[trigger] steps[k] is Complete),
{
    lemma_sender_reaches_waiting(steps);
}

/// Law: an ended transfer stays ended. From `Completed` or `Canceled`, no
/// step leads out of the two ended states.
pub proof fn law_sender_end_is_final(s: SenderState, steps: Seq<SenderStep>)
    requires
        s == SenderState::Completed || s == SenderState::Canceled,
    ensures
        sender_run(s, steps) == SenderState::Completed || sender_run(s, steps) == SenderState::Canceled,
    decreases steps.len(),
{
    if steps.len() > 0 {
        law_sender_end_is_final(s, steps.drop_last());
    }
}

/// An operation on the receiving side, as the state machine sees it.
pub enum ReceiverStep {
    Ready,
    AcceptRequest(FileTransferRequest),
    RejectRequest,
    ReceiveChunk(FileTransferData),
    Complete,
    Cancel,
    TakeData,
}

/// The receiver after `step`. Refused steps change nothing.
pub open spec fn receiver_step(m: (ReceiverState, u64, int, Seq<u8>), step: ReceiverStep) -> (
    ReceiverState,
    u64,
    int,
    Seq<u8>,
) {
    let (state, size, received, data) = m;
    match step {
        ReceiverStep::Ready => (ReceiverState::WaitingRequest, size, received, data),
        ReceiverStep::AcceptRequest(req) => if state == ReceiverState::WaitingRequest && 0 < req.file_size
            <= MAX_FILE_SIZE {
            (ReceiverState::Receiving, req.file_size, 0, Seq::empty())
        } else {
            m
        },
        ReceiverStep::RejectRequest => (ReceiverState::Idle, size, received, data),
        ReceiverStep::ReceiveChunk(chunk) => if state == ReceiverState::Receiving && chunk.chunk_index
            == received && chunk.data@.len() <= CHUNK_SIZE {
            (state, size, received + 1, data + chunk.data@)
        } else {
            m
        },
        ReceiverStep::Complete => if state == ReceiverState::Receiving && received >= chunk_count(
            size as int,
        ) {
            (ReceiverState::Completed, size, received, data)
        } else {
            m
        },
        ReceiverStep::Cancel => (ReceiverState::Canceled, size, received, Seq::empty()),
        ReceiverStep::TakeData => if state == ReceiverState::Completed {
            (state, size, received, Seq::empty())
        } else {
            m
        },
    }
}

/// The receiver after a sequence of steps.
pub open spec fn receiver_run(m: (ReceiverState, u64, int, Seq<u8>), steps: Seq<ReceiverStep>) -> (
    ReceiverState,
    u64,
    int,
    Seq<u8>,
)
    decreases steps.len(),
{
    if steps.len() == 0 {
        m
    } else {
        receiver_step(receiver_run(m, steps.drop_last()), steps.last())
    }
}

/// The steps that deliver `chunks` in turn.
pub open spec fn deliver(chunks: Seq<FileTransferData>) -> Seq<ReceiverStep> {
    chunks.map_values(|c: FileTransferData| ReceiverStep::ReceiveChunk(c))
}

/// The bytes of `chunks`, one after the other.
pub open spec fn chunk_bytes(chunks: Seq<FileTransferData>) -> Seq<u8>
    decreases chunks.len(),
{
    if chunks.len() == 0 {
        Seq::empty()
    } else {
        chunk_bytes(chunks.drop_last()) + chunks.last().data@
    }
}

proof fn lemma_deliver_in_order(m: (ReceiverState, u64, int, Seq<u8>), chunks: Seq<FileTransferData>)
    requires
        m.0 == ReceiverState::Receiving,
        forall|i: int| 0 <= i < chunks.len() ==> #[trigger] chunks[i].chunk_index == m.2 + i,
        forall|i: int| 0 <= i < chunks.len() ==> #[trigger] chunks[i].data@.len() <= CHUNK_SIZE,
    ensures
        receiver_run(m, deliver(chunks)) == (m.0, m.1, m.2 + chunks.len(), m.3 + chunk_bytes(chunks)),
    decreases chunks.len(),
{
    if chunks.len() == 0 {
        assert(m.3 + chunk_bytes(chunks) =~= m.3);
    } else {
        let prefix = chunks.drop_last();
        assert forall|i: int| 0 <= i < prefix.len() implies #[trigger] prefix[i].chunk_index == m.2 + i by {
            assert(prefix[i] == chunks[i]);
        }
        assert forall|i: int| 0 <= i < prefix.len() implies #[trigger] prefix[i].data@.len() <= CHUNK_SIZE by {
            assert(prefix[i] == chunks[i]);
        }
        lemma_deliver_in_order(m, prefix);
        assert(deliver(chunks).drop_last() =~= deliver(prefix));
        assert(deliver(chunks).last() == ReceiverStep::ReceiveChunk(chunks.last()));
        assert(chunks.last() == chunks[chunks.len() - 1]);
        assert(m.3 + chunk_bytes(prefix) + chunks.last().data@ =~= m.3 + chunk_bytes(chunks));
    }
}

/// Law: the file handed out is the chunks received, in order. A receiver
/// waiting for a request that accepts a request for a file, then receives
/// chunks numbered from 0 of at most `CHUNK_SIZE` bytes each, and completes,
/// is complete exactly when it has received all the file's chunks; once it
/// is, taking the data gives the bytes of the chunks one after the other.
/// What earlier transfers left behind plays no part.
pub proof fn law_received_file_is_chunks_in_order(
    m: (ReceiverState, u64, int, Seq<u8>),
    request: FileTransferRequest,
    chunks: Seq<FileTransferData>,
)
    requires
        m.0 == ReceiverState::WaitingRequest,
        0 < request.file_size <= MAX_FILE_SIZE,
        forall|i: int| 0 <= i < chunks.len() ==> #[trigger] chunks[i].chunk_index == i,
        forall|i: int| 0 <= i < chunks.len() ==> #[trigger] chunks[i].data@.len() <= CHUNK_SIZE,
    ensures
        ({
            let accepted = receiver_step(m, ReceiverStep::AcceptRequest(request));
            let filled = receiver_run(accepted, deliver(chunks));
            let done = receiver_step(filled, ReceiverStep::Complete);
            &&& filled.3 == chunk_bytes(chunks)
            &&& (done.0 == ReceiverState::Completed) == (chunks.len() >= chunk_count(
                request.file_size as int,
            ))
            &&& done.3 == chunk_bytes(chunks)
        }),
{
    let accepted = receiver_step(m, ReceiverStep::AcceptRequest(request));
    lemma_deliver_in_order(accepted, chunks);
    assert(Seq::<u8>::empty() + chunk_bytes(chunks) =~= chunk_bytes(chunks));
}

/// Law: a cancelled receiver hands out nothing. After a cancel the received
/// bytes are gone, and taking the data changes nothing until a new request
/// is accepted and completed.
pub proof fn law_cancel_discards_data(m: (ReceiverState, u64, int, Seq<u8>))
    ensures
        ({
            let cancelled = receiver_step(m, ReceiverStep::Cancel);
            &&& cancelled.3 == Seq::<u8>::empty()
            &&& cancelled.0 != ReceiverState::Completed
            &&& receiver_step(cancelled, ReceiverStep::TakeData) == cancelled
        }),
{
}

/// The text with which an error is displayed.
pub open spec fn error_message(e: FileTransferError) -> Seq<char> {
    match e {
        FileTransferError::InvalidStateTransition => "Invalid state transition"@,
        FileTransferError::InvalidFileSize => "Invalid file size"@,
        FileTransferError::FileSizeTooLarge => "File size exceeds maximum (4294967296 bytes)"@,
        FileTransferError::IncompleteTransfer => "Transfer incomplete"@,
        FileTransferError::UnexpectedChunkIndex { expected, received } => "Unexpected chunk index: expected "@
            + decimal(expected as nat) + ", received "@ + decimal(received as nat),
        FileTransferError::ChunkDataTooLarge { size, max } => "Chunk data too large: "@ + decimal(
            size as nat,
        ) + " bytes (max "@ + decimal(max as nat) + ")"@,
    }
}

impl FileTransferError {
    /// The error's display text.
    pub fn to_string(&self) -> (r: String)
        ensures
            r@ == error_message(*self),
    {
        match self {
            FileTransferError::InvalidStateTransition => "Invalid state transition".to_string(),
            FileTransferError::InvalidFileSize => "Invalid file size".to_string(),
            FileTransferError::FileSizeTooLarge => "File size exceeds maximum (4294967296 bytes)".to_string(),
            FileTransferError::IncompleteTransfer => "Transfer incomplete".to_string(),
            FileTransferError::UnexpectedChunkIndex { expected, received } => {
                let mut r = "Unexpected chunk index: expected ".to_string();
                push_decimal(&mut r, *expected);
                r.append(", received ");
                push_decimal(&mut r, *received);
                r
            },
            FileTransferError::ChunkDataTooLarge { size, max } => {
                let mut r = "Chunk data too large: ".to_string();
                push_decimal(&mut r, *size as u64);
                r.append(" bytes (max ");
                push_decimal(&mut r, *max as u64);
                r.append(")");
                r
            },
        }
    }
}

/// A summary of a transfer in progress.
#[derive(Debug, Clone)]
pub struct FileTransferInfo {
    pub direction: TransferDirection,
    pub filename: String,
    pub file_size: u64,
    pub chunks_sent: u64,
    pub total_chunks: u64,
    pub state: String,
}

/// The sending side of a transfer.
pub struct FileTransferSender {
    state: SenderState,
    filename: String,
    file_size: u64,
    chunks_sent: u64,
}

impl FileTransferSender {
    #[verifier::type_invariant]
    spec fn inv(self) -> bool {
        0 < self.file_size <= MAX_FILE_SIZE
    }

    /// The sender's state.
    pub closed spec fn current(self) -> SenderState {
        self.state
    }

    /// Name of the file being sent.
    pub closed spec fn name(self) -> Seq<char> {
        self.filename@
    }

    /// Size of the file being sent.
    pub closed spec fn size(self) -> u64 {
        self.file_size
    }

    /// Number of chunks reported as sent.
    pub closed spec fn sent(self) -> u64 {
        self.chunks_sent
    }

    /// Number of chunks the file is cut into.
    pub open spec fn total(self) -> int {
        chunk_count(self.size() as int)
    }

    /// Whether every chunk has been sent.
    pub open spec fn all_sent(self) -> bool {
        self.sent() >= self.total()
    }

    /// A sender for a file of `file_size` bytes, which must be between 1
    /// byte and `MAX_FILE_SIZE`.
    pub fn new(filename: String, file_size: u64) -> (r: Result<Self, FileTransferError>)
        ensures
            file_size == 0 <==> r matches Err(FileTransferError::InvalidFileSize),
            file_size > MAX_FILE_SIZE <==> r matches Err(FileTransferError::FileSizeTooLarge),
            r matches Ok(s) ==> {
                &&& s.current() == SenderState::Idle
                &&& s.name() == filename@
                &&& s.size() == file_size
                &&& s.sent() == 0
            },
            (0 < file_size <= MAX_FILE_SIZE) <==> r is Ok,
    {
        if file_size == 0 {
            return Err(FileTransferError::InvalidFileSize);
        }
        if file_size > MAX_FILE_SIZE {
            return Err(FileTransferError::FileSizeTooLarge);
        }
        Ok(FileTransferSender { state: SenderState::Idle, filename, file_size, chunks_sent: 0 })
    }

    /// The sender's state.
    pub fn state(&self) -> (s: SenderState)
        ensures
            s == self.current(),
    {
        self.state
    }

    /// Number of chunks the file is cut into.
    pub fn total_chunks(&self) -> (n: u64)
        ensures
            n == self.total(),
            0 < n,
    {
        proof {
            use_type_invariant(self);
        }
        (self.file_size + (CHUNK_SIZE - 1) as u64) / CHUNK_SIZE as u64
    }

    /// Number of chunks still to send (0 once all are sent).
    pub fn remaining_chunks(&self) -> (n: u64)
        ensures
            n == (if self.sent() >= self.total() { 0 } else { self.total() - self.sent() }),
    {
        self.total_chunks().saturating_sub(self.chunks_sent)
    }

    /// Sends the request: allowed only from `Idle`, which becomes
    /// `WaitingAccept`.
    pub fn request(&mut self) -> (r: Result<(), FileTransferError>)
        ensures
            sender_allows(old(self).current(), SenderStep::Request) <==> r is Ok,
            r is Err ==> r matches Err(FileTransferError::InvalidStateTransition),
            final(self).current() == sender_step(old(self).current(), SenderStep::Request),
            final(self).name() == old(self).name(),
            final(self).size() == old(self).size(),
            final(self).sent() == old(self).sent(),
    {
        proof {
            use_type_invariant(&*self);
        }
        if self.state != SenderState::Idle {
            return Err(FileTransferError::InvalidStateTransition);
        }
        self.state = SenderState::WaitingAccept;
        Ok(())
    }

    /// The remote side accepted: allowed only from `WaitingAccept`, which
    /// becomes `Sending`.
    pub fn accept(&mut self) -> (r: Result<(), FileTransferError>)
        ensures
            sender_allows(old(self).current(), SenderStep::Accept) <==> r is Ok,
            r is Err ==> r matches Err(FileTransferError::InvalidStateTransition),
            final(self).current() == sender_step(old(self).current(), SenderStep::Accept),
            final(self).name() == old(self).name(),
            final(self).size() == old(self).size(),
            final(self).sent() == old(self).sent(),
    {
        proof {
            use_type_invariant(&*self);
        }
        if self.state != SenderState::WaitingAccept {
            return Err(FileTransferError::InvalidStateTransition);
        }
        self.state = SenderState::Sending;
        Ok(())
    }

    /// Counts one more chunk as sent.
    pub fn chunk_sent(&mut self)
        requires
            old(self).sent() < u64::MAX,
        ensures
            final(self).sent() == old(self).sent() + 1,
            final(self).current() == old(self).current(),
            final(self).name() == old(self).name(),
            final(self).size() == old(self).size(),
    {
        proof {
            use_type_invariant(&*self);
        }
        self.chunks_sent = self.chunks_sent + 1;
    }

    /// Whether every chunk has been sent.
    pub fn is_complete(&self) -> (b: bool)
        ensures
            b == self.all_sent(),
    {
        self.chunks_sent >= self.total_chunks()
    }

    /// Finishes the transfer: allowed only from `Sending` once every chunk
    /// has been sent.
    pub fn complete(&mut self) -> (r: Result<(), FileTransferError>)
        ensures
            sender_allows(old(self).current(), SenderStep::Complete { all_sent: old(self).all_sent() })
                <==> r is Ok,
            old(self).current() != SenderState::Sending ==> r matches Err(
                FileTransferError::InvalidStateTransition,
            ),
            old(self).current() == SenderState::Sending && !old(self).all_sent() ==> r matches Err(
                FileTransferError::IncompleteTransfer,
            ),
            final(self).current() == sender_step(
                old(self).current(),
                SenderStep::Complete { all_sent: old(self).all_sent() },
            ),
            final(self).name() == old(self).name(),
            final(self).size() == old(self).size(),
            final(self).sent() == old(self).sent(),
    {
        proof {
            use_type_invariant(&*self);
        }
        if self.state != SenderState::Sending {
            return Err(FileTransferError::InvalidStateTransition);
        }
        if !self.is_complete() {
            return Err(FileTransferError::IncompleteTransfer);
        }
        self.state = SenderState::Completed;
        Ok(())
    }

    /// Cancels the transfer, whatever its state.
    pub fn cancel(&mut self)
        ensures
            final(self).current() == sender_step(old(self).current(), SenderStep::Cancel),
            final(self).current() == SenderState::Canceled,
            final(self).name() == old(self).name(),
            final(self).size() == old(self).size(),
            final(self).sent() == old(self).sent(),
    {
        proof {
            use_type_invariant(&*self);
        }
        self.state = SenderState::Canceled;
    }

    /// Whether the transfer has ended, completed or cancelled.
    pub fn is_terminal(&self) -> (b: bool)
        ensures
            b == (self.current() == SenderState::Completed || self.current() == SenderState::Canceled),
    {
        match self.state {
            SenderState::Completed | SenderState::Canceled => true,
            _ => false,
        }
    }

    /// A summary of the transfer.
    pub fn info(&self) -> (i: FileTransferInfo)
        ensures
            i.direction == TransferDirection::Send,
            i.filename@ == self.name(),
            i.file_size == self.size(),
            i.chunks_sent == self.sent(),
            i.total_chunks == self.total(),
            i.state@ == sender_state_name(self.current()),
    {
        FileTransferInfo {
            direction: TransferDirection::Send,
            filename: self.filename.clone(),
            file_size: self.file_size,
            chunks_sent: self.chunks_sent,
            total_chunks: self.total_chunks(),
            state: self.state().to_string(),
        }
    }
}

/// The receiving side of a transfer.
pub struct FileTransferReceiver {
    state: ReceiverState,
    filename: String,
    file_size: u64,
    chunks_received: u64,
    received_data: Vec<u8>,
}

impl FileTransferReceiver {
    /// The receiver's consistency: the file size never exceeds
    /// `MAX_FILE_SIZE`. Every operation keeps it.
    pub closed spec fn wf(self) -> bool {
        self.file_size <= MAX_FILE_SIZE
    }

    /// The receiver's state.
    pub closed spec fn current(self) -> ReceiverState {
        self.state
    }

    /// Name of the file being received.
    pub closed spec fn name(self) -> Seq<char> {
        self.filename@
    }

    /// Size of the file being received.
    pub closed spec fn size(self) -> u64 {
        self.file_size
    }

    /// Number of chunks received.
    pub closed spec fn received(self) -> u64 {
        self.chunks_received
    }

    /// The bytes received so far.
    pub closed spec fn data(self) -> Seq<u8> {
        self.received_data@
    }

    /// The receiver as its state machine sees it: state, file size, chunks
    /// received and bytes received.
    pub open spec fn model(self) -> (ReceiverState, u64, int, Seq<u8>) {
        (self.current(), self.size(), self.received() as int, self.data())
    }

    /// Whether every chunk of the file has been received.
    pub open spec fn all_received(self) -> bool {
        self.received() >= chunk_count(self.size() as int)
    }

    /// An idle receiver with no file and no data.
    pub fn new() -> (r: Self)
        ensures
            r.wf(),
            r.current() == ReceiverState::Idle,
            r.name() == Seq::<char>::empty(),
            r.size() == 0,
            r.received() == 0,
            r.data() == Seq::<u8>::empty(),
    {
        FileTransferReceiver {
            state: ReceiverState::Idle,
            filename: String::new(),
            file_size: 0,
            chunks_received: 0,
            received_data: Vec::new(),
        }
    }

    /// The receiver's state.
    pub fn state(&self) -> (s: ReceiverState)
        ensures
            s == self.current(),
    {
        self.state
    }

    /// Starts waiting for a request, whatever the state.
    pub fn ready(&mut self)
        requires
            old(self).wf(),
        ensures
            final(self).model() == receiver_step(old(self).model(), ReceiverStep::Ready),
            final(self).wf(),
            final(self).current() == ReceiverState::WaitingRequest,
            final(self).name() == old(self).name(),
            final(self).size() == old(self).size(),
            final(self).received() == old(self).received(),
            final(self).data() == old(self).data(),
    {
        self.state = ReceiverState::WaitingRequest;
    }

    /// Accepts a request: allowed only while waiting for one, and only for a
    /// file of 1 byte up to `MAX_FILE_SIZE`. The transfer starts afresh: no
    /// chunk counted and no data received.
    pub fn accept_request(&mut self, request: &FileTransferRequest) -> (r: Result<(), FileTransferError>)
        requires
            old(self).wf(),
        ensures
            final(self).model() == receiver_step(old(self).model(), ReceiverStep::AcceptRequest(*request)),
            final(self).wf(),
            old(self).current() != ReceiverState::WaitingRequest ==> r matches Err(
                FileTransferError::InvalidStateTransition,
            ),
            old(self).current() == ReceiverState::WaitingRequest && request.file_size == 0 ==> r matches Err(
                FileTransferError::InvalidFileSize,
            ),
            old(self).current() == ReceiverState::WaitingRequest && request.file_size > MAX_FILE_SIZE ==> r matches Err(
                FileTransferError::FileSizeTooLarge,
            ),
            (old(self).current() == ReceiverState::WaitingRequest && 0 < request.file_size <= MAX_FILE_SIZE)
                <==> r is Ok,
            r is Ok ==> {
                &&& final(self).current() == ReceiverState::Receiving
                &&& final(self).name() == request.filename@
                &&& final(self).size() == request.file_size
                &&& final(self).received() == 0
                &&& final(self).data() == Seq::<u8>::empty()
            },
            r is Err ==> {
                &&& final(self).current() == old(self).current()
                &&& final(self).name() == old(self).name()
                &&& final(self).size() == old(self).size()
                &&& final(self).received() == old(self).received()
                &&& final(self).data() == old(self).data()
            },
    {
        if self.state != ReceiverState::WaitingRequest {
            return Err(FileTransferError::InvalidStateTransition);
        }
        if request.file_size == 0 {
            return Err(FileTransferError::InvalidFileSize);
        }
        if request.file_size > MAX_FILE_SIZE {
            return Err(FileTransferError::FileSizeTooLarge);
        }
        self.filename = request.filename.clone();
        self.file_size = request.file_size;
        self.chunks_received = 0;
        self.received_data = Vec::with_capacity(request.file_size as usize);
        self.state = ReceiverState::Receiving;
        Ok(())
    }

    /// Rejects a request: back to `Idle`, whatever the state.
    pub fn reject_request(&mut self)
        requires
            old(self).wf(),
        ensures
            final(self).model() == receiver_step(old(self).model(), ReceiverStep::RejectRequest),
            final(self).wf(),
            final(self).current() == ReceiverState::Idle,
            final(self).name() == old(self).name(),
            final(self).size() == old(self).size(),
            final(self).received() == old(self).received(),
            final(self).data() == old(self).data(),
    {
        self.state = ReceiverState::Idle;
    }

    /// Receives a chunk: taken only while receiving, only when its index is
    /// the number of chunks received so far, and only when it holds at most
    /// `CHUNK_SIZE` bytes, the conditions being checked in that order. Its
    /// bytes are appended to the received data.
    pub fn receive_chunk(&mut self, chunk: &FileTransferData) -> (r: Result<(), FileTransferError>)
        requires
            old(self).wf(),
            old(self).current() == ReceiverState::Receiving && chunk.chunk_index == old(self).received()
                ==> old(self).received() < u64::MAX,
        ensures
            final(self).model() == receiver_step(old(self).model(), ReceiverStep::ReceiveChunk(*chunk)),
            final(self).wf(),
            old(self).current() != ReceiverState::Receiving ==> r matches Err(
                FileTransferError::InvalidStateTransition,
            ),
            old(self).current() == ReceiverState::Receiving && chunk.chunk_index == old(self).received()
                && chunk.data@.len() > CHUNK_SIZE ==> r == Err::<(), FileTransferError>(
                FileTransferError::ChunkDataTooLarge { size: chunk.data@.len() as usize, max: CHUNK_SIZE },
            ),
            old(self).current() == ReceiverState::Receiving && chunk.chunk_index != old(self).received() ==> r
                == Err::<(), FileTransferError>(
                FileTransferError::UnexpectedChunkIndex {
                    expected: old(self).received(),
                    received: chunk.chunk_index,
                },
            ),
            (old(self).current() == ReceiverState::Receiving && chunk.chunk_index == old(self).received()
                && chunk.data@.len() <= CHUNK_SIZE) <==> r is Ok,
            r is Ok ==> {
                &&& final(self).data() == old(self).data() + chunk.data@
                &&& final(self).received() == old(self).received() + 1
            },
            r is Err ==> {
                &&& final(self).data() == old(self).data()
                &&& final(self).received() == old(self).received()
            },
            final(self).current() == old(self).current(),
            final(self).name() == old(self).name(),
            final(self).size() == old(self).size(),
    {
        if self.state != ReceiverState::Receiving {
            return Err(FileTransferError::InvalidStateTransition);
        }
        let expected_index = self.chunks_received;
        if chunk.chunk_index != expected_index {
            return Err(
                FileTransferError::UnexpectedChunkIndex {
                    expected: expected_index,
                    received: chunk.chunk_index,
                },
            );
        }
        let size = chunk.data.len();
        if size > CHUNK_SIZE {
            return Err(FileTransferError::ChunkDataTooLarge { size, max: CHUNK_SIZE });
        }
        let ghost before = self.received_data@;
        self.received_data.extend_from_slice(chunk.data.as_slice());
        proof {
            assert forall|i: int| 0 <= i < self.received_data@.len() implies self.received_data@[i] == (before
                + chunk.data@)[i] by {
                if i >= before.len() {
                    assert(chunk.data@[i - before.len()] == self.received_data@[i]);
                }
            }
            assert(self.received_data@ =~= before + chunk.data@);
        }
        self.chunks_received = self.chunks_received + 1;
        Ok(())
    }

    /// Whether every chunk of the file has been received.
    pub fn is_complete(&self) -> (b: bool)
        requires
            self.wf(),
        ensures
            b == self.all_received(),
    {
        let expected_chunks = (self.file_size + (CHUNK_SIZE - 1) as u64) / CHUNK_SIZE as u64;
        self.chunks_received >= expected_chunks
    }

    /// Finishes the transfer: allowed only while receiving, once every chunk
    /// has been received.
    pub fn complete(&mut self) -> (r: Result<(), FileTransferError>)
        requires
            old(self).wf(),
        ensures
            final(self).model() == receiver_step(old(self).model(), ReceiverStep::Complete),
            final(self).wf(),
            (old(self).current() == ReceiverState::Receiving && old(self).all_received()) <==> r is Ok,
            old(self).current() != ReceiverState::Receiving ==> r matches Err(
                FileTransferError::InvalidStateTransition,
            ),
            old(self).current() == ReceiverState::Receiving && !old(self).all_received() ==> r matches Err(
                FileTransferError::IncompleteTransfer,
            ),
            final(self).current() == (if r is Ok { ReceiverState::Completed } else { old(self).current() }),
            final(self).name() == old(self).name(),
            final(self).size() == old(self).size(),
            final(self).received() == old(self).received(),
            final(self).data() == old(self).data(),
    {
        if self.state != ReceiverState::Receiving {
            return Err(FileTransferError::InvalidStateTransition);
        }
        if !self.is_complete() {
            return Err(FileTransferError::IncompleteTransfer);
        }
        self.state = ReceiverState::Completed;
        Ok(())
    }

    /// Cancels the transfer, whatever its state, and discards the data
    /// received.
    pub fn cancel(&mut self)
        requires
            old(self).wf(),
        ensures
            final(self).model() == receiver_step(old(self).model(), ReceiverStep::Cancel),
            final(self).wf(),
            final(self).current() == ReceiverState::Canceled,
            final(self).data() == Seq::<u8>::empty(),
            final(self).name() == old(self).name(),
            final(self).size() == old(self).size(),
            final(self).received() == old(self).received(),
    {
        self.received_data.clear();
        self.received_data = Vec::new();
        self.state = ReceiverState::Canceled;
    }

    /// Whether the transfer has ended, completed or cancelled.
    pub fn is_terminal(&self) -> (b: bool)
        ensures
            b == (self.current() == ReceiverState::Completed || self.current() == ReceiverState::Canceled),
    {
        match self.state {
            ReceiverState::Completed | ReceiverState::Canceled => true,
            _ => false,
        }
    }

    /// Hands out the received file once the transfer has completed, leaving
    /// the receiver's data empty; before that returns `None`.
    pub fn take_data(&mut self) -> (r: Option<Vec<u8>>)
        requires
            old(self).wf(),
        ensures
            final(self).model() == receiver_step(old(self).model(), ReceiverStep::TakeData),
            final(self).wf(),
            old(self).current() == ReceiverState::Completed <==> r is Some,
            r matches Some(d) ==> d@ == old(self).data() && final(self).data() == Seq::<u8>::empty(),
            r is None ==> final(self).data() == old(self).data(),
            final(self).current() == old(self).current(),
            final(self).name() == old(self).name(),
            final(self).size() == old(self).size(),
            final(self).received() == old(self).received(),
    {
        if self.state == ReceiverState::Completed {
            let mut taken: Vec<u8> = Vec::new();
            std::mem::swap(&mut taken, &mut self.received_data);
            Some(taken)
        } else {
            None
        }
    }

    /// A summary of the transfer; `chunks_sent` counts the chunks received.
    pub fn info(&self) -> (i: FileTransferInfo)
        requires
            self.wf(),
        ensures
            i.direction == TransferDirection::Receive,
            i.filename@ == self.name(),
            i.file_size == self.size(),
            i.chunks_sent == self.received(),
            i.total_chunks == chunk_count(self.size() as int),
            i.state@ == receiver_state_name(self.current()),
    {
        FileTransferInfo {
            direction: TransferDirection::Receive,
            filename: self.filename.clone(),
            file_size: self.file_size,
            chunks_sent: self.chunks_received,
            total_chunks: (self.file_size + (CHUNK_SIZE - 1) as u64) / CHUNK_SIZE as u64,
            state: self.state().to_string(),
        }
    }
}

} // verus!
