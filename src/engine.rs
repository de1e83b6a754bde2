//! The decisions of the download engine. Each item runs through a state
//! machine that is fed what the outside world did (the local file was
//! checked, the server answered, a chunk arrived) and answers with what to do
//! next and which progress event to emit. A pool bounds how many items are
//! in flight and keeps the first error by completion order.

use vstd::prelude::*;
use crate::planner::{Item, ItemView};
use crate::integrity::IntegrityCheckError;
use crate::text::copy_text;

verus! {

/// Why an item's download did not complete.
#[derive(Debug, Clone, Copy, PartialEq, Eq, Structural)]
pub enum DownloadError {
    /// The file system failed.
    Io,
    /// The transfer failed.
    Network,
    /// The expected hash could not be read.
    Integrity,
    /// The progress sink was dropped.
    ChannelClosed,
    /// The shared cancellation handle was signalled.
    Cancelled,
}

/// What was found at an item's destination before downloading it.
#[derive(Debug, Clone, Copy, PartialEq, Eq, Structural)]
pub enum LocalFile {
    /// A file whose content hashes to the expected hash.
    Matches,
    /// A file whose content does not.
    Differs,
    /// No file.
    Missing,
}

/// Where an item stands.
#[derive(Debug, Clone, Copy, PartialEq, Eq, Structural)]
pub enum ItemPhase {
    Queued,
    Checking,
    Requesting,
    Streaming,
    Finished,
    Failed,
}

/// The state of one item's download.
#[derive(Debug, Clone, Copy, PartialEq, Eq, Structural)]
pub struct ItemState {
    pub phase: ItemPhase,
    /// Whether the item carries an expected hash.
    pub has_sha: bool,
    pub known_size: Option<u64>,
    /// The expected total, once the server has answered.
    pub total: Option<u64>,
    /// The bytes written so far.
    pub written: u64,
}

/// What happened to an item.
#[derive(Debug, Clone, Copy, PartialEq, Eq, Structural)]
pub enum ItemEvent {
    /// A worker took the item; `cancelled` is the handle's state then.
    Dispatched { cancelled: bool },
    /// The local file was examined.
    LocalChecked(LocalFile),
    /// The server answered, with a content length if it sent one.
    Responded { content_length: Option<u64> },
    /// A chunk arrived; `cancelled` is the handle's state then.
    ChunkReceived { len: u64, cancelled: bool },
    /// The body ended.
    StreamEnded,
    /// An outside step failed.
    Failed(DownloadError),
}

/// What to do next for an item.
#[derive(Debug, Clone, Copy, PartialEq, Eq, Structural)]
pub enum ItemAction {
    /// End the item with this error before it started; emit nothing.
    Abort(DownloadError),
    /// Emit `Start`, then examine the local file.
    StartAndCheck,
    /// Emit `Start`, then send the request.
    StartAndRequest,
    /// Send the request.
    Request,
    /// Create the parent directories and the file, then read the body.
    OpenAndStream,
    /// Append the chunk to the file and emit `Chunk`.
    WriteChunk { size: u64, progress: u64, total: Option<u64> },
    /// Emit `Finish`; the item is done.
    Finish,
    /// Emit `Error`; the item is over.
    Fail(DownloadError),
    /// The item is over; the event changes nothing.
    Ignore,
}

/// A progress event.
#[derive(Debug, Clone)]
pub enum DownloadEvent {
    Start { item: Item },
    Chunk { path: String, size: u64, total: Option<u64>, progress: u64 },
    Finish { item: Item },
    Error { item: Item, error: DownloadError },
}

impl ItemState {
    /// The state of an item not yet taken by a worker.
    pub open spec fn queued(has_sha: bool, known_size: Option<u64>) -> ItemState {
        ItemState { phase: ItemPhase::Queued, has_sha, known_size, total: None, written: 0 }
    }

    /// Whether the item is over.
    pub open spec fn is_over(self) -> bool {
        self.phase == ItemPhase::Finished || self.phase == ItemPhase::Failed
    }

    /// The state and action that follow an event.
    pub open spec fn next(self, e: ItemEvent) -> (ItemState, ItemAction) {
        let failed = ItemState { phase: ItemPhase::Failed, ..self };
        if self.is_over() {
            (self, ItemAction::Ignore)
        } else {
            match e {
                ItemEvent::Failed(err) => if self.phase == ItemPhase::Queued {
                    (failed, ItemAction::Abort(err))
                } else {
                    (failed, ItemAction::Fail(err))
                },
                ItemEvent::Dispatched { cancelled } => if self.phase != ItemPhase::Queued {
                    (failed, ItemAction::Fail(DownloadError::Io))
                } else if cancelled {
                    (failed, ItemAction::Abort(DownloadError::Cancelled))
                } else if self.has_sha {
                    (ItemState { phase: ItemPhase::Checking, ..self }, ItemAction::StartAndCheck)
                } else {
                    (ItemState { phase: ItemPhase::Requesting, ..self }, ItemAction::StartAndRequest)
                },
                ItemEvent::LocalChecked(found) => if self.phase != ItemPhase::Checking {
                    (failed, ItemAction::Fail(DownloadError::Io))
                } else if found == LocalFile::Matches {
                    (ItemState { phase: ItemPhase::Finished, ..self }, ItemAction::Finish)
                } else {
                    (ItemState { phase: ItemPhase::Requesting, ..self }, ItemAction::Request)
                },
                ItemEvent::Responded { content_length } => if self.phase != ItemPhase::Requesting {
                    (failed, ItemAction::Fail(DownloadError::Io))
                } else {
                    (
                        ItemState {
                            phase: ItemPhase::Streaming,
                            total: match content_length {
                                Some(n) => Some(n),
                                None => self.known_size,
                            },
                            ..self
                        },
                        ItemAction::OpenAndStream,
                    )
                },
                ItemEvent::ChunkReceived { len, cancelled } => if self.phase
                    != ItemPhase::Streaming {
                    (failed, ItemAction::Fail(DownloadError::Io))
                } else if cancelled {
                    (failed, ItemAction::Fail(DownloadError::Cancelled))
                } else if self.written + len > u64::MAX {
                    (failed, ItemAction::Fail(DownloadError::Io))
                } else {
                    let progress = (self.written + len) as u64;
                    (
                        ItemState { written: progress, ..self },
                        ItemAction::WriteChunk { size: len, progress, total: self.total },
                    )
                },
                ItemEvent::StreamEnded => if self.phase != ItemPhase::Streaming {
                    (failed, ItemAction::Fail(DownloadError::Io))
                } else {
                    (ItemState { phase: ItemPhase::Finished, ..self }, ItemAction::Finish)
                },
            }
        }
    }

    /// The state of an item not yet taken by a worker.
    pub fn new(has_sha: bool, known_size: Option<u64>) -> (r: ItemState)
        ensures
            r == ItemState::queued(has_sha, known_size),
    {
        ItemState { phase: ItemPhase::Queued, has_sha, known_size, total: None, written: 0 }
    }

    /// The state of `item` before a worker takes it.
    pub fn for_item(item: &Item) -> (r: ItemState)
        ensures
            r == ItemState::queued(item.known_sha is Some, item.known_size),
    {
        ItemState::new(item.known_sha.is_some(), item.known_size)
    }

    /// Takes in an event and says what to do next.
    pub fn step(&mut self, e: ItemEvent) -> (r: ItemAction)
        ensures
            (*final(self), r) == old(self).next(e),
    {
        let s = *self;
        if s.phase == ItemPhase::Finished || s.phase == ItemPhase::Failed {
            return ItemAction::Ignore;
        }
        let failed = ItemState { phase: ItemPhase::Failed, ..s };
        let (n, a) = match e {
            ItemEvent::Failed(err) => if s.phase == ItemPhase::Queued {
                (failed, ItemAction::Abort(err))
            } else {
                (failed, ItemAction::Fail(err))
            },
            ItemEvent::Dispatched { cancelled } => if s.phase != ItemPhase::Queued {
                (failed, ItemAction::Fail(DownloadError::Io))
            } else if cancelled {
                (failed, ItemAction::Abort(DownloadError::Cancelled))
            } else if s.has_sha {
                (ItemState { phase: ItemPhase::Checking, ..s }, ItemAction::StartAndCheck)
            } else {
                (ItemState { phase: ItemPhase::Requesting, ..s }, ItemAction::StartAndRequest)
            },
            ItemEvent::LocalChecked(found) => if s.phase != ItemPhase::Checking {
                (failed, ItemAction::Fail(DownloadError::Io))
            } else if found == LocalFile::Matches {
                (ItemState { phase: ItemPhase::Finished, ..s }, ItemAction::Finish)
            } else {
                (ItemState { phase: ItemPhase::Requesting, ..s }, ItemAction::Request)
            },
            ItemEvent::Responded { content_length } => if s.phase != ItemPhase::Requesting {
                (failed, ItemAction::Fail(DownloadError::Io))
            } else {
                let total = match content_length {
                    Some(n) => Some(n),
                    None => s.known_size,
                };
                (ItemState { phase: ItemPhase::Streaming, total, ..s }, ItemAction::OpenAndStream)
            },
            ItemEvent::ChunkReceived { len, cancelled } => if s.phase != ItemPhase::Streaming {
                (failed, ItemAction::Fail(DownloadError::Io))
            } else if cancelled {
                (failed, ItemAction::Fail(DownloadError::Cancelled))
            } else if len > u64::MAX - s.written {
                (failed, ItemAction::Fail(DownloadError::Io))
            } else {
                let progress = s.written + len;
                (
                    ItemState { written: progress, ..s },
                    ItemAction::WriteChunk { size: len, progress, total: s.total },
                )
            },
            ItemEvent::StreamEnded => if s.phase != ItemPhase::Streaming {
                (failed, ItemAction::Fail(DownloadError::Io))
            } else {
                (ItemState { phase: ItemPhase::Finished, ..s }, ItemAction::Finish)
            },
        };
        *self = n;
        a
    }
}

/// A copy of an item.
pub fn duplicate(item: &Item) -> (r: Item)
    ensures
        r@ == item@,
{
    Item {
        kind: item.kind,
        url: copy_text(item.url.as_str()),
        path: copy_text(item.path.as_str()),
        known_size: item.known_size,
        known_sha: match &item.known_sha {
            Some(s) => Some(copy_text(s.as_str())),
            None => None,
        },
    }
}

/// The event that an action emits for an item, as plain values.
pub open spec fn emitted(a: ItemAction, item: ItemView, e: Option<DownloadEvent>) -> bool {
    match a {
        ItemAction::StartAndCheck | ItemAction::StartAndRequest => e is Some && e->Some_0 is Start
            && e->Some_0->Start_item@ == item,
        ItemAction::WriteChunk { size, progress, total } => e is Some && e->Some_0 is Chunk
            && e->Some_0->Chunk_path@ == item.path && e->Some_0->Chunk_size == size
            && e->Some_0->Chunk_progress == progress && e->Some_0->Chunk_total == total,
        ItemAction::Finish => e is Some && e->Some_0 is Finish && e->Some_0->Finish_item@ == item,
        ItemAction::Fail(err) => e is Some && e->Some_0 is Error && e->Some_0->Error_item@ == item
            && e->Some_0->Error_error == err,
        _ => e is None,
    }
}

impl ItemAction {
    /// The progress event this action emits for `item`, if any.
    pub fn event(&self, item: &Item) -> (r: Option<DownloadEvent>)
        ensures
            emitted(*self, item@, r),
    {
        match self {
            ItemAction::StartAndCheck | ItemAction::StartAndRequest => Some(
                DownloadEvent::Start { item: duplicate(item) },
            ),
            ItemAction::WriteChunk { size, progress, total } => Some(
                DownloadEvent::Chunk {
                    path: copy_text(item.path.as_str()),
                    size: *size,
                    total: *total,
                    progress: *progress,
                },
            ),
            ItemAction::Finish => Some(DownloadEvent::Finish { item: duplicate(item) }),
            ItemAction::Fail(err) => Some(DownloadEvent::Error { item: duplicate(item), error: *err }),
            _ => None,
        }
    }
}

/// What an integrity check of an existing file says about it.
pub open spec fn local_outcome(r: Result<bool, IntegrityCheckError>) -> ItemEvent {
    match r {
        Ok(true) => ItemEvent::LocalChecked(LocalFile::Matches),
        Ok(false) => ItemEvent::LocalChecked(LocalFile::Differs),
        Err(IntegrityCheckError::Io) => ItemEvent::Failed(DownloadError::Io),
        Err(IntegrityCheckError::ParseInt) => ItemEvent::Failed(DownloadError::Integrity),
    }
}

/// The event that the integrity check of an existing file gives: a match, a
/// mismatch, or the failure that ends the item.
pub fn local_event(r: Result<bool, IntegrityCheckError>) -> (e: ItemEvent)
    ensures
        e == local_outcome(r),
{
    match r {
        Ok(true) => ItemEvent::LocalChecked(LocalFile::Matches),
        Ok(false) => ItemEvent::LocalChecked(LocalFile::Differs),
        Err(IntegrityCheckError::Io) => ItemEvent::Failed(DownloadError::Io),
        Err(IntegrityCheckError::ParseInt) => ItemEvent::Failed(DownloadError::Integrity),
    }
}

/// An item whose destination already holds content with the expected hash
/// is started and finished without a request: dispatching it asks for the
/// local check, and a match finishes it.
pub proof fn lemma_local_match_skips_network(known_size: Option<u64>)
    ensures
        ({
            let s0 = ItemState::queued(true, known_size);
            let (s1, a1) = s0.next(ItemEvent::Dispatched { cancelled: false });
            let (s2, a2) = s1.next(ItemEvent::LocalChecked(LocalFile::Matches));
            &&& a1 == ItemAction::StartAndCheck
            &&& a2 == ItemAction::Finish
            &&& s2.phase == ItemPhase::Finished
            &&& forall|e: ItemEvent| #[trigger] s2.next(e).1 == ItemAction::Ignore
        }),
{
}

/// Cancellation seen at a chunk ends the item with `Cancelled`, and no
/// later event writes or reports another chunk.
pub proof fn lemma_cancel_stops_chunks(s: ItemState, len: u64)
    requires
        s.phase == ItemPhase::Streaming,
    ensures
        ({
            let (s1, a1) = s.next(ItemEvent::ChunkReceived { len, cancelled: true });
            &&& a1 == ItemAction::Fail(DownloadError::Cancelled)
            &&& s1.is_over()
            &&& forall|e: ItemEvent| #[trigger] s1.next(e) == (s1, ItemAction::Ignore)
        }),
{
}

/// The state after chunks of the given lengths arrive, none cancelled.
pub open spec fn after_chunks(s: ItemState, lens: Seq<u64>) -> ItemState
    decreases lens.len(),
{
    if lens.len() == 0 {
        s
    } else {
        after_chunks(s, lens.drop_last()).next(
            ItemEvent::ChunkReceived { len: lens.last(), cancelled: false },
        ).0
    }
}

/// The total of some chunk lengths.
pub open spec fn sum_lens(lens: Seq<u64>) -> int
    decreases lens.len(),
{
    if lens.len() == 0 {
        0
    } else {
        sum_lens(lens.drop_last()) + lens.last()
    }
}

proof fn lemma_chunks_accumulate(s: ItemState, lens: Seq<u64>)
    requires
        s.phase == ItemPhase::Streaming,
        s.written + sum_lens(lens) <= u64::MAX,
    ensures
        after_chunks(s, lens) == (ItemState { written: (s.written + sum_lens(lens)) as u64, ..s }),
    decreases lens.len(),
{
    if lens.len() > 0 {
        lemma_sum_nonneg(lens.drop_last());
        lemma_chunks_accumulate(s, lens.drop_last());
    }
}

proof fn lemma_sum_nonneg(lens: Seq<u64>)
    ensures
        sum_lens(lens) >= 0,
    decreases lens.len(),
{
    if lens.len() > 0 {
        lemma_sum_nonneg(lens.drop_last());
    }
}

/// An item whose destination holds content with another hash is fetched
/// again in full: after a mismatch it is requested, and when the chunks of
/// the body add up to the announced length it finishes with that many bytes
/// written, equal to its total.
pub proof fn lemma_mismatch_downloads_in_full(known_size: Option<u64>, length: u64, lens: Seq<u64>)
    requires
        sum_lens(lens) == length,
    ensures
        ({
            let s0 = ItemState::queued(true, known_size);
            let (s1, a1) = s0.next(ItemEvent::Dispatched { cancelled: false });
            let (s2, a2) = s1.next(ItemEvent::LocalChecked(LocalFile::Differs));
            let (s3, a3) = s2.next(ItemEvent::Responded { content_length: Some(length) });
            let s4 = after_chunks(s3, lens);
            let (s5, a5) = s4.next(ItemEvent::StreamEnded);
            &&& a1 == ItemAction::StartAndCheck
            &&& a2 == ItemAction::Request
            &&& a3 == ItemAction::OpenAndStream
            &&& a5 == ItemAction::Finish
            &&& s5.phase == ItemPhase::Finished
            &&& s5.written == length
            &&& s5.total == Some(length)
        }),
{
    let s0 = ItemState::queued(true, known_size);
    let (s1, a1) = s0.next(ItemEvent::Dispatched { cancelled: false });
    let (s2, a2) = s1.next(ItemEvent::LocalChecked(LocalFile::Differs));
    let (s3, a3) = s2.next(ItemEvent::Responded { content_length: Some(length) });
    lemma_chunks_accumulate(s3, lens);
}

/// An item dispatched after cancellation ends with `Cancelled` and emits no
/// `Start`.
pub proof fn lemma_cancel_before_start(has_sha: bool, known_size: Option<u64>)
    ensures
        ItemState::queued(has_sha, known_size).next(ItemEvent::Dispatched { cancelled: true }).1
            == ItemAction::Abort(DownloadError::Cancelled),
{
}

/// The worker pool of one run: which items were handed out, how many are in
/// flight, and the first error by completion order.
#[derive(Debug, Clone, Copy, PartialEq, Eq, Structural)]
pub struct Pool {
    pub limit: usize,
    pub total: usize,
    pub dispatched: usize,
    pub in_flight: usize,
    pub completed: usize,
    pub first_error: Option<DownloadError>,
}

/// How a run ends, once it has.
#[derive(Debug, Clone, Copy, PartialEq, Eq, Structural)]
pub enum RunOutcome {
    Done,
    Error(DownloadError),
}

impl Pool {
    /// The pool's counters agree with one another.
    pub open spec fn wf(self) -> bool {
        &&& self.limit > 0
        &&& self.dispatched <= self.total
        &&& self.in_flight <= self.limit
        &&& self.completed + self.in_flight == self.dispatched
    }

    /// A pool for `total` items with at most `limit` in flight.
    pub fn new(total: usize, limit: usize) -> (r: Pool)
        requires
            limit > 0,
        ensures
            r.wf(),
            r == (Pool { limit, total, dispatched: 0, in_flight: 0, completed: 0, first_error: None }),
    {
        Pool { limit, total, dispatched: 0, in_flight: 0, completed: 0, first_error: None }
    }

    /// Hands out the next queued item, by its index, where a slot is free
    /// and no error has been seen.
    pub fn next_item(&mut self) -> (r: Option<usize>)
        requires
            old(self).wf(),
        ensures
            final(self).wf(),
            if old(self).in_flight < old(self).limit && old(self).dispatched < old(self).total
                && old(self).first_error is None {
                &&& r == Some(old(self).dispatched)
                &&& *final(self) == (Pool {
                    dispatched: (old(self).dispatched + 1) as usize,
                    in_flight: (old(self).in_flight + 1) as usize,
                    ..*old(self)
                })
            } else {
                r is None && *final(self) == *old(self)
            },
    {
        if self.in_flight < self.limit && self.dispatched < self.total && self.first_error.is_none() {
            let i = self.dispatched;
            self.dispatched = self.dispatched + 1;
            self.in_flight = self.in_flight + 1;
            Some(i)
        } else {
            None
        }
    }

    /// Records that an item in flight ended, keeping the first error.
    pub fn complete(&mut self, outcome: Result<(), DownloadError>)
        requires
            old(self).wf(),
            old(self).in_flight > 0,
        ensures
            final(self).wf(),
            *final(self) == (Pool {
                in_flight: (old(self).in_flight - 1) as usize,
                completed: (old(self).completed + 1) as usize,
                first_error: match old(self).first_error {
                    Some(e) => Some(e),
                    None => match outcome {
                        Ok(()) => None,
                        Err(e) => Some(e),
                    },
                },
                ..*old(self)
            }),
    {
        self.in_flight = self.in_flight - 1;
        self.completed = self.completed + 1;
        if self.first_error.is_none() {
            if let Err(e) = outcome {
                self.first_error = Some(e);
            }
        }
    }

    /// How the run ends: with the first error as soon as one is seen, with
    /// success once every item completed; `None` while it goes on.
    pub fn outcome(&self) -> (r: Option<RunOutcome>)
        ensures
            r == match self.first_error {
                Some(e) => Some(RunOutcome::Error(e)),
                None => if self.completed == self.total {
                    Some(RunOutcome::Done)
                } else {
                    None
                },
            },
    {
        match self.first_error {
            Some(e) => Some(RunOutcome::Error(e)),
            None => if self.completed == self.total {
                Some(RunOutcome::Done)
            } else {
                None
            },
        }
    }
}

} // verus!
