//! The stream ingestion engine: takes the chunks of one upload in order,
//! says which bytes to write to the temporary file and when, and stops the
//! upload as soon as a size cap is exceeded.

use crate::error::ServiceError;
use vstd::prelude::*;

verus! {

/// Pending bytes are handed out for writing once there are this many.
pub const FLUSH_BYTES: usize = 8192;

/// Mathematical model of an ingestion in progress.
pub struct IngestState {
    /// Cap on the size of this file.
    pub max_file: nat,
    /// Cap on the size of the whole request.
    pub max_request: nat,
    /// Size of the files of the request that were ingested before this one.
    pub earlier: nat,
    /// Bytes taken in so far.
    pub received: nat,
    /// Bytes taken in and not yet handed out for writing.
    pub pending: Seq<u8>,
    /// A cap was exceeded: nothing of the file may remain.
    pub aborted: bool,
}

impl IngestState {
    /// An ingestion that has taken in nothing.
    pub open spec fn start(max_file: nat, max_request: nat, earlier: nat) -> IngestState {
        IngestState {
            max_file,
            max_request,
            earlier,
            received: 0,
            pending: Seq::empty(),
            aborted: false,
        }
    }

    /// Whether `more` further bytes would exceed the cap on the file or the
    /// cap on the request.
    pub open spec fn exceeds(self, more: nat) -> bool {
        self.received + more > self.max_file || self.earlier + self.received + more
            > self.max_request
    }

    /// Whether taking in `chunk` ends with the pending bytes handed out.
    pub open spec fn flushes(self, chunk: Seq<u8>) -> bool {
        !self.aborted && !self.exceeds(chunk.len()) && self.pending.len() + chunk.len()
            >= FLUSH_BYTES
    }

    /// The state after `chunk` is taken in.
    pub open spec fn accept(self, chunk: Seq<u8>) -> IngestState {
        if self.aborted || self.exceeds(chunk.len()) {
            IngestState { pending: Seq::empty(), aborted: true, ..self }
        } else {
            IngestState {
                received: self.received + chunk.len(),
                pending: if self.flushes(chunk) {
                    Seq::empty()
                } else {
                    self.pending + chunk
                },
                ..self
            }
        }
    }

    /// The bytes handed out for writing when `chunk` is taken in.
    pub open spec fn output(self, chunk: Seq<u8>) -> Seq<u8> {
        if self.flushes(chunk) {
            self.pending + chunk
        } else {
            Seq::empty()
        }
    }

    /// The state after a sequence of chunks is taken in, in order.
    pub open spec fn run(self, chunks: Seq<Seq<u8>>) -> IngestState
        decreases chunks.len(),
    {
        if chunks.len() == 0 {
            self
        } else {
            self.run(chunks.drop_last()).accept(chunks.last())
        }
    }

    /// All the bytes handed out for writing while a sequence of chunks is
    /// taken in.
    pub open spec fn written(self, chunks: Seq<Seq<u8>>) -> Seq<u8>
        decreases chunks.len(),
    {
        if chunks.len() == 0 {
            Seq::empty()
        } else {
            self.written(chunks.drop_last()) + self.run(chunks.drop_last()).output(chunks.last())
        }
    }
}

/// The chunks of a sequence, joined in order.
pub open spec fn joined(chunks: Seq<Seq<u8>>) -> Seq<u8>
    decreases chunks.len(),
{
    if chunks.len() == 0 {
        Seq::empty()
    } else {
        joined(chunks.drop_last()) + chunks.last()
    }
}

/// What the caller does after a chunk was taken in.
#[derive(Debug)]
pub enum IngestStep {
    /// Nothing: the chunk is kept pending.
    Buffered,
    /// Append these bytes to the temporary file.
    Flush(Vec<u8>),
    /// A cap was exceeded: delete the temporary file and fail the upload.
    Abort,
}

/// The ingestion of one file.
pub struct Ingestion {
    max_file: u64,
    max_request: u64,
    earlier: u64,
    received: u64,
    buffer: Vec<u8>,
    aborted: bool,
}

impl View for Ingestion {
    type V = IngestState;

    closed spec fn view(&self) -> IngestState {
        IngestState {
            max_file: self.max_file as nat,
            max_request: self.max_request as nat,
            earlier: self.earlier as nat,
            received: self.received as nat,
            pending: self.buffer@,
            aborted: self.aborted,
        }
    }
}

impl Ingestion {
    /// Begins the ingestion of one file of at most `max_file` bytes, in a
    /// request of at most `max_request` bytes of which `earlier` are used up
    /// by the files before it.
    pub fn new(max_file: u64, max_request: u64, earlier: u64) -> (ingestion: Ingestion)
        ensures
            ingestion@ == IngestState::start(max_file as nat, max_request as nat, earlier as nat),
    {
        Ingestion { max_file, max_request, earlier, received: 0, buffer: Vec::new(), aborted: false }
    }

    /// The bytes taken in so far.
    pub fn received(&self) -> (bytes: u64)
        ensures
            bytes == self@.received,
    {
        self.received
    }

    /// Whether a cap was exceeded.
    pub fn is_aborted(&self) -> (aborted: bool)
        ensures
            aborted == self@.aborted,
    {
        self.aborted
    }

    /// Takes in the next chunk of the stream. The chunk is refused, and the
    /// ingestion aborted for good, as soon as the file or the request would
    /// exceed its cap. Otherwise the chunk is counted, and either kept
    /// pending or handed out for writing together with what was pending.
    pub fn accept_chunk(&mut self, chunk: &[u8]) -> (step: IngestStep)
        ensures
            final(self)@ == old(self)@.accept(chunk@),
            match step {
                IngestStep::Abort => final(self)@.aborted,
                IngestStep::Flush(bytes) => !final(self)@.aborted && old(self)@.flushes(chunk@)
                    && bytes@ == old(self)@.output(chunk@),
                IngestStep::Buffered => !final(self)@.aborted && !old(self)@.flushes(chunk@),
            },
    {
        let size = chunk.len();
        let within = if self.aborted {
            None
        } else {
            match self.received.checked_add(size as u64) {
                None => None,
                Some(total) => match self.earlier.checked_add(total) {
                    None => None,
                    Some(request) => if total <= self.max_file && request <= self.max_request {
                        Some(total)
                    } else {
                        None
                    },
                },
            }
        };
        match within {
            None => {
                self.aborted = true;
                self.buffer = Vec::new();
                IngestStep::Abort
            },
            Some(total) => {
                self.received = total;
                self.buffer.extend_from_slice(chunk);
                assert(self.buffer@ =~= old(self).buffer@ + chunk@);
                if self.buffer.len() >= FLUSH_BYTES {
                    let mut bytes: Vec<u8> = Vec::new();
                    std::mem::swap(&mut self.buffer, &mut bytes);
                    IngestStep::Flush(bytes)
                } else {
                    IngestStep::Buffered
                }
            },
        }
    }

    /// Ends the ingestion at the end of the stream: gives the bytes that are
    /// still to be written and the exact size of the file, or the capacity
    /// error if a cap was exceeded.
    pub fn finish(self) -> (end: Result<(Vec<u8>, u64), ServiceError>)
        ensures
            end is Ok <==> !self@.aborted,
            end matches Ok(rest) ==> rest.0@ == self@.pending && rest.1 == self@.received,
            end matches Err(error) ==> error == ServiceError::Capacity,
    {
        if self.aborted {
            Err(ServiceError::Capacity)
        } else {
            Ok((self.buffer, self.received))
        }
    }
}

/// Once aborted, an ingestion stays aborted and hands out nothing.
pub proof fn lemma_abort_is_final(state: IngestState, chunks: Seq<Seq<u8>>)
    requires
        state.aborted,
    ensures
        state.run(chunks).aborted,
        state.written(chunks) == Seq::<u8>::empty(),
    decreases chunks.len(),
{
    if chunks.len() > 0 {
        lemma_abort_is_final(state, chunks.drop_last());
    }
}

/// An ingestion that is within its caps is aborted exactly when the chunks
/// taken in, all together, exceed the cap on the file or the cap on the
/// request.
pub proof fn lemma_aborts_iff_over_cap(state: IngestState, chunks: Seq<Seq<u8>>)
    requires
        !state.aborted,
        !state.exceeds(0),
    ensures
        state.run(chunks).aborted <==> state.exceeds(joined(chunks).len()),
        !state.run(chunks).aborted ==> state.run(chunks).received == state.received + joined(
            chunks,
        ).len(),
        state.run(chunks).max_file == state.max_file,
        state.run(chunks).max_request == state.max_request,
        state.run(chunks).earlier == state.earlier,
    decreases chunks.len(),
{
    if chunks.len() > 0 {
        let front = chunks.drop_last();
        lemma_aborts_iff_over_cap(state, front);
        assert(joined(chunks).len() == joined(front).len() + chunks.last().len());
        let before = state.run(front);
        if !before.aborted {
            assert(before.exceeds(chunks.last().len()) <==> state.exceeds(joined(chunks).len()));
        }
    }
}

/// While no cap is exceeded no byte is lost, added or moved: what was handed
/// out for writing, followed by what is still pending, is what was pending
/// at first followed by the chunks in order.
pub proof fn lemma_ingestion_keeps_bytes(state: IngestState, chunks: Seq<Seq<u8>>)
    requires
        !state.run(chunks).aborted,
    ensures
        state.written(chunks) + state.run(chunks).pending == state.pending + joined(chunks),
    decreases chunks.len(),
{
    if chunks.len() == 0 {
        assert(Seq::<u8>::empty() + state.pending =~= state.pending + Seq::<u8>::empty());
    } else {
        let front = chunks.drop_last();
        let before = state.run(front);
        lemma_ingestion_keeps_bytes(state, front);
        let chunk = chunks.last();
        assert(state.written(chunks) + state.run(chunks).pending =~= (state.written(front)
            + before.pending) + chunk);
        assert((state.pending + joined(front)) + chunk =~= state.pending + joined(chunks));
    }
}

} // verus!
