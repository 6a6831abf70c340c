//! Relaying a streamed response body chunk by chunk, with the counters and
//! the logging cadence that go with it.
//!
//! The relay is a state machine: the caller pulls each chunk from upstream,
//! hands it in, and sends on the frame it gets back; when upstream ends or
//! fails, the relay says how the stream is closed and whether to log it.
use vstd::prelude::*;
use crate::classify::RequestKind;
use crate::forward::Header;
use crate::response::{mode_of, relayed_headers, BodyMode};

verus! {

/// A flagged stream logs its first chunk and then every chunk whose number is
/// a multiple of this.
pub const PROGRESS_EVERY: u64 = 50;

/// The state of one streamed response: its counters and whether it is over.
pub struct StreamRelay {
    kind: RequestKind,
    flagged: bool,
    bytes_total: u64,
    chunk_count: u64,
    finished: bool,
}

/// What the caller does with one chunk: send `frame` to the client, and log
/// progress when `log_progress` is set.
pub struct ChunkStep {
    pub frame: Vec<u8>,
    pub log_progress: bool,
}

/// `a + b`, held at `u64::MAX`.
pub open spec fn add_capped(a: u64, b: int) -> u64 {
    if a + b > u64::MAX {
        u64::MAX
    } else {
        (a + b) as u64
    }
}

/// Whether the chunk numbered `n` (from 1) of a stream is logged.
pub open spec fn progress_logged(flagged: bool, n: u64) -> bool {
    flagged && (n == 1 || n % PROGRESS_EVERY == 0)
}

/// Whether handing `chunk` to a relay in state `before` sends `frame` on and
/// leaves the relay in state `after`.
pub open spec fn chunk_step(before: StreamRelay, chunk: Seq<u8>, frame: Seq<u8>, after: StreamRelay) -> bool {
    &&& frame == chunk
    &&& after.spec_kind() == before.spec_kind()
    &&& after.spec_flagged() == before.spec_flagged()
    &&& after.spec_bytes_total() == add_capped(before.spec_bytes_total(), chunk.len() as int)
    &&& after.spec_chunk_count() == add_capped(before.spec_chunk_count(), 1)
    &&& !after.spec_finished()
}

/// Whether `r` is a relay that has seen nothing yet.
pub open spec fn fresh(r: StreamRelay) -> bool {
    r.spec_bytes_total() == 0 && r.spec_chunk_count() == 0 && !r.spec_finished()
}

/// The bytes of all `chunks`, in order.
pub open spec fn concat(chunks: Seq<Seq<u8>>) -> Seq<u8>
    decreases chunks.len(),
{
    if chunks.len() == 0 {
        Seq::empty()
    } else {
        concat(chunks.drop_last()) + chunks.last()
    }
}

/// The number of bytes in all `chunks`.
pub open spec fn total_len(chunks: Seq<Seq<u8>>) -> nat {
    concat(chunks).len()
}

impl StreamRelay {
    pub closed spec fn spec_kind(self) -> RequestKind {
        self.kind
    }

    pub closed spec fn spec_flagged(self) -> bool {
        self.flagged
    }

    pub closed spec fn spec_bytes_total(self) -> u64 {
        self.bytes_total
    }

    pub closed spec fn spec_chunk_count(self) -> u64 {
        self.chunk_count
    }

    pub closed spec fn spec_finished(self) -> bool {
        self.finished
    }

    /// A relay for a response to a request of `kind`; `flagged` marks a
    /// chunked or event-stream response, whose progress is logged.
    pub fn new(kind: RequestKind, flagged: bool) -> (r: StreamRelay)
        ensures
            fresh(r),
            r.spec_kind() == kind,
            r.spec_flagged() == flagged,
    {
        StreamRelay { kind, flagged, bytes_total: 0, chunk_count: 0, finished: false }
    }

    /// A relay for a response relayed as `mode` to a request of `kind`.
    pub fn for_mode(kind: RequestKind, mode: BodyMode) -> (r: StreamRelay)
        ensures
            fresh(r),
            r.spec_kind() == kind,
            r.spec_flagged() == (mode matches BodyMode::Stream { flagged } && flagged),
    {
        let flagged = match mode {
            BodyMode::Stream { flagged } => flagged,
            BodyMode::Document => false,
        };
        StreamRelay::new(kind, flagged)
    }

    /// Bytes relayed so far.
    pub fn bytes_total(&self) -> (r: u64)
        ensures
            r == self.spec_bytes_total(),
    {
        self.bytes_total
    }

    /// Chunks relayed so far.
    pub fn chunk_count(&self) -> (r: u64)
        ensures
            r == self.spec_chunk_count(),
    {
        self.chunk_count
    }

    /// Whether the stream is over, by its end or by an upstream failure; no
    /// further chunk is pulled then.
    pub fn is_finished(&self) -> (r: bool)
        ensures
            r == self.spec_finished(),
    {
        self.finished
    }

    /// Takes the next chunk from upstream: counts it, and hands it back
    /// unchanged as the frame for the client, with whether to log progress.
    pub fn on_chunk(&mut self, chunk: Vec<u8>) -> (r: ChunkStep)
        requires
            !old(self).spec_finished(),
        ensures
            chunk_step(*old(self), chunk@, r.frame@, *final(self)),
            r.log_progress == progress_logged(final(self).spec_flagged(), final(self).spec_chunk_count()),
    {
        let size = chunk.len() as u64;
        self.bytes_total = if self.bytes_total > u64::MAX - size {
            u64::MAX
        } else {
            self.bytes_total + size
        };
        self.chunk_count = if self.chunk_count == u64::MAX {
            u64::MAX
        } else {
            self.chunk_count + 1
        };
        let n = self.chunk_count;
        let log_progress = self.flagged && (n == 1 || n % PROGRESS_EVERY == 0);
        ChunkStep { frame: chunk, log_progress }
    }

    /// Upstream failed mid-stream. The status and headers are already sent,
    /// so the stream is closed with the empty frame returned here rather than
    /// with a transport fault; the failure is logged with the counters as they
    /// stand.
    pub fn on_error(&mut self) -> (r: Vec<u8>)
        ensures
            r@.len() == 0,
            final(self).spec_finished(),
            final(self).spec_bytes_total() == old(self).spec_bytes_total(),
            final(self).spec_chunk_count() == old(self).spec_chunk_count(),
            final(self).spec_kind() == old(self).spec_kind(),
            final(self).spec_flagged() == old(self).spec_flagged(),
    {
        self.finished = true;
        Vec::new()
    }

    /// Upstream ended the body normally, `elapsed_secs` whole seconds after
    /// the stream began. Returns whether the completion is logged: always for
    /// traffic that is logged in full, and for static assets only when slow.
    pub fn on_end(&mut self, elapsed_secs: u64) -> (r: bool)
        ensures
            r == old(self).spec_kind().spec_completion_logged(elapsed_secs),
            final(self).spec_finished(),
            final(self).spec_bytes_total() == old(self).spec_bytes_total(),
            final(self).spec_chunk_count() == old(self).spec_chunk_count(),
            final(self).spec_kind() == old(self).spec_kind(),
            final(self).spec_flagged() == old(self).spec_flagged(),
    {
        self.finished = true;
        self.kind.completion_logged(elapsed_secs)
    }
}

proof fn lemma_concat_len_grows(chunks: Seq<Seq<u8>>, i: int)
    requires
        0 <= i <= chunks.len(),
    ensures
        concat(chunks.take(i)).len() <= concat(chunks).len(),
    decreases chunks.len() - i,
{
    if i < chunks.len() {
        lemma_concat_len_grows(chunks, i + 1);
        assert(chunks.take(i + 1).drop_last() =~= chunks.take(i));
    } else {
        assert(chunks.take(i) =~= chunks);
    }
}

/// A relayed stream hands the client exactly the upstream chunks: the frames
/// sent, joined, equal the chunks joined in the order they arrived, and the
/// counters that the completion entry reports hold the number of chunks and
/// their total size (both within `u64`).
///
/// `states[i]` is the relay before chunk `i` and `states[i + 1]` after it;
/// `frames[i]` is the frame that chunk `i` produced.
pub proof fn lemma_stream_relayed_whole(
    states: Seq<StreamRelay>,
    chunks: Seq<Seq<u8>>,
    frames: Seq<Seq<u8>>,
)
    requires
        states.len() == chunks.len() + 1,
        frames.len() == chunks.len(),
        fresh(states[0]),
        forall|i: int|
            0 <= i < chunks.len() ==> chunk_step(#[trigger] states[i], chunks[i], frames[i], states[i + 1]),
        total_len(chunks) <= u64::MAX,
        chunks.len() <= u64::MAX,
    ensures
        concat(frames) == concat(chunks),
        states.last().spec_bytes_total() == total_len(chunks),
        states.last().spec_chunk_count() == chunks.len(),
    decreases chunks.len(),
{
    if chunks.len() > 0 {
        let n = chunks.len() - 1;
        let s = states.drop_last();
        let c = chunks.drop_last();
        let f = frames.drop_last();
        assert forall|i: int| 0 <= i < c.len() implies chunk_step(#[trigger] s[i], c[i], f[i], s[i + 1]) by {
            assert(s[i] == states[i] && s[i + 1] == states[i + 1] && c[i] == chunks[i] && f[i] == frames[i]);
        }
        lemma_concat_len_grows(chunks, n);
        assert(chunks.take(n) =~= c);
        lemma_stream_relayed_whole(s, c, f);
        assert(chunk_step(states[n], chunks[n], frames[n], states[n + 1]));
        assert(s.last() == states[n]);
    }
}

/// A response that is neither HTML nor flagged as a stream passes through
/// unchanged: the client gets the upstream status, every upstream header, and
/// a body equal to the upstream body, however upstream cut it into chunks.
pub proof fn lemma_plain_response_passes_through(
    headers: Seq<Header>,
    states: Seq<StreamRelay>,
    chunks: Seq<Seq<u8>>,
    frames: Seq<Seq<u8>>,
)
    requires
        mode_of(headers) == (BodyMode::Stream { flagged: false }),
        states.len() == chunks.len() + 1,
        frames.len() == chunks.len(),
        fresh(states[0]),
        forall|i: int|
            0 <= i < chunks.len() ==> chunk_step(#[trigger] states[i], chunks[i], frames[i], states[i + 1]),
        total_len(chunks) <= u64::MAX,
        chunks.len() <= u64::MAX,
    ensures
        relayed_headers(headers, mode_of(headers)) == headers,
        concat(frames) == concat(chunks),
{
    lemma_stream_relayed_whole(states, chunks, frames);
}

} // verus!
