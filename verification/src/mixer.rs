//! Alignment of the two capture sources and assembly of dispatch chunks.
//!
//! Each polling tick drains whatever samples the microphone and the system
//! output produced, pads the shorter run with silence so the two line up
//! index by index, and appends the mixed result to a growing chunk buffer.
//! The buffer is released to the transcription client once it reaches a full
//! chunk, or once it holds at least a minimum chunk and a full chunk's worth
//! of time has passed since the last dispatch. The per-sample weighted
//! combine interprets float values and so happens at the host's edge; this
//! module owns everything structural around it.

use vstd::prelude::*;

verus! {

/// Sample rate the transcription service expects, in Hz.
pub const WHISPER_SAMPLE_RATE: u32 = 16000;

/// Target duration of one dispatched chunk, in milliseconds.
pub const CHUNK_DURATION_MS: u32 = 30000;

/// Minimum duration a chunk must cover before the time-based dispatch branch
/// may release it, in milliseconds.
pub const MIN_CHUNK_DURATION_MS: u32 = 2000;

/// Samples in a full chunk: the target duration at the service's rate,
/// `WHISPER_SAMPLE_RATE * CHUNK_DURATION_MS / 1000`.
pub const FULL_CHUNK_SAMPLES: usize = 480000;

/// Samples in the smallest chunk the time-based branch may release:
/// `WHISPER_SAMPLE_RATE * MIN_CHUNK_DURATION_MS / 1000`.
pub const MIN_CHUNK_SAMPLES: usize = 32000;

/// The bit pattern of the silent PCM sample used for padding.
pub const SILENCE_BITS: u32 = 0;

/// `s` padded with silence up to length `n` (or truncated, for `n` below its
/// length; the mixer only ever pads).
pub open spec fn padded(s: Seq<u32>, n: nat) -> Seq<u32> {
    Seq::new(n, |i: int| if i < s.len() { s[i] } else { SILENCE_BITS })
}

/// Pads the shorter of the two per-tick sample runs with silence so both
/// cover the same index range, ready for the sample-by-sample combine.
pub fn align_sources(mic: &Vec<u32>, sys: &Vec<u32>) -> (r: (Vec<u32>, Vec<u32>))
    ensures
        r.0@.len() == r.1@.len(),
        r.0@.len() == if mic@.len() >= sys@.len() { mic@.len() } else { sys@.len() },
        r.0@ == padded(mic@, r.0@.len()),
        r.1@ == padded(sys@, r.1@.len()),
{
    let max_len = if mic.len() >= sys.len() { mic.len() } else { sys.len() };
    let mic_padded = pad_run(mic, max_len);
    let sys_padded = pad_run(sys, max_len);
    (mic_padded, sys_padded)
}

/// Copies `s` and pads it with silence up to `n` samples.
fn pad_run(s: &Vec<u32>, n: usize) -> (out: Vec<u32>)
    requires
        s@.len() <= n,
    ensures
        out@ == padded(s@, n as nat),
{
    let mut out: Vec<u32> = Vec::new();
    let mut i: usize = 0;
    while i < n
        invariant
            i <= n,
            s@.len() <= n,
            out@.len() == i,
            out@ == padded(s@, n as nat).take(i as int),
        decreases n - i,
    {
        if i < s.len() {
            out.push(s[i]);
        } else {
            out.push(SILENCE_BITS);
        }
        i = i + 1;
        assert(out@ =~= padded(s@, n as nat).take(i as int));
    }
    proof {
        assert(padded(s@, n as nat).take(n as int) =~= padded(s@, n as nat));
    }
    out
}

/// Whether the chunk buffer is due for dispatch: it holds a full chunk, or it
/// holds at least a minimum chunk and a full chunk's duration has elapsed
/// since the last dispatch.
pub open spec fn dispatch_due(len: nat, last_dispatch_ms: u64, now_ms: u64) -> bool {
    len >= FULL_CHUNK_SAMPLES || (len >= MIN_CHUNK_SAMPLES && now_ms >= last_dispatch_ms
        + CHUNK_DURATION_MS)
}

/// The chunk buffer of the mixing loop: mixed samples accumulated since the
/// last dispatch, and the time that dispatch happened.
pub struct StreamMixer {
    /// Mixed samples awaiting dispatch, oldest first.
    pub chunk: Vec<u32>,
    /// Monotonic time of the last dispatch (or of creation), in milliseconds.
    pub last_dispatch_ms: u64,
}

impl StreamMixer {
    /// A fresh mixer with an empty chunk buffer, created at time `now_ms`.
    pub fn new(now_ms: u64) -> (m: StreamMixer)
        ensures
            m.chunk@ =~= Seq::<u32>::empty(),
            m.last_dispatch_ms == now_ms,
    {
        StreamMixer { chunk: Vec::new(), last_dispatch_ms: now_ms }
    }

    /// Appends one tick's mixed samples to the chunk buffer.
    pub fn push_mixed(&mut self, mixed: &Vec<u32>)
        requires
            old(self).chunk@.len() + mixed@.len() <= usize::MAX,
        ensures
            final(self).chunk@ == old(self).chunk@ + mixed@,
            final(self).last_dispatch_ms == old(self).last_dispatch_ms,
    {
        let mut i: usize = 0;
        while i < mixed.len()
            invariant
                i <= mixed@.len(),
                self.chunk@ == old(self).chunk@ + mixed@.take(i as int),
                self.last_dispatch_ms == old(self).last_dispatch_ms,
                old(self).chunk@.len() + mixed@.len() <= usize::MAX,
            decreases mixed@.len() - i,
        {
            self.chunk.push(mixed[i]);
            i = i + 1;
            assert(self.chunk@ =~= old(self).chunk@ + mixed@.take(i as int));
        }
        proof {
            assert(mixed@.take(mixed@.len() as int) =~= mixed@);
        }
    }

    /// Whether the buffered samples are due for dispatch at time `now_ms`.
    pub fn should_dispatch(&self, now_ms: u64) -> (due: bool)
        ensures
            due == dispatch_due(self.chunk@.len(), self.last_dispatch_ms, now_ms),
    {
        self.chunk.len() >= FULL_CHUNK_SAMPLES || (self.chunk.len() >= MIN_CHUNK_SAMPLES
            && now_ms >= self.last_dispatch_ms && now_ms - self.last_dispatch_ms
            >= CHUNK_DURATION_MS as u64)
    }

    /// Releases the buffered samples for dispatch: returns them, leaves the
    /// buffer empty, and marks `now_ms` as the time of the last dispatch.
    pub fn take_chunk(&mut self, now_ms: u64) -> (chunk: Vec<u32>)
        ensures
            chunk@ == old(self).chunk@,
            final(self).chunk@ =~= Seq::<u32>::empty(),
            final(self).last_dispatch_ms == now_ms,
    {
        let chunk = self.chunk.split_off(0);
        self.last_dispatch_ms = now_ms;
        proof {
            assert(chunk@ =~= old(self).chunk@);
        }
        chunk
    }
}

/// Bounds on a dispatched chunk's length. Any chunk the dispatch condition
/// releases holds at least `MIN_CHUNK_SAMPLES`; and when the condition had
/// not yet fired before the tick's batch was appended, the released chunk
/// falls short of `FULL_CHUNK_SAMPLES` plus that batch's length — so a chunk
/// can exceed the full size only by what a single tick delivered past the
/// threshold.
pub proof fn lemma_dispatched_chunk_bounds(
    len_before: nat,
    batch: nat,
    last_dispatch_ms: u64,
    before_ms: u64,
    now_ms: u64,
)
    requires
        !dispatch_due(len_before, last_dispatch_ms, before_ms),
        dispatch_due(len_before + batch, last_dispatch_ms, now_ms),
    ensures
        MIN_CHUNK_SAMPLES <= len_before + batch,
        len_before + batch < FULL_CHUNK_SAMPLES + batch,
{
}

} // verus!
