//! Recording-session lifecycle: start/stop mutual exclusion and idempotence.
//!
//! A session owns two append-only buffers of raw captured samples and two
//! flags: "recording active" and "stop in progress". Starting is rejected
//! while a session is active; stopping is idempotent, and a stop that arrives
//! while another is tearing down only waits for that teardown to finish. The
//! host performs the actual device work (acquiring and stopping streams,
//! sleeping out the minimum duration) around the decisions made here.

use vstd::prelude::*;

verus! {

/// Minimum duration every session must last, in milliseconds: a stop that
/// arrives earlier waits out the remainder before tearing down.
pub const MIN_RECORDING_DURATION_MS: u64 = 2000;

/// Why a start request was refused.
#[derive(Debug, PartialEq, Eq, Structural, Clone, Copy)]
pub enum RecordingError {
    /// A recording is already in progress.
    AlreadyActive,
}

/// What a stop request must do next.
#[derive(Debug, PartialEq, Eq, Structural, Clone, Copy)]
pub enum StopDecision {
    /// Another stop is already tearing the session down: poll until the
    /// "stop in progress" flag clears, then report success. No teardown.
    AwaitCompletion,
    /// Nothing is recording: report success at once. No teardown.
    NotActive,
    /// This caller performs the teardown, after first waiting `wait_ms` so
    /// the session reaches its minimum duration.
    Teardown { wait_ms: u64 },
}

/// The abstract state of a session.
pub struct SessionModel {
    /// A recording is active.
    pub recording: bool,
    /// A stop is tearing the session down.
    pub stopping: bool,
    /// Monotonic time the recording started, in milliseconds.
    pub start_time_ms: u64,
    /// Raw samples captured from the microphone, oldest first.
    pub mic_buffer: Seq<u32>,
    /// Raw samples captured from the system output, oldest first.
    pub system_buffer: Seq<u32>,
}

/// How long a stop at `now_ms` must wait so the session lasts at least the
/// minimum duration.
pub open spec fn stop_wait_ms(m: SessionModel, now_ms: u64) -> u64 {
    if now_ms < m.start_time_ms {
        MIN_RECORDING_DURATION_MS
    } else if now_ms < m.start_time_ms + MIN_RECORDING_DURATION_MS {
        (m.start_time_ms + MIN_RECORDING_DURATION_MS - now_ms) as u64
    } else {
        0
    }
}

/// The state after a start request at `now_ms`: unchanged when one was
/// already active, otherwise active with fresh, empty buffers.
pub open spec fn start_post(m: SessionModel, now_ms: u64) -> SessionModel {
    if m.recording {
        m
    } else {
        SessionModel {
            recording: true,
            start_time_ms: now_ms,
            mic_buffer: Seq::empty(),
            system_buffer: Seq::empty(),
            ..m
        }
    }
}

/// What a stop request decides in state `m` at time `now_ms`.
pub open spec fn stop_decision(m: SessionModel, now_ms: u64) -> StopDecision {
    if m.stopping {
        StopDecision::AwaitCompletion
    } else if !m.recording {
        StopDecision::NotActive
    } else {
        StopDecision::Teardown { wait_ms: stop_wait_ms(m, now_ms) }
    }
}

/// The state after a stop request decides: only the caller that takes the
/// teardown on itself marks the session as stopping.
pub open spec fn stop_post(m: SessionModel, now_ms: u64) -> SessionModel {
    if m.stopping || !m.recording {
        m
    } else {
        SessionModel { stopping: true, ..m }
    }
}

/// The state after teardown completes: idle, with both buffers cleared.
pub open spec fn teardown_post(m: SessionModel) -> SessionModel {
    SessionModel {
        recording: false,
        stopping: false,
        start_time_ms: 0,
        mic_buffer: Seq::empty(),
        system_buffer: Seq::empty(),
    }
}

/// A recording session: the flags that make start and stop mutually
/// exclusive and idempotent, and the raw capture buffers the session retains
/// while it is active.
pub struct RecordingSession {
    /// A recording is active.
    pub recording: bool,
    /// A stop is tearing the session down.
    pub stopping: bool,
    /// Monotonic time the recording started, in milliseconds.
    pub start_time_ms: u64,
    /// Raw samples captured from the microphone, oldest first.
    pub mic_buffer: Vec<u32>,
    /// Raw samples captured from the system output, oldest first.
    pub system_buffer: Vec<u32>,
}

impl View for RecordingSession {
    type V = SessionModel;

    open spec fn view(&self) -> SessionModel {
        SessionModel {
            recording: self.recording,
            stopping: self.stopping,
            start_time_ms: self.start_time_ms,
            mic_buffer: self.mic_buffer@,
            system_buffer: self.system_buffer@,
        }
    }
}

impl RecordingSession {
    /// A fresh, idle session.
    pub fn new() -> (s: RecordingSession)
        ensures
            !s@.recording,
            !s@.stopping,
            s@.mic_buffer =~= Seq::<u32>::empty(),
            s@.system_buffer =~= Seq::<u32>::empty(),
    {
        RecordingSession {
            recording: false,
            stopping: false,
            start_time_ms: 0,
            mic_buffer: Vec::new(),
            system_buffer: Vec::new(),
        }
    }

    /// A pure read of the "recording active" flag.
    pub fn is_recording(&self) -> (active: bool)
        ensures
            active == self@.recording,
    {
        self.recording
    }

    /// Starts a recording at time `now_ms`: rejected with `AlreadyActive`
    /// while one is in progress, otherwise the session becomes active with
    /// empty capture buffers and `now_ms` as its start time. The host
    /// acquires the device streams only after this succeeds.
    pub fn start_recording(&mut self, now_ms: u64) -> (r: Result<(), RecordingError>)
        ensures
            final(self)@ == start_post(old(self)@, now_ms),
            r == if old(self)@.recording {
                Err::<(), RecordingError>(RecordingError::AlreadyActive)
            } else {
                Ok::<(), RecordingError>(())
            },
    {
        if self.recording {
            return Err(RecordingError::AlreadyActive);
        }
        self.recording = true;
        self.start_time_ms = now_ms;
        self.mic_buffer = Vec::new();
        self.system_buffer = Vec::new();
        Ok(())
    }

    /// Appends one tick's raw microphone samples to the session's buffer.
    pub fn append_mic(&mut self, samples: &Vec<u32>)
        requires
            old(self)@.recording,
            old(self)@.mic_buffer.len() + samples@.len() <= usize::MAX,
        ensures
            final(self)@ == (SessionModel {
                mic_buffer: old(self)@.mic_buffer + samples@,
                ..old(self)@
            }),
    {
        append_samples(&mut self.mic_buffer, samples);
    }

    /// Appends one tick's raw system-output samples to the session's buffer.
    pub fn append_system(&mut self, samples: &Vec<u32>)
        requires
            old(self)@.recording,
            old(self)@.system_buffer.len() + samples@.len() <= usize::MAX,
        ensures
            final(self)@ == (SessionModel {
                system_buffer: old(self)@.system_buffer + samples@,
                ..old(self)@
            }),
    {
        append_samples(&mut self.system_buffer, samples);
    }

    /// Decides what a stop request arriving at `now_ms` must do, and claims
    /// the teardown for this caller when no other stop holds it. Exactly the
    /// caller that receives `Teardown` proceeds to stop the streams and then
    /// calls `finish_stop`; every other caller performs no teardown.
    pub fn begin_stop(&mut self, now_ms: u64) -> (d: StopDecision)
        ensures
            d == stop_decision(old(self)@, now_ms),
            final(self)@ == stop_post(old(self)@, now_ms),
    {
        if self.stopping {
            return StopDecision::AwaitCompletion;
        }
        if !self.recording {
            return StopDecision::NotActive;
        }
        self.stopping = true;
        let wait_ms: u64 = if now_ms < self.start_time_ms {
            MIN_RECORDING_DURATION_MS
        } else {
            let elapsed = now_ms - self.start_time_ms;
            if elapsed < MIN_RECORDING_DURATION_MS {
                MIN_RECORDING_DURATION_MS - elapsed
            } else {
                0
            }
        };
        StopDecision::Teardown { wait_ms }
    }

    /// Completes the teardown the caller claimed with `begin_stop`: clears
    /// both flags and both capture buffers, unconditionally.
    pub fn finish_stop(&mut self)
        requires
            old(self)@.stopping,
        ensures
            final(self)@ == teardown_post(old(self)@),
    {
        self.recording = false;
        self.stopping = false;
        self.start_time_ms = 0;
        self.mic_buffer = Vec::new();
        self.system_buffer = Vec::new();
        proof {
            assert(final(self)@ =~= teardown_post(old(self)@));
        }
    }
}

/// Appends `samples` to `buffer`.
fn append_samples(buffer: &mut Vec<u32>, samples: &Vec<u32>)
    requires
        old(buffer)@.len() + samples@.len() <= usize::MAX,
    ensures
        final(buffer)@ == old(buffer)@ + samples@,
{
    let mut i: usize = 0;
    while i < samples.len()
        invariant
            i <= samples@.len(),
            old(buffer)@.len() + samples@.len() <= usize::MAX,
            buffer@ == old(buffer)@ + samples@.take(i as int),
        decreases samples@.len() - i,
    {
        buffer.push(samples[i]);
        i = i + 1;
        assert(buffer@ =~= old(buffer)@ + samples@.take(i as int));
    }
    proof {
        assert(samples@.take(samples@.len() as int) =~= samples@);
    }
}

/// A second start without an intervening stop is rejected: after a start
/// succeeds in an idle session, the session is active and any further start
/// returns the already-active error and leaves the state unchanged.
pub proof fn lemma_second_start_rejected(m: SessionModel, t1: u64, t2: u64)
    requires
        !m.recording,
    ensures
        start_post(m, t1).recording,
        start_post(start_post(m, t1), t2) == start_post(m, t1),
{
}

/// Of two stop requests on an active session, exactly the first performs the
/// teardown: the first is told to tear down, the second only awaits that
/// teardown and changes nothing, and the teardown clears the capture buffers
/// once.
pub proof fn lemma_second_stop_awaits(m: SessionModel, t1: u64, t2: u64)
    requires
        m.recording,
        !m.stopping,
    ensures
        stop_decision(m, t1) == (StopDecision::Teardown { wait_ms: stop_wait_ms(m, t1) }),
        stop_decision(stop_post(m, t1), t2) == StopDecision::AwaitCompletion,
        stop_post(stop_post(m, t1), t2) == stop_post(m, t1),
        teardown_post(stop_post(m, t1)).mic_buffer =~= Seq::<u32>::empty(),
        teardown_post(stop_post(m, t1)).system_buffer =~= Seq::<u32>::empty(),
        !teardown_post(stop_post(m, t1)).recording,
        !teardown_post(stop_post(m, t1)).stopping,
{
}

/// A stop of an idle session succeeds without teardown and without touching
/// the state.
pub proof fn lemma_stop_when_idle(m: SessionModel, t: u64)
    requires
        !m.recording,
        !m.stopping,
    ensures
        stop_decision(m, t) == StopDecision::NotActive,
        stop_post(m, t) == m,
{
}

/// Every session lasts at least the minimum duration: the teardown wait a
/// stop at `now_ms` is told to sleep carries the session to at least
/// `start_time_ms + MIN_RECORDING_DURATION_MS`.
pub proof fn lemma_minimum_duration_kept(m: SessionModel, now_ms: u64)
    requires
        now_ms >= m.start_time_ms,
    ensures
        now_ms + stop_wait_ms(m, now_ms) >= m.start_time_ms + MIN_RECORDING_DURATION_MS,
{
}

} // verus!
