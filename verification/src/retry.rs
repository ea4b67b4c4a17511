//! Retry schedule of the transcription client.
//!
//! Each chunk is posted to the transcription service at most once initially
//! and then up to a fixed number of retries, with exponential backoff before
//! every retry. The network round trip itself happens at the host's edge;
//! this module decides, after each failed attempt, whether to try again and
//! how long to sleep first, and carries the last error into the final
//! failure.

use vstd::prelude::*;
use vstd::arithmetic::power2::pow2;

verus! {

/// How many retries follow the initial attempt before a chunk is dropped.
pub const MAX_TRANSCRIPTION_RETRIES: u32 = 3;

/// The error a chunk dispatch ends in once every attempt has failed.
#[derive(Debug)]
pub enum TranscriptionError {
    /// All attempts failed; carries the message of the last observed error.
    TranscriptionFailed {
        /// Message of the error the final attempt ended in.
        last_error: String,
    },
}

/// The delay to sleep before attempt number `attempts_made + 1`, or `None`
/// when the attempts are exhausted: no delay before the initial attempt,
/// `100ms * 2^k` before retry `k`, nothing after the last retry.
pub open spec fn planned_delay_ms(attempts_made: u32) -> Option<u64> {
    if attempts_made == 0 {
        Some(0u64)
    } else if attempts_made <= MAX_TRANSCRIPTION_RETRIES {
        Some((100 * pow2(attempts_made as nat)) as u64)
    } else {
        None
    }
}

/// The retry state of one chunk dispatch: how many attempts have failed, and
/// what the last failure said.
pub struct RetrySchedule {
    /// Attempts made so far, all failed.
    pub attempts_made: u32,
    /// Message of the most recent failure; empty before the first one.
    pub last_error: String,
}

impl RetrySchedule {
    /// A fresh schedule: no attempt made yet.
    pub fn new() -> (s: RetrySchedule)
        ensures
            s.attempts_made == 0,
            s.last_error@ =~= Seq::<char>::empty(),
    {
        RetrySchedule { attempts_made: 0, last_error: String::new() }
    }

    /// How long to sleep before the next attempt, or `None` once the initial
    /// attempt and every retry have been spent: the caller then gives up on
    /// the chunk.
    pub fn plan_next_attempt(&self) -> (delay: Option<u64>)
        ensures
            delay == planned_delay_ms(self.attempts_made),
    {
        proof {
            vstd::arithmetic::power2::lemma2_to64();
        }
        if self.attempts_made > MAX_TRANSCRIPTION_RETRIES {
            None
        } else if self.attempts_made == 0 {
            Some(0)
        } else if self.attempts_made == 1 {
            Some(200)
        } else if self.attempts_made == 2 {
            Some(400)
        } else {
            Some(800)
        }
    }

    /// Records one failed attempt and the error it ended in.
    pub fn record_failure(&mut self, error: String)
        requires
            old(self).attempts_made <= MAX_TRANSCRIPTION_RETRIES,
        ensures
            final(self).attempts_made == old(self).attempts_made + 1,
            final(self).last_error == error,
    {
        self.attempts_made = self.attempts_made + 1;
        self.last_error = error;
    }

    /// The error the dispatch ends in after the attempts are exhausted,
    /// carrying the last observed failure message.
    pub fn into_failure(self) -> (e: TranscriptionError)
        ensures
            (e matches TranscriptionError::TranscriptionFailed { last_error } && last_error
                == self.last_error),
    {
        TranscriptionError::TranscriptionFailed { last_error: self.last_error }
    }
}

/// Against a service whose every attempt fails, a chunk dispatch makes
/// exactly four attempts — the initial one and three retries — sleeping 200,
/// 400 and 800 milliseconds before the retries (so the second attempt starts
/// no sooner than 200 milliseconds after the first failed), and then gives
/// up.
pub proof fn lemma_retry_schedule_exhaustion()
    ensures
        planned_delay_ms(0) == Some(0u64),
        planned_delay_ms(1) == Some(200u64),
        planned_delay_ms(2) == Some(400u64),
        planned_delay_ms(3) == Some(800u64),
        planned_delay_ms(4) == None::<u64>,
{
    vstd::arithmetic::power2::lemma2_to64();
}

} // verus!
