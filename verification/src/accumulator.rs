//! The sentence accumulator: a state machine folding timestamped transcript
//! segments into complete, de-duplicated sentences.
//!
//! A segment is cleaned first; a segment whose cleaned text is empty, or that
//! covers less than the minimum duration, or that repeats the previous
//! segment's fingerprint, is ignored. Accepted text is appended to the held
//! sentence with one separating space; once a fragment ends in terminal
//! punctuation the whole sentence is emitted. A sentence left alone past the
//! inactivity timeout is flushed with an estimated end time. Times are
//! monotonic milliseconds supplied by the caller.

use vstd::prelude::*;
use vstd::string::StringExecFns;
use vstd::wrapping::u64_specs;
use crate::text::{
    cleaned_text, ends_terminal, is_space, joined, trimmed, clean_segment_text, chars_to_string,
    str_to_chars, lemma_joined_shape, lemma_trimmed_shape, lemma_trim_of_clean_id,
    with_marker_removed, blank_audio_marker, audio_out_marker,
};
use crate::timefmt::{format_time_range, time_range_label};

verus! {

/// Milliseconds of inactivity after which a held sentence is flushed.
pub const SENTENCE_TIMEOUT_MS: u64 = 1000;

/// Minimum duration a segment must cover to be accepted, in milliseconds.
pub const MIN_SEGMENT_DURATION_MS: u64 = 1000;

/// Offset basis of the 64-bit FNV-1a fingerprint.
pub const FNV_OFFSET_BASIS: u64 = 0xcbf2_9ce4_8422_2325;

/// Prime of the 64-bit FNV-1a fingerprint.
pub const FNV_PRIME: u64 = 0x100_0000_01b3;

/// One timestamped text fragment returned by the transcription service.
pub struct TranscriptSegment {
    /// The fragment's raw text, markers and all.
    pub text: String,
    /// Start of the fragment within the session, in milliseconds.
    pub t0_ms: u64,
    /// End of the fragment within the session, in milliseconds.
    pub t1_ms: u64,
}

/// One completed sentence, as delivered to the host.
#[derive(Debug, Clone)]
pub struct TranscriptUpdate {
    /// The sentence's text.
    pub text: String,
    /// The sentence's time range, "start - end" in seconds.
    pub timestamp: String,
    /// Which stream the sentence came from.
    pub source: String,
}

/// One fingerprint step: fold a 64-bit value into the hash.
pub open spec fn fp_step(h: u64, v: u64) -> u64 {
    u64_specs::wrapping_mul(h ^ v, FNV_PRIME)
}

/// The hash after folding every character of `s` into `h`.
pub open spec fn fp_chars(h: u64, s: Seq<char>) -> u64
    decreases s.len(),
{
    if s.len() == 0 {
        h
    } else {
        fp_chars(fp_step(h, s[0] as u64), s.skip(1))
    }
}

/// The fingerprint of a segment: its raw text and both timestamps, so that a
/// re-delivered segment — same text, same times — repeats it exactly.
pub open spec fn segment_fingerprint(text: Seq<char>, t0_ms: u64, t1_ms: u64) -> u64 {
    fp_step(fp_step(fp_chars(FNV_OFFSET_BASIS, text), t0_ms), t1_ms)
}

/// The abstract state of the accumulator.
#[verifier::ext_equal]
pub struct AccumulatorModel {
    /// The partial sentence held so far; empty between sentences.
    pub current_sentence: Seq<char>,
    /// Start time of the held sentence, in milliseconds.
    pub sentence_start_ms: u64,
    /// Time of the last `add_segment` call, in milliseconds.
    pub last_update_ms: u64,
    /// Fingerprint of the last accepted segment.
    pub last_segment_hash: u64,
}

/// Well-formedness: a held sentence is non-empty text without whitespace at
/// either end, and its start time leaves room for the timeout's estimated
/// end.
pub open spec fn acc_wf(m: AccumulatorModel) -> bool {
    m.current_sentence.len() > 0 ==> (!is_space(m.current_sentence[0]) && !is_space(
        m.current_sentence[m.current_sentence.len() - 1],
    ) && m.sentence_start_ms + SENTENCE_TIMEOUT_MS <= u64::MAX)
}

/// Whether a segment passes the accumulator's filters: cleaned text left
/// over, at least the minimum duration, and not a repeat of the previous
/// fingerprint.
pub open spec fn segment_accepted(
    m: AccumulatorModel,
    text: Seq<char>,
    t0_ms: u64,
    t1_ms: u64,
) -> bool {
    cleaned_text(text).len() > 0 && t1_ms >= t0_ms + MIN_SEGMENT_DURATION_MS
        && segment_fingerprint(text, t0_ms, t1_ms) != m.last_segment_hash
}

/// Whether a segment completes the held sentence and so emits an update.
pub open spec fn add_flushes(m: AccumulatorModel, text: Seq<char>, t0_ms: u64, t1_ms: u64) -> bool {
    segment_accepted(m, text, t0_ms, t1_ms) && ends_terminal(cleaned_text(text))
}

/// The start time the held sentence has once this segment is folded in: the
/// segment's own start when it opens a sentence, the held one otherwise.
pub open spec fn sentence_start_after(m: AccumulatorModel, t0_ms: u64) -> u64 {
    if m.current_sentence.len() == 0 {
        t0_ms
    } else {
        m.sentence_start_ms
    }
}

/// The accumulator's state after `add_segment`: an ignored segment only
/// refreshes the activity time; an accepted one extends (or, flushing,
/// empties) the held sentence and records its fingerprint.
pub open spec fn add_segment_post(
    m: AccumulatorModel,
    text: Seq<char>,
    t0_ms: u64,
    t1_ms: u64,
    now_ms: u64,
) -> AccumulatorModel {
    if !segment_accepted(m, text, t0_ms, t1_ms) {
        AccumulatorModel { last_update_ms: now_ms, ..m }
    } else {
        AccumulatorModel {
            current_sentence: if ends_terminal(cleaned_text(text)) {
                Seq::empty()
            } else {
                joined(m.current_sentence, cleaned_text(text))
            },
            sentence_start_ms: sentence_start_after(m, t0_ms),
            last_update_ms: now_ms,
            last_segment_hash: segment_fingerprint(text, t0_ms, t1_ms),
        }
    }
}

/// Whether the held sentence is due for a timeout flush at `now_ms`.
pub open spec fn timeout_due(m: AccumulatorModel, now_ms: u64) -> bool {
    m.current_sentence.len() > 0 && now_ms > m.last_update_ms + SENTENCE_TIMEOUT_MS
}

/// The accumulator's state after `check_timeout`: unchanged unless the flush
/// is due, in which case the held sentence is released.
pub open spec fn timeout_post(m: AccumulatorModel, now_ms: u64) -> AccumulatorModel {
    if timeout_due(m, now_ms) {
        AccumulatorModel { current_sentence: Seq::empty(), ..m }
    } else {
        m
    }
}

/// The sentence accumulator.
pub struct TranscriptAccumulator {
    /// The partial sentence held so far; empty between sentences.
    pub current_sentence: Vec<char>,
    /// Start time of the held sentence, in milliseconds.
    pub sentence_start_ms: u64,
    /// Time of the last `add_segment` call, in milliseconds.
    pub last_update_ms: u64,
    /// Fingerprint of the last accepted segment.
    pub last_segment_hash: u64,
}

impl View for TranscriptAccumulator {
    type V = AccumulatorModel;

    open spec fn view(&self) -> AccumulatorModel {
        AccumulatorModel {
            current_sentence: self.current_sentence@,
            sentence_start_ms: self.sentence_start_ms,
            last_update_ms: self.last_update_ms,
            last_segment_hash: self.last_segment_hash,
        }
    }
}

/// The fingerprint of a segment's raw text and timestamps.
fn fingerprint_segment(text: &Vec<char>, t0_ms: u64, t1_ms: u64) -> (h: u64)
    ensures
        h == segment_fingerprint(text@, t0_ms, t1_ms),
{
    let mut h: u64 = FNV_OFFSET_BASIS;
    let mut i: usize = 0;
    proof {
        assert(text@.skip(0) =~= text@);
    }
    while i < text.len()
        invariant
            i <= text@.len(),
            fp_chars(FNV_OFFSET_BASIS, text@) == fp_chars(h, text@.skip(i as int)),
        decreases text@.len() - i,
    {
        let ghost rest = text@.skip(i as int);
        let ghost h_prev = h;
        let c = text[i];
        h = (h ^ (c as u64)).wrapping_mul(FNV_PRIME);
        i = i + 1;
        proof {
            assert(rest[0] == text@[i - 1]);
            assert(rest.skip(1) =~= text@.skip(i as int));
            assert(h == fp_step(h_prev, rest[0] as u64));
            assert(fp_chars(h_prev, rest) == fp_chars(h, rest.skip(1)));
        }
    }
    proof {
        assert(text@.skip(text@.len() as int).len() == 0);
        assert(fp_chars(h, text@.skip(text@.len() as int)) == h);
    }
    let h1 = (h ^ t0_ms).wrapping_mul(FNV_PRIME);
    let h2 = (h1 ^ t1_ms).wrapping_mul(FNV_PRIME);
    h2
}

/// Appends every character of `src` to `dst`.
fn push_all(dst: &mut Vec<char>, src: &Vec<char>)
    ensures
        final(dst)@ == old(dst)@ + src@,
{
    proof {
        assert(dst.len() == dst@.len());
        assert(src.len() == src@.len());
    }
    let mut i: usize = 0;
    while i < src.len()
        invariant
            i <= src@.len(),
            dst@ == old(dst)@ + src@.take(i as int),
        decreases src@.len() - i,
    {
        dst.push(src[i]);
        i = i + 1;
        assert(dst@ =~= old(dst)@ + src@.take(i as int));
    }
    proof {
        assert(src@.take(src@.len() as int) =~= src@);
    }
}

impl TranscriptAccumulator {
    /// A fresh accumulator with no held sentence, created at time `now_ms`.
    pub fn new(now_ms: u64) -> (a: TranscriptAccumulator)
        ensures
            a@ == (AccumulatorModel {
                current_sentence: Seq::empty(),
                sentence_start_ms: 0,
                last_update_ms: now_ms,
                last_segment_hash: 0,
            }),
            acc_wf(a@),
    {
        let a = TranscriptAccumulator {
            current_sentence: Vec::new(),
            sentence_start_ms: 0,
            last_update_ms: now_ms,
            last_segment_hash: 0,
        };
        proof {
            assert(a@ =~= (AccumulatorModel {
                current_sentence: Seq::empty(),
                sentence_start_ms: 0,
                last_update_ms: now_ms,
                last_segment_hash: 0,
            }));
        }
        a
    }

    /// Folds one segment into the held sentence at time `now_ms`. Returns the
    /// completed sentence when this segment's cleaned text ends in terminal
    /// punctuation; otherwise returns nothing. A segment whose cleaned text
    /// is empty, whose duration falls short of the minimum, or whose
    /// fingerprint repeats the previous segment's is ignored apart from
    /// refreshing the activity time. An emitted update never carries text
    /// that trims to empty.
    pub fn add_segment(&mut self, segment: &TranscriptSegment, now_ms: u64) -> (r: Option<
        TranscriptUpdate,
    >)
        requires
            acc_wf(old(self)@),
        ensures
            acc_wf(final(self)@),
            final(self)@ == add_segment_post(
                old(self)@,
                segment.text@,
                segment.t0_ms,
                segment.t1_ms,
                now_ms,
            ),
            add_flushes(old(self)@, segment.text@, segment.t0_ms, segment.t1_ms) <==> (r matches Some(
                _,
            )),
            (r matches Some(u) ==> u.text@ == joined(
                old(self)@.current_sentence,
                cleaned_text(segment.text@),
            ) && u.timestamp@ == time_range_label(
                sentence_start_after(old(self)@, segment.t0_ms),
                segment.t1_ms,
            ) && u.source@ == "Mixed Audio"@),
            (r matches Some(u) ==> u.text@.len() > 0 && trimmed(u.text@) == u.text@),
    {
        let ghost m0 = old(self)@;
        self.last_update_ms = now_ms;
        let clean = clean_segment_text(segment.text.as_str());
        if clean.len() == 0 || segment.t1_ms < segment.t0_ms || segment.t1_ms - segment.t0_ms
            < MIN_SEGMENT_DURATION_MS {
            proof {
                assert(!segment_accepted(m0, segment.text@, segment.t0_ms, segment.t1_ms));
                assert(self@ =~= add_segment_post(
                    m0,
                    segment.text@,
                    segment.t0_ms,
                    segment.t1_ms,
                    now_ms,
                ));
            }
            return None;
        }
        let text_chars = str_to_chars(segment.text.as_str());
        let fp = fingerprint_segment(&text_chars, segment.t0_ms, segment.t1_ms);
        if fp == self.last_segment_hash {
            proof {
                assert(!segment_accepted(m0, segment.text@, segment.t0_ms, segment.t1_ms));
                assert(self@ =~= add_segment_post(
                    m0,
                    segment.text@,
                    segment.t0_ms,
                    segment.t1_ms,
                    now_ms,
                ));
            }
            return None;
        }
        proof {
            assert(segment_accepted(m0, segment.text@, segment.t0_ms, segment.t1_ms));
        }
        self.last_segment_hash = fp;
        if self.current_sentence.len() == 0 {
            self.sentence_start_ms = segment.t0_ms;
        }
        proof {
            assert(self.sentence_start_ms == sentence_start_after(m0, segment.t0_ms));
        }
        let mut sentence = self.current_sentence.split_off(0);
        if sentence.len() > 0 {
            let last = sentence[sentence.len() - 1];
            if last != ' ' {
                sentence.push(' ');
            }
        }
        push_all(&mut sentence, &clean);
        proof {
            assert(sentence@ =~= joined(m0.current_sentence, cleaned_text(segment.text@)));
            lemma_trimmed_shape(
                with_marker_removed(
                    with_marker_removed(segment.text@, blank_audio_marker()),
                    audio_out_marker(),
                ),
            );
            lemma_joined_shape(m0.current_sentence, cleaned_text(segment.text@));
        }
        let lc = clean[clean.len() - 1];
        if lc == '.' || lc == '?' || lc == '!' {
            let text_out = chars_to_string(&sentence);
            let timestamp = format_time_range(self.sentence_start_ms, segment.t1_ms);
            let source = String::from_str("Mixed Audio");
            proof {
                assert(ends_terminal(cleaned_text(segment.text@)));
                assert(self@ =~= add_segment_post(
                    m0,
                    segment.text@,
                    segment.t0_ms,
                    segment.t1_ms,
                    now_ms,
                ));
                lemma_trim_of_clean_id(sentence@);
            }
            Some(TranscriptUpdate { text: text_out, timestamp, source })
        } else {
            proof {
                assert(!ends_terminal(cleaned_text(segment.text@)));
            }
            self.current_sentence = sentence;
            proof {
                assert(self@ =~= add_segment_post(
                    m0,
                    segment.text@,
                    segment.t0_ms,
                    segment.t1_ms,
                    now_ms,
                ));
                assert(m0.current_sentence.len() > 0 ==> m0.sentence_start_ms
                    + SENTENCE_TIMEOUT_MS <= u64::MAX);
                assert(acc_wf(self@));
            }
            None
        }
    }

    /// Flushes the held sentence once more than the inactivity timeout has
    /// passed since the last segment arrived: emits it with an estimated end
    /// time — the sentence's start plus the timeout — and returns to the
    /// empty state. Does nothing when no sentence is held or the timeout has
    /// not yet passed. An emitted update never carries text that trims to
    /// empty.
    pub fn check_timeout(&mut self, now_ms: u64) -> (r: Option<TranscriptUpdate>)
        requires
            acc_wf(old(self)@),
        ensures
            acc_wf(final(self)@),
            final(self)@ == timeout_post(old(self)@, now_ms),
            timeout_due(old(self)@, now_ms) <==> (r matches Some(_)),
            (r matches Some(u) ==> u.text@ == old(self)@.current_sentence && u.timestamp@
                == time_range_label(
                old(self)@.sentence_start_ms,
                (old(self)@.sentence_start_ms + SENTENCE_TIMEOUT_MS) as u64,
            ) && u.source@ == "Mixed Audio"@),
            (r matches Some(u) ==> u.text@.len() > 0 && trimmed(u.text@) == u.text@),
    {
        let ghost m0 = old(self)@;
        if self.current_sentence.len() > 0 && now_ms > self.last_update_ms && now_ms
            - self.last_update_ms > SENTENCE_TIMEOUT_MS {
            let sentence = self.current_sentence.split_off(0);
            let end_ms = self.sentence_start_ms + SENTENCE_TIMEOUT_MS;
            let text_out = chars_to_string(&sentence);
            let timestamp = format_time_range(self.sentence_start_ms, end_ms);
            let source = String::from_str("Mixed Audio");
            proof {
                assert(timeout_due(m0, now_ms));
                assert(self@ =~= timeout_post(m0, now_ms));
                lemma_trim_of_clean_id(sentence@);
            }
            Some(TranscriptUpdate { text: text_out, timestamp, source })
        } else {
            proof {
                assert(!timeout_due(m0, now_ms));
            }
            None
        }
    }
}

/// A segment re-delivered with identical raw text and identical timestamps
/// is ignored: right after the first copy is accepted, the second carries
/// the fingerprint the accumulator just recorded, so it refreshes the
/// activity time and nothing else — and it emits nothing.
pub proof fn lemma_duplicate_segment_ignored(
    m: AccumulatorModel,
    text: Seq<char>,
    t0_ms: u64,
    t1_ms: u64,
    now1_ms: u64,
    now2_ms: u64,
)
    requires
        segment_accepted(m, text, t0_ms, t1_ms),
    ensures
        !segment_accepted(add_segment_post(m, text, t0_ms, t1_ms, now1_ms), text, t0_ms, t1_ms),
        !add_flushes(add_segment_post(m, text, t0_ms, t1_ms, now1_ms), text, t0_ms, t1_ms),
        add_segment_post(add_segment_post(m, text, t0_ms, t1_ms, now1_ms), text, t0_ms, t1_ms, now2_ms)
            == (AccumulatorModel { last_update_ms: now2_ms, ..add_segment_post(m, text, t0_ms, t1_ms, now1_ms) }),
{
    let m1 = add_segment_post(m, text, t0_ms, t1_ms, now1_ms);
    assert(m1.last_segment_hash == segment_fingerprint(text, t0_ms, t1_ms));
}

/// A sentence left alone past the timeout is flushed exactly once: the flush
/// is due, it empties the state, and a second timeout check — at any later
/// time — finds nothing to flush and changes nothing.
pub proof fn lemma_timeout_flushes_once(m: AccumulatorModel, now1_ms: u64, now2_ms: u64)
    requires
        timeout_due(m, now1_ms),
    ensures
        timeout_post(m, now1_ms).current_sentence.len() == 0,
        !timeout_due(timeout_post(m, now1_ms), now2_ms),
        timeout_post(timeout_post(m, now1_ms), now2_ms) == timeout_post(m, now1_ms),
{
}

} // verus!
