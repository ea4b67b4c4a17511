use meeting_transcriber::codec::{encode_chunk, stereo_to_mono};
use meeting_transcriber::mixer::{
    align_sources, StreamMixer, CHUNK_DURATION_MS, FULL_CHUNK_SAMPLES, MIN_CHUNK_SAMPLES,
};
use meeting_transcriber::resample::resample_audio;

#[test]
fn resampling_at_same_rate_is_identity() {
    let samples: Vec<u32> = vec![1, 2, 3, 4, 5];
    let out = resample_audio(&samples, 44100, 44100);
    assert_eq!(out, samples);
}

#[test]
fn resampling_halves_and_doubles_by_index_mapping() {
    let samples: Vec<u32> = vec![10, 20, 30, 40];
    assert_eq!(resample_audio(&samples, 2, 1), vec![10, 30]);
    assert_eq!(resample_audio(&samples, 1, 2), vec![10, 10, 20, 20, 30, 30, 40, 40]);
}

#[test]
fn resampling_to_whisper_rate_shrinks_by_ratio() {
    let samples: Vec<u32> = (0..44100).collect();
    let out = resample_audio(&samples, 44100, 16000);
    assert_eq!(out.len(), 16000);
    // Spot-check the nearest-index mapping.
    assert_eq!(out[0], 0);
    assert_eq!(out[1], 44100 / 16000);
    assert_eq!(out[15999], (15999u32 * 44100) / 16000);
}

#[test]
fn encode_chunk_is_little_endian_per_sample() {
    // Bit patterns of the float values 1.0 and 0.0.
    let one_bits = 1.0f32.to_bits();
    let samples: Vec<u32> = vec![one_bits, 0];
    let bytes = encode_chunk(&samples);
    assert_eq!(bytes, vec![0x00, 0x00, 0x80, 0x3F, 0x00, 0x00, 0x00, 0x00]);
    assert_eq!(bytes.len(), 4 * samples.len());
}

#[test]
fn encode_chunk_of_nothing_is_empty() {
    let samples: Vec<u32> = Vec::new();
    assert!(encode_chunk(&samples).is_empty());
}

#[test]
fn stereo_to_mono_averages_pairs_and_drops_remainder() {
    let stereo: Vec<i16> = vec![100, 200, -5, -6, 7];
    let mono = stereo_to_mono(&stereo);
    assert_eq!(mono, vec![150, -5]);
}

#[test]
fn stereo_to_mono_handles_extremes() {
    let stereo: Vec<i16> = vec![i16::MIN, i16::MIN, i16::MAX, i16::MAX];
    let mono = stereo_to_mono(&stereo);
    assert_eq!(mono, vec![i16::MIN, i16::MAX]);
}

#[test]
fn align_sources_pads_the_shorter_run_with_silence() {
    let mic: Vec<u32> = vec![1, 2, 3];
    let sys: Vec<u32> = vec![9];
    let (a, b) = align_sources(&mic, &sys);
    assert_eq!(a, vec![1, 2, 3]);
    assert_eq!(b, vec![9, 0, 0]);
}

#[test]
fn align_sources_of_two_empty_runs_is_empty() {
    let mic: Vec<u32> = Vec::new();
    let sys: Vec<u32> = Vec::new();
    let (a, b) = align_sources(&mic, &sys);
    assert!(a.is_empty());
    assert!(b.is_empty());
}

#[test]
fn chunk_dispatch_waits_for_minimum_then_time() {
    let mut mixer = StreamMixer::new(0);
    let batch: Vec<u32> = vec![7; MIN_CHUNK_SAMPLES];
    mixer.push_mixed(&batch);
    // Holds a minimum chunk, but a full chunk's duration has not elapsed.
    assert!(!mixer.should_dispatch(CHUNK_DURATION_MS as u64 - 1));
    assert!(mixer.should_dispatch(CHUNK_DURATION_MS as u64));
    let chunk = mixer.take_chunk(CHUNK_DURATION_MS as u64);
    assert!(chunk.len() >= MIN_CHUNK_SAMPLES && chunk.len() <= FULL_CHUNK_SAMPLES);
    assert!(mixer.chunk.is_empty());
    assert_eq!(mixer.last_dispatch_ms, CHUNK_DURATION_MS as u64);
}

#[test]
fn chunk_dispatch_fires_on_size_alone() {
    let mut mixer = StreamMixer::new(0);
    let batch: Vec<u32> = vec![1; FULL_CHUNK_SAMPLES];
    mixer.push_mixed(&batch);
    // Full chunk: due immediately, elapsed time notwithstanding.
    assert!(mixer.should_dispatch(0));
    let chunk = mixer.take_chunk(5);
    assert_eq!(chunk.len(), FULL_CHUNK_SAMPLES);
    assert!(chunk.len() >= MIN_CHUNK_SAMPLES && chunk.len() <= FULL_CHUNK_SAMPLES);
}

#[test]
fn undersized_buffer_never_dispatches() {
    let mut mixer = StreamMixer::new(0);
    let batch: Vec<u32> = vec![1; MIN_CHUNK_SAMPLES - 1];
    mixer.push_mixed(&batch);
    assert!(!mixer.should_dispatch(u64::MAX));
}
