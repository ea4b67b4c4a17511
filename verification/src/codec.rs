//! Encoding of audio for transport.
//!
//! A chunk travels to the transcription service as raw 32-bit float PCM,
//! little-endian, one sample after another. Samples are carried through this
//! crate as the raw bit patterns of their float values; clamping a value to
//! `[-1.0, 1.0]` is float arithmetic and happens at the host's edge, before
//! the samples reach the encoder.

use vstd::prelude::*;

verus! {

/// The four little-endian bytes of a 32-bit value.
pub open spec fn le_bytes_of(v: u32) -> Seq<u8> {
    seq![
        (v & 0xFF) as u8,
        ((v >> 8u32) & 0xFF) as u8,
        ((v >> 16u32) & 0xFF) as u8,
        ((v >> 24u32) & 0xFF) as u8,
    ]
}

/// The wire encoding of a chunk: each sample spelled out as its four
/// little-endian bytes, in order.
pub open spec fn encoded_chunk(s: Seq<u32>) -> Seq<u8> {
    Seq::new(s.len() * 4, |k: int| le_bytes_of(s[k / 4])[k % 4])
}

/// Encodes a chunk of samples as the binary payload the transcription
/// service expects: for each sample in order, its four little-endian bytes.
pub fn encode_chunk(samples: &Vec<u32>) -> (bytes: Vec<u8>)
    requires
        samples@.len() * 4 <= usize::MAX,
    ensures
        bytes@ == encoded_chunk(samples@),
{
    let mut bytes: Vec<u8> = Vec::new();
    let mut i: usize = 0;
    while i < samples.len()
        invariant
            i <= samples@.len(),
            samples@.len() * 4 <= usize::MAX,
            bytes@.len() == i * 4,
            bytes@ == encoded_chunk(samples@.take(i as int)),
        decreases samples@.len() - i,
    {
        let c = samples[i];
        proof {
            assert(c & 0xFF < 256 && (c >> 8u32) & 0xFF < 256 && (c >> 16u32) & 0xFF < 256
                && (c >> 24u32) & 0xFF < 256) by (bit_vector);
        }
        bytes.push((c & 0xFF) as u8);
        bytes.push(((c >> 8u32) & 0xFF) as u8);
        bytes.push(((c >> 16u32) & 0xFF) as u8);
        bytes.push(((c >> 24u32) & 0xFF) as u8);
        i = i + 1;
        proof {
            let t = samples@.take(i as int);
            assert forall|k: int| 0 <= k < i * 4 implies bytes@[k] == encoded_chunk(t)[k] by {
                assert(t[k / 4] == samples@[k / 4]);
            }
            assert(bytes@ =~= encoded_chunk(t));
        }
    }
    proof {
        assert(samples@.take(samples@.len() as int) =~= samples@);
    }
    bytes
}

/// One mono sample from a stereo pair: the average of the two channels,
/// rounded toward zero as 32-bit machine division rounds.
pub open spec fn mono_sample(l: int, r: int) -> int {
    if l + r >= 0 {
        (l + r) / 2
    } else {
        -((-(l + r)) / 2)
    }
}

/// Folds interleaved stereo samples down to mono by averaging each pair of
/// channels; a trailing unpaired sample is dropped.
pub fn stereo_to_mono(stereo: &[i16]) -> (mono: Vec<i16>)
    ensures
        mono@.len() == stereo@.len() / 2,
        forall|i: int|
            0 <= i < mono@.len() ==> mono@[i] == mono_sample(
                stereo@[2 * i] as int,
                stereo@[2 * i + 1] as int,
            ),
{
    let mut mono: Vec<i16> = Vec::new();
    let n = stereo.len() / 2;
    let mut i: usize = 0;
    while i < n
        invariant
            i <= n,
            n == stereo@.len() / 2,
            stereo@.len() <= usize::MAX,
            mono@.len() == i,
            forall|j: int|
                0 <= j < i ==> mono@[j] == mono_sample(
                    stereo@[2 * j] as int,
                    stereo@[2 * j + 1] as int,
                ),
        decreases n - i,
    {
        assert(2 * i + 1 < stereo@.len());
        let left = stereo[2 * i] as i32;
        let right = stereo[2 * i + 1] as i32;
        let sum = left + right;
        let combined: i32 = if sum >= 0 {
            sum / 2
        } else {
            -((-sum) / 2)
        };
        mono.push(combined as i16);
        i = i + 1;
    }
    mono
}

} // verus!
