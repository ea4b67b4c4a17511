//! Nearest-sample resampling between two fixed sample rates.
//!
//! Samples travel through the engine as the raw 32-bit patterns of their PCM
//! values; resampling only rearranges them, so it never inspects a value.

use vstd::prelude::*;

verus! {

/// Length of the resampled sequence: `len * to / from`, rounded down.
pub open spec fn resampled_len(len: nat, from_rate: nat, to_rate: nat) -> nat {
    (len * to_rate) / from_rate
}

/// The resampled sequence: identity when the rates agree, otherwise the
/// nearest input sample by index-ratio mapping, with no interpolation.
pub open spec fn resampled(s: Seq<u32>, from_rate: nat, to_rate: nat) -> Seq<u32> {
    if from_rate == to_rate {
        s
    } else {
        Seq::new(resampled_len(s.len(), from_rate, to_rate), |i: int| s[(i * from_rate) / to_rate as int])
    }
}

/// Every index the ratio mapping produces lands inside the input.
proof fn lemma_source_index_in_range(len: nat, from_rate: nat, to_rate: nat, i: int)
    requires
        from_rate > 0,
        to_rate > 0,
        0 <= i < resampled_len(len, from_rate, to_rate),
    ensures
        0 <= (i * from_rate) / (to_rate as int) < len,
{
    let f = from_rate as int;
    let t = to_rate as int;
    let l = len as int;
    let out_len = (l * t) / f;
    assert(i + 1 <= out_len);
    assert((i + 1) * f <= out_len * f) by (nonlinear_arith)
        requires f > 0 && i + 1 <= out_len;
    assert(out_len * f <= l * t) by {
        vstd::arithmetic::div_mod::lemma_fundamental_div_mod(l * t, f);
        vstd::arithmetic::div_mod::lemma_mod_bound(l * t, f);
        assert(l * t >= 0) by (nonlinear_arith)
            requires l >= 0 && t >= 0;
    }
    assert((i + 1) * f == i * f + f) by (nonlinear_arith);
    assert(i * f <= l * t - f);
    assert(i * f >= 0) by (nonlinear_arith)
        requires i >= 0 && f >= 0;
    assert((i * f) / t >= 0) by {
        vstd::arithmetic::div_mod::lemma_div_is_ordered(0, i * f, t);
    }
    assert((i * f) / t < l) by {
        vstd::arithmetic::div_mod::lemma_fundamental_div_mod(i * f, t);
        vstd::arithmetic::div_mod::lemma_mod_bound(i * f, t);
        let q = (i * f) / t;
        assert(q * t <= i * f);
        if q >= l {
            assert(q * t >= l * t) by (nonlinear_arith)
                requires q >= l && t > 0;
            assert(l * t <= i * f);
            assert(i * f <= l * t - f);
            assert(false);
        }
    }
}

/// Converts samples captured at `from_rate` to the rate `to_rate` the
/// transcription service expects. When the rates already agree the input is
/// returned unchanged; otherwise each output sample is the nearest input
/// sample under the index-ratio mapping.
pub fn resample_audio(samples: &Vec<u32>, from_rate: u32, to_rate: u32) -> (out: Vec<u32>)
    requires
        from_rate > 0,
        to_rate > 0,
        samples@.len() * to_rate <= usize::MAX,
    ensures
        out@ == resampled(samples@, from_rate as nat, to_rate as nat),
{
    if from_rate == to_rate {
        let mut out: Vec<u32> = Vec::new();
        let mut i: usize = 0;
        while i < samples.len()
            invariant
                i <= samples@.len(),
                out@ == samples@.take(i as int),
            decreases samples@.len() - i,
        {
            out.push(samples[i]);
            i = i + 1;
            assert(out@ =~= samples@.take(i as int));
        }
        assert(samples@.take(samples@.len() as int) =~= samples@);
        out
    } else {
        let len128 = samples.len() as u128;
        proof {
            assert(samples@.len() * to_rate <= u128::MAX) by (nonlinear_arith)
                requires samples@.len() <= u64::MAX && to_rate <= u32::MAX;
        }
        let new_len128 = (len128 * (to_rate as u128)) / (from_rate as u128);
        proof {
            vstd::arithmetic::div_mod::lemma_div_nonincreasing(
                samples@.len() * to_rate,
                from_rate as int,
            );
            assert(new_len128 <= usize::MAX as u128);
        }
        let new_len = new_len128 as usize;
        let ghost spec_out = resampled(samples@, from_rate as nat, to_rate as nat);
        assert(spec_out.len() == new_len);
        let mut out: Vec<u32> = Vec::new();
        let mut i: usize = 0;
        while i < new_len
            invariant
                i <= new_len,
                new_len == resampled_len(samples@.len(), from_rate as nat, to_rate as nat),
                from_rate > 0,
                to_rate > 0,
                samples@.len() * to_rate <= usize::MAX,
                spec_out == resampled(samples@, from_rate as nat, to_rate as nat),
                from_rate != to_rate,
                spec_out.len() == new_len,
                out@ == spec_out.take(i as int),
            decreases new_len - i,
        {
            let ghost src_spec = (i as int * from_rate as int) / (to_rate as int);
            proof {
                lemma_source_index_in_range(samples@.len(), from_rate as nat, to_rate as nat, i as int);
                assert(i as int * from_rate as int <= u128::MAX) by (nonlinear_arith)
                    requires i <= u64::MAX && from_rate <= u32::MAX;
                assert(i as int * from_rate as int >= 0) by (nonlinear_arith)
                    requires i >= 0 && from_rate >= 0;
            }
            let prod: u128 = (i as u128) * (from_rate as u128);
            let src128 = prod / (to_rate as u128);
            proof {
                assert(src128 as int == src_spec);
                assert(src_spec < samples@.len());
                assert(samples@.len() <= samples@.len() * to_rate) by (nonlinear_arith)
                    requires to_rate >= 1;
                assert(src128 <= usize::MAX as u128);
            }
            let src_idx = src128 as usize;
            out.push(samples[src_idx]);
            i = i + 1;
            proof {
                assert(spec_out[i - 1] == samples@[src_spec]);
                assert(out@ =~= spec_out.take(i as int));
            }
        }
        assert(spec_out.take(new_len as int) =~= spec_out);
        out
    }
}

/// Resampling at an unchanged rate is the identity: the output sequence
/// equals the input sequence sample for sample.
pub proof fn lemma_resample_identity(s: Seq<u32>, rate: nat)
    ensures
        resampled(s, rate, rate) == s,
{
}

} // verus!
