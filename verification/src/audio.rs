//! Conditioning of decoded WAV samples for transcription: interleaved
//! multi-channel frames are mixed to mono by averaging, and the mono signal
//! is resampled to the transcriber's fixed rate by linear interpolation.
//!
//! Samples are the raw PCM integer values as read from the container;
//! scaling them to unit-range floating point is a per-sample conversion done
//! by the caller and does not change the structure proved here.

use vstd::prelude::*;

verus! {

/// The sample rate the transcriber expects.
pub const TARGET_SAMPLE_RATE: u32 = 16000;

/// Integer division that rounds toward zero, as the executable code computes
/// it on signed values.
pub open spec fn spec_div_trunc(x: int, d: int) -> int {
    if x >= 0 {
        x / d
    } else {
        -((-x) / d)
    }
}

/// Truncating division on `i64`, computed on magnitudes.
fn div_trunc_i64(x: i64, d: i64) -> (r: i64)
    requires
        d > 0,
        x > i64::MIN,
    ensures
        r == spec_div_trunc(x as int, d as int),
{
    if x >= 0 {
        let q: u64 = (x as u64) / (d as u64);
        q as i64
    } else {
        let q: u64 = ((-x) as u64) / (d as u64);
        -(q as i64)
    }
}

/// Truncating division on `i128`, computed on magnitudes.
fn div_trunc_i128(x: i128, d: i128) -> (r: i128)
    requires
        d > 0,
        x > i128::MIN,
    ensures
        r == spec_div_trunc(x as int, d as int),
{
    if x >= 0 {
        let q: u128 = (x as u128) / (d as u128);
        q as i128
    } else {
        let q: u128 = ((-x) as u128) / (d as u128);
        -(q as i128)
    }
}

/// The sum of a sequence of samples.
pub open spec fn seq_sum(s: Seq<i32>) -> int
    decreases s.len(),
{
    if s.len() == 0 {
        0
    } else {
        seq_sum(s.drop_last()) + s.last()
    }
}

/// Where frame `j` ends: `ch` samples past its start, or the end of the
/// signal for a trailing partial frame.
pub open spec fn spec_frame_end(len: int, ch: int, j: int) -> int {
    if j * ch + ch <= len {
        j * ch + ch
    } else {
        len
    }
}

/// The mono value of frame `j`: the frame's samples summed and divided by
/// the channel count (also for a trailing partial frame), rounding toward
/// zero.
pub open spec fn spec_frame_mean(s: Seq<i32>, ch: int, j: int) -> int {
    spec_div_trunc(seq_sum(s.subrange(j * ch, spec_frame_end(s.len() as int, ch, j))), ch)
}

/// How many frames an interleaved signal holds.
pub open spec fn spec_mono_len(len: int, ch: int) -> int {
    (len + ch - 1) / ch
}

/// Mixes an interleaved multi-channel signal to mono: each frame of `channels`
/// consecutive samples becomes the truncated mean of its values. A frame of
/// two channels `(l, r)` becomes `(l + r) / 2`.
pub fn mix_to_mono(samples: &Vec<i32>, channels: u16) -> (r: Vec<i32>)
    requires
        channels >= 1,
        samples@.len() + channels <= usize::MAX,
    ensures
        r@.len() == spec_mono_len(samples@.len() as int, channels as int),
        forall|j: int|
            0 <= j < r@.len() ==> r@[j] as int == spec_frame_mean(samples@, channels as int, j),
{
    let ch: usize = channels as usize;
    let len: usize = samples.len();
    let mut out: Vec<i32> = Vec::new();
    let mut base: usize = 0;
    proof {
        assert(out@.len() == 0);
        assert(out@.len() * ch == 0) by (nonlinear_arith)
            requires
                out@.len() == 0,
        ;
    }
    while base < len
        invariant
            ch == channels as int,
            channels >= 1,
            len == samples@.len(),
            len + ch <= usize::MAX,
            base == out@.len() * ch,
            out@.len() == 0 ==> base == 0,
            out@.len() > 0 ==> base - ch < len,
            len == 0 ==> base == 0 && out@.len() == 0,
            base <= len + ch,
            forall|j: int|
                0 <= j < out@.len() ==> out@[j] as int == spec_frame_mean(
                    samples@,
                    channels as int,
                    j,
                ),
        decreases len + ch - base,
    {
        let end: usize = if ch <= len - base {
            base + ch
        } else {
            len
        };
        let ghost j = out@.len() as int;
        proof {
            assert(end as int == spec_frame_end(len as int, ch as int, j));
        }
        let mut sum: i64 = 0;
        let mut k: usize = base;
        while k < end
            invariant
                base <= k <= end <= len,
                len == samples@.len(),
                end - base <= ch,
                ch <= 0xffff,
                sum == seq_sum(samples@.subrange(base as int, k as int)),
                -((k - base) * 0x8000_0000) <= sum <= (k - base) * 0x7fff_ffff,
            decreases end - k,
        {
            proof {
                assert(samples@.subrange(base as int, k + 1).drop_last() =~= samples@.subrange(
                    base as int,
                    k as int,
                ));
            }
            sum = sum + samples[k] as i64;
            k = k + 1;
        }
        let mean: i64 = div_trunc_i64(sum, ch as i64);
        proof {
            if sum >= 0 {
                assert(sum <= ch * 0x7fff_ffff) by (nonlinear_arith)
                    requires
                        sum <= (end - base) * 0x7fff_ffff,
                        0 <= end - base <= ch,
                ;
                assert((sum as int) / (ch as int) <= 0x7fff_ffff) by (nonlinear_arith)
                    requires
                        0 <= sum <= ch * 0x7fff_ffff,
                        ch >= 1,
                ;
            } else {
                assert((-sum) <= ch * 0x8000_0000) by (nonlinear_arith)
                    requires
                        -((end - base) * 0x8000_0000) <= sum < 0,
                        0 <= end - base <= ch,
                ;
                assert(((-sum) as int) / (ch as int) <= 0x8000_0000) by (nonlinear_arith)
                    requires
                        0 <= -sum <= ch * 0x8000_0000,
                        ch >= 1,
                ;
            }
        }
        out.push(mean as i32);
        proof {
            assert((out@.len() - 1) * ch + ch == out@.len() * ch) by (nonlinear_arith);
        }
        base = base + ch;
    }
    proof {
        if len == 0 {
            assert(spec_mono_len(0, ch as int) == 0) by (nonlinear_arith)
                requires
                    ch >= 1,
            ;
        } else {
            assert(out@.len() == spec_mono_len(len as int, ch as int)) by (nonlinear_arith)
                requires
                    ch >= 1,
                    len >= 1,
                    base == out@.len() * (ch as int),
                    base >= len,
                    base - ch < len,
            ;
        }
    }
    out
}

/// How many output samples resampling produces: the ceiling of
/// `len * to / from`.
pub open spec fn spec_resampled_len(len: int, from: int, to: int) -> int {
    (len * to + from - 1) / from
}

/// Output sample `i` of linear-interpolation resampling: the source position
/// is the rational `i * from / to`; the sample is the blend of the source
/// values at the floor of that position and one past it (out-of-range
/// positions read as zero) weighted by the fractional part, with the blend's
/// division rounding toward zero.
pub open spec fn spec_resample_at(s: Seq<i32>, from: int, to: int, i: int) -> int {
    let pos = i * from;
    let idx = pos / to;
    let rem = pos % to;
    let a: int = if 0 <= idx < s.len() {
        s[idx] as int
    } else {
        0
    };
    let b: int = if 0 <= idx + 1 < s.len() {
        s[idx + 1] as int
    } else {
        0
    };
    a + spec_div_trunc((b - a) * rem, to)
}

/// Resamples a mono signal from `from_rate` to `to_rate` by linear
/// interpolation. When the two rates are equal the signal comes back
/// unchanged.
pub fn resample(samples: &Vec<i32>, from_rate: u32, to_rate: u32) -> (r: Vec<i32>)
    requires
        from_rate >= 1,
        to_rate >= 1,
        samples@.len() * to_rate + from_rate <= u64::MAX,
        spec_resampled_len(samples@.len() as int, from_rate as int, to_rate as int) <= usize::MAX,
    ensures
        r@.len() == spec_resampled_len(samples@.len() as int, from_rate as int, to_rate as int),
        forall|i: int|
            0 <= i < r@.len() ==> r@[i] as int == spec_resample_at(
                samples@,
                from_rate as int,
                to_rate as int,
                i,
            ),
        from_rate == to_rate ==> r@ == samples@,
{
    let len: usize = samples.len();
    let from: u64 = from_rate as u64;
    let to: u64 = to_rate as u64;
    let num: u64 = (len as u64) * to + (from - 1);
    let new_len: usize = (num / from) as usize;
    let ghost glen = len as int;
    let ghost gfrom = from_rate as int;
    let ghost gto = to_rate as int;
    let mut out: Vec<i32> = Vec::new();
    let mut i: usize = 0;
    while i < new_len
        invariant
            len == samples@.len(),
            glen == len as int,
            gfrom == from_rate as int,
            gto == to_rate as int,
            from == from_rate as int,
            to == to_rate as int,
            from >= 1,
            to >= 1,
            glen * gto + gfrom <= u64::MAX,
            new_len == spec_resampled_len(glen, gfrom, gto),
            0 <= i <= new_len,
            out@.len() == i,
            forall|q: int|
                0 <= q < i ==> out@[q] as int == spec_resample_at(samples@, gfrom, gto, q),
        decreases new_len - i,
    {
        proof {
            // i * from stays below len * to, so the floor index is in range.
            vstd::arithmetic::div_mod::lemma_fundamental_div_mod(glen * gto + gfrom - 1, gfrom);
            assert(i as int * gfrom < glen * gto) by (nonlinear_arith)
                requires
                    0 <= i as int,
                    (i as int) < (new_len as int),
                    gfrom >= 1,
                    gto >= 1,
                    glen >= 0,
                    new_len as int == (glen * gto + gfrom - 1) / gfrom,
                    glen * gto + gfrom - 1 == gfrom * ((glen * gto + gfrom - 1) / gfrom) + (glen
                        * gto + gfrom - 1) % gfrom,
                    0 <= (glen * gto + gfrom - 1) % gfrom < gfrom,
            ;
        }
        let pos: u128 = (i as u128) * (from as u128);
        let idx_u: u128 = pos / (to as u128);
        let rem: u128 = pos % (to as u128);
        proof {
            vstd::arithmetic::div_mod::lemma_fundamental_div_mod(i as int * gfrom, gto);
            assert((i as int * gfrom) / gto < glen) by (nonlinear_arith)
                requires
                    i as int * gfrom < glen * gto,
                    i as int * gfrom >= 0,
                    gto >= 1,
                    glen >= 0,
                    i as int * gfrom == gto * ((i as int * gfrom) / gto) + (i as int * gfrom)
                        % gto,
                    0 <= (i as int * gfrom) % gto < gto,
            ;
            assert(pos == i as int * gfrom);
        }
        let idx: usize = idx_u as usize;
        let a: i32 = samples[idx];
        let b: i32 = if idx + 1 < len {
            samples[idx + 1]
        } else {
            0
        };
        let delta: i128 = (b as i128) - (a as i128);
        proof {
            assert(0 <= rem as int);
            assert((rem as int) < gto);
            assert({
                let p = (delta as int) * (rem as int);
                -0x1_0000_0000_0000_0000 < p && p < 0x1_0000_0000_0000_0000
            }) by (nonlinear_arith)
                requires
                    -0x1_0000_0000 <= delta as int,
                    (delta as int) <= 0x1_0000_0000,
                    0 <= rem as int,
                    (rem as int) < 0x1_0000_0000,
            ;
        }
        let prod: i128 = delta * (rem as i128);
        proof {
            if delta >= 0 {
                assert(0 <= (prod as int) && (prod as int) <= (delta as int) * gto)
                    by (nonlinear_arith)
                    requires
                        prod as int == (delta as int) * (rem as int),
                        0 <= rem as int,
                        (rem as int) < gto,
                        0 <= delta as int,
                ;
                assert(0 <= (prod as int) / gto) by (nonlinear_arith)
                    requires
                        0 <= prod as int,
                        gto >= 1,
                ;
                assert((prod as int) / gto <= delta as int) by (nonlinear_arith)
                    requires
                        0 <= prod as int,
                        (prod as int) <= (delta as int) * gto,
                        gto >= 1,
                        0 <= delta as int,
                ;
            } else {
                assert((prod as int) <= 0 && -(prod as int) <= (-(delta as int)) * gto)
                    by (nonlinear_arith)
                    requires
                        prod as int == (delta as int) * (rem as int),
                        0 <= rem as int,
                        (rem as int) < gto,
                        (delta as int) < 0,
                ;
                assert(0 <= (-(prod as int)) / gto) by (nonlinear_arith)
                    requires
                        0 <= -(prod as int),
                        gto >= 1,
                ;
                assert((-(prod as int)) / gto <= -(delta as int)) by (nonlinear_arith)
                    requires
                        0 <= -(prod as int),
                        -(prod as int) <= (-(delta as int)) * gto,
                        gto >= 1,
                ;
            }
        }
        let q: i128 = div_trunc_i128(prod, to as i128);
        let val: i128 = (a as i128) + q;
        proof {
            assert(idx as int == ((i as int) * gfrom) / gto);
            assert(rem as int == ((i as int) * gfrom) % gto);
            assert(val as int == spec_resample_at(samples@, gfrom, gto, i as int));
        }
        out.push(val as i32);
        i = i + 1;
    }
    proof {
        if from_rate == to_rate {
            lemma_resample_same_rate(samples@, gfrom);
            assert(out@ =~= samples@);
        }
    }
    out
}

/// Resampling a signal to its own rate is the identity: it has the input's
/// length and the input's value at every index.
pub proof fn lemma_resample_same_rate(s: Seq<i32>, rate: int)
    requires
        rate >= 1,
    ensures
        spec_resampled_len(s.len() as int, rate, rate) == s.len() as int,
        forall|i: int|
            0 <= i < s.len() ==> #[trigger] spec_resample_at(s, rate, rate, i) == s[i] as int,
{
    let len = s.len() as int;
    vstd::arithmetic::div_mod::lemma_fundamental_div_mod(len * rate + rate - 1, rate);
    assert(spec_resampled_len(len, rate, rate) == len) by (nonlinear_arith)
        requires
            rate >= 1,
            len >= 0,
            len * rate + rate - 1 == rate * ((len * rate + rate - 1) / rate) + (len * rate + rate
                - 1) % rate,
            0 <= (len * rate + rate - 1) % rate < rate,
    ;
    assert forall|i: int| 0 <= i < s.len() implies #[trigger] spec_resample_at(s, rate, rate, i)
        == s[i] as int by {
        vstd::arithmetic::div_mod::lemma_fundamental_div_mod(i * rate, rate);
        assert((i * rate) / rate == i && (i * rate) % rate == 0) by (nonlinear_arith)
            requires
                rate >= 1,
                0 <= i,
                i * rate == rate * ((i * rate) / rate) + (i * rate) % rate,
                0 <= (i * rate) % rate < rate,
        ;
    }
}

/// The output length of resampling is the ceiling of `len * to / from`:
/// the least count whose span at the source rate covers the input.
pub proof fn lemma_resampled_len_is_ceil(len: int, from: int, to: int)
    requires
        len >= 0,
        from >= 1,
        to >= 1,
    ensures
        spec_resampled_len(len, from, to) * from >= len * to,
        spec_resampled_len(len, from, to) * from < len * to + from,
{
    let n = spec_resampled_len(len, from, to);
    vstd::arithmetic::div_mod::lemma_fundamental_div_mod(len * to + from - 1, from);
    assert(n * from >= len * to && n * from < len * to + from) by (nonlinear_arith)
        requires
            from >= 1,
            n == (len * to + from - 1) / from,
            len * to + from - 1 == from * ((len * to + from - 1) / from) + (len * to + from - 1)
                % from,
            0 <= (len * to + from - 1) % from < from,
    ;
}

/// A constant signal resamples to the same constant throughout, whenever the
/// last output sample's source position does not interpolate past the final
/// input sample.
pub proof fn lemma_resample_constant(s: Seq<i32>, from: int, to: int, c: i32)
    requires
        from >= 1,
        to >= 1,
        s.len() >= 1,
        forall|k: int| 0 <= k < s.len() ==> s[k] == c,
        (spec_resampled_len(s.len() as int, from, to) - 1) * from <= (s.len() - 1) * to,
    ensures
        forall|i: int|
            0 <= i < spec_resampled_len(s.len() as int, from, to)
                ==> #[trigger] spec_resample_at(s, from, to, i) == c as int,
{
    let len = s.len() as int;
    let n = spec_resampled_len(len, from, to);
    assert forall|i: int| 0 <= i < n implies #[trigger] spec_resample_at(s, from, to, i)
        == c as int by {
        let pos = i * from;
        let idx = pos / to;
        let rem = pos % to;
        vstd::arithmetic::div_mod::lemma_fundamental_div_mod(pos, to);
        assert(pos <= (len - 1) * to) by (nonlinear_arith)
            requires
                pos == i * from,
                0 <= i <= n - 1,
                from >= 1,
                (n - 1) * from <= (len - 1) * to,
        ;
        assert(0 <= idx <= len - 1) by (nonlinear_arith)
            requires
                to >= 1,
                len >= 1,
                0 <= pos <= (len - 1) * to,
                idx == pos / to,
                pos == to * idx + rem,
                0 <= rem < to,
        ;
        if idx + 1 < len {
            assert(s[idx] == c && s[idx + 1] == c);
            assert((c as int - c as int) * rem == 0) by (nonlinear_arith);
            vstd::arithmetic::div_mod::lemma_div_of0(to);
            assert(spec_div_trunc(0, to) == 0);
        } else {
            assert(idx == len - 1);
            assert(rem == 0) by (nonlinear_arith)
                requires
                    pos == to * idx + rem,
                    pos <= (len - 1) * to,
                    idx == len - 1,
                    0 <= rem < to,
            ;
            assert(s[idx] == c);
            assert((0 - c as int) * 0 == 0) by (nonlinear_arith);
            vstd::arithmetic::div_mod::lemma_div_of0(to);
            assert(spec_div_trunc(0, to) == 0);
        }
    }
}

/// A complete two-channel frame `(l, r)` mixes to `(l + r) / 2`.
pub proof fn lemma_stereo_frame_mean(s: Seq<i32>, j: int)
    requires
        0 <= j,
        2 * j + 2 <= s.len(),
    ensures
        spec_frame_mean(s, 2, j) == spec_div_trunc(s[2 * j] as int + s[2 * j + 1] as int, 2),
{
    let f = s.subrange(2 * j, 2 * j + 2);
    assert(spec_frame_end(s.len() as int, 2, j) == 2 * j + 2);
    assert(f.len() == 2);
    assert(f.last() == s[2 * j + 1]);
    let g = f.drop_last();
    assert(g =~= seq![s[2 * j]]);
    assert(g.last() == s[2 * j]);
    assert(g.drop_last() =~= Seq::<i32>::empty());
    assert(seq_sum(g.drop_last()) == 0);
    assert(seq_sum(g) == s[2 * j] as int);
    assert(seq_sum(f) == s[2 * j] as int + s[2 * j + 1] as int);
}

/// Why audio input was rejected.
#[derive(Debug, Clone, Copy, PartialEq, Eq, Structural)]
pub enum AudioError {
    /// The file could not be found or opened.
    FileNotFound,
    /// Integer samples of a width the decoder does not handle.
    UnsupportedBitDepth(u16),
    /// The container is not a readable WAV file.
    Corrupt,
}

/// The value integer samples are normalized by: `2^(bits - 1)`, for the
/// supported widths of 16, 24 and 32 bits; any other width is rejected.
pub fn normalization_divisor(bits: u16) -> (r: Result<u32, AudioError>)
    ensures
        bits == 16 ==> r == Ok::<u32, AudioError>(0x8000u32),
        bits == 24 ==> r == Ok::<u32, AudioError>(0x80_0000u32),
        bits == 32 ==> r == Ok::<u32, AudioError>(0x8000_0000u32),
        !(bits == 16 || bits == 24 || bits == 32) ==> r == Err::<
            u32,
            AudioError,
        >(AudioError::UnsupportedBitDepth(bits)),
{
    if bits == 16 {
        Ok(0x8000u32)
    } else if bits == 24 {
        Ok(0x80_0000u32)
    } else if bits == 32 {
        Ok(0x8000_0000u32)
    } else {
        Err(AudioError::UnsupportedBitDepth(bits))
    }
}

/// `mono` is `s` mixed down to one channel.
pub open spec fn is_mono_mix(s: Seq<i32>, ch: int, mono: Seq<i32>) -> bool {
    if ch == 1 {
        mono == s
    } else {
        mono.len() == spec_mono_len(s.len() as int, ch) && forall|j: int|
            0 <= j < mono.len() ==> mono[j] as int == spec_frame_mean(s, ch, j)
    }
}

/// `out` is `s` resampled from `from` to `to`.
pub open spec fn is_resampled(s: Seq<i32>, from: int, to: int, out: Seq<i32>) -> bool {
    out.len() == spec_resampled_len(s.len() as int, from, to) && forall|i: int|
        0 <= i < out.len() ==> out[i] as int == spec_resample_at(s, from, to, i)
}

/// Conditions raw interleaved PCM for transcription: mixes to mono, then
/// resamples to [`TARGET_SAMPLE_RATE`] — unless the signal is already at that
/// rate, in which case no resampling pass runs. A header with no channels or
/// a zero sample rate is rejected as corrupt.
pub fn to_mono_16k(raw: Vec<i32>, channels: u16, sample_rate: u32) -> (r: Result<
    Vec<i32>,
    AudioError,
>)
    requires
        raw@.len() * 16000 + u32::MAX <= usize::MAX,
    ensures
        r is Err <==> channels == 0 || sample_rate == 0,
        r matches Err(e) ==> e == AudioError::Corrupt,
        r matches Ok(out) ==> exists|mono: Seq<i32>|
            {
                &&& #[trigger] is_mono_mix(raw@, channels as int, mono)
                &&& if sample_rate == TARGET_SAMPLE_RATE {
                    out@ == mono
                } else {
                    is_resampled(mono, sample_rate as int, TARGET_SAMPLE_RATE as int, out@)
                }
            },
{
    if channels == 0 || sample_rate == 0 {
        return Err(AudioError::Corrupt);
    }
    proof {
        assert(spec_mono_len(raw@.len() as int, channels as int) <= raw@.len()) by (nonlinear_arith)
            requires
                channels >= 1,
        ;
    }
    let mono: Vec<i32> = if channels == 1 {
        raw
    } else {
        mix_to_mono(&raw, channels)
    };
    let ghost gmono = mono@;
    proof {
        assert(is_mono_mix(raw@, channels as int, gmono));
    }
    if sample_rate == TARGET_SAMPLE_RATE {
        Ok(mono)
    } else {
        proof {
            vstd::arithmetic::div_mod::lemma_fundamental_div_mod(
                gmono.len() * 16000 + sample_rate - 1,
                sample_rate as int,
            );
            assert(spec_resampled_len(gmono.len() as int, sample_rate as int, 16000)
                <= gmono.len() * 16000) by (nonlinear_arith)
                requires
                    sample_rate >= 1,
                    gmono.len() >= 0,
                    gmono.len() * 16000 + sample_rate - 1 == (sample_rate as int) * ((gmono.len()
                        * 16000 + sample_rate - 1) / (sample_rate as int)) + (gmono.len() * 16000
                        + sample_rate - 1) % (sample_rate as int),
                    0 <= (gmono.len() * 16000 + sample_rate - 1) % (sample_rate as int)
                        < sample_rate,
            ;
            assert(gmono.len() * 16000 <= raw@.len() * 16000) by (nonlinear_arith)
                requires
                    gmono.len() <= raw@.len(),
            ;
        }
        let out = resample(&mono, sample_rate, TARGET_SAMPLE_RATE);
        proof {
            assert(is_resampled(gmono, sample_rate as int, TARGET_SAMPLE_RATE as int, out@));
        }
        Ok(out)
    }
}

} // verus!
