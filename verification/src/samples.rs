use vstd::prelude::*;

verus! {

/// Rust's division of integers, which rounds toward zero.
pub open spec fn div_toward_zero(a: int, b: int) -> int
    recommends
        b > 0,
{
    if a >= 0 {
        a / b
    } else {
        -((-a) / b)
    }
}

/// Full scale of the audio level that scales samples.
pub const AUDIO_LEVEL_MAX: i32 = 65535;

/// The DAC value of one decoded sample: the sample is scaled by `level`
/// against half of `AUDIO_LEVEL_MAX` when a level is set, then mapped from
/// signed 16-bit range to the unsigned 8-bit range of the DAC by dividing by
/// 256 and adding 128, keeping the low eight bits.
pub open spec fn spec_dac_sample(sample: i16, level: Option<i32>) -> u8 {
    let scaled: int = match level {
        Some(l) => div_toward_zero(sample * l, 32767),
        None => sample as int,
    };
    (div_toward_zero(scaled, 256) + 128) as u8
}

/// Converts one decoded sample to a DAC value.
pub fn dac_sample(sample: i16, level: Option<i32>) -> (value: u8)
    requires
        level matches Some(l) ==> i32::MIN <= sample * l <= i32::MAX,
    ensures
        value == spec_dac_sample(sample, level),
{
    let s = sample as i32;
    let s = match level {
        Some(l) => s * l / (AUDIO_LEVEL_MAX / 2),
        None => s,
    };
    (s / 256 + 128) as u8
}

/// Whether scaling `sample` by `level` stays within `i32`.
pub open spec fn scaling_fits(sample: i16, level: Option<i32>) -> bool {
    level matches Some(l) ==> i32::MIN <= sample * l <= i32::MAX
}

/// The audio level that scales samples, from the raw level that the level
/// control reports: the raw value, taken as an `i32`, times
/// `AUDIO_LEVEL_MAX`, divided by `AUDIO_LEVEL_MAX`.
pub open spec fn spec_volume_level(raw: Option<u32>) -> Option<i32> {
    match raw {
        Some(l) => Some(div_toward_zero((l as i32) * 65535, 65535) as i32),
        None => None,
    }
}

/// Whether computing the audio level from `raw` stays within `i32`.
pub open spec fn volume_fits(raw: Option<u32>) -> bool {
    raw matches Some(l) ==> i32::MIN <= (l as i32) * 65535 <= i32::MAX
}

/// Computes the audio level that scales samples from the raw level; a raw
/// level that fits comes back unchanged.
pub fn volume_level(raw: Option<u32>) -> (level: Option<i32>)
    requires
        volume_fits(raw),
    ensures
        level == spec_volume_level(raw),
        match raw {
            Some(l) => level == Some(l as i32),
            None => level is None,
        },
{
    match raw {
        Some(l) => {
            let v = l as i32;
            proof {
                let p: int = v * 65535;
                assert(div_toward_zero(p, 65535) == v) by (nonlinear_arith)
                    requires
                        p == v * 65535,
                        -32768 <= v <= 32768,
                {
                    if v >= 0 {
                        assert(p / 65535 == v);
                    } else {
                        assert(-p == (-v) * 65535);
                        assert((-p) / 65535 == -v);
                    }
                }
            }
            Some(v * AUDIO_LEVEL_MAX / AUDIO_LEVEL_MAX)
        },
        None => None,
    }
}

/// The DAC values of the first channel of an interleaved frame: the value of
/// sample `i * channels` for each `i` below `sample_count`.
pub open spec fn spec_first_channel(samples: Seq<i16>, channels: int, sample_count: int, level: Option<
    i32,
>) -> Seq<u8> {
    Seq::new(sample_count as nat, |i: int| spec_dac_sample(samples[i * channels], level))
}

/// Whether every first-channel sample of a frame can be scaled by `level`.
pub open spec fn first_channel_fits(samples: Seq<i16>, channels: int, sample_count: int, level: Option<
    i32,
>) -> bool {
    forall|i: int| 0 <= i < sample_count ==> #[trigger] scaling_fits(samples[i * channels], level)
}

/// Converts the first channel of an interleaved frame to DAC values.
pub fn first_channel(samples: &Vec<i16>, channels: u16, sample_count: usize, level: Option<i32>) -> (values:
    Vec<u8>)
    requires
        channels >= 1,
        samples@.len() == sample_count * channels,
        first_channel_fits(samples@, channels as int, sample_count as int, level),
    ensures
        values@ == spec_first_channel(samples@, channels as int, sample_count as int, level),
        values@.len() == sample_count,
        forall|i: int| 0 <= i < sample_count ==> #[trigger] values@[i] == spec_dac_sample(samples@[i * channels], level),
{
    let ch = channels as usize;
    let total = samples.len();
    let mut values: Vec<u8> = Vec::new();
    let mut i: usize = 0;
    while i < sample_count
        invariant
            ch == channels,
            ch >= 1,
            total == samples@.len(),
            samples@.len() == sample_count * ch,
            first_channel_fits(samples@, ch as int, sample_count as int, level),
            i <= sample_count,
            values@.len() == i,
            forall|j: int| 0 <= j < i ==> #[trigger] values@[j] == spec_dac_sample(samples@[j * ch], level),
        decreases sample_count - i,
    {
        assert(i * ch < sample_count * ch) by (nonlinear_arith)
            requires
                i < sample_count,
                ch >= 1,
        ;
        assert(i * ch < total);
        assert(scaling_fits(samples@[i * ch], level));
        let v = dac_sample(samples[i * ch], level);
        values.push(v);
        i = i + 1;
    }
    assert(values@ =~= spec_first_channel(samples@, ch as int, sample_count as int, level));
    values
}

/// Without a level, a sample maps onto the DAC range without wrapping, and
/// a larger sample never gives a smaller value.
pub proof fn lemma_unscaled_sample_in_range(a: i16, b: i16)
    ensures
        spec_dac_sample(a, None) as int == div_toward_zero(a as int, 256) + 128,
        a <= b ==> spec_dac_sample(a, None) <= spec_dac_sample(b, None),
{
    let qa = div_toward_zero(a as int, 256);
    let qb = div_toward_zero(b as int, 256);
    assert(-128 <= qa <= 127);
    assert(-128 <= qb <= 127);
    assert(a <= b ==> qa <= qb);
}

/// One reading `level` of the level control after `last`: the level to
/// remember next, and the level to share, which is there only when the
/// reading changed.
pub fn watch_level(last: u32, level: u32) -> (res: (u32, Option<u32>))
    ensures
        res == (level, if level != last { Some(level) } else { None }),
{
    if last != level {
        (level, Some(level))
    } else {
        (last, None)
    }
}

/// Without a level, a sample `s` becomes `s / 256 + 128`, the division
/// rounding toward zero: a non-negative sample gives the floor of `s / 256`
/// plus 128, a negative one 128 less the floor of `-s / 256`. With level 0
/// every sample becomes 128.
pub proof fn lemma_dac_formula(s: i16)
    ensures
        s >= 0 ==> spec_dac_sample(s, None) as int == s as int / 256 + 128,
        s < 0 ==> spec_dac_sample(s, None) as int == 128 - (-(s as int)) / 256,
        spec_dac_sample(s, Some(0i32)) == 128,
{
    assert(s * 0i32 == 0);
    lemma_unscaled_sample_in_range(s, s);
}

} // verus!
