use vstd::prelude::*;

verus! {

/// Lowest key covered by the sample table.
pub const KEY_LOW: u8 = 21;

/// Highest key covered by the sample table.
pub const KEY_HIGH: u8 = 108;

/// Ratio `2^(n/12)` scaled by `SCALE`, for `n` whole tones above an edge
/// key: the frequency ratio between two keys `n` semitones apart.
pub open spec fn spec_ratio_up(n: int) -> int {
    if n <= 0 {
        1_000_000
    } else if n == 1 {
        1_059_463
    } else if n == 2 {
        1_122_462
    } else if n == 3 {
        1_189_207
    } else if n == 4 {
        1_259_921
    } else if n == 5 {
        1_334_840
    } else if n == 6 {
        1_414_214
    } else if n == 7 {
        1_498_307
    } else if n == 8 {
        1_587_401
    } else if n == 9 {
        1_681_793
    } else if n == 10 {
        1_781_797
    } else if n == 11 {
        1_887_749
    } else if n == 12 {
        2_000_000
    } else if n == 13 {
        2_118_926
    } else if n == 14 {
        2_244_924
    } else if n == 15 {
        2_378_414
    } else if n == 16 {
        2_519_842
    } else if n == 17 {
        2_669_680
    } else if n == 18 {
        2_828_427
    } else {
        2_996_614
    }
}

/// Ratio `2^(-n/12)` scaled by `SCALE`, for `n` semitones below an edge key.
pub open spec fn spec_ratio_down(n: int) -> int {
    if n <= 0 {
        1_000_000
    } else if n == 1 {
        943_874
    } else if n == 2 {
        890_899
    } else if n == 3 {
        840_896
    } else if n == 4 {
        793_701
    } else if n == 5 {
        749_154
    } else if n == 6 {
        707_107
    } else if n == 7 {
        667_420
    } else if n == 8 {
        629_961
    } else if n == 9 {
        594_604
    } else if n == 10 {
        561_231
    } else if n == 11 {
        529_732
    } else if n == 12 {
        500_000
    } else if n == 13 {
        471_937
    } else if n == 14 {
        445_449
    } else if n == 15 {
        420_448
    } else if n == 16 {
        396_850
    } else if n == 17 {
        374_577
    } else if n == 18 {
        353_553
    } else if n == 19 {
        333_710
    } else if n == 20 {
        314_980
    } else {
        297_302
    }
}

/// Frequency ratio between a requested key and the nearest edge of the
/// covered key range, scaled by `SCALE`: keys inside the range play their
/// own sample at unit ratio; keys outside it borrow the edge sample,
/// pitch-shifted by the ratio between the two keys' frequencies.
pub open spec fn spec_key_ratio(key: u8) -> int {
    if key < KEY_LOW {
        spec_ratio_down(KEY_LOW - key)
    } else if key > KEY_HIGH {
        spec_ratio_up(key - KEY_HIGH)
    } else {
        1_000_000
    }
}

/// Index into the per-key sample table serving a requested key: the key's
/// own slot inside the covered range, the nearest edge slot outside it.
pub open spec fn spec_sample_index(key: u8) -> int {
    if key < KEY_LOW {
        0
    } else if key > KEY_HIGH {
        (KEY_HIGH - KEY_LOW) as int
    } else {
        key - KEY_LOW
    }
}

/// The key ratio of any key lies between the two extreme edge ratios.
pub proof fn lemma_key_ratio_range(key: u8)
    ensures
        297_302 <= spec_key_ratio(key) <= 2_996_614,
{
}

pub fn ratio_up(n: u8) -> (r: u64)
    requires
        n <= 19,
    ensures
        r == spec_ratio_up(n as int),
{
    if n == 0 {
        1_000_000
    } else if n == 1 {
        1_059_463
    } else if n == 2 {
        1_122_462
    } else if n == 3 {
        1_189_207
    } else if n == 4 {
        1_259_921
    } else if n == 5 {
        1_334_840
    } else if n == 6 {
        1_414_214
    } else if n == 7 {
        1_498_307
    } else if n == 8 {
        1_587_401
    } else if n == 9 {
        1_681_793
    } else if n == 10 {
        1_781_797
    } else if n == 11 {
        1_887_749
    } else if n == 12 {
        2_000_000
    } else if n == 13 {
        2_118_926
    } else if n == 14 {
        2_244_924
    } else if n == 15 {
        2_378_414
    } else if n == 16 {
        2_519_842
    } else if n == 17 {
        2_669_680
    } else if n == 18 {
        2_828_427
    } else {
        2_996_614
    }
}

pub fn ratio_down(n: u8) -> (r: u64)
    requires
        n <= 21,
    ensures
        r == spec_ratio_down(n as int),
{
    if n == 0 {
        1_000_000
    } else if n == 1 {
        943_874
    } else if n == 2 {
        890_899
    } else if n == 3 {
        840_896
    } else if n == 4 {
        793_701
    } else if n == 5 {
        749_154
    } else if n == 6 {
        707_107
    } else if n == 7 {
        667_420
    } else if n == 8 {
        629_961
    } else if n == 9 {
        594_604
    } else if n == 10 {
        561_231
    } else if n == 11 {
        529_732
    } else if n == 12 {
        500_000
    } else if n == 13 {
        471_937
    } else if n == 14 {
        445_449
    } else if n == 15 {
        420_448
    } else if n == 16 {
        396_850
    } else if n == 17 {
        374_577
    } else if n == 18 {
        353_553
    } else if n == 19 {
        333_710
    } else if n == 20 {
        314_980
    } else {
        297_302
    }
}

/// Frequency ratio between a requested key and the nearest covered edge
/// key, scaled by `SCALE`.
pub fn key_ratio(key: u8) -> (r: u64)
    requires
        key <= 127,
    ensures
        r == spec_key_ratio(key),
        297_302 <= r <= 2_996_614,
{
    proof {
        lemma_key_ratio_range(key);
    }
    if key < KEY_LOW {
        ratio_down(KEY_LOW - key)
    } else if key > KEY_HIGH {
        ratio_up(key - KEY_HIGH)
    } else {
        1_000_000
    }
}

/// Index into the per-key sample table serving a requested key.
pub fn sample_index(key: u8) -> (r: usize)
    ensures
        r == spec_sample_index(key),
        r <= KEY_HIGH - KEY_LOW,
{
    if key < KEY_LOW {
        0
    } else if key > KEY_HIGH {
        (KEY_HIGH - KEY_LOW) as usize
    } else {
        (key - KEY_LOW) as usize
    }
}

/// Velocity amplitude after `n` steps of attenuation: each velocity step
/// below full scale multiplies the amplitude by `25/26` (that is, divides
/// by `1.04`), truncating in fixed point.
pub open spec fn spec_amp_iter(n: nat) -> int
    decreases n,
{
    if n == 0 {
        1_000_000
    } else {
        spec_amp_iter((n - 1) as nat) * 25 / 26
    }
}

/// Amplitude of a note velocity, scaled by `SCALE`: full scale at the top
/// velocity, attenuated by one `25/26` step per velocity below it.
pub open spec fn spec_amp(vel: u8) -> int {
    spec_amp_iter((127 - vel) as nat)
}

/// Velocity amplitudes stay within `[0, SCALE]`.
pub proof fn lemma_amp_iter_range(n: nat)
    ensures
        0 <= spec_amp_iter(n) <= 1_000_000,
    decreases n,
{
    if n > 0 {
        lemma_amp_iter_range((n - 1) as nat);
    }
}

/// Amplitude of a note velocity, scaled by `SCALE`.
pub fn amp_for_vel(vel: u8) -> (r: i64)
    requires
        vel <= 127,
    ensures
        r == spec_amp(vel),
        0 <= r <= 1_000_000,
{
    let steps: u8 = 127 - vel;
    let mut amp: i64 = 1_000_000;
    let mut i: u8 = 0;
    while i < steps
        invariant
            i <= steps,
            amp == spec_amp_iter(i as nat),
            0 <= amp <= 1_000_000,
        decreases steps - i,
    {
        amp = amp * 25 / 26;
        i = i + 1;
        proof {
            lemma_amp_iter_range(i as nat);
        }
    }
    amp
}

} // verus!
