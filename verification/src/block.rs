use vstd::prelude::*;

verus! {

/// The number of frames a mono process call works on: the buffer length,
/// never more than the unit's block bound.
pub open spec fn spec_mono_frames(len: nat, max: nat) -> nat {
    if len <= max {
        len
    } else {
        max
    }
}

/// The number of frames a stereo process call works on: the common prefix
/// of both buffers, never more than the unit's block bound.
pub open spec fn spec_stereo_frames(len1: nat, len2: nat, max: nat) -> nat {
    spec_mono_frames(if len1 <= len2 { len1 } else { len2 }, max)
}

/// Clamp one buffer length to the block bound.
pub fn mono_frames(len: usize, max: usize) -> (frames: usize)
    ensures
        frames == spec_mono_frames(len as nat, max as nat),
        frames <= len && frames <= max,
{
    if len <= max {
        len
    } else {
        max
    }
}

/// Clamp a pair of buffer lengths to the block bound.
pub fn stereo_frames(len1: usize, len2: usize, max: usize) -> (frames: usize)
    ensures
        frames == spec_stereo_frames(len1 as nat, len2 as nat, max as nat),
        frames <= len1 && frames <= len2 && frames <= max,
{
    let common: usize = if len1 <= len2 {
        len1
    } else {
        len2
    };
    mono_frames(common, max)
}

/// How many chunks a host needs to cover `total` frames with pieces of at
/// most `max` frames each.
pub open spec fn spec_chunk_count(total: nat, max: nat) -> nat
    recommends
        max >= 1,
{
    if total == 0 {
        0
    } else {
        (((total - 1) / (max as int)) + 1) as nat
    }
}

/// The slicing a host performs before calling into a DSP unit: cover a
/// buffer of `total` frames with consecutive chunks, each starting where the
/// one before it ended, every chunk exactly `max` frames except a shorter
/// final one where `max` does not divide `total`. Each entry of the result
/// is one chunk as (first frame, frame count); a host then hands each chunk
/// to one process call.
pub fn chunk_schedule(total: usize, max: usize) -> (schedule: Vec<(usize, usize)>)
    requires
        max >= 1,
    ensures
        schedule@.len() == spec_chunk_count(total as nat, max as nat),
        forall|k: int|
            0 <= k < schedule@.len() ==> (#[trigger] schedule@[k]).0 == k * (max as int),
        forall|k: int|
            0 <= k < schedule@.len() ==> (#[trigger] schedule@[k]).0 + schedule@[k].1 == (
            if (k + 1) * (max as int) <= total {
                (k + 1) * (max as int)
            } else {
                total as int
            }),
        forall|k: int|
            0 <= k < schedule@.len() ==> 1 <= (#[trigger] schedule@[k]).1 <= max,
{
    let mut schedule: Vec<(usize, usize)> = Vec::new();
    let mut start: usize = 0;
    proof {
        assert(schedule@.len() * (max as int) == 0) by (nonlinear_arith)
            requires
                schedule@.len() == 0,
        ;
    }
    while start < total
        invariant
            max >= 1,
            start <= total,
            start == (if schedule@.len() * (max as int) <= total {
                schedule@.len() * (max as int)
            } else {
                total as int
            }),
            forall|k: int| 0 <= k < schedule@.len() ==> #[trigger] (k * (max as int)) < total,
            forall|k: int|
                0 <= k < schedule@.len() ==> (#[trigger] schedule@[k]).0 == k * (max as int),
            forall|k: int|
                0 <= k < schedule@.len() ==> (#[trigger] schedule@[k]).0 + schedule@[k].1 == (
                if (k + 1) * (max as int) <= total {
                    (k + 1) * (max as int)
                } else {
                    total as int
                }),
            forall|k: int|
                0 <= k < schedule@.len() ==> 1 <= (#[trigger] schedule@[k]).1 <= max,
        decreases total - start,
    {
        let ghost n = schedule@.len() as int;
        let remaining = total - start;
        let len = if remaining <= max {
            remaining
        } else {
            max
        };
        proof {
            assert(start == n * (max as int));
            assert((n + 1) * (max as int) == n * (max as int) + max) by (nonlinear_arith);
        }
        schedule.push((start, len));
        start = start + len;
    }
    proof {
        let n = schedule@.len() as int;
        let t = total as int;
        let m = max as int;
        if t == 0 {
            assert(n * m >= 0) by (nonlinear_arith)
                requires
                    n >= 0 && m >= 1,
            ;
        } else {
            assert(n >= 1);
            assert((n - 1) * m < t);
            assert(t <= n * m);
            assert((n - 1) * m == n * m - m) by (nonlinear_arith);
            assert((t - 1) / m == n - 1) by (nonlinear_arith)
                requires
                    m >= 1 && (n - 1) * m <= t - 1 && t - 1 < (n - 1) * m + m,
            ;
        }
    }
    schedule
}

} // verus!
