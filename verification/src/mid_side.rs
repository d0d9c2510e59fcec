use vstd::prelude::*;

use crate::block::{spec_stereo_frames, stereo_frames};
use crate::sample::{add_bits, mul_bits, sample_add, sample_mul, sample_sub, sub_bits, ONE_HALF_BITS};

verus! {

/// Per-sample mid value of the splitter: half the sum of left and right.
pub open spec fn mid_of(l: u32, r: u32) -> u32 {
    mul_bits(ONE_HALF_BITS, add_bits(l, r))
}

/// Per-sample side value of the splitter: half the difference, by
/// convention left minus right, never right minus left.
pub open spec fn side_of(l: u32, r: u32) -> u32 {
    mul_bits(ONE_HALF_BITS, sub_bits(l, r))
}

/// Per-sample left value of the merger: mid plus side, with no further
/// scaling, since the one factor of one half was already applied at the
/// splitter's output.
pub open spec fn left_of(m: u32, s: u32) -> u32 {
    add_bits(m, s)
}

/// Per-sample right value of the merger: mid minus side, unscaled.
pub open spec fn right_of(m: u32, s: u32) -> u32 {
    sub_bits(m, s)
}

/// What one splitter call does to a left/right pair of buffers under the
/// block bound `max`: the common prefix of both, clamped to `max`, becomes
/// mid and side, and every sample past it is bit-for-bit unchanged.
pub open spec fn splits_block(l0: Seq<u32>, r0: Seq<u32>, m: Seq<u32>, s: Seq<u32>, max: nat) -> bool {
    let frames = spec_stereo_frames(l0.len(), r0.len(), max);
    &&& m.len() == l0.len()
    &&& s.len() == r0.len()
    &&& forall|i: int| 0 <= i < frames ==> #[trigger] m[i] == mid_of(l0[i], r0[i])
    &&& forall|i: int| 0 <= i < frames ==> #[trigger] s[i] == side_of(l0[i], r0[i])
    &&& forall|i: int| frames <= i < m.len() ==> #[trigger] m[i] == l0[i]
    &&& forall|i: int| frames <= i < s.len() ==> #[trigger] s[i] == r0[i]
}

/// What one merger call does to a mid/side pair of buffers under the block
/// bound `max`: the common prefix of both, clamped to `max`, becomes left
/// and right with no scaling, and every sample past it is bit-for-bit
/// unchanged.
pub open spec fn merges_block(m0: Seq<u32>, s0: Seq<u32>, l: Seq<u32>, r: Seq<u32>, max: nat) -> bool {
    let frames = spec_stereo_frames(m0.len(), s0.len(), max);
    &&& l.len() == m0.len()
    &&& r.len() == s0.len()
    &&& forall|i: int| 0 <= i < frames ==> #[trigger] l[i] == left_of(m0[i], s0[i])
    &&& forall|i: int| 0 <= i < frames ==> #[trigger] r[i] == right_of(m0[i], s0[i])
    &&& forall|i: int| frames <= i < l.len() ==> #[trigger] l[i] == m0[i]
    &&& forall|i: int| frames <= i < r.len() ==> #[trigger] r[i] == s0[i]
}

/// DSP structure for converting left/right signals to mid/side.
///
/// Mid/side processing owns no parameters, so the unit itself is stateless.
pub struct MidSideSplitterDSP<const MAX_BLOCKSIZE: usize> {}

/// Mid/side processing has no parameters, so there is nothing for a UI to
/// control.
pub struct MidSideSplitterUiHandle {}

impl<const MAX_BLOCKSIZE: usize> MidSideSplitterDSP<MAX_BLOCKSIZE> {
    pub fn new() -> (r: (MidSideSplitterDSP<MAX_BLOCKSIZE>, MidSideSplitterUiHandle))
        ensures
            r.0 == (MidSideSplitterDSP::<MAX_BLOCKSIZE> {}),
    {
        (MidSideSplitterDSP {}, MidSideSplitterUiHandle {})
    }

    /// The splitter owns no smoothing state, so a sample rate change leaves
    /// it untouched.
    pub fn set_sample_rate(&mut self, _sample_rate_hz: u32)
        ensures
            *final(self) == *old(self),
    {
    }

    /// The splitter owns no ramp state, so there is nothing to reset.
    pub fn reset_buffers(&mut self)
        ensures
            *final(self) == *old(self),
    {
    }

    /// Convert a left/right pair of buffers to mid/side, in place, with the
    /// plain scalar loop.
    ///
    /// Only the common prefix of both buffers, clamped to the block bound,
    /// is processed; every sample past it is left bit-for-bit unchanged.
    ///
    /// On entry `buf_1` holds left and `buf_2` holds right; on return
    /// `buf_1` holds mid and `buf_2` holds side.
    pub fn process_replacing_stereo_fb(&self, buf_1: &mut [u32], buf_2: &mut [u32])
        ensures
            splits_block(
                old(buf_1)@,
                old(buf_2)@,
                final(buf_1)@,
                final(buf_2)@,
                MAX_BLOCKSIZE as nat,
            ),
    {
        let ghost left0 = buf_1@;
        let ghost right0 = buf_2@;
        let frames = stereo_frames(buf_1.len(), buf_2.len(), MAX_BLOCKSIZE);
        for i in 0..frames
            invariant
                frames == spec_stereo_frames(left0.len(), right0.len(), MAX_BLOCKSIZE as nat),
                buf_1@.len() == left0.len(),
                buf_2@.len() == right0.len(),
                frames <= left0.len() && frames <= right0.len(),
                forall|j: int| 0 <= j < i ==> #[trigger] buf_1@[j] == mid_of(left0[j], right0[j]),
                forall|j: int| 0 <= j < i ==> #[trigger] buf_2@[j] == side_of(left0[j], right0[j]),
                forall|j: int| i <= j < left0.len() ==> #[trigger] buf_1@[j] == left0[j],
                forall|j: int| i <= j < right0.len() ==> #[trigger] buf_2@[j] == right0[j],
        {
            let temp_mid = sample_mul(ONE_HALF_BITS, sample_add(buf_1[i], buf_2[i]));
            buf_2[i] = sample_mul(ONE_HALF_BITS, sample_sub(buf_1[i], buf_2[i]));
            buf_1[i] = temp_mid;
        }
    }

    /// The horizontal (lane-parallel) strategy for the same transform. No
    /// lane-parallel implementation exists yet, so the scalar fallback
    /// stands in: every strategy must produce the fallback's numbers, and
    /// this one does so by being the fallback.
    pub fn process_replacing_stereo_h<const LANES: usize>(&self, buf_1: &mut [u32], buf_2: &mut [u32])
        ensures
            splits_block(
                old(buf_1)@,
                old(buf_2)@,
                final(buf_1)@,
                final(buf_2)@,
                MAX_BLOCKSIZE as nat,
            ),
    {
        self.process_replacing_stereo_fb(buf_1, buf_2);
    }

    /// The vertical (packed-sample) strategy for the same transform. No
    /// packed implementation exists yet, so the scalar fallback stands in.
    pub fn process_replacing_stereo_v(&self, buf_1: &mut [u32], buf_2: &mut [u32])
        ensures
            splits_block(
                old(buf_1)@,
                old(buf_2)@,
                final(buf_1)@,
                final(buf_2)@,
                MAX_BLOCKSIZE as nat,
            ),
    {
        self.process_replacing_stereo_fb(buf_1, buf_2);
    }
}

/// DSP structure for converting mid/side signals back to left/right.
///
/// Mid/side processing owns no parameters, so the unit itself is stateless.
pub struct MidSideMergerDSP<const MAX_BLOCKSIZE: usize> {}

/// Mid/side processing has no parameters, so there is nothing for a UI to
/// control.
pub struct MidSideMergerUiHandle {}

impl<const MAX_BLOCKSIZE: usize> MidSideMergerDSP<MAX_BLOCKSIZE> {
    pub fn new() -> (r: (MidSideMergerDSP<MAX_BLOCKSIZE>, MidSideMergerUiHandle))
        ensures
            r.0 == (MidSideMergerDSP::<MAX_BLOCKSIZE> {}),
    {
        (MidSideMergerDSP {}, MidSideMergerUiHandle {})
    }

    /// The merger owns no smoothing state, so a sample rate change leaves
    /// it untouched.
    pub fn set_sample_rate(&mut self, _sample_rate_hz: u32)
        ensures
            *final(self) == *old(self),
    {
    }

    /// The merger owns no ramp state, so there is nothing to reset.
    pub fn reset_buffers(&mut self)
        ensures
            *final(self) == *old(self),
    {
    }

    /// Convert a mid/side pair of buffers back to left/right, in place,
    /// with the plain scalar loop, applying no scaling: the one factor of
    /// one half was already consumed at the splitter.
    ///
    /// Only the common prefix of both buffers, clamped to the block bound,
    /// is processed; every sample past it is left bit-for-bit unchanged.
    ///
    /// On entry `buf_1` holds mid and `buf_2` holds side; on return `buf_1`
    /// holds left and `buf_2` holds right.
    pub fn process_replacing_stereo_fb(&self, buf_1: &mut [u32], buf_2: &mut [u32])
        ensures
            merges_block(
                old(buf_1)@,
                old(buf_2)@,
                final(buf_1)@,
                final(buf_2)@,
                MAX_BLOCKSIZE as nat,
            ),
    {
        let ghost mid0 = buf_1@;
        let ghost side0 = buf_2@;
        let frames = stereo_frames(buf_1.len(), buf_2.len(), MAX_BLOCKSIZE);
        for i in 0..frames
            invariant
                frames == spec_stereo_frames(mid0.len(), side0.len(), MAX_BLOCKSIZE as nat),
                buf_1@.len() == mid0.len(),
                buf_2@.len() == side0.len(),
                frames <= mid0.len() && frames <= side0.len(),
                forall|j: int| 0 <= j < i ==> #[trigger] buf_1@[j] == left_of(mid0[j], side0[j]),
                forall|j: int| 0 <= j < i ==> #[trigger] buf_2@[j] == right_of(mid0[j], side0[j]),
                forall|j: int| i <= j < mid0.len() ==> #[trigger] buf_1@[j] == mid0[j],
                forall|j: int| i <= j < side0.len() ==> #[trigger] buf_2@[j] == side0[j],
        {
            let temp_left = sample_add(buf_1[i], buf_2[i]);
            buf_2[i] = sample_sub(buf_1[i], buf_2[i]);
            buf_1[i] = temp_left;
        }
    }

    /// The horizontal (lane-parallel) strategy for the same transform. No
    /// lane-parallel implementation exists yet, so the scalar fallback
    /// stands in.
    pub fn process_replacing_stereo_h<const LANES: usize>(&self, buf_1: &mut [u32], buf_2: &mut [u32])
        ensures
            merges_block(
                old(buf_1)@,
                old(buf_2)@,
                final(buf_1)@,
                final(buf_2)@,
                MAX_BLOCKSIZE as nat,
            ),
    {
        self.process_replacing_stereo_fb(buf_1, buf_2);
    }

    /// The vertical (packed-sample) strategy for the same transform. No
    /// packed implementation exists yet, so the scalar fallback stands in.
    pub fn process_replacing_stereo_v(&self, buf_1: &mut [u32], buf_2: &mut [u32])
        ensures
            merges_block(
                old(buf_1)@,
                old(buf_2)@,
                final(buf_1)@,
                final(buf_2)@,
                MAX_BLOCKSIZE as nat,
            ),
    {
        self.process_replacing_stereo_fb(buf_1, buf_2);
    }
}

/// The round trip of the pair — splitting a left/right block and merging the
/// result right away, under one block bound — reduces, on every processed
/// sample, to the one scalar composition `left_of(mid_of(l, r), side_of(l,
/// r))` and its right-channel counterpart, while every sample past the
/// processed prefix comes through bit-for-bit unchanged. Whether that scalar
/// composition returns `l` and `r` themselves is a rounding fact of binary32
/// arithmetic, outside this model; the lemma shows the buffers add no error
/// of their own.
pub proof fn lemma_round_trip_reduces_to_samples(
    l0: Seq<u32>,
    r0: Seq<u32>,
    m: Seq<u32>,
    s: Seq<u32>,
    l1: Seq<u32>,
    r1: Seq<u32>,
    max: nat,
)
    requires
        splits_block(l0, r0, m, s, max),
        merges_block(m, s, l1, r1, max),
    ensures
        l1.len() == l0.len(),
        r1.len() == r0.len(),
        forall|i: int|
            0 <= i < spec_stereo_frames(l0.len(), r0.len(), max) ==> #[trigger] l1[i] == left_of(
                mid_of(l0[i], r0[i]),
                side_of(l0[i], r0[i]),
            ),
        forall|i: int|
            0 <= i < spec_stereo_frames(l0.len(), r0.len(), max) ==> #[trigger] r1[i] == right_of(
                mid_of(l0[i], r0[i]),
                side_of(l0[i], r0[i]),
            ),
        forall|i: int|
            spec_stereo_frames(l0.len(), r0.len(), max) <= i < l1.len() ==> #[trigger] l1[i]
                == l0[i],
        forall|i: int|
            spec_stereo_frames(l0.len(), r0.len(), max) <= i < r1.len() ==> #[trigger] r1[i]
                == r0[i],
{
}

} // verus!
