use vstd::prelude::*;

use crate::block::{mono_frames, spec_mono_frames, spec_stereo_frames, stereo_frames};
use crate::param::{
    param_dest, param_from_value, param_mapped, param_output, param_reset, param_set_sample_rate,
    param_set_value, param_smoothed, param_smoothing,
};
use crate::sample::{add_bits, f32_eq_bits, f32_le_bits, sample_add};
use crate::MAX_BLOCKSIZE;

verus! {

/// What one DC offset call does to a single buffer: each sample of the
/// processed prefix is the input sample plus the offset at the same index
/// of this block's smoothed offset sequence, and every sample past the
/// prefix is bit-for-bit unchanged.
pub open spec fn adds_offset_prefix(
    in0: Seq<u32>,
    out: Seq<u32>,
    offsets: Seq<u32>,
    frames: nat,
) -> bool {
    &&& out.len() == in0.len()
    &&& forall|i: int| 0 <= i < frames ==> #[trigger] out[i] == add_bits(in0[i], offsets[i])
    &&& forall|i: int| frames <= i < out.len() ==> #[trigger] out[i] == in0[i]
}

/// DSP structure for adding a variable, smoothed DC offset to a signal.
pub struct DcOffsetDSP {
    pub dc_offset: rusty_daw_core::ParamF32<MAX_BLOCKSIZE>,
}

/// UI handle for the DC offset DSP module.
pub struct DcOffsetUiHandle {
    pub dc_offset: rusty_daw_core::ParamF32Handle,
}

impl DcOffsetDSP {
    /// Create a unit whose offset parameter covers the inclusive range from
    /// `min` to `max` and rests at the mapped initial value, with no ramp in
    /// flight. All four arguments are bit patterns of binary32 values except
    /// the sample rate, which is in hertz. A range whose lower bound does
    /// not lie at or below its upper one is a construction error, caught
    /// here and never during per-block processing.
    pub fn new(min: u32, max: u32, initial: u32, sample_rate_hz: u32) -> (r: (
        DcOffsetDSP,
        DcOffsetUiHandle,
    ))
        requires
            f32_le_bits(min, max),
        ensures
            param_dest(r.0.dc_offset) == param_mapped(r.0.dc_offset, initial),
            !param_smoothing(r.0.dc_offset),
            param_output(r.0.dc_offset) == Seq::new(
                MAX_BLOCKSIZE as nat,
                |i: int| param_dest(r.0.dc_offset),
            ),
    {
        let (dc_offset, dc_offset_handle) = param_from_value(initial, min, max, sample_rate_hz);
        (DcOffsetDSP { dc_offset }, DcOffsetUiHandle { dc_offset: dc_offset_handle })
    }

    /// Re-arm the offset ramp toward a new target value (a binary32 bit
    /// pattern), which the parameter first clamps to its range: whenever the
    /// requested value differs from the current destination under IEEE
    /// equality, the ramp is armed toward the mapped value; asking for the
    /// destination's own value changes nothing at all. Meant to be called
    /// between blocks, never during one.
    pub fn set_target(&mut self, value: u32)
        ensures
            f32_eq_bits(param_dest(old(self).dc_offset), value) ==> *final(self) == *old(self),
            !f32_eq_bits(param_dest(old(self).dc_offset), value) ==> param_dest(
                final(self).dc_offset,
            ) == param_mapped(old(self).dc_offset, value) && param_smoothing(
                final(self).dc_offset,
            ),
            param_output(final(self).dc_offset) == param_output(old(self).dc_offset),
    {
        param_set_value(&mut self.dc_offset, value);
    }

    /// Reconfigure the smoothing filter for a new sample rate, between
    /// blocks. Only the ramp duration in samples changes: an in-flight
    /// target value, the smoothing status and the smoothing buffer all
    /// survive the change untouched.
    pub fn set_sample_rate(&mut self, sample_rate_hz: u32)
        ensures
            param_dest(final(self).dc_offset) == param_dest(old(self).dc_offset),
            param_output(final(self).dc_offset) == param_output(old(self).dc_offset),
            param_smoothing(final(self).dc_offset) == param_smoothing(old(self).dc_offset),
    {
        param_set_sample_rate(&mut self.dc_offset, sample_rate_hz);
    }

    /// Snap the smoothing state to a neutral rest position: the parameter
    /// keeps its destination but no ramp is in flight any more.
    pub fn reset_buffers(&mut self)
        ensures
            param_dest(final(self).dc_offset) == param_dest(old(self).dc_offset),
            !param_smoothing(final(self).dc_offset),
            param_output(final(self).dc_offset) == Seq::new(
                MAX_BLOCKSIZE as nat,
                |i: int| param_dest(final(self).dc_offset),
            ),
    {
        param_reset(&mut self.dc_offset);
    }

    /// Process a single channel in place: sample `i` of the result is the
    /// input sample plus the `i`-th smoothed offset value of this block.
    ///
    /// Only the buffer's prefix, clamped to the block bound, is processed;
    /// every sample past it is left bit-for-bit unchanged, and a zero-length
    /// block is a no-op, never a failure. When no ramp is in flight the
    /// whole block receives one constant offset — the fast path — which is
    /// an optimization, not a behavioral difference.
    pub fn process_replacing_mono_fb(&mut self, buf: &mut [u32])
        ensures
            adds_offset_prefix(
                old(buf)@,
                final(buf)@,
                param_output(final(self).dc_offset),
                spec_mono_frames(old(buf)@.len(), MAX_BLOCKSIZE as nat),
            ),
            !param_smoothing(final(self).dc_offset) ==> forall|i: int|
                0 <= i < spec_mono_frames(old(buf)@.len(), MAX_BLOCKSIZE as nat)
                    ==> #[trigger] final(buf)@[i] == add_bits(
                    old(buf)@[i],
                    param_dest(final(self).dc_offset),
                ),
            spec_mono_frames(old(buf)@.len(), MAX_BLOCKSIZE as nat) == 0 ==> *final(self) == *old(
                self,
            ),
    {
        let ghost buf0 = buf@;
        let frames = mono_frames(buf.len(), MAX_BLOCKSIZE);
        if frames == 0 {
            return ;
        }
        let (vals, smoothing) = param_smoothed(&mut self.dc_offset, frames);
        if !smoothing {
            let c = vals[0];
            for i in 0..frames
                invariant
                    frames <= buf0.len(),
                    frames <= MAX_BLOCKSIZE,
                    buf@.len() == buf0.len(),
                    forall|k: int| 0 <= k < frames ==> #[trigger] vals@[k] == c,
                    forall|j: int| 0 <= j < i ==> #[trigger] buf@[j] == add_bits(buf0[j], vals@[j]),
                    forall|j: int| i <= j < buf0.len() ==> #[trigger] buf@[j] == buf0[j],
            {
                buf[i] = sample_add(buf[i], c);
            }
        } else {
            for i in 0..frames
                invariant
                    frames <= buf0.len(),
                    frames <= MAX_BLOCKSIZE,
                    buf@.len() == buf0.len(),
                    forall|j: int| 0 <= j < i ==> #[trigger] buf@[j] == add_bits(buf0[j], vals@[j]),
                    forall|j: int| i <= j < buf0.len() ==> #[trigger] buf@[j] == buf0[j],
            {
                buf[i] = sample_add(buf[i], vals[i]);
            }
        }
    }

    /// Process a stereo pair of channels in place. Both channels receive
    /// the exact same smoothed offset at each sample index: the unit owns
    /// one parameter, not two.
    ///
    /// Only the common prefix of both buffers, clamped to the block bound,
    /// is processed; every sample past it is left bit-for-bit unchanged, and
    /// a zero-length block is a no-op, never a failure.
    pub fn process_replacing_stereo_fb(&mut self, buf_1: &mut [u32], buf_2: &mut [u32])
        ensures
            adds_offset_prefix(
                old(buf_1)@,
                final(buf_1)@,
                param_output(final(self).dc_offset),
                spec_stereo_frames(old(buf_1)@.len(), old(buf_2)@.len(), MAX_BLOCKSIZE as nat),
            ),
            adds_offset_prefix(
                old(buf_2)@,
                final(buf_2)@,
                param_output(final(self).dc_offset),
                spec_stereo_frames(old(buf_1)@.len(), old(buf_2)@.len(), MAX_BLOCKSIZE as nat),
            ),
            spec_stereo_frames(old(buf_1)@.len(), old(buf_2)@.len(), MAX_BLOCKSIZE as nat) == 0
                ==> *final(self) == *old(self),
    {
        let ghost b10 = buf_1@;
        let ghost b20 = buf_2@;
        let frames = stereo_frames(buf_1.len(), buf_2.len(), MAX_BLOCKSIZE);
        if frames == 0 {
            return ;
        }
        let (vals, smoothing) = param_smoothed(&mut self.dc_offset, frames);
        if !smoothing {
            let c = vals[0];
            for i in 0..frames
                invariant
                    frames <= b10.len() && frames <= b20.len(),
                    frames <= MAX_BLOCKSIZE,
                    buf_1@.len() == b10.len(),
                    buf_2@.len() == b20.len(),
                    forall|k: int| 0 <= k < frames ==> #[trigger] vals@[k] == c,
                    forall|j: int| 0 <= j < i ==> #[trigger] buf_1@[j] == add_bits(b10[j], vals@[j]),
                    forall|j: int| 0 <= j < i ==> #[trigger] buf_2@[j] == add_bits(b20[j], vals@[j]),
                    forall|j: int| i <= j < b10.len() ==> #[trigger] buf_1@[j] == b10[j],
                    forall|j: int| i <= j < b20.len() ==> #[trigger] buf_2@[j] == b20[j],
            {
                buf_1[i] = sample_add(buf_1[i], c);
                buf_2[i] = sample_add(buf_2[i], c);
            }
        } else {
            for i in 0..frames
                invariant
                    frames <= b10.len() && frames <= b20.len(),
                    frames <= MAX_BLOCKSIZE,
                    buf_1@.len() == b10.len(),
                    buf_2@.len() == b20.len(),
                    forall|j: int| 0 <= j < i ==> #[trigger] buf_1@[j] == add_bits(b10[j], vals@[j]),
                    forall|j: int| 0 <= j < i ==> #[trigger] buf_2@[j] == add_bits(b20[j], vals@[j]),
                    forall|j: int| i <= j < b10.len() ==> #[trigger] buf_1@[j] == b10[j],
                    forall|j: int| i <= j < b20.len() ==> #[trigger] buf_2@[j] == b20[j],
            {
                buf_1[i] = sample_add(buf_1[i], vals[i]);
                buf_2[i] = sample_add(buf_2[i], vals[i]);
            }
        }
    }

    /// The horizontal (lane-parallel) strategy for the same transform. No
    /// lane-parallel implementation exists yet, so the scalar fallback
    /// stands in: every strategy must produce the fallback's numbers, and
    /// this one does so by being the fallback.
    pub fn process_replacing_stereo_h<const LANES: usize>(
        &mut self,
        buf_1: &mut [u32],
        buf_2: &mut [u32],
    )
        ensures
            adds_offset_prefix(
                old(buf_1)@,
                final(buf_1)@,
                param_output(final(self).dc_offset),
                spec_stereo_frames(old(buf_1)@.len(), old(buf_2)@.len(), MAX_BLOCKSIZE as nat),
            ),
            adds_offset_prefix(
                old(buf_2)@,
                final(buf_2)@,
                param_output(final(self).dc_offset),
                spec_stereo_frames(old(buf_1)@.len(), old(buf_2)@.len(), MAX_BLOCKSIZE as nat),
            ),
            spec_stereo_frames(old(buf_1)@.len(), old(buf_2)@.len(), MAX_BLOCKSIZE as nat) == 0
                ==> *final(self) == *old(self),
    {
        self.process_replacing_stereo_fb(buf_1, buf_2);
    }

    /// The vertical (packed-sample) strategy for the same transform. No
    /// packed implementation exists yet, so the scalar fallback stands in.
    pub fn process_replacing_stereo_v(&mut self, buf_1: &mut [u32], buf_2: &mut [u32])
        ensures
            adds_offset_prefix(
                old(buf_1)@,
                final(buf_1)@,
                param_output(final(self).dc_offset),
                spec_stereo_frames(old(buf_1)@.len(), old(buf_2)@.len(), MAX_BLOCKSIZE as nat),
            ),
            adds_offset_prefix(
                old(buf_2)@,
                final(buf_2)@,
                param_output(final(self).dc_offset),
                spec_stereo_frames(old(buf_1)@.len(), old(buf_2)@.len(), MAX_BLOCKSIZE as nat),
            ),
            spec_stereo_frames(old(buf_1)@.len(), old(buf_2)@.len(), MAX_BLOCKSIZE as nat) == 0
                ==> *final(self) == *old(self),
    {
        self.process_replacing_stereo_fb(buf_1, buf_2);
    }
}

/// A block processed sample-by-sample against a constant ramp equals the
/// block processed against that single constant: when a parameter's target
/// equals its current value, the per-sample slow path and the constant fast
/// path produce identical output for the same input.
pub proof fn lemma_constant_block_fast_slow_agree(
    input: Seq<u32>,
    vals: Seq<u32>,
    c: u32,
    frames: int,
)
    requires
        0 <= frames <= input.len(),
        frames <= vals.len(),
        forall|i: int| 0 <= i < frames ==> #[trigger] vals[i] == c,
    ensures
        forall|i: int|
            0 <= i < frames ==> #[trigger] add_bits(input[i], vals[i]) == add_bits(input[i], c),
{
}

} // verus!
