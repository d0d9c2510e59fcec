//! Small real-time audio DSP cores built around one shared protocol: every
//! process call clamps its buffers to a hard block bound, queries its
//! smoothed parameters once for that many frames, and then transforms the
//! samples in place, taking a fast constant-value path when no ramp is in
//! flight and a per-sample path while one is.
//!
//! Samples are carried as raw IEEE 754 binary32 bit patterns (`u32`); the
//! per-sample arithmetic is delegated to an outside software float
//! implementation behind a few trusted wrappers, and everything above those
//! wrappers — clamping, dispatch, the mid/side algebra, the block chunking
//! that a host performs — is verified.

use vstd::prelude::*;

pub mod block;
pub mod dc_offset;
pub mod mid_side;
pub mod param;
pub mod sample;

verus! {

/// Hard upper bound on how many samples one process call of the DC offset
/// unit may touch, and the capacity of its parameter's smoothing buffer.
/// It matches the block size that a typical host promises never to exceed.
pub const MAX_BLOCKSIZE: usize = 128;

} // verus!
