use vstd::prelude::*;

use crate::sample::f32_eq_bits;
use crate::MAX_BLOCKSIZE;

verus! {

/// Declares rusty_daw_core's auto-smoothed `f32` parameter for use in
/// signatures and fields; its state is reached only through the named
/// observers and wrappers below.
#[verifier::external_type_specification]
#[verifier::external_body]
pub struct ExParamF32<const N: usize>(rusty_daw_core::ParamF32<N>);

/// Declares rusty_daw_core's UI-side handle to such a parameter; the
/// library only stores and hands it out, it never goes through it itself.
#[verifier::external_type_specification]
#[verifier::external_body]
pub struct ExParamF32Handle(rusty_daw_core::ParamF32Handle);

/// Name for the parameter's smoothing destination: the bit pattern of the
/// value the ramp is heading for (or resting at).
pub uninterp spec fn param_dest(p: rusty_daw_core::ParamF32<MAX_BLOCKSIZE>) -> u32;

/// Name for the contents of the parameter's smoothing buffer: the block of
/// per-sample values that the most recent query produced, as bit patterns.
pub uninterp spec fn param_output(p: rusty_daw_core::ParamF32<MAX_BLOCKSIZE>) -> Seq<u32>;

/// Name for the parameter's smoothing status: true while a ramp is in
/// flight (including the one settling block right after it lands).
pub uninterp spec fn param_smoothing(p: rusty_daw_core::ParamF32<MAX_BLOCKSIZE>) -> bool;

/// Name for the value mapping the parameter was built with: a requested
/// value is clamped to the parameter's range and round-tripped through its
/// normalized form before it becomes a smoothing destination.
pub uninterp spec fn param_mapped(p: rusty_daw_core::ParamF32<MAX_BLOCKSIZE>, value: u32) -> u32;

/// Relies on rusty_daw_core's `ParamF32::from_value`: the new parameter is
/// not smoothing, rests at the mapped initial value, and its whole
/// smoothing buffer is filled with that value. Built with a linear
/// gradient, a generic unit and the crate's default smoothing period, as a
/// plain offset parameter calls for.
#[verifier::external_body]
pub(crate) fn param_from_value(
    initial: u32,
    min: u32,
    max: u32,
    sample_rate_hz: u32,
) -> (r: (rusty_daw_core::ParamF32<MAX_BLOCKSIZE>, rusty_daw_core::ParamF32Handle))
    ensures
        param_dest(r.0) == param_mapped(r.0, initial),
        !param_smoothing(r.0),
        param_output(r.0) == Seq::new(MAX_BLOCKSIZE as nat, |i: int| param_dest(r.0)),
{
    rusty_daw_core::ParamF32::from_value(
        bytemuck::cast(initial),
        bytemuck::cast(min),
        bytemuck::cast(max),
        rusty_daw_core::Gradient::Linear,
        rusty_daw_core::Unit::Generic,
        rusty_daw_core::DEFAULT_SMOOTH_SECS,
        rusty_daw_core::SampleRate(sample_rate_hz.into()),
    )
}

/// Relies on rusty_daw_core's `ParamF32::set_value`: it compares the raw
/// requested value against the current destination under IEEE equality.
/// When they differ it re-arms the ramp toward the mapped requested value —
/// so re-requesting an out-of-range value that maps back onto the unchanged
/// destination still arms a ramp — and when they are equal it does nothing
/// at all. The smoothing buffer is untouched either way.
#[verifier::external_body]
pub(crate) fn param_set_value(p: &mut rusty_daw_core::ParamF32<MAX_BLOCKSIZE>, value: u32)
    ensures
        f32_eq_bits(param_dest(*old(p)), value) ==> *final(p) == *old(p),
        !f32_eq_bits(param_dest(*old(p)), value) ==> param_dest(*final(p)) == param_mapped(
            *old(p),
            value,
        ) && param_smoothing(*final(p)),
        param_output(*final(p)) == param_output(*old(p)),
{
    p.set_value(bytemuck::cast(value));
}

/// Relies on rusty_daw_core's `ParamF32::smoothed`: it advances the ramp by
/// `frames` samples and exposes the parameter's whole smoothing buffer,
/// whose first `frames` entries are this block's per-sample values; and
/// whenever it reports that no smoothing is in flight, every entry equals
/// the destination, so the block is one constant. The buffer comes back by
/// value as a fixed-size array: nothing on this path touches the heap.
#[verifier::external_body]
pub(crate) fn param_smoothed(p: &mut rusty_daw_core::ParamF32<MAX_BLOCKSIZE>, frames: usize) -> (r: (
    [u32; MAX_BLOCKSIZE],
    bool,
))
    requires
        1 <= frames <= MAX_BLOCKSIZE,
    ensures
        forall|i: int|
            0 <= i < MAX_BLOCKSIZE ==> #[trigger] r.0@[i] == param_output(*final(p))[i],
        r.1 == param_smoothing(*final(p)),
        !r.1 ==> forall|i: int|
            0 <= i < MAX_BLOCKSIZE ==> #[trigger] r.0@[i] == param_dest(*final(p)),
{
    let out = p.smoothed(frames);
    (bytemuck::cast(*out.values), out.is_smoothing())
}

/// Relies on rusty_daw_core's `ParamF32::set_sample_rate`: it reconfigures
/// only the smoothing filter's coefficients — the ramp duration in samples —
/// and leaves the destination, the smoothing buffer and the smoothing
/// status exactly as they were, so a target set before the change is never
/// discarded.
#[verifier::external_body]
pub(crate) fn param_set_sample_rate(p: &mut rusty_daw_core::ParamF32<MAX_BLOCKSIZE>, sample_rate_hz: u32)
    ensures
        param_dest(*final(p)) == param_dest(*old(p)),
        param_output(*final(p)) == param_output(*old(p)),
        param_smoothing(*final(p)) == param_smoothing(*old(p)),
{
    p.set_sample_rate(rusty_daw_core::SampleRate(sample_rate_hz.into()));
}

/// Relies on rusty_daw_core's `ParamF32::reset`: it snaps the smoothing
/// state to rest at the current destination — no ramp in flight, the whole
/// smoothing buffer filled with the destination, the destination itself
/// unchanged.
#[verifier::external_body]
pub(crate) fn param_reset(p: &mut rusty_daw_core::ParamF32<MAX_BLOCKSIZE>)
    ensures
        param_dest(*final(p)) == param_dest(*old(p)),
        !param_smoothing(*final(p)),
        param_output(*final(p)) == Seq::new(MAX_BLOCKSIZE as nat, |i: int| param_dest(*final(p))),
{
    p.reset();
}

} // verus!
