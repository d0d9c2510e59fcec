use daw_dsp::block::chunk_schedule;
use daw_dsp::sample::sample_le;
use daw_dsp::dc_offset::DcOffsetDSP;
use daw_dsp::mid_side::{MidSideMergerDSP, MidSideSplitterDSP};
use daw_dsp::MAX_BLOCKSIZE;

fn bits_of(values: &[f32]) -> Vec<u32> {
    values.iter().map(|v| v.to_bits()).collect()
}

fn floats_of(bits: &[u32]) -> Vec<f32> {
    bits.iter().map(|b| f32::from_bits(*b)).collect()
}

#[test]
fn basic() {
    let (mut dc_offset, _ui_handle) = DcOffsetDSP::new(
        (-1.0f32).to_bits(),
        (1.0f32).to_bits(),
        (1.0f32).to_bits(),
        44100,
    );
    let mut buf = bits_of(&[0.0, 1.0, 184.0, -69.0]);
    dc_offset.process_replacing_mono_fb(&mut buf);
    assert_eq!(floats_of(&buf), vec![1.0, 2.0, 185.0, -68.0]);
}

#[test]
fn basic_split_and_merge() {
    let (splitter, _ui_handle) = MidSideSplitterDSP::<64>::new();
    let (merger, _ui_handle) = MidSideMergerDSP::<64>::new();
    // these values have been selected to avoid floating point error
    let mut buf_l = bits_of(&[0.5, 0.684, 6.4, -20.1, 0.0, 1.0]);
    let mut buf_r = bits_of(&[184.0, -12.812, -0.5, 2.5, 0.0, 1.0]);
    splitter.process_replacing_stereo_fb(&mut buf_l[..], &mut buf_r[..]);
    assert_eq!(floats_of(&buf_l), vec![92.25, -6.064, 2.95, -8.8, 0.0, 1.0]); // mid
    assert_eq!(floats_of(&buf_r), vec![-91.75, 6.748, 3.45, -11.3, 0.0, 0.0]); // side
    merger.process_replacing_stereo_fb(&mut buf_l[..], &mut buf_r[..]);
    assert_eq!(floats_of(&buf_l), vec![0.5, 0.684, 6.4, -20.1, 0.0, 1.0]);
    assert_eq!(floats_of(&buf_r), vec![184.0, -12.812, -0.5, 2.5, 0.0, 1.0]);
}

#[test]
fn round_trip_on_dyadic_values() {
    let (splitter, _h1) = MidSideSplitterDSP::<64>::new();
    let (merger, _h2) = MidSideMergerDSP::<64>::new();
    let left = [0.25, -8.5, 1024.0, 0.0, -0.0, 3.75];
    let right = [-0.75, 2.0, -512.5, 16.0, 1.5, -3.75];
    let mut buf_l = bits_of(&left);
    let mut buf_r = bits_of(&right);
    splitter.process_replacing_stereo_fb(&mut buf_l[..], &mut buf_r[..]);
    merger.process_replacing_stereo_fb(&mut buf_l[..], &mut buf_r[..]);
    assert_eq!(floats_of(&buf_l), left.to_vec());
    assert_eq!(floats_of(&buf_r), right.to_vec());
}

#[test]
fn split_twice_is_not_the_identity() {
    // The splitter is its own near-inverse only when followed by the
    // merger: applying it twice must not give the input back.
    let (splitter, _h) = MidSideSplitterDSP::<64>::new();
    let left = [0.5, 0.684, 6.4, -20.1, 0.0, 1.0];
    let right = [184.0, -12.812, -0.5, 2.5, 0.0, 1.0];
    let mut buf_l = bits_of(&left);
    let mut buf_r = bits_of(&right);
    splitter.process_replacing_stereo_fb(&mut buf_l[..], &mut buf_r[..]);
    splitter.process_replacing_stereo_fb(&mut buf_l[..], &mut buf_r[..]);
    assert_ne!(floats_of(&buf_l), left.to_vec());
    assert_ne!(floats_of(&buf_r), right.to_vec());
}

#[test]
fn merger_applies_no_scaling() {
    // The one factor of one half lives at the splitter; merging
    // mid = 1.0, side = 0.0 must give 1.0 on both channels, not 0.5.
    let (merger, _h) = MidSideMergerDSP::<64>::new();
    let mut buf_m = bits_of(&[1.0]);
    let mut buf_s = bits_of(&[0.0]);
    merger.process_replacing_stereo_fb(&mut buf_m[..], &mut buf_s[..]);
    assert_eq!(floats_of(&buf_m), vec![1.0]);
    assert_eq!(floats_of(&buf_s), vec![1.0]);
}

#[test]
fn block_clamping_leaves_tail_untouched() {
    // A splitter bound to 4 frames must transform exactly 4 samples of a
    // 6-sample buffer and leave the tail bit-for-bit as it was.
    let (splitter, _h) = MidSideSplitterDSP::<4>::new();
    let left = [1.0, 2.0, 3.0, 4.0, 5.0, 6.0];
    let right = [0.5, 0.5, 0.5, 0.5, 0.5, 0.5];
    let mut buf_l = bits_of(&left);
    let mut buf_r = bits_of(&right);
    splitter.process_replacing_stereo_fb(&mut buf_l[..], &mut buf_r[..]);
    assert_eq!(floats_of(&buf_l[..4]), vec![0.75, 1.25, 1.75, 2.25]);
    assert_eq!(floats_of(&buf_l[4..]), vec![5.0, 6.0]);
    assert_eq!(floats_of(&buf_r[4..]), vec![0.5, 0.5]);
}

#[test]
fn dc_offset_clamps_to_block_bound() {
    let (mut dc_offset, _h) = DcOffsetDSP::new(
        (-1.0f32).to_bits(),
        (1.0f32).to_bits(),
        (1.0f32).to_bits(),
        44100,
    );
    let mut buf = bits_of(&vec![2.0f32; MAX_BLOCKSIZE + 2]);
    dc_offset.process_replacing_mono_fb(&mut buf);
    let out = floats_of(&buf);
    for i in 0..MAX_BLOCKSIZE {
        assert_eq!(out[i], 3.0);
    }
    assert_eq!(out[MAX_BLOCKSIZE], 2.0);
    assert_eq!(out[MAX_BLOCKSIZE + 1], 2.0);
}

#[test]
fn dc_offset_stereo_shifts_both_channels_alike() {
    let (mut dc_offset, _h) = DcOffsetDSP::new(
        (-2.0f32).to_bits(),
        (2.0f32).to_bits(),
        (0.25f32).to_bits(),
        48000,
    );
    let left = [0.0, -1.0, 1.5];
    let right = [4.0, 0.5, -0.25];
    let mut buf_l = bits_of(&left);
    let mut buf_r = bits_of(&right);
    dc_offset.process_replacing_stereo_fb(&mut buf_l[..], &mut buf_r[..]);
    let out_l = floats_of(&buf_l);
    let out_r = floats_of(&buf_r);
    for i in 0..3 {
        assert_eq!(out_l[i], left[i] + 0.25);
        assert_eq!(out_r[i], right[i] + 0.25);
        assert_eq!(out_l[i] - left[i], out_r[i] - right[i]);
    }
}

#[test]
fn fast_path_matches_per_sample_addition() {
    // With no ramp in flight the unit takes the constant fast path; its
    // output must equal the per-sample addition written out by hand.
    let (mut dc_offset, _h) = DcOffsetDSP::new(
        (-1.0f32).to_bits(),
        (1.0f32).to_bits(),
        (0.125f32).to_bits(),
        44100,
    );
    let input = [0.0, 0.3, -0.7, 123.456, -0.125, 88.25];
    let mut buf = bits_of(&input);
    dc_offset.process_replacing_mono_fb(&mut buf);
    let out = floats_of(&buf);
    for i in 0..input.len() {
        assert_eq!(out[i], input[i] + 0.125);
    }
}

#[test]
fn zero_length_block_is_a_noop() {
    let (mut dc_offset, _h) = DcOffsetDSP::new(
        (-1.0f32).to_bits(),
        (1.0f32).to_bits(),
        (1.0f32).to_bits(),
        44100,
    );
    let mut empty: Vec<u32> = Vec::new();
    dc_offset.process_replacing_mono_fb(&mut empty[..]);
    assert!(empty.is_empty());

    let (splitter, _h2) = MidSideSplitterDSP::<64>::new();
    let mut one = bits_of(&[1.0]);
    let mut none: Vec<u32> = Vec::new();
    splitter.process_replacing_stereo_fb(&mut one[..], &mut none[..]);
    assert_eq!(floats_of(&one), vec![1.0]);
}

#[test]
fn sample_rate_change_keeps_ramp_target() {
    // Start a ramp toward 0.5, change the sample rate between blocks, and
    // keep processing: the ramp must still settle at 0.5 exactly, because a
    // rate change reconfigures only the ramp duration in samples.
    let (mut dc_offset, _h) = DcOffsetDSP::new(
        (-1.0f32).to_bits(),
        (1.0f32).to_bits(),
        (0.0f32).to_bits(),
        44100,
    );
    dc_offset.set_target((0.5f32).to_bits());

    let mut first = bits_of(&vec![0.0f32; 64]);
    dc_offset.process_replacing_mono_fb(&mut first);
    let first_out = floats_of(&first);
    // The ramp is in flight: the very first smoothed offset is still far
    // from the target.
    assert!(first_out[0] < 0.5);

    dc_offset.set_sample_rate(96000);

    for _ in 0..250 {
        let mut block = bits_of(&vec![0.0f32; 64]);
        dc_offset.process_replacing_mono_fb(&mut block);
    }
    let mut settled = bits_of(&vec![0.0f32; 64]);
    dc_offset.process_replacing_mono_fb(&mut settled);
    assert_eq!(floats_of(&settled), vec![0.5f32; 64]);
}

#[test]
fn reset_buffers_clears_a_ramp_in_flight() {
    let (mut dc_offset, _h) = DcOffsetDSP::new(
        (-1.0f32).to_bits(),
        (1.0f32).to_bits(),
        (0.0f32).to_bits(),
        44100,
    );
    dc_offset.set_target((0.5f32).to_bits());
    let mut block = bits_of(&vec![0.0f32; 16]);
    dc_offset.process_replacing_mono_fb(&mut block);
    dc_offset.reset_buffers();
    // After the snap to rest, the whole next block gets the target as one
    // constant.
    let mut after = bits_of(&vec![0.0f32; 16]);
    dc_offset.process_replacing_mono_fb(&mut after);
    assert_eq!(floats_of(&after), vec![0.5f32; 16]);
}

#[test]
fn strategy_variants_match_fallback() {
    let left = [0.5, -2.25, 7.0, 0.001];
    let right = [1.5, 0.75, -7.0, 64.0];

    let (splitter, _h) = MidSideSplitterDSP::<64>::new();
    let mut fb_l = bits_of(&left);
    let mut fb_r = bits_of(&right);
    splitter.process_replacing_stereo_fb(&mut fb_l[..], &mut fb_r[..]);
    let mut h_l = bits_of(&left);
    let mut h_r = bits_of(&right);
    splitter.process_replacing_stereo_h::<4>(&mut h_l[..], &mut h_r[..]);
    let mut v_l = bits_of(&left);
    let mut v_r = bits_of(&right);
    splitter.process_replacing_stereo_v(&mut v_l[..], &mut v_r[..]);
    assert_eq!(fb_l, h_l);
    assert_eq!(fb_r, h_r);
    assert_eq!(fb_l, v_l);
    assert_eq!(fb_r, v_r);

    let (mut dc_fb, _h1) = DcOffsetDSP::new(
        (-1.0f32).to_bits(),
        (1.0f32).to_bits(),
        (0.5f32).to_bits(),
        44100,
    );
    let (mut dc_h, _h2) = DcOffsetDSP::new(
        (-1.0f32).to_bits(),
        (1.0f32).to_bits(),
        (0.5f32).to_bits(),
        44100,
    );
    let mut a_l = bits_of(&left);
    let mut a_r = bits_of(&right);
    dc_fb.process_replacing_stereo_fb(&mut a_l[..], &mut a_r[..]);
    let mut b_l = bits_of(&left);
    let mut b_r = bits_of(&right);
    dc_h.process_replacing_stereo_h::<4>(&mut b_l[..], &mut b_r[..]);
    assert_eq!(a_l, b_l);
    assert_eq!(a_r, b_r);
}

#[test]
fn chunk_schedule_covers_a_long_buffer() {
    let schedule = chunk_schedule(300, 128);
    assert_eq!(schedule, vec![(0, 128), (128, 128), (256, 44)]);
    assert_eq!(chunk_schedule(0, 128), vec![]);
    assert_eq!(chunk_schedule(128, 128), vec![(0, 128)]);
    assert_eq!(chunk_schedule(5, 2), vec![(0, 2), (2, 2), (4, 1)]);
}

#[test]
fn sample_le_orders_bit_patterns_like_floats() {
    let pairs = [
        (-1.0f32, 1.0f32),
        (0.0, -0.0),
        (-0.0, 0.0),
        (1.5, 1.5),
        (-2.0, -1.0),
        (0.0, 5.5),
        (-3.25, 0.0),
    ];
    for (a, b) in pairs {
        assert!(sample_le(a.to_bits(), b.to_bits()));
        assert_eq!(sample_le(b.to_bits(), a.to_bits()), b <= a);
    }
    assert!(!sample_le(1.0f32.to_bits(), (-1.0f32).to_bits()));
    assert!(!sample_le(f32::NAN.to_bits(), 0.0f32.to_bits()));
    assert!(!sample_le(0.0f32.to_bits(), f32::NAN.to_bits()));
}

#[test]
fn out_of_range_target_clamps_to_the_range() {
    // Asking for a target above the parameter's range arms a ramp toward
    // the clamped value, here the upper bound itself.
    let (mut dc_offset, _h) = DcOffsetDSP::new(
        (-1.0f32).to_bits(),
        (1.0f32).to_bits(),
        (0.0f32).to_bits(),
        44100,
    );
    dc_offset.set_target((5.0f32).to_bits());
    for _ in 0..250 {
        let mut block = bits_of(&vec![0.0f32; 64]);
        dc_offset.process_replacing_mono_fb(&mut block);
    }
    let mut settled = bits_of(&vec![0.0f32; 64]);
    dc_offset.process_replacing_mono_fb(&mut settled);
    assert_eq!(floats_of(&settled), vec![1.0f32; 64]);
}
