use rust_liquid_dsp::filter::{Execution, MultiStageResampler};
use rust_liquid_dsp::rate::{checked_resampled_length, positive_real};
use rust_liquid_dsp::Error;

fn resampler(rate: f32, suppression: f32) -> MultiStageResampler<f32> {
    assert!(positive_real(rate.to_bits()));
    MultiStageResampler::<f32>::new(rate.to_bits(), suppression.to_bits())
}

#[test]
fn test_msresamp_rrrf_create_destroy() {
    let rs = resampler(2.0, 20.0);
    assert_eq!(f32::from_bits(rs.suppression()), 20.0);
}

#[test]
fn test_msresamp_rrrf_filter() {
    let rs = resampler(2.0, 20.0);
    let mut dest = vec![0.0; 5];
    // The native resampler writes four samples for these two.
    assert_eq!(rs.filter(&[1.0, 1.0], &mut dest).map(|pass| pass.finish(4)), Ok(4));
}

#[test]
fn test_msresamp_rrrf_rate() {
    assert_eq!(f32::from_bits(resampler(2.0, 20.0).rate()), 2.0);
}

#[test]
fn test_msresamp_rrrf_needed_capacity() {
    assert_eq!(resampler(2.0, 20.0).needed_capacity(2), 5);
}

#[test]
fn filter_hands_out_the_checked_buffers() {
    let rs = resampler(2.0, 20.0);
    let data = [1.0f32, 1.0];
    let mut dest = vec![0.0f32; 7];
    let pass: Execution<f32> = rs.filter(&data, &mut dest).unwrap();
    assert_eq!(pass.input, &[1.0f32, 1.0][..]);
    assert_eq!(pass.input_length, 2);
    assert_eq!(pass.capacity, 5);
    assert_eq!(pass.output.len(), 7);
    pass.output[4] = 3.0;
    assert_eq!(pass.finish(5), 5);
    assert_eq!(dest[4], 3.0);
}

#[test]
fn filter_refuses_a_short_destination() {
    let rs = resampler(2.0, 20.0);
    let mut dest = vec![0.0f32; 4];
    let refused = rs.filter(&[1.0, 1.0], &mut dest).map(|pass| pass.capacity);
    assert_eq!(refused, Err(Error::CapacityError(5, 4)));
    let mut none: Vec<f32> = Vec::new();
    let refused = rs.filter(&[], &mut none).map(|pass| pass.capacity);
    assert_eq!(refused, Err(Error::CapacityError(1, 0)));
}

#[test]
fn filter_accepts_an_empty_input() {
    let rs = resampler(0.5, 60.0);
    let mut dest = vec![0.0f32; 1];
    let pass = rs.filter(&[], &mut dest).unwrap();
    assert_eq!(pass.input_length, 0);
    assert_eq!(pass.capacity, 1);
    assert_eq!(pass.finish(0), 0);
}

#[test]
fn needed_capacity_is_the_ceiling_plus_one() {
    assert_eq!(resampler(1.5, 20.0).needed_capacity(3), 6);
    assert_eq!(resampler(1.5, 20.0).needed_capacity(4), 7);
    assert_eq!(resampler(0.5, 20.0).needed_capacity(3), 3);
    assert_eq!(resampler(0.25, 20.0).needed_capacity(1000), 251);
    assert_eq!(resampler(1.0, 20.0).needed_capacity(0), 1);
    assert_eq!(resampler(1.0, 20.0).needed_capacity(16_777_217), 16_777_218);
    assert_eq!(resampler(3.0, 20.0).needed_capacity(1_000_000), 3_000_001);
}

#[test]
fn needed_capacity_does_not_round_the_rate() {
    // The nearest single-precision number to 0.1 lies just above it, so ten
    // samples become a little more than one.
    assert_eq!(resampler(0.1, 20.0).needed_capacity(10), 3);
    // The nearest one to 0.3 lies just above it as well.
    assert_eq!(resampler(0.3, 20.0).needed_capacity(10), 5);
    // The nearest one to 0.7 lies just below it.
    assert_eq!(resampler(0.7, 20.0).needed_capacity(10), 8);
}

#[test]
fn needed_capacity_of_extreme_rates() {
    let smallest = f32::from_bits(1);
    assert_eq!(resampler(smallest, 20.0).needed_capacity(1), 2);
    assert_eq!(resampler(smallest, 20.0).checked_needed_capacity(0xffff_ffff), Some(2));
    assert_eq!(resampler(f32::MIN_POSITIVE, 20.0).needed_capacity(7), 2);
    assert_eq!(resampler(f32::MAX, 20.0).needed_capacity(0), 1);
    assert_eq!(resampler(f32::MAX, 20.0).checked_needed_capacity(1), None);
}

#[test]
fn checked_needed_capacity_bounds() {
    let rs = resampler(2.0, 20.0);
    assert_eq!(rs.checked_needed_capacity(2), Some(5));
    assert_eq!(rs.checked_needed_capacity(0x7fff_ffff), Some(0xffff_ffff));
    assert_eq!(rs.checked_needed_capacity(0x8000_0000), None);
    let same = resampler(1.0, 20.0);
    assert_eq!(same.checked_needed_capacity(0xffff_fffe), Some(0xffff_ffff));
    assert_eq!(same.checked_needed_capacity(0xffff_ffff), None);
    let large = resampler(2147483648.0, 20.0);
    assert_eq!(large.checked_needed_capacity(1), Some(0x8000_0001));
    assert_eq!(large.checked_needed_capacity(2), None);
    let larger = resampler(4294967296.0, 20.0);
    assert_eq!(larger.checked_needed_capacity(0), Some(1));
    assert_eq!(larger.checked_needed_capacity(1), None);
}

#[test]
fn checked_needed_capacity_refuses_long_inputs() {
    let rs = resampler(f32::from_bits(1), 20.0);
    let too_long = (u32::MAX as u64 + 1) as usize;
    if too_long != 0 {
        assert_eq!(rs.checked_needed_capacity(too_long), None);
        assert_eq!(rs.checked_needed_capacity(usize::MAX), None);
    }
}

#[test]
fn resampled_length_is_exact() {
    assert_eq!(checked_resampled_length(2.0f32.to_bits(), 2), Some(4));
    assert_eq!(checked_resampled_length(0.75f32.to_bits(), 5), Some(4));
    assert_eq!(checked_resampled_length(0.75f32.to_bits(), 4), Some(3));
    assert_eq!(checked_resampled_length(1.0f32.to_bits(), u32::MAX), Some(u32::MAX));
    assert_eq!(checked_resampled_length(1.0000001f32.to_bits(), u32::MAX), None);
    assert_eq!(checked_resampled_length(256.0f32.to_bits(), 0x00ff_ffff), Some(0xffff_ff00));
    assert_eq!(checked_resampled_length(256.0f32.to_bits(), 0x0100_0000), None);
    assert_eq!(checked_resampled_length(512.0f32.to_bits(), 0x007f_ffff), Some(0xffff_fe00));
    assert_eq!(checked_resampled_length(512.0f32.to_bits(), 0x0080_0000), None);
    assert_eq!(checked_resampled_length(f32::from_bits(0x0080_0000).to_bits(), 1), Some(1));
    assert_eq!(checked_resampled_length(1e-10f32.to_bits(), u32::MAX), Some(1));
}

#[test]
fn positive_real_tells_rates_apart() {
    assert!(positive_real(2.0f32.to_bits()));
    assert!(positive_real(f32::from_bits(1).to_bits()));
    assert!(positive_real(f32::MAX.to_bits()));
    assert!(!positive_real(0.0f32.to_bits()));
    assert!(!positive_real((-0.0f32).to_bits()));
    assert!(!positive_real((-2.0f32).to_bits()));
    assert!(!positive_real(f32::INFINITY.to_bits()));
    assert!(!positive_real(f32::NEG_INFINITY.to_bits()));
    assert!(!positive_real(f32::NAN.to_bits()));
}

#[test]
fn end_to_end_scenario() {
    let rs = resampler(2.0, 20.0);
    assert_eq!(f32::from_bits(rs.rate()), 2.0);
    assert_eq!(rs.needed_capacity(2), 5);
    let mut dest = vec![0.0f32; 5];
    let pass = rs.filter(&[1.0, 1.0], &mut dest).unwrap();
    let written: u32 = 4;
    assert!(written as usize <= pass.capacity);
    assert!(pass.finish(written) <= 5);
    let mut short = vec![0.0f32; 4];
    let refused = rs.filter(&[1.0, 1.0], &mut short).map(|pass| pass.capacity);
    assert_eq!(refused, Err(Error::CapacityError(5, 4)));
}

#[test]
fn capacity_error_message() {
    assert_eq!(
        Error::CapacityError(5, 4).message(),
        "Capacity for output buffer is too small. Need at least 5 bytes. Only have 4 bytes."
    );
    assert_eq!(
        Error::CapacityError(4294967295, 0).message(),
        "Capacity for output buffer is too small. Need at least 4294967295 bytes. Only have 0 bytes."
    );
    assert_eq!(
        Error::CapacityError(1200, 1007).message(),
        "Capacity for output buffer is too small. Need at least 1200 bytes. Only have 1007 bytes."
    );
}
