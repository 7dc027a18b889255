use wgpu_sandbox::examples::mandelbrot::{
    CAMERA_POS_INCREMENT_FACTOR, PIXELS_PER_LINE, ZOOM_EXPONENT, ZOOM_FLOOR, ZOOM_INCREMENT_FACTOR,
};
use wgpu_sandbox::gpu::context::{F64_ONE, F64_ZERO};
use wgpu_sandbox::scalar::{raise, INFINITY, ONE, SIGN_BIT, ZERO};

/// Bit patterns that cover zeros, subnormals, numbers around the floor,
/// large numbers, infinities and NaNs, of both signs.
fn samples() -> Vec<u32> {
    let mut samples = vec![
        0x0000_0000,
        0x0000_0001,
        0x007f_ffff,
        0x0080_0000,
        0x3f80_0000,
        0x3f8c_cccc,
        0x3f8c_cccd,
        0x3f8c_ccce,
        0x4000_0000,
        0x7f7f_ffff,
        0x7f80_0000,
        0x7f80_0001,
        0x7fc0_0000,
        0x7fff_ffff,
    ];
    let negative: Vec<u32> = samples.iter().map(|bits| bits | 0x8000_0000).collect();
    samples.extend(negative);
    let mut bits: u32 = 0x1234_5678;
    for _ in 0..2000 {
        bits = bits.wrapping_mul(1_664_525).wrapping_add(1_013_904_223);
        samples.push(bits);
    }
    samples
}

#[test]
fn constants_are_the_encodings_of_their_values() {
    assert_eq!(ZERO, 0.0f32.to_bits());
    assert_eq!(ONE, 1.0f32.to_bits());
    assert_eq!(INFINITY, f32::INFINITY.to_bits());
    assert_eq!(SIGN_BIT, (-0.0f32).to_bits());
    assert_eq!(ZOOM_FLOOR, 1.1f32.to_bits());
    assert_eq!(ZOOM_INCREMENT_FACTOR, 0.01f32.to_bits());
    assert_eq!(ZOOM_EXPONENT, 1.02f32.to_bits());
    assert_eq!(CAMERA_POS_INCREMENT_FACTOR, 0.1f32.to_bits());
    assert_eq!(PIXELS_PER_LINE, 20.0f32.to_bits());
    assert_eq!(F64_ZERO, 0.0f64.to_bits());
    assert_eq!(F64_ONE, 1.0f64.to_bits());
}

#[test]
fn raise_agrees_with_the_maximum_of_two_floats() {
    let floors = [1.1f32, 1.0, 0.5, 3.75, f32::MIN_POSITIVE, f32::MAX, f32::INFINITY];
    for floor in floors {
        for bits in samples() {
            let expected = f32::from_bits(bits).max(floor);
            let result = raise(bits, floor.to_bits());
            assert_eq!(result, expected.to_bits(), "raise({bits:#x}, {floor})");
        }
    }
}

#[test]
fn raise_keeps_a_number_above_the_floor() {
    assert_eq!(raise(2.5f32.to_bits(), ZOOM_FLOOR), 2.5f32.to_bits());
    assert_eq!(raise(ZOOM_FLOOR, ZOOM_FLOOR), ZOOM_FLOOR);
    assert_eq!(raise(INFINITY, ZOOM_FLOOR), INFINITY);
}

#[test]
fn raise_lifts_small_negative_and_undefined_values() {
    assert_eq!(raise(ONE, ZOOM_FLOOR), ZOOM_FLOOR);
    assert_eq!(raise(ZERO, ZOOM_FLOOR), ZOOM_FLOOR);
    assert_eq!(raise((-7.0f32).to_bits(), ZOOM_FLOOR), ZOOM_FLOOR);
    assert_eq!(raise(f32::NEG_INFINITY.to_bits(), ZOOM_FLOOR), ZOOM_FLOOR);
    assert_eq!(raise(f32::NAN.to_bits(), ZOOM_FLOOR), ZOOM_FLOOR);
    assert_eq!(raise(0xffc0_0000, ZOOM_FLOOR), ZOOM_FLOOR);
}

#[test]
fn raised_values_are_never_below_the_floor() {
    for bits in samples() {
        let result = f32::from_bits(raise(bits, ZOOM_FLOOR));
        assert!(result >= 1.1f32, "raise({bits:#x}) gave {result}");
    }
}
