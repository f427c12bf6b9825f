use firesynth::frames::frame_count;

fn by_floating_point(rate: u32, seconds: f64) -> u64 {
    (f64::from(rate) * seconds) as u64
}

fn agrees(rate: u32, seconds: f64) {
    assert_eq!(
        frame_count(rate, seconds.to_bits()),
        by_floating_point(rate, seconds),
        "rate {} duration {:e} ({:#x})",
        rate,
        seconds,
        seconds.to_bits()
    );
}

#[test]
fn whole_seconds() {
    assert_eq!(frame_count(44100, 1.0_f64.to_bits()), 44100);
    assert_eq!(frame_count(44100, 2.0_f64.to_bits()), 88200);
    assert_eq!(frame_count(48000, 60.0_f64.to_bits()), 2_880_000);
    assert_eq!(frame_count(192000, 3600.0_f64.to_bits()), 691_200_000);
}

#[test]
fn fractions_are_cut_off() {
    assert_eq!(frame_count(44100, 0.5_f64.to_bits()), 22050);
    assert_eq!(frame_count(3, 0.5_f64.to_bits()), 1);
    assert_eq!(frame_count(1, 0.999_f64.to_bits()), 0);
    assert_eq!(frame_count(10, 0.99_f64.to_bits()), 9);
    assert_eq!(frame_count(44100, 1.00001_f64.to_bits()), 44100);
    assert_eq!(frame_count(7, 2.75_f64.to_bits()), 19);
}

#[test]
fn no_duration_no_frames() {
    assert_eq!(frame_count(44100, 0.0_f64.to_bits()), 0);
    assert_eq!(frame_count(1, 0), 0);
    assert_eq!(frame_count(u32::MAX, 0), 0);
}

#[test]
fn no_rate_no_frames() {
    assert_eq!(frame_count(0, 1.0_f64.to_bits()), 0);
    assert_eq!(frame_count(0, f64::INFINITY.to_bits()), 0);
    assert_eq!(frame_count(0, f64::MAX.to_bits()), 0);
}

#[test]
fn negative_durations_and_nan_give_nothing() {
    assert_eq!(frame_count(44100, (-1.0_f64).to_bits()), 0);
    assert_eq!(frame_count(44100, (-0.0_f64).to_bits()), 0);
    assert_eq!(frame_count(44100, f64::NEG_INFINITY.to_bits()), 0);
    assert_eq!(frame_count(44100, f64::NAN.to_bits()), 0);
    assert_eq!(frame_count(44100, 0x7FF0_0000_0000_0001), 0);
    assert_eq!(frame_count(44100, 0xFFF8_0000_0000_0000), 0);
}

#[test]
fn what_does_not_fit_saturates() {
    assert_eq!(frame_count(44100, f64::INFINITY.to_bits()), u64::MAX);
    assert_eq!(frame_count(44100, f64::MAX.to_bits()), u64::MAX);
    assert_eq!(frame_count(2, 1.0e19_f64.to_bits()), u64::MAX);
    assert_eq!(frame_count(1, 18446744073709551616.0_f64.to_bits()), u64::MAX);
    assert_eq!(frame_count(1, 9223372036854775808.0_f64.to_bits()), 9223372036854775808);
    assert_eq!(frame_count(1, 18446744073709549568.0_f64.to_bits()), 18446744073709549568);
}

#[test]
fn tiny_durations() {
    agrees(44100, f64::MIN_POSITIVE);
    agrees(u32::MAX, f64::from_bits(1));
    agrees(u32::MAX, f64::from_bits(0x000F_FFFF_FFFF_FFFF));
    assert_eq!(frame_count(u32::MAX, 1), 0);
    assert_eq!(frame_count(192000, 1.0e-6_f64.to_bits()), 0);
    assert_eq!(frame_count(192000, 1.0e-5_f64.to_bits()), 1);
}

#[test]
fn rounding_happens_before_cutting() {
    // The exact product lies just below a whole number and rounds up to it.
    let just_below_one = f64::from_bits(1.0_f64.to_bits() - 1);
    for rate in [3_u32, 5, 7, 9, 44100, 48000, 96000, 192000, 2147483647, u32::MAX] {
        agrees(rate, just_below_one);
        agrees(rate, 1.0 / f64::from(rate));
        agrees(rate, 2.0 / f64::from(rate));
        agrees(rate, 1000.0 / f64::from(rate));
        agrees(rate, 0.1);
        agrees(rate, 0.7);
        agrees(rate, 1.0 / 3.0);
        agrees(rate, 123.456);
    }
    // Three times the double nearest to a third is 1 - 2^-54, which rounds to 1.
    assert_eq!(frame_count(3, (1.0_f64 / 3.0).to_bits()), 1);
    assert_eq!(frame_count(3, just_below_one.to_bits()), 2);
}

#[test]
fn ties_go_to_even() {
    // 3 * (2^53 + 1) and 3 * (2^53 + 3) each lie halfway between two doubles.
    let a = f64::from_bits(0x4330_0000_0000_0001 + 0x0010_0000_0000_0000);
    let b = f64::from_bits(0x4330_0000_0000_0003 + 0x0010_0000_0000_0000);
    for rate in [1_u32, 3, 5, 6, 7, 9, 11, 13] {
        agrees(rate, a);
        agrees(rate, b);
        agrees(rate, f64::from_bits(0x4330_0000_0000_0001));
        agrees(rate, f64::from_bits(0x4320_0000_0000_0001));
        agrees(rate, f64::from_bits(0x4310_0000_0000_0003));
    }
}

#[test]
fn agrees_with_floating_point_on_many_durations() {
    let mut state: u64 = 0x9E37_79B9_7F4A_7C15;
    let mut checked = 0;
    for _ in 0..200_000 {
        state ^= state << 13;
        state ^= state >> 7;
        state ^= state << 17;
        let rate = (state >> 32) as u32;
        state ^= state << 13;
        state ^= state >> 7;
        state ^= state << 17;
        let bits = state;
        agrees(rate, f64::from_bits(bits));
        // The same fraction at exponents where the result is neither zero nor saturated.
        let exponent = 1023 - 40 + (state >> 58);
        let near = (bits & 0x000F_FFFF_FFFF_FFFF) | (exponent << 52);
        agrees(rate, f64::from_bits(near));
        agrees(rate % 192_001, f64::from_bits(near));
        checked += 3;
    }
    assert_eq!(checked, 600_000);
}

#[test]
fn agrees_with_floating_point_on_common_rates() {
    let rates = [8000_u32, 11025, 16000, 22050, 32000, 44100, 48000, 88200, 96000, 176400, 192000];
    let mut seconds = 0.0_f64;
    for step in 0..5000 {
        for rate in rates {
            agrees(rate, seconds);
        }
        seconds += 0.0137 * f64::from(step % 17 + 1);
    }
}
