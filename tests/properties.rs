use amuse::{compress_slice, expand_slice, ALaw, Compander, ULaw};

fn ulaw_step(log: u8) -> i32 {
    4 << ((((!log) >> 4) & 7) as i32 + 1)
}

fn alaw_step(log: u8) -> i32 {
    let exponent = ((log ^ 0x55) & 0x7F) >> 4;
    if exponent > 1 {
        16 << (exponent - 1)
    } else {
        16
    }
}

fn magnitude(linear: i16) -> i32 {
    if linear < 0 {
        -1 - linear as i32
    } else {
        linear as i32
    }
}

#[test]
fn ulaw_silence_and_extremes() {
    assert_eq!(ULaw::compress(0), 0xFF);
    assert_eq!(ULaw::expand(0xFF), 0);
    assert_eq!(ULaw::expand(0x00), -32124);
    assert_eq!(ULaw::expand(0x80), 32124);
    assert_eq!(ULaw::compress(i16::MAX), 0x80);
    assert_eq!(ULaw::compress(i16::MIN), 0x00);
}

#[test]
fn ulaw_compress_of_minus_8159() {
    // Samples are left-aligned 16-bit values, so -8159 lies in segment 7.
    assert_eq!(ULaw::compress(-8159), 0x1F);
}

#[test]
fn ulaw_exact_values() {
    assert_eq!(ULaw::compress(1000), 0xCE);
    assert_eq!(ULaw::expand(0xCE), 988);
    assert_eq!(ULaw::compress(-1), 0x7F);
    assert_eq!(ULaw::expand(0x7F), 0);
}

#[test]
fn alaw_silence() {
    assert_eq!(ALaw::compress(0), 0xD5);
    assert_eq!(ALaw::expand(0xD5), 8);
    assert_eq!(ALaw::compress(-1), 0x55);
    assert_eq!(ALaw::expand(0x55), -8);
}

#[test]
fn alaw_exact_values() {
    assert_eq!(ALaw::compress(1000), 0xFA);
    assert_eq!(ALaw::expand(0xFA), 1008);
}

#[test]
fn ulaw_round_trip_on_codes() {
    for log in u8::MIN..=u8::MAX {
        let back = ULaw::compress(ULaw::expand(log));
        if log == 0x7F {
            assert_eq!(back, 0xFF);
        } else {
            assert_eq!(back, log, "code {log:#04x}");
        }
    }
}

#[test]
fn alaw_round_trip_on_codes() {
    for log in u8::MIN..=u8::MAX {
        assert_eq!(ALaw::compress(ALaw::expand(log)), log, "code {log:#04x}");
    }
}

#[test]
fn ulaw_error_within_step() {
    for linear in i16::MIN..=i16::MAX {
        let log = ULaw::compress(linear);
        let error = (ULaw::expand(log) as i32 - linear as i32).abs();
        assert!(error <= ulaw_step(log), "sample {linear}");
        if magnitude(linear) <= 32635 {
            assert!(2 * error <= ulaw_step(log), "sample {linear}");
        }
    }
}

#[test]
fn alaw_error_within_half_step() {
    for linear in i16::MIN..=i16::MAX {
        let log = ALaw::compress(linear);
        let error = (ALaw::expand(log) as i32 - linear as i32).abs();
        assert!(2 * error <= alaw_step(log), "sample {linear}");
    }
}

#[test]
fn step_grows_with_magnitude() {
    let mut previous_u = 0;
    let mut previous_a = 0;
    for linear in 0..=i16::MAX {
        let u = ulaw_step(ULaw::compress(linear));
        let a = alaw_step(ALaw::compress(linear));
        assert!(u >= previous_u && a >= previous_a, "sample {linear}");
        assert_eq!(u, ulaw_step(ULaw::compress(-1 - linear)));
        assert_eq!(a, alaw_step(ALaw::compress(-1 - linear)));
        previous_u = u;
        previous_a = a;
    }
}

#[test]
fn slice_shorter_source_leaves_tail() {
    let linear = [0i16, 1000, -1000];
    let mut log = [0xAAu8; 5];
    let n = compress_slice(&linear, &mut log);
    assert_eq!(n, 3);
    assert_eq!(log, [0xFF, 0xCE, 0x4E, 0xAA, 0xAA]);
}

#[test]
fn slice_shorter_destination_truncates() {
    let linear = [0i16, 1000, -1000, 5, 6];
    let mut log = [0u8; 2];
    assert_eq!(compress_slice(&linear, &mut log), 2);
    assert_eq!(log, [0xFF, 0xCE]);
}

#[test]
fn slice_expand_lengths() {
    let log = [0xFFu8, 0xCE];
    let mut linear = [7i16; 4];
    assert_eq!(expand_slice(&log, &mut linear), 2);
    assert_eq!(linear, [0, 988, 7, 7]);
    let mut short = [7i16; 1];
    assert_eq!(expand_slice(&log, &mut short), 1);
    assert_eq!(short, [0]);
}

#[test]
fn slice_empty() {
    let mut log = [9u8; 3];
    assert_eq!(compress_slice(&[], &mut log), 0);
    assert_eq!(log, [9, 9, 9]);
    let mut none: [i16; 0] = [];
    assert_eq!(expand_slice(&[1, 2], &mut none), 0);
}
