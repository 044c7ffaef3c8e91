// Each transform against a direct transcription of the G.191 reference loops.

use amuse::{ALaw, Compander, ULaw};

fn reference_ulaw_compress(linear: i16) -> u8 {
    let mut absno: i16 = if linear < 0 { ((!linear) >> 2) + 33 } else { (linear >> 2) + 33 };
    if absno > 0x1FFF {
        absno = 0x1FFF;
    }
    let mut i = absno >> 6;
    let mut segno: i16 = 1;
    while i != 0 {
        segno += 1;
        i >>= 1;
    }
    let high_nibble = 0x0008 - segno;
    let low_nibble = 0x000F - ((absno >> segno) & 0x000F);
    let mut log = (high_nibble << 4) | low_nibble;
    if linear >= 0 {
        log |= 0x0080;
    }
    log as u8
}

fn reference_ulaw_expand(log: u8) -> i16 {
    let log = log as i16;
    let sign: i16 = if log < 0x0080 { -1 } else { 1 };
    let mantissa = !log;
    let exponent = (mantissa >> 4) & 0x0007;
    let segment = exponent + 1;
    let mantissa = mantissa & 0x000F;
    let step: i16 = 4 << segment;
    sign * ((0x0080 << exponent) + step * mantissa + step / 2 - 4 * 33)
}

fn reference_alaw_compress(linear: i16) -> u8 {
    let mut ix: i16 = if linear < 0 { (!linear) >> 4 } else { linear >> 4 };
    if ix > 15 {
        let mut iexp: i16 = 1;
        while ix > 16 + 15 {
            ix >>= 1;
            iexp += 1;
        }
        ix -= 16;
        ix += iexp << 4;
    }
    if linear >= 0 {
        ix |= 0x0080;
    }
    (ix ^ 0x0055) as u8
}

fn reference_alaw_expand(log: u8) -> i16 {
    let log = log as i16;
    let ix = (log ^ 0x0055) & 0x007F;
    let iexp = ix >> 4;
    let mut mant = ix & 0x000F;
    if iexp > 0 {
        mant += 16;
    }
    mant = (mant << 4) + 0x0008;
    if iexp > 1 {
        mant <<= iexp - 1;
    }
    if log > 127 {
        mant
    } else {
        -mant
    }
}

#[test]
fn compress() {
    for linear in -8159..8159 {
        let expected = reference_ulaw_compress(linear);
        let actual = amuse::compress(linear);

        assert_eq!(
            expected, actual,
            "Mismatch between reference implementation and this implementation when compressing {linear}"
        );
    }
}

#[test]
fn expand() {
    for log in u8::MIN..=u8::MAX {
        let expected = reference_ulaw_expand(log);
        let actual = amuse::expand(log);

        assert_eq!(
            expected, actual,
            "Mismatch between reference implementation and this implementation when expanding {log}"
        );
    }
}

#[test]
fn ulaw_compress_matches_reference_on_every_sample() {
    for linear in i16::MIN..=i16::MAX {
        assert_eq!(ULaw::compress(linear), reference_ulaw_compress(linear), "sample {linear}");
    }
}

#[test]
fn ulaw_expand_matches_reference_on_every_code() {
    for log in u8::MIN..=u8::MAX {
        assert_eq!(ULaw::expand(log), reference_ulaw_expand(log), "code {log:#04x}");
    }
}

#[test]
fn alaw_compress_matches_reference_on_every_sample() {
    for linear in i16::MIN..=i16::MAX {
        assert_eq!(ALaw::compress(linear), reference_alaw_compress(linear), "sample {linear}");
    }
}

#[test]
fn alaw_expand_matches_reference_on_every_code() {
    for log in u8::MIN..=u8::MAX {
        assert_eq!(ALaw::expand(log), reference_alaw_expand(log), "code {log:#04x}");
    }
}

#[test]
fn alaw_matches_reference_vectors() {
    let linear: [i16; 8] = [-0x5EE4, 0x48A7, 0x1430, -0x35B8, -0x4A54, -0x39EA, -0x74E0, 0x0036];
    let log: Vec<u8> = linear.iter().map(|&x| ALaw::compress(x)).collect();
    assert_eq!(log, vec![0x22, 0xA7, 0x81, 0x3F, 0x27, 0x39, 0x28, 0xD6]);
    let back: Vec<i16> = log.iter().map(|&b| ALaw::expand(b)).collect();
    assert_eq!(back, vec![-0x5E00, 0x4A00, 0x1480, -0x3500, -0x4A00, -0x3900, -0x7600, 0x0038]);
}
