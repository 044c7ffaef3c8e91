use amuse::{Error, Hippo};
use base64::engine::general_purpose::STANDARD;

#[test]
fn decodes_and_expands_ulaw() {
    let mut hippo = Hippo::new(STANDARD);
    // "/84=" is the two bytes 0xFF, 0xCE.
    let r = hippo.process_base64_ulaw(b"/84=");
    assert!(matches!(r, Ok(None)));
    assert_eq!(hippo.buffered(), &[0, 988]);
    let r = hippo.process_base64_ulaw(b"AA==");
    assert!(matches!(r, Ok(None)));
    assert_eq!(hippo.buffered(), &[0, 988, -32124]);
}

#[test]
fn invalid_base64_leaves_buffer() {
    let mut hippo = Hippo::new(STANDARD);
    hippo.process_base64_ulaw(b"/w==").unwrap();
    let r = hippo.process_base64_ulaw(b"not base64!");
    assert!(matches!(r, Err(Error::Base64Decode(_))));
    assert_eq!(hippo.buffered(), &[0]);
}

#[test]
fn push_takes_decoded_codes() {
    let mut hippo = Hippo::new(STANDARD);
    assert!(matches!(hippo.push_ulaw(&[0x80, 0x7F]), Ok(None)));
    assert_eq!(hippo.buffered(), &[32124, 0]);
}
