use sad_boy::util::{Bit, BytesDisplay};

/// Bytes in hex and binary, truncated to 8 unless the alternate form is
/// asked for
#[test]
fn bytes_display() {
    assert_eq!(BytesDisplay::hex(&[0x0a, 0xff, 0x00]).to_string(false), "0a ff 00");
    assert_eq!(BytesDisplay::binary(&[5, 0x80]).to_string(false), "00000101 10000000");
    assert_eq!(BytesDisplay::hex(&[]).to_string(false), "");
    let ten: Vec<u8> = (1..=10).collect();
    assert_eq!(
        BytesDisplay::hex(&ten).to_string(false),
        "01 02 03 04 05 06 07 08 <+2 bytes>"
    );
    assert_eq!(BytesDisplay::hex(&ten).to_string(true), "01 02 03 04 05 06 07 08 09 0a");
}

/// Setting a bit changes that bit only
#[test]
fn bit_get_set() {
    let bits = Bit(3).set(0b1010_0000, true);
    assert_eq!(bits, 0b1010_1000);
    assert!(Bit(3).get(bits));
    assert!(Bit(7).get(bits));
    assert!(!Bit(6).get(bits));
    assert_eq!(Bit(7).set(bits, false), 0b0010_1000);
}
