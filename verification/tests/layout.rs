use architecture::x86_64::layout::push_le;

#[test]
fn push_le_appends_least_significant_first() {
    let mut bytes = vec![0xAA];
    push_le(&mut bytes, 0x0102_0304_0506_0708, 8);
    assert_eq!(bytes, vec![0xAA, 0x08, 0x07, 0x06, 0x05, 0x04, 0x03, 0x02, 0x01]);
}

#[test]
fn push_le_keeps_to_the_width() {
    let mut bytes = Vec::new();
    push_le(&mut bytes, 0x0102_0304_0506_0708, 2);
    assert_eq!(bytes, vec![0x08, 0x07]);
    push_le(&mut bytes, 0xFFFF, 0);
    assert_eq!(bytes, vec![0x08, 0x07]);
    push_le(&mut bytes, 0x1234, 4);
    assert_eq!(bytes, vec![0x08, 0x07, 0x34, 0x12, 0x00, 0x00]);
}

#[test]
fn push_le_agrees_with_the_standard_encoding() {
    for value in [0u64, 1, 0xFF, 0x0068, 0xDEAD_BEEF, u64::MAX, 0x8000_0000_0000_0000] {
        let mut bytes = Vec::new();
        push_le(&mut bytes, value, 8);
        assert_eq!(bytes, value.to_le_bytes().to_vec());
    }
}
