use winter::bytes::{push_le32, push_le64, read_le16, read_le32};

#[test]
fn little_endian_round_trip() {
    let mut bytes = vec![0xee];
    push_le32(&mut bytes, 0x1122_3344);
    push_le64(&mut bytes, 0x0102_0304_0506_0708);
    assert_eq!(bytes, vec![0xee, 0x44, 0x33, 0x22, 0x11, 8, 7, 6, 5, 4, 3, 2, 1]);
    assert_eq!(read_le32(&bytes, 1), 0x1122_3344);
    assert_eq!(read_le16(&bytes, 5), 0x0708);
    assert_eq!(read_le32(&bytes, 9), 0x0102_0304);
}
