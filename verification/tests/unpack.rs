use zygravan::bios::{BitUnPack, UnPackInfo};

#[test]
fn unpack_one_bit_to_four_bits() {
    // the eight one-bit units of 0b1011_0010, lowest first, widened to four
    // bits with one added to every nonzero unit
    let info = UnPackInfo::new(1, 1, 4, 1, false);
    let out = BitUnPack(&[0b1011_0010], &info);
    assert_eq!(out, vec![0x2022_0020]);
}

#[test]
fn unpack_bytes_to_bytes_is_a_copy() {
    let info = UnPackInfo::new(4, 8, 8, 0, false);
    let out = BitUnPack(&[1, 2, 3, 4], &info);
    assert_eq!(out, vec![0x0403_0201]);
}

#[test]
fn unpack_zero_data_flag_offsets_zero_units() {
    let info = UnPackInfo::new(2, 8, 16, 5, true);
    let out = BitUnPack(&[0x00, 0xFF], &info);
    assert_eq!(out, vec![0x0104_0005]);
    // without the flag, zero units stay zero
    let plain = UnPackInfo::new(2, 8, 16, 5, false);
    assert_eq!(BitUnPack(&[0x00, 0xFF], &plain), vec![0x0104_0000]);
}

#[test]
fn unpack_nibbles_to_halfwords() {
    let info = UnPackInfo::new(1, 4, 16, 0, false);
    let out = BitUnPack(&[0x21], &info);
    assert_eq!(out, vec![0x0002_0001]);
}

#[test]
fn unpack_to_whole_words() {
    let info = UnPackInfo::new(1, 8, 32, 0x7FFF_FFFF, true);
    let out = BitUnPack(&[1], &info);
    assert_eq!(out, vec![0x8000_0000]);
}

#[test]
fn unpack_longer_stream() {
    // sixteen two-bit units over two words, each unit raised by two
    let info = UnPackInfo::new(4, 2, 4, 2, false);
    let out = BitUnPack(&[0b11_10_01_00, 0x00, 0xFF, 0x55], &info);
    // units of the first byte: 0, 1, 2, 3 -> 0, 3, 4, 5
    assert_eq!(out.len(), 2);
    assert_eq!(out[0], 0x0000_5430);
    // 0xFF: units 3,3,3,3 -> 5,5,5,5; 0x55: units 1,1,1,1 -> 3,3,3,3
    assert_eq!(out[1], 0x3333_5555);
}

#[test]
fn unpack_empty_source() {
    let info = UnPackInfo::new(0, 8, 8, 0, false);
    let out = BitUnPack(&[], &info);
    assert!(out.is_empty());
}
