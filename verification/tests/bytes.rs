use escrow::bytes::{read_u64, to_le_bytes};

#[test]
fn read_u64_is_little_endian() {
    let data = [1u8, 2, 3, 4, 5, 6, 7, 8];
    assert_eq!(read_u64(&data, 0), 0x0807_0605_0403_0201);
}

#[test]
fn read_u64_reads_at_the_offset() {
    let data = [9u8, 9, 9, 7, 0, 0, 0, 0, 0, 0, 0, 9];
    assert_eq!(read_u64(&data, 3), 7);
}

#[test]
fn read_u64_of_extremes() {
    assert_eq!(read_u64(&[0u8; 8], 0), 0);
    assert_eq!(read_u64(&[255u8; 8], 0), u64::MAX);
    assert_eq!(read_u64(&[0, 0, 0, 0, 0, 0, 0, 128], 0), 1u64 << 63);
}

#[test]
fn to_le_bytes_puts_the_low_byte_first() {
    assert_eq!(to_le_bytes(500), [244, 1, 0, 0, 0, 0, 0, 0]);
    assert_eq!(to_le_bytes(0x0807_0605_0403_0201), [1, 2, 3, 4, 5, 6, 7, 8]);
    assert_eq!(to_le_bytes(u64::MAX), [255; 8]);
    assert_eq!(to_le_bytes(0), [0; 8]);
}

#[test]
fn to_le_bytes_agrees_with_std() {
    let samples = [0u64, 1, 7, 255, 256, 65_535, 65_536, 1 << 32, u64::MAX - 1, u64::MAX, 0xdead_beef_0bad_f00d];
    for x in samples {
        assert_eq!(to_le_bytes(x), x.to_le_bytes());
        assert_eq!(read_u64(&x.to_le_bytes(), 0), x);
    }
}
