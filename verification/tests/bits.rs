use mp3decoder::bits::extract_bits;

#[test]
fn extract_whole_bytes() {
    let bytes = [0x12u8, 0x34, 0x56, 0x78, 0x9A];
    assert_eq!(extract_bits(&bytes, 0, 8), 0x12);
    assert_eq!(extract_bits(&bytes, 8, 16), 0x3456);
    assert_eq!(extract_bits(&bytes, 24, 16), 0x789A);
}

#[test]
fn extract_across_one_byte_boundary() {
    let bytes = [0x12u8, 0x34, 0x56, 0x78, 0x9A];
    assert_eq!(extract_bits(&bytes, 3, 9), 291);
    assert_eq!(extract_bits(&bytes, 15, 2), 0);
    assert_eq!(extract_bits(&bytes, 4, 8), 0x23);
}

#[test]
fn extract_across_two_byte_boundaries() {
    let bytes = [0x12u8, 0x34, 0x56, 0x78, 0x9A];
    assert_eq!(extract_bits(&bytes, 4, 16), 9029);
    assert_eq!(extract_bits(&bytes, 7, 16), 6699);
}

#[test]
fn extract_single_bits() {
    let bytes = [0x80u8, 0x01];
    assert_eq!(extract_bits(&bytes, 0, 1), 1);
    assert_eq!(extract_bits(&bytes, 1, 1), 0);
    assert_eq!(extract_bits(&bytes, 14, 1), 0);
    assert_eq!(extract_bits(&bytes, 15, 1), 1);
}

#[test]
fn extract_at_the_end_of_the_run() {
    let bytes = [0x12u8, 0x34, 0x56, 0x78, 0x9A];
    assert_eq!(extract_bits(&bytes, 39, 1), 0);
    assert_eq!(extract_bits(&bytes, 36, 4), 0xA);
    assert_eq!(extract_bits(&bytes, 32, 8), 0x9A);
    let one = [0xC5u8];
    assert_eq!(extract_bits(&one, 0, 8), 0xC5);
    assert_eq!(extract_bits(&one, 5, 3), 5);
}

#[test]
fn extract_nothing() {
    let bytes = [0xFFu8, 0xFF];
    assert_eq!(extract_bits(&bytes, 0, 0), 0);
    assert_eq!(extract_bits(&bytes, 9, 0), 0);
    assert_eq!(extract_bits(&bytes, 16, 0), 0);
    let empty: [u8; 0] = [];
    assert_eq!(extract_bits(&empty, 0, 0), 0);
}

#[test]
fn extract_is_most_significant_bit_first() {
    let bytes = [0b0100_0000u8, 0b0000_0010];
    assert_eq!(extract_bits(&bytes, 0, 2), 0b01);
    assert_eq!(extract_bits(&bytes, 1, 2), 0b10);
    assert_eq!(extract_bits(&bytes, 13, 3), 0b010);
    assert_eq!(extract_bits(&bytes, 0, 16), 0x4002);
}

#[test]
fn extract_splits_into_adjacent_fields() {
    let bytes = [0xA7u8, 0x3C, 0xE1, 0x5B];
    let whole = extract_bits(&bytes, 5, 14);
    let left = extract_bits(&bytes, 5, 6);
    let right = extract_bits(&bytes, 11, 8);
    assert_eq!(whole, left * 256 + right);
}
