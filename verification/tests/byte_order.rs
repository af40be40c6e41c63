use esp_idf_hal::byte_order::{decode_be, encode_be};

#[test]
fn decode_puts_the_first_octet_highest() {
    assert_eq!(decode_be(&[192, 168, 1, 42]), 0xC0A8_012A);
    assert_eq!(decode_be(&[0, 0, 0, 1]), 1);
    assert_eq!(decode_be(&[1, 0, 0, 0]), 0x0100_0000);
    assert_eq!(decode_be(&[0x12, 0x34, 0x56, 0x78]), 0x1234_5678);
}

#[test]
fn decode_of_extremes() {
    assert_eq!(decode_be(&[0, 0, 0, 0]), 0);
    assert_eq!(decode_be(&[255, 255, 255, 255]), u32::MAX);
    assert_eq!(decode_be(&[255, 255, 255, 0]), 0xFFFF_FF00);
}

#[test]
fn encode_puts_the_highest_octet_first() {
    assert_eq!(encode_be(0xC0A8_012A), [192, 168, 1, 42]);
    assert_eq!(encode_be(1), [0, 0, 0, 1]);
    assert_eq!(encode_be(0x0100_0000), [1, 0, 0, 0]);
    assert_eq!(encode_be(0), [0, 0, 0, 0]);
    assert_eq!(encode_be(u32::MAX), [255, 255, 255, 255]);
}

#[test]
fn decode_undoes_encode() {
    let values: [u32; 8] =
        [0, 1, 0xFF, 0x100, 0x0A00_0005, 0xC0A8_012A, 0xFFFF_FF00, u32::MAX];
    for value in values {
        assert_eq!(decode_be(&encode_be(value)), value);
    }
}

#[test]
fn encode_undoes_decode() {
    let samples: [[u8; 4]; 5] =
        [[0, 0, 0, 0], [10, 0, 0, 1], [172, 16, 254, 3], [0, 255, 0, 255], [255, 255, 255, 255]];
    for octets in samples {
        assert_eq!(encode_be(decode_be(&octets)), octets);
    }
}

#[test]
fn decode_agrees_with_the_standard_conversions() {
    let samples: [[u8; 4]; 4] = [[192, 168, 1, 42], [10, 0, 0, 5], [0, 0, 0, 0], [1, 2, 3, 4]];
    for octets in samples {
        assert_eq!(decode_be(&octets), u32::from_be_bytes(octets));
        // A word that the platform wrote in network order, loaded as the host loads it.
        let word = u32::from_ne_bytes(octets);
        assert_eq!(decode_be(&word.to_ne_bytes()), u32::from_be(word));
        assert_eq!(encode_be(decode_be(&octets)), u32::from_be(word).to_be_bytes());
    }
}
