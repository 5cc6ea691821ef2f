use smart_clock::inputs::{decode_word, encode_word, u32_to_u8s, u8s_to_u32};

#[test]
fn encode_word_puts_the_high_byte_first() {
    assert_eq!(encode_word(0x1234_5678), [0x12, 0x34, 0x56, 0x78]);
    assert_eq!(encode_word(0), [0, 0, 0, 0]);
    assert_eq!(encode_word(u32::MAX), [0xff, 0xff, 0xff, 0xff]);
    assert_eq!(encode_word(1), [0, 0, 0, 1]);
    assert_eq!(encode_word(0x8000_0000), [0x80, 0, 0, 0]);
}

#[test]
fn decode_word_reads_the_high_byte_first() {
    assert_eq!(decode_word(&[0x12, 0x34, 0x56, 0x78]), 0x1234_5678);
    assert_eq!(decode_word(&[0, 0, 0, 1]), 1);
    assert_eq!(decode_word(&[0x80, 0, 0, 0]), 0x8000_0000);
    assert_eq!(decode_word(&[0xff, 0xff, 0xff, 0xff]), u32::MAX);
}

#[test]
fn decode_agrees_with_std_big_endian() {
    for bytes in [[1u8, 2, 3, 4], [0xde, 0xad, 0xbe, 0xef], [0, 0xff, 0, 0xff]] {
        assert_eq!(decode_word(&bytes), u32::from_be_bytes(bytes));
        assert_eq!(encode_word(u32::from_be_bytes(bytes)), bytes);
    }
}

#[test]
fn word_round_trip() {
    let mut v: u32 = 1;
    for _ in 0..200 {
        v = v.wrapping_mul(1_664_525).wrapping_add(1_013_904_223);
        assert_eq!(decode_word(&encode_word(v)), v);
        let b = v.to_le_bytes();
        assert_eq!(encode_word(decode_word(&b)), b);
    }
}

#[test]
fn u32_to_u8s_lays_words_out_in_order() {
    assert_eq!(
        u32_to_u8s(&[0x0102_0304, 0xa0b0_c0d0]),
        vec![1, 2, 3, 4, 0xa0, 0xb0, 0xc0, 0xd0]
    );
    assert_eq!(u32_to_u8s(&[]), Vec::<u8>::new());
}

#[test]
fn u8s_to_u32_reads_whole_words_only() {
    assert_eq!(u8s_to_u32(&[1, 2, 3, 4, 0xa0, 0xb0, 0xc0, 0xd0]), vec![0x0102_0304, 0xa0b0_c0d0]);
    assert_eq!(u8s_to_u32(&[1, 2, 3, 4, 5, 6, 7]), vec![0x0102_0304]);
    assert_eq!(u8s_to_u32(&[1, 2, 3]), Vec::<u32>::new());
    assert_eq!(u8s_to_u32(&[]), Vec::<u32>::new());
}

#[test]
fn slices_round_trip() {
    let words = vec![0u32, 1, 0xffff_ffff, 0x8000_0001, 0x00ff_ff00];
    assert_eq!(u8s_to_u32(&u32_to_u8s(&words)), words);
    let bytes: Vec<u8> = (0u8..16).collect();
    assert_eq!(u32_to_u8s(&u8s_to_u32(&bytes)), bytes);
    let ragged: Vec<u8> = (0u8..18).collect();
    assert_eq!(u32_to_u8s(&u8s_to_u32(&ragged)), ragged[..16].to_vec());
}
