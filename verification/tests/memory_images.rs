use groundsaver::bytes::u16_image;
use groundsaver::bytes::u32_image;

#[test]
fn word_image_matches_native_bytes() {
    let words: Vec<u32> = vec![0, 1, 0x0102_0304, u32::MAX, 0x8000_0001];
    let mut expected: Vec<u8> = Vec::new();
    for word in &words {
        expected.extend_from_slice(&word.to_ne_bytes());
    }
    assert_eq!(u32_image(&words), expected);
}

#[test]
fn word_image_is_one_of_the_two_byte_orders() {
    let words: Vec<u32> = vec![0x0102_0304, 0xa0b0_c0d0];
    let image = u32_image(&words);
    let little: Vec<u8> = vec![0x04, 0x03, 0x02, 0x01, 0xd0, 0xc0, 0xb0, 0xa0];
    let big: Vec<u8> = vec![0x01, 0x02, 0x03, 0x04, 0xa0, 0xb0, 0xc0, 0xd0];
    assert!(image == little || image == big);
}

#[test]
fn word_image_of_nothing_is_empty() {
    let words: Vec<u32> = Vec::new();
    assert_eq!(u32_image(&words), Vec::<u8>::new());
}

#[test]
fn half_word_image_matches_native_bytes() {
    let halves: Vec<u16> = vec![0, 1, 2, 0x0102, u16::MAX];
    let mut expected: Vec<u8> = Vec::new();
    for half in &halves {
        expected.extend_from_slice(&half.to_ne_bytes());
    }
    assert_eq!(u16_image(&halves), expected);
}

#[test]
fn half_word_image_is_one_of_the_two_byte_orders() {
    let halves: Vec<u16> = vec![0x0102, 0xa0b0];
    let image = u16_image(&halves);
    let little: Vec<u8> = vec![0x02, 0x01, 0xb0, 0xa0];
    let big: Vec<u8> = vec![0x01, 0x02, 0xa0, 0xb0];
    assert!(image == little || image == big);
}

#[test]
fn images_have_the_length_of_their_data() {
    let words: Vec<u32> = vec![9; 7];
    let halves: Vec<u16> = vec![9; 7];
    assert_eq!(u32_image(&words).len(), 28);
    assert_eq!(u16_image(&halves).len(), 14);
}
