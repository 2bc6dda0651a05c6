use glow_effect::encoding::{image_of_halves, image_of_words};

#[test]
fn words_become_their_native_bytes() {
    let words: Vec<u32> = vec![0x0102_0304, 0, 0xffff_ffff, 0x3f80_0000, 0x8000_0001];
    let mut expected: Vec<u8> = Vec::new();
    for word in &words {
        expected.extend_from_slice(&word.to_ne_bytes());
    }
    assert_eq!(image_of_words(&words), expected);
}

#[test]
fn halves_become_their_native_bytes() {
    let halves: Vec<u16> = vec![0x0102, 0, 0xffff, 3, 0x8001];
    let mut expected: Vec<u8> = Vec::new();
    for half in &halves {
        expected.extend_from_slice(&half.to_ne_bytes());
    }
    assert_eq!(image_of_halves(&halves), expected);
}

#[test]
fn image_is_little_or_big_endian_throughout() {
    let words: Vec<u32> = vec![0x0102_0304, 0x0a0b_0c0d];
    let bytes = image_of_words(&words);
    let little: Vec<u8> = vec![4, 3, 2, 1, 0x0d, 0x0c, 0x0b, 0x0a];
    let big: Vec<u8> = vec![1, 2, 3, 4, 0x0a, 0x0b, 0x0c, 0x0d];
    assert!(bytes == little || bytes == big);
    let halves: Vec<u16> = vec![0x0102, 0x0a0b];
    let bytes = image_of_halves(&halves);
    let little: Vec<u8> = vec![2, 1, 0x0b, 0x0a];
    let big: Vec<u8> = vec![1, 2, 0x0a, 0x0b];
    assert!(bytes == little || bytes == big);
}

#[test]
fn image_of_nothing_is_empty() {
    assert!(image_of_words(&Vec::new()).is_empty());
    assert!(image_of_halves(&Vec::new()).is_empty());
}

#[test]
fn image_has_four_bytes_a_word_and_two_a_half() {
    for len in [1usize, 2, 3, 17, 68] {
        assert_eq!(image_of_words(&vec![7u32; len]).len(), 4 * len);
        assert_eq!(image_of_halves(&vec![7u16; len]).len(), 2 * len);
    }
}
