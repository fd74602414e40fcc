use gamedorp::cpu::instructions::{
    calculate_res, calculate_set, get_first_half, get_second_half, is_bit_zero, split_into_halves,
    swap_nibles,
};
use gamedorp::cpu::model::Flags;
use gamedorp::cpu::{make_word, split_word};

#[test]
fn halves_of_every_byte() {
    for byte in 0..=255u8 {
        assert_eq!(split_into_halves(byte), (byte >> 4, byte & 0x0F));
        assert_eq!(get_first_half(byte), byte / 16);
        assert_eq!(get_second_half(byte), byte % 16);
    }
    assert_eq!(split_into_halves(0xA7), (0xA, 0x7));
    assert_eq!(split_into_halves(0x00), (0, 0));
    assert_eq!(split_into_halves(0xFF), (0xF, 0xF));
}

#[test]
fn bits_of_a_byte() {
    assert!(!is_bit_zero(0x80, 7));
    assert!(is_bit_zero(0x80, 6));
    assert!(is_bit_zero(0x80, 0));
    assert!(!is_bit_zero(0x01, 0));
    assert!(is_bit_zero(0x01, 7));
    for byte in 0..=255u8 {
        for bit in 0..8u8 {
            assert_eq!(is_bit_zero(byte, bit), byte & (1 << bit) == 0);
        }
    }
}

#[test]
fn setting_and_clearing_bits() {
    assert_eq!(calculate_set(0x00, 7), 0x80);
    assert_eq!(calculate_set(0x80, 7), 0x80);
    assert_eq!(calculate_set(0x0F, 4), 0x1F);
    assert_eq!(calculate_res(0xFF, 0), 0xFE);
    assert_eq!(calculate_res(0xFE, 0), 0xFE);
    assert_eq!(calculate_res(0x80, 7), 0x00);
}

#[test]
fn nibbles_are_exchanged() {
    assert_eq!(swap_nibles(0xA7), 0x7A);
    assert_eq!(swap_nibles(0xF0), 0x0F);
    assert_eq!(swap_nibles(0x00), 0x00);
    for byte in 0..=255u8 {
        assert_eq!(swap_nibles(byte), byte.rotate_left(4));
    }
}

#[test]
fn flags_from_and_to_a_byte() {
    let all = Flags { zero: true, subtract: true, half_carry: true, carry: true };
    let none = Flags { zero: false, subtract: false, half_carry: false, carry: false };
    assert_eq!(Flags::from_byte(0xFF), all);
    assert_eq!(Flags::from_byte(0xF0), all);
    assert_eq!(Flags::from_byte(0x0F), none);
    assert_eq!(
        Flags::from_byte(0x80),
        Flags { zero: true, subtract: false, half_carry: false, carry: false }
    );
    assert_eq!(
        Flags::from_byte(0x40),
        Flags { zero: false, subtract: true, half_carry: false, carry: false }
    );
    assert_eq!(
        Flags::from_byte(0x20),
        Flags { zero: false, subtract: false, half_carry: true, carry: false }
    );
    assert_eq!(
        Flags::from_byte(0x10),
        Flags { zero: false, subtract: false, half_carry: false, carry: true }
    );
    assert_eq!(all.to_byte(), 0xF0);
    assert_eq!(none.to_byte(), 0x00);
    for byte in 0..=255u8 {
        assert_eq!(Flags::from_byte(byte).to_byte(), byte & 0xF0);
    }
}

#[test]
fn words_and_their_bytes() {
    assert_eq!(make_word(0x12, 0x34), 0x1234);
    assert_eq!(split_word(0x1234), (0x12, 0x34));
    assert_eq!(make_word(0xFF, 0x00), 0xFF00);
    assert_eq!(split_word(0x00FF), (0x00, 0xFF));
}
