use cpu_core::utils::{bytes_to_word, word_to_bytes};

#[test]
fn bytes_to_word_puts_high_byte_first() {
    assert_eq!(bytes_to_word(0x12, 0x34), 0x1234);
    assert_eq!(bytes_to_word(0x00, 0xFF), 0x00FF);
    assert_eq!(bytes_to_word(0xFF, 0x00), 0xFF00);
}

#[test]
fn word_to_bytes_gives_high_then_low() {
    assert_eq!(word_to_bytes(0x1234), (0x12, 0x34));
    assert_eq!(word_to_bytes(0x8000), (0x80, 0x00));
    assert_eq!(word_to_bytes(0x00FF), (0x00, 0xFF));
}

#[test]
fn split_and_join_round_trip() {
    for word in [0u16, 1, 0x00FF, 0x0100, 0x1234, 0x8000, 0xABCD, 0xFFFF] {
        let (high, low) = word_to_bytes(word);
        assert_eq!(bytes_to_word(high, low), word);
    }
    let mut word: u32 = 0;
    while word <= 0xFFFF {
        let (high, low) = word_to_bytes(word as u16);
        assert_eq!(bytes_to_word(high, low) as u32, word);
        word += 1;
    }
}
