use lava_operator::text::{decimal_text, leading_u32, same_text};

#[test]
fn numerals_are_those_of_std() {
    for n in [0u64, 1, 9, 10, 11, 99, 100, 101, 1234567890, u32::MAX as u64, u64::MAX] {
        assert_eq!(decimal_text(n), n.to_string());
    }
}

#[test]
fn leading_number_is_that_of_std() {
    for message in [
        "",
        " ",
        "\t\n",
        "0 drifted field(s)",
        "12 drifted field(s)",
        "  7 x",
        "7",
        "+7 x",
        "+",
        "++7",
        "-7 x",
        "7x y",
        "4294967295 x",
        "4294967296 x",
        "00000000000000000012 x",
        "99999999999999999999999999 x",
        "\u{a0}5\u{3000}6",
        "\u{2009}8\u{85}",
        "\u{200b}9",
        "\u{1680}3",
        "५ x",
        "plan: bad",
    ] {
        let want = message.split_whitespace().next().and_then(|w| w.parse::<u32>().ok());
        assert_eq!(leading_u32(message), want, "{message:?}");
    }
}

#[test]
fn white_space_is_that_of_std() {
    for n in 0u32..0x11000 {
        if let Some(c) = char::from_u32(n) {
            let mut message = String::from("5");
            message.push(c);
            message.push('6');
            let want = message.split_whitespace().next().and_then(|w| w.parse::<u32>().ok());
            assert_eq!(leading_u32(&message), want, "{n:x}");
        }
    }
}

#[test]
fn drift_counts_are_read_back() {
    for n in [0u32, 1, 10, 4096, u32::MAX] {
        let mut message = decimal_text(n as u64);
        message.push_str(" drifted field(s)");
        assert_eq!(leading_u32(&message), Some(n));
    }
}

#[test]
fn texts_are_the_same_character_by_character() {
    assert!(same_text("", ""));
    assert!(same_text("é", "é"));
    assert!(!same_text("a", "ab"));
    assert!(!same_text("e\u{301}", "é"));
}
