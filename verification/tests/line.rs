use market_stats::line::{chars_of, classify, span_is, trimmed_span, white_space, LineKind};

#[test]
fn markers_are_recognised() {
    assert_eq!(classify("BEGIN"), LineKind::Begin);
    assert_eq!(classify("END"), LineKind::End);
}

#[test]
fn markers_may_stand_in_white_space() {
    assert_eq!(classify("BEGIN\n"), LineKind::Begin);
    assert_eq!(classify("END\r\n"), LineKind::End);
    assert_eq!(classify("  \t BEGIN \u{a0}\u{3000}"), LineKind::Begin);
    assert_eq!(classify("\u{2003}END\u{2028}"), LineKind::End);
}

#[test]
fn anything_else_is_a_record() {
    assert_eq!(classify(""), LineKind::Record);
    assert_eq!(classify("   \n"), LineKind::Record);
    assert_eq!(classify("begin"), LineKind::Record);
    assert_eq!(classify("End"), LineKind::Record);
    assert_eq!(classify("BEGIN END"), LineKind::Record);
    assert_eq!(classify("B EGIN"), LineKind::Record);
    assert_eq!(classify("BEGINS"), LineKind::Record);
    assert_eq!(classify("EN"), LineKind::Record);
    assert_eq!(classify("\u{200b}END"), LineKind::Record);
    assert_eq!(
        classify("{\"id\":1,\"market\":7,\"price\":10.0,\"volume\":2.0,\"is_buy\":true}\n"),
        LineKind::Record
    );
}

#[test]
fn white_space_is_what_the_standard_library_calls_white_space() {
    for code in 0..=0x10ffffu32 {
        if let Some(c) = char::from_u32(code) {
            assert_eq!(white_space(c), c.is_whitespace(), "code point {:#x}", code);
        }
    }
}

#[test]
fn trimmed_span_agrees_with_trim() {
    let samples = [
        "",
        " ",
        "\n\n",
        "a",
        " a",
        "a ",
        "  a  b  ",
        "\u{3000}x\u{3000}",
        "\tBEGIN\r\n",
        " \u{1680}\u{85}caf\u{e9} \u{202f}\u{205f}",
        "\u{180e}x\u{180e}",
    ];
    for sample in samples {
        let text = chars_of(sample);
        assert_eq!(text, sample.chars().collect::<Vec<char>>());
        let (start, end) = trimmed_span(&text);
        let kept: String = text[start..end].iter().collect();
        assert_eq!(kept, sample.trim());
    }
}

#[test]
fn span_is_compares_the_whole_span() {
    let text: Vec<char> = "xENDy".chars().collect();
    let word: Vec<char> = "END".chars().collect();
    assert!(span_is(&text, 1, 4, &word));
    assert!(!span_is(&text, 0, 4, &word));
    assert!(!span_is(&text, 1, 3, &word));
    assert!(!span_is(&text, 2, 5, &word));
    assert!(span_is(&text, 2, 2, &Vec::new()));
}

#[test]
fn classify_agrees_with_trim_and_compare() {
    let samples = ["BEGIN", " END ", "END.", "", "\nBEGIN\n", "BEGIN\u{0}", "\u{feff}BEGIN"];
    for sample in samples {
        let expected = if sample.trim() == "BEGIN" {
            LineKind::Begin
        } else if sample.trim() == "END" {
            LineKind::End
        } else {
            LineKind::Record
        };
        assert_eq!(classify(sample), expected);
    }
}
