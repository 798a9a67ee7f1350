use imgforge::text::{
    chars_of, copy_lines, decimal_text, has_suffix, is_space_char, split_fields, split_lines,
    strip_line_ending,
};

fn strings(items: &[&str]) -> Vec<String> {
    items.iter().map(|s| s.to_string()).collect()
}

#[test]
fn line_ending_is_stripped_once() {
    assert_eq!(strip_line_ending("abc\n"), "abc");
    assert_eq!(strip_line_ending("abc\r\n"), "abc");
    assert_eq!(strip_line_ending("abc"), "abc");
    assert_eq!(strip_line_ending("abc\r"), "abc\r");
    assert_eq!(strip_line_ending("abc\n\n"), "abc\n");
    assert_eq!(strip_line_ending("abc\r\r\n"), "abc\r");
    assert_eq!(strip_line_ending("\n"), "");
    assert_eq!(strip_line_ending("\r\n"), "");
    assert_eq!(strip_line_ending(""), "");
    assert_eq!(strip_line_ending("h\u{e9}llo \u{1f600}\n"), "h\u{e9}llo \u{1f600}");
}

#[test]
fn lines_are_split_like_the_standard_library_does() {
    let samples = [
        "",
        "a",
        "a\n",
        "a\nb",
        "a\r\nb\r\n",
        "\n",
        "\n\n",
        "a\n\nb",
        "a\rb\n",
        "tail\r",
        "\r\n\r\n",
        "x\n\r",
        "\u{e9}t\u{e9}\nna\u{ef}ve\r\n\u{1f600}",
    ];
    for sample in samples {
        let expected: Vec<String> = sample.lines().map(|l| l.to_string()).collect();
        assert_eq!(split_lines(sample), expected);
    }
    assert_eq!(split_lines("a\r\n\nb\n"), strings(&["a", "", "b"]));
    assert_eq!(split_lines("tail\r"), strings(&["tail\r"]));
}

#[test]
fn fields_are_split_like_the_standard_library_does() {
    let samples = [
        "",
        " ",
        "a",
        " a ",
        "a b",
        "a  b\tc",
        "\u{a0}x\u{2003}y\u{3000}",
        "one\u{85}two\u{1680}three",
        "no-break\u{202f}narrow\u{205f}math",
        "a\u{200b}b",
        "\u{2028}l\u{2029}p",
        "\u{b}v\u{c}f\rr\nn",
    ];
    for sample in samples {
        let expected: Vec<String> = sample.split_whitespace().map(|f| f.to_string()).collect();
        assert_eq!(split_fields(sample), expected);
    }
    assert_eq!(split_fields("  sdb   14.9G disk 1 "), strings(&["sdb", "14.9G", "disk", "1"]));
}

#[test]
fn white_space_is_what_unicode_says() {
    for code in 0u32..0x3100 {
        if let Some(c) = char::from_u32(code) {
            assert_eq!(is_space_char(c), c.is_whitespace());
        }
    }
    assert!(!is_space_char('\u{feff}'));
    assert!(!is_space_char('\u{10ffff}'));
}

#[test]
fn numbers_are_written_in_decimal() {
    assert_eq!(decimal_text(0), "0");
    assert_eq!(decimal_text(7), "7");
    assert_eq!(decimal_text(10), "10");
    assert_eq!(decimal_text(109), "109");
    assert_eq!(decimal_text(9_876_543_210), "9876543210");
    assert_eq!(decimal_text(usize::MAX), usize::MAX.to_string());
}

#[test]
fn suffixes_are_compared_by_characters() {
    assert!(has_suffix("a.img", ".img"));
    assert!(has_suffix("a.img", ""));
    assert!(has_suffix("", ""));
    assert!(!has_suffix("img", ".img"));
    assert!(!has_suffix("a.img ", ".img"));
    assert!(has_suffix("caf\u{e9}", "f\u{e9}"));
    assert!(!has_suffix("cafe", "f\u{e9}"));
}

#[test]
fn chars_and_copies_keep_the_content() {
    assert_eq!(chars_of("h\u{e9}\u{1f600}"), vec!['h', '\u{e9}', '\u{1f600}']);
    assert!(chars_of("").is_empty());
    let lines = strings(&["a", "", "c"]);
    assert_eq!(copy_lines(&lines), lines);
}
