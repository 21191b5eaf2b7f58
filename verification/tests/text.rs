use caco3::chars;
use caco3::text::indent;

#[test]
fn text_test() {
    assert_eq!(indent(1, ' ', false, ""), " ");
    assert_eq!(indent(1, ' ', true, ""), "");
    assert_eq!(indent(1, ' ', false, " "), "  ");
    assert_eq!(indent(1, ' ', false, "x"), " x");
    assert_eq!(indent(1, '_', false, "x"), "_x");
    assert_eq!(indent(2, ' ', false, "x"), "  x");
    assert_eq!(indent(2, ' ', false, "x "), "  x ");
    assert_eq!(indent(2, ' ', true, "x "), "  x");
    assert_eq!(indent(2, ' ', true, "x\ny"), "  x\n  y");
    assert_eq!(indent(2, ' ', false, "x\n\ny"), "  x\n  \n  y");
    assert_eq!(indent(2, ' ', true, "x\n\ny"), "  x\n\n  y");
}

#[test]
fn indent_drops_the_last_line_ending() {
    assert_eq!(indent(1, '>', false, "a\n"), ">a");
    assert_eq!(indent(1, '>', false, "a\r\nb\r\n"), ">a\n>b");
    assert_eq!(indent(0, '>', false, "a\nb"), "a\nb");
    assert_eq!(indent(1, '>', false, "\n"), ">");
}

#[test]
fn indent_with_a_wide_character() {
    assert_eq!(indent(2, 'é', false, "x\ny"), "ééx\nééy");
    assert_eq!(indent(1, '\u{3000}', true, "x \u{a0}"), "\u{3000}x");
}

fn chars_of(text: &str) -> Vec<char> {
    text.chars().collect()
}

fn lines_of(text: &str) -> Vec<String> {
    chars::split_lines(&chars_of(text)).iter().map(|line| line.iter().collect()).collect()
}

#[test]
fn split_lines_follows_the_standard_library() {
    for text in ["", "a", "a\n", "a\nb", "a\r\nb", "a\r", "\n", "\n\n", "a\n\nb\n", "\r\n", "a\rb\n", "x\r\r\n"] {
        let expected: Vec<String> = text.lines().map(|line| line.to_string()).collect();
        assert_eq!(lines_of(text), expected, "lines of {text:?}");
    }
}

#[test]
fn whitespace_follows_the_standard_library() {
    for code in 0u32..0x11_0000 {
        if let Some(c) = char::from_u32(code) {
            assert_eq!(chars::whitespace(c), c.is_whitespace(), "U+{code:04X}");
            assert_eq!(chars::hexdigit(c), c.is_ascii_hexdigit(), "U+{code:04X}");
            assert_eq!(chars::lower(c), c.to_ascii_lowercase(), "U+{code:04X}");
        }
    }
}

#[test]
fn trimming_follows_the_standard_library() {
    for text in ["", " ", "a", " a ", "\t a\u{a0}\n", "a b", "\u{2003}x\u{3000}", "  "] {
        let trimmed: String = chars::trimmed(&chars_of(text)).iter().collect();
        assert_eq!(trimmed, text.trim());
        let len = chars::trim_end_len(&chars_of(text));
        assert_eq!(len, text.trim_end().chars().count());
        let start = chars::trim_start_index(&chars_of(text));
        assert_eq!(text.chars().count() - start, text.trim_start().chars().count());
    }
}

#[test]
fn decimal_digits_are_the_numeral() {
    for n in [0u128, 1, 9, 10, 11, 99, 100, 12345, u64::MAX as u128, u128::MAX] {
        let text: String = chars::decimal_digits(n).iter().collect();
        assert_eq!(text, n.to_string());
    }
}

#[test]
fn join_puts_the_separator_between() {
    let parts = vec![chars_of("a"), chars_of(""), chars_of("bc")];
    let joined: String = chars::join_with(&parts, ',').iter().collect();
    assert_eq!(joined, "a,,bc");
    let joined: String = chars::join_all(&parts, &chars_of(", ")).iter().collect();
    assert_eq!(joined, "a, , bc");
    let none: Vec<Vec<char>> = Vec::new();
    assert_eq!(chars::join_with(&none, ',').len(), 0);
}

#[test]
fn conversions_keep_the_characters() {
    assert_eq!(chars::to_chars("héllo"), chars_of("héllo"));
    assert_eq!(chars::to_string(&chars_of("héllo")), "héllo");
    assert!(chars::equal_ignoring_case(&chars_of("YeS"), &chars_of("yes")));
    assert!(!chars::equal_ignoring_case(&chars_of("yes"), &chars_of("yes ")));
    assert!(!chars::equal_ignoring_case(&chars_of("k"), &chars_of("\u{212a}")));
}
