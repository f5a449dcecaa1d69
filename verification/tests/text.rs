use text_editor::lines::lines;
use text_editor::text::{byte_len, is_control, push_decimal, push_spaces, truncate};

#[test]
fn lines_agree_with_the_standard_library() {
    for contents in [
        "",
        "\n",
        "\r\n",
        "\r",
        "a",
        "a\n",
        "a\r\n",
        "a\r",
        "a\nb",
        "a\n\nb\n",
        "a\r\r\nb",
        "a\n\rb",
        "\r\r",
        "one\r\ntwo\nthree\r",
        "é\n𝄞\r\n",
    ] {
        let expected: Vec<String> = contents.lines().map(String::from).collect();
        assert_eq!(lines(contents), expected);
    }
}

#[test]
fn lines_keep_a_carriage_return_without_a_newline() {
    assert_eq!(lines("a\rb\r"), vec![String::from("a\rb\r")]);
    assert_eq!(lines("a\r\r\n"), vec![String::from("a\r")]);
}

#[test]
fn truncate_keeps_what_fits() {
    assert_eq!(truncate("hello", 3), "hel");
    assert_eq!(truncate("hello", 5), "hello");
    assert_eq!(truncate("hello", 50), "hello");
    assert_eq!(truncate("hello", 0), "");
    assert_eq!(truncate("", 3), "");
}

#[test]
fn truncate_counts_bytes_and_keeps_characters_whole() {
    assert_eq!(truncate("aéb", 1), "a");
    assert_eq!(truncate("aéb", 2), "a");
    assert_eq!(truncate("aéb", 3), "aé");
    assert_eq!(truncate("aéb", 4), "aéb");
    assert_eq!(truncate("€𝄞", 2), "");
    assert_eq!(truncate("€𝄞", 3), "€");
    assert_eq!(truncate("€𝄞", 6), "€");
    assert_eq!(truncate("€𝄞", 7), "€𝄞");
}

#[test]
fn truncate_agrees_with_string_truncate_on_character_boundaries() {
    let text = "aé€𝄞z";
    for limit in 0..=text.len() + 1 {
        if limit > text.len() || text.is_char_boundary(limit) {
            let mut expected = String::from(text);
            expected.truncate(limit);
            assert_eq!(truncate(text, limit), expected);
        }
    }
}

#[test]
fn push_decimal_writes_the_digits() {
    for n in [0usize, 1, 9, 10, 11, 99, 100, 101, 12345, 1000000, usize::MAX] {
        let mut text = String::from("n=");
        push_decimal(&mut text, n);
        assert_eq!(text, format!("n={}", n));
    }
}

#[test]
fn push_spaces_writes_so_many_spaces() {
    let mut text = String::from("a");
    push_spaces(&mut text, 0);
    assert_eq!(text, "a");
    push_spaces(&mut text, 3);
    assert_eq!(text, "a   ");
}

#[test]
fn byte_len_counts_utf8_bytes() {
    assert_eq!(byte_len(""), 0);
    assert_eq!(byte_len("abc"), 3);
    assert_eq!(byte_len("aé€𝄞"), 10);
}

#[test]
fn is_control_agrees_with_the_standard_library() {
    for code in 0..=0x10ffffu32 {
        if let Some(c) = char::from_u32(code) {
            assert_eq!(is_control(c), c.is_control());
        }
    }
}
