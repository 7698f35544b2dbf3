use modal_edit::text::{parse_lines, render_lines, split_words, whitespace};

#[test]
fn parse_lines_splits_on_the_separator() {
    assert_eq!(parse_lines("a\nb\n"), vec!["a", "b"]);
    assert_eq!(parse_lines("a\nb"), vec!["a", "b"]);
    assert_eq!(parse_lines(""), vec![""]);
    assert_eq!(parse_lines("\n"), vec![""]);
    assert_eq!(parse_lines("\n\n"), vec!["", ""]);
    assert_eq!(parse_lines("a\r\nb"), vec!["a\r", "b"]);
}

#[test]
fn render_lines_ends_every_line() {
    assert_eq!(render_lines(&vec!["a".to_string(), "b".to_string()]), "a\nb\n");
    assert_eq!(render_lines(&vec![String::new()]), "\n");
    assert_eq!(render_lines(&Vec::new()), "");
}

#[test]
fn parse_undoes_render() {
    let cases: Vec<Vec<&str>> = vec![vec![""], vec!["a"], vec!["", ""], vec!["a", "", "b c"], vec!["", "x", ""]];
    for case in cases {
        let lines: Vec<String> = case.iter().map(|line| line.to_string()).collect();
        assert_eq!(parse_lines(&render_lines(&lines)), lines);
    }
}

#[test]
fn split_words_skips_white_space() {
    assert_eq!(split_words("w out.txt"), vec!["w", "out.txt"]);
    assert_eq!(split_words("  w \t out.txt  "), vec!["w", "out.txt"]);
    assert_eq!(split_words("quit"), vec!["quit"]);
    assert_eq!(split_words("a b  c"), vec!["a", "b", "c"]);
    assert_eq!(split_words("a\u{a0}b\u{3000}c"), vec!["a", "b", "c"]);
    assert_eq!(split_words(""), Vec::<String>::new());
    assert_eq!(split_words(" \t "), Vec::<String>::new());
}

#[test]
fn split_words_agrees_with_the_standard_library() {
    for text in ["", " ", "a", " a", "a ", "one two", "\tone\u{2003}two\u{85}three ", "x\u{200b}y z"] {
        let expected: Vec<String> = text.split_whitespace().map(|word| word.to_string()).collect();
        assert_eq!(split_words(text), expected);
    }
}

#[test]
fn whitespace_agrees_with_the_standard_library() {
    for code in 0..=0x10FFFFu32 {
        if let Some(c) = char::from_u32(code) {
            assert_eq!(whitespace(c), c.is_whitespace(), "U+{:04X}", code);
        }
    }
}
