use modal_edit::text_buf::{TextBuf, WriteError, WriteRequest};

fn lines(buf: &TextBuf) -> Vec<String> {
    buf.data().to_vec()
}

fn in_bounds(buf: &TextBuf) -> bool {
    let (column, row) = buf.cursor();
    buf.line_count() >= 1 && row < buf.line_count() && column <= buf.line(row).chars().count()
}

#[test]
fn empty_buffer_is_one_empty_line() {
    let buf = TextBuf::empty();
    assert_eq!(lines(&buf), vec![String::new()]);
    assert_eq!(buf.cursor(), (0, 0));
    assert_eq!(buf.line_count(), 1);
    assert_eq!(buf.file(), None);
    assert!(buf.changed());
}

#[test]
fn scenario_insert_in_the_middle() {
    let mut buf = TextBuf::empty();
    buf.insert('a');
    buf.insert('b');
    buf.left();
    buf.insert('X');
    assert_eq!(buf.line(0), "aXb");
    assert_eq!(buf.cursor(), (2, 0));
}

#[test]
fn scenario_backspace_joins_lines() {
    let mut buf = TextBuf::from_file("joined.txt", "ab\ncd\n");
    assert_eq!(lines(&buf), vec!["ab", "cd"]);
    buf.down();
    assert_eq!(buf.cursor(), (0, 1));
    buf.backspace();
    assert_eq!(lines(&buf), vec!["abcd"]);
    assert_eq!(buf.cursor(), (2, 0));
}

#[test]
fn load_drops_the_final_separator_only() {
    let buf = TextBuf::from_file("a.txt", "one\ntwo\n");
    assert_eq!(lines(&buf), vec!["one", "two"]);
    assert_eq!(buf.cursor(), (0, 0));
    assert!(buf.changed());
    assert_eq!(buf.file(), Some(&"a.txt".to_string()));
}

#[test]
fn load_keeps_a_last_line_without_separator() {
    let buf = TextBuf::from_file("a.txt", "one\ntwo");
    assert_eq!(lines(&buf), vec!["one", "two"]);
    let single = TextBuf::from_file("a.txt", "alone");
    assert_eq!(lines(&single), vec!["alone"]);
}

#[test]
fn load_of_empty_text_is_one_empty_line() {
    let buf = TextBuf::from_file("a.txt", "");
    assert_eq!(lines(&buf), vec![""]);
    let newline = TextBuf::from_file("a.txt", "\n");
    assert_eq!(lines(&newline), vec![""]);
}

#[test]
fn load_keeps_blank_lines() {
    let buf = TextBuf::from_file("a.txt", "a\n\nb\n");
    assert_eq!(lines(&buf), vec!["a", "", "b"]);
    let trailing = TextBuf::from_file("a.txt", "a\n\n");
    assert_eq!(lines(&trailing), vec!["a", ""]);
    let leading = TextBuf::from_file("a.txt", "\n\na");
    assert_eq!(lines(&leading), vec!["", "", "a"]);
}

#[test]
fn write_joins_lines_and_ends_with_separator() {
    let buf = TextBuf::from_file("in.txt", "hello");
    assert_eq!(
        buf.write(Some("out.txt".to_string())),
        Ok(WriteRequest { path: "out.txt".to_string(), text: "hello\n".to_string() })
    );
    let two = TextBuf::from_file("in.txt", "a\nb");
    assert_eq!(
        two.write(None),
        Ok(WriteRequest { path: "in.txt".to_string(), text: "a\nb\n".to_string() })
    );
}

#[test]
fn write_of_untitled_buffer_needs_a_path() {
    let mut buf = TextBuf::empty();
    buf.insert('x');
    assert_eq!(buf.write(None), Err(WriteError::NoFilename));
    assert_eq!(
        buf.write(Some("named.txt".to_string())),
        Ok(WriteRequest { path: "named.txt".to_string(), text: "x\n".to_string() })
    );
    // A path given with the command does not become the backing path.
    assert_eq!(buf.write(None), Err(WriteError::NoFilename));
}

#[test]
fn written_clears_changed_only_on_success() {
    let mut buf = TextBuf::from_file("in.txt", "a\n");
    assert!(buf.changed());
    assert_eq!(
        buf.written(Err("disk full".to_string())),
        Err(WriteError::IoFailure("disk full".to_string()))
    );
    assert!(buf.changed());
    assert_eq!(buf.written(Ok(())), Ok(()));
    assert!(!buf.changed());
    assert_eq!(lines(&buf), vec!["a"]);
    buf.insert('b');
    assert!(buf.changed());
}

#[test]
fn write_error_messages() {
    assert_eq!(WriteError::NoFilename.message(), "No filename");
    assert_eq!(WriteError::IoFailure("Permission denied".to_string()).message(), "Permission denied");
}

#[test]
fn save_then_load_reproduces_the_lines() {
    let mut buf = TextBuf::empty();
    buf.insert_str("first\n\nthird line\n");
    assert_eq!(lines(&buf), vec!["first", "", "third line", ""]);
    let request = buf.write(Some("copy.txt".to_string())).unwrap();
    assert_eq!(request.text, "first\n\nthird line\n\n");
    let again = TextBuf::from_file(&request.path, &request.text);
    assert_eq!(lines(&again), lines(&buf));

    let single = TextBuf::empty();
    let request = single.write(Some("copy.txt".to_string())).unwrap();
    assert_eq!(request.text, "\n");
    assert_eq!(lines(&TextBuf::from_file("copy.txt", &request.text)), vec![""]);
}

#[test]
fn load_then_save_adds_a_missing_final_separator() {
    let with = TextBuf::from_file("a.txt", "a\nb\n");
    assert_eq!(with.write(None).unwrap().text, "a\nb\n");
    let without = TextBuf::from_file("a.txt", "a\nb");
    assert_eq!(without.write(None).unwrap().text, "a\nb\n");
}

#[test]
fn moves_at_the_edges_do_nothing() {
    let mut buf = TextBuf::from_file("a.txt", "ab\ncd\n");
    buf.left();
    assert_eq!(buf.cursor(), (0, 0));
    buf.up();
    assert_eq!(buf.cursor(), (0, 0));
    buf.right();
    buf.right();
    assert_eq!(buf.cursor(), (2, 0));
    buf.right();
    assert_eq!(buf.cursor(), (2, 0));
    buf.down();
    assert_eq!(buf.cursor(), (2, 1));
    buf.down();
    assert_eq!(buf.cursor(), (2, 1));
    assert_eq!(lines(&buf), vec!["ab", "cd"]);
}

#[test]
fn horizontal_moves_stay_on_the_line() {
    let mut buf = TextBuf::from_file("a.txt", "ab\ncd\n");
    buf.down();
    buf.left();
    assert_eq!(buf.cursor(), (0, 1));
    buf.up();
    buf.right();
    buf.right();
    buf.right();
    assert_eq!(buf.cursor(), (2, 0));
}

#[test]
fn vertical_moves_keep_the_cursor_on_the_line() {
    let mut buf = TextBuf::from_file("a.txt", "long line\nab\n\nlonger line\n");
    for _ in 0..7 {
        buf.right();
    }
    assert_eq!(buf.cursor(), (7, 0));
    buf.down();
    assert_eq!(buf.cursor(), (2, 1));
    buf.down();
    assert_eq!(buf.cursor(), (0, 2));
    buf.down();
    assert_eq!(buf.cursor(), (0, 3));
    for _ in 0..11 {
        buf.right();
    }
    assert_eq!(buf.cursor(), (11, 3));
    buf.up();
    assert_eq!(buf.cursor(), (0, 2));
    buf.up();
    buf.up();
    assert_eq!(buf.cursor(), (0, 0));
}

#[test]
fn insert_then_backspace_restores_text_and_cursor() {
    for column in 0..=3 {
        let mut buf = TextBuf::from_file("a.txt", "xyz\nabc\n");
        buf.down();
        for _ in 0..column {
            buf.right();
        }
        buf.insert('Q');
        assert_eq!(buf.cursor(), (column + 1, 1));
        buf.backspace();
        assert_eq!(lines(&buf), vec!["xyz", "abc"]);
        assert_eq!(buf.cursor(), (column, 1));
    }
}

#[test]
fn separator_splits_the_line_at_the_cursor() {
    for column in 0..=5 {
        let mut buf = TextBuf::from_file("a.txt", "top\nhello\nend\n");
        buf.down();
        for _ in 0..column {
            buf.right();
        }
        buf.insert('\n');
        assert_eq!(buf.line_count(), 4);
        assert_eq!(buf.line(1).len(), column);
        assert_eq!(buf.line(2).len(), 5 - column);
        assert_eq!(format!("{}{}", buf.line(1), buf.line(2)), "hello");
        assert_eq!(buf.line(0), "top");
        assert_eq!(buf.line(3), "end");
        assert_eq!(buf.cursor(), (0, 2));
    }
}

#[test]
fn insert_sets_changed() {
    let mut buf = TextBuf::from_file("a.txt", "a\n");
    assert_eq!(buf.written(Ok(())), Ok(()));
    buf.insert('\n');
    assert!(buf.changed());
    assert_eq!(buf.written(Ok(())), Ok(()));
    buf.insert_str("");
    assert!(buf.changed());
}

#[test]
fn backspace_that_deletes_sets_changed() {
    let mut buf = TextBuf::from_file("a.txt", "ab\ncd\n");
    buf.right();
    assert_eq!(buf.written(Ok(())), Ok(()));
    buf.backspace();
    assert!(buf.changed());
    assert_eq!(buf.written(Ok(())), Ok(()));
    buf.down();
    assert!(!buf.changed());
    buf.backspace();
    assert_eq!(lines(&buf), vec!["bcd"]);
    assert!(buf.changed());
}

#[test]
fn backspace_within_a_line() {
    let mut buf = TextBuf::from_file("a.txt", "abc\n");
    buf.right();
    buf.right();
    buf.backspace();
    assert_eq!(lines(&buf), vec!["ac"]);
    assert_eq!(buf.cursor(), (1, 0));
    buf.backspace();
    assert_eq!(lines(&buf), vec!["c"]);
    assert_eq!(buf.cursor(), (0, 0));
}

#[test]
fn backspace_at_the_start_of_the_document_does_nothing() {
    let mut buf = TextBuf::from_file("a.txt", "ab\ncd\n");
    assert_eq!(buf.written(Ok(())), Ok(()));
    buf.backspace();
    assert_eq!(lines(&buf), vec!["ab", "cd"]);
    assert_eq!(buf.cursor(), (0, 0));
    assert!(!buf.changed());
}

#[test]
fn backspace_joins_with_an_empty_line() {
    let mut buf = TextBuf::from_file("a.txt", "\nab\n");
    buf.down();
    buf.backspace();
    assert_eq!(lines(&buf), vec!["ab"]);
    assert_eq!(buf.cursor(), (0, 0));

    let mut buf = TextBuf::from_file("a.txt", "ab\n\ncd\n");
    buf.down();
    buf.backspace();
    assert_eq!(lines(&buf), vec!["ab", "cd"]);
    assert_eq!(buf.cursor(), (2, 0));
}

#[test]
fn every_operation_works_on_a_single_empty_line() {
    let mut buf = TextBuf::empty();
    buf.left();
    buf.right();
    buf.up();
    buf.down();
    buf.backspace();
    assert_eq!(lines(&buf), vec![""]);
    assert_eq!(buf.cursor(), (0, 0));
    buf.insert('\n');
    assert_eq!(lines(&buf), vec!["", ""]);
    assert_eq!(buf.cursor(), (0, 1));
    buf.backspace();
    assert_eq!(lines(&buf), vec![""]);
    assert_eq!(buf.cursor(), (0, 0));
    buf.insert('a');
    assert_eq!(lines(&buf), vec!["a"]);
    assert_eq!(buf.cursor(), (1, 0));
}

#[test]
fn insert_str_types_each_character() {
    let mut buf = TextBuf::from_file("a.txt", "ad\n");
    buf.right();
    buf.insert_str("b\nc");
    assert_eq!(lines(&buf), vec!["ab", "cd"]);
    assert_eq!(buf.cursor(), (1, 1));
}

#[test]
fn get_is_the_character_at_the_cursor() {
    let mut buf = TextBuf::from_file("a.txt", "ab\ncd\n");
    assert_eq!(buf.get(), 'a');
    buf.right();
    assert_eq!(buf.get(), 'b');
    buf.down();
    assert_eq!(buf.get(), 'd');
    buf.left();
    assert_eq!(buf.get(), 'c');
}

#[test]
fn columns_count_characters() {
    let mut buf = TextBuf::empty();
    buf.insert('é');
    buf.insert('ß');
    assert_eq!(buf.cursor(), (2, 0));
    buf.left();
    buf.insert('字');
    assert_eq!(buf.line(0), "é字ß");
    assert_eq!(buf.cursor(), (2, 0));
    assert_eq!(buf.get(), 'ß');
    buf.backspace();
    assert_eq!(buf.line(0), "éß");
    buf.insert('\n');
    assert_eq!(lines(&buf), vec!["é", "ß"]);
    buf.backspace();
    assert_eq!(lines(&buf), vec!["éß"]);
    assert_eq!(buf.cursor(), (1, 0));
}

#[test]
fn cursor_stays_in_bounds() {
    let mut buf = TextBuf::from_file("a.txt", "one\n\nthree\n");
    let mut seed: u32 = 12345;
    for _ in 0..2000 {
        seed = seed.wrapping_mul(1664525).wrapping_add(1013904223);
        match (seed >> 24) % 8 {
            0 => buf.left(),
            1 => buf.right(),
            2 => buf.up(),
            3 => buf.down(),
            4 => buf.insert('x'),
            5 => buf.insert('\n'),
            _ => buf.backspace(),
        }
        assert!(in_bounds(&buf));
        assert!(buf.data().iter().all(|line| !line.contains('\n')));
    }
}
