use modal_edit::screen::{ClearScope, Effect};

#[test]
fn goto_is_row_then_column() {
    assert_eq!(Effect::Goto(3, 4).encode(), Some("\x1b[4;3H".to_string()));
    assert_eq!(Effect::Goto(1, 1).encode(), Some("\x1b[1;1H".to_string()));
    assert_eq!(Effect::Goto(0, 24).encode(), Some("\x1b[24;0H".to_string()));
    assert_eq!(Effect::Goto(10, 0).encode(), Some("\x1b[0;10H".to_string()));
    assert_eq!(Effect::Goto(65535, 100).encode(), Some("\x1b[100;65535H".to_string()));
}

#[test]
fn left_counts_columns() {
    assert_eq!(Effect::Left(1).encode(), Some("\x1b[1D".to_string()));
    assert_eq!(Effect::Left(0).encode(), Some("\x1b[0D".to_string()));
    assert_eq!(Effect::Left(907).encode(), Some("\x1b[907D".to_string()));
}

#[test]
fn clear_sequences() {
    assert_eq!(Effect::Clear(ClearScope::All).encode(), Some("\x1b[2J".to_string()));
    assert_eq!(Effect::Clear(ClearScope::CurrentLine).encode(), Some("\x1b[2K".to_string()));
    assert_eq!(Effect::Clear(ClearScope::UntilNewline).encode(), Some("\x1b[K".to_string()));
}

#[test]
fn print_is_sent_as_it_is() {
    assert_eq!(Effect::Print("héllo\r\n".to_string()).encode(), Some("héllo\r\n".to_string()));
    assert_eq!(Effect::Print(String::new()).encode(), Some(String::new()));
}

#[test]
fn flush_and_save_are_not_text() {
    assert_eq!(Effect::Flush.encode(), None);
    let save = Effect::Save { path: "a.txt".to_string(), text: "a\n".to_string(), announce: true };
    assert_eq!(save.encode(), None);
}
