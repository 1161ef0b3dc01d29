use richter::input::ConsoleInput;

fn chars(s: &str) -> Vec<char> {
    s.chars().collect()
}

fn typed(s: &str) -> ConsoleInput {
    let mut input = ConsoleInput::new();
    for c in s.chars() {
        input.insert(c);
    }
    input
}

#[test]
fn new_input_is_empty() {
    let input = ConsoleInput::new();
    assert_eq!(input.get_text(), Vec::<char>::new());
    assert_eq!(input.debug_string(), "_");
}

#[test]
fn insert_moves_cursor_right() {
    let input = typed("abc");
    assert_eq!(input.get_text(), chars("abc"));
    assert_eq!(input.debug_string(), "abc_");
}

#[test]
fn insert_in_the_middle() {
    let mut input = typed("ac");
    input.cursor_left();
    input.insert('b');
    assert_eq!(input.get_text(), chars("abc"));
    assert_eq!(input.debug_string(), "ab_c");
}

#[test]
fn cursor_stops_at_both_ends() {
    let mut input = typed("ab");
    input.cursor_right();
    assert_eq!(input.debug_string(), "ab_");
    input.cursor_left();
    input.cursor_left();
    input.cursor_left();
    assert_eq!(input.debug_string(), "_ab");
    input.cursor_right();
    assert_eq!(input.debug_string(), "a_b");
}

#[test]
fn delete_removes_char_after_cursor() {
    let mut input = typed("abc");
    input.cursor_left();
    input.cursor_left();
    input.delete();
    assert_eq!(input.get_text(), chars("ac"));
    assert_eq!(input.debug_string(), "a_c");
}

#[test]
fn delete_at_end_does_nothing() {
    let mut input = typed("abc");
    input.delete();
    assert_eq!(input.get_text(), chars("abc"));
    assert_eq!(input.debug_string(), "abc_");
}

#[test]
fn backspace_removes_char_before_cursor() {
    let mut input = typed("abc");
    input.cursor_left();
    input.backspace();
    assert_eq!(input.get_text(), chars("ac"));
    assert_eq!(input.debug_string(), "a_c");
}

#[test]
fn backspace_at_start_does_nothing() {
    let mut input = typed("abc");
    input.cursor_left();
    input.cursor_left();
    input.cursor_left();
    input.backspace();
    assert_eq!(input.get_text(), chars("abc"));
    assert_eq!(input.debug_string(), "_abc");
}

#[test]
fn backspace_undoes_insert_in_the_middle() {
    let mut input = typed("hello");
    input.cursor_left();
    input.cursor_left();
    let before = input.debug_string();
    input.insert('x');
    assert_eq!(input.debug_string(), "helx_lo");
    input.backspace();
    assert_eq!(input.debug_string(), before);
}

#[test]
fn set_text_puts_cursor_at_end() {
    let mut input = typed("old");
    input.cursor_left();
    input.set_text(&chars("new line"));
    assert_eq!(input.get_text(), chars("new line"));
    assert_eq!(input.debug_string(), "new line_");
}

#[test]
fn clear_empties_line() {
    let mut input = typed("something");
    input.cursor_left();
    input.clear();
    assert_eq!(input.get_text(), Vec::<char>::new());
    assert_eq!(input.debug_string(), "_");
}

#[test]
fn left_then_right_restores_cursor() {
    let mut input = typed("xyz");
    input.cursor_left();
    let before = input.debug_string();
    input.cursor_left();
    input.cursor_right();
    assert_eq!(input.debug_string(), before);
}

#[test]
fn non_ascii_characters() {
    let input = typed("é越");
    assert_eq!(input.debug_string(), "é越_");
}
