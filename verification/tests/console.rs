use richter::console::{Console, Key};

fn type_str(console: &mut Console, s: &str) {
    for c in s.chars() {
        console.send_char(c).unwrap();
    }
}

#[test]
fn typed_chars_are_echoed() {
    let mut console = Console::new();
    assert_eq!(console.send_char('a'), Ok(Some("a_".to_string())));
    assert_eq!(console.send_char('b'), Ok(Some("ab_".to_string())));
    assert_eq!(console.get_string(), "ab");
    assert_eq!(console.debug_string(), "ab_");
}

#[test]
fn backspace_and_delete_chars() {
    let mut console = Console::new();
    type_str(&mut console, "abcd");
    assert_eq!(console.send_key(Key::Left), Some("abc_d".to_string()));
    assert_eq!(console.send_key(Key::Left), Some("ab_cd".to_string()));
    assert_eq!(console.send_char('\x08'), Ok(Some("a_cd".to_string())));
    assert_eq!(console.send_char('\x7f'), Ok(Some("a_d".to_string())));
    assert_eq!(console.get_string(), "ad");
}

#[test]
fn tab_changes_nothing() {
    let mut console = Console::new();
    type_str(&mut console, "ma");
    assert_eq!(console.send_char('\t'), Ok(Some("ma_".to_string())));
    assert_eq!(console.get_string(), "ma");
}

#[test]
fn entering_blank_line_does_nothing() {
    let mut console = Console::new();
    assert_eq!(console.send_char('\r'), Ok(None));
    type_str(&mut console, "  \t");
    assert_eq!(console.send_char('\r'), Ok(None));
    assert_eq!(console.get_string(), "  ");
    assert_eq!(console.send_key(Key::Up), Some("  _".to_string()));
}

#[test]
fn entering_unicode_whitespace_line_does_nothing() {
    let mut console = Console::new();
    type_str(&mut console, "\u{3000}\u{a0}");
    assert_eq!(console.send_char('\r'), Ok(None));
    assert_eq!(console.get_string(), "\u{3000}\u{a0}");
}

#[test]
fn entered_line_is_cleared_and_recalled() {
    let mut console = Console::new();
    type_str(&mut console, "map e1m1");
    assert_eq!(console.send_char('\r'), Ok(Some("_".to_string())));
    assert_eq!(console.get_string(), "");
    assert_eq!(console.send_key(Key::Up), Some("map e1m1_".to_string()));
    assert_eq!(console.get_string(), "map e1m1");
    assert_eq!(console.send_key(Key::Down), Some("_".to_string()));
    assert_eq!(console.get_string(), "");
}

#[test]
fn history_walks_through_entered_lines() {
    let mut console = Console::new();
    type_str(&mut console, "one\r");
    type_str(&mut console, "two\r");
    assert_eq!(console.send_key(Key::Up), Some("two_".to_string()));
    assert_eq!(console.send_key(Key::Up), Some("one_".to_string()));
    // No older line: the editor keeps what it shows.
    assert_eq!(console.send_key(Key::Up), Some("one_".to_string()));
    assert_eq!(console.send_key(Key::Down), Some("two_".to_string()));
    assert_eq!(console.send_key(Key::Down), Some("_".to_string()));
}

#[test]
fn up_on_empty_history_keeps_line() {
    let mut console = Console::new();
    type_str(&mut console, "abc");
    assert_eq!(console.send_key(Key::Up), Some("abc_".to_string()));
    assert_eq!(console.send_key(Key::Down), Some("_".to_string()));
}

#[test]
fn other_keys_are_ignored() {
    let mut console = Console::new();
    type_str(&mut console, "xy");
    assert_eq!(console.send_key(Key::Other), None);
    assert_eq!(console.debug_string(), "xy_");
}

#[test]
fn submit_with_and_without_command() {
    let mut console = Console::new();
    type_str(&mut console, "   ");
    assert_eq!(console.submit(false), None);
    assert_eq!(console.get_string(), "   ");
    assert_eq!(console.submit(true), Some("_".to_string()));
    assert_eq!(console.send_key(Key::Up), Some("   _".to_string()));
}

#[test]
fn cursor_keys_move_within_line() {
    let mut console = Console::new();
    type_str(&mut console, "ab");
    assert_eq!(console.send_key(Key::Right), Some("ab_".to_string()));
    assert_eq!(console.send_key(Key::Left), Some("a_b".to_string()));
    assert_eq!(console.send_char('x'), Ok(Some("ax_b".to_string())));
}
