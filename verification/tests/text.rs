use richter::text::{contains_word, push_chars, string_of, string_with_cursor};

#[test]
fn string_of_chars() {
    assert_eq!(string_of(&"quake".chars().collect()), "quake");
    assert_eq!(string_of(&Vec::new()), "");
}

#[test]
fn string_with_cursor_marks_position() {
    let v: Vec<char> = "abc".chars().collect();
    assert_eq!(string_with_cursor(&v, 0), "_abc");
    assert_eq!(string_with_cursor(&v, 2), "ab_c");
    assert_eq!(string_with_cursor(&v, 3), "abc_");
}

#[test]
fn push_chars_appends_range() {
    let v: Vec<char> = "console".chars().collect();
    let mut s = String::from(">");
    push_chars(&mut s, &v, 2, 5);
    assert_eq!(s, ">nso");
}

#[test]
fn contains_word_detects_non_whitespace() {
    assert!(!contains_word(&Vec::new()));
    assert!(!contains_word(&" \t\n\r\u{0b}\u{0c}".chars().collect()));
    assert!(!contains_word(&"\u{85}\u{a0}\u{1680}\u{2000}\u{200a}\u{2028}\u{2029}\u{202f}\u{205f}\u{3000}".chars().collect()));
    assert!(contains_word(&"  x ".chars().collect()));
    assert!(contains_word(&"_".chars().collect()));
    assert!(contains_word(&"\u{200b}".chars().collect()));
}

#[test]
fn contains_word_agrees_with_white_space_list_on_every_char() {
    let white: [u32; 25] = [
        0x09, 0x0a, 0x0b, 0x0c, 0x0d, 0x20, 0x85, 0xa0, 0x1680, 0x2000, 0x2001, 0x2002, 0x2003,
        0x2004, 0x2005, 0x2006, 0x2007, 0x2008, 0x2009, 0x200a, 0x2028, 0x2029, 0x202f, 0x205f,
        0x3000,
    ];
    let mut one: Vec<char> = vec![' '];
    for u in 0u32..=0x10ffff {
        if let Some(c) = char::from_u32(u) {
            one[0] = c;
            assert_eq!(contains_word(&one), !white.contains(&u), "code point {:x}", u);
        }
    }
}
