//! Building strings out of characters.

use vstd::prelude::*;

verus! {

/// Appends `c` to `s`.
///
/// Trusted: calls `String::push`, which appends the given `char` to the end
/// of the `String`.
#[verifier::external_body]
fn push_char(s: &mut String, c: char)
    ensures
        final(s)@ == old(s)@.push(c),
{
    s.push(c);
}

/// Appends the characters `chars[from..to]` to `s`, in order.
pub fn push_chars(s: &mut String, chars: &Vec<char>, from: usize, to: usize)
    requires
        from <= to <= chars@.len(),
    ensures
        final(s)@ == old(s)@ + chars@.subrange(from as int, to as int),
{
    let mut i: usize = from;
    while i < to
        invariant
            from <= i <= to <= chars@.len(),
            s@ == old(s)@ + chars@.subrange(from as int, i as int),
        decreases to - i,
    {
        push_char(s, chars[i]);
        assert(chars@.subrange(from as int, i + 1) =~= chars@.subrange(from as int, i as int).push(chars@[i as int]));
        i = i + 1;
    }
}

/// The string made of the characters of `chars`, in order.
pub fn string_of(chars: &Vec<char>) -> (s: String)
    ensures
        s@ == chars@,
{
    let mut s = String::new();
    push_chars(&mut s, chars, 0, chars.len());
    assert(chars@.subrange(0, chars@.len() as int) =~= chars@);
    s
}

/// The string `left`, then an underscore standing for the cursor, then `right`:
/// `left + "_" + right`.
pub open spec fn cursor_line(left: Seq<char>, right: Seq<char>) -> Seq<char> {
    left.push('_') + right
}

/// Renders `chars` with an underscore at position `at`: the characters before
/// it, `_`, then the characters from `at` on.
pub fn string_with_cursor(chars: &Vec<char>, at: usize) -> (s: String)
    requires
        at <= chars@.len(),
    ensures
        s@ == cursor_line(chars@.take(at as int), chars@.skip(at as int)),
{
    let mut s = String::new();
    push_chars(&mut s, chars, 0, at);
    push_char(&mut s, '_');
    push_chars(&mut s, chars, at, chars.len());
    assert(chars@.subrange(0, at as int) =~= chars@.take(at as int));
    assert(chars@.subrange(at as int, chars@.len() as int) =~= chars@.skip(at as int));
    s
}

/// Whether `c` has the Unicode `White_Space` property: the ASCII tab, line
/// feed, vertical tab, form feed, carriage return and space, next line
/// (U+0085), no-break space (U+00A0), ogham space mark (U+1680), the spaces
/// U+2000 to U+200A, the line and paragraph separators (U+2028, U+2029), the
/// narrow no-break space (U+202F), the medium mathematical space (U+205F) and
/// the ideographic space (U+3000).
pub open spec fn is_white_space(c: char) -> bool {
    let u = c as u32;
    ||| 0x09 <= u <= 0x0d
    ||| u == 0x20
    ||| u == 0x85
    ||| u == 0xa0
    ||| u == 0x1680
    ||| 0x2000 <= u <= 0x200a
    ||| u == 0x2028
    ||| u == 0x2029
    ||| u == 0x202f
    ||| u == 0x205f
    ||| u == 0x3000
}

/// Whether `c` is whitespace.
///
/// Trusted: calls `char::is_whitespace`, which returns whether `c` has the
/// Unicode `White_Space` property; the contract spells that property out as
/// the code points that the Unicode Character Database lists for it.
#[verifier::external_body]
fn char_is_whitespace(c: char) -> (r: bool)
    ensures
        r == is_white_space(c),
{
    c.is_whitespace()
}

/// Some character of `chars` is not whitespace: splitting `chars` at
/// whitespace gives at least one word.
pub open spec fn has_word(chars: Seq<char>) -> bool {
    exists|i: int| 0 <= i < chars.len() && !is_white_space(#[trigger] chars[i])
}

/// Whether some character of `chars` is not whitespace.
pub fn contains_word(chars: &Vec<char>) -> (r: bool)
    ensures
        r == has_word(chars@),
{
    let mut i: usize = 0;
    while i < chars.len()
        invariant
            i <= chars@.len(),
            forall|j: int| 0 <= j < i ==> is_white_space(#[trigger] chars@[j]),
        decreases chars@.len() - i,
    {
        if !char_is_whitespace(chars[i]) {
            return true;
        }
        i = i + 1;
    }
    false
}

} // verus!
