//! Character-level helpers: case conversion of identifiers and the tests
//! that the token consumer applies to a single token.

use vstd::prelude::*;

verus! {

/// Whether `c` has the Unicode property `Uppercase`, as `char::is_uppercase`
/// reports it.
pub uninterp spec fn char_is_uppercase(c: char) -> bool;

/// `char::is_uppercase`: the answer depends on the character alone; it is
/// named, not defined, since the property is a table of the Unicode standard.
pub assume_specification[ char::is_uppercase ](c: char) -> (r: bool)
    ensures
        r == char_is_uppercase(c),
;

/// `String::push` appends the character to the end of the string.
pub assume_specification[ String::push ](s: &mut String, ch: char)
    ensures
        final(s)@ == old(s)@.push(ch),
;

/// The ASCII lower-case form of `c`: `'A'..='Z'` map to `'a'..='z'`, every
/// other character to itself.
pub open spec fn ascii_lower(c: char) -> char {
    if 'A' <= c <= 'Z' {
        ((c as u8) + 32) as char
    } else {
        c
    }
}

/// The hyphenated lower-case form of an identifier: every upper-case
/// character is lowered (within ASCII) and, unless it is the first
/// character, preceded by a hyphen; all other characters stay.
pub open spec fn snake(ident: Seq<char>) -> Seq<char>
    decreases ident.len(),
{
    if ident.len() == 0 {
        Seq::empty()
    } else {
        let head = snake(ident.drop_last());
        let c = ident.last();
        if char_is_uppercase(c) {
            if ident.len() > 1 {
                head.push('-').push(ascii_lower(c))
            } else {
                head.push(ascii_lower(c))
            }
        } else {
            head.push(c)
        }
    }
}

/// `text` with every underscore replaced by a hyphen.
pub open spec fn hyphenated(text: Seq<char>) -> Seq<char> {
    Seq::new(text.len(), |i: int| if text[i] == '_' { '-' } else { text[i] })
}

/// Whether a token starts with a dash, which makes the consumer treat it as
/// an option key and never as a positional value.
pub open spec fn dashed(token: Seq<char>) -> bool {
    token.len() > 0 && token[0] == '-'
}

/// Whether a token asks for help.
pub open spec fn is_help(token: Seq<char>) -> bool {
    token == "--help"@ || token == "-h"@
}

/// Lowers one character within ASCII.
pub fn to_ascii_lower(c: char) -> (r: char)
    ensures
        r == ascii_lower(c),
{
    if 'A' <= c && c <= 'Z' {
        ((c as u8) + 32) as char
    } else {
        c
    }
}

/// Converts an identifier to the hyphenated lower-case token under which it
/// is shown in help texts and matched on the command line.
pub fn to_snake(ident: &str) -> (val: String)
    ensures
        val@ == snake(ident@),
{
    let mut val = String::new();
    let mut first = true;
    for ch in it: ident.chars()
        invariant
            it.seq() == ident@,
            first == (it.index() == 0),
            val@ == snake(ident@.take(it.index() as int)),
    {
        assert(ident@.take(it.index() + 1).drop_last() =~= ident@.take(it.index() as int));
        if ch.is_uppercase() {
            if !first {
                val.push('-');
            }
            val.push(to_ascii_lower(ch));
        } else {
            val.push(ch);
        }
        first = false;
    }
    assert(ident@.take(ident@.len() as int) =~= ident@);
    val
}

/// Replaces every underscore of `text` by a hyphen.
pub fn hyphenate(text: &str) -> (val: String)
    ensures
        val@ == hyphenated(text@),
{
    let mut val = String::new();
    for ch in it: text.chars()
        invariant
            it.seq() == text@,
            val@.len() == it.index(),
            forall|i: int| 0 <= i < it.index() ==> val@[i] == hyphenated(text@)[i],
    {
        if ch == '_' {
            val.push('-');
        } else {
            val.push(ch);
        }
    }
    val
}

/// The three texts in a row.
pub fn wrapped(lead: &str, text: &str, tail: &str) -> (r: String)
    ensures
        r@ == lead@ + text@ + tail@,
{
    let mut r = String::from_str(lead);
    r.append(text);
    r.append(tail);
    r
}

/// Tests whether a text is the given one.
pub fn text_is(text: &String, other: &str) -> (r: bool)
    ensures
        r == (text@ == other@),
{
    *text == String::from_str(other)
}

/// Tests whether a token starts with a dash.
pub fn starts_with_dash(token: &str) -> (r: bool)
    ensures
        r == dashed(token@),
{
    !token.is_empty() && token.get_char(0) == '-'
}

/// Tests whether a token is `--help` or `-h`.
pub fn asks_help(token: &String) -> (r: bool)
    ensures
        r == is_help(token@),
{
    let long = String::from_str("--help");
    let short = String::from_str("-h");
    *token == long || *token == short
}

} // verus!
