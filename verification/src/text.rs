//! Character classes that the pipeline decides by.

use vstd::prelude::*;

verus! {

/// The character with an ASCII capital letter replaced by its small letter.
pub open spec fn lower(c: char) -> char {
    if 'A' <= c && c <= 'Z' {
        ((c as u8) + 32) as char
    } else {
        c
    }
}

/// Computes [`lower`].
pub fn to_lower(c: char) -> (r: char)
    ensures
        r == lower(c),
{
    if 'A' <= c && c <= 'Z' {
        let b: u8 = c as u8;
        (b + 32) as char
    } else {
        c
    }
}

/// Whether a character is white space, as Unicode defines it.
pub open spec fn is_space(c: char) -> bool {
    ||| '\u{9}' <= c && c <= '\u{D}'
    ||| c == ' '
    ||| c == '\u{85}'
    ||| c == '\u{A0}'
    ||| c == '\u{1680}'
    ||| '\u{2000}' <= c && c <= '\u{200A}'
    ||| c == '\u{2028}'
    ||| c == '\u{2029}'
    ||| c == '\u{202F}'
    ||| c == '\u{205F}'
    ||| c == '\u{3000}'
}

/// Decides [`is_space`].
pub fn is_white_space(c: char) -> (r: bool)
    ensures
        r == is_space(c),
{
    ('\u{9}' <= c && c <= '\u{D}') || c == ' ' || c == '\u{85}' || c == '\u{A0}' || c
        == '\u{1680}' || ('\u{2000}' <= c && c <= '\u{200A}') || c == '\u{2028}' || c
        == '\u{2029}' || c == '\u{202F}' || c == '\u{205F}' || c == '\u{3000}'
}

/// Whether a text holds nothing but white space. The empty text does.
pub open spec fn is_blank(text: Seq<char>) -> bool {
    forall|i: int| 0 <= i < text.len() ==> is_space(#[trigger] text[i])
}

/// Decides [`is_blank`].
pub fn is_blank_text(text: &str) -> (r: bool)
    ensures
        r == is_blank(text@),
{
    for ch in it: text.chars()
        invariant
            it.seq() == text@,
            is_blank(text@.take(it.index())),
    {
        if !is_white_space(ch) {
            assert(!is_space(text@[it.index()]));
            return false;
        }
        assert forall|i: int| 0 <= i < text@.take(it.index() + 1).len() implies is_space(
            #[trigger] text@.take(it.index() + 1)[i],
        ) by {
            if i < it.index() {
                assert(text@.take(it.index())[i] == text@[i]);
            }
        }
    }
    assert(text@.take(text@.len() as int) == text@);
    true
}

/// Whether two strings hold the same text.
pub fn same_text(a: &str, b: &str) -> (r: bool)
    ensures
        r == (a@ == b@),
{
    let left = String::from_str(a);
    let right = String::from_str(b);
    left == right
}

} // verus!
