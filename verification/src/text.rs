//! Small text utilities with exact contracts.

use vstd::prelude::*;
use vstd::string::*;
use vstd::utf8::*;

verus! {

/// Unicode's `White_Space` property.
pub open spec fn is_white_space(c: char) -> bool {
    ||| '\u{9}' <= c <= '\u{d}'
    ||| c == ' '
    ||| c == '\u{85}'
    ||| c == '\u{a0}'
    ||| c == '\u{1680}'
    ||| '\u{2000}' <= c <= '\u{200a}'
    ||| c == '\u{2028}'
    ||| c == '\u{2029}'
    ||| c == '\u{202f}'
    ||| c == '\u{205f}'
    ||| c == '\u{3000}'
}

/// `char::is_whitespace` tells whether a character has Unicode's `White_Space`
/// property; the contract spells out the characters that have it.
pub assume_specification[ char::is_whitespace ](c: char) -> (res: bool)
    ensures
        res == is_white_space(c),
;

/// `String::push` appends one character.
pub assume_specification[ String::push ](s: &mut String, c: char)
    ensures
        final(s)@ == old(s)@.push(c),
;

/// `String::from_utf8` succeeds exactly on valid UTF-8 and yields the text that
/// the bytes encode.
#[verifier::external_body]
pub(crate) fn text_from_utf8(bytes: Vec<u8>) -> (res: Option<String>)
    ensures
        res is Some <==> valid_utf8(bytes@),
        res matches Some(text) ==> text@ == decode_utf8(bytes@),
{
    String::from_utf8(bytes).ok()
}

/// No character is encoded with more than four bytes.
pub proof fn lemma_encoding_room(text: Seq<char>)
    ensures
        encode_utf8(text).len() <= 4 * text.len(),
    decreases text.len(),
{
    if text.len() > 0 {
        lemma_encoding_room(text.drop_first());
    }
}

/// A text without any character other than white space.
pub open spec fn blank(text: Seq<char>) -> bool {
    forall|i: int| 0 <= i < text.len() ==> is_white_space(#[trigger] text[i])
}

/// Whether nothing is left of `text` once its white space is trimmed.
pub fn is_blank(text: &str) -> (res: bool)
    ensures
        res == blank(text@),
{
    for c in it: text.chars()
        invariant
            it.seq() == text@,
            forall|i: int| 0 <= i < it.index() ==> is_white_space(#[trigger] text@[i]),
    {
        if !c.is_whitespace() {
            assert(!is_white_space(text@[it.index() as int]));
            return false;
        }
    }
    true
}

/// A text whose last character is a line feed.
pub open spec fn newline_terminated(text: Seq<char>) -> bool {
    text.len() > 0 && text.last() == '\n'
}

/// Whether `text` ends with a line feed.
pub fn ends_with_newline(text: &str) -> (res: bool)
    ensures
        res == newline_terminated(text@),
{
    let mut last_is_newline = false;
    for c in it: text.chars()
        invariant
            it.seq() == text@,
            last_is_newline == newline_terminated(text@.take(it.index() as int)),
    {
        last_is_newline = c == '\n';
    }
    assert(text@.take(text@.len() as int) == text@);
    last_is_newline
}

/// Whether two texts are the same.
pub fn same_text(a: &str, b: &str) -> (res: bool)
    ensures
        res == (a@ == b@),
{
    a.to_owned() == b.to_owned()
}

/// `first` followed by `second`.
pub fn joined(first: &str, second: &str) -> (res: String)
    ensures
        res@ == first@ + second@,
{
    let mut text = first.to_owned();
    text.append(second);
    text
}

/// Law: white space, by code point.
pub proof fn law_white_space(c: char)
    ensures
        ({
            let v = c as int;
            is_white_space(c) <==> 9 <= v <= 13 || v == 32 || v == 133 || v == 160 || v == 5760 || 8192
                <= v <= 8202 || v == 8232 || v == 8233 || v == 8239 || v == 8287 || v == 12288
        }),
{
}

/// Law: a text is found blank exactly where none of its characters is anything but
/// white space.
pub proof fn law_is_blank(text: &str, res: bool)
    requires
        call_ensures(is_blank, (text,), res),
    ensures
        !res <==> exists|i: int|
            0 <= i < text@.len() && !is_white_space(#[trigger] text@[i]),
{
}

/// Law: a text is found to end with a line feed exactly where it has a last character
/// and that is one.
pub proof fn law_ends_with_newline(text: &str, res: bool)
    requires
        call_ensures(ends_with_newline, (text,), res),
    ensures
        res <==> text@.len() > 0 && text@[text@.len() - 1] == '\n',
{
}

/// Law: two texts are found the same exactly where they have the same characters.
pub proof fn law_same_text(a: &str, b: &str, res: bool)
    requires
        call_ensures(same_text, (a, b), res),
    ensures
        res <==> a@.len() == b@.len() && forall|i: int|
            0 <= i < a@.len() ==> #[trigger] a@[i] == b@[i],
{
    if a@.len() == b@.len() && (forall|i: int| 0 <= i < a@.len() ==> #[trigger] a@[i] == b@[i]) {
        assert(a@ =~= b@);
    }
}

/// Law: two texts joined are all characters of the first, then all of the second.
pub proof fn law_joined(first: &str, second: &str, res: String)
    requires
        call_ensures(joined, (first, second), res),
    ensures
        res@.len() == first@.len() + second@.len(),
        res@.take(first@.len() as int) == first@,
        res@.skip(first@.len() as int) == second@,
{
}

} // verus!
