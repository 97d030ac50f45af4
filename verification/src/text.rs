//! Conversions between strings and their characters.

use vstd::prelude::*;

verus! {

/// Assumed of the standard library's `String::push`, not proved here: it
/// appends `c` to the end of the string and leaves what was there unchanged.
pub assume_specification[ String::push ](text: &mut String, c: char)
    ensures
        final(text)@ == old(text)@.push(c),
;

/// The `Debug` form of a string: the text in double quotes, with the
/// characters that cannot stand there written as escapes.
pub uninterp spec fn debug_form(text: Seq<char>) -> Seq<char>;

/// Formats `text` with `{:?}`, that is by the standard library's `Debug` for
/// `str`. Assumed, not proved here: the result depends on the characters of
/// `text` alone, so that it is [`debug_form`] of them. Nothing else is known
/// of it.
#[verifier::external_body]
pub(crate) fn debug_text(text: &str) -> (quoted: String)
    ensures
        quoted@ == debug_form(text@),
{
    format!("{:?}", text)
}

/// The characters of `text`, in order.
pub fn characters(text: &str) -> (chars: Vec<char>)
    ensures
        chars@ == text@,
{
    let mut chars: Vec<char> = Vec::new();
    for c in it: text.chars()
        invariant
            it.seq() == text@,
            chars@ == text@.take(it.index() as int),
    {
        chars.push(c);
    }
    chars
}

} // verus!
