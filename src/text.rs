use vstd::prelude::*;

verus! {

/// Whether a character carries the Unicode `White_Space` property: the
/// ASCII tab, line feed, vertical tab, form feed, carriage return and space,
/// NEXT LINE, NO-BREAK SPACE, OGHAM SPACE MARK, the spaces U+2000 to U+200A,
/// the line and paragraph separators, NARROW NO-BREAK SPACE, MEDIUM
/// MATHEMATICAL SPACE and IDEOGRAPHIC SPACE.
pub open spec fn whitespace(c: char) -> bool {
    let u = c as u32;
    ||| 0x09 <= u <= 0x0D
    ||| u == 0x20
    ||| u == 0x85
    ||| u == 0xA0
    ||| u == 0x1680
    ||| 0x2000 <= u <= 0x200A
    ||| u == 0x2028
    ||| u == 0x2029
    ||| u == 0x202F
    ||| u == 0x205F
    ||| u == 0x3000
}

/// Relies on `char::is_whitespace`: true exactly for characters with the
/// Unicode `White_Space` property, which is the fixed set of code points
/// that `whitespace` lists.
#[verifier::external_body]
pub(crate) fn is_whitespace(c: char) -> (r: bool)
    ensures
        r == whitespace(c),
{
    c.is_whitespace()
}

} // verus!
