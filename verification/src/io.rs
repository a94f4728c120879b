//! Character emission for the `out` instruction: a cell value is
//! interpreted as a Unicode code point; a value that is no valid code
//! point (for 16-bit values, exactly the surrogates) is replaced by the
//! placeholder `?`.

use vstd::prelude::*;

verus! {

/// Relies on char::from_u32: it returns the character whose code point is
/// the argument, and None exactly when the argument is a surrogate value
/// or exceeds the last code point.
pub assume_specification[ char::from_u32 ](i: u32) -> (r: Option<char>)
    ensures
        r is Some <==> (i < 0xd800 || (0xe000 <= i && i <= 0x10ffff)),
        r is Some ==> r->0 as u32 == i,
;

/// Character emitted for the cell value `w`: the character with code
/// point `w`, or the placeholder `?` when `w` is a surrogate value and so
/// no valid code point.
pub fn out_char(w: u16) -> (c: char)
    ensures
        (w < 0xd800 || w >= 0xe000) ==> c as u32 == w,
        (0xd800 <= w < 0xe000) ==> c == '?',
{
    match char::from_u32(w as u32) {
        Some(c) => c,
        None => '?',
    }
}

} // verus!
