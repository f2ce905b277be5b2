//! Trusted bridge to the standard library's Unicode character classes and to
//! `String::push`, none of which vstd specifies.

use vstd::prelude::*;

verus! {

/// Whether `char::is_alphanumeric` holds of `c`. The Unicode character classes
/// behind it depend on the character alone, so the result only gets a name.
pub uninterp spec fn is_alphanum(c: char) -> bool;

/// Whether `char::is_whitespace` holds of `c`. As with `is_alphanum`, the
/// result depends on the character alone and only gets a name.
pub uninterp spec fn is_white(c: char) -> bool;

/// Relies on `char::is_alphanumeric`: a pure classification of one character.
pub assume_specification[ char::is_alphanumeric ](c: char) -> (r: bool)
    ensures
        r == is_alphanum(c),
;

/// Relies on `char::is_whitespace`: a pure classification of one character.
pub assume_specification[ char::is_whitespace ](c: char) -> (r: bool)
    ensures
        r == is_white(c),
;

/// Relies on `String::push`: appends exactly the one character to the string.
#[verifier::external_body]
pub fn push_char(s: &mut String, c: char)
    ensures
        final(s)@ == old(s)@.push(c),
{
    s.push(c)
}

} // verus!
