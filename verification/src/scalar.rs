//! Trusted bridge to std for Unicode scalar values.

use vstd::prelude::*;

verus! {

/// Is `v` a Unicode scalar value, that is, a value a `char` can hold:
/// anything below the surrogate range, or between it and U+10FFFF?
pub open spec fn is_unicode_scalar(v: int) -> bool {
    (0 <= v < 0xD800) || (0xE000 <= v <= 0x10FFFF)
}

/// Relies on char::from_u32: it returns Some exactly when `v` is a Unicode
/// scalar value (not a surrogate and at most U+10FFFF), and the resulting
/// char has scalar value `v`.
#[verifier::external_body]
pub fn char_from_u32(v: u32) -> (r: Option<char>)
    ensures
        r is Some <==> is_unicode_scalar(v as int),
        r matches Some(c) ==> c as u32 == v,
{
    core::char::from_u32(v)
}

/// Two characters with one scalar value are one character.
pub proof fn lemma_char_cast_injective(a: char, b: char)
    requires
        a as u32 == b as u32,
    ensures
        a == b,
{
}

/// Relies on String::push: it appends the given char to the end of the
/// string.
#[verifier::external_body]
pub fn push_char(buf: &mut String, c: char)
    ensures
        final(buf)@ == old(buf)@.push(c),
{
    buf.push(c)
}

} // verus!
