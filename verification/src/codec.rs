//! The mixed-radix arithmetic behind composed Hangul syllables.
//!
//! A syllable scalar is `0xAC00 + t + 28 * (v + 21 * c)` where `c` is the
//! leading-consonant ordinal (base 19), `v` the vowel ordinal (base 21) and
//! `t` the trailing-consonant code (base 28, code 0 meaning "absent").  The
//! spec functions here are the single model that every decoded view of a
//! syllable is proved against, and the lemmas state that encoding and
//! decoding are exact inverses over the whole block.

use vstd::prelude::*;
use vstd::arithmetic::div_mod::{
    lemma_div_denominator, lemma_fundamental_div_mod,
    lemma_fundamental_div_mod_converse_div, lemma_fundamental_div_mod_converse_mod,
    lemma_small_mod,
};

verus! {

/// Does `code` lie in the composed-syllable block U+AC00..U+D7A3?
pub open spec fn is_syllable_code(code: int) -> bool {
    0xAC00 <= code <= 0xD7A3
}

/// The syllable scalar packing leading-consonant ordinal `c`, vowel ordinal
/// `v` and trailing-consonant code `t` (0 when absent, else the ordinal).
pub open spec fn syllable_code_of(c: int, v: int, t: int) -> int {
    0xAC00 + t + 28 * (v + 21 * c)
}

/// Leading-consonant ordinal encoded in syllable scalar `code`.
pub open spec fn initial_ord_of(code: int) -> int {
    ((code - 0xAC00) / 588) % 19
}

/// Vowel ordinal encoded in syllable scalar `code`.
pub open spec fn vowel_ord_of(code: int) -> int {
    ((code - 0xAC00) / 28) % 21
}

/// Trailing-consonant code encoded in syllable scalar `code`:
/// 0 when the syllable has no trailing consonant, else the ordinal.
pub open spec fn final_ord_of(code: int) -> int {
    (code - 0xAC00) % 28
}

/// Every syllable scalar decodes to ordinals within the three radices:
/// the leading consonant to [0, 18], the vowel to [0, 20], and the
/// trailing-consonant code to [0, 27] with 0 meaning "absent".
pub proof fn lemma_ord_bounds(code: int)
    requires
        is_syllable_code(code),
    ensures
        0 <= initial_ord_of(code) < 19,
        0 <= vowel_ord_of(code) < 21,
        0 <= final_ord_of(code) < 28,
        initial_ord_of(code) == (code - 0xAC00) / 588,
        vowel_ord_of(code) == ((code - 0xAC00) / 28) % 21,
{
    let b = code - 0xAC00;
    lemma_fundamental_div_mod(b, 28);
    lemma_fundamental_div_mod(b / 28, 21);
    lemma_fundamental_div_mod(b, 588);
    assert(0 <= b % 28 < 28);
    assert(0 <= (b / 28) % 21 < 21);
    assert(b / 588 < 19) by {
        assert(b < 588 * 19);
        assert(0 <= b % 588 < 588);
    };
    assert(0 <= b / 588);
    lemma_small_mod((b / 588) as nat, 19);
}

/// Encoding any in-range phoneme triple lands inside the syllable block.
pub proof fn lemma_code_in_range(c: int, v: int, t: int)
    requires
        0 <= c < 19,
        0 <= v < 21,
        0 <= t < 28,
    ensures
        is_syllable_code(syllable_code_of(c, v, t)),
{
}

/// Decoding is a left inverse of encoding: the three ordinals read back
/// from an encoded triple are exactly the triple that was encoded.
pub proof fn lemma_encode_then_decode(c: int, v: int, t: int)
    requires
        0 <= c < 19,
        0 <= v < 21,
        0 <= t < 28,
    ensures
        initial_ord_of(syllable_code_of(c, v, t)) == c,
        vowel_ord_of(syllable_code_of(c, v, t)) == v,
        final_ord_of(syllable_code_of(c, v, t)) == t,
{
    let b = t + 28 * (v + 21 * c);
    assert(syllable_code_of(c, v, t) - 0xAC00 == b);
    lemma_fundamental_div_mod_converse_mod(b, 28, v + 21 * c, t);
    lemma_fundamental_div_mod_converse_div(b, 28, v + 21 * c, t);
    lemma_fundamental_div_mod_converse_mod(v + 21 * c, 21, c, v);
    assert(b == c * 588 + (t + 28 * v)) by (nonlinear_arith)
        requires b == t + 28 * (v + 21 * c);
    lemma_fundamental_div_mod_converse_div(b, 588, c, t + 28 * v);
    lemma_small_mod(c as nat, 19);
}

/// Encoding is a left inverse of decoding: re-encoding the three ordinals
/// read from any syllable scalar gives that scalar back.
pub proof fn lemma_decode_then_encode(code: int)
    requires
        is_syllable_code(code),
    ensures
        syllable_code_of(initial_ord_of(code), vowel_ord_of(code), final_ord_of(code)) == code,
{
    let b = code - 0xAC00;
    lemma_ord_bounds(code);
    lemma_fundamental_div_mod(b, 28);
    lemma_fundamental_div_mod(b / 28, 21);
    lemma_div_denominator(b, 28, 21);
    assert(b / 588 < 19) by {
        lemma_fundamental_div_mod(b, 588);
        assert(b < 588 * 19);
        assert(0 <= b % 588 < 588);
    };
    lemma_small_mod((b / 588) as nat, 19);
    assert(28 * ((b / 28) % 21 + 21 * ((b / 28) / 21)) == 28 * (b / 28)) by (nonlinear_arith)
        requires (b / 28) % 21 + 21 * ((b / 28) / 21) == b / 28;
}

/// The two decoding routes to the leading consonant agree: dividing by 588
/// at once, or by 28 and then by 21.
pub proof fn lemma_initial_by_steps(code: int)
    requires
        0xAC00 <= code,
    ensures
        ((code - 0xAC00) / 28) / 21 == (code - 0xAC00) / 588,
{
    lemma_div_denominator(code - 0xAC00, 28, 21);
}

} // verus!
