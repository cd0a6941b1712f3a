//! Code-level access to Hangul characters: each phoneme as a small integer
//! offset into its conjoining-jamo block.

use vstd::prelude::*;
use crate::classify::{Class, Modernity};
use crate::codec::{
    is_syllable_code, initial_ord_of, vowel_ord_of, final_ord_of, lemma_ord_bounds,
    lemma_initial_by_steps,
};
use crate::scalar::char_from_u32;

verus! {

/// Access to a Hangul character through the small integer codes of its
/// phonemes: each code counts from the start of the phoneme's jamo block.
pub trait Hangeul: Sized {
    /// On which characters `from_char` is defined.
    spec fn from_char_req(c: char) -> bool;

    /// Exactly what `from_char` returns for the character `c`.
    spec fn from_char_post(c: char, r: Self) -> bool;

    /// The class this value reports.
    spec fn spec_class(&self) -> Class;

    /// Whether this value reports itself modern.
    spec fn spec_is_modern(&self) -> bool;

    /// The initial-consonant code this value carries, if any.
    spec fn spec_initial_code(&self) -> Option<u8>;

    /// The vowel code this value carries, if any.
    spec fn spec_vowel_code(&self) -> Option<u8>;

    /// The final-consonant code this value carries, if any.
    spec fn spec_final_code(&self) -> Option<u8>;

    /// Decode the character `c`.
    fn from_char(c: char) -> (r: Self)
        requires
            Self::from_char_req(c),
        ensures
            Self::from_char_post(c, r),
    ;

    /// The class of this value.
    fn class(&self) -> (r: Class)
        ensures
            r == self.spec_class(),
    ;

    /// Whether this value is modern.
    fn is_modern(&self) -> (r: bool)
        ensures
            r == self.spec_is_modern(),
    ;

    /// The initial-consonant code, where one is present.
    fn initial_code(&self) -> (r: Option<u8>)
        ensures
            r == self.spec_initial_code(),
    ;

    /// The vowel code, where one is present.
    fn vowel_code(&self) -> (r: Option<u8>)
        ensures
            r == self.spec_vowel_code(),
    ;

    /// The final-consonant code, where one is present.
    fn final_code(&self) -> (r: Option<u8>)
        ensures
            r == self.spec_final_code(),
    ;

    /// The jamo character at offset `code` from the block base `offset`.
    fn _jamo(&self, code: Option<u8>, offset: char) -> (r: Option<char>)
        requires
            (offset as u32) < 0xD700,
        ensures
            (match code {
                Some(x) => r matches Some(c) && c as u32 == offset as u32 + x,
                None => r is None,
            }),
    {
        match code {
            Some(value) => char_from_u32(offset as u32 + value as u32),
            None => None,
        }
    }

    /// The initial consonant's jamo character, where a code is present.
    fn initial_jamo(&self) -> (r: Option<char>)
        ensures
            (match self.spec_initial_code() {
                Some(x) => r matches Some(c) && c as u32 == 0x1100 + x,
                None => r is None,
            }),
    {
        let code = self.initial_code();
        let offset = crate::jamo_initial_start;
        self._jamo(code, offset)
    }

    /// The vowel's jamo character, where a code is present.
    fn vowel_jamo(&self) -> (r: Option<char>)
        ensures
            (match self.spec_vowel_code() {
                Some(x) => r matches Some(c) && c as u32 == 0x1161 + x,
                None => r is None,
            }),
    {
        let code = self.vowel_code();
        let offset = crate::jamo_peak_start;
        self._jamo(code, offset)
    }

    /// The final consonant's jamo character, where a code is present.
    fn final_jamo(&self) -> (r: Option<char>)
        ensures
            (match self.spec_final_code() {
                Some(x) => r matches Some(c) && c as u32 == 0x11A8 + x,
                None => r is None,
            }),
    {
        let code = self.final_code();
        let offset = crate::jamo_final_start;
        self._jamo(code, offset)
    }
}

/// A composed syllable held with its phoneme codes precomputed.
///
/// The final-consonant code counts through the virtual 28-value range, code
/// 0 meaning "no final consonant"; `final_code` hands out the offset into
/// the real block instead.
pub struct HangeulSyllable {
    data: char,
    initial: u8,
    vowel: u8,
    final_part: u8,
}

impl HangeulSyllable {
    /// The character this syllable was decoded from.
    pub closed spec fn spec_data(self) -> char {
        self.data
    }
}

impl Hangeul for HangeulSyllable {
    open spec fn from_char_req(c: char) -> bool {
        is_syllable_code(c as int)
    }

    open spec fn from_char_post(c: char, r: HangeulSyllable) -> bool {
        &&& r.spec_data() == c
        &&& r.spec_initial_code() == Some(initial_ord_of(c as int) as u8)
        &&& r.spec_vowel_code() == Some(vowel_ord_of(c as int) as u8)
        &&& r.spec_final_code() == (if final_ord_of(c as int) == 0 {
            Option::<u8>::None
        } else {
            Some((final_ord_of(c as int) - 1) as u8)
        })
    }

    open spec fn spec_class(&self) -> Class {
        Class::Syllable
    }

    open spec fn spec_is_modern(&self) -> bool {
        true
    }

    closed spec fn spec_initial_code(&self) -> Option<u8> {
        Some(self.initial)
    }

    closed spec fn spec_vowel_code(&self) -> Option<u8> {
        Some(self.vowel)
    }

    closed spec fn spec_final_code(&self) -> Option<u8> {
        if self.final_part > 0 {
            Some((self.final_part - 1) as u8)
        } else {
            None
        }
    }

    fn from_char(c: char) -> (r: HangeulSyllable) {
        let code = c as u32;
        let base = code - 0xAC00;
        let final_part = (base % 28) as u8;
        let rest = base / 28;
        let vowel = (rest % 21) as u8;
        let initial = ((rest / 21) % 19) as u8;
        proof {
            lemma_initial_by_steps(code as int);
            lemma_ord_bounds(code as int);
        }
        HangeulSyllable { data: c, initial, vowel, final_part }
    }

    fn class(&self) -> (r: Class) {
        Class::Syllable
    }

    fn is_modern(&self) -> (r: bool) {
        true
    }

    fn initial_code(&self) -> (r: Option<u8>) {
        Some(self.initial)
    }

    fn vowel_code(&self) -> (r: Option<u8>) {
        Some(self.vowel)
    }

    fn final_code(&self) -> (r: Option<u8>) {
        if self.final_part > 0 {
            Some(self.final_part - 1)
        } else {
            None
        }
    }
}

/// A single initial-consonant jamo, held with its offset from the block
/// start; offsets past the modern range report themselves ancient.
#[allow(dead_code)]
struct HangeulJamoInitial {
    data: char,
    initial: u8,
    is_modern: bool,
}

impl Hangeul for HangeulJamoInitial {
    open spec fn from_char_req(c: char) -> bool {
        0x1100 <= c as int <= 0x11FF
    }

    open spec fn from_char_post(c: char, r: HangeulJamoInitial) -> bool {
        &&& r.spec_initial_code() == Some((c as int - 0x1100) as u8)
        &&& r.spec_is_modern() == (c as int - 0x1100 <= 19)
    }

    open spec fn spec_class(&self) -> Class {
        if self.spec_is_modern() {
            Class::Jamo(Modernity::Modern)
        } else {
            Class::Jamo(Modernity::Ancient)
        }
    }

    closed spec fn spec_is_modern(&self) -> bool {
        self.is_modern
    }

    closed spec fn spec_initial_code(&self) -> Option<u8> {
        Some(self.initial)
    }

    open spec fn spec_vowel_code(&self) -> Option<u8> {
        None
    }

    open spec fn spec_final_code(&self) -> Option<u8> {
        None
    }

    fn from_char(c: char) -> (r: HangeulJamoInitial) {
        let code = c as u32;
        let offset = code - 0x1100;
        let is_modern = offset <= 19;
        HangeulJamoInitial { data: c, initial: offset as u8, is_modern }
    }

    fn class(&self) -> (r: Class) {
        if self.is_modern {
            Class::Jamo(Modernity::Modern)
        } else {
            Class::Jamo(Modernity::Ancient)
        }
    }

    fn is_modern(&self) -> (r: bool) {
        self.is_modern
    }

    fn initial_code(&self) -> (r: Option<u8>) {
        Some(self.initial)
    }

    fn vowel_code(&self) -> (r: Option<u8>) {
        None
    }

    fn final_code(&self) -> (r: Option<u8>) {
        None
    }
}

} // verus!
