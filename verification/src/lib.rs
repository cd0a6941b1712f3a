//! Tools to manipulate Hangul data in Unicode.
//!
//! A composed Hangul syllable (U+AC00..U+D7A3) packs three phonemes into one
//! scalar by mixed-radix arithmetic: a leading consonant, a vowel, and an
//! optional trailing consonant.  This crate decodes a syllable scalar into its
//! phonemes, re-encodes a phoneme triple into the scalar, and offers three
//! views of that arithmetic: an eager decoded form, a lazy per-query form, and
//! an incremental builder with a canonical decomposed (NFD-style) rendering.
#![allow(non_upper_case_globals)]
#![allow(non_snake_case)]

use vstd::prelude::*;

pub mod alphabet;
pub mod classify;
pub mod codec;
pub mod codes;
pub mod decompose;
pub mod jamo;
pub mod scalar;
pub mod syllable;

pub use alphabet::{Alphabet, Conversion, Final, Initial, Jamo, Vowel};
pub use classify::{Class, DataClass, Modernity};
pub use codes::{Hangeul, HangeulSyllable};
pub use decompose::{ConcreteSyllable, LazySyllable, Syllable, SyllableBuilder};
pub use jamo::{
    Character, Choseong, Codeblock, Jongseong, Jungseong, CHOSEONG_FILLER, JONGSEONG_COUNT_WITH_EMPTY,
    JUNGSEONG_FILLER,
};
pub use syllable::ModernSyllable;

verus! {

/// Unicode start point of the composed-syllable range
pub const syllable_start: char = '\u{ac00}';
/// Unicode end point of the composed-syllable range
pub const syllable_end: char = '\u{d7a3}';
/// Size of the composed-syllable range (19 * 21 * 28)
pub const syllable_count: usize = 11172;

/// Unicode start point of the leading-consonant jamo range
pub const jamo_initial_start: char = '\u{1100}';
/// Unicode end point of the modern leading-consonant jamo range
pub const jamo_initial_end: char = '\u{1112}';
/// Unicode start point of the ancient leading-consonant jamo range
pub const jamo_initial_ancient_start: char = '\u{1113}';
/// Unicode end point of the ancient leading-consonant jamo range
pub const jamo_initial_ancient_end: char = '\u{115e}';

/// Unicode filler character standing for a missing leading consonant
pub const jamo_initial_filler: char = '\u{115f}';
/// Unicode filler character standing for a missing vowel
pub const jamo_peak_filler: char = '\u{1160}';

/// Unicode start point of the vowel jamo range
pub const jamo_peak_start: char = '\u{1161}';
/// Unicode end point of the modern vowel jamo range
pub const jamo_peak_end: char = '\u{1175}';
/// Unicode start point of the ancient vowel jamo range
pub const jamo_peak_ancient_start: char = '\u{1176}';
/// Unicode end point of the ancient vowel jamo range
pub const jamo_peak_ancient_end: char = '\u{11a7}';

/// Virtual start point of the trailing-consonant range, as if a
/// "no trailing consonant" character stood just before the real range
pub const jamo_final0_start: char = '\u{11a7}';
/// Unicode start point of the trailing-consonant jamo range
pub const jamo_final_start: char = '\u{11a8}';
/// Unicode end point of the modern trailing-consonant jamo range
pub const jamo_final_end: char = '\u{11c2}';
/// Unicode start point of the ancient trailing-consonant jamo range
pub const jamo_final_ancient_start: char = '\u{11c3}';
/// Unicode end point of the ancient trailing-consonant jamo range
pub const jamo_final_ancient_end: char = '\u{11ff}';

/// Unicode start point of the conjoining-jamo range
pub const jamo_start: char = jamo_initial_start;
/// Unicode end point of the conjoining-jamo range
pub const jamo_end: char = jamo_final_ancient_end;

/// Number of modern leading consonants
pub const initial_count: usize = 19;
/// Number of modern vowels
pub const peak_count: usize = 21;
/// Number of modern trailing consonants
pub const final_count: usize = 27;
/// Number of trailing-consonant codes, the absent one included
pub const final0_count: usize = 28;
/// Number of vowels
pub const vowel_count: usize = 21;

/// Unicode start point of the modern compatibility-jamo range
pub const compat_modern_jamo_start: char = '\u{3131}';
/// Unicode end point of the modern compatibility-jamo range
pub const compat_modern_jamo_end: char = '\u{3163}';
/// Unicode start point of the ancient compatibility-jamo range
pub const compat_ancient_jamo_start: char = '\u{3165}';
/// Unicode end point of the ancient compatibility-jamo range
pub const compat_ancient_jamo_end: char = '\u{318e}';
/// Unicode start point of the compatibility-jamo range
pub const compat_jamo_start: char = compat_modern_jamo_start;
/// Unicode end point of the compatibility-jamo range
pub const compat_jamo_end: char = compat_ancient_jamo_end;

} // verus!
