//! Phoneme variant sets named after their role in the syllable: the initial
//! consonant, the peak (vowel), and the final consonant.
//!
//! This is the decomposition-oriented face of the crate: the final-consonant
//! set carries an explicit blank variant at ordinal 0 standing for "no final
//! consonant", so a whole trailing slot fits in one value.  Each variant maps
//! to the scalar `block base + ordinal`, the final set counting from the
//! virtual base one below its real block start.

use vstd::prelude::*;
use crate::scalar::char_from_u32;

verus! {

/// Conversion between a Unicode scalar and a manipulable representation.
///
/// `from_u32` succeeds exactly on the type's own scalar domain and fails by
/// returning None, never fatally.  Each implementing type pins both outcomes
/// down with the two spec predicates.
pub trait Conversion: Sized {
    /// Exactly what `from_u32` returns for the scalar `v`.
    spec fn from_u32_post(v: u32, r: Option<Self>) -> bool;

    /// Exactly what `char` returns for this value.
    spec fn char_post(&self, r: Option<char>) -> bool;

    /// Decode the scalar `v`.
    fn from_u32(v: u32) -> (r: Option<Self>)
        ensures
            Self::from_u32_post(v, r),
    ;

    /// Render this value back to a character.
    fn char(&self) -> (r: Option<char>)
        ensures
            self.char_post(r),
    ;

    /// Decode the character `c`, going by its scalar value.
    fn from_char(c: char) -> (r: Option<Self>)
        ensures
            Self::from_u32_post(c as u32, r),
    {
        Self::from_u32(c as u32)
    }
}

/// A phoneme variant set laid out contiguously from a base scalar.
pub trait Jamo: Sized {
    /// Exactly what `from_ordinal` returns for the ordinal `n`.
    spec fn from_ordinal_post(n: u32, r: Option<Self>) -> bool;

    /// The variant at position `n` of the standard ordering, if any.
    fn from_ordinal(n: u32) -> (r: Option<Self>)
        ensures
            Self::from_ordinal_post(n, r),
    ;

    /// Decode the scalar `v` by its offset from the block base `base`.
    fn _from_u32(v: u32, base: char) -> (r: Option<Self>)
        ensures
            v < base as u32 ==> r is None,
            v >= base as u32 ==> Self::from_ordinal_post((v - base as u32) as u32, r),
    {
        if v < base as u32 {
            None
        } else {
            Self::from_ordinal(v - base as u32)
        }
    }
}


/// Order of the modern Hangul initial consonants.
#[derive(Copy, Clone, Debug, PartialEq, Eq, Structural)]
pub enum Initial {
    InitialGiyeok,
    InitialSsangGiyeok,
    InitialNieun,
    InitialDigeut,
    InitialSsangDigeut,
    InitialRieul,
    InitialMieum,
    InitialBieup,
    InitialSsangBieup,
    InitialSiot,
    InitialSsangSiot,
    InitialIeung,
    InitialJieut,
    InitialSsangJieut,
    InitialChieut,
    InitialKieuk,
    InitialTieut,
    InitialPieup,
    InitialHieut,
}

impl Initial {
    /// Fixed position of the variant in the standard ordering.
    pub open spec fn spec_ordinal(self) -> int {
        match self {
            Initial::InitialGiyeok => 0,
            Initial::InitialSsangGiyeok => 1,
            Initial::InitialNieun => 2,
            Initial::InitialDigeut => 3,
            Initial::InitialSsangDigeut => 4,
            Initial::InitialRieul => 5,
            Initial::InitialMieum => 6,
            Initial::InitialBieup => 7,
            Initial::InitialSsangBieup => 8,
            Initial::InitialSiot => 9,
            Initial::InitialSsangSiot => 10,
            Initial::InitialIeung => 11,
            Initial::InitialJieut => 12,
            Initial::InitialSsangJieut => 13,
            Initial::InitialChieut => 14,
            Initial::InitialKieuk => 15,
            Initial::InitialTieut => 16,
            Initial::InitialPieup => 17,
            Initial::InitialHieut => 18,
        }
    }

    /// Fixed position of the variant in the standard ordering.
    pub fn ordinal(&self) -> (r: u32)
        ensures
            r == self.spec_ordinal(),
            0 <= r <= 18,
    {
        match self {
            Initial::InitialGiyeok => 0,
            Initial::InitialSsangGiyeok => 1,
            Initial::InitialNieun => 2,
            Initial::InitialDigeut => 3,
            Initial::InitialSsangDigeut => 4,
            Initial::InitialRieul => 5,
            Initial::InitialMieum => 6,
            Initial::InitialBieup => 7,
            Initial::InitialSsangBieup => 8,
            Initial::InitialSiot => 9,
            Initial::InitialSsangSiot => 10,
            Initial::InitialIeung => 11,
            Initial::InitialJieut => 12,
            Initial::InitialSsangJieut => 13,
            Initial::InitialChieut => 14,
            Initial::InitialKieuk => 15,
            Initial::InitialTieut => 16,
            Initial::InitialPieup => 17,
            Initial::InitialHieut => 18,
        }
    }

    /// The variant at position `n` of the standard ordering, if any.
    pub fn from_ordinal(n: u32) -> (r: Option<Initial>)
        ensures
            r is Some <==> 0 <= n <= 18,
            r matches Some(x) ==> x.spec_ordinal() == n,
    {
        match n {
            0 => Some(Initial::InitialGiyeok),
            1 => Some(Initial::InitialSsangGiyeok),
            2 => Some(Initial::InitialNieun),
            3 => Some(Initial::InitialDigeut),
            4 => Some(Initial::InitialSsangDigeut),
            5 => Some(Initial::InitialRieul),
            6 => Some(Initial::InitialMieum),
            7 => Some(Initial::InitialBieup),
            8 => Some(Initial::InitialSsangBieup),
            9 => Some(Initial::InitialSiot),
            10 => Some(Initial::InitialSsangSiot),
            11 => Some(Initial::InitialIeung),
            12 => Some(Initial::InitialJieut),
            13 => Some(Initial::InitialSsangJieut),
            14 => Some(Initial::InitialChieut),
            15 => Some(Initial::InitialKieuk),
            16 => Some(Initial::InitialTieut),
            17 => Some(Initial::InitialPieup),
            18 => Some(Initial::InitialHieut),
            _ => None,
        }
    }
}

/// No two distinct variants share an ordinal.
pub proof fn lemma_initial_ordinal_injective(a: Initial, b: Initial)
    requires
        a.spec_ordinal() == b.spec_ordinal(),
    ensures
        a == b,
{
}

/// Every ordinal lies in the variant set's range.
pub proof fn lemma_initial_ordinal_bounds(a: Initial)
    ensures
        0 <= a.spec_ordinal() <= 18,
{
}

impl Conversion for Initial {
    open spec fn from_u32_post(v: u32, r: Option<Initial>) -> bool {
        match r {
            Some(x) => 0x1100 <= v <= 0x1112 && x.spec_ordinal() == v - 0x1100,
            None => !(0x1100 <= v <= 0x1112),
        }
    }

    open spec fn char_post(&self, r: Option<char>) -> bool {
        match r {
            Some(c) => c as u32 == 0x1100 + self.spec_ordinal(),
            None => false,
        }
    }

    fn from_u32(v: u32) -> (r: Option<Initial>) {
        if v < 0x1100 {
            None
        } else {
            Initial::from_ordinal(v - 0x1100)
        }
    }

    fn char(&self) -> (r: Option<char>) {
        char_from_u32(0x1100 + self.ordinal())
    }
}


impl Jamo for Initial {
    open spec fn from_ordinal_post(n: u32, r: Option<Initial>) -> bool {
        &&& r is Some <==> n <= 18
        &&& r matches Some(x) ==> x.spec_ordinal() == n
    }

    fn from_ordinal(n: u32) -> (r: Option<Initial>) {
        Initial::from_ordinal(n)
    }
}


/// Order of the modern Hangul vowels.
#[derive(Copy, Clone, Debug, PartialEq, Eq, Structural)]
pub enum Vowel {
    A,
    Ae,
    Ya,
    Yae,
    Eo,
    E,
    Yeo,
    Ye,
    O,
    Wa,
    Wae,
    Oe,
    Yo,
    U,
    Weo,
    We,
    Wi,
    Yu,
    Eu,
    Ui,
    I,
}

impl Vowel {
    /// Fixed position of the variant in the standard ordering.
    pub open spec fn spec_ordinal(self) -> int {
        match self {
            Vowel::A => 0,
            Vowel::Ae => 1,
            Vowel::Ya => 2,
            Vowel::Yae => 3,
            Vowel::Eo => 4,
            Vowel::E => 5,
            Vowel::Yeo => 6,
            Vowel::Ye => 7,
            Vowel::O => 8,
            Vowel::Wa => 9,
            Vowel::Wae => 10,
            Vowel::Oe => 11,
            Vowel::Yo => 12,
            Vowel::U => 13,
            Vowel::Weo => 14,
            Vowel::We => 15,
            Vowel::Wi => 16,
            Vowel::Yu => 17,
            Vowel::Eu => 18,
            Vowel::Ui => 19,
            Vowel::I => 20,
        }
    }

    /// Fixed position of the variant in the standard ordering.
    pub fn ordinal(&self) -> (r: u32)
        ensures
            r == self.spec_ordinal(),
            0 <= r <= 20,
    {
        match self {
            Vowel::A => 0,
            Vowel::Ae => 1,
            Vowel::Ya => 2,
            Vowel::Yae => 3,
            Vowel::Eo => 4,
            Vowel::E => 5,
            Vowel::Yeo => 6,
            Vowel::Ye => 7,
            Vowel::O => 8,
            Vowel::Wa => 9,
            Vowel::Wae => 10,
            Vowel::Oe => 11,
            Vowel::Yo => 12,
            Vowel::U => 13,
            Vowel::Weo => 14,
            Vowel::We => 15,
            Vowel::Wi => 16,
            Vowel::Yu => 17,
            Vowel::Eu => 18,
            Vowel::Ui => 19,
            Vowel::I => 20,
        }
    }

    /// The variant at position `n` of the standard ordering, if any.
    pub fn from_ordinal(n: u32) -> (r: Option<Vowel>)
        ensures
            r is Some <==> 0 <= n <= 20,
            r matches Some(x) ==> x.spec_ordinal() == n,
    {
        match n {
            0 => Some(Vowel::A),
            1 => Some(Vowel::Ae),
            2 => Some(Vowel::Ya),
            3 => Some(Vowel::Yae),
            4 => Some(Vowel::Eo),
            5 => Some(Vowel::E),
            6 => Some(Vowel::Yeo),
            7 => Some(Vowel::Ye),
            8 => Some(Vowel::O),
            9 => Some(Vowel::Wa),
            10 => Some(Vowel::Wae),
            11 => Some(Vowel::Oe),
            12 => Some(Vowel::Yo),
            13 => Some(Vowel::U),
            14 => Some(Vowel::Weo),
            15 => Some(Vowel::We),
            16 => Some(Vowel::Wi),
            17 => Some(Vowel::Yu),
            18 => Some(Vowel::Eu),
            19 => Some(Vowel::Ui),
            20 => Some(Vowel::I),
            _ => None,
        }
    }
}

/// No two distinct variants share an ordinal.
pub proof fn lemma_vowel_ordinal_injective(a: Vowel, b: Vowel)
    requires
        a.spec_ordinal() == b.spec_ordinal(),
    ensures
        a == b,
{
}

/// Every ordinal lies in the variant set's range.
pub proof fn lemma_vowel_ordinal_bounds(a: Vowel)
    ensures
        0 <= a.spec_ordinal() <= 20,
{
}

impl Conversion for Vowel {
    open spec fn from_u32_post(v: u32, r: Option<Vowel>) -> bool {
        match r {
            Some(x) => 0x1161 <= v <= 0x1175 && x.spec_ordinal() == v - 0x1161,
            None => !(0x1161 <= v <= 0x1175),
        }
    }

    open spec fn char_post(&self, r: Option<char>) -> bool {
        match r {
            Some(c) => c as u32 == 0x1161 + self.spec_ordinal(),
            None => false,
        }
    }

    fn from_u32(v: u32) -> (r: Option<Vowel>) {
        if v < 0x1161 {
            None
        } else {
            Vowel::from_ordinal(v - 0x1161)
        }
    }

    fn char(&self) -> (r: Option<char>) {
        char_from_u32(0x1161 + self.ordinal())
    }
}


impl Jamo for Vowel {
    open spec fn from_ordinal_post(n: u32, r: Option<Vowel>) -> bool {
        &&& r is Some <==> n <= 20
        &&& r matches Some(x) ==> x.spec_ordinal() == n
    }

    fn from_ordinal(n: u32) -> (r: Option<Vowel>) {
        Vowel::from_ordinal(n)
    }
}


/// Order of the modern Hangul final consonants, led by an explicit
/// blank variant at ordinal 0 that stands for "no final consonant".
#[derive(Copy, Clone, Debug, PartialEq, Eq, Structural)]
pub enum Final {
    FinalBlank,
    FinalGiyeok,
    FinalSsangGiyeok,
    FinalGiyeokSiot,
    FinalNieun,
    FinalNieunJieut,
    FinalNieunHieut,
    FinalDigeut,
    FinalRieul,
    FinalRieulGiyeok,
    FinalRieulMieum,
    FinalRieulBieup,
    FinalRieulSiot,
    FinalRieulTieut,
    FinalRieulPieup,
    FinalRieulHieut,
    FinalMieum,
    FinalBieup,
    FinalBieupSiot,
    FinalSiot,
    FinalSsangSiot,
    FinalIeung,
    FinalJieut,
    FinalChieut,
    FinalKieuk,
    FinalTieut,
    FinalPieup,
    FinalHieut,
}

impl Final {
    /// Fixed position of the variant in the standard ordering.
    pub open spec fn spec_ordinal(self) -> int {
        match self {
            Final::FinalBlank => 0,
            Final::FinalGiyeok => 1,
            Final::FinalSsangGiyeok => 2,
            Final::FinalGiyeokSiot => 3,
            Final::FinalNieun => 4,
            Final::FinalNieunJieut => 5,
            Final::FinalNieunHieut => 6,
            Final::FinalDigeut => 7,
            Final::FinalRieul => 8,
            Final::FinalRieulGiyeok => 9,
            Final::FinalRieulMieum => 10,
            Final::FinalRieulBieup => 11,
            Final::FinalRieulSiot => 12,
            Final::FinalRieulTieut => 13,
            Final::FinalRieulPieup => 14,
            Final::FinalRieulHieut => 15,
            Final::FinalMieum => 16,
            Final::FinalBieup => 17,
            Final::FinalBieupSiot => 18,
            Final::FinalSiot => 19,
            Final::FinalSsangSiot => 20,
            Final::FinalIeung => 21,
            Final::FinalJieut => 22,
            Final::FinalChieut => 23,
            Final::FinalKieuk => 24,
            Final::FinalTieut => 25,
            Final::FinalPieup => 26,
            Final::FinalHieut => 27,
        }
    }

    /// Fixed position of the variant in the standard ordering.
    pub fn ordinal(&self) -> (r: u32)
        ensures
            r == self.spec_ordinal(),
            0 <= r <= 27,
    {
        match self {
            Final::FinalBlank => 0,
            Final::FinalGiyeok => 1,
            Final::FinalSsangGiyeok => 2,
            Final::FinalGiyeokSiot => 3,
            Final::FinalNieun => 4,
            Final::FinalNieunJieut => 5,
            Final::FinalNieunHieut => 6,
            Final::FinalDigeut => 7,
            Final::FinalRieul => 8,
            Final::FinalRieulGiyeok => 9,
            Final::FinalRieulMieum => 10,
            Final::FinalRieulBieup => 11,
            Final::FinalRieulSiot => 12,
            Final::FinalRieulTieut => 13,
            Final::FinalRieulPieup => 14,
            Final::FinalRieulHieut => 15,
            Final::FinalMieum => 16,
            Final::FinalBieup => 17,
            Final::FinalBieupSiot => 18,
            Final::FinalSiot => 19,
            Final::FinalSsangSiot => 20,
            Final::FinalIeung => 21,
            Final::FinalJieut => 22,
            Final::FinalChieut => 23,
            Final::FinalKieuk => 24,
            Final::FinalTieut => 25,
            Final::FinalPieup => 26,
            Final::FinalHieut => 27,
        }
    }

    /// The variant at position `n` of the standard ordering, if any.
    pub fn from_ordinal(n: u32) -> (r: Option<Final>)
        ensures
            r is Some <==> 0 <= n <= 27,
            r matches Some(x) ==> x.spec_ordinal() == n,
    {
        match n {
            0 => Some(Final::FinalBlank),
            1 => Some(Final::FinalGiyeok),
            2 => Some(Final::FinalSsangGiyeok),
            3 => Some(Final::FinalGiyeokSiot),
            4 => Some(Final::FinalNieun),
            5 => Some(Final::FinalNieunJieut),
            6 => Some(Final::FinalNieunHieut),
            7 => Some(Final::FinalDigeut),
            8 => Some(Final::FinalRieul),
            9 => Some(Final::FinalRieulGiyeok),
            10 => Some(Final::FinalRieulMieum),
            11 => Some(Final::FinalRieulBieup),
            12 => Some(Final::FinalRieulSiot),
            13 => Some(Final::FinalRieulTieut),
            14 => Some(Final::FinalRieulPieup),
            15 => Some(Final::FinalRieulHieut),
            16 => Some(Final::FinalMieum),
            17 => Some(Final::FinalBieup),
            18 => Some(Final::FinalBieupSiot),
            19 => Some(Final::FinalSiot),
            20 => Some(Final::FinalSsangSiot),
            21 => Some(Final::FinalIeung),
            22 => Some(Final::FinalJieut),
            23 => Some(Final::FinalChieut),
            24 => Some(Final::FinalKieuk),
            25 => Some(Final::FinalTieut),
            26 => Some(Final::FinalPieup),
            27 => Some(Final::FinalHieut),
            _ => None,
        }
    }
}

/// No two distinct variants share an ordinal.
pub proof fn lemma_final_ordinal_injective(a: Final, b: Final)
    requires
        a.spec_ordinal() == b.spec_ordinal(),
    ensures
        a == b,
{
}

/// Every ordinal lies in the variant set's range.
pub proof fn lemma_final_ordinal_bounds(a: Final)
    ensures
        0 <= a.spec_ordinal() <= 27,
{
}

impl Conversion for Final {
    open spec fn from_u32_post(v: u32, r: Option<Final>) -> bool {
        match r {
            Some(x) => 0x11A8 <= v <= 0x11C2 && x.spec_ordinal() == v - 0x11A7,
            None => !(0x11A8 <= v <= 0x11C2),
        }
    }

    open spec fn char_post(&self, r: Option<char>) -> bool {
        match r {
            Some(c) => self != Final::FinalBlank && c as u32 == 0x11A7 + self.spec_ordinal(),
            None => self == Final::FinalBlank,
        }
    }

    fn from_u32(v: u32) -> (r: Option<Final>) {
        if v <= 0x11A7 {
            None
        } else {
            Final::from_ordinal(v - 0x11A7)
        }
    }

    fn char(&self) -> (r: Option<char>) {
        if *self == Final::FinalBlank {
            None
        } else {
            char_from_u32(0x11A7 + self.ordinal())
        }
    }
}


impl Jamo for Final {
    open spec fn from_ordinal_post(n: u32, r: Option<Final>) -> bool {
        &&& r is Some <==> n <= 27
        &&& r matches Some(x) ==> x.spec_ordinal() == n
    }

    fn from_ordinal(n: u32) -> (r: Option<Final>) {
        Final::from_ordinal(n)
    }
}


/// A single phoneme, tagged by its role within a syllable.
#[derive(Copy, Clone, Debug)]
pub enum Alphabet {
    Initial(Initial),
    Vowel(Vowel),
    Final(Final),
}

} // verus!
