//! Phoneme codecs: the three modern conjoining-jamo variant sets, and the
//! conversion capabilities every character-like type of this crate shares.
//!
//! Each variant set is a closed enum with a fixed ordinal per variant, so an
//! invalid ordinal is unrepresentable once a value exists.  A variant maps to
//! the scalar `block start + ordinal`; for trailing consonants the map is
//! `block start + ordinal - 1`, ordinal 0 being reserved to mean "absent".

use vstd::prelude::*;
use crate::scalar::char_from_u32;

verus! {

/// Conversion between a Unicode scalar and a decoded representation.
///
/// `from_u32` succeeds exactly on the type's own scalar domain and fails by
/// returning None, never fatally.  Each implementing type pins both outcomes
/// down with the two spec predicates.
pub trait Character: Sized {
    /// Exactly what `from_u32` returns for the scalar `v`.
    spec fn from_u32_post(v: u32, r: Option<Self>) -> bool;

    /// Exactly what `char` returns for this value.
    spec fn char_post(&self, r: Option<char>) -> bool;

    /// Decode the scalar `v`.
    fn from_u32(v: u32) -> (r: Option<Self>)
        ensures
            Self::from_u32_post(v, r),
    ;

    /// Render this value back to a character.
    fn char(&self) -> (r: Option<char>)
        ensures
            self.char_post(r),
    ;

    /// Decode the character `c`, going by its scalar value.
    fn from_char(c: char) -> (r: Option<Self>)
        ensures
            Self::from_u32_post(c as u32, r),
    {
        Self::from_u32(c as u32)
    }
}

/// A contiguous Unicode code block: start scalar, end scalar, element count.
pub trait Codeblock: Character {
    /// Start scalar of the code block.
    spec fn spec_start_point() -> u32;

    /// End scalar of the code block.
    spec fn spec_end_point() -> u32;

    /// The block is non-empty and lies below the surrogate range.
    proof fn block_well_formed()
        ensures
            Self::spec_start_point() <= Self::spec_end_point(),
            Self::spec_end_point() < 0xD800,
    ;

    /// Unicode start point of the code block.
    fn start_point() -> (r: u32)
        ensures
            r == Self::spec_start_point(),
    ;

    /// Unicode end point of the code block.
    fn end_point() -> (r: u32)
        ensures
            r == Self::spec_end_point(),
    ;

    /// Total count of scalars in the code block.
    fn count() -> (r: usize)
        ensures
            r == Self::spec_end_point() - Self::spec_start_point() + 1,
    ;
}

/// Unicode filler character standing for an absent leading consonant
pub const CHOSEONG_FILLER: char = '\u{115f}';

/// Unicode filler character standing for an absent vowel
pub const JUNGSEONG_FILLER: char = '\u{1160}';

/// Number of trailing-consonant codes when the absent one is counted in
pub const JONGSEONG_COUNT_WITH_EMPTY: usize = 28;


/// Order of the modern Hangul leading consonants.
#[derive(Copy, Clone, Debug, PartialEq, Eq, Structural)]
pub enum Choseong {
    Giyeok,
    SsangGiyeok,
    Nieun,
    Digeut,
    SsangDigeut,
    Rieul,
    Mieum,
    Bieup,
    SsangBieup,
    Siot,
    SsangSiot,
    Ieung,
    Jieut,
    SsangJieut,
    Chieut,
    Kieuk,
    Tieut,
    Pieup,
    Hieut,
}

impl Choseong {
    /// Fixed position of the variant in the standard ordering.
    pub open spec fn spec_ordinal(self) -> int {
        match self {
            Choseong::Giyeok => 0,
            Choseong::SsangGiyeok => 1,
            Choseong::Nieun => 2,
            Choseong::Digeut => 3,
            Choseong::SsangDigeut => 4,
            Choseong::Rieul => 5,
            Choseong::Mieum => 6,
            Choseong::Bieup => 7,
            Choseong::SsangBieup => 8,
            Choseong::Siot => 9,
            Choseong::SsangSiot => 10,
            Choseong::Ieung => 11,
            Choseong::Jieut => 12,
            Choseong::SsangJieut => 13,
            Choseong::Chieut => 14,
            Choseong::Kieuk => 15,
            Choseong::Tieut => 16,
            Choseong::Pieup => 17,
            Choseong::Hieut => 18,
        }
    }

    /// Fixed position of the variant in the standard ordering.
    pub fn ordinal(&self) -> (r: u32)
        ensures
            r == self.spec_ordinal(),
            0 <= r <= 18,
    {
        match self {
            Choseong::Giyeok => 0,
            Choseong::SsangGiyeok => 1,
            Choseong::Nieun => 2,
            Choseong::Digeut => 3,
            Choseong::SsangDigeut => 4,
            Choseong::Rieul => 5,
            Choseong::Mieum => 6,
            Choseong::Bieup => 7,
            Choseong::SsangBieup => 8,
            Choseong::Siot => 9,
            Choseong::SsangSiot => 10,
            Choseong::Ieung => 11,
            Choseong::Jieut => 12,
            Choseong::SsangJieut => 13,
            Choseong::Chieut => 14,
            Choseong::Kieuk => 15,
            Choseong::Tieut => 16,
            Choseong::Pieup => 17,
            Choseong::Hieut => 18,
        }
    }

    /// The variant at position `n` of the standard ordering, if any.
    pub fn from_ordinal(n: u32) -> (r: Option<Choseong>)
        ensures
            r is Some <==> 0 <= n <= 18,
            r matches Some(x) ==> x.spec_ordinal() == n,
    {
        match n {
            0 => Some(Choseong::Giyeok),
            1 => Some(Choseong::SsangGiyeok),
            2 => Some(Choseong::Nieun),
            3 => Some(Choseong::Digeut),
            4 => Some(Choseong::SsangDigeut),
            5 => Some(Choseong::Rieul),
            6 => Some(Choseong::Mieum),
            7 => Some(Choseong::Bieup),
            8 => Some(Choseong::SsangBieup),
            9 => Some(Choseong::Siot),
            10 => Some(Choseong::SsangSiot),
            11 => Some(Choseong::Ieung),
            12 => Some(Choseong::Jieut),
            13 => Some(Choseong::SsangJieut),
            14 => Some(Choseong::Chieut),
            15 => Some(Choseong::Kieuk),
            16 => Some(Choseong::Tieut),
            17 => Some(Choseong::Pieup),
            18 => Some(Choseong::Hieut),
            _ => None,
        }
    }
}

/// No two distinct variants share an ordinal.
pub proof fn lemma_choseong_ordinal_injective(a: Choseong, b: Choseong)
    requires
        a.spec_ordinal() == b.spec_ordinal(),
    ensures
        a == b,
{
}

/// Every ordinal lies in the variant set's range.
pub proof fn lemma_choseong_ordinal_bounds(a: Choseong)
    ensures
        0 <= a.spec_ordinal() <= 18,
{
}

impl Character for Choseong {
    open spec fn from_u32_post(v: u32, r: Option<Choseong>) -> bool {
        match r {
            Some(x) => 0x1100 <= v <= 0x1112 && x.spec_ordinal() == v - 0x1100,
            None => !(0x1100 <= v <= 0x1112),
        }
    }

    open spec fn char_post(&self, r: Option<char>) -> bool {
        match r {
            Some(c) => c as u32 == 0x1100 + self.spec_ordinal(),
            None => false,
        }
    }

    fn from_u32(v: u32) -> (r: Option<Choseong>) {
        if v < 0x1100 {
            None
        } else {
            Choseong::from_ordinal(v - 0x1100)
        }
    }

    fn char(&self) -> (r: Option<char>) {
        char_from_u32(0x1100 + self.ordinal())
    }
}

impl Codeblock for Choseong {
    open spec fn spec_start_point() -> u32 {
        0x1100
    }

    open spec fn spec_end_point() -> u32 {
        0x1112
    }

    proof fn block_well_formed() {
    }

    fn start_point() -> u32 {
        0x1100
    }

    fn end_point() -> u32 {
        0x1112
    }

    fn count() -> usize {
        19
    }
}

/// Order of the modern Hangul vowels.
#[derive(Copy, Clone, Debug, PartialEq, Eq, Structural)]
pub enum Jungseong {
    A,
    Ae,
    Ya,
    Yae,
    Eo,
    E,
    Yeo,
    Ye,
    O,
    Wa,
    Wae,
    Oe,
    Yo,
    U,
    Weo,
    We,
    Wi,
    Yu,
    Eu,
    Ui,
    I,
}

impl Jungseong {
    /// Fixed position of the variant in the standard ordering.
    pub open spec fn spec_ordinal(self) -> int {
        match self {
            Jungseong::A => 0,
            Jungseong::Ae => 1,
            Jungseong::Ya => 2,
            Jungseong::Yae => 3,
            Jungseong::Eo => 4,
            Jungseong::E => 5,
            Jungseong::Yeo => 6,
            Jungseong::Ye => 7,
            Jungseong::O => 8,
            Jungseong::Wa => 9,
            Jungseong::Wae => 10,
            Jungseong::Oe => 11,
            Jungseong::Yo => 12,
            Jungseong::U => 13,
            Jungseong::Weo => 14,
            Jungseong::We => 15,
            Jungseong::Wi => 16,
            Jungseong::Yu => 17,
            Jungseong::Eu => 18,
            Jungseong::Ui => 19,
            Jungseong::I => 20,
        }
    }

    /// Fixed position of the variant in the standard ordering.
    pub fn ordinal(&self) -> (r: u32)
        ensures
            r == self.spec_ordinal(),
            0 <= r <= 20,
    {
        match self {
            Jungseong::A => 0,
            Jungseong::Ae => 1,
            Jungseong::Ya => 2,
            Jungseong::Yae => 3,
            Jungseong::Eo => 4,
            Jungseong::E => 5,
            Jungseong::Yeo => 6,
            Jungseong::Ye => 7,
            Jungseong::O => 8,
            Jungseong::Wa => 9,
            Jungseong::Wae => 10,
            Jungseong::Oe => 11,
            Jungseong::Yo => 12,
            Jungseong::U => 13,
            Jungseong::Weo => 14,
            Jungseong::We => 15,
            Jungseong::Wi => 16,
            Jungseong::Yu => 17,
            Jungseong::Eu => 18,
            Jungseong::Ui => 19,
            Jungseong::I => 20,
        }
    }

    /// The variant at position `n` of the standard ordering, if any.
    pub fn from_ordinal(n: u32) -> (r: Option<Jungseong>)
        ensures
            r is Some <==> 0 <= n <= 20,
            r matches Some(x) ==> x.spec_ordinal() == n,
    {
        match n {
            0 => Some(Jungseong::A),
            1 => Some(Jungseong::Ae),
            2 => Some(Jungseong::Ya),
            3 => Some(Jungseong::Yae),
            4 => Some(Jungseong::Eo),
            5 => Some(Jungseong::E),
            6 => Some(Jungseong::Yeo),
            7 => Some(Jungseong::Ye),
            8 => Some(Jungseong::O),
            9 => Some(Jungseong::Wa),
            10 => Some(Jungseong::Wae),
            11 => Some(Jungseong::Oe),
            12 => Some(Jungseong::Yo),
            13 => Some(Jungseong::U),
            14 => Some(Jungseong::Weo),
            15 => Some(Jungseong::We),
            16 => Some(Jungseong::Wi),
            17 => Some(Jungseong::Yu),
            18 => Some(Jungseong::Eu),
            19 => Some(Jungseong::Ui),
            20 => Some(Jungseong::I),
            _ => None,
        }
    }
}

/// No two distinct variants share an ordinal.
pub proof fn lemma_jungseong_ordinal_injective(a: Jungseong, b: Jungseong)
    requires
        a.spec_ordinal() == b.spec_ordinal(),
    ensures
        a == b,
{
}

/// Every ordinal lies in the variant set's range.
pub proof fn lemma_jungseong_ordinal_bounds(a: Jungseong)
    ensures
        0 <= a.spec_ordinal() <= 20,
{
}

impl Character for Jungseong {
    open spec fn from_u32_post(v: u32, r: Option<Jungseong>) -> bool {
        match r {
            Some(x) => 0x1161 <= v <= 0x1175 && x.spec_ordinal() == v - 0x1161,
            None => !(0x1161 <= v <= 0x1175),
        }
    }

    open spec fn char_post(&self, r: Option<char>) -> bool {
        match r {
            Some(c) => c as u32 == 0x1161 + self.spec_ordinal(),
            None => false,
        }
    }

    fn from_u32(v: u32) -> (r: Option<Jungseong>) {
        if v < 0x1161 {
            None
        } else {
            Jungseong::from_ordinal(v - 0x1161)
        }
    }

    fn char(&self) -> (r: Option<char>) {
        char_from_u32(0x1161 + self.ordinal())
    }
}

impl Codeblock for Jungseong {
    open spec fn spec_start_point() -> u32 {
        0x1161
    }

    open spec fn spec_end_point() -> u32 {
        0x1175
    }

    proof fn block_well_formed() {
    }

    fn start_point() -> u32 {
        0x1161
    }

    fn end_point() -> u32 {
        0x1175
    }

    fn count() -> usize {
        21
    }
}

/// Order of the modern Hangul trailing consonants.  Ordinal 0 is
/// reserved to mean "absent", so ordinals start at 1.
#[derive(Copy, Clone, Debug, PartialEq, Eq, Structural)]
pub enum Jongseong {
    Giyeok,
    SsangGiyeok,
    GiyeokSiot,
    Nieun,
    NieunJieut,
    NieunHieut,
    Digeut,
    Rieul,
    RieulGiyeok,
    RieulMieum,
    RieulBieup,
    RieulSiot,
    RieulTieut,
    RieulPieup,
    RieulHieut,
    Mieum,
    Bieup,
    BieupSiot,
    Siot,
    SsangSiot,
    Ieung,
    Jieut,
    Chieut,
    Kieuk,
    Tieut,
    Pieup,
    Hieut,
}

impl Jongseong {
    /// Fixed position of the variant in the standard ordering.
    pub open spec fn spec_ordinal(self) -> int {
        match self {
            Jongseong::Giyeok => 1,
            Jongseong::SsangGiyeok => 2,
            Jongseong::GiyeokSiot => 3,
            Jongseong::Nieun => 4,
            Jongseong::NieunJieut => 5,
            Jongseong::NieunHieut => 6,
            Jongseong::Digeut => 7,
            Jongseong::Rieul => 8,
            Jongseong::RieulGiyeok => 9,
            Jongseong::RieulMieum => 10,
            Jongseong::RieulBieup => 11,
            Jongseong::RieulSiot => 12,
            Jongseong::RieulTieut => 13,
            Jongseong::RieulPieup => 14,
            Jongseong::RieulHieut => 15,
            Jongseong::Mieum => 16,
            Jongseong::Bieup => 17,
            Jongseong::BieupSiot => 18,
            Jongseong::Siot => 19,
            Jongseong::SsangSiot => 20,
            Jongseong::Ieung => 21,
            Jongseong::Jieut => 22,
            Jongseong::Chieut => 23,
            Jongseong::Kieuk => 24,
            Jongseong::Tieut => 25,
            Jongseong::Pieup => 26,
            Jongseong::Hieut => 27,
        }
    }

    /// Fixed position of the variant in the standard ordering.
    pub fn ordinal(&self) -> (r: u32)
        ensures
            r == self.spec_ordinal(),
            1 <= r <= 27,
    {
        match self {
            Jongseong::Giyeok => 1,
            Jongseong::SsangGiyeok => 2,
            Jongseong::GiyeokSiot => 3,
            Jongseong::Nieun => 4,
            Jongseong::NieunJieut => 5,
            Jongseong::NieunHieut => 6,
            Jongseong::Digeut => 7,
            Jongseong::Rieul => 8,
            Jongseong::RieulGiyeok => 9,
            Jongseong::RieulMieum => 10,
            Jongseong::RieulBieup => 11,
            Jongseong::RieulSiot => 12,
            Jongseong::RieulTieut => 13,
            Jongseong::RieulPieup => 14,
            Jongseong::RieulHieut => 15,
            Jongseong::Mieum => 16,
            Jongseong::Bieup => 17,
            Jongseong::BieupSiot => 18,
            Jongseong::Siot => 19,
            Jongseong::SsangSiot => 20,
            Jongseong::Ieung => 21,
            Jongseong::Jieut => 22,
            Jongseong::Chieut => 23,
            Jongseong::Kieuk => 24,
            Jongseong::Tieut => 25,
            Jongseong::Pieup => 26,
            Jongseong::Hieut => 27,
        }
    }

    /// The variant at position `n` of the standard ordering, if any.
    pub fn from_ordinal(n: u32) -> (r: Option<Jongseong>)
        ensures
            r is Some <==> 1 <= n <= 27,
            r matches Some(x) ==> x.spec_ordinal() == n,
    {
        match n {
            1 => Some(Jongseong::Giyeok),
            2 => Some(Jongseong::SsangGiyeok),
            3 => Some(Jongseong::GiyeokSiot),
            4 => Some(Jongseong::Nieun),
            5 => Some(Jongseong::NieunJieut),
            6 => Some(Jongseong::NieunHieut),
            7 => Some(Jongseong::Digeut),
            8 => Some(Jongseong::Rieul),
            9 => Some(Jongseong::RieulGiyeok),
            10 => Some(Jongseong::RieulMieum),
            11 => Some(Jongseong::RieulBieup),
            12 => Some(Jongseong::RieulSiot),
            13 => Some(Jongseong::RieulTieut),
            14 => Some(Jongseong::RieulPieup),
            15 => Some(Jongseong::RieulHieut),
            16 => Some(Jongseong::Mieum),
            17 => Some(Jongseong::Bieup),
            18 => Some(Jongseong::BieupSiot),
            19 => Some(Jongseong::Siot),
            20 => Some(Jongseong::SsangSiot),
            21 => Some(Jongseong::Ieung),
            22 => Some(Jongseong::Jieut),
            23 => Some(Jongseong::Chieut),
            24 => Some(Jongseong::Kieuk),
            25 => Some(Jongseong::Tieut),
            26 => Some(Jongseong::Pieup),
            27 => Some(Jongseong::Hieut),
            _ => None,
        }
    }
}

/// No two distinct variants share an ordinal.
pub proof fn lemma_jongseong_ordinal_injective(a: Jongseong, b: Jongseong)
    requires
        a.spec_ordinal() == b.spec_ordinal(),
    ensures
        a == b,
{
}

/// Every ordinal lies in the variant set's range.
pub proof fn lemma_jongseong_ordinal_bounds(a: Jongseong)
    ensures
        1 <= a.spec_ordinal() <= 27,
{
}

impl Character for Jongseong {
    open spec fn from_u32_post(v: u32, r: Option<Jongseong>) -> bool {
        match r {
            Some(x) => 0x11a8 <= v <= 0x11c2 && x.spec_ordinal() == v - 0x11a7,
            None => !(0x11a8 <= v <= 0x11c2),
        }
    }

    open spec fn char_post(&self, r: Option<char>) -> bool {
        match r {
            Some(c) => c as u32 == 0x11a7 + self.spec_ordinal(),
            None => false,
        }
    }

    fn from_u32(v: u32) -> (r: Option<Jongseong>) {
        if v < 0x11a7 {
            None
        } else {
            Jongseong::from_ordinal(v - 0x11a7)
        }
    }

    fn char(&self) -> (r: Option<char>) {
        char_from_u32(0x11a7 + self.ordinal())
    }
}

impl Codeblock for Jongseong {
    open spec fn spec_start_point() -> u32 {
        0x11a8
    }

    open spec fn spec_end_point() -> u32 {
        0x11c2
    }

    proof fn block_well_formed() {
    }

    fn start_point() -> u32 {
        0x11a8
    }

    fn end_point() -> u32 {
        0x11c2
    }

    fn count() -> usize {
        27
    }
}

} // verus!
