//! Composed syllables at the phoneme level: an eager decoded representation,
//! a lazy per-query view of the same arithmetic, and an incremental builder.

use vstd::prelude::*;
use crate::codec::{
    is_syllable_code, syllable_code_of, initial_ord_of, vowel_ord_of, final_ord_of,
    lemma_ord_bounds, lemma_decode_then_encode, lemma_encode_then_decode,
    lemma_initial_by_steps,
};
use crate::jamo::{
    Character, Codeblock, Choseong, Jungseong, Jongseong,
    lemma_choseong_ordinal_injective, lemma_jungseong_ordinal_injective,
    lemma_jongseong_ordinal_injective, lemma_jongseong_ordinal_bounds,
};
use crate::scalar::{char_from_u32, is_unicode_scalar};

verus! {

/// A single conjoining jamo, tagged by its role within a syllable.
#[derive(Copy, Clone, Debug)]
pub enum Alphabet {
    Choseong(Choseong),
    Jungseong(Jungseong),
    Jongseong(Jongseong),
}

/// Syllable handling at the phoneme level.
pub trait Syllable: Character {
    /// Exactly what `choseong` returns for this value.
    spec fn choseong_post(&self, r: Option<Choseong>) -> bool;

    /// Exactly what `jungseong` returns for this value.
    spec fn jungseong_post(&self, r: Option<Jungseong>) -> bool;

    /// Exactly what `jongseong` returns for this value.
    spec fn jongseong_post(&self, r: Option<Jongseong>) -> bool;

    /// The leading consonant, where one can be read off.
    fn choseong(&self) -> (r: Option<Choseong>)
        ensures
            self.choseong_post(r),
    ;

    /// The vowel, where one can be read off.
    fn jungseong(&self) -> (r: Option<Jungseong>)
        ensures
            self.jungseong_post(r),
    ;

    /// The trailing consonant, where present.
    fn jongseong(&self) -> (r: Option<Jongseong>)
        ensures
            self.jongseong_post(r),
    ;
}

/// A composed syllable held as its decoded phoneme triple.
///
/// Values exist only by decoding a valid syllable scalar, so every value
/// re-encodes to a scalar inside the syllable block.
#[derive(Debug)]
pub struct ModernSyllable {
    choseong: Choseong,
    jungseong: Jungseong,
    jongseong: Option<Jongseong>,
}

impl ModernSyllable {
    /// The stored leading consonant.
    pub closed spec fn spec_choseong(self) -> Choseong {
        self.choseong
    }

    /// The stored vowel.
    pub closed spec fn spec_jungseong(self) -> Jungseong {
        self.jungseong
    }

    /// The stored trailing consonant, if any.
    pub closed spec fn spec_jongseong(self) -> Option<Jongseong> {
        self.jongseong
    }

    /// The trailing-consonant code: 0 when absent, else the ordinal.
    pub open spec fn spec_jong_code(self) -> int {
        match self.spec_jongseong() {
            Some(t) => t.spec_ordinal(),
            None => 0,
        }
    }

    /// The scalar this syllable encodes to.
    pub open spec fn spec_code(self) -> int {
        syllable_code_of(
            self.spec_choseong().spec_ordinal(),
            self.spec_jungseong().spec_ordinal(),
            self.spec_jong_code(),
        )
    }

    /// The leading consonant.
    pub fn choseong(&self) -> (r: Choseong)
        ensures
            r == self.spec_choseong(),
    {
        self.choseong
    }

    /// The vowel.
    pub fn jungseong(&self) -> (r: Jungseong)
        ensures
            r == self.spec_jungseong(),
    {
        self.jungseong
    }

    /// The trailing consonant, where present.
    pub fn jongseong(&self) -> (r: Option<Jongseong>)
        ensures
            r == self.spec_jongseong(),
    {
        self.jongseong
    }
}

impl Character for ModernSyllable {
    open spec fn from_u32_post(v: u32, r: Option<ModernSyllable>) -> bool {
        match r {
            Some(s) => is_syllable_code(v as int)
                && s.spec_choseong().spec_ordinal() == initial_ord_of(v as int)
                && s.spec_jungseong().spec_ordinal() == vowel_ord_of(v as int)
                && s.spec_jong_code() == final_ord_of(v as int),
            None => !is_syllable_code(v as int),
        }
    }

    open spec fn char_post(&self, r: Option<char>) -> bool {
        match r {
            Some(c) => c as u32 == self.spec_code(),
            None => false,
        }
    }

    fn from_u32(code: u32) -> (r: Option<ModernSyllable>) {
        if code < 0xAC00 || code > 0xD7A3 {
            return None;
        }
        let base = code - 0xAC00;
        let jongseong = Jongseong::from_ordinal(base % 28);
        let rest = base / 28;
        let jungseong = Jungseong::from_ordinal(rest % 21).unwrap();
        let choseong = Choseong::from_ordinal((rest / 21) % 19).unwrap();
        proof {
            lemma_initial_by_steps(code as int);
            lemma_ord_bounds(code as int);
        }
        Some(ModernSyllable { choseong, jungseong, jongseong })
    }

    fn char(&self) -> (r: Option<char>) {
        let jongseong_value: u32 = match self.jongseong {
            Some(jongseong) => jongseong.ordinal(),
            None => 0,
        };
        char_from_u32(
            0xAC00 + jongseong_value + 28 * (self.jungseong.ordinal() + 21 * self.choseong.ordinal()),
        )
    }
}

impl Codeblock for ModernSyllable {
    open spec fn spec_start_point() -> u32 {
        0xAC00
    }

    open spec fn spec_end_point() -> u32 {
        0xD7A3
    }

    proof fn block_well_formed() {
    }

    fn start_point() -> u32 {
        0xAC00
    }

    fn end_point() -> u32 {
        0xD7A3
    }

    fn count() -> usize {
        11172
    }
}

impl Syllable for ModernSyllable {
    open spec fn choseong_post(&self, r: Option<Choseong>) -> bool {
        r == Some(self.spec_choseong())
    }

    open spec fn jungseong_post(&self, r: Option<Jungseong>) -> bool {
        r == Some(self.spec_jungseong())
    }

    open spec fn jongseong_post(&self, r: Option<Jongseong>) -> bool {
        r == self.spec_jongseong()
    }

    fn choseong(&self) -> (r: Option<Choseong>) {
        Some(self.choseong)
    }

    fn jungseong(&self) -> (r: Option<Jungseong>) {
        Some(self.jungseong)
    }

    fn jongseong(&self) -> (r: Option<Jongseong>) {
        self.jongseong
    }
}

/// A composed syllable held as its raw scalar; every query recomputes the
/// decoding arithmetic, and nothing is cached.
#[derive(Debug)]
pub struct LazySyllable {
    data: u32,
}

impl LazySyllable {
    /// The stored raw scalar.
    pub closed spec fn spec_data(self) -> u32 {
        self.data
    }
}

impl Character for LazySyllable {
    open spec fn from_u32_post(v: u32, r: Option<LazySyllable>) -> bool {
        match r {
            Some(s) => s.spec_data() == v,
            None => false,
        }
    }

    open spec fn char_post(&self, r: Option<char>) -> bool {
        match r {
            Some(c) => c as u32 == self.spec_data(),
            None => !is_unicode_scalar(self.spec_data() as int),
        }
    }

    fn from_u32(code: u32) -> (r: Option<LazySyllable>) {
        Some(LazySyllable { data: code })
    }

    fn char(&self) -> (r: Option<char>) {
        char_from_u32(self.data)
    }
}

impl Syllable for LazySyllable {
    open spec fn choseong_post(&self, r: Option<Choseong>) -> bool {
        let d = self.spec_data() as int;
        match r {
            Some(x) => is_syllable_code(d) && x.spec_ordinal() == initial_ord_of(d),
            None => !is_syllable_code(d),
        }
    }

    open spec fn jungseong_post(&self, r: Option<Jungseong>) -> bool {
        let d = self.spec_data() as int;
        match r {
            Some(x) => d >= 0xAC00 && x.spec_ordinal() == vowel_ord_of(d),
            None => d < 0xAC00,
        }
    }

    open spec fn jongseong_post(&self, r: Option<Jongseong>) -> bool {
        let d = self.spec_data() as int;
        match r {
            Some(x) => d >= 0xAC00 && x.spec_ordinal() == final_ord_of(d) && final_ord_of(d) != 0,
            None => d < 0xAC00 || final_ord_of(d) == 0,
        }
    }

    fn choseong(&self) -> (r: Option<Choseong>) {
        if self.data < 0xAC00 {
            return None;
        }
        let code = (self.data - 0xAC00) / 588;
        proof {
            lemma_initial_by_steps(self.data as int);
            if is_syllable_code(self.data as int) {
                lemma_ord_bounds(self.data as int);
            }
        }
        Choseong::from_ordinal(code)
    }

    fn jungseong(&self) -> (r: Option<Jungseong>) {
        if self.data < 0xAC00 {
            return None;
        }
        let code = (self.data - 0xAC00) / 28 % 21;
        Jungseong::from_ordinal(code)
    }

    fn jongseong(&self) -> (r: Option<Jongseong>) {
        if self.data < 0xAC00 {
            return None;
        }
        let code = (self.data - 0xAC00) % 28;
        Jongseong::from_ordinal(code)
    }
}

/// An optionally-incomplete phoneme triple: each slot may be set or cleared
/// independently, and rendering to a character succeeds only once both the
/// leading consonant and the vowel are present.
pub struct SyllableBuilder {
    pub choseong: Option<Choseong>,
    pub jungseong: Option<Jungseong>,
    pub jongseong: Option<Jongseong>,
}

impl SyllableBuilder {
    /// A builder with every slot empty.
    pub fn new() -> (r: SyllableBuilder)
        ensures
            r.choseong is None,
            r.jungseong is None,
            r.jongseong is None,
    {
        SyllableBuilder { choseong: None, jungseong: None, jongseong: None }
    }

    /// A builder with the slots set as given.
    pub fn from_alphabet(
        choseong: Option<Choseong>,
        jungseong: Option<Jungseong>,
        jongseong: Option<Jongseong>,
    ) -> (r: SyllableBuilder)
        ensures
            r.choseong == choseong,
            r.jungseong == jungseong,
            r.jongseong == jongseong,
    {
        SyllableBuilder { choseong, jungseong, jongseong }
    }

    /// The trailing-consonant code of the builder: 0 when the slot is empty,
    /// else the ordinal.
    pub open spec fn spec_jong_code(self) -> int {
        match self.jongseong {
            Some(t) => t.spec_ordinal(),
            None => 0,
        }
    }
}

impl Character for SyllableBuilder {
    open spec fn from_u32_post(v: u32, r: Option<SyllableBuilder>) -> bool {
        match r {
            Some(b) => is_syllable_code(v as int)
                && (b.choseong matches Some(c) && c.spec_ordinal() == initial_ord_of(v as int))
                && (b.jungseong matches Some(x) && x.spec_ordinal() == vowel_ord_of(v as int))
                && b.spec_jong_code() == final_ord_of(v as int),
            None => !is_syllable_code(v as int),
        }
    }

    open spec fn char_post(&self, r: Option<char>) -> bool {
        match (self.choseong, self.jungseong) {
            (Some(c), Some(v)) => (r matches Some(ch) && ch as u32 == syllable_code_of(
                c.spec_ordinal(),
                v.spec_ordinal(),
                self.spec_jong_code(),
            )),
            _ => r is None,
        }
    }

    fn from_u32(code: u32) -> (r: Option<SyllableBuilder>) {
        let opt = ModernSyllable::from_u32(code);
        match opt {
            Some(syl) => Some(
                SyllableBuilder {
                    choseong: Some(syl.choseong),
                    jungseong: Some(syl.jungseong),
                    jongseong: syl.jongseong,
                },
            ),
            None => None,
        }
    }

    fn char(&self) -> (r: Option<char>) {
        match (self.choseong, self.jungseong) {
            (Some(choseong), Some(jungseong)) => ModernSyllable {
                choseong,
                jungseong,
                jongseong: self.jongseong,
            }.char(),
            _ => None,
        }
    }
}

impl Syllable for SyllableBuilder {
    open spec fn choseong_post(&self, r: Option<Choseong>) -> bool {
        r == self.choseong
    }

    open spec fn jungseong_post(&self, r: Option<Jungseong>) -> bool {
        r == self.jungseong
    }

    open spec fn jongseong_post(&self, r: Option<Jongseong>) -> bool {
        r == self.jongseong
    }

    fn choseong(&self) -> (r: Option<Choseong>) {
        self.choseong
    }

    fn jungseong(&self) -> (r: Option<Jungseong>) {
        self.jungseong
    }

    fn jongseong(&self) -> (r: Option<Jongseong>) {
        self.jongseong
    }
}

/// Round trip: a syllable decoded from any scalar of the syllable block
/// re-encodes to exactly that scalar, so `char` hands back the character the
/// syllable was decoded from.
pub proof fn lemma_syllable_round_trip(v: u32, s: ModernSyllable)
    requires
        ModernSyllable::from_u32_post(v, Some(s)),
    ensures
        s.spec_code() == v,
{
    lemma_decode_then_encode(v as int);
}

/// Round trip the other way: a syllable built from an in-range phoneme
/// triple decodes back to exactly that triple.
pub proof fn lemma_syllable_parts_round_trip(s: ModernSyllable, v: u32)
    requires
        v == s.spec_code(),
    ensures
        ModernSyllable::from_u32_post(v, Some(s)),
{
    let c = s.spec_choseong().spec_ordinal();
    let w = s.spec_jungseong().spec_ordinal();
    let t = s.spec_jong_code();
    crate::jamo::lemma_choseong_ordinal_bounds(s.spec_choseong());
    crate::jamo::lemma_jungseong_ordinal_bounds(s.spec_jungseong());
    if let Some(j) = s.spec_jongseong() {
        lemma_jongseong_ordinal_bounds(j);
    }
    crate::codec::lemma_code_in_range(c, w, t);
    lemma_encode_then_decode(c, w, t);
}

/// Round trip for the lazy view: a lazy syllable holding any scalar of the
/// syllable block renders back exactly the character it was made from.
pub proof fn lemma_lazy_round_trip(v: u32, l: LazySyllable, r: Option<char>)
    requires
        is_syllable_code(v as int),
        LazySyllable::from_u32_post(v, Some(l)),
        l.char_post(r),
    ensures
        r matches Some(c) && c as u32 == v,
{
}

/// Cross-view agreement: for one syllable scalar, the eager representation
/// and the lazy view return the same leading consonant, the same vowel and
/// the same trailing consonant.
pub proof fn lemma_views_agree(
    v: u32,
    s: ModernSyllable,
    l: LazySyllable,
    sc: Option<Choseong>,
    lc: Option<Choseong>,
    sv: Option<Jungseong>,
    lv: Option<Jungseong>,
    st: Option<Jongseong>,
    lt: Option<Jongseong>,
)
    requires
        is_syllable_code(v as int),
        ModernSyllable::from_u32_post(v, Some(s)),
        LazySyllable::from_u32_post(v, Some(l)),
        s.choseong_post(sc),
        l.choseong_post(lc),
        s.jungseong_post(sv),
        l.jungseong_post(lv),
        s.jongseong_post(st),
        l.jongseong_post(lt),
    ensures
        sc == lc,
        sv == lv,
        st == lt,
{
    lemma_ord_bounds(v as int);
    lemma_choseong_ordinal_injective(s.spec_choseong(), lc.unwrap());
    lemma_jungseong_ordinal_injective(s.spec_jungseong(), lv.unwrap());
    match (st, lt) {
        (Some(a), Some(b)) => {
            lemma_jongseong_ordinal_injective(a, b);
        },
        (Some(a), None) => {
            lemma_jongseong_ordinal_bounds(a);
        },
        (None, Some(b)) => {
            lemma_jongseong_ordinal_bounds(b);
        },
        (None, None) => {},
    }
}

} // verus!
