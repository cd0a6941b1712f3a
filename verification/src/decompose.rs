//! Syllable handling at the alphabet level: an eager decoded syllable, a lazy
//! per-query view, and an incremental builder, each able to render the
//! canonical decomposed (NFD-style) character sequence.

use vstd::prelude::*;
use crate::alphabet::{Conversion, Initial, Vowel, Final};
use crate::codec::{
    is_syllable_code, syllable_code_of, initial_ord_of, vowel_ord_of, final_ord_of,
    lemma_ord_bounds, lemma_decode_then_encode, lemma_encode_then_decode,
    lemma_initial_by_steps,
};
use crate::scalar::{char_from_u32, is_unicode_scalar, lemma_char_cast_injective, push_char};

verus! {

/// Syllable handling at the alphabet level.
pub trait Syllable: Conversion {
    /// Exactly what `initial` returns for this value.
    spec fn initial_post(&self, r: Option<Initial>) -> bool;

    /// Exactly what `peak` returns for this value.
    spec fn peak_post(&self, r: Option<Vowel>) -> bool;

    /// Exactly what `final_part` returns for this value.
    spec fn final_part_post(&self, r: Option<Final>) -> bool;

    /// On which values `final0` may be asked at all.
    spec fn final0_req(&self) -> bool;

    /// Exactly what `final0` returns for this value.
    spec fn final0_post(&self, r: Final) -> bool;

    /// Exactly what `NFD` returns for this value.
    spec fn nfd_post(&self, r: Option<String>) -> bool;

    /// The initial consonant, where one can be read off.
    fn initial(&self) -> (r: Option<Initial>)
        ensures
            self.initial_post(r),
    ;

    /// The peak (vowel), where one can be read off.
    fn peak(&self) -> (r: Option<Vowel>)
        ensures
            self.peak_post(r),
    ;

    /// The final consonant, where present; a blank final counts as absent.
    fn final_part(&self) -> (r: Option<Final>)
        ensures
            self.final_part_post(r),
    ;

    /// The final consonant, the blank variant standing in where none is
    /// present.
    fn final0(&self) -> (r: Final)
        requires
            self.final0_req(),
        ensures
            self.final0_post(r),
    ;

    /// The canonical decomposed rendering: one character per phoneme.
    fn NFD(&self) -> (r: Option<String>)
        ensures
            self.nfd_post(r),
    ;
}

/// A composed syllable held as its decoded alphabet triple.
///
/// Values exist only by decoding a valid syllable scalar, so every value
/// re-encodes to a scalar inside the syllable block.
pub struct ConcreteSyllable {
    initial: Initial,
    peak: Vowel,
    final_part: Final,
}

impl ConcreteSyllable {
    /// The stored initial consonant.
    pub closed spec fn spec_initial(self) -> Initial {
        self.initial
    }

    /// The stored peak.
    pub closed spec fn spec_peak(self) -> Vowel {
        self.peak
    }

    /// The stored final consonant, possibly the blank variant.
    pub closed spec fn spec_final(self) -> Final {
        self.final_part
    }

    /// The scalar this syllable encodes to.
    pub open spec fn spec_code(self) -> int {
        syllable_code_of(
            self.spec_initial().spec_ordinal(),
            self.spec_peak().spec_ordinal(),
            self.spec_final().spec_ordinal(),
        )
    }

    /// Decode the character `c`, going by its scalar value.
    pub fn from_char(c: char) -> (r: Option<ConcreteSyllable>)
        ensures
            <ConcreteSyllable as Conversion>::from_u32_post(c as u32, r),
    {
        ConcreteSyllable::from_u32(c as u32)
    }

    /// Decode the scalar `code` into its alphabet triple.
    pub fn from_u32(code: u32) -> (r: Option<ConcreteSyllable>)
        ensures
            <ConcreteSyllable as Conversion>::from_u32_post(code, r),
    {
        if code < 0xAC00 || code > 0xD7A3 {
            return None;
        }
        let base = code - 0xAC00;
        let final_part = Final::from_ordinal(base % 28).unwrap();
        let rest = base / 28;
        let peak = Vowel::from_ordinal(rest % 21).unwrap();
        let initial = Initial::from_ordinal((rest / 21) % 19).unwrap();
        proof {
            lemma_initial_by_steps(code as int);
            lemma_ord_bounds(code as int);
        }
        Some(ConcreteSyllable { initial, peak, final_part })
    }

    /// Render this syllable back to its composed character.
    pub fn char(&self) -> (r: Option<char>)
        ensures
            self.char_post(r),
    {
        char_from_u32(
            0xAC00 + self.final_part.ordinal() + 28 * (self.peak.ordinal() + 21
                * self.initial.ordinal()),
        )
    }

    /// The initial consonant.
    pub fn initial(&self) -> (r: Initial)
        ensures
            r == self.spec_initial(),
    {
        self.initial
    }

    /// The peak (vowel).
    pub fn peak(&self) -> (r: Vowel)
        ensures
            r == self.spec_peak(),
    {
        self.peak
    }

    /// The final consonant, the blank variant standing in where none is
    /// present.
    pub fn final0(&self) -> (r: Final)
        ensures
            r == self.spec_final(),
    {
        self.final_part
    }

    /// The decomposed character sequence of this syllable.
    fn build_nfd(&self) -> (r: String)
        ensures
            r@[0] as u32 == 0x1100 + self.spec_initial().spec_ordinal(),
            r@[1] as u32 == 0x1161 + self.spec_peak().spec_ordinal(),
            self.spec_final() == Final::FinalBlank ==> r@.len() == 2,
            self.spec_final() != Final::FinalBlank ==> r@.len() == 3 && r@[2] as u32 == 0x11A7
                + self.spec_final().spec_ordinal(),
    {
        let mut buf = String::new();
        let c0 = self.initial.char();
        push_char(&mut buf, c0.unwrap());
        let c1 = self.peak.char();
        push_char(&mut buf, c1.unwrap());
        if self.final_part != Final::FinalBlank {
            let c2 = self.final_part.char();
            push_char(&mut buf, c2.unwrap());
        }
        buf
    }
}

impl Conversion for ConcreteSyllable {
    open spec fn from_u32_post(v: u32, r: Option<ConcreteSyllable>) -> bool {
        match r {
            Some(s) => is_syllable_code(v as int)
                && s.spec_initial().spec_ordinal() == initial_ord_of(v as int)
                && s.spec_peak().spec_ordinal() == vowel_ord_of(v as int)
                && s.spec_final().spec_ordinal() == final_ord_of(v as int),
            None => !is_syllable_code(v as int),
        }
    }

    open spec fn char_post(&self, r: Option<char>) -> bool {
        match r {
            Some(c) => c as u32 == self.spec_code(),
            None => false,
        }
    }

    fn from_u32(v: u32) -> (r: Option<ConcreteSyllable>) {
        ConcreteSyllable::from_u32(v)
    }

    fn char(&self) -> (r: Option<char>) {
        ConcreteSyllable::char(self)
    }
}

impl Syllable for ConcreteSyllable {
    open spec fn initial_post(&self, r: Option<Initial>) -> bool {
        r == Some(self.spec_initial())
    }

    open spec fn peak_post(&self, r: Option<Vowel>) -> bool {
        r == Some(self.spec_peak())
    }

    open spec fn final_part_post(&self, r: Option<Final>) -> bool {
        r == if self.spec_final() == Final::FinalBlank {
            Option::<Final>::None
        } else {
            Some(self.spec_final())
        }
    }

    open spec fn final0_req(&self) -> bool {
        true
    }

    open spec fn final0_post(&self, r: Final) -> bool {
        r == self.spec_final()
    }

    open spec fn nfd_post(&self, r: Option<String>) -> bool {
        match r {
            Some(s) => s@[0] as u32 == 0x1100 + self.spec_initial().spec_ordinal() && s@[1]
                as u32 == 0x1161 + self.spec_peak().spec_ordinal() && (if self.spec_final()
                == Final::FinalBlank {
                s@.len() == 2
            } else {
                s@.len() == 3 && s@[2] as u32 == 0x11A7 + self.spec_final().spec_ordinal()
            }),
            None => false,
        }
    }

    fn initial(&self) -> (r: Option<Initial>) {
        Some(self.initial)
    }

    fn peak(&self) -> (r: Option<Vowel>) {
        Some(self.peak)
    }

    fn final_part(&self) -> (r: Option<Final>) {
        if self.final_part == Final::FinalBlank {
            None
        } else {
            Some(self.final_part)
        }
    }

    fn final0(&self) -> (r: Final) {
        self.final_part
    }

    fn NFD(&self) -> (r: Option<String>) {
        Some(self.build_nfd())
    }
}

/// A composed syllable held as its raw scalar; every query recomputes the
/// decoding arithmetic, and nothing is cached.
pub struct LazySyllable {
    data: u32,
}

impl LazySyllable {
    /// The stored raw scalar.
    pub closed spec fn spec_data(self) -> u32 {
        self.data
    }

    /// Decode the character `c`, going by its scalar value.
    pub fn from_char(c: char) -> (r: Option<LazySyllable>)
        ensures
            <LazySyllable as Conversion>::from_u32_post(c as u32, r),
    {
        Some(LazySyllable { data: c as u32 })
    }
}

impl Conversion for LazySyllable {
    open spec fn from_u32_post(v: u32, r: Option<LazySyllable>) -> bool {
        match r {
            Some(s) => s.spec_data() == v,
            None => false,
        }
    }

    open spec fn char_post(&self, r: Option<char>) -> bool {
        match r {
            Some(c) => c as u32 == self.spec_data(),
            None => !is_unicode_scalar(self.spec_data() as int),
        }
    }

    fn from_u32(v: u32) -> (r: Option<LazySyllable>) {
        Some(LazySyllable { data: v })
    }

    fn char(&self) -> (r: Option<char>) {
        char_from_u32(self.data)
    }
}

impl Syllable for LazySyllable {
    open spec fn initial_post(&self, r: Option<Initial>) -> bool {
        let d = self.spec_data() as int;
        match r {
            Some(x) => is_syllable_code(d) && x.spec_ordinal() == initial_ord_of(d),
            None => !is_syllable_code(d),
        }
    }

    open spec fn peak_post(&self, r: Option<Vowel>) -> bool {
        let d = self.spec_data() as int;
        match r {
            Some(x) => d >= 0xAC00 && x.spec_ordinal() == vowel_ord_of(d),
            None => d < 0xAC00,
        }
    }

    open spec fn final_part_post(&self, r: Option<Final>) -> bool {
        let d = self.spec_data() as int;
        match r {
            Some(x) => d >= 0xAC00 && x.spec_ordinal() == final_ord_of(d) && final_ord_of(d)
                != 0,
            None => d < 0xAC00 || final_ord_of(d) == 0,
        }
    }

    open spec fn final0_req(&self) -> bool {
        self.spec_data() >= 0xAC00
    }

    open spec fn final0_post(&self, r: Final) -> bool {
        r.spec_ordinal() == final_ord_of(self.spec_data() as int)
    }

    open spec fn nfd_post(&self, r: Option<String>) -> bool {
        let d = self.spec_data() as int;
        match r {
            Some(s) => is_syllable_code(d) && s@[0] as u32 == 0x1100 + initial_ord_of(d)
                && s@[1] as u32 == 0x1161 + vowel_ord_of(d) && (if final_ord_of(d) == 0 {
                s@.len() == 2
            } else {
                s@.len() == 3 && s@[2] as u32 == 0x11A7 + final_ord_of(d)
            }),
            None => !is_syllable_code(d),
        }
    }

    fn initial(&self) -> (r: Option<Initial>) {
        if self.data < 0xAC00 {
            return None;
        }
        let code = (self.data - 0xAC00) / 588;
        proof {
            lemma_initial_by_steps(self.data as int);
            if is_syllable_code(self.data as int) {
                lemma_ord_bounds(self.data as int);
            }
        }
        Initial::from_ordinal(code)
    }

    fn peak(&self) -> (r: Option<Vowel>) {
        if self.data < 0xAC00 {
            return None;
        }
        let code = (self.data - 0xAC00) / 28 % 21;
        Vowel::from_ordinal(code)
    }

    fn final_part(&self) -> (r: Option<Final>) {
        if self.data < 0xAC00 {
            return None;
        }
        let code = (self.data - 0xAC00) % 28;
        if code == 0 {
            None
        } else {
            Final::from_ordinal(code)
        }
    }

    fn final0(&self) -> (r: Final) {
        let code = (self.data - 0xAC00) % 28;
        Final::from_ordinal(code).unwrap()
    }

    fn NFD(&self) -> (r: Option<String>) {
        match ConcreteSyllable::from_u32(self.data) {
            Some(syl) => Some(syl.build_nfd()),
            None => None,
        }
    }
}

/// An optionally-incomplete alphabet triple: each slot may be set or cleared
/// independently, and rendering to a character succeeds only once both the
/// initial consonant and the peak are present.
pub struct SyllableBuilder {
    pub initial: Option<Initial>,
    pub peak: Option<Vowel>,
    pub final_part: Option<Final>,
}

impl SyllableBuilder {
    /// A builder with every slot empty.
    pub fn new() -> (r: SyllableBuilder)
        ensures
            r.initial is None,
            r.peak is None,
            r.final_part is None,
    {
        SyllableBuilder { initial: None, peak: None, final_part: None }
    }

    /// A builder with the slots set as given.
    pub fn from_alphabet(
        initial: Option<Initial>,
        peak: Option<Vowel>,
        final_part: Option<Final>,
    ) -> (r: SyllableBuilder)
        ensures
            r.initial == initial,
            r.peak == peak,
            r.final_part == final_part,
    {
        SyllableBuilder { initial, peak, final_part }
    }

    /// The final-consonant code of the builder: 0 when the slot is empty or
    /// holds the blank variant, else the ordinal.
    pub open spec fn spec_final_code(self) -> int {
        match self.final_part {
            Some(f) => f.spec_ordinal(),
            None => 0,
        }
    }

    /// The final slot as a true option: a stored blank variant counts as
    /// absent.
    pub open spec fn spec_final_view(self) -> Option<Final> {
        match self.final_part {
            Some(Final::FinalBlank) => None,
            x => x,
        }
    }
}

impl Conversion for SyllableBuilder {
    open spec fn from_u32_post(v: u32, r: Option<SyllableBuilder>) -> bool {
        match r {
            Some(b) => is_syllable_code(v as int)
                && (b.initial matches Some(i) && i.spec_ordinal() == initial_ord_of(v as int))
                && (b.peak matches Some(p) && p.spec_ordinal() == vowel_ord_of(v as int))
                && (match b.final_part {
                    Some(f) => f.spec_ordinal() == final_ord_of(v as int) && final_ord_of(
                        v as int,
                    ) != 0,
                    None => final_ord_of(v as int) == 0,
                }),
            None => !is_syllable_code(v as int),
        }
    }

    open spec fn char_post(&self, r: Option<char>) -> bool {
        match (self.initial, self.peak) {
            (Some(i), Some(p)) => (r matches Some(c) && c as u32 == syllable_code_of(
                i.spec_ordinal(),
                p.spec_ordinal(),
                self.spec_final_code(),
            )),
            _ => r is None,
        }
    }

    fn from_u32(v: u32) -> (r: Option<SyllableBuilder>) {
        match ConcreteSyllable::from_u32(v) {
            Some(syl) => {
                let f = syl.final0();
                Some(
                    SyllableBuilder {
                        initial: Some(syl.initial()),
                        peak: Some(syl.peak()),
                        final_part: if f == Final::FinalBlank {
                            None
                        } else {
                            Some(f)
                        },
                    },
                )
            },
            None => None,
        }
    }

    fn char(&self) -> (r: Option<char>) {
        match (self.initial, self.peak) {
            (Some(initial), Some(peak)) => {
                let final_part = match self.final_part {
                    Some(f) => f,
                    None => Final::FinalBlank,
                };
                ConcreteSyllable::char(&ConcreteSyllable { initial, peak, final_part })
            },
            _ => None,
        }
    }
}

impl Syllable for SyllableBuilder {
    open spec fn initial_post(&self, r: Option<Initial>) -> bool {
        r == self.initial
    }

    open spec fn peak_post(&self, r: Option<Vowel>) -> bool {
        r == self.peak
    }

    open spec fn final_part_post(&self, r: Option<Final>) -> bool {
        r == self.spec_final_view()
    }

    open spec fn final0_req(&self) -> bool {
        true
    }

    open spec fn final0_post(&self, r: Final) -> bool {
        r == match self.final_part {
            Some(f) => f,
            None => Final::FinalBlank,
        }
    }

    open spec fn nfd_post(&self, r: Option<String>) -> bool {
        if self.initial is None && self.peak is None && self.spec_final_view() is None {
            r is None
        } else {
            (r matches Some(s) && s@[0] as u32 == (match self.initial {
                Some(i) => 0x1100 + i.spec_ordinal(),
                None => 0x115F,
            }) && s@[1] as u32 == (match self.peak {
                Some(p) => 0x1161 + p.spec_ordinal(),
                None => 0x1160,
            }) && (match self.spec_final_view() {
                Some(f) => s@.len() == 3 && s@[2] as u32 == 0x11A7 + f.spec_ordinal(),
                None => s@.len() == 2,
            }))
        }
    }

    fn initial(&self) -> (r: Option<Initial>) {
        self.initial
    }

    fn peak(&self) -> (r: Option<Vowel>) {
        self.peak
    }

    fn final_part(&self) -> (r: Option<Final>) {
        match self.final_part {
            Some(f) => if f == Final::FinalBlank {
                None
            } else {
                Some(f)
            },
            None => None,
        }
    }

    fn final0(&self) -> (r: Final) {
        match self.final_part {
            Some(f) => f,
            None => Final::FinalBlank,
        }
    }

    fn NFD(&self) -> (r: Option<String>) {
        let fin = match self.final_part {
            Some(f) => if f == Final::FinalBlank {
                None
            } else {
                Some(f)
            },
            None => None,
        };
        if self.initial.is_none() && self.peak.is_none() && fin.is_none() {
            return None;
        }
        let mut buf = String::new();
        match self.initial {
            Some(i) => {
                let c = i.char();
                push_char(&mut buf, c.unwrap());
            },
            None => {
                push_char(&mut buf, crate::jamo_initial_filler);
            },
        }
        match self.peak {
            Some(p) => {
                let c = p.char();
                push_char(&mut buf, c.unwrap());
            },
            None => {
                push_char(&mut buf, crate::jamo_peak_filler);
            },
        }
        match fin {
            Some(f) => {
                let c = f.char();
                push_char(&mut buf, c.unwrap());
            },
            None => {},
        }
        Some(buf)
    }
}

/// Round trip: a syllable decoded from any scalar of the syllable block
/// re-encodes to exactly that scalar, so `char` hands back the character the
/// syllable was decoded from.
pub proof fn lemma_decomposed_round_trip(v: u32, s: ConcreteSyllable)
    requires
        <ConcreteSyllable as Conversion>::from_u32_post(v, Some(s)),
    ensures
        s.spec_code() == v,
{
    lemma_decode_then_encode(v as int);
}

/// Round trip the other way: a syllable built from an in-range alphabet
/// triple decodes back to exactly that triple.
pub proof fn lemma_decomposed_parts_round_trip(s: ConcreteSyllable, v: u32)
    requires
        v == s.spec_code(),
    ensures
        <ConcreteSyllable as Conversion>::from_u32_post(v, Some(s)),
{
    let c = s.spec_initial().spec_ordinal();
    let w = s.spec_peak().spec_ordinal();
    let t = s.spec_final().spec_ordinal();
    crate::alphabet::lemma_initial_ordinal_bounds(s.spec_initial());
    crate::alphabet::lemma_vowel_ordinal_bounds(s.spec_peak());
    crate::alphabet::lemma_final_ordinal_bounds(s.spec_final());
    crate::codec::lemma_code_in_range(c, w, t);
    lemma_encode_then_decode(c, w, t);
}

/// Round trip for the lazy view: a lazy syllable holding any scalar of the
/// syllable block renders back exactly the character it was made from.
pub proof fn lemma_lazy_decomposed_round_trip(v: u32, l: LazySyllable, r: Option<char>)
    requires
        is_syllable_code(v as int),
        <LazySyllable as Conversion>::from_u32_post(v, Some(l)),
        l.char_post(r),
    ensures
        r matches Some(c) && c as u32 == v,
{
}

/// Cross-view agreement: for one syllable scalar, the eager representation
/// and the lazy view return the same initial, the same peak, the same final,
/// and decomposed renderings with the same characters.
pub proof fn lemma_decomposed_views_agree(
    v: u32,
    s: ConcreteSyllable,
    l: LazySyllable,
    si: Option<Initial>,
    li: Option<Initial>,
    sp: Option<Vowel>,
    lp: Option<Vowel>,
    sf: Option<Final>,
    lf: Option<Final>,
    sn: Option<String>,
    ln: Option<String>,
)
    requires
        is_syllable_code(v as int),
        <ConcreteSyllable as Conversion>::from_u32_post(v, Some(s)),
        <LazySyllable as Conversion>::from_u32_post(v, Some(l)),
        s.initial_post(si),
        l.initial_post(li),
        s.peak_post(sp),
        l.peak_post(lp),
        s.final_part_post(sf),
        l.final_part_post(lf),
        s.nfd_post(sn),
        l.nfd_post(ln),
    ensures
        si == li,
        sp == lp,
        sf == lf,
        sn is Some && ln is Some,
        sn matches Some(a) && ln matches Some(b) && a@ == b@,
{
    lemma_ord_bounds(v as int);
    crate::alphabet::lemma_initial_ordinal_injective(s.spec_initial(), li.unwrap());
    crate::alphabet::lemma_vowel_ordinal_injective(s.spec_peak(), lp.unwrap());
    crate::alphabet::lemma_final_ordinal_bounds(s.spec_final());
    match (sf, lf) {
        (Some(a), Some(b)) => {
            crate::alphabet::lemma_final_ordinal_injective(a, b);
        },
        (_, _) => {},
    }
    let a = sn.unwrap();
    let b = ln.unwrap();
    assert(a@.len() == b@.len());
    assert forall|i: int| 0 <= i < a@.len() implies a@[i] == b@[i] by {
        if i == 0 {
            assert(a@[0] as u32 == b@[0] as u32);
            lemma_char_cast_injective(a@[0], b@[0]);
        } else if i == 1 {
            assert(a@[1] as u32 == b@[1] as u32);
            lemma_char_cast_injective(a@[1], b@[1]);
        } else {
            assert(a@[2] as u32 == b@[2] as u32);
            lemma_char_cast_injective(a@[2], b@[2]);
        }
    }
    assert(a@ =~= b@);
}

/// A builder holding only an initial consonant cannot render a composed
/// character, yet still renders a decomposed sequence: the initial's jamo
/// followed by the peak filler.
pub proof fn lemma_builder_partiality(
    b: SyllableBuilder,
    i: Initial,
    r: Option<char>,
    n: Option<String>,
)
    requires
        b.initial == Some(i),
        b.peak is None,
        b.final_part is None,
        b.char_post(r),
        b.nfd_post(n),
    ensures
        r is None,
        n matches Some(s) && s@.len() == 2 && s@[0] as u32 == 0x1100 + i.spec_ordinal()
            && s@[1] as u32 == 0x1160,
{
}

} // verus!
