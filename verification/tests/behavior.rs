use hangeul::jamo::{Character, Codeblock};
use hangeul::syllable::Syllable;
use hangeul::{Choseong, Class, DataClass, Hangeul, HangeulSyllable, Jongseong, Jungseong, Modernity};

#[test]
fn modern_decomposes_ieung_a() {
    let syl = hangeul::ModernSyllable::from_u32(0xC544).unwrap();
    assert_eq!(syl.choseong(), Choseong::Ieung);
    assert_eq!(syl.choseong().ordinal(), 11);
    assert_eq!(syl.jungseong(), Jungseong::A);
    assert_eq!(syl.jungseong().ordinal(), 0);
    assert_eq!(syl.jongseong(), None);
    assert_eq!(Character::char(&syl), Some('\u{c544}'));
}

#[test]
fn modern_decomposes_hieut_ui() {
    let syl = hangeul::ModernSyllable::from_char('희').unwrap();
    assert_eq!(syl.choseong(), Choseong::Hieut);
    assert_eq!(syl.choseong().ordinal(), 18);
    assert_eq!(syl.jungseong(), Jungseong::Ui);
    assert_eq!(syl.jungseong().ordinal(), 19);
    assert_eq!(syl.jongseong(), None);
    assert_eq!(Character::char(&syl).unwrap() as u32, 0xD76C);
}

#[test]
fn modern_decomposes_trailing_consonant() {
    let syl = hangeul::ModernSyllable::from_char('방').unwrap();
    assert_eq!(syl.choseong(), Choseong::Bieup);
    assert_eq!(syl.jungseong(), Jungseong::A);
    assert_eq!(syl.jongseong(), Some(Jongseong::Ieung));
    assert_eq!(syl.jongseong().unwrap().ordinal(), 21);
    assert_eq!(Character::char(&syl), Some('방'));
}

#[test]
fn modern_rejects_out_of_block() {
    assert!(hangeul::ModernSyllable::from_u32(0xABFF).is_none());
    assert!(hangeul::ModernSyllable::from_u32(0xD7A4).is_none());
    assert!(hangeul::ModernSyllable::from_u32(0x41).is_none());
    assert!(hangeul::ModernSyllable::from_u32(0xAC00).is_some());
    assert!(hangeul::ModernSyllable::from_u32(0xD7A3).is_some());
}

#[test]
fn modern_round_trips_every_scalar() {
    for v in 0xAC00u32..=0xD7A3u32 {
        let syl = hangeul::ModernSyllable::from_u32(v).unwrap();
        assert_eq!(Character::char(&syl).unwrap() as u32, v);
        assert!(syl.choseong().ordinal() <= 18);
        assert!(syl.jungseong().ordinal() <= 20);
        if let Some(j) = syl.jongseong() {
            let n = j.ordinal();
            assert!(1 <= n && n <= 27);
        }
    }
}

#[test]
fn lazy_view_agrees_with_modern_everywhere() {
    for v in 0xAC00u32..=0xD7A3u32 {
        let esyl = hangeul::ModernSyllable::from_u32(v).unwrap();
        let lsyl = hangeul::syllable::LazySyllable::from_u32(v).unwrap();
        assert_eq!(Character::char(&lsyl).unwrap() as u32, v);
        assert_eq!(Syllable::choseong(&esyl), Syllable::choseong(&lsyl));
        assert_eq!(Syllable::jungseong(&esyl), Syllable::jungseong(&lsyl));
        assert_eq!(Syllable::jongseong(&esyl), Syllable::jongseong(&lsyl));
    }
}

#[test]
fn lazy_view_out_of_block() {
    let low = hangeul::syllable::LazySyllable::from_u32(0x41).unwrap();
    assert_eq!(Syllable::choseong(&low), None);
    assert_eq!(Syllable::jungseong(&low), None);
    assert_eq!(Syllable::jongseong(&low), None);
    assert_eq!(Character::char(&low), Some('A'));

    let high = hangeul::syllable::LazySyllable::from_u32(0xD7A4).unwrap();
    assert_eq!(Syllable::choseong(&high), None);
    assert_eq!(Syllable::jungseong(&high), Some(Jungseong::A));
    assert_eq!(Syllable::jongseong(&high), None);
}

#[test]
fn modern_builder_needs_both_leading_parts() {
    let empty = hangeul::syllable::SyllableBuilder::new();
    assert!(Character::char(&empty).is_none());

    let only_cho = hangeul::syllable::SyllableBuilder::from_alphabet(
        Some(Choseong::Ieung),
        None,
        None,
    );
    assert!(Character::char(&only_cho).is_none());

    let complete = hangeul::syllable::SyllableBuilder::from_alphabet(
        Some(Choseong::Ieung),
        Some(Jungseong::A),
        None,
    );
    assert_eq!(Character::char(&complete), Some('아'));

    let built = hangeul::syllable::SyllableBuilder::from_u32('방' as u32).unwrap();
    assert_eq!(built.choseong, Some(Choseong::Bieup));
    assert_eq!(built.jungseong, Some(Jungseong::A));
    assert_eq!(built.jongseong, Some(Jongseong::Ieung));
    assert_eq!(Character::char(&built), Some('방'));
}

#[test]
fn jamo_blocks_and_conversions() {
    assert_eq!(Choseong::from_u32(0x1100), Some(Choseong::Giyeok));
    assert_eq!(Choseong::from_u32(0x1112), Some(Choseong::Hieut));
    assert_eq!(Choseong::from_u32(0x10FF), None);
    assert_eq!(Choseong::from_u32(0x1113), None);
    assert_eq!(Choseong::from_char('\u{1107}'), Some(Choseong::Bieup));
    assert_eq!(Character::char(&Choseong::Giyeok), Some('\u{1100}'));

    assert_eq!(Jungseong::from_u32(0x1161), Some(Jungseong::A));
    assert_eq!(Jungseong::from_u32(0x1175), Some(Jungseong::I));
    assert_eq!(Jungseong::from_u32(0x1160), None);
    assert_eq!(Jungseong::from_u32(0x1176), None);
    assert_eq!(Character::char(&Jungseong::I), Some('\u{1175}'));

    assert_eq!(Jongseong::from_u32(0x11A8), Some(Jongseong::Giyeok));
    assert_eq!(Jongseong::from_u32(0x11C2), Some(Jongseong::Hieut));
    assert_eq!(Jongseong::from_u32(0x11A7), None);
    assert_eq!(Jongseong::from_u32(0x11C3), None);
    assert_eq!(Jongseong::Giyeok.ordinal(), 1);
    assert_eq!(Character::char(&Jongseong::Giyeok), Some('\u{11a8}'));
    assert_eq!(Character::char(&Jongseong::Hieut), Some('\u{11c2}'));

    assert_eq!(Choseong::from_ordinal(19), None);
    assert_eq!(Jungseong::from_ordinal(21), None);
    assert_eq!(Jongseong::from_ordinal(0), None);
    assert_eq!(Jongseong::from_ordinal(28), None);

    assert_eq!(Jungseong::start_point(), 0x1161);
    assert_eq!(Jungseong::end_point(), 0x1175);
    assert_eq!(Jongseong::start_point(), 0x11A8);
    assert_eq!(Jongseong::end_point(), 0x11C2);

    assert_eq!(hangeul::CHOSEONG_FILLER, '\u{115f}');
    assert_eq!(hangeul::JUNGSEONG_FILLER, '\u{1160}');
    assert_eq!(hangeul::JONGSEONG_COUNT_WITH_EMPTY, 28);
}

#[test]
fn block_constants() {
    assert_eq!(hangeul::syllable_count, 11172);
    assert_eq!(hangeul::vowel_count, 21);
    assert_eq!(hangeul::final0_count, 28);
    assert_eq!(hangeul::jamo_initial_filler, '\u{115f}');
    assert_eq!(hangeul::jamo_peak_filler, '\u{1160}');
    assert_eq!(hangeul::jamo_peak_start as u32, 0x1161);
    assert_eq!(hangeul::jamo_peak_end as u32, 0x1175);
    assert_eq!(hangeul::jamo_final_start as u32, 0x11A8);
    assert_eq!(hangeul::jamo_final_end as u32, 0x11C2);
    assert_eq!(hangeul::jamo_final0_start as u32, 0x11A7);
    assert_eq!(hangeul::jamo_start as u32, 0x1100);
    assert_eq!(hangeul::jamo_end as u32, 0x11FF);
    assert_eq!(hangeul::compat_jamo_start as u32, 0x3131);
    assert_eq!(hangeul::compat_jamo_end as u32, 0x318E);
}

#[test]
fn classification_ranges() {
    assert_eq!(DataClass::of_char('아'), Some(DataClass::Syllable));
    assert_eq!(
        DataClass::of_char('\u{1100}'),
        Some(DataClass::Jamo(Modernity::Modern))
    );
    assert_eq!(
        DataClass::of_char('\u{1113}'),
        Some(DataClass::Jamo(Modernity::Ancient))
    );
    assert_eq!(
        DataClass::of_char('\u{11c2}'),
        Some(DataClass::Jamo(Modernity::Modern))
    );
    assert_eq!(
        DataClass::of_char('\u{11c3}'),
        Some(DataClass::Jamo(Modernity::Ancient))
    );
    assert_eq!(
        DataClass::of_char('\u{3131}'),
        Some(DataClass::CompatibillityJamo(Modernity::Modern))
    );
    assert_eq!(
        DataClass::of_char('\u{3165}'),
        Some(DataClass::CompatibillityJamo(Modernity::Ancient))
    );
    assert_eq!(DataClass::of_char('\u{3164}'), None);
    assert_eq!(DataClass::of_char('a'), None);

    assert_eq!(Class::of_char('아'), Class::Syllable);
    assert_eq!(Class::of_char('\u{1161}'), Class::Jamo(Modernity::Modern));
    assert_eq!(Class::of_char('\u{1176}'), Class::Jamo(Modernity::Ancient));
    assert_eq!(Class::of_char('a'), Class::NonHangeul);
    assert_eq!(Class::of_char('\u{3164}'), Class::NonHangeul);
}

#[test]
fn code_level_access() {
    let syl = HangeulSyllable::from_char('아');
    assert_eq!(syl.class(), Class::Syllable);
    assert!(syl.is_modern());
    assert_eq!(syl.initial_code(), Some(11));
    assert_eq!(syl.vowel_code(), Some(0));
    assert_eq!(syl.final_code(), None);
    assert_eq!(syl.initial_jamo(), Some('\u{110b}'));
    assert_eq!(syl.vowel_jamo(), Some('\u{1161}'));
    assert_eq!(syl.final_jamo(), None);

    let mah = HangeulSyllable::from_char('맣');
    assert_eq!(mah.initial_code(), Some(6));
    assert_eq!(mah.vowel_code(), Some(0));
    assert_eq!(mah.final_code(), Some(26));
    assert_eq!(mah.final_jamo(), Some('\u{11c2}'));
}
