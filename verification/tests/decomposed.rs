use hangeul::{Conversion, Final, Initial, Jamo, Syllable, Vowel};

#[test]
fn concrete_decomposes_ieung_a() {
    let syl = hangeul::ConcreteSyllable::from_u32(0xC544).unwrap();
    assert_eq!(syl.initial(), Initial::InitialIeung);
    assert_eq!(syl.initial().ordinal(), 11);
    assert_eq!(syl.peak(), Vowel::A);
    assert_eq!(syl.peak().ordinal(), 0);
    assert_eq!(syl.final0(), Final::FinalBlank);
    assert_eq!(Syllable::final_part(&syl), None);
    assert_eq!(syl.char().unwrap() as u32, 0xC544);
}

#[test]
fn concrete_decomposes_hieut_ui() {
    let syl = hangeul::ConcreteSyllable::from_char('희').unwrap();
    assert_eq!(syl.initial(), Initial::InitialHieut);
    assert_eq!(syl.initial().ordinal(), 18);
    assert_eq!(syl.peak(), Vowel::Ui);
    assert_eq!(syl.peak().ordinal(), 19);
    assert_eq!(syl.final0(), Final::FinalBlank);
    assert_eq!(syl.char(), Some('희'));
}

#[test]
fn concrete_rejects_out_of_block() {
    assert!(hangeul::ConcreteSyllable::from_u32(0xABFF).is_none());
    assert!(hangeul::ConcreteSyllable::from_u32(0xD7A4).is_none());
    assert!(hangeul::ConcreteSyllable::from_u32(0xAC00).is_some());
    assert!(hangeul::ConcreteSyllable::from_u32(0xD7A3).is_some());
}

#[test]
fn concrete_and_lazy_agree_everywhere() {
    for v in 0xAC00u32..=0xD7A3u32 {
        let esyl = hangeul::ConcreteSyllable::from_u32(v).unwrap();
        let lsyl = hangeul::LazySyllable::from_char(char::from_u32(v).unwrap()).unwrap();
        assert_eq!(esyl.char().unwrap() as u32, v);
        assert_eq!(Conversion::char(&lsyl).unwrap() as u32, v);
        assert_eq!(Syllable::initial(&esyl), Syllable::initial(&lsyl));
        assert_eq!(Syllable::peak(&esyl), Syllable::peak(&lsyl));
        assert_eq!(Syllable::final_part(&esyl), Syllable::final_part(&lsyl));
        assert_eq!(Syllable::final0(&esyl), Syllable::final0(&lsyl));
        assert_eq!(Syllable::NFD(&esyl), Syllable::NFD(&lsyl));
    }
}

#[test]
fn nfd_renders_each_phoneme() {
    let open_syllable = hangeul::ConcreteSyllable::from_char('아').unwrap();
    assert_eq!(Syllable::NFD(&open_syllable).unwrap(), "\u{110b}\u{1161}");

    let closed_syllable = hangeul::ConcreteSyllable::from_char('방').unwrap();
    assert_eq!(
        Syllable::NFD(&closed_syllable).unwrap(),
        "\u{1107}\u{1161}\u{11bc}"
    );
}

#[test]
fn alphabet_conversions() {
    assert_eq!(Initial::from_u32(0x1100), Some(Initial::InitialGiyeok));
    assert_eq!(Initial::from_u32(0x10FF), None);
    assert_eq!(Initial::from_u32(0x1113), None);
    assert_eq!(Initial::InitialGiyeok.char(), Some('\u{1100}'));

    assert_eq!(Vowel::from_u32(0x1161), Some(Vowel::A));
    assert_eq!(Vowel::from_u32(0x1176), None);
    assert_eq!(Vowel::I.char(), Some('\u{1175}'));

    assert_eq!(Final::from_u32(0x11A8), Some(Final::FinalGiyeok));
    assert_eq!(Final::from_u32(0x11A7), None);
    assert_eq!(Final::from_u32(0x11C3), None);
    assert_eq!(Final::FinalGiyeok.ordinal(), 1);
    assert_eq!(Final::FinalBlank.char(), None);
    assert_eq!(Final::FinalHieut.char(), Some('\u{11c2}'));

    assert_eq!(Initial::from_ordinal(19), None);
    assert_eq!(Vowel::from_ordinal(21), None);
    assert_eq!(Final::from_ordinal(27), Some(Final::FinalHieut));
    assert_eq!(Final::from_ordinal(28), None);

    assert_eq!(Jamo::_from_u32(0x1107, '\u{1100}'), Some(Initial::InitialBieup));
    let below_base: Option<Vowel> = Jamo::_from_u32(0x1100, '\u{1161}');
    assert_eq!(below_base, None);
}

#[test]
fn builder_partial_states() {
    let empty = hangeul::SyllableBuilder::new();
    assert!(Conversion::char(&empty).is_none());
    assert_eq!(Syllable::NFD(&empty), None);
    assert_eq!(Syllable::final0(&empty), Final::FinalBlank);

    let only_initial = hangeul::SyllableBuilder::from_alphabet(
        Some(Initial::InitialIeung),
        None,
        None,
    );
    assert!(Conversion::char(&only_initial).is_none());
    assert_eq!(
        Syllable::NFD(&only_initial).unwrap(),
        "\u{110b}\u{1160}"
    );

    let only_peak = hangeul::SyllableBuilder::from_alphabet(None, Some(Vowel::A), None);
    assert!(Conversion::char(&only_peak).is_none());
    assert_eq!(Syllable::NFD(&only_peak).unwrap(), "\u{115f}\u{1161}");

    let blank_final_only = hangeul::SyllableBuilder::from_alphabet(
        None,
        None,
        Some(Final::FinalBlank),
    );
    assert_eq!(Syllable::NFD(&blank_final_only), None);
    assert_eq!(Syllable::final_part(&blank_final_only), None);
}

#[test]
fn builder_composes_and_decodes() {
    let complete = hangeul::SyllableBuilder::from_alphabet(
        Some(Initial::InitialBieup),
        Some(Vowel::A),
        Some(Final::FinalIeung),
    );
    assert_eq!(Conversion::char(&complete), Some('방'));
    assert_eq!(
        Syllable::NFD(&complete).unwrap(),
        "\u{1107}\u{1161}\u{11bc}"
    );

    let no_final = hangeul::SyllableBuilder::from_alphabet(
        Some(Initial::InitialIeung),
        Some(Vowel::A),
        None,
    );
    assert_eq!(Conversion::char(&no_final), Some('아'));

    let blank_final = hangeul::SyllableBuilder::from_alphabet(
        Some(Initial::InitialIeung),
        Some(Vowel::A),
        Some(Final::FinalBlank),
    );
    assert_eq!(Conversion::char(&blank_final), Some('아'));

    let decoded = hangeul::SyllableBuilder::from_u32('맣' as u32).unwrap();
    assert_eq!(Syllable::initial(&decoded), Some(Initial::InitialMieum));
    assert_eq!(Syllable::peak(&decoded), Some(Vowel::A));
    assert_eq!(decoded.final_part, Some(Final::FinalHieut));
    assert_eq!(Conversion::char(&decoded), Some('맣'));

    let open_decoded = hangeul::SyllableBuilder::from_u32('아' as u32).unwrap();
    assert_eq!(open_decoded.final_part, None);

    assert!(hangeul::SyllableBuilder::from_u32(0xABFF).is_none());
}
