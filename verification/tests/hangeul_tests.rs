use hangeul::jamo::Codeblock;
use hangeul::jamo::Character;
use hangeul::syllable::Syllable;

#[test]
pub fn test_const() {
    assert_eq!(hangeul::ModernSyllable::start_point(), 0xac00);
    assert_eq!(hangeul::ModernSyllable::end_point(), 0xd7a3);

    assert_eq!(hangeul::Choseong::start_point(), 0x1100);
    assert_eq!(hangeul::Choseong::end_point(), 0x1112);

    assert_eq!(hangeul::Choseong::count(), 19);
    assert_eq!(hangeul::Jungseong::count(), 21);
    assert_eq!(hangeul::Jongseong::count(), 27);
}

#[test]
pub fn test_syllable() {
    let input_str = "아희방맣희";
    let chars: Vec<char> = input_str.chars().collect();
    for (i, c) in input_str.chars().enumerate() {
        let esyl = hangeul::ModernSyllable::from_char(c).unwrap();
        let esyl_char = Character::char(&esyl);
        println!("{:?} {:?}", esyl_char, esyl);

        let lsyl = hangeul::syllable::LazySyllable::from_char(c).unwrap();
        let lsyl_char = Character::char(&lsyl);
        println!("{:?} {:?}", lsyl_char, lsyl);

        assert_eq!(esyl_char.unwrap(), *chars.get(i).unwrap());
        assert_eq!(lsyl_char.unwrap(), *chars.get(i).unwrap());
        assert_eq!(esyl_char, lsyl_char);
        assert_eq!(Syllable::choseong(&esyl), Syllable::choseong(&lsyl));
        assert_eq!(Syllable::jungseong(&esyl), Syllable::jungseong(&lsyl));
        assert_eq!(Syllable::jongseong(&esyl), Syllable::jongseong(&lsyl));
    }
}
