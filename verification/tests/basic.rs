use hangeul::Conversion;
use hangeul::Syllable;

#[test]
pub fn test_test_const() {
    assert_eq!(hangeul::syllable_start as u32, 0xac00);
    assert_eq!(hangeul::syllable_end as u32, 0xd7a3);

    assert_eq!(hangeul::jamo_initial_start as u32, 0x1100);
    assert_eq!(hangeul::jamo_initial_end as u32, 0x1112);

    assert_eq!(hangeul::initial_count, 19);
    assert_eq!(hangeul::peak_count, 21);
    assert_eq!(hangeul::final_count, 27);
}

#[test]
pub fn test_test_syllable() {
    let input_str = "아희방맣희";
    let chars: Vec<char> = input_str.chars().collect();
    for (i, c) in input_str.chars().enumerate() {
        let esyl = hangeul::ConcreteSyllable::from_char(c).unwrap();
        let esyl_char = esyl.char();
        println!("{} {:?}", i, esyl_char);

        let lsyl = hangeul::LazySyllable::from_char(c).unwrap();
        let lsyl_char = Conversion::char(&lsyl);
        println!("{} {:?}", i, lsyl_char);

        assert_eq!(esyl_char.unwrap(), chars[i]);
        assert_eq!(lsyl_char.unwrap(), chars[i]);
        assert_eq!(esyl_char, lsyl_char);
        assert_eq!(Syllable::initial(&esyl), Syllable::initial(&lsyl));
        assert_eq!(Syllable::peak(&esyl), Syllable::peak(&lsyl));
        assert_eq!(Syllable::final0(&esyl), Syllable::final0(&lsyl));
        assert_eq!(Syllable::final_part(&esyl), Syllable::final_part(&lsyl));
        assert_eq!(Syllable::NFD(&esyl), Syllable::NFD(&lsyl));
    }
}
