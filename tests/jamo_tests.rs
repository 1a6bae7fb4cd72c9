use hangul_cd::jamo::{
    modern_to_compatibility_jamo, modernized_jamo_final, modernized_jamo_initial,
    modernized_jamo_vowel, Character, Jamo, JamoConsonantComposite, JamoConsonantSingular,
    JamoError, JamoPosition, JamoUnicodeType, JamoVowelComposite, JamoVowelSingular,
};

fn check_all(tests: Vec<(char, Jamo)>, what: &str) {
    for (c, expected_jamo) in tests {
        let result = Character::from_char(c);
        assert_eq!(
            result,
            Ok(Character::Hangul(expected_jamo)),
            "Failed on {}: {}; got result: {:?}",
            what,
            c,
            result
        )
    }
}

fn singular_consonants(chars: &str) -> Vec<(char, Jamo)> {
    let all = [
        JamoConsonantSingular::Giyeok,
        JamoConsonantSingular::Nieun,
        JamoConsonantSingular::Digeut,
        JamoConsonantSingular::Rieul,
        JamoConsonantSingular::Mieum,
        JamoConsonantSingular::Bieup,
        JamoConsonantSingular::Siot,
        JamoConsonantSingular::Ieung,
        JamoConsonantSingular::Jieut,
        JamoConsonantSingular::Chieut,
        JamoConsonantSingular::Kieuk,
        JamoConsonantSingular::Tieut,
        JamoConsonantSingular::Pieup,
        JamoConsonantSingular::Hieut,
    ];
    chars.chars().zip(all.iter()).map(|(c, j)| (c, Jamo::Consonant(j.clone()))).collect()
}

fn singular_vowels(chars: &str) -> Vec<(char, Jamo)> {
    let all = [
        JamoVowelSingular::A,
        JamoVowelSingular::Ae,
        JamoVowelSingular::Ya,
        JamoVowelSingular::Yae,
        JamoVowelSingular::Eo,
        JamoVowelSingular::E,
        JamoVowelSingular::Yeo,
        JamoVowelSingular::Ye,
        JamoVowelSingular::O,
        JamoVowelSingular::Yo,
        JamoVowelSingular::U,
        JamoVowelSingular::Yu,
        JamoVowelSingular::Eu,
        JamoVowelSingular::I,
    ];
    chars.chars().zip(all.iter()).map(|(c, j)| (c, Jamo::Vowel(j.clone()))).collect()
}

fn double_initials(chars: &str) -> Vec<(char, Jamo)> {
    let all = [
        JamoConsonantComposite::SsangGiyeok,
        JamoConsonantComposite::SsangDigeut,
        JamoConsonantComposite::SsangBieup,
        JamoConsonantComposite::SsangSiot,
        JamoConsonantComposite::SsangJieut,
    ];
    chars.chars().zip(all.iter()).map(|(c, j)| (c, Jamo::CompositeConsonant(j.clone()))).collect()
}

fn composite_vowels(chars: &str) -> Vec<(char, Jamo)> {
    let all = [
        JamoVowelComposite::Wa,
        JamoVowelComposite::Wae,
        JamoVowelComposite::Oe,
        JamoVowelComposite::Wo,
        JamoVowelComposite::We,
        JamoVowelComposite::Wi,
        JamoVowelComposite::Ui,
    ];
    chars.chars().zip(all.iter()).map(|(c, j)| (c, Jamo::CompositeVowel(j.clone()))).collect()
}

fn composite_finals(chars: &str) -> Vec<(char, Jamo)> {
    let all = [
        JamoConsonantComposite::GiyeokSiot,
        JamoConsonantComposite::NieunJieut,
        JamoConsonantComposite::NieunHieut,
        JamoConsonantComposite::RieulGiyeok,
        JamoConsonantComposite::RieulMieum,
        JamoConsonantComposite::RieulBieup,
        JamoConsonantComposite::RieulSiot,
        JamoConsonantComposite::RieulTieut,
        JamoConsonantComposite::RieulPieup,
        JamoConsonantComposite::RieulHieut,
    ];
    chars.chars().zip(all.iter()).map(|(c, j)| (c, Jamo::CompositeConsonant(j.clone()))).collect()
}

#[test]
fn character_from_char_identifies_valid_consonants_compatibility() {
    check_all(singular_consonants("ㄱㄴㄷㄹㅁㅂㅅㅇㅈㅊㅋㅌㅍㅎ"), "consonant");
}

#[test]
fn character_from_char_identifies_valid_consonants_modern() {
    check_all(singular_consonants("ᄀᄂᄃᄅᄆᄇᄉᄋᄌᄎᄏᄐᄑᄒ"), "consonant");
}

#[test]
fn character_from_char_identifies_valid_vowels_compatibility() {
    check_all(singular_vowels("ㅏㅐㅑㅒㅓㅔㅕㅖㅗㅛㅜㅠㅡㅣ"), "vowel");
}

#[test]
fn character_from_char_identifies_valid_vowels_modern() {
    check_all(singular_vowels("ᅡᅢᅣᅤᅥᅦᅧᅨᅩᅭᅮᅲᅳᅵ"), "vowel");
}

#[test]
fn character_from_char_identifies_double_initials_compatibility() {
    check_all(double_initials("ㄲㄸㅃㅆㅉ"), "double initial");
}

#[test]
fn character_from_char_identifies_double_initials_modern() {
    check_all(double_initials("ᄁᄄᄈᄊᄍ"), "double initial");
}

#[test]
fn character_from_char_identifies_composite_vowels_compatibility() {
    check_all(composite_vowels("ㅘㅙㅚㅝㅞㅟㅢ"), "composite vowel");
}

#[test]
fn character_from_char_identifies_composite_vowels_modern() {
    check_all(composite_vowels("ᅪᅫᅬᅯᅰᅱᅴ"), "composite vowel");
}

#[test]
fn character_from_char_identifies_composite_finals_compatibility() {
    check_all(composite_finals("ㄳㄵㄶㄺㄻㄼㄽㄾㄿㅀ"), "composite final");
}

#[test]
fn character_from_char_identifies_composite_finals_modern() {
    check_all(composite_finals("ᆪᆬᆭᆰᆱᆲᆳᆴᆵᆶ"), "composite final");
}

#[test]
fn character_from_char_identifies_non_hangul() {
    let non_hangul_chars = "ABCxyz123!@# ";
    for c in non_hangul_chars.chars() {
        let result = Character::from_char(c);
        assert!(
            result == Ok(Character::NonHangul(c)),
            "Failed on non-Hangul char: {}; got result: {:?}",
            c,
            result
        );
    }
}

#[test]
fn determine_hangul_identifies_valid_consonants() {
    let consonants = "ㅂㅈㄷㄱㅅㅁㄴㅇㄹㅎㅋㅌㅊㅍ";
    for c in consonants.chars() {
        let result = Character::from_char(c);
        assert!(
            matches!(result, Ok(Character::Hangul(Jamo::Consonant(ref j))) if j.char_compatibility() == c),
            "Failed on consonant: {}; got result: {:?}",
            c,
            result
        );
    }
}

#[test]
fn determine_hangul_identifies_valid_vowels() {
    let vowels = "ㅛㅕㅑㅐㅔㅒㅖㅗㅓㅏㅣㅠㅜㅡ";
    for c in vowels.chars() {
        let result = Character::from_char(c);
        assert!(
            matches!(result, Ok(Character::Hangul(Jamo::Vowel(ref j))) if j.char_compatibility() == c),
            "Failed on vowel: {}; got result: {:?}",
            c,
            result
        );
    }
}

#[test]
fn determine_hangul_double_initials() {
    let compound_letters = "ㄲㄸㅃㅆㅉ";
    for c in compound_letters.chars() {
        let result = Character::from_char(c);
        assert!(
            matches!(result, Ok(Character::Hangul(Jamo::CompositeConsonant(ref j))) if j.char_compatibility() == c),
            "Failed on compound letter: {}; got result: {:?}",
            c,
            result
        );
    }
}

#[test]
fn determine_hangul_composite_vowels() {
    let compound_letters = "ㅘㅙㅚㅝㅞㅟㅢ";
    for c in compound_letters.chars() {
        let result = Character::from_char(c);
        assert!(
            matches!(result, Ok(Character::Hangul(Jamo::CompositeVowel(ref j))) if j.char_compatibility() == c),
            "Failed on compound letter: {}; got result: {:?}",
            c,
            result
        );
    }
}

#[test]
fn determine_hangul_composite_finals() {
    let compound_letters = "ㄲㄳㄵㄶㄺㄻㄼㄽㄾㄿㅀㅄ";
    for c in compound_letters.chars() {
        let result = Character::from_char(c);
        assert!(
            matches!(result, Ok(Character::Hangul(Jamo::CompositeConsonant(ref j))) if j.char_compatibility() == c),
            "Failed on compound letter: {}; got result: {:?}",
            c,
            result
        );
    }
}

#[test]
fn determine_hangul_non_hangul() {
    let non_hangul_chars = "ABCxyz123!@# ";
    for c in non_hangul_chars.chars() {
        let result = Character::from_char(c);
        assert!(
            result == Ok(Character::NonHangul(c)),
            "Failed on non-Hangul char: {}; got result: {:?}",
            c,
            result
        );
    }
}

#[test]
fn evaluate_classifies_ranges() {
    assert_eq!(JamoUnicodeType::evaluate('\u{1100}'), JamoUnicodeType::Modern);
    assert_eq!(JamoUnicodeType::evaluate('\u{11C2}'), JamoUnicodeType::Modern);
    assert_eq!(JamoUnicodeType::evaluate('ㄱ'), JamoUnicodeType::Compatibility);
    assert_eq!(JamoUnicodeType::evaluate('\u{1113}'), JamoUnicodeType::NonStandardModern);
    assert_eq!(JamoUnicodeType::evaluate('\u{11FF}'), JamoUnicodeType::NonStandardModern);
    assert_eq!(JamoUnicodeType::evaluate('\u{3164}'), JamoUnicodeType::NonStandardCompatibility);
    assert_eq!(JamoUnicodeType::evaluate('A'), JamoUnicodeType::NonHangul);
    assert_eq!(JamoUnicodeType::evaluate('가'), JamoUnicodeType::NonHangul);
}

#[test]
fn from_char_fails_on_unassigned_compatibility_jamo() {
    assert_eq!(Character::from_char('\u{3130}'), Err(JamoError::FromCharError('\u{3130}')));
    assert_eq!(Character::from_char('\u{3164}'), Ok(Character::NonHangul('\u{3164}')));
    assert_eq!(Character::from_char('\u{1113}'), Ok(Character::NonHangul('\u{1113}')));
}

#[test]
fn character_jamo_accessor() {
    let c = Character::from_char('ㅏ').unwrap();
    assert_eq!(c.jamo(), Some(&Jamo::Vowel(JamoVowelSingular::A)));
    assert_eq!(Character::NonHangul('x').jamo(), None);
}

#[test]
fn modern_encodings_depend_on_position() {
    let giyeok = JamoConsonantSingular::Giyeok;
    assert_eq!(giyeok.char_modern(JamoPosition::Initial), Some('\u{1100}'));
    assert_eq!(giyeok.char_modern(JamoPosition::Final), Some('\u{11A8}'));
    assert_eq!(giyeok.char_modern(JamoPosition::Vowel), None);
    assert_eq!(JamoConsonantComposite::SsangDigeut.char_modern(JamoPosition::Final), None);
    assert_eq!(JamoConsonantComposite::SsangDigeut.char_modern(JamoPosition::Initial), Some('\u{1104}'));
    assert_eq!(JamoConsonantComposite::BieupSiot.char_modern(JamoPosition::Initial), None);
    assert_eq!(JamoConsonantComposite::BieupSiot.char_modern(JamoPosition::Final), Some('\u{11B9}'));
    assert_eq!(Jamo::Vowel(JamoVowelSingular::A).char_modern(JamoPosition::Vowel), Some('\u{1161}'));
    assert_eq!(Jamo::Vowel(JamoVowelSingular::A).char_modern(JamoPosition::Initial), None);
    assert_eq!(Jamo::CompositeVowel(JamoVowelComposite::Ui).char_modern(JamoPosition::Vowel), Some('\u{1174}'));
    assert_eq!(Jamo::Consonant(JamoConsonantSingular::Hieut).char_modern(JamoPosition::Vowel), None);
}

#[test]
fn modernized_conversions() {
    assert_eq!(modernized_jamo_initial('ㄱ'), '\u{1100}');
    assert_eq!(modernized_jamo_initial('ㅉ'), '\u{110D}');
    assert_eq!(modernized_jamo_initial('ㄳ'), 'ㄳ');
    assert_eq!(modernized_jamo_initial('A'), 'A');
    assert_eq!(modernized_jamo_vowel('ㅢ'), '\u{1174}');
    assert_eq!(modernized_jamo_vowel('ㄱ'), 'ㄱ');
    assert_eq!(modernized_jamo_final('ㄱ'), '\u{11A8}');
    assert_eq!(modernized_jamo_final('ㅄ'), '\u{11B9}');
    assert_eq!(modernized_jamo_final('ㄸ'), 'ㄸ');
    assert_eq!(modern_to_compatibility_jamo('\u{1100}'), 'ㄱ');
    assert_eq!(modern_to_compatibility_jamo('\u{11A8}'), 'ㄱ');
    assert_eq!(modern_to_compatibility_jamo('\u{1174}'), 'ㅢ');
    assert_eq!(modern_to_compatibility_jamo('z'), 'z');
}

#[test]
fn combinations_and_decompositions_are_inverse() {
    let g = JamoConsonantSingular::Giyeok;
    let s = JamoConsonantSingular::Siot;
    let d = JamoConsonantSingular::Digeut;
    assert_eq!(g.combine_for_initial(&g), Some(JamoConsonantComposite::SsangGiyeok));
    assert_eq!(g.combine_for_final(&g), Some(JamoConsonantComposite::SsangGiyeok));
    assert_eq!(d.combine_for_initial(&d), Some(JamoConsonantComposite::SsangDigeut));
    assert_eq!(d.combine_for_final(&d), None);
    assert_eq!(g.combine_for_initial(&s), None);
    assert_eq!(g.combine_for_final(&s), Some(JamoConsonantComposite::GiyeokSiot));
    assert_eq!(
        JamoConsonantComposite::GiyeokSiot.decompose(),
        (Jamo::Consonant(g.clone()), Jamo::Consonant(s.clone()))
    );
    assert!(JamoConsonantComposite::SsangSiot.is_valid_initial());
    assert!(JamoConsonantComposite::SsangSiot.is_valid_final());
    assert!(!JamoConsonantComposite::SsangJieut.is_valid_final());
    assert!(!JamoConsonantComposite::RieulHieut.is_valid_initial());
    let o = JamoVowelSingular::O;
    let a = JamoVowelSingular::A;
    assert_eq!(o.combine(&a), Some(JamoVowelComposite::Wa));
    assert_eq!(a.combine(&o), None);
    assert_eq!(JamoVowelComposite::Wa.decompose(), (Jamo::Vowel(o), Jamo::Vowel(a)));
    let all_composites = [
        JamoConsonantComposite::GiyeokSiot,
        JamoConsonantComposite::NieunJieut,
        JamoConsonantComposite::NieunHieut,
        JamoConsonantComposite::RieulGiyeok,
        JamoConsonantComposite::RieulMieum,
        JamoConsonantComposite::RieulBieup,
        JamoConsonantComposite::RieulSiot,
        JamoConsonantComposite::RieulTieut,
        JamoConsonantComposite::RieulPieup,
        JamoConsonantComposite::RieulHieut,
        JamoConsonantComposite::SsangGiyeok,
        JamoConsonantComposite::SsangDigeut,
        JamoConsonantComposite::SsangBieup,
        JamoConsonantComposite::SsangSiot,
        JamoConsonantComposite::SsangJieut,
        JamoConsonantComposite::BieupSiot,
    ];
    for c in all_composites.iter() {
        match c.decompose() {
            (Jamo::Consonant(x), Jamo::Consonant(y)) => {
                if c.is_valid_initial() {
                    assert_eq!(x.combine_for_initial(&y).as_ref(), Some(c));
                }
                if c.is_valid_final() {
                    assert_eq!(x.combine_for_final(&y).as_ref(), Some(c));
                }
            }
            other => panic!("unexpected decomposition {:?}", other),
        }
    }
}

#[test]
fn modern_round_trip_keeps_compatibility_char() {
    let jamo = [
        Jamo::Consonant(JamoConsonantSingular::Rieul),
        Jamo::CompositeConsonant(JamoConsonantComposite::SsangGiyeok),
        Jamo::CompositeConsonant(JamoConsonantComposite::RieulPieup),
        Jamo::Vowel(JamoVowelSingular::Yu),
        Jamo::CompositeVowel(JamoVowelComposite::We),
    ];
    let positions = [JamoPosition::Initial, JamoPosition::Vowel, JamoPosition::Final];
    for j in jamo.iter() {
        for p in positions.iter() {
            if let Some(m) = j.char_modern(p.clone()) {
                let back = Jamo::from_modern_jamo(m).unwrap();
                assert_eq!(&back, j);
                assert_eq!(back.char_compatibility(), j.char_compatibility());
            }
        }
    }
    assert_eq!(Jamo::from_modern_jamo('\u{11C3}'), Err(JamoError::FromCharError('\u{11C3}')));
    assert_eq!(Jamo::from_compatibility_jamo('x'), Err(JamoError::FromCharError('x')));
}
