use hangul_cd::block::{
    hangul_blocks_vec_to_string, BlockCompletionStatus, BlockComposer, BlockCompositionState,
    BlockError, BlockPopStatus, BlockPushResult, HangulBlock, HangulBlockDecompositionOptions,
};
use hangul_cd::jamo::{Jamo, JamoPosition, JamoUnicodeEra};

fn j(c: char) -> Jamo {
    Jamo::from_compatibility_jamo(c).unwrap()
}

fn block(i: char, v: char, f: Option<char>) -> HangulBlock {
    HangulBlock { initial: j(i), vowel: j(v), final_optional: f.map(j) }
}

fn run_cases(cases: Vec<(&str, BlockPushResult, BlockCompositionState)>) {
    for (input, expected_result, expected_state) in cases {
        let mut composer = BlockComposer::new();
        let mut last = BlockPushResult::Success;
        for c in input.chars() {
            last = composer.push(&j(c));
        }
        assert_eq!(last, expected_result, "Final push result did not match for {}: {:?}", input, composer);
        assert_eq!(composer.state(), expected_state, "Final block state did not match for {}: {:?}", input, composer);
    }
}

fn valid_cases() -> Vec<(&'static str, BlockPushResult, BlockCompositionState)> {
    vec![
        ("ㄱ", BlockPushResult::Success, BlockCompositionState::ExpectingDoubleInitialOrVowel),
        ("ㄱㄱ", BlockPushResult::Success, BlockCompositionState::ExpectingVowel),
        ("ㄱㄱㅜ", BlockPushResult::Success, BlockCompositionState::ExpectingCompositeVowelOrFinal),
        ("ㄱㄱㅜㅓ", BlockPushResult::Success, BlockCompositionState::ExpectingFinal),
        ("ㄱㄱㅜㅓㄹ", BlockPushResult::Success, BlockCompositionState::ExpectingCompositeFinal),
        ("ㄱㄱㅜㅓㄹㅎ", BlockPushResult::Success, BlockCompositionState::ExpectingNextBlock),
        ("ㄱㄱㅜㅓㄹㅎㅏ", BlockPushResult::PopAndStartNewBlock, BlockCompositionState::ExpectingNextBlock),
        ("ㅃㅣㄳ", BlockPushResult::Success, BlockCompositionState::ExpectingNextBlock),
        ("ㅈㅚ", BlockPushResult::Success, BlockCompositionState::ExpectingFinal),
        ("ㅉㅢㅃ", BlockPushResult::StartNewBlockNoPop, BlockCompositionState::ExpectingFinal),
        ("ㅇㅣㅅㅅ", BlockPushResult::Success, BlockCompositionState::ExpectingNextBlock),
        ("ㅇㅣㅅㅅㅅ", BlockPushResult::StartNewBlockNoPop, BlockCompositionState::ExpectingNextBlock),
    ]
}

fn invalid_cases() -> Vec<(&'static str, BlockPushResult, BlockCompositionState)> {
    vec![
        ("ㄱㄹ", BlockPushResult::InvalidHangul, BlockCompositionState::ExpectingDoubleInitialOrVowel),
        ("ㄱㅏㅏ", BlockPushResult::InvalidHangul, BlockCompositionState::ExpectingCompositeVowelOrFinal),
    ]
}

fn annyeonghaseyo_blocks() -> Vec<HangulBlock> {
    vec![
        block('ㅇ', 'ㅏ', Some('ㄴ')),
        block('ㄴ', 'ㅕ', Some('ㅇ')),
        block('ㅎ', 'ㅏ', None),
        block('ㅅ', 'ㅔ', None),
        block('ㅇ', 'ㅛ', None),
    ]
}

#[test]
fn block_test_hangul_block_to_char() {
    let with_final = block('ㄱ', 'ㅏ', Some('ㄴ'));
    assert_eq!(with_final.to_char(), Ok('간'));
    let block_no_final = block('ㅂ', 'ㅗ', None);
    assert_eq!(block_no_final.to_char(), Ok('보'));
}

#[test]
fn chars_test_hangul_block_to_char() {
    let with_final = block('ㄱ', 'ㅏ', Some('ㄴ'));
    assert_eq!(with_final.to_char(), Ok('간'));
    let block_no_final = block('ㅂ', 'ㅗ', None);
    assert_eq!(block_no_final.to_char(), Ok('보'));
}

#[test]
fn block_test_hangul_blocks_vec_to_string() {
    let result = hangul_blocks_vec_to_string(&annyeonghaseyo_blocks());
    assert_eq!(result, Ok("안녕하세요".to_string()));
}

#[test]
fn chars_test_hangul_blocks_vec_to_string() {
    let result = hangul_blocks_vec_to_string(&annyeonghaseyo_blocks());
    assert_eq!(result, Ok("안녕하세요".to_string()));
}

#[test]
fn block_single_block_composition_valid() {
    run_cases(valid_cases());
}

#[test]
fn block_single_block_composition_invalid() {
    run_cases(invalid_cases());
}

#[test]
fn compose_single_block_composition_valid() {
    run_cases(valid_cases());
}

#[test]
fn compose_single_block_composition_invalid() {
    run_cases(invalid_cases());
}

fn run_e2e_case(case: (char, char, char, char)) {
    let from_block_char = HangulBlock::from_char(case.3).unwrap();
    assert_eq!(from_block_char.initial, j(case.0), "Initial did not match for {:?}", case);
    assert_eq!(from_block_char.vowel, j(case.1), "Vowel did not match for {:?}", case);
    if case.2 != '\0' {
        assert_eq!(from_block_char.final_optional.unwrap(), j(case.2), "Final did not match for {:?}", case);
    } else {
        assert!(from_block_char.final_optional.is_none(), "Final was expected to be None for {:?}", case);
    }
}

#[test]
fn test_valid_blocks_e2e() {
    let case_tuples: Vec<(char, char, char, char)> = vec![
        ('ㅂ', 'ㅛ', '\0', '뵤'),
        ('ㅈ', 'ㅕ', '\0', '져'),
        ('ㄷ', 'ㅑ', '\0', '댜'),
        ('ㄱ', 'ㅐ', '\0', '개'),
        ('ㅅ', 'ㅔ', '\0', '세'),
        ('ㅁ', 'ㅗ', '\0', '모'),
        ('ㄴ', 'ㅓ', '\0', '너'),
        ('ㅇ', 'ㅏ', '\0', '아'),
        ('ㅎ', 'ㅣ', '\0', '히'),
        ('ㅋ', 'ㅠ', '\0', '큐'),
        ('ㅌ', 'ㅜ', '\0', '투'),
        ('ㅊ', 'ㅡ', '\0', '츠'),
        ('ㄹ', 'ㅒ', '\0', '럐'),
        ('ㅍ', 'ㅖ', '\0', '폐'),
        ('ㅃ', 'ㅛ', '\0', '뾰'),
        ('ㅉ', 'ㅕ', '\0', '쪄'),
        ('ㄸ', 'ㅑ', '\0', '땨'),
        ('ㄲ', 'ㅐ', '\0', '깨'),
        ('ㅆ', 'ㅔ', '\0', '쎄'),
        ('ㅂ', 'ㅘ', '\0', '봐'),
        ('ㅈ', 'ㅙ', '\0', '좨'),
        ('ㄷ', 'ㅚ', '\0', '되'),
        ('ㄱ', 'ㅝ', '\0', '궈'),
        ('ㅅ', 'ㅞ', '\0', '쉐'),
        ('ㅁ', 'ㅟ', '\0', '뮈'),
        ('ㄴ', 'ㅢ', '\0', '늬'),
        ('ㅂ', 'ㅛ', 'ㅆ', '뵸'),
        ('ㅈ', 'ㅕ', 'ㄲ', '젺'),
        ('ㄷ', 'ㅑ', 'ㄳ', '댟'),
        ('ㄱ', 'ㅐ', 'ㄵ', '갡'),
        ('ㅅ', 'ㅔ', 'ㄶ', '섾'),
        ('ㅁ', 'ㅗ', 'ㄺ', '몱'),
        ('ㄴ', 'ㅓ', 'ㄻ', '넒'),
        ('ㅇ', 'ㅏ', 'ㄼ', '앏'),
        ('ㅎ', 'ㅣ', 'ㄽ', '힔'),
        ('ㅋ', 'ㅠ', 'ㄾ', '큝'),
        ('ㅌ', 'ㅜ', 'ㄿ', '툺'),
        ('ㅊ', 'ㅡ', 'ㅀ', '츯'),
        ('ㄹ', 'ㅒ', 'ㅄ', '럢'),
        ('ㅍ', 'ㅖ', 'ㅂ', '폡'),
        ('ㅃ', 'ㅛ', 'ㅈ', '뿆'),
        ('ㅉ', 'ㅕ', 'ㄷ', '쪋'),
        ('ㄸ', 'ㅑ', 'ㄱ', '땩'),
        ('ㄲ', 'ㅐ', 'ㅅ', '깻'),
        ('ㅆ', 'ㅔ', 'ㅁ', '쎔'),
        ('ㅂ', 'ㅘ', 'ㄴ', '봔'),
        ('ㅈ', 'ㅙ', 'ㅇ', '좽'),
        ('ㄷ', 'ㅚ', 'ㄹ', '될'),
        ('ㄱ', 'ㅝ', 'ㅋ', '궠'),
        ('ㅅ', 'ㅞ', 'ㅌ', '쉩'),
        ('ㅁ', 'ㅟ', 'ㅊ', '뮟'),
        ('ㄴ', 'ㅢ', 'ㅍ', '닆'),
    ];
    for tuple in case_tuples {
        run_e2e_case(tuple);
    }
}

#[test]
fn test_decompose_vec_decompose_composites() {
    let block = HangulBlock::from_char('값').unwrap();
    let options = HangulBlockDecompositionOptions {
        decompose_composites: true,
        jamo_era: JamoUnicodeEra::Modern,
    };
    let decomposed = block.decomposed_vec(&options).unwrap();
    let expected = vec!['ᄀ', 'ᅡ', 'ᆸ', 'ᆺ'];
    assert_eq!(decomposed, expected);
}

#[test]
fn test_decompose_vec_no_decompose_composites() {
    let block = HangulBlock::from_char('값').unwrap();
    let options = HangulBlockDecompositionOptions {
        decompose_composites: false,
        jamo_era: JamoUnicodeEra::Compatibility,
    };
    let decomposed = block.decomposed_vec(&options).unwrap();
    let expected = vec!['ㄱ', 'ㅏ', 'ㅄ'];
    assert_eq!(decomposed, expected);
}

#[test]
fn decomposed_vec_other_options_and_errors() {
    let whole = HangulBlock::from_char('꽗').unwrap();
    let compat_split = HangulBlockDecompositionOptions {
        decompose_composites: true,
        jamo_era: JamoUnicodeEra::Compatibility,
    };
    assert_eq!(whole.decomposed_vec(&compat_split), Ok(vec!['ㄱ', 'ㄱ', 'ㅗ', 'ㅏ', 'ㄹ', 'ㅎ']));
    let modern_whole = HangulBlockDecompositionOptions {
        decompose_composites: false,
        jamo_era: JamoUnicodeEra::Modern,
    };
    assert_eq!(whole.decomposed_vec(&modern_whole), Ok(vec!['\u{1101}', '\u{116A}', '\u{11B6}']));
    let vowel_first = HangulBlock { initial: j('ㅏ'), vowel: j('ㅏ'), final_optional: None };
    assert_eq!(
        vowel_first.decomposed_vec(&modern_whole),
        Err(BlockError::InvalidPosition(j('ㅏ'), JamoPosition::Initial))
    );
    let bad_final = block_with_final('ㄸ');
    assert_eq!(
        bad_final.decomposed_vec(&modern_whole),
        Err(BlockError::InvalidPosition(j('ㄸ'), JamoPosition::Final))
    );
}

fn block_with_final(f: char) -> HangulBlock {
    HangulBlock { initial: j('ㄱ'), vowel: j('ㅏ'), final_optional: Some(j(f)) }
}

#[test]
fn decomposed_tuple_splits_composites() {
    let whole = HangulBlock::from_char('꽗').unwrap();
    assert_eq!(
        whole.decomposed_tuple(),
        Ok((Some(j('ㄱ')), Some(j('ㄱ')), Some(j('ㅗ')), Some(j('ㅏ')), Some(j('ㄹ')), Some(j('ㅎ'))))
    );
    let plain = block('ㅂ', 'ㅗ', None);
    assert_eq!(plain.decomposed_tuple(), Ok((Some(j('ㅂ')), None, Some(j('ㅗ')), None, None, None)));
}

#[test]
fn to_char_and_from_char_edges() {
    assert_eq!(block('ㄱ', 'ㅏ', None).to_char(), Ok('\u{AC00}'));
    assert_eq!(block('ㅎ', 'ㅣ', Some('ㅎ')).to_char(), Ok('\u{D7A3}'));
    let vowel_initial = HangulBlock { initial: j('ㅏ'), vowel: j('ㅏ'), final_optional: None };
    assert_eq!(vowel_initial.to_char(), Err(0));
    assert_eq!(HangulBlock::from_char('A'), Err(BlockError::NotASyllable('A')));
    assert_eq!(HangulBlock::from_char('\u{ABFF}'), Err(BlockError::NotASyllable('\u{ABFF}')));
    assert_eq!(HangulBlock::from_char('\u{D7A3}'), Ok(block('ㅎ', 'ㅣ', Some('ㅎ'))));
    assert_eq!(HangulBlock::from_char('\u{D7A4}'), Err(BlockError::NotASyllable('\u{D7A4}')));
    assert_eq!(HangulBlock::from_char('\u{D7A5}'), Err(BlockError::NotASyllable('\u{D7A5}')));
}

#[test]
fn block_round_trip_through_syllable() {
    let blocks = vec![
        block('ㄱ', 'ㅏ', None),
        block('ㄲ', 'ㅘ', Some('ㅀ')),
        block('ㅎ', 'ㅢ', Some('ㅆ')),
        block('ㅃ', 'ㅖ', Some('ㄲ')),
    ];
    for b in blocks {
        let c = b.to_char().unwrap();
        assert_eq!(HangulBlock::from_char(c), Ok(b));
    }
}

#[test]
fn push_pop_returns_jamo_in_reverse() {
    let mut composer = BlockComposer::new();
    let typed = ['ㄷ', 'ㄷ', 'ㅗ', 'ㅐ', 'ㄹ', 'ㅂ'];
    for c in typed.iter() {
        assert_eq!(composer.push(&j(*c)), BlockPushResult::Success);
    }
    assert_eq!(composer.block_as_string(), Ok(Some('뙓')));
    for (k, c) in typed.iter().rev().enumerate() {
        let expected = if k == typed.len() - 1 {
            BlockPopStatus::PoppedAndEmpty(j(*c))
        } else {
            BlockPopStatus::PoppedAndNonEmpty(j(*c))
        };
        assert_eq!(composer.pop(), expected);
    }
    assert_eq!(composer.pop(), BlockPopStatus::NothingToPop);
    assert_eq!(composer, BlockComposer::new());
}

#[test]
fn non_combining_second_initial_is_invalid() {
    let mut composer = BlockComposer::new();
    assert_eq!(composer.push(&j('ㄱ')), BlockPushResult::Success);
    assert_eq!(composer.push(&j('ㄹ')), BlockPushResult::InvalidHangul);
    assert_eq!(composer.state(), BlockCompositionState::ExpectingDoubleInitialOrVowel);
    assert_eq!(composer.try_as_complete_block(), Ok(BlockCompletionStatus::Incomplete(j('ㄱ'))));
}

#[test]
fn vowel_first_and_non_combining_vowel_are_invalid() {
    let mut composer = BlockComposer::new();
    assert_eq!(composer.push(&j('ㅏ')), BlockPushResult::InvalidHangul);
    assert_eq!(composer.push(&j('ㄳ')), BlockPushResult::InvalidHangul);
    assert_eq!(composer, BlockComposer::new());
    assert_eq!(composer.push(&j('ㄱ')), BlockPushResult::Success);
    assert_eq!(composer.push(&j('ㅗ')), BlockPushResult::Success);
    // a vowel that does not combine with the stored one is refused outright
    assert_eq!(composer.push(&j('ㅓ')), BlockPushResult::InvalidHangul);
    assert_eq!(composer.state(), BlockCompositionState::ExpectingCompositeVowelOrFinal);
}

#[test]
fn completion_and_display() {
    let mut composer = BlockComposer::new();
    assert_eq!(composer.try_as_complete_block(), Ok(BlockCompletionStatus::Empty));
    assert_eq!(composer.block_as_string(), Ok(None));
    composer.push(&j('ㄲ'));
    assert_eq!(composer.try_as_complete_block(), Ok(BlockCompletionStatus::Incomplete(j('ㄲ'))));
    assert_eq!(composer.block_as_string(), Ok(Some('\u{1101}')));
    composer.push(&j('ㅏ'));
    composer.push(&j('ㄹ'));
    composer.push(&j('ㄱ'));
    assert_eq!(
        composer.try_as_complete_block(),
        Ok(BlockCompletionStatus::Complete(block('ㄲ', 'ㅏ', Some('ㄺ'))))
    );
    assert_eq!(composer.block_as_string(), Ok(Some('깕')));
    assert_eq!(composer.push(&j('ㄳ')), BlockPushResult::StartNewBlockNoPop);
    assert_eq!(composer.push(&j('ㅣ')), BlockPushResult::PopAndStartNewBlock);
}

#[test]
fn reopening_a_block() {
    let composer = BlockComposer::from_composed_block(&block('ㄲ', 'ㅘ', Some('ㄺ'))).unwrap();
    assert_eq!(composer.state(), BlockCompositionState::ExpectingNextBlock);
    assert_eq!(
        composer.try_as_complete_block(),
        Ok(BlockCompletionStatus::Complete(block('ㄲ', 'ㅘ', Some('ㄺ'))))
    );
    let plain = BlockComposer::from_composed_block(&block('ㄱ', 'ㅏ', None)).unwrap();
    assert_eq!(plain.state(), BlockCompositionState::ExpectingCompositeVowelOrFinal);
    let malformed = HangulBlock { initial: j('ㅏ'), vowel: j('ㄱ'), final_optional: None };
    assert_eq!(BlockComposer::from_composed_block(&malformed), Err(BlockError::MalformedBlock));
    let bad_final = block_with_final('ㄸ');
    assert!(!bad_final.is_well_formed());
    assert_eq!(BlockComposer::from_composed_block(&bad_final), Err(BlockError::MalformedBlock));
}

#[test]
fn blocks_to_string_reports_first_failure() {
    let blocks = vec![
        block('ㄱ', 'ㅏ', None),
        HangulBlock { initial: j('ㅏ'), vowel: j('ㅏ'), final_optional: None },
    ];
    assert_eq!(hangul_blocks_vec_to_string(&blocks), Err(BlockError::InvalidCodepoint(0)));
    assert_eq!(hangul_blocks_vec_to_string(&vec![]), Ok(String::new()));
}

#[test]
fn final_without_final_encoding_fails_to_convert() {
    assert_eq!(block_with_final('ㄸ').to_char(), Err(0));
    assert_eq!(block_with_final('ㅉ').to_char(), Err(0));
    assert_eq!(block_with_final('ㄲ').to_char(), Ok('갂'));
}

#[test]
fn popping_undoes_the_last_push_exactly() {
    let mut composer = BlockComposer::new();
    composer.push(&j('ㄱ'));
    composer.push(&j('ㄱ'));
    assert_eq!(composer.pop(), BlockPopStatus::PoppedAndNonEmpty(j('ㄱ')));
    assert_eq!(composer.state(), BlockCompositionState::ExpectingDoubleInitialOrVowel);
    assert_eq!(composer.push(&j('ㄱ')), BlockPushResult::Success);
    assert_eq!(composer.state(), BlockCompositionState::ExpectingVowel);

    let mut double = BlockComposer::new();
    double.push(&j('ㄲ'));
    assert_eq!(double.state(), BlockCompositionState::ExpectingVowel);
    double.push(&j('ㅏ'));
    assert_eq!(double.pop(), BlockPopStatus::PoppedAndNonEmpty(j('ㅏ')));
    assert_eq!(double.state(), BlockCompositionState::ExpectingVowel);
}
