use hangul_cd::block::{BlockComposer, BlockCompositionState, BlockPushResult, HangulBlock};
use hangul_cd::jamo::{
    Jamo, JamoConsonantComposite, JamoConsonantSingular, JamoVowelComposite, JamoVowelSingular,
};
use hangul_cd::word::{HangulWordComposer, WordError, WordPushResult};

fn j(c: char) -> Jamo {
    Jamo::from_compatibility_jamo(c).unwrap()
}

fn type_all(composer: &mut HangulWordComposer, input: &str) {
    for c in input.chars() {
        assert_eq!(composer.push_char(c), Ok(WordPushResult::Continue), "on {}", c);
    }
}

fn gan() -> HangulBlock {
    HangulBlock {
        initial: Jamo::Consonant(JamoConsonantSingular::Giyeok),
        vowel: Jamo::Vowel(JamoVowelSingular::A),
        final_optional: Some(Jamo::Consonant(JamoConsonantSingular::Nieun)),
    }
}

fn yo() -> HangulBlock {
    HangulBlock {
        initial: Jamo::Consonant(JamoConsonantSingular::Ieung),
        vowel: Jamo::Vowel(JamoVowelSingular::Yo),
        final_optional: None,
    }
}

#[test]
fn word_start_new_block_valid() {
    let mut composer = HangulWordComposer::new();
    assert_eq!(composer.push_char('ㄱ'), Ok(WordPushResult::Continue));
    assert_eq!(composer.push_char('ㅏ'), Ok(WordPushResult::Continue));
    assert_eq!(composer.push_char('ㄴ'), Ok(WordPushResult::Continue));
    assert_eq!(composer.push_char('ㅇ'), Ok(WordPushResult::Continue));
    assert_eq!(composer.prev_blocks(), &vec![gan()]);
    assert_eq!(composer.push_char('ㅛ'), Ok(WordPushResult::Continue));
    assert_eq!(composer.push_char('ㅉ'), Ok(WordPushResult::Continue));
    assert_eq!(composer.prev_blocks(), &vec![gan(), yo()]);
}

#[test]
fn compose_start_new_block_valid() {
    let mut composer = HangulWordComposer::new();
    assert_eq!(composer.push(&j('ㄱ')), Ok(WordPushResult::Continue));
    assert_eq!(composer.push(&j('ㅏ')), Ok(WordPushResult::Continue));
    assert_eq!(composer.push(&j('ㄴ')), Ok(WordPushResult::Continue));
    // the block composer alone signals that ㅇ begins a new block
    let mut lone = BlockComposer::from_composed_block(&gan()).unwrap();
    assert_eq!(lone.push(&j('ㅇ')), BlockPushResult::StartNewBlockNoPop);
    assert_eq!(composer.start_new_block(j('ㅇ')), Ok(()));
    assert_eq!(composer.prev_blocks(), &vec![gan()]);
    assert_eq!(composer.cur_block().state(), BlockCompositionState::ExpectingDoubleInitialOrVowel);
    assert_eq!(composer.push(&j('ㅛ')), Ok(WordPushResult::Continue));
    assert_eq!(composer.start_new_block(j('ㅉ')), Ok(()));
    assert_eq!(composer.prev_blocks(), &vec![gan(), yo()]);
}

#[test]
fn word_start_new_block_invalid() {
    let mut composer = HangulWordComposer::new();
    assert_eq!(
        composer.start_new_block(Jamo::Vowel(JamoVowelSingular::A)),
        Err(WordError::CouldNotStartNewBlock('ㅏ', BlockPushResult::InvalidHangul))
    );
    let _ = composer.push_char('ㄱ');
    assert_eq!(
        composer.start_new_block(Jamo::CompositeVowel(JamoVowelComposite::Wae)),
        Err(WordError::CannotCompleteCurrentBlock(Jamo::Consonant(JamoConsonantSingular::Giyeok)))
    );
}

#[test]
fn compose_start_new_block_invalid() {
    let mut composer = HangulWordComposer::new();
    assert_eq!(
        composer.start_new_block(j('ㅏ')),
        Err(WordError::CouldNotStartNewBlock('ㅏ', BlockPushResult::InvalidHangul))
    );
    let _ = composer.push(&j('ㄱ'));
    assert_eq!(
        composer.start_new_block(j('ㅘ')),
        Err(WordError::CannotCompleteCurrentBlock(j('ㄱ')))
    );
}

#[test]
fn word_push_char_valid() {
    let mut composer = HangulWordComposer::new();
    assert_eq!(composer.push_char('ㄱ'), Ok(WordPushResult::Continue));
    assert_eq!(composer.push_char('ㅏ'), Ok(WordPushResult::Continue));
    assert_eq!(composer.push_char('ㄴ'), Ok(WordPushResult::Continue));
}

#[test]
fn compose_push_char_valid() {
    let mut composer = HangulWordComposer::new();
    assert_eq!(composer.push_char('ㄱ'), Ok(WordPushResult::Continue));
    assert_eq!(composer.push_char('ㅏ'), Ok(WordPushResult::Continue));
    assert_eq!(composer.push_char('ㄴ'), Ok(WordPushResult::Continue));
    assert_eq!(composer.as_string(), Ok("간".to_string()));
}

#[test]
fn word_push_char_invalid_hangul() {
    let mut composer = HangulWordComposer::new();
    assert_eq!(composer.push_char('ㄱ'), Ok(WordPushResult::Continue));
    assert_eq!(composer.push_char('ㅏ'), Ok(WordPushResult::Continue));
    assert_eq!(composer.push_char('ㄹ'), Ok(WordPushResult::Continue));
    assert_eq!(composer.push_char('ㄽ'), Ok(WordPushResult::InvalidHangul));
}

#[test]
fn compose_push_char_invalid_hangul() {
    let mut composer = HangulWordComposer::new();
    assert_eq!(composer.push_char('ㄱ'), Ok(WordPushResult::Continue));
    assert_eq!(composer.push_char('ㅏ'), Ok(WordPushResult::Continue));
    assert_eq!(composer.push_char('ㄹ'), Ok(WordPushResult::Continue));
    assert_eq!(composer.push_char('ㄽ'), Ok(WordPushResult::InvalidHangul));
    assert_eq!(composer.as_string(), Ok("갈".to_string()));
}

#[test]
fn word_push_char_next_block() {
    let mut composer = HangulWordComposer::new();
    assert_eq!(composer.push_char('ㄱ'), Ok(WordPushResult::Continue));
    assert_eq!(composer.push_char('ㅏ'), Ok(WordPushResult::Continue));
    assert_eq!(composer.push_char('ㄴ'), Ok(WordPushResult::Continue));
    assert_eq!(composer.push_char('ㅇ'), Ok(WordPushResult::Continue));
}

#[test]
fn compose_push_char_next_block() {
    let mut composer = HangulWordComposer::new();
    assert_eq!(composer.push_char('ㄱ'), Ok(WordPushResult::Continue));
    assert_eq!(composer.push_char('ㅏ'), Ok(WordPushResult::Continue));
    assert_eq!(composer.push_char('ㄴ'), Ok(WordPushResult::Continue));
    assert_eq!(composer.push_char('ㅇ'), Ok(WordPushResult::Continue));
    assert_eq!(composer.prev_blocks().len(), 1);
}

#[test]
fn word_push_char_non_hangul() {
    let mut composer = HangulWordComposer::new();
    assert_eq!(composer.push_char('ㄱ'), Ok(WordPushResult::Continue));
    assert_eq!(composer.push_char('ㅏ'), Ok(WordPushResult::Continue));
    assert_eq!(composer.push_char('A'), Ok(WordPushResult::NonHangul));
}

#[test]
fn compose_push_char_non_hangul() {
    let mut composer = HangulWordComposer::new();
    assert_eq!(composer.push_char('ㄱ'), Ok(WordPushResult::Continue));
    assert_eq!(composer.push_char('ㅏ'), Ok(WordPushResult::Continue));
    assert_eq!(composer.push_char('A'), Ok(WordPushResult::NonHangul));
    assert_eq!(composer.as_string(), Ok("가".to_string()));
}

#[test]
fn word_test_single_word_annyeonghaseyo_as_string() {
    let mut composer = HangulWordComposer::new();
    type_all(&mut composer, "ㅇㅏㄴㄴㅕㅇㅎㅏㅅㅔㅇㅛ");
    let result_string = composer.as_string().unwrap();
    assert_eq!(result_string, "안녕하세요".to_string());
}

#[test]
fn compose_test_single_word_annyeonghaseyo_as_string() {
    let mut composer = HangulWordComposer::new();
    assert_eq!(composer.push_char('ㅇ'), Ok(WordPushResult::Continue));
    assert_eq!(composer.push_char('ㅏ'), Ok(WordPushResult::Continue));
    assert_eq!(composer.push_char('ㄴ'), Ok(WordPushResult::Continue));
    assert_eq!(composer.push_char('ㄴ'), Ok(WordPushResult::Continue));
    assert_eq!(composer.push_char('ㅕ'), Ok(WordPushResult::Continue));
    assert_eq!(composer.push_char('ㅇ'), Ok(WordPushResult::Continue));
    assert_eq!(composer.push_char('ㅎ'), Ok(WordPushResult::Continue));
    assert_eq!(composer.push_char('ㅏ'), Ok(WordPushResult::Continue));
    assert_eq!(composer.push_char('ㅅ'), Ok(WordPushResult::Continue));
    // ㅔ after the final ㅅ carries it into a new block
    assert_eq!(composer.pop_and_start_new_block(j('ㅔ')), Ok(()));
    assert_eq!(composer.push_char('ㅇ'), Ok(WordPushResult::Continue));
    assert_eq!(composer.pop_and_start_new_block(j('ㅛ')), Ok(()));
    let result_string = composer.as_string().unwrap();
    assert_eq!(result_string, "안녕하세요".to_string());
}

#[test]
fn word_test_single_word_eopseoyo_as_string() {
    let mut composer = HangulWordComposer::new();
    type_all(&mut composer, "ㅇㅓㅂㅅㅇㅓㅇㅛ");
    let result_string = composer.as_string().unwrap();
    assert_eq!(result_string, "없어요".to_string());
}

#[test]
fn compose_test_single_word_eopseoyo_as_string() {
    let mut composer = HangulWordComposer::new();
    assert_eq!(composer.push_char('ㅇ'), Ok(WordPushResult::Continue));
    assert_eq!(composer.push_char('ㅓ'), Ok(WordPushResult::Continue));
    assert_eq!(composer.push_char('ㅂ'), Ok(WordPushResult::Continue));
    assert_eq!(composer.push_char('ㅅ'), Ok(WordPushResult::Continue));
    assert_eq!(composer.start_new_block(j('ㅇ')), Ok(()));
    assert_eq!(composer.push_char('ㅓ'), Ok(WordPushResult::Continue));
    assert_eq!(composer.push_char('ㅇ'), Ok(WordPushResult::Continue));
    assert_eq!(composer.pop_and_start_new_block(j('ㅛ')), Ok(()));
    let result_string = composer.as_string().unwrap();
    assert_eq!(result_string, "없어요".to_string());
}

#[test]
fn word_test_incomplete_block_as_string() {
    let mut composer = HangulWordComposer::new();
    assert_eq!(composer.push_char('ㅇ'), Ok(WordPushResult::Continue));
    let result_string = composer.as_string().unwrap();
    assert_eq!(result_string, "ᄋ".to_string());
}

#[test]
fn compose_test_incomplete_block_as_string() {
    let mut composer = HangulWordComposer::new();
    assert_eq!(composer.push_char('ㅇ'), Ok(WordPushResult::Continue));
    let result_string = composer.as_string().unwrap();
    // a lone jamo is shown in its modern encoding
    assert_eq!(result_string, "\u{110B}".to_string());
}

#[test]
fn word_test_deletions() {
    let mut composer = HangulWordComposer::new();
    type_all(&mut composer, "ㅇㅏㄴㄴㅕ");
    assert_eq!(composer.pop().unwrap().unwrap().char_compatibility(), 'ㅕ');
    assert_eq!(composer.pop().unwrap().unwrap().char_compatibility(), 'ㄴ');
    assert_eq!(composer.pop().unwrap().unwrap().char_compatibility(), 'ㄴ');
    assert_eq!(composer.pop().unwrap().unwrap().char_compatibility(), 'ㅏ');
    assert_eq!(composer.pop().unwrap().unwrap().char_compatibility(), 'ㅇ');
    assert_eq!(composer.pop(), Ok(None));
}

#[test]
fn compose_test_deletions() {
    let mut composer = HangulWordComposer::new();
    type_all(&mut composer, "ㅇㅏㄴ");
    assert_eq!(composer.start_new_block(j('ㄴ')), Ok(()));
    assert_eq!(composer.push_char('ㅕ'), Ok(WordPushResult::Continue));
    assert_eq!(composer.pop(), Ok(Some(j('ㅕ'))));
    assert_eq!(composer.pop(), Ok(Some(j('ㄴ'))));
    assert_eq!(composer.pop(), Ok(Some(j('ㄴ'))));
    assert_eq!(composer.pop(), Ok(Some(j('ㅏ'))));
    assert_eq!(composer.pop(), Ok(Some(j('ㅇ'))));
    assert_eq!(composer.pop(), Ok(None));
}

#[test]
fn word_test_deletion_then_write_again() {
    let mut composer = HangulWordComposer::new();
    type_all(&mut composer, "ㅇㅏㄴ");
    assert_eq!(composer.pop().unwrap().unwrap().char_compatibility(), 'ㄴ');
    assert_eq!(composer.pop().unwrap().unwrap().char_compatibility(), 'ㅏ');
    assert_eq!(composer.pop().unwrap().unwrap().char_compatibility(), 'ㅇ');
    type_all(&mut composer, "ㅇㅏㄴ");
    let result_string = composer.as_string().unwrap();
    assert_eq!(result_string, "안".to_string());
}

#[test]
fn compose_test_deletion_then_write_again() {
    let mut composer = HangulWordComposer::new();
    type_all(&mut composer, "ㅇㅏㄴ");
    assert_eq!(composer.pop(), Ok(Some(j('ㄴ'))));
    assert_eq!(composer.pop(), Ok(Some(j('ㅏ'))));
    assert_eq!(composer.pop(), Ok(Some(j('ㅇ'))));
    type_all(&mut composer, "ㅇㅏㄴ");
    let result_string = composer.as_string().unwrap();
    assert_eq!(result_string, "안".to_string());
}

#[test]
fn word_deletion_removes_empty_block() {
    let mut composer = HangulWordComposer::new();
    type_all(&mut composer, "ㅇㅏㄴㄴ");
    assert_eq!(composer.pop().unwrap().unwrap().char_compatibility(), 'ㄴ');
    assert_eq!(composer.as_string().unwrap(), "안".to_string());
}

#[test]
fn compose_deletion_removes_empty_block() {
    let mut composer = HangulWordComposer::new();
    type_all(&mut composer, "ㅇㅏㄴ");
    assert_eq!(composer.start_new_block(j('ㄴ')), Ok(()));
    assert_eq!(composer.pop(), Ok(Some(j('ㄴ'))));
    assert_eq!(composer.as_string().unwrap(), "안".to_string());
}

#[test]
fn test_complete_current_block() {
    let mut composer = HangulWordComposer::new();
    type_all(&mut composer, "ㅇㅏㄴ");
    assert!(composer.complete_current_block().is_ok());
    assert_eq!(composer.prev_blocks().len(), 1);
    assert_eq!(composer.cur_block(), &BlockComposer::new());
    let result_string = composer.as_string().unwrap();
    assert_eq!(result_string, "안".to_string());
}

#[test]
fn typing_then_popping_three_times_empties_the_word() {
    let mut composer = HangulWordComposer::new();
    type_all(&mut composer, "ㄱㅏㄴ");
    assert_eq!(composer.pop(), Ok(Some(j('ㄴ'))));
    assert_eq!(composer.pop(), Ok(Some(j('ㅏ'))));
    assert_eq!(composer.pop(), Ok(Some(j('ㄱ'))));
    assert_eq!(composer.pop(), Ok(None));
    assert!(composer.prev_blocks().is_empty());
    assert_eq!(composer.cur_block(), &BlockComposer::new());
    assert_eq!(composer.as_string(), Ok(String::new()));
}

#[test]
fn popping_reopens_previous_block_jamo_by_jamo() {
    let mut composer = HangulWordComposer::new();
    type_all(&mut composer, "ㄲㅘㄹㄱㅏ");
    assert_eq!(composer.as_string(), Ok("꽐가".to_string()));
    assert_eq!(composer.pop(), Ok(Some(j('ㅏ'))));
    assert_eq!(composer.pop(), Ok(Some(j('ㄱ'))));
    assert_eq!(composer.as_string(), Ok("꽐".to_string()));
    assert_eq!(composer.pop(), Ok(Some(j('ㄹ'))));
    assert_eq!(composer.pop(), Ok(Some(j('ㅏ'))));
    assert_eq!(composer.pop(), Ok(Some(j('ㅗ'))));
    assert_eq!(composer.as_string(), Ok("\u{1101}".to_string()));
    assert_eq!(composer.pop(), Ok(Some(j('ㄱ'))));
    assert_eq!(composer.pop(), Ok(Some(j('ㄱ'))));
    assert_eq!(composer.pop(), Ok(None));
}

#[test]
fn composite_final_moves_its_second_part() {
    let mut composer = HangulWordComposer::new();
    type_all(&mut composer, "ㄷㅏㄹㄱㅣ");
    assert_eq!(composer.as_string(), Ok("달기".to_string()));
    let mut composer = HangulWordComposer::new();
    type_all(&mut composer, "ㄷㅏㄺㅣ");
    assert_eq!(composer.as_string(), Ok("달기".to_string()));
}

#[test]
fn composite_that_cannot_begin_a_block_fails_after_a_full_block() {
    let mut composer = HangulWordComposer::new();
    type_all(&mut composer, "ㄷㅏㄺ");
    assert_eq!(
        composer.push(&Jamo::CompositeConsonant(JamoConsonantComposite::GiyeokSiot)),
        Err(WordError::CouldNotStartNewBlock('ㄳ', BlockPushResult::InvalidHangul))
    );
    assert_eq!(composer.pop_and_start_new_block(j('ㅏ')), Err(WordError::NothingToPop));
}

#[test]
fn pop_and_start_without_final_fails() {
    let mut composer = HangulWordComposer::new();
    type_all(&mut composer, "ㄱㅏ");
    assert_eq!(composer.pop_and_start_new_block(j('ㅏ')), Err(WordError::NothingToPop));
    assert_eq!(composer.as_string(), Ok("가".to_string()));
}

#[test]
fn push_char_reports_unknown_jamo() {
    let mut composer = HangulWordComposer::new();
    assert_eq!(
        composer.push_char('\u{3130}'),
        Err(WordError::JamoError(hangul_cd::jamo::JamoError::FromCharError('\u{3130}')))
    );
}

#[test]
fn annyeonghaseyo_block_signals_and_rendering() {
    let mut first = BlockComposer::new();
    for c in "ㅇㅏㄴ".chars() {
        assert_eq!(first.push(&j(c)), BlockPushResult::Success);
    }
    assert_eq!(first.push(&j('ㄴ')), BlockPushResult::StartNewBlockNoPop);
    let mut third = BlockComposer::new();
    for c in "ㅎㅏㅅ".chars() {
        assert_eq!(third.push(&j(c)), BlockPushResult::Success);
    }
    assert_eq!(third.push(&j('ㅔ')), BlockPushResult::PopAndStartNewBlock);
    let mut fourth = BlockComposer::new();
    for c in "ㅅㅔㅇ".chars() {
        assert_eq!(fourth.push(&j(c)), BlockPushResult::Success);
    }
    assert_eq!(fourth.push(&j('ㅛ')), BlockPushResult::PopAndStartNewBlock);

    let mut composer = HangulWordComposer::new();
    type_all(&mut composer, "ㅇㅏㄴㄴㅕㅇㅎㅏㅅㅔㅇㅛ");
    assert_eq!(composer.prev_blocks().len(), 4);
    assert_eq!(composer.as_string(), Ok("안녕하세요".to_string()));
}
