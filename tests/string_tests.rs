use hangul_cd::string::StringComposer;

fn compose(input: &str) -> StringComposer {
    let mut composer = StringComposer::new();
    for c in input.chars() {
        composer.push_char(c).unwrap();
    }
    composer
}

#[test]
fn test_no_new_words() {
    let composer = compose("ㅎㅏㄴㄱㅡㄹ");
    let result = composer.as_string().unwrap();
    assert_eq!(result, "한글".to_string());
}

#[test]
fn test_new_hangul_word() {
    let composer = compose("ㅎㅏㄴㄱㅡㄹ ㅇㅏㄴㄴㅕㅇㅎㅏㅅㅔㅇㅛ");
    let result = composer.as_string().unwrap();
    assert_eq!(result, "한글 안녕하세요".to_string());
}

#[test]
fn test_new_non_hangul_word() {
    let composer = compose("ㅎㅏㄴㄱㅡㄹ beans");
    let result = composer.as_string().unwrap();
    assert_eq!(result, "한글 beans".to_string());
}

#[test]
fn test_multiple_words() {
    let composer = compose("ㅎㅏㄴㄱㅡㄹ 123  \n ㅇㅏㄴㄴㅕㅇ!");
    let result = composer.as_string().unwrap();
    assert_eq!(result, "한글 123  \n 안녕!".to_string());
}

#[test]
fn test_backspace() {
    let mut composer = compose("ㅇㅏㄴㄴㅕㅇ ㄹㅏㅁㅕㄴ");
    for _ in 0..7 {
        composer.pop().unwrap();
    }
    let result = composer.as_string().unwrap();
    assert_eq!(result, "안".to_string());
}

#[test]
fn popping_across_a_space() {
    let mut composer = compose("ㅎㅏㄴㄱㅡㄹ ㅇㅏㄴㄴㅕㅇㅎㅏㅅㅔㅇㅛ");
    let popped: Vec<Option<char>> = (0..12).map(|_| composer.pop().unwrap()).collect();
    assert_eq!(
        popped,
        vec![
            Some('\u{116D}'),
            Some('\u{110B}'),
            Some('\u{1166}'),
            Some('\u{1109}'),
            Some('\u{1161}'),
            Some('\u{1112}'),
            Some('\u{110B}'),
            Some('\u{1167}'),
            Some('\u{1102}'),
            Some('\u{1102}'),
            Some('\u{1161}'),
            Some('\u{110B}'),
        ]
    );
    assert_eq!(composer.as_string(), Ok("한글 ".to_string()));
    assert_eq!(composer.pop(), Ok(Some(' ')));
    assert_eq!(composer.as_string(), Ok("한글".to_string()));
    assert_eq!(composer.pop(), Ok(Some('글')));
    assert_eq!(composer.pop(), Ok(Some('한')));
    assert_eq!(composer.pop(), Ok(None));
    assert_eq!(composer.as_string(), Ok(String::new()));
}

#[test]
fn invalid_jamo_ends_the_word() {
    let mut composer = compose("ㄱㅏㄹ");
    composer.push_char('ㄽ').unwrap();
    assert_eq!(composer.as_string(), Ok("갈ㄽ".to_string()));
    composer.push_char('ㅏ').unwrap();
    assert_eq!(composer.as_string(), Ok("갈ㄽㅏ".to_string()));
    assert_eq!(composer.pop(), Ok(Some('ㅏ')));
}

#[test]
fn unknown_jamo_is_an_error() {
    let mut composer = StringComposer::default();
    assert!(composer.push_char('\u{3130}').is_err());
    assert_eq!(composer.as_string(), Ok(String::new()));
}
