use hangul_cd::keymap::map_key_to_jamo;
use hangul_cd::string::StringComposer;

#[test]
fn keys_map_to_jamo() {
    assert_eq!(map_key_to_jamo('r'), Some('ㄱ'));
    assert_eq!(map_key_to_jamo('R'), Some('ㄲ'));
    assert_eq!(map_key_to_jamo('k'), Some('ㅏ'));
    assert_eq!(map_key_to_jamo('P'), Some('ㅖ'));
    assert_eq!(map_key_to_jamo('l'), Some('ㅣ'));
    assert_eq!(map_key_to_jamo('1'), None);
    assert_eq!(map_key_to_jamo(' '), None);
    assert_eq!(map_key_to_jamo('F'), None);
}

#[test]
fn typing_roman_keys_composes_hangul() {
    let mut composer = StringComposer::new();
    for key in "dkssudgktpdy rmf".chars() {
        let input = map_key_to_jamo(key).unwrap_or(key);
        composer.push_char(input).unwrap();
    }
    assert_eq!(composer.as_string(), Ok("안녕하세요 글".to_string()));
}
