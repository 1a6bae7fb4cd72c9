use vstd::prelude::*;

use crate::jamo::{jamo_of_compatibility, Jamo};

verus! {

/// The jamo on each key of the two-set (2-beolsik) keyboard, typed on a
/// roman layout; shifted keys give the double consonants and ㅒ, ㅖ.
pub open spec fn two_set_jamo(key_char: char) -> Option<char> {
    match key_char {
        // Consonants
        'r' => Some('ㄱ'),
        'R' => Some('ㄲ'),
        's' => Some('ㄴ'),
        'e' => Some('ㄷ'),
        'E' => Some('ㄸ'),
        'f' => Some('ㄹ'),
        'a' => Some('ㅁ'),
        'q' => Some('ㅂ'),
        'Q' => Some('ㅃ'),
        't' => Some('ㅅ'),
        'T' => Some('ㅆ'),
        'd' => Some('ㅇ'),
        'w' => Some('ㅈ'),
        'W' => Some('ㅉ'),
        'c' => Some('ㅊ'),
        'z' => Some('ㅋ'),
        'x' => Some('ㅌ'),
        'v' => Some('ㅍ'),
        'g' => Some('ㅎ'),
        // Vowels
        'k' => Some('ㅏ'),
        'o' => Some('ㅐ'),
        'O' => Some('ㅒ'),
        'i' => Some('ㅑ'),
        'j' => Some('ㅓ'),
        'p' => Some('ㅔ'),
        'P' => Some('ㅖ'),
        'u' => Some('ㅕ'),
        'h' => Some('ㅗ'),
        'y' => Some('ㅛ'),
        'n' => Some('ㅜ'),
        'b' => Some('ㅠ'),
        'm' => Some('ㅡ'),
        'l' => Some('ㅣ'),
        _ => None,
    }
}

/// The compatibility jamo that a key of the two-set keyboard types; `None`
/// for a key that types no jamo.
pub fn map_key_to_jamo(key_char: char) -> (r: Option<char>)
    ensures
        r == two_set_jamo(key_char),
        r matches Some(c) ==> jamo_of_compatibility(c) matches Some(j) && (j is Consonant || j is Vowel
            || (j matches Jamo::CompositeConsonant(d) && d.is_valid_initial())),
{
    match key_char {
        // Consonants
        'r' => Some('ㄱ'),
        'R' => Some('ㄲ'),
        's' => Some('ㄴ'),
        'e' => Some('ㄷ'),
        'E' => Some('ㄸ'),
        'f' => Some('ㄹ'),
        'a' => Some('ㅁ'),
        'q' => Some('ㅂ'),
        'Q' => Some('ㅃ'),
        't' => Some('ㅅ'),
        'T' => Some('ㅆ'),
        'd' => Some('ㅇ'),
        'w' => Some('ㅈ'),
        'W' => Some('ㅉ'),
        'c' => Some('ㅊ'),
        'z' => Some('ㅋ'),
        'x' => Some('ㅌ'),
        'v' => Some('ㅍ'),
        'g' => Some('ㅎ'),
        // Vowels
        'k' => Some('ㅏ'),
        'o' => Some('ㅐ'),
        'O' => Some('ㅒ'),
        'i' => Some('ㅑ'),
        'j' => Some('ㅓ'),
        'p' => Some('ㅔ'),
        'P' => Some('ㅖ'),
        'u' => Some('ㅕ'),
        'h' => Some('ㅗ'),
        'y' => Some('ㅛ'),
        'n' => Some('ㅜ'),
        'b' => Some('ㅠ'),
        'm' => Some('ㅡ'),
        'l' => Some('ㅣ'),
        _ => None,
    }
}

} // verus!
