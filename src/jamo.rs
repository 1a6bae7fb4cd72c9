use vstd::prelude::*;

verus! {

// Arithmetic of precomposed syllables: a syllable's codepoint is
// S_BASE + (l * V_COUNT + v) * T_COUNT + t, where l, v and t are the offsets
// of its initial, vowel and final from L_BASE, V_BASE and T_BASE (t is 0
// when there is no final).
pub const S_BASE: u32 = 0xAC00;
pub const L_BASE: u32 = 0x1100;
pub const V_BASE: u32 = 0x1161;
pub const T_BASE: u32 = 0x11A7;
pub const L_COUNT: u32 = 19;
pub const V_COUNT: u32 = 21;
pub const T_COUNT: u32 = 28;
pub const N_COUNT: u32 = 588;
pub const S_COUNT: u32 = 11172;

/// An error for Jamo-related failures.
#[derive(Debug, PartialEq, Eq, Clone, Copy, Structural)]
pub enum JamoError {
    /// The character lies in a jamo range but is not a recognised jamo.
    FromCharError(char),
}

/// The Unicode family of a character: modern jamo, compatibility jamo,
/// archaic jamo of either block, or no jamo at all.
#[derive(Debug, PartialEq, Eq, Clone, Copy, Structural)]
pub enum JamoUnicodeType {
    /// Modern jamo of the syllable arithmetic (initials, vowels, finals).
    Modern,
    /// Compatibility jamo, as typed and displayed.
    Compatibility,
    /// Archaic or non-standard jamo of the modern block.
    NonStandardModern,
    /// Archaic or non-standard jamo of the compatibility block.
    NonStandardCompatibility,
    /// Not a Hangul jamo.
    NonHangul,
}

impl JamoUnicodeType {
    pub open spec fn spec_evaluate(c: char) -> JamoUnicodeType {
        let n = c as u32;
        if (0x1100 <= n <= 0x1112) || (0x1161 <= n <= 0x1175) || (0x11A8 <= n <= 0x11C2) {
            JamoUnicodeType::Modern
        } else if 0x3130 <= n <= 0x3163 {
            JamoUnicodeType::Compatibility
        } else if (0x1113 <= n <= 0x1160) || (0x1176 <= n <= 0x11A7) || (0x11C3 <= n <= 0x11FF) {
            JamoUnicodeType::NonStandardModern
        } else if 0x3164 <= n <= 0x318F {
            JamoUnicodeType::NonStandardCompatibility
        } else {
            JamoUnicodeType::NonHangul
        }
    }

    /// Determines the Unicode family of a character.
    #[verifier::when_used_as_spec(spec_evaluate)]
    pub fn evaluate(c: char) -> (r: JamoUnicodeType)
        ensures
            r == Self::spec_evaluate(c),
    {
        let n = c as u32;
        if (0x1100 <= n && n <= 0x1112) || (0x1161 <= n && n <= 0x1175) || (0x11A8 <= n && n <= 0x11C2) {
            JamoUnicodeType::Modern
        } else if 0x3130 <= n && n <= 0x3163 {
            JamoUnicodeType::Compatibility
        } else if (0x1113 <= n && n <= 0x1160) || (0x1176 <= n && n <= 0x11A7) || (0x11C3 <= n && n <= 0x11FF) {
            JamoUnicodeType::NonStandardModern
        } else if 0x3164 <= n && n <= 0x318F {
            JamoUnicodeType::NonStandardCompatibility
        } else {
            JamoUnicodeType::NonHangul
        }
    }
}

/// The block in which jamo characters are written out.
#[derive(Debug, PartialEq, Eq, Clone, Copy, Structural)]
pub enum JamoUnicodeEra {
    Modern,
    Compatibility,
}

/// Where a jamo stands in a syllable block.
#[derive(Debug, PartialEq, Eq, Clone, Copy, Structural)]
pub enum JamoPosition {
    Initial,
    Vowel,
    Final,
}

/// The modern encoding, at position `pos`, of the jamo that the
/// compatibility character `c` stands for; `c` itself where there is none.
pub open spec fn modernized(c: char, pos: JamoPosition) -> char {
    match jamo_of_compatibility(c) {
        Some(j) => match j.char_modern(pos) {
            Some(m) => m,
            None => c,
        },
        None => c,
    }
}

/// Converts a compatibility jamo to its modern encoding as an initial consonant.
/// A character that is not such a compatibility jamo comes back unchanged.
pub fn modernized_jamo_initial(c: char) -> (r: char)
    ensures
        r == modernized(c, JamoPosition::Initial),
{
    match c {
        '\u{3131}' => '\u{1100}',
        '\u{3132}' => '\u{1101}',
        '\u{3134}' => '\u{1102}',
        '\u{3137}' => '\u{1103}',
        '\u{3138}' => '\u{1104}',
        '\u{3139}' => '\u{1105}',
        '\u{3141}' => '\u{1106}',
        '\u{3142}' => '\u{1107}',
        '\u{3143}' => '\u{1108}',
        '\u{3145}' => '\u{1109}',
        '\u{3146}' => '\u{110A}',
        '\u{3147}' => '\u{110B}',
        '\u{3148}' => '\u{110C}',
        '\u{3149}' => '\u{110D}',
        '\u{314A}' => '\u{110E}',
        '\u{314B}' => '\u{110F}',
        '\u{314C}' => '\u{1110}',
        '\u{314D}' => '\u{1111}',
        '\u{314E}' => '\u{1112}',
        other => other,
    }
}

/// Converts a compatibility jamo to its modern encoding as a vowel.
/// A character that is not such a compatibility jamo comes back unchanged.
pub fn modernized_jamo_vowel(c: char) -> (r: char)
    ensures
        r == modernized(c, JamoPosition::Vowel),
{
    match c {
        '\u{314F}' => '\u{1161}',
        '\u{3150}' => '\u{1162}',
        '\u{3151}' => '\u{1163}',
        '\u{3152}' => '\u{1164}',
        '\u{3153}' => '\u{1165}',
        '\u{3154}' => '\u{1166}',
        '\u{3155}' => '\u{1167}',
        '\u{3156}' => '\u{1168}',
        '\u{3157}' => '\u{1169}',
        '\u{3158}' => '\u{116A}',
        '\u{3159}' => '\u{116B}',
        '\u{315A}' => '\u{116C}',
        '\u{315B}' => '\u{116D}',
        '\u{315C}' => '\u{116E}',
        '\u{315D}' => '\u{116F}',
        '\u{315E}' => '\u{1170}',
        '\u{315F}' => '\u{1171}',
        '\u{3160}' => '\u{1172}',
        '\u{3161}' => '\u{1173}',
        '\u{3162}' => '\u{1174}',
        '\u{3163}' => '\u{1175}',
        other => other,
    }
}

/// Converts a compatibility jamo to its modern encoding as a final consonant.
/// A character that is not such a compatibility jamo comes back unchanged.
pub fn modernized_jamo_final(c: char) -> (r: char)
    ensures
        r == modernized(c, JamoPosition::Final),
{
    match c {
        '\u{3131}' => '\u{11A8}',
        '\u{3132}' => '\u{11A9}',
        '\u{3133}' => '\u{11AA}',
        '\u{3134}' => '\u{11AB}',
        '\u{3135}' => '\u{11AC}',
        '\u{3136}' => '\u{11AD}',
        '\u{3137}' => '\u{11AE}',
        '\u{3139}' => '\u{11AF}',
        '\u{313A}' => '\u{11B0}',
        '\u{313B}' => '\u{11B1}',
        '\u{313C}' => '\u{11B2}',
        '\u{313D}' => '\u{11B3}',
        '\u{313E}' => '\u{11B4}',
        '\u{313F}' => '\u{11B5}',
        '\u{3140}' => '\u{11B6}',
        '\u{3141}' => '\u{11B7}',
        '\u{3142}' => '\u{11B8}',
        '\u{3144}' => '\u{11B9}',
        '\u{3145}' => '\u{11BA}',
        '\u{3146}' => '\u{11BB}',
        '\u{3147}' => '\u{11BC}',
        '\u{3148}' => '\u{11BD}',
        '\u{314A}' => '\u{11BE}',
        '\u{314B}' => '\u{11BF}',
        '\u{314C}' => '\u{11C0}',
        '\u{314D}' => '\u{11C1}',
        '\u{314E}' => '\u{11C2}',
        other => other,
    }
}

/// The compatibility jamo of a modern jamo, whatever its position: the
/// compatibility character of a jamo whose modern encoding, at some position,
/// is `c`; any other character stands for itself.
pub open spec fn compatibility_of_modern(c: char) -> char {
    if exists|j: Jamo, p: JamoPosition| #[trigger] j.char_modern(p) == Some(c) {
        (choose|j: Jamo, p: JamoPosition| #[trigger] j.char_modern(p) == Some(c)).0.char_compatibility()
    } else {
        c
    }
}

/// Converts a modern jamo character to its compatibility equivalent. A
/// character that is not a modern jamo comes back unchanged.
#[verifier::rlimit(100)]
pub fn modern_to_compatibility_jamo(c: char) -> (r: char)
    ensures
        forall|j: Jamo, p: JamoPosition| #[trigger] j.char_modern(p) == Some(c) ==> r == j.char_compatibility(),
        r == compatibility_of_modern(c),
{
    proof {
        lemma_modern_block_encodes(c);
    }
    let r = match c {
        '\u{1100}' => '\u{3131}',
        '\u{1101}' => '\u{3132}',
        '\u{1102}' => '\u{3134}',
        '\u{1103}' => '\u{3137}',
        '\u{1104}' => '\u{3138}',
        '\u{1105}' => '\u{3139}',
        '\u{1106}' => '\u{3141}',
        '\u{1107}' => '\u{3142}',
        '\u{1108}' => '\u{3143}',
        '\u{1109}' => '\u{3145}',
        '\u{110A}' => '\u{3146}',
        '\u{110B}' => '\u{3147}',
        '\u{110C}' => '\u{3148}',
        '\u{110D}' => '\u{3149}',
        '\u{110E}' => '\u{314A}',
        '\u{110F}' => '\u{314B}',
        '\u{1110}' => '\u{314C}',
        '\u{1111}' => '\u{314D}',
        '\u{1112}' => '\u{314E}',
        '\u{1161}' => '\u{314F}',
        '\u{1162}' => '\u{3150}',
        '\u{1163}' => '\u{3151}',
        '\u{1164}' => '\u{3152}',
        '\u{1165}' => '\u{3153}',
        '\u{1166}' => '\u{3154}',
        '\u{1167}' => '\u{3155}',
        '\u{1168}' => '\u{3156}',
        '\u{1169}' => '\u{3157}',
        '\u{116A}' => '\u{3158}',
        '\u{116B}' => '\u{3159}',
        '\u{116C}' => '\u{315A}',
        '\u{116D}' => '\u{315B}',
        '\u{116E}' => '\u{315C}',
        '\u{116F}' => '\u{315D}',
        '\u{1170}' => '\u{315E}',
        '\u{1171}' => '\u{315F}',
        '\u{1172}' => '\u{3160}',
        '\u{1173}' => '\u{3161}',
        '\u{1174}' => '\u{3162}',
        '\u{1175}' => '\u{3163}',
        '\u{11A8}' => '\u{3131}',
        '\u{11A9}' => '\u{3132}',
        '\u{11AA}' => '\u{3133}',
        '\u{11AB}' => '\u{3134}',
        '\u{11AC}' => '\u{3135}',
        '\u{11AD}' => '\u{3136}',
        '\u{11AE}' => '\u{3137}',
        '\u{11AF}' => '\u{3139}',
        '\u{11B0}' => '\u{313A}',
        '\u{11B1}' => '\u{313B}',
        '\u{11B2}' => '\u{313C}',
        '\u{11B3}' => '\u{313D}',
        '\u{11B4}' => '\u{313E}',
        '\u{11B5}' => '\u{313F}',
        '\u{11B6}' => '\u{3140}',
        '\u{11B7}' => '\u{3141}',
        '\u{11B8}' => '\u{3142}',
        '\u{11B9}' => '\u{3144}',
        '\u{11BA}' => '\u{3145}',
        '\u{11BB}' => '\u{3146}',
        '\u{11BC}' => '\u{3147}',
        '\u{11BD}' => '\u{3148}',
        '\u{11BE}' => '\u{314A}',
        '\u{11BF}' => '\u{314B}',
        '\u{11C0}' => '\u{314C}',
        '\u{11C1}' => '\u{314D}',
        '\u{11C2}' => '\u{314E}',
        other => other,
    };
    r
}

/// The jamo that a compatibility character stands for.
pub open spec fn jamo_of_compatibility(c: char) -> Option<Jamo> {
    match c {
        'ㄱ' => Some(Jamo::Consonant(JamoConsonantSingular::Giyeok)),
        'ㄴ' => Some(Jamo::Consonant(JamoConsonantSingular::Nieun)),
        'ㄷ' => Some(Jamo::Consonant(JamoConsonantSingular::Digeut)),
        'ㄹ' => Some(Jamo::Consonant(JamoConsonantSingular::Rieul)),
        'ㅁ' => Some(Jamo::Consonant(JamoConsonantSingular::Mieum)),
        'ㅂ' => Some(Jamo::Consonant(JamoConsonantSingular::Bieup)),
        'ㅅ' => Some(Jamo::Consonant(JamoConsonantSingular::Siot)),
        'ㅇ' => Some(Jamo::Consonant(JamoConsonantSingular::Ieung)),
        'ㅈ' => Some(Jamo::Consonant(JamoConsonantSingular::Jieut)),
        'ㅊ' => Some(Jamo::Consonant(JamoConsonantSingular::Chieut)),
        'ㅋ' => Some(Jamo::Consonant(JamoConsonantSingular::Kieuk)),
        'ㅌ' => Some(Jamo::Consonant(JamoConsonantSingular::Tieut)),
        'ㅍ' => Some(Jamo::Consonant(JamoConsonantSingular::Pieup)),
        'ㅎ' => Some(Jamo::Consonant(JamoConsonantSingular::Hieut)),
        'ㄳ' => Some(Jamo::CompositeConsonant(JamoConsonantComposite::GiyeokSiot)),
        'ㄵ' => Some(Jamo::CompositeConsonant(JamoConsonantComposite::NieunJieut)),
        'ㄶ' => Some(Jamo::CompositeConsonant(JamoConsonantComposite::NieunHieut)),
        'ㄺ' => Some(Jamo::CompositeConsonant(JamoConsonantComposite::RieulGiyeok)),
        'ㄻ' => Some(Jamo::CompositeConsonant(JamoConsonantComposite::RieulMieum)),
        'ㄼ' => Some(Jamo::CompositeConsonant(JamoConsonantComposite::RieulBieup)),
        'ㄽ' => Some(Jamo::CompositeConsonant(JamoConsonantComposite::RieulSiot)),
        'ㄾ' => Some(Jamo::CompositeConsonant(JamoConsonantComposite::RieulTieut)),
        'ㄿ' => Some(Jamo::CompositeConsonant(JamoConsonantComposite::RieulPieup)),
        'ㅀ' => Some(Jamo::CompositeConsonant(JamoConsonantComposite::RieulHieut)),
        'ㄲ' => Some(Jamo::CompositeConsonant(JamoConsonantComposite::SsangGiyeok)),
        'ㄸ' => Some(Jamo::CompositeConsonant(JamoConsonantComposite::SsangDigeut)),
        'ㅃ' => Some(Jamo::CompositeConsonant(JamoConsonantComposite::SsangBieup)),
        'ㅆ' => Some(Jamo::CompositeConsonant(JamoConsonantComposite::SsangSiot)),
        'ㅉ' => Some(Jamo::CompositeConsonant(JamoConsonantComposite::SsangJieut)),
        'ㅄ' => Some(Jamo::CompositeConsonant(JamoConsonantComposite::BieupSiot)),
        'ㅏ' => Some(Jamo::Vowel(JamoVowelSingular::A)),
        'ㅐ' => Some(Jamo::Vowel(JamoVowelSingular::Ae)),
        'ㅑ' => Some(Jamo::Vowel(JamoVowelSingular::Ya)),
        'ㅒ' => Some(Jamo::Vowel(JamoVowelSingular::Yae)),
        'ㅓ' => Some(Jamo::Vowel(JamoVowelSingular::Eo)),
        'ㅔ' => Some(Jamo::Vowel(JamoVowelSingular::E)),
        'ㅕ' => Some(Jamo::Vowel(JamoVowelSingular::Yeo)),
        'ㅖ' => Some(Jamo::Vowel(JamoVowelSingular::Ye)),
        'ㅗ' => Some(Jamo::Vowel(JamoVowelSingular::O)),
        'ㅛ' => Some(Jamo::Vowel(JamoVowelSingular::Yo)),
        'ㅜ' => Some(Jamo::Vowel(JamoVowelSingular::U)),
        'ㅠ' => Some(Jamo::Vowel(JamoVowelSingular::Yu)),
        'ㅡ' => Some(Jamo::Vowel(JamoVowelSingular::Eu)),
        'ㅣ' => Some(Jamo::Vowel(JamoVowelSingular::I)),
        'ㅘ' => Some(Jamo::CompositeVowel(JamoVowelComposite::Wa)),
        'ㅙ' => Some(Jamo::CompositeVowel(JamoVowelComposite::Wae)),
        'ㅚ' => Some(Jamo::CompositeVowel(JamoVowelComposite::Oe)),
        'ㅝ' => Some(Jamo::CompositeVowel(JamoVowelComposite::Wo)),
        'ㅞ' => Some(Jamo::CompositeVowel(JamoVowelComposite::We)),
        'ㅟ' => Some(Jamo::CompositeVowel(JamoVowelComposite::Wi)),
        'ㅢ' => Some(Jamo::CompositeVowel(JamoVowelComposite::Ui)),
        _ => None,
    }
}

/// A Hangul jamo, or a character that is not one. Archaic or non-standard
/// jamo are not Hangul here: they take no part in modern syllables.
#[derive(Debug, PartialEq, Eq, Clone, Copy, Structural)]
pub enum Character {
    NonHangul(char),
    Hangul(Jamo),
}

impl Character {
    /// How `from_char` classifies `c`.
    pub open spec fn spec_from_char(c: char) -> Result<Character, JamoError> {
        match JamoUnicodeType::evaluate(c) {
            JamoUnicodeType::Modern => Character::spec_from_compatibility_jamo(compatibility_of_modern(c)),
            JamoUnicodeType::Compatibility => Character::spec_from_compatibility_jamo(c),
            _ => Ok(Character::NonHangul(c)),
        }
    }

    pub open spec fn spec_from_compatibility_jamo(c: char) -> Result<Character, JamoError> {
        match jamo_of_compatibility(c) {
            Some(j) => Ok(Character::Hangul(j)),
            None => Err(JamoError::FromCharError(c)),
        }
    }

    /// Classifies a character as a Hangul jamo (of either encoding) or as
    /// non-Hangul. Fails only for a character of the compatibility or modern
    /// jamo ranges that is no recognised jamo.
    pub fn from_char(c: char) -> (r: Result<Character, JamoError>)
        ensures
            r == Character::spec_from_char(c),
    {
        match JamoUnicodeType::evaluate(c) {
            JamoUnicodeType::Modern => {
                let cc = modern_to_compatibility_jamo(c);
                Self::from_compatibility_jamo(cc)
            },
            JamoUnicodeType::Compatibility => Self::from_compatibility_jamo(c),
            _ => Ok(Character::NonHangul(c)),
        }
    }

    fn from_compatibility_jamo(c: char) -> (r: Result<Character, JamoError>)
        ensures
            r == Character::spec_from_compatibility_jamo(c),
    {
        match Jamo::from_compatibility_jamo(c) {
            Ok(j) => Ok(Character::Hangul(j)),
            Err(e) => Err(e),
        }
    }

    /// The jamo, where this is a Hangul character.
    pub fn jamo(&self) -> (r: Option<&Jamo>)
        ensures
            match *self {
                Character::Hangul(j) => r == Some(&j),
                Character::NonHangul(_) => r is None,
            },
    {
        match self {
            Character::Hangul(jamo) => Some(jamo),
            Character::NonHangul(_) => None,
        }
    }
}

/// A Hangul jamo: a singular or composite consonant, or a singular or
/// composite vowel.
#[derive(Debug, PartialEq, Eq, Clone, Copy, Structural)]
pub enum Jamo {
    Consonant(JamoConsonantSingular),
    CompositeConsonant(JamoConsonantComposite),
    Vowel(JamoVowelSingular),
    CompositeVowel(JamoVowelComposite),
}

/// A singular consonant.
#[derive(Debug, PartialEq, Eq, Clone, Copy, Structural)]
pub enum JamoConsonantSingular {
    /// ㄱ
    Giyeok,
    /// ㄴ
    Nieun,
    /// ㄷ
    Digeut,
    /// ㄹ
    Rieul,
    /// ㅁ
    Mieum,
    /// ㅂ
    Bieup,
    /// ㅅ
    Siot,
    /// ㅇ
    Ieung,
    /// ㅈ
    Jieut,
    /// ㅊ
    Chieut,
    /// ㅋ
    Kieuk,
    /// ㅌ
    Tieut,
    /// ㅍ
    Pieup,
    /// ㅎ
    Hieut,
}

impl JamoConsonantSingular {
    /// The modern encoding at a position: initials and finals are encoded
    /// apart, and a consonant has no vowel encoding.
    #[verifier::when_used_as_spec(spec_char_modern)]
    pub fn char_modern(&self, position: JamoPosition) -> (r: Option<char>)
        ensures
            r == self.spec_char_modern(position),
    {
        match position {
            JamoPosition::Initial => Some(self.char_modern_initial()),
            JamoPosition::Final => Some(self.char_modern_final()),
            _ => None,
        }
    }

    pub open spec fn spec_char_modern(&self, position: JamoPosition) -> Option<char> {
        match position {
            JamoPosition::Initial => Some(self.spec_char_modern_initial()),
            JamoPosition::Final => Some(self.spec_char_modern_final()),
            JamoPosition::Vowel => None,
        }
    }

    pub open spec fn spec_char_modern_initial(&self) -> char {
        match self {
            JamoConsonantSingular::Giyeok => '\u{1100}',
            JamoConsonantSingular::Nieun => '\u{1102}',
            JamoConsonantSingular::Digeut => '\u{1103}',
            JamoConsonantSingular::Rieul => '\u{1105}',
            JamoConsonantSingular::Mieum => '\u{1106}',
            JamoConsonantSingular::Bieup => '\u{1107}',
            JamoConsonantSingular::Siot => '\u{1109}',
            JamoConsonantSingular::Ieung => '\u{110B}',
            JamoConsonantSingular::Jieut => '\u{110C}',
            JamoConsonantSingular::Chieut => '\u{110E}',
            JamoConsonantSingular::Kieuk => '\u{110F}',
            JamoConsonantSingular::Tieut => '\u{1110}',
            JamoConsonantSingular::Pieup => '\u{1111}',
            JamoConsonantSingular::Hieut => '\u{1112}',
        }
    }

    fn char_modern_initial(&self) -> (r: char)
        ensures
            r == self.spec_char_modern_initial(),
    {
        match self {
            JamoConsonantSingular::Giyeok => '\u{1100}',
            JamoConsonantSingular::Nieun => '\u{1102}',
            JamoConsonantSingular::Digeut => '\u{1103}',
            JamoConsonantSingular::Rieul => '\u{1105}',
            JamoConsonantSingular::Mieum => '\u{1106}',
            JamoConsonantSingular::Bieup => '\u{1107}',
            JamoConsonantSingular::Siot => '\u{1109}',
            JamoConsonantSingular::Ieung => '\u{110B}',
            JamoConsonantSingular::Jieut => '\u{110C}',
            JamoConsonantSingular::Chieut => '\u{110E}',
            JamoConsonantSingular::Kieuk => '\u{110F}',
            JamoConsonantSingular::Tieut => '\u{1110}',
            JamoConsonantSingular::Pieup => '\u{1111}',
            JamoConsonantSingular::Hieut => '\u{1112}',
        }
    }

    pub open spec fn spec_char_modern_final(&self) -> char {
        match self {
            JamoConsonantSingular::Giyeok => '\u{11A8}',
            JamoConsonantSingular::Nieun => '\u{11AB}',
            JamoConsonantSingular::Digeut => '\u{11AE}',
            JamoConsonantSingular::Rieul => '\u{11AF}',
            JamoConsonantSingular::Mieum => '\u{11B7}',
            JamoConsonantSingular::Bieup => '\u{11B8}',
            JamoConsonantSingular::Siot => '\u{11BA}',
            JamoConsonantSingular::Ieung => '\u{11BC}',
            JamoConsonantSingular::Jieut => '\u{11BD}',
            JamoConsonantSingular::Chieut => '\u{11BE}',
            JamoConsonantSingular::Kieuk => '\u{11BF}',
            JamoConsonantSingular::Tieut => '\u{11C0}',
            JamoConsonantSingular::Pieup => '\u{11C1}',
            JamoConsonantSingular::Hieut => '\u{11C2}',
        }
    }

    fn char_modern_final(&self) -> (r: char)
        ensures
            r == self.spec_char_modern_final(),
    {
        match self {
            JamoConsonantSingular::Giyeok => '\u{11A8}',
            JamoConsonantSingular::Nieun => '\u{11AB}',
            JamoConsonantSingular::Digeut => '\u{11AE}',
            JamoConsonantSingular::Rieul => '\u{11AF}',
            JamoConsonantSingular::Mieum => '\u{11B7}',
            JamoConsonantSingular::Bieup => '\u{11B8}',
            JamoConsonantSingular::Siot => '\u{11BA}',
            JamoConsonantSingular::Ieung => '\u{11BC}',
            JamoConsonantSingular::Jieut => '\u{11BD}',
            JamoConsonantSingular::Chieut => '\u{11BE}',
            JamoConsonantSingular::Kieuk => '\u{11BF}',
            JamoConsonantSingular::Tieut => '\u{11C0}',
            JamoConsonantSingular::Pieup => '\u{11C1}',
            JamoConsonantSingular::Hieut => '\u{11C2}',
        }
    }

    pub open spec fn spec_char_compatibility(&self) -> char {
        match self {
            JamoConsonantSingular::Giyeok => 'ㄱ',
            JamoConsonantSingular::Nieun => 'ㄴ',
            JamoConsonantSingular::Digeut => 'ㄷ',
            JamoConsonantSingular::Rieul => 'ㄹ',
            JamoConsonantSingular::Mieum => 'ㅁ',
            JamoConsonantSingular::Bieup => 'ㅂ',
            JamoConsonantSingular::Siot => 'ㅅ',
            JamoConsonantSingular::Ieung => 'ㅇ',
            JamoConsonantSingular::Jieut => 'ㅈ',
            JamoConsonantSingular::Chieut => 'ㅊ',
            JamoConsonantSingular::Kieuk => 'ㅋ',
            JamoConsonantSingular::Tieut => 'ㅌ',
            JamoConsonantSingular::Pieup => 'ㅍ',
            JamoConsonantSingular::Hieut => 'ㅎ',
        }
    }

    /// The compatibility jamo of this consonant.
    #[verifier::when_used_as_spec(spec_char_compatibility)]
    pub fn char_compatibility(&self) -> (r: char)
        ensures
            r == self.spec_char_compatibility(),
    {
        match self {
            JamoConsonantSingular::Giyeok => 'ㄱ',
            JamoConsonantSingular::Nieun => 'ㄴ',
            JamoConsonantSingular::Digeut => 'ㄷ',
            JamoConsonantSingular::Rieul => 'ㄹ',
            JamoConsonantSingular::Mieum => 'ㅁ',
            JamoConsonantSingular::Bieup => 'ㅂ',
            JamoConsonantSingular::Siot => 'ㅅ',
            JamoConsonantSingular::Ieung => 'ㅇ',
            JamoConsonantSingular::Jieut => 'ㅈ',
            JamoConsonantSingular::Chieut => 'ㅊ',
            JamoConsonantSingular::Kieuk => 'ㅋ',
            JamoConsonantSingular::Tieut => 'ㅌ',
            JamoConsonantSingular::Pieup => 'ㅍ',
            JamoConsonantSingular::Hieut => 'ㅎ',
        }
    }

    pub open spec fn spec_combine_for_initial(&self, other: &JamoConsonantSingular) -> Option<JamoConsonantComposite> {
        match (self, other) {
            (JamoConsonantSingular::Giyeok, JamoConsonantSingular::Giyeok) => Some(JamoConsonantComposite::SsangGiyeok),
            (JamoConsonantSingular::Digeut, JamoConsonantSingular::Digeut) => Some(JamoConsonantComposite::SsangDigeut),
            (JamoConsonantSingular::Bieup, JamoConsonantSingular::Bieup) => Some(JamoConsonantComposite::SsangBieup),
            (JamoConsonantSingular::Siot, JamoConsonantSingular::Siot) => Some(JamoConsonantComposite::SsangSiot),
            (JamoConsonantSingular::Jieut, JamoConsonantSingular::Jieut) => Some(JamoConsonantComposite::SsangJieut),
            _ => None,
        }
    }

    /// The double consonant that `self` followed by `other` make at the
    /// start of a syllable, if any.
    #[verifier::when_used_as_spec(spec_combine_for_initial)]
    pub fn combine_for_initial(&self, other: &JamoConsonantSingular) -> (r: Option<JamoConsonantComposite>)
        ensures
            r == self.spec_combine_for_initial(other),
    {
        match (self, other) {
            (JamoConsonantSingular::Giyeok, JamoConsonantSingular::Giyeok) => Some(JamoConsonantComposite::SsangGiyeok),
            (JamoConsonantSingular::Digeut, JamoConsonantSingular::Digeut) => Some(JamoConsonantComposite::SsangDigeut),
            (JamoConsonantSingular::Bieup, JamoConsonantSingular::Bieup) => Some(JamoConsonantComposite::SsangBieup),
            (JamoConsonantSingular::Siot, JamoConsonantSingular::Siot) => Some(JamoConsonantComposite::SsangSiot),
            (JamoConsonantSingular::Jieut, JamoConsonantSingular::Jieut) => Some(JamoConsonantComposite::SsangJieut),
            _ => None,
        }
    }

    pub open spec fn spec_combine_for_final(&self, other: &JamoConsonantSingular) -> Option<JamoConsonantComposite> {
        match (self, other) {
            (JamoConsonantSingular::Giyeok, JamoConsonantSingular::Siot) => Some(JamoConsonantComposite::GiyeokSiot),
            (JamoConsonantSingular::Nieun, JamoConsonantSingular::Jieut) => Some(JamoConsonantComposite::NieunJieut),
            (JamoConsonantSingular::Nieun, JamoConsonantSingular::Hieut) => Some(JamoConsonantComposite::NieunHieut),
            (JamoConsonantSingular::Rieul, JamoConsonantSingular::Giyeok) => Some(JamoConsonantComposite::RieulGiyeok),
            (JamoConsonantSingular::Rieul, JamoConsonantSingular::Mieum) => Some(JamoConsonantComposite::RieulMieum),
            (JamoConsonantSingular::Rieul, JamoConsonantSingular::Bieup) => Some(JamoConsonantComposite::RieulBieup),
            (JamoConsonantSingular::Rieul, JamoConsonantSingular::Siot) => Some(JamoConsonantComposite::RieulSiot),
            (JamoConsonantSingular::Rieul, JamoConsonantSingular::Tieut) => Some(JamoConsonantComposite::RieulTieut),
            (JamoConsonantSingular::Rieul, JamoConsonantSingular::Pieup) => Some(JamoConsonantComposite::RieulPieup),
            (JamoConsonantSingular::Rieul, JamoConsonantSingular::Hieut) => Some(JamoConsonantComposite::RieulHieut),
            (JamoConsonantSingular::Giyeok, JamoConsonantSingular::Giyeok) => Some(JamoConsonantComposite::SsangGiyeok),
            (JamoConsonantSingular::Siot, JamoConsonantSingular::Siot) => Some(JamoConsonantComposite::SsangSiot),
            (JamoConsonantSingular::Bieup, JamoConsonantSingular::Siot) => Some(JamoConsonantComposite::BieupSiot),
            _ => None,
        }
    }

    /// The composite consonant that `self` followed by `other` make at the
    /// end of a syllable, if any.
    #[verifier::when_used_as_spec(spec_combine_for_final)]
    pub fn combine_for_final(&self, other: &JamoConsonantSingular) -> (r: Option<JamoConsonantComposite>)
        ensures
            r == self.spec_combine_for_final(other),
    {
        match (self, other) {
            (JamoConsonantSingular::Giyeok, JamoConsonantSingular::Siot) => Some(JamoConsonantComposite::GiyeokSiot),
            (JamoConsonantSingular::Nieun, JamoConsonantSingular::Jieut) => Some(JamoConsonantComposite::NieunJieut),
            (JamoConsonantSingular::Nieun, JamoConsonantSingular::Hieut) => Some(JamoConsonantComposite::NieunHieut),
            (JamoConsonantSingular::Rieul, JamoConsonantSingular::Giyeok) => Some(JamoConsonantComposite::RieulGiyeok),
            (JamoConsonantSingular::Rieul, JamoConsonantSingular::Mieum) => Some(JamoConsonantComposite::RieulMieum),
            (JamoConsonantSingular::Rieul, JamoConsonantSingular::Bieup) => Some(JamoConsonantComposite::RieulBieup),
            (JamoConsonantSingular::Rieul, JamoConsonantSingular::Siot) => Some(JamoConsonantComposite::RieulSiot),
            (JamoConsonantSingular::Rieul, JamoConsonantSingular::Tieut) => Some(JamoConsonantComposite::RieulTieut),
            (JamoConsonantSingular::Rieul, JamoConsonantSingular::Pieup) => Some(JamoConsonantComposite::RieulPieup),
            (JamoConsonantSingular::Rieul, JamoConsonantSingular::Hieut) => Some(JamoConsonantComposite::RieulHieut),
            (JamoConsonantSingular::Giyeok, JamoConsonantSingular::Giyeok) => Some(JamoConsonantComposite::SsangGiyeok),
            (JamoConsonantSingular::Siot, JamoConsonantSingular::Siot) => Some(JamoConsonantComposite::SsangSiot),
            (JamoConsonantSingular::Bieup, JamoConsonantSingular::Siot) => Some(JamoConsonantComposite::BieupSiot),
            _ => None,
        }
    }
}

/// A composite consonant: a double consonant or a final cluster.
#[derive(Debug, PartialEq, Eq, Clone, Copy, Structural)]
pub enum JamoConsonantComposite {
    /// ㄳ
    GiyeokSiot,
    /// ㄵ
    NieunJieut,
    /// ㄶ
    NieunHieut,
    /// ㄺ
    RieulGiyeok,
    /// ㄻ
    RieulMieum,
    /// ㄼ
    RieulBieup,
    /// ㄽ
    RieulSiot,
    /// ㄾ
    RieulTieut,
    /// ㄿ
    RieulPieup,
    /// ㅀ
    RieulHieut,
    /// ㄲ
    SsangGiyeok,
    /// ㄸ
    SsangDigeut,
    /// ㅃ
    SsangBieup,
    /// ㅆ
    SsangSiot,
    /// ㅉ
    SsangJieut,
    /// ㅄ
    BieupSiot,
}

impl JamoConsonantComposite {
    /// The modern encoding at a position, where the composite has one there.
    #[verifier::when_used_as_spec(spec_char_modern)]
    pub fn char_modern(&self, position: JamoPosition) -> (r: Option<char>)
        ensures
            r == self.spec_char_modern(position),
    {
        match position {
            JamoPosition::Initial => self.char_modern_initial(),
            JamoPosition::Final => self.char_modern_final(),
            _ => None,
        }
    }

    pub open spec fn spec_char_modern(&self, position: JamoPosition) -> Option<char> {
        match position {
            JamoPosition::Initial => self.spec_char_modern_initial(),
            JamoPosition::Final => self.spec_char_modern_final(),
            JamoPosition::Vowel => None,
        }
    }

    pub open spec fn spec_char_modern_initial(&self) -> Option<char> {
        match self {
            JamoConsonantComposite::GiyeokSiot => None,
            JamoConsonantComposite::NieunJieut => None,
            JamoConsonantComposite::NieunHieut => None,
            JamoConsonantComposite::RieulGiyeok => None,
            JamoConsonantComposite::RieulMieum => None,
            JamoConsonantComposite::RieulBieup => None,
            JamoConsonantComposite::RieulSiot => None,
            JamoConsonantComposite::RieulTieut => None,
            JamoConsonantComposite::RieulPieup => None,
            JamoConsonantComposite::RieulHieut => None,
            JamoConsonantComposite::SsangGiyeok => Some('\u{1101}'),
            JamoConsonantComposite::SsangDigeut => Some('\u{1104}'),
            JamoConsonantComposite::SsangBieup => Some('\u{1108}'),
            JamoConsonantComposite::SsangSiot => Some('\u{110A}'),
            JamoConsonantComposite::SsangJieut => Some('\u{110D}'),
            JamoConsonantComposite::BieupSiot => None,
        }
    }

    fn char_modern_initial(&self) -> (r: Option<char>)
        ensures
            r == self.spec_char_modern_initial(),
    {
        match self {
            JamoConsonantComposite::GiyeokSiot => None,
            JamoConsonantComposite::NieunJieut => None,
            JamoConsonantComposite::NieunHieut => None,
            JamoConsonantComposite::RieulGiyeok => None,
            JamoConsonantComposite::RieulMieum => None,
            JamoConsonantComposite::RieulBieup => None,
            JamoConsonantComposite::RieulSiot => None,
            JamoConsonantComposite::RieulTieut => None,
            JamoConsonantComposite::RieulPieup => None,
            JamoConsonantComposite::RieulHieut => None,
            JamoConsonantComposite::SsangGiyeok => Some('\u{1101}'),
            JamoConsonantComposite::SsangDigeut => Some('\u{1104}'),
            JamoConsonantComposite::SsangBieup => Some('\u{1108}'),
            JamoConsonantComposite::SsangSiot => Some('\u{110A}'),
            JamoConsonantComposite::SsangJieut => Some('\u{110D}'),
            JamoConsonantComposite::BieupSiot => None,
        }
    }

    pub open spec fn spec_char_modern_final(&self) -> Option<char> {
        match self {
            JamoConsonantComposite::GiyeokSiot => Some('\u{11AA}'),
            JamoConsonantComposite::NieunJieut => Some('\u{11AC}'),
            JamoConsonantComposite::NieunHieut => Some('\u{11AD}'),
            JamoConsonantComposite::RieulGiyeok => Some('\u{11B0}'),
            JamoConsonantComposite::RieulMieum => Some('\u{11B1}'),
            JamoConsonantComposite::RieulBieup => Some('\u{11B2}'),
            JamoConsonantComposite::RieulSiot => Some('\u{11B3}'),
            JamoConsonantComposite::RieulTieut => Some('\u{11B4}'),
            JamoConsonantComposite::RieulPieup => Some('\u{11B5}'),
            JamoConsonantComposite::RieulHieut => Some('\u{11B6}'),
            JamoConsonantComposite::SsangGiyeok => Some('\u{11A9}'),
            JamoConsonantComposite::SsangDigeut => None,
            JamoConsonantComposite::SsangBieup => None,
            JamoConsonantComposite::SsangSiot => Some('\u{11BB}'),
            JamoConsonantComposite::SsangJieut => None,
            JamoConsonantComposite::BieupSiot => Some('\u{11B9}'),
        }
    }

    fn char_modern_final(&self) -> (r: Option<char>)
        ensures
            r == self.spec_char_modern_final(),
    {
        match self {
            JamoConsonantComposite::GiyeokSiot => Some('\u{11AA}'),
            JamoConsonantComposite::NieunJieut => Some('\u{11AC}'),
            JamoConsonantComposite::NieunHieut => Some('\u{11AD}'),
            JamoConsonantComposite::RieulGiyeok => Some('\u{11B0}'),
            JamoConsonantComposite::RieulMieum => Some('\u{11B1}'),
            JamoConsonantComposite::RieulBieup => Some('\u{11B2}'),
            JamoConsonantComposite::RieulSiot => Some('\u{11B3}'),
            JamoConsonantComposite::RieulTieut => Some('\u{11B4}'),
            JamoConsonantComposite::RieulPieup => Some('\u{11B5}'),
            JamoConsonantComposite::RieulHieut => Some('\u{11B6}'),
            JamoConsonantComposite::SsangGiyeok => Some('\u{11A9}'),
            JamoConsonantComposite::SsangDigeut => None,
            JamoConsonantComposite::SsangBieup => None,
            JamoConsonantComposite::SsangSiot => Some('\u{11BB}'),
            JamoConsonantComposite::SsangJieut => None,
            JamoConsonantComposite::BieupSiot => Some('\u{11B9}'),
        }
    }

    pub open spec fn spec_char_compatibility(&self) -> char {
        match self {
            JamoConsonantComposite::GiyeokSiot => 'ㄳ',
            JamoConsonantComposite::NieunJieut => 'ㄵ',
            JamoConsonantComposite::NieunHieut => 'ㄶ',
            JamoConsonantComposite::RieulGiyeok => 'ㄺ',
            JamoConsonantComposite::RieulMieum => 'ㄻ',
            JamoConsonantComposite::RieulBieup => 'ㄼ',
            JamoConsonantComposite::RieulSiot => 'ㄽ',
            JamoConsonantComposite::RieulTieut => 'ㄾ',
            JamoConsonantComposite::RieulPieup => 'ㄿ',
            JamoConsonantComposite::RieulHieut => 'ㅀ',
            JamoConsonantComposite::SsangGiyeok => 'ㄲ',
            JamoConsonantComposite::SsangDigeut => 'ㄸ',
            JamoConsonantComposite::SsangBieup => 'ㅃ',
            JamoConsonantComposite::SsangSiot => 'ㅆ',
            JamoConsonantComposite::SsangJieut => 'ㅉ',
            JamoConsonantComposite::BieupSiot => 'ㅄ',
        }
    }

    /// The compatibility jamo of this composite.
    #[verifier::when_used_as_spec(spec_char_compatibility)]
    pub fn char_compatibility(&self) -> (r: char)
        ensures
            r == self.spec_char_compatibility(),
    {
        match self {
            JamoConsonantComposite::GiyeokSiot => 'ㄳ',
            JamoConsonantComposite::NieunJieut => 'ㄵ',
            JamoConsonantComposite::NieunHieut => 'ㄶ',
            JamoConsonantComposite::RieulGiyeok => 'ㄺ',
            JamoConsonantComposite::RieulMieum => 'ㄻ',
            JamoConsonantComposite::RieulBieup => 'ㄼ',
            JamoConsonantComposite::RieulSiot => 'ㄽ',
            JamoConsonantComposite::RieulTieut => 'ㄾ',
            JamoConsonantComposite::RieulPieup => 'ㄿ',
            JamoConsonantComposite::RieulHieut => 'ㅀ',
            JamoConsonantComposite::SsangGiyeok => 'ㄲ',
            JamoConsonantComposite::SsangDigeut => 'ㄸ',
            JamoConsonantComposite::SsangBieup => 'ㅃ',
            JamoConsonantComposite::SsangSiot => 'ㅆ',
            JamoConsonantComposite::SsangJieut => 'ㅉ',
            JamoConsonantComposite::BieupSiot => 'ㅄ',
        }
    }

    pub open spec fn spec_decompose(&self) -> (Jamo, Jamo) {
        match self {
            JamoConsonantComposite::GiyeokSiot => (Jamo::Consonant(JamoConsonantSingular::Giyeok), Jamo::Consonant(JamoConsonantSingular::Siot)),
            JamoConsonantComposite::NieunJieut => (Jamo::Consonant(JamoConsonantSingular::Nieun), Jamo::Consonant(JamoConsonantSingular::Jieut)),
            JamoConsonantComposite::NieunHieut => (Jamo::Consonant(JamoConsonantSingular::Nieun), Jamo::Consonant(JamoConsonantSingular::Hieut)),
            JamoConsonantComposite::RieulGiyeok => (Jamo::Consonant(JamoConsonantSingular::Rieul), Jamo::Consonant(JamoConsonantSingular::Giyeok)),
            JamoConsonantComposite::RieulMieum => (Jamo::Consonant(JamoConsonantSingular::Rieul), Jamo::Consonant(JamoConsonantSingular::Mieum)),
            JamoConsonantComposite::RieulBieup => (Jamo::Consonant(JamoConsonantSingular::Rieul), Jamo::Consonant(JamoConsonantSingular::Bieup)),
            JamoConsonantComposite::RieulSiot => (Jamo::Consonant(JamoConsonantSingular::Rieul), Jamo::Consonant(JamoConsonantSingular::Siot)),
            JamoConsonantComposite::RieulTieut => (Jamo::Consonant(JamoConsonantSingular::Rieul), Jamo::Consonant(JamoConsonantSingular::Tieut)),
            JamoConsonantComposite::RieulPieup => (Jamo::Consonant(JamoConsonantSingular::Rieul), Jamo::Consonant(JamoConsonantSingular::Pieup)),
            JamoConsonantComposite::RieulHieut => (Jamo::Consonant(JamoConsonantSingular::Rieul), Jamo::Consonant(JamoConsonantSingular::Hieut)),
            JamoConsonantComposite::SsangGiyeok => (Jamo::Consonant(JamoConsonantSingular::Giyeok), Jamo::Consonant(JamoConsonantSingular::Giyeok)),
            JamoConsonantComposite::SsangDigeut => (Jamo::Consonant(JamoConsonantSingular::Digeut), Jamo::Consonant(JamoConsonantSingular::Digeut)),
            JamoConsonantComposite::SsangBieup => (Jamo::Consonant(JamoConsonantSingular::Bieup), Jamo::Consonant(JamoConsonantSingular::Bieup)),
            JamoConsonantComposite::SsangSiot => (Jamo::Consonant(JamoConsonantSingular::Siot), Jamo::Consonant(JamoConsonantSingular::Siot)),
            JamoConsonantComposite::SsangJieut => (Jamo::Consonant(JamoConsonantSingular::Jieut), Jamo::Consonant(JamoConsonantSingular::Jieut)),
            JamoConsonantComposite::BieupSiot => (Jamo::Consonant(JamoConsonantSingular::Bieup), Jamo::Consonant(JamoConsonantSingular::Siot)),
        }
    }

    /// The two singular consonants that make up this composite, in order.
    #[verifier::when_used_as_spec(spec_decompose)]
    pub fn decompose(&self) -> (r: (Jamo, Jamo))
        ensures
            r == self.spec_decompose(),
    {
        match self {
            JamoConsonantComposite::GiyeokSiot => (Jamo::Consonant(JamoConsonantSingular::Giyeok), Jamo::Consonant(JamoConsonantSingular::Siot)),
            JamoConsonantComposite::NieunJieut => (Jamo::Consonant(JamoConsonantSingular::Nieun), Jamo::Consonant(JamoConsonantSingular::Jieut)),
            JamoConsonantComposite::NieunHieut => (Jamo::Consonant(JamoConsonantSingular::Nieun), Jamo::Consonant(JamoConsonantSingular::Hieut)),
            JamoConsonantComposite::RieulGiyeok => (Jamo::Consonant(JamoConsonantSingular::Rieul), Jamo::Consonant(JamoConsonantSingular::Giyeok)),
            JamoConsonantComposite::RieulMieum => (Jamo::Consonant(JamoConsonantSingular::Rieul), Jamo::Consonant(JamoConsonantSingular::Mieum)),
            JamoConsonantComposite::RieulBieup => (Jamo::Consonant(JamoConsonantSingular::Rieul), Jamo::Consonant(JamoConsonantSingular::Bieup)),
            JamoConsonantComposite::RieulSiot => (Jamo::Consonant(JamoConsonantSingular::Rieul), Jamo::Consonant(JamoConsonantSingular::Siot)),
            JamoConsonantComposite::RieulTieut => (Jamo::Consonant(JamoConsonantSingular::Rieul), Jamo::Consonant(JamoConsonantSingular::Tieut)),
            JamoConsonantComposite::RieulPieup => (Jamo::Consonant(JamoConsonantSingular::Rieul), Jamo::Consonant(JamoConsonantSingular::Pieup)),
            JamoConsonantComposite::RieulHieut => (Jamo::Consonant(JamoConsonantSingular::Rieul), Jamo::Consonant(JamoConsonantSingular::Hieut)),
            JamoConsonantComposite::SsangGiyeok => (Jamo::Consonant(JamoConsonantSingular::Giyeok), Jamo::Consonant(JamoConsonantSingular::Giyeok)),
            JamoConsonantComposite::SsangDigeut => (Jamo::Consonant(JamoConsonantSingular::Digeut), Jamo::Consonant(JamoConsonantSingular::Digeut)),
            JamoConsonantComposite::SsangBieup => (Jamo::Consonant(JamoConsonantSingular::Bieup), Jamo::Consonant(JamoConsonantSingular::Bieup)),
            JamoConsonantComposite::SsangSiot => (Jamo::Consonant(JamoConsonantSingular::Siot), Jamo::Consonant(JamoConsonantSingular::Siot)),
            JamoConsonantComposite::SsangJieut => (Jamo::Consonant(JamoConsonantSingular::Jieut), Jamo::Consonant(JamoConsonantSingular::Jieut)),
            JamoConsonantComposite::BieupSiot => (Jamo::Consonant(JamoConsonantSingular::Bieup), Jamo::Consonant(JamoConsonantSingular::Siot)),
        }
    }

    pub open spec fn spec_is_valid_initial(&self) -> bool {
        match self {
            JamoConsonantComposite::GiyeokSiot => false,
            JamoConsonantComposite::NieunJieut => false,
            JamoConsonantComposite::NieunHieut => false,
            JamoConsonantComposite::RieulGiyeok => false,
            JamoConsonantComposite::RieulMieum => false,
            JamoConsonantComposite::RieulBieup => false,
            JamoConsonantComposite::RieulSiot => false,
            JamoConsonantComposite::RieulTieut => false,
            JamoConsonantComposite::RieulPieup => false,
            JamoConsonantComposite::RieulHieut => false,
            JamoConsonantComposite::SsangGiyeok => true,
            JamoConsonantComposite::SsangDigeut => true,
            JamoConsonantComposite::SsangBieup => true,
            JamoConsonantComposite::SsangSiot => true,
            JamoConsonantComposite::SsangJieut => true,
            JamoConsonantComposite::BieupSiot => false,
        }
    }

    /// Whether this composite may begin a syllable (the double consonants).
    #[verifier::when_used_as_spec(spec_is_valid_initial)]
    pub fn is_valid_initial(&self) -> (r: bool)
        ensures
            r == self.spec_is_valid_initial(),
    {
        match self {
            JamoConsonantComposite::GiyeokSiot => false,
            JamoConsonantComposite::NieunJieut => false,
            JamoConsonantComposite::NieunHieut => false,
            JamoConsonantComposite::RieulGiyeok => false,
            JamoConsonantComposite::RieulMieum => false,
            JamoConsonantComposite::RieulBieup => false,
            JamoConsonantComposite::RieulSiot => false,
            JamoConsonantComposite::RieulTieut => false,
            JamoConsonantComposite::RieulPieup => false,
            JamoConsonantComposite::RieulHieut => false,
            JamoConsonantComposite::SsangGiyeok => true,
            JamoConsonantComposite::SsangDigeut => true,
            JamoConsonantComposite::SsangBieup => true,
            JamoConsonantComposite::SsangSiot => true,
            JamoConsonantComposite::SsangJieut => true,
            JamoConsonantComposite::BieupSiot => false,
        }
    }

    pub open spec fn spec_is_valid_final(&self) -> bool {
        match self {
            JamoConsonantComposite::GiyeokSiot => true,
            JamoConsonantComposite::NieunJieut => true,
            JamoConsonantComposite::NieunHieut => true,
            JamoConsonantComposite::RieulGiyeok => true,
            JamoConsonantComposite::RieulMieum => true,
            JamoConsonantComposite::RieulBieup => true,
            JamoConsonantComposite::RieulSiot => true,
            JamoConsonantComposite::RieulTieut => true,
            JamoConsonantComposite::RieulPieup => true,
            JamoConsonantComposite::RieulHieut => true,
            JamoConsonantComposite::SsangGiyeok => true,
            JamoConsonantComposite::SsangDigeut => false,
            JamoConsonantComposite::SsangBieup => false,
            JamoConsonantComposite::SsangSiot => true,
            JamoConsonantComposite::SsangJieut => false,
            JamoConsonantComposite::BieupSiot => true,
        }
    }

    /// Whether this composite may end a syllable.
    #[verifier::when_used_as_spec(spec_is_valid_final)]
    pub fn is_valid_final(&self) -> (r: bool)
        ensures
            r == self.spec_is_valid_final(),
    {
        match self {
            JamoConsonantComposite::GiyeokSiot => true,
            JamoConsonantComposite::NieunJieut => true,
            JamoConsonantComposite::NieunHieut => true,
            JamoConsonantComposite::RieulGiyeok => true,
            JamoConsonantComposite::RieulMieum => true,
            JamoConsonantComposite::RieulBieup => true,
            JamoConsonantComposite::RieulSiot => true,
            JamoConsonantComposite::RieulTieut => true,
            JamoConsonantComposite::RieulPieup => true,
            JamoConsonantComposite::RieulHieut => true,
            JamoConsonantComposite::SsangGiyeok => true,
            JamoConsonantComposite::SsangDigeut => false,
            JamoConsonantComposite::SsangBieup => false,
            JamoConsonantComposite::SsangSiot => true,
            JamoConsonantComposite::SsangJieut => false,
            JamoConsonantComposite::BieupSiot => true,
        }
    }
}

/// A singular vowel.
#[derive(Debug, PartialEq, Eq, Clone, Copy, Structural)]
pub enum JamoVowelSingular {
    /// ㅏ
    A,
    /// ㅐ
    Ae,
    /// ㅑ
    Ya,
    /// ㅒ
    Yae,
    /// ㅓ
    Eo,
    /// ㅔ
    E,
    /// ㅕ
    Yeo,
    /// ㅖ
    Ye,
    /// ㅗ
    O,
    /// ㅛ
    Yo,
    /// ㅜ
    U,
    /// ㅠ
    Yu,
    /// ㅡ
    Eu,
    /// ㅣ
    I,
}

impl JamoVowelSingular {
    pub open spec fn spec_char_modern(&self) -> char {
        match self {
            JamoVowelSingular::A => '\u{1161}',
            JamoVowelSingular::Ae => '\u{1162}',
            JamoVowelSingular::Ya => '\u{1163}',
            JamoVowelSingular::Yae => '\u{1164}',
            JamoVowelSingular::Eo => '\u{1165}',
            JamoVowelSingular::E => '\u{1166}',
            JamoVowelSingular::Yeo => '\u{1167}',
            JamoVowelSingular::Ye => '\u{1168}',
            JamoVowelSingular::O => '\u{1169}',
            JamoVowelSingular::Yo => '\u{116D}',
            JamoVowelSingular::U => '\u{116E}',
            JamoVowelSingular::Yu => '\u{1172}',
            JamoVowelSingular::Eu => '\u{1173}',
            JamoVowelSingular::I => '\u{1175}',
        }
    }

    /// The modern encoding of this vowel.
    #[verifier::when_used_as_spec(spec_char_modern)]
    pub fn char_modern(&self) -> (r: char)
        ensures
            r == self.spec_char_modern(),
    {
        match self {
            JamoVowelSingular::A => '\u{1161}',
            JamoVowelSingular::Ae => '\u{1162}',
            JamoVowelSingular::Ya => '\u{1163}',
            JamoVowelSingular::Yae => '\u{1164}',
            JamoVowelSingular::Eo => '\u{1165}',
            JamoVowelSingular::E => '\u{1166}',
            JamoVowelSingular::Yeo => '\u{1167}',
            JamoVowelSingular::Ye => '\u{1168}',
            JamoVowelSingular::O => '\u{1169}',
            JamoVowelSingular::Yo => '\u{116D}',
            JamoVowelSingular::U => '\u{116E}',
            JamoVowelSingular::Yu => '\u{1172}',
            JamoVowelSingular::Eu => '\u{1173}',
            JamoVowelSingular::I => '\u{1175}',
        }
    }

    pub open spec fn spec_char_compatibility(&self) -> char {
        match self {
            JamoVowelSingular::A => 'ㅏ',
            JamoVowelSingular::Ae => 'ㅐ',
            JamoVowelSingular::Ya => 'ㅑ',
            JamoVowelSingular::Yae => 'ㅒ',
            JamoVowelSingular::Eo => 'ㅓ',
            JamoVowelSingular::E => 'ㅔ',
            JamoVowelSingular::Yeo => 'ㅕ',
            JamoVowelSingular::Ye => 'ㅖ',
            JamoVowelSingular::O => 'ㅗ',
            JamoVowelSingular::Yo => 'ㅛ',
            JamoVowelSingular::U => 'ㅜ',
            JamoVowelSingular::Yu => 'ㅠ',
            JamoVowelSingular::Eu => 'ㅡ',
            JamoVowelSingular::I => 'ㅣ',
        }
    }

    /// The compatibility jamo of this vowel.
    #[verifier::when_used_as_spec(spec_char_compatibility)]
    pub fn char_compatibility(&self) -> (r: char)
        ensures
            r == self.spec_char_compatibility(),
    {
        match self {
            JamoVowelSingular::A => 'ㅏ',
            JamoVowelSingular::Ae => 'ㅐ',
            JamoVowelSingular::Ya => 'ㅑ',
            JamoVowelSingular::Yae => 'ㅒ',
            JamoVowelSingular::Eo => 'ㅓ',
            JamoVowelSingular::E => 'ㅔ',
            JamoVowelSingular::Yeo => 'ㅕ',
            JamoVowelSingular::Ye => 'ㅖ',
            JamoVowelSingular::O => 'ㅗ',
            JamoVowelSingular::Yo => 'ㅛ',
            JamoVowelSingular::U => 'ㅜ',
            JamoVowelSingular::Yu => 'ㅠ',
            JamoVowelSingular::Eu => 'ㅡ',
            JamoVowelSingular::I => 'ㅣ',
        }
    }

    pub open spec fn spec_combine(&self, other: &JamoVowelSingular) -> Option<JamoVowelComposite> {
        match (self, other) {
            (JamoVowelSingular::O, JamoVowelSingular::A) => Some(JamoVowelComposite::Wa),
            (JamoVowelSingular::O, JamoVowelSingular::Ae) => Some(JamoVowelComposite::Wae),
            (JamoVowelSingular::O, JamoVowelSingular::I) => Some(JamoVowelComposite::Oe),
            (JamoVowelSingular::U, JamoVowelSingular::Eo) => Some(JamoVowelComposite::Wo),
            (JamoVowelSingular::U, JamoVowelSingular::E) => Some(JamoVowelComposite::We),
            (JamoVowelSingular::U, JamoVowelSingular::I) => Some(JamoVowelComposite::Wi),
            (JamoVowelSingular::Eu, JamoVowelSingular::I) => Some(JamoVowelComposite::Ui),
            _ => None,
        }
    }

    /// The composite vowel that `self` followed by `other` make, if any.
    #[verifier::when_used_as_spec(spec_combine)]
    pub fn combine(&self, other: &JamoVowelSingular) -> (r: Option<JamoVowelComposite>)
        ensures
            r == self.spec_combine(other),
    {
        match (self, other) {
            (JamoVowelSingular::O, JamoVowelSingular::A) => Some(JamoVowelComposite::Wa),
            (JamoVowelSingular::O, JamoVowelSingular::Ae) => Some(JamoVowelComposite::Wae),
            (JamoVowelSingular::O, JamoVowelSingular::I) => Some(JamoVowelComposite::Oe),
            (JamoVowelSingular::U, JamoVowelSingular::Eo) => Some(JamoVowelComposite::Wo),
            (JamoVowelSingular::U, JamoVowelSingular::E) => Some(JamoVowelComposite::We),
            (JamoVowelSingular::U, JamoVowelSingular::I) => Some(JamoVowelComposite::Wi),
            (JamoVowelSingular::Eu, JamoVowelSingular::I) => Some(JamoVowelComposite::Ui),
            _ => None,
        }
    }
}

/// A composite vowel, made of two singular vowels.
#[derive(Debug, PartialEq, Eq, Clone, Copy, Structural)]
pub enum JamoVowelComposite {
    /// ㅘ
    Wa,
    /// ㅙ
    Wae,
    /// ㅚ
    Oe,
    /// ㅝ
    Wo,
    /// ㅞ
    We,
    /// ㅟ
    Wi,
    /// ㅢ
    Ui,
}

impl JamoVowelComposite {
    pub open spec fn spec_char_modern(&self) -> char {
        match self {
            JamoVowelComposite::Wa => '\u{116A}',
            JamoVowelComposite::Wae => '\u{116B}',
            JamoVowelComposite::Oe => '\u{116C}',
            JamoVowelComposite::Wo => '\u{116F}',
            JamoVowelComposite::We => '\u{1170}',
            JamoVowelComposite::Wi => '\u{1171}',
            JamoVowelComposite::Ui => '\u{1174}',
        }
    }

    /// The modern encoding of this vowel.
    #[verifier::when_used_as_spec(spec_char_modern)]
    pub fn char_modern(&self) -> (r: char)
        ensures
            r == self.spec_char_modern(),
    {
        match self {
            JamoVowelComposite::Wa => '\u{116A}',
            JamoVowelComposite::Wae => '\u{116B}',
            JamoVowelComposite::Oe => '\u{116C}',
            JamoVowelComposite::Wo => '\u{116F}',
            JamoVowelComposite::We => '\u{1170}',
            JamoVowelComposite::Wi => '\u{1171}',
            JamoVowelComposite::Ui => '\u{1174}',
        }
    }

    pub open spec fn spec_char_compatibility(&self) -> char {
        match self {
            JamoVowelComposite::Wa => 'ㅘ',
            JamoVowelComposite::Wae => 'ㅙ',
            JamoVowelComposite::Oe => 'ㅚ',
            JamoVowelComposite::Wo => 'ㅝ',
            JamoVowelComposite::We => 'ㅞ',
            JamoVowelComposite::Wi => 'ㅟ',
            JamoVowelComposite::Ui => 'ㅢ',
        }
    }

    /// The compatibility jamo of this vowel.
    #[verifier::when_used_as_spec(spec_char_compatibility)]
    pub fn char_compatibility(&self) -> (r: char)
        ensures
            r == self.spec_char_compatibility(),
    {
        match self {
            JamoVowelComposite::Wa => 'ㅘ',
            JamoVowelComposite::Wae => 'ㅙ',
            JamoVowelComposite::Oe => 'ㅚ',
            JamoVowelComposite::Wo => 'ㅝ',
            JamoVowelComposite::We => 'ㅞ',
            JamoVowelComposite::Wi => 'ㅟ',
            JamoVowelComposite::Ui => 'ㅢ',
        }
    }

    pub open spec fn spec_decompose(&self) -> (Jamo, Jamo) {
        match self {
            JamoVowelComposite::Wa => (Jamo::Vowel(JamoVowelSingular::O), Jamo::Vowel(JamoVowelSingular::A)),
            JamoVowelComposite::Wae => (Jamo::Vowel(JamoVowelSingular::O), Jamo::Vowel(JamoVowelSingular::Ae)),
            JamoVowelComposite::Oe => (Jamo::Vowel(JamoVowelSingular::O), Jamo::Vowel(JamoVowelSingular::I)),
            JamoVowelComposite::Wo => (Jamo::Vowel(JamoVowelSingular::U), Jamo::Vowel(JamoVowelSingular::Eo)),
            JamoVowelComposite::We => (Jamo::Vowel(JamoVowelSingular::U), Jamo::Vowel(JamoVowelSingular::E)),
            JamoVowelComposite::Wi => (Jamo::Vowel(JamoVowelSingular::U), Jamo::Vowel(JamoVowelSingular::I)),
            JamoVowelComposite::Ui => (Jamo::Vowel(JamoVowelSingular::Eu), Jamo::Vowel(JamoVowelSingular::I)),
        }
    }

    /// The two singular vowels that make up this vowel, in order.
    #[verifier::when_used_as_spec(spec_decompose)]
    pub fn decompose(&self) -> (r: (Jamo, Jamo))
        ensures
            r == self.spec_decompose(),
    {
        match self {
            JamoVowelComposite::Wa => (Jamo::Vowel(JamoVowelSingular::O), Jamo::Vowel(JamoVowelSingular::A)),
            JamoVowelComposite::Wae => (Jamo::Vowel(JamoVowelSingular::O), Jamo::Vowel(JamoVowelSingular::Ae)),
            JamoVowelComposite::Oe => (Jamo::Vowel(JamoVowelSingular::O), Jamo::Vowel(JamoVowelSingular::I)),
            JamoVowelComposite::Wo => (Jamo::Vowel(JamoVowelSingular::U), Jamo::Vowel(JamoVowelSingular::Eo)),
            JamoVowelComposite::We => (Jamo::Vowel(JamoVowelSingular::U), Jamo::Vowel(JamoVowelSingular::E)),
            JamoVowelComposite::Wi => (Jamo::Vowel(JamoVowelSingular::U), Jamo::Vowel(JamoVowelSingular::I)),
            JamoVowelComposite::Ui => (Jamo::Vowel(JamoVowelSingular::Eu), Jamo::Vowel(JamoVowelSingular::I)),
        }
    }
}

impl Jamo {
    pub open spec fn spec_char_compatibility(&self) -> char {
        match self {
            Jamo::Consonant(c) => c.char_compatibility(),
            Jamo::CompositeConsonant(c) => c.char_compatibility(),
            Jamo::Vowel(c) => c.char_compatibility(),
            Jamo::CompositeVowel(c) => c.char_compatibility(),
        }
    }

    /// The compatibility jamo character.
    #[verifier::when_used_as_spec(spec_char_compatibility)]
    pub fn char_compatibility(&self) -> (r: char)
        ensures
            r == self.spec_char_compatibility(),
    {
        match self {
            Jamo::Consonant(c) => c.char_compatibility(),
            Jamo::CompositeConsonant(c) => c.char_compatibility(),
            Jamo::Vowel(c) => c.char_compatibility(),
            Jamo::CompositeVowel(c) => c.char_compatibility(),
        }
    }

    pub open spec fn spec_char_modern(&self, position: JamoPosition) -> Option<char> {
        match self {
            Jamo::Consonant(c) => c.char_modern(position),
            Jamo::CompositeConsonant(c) => c.char_modern(position),
            Jamo::Vowel(c) => match position {
                JamoPosition::Vowel => Some(c.char_modern()),
                _ => None,
            },
            Jamo::CompositeVowel(c) => match position {
                JamoPosition::Vowel => Some(c.char_modern()),
                _ => None,
            },
        }
    }

    /// The modern jamo character at a position; `None` where the jamo has no
    /// encoding there (a vowel as a consonant, a consonant as a vowel, a
    /// composite that cannot stand there).
    #[verifier::when_used_as_spec(spec_char_modern)]
    pub fn char_modern(&self, position: JamoPosition) -> (r: Option<char>)
        ensures
            r == self.spec_char_modern(position),
    {
        match self {
            Jamo::Consonant(c) => c.char_modern(position),
            Jamo::CompositeConsonant(c) => match position {
                JamoPosition::Initial => c.char_modern_initial(),
                JamoPosition::Final => c.char_modern_final(),
                JamoPosition::Vowel => None,
            },
            Jamo::Vowel(c) => match position {
                JamoPosition::Vowel => Some(c.char_modern()),
                _ => None,
            },
            Jamo::CompositeVowel(c) => match position {
                JamoPosition::Vowel => Some(c.char_modern()),
                _ => None,
            },
        }
    }

    pub open spec fn spec_from_compatibility_jamo(c: char) -> Result<Jamo, JamoError> {
        match jamo_of_compatibility(c) {
            Some(j) => Ok(j),
            None => Err(JamoError::FromCharError(c)),
        }
    }

    pub open spec fn spec_from_modern_jamo(c: char) -> Result<Jamo, JamoError> {
        Jamo::spec_from_compatibility_jamo(compatibility_of_modern(c))
    }

    /// The jamo of a modern jamo character, whatever its position.
    #[verifier::when_used_as_spec(spec_from_modern_jamo)]
    pub fn from_modern_jamo(c: char) -> (r: Result<Jamo, JamoError>)
        ensures
            r == Jamo::spec_from_modern_jamo(c),
    {
        let cc = modern_to_compatibility_jamo(c);
        Self::from_compatibility_jamo(cc)
    }

    /// The jamo of a compatibility jamo character.
    #[verifier::when_used_as_spec(spec_from_compatibility_jamo)]
    pub fn from_compatibility_jamo(c: char) -> (r: Result<Jamo, JamoError>)
        ensures
            r == Jamo::spec_from_compatibility_jamo(c),
    {
        match c {
            'ㄱ' => Ok(Jamo::Consonant(JamoConsonantSingular::Giyeok)),
            'ㄴ' => Ok(Jamo::Consonant(JamoConsonantSingular::Nieun)),
            'ㄷ' => Ok(Jamo::Consonant(JamoConsonantSingular::Digeut)),
            'ㄹ' => Ok(Jamo::Consonant(JamoConsonantSingular::Rieul)),
            'ㅁ' => Ok(Jamo::Consonant(JamoConsonantSingular::Mieum)),
            'ㅂ' => Ok(Jamo::Consonant(JamoConsonantSingular::Bieup)),
            'ㅅ' => Ok(Jamo::Consonant(JamoConsonantSingular::Siot)),
            'ㅇ' => Ok(Jamo::Consonant(JamoConsonantSingular::Ieung)),
            'ㅈ' => Ok(Jamo::Consonant(JamoConsonantSingular::Jieut)),
            'ㅊ' => Ok(Jamo::Consonant(JamoConsonantSingular::Chieut)),
            'ㅋ' => Ok(Jamo::Consonant(JamoConsonantSingular::Kieuk)),
            'ㅌ' => Ok(Jamo::Consonant(JamoConsonantSingular::Tieut)),
            'ㅍ' => Ok(Jamo::Consonant(JamoConsonantSingular::Pieup)),
            'ㅎ' => Ok(Jamo::Consonant(JamoConsonantSingular::Hieut)),
            'ㄳ' => Ok(Jamo::CompositeConsonant(JamoConsonantComposite::GiyeokSiot)),
            'ㄵ' => Ok(Jamo::CompositeConsonant(JamoConsonantComposite::NieunJieut)),
            'ㄶ' => Ok(Jamo::CompositeConsonant(JamoConsonantComposite::NieunHieut)),
            'ㄺ' => Ok(Jamo::CompositeConsonant(JamoConsonantComposite::RieulGiyeok)),
            'ㄻ' => Ok(Jamo::CompositeConsonant(JamoConsonantComposite::RieulMieum)),
            'ㄼ' => Ok(Jamo::CompositeConsonant(JamoConsonantComposite::RieulBieup)),
            'ㄽ' => Ok(Jamo::CompositeConsonant(JamoConsonantComposite::RieulSiot)),
            'ㄾ' => Ok(Jamo::CompositeConsonant(JamoConsonantComposite::RieulTieut)),
            'ㄿ' => Ok(Jamo::CompositeConsonant(JamoConsonantComposite::RieulPieup)),
            'ㅀ' => Ok(Jamo::CompositeConsonant(JamoConsonantComposite::RieulHieut)),
            'ㄲ' => Ok(Jamo::CompositeConsonant(JamoConsonantComposite::SsangGiyeok)),
            'ㄸ' => Ok(Jamo::CompositeConsonant(JamoConsonantComposite::SsangDigeut)),
            'ㅃ' => Ok(Jamo::CompositeConsonant(JamoConsonantComposite::SsangBieup)),
            'ㅆ' => Ok(Jamo::CompositeConsonant(JamoConsonantComposite::SsangSiot)),
            'ㅉ' => Ok(Jamo::CompositeConsonant(JamoConsonantComposite::SsangJieut)),
            'ㅄ' => Ok(Jamo::CompositeConsonant(JamoConsonantComposite::BieupSiot)),
            'ㅏ' => Ok(Jamo::Vowel(JamoVowelSingular::A)),
            'ㅐ' => Ok(Jamo::Vowel(JamoVowelSingular::Ae)),
            'ㅑ' => Ok(Jamo::Vowel(JamoVowelSingular::Ya)),
            'ㅒ' => Ok(Jamo::Vowel(JamoVowelSingular::Yae)),
            'ㅓ' => Ok(Jamo::Vowel(JamoVowelSingular::Eo)),
            'ㅔ' => Ok(Jamo::Vowel(JamoVowelSingular::E)),
            'ㅕ' => Ok(Jamo::Vowel(JamoVowelSingular::Yeo)),
            'ㅖ' => Ok(Jamo::Vowel(JamoVowelSingular::Ye)),
            'ㅗ' => Ok(Jamo::Vowel(JamoVowelSingular::O)),
            'ㅛ' => Ok(Jamo::Vowel(JamoVowelSingular::Yo)),
            'ㅜ' => Ok(Jamo::Vowel(JamoVowelSingular::U)),
            'ㅠ' => Ok(Jamo::Vowel(JamoVowelSingular::Yu)),
            'ㅡ' => Ok(Jamo::Vowel(JamoVowelSingular::Eu)),
            'ㅣ' => Ok(Jamo::Vowel(JamoVowelSingular::I)),
            'ㅘ' => Ok(Jamo::CompositeVowel(JamoVowelComposite::Wa)),
            'ㅙ' => Ok(Jamo::CompositeVowel(JamoVowelComposite::Wae)),
            'ㅚ' => Ok(Jamo::CompositeVowel(JamoVowelComposite::Oe)),
            'ㅝ' => Ok(Jamo::CompositeVowel(JamoVowelComposite::Wo)),
            'ㅞ' => Ok(Jamo::CompositeVowel(JamoVowelComposite::We)),
            'ㅟ' => Ok(Jamo::CompositeVowel(JamoVowelComposite::Wi)),
            'ㅢ' => Ok(Jamo::CompositeVowel(JamoVowelComposite::Ui)),
            _ => Err(JamoError::FromCharError(c)),
        }
    }
}

/// Every composite consonant is the combination of its two parts: by the
/// initial rule where it may begin a syllable, by the final rule where it may
/// end one; and each composite may do at least one of the two.
pub proof fn lemma_consonant_decompose_combine(c: JamoConsonantComposite)
    ensures
        c.is_valid_initial() || c.is_valid_final(),
        match c.decompose() {
            (Jamo::Consonant(a), Jamo::Consonant(b)) => {
                &&& (c.is_valid_initial() ==> a.combine_for_initial(&b) == Some(c))
                &&& (c.is_valid_final() ==> a.combine_for_final(&b) == Some(c))
            },
            _ => false,
        },
{
}

/// Two consonants that combine, at the start or at the end of a syllable,
/// make a composite that decomposes back into exactly those two, and that may
/// stand where it was made.
pub proof fn lemma_consonant_combine_decompose(a: JamoConsonantSingular, b: JamoConsonantSingular)
    ensures
        a.combine_for_initial(&b) matches Some(c) ==> c.decompose() == (Jamo::Consonant(a), Jamo::Consonant(b))
            && c.is_valid_initial(),
        a.combine_for_final(&b) matches Some(c) ==> c.decompose() == (Jamo::Consonant(a), Jamo::Consonant(b))
            && c.is_valid_final(),
{
}

/// Every composite vowel is the combination of its two parts.
pub proof fn lemma_vowel_decompose_combine(c: JamoVowelComposite)
    ensures
        match c.decompose() {
            (Jamo::Vowel(a), Jamo::Vowel(b)) => a.combine(&b) == Some(c),
            _ => false,
        },
{
}

/// Two vowels that combine make a composite that decomposes back into
/// exactly those two.
pub proof fn lemma_vowel_combine_decompose(a: JamoVowelSingular, b: JamoVowelSingular)
    ensures
        a.combine(&b) matches Some(c) ==> c.decompose() == (Jamo::Vowel(a), Jamo::Vowel(b)),
{
}

/// Writing a jamo in the modern encoding at a position where it has one, and
/// reading that character back, gives the same jamo, and so the same
/// compatibility character.
pub proof fn lemma_modern_round_trip(j: Jamo, position: JamoPosition)
    ensures
        j.char_modern(position) matches Some(m) ==> {
            &&& Jamo::from_modern_jamo(m) == Ok::<Jamo, JamoError>(j)
            &&& Jamo::from_modern_jamo(m).unwrap().char_compatibility() == j.char_compatibility()
            &&& JamoUnicodeType::evaluate(m) == JamoUnicodeType::Modern
            &&& Character::spec_from_char(m) == Ok::<Character, JamoError>(Character::Hangul(j))
        },
{
}

/// The characters of the modern jamo ranges are exactly the modern
/// encodings of jamo.
#[verifier::rlimit(100)]
pub proof fn lemma_modern_block_encodes(c: char)
    ensures
        JamoUnicodeType::evaluate(c) == JamoUnicodeType::Modern <==> exists|j: Jamo, p: JamoPosition|
            #[trigger] j.char_modern(p) == Some(c),
{
    assert forall|j: Jamo, p: JamoPosition| #[trigger] j.char_modern(p) == Some(c) implies JamoUnicodeType::evaluate(c)
        == JamoUnicodeType::Modern by {
        lemma_modern_ranges(j, p);
    }
    if c == '\u{1100}' {
        assert(Jamo::Consonant(JamoConsonantSingular::Giyeok).char_modern(JamoPosition::Initial) == Some(c));
    } else if c == '\u{1101}' {
        assert(Jamo::CompositeConsonant(JamoConsonantComposite::SsangGiyeok).char_modern(JamoPosition::Initial) == Some(c));
    } else if c == '\u{1102}' {
        assert(Jamo::Consonant(JamoConsonantSingular::Nieun).char_modern(JamoPosition::Initial) == Some(c));
    } else if c == '\u{1103}' {
        assert(Jamo::Consonant(JamoConsonantSingular::Digeut).char_modern(JamoPosition::Initial) == Some(c));
    } else if c == '\u{1104}' {
        assert(Jamo::CompositeConsonant(JamoConsonantComposite::SsangDigeut).char_modern(JamoPosition::Initial) == Some(c));
    } else if c == '\u{1105}' {
        assert(Jamo::Consonant(JamoConsonantSingular::Rieul).char_modern(JamoPosition::Initial) == Some(c));
    } else if c == '\u{1106}' {
        assert(Jamo::Consonant(JamoConsonantSingular::Mieum).char_modern(JamoPosition::Initial) == Some(c));
    } else if c == '\u{1107}' {
        assert(Jamo::Consonant(JamoConsonantSingular::Bieup).char_modern(JamoPosition::Initial) == Some(c));
    } else if c == '\u{1108}' {
        assert(Jamo::CompositeConsonant(JamoConsonantComposite::SsangBieup).char_modern(JamoPosition::Initial) == Some(c));
    } else if c == '\u{1109}' {
        assert(Jamo::Consonant(JamoConsonantSingular::Siot).char_modern(JamoPosition::Initial) == Some(c));
    } else if c == '\u{110A}' {
        assert(Jamo::CompositeConsonant(JamoConsonantComposite::SsangSiot).char_modern(JamoPosition::Initial) == Some(c));
    } else if c == '\u{110B}' {
        assert(Jamo::Consonant(JamoConsonantSingular::Ieung).char_modern(JamoPosition::Initial) == Some(c));
    } else if c == '\u{110C}' {
        assert(Jamo::Consonant(JamoConsonantSingular::Jieut).char_modern(JamoPosition::Initial) == Some(c));
    } else if c == '\u{110D}' {
        assert(Jamo::CompositeConsonant(JamoConsonantComposite::SsangJieut).char_modern(JamoPosition::Initial) == Some(c));
    } else if c == '\u{110E}' {
        assert(Jamo::Consonant(JamoConsonantSingular::Chieut).char_modern(JamoPosition::Initial) == Some(c));
    } else if c == '\u{110F}' {
        assert(Jamo::Consonant(JamoConsonantSingular::Kieuk).char_modern(JamoPosition::Initial) == Some(c));
    } else if c == '\u{1110}' {
        assert(Jamo::Consonant(JamoConsonantSingular::Tieut).char_modern(JamoPosition::Initial) == Some(c));
    } else if c == '\u{1111}' {
        assert(Jamo::Consonant(JamoConsonantSingular::Pieup).char_modern(JamoPosition::Initial) == Some(c));
    } else if c == '\u{1112}' {
        assert(Jamo::Consonant(JamoConsonantSingular::Hieut).char_modern(JamoPosition::Initial) == Some(c));
    } else if c == '\u{1161}' {
        assert(Jamo::Vowel(JamoVowelSingular::A).char_modern(JamoPosition::Vowel) == Some(c));
    } else if c == '\u{1162}' {
        assert(Jamo::Vowel(JamoVowelSingular::Ae).char_modern(JamoPosition::Vowel) == Some(c));
    } else if c == '\u{1163}' {
        assert(Jamo::Vowel(JamoVowelSingular::Ya).char_modern(JamoPosition::Vowel) == Some(c));
    } else if c == '\u{1164}' {
        assert(Jamo::Vowel(JamoVowelSingular::Yae).char_modern(JamoPosition::Vowel) == Some(c));
    } else if c == '\u{1165}' {
        assert(Jamo::Vowel(JamoVowelSingular::Eo).char_modern(JamoPosition::Vowel) == Some(c));
    } else if c == '\u{1166}' {
        assert(Jamo::Vowel(JamoVowelSingular::E).char_modern(JamoPosition::Vowel) == Some(c));
    } else if c == '\u{1167}' {
        assert(Jamo::Vowel(JamoVowelSingular::Yeo).char_modern(JamoPosition::Vowel) == Some(c));
    } else if c == '\u{1168}' {
        assert(Jamo::Vowel(JamoVowelSingular::Ye).char_modern(JamoPosition::Vowel) == Some(c));
    } else if c == '\u{1169}' {
        assert(Jamo::Vowel(JamoVowelSingular::O).char_modern(JamoPosition::Vowel) == Some(c));
    } else if c == '\u{116A}' {
        assert(Jamo::CompositeVowel(JamoVowelComposite::Wa).char_modern(JamoPosition::Vowel) == Some(c));
    } else if c == '\u{116B}' {
        assert(Jamo::CompositeVowel(JamoVowelComposite::Wae).char_modern(JamoPosition::Vowel) == Some(c));
    } else if c == '\u{116C}' {
        assert(Jamo::CompositeVowel(JamoVowelComposite::Oe).char_modern(JamoPosition::Vowel) == Some(c));
    } else if c == '\u{116D}' {
        assert(Jamo::Vowel(JamoVowelSingular::Yo).char_modern(JamoPosition::Vowel) == Some(c));
    } else if c == '\u{116E}' {
        assert(Jamo::Vowel(JamoVowelSingular::U).char_modern(JamoPosition::Vowel) == Some(c));
    } else if c == '\u{116F}' {
        assert(Jamo::CompositeVowel(JamoVowelComposite::Wo).char_modern(JamoPosition::Vowel) == Some(c));
    } else if c == '\u{1170}' {
        assert(Jamo::CompositeVowel(JamoVowelComposite::We).char_modern(JamoPosition::Vowel) == Some(c));
    } else if c == '\u{1171}' {
        assert(Jamo::CompositeVowel(JamoVowelComposite::Wi).char_modern(JamoPosition::Vowel) == Some(c));
    } else if c == '\u{1172}' {
        assert(Jamo::Vowel(JamoVowelSingular::Yu).char_modern(JamoPosition::Vowel) == Some(c));
    } else if c == '\u{1173}' {
        assert(Jamo::Vowel(JamoVowelSingular::Eu).char_modern(JamoPosition::Vowel) == Some(c));
    } else if c == '\u{1174}' {
        assert(Jamo::CompositeVowel(JamoVowelComposite::Ui).char_modern(JamoPosition::Vowel) == Some(c));
    } else if c == '\u{1175}' {
        assert(Jamo::Vowel(JamoVowelSingular::I).char_modern(JamoPosition::Vowel) == Some(c));
    } else if c == '\u{11A8}' {
        assert(Jamo::Consonant(JamoConsonantSingular::Giyeok).char_modern(JamoPosition::Final) == Some(c));
    } else if c == '\u{11A9}' {
        assert(Jamo::CompositeConsonant(JamoConsonantComposite::SsangGiyeok).char_modern(JamoPosition::Final) == Some(c));
    } else if c == '\u{11AA}' {
        assert(Jamo::CompositeConsonant(JamoConsonantComposite::GiyeokSiot).char_modern(JamoPosition::Final) == Some(c));
    } else if c == '\u{11AB}' {
        assert(Jamo::Consonant(JamoConsonantSingular::Nieun).char_modern(JamoPosition::Final) == Some(c));
    } else if c == '\u{11AC}' {
        assert(Jamo::CompositeConsonant(JamoConsonantComposite::NieunJieut).char_modern(JamoPosition::Final) == Some(c));
    } else if c == '\u{11AD}' {
        assert(Jamo::CompositeConsonant(JamoConsonantComposite::NieunHieut).char_modern(JamoPosition::Final) == Some(c));
    } else if c == '\u{11AE}' {
        assert(Jamo::Consonant(JamoConsonantSingular::Digeut).char_modern(JamoPosition::Final) == Some(c));
    } else if c == '\u{11AF}' {
        assert(Jamo::Consonant(JamoConsonantSingular::Rieul).char_modern(JamoPosition::Final) == Some(c));
    } else if c == '\u{11B0}' {
        assert(Jamo::CompositeConsonant(JamoConsonantComposite::RieulGiyeok).char_modern(JamoPosition::Final) == Some(c));
    } else if c == '\u{11B1}' {
        assert(Jamo::CompositeConsonant(JamoConsonantComposite::RieulMieum).char_modern(JamoPosition::Final) == Some(c));
    } else if c == '\u{11B2}' {
        assert(Jamo::CompositeConsonant(JamoConsonantComposite::RieulBieup).char_modern(JamoPosition::Final) == Some(c));
    } else if c == '\u{11B3}' {
        assert(Jamo::CompositeConsonant(JamoConsonantComposite::RieulSiot).char_modern(JamoPosition::Final) == Some(c));
    } else if c == '\u{11B4}' {
        assert(Jamo::CompositeConsonant(JamoConsonantComposite::RieulTieut).char_modern(JamoPosition::Final) == Some(c));
    } else if c == '\u{11B5}' {
        assert(Jamo::CompositeConsonant(JamoConsonantComposite::RieulPieup).char_modern(JamoPosition::Final) == Some(c));
    } else if c == '\u{11B6}' {
        assert(Jamo::CompositeConsonant(JamoConsonantComposite::RieulHieut).char_modern(JamoPosition::Final) == Some(c));
    } else if c == '\u{11B7}' {
        assert(Jamo::Consonant(JamoConsonantSingular::Mieum).char_modern(JamoPosition::Final) == Some(c));
    } else if c == '\u{11B8}' {
        assert(Jamo::Consonant(JamoConsonantSingular::Bieup).char_modern(JamoPosition::Final) == Some(c));
    } else if c == '\u{11B9}' {
        assert(Jamo::CompositeConsonant(JamoConsonantComposite::BieupSiot).char_modern(JamoPosition::Final) == Some(c));
    } else if c == '\u{11BA}' {
        assert(Jamo::Consonant(JamoConsonantSingular::Siot).char_modern(JamoPosition::Final) == Some(c));
    } else if c == '\u{11BB}' {
        assert(Jamo::CompositeConsonant(JamoConsonantComposite::SsangSiot).char_modern(JamoPosition::Final) == Some(c));
    } else if c == '\u{11BC}' {
        assert(Jamo::Consonant(JamoConsonantSingular::Ieung).char_modern(JamoPosition::Final) == Some(c));
    } else if c == '\u{11BD}' {
        assert(Jamo::Consonant(JamoConsonantSingular::Jieut).char_modern(JamoPosition::Final) == Some(c));
    } else if c == '\u{11BE}' {
        assert(Jamo::Consonant(JamoConsonantSingular::Chieut).char_modern(JamoPosition::Final) == Some(c));
    } else if c == '\u{11BF}' {
        assert(Jamo::Consonant(JamoConsonantSingular::Kieuk).char_modern(JamoPosition::Final) == Some(c));
    } else if c == '\u{11C0}' {
        assert(Jamo::Consonant(JamoConsonantSingular::Tieut).char_modern(JamoPosition::Final) == Some(c));
    } else if c == '\u{11C1}' {
        assert(Jamo::Consonant(JamoConsonantSingular::Pieup).char_modern(JamoPosition::Final) == Some(c));
    } else if c == '\u{11C2}' {
        assert(Jamo::Consonant(JamoConsonantSingular::Hieut).char_modern(JamoPosition::Final) == Some(c));
    }
}

/// A jamo's compatibility character classifies as that jamo, as its modern
/// characters do (see `lemma_modern_round_trip`).
pub proof fn lemma_compatibility_classifies(j: Jamo)
    ensures
        JamoUnicodeType::evaluate(j.char_compatibility()) == JamoUnicodeType::Compatibility,
        Character::spec_from_char(j.char_compatibility()) == Ok::<Character, JamoError>(Character::Hangul(j)),
{
}

/// The modern encodings of initials, vowels and finals lie in the ranges that
/// the syllable arithmetic counts from.
pub proof fn lemma_modern_ranges(j: Jamo, position: JamoPosition)
    ensures
        j.char_modern(position) matches Some(m) ==> match position {
            JamoPosition::Initial => L_BASE <= m < L_BASE + L_COUNT,
            JamoPosition::Vowel => V_BASE <= m < V_BASE + V_COUNT,
            JamoPosition::Final => T_BASE < m < T_BASE + T_COUNT,
        },
{
}

} // verus!
