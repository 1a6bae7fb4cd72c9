use vstd::prelude::*;

use crate::jamo::{
    lemma_consonant_combine_decompose, lemma_consonant_decompose_combine, lemma_modern_block_encodes,
    lemma_modern_ranges,
    lemma_modern_round_trip, lemma_vowel_combine_decompose, lemma_vowel_decompose_combine, Jamo,
    JamoConsonantComposite, JamoError, JamoPosition, JamoUnicodeEra, JamoVowelComposite,
    L_BASE, L_COUNT, N_COUNT, S_BASE, S_COUNT, T_BASE, T_COUNT, V_BASE, V_COUNT,
};

verus! {

/// Errors of syllable blocks.
#[derive(Debug, PartialEq, Eq, Clone, Copy, Structural)]
pub enum BlockError {
    /// The character is not a precomposed Hangul syllable.
    NotASyllable(char),
    /// A codepoint taken from a syllable does not stand for a jamo.
    JamoError(JamoError),
    /// The jamo has no encoding at this position of a block.
    InvalidPosition(Jamo, JamoPosition),
    /// The two stored jamo do not combine into one.
    InvalidCombination(Jamo, Jamo),
    /// The block's parts give no valid syllable codepoint.
    InvalidCodepoint(u32),
    /// The block's parts cannot be reopened for editing.
    MalformedBlock,
}

/// Relies on `char::from_u32`: the character with that scalar value, or
/// `None` for a surrogate or a value above 0x10FFFF.
#[verifier::external_body]
fn char_from_u32(n: u32) -> (r: Option<char>)
    ensures
        r == (if n < 0xD800 || (0xE000 <= n && n <= 0x10FFFF) {
            Some(n as char)
        } else {
            None::<char>
        }),
{
    char::from_u32(n)
}

/// Relies on `String`'s `FromIterator<char>`: the string of those characters,
/// in order.
#[verifier::external_body]
pub(crate) fn string_from_chars(chars: &Vec<char>) -> (r: String)
    ensures
        r@ == chars@,
{
    chars.iter().collect()
}

/// The codepoint of the syllable whose initial, vowel and final lie at
/// offsets `l`, `v` and `t` from their bases (`t` is 0 without a final).
pub open spec fn syllable_code(l: int, v: int, t: int) -> int {
    S_BASE + l * N_COUNT + v * T_COUNT + t
}

/// Whether `c` is one of the precomposed Hangul syllables.
pub open spec fn is_syllable(c: char) -> bool {
    S_BASE <= c as int && (c as int) < S_BASE + S_COUNT
}

/// One syllable: an initial consonant, a vowel and an optional final
/// consonant, each possibly composite.
#[derive(Debug, PartialEq, Eq, Clone, Copy, Structural)]
pub struct HangulBlock {
    pub initial: Jamo,
    pub vowel: Jamo,
    pub final_optional: Option<Jamo>,
}

/// How `HangulBlock::decomposed_vec` writes a block out: composites split into
/// their parts or not, and in which encoding.
pub struct HangulBlockDecompositionOptions {
    pub decompose_composites: bool,
    pub jamo_era: JamoUnicodeEra,
}

/// Whether a jamo is of the kind that a position takes: consonants for the
/// initial and the final, vowels for the vowel.
pub open spec fn fits_position(j: Jamo, position: JamoPosition) -> bool {
    match position {
        JamoPosition::Vowel => j is Vowel || j is CompositeVowel,
        _ => j is Consonant || j is CompositeConsonant,
    }
}

/// The two parts of a composite jamo; `None` for a singular one.
pub open spec fn composite_parts(j: Jamo) -> Option<(Jamo, Jamo)> {
    match j {
        Jamo::CompositeConsonant(c) => Some(c.decompose()),
        Jamo::CompositeVowel(c) => Some(c.decompose()),
        _ => None,
    }
}

/// One jamo written at a position in an encoding, where it has a character.
pub open spec fn encoded(j: Jamo, position: JamoPosition, era: JamoUnicodeEra) -> Option<char> {
    match era {
        JamoUnicodeEra::Modern => j.char_modern(position),
        JamoUnicodeEra::Compatibility => Some(j.char_compatibility()),
    }
}

/// The characters that one part of a block is written as.
pub open spec fn written_part(
    j: Jamo,
    position: JamoPosition,
    options: HangulBlockDecompositionOptions,
) -> Result<Seq<char>, BlockError> {
    if !fits_position(j, position) {
        Err(BlockError::InvalidPosition(j, position))
    } else {
        match composite_parts(j) {
            Some((a, b)) if options.decompose_composites => match (
                encoded(a, position, options.jamo_era),
                encoded(b, position, options.jamo_era),
            ) {
                (Some(x), Some(y)) => Ok(seq![x, y]),
                _ => Err(BlockError::InvalidPosition(j, position)),
            },
            _ => match encoded(j, position, options.jamo_era) {
                Some(x) => Ok(seq![x]),
                None => Err(BlockError::InvalidPosition(j, position)),
            },
        }
    }
}

/// Splits a jamo of the right kind for a slot into its first and second
/// singular parts; a jamo of the wrong kind fills neither.
pub open spec fn split_for(j: Jamo, position: JamoPosition) -> (Option<Jamo>, Option<Jamo>) {
    if !fits_position(j, position) {
        (None, None)
    } else {
        match composite_parts(j) {
            Some((a, b)) => (Some(a), Some(b)),
            None => (Some(j), None),
        }
    }
}

impl HangulBlock {
    /// Whether the block is made as typing makes blocks: a consonant or a
    /// double consonant first, then a vowel, then optionally a consonant or a
    /// composite that may end a syllable.
    pub open spec fn wf(self) -> bool {
        &&& match self.initial {
            Jamo::Consonant(_) => true,
            Jamo::CompositeConsonant(c) => c.is_valid_initial(),
            _ => false,
        }
        &&& (self.vowel is Vowel || self.vowel is CompositeVowel)
        &&& match self.final_optional {
            None => true,
            Some(Jamo::Consonant(_)) => true,
            Some(Jamo::CompositeConsonant(c)) => c.is_valid_final(),
            _ => false,
        }
    }

    /// Whether the block is made as typing makes blocks (see `wf`).
    pub fn is_well_formed(&self) -> (r: bool)
        ensures
            r == self.wf(),
    {
        let initial_ok = match &self.initial {
            Jamo::Consonant(_) => true,
            Jamo::CompositeConsonant(c) => c.is_valid_initial(),
            _ => false,
        };
        let vowel_ok = match &self.vowel {
            Jamo::Vowel(_) | Jamo::CompositeVowel(_) => true,
            _ => false,
        };
        let final_ok = match &self.final_optional {
            None => true,
            Some(Jamo::Consonant(_)) => true,
            Some(Jamo::CompositeConsonant(c)) => c.is_valid_final(),
            _ => false,
        };
        initial_ok && vowel_ok && final_ok
    }

    /// The offset of the final from `T_BASE`; 0 without a final, or with one
    /// that has no final encoding.
    pub open spec fn final_offset(self) -> int {
        match self.final_optional {
            Some(f) => match f.char_modern(JamoPosition::Final) {
                Some(m) => m as int - T_BASE,
                None => 0,
            },
            None => 0,
        }
    }

    /// Whether the initial, the vowel and the final (if any) each have a
    /// modern encoding at their position.
    pub open spec fn codepoint_valid(self) -> bool {
        &&& self.initial.char_modern(JamoPosition::Initial) is Some
        &&& self.vowel.char_modern(JamoPosition::Vowel) is Some
        &&& (self.final_optional matches Some(f) ==> f.char_modern(JamoPosition::Final) is Some)
    }

    pub open spec fn spec_to_char(self) -> Result<char, u32> {
        match (self.initial.char_modern(JamoPosition::Initial), self.vowel.char_modern(JamoPosition::Vowel)) {
            (Some(i), Some(v)) => if self.final_optional matches Some(f) && f.char_modern(
                JamoPosition::Final,
            ) is None {
                Err(0)
            } else {
                Ok(syllable_code(i as int - L_BASE, v as int - V_BASE, self.final_offset()) as char)
            },
            _ => Err(0),
        }
    }

    /// The precomposed syllable of this block, by the Unicode arithmetic on
    /// the modern encodings of its parts. Fails with 0 when the initial, the
    /// vowel or the final has no modern encoding at its position.
    pub fn to_char(&self) -> (r: Result<char, u32>)
        ensures
            r == self.spec_to_char(),
            r is Ok <==> self.codepoint_valid(),
            r matches Ok(c) ==> is_syllable(c),
    {
        let initial = match self.initial.char_modern(JamoPosition::Initial) {
            Some(c) => c,
            None => return Err(0),
        };
        let vowel = match self.vowel.char_modern(JamoPosition::Vowel) {
            Some(c) => c,
            None => return Err(0),
        };
        let final_optional = match &self.final_optional {
            Some(c) => match c.char_modern(JamoPosition::Final) {
                Some(m) => Some(m),
                None => return Err(0),
            },
            None => None,
        };
        proof {
            lemma_modern_ranges(self.initial, JamoPosition::Initial);
            lemma_modern_ranges(self.vowel, JamoPosition::Vowel);
            if let Some(f) = self.final_optional {
                lemma_modern_ranges(f, JamoPosition::Final);
            }
        }
        let initial_num = initial as u32;
        let vowel_num = vowel as u32;
        let final_num: u32 = match final_optional {
            Some(c) => c as u32,
            None => 0,
        };
        let l_index = initial_num - L_BASE;
        let v_index = vowel_num - V_BASE;
        let t_index: u32 = if final_num == 0 {
            0
        } else {
            final_num - T_BASE
        };
        assert(l_index * N_COUNT + v_index * T_COUNT + t_index < S_COUNT) by (nonlinear_arith)
            requires
                l_index < 19,
                v_index < 21,
                t_index < 28,
                N_COUNT == 588,
                T_COUNT == 28,
                S_COUNT == 11172,
        ;
        let s_index = (l_index * N_COUNT) + (v_index * T_COUNT) + t_index;
        match char_from_u32(S_BASE + s_index) {
            Some(c) => Ok(c),
            None => Err(S_BASE + s_index),
        }
    }

    pub open spec fn spec_from_char(c: char) -> Result<HangulBlock, BlockError> {
        let n = c as int;
        if n < S_BASE || n >= S_BASE + S_COUNT {
            Err(BlockError::NotASyllable(c))
        } else {
            let s = n - S_BASE;
            let l = s / N_COUNT as int;
            let v = (s % N_COUNT as int) / T_COUNT as int;
            let t = s % T_COUNT as int;
            match Jamo::from_modern_jamo((L_BASE + l) as char) {
                Err(e) => Err(BlockError::JamoError(e)),
                Ok(initial) => match Jamo::from_modern_jamo((V_BASE + v) as char) {
                    Err(e) => Err(BlockError::JamoError(e)),
                    Ok(vowel) => if t > 0 {
                        match Jamo::from_modern_jamo((T_BASE + t) as char) {
                            Err(e) => Err(BlockError::JamoError(e)),
                            Ok(f) => Ok(HangulBlock { initial, vowel, final_optional: Some(f) }),
                        }
                    } else {
                        Ok(HangulBlock { initial, vowel, final_optional: None })
                    },
                },
            }
        }
    }

    /// The block of a precomposed syllable, by reversing the Unicode
    /// arithmetic. Fails for a character that is not a syllable.
    pub fn from_char(c: char) -> (r: Result<HangulBlock, BlockError>)
        ensures
            r == HangulBlock::spec_from_char(c),
            !is_syllable(c) ==> r == Err::<HangulBlock, _>(BlockError::NotASyllable(c)),
            is_syllable(c) ==> (r matches Ok(b) && b.wf() && b.spec_to_char() == Ok::<_, u32>(c)),
    {
        proof {
            if is_syllable(c) {
                lemma_syllable_decodes(c);
            }
        }
        let codepoint = c as u32;
        if codepoint < S_BASE || codepoint >= S_BASE + S_COUNT {
            return Err(BlockError::NotASyllable(c));
        }
        let s_index = codepoint - S_BASE;
        let l_index = s_index / N_COUNT;
        let v_index = (s_index % N_COUNT) / T_COUNT;
        let t_index = s_index % T_COUNT;
        assert(l_index < 19);
        let initial_char = match char_from_u32(L_BASE + l_index) {
            Some(ch) => ch,
            None => return Err(BlockError::InvalidCodepoint(L_BASE + l_index)),
        };
        let initial = match Jamo::from_modern_jamo(initial_char) {
            Ok(j) => j,
            Err(e) => return Err(BlockError::JamoError(e)),
        };
        let vowel_char = match char_from_u32(V_BASE + v_index) {
            Some(ch) => ch,
            None => return Err(BlockError::InvalidCodepoint(V_BASE + v_index)),
        };
        let vowel = match Jamo::from_modern_jamo(vowel_char) {
            Ok(j) => j,
            Err(e) => return Err(BlockError::JamoError(e)),
        };
        let final_optional = if t_index > 0 {
            let final_char = match char_from_u32(T_BASE + t_index) {
                Some(ch) => ch,
                None => return Err(BlockError::InvalidCodepoint(T_BASE + t_index)),
            };
            match Jamo::from_modern_jamo(final_char) {
                Ok(j) => Some(j),
                Err(e) => return Err(BlockError::JamoError(e)),
            }
        } else {
            None
        };
        Ok(HangulBlock { initial, vowel, final_optional })
    }

    pub open spec fn spec_decomposed_tuple(self) -> (
        Option<Jamo>,
        Option<Jamo>,
        Option<Jamo>,
        Option<Jamo>,
        Option<Jamo>,
        Option<Jamo>,
    ) {
        let (i1, i2) = split_for(self.initial, JamoPosition::Initial);
        let (v1, v2) = split_for(self.vowel, JamoPosition::Vowel);
        let (f1, f2) = match self.final_optional {
            Some(f) => split_for(f, JamoPosition::Final),
            None => (None, None),
        };
        (i1, i2, v1, v2, f1, f2)
    }

    /// The block's jamo as six slots: first and second initial, vowel and
    /// final. A composite fills both slots of its part, a singular jamo the
    /// first only, and a jamo of the wrong kind for its part neither.
    pub fn decomposed_tuple(&self) -> (r: Result<
        (Option<Jamo>, Option<Jamo>, Option<Jamo>, Option<Jamo>, Option<Jamo>, Option<Jamo>),
        BlockError,
    >)
        ensures
            r == Ok::<_, BlockError>(self.spec_decomposed_tuple()),
    {
        let (i1, i2) = match &self.initial {
            Jamo::CompositeConsonant(c) => {
                let (a, b) = c.decompose();
                (Some(a), Some(b))
            },
            Jamo::Consonant(_) => (Some(self.initial), None),
            _ => (None, None),
        };
        let (v1, v2) = match &self.vowel {
            Jamo::CompositeVowel(c) => {
                let (a, b) = c.decompose();
                (Some(a), Some(b))
            },
            Jamo::Vowel(_) => (Some(self.vowel), None),
            _ => (None, None),
        };
        let (f1, f2) = match &self.final_optional {
            Some(Jamo::CompositeConsonant(c)) => {
                let (a, b) = c.decompose();
                (Some(a), Some(b))
            },
            Some(Jamo::Consonant(c)) => (Some(Jamo::Consonant(*c)), None),
            _ => (None, None),
        };
        Ok((i1, i2, v1, v2, f1, f2))
    }

    pub open spec fn spec_decomposed_vec(self, options: HangulBlockDecompositionOptions) -> Result<
        Seq<char>,
        BlockError,
    > {
        match written_part(self.initial, JamoPosition::Initial, options) {
            Err(e) => Err(e),
            Ok(initial) => match written_part(self.vowel, JamoPosition::Vowel, options) {
                Err(e) => Err(e),
                Ok(vowel) => match self.final_optional {
                    None => Ok(initial + vowel),
                    Some(f) => match written_part(f, JamoPosition::Final, options) {
                        Err(e) => Err(e),
                        Ok(fin) => Ok(initial + vowel + fin),
                    },
                },
            },
        }
    }

    /// The block written out as jamo characters, initial, vowel and final, in
    /// the chosen encoding, with composites split into their parts or not.
    /// Fails where a part is of the wrong kind for its position, or has no
    /// modern encoding there.
    pub fn decomposed_vec(&self, options: &HangulBlockDecompositionOptions) -> (r: Result<
        Vec<char>,
        BlockError,
    >)
        ensures
            match r {
                Ok(v) => self.spec_decomposed_vec(*options) == Ok::<_, BlockError>(v@),
                Err(e) => self.spec_decomposed_vec(*options) == Err::<Seq<char>, _>(e),
            },
    {
        let mut result: Vec<char> = Vec::new();
        write_part(&mut result, &self.initial, JamoPosition::Initial, options)?;
        write_part(&mut result, &self.vowel, JamoPosition::Vowel, options)?;
        if let Some(final_jamo) = &self.final_optional {
            write_part(&mut result, final_jamo, JamoPosition::Final, options)?;
        }
        Ok(result)
    }
}

/// Appends the characters of one part of a block to `result`.
fn write_part(
    result: &mut Vec<char>,
    j: &Jamo,
    position: JamoPosition,
    options: &HangulBlockDecompositionOptions,
) -> (r: Result<(), BlockError>)
    ensures
        match written_part(*j, position, *options) {
            Ok(s) => r is Ok && final(result)@ == old(result)@ + s,
            Err(e) => r == Err::<(), _>(e),
        },
{
    let fits = match position {
        JamoPosition::Vowel => match j {
            Jamo::Vowel(_) | Jamo::CompositeVowel(_) => true,
            _ => false,
        },
        _ => match j {
            Jamo::Consonant(_) | Jamo::CompositeConsonant(_) => true,
            _ => false,
        },
    };
    if !fits {
        return Err(BlockError::InvalidPosition(*j, position));
    }
    let parts = match j {
        Jamo::CompositeConsonant(c) => Some(c.decompose()),
        Jamo::CompositeVowel(c) => Some(c.decompose()),
        _ => None,
    };
    match parts {
        Some((a, b)) if options.decompose_composites => {
            match (encode(&a, position, options.jamo_era), encode(&b, position, options.jamo_era)) {
                (Some(x), Some(y)) => {
                    result.push(x);
                    result.push(y);
                    Ok(())
                },
                _ => Err(BlockError::InvalidPosition(*j, position)),
            }
        },
        _ => match encode(j, position, options.jamo_era) {
            Some(x) => {
                result.push(x);
                Ok(())
            },
            None => Err(BlockError::InvalidPosition(*j, position)),
        },
    }
}

/// One jamo written at a position in an encoding.
fn encode(j: &Jamo, position: JamoPosition, era: JamoUnicodeEra) -> (r: Option<char>)
    ensures
        r == encoded(*j, position, era),
{
    match era {
        JamoUnicodeEra::Modern => j.char_modern(position),
        JamoUnicodeEra::Compatibility => Some(j.char_compatibility()),
    }
}

/// Writing a block as its syllable and reading the syllable back gives the
/// same block, for every block whose initial, vowel and final (if any) each
/// have a modern encoding at their position.
pub proof fn lemma_block_round_trip(b: HangulBlock)
    requires
        b.codepoint_valid(),
    ensures
        b.spec_to_char() matches Ok(c) && HangulBlock::spec_from_char(c) == Ok::<_, BlockError>(b),
{
    lemma_modern_ranges(b.initial, JamoPosition::Initial);
    lemma_modern_ranges(b.vowel, JamoPosition::Vowel);
    lemma_modern_round_trip(b.initial, JamoPosition::Initial);
    lemma_modern_round_trip(b.vowel, JamoPosition::Vowel);
    if let Some(f) = b.final_optional {
        lemma_modern_ranges(f, JamoPosition::Final);
        lemma_modern_round_trip(f, JamoPosition::Final);
    }
    let i = b.initial.char_modern(JamoPosition::Initial).unwrap();
    let v = b.vowel.char_modern(JamoPosition::Vowel).unwrap();
    let l_index = i as int - L_BASE;
    let v_index = v as int - V_BASE;
    let t_index = b.final_offset();
    let s = l_index * N_COUNT + v_index * T_COUNT + t_index;
    assert(0 <= s < S_COUNT && s / 588 == l_index && (s % 588) / 28 == v_index && s % 28 == t_index)
        by (nonlinear_arith)
        requires
            s == l_index * 588 + v_index * 28 + t_index,
            0 <= l_index < 19,
            0 <= v_index < 21,
            0 <= t_index < 28,
            S_COUNT == 11172,
    ;
    let code = syllable_code(l_index, v_index, t_index);
    assert(code == S_BASE + s);
    assert((code as char) as int == code);
}

/// Each initial offset below `L_COUNT` reads back as a consonant or double
/// consonant whose initial encoding is that codepoint.
#[verifier::rlimit(40)]
proof fn lemma_initial_offset(l: int)
    requires
        0 <= l < L_COUNT,
    ensures
        Jamo::from_modern_jamo((L_BASE + l) as char) matches Ok(j) && j.char_modern(JamoPosition::Initial)
            == Some((L_BASE + l) as char) && match j {
            Jamo::Consonant(_) => true,
            Jamo::CompositeConsonant(c) => c.is_valid_initial(),
            _ => false,
        },
{
    let c = (L_BASE + l) as char;
    lemma_modern_block_encodes(c);
    let (j, p) = choose|j: Jamo, p: JamoPosition| #[trigger] j.char_modern(p) == Some(c);
    lemma_modern_ranges(j, p);
    lemma_modern_round_trip(j, p);
    assert(p == JamoPosition::Initial);
}

/// Each vowel offset below `V_COUNT` reads back as a vowel whose encoding is
/// that codepoint.
#[verifier::rlimit(40)]
proof fn lemma_vowel_offset(v: int)
    requires
        0 <= v < V_COUNT,
    ensures
        Jamo::from_modern_jamo((V_BASE + v) as char) matches Ok(j) && j.char_modern(JamoPosition::Vowel)
            == Some((V_BASE + v) as char) && (j is Vowel || j is CompositeVowel),
{
    let c = (V_BASE + v) as char;
    lemma_modern_block_encodes(c);
    let (j, p) = choose|j: Jamo, p: JamoPosition| #[trigger] j.char_modern(p) == Some(c);
    lemma_modern_ranges(j, p);
    lemma_modern_round_trip(j, p);
    assert(p == JamoPosition::Vowel);
}

/// Each final offset from 1 below `T_COUNT` reads back as a consonant or a
/// composite final whose final encoding is that codepoint.
#[verifier::rlimit(40)]
proof fn lemma_final_offset(t: int)
    requires
        0 < t < T_COUNT,
    ensures
        Jamo::from_modern_jamo((T_BASE + t) as char) matches Ok(j) && j.char_modern(JamoPosition::Final)
            == Some((T_BASE + t) as char) && match j {
            Jamo::Consonant(_) => true,
            Jamo::CompositeConsonant(c) => c.is_valid_final(),
            _ => false,
        },
{
    let c = (T_BASE + t) as char;
    lemma_modern_block_encodes(c);
    let (j, p) = choose|j: Jamo, p: JamoPosition| #[trigger] j.char_modern(p) == Some(c);
    lemma_modern_ranges(j, p);
    lemma_modern_round_trip(j, p);
    assert(p == JamoPosition::Final);
}

/// Every precomposed syllable reads as a well-formed block, and that block
/// is written as the same syllable.
#[verifier::rlimit(40)]
pub proof fn lemma_syllable_decodes(c: char)
    requires
        is_syllable(c),
    ensures
        HangulBlock::spec_from_char(c) matches Ok(b) && b.wf() && b.spec_to_char() == Ok::<_, u32>(c),
{
    let n = c as int;
    let s = n - S_BASE;
    let l = s / N_COUNT as int;
    let v = (s % N_COUNT as int) / T_COUNT as int;
    let t = s % T_COUNT as int;
    assert(0 <= l < 19 && 0 <= v < 21 && 0 <= t < 28 && s == l * 588 + v * 28 + t) by (nonlinear_arith)
        requires
            0 <= s < 11172,
            l == s / 588,
            v == (s % 588) / 28,
            t == s % 28,
    ;
    lemma_initial_offset(l);
    lemma_vowel_offset(v);
    if t > 0 {
        lemma_final_offset(t);
    }
    let b = HangulBlock::spec_from_char(c).unwrap();
    assert(b.final_offset() == t);
    assert(syllable_code(l, v, t) == n);
}

/// Where a block composer stands in building a syllable.
#[derive(Debug, PartialEq, Eq, Clone, Copy, Structural)]
pub enum BlockCompositionState {
    /// Nothing yet; waiting for the first consonant.
    ExpectingInitial,
    /// One consonant: a second may double it (ㄷ -> ㄸ), or a vowel follows (다).
    ExpectingDoubleInitialOrVowel,
    /// A complete initial (ㄸ -> 따).
    ExpectingVowel,
    /// A singular vowel: a second may join it (두 -> 둬), or a final follows (둔).
    ExpectingCompositeVowelOrFinal,
    /// A composite vowel (둬 -> 뒁).
    ExpectingFinal,
    /// A singular final: a second may join it (달 -> 닳), or it may move on (다래).
    ExpectingCompositeFinal,
    /// A composite final; anything more begins the next block (닳 -> 달하).
    ExpectingNextBlock,
}

/// What pushing one jamo into a block composer did.
#[derive(Debug, PartialEq, Eq, Clone, Copy, Structural)]
pub enum BlockPushResult {
    /// The jamo joined the block.
    Success,
    /// The jamo cannot join this block but can begin the next one as it is.
    StartNewBlockNoPop,
    /// The jamo is a vowel after a final: that final begins the next block,
    /// followed by the vowel.
    PopAndStartNewBlock,
    /// The jamo can neither join this block nor begin the next.
    InvalidHangul,
    /// The character is not a Hangul jamo.
    NonHangul,
}

/// The block that a composer's stored jamo make.
#[derive(Debug, PartialEq, Eq, Clone, Copy, Structural)]
pub enum BlockCompletionStatus {
    /// An initial and a vowel, and so a syllable.
    Complete(HangulBlock),
    /// A lone part, which makes no syllable.
    Incomplete(Jamo),
    /// Nothing at all.
    Empty,
}

/// What popping from a block composer did.
#[derive(Debug, PartialEq, Eq, Clone, Copy, Structural)]
pub enum BlockPopStatus {
    /// The jamo was removed and others remain.
    PoppedAndNonEmpty(Jamo),
    /// The jamo was removed and the block is now empty.
    PoppedAndEmpty(Jamo),
    /// There was nothing to remove.
    NothingToPop,
}

/// The contents of a block composer: its state and six slots, a first and
/// a second for each of initial, vowel and final.
pub struct BlockContents {
    pub state: BlockCompositionState,
    pub initial_first: Option<Jamo>,
    pub initial_second: Option<Jamo>,
    pub vowel_first: Option<Jamo>,
    pub vowel_second: Option<Jamo>,
    pub final_first: Option<Jamo>,
    pub final_second: Option<Jamo>,
}

/// The jamo of one slot, as a sequence of none or one.
pub open spec fn slot(o: Option<Jamo>) -> Seq<Jamo> {
    match o {
        Some(j) => seq![j],
        None => Seq::empty(),
    }
}

/// The position at which a lone jamo is shown: consonants as initials,
/// vowels as vowels.
pub open spec fn own_position(j: Jamo) -> JamoPosition {
    match j {
        Jamo::Consonant(_) | Jamo::CompositeConsonant(_) => JamoPosition::Initial,
        _ => JamoPosition::Vowel,
    }
}

/// The jamo that a pop reports, if any.
pub open spec fn popped_jamo(s: BlockPopStatus) -> Option<Jamo> {
    match s {
        BlockPopStatus::PoppedAndNonEmpty(j) => Some(j),
        BlockPopStatus::PoppedAndEmpty(j) => Some(j),
        BlockPopStatus::NothingToPop => None,
    }
}

impl BlockContents {
    /// A composer with nothing in it.
    pub open spec fn empty() -> BlockContents {
        BlockContents {
            state: BlockCompositionState::ExpectingInitial,
            initial_first: None,
            initial_second: None,
            vowel_first: None,
            vowel_second: None,
            final_first: None,
            final_second: None,
        }
    }

    /// The stored jamo, in the order of the slots.
    pub open spec fn jamo(self) -> Seq<Jamo> {
        slot(self.initial_first) + slot(self.initial_second) + slot(self.vowel_first) + slot(
            self.vowel_second,
        ) + slot(self.final_first) + slot(self.final_second)
    }

    /// The slots are filled in order, each pair combines, and the state
    /// matches the slots.
    pub open spec fn wf(self) -> bool {
        &&& (self.initial_first is None ==> self.initial_second is None && self.vowel_first is None)
        &&& (self.vowel_first is None ==> self.vowel_second is None && self.final_first is None)
        &&& (self.final_first is None ==> self.final_second is None)
        &&& match self.initial_first {
            None => true,
            Some(Jamo::Consonant(a)) => match self.initial_second {
                None => true,
                Some(Jamo::Consonant(b)) => a.combine_for_initial(&b) is Some,
                _ => false,
            },
            Some(Jamo::CompositeConsonant(c)) => c.is_valid_initial() && self.initial_second is None,
            _ => false,
        }
        &&& match self.vowel_first {
            None => true,
            Some(Jamo::Vowel(a)) => match self.vowel_second {
                None => true,
                Some(Jamo::Vowel(b)) => a.combine(&b) is Some,
                _ => false,
            },
            _ => false,
        }
        &&& match self.final_first {
            None => true,
            Some(Jamo::Consonant(a)) => match self.final_second {
                None => true,
                Some(Jamo::Consonant(b)) => a.combine_for_final(&b) is Some,
                _ => false,
            },
            _ => false,
        }
        &&& match self.state {
            BlockCompositionState::ExpectingInitial => self.initial_first is None,
            BlockCompositionState::ExpectingDoubleInitialOrVowel => self.initial_first is Some
                && self.initial_first->0 is Consonant && self.initial_second is None
                && self.vowel_first is None,
            BlockCompositionState::ExpectingVowel => self.initial_first is Some
                && (self.initial_second is Some || self.initial_first->0 is CompositeConsonant)
                && self.vowel_first is None,
            BlockCompositionState::ExpectingCompositeVowelOrFinal => self.vowel_first is Some
                && self.vowel_second is None && self.final_first is None,
            BlockCompositionState::ExpectingFinal => self.vowel_second is Some
                && self.final_first is None,
            BlockCompositionState::ExpectingCompositeFinal => self.final_first is Some
                && self.final_second is None,
            BlockCompositionState::ExpectingNextBlock => self.final_second is Some,
        }
    }

    pub open spec fn with_vowel(self, letter: Jamo) -> (BlockContents, BlockPushResult) {
        (
            BlockContents {
                state: BlockCompositionState::ExpectingCompositeVowelOrFinal,
                vowel_first: Some(letter),
                ..self
            },
            BlockPushResult::Success,
        )
    }

    pub open spec fn with_composite_vowel(self, c: JamoVowelComposite) -> (BlockContents, BlockPushResult) {
        (
            BlockContents {
                state: BlockCompositionState::ExpectingFinal,
                vowel_first: Some(c.decompose().0),
                vowel_second: Some(c.decompose().1),
                ..self
            },
            BlockPushResult::Success,
        )
    }

    pub open spec fn with_final(self, letter: Jamo) -> (BlockContents, BlockPushResult) {
        (
            BlockContents {
                state: BlockCompositionState::ExpectingCompositeFinal,
                final_first: Some(letter),
                ..self
            },
            BlockPushResult::Success,
        )
    }

    pub open spec fn with_composite_final(self, c: JamoConsonantComposite) -> (BlockContents, BlockPushResult) {
        if c.is_valid_final() {
            (
                BlockContents {
                    state: BlockCompositionState::ExpectingNextBlock,
                    final_first: Some(c.decompose().0),
                    final_second: Some(c.decompose().1),
                    ..self
                },
                BlockPushResult::Success,
            )
        } else if c.is_valid_initial() {
            (self, BlockPushResult::StartNewBlockNoPop)
        } else {
            (self, BlockPushResult::InvalidHangul)
        }
    }

    /// One push: the composer after it, and what it reports.
    pub open spec fn step(self, letter: Jamo) -> (BlockContents, BlockPushResult) {
        let invalid = (self, BlockPushResult::InvalidHangul);
        match self.state {
            BlockCompositionState::ExpectingInitial => match letter {
                Jamo::Consonant(_) => (
                    BlockContents {
                        state: BlockCompositionState::ExpectingDoubleInitialOrVowel,
                        initial_first: Some(letter),
                        ..self
                    },
                    BlockPushResult::Success,
                ),
                Jamo::CompositeConsonant(c) => if c.is_valid_initial() {
                    (
                        BlockContents {
                            state: BlockCompositionState::ExpectingVowel,
                            initial_first: Some(letter),
                            ..self
                        },
                        BlockPushResult::Success,
                    )
                } else {
                    invalid
                },
                _ => invalid,
            },
            BlockCompositionState::ExpectingDoubleInitialOrVowel => match letter {
                Jamo::Consonant(c) => match self.initial_first {
                    Some(Jamo::Consonant(i1)) => if i1.combine_for_initial(&c) is Some {
                        (
                            BlockContents {
                                state: BlockCompositionState::ExpectingVowel,
                                initial_second: Some(letter),
                                ..self
                            },
                            BlockPushResult::Success,
                        )
                    } else {
                        invalid
                    },
                    _ => invalid,
                },
                Jamo::Vowel(_) => self.with_vowel(letter),
                Jamo::CompositeVowel(c) => self.with_composite_vowel(c),
                Jamo::CompositeConsonant(_) => invalid,
            },
            BlockCompositionState::ExpectingVowel => match letter {
                Jamo::Vowel(_) => self.with_vowel(letter),
                Jamo::CompositeVowel(c) => self.with_composite_vowel(c),
                _ => invalid,
            },
            BlockCompositionState::ExpectingCompositeVowelOrFinal => match letter {
                Jamo::Vowel(c) => match self.vowel_first {
                    Some(Jamo::Vowel(v1)) => if v1.combine(&c) is Some {
                        (
                            BlockContents {
                                state: BlockCompositionState::ExpectingFinal,
                                vowel_second: Some(letter),
                                ..self
                            },
                            BlockPushResult::Success,
                        )
                    } else {
                        invalid
                    },
                    _ => invalid,
                },
                Jamo::Consonant(_) => self.with_final(letter),
                Jamo::CompositeConsonant(c) => self.with_composite_final(c),
                _ => invalid,
            },
            BlockCompositionState::ExpectingFinal => match letter {
                Jamo::Consonant(_) => self.with_final(letter),
                Jamo::CompositeConsonant(c) => self.with_composite_final(c),
                _ => invalid,
            },
            BlockCompositionState::ExpectingCompositeFinal => match letter {
                Jamo::Consonant(c) => match self.final_first {
                    Some(Jamo::Consonant(f1)) => if f1.combine_for_final(&c) is Some {
                        (
                            BlockContents {
                                state: BlockCompositionState::ExpectingNextBlock,
                                final_second: Some(letter),
                                ..self
                            },
                            BlockPushResult::Success,
                        )
                    } else {
                        (self, BlockPushResult::StartNewBlockNoPop)
                    },
                    _ => invalid,
                },
                Jamo::CompositeConsonant(c) => if c.is_valid_initial() {
                    (self, BlockPushResult::StartNewBlockNoPop)
                } else {
                    invalid
                },
                _ => (self, BlockPushResult::PopAndStartNewBlock),
            },
            BlockCompositionState::ExpectingNextBlock => match letter {
                Jamo::Consonant(_) | Jamo::CompositeConsonant(_) => (self, BlockPushResult::StartNewBlockNoPop),
                _ => (self, BlockPushResult::PopAndStartNewBlock),
            },
        }
    }

    /// One pop: the last filled slot is emptied, and the state steps back.
    pub open spec fn pop(self) -> (BlockContents, BlockPopStatus) {
        if let Some(c) = self.final_second {
            (
                BlockContents {
                    state: BlockCompositionState::ExpectingCompositeFinal,
                    final_second: None,
                    ..self
                },
                BlockPopStatus::PoppedAndNonEmpty(c),
            )
        } else if let Some(c) = self.final_first {
            (
                BlockContents {
                    state: if self.vowel_second is Some {
                        BlockCompositionState::ExpectingFinal
                    } else {
                        BlockCompositionState::ExpectingCompositeVowelOrFinal
                    },
                    final_first: None,
                    ..self
                },
                BlockPopStatus::PoppedAndNonEmpty(c),
            )
        } else if let Some(c) = self.vowel_second {
            (
                BlockContents {
                    state: BlockCompositionState::ExpectingCompositeVowelOrFinal,
                    vowel_second: None,
                    ..self
                },
                BlockPopStatus::PoppedAndNonEmpty(c),
            )
        } else if let Some(c) = self.vowel_first {
            (
                BlockContents {
                    state: if self.initial_second is Some
                        || self.initial_first matches Some(Jamo::CompositeConsonant(_)) {
                        BlockCompositionState::ExpectingVowel
                    } else {
                        BlockCompositionState::ExpectingDoubleInitialOrVowel
                    },
                    vowel_first: None,
                    ..self
                },
                BlockPopStatus::PoppedAndNonEmpty(c),
            )
        } else if let Some(c) = self.initial_second {
            (
                BlockContents {
                    state: BlockCompositionState::ExpectingDoubleInitialOrVowel,
                    initial_second: None,
                    ..self
                },
                BlockPopStatus::PoppedAndNonEmpty(c),
            )
        } else if let Some(c) = self.initial_first {
            (
                BlockContents {
                    state: BlockCompositionState::ExpectingInitial,
                    initial_first: None,
                    ..self
                },
                BlockPopStatus::PoppedAndEmpty(c),
            )
        } else {
            (
                BlockContents { state: BlockCompositionState::ExpectingInitial, ..self },
                BlockPopStatus::NothingToPop,
            )
        }
    }

    /// Detaching the trailing final consonant: the last final slot is
    /// emptied, as a pop would, if there is one.
    pub open spec fn detach_final(self) -> (BlockContents, Option<Jamo>) {
        if self.final_first is Some {
            (self.pop().0, popped_jamo(self.pop().1))
        } else {
            (self, None)
        }
    }

    pub open spec fn joined_initial(self) -> Result<Option<Jamo>, BlockError> {
        match (self.initial_first, self.initial_second) {
            (Some(Jamo::Consonant(a)), Some(Jamo::Consonant(b))) => match a.combine_for_initial(&b) {
                Some(c) => Ok(Some(Jamo::CompositeConsonant(c))),
                None => Err(BlockError::InvalidCombination(Jamo::Consonant(a), Jamo::Consonant(b))),
            },
            (Some(a), None) => Ok(Some(a)),
            _ => Ok(None),
        }
    }

    pub open spec fn joined_vowel(self) -> Result<Option<Jamo>, BlockError> {
        match (self.vowel_first, self.vowel_second) {
            (Some(Jamo::Vowel(a)), Some(Jamo::Vowel(b))) => match a.combine(&b) {
                Some(c) => Ok(Some(Jamo::CompositeVowel(c))),
                None => Err(BlockError::InvalidCombination(Jamo::Vowel(a), Jamo::Vowel(b))),
            },
            (Some(a), None) => Ok(Some(a)),
            _ => Ok(None),
        }
    }

    pub open spec fn joined_final(self) -> Result<Option<Jamo>, BlockError> {
        match (self.final_first, self.final_second) {
            (Some(Jamo::Consonant(a)), Some(Jamo::Consonant(b))) => match a.combine_for_final(&b) {
                Some(c) => Ok(Some(Jamo::CompositeConsonant(c))),
                None => Err(BlockError::InvalidCombination(Jamo::Consonant(a), Jamo::Consonant(b))),
            },
            (Some(a), None) => Ok(Some(a)),
            _ => Ok(None),
        }
    }

    /// The block that the slots make, joining each pair into its composite.
    pub open spec fn completion(self) -> Result<BlockCompletionStatus, BlockError> {
        match self.joined_initial() {
            Err(e) => Err(e),
            Ok(initial) => match self.joined_vowel() {
                Err(e) => Err(e),
                Ok(vowel) => match self.joined_final() {
                    Err(e) => Err(e),
                    Ok(final_optional) => Ok(
                        match (initial, vowel) {
                            (Some(i), Some(v)) => BlockCompletionStatus::Complete(
                                HangulBlock { initial: i, vowel: v, final_optional },
                            ),
                            (Some(i), None) => BlockCompletionStatus::Incomplete(i),
                            (None, Some(v)) => BlockCompletionStatus::Incomplete(v),
                            (None, None) => match final_optional {
                                Some(f) => BlockCompletionStatus::Incomplete(f),
                                None => BlockCompletionStatus::Empty,
                            },
                        },
                    ),
                },
            },
        }
    }

    /// What the composer shows: its syllable when complete, its lone jamo
    /// in modern encoding when not, nothing when empty.
    pub open spec fn display(self) -> Result<Option<char>, BlockError> {
        match self.completion() {
            Err(e) => Err(e),
            Ok(BlockCompletionStatus::Complete(b)) => match b.spec_to_char() {
                Ok(c) => Ok(Some(c)),
                Err(e) => Err(BlockError::InvalidCodepoint(e)),
            },
            Ok(BlockCompletionStatus::Incomplete(j)) => Ok(j.char_modern(own_position(j))),
            Ok(BlockCompletionStatus::Empty) => Ok(None),
        }
    }

    /// The composer that reopens a sealed block: its parts split into the
    /// slots, and the state that the last filled slot calls for.
    pub open spec fn from_block(b: HangulBlock) -> BlockContents {
        let (i1, i2, v1, v2, f1, f2) = b.spec_decomposed_tuple();
        BlockContents {
            state: if f2 is Some {
                BlockCompositionState::ExpectingNextBlock
            } else if f1 is Some {
                BlockCompositionState::ExpectingCompositeFinal
            } else if v2 is Some {
                BlockCompositionState::ExpectingFinal
            } else if v1 is Some {
                BlockCompositionState::ExpectingCompositeVowelOrFinal
            } else if i2 is Some {
                BlockCompositionState::ExpectingVowel
            } else if i1 is Some {
                BlockCompositionState::ExpectingDoubleInitialOrVowel
            } else {
                BlockCompositionState::ExpectingInitial
            },
            initial_first: i1,
            initial_second: i2,
            vowel_first: v1,
            vowel_second: v2,
            final_first: f1,
            final_second: f2,
        }
    }
}

/// A push keeps a composer well formed, never reports `NonHangul`, and
/// changes nothing unless it succeeds; a singular jamo that joins is stored
/// after all the others.
#[verifier::rlimit(40)]
pub proof fn lemma_step(b: BlockContents, letter: Jamo)
    requires
        b.wf(),
    ensures
        b.step(letter).0.wf(),
        b.step(letter).1 != BlockPushResult::NonHangul,
        b.step(letter).1 != BlockPushResult::Success ==> b.step(letter).0 == b,
        b.step(letter).1 == BlockPushResult::Success && (letter is Consonant || letter is Vowel)
            ==> b.step(letter).0.jamo() == b.jamo().push(letter),
        b.step(letter).1 == BlockPushResult::StartNewBlockNoPop ==> b.vowel_first is Some
            && (letter is Consonant || letter is CompositeConsonant),
        b.step(letter).1 == BlockPushResult::PopAndStartNewBlock ==> b.final_first is Some
            && (letter is Vowel || letter is CompositeVowel),
{
    match letter {
        Jamo::CompositeVowel(c) => lemma_vowel_decompose_combine(c),
        Jamo::CompositeConsonant(c) => lemma_consonant_decompose_combine(c),
        _ => {},
    }
    assert(b.step(letter).1 == BlockPushResult::Success && (letter is Consonant || letter is Vowel)
        ==> b.step(letter).0.jamo() =~= b.jamo().push(letter));
}

/// A pop keeps a composer well formed and removes exactly the last stored
/// jamo, reporting it; it reports that the block is now empty exactly when it
/// removed the only one, and nothing exactly when there was none.
#[verifier::rlimit(40)]
pub proof fn lemma_pop(b: BlockContents)
    requires
        b.wf(),
    ensures
        b.pop().0.wf(),
        b.pop().0.jamo() == b.jamo().drop_last() || b.jamo().len() == 0,
        b.jamo().len() == 0 <==> b.pop().1 == BlockPopStatus::NothingToPop,
        b.jamo().len() == 0 ==> b.pop().0 == BlockContents::empty(),
        b.jamo().len() > 0 ==> popped_jamo(b.pop().1) == Some(b.jamo().last()),
        b.pop().1 is PoppedAndEmpty <==> b.jamo().len() == 1,
        b.pop().0.jamo().len() == 0 ==> b.pop().0 == BlockContents::empty(),
{
    assert(b.jamo().len() > 0 ==> b.pop().0.jamo() =~= b.jamo().drop_last());
}

/// Popping right after a singular jamo joined the block undoes that push
/// exactly: the jamo comes back and the composer is as it was before.
#[verifier::rlimit(40)]
pub proof fn lemma_pop_undoes_push(b: BlockContents, letter: Jamo)
    requires
        b.wf(),
        letter is Consonant || letter is Vowel,
        b.step(letter).1 == BlockPushResult::Success,
    ensures
        b.step(letter).0.pop().0 == b,
        b.step(letter).0.pop().1 == if b.jamo().len() == 0 {
            BlockPopStatus::PoppedAndEmpty(letter)
        } else {
            BlockPopStatus::PoppedAndNonEmpty(letter)
        },
{
}

/// A well-formed composer always makes a block: a complete, well-formed one
/// once it holds a vowel, its lone initial before that, nothing when empty.
#[verifier::rlimit(40)]
pub proof fn lemma_completion(b: BlockContents)
    requires
        b.wf(),
    ensures
        b.completion() is Ok,
        b.display() is Ok,
        b.vowel_first is Some <==> b.completion() matches Ok(BlockCompletionStatus::Complete(_)),
        b.completion() matches Ok(BlockCompletionStatus::Complete(blk)) ==> blk.wf() && blk.codepoint_valid(),
        b.jamo().len() == 0 <==> b.completion() == Ok::<_, BlockError>(BlockCompletionStatus::Empty),
        b.vowel_first is None && b.initial_first is Some ==> b.completion() == Ok::<_, BlockError>(
            BlockCompletionStatus::Incomplete(b.joined_initial().unwrap().unwrap()),
        ),
{
    if let Some(Jamo::Consonant(a)) = b.initial_first {
        if let Some(Jamo::Consonant(c)) = b.initial_second {
            lemma_consonant_combine_decompose(a, c);
        }
    }
    if let Some(Jamo::Vowel(a)) = b.vowel_first {
        if let Some(Jamo::Vowel(c)) = b.vowel_second {
            lemma_vowel_combine_decompose(a, c);
        }
    }
    if let Some(Jamo::Consonant(a)) = b.final_first {
        if let Some(Jamo::Consonant(c)) = b.final_second {
            lemma_consonant_combine_decompose(a, c);
        }
    }
    if let Ok(BlockCompletionStatus::Complete(blk)) = b.completion() {
        lemma_block_parts_encode(blk);
    }
}

/// The parts of a well-formed block each have a modern encoding at their
/// position.
pub proof fn lemma_block_parts_encode(blk: HangulBlock)
    requires
        blk.wf(),
    ensures
        blk.codepoint_valid(),
{
}

/// Reopening a well-formed block gives a well-formed composer that makes
/// that same block again.
#[verifier::rlimit(40)]
pub proof fn lemma_reopen(blk: HangulBlock)
    requires
        blk.wf(),
    ensures
        BlockContents::from_block(blk).wf(),
        BlockContents::from_block(blk).completion() == Ok::<_, BlockError>(BlockCompletionStatus::Complete(blk)),
        BlockContents::from_block(blk).vowel_first is Some,
{
    match blk.initial {
        Jamo::CompositeConsonant(c) => lemma_consonant_decompose_combine(c),
        _ => {},
    }
    match blk.vowel {
        Jamo::CompositeVowel(c) => lemma_vowel_decompose_combine(c),
        _ => {},
    }
    match blk.final_optional {
        Some(Jamo::CompositeConsonant(c)) => lemma_consonant_decompose_combine(c),
        _ => {},
    }
}

/// Builds one syllable block from jamo pushed one at a time, and takes them
/// off again in reverse order.
#[derive(Debug, PartialEq, Eq)]
pub struct BlockComposer {
    state: BlockCompositionState,
    initial_first: Option<Jamo>,
    initial_second: Option<Jamo>,
    vowel_first: Option<Jamo>,
    vowel_second: Option<Jamo>,
    final_first: Option<Jamo>,
    final_second: Option<Jamo>,
}

impl View for BlockComposer {
    type V = BlockContents;

    closed spec fn view(&self) -> BlockContents {
        BlockContents {
            state: self.state,
            initial_first: self.initial_first,
            initial_second: self.initial_second,
            vowel_first: self.vowel_first,
            vowel_second: self.vowel_second,
            final_first: self.final_first,
            final_second: self.final_second,
        }
    }
}

impl BlockComposer {
    #[verifier::type_invariant]
    closed spec fn inv(self) -> bool {
        self@.wf()
    }

    /// An empty composer, waiting for an initial consonant.
    pub fn new() -> (r: Self)
        ensures
            r@ == BlockContents::empty(),
    {
        BlockComposer {
            state: BlockCompositionState::ExpectingInitial,
            initial_first: None,
            initial_second: None,
            vowel_first: None,
            vowel_second: None,
            final_first: None,
            final_second: None,
        }
    }

    /// Where the composer stands.
    pub fn state(&self) -> (r: BlockCompositionState)
        ensures
            r == self@.state,
            self@.wf(),
    {
        proof {
            use_type_invariant(self);
        }
        self.state
    }

    /// Pushes one jamo, following the state machine of `BlockContents::step`.
    pub fn push(&mut self, letter: &Jamo) -> (r: BlockPushResult)
        ensures
            (final(self)@, r) == old(self)@.step(*letter),
            old(self)@.wf(),
            final(self)@.wf(),
    {
        proof {
            use_type_invariant(&*self);
            lemma_step(self@, *letter);
        }
        let r = match self.state {
            BlockCompositionState::ExpectingInitial => self.try_push_initial(letter),
            BlockCompositionState::ExpectingDoubleInitialOrVowel => {
                self.try_push_double_initial_or_vowel(letter)
            },
            BlockCompositionState::ExpectingVowel => self.try_push_vowel(letter),
            BlockCompositionState::ExpectingCompositeVowelOrFinal => {
                self.try_push_composite_vowel_or_final(letter)
            },
            BlockCompositionState::ExpectingFinal => self.try_push_final(letter),
            BlockCompositionState::ExpectingCompositeFinal => self.try_push_composite_final(letter),
            BlockCompositionState::ExpectingNextBlock => self.try_push_next_block(letter),
        };
        proof {
            use_type_invariant(&*self);
        }
        r
    }

    /// Removes the most recently stored jamo: the second final, the first
    /// final, the second vowel, the first vowel, the second initial or the
    /// first initial, whichever is the last filled.
    pub fn pop(&mut self) -> (r: BlockPopStatus)
        ensures
            (final(self)@, r) == old(self)@.pop(),
            old(self)@.wf(),
            final(self)@.wf(),
            old(self)@.jamo().len() > 0 ==> final(self)@.jamo() == old(self)@.jamo().drop_last()
                && popped_jamo(r) == Some(old(self)@.jamo().last()),
            r is PoppedAndEmpty <==> old(self)@.jamo().len() == 1,
            r is NothingToPop <==> old(self)@.jamo().len() == 0,
            final(self)@.jamo().len() == 0 ==> final(self)@ == BlockContents::empty(),
    {
        proof {
            use_type_invariant(&*self);
            lemma_pop(self@);
        }
        let r = if let Some(c) = self.final_second {
            *self = BlockComposer {
                state: BlockCompositionState::ExpectingCompositeFinal,
                final_second: None,
                ..*self
            };
            BlockPopStatus::PoppedAndNonEmpty(c)
        } else if let Some(c) = self.final_first {
            let state = match self.vowel_second {
                Some(_) => BlockCompositionState::ExpectingFinal,
                None => BlockCompositionState::ExpectingCompositeVowelOrFinal,
            };
            *self = BlockComposer { state, final_first: None, ..*self };
            BlockPopStatus::PoppedAndNonEmpty(c)
        } else if let Some(c) = self.vowel_second {
            *self = BlockComposer {
                state: BlockCompositionState::ExpectingCompositeVowelOrFinal,
                vowel_second: None,
                ..*self
            };
            BlockPopStatus::PoppedAndNonEmpty(c)
        } else if let Some(c) = self.vowel_first {
            let state = match (&self.initial_first, &self.initial_second) {
                (_, Some(_)) | (Some(Jamo::CompositeConsonant(_)), _) => BlockCompositionState::ExpectingVowel,
                _ => BlockCompositionState::ExpectingDoubleInitialOrVowel,
            };
            *self = BlockComposer { state, vowel_first: None, ..*self };
            BlockPopStatus::PoppedAndNonEmpty(c)
        } else if let Some(c) = self.initial_second {
            *self = BlockComposer {
                state: BlockCompositionState::ExpectingDoubleInitialOrVowel,
                initial_second: None,
                ..*self
            };
            BlockPopStatus::PoppedAndNonEmpty(c)
        } else if let Some(c) = self.initial_first {
            *self = BlockComposer {
                state: BlockCompositionState::ExpectingInitial,
                initial_first: None,
                ..*self
            };
            BlockPopStatus::PoppedAndEmpty(c)
        } else {
            *self = BlockComposer { state: BlockCompositionState::ExpectingInitial, ..*self };
            BlockPopStatus::NothingToPop
        };
        r
    }

    fn try_push_initial(&mut self, letter: &Jamo) -> (r: BlockPushResult)
        requires
            old(self)@.state == BlockCompositionState::ExpectingInitial,
        ensures
            (final(self)@, r) == old(self)@.step(*letter),
    {
        proof {
            use_type_invariant(&*self);
            lemma_step(self@, *letter);
        }
        match letter {
            Jamo::Consonant(_) => {
                *self = BlockComposer {
                    state: BlockCompositionState::ExpectingDoubleInitialOrVowel,
                    initial_first: Some(*letter),
                    ..*self
                };
                BlockPushResult::Success
            },
            Jamo::CompositeConsonant(c) => {
                if c.is_valid_initial() {
                    *self = BlockComposer {
                        state: BlockCompositionState::ExpectingVowel,
                        initial_first: Some(*letter),
                        ..*self
                    };
                    BlockPushResult::Success
                } else {
                    BlockPushResult::InvalidHangul
                }
            },
            _ => BlockPushResult::InvalidHangul,
        }
    }

    fn push_vowel(&mut self, letter: &Jamo) -> (r: BlockPushResult)
        requires
            old(self)@.state == BlockCompositionState::ExpectingDoubleInitialOrVowel
                || old(self)@.state == BlockCompositionState::ExpectingVowel,
            letter is Vowel,
        ensures
            (final(self)@, r) == old(self)@.with_vowel(*letter),
    {
        proof {
            use_type_invariant(&*self);
            lemma_step(self@, *letter);
        }
        *self = BlockComposer {
            state: BlockCompositionState::ExpectingCompositeVowelOrFinal,
            vowel_first: Some(*letter),
            ..*self
        };
        BlockPushResult::Success
    }

    fn push_composite_vowel(&mut self, c: &JamoVowelComposite) -> (r: BlockPushResult)
        requires
            old(self)@.state == BlockCompositionState::ExpectingDoubleInitialOrVowel
                || old(self)@.state == BlockCompositionState::ExpectingVowel,
        ensures
            (final(self)@, r) == old(self)@.with_composite_vowel(*c),
    {
        proof {
            use_type_invariant(&*self);
            lemma_step(self@, Jamo::CompositeVowel(*c));
        }
        let (v1, v2) = c.decompose();
        *self = BlockComposer {
            state: BlockCompositionState::ExpectingFinal,
            vowel_first: Some(v1),
            vowel_second: Some(v2),
            ..*self
        };
        BlockPushResult::Success
    }

    fn push_final(&mut self, letter: &Jamo) -> (r: BlockPushResult)
        requires
            old(self)@.state == BlockCompositionState::ExpectingCompositeVowelOrFinal
                || old(self)@.state == BlockCompositionState::ExpectingFinal,
            letter is Consonant,
        ensures
            (final(self)@, r) == old(self)@.with_final(*letter),
    {
        proof {
            use_type_invariant(&*self);
            lemma_step(self@, *letter);
        }
        *self = BlockComposer {
            state: BlockCompositionState::ExpectingCompositeFinal,
            final_first: Some(*letter),
            ..*self
        };
        BlockPushResult::Success
    }

    fn push_composite_final(&mut self, c: &JamoConsonantComposite) -> (r: BlockPushResult)
        requires
            old(self)@.state == BlockCompositionState::ExpectingCompositeVowelOrFinal
                || old(self)@.state == BlockCompositionState::ExpectingFinal,
        ensures
            (final(self)@, r) == old(self)@.with_composite_final(*c),
    {
        proof {
            use_type_invariant(&*self);
            lemma_step(self@, Jamo::CompositeConsonant(*c));
        }
        if c.is_valid_final() {
            let (f1, f2) = c.decompose();
            *self = BlockComposer {
                state: BlockCompositionState::ExpectingNextBlock,
                final_first: Some(f1),
                final_second: Some(f2),
                ..*self
            };
            BlockPushResult::Success
        } else if c.is_valid_initial() {
            BlockPushResult::StartNewBlockNoPop
        } else {
            BlockPushResult::InvalidHangul
        }
    }

    fn try_push_double_initial_or_vowel(&mut self, letter: &Jamo) -> (r: BlockPushResult)
        requires
            old(self)@.state == BlockCompositionState::ExpectingDoubleInitialOrVowel,
        ensures
            (final(self)@, r) == old(self)@.step(*letter),
    {
        proof {
            use_type_invariant(&*self);
            lemma_step(self@, *letter);
        }
        match letter {
            Jamo::Consonant(c) => match &self.initial_first {
                Some(Jamo::Consonant(i1)) => {
                    if i1.combine_for_initial(c).is_some() {
                        *self = BlockComposer {
                            state: BlockCompositionState::ExpectingVowel,
                            initial_second: Some(*letter),
                            ..*self
                        };
                        BlockPushResult::Success
                    } else {
                        BlockPushResult::InvalidHangul
                    }
                },
                _ => BlockPushResult::InvalidHangul,
            },
            Jamo::Vowel(_) => self.push_vowel(letter),
            Jamo::CompositeVowel(c) => self.push_composite_vowel(c),
            Jamo::CompositeConsonant(_) => BlockPushResult::InvalidHangul,
        }
    }

    fn try_push_vowel(&mut self, letter: &Jamo) -> (r: BlockPushResult)
        requires
            old(self)@.state == BlockCompositionState::ExpectingVowel,
        ensures
            (final(self)@, r) == old(self)@.step(*letter),
    {
        match letter {
            Jamo::Vowel(_) => self.push_vowel(letter),
            Jamo::CompositeVowel(c) => self.push_composite_vowel(c),
            _ => BlockPushResult::InvalidHangul,
        }
    }

    fn try_push_composite_vowel_or_final(&mut self, letter: &Jamo) -> (r: BlockPushResult)
        requires
            old(self)@.state == BlockCompositionState::ExpectingCompositeVowelOrFinal,
        ensures
            (final(self)@, r) == old(self)@.step(*letter),
    {
        proof {
            use_type_invariant(&*self);
            lemma_step(self@, *letter);
        }
        match letter {
            Jamo::Vowel(c) => match &self.vowel_first {
                Some(Jamo::Vowel(v1)) => {
                    if v1.combine(c).is_some() {
                        *self = BlockComposer {
                            state: BlockCompositionState::ExpectingFinal,
                            vowel_second: Some(*letter),
                            ..*self
                        };
                        BlockPushResult::Success
                    } else {
                        BlockPushResult::InvalidHangul
                    }
                },
                _ => BlockPushResult::InvalidHangul,
            },
            Jamo::Consonant(_) => self.push_final(letter),
            Jamo::CompositeConsonant(c) => self.push_composite_final(c),
            _ => BlockPushResult::InvalidHangul,
        }
    }

    fn try_push_final(&mut self, letter: &Jamo) -> (r: BlockPushResult)
        requires
            old(self)@.state == BlockCompositionState::ExpectingFinal,
        ensures
            (final(self)@, r) == old(self)@.step(*letter),
    {
        match letter {
            Jamo::Consonant(_) => self.push_final(letter),
            Jamo::CompositeConsonant(c) => self.push_composite_final(c),
            _ => BlockPushResult::InvalidHangul,
        }
    }

    fn try_push_composite_final(&mut self, letter: &Jamo) -> (r: BlockPushResult)
        requires
            old(self)@.state == BlockCompositionState::ExpectingCompositeFinal,
        ensures
            (final(self)@, r) == old(self)@.step(*letter),
    {
        proof {
            use_type_invariant(&*self);
            lemma_step(self@, *letter);
        }
        match letter {
            Jamo::Consonant(c) => match &self.final_first {
                Some(Jamo::Consonant(f1)) => {
                    if f1.combine_for_final(c).is_some() {
                        *self = BlockComposer {
                            state: BlockCompositionState::ExpectingNextBlock,
                            final_second: Some(*letter),
                            ..*self
                        };
                        BlockPushResult::Success
                    } else {
                        BlockPushResult::StartNewBlockNoPop
                    }
                },
                _ => BlockPushResult::InvalidHangul,
            },
            Jamo::CompositeConsonant(c) => {
                if c.is_valid_initial() {
                    BlockPushResult::StartNewBlockNoPop
                } else {
                    BlockPushResult::InvalidHangul
                }
            },
            _ => BlockPushResult::PopAndStartNewBlock,
        }
    }

    fn try_push_next_block(&mut self, letter: &Jamo) -> (r: BlockPushResult)
        requires
            old(self)@.state == BlockCompositionState::ExpectingNextBlock,
        ensures
            (final(self)@, r) == old(self)@.step(*letter),
    {
        match letter {
            Jamo::Consonant(_) | Jamo::CompositeConsonant(_) => BlockPushResult::StartNewBlockNoPop,
            Jamo::Vowel(_) | Jamo::CompositeVowel(_) => BlockPushResult::PopAndStartNewBlock,
        }
    }

    /// Detaches the trailing final consonant (the second final if there is
    /// one, else the first), for it to begin the next block; `None` when the
    /// block has no final.
    pub(crate) fn pop_end_consonant(&mut self) -> (r: Option<Jamo>)
        ensures
            (final(self)@, r) == old(self)@.detach_final(),
            final(self)@.wf(),
    {
        proof {
            use_type_invariant(&*self);
        }
        if self.final_first.is_some() {
            match self.pop() {
                BlockPopStatus::PoppedAndNonEmpty(c) => Some(c),
                BlockPopStatus::PoppedAndEmpty(c) => Some(c),
                BlockPopStatus::NothingToPop => None,
            }
        } else {
            None
        }
    }

    /// The block that the stored jamo make, each pair joined into its
    /// composite: complete once there are an initial and a vowel, the lone
    /// part when there is only one, empty when there is none.
    pub fn try_as_complete_block(&self) -> (r: Result<BlockCompletionStatus, BlockError>)
        ensures
            r == self@.completion(),
            r is Ok,
            self@.wf(),
    {
        proof {
            use_type_invariant(self);
            lemma_completion(self@);
        }
        let initial_optional = match (&self.initial_first, &self.initial_second) {
            (Some(Jamo::Consonant(i1)), Some(Jamo::Consonant(i2))) => match i1.combine_for_initial(i2) {
                Some(c) => Some(Jamo::CompositeConsonant(c)),
                None => {
                    return Err(
                        BlockError::InvalidCombination(Jamo::Consonant(*i1), Jamo::Consonant(*i2)),
                    )
                },
            },
            (Some(i1), None) => Some(*i1),
            _ => None,
        };
        let vowel_optional = match (&self.vowel_first, &self.vowel_second) {
            (Some(Jamo::Vowel(v1)), Some(Jamo::Vowel(v2))) => match v1.combine(v2) {
                Some(c) => Some(Jamo::CompositeVowel(c)),
                None => {
                    return Err(BlockError::InvalidCombination(Jamo::Vowel(*v1), Jamo::Vowel(*v2)))
                },
            },
            (Some(v1), None) => Some(*v1),
            _ => None,
        };
        let final_optional = match (&self.final_first, &self.final_second) {
            (Some(Jamo::Consonant(f1)), Some(Jamo::Consonant(f2))) => match f1.combine_for_final(f2) {
                Some(c) => Some(Jamo::CompositeConsonant(c)),
                None => {
                    return Err(
                        BlockError::InvalidCombination(Jamo::Consonant(*f1), Jamo::Consonant(*f2)),
                    )
                },
            },
            (Some(f1), None) => Some(*f1),
            _ => None,
        };
        match (initial_optional, vowel_optional) {
            (Some(initial), Some(vowel)) => Ok(
                BlockCompletionStatus::Complete(HangulBlock { initial, vowel, final_optional }),
            ),
            (Some(initial), None) => Ok(BlockCompletionStatus::Incomplete(initial)),
            (None, Some(vowel)) => Ok(BlockCompletionStatus::Incomplete(vowel)),
            (None, None) => match final_optional {
                Some(f) => Ok(BlockCompletionStatus::Incomplete(f)),
                None => Ok(BlockCompletionStatus::Empty),
            },
        }
    }

    /// The character that shows the block: its syllable when complete, its
    /// lone jamo in modern encoding when not, nothing when empty.
    pub fn block_as_string(&self) -> (r: Result<Option<char>, BlockError>)
        ensures
            r == self@.display(),
            r is Ok,
    {
        proof {
            use_type_invariant(self);
            lemma_completion(self@);
        }
        match self.try_as_complete_block()? {
            BlockCompletionStatus::Complete(block) => match block.to_char() {
                Ok(c) => Ok(Some(c)),
                Err(e) => Err(BlockError::InvalidCodepoint(e)),
            },
            BlockCompletionStatus::Incomplete(c) => {
                let position = match c {
                    Jamo::Consonant(_) | Jamo::CompositeConsonant(_) => JamoPosition::Initial,
                    _ => JamoPosition::Vowel,
                };
                Ok(c.char_modern(position))
            },
            BlockCompletionStatus::Empty => Ok(None),
        }
    }

    /// Reopens a sealed block for editing: its parts split into the slots,
    /// in the state that the last filled slot calls for. A block that typing
    /// could not have made is refused.
    pub fn from_composed_block(block: &HangulBlock) -> (r: Result<Self, BlockError>)
        ensures
            match r {
                Ok(c) => block.wf() && c@ == BlockContents::from_block(*block),
                Err(e) => !block.wf() && e == BlockError::MalformedBlock,
            },
    {
        if !block.is_well_formed() {
            return Err(BlockError::MalformedBlock);
        }
        proof {
            lemma_reopen(*block);
        }
        let (i1, i2, v1, v2, f1, f2) = block.decomposed_tuple()?;
        let state = if f2.is_some() {
            BlockCompositionState::ExpectingNextBlock
        } else if f1.is_some() {
            BlockCompositionState::ExpectingCompositeFinal
        } else if v2.is_some() {
            BlockCompositionState::ExpectingFinal
        } else if v1.is_some() {
            BlockCompositionState::ExpectingCompositeVowelOrFinal
        } else if i2.is_some() {
            BlockCompositionState::ExpectingVowel
        } else if i1.is_some() {
            BlockCompositionState::ExpectingDoubleInitialOrVowel
        } else {
            BlockCompositionState::ExpectingInitial
        };
        Ok(
            BlockComposer {
                state,
                initial_first: i1,
                initial_second: i2,
                vowel_first: v1,
                vowel_second: v2,
                final_first: f1,
                final_second: f2,
            },
        )
    }
}

/// The text of a sequence of blocks: the syllable of each, in order, or the
/// error of the first block that has none.
pub open spec fn blocks_text(blocks: Seq<HangulBlock>) -> Result<Seq<char>, BlockError>
    decreases blocks.len(),
{
    if blocks.len() == 0 {
        Ok(Seq::empty())
    } else {
        match blocks_text(blocks.drop_last()) {
            Err(e) => Err(e),
            Ok(t) => match blocks.last().spec_to_char() {
                Ok(c) => Ok(t.push(c)),
                Err(e) => Err(BlockError::InvalidCodepoint(e)),
            },
        }
    }
}

/// Once a prefix of the blocks has no text, neither has the whole.
proof fn lemma_blocks_text_error_persists(blocks: Seq<HangulBlock>, k: int)
    requires
        0 <= k <= blocks.len(),
        blocks_text(blocks.take(k)) is Err,
    ensures
        blocks_text(blocks) == blocks_text(blocks.take(k)),
    decreases blocks.len() - k,
{
    if k < blocks.len() {
        assert(blocks.take(k + 1).drop_last() =~= blocks.take(k));
        lemma_blocks_text_error_persists(blocks, k + 1);
    } else {
        assert(blocks.take(k) =~= blocks);
    }
}

/// Well-formed blocks always have a text, one syllable per block.
pub proof fn lemma_blocks_text_ok(blocks: Seq<HangulBlock>)
    requires
        forall|i: int| 0 <= i < blocks.len() ==> (#[trigger] blocks[i]).wf(),
    ensures
        blocks_text(blocks) matches Ok(t) && t.len() == blocks.len(),
    decreases blocks.len(),
{
    if blocks.len() > 0 {
        let rest = blocks.drop_last();
        assert forall|i: int| 0 <= i < rest.len() implies (#[trigger] rest[i]).wf() by {
            assert(rest[i] == blocks[i]);
        }
        lemma_blocks_text_ok(rest);
        lemma_block_parts_encode(blocks.last());
    }
}

/// The syllables of a sequence of blocks, in order; fails at the first block
/// that has no syllable.
pub(crate) fn hangul_blocks_vec_to_chars(blocks: &Vec<HangulBlock>) -> (r: Result<Vec<char>, BlockError>)
    ensures
        match r {
            Ok(s) => blocks_text(blocks@) == Ok::<_, BlockError>(s@),
            Err(e) => blocks_text(blocks@) == Err::<Seq<char>, _>(e),
        },
{
    let mut result: Vec<char> = Vec::new();
    let mut i: usize = 0;
    while i < blocks.len()
        invariant
            0 <= i <= blocks.len(),
            blocks_text(blocks@.take(i as int)) == Ok::<_, BlockError>(result@),
        decreases blocks.len() - i,
    {
        assert(blocks@.take(i + 1).drop_last() =~= blocks@.take(i as int));
        match blocks[i].to_char() {
            Ok(c) => result.push(c),
            Err(codepoint) => {
                proof {
                    lemma_blocks_text_error_persists(blocks@, i + 1);
                }
                return Err(BlockError::InvalidCodepoint(codepoint));
            },
        }
        i += 1;
    }
    assert(blocks@.take(blocks.len() as int) =~= blocks@);
    Ok(result)
}

/// The syllables of a sequence of blocks, as a string; fails at the first
/// block that has no syllable.
pub fn hangul_blocks_vec_to_string(blocks: &Vec<HangulBlock>) -> (r: Result<String, BlockError>)
    ensures
        match r {
            Ok(s) => blocks_text(blocks@) == Ok::<_, BlockError>(s@),
            Err(e) => blocks_text(blocks@) == Err::<Seq<char>, _>(e),
        },
{
    let chars = hangul_blocks_vec_to_chars(blocks)?;
    Ok(string_from_chars(&chars))
}

/// Pushes a sequence of jamo into a composer: the composer after all of them,
/// and whether every push succeeded.
pub open spec fn push_all(b: BlockContents, jamo: Seq<Jamo>) -> (BlockContents, bool)
    decreases jamo.len(),
{
    if jamo.len() == 0 {
        (b, true)
    } else {
        let (before, ok) = push_all(b, jamo.drop_last());
        let (after, r) = before.step(jamo.last());
        (after, ok && r == BlockPushResult::Success)
    }
}

/// Pops `n` times: the composer after that, and what each pop reported.
pub open spec fn pop_times(b: BlockContents, n: nat) -> (BlockContents, Seq<BlockPopStatus>)
    decreases n,
{
    if n == 0 {
        (b, Seq::empty())
    } else {
        let (after, r) = b.pop();
        let (end, rest) = pop_times(after, (n - 1) as nat);
        (end, seq![r] + rest)
    }
}

/// A well-formed composer that stores nothing is the empty one.
pub proof fn lemma_nothing_stored_is_empty(b: BlockContents)
    requires
        b.wf(),
        b.jamo().len() == 0,
    ensures
        b == BlockContents::empty(),
{
}

proof fn lemma_push_all_stores(jamo: Seq<Jamo>)
    requires
        forall|i: int| 0 <= i < jamo.len() ==> (#[trigger] jamo[i] is Consonant || jamo[i] is Vowel),
        push_all(BlockContents::empty(), jamo).1,
    ensures
        push_all(BlockContents::empty(), jamo).0.wf(),
        push_all(BlockContents::empty(), jamo).0.jamo() == jamo,
    decreases jamo.len(),
{
    if jamo.len() == 0 {
        assert(BlockContents::empty().jamo() =~= jamo);
    } else {
        let rest = jamo.drop_last();
        assert forall|i: int| 0 <= i < rest.len() implies (#[trigger] rest[i] is Consonant
            || rest[i] is Vowel) by {
            assert(rest[i] == jamo[i]);
        }
        lemma_push_all_stores(rest);
        let before = push_all(BlockContents::empty(), rest).0;
        assert(jamo.last() == jamo[jamo.len() - 1]);
        lemma_step(before, jamo.last());
        assert(rest.push(jamo.last()) =~= jamo);
    }
}

proof fn lemma_pop_times_unwinds(b: BlockContents, n: nat)
    requires
        b.wf(),
        b.jamo().len() == n,
    ensures
        pop_times(b, n).0 == BlockContents::empty(),
        pop_times(b, n).1.len() == n,
        forall|k: int| 0 <= k < n ==> popped_jamo(#[trigger] pop_times(b, n).1[k]) == Some(b.jamo()[n - 1 - k]),
    decreases n,
{
    if n == 0 {
        lemma_nothing_stored_is_empty(b);
    } else {
        lemma_pop(b);
        let (after, r) = b.pop();
        lemma_pop_times_unwinds(after, (n - 1) as nat);
        let rs = pop_times(b, n).1;
        assert forall|k: int| 0 <= k < n implies popped_jamo(#[trigger] rs[k]) == Some(b.jamo()[n - 1 - k]) by {
            if k > 0 {
                assert(rs[k] == pop_times(after, (n - 1) as nat).1[k - 1]);
                assert(after.jamo()[n - 2 - (k - 1)] == b.jamo()[n - 1 - k]);
            }
        }
    }
}

/// Pushing a sequence of singular jamo that all join the block, then popping
/// as many times, gives the jamo back in exactly the reverse order and leaves
/// the composer empty, as new.
pub proof fn lemma_push_pop_symmetry(jamo: Seq<Jamo>)
    requires
        forall|i: int| 0 <= i < jamo.len() ==> (#[trigger] jamo[i] is Consonant || jamo[i] is Vowel),
        push_all(BlockContents::empty(), jamo).1,
    ensures
        ({
            let (end, popped) = pop_times(push_all(BlockContents::empty(), jamo).0, jamo.len());
            &&& end == BlockContents::empty()
            &&& popped.len() == jamo.len()
            &&& forall|k: int|
                0 <= k < jamo.len() ==> popped_jamo(#[trigger] popped[k]) == Some(jamo[jamo.len() - 1 - k])
        }),
{
    lemma_push_all_stores(jamo);
    lemma_pop_times_unwinds(push_all(BlockContents::empty(), jamo).0, jamo.len());
}

} // verus!
