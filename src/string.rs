use vstd::prelude::*;

use crate::block::{own_position, string_from_chars, HangulBlock};
use crate::jamo::{Character, Jamo, JamoError};
use crate::word::{
    lemma_popped, lemma_pushed, lemma_text_ok, HangulWordComposer, WordContents, WordError, WordPushResult,
};

verus! {

/// Errors of string composition.
#[derive(Debug, PartialEq, Eq, Clone, Copy, Structural)]
pub enum StringError {
    /// An error of the word being composed.
    WordError(WordError),
}

/// What a string composer holds: the finished text and the word being
/// composed.
pub struct StringContents {
    pub completed: Seq<char>,
    pub word: WordContents,
}

impl StringContents {
    pub open spec fn empty() -> StringContents {
        StringContents { completed: Seq::empty(), word: WordContents::empty() }
    }

    pub open spec fn wf(self) -> bool {
        self.word.wf()
    }

    /// Ending the word: its text joins the finished text, followed by `c`
    /// itself, and a new word begins.
    pub open spec fn flushed(self, c: char) -> (StringContents, Result<(), StringError>) {
        match self.word.text() {
            Err(e) => (self, Err(StringError::WordError(e))),
            Ok(t) => (
                StringContents { completed: self.completed + t.push(c), word: WordContents::empty() },
                Ok(()),
            ),
        }
    }

    /// One character typed: a jamo goes to the word; whatever the word does
    /// not take, and any other character, ends the word and is kept as it is.
    pub open spec fn pushed(self, c: char) -> (StringContents, Result<(), StringError>) {
        match Character::spec_from_char(c) {
            Err(e) => (self, Err(StringError::WordError(WordError::JamoError(e)))),
            Ok(Character::NonHangul(_)) => self.flushed(c),
            Ok(Character::Hangul(j)) => {
                let (w, r) = self.word.pushed(j);
                let s = StringContents { word: w, ..self };
                match r {
                    Err(e) => (s, Err(StringError::WordError(e))),
                    Ok(WordPushResult::Continue) => (s, Ok(())),
                    Ok(_) => s.flushed(c),
                }
            },
        }
    }

    /// One backspace: a jamo of the word while it has one, shown in its
    /// modern encoding; else the last character of the finished text.
    pub open spec fn popped(self) -> (StringContents, Result<Option<char>, StringError>) {
        let (w, r) = self.word.popped();
        let s = StringContents { word: w, ..self };
        match r {
            Err(e) => (s, Err(StringError::WordError(e))),
            Ok(Some(j)) => (s, Ok(j.char_modern(own_position(j)))),
            Ok(None) => if self.completed.len() > 0 {
                (
                    StringContents { completed: self.completed.drop_last(), ..s },
                    Ok(Some(self.completed.last())),
                )
            } else {
                (s, Ok(None))
            },
        }
    }

    /// The whole text: the finished text, then the word being composed.
    pub open spec fn text(self) -> Result<Seq<char>, StringError> {
        match self.word.text() {
            Err(e) => Err(StringError::WordError(e)),
            Ok(t) => Ok(self.completed + t),
        }
    }
}

/// Typing a character that is not a jamo into a well-formed composer ends the
/// word: the text so far is kept, followed by that character, and a new word
/// begins.
pub proof fn lemma_non_hangul_ends_word(s: StringContents, c: char)
    requires
        s.wf(),
        Character::spec_from_char(c) == Ok::<_, JamoError>(Character::NonHangul(c)),
    ensures
        s.pushed(c).1 is Ok,
        s.pushed(c).0.word == WordContents::empty(),
        s.pushed(c).0.text() == Ok::<_, StringError>(s.text().unwrap().push(c)),
{
    lemma_text_ok(s.word);
    let t = s.word.text().unwrap();
    assert(WordContents::empty().text() == Ok::<_, WordError>(Seq::<char>::empty())) by {
        assert(WordContents::empty().blocks =~= Seq::<HangulBlock>::empty());
    }
    assert(s.completed + t.push(c) + Seq::<char>::empty() =~= (s.completed + t).push(c));
}

/// Backspace with no jamo left in the word removes the last character of the
/// finished text.
pub proof fn lemma_backspace_into_finished_text(s: StringContents)
    requires
        s.wf(),
        s.word == WordContents::empty(),
        s.completed.len() > 0,
    ensures
        s.popped().1 == Ok::<_, StringError>(Some(s.completed.last())),
        s.popped().0.completed == s.completed.drop_last(),
        s.popped().0.word == WordContents::empty(),
{
}

/// Composes text of many words, Hangul and not: jamo are composed into
/// syllables, and any other character ends the word and is kept as it is.
#[derive(Debug)]
pub struct StringComposer {
    completed: Vec<char>,
    current: HangulWordComposer,
}

impl View for StringComposer {
    type V = StringContents;

    closed spec fn view(&self) -> StringContents {
        StringContents { completed: self.completed@, word: self.current@ }
    }
}

impl Default for StringComposer {
    fn default() -> (r: Self)
        ensures
            r@ == StringContents::empty(),
    {
        Self::new()
    }
}

impl StringComposer {
    /// An empty composer.
    pub fn new() -> (r: Self)
        ensures
            r@ == StringContents::empty(),
            r@.wf(),
    {
        Self { completed: Vec::new(), current: HangulWordComposer::new() }
    }

    /// Types one character.
    pub fn push_char(&mut self, c: char) -> (r: Result<(), StringError>)
        ensures
            (final(self)@, r) == old(self)@.pushed(c),
            old(self)@.wf() ==> final(self)@.wf(),
            old(self)@.wf() && Character::spec_from_char(c) is Ok && !(Character::spec_from_char(c) matches Ok(
                Character::Hangul(Jamo::CompositeConsonant(k)),
            ) && !k.is_valid_initial()) ==> r is Ok,
    {
        proof {
            if let Ok(Character::Hangul(j)) = Character::spec_from_char(c) {
                if self@.wf() {
                    lemma_pushed(self@.word, j);
                    lemma_text_ok(self@.word.pushed(j).0);
                }
            }
            if self@.wf() {
                lemma_text_ok(self@.word);
            }
        }
        match self.current.push_char(c) {
            Ok(WordPushResult::Continue) => Ok(()),
            Ok(_) => self.handle_invalid_input(c),
            Err(e) => Err(StringError::WordError(e)),
        }
    }

    /// The composed text: the finished text, then the current word.
    pub fn as_string(&self) -> (r: Result<String, StringError>)
        ensures
            match r {
                Ok(s) => self@.text() == Ok::<_, StringError>(s@),
                Err(e) => self@.text() == Err::<Seq<char>, _>(e),
            },
            self@.wf() ==> r is Ok,
    {
        let chars = self.as_chars()?;
        Ok(string_from_chars(&chars))
    }

    fn as_chars(&self) -> (r: Result<Vec<char>, StringError>)
        ensures
            match r {
                Ok(v) => self@.text() == Ok::<_, StringError>(v@),
                Err(e) => self@.text() == Err::<Seq<char>, _>(e),
            },
            self@.wf() ==> r is Ok,
    {
        proof {
            if self@.wf() {
                lemma_text_ok(self@.word);
            }
        }
        let current_chars = match self.current.as_chars() {
            Ok(v) => v,
            Err(e) => return Err(StringError::WordError(e)),
        };
        let mut result: Vec<char> = Vec::new();
        let mut i: usize = 0;
        while i < self.completed.len()
            invariant
                i <= self.completed@.len(),
                result@ == self.completed@.take(i as int),
            decreases self.completed@.len() - i,
        {
            result.push(self.completed[i]);
            i += 1;
            assert(result@ =~= self.completed@.take(i as int));
        }
        let mut j: usize = 0;
        while j < current_chars.len()
            invariant
                i == self.completed@.len(),
                j <= current_chars@.len(),
                result@ == self.completed@ + current_chars@.take(j as int),
            decreases current_chars@.len() - j,
        {
            result.push(current_chars[j]);
            j += 1;
            assert(result@ =~= self.completed@ + current_chars@.take(j as int));
        }
        assert(current_chars@.take(j as int) =~= current_chars@);
        Ok(result)
    }

    /// Backspace: removes the last jamo of the current word, or, when the
    /// word has none, the last character of the finished text. Returns what
    /// was removed, jamo in their modern encoding.
    pub fn pop(&mut self) -> (r: Result<Option<char>, StringError>)
        ensures
            (final(self)@, r) == old(self)@.popped(),
            old(self)@.wf() ==> final(self)@.wf() && r is Ok,
    {
        proof {
            if self@.wf() {
                lemma_popped(self@.word);
            }
        }
        match self.current.pop() {
            Err(e) => Err(StringError::WordError(e)),
            Ok(Some(c)) => {
                let position = match c {
                    Jamo::Consonant(_) | Jamo::CompositeConsonant(_) => crate::jamo::JamoPosition::Initial,
                    _ => crate::jamo::JamoPosition::Vowel,
                };
                Ok(c.char_modern(position))
            },
            Ok(None) => Ok(self.completed.pop()),
        }
    }

    fn handle_invalid_input(&mut self, c: char) -> (r: Result<(), StringError>)
        ensures
            (final(self)@, r) == old(self)@.flushed(c),
    {
        let current_chars = match self.current.as_chars() {
            Ok(v) => v,
            Err(e) => return Err(StringError::WordError(e)),
        };
        let ghost start = self.completed@;
        let mut i: usize = 0;
        while i < current_chars.len()
            invariant
                i <= current_chars@.len(),
                self.completed@ == start + current_chars@.take(i as int),
                self.current@ == old(self).current@,
            decreases current_chars@.len() - i,
        {
            self.completed.push(current_chars[i]);
            i += 1;
            assert(self.completed@ =~= start + current_chars@.take(i as int));
        }
        assert(current_chars@.take(i as int) =~= current_chars@);
        self.completed.push(c);
        assert(self.completed@ =~= start + current_chars@.push(c));
        self.current = HangulWordComposer::new();
        Ok(())
    }
}

} // verus!
