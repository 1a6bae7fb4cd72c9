use vstd::prelude::*;

use crate::block::{
    blocks_text, hangul_blocks_vec_to_chars, lemma_blocks_text_ok, lemma_completion,
    lemma_nothing_stored_is_empty, lemma_pop, lemma_reopen, lemma_step, string_from_chars, BlockCompletionStatus, BlockComposer,
    BlockContents, BlockError, BlockPopStatus, BlockPushResult, HangulBlock,
};
use crate::jamo::{
    lemma_consonant_combine_decompose, lemma_vowel_combine_decompose, Character, Jamo, JamoError,
};

verus! {

/// Errors of word composition.
#[derive(Debug, PartialEq, Eq, Clone, Copy, Structural)]
pub enum WordError {
    /// An error of a syllable block.
    BlockError(BlockError),
    /// An error of a jamo.
    JamoError(JamoError),
    /// A new block could not begin with this jamo; the block composer's
    /// answer is given.
    CouldNotStartNewBlock(char, BlockPushResult),
    /// There was no final consonant to detach.
    NothingToPop,
    /// The current block holds only this jamo, which makes no syllable.
    CannotCompleteCurrentBlock(Jamo),
}

/// The result of pushing a character into a word.
#[derive(Debug, PartialEq, Eq, Clone, Copy, Structural)]
pub enum WordPushResult {
    /// The jamo joined the word, in the current block or in a new one.
    Continue,
    /// The jamo can neither join the current block nor begin a new one.
    InvalidHangul,
    /// The character is not a Hangul jamo.
    NonHangul,
}

/// What a word composer holds: its sealed blocks, in typing order, and the
/// block being edited.
pub struct WordContents {
    pub blocks: Seq<HangulBlock>,
    pub current: BlockContents,
}

/// The block that a composer holding a vowel seals into.
pub open spec fn sealed_block(b: BlockContents) -> HangulBlock {
    match b.completion() {
        Ok(BlockCompletionStatus::Complete(blk)) => blk,
        _ => arbitrary(),
    }
}

impl WordContents {
    pub open spec fn empty() -> WordContents {
        WordContents { blocks: Seq::empty(), current: BlockContents::empty() }
    }

    /// Every sealed block is well formed, and so is the current one.
    pub open spec fn wf(self) -> bool {
        &&& forall|i: int| 0 <= i < self.blocks.len() ==> (#[trigger] self.blocks[i]).wf()
        &&& self.current.wf()
    }

    /// Sealing the current block: a complete block joins the sealed ones and
    /// editing starts afresh; an empty one is left as it is; a lone jamo
    /// cannot be sealed.
    pub open spec fn completed(self) -> (WordContents, Result<(), WordError>) {
        match self.current.completion() {
            Ok(BlockCompletionStatus::Complete(b)) => (
                WordContents { blocks: self.blocks.push(b), current: BlockContents::empty() },
                Ok(()),
            ),
            Ok(BlockCompletionStatus::Incomplete(c)) => (self, Err(WordError::CannotCompleteCurrentBlock(c))),
            Ok(BlockCompletionStatus::Empty) => (self, Ok(())),
            Err(e) => (self, Err(WordError::BlockError(e))),
        }
    }

    /// Whether the result of pushing into the fresh block is acceptable.
    pub open spec fn start_result(letter: Jamo, r: BlockPushResult) -> Result<(), WordError> {
        if r == BlockPushResult::Success {
            Ok(())
        } else {
            Err(WordError::CouldNotStartNewBlock(letter.char_compatibility(), r))
        }
    }

    /// Sealing the current block and beginning the next with `letter`.
    pub open spec fn started(self, letter: Jamo) -> (WordContents, Result<(), WordError>) {
        let (w, res) = self.completed();
        match res {
            Err(e) => (w, Err(e)),
            Ok(_) => {
                let (b, r) = w.current.step(letter);
                (WordContents { current: b, ..w }, WordContents::start_result(letter, r))
            },
        }
    }

    /// Detaching the current block's trailing final, sealing the rest, and
    /// beginning the next block with that final followed by `letter`.
    pub open spec fn popped_and_started(self, letter: Jamo) -> (WordContents, Result<(), WordError>) {
        let (cur, detached) = self.current.detach_final();
        match detached {
            None => (self, Err(WordError::NothingToPop)),
            Some(l) => {
                let (w, res) = WordContents { current: cur, ..self }.completed();
                match res {
                    Err(e) => (w, Err(e)),
                    Ok(_) => {
                        let b = w.current.step(l).0;
                        let (b2, r) = b.step(letter);
                        (WordContents { current: b2, ..w }, WordContents::start_result(letter, r))
                    },
                }
            },
        }
    }

    /// One push into the word: the current block's answer decides whether
    /// the jamo joins it, begins a new block, or carries the block's final
    /// consonant into a new block.
    pub open spec fn pushed(self, letter: Jamo) -> (WordContents, Result<WordPushResult, WordError>) {
        let (b, r) = self.current.step(letter);
        match r {
            BlockPushResult::Success => (WordContents { current: b, ..self }, Ok(WordPushResult::Continue)),
            BlockPushResult::InvalidHangul => (self, Ok(WordPushResult::InvalidHangul)),
            BlockPushResult::NonHangul => (self, Ok(WordPushResult::NonHangul)),
            BlockPushResult::StartNewBlockNoPop => {
                let (w, res) = self.started(letter);
                (
                    w,
                    match res {
                        Ok(_) => Ok(WordPushResult::Continue),
                        Err(e) => Err(e),
                    },
                )
            },
            BlockPushResult::PopAndStartNewBlock => {
                let (w, res) = self.popped_and_started(letter);
                (
                    w,
                    match res {
                        Ok(_) => Ok(WordPushResult::Continue),
                        Err(e) => Err(e),
                    },
                )
            },
        }
    }

    /// The last sealed block, if any, reopened as the current one; a block
    /// that typing could not have made is dropped with an error.
    pub open spec fn reopened(self) -> (WordContents, Result<(), WordError>) {
        if self.blocks.len() == 0 {
            (self, Ok(()))
        } else if self.blocks.last().wf() {
            (
                WordContents {
                    blocks: self.blocks.drop_last(),
                    current: BlockContents::from_block(self.blocks.last()),
                },
                Ok(()),
            )
        } else {
            (
                WordContents { blocks: self.blocks.drop_last(), ..self },
                Err(WordError::BlockError(BlockError::MalformedBlock)),
            )
        }
    }

    /// One pop from the word: the current block gives up its last jamo, and
    /// once it is empty the previous block is reopened.
    pub open spec fn popped(self) -> (WordContents, Result<Option<Jamo>, WordError>) {
        let (b, st) = self.current.pop();
        let w = WordContents { current: b, ..self };
        match st {
            BlockPopStatus::PoppedAndNonEmpty(l) => (w, Ok(Some(l))),
            BlockPopStatus::PoppedAndEmpty(l) => {
                let (w2, res) = w.reopened();
                (
                    w2,
                    match res {
                        Ok(_) => Ok(Some(l)),
                        Err(e) => Err(e),
                    },
                )
            },
            BlockPopStatus::NothingToPop => {
                let (w2, res) = w.reopened();
                (
                    w2,
                    match res {
                        Ok(_) => Ok(None),
                        Err(e) => Err(e),
                    },
                )
            },
        }
    }

    /// The text of the word: the syllable of each sealed block, then what the
    /// current block shows.
    pub open spec fn text(self) -> Result<Seq<char>, WordError> {
        match blocks_text(self.blocks) {
            Err(e) => Err(WordError::BlockError(e)),
            Ok(t) => match self.current.display() {
                Ok(Some(c)) => Ok(t.push(c)),
                Ok(None) => Ok(t),
                Err(e) => Err(WordError::BlockError(e)),
            },
        }
    }
}

/// Pushing into a well-formed word keeps it well formed, and succeeds for
/// every jamo except a composite consonant that may not begin a block, typed
/// when the current block can take no more.
#[verifier::rlimit(40)]
pub proof fn lemma_pushed(w: WordContents, letter: Jamo)
    requires
        w.wf(),
    ensures
        w.pushed(letter).0.wf(),
        (letter matches Jamo::CompositeConsonant(c) ==> c.is_valid_initial()) ==> w.pushed(letter).1 is Ok,
        w.pushed(letter).1 is Ok ==> w.pushed(letter).1 != Ok::<_, WordError>(WordPushResult::NonHangul),
{
    lemma_step(w.current, letter);
    let r = w.current.step(letter).1;
    if r == BlockPushResult::StartNewBlockNoPop {
        lemma_completion(w.current);
        let w1 = w.completed().0;
        assert(w1.blocks.last() == sealed_block(w.current));
        assert forall|i: int| 0 <= i < w1.blocks.len() implies (#[trigger] w1.blocks[i]).wf() by {
            if i < w.blocks.len() {
                assert(w1.blocks[i] == w.blocks[i]);
            }
        }
        lemma_step(BlockContents::empty(), letter);
    } else if r == BlockPushResult::PopAndStartNewBlock {
        lemma_pop(w.current);
        let cur = w.current.detach_final().0;
        lemma_completion(cur);
        let w1 = WordContents { current: cur, ..w }.completed().0;
        assert forall|i: int| 0 <= i < w1.blocks.len() implies (#[trigger] w1.blocks[i]).wf() by {
            if i < w.blocks.len() {
                assert(w1.blocks[i] == w.blocks[i]);
            }
        }
        let l = w.current.detach_final().1.unwrap();
        lemma_step(BlockContents::empty(), l);
        lemma_step(BlockContents::empty().step(l).0, letter);
    }
}

/// Popping from a well-formed word keeps it well formed and never fails.
#[verifier::rlimit(40)]
pub proof fn lemma_popped(w: WordContents)
    requires
        w.wf(),
    ensures
        w.popped().0.wf(),
        w.popped().1 is Ok,
{
    lemma_pop(w.current);
    if w.blocks.len() > 0 {
        let last = w.blocks.last();
        assert(last == w.blocks[w.blocks.len() - 1]);
        lemma_reopen(last);
        let rest = w.blocks.drop_last();
        assert forall|i: int| 0 <= i < rest.len() implies (#[trigger] rest[i]).wf() by {
            assert(rest[i] == w.blocks[i]);
        }
    }
}

/// Sealing keeps a well-formed word well formed.
#[verifier::rlimit(40)]
pub proof fn lemma_completed(w: WordContents)
    requires
        w.wf(),
    ensures
        w.completed().0.wf(),
{
    lemma_completion(w.current);
    let w1 = w.completed().0;
    assert forall|i: int| 0 <= i < w1.blocks.len() implies (#[trigger] w1.blocks[i]).wf() by {
        if i < w.blocks.len() {
            assert(w1.blocks[i] == w.blocks[i]);
        }
    }
}

/// A well-formed word always has a text.
pub proof fn lemma_text_ok(w: WordContents)
    requires
        w.wf(),
    ensures
        w.text() is Ok,
{
    lemma_blocks_text_ok(w.blocks);
    lemma_completion(w.current);
}

/// The jamo of sealed blocks, as reopening them would store them.
pub open spec fn blocks_jamo(blocks: Seq<HangulBlock>) -> Seq<Jamo>
    decreases blocks.len(),
{
    if blocks.len() == 0 {
        Seq::empty()
    } else {
        blocks_jamo(blocks.drop_last()) + BlockContents::from_block(blocks.last()).jamo()
    }
}

impl WordContents {
    /// The jamo of the word, in typing order: those of the sealed blocks,
    /// then those of the current one.
    pub open spec fn jamo(self) -> Seq<Jamo> {
        blocks_jamo(self.blocks) + self.current.jamo()
    }

    /// A word typed from singular jamo: well formed, its current block holds
    /// no composite initial, and it is empty only when the whole word is.
    pub open spec fn typed(self) -> bool {
        &&& self.wf()
        &&& !(self.current.initial_first matches Some(Jamo::CompositeConsonant(_)))
        &&& (self.current.jamo().len() == 0 ==> self.blocks.len() == 0)
    }
}

/// Pushes a sequence of jamo into a word: the word after all of them, and
/// whether each push continued the word.
pub open spec fn word_push_all(w: WordContents, jamo: Seq<Jamo>) -> (WordContents, bool)
    decreases jamo.len(),
{
    if jamo.len() == 0 {
        (w, true)
    } else {
        let (before, ok) = word_push_all(w, jamo.drop_last());
        let (after, r) = before.pushed(jamo.last());
        (after, ok && r == Ok::<_, WordError>(WordPushResult::Continue))
    }
}

/// Pops `n` times from a word: the word after that, and what each pop gave.
pub open spec fn word_pop_times(w: WordContents, n: nat) -> (WordContents, Seq<Result<Option<Jamo>, WordError>>)
    decreases n,
{
    if n == 0 {
        (w, Seq::empty())
    } else {
        let (after, r) = w.popped();
        let (end, rest) = word_pop_times(after, (n - 1) as nat);
        (end, seq![r] + rest)
    }
}

/// Sealing a current block whose initial is not a composite and reopening
/// the sealed block stores the same jamo again.
#[verifier::rlimit(40)]
proof fn lemma_seal_reopen_jamo(b: BlockContents)
    requires
        b.wf(),
        b.vowel_first is Some,
        !(b.initial_first matches Some(Jamo::CompositeConsonant(_))),
    ensures
        sealed_block(b).wf(),
        BlockContents::from_block(sealed_block(b)).jamo() == b.jamo(),
{
    lemma_completion(b);
    if let Some(Jamo::Consonant(a)) = b.initial_first {
        if let Some(Jamo::Consonant(c)) = b.initial_second {
            lemma_consonant_combine_decompose(a, c);
        }
    }
    if let Some(Jamo::Vowel(a)) = b.vowel_first {
        if let Some(Jamo::Vowel(c)) = b.vowel_second {
            lemma_vowel_combine_decompose(a, c);
        }
    }
    if let Some(Jamo::Consonant(a)) = b.final_first {
        if let Some(Jamo::Consonant(c)) = b.final_second {
            lemma_consonant_combine_decompose(a, c);
        }
    }
    let r = BlockContents::from_block(sealed_block(b));
    assert(r.initial_first == b.initial_first && r.initial_second == b.initial_second);
    assert(r.vowel_first == b.vowel_first && r.vowel_second == b.vowel_second);
    assert(r.final_first == b.final_first && r.final_second == b.final_second);
}

/// A reopened well-formed block stores at least its initial and its vowel,
/// and no composite.
proof fn lemma_reopened_shape(blk: HangulBlock)
    requires
        blk.wf(),
    ensures
        BlockContents::from_block(blk).jamo().len() >= 2,
        !(BlockContents::from_block(blk).initial_first matches Some(Jamo::CompositeConsonant(_))),
{
    lemma_reopen(blk);
}

/// Sealing a block adds its reopened jamo after those of the others.
proof fn lemma_blocks_jamo_push(blocks: Seq<HangulBlock>, blk: HangulBlock)
    ensures
        blocks_jamo(blocks.push(blk)) == blocks_jamo(blocks) + BlockContents::from_block(blk).jamo(),
{
    assert(blocks.push(blk).drop_last() =~= blocks);
}

#[verifier::rlimit(40)]
proof fn lemma_typed_push_new_block(w: WordContents, letter: Jamo)
    requires
        w.typed(),
        letter is Consonant || letter is Vowel,
        w.current.step(letter).1 == BlockPushResult::StartNewBlockNoPop,
        w.pushed(letter).1 == Ok::<_, WordError>(WordPushResult::Continue),
    ensures
        w.pushed(letter).0.jamo() == w.jamo().push(letter),
{
    lemma_step(w.current, letter);
    lemma_seal_reopen_jamo(w.current);
    let blk = sealed_block(w.current);
    lemma_blocks_jamo_push(w.blocks, blk);
    lemma_step(BlockContents::empty(), letter);
    assert(BlockContents::empty().jamo() =~= Seq::<Jamo>::empty());
    assert(w.pushed(letter).0.jamo() =~= w.jamo().push(letter));
}

#[verifier::rlimit(40)]
proof fn lemma_typed_push_carry_final(w: WordContents, letter: Jamo)
    requires
        w.typed(),
        letter is Consonant || letter is Vowel,
        w.current.step(letter).1 == BlockPushResult::PopAndStartNewBlock,
        w.pushed(letter).1 == Ok::<_, WordError>(WordPushResult::Continue),
    ensures
        w.pushed(letter).0.jamo() == w.jamo().push(letter),
{
    lemma_step(w.current, letter);
    lemma_pop(w.current);
    let cur = w.current.detach_final().0;
    let l = w.current.detach_final().1.unwrap();
    lemma_seal_reopen_jamo(cur);
    let blk = sealed_block(cur);
    lemma_blocks_jamo_push(w.blocks, blk);
    lemma_step(BlockContents::empty(), l);
    lemma_step(BlockContents::empty().step(l).0, letter);
    assert(BlockContents::empty().jamo() =~= Seq::<Jamo>::empty());
    assert(w.current.jamo() =~= cur.jamo().push(l));
    assert(w.pushed(letter).0.jamo() =~= w.jamo().push(letter));
}

/// One push of a singular jamo that continues a typed word stores it after
/// all the others and keeps the word typed.
#[verifier::rlimit(40)]
proof fn lemma_typed_push(w: WordContents, letter: Jamo)
    requires
        w.typed(),
        letter is Consonant || letter is Vowel,
        w.pushed(letter).1 == Ok::<_, WordError>(WordPushResult::Continue),
    ensures
        w.pushed(letter).0.typed(),
        w.pushed(letter).0.jamo() == w.jamo().push(letter),
{
    lemma_pushed(w, letter);
    lemma_step(w.current, letter);
    let r = w.current.step(letter).1;
    if r == BlockPushResult::Success {
        assert(w.pushed(letter).0.jamo() =~= w.jamo().push(letter));
    } else if r == BlockPushResult::StartNewBlockNoPop {
        lemma_typed_push_new_block(w, letter);
        lemma_step(BlockContents::empty(), letter);
    } else {
        lemma_typed_push_carry_final(w, letter);
        lemma_pop(w.current);
        let l = w.current.detach_final().1.unwrap();
        lemma_step(BlockContents::empty(), l);
        lemma_step(BlockContents::empty().step(l).0, letter);
    }
}

/// One pop from a typed word that holds jamo gives back the last of them,
/// removes it, and keeps the word typed.
#[verifier::rlimit(40)]
proof fn lemma_typed_pop(w: WordContents)
    requires
        w.typed(),
        w.jamo().len() > 0,
    ensures
        w.popped().1 == Ok::<_, WordError>(Some(w.jamo().last())),
        w.popped().0.typed(),
        w.popped().0.jamo() == w.jamo().drop_last(),
{
    lemma_pop(w.current);
    lemma_popped(w);
    if w.current.jamo().len() == 0 {
        assert(w.blocks.len() == 0);
        assert(w.jamo() =~= Seq::<Jamo>::empty());
    }
    let (b, st) = w.current.pop();
    let w1 = WordContents { current: b, ..w };
    if st is PoppedAndEmpty {
        lemma_nothing_stored_is_empty(b);
        if w.blocks.len() > 0 {
            let last = w.blocks.last();
            assert(last == w.blocks[w.blocks.len() - 1]);
            lemma_reopened_shape(last);
            assert(b.jamo() =~= Seq::<Jamo>::empty());
            assert(w.popped().0.jamo() =~= w.jamo().drop_last());
        } else {
            assert(w.popped().0.jamo() =~= w.jamo().drop_last());
        }
    } else {
        assert(w.popped().0.jamo() =~= w.jamo().drop_last());
    }
}

/// A typed word that holds no jamo is the empty word.
proof fn lemma_typed_empty(w: WordContents)
    requires
        w.typed(),
        w.jamo().len() == 0,
    ensures
        w == WordContents::empty(),
{
    lemma_nothing_stored_is_empty(w.current);
    assert(w.blocks =~= Seq::<HangulBlock>::empty());
}

proof fn lemma_word_push_all(jamo: Seq<Jamo>)
    requires
        forall|i: int| 0 <= i < jamo.len() ==> (#[trigger] jamo[i] is Consonant || jamo[i] is Vowel),
        word_push_all(WordContents::empty(), jamo).1,
    ensures
        word_push_all(WordContents::empty(), jamo).0.typed(),
        word_push_all(WordContents::empty(), jamo).0.jamo() == jamo,
    decreases jamo.len(),
{
    if jamo.len() == 0 {
        assert(WordContents::empty().jamo() =~= jamo);
    } else {
        let rest = jamo.drop_last();
        assert forall|i: int| 0 <= i < rest.len() implies (#[trigger] rest[i] is Consonant
            || rest[i] is Vowel) by {
            assert(rest[i] == jamo[i]);
        }
        lemma_word_push_all(rest);
        assert(jamo.last() == jamo[jamo.len() - 1]);
        lemma_typed_push(word_push_all(WordContents::empty(), rest).0, jamo.last());
        assert(rest.push(jamo.last()) =~= jamo);
    }
}

proof fn lemma_word_pop_times(w: WordContents, n: nat)
    requires
        w.typed(),
        w.jamo().len() == n,
    ensures
        word_pop_times(w, n).0 == WordContents::empty(),
        word_pop_times(w, n).1.len() == n,
        forall|k: int|
            0 <= k < n ==> #[trigger] word_pop_times(w, n).1[k] == Ok::<_, WordError>(Some(w.jamo()[n - 1 - k])),
    decreases n,
{
    if n == 0 {
        lemma_typed_empty(w);
    } else {
        lemma_typed_pop(w);
        let after = w.popped().0;
        lemma_word_pop_times(after, (n - 1) as nat);
        let rs = word_pop_times(w, n).1;
        assert forall|k: int| 0 <= k < n implies #[trigger] rs[k] == Ok::<_, WordError>(
            Some(w.jamo()[n - 1 - k]),
        ) by {
            if k > 0 {
                assert(rs[k] == word_pop_times(after, (n - 1) as nat).1[k - 1]);
                assert(after.jamo()[n - 2 - (k - 1)] == w.jamo()[n - 1 - k]);
            }
        }
    }
}

/// Typing a sequence of singular jamo into an empty word, each continuing
/// the word (across block boundaries too), then popping as many times, gives
/// the jamo back in exactly the reverse order and leaves the word empty, as
/// new.
pub proof fn lemma_word_push_pop_symmetry(jamo: Seq<Jamo>)
    requires
        forall|i: int| 0 <= i < jamo.len() ==> (#[trigger] jamo[i] is Consonant || jamo[i] is Vowel),
        word_push_all(WordContents::empty(), jamo).1,
    ensures
        ({
            let (end, popped) = word_pop_times(word_push_all(WordContents::empty(), jamo).0, jamo.len());
            &&& end == WordContents::empty()
            &&& popped.len() == jamo.len()
            &&& forall|k: int|
                0 <= k < jamo.len() ==> #[trigger] popped[k] == Ok::<_, WordError>(
                    Some(jamo[jamo.len() - 1 - k]),
                )
        }),
{
    lemma_word_push_all(jamo);
    lemma_word_pop_times(word_push_all(WordContents::empty(), jamo).0, jamo.len());
}

/// Composes one Hangul word, block after block.
#[derive(Debug)]
pub struct HangulWordComposer {
    prev_blocks: Vec<HangulBlock>,
    cur_block: BlockComposer,
}

impl View for HangulWordComposer {
    type V = WordContents;

    closed spec fn view(&self) -> WordContents {
        WordContents { blocks: self.prev_blocks@, current: self.cur_block@ }
    }
}

impl HangulWordComposer {
    /// An empty word.
    pub fn new() -> (r: Self)
        ensures
            r@ == WordContents::empty(),
            r@.wf(),
    {
        HangulWordComposer { prev_blocks: Vec::new(), cur_block: BlockComposer::new() }
    }

    /// The sealed blocks, in typing order.
    pub fn prev_blocks(&self) -> (r: &Vec<HangulBlock>)
        ensures
            r@ == self@.blocks,
    {
        &self.prev_blocks
    }

    /// The block being edited.
    pub fn cur_block(&self) -> (r: &BlockComposer)
        ensures
            r@ == self@.current,
    {
        &self.cur_block
    }

    /// Pushes a character: a Hangul jamo as by `push`; any other character
    /// is left to the caller (`NonHangul`). Fails for a character of a jamo
    /// range that is no recognised jamo.
    pub fn push_char(&mut self, c: char) -> (r: Result<WordPushResult, WordError>)
        ensures
            match Character::spec_from_char(c) {
                Err(e) => r == Err::<WordPushResult, _>(WordError::JamoError(e)) && final(self)@ == old(self)@,
                Ok(Character::NonHangul(_)) => r == Ok::<_, WordError>(WordPushResult::NonHangul)
                    && final(self)@ == old(self)@,
                Ok(Character::Hangul(j)) => (final(self)@, r) == old(self)@.pushed(j),
            },
            old(self)@.wf() ==> final(self)@.wf(),
    {
        proof {
            if let Ok(Character::Hangul(j)) = Character::spec_from_char(c) {
                if self@.wf() {
                    lemma_pushed(self@, j);
                }
            }
        }
        match Character::from_char(c) {
            Err(e) => Err(WordError::JamoError(e)),
            Ok(Character::Hangul(jamo)) => self.push(&jamo),
            Ok(Character::NonHangul(_)) => Ok(WordPushResult::NonHangul),
        }
    }

    /// Pushes a jamo. It joins the current block where it can; where it
    /// cannot but may begin a block, the current block is sealed and a new
    /// one begins with it; a vowel after a final carries that final into the
    /// new block before it.
    pub fn push(&mut self, letter: &Jamo) -> (r: Result<WordPushResult, WordError>)
        ensures
            (final(self)@, r) == old(self)@.pushed(*letter),
            old(self)@.wf() ==> final(self)@.wf(),
            old(self)@.wf() && (*letter matches Jamo::CompositeConsonant(c) ==> c.is_valid_initial())
                ==> r is Ok,
    {
        proof {
            if self@.wf() {
                lemma_pushed(self@, *letter);
            }
        }
        match self.cur_block.push(letter) {
            BlockPushResult::Success => Ok(WordPushResult::Continue),
            BlockPushResult::InvalidHangul => Ok(WordPushResult::InvalidHangul),
            BlockPushResult::NonHangul => Ok(WordPushResult::NonHangul),
            BlockPushResult::StartNewBlockNoPop => match self.start_new_block(*letter) {
                Ok(_) => Ok(WordPushResult::Continue),
                Err(e) => Err(e),
            },
            BlockPushResult::PopAndStartNewBlock => match self.pop_and_start_new_block(*letter) {
                Ok(_) => Ok(WordPushResult::Continue),
                Err(e) => Err(e),
            },
        }
    }

    /// Removes the last jamo of the word. Once the current block is empty, the
    /// previous block is reopened for editing, so that further pops take its
    /// jamo off one by one. `None` when the current block had nothing.
    pub fn pop(&mut self) -> (r: Result<Option<Jamo>, WordError>)
        ensures
            (final(self)@, r) == old(self)@.popped(),
            old(self)@.wf() ==> final(self)@.wf() && r is Ok,
    {
        proof {
            if self@.wf() {
                lemma_popped(self@);
            }
        }
        match self.cur_block.pop() {
            BlockPopStatus::PoppedAndNonEmpty(l) => Ok(Some(l)),
            BlockPopStatus::PoppedAndEmpty(l) => {
                self.prev_block_to_cur()?;
                Ok(Some(l))
            },
            BlockPopStatus::NothingToPop => {
                self.prev_block_to_cur()?;
                Ok(None)
            },
        }
    }

    fn prev_block_to_cur(&mut self) -> (r: Result<(), WordError>)
        ensures
            (final(self)@, r) == old(self)@.reopened(),
    {
        if self.prev_blocks.len() == 0 {
            return Ok(());
        }
        let ghost blocks = self.prev_blocks@;
        let last_block = self.prev_blocks.pop().unwrap();
        proof {
            assert(self.prev_blocks@ =~= blocks.drop_last());
        }
        match BlockComposer::from_composed_block(&last_block) {
            Ok(b) => {
                self.cur_block = b;
                Ok(())
            },
            Err(e) => Err(WordError::BlockError(e)),
        }
    }

    /// Detaches the current block's trailing final consonant, seals the rest,
    /// and begins the next block with that consonant followed by `letter`.
    pub fn pop_and_start_new_block(&mut self, letter: Jamo) -> (r: Result<(), WordError>)
        ensures
            (final(self)@, r) == old(self)@.popped_and_started(letter),
    {
        match self.cur_block.pop_end_consonant() {
            Some(l) => {
                self.complete_current_block()?;
                self.cur_block.push(&l);
                match self.cur_block.push(&letter) {
                    BlockPushResult::Success => Ok(()),
                    other => Err(WordError::CouldNotStartNewBlock(letter.char_compatibility(), other)),
                }
            },
            None => Err(WordError::NothingToPop),
        }
    }

    /// Seals the current block and begins the next one with `letter`.
    pub fn start_new_block(&mut self, letter: Jamo) -> (r: Result<(), WordError>)
        ensures
            (final(self)@, r) == old(self)@.started(letter),
    {
        self.complete_current_block()?;
        match self.cur_block.push(&letter) {
            BlockPushResult::Success => Ok(()),
            other => Err(WordError::CouldNotStartNewBlock(letter.char_compatibility(), other)),
        }
    }

    /// The characters of the word: the sealed syllables, then what the
    /// current block shows.
    pub(crate) fn as_chars(&self) -> (r: Result<Vec<char>, WordError>)
        ensures
            match r {
                Ok(v) => self@.text() == Ok::<_, WordError>(v@),
                Err(e) => self@.text() == Err::<Seq<char>, _>(e),
            },
    {
        let mut result = match hangul_blocks_vec_to_chars(&self.prev_blocks) {
            Ok(chars) => chars,
            Err(e) => return Err(WordError::BlockError(e)),
        };
        match self.cur_block.block_as_string() {
            Ok(Some(c)) => result.push(c),
            Ok(None) => {},
            Err(e) => return Err(WordError::BlockError(e)),
        }
        Ok(result)
    }

    /// The composed word: every sealed syllable, then the current block even
    /// when it is incomplete.
    pub fn as_string(&self) -> (r: Result<String, WordError>)
        ensures
            match r {
                Ok(s) => self@.text() == Ok::<_, WordError>(s@),
                Err(e) => self@.text() == Err::<Seq<char>, _>(e),
            },
            self@.wf() ==> r is Ok,
    {
        proof {
            if self@.wf() {
                lemma_text_ok(self@);
            }
        }
        let chars = self.as_chars()?;
        Ok(string_from_chars(&chars))
    }

    /// Seals the current block when it is complete; leaves an empty one as it
    /// is; fails on a lone jamo.
    pub fn complete_current_block(&mut self) -> (r: Result<(), WordError>)
        ensures
            (final(self)@, r) == old(self)@.completed(),
            old(self)@.wf() ==> final(self)@.wf(),
    {
        proof {
            if self@.wf() {
                lemma_completed(self@);
            }
        }
        match self.cur_block.try_as_complete_block() {
            Err(e) => Err(WordError::BlockError(e)),
            Ok(BlockCompletionStatus::Complete(block)) => {
                self.prev_blocks.push(block);
                self.cur_block = BlockComposer::new();
                Ok(())
            },
            Ok(BlockCompletionStatus::Incomplete(c)) => Err(WordError::CannotCompleteCurrentBlock(c)),
            Ok(BlockCompletionStatus::Empty) => Ok(()),
        }
    }
}

} // verus!
