//! Incremental composition of Hangul: jamo typed one at a time are assembled
//! into precomposed syllable blocks, and can be taken off again one by one.
//!
//! - `jamo`: the jamo inventory, its two Unicode encodings, and the tables of
//!   combination and decomposition.
//! - `block`: a syllable block, the Unicode syllable arithmetic, and the state
//!   machine that builds one block.
//! - `word`: a word as a sequence of sealed blocks and the block being edited.
//! - `string`: text of many words, Hangul or not.
//! - `keymap`: the two-set keyboard layout, from roman keys to jamo.

pub mod block;
pub mod jamo;
pub mod keymap;
pub mod string;
pub mod word;
