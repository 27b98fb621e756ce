//! Segmentation of Indic and Myanmar text into orthographic syllable clusters,
//! and extraction of script-specific words from text corpora.
//!
//! - `indic_table`, `myanmar_table`: the character property tables.
//! - `matcher`: the matcher combinators that the grammars are built from.
//! - `indic`, `myanmar`: the two cluster grammars.
//! - `segment`: the segmenter that drives a grammar over a whole text.
//! - `corpus`, `escape`: word extraction and escape decoding for corpora.
//! - `names`, `label`: display labels for characters.
use vstd::prelude::*;

pub mod corpus;
pub mod escape;
pub mod indic;
pub mod indic_table;
pub mod label;
pub mod matcher;
pub mod myanmar;
pub mod names;
pub mod myanmar_table;
pub mod segment;
pub mod text;

verus! {

/// The kind of syllable cluster recognised at the head of the input.
#[derive(Clone, Copy, Debug, PartialEq, Eq, Structural)]
pub enum Syllable {
    Consonant,
    Vowel,
    Standalone,
    Symbol,
    Broken,
}

/// A syllable match lifted to the naturals.
pub open spec fn lift_syllable(r: Option<(usize, Syllable)>) -> Option<(nat, Syllable)> {
    match r {
        Some((n, k)) => Some((n as nat, k)),
        None => None,
    }
}

/// An input element that carries a character.
pub trait SyllableChar {
    spec fn view_char(&self) -> char;

    fn char(&self) -> (r: char)
        ensures
            r == self.view_char(),
    ;
}

impl SyllableChar for char {
    open spec fn view_char(&self) -> char {
        *self
    }

    fn char(&self) -> (r: char) {
        *self
    }
}

/// The characters carried by a sequence of input elements.
pub open spec fn chars_of<T: SyllableChar>(s: Seq<T>) -> Seq<char> {
    s.map_values(|c: T| c.view_char())
}

} // verus!
