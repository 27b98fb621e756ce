//! The Myanmar cluster grammar.
//!
//! A cluster is either a consonant syllable or a single standalone character.
//! Every unbounded repetition of the published grammar is bounded by
//! `MAX_REPEAT`, and no cluster is longer than `MAX_CLUSTER_LEN` characters:
//! the grammar only ever sees that many characters from where it starts.
use vstd::prelude::*;
use crate::matcher::{
    lift, match_either, match_one, match_optional, match_optional_seq, match_repeat_upto,
    match_seq, CharPredicate, Matcher,
};
use crate::myanmar_table::{myanmar_character, myanmar_property, MarkPlacementSubclass, ShapingClass};
use crate::{chars_of, lift_syllable, Syllable, SyllableChar};

verus! {

/// The practical maximum length of a cluster, in characters.
pub const MAX_CLUSTER_LEN: usize = 31;

/// The bound on every repetition in the grammar.
pub const MAX_REPEAT: usize = MAX_CLUSTER_LEN / 3;

/// The shaping class of a character in the Myanmar table.
#[verifier::allow_in_spec]
pub fn shaping_class(ch: char) -> Option<ShapingClass>
    returns
        myanmar_property(ch).0,
{
    myanmar_character(ch).0
}

/// _C_: a consonant or a consonant placeholder (the grammar adds _ra_ back in).
#[verifier::allow_in_spec]
pub fn consonant(ch: char) -> bool
    returns
        shaping_class(ch) == Some(ShapingClass::Consonant)
            || shaping_class(ch) == Some(ShapingClass::ConsonantPlaceholder),
{
    matches!(
        shaping_class(ch),
        Some(ShapingClass::Consonant)
        | Some(ShapingClass::ConsonantPlaceholder),
    )
}

/// An independent vowel.
#[verifier::allow_in_spec]
pub fn vowel(ch: char) -> bool
    returns
        shaping_class(ch) == Some(ShapingClass::VowelIndependent),
{
    matches!(shaping_class(ch), Some(ShapingClass::VowelIndependent))
}

/// _d_: a digit.
#[verifier::allow_in_spec]
pub fn digit(ch: char) -> bool
    returns
        shaping_class(ch) == Some(ShapingClass::Number),
{
    matches!(shaping_class(ch), Some(ShapingClass::Number))
}

/// _gb_: a generic base character.
#[verifier::allow_in_spec]
pub fn generic_base(ch: char) -> bool
    returns
        ch == '\u{002D}'
            || ch == '\u{00A0}'
            || ch == '\u{00D7}'
            || ch == '\u{2012}'
            || ch == '\u{2013}'
            || ch == '\u{2014}'
            || ch == '\u{2015}'
            || ch == '\u{2022}'
            || ch == '\u{25CC}'
            || ch == '\u{25FB}'
            || ch == '\u{25FC}'
            || ch == '\u{25FD}'
            || ch == '\u{25FE}',
{
    ch == '\u{002D}'
        || ch == '\u{00A0}'
        || ch == '\u{00D7}'
        || ch == '\u{2012}'
        || ch == '\u{2013}'
        || ch == '\u{2014}'
        || ch == '\u{2015}'
        || ch == '\u{2022}'
        || ch == '\u{25CC}'
        || ch == '\u{25FB}'
        || ch == '\u{25FC}'
        || ch == '\u{25FD}'
        || ch == '\u{25FE}'
}

/// A code point of the Myanmar block or of its two extensions.
#[verifier::allow_in_spec]
pub fn in_myanmar_blocks(ch: char) -> bool
    returns
        ('\u{1000}' <= ch && ch <= '\u{109F}')
            || ('\u{AA60}' <= ch && ch <= '\u{AA7F}')
            || ('\u{A9E0}' <= ch && ch <= '\u{A9FF}'),
{
    ('\u{1000}' <= ch && ch <= '\u{109F}')
        || ('\u{AA60}' <= ch && ch <= '\u{AA7F}')
        || ('\u{A9E0}' <= ch && ch <= '\u{A9FF}')
}

/// A character of the Myanmar blocks that forms a cluster on its own: one the
/// table leaves unclassified, or a placeholder.
#[verifier::allow_in_spec]
pub fn standalone(ch: char) -> bool
    returns
        in_myanmar_blocks(ch) && (shaping_class(ch) == None::<ShapingClass>
            || shaping_class(ch) == Some(ShapingClass::Placeholder)),
{
    in_myanmar_blocks(ch) && matches!(shaping_class(ch), None | Some(ShapingClass::Placeholder))
}

/// _vs_: the variation selector.
#[verifier::allow_in_spec]
pub fn variation_selector(ch: char) -> bool
    returns
        ch == '\u{FE00}',
{
    ch == '\u{FE00}'
}

/// The invisible stacker.
#[verifier::allow_in_spec]
pub fn halant(ch: char) -> bool
    returns
        shaping_class(ch) == Some(ShapingClass::InvisibleStacker),
{
    matches!(shaping_class(ch), Some(ShapingClass::InvisibleStacker))
}

/// The zero-width joiner.
#[verifier::allow_in_spec]
pub fn zwj(ch: char) -> bool
    returns
        shaping_class(ch) == Some(ShapingClass::Joiner),
{
    matches!(shaping_class(ch), Some(ShapingClass::Joiner))
}

/// The zero-width non-joiner.
#[verifier::allow_in_spec]
pub fn zwnj(ch: char) -> bool
    returns
        shaping_class(ch) == Some(ShapingClass::NonJoiner),
{
    matches!(shaping_class(ch), Some(ShapingClass::NonJoiner))
}

/// Either joiner.
#[verifier::allow_in_spec]
pub fn joiner(ch: char) -> bool
    returns
        zwj(ch) || zwnj(ch),
{
    zwj(ch) || zwnj(ch)
}

/// _ra_: Ra, Nga or Mon Nga.
#[verifier::allow_in_spec]
pub fn ra(ch: char) -> bool
    returns
        ch == '\u{101B}' || ch == '\u{1004}' || ch == '\u{105A}',
{
    ch == '\u{101B}' || ch == '\u{1004}' || ch == '\u{105A}'
}

/// The asat.
#[verifier::allow_in_spec]
pub fn asat(ch: char) -> bool
    returns
        ch == '\u{103A}',
{
    ch == '\u{103A}'
}

/// A consonant with a stacker.
#[verifier::allow_in_spec]
pub fn consonant_with_stacker(ch: char) -> bool
    returns
        shaping_class(ch) == Some(ShapingClass::ConsonantWithStacker),
{
    matches!(shaping_class(ch), Some(ShapingClass::ConsonantWithStacker))
}

/// A dependent vowel drawn to the left.
#[verifier::allow_in_spec]
pub fn matra_pre(ch: char) -> bool
    returns
        myanmar_property(ch) == (Some(ShapingClass::VowelDependent), Some(MarkPlacementSubclass::LeftPosition)),
{
    matches!(myanmar_character(ch), (Some(ShapingClass::VowelDependent), Some(MarkPlacementSubclass::LeftPosition)))
}

/// A dependent vowel drawn to the right.
#[verifier::allow_in_spec]
pub fn matra_post(ch: char) -> bool
    returns
        myanmar_property(ch) == (Some(ShapingClass::VowelDependent), Some(MarkPlacementSubclass::RightPosition)),
{
    matches!(myanmar_character(ch), (Some(ShapingClass::VowelDependent), Some(MarkPlacementSubclass::RightPosition)))
}

/// _a_: Anusvara or Sign Ai (Sign Ai counts here, not as a vowel above).
#[verifier::allow_in_spec]
pub fn a(ch: char) -> bool
    returns
        ch == '\u{1036}' || ch == '\u{1032}',
{
    ch == '\u{1036}' || ch == '\u{1032}'
}

/// The dot below.
#[verifier::allow_in_spec]
pub fn dot_below(ch: char) -> bool
    returns
        ch == '\u{1037}',
{
    ch == '\u{1037}'
}

/// A dependent vowel drawn above, other than those of _a_.
#[verifier::allow_in_spec]
pub fn matra_above(ch: char) -> bool
    returns
        !a(ch) && myanmar_property(ch) == (Some(ShapingClass::VowelDependent), Some(MarkPlacementSubclass::TopPosition)),
{
    !a(ch) && matches!(myanmar_character(ch), (Some(ShapingClass::VowelDependent), Some(MarkPlacementSubclass::TopPosition)))
}

/// A dependent vowel drawn below.
#[verifier::allow_in_spec]
pub fn matra_below(ch: char) -> bool
    returns
        myanmar_property(ch) == (Some(ShapingClass::VowelDependent), Some(MarkPlacementSubclass::BottomPosition)),
{
    matches!(myanmar_character(ch), (Some(ShapingClass::VowelDependent), Some(MarkPlacementSubclass::BottomPosition)))
}

/// Medial Ha.
#[verifier::allow_in_spec]
pub fn medial_ha(ch: char) -> bool
    returns
        ch == '\u{103E}',
{
    ch == '\u{103E}'
}

/// Mon Medial La.
#[verifier::allow_in_spec]
pub fn medial_la(ch: char) -> bool
    returns
        ch == '\u{1060}',
{
    ch == '\u{1060}'
}

/// Medial Ra.
#[verifier::allow_in_spec]
pub fn medial_ra(ch: char) -> bool
    returns
        ch == '\u{103C}',
{
    ch == '\u{103C}'
}

/// Medial Wa or Shan Medial Wa.
#[verifier::allow_in_spec]
pub fn medial_wa(ch: char) -> bool
    returns
        ch == '\u{103D}' || ch == '\u{1082}',
{
    ch == '\u{103D}' || ch == '\u{1082}'
}

/// Medial Ya, Mon Medial Na or Mon Medial Ma.
#[verifier::allow_in_spec]
pub fn medial_ya(ch: char) -> bool
    returns
        ch == '\u{103B}' || ch == '\u{105E}' || ch == '\u{105F}',
{
    ch == '\u{103B}' || ch == '\u{105E}' || ch == '\u{105F}'
}

/// _pt_: a Karen or Pao tone mark.
#[verifier::allow_in_spec]
pub fn pt(ch: char) -> bool
    returns
        ch == '\u{1063}'
            || ch == '\u{1064}'
            || ('\u{1069}' <= ch && ch <= '\u{106D}')
            || ch == '\u{AA7B}',
{
    ch == '\u{1063}'
        || ch == '\u{1064}'
        || ('\u{1069}' <= ch && ch <= '\u{106D}')
        || ch == '\u{AA7B}'
}

/// _punc_: Little Section or Section.
#[verifier::allow_in_spec]
pub fn punc(ch: char) -> bool
    returns
        ch == '\u{104A}' || ch == '\u{104B}',
{
    ch == '\u{104A}' || ch == '\u{104B}'
}

/// The visarga.
#[verifier::allow_in_spec]
pub fn visarga(ch: char) -> bool
    returns
        shaping_class(ch) == Some(ShapingClass::Visarga),
{
    matches!(shaping_class(ch), Some(ShapingClass::Visarga))
}

/// _sm_: a Shan, Palaung or Khamti tone mark, or the visarga.
#[verifier::allow_in_spec]
pub fn sm(ch: char) -> bool
    returns
        ('\u{1087}' <= ch && ch <= '\u{108D}')
            || ch == '\u{108F}'
            || ('\u{109A}' <= ch && ch <= '\u{109C}')
            || visarga(ch),
{
    ('\u{1087}' <= ch && ch <= '\u{108D}')
        || ch == '\u{108F}'
        || ('\u{109A}' <= ch && ch <= '\u{109C}')
        || visarga(ch)
}

/// The character tests that the grammar is built from.
#[derive(Clone, Copy, Debug, PartialEq, Eq, Structural)]
pub enum Class {
    Consonant,
    Vowel,
    Digit,
    GenericBase,
    Standalone,
    VariationSelector,
    Halant,
    Zwj,
    Zwnj,
    Joiner,
    Ra,
    Asat,
    ConsonantWithStacker,
    MatraPre,
    MatraPost,
    A,
    DotBelow,
    MatraAbove,
    MatraBelow,
    MedialHa,
    MedialLa,
    MedialRa,
    MedialWa,
    MedialYa,
    Pt,
    Punc,
    Visarga,
    Sm,
}

impl CharPredicate for Class {
    open spec fn holds(&self, c: char) -> bool {
        match self {
            Class::Consonant => consonant(c),
            Class::Vowel => vowel(c),
            Class::Digit => digit(c),
            Class::GenericBase => generic_base(c),
            Class::Standalone => standalone(c),
            Class::VariationSelector => variation_selector(c),
            Class::Halant => halant(c),
            Class::Zwj => zwj(c),
            Class::Zwnj => zwnj(c),
            Class::Joiner => joiner(c),
            Class::Ra => ra(c),
            Class::Asat => asat(c),
            Class::ConsonantWithStacker => consonant_with_stacker(c),
            Class::MatraPre => matra_pre(c),
            Class::MatraPost => matra_post(c),
            Class::A => a(c),
            Class::DotBelow => dot_below(c),
            Class::MatraAbove => matra_above(c),
            Class::MatraBelow => matra_below(c),
            Class::MedialHa => medial_ha(c),
            Class::MedialLa => medial_la(c),
            Class::MedialRa => medial_ra(c),
            Class::MedialWa => medial_wa(c),
            Class::MedialYa => medial_ya(c),
            Class::Pt => pt(c),
            Class::Punc => punc(c),
            Class::Visarga => visarga(c),
            Class::Sm => sm(c),
        }
    }

    fn test(&self, c: char) -> (r: bool) {
        match self {
            Class::Consonant => consonant(c),
            Class::Vowel => vowel(c),
            Class::Digit => digit(c),
            Class::GenericBase => generic_base(c),
            Class::Standalone => standalone(c),
            Class::VariationSelector => variation_selector(c),
            Class::Halant => halant(c),
            Class::Zwj => zwj(c),
            Class::Zwnj => zwnj(c),
            Class::Joiner => joiner(c),
            Class::Ra => ra(c),
            Class::Asat => asat(c),
            Class::ConsonantWithStacker => consonant_with_stacker(c),
            Class::MatraPre => matra_pre(c),
            Class::MatraPost => matra_post(c),
            Class::A => a(c),
            Class::DotBelow => dot_below(c),
            Class::MatraAbove => matra_above(c),
            Class::MatraBelow => matra_below(c),
            Class::MedialHa => medial_ha(c),
            Class::MedialLa => medial_la(c),
            Class::MedialRa => medial_ra(c),
            Class::MedialWa => medial_wa(c),
            Class::MedialYa => medial_ya(c),
            Class::Pt => pt(c),
            Class::Punc => punc(c),
            Class::Visarga => visarga(c),
            Class::Sm => sm(c),
        }
    }
}

/// K = _ra_ _asat_ _halant_
pub struct Kinzi;

impl Matcher for Kinzi {
    open spec fn spec_match(&self, s: Seq<char>, pos: int) -> Option<nat> {
        match_seq(
            match_one(Class::Ra),
            match_seq(match_one(Class::Asat), match_one(Class::Halant)),
        ).spec_match(s, pos)
    }

    proof fn lemma_in_bounds(&self, s: Seq<char>, pos: int) {
        match_seq(
            match_one(Class::Ra),
            match_seq(match_one(Class::Asat), match_one(Class::Halant)),
        ).lemma_in_bounds(s, pos);
    }

    fn match_at(&self, cs: &[char], pos: usize) -> (r: Option<usize>) {
        match_seq(
            match_one(Class::Ra),
            match_seq(match_one(Class::Asat), match_one(Class::Halant)),
        ).match_at(cs, pos)
    }
}

/// Z = _zwj_ | _zwnj_
pub struct ZeroWidth;

impl Matcher for ZeroWidth {
    open spec fn spec_match(&self, s: Seq<char>, pos: int) -> Option<nat> {
        match_one(Class::Joiner).spec_match(s, pos)
    }

    proof fn lemma_in_bounds(&self, s: Seq<char>, pos: int) {
        match_one(Class::Joiner).lemma_in_bounds(s, pos);
    }

    fn match_at(&self, cs: &[char], pos: usize) -> (r: Option<usize>) {
        match_one(Class::Joiner).match_at(cs, pos)
    }
}

/// Vmain = _matrapre_* _matraabove_* _matrabelow_* _a_* (_db_ _asat_?)?
pub struct VowelMain;

impl Matcher for VowelMain {
    open spec fn spec_match(&self, s: Seq<char>, pos: int) -> Option<nat> {
        match_repeat_upto(
            MAX_REPEAT,
            match_one(Class::MatraPre),
            match_repeat_upto(
                4,
                match_one(Class::MatraAbove),
                match_repeat_upto(
                    4,
                    match_one(Class::MatraBelow),
                    match_repeat_upto(
                        4,
                        match_one(Class::A),
                        match_optional(
                            match_seq(
                                match_one(Class::DotBelow),
                                match_optional(match_one(Class::Asat)),
                            ),
                        ),
                    ),
                ),
            ),
        ).spec_match(s, pos)
    }

    proof fn lemma_in_bounds(&self, s: Seq<char>, pos: int) {
        match_repeat_upto(
            MAX_REPEAT,
            match_one(Class::MatraPre),
            match_repeat_upto(
                4,
                match_one(Class::MatraAbove),
                match_repeat_upto(
                    4,
                    match_one(Class::MatraBelow),
                    match_repeat_upto(
                        4,
                        match_one(Class::A),
                        match_optional(
                            match_seq(
                                match_one(Class::DotBelow),
                                match_optional(match_one(Class::Asat)),
                            ),
                        ),
                    ),
                ),
            ),
        ).lemma_in_bounds(s, pos);
    }

    fn match_at(&self, cs: &[char], pos: usize) -> (r: Option<usize>) {
        match_repeat_upto(
            MAX_REPEAT,
            match_one(Class::MatraPre),
            match_repeat_upto(
                4,
                match_one(Class::MatraAbove),
                match_repeat_upto(
                    4,
                    match_one(Class::MatraBelow),
                    match_repeat_upto(
                        4,
                        match_one(Class::A),
                        match_optional(
                            match_seq(
                                match_one(Class::DotBelow),
                                match_optional(match_one(Class::Asat)),
                            ),
                        ),
                    ),
                ),
            ),
        ).match_at(cs, pos)
    }
}

/// Vpost = _matrapost_ _mh_? _asat_* _matraabove_* _a_* (_db_ _asat_?)?
pub struct VowelPost;

impl Matcher for VowelPost {
    open spec fn spec_match(&self, s: Seq<char>, pos: int) -> Option<nat> {
        match_seq(
            match_one(Class::MatraPost),
            match_repeat_upto(
                4,
                match_optional(match_one(Class::MedialHa)),
                match_repeat_upto(
                    4,
                    match_one(Class::Asat),
                    match_repeat_upto(
                        4,
                        match_one(Class::MatraAbove),
                        match_repeat_upto(
                            4,
                            match_one(Class::A),
                            match_optional(
                                match_seq(
                                    match_one(Class::DotBelow),
                                    match_optional(match_one(Class::Asat)),
                                ),
                            ),
                        ),
                    ),
                ),
            ),
        ).spec_match(s, pos)
    }

    proof fn lemma_in_bounds(&self, s: Seq<char>, pos: int) {
        match_seq(
            match_one(Class::MatraPost),
            match_repeat_upto(
                4,
                match_optional(match_one(Class::MedialHa)),
                match_repeat_upto(
                    4,
                    match_one(Class::Asat),
                    match_repeat_upto(
                        4,
                        match_one(Class::MatraAbove),
                        match_repeat_upto(
                            4,
                            match_one(Class::A),
                            match_optional(
                                match_seq(
                                    match_one(Class::DotBelow),
                                    match_optional(match_one(Class::Asat)),
                                ),
                            ),
                        ),
                    ),
                ),
            ),
        ).lemma_in_bounds(s, pos);
    }

    fn match_at(&self, cs: &[char], pos: usize) -> (r: Option<usize>) {
        match_seq(
            match_one(Class::MatraPost),
            match_repeat_upto(
                4,
                match_optional(match_one(Class::MedialHa)),
                match_repeat_upto(
                    4,
                    match_one(Class::Asat),
                    match_repeat_upto(
                        4,
                        match_one(Class::MatraAbove),
                        match_repeat_upto(
                            4,
                            match_one(Class::A),
                            match_optional(
                                match_seq(
                                    match_one(Class::DotBelow),
                                    match_optional(match_one(Class::Asat)),
                                ),
                            ),
                        ),
                    ),
                ),
            ),
        ).match_at(cs, pos)
    }
}

/// Pwo = _pt_ _a_* _db_? _asat_?
pub struct Pwo;

impl Matcher for Pwo {
    open spec fn spec_match(&self, s: Seq<char>, pos: int) -> Option<nat> {
        match_seq(
            match_one(Class::Pt),
            match_repeat_upto(
                MAX_REPEAT,
                match_one(Class::A),
                match_seq(
                    match_optional(match_one(Class::DotBelow)),
                    match_optional(match_one(Class::Asat)),
                ),
            ),
        ).spec_match(s, pos)
    }

    proof fn lemma_in_bounds(&self, s: Seq<char>, pos: int) {
        match_seq(
            match_one(Class::Pt),
            match_repeat_upto(
                MAX_REPEAT,
                match_one(Class::A),
                match_seq(
                    match_optional(match_one(Class::DotBelow)),
                    match_optional(match_one(Class::Asat)),
                ),
            ),
        ).lemma_in_bounds(s, pos);
    }

    fn match_at(&self, cs: &[char], pos: usize) -> (r: Option<usize>) {
        match_seq(
            match_one(Class::Pt),
            match_repeat_upto(
                MAX_REPEAT,
                match_one(Class::A),
                match_seq(
                    match_optional(match_one(Class::DotBelow)),
                    match_optional(match_one(Class::Asat)),
                ),
            ),
        ).match_at(cs, pos)
    }
}

/// _mw_ _mh_? _ml_?
pub struct MedialGroup2a;

impl Matcher for MedialGroup2a {
    open spec fn spec_match(&self, s: Seq<char>, pos: int) -> Option<nat> {
        match_seq(
            match_one(Class::MedialWa),
            match_optional_seq(
                match_one(Class::MedialHa),
                match_optional(match_one(Class::MedialLa)),
            ),
        ).spec_match(s, pos)
    }

    proof fn lemma_in_bounds(&self, s: Seq<char>, pos: int) {
        match_seq(
            match_one(Class::MedialWa),
            match_optional_seq(
                match_one(Class::MedialHa),
                match_optional(match_one(Class::MedialLa)),
            ),
        ).lemma_in_bounds(s, pos);
    }

    fn match_at(&self, cs: &[char], pos: usize) -> (r: Option<usize>) {
        match_seq(
            match_one(Class::MedialWa),
            match_optional_seq(
                match_one(Class::MedialHa),
                match_optional(match_one(Class::MedialLa)),
            ),
        ).match_at(cs, pos)
    }
}

/// _mh_ _ml_?
pub struct MedialGroup2b;

impl Matcher for MedialGroup2b {
    open spec fn spec_match(&self, s: Seq<char>, pos: int) -> Option<nat> {
        match_seq(
            match_one(Class::MedialHa),
            match_optional(match_one(Class::MedialLa)),
        ).spec_match(s, pos)
    }

    proof fn lemma_in_bounds(&self, s: Seq<char>, pos: int) {
        match_seq(
            match_one(Class::MedialHa),
            match_optional(match_one(Class::MedialLa)),
        ).lemma_in_bounds(s, pos);
    }

    fn match_at(&self, cs: &[char], pos: usize) -> (r: Option<usize>) {
        match_seq(
            match_one(Class::MedialHa),
            match_optional(match_one(Class::MedialLa)),
        ).match_at(cs, pos)
    }
}

/// (_mw_ _mh_? _ml_? | _mh_ _ml_? | _ml_) _asat_?
pub struct MedialGroup2;

impl Matcher for MedialGroup2 {
    open spec fn spec_match(&self, s: Seq<char>, pos: int) -> Option<nat> {
        match_seq(
            match_either(
                MedialGroup2a,
                match_either(MedialGroup2b, match_one(Class::MedialLa)),
            ),
            match_optional(match_one(Class::Asat)),
        ).spec_match(s, pos)
    }

    proof fn lemma_in_bounds(&self, s: Seq<char>, pos: int) {
        match_seq(
            match_either(
                MedialGroup2a,
                match_either(MedialGroup2b, match_one(Class::MedialLa)),
            ),
            match_optional(match_one(Class::Asat)),
        ).lemma_in_bounds(s, pos);
    }

    fn match_at(&self, cs: &[char], pos: usize) -> (r: Option<usize>) {
        match_seq(
            match_either(
                MedialGroup2a,
                match_either(MedialGroup2b, match_one(Class::MedialLa)),
            ),
            match_optional(match_one(Class::Asat)),
        ).match_at(cs, pos)
    }
}

/// Med = _my_? _asat_? _mr_? ((_mw_ _mh_? _ml_? | _mh_ _ml_? | _ml_) _asat_?)?
pub struct MedialGroup;

impl Matcher for MedialGroup {
    open spec fn spec_match(&self, s: Seq<char>, pos: int) -> Option<nat> {
        match_optional_seq(
            match_one(Class::MedialYa),
            match_optional_seq(
                match_one(Class::Asat),
                match_optional_seq(
                    match_one(Class::MedialRa),
                    match_optional(MedialGroup2),
                ),
            ),
        ).spec_match(s, pos)
    }

    proof fn lemma_in_bounds(&self, s: Seq<char>, pos: int) {
        match_optional_seq(
            match_one(Class::MedialYa),
            match_optional_seq(
                match_one(Class::Asat),
                match_optional_seq(
                    match_one(Class::MedialRa),
                    match_optional(MedialGroup2),
                ),
            ),
        ).lemma_in_bounds(s, pos);
    }

    fn match_at(&self, cs: &[char], pos: usize) -> (r: Option<usize>) {
        match_optional_seq(
            match_one(Class::MedialYa),
            match_optional_seq(
                match_one(Class::Asat),
                match_optional_seq(
                    match_one(Class::MedialRa),
                    match_optional(MedialGroup2),
                ),
            ),
        ).match_at(cs, pos)
    }
}

/// Tcomplex = _asat_* Med Vmain Vpost* Pwo* _sm_* Z?
pub struct ComplexTail;

impl Matcher for ComplexTail {
    open spec fn spec_match(&self, s: Seq<char>, pos: int) -> Option<nat> {
        match_repeat_upto(
            MAX_REPEAT,
            match_one(Class::Asat),
            match_seq(
                MedialGroup,
                match_seq(
                    VowelMain,
                    match_repeat_upto(
                        MAX_REPEAT,
                        VowelPost,
                        match_repeat_upto(
                            MAX_REPEAT,
                            Pwo,
                            match_repeat_upto(
                                MAX_REPEAT,
                                match_one(Class::Sm),
                                match_optional(ZeroWidth),
                            ),
                        ),
                    ),
                ),
            ),
        ).spec_match(s, pos)
    }

    proof fn lemma_in_bounds(&self, s: Seq<char>, pos: int) {
        match_repeat_upto(
            MAX_REPEAT,
            match_one(Class::Asat),
            match_seq(
                MedialGroup,
                match_seq(
                    VowelMain,
                    match_repeat_upto(
                        MAX_REPEAT,
                        VowelPost,
                        match_repeat_upto(
                            MAX_REPEAT,
                            Pwo,
                            match_repeat_upto(
                                MAX_REPEAT,
                                match_one(Class::Sm),
                                match_optional(ZeroWidth),
                            ),
                        ),
                    ),
                ),
            ),
        ).lemma_in_bounds(s, pos);
    }

    fn match_at(&self, cs: &[char], pos: usize) -> (r: Option<usize>) {
        match_repeat_upto(
            MAX_REPEAT,
            match_one(Class::Asat),
            match_seq(
                MedialGroup,
                match_seq(
                    VowelMain,
                    match_repeat_upto(
                        MAX_REPEAT,
                        VowelPost,
                        match_repeat_upto(
                            MAX_REPEAT,
                            Pwo,
                            match_repeat_upto(
                                MAX_REPEAT,
                                match_one(Class::Sm),
                                match_optional(ZeroWidth),
                            ),
                        ),
                    ),
                ),
            ),
        ).match_at(cs, pos)
    }
}

/// Tail = _halant_ | Tcomplex
pub struct SyllableTail;

impl Matcher for SyllableTail {
    open spec fn spec_match(&self, s: Seq<char>, pos: int) -> Option<nat> {
        match_either(match_one(Class::Halant), ComplexTail).spec_match(s, pos)
    }

    proof fn lemma_in_bounds(&self, s: Seq<char>, pos: int) {
        match_either(match_one(Class::Halant), ComplexTail).lemma_in_bounds(s, pos);
    }

    fn match_at(&self, cs: &[char], pos: usize) -> (r: Option<usize>) {
        match_either(match_one(Class::Halant), ComplexTail).match_at(cs, pos)
    }
}

/// _halant_ (C | _vowel_) _vs_?
pub struct HalantGroup;

impl Matcher for HalantGroup {
    open spec fn spec_match(&self, s: Seq<char>, pos: int) -> Option<nat> {
        match_seq(
            match_seq(
                match_one(Class::Halant),
                match_either(
                    match_one(Class::Consonant),
                    match_one(Class::Vowel),
                ),
            ),
            match_optional(match_one(Class::VariationSelector)),
        ).spec_match(s, pos)
    }

    proof fn lemma_in_bounds(&self, s: Seq<char>, pos: int) {
        match_seq(
            match_seq(
                match_one(Class::Halant),
                match_either(
                    match_one(Class::Consonant),
                    match_one(Class::Vowel),
                ),
            ),
            match_optional(match_one(Class::VariationSelector)),
        ).lemma_in_bounds(s, pos);
    }

    fn match_at(&self, cs: &[char], pos: usize) -> (r: Option<usize>) {
        match_seq(
            match_seq(
                match_one(Class::Halant),
                match_either(
                    match_one(Class::Consonant),
                    match_one(Class::Vowel),
                ),
            ),
            match_optional(match_one(Class::VariationSelector)),
        ).match_at(cs, pos)
    }
}

/// G = _gb_ | _d_ | _punc_
pub struct GenericGroup;

impl Matcher for GenericGroup {
    open spec fn spec_match(&self, s: Seq<char>, pos: int) -> Option<nat> {
        match_either(
            match_one(Class::GenericBase),
            match_either(match_one(Class::Digit), match_one(Class::Punc)),
        ).spec_match(s, pos)
    }

    proof fn lemma_in_bounds(&self, s: Seq<char>, pos: int) {
        match_either(
            match_one(Class::GenericBase),
            match_either(match_one(Class::Digit), match_one(Class::Punc)),
        ).lemma_in_bounds(s, pos);
    }

    fn match_at(&self, cs: &[char], pos: usize) -> (r: Option<usize>) {
        match_either(
            match_one(Class::GenericBase),
            match_either(match_one(Class::Digit), match_one(Class::Punc)),
        ).match_at(cs, pos)
    }
}

/// C | _vowel_ | G
pub struct InitialGroup;

impl Matcher for InitialGroup {
    open spec fn spec_match(&self, s: Seq<char>, pos: int) -> Option<nat> {
        match_either(
            match_one(Class::Consonant),
            match_either(match_one(Class::Vowel), GenericGroup),
        ).spec_match(s, pos)
    }

    proof fn lemma_in_bounds(&self, s: Seq<char>, pos: int) {
        match_either(
            match_one(Class::Consonant),
            match_either(match_one(Class::Vowel), GenericGroup),
        ).lemma_in_bounds(s, pos);
    }

    fn match_at(&self, cs: &[char], pos: usize) -> (r: Option<usize>) {
        match_either(
            match_one(Class::Consonant),
            match_either(match_one(Class::Vowel), GenericGroup),
        ).match_at(cs, pos)
    }
}

/// (K | _cs_)? (C | _vowel_ | G) _vs_? (_halant_ (C | _vowel_) _vs_?)* Tail
pub struct ConsonantSyllable;

impl Matcher for ConsonantSyllable {
    open spec fn spec_match(&self, s: Seq<char>, pos: int) -> Option<nat> {
        match_optional_seq(
            match_either(Kinzi, match_one(Class::ConsonantWithStacker)),
            match_seq(
                InitialGroup,
                match_optional_seq(
                    match_one(Class::VariationSelector),
                    match_repeat_upto(MAX_REPEAT, HalantGroup, SyllableTail),
                ),
            ),
        ).spec_match(s, pos)
    }

    proof fn lemma_in_bounds(&self, s: Seq<char>, pos: int) {
        match_optional_seq(
            match_either(Kinzi, match_one(Class::ConsonantWithStacker)),
            match_seq(
                InitialGroup,
                match_optional_seq(
                    match_one(Class::VariationSelector),
                    match_repeat_upto(MAX_REPEAT, HalantGroup, SyllableTail),
                ),
            ),
        ).lemma_in_bounds(s, pos);
    }

    fn match_at(&self, cs: &[char], pos: usize) -> (r: Option<usize>) {
        match_optional_seq(
            match_either(Kinzi, match_one(Class::ConsonantWithStacker)),
            match_seq(
                InitialGroup,
                match_optional_seq(
                    match_one(Class::VariationSelector),
                    match_repeat_upto(MAX_REPEAT, HalantGroup, SyllableTail),
                ),
            ),
        ).match_at(cs, pos)
    }
}

/// A punctuation mark, symbol, reserved or other character that is a cluster on its own.
pub struct StandaloneCluster;

impl Matcher for StandaloneCluster {
    open spec fn spec_match(&self, s: Seq<char>, pos: int) -> Option<nat> {
        match_one(Class::Standalone).spec_match(s, pos)
    }

    proof fn lemma_in_bounds(&self, s: Seq<char>, pos: int) {
        match_one(Class::Standalone).lemma_in_bounds(s, pos);
    }

    fn match_at(&self, cs: &[char], pos: usize) -> (r: Option<usize>) {
        match_one(Class::Standalone).match_at(cs, pos)
    }
}

/// The end of the input window that a cluster starting at `pos` may occupy.
pub open spec fn window_end(len: int, pos: int) -> int {
    if len - pos > MAX_CLUSTER_LEN {
        pos + MAX_CLUSTER_LEN
    } else {
        len
    }
}

/// The cluster at `pos`: a consonant syllable if one matches within the
/// window, and otherwise a standalone character.
pub open spec fn myanmar_syllable(s: Seq<char>, pos: int) -> Option<(nat, Syllable)> {
    let w = s.subrange(0, window_end(s.len() as int, pos));
    match ConsonantSyllable.spec_match(w, pos) {
        Some(n) => Some((n, Syllable::Consonant)),
        None => match StandaloneCluster.spec_match(w, pos) {
            Some(n) => Some((n, Syllable::Broken)),
            None => None,
        },
    }
}

/// Recognises the cluster that starts at `pos`.
pub fn syllable_at(cs: &[char], pos: usize) -> (r: Option<(usize, Syllable)>)
    requires
        pos <= cs.len(),
    ensures
        lift_syllable(r) == myanmar_syllable(cs@, pos as int),
{
    let end = if cs.len() - pos > MAX_CLUSTER_LEN {
        pos + MAX_CLUSTER_LEN
    } else {
        cs.len()
    };
    let window = vstd::slice::slice_subrange(cs, 0, end);
    match ConsonantSyllable.match_at(window, pos) {
        Some(n) => Some((n, Syllable::Consonant)),
        None => match StandaloneCluster.match_at(window, pos) {
            Some(n) => Some((n, Syllable::Broken)),
            None => None,
        },
    }
}

/// Recognises the cluster at the head of `cs`.
pub fn match_syllable<T: SyllableChar>(cs: &[T]) -> (r: Option<(usize, Syllable)>)
    ensures
        lift_syllable(r) == myanmar_syllable(chars_of(cs@), 0),
{
    let end = if cs.len() > MAX_CLUSTER_LEN {
        MAX_CLUSTER_LEN
    } else {
        cs.len()
    };
    let mut head: Vec<char> = Vec::new();
    let mut i: usize = 0;
    while i < end
        invariant
            i <= end <= cs.len(),
            head@ == chars_of(cs@).take(i as int),
        decreases end - i,
    {
        head.push(cs[i].char());
        i = i + 1;
        assert(head@ =~= chars_of(cs@).take(i as int));
    }
    let ghost s = chars_of(cs@);
    assert(s.subrange(0, window_end(s.len() as int, 0)) =~= head@.subrange(
        0,
        window_end(head@.len() as int, 0),
    ));
    syllable_at(head.as_slice(), 0)
}

/// A recognised cluster consumes at least one character.
pub proof fn lemma_syllable_nonempty(s: Seq<char>, pos: int)
    ensures
        myanmar_syllable(s, pos) matches Some((n, _)) ==> n >= 1,
{
}

/// A recognised cluster stays inside the input and inside the cluster cap.
pub proof fn lemma_syllable_in_bounds(s: Seq<char>, pos: int)
    requires
        0 <= pos <= s.len(),
    ensures
        myanmar_syllable(s, pos) matches Some((n, _)) ==> pos + n <= s.len() && n <= MAX_CLUSTER_LEN,
{
    let w = s.subrange(0, window_end(s.len() as int, pos));
    ConsonantSyllable.lemma_in_bounds(w, pos);
    StandaloneCluster.lemma_in_bounds(w, pos);
}

} // verus!
