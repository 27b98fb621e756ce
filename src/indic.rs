//! The Indic cluster grammar.
//!
//! Five kinds of syllable are tried at the head of the input, and the one that
//! consumes the most characters wins; on a tie the order is consonant, vowel,
//! standalone, symbol, broken.
use vstd::prelude::*;
use crate::indic_table::{indic_character, indic_property, ShapingClass};
use crate::matcher::{
    at_least, at_most, lemma_repeat_then_at_least, lift, match_either, match_either_ordered,
    match_nonempty, match_one, match_optional, match_optional_seq, match_repeat_upto, match_seq,
    match_unit, CharPredicate, Matcher,
};
use crate::{lift_syllable, Syllable};

verus! {

/// The shaping class of a character in the Indic table.
#[verifier::allow_in_spec]
pub fn shaping_class(ch: char) -> Option<ShapingClass>
    returns
        indic_property(ch).0,
{
    indic_character(ch).0
}

/// _ra_ of any of the Indic scripts.
#[verifier::allow_in_spec]
pub fn ra(ch: char) -> bool
    returns
        ch == '\u{0930}'
            || ch == '\u{09B0}'
            || ch == '\u{09F0}'
            || ch == '\u{0A30}'
            || ch == '\u{0AB0}'
            || ch == '\u{0B30}'
            || ch == '\u{0BB0}'
            || ch == '\u{0C30}'
            || ch == '\u{0CB0}'
            || ch == '\u{0D30}'
            || ch == '\u{0DBB}',
{
    ch == '\u{0930}'
        || ch == '\u{09B0}'
        || ch == '\u{09F0}'
        || ch == '\u{0A30}'
        || ch == '\u{0AB0}'
        || ch == '\u{0B30}'
        || ch == '\u{0BB0}'
        || ch == '\u{0C30}'
        || ch == '\u{0CB0}'
        || ch == '\u{0D30}'
        || ch == '\u{0DBB}'
}

/// A consonant other than _ra_, or a dead consonant.
#[verifier::allow_in_spec]
pub fn consonant(ch: char) -> bool
    returns
        (shaping_class(ch) == Some(ShapingClass::Consonant) && !ra(ch))
            || shaping_class(ch) == Some(ShapingClass::ConsonantDead),
{
    match shaping_class(ch) {
        Some(ShapingClass::Consonant) => !ra(ch),
        Some(ShapingClass::ConsonantDead) => true,
        _ => false,
    }
}

/// An independent vowel.
#[verifier::allow_in_spec]
pub fn vowel(ch: char) -> bool
    returns
        shaping_class(ch) == Some(ShapingClass::VowelIndependent),
{
    matches!(shaping_class(ch), Some(ShapingClass::VowelIndependent))
}

/// The nukta.
#[verifier::allow_in_spec]
pub fn nukta(ch: char) -> bool
    returns
        shaping_class(ch) == Some(ShapingClass::Nukta),
{
    matches!(shaping_class(ch), Some(ShapingClass::Nukta))
}

/// The halant (virama).
#[verifier::allow_in_spec]
pub fn halant(ch: char) -> bool
    returns
        shaping_class(ch) == Some(ShapingClass::Virama),
{
    matches!(shaping_class(ch), Some(ShapingClass::Virama))
}

/// The zero-width joiner.
#[verifier::allow_in_spec]
pub fn zwj(ch: char) -> bool
    returns
        shaping_class(ch) == Some(ShapingClass::Joiner),
{
    matches!(shaping_class(ch), Some(ShapingClass::Joiner))
}

/// The zero-width non-joiner.
#[verifier::allow_in_spec]
pub fn zwnj(ch: char) -> bool
    returns
        shaping_class(ch) == Some(ShapingClass::NonJoiner),
{
    matches!(shaping_class(ch), Some(ShapingClass::NonJoiner))
}

/// A dependent vowel or a pure killer.
#[verifier::allow_in_spec]
pub fn matra(ch: char) -> bool
    returns
        shaping_class(ch) == Some(ShapingClass::VowelDependent)
            || shaping_class(ch) == Some(ShapingClass::PureKiller),
{
    matches!(shaping_class(ch), Some(ShapingClass::VowelDependent) | Some(ShapingClass::PureKiller))
}

/// A syllable modifier, bindu, visarga or gemination mark.
#[verifier::allow_in_spec]
pub fn syllable_modifier(ch: char) -> bool
    returns
        shaping_class(ch) == Some(ShapingClass::SyllableModifier)
            || shaping_class(ch) == Some(ShapingClass::Bindu)
            || shaping_class(ch) == Some(ShapingClass::Visarga)
            || shaping_class(ch) == Some(ShapingClass::GeminationMark),
{
    matches!(
        shaping_class(ch),
        Some(ShapingClass::SyllableModifier)
        | Some(ShapingClass::Bindu)
        | Some(ShapingClass::Visarga)
        | Some(ShapingClass::GeminationMark),
    )
}

/// A cantillation mark.
#[verifier::allow_in_spec]
pub fn vedic_sign(ch: char) -> bool
    returns
        shaping_class(ch) == Some(ShapingClass::Cantillation),
{
    matches!(shaping_class(ch), Some(ShapingClass::Cantillation))
}

/// A placeholder or a consonant placeholder.
#[verifier::allow_in_spec]
pub fn placeholder(ch: char) -> bool
    returns
        shaping_class(ch) == Some(ShapingClass::Placeholder)
            || shaping_class(ch) == Some(ShapingClass::ConsonantPlaceholder),
{
    matches!(
        shaping_class(ch),
        Some(ShapingClass::Placeholder)
        | Some(ShapingClass::ConsonantPlaceholder),
    )
}

/// The dotted circle.
#[verifier::allow_in_spec]
pub fn dotted_circle(ch: char) -> bool
    returns
        shaping_class(ch) == Some(ShapingClass::DottedCircle),
{
    matches!(shaping_class(ch), Some(ShapingClass::DottedCircle))
}

/// A consonant with a pre-base repha form.
#[verifier::allow_in_spec]
pub fn repha(ch: char) -> bool
    returns
        shaping_class(ch) == Some(ShapingClass::ConsonantPreRepha),
{
    matches!(shaping_class(ch), Some(ShapingClass::ConsonantPreRepha))
}

/// A medial consonant.
#[verifier::allow_in_spec]
pub fn consonant_medial(ch: char) -> bool
    returns
        shaping_class(ch) == Some(ShapingClass::ConsonantMedial),
{
    matches!(shaping_class(ch), Some(ShapingClass::ConsonantMedial))
}

/// A symbol.
#[verifier::allow_in_spec]
pub fn symbol(ch: char) -> bool
    returns
        shaping_class(ch) == Some(ShapingClass::Symbol),
{
    matches!(shaping_class(ch), Some(ShapingClass::Symbol))
}

/// The avagraha.
#[verifier::allow_in_spec]
pub fn avagraha(ch: char) -> bool
    returns
        shaping_class(ch) == Some(ShapingClass::Avagraha),
{
    matches!(shaping_class(ch), Some(ShapingClass::Avagraha))
}

/// A consonant with a stacker.
#[verifier::allow_in_spec]
pub fn consonant_with_stacker(ch: char) -> bool
    returns
        shaping_class(ch) == Some(ShapingClass::ConsonantWithStacker),
{
    matches!(shaping_class(ch), Some(ShapingClass::ConsonantWithStacker))
}

/// A number or a modifying letter, which the segmenter passes over.
#[verifier::allow_in_spec]
pub fn other(ch: char) -> bool
    returns
        shaping_class(ch) == Some(ShapingClass::Number)
            || shaping_class(ch) == Some(ShapingClass::ModifyingLetter),
{
    matches!(shaping_class(ch), Some(ShapingClass::Number) | Some(ShapingClass::ModifyingLetter))
}

/// The character tests that the grammar is built from.
#[derive(Clone, Copy, Debug, PartialEq, Eq, Structural)]
pub enum Class {
    Ra,
    Consonant,
    Vowel,
    Nukta,
    Halant,
    Zwj,
    Zwnj,
    Matra,
    SyllableModifier,
    VedicSign,
    Placeholder,
    DottedCircle,
    Repha,
    ConsonantMedial,
    Symbol,
    Avagraha,
    ConsonantWithStacker,
}

impl CharPredicate for Class {
    open spec fn holds(&self, c: char) -> bool {
        match self {
            Class::Ra => ra(c),
            Class::Consonant => consonant(c),
            Class::Vowel => vowel(c),
            Class::Nukta => nukta(c),
            Class::Halant => halant(c),
            Class::Zwj => zwj(c),
            Class::Zwnj => zwnj(c),
            Class::Matra => matra(c),
            Class::SyllableModifier => syllable_modifier(c),
            Class::VedicSign => vedic_sign(c),
            Class::Placeholder => placeholder(c),
            Class::DottedCircle => dotted_circle(c),
            Class::Repha => repha(c),
            Class::ConsonantMedial => consonant_medial(c),
            Class::Symbol => symbol(c),
            Class::Avagraha => avagraha(c),
            Class::ConsonantWithStacker => consonant_with_stacker(c),
        }
    }

    fn test(&self, c: char) -> (r: bool) {
        match self {
            Class::Ra => ra(c),
            Class::Consonant => consonant(c),
            Class::Vowel => vowel(c),
            Class::Nukta => nukta(c),
            Class::Halant => halant(c),
            Class::Zwj => zwj(c),
            Class::Zwnj => zwnj(c),
            Class::Matra => matra(c),
            Class::SyllableModifier => syllable_modifier(c),
            Class::VedicSign => vedic_sign(c),
            Class::Placeholder => placeholder(c),
            Class::DottedCircle => dotted_circle(c),
            Class::Repha => repha(c),
            Class::ConsonantMedial => consonant_medial(c),
            Class::Symbol => symbol(c),
            Class::Avagraha => avagraha(c),
            Class::ConsonantWithStacker => consonant_with_stacker(c),
        }
    }
}

/// C = _consonant_ | _ra_
pub struct BaseConsonant;

impl Matcher for BaseConsonant {
    open spec fn spec_match(&self, s: Seq<char>, pos: int) -> Option<nat> {
        match_either_ordered(match_one(Class::Consonant), match_one(Class::Ra)).spec_match(s, pos)
    }

    proof fn lemma_in_bounds(&self, s: Seq<char>, pos: int) {
        match_either_ordered(match_one(Class::Consonant), match_one(Class::Ra)).lemma_in_bounds(s, pos);
    }

    fn match_at(&self, cs: &[char], pos: usize) -> (r: Option<usize>) {
        match_either_ordered(match_one(Class::Consonant), match_one(Class::Ra)).match_at(cs, pos)
    }
}

/// Z = _zwj_ | _zwnj_
pub struct ZeroWidth;

impl Matcher for ZeroWidth {
    open spec fn spec_match(&self, s: Seq<char>, pos: int) -> Option<nat> {
        match_either_ordered(match_one(Class::Zwj), match_one(Class::Zwnj)).spec_match(s, pos)
    }

    proof fn lemma_in_bounds(&self, s: Seq<char>, pos: int) {
        match_either_ordered(match_one(Class::Zwj), match_one(Class::Zwnj)).lemma_in_bounds(s, pos);
    }

    fn match_at(&self, cs: &[char], pos: usize) -> (r: Option<usize>) {
        match_either_ordered(match_one(Class::Zwj), match_one(Class::Zwnj)).match_at(cs, pos)
    }
}

/// reph = _ra_ _halant_ | _repha_
pub struct Reph;

impl Matcher for Reph {
    open spec fn spec_match(&self, s: Seq<char>, pos: int) -> Option<nat> {
        match_either_ordered(
            match_seq(match_one(Class::Ra), match_one(Class::Halant)),
            match_one(Class::Repha),
        ).spec_match(s, pos)
    }

    proof fn lemma_in_bounds(&self, s: Seq<char>, pos: int) {
        match_either_ordered(
            match_seq(match_one(Class::Ra), match_one(Class::Halant)),
            match_one(Class::Repha),
        ).lemma_in_bounds(s, pos);
    }

    fn match_at(&self, cs: &[char], pos: usize) -> (r: Option<usize>) {
        match_either_ordered(
            match_seq(match_one(Class::Ra), match_one(Class::Halant)),
            match_one(Class::Repha),
        ).match_at(cs, pos)
    }
}

/// CN = C _zwj_? _nukta_?
pub struct ConsonantNukta;

impl Matcher for ConsonantNukta {
    open spec fn spec_match(&self, s: Seq<char>, pos: int) -> Option<nat> {
        match_seq(
            BaseConsonant,
            match_optional_seq(
                match_one(Class::Zwj),
                match_optional(match_one(Class::Nukta)),
            ),
        ).spec_match(s, pos)
    }

    proof fn lemma_in_bounds(&self, s: Seq<char>, pos: int) {
        match_seq(
            BaseConsonant,
            match_optional_seq(
                match_one(Class::Zwj),
                match_optional(match_one(Class::Nukta)),
            ),
        ).lemma_in_bounds(s, pos);
    }

    fn match_at(&self, cs: &[char], pos: usize) -> (r: Option<usize>) {
        match_seq(
            BaseConsonant,
            match_optional_seq(
                match_one(Class::Zwj),
                match_optional(match_one(Class::Nukta)),
            ),
        ).match_at(cs, pos)
    }
}

/// forced_rakar = _zwj_ _halant_ _zwj_ _ra_
pub struct ForcedRakar;

impl Matcher for ForcedRakar {
    open spec fn spec_match(&self, s: Seq<char>, pos: int) -> Option<nat> {
        match_seq(
            match_one(Class::Zwj),
            match_seq(
                match_one(Class::Halant),
                match_seq(match_one(Class::Zwj), match_one(Class::Ra)),
            ),
        ).spec_match(s, pos)
    }

    proof fn lemma_in_bounds(&self, s: Seq<char>, pos: int) {
        match_seq(
            match_one(Class::Zwj),
            match_seq(
                match_one(Class::Halant),
                match_seq(match_one(Class::Zwj), match_one(Class::Ra)),
            ),
        ).lemma_in_bounds(s, pos);
    }

    fn match_at(&self, cs: &[char], pos: usize) -> (r: Option<usize>) {
        match_seq(
            match_one(Class::Zwj),
            match_seq(
                match_one(Class::Halant),
                match_seq(match_one(Class::Zwj), match_one(Class::Ra)),
            ),
        ).match_at(cs, pos)
    }
}

/// S = _symbol_ _nukta_?
pub struct SymbolNukta;

impl Matcher for SymbolNukta {
    open spec fn spec_match(&self, s: Seq<char>, pos: int) -> Option<nat> {
        match_seq(
            match_one(Class::Symbol),
            match_optional(match_one(Class::Nukta)),
        ).spec_match(s, pos)
    }

    proof fn lemma_in_bounds(&self, s: Seq<char>, pos: int) {
        match_seq(
            match_one(Class::Symbol),
            match_optional(match_one(Class::Nukta)),
        ).lemma_in_bounds(s, pos);
    }

    fn match_at(&self, cs: &[char], pos: usize) -> (r: Option<usize>) {
        match_seq(
            match_one(Class::Symbol),
            match_optional(match_one(Class::Nukta)),
        ).match_at(cs, pos)
    }
}

/// matra_group = Z{0,3} _matra_ (_nukta_? (_halant_ | forced_rakar)?)
pub struct MatraGroup;

impl Matcher for MatraGroup {
    open spec fn spec_match(&self, s: Seq<char>, pos: int) -> Option<nat> {
        match_repeat_upto(
            3,
            ZeroWidth,
            match_seq(
                match_one(Class::Matra),
                match_optional_seq(
                    match_one(Class::Nukta),
                    match_optional(
                        match_either_ordered(
                            match_one(Class::Halant),
                            ForcedRakar,
                        ),
                    ),
                ),
            ),
        ).spec_match(s, pos)
    }

    proof fn lemma_in_bounds(&self, s: Seq<char>, pos: int) {
        match_repeat_upto(
            3,
            ZeroWidth,
            match_seq(
                match_one(Class::Matra),
                match_optional_seq(
                    match_one(Class::Nukta),
                    match_optional(
                        match_either_ordered(
                            match_one(Class::Halant),
                            ForcedRakar,
                        ),
                    ),
                ),
            ),
        ).lemma_in_bounds(s, pos);
    }

    fn match_at(&self, cs: &[char], pos: usize) -> (r: Option<usize>) {
        match_repeat_upto(
            3,
            ZeroWidth,
            match_seq(
                match_one(Class::Matra),
                match_optional_seq(
                    match_one(Class::Nukta),
                    match_optional(
                        match_either_ordered(
                            match_one(Class::Halant),
                            ForcedRakar,
                        ),
                    ),
                ),
            ),
        ).match_at(cs, pos)
    }
}

/// syllable_tail = (Z? _syllable_modifier_ _syllable_modifier_? _zwnj_?)? _avagraha_{0,3} _vedic_sign_{0,2}
pub struct SyllableTail;

impl Matcher for SyllableTail {
    open spec fn spec_match(&self, s: Seq<char>, pos: int) -> Option<nat> {
        match_optional_seq(
            match_optional_seq(
                ZeroWidth,
                match_seq(
                    match_one(Class::SyllableModifier),
                    match_optional_seq(
                        match_one(Class::SyllableModifier),
                        match_optional(match_one(Class::Zwnj)),
                    ),
                ),
            ),
            match_repeat_upto(
                3,
                match_one(Class::Avagraha),
                match_repeat_upto(2, match_one(Class::VedicSign), match_unit()),
            ),
        ).spec_match(s, pos)
    }

    proof fn lemma_in_bounds(&self, s: Seq<char>, pos: int) {
        match_optional_seq(
            match_optional_seq(
                ZeroWidth,
                match_seq(
                    match_one(Class::SyllableModifier),
                    match_optional_seq(
                        match_one(Class::SyllableModifier),
                        match_optional(match_one(Class::Zwnj)),
                    ),
                ),
            ),
            match_repeat_upto(
                3,
                match_one(Class::Avagraha),
                match_repeat_upto(2, match_one(Class::VedicSign), match_unit()),
            ),
        ).lemma_in_bounds(s, pos);
    }

    fn match_at(&self, cs: &[char], pos: usize) -> (r: Option<usize>) {
        match_optional_seq(
            match_optional_seq(
                ZeroWidth,
                match_seq(
                    match_one(Class::SyllableModifier),
                    match_optional_seq(
                        match_one(Class::SyllableModifier),
                        match_optional(match_one(Class::Zwnj)),
                    ),
                ),
            ),
            match_repeat_upto(
                3,
                match_one(Class::Avagraha),
                match_repeat_upto(2, match_one(Class::VedicSign), match_unit()),
            ),
        ).match_at(cs, pos)
    }
}

/// halant_group = Z? _halant_ (_zwj_ _nukta_?)?
pub struct HalantGroup;

impl Matcher for HalantGroup {
    open spec fn spec_match(&self, s: Seq<char>, pos: int) -> Option<nat> {
        match_optional_seq(
            ZeroWidth,
            match_seq(
                match_one(Class::Halant),
                match_optional(
                    match_seq(
                        match_one(Class::Zwj),
                        match_optional(match_one(Class::Nukta)),
                    ),
                ),
            ),
        ).spec_match(s, pos)
    }

    proof fn lemma_in_bounds(&self, s: Seq<char>, pos: int) {
        match_optional_seq(
            ZeroWidth,
            match_seq(
                match_one(Class::Halant),
                match_optional(
                    match_seq(
                        match_one(Class::Zwj),
                        match_optional(match_one(Class::Nukta)),
                    ),
                ),
            ),
        ).lemma_in_bounds(s, pos);
    }

    fn match_at(&self, cs: &[char], pos: usize) -> (r: Option<usize>) {
        match_optional_seq(
            ZeroWidth,
            match_seq(
                match_one(Class::Halant),
                match_optional(
                    match_seq(
                        match_one(Class::Zwj),
                        match_optional(match_one(Class::Nukta)),
                    ),
                ),
            ),
        ).match_at(cs, pos)
    }
}

/// medial_group = _consonant_medial_?
pub struct MedialGroup;

impl Matcher for MedialGroup {
    open spec fn spec_match(&self, s: Seq<char>, pos: int) -> Option<nat> {
        match_optional(match_one(Class::ConsonantMedial)).spec_match(s, pos)
    }

    proof fn lemma_in_bounds(&self, s: Seq<char>, pos: int) {
        match_optional(match_one(Class::ConsonantMedial)).lemma_in_bounds(s, pos);
    }

    fn match_at(&self, cs: &[char], pos: usize) -> (r: Option<usize>) {
        match_optional(match_one(Class::ConsonantMedial)).match_at(cs, pos)
    }
}

/// halant_or_matra_group = _halant_ _zwnj_ | (_halant_ _zwj_)? matra_group{0,4} | halant_group
pub struct HalantOrMatraGroup;

impl Matcher for HalantOrMatraGroup {
    open spec fn spec_match(&self, s: Seq<char>, pos: int) -> Option<nat> {
        match_either(
            match_seq(match_one(Class::Halant), match_one(Class::Zwnj)),
            match_either(
                match_optional_seq(
                    match_seq(match_one(Class::Halant), match_one(Class::Zwj)),
                    match_repeat_upto(4, MatraGroup, match_unit()),
                ),
                HalantGroup,
            ),
        ).spec_match(s, pos)
    }

    proof fn lemma_in_bounds(&self, s: Seq<char>, pos: int) {
        match_either(
            match_seq(match_one(Class::Halant), match_one(Class::Zwnj)),
            match_either(
                match_optional_seq(
                    match_seq(match_one(Class::Halant), match_one(Class::Zwj)),
                    match_repeat_upto(4, MatraGroup, match_unit()),
                ),
                HalantGroup,
            ),
        ).lemma_in_bounds(s, pos);
    }

    fn match_at(&self, cs: &[char], pos: usize) -> (r: Option<usize>) {
        match_either(
            match_seq(match_one(Class::Halant), match_one(Class::Zwnj)),
            match_either(
                match_optional_seq(
                    match_seq(match_one(Class::Halant), match_one(Class::Zwj)),
                    match_repeat_upto(4, MatraGroup, match_unit()),
                ),
                HalantGroup,
            ),
        ).match_at(cs, pos)
    }
}

/// The common ending: medial_group halant_or_matra_group syllable_tail
pub struct FinalGroup;

impl Matcher for FinalGroup {
    open spec fn spec_match(&self, s: Seq<char>, pos: int) -> Option<nat> {
        match_seq(MedialGroup, match_seq(HalantOrMatraGroup, SyllableTail)).spec_match(s, pos)
    }

    proof fn lemma_in_bounds(&self, s: Seq<char>, pos: int) {
        match_seq(MedialGroup, match_seq(HalantOrMatraGroup, SyllableTail)).lemma_in_bounds(s, pos);
    }

    fn match_at(&self, cs: &[char], pos: usize) -> (r: Option<usize>) {
        match_seq(MedialGroup, match_seq(HalantOrMatraGroup, SyllableTail)).match_at(cs, pos)
    }
}

/// The common tail: (halant_group CN){0,4} medial_group halant_or_matra_group syllable_tail
pub struct HalantTail;

impl Matcher for HalantTail {
    open spec fn spec_match(&self, s: Seq<char>, pos: int) -> Option<nat> {
        match_repeat_upto(4, match_seq(HalantGroup, ConsonantNukta), FinalGroup).spec_match(s, pos)
    }

    proof fn lemma_in_bounds(&self, s: Seq<char>, pos: int) {
        match_repeat_upto(4, match_seq(HalantGroup, ConsonantNukta), FinalGroup).lemma_in_bounds(s, pos);
    }

    fn match_at(&self, cs: &[char], pos: usize) -> (r: Option<usize>) {
        match_repeat_upto(4, match_seq(HalantGroup, ConsonantNukta), FinalGroup).match_at(cs, pos)
    }
}

/// consonant_syllable = (_repha_ | _consonant_with_stacker_)? (CN halant_group){0,4} CN medial_group halant_or_matra_group syllable_tail
pub struct ConsonantSyllable;

impl Matcher for ConsonantSyllable {
    open spec fn spec_match(&self, s: Seq<char>, pos: int) -> Option<nat> {
        match_optional_seq(
            match_either(
                match_one(Class::Repha),
                match_one(Class::ConsonantWithStacker),
            ),
            match_repeat_upto(
                4,
                match_seq(ConsonantNukta, HalantGroup),
                match_seq(ConsonantNukta, FinalGroup),
            ),
        ).spec_match(s, pos)
    }

    proof fn lemma_in_bounds(&self, s: Seq<char>, pos: int) {
        match_optional_seq(
            match_either(
                match_one(Class::Repha),
                match_one(Class::ConsonantWithStacker),
            ),
            match_repeat_upto(
                4,
                match_seq(ConsonantNukta, HalantGroup),
                match_seq(ConsonantNukta, FinalGroup),
            ),
        ).lemma_in_bounds(s, pos);
    }

    fn match_at(&self, cs: &[char], pos: usize) -> (r: Option<usize>) {
        match_optional_seq(
            match_either(
                match_one(Class::Repha),
                match_one(Class::ConsonantWithStacker),
            ),
            match_repeat_upto(
                4,
                match_seq(ConsonantNukta, HalantGroup),
                match_seq(ConsonantNukta, FinalGroup),
            ),
        ).match_at(cs, pos)
    }
}

/// vowel_syllable = reph? _vowel_ (_nukta_? (_zwj_ | (halant_group CN){0,4} medial_group halant_or_matra_group syllable_tail))
pub struct VowelSyllable;

impl Matcher for VowelSyllable {
    open spec fn spec_match(&self, s: Seq<char>, pos: int) -> Option<nat> {
        match_optional_seq(
            Reph,
            match_seq(
                match_one(Class::Vowel),
                match_optional_seq(
                    match_one(Class::Nukta),
                    match_either(match_one(Class::Zwj), HalantTail),
                ),
            ),
        ).spec_match(s, pos)
    }

    proof fn lemma_in_bounds(&self, s: Seq<char>, pos: int) {
        match_optional_seq(
            Reph,
            match_seq(
                match_one(Class::Vowel),
                match_optional_seq(
                    match_one(Class::Nukta),
                    match_either(match_one(Class::Zwj), HalantTail),
                ),
            ),
        ).lemma_in_bounds(s, pos);
    }

    fn match_at(&self, cs: &[char], pos: usize) -> (r: Option<usize>) {
        match_optional_seq(
            Reph,
            match_seq(
                match_one(Class::Vowel),
                match_optional_seq(
                    match_one(Class::Nukta),
                    match_either(match_one(Class::Zwj), HalantTail),
                ),
            ),
        ).match_at(cs, pos)
    }
}

/// standalone_syllable = ((_repha_ | _consonant_with_stacker_)? _placeholder_ | reph? _dotted_circle_) _nukta_? (halant_group CN){0,4} medial_group halant_or_matra_group syllable_tail
pub struct StandaloneSyllable;

impl Matcher for StandaloneSyllable {
    open spec fn spec_match(&self, s: Seq<char>, pos: int) -> Option<nat> {
        match_either(
            match_seq(
                match_optional_seq(
                    match_either(
                        match_one(Class::Repha),
                        match_one(Class::ConsonantWithStacker),
                    ),
                    match_one(Class::Placeholder),
                ),
                match_optional_seq(match_one(Class::Nukta), HalantTail),
            ),
            match_seq(
                match_seq(match_optional(Reph), match_one(Class::DottedCircle)),
                match_optional_seq(match_one(Class::Nukta), HalantTail),
            ),
        ).spec_match(s, pos)
    }

    proof fn lemma_in_bounds(&self, s: Seq<char>, pos: int) {
        match_either(
            match_seq(
                match_optional_seq(
                    match_either(
                        match_one(Class::Repha),
                        match_one(Class::ConsonantWithStacker),
                    ),
                    match_one(Class::Placeholder),
                ),
                match_optional_seq(match_one(Class::Nukta), HalantTail),
            ),
            match_seq(
                match_seq(match_optional(Reph), match_one(Class::DottedCircle)),
                match_optional_seq(match_one(Class::Nukta), HalantTail),
            ),
        ).lemma_in_bounds(s, pos);
    }

    fn match_at(&self, cs: &[char], pos: usize) -> (r: Option<usize>) {
        match_either(
            match_seq(
                match_optional_seq(
                    match_either(
                        match_one(Class::Repha),
                        match_one(Class::ConsonantWithStacker),
                    ),
                    match_one(Class::Placeholder),
                ),
                match_optional_seq(match_one(Class::Nukta), HalantTail),
            ),
            match_seq(
                match_seq(match_optional(Reph), match_one(Class::DottedCircle)),
                match_optional_seq(match_one(Class::Nukta), HalantTail),
            ),
        ).match_at(cs, pos)
    }
}

/// symbol_syllable = S syllable_tail
pub struct SymbolSyllable;

impl Matcher for SymbolSyllable {
    open spec fn spec_match(&self, s: Seq<char>, pos: int) -> Option<nat> {
        match_seq(SymbolNukta, SyllableTail).spec_match(s, pos)
    }

    proof fn lemma_in_bounds(&self, s: Seq<char>, pos: int) {
        match_seq(SymbolNukta, SyllableTail).lemma_in_bounds(s, pos);
    }

    fn match_at(&self, cs: &[char], pos: usize) -> (r: Option<usize>) {
        match_seq(SymbolNukta, SyllableTail).match_at(cs, pos)
    }
}

/// broken_syllable = reph? _nukta_? (halant_group CN){0,4} medial_group halant_or_matra_group
/// syllable_tail, when that is not empty
pub struct BrokenSyllable;

impl Matcher for BrokenSyllable {
    open spec fn spec_match(&self, s: Seq<char>, pos: int) -> Option<nat> {
        match_nonempty(
            match_optional_seq(
                Reph,
                match_optional_seq(match_one(Class::Nukta), HalantTail),
            ),
        ).spec_match(s, pos)
    }

    proof fn lemma_in_bounds(&self, s: Seq<char>, pos: int) {
        match_nonempty(
            match_optional_seq(
                Reph,
                match_optional_seq(match_one(Class::Nukta), HalantTail),
            ),
        ).lemma_in_bounds(s, pos);
    }

    fn match_at(&self, cs: &[char], pos: usize) -> (r: Option<usize>) {
        match_nonempty(
            match_optional_seq(
                Reph,
                match_optional_seq(match_one(Class::Nukta), HalantTail),
            ),
        ).match_at(cs, pos)
    }
}

/// A candidate syllable of kind `k`, from a match length.
pub open spec fn candidate(len: Option<nat>, k: Syllable) -> Option<(nat, Syllable)> {
    match len {
        Some(n) => Some((n, k)),
        None => None,
    }
}

/// `a` unless `b` is strictly longer: the earlier candidate wins ties.
pub open spec fn prefer(a: Option<(nat, Syllable)>, b: Option<(nat, Syllable)>) -> Option<(nat, Syllable)> {
    match (a, b) {
        (Some(x), Some(y)) => if y.0 > x.0 { b } else { a },
        (None, _) => b,
        (Some(_), None) => a,
    }
}

/// The syllable at `pos`: the longest of the five kinds, the earliest kind on a tie.
pub open spec fn indic_syllable(s: Seq<char>, pos: int) -> Option<(nat, Syllable)> {
    prefer(
        prefer(
            prefer(
                prefer(
                    candidate(ConsonantSyllable.spec_match(s, pos), Syllable::Consonant),
                    candidate(VowelSyllable.spec_match(s, pos), Syllable::Vowel),
                ),
                candidate(StandaloneSyllable.spec_match(s, pos), Syllable::Standalone),
            ),
            candidate(SymbolSyllable.spec_match(s, pos), Syllable::Symbol),
        ),
        candidate(BrokenSyllable.spec_match(s, pos), Syllable::Broken),
    )
}

fn prefer_exec(a: Option<(usize, Syllable)>, b: Option<usize>, k: Syllable) -> (r: Option<(usize, Syllable)>)
    ensures
        lift_syllable(r) == prefer(lift_syllable(a), candidate(lift(b), k)),
{
    match (a, b) {
        (Some((x, ka)), Some(y)) => if y > x { Some((y, k)) } else { Some((x, ka)) },
        (None, Some(y)) => Some((y, k)),
        (_, None) => a,
    }
}

/// Recognises the syllable that starts at `pos`.
pub fn syllable_at(cs: &[char], pos: usize) -> (r: Option<(usize, Syllable)>)
    requires
        pos <= cs.len(),
    ensures
        lift_syllable(r) == indic_syllable(cs@, pos as int),
{
    let consonant = match ConsonantSyllable.match_at(cs, pos) {
        Some(n) => Some((n, Syllable::Consonant)),
        None => None,
    };
    let best = prefer_exec(consonant, VowelSyllable.match_at(cs, pos), Syllable::Vowel);
    let best = prefer_exec(best, StandaloneSyllable.match_at(cs, pos), Syllable::Standalone);
    let best = prefer_exec(best, SymbolSyllable.match_at(cs, pos), Syllable::Symbol);
    prefer_exec(best, BrokenSyllable.match_at(cs, pos), Syllable::Broken)
}

/// Recognises the syllable at the head of `cs`.
pub fn match_syllable(cs: &[char]) -> (r: Option<(usize, Syllable)>)
    ensures
        lift_syllable(r) == indic_syllable(cs@, 0),
{
    syllable_at(cs, 0)
}

proof fn lemma_consonant_nonempty(s: Seq<char>, pos: int)
    ensures
        at_least(ConsonantSyllable.spec_match(s, pos), 1),
{
    let last = match_seq(ConsonantNukta, FinalGroup);
    let body = match_repeat_upto(4, match_seq(ConsonantNukta, HalantGroup), last);
    assert forall|p: int| at_least(#[trigger] last.spec_match(s, p), 1) by {
        assert(at_least(ConsonantNukta.spec_match(s, p), 1));
    }
    assert forall|p: int| at_least(#[trigger] body.spec_match(s, p), 1) by {
        lemma_repeat_then_at_least(4, body.f, last, s, p, 1);
    }
    let lead = match_either(match_one(Class::Repha), match_one(Class::ConsonantWithStacker));
    assert(ConsonantSyllable.spec_match(s, pos) == match_optional_seq(lead, body).spec_match(s, pos));
}

proof fn lemma_others_nonempty(s: Seq<char>, pos: int)
    ensures
        at_least(VowelSyllable.spec_match(s, pos), 1),
        at_least(StandaloneSyllable.spec_match(s, pos), 1),
        at_least(SymbolSyllable.spec_match(s, pos), 1),
        at_least(BrokenSyllable.spec_match(s, pos), 1),
{
}

/// A recognised syllable consumes at least one character.
pub proof fn lemma_syllable_nonempty(s: Seq<char>, pos: int)
    ensures
        indic_syllable(s, pos) matches Some((n, _)) ==> n >= 1,
{
    lemma_consonant_nonempty(s, pos);
    lemma_others_nonempty(s, pos);
}

/// A recognised syllable never runs past the end of the input.
pub proof fn lemma_syllable_in_bounds(s: Seq<char>, pos: int)
    requires
        0 <= pos <= s.len(),
    ensures
        indic_syllable(s, pos) matches Some((n, _)) ==> pos + n <= s.len(),
{
    ConsonantSyllable.lemma_in_bounds(s, pos);
    VowelSyllable.lemma_in_bounds(s, pos);
    StandaloneSyllable.lemma_in_bounds(s, pos);
    SymbolSyllable.lemma_in_bounds(s, pos);
    BrokenSyllable.lemma_in_bounds(s, pos);
}

/// The match length of the syllable kind `k` at `pos`.
pub open spec fn alternative(k: Syllable, s: Seq<char>, pos: int) -> Option<nat> {
    match k {
        Syllable::Consonant => ConsonantSyllable.spec_match(s, pos),
        Syllable::Vowel => VowelSyllable.spec_match(s, pos),
        Syllable::Standalone => StandaloneSyllable.spec_match(s, pos),
        Syllable::Symbol => SymbolSyllable.spec_match(s, pos),
        Syllable::Broken => BrokenSyllable.spec_match(s, pos),
    }
}

/// The precedence of a syllable kind on a tie: lower comes first.
pub open spec fn rank(k: Syllable) -> nat {
    match k {
        Syllable::Consonant => 0,
        Syllable::Vowel => 1,
        Syllable::Standalone => 2,
        Syllable::Symbol => 3,
        Syllable::Broken => 4,
    }
}

/// Longest match at the syllable level: no syllable is found only when no
/// kind matches; otherwise the kind returned matches the returned length, no
/// kind matches more, and every kind of higher precedence matches less.
pub proof fn lemma_longest_syllable(s: Seq<char>, pos: int)
    ensures
        indic_syllable(s, pos) is None <==> forall|k: Syllable| #[trigger]
            alternative(k, s, pos) is None,
        indic_syllable(s, pos) matches Some((n, k)) ==> {
            &&& alternative(k, s, pos) == Some(n)
            &&& forall|k2: Syllable| at_most(#[trigger] alternative(k2, s, pos), n)
            &&& forall|k2: Syllable|
                rank(k2) < rank(k) ==> #[trigger] alternative(k2, s, pos) != Some(n)
        },
{
    if indic_syllable(s, pos) is None {
        assert forall|k: Syllable| #[trigger] alternative(k, s, pos) is None by {
            match k {
                Syllable::Consonant => {},
                Syllable::Vowel => {},
                Syllable::Standalone => {},
                Syllable::Symbol => {},
                Syllable::Broken => {},
            }
        }
    }
    if forall|k: Syllable| #[trigger] alternative(k, s, pos) is None {
        assert(alternative(Syllable::Consonant, s, pos) is None);
        assert(alternative(Syllable::Vowel, s, pos) is None);
        assert(alternative(Syllable::Standalone, s, pos) is None);
        assert(alternative(Syllable::Symbol, s, pos) is None);
        assert(alternative(Syllable::Broken, s, pos) is None);
    }
    if let Some((n, k)) = indic_syllable(s, pos) {
        assert forall|k2: Syllable| at_most(#[trigger] alternative(k2, s, pos), n) by {
            match k2 {
                Syllable::Consonant => {},
                Syllable::Vowel => {},
                Syllable::Standalone => {},
                Syllable::Symbol => {},
                Syllable::Broken => {},
            }
        }
        assert forall|k2: Syllable|
            rank(k2) < rank(k) implies #[trigger] alternative(k2, s, pos) != Some(n) by {
            match k2 {
                Syllable::Consonant => {},
                Syllable::Vowel => {},
                Syllable::Standalone => {},
                Syllable::Symbol => {},
                Syllable::Broken => {},
            }
        }
    }
}

/// Within the halant-or-matra group, _halant_ _zwnj_ is never given up for a
/// shorter alternative: where it is present the group matches at least both.
pub proof fn lemma_halant_zwnj_kept(s: Seq<char>, pos: int)
    requires
        0 <= pos,
        pos + 1 < s.len(),
        halant(s[pos]),
        zwnj(s[pos + 1]),
    ensures
        HalantOrMatraGroup.spec_match(s, pos) matches Some(n) && n >= 2,
{
}

} // verus!
