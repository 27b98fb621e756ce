//! The character property table of the Indic scripts.
//!
//! Every Unicode scalar value maps to a pair of an optional shaping class and
//! an optional mark placement. Code points outside the tabulated blocks, and
//! the unassigned positions inside them, map to `(None, None)`.
use vstd::prelude::*;

verus! {

/// The syntactic category of a code point in the Indic cluster grammar.
#[derive(Clone, Copy, Debug, PartialEq, Eq, Structural)]
pub enum ShapingClass {
    Bindu,
    Visarga,
    Avagraha,
    Nukta,
    Virama,
    Cantillation,
    GeminationMark,
    PureKiller,
    SyllableModifier,
    Consonant,
    VowelIndependent,
    VowelDependent,
    ConsonantDead,
    ConsonantMedial,
    ConsonantPlaceholder,
    ConsonantWithStacker,
    ConsonantPreRepha,
    ModifyingLetter,
    Placeholder,
    Number,
    Symbol,
    Joiner,
    NonJoiner,
    DottedCircle,
}

/// The side or sides of the base on which a combining mark is drawn.
#[derive(Clone, Copy, Debug, PartialEq, Eq, Structural)]
pub enum MarkPlacementSubclass {
    TopPosition,
    RightPosition,
    BottomPosition,
    LeftPosition,
    LeftAndRightPosition,
    TopAndRightPosition,
    TopAndLeftPosition,
    TopLeftAndRightPosition,
    TopAndBottomPosition,
    Overstruck,
}

/// The pair of properties the table gives a code point.
pub type CharProperty = (Option<ShapingClass>, Option<MarkPlacementSubclass>);

use ShapingClass as SC;
use MarkPlacementSubclass as MP;

/// The Devanagari rows of the Indic table, by code point.
pub open spec fn devanagari_block_property(cp: u32) -> CharProperty {
    if 0x0900 <= cp && cp <= 0x0902 {
        (Some(SC::Bindu), Some(MP::TopPosition))
    } else if cp == 0x0903 {
        (Some(SC::Visarga), Some(MP::RightPosition))
    } else if 0x0904 <= cp && cp <= 0x0914 {
        (Some(SC::VowelIndependent), None)
    } else if 0x0915 <= cp && cp <= 0x0939 {
        (Some(SC::Consonant), None)
    } else if cp == 0x093A {
        (Some(SC::VowelDependent), Some(MP::TopPosition))
    } else if cp == 0x093B {
        (Some(SC::VowelDependent), Some(MP::RightPosition))
    } else if cp == 0x093C {
        (Some(SC::Nukta), Some(MP::BottomPosition))
    } else if cp == 0x093D {
        (Some(SC::Avagraha), None)
    } else if cp == 0x093E {
        (Some(SC::VowelDependent), Some(MP::RightPosition))
    } else if cp == 0x093F {
        (Some(SC::VowelDependent), Some(MP::LeftPosition))
    } else if cp == 0x0940 {
        (Some(SC::VowelDependent), Some(MP::RightPosition))
    } else if 0x0941 <= cp && cp <= 0x0944 {
        (Some(SC::VowelDependent), Some(MP::BottomPosition))
    } else if 0x0945 <= cp && cp <= 0x0948 {
        (Some(SC::VowelDependent), Some(MP::TopPosition))
    } else if 0x0949 <= cp && cp <= 0x094C {
        (Some(SC::VowelDependent), Some(MP::RightPosition))
    } else if cp == 0x094D {
        (Some(SC::Virama), Some(MP::BottomPosition))
    } else if cp == 0x094E {
        (Some(SC::VowelDependent), Some(MP::LeftPosition))
    } else if cp == 0x094F {
        (Some(SC::VowelDependent), Some(MP::RightPosition))
    } else if cp == 0x0951 {
        (Some(SC::Cantillation), Some(MP::TopPosition))
    } else if cp == 0x0952 {
        (Some(SC::Cantillation), Some(MP::BottomPosition))
    } else if 0x0953 <= cp && cp <= 0x0954 {
        (None, Some(MP::TopPosition))
    } else if cp == 0x0955 {
        (Some(SC::VowelDependent), Some(MP::TopPosition))
    } else if 0x0956 <= cp && cp <= 0x0957 {
        (Some(SC::VowelDependent), Some(MP::BottomPosition))
    } else if 0x0958 <= cp && cp <= 0x095F {
        (Some(SC::Consonant), None)
    } else if 0x0960 <= cp && cp <= 0x0961 {
        (Some(SC::VowelIndependent), None)
    } else if 0x0962 <= cp && cp <= 0x0963 {
        (Some(SC::VowelDependent), Some(MP::BottomPosition))
    } else if 0x0966 <= cp && cp <= 0x096F {
        (Some(SC::Number), None)
    } else if 0x0972 <= cp && cp <= 0x0977 {
        (Some(SC::VowelIndependent), None)
    } else if 0x0978 <= cp && cp <= 0x097F {
        (Some(SC::Consonant), None)
    } else {
        (None, None)
    }
}

fn devanagari_block_character(cp: u32) -> (r: CharProperty)
    ensures
        r == devanagari_block_property(cp),
{
    if 0x0900 <= cp && cp <= 0x0902 {
        (Some(SC::Bindu), Some(MP::TopPosition))
    } else if cp == 0x0903 {
        (Some(SC::Visarga), Some(MP::RightPosition))
    } else if 0x0904 <= cp && cp <= 0x0914 {
        (Some(SC::VowelIndependent), None)
    } else if 0x0915 <= cp && cp <= 0x0939 {
        (Some(SC::Consonant), None)
    } else if cp == 0x093A {
        (Some(SC::VowelDependent), Some(MP::TopPosition))
    } else if cp == 0x093B {
        (Some(SC::VowelDependent), Some(MP::RightPosition))
    } else if cp == 0x093C {
        (Some(SC::Nukta), Some(MP::BottomPosition))
    } else if cp == 0x093D {
        (Some(SC::Avagraha), None)
    } else if cp == 0x093E {
        (Some(SC::VowelDependent), Some(MP::RightPosition))
    } else if cp == 0x093F {
        (Some(SC::VowelDependent), Some(MP::LeftPosition))
    } else if cp == 0x0940 {
        (Some(SC::VowelDependent), Some(MP::RightPosition))
    } else if 0x0941 <= cp && cp <= 0x0944 {
        (Some(SC::VowelDependent), Some(MP::BottomPosition))
    } else if 0x0945 <= cp && cp <= 0x0948 {
        (Some(SC::VowelDependent), Some(MP::TopPosition))
    } else if 0x0949 <= cp && cp <= 0x094C {
        (Some(SC::VowelDependent), Some(MP::RightPosition))
    } else if cp == 0x094D {
        (Some(SC::Virama), Some(MP::BottomPosition))
    } else if cp == 0x094E {
        (Some(SC::VowelDependent), Some(MP::LeftPosition))
    } else if cp == 0x094F {
        (Some(SC::VowelDependent), Some(MP::RightPosition))
    } else if cp == 0x0951 {
        (Some(SC::Cantillation), Some(MP::TopPosition))
    } else if cp == 0x0952 {
        (Some(SC::Cantillation), Some(MP::BottomPosition))
    } else if 0x0953 <= cp && cp <= 0x0954 {
        (None, Some(MP::TopPosition))
    } else if cp == 0x0955 {
        (Some(SC::VowelDependent), Some(MP::TopPosition))
    } else if 0x0956 <= cp && cp <= 0x0957 {
        (Some(SC::VowelDependent), Some(MP::BottomPosition))
    } else if 0x0958 <= cp && cp <= 0x095F {
        (Some(SC::Consonant), None)
    } else if 0x0960 <= cp && cp <= 0x0961 {
        (Some(SC::VowelIndependent), None)
    } else if 0x0962 <= cp && cp <= 0x0963 {
        (Some(SC::VowelDependent), Some(MP::BottomPosition))
    } else if 0x0966 <= cp && cp <= 0x096F {
        (Some(SC::Number), None)
    } else if 0x0972 <= cp && cp <= 0x0977 {
        (Some(SC::VowelIndependent), None)
    } else if 0x0978 <= cp && cp <= 0x097F {
        (Some(SC::Consonant), None)
    } else {
        (None, None)
    }
}

/// The Bengali rows of the Indic table, by code point.
pub open spec fn bengali_block_property(cp: u32) -> CharProperty {
    if cp == 0x0980 {
        (Some(SC::Placeholder), None)
    } else if cp == 0x0981 {
        (Some(SC::Bindu), Some(MP::TopPosition))
    } else if cp == 0x0982 {
        (Some(SC::Bindu), Some(MP::RightPosition))
    } else if cp == 0x0983 {
        (Some(SC::Visarga), Some(MP::RightPosition))
    } else if 0x0985 <= cp && cp <= 0x098C {
        (Some(SC::VowelIndependent), None)
    } else if 0x098F <= cp && cp <= 0x0990 {
        (Some(SC::VowelIndependent), None)
    } else if 0x0993 <= cp && cp <= 0x0994 {
        (Some(SC::VowelIndependent), None)
    } else if 0x0995 <= cp && cp <= 0x09A8 {
        (Some(SC::Consonant), None)
    } else if 0x09AA <= cp && cp <= 0x09B0 {
        (Some(SC::Consonant), None)
    } else if cp == 0x09B2 {
        (Some(SC::Consonant), None)
    } else if 0x09B6 <= cp && cp <= 0x09B9 {
        (Some(SC::Consonant), None)
    } else if cp == 0x09BC {
        (Some(SC::Nukta), Some(MP::BottomPosition))
    } else if cp == 0x09BD {
        (Some(SC::Avagraha), None)
    } else if cp == 0x09BE {
        (Some(SC::VowelDependent), Some(MP::RightPosition))
    } else if cp == 0x09BF {
        (Some(SC::VowelDependent), Some(MP::LeftPosition))
    } else if cp == 0x09C0 {
        (Some(SC::VowelDependent), Some(MP::RightPosition))
    } else if 0x09C1 <= cp && cp <= 0x09C4 {
        (Some(SC::VowelDependent), Some(MP::BottomPosition))
    } else if 0x09C7 <= cp && cp <= 0x09C8 {
        (Some(SC::VowelDependent), Some(MP::LeftPosition))
    } else if 0x09CB <= cp && cp <= 0x09CC {
        (Some(SC::VowelDependent), Some(MP::LeftAndRightPosition))
    } else if cp == 0x09CD {
        (Some(SC::Virama), Some(MP::BottomPosition))
    } else if cp == 0x09CE {
        (Some(SC::ConsonantDead), None)
    } else if cp == 0x09D7 {
        (Some(SC::VowelDependent), Some(MP::RightPosition))
    } else if 0x09DC <= cp && cp <= 0x09DD {
        (Some(SC::Consonant), None)
    } else if cp == 0x09DF {
        (Some(SC::Consonant), None)
    } else if 0x09E0 <= cp && cp <= 0x09E1 {
        (Some(SC::VowelIndependent), None)
    } else if 0x09E2 <= cp && cp <= 0x09E3 {
        (Some(SC::VowelDependent), Some(MP::BottomPosition))
    } else if 0x09E6 <= cp && cp <= 0x09EF {
        (Some(SC::Number), None)
    } else if 0x09F0 <= cp && cp <= 0x09F1 {
        (Some(SC::Consonant), None)
    } else if 0x09F2 <= cp && cp <= 0x09F3 {
        (Some(SC::Symbol), None)
    } else if 0x09F4 <= cp && cp <= 0x09F9 {
        (Some(SC::Number), None)
    } else if 0x09FA <= cp && cp <= 0x09FB {
        (Some(SC::Symbol), None)
    } else if cp == 0x09FE {
        (Some(SC::SyllableModifier), Some(MP::TopPosition))
    } else {
        (None, None)
    }
}

fn bengali_block_character(cp: u32) -> (r: CharProperty)
    ensures
        r == bengali_block_property(cp),
{
    if cp == 0x0980 {
        (Some(SC::Placeholder), None)
    } else if cp == 0x0981 {
        (Some(SC::Bindu), Some(MP::TopPosition))
    } else if cp == 0x0982 {
        (Some(SC::Bindu), Some(MP::RightPosition))
    } else if cp == 0x0983 {
        (Some(SC::Visarga), Some(MP::RightPosition))
    } else if 0x0985 <= cp && cp <= 0x098C {
        (Some(SC::VowelIndependent), None)
    } else if 0x098F <= cp && cp <= 0x0990 {
        (Some(SC::VowelIndependent), None)
    } else if 0x0993 <= cp && cp <= 0x0994 {
        (Some(SC::VowelIndependent), None)
    } else if 0x0995 <= cp && cp <= 0x09A8 {
        (Some(SC::Consonant), None)
    } else if 0x09AA <= cp && cp <= 0x09B0 {
        (Some(SC::Consonant), None)
    } else if cp == 0x09B2 {
        (Some(SC::Consonant), None)
    } else if 0x09B6 <= cp && cp <= 0x09B9 {
        (Some(SC::Consonant), None)
    } else if cp == 0x09BC {
        (Some(SC::Nukta), Some(MP::BottomPosition))
    } else if cp == 0x09BD {
        (Some(SC::Avagraha), None)
    } else if cp == 0x09BE {
        (Some(SC::VowelDependent), Some(MP::RightPosition))
    } else if cp == 0x09BF {
        (Some(SC::VowelDependent), Some(MP::LeftPosition))
    } else if cp == 0x09C0 {
        (Some(SC::VowelDependent), Some(MP::RightPosition))
    } else if 0x09C1 <= cp && cp <= 0x09C4 {
        (Some(SC::VowelDependent), Some(MP::BottomPosition))
    } else if 0x09C7 <= cp && cp <= 0x09C8 {
        (Some(SC::VowelDependent), Some(MP::LeftPosition))
    } else if 0x09CB <= cp && cp <= 0x09CC {
        (Some(SC::VowelDependent), Some(MP::LeftAndRightPosition))
    } else if cp == 0x09CD {
        (Some(SC::Virama), Some(MP::BottomPosition))
    } else if cp == 0x09CE {
        (Some(SC::ConsonantDead), None)
    } else if cp == 0x09D7 {
        (Some(SC::VowelDependent), Some(MP::RightPosition))
    } else if 0x09DC <= cp && cp <= 0x09DD {
        (Some(SC::Consonant), None)
    } else if cp == 0x09DF {
        (Some(SC::Consonant), None)
    } else if 0x09E0 <= cp && cp <= 0x09E1 {
        (Some(SC::VowelIndependent), None)
    } else if 0x09E2 <= cp && cp <= 0x09E3 {
        (Some(SC::VowelDependent), Some(MP::BottomPosition))
    } else if 0x09E6 <= cp && cp <= 0x09EF {
        (Some(SC::Number), None)
    } else if 0x09F0 <= cp && cp <= 0x09F1 {
        (Some(SC::Consonant), None)
    } else if 0x09F2 <= cp && cp <= 0x09F3 {
        (Some(SC::Symbol), None)
    } else if 0x09F4 <= cp && cp <= 0x09F9 {
        (Some(SC::Number), None)
    } else if 0x09FA <= cp && cp <= 0x09FB {
        (Some(SC::Symbol), None)
    } else if cp == 0x09FE {
        (Some(SC::SyllableModifier), Some(MP::TopPosition))
    } else {
        (None, None)
    }
}

/// The Gurmukhi rows of the Indic table, by code point.
pub open spec fn gurmukhi_block_property(cp: u32) -> CharProperty {
    if 0x0A01 <= cp && cp <= 0x0A02 {
        (Some(SC::Bindu), Some(MP::TopPosition))
    } else if cp == 0x0A03 {
        (Some(SC::Visarga), Some(MP::RightPosition))
    } else if 0x0A05 <= cp && cp <= 0x0A0A {
        (Some(SC::VowelIndependent), None)
    } else if 0x0A0F <= cp && cp <= 0x0A10 {
        (Some(SC::VowelIndependent), None)
    } else if 0x0A13 <= cp && cp <= 0x0A14 {
        (Some(SC::VowelIndependent), None)
    } else if 0x0A15 <= cp && cp <= 0x0A28 {
        (Some(SC::Consonant), None)
    } else if 0x0A2A <= cp && cp <= 0x0A30 {
        (Some(SC::Consonant), None)
    } else if 0x0A32 <= cp && cp <= 0x0A33 {
        (Some(SC::Consonant), None)
    } else if 0x0A35 <= cp && cp <= 0x0A36 {
        (Some(SC::Consonant), None)
    } else if 0x0A38 <= cp && cp <= 0x0A39 {
        (Some(SC::Consonant), None)
    } else if cp == 0x0A3C {
        (Some(SC::Nukta), Some(MP::BottomPosition))
    } else if cp == 0x0A3E {
        (Some(SC::VowelDependent), Some(MP::RightPosition))
    } else if cp == 0x0A3F {
        (Some(SC::VowelDependent), Some(MP::LeftPosition))
    } else if cp == 0x0A40 {
        (Some(SC::VowelDependent), Some(MP::RightPosition))
    } else if 0x0A41 <= cp && cp <= 0x0A42 {
        (Some(SC::VowelDependent), Some(MP::BottomPosition))
    } else if 0x0A47 <= cp && cp <= 0x0A48 {
        (Some(SC::VowelDependent), Some(MP::TopPosition))
    } else if 0x0A4B <= cp && cp <= 0x0A4C {
        (Some(SC::VowelDependent), Some(MP::TopPosition))
    } else if cp == 0x0A4D {
        (Some(SC::Virama), Some(MP::BottomPosition))
    } else if 0x0A59 <= cp && cp <= 0x0A5C {
        (Some(SC::Consonant), None)
    } else if cp == 0x0A5E {
        (Some(SC::Consonant), None)
    } else if 0x0A66 <= cp && cp <= 0x0A6F {
        (Some(SC::Number), None)
    } else if cp == 0x0A70 {
        (Some(SC::Bindu), Some(MP::TopPosition))
    } else if cp == 0x0A71 {
        (Some(SC::GeminationMark), Some(MP::TopPosition))
    } else if 0x0A72 <= cp && cp <= 0x0A73 {
        (Some(SC::ConsonantPlaceholder), None)
    } else if cp == 0x0A75 {
        (Some(SC::ConsonantMedial), Some(MP::BottomPosition))
    } else {
        (None, None)
    }
}

fn gurmukhi_block_character(cp: u32) -> (r: CharProperty)
    ensures
        r == gurmukhi_block_property(cp),
{
    if 0x0A01 <= cp && cp <= 0x0A02 {
        (Some(SC::Bindu), Some(MP::TopPosition))
    } else if cp == 0x0A03 {
        (Some(SC::Visarga), Some(MP::RightPosition))
    } else if 0x0A05 <= cp && cp <= 0x0A0A {
        (Some(SC::VowelIndependent), None)
    } else if 0x0A0F <= cp && cp <= 0x0A10 {
        (Some(SC::VowelIndependent), None)
    } else if 0x0A13 <= cp && cp <= 0x0A14 {
        (Some(SC::VowelIndependent), None)
    } else if 0x0A15 <= cp && cp <= 0x0A28 {
        (Some(SC::Consonant), None)
    } else if 0x0A2A <= cp && cp <= 0x0A30 {
        (Some(SC::Consonant), None)
    } else if 0x0A32 <= cp && cp <= 0x0A33 {
        (Some(SC::Consonant), None)
    } else if 0x0A35 <= cp && cp <= 0x0A36 {
        (Some(SC::Consonant), None)
    } else if 0x0A38 <= cp && cp <= 0x0A39 {
        (Some(SC::Consonant), None)
    } else if cp == 0x0A3C {
        (Some(SC::Nukta), Some(MP::BottomPosition))
    } else if cp == 0x0A3E {
        (Some(SC::VowelDependent), Some(MP::RightPosition))
    } else if cp == 0x0A3F {
        (Some(SC::VowelDependent), Some(MP::LeftPosition))
    } else if cp == 0x0A40 {
        (Some(SC::VowelDependent), Some(MP::RightPosition))
    } else if 0x0A41 <= cp && cp <= 0x0A42 {
        (Some(SC::VowelDependent), Some(MP::BottomPosition))
    } else if 0x0A47 <= cp && cp <= 0x0A48 {
        (Some(SC::VowelDependent), Some(MP::TopPosition))
    } else if 0x0A4B <= cp && cp <= 0x0A4C {
        (Some(SC::VowelDependent), Some(MP::TopPosition))
    } else if cp == 0x0A4D {
        (Some(SC::Virama), Some(MP::BottomPosition))
    } else if 0x0A59 <= cp && cp <= 0x0A5C {
        (Some(SC::Consonant), None)
    } else if cp == 0x0A5E {
        (Some(SC::Consonant), None)
    } else if 0x0A66 <= cp && cp <= 0x0A6F {
        (Some(SC::Number), None)
    } else if cp == 0x0A70 {
        (Some(SC::Bindu), Some(MP::TopPosition))
    } else if cp == 0x0A71 {
        (Some(SC::GeminationMark), Some(MP::TopPosition))
    } else if 0x0A72 <= cp && cp <= 0x0A73 {
        (Some(SC::ConsonantPlaceholder), None)
    } else if cp == 0x0A75 {
        (Some(SC::ConsonantMedial), Some(MP::BottomPosition))
    } else {
        (None, None)
    }
}

/// The Gujarati rows of the Indic table, by code point.
pub open spec fn gujarati_block_property(cp: u32) -> CharProperty {
    if 0x0A81 <= cp && cp <= 0x0A82 {
        (Some(SC::Bindu), Some(MP::TopPosition))
    } else if cp == 0x0A83 {
        (Some(SC::Visarga), Some(MP::RightPosition))
    } else if 0x0A85 <= cp && cp <= 0x0A8D {
        (Some(SC::VowelIndependent), None)
    } else if 0x0A8F <= cp && cp <= 0x0A91 {
        (Some(SC::VowelIndependent), None)
    } else if 0x0A93 <= cp && cp <= 0x0A94 {
        (Some(SC::VowelIndependent), None)
    } else if 0x0A95 <= cp && cp <= 0x0AA8 {
        (Some(SC::Consonant), None)
    } else if 0x0AAA <= cp && cp <= 0x0AB0 {
        (Some(SC::Consonant), None)
    } else if 0x0AB2 <= cp && cp <= 0x0AB3 {
        (Some(SC::Consonant), None)
    } else if 0x0AB5 <= cp && cp <= 0x0AB9 {
        (Some(SC::Consonant), None)
    } else if cp == 0x0ABC {
        (Some(SC::Nukta), Some(MP::BottomPosition))
    } else if cp == 0x0ABD {
        (Some(SC::Avagraha), None)
    } else if cp == 0x0ABE {
        (Some(SC::VowelDependent), Some(MP::RightPosition))
    } else if cp == 0x0ABF {
        (Some(SC::VowelDependent), Some(MP::LeftPosition))
    } else if cp == 0x0AC0 {
        (Some(SC::VowelDependent), Some(MP::RightPosition))
    } else if 0x0AC1 <= cp && cp <= 0x0AC4 {
        (Some(SC::VowelDependent), Some(MP::BottomPosition))
    } else if cp == 0x0AC5 {
        (Some(SC::VowelDependent), Some(MP::TopPosition))
    } else if 0x0AC7 <= cp && cp <= 0x0AC8 {
        (Some(SC::VowelDependent), Some(MP::TopPosition))
    } else if cp == 0x0AC9 {
        (Some(SC::VowelDependent), Some(MP::TopAndRightPosition))
    } else if 0x0ACB <= cp && cp <= 0x0ACC {
        (Some(SC::VowelDependent), Some(MP::RightPosition))
    } else if cp == 0x0ACD {
        (Some(SC::Virama), Some(MP::BottomPosition))
    } else if 0x0AE0 <= cp && cp <= 0x0AE1 {
        (Some(SC::VowelIndependent), None)
    } else if 0x0AE2 <= cp && cp <= 0x0AE3 {
        (Some(SC::VowelDependent), Some(MP::BottomPosition))
    } else if 0x0AE6 <= cp && cp <= 0x0AEF {
        (Some(SC::Number), None)
    } else if 0x0AF0 <= cp && cp <= 0x0AF1 {
        (Some(SC::Symbol), None)
    } else if cp == 0x0AF9 {
        (Some(SC::Consonant), None)
    } else if 0x0AFA <= cp && cp <= 0x0AFC {
        (Some(SC::Cantillation), Some(MP::TopPosition))
    } else if 0x0AFD <= cp && cp <= 0x0AFF {
        (Some(SC::Nukta), Some(MP::TopPosition))
    } else {
        (None, None)
    }
}

fn gujarati_block_character(cp: u32) -> (r: CharProperty)
    ensures
        r == gujarati_block_property(cp),
{
    if 0x0A81 <= cp && cp <= 0x0A82 {
        (Some(SC::Bindu), Some(MP::TopPosition))
    } else if cp == 0x0A83 {
        (Some(SC::Visarga), Some(MP::RightPosition))
    } else if 0x0A85 <= cp && cp <= 0x0A8D {
        (Some(SC::VowelIndependent), None)
    } else if 0x0A8F <= cp && cp <= 0x0A91 {
        (Some(SC::VowelIndependent), None)
    } else if 0x0A93 <= cp && cp <= 0x0A94 {
        (Some(SC::VowelIndependent), None)
    } else if 0x0A95 <= cp && cp <= 0x0AA8 {
        (Some(SC::Consonant), None)
    } else if 0x0AAA <= cp && cp <= 0x0AB0 {
        (Some(SC::Consonant), None)
    } else if 0x0AB2 <= cp && cp <= 0x0AB3 {
        (Some(SC::Consonant), None)
    } else if 0x0AB5 <= cp && cp <= 0x0AB9 {
        (Some(SC::Consonant), None)
    } else if cp == 0x0ABC {
        (Some(SC::Nukta), Some(MP::BottomPosition))
    } else if cp == 0x0ABD {
        (Some(SC::Avagraha), None)
    } else if cp == 0x0ABE {
        (Some(SC::VowelDependent), Some(MP::RightPosition))
    } else if cp == 0x0ABF {
        (Some(SC::VowelDependent), Some(MP::LeftPosition))
    } else if cp == 0x0AC0 {
        (Some(SC::VowelDependent), Some(MP::RightPosition))
    } else if 0x0AC1 <= cp && cp <= 0x0AC4 {
        (Some(SC::VowelDependent), Some(MP::BottomPosition))
    } else if cp == 0x0AC5 {
        (Some(SC::VowelDependent), Some(MP::TopPosition))
    } else if 0x0AC7 <= cp && cp <= 0x0AC8 {
        (Some(SC::VowelDependent), Some(MP::TopPosition))
    } else if cp == 0x0AC9 {
        (Some(SC::VowelDependent), Some(MP::TopAndRightPosition))
    } else if 0x0ACB <= cp && cp <= 0x0ACC {
        (Some(SC::VowelDependent), Some(MP::RightPosition))
    } else if cp == 0x0ACD {
        (Some(SC::Virama), Some(MP::BottomPosition))
    } else if 0x0AE0 <= cp && cp <= 0x0AE1 {
        (Some(SC::VowelIndependent), None)
    } else if 0x0AE2 <= cp && cp <= 0x0AE3 {
        (Some(SC::VowelDependent), Some(MP::BottomPosition))
    } else if 0x0AE6 <= cp && cp <= 0x0AEF {
        (Some(SC::Number), None)
    } else if 0x0AF0 <= cp && cp <= 0x0AF1 {
        (Some(SC::Symbol), None)
    } else if cp == 0x0AF9 {
        (Some(SC::Consonant), None)
    } else if 0x0AFA <= cp && cp <= 0x0AFC {
        (Some(SC::Cantillation), Some(MP::TopPosition))
    } else if 0x0AFD <= cp && cp <= 0x0AFF {
        (Some(SC::Nukta), Some(MP::TopPosition))
    } else {
        (None, None)
    }
}

/// The Oriya rows of the Indic table, by code point.
pub open spec fn oriya_block_property(cp: u32) -> CharProperty {
    if cp == 0x0B01 {
        (Some(SC::Bindu), Some(MP::TopPosition))
    } else if cp == 0x0B02 {
        (Some(SC::Bindu), Some(MP::RightPosition))
    } else if cp == 0x0B03 {
        (Some(SC::Visarga), Some(MP::RightPosition))
    } else if 0x0B05 <= cp && cp <= 0x0B0C {
        (Some(SC::VowelIndependent), None)
    } else if 0x0B0F <= cp && cp <= 0x0B10 {
        (Some(SC::VowelIndependent), None)
    } else if 0x0B13 <= cp && cp <= 0x0B14 {
        (Some(SC::VowelIndependent), None)
    } else if 0x0B15 <= cp && cp <= 0x0B28 {
        (Some(SC::Consonant), None)
    } else if 0x0B2A <= cp && cp <= 0x0B30 {
        (Some(SC::Consonant), None)
    } else if 0x0B32 <= cp && cp <= 0x0B33 {
        (Some(SC::Consonant), None)
    } else if 0x0B35 <= cp && cp <= 0x0B39 {
        (Some(SC::Consonant), None)
    } else if cp == 0x0B3C {
        (Some(SC::Nukta), Some(MP::BottomPosition))
    } else if cp == 0x0B3D {
        (Some(SC::Avagraha), None)
    } else if cp == 0x0B3E {
        (Some(SC::VowelDependent), Some(MP::RightPosition))
    } else if cp == 0x0B3F {
        (Some(SC::VowelDependent), Some(MP::TopPosition))
    } else if cp == 0x0B40 {
        (Some(SC::VowelDependent), Some(MP::RightPosition))
    } else if 0x0B41 <= cp && cp <= 0x0B44 {
        (Some(SC::VowelDependent), Some(MP::BottomPosition))
    } else if cp == 0x0B47 {
        (Some(SC::VowelDependent), Some(MP::LeftPosition))
    } else if cp == 0x0B48 {
        (Some(SC::VowelDependent), Some(MP::TopAndLeftPosition))
    } else if cp == 0x0B4B {
        (Some(SC::VowelDependent), Some(MP::LeftAndRightPosition))
    } else if cp == 0x0B4C {
        (Some(SC::VowelDependent), Some(MP::TopLeftAndRightPosition))
    } else if cp == 0x0B4D {
        (Some(SC::Virama), Some(MP::BottomPosition))
    } else if cp == 0x0B56 {
        (Some(SC::VowelDependent), Some(MP::TopPosition))
    } else if cp == 0x0B57 {
        (Some(SC::VowelDependent), Some(MP::TopAndRightPosition))
    } else if 0x0B5C <= cp && cp <= 0x0B5D {
        (Some(SC::Consonant), None)
    } else if cp == 0x0B5F {
        (Some(SC::Consonant), None)
    } else if 0x0B60 <= cp && cp <= 0x0B61 {
        (Some(SC::VowelIndependent), None)
    } else if 0x0B62 <= cp && cp <= 0x0B63 {
        (Some(SC::VowelDependent), Some(MP::BottomPosition))
    } else if 0x0B66 <= cp && cp <= 0x0B6F {
        (Some(SC::Number), None)
    } else if cp == 0x0B70 {
        (Some(SC::Symbol), None)
    } else if cp == 0x0B71 {
        (Some(SC::Consonant), None)
    } else if 0x0B72 <= cp && cp <= 0x0B77 {
        (Some(SC::Number), None)
    } else {
        (None, None)
    }
}

fn oriya_block_character(cp: u32) -> (r: CharProperty)
    ensures
        r == oriya_block_property(cp),
{
    if cp == 0x0B01 {
        (Some(SC::Bindu), Some(MP::TopPosition))
    } else if cp == 0x0B02 {
        (Some(SC::Bindu), Some(MP::RightPosition))
    } else if cp == 0x0B03 {
        (Some(SC::Visarga), Some(MP::RightPosition))
    } else if 0x0B05 <= cp && cp <= 0x0B0C {
        (Some(SC::VowelIndependent), None)
    } else if 0x0B0F <= cp && cp <= 0x0B10 {
        (Some(SC::VowelIndependent), None)
    } else if 0x0B13 <= cp && cp <= 0x0B14 {
        (Some(SC::VowelIndependent), None)
    } else if 0x0B15 <= cp && cp <= 0x0B28 {
        (Some(SC::Consonant), None)
    } else if 0x0B2A <= cp && cp <= 0x0B30 {
        (Some(SC::Consonant), None)
    } else if 0x0B32 <= cp && cp <= 0x0B33 {
        (Some(SC::Consonant), None)
    } else if 0x0B35 <= cp && cp <= 0x0B39 {
        (Some(SC::Consonant), None)
    } else if cp == 0x0B3C {
        (Some(SC::Nukta), Some(MP::BottomPosition))
    } else if cp == 0x0B3D {
        (Some(SC::Avagraha), None)
    } else if cp == 0x0B3E {
        (Some(SC::VowelDependent), Some(MP::RightPosition))
    } else if cp == 0x0B3F {
        (Some(SC::VowelDependent), Some(MP::TopPosition))
    } else if cp == 0x0B40 {
        (Some(SC::VowelDependent), Some(MP::RightPosition))
    } else if 0x0B41 <= cp && cp <= 0x0B44 {
        (Some(SC::VowelDependent), Some(MP::BottomPosition))
    } else if cp == 0x0B47 {
        (Some(SC::VowelDependent), Some(MP::LeftPosition))
    } else if cp == 0x0B48 {
        (Some(SC::VowelDependent), Some(MP::TopAndLeftPosition))
    } else if cp == 0x0B4B {
        (Some(SC::VowelDependent), Some(MP::LeftAndRightPosition))
    } else if cp == 0x0B4C {
        (Some(SC::VowelDependent), Some(MP::TopLeftAndRightPosition))
    } else if cp == 0x0B4D {
        (Some(SC::Virama), Some(MP::BottomPosition))
    } else if cp == 0x0B56 {
        (Some(SC::VowelDependent), Some(MP::TopPosition))
    } else if cp == 0x0B57 {
        (Some(SC::VowelDependent), Some(MP::TopAndRightPosition))
    } else if 0x0B5C <= cp && cp <= 0x0B5D {
        (Some(SC::Consonant), None)
    } else if cp == 0x0B5F {
        (Some(SC::Consonant), None)
    } else if 0x0B60 <= cp && cp <= 0x0B61 {
        (Some(SC::VowelIndependent), None)
    } else if 0x0B62 <= cp && cp <= 0x0B63 {
        (Some(SC::VowelDependent), Some(MP::BottomPosition))
    } else if 0x0B66 <= cp && cp <= 0x0B6F {
        (Some(SC::Number), None)
    } else if cp == 0x0B70 {
        (Some(SC::Symbol), None)
    } else if cp == 0x0B71 {
        (Some(SC::Consonant), None)
    } else if 0x0B72 <= cp && cp <= 0x0B77 {
        (Some(SC::Number), None)
    } else {
        (None, None)
    }
}

/// The Tamil rows of the Indic table, by code point.
pub open spec fn tamil_block_property(cp: u32) -> CharProperty {
    if cp == 0x0B82 {
        (Some(SC::Bindu), Some(MP::TopPosition))
    } else if cp == 0x0B83 {
        (Some(SC::ModifyingLetter), None)
    } else if 0x0B85 <= cp && cp <= 0x0B8A {
        (Some(SC::VowelIndependent), None)
    } else if 0x0B8E <= cp && cp <= 0x0B90 {
        (Some(SC::VowelIndependent), None)
    } else if 0x0B92 <= cp && cp <= 0x0B94 {
        (Some(SC::VowelIndependent), None)
    } else if cp == 0x0B95 {
        (Some(SC::Consonant), None)
    } else if 0x0B99 <= cp && cp <= 0x0B9A {
        (Some(SC::Consonant), None)
    } else if cp == 0x0B9C {
        (Some(SC::Consonant), None)
    } else if 0x0B9E <= cp && cp <= 0x0B9F {
        (Some(SC::Consonant), None)
    } else if 0x0BA3 <= cp && cp <= 0x0BA4 {
        (Some(SC::Consonant), None)
    } else if 0x0BA8 <= cp && cp <= 0x0BAA {
        (Some(SC::Consonant), None)
    } else if 0x0BAE <= cp && cp <= 0x0BB9 {
        (Some(SC::Consonant), None)
    } else if 0x0BBE <= cp && cp <= 0x0BBF {
        (Some(SC::VowelDependent), Some(MP::RightPosition))
    } else if cp == 0x0BC0 {
        (Some(SC::VowelDependent), Some(MP::TopPosition))
    } else if 0x0BC1 <= cp && cp <= 0x0BC2 {
        (Some(SC::VowelDependent), Some(MP::RightPosition))
    } else if 0x0BC6 <= cp && cp <= 0x0BC8 {
        (Some(SC::VowelDependent), Some(MP::LeftPosition))
    } else if 0x0BCA <= cp && cp <= 0x0BCC {
        (Some(SC::VowelDependent), Some(MP::LeftAndRightPosition))
    } else if cp == 0x0BCD {
        (Some(SC::Virama), Some(MP::TopPosition))
    } else if cp == 0x0BD7 {
        (Some(SC::VowelDependent), Some(MP::RightPosition))
    } else if 0x0BE6 <= cp && cp <= 0x0BF2 {
        (Some(SC::Number), None)
    } else if 0x0BF3 <= cp && cp <= 0x0BFA {
        (Some(SC::Symbol), None)
    } else {
        (None, None)
    }
}

fn tamil_block_character(cp: u32) -> (r: CharProperty)
    ensures
        r == tamil_block_property(cp),
{
    if cp == 0x0B82 {
        (Some(SC::Bindu), Some(MP::TopPosition))
    } else if cp == 0x0B83 {
        (Some(SC::ModifyingLetter), None)
    } else if 0x0B85 <= cp && cp <= 0x0B8A {
        (Some(SC::VowelIndependent), None)
    } else if 0x0B8E <= cp && cp <= 0x0B90 {
        (Some(SC::VowelIndependent), None)
    } else if 0x0B92 <= cp && cp <= 0x0B94 {
        (Some(SC::VowelIndependent), None)
    } else if cp == 0x0B95 {
        (Some(SC::Consonant), None)
    } else if 0x0B99 <= cp && cp <= 0x0B9A {
        (Some(SC::Consonant), None)
    } else if cp == 0x0B9C {
        (Some(SC::Consonant), None)
    } else if 0x0B9E <= cp && cp <= 0x0B9F {
        (Some(SC::Consonant), None)
    } else if 0x0BA3 <= cp && cp <= 0x0BA4 {
        (Some(SC::Consonant), None)
    } else if 0x0BA8 <= cp && cp <= 0x0BAA {
        (Some(SC::Consonant), None)
    } else if 0x0BAE <= cp && cp <= 0x0BB9 {
        (Some(SC::Consonant), None)
    } else if 0x0BBE <= cp && cp <= 0x0BBF {
        (Some(SC::VowelDependent), Some(MP::RightPosition))
    } else if cp == 0x0BC0 {
        (Some(SC::VowelDependent), Some(MP::TopPosition))
    } else if 0x0BC1 <= cp && cp <= 0x0BC2 {
        (Some(SC::VowelDependent), Some(MP::RightPosition))
    } else if 0x0BC6 <= cp && cp <= 0x0BC8 {
        (Some(SC::VowelDependent), Some(MP::LeftPosition))
    } else if 0x0BCA <= cp && cp <= 0x0BCC {
        (Some(SC::VowelDependent), Some(MP::LeftAndRightPosition))
    } else if cp == 0x0BCD {
        (Some(SC::Virama), Some(MP::TopPosition))
    } else if cp == 0x0BD7 {
        (Some(SC::VowelDependent), Some(MP::RightPosition))
    } else if 0x0BE6 <= cp && cp <= 0x0BF2 {
        (Some(SC::Number), None)
    } else if 0x0BF3 <= cp && cp <= 0x0BFA {
        (Some(SC::Symbol), None)
    } else {
        (None, None)
    }
}

/// The Telugu rows of the Indic table, by code point.
pub open spec fn telugu_block_property(cp: u32) -> CharProperty {
    if cp == 0x0C00 {
        (Some(SC::Bindu), Some(MP::TopPosition))
    } else if 0x0C01 <= cp && cp <= 0x0C02 {
        (Some(SC::Bindu), Some(MP::RightPosition))
    } else if cp == 0x0C03 {
        (Some(SC::Visarga), Some(MP::RightPosition))
    } else if cp == 0x0C04 {
        (Some(SC::Bindu), Some(MP::TopPosition))
    } else if 0x0C05 <= cp && cp <= 0x0C0C {
        (Some(SC::VowelIndependent), None)
    } else if 0x0C0E <= cp && cp <= 0x0C10 {
        (Some(SC::VowelIndependent), None)
    } else if 0x0C12 <= cp && cp <= 0x0C14 {
        (Some(SC::VowelIndependent), None)
    } else if 0x0C15 <= cp && cp <= 0x0C28 {
        (Some(SC::Consonant), None)
    } else if 0x0C2A <= cp && cp <= 0x0C39 {
        (Some(SC::Consonant), None)
    } else if cp == 0x0C3D {
        (Some(SC::Avagraha), None)
    } else if 0x0C3E <= cp && cp <= 0x0C40 {
        (Some(SC::VowelDependent), Some(MP::TopPosition))
    } else if 0x0C41 <= cp && cp <= 0x0C44 {
        (Some(SC::VowelDependent), Some(MP::RightPosition))
    } else if 0x0C46 <= cp && cp <= 0x0C47 {
        (Some(SC::VowelDependent), Some(MP::TopPosition))
    } else if cp == 0x0C48 {
        (Some(SC::VowelDependent), Some(MP::TopAndBottomPosition))
    } else if 0x0C4A <= cp && cp <= 0x0C4C {
        (Some(SC::VowelDependent), Some(MP::TopPosition))
    } else if cp == 0x0C4D {
        (Some(SC::Virama), Some(MP::TopPosition))
    } else if cp == 0x0C55 {
        (Some(SC::VowelDependent), Some(MP::TopPosition))
    } else if cp == 0x0C56 {
        (Some(SC::VowelDependent), Some(MP::BottomPosition))
    } else if 0x0C58 <= cp && cp <= 0x0C5A {
        (Some(SC::Consonant), None)
    } else if 0x0C60 <= cp && cp <= 0x0C61 {
        (Some(SC::VowelIndependent), None)
    } else if 0x0C62 <= cp && cp <= 0x0C63 {
        (Some(SC::VowelDependent), Some(MP::BottomPosition))
    } else if 0x0C66 <= cp && cp <= 0x0C6F {
        (Some(SC::Number), None)
    } else if 0x0C78 <= cp && cp <= 0x0C7E {
        (Some(SC::Number), None)
    } else if cp == 0x0C7F {
        (Some(SC::Symbol), None)
    } else {
        (None, None)
    }
}

fn telugu_block_character(cp: u32) -> (r: CharProperty)
    ensures
        r == telugu_block_property(cp),
{
    if cp == 0x0C00 {
        (Some(SC::Bindu), Some(MP::TopPosition))
    } else if 0x0C01 <= cp && cp <= 0x0C02 {
        (Some(SC::Bindu), Some(MP::RightPosition))
    } else if cp == 0x0C03 {
        (Some(SC::Visarga), Some(MP::RightPosition))
    } else if cp == 0x0C04 {
        (Some(SC::Bindu), Some(MP::TopPosition))
    } else if 0x0C05 <= cp && cp <= 0x0C0C {
        (Some(SC::VowelIndependent), None)
    } else if 0x0C0E <= cp && cp <= 0x0C10 {
        (Some(SC::VowelIndependent), None)
    } else if 0x0C12 <= cp && cp <= 0x0C14 {
        (Some(SC::VowelIndependent), None)
    } else if 0x0C15 <= cp && cp <= 0x0C28 {
        (Some(SC::Consonant), None)
    } else if 0x0C2A <= cp && cp <= 0x0C39 {
        (Some(SC::Consonant), None)
    } else if cp == 0x0C3D {
        (Some(SC::Avagraha), None)
    } else if 0x0C3E <= cp && cp <= 0x0C40 {
        (Some(SC::VowelDependent), Some(MP::TopPosition))
    } else if 0x0C41 <= cp && cp <= 0x0C44 {
        (Some(SC::VowelDependent), Some(MP::RightPosition))
    } else if 0x0C46 <= cp && cp <= 0x0C47 {
        (Some(SC::VowelDependent), Some(MP::TopPosition))
    } else if cp == 0x0C48 {
        (Some(SC::VowelDependent), Some(MP::TopAndBottomPosition))
    } else if 0x0C4A <= cp && cp <= 0x0C4C {
        (Some(SC::VowelDependent), Some(MP::TopPosition))
    } else if cp == 0x0C4D {
        (Some(SC::Virama), Some(MP::TopPosition))
    } else if cp == 0x0C55 {
        (Some(SC::VowelDependent), Some(MP::TopPosition))
    } else if cp == 0x0C56 {
        (Some(SC::VowelDependent), Some(MP::BottomPosition))
    } else if 0x0C58 <= cp && cp <= 0x0C5A {
        (Some(SC::Consonant), None)
    } else if 0x0C60 <= cp && cp <= 0x0C61 {
        (Some(SC::VowelIndependent), None)
    } else if 0x0C62 <= cp && cp <= 0x0C63 {
        (Some(SC::VowelDependent), Some(MP::BottomPosition))
    } else if 0x0C66 <= cp && cp <= 0x0C6F {
        (Some(SC::Number), None)
    } else if 0x0C78 <= cp && cp <= 0x0C7E {
        (Some(SC::Number), None)
    } else if cp == 0x0C7F {
        (Some(SC::Symbol), None)
    } else {
        (None, None)
    }
}

/// The Kannada rows of the Indic table, by code point.
pub open spec fn kannada_block_property(cp: u32) -> CharProperty {
    if cp == 0x0C81 {
        (Some(SC::Bindu), Some(MP::TopPosition))
    } else if cp == 0x0C82 {
        (Some(SC::Bindu), Some(MP::RightPosition))
    } else if cp == 0x0C83 {
        (Some(SC::Visarga), Some(MP::RightPosition))
    } else if 0x0C85 <= cp && cp <= 0x0C8C {
        (Some(SC::VowelIndependent), None)
    } else if 0x0C8E <= cp && cp <= 0x0C90 {
        (Some(SC::VowelIndependent), None)
    } else if 0x0C92 <= cp && cp <= 0x0C94 {
        (Some(SC::VowelIndependent), None)
    } else if 0x0C95 <= cp && cp <= 0x0CA8 {
        (Some(SC::Consonant), None)
    } else if 0x0CAA <= cp && cp <= 0x0CB3 {
        (Some(SC::Consonant), None)
    } else if 0x0CB5 <= cp && cp <= 0x0CB9 {
        (Some(SC::Consonant), None)
    } else if cp == 0x0CBC {
        (Some(SC::Nukta), Some(MP::BottomPosition))
    } else if cp == 0x0CBD {
        (Some(SC::Avagraha), None)
    } else if cp == 0x0CBE {
        (Some(SC::VowelDependent), Some(MP::RightPosition))
    } else if cp == 0x0CBF {
        (Some(SC::VowelDependent), Some(MP::TopPosition))
    } else if cp == 0x0CC0 {
        (Some(SC::VowelDependent), Some(MP::TopAndRightPosition))
    } else if 0x0CC1 <= cp && cp <= 0x0CC4 {
        (Some(SC::VowelDependent), Some(MP::RightPosition))
    } else if cp == 0x0CC6 {
        (Some(SC::VowelDependent), Some(MP::TopPosition))
    } else if 0x0CC7 <= cp && cp <= 0x0CC8 {
        (Some(SC::VowelDependent), Some(MP::TopAndRightPosition))
    } else if 0x0CCA <= cp && cp <= 0x0CCB {
        (Some(SC::VowelDependent), Some(MP::TopAndRightPosition))
    } else if cp == 0x0CCC {
        (Some(SC::VowelDependent), Some(MP::TopPosition))
    } else if cp == 0x0CCD {
        (Some(SC::Virama), Some(MP::TopPosition))
    } else if 0x0CD5 <= cp && cp <= 0x0CD6 {
        (Some(SC::VowelDependent), Some(MP::RightPosition))
    } else if cp == 0x0CDE {
        (Some(SC::Consonant), None)
    } else if 0x0CE0 <= cp && cp <= 0x0CE1 {
        (Some(SC::VowelIndependent), None)
    } else if 0x0CE2 <= cp && cp <= 0x0CE3 {
        (Some(SC::VowelDependent), Some(MP::BottomPosition))
    } else if 0x0CE6 <= cp && cp <= 0x0CEF {
        (Some(SC::Number), None)
    } else if 0x0CF1 <= cp && cp <= 0x0CF2 {
        (Some(SC::ConsonantWithStacker), None)
    } else {
        (None, None)
    }
}

fn kannada_block_character(cp: u32) -> (r: CharProperty)
    ensures
        r == kannada_block_property(cp),
{
    if cp == 0x0C81 {
        (Some(SC::Bindu), Some(MP::TopPosition))
    } else if cp == 0x0C82 {
        (Some(SC::Bindu), Some(MP::RightPosition))
    } else if cp == 0x0C83 {
        (Some(SC::Visarga), Some(MP::RightPosition))
    } else if 0x0C85 <= cp && cp <= 0x0C8C {
        (Some(SC::VowelIndependent), None)
    } else if 0x0C8E <= cp && cp <= 0x0C90 {
        (Some(SC::VowelIndependent), None)
    } else if 0x0C92 <= cp && cp <= 0x0C94 {
        (Some(SC::VowelIndependent), None)
    } else if 0x0C95 <= cp && cp <= 0x0CA8 {
        (Some(SC::Consonant), None)
    } else if 0x0CAA <= cp && cp <= 0x0CB3 {
        (Some(SC::Consonant), None)
    } else if 0x0CB5 <= cp && cp <= 0x0CB9 {
        (Some(SC::Consonant), None)
    } else if cp == 0x0CBC {
        (Some(SC::Nukta), Some(MP::BottomPosition))
    } else if cp == 0x0CBD {
        (Some(SC::Avagraha), None)
    } else if cp == 0x0CBE {
        (Some(SC::VowelDependent), Some(MP::RightPosition))
    } else if cp == 0x0CBF {
        (Some(SC::VowelDependent), Some(MP::TopPosition))
    } else if cp == 0x0CC0 {
        (Some(SC::VowelDependent), Some(MP::TopAndRightPosition))
    } else if 0x0CC1 <= cp && cp <= 0x0CC4 {
        (Some(SC::VowelDependent), Some(MP::RightPosition))
    } else if cp == 0x0CC6 {
        (Some(SC::VowelDependent), Some(MP::TopPosition))
    } else if 0x0CC7 <= cp && cp <= 0x0CC8 {
        (Some(SC::VowelDependent), Some(MP::TopAndRightPosition))
    } else if 0x0CCA <= cp && cp <= 0x0CCB {
        (Some(SC::VowelDependent), Some(MP::TopAndRightPosition))
    } else if cp == 0x0CCC {
        (Some(SC::VowelDependent), Some(MP::TopPosition))
    } else if cp == 0x0CCD {
        (Some(SC::Virama), Some(MP::TopPosition))
    } else if 0x0CD5 <= cp && cp <= 0x0CD6 {
        (Some(SC::VowelDependent), Some(MP::RightPosition))
    } else if cp == 0x0CDE {
        (Some(SC::Consonant), None)
    } else if 0x0CE0 <= cp && cp <= 0x0CE1 {
        (Some(SC::VowelIndependent), None)
    } else if 0x0CE2 <= cp && cp <= 0x0CE3 {
        (Some(SC::VowelDependent), Some(MP::BottomPosition))
    } else if 0x0CE6 <= cp && cp <= 0x0CEF {
        (Some(SC::Number), None)
    } else if 0x0CF1 <= cp && cp <= 0x0CF2 {
        (Some(SC::ConsonantWithStacker), None)
    } else {
        (None, None)
    }
}

/// The Malayalam rows of the Indic table, by code point.
pub open spec fn malayalam_block_property(cp: u32) -> CharProperty {
    if 0x0D00 <= cp && cp <= 0x0D01 {
        (Some(SC::Bindu), Some(MP::TopPosition))
    } else if cp == 0x0D02 {
        (Some(SC::Bindu), Some(MP::RightPosition))
    } else if cp == 0x0D03 {
        (Some(SC::Visarga), Some(MP::RightPosition))
    } else if 0x0D05 <= cp && cp <= 0x0D0C {
        (Some(SC::VowelIndependent), None)
    } else if 0x0D0E <= cp && cp <= 0x0D10 {
        (Some(SC::VowelIndependent), None)
    } else if 0x0D12 <= cp && cp <= 0x0D14 {
        (Some(SC::VowelIndependent), None)
    } else if 0x0D15 <= cp && cp <= 0x0D3A {
        (Some(SC::Consonant), None)
    } else if 0x0D3B <= cp && cp <= 0x0D3C {
        (Some(SC::PureKiller), Some(MP::TopPosition))
    } else if cp == 0x0D3D {
        (Some(SC::Avagraha), None)
    } else if 0x0D3E <= cp && cp <= 0x0D42 {
        (Some(SC::VowelDependent), Some(MP::RightPosition))
    } else if 0x0D43 <= cp && cp <= 0x0D44 {
        (Some(SC::VowelDependent), Some(MP::BottomPosition))
    } else if 0x0D46 <= cp && cp <= 0x0D48 {
        (Some(SC::VowelDependent), Some(MP::LeftPosition))
    } else if 0x0D4A <= cp && cp <= 0x0D4C {
        (Some(SC::VowelDependent), Some(MP::LeftAndRightPosition))
    } else if cp == 0x0D4D {
        (Some(SC::Virama), Some(MP::TopPosition))
    } else if cp == 0x0D4E {
        (Some(SC::ConsonantPreRepha), None)
    } else if cp == 0x0D4F {
        (Some(SC::Symbol), None)
    } else if 0x0D54 <= cp && cp <= 0x0D56 {
        (Some(SC::ConsonantDead), None)
    } else if cp == 0x0D57 {
        (Some(SC::VowelDependent), Some(MP::RightPosition))
    } else if 0x0D58 <= cp && cp <= 0x0D5E {
        (Some(SC::Number), None)
    } else if 0x0D5F <= cp && cp <= 0x0D61 {
        (Some(SC::VowelIndependent), None)
    } else if 0x0D62 <= cp && cp <= 0x0D63 {
        (Some(SC::VowelDependent), Some(MP::BottomPosition))
    } else if 0x0D66 <= cp && cp <= 0x0D78 {
        (Some(SC::Number), None)
    } else if cp == 0x0D79 {
        (Some(SC::Symbol), None)
    } else if 0x0D7A <= cp && cp <= 0x0D7F {
        (Some(SC::ConsonantDead), None)
    } else {
        (None, None)
    }
}

fn malayalam_block_character(cp: u32) -> (r: CharProperty)
    ensures
        r == malayalam_block_property(cp),
{
    if 0x0D00 <= cp && cp <= 0x0D01 {
        (Some(SC::Bindu), Some(MP::TopPosition))
    } else if cp == 0x0D02 {
        (Some(SC::Bindu), Some(MP::RightPosition))
    } else if cp == 0x0D03 {
        (Some(SC::Visarga), Some(MP::RightPosition))
    } else if 0x0D05 <= cp && cp <= 0x0D0C {
        (Some(SC::VowelIndependent), None)
    } else if 0x0D0E <= cp && cp <= 0x0D10 {
        (Some(SC::VowelIndependent), None)
    } else if 0x0D12 <= cp && cp <= 0x0D14 {
        (Some(SC::VowelIndependent), None)
    } else if 0x0D15 <= cp && cp <= 0x0D3A {
        (Some(SC::Consonant), None)
    } else if 0x0D3B <= cp && cp <= 0x0D3C {
        (Some(SC::PureKiller), Some(MP::TopPosition))
    } else if cp == 0x0D3D {
        (Some(SC::Avagraha), None)
    } else if 0x0D3E <= cp && cp <= 0x0D42 {
        (Some(SC::VowelDependent), Some(MP::RightPosition))
    } else if 0x0D43 <= cp && cp <= 0x0D44 {
        (Some(SC::VowelDependent), Some(MP::BottomPosition))
    } else if 0x0D46 <= cp && cp <= 0x0D48 {
        (Some(SC::VowelDependent), Some(MP::LeftPosition))
    } else if 0x0D4A <= cp && cp <= 0x0D4C {
        (Some(SC::VowelDependent), Some(MP::LeftAndRightPosition))
    } else if cp == 0x0D4D {
        (Some(SC::Virama), Some(MP::TopPosition))
    } else if cp == 0x0D4E {
        (Some(SC::ConsonantPreRepha), None)
    } else if cp == 0x0D4F {
        (Some(SC::Symbol), None)
    } else if 0x0D54 <= cp && cp <= 0x0D56 {
        (Some(SC::ConsonantDead), None)
    } else if cp == 0x0D57 {
        (Some(SC::VowelDependent), Some(MP::RightPosition))
    } else if 0x0D58 <= cp && cp <= 0x0D5E {
        (Some(SC::Number), None)
    } else if 0x0D5F <= cp && cp <= 0x0D61 {
        (Some(SC::VowelIndependent), None)
    } else if 0x0D62 <= cp && cp <= 0x0D63 {
        (Some(SC::VowelDependent), Some(MP::BottomPosition))
    } else if 0x0D66 <= cp && cp <= 0x0D78 {
        (Some(SC::Number), None)
    } else if cp == 0x0D79 {
        (Some(SC::Symbol), None)
    } else if 0x0D7A <= cp && cp <= 0x0D7F {
        (Some(SC::ConsonantDead), None)
    } else {
        (None, None)
    }
}

/// The Sinhala rows of the Indic table, by code point.
pub open spec fn sinhala_block_property(cp: u32) -> CharProperty {
    if cp == 0x0D82 {
        (Some(SC::Bindu), Some(MP::RightPosition))
    } else if cp == 0x0D83 {
        (Some(SC::Visarga), Some(MP::RightPosition))
    } else if 0x0D85 <= cp && cp <= 0x0D96 {
        (Some(SC::VowelIndependent), None)
    } else if 0x0D9A <= cp && cp <= 0x0DB1 {
        (Some(SC::Consonant), None)
    } else if 0x0DB3 <= cp && cp <= 0x0DBB {
        (Some(SC::Consonant), None)
    } else if cp == 0x0DBD {
        (Some(SC::Consonant), None)
    } else if 0x0DC0 <= cp && cp <= 0x0DC6 {
        (Some(SC::Consonant), None)
    } else if cp == 0x0DCA {
        (Some(SC::Virama), Some(MP::TopPosition))
    } else if 0x0DCF <= cp && cp <= 0x0DD1 {
        (Some(SC::VowelDependent), Some(MP::RightPosition))
    } else if 0x0DD2 <= cp && cp <= 0x0DD3 {
        (Some(SC::VowelDependent), Some(MP::TopPosition))
    } else if cp == 0x0DD4 {
        (Some(SC::VowelDependent), Some(MP::BottomPosition))
    } else if cp == 0x0DD6 {
        (Some(SC::VowelDependent), Some(MP::BottomPosition))
    } else if cp == 0x0DD8 {
        (Some(SC::VowelDependent), Some(MP::RightPosition))
    } else if cp == 0x0DD9 {
        (Some(SC::VowelDependent), Some(MP::LeftPosition))
    } else if cp == 0x0DDA {
        (Some(SC::VowelDependent), Some(MP::TopAndLeftPosition))
    } else if cp == 0x0DDB {
        (Some(SC::VowelDependent), Some(MP::LeftPosition))
    } else if cp == 0x0DDC {
        (Some(SC::VowelDependent), Some(MP::LeftAndRightPosition))
    } else if cp == 0x0DDD {
        (Some(SC::VowelDependent), Some(MP::TopLeftAndRightPosition))
    } else if cp == 0x0DDE {
        (Some(SC::VowelDependent), Some(MP::LeftAndRightPosition))
    } else if cp == 0x0DDF {
        (Some(SC::VowelDependent), Some(MP::RightPosition))
    } else if 0x0DE6 <= cp && cp <= 0x0DEF {
        (Some(SC::Number), None)
    } else if 0x0DF2 <= cp && cp <= 0x0DF3 {
        (Some(SC::VowelDependent), Some(MP::RightPosition))
    } else {
        (None, None)
    }
}

fn sinhala_block_character(cp: u32) -> (r: CharProperty)
    ensures
        r == sinhala_block_property(cp),
{
    if cp == 0x0D82 {
        (Some(SC::Bindu), Some(MP::RightPosition))
    } else if cp == 0x0D83 {
        (Some(SC::Visarga), Some(MP::RightPosition))
    } else if 0x0D85 <= cp && cp <= 0x0D96 {
        (Some(SC::VowelIndependent), None)
    } else if 0x0D9A <= cp && cp <= 0x0DB1 {
        (Some(SC::Consonant), None)
    } else if 0x0DB3 <= cp && cp <= 0x0DBB {
        (Some(SC::Consonant), None)
    } else if cp == 0x0DBD {
        (Some(SC::Consonant), None)
    } else if 0x0DC0 <= cp && cp <= 0x0DC6 {
        (Some(SC::Consonant), None)
    } else if cp == 0x0DCA {
        (Some(SC::Virama), Some(MP::TopPosition))
    } else if 0x0DCF <= cp && cp <= 0x0DD1 {
        (Some(SC::VowelDependent), Some(MP::RightPosition))
    } else if 0x0DD2 <= cp && cp <= 0x0DD3 {
        (Some(SC::VowelDependent), Some(MP::TopPosition))
    } else if cp == 0x0DD4 {
        (Some(SC::VowelDependent), Some(MP::BottomPosition))
    } else if cp == 0x0DD6 {
        (Some(SC::VowelDependent), Some(MP::BottomPosition))
    } else if cp == 0x0DD8 {
        (Some(SC::VowelDependent), Some(MP::RightPosition))
    } else if cp == 0x0DD9 {
        (Some(SC::VowelDependent), Some(MP::LeftPosition))
    } else if cp == 0x0DDA {
        (Some(SC::VowelDependent), Some(MP::TopAndLeftPosition))
    } else if cp == 0x0DDB {
        (Some(SC::VowelDependent), Some(MP::LeftPosition))
    } else if cp == 0x0DDC {
        (Some(SC::VowelDependent), Some(MP::LeftAndRightPosition))
    } else if cp == 0x0DDD {
        (Some(SC::VowelDependent), Some(MP::TopLeftAndRightPosition))
    } else if cp == 0x0DDE {
        (Some(SC::VowelDependent), Some(MP::LeftAndRightPosition))
    } else if cp == 0x0DDF {
        (Some(SC::VowelDependent), Some(MP::RightPosition))
    } else if 0x0DE6 <= cp && cp <= 0x0DEF {
        (Some(SC::Number), None)
    } else if 0x0DF2 <= cp && cp <= 0x0DF3 {
        (Some(SC::VowelDependent), Some(MP::RightPosition))
    } else {
        (None, None)
    }
}

/// The Vedic Extensions rows of the Indic table, by code point.
pub open spec fn vedic_extensions_block_property(cp: u32) -> CharProperty {
    if 0x1CD0 <= cp && cp <= 0x1CD2 {
        (Some(SC::Cantillation), Some(MP::TopPosition))
    } else if cp == 0x1CD4 {
        (Some(SC::Cantillation), Some(MP::Overstruck))
    } else if 0x1CD5 <= cp && cp <= 0x1CD9 {
        (Some(SC::Cantillation), Some(MP::BottomPosition))
    } else if 0x1CDA <= cp && cp <= 0x1CDB {
        (Some(SC::Cantillation), Some(MP::TopPosition))
    } else if 0x1CDC <= cp && cp <= 0x1CDF {
        (Some(SC::Cantillation), Some(MP::BottomPosition))
    } else if cp == 0x1CE0 {
        (Some(SC::Cantillation), Some(MP::TopPosition))
    } else if cp == 0x1CE1 {
        (Some(SC::Cantillation), Some(MP::RightPosition))
    } else if cp == 0x1CE2 {
        (Some(SC::Avagraha), Some(MP::Overstruck))
    } else if 0x1CE3 <= cp && cp <= 0x1CE7 {
        (None, Some(MP::Overstruck))
    } else if cp == 0x1CE8 {
        (Some(SC::Avagraha), Some(MP::Overstruck))
    } else if cp == 0x1CE9 {
        (Some(SC::Symbol), None)
    } else if cp == 0x1CEC {
        (Some(SC::Symbol), None)
    } else if cp == 0x1CED {
        (Some(SC::Avagraha), Some(MP::BottomPosition))
    } else if cp == 0x1CEE {
        (Some(SC::Symbol), None)
    } else if cp == 0x1CF1 {
        (Some(SC::Symbol), None)
    } else if 0x1CF2 <= cp && cp <= 0x1CF3 {
        (Some(SC::Visarga), None)
    } else if cp == 0x1CF4 {
        (Some(SC::Cantillation), Some(MP::TopPosition))
    } else if 0x1CF5 <= cp && cp <= 0x1CF6 {
        (Some(SC::Consonant), None)
    } else if 0x1CF8 <= cp && cp <= 0x1CF9 {
        (Some(SC::Cantillation), None)
    } else {
        (None, None)
    }
}

fn vedic_extensions_block_character(cp: u32) -> (r: CharProperty)
    ensures
        r == vedic_extensions_block_property(cp),
{
    if 0x1CD0 <= cp && cp <= 0x1CD2 {
        (Some(SC::Cantillation), Some(MP::TopPosition))
    } else if cp == 0x1CD4 {
        (Some(SC::Cantillation), Some(MP::Overstruck))
    } else if 0x1CD5 <= cp && cp <= 0x1CD9 {
        (Some(SC::Cantillation), Some(MP::BottomPosition))
    } else if 0x1CDA <= cp && cp <= 0x1CDB {
        (Some(SC::Cantillation), Some(MP::TopPosition))
    } else if 0x1CDC <= cp && cp <= 0x1CDF {
        (Some(SC::Cantillation), Some(MP::BottomPosition))
    } else if cp == 0x1CE0 {
        (Some(SC::Cantillation), Some(MP::TopPosition))
    } else if cp == 0x1CE1 {
        (Some(SC::Cantillation), Some(MP::RightPosition))
    } else if cp == 0x1CE2 {
        (Some(SC::Avagraha), Some(MP::Overstruck))
    } else if 0x1CE3 <= cp && cp <= 0x1CE7 {
        (None, Some(MP::Overstruck))
    } else if cp == 0x1CE8 {
        (Some(SC::Avagraha), Some(MP::Overstruck))
    } else if cp == 0x1CE9 {
        (Some(SC::Symbol), None)
    } else if cp == 0x1CEC {
        (Some(SC::Symbol), None)
    } else if cp == 0x1CED {
        (Some(SC::Avagraha), Some(MP::BottomPosition))
    } else if cp == 0x1CEE {
        (Some(SC::Symbol), None)
    } else if cp == 0x1CF1 {
        (Some(SC::Symbol), None)
    } else if 0x1CF2 <= cp && cp <= 0x1CF3 {
        (Some(SC::Visarga), None)
    } else if cp == 0x1CF4 {
        (Some(SC::Cantillation), Some(MP::TopPosition))
    } else if 0x1CF5 <= cp && cp <= 0x1CF6 {
        (Some(SC::Consonant), None)
    } else if 0x1CF8 <= cp && cp <= 0x1CF9 {
        (Some(SC::Cantillation), None)
    } else {
        (None, None)
    }
}

/// The Devanagari Extended rows of the Indic table, by code point.
pub open spec fn devanagari_extended_block_property(cp: u32) -> CharProperty {
    if 0xA8E0 <= cp && cp <= 0xA8F1 {
        (Some(SC::Cantillation), Some(MP::TopPosition))
    } else if 0xA8F2 <= cp && cp <= 0xA8F3 {
        (Some(SC::Bindu), None)
    } else if cp == 0xA8FE {
        (Some(SC::VowelIndependent), None)
    } else if cp == 0xA8FF {
        (Some(SC::VowelDependent), Some(MP::TopPosition))
    } else {
        (None, None)
    }
}

fn devanagari_extended_block_character(cp: u32) -> (r: CharProperty)
    ensures
        r == devanagari_extended_block_property(cp),
{
    if 0xA8E0 <= cp && cp <= 0xA8F1 {
        (Some(SC::Cantillation), Some(MP::TopPosition))
    } else if 0xA8F2 <= cp && cp <= 0xA8F3 {
        (Some(SC::Bindu), None)
    } else if cp == 0xA8FE {
        (Some(SC::VowelIndependent), None)
    } else if cp == 0xA8FF {
        (Some(SC::VowelDependent), Some(MP::TopPosition))
    } else {
        (None, None)
    }
}

/// The Sinhala Archaic Numbers rows of the Indic table, by code point.
pub open spec fn sinhala_archaic_numbers_block_property(cp: u32) -> CharProperty {
    if 0x111E1 <= cp && cp <= 0x111F4 {
        (Some(SC::Number), None)
    } else {
        (None, None)
    }
}

fn sinhala_archaic_numbers_block_character(cp: u32) -> (r: CharProperty)
    ensures
        r == sinhala_archaic_numbers_block_property(cp),
{
    if 0x111E1 <= cp && cp <= 0x111F4 {
        (Some(SC::Number), None)
    } else {
        (None, None)
    }
}

/// The Grantha marks rows of the Indic table, by code point.
pub open spec fn grantha_marks_block_property(cp: u32) -> CharProperty {
    if cp == 0x11301 {
        (Some(SC::Bindu), Some(MP::TopPosition))
    } else if cp == 0x11303 {
        (Some(SC::Visarga), Some(MP::RightPosition))
    } else if cp == 0x1133C {
        (Some(SC::Nukta), Some(MP::BottomPosition))
    } else {
        (None, None)
    }
}

fn grantha_marks_block_character(cp: u32) -> (r: CharProperty)
    ensures
        r == grantha_marks_block_property(cp),
{
    if cp == 0x11301 {
        (Some(SC::Bindu), Some(MP::TopPosition))
    } else if cp == 0x11303 {
        (Some(SC::Visarga), Some(MP::RightPosition))
    } else if cp == 0x1133C {
        (Some(SC::Nukta), Some(MP::BottomPosition))
    } else {
        (None, None)
    }
}

/// The Miscellaneous rows of the Indic table, by code point.
pub open spec fn miscellaneous_block_property(cp: u32) -> CharProperty {
    if cp == 0x00A0 {
        (Some(SC::Placeholder), None)
    } else if 0x00B2 <= cp && cp <= 0x00B3 {
        (Some(SC::SyllableModifier), None)
    } else if cp == 0x200C {
        (Some(SC::NonJoiner), None)
    } else if cp == 0x200D {
        (Some(SC::Joiner), None)
    } else if 0x2010 <= cp && cp <= 0x2014 {
        (Some(SC::Placeholder), None)
    } else if cp == 0x2074 {
        (Some(SC::SyllableModifier), None)
    } else if 0x2082 <= cp && cp <= 0x2084 {
        (Some(SC::SyllableModifier), None)
    } else if cp == 0x25CC {
        (Some(SC::DottedCircle), None)
    } else {
        (None, None)
    }
}

fn miscellaneous_block_character(cp: u32) -> (r: CharProperty)
    ensures
        r == miscellaneous_block_property(cp),
{
    if cp == 0x00A0 {
        (Some(SC::Placeholder), None)
    } else if 0x00B2 <= cp && cp <= 0x00B3 {
        (Some(SC::SyllableModifier), None)
    } else if cp == 0x200C {
        (Some(SC::NonJoiner), None)
    } else if cp == 0x200D {
        (Some(SC::Joiner), None)
    } else if 0x2010 <= cp && cp <= 0x2014 {
        (Some(SC::Placeholder), None)
    } else if cp == 0x2074 {
        (Some(SC::SyllableModifier), None)
    } else if 0x2082 <= cp && cp <= 0x2084 {
        (Some(SC::SyllableModifier), None)
    } else if cp == 0x25CC {
        (Some(SC::DottedCircle), None)
    } else {
        (None, None)
    }
}

/// The Indic property of a character: total, with `(None, None)` for every
/// code point that the table does not classify.
pub open spec fn indic_property(c: char) -> CharProperty {
    let cp = c as u32;
    if 0x0900 <= cp && cp <= 0x097F {
        devanagari_block_property(cp)
    } else if 0x0980 <= cp && cp <= 0x09FE {
        bengali_block_property(cp)
    } else if 0x0A00 <= cp && cp <= 0x0A76 {
        gurmukhi_block_property(cp)
    } else if 0x0A81 <= cp && cp <= 0x0AFF {
        gujarati_block_property(cp)
    } else if 0x0B00 <= cp && cp <= 0x0B7F {
        oriya_block_property(cp)
    } else if 0x0B80 <= cp && cp <= 0x0BFA {
        tamil_block_property(cp)
    } else if 0x0C00 <= cp && cp <= 0x0C7F {
        telugu_block_property(cp)
    } else if 0x0C80 <= cp && cp <= 0x0CF2 {
        kannada_block_property(cp)
    } else if 0x0D00 <= cp && cp <= 0x0D7F {
        malayalam_block_property(cp)
    } else if 0x0D80 <= cp && cp <= 0x0DFF {
        sinhala_block_property(cp)
    } else if 0x1CD0 <= cp && cp <= 0x1CF9 {
        vedic_extensions_block_property(cp)
    } else if 0xA8E0 <= cp && cp <= 0xA8FF {
        devanagari_extended_block_property(cp)
    } else if 0x111E0 <= cp && cp <= 0x111FF {
        sinhala_archaic_numbers_block_property(cp)
    } else if 0x11301 <= cp && cp <= 0x1133C {
        grantha_marks_block_property(cp)
    } else {
        miscellaneous_block_property(cp)
    }
}

/// Looks up the Indic property of a character.
pub fn indic_character(ch: char) -> (r: CharProperty)
    ensures
        r == indic_property(ch),
{
    let cp = ch as u32;
    if 0x0900 <= cp && cp <= 0x097F {
        devanagari_block_character(cp)
    } else if 0x0980 <= cp && cp <= 0x09FE {
        bengali_block_character(cp)
    } else if 0x0A00 <= cp && cp <= 0x0A76 {
        gurmukhi_block_character(cp)
    } else if 0x0A81 <= cp && cp <= 0x0AFF {
        gujarati_block_character(cp)
    } else if 0x0B00 <= cp && cp <= 0x0B7F {
        oriya_block_character(cp)
    } else if 0x0B80 <= cp && cp <= 0x0BFA {
        tamil_block_character(cp)
    } else if 0x0C00 <= cp && cp <= 0x0C7F {
        telugu_block_character(cp)
    } else if 0x0C80 <= cp && cp <= 0x0CF2 {
        kannada_block_character(cp)
    } else if 0x0D00 <= cp && cp <= 0x0D7F {
        malayalam_block_character(cp)
    } else if 0x0D80 <= cp && cp <= 0x0DFF {
        sinhala_block_character(cp)
    } else if 0x1CD0 <= cp && cp <= 0x1CF9 {
        vedic_extensions_block_character(cp)
    } else if 0xA8E0 <= cp && cp <= 0xA8FF {
        devanagari_extended_block_character(cp)
    } else if 0x111E0 <= cp && cp <= 0x111FF {
        sinhala_archaic_numbers_block_character(cp)
    } else if 0x11301 <= cp && cp <= 0x1133C {
        grantha_marks_block_character(cp)
    } else {
        miscellaneous_block_character(cp)
    }
}

/// The code points that the Indic table classifies or reserves.
pub open spec fn indic_covered(c: char) -> bool {
    let cp = c as u32;
    ||| 0x0900 <= cp && cp <= 0x0DFF
    ||| 0x1CD0 <= cp && cp <= 0x1CF9
    ||| 0xA8E0 <= cp && cp <= 0xA8FF
    ||| 0x111E0 <= cp && cp <= 0x111FF
    ||| 0x11301 <= cp && cp <= 0x1133C
    ||| cp == 0x00A0 || cp == 0x00B2 || cp == 0x00B3
    ||| cp == 0x200C || cp == 0x200D
    ||| 0x2010 <= cp && cp <= 0x2014
    ||| cp == 0x2074 || (0x2082 <= cp && cp <= 0x2084)
    ||| cp == 0x25CC
}

/// The table is total, and every code point outside the classified blocks
/// and characters has no property at all.
pub proof fn lemma_uncovered_has_no_property(c: char)
    ensures
        !indic_covered(c) ==> indic_property(c) == (None::<ShapingClass>, None::<MarkPlacementSubclass>),
{
}

} // verus!
