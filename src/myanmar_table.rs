//! The character property table of the Myanmar script.
//!
//! Every Unicode scalar value maps to a pair of an optional shaping class and
//! an optional mark placement. Code points outside the tabulated blocks, and
//! the unassigned positions inside them, map to `(None, None)`.
use vstd::prelude::*;

verus! {

/// The syntactic category of a code point in the Myanmar cluster grammar.
#[derive(Clone, Copy, Debug, PartialEq, Eq, Structural)]
pub enum ShapingClass {
    Bindu,
    Visarga,
    PureKiller,
    Consonant,
    VowelIndependent,
    VowelDependent,
    ConsonantMedial,
    ConsonantPlaceholder,
    Number,
    Symbol,
    ToneMarker,
    InvisibleStacker,
    ConsonantWithStacker,
    Placeholder,
    Joiner,
    NonJoiner,
    DottedCircle,
}

/// The side or sides of the base on which a combining mark is drawn.
#[derive(Clone, Copy, Debug, PartialEq, Eq, Structural)]
pub enum MarkPlacementSubclass {
    TopPosition,
    RightPosition,
    BottomPosition,
    LeftPosition,
    TopLeftAndBottomPosition,
}

/// The pair of properties the table gives a code point.
pub type CharProperty = (Option<ShapingClass>, Option<MarkPlacementSubclass>);

use ShapingClass as SC;
use MarkPlacementSubclass as MP;

/// The Myanmar rows of the Myanmar table, by code point.
pub open spec fn myanmar_block_property(cp: u32) -> CharProperty {
    if 0x1000 <= cp && cp <= 0x1020 {
        (Some(SC::Consonant), None)
    } else if 0x1021 <= cp && cp <= 0x102A {
        (Some(SC::VowelIndependent), None)
    } else if 0x102B <= cp && cp <= 0x102C {
        (Some(SC::VowelDependent), Some(MP::RightPosition))
    } else if 0x102D <= cp && cp <= 0x102E {
        (Some(SC::VowelDependent), Some(MP::TopPosition))
    } else if 0x102F <= cp && cp <= 0x1030 {
        (Some(SC::VowelDependent), Some(MP::BottomPosition))
    } else if cp == 0x1031 {
        (Some(SC::VowelDependent), Some(MP::LeftPosition))
    } else if 0x1032 <= cp && cp <= 0x1035 {
        (Some(SC::VowelDependent), Some(MP::TopPosition))
    } else if cp == 0x1036 {
        (Some(SC::Bindu), Some(MP::TopPosition))
    } else if cp == 0x1037 {
        (Some(SC::ToneMarker), Some(MP::BottomPosition))
    } else if cp == 0x1038 {
        (Some(SC::Visarga), Some(MP::RightPosition))
    } else if cp == 0x1039 {
        (Some(SC::InvisibleStacker), None)
    } else if cp == 0x103A {
        (Some(SC::PureKiller), Some(MP::TopPosition))
    } else if cp == 0x103B {
        (Some(SC::ConsonantMedial), Some(MP::RightPosition))
    } else if cp == 0x103C {
        (Some(SC::ConsonantMedial), Some(MP::TopLeftAndBottomPosition))
    } else if 0x103D <= cp && cp <= 0x103E {
        (Some(SC::ConsonantMedial), Some(MP::BottomPosition))
    } else if cp == 0x103F {
        (Some(SC::Consonant), None)
    } else if 0x1040 <= cp && cp <= 0x1049 {
        (Some(SC::Number), None)
    } else if cp == 0x104E {
        (Some(SC::ConsonantPlaceholder), None)
    } else if 0x1050 <= cp && cp <= 0x1051 {
        (Some(SC::Consonant), None)
    } else if 0x1052 <= cp && cp <= 0x1055 {
        (Some(SC::VowelIndependent), None)
    } else if 0x1056 <= cp && cp <= 0x1057 {
        (Some(SC::VowelDependent), Some(MP::RightPosition))
    } else if 0x1058 <= cp && cp <= 0x1059 {
        (Some(SC::VowelDependent), Some(MP::BottomPosition))
    } else if 0x105A <= cp && cp <= 0x105D {
        (Some(SC::Consonant), None)
    } else if 0x105E <= cp && cp <= 0x1060 {
        (Some(SC::ConsonantMedial), Some(MP::BottomPosition))
    } else if cp == 0x1061 {
        (Some(SC::Consonant), None)
    } else if cp == 0x1062 {
        (Some(SC::VowelDependent), Some(MP::RightPosition))
    } else if 0x1063 <= cp && cp <= 0x1064 {
        (Some(SC::ToneMarker), Some(MP::RightPosition))
    } else if 0x1065 <= cp && cp <= 0x1066 {
        (Some(SC::Consonant), None)
    } else if 0x1067 <= cp && cp <= 0x1068 {
        (Some(SC::VowelDependent), Some(MP::RightPosition))
    } else if 0x1069 <= cp && cp <= 0x106D {
        (Some(SC::ToneMarker), Some(MP::RightPosition))
    } else if 0x106E <= cp && cp <= 0x1070 {
        (Some(SC::Consonant), None)
    } else if 0x1071 <= cp && cp <= 0x1074 {
        (Some(SC::VowelDependent), Some(MP::TopPosition))
    } else if 0x1075 <= cp && cp <= 0x1081 {
        (Some(SC::Consonant), None)
    } else if cp == 0x1082 {
        (Some(SC::ConsonantMedial), Some(MP::BottomPosition))
    } else if cp == 0x1083 {
        (Some(SC::VowelDependent), Some(MP::RightPosition))
    } else if cp == 0x1084 {
        (Some(SC::VowelDependent), Some(MP::LeftPosition))
    } else if 0x1085 <= cp && cp <= 0x1086 {
        (Some(SC::VowelDependent), Some(MP::TopPosition))
    } else if 0x1087 <= cp && cp <= 0x108C {
        (Some(SC::ToneMarker), Some(MP::RightPosition))
    } else if cp == 0x108D {
        (Some(SC::ToneMarker), Some(MP::BottomPosition))
    } else if cp == 0x108E {
        (Some(SC::Consonant), None)
    } else if cp == 0x108F {
        (Some(SC::ToneMarker), Some(MP::RightPosition))
    } else if 0x1090 <= cp && cp <= 0x1099 {
        (Some(SC::Number), None)
    } else if 0x109A <= cp && cp <= 0x109B {
        (Some(SC::ToneMarker), Some(MP::RightPosition))
    } else if cp == 0x109C {
        (Some(SC::VowelDependent), Some(MP::RightPosition))
    } else if cp == 0x109D {
        (Some(SC::VowelDependent), Some(MP::TopPosition))
    } else if 0x109E <= cp && cp <= 0x109F {
        (Some(SC::Symbol), None)
    } else {
        (None, None)
    }
}

fn myanmar_block_character(cp: u32) -> (r: CharProperty)
    ensures
        r == myanmar_block_property(cp),
{
    if 0x1000 <= cp && cp <= 0x1020 {
        (Some(SC::Consonant), None)
    } else if 0x1021 <= cp && cp <= 0x102A {
        (Some(SC::VowelIndependent), None)
    } else if 0x102B <= cp && cp <= 0x102C {
        (Some(SC::VowelDependent), Some(MP::RightPosition))
    } else if 0x102D <= cp && cp <= 0x102E {
        (Some(SC::VowelDependent), Some(MP::TopPosition))
    } else if 0x102F <= cp && cp <= 0x1030 {
        (Some(SC::VowelDependent), Some(MP::BottomPosition))
    } else if cp == 0x1031 {
        (Some(SC::VowelDependent), Some(MP::LeftPosition))
    } else if 0x1032 <= cp && cp <= 0x1035 {
        (Some(SC::VowelDependent), Some(MP::TopPosition))
    } else if cp == 0x1036 {
        (Some(SC::Bindu), Some(MP::TopPosition))
    } else if cp == 0x1037 {
        (Some(SC::ToneMarker), Some(MP::BottomPosition))
    } else if cp == 0x1038 {
        (Some(SC::Visarga), Some(MP::RightPosition))
    } else if cp == 0x1039 {
        (Some(SC::InvisibleStacker), None)
    } else if cp == 0x103A {
        (Some(SC::PureKiller), Some(MP::TopPosition))
    } else if cp == 0x103B {
        (Some(SC::ConsonantMedial), Some(MP::RightPosition))
    } else if cp == 0x103C {
        (Some(SC::ConsonantMedial), Some(MP::TopLeftAndBottomPosition))
    } else if 0x103D <= cp && cp <= 0x103E {
        (Some(SC::ConsonantMedial), Some(MP::BottomPosition))
    } else if cp == 0x103F {
        (Some(SC::Consonant), None)
    } else if 0x1040 <= cp && cp <= 0x1049 {
        (Some(SC::Number), None)
    } else if cp == 0x104E {
        (Some(SC::ConsonantPlaceholder), None)
    } else if 0x1050 <= cp && cp <= 0x1051 {
        (Some(SC::Consonant), None)
    } else if 0x1052 <= cp && cp <= 0x1055 {
        (Some(SC::VowelIndependent), None)
    } else if 0x1056 <= cp && cp <= 0x1057 {
        (Some(SC::VowelDependent), Some(MP::RightPosition))
    } else if 0x1058 <= cp && cp <= 0x1059 {
        (Some(SC::VowelDependent), Some(MP::BottomPosition))
    } else if 0x105A <= cp && cp <= 0x105D {
        (Some(SC::Consonant), None)
    } else if 0x105E <= cp && cp <= 0x1060 {
        (Some(SC::ConsonantMedial), Some(MP::BottomPosition))
    } else if cp == 0x1061 {
        (Some(SC::Consonant), None)
    } else if cp == 0x1062 {
        (Some(SC::VowelDependent), Some(MP::RightPosition))
    } else if 0x1063 <= cp && cp <= 0x1064 {
        (Some(SC::ToneMarker), Some(MP::RightPosition))
    } else if 0x1065 <= cp && cp <= 0x1066 {
        (Some(SC::Consonant), None)
    } else if 0x1067 <= cp && cp <= 0x1068 {
        (Some(SC::VowelDependent), Some(MP::RightPosition))
    } else if 0x1069 <= cp && cp <= 0x106D {
        (Some(SC::ToneMarker), Some(MP::RightPosition))
    } else if 0x106E <= cp && cp <= 0x1070 {
        (Some(SC::Consonant), None)
    } else if 0x1071 <= cp && cp <= 0x1074 {
        (Some(SC::VowelDependent), Some(MP::TopPosition))
    } else if 0x1075 <= cp && cp <= 0x1081 {
        (Some(SC::Consonant), None)
    } else if cp == 0x1082 {
        (Some(SC::ConsonantMedial), Some(MP::BottomPosition))
    } else if cp == 0x1083 {
        (Some(SC::VowelDependent), Some(MP::RightPosition))
    } else if cp == 0x1084 {
        (Some(SC::VowelDependent), Some(MP::LeftPosition))
    } else if 0x1085 <= cp && cp <= 0x1086 {
        (Some(SC::VowelDependent), Some(MP::TopPosition))
    } else if 0x1087 <= cp && cp <= 0x108C {
        (Some(SC::ToneMarker), Some(MP::RightPosition))
    } else if cp == 0x108D {
        (Some(SC::ToneMarker), Some(MP::BottomPosition))
    } else if cp == 0x108E {
        (Some(SC::Consonant), None)
    } else if cp == 0x108F {
        (Some(SC::ToneMarker), Some(MP::RightPosition))
    } else if 0x1090 <= cp && cp <= 0x1099 {
        (Some(SC::Number), None)
    } else if 0x109A <= cp && cp <= 0x109B {
        (Some(SC::ToneMarker), Some(MP::RightPosition))
    } else if cp == 0x109C {
        (Some(SC::VowelDependent), Some(MP::RightPosition))
    } else if cp == 0x109D {
        (Some(SC::VowelDependent), Some(MP::TopPosition))
    } else if 0x109E <= cp && cp <= 0x109F {
        (Some(SC::Symbol), None)
    } else {
        (None, None)
    }
}

/// The Myanmar Extended A rows of the Myanmar table, by code point.
pub open spec fn myanmar_extended_a_block_property(cp: u32) -> CharProperty {
    if 0xAA60 <= cp && cp <= 0xAA6F {
        (Some(SC::Consonant), None)
    } else if 0xAA71 <= cp && cp <= 0xAA73 {
        (Some(SC::Consonant), None)
    } else if 0xAA74 <= cp && cp <= 0xAA76 {
        (Some(SC::ConsonantPlaceholder), None)
    } else if 0xAA77 <= cp && cp <= 0xAA79 {
        (Some(SC::Symbol), None)
    } else if cp == 0xAA7A {
        (Some(SC::Consonant), None)
    } else if cp == 0xAA7B {
        (Some(SC::ToneMarker), Some(MP::RightPosition))
    } else if cp == 0xAA7C {
        (Some(SC::ToneMarker), Some(MP::TopPosition))
    } else if cp == 0xAA7D {
        (Some(SC::ToneMarker), Some(MP::RightPosition))
    } else if 0xAA7E <= cp && cp <= 0xAA7F {
        (Some(SC::Consonant), None)
    } else {
        (None, None)
    }
}

fn myanmar_extended_a_block_character(cp: u32) -> (r: CharProperty)
    ensures
        r == myanmar_extended_a_block_property(cp),
{
    if 0xAA60 <= cp && cp <= 0xAA6F {
        (Some(SC::Consonant), None)
    } else if 0xAA71 <= cp && cp <= 0xAA73 {
        (Some(SC::Consonant), None)
    } else if 0xAA74 <= cp && cp <= 0xAA76 {
        (Some(SC::ConsonantPlaceholder), None)
    } else if 0xAA77 <= cp && cp <= 0xAA79 {
        (Some(SC::Symbol), None)
    } else if cp == 0xAA7A {
        (Some(SC::Consonant), None)
    } else if cp == 0xAA7B {
        (Some(SC::ToneMarker), Some(MP::RightPosition))
    } else if cp == 0xAA7C {
        (Some(SC::ToneMarker), Some(MP::TopPosition))
    } else if cp == 0xAA7D {
        (Some(SC::ToneMarker), Some(MP::RightPosition))
    } else if 0xAA7E <= cp && cp <= 0xAA7F {
        (Some(SC::Consonant), None)
    } else {
        (None, None)
    }
}

/// The Myanmar Extended B rows of the Myanmar table, by code point.
pub open spec fn myanmar_extended_b_block_property(cp: u32) -> CharProperty {
    if 0xA9E0 <= cp && cp <= 0xA9E4 {
        (Some(SC::Consonant), None)
    } else if cp == 0xA9E5 {
        (Some(SC::VowelDependent), Some(MP::TopPosition))
    } else if 0xA9E7 <= cp && cp <= 0xA9EF {
        (Some(SC::Consonant), None)
    } else if 0xA9F0 <= cp && cp <= 0xA9F9 {
        (Some(SC::Number), None)
    } else if 0xA9FA <= cp && cp <= 0xA9FE {
        (Some(SC::Consonant), None)
    } else {
        (None, None)
    }
}

fn myanmar_extended_b_block_character(cp: u32) -> (r: CharProperty)
    ensures
        r == myanmar_extended_b_block_property(cp),
{
    if 0xA9E0 <= cp && cp <= 0xA9E4 {
        (Some(SC::Consonant), None)
    } else if cp == 0xA9E5 {
        (Some(SC::VowelDependent), Some(MP::TopPosition))
    } else if 0xA9E7 <= cp && cp <= 0xA9EF {
        (Some(SC::Consonant), None)
    } else if 0xA9F0 <= cp && cp <= 0xA9F9 {
        (Some(SC::Number), None)
    } else if 0xA9FA <= cp && cp <= 0xA9FE {
        (Some(SC::Consonant), None)
    } else {
        (None, None)
    }
}

/// The Miscellaneous rows of the Myanmar table, by code point.
pub open spec fn miscellaneous_block_property(cp: u32) -> CharProperty {
    if cp == 0x00A0 {
        (Some(SC::Placeholder), None)
    } else if cp == 0x200C {
        (Some(SC::NonJoiner), None)
    } else if cp == 0x200D {
        (Some(SC::Joiner), None)
    } else if 0x2010 <= cp && cp <= 0x2014 {
        (Some(SC::Placeholder), None)
    } else if cp == 0x25CC {
        (Some(SC::DottedCircle), None)
    } else {
        (None, None)
    }
}

fn miscellaneous_block_character(cp: u32) -> (r: CharProperty)
    ensures
        r == miscellaneous_block_property(cp),
{
    if cp == 0x00A0 {
        (Some(SC::Placeholder), None)
    } else if cp == 0x200C {
        (Some(SC::NonJoiner), None)
    } else if cp == 0x200D {
        (Some(SC::Joiner), None)
    } else if 0x2010 <= cp && cp <= 0x2014 {
        (Some(SC::Placeholder), None)
    } else if cp == 0x25CC {
        (Some(SC::DottedCircle), None)
    } else {
        (None, None)
    }
}

/// The Myanmar property of a character: total, with `(None, None)` for every
/// code point that the table does not classify.
pub open spec fn myanmar_property(c: char) -> CharProperty {
    let cp = c as u32;
    if 0x1000 <= cp && cp <= 0x109F {
        myanmar_block_property(cp)
    } else if 0xAA60 <= cp && cp <= 0xAA7F {
        myanmar_extended_a_block_property(cp)
    } else if 0xA9E0 <= cp && cp <= 0xA9FE {
        myanmar_extended_b_block_property(cp)
    } else {
        miscellaneous_block_property(cp)
    }
}

/// Looks up the Myanmar property of a character.
pub fn myanmar_character(ch: char) -> (r: CharProperty)
    ensures
        r == myanmar_property(ch),
{
    let cp = ch as u32;
    if 0x1000 <= cp && cp <= 0x109F {
        myanmar_block_character(cp)
    } else if 0xAA60 <= cp && cp <= 0xAA7F {
        myanmar_extended_a_block_character(cp)
    } else if 0xA9E0 <= cp && cp <= 0xA9FE {
        myanmar_extended_b_block_character(cp)
    } else {
        miscellaneous_block_character(cp)
    }
}

/// The code points that the Myanmar table classifies or reserves.
pub open spec fn myanmar_covered(c: char) -> bool {
    let cp = c as u32;
    ||| 0x1000 <= cp && cp <= 0x109F
    ||| 0xAA60 <= cp && cp <= 0xAA7F
    ||| 0xA9E0 <= cp && cp <= 0xA9FE
    ||| cp == 0x00A0 || cp == 0x200C || cp == 0x200D
    ||| 0x2010 <= cp && cp <= 0x2014
    ||| cp == 0x25CC
}

/// The table is total, and every code point outside the classified blocks
/// and characters has no property at all.
pub proof fn lemma_uncovered_has_no_property(c: char)
    ensures
        !myanmar_covered(c) ==> myanmar_property(c) == (None::<ShapingClass>, None::<MarkPlacementSubclass>),
{
}

} // verus!
