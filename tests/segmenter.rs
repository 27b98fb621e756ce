use syllables::indic;
use syllables::indic_table::{indic_character, MarkPlacementSubclass, ShapingClass};
use syllables::myanmar;
use syllables::myanmar_table::{myanmar_character, ShapingClass as MyanmarClass};
use syllables::segment::SyllableIter;
use syllables::Syllable;

fn chars(s: &str) -> Vec<char> {
    s.chars().collect()
}

fn records(mut it: SyllableIter) -> Vec<Result<String, String>> {
    let mut out = Vec::new();
    while let Some(r) = it.next() {
        out.push(r);
    }
    out
}

#[test]
fn devanagari_ka_halant_ssa_is_one_consonant_syllable() {
    let cs = chars("\u{0915}\u{094D}\u{0937}");
    assert_eq!(indic::match_syllable(&cs), Some((3, Syllable::Consonant)));
    assert_eq!(records(SyllableIter::new("\u{0915}\u{094D}\u{0937}")), vec![Ok("\u{0915}\u{094D}\u{0937}".to_string())]);
}

#[test]
fn devanagari_reph_before_ka_is_one_consonant_syllable() {
    let cs = chars("\u{0930}\u{094D}\u{0915}");
    assert_eq!(indic::match_syllable(&cs), Some((3, Syllable::Consonant)));
}

#[test]
fn tamil_men_is_two_consonant_syllables() {
    let cs = chars("\u{0BAE}\u{0BC6}\u{0BA9}\u{0BCD}");
    assert_eq!(indic::match_syllable(&cs), Some((2, Syllable::Consonant)));
    assert_eq!(indic::match_syllable(&cs[2..]), Some((2, Syllable::Consonant)));
    assert_eq!(
        records(SyllableIter::new("\u{0BAE}\u{0BC6}\u{0BA9}\u{0BCD}")),
        vec![Ok("\u{0BAE}\u{0BC6}".to_string()), Ok("\u{0BA9}\u{0BCD}".to_string())]
    );
}

#[test]
fn bengali_kssu_is_one_consonant_syllable() {
    let cs = chars("\u{0995}\u{09CD}\u{09B7}\u{09C1}");
    assert_eq!(indic::match_syllable(&cs), Some((4, Syllable::Consonant)));
}

#[test]
fn myanmar_ka_with_medials_and_vowel_is_one_cluster() {
    let cs = chars("\u{1000}\u{103C}\u{103D}\u{1031}");
    assert_eq!(myanmar::match_syllable(&cs), Some((4, Syllable::Consonant)));
}

#[test]
fn myanmar_kinzi_before_ka_is_one_cluster() {
    let cs = chars("\u{1004}\u{103A}\u{1039}\u{1000}");
    assert_eq!(myanmar::match_syllable(&cs), Some((4, Syllable::Consonant)));
    assert_eq!(records(SyllableIter::new_myanmar("\u{1004}\u{103A}\u{1039}\u{1000}")).len(), 1);
}

#[test]
fn zwj_before_consonant_is_reported_then_consonant() {
    let cs = chars("\u{200D}\u{0915}");
    assert_eq!(indic::match_syllable(&cs), None);
    assert_eq!(
        records(SyllableIter::new("\u{200D}\u{0915}")),
        vec![Err("\u{200D}".to_string()), Ok("\u{0915}".to_string())]
    );
}

#[test]
fn dotted_circle_halant_ra_is_one_standalone_syllable() {
    let cs = chars("\u{25CC}\u{094D}\u{0930}");
    assert_eq!(indic::match_syllable(&cs), Some((3, Syllable::Standalone)));
    assert_eq!(records(SyllableIter::new("\u{25CC}\u{094D}\u{0930}")), vec![Ok("\u{25CC}\u{094D}\u{0930}".to_string())]);
}

#[test]
fn vowel_then_zwj_is_a_vowel_syllable() {
    let cs = chars("\u{0905}\u{200D}");
    assert_eq!(indic::match_syllable(&cs), Some((2, Syllable::Vowel)));
}

#[test]
fn symbol_syllable_is_recognised() {
    let cs = chars("\u{09F2}");
    assert_eq!(indic_character('\u{09F2}').0, Some(ShapingClass::Symbol));
    assert_eq!(indic::match_syllable(&cs), Some((1, Syllable::Symbol)));
}

#[test]
fn numbers_are_passed_over_and_the_rest_is_covered() {
    let text = "\u{0966}\u{0915}\u{093F}x\u{0967}";
    let recs = records(SyllableIter::new(text));
    assert_eq!(recs, vec![Ok("\u{0915}\u{093F}".to_string()), Err("x".to_string())]);
}

#[test]
fn records_and_skipped_numbers_rebuild_the_text() {
    let text = "\u{0928}\u{092E}\u{0938}\u{094D}\u{0924}\u{0947} \u{0967}\u{0968} \u{0926}\u{0941}\u{0928}\u{093F}\u{092F}\u{093E}";
    let mut rebuilt = String::new();
    for r in records(SyllableIter::new(text)) {
        match r {
            Ok(s) => rebuilt.push_str(&s),
            Err(s) => rebuilt.push_str(&s),
        }
    }
    let without_numbers: String = text.chars().filter(|c| !matches!(*c, '\u{0966}'..='\u{096F}')).collect();
    assert_eq!(rebuilt, without_numbers);
}

#[test]
fn segmentation_is_deterministic() {
    let text = "\u{0915}\u{094D}\u{0937}\u{093F} \u{0905}\u{0902}";
    assert_eq!(records(SyllableIter::new(text)), records(SyllableIter::new(text)));
}

#[test]
fn no_record_is_empty() {
    let text = "\u{0915}\u{094D}\u{200D}\u{0937}\u{094D}\u{200C}a\u{094D}\u{25CC}";
    for r in records(SyllableIter::new(text)) {
        match r {
            Ok(s) => assert!(!s.is_empty()),
            Err(s) => assert_eq!(s.chars().count(), 1),
        }
    }
}

#[test]
fn lone_consonant_is_a_consonant_syllable() {
    let cs = chars("\u{0915}");
    assert_eq!(indic::match_syllable(&cs), Some((1, Syllable::Consonant)));
}

#[test]
fn halant_zwnj_is_kept_in_the_cluster() {
    let cs = chars("\u{0915}\u{094D}\u{200C}");
    assert_eq!(indic::match_syllable(&cs), Some((3, Syllable::Consonant)));
}

#[test]
fn myanmar_cluster_never_exceeds_the_cap() {
    let mut text = String::from("\u{1000}");
    for _ in 0..40 {
        text.push('\u{103A}');
    }
    let recs = records(SyllableIter::new_myanmar(&text));
    let mut total = 0;
    for r in &recs {
        match r {
            Ok(s) => {
                assert!(s.chars().count() <= 31);
                total += s.chars().count();
            }
            Err(s) => total += s.chars().count(),
        }
    }
    assert_eq!(total, 41);
    assert_eq!(recs[0], Ok(text.chars().take(12).collect::<String>()));
}

#[test]
fn myanmar_standalone_punctuation_is_broken_cluster() {
    let cs = chars("\u{104C}");
    assert_eq!(myanmar::match_syllable(&cs), Some((1, Syllable::Broken)));
}

#[test]
fn myanmar_unknown_character_is_reported() {
    assert_eq!(records(SyllableIter::new_myanmar("a")), vec![Err("a".to_string())]);
}

#[test]
fn tables_are_total_and_leave_uncovered_code_points_unclassified() {
    assert_eq!(indic_character('A'), (None, None));
    assert_eq!(indic_character('\u{10FFFF}'), (None, None));
    assert_eq!(indic_character('\u{0915}'), (Some(ShapingClass::Consonant), None));
    assert_eq!(indic_character('\u{093F}'), (Some(ShapingClass::VowelDependent), Some(MarkPlacementSubclass::LeftPosition)));
    assert_eq!(indic_character('\u{0984}'), (None, None));
    assert_eq!(myanmar_character('\u{1039}'), (Some(MyanmarClass::InvisibleStacker), None));
    assert_eq!(myanmar_character('\u{104A}'), (None, None));
    assert_eq!(myanmar_character('\u{0915}'), (None, None));
}
