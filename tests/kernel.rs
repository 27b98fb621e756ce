use syllables::indic::Class;
use syllables::matcher::{
    match_either, match_nonempty, match_one, match_optional, match_optional_seq, match_repeat_num,
    match_repeat_upto, match_seq, match_unit, Matcher,
};

fn chars(s: &str) -> Vec<char> {
    s.chars().collect()
}

#[test]
fn one_matches_a_single_character() {
    let cs = chars("\u{0915}\u{094D}");
    assert_eq!(match_one(Class::Consonant).match_at(&cs, 0), Some(1));
    assert_eq!(match_one(Class::Halant).match_at(&cs, 0), None);
    assert_eq!(match_one(Class::Halant).match_at(&cs, 1), Some(1));
    assert_eq!(match_one(Class::Halant).match_at(&cs, 2), None);
}

#[test]
fn seq_adds_lengths_and_fails_with_either_part() {
    let cs = chars("\u{0915}\u{094D}");
    assert_eq!(match_seq(match_one(Class::Consonant), match_one(Class::Halant)).match_at(&cs, 0), Some(2));
    assert_eq!(match_seq(match_one(Class::Consonant), match_one(Class::Nukta)).match_at(&cs, 0), None);
}

#[test]
fn either_prefers_the_longer() {
    let cs = chars("\u{0915}\u{094D}");
    let long = match_seq(match_one(Class::Consonant), match_one(Class::Halant));
    assert_eq!(match_either(long, match_one(Class::Consonant)).match_at(&cs, 0), Some(2));
    assert_eq!(match_either(match_one(Class::Consonant), long).match_at(&cs, 0), Some(2));
    assert_eq!(match_either(match_one(Class::Nukta), match_one(Class::Vowel)).match_at(&cs, 0), None);
}

#[test]
fn optional_and_unit_succeed_empty() {
    let cs = chars("\u{0915}");
    assert_eq!(match_optional(match_one(Class::Nukta)).match_at(&cs, 0), Some(0));
    assert_eq!(match_unit().match_at(&cs, 1), Some(0));
    assert_eq!(match_nonempty(match_optional(match_one(Class::Nukta))).match_at(&cs, 0), None);
}

#[test]
fn optional_seq_takes_the_prefix_when_it_helps() {
    let cs = chars("\u{0930}\u{094D}\u{0915}");
    let m = match_optional_seq(match_seq(match_one(Class::Ra), match_one(Class::Halant)), match_one(Class::Consonant));
    assert_eq!(m.match_at(&cs, 0), Some(3));
    assert_eq!(m.match_at(&cs, 2), Some(1));
}

#[test]
fn repeat_num_needs_every_repetition() {
    let cs = chars("\u{0915}\u{0916}\u{0917}");
    assert_eq!(match_repeat_num(2, match_one(Class::Consonant)).match_at(&cs, 0), Some(2));
    assert_eq!(match_repeat_num(4, match_one(Class::Consonant)).match_at(&cs, 0), None);
    assert_eq!(match_repeat_num(0, match_one(Class::Nukta)).match_at(&cs, 0), Some(0));
}

#[test]
fn repeat_upto_keeps_the_longest_total() {
    let cs = chars("\u{0915}\u{0916}\u{0917}\u{094D}");
    let m = match_repeat_upto(4, match_one(Class::Consonant), match_one(Class::Halant));
    assert_eq!(m.match_at(&cs, 0), Some(4));
    let short = match_repeat_upto(1, match_one(Class::Consonant), match_one(Class::Halant));
    assert_eq!(short.match_at(&cs, 0), None);
    let any = match_repeat_upto(2, match_one(Class::Consonant), match_unit());
    assert_eq!(any.match_at(&cs, 0), Some(2));
}
