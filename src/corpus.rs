//! Extraction of script-specific words from lines of a text corpus.
//!
//! A line is split at every character that belongs neither to the chosen
//! script (with the marks it shares with its neighbours) nor to the Latin
//! combining marks. The pieces that hold at least one character of the script
//! itself are kept, without their leading Latin combining marks.
use vstd::prelude::*;
use crate::text::{collect_chars, string_of};

verus! {

/// The scripts whose words can be extracted.
#[derive(Clone, Copy, Debug, PartialEq, Eq, Structural)]
pub enum Script {
    Devanagari,
    Bengali,
    Tamil,
    Telugu,
    Gujarati,
    Gurmukhi,
    Oriya,
    Malayalam,
    Myanmar,
    Kannada,
    Sinhala,
}

/// How escaped characters are written in the corpus.
#[derive(Clone, Copy, Debug, PartialEq, Eq, Structural)]
pub enum Escape {
    Plain,
    Json,
    Html,
}

/// The script that a command-line name stands for.
pub open spec fn script_named(name: Seq<char>) -> Option<Script> {
    if name == seq!['h', 'i'] {
        Some(Script::Devanagari)
    } else if name == seq!['b', 'n'] {
        Some(Script::Bengali)
    } else if name == seq!['t', 'a'] {
        Some(Script::Tamil)
    } else if name == seq!['t', 'e'] {
        Some(Script::Telugu)
    } else if name == seq!['g', 'u'] {
        Some(Script::Gujarati)
    } else if name == seq!['p', 'a'] {
        Some(Script::Gurmukhi)
    } else if name == seq!['o', 'r'] {
        Some(Script::Oriya)
    } else if name == seq!['m', 'l'] {
        Some(Script::Malayalam)
    } else if name == seq!['m', 'y'] {
        Some(Script::Myanmar)
    } else if name == seq!['k', 'n'] {
        Some(Script::Kannada)
    } else if name == seq!['s', 'i'] {
        Some(Script::Sinhala)
    } else {
        None
    }
}

/// The escape convention that a command-line name stands for.
pub open spec fn escape_named(name: Seq<char>) -> Option<Escape> {
    if name == seq!['n', 'o', 'n', 'e'] {
        Some(Escape::Plain)
    } else if name == seq!['j', 's', 'o', 'n'] {
        Some(Escape::Json)
    } else if name == seq!['h', 't', 'm', 'l'] {
        Some(Escape::Html)
    } else {
        None
    }
}

fn chars_equal(a: &[char], b: &[char]) -> (r: bool)
    ensures
        r == (a@ == b@),
{
    if a.len() != b.len() {
        return false;
    }
    let mut i: usize = 0;
    while i < a.len()
        invariant
            i <= a.len() == b.len(),
            a@.take(i as int) == b@.take(i as int),
        decreases a.len() - i,
    {
        if a[i] != b[i] {
            assert(a@[i as int] != b@[i as int]);
            return false;
        }
        assert(a@.take(i + 1) =~= a@.take(i as int).push(a@[i as int]));
        assert(b@.take(i + 1) =~= b@.take(i as int).push(b@[i as int]));
        i = i + 1;
    }
    assert(a@ =~= a@.take(i as int));
    assert(b@ =~= b@.take(i as int));
    true
}

/// Parses a script name: `hi`, `bn`, `ta`, `te`, `gu`, `pa`, `or`, `ml`, `my`, `kn` or `si`.
pub fn get_script(s: &str) -> (r: Option<Script>)
    ensures
        r == script_named(s@),
{
    let cs = collect_chars(s);
    let name = cs.as_slice();
    if chars_equal(name, vec!['h', 'i'].as_slice()) {
        Some(Script::Devanagari)
    } else if chars_equal(name, vec!['b', 'n'].as_slice()) {
        Some(Script::Bengali)
    } else if chars_equal(name, vec!['t', 'a'].as_slice()) {
        Some(Script::Tamil)
    } else if chars_equal(name, vec!['t', 'e'].as_slice()) {
        Some(Script::Telugu)
    } else if chars_equal(name, vec!['g', 'u'].as_slice()) {
        Some(Script::Gujarati)
    } else if chars_equal(name, vec!['p', 'a'].as_slice()) {
        Some(Script::Gurmukhi)
    } else if chars_equal(name, vec!['o', 'r'].as_slice()) {
        Some(Script::Oriya)
    } else if chars_equal(name, vec!['m', 'l'].as_slice()) {
        Some(Script::Malayalam)
    } else if chars_equal(name, vec!['m', 'y'].as_slice()) {
        Some(Script::Myanmar)
    } else if chars_equal(name, vec!['k', 'n'].as_slice()) {
        Some(Script::Kannada)
    } else if chars_equal(name, vec!['s', 'i'].as_slice()) {
        Some(Script::Sinhala)
    } else {
        None
    }
}

/// Parses an escape name: `none`, `json` or `html`.
pub fn get_escape(s: &str) -> (r: Option<Escape>)
    ensures
        r == escape_named(s@),
{
    let cs = collect_chars(s);
    let name = cs.as_slice();
    if chars_equal(name, vec!['n', 'o', 'n', 'e'].as_slice()) {
        Some(Escape::Plain)
    } else if chars_equal(name, vec!['j', 's', 'o', 'n'].as_slice()) {
        Some(Escape::Json)
    } else if chars_equal(name, vec!['h', 't', 'm', 'l'].as_slice()) {
        Some(Escape::Html)
    } else {
        None
    }
}

/// The Bengali block.
#[verifier::allow_in_spec]
pub fn bengali_char(c: char) -> bool
    returns
        (0x980 <= c as u32 && c as u32 <= 0x9FF),
{
    (0x980 <= c as u32 && c as u32 <= 0x9FF)
}

/// The Devanagari block and Devanagari Extended.
#[verifier::allow_in_spec]
pub fn devanagari_char(c: char) -> bool
    returns
        (0x900 <= c as u32 && c as u32 <= 0x97F) || (0xA8E0 <= c as u32 && c as u32 <= 0xA8FF),
{
    (0x900 <= c as u32 && c as u32 <= 0x97F) || (0xA8E0 <= c as u32 && c as u32 <= 0xA8FF)
}

/// The Gujarati block.
#[verifier::allow_in_spec]
pub fn gujarati_char(c: char) -> bool
    returns
        (0xA80 <= c as u32 && c as u32 <= 0xAFF),
{
    (0xA80 <= c as u32 && c as u32 <= 0xAFF)
}

/// The Gurmukhi block.
#[verifier::allow_in_spec]
pub fn gurmukhi_char(c: char) -> bool
    returns
        (0xA00 <= c as u32 && c as u32 <= 0xA7F),
{
    (0xA00 <= c as u32 && c as u32 <= 0xA7F)
}

/// The Kannada block.
#[verifier::allow_in_spec]
pub fn kannada_char(c: char) -> bool
    returns
        (0xC80 <= c as u32 && c as u32 <= 0xCFF),
{
    (0xC80 <= c as u32 && c as u32 <= 0xCFF)
}

/// The Malayalam block.
#[verifier::allow_in_spec]
pub fn malayalam_char(c: char) -> bool
    returns
        (0xD00 <= c as u32 && c as u32 <= 0xD7F),
{
    (0xD00 <= c as u32 && c as u32 <= 0xD7F)
}

/// The Myanmar block and its extensions A and B.
#[verifier::allow_in_spec]
pub fn myanmar_char(c: char) -> bool
    returns
        (0x1000 <= c as u32 && c as u32 <= 0x109F) || (0xAA60 <= c as u32 && c as u32 <= 0xAA7F) || (0xA9E0 <= c as u32 && c as u32 <= 0xA9FF),
{
    (0x1000 <= c as u32 && c as u32 <= 0x109F) || (0xAA60 <= c as u32 && c as u32 <= 0xAA7F) || (0xA9E0 <= c as u32 && c as u32 <= 0xA9FF)
}

/// The joiners and the dotted circle.
#[verifier::allow_in_spec]
pub fn myanmar_misc_char(c: char) -> bool
    returns
        c as u32 == 0x200C || c as u32 == 0x200D || c as u32 == 0x25CC,
{
    c as u32 == 0x200C || c as u32 == 0x200D || c as u32 == 0x25CC
}

/// The Oriya block.
#[verifier::allow_in_spec]
pub fn oriya_char(c: char) -> bool
    returns
        (0xB00 <= c as u32 && c as u32 <= 0xB7F),
{
    (0xB00 <= c as u32 && c as u32 <= 0xB7F)
}

/// The Sinhala block.
#[verifier::allow_in_spec]
pub fn sinhala_char(c: char) -> bool
    returns
        (0xD70 <= c as u32 && c as u32 <= 0xDFF),
{
    (0xD70 <= c as u32 && c as u32 <= 0xDFF)
}

/// The Tamil block.
#[verifier::allow_in_spec]
pub fn tamil_char(c: char) -> bool
    returns
        (0xB80 <= c as u32 && c as u32 <= 0xBFF),
{
    (0xB80 <= c as u32 && c as u32 <= 0xBFF)
}

/// The Telugu block.
#[verifier::allow_in_spec]
pub fn telugu_char(c: char) -> bool
    returns
        (0xC00 <= c as u32 && c as u32 <= 0xC7F),
{
    (0xC00 <= c as u32 && c as u32 <= 0xC7F)
}

/// The Grantha marks used with Tamil.
#[verifier::allow_in_spec]
pub fn grantha_marks_char(c: char) -> bool
    returns
        c as u32 == 0x11301 || c as u32 == 0x11303 || c as u32 == 0x1133C,
{
    c as u32 == 0x11301 || c as u32 == 0x11303 || c as u32 == 0x1133C
}

/// The Vedic Extensions block.
#[verifier::allow_in_spec]
pub fn vedic_extensions_char(c: char) -> bool
    returns
        (0x1CD0 <= c as u32 && c as u32 <= 0x1CFF),
{
    (0x1CD0 <= c as u32 && c as u32 <= 0x1CFF)
}

/// The Devanagari udatta and anudatta.
#[verifier::allow_in_spec]
pub fn devanagari_anudatta_char(c: char) -> bool
    returns
        c as u32 == 0x951 || c as u32 == 0x952,
{
    c as u32 == 0x951 || c as u32 == 0x952
}

/// The udatta, the anudatta, the joiners and the dotted circle.
#[verifier::allow_in_spec]
pub fn misc_char(c: char) -> bool
    returns
        c as u32 == 0x951 || c as u32 == 0x952 || c as u32 == 0x200C || c as u32 == 0x200D || c as u32 == 0x25CC,
{
    c as u32 == 0x951 || c as u32 == 0x952 || c as u32 == 0x200C || c as u32 == 0x200D || c as u32 == 0x25CC
}

/// A Latin combining mark.
#[verifier::allow_in_spec]
pub fn latin_combining_char(c: char) -> bool
    returns
        (0x300 <= c as u32 && c as u32 <= 0x36F),
{
    (0x300 <= c as u32 && c as u32 <= 0x36F)
}
/// A character of `script`, or one it shares with its neighbours.
#[verifier::allow_in_spec]
pub fn indic_script_char(script: Script, c: char) -> bool
    returns
        match script {
            Script::Devanagari => devanagari_char(c) || vedic_extensions_char(c) || misc_char(c),
            Script::Bengali => bengali_char(c) || vedic_extensions_char(c)
                || devanagari_anudatta_char(c) || misc_char(c),
            Script::Tamil => tamil_char(c) || grantha_marks_char(c) || vedic_extensions_char(c)
                || devanagari_anudatta_char(c) || misc_char(c),
            Script::Telugu => telugu_char(c) || vedic_extensions_char(c)
                || devanagari_anudatta_char(c) || misc_char(c),
            Script::Gujarati => gujarati_char(c) || vedic_extensions_char(c)
                || devanagari_anudatta_char(c) || misc_char(c),
            Script::Gurmukhi => gurmukhi_char(c) || vedic_extensions_char(c)
                || devanagari_anudatta_char(c) || misc_char(c),
            Script::Oriya => oriya_char(c) || vedic_extensions_char(c)
                || devanagari_anudatta_char(c) || misc_char(c),
            Script::Malayalam => malayalam_char(c) || vedic_extensions_char(c)
                || devanagari_anudatta_char(c) || misc_char(c),
            Script::Myanmar => myanmar_char(c) || vedic_extensions_char(c) || myanmar_misc_char(c),
            Script::Kannada => kannada_char(c) || vedic_extensions_char(c)
                || devanagari_anudatta_char(c) || misc_char(c),
            Script::Sinhala => sinhala_char(c) || vedic_extensions_char(c) || misc_char(c),
        },
{
    match script {
        Script::Devanagari => devanagari_char(c) || vedic_extensions_char(c) || misc_char(c),
        Script::Bengali => bengali_char(c) || vedic_extensions_char(c) || devanagari_anudatta_char(c)
            || misc_char(c),
        Script::Tamil => tamil_char(c) || grantha_marks_char(c) || vedic_extensions_char(c)
            || devanagari_anudatta_char(c) || misc_char(c),
        Script::Telugu => telugu_char(c) || vedic_extensions_char(c) || devanagari_anudatta_char(c)
            || misc_char(c),
        Script::Gujarati => gujarati_char(c) || vedic_extensions_char(c) || devanagari_anudatta_char(c)
            || misc_char(c),
        Script::Gurmukhi => gurmukhi_char(c) || vedic_extensions_char(c) || devanagari_anudatta_char(c)
            || misc_char(c),
        Script::Oriya => oriya_char(c) || vedic_extensions_char(c) || devanagari_anudatta_char(c)
            || misc_char(c),
        Script::Malayalam => malayalam_char(c) || vedic_extensions_char(c) || devanagari_anudatta_char(c)
            || misc_char(c),
        Script::Myanmar => myanmar_char(c) || vedic_extensions_char(c) || myanmar_misc_char(c),
        Script::Kannada => kannada_char(c) || vedic_extensions_char(c) || devanagari_anudatta_char(c)
            || misc_char(c),
        Script::Sinhala => sinhala_char(c) || vedic_extensions_char(c) || misc_char(c),
    }
}

/// A character of `script` itself, not one it shares.
#[verifier::allow_in_spec]
pub fn script_specific_char(script: Script, c: char) -> bool
    returns
        match script {
            Script::Devanagari => devanagari_char(c),
            Script::Bengali => bengali_char(c),
            Script::Tamil => tamil_char(c),
            Script::Telugu => telugu_char(c),
            Script::Gujarati => gujarati_char(c),
            Script::Gurmukhi => gurmukhi_char(c),
            Script::Oriya => oriya_char(c),
            Script::Malayalam => malayalam_char(c),
            Script::Myanmar => myanmar_char(c),
            Script::Kannada => kannada_char(c),
            Script::Sinhala => sinhala_char(c),
        },
{
    match script {
        Script::Devanagari => devanagari_char(c),
        Script::Bengali => bengali_char(c),
        Script::Tamil => tamil_char(c),
        Script::Telugu => telugu_char(c),
        Script::Gujarati => gujarati_char(c),
        Script::Gurmukhi => gurmukhi_char(c),
        Script::Oriya => oriya_char(c),
        Script::Malayalam => malayalam_char(c),
        Script::Myanmar => myanmar_char(c),
        Script::Kannada => kannada_char(c),
        Script::Sinhala => sinhala_char(c),
    }
}

/// A character that can be part of a word: of the script, or a Latin combining mark.
#[verifier::allow_in_spec]
pub fn char_of_interest(script: Script, c: char) -> bool
    returns
        indic_script_char(script, c) || latin_combining_char(c),
{
    indic_script_char(script, c) || latin_combining_char(c)
}

/// The pieces of `s` between the characters that are not of interest, as
/// splitting at each of them gives: one more piece than there are such characters.
pub open spec fn pieces(script: Script, s: Seq<char>) -> Seq<Seq<char>>
    decreases s.len(),
{
    if s.len() == 0 {
        seq![seq![]]
    } else {
        let before = pieces(script, s.drop_last());
        if char_of_interest(script, s.last()) {
            before.update(before.len() - 1, before.last().push(s.last()))
        } else {
            before.push(seq![])
        }
    }
}

proof fn lemma_pieces_len(script: Script, s: Seq<char>)
    ensures
        pieces(script, s).len() >= 1,
    decreases s.len(),
{
    if s.len() > 0 {
        lemma_pieces_len(script, s.drop_last());
    }
}

/// Whether a piece holds a character of the script itself.
pub open spec fn is_cool(script: Script, w: Seq<char>) -> bool {
    exists|i: int| 0 <= i < w.len() && script_specific_char(script, #[trigger] w[i])
}

/// A piece without its leading Latin combining marks.
pub open spec fn trimmed(w: Seq<char>) -> Seq<char>
    decreases w.len(),
{
    if w.len() > 0 && latin_combining_char(w[0]) {
        trimmed(w.drop_first())
    } else {
        w
    }
}

/// The words kept from a sequence of pieces, in order.
pub open spec fn kept_words(script: Script, ps: Seq<Seq<char>>) -> Seq<Seq<char>>
    decreases ps.len(),
{
    if ps.len() == 0 {
        seq![]
    } else {
        let before = kept_words(script, ps.drop_last());
        if is_cool(script, ps.last()) {
            before.push(trimmed(ps.last()))
        } else {
            before
        }
    }
}

/// The words that a line yields.
pub open spec fn line_words(script: Script, s: Seq<char>) -> Seq<Seq<char>> {
    kept_words(script, pieces(script, s))
}

/// Whether a word holds a character of the script itself.
pub fn cool_word(script: Script, word: &[char]) -> (r: bool)
    ensures
        r == is_cool(script, word@),
{
    let mut i: usize = 0;
    while i < word.len()
        invariant
            i <= word.len(),
            forall|j: int| 0 <= j < i ==> !script_specific_char(script, #[trigger] word@[j]),
        decreases word.len() - i,
    {
        if script_specific_char(script, word[i]) {
            return true;
        }
        i = i + 1;
    }
    false
}

proof fn lemma_trimmed_suffix(w: Seq<char>, k: int)
    requires
        0 <= k <= w.len(),
        forall|j: int| 0 <= j < k ==> latin_combining_char(#[trigger] w[j]),
    ensures
        trimmed(w) == trimmed(w.subrange(k, w.len() as int)),
    decreases k,
{
    if k > 0 {
        assert(w.drop_first().subrange(k - 1, w.drop_first().len() as int) =~= w.subrange(
            k,
            w.len() as int,
        ));
        lemma_trimmed_suffix(w.drop_first(), k - 1);
    } else {
        assert(w.subrange(0, w.len() as int) =~= w);
    }
}

/// A word without its leading Latin combining marks.
pub fn make_word(s: &[char]) -> (r: String)
    ensures
        r@ == trimmed(s@),
{
    let mut k: usize = 0;
    while k < s.len() && latin_combining_char(s[k])
        invariant
            k <= s.len(),
            forall|j: int| 0 <= j < k ==> latin_combining_char(#[trigger] s@[j]),
        decreases s.len() - k,
    {
        k = k + 1;
    }
    proof {
        lemma_trimmed_suffix(s@, k as int);
        let rest = s@.subrange(k as int, s@.len() as int);
        if rest.len() > 0 {
            assert(rest[0] == s@[k as int]);
        }
    }
    string_of(vstd::slice::slice_subrange(s, k, s.len()))
}

/// The script-specific words of a line, in order, repeats included.
pub fn words_of_line(script: Script, line: &str) -> (r: Vec<String>)
    ensures
        r@.map_values(|w: String| w@) == line_words(script, line@),
{
    let cs = collect_chars(line);
    let mut words: Vec<String> = Vec::new();
    let mut start: usize = 0;
    let mut i: usize = 0;
    while i < cs.len()
        invariant
            start <= i <= cs.len(),
            cs@ == line@,
            pieces(script, cs@.take(i as int)).last() == cs@.subrange(start as int, i as int),
            words@.map_values(|w: String| w@) == kept_words(
                script,
                pieces(script, cs@.take(i as int)).drop_last(),
            ),
        decreases cs.len() - i,
    {
        let ghost before = pieces(script, cs@.take(i as int));
        proof {
            lemma_pieces_len(script, cs@.take(i as int));
        }
        assert(cs@.take(i + 1).drop_last() =~= cs@.take(i as int));
        assert(cs@.take(i + 1).last() == cs@[i as int]);
        if char_of_interest(script, cs[i]) {
            assert(cs@.subrange(start as int, i + 1) =~= cs@.subrange(start as int, i as int).push(
                cs@[i as int],
            ));
            assert(pieces(script, cs@.take(i + 1)).drop_last() =~= before.drop_last());
        } else {
            let piece = vstd::slice::slice_subrange(cs.as_slice(), start, i);
            if cool_word(script, piece) {
                words.push(make_word(piece));
            }
            assert(pieces(script, cs@.take(i + 1)).drop_last() =~= before);
            assert(before.drop_last() =~= before.drop_last());
            assert(words@.map_values(|w: String| w@) =~= kept_words(script, before));
            start = i + 1;
            assert(cs@.subrange(start as int, i + 1) =~= seq![]);
        }
        i = i + 1;
    }
    let piece = vstd::slice::slice_subrange(cs.as_slice(), start, cs.len());
    let ghost all = pieces(script, cs@);
    proof {
        lemma_pieces_len(script, cs@);
    }
    assert(cs@.take(cs@.len() as int) =~= cs@);
    if cool_word(script, piece) {
        words.push(make_word(piece));
    }
    assert(all.drop_last().push(all.last()) =~= all);
    assert(words@.map_values(|w: String| w@) =~= kept_words(script, all));
    words
}

/// Whether every character of `w` can be part of a word.
pub open spec fn all_of_interest(script: Script, w: Seq<char>) -> bool {
    forall|j: int| 0 <= j < w.len() ==> char_of_interest(script, #[trigger] w[j])
}

proof fn lemma_pieces_of_interest(script: Script, s: Seq<char>)
    ensures
        forall|k: int|
            0 <= k < pieces(script, s).len() ==> all_of_interest(
                script,
                #[trigger] pieces(script, s)[k],
            ),
    decreases s.len(),
{
    lemma_pieces_len(script, s);
    if s.len() > 0 {
        lemma_pieces_of_interest(script, s.drop_last());
        lemma_pieces_len(script, s.drop_last());
        let before = pieces(script, s.drop_last());
        let after = pieces(script, s);
        assert forall|k: int| 0 <= k < after.len() implies all_of_interest(
            script,
            #[trigger] after[k],
        ) by {
            if k < before.len() - 1 {
                assert(after[k] == before[k]);
            } else if k == before.len() - 1 {
                assert(all_of_interest(script, before[k]));
                if char_of_interest(script, s.last()) {
                    assert(after[k] == before[k].push(s.last()));
                } else {
                    assert(after[k] == before[k]);
                }
            } else {
                assert(after[k] =~= seq![]);
            }
        }
    }
}

proof fn lemma_single_piece(script: Script, w: Seq<char>)
    requires
        all_of_interest(script, w),
    ensures
        pieces(script, w) == seq![w],
    decreases w.len(),
{
    if w.len() == 0 {
        assert(w =~= seq![]);
    } else {
        let rest = w.drop_last();
        assert(all_of_interest(script, rest)) by {
            assert forall|j: int| 0 <= j < rest.len() implies char_of_interest(
                script,
                #[trigger] rest[j],
            ) by {
                assert(rest[j] == w[j]);
            }
        }
        lemma_single_piece(script, rest);
        assert(char_of_interest(script, w[w.len() - 1]));
        assert(rest.push(w.last()) =~= w);
        assert(pieces(script, w) =~= seq![w]);
    }
}

proof fn lemma_trimmed_shape(script: Script, w: Seq<char>)
    requires
        all_of_interest(script, w),
        is_cool(script, w),
    ensures
        all_of_interest(script, trimmed(w)),
        is_cool(script, trimmed(w)),
        trimmed(w).len() > 0,
        !latin_combining_char(trimmed(w)[0]),
    decreases w.len(),
{
    let i = choose|i: int| 0 <= i < w.len() && script_specific_char(script, #[trigger] w[i]);
    if w.len() > 0 && latin_combining_char(w[0]) {
        let rest = w.drop_first();
        assert(i != 0);
        assert(rest[i - 1] == w[i]);
        assert(is_cool(script, rest));
        assert forall|j: int| 0 <= j < rest.len() implies char_of_interest(
            script,
            #[trigger] rest[j],
        ) by {
            assert(rest[j] == w[j + 1]);
        }
        lemma_trimmed_shape(script, rest);
    }
}

proof fn lemma_kept_words_shape(script: Script, ps: Seq<Seq<char>>)
    requires
        forall|k: int| 0 <= k < ps.len() ==> all_of_interest(script, #[trigger] ps[k]),
    ensures
        forall|i: int|
            0 <= i < kept_words(script, ps).len() ==> {
                let w = #[trigger] kept_words(script, ps)[i];
                &&& all_of_interest(script, w)
                &&& is_cool(script, w)
                &&& w.len() > 0
                &&& !latin_combining_char(w[0])
            },
    decreases ps.len(),
{
    if ps.len() > 0 {
        let rest = ps.drop_last();
        assert forall|k: int| 0 <= k < rest.len() implies all_of_interest(
            script,
            #[trigger] rest[k],
        ) by {
            assert(rest[k] == ps[k]);
        }
        lemma_kept_words_shape(script, rest);
        let before = kept_words(script, rest);
        let after = kept_words(script, ps);
        if is_cool(script, ps.last()) {
            lemma_trimmed_shape(script, ps.last());
            assert(after == before.push(trimmed(ps.last())));
        } else {
            assert(after == before);
        }
        assert forall|i: int| 0 <= i < after.len() implies {
            let w = #[trigger] after[i];
            &&& all_of_interest(script, w)
            &&& is_cool(script, w)
            &&& w.len() > 0
            &&& !latin_combining_char(w[0])
        } by {
            if i < before.len() {
                assert(after[i] == before[i]);
            }
        }
    }
}

/// Extraction is idempotent: each word that a line yields, read as a line of
/// its own, yields exactly that word again. So the words extracted from the
/// extracted words are the extracted words.
pub proof fn lemma_words_idempotent(script: Script, s: Seq<char>)
    ensures
        forall|i: int|
            0 <= i < line_words(script, s).len() ==> line_words(
                script,
                #[trigger] line_words(script, s)[i],
            ) == seq![line_words(script, s)[i]],
{
    lemma_pieces_of_interest(script, s);
    lemma_kept_words_shape(script, pieces(script, s));
    assert forall|i: int| 0 <= i < line_words(script, s).len() implies line_words(
        script,
        #[trigger] line_words(script, s)[i],
    ) == seq![line_words(script, s)[i]] by {
        let w = line_words(script, s)[i];
        lemma_single_piece(script, w);
        let ps = seq![w];
        assert(ps.drop_last() =~= seq![]);
        assert(ps.last() == w);
        assert(is_cool(script, w));
        assert(trimmed(w) == w);
        assert(kept_words(script, ps.drop_last()) == Seq::<Seq<char>>::empty());
        assert(kept_words(script, ps) =~= seq![w]);
    }
}

} // verus!
