//! The streaming segmenter: it drives a grammar over a whole text and
//! reports, in order, every cluster and every character that starts none.
use vstd::prelude::*;
use crate::indic::{self, indic_syllable};
use crate::myanmar::{self, myanmar_syllable, MAX_CLUSTER_LEN};
use crate::text::{collect_chars, string_of};
use crate::{lift_syllable, Syllable};

verus! {

/// Which cluster grammar drives the segmenter.
#[derive(Clone, Copy, Debug, PartialEq, Eq, Structural)]
pub enum Grammar {
    Indic,
    Myanmar,
}

/// What the segmenter makes of a stretch of the text.
#[derive(Clone, Copy, Debug, PartialEq, Eq, Structural)]
pub enum Piece {
    /// A cluster of the given kind.
    Cluster(Syllable),
    /// A character at which no cluster starts; it is reported.
    Unrecognized,
    /// A number or modifying letter at which no cluster starts; it is not reported.
    PassedOver,
}

/// A stretch `[start, end)` of the text and what it was taken for.
pub type Span = (int, int, Piece);

/// The cluster that the grammar recognises at `pos`.
#[verifier::opaque]
pub open spec fn syllable_of(g: Grammar, s: Seq<char>, pos: int) -> Option<(nat, Syllable)> {
    match g {
        Grammar::Indic => indic_syllable(s, pos),
        Grammar::Myanmar => myanmar_syllable(s, pos),
    }
}

/// Whether a character at which no cluster starts is passed over silently:
/// under the Indic grammar a number or modifying letter is; under the
/// Myanmar grammar every such character is reported.
pub open spec fn passed_over(g: Grammar, c: char) -> bool {
    g == Grammar::Indic && indic::other(c)
}

/// One move of the segmenter at `pos`: how far it advances, and the piece.
pub open spec fn step(g: Grammar, s: Seq<char>, pos: int) -> (nat, Piece) {
    match syllable_of(g, s, pos) {
        Some((n, k)) => (n, Piece::Cluster(k)),
        None => (1, if passed_over(g, s[pos]) { Piece::PassedOver } else { Piece::Unrecognized }),
    }
}

/// A recognised cluster is never empty and never runs past the end of the
/// text; a Myanmar cluster is at most `MAX_CLUSTER_LEN` long.
pub proof fn lemma_syllable_in_text(g: Grammar, s: Seq<char>, pos: int)
    requires
        0 <= pos < s.len(),
    ensures
        syllable_of(g, s, pos) matches Some((n, _)) ==> {
            &&& 1 <= n
            &&& pos + n <= s.len()
            &&& g == Grammar::Myanmar ==> n <= MAX_CLUSTER_LEN
        },
{
    reveal(syllable_of);
    match g {
        Grammar::Indic => {
            indic::lemma_syllable_nonempty(s, pos);
            indic::lemma_syllable_in_bounds(s, pos);
        },
        Grammar::Myanmar => {
            myanmar::lemma_syllable_nonempty(s, pos);
            myanmar::lemma_syllable_in_bounds(s, pos);
        },
    }
}

/// Every stretch the segmenter takes from `pos` on, up to the end of the text.
pub open spec fn spans(g: Grammar, s: Seq<char>, pos: int) -> Seq<Span>
    decreases s.len() - pos via spans_decreases
{
    if 0 <= pos < s.len() {
        let (n, piece) = step(g, s, pos);
        seq![(pos, pos + n, piece)] + spans(g, s, pos + n)
    } else {
        seq![]
    }
}

#[via_fn]
proof fn spans_decreases(g: Grammar, s: Seq<char>, pos: int) {
    if 0 <= pos < s.len() {
        lemma_syllable_in_text(g, s, pos);
    }
}

/// The stretches that are reported: all but those passed over.
pub open spec fn reported(sp: Seq<Span>) -> Seq<Span>
    decreases sp.len(),
{
    if sp.len() == 0 {
        seq![]
    } else if sp[0].2 == Piece::PassedOver {
        reported(sp.drop_first())
    } else {
        seq![sp[0]] + reported(sp.drop_first())
    }
}

/// The records that the segmenter reports from `pos` on.
pub open spec fn records(g: Grammar, s: Seq<char>, pos: int) -> Seq<Span> {
    reported(spans(g, s, pos))
}

/// The text of a record: `Ok` for a cluster, `Err` for an unrecognised character.
pub open spec fn record_text(s: Seq<char>, r: Span) -> Result<Seq<char>, Seq<char>> {
    match r.2 {
        Piece::Cluster(_) => Ok(s.subrange(r.0, r.1)),
        _ => Err(s.subrange(r.0, r.1)),
    }
}

/// A result of strings seen as character sequences.
pub open spec fn result_view(r: Result<String, String>) -> Result<Seq<char>, Seq<char>> {
    match r {
        Ok(x) => Ok(x@),
        Err(x) => Err(x@),
    }
}

/// Recognises the cluster that the grammar finds at `pos`.
pub fn syllable_at(g: Grammar, cs: &[char], pos: usize) -> (r: Option<(usize, Syllable)>)
    requires
        pos <= cs.len(),
    ensures
        lift_syllable(r) == syllable_of(g, cs@, pos as int),
{
    reveal(syllable_of);
    match g {
        Grammar::Indic => indic::syllable_at(cs, pos),
        Grammar::Myanmar => myanmar::syllable_at(cs, pos),
    }
}

/// Segments a text into clusters, one record at a time.
pub struct SyllableIter {
    buf: Vec<char>,
    i: usize,
    grammar: Grammar,
}

impl SyllableIter {
    #[verifier::type_invariant]
    spec fn inv(&self) -> bool {
        self.i <= self.buf.len()
    }

    /// The whole text being segmented.
    pub closed spec fn text(&self) -> Seq<char> {
        self.buf@
    }

    /// Where the next record starts from.
    pub closed spec fn position(&self) -> int {
        self.i as int
    }

    /// The grammar that drives the segmenter.
    pub closed spec fn grammar(&self) -> Grammar {
        self.grammar
    }

    /// The records still to come.
    pub open spec fn pending(&self) -> Seq<Span> {
        records(self.grammar(), self.text(), self.position())
    }

    /// Segments `s` with the Indic grammar.
    pub fn new(s: &str) -> (r: Self)
        ensures
            r.text() == s@,
            r.position() == 0,
            r.grammar() == Grammar::Indic,
    {
        SyllableIter { buf: collect_chars(s), i: 0, grammar: Grammar::Indic }
    }

    /// Segments `s` with the Myanmar grammar.
    pub fn new_myanmar(s: &str) -> (r: Self)
        ensures
            r.text() == s@,
            r.position() == 0,
            r.grammar() == Grammar::Myanmar,
    {
        SyllableIter { buf: collect_chars(s), i: 0, grammar: Grammar::Myanmar }
    }

    /// The next record: a cluster as `Ok`, an unrecognised character as `Err`.
    pub fn next(&mut self) -> (r: Option<Result<String, String>>)
        ensures
            final(self).text() == old(self).text(),
            final(self).grammar() == old(self).grammar(),
            old(self).pending().len() == 0 ==> r is None && final(self).pending().len() == 0,
            old(self).pending().len() > 0 ==> {
                &&& r matches Some(x)
                &&& result_view(x) == record_text(old(self).text(), old(self).pending()[0])
                &&& final(self).pending() == old(self).pending().drop_first()
            },
    {
        proof {
            use_type_invariant(&*self);
        }
        let ghost g = self.grammar;
        let ghost s = self.buf@;
        let ghost start = self.i as int;
        while self.i < self.buf.len()
            invariant
                self.i <= self.buf.len(),
                self.buf@ == s,
                self.grammar == g,
                s == old(self).text(),
                g == old(self).grammar(),
                start == old(self).position(),
                records(g, s, self.i as int) == records(g, s, start),
            decreases self.buf.len() - self.i,
        {
            let pos = self.i;
            proof {
                lemma_syllable_in_text(g, s, pos as int);
                lemma_records_unfold(g, s, pos as int);
            }
            match syllable_at(self.grammar, self.buf.as_slice(), pos) {
                Some((n, _)) => {
                    self.i = pos + n;
                    let t = string_of(vstd::slice::slice_subrange(self.buf.as_slice(), pos, pos + n));
                    return Some(Ok(t));
                },
                None => {
                    self.i = pos + 1;
                    let passed = match self.grammar {
                        Grammar::Indic => indic::other(self.buf[pos]),
                        Grammar::Myanmar => false,
                    };
                    if !passed {
                        let t = string_of(vstd::slice::slice_subrange(self.buf.as_slice(), pos, pos + 1));
                        return Some(Err(t));
                    }
                },
            }
        }
        proof {
            lemma_records_unfold(g, s, self.i as int);
        }
        None
    }
}

/// Determinism: what a segmenter reports depends only on its text, its
/// grammar and its position, so two segmenters that agree on those report
/// the same records in the same order.
pub proof fn lemma_deterministic(a: &SyllableIter, b: &SyllableIter)
    requires
        a.text() == b.text(),
        a.grammar() == b.grammar(),
        a.position() == b.position(),
    ensures
        a.pending() == b.pending(),
{
}

/// How `records` unfolds at one position.
proof fn lemma_records_unfold(g: Grammar, s: Seq<char>, pos: int)
    requires
        0 <= pos <= s.len(),
    ensures
        pos == s.len() ==> records(g, s, pos).len() == 0,
        pos < s.len() ==> ({
            let (n, piece) = step(g, s, pos);
            &&& piece == Piece::PassedOver ==> records(g, s, pos) == records(g, s, pos + n)
            &&& piece != Piece::PassedOver ==> records(g, s, pos) == seq![(pos, pos + n, piece)]
                + records(g, s, pos + n)
        }),
{
    if pos < s.len() {
        let sp = spans(g, s, pos);
        let (n, piece) = step(g, s, pos);
        assert(sp.drop_first() =~= spans(g, s, pos + n));
    }
}

/// The text that a sequence of stretches covers, in order.
pub open spec fn joined(s: Seq<char>, sp: Seq<Span>) -> Seq<char>
    decreases sp.len(),
{
    if sp.len() == 0 {
        seq![]
    } else {
        s.subrange(sp[0].0, sp[0].1) + joined(s, sp.drop_first())
    }
}

proof fn lemma_spans_cover(g: Grammar, s: Seq<char>, pos: int)
    requires
        0 <= pos <= s.len(),
    ensures
        joined(s, spans(g, s, pos)) == s.subrange(pos, s.len() as int),
        forall|i: int|
            0 <= i < spans(g, s, pos).len() && (#[trigger] spans(g, s, pos)[i]).2
                == Piece::PassedOver ==> {
                &&& spans(g, s, pos)[i].1 == spans(g, s, pos)[i].0 + 1
                &&& passed_over(g, s[spans(g, s, pos)[i].0])
            },
    decreases s.len() - pos,
{
    let sp = spans(g, s, pos);
    if pos < s.len() {
        lemma_syllable_in_text(g, s, pos);
        let (n, piece) = step(g, s, pos);
        lemma_spans_cover(g, s, pos + n);
        assert(sp.drop_first() =~= spans(g, s, pos + n));
        assert(s.subrange(pos, s.len() as int) =~= s.subrange(pos, pos + n) + s.subrange(
            pos + n,
            s.len() as int,
        ));
        assert forall|i: int|
            0 <= i < sp.len() && (#[trigger] sp[i]).2 == Piece::PassedOver implies {
                &&& sp[i].1 == sp[i].0 + 1
                &&& passed_over(g, s[sp[i].0])
            } by {
            if i > 0 {
                assert(sp[i] == spans(g, s, pos + n)[i - 1]);
            } else {
                reveal(syllable_of);
            }
        }
    } else {
        assert(s.subrange(pos, s.len() as int) =~= seq![]);
    }
}

/// Coverage: the stretches that the segmenter takes, reported or passed
/// over, put together in order give back the text exactly. The reported
/// records are those stretches but the ones passed over, and each stretch
/// passed over is one character that the grammar lets the segmenter skip.
pub proof fn lemma_coverage(g: Grammar, s: Seq<char>)
    ensures
        joined(s, spans(g, s, 0)) == s,
        records(g, s, 0) == reported(spans(g, s, 0)),
        forall|i: int|
            0 <= i < spans(g, s, 0).len() && (#[trigger] spans(g, s, 0)[i]).2 == Piece::PassedOver
                ==> {
                &&& spans(g, s, 0)[i].1 == spans(g, s, 0)[i].0 + 1
                &&& passed_over(g, s[spans(g, s, 0)[i].0])
            },
{
    lemma_spans_cover(g, s, 0);
    assert(s.subrange(0, s.len() as int) =~= s);
}

proof fn lemma_records_shape(g: Grammar, s: Seq<char>, pos: int)
    requires
        0 <= pos <= s.len(),
    ensures
        forall|i: int|
            0 <= i < records(g, s, pos).len() ==> {
                let r = #[trigger] records(g, s, pos)[i];
                &&& pos <= r.0 < r.1 <= s.len()
                &&& r.2 != Piece::PassedOver
                &&& !(r.2 is Cluster) ==> r.1 == r.0 + 1
                &&& g == Grammar::Myanmar ==> r.1 - r.0 <= MAX_CLUSTER_LEN
            },
    decreases s.len() - pos,
{
    lemma_records_unfold(g, s, pos);
    if pos < s.len() {
        lemma_syllable_in_text(g, s, pos);
        let (n, piece) = step(g, s, pos);
        lemma_records_shape(g, s, pos + n);
        let rs = records(g, s, pos);
        let rest = records(g, s, pos + n);
        assert forall|i: int| 0 <= i < rs.len() implies {
            let r = #[trigger] rs[i];
            &&& pos <= r.0 < r.1 <= s.len()
            &&& r.2 != Piece::PassedOver
            &&& !(r.2 is Cluster) ==> r.1 == r.0 + 1
            &&& g == Grammar::Myanmar ==> r.1 - r.0 <= MAX_CLUSTER_LEN
        } by {
            if piece == Piece::PassedOver {
                assert(rs[i] == rest[i]);
            } else if i > 0 {
                assert(rs[i] == rest[i - 1]);
            } else {
                reveal(syllable_of);
            }
        }
    }
}

/// Every reported cluster is at least one character long, and every
/// unrecognised record is exactly one character; under the Myanmar grammar
/// no cluster is longer than `MAX_CLUSTER_LEN`.
pub proof fn lemma_records_lengths(g: Grammar, s: Seq<char>)
    ensures
        forall|i: int|
            0 <= i < records(g, s, 0).len() ==> {
                let r = #[trigger] records(g, s, 0)[i];
                &&& 1 <= r.1 - r.0
                &&& !(r.2 is Cluster) ==> r.1 - r.0 == 1
                &&& g == Grammar::Myanmar ==> r.1 - r.0 <= MAX_CLUSTER_LEN
            },
{
    lemma_records_shape(g, s, 0);
}

} // verus!
