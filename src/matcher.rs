//! A small algebra of matchers over character sequences.
//!
//! A matcher inspects a sequence from a starting position and reports how
//! many characters it recognises there, or that it recognises nothing. Each
//! combinator is a value whose meaning is given by `Matcher::spec_match`, and
//! whose executable `match_at` is proved to agree with that meaning.
use vstd::prelude::*;

verus! {

/// A length-only match result lifted to the naturals.
pub open spec fn lift(r: Option<usize>) -> Option<nat> {
    match r {
        Some(n) => Some(n as nat),
        None => None,
    }
}

/// The longer of two results; `b` on a tie, and a failure only if both fail.
pub open spec fn longest(a: Option<nat>, b: Option<nat>) -> Option<nat> {
    match (a, b) {
        (Some(x), Some(y)) => if x > y { Some(x) } else { Some(y) },
        (Some(x), None) => Some(x),
        (None, _) => b,
    }
}

/// A result moved along by `k` characters already consumed.
pub open spec fn shift(k: nat, r: Option<nat>) -> Option<nat> {
    match r {
        Some(n) => Some(k + n),
        None => None,
    }
}

/// A failure, or a match of at least `m` characters.
pub open spec fn at_least(r: Option<nat>, m: nat) -> bool {
    r matches Some(n) ==> n >= m
}

/// A test on a single character.
pub trait CharPredicate {
    spec fn holds(&self, c: char) -> bool;

    fn test(&self, c: char) -> (r: bool)
        ensures
            r == self.holds(c),
    ;
}

/// A matcher over a character sequence, applied at position `pos`.
pub trait Matcher {
    /// The number of characters recognised at `pos`, or `None` on failure.
    spec fn spec_match(&self, s: Seq<char>, pos: int) -> Option<nat>;

    /// A successful match never runs past the end of the input.
    proof fn lemma_in_bounds(&self, s: Seq<char>, pos: int)
        requires
            0 <= pos <= s.len(),
        ensures
            self.spec_match(s, pos) matches Some(n) ==> pos + n <= s.len(),
    ;

    fn match_at(&self, cs: &[char], pos: usize) -> (r: Option<usize>)
        requires
            pos <= cs.len(),
        ensures
            lift(r) == self.spec_match(cs@, pos as int),
    ;
}

/// Exactly one character satisfying a predicate.
#[derive(Clone, Copy)]
pub struct One<P>(pub P);

impl<P: CharPredicate> Matcher for One<P> {
    open spec fn spec_match(&self, s: Seq<char>, pos: int) -> Option<nat> {
        if 0 <= pos < s.len() && self.0.holds(s[pos]) {
            Some(1)
        } else {
            None
        }
    }

    proof fn lemma_in_bounds(&self, s: Seq<char>, pos: int) {
    }

    fn match_at(&self, cs: &[char], pos: usize) -> (r: Option<usize>) {
        if pos < cs.len() && self.0.test(cs[pos]) {
            Some(1)
        } else {
            None
        }
    }
}

/// The empty match, which always succeeds without consuming anything.
#[derive(Clone, Copy)]
pub struct Unit;

impl Matcher for Unit {
    open spec fn spec_match(&self, s: Seq<char>, pos: int) -> Option<nat> {
        Some(0)
    }

    proof fn lemma_in_bounds(&self, s: Seq<char>, pos: int) {
    }

    fn match_at(&self, cs: &[char], pos: usize) -> (r: Option<usize>) {
        Some(0)
    }
}

/// `m` if it matches, and otherwise the empty match.
#[derive(Clone, Copy)]
pub struct Optional<M>(pub M);

impl<M: Matcher> Matcher for Optional<M> {
    open spec fn spec_match(&self, s: Seq<char>, pos: int) -> Option<nat> {
        match self.0.spec_match(s, pos) {
            Some(n) => Some(n),
            None => Some(0),
        }
    }

    proof fn lemma_in_bounds(&self, s: Seq<char>, pos: int) {
        self.0.lemma_in_bounds(s, pos);
    }

    fn match_at(&self, cs: &[char], pos: usize) -> (r: Option<usize>) {
        match self.0.match_at(cs, pos) {
            Some(n) => Some(n),
            None => Some(0),
        }
    }
}

/// `m`, but only when it consumes at least one character.
#[derive(Clone, Copy)]
pub struct NonEmpty<M>(pub M);

impl<M: Matcher> Matcher for NonEmpty<M> {
    open spec fn spec_match(&self, s: Seq<char>, pos: int) -> Option<nat> {
        match self.0.spec_match(s, pos) {
            Some(n) => if n > 0 { Some(n) } else { None },
            None => None,
        }
    }

    proof fn lemma_in_bounds(&self, s: Seq<char>, pos: int) {
        self.0.lemma_in_bounds(s, pos);
    }

    fn match_at(&self, cs: &[char], pos: usize) -> (r: Option<usize>) {
        match self.0.match_at(cs, pos) {
            Some(n) => if n > 0 { Some(n) } else { None },
            None => None,
        }
    }
}

/// `a` followed by `b` on what `a` left over.
#[derive(Clone, Copy)]
pub struct Sequence<A, B>(pub A, pub B);

impl<A: Matcher, B: Matcher> Matcher for Sequence<A, B> {
    open spec fn spec_match(&self, s: Seq<char>, pos: int) -> Option<nat> {
        match self.0.spec_match(s, pos) {
            Some(n1) => shift(n1, self.1.spec_match(s, pos + n1)),
            None => None,
        }
    }

    proof fn lemma_in_bounds(&self, s: Seq<char>, pos: int) {
        self.0.lemma_in_bounds(s, pos);
        if let Some(n1) = self.0.spec_match(s, pos) {
            self.1.lemma_in_bounds(s, pos + n1);
        }
    }

    fn match_at(&self, cs: &[char], pos: usize) -> (r: Option<usize>) {
        match self.0.match_at(cs, pos) {
            Some(n1) => {
                proof {
                    self.0.lemma_in_bounds(cs@, pos as int);
                }
                match self.1.match_at(cs, pos + n1) {
                    Some(n2) => {
                        proof {
                            self.1.lemma_in_bounds(cs@, (pos + n1) as int);
                        }
                        Some(n1 + n2)
                    },
                    None => None,
                }
            },
            None => None,
        }
    }
}

/// Whichever of `a` and `b` consumes more; `b` on a tie.
#[derive(Clone, Copy)]
pub struct Either<A, B>(pub A, pub B);

impl<A: Matcher, B: Matcher> Matcher for Either<A, B> {
    open spec fn spec_match(&self, s: Seq<char>, pos: int) -> Option<nat> {
        longest(self.0.spec_match(s, pos), self.1.spec_match(s, pos))
    }

    proof fn lemma_in_bounds(&self, s: Seq<char>, pos: int) {
        self.0.lemma_in_bounds(s, pos);
        self.1.lemma_in_bounds(s, pos);
    }

    fn match_at(&self, cs: &[char], pos: usize) -> (r: Option<usize>) {
        let r1 = self.0.match_at(cs, pos);
        let r2 = self.1.match_at(cs, pos);
        match (r1, r2) {
            (Some(n1), Some(n2)) => if n1 > n2 { Some(n1) } else { Some(n2) },
            (Some(n1), None) => Some(n1),
            (None, _) => r2,
        }
    }
}

/// `a` if it matches, and otherwise `b`: the first rule in order wins.
#[derive(Clone, Copy)]
pub struct Ordered<A, B>(pub A, pub B);

impl<A: Matcher, B: Matcher> Matcher for Ordered<A, B> {
    open spec fn spec_match(&self, s: Seq<char>, pos: int) -> Option<nat> {
        match self.0.spec_match(s, pos) {
            Some(n) => Some(n),
            None => self.1.spec_match(s, pos),
        }
    }

    proof fn lemma_in_bounds(&self, s: Seq<char>, pos: int) {
        self.0.lemma_in_bounds(s, pos);
        self.1.lemma_in_bounds(s, pos);
    }

    fn match_at(&self, cs: &[char], pos: usize) -> (r: Option<usize>) {
        match self.0.match_at(cs, pos) {
            Some(n) => Some(n),
            None => self.1.match_at(cs, pos),
        }
    }
}

/// `f? g`: the longer of `g` alone and `f` followed by `g`.
#[derive(Clone, Copy)]
pub struct OptionalSeq<F, G>(pub F, pub G);

impl<F: Matcher, G: Matcher> Matcher for OptionalSeq<F, G> {
    open spec fn spec_match(&self, s: Seq<char>, pos: int) -> Option<nat> {
        longest(
            self.1.spec_match(s, pos),
            match self.0.spec_match(s, pos) {
                Some(n) => shift(n, self.1.spec_match(s, pos + n)),
                None => None,
            },
        )
    }

    proof fn lemma_in_bounds(&self, s: Seq<char>, pos: int) {
        self.1.lemma_in_bounds(s, pos);
        self.0.lemma_in_bounds(s, pos);
        if let Some(n) = self.0.spec_match(s, pos) {
            self.1.lemma_in_bounds(s, pos + n);
        }
    }

    fn match_at(&self, cs: &[char], pos: usize) -> (r: Option<usize>) {
        let alone = self.1.match_at(cs, pos);
        let after = match self.0.match_at(cs, pos) {
            Some(n) => {
                proof {
                    self.0.lemma_in_bounds(cs@, pos as int);
                }
                match self.1.match_at(cs, pos + n) {
                    Some(m) => {
                        proof {
                            self.1.lemma_in_bounds(cs@, (pos + n) as int);
                        }
                        Some(n + m)
                    },
                    None => None,
                }
            },
            None => None,
        };
        match (alone, after) {
            (Some(n1), Some(n2)) => if n1 > n2 { Some(n1) } else { Some(n2) },
            (Some(n1), None) => Some(n1),
            (None, _) => after,
        }
    }
}

/// Exactly `k` back-to-back matches of `f`.
pub open spec fn repeat_exactly<F: Matcher>(k: nat, f: F, s: Seq<char>, pos: int) -> Option<nat>
    decreases k,
{
    if k == 0 {
        Some(0)
    } else {
        match f.spec_match(s, pos) {
            Some(n) => shift(n, repeat_exactly((k - 1) as nat, f, s, pos + n)),
            None => None,
        }
    }
}

/// The longest of `i` matches of `f` followed by `g`, for `i` in `0..=k`.
pub open spec fn repeat_then<F: Matcher, G: Matcher>(
    k: nat,
    f: F,
    g: G,
    s: Seq<char>,
    pos: int,
) -> Option<nat>
    decreases k,
{
    longest(
        g.spec_match(s, pos),
        if k == 0 {
            None
        } else {
            match f.spec_match(s, pos) {
                Some(n) => shift(n, repeat_then((k - 1) as nat, f, g, s, pos + n)),
                None => None,
            }
        },
    )
}

/// The part of `repeat_then` that takes at least one more `f`.
pub open spec fn repeat_then_more<F: Matcher, G: Matcher>(
    k: nat,
    f: F,
    g: G,
    s: Seq<char>,
    pos: int,
) -> Option<nat> {
    if k == 0 {
        None
    } else {
        match f.spec_match(s, pos) {
            Some(n) => shift(n, repeat_then((k - 1) as nat, f, g, s, pos + n)),
            None => None,
        }
    }
}

proof fn lemma_longest_shift(k: nat, a: Option<nat>, b: Option<nat>, c: Option<nat>)
    ensures
        shift(k, longest(a, b)) == longest(shift(k, a), shift(k, b)),
        longest(c, longest(a, b)) == longest(longest(c, a), b),
        shift(0, a) == a,
        longest(c, None) == c,
{
}

proof fn lemma_repeat_exactly_in_bounds<F: Matcher>(k: nat, f: F, s: Seq<char>, pos: int)
    requires
        0 <= pos <= s.len(),
    ensures
        repeat_exactly(k, f, s, pos) matches Some(n) ==> pos + n <= s.len(),
    decreases k,
{
    if k > 0 {
        f.lemma_in_bounds(s, pos);
        if let Some(n) = f.spec_match(s, pos) {
            lemma_repeat_exactly_in_bounds((k - 1) as nat, f, s, pos + n);
        }
    }
}

proof fn lemma_repeat_then_in_bounds<F: Matcher, G: Matcher>(
    k: nat,
    f: F,
    g: G,
    s: Seq<char>,
    pos: int,
)
    requires
        0 <= pos <= s.len(),
    ensures
        repeat_then(k, f, g, s, pos) matches Some(n) ==> pos + n <= s.len(),
    decreases k,
{
    g.lemma_in_bounds(s, pos);
    if k > 0 {
        f.lemma_in_bounds(s, pos);
        if let Some(n) = f.spec_match(s, pos) {
            lemma_repeat_then_in_bounds((k - 1) as nat, f, g, s, pos + n);
        }
    }
}

/// Where every result of `g` is at least `m` long, so is every result of
/// `f`-repetitions followed by `g`.
pub proof fn lemma_repeat_then_at_least<F: Matcher, G: Matcher>(
    k: nat,
    f: F,
    g: G,
    s: Seq<char>,
    pos: int,
    m: nat,
)
    requires
        forall|p: int| at_least(#[trigger] g.spec_match(s, p), m),
    ensures
        at_least(repeat_then(k, f, g, s, pos), m),
    decreases k,
{
    assert(at_least(g.spec_match(s, pos), m));
    if k > 0 {
        if let Some(n) = f.spec_match(s, pos) {
            lemma_repeat_then_at_least((k - 1) as nat, f, g, s, pos + n, m);
        }
    }
}

/// Exactly `num` back-to-back matches of `f`.
#[derive(Clone, Copy)]
pub struct RepeatNum<F> {
    pub num: usize,
    pub f: F,
}

impl<F: Matcher> Matcher for RepeatNum<F> {
    open spec fn spec_match(&self, s: Seq<char>, pos: int) -> Option<nat> {
        repeat_exactly(self.num as nat, self.f, s, pos)
    }

    proof fn lemma_in_bounds(&self, s: Seq<char>, pos: int) {
        lemma_repeat_exactly_in_bounds(self.num as nat, self.f, s, pos);
    }

    fn match_at(&self, cs: &[char], pos: usize) -> (r: Option<usize>) {
        let mut total: usize = 0;
        let mut i: usize = 0;
        while i < self.num
            invariant
                i <= self.num,
                pos + total <= cs.len(),
                self.spec_match(cs@, pos as int) == shift(
                    total as nat,
                    repeat_exactly((self.num - i) as nat, self.f, cs@, pos + total),
                ),
            decreases self.num - i,
        {
            match self.f.match_at(cs, pos + total) {
                Some(n) => {
                    proof {
                        self.f.lemma_in_bounds(cs@, pos + total);
                    }
                    total = total + n;
                    i = i + 1;
                },
                None => {
                    return None;
                },
            }
        }
        Some(total)
    }
}

/// Up to `max` matches of `f` followed by `g`, keeping the longest total.
#[derive(Clone, Copy)]
pub struct RepeatUpto<F, G> {
    pub max: usize,
    pub f: F,
    pub g: G,
}

impl<F: Matcher, G: Matcher> Matcher for RepeatUpto<F, G> {
    open spec fn spec_match(&self, s: Seq<char>, pos: int) -> Option<nat> {
        repeat_then(self.max as nat, self.f, self.g, s, pos)
    }

    proof fn lemma_in_bounds(&self, s: Seq<char>, pos: int) {
        lemma_repeat_then_in_bounds(self.max as nat, self.f, self.g, s, pos);
    }

    fn match_at(&self, cs: &[char], pos: usize) -> (r: Option<usize>) {
        let mut best = self.g.match_at(cs, pos);
        let mut consumed: usize = 0;
        let mut i: usize = 0;
        proof {
            lemma_longest_shift(
                0,
                repeat_then_more(self.max as nat, self.f, self.g, cs@, pos as int),
                None,
                None,
            );
        }
        while i < self.max
            invariant
                i <= self.max,
                pos + consumed <= cs.len(),
                self.spec_match(cs@, pos as int) == longest(
                    lift(best),
                    shift(
                        consumed as nat,
                        repeat_then_more(
                            (self.max - i) as nat,
                            self.f,
                            self.g,
                            cs@,
                            pos + consumed,
                        ),
                    ),
                ),
            decreases self.max - i,
        {
            let ghost k = (self.max - i) as nat;
            let ghost p = pos + consumed;
            match self.f.match_at(cs, pos + consumed) {
                Some(n) => {
                    proof {
                        self.f.lemma_in_bounds(cs@, p);
                    }
                    let ghost old_best = lift(best);
                    let ghost old_consumed = consumed as nat;
                    consumed = consumed + n;
                    i = i + 1;
                    let next = self.g.match_at(cs, pos + consumed);
                    proof {
                        self.g.lemma_in_bounds(cs@, pos + consumed);
                    }
                    if let Some(m) = next {
                        best = Some(
                            match best {
                                Some(b) => if b > consumed + m { b } else { consumed + m },
                                None => consumed + m,
                            },
                        );
                    }
                    proof {
                        let g_here = self.g.spec_match(cs@, pos + consumed);
                        let more = repeat_then_more(
                            (k - 1) as nat,
                            self.f,
                            self.g,
                            cs@,
                            pos + consumed,
                        );
                        lemma_longest_shift(n as nat, g_here, more, None);
                        lemma_longest_shift(old_consumed, shift(n as nat, g_here), shift(n as nat, more), None);
                        lemma_longest_shift(0, shift(consumed as nat, g_here), shift(consumed as nat, more), old_best);
                    }
                },
                None => {
                    proof {
                        lemma_longest_shift(consumed as nat, None, None, lift(best));
                    }
                    return best;
                },
            }
        }
        best
    }
}

/// Matches a single character that satisfies `p`.
#[verifier::allow_in_spec]
pub fn match_one<P: CharPredicate>(p: P) -> One<P>
    returns
        One(p),
{
    One(p)
}

/// Matches nothing, successfully.
#[verifier::allow_in_spec]
pub fn match_unit() -> Unit
    returns
        Unit,
{
    Unit
}

/// Succeeds with `f`'s length if `f` matches, and otherwise consumes nothing.
#[verifier::allow_in_spec]
pub fn match_optional<F: Matcher>(f: F) -> Optional<F>
    returns
        Optional(f),
{
    Optional(f)
}

/// Succeeds with `f`'s length only when `f` consumes something.
#[verifier::allow_in_spec]
pub fn match_nonempty<F: Matcher>(f: F) -> NonEmpty<F>
    returns
        NonEmpty(f),
{
    NonEmpty(f)
}

/// `f? g`: matches either `g` or `f g`, whichever is longer.
#[verifier::allow_in_spec]
pub fn match_optional_seq<F: Matcher, G: Matcher>(f: F, g: G) -> OptionalSeq<F, G>
    returns
        OptionalSeq(f, g),
{
    OptionalSeq(f, g)
}

/// Exactly `num` back-to-back matches of `f`.
#[verifier::allow_in_spec]
pub fn match_repeat_num<F: Matcher>(num: usize, f: F) -> RepeatNum<F>
    returns
        (RepeatNum { num, f }),
{
    RepeatNum { num, f }
}

/// Up to `max` matches of `f`, followed by `g`.
#[verifier::allow_in_spec]
pub fn match_repeat_upto<F: Matcher, G: Matcher>(max: usize, f: F, g: G) -> RepeatUpto<F, G>
    returns
        (RepeatUpto { max, f, g }),
{
    RepeatUpto { max, f, g }
}

/// `f1` followed by `f2`; fails if either fails.
#[verifier::allow_in_spec]
pub fn match_seq<A: Matcher, B: Matcher>(f1: A, f2: B) -> Sequence<A, B>
    returns
        Sequence(f1, f2),
{
    Sequence(f1, f2)
}

/// Whichever of `f1` and `f2` matches more input; `f2` on a tie.
#[verifier::allow_in_spec]
pub fn match_either<A: Matcher, B: Matcher>(f1: A, f2: B) -> Either<A, B>
    returns
        Either(f1, f2),
{
    Either(f1, f2)
}

/// No match longer than `n`.
pub open spec fn at_most(r: Option<nat>, n: nat) -> bool {
    r matches Some(m) ==> m <= n
}

/// `f1` if it matches, and otherwise `f2`.
#[verifier::allow_in_spec]
pub fn match_either_ordered<A: Matcher, B: Matcher>(f1: A, f2: B) -> Ordered<A, B>
    returns
        Ordered(f1, f2),
{
    Ordered(f1, f2)
}

/// Where the two alternatives never both match, taking the first that
/// matches and taking the longer agree.
pub proof fn lemma_ordered_agrees_when_exclusive<A: Matcher, B: Matcher>(
    f1: A,
    f2: B,
    s: Seq<char>,
    pos: int,
)
    requires
        f1.spec_match(s, pos) is None || f2.spec_match(s, pos) is None,
    ensures
        match_either_ordered(f1, f2).spec_match(s, pos) == match_either(f1, f2).spec_match(s, pos),
{
}

/// Longest match: `match_either(f1, f2)` fails only when both fail, and
/// otherwise returns the length of one of them that the other does not
/// exceed.
pub proof fn lemma_either_longest<A: Matcher, B: Matcher>(f1: A, f2: B, s: Seq<char>, pos: int)
    ensures
        match_either(f1, f2).spec_match(s, pos) is None <==> (f1.spec_match(s, pos) is None
            && f2.spec_match(s, pos) is None),
        match_either(f1, f2).spec_match(s, pos) matches Some(n) ==> {
            &&& f1.spec_match(s, pos) == Some(n) || f2.spec_match(s, pos) == Some(n)
            &&& at_most(f1.spec_match(s, pos), n)
            &&& at_most(f2.spec_match(s, pos), n)
        },
{
}

/// `match_optional_seq(f, g)` is the longest of `g` and `f` then `g`.
pub proof fn lemma_optional_seq_longest<F: Matcher, G: Matcher>(f: F, g: G, s: Seq<char>, pos: int)
    ensures
        match_optional_seq(f, g).spec_match(s, pos) == match_either(g, match_seq(f, g)).spec_match(
            s,
            pos,
        ),
{
}

} // verus!
