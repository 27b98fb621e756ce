//! Decoding of the escaped characters found in corpus lines.
//!
//! Lines come with JSON escapes (`\uXXXX`, preceded by any character but a
//! backslash) or with HTML character references (`&#N;`, `&zwj;`, `&zwnj;`).
//! Finding the escapes is left to a regular expression; what each escape
//! stands for is decided here. A surrogate or out-of-range code becomes a
//! space.
use vstd::prelude::*;
use crate::corpus::Escape;
use crate::text::{collect_chars, string_of};

verus! {

/// Whether `u` is the code of a Unicode scalar value.
pub open spec fn is_scalar(u: nat) -> bool {
    u < 0xD800 || (0xE000 <= u && u <= 0x10FFFF)
}

/// The code that an escape of the number `u` decodes to: `u` itself for a
/// scalar value, and a space otherwise.
pub open spec fn decoded_code(u: nat) -> nat {
    if is_scalar(u) {
        u
    } else {
        0x20
    }
}

/// Relies on `char::from_u32`: a character exactly for the scalar values.
#[verifier::external_body]
fn char_from_u32(u: u32) -> (r: Option<char>)
    ensures
        r is Some <==> is_scalar(u as nat),
        r matches Some(c) ==> c as u32 == u,
{
    char::from_u32(u)
}

fn decoded_char(u: u32) -> (r: char)
    ensures
        r as u32 == decoded_code(u as nat),
{
    match char_from_u32(u) {
        Some(c) => c,
        None => ' ',
    }
}

/// The value of a hexadecimal digit, either case.
#[verifier::allow_in_spec]
pub fn hex_digit(c: char) -> Option<u32>
    returns
        if '0' <= c && c <= '9' {
            Some((c as u32 - '0' as u32) as u32)
        } else if 'a' <= c && c <= 'f' {
            Some((c as u32 - 'a' as u32 + 10) as u32)
        } else if 'A' <= c && c <= 'F' {
            Some((c as u32 - 'A' as u32 + 10) as u32)
        } else {
            None
        },
{
    if '0' <= c && c <= '9' {
        Some(c as u32 - '0' as u32)
    } else if 'a' <= c && c <= 'f' {
        Some(c as u32 - 'a' as u32 + 10)
    } else if 'A' <= c && c <= 'F' {
        Some(c as u32 - 'A' as u32 + 10)
    } else {
        None
    }
}

/// Whether `m` is a JSON escape with the character before it: one character,
/// a backslash, `u`, and four hexadecimal digits.
pub open spec fn is_json_escape(m: Seq<char>) -> bool {
    &&& m.len() == 7
    &&& m[1] == '\\'
    &&& m[2] == 'u'
    &&& hex_digit(m[3]) is Some
    &&& hex_digit(m[4]) is Some
    &&& hex_digit(m[5]) is Some
    &&& hex_digit(m[6]) is Some
}

/// The number that the four digits of a JSON escape spell.
pub open spec fn json_escape_value(m: Seq<char>) -> nat {
    4096 * (hex_digit(m[3])->0 as nat) + 256 * (hex_digit(m[4])->0 as nat) + 16 * (hex_digit(
        m[5],
    )->0 as nat) + (hex_digit(m[6])->0 as nat)
}

/// Decodes one JSON escape together with the character before it, which is
/// kept. Text of any other shape comes back unchanged.
pub fn decode_json_escape(m: &str) -> (r: String)
    ensures
        is_json_escape(m@) ==> {
            &&& r@.len() == 2
            &&& r@[0] == m@[0]
            &&& r@[1] as u32 == decoded_code(json_escape_value(m@))
        },
        !is_json_escape(m@) ==> r@ == m@,
{
    let cs = collect_chars(m);
    if cs.len() == 7 && cs[1] == '\\' && cs[2] == 'u' {
        match (hex_digit(cs[3]), hex_digit(cs[4]), hex_digit(cs[5]), hex_digit(cs[6])) {
            (Some(a), Some(b), Some(c), Some(d)) => {
                let u = 4096 * a + 256 * b + 16 * c + d;
                let decoded = vec![cs[0], decoded_char(u)];
                return string_of(decoded.as_slice());
            },
            _ => {},
        }
    }
    string_of(cs.as_slice())
}

/// The value of a sequence of decimal digits.
pub open spec fn decimal_value(ds: Seq<char>) -> nat
    decreases ds.len(),
{
    if ds.len() == 0 {
        0
    } else {
        10 * decimal_value(ds.drop_last()) + (ds.last() as u32 - '0' as u32) as nat
    }
}

/// Whether every character of `ds` is a decimal digit.
pub open spec fn all_decimal(ds: Seq<char>) -> bool {
    forall|i: int| 0 <= i < ds.len() ==> '0' <= #[trigger] ds[i] && ds[i] <= '9'
}

/// Whether `m` is a numeric character reference `&#N;`, `N` possibly empty.
pub open spec fn is_numeric_reference(m: Seq<char>) -> bool {
    &&& m.len() >= 3
    &&& m[0] == '&'
    &&& m[1] == '#'
    &&& m.last() == ';'
    &&& all_decimal(m.subrange(2, m.len() - 1))
}

/// The code that a numeric character reference decodes to: its number if
/// that is a scalar value, and a space when it is not or has no digits.
pub open spec fn reference_code(m: Seq<char>) -> nat {
    let ds = m.subrange(2, m.len() - 1);
    if ds.len() == 0 {
        0x20
    } else {
        decoded_code(decimal_value(ds))
    }
}

/// Decodes one HTML character reference: `&zwj;`, `&zwnj;` or `&#N;`. Text
/// of any other shape comes back unchanged.
pub fn decode_html_entity(m: &str) -> (r: String)
    ensures
        m@ == seq!['&', 'z', 'w', 'j', ';'] ==> r@ == seq!['\u{200D}'],
        m@ == seq!['&', 'z', 'w', 'n', 'j', ';'] ==> r@ == seq!['\u{200C}'],
        is_numeric_reference(m@) ==> r@.len() == 1 && r@[0] as u32 == reference_code(m@),
        m@ != seq!['&', 'z', 'w', 'j', ';'] && m@ != seq!['&', 'z', 'w', 'n', 'j', ';']
            && !is_numeric_reference(m@) ==> r@ == m@,
{
    let cs = collect_chars(m);
    let n = cs.len();
    if n == 5 && cs[0] == '&' && cs[1] == 'z' && cs[2] == 'w' && cs[3] == 'j' && cs[4] == ';' {
        assert(cs@ =~= seq!['&', 'z', 'w', 'j', ';']);
        return string_of(vec!['\u{200D}'].as_slice());
    }
    if n == 6 && cs[0] == '&' && cs[1] == 'z' && cs[2] == 'w' && cs[3] == 'n' && cs[4] == 'j'
        && cs[5] == ';' {
        assert(cs@ =~= seq!['&', 'z', 'w', 'n', 'j', ';']);
        return string_of(vec!['\u{200C}'].as_slice());
    }
    if n >= 3 && cs[0] == '&' && cs[1] == '#' && cs[n - 1] == ';' {
        let ghost ds = cs@.subrange(2, n - 1);
        let mut value: u32 = 0;
        let mut big = false;
        let mut i: usize = 2;
        while i < n - 1
            invariant
                2 <= i <= n - 1,
                n == cs@.len(),
                cs@ == m@,
                cs@[1] == '#',
                ds == cs@.subrange(2, n - 1),
                all_decimal(cs@.subrange(2, i as int)),
                !big ==> value as nat == decimal_value(cs@.subrange(2, i as int)),
                !big ==> value <= 0x10FFFF,
                big ==> decimal_value(cs@.subrange(2, i as int)) > 0x10FFFF,
            decreases n - 1 - i,
        {
            let c = cs[i];
            if !('0' <= c && c <= '9') {
                assert(ds[i - 2] == c);
                assert(!all_decimal(ds));
                return string_of(cs.as_slice());
            }
            let ghost prev = cs@.subrange(2, i as int);
            assert(cs@.subrange(2, i + 1).drop_last() =~= prev);
            assert(cs@.subrange(2, i + 1) =~= prev.push(c));
            if !big {
                let next = 10 * value + (c as u32 - '0' as u32);
                if next > 0x10FFFF {
                    big = true;
                } else {
                    value = next;
                }
            }
            i = i + 1;
        }
        assert(cs@.subrange(2, i as int) =~= ds);
        let code = if i == 2 || big {
            ' '
        } else {
            decoded_char(value)
        };
        return string_of(vec![code].as_slice());
    }
    string_of(cs.as_slice())
}

/// What replacing every JSON escape of a line gives.
pub uninterp spec fn json_unescaped(line: Seq<char>) -> Seq<char>;

/// What replacing every HTML character reference of a line gives.
pub uninterp spec fn html_unescaped(line: Seq<char>) -> Seq<char>;

/// Relies on `regex::Regex::replace_all` with the pattern
/// `[^\\]\\u([0-9a-fA-F]{4})`: each leftmost non-overlapping match is replaced
/// by what `decode_json_escape` makes of it. The result depends on the line alone.
#[verifier::external_body]
fn replace_json_escapes(line: &str) -> (r: String)
    ensures
        r@ == json_unescaped(line@),
{
    let re = regex::Regex::new(r"[^\\]\\u([0-9a-fA-F]{4})").unwrap();
    re.replace_all(line, |caps: &regex::Captures| decode_json_escape(&caps[0])).into_owned()
}

/// Relies on `regex::Regex::replace_all` with the pattern
/// `&#([0-9]*);|&zwj;|&zwnj;`: each leftmost non-overlapping match is replaced
/// by what `decode_html_entity` makes of it. The result depends on the line alone.
#[verifier::external_body]
fn replace_html_entities(line: &str) -> (r: String)
    ensures
        r@ == html_unescaped(line@),
{
    let re = regex::Regex::new(r"&#([0-9]*);|&zwj;|&zwnj;").unwrap();
    re.replace_all(line, |caps: &regex::Captures| decode_html_entity(&caps[0])).into_owned()
}

/// A corpus line with its escapes decoded as `escape` says.
pub fn unescape_line(escape: Escape, line: &str) -> (r: String)
    ensures
        r@ == match escape {
            Escape::Plain => line@,
            Escape::Json => json_unescaped(line@),
            Escape::Html => html_unescaped(line@),
        },
{
    match escape {
        Escape::Plain => string_of(collect_chars(line).as_slice()),
        Escape::Json => replace_json_escapes(line),
        Escape::Html => replace_html_entities(line),
    }
}

} // verus!
