//! Display labels for characters: a short name where the Indic table gives
//! one, and otherwise the code point in hexadecimal.
use vstd::prelude::*;
use crate::names::{indic_name, name_of};
use crate::text::{collect_chars, string_of};

verus! {

/// The upper-case hexadecimal digit for a value below 16.
pub open spec fn hex_char(d: nat) -> char {
    if d < 10 {
        (('0' as u32) + d) as char
    } else {
        (('A' as u32) + d - 10) as char
    }
}

/// The upper-case hexadecimal digits of `n`, without leading zeros.
pub open spec fn hex_upper(n: nat) -> Seq<char>
    decreases n,
{
    if n < 16 {
        seq![hex_char(n)]
    } else {
        hex_upper(n / 16).push(hex_char(n % 16))
    }
}

fn hex_digit_char(d: u32) -> (r: char)
    requires
        d < 16,
    ensures
        r == hex_char(d as nat),
{
    if d < 10 {
        ((48 + d) as u8) as char
    } else {
        ((55 + d) as u8) as char
    }
}

fn push_hex(n: u32, out: &mut Vec<char>)
    ensures
        final(out)@ == old(out)@ + hex_upper(n as nat),
    decreases n,
{
    if n < 16 {
        out.push(hex_digit_char(n));
        assert(out@ =~= old(out)@ + hex_upper(n as nat));
    } else {
        push_hex(n / 16, out);
        out.push(hex_digit_char(n % 16));
        assert(out@ =~= old(out)@ + hex_upper(n as nat));
    }
}

/// `U+` followed by the code point in upper-case hexadecimal.
pub fn code_point_label(c: char) -> (r: String)
    ensures
        r@ == seq!['U', '+'] + hex_upper(c as u32 as nat),
{
    let mut out: Vec<char> = vec!['U', '+'];
    push_hex(c as u32, &mut out);
    string_of(out.as_slice())
}

/// The label of a character: its short name, or `U+` and its code.
pub open spec fn label_of(c: char) -> Seq<char> {
    match name_of(c) {
        Some(name) => name@,
        None => seq!['U', '+'] + hex_upper(c as u32 as nat),
    }
}

/// A character's label in square brackets.
pub open spec fn bracketed(c: char) -> Seq<char> {
    seq!['['] + label_of(c) + seq![']']
}

/// The bracketed labels of the characters of `s`, joined by ` + `.
pub open spec fn friendly_text(s: Seq<char>) -> Seq<char>
    decreases s.len(),
{
    if s.len() == 0 {
        seq![]
    } else if s.len() == 1 {
        bracketed(s[0])
    } else {
        friendly_text(s.drop_last()) + seq![' ', '+', ' '] + bracketed(s.last())
    }
}

/// The label of a character.
pub fn char_to_string(c: char) -> (r: String)
    ensures
        r@ == label_of(c),
{
    match indic_name(c) {
        Some(name) => name.to_owned(),
        None => code_point_label(c),
    }
}

/// The labels of the characters of `s`, each in brackets, joined by ` + `.
pub fn friendly(s: &str) -> (r: String)
    ensures
        r@ == friendly_text(s@),
{
    let cs = collect_chars(s);
    let mut out: Vec<char> = Vec::new();
    let mut i: usize = 0;
    while i < cs.len()
        invariant
            i <= cs.len(),
            out@ == friendly_text(cs@.take(i as int)),
        decreases cs.len() - i,
    {
        let ghost before = out@;
        if i > 0 {
            out.push(' ');
            out.push('+');
            out.push(' ');
        }
        out.push('[');
        let label = char_to_string(cs[i]);
        let mut lc = collect_chars(label.as_str());
        out.append(&mut lc);
        out.push(']');
        proof {
            let t = cs@.take(i + 1);
            assert(t.drop_last() =~= cs@.take(i as int));
            assert(t.last() == cs@[i as int]);
            if i > 0 {
                assert(out@ =~= before + seq![' ', '+', ' '] + bracketed(cs@[i as int]));
            } else {
                assert(out@ =~= bracketed(cs@[i as int]));
            }
        }
        i = i + 1;
    }
    assert(cs@.take(cs@.len() as int) =~= cs@);
    string_of(out.as_slice())
}

} // verus!
