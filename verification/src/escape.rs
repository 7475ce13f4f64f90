//! JSON string escaping.
//!
//! A prompt is embedded in the request body as a JSON string literal, so the
//! characters that JSON cannot hold verbatim — the quote, the backslash and
//! the control characters — are escaped. `spec_escape_string` says exactly
//! what the escaped form is, `spec_unescape_string` reads it back, and
//! `lemma_escape_round_trip` proves that no prompt is ever distorted.

use vstd::prelude::*;

verus! {

/// The lower-case hexadecimal digit for a value below 16.
pub open spec fn spec_hex_digit(n: int) -> char {
    if n == 0 {
        '0'
    } else if n == 1 {
        '1'
    } else if n == 2 {
        '2'
    } else if n == 3 {
        '3'
    } else if n == 4 {
        '4'
    } else if n == 5 {
        '5'
    } else if n == 6 {
        '6'
    } else if n == 7 {
        '7'
    } else if n == 8 {
        '8'
    } else if n == 9 {
        '9'
    } else if n == 10 {
        'a'
    } else if n == 11 {
        'b'
    } else if n == 12 {
        'c'
    } else if n == 13 {
        'd'
    } else if n == 14 {
        'e'
    } else {
        'f'
    }
}

/// The value of a lower-case hexadecimal digit, or -1 for any other character.
pub open spec fn spec_hex_val(c: char) -> int {
    if c == '0' {
        0
    } else if c == '1' {
        1
    } else if c == '2' {
        2
    } else if c == '3' {
        3
    } else if c == '4' {
        4
    } else if c == '5' {
        5
    } else if c == '6' {
        6
    } else if c == '7' {
        7
    } else if c == '8' {
        8
    } else if c == '9' {
        9
    } else if c == 'a' {
        10
    } else if c == 'b' {
        11
    } else if c == 'c' {
        12
    } else if c == 'd' {
        13
    } else if c == 'e' {
        14
    } else if c == 'f' {
        15
    } else {
        -1
    }
}

pub open spec fn is_control(c: char) -> bool {
    (c as u32) < 0x20
}

/// How one character appears inside a JSON string literal: the quote and the
/// backslash get a backslash escape, a control character becomes `\u00XX`,
/// and every other character stands for itself.
pub open spec fn spec_escape_char(c: char) -> Seq<char> {
    if c == '"' {
        seq!['\\', '"']
    } else if c == '\\' {
        seq!['\\', '\\']
    } else if is_control(c) {
        seq!['\\', 'u', '0', '0', spec_hex_digit((c as u32) as int / 16), spec_hex_digit(
            (c as u32) as int % 16,
        )]
    } else {
        seq![c]
    }
}

/// The escaped form of a whole string: each character replaced by its
/// escaped form, in order.
pub open spec fn spec_escape_string(s: Seq<char>) -> Seq<char>
    decreases s.len(),
{
    if s.len() == 0 {
        Seq::<char>::empty()
    } else {
        spec_escape_char(s[0]) + spec_escape_string(s.skip(1))
    }
}

/// Reads an escaped JSON string back: `None` where the text is not the
/// well-formed escaped form of any string.
pub open spec fn spec_unescape_string(e: Seq<char>) -> Option<Seq<char>>
    decreases e.len(),
{
    if e.len() == 0 {
        Some(Seq::<char>::empty())
    } else if e[0] == '\\' {
        if e.len() >= 2 && (e[1] == '"' || e[1] == '\\') {
            match spec_unescape_string(e.skip(2)) {
                Some(t) => Some(seq![e[1]] + t),
                None => None,
            }
        } else if e.len() >= 6 && e[1] == 'u' && e[2] == '0' && e[3] == '0' && spec_hex_val(e[4])
            >= 0 && spec_hex_val(e[5]) >= 0 && 16 * spec_hex_val(e[4]) + spec_hex_val(e[5])
            < 0x20 {
            match spec_unescape_string(e.skip(6)) {
                Some(t) => Some(
                    seq![(((16 * spec_hex_val(e[4]) + spec_hex_val(e[5])) as u32) as char)] + t,
                ),
                None => None,
            }
        } else {
            None
        }
    } else if e[0] == '"' || is_control(e[0]) {
        None
    } else {
        match spec_unescape_string(e.skip(1)) {
            Some(t) => Some(seq![e[0]] + t),
            None => None,
        }
    }
}

/// Escaping appends one character's escape at a time.
proof fn lemma_escape_push_back(s: Seq<char>, c: char)
    ensures
        spec_escape_string(s.push(c)) == spec_escape_string(s) + spec_escape_char(c),
    decreases s.len(),
{
    if s.len() == 0 {
        assert(s.push(c)[0] == c);
        assert(s.push(c).skip(1) =~= Seq::<char>::empty());
        assert(spec_escape_string(s.push(c)) == spec_escape_char(c) + spec_escape_string(
            Seq::<char>::empty(),
        ));
        assert(spec_escape_char(c) + Seq::<char>::empty() =~= spec_escape_char(c));
        assert(spec_escape_string(s) + spec_escape_char(c) =~= spec_escape_char(c));
    } else {
        assert(s.push(c).skip(1) =~= s.skip(1).push(c));
        lemma_escape_push_back(s.skip(1), c);
        assert(spec_escape_string(s.push(c)) == spec_escape_char(s[0]) + (spec_escape_string(
            s.skip(1),
        ) + spec_escape_char(c)));
        assert(spec_escape_char(s[0]) + (spec_escape_string(s.skip(1)) + spec_escape_char(c))
            =~= spec_escape_string(s) + spec_escape_char(c));
    }
}

/// Escaping loses nothing: reading the escaped form of any string — any
/// characters at all, quotes, backslashes, control and non-ASCII characters
/// included — gives back exactly that string.
pub proof fn lemma_escape_round_trip(s: Seq<char>)
    ensures
        spec_unescape_string(spec_escape_string(s)) == Some(s),
    decreases s.len(),
{
    if s.len() == 0 {
    } else {
        let c = s[0];
        let rest = s.skip(1);
        lemma_escape_round_trip(rest);
        let ec = spec_escape_char(c);
        let e = spec_escape_string(s);
        let etail = spec_escape_string(rest);
        assert(e == ec + etail);
        assert(e.skip(ec.len() as int) =~= etail);
        assert(seq![c] + rest =~= s);
        if c == '"' || c == '\\' {
            assert(e[0] == '\\' && e[1] == c);
            assert(spec_unescape_string(e) == Some(seq![c] + rest));
        } else if is_control(c) {
            let code = (c as u32) as int;
            let hi = code / 16;
            let lo = code % 16;
            assert(0 <= hi < 2 && 0 <= lo < 16);
            assert(spec_hex_val(spec_hex_digit(hi)) == hi);
            assert(spec_hex_val(spec_hex_digit(lo)) == lo);
            assert(e[0] == '\\' && e[1] == 'u' && e[2] == '0' && e[3] == '0');
            assert(e[4] == spec_hex_digit(hi) && e[5] == spec_hex_digit(lo));
            assert(16 * spec_hex_val(e[4]) + spec_hex_val(e[5]) == code);
            vstd::utf8::char_u32_cast(c, c as u32);
            assert(((code as u32) as char) == c);
            assert(spec_unescape_string(e) == Some(seq![c] + rest));
        } else {
            assert(e[0] == c);
            assert(c != '\\' && c != '"' && !is_control(c));
            assert(spec_unescape_string(e) == Some(seq![c] + rest));
        }
    }
}

/// The lower-case hexadecimal digit for a value below 16.
fn hex_digit(n: u8) -> (r: char)
    requires
        n < 16,
    ensures
        r == spec_hex_digit(n as int),
{
    if n == 0 {
        '0'
    } else if n == 1 {
        '1'
    } else if n == 2 {
        '2'
    } else if n == 3 {
        '3'
    } else if n == 4 {
        '4'
    } else if n == 5 {
        '5'
    } else if n == 6 {
        '6'
    } else if n == 7 {
        '7'
    } else if n == 8 {
        '8'
    } else if n == 9 {
        '9'
    } else if n == 10 {
        'a'
    } else if n == 11 {
        'b'
    } else if n == 12 {
        'c'
    } else if n == 13 {
        'd'
    } else if n == 14 {
        'e'
    } else {
        'f'
    }
}

/// Relies on std's `FromIterator for String`: collecting characters yields
/// the string of exactly those characters, in order.
#[verifier::external_body]
fn chars_to_string(v: Vec<char>) -> (r: String)
    ensures
        r@ == v@,
{
    v.into_iter().collect()
}

/// The escaped form of `s`, fit to stand between the quotes of a JSON
/// string literal.
pub fn escape_json_string(s: &str) -> (r: String)
    ensures
        r@ == spec_escape_string(s@),
{
    let n = s.unicode_len();
    let mut out: Vec<char> = Vec::new();
    let mut i: usize = 0;
    while i < n
        invariant
            n == s@.len(),
            i <= n,
            out@ == spec_escape_string(s@.subrange(0, i as int)),
        decreases n - i,
    {
        let c = s.get_char(i);
        if c == '"' {
            out.push('\\');
            out.push('"');
        } else if c == '\\' {
            out.push('\\');
            out.push('\\');
        } else {
            let code: u32 = c as u32;
            if code < 0x20 {
                out.push('\\');
                out.push('u');
                out.push('0');
                out.push('0');
                out.push(hex_digit((code / 16) as u8));
                out.push(hex_digit((code % 16) as u8));
            } else {
                out.push(c);
            }
        }
        proof {
            lemma_escape_push_back(s@.subrange(0, i as int), s@[i as int]);
            assert(s@.subrange(0, i + 1) =~= s@.subrange(0, i as int).push(s@[i as int]));
            assert(out@ =~= spec_escape_string(s@.subrange(0, i + 1)));
        }
        i += 1;
    }
    proof {
        assert(s@.subrange(0, n as int) =~= s@);
    }
    chars_to_string(out)
}

} // verus!
