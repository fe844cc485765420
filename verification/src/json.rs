//! JSON string escaping, used when the adapters frame request bodies and
//! when parameter values are rendered for display.

use vstd::prelude::*;
use vstd::string::*;
use crate::text::to_chars;
use crate::text::push_char;

verus! {

/// The character for one hexadecimal digit.
pub open spec fn spec_hex(d: int) -> char {
    if d == 0 {
        '0'
    } else if d == 1 {
        '1'
    } else if d == 2 {
        '2'
    } else if d == 3 {
        '3'
    } else if d == 4 {
        '4'
    } else if d == 5 {
        '5'
    } else if d == 6 {
        '6'
    } else if d == 7 {
        '7'
    } else if d == 8 {
        '8'
    } else if d == 9 {
        '9'
    } else if d == 10 {
        'a'
    } else if d == 11 {
        'b'
    } else if d == 12 {
        'c'
    } else if d == 13 {
        'd'
    } else if d == 14 {
        'e'
    } else {
        'f'
    }
}

/// How one character appears inside a JSON string literal.
pub open spec fn esc_char(c: char) -> Seq<char> {
    if c == '"' {
        seq!['\\', '"']
    } else if c == '\\' {
        seq!['\\', '\\']
    } else if c == '\n' {
        seq!['\\', 'n']
    } else if c == '\r' {
        seq!['\\', 'r']
    } else if c == '\t' {
        seq!['\\', 't']
    } else if (c as int) < 32 {
        seq!['\\', 'u', '0', '0', spec_hex(c as int / 16), spec_hex(c as int % 16)]
    } else {
        seq![c]
    }
}

/// The body of a JSON string literal for `s`.
pub open spec fn json_escaped(s: Seq<char>) -> Seq<char>
    decreases s.len(),
{
    if s.len() == 0 {
        Seq::empty()
    } else {
        json_escaped(s.drop_last()) + esc_char(s.last())
    }
}

/// A complete JSON string literal for `s`, quotes included.
pub open spec fn json_str(s: Seq<char>) -> Seq<char> {
    seq!['"'] + json_escaped(s) + seq!['"']
}

fn ctl_hex(c: char) -> (r: (char, char))
    requires
        (c as int) < 32,
    ensures
        r.0 == spec_hex(c as int / 16),
        r.1 == spec_hex(c as int % 16),
{
    match c {
        '\u{0}' => ('0', '0'),
        '\u{1}' => ('0', '1'),
        '\u{2}' => ('0', '2'),
        '\u{3}' => ('0', '3'),
        '\u{4}' => ('0', '4'),
        '\u{5}' => ('0', '5'),
        '\u{6}' => ('0', '6'),
        '\u{7}' => ('0', '7'),
        '\u{8}' => ('0', '8'),
        '\u{9}' => ('0', '9'),
        '\u{a}' => ('0', 'a'),
        '\u{b}' => ('0', 'b'),
        '\u{c}' => ('0', 'c'),
        '\u{d}' => ('0', 'd'),
        '\u{e}' => ('0', 'e'),
        '\u{f}' => ('0', 'f'),
        '\u{10}' => ('1', '0'),
        '\u{11}' => ('1', '1'),
        '\u{12}' => ('1', '2'),
        '\u{13}' => ('1', '3'),
        '\u{14}' => ('1', '4'),
        '\u{15}' => ('1', '5'),
        '\u{16}' => ('1', '6'),
        '\u{17}' => ('1', '7'),
        '\u{18}' => ('1', '8'),
        '\u{19}' => ('1', '9'),
        '\u{1a}' => ('1', 'a'),
        '\u{1b}' => ('1', 'b'),
        '\u{1c}' => ('1', 'c'),
        '\u{1d}' => ('1', 'd'),
        '\u{1e}' => ('1', 'e'),
        '\u{1f}' => ('1', 'f'),
        _ => {
            proof {
                assert(false);
            }
            ('0', '0')
        },
    }
}

/// Appends the escaped form of the characters of `v` to `out`.
pub fn append_escaped(out: &mut String, v: &Vec<char>)
    ensures
        final(out)@ == old(out)@ + json_escaped(v@),
{
    let n = v.len();
    let mut i: usize = 0;
    proof {
        assert(out@ + json_escaped(v@.subrange(0, 0)) =~= out@);
    }
    while i < n
        invariant
            n == v@.len(),
            i <= n,
            out@ == old(out)@ + json_escaped(v@.subrange(0, i as int)),
        decreases n - i,
    {
        let ghost pre = out@;
        let c = v[i];
        if c == '"' {
            push_char(out, '\\');
            push_char(out, '"');
        } else if c == '\\' {
            push_char(out, '\\');
            push_char(out, '\\');
        } else if c == '\n' {
            push_char(out, '\\');
            push_char(out, 'n');
        } else if c == '\r' {
            push_char(out, '\\');
            push_char(out, 'r');
        } else if c == '\t' {
            push_char(out, '\\');
            push_char(out, 't');
        } else if !(c >= ' ') {
            let (hi, lo) = ctl_hex(c);
            push_char(out, '\\');
            push_char(out, 'u');
            push_char(out, '0');
            push_char(out, '0');
            push_char(out, hi);
            push_char(out, lo);
        } else {
            push_char(out, c);
        }
        proof {
            assert(out@ =~= pre + esc_char(c));
            assert(v@.subrange(0, i + 1 as int).drop_last() =~= v@.subrange(0, i as int));
            assert(out@ =~= old(out)@ + json_escaped(v@.subrange(0, i + 1 as int)));
        }
        i += 1;
    }
    proof {
        assert(v@.subrange(0, n as int) =~= v@);
    }
}

/// Appends a complete JSON string literal for `s` to `out`.
pub fn append_json_string(out: &mut String, s: &str)
    ensures
        final(out)@ == old(out)@ + json_str(s@),
{
    let v = to_chars(s);
    push_char(out, '"');
    append_escaped(out, &v);
    push_char(out, '"');
    proof {
        assert(out@ =~= old(out)@ + json_str(s@));
    }
}

} // verus!
