//! Character-level utilities shared by the policy, the dispatcher and the
//! adapters: indexing a string as characters, case-insensitive matching,
//! whitespace splitting and decimal formatting/parsing.

use vstd::prelude::*;
use vstd::string::*;

verus! {

/// Relies on std's `String::push`: appends exactly the given character.
#[verifier::external_body]
pub fn push_char(s: &mut String, c: char)
    ensures
        final(s)@ == old(s)@.push(c),
{
    s.push(c);
}

/// Collects the characters of a string slice into a vector, so that later
/// passes can index them in constant time.
pub fn to_chars(s: &str) -> (r: Vec<char>)
    ensures
        r@ == s@,
{
    let n = s.unicode_len();
    let mut r: Vec<char> = Vec::new();
    let mut i: usize = 0;
    while i < n
        invariant
            n == s@.len(),
            i <= n,
            r@ == s@.subrange(0, i as int),
        decreases n - i,
    {
        let c = s.get_char(i);
        r.push(c);
        proof {
            assert(s@.subrange(0, i + 1 as int) =~= s@.subrange(0, i as int).push(c));
        }
        i += 1;
    }
    proof {
        assert(s@.subrange(0, n as int) =~= s@);
    }
    r
}

/// Builds a string out of the character range `[from, to)` of `v`.
pub fn chars_to_string(v: &Vec<char>, from: usize, to: usize) -> (r: String)
    requires
        from <= to <= v@.len(),
    ensures
        r@ == v@.subrange(from as int, to as int),
{
    let mut r = String::new();
    let mut i: usize = from;
    while i < to
        invariant
            from <= i <= to <= v@.len(),
            r@ == v@.subrange(from as int, i as int),
        decreases to - i,
    {
        push_char(&mut r, v[i]);
        proof {
            assert(v@.subrange(from as int, i + 1 as int)
                =~= v@.subrange(from as int, i as int).push(v@[i as int]));
        }
        i += 1;
    }
    r
}

/// Compares two strings character by character.
pub fn str_eq(a: &str, b: &str) -> (r: bool)
    ensures
        r == (a@ == b@),
{
    let na = a.unicode_len();
    let nb = b.unicode_len();
    if na != nb {
        return false;
    }
    let mut i: usize = 0;
    while i < na
        invariant
            na == a@.len(),
            na == b@.len(),
            i <= na,
            forall|j: int| 0 <= j < i ==> a@[j] == b@[j],
        decreases na - i,
    {
        if a.get_char(i) != b.get_char(i) {
            return false;
        }
        i += 1;
    }
    proof {
        assert(a@ =~= b@);
    }
    true
}

/// The character's code point, with ASCII capitals folded onto the
/// corresponding small letters. Folding is deliberately ASCII-only: the
/// policy's patterns are all ASCII.
pub open spec fn lower_code(c: char) -> int {
    if 'A' <= c && c <= 'Z' {
        c as int + 32
    } else {
        c as int
    }
}

fn fold_char(c: char) -> (r: char)
    ensures
        r as int == lower_code(c),
{
    match c {
        'A' => 'a',
        'B' => 'b',
        'C' => 'c',
        'D' => 'd',
        'E' => 'e',
        'F' => 'f',
        'G' => 'g',
        'H' => 'h',
        'I' => 'i',
        'J' => 'j',
        'K' => 'k',
        'L' => 'l',
        'M' => 'm',
        'N' => 'n',
        'O' => 'o',
        'P' => 'p',
        'Q' => 'q',
        'R' => 'r',
        'S' => 's',
        'T' => 't',
        'U' => 'u',
        'V' => 'v',
        'W' => 'w',
        'X' => 'x',
        'Y' => 'y',
        'Z' => 'z',
        _ => c,
    }
}

/// Compares two characters up to ASCII case.
pub fn chars_eq_ci(a: char, b: char) -> (r: bool)
    ensures
        r == (lower_code(a) == lower_code(b)),
{
    fold_char(a) == fold_char(b)
}

/// `pat` occurs in `text` at offset `i`, up to ASCII case.
pub open spec fn matches_ci_at(text: Seq<char>, pat: Seq<char>, i: int) -> bool {
    &&& 0 <= i
    &&& i + pat.len() <= text.len()
    &&& forall|j: int| 0 <= j < pat.len() ==> lower_code(text[i + j]) == lower_code(pat[j])
}

/// `pat` occurs somewhere in `text`, up to ASCII case.
pub open spec fn contains_ci(text: Seq<char>, pat: Seq<char>) -> bool {
    exists|i: int| matches_ci_at(text, pat, i)
}

/// Case-insensitive substring search.
pub fn chars_contain_ci(text: &Vec<char>, pat: &Vec<char>) -> (r: bool)
    ensures
        r == contains_ci(text@, pat@),
{
    if pat.len() == 0 {
        proof {
            assert(matches_ci_at(text@, pat@, 0));
        }
        return true;
    }
    if pat.len() > text.len() {
        proof {
            assert(forall|i: int| !matches_ci_at(text@, pat@, i));
        }
        return false;
    }
    let n = text.len();
    let plen = pat.len();
    let last = n - plen;
    let mut i: usize = 0;
    while i <= last
        invariant
            n == text@.len(),
            plen == pat@.len(),
            1 <= plen <= n,
            last == n - plen,
            i <= last + 1,
            forall|k: int| 0 <= k < i ==> !matches_ci_at(text@, pat@, k),
        decreases last + 1 - i,
    {
        let mut j: usize = 0;
        let mut hit = true;
        while j < plen
            invariant
                n == text@.len(),
                plen == pat@.len(),
                i + plen <= n,
                j <= plen,
                hit == forall|t: int| 0 <= t < j ==> lower_code(text@[i + t]) == lower_code(
                    pat@[t],
                ),
            decreases plen - j,
        {
            if !chars_eq_ci(text[i + j], pat[j]) {
                hit = false;
                proof {
                    assert(!(forall|t: int|
                        0 <= t < j + 1 ==> lower_code(text@[i + t]) == lower_code(pat@[t])));
                }
                j = plen;
            } else {
                proof {
                    assert(hit ==> forall|t: int|
                        0 <= t < j + 1 ==> lower_code(text@[i + t]) == lower_code(pat@[t]));
                }
                j += 1;
            }
        }
        if hit {
            proof {
                assert(matches_ci_at(text@, pat@, i as int));
            }
            return true;
        }
        i += 1;
    }
    proof {
        assert(forall|k: int| matches_ci_at(text@, pat@, k) ==> 0 <= k <= last);
    }
    false
}

/// The character for one decimal digit.
pub open spec fn spec_digit(d: int) -> char {
    if d == 0 {
        '0'
    } else if d == 1 {
        '1'
    } else if d == 2 {
        '2'
    } else if d == 3 {
        '3'
    } else if d == 4 {
        '4'
    } else if d == 5 {
        '5'
    } else if d == 6 {
        '6'
    } else if d == 7 {
        '7'
    } else if d == 8 {
        '8'
    } else {
        '9'
    }
}

/// The decimal digit string of a non-negative number.
pub open spec fn dec_digits(n: int) -> Seq<char>
    decreases n,
{
    if n < 10 {
        seq![spec_digit(n)]
    } else {
        dec_digits(n / 10).push(spec_digit(n % 10))
    }
}

/// The decimal digit string of a possibly negative number.
pub open spec fn dec_int(n: int) -> Seq<char> {
    if n < 0 {
        seq!['-'] + dec_digits(-n)
    } else {
        dec_digits(n)
    }
}

pub fn digit_char(d: u8) -> (c: char)
    requires
        d < 10,
    ensures
        c == spec_digit(d as int),
{
    if d == 0 {
        '0'
    } else if d == 1 {
        '1'
    } else if d == 2 {
        '2'
    } else if d == 3 {
        '3'
    } else if d == 4 {
        '4'
    } else if d == 5 {
        '5'
    } else if d == 6 {
        '6'
    } else if d == 7 {
        '7'
    } else if d == 8 {
        '8'
    } else {
        '9'
    }
}

/// Renders a number in decimal.
pub fn u64_to_dec(n: u64) -> (r: String)
    ensures
        r@ == dec_digits(n as int),
    decreases n,
{
    if n < 10 {
        let mut s = String::new();
        let c = digit_char(n as u8);
        push_char(&mut s, c);
        proof {
            assert(s@ =~= dec_digits(n as int));
        }
        s
    } else {
        let mut s = u64_to_dec(n / 10);
        let c = digit_char((n % 10) as u8);
        push_char(&mut s, c);
        s
    }
}

/// Renders a signed number in decimal.
pub fn i64_to_dec(n: i64) -> (r: String)
    ensures
        r@ == dec_int(n as int),
{
    if n >= 0 {
        u64_to_dec(n as u64)
    } else {
        let mag: u64 = if n == i64::MIN {
            9223372036854775808u64
        } else {
            (-n) as u64
        };
        let mut s = String::new();
        push_char(&mut s, '-');
        let d = u64_to_dec(mag);
        s.append(d.as_str());
        proof {
            assert(s@ =~= seq!['-'] + dec_digits(-(n as int)));
        }
        s
    }
}

/// A decimal digit.
pub open spec fn is_digit(c: char) -> bool {
    '0' <= c && c <= '9'
}

/// Its value.
pub open spec fn digit_val(c: char) -> int {
    c as int - 48
}

/// Every character is a decimal digit.
pub open spec fn all_digits(s: Seq<char>) -> bool {
    forall|i: int| 0 <= i < s.len() ==> is_digit(s[i])
}

/// The number a digit string denotes.
pub open spec fn dec_value(s: Seq<char>) -> int
    decreases s.len(),
{
    if s.len() == 0 {
        0
    } else {
        dec_value(s.drop_last()) * 10 + digit_val(s.last())
    }
}

proof fn lemma_dec_value_nonneg(s: Seq<char>)
    requires
        all_digits(s),
    ensures
        dec_value(s) >= 0,
    decreases s.len(),
{
    if s.len() > 0 {
        assert(all_digits(s.drop_last()));
        lemma_dec_value_nonneg(s.drop_last());
    }
}

proof fn lemma_dec_value_prefix(s: Seq<char>, k: int)
    requires
        all_digits(s),
        0 <= k <= s.len(),
    ensures
        dec_value(s) >= dec_value(s.subrange(0, k)),
    decreases s.len() - k,
{
    if k == s.len() {
        assert(s.subrange(0, k) =~= s);
    } else {
        assert(s.subrange(0, k + 1).drop_last() =~= s.subrange(0, k));
        assert(all_digits(s.subrange(0, k)));
        lemma_dec_value_nonneg(s.subrange(0, k));
        assert(dec_value(s.subrange(0, k + 1)) == dec_value(s.subrange(0, k)) * 10 + digit_val(
            s[k],
        ));
        lemma_dec_value_prefix(s, k + 1);
    }
}

fn digit_of(c: char) -> (d: u64)
    requires
        is_digit(c),
    ensures
        d as int == digit_val(c),
{
    match c {
        '0' => 0,
        '1' => 1,
        '2' => 2,
        '3' => 3,
        '4' => 4,
        '5' => 5,
        '6' => 6,
        '7' => 7,
        '8' => 8,
        '9' => 9,
        _ => {
            proof {
                assert(false);
            }
            0
        },
    }
}

/// Parses an unsigned decimal number; `None` on an empty string, a
/// non-digit, or a value that does not fit.
pub fn parse_u64(v: &Vec<char>) -> (r: Option<u64>)
    ensures
        match r {
            Some(x) => v@.len() > 0 && all_digits(v@) && x as int == dec_value(v@),
            None => v@.len() == 0 || !all_digits(v@) || dec_value(v@) > u64::MAX,
        },
{
    if v.len() == 0 {
        return None;
    }
    let n = v.len();
    let mut acc: u64 = 0;
    let mut i: usize = 0;
    while i < n
        invariant
            n == v@.len(),
            i <= n,
            forall|j: int| 0 <= j < i ==> is_digit(v@[j]),
            acc as int == dec_value(v@.subrange(0, i as int)),
        decreases n - i,
    {
        let c = v[i];
        if c < '0' || c > '9' {
            assert(!is_digit(v@[i as int]));
            return None;
        }
        let d: u64 = digit_of(c);
        proof {
            assert(v@.subrange(0, i + 1 as int).drop_last() =~= v@.subrange(0, i as int));
            assert(dec_value(v@.subrange(0, i + 1 as int)) == acc as int * 10 + d as int);
        }
        let cap: u64 = 1844674407370955161;
        if acc > cap || (acc == cap && d > 5) {
            proof {
                assert(dec_value(v@.subrange(0, i + 1 as int)) > u64::MAX);
                if all_digits(v@) {
                    lemma_dec_value_prefix(v@, i + 1 as int);
                }
            }
            return None;
        }
        acc = acc * 10 + d;
        i += 1;
    }
    proof {
        assert(v@.subrange(0, n as int) =~= v@);
    }
    Some(acc)
}

/// Lexicographic order on texts, by code point.
pub open spec fn lex_le(a: Seq<char>, b: Seq<char>) -> bool
    decreases a.len(),
{
    if a.len() == 0 {
        true
    } else if b.len() == 0 {
        false
    } else if a[0] != b[0] {
        a[0] < b[0]
    } else {
        lex_le(a.drop_first(), b.drop_first())
    }
}

/// The order is total.
pub proof fn lemma_lex_le_total(a: Seq<char>, b: Seq<char>)
    ensures
        lex_le(a, b) || lex_le(b, a),
    decreases a.len(),
{
    if a.len() > 0 && b.len() > 0 && a[0] == b[0] {
        lemma_lex_le_total(a.drop_first(), b.drop_first());
    }
}

/// The order is transitive.
pub proof fn lemma_lex_le_trans(a: Seq<char>, b: Seq<char>, c: Seq<char>)
    requires
        lex_le(a, b),
        lex_le(b, c),
    ensures
        lex_le(a, c),
    decreases a.len(),
{
    if a.len() > 0 && b.len() > 0 && c.len() > 0 && a[0] == b[0] && b[0] == c[0] {
        lemma_lex_le_trans(a.drop_first(), b.drop_first(), c.drop_first());
    }
}

/// Lexicographic comparison of two character vectors.
pub fn chars_le(a: &Vec<char>, b: &Vec<char>) -> (r: bool)
    ensures
        r == lex_le(a@, b@),
{
    let na = a.len();
    let nb = b.len();
    let mut i: usize = 0;
    proof {
        assert(a@.skip(0) =~= a@);
        assert(b@.skip(0) =~= b@);
    }
    loop
        invariant
            na == a@.len(),
            nb == b@.len(),
            i <= na,
            i <= nb,
            lex_le(a@, b@) == lex_le(a@.skip(i as int), b@.skip(i as int)),
        decreases na - i,
    {
        if i == na {
            proof {
                assert(a@.skip(i as int).len() == 0);
            }
            return true;
        }
        if i == nb {
            proof {
                assert(b@.skip(i as int).len() == 0);
                assert(a@.skip(i as int).len() > 0);
            }
            return false;
        }
        let ca = a[i];
        let cb = b[i];
        proof {
            assert(a@.skip(i as int)[0] == a@[i as int]);
            assert(b@.skip(i as int)[0] == b@[i as int]);
            assert(a@.skip(i as int).drop_first() =~= a@.skip(i + 1 as int));
            assert(b@.skip(i as int).drop_first() =~= b@.skip(i + 1 as int));
        }
        if ca != cb {
            return ca < cb;
        }
        i += 1;
    }
}

/// Equality of two texts up to ASCII case.
pub open spec fn eq_ci(a: Seq<char>, b: Seq<char>) -> bool {
    a.len() == b.len() && matches_ci_at(a, b, 0)
}

/// Case-insensitive equality of two character vectors.
pub fn chars_equal_ci(a: &Vec<char>, b: &Vec<char>) -> (r: bool)
    ensures
        r == eq_ci(a@, b@),
{
    if a.len() != b.len() {
        return false;
    }
    let n = a.len();
    let mut i: usize = 0;
    while i < n
        invariant
            n == a@.len(),
            n == b@.len(),
            i <= n,
            forall|j: int| 0 <= j < i ==> lower_code(a@[j]) == lower_code(b@[j]),
        decreases n - i,
    {
        if !chars_eq_ci(a[i], b[i]) {
            proof {
                assert(!matches_ci_at(a@, b@, 0));
            }
            return false;
        }
        i += 1;
    }
    proof {
        assert(matches_ci_at(a@, b@, 0));
    }
    true
}

/// ASCII whitespace.
pub open spec fn is_space(c: char) -> bool {
    c == ' ' || c == '\t' || c == '\n' || c == '\r' || c == '\u{b}' || c == '\u{c}'
}

/// Whitespace test for one character.
pub fn char_is_space(c: char) -> (r: bool)
    ensures
        r == is_space(c),
{
    c == ' ' || c == '\t' || c == '\n' || c == '\r' || c == '\u{b}' || c == '\u{c}'
}

/// The first position at or after `i` holding a non-space character,
/// or the length if there is none.
pub open spec fn next_non_space(s: Seq<char>, i: int) -> int
    decreases s.len() - i,
{
    if i < 0 || i >= s.len() {
        s.len() as int
    } else if is_space(s[i]) {
        next_non_space(s, i + 1)
    } else {
        i
    }
}

/// The first position at or after `i` holding a space, or the length.
pub open spec fn next_space(s: Seq<char>, i: int) -> int
    decreases s.len() - i,
{
    if i < 0 || i >= s.len() {
        s.len() as int
    } else if !is_space(s[i]) {
        next_space(s, i + 1)
    } else {
        i
    }
}

proof fn lemma_next_non_space_bounds(s: Seq<char>, i: int)
    requires
        0 <= i <= s.len(),
    ensures
        i <= next_non_space(s, i) <= s.len(),
        forall|t: int| i <= t < next_non_space(s, i) ==> is_space(s[t]),
        next_non_space(s, i) < s.len() ==> !is_space(s[next_non_space(s, i)]),
    decreases s.len() - i,
{
    if i < s.len() && is_space(s[i]) {
        lemma_next_non_space_bounds(s, i + 1);
    }
}

proof fn lemma_next_space_bounds(s: Seq<char>, i: int)
    requires
        0 <= i <= s.len(),
    ensures
        i <= next_space(s, i) <= s.len(),
        forall|t: int| i <= t < next_space(s, i) ==> !is_space(s[t]),
        next_space(s, i) < s.len() ==> is_space(s[next_space(s, i)]),
    decreases s.len() - i,
{
    if i < s.len() && !is_space(s[i]) {
        lemma_next_space_bounds(s, i + 1);
    }
}

/// The whitespace-separated words of `s`, starting at position `i`.
pub open spec fn words_from(s: Seq<char>, i: int) -> Seq<Seq<char>>
    decreases s.len() - i,
    via words_from_decreases
{
    if i < 0 || next_non_space(s, i) >= s.len() {
        Seq::empty()
    } else {
        let start = next_non_space(s, i);
        let e = next_space(s, start);
        seq![s.subrange(start, e)] + words_from(s, e)
    }
}

#[via_fn]
proof fn words_from_decreases(s: Seq<char>, i: int) {
    if !(i < 0 || next_non_space(s, i) >= s.len()) {
        if 0 <= i <= s.len() {
            lemma_next_non_space_bounds(s, i);
            let start = next_non_space(s, i);
            lemma_next_space_bounds(s, start);
        }
    }
}

/// The whitespace-separated words of `s`.
pub open spec fn words(s: Seq<char>) -> Seq<Seq<char>> {
    words_from(s, 0)
}

/// The views of a vector of strings.
pub open spec fn views_of(ss: Seq<String>) -> Seq<Seq<char>> {
    ss.map_values(|t: String| t@)
}

proof fn lemma_words_skip_space(s: Seq<char>, i: int)
    requires
        0 <= i < s.len(),
        is_space(s[i]),
    ensures
        words_from(s, i) == words_from(s, i + 1),
{
    assert(next_non_space(s, i) == next_non_space(s, i + 1));
}

proof fn lemma_words_take_word(s: Seq<char>, i: int, j: int)
    requires
        0 <= i < s.len(),
        !is_space(s[i]),
        i <= j <= s.len(),
        forall|t: int| i <= t < j ==> !is_space(s[t]),
        j == s.len() || is_space(s[j]),
    ensures
        words_from(s, i) == seq![s.subrange(i, j)] + words_from(s, j),
{
    lemma_next_space_step(s, i, j);
    assert(next_non_space(s, i) == i);
}

proof fn lemma_next_space_step(s: Seq<char>, i: int, j: int)
    requires
        0 <= i <= j <= s.len(),
        forall|t: int| i <= t < j ==> !is_space(s[t]),
        j == s.len() || is_space(s[j]),
    ensures
        next_space(s, i) == j,
    decreases j - i,
{
    if i < j {
        lemma_next_space_step(s, i + 1, j);
    }
}

/// Splits into whitespace-separated words.
pub fn split_ws(v: &Vec<char>) -> (r: Vec<String>)
    ensures
        views_of(r@) == words(v@),
{
    let n = v.len();
    let mut r: Vec<String> = Vec::new();
    let mut i: usize = 0;
    proof {
        assert(views_of(r@) + words_from(v@, 0) =~= words_from(v@, 0));
    }
    while i < n
        invariant
            n == v@.len(),
            i <= n,
            views_of(r@) + words_from(v@, i as int) == words(v@),
        decreases n - i,
    {
        let c = v[i];
        if char_is_space(c) {
            proof {
                lemma_words_skip_space(v@, i as int);
            }
            i += 1;
        } else {
            let mut j: usize = i + 1;
            while j < n
                invariant
                    n == v@.len(),
                    i < j <= n,
                    forall|t: int| i <= t < j ==> !is_space(v@[t]),
                ensures
                    i < j <= n,
                    forall|t: int| i <= t < j ==> !is_space(v@[t]),
                    j == n || is_space(v@[j as int]),
                decreases n - j,
            {
                if char_is_space(v[j]) {
                    break ;
                }
                j += 1;
            }
            let w = chars_to_string(v, i, j);
            proof {
                lemma_words_take_word(v@, i as int, j as int);
                assert(views_of(r@.push(w)) =~= views_of(r@) + seq![w@]);
                assert(views_of(r@) + (seq![v@.subrange(i as int, j as int)] + words_from(
                    v@,
                    j as int,
                )) =~= (views_of(r@) + seq![v@.subrange(i as int, j as int)]) + words_from(
                    v@,
                    j as int,
                ));
            }
            r.push(w);
            i = j;
        }
    }
    proof {
        assert(words_from(v@, n as int) =~= Seq::<Seq<char>>::empty());
        assert(views_of(r@) + words_from(v@, n as int) =~= views_of(r@));
    }
    r
}

/// The words joined with single spaces.
pub open spec fn join_sp(ws: Seq<Seq<char>>) -> Seq<char>
    decreases ws.len(),
{
    if ws.len() == 0 {
        Seq::empty()
    } else if ws.len() == 1 {
        ws[0]
    } else {
        join_sp(ws.drop_last()) + seq![' '] + ws.last()
    }
}

/// The first position at or after `i` holding a newline, or the length.
pub open spec fn next_nl(s: Seq<char>, i: int) -> int
    decreases s.len() - i,
{
    if i < 0 || i >= s.len() {
        s.len() as int
    } else if s[i] == '\n' {
        i
    } else {
        next_nl(s, i + 1)
    }
}

proof fn lemma_next_nl_bounds(s: Seq<char>, i: int)
    requires
        0 <= i <= s.len(),
    ensures
        i <= next_nl(s, i) <= s.len(),
        forall|t: int| i <= t < next_nl(s, i) ==> s[t] != '\n',
        next_nl(s, i) < s.len() ==> s[next_nl(s, i)] == '\n',
    decreases s.len() - i,
{
    if i < s.len() && s[i] != '\n' {
        lemma_next_nl_bounds(s, i + 1);
    }
}

proof fn lemma_next_nl_step(s: Seq<char>, i: int, j: int)
    requires
        0 <= i <= j <= s.len(),
        forall|t: int| i <= t < j ==> s[t] != '\n',
        j == s.len() || s[j] == '\n',
    ensures
        next_nl(s, i) == j,
    decreases j - i,
{
    if i < j {
        lemma_next_nl_step(s, i + 1, j);
    }
}

/// A line with a trailing carriage return removed.
pub open spec fn strip_cr(line: Seq<char>) -> Seq<char> {
    if line.len() > 0 && line.last() == '\r' {
        line.drop_last()
    } else {
        line
    }
}

/// The lines of `s` starting at position `i`: separated by newlines, each
/// with a trailing carriage return removed, no empty final line.
pub open spec fn lines_from(s: Seq<char>, i: int) -> Seq<Seq<char>>
    decreases s.len() - i + 1,
    via lines_from_decreases
{
    if i < 0 || i >= s.len() {
        Seq::empty()
    } else {
        let e = next_nl(s, i);
        seq![strip_cr(s.subrange(i, e))] + lines_from(s, e + 1)
    }
}

#[via_fn]
proof fn lines_from_decreases(s: Seq<char>, i: int) {
    if !(i < 0 || i >= s.len()) {
        lemma_next_nl_bounds(s, i);
    }
}

/// The lines of `s`.
pub open spec fn lines(s: Seq<char>) -> Seq<Seq<char>> {
    lines_from(s, 0)
}

/// Splits into lines, as `lines` describes.
pub fn split_lines(v: &Vec<char>) -> (r: Vec<String>)
    ensures
        views_of(r@) == lines(v@),
{
    let n = v.len();
    let mut r: Vec<String> = Vec::new();
    let mut i: usize = 0;
    proof {
        assert(views_of(r@) + lines_from(v@, 0) =~= lines_from(v@, 0));
    }
    while i < n
        invariant
            n == v@.len(),
            i <= n,
            views_of(r@) + lines_from(v@, i as int) == lines(v@),
        decreases n - i,
    {
        let mut j: usize = i;
        while j < n
            invariant
                n == v@.len(),
                i <= j <= n,
                forall|t: int| i <= t < j ==> v@[t] != '\n',
            ensures
                i <= j <= n,
                forall|t: int| i <= t < j ==> v@[t] != '\n',
                j == n || v@[j as int] == '\n',
            decreases n - j,
        {
            if v[j] == '\n' {
                break ;
            }
            j += 1;
        }
        let end = if j > i && v[j - 1] == '\r' {
            j - 1
        } else {
            j
        };
        let line = chars_to_string(v, i, end);
        proof {
            lemma_next_nl_step(v@, i as int, j as int);
            assert(line@ =~= strip_cr(v@.subrange(i as int, j as int)));
            assert(views_of(r@.push(line)) =~= views_of(r@) + seq![line@]);
            assert(views_of(r@) + (seq![strip_cr(v@.subrange(i as int, j as int))] + lines_from(
                v@,
                j + 1 as int,
            )) =~= (views_of(r@) + seq![strip_cr(v@.subrange(i as int, j as int))]) + lines_from(
                v@,
                j + 1 as int,
            ));
        }
        r.push(line);
        if j < n {
            i = j + 1;
        } else {
            i = n;
            proof {
                assert(lines_from(v@, j + 1 as int) =~= Seq::<Seq<char>>::empty());
                assert(lines_from(v@, n as int) =~= Seq::<Seq<char>>::empty());
            }
        }
    }
    proof {
        assert(lines_from(v@, n as int) =~= Seq::<Seq<char>>::empty());
        assert(views_of(r@) + lines_from(v@, n as int) =~= views_of(r@));
    }
    r
}

/// `pre` is a prefix of `s`.
pub open spec fn is_prefix(pre: Seq<char>, s: Seq<char>) -> bool {
    pre.len() <= s.len() && s.subrange(0, pre.len() as int) == pre
}

/// Prefix test over character vectors.
pub fn chars_start_with(text: &Vec<char>, pre: &Vec<char>) -> (r: bool)
    ensures
        r == is_prefix(pre@, text@),
{
    if pre.len() > text.len() {
        return false;
    }
    let mut i: usize = 0;
    while i < pre.len()
        invariant
            pre@.len() <= text@.len(),
            i <= pre@.len(),
            forall|j: int| 0 <= j < i ==> text@[j] == pre@[j],
        decreases pre@.len() - i,
    {
        if text[i] != pre[i] {
            proof {
                assert(text@.subrange(0, pre@.len() as int)[i as int] != pre@[i as int]);
            }
            return false;
        }
        i += 1;
    }
    proof {
        assert(text@.subrange(0, pre@.len() as int) =~= pre@);
    }
    true
}

} // verus!
