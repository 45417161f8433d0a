//! Character classes and tokens of tool output.
use vstd::prelude::*;

verus! {

/// The characters with Unicode's `White_Space` property.
pub open spec fn is_white_space(c: char) -> bool {
    ('\u{9}' <= c && c <= '\u{d}') || c == ' ' || c == '\u{85}' || c == '\u{a0}'
        || c == '\u{1680}' || ('\u{2000}' <= c && c <= '\u{200a}') || c == '\u{2028}'
        || c == '\u{2029}' || c == '\u{202f}' || c == '\u{205f}' || c == '\u{3000}'
}

/// Whether `c` separates words, as `char::is_whitespace` decides it.
pub fn white_space(c: char) -> (r: bool)
    ensures
        r == is_white_space(c),
{
    ('\u{9}' <= c && c <= '\u{d}') || c == ' ' || c == '\u{85}' || c == '\u{a0}'
        || c == '\u{1680}' || ('\u{2000}' <= c && c <= '\u{200a}') || c == '\u{2028}'
        || c == '\u{2029}' || c == '\u{202f}' || c == '\u{205f}' || c == '\u{3000}'
}

/// The end of `s[..j]` once trailing white space is dropped.
pub open spec fn content_end(s: Seq<char>, j: int) -> int
    decreases j,
{
    if 0 < j <= s.len() && is_white_space(s[j - 1]) {
        content_end(s, j - 1)
    } else {
        j
    }
}

/// The start of the run of non-space characters that ends at `j`.
pub open spec fn word_start(s: Seq<char>, j: int) -> int
    decreases j,
{
    if 0 < j <= s.len() && !is_white_space(s[j - 1]) {
        word_start(s, j - 1)
    } else {
        j
    }
}

/// The last white-space-delimited word of `s`, if it holds any.
pub open spec fn last_token(s: Seq<char>) -> Option<Seq<char>> {
    let e = content_end(s, s.len() as int);
    if e == 0 {
        None
    } else {
        Some(s.subrange(word_start(s, e), e))
    }
}

/// The last white-space-delimited word of `s`.
pub fn last_word(s: &str) -> (r: Option<String>)
    ensures
        match r {
            Some(w) => last_token(s@) == Some(w@),
            None => last_token(s@).is_none(),
        },
{
    let n = s.unicode_len();
    let mut j: usize = n;
    while j > 0
        invariant
            n == s@.len(),
            j <= n,
            content_end(s@, j as int) == content_end(s@, n as int),
        ensures
            j <= n,
            content_end(s@, j as int) == content_end(s@, n as int),
            j == 0 || !is_white_space(s@[j - 1]),
        decreases j,
    {
        let c = s.get_char(j - 1);
        if !white_space(c) {
            break;
        }
        j = j - 1;
    }
    if j == 0 {
        return None;
    }
    let mut i: usize = j;
    while i > 0
        invariant
            n == s@.len(),
            i <= j <= n,
            word_start(s@, i as int) == word_start(s@, j as int),
        ensures
            i <= j,
            word_start(s@, i as int) == word_start(s@, j as int),
            i == 0 || is_white_space(s@[i - 1]),
        decreases i,
    {
        let c = s.get_char(i - 1);
        if white_space(c) {
            break;
        }
        i = i - 1;
    }
    let w = s.substring_char(i, j);
    Some(String::from_str(w))
}

/// The decimal digit for `d < 10`.
pub open spec fn digit_char(d: nat) -> char {
    if d == 0 { '0' } else if d == 1 { '1' } else if d == 2 { '2' } else if d == 3 { '3' }
    else if d == 4 { '4' } else if d == 5 { '5' } else if d == 6 { '6' } else if d == 7 { '7' }
    else if d == 8 { '8' } else { '9' }
}

/// `n` written in decimal, without leading zeros.
pub open spec fn decimal(n: nat) -> Seq<char>
    decreases n,
{
    if n < 10 {
        seq![digit_char(n)]
    } else {
        decimal(n / 10).push(digit_char(n % 10))
    }
}

fn digit_str(d: u64) -> (r: &'static str)
    requires
        d < 10,
    ensures
        r@ == seq![digit_char(d as nat)],
{
    proof {
        reveal_strlit("0");
        reveal_strlit("1");
        reveal_strlit("2");
        reveal_strlit("3");
        reveal_strlit("4");
        reveal_strlit("5");
        reveal_strlit("6");
        reveal_strlit("7");
        reveal_strlit("8");
        reveal_strlit("9");
    }
    if d == 0 { "0" } else if d == 1 { "1" } else if d == 2 { "2" } else if d == 3 { "3" }
    else if d == 4 { "4" } else if d == 5 { "5" } else if d == 6 { "6" } else if d == 7 { "7" }
    else if d == 8 { "8" } else { "9" }
}

/// Writes `n` in decimal.
pub fn to_decimal(n: u64) -> (r: String)
    ensures
        r@ == decimal(n as nat),
    decreases n,
{
    if n < 10 {
        String::from_str(digit_str(n))
    } else {
        let mut s = to_decimal(n / 10);
        s.append(digit_str(n % 10));
        s
    }
}

} // verus!
