//! Character sequences: the model of every string in this crate is the
//! sequence of its characters, and the functions here are the few operations
//! on such sequences that the rest of the crate is built from.

use vstd::prelude::*;

verus! {

/// `String::push` appends one character to the end of the string.
pub assume_specification[ String::push ](s: &mut String, c: char)
    ensures
        final(s)@ == old(s)@.push(c),
;

/// The characters of a string slice, in order.
pub fn to_chars(s: &str) -> (v: Vec<char>)
    ensures
        v@ == s@,
{
    let mut v: Vec<char> = Vec::new();
    for c in it: s.chars()
        invariant
            v@ == it.seq().take(it.index() as int),
    {
        v.push(c);
    }
    v
}

/// The string made of the characters `v[from..to]`.
pub fn from_chars(v: &Vec<char>, from: usize, to: usize) -> (s: String)
    requires
        from <= to <= v.len(),
    ensures
        s@ == v@.subrange(from as int, to as int),
{
    let mut s: String = String::new();
    let mut i: usize = from;
    while i < to
        invariant
            from <= i <= to <= v.len(),
            s@ == v@.subrange(from as int, i as int),
        decreases to - i,
    {
        s.push(v[i]);
        i = i + 1;
        assert(v@.subrange(from as int, i as int) == v@.subrange(from as int, i - 1).push(
            v@[i - 1],
        ));
    }
    s
}

/// Whether two character vectors hold the same sequence.
pub fn same_chars(a: &Vec<char>, b: &Vec<char>) -> (same: bool)
    ensures
        same == (a@ == b@),
{
    if a.len() != b.len() {
        return false;
    }
    let mut i: usize = 0;
    while i < a.len()
        invariant
            i <= a.len(),
            a.len() == b.len(),
            a@.take(i as int) == b@.take(i as int),
        decreases a.len() - i,
    {
        if a[i] != b[i] {
            return false;
        }
        i = i + 1;
        assert(a@.take(i as int) == a@.take(i - 1).push(a@[i - 1]));
        assert(b@.take(i as int) == b@.take(i - 1).push(b@[i - 1]));
    }
    assert(a@.take(a.len() as int) == a@);
    assert(b@.take(b.len() as int) == b@);
    true
}

/// Whether two string slices hold the same characters.
pub fn same_text(a: &str, b: &str) -> (same: bool)
    ensures
        same == (a@ == b@),
{
    let left: Vec<char> = to_chars(a);
    let right: Vec<char> = to_chars(b);
    same_chars(&left, &right)
}

/// `s` ends with `suffix`.
pub open spec fn ends_with(s: Seq<char>, suffix: Seq<char>) -> bool {
    suffix.len() <= s.len() && s.subrange(s.len() - suffix.len(), s.len() as int) == suffix
}

/// Whether `s` ends with `suffix`.
pub fn has_suffix(s: &Vec<char>, suffix: &Vec<char>) -> (found: bool)
    ensures
        found == ends_with(s@, suffix@),
{
    if suffix.len() > s.len() {
        return false;
    }
    let start: usize = s.len() - suffix.len();
    let ghost tail = s@.subrange(start as int, s.len() as int);
    let mut i: usize = 0;
    while i < suffix.len()
        invariant
            i <= suffix.len(),
            start + suffix.len() == s.len(),
            tail == s@.subrange(start as int, s.len() as int),
            tail.take(i as int) == suffix@.take(i as int),
        decreases suffix.len() - i,
    {
        if s[start + i] != suffix[i] {
            assert(tail[i as int] != suffix@[i as int]);
            return false;
        }
        i = i + 1;
        assert(tail.take(i as int) == tail.take(i - 1).push(tail[i - 1]));
        assert(suffix@.take(i as int) == suffix@.take(i - 1).push(suffix@[i - 1]));
    }
    assert(tail.take(suffix.len() as int) == tail);
    assert(suffix@.take(suffix.len() as int) == suffix@);
    true
}

/// The decimal digit `d`, for `d` below ten.
pub open spec fn digit_char(d: nat) -> char {
    (48 + d) as char
}

/// The decimal numeral of `n`, without sign or leading zeros.
pub open spec fn decimal(n: nat) -> Seq<char>
    decreases n,
{
    if n < 10 {
        seq![digit_char(n)]
    } else {
        decimal(n / 10).push(digit_char(n % 10))
    }
}

/// The decimal numeral of `i`, with a leading `-` when it is negative.
pub open spec fn signed_decimal(i: int) -> Seq<char> {
    if i < 0 {
        seq!['-'] + decimal((-i) as nat)
    } else {
        decimal(i as nat)
    }
}

/// Appends the decimal numeral of `n` to `s`.
pub fn push_decimal(s: &mut String, n: u64)
    ensures
        final(s)@ == old(s)@ + decimal(n as nat),
    decreases n,
{
    if n >= 10 {
        push_decimal(s, n / 10);
    }
    let d: u8 = (n % 10) as u8;
    s.push((48 + d) as char);
    assert(final(s)@ == old(s)@ + decimal(n as nat)) by {
        if n >= 10 {
            assert(old(s)@ + decimal(n as nat) == (old(s)@ + decimal((n / 10) as nat)).push(
                digit_char((n % 10) as nat),
            ));
        } else {
            assert(old(s)@ + decimal(n as nat) == old(s)@.push(digit_char(n as nat)));
        }
    }
}

/// Appends the decimal numeral of `i` to `s`, with its sign.
pub fn push_signed_decimal(s: &mut String, i: i64)
    ensures
        final(s)@ == old(s)@ + signed_decimal(i as int),
{
    if i < 0 {
        s.push('-');
        let magnitude: u64 = (-(i as i128)) as u64;
        push_decimal(s, magnitude);
        assert(final(s)@ == old(s)@ + signed_decimal(i as int)) by {
            assert(old(s)@.push('-') + decimal(magnitude as nat) == old(s)@ + (seq!['-'] + decimal(
                magnitude as nat,
            )));
        }
    } else {
        push_decimal(s, i as u64);
    }
}

/// Which characters are stripped from the two ends of a string.
#[derive(Clone, Copy)]
pub enum Margin {
    /// Unicode white space.
    Whitespace,
    /// The full stop and the space.
    DotsAndSpaces,
}

/// The characters with the Unicode property `White_Space`.
pub open spec fn is_space(c: char) -> bool {
    let u = c as u32;
    (0x09 <= u <= 0x0D) || u == 0x20 || u == 0x85 || u == 0xA0 || u == 0x1680 || (0x2000 <= u
        <= 0x200A) || u == 0x2028 || u == 0x2029 || u == 0x202F || u == 0x205F || u == 0x3000
}

/// Whether `c` belongs to the margin `m`.
pub open spec fn in_margin(m: Margin, c: char) -> bool {
    match m {
        Margin::Whitespace => is_space(c),
        Margin::DotsAndSpaces => c == '.' || c == ' ',
    }
}

/// `s` without its longest prefix of margin characters.
pub open spec fn strip_start(m: Margin, s: Seq<char>) -> Seq<char>
    decreases s.len(),
{
    if s.len() > 0 && in_margin(m, s[0]) {
        strip_start(m, s.drop_first())
    } else {
        s
    }
}

/// `s` without its longest suffix of margin characters.
pub open spec fn strip_end(m: Margin, s: Seq<char>) -> Seq<char>
    decreases s.len(),
{
    if s.len() > 0 && in_margin(m, s.last()) {
        strip_end(m, s.drop_last())
    } else {
        s
    }
}

/// `s` without margin characters at either end.
pub open spec fn strip(m: Margin, s: Seq<char>) -> Seq<char> {
    strip_end(m, strip_start(m, s))
}

/// `s` without white space at either end.
pub open spec fn trim(s: Seq<char>) -> Seq<char> {
    strip(Margin::Whitespace, s)
}

/// Whether `c` belongs to the margin `m`.
pub fn is_margin(m: Margin, c: char) -> (r: bool)
    ensures
        r == in_margin(m, c),
{
    match m {
        Margin::Whitespace => {
            let u: u32 = c as u32;
            (0x09 <= u && u <= 0x0D) || u == 0x20 || u == 0x85 || u == 0xA0 || u == 0x1680 || (
            0x2000 <= u && u <= 0x200A) || u == 0x2028 || u == 0x2029 || u == 0x202F || u
                == 0x205F || u == 0x3000
        },
        Margin::DotsAndSpaces => c == '.' || c == ' ',
    }
}

/// Where `v[from..to]` begins once its leading margin is stripped.
fn strip_start_index(m: Margin, v: &Vec<char>, from: usize, to: usize) -> (lo: usize)
    requires
        from <= to <= v.len(),
    ensures
        from <= lo <= to,
        v@.subrange(lo as int, to as int) == strip_start(m, v@.subrange(from as int, to as int)),
{
    let mut lo: usize = from;
    while lo < to && is_margin(m, v[lo])
        invariant
            from <= lo <= to <= v.len(),
            strip_start(m, v@.subrange(from as int, to as int)) == strip_start(
                m,
                v@.subrange(lo as int, to as int),
            ),
        decreases to - lo,
    {
        assert(v@.subrange(lo as int, to as int).drop_first() == v@.subrange(lo + 1, to as int));
        lo = lo + 1;
    }
    lo
}

/// Where `v[from..to]` ends once its trailing margin is stripped.
fn strip_end_index(m: Margin, v: &Vec<char>, from: usize, to: usize) -> (hi: usize)
    requires
        from <= to <= v.len(),
    ensures
        from <= hi <= to,
        v@.subrange(from as int, hi as int) == strip_end(m, v@.subrange(from as int, to as int)),
{
    let mut hi: usize = to;
    while hi > from && is_margin(m, v[hi - 1])
        invariant
            from <= hi <= to <= v.len(),
            strip_end(m, v@.subrange(from as int, to as int)) == strip_end(
                m,
                v@.subrange(from as int, hi as int),
            ),
        decreases hi - from,
    {
        assert(v@.subrange(from as int, hi as int).drop_last() == v@.subrange(
            from as int,
            hi - 1,
        ));
        hi = hi - 1;
    }
    hi
}

/// The bounds of what is left of `v` once the margin is stripped from both
/// ends.
pub fn strip_bounds(m: Margin, v: &Vec<char>) -> (bounds: (usize, usize))
    ensures
        bounds.0 <= bounds.1 <= v.len(),
        v@.subrange(bounds.0 as int, bounds.1 as int) == strip(m, v@),
{
    let n: usize = v.len();
    assert(v@.subrange(0, n as int) == v@);
    let lo: usize = strip_start_index(m, v, 0, n);
    let hi: usize = strip_end_index(m, v, lo, n);
    (lo, hi)
}

} // verus!
