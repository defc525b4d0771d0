//! Derivation of the short-lived authorization token from the landing page.
//!
//! The page embeds one call `JSON.parse('[...]')` whose argument is an array
//! `[codes, flag, keys, .., name]`. The token is the sequence of bytes
//! `codes[t] - keys[last - t]`, reversed when `flag` is not zero and cut to 32
//! characters; `name`, the seventh element, is the code of the query
//! parameter that carries it.

use crate::text::to_chars;
use vstd::prelude::*;

verus! {

/// The authorization value and the name of the query parameter it is sent
/// under.
#[derive(Debug, PartialEq, Eq)]
pub struct AuthToken {
    /// A single character.
    pub parameter_name: String,
    /// At most [`TOKEN_LIMIT`] characters.
    pub value: String,
}

/// The page holds no payload from which a token can be derived.
#[derive(Debug, Clone, Copy, PartialEq, Eq)]
pub struct AuthExtractionError;

/// The longest token that is ever sent.
pub const TOKEN_LIMIT: usize = 32;

/// The largest magnitude that a 64-bit integer literal can have.
pub const MAGNITUDE_LIMIT: u64 = 9223372036854775808;

impl AuthToken {
    /// The shape every derived token has.
    pub open spec fn wf(&self) -> bool {
        self.parameter_name@.len() == 1 && self.value@.len() <= TOKEN_LIMIT
    }
}

/// One element of the payload array.
#[derive(Debug, PartialEq, Eq)]
pub enum Item {
    /// An integer literal.
    Number(i64),
    /// An array of integer literals.
    Numbers(Vec<i64>),
    /// A string or any other bare word.
    Other,
}

/// The mathematical content of an [`Item`].
pub ghost enum ItemModel {
    Number(i64),
    Numbers(Seq<i64>),
    Other,
}

impl View for Item {
    type V = ItemModel;

    open spec fn view(&self) -> ItemModel {
        match self {
            Item::Number(n) => ItemModel::Number(*n),
            Item::Numbers(v) => ItemModel::Numbers(v@),
            Item::Other => ItemModel::Other,
        }
    }
}

/// The models of a sequence of items.
pub open spec fn models(items: Seq<Item>) -> Seq<ItemModel> {
    items.map_values(|i: Item| i@)
}

// ---------------------------------------------------------------------------
// Locating the payload
// ---------------------------------------------------------------------------

/// The text that opens the payload.
pub open spec fn opening() -> Seq<char> {
    "JSON.parse('"@
}

/// The text that closes the payload.
pub open spec fn closing() -> Seq<char> {
    "')"@
}

/// The first position at or after `from` where `pattern` occurs in `s`.
pub open spec fn first_match(s: Seq<char>, pattern: Seq<char>, from: int) -> Option<int>
    decreases s.len() - from,
{
    if from < 0 || from + pattern.len() > s.len() {
        None
    } else if s.subrange(from, from + pattern.len()) == pattern {
        Some(from)
    } else if from < s.len() {
        first_match(s, pattern, from + 1)
    } else {
        None
    }
}

/// The payload of a page: the text between the first opening and the first
/// closing that follows it.
pub open spec fn payload(html: Seq<char>) -> Option<Seq<char>> {
    match first_match(html, opening(), 0) {
        Some(i) => match first_match(html, closing(), i + opening().len()) {
            Some(j) => Some(html.subrange(i + opening().len(), j)),
            None => None,
        },
        None => None,
    }
}

fn occurs_at(s: &Vec<char>, pattern: &Vec<char>, at: usize) -> (found: bool)
    requires
        at + pattern.len() <= s.len(),
    ensures
        found == (s@.subrange(at as int, at + pattern.len()) == pattern@),
{
    let ghost window = s@.subrange(at as int, at + pattern.len());
    let mut k: usize = 0;
    while k < pattern.len()
        invariant
            k <= pattern.len(),
            at + pattern.len() <= s.len(),
            window == s@.subrange(at as int, at + pattern.len()),
            window.take(k as int) == pattern@.take(k as int),
        decreases pattern.len() - k,
    {
        if s[at + k] != pattern[k] {
            assert(window[k as int] != pattern@[k as int]);
            return false;
        }
        k = k + 1;
        assert(window.take(k as int) == window.take(k - 1).push(window[k - 1]));
        assert(pattern@.take(k as int) == pattern@.take(k - 1).push(pattern@[k - 1]));
    }
    assert(window.take(pattern.len() as int) == window);
    assert(pattern@.take(pattern.len() as int) == pattern@);
    true
}

/// The first position at or after `from` where `pattern` occurs in `s`.
pub fn find_from(s: &Vec<char>, pattern: &Vec<char>, from: usize) -> (found: Option<usize>)
    ensures
        match first_match(s@, pattern@, from as int) {
            Some(i) => found == Some(i as usize) && from <= i && i + pattern.len() <= s.len(),
            None => found is None,
        },
{
    if pattern.len() > s.len() || from > s.len() - pattern.len() {
        return None;
    }
    let last: usize = s.len() - pattern.len();
    let mut i: usize = from;
    while i < last
        invariant
            from <= i <= last,
            last + pattern.len() == s.len(),
            first_match(s@, pattern@, from as int) == first_match(s@, pattern@, i as int),
        decreases last - i,
    {
        if occurs_at(s, pattern, i) {
            return Some(i);
        }
        i = i + 1;
    }
    if occurs_at(s, pattern, i) {
        return Some(i);
    }
    assert(first_match(s@, pattern@, i + 1) is None);
    None
}

// ---------------------------------------------------------------------------
// The grammar of the payload
// ---------------------------------------------------------------------------

/// White space between the tokens of the payload.
pub open spec fn is_blank(c: char) -> bool {
    c == ' ' || c == '\t' || c == '\n' || c == '\r'
}

/// A decimal digit.
pub open spec fn is_digit(c: char) -> bool {
    '0' <= c && c <= '9'
}

/// The value of a decimal digit.
pub open spec fn digit_value(c: char) -> int {
    c as int - 48
}

/// A character that ends a bare word.
pub open spec fn is_delimiter(c: char) -> bool {
    c == ',' || c == '[' || c == ']' || c == '"' || is_blank(c)
}

/// The first position at or after `pos` that holds no blank.
pub open spec fn skip_blanks(s: Seq<char>, pos: int) -> int
    decreases s.len() - pos,
{
    if 0 <= pos < s.len() && is_blank(s[pos]) {
        skip_blanks(s, pos + 1)
    } else {
        pos
    }
}

/// The number that the digits from `pos` on spell after `acc`, and where they
/// end.
pub open spec fn scan_digits(s: Seq<char>, pos: int, acc: int) -> (int, int)
    decreases s.len() - pos,
{
    if 0 <= pos < s.len() && is_digit(s[pos]) {
        scan_digits(s, pos + 1, acc * 10 + digit_value(s[pos]))
    } else {
        (acc, pos)
    }
}

/// The integer literal at `pos`, an optional minus sign and at least one
/// digit, with the position behind it.
pub open spec fn scan_number(s: Seq<char>, pos: int) -> Option<(int, int)> {
    let negative = 0 <= pos < s.len() && s[pos] == '-';
    let start = if negative {
        pos + 1
    } else {
        pos
    };
    if 0 <= start < s.len() && is_digit(s[start]) {
        let (magnitude, end) = scan_digits(s, start, 0);
        Some(
            (
                if negative {
                    -magnitude
                } else {
                    magnitude
                },
                end,
            ),
        )
    } else {
        None
    }
}

/// Whether `v` is the value of a 64-bit integer.
pub open spec fn fits(v: int) -> bool {
    i64::MIN <= v <= i64::MAX
}

/// The end of the bare word at `pos`: the first delimiter, or the end of the
/// text.
pub open spec fn scan_word(s: Seq<char>, pos: int) -> int
    decreases s.len() - pos,
{
    if 0 <= pos < s.len() && !is_delimiter(s[pos]) {
        scan_word(s, pos + 1)
    } else {
        pos
    }
}

/// The position behind the closing quote of the string whose content starts
/// at `pos`; a backslash takes the character after it along.
pub open spec fn scan_string(s: Seq<char>, pos: int) -> Option<int>
    decreases s.len() - pos,
{
    if pos < 0 || pos >= s.len() {
        None
    } else if s[pos] == '"' {
        Some(pos + 1)
    } else if s[pos] == '\\' {
        if pos + 1 < s.len() {
            scan_string(s, pos + 2)
        } else {
            None
        }
    } else {
        scan_string(s, pos + 1)
    }
}

/// The integers of a list whose next number starts at `pos`, after those in
/// `acc`, and the position behind the closing bracket.
pub open spec fn scan_numbers(s: Seq<char>, pos: int, acc: Seq<i64>) -> Option<(Seq<i64>, int)>
    decreases s.len() - pos,
{
    match scan_number(s, pos) {
        Some((v, end)) => {
            let p = skip_blanks(s, end);
            if !fits(v) || p < 0 || p >= s.len() {
                None
            } else if s[p] == ']' {
                Some((acc.push(v as i64), p + 1))
            } else if s[p] == ',' {
                let q = skip_blanks(s, p + 1);
                if pos < q <= s.len() {
                    scan_numbers(s, q, acc.push(v as i64))
                } else {
                    None
                }
            } else {
                None
            }
        },
        None => None,
    }
}

/// The list of integers whose first token starts at `pos`, behind the
/// opening bracket.
pub open spec fn scan_list(s: Seq<char>, pos: int) -> Option<(Seq<i64>, int)> {
    if 0 <= pos < s.len() && s[pos] == ']' {
        Some((Seq::empty(), pos + 1))
    } else {
        scan_numbers(s, pos, Seq::empty())
    }
}

/// The element that starts at `pos`: a list of integers, a quoted string, or
/// a bare word, which is a number where it spells a 64-bit integer.
pub open spec fn scan_item(s: Seq<char>, pos: int) -> Option<(ItemModel, int)> {
    if pos < 0 || pos >= s.len() {
        None
    } else if s[pos] == '[' {
        match scan_list(s, skip_blanks(s, pos + 1)) {
            Some((numbers, end)) => Some((ItemModel::Numbers(numbers), end)),
            None => None,
        }
    } else if s[pos] == '"' {
        match scan_string(s, pos + 1) {
            Some(end) => Some((ItemModel::Other, end)),
            None => None,
        }
    } else {
        let end = scan_word(s, pos);
        if end <= pos {
            None
        } else {
            match scan_number(s, pos) {
                Some((v, stop)) => if stop == end && fits(v) {
                    Some((ItemModel::Number(v as i64), end))
                } else {
                    Some((ItemModel::Other, end))
                },
                None => Some((ItemModel::Other, end)),
            }
        }
    }
}

/// The elements of an array whose next element starts at `pos`, after those
/// in `acc`, and the position behind the closing bracket.
pub open spec fn scan_items(s: Seq<char>, pos: int, acc: Seq<ItemModel>) -> Option<
    (Seq<ItemModel>, int),
>
    decreases s.len() - pos,
{
    match scan_item(s, pos) {
        Some((item, end)) => {
            let p = skip_blanks(s, end);
            if p < 0 || p >= s.len() {
                None
            } else if s[p] == ']' {
                Some((acc.push(item), p + 1))
            } else if s[p] == ',' {
                let q = skip_blanks(s, p + 1);
                if pos < q <= s.len() {
                    scan_items(s, q, acc.push(item))
                } else {
                    None
                }
            } else {
                None
            }
        },
        None => None,
    }
}

/// The elements of the array that `s` spells: one array, blanks allowed
/// around every token, nothing but blanks behind it.
pub open spec fn parse_items(s: Seq<char>) -> Option<Seq<ItemModel>> {
    let p = skip_blanks(s, 0);
    if 0 <= p < s.len() && s[p] == '[' {
        let q = skip_blanks(s, p + 1);
        let body = if 0 <= q < s.len() && s[q] == ']' {
            Some((Seq::<ItemModel>::empty(), q + 1))
        } else {
            scan_items(s, q, Seq::empty())
        };
        match body {
            Some((items, end)) => if skip_blanks(s, end) == s.len() {
                Some(items)
            } else {
                None
            },
            None => None,
        }
    } else {
        None
    }
}

// ---------------------------------------------------------------------------
// Reading the payload
// ---------------------------------------------------------------------------

fn blank(c: char) -> (r: bool)
    ensures
        r == is_blank(c),
{
    c == ' ' || c == '\t' || c == '\n' || c == '\r'
}

fn digit(c: char) -> (r: bool)
    ensures
        r == is_digit(c),
{
    '0' <= c && c <= '9'
}

fn delimiter(c: char) -> (r: bool)
    ensures
        r == is_delimiter(c),
{
    c == ',' || c == '[' || c == ']' || c == '"' || blank(c)
}

fn skip_blanks_from(s: &Vec<char>, pos: usize) -> (next: usize)
    requires
        pos <= s.len(),
    ensures
        next == skip_blanks(s@, pos as int),
        pos <= next <= s.len(),
{
    let mut i: usize = pos;
    while i < s.len() && blank(s[i])
        invariant
            pos <= i <= s.len(),
            skip_blanks(s@, pos as int) == skip_blanks(s@, i as int),
        decreases s.len() - i,
    {
        i = i + 1;
    }
    i
}

/// A magnitude, or one more than the limit for every magnitude above it.
pub open spec fn capped(v: int) -> int {
    if v > MAGNITUDE_LIMIT {
        MAGNITUDE_LIMIT + 1
    } else {
        v
    }
}

fn read_digits(s: &Vec<char>, pos: usize) -> (r: (u64, usize))
    requires
        pos <= s.len(),
    ensures
        r.0 == capped(scan_digits(s@, pos as int, 0).0),
        r.1 == scan_digits(s@, pos as int, 0).1,
        scan_digits(s@, pos as int, 0).0 >= 0,
        pos <= r.1 <= s.len(),
        pos < s.len() && is_digit(s@[pos as int]) ==> pos < r.1,
{
    let mut i: usize = pos;
    let mut acc: u64 = 0;
    let ghost mut exact: int = 0;
    while i < s.len() && digit(s[i])
        invariant
            pos <= i <= s.len(),
            exact >= 0,
            acc == capped(exact),
            scan_digits(s@, pos as int, 0) == scan_digits(s@, i as int, exact),
        decreases s.len() - i,
    {
        let d: u32 = s[i] as u32 - 48;
        if acc <= MAGNITUDE_LIMIT {
            let wide: u128 = acc as u128 * 10 + d as u128;
            if wide > MAGNITUDE_LIMIT as u128 {
                acc = MAGNITUDE_LIMIT + 1;
            } else {
                acc = wide as u64;
            }
        }
        proof {
            exact = exact * 10 + digit_value(s@[i as int]);
        }
        i = i + 1;
    }
    (acc, i)
}

/// The integer literal at `pos` and the position behind it; the value is
/// absent where it does not fit 64 bits.
fn read_number(s: &Vec<char>, pos: usize) -> (r: Option<(Option<i64>, usize)>)
    requires
        pos <= s.len(),
    ensures
        match scan_number(s@, pos as int) {
            Some((v, end)) => r matches Some((value, stop)) && stop == end && pos < end <= s.len()
                && (fits(v) ==> value == Some(v as i64)) && (!fits(v) ==> value is None),
            None => r is None,
        },
{
    let negative: bool = pos < s.len() && s[pos] == '-';
    let start: usize = if negative {
        pos + 1
    } else {
        pos
    };
    if start < s.len() && digit(s[start]) {
        let (magnitude, end) = read_digits(s, start);
        let value: Option<i64> = if negative {
            if magnitude <= MAGNITUDE_LIMIT {
                Some((-(magnitude as i128)) as i64)
            } else {
                None
            }
        } else {
            if magnitude < MAGNITUDE_LIMIT {
                Some(magnitude as i64)
            } else {
                None
            }
        };
        Some((value, end))
    } else {
        None
    }
}

fn read_word(s: &Vec<char>, pos: usize) -> (end: usize)
    requires
        pos <= s.len(),
    ensures
        end == scan_word(s@, pos as int),
        pos <= end <= s.len(),
{
    let mut i: usize = pos;
    while i < s.len() && !delimiter(s[i])
        invariant
            pos <= i <= s.len(),
            scan_word(s@, pos as int) == scan_word(s@, i as int),
        decreases s.len() - i,
    {
        i = i + 1;
    }
    i
}

fn read_string(s: &Vec<char>, pos: usize) -> (r: Option<usize>)
    requires
        pos <= s.len(),
    ensures
        match scan_string(s@, pos as int) {
            Some(end) => r == Some(end as usize) && pos < end <= s.len(),
            None => r is None,
        },
{
    let mut i: usize = pos;
    while i < s.len()
        invariant
            pos <= i <= s.len(),
            scan_string(s@, pos as int) == scan_string(s@, i as int),
        decreases s.len() - i,
    {
        let c: char = s[i];
        if c == '"' {
            return Some(i + 1);
        } else if c == '\\' {
            if i + 1 < s.len() {
                i = i + 2;
            } else {
                return None;
            }
        } else {
            i = i + 1;
        }
    }
    None
}

fn read_numbers(s: &Vec<char>, pos: usize) -> (r: Option<(Vec<i64>, usize)>)
    requires
        pos <= s.len(),
    ensures
        match scan_numbers(s@, pos as int, Seq::empty()) {
            Some((numbers, end)) => r matches Some((v, stop)) && v@ == numbers && stop == end
                && pos < end <= s.len(),
            None => r is None,
        },
{
    let mut numbers: Vec<i64> = Vec::new();
    let mut p: usize = pos;
    loop
        invariant
            pos <= p <= s.len(),
            scan_numbers(s@, pos as int, Seq::empty()) == scan_numbers(s@, p as int, numbers@),
        decreases s.len() - p,
    {
        match read_number(s, p) {
            Some((Some(v), end)) => {
                let after: usize = skip_blanks_from(s, end);
                if after >= s.len() {
                    return None;
                }
                let c: char = s[after];
                if c == ']' {
                    numbers.push(v);
                    return Some((numbers, after + 1));
                } else if c == ',' {
                    numbers.push(v);
                    p = skip_blanks_from(s, after + 1);
                } else {
                    return None;
                }
            },
            _ => {
                return None;
            },
        }
    }
}

fn read_list(s: &Vec<char>, pos: usize) -> (r: Option<(Vec<i64>, usize)>)
    requires
        pos <= s.len(),
    ensures
        match scan_list(s@, pos as int) {
            Some((numbers, end)) => r matches Some((v, stop)) && v@ == numbers && stop == end
                && pos < end <= s.len(),
            None => r is None,
        },
{
    if pos < s.len() && s[pos] == ']' {
        Some((Vec::new(), pos + 1))
    } else {
        read_numbers(s, pos)
    }
}

fn read_item(s: &Vec<char>, pos: usize) -> (r: Option<(Item, usize)>)
    requires
        pos <= s.len(),
    ensures
        match scan_item(s@, pos as int) {
            Some((item, end)) => r matches Some((i, stop)) && i@ == item && stop == end && pos
                < end <= s.len(),
            None => r is None,
        },
{
    if pos >= s.len() {
        return None;
    }
    let c: char = s[pos];
    if c == '[' {
        let start: usize = skip_blanks_from(s, pos + 1);
        match read_list(s, start) {
            Some((numbers, end)) => Some((Item::Numbers(numbers), end)),
            None => None,
        }
    } else if c == '"' {
        match read_string(s, pos + 1) {
            Some(end) => Some((Item::Other, end)),
            None => None,
        }
    } else {
        let end: usize = read_word(s, pos);
        if end <= pos {
            return None;
        }
        match read_number(s, pos) {
            Some((Some(v), stop)) => {
                if stop == end {
                    Some((Item::Number(v), end))
                } else {
                    Some((Item::Other, end))
                }
            },
            _ => Some((Item::Other, end)),
        }
    }
}

fn read_items(s: &Vec<char>, pos: usize) -> (r: Option<(Vec<Item>, usize)>)
    requires
        pos <= s.len(),
    ensures
        match scan_items(s@, pos as int, Seq::empty()) {
            Some((items, end)) => r matches Some((v, stop)) && models(v@) == items && stop
                == end && pos < end <= s.len(),
            None => r is None,
        },
{
    let mut items: Vec<Item> = Vec::new();
    let mut p: usize = pos;
    assert(models(items@) == Seq::<ItemModel>::empty());
    loop
        invariant
            pos <= p <= s.len(),
            scan_items(s@, pos as int, Seq::empty()) == scan_items(
                s@,
                p as int,
                models(items@),
            ),
        decreases s.len() - p,
    {
        match read_item(s, p) {
            Some((item, end)) => {
                let after: usize = skip_blanks_from(s, end);
                if after >= s.len() {
                    return None;
                }
                let c: char = s[after];
                let ghost before = items@;
                if c == ']' {
                    items.push(item);
                    assert(models(items@) == models(before).push(item@));
                    return Some((items, after + 1));
                } else if c == ',' {
                    items.push(item);
                    assert(models(items@) == models(before).push(item@));
                    p = skip_blanks_from(s, after + 1);
                } else {
                    return None;
                }
            },
            None => {
                return None;
            },
        }
    }
}

/// The elements of the array that `s` spells.
pub fn read_payload(s: &Vec<char>) -> (r: Option<Vec<Item>>)
    ensures
        match parse_items(s@) {
            Some(items) => r matches Some(v) && models(v@) == items,
            None => r is None,
        },
{
    let p: usize = skip_blanks_from(s, 0);
    if p < s.len() && s[p] == '[' {
        let q: usize = skip_blanks_from(s, p + 1);
        let body: Option<(Vec<Item>, usize)> = if q < s.len() && s[q] == ']' {
            let none: Vec<Item> = Vec::new();
            assert(models(none@) == Seq::<ItemModel>::empty());
            Some((none, q + 1))
        } else {
            read_items(s, q)
        };
        match body {
            Some((items, end)) => {
                if skip_blanks_from(s, end) == s.len() {
                    Some(items)
                } else {
                    None
                }
            },
            None => None,
        }
    } else {
        None
    }
}

// ---------------------------------------------------------------------------
// Deriving the token
// ---------------------------------------------------------------------------

/// The character with the code `d` modulo 256.
pub open spec fn byte_of(d: int) -> char {
    (d % 256) as char
}

/// The string before any reversal: at each position of `codes`, the code
/// minus the key that stands as far from the end of `keys`.
pub open spec fn plain(codes: Seq<i64>, keys: Seq<i64>) -> Seq<char> {
    Seq::new(codes.len(), |t: int| byte_of(codes[t] - keys[keys.len() - 1 - t]))
}

/// The token: the plain string, reversed where the flag is not zero, cut to
/// [`TOKEN_LIMIT`] characters.
pub open spec fn token_value(codes: Seq<i64>, flag: i64, keys: Seq<i64>) -> Seq<char> {
    let raw = plain(codes, keys);
    let ordered = if flag != 0 {
        raw.reverse()
    } else {
        raw
    };
    if ordered.len() > TOKEN_LIMIT {
        ordered.take(TOKEN_LIMIT as int)
    } else {
        ordered
    }
}

/// The name of the query parameter: the ASCII character whose code is the
/// seventh element, `u` where there is no such element or it is no such
/// code.
pub open spec fn parameter_char(items: Seq<ItemModel>) -> char {
    if items.len() > 6 {
        match items[6] {
            ItemModel::Number(c) => if 0 <= c < 128 {
                c as char
            } else {
                'u'
            },
            _ => 'u',
        }
    } else {
        'u'
    }
}

/// The parameter name and the token that an array of items gives: the first
/// element the codes, the second the flag, the third at least as many keys.
pub open spec fn token_of(items: Seq<ItemModel>) -> Option<(char, Seq<char>)> {
    if items.len() >= 3 {
        match (items[0], items[1], items[2]) {
            (
                ItemModel::Numbers(codes),
                ItemModel::Number(flag),
                ItemModel::Numbers(keys),
            ) => match derived(codes, flag, keys) {
                Some(value) => Some((parameter_char(items), value)),
                None => None,
            },
            _ => None,
        }
    } else {
        None
    }
}

/// The parameter name and the token that a page gives.
pub open spec fn token_in(html: Seq<char>) -> Option<(char, Seq<char>)> {
    match payload(html) {
        Some(text) => match parse_items(text) {
            Some(items) => token_of(items),
            None => None,
        },
        None => None,
    }
}

/// What a result of the extraction must be for a page that gives `expected`.
pub open spec fn extraction_is(
    result: Result<AuthToken, AuthExtractionError>,
    expected: Option<(char, Seq<char>)>,
) -> bool {
    match expected {
        Some((name, value)) => result matches Ok(token) && token.parameter_name@ == seq![name]
            && token.value@ == value && token.wf(),
        None => result is Err,
    }
}

fn byte_char(code: i64, key: i64) -> (c: char)
    ensures
        c == byte_of(code - key),
{
    let shifted: i128 = code as i128 - key as i128 + 18446744073709551616i128;
    let low: u8 = (shifted % 256) as u8;
    low as char
}

/// The token that the codes, the flag and the keys give: none where the
/// keys are fewer than the codes.
pub open spec fn derived(codes: Seq<i64>, flag: i64, keys: Seq<i64>) -> Option<Seq<char>> {
    if keys.len() >= codes.len() {
        Some(token_value(codes, flag, keys))
    } else {
        None
    }
}

/// Derives the token from the codes, the flag and the keys.
pub fn derive_token(codes: &Vec<i64>, flag: i64, keys: &Vec<i64>) -> (result: Result<
    String,
    AuthExtractionError,
>)
    ensures
        match derived(codes@, flag, keys@) {
            Some(value) => result matches Ok(token) && token@ == value && token@.len()
                <= TOKEN_LIMIT,
            None => result is Err,
        },
{
    if keys.len() < codes.len() {
        return Err(AuthExtractionError);
    }
    let n: usize = codes.len();
    let kept: usize = if n > TOKEN_LIMIT {
        TOKEN_LIMIT
    } else {
        n
    };
    let ghost raw = plain(codes@, keys@);
    let ghost ordered = if flag != 0 {
        raw.reverse()
    } else {
        raw
    };
    let mut token: String = String::new();
    let mut k: usize = 0;
    while k < kept
        invariant
            k <= kept <= n == codes.len() <= keys.len(),
            raw == plain(codes@, keys@),
            ordered == if flag != 0 {
                raw.reverse()
            } else {
                raw
            },
            token@ == ordered.take(k as int),
        decreases kept - k,
    {
        let t: usize = if flag != 0 {
            n - 1 - k
        } else {
            k
        };
        token.push(byte_char(codes[t], keys[keys.len() - 1 - t]));
        k = k + 1;
        assert(ordered.take(k as int) == ordered.take(k - 1).push(ordered[k - 1]));
    }
    assert(ordered.take(ordered.len() as int) == ordered);
    Ok(token)
}

/// The name of the query parameter that the items give.
pub fn parameter_name(items: &Vec<Item>) -> (name: String)
    ensures
        name@ == seq![parameter_char(models(items@))],
{
    let mut name: String = String::new();
    let mut c: char = 'u';
    if items.len() > 6 {
        match &items[6] {
            Item::Number(code) => {
                if 0 <= *code && *code < 128 {
                    c = (*code as u8) as char;
                }
            },
            _ => {},
        }
    }
    name.push(c);
    name
}

/// Derives the token from the elements of the payload array.
pub fn token_from_items(items: &Vec<Item>) -> (result: Result<AuthToken, AuthExtractionError>)
    ensures
        extraction_is(result, token_of(models(items@))),
{
    if items.len() < 3 {
        return Err(AuthExtractionError);
    }
    match (&items[0], &items[1], &items[2]) {
        (Item::Numbers(codes), Item::Number(flag), Item::Numbers(keys)) => {
            match derive_token(codes, *flag, keys) {
                Ok(value) => Ok(AuthToken { parameter_name: parameter_name(items), value }),
                Err(e) => Err(e),
            }
        },
        _ => Err(AuthExtractionError),
    }
}

/// Derives the authorization token from the text of the landing page.
pub fn extract_auth_token(html: &str) -> (result: Result<AuthToken, AuthExtractionError>)
    ensures
        extraction_is(result, token_in(html@)),
{
    let page: Vec<char> = to_chars(html);
    let open: Vec<char> = to_chars("JSON.parse('");
    let close: Vec<char> = to_chars("')");
    let start: usize = match find_from(&page, &open, 0) {
        Some(i) => i + open.len(),
        None => {
            return Err(AuthExtractionError);
        },
    };
    let end: usize = match find_from(&page, &close, start) {
        Some(j) => j,
        None => {
            return Err(AuthExtractionError);
        },
    };
    let mut text: Vec<char> = Vec::new();
    let mut i: usize = start;
    while i < end
        invariant
            start <= i <= end <= page.len(),
            text@ == page@.subrange(start as int, i as int),
        decreases end - i,
    {
        text.push(page[i]);
        i = i + 1;
        assert(page@.subrange(start as int, i as int) == page@.subrange(start as int, i - 1).push(
            page@[i - 1],
        ));
    }
    match read_payload(&text) {
        Some(items) => token_from_items(&items),
        None => Err(AuthExtractionError),
    }
}

/// Every token that an array gives, and so every token that a page gives,
/// has at most [`TOKEN_LIMIT`] characters. An array gives one token only, and
/// so does a page: the extraction is a function of the text.
pub proof fn lemma_token_is_bounded(items: Seq<ItemModel>, html: Seq<char>)
    ensures
        token_of(items) matches Some((name, value)) ==> value.len() <= TOKEN_LIMIT,
        token_in(html) matches Some((name, value)) ==> value.len() <= TOKEN_LIMIT,
{
}

/// Before any reversal the derived string holds, at each position, the code
/// there minus the key as far from the end; the token is that string cut to
/// the limit, or its reverse cut to the limit where the flag is set.
pub proof fn lemma_token_is_difference(codes: Seq<i64>, flag: i64, keys: Seq<i64>)
    requires
        keys.len() >= codes.len(),
    ensures
        plain(codes, keys).len() == codes.len(),
        forall|t: int|
            0 <= t < codes.len() ==> #[trigger] plain(codes, keys)[t] as int == (codes[t]
                - keys[keys.len() - 1 - t]) % 256,
        token_value(codes, flag, keys).len() <= TOKEN_LIMIT,
        token_value(codes, flag, keys).len() <= codes.len(),
        forall|k: int|
            0 <= k < token_value(codes, flag, keys).len() ==> #[trigger] token_value(
                codes,
                flag,
                keys,
            )[k] == if flag != 0 {
                plain(codes, keys)[codes.len() - 1 - k]
            } else {
                plain(codes, keys)[k]
            },
{
}

} // verus!
