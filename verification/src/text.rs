//! Text helpers over the characters of a string: comparison, prefix, suffix
//! and substring tests, and decimal numbers.

use vstd::prelude::*;

verus! {

/// Whether `needle` occurs in `s` as a contiguous run of characters.
pub open spec fn has_substring(s: Seq<char>, needle: Seq<char>) -> bool {
    exists|i: int|
        0 <= i && i + needle.len() <= s.len() && #[trigger] s.subrange(i, i + needle.len())
            == needle
}

/// Whether the character is white space: a character with the Unicode
/// property White_Space.
pub open spec fn is_whitespace(c: char) -> bool {
    let u = c as u32;
    ||| 0x09 <= u <= 0x0d
    ||| u == 0x20
    ||| u == 0x85
    ||| u == 0xa0
    ||| u == 0x1680
    ||| 0x2000 <= u <= 0x200a
    ||| u == 0x2028
    ||| u == 0x2029
    ||| u == 0x202f
    ||| u == 0x205f
    ||| u == 0x3000
}

/// The first position at or after `from` that holds no white space, or the
/// length when there is none.
pub open spec fn skip_whitespace(s: Seq<char>, from: int) -> int
    decreases s.len() - from,
{
    if from < 0 || from >= s.len() || !is_whitespace(s[from]) {
        from
    } else {
        skip_whitespace(s, from + 1)
    }
}

/// The end of the last run of characters before `to` that is not white
/// space, but not less than `floor`.
pub open spec fn skip_whitespace_back(s: Seq<char>, to: int, floor: int) -> int
    decreases to - floor,
{
    if to <= floor || to > s.len() || !is_whitespace(s[to - 1]) {
        to
    } else {
        skip_whitespace_back(s, to - 1, floor)
    }
}

/// The text without its leading and trailing white space.
pub open spec fn trimmed(s: Seq<char>) -> Seq<char> {
    let start = skip_whitespace(s, 0);
    s.subrange(start, skip_whitespace_back(s, s.len() as int, start))
}

/// Whether the character is one of the ASCII digits.
pub open spec fn is_digit(c: char) -> bool {
    48 <= c as u32 <= 57
}

/// Whether every character is an ASCII digit.
pub open spec fn all_digits(s: Seq<char>) -> bool {
    forall|i: int| 0 <= i < s.len() ==> is_digit(#[trigger] s[i])
}

/// The number that a run of decimal digits denotes.
pub open spec fn digits_value(s: Seq<char>) -> nat
    decreases s.len(),
{
    if s.len() == 0 {
        0
    } else {
        (digits_value(s.drop_last()) * 10 + (s.last() as u32 - 48)) as nat
    }
}

/// The unsigned number a text denotes, if it is one: an optional `+`, then at
/// least one digit and nothing else.
pub open spec fn unsigned_of(s: Seq<char>) -> Option<nat> {
    let body = if s.len() > 0 && s[0] == '+' {
        s.subrange(1, s.len() as int)
    } else {
        s
    };
    if body.len() > 0 && all_digits(body) {
        Some(digits_value(body))
    } else {
        None
    }
}

/// The signed number a text denotes, if it is one: an optional `+` or `-`,
/// then at least one digit and nothing else.
pub open spec fn signed_of(s: Seq<char>) -> Option<int> {
    if s.len() > 0 && s[0] == '-' {
        let body = s.subrange(1, s.len() as int);
        if body.len() > 0 && all_digits(body) {
            Some(-(digits_value(body) as int))
        } else {
            None
        }
    } else {
        match unsigned_of(s) {
            Some(n) => Some(n as int),
            None => None,
        }
    }
}

/// A longer run of digits denotes at least as much as any of its prefixes.
pub proof fn lemma_digits_value_grows(s: Seq<char>, k: int)
    requires
        0 <= k <= s.len(),
        all_digits(s),
    ensures
        digits_value(s.take(k)) <= digits_value(s),
    decreases s.len(),
{
    if k < s.len() {
        assert(s.drop_last().take(k) =~= s.take(k));
        lemma_digits_value_grows(s.drop_last(), k);
    } else {
        assert(s.take(k) =~= s);
    }
}

/// The characters of a string, in order.
pub fn chars_of(s: &str) -> (v: Vec<char>)
    ensures
        v@ == s@,
{
    let mut v: Vec<char> = Vec::new();
    for c in it: s.chars()
        invariant
            v@ == it.seq().take(it.index() as int),
            it.seq() == s@,
    {
        v.push(c);
    }
    v
}

/// Whether `s` holds `needle` at position `at`.
pub fn matches_at(s: &Vec<char>, at: usize, needle: &Vec<char>) -> (found: bool)
    requires
        at + needle.len() <= s.len(),
    ensures
        found == (s@.subrange(at as int, at + needle.len()) == needle@),
{
    let mut j: usize = 0;
    while j < needle.len()
        invariant
            j <= needle.len(),
            at + needle.len() <= s.len(),
            s@.subrange(at as int, at + j) == needle@.take(j as int),
        decreases needle.len() - j,
    {
        if s[at + j] != needle[j] {
            assert(s@.subrange(at as int, at + needle.len())[j as int] != needle@[j as int]);
            return false;
        }
        assert(s@.subrange(at as int, at + j + 1) =~= s@.subrange(at as int, at + j).push(
            s@[at + j],
        ));
        assert(needle@.take(j + 1) =~= needle@.take(j as int).push(needle@[j as int]));
        j = j + 1;
    }
    assert(needle@.take(needle.len() as int) =~= needle@);
    true
}

/// Whether two texts hold the same characters.
pub fn text_eq(a: &str, b: &str) -> (same: bool)
    ensures
        same == (a@ == b@),
{
    let x = chars_of(a);
    let y = chars_of(b);
    if x.len() != y.len() {
        return false;
    }
    let same = matches_at(&x, 0, &y);
    assert(x@.subrange(0, x.len() as int) =~= x@);
    same
}

/// Whether `s` begins with `prefix`.
pub fn starts_with(s: &str, prefix: &str) -> (found: bool)
    ensures
        found == prefix@.is_prefix_of(s@),
{
    let x = chars_of(s);
    let p = chars_of(prefix);
    if p.len() > x.len() {
        return false;
    }
    matches_at(&x, 0, &p)
}

/// Whether `s` ends with `suffix`.
pub fn ends_with(s: &str, suffix: &str) -> (found: bool)
    ensures
        found == suffix@.is_suffix_of(s@),
{
    let x = chars_of(s);
    let p = chars_of(suffix);
    if p.len() > x.len() {
        return false;
    }
    let found = matches_at(&x, x.len() - p.len(), &p);
    assert(x@.subrange(x.len() - p.len(), x.len() as int) == s@.subrange(
        s@.len() - suffix@.len(),
        s@.len() as int,
    ));
    found
}

/// Whether `needle` occurs somewhere in `s`.
pub fn contains(s: &str, needle: &str) -> (found: bool)
    ensures
        found == has_substring(s@, needle@),
{
    let x = chars_of(s);
    let p = chars_of(needle);
    if p.len() > x.len() {
        return false;
    }
    let last = x.len() - p.len();
    let mut i: usize = 0;
    while i < last
        invariant
            i <= last,
            last + p.len() == x.len(),
            x@ == s@,
            p@ == needle@,
            forall|k: int| 0 <= k < i ==> #[trigger] x@.subrange(k, k + p.len()) != p@,
        decreases last - i,
    {
        if matches_at(&x, i, &p) {
            return true;
        }
        i = i + 1;
    }
    matches_at(&x, last, &p)
}

/// Reads a run of digits from position `start` to the end of `v` as a number
/// of at most `limit`.
fn parse_digits(v: &Vec<char>, start: usize, limit: u64) -> (n: Option<u64>)
    requires
        start <= v.len(),
    ensures
        n == {
            let body = v@.subrange(start as int, v.len() as int);
            if body.len() > 0 && all_digits(body) && digits_value(body) <= limit {
                Some(digits_value(body) as u64)
            } else {
                None
            }
        },
{
    let ghost body = v@.subrange(start as int, v.len() as int);
    if start == v.len() {
        return None;
    }
    let mut acc: u64 = 0;
    let mut i: usize = start;
    while i < v.len()
        invariant
            start <= i <= v.len(),
            body == v@.subrange(start as int, v.len() as int),
            all_digits(body.take(i - start)),
            acc == digits_value(body.take(i - start)),
            acc <= limit,
        decreases v.len() - i,
    {
        let c = v[i] as u32;
        if c < 48 || c > 57 {
            assert(!is_digit(body[i - start]));
            return None;
        }
        proof {
            assert(body.take(i - start + 1).drop_last() =~= body.take(i - start));
            assert(body.take(i - start + 1).last() == v@[i as int]);
        }
        let next: u128 = acc as u128 * 10 + (c - 48) as u128;
        if next > limit as u128 {
            proof {
                if all_digits(body) {
                    lemma_digits_value_grows(body, i - start + 1);
                }
            }
            return None;
        }
        acc = next as u64;
        i = i + 1;
    }
    assert(body.take(v.len() - start) =~= body);
    Some(acc)
}

/// Reads a text as an unsigned number: an optional `+`, then digits only.
/// `None` when the text has another form or denotes more than `limit`.
pub fn parse_unsigned(s: &str, limit: u64) -> (n: Option<u64>)
    ensures
        n == match unsigned_of(s@) {
            Some(value) if value <= limit => Some(value as u64),
            _ => None,
        },
{
    let v = chars_of(s);
    let start: usize = if v.len() > 0 && v[0] == '+' {
        1
    } else {
        0
    };
    assert(v@.subrange(0, v.len() as int) =~= v@);
    parse_digits(&v, start, limit)
}

/// Reads a text as a signed 32-bit number: an optional sign, then digits
/// only. `None` when the text has another form or the number does not fit.
pub fn parse_i32(s: &str) -> (n: Option<i32>)
    ensures
        n == match signed_of(s@) {
            Some(value) if i32::MIN <= value <= i32::MAX => Some(value as i32),
            _ => None,
        },
{
    let v = chars_of(s);
    assert(v@.subrange(0, v.len() as int) =~= v@);
    if v.len() > 0 && v[0] == '-' {
        match parse_digits(&v, 1, 0x8000_0000) {
            Some(m) => Some((-(m as i64)) as i32),
            None => None,
        }
    } else {
        let start: usize = if v.len() > 0 && v[0] == '+' {
            1
        } else {
            0
        };
        match parse_digits(&v, start, 0x7fff_ffff) {
            Some(m) => Some(m as i32),
            None => None,
        }
    }
}

/// Whether the character is white space.
pub fn whitespace(c: char) -> (ws: bool)
    ensures
        ws == is_whitespace(c),
{
    let u = c as u32;
    (0x09 <= u && u <= 0x0d) || u == 0x20 || u == 0x85 || u == 0xa0 || u == 0x1680 || (0x2000
        <= u && u <= 0x200a) || u == 0x2028 || u == 0x2029 || u == 0x202f || u == 0x205f || u
        == 0x3000
}

/// The range of `v` between `from` and `to` that is left when white space
/// is dropped at both ends.
pub fn trim_range(v: &Vec<char>, from: usize, to: usize) -> (range: (usize, usize))
    requires
        from <= to <= v.len(),
    ensures
        from <= range.0 <= range.1 <= to,
        range.0 == skip_whitespace(v@.take(to as int), from as int),
        range.1 == skip_whitespace_back(v@.take(to as int), to as int, range.0 as int),
        forall|i: int| from <= i < range.0 ==> is_whitespace(v@[i]),
        forall|i: int| range.1 <= i < to ==> is_whitespace(v@[i]),
        range.0 < range.1 ==> !is_whitespace(v@[range.0 as int]) && !is_whitespace(
            v@[range.1 - 1],
        ),
{
    let ghost s = v@.take(to as int);
    let mut start = from;
    while start < to && whitespace(v[start])
        invariant
            from <= start <= to <= v.len(),
            s == v@.take(to as int),
            skip_whitespace(s, from as int) == skip_whitespace(s, start as int),
            forall|i: int| from <= i < start ==> is_whitespace(v@[i]),
        decreases to - start,
    {
        start = start + 1;
    }
    let mut end = to;
    while end > start && whitespace(v[end - 1])
        invariant
            start <= end <= to <= v.len(),
            s == v@.take(to as int),
            skip_whitespace_back(s, to as int, start as int) == skip_whitespace_back(
                s,
                end as int,
                start as int,
            ),
            forall|i: int| end <= i < to ==> is_whitespace(v@[i]),
        decreases end - start,
    {
        end = end - 1;
    }
    (start, end)
}

/// The text without its leading and trailing white space.
pub fn trim(s: &str) -> (t: &str)
    ensures
        t@ == trimmed(s@),
{
    let v = chars_of(s);
    let (start, end) = trim_range(&v, 0, v.len());
    assert(v@.take(v.len() as int) =~= v@);
    s.substring_char(start, end)
}

/// The rest of `s` after `prefix`, when `s` begins with it.
pub fn strip_prefix<'a>(s: &'a str, prefix: &str) -> (rest: Option<&'a str>)
    ensures
        match rest {
            Some(r) => prefix@.is_prefix_of(s@) && r@ == s@.skip(prefix@.len() as int),
            None => !prefix@.is_prefix_of(s@),
        },
{
    let x = chars_of(s);
    let p = chars_of(prefix);
    if p.len() > x.len() {
        return None;
    }
    if matches_at(&x, 0, &p) {
        let r = s.substring_char(p.len(), x.len());
        assert(s@.subrange(p.len() as int, x.len() as int) =~= s@.skip(p.len() as int));
        Some(r)
    } else {
        None
    }
}

/// The part of `s` before `suffix`, when `s` ends with it.
pub fn strip_suffix<'a>(s: &'a str, suffix: &str) -> (rest: Option<&'a str>)
    ensures
        match rest {
            Some(r) => suffix@.is_suffix_of(s@) && r@ == s@.take(s@.len() - suffix@.len()),
            None => !suffix@.is_suffix_of(s@),
        },
{
    let x = chars_of(s);
    let p = chars_of(suffix);
    if p.len() > x.len() {
        return None;
    }
    let cut = x.len() - p.len();
    if matches_at(&x, cut, &p) {
        let r = s.substring_char(0, cut);
        assert(s@.subrange(0, cut as int) =~= s@.take(cut as int));
        Some(r)
    } else {
        None
    }
}

} // verus!
