//! Text as sequences of characters: white space, trimming, searching and
//! splitting. Every function here returns slices of its argument.

use vstd::prelude::*;
use vstd::string::*;

verus! {

/// The characters that trimming removes: those with the Unicode property
/// White_Space.
pub open spec fn white_space(c: char) -> bool {
    let u = c as u32;
    ||| 0x09 <= u <= 0x0D
    ||| u == 0x20
    ||| u == 0x85
    ||| u == 0xA0
    ||| u == 0x1680
    ||| 0x2000 <= u <= 0x200A
    ||| u == 0x2028
    ||| u == 0x2029
    ||| u == 0x202F
    ||| u == 0x205F
    ||| u == 0x3000
}

/// A text without its leading white space.
pub open spec fn trimmed_start(s: Seq<char>) -> Seq<char>
    decreases s.len(),
{
    if s.len() > 0 && white_space(s[0]) {
        trimmed_start(s.drop_first())
    } else {
        s
    }
}

/// A text without its trailing white space.
pub open spec fn trimmed_end(s: Seq<char>) -> Seq<char>
    decreases s.len(),
{
    if s.len() > 0 && white_space(s.last()) {
        trimmed_end(s.drop_last())
    } else {
        s
    }
}

/// A text without its leading and trailing white space.
pub open spec fn trimmed(s: Seq<char>) -> Seq<char> {
    trimmed_end(trimmed_start(s))
}

/// A text without the closing brackets at its end.
pub open spec fn without_closing(s: Seq<char>) -> Seq<char>
    decreases s.len(),
{
    if s.len() > 0 && s.last() == ')' {
        without_closing(s.drop_last())
    } else {
        s
    }
}

/// Whether `pattern` stands in `s` at position `i`.
pub open spec fn matches_at(s: Seq<char>, pattern: Seq<char>, i: int) -> bool {
    &&& 0 <= i
    &&& i + pattern.len() <= s.len()
    &&& s.subrange(i, i + pattern.len()) == pattern
}

/// The first position at or after `i` where `pattern` stands in `s`.
pub open spec fn first_match_from(s: Seq<char>, pattern: Seq<char>, i: int) -> Option<int>
    decreases s.len() - i,
{
    if 0 <= i && i + pattern.len() <= s.len() {
        if matches_at(s, pattern, i) {
            Some(i)
        } else if i < s.len() {
            first_match_from(s, pattern, i + 1)
        } else {
            None
        }
    } else {
        None
    }
}

/// The first position where `pattern` stands in `s`.
pub open spec fn first_match(s: Seq<char>, pattern: Seq<char>) -> Option<int> {
    first_match_from(s, pattern, 0)
}

/// The position of the first white space character at or after `i`.
pub open spec fn first_space_from(s: Seq<char>, i: int) -> Option<int>
    decreases s.len() - i,
{
    if 0 <= i < s.len() {
        if white_space(s[i]) {
            Some(i)
        } else {
            first_space_from(s, i + 1)
        }
    } else {
        None
    }
}

/// The position of the last `c` in `s`.
pub open spec fn last_index_of(s: Seq<char>, c: char) -> Option<int>
    decreases s.len(),
{
    if s.len() == 0 {
        None
    } else if s.last() == c {
        Some(s.len() - 1)
    } else {
        last_index_of(s.drop_last(), c)
    }
}

/// The two trimmed parts of the trimmed text around the separator that
/// starts at `at` and is `width` characters long; the trimmed text alone where
/// there is no separator.
pub open spec fn parts(t: Seq<char>, at: Option<int>, width: int) -> (
    Seq<char>,
    Option<Seq<char>>,
) {
    match at {
        None => (trimmed(t), None),
        Some(i) => (
            trimmed(t.subrange(0, i)),
            Some(trimmed(t.subrange(i + width, t.len() as int))),
        ),
    }
}

/// A text split at the first occurrence of `pattern`: the text is trimmed,
/// split, and both parts are trimmed. The second part is absent where the
/// pattern does not occur.
pub open spec fn split_trimmed(s: Seq<char>, pattern: Seq<char>) -> (
    Seq<char>,
    Option<Seq<char>>,
) {
    let t = trimmed(s);
    parts(t, first_match(t, pattern), pattern.len() as int)
}

/// A text split at its first white space character, in the same way.
pub open spec fn split_at_space(s: Seq<char>) -> (Seq<char>, Option<Seq<char>>) {
    let t = trimmed(s);
    parts(t, first_space_from(t, 0), 1)
}

/// The label of a line and what follows it. The label is the text before the
/// last colon, and is absent where the line has no colon.
pub open spec fn label_split(s: Seq<char>) -> (Option<Seq<char>>, Seq<char>) {
    match last_index_of(s, ':') {
        None => (None, s),
        Some(i) => (Some(s.subrange(0, i)), s.subrange(i + 1, s.len() as int)),
    }
}

/// The lower-case form of an ASCII capital; any other character unchanged.
pub open spec fn ascii_lowercase(c: char) -> char {
    if 'A' <= c <= 'Z' {
        ((c as u8) + 32) as char
    } else {
        c
    }
}

/// The views of two optional slices.
pub open spec fn optional_text(s: Option<&str>) -> Option<Seq<char>> {
    match s {
        Some(s) => Some(s@),
        None => None,
    }
}

/// The upper-case form of a text as the standard library defines it, by the
/// Unicode case mappings.
pub uninterp spec fn uppercase_of(text: Seq<char>) -> Seq<char>;

/// Calls `str::to_uppercase`. The result is the upper-case form of the
/// argument; what that form is on a given text is not stated here.
#[verifier::external_body]
pub(crate) fn to_uppercase(text: &str) -> (upper: String)
    ensures
        upper@ == uppercase_of(text@),
{
    text.to_uppercase()
}

/// Whether a character is white space.
pub fn is_whitespace(c: char) -> (b: bool)
    ensures
        b == white_space(c),
{
    let u: u32 = c as u32;
    (0x09 <= u && u <= 0x0D) || u == 0x20 || u == 0x85 || u == 0xA0 || u == 0x1680 || (0x2000 <= u
        && u <= 0x200A) || u == 0x2028 || u == 0x2029 || u == 0x202F || u == 0x205F || u == 0x3000
}

/// The lower-case form of an ASCII capital; any other character unchanged.
pub fn to_ascii_lowercase(c: char) -> (lower: char)
    ensures
        lower == ascii_lowercase(c),
{
    if 'A' <= c && c <= 'Z' {
        ((c as u8) + 32) as char
    } else {
        c
    }
}

/// Whether two texts are the same.
pub fn equals(a: &str, b: &str) -> (same: bool)
    ensures
        same == (a@ == b@),
{
    let n: usize = a.unicode_len();
    if n != b.unicode_len() {
        return false;
    }
    let mut i: usize = 0;
    while i < n
        invariant
            i <= n,
            n == a@.len(),
            n == b@.len(),
            a@.subrange(0, i as int) == b@.subrange(0, i as int),
        decreases n - i,
    {
        if a.get_char(i) != b.get_char(i) {
            return false;
        }
        proof {
            assert(a@.subrange(0, i + 1) =~= a@.subrange(0, i as int).push(a@[i as int]));
            assert(b@.subrange(0, i + 1) =~= b@.subrange(0, i as int).push(b@[i as int]));
        }
        i += 1;
    }
    proof {
        assert(a@.subrange(0, n as int) =~= a@);
        assert(b@.subrange(0, n as int) =~= b@);
    }
    true
}

/// Removes leading and trailing white space.
pub fn trim<'a>(s: &'a str) -> (t: &'a str)
    ensures
        t@ == trimmed(s@),
{
    let n: usize = s.unicode_len();
    let mut i: usize = 0;
    proof {
        assert(s@.subrange(0, n as int) =~= s@);
    }
    while i < n && is_whitespace(s.get_char(i))
        invariant
            i <= n,
            n == s@.len(),
            trimmed_start(s@) == trimmed_start(s@.subrange(i as int, n as int)),
        decreases n - i,
    {
        proof {
            assert(s@.subrange(i as int, n as int).drop_first() =~= s@.subrange(i + 1, n as int));
        }
        i += 1;
    }
    let mut j: usize = n;
    while j > i && is_whitespace(s.get_char(j - 1))
        invariant
            i <= j <= n,
            n == s@.len(),
            trimmed_end(s@.subrange(i as int, n as int)) == trimmed_end(
                s@.subrange(i as int, j as int),
            ),
        decreases j,
    {
        proof {
            assert(s@.subrange(i as int, j as int).drop_last() =~= s@.subrange(i as int, j - 1));
        }
        j -= 1;
    }
    s.substring_char(i, j)
}

/// Removes the closing brackets at the end of a text.
pub fn trim_closing<'a>(s: &'a str) -> (t: &'a str)
    ensures
        t@ == without_closing(s@),
{
    let n: usize = s.unicode_len();
    let mut j: usize = n;
    proof {
        assert(s@.subrange(0, n as int) =~= s@);
    }
    while j > 0 && s.get_char(j - 1) == ')'
        invariant
            j <= n,
            n == s@.len(),
            without_closing(s@) == without_closing(s@.subrange(0, j as int)),
        decreases j,
    {
        proof {
            assert(s@.subrange(0, j as int).drop_last() =~= s@.subrange(0, j - 1));
        }
        j -= 1;
    }
    s.substring_char(0, j)
}

/// Whether `pattern` stands in `s` at position `i`.
fn stands_at(s: &str, pattern: &str, i: usize) -> (b: bool)
    requires
        i + pattern@.len() <= s@.len(),
    ensures
        b == matches_at(s@, pattern@, i as int),
{
    let n: usize = s.unicode_len();
    let m: usize = pattern.unicode_len();
    let mut j: usize = 0;
    while j < m
        invariant
            j <= m,
            m == pattern@.len(),
            n == s@.len(),
            i + m <= n,
            s@.subrange(i as int, i + j) == pattern@.subrange(0, j as int),
        decreases m - j,
    {
        if s.get_char(i + j) != pattern.get_char(j) {
            proof {
                assert(s@.subrange(i as int, i + m)[j as int] == s@[i + j]);
            }
            return false;
        }
        proof {
            assert(s@.subrange(i as int, i + j + 1) =~= s@.subrange(i as int, i + j).push(
                s@[i + j],
            ));
            assert(pattern@.subrange(0, j + 1) =~= pattern@.subrange(0, j as int).push(
                pattern@[j as int],
            ));
        }
        j += 1;
    }
    proof {
        assert(pattern@.subrange(0, m as int) =~= pattern@);
    }
    true
}

/// The first position where `pattern` stands in `s`.
pub fn find(s: &str, pattern: &str) -> (at: Option<usize>)
    ensures
        match at {
            Some(i) => first_match(s@, pattern@) == Some(i as int) && i + pattern@.len()
                <= s@.len(),
            None => first_match(s@, pattern@) is None,
        },
{
    let n: usize = s.unicode_len();
    let m: usize = pattern.unicode_len();
    if m > n {
        return None;
    }
    let last: usize = n - m;
    let mut i: usize = 0;
    while i < last
        invariant
            i <= last,
            last == n - m,
            n == s@.len(),
            m == pattern@.len(),
            first_match(s@, pattern@) == first_match_from(s@, pattern@, i as int),
        decreases last - i,
    {
        if stands_at(s, pattern, i) {
            return Some(i);
        }
        i += 1;
    }
    if stands_at(s, pattern, last) {
        Some(last)
    } else {
        assert(first_match_from(s@, pattern@, last + 1) is None);
        None
    }
}

/// The position of the first white space character.
pub fn find_space(s: &str) -> (at: Option<usize>)
    ensures
        match at {
            Some(i) => first_space_from(s@, 0) == Some(i as int) && i < s@.len(),
            None => first_space_from(s@, 0) is None,
        },
{
    let n: usize = s.unicode_len();
    let mut i: usize = 0;
    while i < n
        invariant
            i <= n,
            n == s@.len(),
            first_space_from(s@, 0) == first_space_from(s@, i as int),
        decreases n - i,
    {
        if is_whitespace(s.get_char(i)) {
            return Some(i);
        }
        i += 1;
    }
    None
}

/// The two trimmed parts of a trimmed text around a separator.
fn split_around<'a>(t: &'a str, at: Option<usize>, width: usize) -> (r: (&'a str, Option<&'a str>))
    requires
        at matches Some(i) ==> i + width <= t@.len(),
    ensures
        (r.0@, optional_text(r.1)) == parts(
            t@,
            match at {
                Some(i) => Some(i as int),
                None => None,
            },
            width as int,
        ),
{
    match at {
        None => (trim(t), None),
        Some(i) => {
            let n: usize = t.unicode_len();
            (trim(t.substring_char(0, i)), Some(trim(t.substring_char(i + width, n))))
        },
    }
}

/// Trims a text and splits it at the first occurrence of `pattern`; both
/// parts are trimmed. The second part is absent where the pattern does not
/// occur.
pub fn trimmed_split<'a>(string: &'a str, pattern: &str) -> (r: (&'a str, Option<&'a str>))
    ensures
        (r.0@, optional_text(r.1)) == split_trimmed(string@, pattern@),
{
    let t: &'a str = trim(string);
    let at: Option<usize> = find(t, pattern);
    let m: usize = pattern.unicode_len();
    split_around(t, at, m)
}

/// Trims a text and splits it at its first white space character; both parts
/// are trimmed.
pub fn trimmed_split_whitespace<'a>(string: &'a str) -> (r: (&'a str, Option<&'a str>))
    ensures
        (r.0@, optional_text(r.1)) == split_at_space(string@),
{
    let t: &'a str = trim(string);
    let at: Option<usize> = find_space(t);
    split_around(t, at, 1)
}

/// Splits a line at its last colon into the label before it and the rest
/// after it. Nothing is trimmed. Without a colon there is no label and the
/// rest is the whole line.
pub fn omit_label<'a>(line: &'a str) -> (r: (Option<&'a str>, &'a str))
    ensures
        (optional_text(r.0), r.1@) == label_split(line@),
{
    let n: usize = line.unicode_len();
    let mut j: usize = n;
    proof {
        assert(line@.subrange(0, n as int) =~= line@);
    }
    while j > 0
        invariant
            j <= n,
            n == line@.len(),
            match last_index_of(line@.subrange(0, j as int), ':') {
                Some(i) => last_index_of(line@, ':') == Some(i),
                None => last_index_of(line@, ':') is None,
            },
        decreases j,
    {
        if line.get_char(j - 1) == ':' {
            return (Some(line.substring_char(0, j - 1)), line.substring_char(j, n));
        }
        proof {
            assert(line@.subrange(0, j as int).drop_last() =~= line@.subrange(0, j - 1));
        }
        j -= 1;
    }
    (None, line)
}

} // verus!
