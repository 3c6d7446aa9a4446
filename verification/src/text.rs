//! Character-level text predicates: the HTTP token grammar for method and
//! header names, the header-value character set, ASCII-case-insensitive
//! comparison, and first-match lookup in an ordered header list.
use vstd::prelude::*;
use vstd::string::StrSliceExecFns;

verus! {

/// An ASCII capital letter.
pub open spec fn is_ascii_upper(c: char) -> bool {
    65 <= c as u32 <= 90
}

/// Two characters are equal up to ASCII case.
pub open spec fn eq_ci(a: char, b: char) -> bool {
    ||| a == b
    ||| (is_ascii_upper(a) && a as u32 + 32 == b as u32)
    ||| (is_ascii_upper(b) && b as u32 + 32 == a as u32)
}

/// Two character sequences are equal up to ASCII case.
pub open spec fn seq_eq_ci(s: Seq<char>, t: Seq<char>) -> bool {
    s.len() == t.len() && forall|i: int| 0 <= i < s.len() ==> eq_ci(s[i], t[i])
}

/// `s` starts with `p`, up to ASCII case.
pub open spec fn starts_ci(s: Seq<char>, p: Seq<char>) -> bool {
    s.len() >= p.len() && forall|i: int| 0 <= i < p.len() ==> eq_ci(s[i], p[i])
}

/// A `tchar` of the HTTP token grammar: letters, digits, and the fifteen
/// permitted specials. Method strings and header names are tokens.
pub open spec fn is_tchar(c: char) -> bool {
    ||| 97 <= c as u32 <= 122  // a-z
    ||| 65 <= c as u32 <= 90  // A-Z
    ||| 48 <= c as u32 <= 57  // 0-9
    ||| c == '!' || c == '#' || c == '$' || c == '%' || c == '&' || c == '\'' || c == '*'
    ||| c == '+' || c == '-' || c == '.' || c == '^' || c == '_' || c == '`' || c == '|'
        || c == '~'
}

/// A non-empty string of token characters.
pub open spec fn token_ok(s: Seq<char>) -> bool {
    s.len() >= 1 && forall|i: int| 0 <= i < s.len() ==> is_tchar(s[i])
}

/// A character permitted in a header value for transmission: horizontal tab,
/// or anything other than the remaining controls and delete. Characters
/// beyond ASCII encode to high bytes and are always permitted.
pub open spec fn value_char_ok(c: char) -> bool {
    c == '\t' || (32 <= c as u32 && c as u32 != 127)
}

/// A string valid as a header value; it may be empty.
pub open spec fn value_ok(s: Seq<char>) -> bool {
    forall|i: int| 0 <= i < s.len() ==> value_char_ok(s[i])
}

/// The value of the first header whose name equals `name` up to ASCII case.
pub open spec fn lookup_ci(h: Seq<(String, String)>, name: Seq<char>) -> Option<Seq<char>>
    decreases h.len(),
{
    if h.len() == 0 {
        None
    } else if seq_eq_ci(h[0].0@, name) {
        Some(h[0].1@)
    } else {
        lookup_ci(h.drop_first(), name)
    }
}

/// Decides case-insensitive equality of two characters.
pub fn chars_eq_ci(a: char, b: char) -> (r: bool)
    ensures
        r == eq_ci(a, b),
{
    let x = a as u32;
    let y = b as u32;
    x == y || (65 <= x && x <= 90 && x + 32 == y) || (65 <= y && y <= 90 && y + 32 == x)
}

/// Decides case-insensitive equality of two strings.
pub fn str_eq_ci(s: &str, t: &str) -> (r: bool)
    ensures
        r == seq_eq_ci(s@, t@),
{
    let n = s.unicode_len();
    let m = t.unicode_len();
    if n != m {
        return false;
    }
    let mut i: usize = 0;
    while i < n
        invariant
            n == s@.len(),
            n == t@.len(),
            i <= n,
            forall|j: int| 0 <= j < i ==> eq_ci(s@[j], t@[j]),
        decreases n - i,
    {
        if !chars_eq_ci(s.get_char(i), t.get_char(i)) {
            return false;
        }
        i = i + 1;
    }
    true
}

/// Decides whether `s` starts with `p`, up to ASCII case.
pub fn str_starts_ci(s: &str, p: &str) -> (r: bool)
    ensures
        r == starts_ci(s@, p@),
{
    let n = s.unicode_len();
    let m = p.unicode_len();
    if n < m {
        return false;
    }
    let mut i: usize = 0;
    while i < m
        invariant
            n == s@.len(),
            m == p@.len(),
            n >= m,
            i <= m,
            forall|j: int| 0 <= j < i ==> eq_ci(s@[j], p@[j]),
        decreases m - i,
    {
        if !chars_eq_ci(s.get_char(i), p.get_char(i)) {
            return false;
        }
        i = i + 1;
    }
    true
}

/// Decides whether one character is a `tchar`.
pub fn char_is_tchar(c: char) -> (r: bool)
    ensures
        r == is_tchar(c),
{
    let x = c as u32;
    (97 <= x && x <= 122) || (65 <= x && x <= 90) || (48 <= x && x <= 57) || c == '!' || c == '#'
        || c == '$' || c == '%' || c == '&' || c == '\'' || c == '*' || c == '+' || c == '-'
        || c == '.' || c == '^' || c == '_' || c == '`' || c == '|' || c == '~'
}

/// Decides whether a string is a non-empty HTTP token.
pub fn is_token(s: &str) -> (r: bool)
    ensures
        r == token_ok(s@),
{
    let n = s.unicode_len();
    if n == 0 {
        return false;
    }
    let mut i: usize = 0;
    while i < n
        invariant
            n == s@.len(),
            i <= n,
            forall|j: int| 0 <= j < i ==> is_tchar(s@[j]),
        decreases n - i,
    {
        if !char_is_tchar(s.get_char(i)) {
            return false;
        }
        i = i + 1;
    }
    true
}

/// Decides whether a string is valid as a header value.
pub fn is_header_value(s: &str) -> (r: bool)
    ensures
        r == value_ok(s@),
{
    let n = s.unicode_len();
    let mut i: usize = 0;
    while i < n
        invariant
            n == s@.len(),
            i <= n,
            forall|j: int| 0 <= j < i ==> value_char_ok(s@[j]),
        decreases n - i,
    {
        let c = s.get_char(i);
        let x = c as u32;
        if !(x == 9 || (32 <= x && x != 127)) {
            return false;
        }
        i = i + 1;
    }
    true
}

/// Finds the first header whose name equals `name` up to ASCII case,
/// returning its position.
pub fn find_ci(h: &Vec<(String, String)>, name: &str) -> (r: Option<usize>)
    ensures
        match r {
            Some(i) => {
                &&& i < h@.len()
                &&& seq_eq_ci(h@[i as int].0@, name@)
                &&& lookup_ci(h@, name@) == Some(h@[i as int].1@)
            },
            None => lookup_ci(h@, name@) is None,
        },
{
    let n = h.len();
    proof {
        assert(h@.skip(0) =~= h@);
    }
    let mut i: usize = 0;
    while i < n
        invariant
            n == h@.len(),
            i <= n,
            lookup_ci(h@, name@) == lookup_ci(h@.skip(i as int), name@),
        decreases n - i,
    {
        proof {
            assert(h@.skip(i as int).len() == n - i);
            assert(h@.skip(i as int)[0] == h@[i as int]);
            assert(h@.skip(i as int).drop_first() =~= h@.skip(i as int + 1));
        }
        if str_eq_ci(h[i].0.as_str(), name) {
            return Some(i);
        }
        i = i + 1;
    }
    proof {
        assert(h@.skip(n as int) =~= Seq::<(String, String)>::empty());
    }
    None
}

} // verus!
