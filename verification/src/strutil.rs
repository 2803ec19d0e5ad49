//! Character-exact string helpers the engine is built on: equality,
//! substring search, blankness, trimming, and decimal formatting, all
//! specified over the character sequences the strings denote.

use vstd::prelude::*;
use vstd::string::StrSliceExecFns;
use vstd::string::StringExecFns;

verus! {

/// Relies on String::push: appends exactly the given character.
#[verifier::external_body]
pub fn push_char(s: &mut String, c: char)
    ensures
        final(s)@ == old(s)@.push(c),
{
    s.push(c);
}

/// A copy of the characters `from..to` of `s` as an owned string.
pub fn substr_string(s: &str, from: usize, to: usize) -> (r: String)
    requires
        from <= to <= s@.len(),
    ensures
        r@ == s@.subrange(from as int, to as int),
{
    let part = s.substring_char(from, to);
    String::from_str(part)
}

/// Whether two strings consist of the same characters.
pub fn str_eq(a: &str, b: &str) -> (r: bool)
    ensures
        r == (a@ == b@),
{
    let n = a.unicode_len();
    let m = b.unicode_len();
    if n != m {
        return false;
    }
    let mut i: usize = 0;
    while i < n
        invariant
            n == a@.len(),
            n == b@.len(),
            i <= n,
            forall|k: int| 0 <= k < i ==> a@[k] == b@[k],
        decreases n - i,
    {
        if a.get_char(i) != b.get_char(i) {
            return false;
        }
        i = i + 1;
    }
    proof {
        assert(a@ =~= b@);
    }
    true
}

/// Whether `q` occurs in `s` starting at character position `i`.
pub open spec fn is_match_at(s: Seq<char>, q: Seq<char>, i: int) -> bool {
    0 <= i && i + q.len() <= s.len() && s.subrange(i, i + q.len()) == q
}

/// Whether `q` occurs anywhere in `s` at or after position `from`.
pub open spec fn has_match_from(s: Seq<char>, q: Seq<char>, from: int) -> bool {
    exists|i: int| i >= from && is_match_at(s, q, i)
}

/// Whether `q` is a substring of `s`.
pub open spec fn contains_spec(s: Seq<char>, q: Seq<char>) -> bool {
    has_match_from(s, q, 0)
}

/// Whether `q` occurs at exactly position `i` of `s`; callers know `i` is
/// in range.
fn match_at(s: &str, q: &str, i: usize) -> (r: bool)
    requires
        i + q@.len() <= s@.len(),
    ensures
        r == is_match_at(s@, q@, i as int),
{
    let n = s.unicode_len();
    let m = q.unicode_len();
    let mut j: usize = 0;
    while j < m
        invariant
            n == s@.len(),
            m == q@.len(),
            i + m <= n,
            j <= m,
            forall|k: int| 0 <= k < j ==> s@[i + k] == q@[k],
        decreases m - j,
    {
        if s.get_char(i + j) != q.get_char(j) {
            proof {
                assert(s@.subrange(i as int, i + q@.len())[j as int] != q@[j as int]);
            }
            return false;
        }
        j = j + 1;
    }
    proof {
        assert(s@.subrange(i as int, i + q@.len()) =~= q@);
    }
    true
}

/// The position of the first occurrence of `q` in `s` at or after `from`,
/// if there is one.
pub fn find_from(s: &str, q: &str, from: usize) -> (r: Option<usize>)
    ensures
        match r {
            Some(i) => from <= i && is_match_at(s@, q@, i as int) && forall|k: int|
                from <= k < i ==> !is_match_at(s@, q@, k),
            None => !has_match_from(s@, q@, from as int),
        },
{
    let n = s.unicode_len();
    let m = q.unicode_len();
    if m > n || from > n - m {
        proof {
            assert forall|i: int| i >= from implies !is_match_at(s@, q@, i) by {}
        }
        return None;
    }
    let last = n - m;
    let mut i: usize = from;
    while i <= last
        invariant
            n == s@.len(),
            m == q@.len(),
            m <= n,
            last == n - m,
            from <= i <= last + 1,
            forall|k: int| from <= k < i ==> !is_match_at(s@, q@, k),
        decreases last + 1 - i,
    {
        if match_at(s, q, i) {
            return Some(i);
        }
        proof {
            if m == 0 {
                assert(s@.subrange(i as int, i as int) =~= q@);
                assert(false);
            }
        }
        i = i + 1;
    }
    proof {
        assert forall|k: int| k >= from implies !is_match_at(s@, q@, k) by {}
    }
    None
}

/// Whether `q` is a substring of `s`.
pub fn str_contains(s: &str, q: &str) -> (r: bool)
    ensures
        r == contains_spec(s@, q@),
{
    match find_from(s, q, 0) {
        Some(_) => true,
        None => false,
    }
}

/// The whitespace alphabet of the engine.
pub open spec fn is_ws(c: char) -> bool {
    c == ' ' || c == '\t' || c == '\n' || c == '\r'
}

/// Whether the character is whitespace to the engine.
pub fn char_is_ws(c: char) -> (r: bool)
    ensures
        r == is_ws(c),
{
    c == ' ' || c == '\t' || c == '\n' || c == '\r'
}

/// Whether the string holds nothing but whitespace.
pub open spec fn blank_spec(s: Seq<char>) -> bool {
    forall|i: int| 0 <= i < s.len() ==> is_ws(s[i])
}

/// Whether the string holds nothing but whitespace.
pub fn is_blank(s: &str) -> (r: bool)
    ensures
        r == blank_spec(s@),
{
    let n = s.unicode_len();
    let mut i: usize = 0;
    while i < n
        invariant
            n == s@.len(),
            i <= n,
            forall|k: int| 0 <= k < i ==> is_ws(s@[k]),
        decreases n - i,
    {
        if !char_is_ws(s.get_char(i)) {
            return false;
        }
        i = i + 1;
    }
    true
}

/// The character for one decimal digit.
pub open spec fn digit_char(d: nat) -> char {
    if d == 0 {
        '0'
    } else if d == 1 {
        '1'
    } else if d == 2 {
        '2'
    } else if d == 3 {
        '3'
    } else if d == 4 {
        '4'
    } else if d == 5 {
        '5'
    } else if d == 6 {
        '6'
    } else if d == 7 {
        '7'
    } else if d == 8 {
        '8'
    } else {
        '9'
    }
}

/// The decimal notation of a number, most significant digit first.
pub open spec fn dec_str(n: nat) -> Seq<char>
    decreases n,
{
    if n < 10 {
        seq![digit_char(n)]
    } else {
        dec_str(n / 10).push(digit_char(n % 10))
    }
}

fn digit_to_char(d: usize) -> (r: char)
    requires
        d < 10,
    ensures
        r == digit_char(d as nat),
{
    if d == 0 {
        '0'
    } else if d == 1 {
        '1'
    } else if d == 2 {
        '2'
    } else if d == 3 {
        '3'
    } else if d == 4 {
        '4'
    } else if d == 5 {
        '5'
    } else if d == 6 {
        '6'
    } else if d == 7 {
        '7'
    } else if d == 8 {
        '8'
    } else {
        '9'
    }
}

/// The decimal notation of a number.
pub fn usize_to_string(n: usize) -> (r: String)
    ensures
        r@ == dec_str(n as nat),
    decreases n,
{
    if n < 10 {
        let mut s = String::new();
        push_char(&mut s, digit_to_char(n));
        proof {
            assert(s@ =~= dec_str(n as nat));
        }
        s
    } else {
        let mut s = usize_to_string(n / 10);
        push_char(&mut s, digit_to_char(n % 10));
        s
    }
}

} // verus!
