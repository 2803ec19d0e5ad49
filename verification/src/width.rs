//! Display-width measurement: how many terminal columns a character or a
//! string occupies. The per-character column count comes from the
//! unicode-width crate; everything built on it is verified.

use vstd::prelude::*;
use vstd::string::StrSliceExecFns;

verus! {

/// The number of terminal columns of one character, `None` for a control
/// character.
pub uninterp spec fn char_terminal_width(c: char) -> Option<usize>;

/// Relies on unicode_width::UnicodeWidthChar::width: the count of terminal
/// columns the character occupies, or None for a control character. The
/// result depends on the character alone.
#[verifier::external_body]
fn char_width_raw(c: char) -> (r: Option<usize>)
    ensures
        r == char_terminal_width(c),
{
    unicode_width::UnicodeWidthChar::width(c)
}

/// Columns of one character as the engine counts them: control characters
/// count zero, and no character is wider than two columns.
pub open spec fn cwidth(c: char) -> nat {
    match char_terminal_width(c) {
        Some(w) => if w <= 2 {
            w as nat
        } else {
            2
        },
        None => 0,
    }
}

/// Columns of one character.
pub fn char_width(c: char) -> (r: usize)
    ensures
        r as nat == cwidth(c),
        r <= 2,
{
    match char_width_raw(c) {
        Some(w) => if w <= 2 {
            w
        } else {
            2
        },
        None => 0,
    }
}

/// Columns of a string: the sum of the columns of its characters.
pub open spec fn width_spec(s: Seq<char>) -> nat
    decreases s.len(),
{
    if s.len() == 0 {
        0
    } else {
        width_spec(s.drop_last()) + cwidth(s.last())
    }
}

/// A width capped at what a machine word can hold.
pub open spec fn sat_width(w: nat) -> nat {
    if w > usize::MAX as nat {
        usize::MAX as nat
    } else {
        w
    }
}

pub proof fn lemma_width_take_step(s: Seq<char>, i: int)
    requires
        0 <= i < s.len(),
    ensures
        width_spec(s.take(i + 1)) == width_spec(s.take(i)) + cwidth(s[i]),
{
    assert(s.take(i + 1).drop_last() =~= s.take(i));
    assert(s.take(i + 1).last() == s[i]);
}

/// Columns of a string, saturating at the machine limit.
pub fn str_width(s: &str) -> (r: usize)
    ensures
        r as nat == sat_width(width_spec(s@)),
{
    let n = s.unicode_len();
    let mut i: usize = 0;
    let mut acc: usize = 0;
    while i < n
        invariant
            n == s@.len(),
            i <= n,
            acc as nat == sat_width(width_spec(s@.take(i as int))),
        decreases n - i,
    {
        let cw = char_width(s.get_char(i));
        proof {
            lemma_width_take_step(s@, i as int);
        }
        if cw > usize::MAX - acc {
            acc = usize::MAX;
        } else {
            acc = acc + cw;
        }
        i = i + 1;
    }
    proof {
        assert(s@.take(n as int) =~= s@);
    }
    acc
}

} // verus!
