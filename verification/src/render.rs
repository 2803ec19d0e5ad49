//! Frame rendering: style-stripping, match highlighting, line formatting
//! with cursor and selection marks, the footer, viewport scrolling, and
//! the full frame.

use vstd::prelude::*;
use vstd::string::StrSliceExecFns;
use vstd::string::StringExecFns;

use crate::markdown::render_markdown_line;
use crate::markdown::render_md_spec;
use crate::markdown::strs_view;
use crate::model::App;
use crate::model::EditIntent;
use crate::model::EditTarget;
use crate::model::LineItem;
use crate::model::Mode;
use crate::model::Task;
use crate::search::cursor_search_fixed;
use crate::search::find_pos;
use crate::search::first_pos;
use crate::search::visible_indices_spec;
use crate::text_input::view_spec;
use crate::session::count_completed_spec;
use crate::session::count_tasks_spec;
use crate::session::sel_contains;
use crate::storage::find_char;
use crate::storage::find_char_exec;
use crate::storage::split_lines;
use crate::strutil::dec_str;
use crate::strutil::find_from;
use crate::strutil::has_match_from;
use crate::strutil::is_match_at;
use crate::strutil::push_char;
use crate::strutil::substr_string;
use crate::strutil::usize_to_string;

verus! {

/// Whether a character may appear inside a terminal style sequence's
/// parameter list: a digit or a semicolon.
pub open spec fn is_code_char(c: char) -> bool {
    c == ';' || (48 <= c as u32 && c as u32 <= 57)
}

/// The first position at or after `i` holding a non-parameter character.
pub open spec fn code_end(s: Seq<char>, i: int) -> int
    decreases s.len() - i,
{
    if i < 0 || i >= s.len() {
        s.len() as int
    } else if is_code_char(s[i]) {
        code_end(s, i + 1)
    } else {
        i
    }
}

/// The text with every complete style sequence (escape, bracket,
/// parameters, `m`) removed; an incomplete one stays verbatim.
pub open spec fn strip_from(s: Seq<char>, i: int) -> Seq<char>
    decreases s.len() - i,
{
    if i < 0 || i >= s.len() {
        Seq::<char>::empty()
    } else if s[i] == '\u{1b}' && i + 1 < s.len() && s[i + 1] == '[' {
        let j0 = code_end(s, i + 2);
        let j = if j0 < i + 2 {
            i + 2
        } else if j0 > s.len() {
            s.len() as int
        } else {
            j0
        };
        if j < s.len() && s[j] == 'm' {
            strip_from(s, j + 1)
        } else {
            seq![s[i]] + strip_from(s, i + 1)
        }
    } else {
        seq![s[i]] + strip_from(s, i + 1)
    }
}

/// The plain text behind a styled string.
pub open spec fn strip_spec(s: Seq<char>) -> Seq<char> {
    strip_from(s, 0)
}

/// The first position at or after `from` holding a non-parameter
/// character.
fn code_end_exec(s: &str, from: usize) -> (r: usize)
    requires
        from <= s@.len(),
    ensures
        r as int == code_end(s@, from as int),
        from <= r <= s@.len(),
{
    let n = s.unicode_len();
    let mut i: usize = from;
    while i < n
        invariant
            n == s@.len(),
            from <= i <= n,
            code_end(s@, from as int) == code_end(s@, i as int),
        decreases n - i,
    {
        let c = s.get_char(i);
        if !(c == ';' || (c as u32 >= 48 && c as u32 <= 57)) {
            return i;
        }
        i = i + 1;
    }
    i
}

/// Removes complete terminal style sequences from the text.
pub fn strip_ansi(input: &str) -> (r: String)
    ensures
        r@ == strip_spec(input@),
{
    let n = input.unicode_len();
    let mut out = String::new();
    let mut i: usize = 0;
    proof {
        assert(Seq::<char>::empty() + strip_from(input@, 0) =~= strip_from(input@, 0));
    }
    while i < n
        invariant
            n == input@.len(),
            i <= n,
            strip_spec(input@) == out@ + strip_from(input@, i as int),
        decreases n - i,
    {
        let c = input.get_char(i);
        if c == '\u{1b}' && i + 1 < n && input.get_char(i + 1) == '[' {
            let j = code_end_exec(input, i + 2);
            if j < n && input.get_char(j) == 'm' {
                i = j + 1;
            } else {
                push_char(&mut out, c);
                i = i + 1;
            }
        } else {
            push_char(&mut out, c);
            i = i + 1;
        }
        proof {
            assert(out@ + strip_from(input@, i as int) =~= strip_spec(input@));
        }
    }
    proof {
        assert(out@ =~= strip_spec(input@));
    }
    out
}

/// The position of the first occurrence of `q` in `s` at or after `pos`,
/// or `-1`.
pub open spec fn first_match_pos(s: Seq<char>, q: Seq<char>, pos: int) -> int
    decreases s.len() - pos,
{
    if pos < 0 || q.len() == 0 || pos + q.len() > s.len() {
        -1
    } else if is_match_at(s, q, pos) {
        pos
    } else {
        first_match_pos(s, q, pos + 1)
    }
}

/// The non-overlapping match ranges of `q` in `s`, scanning left to
/// right.
pub open spec fn match_ranges_from(s: Seq<char>, q: Seq<char>, pos: int) -> Seq<(int, int)>
    decreases s.len() - pos,
{
    if q.len() == 0 || pos < 0 || pos > s.len() {
        Seq::<(int, int)>::empty()
    } else {
        let f0 = first_match_pos(s, q, pos);
        if f0 < 0 {
            Seq::<(int, int)>::empty()
        } else {
            let f = if f0 < pos {
                pos
            } else {
                f0
            };
            if f + q.len() > s.len() {
                seq![(f, f + q.len() as int)]
            } else {
                seq![(f, f + q.len() as int)] + match_ranges_from(s, q, f + q.len())
            }
        }
    }
}

proof fn lemma_first_match_found(s: Seq<char>, q: Seq<char>, pos: int, i: int)
    requires
        0 <= pos <= i,
        q.len() > 0,
        is_match_at(s, q, i),
        forall|k: int| pos <= k < i ==> !is_match_at(s, q, k),
    ensures
        first_match_pos(s, q, pos) == i,
    decreases i - pos,
{
    if pos < i {
        lemma_first_match_found(s, q, pos + 1, i);
    }
}

proof fn lemma_first_match_none(s: Seq<char>, q: Seq<char>, pos: int)
    requires
        pos >= 0,
        !has_match_from(s, q, pos),
    ensures
        first_match_pos(s, q, pos) == -1,
    decreases s.len() - pos,
{
    if !(pos < 0 || q.len() == 0 || pos + q.len() > s.len()) {
        assert(!is_match_at(s, q, pos));
        lemma_first_match_none(s, q, pos + 1);
    }
}

/// Computes the non-overlapping match ranges of `q` in `s`.
fn find_ranges(s: &str, q: &str, qlen: usize) -> (r: Vec<(usize, usize)>)
    requires
        qlen == q@.len(),
        qlen > 0,
    ensures
        r@.map_values(|p: (usize, usize)| (p.0 as int, p.1 as int)) == match_ranges_from(
            s@,
            q@,
            0,
        ),
{
    let n = s.unicode_len();
    let mut out: Vec<(usize, usize)> = Vec::new();
    let mut pos: usize = 0;
    proof {
        assert(out@.map_values(|p: (usize, usize)| (p.0 as int, p.1 as int)) =~= Seq::<(
            int,
            int,
        )>::empty());
        assert(Seq::<(int, int)>::empty() + match_ranges_from(s@, q@, 0) =~= match_ranges_from(
            s@,
            q@,
            0,
        ));
    }
    loop
        invariant_except_break
            n == s@.len(),
            qlen == q@.len(),
            qlen > 0,
            pos <= n + qlen,
            match_ranges_from(s@, q@, 0) == out@.map_values(
                |p: (usize, usize)| (p.0 as int, p.1 as int),
            ) + match_ranges_from(s@, q@, pos as int),
        ensures
            match_ranges_from(s@, q@, 0) == out@.map_values(
                |p: (usize, usize)| (p.0 as int, p.1 as int),
            ),
        decreases n + qlen - pos,
    {
        if pos > n {
            proof {
                assert(match_ranges_from(s@, q@, pos as int) =~= Seq::<(int, int)>::empty());
                assert(out@.map_values(|p: (usize, usize)| (p.0 as int, p.1 as int))
                    + Seq::<(int, int)>::empty() =~= out@.map_values(
                    |p: (usize, usize)| (p.0 as int, p.1 as int),
                ));
            }
            break ;
        }
        match find_from(s, q, pos) {
            Some(i) => {
                proof {
                    lemma_first_match_found(s@, q@, pos as int, i as int);
                }
                let ghost prev = out@;
                out.push((i, i + qlen));
                pos = i + qlen;
                proof {
                    assert(out@.drop_last() =~= prev);
                    assert(out@.map_values(|p: (usize, usize)| (p.0 as int, p.1 as int))
                        =~= prev.map_values(|p: (usize, usize)| (p.0 as int, p.1 as int)).push(
                        (i as int, i + qlen as int),
                    ));
                    assert(prev.map_values(|p: (usize, usize)| (p.0 as int, p.1 as int)) + (seq![
                        (i as int, i + qlen as int),
                    ] + match_ranges_from(s@, q@, pos as int)) =~= out@.map_values(
                        |p: (usize, usize)| (p.0 as int, p.1 as int),
                    ) + match_ranges_from(s@, q@, pos as int));
                }
            },
            None => {
                proof {
                    lemma_first_match_none(s@, q@, pos as int);
                    assert(match_ranges_from(s@, q@, pos as int) =~= Seq::<(int, int)>::empty());
                    assert(out@.map_values(|p: (usize, usize)| (p.0 as int, p.1 as int))
                        + Seq::<(int, int)>::empty() =~= out@.map_values(
                        |p: (usize, usize)| (p.0 as int, p.1 as int),
                    ));
                }
                break ;
            },
        }
    }
    out
}

/// One step of the highlight walk: the styled text re-emitted with
/// highlight markers around each match range of the plain text, style
/// sequences passed through verbatim, and the highlight re-opened after a
/// style sequence that interrupts it.
pub open spec fn hl_from(
    s: Seq<char>,
    ranges: Seq<(int, int)>,
    i: int,
    plain_idx: int,
    ridx: int,
    active: bool,
) -> Seq<char>
    decreases s.len() - i, 1int,
{
    if i < 0 || i >= s.len() {
        if active {
            "\u{1b}[49m\u{1b}[39m"@
        } else {
            Seq::<char>::empty()
        }
    } else if s[i] == '\u{1b}' && i + 1 < s.len() && s[i + 1] == '[' {
        let j0 = find_char(s, 'm', i + 2);
        let j = if j0 < i + 2 {
            i + 2
        } else if j0 > s.len() {
            s.len() as int
        } else {
            j0
        };
        if j < s.len() {
            s.subrange(i, j + 1) + (if active {
                "\u{1b}[48;5;24m\u{1b}[38;5;15m"@
            } else {
                Seq::<char>::empty()
            }) + hl_from(s, ranges, j + 1, plain_idx, ridx, active)
        } else {
            hl_plain(s, ranges, i, plain_idx, ridx, active)
        }
    } else {
        hl_plain(s, ranges, i, plain_idx, ridx, active)
    }
}

/// The highlight walk over one plain character.
pub open spec fn hl_plain(
    s: Seq<char>,
    ranges: Seq<(int, int)>,
    i: int,
    plain_idx: int,
    ridx: int,
    active: bool,
) -> Seq<char>
    decreases s.len() - i, 0int,
{
    if i < 0 || i >= s.len() {
        Seq::<char>::empty()
    } else {
        let opened = ridx < ranges.len() && plain_idx == ranges[ridx].0 && !active;
        let pre = if opened {
            "\u{1b}[48;5;24m\u{1b}[38;5;15m"@
        } else {
            Seq::<char>::empty()
        };
        let act1 = active || opened;
        let p2 = plain_idx + 1;
        let closes = act1 && ridx < ranges.len() && p2 >= ranges[ridx].1;
        if closes {
            let reopens = ridx + 1 < ranges.len() && p2 == ranges[ridx + 1].0;
            pre + seq![s[i]] + "\u{1b}[49m\u{1b}[39m"@ + (if reopens {
                "\u{1b}[48;5;24m\u{1b}[38;5;15m"@
            } else {
                Seq::<char>::empty()
            }) + hl_from(s, ranges, i + 1, p2, ridx + 1, reopens)
        } else {
            pre + seq![s[i]] + hl_from(s, ranges, i + 1, p2, ridx, act1)
        }
    }
}

/// The rendered text with every occurrence of the plain-text query
/// wrapped in highlight markers; empty queries, empty text and texts with
/// no match come back untouched.
pub open spec fn highlight_spec(rendered: Seq<char>, query: Seq<char>) -> Seq<char> {
    if query.len() == 0 || rendered.len() == 0 {
        rendered
    } else {
        let plain = strip_spec(rendered);
        if plain.len() == 0 {
            rendered
        } else {
            let ranges = match_ranges_from(plain, query, 0);
            if ranges.len() == 0 {
                rendered
            } else {
                hl_from(rendered, ranges, 0, 0, 0, false)
            }
        }
    }
}

/// Wraps each match of `query` (against the style-stripped text) in
/// highlight markers, re-emitting style sequences verbatim.
#[verifier::rlimit(100)]
pub fn highlight_matches(rendered: &str, query: &str) -> (r: String)
    ensures
        r@ == highlight_spec(rendered@, query@),
{
    let n = rendered.unicode_len();
    let qlen = query.unicode_len();
    if qlen == 0 || n == 0 {
        return String::from_str(rendered);
    }
    let plain = strip_ansi(rendered);
    if plain.as_str().unicode_len() == 0 {
        return String::from_str(rendered);
    }
    let ranges = find_ranges(plain.as_str(), query, qlen);
    let ghost granges = ranges@.map_values(|p: (usize, usize)| (p.0 as int, p.1 as int));
    if ranges.len() == 0 {
        proof {
            assert(granges.len() == 0);
        }
        return String::from_str(rendered);
    }
    let mut out = String::new();
    let mut i: usize = 0;
    let mut plain_idx: usize = 0;
    let mut ridx: usize = 0;
    let mut active = false;
    proof {
        assert(Seq::<char>::empty() + hl_from(rendered@, granges, 0, 0, 0, false) =~= hl_from(
            rendered@,
            granges,
            0,
            0,
            0,
            false,
        ));
    }
    while i < n
        invariant
            n == rendered@.len(),
            i <= n,
            granges == ranges@.map_values(|p: (usize, usize)| (p.0 as int, p.1 as int)),
            granges.len() > 0,
            ridx <= granges.len(),
            hl_from(rendered@, granges, 0, 0, 0, false) == out@ + hl_from(
                rendered@,
                granges,
                i as int,
                plain_idx as int,
                ridx as int,
                active,
            ),
            plain_idx <= i,
        decreases n - i,
    {
        let ghost gi = i as int;
        let ghost gp = plain_idx as int;
        let ghost gr = ridx as int;
        let ghost ga = active;
        let c = rendered.get_char(i);
        if c == '\u{1b}' && i + 1 < n && rendered.get_char(i + 1) == '[' {
            let j = find_char_exec(rendered, 'm', i + 2);
            if j < n {
                let piece = substr_string(rendered, i, j + 1);
                out.append(piece.as_str());
                if active {
                    out.append("\u{1b}[48;5;24m\u{1b}[38;5;15m");
                }
                i = j + 1;
                proof {
                    assert(out@ + hl_from(
                        rendered@,
                        granges,
                        i as int,
                        plain_idx as int,
                        ridx as int,
                        active,
                    ) =~= hl_from(rendered@, granges, 0, 0, 0, false));
                }
                continue ;
            }
        }
        let opened = ridx < ranges.len() && {
            let rg = ranges[ridx];
            plain_idx == rg.0 && !active
        };
        if opened {
            out.append("\u{1b}[48;5;24m\u{1b}[38;5;15m");
            active = true;
        }
        push_char(&mut out, c);
        plain_idx = plain_idx + 1;
        if active && ridx < ranges.len() {
            let rg = ranges[ridx];
            if plain_idx >= rg.1 {
                out.append("\u{1b}[49m\u{1b}[39m");
                active = false;
                ridx = ridx + 1;
                if ridx < ranges.len() {
                    let rg2 = ranges[ridx];
                    if plain_idx == rg2.0 {
                        out.append("\u{1b}[48;5;24m\u{1b}[38;5;15m");
                        active = true;
                    }
                }
            }
        }
        i = i + 1;
        proof {
            assert(hl_from(rendered@, granges, gi, gp, gr, ga) == hl_plain(
                rendered@,
                granges,
                gi,
                gp,
                gr,
                ga,
            ));
            assert(out@ + hl_from(
                rendered@,
                granges,
                i as int,
                plain_idx as int,
                ridx as int,
                active,
            ) =~= hl_from(rendered@, granges, 0, 0, 0, false));
        }
    }
    if active {
        out.append("\u{1b}[49m\u{1b}[39m");
    }
    proof {
        assert(out@ =~= hl_from(rendered@, granges, 0, 0, 0, false));
    }
    out
}

/// How many newlines the text holds.
pub open spec fn count_nl(s: Seq<char>) -> nat
    decreases s.len(),
{
    if s.len() == 0 {
        0
    } else {
        count_nl(s.drop_last()) + if s.last() == '\n' {
            1nat
        } else {
            0nat
        }
    }
}

proof fn lemma_count_nl_le(s: Seq<char>)
    ensures
        count_nl(s) <= s.len(),
    decreases s.len(),
{
    if s.len() > 0 {
        lemma_count_nl_le(s.drop_last());
    }
}

/// How many terminal rows the text occupies: its newlines, plus one for a
/// final line not ended by a newline.
pub open spec fn count_lines_spec(s: Seq<char>) -> nat {
    count_nl(s) + if s.len() > 0 && s.last() == '\n' {
        0nat
    } else {
        1nat
    }
}

/// How many terminal rows the text occupies.
pub fn count_lines(input: &str) -> (r: usize)
    ensures
        r as nat == count_lines_spec(input@),
{
    let n = input.unicode_len();
    let mut count: usize = 0;
    let mut i: usize = 0;
    while i < n
        invariant
            n == input@.len(),
            i <= n,
            count as nat == count_nl(input@.take(i as int)),
            count <= i,
        decreases n - i,
    {
        proof {
            assert(input@.take(i + 1).drop_last() =~= input@.take(i as int));
            assert(input@.take(i + 1).last() == input@[i as int]);
        }
        if input.get_char(i) == '\n' {
            count = count + 1;
        }
        i = i + 1;
    }
    proof {
        assert(input@.take(n as int) =~= input@);
    }
    if n > 0 && input.get_char(n - 1) == '\n' {
        count
    } else {
        proof {
            if n > 0 {
                lemma_count_nl_le(input@.drop_last());
                assert(count_nl(input@) == count_nl(input@.drop_last()));
            }
        }
        count + 1
    }
}

/// `k` newlines.
pub open spec fn repeat_nl(k: nat) -> Seq<char>
    decreases k,
{
    if k == 0 {
        Seq::<char>::empty()
    } else {
        repeat_nl((k - 1) as nat).push('\n')
    }
}

/// The frame padded with newlines up to the window height.
pub open spec fn pad_spec(v: Seq<char>, h: nat) -> Seq<char> {
    if h == 0 {
        v
    } else if count_lines_spec(v) >= h {
        v
    } else {
        v + repeat_nl((h - count_lines_spec(v)) as nat)
    }
}

/// Pads the frame with newlines up to the window height.
pub fn pad_view_to_window(view: String, window_height: u16) -> (r: String)
    ensures
        r@ == pad_spec(view@, window_height as nat),
{
    if window_height == 0 {
        return view;
    }
    let lines = count_lines(view.as_str());
    let h = window_height as usize;
    if lines >= h {
        return view;
    }
    let mut out = view;
    let mut k: usize = 0;
    let total = h - lines;
    proof {
        assert(out@ + repeat_nl(0) =~= out@);
    }
    while k < total
        invariant
            total == window_height - lines,
            k <= total,
            out@ == view@ + repeat_nl(k as nat),
        decreases total - k,
    {
        push_char(&mut out, '\n');
        k = k + 1;
        proof {
            assert(out@ =~= view@ + repeat_nl(k as nat));
        }
    }
    out
}

/// The checkbox glyph of a task.
pub fn checkbox_symbol(done: bool) -> (r: &'static str)
    ensures
        done ==> r@ == "[x]"@,
        !done ==> r@ == "[ ]"@,
{
    if done {
        "[x]"
    } else {
        "[ ]"
    }
}

/// The frame header over the backing file's display name.
pub open spec fn header_spec(name: Seq<char>) -> Seq<char> {
    "Managing "@ + name + "\n\n"@
}

/// Renders the frame header.
pub fn render_header(name: &str) -> (r: String)
    ensures
        r@ == header_spec(name@),
{
    let mut out = String::new();
    out.append("Managing ");
    out.append(name);
    out.append("\n\n");
    proof {
        assert(out@ =~= header_spec(name@));
    }
    out
}

/// A stored indent with each tab widened to four spaces.
pub open spec fn tab_cell(c: char) -> Seq<char> {
    if c == '\t' {
        "    "@
    } else {
        seq![c]
    }
}

/// A stored indent with tabs widened to four spaces.
pub open spec fn tab_expand_spec(s: Seq<char>) -> Seq<char>
    decreases s.len(),
{
    if s.len() == 0 {
        Seq::<char>::empty()
    } else {
        tab_expand_spec(s.drop_last()) + tab_cell(s.last())
    }
}

/// Widens tabs to four spaces.
pub fn tab_expand(s: &str) -> (r: String)
    ensures
        r@ == tab_expand_spec(s@),
{
    let n = s.unicode_len();
    let mut out = String::new();
    let mut i: usize = 0;
    while i < n
        invariant
            n == s@.len(),
            i <= n,
            out@ == tab_expand_spec(s@.take(i as int)),
        decreases n - i,
    {
        let c = s.get_char(i);
        if c == '\t' {
            out.append("    ");
        } else {
            push_char(&mut out, c);
        }
        i = i + 1;
        proof {
            assert(s@.take(i as int).drop_last() =~= s@.take(i - 1));
            assert(s@.take(i as int).last() == s@[i - 1]);
            assert(out@ =~= tab_expand_spec(s@.take(i as int)));
        }
    }
    proof {
        assert(s@.take(n as int) =~= s@);
    }
    out
}

/// The selection highlight marker.
pub open spec fn hl_on() -> Seq<char> {
    "\u{1b}[48;5;226m\u{1b}[30m"@
}

/// The marker that closes a selection highlight.
pub open spec fn hl_off() -> Seq<char> {
    "\u{1b}[0m"@
}

/// The clear-to-end-of-line control.
pub open spec fn clear_eol() -> Seq<char> {
    "\u{1b}[K"@
}

/// One formatted display line: highlighted lines carry the selection
/// background over stripped text, others their prefix and body verbatim.
pub open spec fn fmt_one_line(line: Seq<char>, prefix: Seq<char>, selected: bool) -> Seq<char> {
    if selected {
        hl_on() + prefix + strip_spec(line) + clear_eol() + hl_off() + seq!['\n']
    } else {
        prefix + line + seq!['\n']
    }
}

/// The formatted display lines of a wrapped body, the first under the
/// cursor prefix and the rest under the continuation prefix.
pub open spec fn fmt_lines(
    ls: Seq<Seq<char>>,
    i: int,
    first_prefix: Seq<char>,
    cont_prefix: Seq<char>,
    selected: bool,
) -> Seq<char>
    decreases ls.len() - i,
{
    if i < 0 || i >= ls.len() {
        Seq::<char>::empty()
    } else {
        fmt_one_line(
            ls[i],
            if i == 0 {
                first_prefix
            } else {
                cont_prefix
            },
            selected,
        ) + fmt_lines(ls, i + 1, first_prefix, cont_prefix, selected)
    }
}

/// A body formatted as display rows: a `>` marks the cursor row (or an
/// active editor), and selected rows carry the selection background.
pub open spec fn format_line_spec(
    a: App,
    index: int,
    editing: bool,
    suppress: bool,
    body: Seq<char>,
) -> Seq<char> {
    let mark = if editing || (!suppress && index == a.cursor) {
        ">"@
    } else {
        " "@
    };
    let selected = !editing && sel_contains(a, index);
    fmt_lines(split_lines(body), 0, mark + "  "@, "   "@, selected)
}

/// Splits a body at newlines into owned lines.
fn split_lines_exec(s: &str) -> (r: Vec<String>)
    ensures
        strs_view(r@) == split_lines(s@),
{
    let n = s.unicode_len();
    let mut out: Vec<String> = Vec::new();
    let mut i: usize = 0;
    proof {
        assert(s@.skip(0) =~= s@);
        assert(strs_view(Seq::<String>::empty()) =~= Seq::<Seq<char>>::empty());
        assert(Seq::<Seq<char>>::empty() + split_lines(s@) =~= split_lines(s@));
    }
    loop
        invariant_except_break
            n == s@.len(),
            i <= n,
            split_lines(s@) == strs_view(out@) + split_lines(s@.skip(i as int)),
        ensures
            strs_view(out@) == split_lines(s@),
        decreases n - i,
    {
        let j = find_char_exec(s, '\n', i);
        let line = substr_string(s, i, j);
        proof {
            crate::storage::lemma_find_char_skip(s@, '\n', i as int, 0);
            assert(s@.skip(i as int).subrange(0, j - i) =~= s@.subrange(i as int, j as int));
        }
        out.push(line);
        proof {
            assert(strs_view(out@) =~= strs_view(out@.drop_last()).push(out@.last()@));
        }
        if j == n {
            proof {
                assert(s@.skip(i as int).subrange(0, j - i) =~= s@.skip(i as int));
                assert(split_lines(s@.skip(i as int)) == seq![s@.skip(i as int)]);
                assert(strs_view(out@.drop_last()) + seq![s@.skip(i as int)] =~= strs_view(out@));
            }
            break ;
        }
        proof {
            assert(s@.skip(i as int).skip(j - i + 1) =~= s@.skip(j + 1));
            assert(split_lines(s@.skip(i as int)) == seq![s@.subrange(i as int, j as int)]
                + split_lines(s@.skip(j + 1)));
            assert(strs_view(out@.drop_last()) + (seq![s@.subrange(i as int, j as int)]
                + split_lines(s@.skip(j + 1))) =~= strs_view(out@) + split_lines(s@.skip(j + 1)));
        }
        i = j + 1;
    }
    out
}

/// Formats a (possibly multi-row) body with cursor mark, continuation
/// indent, and selection highlighting.
pub fn format_line(a: &App, index: usize, editing: bool, suppress_cursor: bool, body: &str) -> (r:
    String)
    ensures
        r@ == format_line_spec(*a, index as int, editing, suppress_cursor, body@),
{
    let mark: &str = if editing || (!suppress_cursor && index == a.cursor) {
        ">"
    } else {
        " "
    };
    let selected = !editing && a.is_selected(index);
    let mut first_prefix = String::from_str(mark);
    first_prefix.append("  ");
    let lines = split_lines_exec(body);
    let n = lines.len();
    let mut out = String::new();
    let mut i: usize = 0;
    let ghost ls = split_lines(body@);
    proof {
        assert(first_prefix@ =~= mark@ + "  "@);
        assert(Seq::<char>::empty() + fmt_lines(ls, 0, mark@ + "  "@, "   "@, selected)
            =~= fmt_lines(ls, 0, mark@ + "  "@, "   "@, selected));
    }
    while i < n
        invariant
            n == lines@.len(),
            i <= n,
            strs_view(lines@) == ls,
            first_prefix@ == mark@ + "  "@,
            fmt_lines(ls, 0, mark@ + "  "@, "   "@, selected) == out@ + fmt_lines(
                ls,
                i as int,
                mark@ + "  "@,
                "   "@,
                selected,
            ),
        decreases n - i,
    {
        let line = &lines[i];
        proof {
            assert(ls[i as int] == lines@[i as int]@);
        }
        if selected {
            out.append("\u{1b}[48;5;226m\u{1b}[30m");
            if i == 0 {
                out.append(first_prefix.as_str());
            } else {
                out.append("   ");
            }
            let plain = strip_ansi(line.as_str());
            out.append(plain.as_str());
            out.append("\u{1b}[K");
            out.append("\u{1b}[0m");
            push_char(&mut out, '\n');
        } else {
            if i == 0 {
                out.append(first_prefix.as_str());
            } else {
                out.append("   ");
            }
            out.append(line.as_str());
            push_char(&mut out, '\n');
        }
        i = i + 1;
        proof {
            assert(out@ + fmt_lines(ls, i as int, mark@ + "  "@, "   "@, selected) =~= fmt_lines(
                ls,
                0,
                mark@ + "  "@,
                "   "@,
                selected,
            ));
        }
    }
    proof {
        assert(fmt_lines(ls, n as int, mark@ + "  "@, "   "@, selected) =~= Seq::<char>::empty());
        assert(out@ =~= fmt_lines(ls, 0, mark@ + "  "@, "   "@, selected));
    }
    out
}

/// A section row formatted with cursor mark and selection highlighting.
pub open spec fn format_section_line_spec(
    a: App,
    index: int,
    suppress: bool,
    body: Seq<char>,
) -> Seq<char> {
    let mark = if !suppress && index == a.cursor {
        ">"@
    } else {
        " "@
    };
    let prefix = mark + "  "@;
    if sel_contains(a, index) {
        hl_on() + prefix + strip_spec(body) + clear_eol() + hl_off() + seq!['\n']
    } else {
        prefix + body + seq!['\n']
    }
}

/// Formats one section row.
pub fn format_section_line(a: &App, index: usize, suppress_cursor: bool, body: &str) -> (r: String)
    ensures
        r@ == format_section_line_spec(*a, index as int, suppress_cursor, body@),
{
    let mark: &str = if !suppress_cursor && index == a.cursor {
        ">"
    } else {
        " "
    };
    let selected = a.is_selected(index);
    let mut out = String::new();
    if selected {
        out.append("\u{1b}[48;5;226m\u{1b}[30m");
        out.append(mark);
        out.append("  ");
        let plain = strip_ansi(body);
        out.append(plain.as_str());
        out.append("\u{1b}[K");
        out.append("\u{1b}[0m");
        push_char(&mut out, '\n');
    } else {
        out.append(mark);
        out.append("  ");
        out.append(body);
        push_char(&mut out, '\n');
    }
    proof {
        assert(out@ =~= format_section_line_spec(*a, index as int, suppress_cursor, body@));
    }
    out
}

/// The key-hint part of the footer for the current mode and state.
pub open spec fn footer_keys(a: App) -> Seq<char> {
    if a.mode == Mode::Edit {
        if a.edit_target == EditTarget::Section {
            "Esc save & exit · Enter save"@
        } else {
            "Tab/S-Tab indent · Esc save & exit · Enter new below"@
        }
    } else {
        let base =
            "j/k move · space toggle · dd del · u undo · ^r redo · / search · e vim · i inline · o/O new · S section · q quit"@;
        let s1 = if a.selection_active {
            base + " · Esc cancel selection"@
        } else {
            base
        };
        if a.search_input.value@.len() > 0 && a.mode != Mode::Edit {
            s1 + " · Esc clear search"@
        } else {
            s1
        }
    }
}

/// How many tasks are still open.
pub open spec fn open_count(a: App) -> nat {
    let total = count_tasks_spec(a.lines@);
    let completed = count_completed_spec(a.lines@);
    if total >= completed {
        (total - completed) as nat
    } else {
        0
    }
}

/// The footer's status block: key hints, the open/completed tally, the
/// status message, and any pending-reload or error notice.
pub open spec fn footer_status(a: App) -> Seq<char> {
    footer_keys(a) + seq!['\n'] + dec_str(open_count(a)) + " open · "@ + dec_str(
        count_completed_spec(a.lines@),
    ) + " completed"@ + (if a.status_message@.len() > 0 {
        " · "@ + a.status_message@
    } else {
        Seq::<char>::empty()
    }) + (if a.pending_reload {
        "\nFile changed on disk; finish editing to reload."@
    } else {
        Seq::<char>::empty()
    }) + (match a.error {
        Some(e) => "\nError: "@ + e@,
        None => Seq::<char>::empty(),
    })
}

/// The footer's search line: the live query editor in search mode, the
/// frozen query while a filter is active, nothing otherwise.
pub open spec fn footer_search_line(a: App) -> Seq<char> {
    if a.mode == Mode::Search {
        "/"@ + crate::text_input::view_spec(
            a.search_input.value@,
            a.search_input.cursor as int,
            "search"@,
            editor_width_spec(a),
        )
    } else if a.search_input.value@.len() > 0 && a.mode != Mode::Edit {
        "/"@ + a.search_input.value@
    } else {
        Seq::<char>::empty()
    }
}

/// The whole footer.
pub open spec fn footer_spec(a: App) -> Seq<char> {
    let sl = footer_search_line(a);
    let status = if sl.len() > 0 {
        sl + seq!['\n'] + footer_status(a)
    } else {
        footer_status(a)
    };
    seq!['\n'] + status + seq!['\n']
}

/// The columns the inline editor may use.
pub open spec fn editor_width_spec(a: App) -> int {
    let w: int = if a.window_width >= 10 {
        a.window_width - 10
    } else {
        0
    };
    if w < 20 {
        20int
    } else {
        w
    }
}

impl App {
    /// The columns the inline editor may use.
    pub fn editor_width(&self) -> (r: usize)
        ensures
            r as int == editor_width_spec(*self),
    {
        let w: usize = if self.window_width >= 10 {
            (self.window_width - 10) as usize
        } else {
            0
        };
        if w < 20 {
            20
        } else {
            w
        }
    }

    /// Keeps the renderer's wrap width in step with the window width,
    /// leaving a fixed margin.
    pub fn ensure_renderer_width(&mut self, total_width: u16)
        ensures
            *final(self) == (App { renderer_width: final(self).renderer_width, ..*old(self) }),
            final(self).renderer_width as int == if total_width >= 6 {
                total_width - 6
            } else {
                0int
            },
    {
        let wrap: usize = if total_width >= 6 {
            (total_width - 6) as usize
        } else {
            0
        };
        if wrap == self.renderer_width {
            return ;
        }
        self.renderer_width = wrap;
    }

    /// Renders the footer.
    #[verifier::rlimit(100)]
    pub fn render_footer(&self) -> (r: String)
        requires
            self.wf(),
        ensures
            r@ == footer_spec(*self),
    {
        let n = self.lines.len();
        let mut completed: usize = 0;
        let mut total: usize = 0;
        let mut i: usize = 0;
        while i < n
            invariant
                n == self.lines@.len(),
                i <= n,
                total as nat == count_tasks_spec(self.lines@.take(i as int)),
                completed as nat == count_completed_spec(self.lines@.take(i as int)),
                completed <= total <= i,
            decreases n - i,
        {
            proof {
                assert(self.lines@.take(i + 1).drop_last() =~= self.lines@.take(i as int));
                assert(self.lines@.take(i + 1).last() == self.lines@[i as int]);
            }
            match &self.lines[i] {
                LineItem::Task(task) => {
                    total = total + 1;
                    if task.completed {
                        completed = completed + 1;
                    }
                },
                _ => {},
            }
            i = i + 1;
        }
        proof {
            assert(self.lines@.take(n as int) =~= self.lines@);
        }
        let open = total - completed;
        let mut status = String::new();
        if matches!(self.mode, Mode::Edit) {
            if matches!(self.edit_target, EditTarget::Section) {
                status.append("Esc save & exit · Enter save");
            } else {
                status.append("Tab/S-Tab indent · Esc save & exit · Enter new below");
            }
        } else {
            status.append(
                "j/k move · space toggle · dd del · u undo · ^r redo · / search · e vim · i inline · o/O new · S section · q quit",
            );
            if self.selection_active {
                status.append(" · Esc cancel selection");
            }
            if self.search_active() && !matches!(self.mode, Mode::Edit) {
                status.append(" · Esc clear search");
            }
        }
        proof {
            assert(status@ =~= footer_keys(*self));
        }
        push_char(&mut status, '\n');
        let open_str = usize_to_string(open);
        status.append(open_str.as_str());
        status.append(" open · ");
        let done_str = usize_to_string(completed);
        status.append(done_str.as_str());
        status.append(" completed");
        if self.status_message.as_str().unicode_len() > 0 {
            status.append(" · ");
            status.append(self.status_message.as_str());
        }
        if self.pending_reload {
            status.append("\nFile changed on disk; finish editing to reload.");
        }
        match &self.error {
            Some(err) => {
                status.append("\nError: ");
                status.append(err.as_str());
            },
            None => {},
        }
        proof {
            assert(status@ =~= footer_status(*self));
        }
        let mut sline = String::new();
        if matches!(self.mode, Mode::Search) {
            sline.append("/");
            let view = self.search_input.view("search", self.editor_width());
            sline.append(view.as_str());
        } else if self.search_active() && !matches!(self.mode, Mode::Edit) {
            sline.append("/");
            sline.append(self.search_input.value());
        }
        proof {
            assert(sline@ =~= footer_search_line(*self));
        }
        let mut out = String::new();
        push_char(&mut out, '\n');
        if sline.as_str().unicode_len() > 0 {
            out.append(sline.as_str());
            push_char(&mut out, '\n');
        }
        out.append(status.as_str());
        push_char(&mut out, '\n');
        proof {
            assert(out@ =~= footer_spec(*self));
        }
        out
    }

    /// Moves the scroll offset the least amount that brings the cursor row
    /// inside the window, then clamps it into the row list.
    pub fn ensure_scroll(&mut self, total_items: usize, visible_items: usize, cursor_pos: usize)
        ensures
            *final(self) == (App { scroll_offset: final(self).scroll_offset, ..*old(self) }),
            final(self).scroll_offset as int == scroll_spec(
                old(self).scroll_offset as int,
                total_items as int,
                visible_items as int,
                cursor_pos as int,
            ),
            total_items > 0 ==> final(self).scroll_offset < total_items,
            0 < total_items && cursor_pos < total_items ==> final(self).scroll_offset as int
                <= cursor_pos < final(self).scroll_offset as int + (if visible_items < 1 {
                1int
            } else {
                visible_items as int
            }),
    {
        if total_items == 0 {
            self.scroll_offset = 0;
            return ;
        }
        let visible: usize = if visible_items < 1 {
            1
        } else {
            visible_items
        };
        if cursor_pos < self.scroll_offset {
            self.scroll_offset = cursor_pos;
        } else if cursor_pos - self.scroll_offset >= visible {
            self.scroll_offset = cursor_pos - (visible - 1);
        }
        if self.scroll_offset > total_items - 1 {
            self.scroll_offset = total_items - 1;
        }
    }
}

/// The scroll offset after the cursor row is brought into a window of
/// `visible` rows and the offset clamped into the row list.
pub open spec fn scroll_spec(offset: int, total: int, avail: int, cpos: int) -> int {
    if total == 0 {
        0
    } else {
        let visible = if avail < 1 {
            1int
        } else {
            avail
        };
        let adj = if cpos < offset {
            cpos
        } else if cpos >= offset + visible {
            cpos + 1 - visible
        } else {
            offset
        };
        if adj > total - 1 {
            total - 1
        } else {
            adj
        }
    }
}

/// Whether the search filter is narrowing the view.
pub open spec fn filter_active_spec(a: App) -> bool {
    a.search_input.value@.len() > 0 && a.mode != Mode::Edit
}

/// A task's rendered body: its text through the inline-markup renderer,
/// with query matches highlighted while a filter is active.
pub open spec fn task_body_spec(a: App, task: Task) -> Seq<char> {
    let body = render_md_spec(task.text@, a.renderer_width as nat);
    if filter_active_spec(a) {
        highlight_spec(body, a.search_input.value@)
    } else {
        body
    }
}

/// A wrapped body's rows joined: the first behind the checkbox prefix,
/// continuations behind matching blank indent.
pub open spec fn joined_rows(
    ls: Seq<Seq<char>>,
    i: int,
    prefix: Seq<char>,
    cont: Seq<char>,
) -> Seq<char>
    decreases ls.len() - i,
{
    if i < 0 || i >= ls.len() {
        Seq::<char>::empty()
    } else {
        (if i > 0 {
            seq!['\n']
        } else {
            Seq::<char>::empty()
        }) + (if i == 0 {
            prefix
        } else {
            cont
        }) + ls[i] + joined_rows(ls, i + 1, prefix, cont)
    }
}

/// A task row: wrapped body behind its indent and checkbox, formatted
/// with cursor and selection marks.
pub open spec fn render_task_line_spec(a: App, task: Task, index: int, suppress: bool) -> Seq<
    char,
> {
    let indent = tab_expand_spec(task.indent@);
    let checkbox = if task.completed {
        "[x]"@
    } else {
        "[ ]"@
    };
    let prefix = indent + checkbox + " "@;
    let cont = indent + "    "@;
    let joined = joined_rows(split_lines(task_body_spec(a, task)), 0, prefix, cont);
    format_line_spec(a, index, false, suppress, joined)
}

/// An inline task editor row: the input buffer behind the task's indent
/// and checkbox.
pub open spec fn render_editor_line_spec(a: App, task: Task, index: int) -> Seq<char> {
    let indent = tab_expand_spec(task.indent@);
    let checkbox = if task.completed {
        "[x]"@
    } else {
        "[ ]"@
    };
    let prefix = indent + checkbox + " "@;
    let content = prefix + view_spec(
        a.text_input.value@,
        a.text_input.cursor as int,
        a.input_placeholder@,
        editor_width_spec(a),
    );
    format_line_spec(a, index, true, false, content)
}

/// A section row: its title in bold, formatted with cursor and selection
/// marks.
pub open spec fn render_section_line_spec(a: App, title: Seq<char>, index: int, suppress: bool) -> Seq<
    char,
> {
    format_section_line_spec(a, index, suppress, "\u{1b}[1m"@ + title + "\u{1b}[0m"@)
}

/// A section editor row.
pub open spec fn render_section_editor_line_spec(a: App) -> Seq<char> {
    "  >"@ + view_spec(
        a.text_input.value@,
        a.text_input.cursor as int,
        a.input_placeholder@,
        editor_width_spec(a),
    ) + seq!['\n']
}

impl App {
    /// Renders one task row.
    pub fn render_task_line(&self, task: &Task, index: usize, suppress_cursor: bool) -> (r: String)
        requires
            self.wf(),
        ensures
            r@ == render_task_line_spec(*self, *task, index as int, suppress_cursor),
    {
        let mut body = render_markdown_line(task.text.as_str(), self.renderer_width);
        if self.search_active() && !matches!(self.mode, Mode::Edit) {
            body = highlight_matches(body.as_str(), self.search_query());
        }
        let indent = tab_expand(task.indent.as_str());
        let mut prefix = indent.clone();
        prefix.append(checkbox_symbol(task.completed));
        prefix.append(" ");
        let mut cont = indent.clone();
        cont.append("    ");
        let lines = split_lines_exec(body.as_str());
        let ghost ls = split_lines(body@);
        let n = lines.len();
        let mut joined = String::new();
        let mut i: usize = 0;
        proof {
            assert(prefix@ =~= tab_expand_spec(task.indent@) + (if task.completed {
                "[x]"@
            } else {
                "[ ]"@
            }) + " "@);
            assert(cont@ =~= tab_expand_spec(task.indent@) + "    "@);
            assert(Seq::<char>::empty() + joined_rows(ls, 0, prefix@, cont@) =~= joined_rows(
                ls,
                0,
                prefix@,
                cont@,
            ));
        }
        while i < n
            invariant
                n == lines@.len(),
                i <= n,
                strs_view(lines@) == ls,
                joined_rows(ls, 0, prefix@, cont@) == joined@ + joined_rows(
                    ls,
                    i as int,
                    prefix@,
                    cont@,
                ),
            decreases n - i,
        {
            proof {
                assert(ls[i as int] == lines@[i as int]@);
            }
            if i > 0 {
                push_char(&mut joined, '\n');
                joined.append(cont.as_str());
            } else {
                joined.append(prefix.as_str());
            }
            joined.append(lines[i].as_str());
            i = i + 1;
            proof {
                assert(joined@ + joined_rows(ls, i as int, prefix@, cont@) =~= joined_rows(
                    ls,
                    0,
                    prefix@,
                    cont@,
                ));
            }
        }
        proof {
            assert(joined@ =~= joined_rows(ls, 0, prefix@, cont@));
        }
        format_line(self, index, false, suppress_cursor, joined.as_str())
    }

    /// Renders the inline task editor row.
    pub fn render_editor_line(&self, task: &Task, index: usize) -> (r: String)
        requires
            self.wf(),
        ensures
            r@ == render_editor_line_spec(*self, *task, index as int),
    {
        let indent = tab_expand(task.indent.as_str());
        let mut content = indent;
        content.append(checkbox_symbol(task.completed));
        content.append(" ");
        let view = self.text_input.view(self.input_placeholder.as_str(), self.editor_width());
        content.append(view.as_str());
        proof {
            assert(content@ =~= tab_expand_spec(task.indent@) + (if task.completed {
                "[x]"@
            } else {
                "[ ]"@
            }) + " "@ + view_spec(
                self.text_input.value@,
                self.text_input.cursor as int,
                self.input_placeholder@,
                editor_width_spec(*self),
            ));
        }
        format_line(self, index, true, false, content.as_str())
    }

    /// Renders one section row.
    pub fn render_section_line(&self, title: &str, index: usize, suppress_cursor: bool) -> (r:
        String)
        ensures
            r@ == render_section_line_spec(*self, title@, index as int, suppress_cursor),
    {
        let mut body = String::new();
        body.append("\u{1b}[1m");
        body.append(title);
        body.append("\u{1b}[0m");
        proof {
            assert(body@ =~= "\u{1b}[1m"@ + title@ + "\u{1b}[0m"@);
        }
        format_section_line(self, index, suppress_cursor, body.as_str())
    }

    /// Renders the section editor row.
    pub fn render_section_editor_line(&self) -> (r: String)
        requires
            self.wf(),
        ensures
            r@ == render_section_editor_line_spec(*self),
    {
        let mut out = String::new();
        out.append("  >");
        let view = self.text_input.view(self.input_placeholder.as_str(), self.editor_width());
        out.append(view.as_str());
        push_char(&mut out, '\n');
        proof {
            assert(out@ =~= render_section_editor_line_spec(*self));
        }
        out
    }
}

/// Whether the empty-document notice is shown: no tasks exist and no task
/// insertion is in progress.
pub open spec fn show_empty_state_spec(a: App) -> bool {
    count_tasks_spec(a.lines@) == 0 && !(a.mode == Mode::Edit && a.edit_intent
        == EditIntent::Insert && a.edit_target == EditTarget::Task)
}

/// Whether the no-matches notice is shown.
pub open spec fn show_no_matches_spec(a: App, vis: Seq<usize>) -> bool {
    filter_active_spec(a) && vis.len() == 0 && !show_empty_state_spec(a)
}

/// The first position in the visible list at or past the insertion index,
/// or the end.
pub open spec fn first_pos_ge(vis: Seq<usize>, x: int) -> int
    decreases vis.len(),
{
    if vis.len() == 0 {
        0
    } else if vis[0] >= x {
        0
    } else {
        1 + first_pos_ge(vis.drop_first(), x)
    }
}

/// The row position of the in-progress insertion editor, when one is
/// shown; an active insertion counts as exactly one extra row.
pub open spec fn editor_pos_spec(a: App, vis: Seq<usize>) -> Option<int> {
    if a.mode == Mode::Edit && a.edit_intent == EditIntent::Insert {
        let insert_idx: int = match a.edit_index {
            Some(i) => i as int,
            None => vis.len() as int,
        };
        Some(first_pos_ge(vis, insert_idx))
    } else {
        None
    }
}

/// How many rows the view holds: the visible items, plus one for an
/// in-progress insertion.
pub open spec fn total_rows_spec(a: App, vis: Seq<usize>) -> int {
    vis.len() + (if editor_pos_spec(a, vis) is Some {
        1int
    } else {
        0int
    })
}

/// The row a given cursor occupies in the view.
pub open spec fn cursor_row_spec(a: App, vis: Seq<usize>) -> int {
    if total_rows_spec(a, vis) == 0 {
        0
    } else {
        match editor_pos_spec(a, vis) {
            Some(p) => p,
            None => if vis.contains(a.cursor) {
                first_pos(vis, a.cursor)
            } else {
                0
            },
        }
    }
}

/// The rows the header, notice and footer leave for items.
pub open spec fn avail_rows_spec(a: App, used: int) -> int {
    let h: int = if a.window_height == 0 {
        usize::MAX as int
    } else {
        a.window_height as int
    };
    if h >= used {
        h - used
    } else {
        0
    }
}

/// One rendered view row: the insertion editor at its position, an update
/// editor over the item being edited, otherwise the item itself.
pub open spec fn row_spec(a: App, vis: Seq<usize>, epos: Option<int>, view_pos: int) -> Seq<
    char,
> {
    let is_editor_row = match epos {
        Some(p) => view_pos == p,
        None => false,
    };
    if is_editor_row {
        if a.edit_target == EditTarget::Section {
            render_section_editor_line_spec(a)
        } else {
            render_editor_line_spec(a, a.edit_template, view_pos)
        }
    } else {
        let idx: int = match epos {
            Some(p) => if view_pos > p {
                vis[view_pos - 1] as int
            } else {
                vis[view_pos] as int
            },
            None => vis[view_pos] as int,
        };
        let updating = a.mode == Mode::Edit && a.edit_intent == EditIntent::Update
            && a.edit_index == Some(idx as usize);
        if updating {
            if a.edit_target == EditTarget::Section {
                render_section_editor_line_spec(a)
            } else if a.lines@[idx].is_task_spec() {
                render_editor_line_spec(a, a.lines@[idx].task_spec(), idx)
            } else {
                Seq::<char>::empty()
            }
        } else {
            let suppress = a.mode == Mode::Edit && a.edit_intent == EditIntent::Insert
                && a.edit_index == Some(idx as usize);
            if a.lines@[idx].is_section_spec() {
                render_section_line_spec(a, a.lines@[idx].title_spec(), idx, suppress)
            } else {
                render_task_line_spec(a, a.lines@[idx].task_spec(), idx, suppress)
            }
        }
    }
}

/// The rendered rows from `from` (inclusive) to `to` (exclusive).
pub open spec fn rows_concat(
    a: App,
    vis: Seq<usize>,
    epos: Option<int>,
    from: int,
    to: int,
) -> Seq<char>
    decreases to - from,
{
    if from >= to {
        Seq::<char>::empty()
    } else {
        row_spec(a, vis, epos, from) + rows_concat(a, vis, epos, from + 1, to)
    }
}

/// Extending a row range by one appends that row's rendering.
proof fn lemma_rows_concat_snoc(a: App, vis: Seq<usize>, epos: Option<int>, from: int, mid: int)
    requires
        from <= mid,
    ensures
        rows_concat(a, vis, epos, from, mid + 1) == rows_concat(a, vis, epos, from, mid)
            + row_spec(a, vis, epos, mid),
    decreases mid - from,
{
    if from < mid {
        lemma_rows_concat_snoc(a, vis, epos, from + 1, mid);
        assert(rows_concat(a, vis, epos, from, mid + 1) =~= rows_concat(a, vis, epos, from, mid)
            + row_spec(a, vis, epos, mid));
    } else {
        assert(rows_concat(a, vis, epos, mid + 1, mid + 1) =~= Seq::<char>::empty());
        assert(rows_concat(a, vis, epos, mid, mid + 1) =~= row_spec(a, vis, epos, mid));
        assert(rows_concat(a, vis, epos, mid, mid) =~= Seq::<char>::empty());
    }
}

/// The view of an optional editor position.
pub open spec fn epos_view(e: Option<usize>) -> Option<int> {
    match e {
        Some(p) => Some(p as int),
        None => None,
    }
}

/// The first position in the visible list at or past `x`, or the end.
fn first_pos_ge_exec(vis: &Vec<usize>, x: usize) -> (p: usize)
    ensures
        p as int == first_pos_ge(vis@, x as int),
        p <= vis@.len(),
{
    let n = vis.len();
    let mut p: usize = 0;
    let ghost gvis = vis@;
    proof {
        assert(gvis.skip(0) =~= gvis);
    }
    while p < n
        invariant
            n == vis@.len(),
            p <= n,
            gvis == vis@,
            first_pos_ge(gvis, x as int) == p + first_pos_ge(gvis.skip(p as int), x as int),
        decreases n - p,
    {
        proof {
            assert(gvis.skip(p as int)[0] == gvis[p as int]);
            assert(gvis.skip(p as int).drop_first() =~= gvis.skip(p + 1));
        }
        if vis[p] >= x {
            return p;
        }
        p = p + 1;
    }
    proof {
        assert(gvis.skip(p as int) =~= Seq::<usize>::empty());
    }
    p
}

/// The parts of a frame that do not read the cursor or the scroll offset
/// agree between two states that differ only there.
proof fn lemma_view_state_same(a: App, b: App)
    requires
        a.mode == b.mode,
        a.search_input == b.search_input,
        a.lines == b.lines,
        a.edit_intent == b.edit_intent,
        a.edit_target == b.edit_target,
        a.edit_index == b.edit_index,
        a.text_input == b.text_input,
        a.input_placeholder == b.input_placeholder,
        a.status_message == b.status_message,
        a.pending_reload == b.pending_reload,
        a.error == b.error,
        a.selection_active == b.selection_active,
        a.window_width == b.window_width,
        a.window_height == b.window_height,
        a.file_name == b.file_name,
    ensures
        visible_indices_spec(a) == visible_indices_spec(b),
        footer_spec(a) == footer_spec(b),
        show_empty_state_spec(a) == show_empty_state_spec(b),
        forall|vis: Seq<usize>| #[trigger] editor_pos_spec(a, vis) == editor_pos_spec(b, vis),
        forall|vis: Seq<usize>| #[trigger] show_no_matches_spec(a, vis) == show_no_matches_spec(
            b,
            vis,
        ),
        forall|vis: Seq<usize>| #[trigger] total_rows_spec(a, vis) == total_rows_spec(b, vis),
{
}

/// The whole frame a session state renders to, once the cursor and scroll
/// offset have been adjusted: header, notice, the scrolled window of rows,
/// footer, padded to the window height.
pub open spec fn render_view_spec(a: App) -> Seq<char> {
    let header = header_spec(a.file_name@);
    let vis = visible_indices_spec(a);
    let empty_state = show_empty_state_spec(a);
    let no_matches = show_no_matches_spec(a, vis);
    let notice: Seq<char> = if empty_state {
        "No tasks found. Press 'o' to create one.\n"@
    } else if no_matches {
        "No matches. Press Esc to clear search.\n"@
    } else {
        Seq::<char>::empty()
    };
    let footer = footer_spec(a);
    let used = count_lines_spec(header) + (if empty_state || no_matches {
        1int
    } else {
        0int
    }) + count_lines_spec(footer);
    let avail = avail_rows_spec(a, used);
    let epos = editor_pos_spec(a, vis);
    let total = total_rows_spec(a, vis);
    let start: int = if a.scroll_offset < total {
        a.scroll_offset as int
    } else {
        total
    };
    let end: int = if total - start <= avail {
        total
    } else {
        start + avail
    };
    pad_spec(
        header + notice + rows_concat(a, vis, epos, start, end) + footer,
        a.window_height as nat,
    )
}

/// The prepared pieces of a frame: the header (and any notice) already
/// emitted, the visible set, the rendered footer, the insertion-editor
/// row, and the scrolled window bounds.
pub struct ViewPlan {
    pub out: String,
    pub vis: Vec<usize>,
    pub footer: String,
    pub epos: Option<usize>,
    pub start: usize,
    pub end: usize,
}

/// The rows the header, notice and footer of a state occupy.
pub open spec fn used_rows_spec(a: App) -> int {
    count_lines_spec(header_spec(a.file_name@)) + (if show_empty_state_spec(a)
        || show_no_matches_spec(a, visible_indices_spec(a)) {
        1int
    } else {
        0int
    }) + count_lines_spec(footer_spec(a))
}

impl App {
    /// Computes the insertion-editor row, adjusts the scroll offset so the
    /// cursor row falls inside a window of `avail` rows, and returns the
    /// editor row with the window's bounds.
    fn view_window(&mut self, vis: &Vec<usize>, avail: usize) -> (r: (
        Option<usize>,
        usize,
        usize,
    ))
        requires
            old(self).wf(),
            vis@.len() < usize::MAX,
        ensures
            final(self).wf(),
            *final(self) == (App { scroll_offset: final(self).scroll_offset, ..*old(self) }),
            epos_view(r.0) == editor_pos_spec(*old(self), vis@),
            (match r.0 {
                Some(p) => p <= vis@.len(),
                None => true,
            }),
            final(self).scroll_offset as int == scroll_spec(
                old(self).scroll_offset as int,
                total_rows_spec(*old(self), vis@),
                avail as int,
                cursor_row_spec(*old(self), vis@),
            ),
            r.1 as int == (if final(self).scroll_offset < total_rows_spec(*old(self), vis@) {
                final(self).scroll_offset as int
            } else {
                total_rows_spec(*old(self), vis@)
            }),
            r.2 as int == (if total_rows_spec(*old(self), vis@) - r.1 <= avail {
                total_rows_spec(*old(self), vis@)
            } else {
                r.1 + avail
            }),
            r.1 <= r.2 <= total_rows_spec(*old(self), vis@),
    {
        let epos: Option<usize> = if matches!(self.mode, Mode::Edit) && matches!(
            self.edit_intent,
            EditIntent::Insert,
        ) {
            let insert_idx = match self.edit_index {
                Some(i) => i,
                None => vis.len(),
            };
            Some(first_pos_ge_exec(vis, insert_idx))
        } else {
            None
        };
        let total: usize = vis.len() + (match epos {
            Some(_) => 1,
            None => 0,
        });
        let cursor_pos: usize = if total == 0 {
            0
        } else {
            match epos {
                Some(p) => p,
                None => match find_pos(vis, self.cursor) {
                    Some(p) => p,
                    None => 0,
                },
            }
        };
        self.ensure_scroll(total, avail, cursor_pos);
        let start: usize = if self.scroll_offset < total {
            self.scroll_offset
        } else {
            total
        };
        let end: usize = if total - start <= avail {
            total
        } else {
            start + avail
        };
        (epos, start, end)
    }

    /// Renders one view row.
    fn render_row(&self, vis: &Vec<usize>, epos: Option<usize>, vp: usize) -> (r: String)
        requires
            self.wf(),
            forall|k: int| 0 <= k < vis@.len() ==> (vis@[k] as int) < self.lines@.len(),
            match epos_view(epos) {
                Some(p) => 0 <= p <= vis@.len() && vp < vis@.len() + 1,
                None => vp < vis@.len(),
            },
        ensures
            r@ == row_spec(*self, vis@, epos_view(epos), vp as int),
    {
        let is_editor_row = match epos {
            Some(p) => vp == p,
            None => false,
        };
        if is_editor_row {
            if matches!(self.edit_target, EditTarget::Section) {
                self.render_section_editor_line()
            } else {
                let template = self.edit_template.clone_task();
                self.render_editor_line(&template, vp)
            }
        } else {
            let idx: usize = match epos {
                Some(p) => if vp > p {
                    vis[vp - 1]
                } else {
                    vis[vp]
                },
                None => vis[vp],
            };
            let updating = matches!(self.mode, Mode::Edit) && matches!(
                self.edit_intent,
                EditIntent::Update,
            ) && (match self.edit_index {
                Some(e) => e == idx,
                None => false,
            });
            if updating {
                if matches!(self.edit_target, EditTarget::Section) {
                    self.render_section_editor_line()
                } else {
                    match &self.lines[idx] {
                        LineItem::Task(task) => {
                            let t = task.clone_task();
                            self.render_editor_line(&t, idx)
                        },
                        _ => String::new(),
                    }
                }
            } else {
                let suppress = matches!(self.mode, Mode::Edit) && matches!(
                    self.edit_intent,
                    EditIntent::Insert,
                ) && (match self.edit_index {
                    Some(e) => e == idx,
                    None => false,
                });
                match &self.lines[idx] {
                    LineItem::Section { title } => {
                        let t = title.clone();
                        self.render_section_line(t.as_str(), idx, suppress)
                    },
                    LineItem::Task(task) => {
                        let t = task.clone_task();
                        self.render_task_line(&t, idx, suppress)
                    },
                }
            }
        }
    }

    /// Prepares a frame: emits the header and any notice, fixes the
    /// cursor under an active filter, renders the footer, and scrolls the
    /// window.
    #[verifier::rlimit(100)]
    fn render_adjust(&mut self) -> (r: ViewPlan)
        requires
            old(self).wf(),
            old(self).lines@.len() < usize::MAX / 2,
        ensures
            final(self).wf(),
            *final(self) == (App {
                cursor: final(self).cursor,
                scroll_offset: final(self).scroll_offset,
                ..*old(self)
            }),
            cursor_search_fixed(*old(self), App { cursor: final(self).cursor, ..*old(self) }),
            final(self).scroll_offset as int == scroll_spec(
                old(self).scroll_offset as int,
                total_rows_spec(*final(self), visible_indices_spec(*final(self))),
                avail_rows_spec(*final(self), used_rows_spec(*final(self))),
                cursor_row_spec(*final(self), visible_indices_spec(*final(self))),
            ),
            r.vis@ == visible_indices_spec(*final(self)),
            forall|k: int|
                0 <= k < r.vis@.len() ==> (r.vis@[k] as int) < final(self).lines@.len(),
            epos_view(r.epos) == editor_pos_spec(*final(self), r.vis@),
            (match r.epos {
                Some(p) => p <= r.vis@.len(),
                None => true,
            }),
            r.start as int == (if final(self).scroll_offset < total_rows_spec(
                *final(self),
                r.vis@,
            ) {
                final(self).scroll_offset as int
            } else {
                total_rows_spec(*final(self), r.vis@)
            }),
            r.end as int == (if total_rows_spec(*final(self), r.vis@) - r.start <= avail_rows_spec(
                *final(self),
                used_rows_spec(*final(self)),
            ) {
                total_rows_spec(*final(self), r.vis@)
            } else {
                r.start + avail_rows_spec(*final(self), used_rows_spec(*final(self)))
            }),
            r.start <= r.end <= total_rows_spec(*final(self), r.vis@),
            r.out@ == header_spec(final(self).file_name@) + (if show_empty_state_spec(
                *final(self),
            ) {
                "No tasks found. Press 'o' to create one.\n"@
            } else if show_no_matches_spec(*final(self), r.vis@) {
                "No matches. Press Esc to clear search.\n"@
            } else {
                Seq::<char>::empty()
            }),
            r.footer@ == footer_spec(*final(self)),
    {
        let header = render_header(self.file_name.as_str());
        let mut out = String::new();
        out.append(header.as_str());
        let filter_active = self.search_active() && !matches!(self.mode, Mode::Edit);
        let vis = self.visible_indices();
        if filter_active {
            self.ensure_cursor_visible_in(&vis);
        }
        let ghost mid = *self;
        proof {
            assert(cursor_search_fixed(*old(self), mid));
            assert(mid == (App { cursor: mid.cursor, ..*old(self) }));
            lemma_view_state_same(*old(self), mid);
        }
        let show_empty = self.count_tasks() == 0 && !(matches!(self.mode, Mode::Edit) && matches!(
            self.edit_intent,
            EditIntent::Insert,
        ) && matches!(self.edit_target, EditTarget::Task));
        let show_nom = filter_active && vis.len() == 0 && !show_empty;
        if show_empty {
            out.append("No tasks found. Press 'o' to create one.\n");
        } else if show_nom {
            out.append("No matches. Press Esc to clear search.\n");
        }
        let footer = self.render_footer();
        let header_lines = count_lines(header.as_str());
        let empty_lines: usize = if show_empty || show_nom {
            1
        } else {
            0
        };
        let footer_lines = count_lines(footer.as_str());
        let mut avail: usize = if self.window_height == 0 {
            usize::MAX
        } else {
            self.window_height as usize
        };
        avail = if avail >= header_lines {
            avail - header_lines
        } else {
            0
        };
        avail = if avail >= empty_lines {
            avail - empty_lines
        } else {
            0
        };
        avail = if avail >= footer_lines {
            avail - footer_lines
        } else {
            0
        };
        proof {
            assert(avail as int == avail_rows_spec(mid, used_rows_spec(mid)));
        }
        let window = self.view_window(&vis, avail);
        let ghost fin = *self;
        proof {
            lemma_view_state_same(mid, fin);
            assert(used_rows_spec(fin) == used_rows_spec(mid));
            assert(cursor_row_spec(fin, vis@) == cursor_row_spec(mid, vis@));
        }
        ViewPlan {
            out,
            vis,
            footer,
            epos: window.0,
            start: window.1,
            end: window.2,
        }
    }

    /// Renders the whole frame. Under an active filter the cursor is first
    /// forced into the visible set, and the scroll offset is adjusted so
    /// the cursor row falls inside the window; rows are counted per item,
    /// not per wrapped display line.
    #[verifier::rlimit(100)]
    pub fn render(&mut self) -> (r: String)
        requires
            old(self).wf(),
            old(self).lines@.len() < usize::MAX / 2,
        ensures
            final(self).wf(),
            *final(self) == (App {
                cursor: final(self).cursor,
                scroll_offset: final(self).scroll_offset,
                ..*old(self)
            }),
            cursor_search_fixed(*old(self), App { cursor: final(self).cursor, ..*old(self) }),
            final(self).scroll_offset as int == scroll_spec(
                old(self).scroll_offset as int,
                total_rows_spec(*final(self), visible_indices_spec(*final(self))),
                avail_rows_spec(*final(self), used_rows_spec(*final(self))),
                cursor_row_spec(*final(self), visible_indices_spec(*final(self))),
            ),
            r@ == render_view_spec(*final(self)),
    {
        let plan = self.render_adjust();
        let vis = plan.vis;
        let mut out = plan.out;
        let epos = plan.epos;
        let start = plan.start;
        let end = plan.end;
        let ghost gepos: Option<int> = epos_view(epos);
        let ghost fin = *self;
        let mut vp: usize = start;
        let ghost pre_rows = out@;
        proof {
            assert(pre_rows + rows_concat(fin, vis@, gepos, start as int, start as int)
                =~= pre_rows);
        }
        while vp < end
            invariant
                self.wf(),
                *self == fin,
                start <= vp <= end,
                gepos == epos_view(epos),
                (match gepos {
                    Some(p) => 0 <= p <= vis@.len(),
                    None => true,
                }),
                end as int <= vis@.len() + (if gepos is Some {
                    1int
                } else {
                    0int
                }),
                forall|k: int| 0 <= k < vis@.len() ==> (vis@[k] as int) < self.lines@.len(),
                out@ == pre_rows + rows_concat(fin, vis@, gepos, start as int, vp as int),
            decreases end - vp,
        {
            let row = self.render_row(&vis, epos, vp);
            out.append(row.as_str());
            vp = vp + 1;
            proof {
                lemma_rows_concat_snoc(fin, vis@, gepos, start as int, vp - 1);
                assert(out@ =~= pre_rows + rows_concat(fin, vis@, gepos, start as int, vp as int));
            }
        }
        out.append(plan.footer.as_str());
        let height = self.window_height;
        proof {
            assert(out@ =~= header_spec(fin.file_name@) + (if show_empty_state_spec(fin) {
                "No tasks found. Press 'o' to create one.\n"@
            } else if show_no_matches_spec(fin, vis@) {
                "No matches. Press Esc to clear search.\n"@
            } else {
                Seq::<char>::empty()
            }) + rows_concat(fin, vis@, gepos, start as int, end as int) + footer_spec(fin));
        }
        pad_view_to_window(out, height)
    }
}

} // verus!
