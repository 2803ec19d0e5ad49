//! Inline markup rendering: a small, nestable markup subset (emphasis
//! with `*` or `_`, strong with a doubled delimiter, code spans in
//! backticks, soft breaks as spaces and backslash line breaks as real
//! ones) parsed into styled segments, then greedily word-wrapped to a
//! display width and dressed in terminal style codes.

use vstd::prelude::*;
use vstd::string::StrSliceExecFns;
use vstd::string::StringExecFns;

use crate::strutil::blank_spec;
use crate::strutil::is_blank;
use crate::strutil::is_ws;
use crate::strutil::push_char;
use crate::strutil::str_eq;
use crate::strutil::substr_string;
use crate::width::sat_width;
use crate::width::str_width;
use crate::width::width_spec;

verus! {

/// The style flags a span of text carries.
#[derive(Debug, Clone, Copy, PartialEq, Eq, Structural)]
pub struct Style {
    pub bold: bool,
    pub italic: bool,
    pub code: bool,
}

/// A run of text under one style.
#[derive(Debug, Clone)]
pub struct Segment {
    pub text: String,
    pub style: Style,
}

/// The mathematical view of a segment or token: its characters and style.
pub struct Tok {
    pub text: Seq<char>,
    pub style: Style,
}

pub open spec fn plain_style() -> Style {
    Style { bold: false, italic: false, code: false }
}

pub open spec fn seg_view(s: Segment) -> Tok {
    Tok { text: s.text@, style: s.style }
}

pub open spec fn segs_view(v: Seq<Segment>) -> Seq<Tok> {
    v.map_values(|s: Segment| seg_view(s))
}

impl Segment {
    /// An exact copy of the segment.
    pub fn clone_seg(&self) -> (r: Segment)
        ensures
            r == *self,
    {
        Segment { text: self.text.clone(), style: self.style }
    }
}

/// Feeding one styled character into the segment under construction:
/// starts it when empty, extends it under the same style, or flushes it
/// and starts a new one when the style changed.
pub open spec fn emit_char(cur: Tok, c: char, st: Style) -> (Seq<Tok>, Tok) {
    if cur.text.len() == 0 {
        (Seq::<Tok>::empty(), Tok { text: seq![c], style: st })
    } else if cur.style == st {
        (Seq::<Tok>::empty(), Tok { text: cur.text.push(c), style: cur.style })
    } else {
        (seq![cur], Tok { text: seq![c], style: st })
    }
}

/// The segments the markup from position `i` on denotes, given the style
/// flags in force and the segment under construction. A doubled `*` or `_`
/// toggles bold, a single one italic, a backtick opens a code span that
/// runs literally to the next backtick, backslash-newline is a hard break,
/// a bare newline a soft break.
pub open spec fn segs_from(s: Seq<char>, i: int, st: Style, cur: Tok) -> Seq<Tok>
    decreases s.len() - i,
{
    if i < 0 || i >= s.len() {
        if cur.text.len() > 0 {
            seq![cur]
        } else {
            Seq::<Tok>::empty()
        }
    } else if st.code {
        if s[i] == '`' {
            segs_from(s, i + 1, Style { bold: st.bold, italic: st.italic, code: false }, cur)
        } else {
            let e = emit_char(cur, s[i], st);
            e.0 + segs_from(s, i + 1, st, e.1)
        }
    } else if (s[i] == '*' || s[i] == '_') && i + 1 < s.len() && s[i + 1] == s[i] {
        segs_from(s, i + 2, Style { bold: !st.bold, italic: st.italic, code: st.code }, cur)
    } else if s[i] == '*' || s[i] == '_' {
        segs_from(s, i + 1, Style { bold: st.bold, italic: !st.italic, code: st.code }, cur)
    } else if s[i] == '`' {
        segs_from(s, i + 1, Style { bold: st.bold, italic: st.italic, code: true }, cur)
    } else if s[i] == '\\' && i + 1 < s.len() && s[i + 1] == '\n' {
        let e = emit_char(cur, '\n', st);
        e.0 + segs_from(s, i + 2, st, e.1)
    } else if s[i] == '\n' {
        let e = emit_char(cur, ' ', st);
        e.0 + segs_from(s, i + 1, st, e.1)
    } else {
        let e = emit_char(cur, s[i], st);
        e.0 + segs_from(s, i + 1, st, e.1)
    }
}

/// The segment list a whole markup line denotes.
pub open spec fn parse_inline_spec(s: Seq<char>) -> Seq<Tok> {
    segs_from(s, 0, plain_style(), Tok { text: Seq::<char>::empty(), style: plain_style() })
}

/// Feeds one styled character into the segments being built.
fn emit_exec(out: &mut Vec<Segment>, cur_text: &mut String, cur_style: &mut Style, c: char, st: Style)
    ensures
        ({
            let e = emit_char(Tok { text: old(cur_text)@, style: *old(cur_style) }, c, st);
            &&& segs_view(final(out)@) == segs_view(old(out)@) + e.0
            &&& final(cur_text)@ == e.1.text
            &&& *final(cur_style) == e.1.style
        }),
{
    if cur_text.as_str().unicode_len() == 0 {
        *cur_style = st;
        push_char(cur_text, c);
        proof {
            assert(segs_view(out@) =~= segs_view(out@) + Seq::<Tok>::empty());
        }
    } else if *cur_style == st {
        push_char(cur_text, c);
        proof {
            assert(segs_view(out@) =~= segs_view(out@) + Seq::<Tok>::empty());
        }
    } else {
        let done_text = cur_text.clone();
        let done = Segment { text: done_text, style: *cur_style };
        let ghost prev = out@;
        out.push(done);
        *cur_text = String::new();
        push_char(cur_text, c);
        *cur_style = st;
        proof {
            assert(segs_view(out@) =~= segs_view(prev) + seq![
                Tok { text: old(cur_text)@, style: *old(cur_style) },
            ]);
        }
    }
}

/// Parses a markup line into styled segments; every segment is non-empty.
pub fn parse_inline(raw: &str) -> (r: Vec<Segment>)
    ensures
        segs_view(r@) == parse_inline_spec(raw@),
{
    let n = raw.unicode_len();
    let mut out: Vec<Segment> = Vec::new();
    let mut cur_text = String::new();
    let mut cur_style = Style { bold: false, italic: false, code: false };
    let mut bold = false;
    let mut italic = false;
    let mut code = false;
    let mut i: usize = 0;
    proof {
        assert(segs_view(Seq::<Segment>::empty()) =~= Seq::<Tok>::empty());
        assert(Seq::<Tok>::empty() + parse_inline_spec(raw@) =~= parse_inline_spec(raw@));
    }
    while i < n
        invariant
            n == raw@.len(),
            i <= n,
            parse_inline_spec(raw@) == segs_view(out@) + segs_from(
                raw@,
                i as int,
                Style { bold, italic, code },
                Tok { text: cur_text@, style: cur_style },
            ),
        decreases n - i,
    {
        let c = raw.get_char(i);
        let ghost st0 = Style { bold, italic, code };
        let ghost cur0 = Tok { text: cur_text@, style: cur_style };
        if code {
            if c == '`' {
                code = false;
                i = i + 1;
            } else {
                emit_exec(&mut out, &mut cur_text, &mut cur_style, c, Style { bold, italic, code });
                i = i + 1;
            }
        } else if (c == '*' || c == '_') && i + 1 < n && raw.get_char(i + 1) == c {
            bold = !bold;
            i = i + 2;
        } else if c == '*' || c == '_' {
            italic = !italic;
            i = i + 1;
        } else if c == '`' {
            code = true;
            i = i + 1;
        } else if c == '\\' && i + 1 < n && raw.get_char(i + 1) == '\n' {
            emit_exec(&mut out, &mut cur_text, &mut cur_style, '\n', Style { bold, italic, code });
            i = i + 2;
        } else if c == '\n' {
            emit_exec(&mut out, &mut cur_text, &mut cur_style, ' ', Style { bold, italic, code });
            i = i + 1;
        } else {
            emit_exec(&mut out, &mut cur_text, &mut cur_style, c, Style { bold, italic, code });
            i = i + 1;
        }
        proof {
            assert(segs_view(out@) + segs_from(
                raw@,
                i as int,
                Style { bold, italic, code },
                Tok { text: cur_text@, style: cur_style },
            ) =~= parse_inline_spec(raw@));
        }
    }
    if cur_text.as_str().unicode_len() > 0 {
        out.push(Segment { text: cur_text, style: cur_style });
        proof {
            assert(segs_view(out@) =~= parse_inline_spec(raw@));
        }
    } else {
        proof {
            assert(segs_view(out@) =~= parse_inline_spec(raw@));
        }
    }
    out
}

/// The first position at or after `i` holding a whitespace character, or
/// the length.
pub open spec fn nonws_end(s: Seq<char>, i: int) -> int
    decreases s.len() - i,
{
    if i < 0 || i >= s.len() {
        s.len() as int
    } else if is_ws(s[i]) {
        i
    } else {
        nonws_end(s, i + 1)
    }
}

/// The tokens of a segment's text: maximal words, and one token per
/// whitespace character — a newline keeps its identity, any other
/// whitespace becomes a single space.
pub open spec fn tokenize_spec(s: Seq<char>) -> Seq<Seq<char>>
    decreases s.len(),
{
    if s.len() == 0 {
        Seq::<Seq<char>>::empty()
    } else if s[0] == '\n' {
        seq![seq!['\n']] + tokenize_spec(s.drop_first())
    } else if is_ws(s[0]) {
        seq![seq![' ']] + tokenize_spec(s.drop_first())
    } else {
        let e0 = nonws_end(s, 0);
        let e = if e0 < 1 {
            1int
        } else if e0 > s.len() {
            s.len() as int
        } else {
            e0
        };
        seq![s.take(e)] + tokenize_spec(s.skip(e))
    }
}

/// The views of a list of owned strings.
pub open spec fn strs_view(v: Seq<String>) -> Seq<Seq<char>> {
    v.map_values(|t: String| t@)
}

/// The first position at or after `from` holding whitespace.
fn nonws_end_exec(s: &str, from: usize) -> (r: usize)
    requires
        from <= s@.len(),
    ensures
        r as int == nonws_end(s@, from as int),
        from <= r <= s@.len(),
{
    let n = s.unicode_len();
    let mut i: usize = from;
    while i < n
        invariant
            n == s@.len(),
            from <= i <= n,
            nonws_end(s@, from as int) == nonws_end(s@, i as int),
        decreases n - i,
    {
        if crate::strutil::char_is_ws(s.get_char(i)) {
            return i;
        }
        i = i + 1;
    }
    i
}

/// The first whitespace position of a suffix sits where it sits in the
/// whole.
proof fn lemma_nonws_end_skip(s: Seq<char>, base: int, i: int)
    requires
        0 <= base,
        0 <= i,
        base + i <= s.len(),
    ensures
        nonws_end(s.skip(base), i) == nonws_end(s, base + i) - base,
    decreases s.len() - base - i,
{
    if base + i < s.len() {
        assert(s.skip(base)[i] == s[base + i]);
        if !is_ws(s[base + i]) {
            lemma_nonws_end_skip(s, base, i + 1);
        }
    }
}

/// Splits a segment's text into word and whitespace tokens.
pub fn tokenize(text: &str) -> (r: Vec<String>)
    ensures
        strs_view(r@) == tokenize_spec(text@),
{
    let n = text.unicode_len();
    let mut out: Vec<String> = Vec::new();
    let mut i: usize = 0;
    proof {
        assert(text@.skip(0) =~= text@);
        assert(strs_view(Seq::<String>::empty()) =~= Seq::<Seq<char>>::empty());
        assert(Seq::<Seq<char>>::empty() + tokenize_spec(text@) =~= tokenize_spec(text@));
    }
    while i < n
        invariant
            n == text@.len(),
            i <= n,
            tokenize_spec(text@) == strs_view(out@) + tokenize_spec(text@.skip(i as int)),
        decreases n - i,
    {
        let c = text.get_char(i);
        proof {
            assert(text@.skip(i as int)[0] == text@[i as int]);
            assert(text@.skip(i as int).drop_first() =~= text@.skip(i + 1));
        }
        if c == '\n' {
            let mut tok = String::new();
            push_char(&mut tok, '\n');
            out.push(tok);
            i = i + 1;
        } else if crate::strutil::char_is_ws(c) {
            let mut tok = String::new();
            push_char(&mut tok, ' ');
            out.push(tok);
            i = i + 1;
        } else {
            let e = nonws_end_exec(text, i + 1);
            proof {
                lemma_nonws_end_skip(text@, i as int, 0);
                assert(nonws_end(text@, i as int) == nonws_end(text@, i + 1));
                assert(text@.skip(i as int).take(e - i) =~= text@.subrange(i as int, e as int));
                assert(text@.skip(i as int).skip(e - i) =~= text@.skip(e as int));
            }
            let tok = substr_string(text, i, e);
            out.push(tok);
            i = e;
        }
        proof {
            assert(strs_view(out@) =~= strs_view(out@.drop_last()).push(out@.last()@));
            assert(strs_view(out@) + tokenize_spec(text@.skip(i as int)) =~= tokenize_spec(
                text@,
            ));
        }
    }
    proof {
        assert(text@.skip(n as int) =~= Seq::<char>::empty());
        assert(tokenize_spec(text@.skip(n as int)) =~= Seq::<Seq<char>>::empty());
        assert(strs_view(out@) =~= tokenize_spec(text@));
    }
    out
}

/// The tokens of one segment, each carrying the segment's style.
pub open spec fn toks_of_seg(t: Tok) -> Seq<Tok> {
    tokenize_spec(t.text).map_values(|w: Seq<char>| Tok { text: w, style: t.style })
}

/// The tokens of a whole segment list, in order.
pub open spec fn toks_of_segs(segs: Seq<Tok>) -> Seq<Tok>
    decreases segs.len(),
{
    if segs.len() == 0 {
        Seq::<Tok>::empty()
    } else {
        toks_of_seg(segs[0]) + toks_of_segs(segs.drop_first())
    }
}

/// Splits every segment into styled tokens.
fn flatten_tokens(segments: &Vec<Segment>) -> (r: Vec<Segment>)
    ensures
        segs_view(r@) == toks_of_segs(segs_view(segments@)),
{
    let n = segments.len();
    let mut out: Vec<Segment> = Vec::new();
    let mut i: usize = 0;
    proof {
        assert(segs_view(Seq::<Segment>::empty()) =~= Seq::<Tok>::empty());
        assert(segs_view(segments@).skip(0) =~= segs_view(segments@));
        assert(Seq::<Tok>::empty() + toks_of_segs(segs_view(segments@)) =~= toks_of_segs(
            segs_view(segments@),
        ));
    }
    while i < n
        invariant
            n == segments@.len(),
            i <= n,
            toks_of_segs(segs_view(segments@)) == segs_view(out@) + toks_of_segs(
                segs_view(segments@).skip(i as int),
            ),
        decreases n - i,
    {
        let seg = &segments[i];
        let toks = tokenize(seg.text.as_str());
        let m = toks.len();
        let mut j: usize = 0;
        proof {
            assert(segs_view(segments@).skip(i as int)[0] == seg_view(segments@[i as int]));
            assert(segs_view(segments@).skip(i as int).drop_first() =~= segs_view(
                segments@,
            ).skip(i + 1));
        }
        while j < m
            invariant
                n == segments@.len(),
                i < n,
                m == toks@.len(),
                j <= m,
                strs_view(toks@) == tokenize_spec(segments@[i as int].text@),
                toks_of_segs(segs_view(segments@)) == segs_view(out@) + toks_of_seg(
                    seg_view(segments@[i as int]),
                ).skip(j as int) + toks_of_segs(segs_view(segments@).skip(i + 1)),
            decreases m - j,
        {
            let piece = Segment { text: toks[j].clone(), style: segments[i].style };
            proof {
                assert(toks_of_seg(seg_view(segments@[i as int]))[j as int] == Tok {
                    text: toks@[j as int]@,
                    style: segments@[i as int].style,
                });
            }
            out.push(piece);
            j = j + 1;
            proof {
                assert(toks_of_seg(seg_view(segments@[i as int])).skip(j - 1).drop_first()
                    =~= toks_of_seg(seg_view(segments@[i as int])).skip(j as int));
                assert(toks_of_seg(seg_view(segments@[i as int])).skip(j - 1)[0] == toks_of_seg(
                    seg_view(segments@[i as int]),
                )[j - 1]);
                assert(segs_view(out@) =~= segs_view(out@.drop_last()).push(
                    seg_view(out@.last()),
                ));
                assert(segs_view(out@) + toks_of_seg(seg_view(segments@[i as int])).skip(j as int)
                    + toks_of_segs(segs_view(segments@).skip(i + 1)) =~= toks_of_segs(
                    segs_view(segments@),
                ));
            }
        }
        i = i + 1;
        proof {
            assert(toks_of_seg(seg_view(segments@[i - 1])).skip(m as int) =~= Seq::<Tok>::empty());
            assert(segs_view(out@) + toks_of_segs(segs_view(segments@).skip(i as int))
                =~= toks_of_segs(segs_view(segments@)));
        }
    }
    proof {
        assert(segs_view(segments@).skip(n as int) =~= Seq::<Tok>::empty());
        assert(toks_of_segs(Seq::<Tok>::empty()) =~= Seq::<Tok>::empty());
        assert(segs_view(out@) =~= toks_of_segs(segs_view(segments@)));
    }
    out
}

/// The total columns of a line's tokens.
pub open spec fn toks_width(l: Seq<Tok>) -> nat
    decreases l.len(),
{
    if l.len() == 0 {
        0
    } else {
        toks_width(l.drop_last()) + width_spec(l.last().text)
    }
}

/// A planned line is within budget, or all its columns come from one
/// token that alone exceeds the budget and was emitted unbroken.
pub open spec fn line_ok(l: Seq<Tok>, width: nat) -> bool {
    toks_width(l) <= width || exists|j: int|
        0 <= j < l.len() && width_spec(l[j].text) > width && toks_width(l) == width_spec(l[j].text)
}

pub open spec fn lines_ok(ls: Seq<Seq<Tok>>, width: nat) -> bool {
    forall|i: int| 0 <= i < ls.len() ==> line_ok(#[trigger] ls[i], width)
}

/// Greedy wrapping from token `i` on, with `cur` the line under
/// construction: a newline token ends the line; a token that would push a
/// non-empty line past the budget starts a new line first; a space at the
/// start of a line is dropped; what remains is appended. Widths saturate
/// at the machine limit.
pub open spec fn plan_from(toks: Seq<Tok>, i: int, cur: Seq<Tok>, width: nat) -> Seq<Seq<Tok>>
    decreases toks.len() - i, cur.len(),
{
    if i < 0 || i >= toks.len() {
        if cur.len() > 0 {
            seq![cur]
        } else {
            Seq::<Seq<Tok>>::empty()
        }
    } else {
        let t = toks[i];
        let cw = sat_width(toks_width(cur));
        if t.text == seq!['\n'] {
            seq![cur] + plan_from(toks, i + 1, Seq::<Tok>::empty(), width)
        } else {
            let tw = sat_width(width_spec(t.text));
            if cw > 0 && cw + tw > width && cur.len() > 0 {
                seq![cur] + plan_from(toks, i, Seq::<Tok>::empty(), width)
            } else if cw == 0 && t.text == seq![' '] {
                plan_from(toks, i + 1, cur, width)
            } else {
                plan_from(toks, i + 1, cur.push(t), width)
            }
        }
    }
}

/// Every line greedy wrapping emits is within budget, except a line whose
/// columns all come from a single token wider than the budget.
pub proof fn lemma_plan_fits(toks: Seq<Tok>, i: int, cur: Seq<Tok>, width: nat)
    requires
        line_ok(cur, width),
        width <= usize::MAX,
    ensures
        lines_ok(plan_from(toks, i, cur, width), width),
    decreases toks.len() - i, cur.len(),
{
    let result = plan_from(toks, i, cur, width);
    if i < 0 || i >= toks.len() {
    } else {
        let t = toks[i];
        let cw = sat_width(toks_width(cur));
        if t.text == seq!['\n'] {
            lemma_plan_fits(toks, i + 1, Seq::<Tok>::empty(), width);
            let rest = plan_from(toks, i + 1, Seq::<Tok>::empty(), width);
            assert forall|k: int| 0 <= k < result.len() implies line_ok(
                #[trigger] result[k],
                width,
            ) by {
                if k >= 1 {
                    assert(result[k] == rest[k - 1]);
                }
            }
        } else {
            let tw = sat_width(width_spec(t.text));
            if cw > 0 && cw + tw > width && cur.len() > 0 {
                lemma_plan_fits(toks, i, Seq::<Tok>::empty(), width);
                let rest = plan_from(toks, i, Seq::<Tok>::empty(), width);
                assert forall|k: int| 0 <= k < result.len() implies line_ok(
                    #[trigger] result[k],
                    width,
                ) by {
                    if k >= 1 {
                        assert(result[k] == rest[k - 1]);
                    }
                }
            } else if cw == 0 && t.text == seq![' '] {
                lemma_plan_fits(toks, i + 1, cur, width);
            } else {
                let cur2 = cur.push(t);
                assert(cur2.drop_last() =~= cur);
                assert(toks_width(cur2) == toks_width(cur) + width_spec(t.text));
                let w0 = toks_width(cur);
                let tww = width_spec(t.text);
                if cw > 0 {
                    // the token was appended, so the saturated check passed
                    if w0 <= usize::MAX && tww <= usize::MAX {
                        assert(w0 + tww <= width);
                    } else if w0 > usize::MAX {
                        // a full-width machine line can only absorb zero-width
                        // tokens, and such a line already owes its columns to
                        // one oversized token
                        assert(sat_width(w0) == usize::MAX as nat);
                        assert(tww == 0) by {
                            lemma_zero_sat_width(tww);
                        }
                        assert(!(w0 <= width));
                        let j = choose|j: int|
                            0 <= j < cur.len() && width_spec(cur[j].text) > width && toks_width(
                                cur,
                            ) == width_spec(cur[j].text);
                        assert(cur2[j] == cur[j]);
                        assert(line_ok(cur2, width));
                    } else {
                        // an over-machine-wide token never joins a non-empty line
                        assert(sat_width(tww) == usize::MAX as nat);
                        assert(cw + usize::MAX as nat > width);
                        assert(false);
                    }
                } else {
                    lemma_zero_sat_width(w0);
                    if tww > width {
                        assert(width_spec(cur2[cur.len() as int].text) > width);
                        assert(line_ok(cur2, width));
                    }
                }
                lemma_plan_fits(toks, i + 1, cur2, width);
            }
        }
    }
}

/// Every line the wrapper emits for a segment list is within the budget,
/// except a line whose columns all come from a single token that alone
/// exceeds it and is emitted unsplit.
pub proof fn lemma_wrap_lines_fit(segs: Seq<Tok>, width: nat)
    requires
        width <= usize::MAX,
    ensures
        lines_ok(plan_from(toks_of_segs(segs), 0, Seq::<Tok>::empty(), width), width),
{
    lemma_plan_fits(toks_of_segs(segs), 0, Seq::<Tok>::empty(), width);
}

proof fn lemma_zero_sat_width(w: nat)
    requires
        sat_width(w) == 0,
    ensures
        w == 0,
{
}

/// The views of planned lines.
pub open spec fn lines_view(v: Seq<Vec<Segment>>) -> Seq<Seq<Tok>> {
    v.map_values(|l: Vec<Segment>| segs_view(l@))
}

/// Groups styled tokens into lines no wider than `width`, except a single
/// oversized token on a line of its own.
fn plan_lines(toks: &Vec<Segment>, width: usize) -> (r: Vec<Vec<Segment>>)
    ensures
        lines_view(r@) == plan_from(segs_view(toks@), 0, Seq::<Tok>::empty(), width as nat),
{
    let n = toks.len();
    let mut lines: Vec<Vec<Segment>> = Vec::new();
    let mut cur: Vec<Segment> = Vec::new();
    let mut cur_w: usize = 0;
    let mut i: usize = 0;
    proof {
        assert(segs_view(Seq::<Segment>::empty()) =~= Seq::<Tok>::empty());
        assert(lines_view(Seq::<Vec<Segment>>::empty()) =~= Seq::<Seq<Tok>>::empty());
        assert(Seq::<Seq<Tok>>::empty() + plan_from(segs_view(toks@), 0, Seq::<Tok>::empty(), width as nat)
            =~= plan_from(segs_view(toks@), 0, Seq::<Tok>::empty(), width as nat));
    }
    while i < n
        invariant
            n == toks@.len(),
            i <= n,
            cur_w as nat == sat_width(toks_width(segs_view(cur@))),
            plan_from(segs_view(toks@), 0, Seq::<Tok>::empty(), width as nat) == lines_view(
                lines@,
            ) + plan_from(segs_view(toks@), i as int, segs_view(cur@), width as nat),
        decreases n - i, cur_w,
    {
        let t = &toks[i];
        proof {
            assert(segs_view(toks@)[i as int] == seg_view(toks@[i as int]));
        }
        if str_eq(t.text.as_str(), "\n") {
            proof {
                reveal_strlit("\n");
                assert("\n"@ =~= seq!['\n']);
            }
            lines.push(cur);
            cur = Vec::new();
            cur_w = 0;
            i = i + 1;
            proof {
                assert(segs_view(Seq::<Segment>::empty()) =~= Seq::<Tok>::empty());
                assert(lines_view(lines@) =~= lines_view(lines@.drop_last()).push(
                    segs_view(lines@.last()@),
                ));
                assert(lines_view(lines@) + plan_from(
                    segs_view(toks@),
                    i as int,
                    Seq::<Tok>::empty(),
                    width as nat,
                ) =~= plan_from(segs_view(toks@), 0, Seq::<Tok>::empty(), width as nat));
            }
        } else {
            proof {
                reveal_strlit("\n");
                if t.text@ == seq!['\n'] {
                    assert(t.text@ =~= "\n"@);
                }
            }
            let tw = str_width(t.text.as_str());
            if cur_w > 0 && (cur_w > width || tw > width - cur_w) && cur.len() > 0 {
                lines.push(cur);
                cur = Vec::new();
                cur_w = 0;
                proof {
                    assert(segs_view(Seq::<Segment>::empty()) =~= Seq::<Tok>::empty());
                    assert(lines_view(lines@) =~= lines_view(lines@.drop_last()).push(
                        segs_view(lines@.last()@),
                    ));
                    assert(lines_view(lines@) + plan_from(
                        segs_view(toks@),
                        i as int,
                        Seq::<Tok>::empty(),
                        width as nat,
                    ) =~= plan_from(segs_view(toks@), 0, Seq::<Tok>::empty(), width as nat));
                }
            } else if cur_w == 0 && str_eq(t.text.as_str(), " ") {
                proof {
                    reveal_strlit(" ");
                    assert(" "@ =~= seq![' ']);
                }
                i = i + 1;
                proof {
                    assert(lines_view(lines@) + plan_from(
                        segs_view(toks@),
                        i as int,
                        segs_view(cur@),
                        width as nat,
                    ) =~= plan_from(segs_view(toks@), 0, Seq::<Tok>::empty(), width as nat));
                }
            } else {
                proof {
                    reveal_strlit(" ");
                    if t.text@ == seq![' '] {
                        assert(t.text@ =~= " "@);
                    }
                }
                let ghost cur_before = cur@;
                let ghost w0 = toks_width(segs_view(cur@));
                let ghost tww = width_spec(t.text@);
                cur.push(t.clone_seg());
                if tw > usize::MAX - cur_w {
                    cur_w = usize::MAX;
                } else {
                    cur_w = cur_w + tw;
                }
                i = i + 1;
                proof {
                    assert(cur@.drop_last() =~= cur_before);
                    assert(segs_view(cur@).drop_last() =~= segs_view(cur_before));
                    assert(seg_view(cur@.last()) == Tok { text: t.text@, style: t.style });
                    assert(segs_view(cur@).last() == seg_view(cur@.last()));
                    assert(segs_view(cur@) =~= segs_view(cur_before).push(
                        Tok { text: t.text@, style: t.style },
                    ));
                    assert(toks_width(segs_view(cur@)) == w0 + tww);
                    if w0 > usize::MAX as nat || tww > usize::MAX as nat || w0 + tww
                        > usize::MAX as nat {
                        assert(sat_width(w0 + tww) == usize::MAX as nat);
                        assert(cur_w == usize::MAX);
                    } else {
                        assert(cur_w as nat == w0 + tww);
                    }
                    assert(lines_view(lines@) + plan_from(
                        segs_view(toks@),
                        i as int,
                        segs_view(cur@),
                        width as nat,
                    ) =~= plan_from(segs_view(toks@), 0, Seq::<Tok>::empty(), width as nat));
                }
            }
        }
    }
    if cur.len() > 0 {
        lines.push(cur);
        proof {
            assert(lines_view(lines@) =~= lines_view(lines@.drop_last()).push(
                segs_view(lines@.last()@),
            ));
            assert(lines_view(lines@) =~= plan_from(
                segs_view(toks@),
                0,
                Seq::<Tok>::empty(),
                width as nat,
            ));
        }
    } else {
        proof {
            assert(segs_view(cur@) =~= Seq::<Tok>::empty());
            assert(lines_view(lines@) =~= plan_from(
                segs_view(toks@),
                0,
                Seq::<Tok>::empty(),
                width as nat,
            ));
        }
    }
    lines
}

/// The opening style sequence of a styled span: bold is code `1`, italic
/// `3`, code `7`, joined with semicolons.
pub open spec fn style_prefix(st: Style) -> Seq<char> {
    if st.bold {
        if st.italic {
            if st.code {
                "\u{1b}[1;3;7m"@
            } else {
                "\u{1b}[1;3m"@
            }
        } else if st.code {
            "\u{1b}[1;7m"@
        } else {
            "\u{1b}[1m"@
        }
    } else if st.italic {
        if st.code {
            "\u{1b}[3;7m"@
        } else {
            "\u{1b}[3m"@
        }
    } else if st.code {
        "\u{1b}[7m"@
    } else {
        Seq::<char>::empty()
    }
}

/// A span of text dressed in its style's terminal codes; unstyled text is
/// untouched.
pub open spec fn apply_style_spec(text: Seq<char>, st: Style) -> Seq<char> {
    if !st.bold && !st.italic && !st.code {
        text
    } else {
        style_prefix(st) + text + "\u{1b}[0m"@
    }
}

/// Dresses a span of text in its style's terminal codes.
pub fn apply_style(text: &str, style: Style) -> (r: String)
    ensures
        r@ == apply_style_spec(text@, style),
{
    if !style.bold && !style.italic && !style.code {
        return String::from_str(text);
    }
    let mut out = String::new();
    if style.bold {
        if style.italic {
            if style.code {
                out.append("\u{1b}[1;3;7m");
            } else {
                out.append("\u{1b}[1;3m");
            }
        } else if style.code {
            out.append("\u{1b}[1;7m");
        } else {
            out.append("\u{1b}[1m");
        }
    } else if style.italic {
        if style.code {
            out.append("\u{1b}[3;7m");
        } else {
            out.append("\u{1b}[3m");
        }
    } else {
        out.append("\u{1b}[7m");
    }
    out.append(text);
    out.append("\u{1b}[0m");
    proof {
        assert(out@ =~= apply_style_spec(text@, style));
    }
    out
}

/// A segment list rendered as one styled string.
pub open spec fn segs_render(segs: Seq<Tok>) -> Seq<char>
    decreases segs.len(),
{
    if segs.len() == 0 {
        Seq::<char>::empty()
    } else {
        segs_render(segs.drop_last()) + apply_style_spec(segs.last().text, segs.last().style)
    }
}

/// Renders a segment list as one styled string.
pub fn segments_to_string(segments: &Vec<Segment>) -> (r: String)
    ensures
        r@ == segs_render(segs_view(segments@)),
{
    let n = segments.len();
    let mut out = String::new();
    let mut i: usize = 0;
    proof {
        assert(segs_view(segments@.take(0)) =~= Seq::<Tok>::empty());
    }
    while i < n
        invariant
            n == segments@.len(),
            i <= n,
            out@ == segs_render(segs_view(segments@.take(i as int))),
        decreases n - i,
    {
        let styled = apply_style(segments[i].text.as_str(), segments[i].style);
        out.append(styled.as_str());
        i = i + 1;
        proof {
            assert(segs_view(segments@.take(i as int)).drop_last() =~= segs_view(
                segments@.take(i - 1),
            ));
            assert(segs_view(segments@.take(i as int)).last() == seg_view(segments@[i - 1]));
            assert(out@ =~= segs_render(segs_view(segments@.take(i as int))));
        }
    }
    proof {
        assert(segments@.take(n as int) =~= segments@);
    }
    out
}

/// One planned line rendered as a styled string.
pub open spec fn line_render(l: Seq<Tok>) -> Seq<char> {
    segs_render(l)
}

/// Planned lines joined with newlines.
pub open spec fn lines_render(ls: Seq<Seq<Tok>>) -> Seq<char>
    decreases ls.len(),
{
    if ls.len() == 0 {
        Seq::<char>::empty()
    } else if ls.len() == 1 {
        line_render(ls[0])
    } else {
        lines_render(ls.drop_last()) + seq!['\n'] + line_render(ls.last())
    }
}

/// The wrapped, styled rendering of a segment list: with a zero width no
/// wrapping happens at all; otherwise tokens are wrapped greedily and each
/// line rendered with its style codes.
pub open spec fn wrap_spec(segs: Seq<Tok>, width: nat) -> Seq<char> {
    if width == 0 {
        segs_render(segs)
    } else {
        lines_render(plan_from(toks_of_segs(segs), 0, Seq::<Tok>::empty(), width))
    }
}

/// Wraps styled segments to `width` columns and renders them.
pub fn wrap_segments(segments: &Vec<Segment>, width: usize) -> (r: String)
    ensures
        r@ == wrap_spec(segs_view(segments@), width as nat),
{
    if width == 0 {
        return segments_to_string(segments);
    }
    let toks = flatten_tokens(segments);
    let lines = plan_lines(&toks, width);
    let n = lines.len();
    let mut out = String::new();
    let mut i: usize = 0;
    proof {
        assert(lines_view(lines@).take(0) =~= Seq::<Seq<Tok>>::empty());
    }
    while i < n
        invariant
            n == lines@.len(),
            i <= n,
            out@ == lines_render(lines_view(lines@).take(i as int)),
        decreases n - i,
    {
        if i > 0 {
            push_char(&mut out, '\n');
        }
        let rendered = segments_to_string(&lines[i]);
        out.append(rendered.as_str());
        i = i + 1;
        proof {
            assert(lines_view(lines@).take(i as int).drop_last() =~= lines_view(lines@).take(
                i - 1,
            ));
            assert(lines_view(lines@).take(i as int).last() == segs_view(lines@[i - 1]@));
            assert(lines_view(lines@).take(i as int)[0] == segs_view(lines@[0]@));
            assert(out@ =~= lines_render(lines_view(lines@).take(i as int)));
        }
    }
    proof {
        assert(lines_view(lines@).take(n as int) =~= lines_view(lines@));
    }
    out
}

/// Characters stripped from the edges of the final render.
pub open spec fn is_edge_ws(c: char) -> bool {
    c == ' ' || c == '\n' || c == '\t'
}

/// The render with leading edge whitespace removed.
pub open spec fn trim_start_spec(s: Seq<char>) -> Seq<char>
    decreases s.len(),
{
    if s.len() > 0 && is_edge_ws(s[0]) {
        trim_start_spec(s.drop_first())
    } else {
        s
    }
}

/// The render with trailing edge whitespace removed.
pub open spec fn trim_end_spec(s: Seq<char>) -> Seq<char>
    decreases s.len(),
{
    if s.len() > 0 && is_edge_ws(s.last()) {
        trim_end_spec(s.drop_last())
    } else {
        s
    }
}

/// The render with both edges trimmed.
pub open spec fn trim_edges_spec(s: Seq<char>) -> Seq<char> {
    trim_end_spec(trim_start_spec(s))
}

/// The position where the leading edge whitespace ends.
fn edge_start(s: &str) -> (a: usize)
    ensures
        a <= s@.len(),
        trim_start_spec(s@) == s@.skip(a as int),
{
    let n = s.unicode_len();
    let mut a: usize = 0;
    proof {
        assert(s@.skip(0) =~= s@);
    }
    while a < n
        invariant
            n == s@.len(),
            a <= n,
            trim_start_spec(s@) == trim_start_spec(s@.skip(a as int)),
        decreases n - a,
    {
        let c = s.get_char(a);
        proof {
            assert(s@.skip(a as int)[0] == s@[a as int]);
            assert(s@.skip(a as int).drop_first() =~= s@.skip(a + 1));
        }
        if !(c == ' ' || c == '\n' || c == '\t') {
            return a;
        }
        a = a + 1;
    }
    proof {
        assert(s@.skip(a as int) =~= Seq::<char>::empty());
    }
    a
}

/// The length the suffix keeps after trailing edge whitespace is removed.
fn edge_end(s: &str, a: usize) -> (b: usize)
    requires
        a <= s@.len(),
    ensures
        b <= s@.len() - a,
        trim_end_spec(s@.skip(a as int)) == s@.skip(a as int).take(b as int),
{
    let n = s.unicode_len();
    let t_len = n - a;
    let mut b: usize = t_len;
    proof {
        assert(s@.skip(a as int).take(b as int) =~= s@.skip(a as int));
    }
    while b > 0
        invariant
            n == s@.len(),
            a <= n,
            b <= t_len,
            t_len == n - a,
            trim_end_spec(s@.skip(a as int)) == trim_end_spec(s@.skip(a as int).take(b as int)),
        decreases b,
    {
        let c = s.get_char(a + b - 1);
        proof {
            assert(s@.skip(a as int).take(b as int).last() == s@[a + b - 1]);
            assert(s@.skip(a as int).take(b as int).drop_last() =~= s@.skip(a as int).take(
                b - 1,
            ));
        }
        if !(c == ' ' || c == '\n' || c == '\t') {
            return b;
        }
        b = b - 1;
    }
    proof {
        assert(s@.skip(a as int).take(0) =~= Seq::<char>::empty());
    }
    b
}

/// Trims spaces, tabs and newlines from both edges.
fn trim_edges(s: &str) -> (r: String)
    ensures
        r@ == trim_edges_spec(s@),
{
    let n = s.unicode_len();
    let a = edge_start(s);
    let b = edge_end(s, a);
    proof {
        assert(a + b <= n);
        assert(s@.skip(a as int).take(b as int) =~= s@.subrange(a as int, a + b));
    }
    substr_string(s, a, a + b)
}

/// The final rendering of one markup line: blank input renders empty;
/// anything else is parsed, wrapped to `width`, and trimmed at the edges.
pub open spec fn render_md_spec(raw: Seq<char>, width: nat) -> Seq<char> {
    if blank_spec(raw) {
        Seq::<char>::empty()
    } else {
        trim_edges_spec(wrap_spec(parse_inline_spec(raw), width))
    }
}

/// Renders one line of inline markup, wrapped to `width` display columns.
pub fn render_markdown_line(raw: &str, width: usize) -> (r: String)
    ensures
        r@ == render_md_spec(raw@, width as nat),
{
    if is_blank(raw) {
        return String::new();
    }
    let segments = parse_inline(raw);
    let wrapped = wrap_segments(&segments, width);
    trim_edges(wrapped.as_str())
}

} // verus!
