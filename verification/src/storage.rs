//! The persisted text format: one line per item, `## title` for sections
//! and `indent bullet [mark] text` for tasks. Parsing is lossy by design:
//! blank lines and lines in neither shape are silently discarded, so a
//! round-trip is guaranteed only for text the serializer itself produced.

use vstd::prelude::*;
use vstd::string::StrSliceExecFns;
use vstd::string::StringExecFns;

use crate::model::LineItem;
use crate::model::Task;
use crate::model::item_line_spec;
use crate::strutil::is_ws;
use crate::strutil::push_char;
use crate::strutil::substr_string;

verus! {

/// What one persisted line denotes.
pub enum ParsedLine {
    Section { title: Seq<char> },
    Task { indent: Seq<char>, bullet: char, completed: bool, text: Seq<char> },
    Skip,
}

/// The first position at or after `i` holding a non-whitespace character,
/// or the length.
pub open spec fn ws_end(s: Seq<char>, i: int) -> int
    decreases s.len() - i,
{
    if i < 0 || i >= s.len() {
        s.len() as int
    } else if is_ws(s[i]) {
        ws_end(s, i + 1)
    } else {
        i
    }
}

/// What a single line denotes: a section header `## title`, a checkbox
/// task, or nothing.
pub open spec fn parse_line_spec(s: Seq<char>) -> ParsedLine {
    if s.len() > 2 && s[0] == '#' && s[1] == '#' && is_ws(s[2]) {
        ParsedLine::Section { title: s.subrange(ws_end(s, 2), s.len() as int) }
    } else {
        let a = ws_end(s, 0);
        if a < s.len() && (s[a] == '-' || s[a] == '*') {
            let b = ws_end(s, a + 1);
            if a + 1 < b && b + 2 < s.len() && s[b] == '[' && (s[b + 1] == ' ' || s[b + 1] == 'x'
                || s[b + 1] == 'X') && s[b + 2] == ']' {
                ParsedLine::Task {
                    indent: s.subrange(0, a),
                    bullet: s[a],
                    completed: s[b + 1] == 'x' || s[b + 1] == 'X',
                    text: s.subrange(ws_end(s, b + 3), s.len() as int),
                }
            } else {
                ParsedLine::Skip
            }
        } else {
            ParsedLine::Skip
        }
    }
}

/// The text without carriage returns.
pub open spec fn strip_cr(s: Seq<char>) -> Seq<char> {
    s.filter(|c: char| c != '\r')
}

/// The first position at or after `i` holding `c`, or the length.
pub open spec fn find_char(s: Seq<char>, c: char, i: int) -> int
    decreases s.len() - i,
{
    if i < 0 || i >= s.len() {
        s.len() as int
    } else if s[i] == c {
        i
    } else {
        find_char(s, c, i + 1)
    }
}

/// The text split at newlines; a trailing newline yields a final empty
/// line.
pub open spec fn split_lines(s: Seq<char>) -> Seq<Seq<char>>
    decreases s.len(),
{
    let j = find_char(s, '\n', 0);
    if !(0 <= j < s.len()) {
        seq![s]
    } else {
        seq![s.subrange(0, j)] + split_lines(s.skip(j + 1))
    }
}

/// The denotations of the lines that parse, in order.
pub open spec fn parsed_items(ls: Seq<Seq<char>>) -> Seq<ParsedLine>
    decreases ls.len(),
{
    if ls.len() == 0 {
        Seq::<ParsedLine>::empty()
    } else {
        (match parse_line_spec(ls[0]) {
            ParsedLine::Skip => Seq::<ParsedLine>::empty(),
            p => seq![p],
        }) + parsed_items(ls.drop_first())
    }
}

/// The document a text denotes.
pub open spec fn parse_doc_spec(text: Seq<char>) -> Seq<ParsedLine> {
    parsed_items(split_lines(strip_cr(text)))
}

/// Whether a concrete item carries exactly what a parsed line denotes.
pub open spec fn item_matches(item: LineItem, p: ParsedLine) -> bool {
    match p {
        ParsedLine::Section { title } => item.is_section_spec() && item.title_spec() == title,
        ParsedLine::Task { indent, bullet, completed, text } => {
            &&& item.is_task_spec()
            &&& item.task_spec().indent@ == indent
            &&& item.task_spec().bullet@ == seq![bullet]
            &&& item.task_spec().completed == completed
            &&& item.task_spec().text@ == text
        },
        ParsedLine::Skip => false,
    }
}

/// The serialized document: each item's line followed by a newline, empty
/// for an empty document.
pub open spec fn serialize_spec(lines: Seq<LineItem>) -> Seq<char>
    decreases lines.len(),
{
    if lines.len() == 0 {
        Seq::<char>::empty()
    } else {
        serialize_spec(lines.drop_last()) + item_line_spec(lines.last()) + seq!['\n']
    }
}

/// The first position at or after `from` holding a non-whitespace
/// character.
fn ws_end_exec(s: &str, from: usize) -> (r: usize)
    requires
        from <= s@.len(),
    ensures
        r as int == ws_end(s@, from as int),
        from <= r <= s@.len(),
{
    let n = s.unicode_len();
    let mut i: usize = from;
    while i < n
        invariant
            n == s@.len(),
            from <= i <= n,
            ws_end(s@, from as int) == ws_end(s@, i as int),
        decreases n - i,
    {
        if !crate::strutil::char_is_ws(s.get_char(i)) {
            return i;
        }
        i = i + 1;
    }
    i
}

/// The first position at or after `from` holding `c`.
pub fn find_char_exec(s: &str, c: char, from: usize) -> (r: usize)
    requires
        from <= s@.len(),
    ensures
        r as int == find_char(s@, c, from as int),
        from <= r <= s@.len(),
        r < s@.len() ==> s@[r as int] == c,
{
    let n = s.unicode_len();
    let mut i: usize = from;
    while i < n
        invariant
            n == s@.len(),
            from <= i <= n,
            find_char(s@, c, from as int) == find_char(s@, c, i as int),
        decreases n - i,
    {
        if s.get_char(i) == c {
            return i;
        }
        i = i + 1;
    }
    i
}

/// Parses one line into an item, or nothing when the line is blank or in
/// neither shape.
pub fn parse_line(line: &str) -> (r: Option<LineItem>)
    ensures
        match r {
            Some(item) => item_matches(item, parse_line_spec(line@)),
            None => parse_line_spec(line@) is Skip,
        },
{
    let n = line.unicode_len();
    if n > 2 && line.get_char(0) == '#' && line.get_char(1) == '#' && crate::strutil::char_is_ws(
        line.get_char(2),
    ) {
        let t = ws_end_exec(line, 2);
        let title = substr_string(line, t, n);
        return Some(LineItem::Section { title });
    }
    let a = ws_end_exec(line, 0);
    if a < n && (line.get_char(a) == '-' || line.get_char(a) == '*') {
        let b = ws_end_exec(line, a + 1);
        if b > a + 1 && n - b > 2 && line.get_char(b) == '[' && (line.get_char(b + 1) == ' '
            || line.get_char(b + 1) == 'x' || line.get_char(b + 1) == 'X') && line.get_char(b + 2)
            == ']' {
            let indent = substr_string(line, 0, a);
            let mut bullet = String::new();
            push_char(&mut bullet, line.get_char(a));
            let mark = line.get_char(b + 1);
            let completed = mark == 'x' || mark == 'X';
            let c = ws_end_exec(line, b + 3);
            let text = substr_string(line, c, n);
            proof {
                assert(bullet@ =~= seq![line@[a as int]]);
            }
            return Some(LineItem::Task(Task { indent, bullet, completed, text }));
        }
    }
    None
}

/// Removes every carriage return.
fn remove_cr(s: &str) -> (r: String)
    ensures
        r@ == strip_cr(s@),
{
    let n = s.unicode_len();
    let mut out = String::new();
    let mut i: usize = 0;
    proof {
        assert(s@.take(0) =~= Seq::<char>::empty());
        assert(Seq::<char>::empty().filter(|c: char| c != '\r') =~= Seq::<char>::empty());
    }
    while i < n
        invariant
            n == s@.len(),
            i <= n,
            out@ == s@.take(i as int).filter(|c: char| c != '\r'),
        decreases n - i,
    {
        let c = s.get_char(i);
        proof {
            assert(s@.take(i + 1).drop_last() =~= s@.take(i as int));
            assert(s@.take(i + 1).last() == s@[i as int]);
            reveal_with_fuel(Seq::filter, 2);
        }
        if c != '\r' {
            push_char(&mut out, c);
        }
        i = i + 1;
    }
    proof {
        assert(s@.take(n as int) =~= s@);
    }
    out
}

/// Parses a whole text into the document it denotes: carriage returns are
/// dropped, each line is parsed, and lines that parse to nothing are
/// discarded.
pub fn parse_lines(text: &str) -> (r: Vec<LineItem>)
    ensures
        r@.len() == parse_doc_spec(text@).len(),
        forall|k: int|
            0 <= k < r@.len() ==> item_matches(#[trigger] r@[k], parse_doc_spec(text@)[k]),
{
    let stripped = remove_cr(text);
    let s = stripped.as_str();
    let n = s.unicode_len();
    let mut out: Vec<LineItem> = Vec::new();
    let mut i: usize = 0;
    let ghost target = parsed_items(split_lines(s@));
    proof {
        assert(s@.skip(0) =~= s@);
    }
    loop
        invariant_except_break
            n == s@.len(),
            i <= n,
            target == parse_doc_spec(text@),
            out@.len() + parsed_items(split_lines(s@.skip(i as int))).len() == target.len(),
            forall|k: int| 0 <= k < out@.len() ==> item_matches(#[trigger] out@[k], target[k]),
            forall|k: int|
                0 <= k < parsed_items(split_lines(s@.skip(i as int))).len() ==> parsed_items(
                    split_lines(s@.skip(i as int)),
                )[k] == target[out@.len() + k],
        ensures
            out@.len() == target.len(),
            forall|k: int| 0 <= k < out@.len() ==> item_matches(#[trigger] out@[k], target[k]),
        decreases n - i,
    {
        let j = find_char_exec(s, '\n', i);
        let line = substr_string(s, i, j);
        proof {
            lemma_find_char_skip(s@, '\n', i as int, 0);
            assert(s@.skip(i as int).subrange(0, j - i) =~= s@.subrange(i as int, j as int));
            assert(parsed_items(Seq::<Seq<char>>::empty()) =~= Seq::<ParsedLine>::empty());
            if j < n {
                let lseq = s@.subrange(i as int, j as int);
                let rest = split_lines(s@.skip(j + 1));
                assert(s@.skip(i as int).skip(j - i + 1) =~= s@.skip(j + 1));
                assert(split_lines(s@.skip(i as int)) == seq![lseq] + rest);
                assert((seq![lseq] + rest)[0] == lseq);
                assert((seq![lseq] + rest).drop_first() =~= rest);
                assert(parsed_items(seq![lseq] + rest) == (match parse_line_spec(lseq) {
                    ParsedLine::Skip => Seq::<ParsedLine>::empty(),
                    p => seq![p],
                }) + parsed_items(rest));
                assert(Seq::<ParsedLine>::empty() + parsed_items(rest) =~= parsed_items(rest));
                assert(forall|q: ParsedLine| #![auto]
                    (seq![q] + parsed_items(rest)).drop_first() =~= parsed_items(rest));
            } else {
                let lseq = s@.skip(i as int);
                assert(s@.skip(i as int).subrange(0, j - i) =~= lseq);
                assert(split_lines(lseq) == seq![lseq]);
                assert(seq![lseq].drop_first() =~= Seq::<Seq<char>>::empty());
                assert(parsed_items(seq![lseq]) == (match parse_line_spec(lseq) {
                    ParsedLine::Skip => Seq::<ParsedLine>::empty(),
                    p => seq![p],
                }) + parsed_items(Seq::<Seq<char>>::empty()));
                assert(forall|q: ParsedLine| #![auto]
                    seq![q] + Seq::<ParsedLine>::empty() =~= seq![q]);
                assert(Seq::<ParsedLine>::empty() + Seq::<ParsedLine>::empty()
                    =~= Seq::<ParsedLine>::empty());
            }
        }
        let parsed = parse_line(line.as_str());
        proof {
            let sl = parsed_items(split_lines(s@.skip(i as int)));
            if sl.len() > 0 {
                assert(sl[0] == target[out@.len() as int]);
            }
        }
        match parsed {
            Some(item) => {
                out.push(item);
            },
            None => {},
        }
        if j == n {
            break ;
        }
        i = j + 1;
    }
    out
}

/// The first occurrence in a suffix sits where it sits in the whole.
pub proof fn lemma_find_char_skip(s: Seq<char>, c: char, base: int, i: int)
    requires
        0 <= base,
        0 <= i,
        base + i <= s.len(),
    ensures
        find_char(s.skip(base), c, i) == find_char(s, c, base + i) - base,
    decreases s.len() - base - i,
{
    if base + i < s.len() {
        assert(s.skip(base)[i] == s[base + i]);
        if s[base + i] != c {
            lemma_find_char_skip(s, c, base, i + 1);
        }
    }
}

/// Serializes the document: each item's line followed by a newline.
pub fn serialize_lines(lines: &Vec<LineItem>) -> (r: String)
    ensures
        r@ == serialize_spec(lines@),
{
    let n = lines.len();
    let mut out = String::new();
    let mut i: usize = 0;
    while i < n
        invariant
            n == lines@.len(),
            i <= n,
            out@ == serialize_spec(lines@.take(i as int)),
        decreases n - i,
    {
        let line = lines[i].line();
        out.append(line.as_str());
        push_char(&mut out, '\n');
        i = i + 1;
        proof {
            assert(lines@.take(i as int).drop_last() =~= lines@.take(i - 1));
            assert(lines@.take(i as int).last() == lines@[i - 1]);
            assert(out@ =~= serialize_spec(lines@.take(i as int)));
        }
    }
    proof {
        assert(lines@.take(n as int) =~= lines@);
    }
    out
}

} // verus!
