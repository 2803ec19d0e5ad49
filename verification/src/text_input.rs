//! A cursor-aware, boundary-safe editable text buffer with windowed,
//! cursor-following rendering. The cursor is a character index and is
//! always a valid boundary of the buffer.

use vstd::prelude::*;
use vstd::string::StrSliceExecFns;
use vstd::string::StringExecFns;

use crate::strutil::push_char;
use crate::strutil::substr_string;
use crate::width::cwidth;
use crate::width::lemma_width_take_step;
use crate::width::sat_width;
use crate::width::str_width;
use crate::width::width_spec;

verus! {

/// Minimal text input model for inline editing.
#[derive(Debug, Clone)]
pub struct TextInput {
    pub value: String,
    /// Character index of the cursor; always at most the length of `value`.
    pub cursor: usize,
}

/// One rendered cell of the block-cursor overlay: the character itself, or
/// the character wrapped in reverse-video markers when the cursor sits on it.
pub open spec fn block_cell(s: Seq<char>, cpos: int, j: int) -> Seq<char> {
    if j == cpos {
        "\u{1b}[7m"@ + seq![s[j]] + "\u{1b}[0m"@
    } else {
        seq![s[j]]
    }
}

/// The first `i` cells of the block-cursor overlay.
pub open spec fn block_prefix(s: Seq<char>, cpos: int, i: int) -> Seq<char>
    decreases i,
{
    if i <= 0 {
        Seq::<char>::empty()
    } else {
        block_prefix(s, cpos, i - 1) + block_cell(s, cpos, i - 1)
    }
}

/// The text with a reverse-video block cursor overlaid on the character at
/// `cpos`, or a trailing block appended when the cursor sits past the end.
pub open spec fn block_cursor_spec(s: Seq<char>, cpos: int, at_end: bool) -> Seq<char> {
    block_prefix(s, cpos, s.len() as int) + (if at_end && cpos >= s.len() {
        "\u{1b}[7m \u{1b}[0m"@
    } else {
        Seq::<char>::empty()
    })
}

/// The longest prefix whose columns fit in `budget`, stopping at the first
/// character that does not fit.
pub open spec fn width_prefix(s: Seq<char>, budget: int) -> Seq<char>
    decreases s.len(),
{
    if s.len() == 0 {
        s
    } else if cwidth(s[0]) <= budget {
        seq![s[0]] + width_prefix(s.drop_first(), budget - cwidth(s[0]))
    } else {
        Seq::<char>::empty()
    }
}

/// The string untouched when it fits in `width` columns, else its longest
/// fitting prefix.
pub open spec fn trim_width_spec(s: Seq<char>, width: int) -> Seq<char> {
    if sat_width(width_spec(s)) <= width {
        s
    } else {
        width_prefix(s, width)
    }
}

/// The rendered input: the placeholder when the buffer is empty, windowed to
/// `width` columns around the cursor, with a block cursor overlaid.
pub open spec fn view_spec(value: Seq<char>, cursor: int, placeholder: Seq<char>, width: int) -> Seq<
    char,
> {
    let content = if value.len() == 0 {
        placeholder
    } else {
        value
    };
    let cpos = if value.len() == 0 {
        0
    } else {
        cursor
    };
    if width == 0 {
        content
    } else {
        let count = content.len() as int;
        let start = if count <= width {
            0
        } else if cpos >= width {
            cpos - width
        } else {
            0
        };
        let end = if count <= width {
            count
        } else if start + width <= count {
            start + width
        } else {
            count
        };
        let visible = content.subrange(start, end);
        let shifted = if cpos >= start {
            cpos - start
        } else {
            0
        };
        let civ = if shifted <= visible.len() {
            shifted
        } else {
            visible.len() as int
        };
        let at_end = cpos >= count;
        trim_width_spec(block_cursor_spec(visible, civ, at_end), width)
    }
}

impl TextInput {
    pub open spec fn wf(self) -> bool {
        self.cursor <= self.value@.len()
    }

    /// An empty buffer with the cursor at the start.
    pub fn new() -> (r: TextInput)
        ensures
            r.value@ == Seq::<char>::empty(),
            r.cursor == 0,
            r.wf(),
    {
        TextInput { value: String::new(), cursor: 0 }
    }

    /// The buffered text.
    pub fn value(&self) -> (r: &str)
        ensures
            r@ == self.value@,
    {
        self.value.as_str()
    }

    /// Replaces the text; the cursor moves to the end.
    pub fn set_value(&mut self, value: String)
        ensures
            final(self).value == value,
            final(self).cursor == value@.len(),
            final(self).wf(),
    {
        let n = value.as_str().unicode_len();
        self.value = value;
        self.cursor = n;
    }

    /// Clears the text and the cursor.
    pub fn reset(&mut self)
        ensures
            final(self).value@ == Seq::<char>::empty(),
            final(self).cursor == 0,
            final(self).wf(),
    {
        self.value = String::new();
        self.cursor = 0;
    }

    /// Moves the cursor one character left; a no-op at the start.
    pub fn move_left(&mut self)
        requires
            old(self).wf(),
        ensures
            final(self).value == old(self).value,
            final(self).cursor == if old(self).cursor == 0 {
                0int
            } else {
                old(self).cursor - 1
            },
            final(self).wf(),
    {
        if self.cursor == 0 {
            return ;
        }
        self.cursor = self.cursor - 1;
    }

    /// Moves the cursor one character right; a no-op at the end.
    pub fn move_right(&mut self)
        requires
            old(self).wf(),
        ensures
            final(self).value == old(self).value,
            final(self).cursor == if old(self).cursor == old(self).value@.len() {
                old(self).cursor as int
            } else {
                old(self).cursor + 1
            },
            final(self).wf(),
    {
        let n = self.value.as_str().unicode_len();
        if self.cursor >= n {
            return ;
        }
        self.cursor = self.cursor + 1;
    }

    /// Moves the cursor to the start.
    pub fn move_home(&mut self)
        ensures
            final(self).value == old(self).value,
            final(self).cursor == 0,
            old(self).wf() ==> final(self).wf(),
    {
        self.cursor = 0;
    }

    /// Moves the cursor to the end.
    pub fn move_end(&mut self)
        ensures
            final(self).value == old(self).value,
            final(self).cursor == old(self).value@.len(),
            final(self).wf(),
    {
        self.cursor = self.value.as_str().unicode_len();
    }

    /// Inserts a character at the cursor; the cursor ends just after it,
    /// still at a valid boundary.
    pub fn insert_char(&mut self, ch: char)
        requires
            old(self).wf(),
            old(self).value@.len() < usize::MAX,
        ensures
            final(self).value@ == old(self).value@.insert(old(self).cursor as int, ch),
            final(self).cursor == old(self).cursor + 1,
            final(self).wf(),
    {
        let n = self.value.as_str().unicode_len();
        let mut out = substr_string(self.value.as_str(), 0, self.cursor);
        push_char(&mut out, ch);
        let tail = self.value.as_str().substring_char(self.cursor, n);
        out.append(tail);
        proof {
            assert(out@ =~= self.value@.insert(self.cursor as int, ch));
        }
        self.value = out;
        self.cursor = self.cursor + 1;
    }

    /// Removes the character before the cursor; a no-op at the start.
    pub fn backspace(&mut self)
        requires
            old(self).wf(),
        ensures
            old(self).cursor == 0 ==> *final(self) == *old(self),
            old(self).cursor > 0 ==> final(self).value@ == old(self).value@.remove(
                old(self).cursor - 1,
            ) && final(self).cursor == old(self).cursor - 1,
            final(self).wf(),
    {
        if self.cursor == 0 {
            return ;
        }
        let n = self.value.as_str().unicode_len();
        let mut out = substr_string(self.value.as_str(), 0, self.cursor - 1);
        let tail = self.value.as_str().substring_char(self.cursor, n);
        out.append(tail);
        proof {
            assert(out@ =~= self.value@.remove(self.cursor - 1));
        }
        self.value = out;
        self.cursor = self.cursor - 1;
    }

    /// Removes the character at the cursor; a no-op at the end.
    pub fn delete(&mut self)
        requires
            old(self).wf(),
        ensures
            old(self).cursor == old(self).value@.len() ==> *final(self) == *old(self),
            old(self).cursor < old(self).value@.len() ==> final(self).value@ == old(
                self,
            ).value@.remove(old(self).cursor as int) && final(self).cursor == old(self).cursor,
            final(self).wf(),
    {
        let n = self.value.as_str().unicode_len();
        if self.cursor >= n {
            return ;
        }
        let mut out = substr_string(self.value.as_str(), 0, self.cursor);
        let tail = self.value.as_str().substring_char(self.cursor + 1, n);
        out.append(tail);
        proof {
            assert(out@ =~= self.value@.remove(self.cursor as int));
        }
        self.value = out;
    }

    /// Renders the input with a block cursor, a placeholder when empty, and
    /// a window of `width` columns that follows the cursor.
    pub fn view(&self, placeholder: &str, width: usize) -> (r: String)
        requires
            self.wf(),
        ensures
            r@ == view_spec(self.value@, self.cursor as int, placeholder@, width as int),
    {
        let value_empty = self.value.as_str().unicode_len() == 0;
        let content: &str = if value_empty {
            placeholder
        } else {
            self.value.as_str()
        };
        let cpos: usize = if value_empty {
            0
        } else {
            self.cursor
        };
        if width == 0 {
            return String::from_str(content);
        }
        let count = content.unicode_len();
        let start: usize = if count <= width {
            0
        } else if cpos >= width {
            cpos - width
        } else {
            0
        };
        let end: usize = if count <= width {
            count
        } else if start <= count - width {
            start + width
        } else {
            count
        };
        let visible = substr_string(content, start, end);
        let shifted: usize = if cpos >= start {
            cpos - start
        } else {
            0
        };
        let vis_len = visible.as_str().unicode_len();
        let civ: usize = if shifted <= vis_len {
            shifted
        } else {
            vis_len
        };
        let at_end = cpos >= count;
        let decorated = apply_block_cursor(visible.as_str(), civ, at_end);
        trim_to_width(decorated.as_str(), width)
    }
}

/// Overlays a reverse-video block cursor on the character at `cursor_pos`,
/// or appends a trailing block when `at_end` holds and the position is past
/// the text.
pub fn apply_block_cursor(s: &str, cursor_pos: usize, at_end: bool) -> (r: String)
    ensures
        r@ == block_cursor_spec(s@, cursor_pos as int, at_end),
{
    let n = s.unicode_len();
    let mut out = String::new();
    let mut i: usize = 0;
    while i < n
        invariant
            n == s@.len(),
            i <= n,
            out@ == block_prefix(s@, cursor_pos as int, i as int),
        decreases n - i,
    {
        let ch = s.get_char(i);
        if i == cursor_pos {
            out.append("\u{1b}[7m");
            push_char(&mut out, ch);
            out.append("\u{1b}[0m");
        } else {
            push_char(&mut out, ch);
        }
        i = i + 1;
        proof {
            assert(out@ =~= block_prefix(s@, cursor_pos as int, i as int));
        }
    }
    if at_end && cursor_pos >= n {
        out.append("\u{1b}[7m \u{1b}[0m");
    }
    proof {
        assert(out@ =~= block_cursor_spec(s@, cursor_pos as int, at_end));
    }
    out
}

/// Truncates the string so its columns do not exceed `width`.
pub fn trim_to_width(s: &str, width: usize) -> (r: String)
    ensures
        r@ == trim_width_spec(s@, width as int),
{
    if str_width(s) <= width {
        return String::from_str(s);
    }
    let n = s.unicode_len();
    let mut out = String::new();
    let mut rem: usize = width;
    let mut i: usize = 0;
    proof {
        assert(s@.skip(0) =~= s@);
    }
    while i < n
        invariant
            n == s@.len(),
            i <= n,
            rem <= width,
            sat_width(width_spec(s@)) > width as int,
            width_prefix(s@, width as int) == out@ + width_prefix(
                s@.skip(i as int),
                rem as int,
            ),
        decreases n - i,
    {
        let ch = s.get_char(i);
        let cw = crate::width::char_width(ch);
        proof {
            assert(s@.skip(i as int)[0] == s@[i as int]);
            assert(s@.skip(i as int).drop_first() =~= s@.skip(i + 1));
        }
        if cw > rem {
            proof {
                assert(width_prefix(s@.skip(i as int), rem as int) =~= Seq::<char>::empty());
                assert(width_prefix(s@, width as int) =~= out@);
            }
            return out;
        }
        push_char(&mut out, ch);
        rem = rem - cw;
        i = i + 1;
        proof {
            assert(out@ + width_prefix(s@.skip(i as int), rem as int) =~= width_prefix(
                s@,
                width as int,
            ));
        }
    }
    proof {
        assert(s@.skip(n as int) =~= Seq::<char>::empty());
        assert(width_prefix(s@, width as int) =~= out@);
    }
    out
}

} // verus!
