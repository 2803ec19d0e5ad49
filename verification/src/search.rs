//! Incremental search filtering: which rows are visible under the active
//! query, and how the cursor follows the visible set.
//!
//! A task is visible when its text contains the query as an exact,
//! case-sensitive substring; a section is visible exactly once if any task
//! after it (and before the next section) matches. With no query, or while
//! editing, everything is visible.

use vstd::prelude::*;
use vstd::string::StrSliceExecFns;

use crate::model::App;
use crate::model::LineItem;
use crate::model::Mode;
use crate::strutil::contains_spec;
use crate::strutil::str_contains;

verus! {

/// The visible indices from position `i` on, given the pending section
/// `cur` and whether that section is already included.
pub open spec fn vis_from(
    lines: Seq<LineItem>,
    query: Seq<char>,
    i: int,
    cur: Option<usize>,
    inc: bool,
) -> Seq<usize>
    decreases lines.len() - i,
{
    if i < 0 || i >= lines.len() {
        Seq::<usize>::empty()
    } else if lines[i].is_section_spec() {
        vis_from(lines, query, i + 1, Some(i as usize), false)
    } else if contains_spec(lines[i].task_spec().text@, query) {
        match cur {
            Some(s) => if !inc {
            seq![s, i as usize] + vis_from(lines, query, i + 1, cur, true)
        } else {
            seq![i as usize] + vis_from(lines, query, i + 1, cur, true)
        },
            None => seq![i as usize] + vis_from(lines, query, i + 1, cur, inc),
        }
    } else {
        vis_from(lines, query, i + 1, cur, inc)
    }
}

/// The ordered set of row indices visible under the session's query: all
/// of them with no query or while editing, else the matching tasks and
/// their sections.
pub open spec fn visible_indices_spec(a: App) -> Seq<usize> {
    if a.mode == Mode::Edit || a.search_input.value@.len() == 0 {
        Seq::new(a.lines@.len(), |k: int| k as usize)
    } else {
        vis_from(a.lines@, a.search_input.value@, 0, None, false)
    }
}

/// Every element of `s` is an index below `n`.
pub open spec fn all_below(s: Seq<usize>, n: int) -> bool {
    forall|k: int| 0 <= k < s.len() ==> (s[k] as int) < n
}

/// Every index `vis_from` yields addresses an item of the document.
pub proof fn lemma_vis_from_bounds(
    lines: Seq<LineItem>,
    query: Seq<char>,
    i: int,
    cur: Option<usize>,
    inc: bool,
)
    requires
        cur matches Some(s) ==> s < lines.len(),
    ensures
        all_below(vis_from(lines, query, i, cur, inc), lines.len() as int),
    decreases lines.len() - i,
{
    let whole = vis_from(lines, query, i, cur, inc);
    if i < 0 || i >= lines.len() {
    } else if lines[i].is_section_spec() {
        lemma_vis_from_bounds(lines, query, i + 1, Some(i as usize), false);
        let rest = vis_from(lines, query, i + 1, Some(i as usize), false);
        assert forall|k: int| 0 <= k < whole.len() implies (whole[k] as int) < lines.len() by {
            assert(whole[k] == rest[k]);
        }
    } else if contains_spec(lines[i].task_spec().text@, query) {
        lemma_vis_from_bounds(lines, query, i + 1, cur, true);
        lemma_vis_from_bounds(lines, query, i + 1, cur, inc);
        let rest_t = vis_from(lines, query, i + 1, cur, true);
        let rest_i = vis_from(lines, query, i + 1, cur, inc);
        assert forall|k: int| 0 <= k < whole.len() implies (whole[k] as int) < lines.len() by {
            match cur {
                Some(s) => {
                    if !inc {
                        if k >= 2 {
                            assert(whole[k] == rest_t[k - 2]);
                        }
                    } else {
                        if k >= 1 {
                            assert(whole[k] == rest_t[k - 1]);
                        }
                    }
                },
                None => {
                    if k >= 1 {
                        assert(whole[k] == rest_i[k - 1]);
                    }
                },
            }
        }
    } else {
        lemma_vis_from_bounds(lines, query, i + 1, cur, inc);
        let rest = vis_from(lines, query, i + 1, cur, inc);
        assert forall|k: int| 0 <= k < whole.len() implies (whole[k] as int) < lines.len() by {
            assert(whole[k] == rest[k]);
        }
    }
}

/// Each scanned item contributes at most two visible indices.
pub proof fn lemma_vis_from_len(
    lines: Seq<LineItem>,
    query: Seq<char>,
    i: int,
    cur: Option<usize>,
    inc: bool,
)
    requires
        i <= lines.len(),
    ensures
        vis_from(lines, query, i, cur, inc).len() <= 2 * (lines.len() - i),
    decreases lines.len() - i,
{
    if i < 0 || i >= lines.len() {
    } else if lines[i].is_section_spec() {
        lemma_vis_from_len(lines, query, i + 1, Some(i as usize), false);
    } else {
        lemma_vis_from_len(lines, query, i + 1, cur, true);
        lemma_vis_from_len(lines, query, i + 1, cur, inc);
    }
}

/// The first index in `s` that addresses a task.
pub open spec fn first_visible_task(lines: Seq<LineItem>, s: Seq<usize>) -> Option<usize>
    decreases s.len(),
{
    if s.len() == 0 {
        None
    } else if lines[s[0] as int].is_task_spec() {
        Some(s[0])
    } else {
        first_visible_task(lines, s.drop_first())
    }
}

/// Where the cursor lands when forced into the visible set: itself when
/// already visible, else the first visible task, else the first visible
/// index.
pub open spec fn visible_target(lines: Seq<LineItem>, vis: Seq<usize>, cursor: usize) -> usize
    recommends
        vis.len() > 0,
{
    if vis.contains(cursor) {
        cursor
    } else {
        match first_visible_task(lines, vis) {
            Some(t) => t,
            None => vis[0],
        }
    }
}

/// The first position of `x` in `s`; meaningful only when `x` occurs.
pub open spec fn first_pos(s: Seq<usize>, x: usize) -> int
    decreases s.len(),
{
    if s.len() == 0 {
        0
    } else if s[0] == x {
        0
    } else {
        1 + first_pos(s.drop_first(), x)
    }
}

proof fn lemma_first_pos_of(s: Seq<usize>, x: usize, j: int)
    requires
        0 <= j < s.len(),
        s[j] == x,
        forall|k: int| 0 <= k < j ==> s[k] != x,
    ensures
        first_pos(s, x) == j,
    decreases j,
{
    if j > 0 {
        assert(s.drop_first()[j - 1] == s[j]);
        assert forall|k: int| 0 <= k < j - 1 implies s.drop_first()[k] != x by {
            assert(s.drop_first()[k] == s[k + 1]);
        }
        lemma_first_pos_of(s.drop_first(), x, j - 1);
    }
}

/// A position shifted by `delta` and clamped into `[0, len-1]`.
pub open spec fn moved_pos(pos: int, delta: int, len: int) -> int {
    if delta < 0 {
        if pos + delta < 0 {
            0
        } else {
            pos + delta
        }
    } else {
        if pos + delta > len - 1 {
            len - 1
        } else {
            pos + delta
        }
    }
}

/// The first position of `x` in the vector, if it occurs.
pub fn find_pos(v: &Vec<usize>, x: usize) -> (r: Option<usize>)
    ensures
        match r {
            Some(p) => p < v@.len() && v@[p as int] == x && p as int == first_pos(v@, x)
                && v@.contains(x),
            None => !v@.contains(x),
        },
{
    let n = v.len();
    let mut j: usize = 0;
    while j < n
        invariant
            n == v@.len(),
            j <= n,
            forall|k: int| 0 <= k < j ==> v@[k] != x,
        decreases n - j,
    {
        if v[j] == x {
            proof {
                lemma_first_pos_of(v@, x, j as int);
            }
            return Some(j);
        }
        j = j + 1;
    }
    proof {
        assert forall|k: int| 0 <= k < v@.len() implies v@[k] != x by {}
    }
    None
}

/// When a search is active (and not editing), the cursor was forced into
/// the visible set: left alone when visible, else moved to the first
/// visible task, else the first visible index, else zero.
pub open spec fn cursor_search_fixed(pre: App, post: App) -> bool {
    &&& (pre.mode == Mode::Edit || pre.search_input.value@.len() == 0 ==> post == pre)
    &&& (!(pre.mode == Mode::Edit || pre.search_input.value@.len() == 0) ==> ({
        let vis = visible_indices_spec(pre);
        &&& (vis.len() == 0 ==> post == (App { cursor: 0, ..pre }))
        &&& (vis.len() > 0 && vis.contains(pre.cursor) ==> post == pre)
        &&& (vis.len() > 0 && !vis.contains(pre.cursor) ==> post == (App {
            cursor: post.cursor,
            ..pre
        }) && post.cursor == visible_target(pre.lines@, vis, pre.cursor))
    }))
}

/// The cursor stepped `delta` rows through the visible list, clamped at
/// both ends, after being forced into the visible set.
pub open spec fn cursor_moved_visible(pre: App, post: App, delta: int) -> bool {
    let vis = visible_indices_spec(pre);
    &&& (vis.len() == 0 ==> post == pre)
    &&& (vis.len() > 0 ==> post == (App { cursor: post.cursor, ..pre }) && post.cursor
        == vis[moved_pos(
        first_pos(vis, visible_target(pre.lines@, vis, pre.cursor)),
        delta,
        vis.len() as int,
    )])
}

/// The cursor jumped to the first visible row, if any row is visible.
pub open spec fn cursor_moved_first(pre: App, post: App) -> bool {
    let vis = visible_indices_spec(pre);
    &&& (vis.len() == 0 ==> post == pre)
    &&& (vis.len() > 0 ==> post == (App { cursor: post.cursor, ..pre }) && post.cursor == vis[0])
}

/// The cursor jumped to the last visible row, if any row is visible.
pub open spec fn cursor_moved_last(pre: App, post: App) -> bool {
    let vis = visible_indices_spec(pre);
    &&& (vis.len() == 0 ==> post == pre)
    &&& (vis.len() > 0 ==> post == (App { cursor: post.cursor, ..pre }) && post.cursor
        == vis.last())
}

impl App {
    /// The active search query.
    pub fn search_query(&self) -> (r: &str)
        ensures
            r@ == self.search_input.value@,
    {
        self.search_input.value()
    }

    /// Whether a search query is active.
    pub fn search_active(&self) -> (r: bool)
        ensures
            r == (self.search_input.value@.len() > 0),
    {
        self.search_input.value().unicode_len() > 0
    }

    /// The ordered row indices visible under the active query.
    pub fn visible_indices(&self) -> (r: Vec<usize>)
        ensures
            r@ == visible_indices_spec(*self),
            forall|k: int| 0 <= k < r@.len() ==> (r@[k] as int) < self.lines@.len(),
            r@.len() <= 2 * self.lines@.len(),
    {
        proof {
            lemma_vis_from_len(self.lines@, self.search_input.value@, 0, None, false);
        }
        let n = self.lines.len();
        let mut out: Vec<usize> = Vec::new();
        if matches!(self.mode, Mode::Edit) || !self.search_active() {
            let mut i: usize = 0;
            while i < n
                invariant
                    n == self.lines@.len(),
                    i <= n,
                    out@ == Seq::new(i as nat, |k: int| k as usize),
                decreases n - i,
            {
                out.push(i);
                i = i + 1;
                proof {
                    assert(out@ =~= Seq::new(i as nat, |k: int| k as usize));
                }
            }
            proof {
                assert(out@ =~= visible_indices_spec(*self));
            }
            return out;
        }
        let query = self.search_input.value();
        let mut cur: Option<usize> = None;
        let mut inc: bool = false;
        let mut i: usize = 0;
        while i < n
            invariant
                n == self.lines@.len(),
                i <= n,
                cur matches Some(s) ==> s < n,
                self.mode != Mode::Edit,
                self.search_input.value@.len() > 0,
                query@ == self.search_input.value@,
                visible_indices_spec(*self) == out@ + vis_from(
                    self.lines@,
                    query@,
                    i as int,
                    cur,
                    inc,
                ),
            decreases n - i,
        {
            match &self.lines[i] {
                LineItem::Section { .. } => {
                    cur = Some(i);
                    inc = false;
                },
                LineItem::Task(task) => {
                    if str_contains(task.text.as_str(), query) {
                        match cur {
                            Some(s) => {
                                if !inc {
                                    out.push(s);
                                    inc = true;
                                }
                            },
                            None => {},
                        }
                        out.push(i);
                    }
                },
            }
            i = i + 1;
            proof {
                assert(visible_indices_spec(*self) =~= out@ + vis_from(
                    self.lines@,
                    query@,
                    i as int,
                    cur,
                    inc,
                ));
            }
        }
        proof {
            assert(visible_indices_spec(*self) =~= out@);
            lemma_vis_from_bounds(self.lines@, query@, 0, None, false);
        }
        out
    }

    /// Moves the cursor into the given visible set unless it is already
    /// there: to the first visible task, else the first visible index, or
    /// to zero when nothing is visible.
    pub fn ensure_cursor_visible_in(&mut self, indices: &Vec<usize>)
        requires
            old(self).wf(),
            forall|k: int| 0 <= k < indices@.len() ==> (indices@[k] as int) < old(
                self,
            ).lines@.len(),
        ensures
            final(self).wf(),
            indices@.len() == 0 ==> *final(self) == (App { cursor: 0, ..*old(self) }),
            indices@.len() > 0 && indices@.contains(old(self).cursor) ==> *final(self) == *old(
                self,
            ),
            indices@.len() > 0 && !indices@.contains(old(self).cursor) ==> *final(self) == (App {
                cursor: final(self).cursor,
                ..*old(self)
            }) && final(self).cursor == visible_target(
                old(self).lines@,
                indices@,
                old(self).cursor,
            ),
    {
        let n = indices.len();
        if n == 0 {
            self.cursor = 0;
            return ;
        }
        match find_pos(indices, self.cursor) {
            Some(_) => {
                return ;
            },
            None => {},
        }
        let mut j: usize = 0;
        proof {
            assert(indices@.skip(0) =~= indices@);
        }
        while j < n
            invariant
                *self == *old(self),
                old(self).wf(),
                n == indices@.len(),
                n > 0,
                j <= n,
                !indices@.contains(old(self).cursor),
                forall|k: int| 0 <= k < indices@.len() ==> (indices@[k] as int)
                    < self.lines@.len(),
                first_visible_task(self.lines@, indices@) == first_visible_task(
                    self.lines@,
                    indices@.skip(j as int),
                ),
            decreases n - j,
        {
            proof {
                assert(indices@.skip(j as int)[0] == indices@[j as int]);
                assert(indices@.skip(j as int).drop_first() =~= indices@.skip(j + 1));
            }
            if self.lines[indices[j]].is_task() {
                self.cursor = indices[j];
                return ;
            }
            j = j + 1;
        }
        self.cursor = indices[0];
    }

    /// Moves the cursor into the visible set when a search is active.
    pub fn ensure_cursor_visible_for_search(&mut self)
        requires
            old(self).wf(),
        ensures
            final(self).wf(),
            cursor_search_fixed(*old(self), *final(self)),
    {
        if matches!(self.mode, Mode::Edit) || !self.search_active() {
            return ;
        }
        let indices = self.visible_indices();
        self.ensure_cursor_visible_in(&indices);
    }

    /// Moves the cursor `delta` steps through the visible row list,
    /// clamped at both ends; first forces the cursor into the visible set.
    pub fn move_cursor_visible(&mut self, delta: isize)
        requires
            old(self).wf(),
        ensures
            final(self).wf(),
            cursor_moved_visible(*old(self), *final(self), delta as int),
    {
        let indices = self.visible_indices();
        let n = indices.len();
        if n == 0 {
            return ;
        }
        self.ensure_cursor_visible_in(&indices);
        let pos = match find_pos(&indices, self.cursor) {
            Some(p) => p,
            None => {
                proof {
                    lemma_visible_target_in(old(self).lines@, indices@, old(self).cursor);
                }
                return ;
            },
        };
        let new_pos: usize = if delta < 0 {
            let mag: usize = if delta == isize::MIN {
                (isize::MAX as usize) + 1
            } else {
                (-delta) as usize
            };
            if mag > pos {
                0
            } else {
                pos - mag
            }
        } else {
            let d = delta as usize;
            if d > n - 1 - pos {
                n - 1
            } else {
                pos + d
            }
        };
        self.cursor = indices[new_pos];
    }

    /// Moves the cursor to the first visible row.
    pub fn move_cursor_to_visible_first(&mut self)
        requires
            old(self).wf(),
        ensures
            final(self).wf(),
            cursor_moved_first(*old(self), *final(self)),
    {
        let indices = self.visible_indices();
        if indices.len() > 0 {
            self.cursor = indices[0];
        }
    }

    /// Moves the cursor to the last visible row.
    pub fn move_cursor_to_visible_last(&mut self)
        requires
            old(self).wf(),
        ensures
            final(self).wf(),
            cursor_moved_last(*old(self), *final(self)),
    {
        let indices = self.visible_indices();
        if indices.len() > 0 {
            self.cursor = indices[indices.len() - 1];
        }
    }
}

/// The forced cursor target is itself a member of the visible set.
proof fn lemma_visible_target_in(lines: Seq<LineItem>, vis: Seq<usize>, cursor: usize)
    requires
        vis.len() > 0,
    ensures
        vis.contains(visible_target(lines, vis, cursor)),
{
    if !vis.contains(cursor) {
        match first_visible_task(lines, vis) {
            Some(t) => {
                lemma_first_visible_task_in(lines, vis);
            },
            None => {
                assert(vis.contains(vis[0]));
            },
        }
    }
}

/// A first visible task, when there is one, is a member of the set.
proof fn lemma_first_visible_task_in(lines: Seq<LineItem>, vis: Seq<usize>)
    requires
        first_visible_task(lines, vis) is Some,
    ensures
        vis.contains(first_visible_task(lines, vis)->0),
    decreases vis.len(),
{
    if vis.len() > 0 {
        if lines[vis[0] as int].is_task_spec() {
            assert(vis.contains(vis[0]));
        } else {
            lemma_first_visible_task_in(lines, vis.drop_first());
            let t = first_visible_task(lines, vis.drop_first())->0;
            let k = choose|k: int| 0 <= k < vis.drop_first().len() && vis.drop_first()[k] == t;
            assert(vis[k + 1] == t);
        }
    }
}

} // verus!
