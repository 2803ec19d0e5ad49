//! The discrete-event core: one key press in, one state transition out.
//! Each handler's contract spells out, key by key, exactly which fields
//! change and how; everything the caller must then do (save, reload, run
//! an external editor) is signalled through the request flags.

use vstd::prelude::*;
use vstd::string::StrSliceExecFns;
use vstd::string::StringExecFns;

use crate::edit::clamp_index_spec;
use crate::edit::edit_committed;
use crate::edit::edit_current_started;
use crate::edit::exited_edit_from;
use crate::edit::indent_changed;
use crate::edit::started_section_insert;
use crate::edit::started_task_insert;
use crate::history::redone;
use crate::history::undone;
use crate::keys::Key;
use crate::model::App;
use crate::model::EditIntent;
use crate::model::EditTarget;
use crate::model::LineItem;
use crate::model::Mode;
use crate::model::Task;
use crate::search::cursor_moved_first;
use crate::search::cursor_moved_last;
use crate::search::cursor_moved_visible;
use crate::search::cursor_search_fixed;
use crate::search::visible_indices_spec;
use crate::search::visible_target;
use crate::session::deleted_line;
use crate::session::external_edit_started;
use crate::session::selection_range_spec;
use crate::strutil::blank_spec;
use crate::strutil::dec_str;
use crate::strutil::is_blank;
use crate::strutil::str_eq;
use crate::strutil::usize_to_string;

verus! {

/// The item with its completion flipped when it is a task, itself
/// otherwise.
pub open spec fn toggle_flip(item: LineItem) -> LineItem {
    match item {
        LineItem::Task(t) => LineItem::Task(
            Task { indent: t.indent, bullet: t.bullet, completed: !t.completed, text: t.text },
        ),
        LineItem::Section { title } => LineItem::Section { title },
    }
}

/// The document with every task in `[lo, hi]` flipped.
pub open spec fn toggled_range(lines: Seq<LineItem>, lo: int, hi: int) -> Seq<LineItem> {
    Seq::new(
        lines.len(),
        |k: int|
            if lo <= k <= hi {
                toggle_flip(lines[k])
            } else {
                lines[k]
            },
    )
}

/// How many tasks lie in `[lo, hi]`.
pub open spec fn tasks_in_range(lines: Seq<LineItem>, lo: int, hi: int) -> nat
    decreases hi + 1 - lo,
{
    if !(0 <= lo <= hi < lines.len()) {
        0
    } else {
        tasks_in_range(lines, lo, hi - 1) + if lines[hi].is_task_spec() {
            1nat
        } else {
            0nat
        }
    }
}

/// The index of the last task in `[lo, hi]`, if any.
pub open spec fn last_task_in(lines: Seq<LineItem>, lo: int, hi: int) -> Option<int>
    decreases hi + 1 - lo,
{
    if !(0 <= lo <= hi < lines.len()) {
        None
    } else if lines[hi].is_task_spec() {
        Some(hi)
    } else {
        last_task_in(lines, lo, hi - 1)
    }
}

/// The status message a toggle over `[lo, hi]` reports: the new state of a
/// single toggled task, or the count of several.
pub open spec fn toggle_status(lines: Seq<LineItem>, lo: int, hi: int) -> Seq<char> {
    let count = tasks_in_range(lines, lo, hi);
    if count == 1 {
        match last_task_in(lines, lo, hi) {
            Some(t) => if !lines[t].task_spec().completed {
                "Marked Completed"@
            } else {
                "Marked Incomplete"@
            },
            None => "Marked Incomplete"@,
        }
    } else {
        "Toggled "@ + dec_str(count) + " tasks"@
    }
}

/// Completion was toggled for the task under the cursor, or for every task
/// in the selection, each flipped independently; the selection is cleared,
/// a save requested, and a count or the new state reported. Under an
/// active filter the cursor is first forced into the visible set, and with
/// no visible match nothing is toggled.
pub open spec fn toggled_tasks(pre: App, post: App) -> bool {
    &&& (pre.lines@.len() == 0 ==> post == pre)
    &&& (pre.lines@.len() > 0 ==> ({
        let filtered = pre.search_input.value@.len() > 0 && pre.mode != Mode::Edit;
        let vis = visible_indices_spec(pre);
        if filtered && vis.len() == 0 {
            post == (App { status_message: post.status_message, ..pre }) && post.status_message@
                == "No matches"@
        } else {
            let c = if filtered && !vis.contains(pre.cursor) {
                visible_target(pre.lines@, vis, pre.cursor)
            } else {
                pre.cursor
            };
            if pre.selection_active {
                match selection_range_spec(App { cursor: c, ..pre }) {
                    Some(r) => {
                        let count = tasks_in_range(pre.lines@, r.0, r.1);
                        if count == 0 {
                            post == (App {
                                lines: post.lines,
                                cursor: c,
                                selection_active: false,
                                ..pre
                            }) && post.lines@ == pre.lines@
                        } else {
                            &&& post == (App {
                                lines: post.lines,
                                cursor: c,
                                selection_active: false,
                                pending_save: true,
                                pending_save_message: post.pending_save_message,
                                ..pre
                            })
                            &&& post.lines@ == toggled_range(pre.lines@, r.0, r.1)
                            &&& post.pending_save_message@ == toggle_status(pre.lines@, r.0, r.1)
                        }
                    },
                    None => post == (App { cursor: c, selection_active: false, ..pre }),
                }
            } else {
                if c < pre.lines@.len() && pre.lines@[c as int].is_task_spec() {
                    &&& post == (App {
                        lines: post.lines,
                        cursor: c,
                        pending_save: true,
                        pending_save_message: post.pending_save_message,
                        ..pre
                    })
                    &&& post.lines@ == toggled_range(pre.lines@, c as int, c as int)
                    &&& post.pending_save_message@ == toggle_status(pre.lines@, c as int, c as int)
                } else {
                    post == (App { cursor: c, ..pre })
                }
            }
        }
    }))
}

/// A range that counts no tasks holds none, so flipping it changes
/// nothing.
proof fn lemma_no_tasks_in_range(lines: Seq<LineItem>, lo: int, hi: int)
    requires
        lo >= 0,
        hi < lines.len(),
        tasks_in_range(lines, lo, hi) == 0,
    ensures
        forall|j: int| lo <= j <= hi ==> !lines[j].is_task_spec(),
    decreases hi + 1 - lo,
{
    if 0 <= lo <= hi {
        lemma_no_tasks_in_range(lines, lo, hi - 1);
    }
}

impl App {
    /// Toggles completion of the task under the cursor, or of every task
    /// in the active selection.
    pub fn toggle_tasks(&mut self)
        requires
            old(self).wf(),
        ensures
            final(self).wf(),
            toggled_tasks(*old(self), *final(self)),
    {
        if self.lines.len() == 0 {
            return ;
        }
        if self.search_active() && !matches!(self.mode, Mode::Edit) {
            let indices = self.visible_indices();
            if indices.len() == 0 {
                self.status_message = String::from_str("No matches");
                return ;
            }
            self.ensure_cursor_visible_in(&indices);
        }
        let ghost c = self.cursor;
        let mut count: usize = 0;
        let mut last_toggled: Option<bool> = None;
        if self.selection_active {
            match self.selection_range() {
                Some(p) => {
                    let (start, end) = p;
                    let ghost pre_toggle = self.lines@;
                    let n = self.lines.len();
                    let mut k: usize = start;
                    proof {
                        assert(self.lines@ =~= toggled_range(
                            pre_toggle,
                            start as int,
                            start - 1,
                        ));
                    }
                    while k <= end
                        invariant
                            self.wf(),
                            *self == (App { lines: self.lines, cursor: self.cursor, ..*old(self) }),
                            self.cursor == c,
                            start <= k <= end + 1,
                            end < n,
                            n == self.lines@.len(),
                            pre_toggle == old(self).lines@,
                            self.lines@ == toggled_range(pre_toggle, start as int, k - 1),
                            count as nat == tasks_in_range(pre_toggle, start as int, k - 1),
                            count <= k,
                            match last_task_in(pre_toggle, start as int, k - 1) {
                                Some(t) => last_toggled == Some(
                                    !pre_toggle[t].task_spec().completed,
                                ),
                                None => last_toggled is None,
                            },
                        decreases end + 1 - k,
                    {
                        let item = self.lines[k].clone_item();
                        if let LineItem::Task(t) = item {
                            self.lines[k] = LineItem::Task(
                                Task {
                                    indent: t.indent,
                                    bullet: t.bullet,
                                    completed: !t.completed,
                                    text: t.text,
                                },
                            );
                            count = count + 1;
                            last_toggled = Some(!t.completed);
                        }
                        k = k + 1;
                        proof {
                            assert(self.lines@ =~= toggled_range(
                                pre_toggle,
                                start as int,
                                k - 1,
                            ));
                        }
                    }
                    proof {
                        if count == 0 {
                            lemma_no_tasks_in_range(pre_toggle, start as int, end as int);
                            assert(self.lines@ =~= pre_toggle);
                        }
                    }
                },
                None => {},
            }
            self.selection_active = false;
        } else if self.cursor < self.lines.len() {
            let item = self.lines[self.cursor].clone_item();
            if let LineItem::Task(t) = item {
                self.lines[self.cursor] = LineItem::Task(
                    Task {
                        indent: t.indent,
                        bullet: t.bullet,
                        completed: !t.completed,
                        text: t.text,
                    },
                );
                count = 1;
                last_toggled = Some(!t.completed);
                proof {
                    assert(self.lines@ =~= toggled_range(
                        old(self).lines@,
                        c as int,
                        c as int,
                    ));
                    assert(tasks_in_range(old(self).lines@, c as int, c - 1) == 0);
                    assert(tasks_in_range(old(self).lines@, c as int, c as int) == 1);
                }
            }
        }
        if count == 0 {
            return ;
        }
        if count == 1 {
            let done = match last_toggled {
                Some(b) => b,
                None => false,
            };
            if done {
                self.save_and_set_status("Marked Completed");
            } else {
                self.save_and_set_status("Marked Incomplete");
            }
        } else {
            let mut msg = String::from_str("Toggled ");
            let num = usize_to_string(count);
            msg.append(num.as_str());
            msg.append(" tasks");
            proof {
                assert(msg@ =~= "Toggled "@ + dec_str(count as nat) + " tasks"@);
            }
            self.save_and_set_status(msg.as_str());
        }
    }
}

/// What one key does in edit mode. `Esc` commits non-blank input and
/// leaves; `Enter` commits and, for a task, re-arms a fresh insert just
/// below; `Tab` and `BackTab` cycle the indent; the rest edits the input
/// buffer.
pub open spec fn edit_key_handled(pre: App, post: App, key: Key) -> bool {
    match key {
        Key::Esc => ({
            let raw = pre.text_input.value@;
            if blank_spec(raw) {
                exited_edit_from(pre, post)
            } else {
                exists|mid: App|
                    {
                        &&& #[trigger] edit_committed(pre, mid, raw)
                        &&& post.pending_save_message@ == "Saved"@
                        &&& exited_edit_from(
                            App {
                                pending_save: true,
                                pending_save_message: post.pending_save_message,
                                ..mid
                            },
                            post,
                        )
                    }
            }
        }),
        Key::Enter => ({
            let raw = pre.text_input.value@;
            if blank_spec(raw) {
                exited_edit_from(pre, post)
            } else {
                exists|mid: App|
                    {
                        &&& #[trigger] edit_committed(pre, mid, raw)
                        &&& post.pending_save_message@ == Seq::<char>::empty()
                        &&& if pre.edit_target == EditTarget::Task {
                            &&& post == (App {
                                insert_index: Some(post.cursor),
                                edit_index: Some(post.cursor),
                                edit_intent: EditIntent::Insert,
                                cursor: post.cursor,
                                text_input: post.text_input,
                                pending_save: true,
                                pending_save_message: post.pending_save_message,
                                ..mid
                            })
                            &&& post.cursor as int == clamp_index_spec(
                                mid.cursor + 1,
                                mid.lines@.len() as int,
                            )
                            &&& post.text_input.value@ == Seq::<char>::empty()
                            &&& post.text_input.cursor == 0
                        } else {
                            exited_edit_from(
                                App {
                                    pending_save: true,
                                    pending_save_message: post.pending_save_message,
                                    ..mid
                                },
                                post,
                            )
                        }
                    }
            }
        }),
        Key::Tab => indent_changed(pre, post, 1),
        Key::BackTab => indent_changed(pre, post, -1),
        Key::Char(c) => if pre.text_input.value@.len() < usize::MAX {
            &&& post == (App { text_input: post.text_input, ..pre })
            &&& post.text_input.value@ == pre.text_input.value@.insert(
                pre.text_input.cursor as int,
                c,
            )
            &&& post.text_input.cursor == pre.text_input.cursor + 1
        } else {
            post == pre
        },
        Key::Backspace => {
            &&& (pre.text_input.cursor == 0 ==> post == pre)
            &&& (pre.text_input.cursor > 0 ==> post == (App {
                text_input: post.text_input,
                ..pre
            }) && post.text_input.value@ == pre.text_input.value@.remove(
                pre.text_input.cursor - 1,
            ) && post.text_input.cursor == pre.text_input.cursor - 1)
        },
        Key::Delete => {
            &&& (pre.text_input.cursor == pre.text_input.value@.len() ==> post == pre)
            &&& (pre.text_input.cursor < pre.text_input.value@.len() ==> post == (App {
                text_input: post.text_input,
                ..pre
            }) && post.text_input.value@ == pre.text_input.value@.remove(
                pre.text_input.cursor as int,
            ) && post.text_input.cursor == pre.text_input.cursor)
        },
        Key::Left => {
            &&& post == (App { text_input: post.text_input, ..pre })
            &&& post.text_input.value == pre.text_input.value
            &&& post.text_input.cursor as int == if pre.text_input.cursor == 0 {
                0int
            } else {
                pre.text_input.cursor - 1
            }
        },
        Key::Right => {
            &&& post == (App { text_input: post.text_input, ..pre })
            &&& post.text_input.value == pre.text_input.value
            &&& post.text_input.cursor as int == if pre.text_input.cursor
                == pre.text_input.value@.len() {
                pre.text_input.cursor as int
            } else {
                pre.text_input.cursor + 1
            }
        },
        Key::Home => {
            &&& post == (App { text_input: post.text_input, ..pre })
            &&& post.text_input.value == pre.text_input.value
            &&& post.text_input.cursor == 0
        },
        Key::End => {
            &&& post == (App { text_input: post.text_input, ..pre })
            &&& post.text_input.value == pre.text_input.value
            &&& post.text_input.cursor == pre.text_input.value@.len()
        },
        _ => post == pre,
    }
}

/// An undo ran, and a successful one asked the caller to persist the
/// restored document.
pub open spec fn undo_chain(pre: App, post: App) -> bool {
    exists|mid: App|
        {
            &&& #[trigger] undone(pre, mid)
            &&& if mid.status_message@ == "Undo"@ {
                post == (App {
                    pending_save: true,
                    pending_save_message: post.pending_save_message,
                    ..mid
                }) && post.pending_save_message@ == "Undo"@
            } else {
                post == mid
            }
        }
}

/// A redo ran, and a successful one asked the caller to persist the
/// restored document.
pub open spec fn redo_chain(pre: App, post: App) -> bool {
    exists|mid: App|
        {
            &&& #[trigger] redone(pre, mid)
            &&& if mid.status_message@ == "Redo"@ {
                post == (App {
                    pending_save: true,
                    pending_save_message: post.pending_save_message,
                    ..mid
                }) && post.pending_save_message@ == "Redo"@
            } else {
                post == mid
            }
        }
}

/// Search mode was entered: any previous query gains a literal slash, an
/// inactive one starts empty, and the cursor is forced into the visible
/// set.
pub open spec fn search_entered(pre: App, post: App) -> bool {
    &&& (if pre.search_input.value@.len() > 0 {
        if pre.search_input.value@.len() < usize::MAX {
            post.search_input.value@ == pre.search_input.value@.insert(
                pre.search_input.cursor as int,
                '/',
            ) && post.search_input.cursor == pre.search_input.cursor + 1
        } else {
            post.search_input == pre.search_input
        }
    } else {
        post.search_input.value@ == Seq::<char>::empty() && post.search_input.cursor == 0
    })
    &&& cursor_search_fixed(
        App {
            mode: Mode::Search,
            selection_active: false,
            search_input: post.search_input,
            ..pre
        },
        post,
    )
}

/// Escape in normal mode: clears an active search (with a message), and
/// cancels an active selection.
pub open spec fn esc_normal(pre: App, post: App) -> bool {
    let cleared = pre.search_input.value@.len() > 0;
    &&& post == (App {
        search_input: post.search_input,
        selection_active: false,
        status_message: post.status_message,
        ..pre
    })
    &&& (cleared ==> post.search_input.value@ == Seq::<char>::empty()
        && post.search_input.cursor == 0)
    &&& (!cleared ==> post.search_input == pre.search_input)
    &&& post.status_message@ == (if cleared {
        "Search cleared"@
    } else if pre.selection_active {
        "Selection canceled"@
    } else {
        pre.status_message@
    })
    &&& (!cleared && !pre.selection_active ==> post.status_message == pre.status_message)
}

/// Visual-line selection was toggled: refused while searching, anchored at
/// the cursor when starting, dropped when already active.
pub open spec fn selection_toggled(pre: App, post: App) -> bool {
    if pre.search_input.value@.len() > 0 {
        post == (App { status_message: post.status_message, ..pre }) && post.status_message@
            == "Selection disabled while searching"@
    } else if pre.lines@.len() == 0 {
        post == pre
    } else if pre.selection_active {
        post == (App { selection_active: false, status_message: post.status_message, ..pre })
            && post.status_message@ == "Selection cleared"@
    } else {
        post == (App {
            selection_active: true,
            selection_anchor: pre.cursor,
            status_message: post.status_message,
            ..pre
        }) && post.status_message@ == "Visual line selection"@
    }
}

/// An external edit was requested for the task under the cursor, if any.
pub open spec fn external_requested(pre: App, post: App) -> bool {
    exists|r: Option<String>| #[trigger] external_edit_started(pre, post, r)
}

/// What one key does in normal mode.
pub open spec fn normal_key_handled(pre: App, post: App, key: Key) -> bool {
    match key {
        Key::Ctrl(c) => if c == 'c' {
            post == (App { should_quit: true, ..pre })
        } else if c == 'r' {
            redo_chain(pre, post)
        } else {
            post == pre
        },
        Key::Char(c) => if c == '/' {
            search_entered(pre, post)
        } else if c == 'q' {
            post == (App { should_quit: true, ..pre })
        } else if c == 'j' {
            cursor_moved_visible(pre, post, 1)
        } else if c == 'k' {
            cursor_moved_visible(pre, post, -1)
        } else if c == 'g' {
            cursor_moved_first(pre, post)
        } else if c == 'G' {
            cursor_moved_last(pre, post)
        } else if c == 'd' {
            post == (App { pending_d: true, status_message: post.status_message, ..pre })
                && post.status_message@ == "d-"@
        } else if c == 'u' {
            undo_chain(pre, post)
        } else if c == ' ' {
            toggled_tasks(pre, post)
        } else if c == 'V' || c == 'v' {
            selection_toggled(pre, post)
        } else if c == 'e' {
            external_requested(pre, post)
        } else if c == 'i' {
            edit_current_started(pre, post)
        } else if c == 'o' {
            started_task_insert(pre, post, (pre.cursor + 1) as usize)
        } else if c == 'O' {
            started_task_insert(pre, post, pre.cursor)
        } else if c == 'S' {
            started_section_insert(pre, post, (pre.cursor + 1) as usize)
        } else if c == 'r' {
            post == (App { reload_requested: true, ..pre })
        } else {
            post == pre
        },
        Key::Down => cursor_moved_visible(pre, post, 1),
        Key::Up => cursor_moved_visible(pre, post, -1),
        Key::Enter => toggled_tasks(pre, post),
        Key::Esc => esc_normal(pre, post),
        _ => post == pre,
    }
}

/// The normal-mode dispatch, including the two-stroke `dd` delete: after a
/// pending `d`, a second `d` deletes the current line, and any other key
/// falls through with the pending flag dropped.
pub open spec fn normal_dispatched(pre: App, post: App, key: Key) -> bool {
    let pre2 = App { pending_d: false, ..pre };
    if pre.pending_d && key == Key::Char('d') {
        deleted_line(pre2, post)
    } else {
        normal_key_handled(pre2, post, key)
    }
}

/// What one key does in search mode. `Esc`, or a backspace that empties
/// the query, leaves search; `Enter` returns to normal mode and toggles;
/// typing edits the query and keeps the cursor visible.
pub open spec fn search_key_handled(pre: App, post: App, key: Key) -> bool {
    match key {
        Key::Esc => {
            &&& post == (App {
                search_input: post.search_input,
                mode: Mode::Normal,
                status_message: post.status_message,
                selection_active: false,
                ..pre
            })
            &&& post.search_input.value@ == Seq::<char>::empty()
            &&& post.search_input.cursor == 0
            &&& post.status_message@ == "Search cleared"@
        },
        Key::Enter => toggled_tasks(App { mode: Mode::Normal, ..pre }, post),
        Key::Char(c) => if pre.search_input.value@.len() < usize::MAX {
            &&& post.search_input.value@ == pre.search_input.value@.insert(
                pre.search_input.cursor as int,
                c,
            )
            &&& post.search_input.cursor == pre.search_input.cursor + 1
            &&& cursor_search_fixed(App { search_input: post.search_input, ..pre }, post)
        } else {
            post == pre
        },
        Key::Backspace => if pre.search_input.value@.len() <= 1 {
            &&& post == (App {
                search_input: post.search_input,
                mode: Mode::Normal,
                status_message: post.status_message,
                ..pre
            })
            &&& post.search_input.value@ == Seq::<char>::empty()
            &&& post.search_input.cursor == 0
            &&& post.status_message@ == "Search cleared"@
        } else {
            &&& (pre.search_input.cursor == 0 ==> post.search_input == pre.search_input)
            &&& (pre.search_input.cursor > 0 ==> post.search_input.value@
                == pre.search_input.value@.remove(pre.search_input.cursor - 1)
                && post.search_input.cursor == pre.search_input.cursor - 1)
            &&& cursor_search_fixed(App { search_input: post.search_input, ..pre }, post)
        },
        Key::Delete => {
            &&& (pre.search_input.cursor == pre.search_input.value@.len() ==> post.search_input
                == pre.search_input)
            &&& (pre.search_input.cursor < pre.search_input.value@.len()
                ==> post.search_input.value@ == pre.search_input.value@.remove(
                pre.search_input.cursor as int,
            ) && post.search_input.cursor == pre.search_input.cursor)
            &&& cursor_search_fixed(App { search_input: post.search_input, ..pre }, post)
        },
        Key::Left => {
            &&& post == (App { search_input: post.search_input, ..pre })
            &&& post.search_input.value == pre.search_input.value
            &&& post.search_input.cursor as int == if pre.search_input.cursor == 0 {
                0int
            } else {
                pre.search_input.cursor - 1
            }
        },
        Key::Right => {
            &&& post == (App { search_input: post.search_input, ..pre })
            &&& post.search_input.value == pre.search_input.value
            &&& post.search_input.cursor as int == if pre.search_input.cursor
                == pre.search_input.value@.len() {
                pre.search_input.cursor as int
            } else {
                pre.search_input.cursor + 1
            }
        },
        Key::Home => {
            &&& post == (App { search_input: post.search_input, ..pre })
            &&& post.search_input.value == pre.search_input.value
            &&& post.search_input.cursor == 0
        },
        Key::End => {
            &&& post == (App { search_input: post.search_input, ..pre })
            &&& post.search_input.value == pre.search_input.value
            &&& post.search_input.cursor == pre.search_input.value@.len()
        },
        Key::Up => cursor_moved_visible(pre, post, -1),
        Key::Down => cursor_moved_visible(pre, post, 1),
        _ => post == pre,
    }
}

impl App {
    /// Handles one key in edit mode.
    pub fn handle_edit_key(&mut self, key: Key)
        requires
            old(self).wf(),
            old(self).mode == Mode::Edit,
            old(self).lines@.len() < usize::MAX,
        ensures
            final(self).wf(),
            edit_key_handled(*old(self), *final(self), key),
    {
        match key {
            Key::Esc => {
                let raw = String::from_str(self.text_input.value());
                if !is_blank(raw.as_str()) {
                    self.apply_current_edit(raw.as_str());
                    let ghost mid = *self;
                    self.save_and_set_status("Saved");
                    self.exit_edit_mode();
                    proof {
                        assert(edit_committed(*old(self), mid, raw@));
                    }
                } else {
                    self.exit_edit_mode();
                }
            },
            Key::Enter => {
                let raw = String::from_str(self.text_input.value());
                if is_blank(raw.as_str()) {
                    self.exit_edit_mode();
                    return ;
                }
                self.apply_current_edit(raw.as_str());
                let ghost mid = *self;
                self.save_and_set_status("");
                proof {
                    reveal_strlit("");
                    assert(""@ =~= Seq::<char>::empty());
                }
                if matches!(self.edit_target, EditTarget::Task) {
                    let here = self.cursor;
                    let nc = if here >= self.lines.len() {
                        self.lines.len()
                    } else {
                        here + 1
                    };
                    self.insert_index = Some(nc);
                    self.edit_index = Some(nc);
                    self.edit_intent = EditIntent::Insert;
                    self.cursor = nc;
                    self.text_input.reset();
                    proof {
                        assert(edit_committed(*old(self), mid, raw@));
                    }
                    return ;
                }
                self.exit_edit_mode();
                proof {
                    assert(edit_committed(*old(self), mid, raw@));
                }
            },
            Key::Tab => {
                if matches!(self.edit_target, EditTarget::Task) {
                    self.change_indent(1);
                }
            },
            Key::BackTab => {
                if matches!(self.edit_target, EditTarget::Task) {
                    self.change_indent(-1);
                }
            },
            Key::Char(c) => {
                if self.text_input.value().unicode_len() < usize::MAX {
                    self.text_input.insert_char(c);
                }
            },
            Key::Backspace => {
                self.text_input.backspace();
            },
            Key::Delete => {
                self.text_input.delete();
            },
            Key::Left => {
                self.text_input.move_left();
            },
            Key::Right => {
                self.text_input.move_right();
            },
            Key::Home => {
                self.text_input.move_home();
            },
            Key::End => {
                self.text_input.move_end();
            },
            _ => {},
        }
    }

    /// Handles one key in normal mode.
    #[verifier::rlimit(100)]
    pub fn handle_normal_key(&mut self, key: Key)
        requires
            old(self).wf(),
            old(self).mode == Mode::Normal,
            old(self).lines@.len() < usize::MAX,
        ensures
            final(self).wf(),
            normal_dispatched(*old(self), *final(self), key),
    {
        if self.pending_d {
            self.pending_d = false;
            let second_d = match key {
                Key::Char(c) => c == 'd',
                _ => false,
            };
            if second_d {
                self.delete_current_line();
                return ;
            }
        }
        match key {
            Key::Ctrl(c) => {
                if c == 'c' {
                    self.should_quit = true;
                } else if c == 'r' {
                    self.redo();
                    let ghost mid = *self;
                    if str_eq(self.status_message.as_str(), "Redo") {
                        self.save_and_set_status("Redo");
                    }
                }
            },
            Key::Char(c) => {
                if c == '/' {
                    self.clear_selection();
                    self.mode = Mode::Search;
                    if self.search_active() {
                        if self.search_input.value().unicode_len() < usize::MAX {
                            self.search_input.insert_char('/');
                        }
                    } else {
                        self.search_input.reset();
                    }
                    self.ensure_cursor_visible_for_search();
                } else if c == 'q' {
                    self.should_quit = true;
                } else if c == 'j' {
                    self.move_cursor_visible(1);
                } else if c == 'k' {
                    self.move_cursor_visible(-1);
                } else if c == 'g' {
                    self.move_cursor_to_visible_first();
                } else if c == 'G' {
                    self.move_cursor_to_visible_last();
                } else if c == 'd' {
                    self.pending_d = true;
                    self.status_message = String::from_str("d-");
                } else if c == 'u' {
                    self.undo();
                    let ghost mid = *self;
                    if str_eq(self.status_message.as_str(), "Undo") {
                        self.save_and_set_status("Undo");
                    }
                } else if c == ' ' {
                    self.toggle_tasks();
                } else if c == 'V' || c == 'v' {
                    if self.search_active() {
                        self.status_message = String::from_str(
                            "Selection disabled while searching",
                        );
                    } else if self.lines.len() == 0 {
                    } else if self.selection_active {
                        self.selection_active = false;
                        self.status_message = String::from_str("Selection cleared");
                    } else {
                        self.selection_active = true;
                        self.selection_anchor = self.cursor;
                        self.status_message = String::from_str("Visual line selection");
                    }
                } else if c == 'e' {
                    let handed = self.start_external_edit();
                    proof {
                        assert(external_edit_started(
                            App { pending_d: false, ..*old(self) },
                            *self,
                            handed,
                        ));
                    }
                } else if c == 'i' {
                    self.start_edit_current();
                } else if c == 'o' {
                    let at = self.cursor + 1;
                    self.start_insert_task_at(at);
                } else if c == 'O' {
                    let at = self.cursor;
                    self.start_insert_task_at(at);
                } else if c == 'S' {
                    let at = self.cursor + 1;
                    self.start_insert_section_at(at);
                } else if c == 'r' {
                    self.request_reload();
                }
            },
            Key::Down => {
                self.move_cursor_visible(1);
            },
            Key::Up => {
                self.move_cursor_visible(-1);
            },
            Key::Enter => {
                self.toggle_tasks();
            },
            Key::Esc => {
                let mut cleared = false;
                if self.search_active() {
                    self.search_input.reset();
                    cleared = true;
                }
                if self.selection_active {
                    self.selection_active = false;
                    self.status_message = String::from_str("Selection canceled");
                }
                if cleared {
                    self.status_message = String::from_str("Search cleared");
                }
            },
            _ => {},
        }
    }

    /// Handles one key in search mode.
    pub fn handle_search_key(&mut self, key: Key)
        requires
            old(self).wf(),
            old(self).mode == Mode::Search,
        ensures
            final(self).wf(),
            search_key_handled(*old(self), *final(self), key),
    {
        match key {
            Key::Esc => {
                self.search_input.reset();
                self.mode = Mode::Normal;
                self.status_message = String::from_str("Search cleared");
                self.clear_selection();
            },
            Key::Enter => {
                self.mode = Mode::Normal;
                self.toggle_tasks();
            },
            Key::Char(c) => {
                if self.search_input.value().unicode_len() < usize::MAX {
                    self.search_input.insert_char(c);
                    self.ensure_cursor_visible_for_search();
                }
            },
            Key::Backspace => {
                let remaining = self.search_input.value().unicode_len();
                if remaining <= 1 {
                    self.search_input.reset();
                    self.mode = Mode::Normal;
                    self.status_message = String::from_str("Search cleared");
                    return ;
                }
                self.search_input.backspace();
                self.ensure_cursor_visible_for_search();
            },
            Key::Delete => {
                self.search_input.delete();
                self.ensure_cursor_visible_for_search();
            },
            Key::Left => {
                self.search_input.move_left();
            },
            Key::Right => {
                self.search_input.move_right();
            },
            Key::Home => {
                self.search_input.move_home();
            },
            Key::End => {
                self.search_input.move_end();
            },
            Key::Up => {
                self.move_cursor_visible(-1);
            },
            Key::Down => {
                self.move_cursor_visible(1);
            },
            _ => {},
        }
    }

    /// Handles one key, dispatching on the current mode.
    pub fn handle_key(&mut self, key: Key)
        requires
            old(self).wf(),
            old(self).lines@.len() < usize::MAX,
        ensures
            final(self).wf(),
            match old(self).mode {
                Mode::Edit => edit_key_handled(*old(self), *final(self), key),
                Mode::Normal => normal_dispatched(*old(self), *final(self), key),
                Mode::Search => search_key_handled(*old(self), *final(self), key),
            },
    {
        match self.mode {
            Mode::Edit => self.handle_edit_key(key),
            Mode::Normal => self.handle_normal_key(key),
            Mode::Search => self.handle_search_key(key),
        }
    }
}

} // verus!
