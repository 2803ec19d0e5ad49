//! Starting, applying and leaving edit sessions: update or insert of tasks
//! and section headers, indent cycling, and the clamping helpers that keep
//! every index in bounds.

use vstd::prelude::*;
use vstd::string::StrSliceExecFns;
use vstd::string::StringExecFns;

use crate::history::hist_of;
use crate::history::snapshot_step;
use crate::model::App;
use crate::model::EditIntent;
use crate::model::EditTarget;
use crate::model::LineItem;
use crate::model::Mode;
use crate::model::Task;

verus! {

/// A cursor clamped into the document: the last index when past the end,
/// zero when the document is empty.
pub open spec fn clamp_cursor_spec(cursor: nat, length: nat) -> nat {
    if length == 0 {
        0
    } else if cursor >= length {
        (length - 1) as nat
    } else {
        cursor
    }
}

/// Clamps a cursor into `[0, length-1]`, or to `0` when `length` is `0`.
pub fn clamp_cursor(cursor: usize, length: usize) -> (r: usize)
    ensures
        r as nat == clamp_cursor_spec(cursor as nat, length as nat),
        length > 0 ==> r < length,
        length == 0 ==> r == 0,
        cursor < length ==> r == cursor,
{
    if length == 0 {
        return 0;
    }
    if cursor >= length {
        return length - 1;
    }
    cursor
}

/// An insertion index clamped into `[0, length]`.
pub open spec fn clamp_index_spec(index: int, length: int) -> int {
    if index > length {
        length
    } else {
        index
    }
}

/// Clamps an insertion index into `[0, length]`.
pub fn clamp_index(index: usize, length: usize) -> (r: usize)
    ensures
        r as int == clamp_index_spec(index as int, length as int),
        r <= length,
{
    if index > length {
        length
    } else {
        index
    }
}

/// Bytes one character of a stored indent occupies when a tab counts as
/// four spaces.
pub open spec fn indent_cell(c: char) -> nat {
    if c == '\t' {
        4
    } else if (c as u32) < 0x80 {
        1
    } else if (c as u32) < 0x800 {
        2
    } else if (c as u32) < 0x10000 {
        3
    } else {
        4
    }
}

/// The tab-expanded byte length of a stored indent.
pub open spec fn indent_units(s: Seq<char>) -> nat
    decreases s.len(),
{
    if s.len() == 0 {
        0
    } else {
        indent_units(s.drop_last()) + indent_cell(s.last())
    }
}

pub proof fn lemma_indent_units_concat(a: Seq<char>, b: Seq<char>)
    ensures
        indent_units(a + b) == indent_units(a) + indent_units(b),
    decreases b.len(),
{
    if b.len() == 0 {
        assert(a + b =~= a);
    } else {
        lemma_indent_units_concat(a, b.drop_last());
        assert((a + b).drop_last() =~= a + b.drop_last());
        assert((a + b).last() == b.last());
    }
}

/// The indent level a stored indent denotes: its tab-expanded length in
/// units of four, capped at the deepest of the four fixed levels.
pub open spec fn indent_level_spec(s: Seq<char>) -> nat {
    if indent_units(s) / 4 >= 3 {
        3
    } else {
        indent_units(s) / 4
    }
}

/// The indent string of one of the four fixed levels.
pub open spec fn indent_level_str(level: nat) -> Seq<char> {
    if level == 0 {
        ""@
    } else if level == 1 {
        "    "@
    } else if level == 2 {
        "        "@
    } else {
        "            "@
    }
}

/// The indent string of one of the four fixed levels.
pub fn indent_for_level(level: usize) -> (r: &'static str)
    requires
        level < 4,
    ensures
        r@ == indent_level_str(level as nat),
{
    if level == 0 {
        ""
    } else if level == 1 {
        "    "
    } else if level == 2 {
        "        "
    } else {
        "            "
    }
}

/// The indent level of a stored indent; tabs count as four spaces.
pub fn get_indent_level(indent: &str) -> (r: usize)
    ensures
        r as nat == indent_level_spec(indent@),
        r < 4,
{
    let n = indent.unicode_len();
    let mut i: usize = 0;
    let mut acc: usize = 0;
    while i < n && acc < 12
        invariant
            n == indent@.len(),
            i <= n,
            acc == indent_units(indent@.take(i as int)),
            acc <= 15,
        decreases n - i,
    {
        let c = indent.get_char(i);
        let cell: usize = if c == '\t' {
            4
        } else {
            let u = c as u32;
            if u < 0x80 {
                1
            } else if u < 0x800 {
                2
            } else if u < 0x10000 {
                3
            } else {
                4
            }
        };
        proof {
            assert(indent@.take(i + 1).drop_last() =~= indent@.take(i as int));
            assert(indent@.take(i + 1).last() == indent@[i as int]);
        }
        acc = acc + cell;
        i = i + 1;
    }
    proof {
        assert(indent@.take(i as int) + indent@.skip(i as int) =~= indent@);
        lemma_indent_units_concat(indent@.take(i as int), indent@.skip(i as int));
    }
    if acc >= 12 {
        3
    } else {
        proof {
            assert(i == n);
            assert(indent@.take(i as int) =~= indent@);
        }
        acc / 4
    }
}

/// An indent level shifted by `delta` and clamped into the four levels.
pub open spec fn shifted_level(level: nat, delta: int) -> nat {
    if level + delta < 0 {
        0
    } else if level + delta > 3 {
        3
    } else {
        (level + delta) as nat
    }
}

/// A task-edit session has begun on the item under the cursor.
pub open spec fn started_task_edit(pre: App, post: App) -> bool {
    &&& post == (App {
        mode: Mode::Edit,
        edit_intent: EditIntent::Update,
        edit_target: EditTarget::Task,
        selection_active: false,
        input_placeholder: post.input_placeholder,
        text_input: post.text_input,
        edit_index: Some(pre.cursor),
        status_message: post.status_message,
        ..pre
    })
    &&& post.input_placeholder@ == "Describe the task"@
    &&& post.text_input.value == pre.lines@[pre.cursor as int].task_spec().text
    &&& post.text_input.cursor == post.text_input.value@.len()
    &&& post.status_message@ == "Editing current task"@
}

/// A section-edit session has begun on the item under the cursor.
pub open spec fn started_section_edit(pre: App, post: App) -> bool {
    &&& post == (App {
        mode: Mode::Edit,
        edit_intent: EditIntent::Update,
        edit_target: EditTarget::Section,
        selection_active: false,
        input_placeholder: post.input_placeholder,
        text_input: post.text_input,
        edit_index: Some(pre.cursor),
        status_message: post.status_message,
        ..pre
    })
    &&& post.input_placeholder@ == "Section title"@
    &&& post.text_input.value@ == pre.lines@[pre.cursor as int].title_spec()
    &&& post.text_input.cursor == post.text_input.value@.len()
    &&& post.status_message@ == "Editing section"@
}

/// A task-insert session has begun at the clamped index, with the template
/// reseeded from the task under the cursor when there is one.
pub open spec fn started_task_insert(pre: App, post: App, index: usize) -> bool {
    let idx = clamp_index_spec(index as int, pre.lines@.len() as int);
    let from_cursor = pre.cursor < pre.lines@.len() && pre.lines@[pre.cursor as int].is_task_spec();
    &&& post == (App {
        mode: Mode::Edit,
        edit_intent: EditIntent::Insert,
        edit_target: EditTarget::Task,
        selection_active: false,
        insert_index: post.insert_index,
        edit_index: post.edit_index,
        cursor: post.cursor,
        text_input: post.text_input,
        input_placeholder: post.input_placeholder,
        status_message: post.status_message,
        edit_template: post.edit_template,
        ..pre
    })
    &&& post.cursor as int == idx
    &&& post.insert_index == Some(post.cursor)
    &&& post.edit_index == Some(post.cursor)
    &&& post.text_input.value@ == Seq::<char>::empty()
    &&& post.text_input.cursor == 0
    &&& post.input_placeholder@ == "Describe the task"@
    &&& post.status_message@ == "New task"@
    &&& post.edit_template.indent == if from_cursor {
        pre.lines@[pre.cursor as int].task_spec().indent
    } else {
        pre.edit_template.indent
    }
    &&& post.edit_template.bullet == if from_cursor {
        pre.lines@[pre.cursor as int].task_spec().bullet
    } else {
        pre.edit_template.bullet
    }
    &&& post.edit_template.completed == pre.edit_template.completed
    &&& post.edit_template.text == pre.edit_template.text
}

/// A section-insert session has begun at the clamped index.
pub open spec fn started_section_insert(pre: App, post: App, index: usize) -> bool {
    let idx = clamp_index_spec(index as int, pre.lines@.len() as int);
    &&& post == (App {
        mode: Mode::Edit,
        edit_intent: EditIntent::Insert,
        edit_target: EditTarget::Section,
        selection_active: false,
        insert_index: post.insert_index,
        edit_index: post.edit_index,
        cursor: post.cursor,
        text_input: post.text_input,
        input_placeholder: post.input_placeholder,
        status_message: post.status_message,
        ..pre
    })
    &&& post.cursor as int == idx
    &&& post.insert_index == Some(post.cursor)
    &&& post.edit_index == Some(post.cursor)
    &&& post.text_input.value@ == Seq::<char>::empty()
    &&& post.text_input.cursor == 0
    &&& post.input_placeholder@ == "Section title"@
    &&& post.status_message@ == "New section"@
}

/// An edit began on whatever sits under the cursor: a section edit on a
/// section, a task edit on a task, nothing on an empty or out-of-range
/// position.
pub open spec fn edit_current_started(pre: App, post: App) -> bool {
    let live = pre.lines@.len() > 0 && pre.cursor < pre.lines@.len();
    if live && pre.lines@[pre.cursor as int].is_section_spec() {
        started_section_edit(pre, post)
    } else if live && pre.lines@[pre.cursor as int].is_task_spec() {
        started_task_edit(pre, post)
    } else {
        post == pre
    }
}

/// The committed value landed in the document according to the session's
/// target and intent.
pub open spec fn edit_committed(pre: App, post: App, value: Seq<char>) -> bool {
    match (pre.edit_target, pre.edit_intent) {
        (EditTarget::Section, EditIntent::Update) => applied_section_update(pre, post, value),
        (EditTarget::Section, EditIntent::Insert) => applied_section_insert(pre, post, value),
        (EditTarget::Task, EditIntent::Update) => applied_task_update(pre, post, value),
        (EditTarget::Task, EditIntent::Insert) => applied_task_insert(pre, post, value),
        _ => post == pre,
    }
}

/// The indent of the edited task, or of the insert template, was shifted
/// by `delta` through the four fixed levels; outside a task edit session
/// nothing changed.
pub open spec fn indent_changed(pre: App, post: App, delta: int) -> bool {
    &&& (pre.edit_target != EditTarget::Task ==> post == pre)
    &&& (pre.edit_target == EditTarget::Task && pre.edit_intent == EditIntent::Update ==> (
    match pre.edit_index {
        Some(idx) => {
            if idx < pre.lines@.len() && pre.lines@[idx as int].is_task_spec() {
                &&& post == (App { lines: post.lines, ..pre })
                &&& post.lines@ == pre.lines@.update(idx as int, post.lines@[idx as int])
                &&& post.lines@[idx as int].is_task_spec()
                &&& post.lines@[idx as int].task_spec().indent@ == indent_level_str(
                    shifted_level(
                        indent_level_spec(pre.lines@[idx as int].task_spec().indent@),
                        delta,
                    ),
                )
                &&& post.lines@[idx as int].task_spec().bullet
                    == pre.lines@[idx as int].task_spec().bullet
                &&& post.lines@[idx as int].task_spec().completed
                    == pre.lines@[idx as int].task_spec().completed
                &&& post.lines@[idx as int].task_spec().text
                    == pre.lines@[idx as int].task_spec().text
            } else {
                post == pre
            }
        },
        None => post == pre,
    }))
    &&& (pre.edit_target == EditTarget::Task && pre.edit_intent == EditIntent::Insert ==> {
        &&& post == (App { edit_template: post.edit_template, ..pre })
        &&& post.edit_template.indent@ == indent_level_str(
            shifted_level(indent_level_spec(pre.edit_template.indent@), delta),
        )
        &&& post.edit_template.bullet == pre.edit_template.bullet
        &&& post.edit_template.completed == pre.edit_template.completed
        &&& post.edit_template.text == pre.edit_template.text
    })
    &&& (pre.edit_target == EditTarget::Task && pre.edit_intent == EditIntent::Idle ==> post
        == pre)
}

/// The edit session was discarded: the session fields reset, the cursor
/// clamped back into the document, and the selection re-normalized.
pub open spec fn exited_edit_from(pre: App, post: App) -> bool {
    &&& post == (App {
        mode: Mode::Normal,
        edit_intent: EditIntent::Idle,
        edit_target: EditTarget::Task,
        pending_reload: false,
        edit_index: None,
        insert_index: None,
        cursor: post.cursor,
        text_input: post.text_input,
        selection_active: post.selection_active,
        selection_anchor: post.selection_anchor,
        ..pre
    })
    &&& post.cursor as nat == clamp_cursor_spec(pre.cursor as nat, pre.lines@.len())
    &&& post.text_input.value@ == Seq::<char>::empty()
    &&& post.text_input.cursor == 0
    &&& post.selection_active == (pre.selection_active && pre.lines@.len() > 0)
    &&& post.selection_anchor as nat == if pre.selection_active && pre.lines@.len() > 0
        && pre.selection_anchor >= pre.lines@.len() {
        (pre.lines@.len() - 1) as nat
    } else {
        pre.selection_anchor as nat
    }
}

/// The committed value overwrote the title of the section at `edit_index`,
/// after an undo snapshot; with a stale index nothing changed.
pub open spec fn applied_section_update(pre: App, post: App, value: Seq<char>) -> bool {
    match pre.edit_index {
        Some(idx) => {
            if idx < pre.lines@.len() && pre.lines@[idx as int].is_section_spec() {
                &&& post == (App {
                    lines: post.lines,
                    undo_stack: post.undo_stack,
                    redo_stack: post.redo_stack,
                    ..pre
                })
                &&& hist_of(post).undo == snapshot_step(hist_of(pre)).undo
                &&& hist_of(post).redo == snapshot_step(hist_of(pre)).redo
                &&& post.lines@ == pre.lines@.update(idx as int, post.lines@[idx as int])
                &&& post.lines@[idx as int].is_section_spec()
                &&& post.lines@[idx as int].title_spec() == value
            } else {
                post == pre
            }
        },
        None => post == pre,
    }
}

/// The committed value became a new section at the clamped insertion index,
/// after an undo snapshot; the cursor moved onto it.
pub open spec fn applied_section_insert(pre: App, post: App, value: Seq<char>) -> bool {
    let at = clamp_index_spec(
        match pre.insert_index {
            Some(i) => i as int,
            None => 0,
        },
        pre.lines@.len() as int,
    );
    &&& post == (App {
        lines: post.lines,
        cursor: post.cursor,
        undo_stack: post.undo_stack,
        redo_stack: post.redo_stack,
        ..pre
    })
    &&& hist_of(post).undo == snapshot_step(hist_of(pre)).undo
    &&& hist_of(post).redo == snapshot_step(hist_of(pre)).redo
    &&& post.lines@ == pre.lines@.insert(at, post.lines@[at])
    &&& post.lines@[at].is_section_spec()
    &&& post.lines@[at].title_spec() == value
    &&& post.cursor as int == at
}

/// The committed value overwrote the text of the task at `edit_index`,
/// without an undo snapshot; with a stale index nothing changed.
pub open spec fn applied_task_update(pre: App, post: App, value: Seq<char>) -> bool {
    match pre.edit_index {
        Some(idx) => {
            if idx < pre.lines@.len() && pre.lines@[idx as int].is_task_spec() {
                &&& post == (App { lines: post.lines, ..pre })
                &&& post.lines@ == pre.lines@.update(idx as int, post.lines@[idx as int])
                &&& post.lines@[idx as int].is_task_spec()
                &&& post.lines@[idx as int].task_spec().indent == pre.lines@[idx as int].task_spec().indent
                &&& post.lines@[idx as int].task_spec().bullet == pre.lines@[idx as int].task_spec().bullet
                &&& post.lines@[idx as int].task_spec().completed == pre.lines@[idx as int].task_spec().completed
                &&& post.lines@[idx as int].task_spec().text@ == value
            } else {
                post == pre
            }
        },
        None => post == pre,
    }
}

/// The committed value became a new open task at the clamped insertion
/// index, styled by the template, without an undo snapshot; the cursor
/// moved onto it.
pub open spec fn applied_task_insert(pre: App, post: App, value: Seq<char>) -> bool {
    let at = clamp_index_spec(
        match pre.insert_index {
            Some(i) => i as int,
            None => 0,
        },
        pre.lines@.len() as int,
    );
    &&& post == (App { lines: post.lines, cursor: post.cursor, ..pre })
    &&& post.lines@ == pre.lines@.insert(at, post.lines@[at])
    &&& post.lines@[at].is_task_spec()
    &&& post.lines@[at].task_spec().indent == pre.edit_template.indent
    &&& post.lines@[at].task_spec().bullet == pre.edit_template.bullet
    &&& post.lines@[at].task_spec().completed == false
    &&& post.lines@[at].task_spec().text@ == value
    &&& post.cursor as int == at
}

impl App {
    /// Begins an edit of whatever sits under the cursor.
    pub fn start_edit_current(&mut self)
        requires
            old(self).wf(),
        ensures
            final(self).wf(),
            edit_current_started(*old(self), *final(self)),
    {
        if self.lines.len() == 0 {
            return ;
        }
        if self.cursor >= self.lines.len() {
            return ;
        }
        if self.lines[self.cursor].is_section() {
            self.start_edit_section();
        } else {
            self.start_edit_task();
        }
    }

    /// Begins an update edit of the task under the cursor, capturing its
    /// text into the input buffer.
    pub fn start_edit_task(&mut self)
        requires
            old(self).wf(),
        ensures
            final(self).wf(),
            if old(self).lines@.len() > 0 && old(self).cursor < old(self).lines@.len() && old(
                self,
            ).lines@[old(self).cursor as int].is_task_spec() {
                started_task_edit(*old(self), *final(self))
            } else {
                *final(self) == *old(self)
            },
    {
        if self.lines.len() == 0 {
            return ;
        }
        if self.cursor >= self.lines.len() {
            return ;
        }
        let text = match &self.lines[self.cursor] {
            LineItem::Task(t) => t.text.clone(),
            _ => { return ; },
        };
        self.clear_selection();
        self.mode = Mode::Edit;
        self.edit_intent = EditIntent::Update;
        self.edit_target = EditTarget::Task;
        self.input_placeholder = String::from_str("Describe the task");
        self.text_input.set_value(text);
        self.edit_index = Some(self.cursor);
        self.status_message = String::from_str("Editing current task");
    }

    /// Begins an update edit of the section under the cursor, capturing its
    /// title into the input buffer.
    pub fn start_edit_section(&mut self)
        requires
            old(self).wf(),
        ensures
            final(self).wf(),
            if old(self).lines@.len() > 0 && old(self).cursor < old(self).lines@.len() && old(
                self,
            ).lines@[old(self).cursor as int].is_section_spec() {
                started_section_edit(*old(self), *final(self))
            } else {
                *final(self) == *old(self)
            },
    {
        if self.lines.len() == 0 {
            return ;
        }
        if self.cursor >= self.lines.len() {
            return ;
        }
        let title = match &self.lines[self.cursor] {
            LineItem::Section { title } => title.clone(),
            _ => { return ; },
        };
        self.clear_selection();
        self.mode = Mode::Edit;
        self.edit_intent = EditIntent::Update;
        self.edit_target = EditTarget::Section;
        self.input_placeholder = String::from_str("Section title");
        self.text_input.set_value(title);
        self.edit_index = Some(self.cursor);
        self.status_message = String::from_str("Editing section");
    }

    /// Begins inserting a task at the given index (clamped), seeding the
    /// template's indent and bullet from the task under the cursor.
    pub fn start_insert_task_at(&mut self, index: usize)
        requires
            old(self).wf(),
        ensures
            final(self).wf(),
            started_task_insert(*old(self), *final(self), index),
    {
        let mut template = self.edit_template.clone_task();
        if self.cursor < self.lines.len() {
            if let LineItem::Task(task) = &self.lines[self.cursor] {
                template.indent = task.indent.clone();
                template.bullet = task.bullet.clone();
            }
        }
        self.clear_selection();
        self.mode = Mode::Edit;
        self.edit_intent = EditIntent::Insert;
        self.edit_target = EditTarget::Task;
        let at = clamp_index(index, self.lines.len());
        self.insert_index = Some(at);
        self.edit_index = Some(at);
        self.cursor = at;
        self.text_input.reset();
        self.input_placeholder = String::from_str("Describe the task");
        self.status_message = String::from_str("New task");
        self.edit_template = template;
    }

    /// Begins inserting a section at the given index (clamped).
    pub fn start_insert_section_at(&mut self, index: usize)
        requires
            old(self).wf(),
        ensures
            final(self).wf(),
            started_section_insert(*old(self), *final(self), index),
    {
        self.clear_selection();
        self.mode = Mode::Edit;
        self.edit_intent = EditIntent::Insert;
        self.edit_target = EditTarget::Section;
        let at = clamp_index(index, self.lines.len());
        self.insert_index = Some(at);
        self.edit_index = Some(at);
        self.cursor = at;
        self.text_input.reset();
        self.input_placeholder = String::from_str("Section title");
        self.status_message = String::from_str("New section");
    }

    /// Commits the edited value into the document. Section updates and
    /// inserts snapshot for undo first; task updates and inserts do not —
    /// only deletions and section operations take part in undo history.
    pub fn apply_current_edit(&mut self, value: &str)
        requires
            old(self).wf(),
        ensures
            final(self).wf(),
            edit_committed(*old(self), *final(self), value@),
    {
        match self.edit_target {
            EditTarget::Section => {
                match self.edit_intent {
                    EditIntent::Update => {
                        if let Some(idx) = self.edit_index {
                            if idx < self.lines.len() && self.lines[idx].is_section() {
                                self.save_undo_state();
                                let title = String::from_str(value);
                                self.lines[idx] = LineItem::Section { title };
                                proof {
                                    assert(self.lines@ =~= old(self).lines@.update(
                                        idx as int,
                                        self.lines@[idx as int],
                                    ));
                                }
                            }
                        }
                    },
                    EditIntent::Insert => {
                        let at = clamp_index(
                            match self.insert_index {
                                Some(i) => i,
                                None => 0,
                            },
                            self.lines.len(),
                        );
                        self.save_undo_state();
                        let title = String::from_str(value);
                        self.lines.insert(at, LineItem::Section { title });
                        self.cursor = at;
                    },
                    EditIntent::Idle => {},
                }
            },
            EditTarget::Task => {
                match self.edit_intent {
                    EditIntent::Update => {
                        if let Some(idx) = self.edit_index {
                            if idx < self.lines.len() {
                                let keep = self.lines[idx].clone_item();
                                if let LineItem::Task(t) = keep {
                                    let text = String::from_str(value);
                                    self.lines[idx] = LineItem::Task(
                                        Task {
                                            indent: t.indent,
                                            bullet: t.bullet,
                                            completed: t.completed,
                                            text,
                                        },
                                    );
                                    proof {
                                        assert(self.lines@ =~= old(self).lines@.update(
                                            idx as int,
                                            self.lines@[idx as int],
                                        ));
                                    }
                                }
                            }
                        }
                    },
                    EditIntent::Insert => {
                        let at = clamp_index(
                            match self.insert_index {
                                Some(i) => i,
                                None => 0,
                            },
                            self.lines.len(),
                        );
                        let text = String::from_str(value);
                        let new_task = Task {
                            indent: self.edit_template.indent.clone(),
                            bullet: self.edit_template.bullet.clone(),
                            completed: false,
                            text,
                        };
                        self.lines.insert(at, LineItem::Task(new_task));
                        self.cursor = at;
                    },
                    EditIntent::Idle => {},
                }
            },
        }
    }

    /// Leaves edit mode: discards the session, clamps the cursor back into
    /// the document, and re-normalizes the selection.
    pub fn exit_edit_mode(&mut self)
        requires
            old(self).wf(),
        ensures
            final(self).wf(),
            exited_edit_from(*old(self), *final(self)),
    {
        self.mode = Mode::Normal;
        self.edit_intent = EditIntent::Idle;
        self.edit_target = EditTarget::Task;
        self.pending_reload = false;
        self.edit_index = None;
        self.insert_index = None;
        self.cursor = clamp_cursor(self.cursor, self.lines.len());
        self.text_input.reset();
        self.normalize_selection();
    }

    /// Cycles the indent of the task being edited (or of the insert
    /// template) through the four fixed levels, clamped at both ends.
    pub fn change_indent(&mut self, delta: isize)
        requires
            old(self).wf(),
        ensures
            final(self).wf(),
            indent_changed(*old(self), *final(self), delta as int),
    {
        if !matches!(self.edit_target, EditTarget::Task) {
            return ;
        }
        match self.edit_intent {
            EditIntent::Update => {
                if let Some(idx) = self.edit_index {
                    if idx < self.lines.len() {
                        let keep = self.lines[idx].clone_item();
                        if let LineItem::Task(t) = keep {
                            let level = get_indent_level(t.indent.as_str());
                            let new_level = shift_level(level, delta);
                            let indent = String::from_str(indent_for_level(new_level));
                            self.lines[idx] = LineItem::Task(
                                Task {
                                    indent,
                                    bullet: t.bullet,
                                    completed: t.completed,
                                    text: t.text,
                                },
                            );
                            proof {
                                assert(self.lines@ =~= old(self).lines@.update(
                                    idx as int,
                                    self.lines@[idx as int],
                                ));
                            }
                        }
                    }
                }
            },
            EditIntent::Insert => {
                let level = get_indent_level(self.edit_template.indent.as_str());
                let new_level = shift_level(level, delta);
                let indent = String::from_str(indent_for_level(new_level));
                self.edit_template = Task {
                    indent,
                    bullet: self.edit_template.bullet.clone(),
                    completed: self.edit_template.completed,
                    text: self.edit_template.text.clone(),
                };
            },
            EditIntent::Idle => {},
        }
    }
}

/// Shifts an indent level by `delta`, clamped into the four fixed levels.
fn shift_level(level: usize, delta: isize) -> (r: usize)
    requires
        level < 4,
    ensures
        r as nat == shifted_level(level as nat, delta as int),
        r < 4,
{
    if delta >= 0 {
        let d = delta as usize;
        if d > 3 - level {
            3
        } else {
            level + d
        }
    } else if delta <= -4 {
        0
    } else {
        let m = (-delta) as usize;
        if m > level {
            0
        } else {
            level - m
        }
    }
}

} // verus!
